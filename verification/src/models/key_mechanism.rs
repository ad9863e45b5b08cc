use vstd::prelude::*;

verus! {

/// An operation that the HSM may be allowed to perform with a key.
#[derive(Clone, Copy, Debug, PartialEq, Eq, Structural, Hash)]
pub enum KeyMechanism {
    RsaDecryptionRaw,
    RsaDecryptionPkcs1,
    RsaDecryptionOaepMd5,
    RsaDecryptionOaepSha1,
    RsaDecryptionOaepSha224,
    RsaDecryptionOaepSha256,
    RsaDecryptionOaepSha384,
    RsaDecryptionOaepSha512,
    RsaSignaturePkcs1,
    RsaSignaturePssMd5,
    RsaSignaturePssSha1,
    RsaSignaturePssSha224,
    RsaSignaturePssSha256,
    RsaSignaturePssSha384,
    RsaSignaturePssSha512,
    EdDsaSignature,
    EcdsaSignature,
    Bip340Signature,
    AesEncryptionCbc,
    AesDecryptionCbc,
}

} // verus!
