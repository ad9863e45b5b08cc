//! The mechanism registry: which token mechanisms exist, what the HSM calls
//! them, and which sizes they impose.

use vstd::prelude::*;
use crate::error::Error;
use crate::models::key_mechanism::KeyMechanism;
use crate::object::Object;

verus! {

/// The operation a mechanism is requested for.
#[derive(Clone, Copy, Debug, PartialEq, Eq, Structural, Hash)]
pub enum MechMode {
    Sign,
    Encrypt,
    Decrypt,
}

/// Digest that parametrises the RSA-PSS and RSA-OAEP mechanisms.
#[derive(Clone, Copy, Debug, PartialEq, Eq, Structural, Hash)]
pub enum MechDigest {
    Md5,
    Sha1,
    Sha224,
    Sha256,
    Sha384,
    Sha512,
}

/// The HSM's name for a way of signing.
#[derive(Clone, Copy, Debug, PartialEq, Eq, Structural, Hash)]
pub enum SignMode {
    Pkcs1,
    PssMd5,
    PssSha1,
    PssSha224,
    PssSha256,
    PssSha384,
    PssSha512,
    EdDsa,
    Ecdsa,
}

/// A mechanism as the token interface names it.
#[derive(Clone, Copy, Debug, PartialEq, Eq, Structural, Hash)]
pub enum Mechanism {
    AesCbc,
    RsaX509,
    RsaPkcs,
    RsaPkcsOaep(MechDigest),
    RsaPkcsPss(MechDigest),
    EdDsa,
    Ecdsa,
}

pub const CKM_RSA_PKCS: u64 = 0x1;

pub const CKM_RSA_X_509: u64 = 0x3;

pub const CKM_RSA_PKCS_OAEP: u64 = 0x9;

pub const CKM_RSA_PKCS_PSS: u64 = 0xd;

pub const CKM_MD5: u64 = 0x210;

pub const CKM_SHA_1: u64 = 0x220;

pub const CKM_SHA256: u64 = 0x250;

pub const CKM_SHA224: u64 = 0x255;

pub const CKM_SHA384: u64 = 0x260;

pub const CKM_SHA512: u64 = 0x270;

pub const CKM_ECDSA: u64 = 0x1041;

pub const CKM_EDDSA: u64 = 0x1057;

pub const CKM_AES_CBC: u64 = 0x1082;

/// Length in bytes of an Ed25519 signature.
pub const ED25519_SIGNATURE_SIZE: usize = 64;

/// Number of bytes that hold `bits` bits; an unknown size counts as zero.
pub open spec fn byte_width(bits: Option<usize>) -> nat {
    match bits {
        Some(b) => ((b + 7) / 8) as nat,
        None => 0,
    }
}

pub open spec fn pss_sign_mode(digest: MechDigest) -> SignMode {
    match digest {
        MechDigest::Md5 => SignMode::PssMd5,
        MechDigest::Sha1 => SignMode::PssSha1,
        MechDigest::Sha224 => SignMode::PssSha224,
        MechDigest::Sha256 => SignMode::PssSha256,
        MechDigest::Sha384 => SignMode::PssSha384,
        MechDigest::Sha512 => SignMode::PssSha512,
    }
}

pub open spec fn pss_key_mechanism(digest: MechDigest) -> KeyMechanism {
    match digest {
        MechDigest::Md5 => KeyMechanism::RsaSignaturePssMd5,
        MechDigest::Sha1 => KeyMechanism::RsaSignaturePssSha1,
        MechDigest::Sha224 => KeyMechanism::RsaSignaturePssSha224,
        MechDigest::Sha256 => KeyMechanism::RsaSignaturePssSha256,
        MechDigest::Sha384 => KeyMechanism::RsaSignaturePssSha384,
        MechDigest::Sha512 => KeyMechanism::RsaSignaturePssSha512,
    }
}

pub open spec fn oaep_key_mechanism(digest: MechDigest) -> KeyMechanism {
    match digest {
        MechDigest::Md5 => KeyMechanism::RsaDecryptionOaepMd5,
        MechDigest::Sha1 => KeyMechanism::RsaDecryptionOaepSha1,
        MechDigest::Sha224 => KeyMechanism::RsaDecryptionOaepSha224,
        MechDigest::Sha256 => KeyMechanism::RsaDecryptionOaepSha256,
        MechDigest::Sha384 => KeyMechanism::RsaDecryptionOaepSha384,
        MechDigest::Sha512 => KeyMechanism::RsaDecryptionOaepSha512,
    }
}

/// A mechanism that has been found valid for an operation.
#[derive(Clone, Copy, Debug, PartialEq, Eq, Structural)]
pub struct MechanismDescriptor {
    pub mechanism: Mechanism,
    pub mode: MechMode,
    /// The permission a key must carry for this use.
    pub api_mech: KeyMechanism,
}

impl MechDigest {
    /// The digest that a mechanism identifier of the token interface names.
    pub open spec fn of_ck(hash: u64) -> Option<MechDigest> {
        if hash == CKM_MD5 {
            Some(MechDigest::Md5)
        } else if hash == CKM_SHA_1 {
            Some(MechDigest::Sha1)
        } else if hash == CKM_SHA224 {
            Some(MechDigest::Sha224)
        } else if hash == CKM_SHA256 {
            Some(MechDigest::Sha256)
        } else if hash == CKM_SHA384 {
            Some(MechDigest::Sha384)
        } else if hash == CKM_SHA512 {
            Some(MechDigest::Sha512)
        } else {
            None
        }
    }

    /// The identifier of this digest in the token interface.
    pub open spec fn ck_of(self) -> u64 {
        match self {
            MechDigest::Md5 => CKM_MD5,
            MechDigest::Sha1 => CKM_SHA_1,
            MechDigest::Sha224 => CKM_SHA224,
            MechDigest::Sha256 => CKM_SHA256,
            MechDigest::Sha384 => CKM_SHA384,
            MechDigest::Sha512 => CKM_SHA512,
        }
    }

    pub fn from_ck_type(hash: u64) -> (out: Option<MechDigest>)
        ensures
            out == Self::of_ck(hash),
    {
        if hash == CKM_MD5 {
            Some(MechDigest::Md5)
        } else if hash == CKM_SHA_1 {
            Some(MechDigest::Sha1)
        } else if hash == CKM_SHA224 {
            Some(MechDigest::Sha224)
        } else if hash == CKM_SHA256 {
            Some(MechDigest::Sha256)
        } else if hash == CKM_SHA384 {
            Some(MechDigest::Sha384)
        } else if hash == CKM_SHA512 {
            Some(MechDigest::Sha512)
        } else {
            None
        }
    }

    pub fn ck_type(&self) -> (out: u64)
        ensures
            out == self.ck_of(),
    {
        match self {
            MechDigest::Md5 => CKM_MD5,
            MechDigest::Sha1 => CKM_SHA_1,
            MechDigest::Sha224 => CKM_SHA224,
            MechDigest::Sha256 => CKM_SHA256,
            MechDigest::Sha384 => CKM_SHA384,
            MechDigest::Sha512 => CKM_SHA512,
        }
    }
}

impl Mechanism {
    /// The mechanism that a caller requests by the identifier `mech_type`
    /// and, for the mechanisms that take one, the identifier `hash` of a
    /// digest. There is none for an identifier that the token does not
    /// offer, nor for a missing or unknown digest where one is needed.
    pub open spec fn of_ck(mech_type: u64, hash: Option<u64>) -> Option<Mechanism> {
        if mech_type == CKM_AES_CBC {
            Some(Mechanism::AesCbc)
        } else if mech_type == CKM_RSA_X_509 {
            Some(Mechanism::RsaX509)
        } else if mech_type == CKM_RSA_PKCS {
            Some(Mechanism::RsaPkcs)
        } else if mech_type == CKM_EDDSA {
            Some(Mechanism::EdDsa)
        } else if mech_type == CKM_ECDSA {
            Some(Mechanism::Ecdsa)
        } else if mech_type == CKM_RSA_PKCS_OAEP || mech_type == CKM_RSA_PKCS_PSS {
            match hash {
                None => None,
                Some(h) => match MechDigest::of_ck(h) {
                    None => None,
                    Some(digest) => if mech_type == CKM_RSA_PKCS_OAEP {
                        Some(Mechanism::RsaPkcsOaep(digest))
                    } else {
                        Some(Mechanism::RsaPkcsPss(digest))
                    },
                },
            }
        } else {
            None
        }
    }

    /// The identifier of this mechanism in the token interface.
    pub open spec fn ck_of(self) -> u64 {
        match self {
            Mechanism::AesCbc => CKM_AES_CBC,
            Mechanism::RsaX509 => CKM_RSA_X_509,
            Mechanism::RsaPkcs => CKM_RSA_PKCS,
            Mechanism::RsaPkcsOaep(_) => CKM_RSA_PKCS_OAEP,
            Mechanism::RsaPkcsPss(_) => CKM_RSA_PKCS_PSS,
            Mechanism::EdDsa => CKM_EDDSA,
            Mechanism::Ecdsa => CKM_ECDSA,
        }
    }

    /// The digest that parametrises this mechanism, if one does.
    pub open spec fn digest_of(self) -> Option<MechDigest> {
        match self {
            Mechanism::RsaPkcsOaep(digest) => Some(digest),
            Mechanism::RsaPkcsPss(digest) => Some(digest),
            _ => None,
        }
    }

    /// Finds the mechanism that a caller requests.
    pub fn from_ck_type(mech_type: u64, hash: Option<u64>) -> (out: Option<Mechanism>)
        ensures
            out == Self::of_ck(mech_type, hash),
    {
        if mech_type == CKM_AES_CBC {
            Some(Mechanism::AesCbc)
        } else if mech_type == CKM_RSA_X_509 {
            Some(Mechanism::RsaX509)
        } else if mech_type == CKM_RSA_PKCS {
            Some(Mechanism::RsaPkcs)
        } else if mech_type == CKM_EDDSA {
            Some(Mechanism::EdDsa)
        } else if mech_type == CKM_ECDSA {
            Some(Mechanism::Ecdsa)
        } else if mech_type == CKM_RSA_PKCS_OAEP || mech_type == CKM_RSA_PKCS_PSS {
            let digest = match hash {
                Some(h) => MechDigest::from_ck_type(h),
                None => None,
            };
            match digest {
                Some(digest) => {
                    if mech_type == CKM_RSA_PKCS_OAEP {
                        Some(Mechanism::RsaPkcsOaep(digest))
                    } else {
                        Some(Mechanism::RsaPkcsPss(digest))
                    }
                },
                None => None,
            }
        } else {
            None
        }
    }

    pub fn ck_type(&self) -> (out: u64)
        ensures
            out == self.ck_of(),
    {
        match self {
            Mechanism::AesCbc => CKM_AES_CBC,
            Mechanism::RsaX509 => CKM_RSA_X_509,
            Mechanism::RsaPkcs => CKM_RSA_PKCS,
            Mechanism::RsaPkcsOaep(_) => CKM_RSA_PKCS_OAEP,
            Mechanism::RsaPkcsPss(_) => CKM_RSA_PKCS_PSS,
            Mechanism::EdDsa => CKM_EDDSA,
            Mechanism::Ecdsa => CKM_ECDSA,
        }
    }

    /// The HSM's sign mode for this mechanism, for those that sign.
    pub open spec fn sign_mode_of(self) -> Option<SignMode> {
        match self {
            Mechanism::RsaPkcs => Some(SignMode::Pkcs1),
            Mechanism::RsaPkcsPss(digest) => Some(pss_sign_mode(digest)),
            Mechanism::EdDsa => Some(SignMode::EdDsa),
            Mechanism::Ecdsa => Some(SignMode::Ecdsa),
            _ => None,
        }
    }

    /// The key permission that using this mechanism for `mode` needs, where
    /// the mechanism can serve that operation at all.
    pub open spec fn api_mech_of(self, mode: MechMode) -> Option<KeyMechanism> {
        match mode {
            MechMode::Sign => match self {
                Mechanism::RsaPkcs => Some(KeyMechanism::RsaSignaturePkcs1),
                Mechanism::RsaPkcsPss(digest) => Some(pss_key_mechanism(digest)),
                Mechanism::EdDsa => Some(KeyMechanism::EdDsaSignature),
                Mechanism::Ecdsa => Some(KeyMechanism::EcdsaSignature),
                _ => None,
            },
            MechMode::Decrypt => match self {
                Mechanism::AesCbc => Some(KeyMechanism::AesDecryptionCbc),
                Mechanism::RsaX509 => Some(KeyMechanism::RsaDecryptionRaw),
                Mechanism::RsaPkcs => Some(KeyMechanism::RsaDecryptionPkcs1),
                Mechanism::RsaPkcsOaep(digest) => Some(oaep_key_mechanism(digest)),
                _ => None,
            },
            MechMode::Encrypt => match self {
                Mechanism::AesCbc => Some(KeyMechanism::AesEncryptionCbc),
                _ => None,
            },
        }
    }

    /// Whether messages and signatures of this mechanism have a width fixed
    /// by the key size.
    pub open spec fn is_fixed_width(self) -> bool {
        self == Mechanism::Ecdsa
    }

    /// Length in bytes of a signature made with a key of `key_size` bits.
    pub open spec fn signature_size_of(self, key_size: Option<usize>) -> nat {
        match self {
            Mechanism::Ecdsa => 2 * byte_width(key_size),
            Mechanism::EdDsa => ED25519_SIGNATURE_SIZE as nat,
            _ => byte_width(key_size),
        }
    }

    pub fn sign_name(&self) -> (out: Option<SignMode>)
        ensures
            out == self.sign_mode_of(),
    {
        match self {
            Mechanism::RsaPkcs => Some(SignMode::Pkcs1),
            Mechanism::RsaPkcsPss(digest) => Some(
                match digest {
                    MechDigest::Md5 => SignMode::PssMd5,
                    MechDigest::Sha1 => SignMode::PssSha1,
                    MechDigest::Sha224 => SignMode::PssSha224,
                    MechDigest::Sha256 => SignMode::PssSha256,
                    MechDigest::Sha384 => SignMode::PssSha384,
                    MechDigest::Sha512 => SignMode::PssSha512,
                },
            ),
            Mechanism::EdDsa => Some(SignMode::EdDsa),
            Mechanism::Ecdsa => Some(SignMode::Ecdsa),
            _ => None,
        }
    }

    pub fn to_api_mech(&self, mode: MechMode) -> (out: Option<KeyMechanism>)
        ensures
            out == self.api_mech_of(mode),
    {
        match mode {
            MechMode::Sign => match self {
                Mechanism::RsaPkcs => Some(KeyMechanism::RsaSignaturePkcs1),
                Mechanism::RsaPkcsPss(digest) => Some(
                    match digest {
                        MechDigest::Md5 => KeyMechanism::RsaSignaturePssMd5,
                        MechDigest::Sha1 => KeyMechanism::RsaSignaturePssSha1,
                        MechDigest::Sha224 => KeyMechanism::RsaSignaturePssSha224,
                        MechDigest::Sha256 => KeyMechanism::RsaSignaturePssSha256,
                        MechDigest::Sha384 => KeyMechanism::RsaSignaturePssSha384,
                        MechDigest::Sha512 => KeyMechanism::RsaSignaturePssSha512,
                    },
                ),
                Mechanism::EdDsa => Some(KeyMechanism::EdDsaSignature),
                Mechanism::Ecdsa => Some(KeyMechanism::EcdsaSignature),
                _ => None,
            },
            MechMode::Decrypt => match self {
                Mechanism::AesCbc => Some(KeyMechanism::AesDecryptionCbc),
                Mechanism::RsaX509 => Some(KeyMechanism::RsaDecryptionRaw),
                Mechanism::RsaPkcs => Some(KeyMechanism::RsaDecryptionPkcs1),
                Mechanism::RsaPkcsOaep(digest) => Some(
                    match digest {
                        MechDigest::Md5 => KeyMechanism::RsaDecryptionOaepMd5,
                        MechDigest::Sha1 => KeyMechanism::RsaDecryptionOaepSha1,
                        MechDigest::Sha224 => KeyMechanism::RsaDecryptionOaepSha224,
                        MechDigest::Sha256 => KeyMechanism::RsaDecryptionOaepSha256,
                        MechDigest::Sha384 => KeyMechanism::RsaDecryptionOaepSha384,
                        MechDigest::Sha512 => KeyMechanism::RsaDecryptionOaepSha512,
                    },
                ),
                _ => None,
            },
            MechMode::Encrypt => match self {
                Mechanism::AesCbc => Some(KeyMechanism::AesEncryptionCbc),
                _ => None,
            },
        }
    }

    /// Width in bytes of one value of a key of `key_size` bits: the size
    /// rounded up to whole bytes, zero where the size is unknown.
    pub fn get_key_size(&self, key_size: Option<usize>) -> (out: usize)
        ensures
            out == byte_width(key_size),
    {
        match key_size {
            Some(bits) => {
                let whole: usize = bits / 8;
                if bits % 8 == 0 {
                    whole
                } else {
                    whole + 1
                }
            },
            None => 0,
        }
    }

    /// Length in bytes that the HSM expects of a message to sign. Only the
    /// fixed-width mechanisms bring a message to this length.
    pub fn get_input_size(&self, key_size: Option<usize>) -> (out: usize)
        ensures
            out == byte_width(key_size),
    {
        self.get_key_size(key_size)
    }

    /// Length in bytes of the signature that this mechanism yields.
    pub fn get_signature_size(&self, key_size: Option<usize>) -> (out: usize)
        ensures
            out == self.signature_size_of(key_size),
    {
        match self {
            Mechanism::Ecdsa => {
                let width: usize = self.get_key_size(key_size);
                width + width
            },
            Mechanism::EdDsa => ED25519_SIGNATURE_SIZE,
            _ => self.get_key_size(key_size),
        }
    }
}

impl MechanismDescriptor {
    /// Finds the descriptor of `mechanism` for an operation. A mechanism that
    /// cannot serve the operation is refused, and nothing else is.
    pub fn resolve(mechanism: Mechanism, mode: MechMode) -> (out: Result<MechanismDescriptor, Error>)
        ensures
            match mechanism.api_mech_of(mode) {
                Some(api_mech) => out == Ok::<MechanismDescriptor, Error>(
                    MechanismDescriptor { mechanism, mode, api_mech },
                ),
                None => out == Err::<MechanismDescriptor, Error>(
                    Error::InvalidMechanismForMode(mode, mechanism),
                ),
            },
    {
        match mechanism.to_api_mech(mode) {
            Some(api_mech) => Ok(MechanismDescriptor { mechanism, mode, api_mech }),
            None => Err(Error::InvalidMechanismForMode(mode, mechanism)),
        }
    }

    /// Checks the descriptor against what the HSM allows for `key`. The
    /// failure names the key and the mechanism.
    pub fn validate_against_key(&self, key: &Object) -> (out: Result<(), Error>)
        ensures
            key.allows(self.api_mech) ==> out is Ok,
            !key.allows(self.api_mech) ==> (out matches Err(
                Error::InvalidMechanismForKey(id, kind, mechanism),
            ) && id@ == key.id@ && kind == key.kind && mechanism == self.mechanism),
    {
        if key.has_mechanism(self.api_mech) {
            Ok(())
        } else {
            Err(Error::InvalidMechanismForKey(key.id.clone(), key.kind, self.mechanism))
        }
    }
}

/// Every mechanism is found again from its own identifier and the
/// identifier of its digest.
pub proof fn mechanism_identifier_round_trip(mechanism: Mechanism)
    ensures
        Mechanism::of_ck(
            mechanism.ck_of(),
            match mechanism.digest_of() {
                Some(digest) => Some(digest.ck_of()),
                None => None,
            },
        ) == Some(mechanism),
{
}

/// A mechanism signs exactly where it has a sign mode: the two tables of
/// the registry agree.
pub proof fn sign_mode_iff_signing_permission(mechanism: Mechanism)
    ensures
        mechanism.sign_mode_of() is Some <==> mechanism.api_mech_of(MechMode::Sign) is Some,
{
}

} // verus!
