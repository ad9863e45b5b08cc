//! Key import: the payload that the HSM is asked to store for the template
//! of a new object.

use vstd::prelude::*;
use vstd::utf8::{decode_utf8, valid_utf8};
use crate::attr::{bytes_copy, bytes_equal, supplied, AttributeView, Template, CKA_ID};
use crate::encoding::{base64_encodable, base64_encode, base64_encoded, string_from_utf8};
use crate::error::Error;
use crate::models::key_mechanism::KeyMechanism;
use crate::models::key_private_data::KeyPrivateData;
use crate::models::key_type::KeyType;
use crate::models::private_key::PrivateKey;

verus! {

pub const CKA_VALUE: u64 = 0x11;

pub const CKA_KEY_TYPE: u64 = 0x100;

pub const CKA_PUBLIC_EXPONENT: u64 = 0x122;

pub const CKA_PRIME_1: u64 = 0x124;

pub const CKA_PRIME_2: u64 = 0x125;

pub const CKA_EC_PARAMS: u64 = 0x180;

pub const CKK_RSA: u64 = 0x0;

pub const CKK_EC: u64 = 0x3;

pub const CKK_GENERIC_SECRET: u64 = 0x10;

pub const CKK_EC_EDWARDS: u64 = 0x40;

/// DER form of the object identifier of the curve P-256.
pub open spec fn oid_p256() -> Seq<u8> {
    seq![0x06u8, 0x08u8, 0x2au8, 0x86u8, 0x48u8, 0xceu8, 0x3du8, 0x03u8, 0x01u8, 0x07u8]
}

/// DER form of the object identifier of the curve P-384.
pub open spec fn oid_p384() -> Seq<u8> {
    seq![0x06u8, 0x05u8, 0x2bu8, 0x81u8, 0x04u8, 0x00u8, 0x22u8]
}

/// DER form of the object identifier of the curve P-521.
pub open spec fn oid_p521() -> Seq<u8> {
    seq![0x06u8, 0x05u8, 0x2bu8, 0x81u8, 0x04u8, 0x00u8, 0x23u8]
}

/// DER form of the object identifier of the curve secp256k1.
pub open spec fn oid_p256k1() -> Seq<u8> {
    seq![0x06u8, 0x05u8, 0x2bu8, 0x81u8, 0x04u8, 0x00u8, 0x0au8]
}

/// DER form of the object identifier of the curve brainpoolP256r1.
pub open spec fn oid_brainpool256() -> Seq<u8> {
    seq![0x06u8, 0x09u8, 0x2bu8, 0x24u8, 0x03u8, 0x03u8, 0x02u8, 0x08u8, 0x01u8, 0x01u8, 0x07u8]
}

/// DER form of the object identifier of the curve brainpoolP384r1.
pub open spec fn oid_brainpool384() -> Seq<u8> {
    seq![0x06u8, 0x09u8, 0x2bu8, 0x24u8, 0x03u8, 0x03u8, 0x02u8, 0x08u8, 0x01u8, 0x01u8, 0x0bu8]
}

/// DER form of the object identifier of the curve brainpoolP512r1.
pub open spec fn oid_brainpool512() -> Seq<u8> {
    seq![0x06u8, 0x09u8, 0x2bu8, 0x24u8, 0x03u8, 0x03u8, 0x02u8, 0x08u8, 0x01u8, 0x01u8, 0x0du8]
}

/// The key type of the curve that the parameters of an elliptic-curve key
/// name.
pub open spec fn curve_of(params: Seq<u8>) -> Option<KeyType> {
    if params == oid_p256() {
        Some(KeyType::EcP256)
    } else if params == oid_p384() {
        Some(KeyType::EcP384)
    } else if params == oid_p521() {
        Some(KeyType::EcP521)
    } else if params == oid_p256k1() {
        Some(KeyType::EcP256K1)
    } else if params == oid_brainpool256() {
        Some(KeyType::BrainpoolP256)
    } else if params == oid_brainpool384() {
        Some(KeyType::BrainpoolP384)
    } else if params == oid_brainpool512() {
        Some(KeyType::BrainpoolP512)
    } else {
        None
    }
}

/// The number that eight bytes hold, the lowest byte first; other lengths
/// hold none.
pub open spec fn ulong_of(bytes: Seq<u8>) -> Option<u64> {
    if bytes.len() == 8 {
        Some(
            (bytes[0] + 0x100 * bytes[1] + 0x1_0000 * bytes[2] + 0x100_0000 * bytes[3]
                + 0x1_0000_0000 * bytes[4] + 0x100_0000_0000 * bytes[5] + 0x1_0000_0000_0000
                * bytes[6] + 0x100_0000_0000_0000 * bytes[7]) as u64,
        )
    } else {
        None
    }
}

/// The key type that a template asks for by its key-type code and, for an
/// elliptic-curve key, its curve parameters.
pub open spec fn key_type_for(code: u64, params: Option<Seq<u8>>) -> Option<KeyType> {
    if code == CKK_RSA {
        Some(KeyType::Rsa)
    } else if code == CKK_GENERIC_SECRET {
        Some(KeyType::Generic)
    } else if code == CKK_EC_EDWARDS {
        Some(KeyType::Curve25519)
    } else if code == CKK_EC {
        match params {
            Some(oid) => curve_of(oid),
            None => None,
        }
    } else {
        None
    }
}

/// What the HSM is to allow a new key of the given type to do.
pub open spec fn mechanisms_for(key_type: KeyType) -> Seq<KeyMechanism> {
    match key_type {
        KeyType::Rsa => seq![
            KeyMechanism::RsaDecryptionRaw,
            KeyMechanism::RsaDecryptionPkcs1,
            KeyMechanism::RsaDecryptionOaepMd5,
            KeyMechanism::RsaDecryptionOaepSha1,
            KeyMechanism::RsaDecryptionOaepSha224,
            KeyMechanism::RsaDecryptionOaepSha256,
            KeyMechanism::RsaDecryptionOaepSha384,
            KeyMechanism::RsaDecryptionOaepSha512,
            KeyMechanism::RsaSignaturePkcs1,
            KeyMechanism::RsaSignaturePssMd5,
            KeyMechanism::RsaSignaturePssSha1,
            KeyMechanism::RsaSignaturePssSha224,
            KeyMechanism::RsaSignaturePssSha256,
            KeyMechanism::RsaSignaturePssSha384,
            KeyMechanism::RsaSignaturePssSha512,
        ],
        KeyType::Curve25519 => seq![KeyMechanism::EdDsaSignature],
        KeyType::Generic => seq![KeyMechanism::AesEncryptionCbc, KeyMechanism::AesDecryptionCbc],
        _ => seq![KeyMechanism::EcdsaSignature],
    }
}

/// The base64 text of a component of a key, where the component is there.
pub open spec fn encoded_component(bytes: Option<Seq<u8>>) -> Option<Seq<char>> {
    match bytes {
        Some(b) => Some(base64_encoded(b)),
        None => None,
    }
}

/// Whether a component is there and its base64 text has a length that fits
/// the machine's word.
pub open spec fn usable(bytes: Option<Seq<u8>>) -> bool {
    bytes matches Some(b) && base64_encodable(b.len())
}

/// A key import as a mathematical value.
pub struct ImportView {
    pub id: Option<Seq<char>>,
    pub key_type: KeyType,
    pub mechanisms: Seq<KeyMechanism>,
    pub prime_p: Option<Seq<char>>,
    pub prime_q: Option<Seq<char>>,
    pub public_exponent: Option<Seq<char>>,
    pub data: Option<Seq<char>>,
}

/// The import that a template asks for, if it asks for one. The template
/// must name a key type that the HSM has, by its code and, for an
/// elliptic-curve key, a known curve. An RSA key is given by its two primes
/// and its public exponent, every other key by its value. An identifier, if
/// there is one, must be text.
pub open spec fn import_of(template: Seq<AttributeView>) -> Option<ImportView> {
    let id = supplied(template, CKA_ID);
    let code = match supplied(template, CKA_KEY_TYPE) {
        Some(bytes) => ulong_of(bytes),
        None => None,
    };
    let key_type = match code {
        Some(c) => key_type_for(c, supplied(template, CKA_EC_PARAMS)),
        None => None,
    };
    if id matches Some(bytes) && !valid_utf8(bytes) {
        None
    } else {
        let name = match id {
            Some(bytes) => Some(decode_utf8(bytes)),
            None => None,
        };
        match key_type {
            None => None,
            Some(KeyType::Rsa) => {
                let p = supplied(template, CKA_PRIME_1);
                let q = supplied(template, CKA_PRIME_2);
                let e = supplied(template, CKA_PUBLIC_EXPONENT);
                if usable(p) && usable(q) && usable(e) {
                    Some(
                        ImportView {
                            id: name,
                            key_type: KeyType::Rsa,
                            mechanisms: mechanisms_for(KeyType::Rsa),
                            prime_p: encoded_component(p),
                            prime_q: encoded_component(q),
                            public_exponent: encoded_component(e),
                            data: None,
                        },
                    )
                } else {
                    None
                }
            },
            Some(other) => {
                let value = supplied(template, CKA_VALUE);
                if usable(value) {
                    Some(
                        ImportView {
                            id: name,
                            key_type: other,
                            mechanisms: mechanisms_for(other),
                            prime_p: None,
                            prime_q: None,
                            public_exponent: None,
                            data: encoded_component(value),
                        },
                    )
                } else {
                    None
                }
            },
        }
    }
}

/// The text of an optional string.
pub open spec fn text_of(text: Option<String>) -> Option<Seq<char>> {
    match text {
        Some(t) => Some(t@),
        None => None,
    }
}

/// What the HSM is asked to store: the key, and the identifier that the
/// caller wants it to have, if any.
#[derive(Clone, Debug, PartialEq)]
pub struct KeyImport {
    pub id: Option<String>,
    pub key: PrivateKey,
}

impl View for KeyImport {
    type V = ImportView;

    open spec fn view(&self) -> ImportView {
        ImportView {
            id: text_of(self.id),
            key_type: self.key.key_type,
            mechanisms: self.key.mechanisms@,
            prime_p: text_of(self.key.key.prime_p),
            prime_q: text_of(self.key.key.prime_q),
            public_exponent: text_of(self.key.key.public_exponent),
            data: text_of(self.key.key.data),
        }
    }
}

/// Reads eight bytes as a number, the lowest byte first.
pub fn read_ulong(bytes: &[u8]) -> (out: Option<u64>)
    ensures
        out == ulong_of(bytes@),
{
    if bytes.len() != 8 {
        return None;
    }
    let b0: u64 = bytes[0] as u64;
    let b1: u64 = bytes[1] as u64;
    let b2: u64 = bytes[2] as u64;
    let b3: u64 = bytes[3] as u64;
    let b4: u64 = bytes[4] as u64;
    let b5: u64 = bytes[5] as u64;
    let b6: u64 = bytes[6] as u64;
    let b7: u64 = bytes[7] as u64;
    Some(
        b0 + 0x100 * b1 + 0x1_0000 * b2 + 0x100_0000 * b3 + 0x1_0000_0000 * b4 + 0x100_0000_0000
            * b5 + 0x1_0000_0000_0000 * b6 + 0x100_0000_0000_0000 * b7,
    )
}

/// Finds the curve that the parameters of an elliptic-curve key name.
pub fn curve_from_params(params: &[u8]) -> (out: Option<KeyType>)
    ensures
        out == curve_of(params@),
{
    let p256: Vec<u8> = vec![
        0x06u8, 0x08u8, 0x2au8, 0x86u8, 0x48u8, 0xceu8, 0x3du8, 0x03u8, 0x01u8, 0x07u8,
    ];
    let p384: Vec<u8> = vec![0x06u8, 0x05u8, 0x2bu8, 0x81u8, 0x04u8, 0x00u8, 0x22u8];
    let p521: Vec<u8> = vec![0x06u8, 0x05u8, 0x2bu8, 0x81u8, 0x04u8, 0x00u8, 0x23u8];
    let p256k1: Vec<u8> = vec![0x06u8, 0x05u8, 0x2bu8, 0x81u8, 0x04u8, 0x00u8, 0x0au8];
    let bp256: Vec<u8> = vec![
        0x06u8, 0x09u8, 0x2bu8, 0x24u8, 0x03u8, 0x03u8, 0x02u8, 0x08u8, 0x01u8, 0x01u8, 0x07u8,
    ];
    let bp384: Vec<u8> = vec![
        0x06u8, 0x09u8, 0x2bu8, 0x24u8, 0x03u8, 0x03u8, 0x02u8, 0x08u8, 0x01u8, 0x01u8, 0x0bu8,
    ];
    let bp512: Vec<u8> = vec![
        0x06u8, 0x09u8, 0x2bu8, 0x24u8, 0x03u8, 0x03u8, 0x02u8, 0x08u8, 0x01u8, 0x01u8, 0x0du8,
    ];
    if bytes_equal(params, p256.as_slice()) {
        Some(KeyType::EcP256)
    } else if bytes_equal(params, p384.as_slice()) {
        Some(KeyType::EcP384)
    } else if bytes_equal(params, p521.as_slice()) {
        Some(KeyType::EcP521)
    } else if bytes_equal(params, p256k1.as_slice()) {
        Some(KeyType::EcP256K1)
    } else if bytes_equal(params, bp256.as_slice()) {
        Some(KeyType::BrainpoolP256)
    } else if bytes_equal(params, bp384.as_slice()) {
        Some(KeyType::BrainpoolP384)
    } else if bytes_equal(params, bp512.as_slice()) {
        Some(KeyType::BrainpoolP512)
    } else {
        None
    }
}

/// Finds the key type for a key-type code and curve parameters.
pub fn key_type_from_code(code: u64, params: Option<&[u8]>) -> (out: Option<KeyType>)
    ensures
        out == key_type_for(
            code,
            match params {
                Some(oid) => Some(oid@),
                None => None,
            },
        ),
{
    if code == CKK_RSA {
        Some(KeyType::Rsa)
    } else if code == CKK_GENERIC_SECRET {
        Some(KeyType::Generic)
    } else if code == CKK_EC_EDWARDS {
        Some(KeyType::Curve25519)
    } else if code == CKK_EC {
        match params {
            Some(oid) => curve_from_params(oid),
            None => None,
        }
    } else {
        None
    }
}

/// The mechanisms that a new key of the given type is to allow.
pub fn default_mechanisms(key_type: KeyType) -> (out: Vec<KeyMechanism>)
    ensures
        out@ == mechanisms_for(key_type),
{
    match key_type {
        KeyType::Rsa => vec![
            KeyMechanism::RsaDecryptionRaw,
            KeyMechanism::RsaDecryptionPkcs1,
            KeyMechanism::RsaDecryptionOaepMd5,
            KeyMechanism::RsaDecryptionOaepSha1,
            KeyMechanism::RsaDecryptionOaepSha224,
            KeyMechanism::RsaDecryptionOaepSha256,
            KeyMechanism::RsaDecryptionOaepSha384,
            KeyMechanism::RsaDecryptionOaepSha512,
            KeyMechanism::RsaSignaturePkcs1,
            KeyMechanism::RsaSignaturePssMd5,
            KeyMechanism::RsaSignaturePssSha1,
            KeyMechanism::RsaSignaturePssSha224,
            KeyMechanism::RsaSignaturePssSha256,
            KeyMechanism::RsaSignaturePssSha384,
            KeyMechanism::RsaSignaturePssSha512,
        ],
        KeyType::Curve25519 => vec![KeyMechanism::EdDsaSignature],
        KeyType::Generic => vec![KeyMechanism::AesEncryptionCbc, KeyMechanism::AesDecryptionCbc],
        _ => vec![KeyMechanism::EcdsaSignature],
    }
}

/// The base64 text of a component, where the component is there and the
/// text has a length that fits the machine's word.
pub fn encode_component(bytes: Option<&[u8]>) -> (out: Option<String>)
    ensures
        out is Some <==> usable(
            match bytes {
                Some(b) => Some(b@),
                None => None,
            },
        ),
        out matches Some(text) ==> bytes matches Some(b) && text@ == base64_encoded(b@),
{
    match bytes {
        Some(b) => {
            if b.len() / 3 <= (usize::MAX - 4) / 4 {
                Some(base64_encode(b))
            } else {
                None
            }
        },
        None => None,
    }
}

/// Works out what the HSM is asked to store for the template of a new
/// object. A template that asks for no import is refused as bad arguments.
pub fn key_import(template: &Template) -> (out: Result<KeyImport, Error>)
    ensures
        match import_of(template@) {
            Some(import) => out matches Ok(found) && found@ == import,
            None => out == Err::<KeyImport, Error>(Error::ArgumentsBad),
        },
{
    let id = match template.value_of(CKA_ID) {
        Some(bytes) => match string_from_utf8(bytes_copy(bytes)) {
            Some(text) => Some(text),
            None => {
                return Err(Error::ArgumentsBad);
            },
        },
        None => None,
    };
    let code = match template.value_of(CKA_KEY_TYPE) {
        Some(bytes) => read_ulong(bytes),
        None => None,
    };
    let key_type = match code {
        Some(c) => key_type_from_code(c, template.value_of(CKA_EC_PARAMS)),
        None => None,
    };
    let key_type = match key_type {
        Some(key_type) => key_type,
        None => {
            return Err(Error::ArgumentsBad);
        },
    };
    let mut material = KeyPrivateData::new();
    match key_type {
        KeyType::Rsa => {
            let p = encode_component(template.value_of(CKA_PRIME_1));
            let q = encode_component(template.value_of(CKA_PRIME_2));
            let e = encode_component(template.value_of(CKA_PUBLIC_EXPONENT));
            if p.is_none() || q.is_none() || e.is_none() {
                return Err(Error::ArgumentsBad);
            }
            material.prime_p = p;
            material.prime_q = q;
            material.public_exponent = e;
        },
        _ => {
            let value = encode_component(template.value_of(CKA_VALUE));
            if value.is_none() {
                return Err(Error::ArgumentsBad);
            }
            material.data = value;
        },
    }
    let key = PrivateKey::new(default_mechanisms(key_type), key_type, material);
    Ok(KeyImport { id, key })
}

} // verus!
