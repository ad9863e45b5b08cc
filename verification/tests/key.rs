use nethsm_pkcs11::attr::{Attribute, Template, CKA_ID};
use nethsm_pkcs11::error::Error;
use nethsm_pkcs11::key::{
    curve_from_params, default_mechanisms, encode_component, key_import, key_type_from_code,
    read_ulong, CKA_EC_PARAMS, CKA_KEY_TYPE, CKA_PRIME_1, CKA_PRIME_2, CKA_PUBLIC_EXPONENT,
    CKA_VALUE, CKK_EC, CKK_EC_EDWARDS, CKK_GENERIC_SECRET, CKK_RSA,
};
use nethsm_pkcs11::models::{KeyMechanism, KeyType};

const P256: [u8; 10] = [0x06, 0x08, 0x2a, 0x86, 0x48, 0xce, 0x3d, 0x03, 0x01, 0x07];

fn ulong(value: u64) -> Vec<u8> {
    value.to_le_bytes().to_vec()
}

fn request(entries: Vec<Attribute>) -> Template {
    let count = entries.len();
    Template::parse(Some(entries), count).unwrap()
}

#[test]
fn attribute_and_key_type_codes_are_those_of_the_token_interface() {
    assert_eq!(CKA_VALUE, cryptoki_sys::CKA_VALUE as u64);
    assert_eq!(CKA_KEY_TYPE, cryptoki_sys::CKA_KEY_TYPE as u64);
    assert_eq!(CKA_PUBLIC_EXPONENT, cryptoki_sys::CKA_PUBLIC_EXPONENT as u64);
    assert_eq!(CKA_PRIME_1, cryptoki_sys::CKA_PRIME_1 as u64);
    assert_eq!(CKA_PRIME_2, cryptoki_sys::CKA_PRIME_2 as u64);
    assert_eq!(CKA_EC_PARAMS, cryptoki_sys::CKA_EC_PARAMS as u64);
    assert_eq!(CKK_RSA, cryptoki_sys::CKK_RSA as u64);
    assert_eq!(CKK_EC, cryptoki_sys::CKK_EC as u64);
    assert_eq!(CKK_GENERIC_SECRET, cryptoki_sys::CKK_GENERIC_SECRET as u64);
    assert_eq!(CKK_EC_EDWARDS, cryptoki_sys::CKK_EC_EDWARDS as u64);
}

#[test]
fn ulong_is_read_lowest_byte_first() {
    assert_eq!(read_ulong(&[3, 1, 0, 0, 0, 0, 0, 0]), Some(259));
    assert_eq!(read_ulong(&[0; 8]), Some(0));
    assert_eq!(read_ulong(&[0xff; 8]), Some(u64::MAX));
    assert_eq!(read_ulong(&ulong(0x0102_0304_0506_0708)), Some(0x0102_0304_0506_0708));
    assert_eq!(read_ulong(&[1, 0, 0, 0]), None);
    assert_eq!(read_ulong(&[]), None);
    assert_eq!(read_ulong(&[0; 9]), None);
}

#[test]
fn curves_are_known_by_their_object_identifier() {
    assert_eq!(curve_from_params(&P256), Some(KeyType::EcP256));
    assert_eq!(
        curve_from_params(&[0x06, 0x05, 0x2b, 0x81, 0x04, 0x00, 0x22]),
        Some(KeyType::EcP384)
    );
    assert_eq!(
        curve_from_params(&[0x06, 0x05, 0x2b, 0x81, 0x04, 0x00, 0x23]),
        Some(KeyType::EcP521)
    );
    assert_eq!(
        curve_from_params(&[0x06, 0x05, 0x2b, 0x81, 0x04, 0x00, 0x0a]),
        Some(KeyType::EcP256K1)
    );
    assert_eq!(
        curve_from_params(&[0x06, 0x09, 0x2b, 0x24, 0x03, 0x03, 0x02, 0x08, 0x01, 0x01, 0x07]),
        Some(KeyType::BrainpoolP256)
    );
    assert_eq!(
        curve_from_params(&[0x06, 0x09, 0x2b, 0x24, 0x03, 0x03, 0x02, 0x08, 0x01, 0x01, 0x0b]),
        Some(KeyType::BrainpoolP384)
    );
    assert_eq!(
        curve_from_params(&[0x06, 0x09, 0x2b, 0x24, 0x03, 0x03, 0x02, 0x08, 0x01, 0x01, 0x0d]),
        Some(KeyType::BrainpoolP512)
    );
    assert_eq!(curve_from_params(&[0x06, 0x05, 0x2b, 0x81, 0x04, 0x00, 0x21]), None);
    assert_eq!(curve_from_params(&P256[..9]), None);
    assert_eq!(curve_from_params(&[]), None);
}

#[test]
fn key_types_by_code() {
    assert_eq!(key_type_from_code(CKK_RSA, None), Some(KeyType::Rsa));
    assert_eq!(key_type_from_code(CKK_RSA, Some(&P256)), Some(KeyType::Rsa));
    assert_eq!(key_type_from_code(CKK_GENERIC_SECRET, None), Some(KeyType::Generic));
    assert_eq!(key_type_from_code(CKK_EC_EDWARDS, None), Some(KeyType::Curve25519));
    assert_eq!(key_type_from_code(CKK_EC, Some(&P256)), Some(KeyType::EcP256));
    assert_eq!(key_type_from_code(CKK_EC, None), None);
    assert_eq!(key_type_from_code(CKK_EC, Some(&[1, 2, 3])), None);
    assert_eq!(key_type_from_code(1, None), None);
    assert_eq!(key_type_from_code(u64::MAX, None), None);
}

#[test]
fn default_mechanisms_by_key_type() {
    assert_eq!(default_mechanisms(KeyType::Curve25519), vec![KeyMechanism::EdDsaSignature]);
    assert_eq!(default_mechanisms(KeyType::EcP256), vec![KeyMechanism::EcdsaSignature]);
    assert_eq!(default_mechanisms(KeyType::BrainpoolP512), vec![KeyMechanism::EcdsaSignature]);
    assert_eq!(
        default_mechanisms(KeyType::Generic),
        vec![KeyMechanism::AesEncryptionCbc, KeyMechanism::AesDecryptionCbc]
    );
    let rsa = default_mechanisms(KeyType::Rsa);
    assert_eq!(rsa.len(), 15);
    assert_eq!(rsa[0], KeyMechanism::RsaDecryptionRaw);
    assert_eq!(rsa[8], KeyMechanism::RsaSignaturePkcs1);
    assert_eq!(rsa[14], KeyMechanism::RsaSignaturePssSha512);
    assert!(!rsa.contains(&KeyMechanism::EcdsaSignature));
}

#[test]
fn components_are_base64_encoded() {
    assert_eq!(encode_component(Some(b"hello")), Some(String::from("aGVsbG8=")));
    assert_eq!(encode_component(Some(&[])), Some(String::new()));
    assert_eq!(encode_component(Some(&[0xff, 0xfe])), Some(String::from("//4=")));
    assert_eq!(encode_component(None), None);
}

#[test]
fn import_of_an_rsa_key() {
    let t = request(vec![
        Attribute::new(CKA_KEY_TYPE, Some(ulong(CKK_RSA))),
        Attribute::new(CKA_ID, Some(b"signer".to_vec())),
        Attribute::new(CKA_PRIME_1, Some(vec![1, 2, 3])),
        Attribute::new(CKA_PRIME_2, Some(vec![4, 5, 6])),
        Attribute::new(CKA_PUBLIC_EXPONENT, Some(vec![1, 0, 1])),
        Attribute::new(CKA_VALUE, Some(vec![9])),
    ]);
    let import = key_import(&t).unwrap();
    assert_eq!(import.id, Some(String::from("signer")));
    assert_eq!(import.key.key_type, KeyType::Rsa);
    assert_eq!(import.key.mechanisms, default_mechanisms(KeyType::Rsa));
    assert_eq!(import.key.key.prime_p, Some(String::from("AQID")));
    assert_eq!(import.key.key.prime_q, Some(String::from("BAUG")));
    assert_eq!(import.key.key.public_exponent, Some(String::from("AQAB")));
    assert_eq!(import.key.key.data, None);
    assert!(import.key.restrictions.is_none());
}

#[test]
fn import_of_an_elliptic_curve_key() {
    let t = request(vec![
        Attribute::new(CKA_KEY_TYPE, Some(ulong(CKK_EC))),
        Attribute::new(CKA_EC_PARAMS, Some(P256.to_vec())),
        Attribute::new(CKA_VALUE, Some(vec![0xAB; 3])),
    ]);
    let import = key_import(&t).unwrap();
    assert_eq!(import.id, None);
    assert_eq!(import.key.key_type, KeyType::EcP256);
    assert_eq!(import.key.mechanisms, vec![KeyMechanism::EcdsaSignature]);
    assert_eq!(import.key.key.data, Some(String::from("q6ur")));
    assert_eq!(import.key.key.prime_p, None);
    assert_eq!(import.key.key.prime_q, None);
    assert_eq!(import.key.key.public_exponent, None);
}

#[test]
fn import_takes_the_last_value_of_an_attribute() {
    let t = request(vec![
        Attribute::new(CKA_KEY_TYPE, Some(ulong(CKK_RSA))),
        Attribute::new(CKA_VALUE, Some(vec![1])),
        Attribute::new(CKA_KEY_TYPE, Some(ulong(CKK_EC_EDWARDS))),
        Attribute::new(CKA_VALUE, Some(vec![2])),
        Attribute::new(CKA_VALUE, None),
    ]);
    let import = key_import(&t).unwrap();
    assert_eq!(import.key.key_type, KeyType::Curve25519);
    assert_eq!(import.key.key.data, Some(String::from("Ag==")));
    assert_eq!(import.key.mechanisms, vec![KeyMechanism::EdDsaSignature]);
}

#[test]
fn import_refuses_incomplete_templates() {
    let no_type = request(vec![Attribute::new(CKA_VALUE, Some(vec![1]))]);
    assert_eq!(key_import(&no_type), Err(Error::ArgumentsBad));
    let short_type = request(vec![
        Attribute::new(CKA_KEY_TYPE, Some(vec![0x10, 0, 0, 0])),
        Attribute::new(CKA_VALUE, Some(vec![1])),
    ]);
    assert_eq!(key_import(&short_type), Err(Error::ArgumentsBad));
    let unknown_type = request(vec![
        Attribute::new(CKA_KEY_TYPE, Some(ulong(0x1f))),
        Attribute::new(CKA_VALUE, Some(vec![1])),
    ]);
    assert_eq!(key_import(&unknown_type), Err(Error::ArgumentsBad));
    let no_curve = request(vec![
        Attribute::new(CKA_KEY_TYPE, Some(ulong(CKK_EC))),
        Attribute::new(CKA_VALUE, Some(vec![1])),
    ]);
    assert_eq!(key_import(&no_curve), Err(Error::ArgumentsBad));
    let no_value = request(vec![Attribute::new(CKA_KEY_TYPE, Some(ulong(CKK_GENERIC_SECRET)))]);
    assert_eq!(key_import(&no_value), Err(Error::ArgumentsBad));
    let rsa_without_exponent = request(vec![
        Attribute::new(CKA_KEY_TYPE, Some(ulong(CKK_RSA))),
        Attribute::new(CKA_PRIME_1, Some(vec![1])),
        Attribute::new(CKA_PRIME_2, Some(vec![2])),
        Attribute::new(CKA_VALUE, Some(vec![3])),
    ]);
    assert_eq!(key_import(&rsa_without_exponent), Err(Error::ArgumentsBad));
    assert_eq!(key_import(&request(Vec::new())), Err(Error::ArgumentsBad));
}

#[test]
fn import_refuses_an_identifier_that_is_not_text() {
    let t = request(vec![
        Attribute::new(CKA_ID, Some(vec![0xff, 0xfe])),
        Attribute::new(CKA_KEY_TYPE, Some(ulong(CKK_GENERIC_SECRET))),
        Attribute::new(CKA_VALUE, Some(vec![1])),
    ]);
    assert_eq!(key_import(&t), Err(Error::ArgumentsBad));
    let t = request(vec![
        Attribute::new(CKA_ID, Some("cl\u{e9}".as_bytes().to_vec())),
        Attribute::new(CKA_KEY_TYPE, Some(ulong(CKK_GENERIC_SECRET))),
        Attribute::new(CKA_VALUE, Some(vec![1])),
    ]);
    assert_eq!(key_import(&t).unwrap().id, Some(String::from("cl\u{e9}")));
}
