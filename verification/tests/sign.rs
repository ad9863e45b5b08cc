use base64::Engine;
use nethsm_pkcs11::error::Error;
use nethsm_pkcs11::login::{LoginCtx, UserMode};
use nethsm_pkcs11::mechanism::{MechDigest, MechMode, Mechanism, SignMode};
use nethsm_pkcs11::models::KeyMechanism;
use nethsm_pkcs11::object::{Object, ObjectKind};
use nethsm_pkcs11::sign::{encode_fixed_width, normalize_input, SignCtx};

fn operator() -> LoginCtx {
    LoginCtx::anonymous().with_role(UserMode::Operator)
}

fn key(id: &str, bits: Option<usize>, mechanisms: Vec<KeyMechanism>) -> Object {
    Object {
        id: String::from(id),
        kind: ObjectKind::PrivateKey,
        size: bits,
        mechanisms,
        attrs: Vec::new(),
    }
}

fn ec_ctx(bits: usize) -> SignCtx {
    SignCtx::init(
        Mechanism::Ecdsa,
        key("ec", Some(bits), vec![KeyMechanism::EcdsaSignature]),
        operator(),
    )
    .unwrap()
}

fn b64(bytes: &[u8]) -> String {
    base64::engine::general_purpose::STANDARD.encode(bytes)
}

#[test]
fn init_starts_with_an_empty_message() {
    let ctx = ec_ctx(256);
    assert_eq!(ctx.mechanism, Mechanism::Ecdsa);
    assert_eq!(ctx.sign_name, SignMode::Ecdsa);
    assert_eq!(ctx.key.id, "ec");
    assert!(ctx.data.is_empty());
    assert_eq!(ctx.login_ctx, operator());
}

#[test]
fn init_needs_the_operator_role() {
    let k = key("k", Some(2048), vec![KeyMechanism::RsaSignaturePkcs1]);
    let err = SignCtx::init(Mechanism::RsaPkcs, k.clone(), LoginCtx::anonymous()).unwrap_err();
    assert_eq!(err, Error::NotLoggedIn(UserMode::Operator));
    let admin = LoginCtx::anonymous().with_role(UserMode::Administrator);
    let err = SignCtx::init(Mechanism::RsaPkcs, k, admin).unwrap_err();
    assert_eq!(err, Error::NotLoggedIn(UserMode::Operator));
}

#[test]
fn init_asks_for_the_role_before_the_mechanism() {
    let k = key("k", Some(2048), Vec::new());
    let err = SignCtx::init(Mechanism::AesCbc, k, LoginCtx::anonymous()).unwrap_err();
    assert_eq!(err, Error::NotLoggedIn(UserMode::Operator));
}

#[test]
fn init_refuses_a_mechanism_that_does_not_sign() {
    let k = key("k", Some(2048), vec![KeyMechanism::RsaDecryptionRaw]);
    let err = SignCtx::init(Mechanism::RsaX509, k.clone(), operator()).unwrap_err();
    assert_eq!(err, Error::InvalidMechanismForMode(MechMode::Sign, Mechanism::RsaX509));
    let err = SignCtx::init(Mechanism::RsaPkcsOaep(MechDigest::Sha256), k, operator()).unwrap_err();
    assert_eq!(
        err,
        Error::InvalidMechanismForMode(MechMode::Sign, Mechanism::RsaPkcsOaep(MechDigest::Sha256))
    );
}

#[test]
fn init_refuses_a_mechanism_the_key_does_not_allow() {
    let k = key("signer", Some(2048), vec![KeyMechanism::RsaSignaturePkcs1]);
    let err = SignCtx::init(Mechanism::RsaPkcsPss(MechDigest::Sha256), k, operator()).unwrap_err();
    assert_eq!(
        err,
        Error::InvalidMechanismForKey(
            String::from("signer"),
            ObjectKind::PrivateKey,
            Mechanism::RsaPkcsPss(MechDigest::Sha256)
        )
    );
    let none = key("bare", Some(256), Vec::new());
    assert!(matches!(
        SignCtx::init(Mechanism::Ecdsa, none, operator()),
        Err(Error::InvalidMechanismForKey(_, _, Mechanism::Ecdsa))
    ));
}

#[test]
fn update_appends_in_order() {
    let mut ctx = ec_ctx(256);
    ctx.update(&[]);
    assert!(ctx.data.is_empty());
    ctx.update(&[1, 2]);
    ctx.update(&[3]);
    assert_eq!(ctx.data, vec![1, 2, 3]);
}

#[test]
fn normalize_pads_a_short_message_on_the_left() {
    assert_eq!(normalize_input(&[7, 8], 5), vec![0, 0, 0, 7, 8]);
    assert_eq!(normalize_input(&[], 3), vec![0, 0, 0]);
    assert_eq!(normalize_input(&[1, 2, 3], 3), vec![1, 2, 3]);
}

#[test]
fn normalize_keeps_the_last_bytes_of_a_long_message() {
    assert_eq!(normalize_input(&[1, 2, 3, 4, 5], 3), vec![3, 4, 5]);
    assert_eq!(normalize_input(&[1, 2, 3], 0), Vec::<u8>::new());
}

#[test]
fn ecdsa_request_carries_the_normalized_message() {
    let mut ctx = ec_ctx(256);
    ctx.update(&[0xAA, 0xBB, 0xCC]);
    let request = ctx.sign_request();
    let mut expected = vec![0u8; 29];
    expected.extend_from_slice(&[0xAA, 0xBB, 0xCC]);
    assert_eq!(request.message, b64(&expected));
    assert_eq!(request.key_id, "ec");
    assert_eq!(request.mode, SignMode::Ecdsa);
}

#[test]
fn ecdsa_request_truncates_to_the_rightmost_bytes() {
    let mut ctx = ec_ctx(16);
    ctx.update(&[1, 2, 3, 4, 5]);
    assert_eq!(ctx.sign_request().message, "BAU=");
}

#[test]
fn ecdsa_request_of_an_empty_message_is_all_zero() {
    let ctx = ec_ctx(24);
    assert_eq!(ctx.sign_request().message, "AAAA");
}

#[test]
fn rsa_request_carries_the_message_unchanged() {
    let k = key("rsa", Some(2048), vec![KeyMechanism::RsaSignaturePkcs1]);
    let mut ctx = SignCtx::init(Mechanism::RsaPkcs, k, operator()).unwrap();
    ctx.update(b"hello");
    let request = ctx.sign_request();
    assert_eq!(request.message, "aGVsbG8=");
    assert_eq!(request.mode, SignMode::Pkcs1);
    assert_eq!(request.key_id, "rsa");
}

#[test]
fn messages_that_can_be_sent() {
    assert!(ec_ctx(256).can_send());
    let k = key("rsa", Some(2048), vec![KeyMechanism::RsaSignaturePkcs1]);
    let mut ctx = SignCtx::init(Mechanism::RsaPkcs, k, operator()).unwrap();
    assert!(ctx.can_send());
    ctx.update(&[0u8; 100]);
    assert!(ctx.can_send());
}

#[test]
fn checked_request_is_the_request() {
    let mut ctx = ec_ctx(16);
    ctx.update(&[1, 2, 3, 4, 5]);
    assert_eq!(ctx.checked_sign_request(), Some(ctx.sign_request()));
}

#[test]
fn rsa_answer_passes_through() {
    let k = key("rsa", Some(2048), vec![KeyMechanism::RsaSignaturePkcs1]);
    let ctx = SignCtx::init(Mechanism::RsaPkcs, k, operator()).unwrap();
    assert_eq!(ctx.clone().sign_final(Ok(String::from("AQID"))), Ok(vec![1, 2, 3]));
    assert_eq!(ctx.sign_final(Ok(String::new())), Ok(Vec::new()));
}

#[test]
fn backend_failure_surfaces_unchanged() {
    let ctx = ec_ctx(256);
    let failure = Error::BackendError(String::from("503"));
    assert_eq!(ctx.clone().sign_final(Err(failure.clone())), Err(failure));
    assert_eq!(ctx.sign_final(Err(Error::GeneralError)), Err(Error::GeneralError));
}

#[test]
fn ecdsa_answer_is_padded_to_fixed_width() {
    // r = 0x0102, s = 0xff with the leading zero that DER needs
    let der = [0x30, 0x08, 0x02, 0x02, 0x01, 0x02, 0x02, 0x02, 0x00, 0xff];
    let ctx = ec_ctx(256);
    let announced = ctx.get_theoretical_size();
    let out = ctx.sign_final(Ok(b64(&der))).unwrap();
    assert_eq!(out.len(), 64);
    assert_eq!(out.len(), announced);
    let mut expected = vec![0u8; 30];
    expected.extend_from_slice(&[0x01, 0x02]);
    expected.extend_from_slice(&[0u8; 31]);
    expected.push(0xff);
    assert_eq!(out, expected);
}

#[test]
fn ecdsa_answer_of_full_width_is_kept() {
    let der = [0x30, 0x08, 0x02, 0x02, 0x11, 0x22, 0x02, 0x02, 0x33, 0x44];
    let ctx = ec_ctx(16);
    assert_eq!(ctx.sign_final(Ok(b64(&der))), Ok(vec![0x11, 0x22, 0x33, 0x44]));
}

#[test]
fn ecdsa_answer_with_odd_key_size_rounds_up() {
    // a 521-bit key has halves of 66 bytes
    let der = [0x30, 0x06, 0x02, 0x01, 0x05, 0x02, 0x01, 0x06];
    let ctx = ec_ctx(521);
    let out = ctx.sign_final(Ok(b64(&der))).unwrap();
    assert_eq!(out.len(), 132);
    assert_eq!(out[65], 5);
    assert_eq!(out[131], 6);
    assert_eq!(out.iter().filter(|b| **b != 0).count(), 2);
}

#[test]
fn ecdsa_answer_with_a_wide_integer_is_invalid() {
    let der = [0x30, 0x07, 0x02, 0x02, 0x01, 0x02, 0x02, 0x01, 0x03];
    assert_eq!(ec_ctx(8).sign_final(Ok(b64(&der))), Err(Error::InvalidData));
    let der = [0x30, 0x07, 0x02, 0x01, 0x03, 0x02, 0x02, 0x01, 0x02];
    assert_eq!(ec_ctx(8).sign_final(Ok(b64(&der))), Err(Error::InvalidData));
}

#[test]
fn malformed_answers_are_invalid() {
    assert_eq!(
        ec_ctx(256).sign_final(Ok(String::from("not base64!"))),
        Err(Error::InvalidData)
    );
    assert_eq!(ec_ctx(256).sign_final(Ok(b64(&[0x01, 0x02, 0x03]))), Err(Error::InvalidData));
    let k = key("rsa", Some(2048), vec![KeyMechanism::RsaSignaturePkcs1]);
    let rsa = SignCtx::init(Mechanism::RsaPkcs, k, operator()).unwrap();
    assert_eq!(rsa.sign_final(Ok(String::from("A"))), Err(Error::InvalidData));
}

#[test]
fn fixed_width_encoding_pads_each_half() {
    assert_eq!(encode_fixed_width(&[9], &[8, 7], 3), Ok(vec![0, 0, 9, 0, 8, 7]));
    assert_eq!(encode_fixed_width(&[], &[], 2), Ok(vec![0, 0, 0, 0]));
    assert_eq!(encode_fixed_width(&[], &[], 0), Ok(Vec::new()));
    assert_eq!(encode_fixed_width(&[1, 2, 3], &[1], 2), Err(Error::InvalidData));
    assert_eq!(encode_fixed_width(&[1], &[1, 2, 3], 2), Err(Error::InvalidData));
}

#[test]
fn theoretical_size_follows_the_mechanism() {
    assert_eq!(ec_ctx(256).get_theoretical_size(), 64);
    assert_eq!(ec_ctx(384).get_theoretical_size(), 96);
    assert_eq!(ec_ctx(521).get_theoretical_size(), 132);
    let rsa = SignCtx::init(
        Mechanism::RsaPkcs,
        key("rsa", Some(2048), vec![KeyMechanism::RsaSignaturePkcs1]),
        operator(),
    )
    .unwrap();
    assert_eq!(rsa.get_theoretical_size(), 256);
    let ed = SignCtx::init(
        Mechanism::EdDsa,
        key("ed", Some(255), vec![KeyMechanism::EdDsaSignature]),
        operator(),
    )
    .unwrap();
    assert_eq!(ed.get_theoretical_size(), 64);
    let unknown = SignCtx::init(
        Mechanism::Ecdsa,
        key("ec", None, vec![KeyMechanism::EcdsaSignature]),
        operator(),
    )
    .unwrap();
    assert_eq!(unknown.get_theoretical_size(), 0);
}
