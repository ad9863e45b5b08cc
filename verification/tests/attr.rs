use nethsm_pkcs11::attr::{bytes_copy, bytes_equal, Attribute, Template, CKA_ID};
use nethsm_pkcs11::error::Error;
use nethsm_pkcs11::models::KeyMechanism;
use nethsm_pkcs11::object::{Object, ObjectKind, StoredAttr};

const CKA_CLASS: u64 = 0;
const CKA_LABEL: u64 = 3;

fn sample() -> Object {
    Object {
        id: String::from("key1"),
        kind: ObjectKind::PrivateKey,
        size: Some(256),
        mechanisms: vec![KeyMechanism::EcdsaSignature],
        attrs: vec![
            StoredAttr { attr_type: CKA_CLASS, value: vec![3, 0, 0, 0, 0, 0, 0, 0] },
            StoredAttr { attr_type: CKA_ID, value: b"key1".to_vec() },
            StoredAttr { attr_type: CKA_LABEL, value: Vec::new() },
        ],
    }
}

fn template(entries: Vec<Attribute>) -> Template {
    let count = entries.len();
    Template::parse(Some(entries), count).unwrap()
}

#[test]
fn parse_without_an_array() {
    assert_eq!(Template::parse(None, 0), Ok(Template { attrs: Vec::new() }));
    assert_eq!(Template::parse(None, 1), Err(Error::ArgumentsBad));
    assert_eq!(Template::parse(None, usize::MAX), Err(Error::ArgumentsBad));
}

#[test]
fn parse_takes_the_declared_count() {
    let entries = vec![
        Attribute::new(CKA_CLASS, None),
        Attribute::new(CKA_ID, Some(vec![1])),
        Attribute::new(CKA_LABEL, Some(Vec::new())),
    ];
    let all = Template::parse(Some(entries.clone()), 3).unwrap();
    assert_eq!(all.attrs, entries);
    let two = Template::parse(Some(entries.clone()), 2).unwrap();
    assert_eq!(two.attrs, entries[..2].to_vec());
    assert_eq!(two.len(), 2);
    let none = Template::parse(Some(entries.clone()), 0).unwrap();
    assert_eq!(none.len(), 0);
    assert_eq!(Template::parse(Some(entries), 4), Err(Error::ArgumentsBad));
}

#[test]
fn iteration_is_finite_and_can_start_again() {
    let t = template(vec![
        Attribute::new(CKA_ID, Some(vec![7, 8])),
        Attribute::new(CKA_LABEL, None),
    ]);
    for _ in 0..2 {
        let first = t.get(0).unwrap();
        assert_eq!(first.type_(), CKA_ID);
        assert_eq!(first.val_bytes(), Some(&[7u8, 8][..]));
        let second = t.get(1).unwrap();
        assert_eq!(second.type_(), CKA_LABEL);
        assert_eq!(second.val_bytes(), None);
        assert!(t.get(2).is_none());
    }
}

#[test]
fn new_attribute_reports_the_length_of_its_value() {
    assert_eq!(Attribute::new(5, Some(vec![1, 2, 3])).len, Some(3));
    assert_eq!(Attribute::new(5, Some(Vec::new())).len, Some(0));
    assert_eq!(Attribute::new(5, None).len, Some(0));
}

#[test]
fn empty_template_matches_every_object() {
    let t = template(Vec::new());
    assert!(t.matches(&sample()));
    let bare = Object {
        id: String::new(),
        kind: ObjectKind::Certificate,
        size: None,
        mechanisms: Vec::new(),
        attrs: Vec::new(),
    };
    assert!(t.matches(&bare));
}

#[test]
fn match_needs_every_present_value_to_be_equal() {
    let object = sample();
    let hit = template(vec![
        Attribute::new(CKA_ID, Some(b"key1".to_vec())),
        Attribute::new(CKA_CLASS, Some(vec![3, 0, 0, 0, 0, 0, 0, 0])),
    ]);
    assert!(hit.matches(&object));
    let miss = template(vec![
        Attribute::new(CKA_ID, Some(b"key1".to_vec())),
        Attribute::new(CKA_CLASS, Some(vec![2, 0, 0, 0, 0, 0, 0, 0])),
    ]);
    assert!(!miss.matches(&object));
    let prefix = template(vec![Attribute::new(CKA_ID, Some(b"key".to_vec()))]);
    assert!(!prefix.matches(&object));
    let empty_value = template(vec![Attribute::new(CKA_LABEL, Some(Vec::new()))]);
    assert!(empty_value.matches(&object));
}

#[test]
fn unset_entries_match_anything() {
    let object = sample();
    let t = template(vec![Attribute::new(CKA_ID, None), Attribute::new(0x9999, None)]);
    assert!(t.matches(&object));
}

#[test]
fn a_value_for_a_missing_attribute_does_not_match() {
    let object = sample();
    let t = template(vec![Attribute::new(0x9999, Some(vec![1]))]);
    assert!(!t.matches(&object));
    let t = template(vec![Attribute::new(0x9999, Some(Vec::new()))]);
    assert!(!t.matches(&object));
}

#[test]
fn fill_writes_values_that_fit() {
    let object = sample();
    let mut t = template(vec![
        Attribute::new(CKA_ID, Some(vec![0xEE; 4])),
        Attribute::new(CKA_CLASS, Some(vec![0xEE; 16])),
    ]);
    object.fill_attr_template(&mut t);
    assert_eq!(t.attrs[0].value, Some(b"key1".to_vec()));
    assert_eq!(t.attrs[0].len, Some(4));
    assert_eq!(t.attrs[1].value, Some(vec![3, 0, 0, 0, 0, 0, 0, 0]));
    assert_eq!(t.attrs[1].len, Some(8));
    assert_eq!(t.attrs[0].attr_type, CKA_ID);
    assert_eq!(t.attrs[1].attr_type, CKA_CLASS);
}

#[test]
fn fill_reports_the_length_needed() {
    let object = sample();
    let mut t = template(vec![
        Attribute::new(CKA_ID, None),
        Attribute::new(CKA_ID, Some(vec![0xEE; 3])),
        Attribute::new(CKA_LABEL, None),
    ]);
    object.fill_attr_template(&mut t);
    assert_eq!(t.attrs[0].value, None);
    assert_eq!(t.attrs[0].len, Some(4));
    assert_eq!(t.attrs[1].value, Some(vec![0xEE; 3]));
    assert_eq!(t.attrs[1].len, Some(4));
    assert_eq!(t.attrs[2].value, None);
    assert_eq!(t.attrs[2].len, Some(0));
}

#[test]
fn fill_marks_unknown_attributes_and_goes_on() {
    let object = sample();
    let mut t = template(vec![
        Attribute::new(0x9999, Some(vec![0xEE; 8])),
        Attribute::new(0x9998, None),
        Attribute::new(CKA_ID, Some(vec![0; 4])),
    ]);
    object.fill_attr_template(&mut t);
    assert_eq!(t.attrs[0].len, None);
    assert_eq!(t.attrs[0].value, Some(vec![0xEE; 8]));
    assert_eq!(t.attrs[1].len, None);
    assert_eq!(t.attrs[1].value, None);
    assert_eq!(t.attrs[2].value, Some(b"key1".to_vec()));
    assert_eq!(t.attrs[2].len, Some(4));
}

#[test]
fn fill_of_an_empty_template_does_nothing() {
    let mut t = template(Vec::new());
    sample().fill_attr_template(&mut t);
    assert_eq!(t, Template { attrs: Vec::new() });
}

#[test]
fn filling_twice_gives_identical_bytes() {
    let object = sample();
    let mut t = template(vec![
        Attribute::new(CKA_ID, Some(vec![0xEE; 10])),
        Attribute::new(CKA_ID, Some(vec![0xEE; 2])),
        Attribute::new(CKA_CLASS, None),
        Attribute::new(0x9999, Some(vec![1, 2, 3])),
        Attribute::new(CKA_LABEL, Some(vec![5])),
    ]);
    object.fill_attr_template(&mut t);
    let once = t.clone();
    object.fill_attr_template(&mut t);
    assert_eq!(t, once);
    let mut other = once.clone();
    object.fill_attr_template(&mut other);
    assert_eq!(other, once);
}

#[test]
fn new_id_is_the_last_identifier_with_a_value() {
    let t = template(vec![
        Attribute::new(CKA_ID, Some(b"first".to_vec())),
        Attribute::new(CKA_LABEL, Some(b"label".to_vec())),
        Attribute::new(CKA_ID, Some(b"second".to_vec())),
        Attribute::new(CKA_ID, None),
    ]);
    assert_eq!(t.new_id(), Some(&b"second"[..]));
    let none = template(vec![
        Attribute::new(CKA_LABEL, Some(b"label".to_vec())),
        Attribute::new(CKA_ID, None),
    ]);
    assert_eq!(none.new_id(), None);
    assert_eq!(template(Vec::new()).new_id(), None);
}

#[test]
fn byte_helpers_compare_and_copy() {
    assert!(bytes_equal(&[], &[]));
    assert!(bytes_equal(&[1, 2], &[1, 2]));
    assert!(!bytes_equal(&[1, 2], &[1, 3]));
    assert!(!bytes_equal(&[1, 2], &[1]));
    assert_eq!(bytes_copy(&[4, 5, 6]), vec![4, 5, 6]);
    assert_eq!(bytes_copy(&[]), Vec::<u8>::new());
}
