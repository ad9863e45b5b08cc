//! Keys and certificates of the HSM as the token caches them.

use vstd::prelude::*;
use crate::models::key_mechanism::KeyMechanism;

verus! {

/// What sort of object a handle stands for. One identifier on the HSM can
/// appear under several kinds.
#[derive(Clone, Copy, Debug, PartialEq, Eq, Structural, Hash)]
pub enum ObjectKind {
    PrivateKey,
    PublicKey,
    Certificate,
    SecretKey,
}

/// One attribute of an object: its type and the bytes of its value.
#[derive(Clone, Debug, PartialEq)]
pub struct StoredAttr {
    pub attr_type: u64,
    pub value: Vec<u8>,
}

/// Metadata of an object on the HSM.
#[derive(Clone, Debug, PartialEq)]
pub struct Object {
    /// The HSM's identifier of the key or certificate.
    pub id: String,
    pub kind: ObjectKind,
    /// Declared key size in bits, where it is known.
    pub size: Option<usize>,
    /// What the HSM allows to be done with the key.
    pub mechanisms: Vec<KeyMechanism>,
    /// The attributes the token answers for this object. Where a type occurs
    /// more than once, the first entry counts.
    pub attrs: Vec<StoredAttr>,
}

/// The value of the first attribute of type `attr_type` at or after index
/// `from`.
pub open spec fn attr_from(attrs: Seq<StoredAttr>, attr_type: u64, from: int) -> Option<Seq<u8>>
    decreases attrs.len() - from,
{
    if from < 0 || from >= attrs.len() {
        None
    } else if attrs[from].attr_type == attr_type {
        Some(attrs[from].value@)
    } else {
        attr_from(attrs, attr_type, from + 1)
    }
}

impl Object {
    /// The value this object has for `attr_type`, if it has one.
    pub open spec fn attr_value(&self, attr_type: u64) -> Option<Seq<u8>> {
        attr_from(self.attrs@, attr_type, 0)
    }

    /// Whether the HSM allows `mechanism` for this key.
    pub open spec fn allows(&self, mechanism: KeyMechanism) -> bool {
        self.mechanisms@.contains(mechanism)
    }

    /// Looks up the value of an attribute.
    pub fn attr(&self, attr_type: u64) -> (out: Option<&Vec<u8>>)
        ensures
            match out {
                Some(value) => self.attr_value(attr_type) == Some(value@),
                None => self.attr_value(attr_type) is None,
            },
    {
        let mut i: usize = 0;
        while i < self.attrs.len()
            invariant
                i <= self.attrs.len(),
                attr_from(self.attrs@, attr_type, 0) == attr_from(self.attrs@, attr_type, i as int),
            decreases self.attrs.len() - i,
        {
            if self.attrs[i].attr_type == attr_type {
                return Some(&self.attrs[i].value);
            }
            i += 1;
        }
        None
    }

    /// Membership test on the allowed mechanisms.
    pub fn has_mechanism(&self, mechanism: KeyMechanism) -> (out: bool)
        ensures
            out == self.allows(mechanism),
    {
        let mut i: usize = 0;
        while i < self.mechanisms.len()
            invariant
                i <= self.mechanisms.len(),
                forall|j: int| 0 <= j < i ==> self.mechanisms@[j] != mechanism,
            decreases self.mechanisms.len() - i,
        {
            if self.mechanisms[i] == mechanism {
                return true;
            }
            i += 1;
        }
        false
    }
}

} // verus!
