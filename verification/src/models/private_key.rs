use vstd::prelude::*;
use crate::models::key_mechanism::KeyMechanism;
use crate::models::key_private_data::KeyPrivateData;
use crate::models::key_restrictions::KeyRestrictions;
use crate::models::key_type::KeyType;

verus! {

/// A private key as it is handed to the HSM for import.
#[derive(Clone, Debug, PartialEq)]
pub struct PrivateKey {
    pub mechanisms: Vec<KeyMechanism>,
    pub key_type: KeyType,
    pub key: Box<KeyPrivateData>,
    pub restrictions: Option<Box<KeyRestrictions>>,
}

impl PrivateKey {
    /// A key with the given mechanisms, type and material, and no
    /// restrictions.
    pub fn new(mechanisms: Vec<KeyMechanism>, key_type: KeyType, key: KeyPrivateData) -> (out:
        PrivateKey)
        ensures
            out.mechanisms == mechanisms,
            out.key_type == key_type,
            *out.key == key,
            out.restrictions is None,
    {
        PrivateKey { mechanisms, key_type, key: Box::new(key), restrictions: None }
    }
}

} // verus!
