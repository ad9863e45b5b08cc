use vstd::prelude::*;

verus! {

/// Private key material in the HSM's textual encoding. RSA keys carry the two
/// primes and the public exponent, all other keys carry `data`.
#[derive(Clone, Debug, PartialEq)]
pub struct KeyPrivateData {
    pub prime_p: Option<String>,
    pub prime_q: Option<String>,
    pub public_exponent: Option<String>,
    pub data: Option<String>,
}

impl KeyPrivateData {
    /// Key material with every component absent.
    pub fn new() -> (out: KeyPrivateData)
        ensures
            out.prime_p is None,
            out.prime_q is None,
            out.public_exponent is None,
            out.data is None,
    {
        KeyPrivateData { prime_p: None, prime_q: None, public_exponent: None, data: None }
    }
}

} // verus!
