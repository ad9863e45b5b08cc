use vstd::prelude::*;

verus! {

/// Algorithm family of a key stored on the HSM.
#[derive(Clone, Copy, Debug, PartialEq, Eq, Structural, Hash)]
pub enum KeyType {
    Rsa,
    Curve25519,
    EcP256,
    EcP384,
    EcP521,
    EcP256K1,
    BrainpoolP256,
    BrainpoolP384,
    BrainpoolP512,
    Generic,
}

impl KeyType {
    /// The size in bits of a key of this type. A curve fixes it; an RSA key
    /// has eight bits for each byte of its modulus, where the modulus is
    /// known; of other keys the size is not known.
    pub open spec fn bits_of(self, modulus_len: Option<usize>) -> Option<usize> {
        match self {
            KeyType::Rsa => match modulus_len {
                Some(len) => if len * 8 <= usize::MAX {
                    Some((len * 8) as usize)
                } else {
                    None
                },
                None => None,
            },
            KeyType::Curve25519 => Some(255usize),
            KeyType::EcP256 => Some(256usize),
            KeyType::EcP384 => Some(384usize),
            KeyType::EcP521 => Some(521usize),
            KeyType::EcP256K1 => Some(256usize),
            KeyType::BrainpoolP256 => Some(256usize),
            KeyType::BrainpoolP384 => Some(384usize),
            KeyType::BrainpoolP512 => Some(512usize),
            KeyType::Generic => None,
        }
    }

    /// The declared size of a key of this type whose modulus, if it has one,
    /// is `modulus_len` bytes long.
    pub fn size_in_bits(&self, modulus_len: Option<usize>) -> (out: Option<usize>)
        ensures
            out == self.bits_of(modulus_len),
    {
        match self {
            KeyType::Rsa => match modulus_len {
                Some(len) => {
                    if len <= usize::MAX / 8 {
                        Some(len * 8)
                    } else {
                        None
                    }
                },
                None => None,
            },
            KeyType::Curve25519 => Some(255),
            KeyType::EcP256 => Some(256),
            KeyType::EcP384 => Some(384),
            KeyType::EcP521 => Some(521),
            KeyType::EcP256K1 => Some(256),
            KeyType::BrainpoolP256 => Some(256),
            KeyType::BrainpoolP384 => Some(384),
            KeyType::BrainpoolP512 => Some(512),
            KeyType::Generic => None,
        }
    }
}

} // verus!
