use vstd::prelude::*;

verus! {

/// Access restrictions attached to a key.
#[derive(Clone, Debug, PartialEq)]
pub struct KeyRestrictions {
    pub tags: Option<Vec<String>>,
}

impl KeyRestrictions {
    /// No restriction at all.
    pub fn new() -> (out: KeyRestrictions)
        ensures
            out.tags is None,
    {
        KeyRestrictions { tags: None }
    }
}

} // verus!
