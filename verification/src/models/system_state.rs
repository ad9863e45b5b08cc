use vstd::prelude::*;

verus! {

/// Provisioning state that the HSM reports about itself.
#[derive(Clone, Copy, Debug, PartialEq, Eq, Structural, Hash)]
pub enum SystemState {
    Unprovisioned,
    Locked,
    Operational,
    Failed,
}

} // verus!
