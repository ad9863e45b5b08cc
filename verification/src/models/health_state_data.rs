use vstd::prelude::*;
use crate::models::system_state::SystemState;

verus! {

/// Answer of the HSM's health endpoint.
#[derive(Clone, Debug, PartialEq)]
pub struct HealthStateData {
    pub state: SystemState,
}

impl HealthStateData {
    pub fn new(state: SystemState) -> (out: HealthStateData)
        ensures
            out.state == state,
    {
        HealthStateData { state }
    }
}

} // verus!
