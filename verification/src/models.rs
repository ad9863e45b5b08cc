//! Wire payloads exchanged with the remote HSM.

pub mod health_state_data;
pub mod key_mechanism;
pub mod key_private_data;
pub mod key_restrictions;
pub mod key_type;
pub mod private_key;
pub mod system_state;

pub use health_state_data::HealthStateData;
pub use key_mechanism::KeyMechanism;
pub use key_private_data::KeyPrivateData;
pub use key_restrictions::KeyRestrictions;
pub use key_type::KeyType;
pub use private_key::PrivateKey;
pub use system_state::SystemState;
