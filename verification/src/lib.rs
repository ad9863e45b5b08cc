//! A PKCS#11 token provider whose objects and signing operations live on a
//! remote NetHSM. This crate holds the verified core: attribute templates,
//! the mechanism registry, the alias table, the object catalog, sessions,
//! key import and the signing operation. It does no I/O: where the HSM has
//! to be asked, a function says what to ask, and another takes the answer.

pub mod alias;
pub mod api;
pub mod attr;
pub mod db;
pub mod encoding;
pub mod error;
pub mod key;
pub mod login;
pub mod mechanism;
pub mod models;
pub mod object;
pub mod session;
pub mod sign;
