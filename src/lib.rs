//! A registry of named output-script descriptors ("keychains") for a wallet
//! that tracks several of them at once, with a mergeable changeset used to
//! persist it.
pub mod chain;
pub mod changeset;
pub mod keyring;
pub mod laws;
pub mod template;

pub use changeset::ChangeSet;
pub use keyring::{KeyRing, KeyRingError};
