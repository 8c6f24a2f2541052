//! An in-memory account unlock and signing coordinator.
//!
//! The crate models a process-wide authority over encrypted key material: a
//! [`store::SecretStore`] verifies passwords and produces signatures, and an
//! [`provider::AccountProvider`] grants time- or usage-bounded signing
//! capability after a successful password check.  Every state transition of
//! the unlock table is specified and proved; the laws module states the
//! security-critical consequences (a temporary unlock signs exactly once, a
//! permanent unlock is never downgraded, a failed unlock leaves no trace).

pub mod addr;
pub mod assoc;
mod host;
pub mod laws;
pub mod miner;
pub mod provider;
pub mod store;
pub mod table;

pub use addr::Address;
pub use provider::AccountProvider;
pub use provider::AccountMeta;
pub use provider::Error;
