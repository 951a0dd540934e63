//! Verified compliance modules, in the T-REX style, for real-world
//! asset tokens: country allow/restrict lists, initial lockup periods,
//! per-identity balance caps, supply caps, time-windowed transfer limits
//! and address allowlists.

pub mod compliance;
pub mod compliance_modules;
pub mod identity_registry_storage;
pub mod keyed;
