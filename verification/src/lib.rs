//! A deterministic state-transition module managing ownership, breeding,
//! and sale of discrete digital assets ("kitties").
//!
//! The module keeps an id-indexed registry of immutable genomes, an
//! ownership index, a marketplace listing table, and a collateral ledger.
//! Five handlers — create, transfer, breed, sell, buy — mutate those
//! tables under strict validation and all-or-nothing semantics: on any
//! error the state is left exactly as it was.
//!
//! The host that schedules operations supplies the authenticated caller
//! and the per-call entropy (genome seeds and breeding selectors) as
//! plain values, so every transition is a deterministic function of the
//! store and the handler's arguments, and a replaying node reaches
//! identical state.

pub mod breeding;
pub mod collateral;
pub mod laws;
pub mod ledger;
pub mod pallet;

pub use breeding::child_byte;
pub use breeding::child_genome;
pub use pallet::Config;
pub use pallet::Error;
pub use pallet::Event;
pub use pallet::Kitty;
pub use pallet::Pallet;
