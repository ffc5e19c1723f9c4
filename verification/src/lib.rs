//! Revenue-split registry and escrow distribution for collaborative tracks.
//!
//! A [`Track`](track::Track) records the contributors of a creative work and
//! the basis-point share each of them holds. The instruction handlers in this
//! crate validate and apply changes to that record, and plan the transfers,
//! mints and account creations that the asset custody service is asked to
//! carry out. They are pure: a handler reads plain account data, and hands
//! back records to emit and requests to perform.

pub mod address;
pub mod credential;
pub mod custody;
pub mod distribute;
pub mod error;
pub mod escrow;
pub mod events;
pub mod laws;
pub mod pubkey;
pub mod registry;
pub mod shares;
pub mod track;
