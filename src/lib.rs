//! A registry of owner-controlled identities and the scoped, time-bounded
//! delegations granted over them. Records live at addresses derived from a
//! domain tag and key material; every mutation is gated on the authenticated
//! owner key.

pub mod address;
pub mod registry;
pub mod elits;
pub mod laws;
