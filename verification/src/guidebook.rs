//! Shared vocabulary for talking to the remote event-guide platform.
//!
//! The entity types themselves live in [`model`]; the HTTP calls that move
//! them over the wire live outside the verified core.

use vstd::prelude::*;

pub mod model;

verus! {

/// How a remote entity is to be modified: created fresh, or patched in
/// place under its remote-assigned ID.
#[derive(Clone, Copy, Debug, PartialEq, Eq, Structural)]
pub enum Modification {
    Create,
    Update { id: u32 },
}

} // verus!
