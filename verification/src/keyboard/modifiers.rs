//! Keyboard modifier state as plain data.

use vstd::prelude::*;

verus! {

/// The serialized form of the modifier state, as the wire protocol carries
/// it.
#[derive(Debug, Clone, Copy, PartialEq, Eq, Default)]
pub struct SerializedMods {
    pub depressed: u32,
    pub latched: u32,
    pub locked: u32,
    pub group: u32,
    pub layout_effective: u32,
}

/// The decoded modifier state.
#[derive(Debug, Clone, Copy, PartialEq, Eq, Default)]
pub struct ModifiersState {
    pub ctrl: bool,
    pub alt: bool,
    pub shift: bool,
    pub logo: bool,
    pub serialized: SerializedMods,
}

} // verus!
