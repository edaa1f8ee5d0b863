//! Keyboard-input types.
//!
//! `stub` holds the keyboard surface for host configurations without a
//! keymap compiler; `modifiers` and `xkb_config` hold the plain data the
//! full implementation works on.

pub mod modifiers;
pub mod stub;
pub mod xkb_config;
