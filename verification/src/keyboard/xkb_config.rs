//! Keymap configuration as plain data.

use vstd::prelude::*;

verus! {

/// The names a keymap is compiled from: rules, model, layout, variant and
/// options.
#[derive(Debug, Clone, PartialEq)]
pub struct XkbConfig<'a> {
    pub rules: &'a str,
    pub model: &'a str,
    pub layout: &'a str,
    pub variant: &'a str,
    pub options: Option<String>,
}

} // verus!
