//! Keyboard handling for host configurations without a keymap compiler:
//! every operation is a no-op and construction reports the platform as
//! unsupported.

use core::marker::PhantomData;

use vstd::prelude::*;

verus! {

/// Ascending identifier of input events.
#[derive(Debug, Clone, Copy, PartialEq, Eq, Structural)]
pub struct Serial(pub u32);

/// Whether a key went down or up.
#[derive(Debug, Clone, Copy, PartialEq, Eq, Structural)]
pub enum KeyState {
    Released,
    Pressed,
}

/// Objects that can receive keyboard interactions.
pub trait KeyboardTarget<D> {

}

/// Handle to a keyboard.
#[derive(Debug)]
pub struct KeyboardHandle<D> {
    _marker: PhantomData<D>,
}

/// Handle to a key symbol.
#[derive(Debug)]
pub struct KeysymHandle<'a> {
    _marker: PhantomData<&'a ()>,
}

/// Keyboard modifier state.
#[derive(Debug, Clone, Copy, PartialEq, Eq, Default)]
pub struct ModifiersState;

/// Keymap configuration.
#[derive(Debug, Clone, Copy)]
pub struct XkbConfig<'a> {
    pub layout: &'a str,
    pub variant: &'a str,
    pub options: &'a str,
    pub rules: &'a str,
    pub model: &'a str,
}

impl Default for XkbConfig<'_> {
    /// The default configuration leaves every field empty.
    fn default() -> (c: Self)
        ensures
            c.layout@.len() == 0,
            c.variant@.len() == 0,
            c.options@.len() == 0,
            c.rules@.len() == 0,
            c.model@.len() == 0,
    {
        proof {
            reveal_strlit("");
        }
        XkbConfig { layout: "", variant: "", options: "", rules: "", model: "" }
    }
}

/// Keyboard LED state.
#[derive(Debug, Clone, Copy, PartialEq, Eq, Default)]
pub struct LedState;

/// Keyboard errors.
#[derive(Debug, Clone, Copy, PartialEq, Eq, Structural)]
pub enum Error {
    /// Keyboards are not supported on this host configuration.
    NotSupported,
}

impl<D> KeyboardHandle<D> {
    /// Creating a keyboard always reports the platform as unsupported here.
    pub fn new(_config: XkbConfig<'_>, _repeat_delay: i32, _repeat_rate: i32) -> (r: Result<
        KeyboardHandle<D>,
        Error,
    >)
        ensures
            r == Err::<KeyboardHandle<D>, Error>(Error::NotSupported),
    {
        Err(Error::NotSupported)
    }

    /// Set the keyboard focus: a no-op that leaves the handler data as it
    /// was.
    pub fn set_focus<T: KeyboardTarget<D>>(
        &self,
        _data: &mut D,
        _focus: Option<&T>,
        _serial: Serial,
    )
        ensures
            *final(_data) == *old(_data),
    {
    }

    /// Feed one key event: a no-op that leaves the handler data and the
    /// handler as they were.
    pub fn input<T>(
        &self,
        _data: &mut D,
        _handle: &mut T,
        _keycode: u32,
        _state: KeyState,
        _serial: Serial,
        _time: u32,
    )
        ensures
            *final(_data) == *old(_data),
            *final(_handle) == *old(_handle),
    {
    }
}

} // verus!
