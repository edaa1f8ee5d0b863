use glctx::keyboard::modifiers::{ModifiersState, SerializedMods};
use glctx::keyboard::stub;

#[test]
fn keyboard_handle_reports_unsupported() {
    let r: Result<stub::KeyboardHandle<u32>, stub::Error> =
        stub::KeyboardHandle::new(stub::XkbConfig::default(), 200, 25);
    assert_eq!(r.unwrap_err(), stub::Error::NotSupported);
}

#[test]
fn stub_xkb_config_default_is_empty() {
    let c = stub::XkbConfig::default();
    assert_eq!(c.layout, "");
    assert_eq!(c.variant, "");
    assert_eq!(c.options, "");
    assert_eq!(c.rules, "");
    assert_eq!(c.model, "");
}

#[test]
fn modifier_state_default_is_cleared() {
    let m = ModifiersState::default();
    assert!(!m.ctrl && !m.alt && !m.shift && !m.logo);
    assert_eq!(m.serialized, SerializedMods::default());
    assert_eq!(m.serialized.depressed, 0);
    assert_eq!(m.serialized.group, 0);
}
