use fw16_kblight::classifier::{ModuleKind, ModulePID};

#[test]
fn classifies_every_known_product_id() {
    assert_eq!(ModulePID::from_code(0x0012), Some(ModulePID::KeyboardANSI));
    assert_eq!(
        ModulePID::from_code(0x0030),
        Some(ModulePID::KeyboardANSICopilot)
    );
    assert_eq!(ModulePID::from_code(0x0018), Some(ModulePID::KeyboardISO));
    assert_eq!(ModulePID::from_code(0x0019), Some(ModulePID::KeyboardJIS));
    assert_eq!(ModulePID::from_code(0x0014), Some(ModulePID::Numpad));
    assert_eq!(ModulePID::from_code(0x0013), Some(ModulePID::Macropad));
}

#[test]
fn rejects_unknown_product_ids() {
    assert_eq!(ModulePID::from_code(0x0000), None);
    assert_eq!(ModulePID::from_code(0x0011), None);
    assert_eq!(ModulePID::from_code(0xffff), None);
}

#[test]
fn code_round_trips() {
    for pid in [
        ModulePID::KeyboardANSI,
        ModulePID::KeyboardANSICopilot,
        ModulePID::KeyboardISO,
        ModulePID::KeyboardJIS,
        ModulePID::Numpad,
        ModulePID::Macropad,
    ] {
        assert_eq!(ModulePID::from_code(pid.code()), Some(pid));
    }
}

#[test]
fn kinds_are_bucketed() {
    assert_eq!(ModulePID::KeyboardANSI.kind(), ModuleKind::Keyboard);
    assert_eq!(ModulePID::KeyboardANSICopilot.kind(), ModuleKind::Keyboard);
    assert_eq!(ModulePID::KeyboardISO.kind(), ModuleKind::Keyboard);
    assert_eq!(ModulePID::KeyboardJIS.kind(), ModuleKind::Keyboard);
    assert_eq!(ModulePID::Numpad.kind(), ModuleKind::Numpad);
    assert_eq!(ModulePID::Macropad.kind(), ModuleKind::Macropad);
}

#[test]
fn ambiguous_ansi_keyboard_is_rgb_capable() {
    // The 0x0012 product identifier is shared between an RGB and a
    // plain-backlight variant; it must always classify as RGB-capable.
    let pid = ModulePID::from_code(0x0012).unwrap();
    assert!(pid.has_rgb());
}

#[test]
fn labels_carry_identity_and_ids() {
    assert_eq!(ModulePID::KeyboardANSI.label(), "KeyboardANSI (32ac:0012)");
    assert_eq!(ModulePID::Numpad.label(), "Numpad (32ac:0014)");
    assert_eq!(ModulePID::Macropad.label(), "Macropad (32ac:0013)");
}

#[test]
fn rgb_capability_table() {
    assert!(ModulePID::KeyboardANSI.has_rgb());
    assert!(ModulePID::Macropad.has_rgb());
    assert!(!ModulePID::KeyboardANSICopilot.has_rgb());
    assert!(!ModulePID::KeyboardISO.has_rgb());
    assert!(!ModulePID::KeyboardJIS.has_rgb());
    assert!(!ModulePID::Numpad.has_rgb());
}
