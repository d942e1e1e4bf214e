use air::{DisplayParams, Letter, Modifier, ModifierKey, MouseButton, InputError, Number};

#[test]
fn set_is_idempotent() {
    let mut once = Modifier::of(ModifierKey::Alt);
    once.set(Modifier::of(ModifierKey::LShift));
    let mut twice = once;
    twice.set(Modifier::of(ModifierKey::LShift));
    assert_eq!(once, twice);
}

#[test]
fn set_then_remove_restores() {
    let prior = Modifier::of(ModifierKey::RControl);
    let mut m = prior;
    m.set(Modifier::of(ModifierKey::CapsShift));
    assert_ne!(m, prior);
    m.remove(Modifier::of(ModifierKey::CapsShift));
    assert_eq!(m, prior);
}

#[test]
fn composite_predicates() {
    assert!(Modifier::of(ModifierKey::RShift).is_shift());
    assert!(!Modifier::of(ModifierKey::RShift).is_control());
    assert!(Modifier::of(ModifierKey::Control).is_control());
    assert!(!Modifier::empty().is_shift());
    let mut m = Modifier::of(ModifierKey::LShift);
    m.set(Modifier::of(ModifierKey::RControl));
    assert!(m.is_shift() && m.is_control());
    assert_eq!(m.bits, 16 | 128);
}

#[test]
fn from_bits_truncate_drops_unknown_bits() {
    assert_eq!(Modifier::from_bits_truncate(0xffff).bits, 0x1ff);
    assert_eq!(Modifier::from_bits_truncate(64).bits, 64);
}

#[test]
fn linux_button_codes() {
    assert_eq!(MouseButton::from_linux_code(272), Ok(MouseButton::LEFT));
    assert_eq!(MouseButton::from_linux_code(273), Ok(MouseButton::RIGHT));
    assert_eq!(MouseButton::from_linux_code(274), Ok(MouseButton::MIDDLE));
    assert_eq!(MouseButton::from_linux_code(275), Ok(MouseButton::MOUSE4));
    assert_eq!(MouseButton::from_linux_code(276), Ok(MouseButton::MOUSE5));
    assert_eq!(MouseButton::from_linux_code(277), Err(InputError::UnmappedButton(277)));
}

#[test]
fn letter_and_number_codes() {
    assert_eq!(Letter::from_u8(0x41), Some(Letter::A));
    assert_eq!(Letter::from_u8(0x5A), Some(Letter::Z));
    assert_eq!(Letter::from_u8(0x61), None);
    assert_eq!(Number::from_u8(0x30), Some(Number::Zero));
    assert_eq!(Number::from_u8(0x39), Some(Number::Nine));
    assert_eq!(Number::from_u8(0x3A), None);
}

#[test]
fn display_params() {
    let d = DisplayParams::new(2560, 1440);
    assert_eq!(d.width(), 2560);
    assert_eq!(d.height(), 1440);
}
