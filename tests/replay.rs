use air::replay::{Action, NamedKey, ReplayState, ScrollAxis, KEY_COPY, KEY_LEFT_CONTROL};
use air::{Command, ModifierKey, Modifier, MouseButton, MouseScroll};

#[test]
fn move_mouse_replayed_in_steps() {
    let mut state = ReplayState::new((0, 0));
    let r = state.process_command(Command::MoveMouse { dx: 5, dy: 0 });
    assert_eq!(
        r.actions,
        vec![
            Action::MoveCursor { x: 2, y: 0 },
            Action::MoveCursor { x: 4, y: 0 },
            Action::MoveCursor { x: 5, y: 0 },
        ]
    );
    assert!(!r.send_clipboard);
    assert_eq!(state.position, (5, 0));
}

#[test]
fn set_mouse_is_one_jump() {
    let mut state = ReplayState::new((0, 0));
    let r = state.process_command(Command::SetMouse { x: 300, y: -20 });
    assert_eq!(r.actions, vec![Action::MoveCursor { x: 300, y: -20 }]);
    assert_eq!(state.position, (300, -20));
}

#[test]
fn control_copy_asks_for_clipboard() {
    let mut state = ReplayState::new((0, 0));
    let r = state.process_command(Command::KeyPressed(KEY_LEFT_CONTROL));
    assert_eq!(r.actions, vec![Action::Key { key: NamedKey::LControl, press: true }]);
    assert!(!r.send_clipboard);
    assert!(state.modifiers.contains(Modifier::of(ModifierKey::LControl)));
    assert!(state.modifiers.is_control());
    let r = state.process_command(Command::KeyPressed(KEY_COPY));
    assert_eq!(r.actions, vec![Action::RawKey { code: 0x2E, press: true }]);
    assert!(r.send_clipboard);
    let r = state.process_command(Command::KeyReleased(KEY_LEFT_CONTROL));
    assert_eq!(r.actions, vec![Action::Key { key: NamedKey::LControl, press: false }]);
    assert!(!state.modifiers.is_control());
    let r = state.process_command(Command::KeyPressed(KEY_COPY));
    assert!(!r.send_clipboard);
}

#[test]
fn arrows_are_named_keys() {
    let mut state = ReplayState::new((0, 0));
    let r = state.process_command(Command::KeyPressed(0x69));
    assert_eq!(r.actions, vec![Action::Key { key: NamedKey::LeftArrow, press: true }]);
    let r = state.process_command(Command::KeyReleased(0x6C));
    assert_eq!(r.actions, vec![Action::Key { key: NamedKey::DownArrow, press: false }]);
    let r = state.process_command(Command::KeyPressed(0x1E));
    assert_eq!(r.actions, vec![Action::RawKey { code: 0x1E, press: true }]);
}

#[test]
fn scroll_sends_sign_only() {
    let mut state = ReplayState::new((0, 0));
    let r = state.process_command(Command::MouseScroll(MouseScroll::Vertical(-15)));
    assert_eq!(r.actions, vec![Action::Scroll { axis: ScrollAxis::Vertical, amount: -1 }]);
    let r = state.process_command(Command::MouseScroll(MouseScroll::Horizontal(8)));
    assert_eq!(r.actions, vec![Action::Scroll { axis: ScrollAxis::Horizontal, amount: 1 }]);
}

#[test]
fn buttons_and_text_pass_through() {
    let mut state = ReplayState::new((1, 1));
    let r = state.process_command(Command::MouseButtonPressed(MouseButton::RIGHT));
    assert_eq!(r.actions, vec![Action::Button { button: MouseButton::RIGHT, press: true }]);
    let r = state.process_command(Command::InputText(String::from("hi")));
    assert_eq!(r.actions, vec![Action::TypeText(String::from("hi"))]);
    let r = state.process_command(Command::SetClipboard(String::from("x")));
    assert_eq!(r.actions, vec![Action::SetClipboard(String::from("x"))]);
    assert_eq!(state.position, (1, 1));
}

#[test]
fn client_and_replay_agree_on_position() {
    let mut client = air::mapper::ClientSession::new();
    let mut server = ReplayState::new((0, 0));
    let events = [
        air::event::RawEvent::PointerEnter { x: 40, y: 40 },
        air::event::RawEvent::PointerMotion { x: 40, y: 40 },
        air::event::RawEvent::PointerMotion { x: 47, y: 33 },
        air::event::RawEvent::PointerMotion { x: -5, y: 90 },
    ];
    for e in events {
        if let Some(c) = client.on_raw_event(e).unwrap().command {
            server.process_command(c);
        }
    }
    assert_eq!(server.position, client.position);
    assert_eq!(server.position, (-5, 90));
}
