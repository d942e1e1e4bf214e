use air::event::{AppEvent, Axis, Normalizer, RawEvent};
use air::mapper::{map_event, ClientSession};
use air::{Command, InputError, MouseButton, MouseScroll};

fn run(events: &[RawEvent]) -> Vec<Command> {
    let mut session = ClientSession::new();
    let mut out = Vec::new();
    for e in events {
        if let Ok(tick) = session.on_raw_event(*e) {
            if let Some(c) = tick.command {
                out.push(c);
            }
        }
    }
    out
}

#[test]
fn motion_after_enter_is_suppressed() {
    let commands = run(&[
        RawEvent::PointerEnter { x: 5, y: 5 },
        RawEvent::PointerMotion { x: 5, y: 5 },
    ]);
    assert_eq!(commands, vec![Command::SetMouse { x: 5, y: 5 }]);
}

#[test]
fn enter_then_motions_scenario() {
    let commands = run(&[
        RawEvent::PointerEnter { x: 100, y: 50 },
        RawEvent::PointerMotion { x: 100, y: 50 },
        RawEvent::PointerMotion { x: 110, y: 50 },
    ]);
    assert_eq!(
        commands,
        vec![Command::SetMouse { x: 100, y: 50 }, Command::MoveMouse { dx: 10, dy: 0 }]
    );
}

#[test]
fn enter_asks_for_clipboard_push() {
    let mut session = ClientSession::new();
    let tick = session.on_raw_event(RawEvent::PointerEnter { x: 1, y: 2 }).unwrap();
    assert!(tick.push_clipboard);
    let tick = session.on_raw_event(RawEvent::KeyEvent { code: 30, pressed: true }).unwrap();
    assert!(!tick.push_clipboard);
    assert_eq!(tick.command, Some(Command::KeyPressed(30)));
}

#[test]
fn motion_without_focus_sends_nothing() {
    let commands = run(&[
        RawEvent::PointerEnter { x: 0, y: 0 },
        RawEvent::PointerLeave,
        RawEvent::PointerMotion { x: 9, y: 9 },
    ]);
    assert_eq!(commands, vec![Command::SetMouse { x: 0, y: 0 }]);
}

#[test]
fn unmapped_button_is_an_error() {
    let mut session = ClientSession::new();
    let before = session;
    let r = session.on_raw_event(RawEvent::PointerButton { code: 999, pressed: true });
    assert_eq!(r, Err(InputError::UnmappedButton(999)));
    assert_eq!(session, before);
}

#[test]
fn buttons_keys_and_scrolls_map_one_to_one() {
    let commands = run(&[
        RawEvent::PointerButton { code: 272, pressed: true },
        RawEvent::PointerButton { code: 276, pressed: false },
        RawEvent::PointerAxis { axis: Axis::VerticalScroll, value: -2 },
        RawEvent::PointerAxis { axis: Axis::HorizontalScroll, value: 0 },
        RawEvent::PointerAxis { axis: Axis::HorizontalScroll, value: 4 },
        RawEvent::KeyEvent { code: 0x2E, pressed: false },
    ]);
    assert_eq!(
        commands,
        vec![
            Command::MouseButtonPressed(MouseButton::LEFT),
            Command::MouseButtonReleased(MouseButton::MOUSE5),
            Command::MouseScroll(MouseScroll::Vertical(-2)),
            Command::MouseScroll(MouseScroll::Horizontal(4)),
            Command::KeyReleased(0x2E),
        ]
    );
}

#[test]
fn normalizer_tracks_focus() {
    let mut n = Normalizer::new();
    assert_eq!(n.on_event(RawEvent::PointerEnter { x: 3, y: 4 }), Ok(AppEvent::MouseEnter { x: 3, y: 4 }));
    assert!(n.focus);
    assert_eq!(n.on_event(RawEvent::PointerMotion { x: 3, y: 4 }), Ok(AppEvent::Nothing));
    assert_eq!(n.on_event(RawEvent::PointerMotion { x: 6, y: 4 }), Ok(AppEvent::MouseMove { x: 6, y: 4 }));
    assert_eq!(n.on_event(RawEvent::PointerLeave), Ok(AppEvent::MouseLeave));
    assert!(!n.focus);
}

#[test]
fn map_event_uses_delta_from_last_position() {
    let (c, pos) = map_event(AppEvent::MouseMove { x: 7, y: -3 }, true, (10, 10));
    assert_eq!(c, Some(Command::MoveMouse { dx: -3, dy: -13 }));
    assert_eq!(pos, (7, -3));
    let (c, pos) = map_event(AppEvent::MouseMove { x: 7, y: -3 }, false, (10, 10));
    assert_eq!(c, None);
    assert_eq!(pos, (10, 10));
    let (c, pos) = map_event(AppEvent::MouseLeave, true, (1, 1));
    assert_eq!(c, None);
    assert_eq!(pos, (1, 1));
}
