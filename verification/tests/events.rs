use dirty::events::{AppInput, Event, RawEvent, ScrollPhase, TouchPhase};

#[test]
fn key_press_then_repeat_then_release() {
    let mut a = AppInput::new(800, 600, vec![]);
    let e = a.handle(RawEvent::Keyboard { key: 7, pressed: true });
    assert_eq!(e, vec![Event::KeyPressRepeat(7), Event::KeyPress(7)]);
    assert!(a.key_down(7));
    let e = a.handle(RawEvent::Keyboard { key: 7, pressed: true });
    assert_eq!(e, vec![Event::KeyPressRepeat(7)]);
    let e = a.handle(RawEvent::Keyboard { key: 7, pressed: false });
    assert_eq!(e, vec![Event::KeyRelease(7)]);
    assert!(!a.key_down(7));
    let e = a.handle(RawEvent::Keyboard { key: 7, pressed: true });
    assert_eq!(e, vec![Event::KeyPressRepeat(7), Event::KeyPress(7)]);
}

#[test]
fn mouse_buttons() {
    let mut a = AppInput::new(800, 600, vec![]);
    assert_eq!(a.handle(RawEvent::MouseInput { button: 1, pressed: true }), vec![Event::MousePress(1)]);
    assert!(a.mouse_down(1));
    assert_eq!(a.handle(RawEvent::MouseInput { button: 1, pressed: false }), vec![Event::MouseRelease(1)]);
    assert!(!a.mouse_down(1));
}

#[test]
fn scroll_phases() {
    let mut a = AppInput::new(1, 1, vec![]);
    assert_eq!(a.handle(RawEvent::Wheel { phase: TouchPhase::Moved }), vec![Event::Scroll(ScrollPhase::Solid)]);
    assert_eq!(a.handle(RawEvent::Wheel { phase: TouchPhase::Ended }), vec![Event::Scroll(ScrollPhase::Trailing)]);
    assert_eq!(a.handle(RawEvent::Wheel { phase: TouchPhase::Moved }), vec![Event::Scroll(ScrollPhase::Trailing)]);
    assert_eq!(a.handle(RawEvent::Wheel { phase: TouchPhase::Started }), vec![Event::Scroll(ScrollPhase::Solid)]);
}

#[test]
fn typed_characters() {
    let mut a = AppInput::new(1, 1, vec!['\u{f700}']);
    assert_eq!(a.handle(RawEvent::ReceivedCharacter('a')), vec![Event::CharInput('a')]);
    assert_eq!(a.handle(RawEvent::ReceivedCharacter('\u{8}')), vec![]);
    assert_eq!(a.handle(RawEvent::ReceivedCharacter('\u{7f}')), vec![]);
    assert_eq!(a.handle(RawEvent::ReceivedCharacter('\u{9f}')), vec![]);
    assert_eq!(a.handle(RawEvent::ReceivedCharacter('\u{a0}')), vec![Event::CharInput('\u{a0}')]);
    assert_eq!(a.handle(RawEvent::ReceivedCharacter('\u{f700}')), vec![]);
    assert_eq!(a.handle(RawEvent::ReceivedCharacter('é')), vec![Event::CharInput('é')]);
}

#[test]
fn resize_and_window_events() {
    let mut a = AppInput::new(800, 600, vec![]);
    assert_eq!(a.handle(RawEvent::Resized { width: 1024, height: 768 }), vec![Event::Resize(1024, 768)]);
    assert_eq!(a.size(), (1024, 768));
    assert_eq!(a.handle(RawEvent::Focused(false)), vec![Event::Focus(false)]);
    assert_eq!(a.handle(RawEvent::CursorEntered), vec![Event::CursorEnter]);
    assert_eq!(a.handle(RawEvent::CursorLeft), vec![Event::CursorLeave]);
    assert_eq!(a.handle(RawEvent::Other), vec![]);
}

#[test]
fn gamepad_buttons() {
    let mut a = AppInput::new(1, 1, vec![]);
    assert_eq!(a.handle(RawEvent::GamepadConnected(0)), vec![Event::GamepadConnect(0)]);
    assert_eq!(a.handle(RawEvent::GamepadPressed { id: 0, button: 3 }), vec![Event::GamepadPress(0, 3)]);
    assert!(a.gamepad_down(0, 3));
    assert!(!a.gamepad_down(1, 3));
    assert_eq!(a.handle(RawEvent::GamepadRepeated { id: 0, button: 3 }), vec![Event::GamepadPressRepeat(0, 3)]);
    assert_eq!(a.handle(RawEvent::GamepadReleased { id: 0, button: 3 }), vec![Event::GamepadRelease(0, 3)]);
    assert!(!a.gamepad_down(0, 3));
    assert_eq!(a.handle(RawEvent::GamepadDisconnected(0)), vec![Event::GamepadDisconnect(0)]);
}

#[test]
fn quitting_and_redraws() {
    let mut a = AppInput::new(1, 1, vec![]);
    a.handle(RawEvent::FrameDrawn);
    assert!(!a.should_exit());
    a.quit();
    assert!(!a.should_exit());
    a.handle(RawEvent::FrameDrawn);
    assert!(a.should_exit());
    let mut b = AppInput::new(1, 1, vec![]);
    b.handle(RawEvent::CloseRequested);
    assert!(b.should_exit());
    let mut c = AppInput::new(1, 1, vec![]);
    c.handle(RawEvent::LoopDestroyed);
    assert!(c.should_exit());
    assert!(!c.wants_redraw());
    c.handle(RawEvent::EventsCleared);
    assert!(c.wants_redraw());
    c.handle(RawEvent::EventsCleared);
    assert!(!c.wants_redraw());
}

#[test]
fn file_events_are_handed_on() {
    let mut a = AppInput::new(1, 1, vec![]);
    assert_eq!(a.handle(RawEvent::HoveredFile("a.png".to_string())), vec![Event::FileHover("a.png".to_string())]);
    assert_eq!(a.handle(RawEvent::HoveredFileCancelled), vec![Event::FileHoverCancel]);
    assert_eq!(a.handle(RawEvent::DroppedFile("/tmp/b".to_string())), vec![Event::FileDrop("/tmp/b".to_string())]);
}
