use dirty::buttons::{ButtonState, ButtonStates};
use dirty::modules::input::{self as inp, InputCtx};
use dirty::modules::window::{self as win, WindowCtx, WindowEvent};

#[test]
fn button_lifecycle_over_frames() {
    let mut ctx = InputCtx::new();
    inp::poll(&mut ctx, &[4], &[], (0, 0), (0, 0), &[]);
    assert!(inp::key_pressed(&ctx, 4));
    assert!(!inp::key_down(&ctx, 4));
    inp::poll(&mut ctx, &[4], &[], (0, 0), (0, 0), &[]);
    assert!(inp::key_down(&ctx, 4));
    assert_eq!(inp::pressed_keys(&ctx), vec![4]);
    inp::poll(&mut ctx, &[], &[], (0, 0), (0, 0), &[]);
    assert!(inp::key_released(&ctx, 4));
    inp::poll(&mut ctx, &[], &[], (0, 0), (0, 0), &[]);
    assert!(!inp::key_pressed(&ctx, 4));
    assert!(!inp::key_down(&ctx, 4));
    assert!(!inp::key_released(&ctx, 4));
    inp::poll(&mut ctx, &[4], &[], (0, 0), (0, 0), &[]);
    assert!(inp::key_pressed(&ctx, 4));
}

#[test]
fn mouse_state_and_position() {
    let mut ctx = InputCtx::new();
    assert_eq!(inp::mouse_pos(&ctx), (0, 0));
    inp::poll(&mut ctx, &[], &[1], (10, 20), (3, -4), &[]);
    assert!(inp::mouse_pressed(&ctx, 1));
    assert!(!inp::mouse_pressed(&ctx, 3));
    assert_eq!(inp::mouse_pos(&ctx), (10, 20));
    assert_eq!(inp::mouse_delta(&ctx), (3, -4));
    inp::poll(&mut ctx, &[], &[1], (11, 20), (1, 0), &[]);
    assert!(inp::mouse_down(&ctx, 1));
    inp::poll(&mut ctx, &[], &[], (11, 20), (0, 0), &[]);
    assert!(inp::mouse_released(&ctx, 1));
}

#[test]
fn button_states_directly() {
    let mut s = ButtonStates::new();
    s.press(9);
    assert!(s.check(9, ButtonState::Pressed));
    s.press(9);
    assert!(s.check(9, ButtonState::Pressed));
    s.advance(&[9]);
    assert!(s.check(9, ButtonState::Down));
    s.press_all(&[9, 10]);
    assert!(s.check(9, ButtonState::Down));
    assert!(s.check(10, ButtonState::Pressed));
    let mut down = s.held_codes();
    down.sort();
    assert_eq!(down, vec![9, 10]);
    s.advance(&[]);
    assert!(s.check(9, ButtonState::Released));
    assert!(s.check(10, ButtonState::Down));
}

#[test]
fn window_events_press_and_quit() {
    let mut w = WindowCtx::new(640, 480);
    assert_eq!(win::size(&w), (640, 480));
    assert!(win::enabled(&Some(WindowCtx::new(1, 1))));
    assert!(!win::enabled(&None));
    let quit = win::poll_events(&mut w, &[30], &[], &[WindowEvent::KeyDown { repeat: false }]);
    assert!(!quit);
    assert!(win::key_pressed(&w, 30));
    let quit = win::poll_events(&mut w, &[30], &[], &[WindowEvent::KeyDown { repeat: true }, WindowEvent::Quit]);
    assert!(quit);
    assert!(win::key_down(&w, 30));
    let quit = win::poll_events(&mut w, &[], &[2], &[WindowEvent::MouseButtonDown, WindowEvent::Other]);
    assert!(!quit);
    assert!(win::key_released(&w, 30));
    assert!(win::mouse_pressed(&w, 2));
    win::poll_events(&mut w, &[], &[2], &[]);
    assert!(win::mouse_down(&w, 2));
    win::poll_events(&mut w, &[], &[], &[]);
    assert!(win::mouse_released(&w, 2));
}

#[test]
fn repeated_key_down_does_not_press_again() {
    let mut w = WindowCtx::new(10, 10);
    win::poll_events(&mut w, &[5], &[], &[WindowEvent::KeyDown { repeat: true }]);
    assert!(!win::key_pressed(&w, 5));
    assert!(!win::key_down(&w, 5));
}

#[test]
fn window_settings_read_back() {
    let mut w = WindowCtx::new(10, 10);
    assert!(!win::get_relative(&w));
    win::set_relative(&mut w, true);
    assert!(win::get_relative(&w));
    win::hide_cursor(&mut w);
    win::show_cursor(&mut w);
    assert!(!win::get_fullscreen(&w));
    win::set_fullscreen(&mut w, true);
    assert!(win::get_fullscreen(&w));
    assert_eq!(win::size(&w), (10, 10));
}

#[test]
fn pressed_keys_include_this_frames_presses() {
    let mut ctx = InputCtx::new();
    inp::poll(&mut ctx, &[4], &[], (0, 0), (0, 0), &[]);
    assert_eq!(inp::pressed_keys(&ctx), vec![4]);
    inp::poll(&mut ctx, &[4, 6], &[], (0, 0), (0, 0), &[]);
    let mut keys = inp::pressed_keys(&ctx);
    keys.sort();
    assert_eq!(keys, vec![4, 6]);
    // A key pressed in the last frame reads as held one frame more.
    inp::poll(&mut ctx, &[], &[], (0, 0), (0, 0), &[]);
    assert_eq!(inp::pressed_keys(&ctx), vec![6]);
    inp::poll(&mut ctx, &[], &[], (0, 0), (0, 0), &[]);
    assert_eq!(inp::pressed_keys(&ctx), Vec::<u32>::new());
}

#[test]
fn input_poll_reports_quit() {
    let mut ctx = InputCtx::new();
    assert!(!inp::poll(&mut ctx, &[], &[], (0, 0), (0, 0), &[WindowEvent::Other]));
    assert!(inp::poll(&mut ctx, &[], &[], (0, 0), (0, 0), &[WindowEvent::Other, WindowEvent::Quit]));
}

#[test]
fn window_resize_changes_size() {
    let mut w = WindowCtx::new(640, 480);
    win::poll_events(&mut w, &[], &[], &[WindowEvent::Resized { width: 800, height: 600 }]);
    assert_eq!(win::size(&w), (800, 600));
    win::poll_events(
        &mut w,
        &[],
        &[],
        &[WindowEvent::Resized { width: 1, height: 2 }, WindowEvent::Resized { width: 3, height: 4 }, WindowEvent::Other],
    );
    assert_eq!(win::size(&w), (3, 4));
    win::poll_events(&mut w, &[], &[], &[]);
    assert_eq!(win::size(&w), (3, 4));
}

#[test]
fn window_settings_persist_over_other_calls() {
    let mut w = WindowCtx::new(10, 10);
    win::set_relative(&mut w, true);
    win::show_cursor(&mut w);
    win::set_fullscreen(&mut w, true);
    win::poll_events(&mut w, &[1], &[2], &[WindowEvent::Other]);
    win::hide_cursor(&mut w);
    win::show_cursor(&mut w);
    win::poll_events(&mut w, &[], &[], &[]);
    assert!(win::get_relative(&w));
    assert!(win::get_fullscreen(&w));
    win::set_relative(&mut w, false);
    win::hide_cursor(&mut w);
    win::poll_events(&mut w, &[], &[], &[]);
    win::set_fullscreen(&mut w, false);
    assert!(!win::get_relative(&w));
    assert!(!win::get_fullscreen(&w));
}

#[test]
fn key_held_three_frames_then_let_go() {
    let mut ctx = InputCtx::new();
    let mut seen = Vec::new();
    let frames: [&[u32]; 6] = [&[9], &[9], &[9], &[], &[], &[]];
    for down in frames.iter() {
        inp::poll(&mut ctx, down, &[], (0, 0), (0, 0), &[]);
        seen.push((inp::key_pressed(&ctx, 9), inp::key_down(&ctx, 9), inp::key_released(&ctx, 9)));
    }
    assert_eq!(
        seen,
        vec![
            (true, false, false),
            (false, true, false),
            (false, true, false),
            (false, false, true),
            (false, false, false),
            (false, false, false),
        ]
    );
}
