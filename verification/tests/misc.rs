use dirty::audio::{Channel, Reverb, SampleCursor};
use dirty::fs::basename;
use dirty::kit::Input;
use dirty::web::{key_from_web_code, web_char_input, CursorIcon, Key};

#[test]
fn base_names() {
    assert_eq!(basename("res/sprites/hero.png"), Some("hero".to_string()));
    assert_eq!(basename("archive.tar.gz"), Some("archive.tar".to_string()));
    assert_eq!(basename(".bashrc"), Some(".bashrc".to_string()));
    assert_eq!(basename("dir/"), Some("dir".to_string()));
    assert_eq!(basename("/"), None);
    assert_eq!(basename(".."), None);
}

#[test]
fn text_input_starts_empty() {
    let i = Input::new("name");
    assert_eq!(i.text(), "");
}

#[test]
fn reverb_default() {
    assert_eq!(Reverb::default(), Reverb {});
}

#[test]
fn samples_interleave_left_right() {
    let mut c = SampleCursor::new();
    assert!(!c.frame_done(2));
    assert_eq!(c.advance(), (0, 0));
    assert_eq!(c.advance(), (1, 0));
    assert_eq!(c.advance(), (0, 1));
    assert_eq!(c.advance(), (1, 1));
    assert!(c.frame_done(2));
    assert_eq!(c.advance(), (0, 0));
    let _ = Channel::Left;
}

#[test]
fn web_key_codes() {
    assert_eq!(key_from_web_code("KeyQ"), Some(Key::Q));
    assert_eq!(key_from_web_code("Digit0"), Some(Key::Key0));
    assert_eq!(key_from_web_code("F12"), Some(Key::F12));
    assert_eq!(key_from_web_code("ArrowUp"), Some(Key::Up));
    assert_eq!(key_from_web_code("Escape"), Some(Key::Esc));
    assert_eq!(key_from_web_code("ControlRight"), Some(Key::RCtrl));
    assert_eq!(key_from_web_code("Backquote"), Some(Key::Backquote));
    assert_eq!(key_from_web_code("keyq"), None);
    assert_eq!(key_from_web_code("NumpadEnter"), None);
    assert_eq!(key_from_web_code(""), None);
}

#[test]
fn cursor_names() {
    assert_eq!(CursorIcon::Normal.to_web(), "default");
    assert_eq!(CursorIcon::Hand.to_web(), "pointer");
    assert_eq!(CursorIcon::Text.to_web(), "text");
}

#[test]
fn web_char_input_takes_one_byte_keys() {
    assert_eq!(web_char_input("a"), Some('a'));
    assert_eq!(web_char_input(" "), Some(' '));
    assert_eq!(web_char_input("Z"), Some('Z'));
    assert_eq!(web_char_input("Enter"), None);
    assert_eq!(web_char_input("é"), None);
    assert_eq!(web_char_input(""), None);
    assert_eq!(web_char_input("ab"), None);
}
