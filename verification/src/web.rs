//! The browser platform's names for keys and cursors.

use vstd::prelude::*;

use vstd::string::*;

use crate::text::str_eq;

verus! {

/// A key on the keyboard.
#[derive(Clone, Copy, PartialEq, Eq, Structural, Debug, Hash)]
pub enum Key {
    Q,
    W,
    E,
    R,
    T,
    Y,
    U,
    I,
    O,
    P,
    A,
    S,
    D,
    F,
    G,
    H,
    J,
    K,
    L,
    Z,
    X,
    C,
    V,
    B,
    N,
    M,
    Key1,
    Key2,
    Key3,
    Key4,
    Key5,
    Key6,
    Key7,
    Key8,
    Key9,
    Key0,
    F1,
    F2,
    F3,
    F4,
    F5,
    F6,
    F7,
    F8,
    F9,
    F10,
    F11,
    F12,
    Minus,
    Equal,
    Comma,
    Period,
    Backquote,
    Slash,
    Backslash,
    Semicolon,
    Quote,
    Up,
    Down,
    Left,
    Right,
    Esc,
    Tab,
    Space,
    Backspace,
    Enter,
    LShift,
    RShift,
    LAlt,
    RAlt,
    LMeta,
    RMeta,
    LCtrl,
    RCtrl,
}

/// The key that a browser key code (the `code` of a keyboard event) names,
/// if it is one the toolkit knows.
pub open spec fn web_key(code: Seq<char>) -> Option<Key> {
    if code == "KeyQ"@ {
        Some(Key::Q)
    } else if code == "KeyW"@ {
        Some(Key::W)
    } else if code == "KeyE"@ {
        Some(Key::E)
    } else if code == "KeyR"@ {
        Some(Key::R)
    } else if code == "KeyT"@ {
        Some(Key::T)
    } else if code == "KeyY"@ {
        Some(Key::Y)
    } else if code == "KeyU"@ {
        Some(Key::U)
    } else if code == "KeyI"@ {
        Some(Key::I)
    } else if code == "KeyO"@ {
        Some(Key::O)
    } else if code == "KeyP"@ {
        Some(Key::P)
    } else if code == "KeyA"@ {
        Some(Key::A)
    } else if code == "KeyS"@ {
        Some(Key::S)
    } else if code == "KeyD"@ {
        Some(Key::D)
    } else if code == "KeyF"@ {
        Some(Key::F)
    } else if code == "KeyG"@ {
        Some(Key::G)
    } else if code == "KeyH"@ {
        Some(Key::H)
    } else if code == "KeyJ"@ {
        Some(Key::J)
    } else if code == "KeyK"@ {
        Some(Key::K)
    } else if code == "KeyL"@ {
        Some(Key::L)
    } else if code == "KeyZ"@ {
        Some(Key::Z)
    } else if code == "KeyX"@ {
        Some(Key::X)
    } else if code == "KeyC"@ {
        Some(Key::C)
    } else if code == "KeyV"@ {
        Some(Key::V)
    } else if code == "KeyB"@ {
        Some(Key::B)
    } else if code == "KeyN"@ {
        Some(Key::N)
    } else if code == "KeyM"@ {
        Some(Key::M)
    } else if code == "Digit1"@ {
        Some(Key::Key1)
    } else if code == "Digit2"@ {
        Some(Key::Key2)
    } else if code == "Digit3"@ {
        Some(Key::Key3)
    } else if code == "Digit4"@ {
        Some(Key::Key4)
    } else if code == "Digit5"@ {
        Some(Key::Key5)
    } else if code == "Digit6"@ {
        Some(Key::Key6)
    } else if code == "Digit7"@ {
        Some(Key::Key7)
    } else if code == "Digit8"@ {
        Some(Key::Key8)
    } else if code == "Digit9"@ {
        Some(Key::Key9)
    } else if code == "Digit0"@ {
        Some(Key::Key0)
    } else if code == "F1"@ {
        Some(Key::F1)
    } else if code == "F2"@ {
        Some(Key::F2)
    } else if code == "F3"@ {
        Some(Key::F3)
    } else if code == "F4"@ {
        Some(Key::F4)
    } else if code == "F5"@ {
        Some(Key::F5)
    } else if code == "F6"@ {
        Some(Key::F6)
    } else if code == "F7"@ {
        Some(Key::F7)
    } else if code == "F8"@ {
        Some(Key::F8)
    } else if code == "F9"@ {
        Some(Key::F9)
    } else if code == "F10"@ {
        Some(Key::F10)
    } else if code == "F11"@ {
        Some(Key::F11)
    } else if code == "F12"@ {
        Some(Key::F12)
    } else if code == "Minus"@ {
        Some(Key::Minus)
    } else if code == "Equal"@ {
        Some(Key::Equal)
    } else if code == "Comma"@ {
        Some(Key::Comma)
    } else if code == "Period"@ {
        Some(Key::Period)
    } else if code == "Backquote"@ {
        Some(Key::Backquote)
    } else if code == "Slash"@ {
        Some(Key::Slash)
    } else if code == "Backslash"@ {
        Some(Key::Backslash)
    } else if code == "Semicolon"@ {
        Some(Key::Semicolon)
    } else if code == "Quote"@ {
        Some(Key::Quote)
    } else if code == "ArrowUp"@ {
        Some(Key::Up)
    } else if code == "ArrowDown"@ {
        Some(Key::Down)
    } else if code == "ArrowLeft"@ {
        Some(Key::Left)
    } else if code == "ArrowRight"@ {
        Some(Key::Right)
    } else if code == "Escape"@ {
        Some(Key::Esc)
    } else if code == "Tab"@ {
        Some(Key::Tab)
    } else if code == "Space"@ {
        Some(Key::Space)
    } else if code == "Backspace"@ {
        Some(Key::Backspace)
    } else if code == "Enter"@ {
        Some(Key::Enter)
    } else if code == "ShiftLeft"@ {
        Some(Key::LShift)
    } else if code == "ShiftRight"@ {
        Some(Key::RShift)
    } else if code == "AltLeft"@ {
        Some(Key::LAlt)
    } else if code == "AltRight"@ {
        Some(Key::RAlt)
    } else if code == "MetaLeft"@ {
        Some(Key::LMeta)
    } else if code == "MetaRight"@ {
        Some(Key::RMeta)
    } else if code == "ControlLeft"@ {
        Some(Key::LCtrl)
    } else if code == "ControlRight"@ {
        Some(Key::RCtrl)
    } else {
        None
    }
}

/// The browser's name for each key: the `code` that a keyboard event
/// carries for it (letters `KeyA` to `KeyZ`, digits `Digit0` to `Digit9`,
/// arrows `ArrowUp` to `ArrowRight`, modifiers with their side, and so on).
pub open spec fn web_code(k: Key) -> Seq<char> {
    match k {
        Key::Q => "KeyQ"@,
        Key::W => "KeyW"@,
        Key::E => "KeyE"@,
        Key::R => "KeyR"@,
        Key::T => "KeyT"@,
        Key::Y => "KeyY"@,
        Key::U => "KeyU"@,
        Key::I => "KeyI"@,
        Key::O => "KeyO"@,
        Key::P => "KeyP"@,
        Key::A => "KeyA"@,
        Key::S => "KeyS"@,
        Key::D => "KeyD"@,
        Key::F => "KeyF"@,
        Key::G => "KeyG"@,
        Key::H => "KeyH"@,
        Key::J => "KeyJ"@,
        Key::K => "KeyK"@,
        Key::L => "KeyL"@,
        Key::Z => "KeyZ"@,
        Key::X => "KeyX"@,
        Key::C => "KeyC"@,
        Key::V => "KeyV"@,
        Key::B => "KeyB"@,
        Key::N => "KeyN"@,
        Key::M => "KeyM"@,
        Key::Key1 => "Digit1"@,
        Key::Key2 => "Digit2"@,
        Key::Key3 => "Digit3"@,
        Key::Key4 => "Digit4"@,
        Key::Key5 => "Digit5"@,
        Key::Key6 => "Digit6"@,
        Key::Key7 => "Digit7"@,
        Key::Key8 => "Digit8"@,
        Key::Key9 => "Digit9"@,
        Key::Key0 => "Digit0"@,
        Key::F1 => "F1"@,
        Key::F2 => "F2"@,
        Key::F3 => "F3"@,
        Key::F4 => "F4"@,
        Key::F5 => "F5"@,
        Key::F6 => "F6"@,
        Key::F7 => "F7"@,
        Key::F8 => "F8"@,
        Key::F9 => "F9"@,
        Key::F10 => "F10"@,
        Key::F11 => "F11"@,
        Key::F12 => "F12"@,
        Key::Minus => "Minus"@,
        Key::Equal => "Equal"@,
        Key::Comma => "Comma"@,
        Key::Period => "Period"@,
        Key::Backquote => "Backquote"@,
        Key::Slash => "Slash"@,
        Key::Backslash => "Backslash"@,
        Key::Semicolon => "Semicolon"@,
        Key::Quote => "Quote"@,
        Key::Up => "ArrowUp"@,
        Key::Down => "ArrowDown"@,
        Key::Left => "ArrowLeft"@,
        Key::Right => "ArrowRight"@,
        Key::Esc => "Escape"@,
        Key::Tab => "Tab"@,
        Key::Space => "Space"@,
        Key::Backspace => "Backspace"@,
        Key::Enter => "Enter"@,
        Key::LShift => "ShiftLeft"@,
        Key::RShift => "ShiftRight"@,
        Key::LAlt => "AltLeft"@,
        Key::RAlt => "AltRight"@,
        Key::LMeta => "MetaLeft"@,
        Key::RMeta => "MetaRight"@,
        Key::LCtrl => "ControlLeft"@,
        Key::RCtrl => "ControlRight"@,
    }
}

/// A browser code names exactly the key whose code it is: the key found
/// for a code is the one the browser gives that code, and each key's code
/// finds that key. So no two keys share a code, and no code finds a key
/// other than its own.
pub proof fn lemma_web_key_names(c: Seq<char>, k: Key)
    ensures
        web_key(c) == Some(k) <==> c == web_code(k),
{
    // The codes are told apart by their lengths, and where two lengths
    // agree, by one character in which they differ.
    reveal_strlit("KeyQ");
    assert("KeyQ"@.len() == 4);
    assert("KeyQ"@[3] == 'Q');
    reveal_strlit("KeyW");
    assert("KeyW"@.len() == 4);
    assert("KeyW"@[3] == 'W');
    reveal_strlit("KeyE");
    assert("KeyE"@.len() == 4);
    assert("KeyE"@[3] == 'E');
    reveal_strlit("KeyR");
    assert("KeyR"@.len() == 4);
    assert("KeyR"@[3] == 'R');
    reveal_strlit("KeyT");
    assert("KeyT"@.len() == 4);
    assert("KeyT"@[3] == 'T');
    reveal_strlit("KeyY");
    assert("KeyY"@.len() == 4);
    assert("KeyY"@[3] == 'Y');
    reveal_strlit("KeyU");
    assert("KeyU"@.len() == 4);
    assert("KeyU"@[3] == 'U');
    reveal_strlit("KeyI");
    assert("KeyI"@.len() == 4);
    assert("KeyI"@[3] == 'I');
    reveal_strlit("KeyO");
    assert("KeyO"@.len() == 4);
    assert("KeyO"@[3] == 'O');
    reveal_strlit("KeyP");
    assert("KeyP"@.len() == 4);
    assert("KeyP"@[3] == 'P');
    reveal_strlit("KeyA");
    assert("KeyA"@.len() == 4);
    assert("KeyA"@[3] == 'A');
    reveal_strlit("KeyS");
    assert("KeyS"@.len() == 4);
    assert("KeyS"@[3] == 'S');
    reveal_strlit("KeyD");
    assert("KeyD"@.len() == 4);
    assert("KeyD"@[3] == 'D');
    reveal_strlit("KeyF");
    assert("KeyF"@.len() == 4);
    assert("KeyF"@[3] == 'F');
    reveal_strlit("KeyG");
    assert("KeyG"@.len() == 4);
    assert("KeyG"@[3] == 'G');
    reveal_strlit("KeyH");
    assert("KeyH"@.len() == 4);
    assert("KeyH"@[3] == 'H');
    reveal_strlit("KeyJ");
    assert("KeyJ"@.len() == 4);
    assert("KeyJ"@[3] == 'J');
    reveal_strlit("KeyK");
    assert("KeyK"@.len() == 4);
    assert("KeyK"@[3] == 'K');
    reveal_strlit("KeyL");
    assert("KeyL"@.len() == 4);
    assert("KeyL"@[3] == 'L');
    reveal_strlit("KeyZ");
    assert("KeyZ"@.len() == 4);
    assert("KeyZ"@[3] == 'Z');
    reveal_strlit("KeyX");
    assert("KeyX"@.len() == 4);
    assert("KeyX"@[3] == 'X');
    reveal_strlit("KeyC");
    assert("KeyC"@.len() == 4);
    assert("KeyC"@[3] == 'C');
    reveal_strlit("KeyV");
    assert("KeyV"@.len() == 4);
    assert("KeyV"@[3] == 'V');
    reveal_strlit("KeyB");
    assert("KeyB"@.len() == 4);
    assert("KeyB"@[3] == 'B');
    reveal_strlit("KeyN");
    assert("KeyN"@.len() == 4);
    assert("KeyN"@[3] == 'N');
    reveal_strlit("KeyM");
    assert("KeyM"@.len() == 4);
    assert("KeyM"@[3] == 'M');
    reveal_strlit("Digit1");
    assert("Digit1"@.len() == 6);
    assert("Digit1"@[5] == '1');
    reveal_strlit("Digit2");
    assert("Digit2"@.len() == 6);
    assert("Digit2"@[5] == '2');
    reveal_strlit("Digit3");
    assert("Digit3"@.len() == 6);
    assert("Digit3"@[5] == '3');
    reveal_strlit("Digit4");
    assert("Digit4"@.len() == 6);
    assert("Digit4"@[5] == '4');
    reveal_strlit("Digit5");
    assert("Digit5"@.len() == 6);
    assert("Digit5"@[5] == '5');
    reveal_strlit("Digit6");
    assert("Digit6"@.len() == 6);
    assert("Digit6"@[5] == '6');
    reveal_strlit("Digit7");
    assert("Digit7"@.len() == 6);
    assert("Digit7"@[5] == '7');
    reveal_strlit("Digit8");
    assert("Digit8"@.len() == 6);
    assert("Digit8"@[5] == '8');
    reveal_strlit("Digit9");
    assert("Digit9"@.len() == 6);
    assert("Digit9"@[5] == '9');
    reveal_strlit("Digit0");
    assert("Digit0"@.len() == 6);
    assert("Digit0"@[5] == '0');
    reveal_strlit("F1");
    assert("F1"@.len() == 2);
    assert("F1"@[1] == '1');
    reveal_strlit("F2");
    assert("F2"@.len() == 2);
    assert("F2"@[1] == '2');
    reveal_strlit("F3");
    assert("F3"@.len() == 2);
    assert("F3"@[1] == '3');
    reveal_strlit("F4");
    assert("F4"@.len() == 2);
    assert("F4"@[1] == '4');
    reveal_strlit("F5");
    assert("F5"@.len() == 2);
    assert("F5"@[1] == '5');
    reveal_strlit("F6");
    assert("F6"@.len() == 2);
    assert("F6"@[1] == '6');
    reveal_strlit("F7");
    assert("F7"@.len() == 2);
    assert("F7"@[1] == '7');
    reveal_strlit("F8");
    assert("F8"@.len() == 2);
    assert("F8"@[1] == '8');
    reveal_strlit("F9");
    assert("F9"@.len() == 2);
    assert("F9"@[1] == '9');
    reveal_strlit("F10");
    assert("F10"@.len() == 3);
    assert("F10"@[2] == '0');
    reveal_strlit("F11");
    assert("F11"@.len() == 3);
    assert("F11"@[2] == '1');
    reveal_strlit("F12");
    assert("F12"@.len() == 3);
    assert("F12"@[2] == '2');
    reveal_strlit("Minus");
    assert("Minus"@.len() == 5);
    assert("Minus"@[4] == 's');
    reveal_strlit("Equal");
    assert("Equal"@.len() == 5);
    assert("Equal"@[4] == 'l');
    reveal_strlit("Comma");
    assert("Comma"@.len() == 5);
    assert("Comma"@[4] == 'a');
    reveal_strlit("Period");
    assert("Period"@.len() == 6);
    assert("Period"@[5] == 'd');
    reveal_strlit("Backquote");
    assert("Backquote"@.len() == 9);
    assert("Backquote"@[4] == 'q');
    assert("Backquote"@[8] == 'e');
    reveal_strlit("Slash");
    assert("Slash"@.len() == 5);
    assert("Slash"@[4] == 'h');
    reveal_strlit("Backslash");
    assert("Backslash"@.len() == 9);
    assert("Backslash"@[8] == 'h');
    reveal_strlit("Semicolon");
    assert("Semicolon"@.len() == 9);
    assert("Semicolon"@[0] == 'S');
    assert("Semicolon"@[8] == 'n');
    reveal_strlit("Quote");
    assert("Quote"@.len() == 5);
    assert("Quote"@[0] == 'Q');
    assert("Quote"@[4] == 'e');
    reveal_strlit("ArrowUp");
    assert("ArrowUp"@.len() == 7);
    assert("ArrowUp"@[6] == 'p');
    reveal_strlit("ArrowDown");
    assert("ArrowDown"@.len() == 9);
    assert("ArrowDown"@[0] == 'A');
    assert("ArrowDown"@[8] == 'n');
    reveal_strlit("ArrowLeft");
    assert("ArrowLeft"@.len() == 9);
    assert("ArrowLeft"@[0] == 'A');
    assert("ArrowLeft"@[8] == 't');
    reveal_strlit("ArrowRight");
    assert("ArrowRight"@.len() == 10);
    assert("ArrowRight"@[0] == 'A');
    reveal_strlit("Escape");
    assert("Escape"@.len() == 6);
    assert("Escape"@[5] == 'e');
    reveal_strlit("Tab");
    assert("Tab"@.len() == 3);
    assert("Tab"@[2] == 'b');
    reveal_strlit("Space");
    assert("Space"@.len() == 5);
    assert("Space"@[0] == 'S');
    assert("Space"@[4] == 'e');
    reveal_strlit("Backspace");
    assert("Backspace"@.len() == 9);
    assert("Backspace"@[4] == 's');
    assert("Backspace"@[8] == 'e');
    reveal_strlit("Enter");
    assert("Enter"@.len() == 5);
    assert("Enter"@[4] == 'r');
    reveal_strlit("ShiftLeft");
    assert("ShiftLeft"@.len() == 9);
    assert("ShiftLeft"@[0] == 'S');
    assert("ShiftLeft"@[8] == 't');
    reveal_strlit("ShiftRight");
    assert("ShiftRight"@.len() == 10);
    assert("ShiftRight"@[0] == 'S');
    reveal_strlit("AltLeft");
    assert("AltLeft"@.len() == 7);
    assert("AltLeft"@[6] == 't');
    reveal_strlit("AltRight");
    assert("AltRight"@.len() == 8);
    assert("AltRight"@[0] == 'A');
    reveal_strlit("MetaLeft");
    assert("MetaLeft"@.len() == 8);
    assert("MetaLeft"@[0] == 'M');
    reveal_strlit("MetaRight");
    assert("MetaRight"@.len() == 9);
    assert("MetaRight"@[0] == 'M');
    assert("MetaRight"@[8] == 't');
    reveal_strlit("ControlLeft");
    assert("ControlLeft"@.len() == 11);
    reveal_strlit("ControlRight");
    assert("ControlRight"@.len() == 12);
}

/// The key that a browser key code names, as [`web_key`] says.
pub fn key_from_web_code(code: &str) -> (r: Option<Key>)
    ensures
        r == web_key(code@),
{
    if str_eq(code, "KeyQ") {
        Some(Key::Q)
    } else if str_eq(code, "KeyW") {
        Some(Key::W)
    } else if str_eq(code, "KeyE") {
        Some(Key::E)
    } else if str_eq(code, "KeyR") {
        Some(Key::R)
    } else if str_eq(code, "KeyT") {
        Some(Key::T)
    } else if str_eq(code, "KeyY") {
        Some(Key::Y)
    } else if str_eq(code, "KeyU") {
        Some(Key::U)
    } else if str_eq(code, "KeyI") {
        Some(Key::I)
    } else if str_eq(code, "KeyO") {
        Some(Key::O)
    } else if str_eq(code, "KeyP") {
        Some(Key::P)
    } else if str_eq(code, "KeyA") {
        Some(Key::A)
    } else if str_eq(code, "KeyS") {
        Some(Key::S)
    } else if str_eq(code, "KeyD") {
        Some(Key::D)
    } else if str_eq(code, "KeyF") {
        Some(Key::F)
    } else if str_eq(code, "KeyG") {
        Some(Key::G)
    } else if str_eq(code, "KeyH") {
        Some(Key::H)
    } else if str_eq(code, "KeyJ") {
        Some(Key::J)
    } else if str_eq(code, "KeyK") {
        Some(Key::K)
    } else if str_eq(code, "KeyL") {
        Some(Key::L)
    } else if str_eq(code, "KeyZ") {
        Some(Key::Z)
    } else if str_eq(code, "KeyX") {
        Some(Key::X)
    } else if str_eq(code, "KeyC") {
        Some(Key::C)
    } else if str_eq(code, "KeyV") {
        Some(Key::V)
    } else if str_eq(code, "KeyB") {
        Some(Key::B)
    } else if str_eq(code, "KeyN") {
        Some(Key::N)
    } else if str_eq(code, "KeyM") {
        Some(Key::M)
    } else if str_eq(code, "Digit1") {
        Some(Key::Key1)
    } else if str_eq(code, "Digit2") {
        Some(Key::Key2)
    } else if str_eq(code, "Digit3") {
        Some(Key::Key3)
    } else if str_eq(code, "Digit4") {
        Some(Key::Key4)
    } else if str_eq(code, "Digit5") {
        Some(Key::Key5)
    } else if str_eq(code, "Digit6") {
        Some(Key::Key6)
    } else if str_eq(code, "Digit7") {
        Some(Key::Key7)
    } else if str_eq(code, "Digit8") {
        Some(Key::Key8)
    } else if str_eq(code, "Digit9") {
        Some(Key::Key9)
    } else if str_eq(code, "Digit0") {
        Some(Key::Key0)
    } else if str_eq(code, "F1") {
        Some(Key::F1)
    } else if str_eq(code, "F2") {
        Some(Key::F2)
    } else if str_eq(code, "F3") {
        Some(Key::F3)
    } else if str_eq(code, "F4") {
        Some(Key::F4)
    } else if str_eq(code, "F5") {
        Some(Key::F5)
    } else if str_eq(code, "F6") {
        Some(Key::F6)
    } else if str_eq(code, "F7") {
        Some(Key::F7)
    } else if str_eq(code, "F8") {
        Some(Key::F8)
    } else if str_eq(code, "F9") {
        Some(Key::F9)
    } else if str_eq(code, "F10") {
        Some(Key::F10)
    } else if str_eq(code, "F11") {
        Some(Key::F11)
    } else if str_eq(code, "F12") {
        Some(Key::F12)
    } else if str_eq(code, "Minus") {
        Some(Key::Minus)
    } else if str_eq(code, "Equal") {
        Some(Key::Equal)
    } else if str_eq(code, "Comma") {
        Some(Key::Comma)
    } else if str_eq(code, "Period") {
        Some(Key::Period)
    } else if str_eq(code, "Backquote") {
        Some(Key::Backquote)
    } else if str_eq(code, "Slash") {
        Some(Key::Slash)
    } else if str_eq(code, "Backslash") {
        Some(Key::Backslash)
    } else if str_eq(code, "Semicolon") {
        Some(Key::Semicolon)
    } else if str_eq(code, "Quote") {
        Some(Key::Quote)
    } else if str_eq(code, "ArrowUp") {
        Some(Key::Up)
    } else if str_eq(code, "ArrowDown") {
        Some(Key::Down)
    } else if str_eq(code, "ArrowLeft") {
        Some(Key::Left)
    } else if str_eq(code, "ArrowRight") {
        Some(Key::Right)
    } else if str_eq(code, "Escape") {
        Some(Key::Esc)
    } else if str_eq(code, "Tab") {
        Some(Key::Tab)
    } else if str_eq(code, "Space") {
        Some(Key::Space)
    } else if str_eq(code, "Backspace") {
        Some(Key::Backspace)
    } else if str_eq(code, "Enter") {
        Some(Key::Enter)
    } else if str_eq(code, "ShiftLeft") {
        Some(Key::LShift)
    } else if str_eq(code, "ShiftRight") {
        Some(Key::RShift)
    } else if str_eq(code, "AltLeft") {
        Some(Key::LAlt)
    } else if str_eq(code, "AltRight") {
        Some(Key::RAlt)
    } else if str_eq(code, "MetaLeft") {
        Some(Key::LMeta)
    } else if str_eq(code, "MetaRight") {
        Some(Key::RMeta)
    } else if str_eq(code, "ControlLeft") {
        Some(Key::LCtrl)
    } else if str_eq(code, "ControlRight") {
        Some(Key::RCtrl)
    } else {
        None
    }
}

/// The character a key event types, from the key's text: its one
/// character when the text is one byte long (a single ASCII character), and
/// none for longer names such as `Enter` or `Shift`.
pub open spec fn web_char(key: Seq<char>) -> Option<char> {
    if key.len() == 1 && (key[0] as u32) < 0x80 {
        Some(key[0])
    } else {
        None
    }
}

/// The character typed by a key event whose key text is `key`, as
/// [`web_char`] says.
pub fn web_char_input(key: &str) -> (r: Option<char>)
    ensures
        r == web_char(key@),
{
    if key.unicode_len() == 1 {
        let c = key.get_char(0);
        if (c as u32) < 0x80 {
            return Some(c);
        }
    }
    None
}

/// The look of the mouse cursor.
#[derive(Clone, Copy, PartialEq, Eq, Structural, Debug)]
pub enum CursorIcon {
    Normal,
    Hand,
    Cross,
    Move,
    Progress,
    Wait,
    Text,
}

/// The CSS cursor name of a cursor look.
pub open spec fn cursor_name(c: CursorIcon) -> Seq<char> {
    match c {
        CursorIcon::Normal => "default"@,
        CursorIcon::Hand => "pointer"@,
        CursorIcon::Cross => "crosshair"@,
        CursorIcon::Move => "move"@,
        CursorIcon::Progress => "progress"@,
        CursorIcon::Wait => "wait"@,
        CursorIcon::Text => "text"@,
    }
}

impl CursorIcon {
    /// The CSS cursor name of this look, as [`cursor_name`] says.
    pub fn to_web(&self) -> (r: &'static str)
        ensures
            r@ == cursor_name(*self),
    {
        match self {
            CursorIcon::Normal => "default",
            CursorIcon::Hand => "pointer",
            CursorIcon::Cross => "crosshair",
            CursorIcon::Move => "move",
            CursorIcon::Progress => "progress",
            CursorIcon::Wait => "wait",
            CursorIcon::Text => "text",
        }
    }
}

/// Different cursor looks have different CSS names, so the browser shows
/// each look as itself.
pub proof fn lemma_cursor_names_distinct(a: CursorIcon, b: CursorIcon)
    ensures
        cursor_name(a) == cursor_name(b) ==> a == b,
{
    // The names are told apart by their lengths, and where two lengths
    // agree, by one character in which they differ.
    reveal_strlit("default");
    assert("default"@.len() == 7);
    assert("default"@[6] == 't');
    reveal_strlit("pointer");
    assert("pointer"@.len() == 7);
    assert("pointer"@[6] == 'r');
    reveal_strlit("crosshair");
    assert("crosshair"@.len() == 9);
    reveal_strlit("move");
    assert("move"@.len() == 4);
    assert("move"@[3] == 'e');
    reveal_strlit("progress");
    assert("progress"@.len() == 8);
    reveal_strlit("wait");
    assert("wait"@.len() == 4);
    assert("wait"@[0] == 'w');
    assert("wait"@[3] == 't');
    reveal_strlit("text");
    assert("text"@.len() == 4);
    assert("text"@[0] == 't');
    assert("text"@[3] == 't');
}

} // verus!
