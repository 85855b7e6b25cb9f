//! The application's reaction to platform events.
//!
//! The platform delivers raw events one at a time; for each, the
//! application updates what it knows of the keys, mouse buttons and
//! gamepads that are down, the scroll phase and the window size, decides
//! whether to stop, and hands the program its own events.

use vstd::prelude::*;
use std::collections::HashMap;
use std::collections::HashSet;

verus! {

broadcast use vstd::std_specs::hash::group_hash_axioms;

/// Where a touch-pad or wheel gesture is.
#[derive(Clone, Copy, PartialEq, Eq, Structural, Debug)]
pub enum TouchPhase {
    Started,
    Moved,
    Ended,
    Cancelled,
}

/// Whether a scroll comes from a finger on the pad or from momentum after
/// it left.
#[derive(Clone, Copy, PartialEq, Eq, Structural, Debug)]
pub enum ScrollPhase {
    Solid,
    Trailing,
}

/// A platform event, reduced to what the application reacts to. Keys,
/// mouse buttons and gamepad buttons are given by their codes, file paths
/// as text.
#[derive(Clone, PartialEq, Eq, Debug)]
pub enum RawEvent {
    /// The user asked to close the window.
    CloseRequested,
    /// The event loop is shutting down.
    LoopDestroyed,
    /// A key went down (`pressed`) or up.
    Keyboard { key: u32, pressed: bool },
    /// A mouse button went down (`pressed`) or up.
    MouseInput { button: u32, pressed: bool },
    /// The wheel or touch pad scrolled, in the given gesture phase.
    Wheel { phase: TouchPhase },
    /// A character was typed.
    ReceivedCharacter(char),
    /// The window took a new size, in logical pixels.
    Resized { width: i32, height: i32 },
    /// The window gained or lost focus.
    Focused(bool),
    /// The cursor entered the window.
    CursorEntered,
    /// The cursor left the window.
    CursorLeft,
    /// A file is dragged over the window.
    HoveredFile(String),
    /// A file dragged over the window was taken away.
    HoveredFileCancelled,
    /// A file was dropped on the window.
    DroppedFile(String),
    /// A gamepad button went down.
    GamepadPressed { id: u32, button: u32 },
    /// A gamepad button repeated while down.
    GamepadRepeated { id: u32, button: u32 },
    /// A gamepad button went up.
    GamepadReleased { id: u32, button: u32 },
    /// A gamepad was connected.
    GamepadConnected(u32),
    /// A gamepad was disconnected.
    GamepadDisconnected(u32),
    /// A frame has been drawn.
    FrameDrawn,
    /// The queue of platform events has been emptied.
    EventsCleared,
    /// Anything else.
    Other,
}

/// An event as the program sees it.
#[derive(Clone, PartialEq, Eq, Debug)]
pub enum Event {
    KeyPress(u32),
    KeyPressRepeat(u32),
    KeyRelease(u32),
    MousePress(u32),
    MouseRelease(u32),
    Scroll(ScrollPhase),
    CharInput(char),
    Resize(i32, i32),
    Focus(bool),
    CursorEnter,
    CursorLeave,
    FileHover(String),
    FileHoverCancel,
    FileDrop(String),
    GamepadPress(u32, u32),
    GamepadPressRepeat(u32, u32),
    GamepadRelease(u32, u32),
    GamepadConnect(u32),
    GamepadDisconnect(u32),
}

/// Whether a character is a control character (general category Cc).
pub open spec fn is_control(c: char) -> bool {
    (c as u32) <= 0x1f || (0x7f <= (c as u32) && (c as u32) <= 0x9f)
}

/// Whether a typed character is handed to the program: it is neither a
/// control character nor one of `invalid`.
pub open spec fn char_accepted(c: char, invalid: Seq<char>) -> bool {
    !invalid.contains(c) && !is_control(c)
}

/// The scroll phase after a gesture in phase `t`.
pub open spec fn next_scroll_phase(cur: ScrollPhase, t: TouchPhase) -> ScrollPhase {
    match t {
        TouchPhase::Started => ScrollPhase::Solid,
        TouchPhase::Ended => ScrollPhase::Trailing,
        _ => cur,
    }
}

/// What the application knows of the input devices and the window.
pub struct AppInput {
    pressed_keys: HashSet<u32>,
    pressed_mouse: HashSet<u32>,
    pressed_gamepad_buttons: HashMap<u32, HashSet<u32>>,
    scroll_phase: ScrollPhase,
    width: i32,
    height: i32,
    invalid_chars: Vec<char>,
    quit: bool,
    exit: bool,
    update: bool,
}

impl AppInput {
    /// The keys down.
    pub closed spec fn keys(&self) -> Set<u32> {
        self.pressed_keys@
    }

    /// The mouse buttons down.
    pub closed spec fn mouse(&self) -> Set<u32> {
        self.pressed_mouse@
    }

    /// The buttons down on each gamepad seen.
    pub closed spec fn pads(&self) -> Map<u32, Set<u32>> {
        self.pressed_gamepad_buttons@.map_values(|s: HashSet<u32>| s@)
    }

    /// The phase of the last scroll.
    pub closed spec fn phase(&self) -> ScrollPhase {
        self.scroll_phase
    }

    /// The window size in logical pixels.
    pub closed spec fn dims(&self) -> (i32, i32) {
        (self.width, self.height)
    }

    /// The typed characters that are never handed on.
    pub closed spec fn rejected_chars(&self) -> Seq<char> {
        self.invalid_chars@
    }

    /// Whether the program asked to quit.
    pub closed spec fn quit_asked(&self) -> bool {
        self.quit
    }

    /// Whether the event loop is to stop.
    pub closed spec fn exiting(&self) -> bool {
        self.exit
    }

    /// Whether a redraw is due after the current batch of events.
    pub closed spec fn redraw_due(&self) -> bool {
        self.update
    }

    /// The state of a window just opened at the given size: nothing down,
    /// solid scrolling, no quit asked. `invalid_chars` are typed characters
    /// never handed to the program.
    pub fn new(width: i32, height: i32, invalid_chars: Vec<char>) -> (r: Self)
        ensures
            r.keys() == Set::<u32>::empty(),
            r.mouse() == Set::<u32>::empty(),
            r.pads() == Map::<u32, Set<u32>>::empty(),
            r.phase() == ScrollPhase::Solid,
            r.dims() == (width, height),
            r.rejected_chars() == invalid_chars@,
            !r.quit_asked(),
            !r.exiting(),
            !r.redraw_due(),
    {
        let r = AppInput {
            pressed_keys: HashSet::new(),
            pressed_mouse: HashSet::new(),
            pressed_gamepad_buttons: HashMap::new(),
            scroll_phase: ScrollPhase::Solid,
            width: width,
            height: height,
            invalid_chars: invalid_chars,
            quit: false,
            exit: false,
            update: false,
        };
        assert(r.pads() =~= Map::<u32, Set<u32>>::empty());
        r
    }

    /// Whether key `k` is down.
    pub fn key_down(&self, k: u32) -> (r: bool)
        ensures
            r == self.keys().contains(k),
    {
        self.pressed_keys.contains(&k)
    }

    /// Whether mouse button `b` is down.
    pub fn mouse_down(&self, b: u32) -> (r: bool)
        ensures
            r == self.mouse().contains(b),
    {
        self.pressed_mouse.contains(&b)
    }

    /// Whether button `b` of gamepad `id` is down.
    pub fn gamepad_down(&self, id: u32, b: u32) -> (r: bool)
        ensures
            r == (self.pads().contains_key(id) && self.pads()[id].contains(b)),
    {
        match self.pressed_gamepad_buttons.get(&id) {
            Some(s) => s.contains(&b),
            None => false,
        }
    }

    /// The window size.
    pub fn size(&self) -> (r: (i32, i32))
        ensures
            r == self.dims(),
    {
        (self.width, self.height)
    }

    /// Asks the event loop to stop after the current frame.
    pub fn quit(&mut self)
        ensures
            final(self).quit_asked(),
            final(self).keys() == old(self).keys(),
            final(self).mouse() == old(self).mouse(),
            final(self).pads() == old(self).pads(),
            final(self).phase() == old(self).phase(),
            final(self).dims() == old(self).dims(),
            final(self).rejected_chars() == old(self).rejected_chars(),
            final(self).exiting() == old(self).exiting(),
            final(self).redraw_due() == old(self).redraw_due(),
    {
        self.quit = true;
    }

    /// Whether the event loop is to stop.
    pub fn should_exit(&self) -> (r: bool)
        ensures
            r == self.exiting(),
    {
        self.exit
    }

    /// Whether a redraw is due after the current batch of events.
    pub fn wants_redraw(&self) -> (r: bool)
        ensures
            r == self.redraw_due(),
    {
        self.update
    }

    /// Adds `button` to the buttons down on gamepad `id`, or takes it out.
    fn set_pad_button(&mut self, id: u32, button: u32, down: bool)
        ensures
            final(self).pads() == old(self).pads().insert(id, pad_set(old(self).pads(), id, button, down)),
            final(self).keys() == old(self).keys(),
            final(self).mouse() == old(self).mouse(),
            final(self).phase() == old(self).phase(),
            final(self).dims() == old(self).dims(),
            final(self).rejected_chars() == old(self).rejected_chars(),
            final(self).quit_asked() == old(self).quit_asked(),
            final(self).exiting() == old(self).exiting(),
            final(self).redraw_due() == old(self).redraw_due(),
    {
        let mut set = match self.pressed_gamepad_buttons.remove(&id) {
            Some(s) => s,
            None => HashSet::new(),
        };
        if down {
            set.insert(button);
        } else {
            set.remove(&button);
        }
        self.pressed_gamepad_buttons.insert(id, set);
        proof {
            assert(self.pads() =~= old(self).pads().insert(id, pad_set(old(self).pads(), id, button, down)));
        }
    }

    /// Handles one raw event: updates the state as [`state_after`] says and
    /// returns the program's events for it, as [`events_for`] says.
    pub fn handle(&mut self, e: RawEvent) -> (out: Vec<Event>)
        ensures
            out@ == events_for(old(self).keys(), old(self).phase(), old(self).rejected_chars(), e),
            final(self).keys() == keys_after(old(self).keys(), e),
            final(self).mouse() == mouse_after(old(self).mouse(), e),
            final(self).pads() == pads_after(old(self).pads(), e),
            final(self).phase() == next_phase(old(self).phase(), e),
            final(self).dims() == dims_after(old(self).dims(), e),
            final(self).rejected_chars() == old(self).rejected_chars(),
            final(self).quit_asked() == old(self).quit_asked(),
            final(self).exiting() == exit_after(old(self).exiting(), old(self).quit_asked(), e),
            final(self).redraw_due() == (if e is EventsCleared {
                !old(self).redraw_due()
            } else {
                old(self).redraw_due()
            }),
    {
        let mut out: Vec<Event> = Vec::new();
        match e {
            RawEvent::CloseRequested => {
                self.exit = true;
            },
            RawEvent::LoopDestroyed => {
                self.exit = true;
            },
            RawEvent::Keyboard { key, pressed } => {
                if pressed {
                    out.push(Event::KeyPressRepeat(key));
                    if !self.pressed_keys.contains(&key) {
                        out.push(Event::KeyPress(key));
                    }
                    self.pressed_keys.insert(key);
                } else {
                    self.pressed_keys.remove(&key);
                    out.push(Event::KeyRelease(key));
                }
            },
            RawEvent::MouseInput { button, pressed } => {
                if pressed {
                    self.pressed_mouse.insert(button);
                    out.push(Event::MousePress(button));
                } else {
                    self.pressed_mouse.remove(&button);
                    out.push(Event::MouseRelease(button));
                }
            },
            RawEvent::Wheel { phase } => {
                match phase {
                    TouchPhase::Started => {
                        self.scroll_phase = ScrollPhase::Solid;
                    },
                    TouchPhase::Ended => {
                        self.scroll_phase = ScrollPhase::Trailing;
                    },
                    _ => {},
                }
                out.push(Event::Scroll(self.scroll_phase));
            },
            RawEvent::ReceivedCharacter(ch) => {
                if !contains_char(&self.invalid_chars, ch) && !is_control_char(ch) {
                    out.push(Event::CharInput(ch));
                }
            },
            RawEvent::Resized { width, height } => {
                self.width = width;
                self.height = height;
                out.push(Event::Resize(width, height));
            },
            RawEvent::Focused(b) => {
                out.push(Event::Focus(b));
            },
            RawEvent::CursorEntered => {
                out.push(Event::CursorEnter);
            },
            RawEvent::CursorLeft => {
                out.push(Event::CursorLeave);
            },
            RawEvent::HoveredFile(path) => {
                out.push(Event::FileHover(path));
            },
            RawEvent::HoveredFileCancelled => {
                out.push(Event::FileHoverCancel);
            },
            RawEvent::DroppedFile(path) => {
                out.push(Event::FileDrop(path));
            },
            RawEvent::GamepadPressed { id, button } => {
                self.set_pad_button(id, button, true);
                out.push(Event::GamepadPress(id, button));
            },
            RawEvent::GamepadRepeated { id, button } => {
                out.push(Event::GamepadPressRepeat(id, button));
            },
            RawEvent::GamepadReleased { id, button } => {
                self.set_pad_button(id, button, false);
                out.push(Event::GamepadRelease(id, button));
            },
            RawEvent::GamepadConnected(id) => {
                out.push(Event::GamepadConnect(id));
            },
            RawEvent::GamepadDisconnected(id) => {
                out.push(Event::GamepadDisconnect(id));
            },
            RawEvent::FrameDrawn => {
                if self.quit {
                    self.exit = true;
                }
            },
            RawEvent::EventsCleared => {
                self.update = !self.update;
            },
            RawEvent::Other => {},
        }
        out
    }
}

/// The buttons down on gamepad `id` after `button` goes down (`down`) or
/// up; a gamepad not seen before starts with none.
pub open spec fn pad_set(pads: Map<u32, Set<u32>>, id: u32, button: u32, down: bool) -> Set<u32> {
    let cur = if pads.contains_key(id) {
        pads[id]
    } else {
        Set::empty()
    };
    if down {
        cur.insert(button)
    } else {
        cur.remove(button)
    }
}

/// The program's events for a raw event, given the keys down before it,
/// the scroll phase and the rejected characters.
pub open spec fn events_for(keys: Set<u32>, phase: ScrollPhase, invalid: Seq<char>, e: RawEvent) -> Seq<Event> {
    match e {
        RawEvent::Keyboard { key, pressed } => if pressed {
            if keys.contains(key) {
                seq![Event::KeyPressRepeat(key)]
            } else {
                seq![Event::KeyPressRepeat(key), Event::KeyPress(key)]
            }
        } else {
            seq![Event::KeyRelease(key)]
        },
        RawEvent::MouseInput { button, pressed } => if pressed {
            seq![Event::MousePress(button)]
        } else {
            seq![Event::MouseRelease(button)]
        },
        RawEvent::Wheel { phase: t } => seq![Event::Scroll(next_scroll_phase(phase, t))],
        RawEvent::ReceivedCharacter(c) => if char_accepted(c, invalid) {
            seq![Event::CharInput(c)]
        } else {
            Seq::empty()
        },
        RawEvent::Resized { width, height } => seq![Event::Resize(width, height)],
        RawEvent::Focused(b) => seq![Event::Focus(b)],
        RawEvent::CursorEntered => seq![Event::CursorEnter],
        RawEvent::CursorLeft => seq![Event::CursorLeave],
        RawEvent::HoveredFile(p) => seq![Event::FileHover(p)],
        RawEvent::HoveredFileCancelled => seq![Event::FileHoverCancel],
        RawEvent::DroppedFile(p) => seq![Event::FileDrop(p)],
        RawEvent::GamepadPressed { id, button } => seq![Event::GamepadPress(id, button)],
        RawEvent::GamepadRepeated { id, button } => seq![Event::GamepadPressRepeat(id, button)],
        RawEvent::GamepadReleased { id, button } => seq![Event::GamepadRelease(id, button)],
        RawEvent::GamepadConnected(id) => seq![Event::GamepadConnect(id)],
        RawEvent::GamepadDisconnected(id) => seq![Event::GamepadDisconnect(id)],
        _ => Seq::empty(),
    }
}

/// The keys down after a raw event.
pub open spec fn keys_after(keys: Set<u32>, e: RawEvent) -> Set<u32> {
    match e {
        RawEvent::Keyboard { key, pressed } => if pressed {
            keys.insert(key)
        } else {
            keys.remove(key)
        },
        _ => keys,
    }
}

/// The mouse buttons down after a raw event.
pub open spec fn mouse_after(mouse: Set<u32>, e: RawEvent) -> Set<u32> {
    match e {
        RawEvent::MouseInput { button, pressed } => if pressed {
            mouse.insert(button)
        } else {
            mouse.remove(button)
        },
        _ => mouse,
    }
}

/// The gamepad buttons down after a raw event.
pub open spec fn pads_after(pads: Map<u32, Set<u32>>, e: RawEvent) -> Map<u32, Set<u32>> {
    match e {
        RawEvent::GamepadPressed { id, button } => pads.insert(id, pad_set(pads, id, button, true)),
        RawEvent::GamepadReleased { id, button } => pads.insert(id, pad_set(pads, id, button, false)),
        _ => pads,
    }
}

/// The scroll phase after a raw event.
pub open spec fn next_phase(phase: ScrollPhase, e: RawEvent) -> ScrollPhase {
    match e {
        RawEvent::Wheel { phase: t } => next_scroll_phase(phase, t),
        _ => phase,
    }
}

/// The window size after a raw event.
pub open spec fn dims_after(dims: (i32, i32), e: RawEvent) -> (i32, i32) {
    match e {
        RawEvent::Resized { width, height } => (width, height),
        _ => dims,
    }
}

/// Whether the loop is to stop after a raw event: on a close request, on
/// shutdown, and after a frame once the program asked to quit.
pub open spec fn exit_after(exit: bool, quit: bool, e: RawEvent) -> bool {
    match e {
        RawEvent::CloseRequested => true,
        RawEvent::LoopDestroyed => true,
        RawEvent::FrameDrawn => exit || quit,
        _ => exit,
    }
}

/// A key press is reported once: pressing a key that is already down
/// gives only a repeat, and after it is let go the next press is reported
/// again.
pub proof fn lemma_key_press_once(keys: Set<u32>, phase: ScrollPhase, invalid: Seq<char>, key: u32)
    ensures
        events_for(keys.insert(key), phase, invalid, RawEvent::Keyboard { key, pressed: true })
            == seq![Event::KeyPressRepeat(key)],
        events_for(
            keys_after(keys.insert(key), RawEvent::Keyboard { key, pressed: false }),
            phase,
            invalid,
            RawEvent::Keyboard { key, pressed: true },
        ) == seq![Event::KeyPressRepeat(key), Event::KeyPress(key)],
        keys_after(keys, RawEvent::Keyboard { key, pressed: true }).contains(key),
{
    assert(!keys.insert(key).remove(key).contains(key));
}

/// A key event touches only its own key: after a press the key is down,
/// after a release it is up, and every other key stays down or up as it
/// was; an event that is not a key event leaves every key as it was.
pub proof fn lemma_key_event_touches_only_its_key(keys: Set<u32>, e: RawEvent, k: u32)
    ensures
        e matches RawEvent::Keyboard { key, pressed } ==> {
            &&& keys_after(keys, e).contains(key) == pressed
            &&& k != key ==> keys_after(keys, e).contains(k) == keys.contains(k)
        },
        !(e is Keyboard) ==> keys_after(keys, e).contains(k) == keys.contains(k),
{
}

/// The program hears of a key event only about that key: a press gives a
/// repeat, and a press as well exactly when the key was up; a release gives
/// a release and nothing else.
pub proof fn lemma_key_events_name_their_key(keys: Set<u32>, phase: ScrollPhase, invalid: Seq<char>, key: u32, pressed: bool)
    ensures
        ({
            let out = events_for(keys, phase, invalid, RawEvent::Keyboard { key, pressed });
            &&& forall|i: int| 0 <= i < out.len() ==> (#[trigger] out[i] == Event::KeyPressRepeat(key)
                || out[i] == Event::KeyPress(key) || out[i] == Event::KeyRelease(key))
            &&& out.contains(Event::KeyPress(key)) <==> pressed && !keys.contains(key)
            &&& out.contains(Event::KeyPressRepeat(key)) <==> pressed
            &&& out.contains(Event::KeyRelease(key)) <==> !pressed
            &&& out.len() >= 1
        }),
{
    let out = events_for(keys, phase, invalid, RawEvent::Keyboard { key, pressed });
    if pressed {
        assert(out[0] == Event::KeyPressRepeat(key));
        if !keys.contains(key) {
            assert(out[1] == Event::KeyPress(key));
        }
    } else {
        assert(out[0] == Event::KeyRelease(key));
    }
}

/// A mouse button event touches only its own button: after a press the
/// button is down, after a release it is up, and every other button stays
/// as it was; any other event leaves the buttons as they were.
pub proof fn lemma_mouse_event_touches_only_its_button(mouse: Set<u32>, e: RawEvent, b: u32)
    ensures
        e matches RawEvent::MouseInput { button, pressed } ==> {
            &&& mouse_after(mouse, e).contains(button) == pressed
            &&& b != button ==> mouse_after(mouse, e).contains(b) == mouse.contains(b)
        },
        !(e is MouseInput) ==> mouse_after(mouse, e).contains(b) == mouse.contains(b),
{
}

/// A gamepad button event touches only that button of that gamepad: it is
/// down after a press and up after a release; every other button of that
/// gamepad, and every other gamepad already seen, stays as it was.
pub proof fn lemma_pad_event_touches_only_its_button(pads: Map<u32, Set<u32>>, id: u32, button: u32, down: bool, other_id: u32, b: u32)
    ensures
        ({
            let e = if down {
                RawEvent::GamepadPressed { id, button }
            } else {
                RawEvent::GamepadReleased { id, button }
            };
            &&& pads_after(pads, e).contains_key(id)
            &&& pads_after(pads, e)[id].contains(button) == down
            &&& b != button ==> pads_after(pads, e)[id].contains(b) == (pads.contains_key(id) && pads[id].contains(b))
            &&& other_id != id && pads.contains_key(other_id) ==> pads_after(pads, e).contains_key(other_id)
                && pads_after(pads, e)[other_id] == pads[other_id]
        }),
{
}

/// Whether `c` occurs in `chars`.
pub fn contains_char(chars: &Vec<char>, c: char) -> (r: bool)
    ensures
        r == chars@.contains(c),
{
    let mut i: usize = 0;
    while i < chars.len()
        invariant
            i <= chars@.len(),
            forall|j: int| 0 <= j < i ==> chars@[j] != c,
        decreases chars@.len() - i,
    {
        if chars[i] == c {
            return true;
        }
        i = i + 1;
    }
    false
}

/// Whether `c` is a control character (general category Cc).
pub fn is_control_char(c: char) -> (r: bool)
    ensures
        r == is_control(c),
{
    let n = c as u32;
    n <= 0x1f || (0x7f <= n && n <= 0x9f)
}

} // verus!
