//! Per-frame state of keys and buttons.
//!
//! Each tracked button is in one of four states. Once a frame the states
//! advance: a button pressed last frame is now held, one released last
//! frame is now up, and a held button that is no longer down is released.
//! A button that goes down while untracked or up becomes pressed.

use vstd::prelude::*;
use std::collections::HashMap;
use vstd::std_specs::iter::IteratorSpec;

verus! {

broadcast use vstd::std_specs::hash::group_hash_axioms;

/// The state of one key or button in the current frame.
#[derive(Clone, Copy, PartialEq, Eq, Structural, Debug)]
pub enum ButtonState {
    Up,
    Pressed,
    Down,
    Released,
}

/// The state a button takes in the next frame, given whether it is still
/// physically down.
pub open spec fn next_state(s: ButtonState, held: bool) -> ButtonState {
    match s {
        ButtonState::Pressed => ButtonState::Down,
        ButtonState::Released => ButtonState::Up,
        ButtonState::Down => if held {
            ButtonState::Down
        } else {
            ButtonState::Released
        },
        ButtonState::Up => ButtonState::Up,
    }
}

/// The state of a code among the tracked buttons; `None` when untracked.
pub open spec fn state_of(states: Map<u32, ButtonState>, code: u32) -> Option<ButtonState> {
    if states.dom().contains(code) {
        Some(states[code])
    } else {
        None
    }
}

/// The tracked buttons after a frame advance, where `held` holds the codes
/// that are physically down: every button steps by [`next_state`] and the
/// set of tracked codes stays.
pub open spec fn advanced(states: Map<u32, ButtonState>, held: Seq<u32>) -> Map<u32, ButtonState> {
    Map::new(|c: u32| states.dom().contains(c), |c: u32| next_state(states[c], held.contains(c)))
}

/// The tracked buttons after `code` goes down: an untracked or up button
/// becomes pressed, any other keeps its state.
pub open spec fn pressed(states: Map<u32, ButtonState>, code: u32) -> Map<u32, ButtonState> {
    if !states.dom().contains(code) || states[code] == ButtonState::Up {
        states.insert(code, ButtonState::Pressed)
    } else {
        states
    }
}

/// The tracked buttons after each code of `codes` goes down, in order.
pub open spec fn pressed_all(states: Map<u32, ButtonState>, codes: Seq<u32>) -> Map<u32, ButtonState>
    decreases codes.len(),
{
    if codes.len() == 0 {
        states
    } else {
        pressed(pressed_all(states, codes.drop_last()), codes.last())
    }
}

/// What one frame does to the state of a single code: it advances by
/// [`next_state`], then becomes pressed if it is down and was untracked or
/// up.
pub open spec fn frame_step(s: Option<ButtonState>, held: bool) -> Option<ButtonState> {
    let a = match s {
        Some(b) => Some(next_state(b, held)),
        None => None,
    };
    if held && (a is None || a == Some(ButtonState::Up)) {
        Some(ButtonState::Pressed)
    } else {
        a
    }
}

/// Advancing keeps every code tracked and steps its state.
pub proof fn lemma_advanced_state(states: Map<u32, ButtonState>, held: Seq<u32>, code: u32)
    ensures
        advanced(states, held).dom() == states.dom(),
        state_of(advanced(states, held), code) == match state_of(states, code) {
            Some(b) => Some(next_state(b, held.contains(code))),
            None => None,
        },
{
    assert(advanced(states, held).dom() =~= states.dom());
}

/// Pressing a list of codes leaves a code in the list that was untracked or
/// up pressed, and every other code as it was.
pub proof fn lemma_pressed_all_state(states: Map<u32, ButtonState>, codes: Seq<u32>, code: u32)
    ensures
        state_of(pressed_all(states, codes), code) == if codes.contains(code) && (state_of(states, code) is None
            || state_of(states, code) == Some(ButtonState::Up)) {
            Some(ButtonState::Pressed)
        } else {
            state_of(states, code)
        },
    decreases codes.len(),
{
    if codes.len() > 0 {
        let init = codes.drop_last();
        lemma_pressed_all_state(states, init, code);
        if codes.contains(code) && !init.contains(code) {
            let k = choose|k: int| 0 <= k < codes.len() && codes[k] == code;
            if k < init.len() {
                assert(init[k] == code);
            }
        }
        if init.contains(code) {
            let k = choose|k: int| 0 <= k < init.len() && init[k] == code;
            assert(codes[k] == code);
        }
        if codes.last() == code {
            assert(codes[codes.len() - 1] == code);
        }
    }
}

/// One frame of tracking, as `advance` then `press_all` with the same list
/// of codes that are down, moves every code by [`frame_step`].
pub proof fn lemma_frame(states: Map<u32, ButtonState>, held: Seq<u32>, code: u32)
    ensures
        state_of(pressed_all(advanced(states, held), held), code) == frame_step(state_of(states, code), held.contains(code)),
{
    lemma_advanced_state(states, held, code);
    lemma_pressed_all_state(advanced(states, held), held, code);
}

/// A button held from up reads as pressed for one frame, then as down while
/// it stays held; let go, it reads as released for one frame, then as up.
pub proof fn lemma_press_lifecycle()
    ensures
        frame_step(None, true) == Some(ButtonState::Pressed),
        frame_step(Some(ButtonState::Up), true) == Some(ButtonState::Pressed),
        frame_step(Some(ButtonState::Pressed), true) == Some(ButtonState::Down),
        frame_step(Some(ButtonState::Down), true) == Some(ButtonState::Down),
        frame_step(Some(ButtonState::Down), false) == Some(ButtonState::Released),
        frame_step(Some(ButtonState::Released), false) == Some(ButtonState::Up),
        frame_step(Some(ButtonState::Up), false) == Some(ButtonState::Up),
        frame_step(None, false) == None::<ButtonState>,
{
}

/// The state of one code after a run of frames, where `held` says for each
/// frame whether the button is physically down.
pub open spec fn run_frames(s: Option<ButtonState>, held: Seq<bool>) -> Option<ButtonState>
    decreases held.len(),
{
    if held.len() == 0 {
        s
    } else {
        frame_step(run_frames(s, held.drop_last()), held.last())
    }
}

/// A button held for frames `1..=n` and let go from frame `n + 1` on: its
/// state after frame `f`.
pub open spec fn press_phase(f: int, n: int) -> ButtonState {
    if f == 1 {
        ButtonState::Pressed
    } else if f <= n {
        ButtonState::Down
    } else if f == n + 1 {
        ButtonState::Released
    } else {
        ButtonState::Up
    }
}

/// Held for the first `n` frames, then let go for `m` frames.
pub open spec fn held_then_released(n: nat, m: nat) -> Seq<bool> {
    Seq::new(n + m, |i: int| i < n)
}

/// A button that is up (or never seen), then held for `n` frames (two or
/// more), then let go for `m` frames, reads as pressed in the first frame,
/// down in the others it is held, released in the first frame after, and up
/// from then on.
pub proof fn lemma_press_hold_release(s: Option<ButtonState>, n: nat, m: nat, f: int)
    requires
        s is None || s == Some(ButtonState::Up),
        n >= 2,
        1 <= f <= n + m,
    ensures
        run_frames(s, held_then_released(n, m).take(f)) == Some(press_phase(f, n as int)),
    decreases f,
{
    let h = held_then_released(n, m);
    assert(h.take(f).drop_last() =~= h.take(f - 1));
    assert(h.take(f).last() == h[f - 1]);
    assert(run_frames(s, h.take(f)) == frame_step(run_frames(s, h.take(f - 1)), h[f - 1]));
    if f == 1 {
        assert(h.take(0) =~= Seq::<bool>::empty());
        assert(h[0] == true);
    } else {
        lemma_press_hold_release(s, n, m, f - 1);
        if f <= n {
            assert(h[f - 1] == true);
        } else {
            assert(h[f - 1] == false);
        }
    }
}

/// Whether a state is one of a button that is down: pressed this frame or
/// held from before.
pub open spec fn is_held(s: Option<ButtonState>) -> bool {
    s == Some(ButtonState::Pressed) || s == Some(ButtonState::Down)
}

/// The states of the keys or buttons seen so far, by code.
pub struct ButtonStates {
    states: HashMap<u32, ButtonState>,
}

impl View for ButtonStates {
    type V = Map<u32, ButtonState>;

    closed spec fn view(&self) -> Self::V {
        self.states@
    }
}

impl ButtonStates {
    /// Well-formedness: finitely many codes are tracked.
    pub open spec fn wf(&self) -> bool {
        self@.dom().finite()
    }

    /// The state of `code`; `None` when it was never seen.
    pub open spec fn state(&self, code: u32) -> Option<ButtonState> {
        state_of(self@, code)
    }

    /// No button tracked yet.
    pub fn new() -> (r: Self)
        ensures
            r@ == Map::<u32, ButtonState>::empty(),
            r.wf(),
    {
        ButtonStates { states: HashMap::new() }
    }

    /// The tracked codes, each once, in no particular order.
    fn codes(&self) -> (r: Vec<u32>)
        ensures
            r@.to_set() == self@.dom(),
            r@.no_duplicates(),
    {
        let mut r: Vec<u32> = Vec::new();
        let ghost ks: Seq<u32> = vstd::std_specs::hash::spec_keys_iter(&self.states).remaining().unref();
        for k in it: self.states.keys()
            invariant
                ks == it.seq().unref(),
                r@ == ks.take(it.index() as int),
        {
            proof {
                assert(ks.take(it.index() + 1) =~= ks.take(it.index() as int).push(*k));
            }
            r.push(*k);
        }
        assert(r@ =~= ks);
        r
    }

    /// Advances every tracked button by one frame; `held` lists the codes
    /// that are physically down now.
    pub fn advance(&mut self, held: &[u32])
        requires
            old(self).wf(),
        ensures
            final(self).wf(),
            final(self)@ == advanced(old(self)@, held@),
    {
        let ghost start = self@;
        let codes = self.codes();
        let mut i: usize = 0;
        while i < codes.len()
            invariant
                i <= codes@.len(),
                codes@.to_set() == start.dom(),
                codes@.no_duplicates(),
                self@.dom() == start.dom(),
                forall|j: int| 0 <= j < i ==> #[trigger] self@[codes@[j]] == next_state(start[codes@[j]], held@.contains(codes@[j])),
                forall|c: u32| start.dom().contains(c) && !codes@.take(i as int).contains(c) ==> #[trigger] self@[c] == start[c],
            decreases codes@.len() - i,
        {
            let c = codes[i];
            proof {
                assert(codes@.to_set().contains(c));
                assert(!codes@.take(i as int).contains(c)) by {
                    if codes@.take(i as int).contains(c) {
                        let j = choose|j: int| 0 <= j < i && codes@.take(i as int)[j] == c;
                        assert(codes@[j] == codes@[i as int]);
                    }
                }
            }
            let s = match self.states.get(&c) {
                Some(s) => *s,
                None => ButtonState::Up,
            };
            let next = match s {
                ButtonState::Pressed => ButtonState::Down,
                ButtonState::Released => ButtonState::Up,
                ButtonState::Down => if contains_code(held, c) {
                    ButtonState::Down
                } else {
                    ButtonState::Released
                },
                ButtonState::Up => ButtonState::Up,
            };
            let ghost before = self@;
            self.states.insert(c, next);
            proof {
                assert(self@.dom() =~= start.dom());
                assert forall|j: int| 0 <= j < i + 1 implies #[trigger] self@[codes@[j]] == next_state(start[codes@[j]], held@.contains(codes@[j])) by {
                    if j < i {
                        assert(codes@[j] != c);
                    }
                }
                assert forall|d: u32| start.dom().contains(d) && !codes@.take(i + 1).contains(d) implies #[trigger] self@[d] == start[d] by {
                    assert(codes@.take(i + 1)[i as int] == c);
                    if d != c {
                        assert(!codes@.take(i as int).contains(d)) by {
                            if codes@.take(i as int).contains(d) {
                                let j = choose|j: int| 0 <= j < i && codes@.take(i as int)[j] == d;
                                assert(codes@.take(i + 1)[j] == d);
                            }
                        }
                    }
                }
            }
            i = i + 1;
        }
        proof {
            assert forall|c: u32| #[trigger] self@.dom().contains(c) implies self@[c] == advanced(start, held@)[c] by {
                assert(codes@.to_set().contains(c));
                let j = choose|j: int| 0 <= j < codes@.len() && codes@[j] == c;
                assert(self@[codes@[j]] == next_state(start[codes@[j]], held@.contains(codes@[j])));
            }
            assert(self@ =~= advanced(start, held@));
        }
    }

    /// Marks `code` as just pressed unless it is already pressed, held or
    /// released this frame.
    pub fn press(&mut self, code: u32)
        requires
            old(self).wf(),
        ensures
            final(self).wf(),
            final(self)@ == pressed(old(self)@, code),
    {
        let up = match self.states.get(&code) {
            None => true,
            Some(s) => *s == ButtonState::Up,
        };
        if up {
            self.states.insert(code, ButtonState::Pressed);
        }
    }

    /// Marks each of `codes` as pressed, in order, as [`ButtonStates::press`] does.
    pub fn press_all(&mut self, codes: &[u32])
        requires
            old(self).wf(),
        ensures
            final(self).wf(),
            final(self)@ == pressed_all(old(self)@, codes@),
    {
        let ghost start = self@;
        let mut i: usize = 0;
        while i < codes.len()
            invariant
                i <= codes@.len(),
                self.wf(),
                self@ == pressed_all(start, codes@.take(i as int)),
            decreases codes@.len() - i,
        {
            proof {
                assert(codes@.take(i + 1).drop_last() =~= codes@.take(i as int));
            }
            self.press(codes[i]);
            i = i + 1;
        }
        proof {
            assert(codes@.take(codes@.len() as int) =~= codes@);
        }
    }

    /// Whether `code` is tracked and in state `s`.
    pub fn check(&self, code: u32, s: ButtonState) -> (r: bool)
        requires
            self.wf(),
        ensures
            r == (self.state(code) == Some(s)),
    {
        match self.states.get(&code) {
            Some(t) => *t == s,
            None => false,
        }
    }

    /// The codes that are down, each once: those that went down this frame
    /// and those held from before.
    pub fn held_codes(&self) -> (r: Vec<u32>)
        requires
            self.wf(),
        ensures
            forall|c: u32| r@.contains(c) <==> is_held(self.state(c)),
            r@.no_duplicates(),
    {
        let codes = self.codes();
        let mut r: Vec<u32> = Vec::new();
        let mut i: usize = 0;
        while i < codes.len()
            invariant
                i <= codes@.len(),
                codes@.to_set() == self@.dom(),
                codes@.no_duplicates(),
                r@.no_duplicates(),
                forall|c: u32| r@.contains(c) <==> (codes@.take(i as int).contains(c) && is_held(state_of(self@, c))),
            decreases codes@.len() - i,
        {
            let c = codes[i];
            let t = self.states.get(&c);
            let keep = match t {
                Some(s) => *s == ButtonState::Pressed || *s == ButtonState::Down,
                None => false,
            };
            proof {
                assert(codes@.to_set().contains(c));
                assert(keep == is_held(state_of(self@, c)));
                assert(!codes@.take(i as int).contains(c)) by {
                    if codes@.take(i as int).contains(c) {
                        let j = choose|j: int| 0 <= j < i && codes@.take(i as int)[j] == c;
                        assert(codes@[j] == codes@[i as int]);
                    }
                }
                let t0 = codes@.take(i as int);
                let t1 = codes@.take(i + 1);
                assert forall|d: u32| t1.contains(d) <==> (t0.contains(d) || d == c) by {
                    if t1.contains(d) {
                        let j = choose|j: int| 0 <= j < t1.len() && t1[j] == d;
                        if j < i {
                            assert(t0[j] == d);
                        }
                    }
                    if t0.contains(d) {
                        let j = choose|j: int| 0 <= j < t0.len() && t0[j] == d;
                        assert(t1[j] == d);
                    }
                    if d == c {
                        assert(t1[i as int] == d);
                    }
                }
            }
            let ghost prev = r@;
            if keep {
                r.push(c);
                proof {
                    assert(!prev.contains(c));
                    assert forall|a: int, b: int| 0 <= a < r@.len() && 0 <= b < r@.len() && a != b implies r@[a] != r@[b] by {
                        if a == prev.len() {
                            assert(prev[b] == r@[b]);
                        } else if b == prev.len() {
                            assert(prev[a] == r@[a]);
                        }
                    }
                    assert forall|d: u32| r@.contains(d) <==> prev.contains(d) || d == c by {
                        if r@.contains(d) {
                            let k = choose|k: int| 0 <= k < r@.len() && r@[k] == d;
                            if k < prev.len() {
                                assert(prev[k] == d);
                            }
                        }
                        if prev.contains(d) {
                            let k = choose|k: int| 0 <= k < prev.len() && prev[k] == d;
                            assert(r@[k] == d);
                        }
                        if d == c {
                            assert(r@[prev.len() as int] == d);
                        }
                    }
                }
            }
            proof {
                assert forall|d: u32| r@.contains(d) <==> (codes@.take(i + 1).contains(d) && is_held(state_of(self@, d))) by {
                    assert(codes@.take(i + 1).contains(d) <==> (codes@.take(i as int).contains(d) || d == c));
                    assert(prev.contains(d) <==> (codes@.take(i as int).contains(d) && is_held(state_of(self@, d))));
                    if keep {
                        assert(r@.contains(d) <==> prev.contains(d) || d == c);
                    } else {
                        assert(r@ == prev);
                    }
                }
            }
            i = i + 1;
        }
        proof {
            assert(codes@.take(codes@.len() as int) =~= codes@);
            assert forall|c: u32| r@.contains(c) <==> is_held(self.state(c)) by {
                if is_held(self.state(c)) {
                    assert(self@.dom().contains(c));
                    assert(codes@.to_set().contains(c));
                }
            }
        }
        r
    }
}

/// Whether `code` occurs in `codes`.
pub fn contains_code(codes: &[u32], code: u32) -> (r: bool)
    ensures
        r == codes@.contains(code),
{
    let mut i: usize = 0;
    while i < codes.len()
        invariant
            i <= codes@.len(),
            forall|j: int| 0 <= j < i ==> codes@[j] != code,
        decreases codes@.len() - i,
    {
        if codes[i] == code {
            return true;
        }
        i = i + 1;
    }
    false
}

} // verus!
