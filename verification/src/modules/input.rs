//! Keyboard and mouse state, refreshed once a frame from a snapshot of
//! what the platform reports.

use vstd::prelude::*;

use crate::modules::window::{quit_requested, WindowEvent};
use crate::buttons::{held_then_released, lemma_press_hold_release, press_phase, run_frames, advanced, frame_step, lemma_frame, pressed_all, state_of, ButtonState, ButtonStates};

verus! {

/// Input state: the tracked keys and mouse buttons, and the mouse position
/// and motion of the last frame.
pub struct InputCtx {
    key_states: ButtonStates,
    mouse_states: ButtonStates,
    mouse_delta: (i32, i32),
    mouse_pos: (i32, i32),
}

impl InputCtx {
    /// The tracked keys.
    pub closed spec fn keys(&self) -> Map<u32, ButtonState> {
        self.key_states@
    }

    /// The tracked mouse buttons.
    pub closed spec fn buttons(&self) -> Map<u32, ButtonState> {
        self.mouse_states@
    }

    /// The mouse position of the last frame.
    pub closed spec fn pos(&self) -> (i32, i32) {
        self.mouse_pos
    }

    /// The mouse motion of the last frame.
    pub closed spec fn delta(&self) -> (i32, i32) {
        self.mouse_delta
    }

    /// Well-formedness: no key or button is tracked twice.
    pub closed spec fn wf(&self) -> bool {
        self.key_states.wf() && self.mouse_states.wf()
    }

    /// Nothing tracked yet; the mouse at the origin and still.
    pub fn new() -> (r: Self)
        ensures
            r.wf(),
            r.keys() == Map::<u32, ButtonState>::empty(),
            r.buttons() == Map::<u32, ButtonState>::empty(),
            r.pos() == (0i32, 0i32),
            r.delta() == (0i32, 0i32),
    {
        InputCtx {
            key_states: ButtonStates::new(),
            mouse_states: ButtonStates::new(),
            mouse_delta: (0, 0),
            mouse_pos: (0, 0),
        }
    }
}

/// Refreshes the input state for a new frame: `keys_down` and
/// `buttons_down` are the keys and mouse buttons physically down now, `pos`
/// the mouse position and `delta` its motion. Every tracked button advances
/// one frame, then each one that is down and was up (or never seen) becomes
/// pressed. `events` are the platform events of the frame; returns whether
/// one of them asks to quit.
pub fn poll(
    ctx: &mut InputCtx,
    keys_down: &[u32],
    buttons_down: &[u32],
    pos: (i32, i32),
    delta: (i32, i32),
    events: &[WindowEvent],
) -> (quit: bool)
    requires
        old(ctx).wf(),
    ensures
        final(ctx).wf(),
        final(ctx).keys() == pressed_all(advanced(old(ctx).keys(), keys_down@), keys_down@),
        final(ctx).buttons() == pressed_all(advanced(old(ctx).buttons(), buttons_down@), buttons_down@),
        final(ctx).pos() == pos,
        final(ctx).delta() == delta,
        forall|k: u32| #[trigger] state_of(final(ctx).keys(), k) == frame_step(state_of(old(ctx).keys(), k), keys_down@.contains(k)),
        forall|b: u32| #[trigger] state_of(final(ctx).buttons(), b) == frame_step(state_of(old(ctx).buttons(), b), buttons_down@.contains(b)),
        quit == quit_requested(events@),
        forall|k: u32| #[trigger] polled_key(*old(ctx), *final(ctx), keys_down@, k),
{
    proof {
        assert forall|k: u32| #[trigger] state_of(pressed_all(advanced(ctx.keys(), keys_down@), keys_down@), k) == frame_step(state_of(ctx.keys(), k), keys_down@.contains(k)) by {
            lemma_frame(ctx.keys(), keys_down@, k);
        }
        assert forall|b: u32| #[trigger] state_of(pressed_all(advanced(ctx.buttons(), buttons_down@), buttons_down@), b) == frame_step(state_of(ctx.buttons(), b), buttons_down@.contains(b)) by {
            lemma_frame(ctx.buttons(), buttons_down@, b);
        }
    }
    ctx.mouse_delta = delta;
    ctx.mouse_pos = pos;
    ctx.key_states.advance(keys_down);
    ctx.mouse_states.advance(buttons_down);
    ctx.key_states.press_all(keys_down);
    ctx.mouse_states.press_all(buttons_down);
    let mut quit = false;
    let mut i: usize = 0;
    while i < events.len()
        invariant
            i <= events@.len(),
            quit == events@.take(i as int).contains(WindowEvent::Quit),
        decreases events@.len() - i,
    {
        proof {
            let t = events@.take(i + 1);
            assert(t.drop_last() =~= events@.take(i as int));
            if events@.take(i as int).contains(WindowEvent::Quit) {
                let k = choose|k: int| 0 <= k < i && events@.take(i as int)[k] == WindowEvent::Quit;
                assert(t[k] == WindowEvent::Quit);
            }
            if events@[i as int] == WindowEvent::Quit {
                assert(t[i as int] == WindowEvent::Quit);
            }
            if t.contains(WindowEvent::Quit) && events@[i as int] != WindowEvent::Quit {
                let k = choose|k: int| 0 <= k < t.len() && t[k] == WindowEvent::Quit;
                assert(events@.take(i as int)[k] == WindowEvent::Quit);
            }
        }
        match events[i] {
            WindowEvent::Quit => {
                quit = true;
            },
            _ => {},
        }
        i = i + 1;
    }
    proof {
        assert(events@.take(events@.len() as int) =~= events@);
    }
    quit
}

/// One poll moved key `k` from its state in `before` to its state in
/// `after`, with `down` the keys physically down in that frame.
pub open spec fn polled_key(before: InputCtx, after: InputCtx, down: Seq<u32>, k: u32) -> bool {
    state_of(after.keys(), k) == frame_step(state_of(before.keys(), k), down.contains(k))
}

/// For each frame, whether key `k` is physically down in it.
pub open spec fn held_in(downs: Seq<Seq<u32>>, k: u32) -> Seq<bool> {
    Seq::new(downs.len(), |i: int| downs[i].contains(k))
}

/// Over a run of polls, key `k` after `f` frames is in the state that
/// [`run_frames`] gives for the frames in which it was down.
pub proof fn lemma_key_over_frames(ctxs: Seq<InputCtx>, downs: Seq<Seq<u32>>, k: u32, f: int)
    requires
        ctxs.len() == downs.len() + 1,
        forall|i: int| 0 <= i < downs.len() ==> #[trigger] polled_key(ctxs[i], ctxs[i + 1], downs[i], k),
        0 <= f <= downs.len(),
    ensures
        state_of(ctxs[f].keys(), k) == run_frames(state_of(ctxs[0].keys(), k), held_in(downs, k).take(f)),
    decreases f,
{
    let h = held_in(downs, k);
    if f == 0 {
        assert(h.take(0) =~= Seq::<bool>::empty());
    } else {
        lemma_key_over_frames(ctxs, downs, k, f - 1);
        assert(h.take(f).drop_last() =~= h.take(f - 1));
        assert(h.take(f).last() == downs[f - 1].contains(k));
        let i = f - 1;
        assert(polled_key(ctxs[i], ctxs[i + 1], downs[i], k));
    }
}

/// A key that is up (or never seen), then held for `n` frames (two or
/// more) and let go for `m` frames, polled once a frame: after the first
/// frame it reads as pressed, through frame `n` as down, after frame
/// `n + 1` as released and then as up; in each frame exactly one of
/// these holds.
pub proof fn lemma_key_press_hold_release(ctxs: Seq<InputCtx>, downs: Seq<Seq<u32>>, k: u32, n: nat, m: nat)
    requires
        ctxs.len() == downs.len() + 1,
        forall|i: int| 0 <= i < downs.len() ==> #[trigger] polled_key(ctxs[i], ctxs[i + 1], downs[i], k),
        state_of(ctxs[0].keys(), k) is None || state_of(ctxs[0].keys(), k) == Some(ButtonState::Up),
        n >= 2,
        held_in(downs, k) == held_then_released(n, m),
    ensures
        forall|f: int| 1 <= f <= n + m ==> state_of((#[trigger] ctxs[f]).keys(), k) == Some(press_phase(f, n as int)),
{
    assert forall|f: int| 1 <= f <= n + m implies state_of((#[trigger] ctxs[f]).keys(), k) == Some(press_phase(f, n as int)) by {
        assert(held_then_released(n, m).len() == n + m);
        lemma_key_over_frames(ctxs, downs, k, f);
        lemma_press_hold_release(state_of(ctxs[0].keys(), k), n, m, f);
    }
}

/// The keys that are pressed, each once: those that went down this frame
/// and those held from before.
pub fn pressed_keys(ctx: &InputCtx) -> (r: Vec<u32>)
    requires
        ctx.wf(),
    ensures
        forall|k: u32| r@.contains(k) <==> (state_of(ctx.keys(), k) == Some(ButtonState::Pressed)
            || state_of(ctx.keys(), k) == Some(ButtonState::Down)),
        r@.no_duplicates(),
{
    let r = ctx.key_states.held_codes();
    assert forall|k: u32| r@.contains(k) <==> (state_of(ctx.keys(), k) == Some(ButtonState::Pressed)
        || state_of(ctx.keys(), k) == Some(ButtonState::Down)) by {
        assert(ctx.key_states.state(k) == crate::buttons::state_of(ctx.keys(), k));
    }
    r
}

/// Whether key `k` went down this frame.
pub fn key_pressed(ctx: &InputCtx, k: u32) -> (r: bool)
    requires
        ctx.wf(),
    ensures
        r == (crate::buttons::state_of(ctx.keys(), k) == Some(ButtonState::Pressed)),
{
    ctx.key_states.check(k, ButtonState::Pressed)
}

/// Whether key `k` is held down.
pub fn key_down(ctx: &InputCtx, k: u32) -> (r: bool)
    requires
        ctx.wf(),
    ensures
        r == (crate::buttons::state_of(ctx.keys(), k) == Some(ButtonState::Down)),
{
    ctx.key_states.check(k, ButtonState::Down)
}

/// Whether key `k` was let go this frame.
pub fn key_released(ctx: &InputCtx, k: u32) -> (r: bool)
    requires
        ctx.wf(),
    ensures
        r == (crate::buttons::state_of(ctx.keys(), k) == Some(ButtonState::Released)),
{
    ctx.key_states.check(k, ButtonState::Released)
}

/// Whether mouse button `b` went down this frame.
pub fn mouse_pressed(ctx: &InputCtx, b: u32) -> (r: bool)
    requires
        ctx.wf(),
    ensures
        r == (crate::buttons::state_of(ctx.buttons(), b) == Some(ButtonState::Pressed)),
{
    ctx.mouse_states.check(b, ButtonState::Pressed)
}

/// Whether mouse button `b` is held down.
pub fn mouse_down(ctx: &InputCtx, b: u32) -> (r: bool)
    requires
        ctx.wf(),
    ensures
        r == (crate::buttons::state_of(ctx.buttons(), b) == Some(ButtonState::Down)),
{
    ctx.mouse_states.check(b, ButtonState::Down)
}

/// Whether mouse button `b` was let go this frame.
pub fn mouse_released(ctx: &InputCtx, b: u32) -> (r: bool)
    requires
        ctx.wf(),
    ensures
        r == (crate::buttons::state_of(ctx.buttons(), b) == Some(ButtonState::Released)),
{
    ctx.mouse_states.check(b, ButtonState::Released)
}

/// The mouse position of the last frame.
pub fn mouse_pos(ctx: &InputCtx) -> (r: (i32, i32))
    ensures
        r == ctx.pos(),
{
    ctx.mouse_pos
}

/// The mouse motion of the last frame.
pub fn mouse_delta(ctx: &InputCtx) -> (r: (i32, i32))
    ensures
        r == ctx.delta(),
{
    ctx.mouse_delta
}

} // verus!
