//! Window state and the handling of window events.
//!
//! The platform window itself lives outside this crate; here is the state
//! that the window settings and the key and mouse tracking keep, and what
//! a batch of platform events does to it.

use vstd::prelude::*;

use crate::buttons::{advanced, pressed_all, state_of, ButtonState, ButtonStates};

verus! {

/// A platform event, reduced to what the window state reacts to.
#[derive(Clone, Copy, PartialEq, Eq, Structural, Debug)]
pub enum WindowEvent {
    /// The user asked to close the window.
    Quit,
    /// A key went down; `repeat` is set for auto-repeated presses.
    KeyDown { repeat: bool },
    /// A mouse button went down.
    MouseButtonDown,
    /// The window took a new size.
    Resized { width: u32, height: u32 },
    /// Anything else.
    Other,
}

/// Window state: its size, cursor settings, and the tracked keys and mouse
/// buttons.
pub struct WindowCtx {
    key_states: ButtonStates,
    mouse_states: ButtonStates,
    size: (u32, u32),
    cursor_shown: bool,
    relative: bool,
    fullscreen: bool,
}

impl WindowCtx {
    /// The tracked keys.
    pub closed spec fn keys(&self) -> Map<u32, ButtonState> {
        self.key_states@
    }

    /// The tracked mouse buttons.
    pub closed spec fn buttons(&self) -> Map<u32, ButtonState> {
        self.mouse_states@
    }

    /// The window size: the one it was opened with, or the last it was
    /// resized to.
    pub closed spec fn dims(&self) -> (u32, u32) {
        self.size
    }

    /// Whether the cursor is shown.
    pub closed spec fn cursor_visible(&self) -> bool {
        self.cursor_shown
    }

    /// Whether the mouse is in relative mode.
    pub closed spec fn relative_mode(&self) -> bool {
        self.relative
    }

    /// Whether the window covers the desktop.
    pub closed spec fn is_fullscreen(&self) -> bool {
        self.fullscreen
    }

    /// Well-formedness: no key or button is tracked twice.
    pub closed spec fn wf(&self) -> bool {
        self.key_states.wf() && self.mouse_states.wf()
    }

    /// The state of a window just opened with the given size: nothing
    /// tracked, cursor shown, absolute mouse, windowed.
    pub fn new(width: u32, height: u32) -> (r: Self)
        ensures
            r.wf(),
            r.keys() == Map::<u32, ButtonState>::empty(),
            r.buttons() == Map::<u32, ButtonState>::empty(),
            r.dims() == (width, height),
            r.cursor_visible(),
            !r.relative_mode(),
            !r.is_fullscreen(),
    {
        WindowCtx {
            key_states: ButtonStates::new(),
            mouse_states: ButtonStates::new(),
            size: (width, height),
            cursor_shown: true,
            relative: false,
            fullscreen: false,
        }
    }
}

/// The tracked keys after a batch of events: each first press (not a
/// repeat) marks every key now down as pressed.
pub open spec fn keys_after_events(
    keys: Map<u32, ButtonState>,
    events: Seq<WindowEvent>,
    keys_down: Seq<u32>,
) -> Map<u32, ButtonState>
    decreases events.len(),
{
    if events.len() == 0 {
        keys
    } else {
        let before = keys_after_events(keys, events.drop_last(), keys_down);
        match events.last() {
            WindowEvent::KeyDown { repeat: false } => pressed_all(before, keys_down),
            _ => before,
        }
    }
}

/// The tracked mouse buttons after a batch of events: each button press
/// marks every button now down as pressed.
pub open spec fn buttons_after_events(
    buttons: Map<u32, ButtonState>,
    events: Seq<WindowEvent>,
    buttons_down: Seq<u32>,
) -> Map<u32, ButtonState>
    decreases events.len(),
{
    if events.len() == 0 {
        buttons
    } else {
        let before = buttons_after_events(buttons, events.drop_last(), buttons_down);
        match events.last() {
            WindowEvent::MouseButtonDown => pressed_all(before, buttons_down),
            _ => before,
        }
    }
}

/// The window size after a batch of events: the size of the last resize,
/// or the size before when there was none.
pub open spec fn dims_after_events(dims: (u32, u32), events: Seq<WindowEvent>) -> (u32, u32)
    decreases events.len(),
{
    if events.len() == 0 {
        dims
    } else {
        match events.last() {
            WindowEvent::Resized { width, height } => (width, height),
            _ => dims_after_events(dims, events.drop_last()),
        }
    }
}

/// Whether a batch of events holds a request to quit.
pub open spec fn quit_requested(events: Seq<WindowEvent>) -> bool {
    events.contains(WindowEvent::Quit)
}

/// A call that changes the window settings, or a frame's event handling.
#[derive(Clone, Copy, PartialEq, Eq, Structural, Debug)]
pub enum WindowOp {
    PollEvents,
    ShowCursor,
    HideCursor,
    SetRelative(bool),
    SetFullscreen(bool),
}

/// The window settings: cursor shown, relative mouse, full screen.
pub open spec fn window_flags(ctx: WindowCtx) -> (bool, bool, bool) {
    (ctx.cursor_visible(), ctx.relative_mode(), ctx.is_fullscreen())
}

/// What one call does to the window settings.
pub open spec fn flags_step(f: (bool, bool, bool), op: WindowOp) -> (bool, bool, bool) {
    match op {
        WindowOp::PollEvents => f,
        WindowOp::ShowCursor => (true, f.1, f.2),
        WindowOp::HideCursor => (false, f.1, f.2),
        WindowOp::SetRelative(b) => (f.0, b, f.2),
        WindowOp::SetFullscreen(b) => (f.0, f.1, b),
    }
}

/// The window settings after a list of calls, made one after the other.
pub open spec fn flags_run(f: (bool, bool, bool), ops: Seq<WindowOp>) -> (bool, bool, bool)
    decreases ops.len(),
{
    if ops.len() == 0 {
        f
    } else {
        flags_step(flags_run(f, ops.drop_last()), ops.last())
    }
}

/// Calls that do not set the relative mode keep it; calls that do not hide
/// the cursor keep it shown; calls that do not set full screen keep it.
pub proof fn lemma_flags_kept(f: (bool, bool, bool), ops: Seq<WindowOp>)
    ensures
        (forall|i: int| 0 <= i < ops.len() ==> !(#[trigger] ops[i] is SetRelative)) ==> flags_run(f, ops).1 == f.1,
        f.0 && (forall|i: int| 0 <= i < ops.len() ==> #[trigger] ops[i] != WindowOp::HideCursor) ==> flags_run(
            f,
            ops,
        ).0,
        (forall|i: int| 0 <= i < ops.len() ==> !(#[trigger] ops[i] is SetFullscreen)) ==> flags_run(f, ops).2 == f.2,
    decreases ops.len(),
{
    if ops.len() > 0 {
        let init = ops.drop_last();
        lemma_flags_kept(f, init);
        let last = ops.len() - 1;
        if forall|i: int| 0 <= i < ops.len() ==> !(#[trigger] ops[i] is SetRelative) {
            assert forall|i: int| 0 <= i < init.len() implies !(#[trigger] init[i] is SetRelative) by {
                assert(init[i] == ops[i]);
            }
            assert(!(ops[last] is SetRelative));
        }
        if f.0 && (forall|i: int| 0 <= i < ops.len() ==> #[trigger] ops[i] != WindowOp::HideCursor) {
            assert forall|i: int| 0 <= i < init.len() implies #[trigger] init[i] != WindowOp::HideCursor by {
                assert(init[i] == ops[i]);
            }
            assert(ops[last] != WindowOp::HideCursor);
        }
        if forall|i: int| 0 <= i < ops.len() ==> !(#[trigger] ops[i] is SetFullscreen) {
            assert forall|i: int| 0 <= i < init.len() implies !(#[trigger] init[i] is SetFullscreen) by {
                assert(init[i] == ops[i]);
            }
            assert(!(ops[last] is SetFullscreen));
        }
    }
}

/// After `set_relative(b)`, calls that do not set the relative mode again
/// leave it `b`; after `show_cursor`, calls other than `hide_cursor` leave
/// the cursor shown; after `set_fullscreen(b)`, calls that do not set full
/// screen again leave it `b`.
pub proof fn lemma_setting_persists(f: (bool, bool, bool), b: bool, rest: Seq<WindowOp>)
    ensures
        (forall|i: int| 0 <= i < rest.len() ==> !(#[trigger] rest[i] is SetRelative)) ==> flags_run(
            flags_step(f, WindowOp::SetRelative(b)),
            rest,
        ).1 == b,
        (forall|i: int| 0 <= i < rest.len() ==> #[trigger] rest[i] != WindowOp::HideCursor) ==> flags_run(
            flags_step(f, WindowOp::ShowCursor),
            rest,
        ).0,
        (forall|i: int| 0 <= i < rest.len() ==> !(#[trigger] rest[i] is SetFullscreen)) ==> flags_run(
            flags_step(f, WindowOp::SetFullscreen(b)),
            rest,
        ).2 == b,
{
    lemma_flags_kept(flags_step(f, WindowOp::SetRelative(b)), rest);
    lemma_flags_kept(flags_step(f, WindowOp::ShowCursor), rest);
    lemma_flags_kept(flags_step(f, WindowOp::SetFullscreen(b)), rest);
}

/// Call `op` took the window settings of `before` to those of `after`.
pub open spec fn window_step(before: WindowCtx, after: WindowCtx, op: WindowOp) -> bool {
    window_flags(after) == flags_step(window_flags(before), op)
}

/// `ctxs` is the life of a window: `ctxs[i + 1]` is `ctxs[i]` after call
/// `ops[i]`.
pub open spec fn window_life(ctxs: Seq<WindowCtx>, ops: Seq<WindowOp>) -> bool {
    &&& ctxs.len() == ops.len() + 1
    &&& forall|i: int| 0 <= i < ops.len() ==> #[trigger] window_step(ctxs[i], ctxs[i + 1], ops[i])
}

/// Over a window's life, the settings after call `b` are those that the
/// calls from `a` on make of the settings before call `a`.
pub proof fn lemma_window_life(ctxs: Seq<WindowCtx>, ops: Seq<WindowOp>, a: int, b: int)
    requires
        window_life(ctxs, ops),
        0 <= a <= b <= ops.len(),
    ensures
        window_flags(ctxs[b]) == flags_run(window_flags(ctxs[a]), ops.subrange(a, b)),
    decreases b - a,
{
    if b > a {
        lemma_window_life(ctxs, ops, a, b - 1);
        assert(ops.subrange(a, b).drop_last() =~= ops.subrange(a, b - 1));
        assert(ops.subrange(a, b).last() == ops[b - 1]);
        let i = b - 1;
        assert(window_step(ctxs[i], ctxs[i + 1], ops[i]));
    }
}

/// Over a window's life: after `set_relative(b)` as call `j`, the relative
/// mode reads `b` until a later call sets it again; after `show_cursor` as
/// call `j`, the cursor stays shown until a later `hide_cursor`; after
/// `set_fullscreen(b)` as call `j`, full screen reads `b` until a later
/// call sets it again.
pub proof fn lemma_window_settings_persist(ctxs: Seq<WindowCtx>, ops: Seq<WindowOp>, j: int, f: int, b: bool)
    requires
        window_life(ctxs, ops),
        0 <= j < f <= ops.len(),
    ensures
        ops[j] == WindowOp::SetRelative(b) && (forall|i: int| j < i < f ==> !(#[trigger] ops[i] is SetRelative))
            ==> ctxs[f].relative_mode() == b,
        ops[j] == WindowOp::ShowCursor && (forall|i: int| j < i < f ==> #[trigger] ops[i] != WindowOp::HideCursor)
            ==> ctxs[f].cursor_visible(),
        ops[j] == WindowOp::SetFullscreen(b) && (forall|i: int| j < i < f ==> !(#[trigger] ops[i] is SetFullscreen))
            ==> ctxs[f].is_fullscreen() == b,
{
    lemma_window_life(ctxs, ops, j, j + 1);
    lemma_window_life(ctxs, ops, j + 1, f);
    assert(ops.subrange(j, j + 1) =~= seq![ops[j]]);
    assert(seq![ops[j]].drop_last() =~= Seq::<WindowOp>::empty());
    let rest = ops.subrange(j + 1, f);
    lemma_flags_kept(window_flags(ctxs[j + 1]), rest);
    if forall|i: int| j < i < f ==> !(#[trigger] ops[i] is SetRelative) {
        assert forall|i: int| 0 <= i < rest.len() implies !(#[trigger] rest[i] is SetRelative) by {
            assert(rest[i] == ops[j + 1 + i]);
        }
    }
    if forall|i: int| j < i < f ==> #[trigger] ops[i] != WindowOp::HideCursor {
        assert forall|i: int| 0 <= i < rest.len() implies #[trigger] rest[i] != WindowOp::HideCursor by {
            assert(rest[i] == ops[j + 1 + i]);
        }
    }
    if forall|i: int| j < i < f ==> !(#[trigger] ops[i] is SetFullscreen) {
        assert forall|i: int| 0 <= i < rest.len() implies !(#[trigger] rest[i] is SetFullscreen) by {
            assert(rest[i] == ops[j + 1 + i]);
        }
    }
}

/// Whether the window has been opened.
pub fn enabled(ctx: &Option<WindowCtx>) -> (r: bool)
    ensures
        r == ctx is Some,
{
    ctx.is_some()
}

/// Handles the events of one frame: `keys_down` and `buttons_down` are the
/// keys and mouse buttons physically down. Every tracked key and button
/// advances one frame, then the events are handled in order. Returns
/// whether the user asked to quit.
pub fn poll_events(ctx: &mut WindowCtx, keys_down: &[u32], buttons_down: &[u32], events: &[WindowEvent]) -> (quit: bool)
    requires
        old(ctx).wf(),
    ensures
        final(ctx).wf(),
        final(ctx).keys() == keys_after_events(advanced(old(ctx).keys(), keys_down@), events@, keys_down@),
        final(ctx).buttons() == buttons_after_events(advanced(old(ctx).buttons(), buttons_down@), events@, buttons_down@),
        final(ctx).dims() == dims_after_events(old(ctx).dims(), events@),
        window_flags(*final(ctx)) == flags_step(window_flags(*old(ctx)), WindowOp::PollEvents),
        final(ctx).cursor_visible() == old(ctx).cursor_visible(),
        final(ctx).relative_mode() == old(ctx).relative_mode(),
        final(ctx).is_fullscreen() == old(ctx).is_fullscreen(),
        quit == quit_requested(events@),
{
    ctx.key_states.advance(keys_down);
    ctx.mouse_states.advance(buttons_down);
    let ghost keys0 = ctx.key_states@;
    let ghost buttons0 = ctx.mouse_states@;
    let mut quit = false;
    let mut i: usize = 0;
    while i < events.len()
        invariant
            i <= events@.len(),
            ctx.wf(),
            ctx.key_states@ == keys_after_events(keys0, events@.take(i as int), keys_down@),
            ctx.mouse_states@ == buttons_after_events(buttons0, events@.take(i as int), buttons_down@),
            quit == events@.take(i as int).contains(WindowEvent::Quit),
            ctx.size == dims_after_events(old(ctx).size, events@.take(i as int)),
            ctx.cursor_shown == old(ctx).cursor_shown,
            ctx.relative == old(ctx).relative,
            ctx.fullscreen == old(ctx).fullscreen,
        decreases events@.len() - i,
    {
        proof {
            assert(events@.take(i + 1).drop_last() =~= events@.take(i as int));
            assert(events@.take(i + 1).last() == events@[i as int]);
        }
        match events[i] {
            WindowEvent::Quit => {
                quit = true;
            },
            WindowEvent::KeyDown { repeat } => {
                if !repeat {
                    ctx.key_states.press_all(keys_down);
                }
            },
            WindowEvent::MouseButtonDown => {
                ctx.mouse_states.press_all(buttons_down);
            },
            WindowEvent::Resized { width, height } => {
                ctx.size = (width, height);
            },
            WindowEvent::Other => {},
        }
        proof {
            let t = events@.take(i + 1);
            if events@[i as int] == WindowEvent::Quit {
                assert(t[i as int] == WindowEvent::Quit);
            }
            if t.contains(WindowEvent::Quit) && events@[i as int] != WindowEvent::Quit {
                let k = choose|k: int| 0 <= k < t.len() && t[k] == WindowEvent::Quit;
                assert(events@.take(i as int)[k] == WindowEvent::Quit);
            }
            if events@.take(i as int).contains(WindowEvent::Quit) {
                let k = choose|k: int| 0 <= k < i && events@.take(i as int)[k] == WindowEvent::Quit;
                assert(t[k] == WindowEvent::Quit);
            }
        }
        i = i + 1;
    }
    proof {
        assert(events@.take(events@.len() as int) =~= events@);
    }
    quit
}

/// Shows the cursor.
pub fn show_cursor(ctx: &mut WindowCtx)
    ensures
        window_flags(*final(ctx)) == flags_step(window_flags(*old(ctx)), WindowOp::ShowCursor),
        final(ctx).cursor_visible(),
        final(ctx).keys() == old(ctx).keys(),
        final(ctx).buttons() == old(ctx).buttons(),
        final(ctx).dims() == old(ctx).dims(),
        final(ctx).relative_mode() == old(ctx).relative_mode(),
        final(ctx).is_fullscreen() == old(ctx).is_fullscreen(),
        final(ctx).wf() == old(ctx).wf(),
{
    ctx.cursor_shown = true;
}

/// Hides the cursor.
pub fn hide_cursor(ctx: &mut WindowCtx)
    ensures
        window_flags(*final(ctx)) == flags_step(window_flags(*old(ctx)), WindowOp::HideCursor),
        !final(ctx).cursor_visible(),
        final(ctx).keys() == old(ctx).keys(),
        final(ctx).buttons() == old(ctx).buttons(),
        final(ctx).dims() == old(ctx).dims(),
        final(ctx).relative_mode() == old(ctx).relative_mode(),
        final(ctx).is_fullscreen() == old(ctx).is_fullscreen(),
        final(ctx).wf() == old(ctx).wf(),
{
    ctx.cursor_shown = false;
}

/// Turns relative mouse mode on or off.
pub fn set_relative(ctx: &mut WindowCtx, b: bool)
    ensures
        window_flags(*final(ctx)) == flags_step(window_flags(*old(ctx)), WindowOp::SetRelative(b)),
        final(ctx).relative_mode() == b,
        final(ctx).keys() == old(ctx).keys(),
        final(ctx).buttons() == old(ctx).buttons(),
        final(ctx).dims() == old(ctx).dims(),
        final(ctx).cursor_visible() == old(ctx).cursor_visible(),
        final(ctx).is_fullscreen() == old(ctx).is_fullscreen(),
        final(ctx).wf() == old(ctx).wf(),
{
    ctx.relative = b;
}

/// Whether the mouse is in relative mode.
pub fn get_relative(ctx: &WindowCtx) -> (r: bool)
    ensures
        r == ctx.relative_mode(),
{
    ctx.relative
}

/// Makes the window cover the desktop, or returns it to a window.
pub fn set_fullscreen(ctx: &mut WindowCtx, b: bool)
    ensures
        window_flags(*final(ctx)) == flags_step(window_flags(*old(ctx)), WindowOp::SetFullscreen(b)),
        final(ctx).is_fullscreen() == b,
        final(ctx).keys() == old(ctx).keys(),
        final(ctx).buttons() == old(ctx).buttons(),
        final(ctx).dims() == old(ctx).dims(),
        final(ctx).cursor_visible() == old(ctx).cursor_visible(),
        final(ctx).relative_mode() == old(ctx).relative_mode(),
        final(ctx).wf() == old(ctx).wf(),
{
    ctx.fullscreen = b;
}

/// Whether the window covers the desktop.
pub fn get_fullscreen(ctx: &WindowCtx) -> (r: bool)
    ensures
        r == ctx.is_fullscreen(),
{
    ctx.fullscreen
}

/// The window size: the one it was opened with, or the last it was
/// resized to.
pub fn size(ctx: &WindowCtx) -> (r: (u32, u32))
    ensures
        r == ctx.dims(),
{
    ctx.size
}

/// Whether key `k` went down this frame.
pub fn key_pressed(ctx: &WindowCtx, k: u32) -> (r: bool)
    requires
        ctx.wf(),
    ensures
        r == (state_of(ctx.keys(), k) == Some(ButtonState::Pressed)),
{
    ctx.key_states.check(k, ButtonState::Pressed)
}

/// Whether key `k` is held down.
pub fn key_down(ctx: &WindowCtx, k: u32) -> (r: bool)
    requires
        ctx.wf(),
    ensures
        r == (state_of(ctx.keys(), k) == Some(ButtonState::Down)),
{
    ctx.key_states.check(k, ButtonState::Down)
}

/// Whether key `k` was let go this frame.
pub fn key_released(ctx: &WindowCtx, k: u32) -> (r: bool)
    requires
        ctx.wf(),
    ensures
        r == (state_of(ctx.keys(), k) == Some(ButtonState::Released)),
{
    ctx.key_states.check(k, ButtonState::Released)
}

/// Whether mouse button `b` went down this frame.
pub fn mouse_pressed(ctx: &WindowCtx, b: u32) -> (r: bool)
    requires
        ctx.wf(),
    ensures
        r == (state_of(ctx.buttons(), b) == Some(ButtonState::Pressed)),
{
    ctx.mouse_states.check(b, ButtonState::Pressed)
}

/// Whether mouse button `b` is held down.
pub fn mouse_down(ctx: &WindowCtx, b: u32) -> (r: bool)
    requires
        ctx.wf(),
    ensures
        r == (state_of(ctx.buttons(), b) == Some(ButtonState::Down)),
{
    ctx.mouse_states.check(b, ButtonState::Down)
}

/// Whether mouse button `b` was let go this frame.
pub fn mouse_released(ctx: &WindowCtx, b: u32) -> (r: bool)
    requires
        ctx.wf(),
    ensures
        r == (state_of(ctx.buttons(), b) == Some(ButtonState::Released)),
{
    ctx.mouse_states.check(b, ButtonState::Released)
}

} // verus!
