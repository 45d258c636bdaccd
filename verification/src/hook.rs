//! Decisions of the low-level keyboard hook.
//!
//! The application installs a `WH_KEYBOARD_LL` hook; for every keyboard event it
//! calls [`on_keyboard_event`] with the event's fields and performs the returned
//! effects (timer, synthetic keys, overlay requests), then either passes the event
//! on or swallows it.
use vstd::prelude::*;
use crate::config::{press_kind, PressKind, VK_CAPITAL, VK_HANGUL};
use crate::config::classify_press;
use crate::state::{KeyState, KeyStateView};
use crate::overlay::{caps_timer_step, OverlayView, LBL_CAPS_ON, LBL_CAPS_OFF};

verus! {

/// `HC_ACTION`: the hook code of an event that the hook must process.
pub const HC_ACTION: i32 = 0;
/// `LLKHF_INJECTED`: the event was synthesised (by `SendInput` or similar).
pub const LLKHF_INJECTED: u32 = 0x10;
/// `WM_KEYDOWN`.
pub const WM_KEYDOWN: u32 = 0x0100;
/// `WM_KEYUP`.
pub const WM_KEYUP: u32 = 0x0101;
/// `WM_SYSKEYDOWN`.
pub const WM_SYSKEYDOWN: u32 = 0x0104;
/// `WM_SYSKEYUP`.
pub const WM_SYSKEYUP: u32 = 0x0105;

/// One call of the low-level keyboard hook, as plain values.
#[derive(Clone, Copy, Debug)]
pub struct KeyEvent {
    /// The hook code (`nCode`).
    pub code: i32,
    /// The message (`wParam`).
    pub wparam: usize,
    /// `KBDLLHOOKSTRUCT::vkCode`.
    pub vk_code: u32,
    /// `KBDLLHOOKSTRUCT::flags`.
    pub flags: u32,
    /// Current tick count (ms).
    pub now_ms: u64,
    /// The overlay window exists (it then owns the long-press timer).
    pub overlay_ready: bool,
}

/// What the hook does with an event, besides its effects.
#[derive(Clone, Copy, Debug, PartialEq, Eq, Structural)]
pub enum Verdict {
    /// Hand the event to the next hook (`CallNextHookEx`).
    PassOn,
    /// Swallow the event (return non-zero).
    Swallow,
}

/// Effects of one hook call, performed by the caller in field order.
#[derive(Clone, Copy, Debug)]
pub struct HookOutput {
    pub verdict: Verdict,
    /// Arm the overlay's long-press timer with this delay (ms).
    pub arm_timer_ms: Option<u32>,
    /// Ask the overlay to pre-read the IME state while the key is held.
    pub preread: bool,
    /// Cancel the overlay's long-press timer.
    pub cancel_timer: bool,
    /// Send this virtual key as a down/up pair.
    pub send_vk: Option<u16>,
    /// Ask the overlay to show the Korean/English label (after the send).
    pub show_language: bool,
}

/// An output with no effects.
pub open spec fn quiet(verdict: Verdict) -> HookOutput {
    HookOutput {
        verdict,
        arm_timer_ms: None,
        preread: false,
        cancel_timer: false,
        send_vk: None,
        show_language: false,
    }
}

/// The `LLKHF_INJECTED` bit (bit 4) of the flags is set: the event is synthetic.
pub open spec fn is_injected(e: KeyEvent) -> bool {
    (e.flags / LLKHF_INJECTED) % 2 == 1
}

/// The message: the low 32 bits of `wParam`.
pub open spec fn message_of(e: KeyEvent) -> u32 {
    (e.wparam as int % 0x1_0000_0000) as u32
}

/// The virtual key: the low 16 bits of `vkCode`.
pub open spec fn vk_of(e: KeyEvent) -> u16 {
    (e.vk_code % 0x10000) as u16
}

pub open spec fn is_key_down(e: KeyEvent) -> bool {
    message_of(e) == WM_KEYDOWN || message_of(e) == WM_SYSKEYDOWN
}

pub open spec fn is_key_up(e: KeyEvent) -> bool {
    message_of(e) == WM_KEYUP || message_of(e) == WM_SYSKEYUP
}

/// The event is a physical Caps Lock event that the hook handles itself:
/// an `HC_ACTION` event for `VK_CAPITAL` that is not synthetic and does not
/// arrive while the application is sending keys.
pub open spec fn is_own_caps_event(s: KeyStateView, e: KeyEvent) -> bool {
    &&& e.code == HC_ACTION
    &&& !is_injected(e)
    &&& !s.injecting
    &&& vk_of(e) == VK_CAPITAL
}

/// Held time of the press that ends at `now_ms` (0 if the clock went backwards).
pub open spec fn held_ms(s: KeyStateView, now_ms: u64) -> int {
    if now_ms >= s.caps_down_time_ms {
        now_ms - s.caps_down_time_ms
    } else {
        0
    }
}

/// The kind of a press released now. With the overlay ready, a long press is
/// always decided by the overlay's timer, so a release that gets here is short;
/// without the overlay the held time decides.
pub open spec fn release_kind(s: KeyStateView, e: KeyEvent) -> PressKind {
    if e.overlay_ready {
        PressKind::Short
    } else {
        press_kind(held_ms(s, e.now_ms), s.threshold_ms as int)
    }
}

/// The hook's transition: next state and effects for one event.
pub open spec fn hook_step(s: KeyStateView, e: KeyEvent) -> (KeyStateView, HookOutput) {
    if !is_own_caps_event(s, e) || !(is_key_down(e) || is_key_up(e)) {
        (s, quiet(Verdict::PassOn))
    } else if is_key_down(e) {
        if s.caps_down {
            // auto-repeat while held
            (s, quiet(Verdict::Swallow))
        } else {
            (
                KeyStateView { caps_down: true, caps_down_time_ms: e.now_ms, long_fired: false, ..s },
                HookOutput {
                    arm_timer_ms: Some((s.threshold_ms % 0x1_0000_0000) as u32),
                    preread: e.overlay_ready && s.short_press_vk == VK_HANGUL,
                    ..quiet(Verdict::Swallow)
                },
            )
        }
    } else {
        let s2 = KeyStateView { caps_down: false, long_fired: false, ..s };
        if s.long_fired {
            (s2, HookOutput { cancel_timer: true, ..quiet(Verdict::Swallow) })
        } else if release_kind(s, e) == PressKind::Long {
            (
                s2,
                HookOutput {
                    cancel_timer: true,
                    send_vk: Some(s.long_press_vk),
                    ..quiet(Verdict::Swallow)
                },
            )
        } else {
            (
                s2,
                HookOutput {
                    cancel_timer: true,
                    send_vk: Some(s.short_press_vk),
                    show_language: s.short_press_vk == VK_HANGUL && e.overlay_ready,
                    ..quiet(Verdict::Swallow)
                },
            )
        }
    }
}

/// Decides what the low-level keyboard hook does with one event and updates the
/// shared state.
///
/// Only physical Caps Lock events are handled; all other events, synthetic ones
/// and those that arrive while a key is being sent are passed on untouched.
/// The first key-down of a press records its time and arms the long-press timer;
/// auto-repeat key-downs are swallowed without effect. On release, nothing more
/// happens if the timer already performed the long press; otherwise the press is
/// short (or, without the overlay, classified by its held time).
pub fn on_keyboard_event(state: &mut KeyState, e: KeyEvent) -> (out: HookOutput)
    ensures
        (final(state)@, out) == hook_step(old(state)@, e),
{
    let vk = (e.vk_code % 0x10000) as u16;
    let msg = (e.wparam as u64 % 0x1_0000_0000) as u32;
    let injected = (e.flags / LLKHF_INJECTED) % 2 == 1;
    let pass_on = HookOutput {
        verdict: Verdict::PassOn,
        arm_timer_ms: None,
        preread: false,
        cancel_timer: false,
        send_vk: None,
        show_language: false,
    };
    if e.code != HC_ACTION || injected || state.injecting() || vk != VK_CAPITAL {
        return pass_on;
    }
    let swallow = HookOutput { verdict: Verdict::Swallow, ..pass_on };
    if msg == WM_KEYDOWN || msg == WM_SYSKEYDOWN {
        if state.caps_down() {
            return swallow;
        }
        state.press(e.now_ms);
        // the timer API takes 32 bits: the threshold is cut to its low 32 bits
        let threshold = (state.threshold_ms() % 0x1_0000_0000) as u32;
        HookOutput {
            arm_timer_ms: Some(threshold),
            preread: e.overlay_ready && state.short_press_vk() == VK_HANGUL,
            ..swallow
        }
    } else if msg == WM_KEYUP || msg == WM_SYSKEYUP {
        let down_time = state.caps_down_time_ms();
        let fired = state.long_fired();
        state.release();
        if fired {
            return HookOutput { cancel_timer: true, ..swallow };
        }
        let kind = if e.overlay_ready {
            PressKind::Short
        } else {
            let elapsed = e.now_ms.saturating_sub(down_time);
            classify_press(elapsed, state.threshold_ms())
        };
        match kind {
            PressKind::Long => HookOutput {
                cancel_timer: true,
                send_vk: Some(state.long_press_vk()),
                ..swallow
            },
            PressKind::Short => HookOutput {
                cancel_timer: true,
                send_vk: Some(state.short_press_vk()),
                show_language: state.short_press_vk() == VK_HANGUL && e.overlay_ready,
                ..swallow
            },
        }
    } else {
        pass_on
    }
}

/// Nothing held, no long press pending, no synthetic key in flight.
pub open spec fn is_idle(s: KeyStateView) -> bool {
    !s.caps_down && !s.long_fired && !s.injecting
}

/// The settings part of the state is never changed by key handling.
pub open spec fn same_settings(a: KeyStateView, b: KeyStateView) -> bool {
    &&& a.threshold_ms == b.threshold_ms
    &&& a.short_press_vk == b.short_press_vk
    &&& a.long_press_vk == b.long_press_vk
    &&& a.injecting == b.injecting
}

/// Events that are not the hook's own Caps Lock key events (other keys, synthetic
/// events, events during a send, non-`HC_ACTION` codes, other messages) pass on
/// untouched: no state change and no effect.
pub proof fn lemma_other_events_pass_on(s: KeyStateView, e: KeyEvent)
    requires
        !is_own_caps_event(s, e) || !(is_key_down(e) || is_key_up(e)),
    ensures
        hook_step(s, e).0 == s,
        hook_step(s, e).1 == quiet(Verdict::PassOn),
{
}

/// The hook's own Caps Lock key-downs and key-ups never reach other programs.
pub proof fn lemma_caps_events_swallowed(s: KeyStateView, e: KeyEvent)
    requires
        is_own_caps_event(s, e),
        is_key_down(e) || is_key_up(e),
    ensures
        hook_step(s, e).1.verdict == Verdict::Swallow,
{
}

/// Auto-repeat key-downs while the key is held change nothing and do nothing.
pub proof fn lemma_auto_repeat_ignored(s: KeyStateView, e: KeyEvent)
    requires
        s.caps_down,
        is_own_caps_event(s, e),
        is_key_down(e),
    ensures
        hook_step(s, e).0 == s,
        hook_step(s, e).1 == quiet(Verdict::Swallow),
{
}

/// Key handling and the long-press timer keep the settings and the send guard.
pub proof fn lemma_settings_kept(s: KeyStateView, o: OverlayView, e: KeyEvent, caps_now: bool)
    ensures
        same_settings(s, hook_step(s, e).0),
        same_settings(s, caps_timer_step(s, o, caps_now).0),
{
}

/// A press released before the long-press timer fires sends exactly one key,
/// on release: the short-press key when the overlay is ready, otherwise the key
/// that the held time selects. The state is idle again afterwards.
pub proof fn lemma_press_without_timer(s0: KeyStateView, down: KeyEvent, up: KeyEvent)
    requires
        is_idle(s0),
        is_own_caps_event(s0, down),
        is_key_down(down),
        is_own_caps_event(hook_step(s0, down).0, up),
        is_key_up(up),
    ensures
        ({
            let (s1, o1) = hook_step(s0, down);
            let (s2, o2) = hook_step(s1, up);
            &&& o1.send_vk is None
            &&& o1.arm_timer_ms is Some
            &&& o2.cancel_timer
            &&& o2.send_vk == Some(
                if release_kind(s1, up) == PressKind::Long {
                    s0.long_press_vk
                } else {
                    s0.short_press_vk
                },
            )
            &&& (up.overlay_ready ==> o2.send_vk == Some(s0.short_press_vk))
            &&& (!up.overlay_ready ==> release_kind(s1, up) == press_kind(
                held_ms(s1, up.now_ms),
                s0.threshold_ms as int,
            ))
            &&& s1.caps_down_time_ms == down.now_ms
            &&& is_idle(s2)
            &&& same_settings(s0, s2)
        }),
{
}

/// A press held until the long-press timer fires sends exactly one key, the
/// long-press key, from the timer; the release then sends nothing. For Caps Lock
/// the label shows the state after the toggle. The state is idle again afterwards.
pub proof fn lemma_press_with_timer(
    s0: KeyStateView,
    o0: OverlayView,
    down: KeyEvent,
    caps_now: bool,
    up: KeyEvent,
)
    requires
        is_idle(s0),
        is_own_caps_event(s0, down),
        is_key_down(down),
        is_own_caps_event(caps_timer_step(hook_step(s0, down).0, o0, caps_now).0, up),
        is_key_up(up),
    ensures
        ({
            let (s1, o1) = hook_step(s0, down);
            let (s2, ov2, t) = caps_timer_step(s1, o0, caps_now);
            let (s3, o3) = hook_step(s2, up);
            &&& o1.send_vk is None
            &&& t.send_vk == Some(s0.long_press_vk)
            &&& o3.send_vk is None
            &&& o3.cancel_timer
            &&& !o3.show_language
            &&& (s0.long_press_vk == VK_CAPITAL ==> ov2.caps_on == !caps_now && t.show_label
                == Some(if caps_now { LBL_CAPS_OFF } else { LBL_CAPS_ON }))
            &&& is_idle(s3)
            &&& same_settings(s0, s3)
        }),
{
}

/// A long-press timer that arrives after the release (a stale timer message) does
/// nothing.
pub proof fn lemma_stale_timer_ignored(s: KeyStateView, o: OverlayView, caps_now: bool)
    requires
        !s.caps_down,
    ensures
        caps_timer_step(s, o, caps_now).0 == s,
        caps_timer_step(s, o, caps_now).1 == o,
        caps_timer_step(s, o, caps_now).2.send_vk is None,
        caps_timer_step(s, o, caps_now).2.show_label is None,
{
}

/// A physical Caps Lock event as the hook sees it, whatever the state: an
/// `HC_ACTION` event for `VK_CAPITAL` that is not synthetic.
pub open spec fn is_caps_key_event(e: KeyEvent) -> bool {
    &&& e.code == HC_ACTION
    &&& !is_injected(e)
    &&& vk_of(e) == VK_CAPITAL
}

/// The key that an output sends, as a sequence of zero or one keys.
pub open spec fn sent(vk: Option<u16>) -> Seq<u16> {
    match vk {
        Some(k) => seq![k],
        None => seq![],
    }
}

/// The state after the hook handled the events in order.
pub open spec fn hook_run(s: KeyStateView, es: Seq<KeyEvent>) -> KeyStateView
    decreases es.len(),
{
    if es.len() == 0 {
        s
    } else {
        hook_run(hook_step(s, es[0]).0, es.drop_first())
    }
}

/// The keys that the hook sends while it handles the events in order.
pub open spec fn hook_sends(s: KeyStateView, es: Seq<KeyEvent>) -> Seq<u16>
    decreases es.len(),
{
    if es.len() == 0 {
        seq![]
    } else {
        sent(hook_step(s, es[0]).1.send_vk) + hook_sends(hook_step(s, es[0]).0, es.drop_first())
    }
}

/// Any number of auto-repeat key-downs while the key is held change nothing and
/// send nothing.
pub proof fn lemma_repeats_ignored(s: KeyStateView, reps: Seq<KeyEvent>)
    requires
        s.caps_down,
        !s.injecting,
        forall|i: int| 0 <= i < reps.len() ==> is_caps_key_event(#[trigger] reps[i]) && is_key_down(
            reps[i],
        ),
    ensures
        hook_run(s, reps) == s,
        hook_sends(s, reps) == Seq::<u16>::empty(),
    decreases reps.len(),
{
    if reps.len() > 0 {
        let rest = reps.drop_first();
        assert(is_caps_key_event(reps[0]) && is_key_down(reps[0]));
        assert forall|i: int| 0 <= i < rest.len() implies is_caps_key_event(#[trigger] rest[i])
            && is_key_down(rest[i]) by {
            assert(rest[i] == reps[i + 1]);
        }
        lemma_repeats_ignored(s, rest);
        assert(hook_sends(s, reps) =~= Seq::<u16>::empty());
    }
}

/// One physical press, from an idle state, runs exactly one action: the first
/// key-down, any number of auto-repeats, at most one firing of the long-press
/// timer while the key is held (`timer`: the Caps Lock state read when it fired),
/// more auto-repeats, and the release send exactly one key between them. It is
/// the long-press key when the timer fired or the release classifies the press
/// as long, otherwise the short-press key. Afterwards the state is idle again
/// with its settings unchanged.
pub proof fn lemma_one_action_per_press(
    s0: KeyStateView,
    o0: OverlayView,
    down: KeyEvent,
    reps1: Seq<KeyEvent>,
    timer: Option<bool>,
    reps2: Seq<KeyEvent>,
    up: KeyEvent,
)
    requires
        is_idle(s0),
        is_caps_key_event(down),
        is_key_down(down),
        forall|i: int| 0 <= i < reps1.len() ==> is_caps_key_event(#[trigger] reps1[i]) && is_key_down(
            reps1[i],
        ),
        forall|i: int| 0 <= i < reps2.len() ==> is_caps_key_event(#[trigger] reps2[i]) && is_key_down(
            reps2[i],
        ),
        is_caps_key_event(up),
        is_key_up(up),
    ensures
        ({
            let (s1, out_down) = hook_step(s0, down);
            let s2 = hook_run(s1, reps1);
            let s3 = match timer {
                Some(c) => caps_timer_step(s2, o0, c).0,
                None => s2,
            };
            let timer_sends = match timer {
                Some(c) => sent(caps_timer_step(s2, o0, c).2.send_vk),
                None => Seq::<u16>::empty(),
            };
            let s4 = hook_run(s3, reps2);
            let (s5, out_up) = hook_step(s4, up);
            let all = sent(out_down.send_vk) + hook_sends(s1, reps1) + timer_sends + hook_sends(
                s3,
                reps2,
            ) + sent(out_up.send_vk);
            &&& all.len() == 1
            &&& all[0] == (if timer is Some || release_kind(s4, up) == PressKind::Long {
                s0.long_press_vk
            } else {
                s0.short_press_vk
            })
            &&& is_idle(s5)
            &&& same_settings(s0, s5)
        }),
{
    let (s1, out_down) = hook_step(s0, down);
    lemma_repeats_ignored(s1, reps1);
    let s3 = match timer {
        Some(c) => caps_timer_step(s1, o0, c).0,
        None => s1,
    };
    lemma_repeats_ignored(s3, reps2);
    let (s5, out_up) = hook_step(s3, up);
    let timer_sends = match timer {
        Some(c) => sent(caps_timer_step(s1, o0, c).2.send_vk),
        None => Seq::<u16>::empty(),
    };
    let all = sent(out_down.send_vk) + hook_sends(s1, reps1) + timer_sends + hook_sends(s3, reps2)
        + sent(out_up.send_vk);
    match timer {
        Some(c) => {
            assert(all =~= seq![s0.long_press_vk]);
        },
        None => {
            assert(all =~= sent(out_up.send_vk));
        },
    }
}

/// A release that the long-press timer did not already handle, with the overlay
/// ready, is a short press whatever the held time: it swallows the key, cancels
/// the timer, sends the short-press key and asks for the Korean/English label
/// exactly when that key is `VK_HANGUL`. The key state afterwards is idle.
pub proof fn lemma_ready_release_is_short_with_label(s: KeyStateView, e: KeyEvent)
    requires
        is_own_caps_event(s, e),
        is_key_up(e),
        !s.long_fired,
        e.overlay_ready,
    ensures
        hook_step(s, e).1.verdict == Verdict::Swallow,
        hook_step(s, e).1.cancel_timer,
        hook_step(s, e).1.send_vk == Some(s.short_press_vk),
        hook_step(s, e).1.show_language == (s.short_press_vk == VK_HANGUL),
        hook_step(s, e).1.arm_timer_ms is None,
        !hook_step(s, e).0.caps_down,
        !hook_step(s, e).0.long_fired,
{
}

/// Without the overlay no label is ever requested, and a release sends the
/// long-press key exactly when the key was held at least the threshold.
pub proof fn lemma_unready_release_by_held_time(s: KeyStateView, e: KeyEvent)
    requires
        is_own_caps_event(s, e),
        is_key_up(e),
        !s.long_fired,
        !e.overlay_ready,
    ensures
        !hook_step(s, e).1.show_language,
        ({
            // a clock that went backwards counts as no time held
            let held: int = if e.now_ms >= s.caps_down_time_ms {
                e.now_ms - s.caps_down_time_ms
            } else {
                0
            };
            hook_step(s, e).1.send_vk == Some(
                if held >= s.threshold_ms {
                    s.long_press_vk
                } else {
                    s.short_press_vk
                },
            )
        }),
{
}

/// With the overlay ready, when a release happens does not matter: two releases
/// that differ only in their time give the same result.
pub proof fn lemma_ready_release_ignores_time(s: KeyStateView, e1: KeyEvent, e2: KeyEvent)
    requires
        e1.overlay_ready,
        e1 == (KeyEvent { now_ms: e1.now_ms, ..e2 }),
        is_key_up(e1),
    ensures
        hook_step(s, e1) == hook_step(s, e2),
{
}

/// The first key-down of a press starts it: the key is swallowed, the press time
/// is recorded, the long-press timer is armed with the threshold (for any
/// threshold that fits the 32-bit timer), the IME is pre-read exactly when the
/// overlay is ready and the short-press key is `VK_HANGUL`, and nothing is sent
/// or shown yet.
pub proof fn lemma_first_key_down_starts_press(s: KeyStateView, e: KeyEvent)
    requires
        is_own_caps_event(s, e),
        is_key_down(e),
        !s.caps_down,
    ensures
        hook_step(s, e).1.verdict == Verdict::Swallow,
        hook_step(s, e).0.caps_down,
        hook_step(s, e).0.caps_down_time_ms == e.now_ms,
        !hook_step(s, e).0.long_fired,
        same_settings(s, hook_step(s, e).0),
        s.threshold_ms <= u32::MAX ==> hook_step(s, e).1.arm_timer_ms == Some(s.threshold_ms as u32),
        hook_step(s, e).1.arm_timer_ms is Some,
        hook_step(s, e).1.preread == (e.overlay_ready && s.short_press_vk == VK_HANGUL),
        hook_step(s, e).1.send_vk is None,
        !hook_step(s, e).1.show_language,
        !hook_step(s, e).1.cancel_timer,
{
}

/// The event fields are read as the Win32 bit layout says: the injected flag is
/// bit 4 of the flags, the virtual key is the low 16 bits of `vkCode` and the
/// message is the low 32 bits of `wParam`.
pub proof fn lemma_event_fields(e: KeyEvent)
    ensures
        is_injected(e) <==> (e.flags & 0x10u32) != 0,
        vk_of(e) == (e.vk_code & 0xFFFFu32) as u16,
        message_of(e) as u64 == (e.wparam as u64) & 0xFFFF_FFFFu64,
{
    let f = e.flags;
    let v = e.vk_code;
    let w = e.wparam as u64;
    assert(((f / 16) % 2 == 1) <==> (f & 0x10u32) != 0) by (bit_vector);
    assert(v % 0x10000 == v & 0xFFFFu32) by (bit_vector);
    assert(w % 0x1_0000_0000 == w & 0xFFFF_FFFFu64) by (bit_vector);
    assert(e.wparam as int == w as int);
}

} // verus!
