//! Decisions of the switch-notice overlay (HUD).
//!
//! On a Korean/English switch (short press) or a Caps Lock toggle (long press) the
//! application shows a translucent rounded box with "한 / A" or "CAPS ON / OFF" in
//! the middle of the active monitor, holds it briefly and fades it out. The window
//! work is done by the application; the choices (which label, what the fade does,
//! what the long-press timer does, where the box goes) are made here.
use vstd::prelude::*;
use crate::config::VK_CAPITAL;
use crate::state::{KeyState, KeyStateView};
use crate::wide::{wide, wide_of};

verus! {

/// Label code of "한" (Korean input).
pub const LBL_HANGUL: u32 = 1;
/// Label code of "A" (English input).
pub const LBL_ENGLISH: u32 = 2;
/// Label code of "CAPS ON".
pub const LBL_CAPS_ON: u32 = 3;
/// Label code of "CAPS OFF".
pub const LBL_CAPS_OFF: u32 = 4;

/// Time (ms) the label stays fully visible.
pub const HOLD_MS: u32 = 750;
/// Interval (ms) between fade steps.
pub const FADE_STEP_MS: u32 = 20;
/// Alpha removed per fade step.
pub const FADE_DEC: u32 = 22;
/// Alpha of a freshly shown label (0..=255).
pub const BASE_ALPHA: u8 = 150;

/// Pre-read result: not known.
pub const PREREAD_UNKNOWN: u32 = 0;
/// Pre-read result: Korean input before the switch.
pub const PREREAD_HANGUL: u32 = 1;
/// Pre-read result: English input before the switch.
pub const PREREAD_ENGLISH: u32 = 2;

/// The overlay's own state. Its fields are private: it changes only through the
/// transitions below, each stated over the view [`OverlayView`].
#[derive(Clone, Copy, Debug)]
pub struct OverlayState {
    ready: bool,
    current_label: u32,
    fade_alpha: u32,
    lang_hangul: bool,
    preread: u32,
    caps_on: bool,
}

/// What an [`OverlayState`] holds.
pub struct OverlayView {
    /// The overlay window was created.
    pub ready: bool,
    /// Label code being shown (read when painting).
    pub current_label: u32,
    /// Alpha during the fade (never above 255).
    pub fade_alpha: u32,
    /// Estimated input mode (true = Korean), used when the IME cannot be read.
    pub lang_hangul: bool,
    /// IME state read while the key was held: one of the `PREREAD_*` values.
    pub preread: u32,
    /// Caps Lock state last shown (true = on).
    pub caps_on: bool,
}

impl View for OverlayState {
    type V = OverlayView;

    closed spec fn view(&self) -> OverlayView {
        OverlayView {
            ready: self.ready,
            current_label: self.current_label,
            fade_alpha: self.fade_alpha,
            lang_hangul: self.lang_hangul,
            preread: self.preread,
            caps_on: self.caps_on,
        }
    }
}

impl OverlayState {
    /// The alpha is a window alpha (at most 255) and the pre-read value is one of
    /// the `PREREAD_*` codes.
    #[verifier::type_invariant]
    closed spec fn well_formed(self) -> bool {
        self.fade_alpha <= 255 && self.preread <= PREREAD_ENGLISH
    }
}

/// The overlay state before the window exists.
pub open spec fn initial_overlay(caps_on: bool) -> OverlayView {
    OverlayView {
        ready: false,
        current_label: 0,
        fade_alpha: 0,
        lang_hangul: false,
        preread: PREREAD_UNKNOWN,
        caps_on,
    }
}

impl OverlayState {
    /// The overlay state before the window exists, seeded with the real Caps Lock state.
    pub fn new(caps_on: bool) -> (o: OverlayState)
        ensures
            o@ == initial_overlay(caps_on),
    {
        OverlayState {
            ready: false,
            current_label: 0,
            fade_alpha: 0,
            lang_hangul: false,
            preread: PREREAD_UNKNOWN,
            caps_on,
        }
    }

    /// The overlay window was created: from now on the overlay owns the long-press
    /// timer and the labels.
    pub fn mark_ready(&mut self)
        ensures
            final(self)@ == after_mark_ready(old(self)@),
    {
        proof {
            use_type_invariant(&*self);
        }
        self.ready = true;
    }

    pub fn current_label(&self) -> (label: u32)
        ensures
            label == self@.current_label,
    {
        self.current_label
    }

    pub fn fade_alpha(&self) -> (a: u32)
        ensures
            a == self@.fade_alpha,
            a <= 255,
    {
        proof {
            use_type_invariant(self);
        }
        self.fade_alpha
    }

    pub fn lang_hangul(&self) -> (b: bool)
        ensures
            b == self@.lang_hangul,
    {
        self.lang_hangul
    }

    pub fn preread(&self) -> (p: u32)
        ensures
            p == self@.preread,
            p <= PREREAD_ENGLISH,
    {
        proof {
            use_type_invariant(self);
        }
        self.preread
    }

    pub fn caps_on(&self) -> (b: bool)
        ensures
            b == self@.caps_on,
    {
        self.caps_on
    }
}

/// The state once the window exists.
pub open spec fn after_mark_ready(o: OverlayView) -> OverlayView {
    OverlayView { ready: true, ..o }
}

/// Whether the overlay window is ready. When it is not, the hook sends keys itself.
pub fn is_ready(overlay: &OverlayState) -> (r: bool)
    ensures
        r == overlay@.ready,
{
    overlay.ready
}

/// The pre-read code of an IME reading (`None`: could not be read).
pub open spec fn preread_code(reading: Option<bool>) -> u32 {
    match reading {
        Some(true) => PREREAD_HANGUL,
        Some(false) => PREREAD_ENGLISH,
        None => PREREAD_UNKNOWN,
    }
}

/// The state after a pre-read.
pub open spec fn after_preread(o: OverlayView, reading: Option<bool>) -> OverlayView {
    OverlayView { preread: preread_code(reading), ..o }
}

/// Records the IME state read while the key is held (`None`: could not be read).
pub fn handle_language_preread(overlay: &mut OverlayState, reading: Option<bool>)
    ensures
        final(overlay)@ == after_preread(old(overlay)@, reading),
{
    proof {
        use_type_invariant(&*overlay);
    }
    overlay.preread = match reading {
        Some(true) => PREREAD_HANGUL,
        Some(false) => PREREAD_ENGLISH,
        None => PREREAD_UNKNOWN,
    };
}

/// Input mode after a switch: the opposite of the pre-read mode, or of the
/// estimate when nothing was pre-read.
pub open spec fn mode_after_switch(o: OverlayView) -> bool {
    if o.preread == PREREAD_HANGUL {
        false
    } else if o.preread == PREREAD_ENGLISH {
        true
    } else {
        !o.lang_hangul
    }
}

pub open spec fn language_label(hangul: bool) -> u32 {
    if hangul {
        LBL_HANGUL
    } else {
        LBL_ENGLISH
    }
}

/// The state after the Korean/English label was decided: the pre-read value is
/// consumed and the estimate follows the new mode.
pub open spec fn after_language_show(o: OverlayView) -> OverlayView {
    OverlayView { preread: PREREAD_UNKNOWN, lang_hangul: mode_after_switch(o), ..o }
}

/// Decides the label after the switch key was sent, consumes the pre-read value
/// and updates the estimate to the new mode. Returns the label code to show.
pub fn handle_language_show(overlay: &mut OverlayState) -> (label: u32)
    ensures
        label == language_label(mode_after_switch(old(overlay)@)),
        final(overlay)@ == after_language_show(old(overlay)@),
{
    proof {
        use_type_invariant(&*overlay);
    }
    let before = overlay.preread;
    overlay.preread = PREREAD_UNKNOWN;
    let new_hangul = if before == PREREAD_HANGUL {
        false
    } else if before == PREREAD_ENGLISH {
        true
    } else {
        !overlay.lang_hangul
    };
    overlay.lang_hangul = new_hangul;
    if new_hangul {
        LBL_HANGUL
    } else {
        LBL_ENGLISH
    }
}

/// The state once a label starts showing.
pub open spec fn after_begin_show(o: OverlayView, label: u32) -> OverlayView {
    OverlayView { current_label: label, fade_alpha: BASE_ALPHA as u32, ..o }
}

/// Starts showing a label: it becomes the painted label at full alpha.
pub fn begin_show(overlay: &mut OverlayState, label: u32)
    ensures
        final(overlay)@ == after_begin_show(old(overlay)@, label),
{
    proof {
        use_type_invariant(&*overlay);
    }
    overlay.current_label = label;
    overlay.fade_alpha = BASE_ALPHA as u32;
}

/// One step of the fade-out.
#[derive(Clone, Copy, Debug, PartialEq, Eq, Structural)]
pub enum FadeStep {
    /// Stop the fade timer and hide the window.
    Hide,
    /// Set the window's alpha to this value.
    Dim(u8),
}

/// The state after one fade step: the alpha drops by `FADE_DEC`, to 0 at the end.
pub open spec fn after_fade(o: OverlayView) -> OverlayView {
    if o.fade_alpha <= FADE_DEC {
        OverlayView { fade_alpha: 0, ..o }
    } else {
        OverlayView { fade_alpha: (o.fade_alpha - FADE_DEC) as u32, ..o }
    }
}

/// What one fade step does to the window.
pub open spec fn fade_effect(o: OverlayView) -> FadeStep {
    if o.fade_alpha <= FADE_DEC {
        FadeStep::Hide
    } else {
        FadeStep::Dim((o.fade_alpha - FADE_DEC) as u8)
    }
}

/// Lowers the alpha by `FADE_DEC`; at zero or below the window is hidden.
pub fn fade_tick(overlay: &mut OverlayState) -> (step: FadeStep)
    ensures
        step == fade_effect(old(overlay)@),
        final(overlay)@ == after_fade(old(overlay)@),
{
    proof {
        use_type_invariant(&*overlay);
    }
    if overlay.fade_alpha <= FADE_DEC {
        overlay.fade_alpha = 0;
        FadeStep::Hide
    } else {
        let a = overlay.fade_alpha - FADE_DEC;
        overlay.fade_alpha = a;
        FadeStep::Dim(a as u8)
    }
}

/// Effects of the long-press timer.
#[derive(Clone, Copy, Debug)]
pub struct CapsTimerOutput {
    /// Send this virtual key as a down/up pair.
    pub send_vk: Option<u16>,
    /// Then show this label.
    pub show_label: Option<u32>,
}

/// The long-press timer's transition. If the key is still held, the long press is
/// decided now: it is marked as done, the long-press key is sent and, for Caps
/// Lock, the label shows the state after the toggle (the opposite of the state
/// read just before sending). A timer that arrives after the release does nothing.
pub open spec fn caps_timer_step(s: KeyStateView, o: OverlayView, caps_lock_on_now: bool) -> (
    KeyStateView,
    OverlayView,
    CapsTimerOutput,
) {
    if !s.caps_down {
        (s, o, CapsTimerOutput { send_vk: None, show_label: None })
    } else if s.long_press_vk == VK_CAPITAL {
        (
            KeyStateView { long_fired: true, ..s },
            OverlayView { caps_on: !caps_lock_on_now, ..o },
            CapsTimerOutput {
                send_vk: Some(s.long_press_vk),
                show_label: Some(if caps_lock_on_now { LBL_CAPS_OFF } else { LBL_CAPS_ON }),
            },
        )
    } else {
        (
            KeyStateView { long_fired: true, ..s },
            o,
            CapsTimerOutput { send_vk: Some(s.long_press_vk), show_label: None },
        )
    }
}

/// Handles the long-press timer (`caps_lock_on_now`: the Caps Lock state read
/// just before the decision).
pub fn on_caps_timer(state: &mut KeyState, overlay: &mut OverlayState, caps_lock_on_now: bool) -> (out:
    CapsTimerOutput)
    ensures
        (final(state)@, final(overlay)@, out) == caps_timer_step(
            old(state)@,
            old(overlay)@,
            caps_lock_on_now,
        ),
{
    proof {
        use_type_invariant(&*overlay);
    }
    if !state.caps_down() {
        return CapsTimerOutput { send_vk: None, show_label: None };
    }
    state.mark_long_fired();
    let vk = state.long_press_vk();
    if vk == VK_CAPITAL {
        let next_on = !caps_lock_on_now;
        overlay.caps_on = next_on;
        CapsTimerOutput {
            send_vk: Some(vk),
            show_label: Some(if next_on { LBL_CAPS_ON } else { LBL_CAPS_OFF }),
        }
    } else {
        CapsTimerOutput { send_vk: Some(vk), show_label: None }
    }
}

/// `COLORREF` value `0x00BBGGRR`.
pub fn rgb(r: u8, g: u8, b: u8) -> (c: u32)
    ensures
        c == r + g * 0x100 + b * 0x10000,
{
    let rr = r as u32;
    let gg = g as u32;
    let bb = b as u32;
    assert((rr | (gg << 8) | (bb << 16)) == rr + gg * 0x100 + bb * 0x10000) by (bit_vector)
        requires
            rr < 0x100,
            gg < 0x100,
            bb < 0x100,
    ;
    rr | (gg << 8) | (bb << 16)
}

/// Box and font metrics of a label at 96 DPI:
/// (width, height, corner radius, font px, uses the Korean font).
pub open spec fn spec_metrics_96(label: u32) -> (i32, i32, i32, i32, bool) {
    if label == LBL_HANGUL {
        (88, 88, 22, 52, true)
    } else if label == LBL_ENGLISH {
        (88, 88, 22, 52, false)
    } else {
        (200, 88, 22, 32, false)
    }
}

/// Box and font metrics of a label at 96 DPI.
pub fn metrics_96(label: u32) -> (m: (i32, i32, i32, i32, bool))
    ensures
        m == spec_metrics_96(label),
{
    match label {
        LBL_HANGUL => (88, 88, 22, 52, true),
        LBL_ENGLISH => (88, 88, 22, 52, false),
        _ => (200, 88, 22, 32, false),
    }
}

/// Text shown for a label code.
pub fn label_text(label: u32) -> (t: &'static str)
    ensures
        label == LBL_HANGUL ==> t@ == "한"@,
        label == LBL_ENGLISH ==> t@ == "A"@,
        label == LBL_CAPS_ON ==> t@ == "CAPS ON"@,
        label == LBL_CAPS_OFF ==> t@ == "CAPS OFF"@,
        !(1 <= label <= 4) ==> t@ == ""@,
{
    match label {
        LBL_HANGUL => "한",
        LBL_ENGLISH => "A",
        LBL_CAPS_ON => "CAPS ON",
        LBL_CAPS_OFF => "CAPS OFF",
        _ => "",
    }
}

/// Null-terminated UTF-16 text of a label code.
pub fn label_wide(label: u32) -> (w: Vec<u16>)
    ensures
        label == LBL_HANGUL ==> w@ == wide_of("한"@),
        label == LBL_ENGLISH ==> w@ == wide_of("A"@),
        label == LBL_CAPS_ON ==> w@ == wide_of("CAPS ON"@),
        label == LBL_CAPS_OFF ==> w@ == wide_of("CAPS OFF"@),
        !(1 <= label <= 4) ==> w@ == wide_of(""@),
{
    wide(label_text(label))
}

/// `x / 2` rounded toward zero, as Rust's integer division does.
pub open spec fn half_toward_zero(x: int) -> int {
    if x >= 0 {
        x / 2
    } else {
        -((-x) / 2)
    }
}

/// Origin that centres a span of `size` in `[lo, hi)`: `lo + ((hi - lo) - size) / 2`.
pub fn center_origin(lo: i32, hi: i32, size: i32) -> (x: i32)
    requires
        i32::MIN <= hi - lo - size <= i32::MAX,
        i32::MIN <= lo + half_toward_zero(hi - lo - size) <= i32::MAX,
        i32::MIN <= hi - lo <= i32::MAX,
    ensures
        x == lo + half_toward_zero(hi - lo - size),
{
    let d = (hi - lo) - size;
    let h = if d >= 0 {
        d / 2
    } else {
        -((-(d as i64)) / 2) as i32
    };
    lo + h
}

/// Effective monitor DPI: a reported 0 means 96.
pub fn effective_dpi(dpi: u32) -> (d: u32)
    ensures
        d == (if dpi == 0 { 96 } else { dpi }),
{
    if dpi == 0 {
        96
    } else {
        dpi
    }
}

/// `WM_APP`: show the label in `wParam` as it is.
pub const WM_APP_SHOW: u32 = 0x8000;
/// Pre-read request (posted on the first key-down).
pub const WM_APP_LANG_PREREAD: u32 = 0x8001;
/// Korean/English label request (posted on a short release).
pub const WM_APP_LANG_SHOW: u32 = 0x8002;
/// `WM_PAINT`.
pub const WM_PAINT: u32 = 0x000F;
/// `WM_TIMER`.
pub const WM_TIMER: u32 = 0x0113;
/// Timer: full display time is over, start fading.
pub const TIMER_HOLD: usize = 1;
/// Timer: one fade step.
pub const TIMER_FADE: usize = 2;
/// Timer: the long-press threshold was reached while the key is held.
pub const TIMER_CAPS: usize = 3;

/// What the overlay window does with a message.
#[derive(Clone, Copy, Debug, PartialEq, Eq, Structural)]
pub enum OverlayMessage {
    /// Read the IME state now and keep it ([`handle_language_preread`]).
    LanguagePreread,
    /// Show the Korean/English label ([`handle_language_show`]).
    LanguageShow,
    /// Show this label code as it is.
    Show(u32),
    /// Display time over: stop the hold timer, start the fade timer.
    HoldOver,
    /// One fade step ([`fade_tick`]).
    FadeStep,
    /// Long-press threshold reached: stop the timer, then [`on_caps_timer`].
    CapsTimer,
    /// A timer of no interest.
    OtherTimer,
    /// Paint the box and the label.
    Paint,
    /// Anything else: default window procedure.
    Default,
}

/// Classifies a message of the overlay window.
pub fn overlay_message(msg: u32, wparam: usize) -> (m: OverlayMessage)
    ensures
        m == (if msg == WM_APP_LANG_PREREAD {
            OverlayMessage::LanguagePreread
        } else if msg == WM_APP_LANG_SHOW {
            OverlayMessage::LanguageShow
        } else if msg == WM_APP_SHOW {
            OverlayMessage::Show(wparam as u32)
        } else if msg == WM_TIMER {
            if wparam == TIMER_HOLD {
                OverlayMessage::HoldOver
            } else if wparam == TIMER_FADE {
                OverlayMessage::FadeStep
            } else if wparam == TIMER_CAPS {
                OverlayMessage::CapsTimer
            } else {
                OverlayMessage::OtherTimer
            }
        } else if msg == WM_PAINT {
            OverlayMessage::Paint
        } else {
            OverlayMessage::Default
        }),
{
    if msg == WM_APP_LANG_PREREAD {
        OverlayMessage::LanguagePreread
    } else if msg == WM_APP_LANG_SHOW {
        OverlayMessage::LanguageShow
    } else if msg == WM_APP_SHOW {
        #[verifier::truncate]
        let label = wparam as u32;
        OverlayMessage::Show(label)
    } else if msg == WM_TIMER {
        if wparam == TIMER_HOLD {
            OverlayMessage::HoldOver
        } else if wparam == TIMER_FADE {
            OverlayMessage::FadeStep
        } else if wparam == TIMER_CAPS {
            OverlayMessage::CapsTimer
        } else {
            OverlayMessage::OtherTimer
        }
    } else if msg == WM_PAINT {
        OverlayMessage::Paint
    } else {
        OverlayMessage::Default
    }
}

/// After a switch the shown label and the estimate agree, and when the IME was
/// read beforehand the new mode is the opposite of what was read.
pub proof fn lemma_switch_label_consistent(o: OverlayView)
    ensures
        language_label(mode_after_switch(o)) == (if mode_after_switch(o) {
            LBL_HANGUL
        } else {
            LBL_ENGLISH
        }),
        o.preread == PREREAD_HANGUL ==> !mode_after_switch(o),
        o.preread == PREREAD_ENGLISH ==> mode_after_switch(o),
        o.preread == PREREAD_UNKNOWN ==> mode_after_switch(o) == !o.lang_hangul,
{
}

/// A pre-read value is used by at most one label: reading it resets it, so a
/// later switch without a fresh pre-read falls back to toggling the estimate.
pub proof fn lemma_preread_consumed_once(o: OverlayView)
    ensures
        mode_after_switch(after_language_show(o)) == !mode_after_switch(o),
{
}

/// A change of the overlay state, as the window procedure and the application
/// make them.
pub enum OverlayEvent {
    /// [`handle_language_preread`] with this reading.
    Preread(Option<bool>),
    /// [`handle_language_show`].
    LanguageShow,
    /// [`begin_show`] with this label.
    BeginShow(u32),
    /// [`fade_tick`].
    Fade,
    /// [`on_caps_timer`] with this key state and Caps Lock reading.
    CapsTimer(KeyStateView, bool),
    /// [`OverlayState::mark_ready`].
    MarkReady,
}

/// The overlay state after one event.
pub open spec fn overlay_event_step(o: OverlayView, ev: OverlayEvent) -> OverlayView {
    match ev {
        OverlayEvent::Preread(r) => after_preread(o, r),
        OverlayEvent::LanguageShow => after_language_show(o),
        OverlayEvent::BeginShow(label) => after_begin_show(o, label),
        OverlayEvent::Fade => after_fade(o),
        OverlayEvent::CapsTimer(s, c) => caps_timer_step(s, o, c).1,
        OverlayEvent::MarkReady => after_mark_ready(o),
    }
}

/// The overlay state after the events in order.
pub open spec fn overlay_run(o: OverlayView, evs: Seq<OverlayEvent>) -> OverlayView
    decreases evs.len(),
{
    if evs.len() == 0 {
        o
    } else {
        overlay_run(overlay_event_step(o, evs[0]), evs.drop_first())
    }
}

/// The overlay is ready exactly when it was ready before or the window creation
/// was recorded ([`OverlayState::mark_ready`]) at some point: no other change
/// sets or clears the flag.
pub proof fn lemma_ready_tracks_marking(o: OverlayView, evs: Seq<OverlayEvent>)
    ensures
        overlay_run(o, evs).ready <==> (o.ready || evs.contains(OverlayEvent::MarkReady)),
    decreases evs.len(),
{
    if evs.len() > 0 {
        let rest = evs.drop_first();
        lemma_ready_tracks_marking(overlay_event_step(o, evs[0]), rest);
        if rest.contains(OverlayEvent::MarkReady) {
            let i = choose|i: int| 0 <= i < rest.len() && rest[i] == OverlayEvent::MarkReady;
            assert(evs[i + 1] == OverlayEvent::MarkReady);
        }
        if evs.contains(OverlayEvent::MarkReady) && evs[0] != OverlayEvent::MarkReady {
            let i = choose|i: int| 0 <= i < evs.len() && evs[i] == OverlayEvent::MarkReady;
            assert(rest[i - 1] == OverlayEvent::MarkReady);
        }
    }
}

/// Before the window creation is recorded the overlay is not ready, whatever
/// happened meanwhile; once recorded it stays ready.
pub proof fn lemma_not_ready_until_marked(caps_on: bool, evs: Seq<OverlayEvent>)
    ensures
        overlay_run(initial_overlay(caps_on), evs).ready <==> evs.contains(OverlayEvent::MarkReady),
{
    lemma_ready_tracks_marking(initial_overlay(caps_on), evs);
}

/// After a pre-read the next switch lands on the opposite of what was read; when
/// the IME could not be read it lands on the opposite of the estimate. The label
/// shown says so (true = Korean).
pub proof fn lemma_switch_after_preread(o: OverlayView, reading: Option<bool>)
    ensures
        mode_after_switch(after_preread(o, reading)) == match reading {
            Some(b) => !b,
            None => !o.lang_hangul,
        },
        language_label(mode_after_switch(after_preread(o, reading))) == (if (match reading {
            Some(b) => !b,
            None => !o.lang_hangul,
        }) {
            LBL_HANGUL
        } else {
            LBL_ENGLISH
        }),
        after_language_show(after_preread(o, reading)).preread == PREREAD_UNKNOWN,
        after_language_show(after_preread(o, reading)).lang_hangul == match reading {
            Some(b) => !b,
            None => !o.lang_hangul,
        },
{
}

/// An unreadable IME leaves nothing pre-read: the state is as if no pre-read
/// had happened, apart from dropping an older value.
pub proof fn lemma_unreadable_preread_is_unknown(o: OverlayView)
    ensures
        after_preread(o, None) == (OverlayView { preread: initial_overlay(o.caps_on).preread, ..o }),
        mode_after_switch(after_preread(o, None)) == mode_after_switch(
            OverlayView { preread: initial_overlay(o.caps_on).preread, ..o },
        ),
{
}

/// A long-press timer that fires while the key is held runs the long press once:
/// it marks it done and sends the long-press key. For Caps Lock the cached state
/// and the label become the opposite of the state read just before sending.
pub proof fn lemma_held_timer_runs_long_press(s: KeyStateView, o: OverlayView, caps_now: bool)
    requires
        s.caps_down,
    ensures
        caps_timer_step(s, o, caps_now).0.long_fired,
        caps_timer_step(s, o, caps_now).0.caps_down,
        caps_timer_step(s, o, caps_now).2.send_vk == Some(s.long_press_vk),
        s.long_press_vk == VK_CAPITAL ==> caps_timer_step(s, o, caps_now).1.caps_on == !caps_now
            && caps_timer_step(s, o, caps_now).2.show_label == Some(
            if !caps_now {
                LBL_CAPS_ON
            } else {
                LBL_CAPS_OFF
            },
        ),
        s.long_press_vk != VK_CAPITAL ==> caps_timer_step(s, o, caps_now).1 == o
            && caps_timer_step(s, o, caps_now).2.show_label is None,
{
}

/// Every fade step lowers the alpha by `FADE_DEC` until it would reach zero; a
/// `Dim` step sets exactly the new alpha, and `Hide` leaves the alpha at zero.
pub proof fn lemma_fade_step(o: OverlayView)
    requires
        o.fade_alpha <= 255,
    ensures
        fade_effect(o) matches FadeStep::Dim(a) ==> a as u32 == after_fade(o).fade_alpha && a + 22
            == o.fade_alpha && a > 0,
        fade_effect(o) is Hide ==> after_fade(o).fade_alpha == 0 && o.fade_alpha <= 22,
        after_fade(o) == (OverlayView { fade_alpha: after_fade(o).fade_alpha, ..o }),
{
}

/// A label shown at full alpha fades in six dimming steps (128, 106, 84, 62, 40,
/// 18) and is hidden at the seventh.
pub proof fn lemma_fade_from_full(o: OverlayView, label: u32)
    ensures
        ({
            let o0 = after_begin_show(o, label);
            let o1 = after_fade(o0);
            let o2 = after_fade(o1);
            let o3 = after_fade(o2);
            let o4 = after_fade(o3);
            let o5 = after_fade(o4);
            let o6 = after_fade(o5);
            &&& o0.fade_alpha == 150
            &&& fade_effect(o0) == FadeStep::Dim(128)
            &&& fade_effect(o1) == FadeStep::Dim(106)
            &&& fade_effect(o2) == FadeStep::Dim(84)
            &&& fade_effect(o3) == FadeStep::Dim(62)
            &&& fade_effect(o4) == FadeStep::Dim(40)
            &&& fade_effect(o5) == FadeStep::Dim(18)
            &&& fade_effect(o6) == FadeStep::Hide
            &&& after_fade(o6).fade_alpha == 0
        }),
{
}

/// `half_toward_zero(x)` is `x / 2` rounded toward zero: twice it differs from
/// `x` by at most one, toward zero, and it has the sign of `x`.
pub proof fn lemma_half_toward_zero(x: int)
    ensures
        x >= 0 ==> 0 <= x - 2 * half_toward_zero(x) <= 1,
        x < 0 ==> -1 <= x - 2 * half_toward_zero(x) <= 0,
{
}

} // verus!
