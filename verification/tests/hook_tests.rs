use caps_hangul::config::{Config, VK_CAPITAL, VK_HANGUL};
use caps_hangul::hook::{on_keyboard_event, KeyEvent, Verdict, WM_KEYDOWN, WM_KEYUP, WM_SYSKEYDOWN, WM_SYSKEYUP};
use caps_hangul::overlay::{on_caps_timer, OverlayState, LBL_CAPS_OFF, LBL_CAPS_ON};
use caps_hangul::state::{init, KeyState};

fn configured() -> KeyState {
    let mut s = KeyState::new();
    init(&mut s, &Config::default());
    s
}

fn caps(wparam: u32, now_ms: u64, ready: bool) -> KeyEvent {
    KeyEvent {
        code: 0,
        wparam: wparam as usize,
        vk_code: 0x14,
        flags: 0,
        now_ms,
        overlay_ready: ready,
    }
}

#[test]
fn init_applies_config() {
    let s = configured();
    assert_eq!(s.threshold_ms(), 400);
    assert_eq!(s.short_press_vk(), VK_HANGUL);
    assert_eq!(s.long_press_vk(), VK_CAPITAL);
    assert!(!s.caps_down() && !s.long_fired() && !s.injecting());
    let raw = KeyState::new();
    assert_eq!(raw.short_press_vk(), 0);
    assert_eq!(raw.threshold_ms(), 400);
}

#[test]
fn short_press_with_overlay_switches_language() {
    let mut s = configured();
    let down = on_keyboard_event(&mut s, caps(WM_KEYDOWN, 1000, true));
    assert_eq!(down.verdict, Verdict::Swallow);
    assert_eq!(down.arm_timer_ms, Some(400));
    assert!(down.preread);
    assert_eq!(down.send_vk, None);
    assert!(s.caps_down());
    assert_eq!(s.caps_down_time_ms(), 1000);
    let up = on_keyboard_event(&mut s, caps(WM_KEYUP, 5000, true));
    assert_eq!(up.verdict, Verdict::Swallow);
    assert!(up.cancel_timer);
    assert_eq!(up.send_vk, Some(VK_HANGUL));
    assert!(up.show_language);
    assert!(!s.caps_down());
}

#[test]
fn long_press_through_timer_sends_caps_once() {
    let mut s = configured();
    let mut o = OverlayState::new(false);
    on_keyboard_event(&mut s, caps(WM_KEYDOWN, 1000, true));
    // auto-repeat while held changes nothing
    let rep = on_keyboard_event(&mut s, caps(WM_KEYDOWN, 1100, true));
    assert_eq!(rep.verdict, Verdict::Swallow);
    assert_eq!(rep.arm_timer_ms, None);
    assert!(!rep.preread);
    assert_eq!(s.caps_down_time_ms(), 1000);
    let t = on_caps_timer(&mut s, &mut o, false);
    assert_eq!(t.send_vk, Some(VK_CAPITAL));
    assert_eq!(t.show_label, Some(LBL_CAPS_ON));
    assert!(o.caps_on());
    assert!(s.long_fired());
    let up = on_keyboard_event(&mut s, caps(WM_KEYUP, 1600, true));
    assert_eq!(up.send_vk, None);
    assert!(up.cancel_timer);
    assert!(!up.show_language);
    assert!(!s.long_fired() && !s.caps_down());
    // a timer arriving after the release does nothing
    let stale = on_caps_timer(&mut s, &mut o, true);
    assert_eq!(stale.send_vk, None);
    assert_eq!(stale.show_label, None);
}

#[test]
fn caps_label_follows_state_read_before_toggle() {
    let mut s = configured();
    let mut o = OverlayState::new(false);
    on_keyboard_event(&mut s, caps(WM_SYSKEYDOWN, 10, true));
    let t = on_caps_timer(&mut s, &mut o, true);
    assert_eq!(t.show_label, Some(LBL_CAPS_OFF));
    assert!(!o.caps_on());
    on_keyboard_event(&mut s, caps(WM_SYSKEYUP, 900, true));
}

#[test]
fn without_overlay_held_time_decides() {
    let mut s = configured();
    let d = on_keyboard_event(&mut s, caps(WM_KEYDOWN, 1000, false));
    assert!(!d.preread);
    let up = on_keyboard_event(&mut s, caps(WM_KEYUP, 1399, false));
    assert_eq!(up.send_vk, Some(VK_HANGUL));
    assert!(!up.show_language);
    on_keyboard_event(&mut s, caps(WM_KEYDOWN, 2000, false));
    let up = on_keyboard_event(&mut s, caps(WM_KEYUP, 2400, false));
    assert_eq!(up.send_vk, Some(VK_CAPITAL));
    // clock going backwards counts as no time held
    on_keyboard_event(&mut s, caps(WM_KEYDOWN, 5000, false));
    let up = on_keyboard_event(&mut s, caps(WM_KEYUP, 10, false));
    assert_eq!(up.send_vk, Some(VK_HANGUL));
}

#[test]
fn other_events_pass_on() {
    let mut s = configured();
    let before = s;
    let mut e = caps(WM_KEYDOWN, 1, true);
    e.vk_code = 0x41;
    let out = on_keyboard_event(&mut s, e);
    assert_eq!(out.verdict, Verdict::PassOn);
    assert_eq!(out.send_vk, None);
    assert_eq!(s.caps_down(), before.caps_down());
    let mut e = caps(WM_KEYDOWN, 1, true);
    e.flags = 0x10;
    assert_eq!(on_keyboard_event(&mut s, e).verdict, Verdict::PassOn);
    let mut e = caps(WM_KEYDOWN, 1, true);
    e.code = -1;
    assert_eq!(on_keyboard_event(&mut s, e).verdict, Verdict::PassOn);
    let e = caps(0x0200, 1, true);
    assert_eq!(on_keyboard_event(&mut s, e).verdict, Verdict::PassOn);
    s.set_injecting(true);
    let out = on_keyboard_event(&mut s, caps(WM_KEYDOWN, 1, true));
    assert_eq!(out.verdict, Verdict::PassOn);
    assert!(!s.caps_down());
}

#[test]
fn custom_keys_are_sent_directly() {
    let mut s = KeyState::new();
    init(
        &mut s,
        &Config { long_press_threshold_ms: 100, short_press_vk: 0x20, long_press_vk: 0x21 },
    );
    let d = on_keyboard_event(&mut s, caps(WM_KEYDOWN, 0, true));
    assert_eq!(d.arm_timer_ms, Some(100));
    assert!(!d.preread);
    let up = on_keyboard_event(&mut s, caps(WM_KEYUP, 50, true));
    assert_eq!(up.send_vk, Some(0x20));
    assert!(!up.show_language);
    let mut o = OverlayState::new(false);
    on_keyboard_event(&mut s, caps(WM_KEYDOWN, 0, true));
    let t = on_caps_timer(&mut s, &mut o, false);
    assert_eq!(t.send_vk, Some(0x21));
    assert_eq!(t.show_label, None);
}

#[test]
fn threshold_is_cut_to_32_bits_for_the_timer() {
    let mut s = KeyState::new();
    init(
        &mut s,
        &Config { long_press_threshold_ms: 0x1_0000_0005, short_press_vk: 0x15, long_press_vk: 0x14 },
    );
    let d = on_keyboard_event(&mut s, caps(WM_KEYDOWN, 0, true));
    assert_eq!(d.arm_timer_ms, Some(5));
}

#[test]
fn one_action_per_press_with_many_repeats() {
    // with the timer firing between repeats
    let mut s = configured();
    let mut o = OverlayState::new(false);
    let mut sent = Vec::new();
    sent.extend(on_keyboard_event(&mut s, caps(WM_KEYDOWN, 1000, true)).send_vk);
    for t in 0..30 {
        sent.extend(on_keyboard_event(&mut s, caps(WM_KEYDOWN, 1030 + t * 30, true)).send_vk);
        if t == 12 {
            sent.extend(on_caps_timer(&mut s, &mut o, false).send_vk);
        }
    }
    sent.extend(on_keyboard_event(&mut s, caps(WM_SYSKEYUP, 2000, true)).send_vk);
    assert_eq!(sent, vec![VK_CAPITAL]);
    assert!(!s.caps_down() && !s.long_fired() && !s.injecting());

    // without the timer: the release decides
    let mut sent = Vec::new();
    sent.extend(on_keyboard_event(&mut s, caps(WM_SYSKEYDOWN, 3000, true)).send_vk);
    for t in 0..10 {
        sent.extend(on_keyboard_event(&mut s, caps(WM_KEYDOWN, 3010 + t, true)).send_vk);
    }
    sent.extend(on_keyboard_event(&mut s, caps(WM_KEYUP, 3100, true)).send_vk);
    assert_eq!(sent, vec![VK_HANGUL]);

    // without the overlay a long hold with repeats sends the long-press key once
    let mut sent = Vec::new();
    sent.extend(on_keyboard_event(&mut s, caps(WM_KEYDOWN, 5000, false)).send_vk);
    for t in 0..20 {
        sent.extend(on_keyboard_event(&mut s, caps(WM_KEYDOWN, 5000 + t * 50, false)).send_vk);
    }
    sent.extend(on_keyboard_event(&mut s, caps(WM_KEYUP, 6000, false)).send_vk);
    assert_eq!(sent, vec![VK_CAPITAL]);
}

#[test]
fn events_while_sending_pass_on() {
    let mut s = configured();
    s.set_injecting(true);
    let out = on_keyboard_event(&mut s, caps(WM_KEYDOWN, 10, true));
    assert_eq!(out.verdict, Verdict::PassOn);
    assert!(!s.caps_down());
    s.set_injecting(false);
    let out = on_keyboard_event(&mut s, caps(WM_KEYDOWN, 20, true));
    assert_eq!(out.verdict, Verdict::Swallow);
    assert!(s.caps_down());
}
