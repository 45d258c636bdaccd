use caps_hangul::overlay::{
    begin_show, center_origin, effective_dpi, fade_tick, handle_language_preread,
    handle_language_show, is_ready, label_text, label_wide, metrics_96, overlay_message, rgb,
    FadeStep, OverlayMessage, OverlayState, LBL_CAPS_OFF, LBL_CAPS_ON, LBL_ENGLISH, LBL_HANGUL,
    PREREAD_HANGUL, PREREAD_UNKNOWN, TIMER_CAPS, TIMER_FADE, TIMER_HOLD, WM_APP_LANG_PREREAD,
    WM_APP_LANG_SHOW, WM_APP_SHOW, WM_PAINT, WM_TIMER,
};

#[test]
fn readiness() {
    let mut o = OverlayState::new(true);
    assert!(!is_ready(&o));
    assert!(o.caps_on());
    o.mark_ready();
    assert!(is_ready(&o));
}

#[test]
fn switch_label_uses_preread_then_estimate() {
    let mut o = OverlayState::new(false);
    handle_language_preread(&mut o, Some(true));
    assert_eq!(o.preread(), PREREAD_HANGUL);
    assert_eq!(handle_language_show(&mut o), LBL_ENGLISH);
    assert!(!o.lang_hangul());
    assert_eq!(o.preread(), PREREAD_UNKNOWN);
    handle_language_preread(&mut o, Some(false));
    assert_eq!(handle_language_show(&mut o), LBL_HANGUL);
    assert!(o.lang_hangul());
    // nothing pre-read: the estimate is toggled
    handle_language_preread(&mut o, None);
    assert_eq!(handle_language_show(&mut o), LBL_ENGLISH);
    assert_eq!(handle_language_show(&mut o), LBL_HANGUL);
}

#[test]
fn fade_runs_down_to_hide() {
    let mut o = OverlayState::new(false);
    begin_show(&mut o, LBL_CAPS_ON);
    assert_eq!(o.current_label(), LBL_CAPS_ON);
    assert_eq!(o.fade_alpha(), 150);
    let mut steps = Vec::new();
    loop {
        let s = fade_tick(&mut o);
        steps.push(s);
        if s == FadeStep::Hide {
            break;
        }
    }
    assert_eq!(steps.len(), 7);
    assert_eq!(steps[0], FadeStep::Dim(128));
    assert_eq!(steps[5], FadeStep::Dim(18));
    assert_eq!(o.fade_alpha(), 0);
}

#[test]
fn colours_and_metrics() {
    assert_eq!(rgb(48, 48, 52), 0x0034_3030);
    assert_eq!(rgb(255, 255, 255), 0x00FF_FFFF);
    assert_eq!(rgb(0, 102, 204), 0x00CC_6600);
    assert_eq!(metrics_96(LBL_HANGUL), (88, 88, 22, 52, true));
    assert_eq!(metrics_96(LBL_ENGLISH), (88, 88, 22, 52, false));
    assert_eq!(metrics_96(LBL_CAPS_OFF), (200, 88, 22, 32, false));
    assert_eq!(label_text(LBL_CAPS_ON), "CAPS ON");
    assert_eq!(label_text(9), "");
    let want: Vec<u16> = "한".encode_utf16().chain(std::iter::once(0)).collect();
    assert_eq!(label_wide(LBL_HANGUL), want);
}

#[test]
fn centring_and_dpi() {
    assert_eq!(center_origin(0, 1920, 88), 916);
    assert_eq!(center_origin(-1920, 0, 200), -1060);
    // box wider than the monitor: rounds toward zero like Rust division
    assert_eq!(center_origin(0, 100, 201), -50);
    assert_eq!(effective_dpi(0), 96);
    assert_eq!(effective_dpi(144), 144);
}

#[test]
fn message_classes() {
    assert_eq!(overlay_message(WM_APP_LANG_PREREAD, 0), OverlayMessage::LanguagePreread);
    assert_eq!(overlay_message(WM_APP_LANG_SHOW, 0), OverlayMessage::LanguageShow);
    assert_eq!(overlay_message(WM_APP_SHOW, 3), OverlayMessage::Show(3));
    assert_eq!(overlay_message(WM_TIMER, TIMER_HOLD), OverlayMessage::HoldOver);
    assert_eq!(overlay_message(WM_TIMER, TIMER_FADE), OverlayMessage::FadeStep);
    assert_eq!(overlay_message(WM_TIMER, TIMER_CAPS), OverlayMessage::CapsTimer);
    assert_eq!(overlay_message(WM_TIMER, 9), OverlayMessage::OtherTimer);
    assert_eq!(overlay_message(WM_PAINT, 0), OverlayMessage::Paint);
    assert_eq!(overlay_message(1, 0), OverlayMessage::Default);
}

#[test]
fn ready_only_after_marking() {
    let mut o = OverlayState::new(false);
    handle_language_preread(&mut o, Some(true));
    handle_language_show(&mut o);
    begin_show(&mut o, LBL_CAPS_OFF);
    fade_tick(&mut o);
    assert!(!is_ready(&o));
    o.mark_ready();
    assert!(is_ready(&o));
    begin_show(&mut o, LBL_HANGUL);
    while fade_tick(&mut o) != FadeStep::Hide {}
    handle_language_preread(&mut o, None);
    assert!(is_ready(&o));
}
