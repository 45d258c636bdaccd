use caps_hangul::config::{classify_press, Config, PressKind, LONG_PRESS_THRESHOLD_MS, VK_CAPITAL, VK_HANGUL};

#[test]
fn elapsed_below_threshold_is_short() {
    assert_eq!(classify_press(100, 250), PressKind::Short);
}

#[test]
fn elapsed_at_threshold_is_long() {
    assert_eq!(classify_press(250, 250), PressKind::Long);
}

#[test]
fn elapsed_above_threshold_is_long() {
    assert_eq!(classify_press(500, 250), PressKind::Long);
}

#[test]
fn default_config_values() {
    let c = Config::default();
    assert_eq!(c.long_press_threshold_ms, 400);
    assert_eq!(c.long_press_threshold_ms, LONG_PRESS_THRESHOLD_MS);
    assert_eq!(c.short_press_vk, 0x15);
    assert_eq!(c.long_press_vk, 0x14);
    assert_eq!(VK_HANGUL, 0x15);
    assert_eq!(VK_CAPITAL, 0x14);
}

#[test]
fn press_kind_edges() {
    assert_eq!(classify_press(0, 0), PressKind::Long);
    assert_eq!(classify_press(249, 250), PressKind::Short);
    assert_eq!(classify_press(u64::MAX, u64::MAX), PressKind::Long);
    assert_eq!(classify_press(0, 1), PressKind::Short);
}
