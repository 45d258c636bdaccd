//! Settings and the short/long press rule.
//!
//! The first version has no settings file: the values are compile-time defaults.
use vstd::prelude::*;

verus! {

/// Virtual-key code of the Caps Lock key (`VK_CAPITAL`, a fixed Win32 value).
pub const VK_CAPITAL: u16 = 0x14;

/// Virtual-key code of the Korean/English switch key (`VK_HANGUL`, a fixed Win32 value).
pub const VK_HANGUL: u16 = 0x15;

/// Held time (ms) from which a press counts as long.
pub const LONG_PRESS_THRESHOLD_MS: u64 = 400;

/// Run-time settings.
#[derive(Clone, Copy, Debug)]
pub struct Config {
    /// Held time (ms) from which a press counts as long.
    pub long_press_threshold_ms: u64,
    /// Virtual key sent for a short press (default `VK_HANGUL`).
    pub short_press_vk: u16,
    /// Virtual key sent for a long press (default `VK_CAPITAL`).
    pub long_press_vk: u16,
}

impl Default for Config {
    fn default() -> (c: Self)
        ensures
            c.long_press_threshold_ms == LONG_PRESS_THRESHOLD_MS,
            c.short_press_vk == VK_HANGUL,
            c.long_press_vk == VK_CAPITAL,
    {
        Config {
            long_press_threshold_ms: LONG_PRESS_THRESHOLD_MS,
            short_press_vk: VK_HANGUL,
            long_press_vk: VK_CAPITAL,
        }
    }
}

/// Classification of one Caps Lock press by how long it was held.
#[derive(Debug, PartialEq, Eq, Clone, Copy, Structural)]
pub enum PressKind {
    /// Short press: switch between Korean and English input.
    Short,
    /// Long press: toggle Caps Lock.
    Long,
}

/// The press kind for a held time and a threshold.
pub open spec fn press_kind(elapsed_ms: int, threshold_ms: int) -> PressKind {
    if elapsed_ms >= threshold_ms {
        PressKind::Long
    } else {
        PressKind::Short
    }
}

/// Classifies a press by comparing the held time with the threshold.
/// A press held exactly for the threshold counts as long.
pub fn classify_press(elapsed_ms: u64, threshold_ms: u64) -> (kind: PressKind)
    ensures
        kind == press_kind(elapsed_ms as int, threshold_ms as int),
{
    if elapsed_ms >= threshold_ms {
        PressKind::Long
    } else {
        PressKind::Short
    }
}

/// Holding a key longer never turns a long press into a short one.
pub proof fn lemma_press_kind_monotonic(e1: int, e2: int, threshold_ms: int)
    requires
        e1 <= e2,
        press_kind(e1, threshold_ms) == PressKind::Long,
    ensures
        press_kind(e2, threshold_ms) == PressKind::Long,
{
}

/// The threshold itself is the shortest long press: a press held exactly the
/// threshold is long, anything held less is short.
pub proof fn lemma_threshold_boundary(elapsed_ms: int, threshold_ms: int)
    ensures
        press_kind(threshold_ms, threshold_ms) == PressKind::Long,
        elapsed_ms < threshold_ms ==> press_kind(elapsed_ms, threshold_ms) == PressKind::Short,
        elapsed_ms >= threshold_ms ==> press_kind(elapsed_ms, threshold_ms) == PressKind::Long,
{
}

} // verus!
