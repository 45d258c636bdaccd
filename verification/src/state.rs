//! The state that the keyboard hook and the overlay's Caps Lock timer share.
//!
//! The Win32 callbacks run on the message-loop thread; the application keeps one
//! `KeyState` there and hands it to the decision functions of `hook` and `overlay`.
//! Its fields are private: it changes only through the transitions below, each
//! stated over the view [`KeyStateView`].
use vstd::prelude::*;
use crate::config::{Config, LONG_PRESS_THRESHOLD_MS};

verus! {

/// Shared key-handling state.
#[derive(Clone, Copy, Debug)]
pub struct KeyState {
    caps_down: bool,
    caps_down_time_ms: u64,
    injecting: bool,
    long_fired: bool,
    threshold_ms: u64,
    short_press_vk: u16,
    long_press_vk: u16,
}

/// What a [`KeyState`] holds.
pub struct KeyStateView {
    /// The Caps Lock key is physically held (used to ignore auto-repeat).
    pub caps_down: bool,
    /// Tick (ms) at which the current press started.
    pub caps_down_time_ms: u64,
    /// A synthetic key is being sent (re-entry guard).
    pub injecting: bool,
    /// The long-press action already ran from the threshold timer for this press.
    pub long_fired: bool,
    /// Held time (ms) from which a press counts as long.
    pub threshold_ms: u64,
    /// Virtual key sent for a short press.
    pub short_press_vk: u16,
    /// Virtual key sent for a long press.
    pub long_press_vk: u16,
}

impl View for KeyState {
    type V = KeyStateView;

    closed spec fn view(&self) -> KeyStateView {
        KeyStateView {
            caps_down: self.caps_down,
            caps_down_time_ms: self.caps_down_time_ms,
            injecting: self.injecting,
            long_fired: self.long_fired,
            threshold_ms: self.threshold_ms,
            short_press_vk: self.short_press_vk,
            long_press_vk: self.long_press_vk,
        }
    }
}

/// The state before any key event: nothing held, default threshold, no keys configured.
pub open spec fn initial_state() -> KeyStateView {
    KeyStateView {
        caps_down: false,
        caps_down_time_ms: 0,
        injecting: false,
        long_fired: false,
        threshold_ms: LONG_PRESS_THRESHOLD_MS,
        short_press_vk: 0,
        long_press_vk: 0,
    }
}

impl KeyState {
    /// The state before any key event.
    pub fn new() -> (s: KeyState)
        ensures
            s@ == initial_state(),
    {
        KeyState {
            caps_down: false,
            caps_down_time_ms: 0,
            injecting: false,
            long_fired: false,
            threshold_ms: LONG_PRESS_THRESHOLD_MS,
            short_press_vk: 0,
            long_press_vk: 0,
        }
    }

    /// Marks the start (`true`) or the end (`false`) of sending synthetic keys; the
    /// hook passes on every event in between.
    pub fn set_injecting(&mut self, on: bool)
        ensures
            final(self)@ == (KeyStateView { injecting: on, ..old(self)@ }),
    {
        self.injecting = on;
    }

    /// A press starts at `now_ms`: the key is held, no long press has run yet.
    pub fn press(&mut self, now_ms: u64)
        ensures
            final(self)@ == (KeyStateView {
                caps_down: true,
                caps_down_time_ms: now_ms,
                long_fired: false,
                ..old(self)@
            }),
    {
        self.caps_down = true;
        self.caps_down_time_ms = now_ms;
        self.long_fired = false;
    }

    /// The press ends: the key is no longer held and the long-press mark is cleared.
    pub fn release(&mut self)
        ensures
            final(self)@ == (KeyStateView { caps_down: false, long_fired: false, ..old(self)@ }),
    {
        self.caps_down = false;
        self.long_fired = false;
    }

    /// The long-press timer ran the long-press action for the current press.
    pub fn mark_long_fired(&mut self)
        ensures
            final(self)@ == (KeyStateView { long_fired: true, ..old(self)@ }),
    {
        self.long_fired = true;
    }

    pub fn caps_down(&self) -> (b: bool)
        ensures
            b == self@.caps_down,
    {
        self.caps_down
    }

    pub fn caps_down_time_ms(&self) -> (t: u64)
        ensures
            t == self@.caps_down_time_ms,
    {
        self.caps_down_time_ms
    }

    pub fn injecting(&self) -> (b: bool)
        ensures
            b == self@.injecting,
    {
        self.injecting
    }

    pub fn long_fired(&self) -> (b: bool)
        ensures
            b == self@.long_fired,
    {
        self.long_fired
    }

    pub fn threshold_ms(&self) -> (t: u64)
        ensures
            t == self@.threshold_ms,
    {
        self.threshold_ms
    }

    pub fn short_press_vk(&self) -> (vk: u16)
        ensures
            vk == self@.short_press_vk,
    {
        self.short_press_vk
    }

    pub fn long_press_vk(&self) -> (vk: u16)
        ensures
            vk == self@.long_press_vk,
    {
        self.long_press_vk
    }
}

/// Applies the settings to the shared state. Called once before the message loop.
pub fn init(state: &mut KeyState, config: &Config)
    ensures
        final(state)@ == (KeyStateView {
            threshold_ms: config.long_press_threshold_ms,
            short_press_vk: config.short_press_vk,
            long_press_vk: config.long_press_vk,
            ..old(state)@
        }),
{
    state.threshold_ms = config.long_press_threshold_ms;
    state.short_press_vk = config.short_press_vk;
    state.long_press_vk = config.long_press_vk;
}

} // verus!
