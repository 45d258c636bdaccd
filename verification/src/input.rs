//! Synthetic key input: the key events that sending one virtual key consists of.
use vstd::prelude::*;

verus! {

/// `KEYEVENTF_KEYUP`.
pub const KEYEVENTF_KEYUP: u32 = 0x0002;

/// One keyboard `INPUT` record, as plain values.
#[derive(Clone, Copy, Debug, PartialEq, Eq, Structural)]
pub struct KeyInput {
    /// `wVk`.
    pub vk: u16,
    /// `wScan` (always 0: the virtual key is used).
    pub scan: u16,
    /// `dwFlags`: `KEYEVENTF_KEYUP` for a release, else 0.
    pub flags: u32,
}

/// A key-down or key-up record for `vk`.
pub fn make_key_input(vk: u16, key_up: bool) -> (k: KeyInput)
    ensures
        k == (KeyInput { vk, scan: 0, flags: if key_up { KEYEVENTF_KEYUP } else { 0 } }),
{
    KeyInput { vk, scan: 0, flags: if key_up { KEYEVENTF_KEYUP } else { 0 } }
}

/// The records that sending `vk` once consists of: a down/up pair, or nothing
/// for the virtual key 0 (no key configured).
pub fn key_inputs(vk: u16) -> (ks: Vec<KeyInput>)
    ensures
        vk == 0 ==> ks@.len() == 0,
        vk != 0 ==> ks@ == seq![
            KeyInput { vk, scan: 0, flags: 0 },
            KeyInput { vk, scan: 0, flags: KEYEVENTF_KEYUP },
        ],
{
    let mut ks: Vec<KeyInput> = Vec::new();
    if vk == 0 {
        return ks;
    }
    ks.push(make_key_input(vk, false));
    ks.push(make_key_input(vk, true));
    ks
}

} // verus!
