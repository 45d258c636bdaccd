//! The IME (Korean/English) state reader: the decisions of the host side and the
//! record that the injected reader writes.
//!
//! The conversion mode lives in the input context of the thread that has the
//! keyboard focus, possibly in another process. The application injects a small
//! reader DLL into that thread (directly when the target has the same architecture,
//! through a helper program of the target's architecture otherwise); the DLL reads
//! the mode in-process and writes a [`SharedRecord`] into shared memory.
use vstd::prelude::*;
use vstd::string::StringExecFns;

verus! {

/// `IMAGE_FILE_MACHINE_I386`.
pub const IMAGE_FILE_MACHINE_I386: u16 = 0x014C;
/// `IMAGE_FILE_MACHINE_AMD64`.
pub const IMAGE_FILE_MACHINE_AMD64: u16 = 0x8664;
/// `IMAGE_FILE_MACHINE_ARM64`.
pub const IMAGE_FILE_MACHINE_ARM64: u16 = 0xAA64;

/// Longest wait (ms) for the in-process reader's reply.
pub const READ_TIMEOUT_MS: u32 = 120;
/// Longest wait (ms) for the helper program (start, inject, read).
pub const SIDECAR_TIMEOUT_MS: u32 = 400;
/// `OpenProcess` access right used to query the architecture.
pub const PROCESS_QUERY_LIMITED_INFORMATION: u32 = 0x1000;
/// Process creation flag: no console window.
pub const CREATE_NO_WINDOW: u32 = 0x0800_0000;
/// Name of the shared memory object (agreed with the reader DLL).
pub const MAP_NAME: &'static str = "CapsHangulImeReadMap";
/// Name of the reply event (agreed with the reader DLL and the helper).
pub const EVT_NAME: &'static str = "CapsHangulImeReadEvt";
/// Exported hook procedure of the reader DLL.
pub const HOOK_EXPORT: &'static str = "caps_hangul_ime_hook";
/// `VT_I4`: the VARIANT type of a valid conversion mode.
pub const VT_I4: u32 = 3;
/// `IME_CMODE_NATIVE`: the conversion-mode bit of Korean input.
pub const IME_CMODE_NATIVE: i32 = 0x0001;

/// Processor architecture of a process.
#[derive(Clone, Copy, Debug, PartialEq, Eq, Structural)]
pub enum Arch {
    X86,
    X64,
    Arm64,
}

/// Architecture named by an `IMAGE_FILE_MACHINE_*` code; `None` for other codes.
pub fn machine_arch(machine: u16) -> (a: Option<Arch>)
    ensures
        a == (if machine == IMAGE_FILE_MACHINE_I386 {
            Some(Arch::X86)
        } else if machine == IMAGE_FILE_MACHINE_AMD64 {
            Some(Arch::X64)
        } else if machine == IMAGE_FILE_MACHINE_ARM64 {
            Some(Arch::Arm64)
        } else {
            None
        }),
{
    match machine {
        IMAGE_FILE_MACHINE_I386 => Some(Arch::X86),
        IMAGE_FILE_MACHINE_AMD64 => Some(Arch::X64),
        IMAGE_FILE_MACHINE_ARM64 => Some(Arch::Arm64),
        _ => None,
    }
}

/// Architecture a process runs as, from the two machine codes that
/// `IsWow64Process2` reports: a process machine of 0 means the process runs
/// natively, so the native machine is its architecture.
pub fn process_arch(process_machine: u16, native_machine: u16) -> (a: Option<Arch>)
    ensures
        a == machine_arch_spec(if process_machine == 0 { native_machine } else { process_machine }),
{
    let machine = if process_machine == 0 {
        native_machine
    } else {
        process_machine
    };
    machine_arch(machine)
}

pub open spec fn machine_arch_spec(machine: u16) -> Option<Arch> {
    if machine == IMAGE_FILE_MACHINE_I386 {
        Some(Arch::X86)
    } else if machine == IMAGE_FILE_MACHINE_AMD64 {
        Some(Arch::X64)
    } else if machine == IMAGE_FILE_MACHINE_ARM64 {
        Some(Arch::Arm64)
    } else {
        None
    }
}

pub open spec fn arch_suffix_spec(a: Arch) -> Seq<char> {
    match a {
        Arch::X86 => "x86"@,
        Arch::X64 => "x64"@,
        Arch::Arm64 => "arm64"@,
    }
}

/// File-name suffix of an architecture: "x86", "x64" or "arm64".
pub fn arch_suffix(a: Arch) -> (s: &'static str)
    ensures
        s@ == arch_suffix_spec(a),
{
    match a {
        Arch::X86 => "x86",
        Arch::X64 => "x64",
        Arch::Arm64 => "arm64",
    }
}

/// Name of the reader DLL built for an architecture (the helper program loads it).
pub fn dll_name(a: Arch) -> (s: &'static str)
    ensures
        a == Arch::X86 ==> s@ == "caps-hangul-tsf-x86.dll"@,
        a == Arch::X64 ==> s@ == "caps-hangul-tsf-x64.dll"@,
        a == Arch::Arm64 ==> s@ == "caps-hangul-tsf-arm64.dll"@,
{
    match a {
        Arch::X86 => "caps-hangul-tsf-x86.dll",
        Arch::X64 => "caps-hangul-tsf-x64.dll",
        Arch::Arm64 => "caps-hangul-tsf-arm64.dll",
    }
}

/// `prefix + middle + suffix` as a new string.
fn join3(prefix: &str, middle: &str, suffix: &str) -> (s: String)
    ensures
        s@ == prefix@ + middle@ + suffix@,
{
    let mut s = prefix.to_owned();
    s.append(middle);
    s.append(suffix);
    s
}

/// File names tried, in order, for the reader DLL of the application's own
/// architecture: the packaged name with the architecture suffix, then the plain
/// build output name.
pub fn dll_candidates(own: Arch) -> (names: Vec<String>)
    ensures
        names@.len() == 2,
        names@[0]@ == "caps-hangul-tsf-"@ + arch_suffix_spec(own) + ".dll"@,
        names@[1]@ == "caps_hangul_tsf.dll"@,
{
    let mut names: Vec<String> = Vec::new();
    names.push(join3("caps-hangul-tsf-", arch_suffix(own), ".dll"));
    names.push("caps_hangul_tsf.dll".to_owned());
    names
}

/// File names tried, in order, for the helper program of a foreign architecture.
pub fn reader_candidates(arch: Arch) -> (names: Vec<String>)
    ensures
        names@.len() == 2,
        names@[0]@ == "caps-hangul-reader-"@ + arch_suffix_spec(arch) + ".exe"@,
        names@[1]@ == "caps-hangul-reader.exe"@,
{
    let mut names: Vec<String> = Vec::new();
    names.push(join3("caps-hangul-reader-", arch_suffix(arch), ".exe"));
    names.push("caps-hangul-reader.exe".to_owned());
    names
}

/// The record that the reader writes into shared memory. All fields are four
/// bytes, so the layout is the same for every architecture.
#[derive(Clone, Copy, Debug, PartialEq, Eq, Structural)]
pub struct SharedRecord {
    /// Incremented by every write.
    pub seq: u32,
    /// Thread that did the read.
    pub tid: u32,
    /// `HRESULT` of the read (0 = success).
    pub hr: i32,
    /// VARIANT type tag seen (`VT_I4` when valid).
    pub vt: u32,
    /// Raw conversion mode.
    pub mode: i32,
    /// 1 when the native (Korean) bit is set, else 0.
    pub native: u32,
}

/// The reading in a record: trusted only for a successful read of a `VT_I4`.
pub open spec fn reading_of(r: SharedRecord) -> Option<bool> {
    if r.hr == 0 && r.vt == VT_I4 {
        Some(r.native != 0)
    } else {
        None
    }
}

/// Interprets a reply: `Some(true)` = Korean, `Some(false)` = English, `None` = no
/// usable reading (failed read, or a VARIANT that is not `VT_I4`).
pub fn interpret(r: &SharedRecord) -> (v: Option<bool>)
    ensures
        v == reading_of(*r),
{
    if r.hr == 0 && r.vt == VT_I4 {
        Some(r.native != 0)
    } else {
        None
    }
}

/// `x + 1` modulo 2^32.
pub open spec fn next_seq(x: u32) -> u32 {
    if x == u32::MAX {
        0
    } else {
        (x + 1) as u32
    }
}

/// The record the reader writes after a read attempt: `Ok((vt, mode))` for a read
/// that returned a VARIANT, `Err(hr)` for a failed one. The sequence number
/// advances (wrapping) so that the host can see that something was written.
pub open spec fn recorded(prev: SharedRecord, tid: u32, outcome: Result<(u32, i32), i32>) -> SharedRecord {
    match outcome {
        Ok((vt, mode)) => SharedRecord {
            seq: next_seq(prev.seq),
            tid,
            hr: 0,
            vt,
            mode,
            native: if mode & IME_CMODE_NATIVE != 0 {
                1u32
            } else {
                0u32
            },
        },
        Err(hr) => SharedRecord { seq: next_seq(prev.seq), tid, hr, vt: 0, mode: 0, native: 0 },
    }
}

/// Builds the record the reader writes after a read attempt (see [`recorded`]).
pub fn record_reading(prev: &SharedRecord, tid: u32, outcome: Result<(u32, i32), i32>) -> (r:
    SharedRecord)
    ensures
        r == recorded(*prev, tid, outcome),
{
    let seq = prev.seq.wrapping_add(1);
    match outcome {
        Ok((vt, mode)) => {
            let native: u32 = if (mode & IME_CMODE_NATIVE) != 0 {
                1
            } else {
                0
            };
            SharedRecord { seq, tid, hr: 0, vt, mode, native }
        },
        Err(hr) => SharedRecord { seq, tid, hr, vt: 0, mode: 0, native: 0 },
    }
}

/// Result of the helper route: a reading only if the record changed since the
/// helper was started.
pub fn sidecar_result(old_seq: u32, r: &SharedRecord) -> (v: Option<bool>)
    ensures
        v == (if r.seq == old_seq {
            None
        } else {
            reading_of(*r)
        }),
{
    if r.seq == old_seq {
        None
    } else {
        interpret(r)
    }
}

/// How to read the focused thread's IME state.
#[derive(Clone, Copy, Debug, PartialEq, Eq, Structural)]
pub enum ReadRoute {
    /// Start the helper program of this architecture.
    Sidecar(Arch),
    /// Inject the reader DLL from this process.
    InProcess,
    /// No way to read: fall back to the estimate.
    Unavailable,
}

/// Chooses the read route: a target of another (known) architecture goes through
/// the helper; a target of the same or an unknown architecture is read in-process,
/// which needs the application's own reader DLL.
pub fn choose_route(target: Option<Arch>, own: Arch, dll_loaded: bool) -> (route: ReadRoute)
    ensures
        route == (match target {
            Some(a) => if a != own {
                ReadRoute::Sidecar(a)
            } else if dll_loaded {
                ReadRoute::InProcess
            } else {
                ReadRoute::Unavailable
            },
            None => if dll_loaded {
                ReadRoute::InProcess
            } else {
                ReadRoute::Unavailable
            },
        }),
{
    match target {
        Some(a) => {
            if a != own {
                return ReadRoute::Sidecar(a);
            }
        },
        None => {},
    }
    if dll_loaded {
        ReadRoute::InProcess
    } else {
        ReadRoute::Unavailable
    }
}

/// What the host reads back is what the reader wrote: after a successful `VT_I4`
/// read of `mode`, the host's interpretation is the native bit of `mode`; after a
/// read that failed or gave another VARIANT type it is `None`. Through the helper
/// route the same holds, since every write changes the sequence number.
pub proof fn lemma_read_back(prev: SharedRecord, tid: u32, outcome: Result<(u32, i32), i32>)
    ensures
        recorded(prev, tid, outcome).seq != prev.seq,
        match outcome {
            Ok((vt, mode)) => reading_of(recorded(prev, tid, outcome)) == (if vt == VT_I4 {
                Some(mode & IME_CMODE_NATIVE != 0)
            } else {
                None
            }),
            Err(hr) => hr != 0 ==> reading_of(recorded(prev, tid, outcome)) is None,
        },
{
}

} // verus!
