//! Command line of the helper program that injects the reader DLL into a process
//! of its own architecture: `caps-hangul-reader <target_thread_id> <target_hwnd>`.
use vstd::prelude::*;
use crate::text::{chars_of, decimal, lemma_parse_decimal, parse_u64_at, parse_u64_spec};

verus! {

/// Exit code for a bad command line.
pub const EXIT_USAGE: i32 = 2;
/// `OpenEventW` access: `EVENT_MODIFY_STATE`.
pub const EVENT_MODIFY_STATE: u32 = 0x0002;
/// `OpenEventW` access: `SYNCHRONIZE`.
pub const SYNCHRONIZE: u32 = 0x0010_0000;
/// Longest wait (ms) for the reader DLL's reply.
pub const READ_TIMEOUT_MS: u32 = 200;

/// Thread id and window handle from the arguments (after the program name). A
/// thread id of 0 would make the hook global, so it is refused like a missing or
/// malformed argument.
pub open spec fn reader_args_spec(args: Seq<Seq<char>>) -> Result<(u32, usize), i32> {
    if args.len() < 1 || parse_u64_spec(args[0]) is None || parse_u64_spec(args[0])->0 > u32::MAX {
        Err(EXIT_USAGE)
    } else if args.len() < 2 || parse_u64_spec(args[1]) is None || parse_u64_spec(args[1])->0
        > usize::MAX {
        Err(EXIT_USAGE)
    } else if parse_u64_spec(args[0])->0 == 0 {
        Err(EXIT_USAGE)
    } else {
        Ok((parse_u64_spec(args[0])->0 as u32, parse_u64_spec(args[1])->0 as usize))
    }
}

fn parse_whole(s: &str) -> (r: Option<u64>)
    ensures
        r == parse_u64_spec(s@),
{
    let cs = chars_of(s);
    assert(cs@.subrange(0, cs@.len() as int) =~= cs@);
    parse_u64_at(&cs, 0, cs.len())
}

/// Parses the helper's arguments (program name excluded).
pub fn parse_reader_args(args: &Vec<String>) -> (r: Result<(u32, usize), i32>)
    ensures
        r == reader_args_spec(args@.map_values(|a: String| a@)),
{
    let ghost views = args@.map_values(|a: String| a@);
    if args.len() < 1 {
        return Err(EXIT_USAGE);
    }
    let tid = match parse_whole(args[0].as_str()) {
        Some(t) => t,
        None => {
            return Err(EXIT_USAGE);
        },
    };
    if tid > u32::MAX as u64 {
        return Err(EXIT_USAGE);
    }
    if args.len() < 2 {
        return Err(EXIT_USAGE);
    }
    let hwnd = match parse_whole(args[1].as_str()) {
        Some(h) => h,
        None => {
            return Err(EXIT_USAGE);
        },
    };
    if hwnd > usize::MAX as u64 {
        return Err(EXIT_USAGE);
    }
    if tid == 0 {
        return Err(EXIT_USAGE);
    }
    Ok((tid as u32, hwnd as usize))
}

/// Any command line whose first two arguments are numbers, the first a non-zero
/// value that fits in 32 bits and the second one that fits in `usize`, is
/// accepted as exactly those two values (further arguments are ignored); every
/// other command line is refused with the usage exit code.
pub proof fn lemma_reader_args_accepts_numbers(args: Seq<Seq<char>>)
    ensures
        reader_args_spec(args) matches Ok((tid, hwnd)) ==> args.len() >= 2 && parse_u64_spec(args[0])
            == Some(tid as u64) && parse_u64_spec(args[1]) == Some(hwnd as u64) && tid != 0,
        (args.len() >= 2 && parse_u64_spec(args[0]) is Some && 0 < parse_u64_spec(args[0])->0
            <= u32::MAX && parse_u64_spec(args[1]) is Some && parse_u64_spec(args[1])->0
            <= usize::MAX) ==> reader_args_spec(args)
            == Ok::<(u32, usize), i32>((parse_u64_spec(args[0])->0 as u32, parse_u64_spec(args[1])->0 as usize)),
        reader_args_spec(args) matches Err(code) ==> code == EXIT_USAGE,
{
}

/// The host's command line, a thread id and a window handle written in decimal,
/// is read back as exactly those values for every non-zero thread id and every
/// window handle.
pub proof fn lemma_reader_args_decimal(tid: u32, hwnd: usize)
    requires
        tid != 0,
    ensures
        reader_args_spec(seq![decimal(tid as nat), decimal(hwnd as nat)]) == Ok::<(u32, usize), i32>(
            (tid, hwnd),
        ),
{
    lemma_parse_decimal(tid as u64);
    lemma_parse_decimal(hwnd as u64);
    lemma_reader_args_accepts_numbers(seq![decimal(tid as nat), decimal(hwnd as nat)]);
}

} // verus!
