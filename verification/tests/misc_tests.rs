use caps_hangul::ime::{
    arch_suffix, choose_route, dll_candidates, dll_name, interpret, machine_arch, process_arch,
    reader_candidates, record_reading, sidecar_result, Arch, ReadRoute, SharedRecord,
};
use caps_hangul::input::{key_inputs, make_key_input, KeyInput, KEYEVENTF_KEYUP};
use caps_hangul::reader::parse_reader_args;
use caps_hangul::single_instance::{acquire_outcome, Acquire};
use caps_hangul::tray::{
    about_title, add_needed, after_add_attempt, control_font, dialog_command, dialog_layout_96,
    forget_icon, menu_choice, set_sz, take_icon, tray_action, version_line, DialogCommand, FontRole,
    MenuChoice, RetryTimer, TrayAction, TrayState, ID_CLOSE, ID_HEADER_ICON, ID_LICENSE, ID_LINK,
    ID_TITLE, TRAY_TIP, WM_DESTROY, WM_TIMER, WM_TRAY,
};

#[test]
fn machine_codes() {
    assert_eq!(machine_arch(0x014C), Some(Arch::X86));
    assert_eq!(machine_arch(0x8664), Some(Arch::X64));
    assert_eq!(machine_arch(0xAA64), Some(Arch::Arm64));
    assert_eq!(machine_arch(0x1234), None);
    assert_eq!(process_arch(0, 0x8664), Some(Arch::X64));
    assert_eq!(process_arch(0x014C, 0x8664), Some(Arch::X86));
    assert_eq!(process_arch(0, 0), None);
    assert_eq!(arch_suffix(Arch::Arm64), "arm64");
    assert_eq!(dll_name(Arch::X86), "caps-hangul-tsf-x86.dll");
}

#[test]
fn candidate_names() {
    assert_eq!(dll_candidates(Arch::X64), vec!["caps-hangul-tsf-x64.dll", "caps_hangul_tsf.dll"]);
    assert_eq!(
        reader_candidates(Arch::X86),
        vec!["caps-hangul-reader-x86.exe", "caps-hangul-reader.exe"]
    );
}

#[test]
fn routes() {
    assert_eq!(choose_route(Some(Arch::X86), Arch::X64, true), ReadRoute::Sidecar(Arch::X86));
    assert_eq!(choose_route(Some(Arch::X86), Arch::X64, false), ReadRoute::Sidecar(Arch::X86));
    assert_eq!(choose_route(Some(Arch::X64), Arch::X64, true), ReadRoute::InProcess);
    assert_eq!(choose_route(None, Arch::X64, true), ReadRoute::InProcess);
    assert_eq!(choose_route(None, Arch::X64, false), ReadRoute::Unavailable);
}

#[test]
fn records_round_trip() {
    let zero = SharedRecord { seq: 0, tid: 0, hr: 0, vt: 0, mode: 0, native: 0 };
    let r = record_reading(&zero, 7, Ok((3, 0x9)));
    assert_eq!(r, SharedRecord { seq: 1, tid: 7, hr: 0, vt: 3, mode: 9, native: 1 });
    assert_eq!(interpret(&r), Some(true));
    assert_eq!(sidecar_result(0, &r), Some(true));
    assert_eq!(sidecar_result(1, &r), None);
    let e = record_reading(&r, 8, Ok((0, 1)));
    assert_eq!(interpret(&e), None);
    let f = record_reading(&r, 8, Err(-2147467259));
    assert_eq!(f.hr, -2147467259);
    assert_eq!(interpret(&f), None);
    let en = record_reading(&r, 8, Ok((3, 0x8)));
    assert_eq!(interpret(&en), Some(false));
    let wrap = SharedRecord { seq: u32::MAX, ..zero };
    assert_eq!(record_reading(&wrap, 1, Ok((3, 1))).seq, 0);
}

#[test]
fn key_records() {
    assert_eq!(key_inputs(0), Vec::<KeyInput>::new());
    assert_eq!(
        key_inputs(0x15),
        vec![
            KeyInput { vk: 0x15, scan: 0, flags: 0 },
            KeyInput { vk: 0x15, scan: 0, flags: KEYEVENTF_KEYUP },
        ]
    );
    assert_eq!(make_key_input(0x14, true).flags, 2);
}

#[test]
fn reader_command_line() {
    let args = |v: &[&str]| v.iter().map(|s| s.to_string()).collect::<Vec<String>>();
    assert_eq!(parse_reader_args(&args(&["1234", "5678"])), Ok((1234, 5678)));
    assert_eq!(parse_reader_args(&args(&["0", "5678"])), Err(2));
    assert_eq!(parse_reader_args(&args(&["12"])), Err(2));
    assert_eq!(parse_reader_args(&args(&[])), Err(2));
    assert_eq!(parse_reader_args(&args(&["x", "1"])), Err(2));
    assert_eq!(parse_reader_args(&args(&["4294967296", "1"])), Err(2));
    assert_eq!(parse_reader_args(&args(&["4294967295", "+1"])), Ok((4294967295, 1)));
}

#[test]
fn mutex_outcomes() {
    assert_eq!(acquire_outcome(false, 5), Acquire::Failed(5));
    assert_eq!(acquire_outcome(true, 183), Acquire::AlreadyRunning);
    assert_eq!(acquire_outcome(true, 0), Acquire::First);
}

#[test]
fn tooltip_buffer() {
    let mut tip = [0xFFFFu16; 128];
    set_sz(&mut tip, TRAY_TIP);
    let want: Vec<u16> = TRAY_TIP.encode_utf16().collect();
    assert_eq!(&tip[..want.len()], want.as_slice());
    assert_eq!(tip[want.len()], 0);
    assert_eq!(tip[want.len() + 1], 0xFFFF);
    let mut small = [0xFFFFu16; 4];
    set_sz(&mut small, "abcdef");
    assert_eq!(small, [0x61, 0x62, 0x63, 0]);
    let mut empty: [u16; 0] = [];
    set_sz(&mut empty, "abc");
}

#[test]
fn tray_messages() {
    assert_eq!(tray_action(0xC123, 0, 0, 0xC123), TrayAction::Reregister);
    assert_eq!(tray_action(WM_TRAY, 0, 0x0205, 0xC123), TrayAction::ContextMenu);
    assert_eq!(tray_action(WM_TRAY, 0, 0x0203, 0xC123), TrayAction::InfoDialog);
    assert_eq!(tray_action(WM_TRAY, 0, 0x10203, 0xC123), TrayAction::InfoDialog);
    assert_eq!(tray_action(WM_TRAY, 0, 0x0200, 0xC123), TrayAction::Ignore);
    assert_eq!(tray_action(WM_DESTROY, 0, 0, 0xC123), TrayAction::Quit);
    assert_eq!(tray_action(WM_TIMER, 1, 0, 0xC123), TrayAction::Retry);
    assert_eq!(tray_action(WM_TIMER, 2, 0, 0xC123), TrayAction::Default);
    assert_eq!(menu_choice(1001), MenuChoice::Info);
    assert_eq!(menu_choice(1002), MenuChoice::Exit);
    assert_eq!(menu_choice(0), MenuChoice::Nothing);
    assert_eq!(dialog_command(0x0001_0065), DialogCommand::OpenLink);
    assert_eq!(dialog_command(2), DialogCommand::Close);
    assert_eq!(dialog_command(1), DialogCommand::Default);
}

#[test]
fn tray_retry_bookkeeping() {
    let mut t = TrayState::new();
    assert!(add_needed(&t, true));
    assert!(!add_needed(&t, false));
    assert_eq!(after_add_attempt(&mut t, false), RetryTimer::Arm);
    assert!(!t.is_added());
    assert_eq!(after_add_attempt(&mut t, true), RetryTimer::Stop);
    assert!(!add_needed(&t, true));
    forget_icon(&mut t);
    assert!(add_needed(&t, true));
    after_add_attempt(&mut t, true);
    assert!(take_icon(&mut t));
    assert!(!take_icon(&mut t));
}

#[test]
fn dialog_texts_and_layout() {
    let want: Vec<u16> = "About caps-hangul-rs".encode_utf16().chain(std::iter::once(0)).collect();
    assert_eq!(about_title(), want);
    assert_eq!(version_line("0.1.0"), "Version 0.1.0");
    let l = dialog_layout_96();
    assert_eq!(l[5], (ID_CLOSE, 172, 208, 96, 30));
    assert_eq!(control_font(ID_HEADER_ICON), FontRole::NoFont);
    assert_eq!(control_font(ID_TITLE), FontRole::Title);
    assert_eq!(control_font(ID_LINK), FontRole::Link);
    assert_eq!(control_font(ID_LICENSE), FontRole::Text);
}
