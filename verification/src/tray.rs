//! Decisions of the notification-area (tray) icon, its context menu and the
//! information dialog.
//!
//! A hidden window receives the icon's mouse events; right click opens the menu
//! (`Info` / `Exit`), a double click or `Info` opens a modeless information dialog
//! with the program name, version, licence notice and a link to the repository.
use vstd::prelude::*;
use vstd::string::StringExecFns;
use crate::wide::{utf16_encode, wide, wide_of};

verus! {

/// `WM_APP`.
pub const WM_APP: u32 = 0x8000;
/// `WM_DESTROY`.
pub const WM_DESTROY: u32 = 0x0002;
/// `WM_TIMER`.
pub const WM_TIMER: u32 = 0x0113;
/// `WM_LBUTTONDBLCLK`.
pub const WM_LBUTTONDBLCLK: u32 = 0x0203;
/// `WM_RBUTTONUP`.
pub const WM_RBUTTONUP: u32 = 0x0205;

/// Callback message of the tray icon.
pub const WM_TRAY: u32 = WM_APP + 0x20;
/// Id of the tray icon (one per window).
pub const TRAY_UID: u32 = 1;
/// Timer that retries adding the icon.
pub const TIMER_TRAY_RETRY: usize = 1;
/// Retry interval (ms) while the notification area is not ready.
pub const TRAY_RETRY_MS: u32 = 3_000;
/// Menu command: information dialog.
pub const ID_INFO: u32 = 1001;
/// Menu command: exit.
pub const ID_EXIT: u32 = 1002;
/// Dialog control: repository link.
pub const ID_LINK: u32 = 101;
/// Dialog control: close button (`IDCANCEL`, so Esc closes too).
pub const ID_CLOSE: u32 = 2;
/// Dialog control: header icon.
pub const ID_HEADER_ICON: u32 = 102;
/// Dialog control: title.
pub const ID_TITLE: u32 = 103;
/// Dialog control: version line.
pub const ID_VERSION: u32 = 104;
/// Dialog control: licence notice.
pub const ID_LICENSE: u32 = 105;
/// `SS_ICON`.
pub const SS_ICON: u32 = 0x0000_0003;
/// `SS_NOTIFY`.
pub const SS_NOTIFY: u32 = 0x0000_0100;
/// `BS_DEFPUSHBUTTON`.
pub const BS_DEFPUSHBUTTON: u32 = 0x0000_0001;
/// Dialog client width at 96 DPI.
pub const DLG_CLIENT_W_96: i32 = 440;
/// Dialog client height at 96 DPI.
pub const DLG_CLIENT_H_96: i32 = 258;

/// Program name shown in the dialog.
pub const PROGRAM_NAME: &'static str = "caps-hangul-rs";
/// Repository address shown as the link.
pub const REPO_URL: &'static str = "https://github.com/chohyojae/capslock_hangul";
/// Tooltip of the tray icon.
pub const TRAY_TIP: &'static str = "caps-hangul-rs — Han/Eng · Caps Lock toggle";
/// Licence notice (two lines).
pub const LICENSE_TEXT: &'static str = "MIT License\r\nCopyright © 2026 Hyojae Cho";

/// Placement of the dialog's controls at 96 DPI: `(id, x, y, width, height)`.
pub open spec fn spec_dialog_layout_96() -> Seq<(u32, i32, i32, i32, i32)> {
    seq![
        (ID_HEADER_ICON, 18, 20, 48, 48),
        (ID_TITLE, 80, 22, 342, 30),
        (ID_VERSION, 80, 56, 342, 22),
        (ID_LICENSE, 18, 100, 404, 44),
        (ID_LINK, 18, 158, 404, 22),
        (ID_CLOSE, 172, 208, 96, 30),
    ]
}

/// Placement of the dialog's controls at 96 DPI: `(id, x, y, width, height)`.
pub fn dialog_layout_96() -> (l: [(u32, i32, i32, i32, i32); 6])
    ensures
        l@ == spec_dialog_layout_96(),
{
    let l = [
        (ID_HEADER_ICON, 18, 20, 48, 48),
        (ID_TITLE, 80, 22, 342, 30),
        (ID_VERSION, 80, 56, 342, 22),
        (ID_LICENSE, 18, 100, 404, 44),
        (ID_LINK, 18, 158, 404, 22),
        (ID_CLOSE, 172, 208, 96, 30),
    ];
    assert(l@ =~= spec_dialog_layout_96());
    l
}

/// Contents of a fixed-size wide buffer after [`set_sz`]: the text's UTF-16 units,
/// cut so that one unit is left for the terminator, then 0; the rest unchanged.
pub open spec fn sz_filled(old_dst: Seq<u16>, text: Seq<char>) -> Seq<u16> {
    let units = utf16_encode(text);
    if old_dst.len() == 0 {
        old_dst
    } else {
        let k = if units.len() < old_dst.len() - 1 {
            units.len() as int
        } else {
            old_dst.len() - 1
        };
        units.take(k) + seq![0u16] + old_dst.skip(k + 1)
    }
}

/// Copies `s` into a fixed-length wide buffer (such as `szTip`) with a terminator,
/// cutting the text when it does not fit.
pub fn set_sz(dst: &mut [u16], s: &str)
    ensures
        final(dst)@ == sz_filled(old(dst)@, s@),
{
    let w = wide(s);
    let ghost units = utf16_encode(s@);
    let n = dst.len();
    let mut i: usize = 0;
    while i < w.len() - 1
        invariant
            w@ == units.push(0u16),
            n == dst@.len(),
            n == old(dst)@.len(),
            i <= units.len(),
            i < n || n == 0 || i == n - 1,
            n > 0 ==> i <= n - 1,
            n == 0 ==> i == 0,
            forall|j: int| 0 <= j < i ==> dst@[j] == units[j],
            forall|j: int| i <= j < n ==> dst@[j] == old(dst)@[j],
        ensures
            n == dst@.len(),
            n > 0 ==> i == (if units.len() < n - 1 {
                units.len() as int
            } else {
                n - 1
            }),
            n == 0 ==> i == 0,
            forall|j: int| 0 <= j < i ==> dst@[j] == units[j],
            forall|j: int| i <= j < n ==> dst@[j] == old(dst)@[j],
        decreases units.len() - i,
    {
        if i + 1 >= n {
            break;
        }
        dst[i] = w[i];
        i = i + 1;
    }
    if i < n {
        dst[i] = 0;
    }
    proof {
        if n > 0 {
            assert(dst@ =~= sz_filled(old(dst)@, s@));
        } else {
            assert(dst@ =~= old(dst)@);
        }
    }
}

/// A non-empty buffer filled by [`set_sz`] always holds a terminator, and what
/// precedes the first terminator is a prefix of the text's UTF-16 units (all of
/// them when they fit).
pub proof fn lemma_sz_terminated(old_dst: Seq<u16>, text: Seq<char>)
    requires
        old_dst.len() > 0,
    ensures
        ({
            let r = sz_filled(old_dst, text);
            let units = utf16_encode(text);
            exists|k: int|
                #![trigger r[k]]
                0 <= k < r.len() && r[k] == 0 && r.take(k) == units.take(k) && (units.len()
                    < old_dst.len() ==> k == units.len())
        }),
        sz_filled(old_dst, text).len() == old_dst.len(),
{
    let units = utf16_encode(text);
    let k = if units.len() < old_dst.len() - 1 {
        units.len() as int
    } else {
        old_dst.len() - 1
    };
    let r = sz_filled(old_dst, text);
    assert(r.take(k) =~= units.take(k));
    assert(r[k] == 0);
}

/// What the tray window does with a message.
#[derive(Clone, Copy, Debug, PartialEq, Eq, Structural)]
pub enum TrayAction {
    /// Explorer restarted: forget the icon and add it again.
    Reregister,
    /// Show the context menu.
    ContextMenu,
    /// Show the information dialog.
    InfoDialog,
    /// A tray event that needs nothing.
    Ignore,
    /// The window is being destroyed: remove the icon and quit the loop.
    Quit,
    /// The retry timer fired: try to add the icon.
    Retry,
    /// Anything else: default window procedure.
    Default,
}

/// Classifies a message of the tray window (`taskbar_created`: the registered
/// `TaskbarCreated` message, 0 if registration failed).
pub fn tray_action(msg: u32, wparam: usize, lparam: isize, taskbar_created: u32) -> (a: TrayAction)
    ensures
        a == (if msg == taskbar_created {
            TrayAction::Reregister
        } else if msg == WM_TRAY {
            if (lparam as u32) & 0xFFFF == WM_RBUTTONUP {
                TrayAction::ContextMenu
            } else if (lparam as u32) & 0xFFFF == WM_LBUTTONDBLCLK {
                TrayAction::InfoDialog
            } else {
                TrayAction::Ignore
            }
        } else if msg == WM_DESTROY {
            TrayAction::Quit
        } else if msg == WM_TIMER && wparam == TIMER_TRAY_RETRY {
            TrayAction::Retry
        } else {
            TrayAction::Default
        }),
{
    if msg == taskbar_created {
        return TrayAction::Reregister;
    }
    if msg == WM_TRAY {
        #[verifier::truncate]
        let low = (lparam as u32) & 0xFFFF;
        if low == WM_RBUTTONUP {
            TrayAction::ContextMenu
        } else if low == WM_LBUTTONDBLCLK {
            TrayAction::InfoDialog
        } else {
            TrayAction::Ignore
        }
    } else if msg == WM_DESTROY {
        TrayAction::Quit
    } else if msg == WM_TIMER && wparam == TIMER_TRAY_RETRY {
        TrayAction::Retry
    } else {
        TrayAction::Default
    }
}

/// Tray icon bookkeeping. Its view is whether the icon is in the notification area.
#[derive(Clone, Copy, Debug)]
pub struct TrayState {
    added: bool,
}

impl View for TrayState {
    type V = bool;

    closed spec fn view(&self) -> bool {
        self.added
    }
}

impl TrayState {
    /// No icon added yet.
    pub fn new() -> (t: TrayState)
        ensures
            !t@,
    {
        TrayState { added: false }
    }

    /// Whether the icon is in the notification area.
    pub fn is_added(&self) -> (b: bool)
        ensures
            b == self@,
    {
        self.added
    }
}

/// Whether an add attempt is due: there is a window and the icon is not added.
pub fn add_needed(tray: &TrayState, window_exists: bool) -> (b: bool)
    ensures
        b == (window_exists && !tray@),
{
    window_exists && !tray.added
}

/// What to do with the retry timer after an add attempt.
#[derive(Clone, Copy, Debug, PartialEq, Eq, Structural)]
pub enum RetryTimer {
    /// The icon is in place: stop retrying.
    Stop,
    /// Not yet: try again after `TRAY_RETRY_MS`.
    Arm,
}

/// Records the outcome of an add attempt.
pub fn after_add_attempt(tray: &mut TrayState, succeeded: bool) -> (t: RetryTimer)
    ensures
        final(tray)@ == (old(tray)@ || succeeded),
        t == (if succeeded { RetryTimer::Stop } else { RetryTimer::Arm }),
{
    if succeeded {
        tray.added = true;
        RetryTimer::Stop
    } else {
        RetryTimer::Arm
    }
}

/// Explorer restarted: the icon is gone.
pub fn forget_icon(tray: &mut TrayState)
    ensures
        !final(tray)@,
{
    tray.added = false;
}

/// Marks the icon as removed; returns whether it was there (and so must be deleted).
pub fn take_icon(tray: &mut TrayState) -> (was_added: bool)
    ensures
        was_added == old(tray)@,
        !final(tray)@,
{
    let was = tray.added;
    tray.added = false;
    was
}

/// Choice made in the context menu.
#[derive(Clone, Copy, Debug, PartialEq, Eq, Structural)]
pub enum MenuChoice {
    Info,
    Exit,
    /// Closed without a choice.
    Nothing,
}

/// The choice for the command id that `TrackPopupMenu` returned.
pub fn menu_choice(cmd: i32) -> (c: MenuChoice)
    ensures
        c == (if cmd == ID_INFO as i32 {
            MenuChoice::Info
        } else if cmd == ID_EXIT as i32 {
            MenuChoice::Exit
        } else {
            MenuChoice::Nothing
        }),
{
    if cmd == ID_INFO as i32 {
        MenuChoice::Info
    } else if cmd == ID_EXIT as i32 {
        MenuChoice::Exit
    } else {
        MenuChoice::Nothing
    }
}

/// What a `WM_COMMAND` to the dialog asks for.
#[derive(Clone, Copy, Debug, PartialEq, Eq, Structural)]
pub enum DialogCommand {
    /// The link was clicked: open the repository in the browser.
    OpenLink,
    /// Close button, Enter or Esc.
    Close,
    /// Not ours.
    Default,
}

/// Classifies a `WM_COMMAND` by the control id in the low word of `wParam`.
pub fn dialog_command(wparam: usize) -> (c: DialogCommand)
    ensures
        c == (if wparam % 0x10000 == ID_LINK {
            DialogCommand::OpenLink
        } else if wparam % 0x10000 == ID_CLOSE {
            DialogCommand::Close
        } else {
            DialogCommand::Default
        }),
{
    let id = wparam % 0x10000;
    if id == ID_LINK as usize {
        DialogCommand::OpenLink
    } else if id == ID_CLOSE as usize {
        DialogCommand::Close
    } else {
        DialogCommand::Default
    }
}

/// Font of a dialog control.
#[derive(Clone, Copy, Debug, PartialEq, Eq, Structural)]
pub enum FontRole {
    /// The header icon takes an icon, not a font.
    NoFont,
    /// Bold title font.
    Title,
    /// Underlined link font.
    Link,
    /// Body text font.
    Text,
}

/// The font that a dialog control gets.
pub fn control_font(id: u32) -> (f: FontRole)
    ensures
        f == (if id == ID_HEADER_ICON {
            FontRole::NoFont
        } else if id == ID_TITLE {
            FontRole::Title
        } else if id == ID_LINK {
            FontRole::Link
        } else {
            FontRole::Text
        }),
{
    if id == ID_HEADER_ICON {
        FontRole::NoFont
    } else if id == ID_TITLE {
        FontRole::Title
    } else if id == ID_LINK {
        FontRole::Link
    } else {
        FontRole::Text
    }
}

/// Title of the information dialog: "About " followed by the program name.
pub fn about_title() -> (t: Vec<u16>)
    ensures
        t@ == wide_of("About "@ + PROGRAM_NAME@),
{
    let mut s = "About ".to_owned();
    s.append(PROGRAM_NAME);
    wide(s.as_str())
}

/// Version line of the information dialog: "Version " followed by `version`.
pub fn version_line(version: &str) -> (t: String)
    ensures
        t@ == "Version "@ + version@,
{
    let mut s = "Version ".to_owned();
    s.append(version);
    s
}

} // verus!
