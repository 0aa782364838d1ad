//! Focus snapshots and the filter that rejects transient shell popups.
//! The operating-system query that produces a snapshot lives outside the
//! library; the rules for judging one live here.

use vstd::prelude::*;
use vstd::string::StrSliceExecFns;

use crate::geometry::Rect;

verus! {

/// Snapshot of a window's properties at a point in time, produced fresh on
/// every focus check and never mutated in place.
#[derive(Clone, Debug)]
pub struct WindowSnapshot {
    pub hwnd: isize,
    pub title: String,
    pub exe_name: String,
    pub rect: Rect,
    pub is_visible: bool,
}

/// The executable name spells `explorer.exe` in any letter case.
pub open spec fn spec_is_shell_exe(s: Seq<char>) -> bool {
    &&& s.len() == 12
    &&& (s[0] == 'e' || s[0] == 'E')
    &&& (s[1] == 'x' || s[1] == 'X')
    &&& (s[2] == 'p' || s[2] == 'P')
    &&& (s[3] == 'l' || s[3] == 'L')
    &&& (s[4] == 'o' || s[4] == 'O')
    &&& (s[5] == 'r' || s[5] == 'R')
    &&& (s[6] == 'e' || s[6] == 'E')
    &&& (s[7] == 'r' || s[7] == 'R')
    &&& s[8] == '.'
    &&& (s[9] == 'e' || s[9] == 'E')
    &&& (s[10] == 'x' || s[10] == 'X')
    &&& (s[11] == 'e' || s[11] == 'E')
}

/// A shell popup is a window with no title owned by the shell process:
/// the task switcher, start menu and tray popups look like this, and they
/// are not real application windows.
pub open spec fn spec_shell_popup(w: WindowSnapshot) -> bool {
    w.title@.len() == 0 && spec_is_shell_exe(w.exe_name@)
}

/// Whether the executable name is the shell's, compared without regard to
/// ASCII letter case.
pub fn is_shell_exe(exe: &str) -> (r: bool)
    ensures
        r == spec_is_shell_exe(exe@),
{
    if exe.unicode_len() != 12 {
        return false;
    }
    let c0 = exe.get_char(0);
    let c1 = exe.get_char(1);
    let c2 = exe.get_char(2);
    let c3 = exe.get_char(3);
    let c4 = exe.get_char(4);
    let c5 = exe.get_char(5);
    let c6 = exe.get_char(6);
    let c7 = exe.get_char(7);
    let c8 = exe.get_char(8);
    let c9 = exe.get_char(9);
    let c10 = exe.get_char(10);
    let c11 = exe.get_char(11);
    (c0 == 'e' || c0 == 'E') && (c1 == 'x' || c1 == 'X') && (c2 == 'p' || c2 == 'P') && (c3 == 'l'
        || c3 == 'L') && (c4 == 'o' || c4 == 'O') && (c5 == 'r' || c5 == 'R') && (c6 == 'e' || c6
        == 'E') && (c7 == 'r' || c7 == 'R') && c8 == '.' && (c9 == 'e' || c9 == 'E') && (c10 == 'x'
        || c10 == 'X') && (c11 == 'e' || c11 == 'E')
}

/// Whether a window with this title and owning executable is a transient
/// shell popup that focus tracking must treat as "no focus".
pub fn is_shell_window(title: &str, exe: &str) -> (r: bool)
    ensures
        r == (title@.len() == 0 && spec_is_shell_exe(exe@)),
{
    title.is_empty() && is_shell_exe(exe)
}

} // verus!
