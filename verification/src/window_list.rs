//! Which top-level windows are offered to the user for switching, and which
//! window is the application's own.

use vstd::prelude::*;
use crate::text::{
    decode_utf16_lossy, eq_ignore_ascii_case, eq_ignore_ascii_case_seq, trim, trim_seq,
    utf16_lossy,
};
use crate::desktop::opt_view;

verus! {

/// What the system reported about one top-level window.
pub struct WindowProbe {
    /// The window handle, as an integer.
    pub hwnd: isize,
    /// Whether the window is visible.
    pub visible: bool,
    /// The UTF-16 units of the window title, as many as the system reported
    /// (none when it reported no title).
    pub title_units: Vec<u16>,
    /// The UTF-16 units of the window class name, as many as the system
    /// reported (none when it reported no class name).
    pub class_units: Vec<u16>,
    /// The id of the process that owns the window.
    pub pid: u32,
    /// The file name of that process's executable, when it could be read.
    pub process_name: Option<String>,
    /// The full path of that process's executable, when it could be read.
    pub process_path: Option<String>,
}

/// A window offered to the user.
pub struct WindowInfo {
    /// The window handle, as an integer.
    pub hwnd: isize,
    /// The trimmed window title.
    pub title: String,
    /// The file name of the owning process's executable.
    pub process_name: String,
    /// The full path of the owning process's executable.
    pub process_path: Option<String>,
}

impl View for WindowInfo {
    type V = (isize, Seq<char>, Seq<char>, Option<Seq<char>>);

    open spec fn view(&self) -> (isize, Seq<char>, Seq<char>, Option<Seq<char>>) {
        (self.hwnd, self.title@, self.process_name@, opt_view(self.process_path))
    }
}

/// Whether a window class belongs to the shell (desktop, taskbar, task
/// switcher and the like).
pub open spec fn is_shell_class(class: Seq<char>) -> bool {
    ||| class == "Progman"@
    ||| class == "WorkerW"@
    ||| class == "Shell_TrayWnd"@
    ||| class == "Shell_SecondaryTrayWnd"@
    ||| class == "Windows.UI.Core.CoreWindow"@
    ||| class == "ApplicationFrameWindow"@
    ||| class == "TaskManagerWindow"@
    ||| class == "MultitaskingViewFrame"@
}

/// The executable name of this application.
pub open spec fn own_exe_name() -> Seq<char> {
    "my-desktop-app.exe"@
}

/// The entry for a window, if it is offered: it must be visible, have a
/// title that is not blank, not be a shell window, belong to another
/// process, whose executable could be read and is not this application.
pub open spec fn listed_window(p: WindowProbe, my_pid: u32) -> Option<
    (isize, Seq<char>, Seq<char>, Option<Seq<char>>),
> {
    let title = trim_seq(utf16_lossy(p.title_units@));
    if !p.visible || p.title_units@.len() == 0 || title.len() == 0 {
        None
    } else if p.class_units@.len() > 0 && is_shell_class(utf16_lossy(p.class_units@)) {
        None
    } else if p.pid == my_pid {
        None
    } else {
        match p.process_name {
            None => None,
            Some(name) => if eq_ignore_ascii_case_seq(name@, own_exe_name()) {
                None
            } else {
                Some((p.hwnd, title, name@, opt_view(p.process_path)))
            },
        }
    }
}

/// The entries of the offered windows among `ps`, in order.
pub open spec fn listed_windows(ps: Seq<WindowProbe>, my_pid: u32) -> Seq<
    (isize, Seq<char>, Seq<char>, Option<Seq<char>>),
>
    decreases ps.len(),
{
    if ps.len() == 0 {
        Seq::empty()
    } else {
        let before = listed_windows(ps.drop_last(), my_pid);
        match listed_window(ps.last(), my_pid) {
            Some(w) => before.push(w),
            None => before,
        }
    }
}

/// Whether `class` is a shell window class.
pub fn is_shell_window_class(class: &String) -> (b: bool)
    ensures
        b == is_shell_class(class@),
{
    *class == "Progman".to_owned() || *class == "WorkerW".to_owned() || *class
        == "Shell_TrayWnd".to_owned() || *class == "Shell_SecondaryTrayWnd".to_owned() || *class
        == "Windows.UI.Core.CoreWindow".to_owned() || *class == "ApplicationFrameWindow".to_owned()
        || *class == "TaskManagerWindow".to_owned() || *class
        == "MultitaskingViewFrame".to_owned()
}

fn clone_opt(s: &Option<String>) -> (r: Option<String>)
    ensures
        opt_view(r) == opt_view(*s),
{
    match s {
        Some(t) => Some(t.clone()),
        None => None,
    }
}

/// The entry for the window `p`, if it is offered (see `listed_window`).
pub fn select_window(p: &WindowProbe, my_pid: u32) -> (r: Option<WindowInfo>)
    ensures
        match r {
            Some(w) => listed_window(*p, my_pid) == Some(w@),
            None => listed_window(*p, my_pid) is None,
        },
{
    if !p.visible || p.title_units.len() == 0 {
        return None;
    }
    let title = trim(decode_utf16_lossy(p.title_units.as_slice()).as_str());
    if title.unicode_len() == 0 {
        return None;
    }
    if p.class_units.len() > 0 {
        let class = decode_utf16_lossy(p.class_units.as_slice());
        if is_shell_window_class(&class) {
            return None;
        }
    }
    if p.pid == my_pid {
        return None;
    }
    match &p.process_name {
        None => None,
        Some(name) => {
            if eq_ignore_ascii_case(name.as_str(), "my-desktop-app.exe") {
                None
            } else {
                Some(
                    WindowInfo {
                        hwnd: p.hwnd,
                        title,
                        process_name: name.clone(),
                        process_path: clone_opt(&p.process_path),
                    },
                )
            }
        },
    }
}

/// The views of a list of windows.
pub open spec fn windows_view(ws: Seq<WindowInfo>) -> Seq<
    (isize, Seq<char>, Seq<char>, Option<Seq<char>>),
> {
    ws.map_values(|w: WindowInfo| w@)
}

/// The windows offered to the user among those probed, in order.
pub fn list_windows(probes: &Vec<WindowProbe>, my_pid: u32) -> (r: Vec<WindowInfo>)
    ensures
        windows_view(r@) == listed_windows(probes@, my_pid),
{
    let mut r: Vec<WindowInfo> = Vec::new();
    let n = probes.len();
    let mut i: usize = 0;
    while i < n
        invariant
            n == probes@.len(),
            i <= n,
            windows_view(r@) == listed_windows(probes@.take(i as int), my_pid),
        decreases n - i,
    {
        proof {
            assert(probes@.take(i + 1).drop_last() == probes@.take(i as int));
            assert(probes@.take(i + 1).last() == probes@[i as int]);
        }
        match select_window(&probes[i], my_pid) {
            Some(w) => {
                r.push(w);
                proof {
                    assert(windows_view(r@) =~= windows_view(r@.drop_last()).push(w@));
                }
            },
            None => {},
        }
        i = i + 1;
    }
    proof {
        assert(probes@.take(n as int) == probes@);
    }
    r
}

/// The message when the application cannot find its own window.
pub open spec fn own_window_missing_message() -> Seq<char> {
    "未找到自身窗口"@
}

/// The position of the application's first window among the top-level
/// windows, given the owning process id of each, or the message
/// `未找到自身窗口` when it owns none of them.
pub fn find_own_window(pids: &Vec<u32>, my_pid: u32) -> (r: Result<usize, String>)
    ensures
        match r {
            Ok(i) => i < pids@.len() && pids@[i as int] == my_pid && forall|j: int|
                0 <= j < i ==> pids@[j] != my_pid,
            Err(m) => m@ == own_window_missing_message() && forall|j: int|
                0 <= j < pids@.len() ==> pids@[j] != my_pid,
        },
{
    let n = pids.len();
    let mut i: usize = 0;
    while i < n
        invariant
            n == pids@.len(),
            i <= n,
            forall|j: int| 0 <= j < i ==> pids@[j] != my_pid,
        decreases n - i,
    {
        if pids[i] == my_pid {
            return Ok(i);
        }
        i = i + 1;
    }
    Err("未找到自身窗口".to_owned())
}


/// An offered window is visible, has a title that is not blank, is not a
/// shell window, belongs to another process, and that process is not this
/// application; its entry keeps the window's handle and process path.
pub proof fn law_offered_window_passes_filters(p: WindowProbe, my_pid: u32)
    ensures
        listed_window(p, my_pid) matches Some(w) ==> {
            &&& p.visible
            &&& p.pid != my_pid
            &&& p.class_units@.len() > 0 ==> !is_shell_class(utf16_lossy(p.class_units@))
            &&& w.0 == p.hwnd
            &&& w.1 == trim_seq(utf16_lossy(p.title_units@))
            &&& w.1.len() > 0
            &&& p.process_name matches Some(name) && name@ == w.2
            &&& !eq_ignore_ascii_case_seq(w.2, own_exe_name())
            &&& w.3 == opt_view(p.process_path)
        },
{
}

/// Every offered window comes from one of the probed windows, and there are
/// never more offered windows than probed ones.
pub proof fn law_offered_windows_come_from_probes(ps: Seq<WindowProbe>, my_pid: u32)
    ensures
        listed_windows(ps, my_pid).len() <= ps.len(),
        forall|k: int|
            0 <= k < listed_windows(ps, my_pid).len() ==> exists|i: int|
                0 <= i < ps.len() && listed_window(ps[i], my_pid) == Some(
                    #[trigger] listed_windows(ps, my_pid)[k],
                ),
    decreases ps.len(),
{
    if ps.len() > 0 {
        let s = ps.drop_last();
        law_offered_windows_come_from_probes(s, my_pid);
        let l = listed_windows(ps, my_pid);
        let ls = listed_windows(s, my_pid);
        assert forall|k: int| 0 <= k < l.len() implies exists|i: int|
            0 <= i < ps.len() && listed_window(ps[i], my_pid) == Some(#[trigger] l[k]) by {
            if k < ls.len() {
                assert(l[k] == ls[k]);
                let i = choose|i: int| 0 <= i < s.len() && listed_window(s[i], my_pid) == Some(ls[k]);
                assert(ps[i] == s[i]);
            } else {
                assert(listed_window(ps[ps.len() - 1], my_pid) == Some(l[k]));
            }
        }
    }
}

/// A window of the application's own process is never offered: probing it
/// too leaves the offered windows as they were.
pub proof fn law_own_windows_not_offered(ps: Seq<WindowProbe>, p: WindowProbe, my_pid: u32)
    requires
        p.pid == my_pid,
    ensures
        listed_windows(ps.push(p), my_pid) == listed_windows(ps, my_pid),
{
    assert(ps.push(p).drop_last() == ps);
}


/// Whether a window class is one of the eight shell classes, named one by one.
pub open spec fn is_named_shell_class(class: Seq<char>) -> bool {
    class == "Progman"@ || class == "WorkerW"@ || class == "Shell_TrayWnd"@ || class
        == "Shell_SecondaryTrayWnd"@ || class == "Windows.UI.Core.CoreWindow"@ || class
        == "ApplicationFrameWindow"@ || class == "TaskManagerWindow"@ || class
        == "MultitaskingViewFrame"@
}

/// A window is offered exactly when it is visible, has a title that is not
/// blank, has no class name or one that is not among the eight shell
/// classes, belongs to another process, and that process's executable is
/// known and is not `my-desktop-app.exe` in any ASCII case; the offer then
/// carries the window's handle, trimmed title, executable name and path.
pub proof fn law_window_offered_exactly_when(p: WindowProbe, my_pid: u32)
    ensures
        listed_window(p, my_pid) is Some <==> {
            &&& p.visible
            &&& p.title_units@.len() > 0
            &&& trim_seq(utf16_lossy(p.title_units@)).len() > 0
            &&& !(p.class_units@.len() > 0 && is_named_shell_class(utf16_lossy(p.class_units@)))
            &&& p.pid != my_pid
            &&& p.process_name is Some
            &&& !eq_ignore_ascii_case_seq(p.process_name->0@, "my-desktop-app.exe"@)
        },
        listed_window(p, my_pid) is Some ==> listed_window(p, my_pid) == Some(
            (
                p.hwnd,
                trim_seq(utf16_lossy(p.title_units@)),
                p.process_name->0@,
                opt_view(p.process_path),
            ),
        ),
{
}

/// Every probed window that passes the filters is offered, in the order
/// of the probes: the offers of `ps` followed by one more window are those
/// of `ps` with that window's offer appended when it is offered.
pub proof fn law_offered_windows_keep_order(ps: Seq<WindowProbe>, p: WindowProbe, my_pid: u32)
    ensures
        listed_windows(ps.push(p), my_pid) == match listed_window(p, my_pid) {
            Some(w) => listed_windows(ps, my_pid).push(w),
            None => listed_windows(ps, my_pid),
        },
{
    assert(ps.push(p).drop_last() == ps);
}

/// No probed window that passes the filters is lost: each has its offer in
/// the list.
pub proof fn law_offered_windows_complete(ps: Seq<WindowProbe>, my_pid: u32, i: int)
    requires
        0 <= i < ps.len(),
        listed_window(ps[i], my_pid) is Some,
    ensures
        listed_windows(ps, my_pid).contains(listed_window(ps[i], my_pid)->0),
    decreases ps.len(),
{
    let s = ps.drop_last();
    let l = listed_windows(ps, my_pid);
    if i < ps.len() - 1 {
        assert(s[i] == ps[i]);
        law_offered_windows_complete(s, my_pid, i);
        let ls = listed_windows(s, my_pid);
        let k = choose|k: int| 0 <= k < ls.len() && ls[k] == listed_window(ps[i], my_pid)->0;
        assert(l[k] == ls[k]);
    } else {
        assert(l[l.len() - 1] == listed_window(ps[i], my_pid)->0);
    }
}

} // verus!
