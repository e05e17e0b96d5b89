use vstd::prelude::*;
use crate::manager::WindowManagerError;
use crate::types::{Display, Rect, RectModel, Window, WindowHandle};

verus! {

/// Bit of a monitor's flags that marks the primary monitor.
pub const MONITORINFOF_PRIMARY: u32 = 1;

/// A native rectangle given by its four edges.
#[derive(Debug, Clone, Copy, PartialEq, Eq, Structural)]
pub struct Win32Rect {
    pub left: i32,
    pub top: i32,
    pub right: i32,
    pub bottom: i32,
}

/// What the monitor query reports of one monitor: its device name as a
/// NUL-padded UTF-16 buffer, its flags, its bounds and its work area.
#[derive(Debug, Clone)]
pub struct MonitorInfo {
    pub device: Vec<u16>,
    pub flags: u32,
    pub monitor: Win32Rect,
    pub work: Win32Rect,
}

/// The text that lossy UTF-16 decoding yields for `units`.
pub uninterp spec fn utf16_lossy(units: Seq<u16>) -> Seq<char>;

/// Relies on String::from_utf16_lossy: the decoded text, a function of the
/// code units alone; no units decode to the empty string.
#[verifier::external_body]
fn decode_utf16_lossy(units: &[u16]) -> (r: String)
    ensures
        r@ == utf16_lossy(units@),
        units@.len() == 0 ==> r@.len() == 0,
{
    String::from_utf16_lossy(units)
}

/// The distance from `lo` to `hi`; an inverted pair spans nothing.
pub open spec fn extent(lo: i32, hi: i32) -> int {
    if hi >= lo {
        hi - lo
    } else {
        0
    }
}

/// A native rectangle as origin and extent.
pub open spec fn win32_rect_model(r: Win32Rect) -> RectModel {
    RectModel {
        x: r.left as int,
        y: r.top as int,
        width: extent(r.left, r.right),
        height: extent(r.top, r.bottom),
    }
}

/// Index of the first NUL unit, or the length when there is none.
pub open spec fn first_nul(s: Seq<u16>) -> int
    decreases s.len(),
{
    if s.len() == 0 || s[0] == 0 {
        0
    } else {
        1 + first_nul(s.drop_first())
    }
}

/// The window title held in the first `copied` units of `buffer`.
pub open spec fn title_of(buffer: Seq<u16>, copied: i32) -> Seq<char> {
    if copied <= 0 {
        Seq::empty()
    } else if copied <= buffer.len() {
        utf16_lossy(buffer.take(copied as int))
    } else {
        utf16_lossy(buffer)
    }
}

/// The decisions of the Windows adapter. The native queries are made by the
/// caller, which hands their results in.
pub struct WindowsManager;

impl WindowsManager {
    pub fn new() -> (r: Self) {
        WindowsManager
    }

    /// Convert a native rectangle to origin and extent.
    pub fn rect_from_win32(&self, rect: &Win32Rect) -> (r: Rect)
        ensures
            r@ == win32_rect_model(*rect),
    {
        let width: u32 = if rect.right >= rect.left {
            ((rect.right as i64) - (rect.left as i64)) as u32
        } else {
            0
        };
        let height: u32 = if rect.bottom >= rect.top {
            ((rect.bottom as i64) - (rect.top as i64)) as u32
        } else {
            0
        };
        Rect::new(rect.left, rect.top, width, height)
    }

    /// A minimized or maximized window ignores move and resize requests, so
    /// it is restored first.
    pub fn restore_needed(&self, minimized: bool, maximized: bool) -> (r: bool)
        ensures
            r == (minimized || maximized),
    {
        minimized || maximized
    }

    /// The title that a text query copied into `buffer`: `copied` units,
    /// none when it copied nothing.
    pub fn get_window_title(&self, buffer: &Vec<u16>, copied: i32) -> (r: String)
        ensures
            r@ == title_of(buffer@, copied),
    {
        if copied <= 0 {
            return String::new();
        }
        let n: usize = if (copied as usize) <= buffer.len() {
            copied as usize
        } else {
            buffer.len()
        };
        let units = vstd::slice::slice_subrange(buffer.as_slice(), 0, n);
        assert(units@ =~= buffer@.take(n as int));
        assert(buffer@.take(buffer@.len() as int) =~= buffer@);
        decode_utf16_lossy(units)
    }

    /// The focused window from the foreground query: `handle` is the
    /// foreground window (0 when there is none), `visible` its visibility,
    /// `rect` its native rectangle if that query succeeded.
    pub fn get_focused_window(
        &self,
        handle: isize,
        visible: bool,
        title: String,
        rect: Option<Win32Rect>,
    ) -> (r: Result<Window, WindowManagerError>)
        ensures
            handle == 0 || !visible ==> r == Err::<Window, WindowManagerError>(
                WindowManagerError::NoFocusedWindow,
            ),
            handle != 0 && visible && rect is None ==> (r matches Err(
                WindowManagerError::MoveError(m),
            ) && m@ == "Failed to get window rect"@),
            handle != 0 && visible && rect is Some ==> (r matches Ok(w) && w.handle
                == WindowHandle::Windows(handle) && w.title == title && w.frame@
                == win32_rect_model(rect->Some_0)),
    {
        if handle == 0 {
            return Err(WindowManagerError::NoFocusedWindow);
        }
        if !visible {
            return Err(WindowManagerError::NoFocusedWindow);
        }
        match rect {
            None => Err(WindowManagerError::MoveError("Failed to get window rect".to_owned())),
            Some(rc) => {
                let frame = self.rect_from_win32(&rc);
                Ok(Window { handle: WindowHandle::Windows(handle), title, frame })
            },
        }
    }

    /// The display described by a monitor query: its name is the device
    /// buffer up to the first NUL, and it is primary when the primary flag
    /// bit is set.
    pub fn display_from_monitor(&self, info: &MonitorInfo) -> (r: Display)
        ensures
            r.name@ == utf16_lossy(info.device@.take(first_nul(info.device@))),
            r.bounds@ == win32_rect_model(info.monitor),
            r.work_area@ == win32_rect_model(info.work),
            r.is_primary == (info.flags & MONITORINFOF_PRIMARY != 0),
    {
        let device = &info.device;
        let mut i: usize = 0;
        proof {
            assert(device@.subrange(0, device@.len() as int) =~= device@);
        }
        while i < device.len() && device[i] != 0
            invariant
                0 <= i <= device@.len(),
                first_nul(device@) == i + first_nul(device@.subrange(i as int, device@.len() as int)),
            decreases device.len() - i,
        {
            let ghost rest = device@.subrange(i as int, device@.len() as int);
            assert(rest.drop_first() =~= device@.subrange(i + 1, device@.len() as int));
            i = i + 1;
        }
        let units = vstd::slice::slice_subrange(device.as_slice(), 0, i);
        assert(units@ =~= device@.take(i as int));
        let name = decode_utf16_lossy(units);
        Display {
            name,
            bounds: self.rect_from_win32(&info.monitor),
            work_area: self.rect_from_win32(&info.work),
            is_primary: info.flags & MONITORINFOF_PRIMARY != 0,
        }
    }
}

impl Default for WindowsManager {
    fn default() -> (r: Self) {
        WindowsManager::new()
    }
}

} // verus!
