use vstd::prelude::*;
use crate::manager::WindowManagerError;
use crate::types::{Display, Rect, RectModel};
use vstd::string::StringExecFns;

verus! {

/// Name of this application's own process, whose windows are never snap
/// targets.
pub const OWN_APP_NAME: &'static str = "SnapToWindow";

/// `pat` occurs in `s` as a contiguous run.
pub open spec fn has_infix(s: Seq<char>, pat: Seq<char>) -> bool {
    exists|i: int| 0 <= i && i + pat.len() <= s.len() && #[trigger] s.subrange(i, i + pat.len()) == pat
}

/// Relies on str::contains: whether `pat` occurs in `s`.
#[verifier::external_body]
fn str_contains(s: &str, pat: &str) -> (r: bool)
    ensures
        r == has_infix(s@, pat@),
{
    s.contains(pat)
}

/// One entry of the on-screen window list, front to back, with the fields
/// that the window-list service reported.
#[derive(Debug, Clone)]
pub struct WindowListEntry {
    pub layer: Option<i32>,
    pub owner_pid: Option<i32>,
    pub owner_name: Option<String>,
}

/// A logical screen: its display number, if it reported one, and its visible
/// frame (the screen minus menu bar and dock) in bottom-left-origin
/// coordinates.
#[derive(Debug, Clone, Copy, PartialEq, Eq, Structural)]
pub struct ScreenInfo {
    pub number: Option<u32>,
    pub visible_x: i32,
    pub visible_y: i32,
    pub visible_width: u32,
    pub visible_height: u32,
}

/// A regular (layer 0) window with a known owner that is not this
/// application.
pub open spec fn is_snap_candidate(e: WindowListEntry) -> bool {
    &&& e.layer == Some(0i32)
    &&& e.owner_pid is Some
    &&& !(e.owner_name matches Some(name) && has_infix(name@, OWN_APP_NAME@))
}

/// Owner of the frontmost snap candidate in a front-to-back window list.
pub open spec fn first_candidate_pid(s: Seq<WindowListEntry>) -> Option<i32>
    decreases s.len(),
{
    if s.len() == 0 {
        None
    } else if is_snap_candidate(s[0]) {
        s[0].owner_pid
    } else {
        first_candidate_pid(s.drop_first())
    }
}

/// Resolution once the primary query has failed: the window-list owner if it
/// found one, else a non-zero cached identifier.
pub open spec fn fallback_pid(
    window_list: Result<i32, WindowManagerError>,
    last_known: i32,
) -> Result<i32, WindowManagerError> {
    match window_list {
        Ok(pid) => Ok(pid),
        Err(_) => if last_known != 0 {
            Ok(last_known)
        } else {
            Err(WindowManagerError::NoFocusedWindow)
        },
    }
}

/// The first logical screen that reports display number `id`.
pub open spec fn matching_screen(s: Seq<ScreenInfo>, id: u32) -> Option<ScreenInfo>
    decreases s.len(),
{
    if s.len() == 0 {
        None
    } else if s[0].number == Some(id) {
        Some(s[0])
    } else {
        matching_screen(s.drop_first(), id)
    }
}

/// The visible frame of `s` in top-left-origin coordinates, where the
/// primary display is `primary_height` tall.
pub open spec fn visible_top_left(s: ScreenInfo, primary_height: u32) -> RectModel {
    RectModel {
        x: s.visible_x as int,
        y: primary_height - (s.visible_y + s.visible_height),
        width: s.visible_width as int,
        height: s.visible_height as int,
    }
}

/// The work area of display `id`: the visible frame of its logical screen,
/// or its full bounds when no logical screen matches.
pub open spec fn work_area_of(
    screens: Seq<ScreenInfo>,
    id: u32,
    primary_height: u32,
    bounds: Rect,
) -> Result<RectModel, WindowManagerError> {
    match matching_screen(screens, id) {
        None => Ok(bounds@),
        Some(s) => {
            let wa = visible_top_left(s, primary_height);
            if i32::MIN <= wa.y <= i32::MAX {
                Ok(wa)
            } else {
                Err(WindowManagerError::DisplayError)
            }
        },
    }
}

/// The first display whose bounds contain the point.
pub open spec fn display_at(s: Seq<Display>, px: int, py: int) -> Option<Display>
    decreases s.len(),
{
    if s.len() == 0 {
        None
    } else if s[0].bounds@.contains_point(px, py) {
        Some(s[0])
    } else {
        display_at(s.drop_first(), px, py)
    }
}

/// The first display marked primary.
pub open spec fn first_primary(s: Seq<Display>) -> Option<Display>
    decreases s.len(),
{
    if s.len() == 0 {
        None
    } else if s[0].is_primary {
        Some(s[0])
    } else {
        first_primary(s.drop_first())
    }
}

/// The center point of a frame, with halves truncated.
pub open spec fn center_of(frame: Rect) -> (int, int) {
    (frame.x + frame.width / 2, frame.y + frame.height / 2)
}

/// The display of a window: the first whose bounds contain its center, else
/// the primary display.
pub open spec fn current_display_of(displays: Seq<Display>, frame: Rect) -> Result<
    Display,
    WindowManagerError,
> {
    let (cx, cy) = center_of(frame);
    match display_at(displays, cx, cy) {
        Some(d) => Ok(d),
        None => match first_primary(displays) {
            Some(d) => Ok(d),
            None => Err(WindowManagerError::DisplayError),
        },
    }
}

/// The character of a decimal digit.
pub open spec fn digit_char(d: nat) -> char {
    if d == 0 {
        '0'
    } else if d == 1 {
        '1'
    } else if d == 2 {
        '2'
    } else if d == 3 {
        '3'
    } else if d == 4 {
        '4'
    } else if d == 5 {
        '5'
    } else if d == 6 {
        '6'
    } else if d == 7 {
        '7'
    } else if d == 8 {
        '8'
    } else {
        '9'
    }
}

/// The decimal notation of `n`, without leading zeros.
pub open spec fn decimal(n: nat) -> Seq<char>
    decreases n,
{
    if n < 10 {
        seq![digit_char(n)]
    } else {
        decimal(n / 10).push(digit_char(n % 10))
    }
}

/// Relies on ToString for u64: its decimal notation.
#[verifier::external_body]
fn decimal_string(n: u64) -> (r: String)
    ensures
        r@ == decimal(n as nat),
{
    n.to_string()
}

/// The decisions of the macOS adapter. The accessibility and window-server
/// queries are made by the caller, which hands their results in.
pub struct MacOSManager;

impl MacOSManager {
    pub fn new() -> (r: Self) {
        MacOSManager
    }

    /// The owner of the topmost regular window in a front-to-back window
    /// list, skipping this application's own windows.
    pub fn get_topmost_window_pid(&self, windows: &Vec<WindowListEntry>) -> (r: Result<
        i32,
        WindowManagerError,
    >)
        ensures
            r == (match first_candidate_pid(windows@) {
                Some(pid) => Ok(pid),
                None => Err(WindowManagerError::NoFocusedWindow),
            }),
    {
        let mut i: usize = 0;
        assert(windows@.subrange(0, windows@.len() as int) =~= windows@);
        while i < windows.len()
            invariant
                0 <= i <= windows@.len(),
                first_candidate_pid(windows@) == first_candidate_pid(
                    windows@.subrange(i as int, windows@.len() as int),
                ),
            decreases windows.len() - i,
        {
            let entry = &windows[i];
            let ghost rest = windows@.subrange(i as int, windows@.len() as int);
            assert(rest.drop_first() =~= windows@.subrange(i + 1, windows@.len() as int));
            assert(rest[0] == *entry);
            if let (Some(layer), Some(pid)) = (entry.layer, entry.owner_pid) {
                if layer == 0 {
                    let own = match &entry.owner_name {
                        Some(name) => str_contains(name.as_str(), OWN_APP_NAME),
                        None => false,
                    };
                    if !own {
                        return Ok(pid);
                    }
                }
            }
            i = i + 1;
        }
        assert(windows@.subrange(i as int, windows@.len() as int).len() == 0);
        Err(WindowManagerError::NoFocusedWindow)
    }

    /// Resolve the process that should receive the snap. `primary` is the
    /// accessibility API's focused application; only when it failed is
    /// `window_list_pid` consulted, and only when that fails too is the
    /// cached `last_known` identifier used. A primary success is cached.
    pub fn get_frontmost_app_pid<F: Fn() -> Result<i32, WindowManagerError>>(
        &self,
        primary: Result<i32, WindowManagerError>,
        window_list_pid: F,
        last_known: &mut i32,
    ) -> (r: Result<i32, WindowManagerError>)
        requires
            window_list_pid.requires(()),
        ensures
            primary matches Ok(pid) ==> r == Ok::<i32, WindowManagerError>(pid)
                && *final(last_known) == pid,
            primary is Err ==> *final(last_known) == *old(last_known),
            primary is Err ==> exists|w: Result<i32, WindowManagerError>|
                #[trigger] window_list_pid.ensures((), w)
                    && r == fallback_pid(w, *old(last_known)),
    {
        if let Ok(pid) = primary {
            *last_known = pid;
            return Ok(pid);
        }
        let from_list = window_list_pid();
        if let Ok(pid) = from_list {
            return Ok(pid);
        }
        if *last_known != 0 {
            return Ok(*last_known);
        }
        Err(WindowManagerError::NoFocusedWindow)
    }

    /// The work area of display `display_id`. `screens` are the logical
    /// screens, `primary_height` the height of the primary display and
    /// `bounds` the display's own top-left-origin bounds, used when no
    /// logical screen matches.
    pub fn get_display_work_area(
        &self,
        display_id: u32,
        screens: &Vec<ScreenInfo>,
        primary_height: u32,
        bounds: Rect,
    ) -> (r: Result<Rect, WindowManagerError>)
        ensures
            match work_area_of(screens@, display_id, primary_height, bounds) {
                Ok(wa) => r matches Ok(rect) && rect@ == wa,
                Err(e) => r == Err::<Rect, WindowManagerError>(e),
            },
    {
        let mut i: usize = 0;
        assert(screens@.subrange(0, screens@.len() as int) =~= screens@);
        while i < screens.len()
            invariant
                0 <= i <= screens@.len(),
                matching_screen(screens@, display_id) == matching_screen(
                    screens@.subrange(i as int, screens@.len() as int),
                    display_id,
                ),
            decreases screens.len() - i,
        {
            let screen = screens[i];
            let ghost rest = screens@.subrange(i as int, screens@.len() as int);
            assert(rest.drop_first() =~= screens@.subrange(i + 1, screens@.len() as int));
            if screen.number == Some(display_id) {
                let top = (primary_height as i64) - ((screen.visible_y as i64)
                    + (screen.visible_height as i64));
                if top < i32::MIN as i64 || top > i32::MAX as i64 {
                    return Err(WindowManagerError::DisplayError);
                }
                return Ok(
                    Rect::new(
                        screen.visible_x,
                        top as i32,
                        screen.visible_width,
                        screen.visible_height,
                    ),
                );
            }
            i = i + 1;
        }
        assert(screens@.subrange(i as int, screens@.len() as int).len() == 0);
        Ok(bounds)
    }

    /// The display that holds a window with frame `window_frame`: the first
    /// whose bounds contain the window's center, falling back to the primary
    /// display.
    pub fn get_current_display(&self, window_frame: &Rect, displays: Vec<Display>) -> (r: Result<
        Display,
        WindowManagerError,
    >)
        ensures
            r == current_display_of(displays@, *window_frame),
    {
        let cx = (window_frame.x as i64) + ((window_frame.width / 2) as i64);
        let cy = (window_frame.y as i64) + ((window_frame.height / 2) as i64);
        let mut list = displays;
        let ghost all = list@;
        let mut i: usize = 0;
        assert(all.subrange(0, all.len() as int) =~= all);
        while i < list.len()
            invariant
                list@ == all,
                all == displays@,
                0 <= i <= all.len(),
                center_of(*window_frame) == (cx as int, cy as int),
                display_at(all, cx as int, cy as int) == display_at(
                    all.subrange(i as int, all.len() as int),
                    cx as int,
                    cy as int,
                ),
            decreases list.len() - i,
        {
            let ghost rest = all.subrange(i as int, all.len() as int);
            assert(rest.drop_first() =~= all.subrange(i + 1, all.len() as int));
            let b = list[i].bounds;
            if (b.x as i64) <= cx && cx < (b.x as i64) + (b.width as i64) && (b.y as i64) <= cy
                && cy < (b.y as i64) + (b.height as i64) {
                let found = list.remove(i);
                assert(rest[0] == found);
                return Ok(found);
            }
            i = i + 1;
        }
        assert(all.subrange(i as int, all.len() as int).len() == 0);
        let mut j: usize = 0;
        while j < list.len()
            invariant
                list@ == all,
                all == displays@,
                0 <= j <= all.len(),
                center_of(*window_frame) == (cx as int, cy as int),
                display_at(all, cx as int, cy as int) is None,
                first_primary(all) == first_primary(all.subrange(j as int, all.len() as int)),
            decreases list.len() - j,
        {
            let ghost rest = all.subrange(j as int, all.len() as int);
            assert(rest.drop_first() =~= all.subrange(j + 1, all.len() as int));
            if list[j].is_primary {
                let found = list.remove(j);
                assert(rest[0] == found);
                return Ok(found);
            }
            j = j + 1;
        }
        assert(all.subrange(j as int, all.len() as int).len() == 0);
        Err(WindowManagerError::DisplayError)
    }

    /// The entry for the active display at position `index` of the active
    /// display list: it is named by its one-based position and is primary
    /// when it is the main display.
    pub fn display_entry(
        &self,
        index: u32,
        display_id: u32,
        main_display_id: u32,
        bounds: Rect,
        work_area: Rect,
    ) -> (r: Display)
        ensures
            r.name@ == "Display "@ + decimal((index + 1) as nat),
            r.bounds == bounds,
            r.work_area == work_area,
            r.is_primary == (display_id == main_display_id),
    {
        let number = decimal_string((index as u64) + 1);
        let name = "Display ".to_owned().concat(number.as_str());
        Display { name, bounds, work_area, is_primary: display_id == main_display_id }
    }
}

impl Default for MacOSManager {
    fn default() -> (r: Self) {
        MacOSManager::new()
    }
}

} // verus!
