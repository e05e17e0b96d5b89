use vstd::prelude::*;
use crate::types::{frame_of, Display, Rect, SnapPosition, Window};

verus! {

/// Why a window-management operation failed.
#[derive(Debug, Clone, PartialEq, Eq)]
pub enum WindowManagerError {
    NoFocusedWindow,
    DisplayError,
    MoveError(String),
    PlatformNotSupported,
}

/// The platform-specific window management operations.
pub trait WindowManagerTrait {
    /// Get the currently focused window.
    fn get_focused_window(&self) -> Result<Window, WindowManagerError>;

    /// Move and resize a window to the specified frame.
    fn set_window_frame(&self, window: &Window, frame: Rect) -> Result<(), WindowManagerError>;

    /// Get the display/monitor containing the focused window.
    fn get_current_display(&self) -> Result<Display, WindowManagerError>;

    /// Get all available displays.
    fn get_all_displays(&self) -> Result<Vec<Display>, WindowManagerError>;
}

/// `r` is a possible outcome of snapping to `position` through `inner`: the
/// focused window is resolved first, then the current display, and the frame
/// handed to `set_window_frame` is exactly the snap region of the display's
/// work area. A failing step ends the operation with its own error.
pub open spec fn snap_outcome<A: WindowManagerTrait>(
    inner: A,
    position: SnapPosition,
    r: Result<(), WindowManagerError>,
) -> bool {
    exists|w: Result<Window, WindowManagerError>|
        #[trigger] call_ensures(A::get_focused_window, (&inner,), w) && match w {
            Err(e) => r == Err::<(), WindowManagerError>(e),
            Ok(window) => exists|d: Result<Display, WindowManagerError>|
                #[trigger] call_ensures(A::get_current_display, (&inner,), d) && match d {
                    Err(e) => r == Err::<(), WindowManagerError>(e),
                    Ok(display) => if display.work_area@.edges_fit() {
                        exists|frame: Rect|
                            #![trigger frame@]
                            frame@ == frame_of(position, display.work_area@) && call_ensures(
                                A::set_window_frame,
                                (&inner, &window, frame),
                                r,
                            )
                    } else {
                        r == Err::<(), WindowManagerError>(WindowManagerError::DisplayError)
                    },
                },
        }
}

/// The single entry point: delegates to one platform adapter.
pub struct WindowManager<A> {
    inner: A,
}

impl<A: WindowManagerTrait> WindowManager<A> {
    pub fn new(inner: A) -> (r: Self)
        ensures
            r.adapter() == inner,
    {
        WindowManager { inner }
    }

    /// The platform adapter that every operation goes through.
    pub closed spec fn adapter(&self) -> A {
        self.inner
    }

    /// Snap the focused window to the specified position.
    pub fn snap_to(&self, position: SnapPosition) -> (r: Result<(), WindowManagerError>)
        ensures
            snap_outcome(self.adapter(), position, r),
    {
        let focused = A::get_focused_window;
        let window = match focused(&self.inner) {
            Ok(w) => w,
            Err(e) => return Err(e),
        };
        let current = A::get_current_display;
        let display = match current(&self.inner) {
            Ok(d) => d,
            Err(e) => return Err(e),
        };
        if !display.work_area.edges_fit() {
            return Err(WindowManagerError::DisplayError);
        }
        let frame = position.calculate_frame(&display.work_area);
        let apply = A::set_window_frame;
        apply(&self.inner, &window, frame)
    }
}

} // verus!
