use vstd::prelude::*;
use crate::manager::{WindowManagerError, WindowManagerTrait};
use crate::types::{Display, Rect, Window};

verus! {

/// The Linux adapter. No window-management API spans X11 and the Wayland
/// compositors, so every operation reports that the platform is unsupported.
pub struct LinuxManager;

impl LinuxManager {
    pub fn new() -> (r: Self) {
        LinuxManager
    }
}

impl WindowManagerTrait for LinuxManager {
    fn get_focused_window(&self) -> (r: Result<Window, WindowManagerError>)
        ensures
            r == Err::<Window, WindowManagerError>(WindowManagerError::PlatformNotSupported),
    {
        Err(WindowManagerError::PlatformNotSupported)
    }

    fn set_window_frame(&self, window: &Window, frame: Rect) -> (r: Result<(), WindowManagerError>)
        ensures
            r == Err::<(), WindowManagerError>(WindowManagerError::PlatformNotSupported),
    {
        Err(WindowManagerError::PlatformNotSupported)
    }

    fn get_current_display(&self) -> (r: Result<Display, WindowManagerError>)
        ensures
            r == Err::<Display, WindowManagerError>(WindowManagerError::PlatformNotSupported),
    {
        Err(WindowManagerError::PlatformNotSupported)
    }

    fn get_all_displays(&self) -> (r: Result<Vec<Display>, WindowManagerError>)
        ensures
            r == Err::<Vec<Display>, WindowManagerError>(WindowManagerError::PlatformNotSupported),
    {
        Err(WindowManagerError::PlatformNotSupported)
    }
}

impl Default for LinuxManager {
    fn default() -> (r: Self) {
        LinuxManager::new()
    }
}

} // verus!
