pub mod config;
pub mod laws;
pub mod linux;
pub mod macos;
pub mod manager;
pub mod types;
pub mod win32;

pub use config::{Config, ShortcutConfig};
pub use linux::LinuxManager;
pub use macos::{MacOSManager, ScreenInfo, WindowListEntry};
pub use manager::{WindowManager, WindowManagerError, WindowManagerTrait};
pub use types::{Display, Rect, SnapPosition, Window, WindowHandle};
pub use win32::{MonitorInfo, Win32Rect, WindowsManager};
