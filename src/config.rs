use vstd::prelude::*;
use crate::types::SnapPosition;

verus! {

/// The user's settings: a shortcut for each snap position and whether the
/// application starts at login.
#[derive(Debug, Clone)]
pub struct Config {
    pub shortcuts: ShortcutConfig,
    pub launch_at_login: bool,
}

/// The keyboard shortcut bound to each snap position.
#[derive(Debug, Clone)]
pub struct ShortcutConfig {
    pub left_half: String,
    pub right_half: String,
    pub top_half: String,
    pub bottom_half: String,
    pub top_left: String,
    pub top_right: String,
    pub bottom_left: String,
    pub bottom_right: String,
    pub left_third: String,
    pub center_third: String,
    pub right_third: String,
    pub left_two_thirds: String,
    pub right_two_thirds: String,
    pub center: String,
    pub maximize: String,
}

/// The shortcuts that are registered as global hotkeys, each with the
/// position it snaps to, in registration order.
pub open spec fn hotkey_bindings_of(c: ShortcutConfig) -> Seq<(Seq<char>, SnapPosition)> {
    seq![
        (c.left_half@, SnapPosition::LeftHalf),
        (c.right_half@, SnapPosition::RightHalf),
        (c.top_half@, SnapPosition::TopHalf),
        (c.bottom_half@, SnapPosition::BottomHalf),
        (c.top_left@, SnapPosition::TopLeft),
        (c.top_right@, SnapPosition::TopRight),
        (c.bottom_left@, SnapPosition::BottomLeft),
        (c.bottom_right@, SnapPosition::BottomRight),
        (c.center@, SnapPosition::Center),
        (c.maximize@, SnapPosition::Maximize),
    ]
}

impl Default for ShortcutConfig {
    fn default() -> (r: Self)
        ensures
            r.left_half@ == "CommandOrControl+Alt+Left"@,
            r.right_half@ == "CommandOrControl+Alt+Right"@,
            r.top_half@ == "CommandOrControl+Alt+Up"@,
            r.bottom_half@ == "CommandOrControl+Alt+Down"@,
            r.top_left@ == "CommandOrControl+Alt+U"@,
            r.top_right@ == "CommandOrControl+Alt+I"@,
            r.bottom_left@ == "CommandOrControl+Alt+J"@,
            r.bottom_right@ == "CommandOrControl+Alt+K"@,
            r.left_third@ == "CommandOrControl+Alt+D"@,
            r.center_third@ == "CommandOrControl+Alt+F"@,
            r.right_third@ == "CommandOrControl+Alt+G"@,
            r.left_two_thirds@ == "CommandOrControl+Alt+E"@,
            r.right_two_thirds@ == "CommandOrControl+Alt+R"@,
            r.center@ == "CommandOrControl+Alt+C"@,
            r.maximize@ == "CommandOrControl+Alt+Enter"@,
    {
        ShortcutConfig {
            left_half: "CommandOrControl+Alt+Left".to_owned(),
            right_half: "CommandOrControl+Alt+Right".to_owned(),
            top_half: "CommandOrControl+Alt+Up".to_owned(),
            bottom_half: "CommandOrControl+Alt+Down".to_owned(),
            top_left: "CommandOrControl+Alt+U".to_owned(),
            top_right: "CommandOrControl+Alt+I".to_owned(),
            bottom_left: "CommandOrControl+Alt+J".to_owned(),
            bottom_right: "CommandOrControl+Alt+K".to_owned(),
            left_third: "CommandOrControl+Alt+D".to_owned(),
            center_third: "CommandOrControl+Alt+F".to_owned(),
            right_third: "CommandOrControl+Alt+G".to_owned(),
            left_two_thirds: "CommandOrControl+Alt+E".to_owned(),
            right_two_thirds: "CommandOrControl+Alt+R".to_owned(),
            center: "CommandOrControl+Alt+C".to_owned(),
            maximize: "CommandOrControl+Alt+Enter".to_owned(),
        }
    }
}

impl Default for Config {
    fn default() -> (r: Self)
        ensures
            r.shortcuts.left_half@ == "CommandOrControl+Alt+Left"@,
            r.shortcuts.right_half@ == "CommandOrControl+Alt+Right"@,
            r.shortcuts.top_half@ == "CommandOrControl+Alt+Up"@,
            r.shortcuts.bottom_half@ == "CommandOrControl+Alt+Down"@,
            r.shortcuts.top_left@ == "CommandOrControl+Alt+U"@,
            r.shortcuts.top_right@ == "CommandOrControl+Alt+I"@,
            r.shortcuts.bottom_left@ == "CommandOrControl+Alt+J"@,
            r.shortcuts.bottom_right@ == "CommandOrControl+Alt+K"@,
            r.shortcuts.left_third@ == "CommandOrControl+Alt+D"@,
            r.shortcuts.center_third@ == "CommandOrControl+Alt+F"@,
            r.shortcuts.right_third@ == "CommandOrControl+Alt+G"@,
            r.shortcuts.left_two_thirds@ == "CommandOrControl+Alt+E"@,
            r.shortcuts.right_two_thirds@ == "CommandOrControl+Alt+R"@,
            r.shortcuts.center@ == "CommandOrControl+Alt+C"@,
            r.shortcuts.maximize@ == "CommandOrControl+Alt+Enter"@,
            !r.launch_at_login,
    {
        Config { shortcuts: ShortcutConfig::default(), launch_at_login: false }
    }
}

impl ShortcutConfig {
    /// The shortcuts to register as global hotkeys, each paired with the
    /// position it snaps to.
    pub fn hotkey_bindings(&self) -> (r: Vec<(String, SnapPosition)>)
        ensures
            r@.len() == hotkey_bindings_of(*self).len(),
            forall|i: int|
                0 <= i < r@.len() ==> (#[trigger] r@[i]).0@ == hotkey_bindings_of(*self)[i].0
                    && r@[i].1 == hotkey_bindings_of(*self)[i].1,
    {
        let r = vec![
            (self.left_half.clone(), SnapPosition::LeftHalf),
            (self.right_half.clone(), SnapPosition::RightHalf),
            (self.top_half.clone(), SnapPosition::TopHalf),
            (self.bottom_half.clone(), SnapPosition::BottomHalf),
            (self.top_left.clone(), SnapPosition::TopLeft),
            (self.top_right.clone(), SnapPosition::TopRight),
            (self.bottom_left.clone(), SnapPosition::BottomLeft),
            (self.bottom_right.clone(), SnapPosition::BottomRight),
            (self.center.clone(), SnapPosition::Center),
            (self.maximize.clone(), SnapPosition::Maximize),
        ];
        r
    }
}

} // verus!
