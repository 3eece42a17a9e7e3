//! The settings menu.
use vstd::prelude::*;

verus! {

/// The menu that lets the user change the configuration from inside roseate.
pub struct SettingsMenu {}

impl SettingsMenu {
    pub fn new() -> (menu: Self)
        ensures
            menu == (SettingsMenu {}),
    {
        Self {}
    }
}

} // verus!
