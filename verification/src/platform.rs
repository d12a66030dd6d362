//! The closed set of host platforms, and the two conventions that decide the
//! platform-conditional branches of the menu tree.

use vstd::prelude::*;

verus! {

/// A host platform the menu layer supports. The menu tree is resolved against
/// one of these exactly once, at build time, and never re-evaluated.
#[derive(Clone, Copy, PartialEq, Eq, Structural, Debug)]
pub enum Platform {
    MacOs,
    Windows,
    Linux,
}

impl Platform {
    /// The platform supplies a process-quit entry natively (in its own
    /// application menu), so the File submenu omits the explicit Quit item.
    pub open spec fn native_quit(self) -> bool {
        self == Platform::MacOs
    }

    /// The platform conventionally shows a dedicated Window submenu.
    pub open spec fn dedicated_window_menu(self) -> bool {
        self == Platform::MacOs
    }

    /// Executable counterpart of [`Platform::native_quit`].
    pub fn has_native_quit(self) -> (r: bool)
        ensures
            r == self.native_quit(),
    {
        self == Platform::MacOs
    }

    /// Executable counterpart of [`Platform::dedicated_window_menu`].
    pub fn has_dedicated_window_menu(self) -> (r: bool)
        ensures
            r == self.dedicated_window_menu(),
    {
        self == Platform::MacOs
    }
}

} // verus!
