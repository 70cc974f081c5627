//! The platforms whose shortcut folders are known.

use vstd::prelude::*;

verus! {

/// The operating system family whose folder conventions apply.
#[derive(Clone, Copy, Debug, PartialEq, Eq, Hash, Structural)]
pub enum Platform {
    /// Microsoft Windows, where the Start Menu holds the shortcuts.
    Windows,
    /// Linux, where desktop entries live under `applications` folders.
    Linux,
    /// macOS, where application bundles live under `Applications` folders.
    MacOs,
    /// Any other system: no shortcut folder is known for it.
    Other,
}

impl Platform {
    /// Whether the local shortcut folder of this platform lies below the
    /// user's home folder.
    pub open spec fn needs_home(self) -> bool {
        self == Platform::Linux || self == Platform::MacOs
    }

    /// Whether the shortcut folders of this platform are known to the operating
    /// system alone and have to be asked for.
    pub open spec fn needs_lookup(self) -> bool {
        self == Platform::Windows
    }

    /// Tells whether resolving the local folder of this platform takes the
    /// value of `HOME`.
    pub fn reads_home(self) -> (yes: bool)
        ensures
            yes == self.needs_home(),
    {
        match self {
            Platform::Linux | Platform::MacOs => true,
            Platform::Windows | Platform::Other => false,
        }
    }

    /// Tells whether resolving the folders of this platform takes a lookup.
    pub fn asks_system(self) -> (yes: bool)
        ensures
            yes == self.needs_lookup(),
    {
        match self {
            Platform::Windows => true,
            Platform::Linux | Platform::MacOs | Platform::Other => false,
        }
    }
}

} // verus!
