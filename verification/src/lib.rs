//! Resolves the folders in which an operating system keeps application
//! shortcuts: the one shared by the whole machine and the one that belongs to
//! the current user.
//!
//! Nothing here touches the machine. A caller says which platform it runs on
//! and hands over what it read there: the value of `HOME`, and what came of
//! asking Windows for its Programs folder. Every function is a pure function
//! of those values, so two calls on equal values give equal answers.

use vstd::prelude::*;

pub mod laws;
pub mod lookup;
pub mod path;
pub mod platform;

pub use lookup::FolderLookup;
pub use platform::Platform;

verus! {

/// The folder of desktop entries that every Linux system shares.
pub const LINUX_SYSTEM_DIR: &'static str = "/usr/share/applications/";

/// The folder of applications that every macOS system shares.
pub const MACOS_SYSTEM_DIR: &'static str = "/Applications/";

/// Where a Linux user's own desktop entries lie below the home folder.
pub const LINUX_LOCAL_SEGMENT: &'static str = ".local/share/applications";

/// Where a macOS user's own applications lie below the home folder.
pub const MACOS_LOCAL_SEGMENT: &'static str = "Applications";

/// The shortcut folder that `platform` shares among all users.
///
/// `programs` is the Programs folder as Windows reported it, if it did. Linux
/// and macOS have fixed folders; no other platform has one.
pub open spec fn system_dir(platform: Platform, programs: Option<Seq<char>>) -> Option<Seq<char>> {
    match platform {
        Platform::Windows => programs,
        Platform::Linux => Some(LINUX_SYSTEM_DIR@),
        Platform::MacOs => Some(MACOS_SYSTEM_DIR@),
        Platform::Other => None,
    }
}

/// The shortcut folder on `platform` that belongs to the current user.
///
/// `home` is the value of `HOME`, if it is set. On Linux and macOS the folder
/// lies below it, so there is none where `HOME` is unset. Windows has no second
/// folder: the Programs folder it reports is the user's own already.
pub open spec fn local_dir(
    platform: Platform,
    home: Option<Seq<char>>,
    programs: Option<Seq<char>>,
) -> Option<Seq<char>> {
    match platform {
        Platform::Windows => programs,
        Platform::Linux => match home {
            Some(home) => Some(path::joined(home, LINUX_LOCAL_SEGMENT@)),
            None => None,
        },
        Platform::MacOs => match home {
            Some(home) => Some(path::joined(home, MACOS_LOCAL_SEGMENT@)),
            None => None,
        },
        Platform::Other => None,
    }
}

/// Returns the folder of application shortcuts that `platform` shares among
/// all users: the Start Menu's Programs folder on Windows, as `lookup`
/// delivered it, `/usr/share/applications/` on Linux, `/Applications/` on
/// macOS, and `None` anywhere else.
///
/// A lookup that delivered no path yields `None` on Windows. Off Windows the
/// lookup is not read.
pub fn startmenu_dir(platform: Platform, lookup: &FolderLookup) -> (dir: Option<String>)
    ensures
        dir.deep_view() == system_dir(platform, lookup.delivered()),
{
    match platform {
        Platform::Windows => lookup.path(),
        Platform::Linux => Some(String::from_str(LINUX_SYSTEM_DIR)),
        Platform::MacOs => Some(String::from_str(MACOS_SYSTEM_DIR)),
        Platform::Other => None,
    }
}

/// Returns the current user's own folder of application shortcuts: the same
/// folder as [`startmenu_dir`] on Windows, `.local/share/applications` below
/// `home` on Linux, `Applications` below `home` on macOS, and `None` anywhere
/// else.
///
/// `home` is the value of `HOME`, or `None` where it is unset; then Linux and
/// macOS yield `None`. Windows does not read it.
pub fn local_startmenu_dir(platform: Platform, home: Option<&str>, lookup: &FolderLookup) -> (dir:
    Option<String>)
    ensures
        dir.deep_view() == local_dir(platform, home.deep_view(), lookup.delivered()),
{
    match platform {
        Platform::Windows => startmenu_dir(platform, lookup),
        Platform::Linux => match home {
            Some(home) => Some(path::join(home, LINUX_LOCAL_SEGMENT)),
            None => None,
        },
        Platform::MacOs => match home {
            Some(home) => Some(path::join(home, MACOS_LOCAL_SEGMENT)),
            None => None,
        },
        Platform::Other => None,
    }
}

} // verus!
