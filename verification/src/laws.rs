//! What holds of the resolved folders on every input.

use vstd::prelude::*;

use crate::lookup::FolderLookup;
use crate::path::{absolute_on, is_rooted, joined};
use crate::platform::Platform;
use crate::{local_dir, system_dir};

verus! {

/// A platform that is neither Windows, Linux nor macOS has no shortcut folder,
/// shared or local, whatever was read on it.
pub proof fn lemma_unknown_platform_has_no_folder(
    platform: Platform,
    home: Option<Seq<char>>,
    programs: Option<Seq<char>>,
)
    requires
        platform != Platform::Windows,
        platform != Platform::Linux,
        platform != Platform::MacOs,
    ensures
        system_dir(platform, programs) is None,
        local_dir(platform, home, programs) is None,
{
}

/// On Linux the shared folder is `/usr/share/applications/`, with its final
/// slash, for every caller.
pub proof fn lemma_linux_system_dir_is_fixed(programs: Option<Seq<char>>)
    ensures
        system_dir(Platform::Linux, programs) == Some("/usr/share/applications/"@),
{
}

/// On macOS the shared folder is `/Applications/`, with its final slash, for
/// every caller.
pub proof fn lemma_macos_system_dir_is_fixed(programs: Option<Seq<char>>)
    ensures
        system_dir(Platform::MacOs, programs) == Some("/Applications/"@),
{
}

/// On a platform that needs no lookup, neither folder depends on what one
/// delivered: the caller need not make it.
pub proof fn lemma_lookup_unread_where_not_needed(
    platform: Platform,
    home: Option<Seq<char>>,
    first: Option<Seq<char>>,
    second: Option<Seq<char>>,
)
    requires
        !platform.needs_lookup(),
    ensures
        system_dir(platform, first) == system_dir(platform, second),
        local_dir(platform, home, first) == local_dir(platform, home, second),
{
}

/// On a platform whose local folder does not lie below the home folder, that
/// folder does not depend on `HOME`: the caller need not read it.
pub proof fn lemma_home_unread_where_not_needed(
    platform: Platform,
    first: Option<Seq<char>>,
    second: Option<Seq<char>>,
    programs: Option<Seq<char>>,
)
    requires
        !platform.needs_home(),
    ensures
        local_dir(platform, first, programs) == local_dir(platform, second, programs),
{
}

/// Equal readings give equal folders. The answers depend on the platform, on
/// the text of `HOME` and on the path that the lookup delivered, and on
/// nothing else: not on which string holds the text, nor on why a lookup
/// delivered nothing.
pub proof fn lemma_equal_readings_equal_folders(
    platform: Platform,
    first_home: Option<&str>,
    second_home: Option<&str>,
    first_lookup: FolderLookup,
    second_lookup: FolderLookup,
)
    requires
        first_home.deep_view() == second_home.deep_view(),
        first_lookup.delivered() == second_lookup.delivered(),
    ensures
        system_dir(platform, first_lookup.delivered()) == system_dir(
            platform,
            second_lookup.delivered(),
        ),
        local_dir(platform, first_home.deep_view(), first_lookup.delivered()) == local_dir(
            platform,
            second_home.deep_view(),
            second_lookup.delivered(),
        ),
{
}

/// On Linux and macOS the local folder exists exactly where `HOME` is set, and
/// is then the home folder joined with the platform's fixed segment.
pub proof fn lemma_local_dir_follows_home(
    platform: Platform,
    home: Option<Seq<char>>,
    programs: Option<Seq<char>>,
)
    requires
        platform == Platform::Linux || platform == Platform::MacOs,
    ensures
        local_dir(platform, home, programs) is Some <==> home is Some,
        platform == Platform::Linux && home is Some ==> local_dir(platform, home, programs) == Some(
            joined(home->0, ".local/share/applications"@),
        ),
        platform == Platform::MacOs && home is Some ==> local_dir(platform, home, programs) == Some(
            joined(home->0, "Applications"@),
        ),
{
}

/// On Windows the local folder is the shared folder, whatever `HOME` holds.
pub proof fn lemma_windows_local_dir_is_system_dir(
    home: Option<Seq<char>>,
    programs: Option<Seq<char>>,
)
    ensures
        local_dir(Platform::Windows, home, programs) == system_dir(Platform::Windows, programs),
{
}

/// A shared folder, where there is one, is a non-empty absolute path, provided
/// that the path Windows reported is absolute.
pub proof fn lemma_system_dir_is_absolute(platform: Platform, programs: Option<Seq<char>>)
    requires
        platform == Platform::Windows && programs is Some ==> absolute_on(
            Platform::Windows,
            programs->0,
        ),
    ensures
        system_dir(platform, programs) matches Some(dir) ==> dir.len() > 0 && absolute_on(
            platform,
            dir,
        ),
{
    reveal_strlit("/usr/share/applications/");
    reveal_strlit("/Applications/");
}

/// A local folder, where there is one, is a non-empty absolute path, provided
/// that what it is made from is absolute: the path Windows reported, the home
/// folder on Linux and macOS.
pub proof fn lemma_local_dir_is_absolute(
    platform: Platform,
    home: Option<Seq<char>>,
    programs: Option<Seq<char>>,
)
    requires
        platform == Platform::Windows && programs is Some ==> absolute_on(
            Platform::Windows,
            programs->0,
        ),
        (platform == Platform::Linux || platform == Platform::MacOs) && home is Some ==> is_rooted(
            home->0,
        ),
    ensures
        local_dir(platform, home, programs) matches Some(dir) ==> dir.len() > 0 && absolute_on(
            platform,
            dir,
        ),
{
    reveal_strlit(".local/share/applications");
    reveal_strlit("Applications");
}

/// Below a home folder that is not absolute, the local folder of Linux and
/// macOS is not absolute either, though never empty.
pub proof fn lemma_local_dir_below_relative_home(
    platform: Platform,
    home: Seq<char>,
    programs: Option<Seq<char>>,
)
    requires
        platform == Platform::Linux || platform == Platform::MacOs,
        !is_rooted(home),
    ensures
        local_dir(platform, Some(home), programs) matches Some(dir) && dir.len() > 0
            && !absolute_on(platform, dir),
{
    reveal_strlit(".local/share/applications");
    reveal_strlit("Applications");
}

} // verus!
