//! Path text: joining a folder with a segment below it, and telling whether a
//! path is absolute.
//!
//! Paths are plain strings. The shortcut folders of Linux and macOS follow the
//! POSIX conventions, with `/` between segments; Windows paths are taken as the
//! system reports them and never assembled here.

use vstd::prelude::*;

use crate::platform::Platform;

verus! {

/// Whether `path` starts at the root of a POSIX file system.
pub open spec fn is_rooted(path: Seq<char>) -> bool {
    path.len() > 0 && path[0] == '/'
}

/// The POSIX path reached by going from `base` to `segment`.
///
/// A rooted segment stands for itself. Any other segment is appended to
/// `base`, with one `/` in between unless `base` is empty or already ends in
/// one.
pub open spec fn joined(base: Seq<char>, segment: Seq<char>) -> Seq<char> {
    if is_rooted(segment) {
        segment
    } else if base.len() == 0 || base.last() == '/' {
        base + segment
    } else {
        base + seq!['/'] + segment
    }
}

/// Joins `base` and `segment` by the POSIX rule.
pub fn join(base: &str, segment: &str) -> (path: String)
    ensures
        path@ == joined(base@, segment@),
{
    if segment.unicode_len() > 0 && segment.get_char(0) == '/' {
        return String::from_str(segment);
    }
    let base_len: usize = base.unicode_len();
    let mut path = String::from_str(base);
    if base_len > 0 && base.get_char(base_len - 1) != '/' {
        proof {
            reveal_strlit("/");
            assert("/"@ =~= seq!['/']);
        }
        path.append("/");
    }
    path.append(segment);
    path
}

/// Whether `c` separates the segments of a Windows path.
pub open spec fn is_separator(c: char) -> bool {
    c == '\\' || c == '/'
}

/// Whether `c` can name a Windows drive.
pub open spec fn is_drive_letter(c: char) -> bool {
    ('a' <= c && c <= 'z') || ('A' <= c && c <= 'Z')
}

/// Whether `path` starts at the root of a Windows drive, as `C:\Users` does.
pub open spec fn is_drive_rooted(path: Seq<char>) -> bool {
    path.len() >= 3 && is_drive_letter(path[0]) && path[1] == ':' && is_separator(path[2])
}

/// Whether `path` starts with two separators, as the name of a network share
/// or of a device does.
pub open spec fn is_share_rooted(path: Seq<char>) -> bool {
    path.len() >= 2 && is_separator(path[0]) && is_separator(path[1])
}

/// Whether `path` names one place on `platform` wherever the caller stands.
///
/// On Windows that takes a drive and its root, or the two leading separators
/// of a share; everywhere else the POSIX rule holds, a leading `/`. No empty
/// path is absolute.
pub open spec fn absolute_on(platform: Platform, path: Seq<char>) -> bool {
    match platform {
        Platform::Windows => is_drive_rooted(path) || is_share_rooted(path),
        Platform::Linux | Platform::MacOs | Platform::Other => is_rooted(path),
    }
}

fn separates(c: char) -> (yes: bool)
    ensures
        yes == is_separator(c),
{
    c == '\\' || c == '/'
}

fn names_drive(c: char) -> (yes: bool)
    ensures
        yes == is_drive_letter(c),
{
    ('a' <= c && c <= 'z') || ('A' <= c && c <= 'Z')
}

/// Tells whether `path` is absolute on `platform`.
pub fn is_absolute(platform: Platform, path: &str) -> (yes: bool)
    ensures
        yes == absolute_on(platform, path@),
{
    let len: usize = path.unicode_len();
    match platform {
        Platform::Windows => {
            let drive = len >= 3 && names_drive(path.get_char(0)) && path.get_char(1) == ':'
                && separates(path.get_char(2));
            let share = len >= 2 && separates(path.get_char(0)) && separates(path.get_char(1));
            drive || share
        },
        Platform::Linux | Platform::MacOs | Platform::Other => len > 0 && path.get_char(0) == '/',
    }
}

} // verus!
