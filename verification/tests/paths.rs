//! Joining and absoluteness of path text.

use std::path::PathBuf;

use startmenu::path::{is_absolute, join};
use startmenu::Platform;

#[test]
fn join_puts_one_slash_between() {
    assert_eq!(join("/home/alice", "Applications"), "/home/alice/Applications");
    assert_eq!(join("alice", "a/b"), "alice/a/b");
    assert_eq!(join("/home/alice", ".local/share/applications"), "/home/alice/.local/share/applications");
}

#[test]
fn join_adds_no_slash_after_one() {
    assert_eq!(join("/home/alice/", "Applications"), "/home/alice/Applications");
    assert_eq!(join("/", "Applications"), "/Applications");
    assert_eq!(join("/home/alice//", "x"), "/home/alice//x");
}

#[test]
fn join_adds_no_slash_to_an_empty_base() {
    assert_eq!(join("", "Applications"), "Applications");
    assert_eq!(join("", ""), "");
}

#[test]
fn join_lets_a_rooted_segment_stand_for_itself() {
    assert_eq!(join("/home/alice", "/etc"), "/etc");
    assert_eq!(join("", "/"), "/");
    assert_eq!(join("/home/alice/", "/"), "/");
}

#[test]
fn join_with_an_empty_segment_ends_in_a_slash() {
    assert_eq!(join("/home/alice", ""), "/home/alice/");
    assert_eq!(join("/home/alice/", ""), "/home/alice/");
}

#[test]
fn join_counts_characters_not_bytes() {
    assert_eq!(join("/home/zoë", "Applications"), "/home/zoë/Applications");
    assert_eq!(join("/home/日本", "é"), "/home/日本/é");
    assert_eq!(join("/home/alice", "éa"), "/home/alice/éa");
}

#[test]
fn join_agrees_with_the_path_buffer_of_a_posix_host() {
    if std::path::MAIN_SEPARATOR != '/' {
        return;
    }
    let bases = ["", "/", "/home/alice", "/home/alice/", "alice", "alice/", "/home/zoë", "//"];
    let segments = ["", "Applications", ".local/share/applications", "/etc", "/", "a/", "é"];
    for base in bases {
        for segment in segments {
            let mut buffer = PathBuf::from(base);
            buffer.push(segment);
            assert_eq!(Some(join(base, segment).as_str()), buffer.to_str());
        }
    }
}

#[test]
fn posix_paths_are_absolute_from_the_root() {
    for platform in [Platform::Linux, Platform::MacOs, Platform::Other] {
        assert!(is_absolute(platform, "/"));
        assert!(is_absolute(platform, "/home/alice"));
        assert!(is_absolute(platform, "/Applications/"));
        assert!(!is_absolute(platform, ""));
        assert!(!is_absolute(platform, "home/alice"));
        assert!(!is_absolute(platform, ".local/share/applications"));
        assert!(!is_absolute(platform, "C:\\Users\\alice"));
        assert!(!is_absolute(platform, "\\\\server\\share"));
    }
}

#[test]
fn windows_paths_are_absolute_from_a_drive_root_or_a_share() {
    let platform = Platform::Windows;
    assert!(is_absolute(platform, "C:\\Users\\alice"));
    assert!(is_absolute(platform, "c:\\"));
    assert!(is_absolute(platform, "z:/Users"));
    assert!(is_absolute(platform, "\\\\server\\share\\Programs"));
    assert!(is_absolute(platform, "\\\\?\\C:\\Users"));
    assert!(is_absolute(platform, "//server/share"));
    assert!(!is_absolute(platform, ""));
    assert!(!is_absolute(platform, "C:"));
    assert!(!is_absolute(platform, "C:Users"));
    assert!(!is_absolute(platform, "\\Users"));
    assert!(!is_absolute(platform, "/home/alice"));
    assert!(!is_absolute(platform, "Programs"));
    assert!(!is_absolute(platform, "1:\\Users"));
    assert!(!is_absolute(platform, "é:\\Users"));
    assert!(!is_absolute(platform, "[:\\Users"));
    assert!(!is_absolute(platform, "@:\\Users"));
    assert!(!is_absolute(platform, "`:\\Users"));
    assert!(!is_absolute(platform, "{:\\Users"));
}
