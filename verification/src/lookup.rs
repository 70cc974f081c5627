//! What came of asking Windows where its Programs folder is.

use vstd::prelude::*;

verus! {

/// The outcome of asking the operating system for the Programs folder of the
/// current user's Start Menu.
///
/// Only Windows has such a folder to ask for. Whoever asks records here what
/// happened, and the resolver decides what that means for the caller.
#[derive(Debug, PartialEq, Eq)]
pub enum FolderLookup {
    /// Nothing was asked.
    NotAsked,
    /// The system refused to answer; the number is the status it gave.
    Failed(i32),
    /// The system answered, but with text that is not well-formed UTF-16.
    Undecodable,
    /// The system answered with this path.
    Found(String),
}

impl FolderLookup {
    /// The path that the lookup delivered, if it delivered one.
    pub open spec fn delivered(&self) -> Option<Seq<char>> {
        match self {
            FolderLookup::Found(path) => Some(path@),
            FolderLookup::NotAsked | FolderLookup::Failed(_) | FolderLookup::Undecodable => None,
        }
    }

    /// Hands out the path that the lookup delivered. Every other outcome
    /// yields `None`, whatever its cause.
    pub fn path(&self) -> (path: Option<String>)
        ensures
            path.deep_view() == self.delivered(),
    {
        match self {
            FolderLookup::Found(path) => Some(path.clone()),
            FolderLookup::NotAsked | FolderLookup::Failed(_) | FolderLookup::Undecodable => None,
        }
    }
}

impl Clone for FolderLookup {
    fn clone(&self) -> (copy: Self)
        ensures
            copy == *self,
    {
        match self {
            FolderLookup::NotAsked => FolderLookup::NotAsked,
            FolderLookup::Failed(status) => FolderLookup::Failed(*status),
            FolderLookup::Undecodable => FolderLookup::Undecodable,
            FolderLookup::Found(path) => FolderLookup::Found(path.clone()),
        }
    }
}

} // verus!
