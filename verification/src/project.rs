//! A detected project: one subdirectory paired with its resolved ecosystem.

use vstd::prelude::*;
use crate::ecosystem::Ecosystem;
use crate::ecosystem::detect_view;
use crate::ecosystem::file_views;

verus! {

/// One detected subdirectory paired with its resolved ecosystem. Created
/// once per detected subdirectory and immutable after construction.
#[derive(Debug)]
pub struct Project {
    /// The directory basename.
    pub name: String,
    /// The directory path, as text.
    pub root: String,
    /// The ecosystem whose marker file triggered detection.
    pub ecosystem: Ecosystem,
}

/// The view of a project: its name, its root and its ecosystem.
pub open spec fn project_view(p: Project) -> (Seq<char>, Seq<char>, Ecosystem) {
    (p.name@, p.root@, p.ecosystem)
}

impl Project {
    /// Builds the project for a directory from its basename, its path and
    /// the file names directly inside it. The project's ecosystem is always
    /// consistent with the marker detected from `files`; a directory with no
    /// recognized marker yields nothing.
    pub fn detect(name: String, root: String, files: &Vec<String>) -> (r: Option<Project>)
        ensures
            match r {
                Some(p) => {
                    &&& detect_view(file_views(files@)) == Some(p.ecosystem)
                    &&& p.name@ == name@
                    &&& p.root@ == root@
                },
                None => detect_view(file_views(files@)) is None,
            },
    {
        match Ecosystem::detect(files) {
            Some(ecosystem) => Some(
                Project { name, root, ecosystem },
            ),
            None => None,
        }
    }
}

} // verus!
