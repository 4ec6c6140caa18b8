//! Finding the root of the super-repository and its manifest, from what a
//! walk up the directory tree has seen.

use vstd::prelude::*;

use crate::error::{RepoStatusError, RepoStatusErrorView};

verus! {

/// One directory on the way from the starting directory up to the root of
/// the file system, and what was seen of the marker `.repo` in it.
#[derive(Clone, Debug, PartialEq, Eq)]
pub struct Candidate {
    pub directory: String,
    /// Something called `.repo` is in the directory.
    pub marker_exists: bool,
    /// What is called `.repo` there is a directory.
    pub marker_is_dir: bool,
}

/// A `Candidate` as a mathematical value.
pub struct CandidateView {
    pub directory: Seq<char>,
    pub marker_exists: bool,
    pub marker_is_dir: bool,
}

impl View for Candidate {
    type V = CandidateView;

    open spec fn view(&self) -> CandidateView {
        CandidateView {
            directory: self.directory@,
            marker_exists: self.marker_exists,
            marker_is_dir: self.marker_is_dir,
        }
    }
}

impl DeepView for Candidate {
    type V = CandidateView;

    open spec fn deep_view(&self) -> CandidateView {
        self@
    }
}

impl CandidateView {
    /// The directory holds the marker directory.
    pub open spec fn marked(self) -> bool {
        self.marker_exists && self.marker_is_dir
    }
}

/// The directory at `index` is the root: it is marked, and no directory
/// before it on the way up is.
pub open spec fn is_root_at(ancestors: Seq<CandidateView>, index: int) -> bool {
    &&& 0 <= index < ancestors.len()
    &&& ancestors[index].marked()
    &&& forall|nearer: int| 0 <= nearer < index ==> !(#[trigger] ancestors[nearer]).marked()
}

/// No directory on the way up is marked.
pub open spec fn unmarked(ancestors: Seq<CandidateView>) -> bool {
    forall|index: int| 0 <= index < ancestors.len() ==> !(#[trigger] ancestors[index]).marked()
}

/// The name of the marker directory.
pub fn marker_name() -> (name: &'static str)
    ensures
        name@ == ".repo"@,
{
    ".repo"
}

/// Where the manifest lies, relative to the root.
pub fn manifest_location() -> (location: &'static str)
    ensures
        location@ == ".repo/manifest.xml"@,
{
    ".repo/manifest.xml"
}

/// The place of the root among `ancestors`, which lead from the starting
/// directory upwards: the first that holds the marker directory.
pub fn root_index(ancestors: &Vec<Candidate>) -> (found: Option<usize>)
    ensures
        match found {
            Some(index) => is_root_at(ancestors.deep_view(), index as int),
            None => unmarked(ancestors.deep_view()),
        },
{
    let mut i: usize = 0;
    while i < ancestors.len()
        invariant
            i <= ancestors.len(),
            forall|nearer: int|
                0 <= nearer < i ==> !(#[trigger] ancestors.deep_view()[nearer]).marked(),
        decreases ancestors.len() - i,
    {
        if ancestors[i].marker_exists && ancestors[i].marker_is_dir {
            return Some(i);
        }
        i += 1;
    }
    None
}

/// The root of the super-repository: the nearest of `ancestors`, which lead
/// from the starting directory up to the root of the file system, that holds
/// the marker directory. Fails where none does.
pub fn find_repo_root(ancestors: &Vec<Candidate>) -> (root: Result<String, RepoStatusError>)
    ensures
        match root {
            Ok(directory) => exists|index: int|
                #[trigger] is_root_at(ancestors.deep_view(), index) && directory@
                    == ancestors.deep_view()[index].directory,
            Err(failure) => failure == RepoStatusError::RootNotFound && unmarked(
                ancestors.deep_view(),
            ),
        },
{
    match root_index(ancestors) {
        Some(index) => Ok(ancestors[index].directory.clone()),
        None => Err(RepoStatusError::RootNotFound),
    }
}

/// Whether the manifest is there to be read. `exists` tells whether a file
/// lies at its place; `manifest` is its path as text, where the path is
/// valid UTF-8. A missing manifest is reported with its path, and failing
/// that as a path that is not valid UTF-8.
pub fn find_manifest(manifest: Option<String>, exists: bool) -> (found: Result<
    (),
    RepoStatusError,
>)
    ensures
        exists ==> found is Ok,
        !exists ==> (match manifest {
            Some(path) => found matches Err(failure) && failure@
                == (RepoStatusErrorView::ManifestNotFound { path: path@ }),
            None => found matches Err(failure) && failure@ == RepoStatusErrorView::InvalidUtf8,
        }),
{
    if exists {
        Ok(())
    } else {
        match manifest {
            Some(path) => Err(RepoStatusError::ManifestNotFound { path }),
            None => Err(RepoStatusError::InvalidUtf8),
        }
    }
}

/// A chain of directories has at most one root: the walk up stops at the
/// first marked directory, whatever lies above it.
pub proof fn root_is_unique(ancestors: Seq<CandidateView>, first: int, second: int)
    requires
        is_root_at(ancestors, first),
        is_root_at(ancestors, second),
    ensures
        first == second,
{
    if first < second {
        assert(!ancestors[first].marked());
    } else if second < first {
        assert(!ancestors[second].marked());
    }
}

} // verus!
