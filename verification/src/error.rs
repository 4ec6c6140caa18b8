//! The failures of a run.

use vstd::prelude::*;

verus! {

/// Why a run failed.
#[derive(Clone, Debug, PartialEq, Eq)]
pub enum RepoStatusError {
    /// No ancestor of the starting directory holds the marker directory.
    RootNotFound,
    /// The manifest file is not there.
    ManifestNotFound { path: String },
    /// A path is not valid UTF-8.
    InvalidUtf8,
    /// The manifest is not well-formed XML, or an element lacks what it must hold.
    ManifestParseError { message: String },
    /// A project's checkout holds no repository that could be opened.
    RepositoryUnavailable { path: String, reason: String },
    /// The external tool is not on the executable search path.
    ExternalToolNotFound,
    /// The external tool could not be started, for another reason.
    ExternalToolFailed,
}

/// A `RepoStatusError` as a mathematical value.
pub enum RepoStatusErrorView {
    RootNotFound,
    ManifestNotFound { path: Seq<char> },
    InvalidUtf8,
    ManifestParseError { message: Seq<char> },
    RepositoryUnavailable { path: Seq<char>, reason: Seq<char> },
    ExternalToolNotFound,
    ExternalToolFailed,
}

impl View for RepoStatusError {
    type V = RepoStatusErrorView;

    open spec fn view(&self) -> RepoStatusErrorView {
        match self {
            RepoStatusError::RootNotFound => RepoStatusErrorView::RootNotFound,
            RepoStatusError::ManifestNotFound { path } => RepoStatusErrorView::ManifestNotFound {
                path: path@,
            },
            RepoStatusError::InvalidUtf8 => RepoStatusErrorView::InvalidUtf8,
            RepoStatusError::ManifestParseError {
                message,
            } => RepoStatusErrorView::ManifestParseError { message: message@ },
            RepoStatusError::RepositoryUnavailable {
                path,
                reason,
            } => RepoStatusErrorView::RepositoryUnavailable { path: path@, reason: reason@ },
            RepoStatusError::ExternalToolNotFound => RepoStatusErrorView::ExternalToolNotFound,
            RepoStatusError::ExternalToolFailed => RepoStatusErrorView::ExternalToolFailed,
        }
    }
}

impl DeepView for RepoStatusError {
    type V = RepoStatusErrorView;

    open spec fn deep_view(&self) -> RepoStatusErrorView {
        self@
    }
}

impl RepoStatusErrorView {
    /// The message that is printed after the label `Error:`.
    pub open spec fn message(self) -> Seq<char> {
        match self {
            RepoStatusErrorView::RootNotFound => "Repo not found in current directory."@,
            RepoStatusErrorView::ManifestNotFound { path } => "Manifest does not exists at: "@
                + path,
            RepoStatusErrorView::InvalidUtf8 => "Invalid utf8"@,
            RepoStatusErrorView::ManifestParseError { message } => message,
            RepoStatusErrorView::RepositoryUnavailable { path, reason } => reason,
            RepoStatusErrorView::ExternalToolNotFound => "`repo` was not found! Check your PATH!"@,
            RepoStatusErrorView::ExternalToolFailed => "Some strange error occurred :("@,
        }
    }
}

impl RepoStatusError {
    /// The message that is printed after the label `Error:`.
    pub fn message(&self) -> (text: String)
        ensures
            text@ == self@.message(),
    {
        match self {
            RepoStatusError::RootNotFound => String::from_str(
                "Repo not found in current directory.",
            ),
            RepoStatusError::ManifestNotFound { path } => String::from_str(
                "Manifest does not exists at: ",
            ).concat(path.as_str()),
            RepoStatusError::InvalidUtf8 => String::from_str("Invalid utf8"),
            RepoStatusError::ManifestParseError { message } => message.clone(),
            RepoStatusError::RepositoryUnavailable { path, reason } => reason.clone(),
            RepoStatusError::ExternalToolNotFound => String::from_str(
                "`repo` was not found! Check your PATH!",
            ),
            RepoStatusError::ExternalToolFailed => String::from_str(
                "Some strange error occurred :(",
            ),
        }
    }
}

} // verus!
