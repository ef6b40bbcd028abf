//! The error type shared by every component of the acquisition engine.

use vstd::prelude::*;

verus! {

/// Everything that can end an acquisition early.
///
/// Variants that stand for a failure reported by the transport, the
/// filesystem or the task runtime carry that failure's own description as
/// text, so the type holds plain values only.
#[derive(Debug)]
pub enum ProtonError {
    /// The request, or the body stream of its response, failed. Never retried.
    RequestError(String),
    /// The catalog lists no version with the given identifier.
    VersionNotFound(String),
    /// Creating a directory, writing a file or renaming it failed. Never retried.
    IoError(String),
    /// Every permitted attempt delivered content with the wrong digest.
    HashMismatch,
    /// A unit of concurrent work did not run to completion.
    JoinError(String),
    /// Anything else, archive failures included.
    Other(String),
}

/// The mathematical value of a [`ProtonError`].
pub enum ProtonErrorView {
    RequestError(Seq<char>),
    VersionNotFound(Seq<char>),
    IoError(Seq<char>),
    HashMismatch,
    JoinError(Seq<char>),
    Other(Seq<char>),
}

impl View for ProtonError {
    type V = ProtonErrorView;

    open spec fn view(&self) -> ProtonErrorView {
        match self {
            ProtonError::RequestError(s) => ProtonErrorView::RequestError(s@),
            ProtonError::VersionNotFound(s) => ProtonErrorView::VersionNotFound(s@),
            ProtonError::IoError(s) => ProtonErrorView::IoError(s@),
            ProtonError::HashMismatch => ProtonErrorView::HashMismatch,
            ProtonError::JoinError(s) => ProtonErrorView::JoinError(s@),
            ProtonError::Other(s) => ProtonErrorView::Other(s@),
        }
    }
}

impl Clone for ProtonError {
    fn clone(&self) -> (r: Self)
        ensures
            r@ == self@,
    {
        match self {
            ProtonError::RequestError(s) => ProtonError::RequestError(s.clone()),
            ProtonError::VersionNotFound(s) => ProtonError::VersionNotFound(s.clone()),
            ProtonError::IoError(s) => ProtonError::IoError(s.clone()),
            ProtonError::HashMismatch => ProtonError::HashMismatch,
            ProtonError::JoinError(s) => ProtonError::JoinError(s.clone()),
            ProtonError::Other(s) => ProtonError::Other(s.clone()),
        }
    }
}

impl PartialEq for ProtonError {
    fn eq(&self, other: &Self) -> (r: bool) {
        match (self, other) {
            (ProtonError::RequestError(a), ProtonError::RequestError(b)) => *a == *b,
            (ProtonError::VersionNotFound(a), ProtonError::VersionNotFound(b)) => *a == *b,
            (ProtonError::IoError(a), ProtonError::IoError(b)) => *a == *b,
            (ProtonError::HashMismatch, ProtonError::HashMismatch) => true,
            (ProtonError::JoinError(a), ProtonError::JoinError(b)) => *a == *b,
            (ProtonError::Other(a), ProtonError::Other(b)) => *a == *b,
            _ => false,
        }
    }
}

impl vstd::std_specs::cmp::PartialEqSpecImpl for ProtonError {
    open spec fn obeys_eq_spec() -> bool {
        true
    }

    open spec fn eq_spec(&self, other: &Self) -> bool {
        self@ == other@
    }
}

/// The text a [`ProtonError`] with value `e` is reported with.
pub open spec fn spec_message(e: ProtonErrorView) -> Seq<char> {
    match e {
        ProtonErrorView::RequestError(d) => "Request failed: "@ + d,
        ProtonErrorView::VersionNotFound(id) => "Version "@ + id + " not found."@,
        ProtonErrorView::IoError(d) => "Filesystem error "@ + d,
        ProtonErrorView::HashMismatch => "Hash mismatch"@,
        ProtonErrorView::JoinError(_) => "Concurrency Error"@,
        ProtonErrorView::Other(d) => "Other error: "@ + d,
    }
}

impl ProtonError {
    /// The human-readable report of this error.
    pub fn message(&self) -> (r: String)
        ensures
            r@ == spec_message(self@),
    {
        match self {
            ProtonError::RequestError(d) => String::from_str("Request failed: ").concat(
                d.as_str(),
            ),
            ProtonError::VersionNotFound(id) => String::from_str("Version ").concat(
                id.as_str(),
            ).concat(" not found."),
            ProtonError::IoError(d) => String::from_str("Filesystem error ").concat(d.as_str()),
            ProtonError::HashMismatch => String::from_str("Hash mismatch"),
            ProtonError::JoinError(_) => String::from_str("Concurrency Error"),
            ProtonError::Other(d) => String::from_str("Other error: ").concat(d.as_str()),
        }
    }

    /// The error an unreadable or corrupt archive is reported as; `detail`
    /// is the archive reader's own description.
    pub fn from_archive_failure(detail: &str) -> (r: Self)
        ensures
            r@ == ProtonErrorView::Other("Zip extraction error: "@ + detail@),
    {
        ProtonError::Other(String::from_str("Zip extraction error: ").concat(detail))
    }

    /// The error any failure without a variant of its own is reported as.
    pub fn from_description(detail: &str) -> (r: Self)
        ensures
            r@ == ProtonErrorView::Other(detail@),
    {
        ProtonError::Other(String::from_str(detail))
    }
}

} // verus!
