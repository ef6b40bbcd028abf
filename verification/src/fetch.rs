//! The content-verified fetcher, as a state machine.
//!
//! A [`FetchSession`] decides what happens to one item: when to request,
//! when to publish the file and when to give up. Its driver performs each
//! [`FetchAction`] and reports what came of it as a [`FetchEvent`]. The body
//! of a response is streamed to a temporary file beside the destination and
//! only a body with the expected digest is ever renamed to the destination.

use crate::digest::{hash_matches, hex_lower, sha1, HashAccumulator, DIGEST_INPUT_LIMIT};
use crate::errors::{ProtonError, ProtonErrorView};
use crate::text::concat;
use vstd::prelude::*;

verus! {

/// How many times an item is requested before a wrong digest is final.
pub const MAX_DOWNLOAD_ATTEMPTS: usize = 3;

/// The path of the temporary file of a destination: the same path with a
/// suffix of its own.
pub open spec fn spec_temp_path(destination: Seq<char>) -> Seq<char> {
    destination + ".tmp"@
}

/// The path of the temporary file a body is streamed to before it is
/// verified.
pub fn temp_path(destination: &str) -> (path: String)
    ensures
        path@ == spec_temp_path(destination@),
{
    concat(destination, ".tmp")
}

/// The digest a body is identified by, in lower-case hex; none for a body
/// too long for a digest to be computed.
pub open spec fn spec_digest(body: Seq<u8>) -> Option<Seq<char>> {
    if body.len() < DIGEST_INPUT_LIMIT {
        Some(hex_lower(sha1(body)))
    } else {
        None
    }
}

/// What the driver reports after it performed an action.
#[derive(Debug)]
pub enum FetchEvent {
    /// The request failed or the stream of the body broke; the text is the
    /// transport's description.
    TransportFailed(String),
    /// A directory could not be created, the temporary file could not be
    /// written, or the rename failed; the text is the system's description.
    FilesystemFailed(String),
    /// The whole body is in the temporary file and this is its digest, or
    /// `None` if it was too long for a digest to be computed.
    BodyReceived(Option<String>),
    /// The temporary file was renamed to the destination.
    Promoted,
}

/// The mathematical value of a [`FetchEvent`].
pub enum FetchEventView {
    TransportFailed(Seq<char>),
    FilesystemFailed(Seq<char>),
    BodyReceived(Option<Seq<char>>),
    Promoted,
}

impl View for FetchEvent {
    type V = FetchEventView;

    open spec fn view(&self) -> FetchEventView {
        match self {
            FetchEvent::TransportFailed(d) => FetchEventView::TransportFailed(d@),
            FetchEvent::FilesystemFailed(d) => FetchEventView::FilesystemFailed(d@),
            FetchEvent::BodyReceived(Some(h)) => FetchEventView::BodyReceived(Some(h@)),
            FetchEvent::BodyReceived(None) => FetchEventView::BodyReceived(None),
            FetchEvent::Promoted => FetchEventView::Promoted,
        }
    }
}

/// What the driver has to do next.
#[derive(Debug, Clone, Copy, PartialEq, Eq, Structural)]
pub enum FetchAction {
    /// Issue the request from scratch, make sure the destination's directory
    /// exists, and stream the body to the temporary file while hashing it.
    Request,
    /// Remove the temporary file, then do as for `Request`.
    DiscardAndRequest,
    /// Rename the temporary file to the destination.
    Promote,
    /// Remove the temporary file if there is one; the fetch has failed.
    DiscardAndStop,
    /// Nothing is left to do.
    Stop,
}

/// Where a fetch stands.
pub enum FetchStatusView {
    /// A request is under way.
    Requesting,
    /// A verified body is being renamed to the destination.
    Promoting,
    /// The file is at its destination.
    Succeeded,
    /// The fetch has failed for good.
    Failed(ProtonErrorView),
}

/// The mathematical state of a fetch.
pub struct FetchView {
    /// The digest the content must have, in lower-case hex.
    pub expected_hash: Seq<char>,
    /// How many requests have been issued, the one under way included.
    pub attempts: nat,
    pub status: FetchStatusView,
}

impl FetchView {
    /// The state of a fetch whose first request is under way.
    pub open spec fn fresh(expected_hash: Seq<char>) -> FetchView {
        FetchView { expected_hash, attempts: 1, status: FetchStatusView::Requesting }
    }

    /// Whether a body with this digest is the expected content.
    pub open spec fn accepts(self, digest: Option<Seq<char>>) -> bool {
        digest == Some(self.expected_hash)
    }

    /// Whether the fetch has come to its end.
    pub open spec fn is_finished(self) -> bool {
        self.status is Succeeded || self.status is Failed
    }

    /// The result of the fetch, once it has come to its end.
    pub open spec fn result(self) -> Option<Result<(), ProtonErrorView>> {
        match self.status {
            FetchStatusView::Succeeded => Some(Ok(())),
            FetchStatusView::Failed(e) => Some(Err(e)),
            _ => None,
        }
    }

    /// The state after `event`. A transport or filesystem failure ends the
    /// fetch at once. A body with the expected digest is promoted. A body
    /// with another digest is discarded and requested again, unless all
    /// attempts are used up: then the fetch fails with a hash mismatch. An
    /// event that cannot follow the last action changes nothing.
    pub open spec fn step(self, event: FetchEventView) -> FetchView {
        match (self.status, event) {
            (FetchStatusView::Requesting, FetchEventView::TransportFailed(d)) => FetchView {
                status: FetchStatusView::Failed(ProtonErrorView::RequestError(d)),
                ..self
            },
            (FetchStatusView::Requesting, FetchEventView::FilesystemFailed(d)) => FetchView {
                status: FetchStatusView::Failed(ProtonErrorView::IoError(d)),
                ..self
            },
            (FetchStatusView::Requesting, FetchEventView::BodyReceived(digest)) => {
                if self.accepts(digest) {
                    FetchView { status: FetchStatusView::Promoting, ..self }
                } else if self.attempts < MAX_DOWNLOAD_ATTEMPTS {
                    FetchView { attempts: self.attempts + 1, ..self }
                } else {
                    FetchView {
                        status: FetchStatusView::Failed(ProtonErrorView::HashMismatch),
                        ..self
                    }
                }
            },
            (FetchStatusView::Promoting, FetchEventView::Promoted) => FetchView {
                status: FetchStatusView::Succeeded,
                ..self
            },
            (FetchStatusView::Promoting, FetchEventView::FilesystemFailed(d)) => FetchView {
                status: FetchStatusView::Failed(ProtonErrorView::IoError(d)),
                ..self
            },
            _ => self,
        }
    }

    /// What the driver has to do after it reported `event` in this state.
    pub open spec fn action(self, event: FetchEventView) -> FetchAction {
        match (self.status, event) {
            (FetchStatusView::Requesting, FetchEventView::TransportFailed(_)) => {
                FetchAction::DiscardAndStop
            },
            (FetchStatusView::Requesting, FetchEventView::FilesystemFailed(_)) => {
                FetchAction::DiscardAndStop
            },
            (FetchStatusView::Requesting, FetchEventView::BodyReceived(digest)) => {
                if self.accepts(digest) {
                    FetchAction::Promote
                } else if self.attempts < MAX_DOWNLOAD_ATTEMPTS {
                    FetchAction::DiscardAndRequest
                } else {
                    FetchAction::DiscardAndStop
                }
            },
            (FetchStatusView::Promoting, FetchEventView::FilesystemFailed(_)) => {
                FetchAction::DiscardAndStop
            },
            _ => FetchAction::Stop,
        }
    }

    /// The state after a sequence of events, taken in order.
    pub open spec fn run(self, events: Seq<FetchEventView>) -> FetchView
        decreases events.len(),
    {
        if events.len() == 0 {
            self
        } else {
            self.run(events.drop_last()).step(events.last())
        }
    }
}

/// Whether `event` reports a body that is not the expected content.
pub open spec fn is_wrong_body(expected_hash: Seq<char>, event: FetchEventView) -> bool {
    match event {
        FetchEventView::BodyReceived(digest) => digest != Some(expected_hash),
        _ => false,
    }
}

/// The hash gate, step by step: the driver is told to promote exactly when
/// a request was under way and the body it reports has the expected digest;
/// no other step leads towards the destination.
pub proof fn lemma_hash_gate(s: FetchView, event: FetchEventView)
    ensures
        s.action(event) == FetchAction::Promote <==> s.status is Requesting && event
            == FetchEventView::BodyReceived(Some(s.expected_hash)),
        s.step(event).status is Promoting ==> s.status is Promoting || event
            == FetchEventView::BodyReceived(Some(s.expected_hash)),
        s.step(event).status is Succeeded ==> s.status is Succeeded || s.status is Promoting,
        s.step(event).expected_hash == s.expected_hash,
{
}

/// The hash gate, over a whole fetch: as long as no body with the expected
/// digest was reported, nothing was promoted and the fetch did not succeed.
pub proof fn lemma_no_success_without_match(expected_hash: Seq<char>, events: Seq<FetchEventView>)
    requires
        forall|i: int|
            0 <= i < events.len() ==> events[i] != FetchEventView::BodyReceived(
                Some(expected_hash),
            ),
    ensures
        !(FetchView::fresh(expected_hash).run(events).status is Promoting),
        !(FetchView::fresh(expected_hash).run(events).status is Succeeded),
        FetchView::fresh(expected_hash).run(events).expected_hash == expected_hash,
    decreases events.len(),
{
    if events.len() > 0 {
        lemma_no_success_without_match(expected_hash, events.drop_last());
        lemma_hash_gate(FetchView::fresh(expected_hash).run(events.drop_last()), events.last());
    }
}

/// The hash gate, over the actions of a whole fetch: as long as no body
/// with the expected digest was reported, the driver was never told to
/// promote.
pub proof fn lemma_no_promotion_without_match(
    expected_hash: Seq<char>,
    events: Seq<FetchEventView>,
    at: int,
)
    requires
        forall|i: int|
            0 <= i < events.len() ==> events[i] != FetchEventView::BodyReceived(
                Some(expected_hash),
            ),
        0 <= at < events.len(),
    ensures
        FetchView::fresh(expected_hash).run(events.take(at)).action(events[at])
            != FetchAction::Promote,
{
    lemma_no_success_without_match(expected_hash, events.take(at));
    lemma_hash_gate(FetchView::fresh(expected_hash).run(events.take(at)), events[at]);
}

/// A fetch that has come to its end stays as it is, whatever is reported.
pub proof fn lemma_finished_is_final(s: FetchView, events: Seq<FetchEventView>)
    requires
        s.is_finished(),
    ensures
        s.run(events) == s,
    decreases events.len(),
{
    if events.len() > 0 {
        lemma_finished_is_final(s, events.drop_last());
    }
}

/// The retry bound: if every body that arrives has a wrong digest, then
/// after each of the first `MAX_DOWNLOAD_ATTEMPTS - 1` bodies the item is
/// requested once more, and with the body of request number
/// `MAX_DOWNLOAD_ATTEMPTS` the fetch fails with a hash mismatch. No further
/// request is ever issued.
pub proof fn lemma_retry_bound(expected_hash: Seq<char>, events: Seq<FetchEventView>, bodies: int)
    requires
        forall|i: int| 0 <= i < events.len() ==> is_wrong_body(expected_hash, events[i]),
        0 <= bodies <= events.len(),
    ensures
        bodies < MAX_DOWNLOAD_ATTEMPTS ==> FetchView::fresh(expected_hash).run(
            events.take(bodies),
        ) == (FetchView {
            expected_hash,
            attempts: (bodies + 1) as nat,
            status: FetchStatusView::Requesting,
        }),
        bodies >= MAX_DOWNLOAD_ATTEMPTS ==> FetchView::fresh(expected_hash).run(
            events.take(bodies),
        ) == (FetchView {
            expected_hash,
            attempts: MAX_DOWNLOAD_ATTEMPTS as nat,
            status: FetchStatusView::Failed(ProtonErrorView::HashMismatch),
        }),
        bodies < events.len() ==> FetchView::fresh(expected_hash).run(events.take(bodies)).action(
            events[bodies],
        ) == if bodies + 1 < MAX_DOWNLOAD_ATTEMPTS {
            FetchAction::DiscardAndRequest
        } else if bodies + 1 == MAX_DOWNLOAD_ATTEMPTS {
            FetchAction::DiscardAndStop
        } else {
            FetchAction::Stop
        },
    decreases bodies,
{
    if bodies > 0 {
        lemma_retry_bound(expected_hash, events, bodies - 1);
        assert(events.take(bodies).drop_last() == events.take(bodies - 1));
    }
}

/// A transport failure is never retried: reported for the first request, it
/// ends the fetch at once with that failure, after one request, and nothing
/// that is reported later changes that.
pub proof fn lemma_transport_failure_is_final(
    expected_hash: Seq<char>,
    detail: Seq<char>,
    later: Seq<FetchEventView>,
)
    ensures
        FetchView::fresh(expected_hash).action(FetchEventView::TransportFailed(detail))
            == FetchAction::DiscardAndStop,
        FetchView::fresh(expected_hash).step(FetchEventView::TransportFailed(detail)).run(later)
            == (FetchView {
            expected_hash,
            attempts: 1,
            status: FetchStatusView::Failed(ProtonErrorView::RequestError(detail)),
        }),
{
    lemma_finished_is_final(
        FetchView::fresh(expected_hash).step(FetchEventView::TransportFailed(detail)),
        later,
    );
}

/// Where a fetch stands.
#[derive(Debug)]
pub enum FetchStatus {
    /// A request is under way.
    Requesting,
    /// A verified body is being renamed to the destination.
    Promoting,
    /// The file is at its destination.
    Succeeded,
    /// The fetch has failed for good.
    Failed(ProtonError),
}

impl View for FetchStatus {
    type V = FetchStatusView;

    open spec fn view(&self) -> FetchStatusView {
        match self {
            FetchStatus::Requesting => FetchStatusView::Requesting,
            FetchStatus::Promoting => FetchStatusView::Promoting,
            FetchStatus::Succeeded => FetchStatusView::Succeeded,
            FetchStatus::Failed(e) => FetchStatusView::Failed(e@),
        }
    }
}

/// The fetch of one item.
#[derive(Debug)]
pub struct FetchSession {
    expected_hash: String,
    attempts: usize,
    status: FetchStatus,
}

impl View for FetchSession {
    type V = FetchView;

    closed spec fn view(&self) -> FetchView {
        FetchView {
            expected_hash: self.expected_hash@,
            attempts: self.attempts as nat,
            status: self.status@,
        }
    }
}

impl FetchSession {
    /// The fetch of an item whose content must have the digest
    /// `expected_hash`. The driver begins with [`FetchAction::Request`].
    pub fn new(expected_hash: String) -> (session: FetchSession)
        ensures
            session@ == FetchView::fresh(expected_hash@),
    {
        FetchSession { expected_hash, attempts: 1, status: FetchStatus::Requesting }
    }

    /// How many requests have been issued, the one under way included.
    pub fn attempts(&self) -> (n: usize)
        ensures
            n == self@.attempts,
    {
        self.attempts
    }

    /// Whether the fetch has come to its end.
    pub fn is_finished(&self) -> (finished: bool)
        ensures
            finished == self@.is_finished(),
    {
        match self.status {
            FetchStatus::Succeeded => true,
            FetchStatus::Failed(_) => true,
            _ => false,
        }
    }

    /// The result of the fetch; `None` while it is under way.
    pub fn result(&self) -> (result: Option<Result<(), ProtonError>>)
        ensures
            match result {
                Some(Ok(_)) => self@.result() == Some(Ok::<(), ProtonErrorView>(())),
                Some(Err(e)) => self@.result() == Some(Err::<(), ProtonErrorView>(e@)),
                None => self@.result() is None,
            },
    {
        match &self.status {
            FetchStatus::Succeeded => Some(Ok(())),
            FetchStatus::Failed(e) => Some(Err(e.clone())),
            _ => None,
        }
    }

    /// Takes the driver's report and says what to do next.
    pub fn step(&mut self, event: FetchEvent) -> (action: FetchAction)
        ensures
            final(self)@ == old(self)@.step(event@),
            action == old(self)@.action(event@),
    {
        match self.status {
            FetchStatus::Requesting => match event {
                FetchEvent::TransportFailed(detail) => {
                    self.status = FetchStatus::Failed(ProtonError::RequestError(detail));
                    FetchAction::DiscardAndStop
                },
                FetchEvent::FilesystemFailed(detail) => {
                    self.status = FetchStatus::Failed(ProtonError::IoError(detail));
                    FetchAction::DiscardAndStop
                },
                FetchEvent::BodyReceived(digest) => {
                    let accepted = match digest {
                        Some(actual_hash) => hash_matches(
                            actual_hash.as_str(),
                            self.expected_hash.as_str(),
                        ),
                        None => false,
                    };
                    if accepted {
                        self.status = FetchStatus::Promoting;
                        FetchAction::Promote
                    } else if self.attempts < MAX_DOWNLOAD_ATTEMPTS {
                        self.attempts = self.attempts + 1;
                        FetchAction::DiscardAndRequest
                    } else {
                        self.status = FetchStatus::Failed(ProtonError::HashMismatch);
                        FetchAction::DiscardAndStop
                    }
                },
                FetchEvent::Promoted => FetchAction::Stop,
            },
            FetchStatus::Promoting => match event {
                FetchEvent::Promoted => {
                    self.status = FetchStatus::Succeeded;
                    FetchAction::Stop
                },
                FetchEvent::FilesystemFailed(detail) => {
                    self.status = FetchStatus::Failed(ProtonError::IoError(detail));
                    FetchAction::DiscardAndStop
                },
                _ => FetchAction::Stop,
            },
            _ => FetchAction::Stop,
        }
    }

    /// Takes the report that the whole body is in the temporary file, with
    /// the accumulator that has seen every byte written there, and says what
    /// to do next. The file is promoted only if the digest of exactly those
    /// bytes is the expected one.
    pub fn body_received(&mut self, body: HashAccumulator) -> (action: FetchAction)
        requires
            body.wf(),
        ensures
            final(self)@ == old(self)@.step(FetchEventView::BodyReceived(spec_digest(body@))),
            action == old(self)@.action(FetchEventView::BodyReceived(spec_digest(body@))),
            action == FetchAction::Promote ==> spec_digest(body@) == Some(
                old(self)@.expected_hash,
            ),
    {
        self.step(FetchEvent::BodyReceived(body.finish()))
    }
}

} // verus!
