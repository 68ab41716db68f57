//! The client's command/event bridge.
//!
//! The UI issues commands ([`SenderTypeServer`]); a single worker takes them
//! one at a time in arrival order, turns each into one network request
//! ([`Request`]), and turns the request's outcome into exactly one event
//! ([`SenderTypeUi`]) for the UI: the success event, or a failure, never both.

use crate::client::{
    failure_text, file_url, file_url_spec, resource_url, resource_url_spec, Error,
};
use crate::resource::{Files, Resource};
use vstd::prelude::*;

verus! {

/// A command from the UI.
#[derive(Debug, Clone)]
pub enum SenderTypeServer {
    /// Fetch the catalog.
    GetResources,
    /// Upload a clip; the event lists the known resources and the new one.
    AddResource(Vec<Resource>, Files),
    /// Fetch the audio file at this path, to play it.
    DownloadAudio(String),
}

/// An event for the UI.
#[derive(Debug, Default)]
pub enum SenderTypeUi {
    /// Nothing new.
    #[default]
    Nothing,
    /// The catalog, as one complete snapshot.
    Resources(Vec<Resource>),
    /// Audio bytes to play.
    PlayAudio(Vec<u8>),
    /// The command failed.
    Error(Error),
}

/// A network request that the worker makes for a command.
#[derive(Debug)]
pub enum Request {
    /// Fetch the catalog from this address.
    ListResources(String),
    /// Post this upload to this address.
    AddResource(String, Files),
    /// Fetch the bytes at this address.
    FetchFile(String),
}

/// What a successful request gave back.
#[derive(Debug)]
pub enum Reply {
    /// The catalog.
    Resources(Vec<Resource>),
    /// The record of the clip created.
    Created(Resource),
    /// A file's bytes.
    Bytes(Vec<u8>),
}

/// A command whose request is under way: what its event still needs.
#[derive(Debug)]
pub enum Pending {
    Listing,
    Adding(Vec<Resource>),
    Fetching,
}

impl SenderTypeServer {
    /// Whether `req` is the request that carries out this command.
    pub open spec fn carried_out_by(&self, req: &Request) -> bool {
        match self {
            SenderTypeServer::GetResources => req matches Request::ListResources(u) && u@
                == resource_url_spec(),
            SenderTypeServer::AddResource(_, files) => req matches Request::AddResource(u, f)
                && u@ == resource_url_spec() && f == files,
            SenderTypeServer::DownloadAudio(path) => req matches Request::FetchFile(u) && u@
                == file_url_spec(path@),
        }
    }

    /// What the command's event will need once its request is done.
    pub open spec fn pending(&self) -> Pending {
        match self {
            SenderTypeServer::GetResources => Pending::Listing,
            SenderTypeServer::AddResource(known, _) => Pending::Adding(*known),
            SenderTypeServer::DownloadAudio(_) => Pending::Fetching,
        }
    }

    /// Starts the command: the request to make, and what its event will need.
    pub fn into_request(self) -> (r: (Request, Pending))
        ensures
            self.carried_out_by(&r.0),
            r.1 == self.pending(),
    {
        match self {
            SenderTypeServer::GetResources => (
                Request::ListResources(resource_url()),
                Pending::Listing,
            ),
            SenderTypeServer::AddResource(known, files) => (
                Request::AddResource(resource_url(), files),
                Pending::Adding(known),
            ),
            SenderTypeServer::DownloadAudio(path) => (
                Request::FetchFile(file_url(path.as_str())),
                Pending::Fetching,
            ),
        }
    }
}

impl Pending {
    /// Whether `outcome` can answer the request: a failure, or the kind of
    /// reply that the request asks for.
    pub open spec fn accepts(&self, outcome: &Result<Reply, Error>) -> bool {
        match outcome {
            Err(_) => true,
            Ok(Reply::Resources(_)) => self is Listing,
            Ok(Reply::Created(_)) => self is Adding,
            Ok(Reply::Bytes(_)) => self is Fetching,
        }
    }

    /// Whether `outcome` can answer the request.
    pub fn accepts_outcome(&self, outcome: &Result<Reply, Error>) -> (r: bool)
        ensures
            r == self.accepts(outcome),
    {
        match (self, outcome) {
            (_, Err(_)) => true,
            (Pending::Listing, Ok(Reply::Resources(_))) => true,
            (Pending::Adding(_), Ok(Reply::Created(_))) => true,
            (Pending::Fetching, Ok(Reply::Bytes(_))) => true,
            _ => false,
        }
    }

    /// Whether `ev` is the event for `outcome`: the failure for a failed
    /// request; else the catalog fetched, the known resources followed by the
    /// one created, or the bytes fetched.
    pub open spec fn answers(&self, outcome: Result<Reply, Error>, ev: SenderTypeUi) -> bool {
        match outcome {
            Err(e) => ev == SenderTypeUi::Error(e),
            Ok(Reply::Resources(v)) => ev == SenderTypeUi::Resources(v),
            Ok(Reply::Created(r)) => self matches Pending::Adding(known) && ev matches SenderTypeUi::Resources(w)
                && w@ == known@.push(r),
            Ok(Reply::Bytes(b)) => ev == SenderTypeUi::PlayAudio(b),
        }
    }

    /// The one event for the request's outcome.
    pub fn complete(self, outcome: Result<Reply, Error>) -> (ev: SenderTypeUi)
        requires
            self.accepts(&outcome),
        ensures
            self.answers(outcome, ev),
    {
        match outcome {
            Err(e) => SenderTypeUi::Error(e),
            Ok(Reply::Resources(v)) => SenderTypeUi::Resources(v),
            Ok(Reply::Created(r)) => match self {
                Pending::Adding(known) => {
                    let mut all = known;
                    all.push(r);
                    SenderTypeUi::Resources(all)
                },
                _ => SenderTypeUi::Nothing,
            },
            Ok(Reply::Bytes(b)) => SenderTypeUi::PlayAudio(b),
        }
    }
}

/// Catalog fetches issued in any number, and carried out one at a time,
/// give one event each, in order, and every event is whole: the catalog that
/// its own request returned, unchanged, or the failure of its own request.
/// No event merges two replies.
pub proof fn lemma_catalog_fetches(
    cmds: Seq<SenderTypeServer>,
    outcomes: Seq<Result<Reply, Error>>,
    events: Seq<SenderTypeUi>,
)
    requires
        outcomes.len() == cmds.len(),
        events.len() == cmds.len(),
        forall|i: int| 0 <= i < cmds.len() ==> #[trigger] cmds[i] is GetResources,
        forall|i: int|
            0 <= i < cmds.len() ==> cmds[i].pending().accepts(&#[trigger] outcomes[i]),
        forall|i: int|
            0 <= i < cmds.len() ==> cmds[i].pending().answers(outcomes[i], #[trigger] events[i]),
    ensures
        forall|i: int|
            0 <= i < cmds.len() ==> match #[trigger] outcomes[i] {
                Ok(Reply::Resources(v)) => events[i] == SenderTypeUi::Resources(v),
                Err(e) => events[i] == SenderTypeUi::Error(e),
                _ => false,
            },
{
    assert forall|i: int| 0 <= i < cmds.len() implies match #[trigger] outcomes[i] {
        Ok(Reply::Resources(v)) => events[i] == SenderTypeUi::Resources(v),
        Err(e) => events[i] == SenderTypeUi::Error(e),
        _ => false,
    } by {
        assert(cmds[i].pending().accepts(&outcomes[i]));
        assert(cmds[i].pending().answers(outcomes[i], events[i]));
    }
}

/// Fetching a file that the service does not have, which it answers with an
/// empty not-found reply, gives exactly one event: a failure that reports
/// `NothingFound`.
pub proof fn lemma_missing_file(path: String, failure: Error, ev: SenderTypeUi)
    requires
        failure matches Error::Custom(t) && t@ == failure_text(404, Seq::empty()),
        SenderTypeServer::DownloadAudio(path).pending().answers(Err(failure), ev),
    ensures
        ev matches SenderTypeUi::Error(Error::Custom(t)) && t@ == "NothingFound"@,
{
}

} // verus!
