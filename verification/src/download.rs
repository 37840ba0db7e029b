//! The download service: a link to an object is handed out only after the
//! store has confirmed that the object is there. An object that the store
//! reports as absent is not found; a store that cannot be asked, or answers
//! out of order, has failed.
//!
//! The gateway never carries the object's bytes: it redirects the client to
//! a signed address at the store that is valid for a limited time.

use crate::error::{is_success, succeeded, GatewayError};
use vstd::prelude::*;
use vstd::string::*;

verus! {

/// How long a signed download link stays valid, in seconds.
pub const LINK_TTL_SECONDS: u32 = 3600;

/// The HTTP status of the answer that carries a download link.
pub const REDIRECT_STATUS: u16 = 302;

/// The HTTP status with which the store says that it has no such object.
pub const ABSENT_STATUS: u16 = 404;

/// Where a download request stands.
#[derive(Clone, Debug, PartialEq, Eq)]
pub enum DownloadState {
    /// The store was asked whether the object is there.
    CheckingObject { key: String },
    /// The object is there; the store was asked for a signed link.
    Signing,
    /// The request was answered.
    Finished,
}

/// What a `DownloadState` holds.
pub enum DownloadStateModel {
    CheckingObject { key: Seq<char> },
    Signing,
    Finished,
}

impl View for DownloadState {
    type V = DownloadStateModel;

    open spec fn view(&self) -> DownloadStateModel {
        match self {
            DownloadState::CheckingObject { key } => DownloadStateModel::CheckingObject {
                key: key@,
            },
            DownloadState::Signing => DownloadStateModel::Signing,
            DownloadState::Finished => DownloadStateModel::Finished,
        }
    }
}

/// What came back from the call that the service asked for.
#[derive(Clone, Debug, PartialEq, Eq)]
pub enum DownloadEvent {
    /// The HTTP status of the store's answer to the existence check, or
    /// nothing where the call failed.
    HeadReply(Option<u16>),
    /// The signed link, or nothing where the store could not make one.
    PresignReply(Option<String>),
}

/// What a `DownloadEvent` holds.
pub enum DownloadEventModel {
    HeadReply(Option<u16>),
    PresignReply(Option<Seq<char>>),
}

impl View for DownloadEvent {
    type V = DownloadEventModel;

    open spec fn view(&self) -> DownloadEventModel {
        match self {
            DownloadEvent::HeadReply(status) => DownloadEventModel::HeadReply(*status),
            DownloadEvent::PresignReply(link) => DownloadEventModel::PresignReply(
                link.deep_view(),
            ),
        }
    }
}

/// What the caller is to do next.
#[derive(Clone, Debug, PartialEq, Eq)]
pub enum DownloadAction {
    /// Ask the store whether the object `key` is there.
    Head { key: String },
    /// Ask the store for a signed link to `key` that is valid for
    /// `ttl_seconds`.
    Presign { key: String, ttl_seconds: u32 },
    /// Redirect the client to `location`, for the time being.
    Redirect { location: String },
    /// Answer with the failure.
    Fail(GatewayError),
}

/// What a `DownloadAction` holds.
pub enum DownloadActionModel {
    Head { key: Seq<char> },
    Presign { key: Seq<char>, ttl_seconds: u32 },
    Redirect { location: Seq<char> },
    Fail(GatewayError),
}

impl View for DownloadAction {
    type V = DownloadActionModel;

    open spec fn view(&self) -> DownloadActionModel {
        match self {
            DownloadAction::Head { key } => DownloadActionModel::Head { key: key@ },
            DownloadAction::Presign { key, ttl_seconds } => DownloadActionModel::Presign {
                key: key@,
                ttl_seconds: *ttl_seconds,
            },
            DownloadAction::Redirect { location } => DownloadActionModel::Redirect {
                location: location@,
            },
            DownloadAction::Fail(e) => DownloadActionModel::Fail(*e),
        }
    }
}

/// How a request starts: with the existence check.
pub open spec fn download_begin(key: Seq<char>) -> (DownloadStateModel, DownloadActionModel) {
    (DownloadStateModel::CheckingObject { key }, DownloadActionModel::Head { key })
}

/// How a request goes on. An existence check that the store answers in
/// good order is followed by the signing of a link. One that it answers
/// with `ABSENT_STATUS` says that the object is absent. One that fails, or
/// that it answers with any other status, is a failure of the store, and so
/// is a link that cannot be signed. An answer that was not asked for ends
/// the request as a failure.
pub open spec fn download_next(state: DownloadStateModel, event: DownloadEventModel) -> (
    DownloadStateModel,
    DownloadActionModel,
) {
    match (state, event) {
        (DownloadStateModel::CheckingObject { key }, DownloadEventModel::HeadReply(Some(status))) => {
            if is_success(status) {
                (
                    DownloadStateModel::Signing,
                    DownloadActionModel::Presign { key, ttl_seconds: LINK_TTL_SECONDS },
                )
            } else if status == ABSENT_STATUS {
                (DownloadStateModel::Finished, DownloadActionModel::Fail(GatewayError::NotFound))
            } else {
                (
                    DownloadStateModel::Finished,
                    DownloadActionModel::Fail(GatewayError::UpstreamError),
                )
            }
        },
        (DownloadStateModel::Signing, DownloadEventModel::PresignReply(Some(location))) => (
            DownloadStateModel::Finished,
            DownloadActionModel::Redirect { location },
        ),
        _ => (DownloadStateModel::Finished, DownloadActionModel::Fail(GatewayError::UpstreamError)),
    }
}

/// A link is handed out only for an object that the store has confirmed:
/// whatever state a redirect comes from, it comes from `Signing`, and
/// `Signing` is entered only on a check that the store answered in good
/// order.
pub proof fn lemma_redirect_follows_confirmation(
    state: DownloadStateModel,
    event: DownloadEventModel,
)
    ensures
        download_next(state, event).1 is Redirect ==> state is Signing,
        download_next(state, event).0 is Signing ==> state is CheckingObject && (
        event matches DownloadEventModel::HeadReply(Some(status)) && is_success(status)),
{
}

/// An object counts as absent only when the store says so: the request
/// fails with `NotFound` exactly on an existence check that the store
/// answers with `ABSENT_STATUS`. A check that fails, or that is answered
/// with any other status outside 200..=299, is a failure of the store, and
/// no link is asked for.
pub proof fn lemma_absent_is_told_from_failure(state: DownloadStateModel, event: DownloadEventModel)
    ensures
        download_next(state, event).1 == DownloadActionModel::Fail(GatewayError::NotFound) <==> (
        state is CheckingObject && event == DownloadEventModel::HeadReply(Some(ABSENT_STATUS))),
        state is CheckingObject ==> (event matches DownloadEventModel::HeadReply(reply) ==> (
        reply matches Some(status) && (is_success(status) || status == ABSENT_STATUS)
            || download_next(state, event) == (
            DownloadStateModel::Finished,
            DownloadActionModel::Fail(GatewayError::UpstreamError),
        ))),
{
}

/// Starts the download of the object `key`.
pub fn download_s3(key: String) -> (r: (DownloadState, DownloadAction))
    ensures
        (r.0@, r.1@) == download_begin(key@),
{
    let check = DownloadAction::Head { key: key.clone() };
    (DownloadState::CheckingObject { key }, check)
}

impl DownloadState {
    /// Takes the request on with the answer `event`.
    pub fn step(self, event: DownloadEvent) -> (r: (DownloadState, DownloadAction))
        ensures
            (r.0@, r.1@) == download_next(self@, event@),
    {
        match self {
            DownloadState::CheckingObject { key } => match event {
                DownloadEvent::HeadReply(Some(status)) => {
                    if succeeded(status) {
                        (
                            DownloadState::Signing,
                            DownloadAction::Presign { key, ttl_seconds: LINK_TTL_SECONDS },
                        )
                    } else if status == ABSENT_STATUS {
                        (DownloadState::Finished, DownloadAction::Fail(GatewayError::NotFound))
                    } else {
                        (
                            DownloadState::Finished,
                            DownloadAction::Fail(GatewayError::UpstreamError),
                        )
                    }
                },
                _ => (DownloadState::Finished, DownloadAction::Fail(GatewayError::UpstreamError)),
            },
            DownloadState::Signing => match event {
                DownloadEvent::PresignReply(Some(location)) => (
                    DownloadState::Finished,
                    DownloadAction::Redirect { location },
                ),
                _ => (DownloadState::Finished, DownloadAction::Fail(GatewayError::UpstreamError)),
            },
            DownloadState::Finished => (
                DownloadState::Finished,
                DownloadAction::Fail(GatewayError::UpstreamError),
            ),
        }
    }
}

} // verus!
