//! The upload service: the `file` field of a multipart request is streamed
//! into the store as a multipart upload, chunk by chunk.
//!
//! The service is a state machine. `upload_s3` starts it for one request,
//! and `UploadState::step` takes it on with each field or chunk of the
//! request and each answer of the store. A chunk is sent to the store as one
//! part, and the next chunk is asked for only when the store has
//! acknowledged the part, so one chunk is held at a time. Whatever goes
//! wrong once the store has opened the upload, the store is told to abort
//! it.

use crate::error::GatewayError;
use vstd::prelude::*;
use vstd::string::*;

verus! {

/// The most parts that a multipart upload may have.
pub const MAX_PARTS: usize = 10000;

/// The name of the form field that holds the upload.
pub open spec fn upload_field() -> Seq<char> {
    "file"@
}

/// The content type of an upload that names none.
pub open spec fn default_content_type() -> Seq<char> {
    "text/plain"@
}

/// A part that the store has acknowledged.
#[derive(Clone, Debug, PartialEq, Eq)]
pub struct CompletedPart {
    /// The place of the part in the object: parts count from 1.
    pub part_number: u32,
    /// What the store calls the part.
    pub etag: String,
}

/// What a `CompletedPart` holds.
pub struct PartModel {
    pub part_number: u32,
    pub etag: Seq<char>,
}

impl View for CompletedPart {
    type V = PartModel;

    open spec fn view(&self) -> PartModel {
        PartModel { part_number: self.part_number, etag: self.etag@ }
    }
}

impl DeepView for CompletedPart {
    type V = PartModel;

    open spec fn deep_view(&self) -> PartModel {
        self@
    }
}

/// One upload that the store has opened and not yet completed or aborted.
#[derive(Clone, Debug, PartialEq, Eq)]
pub struct MultipartUploadSession {
    /// The key that the object will have.
    pub key: String,
    pub content_type: String,
    /// What the store calls the upload.
    pub upload_id: String,
    /// The parts acknowledged so far, in the order of their chunks.
    pub parts: Vec<CompletedPart>,
}

/// What a `MultipartUploadSession` holds.
pub struct SessionModel {
    pub key: Seq<char>,
    pub content_type: Seq<char>,
    pub upload_id: Seq<char>,
    pub parts: Seq<PartModel>,
}

impl SessionModel {
    /// The parts are numbered 1, 2, 3 and so on, and are no more than a
    /// multipart upload may have.
    pub open spec fn well_formed(self) -> bool {
        &&& self.parts.len() <= MAX_PARTS
        &&& forall|i: int|
            0 <= i < self.parts.len() ==> (#[trigger] self.parts[i]).part_number == i + 1
    }

    /// The session once the store has acknowledged one more part.
    pub open spec fn with_part(self, part_number: u32, etag: Seq<char>) -> SessionModel {
        SessionModel { parts: self.parts.push(PartModel { part_number, etag }), ..self }
    }
}

impl View for MultipartUploadSession {
    type V = SessionModel;

    open spec fn view(&self) -> SessionModel {
        SessionModel {
            key: self.key@,
            content_type: self.content_type@,
            upload_id: self.upload_id@,
            parts: self.parts.deep_view(),
        }
    }
}

/// Where an upload request stands.
#[derive(Clone, Debug, PartialEq, Eq)]
pub enum UploadState {
    /// The fields of the request are read until the upload field is found.
    SeekingField { key: String },
    /// The upload field is found; its first chunk was asked for.
    AwaitingData { key: String, content_type: String },
    /// The store was asked to open a multipart upload. `pending` is the
    /// first chunk, or nothing where the field is empty.
    Initiating { key: String, content_type: String, pending: Option<Vec<u8>> },
    /// The store has opened the upload. `in_flight` is the number of the
    /// part that is on its way to the store, or nothing where the next
    /// chunk was asked for.
    Uploading { session: MultipartUploadSession, in_flight: Option<u32> },
    /// All chunks are stored; the store was asked to complete the upload.
    Completing { key: String, upload_id: String },
    /// The store was told to abort the upload, because of `cause`.
    Aborting { cause: GatewayError },
    /// The object is stored.
    Done,
    /// The upload was opened and then given up.
    Aborted { cause: GatewayError },
    /// The request failed before the store had opened an upload.
    Rejected { cause: GatewayError },
}

/// What an `UploadState` holds.
pub enum UploadStateModel {
    SeekingField { key: Seq<char> },
    AwaitingData { key: Seq<char>, content_type: Seq<char> },
    Initiating { key: Seq<char>, content_type: Seq<char>, pending: Option<Seq<u8>> },
    Uploading { session: SessionModel, in_flight: Option<u32> },
    Completing { key: Seq<char>, upload_id: Seq<char> },
    Aborting { cause: GatewayError },
    Done,
    Aborted { cause: GatewayError },
    Rejected { cause: GatewayError },
}

impl View for UploadState {
    type V = UploadStateModel;

    open spec fn view(&self) -> UploadStateModel {
        match self {
            UploadState::SeekingField { key } => UploadStateModel::SeekingField { key: key@ },
            UploadState::AwaitingData { key, content_type } => UploadStateModel::AwaitingData {
                key: key@,
                content_type: content_type@,
            },
            UploadState::Initiating { key, content_type, pending } => UploadStateModel::Initiating {
                key: key@,
                content_type: content_type@,
                pending: pending.deep_view(),
            },
            UploadState::Uploading { session, in_flight } => UploadStateModel::Uploading {
                session: session@,
                in_flight: *in_flight,
            },
            UploadState::Completing { key, upload_id } => UploadStateModel::Completing {
                key: key@,
                upload_id: upload_id@,
            },
            UploadState::Aborting { cause } => UploadStateModel::Aborting { cause: *cause },
            UploadState::Done => UploadStateModel::Done,
            UploadState::Aborted { cause } => UploadStateModel::Aborted { cause: *cause },
            UploadState::Rejected { cause } => UploadStateModel::Rejected { cause: *cause },
        }
    }
}

impl UploadStateModel {
    /// The session is well formed, and a part on its way to the store has
    /// the number after those that the store has acknowledged.
    pub open spec fn well_formed(self) -> bool {
        match self {
            UploadStateModel::Uploading { session, in_flight } => {
                &&& session.well_formed()
                &&& in_flight matches Some(n) ==> session.parts.len() < MAX_PARTS && n
                    == session.parts.len() + 1
            },
            _ => true,
        }
    }
}

/// What came in: from the request, or from the store in answer to the call
/// that the service asked for.
#[derive(Clone, Debug, PartialEq, Eq)]
pub enum UploadEvent {
    /// The next field of the request.
    Field { form_data: bool, name: Option<String>, content_type: Option<String> },
    /// The request has no further field, or its fields cannot be read.
    NoMoreFields,
    /// The next chunk of the upload field.
    Chunk(Vec<u8>),
    /// The upload field cannot be read further.
    ChunkFailed,
    /// The upload field has ended.
    EndOfStream,
    /// The store has opened a multipart upload.
    Initiated { upload_id: String },
    /// The store has acknowledged the part.
    PartStored { etag: String },
    /// The store has completed the upload.
    Completed,
    /// The call to abort the upload has returned, with whatever result.
    AbortSettled,
    /// The call to the store failed.
    StoreFailed,
}

/// What an `UploadEvent` holds.
pub enum UploadEventModel {
    Field { form_data: bool, name: Option<Seq<char>>, content_type: Option<Seq<char>> },
    NoMoreFields,
    Chunk(Seq<u8>),
    ChunkFailed,
    EndOfStream,
    Initiated { upload_id: Seq<char> },
    PartStored { etag: Seq<char> },
    Completed,
    AbortSettled,
    StoreFailed,
}

impl View for UploadEvent {
    type V = UploadEventModel;

    open spec fn view(&self) -> UploadEventModel {
        match self {
            UploadEvent::Field { form_data, name, content_type } => UploadEventModel::Field {
                form_data: *form_data,
                name: name.deep_view(),
                content_type: content_type.deep_view(),
            },
            UploadEvent::NoMoreFields => UploadEventModel::NoMoreFields,
            UploadEvent::Chunk(data) => UploadEventModel::Chunk(data@),
            UploadEvent::ChunkFailed => UploadEventModel::ChunkFailed,
            UploadEvent::EndOfStream => UploadEventModel::EndOfStream,
            UploadEvent::Initiated { upload_id } => UploadEventModel::Initiated {
                upload_id: upload_id@,
            },
            UploadEvent::PartStored { etag } => UploadEventModel::PartStored { etag: etag@ },
            UploadEvent::Completed => UploadEventModel::Completed,
            UploadEvent::AbortSettled => UploadEventModel::AbortSettled,
            UploadEvent::StoreFailed => UploadEventModel::StoreFailed,
        }
    }
}

/// What the caller is to do next.
#[derive(Clone, Debug, PartialEq, Eq)]
pub enum UploadAction {
    /// Read the next field of the request.
    NextField,
    /// Read the next chunk of the upload field.
    NextChunk,
    /// Ask the store to open a multipart upload.
    Initiate { key: String, content_type: String },
    /// Send `data` to the store as the part `part_number`.
    PutPart { data: Vec<u8>, key: String, part_number: u32, upload_id: String, content_type: String },
    /// Ask the store to complete the upload from `parts`.
    Complete { key: String, upload_id: String, parts: Vec<CompletedPart> },
    /// Tell the store to abort the upload. Whether that succeeds does not
    /// change what the client is told.
    Abort { key: String, upload_id: String },
    /// Clear the whole cache, then answer that the object is stored.
    ClearCacheAndSucceed,
    /// Answer with the failure.
    Fail(GatewayError),
}

/// What an `UploadAction` holds.
pub enum UploadActionModel {
    NextField,
    NextChunk,
    Initiate { key: Seq<char>, content_type: Seq<char> },
    PutPart {
        data: Seq<u8>,
        key: Seq<char>,
        part_number: u32,
        upload_id: Seq<char>,
        content_type: Seq<char>,
    },
    Complete { key: Seq<char>, upload_id: Seq<char>, parts: Seq<PartModel> },
    Abort { key: Seq<char>, upload_id: Seq<char> },
    ClearCacheAndSucceed,
    Fail(GatewayError),
}

impl View for UploadAction {
    type V = UploadActionModel;

    open spec fn view(&self) -> UploadActionModel {
        match self {
            UploadAction::NextField => UploadActionModel::NextField,
            UploadAction::NextChunk => UploadActionModel::NextChunk,
            UploadAction::Initiate { key, content_type } => UploadActionModel::Initiate {
                key: key@,
                content_type: content_type@,
            },
            UploadAction::PutPart { data, key, part_number, upload_id, content_type } => {
                UploadActionModel::PutPart {
                    data: data@,
                    key: key@,
                    part_number: *part_number,
                    upload_id: upload_id@,
                    content_type: content_type@,
                }
            },
            UploadAction::Complete { key, upload_id, parts } => UploadActionModel::Complete {
                key: key@,
                upload_id: upload_id@,
                parts: parts.deep_view(),
            },
            UploadAction::Abort { key, upload_id } => UploadActionModel::Abort {
                key: key@,
                upload_id: upload_id@,
            },
            UploadAction::ClearCacheAndSucceed => UploadActionModel::ClearCacheAndSucceed,
            UploadAction::Fail(e) => UploadActionModel::Fail(*e),
        }
    }
}

impl UploadActionModel {
    /// The action is a call to the object store.
    pub open spec fn is_store_call(self) -> bool {
        self is Initiate || self is PutPart || self is Complete || self is Abort
    }
}

/// The field is the one that holds the upload.
pub open spec fn is_upload_field(form_data: bool, name: Option<Seq<char>>) -> bool {
    form_data && name == Some(upload_field())
}

/// The content type to store the object with.
pub open spec fn content_type_of(named: Option<Seq<char>>) -> Seq<char> {
    match named {
        Some(content_type) => content_type,
        None => default_content_type(),
    }
}

/// The request fails and the store has nothing to clean up.
pub open spec fn refuse(cause: GatewayError) -> (UploadStateModel, UploadActionModel) {
    (UploadStateModel::Rejected { cause }, UploadActionModel::Fail(cause))
}

/// The request fails and the store is told to abort the upload.
pub open spec fn abort(key: Seq<char>, upload_id: Seq<char>, cause: GatewayError) -> (
    UploadStateModel,
    UploadActionModel,
) {
    (UploadStateModel::Aborting { cause }, UploadActionModel::Abort { key, upload_id })
}

/// The call that sends `data` to the store as the part `part_number`.
pub open spec fn put_part(session: SessionModel, data: Seq<u8>, part_number: u32) -> (
    UploadStateModel,
    UploadActionModel,
) {
    (
        UploadStateModel::Uploading { session, in_flight: Some(part_number) },
        UploadActionModel::PutPart {
            data,
            key: session.key,
            part_number,
            upload_id: session.upload_id,
            content_type: session.content_type,
        },
    )
}

/// The call that completes the upload of `session`.
pub open spec fn complete(session: SessionModel) -> (UploadStateModel, UploadActionModel) {
    (
        UploadStateModel::Completing { key: session.key, upload_id: session.upload_id },
        UploadActionModel::Complete {
            key: session.key,
            upload_id: session.upload_id,
            parts: session.parts,
        },
    )
}

/// How a request starts: with the search for the upload field.
pub open spec fn upload_begin(key: Seq<char>) -> (UploadStateModel, UploadActionModel) {
    (UploadStateModel::SeekingField { key }, UploadActionModel::NextField)
}

/// What the next field of the request comes to while the upload field is
/// looked for. A request without that field is a bad request.
pub open spec fn after_field(key: Seq<char>, event: UploadEventModel) -> (
    UploadStateModel,
    UploadActionModel,
) {
    match event {
        UploadEventModel::Field { form_data, name, content_type } => {
            if is_upload_field(form_data, name) {
                (
                    UploadStateModel::AwaitingData {
                        key,
                        content_type: content_type_of(content_type),
                    },
                    UploadActionModel::NextChunk,
                )
            } else {
                (UploadStateModel::SeekingField { key }, UploadActionModel::NextField)
            }
        },
        UploadEventModel::NoMoreFields => refuse(GatewayError::BadRequest),
        _ => refuse(GatewayError::UpstreamError),
    }
}

/// What the start of the upload field comes to. The store is asked to open
/// the upload when the first chunk is there, or when the field has ended
/// without one.
pub open spec fn after_first_read(
    key: Seq<char>,
    content_type: Seq<char>,
    event: UploadEventModel,
) -> (UploadStateModel, UploadActionModel) {
    match event {
        UploadEventModel::Chunk(data) => (
            UploadStateModel::Initiating { key, content_type, pending: Some(data) },
            UploadActionModel::Initiate { key, content_type },
        ),
        UploadEventModel::EndOfStream => (
            UploadStateModel::Initiating { key, content_type, pending: None },
            UploadActionModel::Initiate { key, content_type },
        ),
        _ => refuse(GatewayError::UpstreamError),
    }
}

/// What the store's answer to the opening of the upload comes to. The
/// chunk that waited becomes part 1; an upload without a chunk is completed
/// at once.
pub open spec fn after_initiate(
    key: Seq<char>,
    content_type: Seq<char>,
    pending: Option<Seq<u8>>,
    event: UploadEventModel,
) -> (UploadStateModel, UploadActionModel) {
    match event {
        UploadEventModel::Initiated { upload_id } => {
            let session = SessionModel { key, content_type, upload_id, parts: Seq::empty() };
            match pending {
                Some(data) => put_part(session, data, 1),
                None => complete(session),
            }
        },
        _ => refuse(GatewayError::UpstreamError),
    }
}

/// What the next read of the upload field comes to. A chunk becomes the
/// part after the last acknowledged one, unless `MAX_PARTS` parts are
/// stored: then the chunk is one too many. A field that cannot be read
/// further is a failure, however many parts are stored.
pub open spec fn after_read(session: SessionModel, event: UploadEventModel) -> (
    UploadStateModel,
    UploadActionModel,
) {
    match event {
        UploadEventModel::EndOfStream => complete(session),
        UploadEventModel::Chunk(data) => {
            if session.parts.len() >= MAX_PARTS {
                abort(session.key, session.upload_id, GatewayError::TooManyParts)
            } else {
                put_part(session, data, (session.parts.len() + 1) as u32)
            }
        },
        _ => abort(session.key, session.upload_id, GatewayError::UpstreamError),
    }
}

/// What the store's answer to a part comes to.
pub open spec fn after_part(session: SessionModel, part_number: u32, event: UploadEventModel) -> (
    UploadStateModel,
    UploadActionModel,
) {
    match event {
        UploadEventModel::PartStored { etag } => (
            UploadStateModel::Uploading {
                session: session.with_part(part_number, etag),
                in_flight: None,
            },
            UploadActionModel::NextChunk,
        ),
        _ => abort(session.key, session.upload_id, GatewayError::UpstreamError),
    }
}

/// What the store's answer to the completion comes to. A completed upload
/// clears the cache.
pub open spec fn after_complete(key: Seq<char>, upload_id: Seq<char>, event: UploadEventModel) -> (
    UploadStateModel,
    UploadActionModel,
) {
    match event {
        UploadEventModel::Completed => (
            UploadStateModel::Done,
            UploadActionModel::ClearCacheAndSucceed,
        ),
        _ => abort(key, upload_id, GatewayError::UpstreamError),
    }
}

/// How a request goes on.
///
/// A failure before the store has opened the upload ends the request at
/// once. Any later failure has the upload aborted first, and the request
/// then fails with what went wrong, whatever became of the abort. An event
/// that the state does not wait for counts as a failure of the store. A
/// request that is over stays as it is.
pub open spec fn upload_next(state: UploadStateModel, event: UploadEventModel) -> (
    UploadStateModel,
    UploadActionModel,
) {
    match state {
        UploadStateModel::SeekingField { key } => after_field(key, event),
        UploadStateModel::AwaitingData { key, content_type } => after_first_read(
            key,
            content_type,
            event,
        ),
        UploadStateModel::Initiating { key, content_type, pending } => after_initiate(
            key,
            content_type,
            pending,
            event,
        ),
        UploadStateModel::Uploading { session, in_flight: None } => after_read(session, event),
        UploadStateModel::Uploading { session, in_flight: Some(part_number) } => after_part(
            session,
            part_number,
            event,
        ),
        UploadStateModel::Completing { key, upload_id } => after_complete(key, upload_id, event),
        UploadStateModel::Aborting { cause } => (
            UploadStateModel::Aborted { cause },
            UploadActionModel::Fail(cause),
        ),
        UploadStateModel::Done => (state, UploadActionModel::ClearCacheAndSucceed),
        UploadStateModel::Aborted { cause } => (state, UploadActionModel::Fail(cause)),
        UploadStateModel::Rejected { cause } => (state, UploadActionModel::Fail(cause)),
    }
}

/// A well-formed state stays well formed.
pub proof fn lemma_step_keeps_well_formed(state: UploadStateModel, event: UploadEventModel)
    requires
        state.well_formed(),
    ensures
        upload_next(state, event).0.well_formed(),
{
}

/// The parts that the store has acknowledged.
pub open spec fn stored_parts(state: UploadStateModel) -> Seq<PartModel> {
    match state {
        UploadStateModel::Uploading { session, .. } => session.parts,
        _ => Seq::empty(),
    }
}

/// The upload that the store holds open for the request, by key and upload
/// id.
pub open spec fn open_upload(state: UploadStateModel) -> Option<(Seq<char>, Seq<char>)> {
    match state {
        UploadStateModel::Uploading { session, .. } => Some((session.key, session.upload_id)),
        UploadStateModel::Completing { key, upload_id } => Some((key, upload_id)),
        _ => None,
    }
}

/// Parts go to the store one at a time and in the order of their chunks.
/// The part that is sent has the number after the acknowledged ones, which
/// is at most `MAX_PARTS`. A part is on its way exactly when it was just
/// sent, and the next chunk is asked for only when none is. The upload is
/// completed from all acknowledged parts.
pub proof fn lemma_parts_are_sent_in_order(state: UploadStateModel, event: UploadEventModel)
    requires
        state.well_formed(),
    ensures
        ({
            let next = upload_next(state, event);
            &&& next.1 matches UploadActionModel::PutPart { part_number, .. } ==> part_number
                == stored_parts(state).len() + 1 && part_number <= MAX_PARTS
            &&& next.1 is PutPart <==> (next.0 matches UploadStateModel::Uploading {
                in_flight: Some(_),
                ..
            })
            &&& next.1 is NextChunk ==> next.0 is AwaitingData || (
            next.0 matches UploadStateModel::Uploading { in_flight: None, .. })
            &&& next.1 matches UploadActionModel::Complete { parts, .. } ==> parts == stored_parts(
                state,
            )
        }),
{
}

/// An upload has too many parts only when a chunk comes in while
/// `MAX_PARTS` parts are stored. A field that ends or cannot be read
/// further then, and a store that fails, are not that.
pub proof fn lemma_too_many_parts_is_a_chunk_too_many(
    state: UploadStateModel,
    event: UploadEventModel,
)
    requires
        !(state is Aborting),
        !(state is Aborted),
        !(state is Rejected),
    ensures
        ({
            let next = upload_next(state, event);
            let too_many = next.0 == (UploadStateModel::Aborting {
                cause: GatewayError::TooManyParts,
            }) || next.1 == UploadActionModel::Fail(GatewayError::TooManyParts);
            too_many <==> (event is Chunk && (state matches UploadStateModel::Uploading {
                session,
                in_flight: None,
            } && session.parts.len() >= MAX_PARTS))
        }),
{
}

/// An upload that the store has opened is not left behind: each step keeps
/// it open, or sees it completed, or tells the store to abort it. The
/// request fails only when the store holds no upload open for it.
pub proof fn lemma_open_upload_is_completed_or_aborted(
    state: UploadStateModel,
    event: UploadEventModel,
)
    ensures
        open_upload(state) matches Some(upload) ==> {
            let next = upload_next(state, event);
            ||| open_upload(next.0) == Some(upload)
            ||| next == (UploadStateModel::Done, UploadActionModel::ClearCacheAndSucceed)
            ||| next.0 is Aborting && next.1 == (UploadActionModel::Abort {
                key: upload.0,
                upload_id: upload.1,
            })
        },
        upload_next(state, event).1 is Fail ==> open_upload(state) is None,
        upload_next(state, event).1 is ClearCacheAndSucceed ==> state is Done || (state
            is Completing && event is Completed),
{
}

/// Whether the field is the one that holds the upload.
pub fn holds_upload(form_data: bool, name: &Option<String>) -> (r: bool)
    ensures
        r == is_upload_field(form_data, name.deep_view()),
{
    match name {
        Some(n) => {
            let wanted = String::from_str("file");
            form_data && *n == wanted
        },
        None => false,
    }
}

/// Tells the store to abort the upload `upload_id` of `key`.
fn abort_upload(key: String, upload_id: String, cause: GatewayError) -> (r: (
    UploadState,
    UploadAction,
))
    ensures
        (r.0@, r.1@) == abort(key@, upload_id@, cause),
{
    (UploadState::Aborting { cause }, UploadAction::Abort { key, upload_id })
}

/// Sends `data` to the store as the next part of `session`.
fn send_part(session: MultipartUploadSession, data: Vec<u8>, part_number: u32) -> (r: (
    UploadState,
    UploadAction,
))
    ensures
        (r.0@, r.1@) == put_part(session@, data@, part_number),
{
    let call = UploadAction::PutPart {
        data,
        key: session.key.clone(),
        part_number,
        upload_id: session.upload_id.clone(),
        content_type: session.content_type.clone(),
    };
    (UploadState::Uploading { session, in_flight: Some(part_number) }, call)
}

/// Asks the store to complete the upload of `session`.
fn finish(session: MultipartUploadSession) -> (r: (UploadState, UploadAction))
    ensures
        (r.0@, r.1@) == complete(session@),
{
    let MultipartUploadSession { key, content_type: _, upload_id, parts } = session;
    let call = UploadAction::Complete { key: key.clone(), upload_id: upload_id.clone(), parts };
    (UploadState::Completing { key, upload_id }, call)
}

/// Starts the upload of the object `key`.
pub fn upload_s3(key: String) -> (r: (UploadState, UploadAction))
    ensures
        (r.0@, r.1@) == upload_begin(key@),
{
    (UploadState::SeekingField { key }, UploadAction::NextField)
}

/// Ends the request before the store has opened an upload.
fn reject(cause: GatewayError) -> (r: (UploadState, UploadAction))
    ensures
        (r.0@, r.1@) == refuse(cause),
{
    (UploadState::Rejected { cause }, UploadAction::Fail(cause))
}

/// Takes in the next field of the request.
fn on_field(key: String, event: UploadEvent) -> (r: (UploadState, UploadAction))
    ensures
        (r.0@, r.1@) == after_field(key@, event@),
{
    match event {
        UploadEvent::Field { form_data, name, content_type } => {
            if holds_upload(form_data, &name) {
                let content_type = match content_type {
                    Some(named) => named,
                    None => String::from_str("text/plain"),
                };
                (UploadState::AwaitingData { key, content_type }, UploadAction::NextChunk)
            } else {
                (UploadState::SeekingField { key }, UploadAction::NextField)
            }
        },
        UploadEvent::NoMoreFields => reject(GatewayError::BadRequest),
        _ => reject(GatewayError::UpstreamError),
    }
}

/// Takes in the first read of the upload field.
fn on_first_read(key: String, content_type: String, event: UploadEvent) -> (r: (
    UploadState,
    UploadAction,
))
    ensures
        (r.0@, r.1@) == after_first_read(key@, content_type@, event@),
{
    match event {
        UploadEvent::Chunk(data) => {
            let call = UploadAction::Initiate {
                key: key.clone(),
                content_type: content_type.clone(),
            };
            assert(data.deep_view() =~= data@);
            (UploadState::Initiating { key, content_type, pending: Some(data) }, call)
        },
        UploadEvent::EndOfStream => {
            let call = UploadAction::Initiate {
                key: key.clone(),
                content_type: content_type.clone(),
            };
            (UploadState::Initiating { key, content_type, pending: None }, call)
        },
        _ => reject(GatewayError::UpstreamError),
    }
}

/// Takes in the store's answer to the opening of the upload.
fn on_initiate(key: String, content_type: String, pending: Option<Vec<u8>>, event: UploadEvent) -> (r:
    (UploadState, UploadAction))
    ensures
        (r.0@, r.1@) == after_initiate(key@, content_type@, pending.deep_view(), event@),
{
    match event {
        UploadEvent::Initiated { upload_id } => {
            let session = MultipartUploadSession { key, content_type, upload_id, parts: Vec::new() };
            assert(session@.parts =~= Seq::empty());
            match pending {
                Some(data) => {
                    assert(data.deep_view() =~= data@);
                    send_part(session, data, 1)
                },
                None => finish(session),
            }
        },
        _ => reject(GatewayError::UpstreamError),
    }
}

/// Takes in the next read of the upload field.
fn on_read(session: MultipartUploadSession, event: UploadEvent) -> (r: (UploadState, UploadAction))
    ensures
        (r.0@, r.1@) == after_read(session@, event@),
{
    let stored: usize = session.parts.len();
    match event {
        UploadEvent::EndOfStream => finish(session),
        UploadEvent::Chunk(data) => {
            if stored >= MAX_PARTS {
                abort_upload(session.key, session.upload_id, GatewayError::TooManyParts)
            } else {
                send_part(session, data, (stored + 1) as u32)
            }
        },
        _ => abort_upload(session.key, session.upload_id, GatewayError::UpstreamError),
    }
}

/// Takes in the store's answer to a part.
fn on_part(session: MultipartUploadSession, part_number: u32, event: UploadEvent) -> (r: (
    UploadState,
    UploadAction,
))
    ensures
        (r.0@, r.1@) == after_part(session@, part_number, event@),
{
    match event {
        UploadEvent::PartStored { etag } => {
            let ghost before = session@;
            let mut session = session;
            session.parts.push(CompletedPart { part_number, etag });
            assert(session@.parts =~= before.parts.push(PartModel { part_number, etag: etag@ }));
            (UploadState::Uploading { session, in_flight: None }, UploadAction::NextChunk)
        },
        _ => abort_upload(session.key, session.upload_id, GatewayError::UpstreamError),
    }
}

/// Takes in the store's answer to the completion.
fn on_complete(key: String, upload_id: String, event: UploadEvent) -> (r: (
    UploadState,
    UploadAction,
))
    ensures
        (r.0@, r.1@) == after_complete(key@, upload_id@, event@),
{
    match event {
        UploadEvent::Completed => (UploadState::Done, UploadAction::ClearCacheAndSucceed),
        _ => abort_upload(key, upload_id, GatewayError::UpstreamError),
    }
}

impl UploadState {
    /// Takes the request on with what came in.
    pub fn step(self, event: UploadEvent) -> (r: (UploadState, UploadAction))
        ensures
            (r.0@, r.1@) == upload_next(self@, event@),
    {
        match self {
            UploadState::SeekingField { key } => on_field(key, event),
            UploadState::AwaitingData { key, content_type } => on_first_read(
                key,
                content_type,
                event,
            ),
            UploadState::Initiating { key, content_type, pending } => on_initiate(
                key,
                content_type,
                pending,
                event,
            ),
            UploadState::Uploading { session, in_flight: None } => on_read(session, event),
            UploadState::Uploading { session, in_flight: Some(part_number) } => on_part(
                session,
                part_number,
                event,
            ),
            UploadState::Completing { key, upload_id } => on_complete(key, upload_id, event),
            UploadState::Aborting { cause } => (
                UploadState::Aborted { cause },
                UploadAction::Fail(cause),
            ),
            UploadState::Done => (UploadState::Done, UploadAction::ClearCacheAndSucceed),
            UploadState::Aborted { cause } => (
                UploadState::Aborted { cause },
                UploadAction::Fail(cause),
            ),
            UploadState::Rejected { cause } => (
                UploadState::Rejected { cause },
                UploadAction::Fail(cause),
            ),
        }
    }
}

} // verus!
