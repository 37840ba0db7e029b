//! Whole runs of the upload service: what becomes of a request as its
//! fields, its chunks and the store's answers come in one after the other.

use crate::error::GatewayError;
use crate::upload::{
    abort, complete, content_type_of, is_upload_field, lemma_step_keeps_well_formed, upload_begin,
    upload_field, upload_next, PartModel, SessionModel, UploadActionModel, UploadEventModel,
    UploadStateModel, MAX_PARTS,
};
use vstd::prelude::*;

verus! {

/// What becomes of a request as `events` come in one after the other: the
/// state it ends in, and what it asks of the caller on the way.
pub open spec fn upload_run(state: UploadStateModel, events: Seq<UploadEventModel>) -> (
    UploadStateModel,
    Seq<UploadActionModel>,
)
    decreases events.len(),
{
    if events.len() == 0 {
        (state, Seq::empty())
    } else {
        let before = upload_run(state, events.drop_last());
        let last = upload_next(before.0, events.last());
        (last.0, before.1.push(last.1))
    }
}

/// The parts that the store acknowledges as `etags`, one after the other,
/// when `stored` parts are there already.
pub open spec fn numbered(etags: Seq<Seq<char>>, stored: nat) -> Seq<PartModel> {
    Seq::new(
        etags.len(),
        |i: int| PartModel { part_number: (stored + i + 1) as u32, etag: etags[i] },
    )
}

/// The events of chunks that are read and acknowledged in turn: chunk,
/// acknowledgement, chunk, acknowledgement and so on.
pub open spec fn stored_chunks(chunks: Seq<Seq<u8>>, etags: Seq<Seq<char>>) -> Seq<
    UploadEventModel,
>
    decreases chunks.len(),
{
    if chunks.len() == 0 || etags.len() == 0 {
        Seq::empty()
    } else {
        stored_chunks(chunks.drop_last(), etags.drop_last()).push(
            UploadEventModel::Chunk(chunks.last()),
        ).push(UploadEventModel::PartStored { etag: etags.last() })
    }
}

/// The events of an upload of one chunk or more, up to the acknowledgement
/// of the last chunk: the upload field, the first chunk, the opening of the
/// upload, and the acknowledgement of each chunk before the next is read.
pub open spec fn upload_of(
    content_type: Option<Seq<char>>,
    chunks: Seq<Seq<u8>>,
    upload_id: Seq<char>,
    etags: Seq<Seq<char>>,
) -> Seq<UploadEventModel> {
    seq![
        UploadEventModel::Field { form_data: true, name: Some(upload_field()), content_type },
        UploadEventModel::Chunk(chunks[0]),
        UploadEventModel::Initiated { upload_id },
        UploadEventModel::PartStored { etag: etags[0] },
    ] + stored_chunks(chunks.skip(1), etags.skip(1))
}

/// One more event takes the run one step further.
pub proof fn lemma_run_step(
    state: UploadStateModel,
    events: Seq<UploadEventModel>,
    event: UploadEventModel,
)
    ensures
        upload_run(state, events.push(event)).0 == upload_next(
            upload_run(state, events).0,
            event,
        ).0,
        upload_run(state, events.push(event)).1 == upload_run(state, events).1.push(
            upload_next(upload_run(state, events).0, event).1,
        ),
{
    assert(events.push(event).drop_last() =~= events);
}

/// A run over two lists of events is the run over the second from where the
/// run over the first ends.
pub proof fn lemma_run_concat(
    state: UploadStateModel,
    first: Seq<UploadEventModel>,
    second: Seq<UploadEventModel>,
)
    ensures
        upload_run(state, first + second).0 == upload_run(upload_run(state, first).0, second).0,
        upload_run(state, first + second).1 == upload_run(state, first).1 + upload_run(
            upload_run(state, first).0,
            second,
        ).1,
    decreases second.len(),
{
    if second.len() == 0 {
        assert(first + second =~= first);
        assert(upload_run(state, first).1 + Seq::<UploadActionModel>::empty() =~= upload_run(
            state,
            first,
        ).1);
    } else {
        lemma_run_concat(state, first, second.drop_last());
        assert((first + second).drop_last() =~= first + second.drop_last());
        let middle = upload_run(state, first);
        let before = upload_run(middle.0, second.drop_last());
        let last = upload_next(before.0, second.last());
        assert(middle.1 + before.1.push(last.1) =~= (middle.1 + before.1).push(last.1));
    }
}

/// Whatever comes in, and in whatever order, the state of a request is well
/// formed: the parts of its session are numbered from 1 in the order of
/// their chunks, and are never more than `MAX_PARTS`.
pub proof fn lemma_reachable_states_are_well_formed(
    key: Seq<char>,
    events: Seq<UploadEventModel>,
)
    ensures
        upload_run(upload_begin(key).0, events).0.well_formed(),
    decreases events.len(),
{
    if events.len() > 0 {
        lemma_reachable_states_are_well_formed(key, events.drop_last());
        lemma_step_keeps_well_formed(
            upload_run(upload_begin(key).0, events.drop_last()).0,
            events.last(),
        );
    }
}

/// A request none of whose fields holds the upload is a bad request, and
/// the store is not called for it: field after field is read, and nothing
/// else is asked of the caller until the request is refused.
pub proof fn lemma_missing_field_is_bad_request(key: Seq<char>, fields: Seq<UploadEventModel>)
    requires
        forall|i: int|
            0 <= i < fields.len() ==> (#[trigger] fields[i] matches UploadEventModel::Field {
                form_data,
                name,
                ..
            } && !is_upload_field(form_data, name)),
    ensures
        !upload_begin(key).1.is_store_call(),
        upload_run(upload_begin(key).0, fields).0 == (UploadStateModel::SeekingField { key }),
        ({
            let run = upload_run(
                upload_begin(key).0,
                fields.push(UploadEventModel::NoMoreFields),
            );
            &&& run.0 == UploadStateModel::Rejected { cause: GatewayError::BadRequest }
            &&& run.1.len() == fields.len() + 1
            &&& run.1.last() == UploadActionModel::Fail(GatewayError::BadRequest)
            &&& forall|i: int| 0 <= i < run.1.len() ==> !(#[trigger] run.1[i]).is_store_call()
        }),
    decreases fields.len(),
{
    let start = upload_begin(key).0;
    lemma_other_fields_are_skipped(key, fields);
    lemma_run_step(start, fields, UploadEventModel::NoMoreFields);
}

/// While no field holds the upload, the next field is asked for.
proof fn lemma_other_fields_are_skipped(key: Seq<char>, fields: Seq<UploadEventModel>)
    requires
        forall|i: int|
            0 <= i < fields.len() ==> (#[trigger] fields[i] matches UploadEventModel::Field {
                form_data,
                name,
                ..
            } && !is_upload_field(form_data, name)),
    ensures
        upload_run(upload_begin(key).0, fields).0 == (UploadStateModel::SeekingField { key }),
        upload_run(upload_begin(key).0, fields).1.len() == fields.len(),
        forall|i: int|
            0 <= i < fields.len() ==> (#[trigger] upload_run(upload_begin(key).0, fields).1[i])
                == UploadActionModel::NextField,
    decreases fields.len(),
{
    if fields.len() > 0 {
        lemma_other_fields_are_skipped(key, fields.drop_last());
        let field = fields[fields.len() - 1];
        assert(field matches UploadEventModel::Field { form_data, name, .. } && !is_upload_field(
            form_data,
            name,
        ));
    }
}

/// Chunks that the store acknowledges in turn become the parts after those
/// that are there, as long as they are no more than a multipart upload may
/// have.
pub proof fn lemma_chunks_become_parts(
    session: SessionModel,
    chunks: Seq<Seq<u8>>,
    etags: Seq<Seq<char>>,
)
    requires
        session.well_formed(),
        chunks.len() == etags.len(),
        session.parts.len() + chunks.len() <= MAX_PARTS,
    ensures
        upload_run(
            UploadStateModel::Uploading { session, in_flight: None },
            stored_chunks(chunks, etags),
        ).0 == (UploadStateModel::Uploading {
            session: SessionModel {
                parts: session.parts + numbered(etags, session.parts.len()),
                ..session
            },
            in_flight: None,
        }),
    decreases chunks.len(),
{
    let start = UploadStateModel::Uploading { session, in_flight: None };
    let stored = session.parts.len();
    if chunks.len() == 0 {
        assert(session.parts + numbered(etags, stored) =~= session.parts);
    } else {
        let n = chunks.len() - 1;
        let earlier = stored_chunks(chunks.drop_last(), etags.drop_last());
        lemma_chunks_become_parts(session, chunks.drop_last(), etags.drop_last());
        let read = UploadEventModel::Chunk(chunks.last());
        let acknowledged = UploadEventModel::PartStored { etag: etags.last() };
        lemma_run_step(start, earlier, read);
        lemma_run_step(start, earlier.push(read), acknowledged);
        let parts_before = session.parts + numbered(etags.drop_last(), stored);
        assert(parts_before.len() == stored + n);
        assert(parts_before.push(
            PartModel { part_number: (stored + n + 1) as u32, etag: etags.last() },
        ) =~= session.parts + numbered(etags, stored));
    }
}

/// An upload of as many chunks as a multipart upload may have parts is
/// completed from all of them, numbered from 1, and is done when the store
/// has completed it. A chunk beyond that many is one too many: the store is
/// told to abort the upload, and the request fails with `TooManyParts`
/// whatever becomes of the abort.
pub proof fn lemma_part_limit(
    key: Seq<char>,
    content_type: Option<Seq<char>>,
    chunks: Seq<Seq<u8>>,
    upload_id: Seq<char>,
    etags: Seq<Seq<char>>,
    extra: UploadEventModel,
)
    requires
        1 <= chunks.len() <= MAX_PARTS,
        chunks.len() == etags.len(),
        extra is Chunk,
    ensures
        ({
            let session = SessionModel {
                key,
                content_type: content_type_of(content_type),
                upload_id,
                parts: numbered(etags, 0),
            };
            let stored = upload_run(
                upload_begin(key).0,
                upload_of(content_type, chunks, upload_id, etags),
            ).0;
            let aborted = UploadStateModel::Aborted { cause: GatewayError::TooManyParts };
            &&& session.well_formed()
            &&& stored == UploadStateModel::Uploading { session, in_flight: None }
            &&& upload_next(stored, UploadEventModel::EndOfStream) == complete(session)
            &&& upload_next(complete(session).0, UploadEventModel::Completed) == (
                UploadStateModel::Done,
                UploadActionModel::ClearCacheAndSucceed,
            )
            &&& chunks.len() < MAX_PARTS ==> upload_next(stored, extra).1 is PutPart
            &&& chunks.len() == MAX_PARTS ==> upload_next(stored, extra) == abort(
                key,
                upload_id,
                GatewayError::TooManyParts,
            )
            &&& forall|settled: UploadEventModel| #[trigger]
                upload_next(abort(key, upload_id, GatewayError::TooManyParts).0, settled) == (
                    aborted,
                    UploadActionModel::Fail(GatewayError::TooManyParts),
                )
        }),
{
    let named = content_type_of(content_type);
    let start = upload_begin(key).0;
    let head = seq![
        UploadEventModel::Field { form_data: true, name: Some(upload_field()), content_type },
        UploadEventModel::Chunk(chunks[0]),
        UploadEventModel::Initiated { upload_id },
        UploadEventModel::PartStored { etag: etags[0] },
    ];
    let opened = SessionModel { key, content_type: named, upload_id, parts: Seq::empty() };
    let first = opened.with_part(1, etags[0]);
    assert(upload_run(start, head).0 == (UploadStateModel::Uploading {
        session: first,
        in_flight: None,
    })) by {
        reveal_with_fuel(upload_run, 5);
        assert(head.drop_last().drop_last().drop_last().drop_last() =~= Seq::empty());
    }
    lemma_chunks_become_parts(first, chunks.skip(1), etags.skip(1));
    lemma_run_concat(start, head, stored_chunks(chunks.skip(1), etags.skip(1)));
    assert(first.parts + numbered(etags.skip(1), 1) =~= numbered(etags, 0));
}

} // verus!
