use s3_fileserver::error::GatewayError;
use s3_fileserver::upload::{
    holds_upload, upload_s3, CompletedPart, MultipartUploadSession, UploadAction, UploadEvent,
    UploadState, MAX_PARTS,
};

fn file_field(content_type: Option<&str>) -> UploadEvent {
    UploadEvent::Field {
        form_data: true,
        name: Some("file".to_string()),
        content_type: content_type.map(|c| c.to_string()),
    }
}

fn other_field(name: &str) -> UploadEvent {
    UploadEvent::Field { form_data: true, name: Some(name.to_string()), content_type: None }
}

fn is_store_call(action: &UploadAction) -> bool {
    matches!(
        action,
        UploadAction::Initiate { .. }
            | UploadAction::PutPart { .. }
            | UploadAction::Complete { .. }
            | UploadAction::Abort { .. }
    )
}

fn etag(n: usize) -> String {
    format!("etag-{}", n)
}

fn part(n: u32) -> CompletedPart {
    CompletedPart { part_number: n, etag: format!("etag-{}", n) }
}

/// Takes an upload to the point where `stored` chunks are acknowledged and
/// the next chunk is asked for.
fn upload_with_parts(stored: usize) -> UploadState {
    assert!(stored >= 1);
    let (state, _) = upload_s3("big.bin".to_string());
    let (state, _) = state.step(file_field(Some("application/octet-stream")));
    let (state, _) = state.step(UploadEvent::Chunk(vec![0]));
    let (mut state, mut action) = state.step(UploadEvent::Initiated { upload_id: "up-1".to_string() });
    for n in 1..=stored {
        match &action {
            UploadAction::PutPart { part_number, .. } => assert_eq!(*part_number as usize, n),
            other => panic!("part {} was not sent: {:?}", n, other),
        }
        let (next, asked) = state.step(UploadEvent::PartStored { etag: etag(n) });
        assert_eq!(asked, UploadAction::NextChunk);
        state = next;
        if n < stored {
            let (next, sent) = state.step(UploadEvent::Chunk(vec![(n % 251) as u8]));
            state = next;
            action = sent;
        }
    }
    state
}

#[test]
fn holds_upload_wants_the_form_field_named_file() {
    assert!(holds_upload(true, &Some("file".to_string())));
    assert!(!holds_upload(false, &Some("file".to_string())));
    assert!(!holds_upload(true, &Some("File".to_string())));
    assert!(!holds_upload(true, &Some("files".to_string())));
    assert!(!holds_upload(true, &Some(String::new())));
    assert!(!holds_upload(true, &None));
    assert!(!holds_upload(false, &None));
}

#[test]
fn upload_s3_starts_with_the_search_for_the_field() {
    let (state, action) = upload_s3("docs/new.txt".to_string());
    assert_eq!(state, UploadState::SeekingField { key: "docs/new.txt".to_string() });
    assert_eq!(action, UploadAction::NextField);
}

#[test]
fn a_request_without_the_file_field_is_a_bad_request() {
    let (state, first) = upload_s3("docs/new.txt".to_string());
    let mut asked = vec![first];
    let (state, action) = state.step(other_field("comment"));
    asked.push(action);
    let (state, action) = state.step(UploadEvent::Field {
        form_data: false,
        name: Some("file".to_string()),
        content_type: None,
    });
    asked.push(action);
    let (state, action) = state.step(UploadEvent::Field {
        form_data: true,
        name: None,
        content_type: Some("image/png".to_string()),
    });
    asked.push(action);
    assert_eq!(state, UploadState::SeekingField { key: "docs/new.txt".to_string() });
    let (state, action) = state.step(UploadEvent::NoMoreFields);
    asked.push(action);
    assert_eq!(state, UploadState::Rejected { cause: GatewayError::BadRequest });
    assert_eq!(asked.last(), Some(&UploadAction::Fail(GatewayError::BadRequest)));
    assert_eq!(asked.iter().filter(|a| is_store_call(a)).count(), 0);
    assert_eq!(asked.iter().filter(|a| **a == UploadAction::NextField).count(), 4);
}

#[test]
fn an_empty_request_is_a_bad_request() {
    let (state, _) = upload_s3("k".to_string());
    let (state, action) = state.step(UploadEvent::NoMoreFields);
    assert_eq!(state, UploadState::Rejected { cause: GatewayError::BadRequest });
    assert_eq!(action, UploadAction::Fail(GatewayError::BadRequest));
}

#[test]
fn the_first_file_field_is_the_upload() {
    let (state, _) = upload_s3("k".to_string());
    let (state, _) = state.step(other_field("note"));
    let (state, action) = state.step(file_field(Some("image/png")));
    assert_eq!(action, UploadAction::NextChunk);
    assert_eq!(
        state,
        UploadState::AwaitingData { key: "k".to_string(), content_type: "image/png".to_string() }
    );
}

#[test]
fn an_upload_without_content_type_is_plain_text() {
    let (state, _) = upload_s3("k".to_string());
    let (state, _) = state.step(file_field(None));
    let (_, action) = state.step(UploadEvent::Chunk(vec![1, 2, 3]));
    assert_eq!(
        action,
        UploadAction::Initiate { key: "k".to_string(), content_type: "text/plain".to_string() }
    );
}

#[test]
fn the_store_opens_the_upload_on_the_first_chunk() {
    let (state, _) = upload_s3("k".to_string());
    let (state, action) = state.step(file_field(Some("image/png")));
    assert!(!is_store_call(&action));
    let (state, action) = state.step(UploadEvent::Chunk(vec![1, 2, 3]));
    assert_eq!(
        action,
        UploadAction::Initiate { key: "k".to_string(), content_type: "image/png".to_string() }
    );
    assert_eq!(
        state,
        UploadState::Initiating {
            key: "k".to_string(),
            content_type: "image/png".to_string(),
            pending: Some(vec![1, 2, 3]),
        }
    );
    let (state, action) = state.step(UploadEvent::Initiated { upload_id: "up-7".to_string() });
    assert_eq!(
        action,
        UploadAction::PutPart {
            data: vec![1, 2, 3],
            key: "k".to_string(),
            part_number: 1,
            upload_id: "up-7".to_string(),
            content_type: "image/png".to_string(),
        }
    );
    assert_eq!(
        state,
        UploadState::Uploading {
            session: MultipartUploadSession {
                key: "k".to_string(),
                content_type: "image/png".to_string(),
                upload_id: "up-7".to_string(),
                parts: vec![],
            },
            in_flight: Some(1),
        }
    );
}

#[test]
fn chunks_become_parts_in_their_order() {
    let (state, _) = upload_s3("k".to_string());
    let (state, _) = state.step(file_field(None));
    let (state, _) = state.step(UploadEvent::Chunk(vec![10]));
    let (state, _) = state.step(UploadEvent::Initiated { upload_id: "up".to_string() });
    let (state, action) = state.step(UploadEvent::PartStored { etag: etag(1) });
    assert_eq!(action, UploadAction::NextChunk);
    let (state, action) = state.step(UploadEvent::Chunk(vec![20, 21]));
    assert_eq!(
        action,
        UploadAction::PutPart {
            data: vec![20, 21],
            key: "k".to_string(),
            part_number: 2,
            upload_id: "up".to_string(),
            content_type: "text/plain".to_string(),
        }
    );
    let (state, _) = state.step(UploadEvent::PartStored { etag: etag(2) });
    let (state, action) = state.step(UploadEvent::Chunk(vec![30]));
    assert!(matches!(action, UploadAction::PutPart { part_number: 3, .. }));
    let (state, _) = state.step(UploadEvent::PartStored { etag: etag(3) });
    let (state, action) = state.step(UploadEvent::EndOfStream);
    assert_eq!(
        action,
        UploadAction::Complete {
            key: "k".to_string(),
            upload_id: "up".to_string(),
            parts: vec![part(1), part(2), part(3)],
        }
    );
    assert_eq!(state, UploadState::Completing { key: "k".to_string(), upload_id: "up".to_string() });
    let (state, action) = state.step(UploadEvent::Completed);
    assert_eq!(state, UploadState::Done);
    assert_eq!(action, UploadAction::ClearCacheAndSucceed);
}

#[test]
fn an_upload_without_chunks_is_opened_and_completed() {
    let (state, _) = upload_s3("empty.txt".to_string());
    let (state, _) = state.step(file_field(None));
    let (state, action) = state.step(UploadEvent::EndOfStream);
    assert_eq!(
        action,
        UploadAction::Initiate {
            key: "empty.txt".to_string(),
            content_type: "text/plain".to_string(),
        }
    );
    let (state, action) = state.step(UploadEvent::Initiated { upload_id: "up".to_string() });
    assert_eq!(
        action,
        UploadAction::Complete {
            key: "empty.txt".to_string(),
            upload_id: "up".to_string(),
            parts: vec![],
        }
    );
    let (state, action) = state.step(UploadEvent::Completed);
    assert_eq!(state, UploadState::Done);
    assert_eq!(action, UploadAction::ClearCacheAndSucceed);
}

#[test]
fn exactly_ten_thousand_chunks_complete() {
    assert_eq!(MAX_PARTS, 10000);
    let state = upload_with_parts(10000);
    let (state, action) = state.step(UploadEvent::EndOfStream);
    match &action {
        UploadAction::Complete { key, upload_id, parts } => {
            assert_eq!(key, "big.bin");
            assert_eq!(upload_id, "up-1");
            assert_eq!(parts.len(), 10000);
            for (i, p) in parts.iter().enumerate() {
                assert_eq!(*p, part(i as u32 + 1));
            }
        }
        other => panic!("the upload was not completed: {:?}", other),
    }
    let (state, action) = state.step(UploadEvent::Completed);
    assert_eq!(state, UploadState::Done);
    assert_eq!(action, UploadAction::ClearCacheAndSucceed);
}

#[test]
fn the_chunk_after_ten_thousand_is_one_too_many() {
    let state = upload_with_parts(10000);
    let (state, action) = state.step(UploadEvent::Chunk(vec![1]));
    assert_eq!(
        action,
        UploadAction::Abort { key: "big.bin".to_string(), upload_id: "up-1".to_string() }
    );
    assert_eq!(state, UploadState::Aborting { cause: GatewayError::TooManyParts });
    let (state, action) = state.step(UploadEvent::AbortSettled);
    assert_eq!(state, UploadState::Aborted { cause: GatewayError::TooManyParts });
    assert_eq!(action, UploadAction::Fail(GatewayError::TooManyParts));
}

#[test]
fn the_last_allowed_chunk_is_still_sent() {
    let state = upload_with_parts(9999);
    let (state, action) = state.step(UploadEvent::Chunk(vec![1]));
    assert!(matches!(action, UploadAction::PutPart { part_number: 10000, .. }));
    let (state, action) = state.step(UploadEvent::PartStored { etag: etag(10000) });
    assert_eq!(action, UploadAction::NextChunk);
    let (_, action) = state.step(UploadEvent::ChunkFailed);
    assert_eq!(
        action,
        UploadAction::Abort { key: "big.bin".to_string(), upload_id: "up-1".to_string() }
    );
}

#[test]
fn a_read_failure_with_all_parts_stored_is_a_read_failure() {
    let state = upload_with_parts(10000);
    let (state, action) = state.step(UploadEvent::ChunkFailed);
    assert_eq!(
        action,
        UploadAction::Abort { key: "big.bin".to_string(), upload_id: "up-1".to_string() }
    );
    assert_eq!(state, UploadState::Aborting { cause: GatewayError::UpstreamError });
    let (state, action) = state.step(UploadEvent::AbortSettled);
    assert_eq!(state, UploadState::Aborted { cause: GatewayError::UpstreamError });
    assert_eq!(action, UploadAction::Fail(GatewayError::UpstreamError));
}

#[test]
fn a_failed_abort_does_not_change_the_failure() {
    let state = upload_with_parts(10000);
    let (state, _) = state.step(UploadEvent::Chunk(vec![1]));
    let (state, action) = state.step(UploadEvent::StoreFailed);
    assert_eq!(state, UploadState::Aborted { cause: GatewayError::TooManyParts });
    assert_eq!(action, UploadAction::Fail(GatewayError::TooManyParts));
}

#[test]
fn a_part_that_the_store_refuses_aborts_the_upload() {
    let state = upload_with_parts(2);
    let (state, _) = state.step(UploadEvent::Chunk(vec![1]));
    let (state, action) = state.step(UploadEvent::StoreFailed);
    assert_eq!(
        action,
        UploadAction::Abort { key: "big.bin".to_string(), upload_id: "up-1".to_string() }
    );
    assert_eq!(state, UploadState::Aborting { cause: GatewayError::UpstreamError });
    let (state, action) = state.step(UploadEvent::AbortSettled);
    assert_eq!(state, UploadState::Aborted { cause: GatewayError::UpstreamError });
    assert_eq!(action, UploadAction::Fail(GatewayError::UpstreamError));
}

#[test]
fn a_first_part_that_the_store_refuses_aborts_the_upload() {
    let (state, _) = upload_s3("k".to_string());
    let (state, _) = state.step(file_field(None));
    let (state, _) = state.step(UploadEvent::Chunk(vec![1]));
    let (state, _) = state.step(UploadEvent::Initiated { upload_id: "up".to_string() });
    let (state, action) = state.step(UploadEvent::StoreFailed);
    assert_eq!(action, UploadAction::Abort { key: "k".to_string(), upload_id: "up".to_string() });
    assert_eq!(state, UploadState::Aborting { cause: GatewayError::UpstreamError });
}

#[test]
fn a_chunk_that_cannot_be_read_aborts_the_upload() {
    let state = upload_with_parts(1);
    let (state, action) = state.step(UploadEvent::ChunkFailed);
    assert_eq!(
        action,
        UploadAction::Abort { key: "big.bin".to_string(), upload_id: "up-1".to_string() }
    );
    let (state, action) = state.step(UploadEvent::AbortSettled);
    assert_eq!(state, UploadState::Aborted { cause: GatewayError::UpstreamError });
    assert_eq!(action, UploadAction::Fail(GatewayError::UpstreamError));
}

#[test]
fn a_completion_that_fails_aborts_the_upload() {
    let state = upload_with_parts(3);
    let (state, _) = state.step(UploadEvent::EndOfStream);
    let (state, action) = state.step(UploadEvent::StoreFailed);
    assert_eq!(
        action,
        UploadAction::Abort { key: "big.bin".to_string(), upload_id: "up-1".to_string() }
    );
    let (state, action) = state.step(UploadEvent::AbortSettled);
    assert_eq!(state, UploadState::Aborted { cause: GatewayError::UpstreamError });
    assert_eq!(action, UploadAction::Fail(GatewayError::UpstreamError));
}

#[test]
fn an_upload_that_cannot_be_opened_fails_without_abort() {
    let (state, _) = upload_s3("k".to_string());
    let (state, _) = state.step(file_field(None));
    let (state, _) = state.step(UploadEvent::Chunk(vec![1]));
    let (state, action) = state.step(UploadEvent::StoreFailed);
    assert_eq!(state, UploadState::Rejected { cause: GatewayError::UpstreamError });
    assert_eq!(action, UploadAction::Fail(GatewayError::UpstreamError));
}

#[test]
fn a_field_that_cannot_be_read_at_all_fails_without_a_store_call() {
    let (state, _) = upload_s3("k".to_string());
    let (state, _) = state.step(file_field(None));
    let (state, action) = state.step(UploadEvent::ChunkFailed);
    assert_eq!(state, UploadState::Rejected { cause: GatewayError::UpstreamError });
    assert_eq!(action, UploadAction::Fail(GatewayError::UpstreamError));
}

#[test]
fn an_event_that_is_not_awaited_fails_the_upload() {
    let (state, _) = upload_s3("k".to_string());
    let (state, action) = state.step(UploadEvent::Completed);
    assert_eq!(state, UploadState::Rejected { cause: GatewayError::UpstreamError });
    assert_eq!(action, UploadAction::Fail(GatewayError::UpstreamError));
    let state = upload_with_parts(1);
    let (state, action) = state.step(UploadEvent::Completed);
    assert_eq!(state, UploadState::Aborting { cause: GatewayError::UpstreamError });
    assert!(matches!(action, UploadAction::Abort { .. }));
    let state = upload_with_parts(1);
    let (state, _) = state.step(UploadEvent::Chunk(vec![1]));
    let (_, action) = state.step(UploadEvent::Chunk(vec![2]));
    assert!(matches!(action, UploadAction::Abort { .. }));
}

#[test]
fn a_request_that_is_over_stays_as_it_is() {
    let state = upload_with_parts(1);
    let (state, _) = state.step(UploadEvent::EndOfStream);
    let (state, _) = state.step(UploadEvent::Completed);
    let (state, action) = state.step(UploadEvent::Chunk(vec![1]));
    assert_eq!(state, UploadState::Done);
    assert_eq!(action, UploadAction::ClearCacheAndSucceed);
    let rejected = UploadState::Rejected { cause: GatewayError::BadRequest };
    let (state, action) = rejected.step(UploadEvent::EndOfStream);
    assert_eq!(state, UploadState::Rejected { cause: GatewayError::BadRequest });
    assert_eq!(action, UploadAction::Fail(GatewayError::BadRequest));
    let aborted = UploadState::Aborted { cause: GatewayError::TooManyParts };
    let (state, action) = aborted.step(UploadEvent::AbortSettled);
    assert_eq!(state, UploadState::Aborted { cause: GatewayError::TooManyParts });
    assert_eq!(action, UploadAction::Fail(GatewayError::TooManyParts));
}
