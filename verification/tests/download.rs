use s3_fileserver::download::{
    download_s3, DownloadAction, DownloadEvent, DownloadState, ABSENT_STATUS, LINK_TTL_SECONDS,
    REDIRECT_STATUS,
};
use s3_fileserver::error::GatewayError;

#[test]
fn download_s3_starts_with_the_existence_check() {
    let (state, action) = download_s3("docs/a.txt".to_string());
    assert_eq!(state, DownloadState::CheckingObject { key: "docs/a.txt".to_string() });
    assert_eq!(action, DownloadAction::Head { key: "docs/a.txt".to_string() });
}

#[test]
fn a_confirmed_object_gets_a_link_for_an_hour() {
    let (state, _) = download_s3("docs/a.txt".to_string());
    let (state, action) = state.step(DownloadEvent::HeadReply(Some(200)));
    assert_eq!(state, DownloadState::Signing);
    assert_eq!(action, DownloadAction::Presign { key: "docs/a.txt".to_string(), ttl_seconds: 3600 });
    assert_eq!(LINK_TTL_SECONDS, 3600);
    let (state, action) =
        state.step(DownloadEvent::PresignReply(Some("https://store/signed?x=1".to_string())));
    assert_eq!(state, DownloadState::Finished);
    assert_eq!(action, DownloadAction::Redirect { location: "https://store/signed?x=1".to_string() });
    assert_eq!(REDIRECT_STATUS, 302);
}

#[test]
fn an_absent_object_is_not_found() {
    let (state, _) = download_s3("docs/a.txt".to_string());
    let (state, action) = state.step(DownloadEvent::HeadReply(Some(404)));
    assert_eq!(state, DownloadState::Finished);
    assert_eq!(action, DownloadAction::Fail(GatewayError::NotFound));
    assert_eq!(ABSENT_STATUS, 404);
    assert_eq!(GatewayError::NotFound.status_code(), 404);
}

#[test]
fn a_store_that_answers_out_of_order_is_an_upstream_error() {
    for status in [0, 100, 199, 300, 301, 304, 400, 401, 403, 405, 410, 429, 500, 502, 503, u16::MAX] {
        let (state, _) = download_s3("docs/a.txt".to_string());
        let (state, action) = state.step(DownloadEvent::HeadReply(Some(status)));
        assert_eq!(state, DownloadState::Finished);
        assert_eq!(action, DownloadAction::Fail(GatewayError::UpstreamError));
        assert_eq!(GatewayError::UpstreamError.status_code(), 500);
    }
}

#[test]
fn a_store_that_answers_in_good_order_confirms_the_object() {
    for status in [200, 204, 206, 299] {
        let (state, _) = download_s3("docs/a.txt".to_string());
        let (state, action) = state.step(DownloadEvent::HeadReply(Some(status)));
        assert_eq!(state, DownloadState::Signing);
        assert_eq!(
            action,
            DownloadAction::Presign { key: "docs/a.txt".to_string(), ttl_seconds: 3600 }
        );
    }
}

#[test]
fn a_failed_existence_check_is_an_upstream_error() {
    let (state, _) = download_s3("docs/a.txt".to_string());
    let (state, action) = state.step(DownloadEvent::HeadReply(None));
    assert_eq!(state, DownloadState::Finished);
    assert_eq!(action, DownloadAction::Fail(GatewayError::UpstreamError));
}

#[test]
fn a_link_that_cannot_be_signed_is_an_upstream_error() {
    let (state, _) = download_s3("docs/a.txt".to_string());
    let (state, _) = state.step(DownloadEvent::HeadReply(Some(200)));
    let (state, action) = state.step(DownloadEvent::PresignReply(None));
    assert_eq!(state, DownloadState::Finished);
    assert_eq!(action, DownloadAction::Fail(GatewayError::UpstreamError));
}

#[test]
fn an_answer_that_was_not_asked_for_fails_the_download() {
    let (state, _) = download_s3("k".to_string());
    let (state, action) = state.step(DownloadEvent::PresignReply(Some("https://x".to_string())));
    assert_eq!(state, DownloadState::Finished);
    assert_eq!(action, DownloadAction::Fail(GatewayError::UpstreamError));
    let (state, action) = state.step(DownloadEvent::HeadReply(Some(200)));
    assert_eq!(state, DownloadState::Finished);
    assert_eq!(action, DownloadAction::Fail(GatewayError::UpstreamError));
    let (state, _) = download_s3("k".to_string());
    let (state, _) = state.step(DownloadEvent::HeadReply(Some(200)));
    let (_, action) = state.step(DownloadEvent::HeadReply(Some(200)));
    assert_eq!(action, DownloadAction::Fail(GatewayError::UpstreamError));
}
