use xtask::notarize::{pending_request_id, reply_status, submission_request_id, NotaryReplyError, NotaryStatus};

#[test]
fn notary_replies_are_read() {
    assert_eq!(submission_request_id("{\"id\":\"abc-123\",\"message\":\"ok\"}"), Ok("abc-123".to_string()));
    assert_eq!(submission_request_id("{\"message\":\"ok\"}"), Err(NotaryReplyError::MissingId));
    assert_eq!(submission_request_id("not json"), Err(NotaryReplyError::NotParsed));
    assert_eq!(reply_status("{\"status\":\"Accepted\"}"), Some(NotaryStatus::Accepted));
    assert_eq!(reply_status("{\"status\":\"In Progress\"}"), Some(NotaryStatus::InProgress));
    assert_eq!(reply_status("{\"status\":\"Invalid\"}"), Some(NotaryStatus::Failed));
    assert_eq!(reply_status("{}"), Some(NotaryStatus::Unknown));
    assert_eq!(reply_status("{"), None);
    assert_eq!(pending_request_id("{\"request_id\":\"r1\",\"bundles\":[]}").as_deref(), Some("r1"));
    assert_eq!(pending_request_id("{}"), None);
}
