use idv_admin_daemon::outcome::{
    classify, headline, level, log_line, CallOutcome, LogLevel, OutcomeKind, SUCCESS_STATUS,
};
use idv_admin_daemon::payload::{DeletionResult, TransferResult};
use idv_admin_daemon::request::Trigger;

fn deleted(message: &str) -> DeletionResult {
    DeletionResult { message: Some(message.to_string()), error: None }
}

#[test]
fn status_200_with_valid_body_is_success() {
    let o = classify(Ok((200u16, Ok(deleted("done")))));
    match &o {
        CallOutcome::Succeeded { status, body } => {
            assert_eq!(*status, 200);
            assert_eq!(body.message.as_deref(), Some("done"));
        }
        _ => panic!("expected success"),
    }
    assert_eq!(o.kind(), OutcomeKind::Succeeded);
    assert_eq!(level(o.kind()), LogLevel::Info);
    let line = log_line(Trigger::Deletion, o.kind(), "200", "{\"message\":\"done\"}");
    assert_eq!(
        line,
        "Successfully triggered deletion of user data from IDV provider databases. response status: 200. response: {\"message\":\"done\"}"
    );
    assert!(line.contains("200") && line.contains("done"));
}

#[test]
fn status_500_with_valid_error_body_is_error() {
    let body = DeletionResult { message: None, error: Some("boom".to_string()) };
    let o = classify(Ok((500u16, Ok(body))));
    match &o {
        CallOutcome::Rejected { status, body } => {
            assert_eq!(*status, 500);
            assert_eq!(body.error.as_deref(), Some("boom"));
        }
        _ => panic!("expected rejection"),
    }
    assert_eq!(level(o.kind()), LogLevel::Error);
    let line = log_line(Trigger::Deletion, o.kind(), "500", "boom");
    assert_eq!(
        line,
        "Error triggering deletion of user data from IDV provider databases. response status: 500. response: boom"
    );
}

#[test]
fn malformed_body_is_parse_error_whatever_the_status() {
    for status in [200u16, 201, 404, 500] {
        let o = classify::<DeletionResult>(Ok((status, Err("expected value".to_string()))));
        assert!(matches!(&o, CallOutcome::Unparsable { detail } if detail == "expected value"));
        assert_eq!(level(o.kind()), LogLevel::Error);
        let line = log_line(Trigger::Deletion, o.kind(), "ignored", "expected value");
        assert_eq!(line, "Error parsing response json: expected value");
    }
}

#[test]
fn no_response_is_transport_error() {
    let o = classify::<TransferResult>(Err("connection refused".to_string()));
    assert!(matches!(&o, CallOutcome::Unreachable { detail } if detail == "connection refused"));
    assert_eq!(o.kind(), OutcomeKind::Unreachable);
    assert_eq!(level(OutcomeKind::Unreachable), LogLevel::Error);
    assert_eq!(
        log_line(Trigger::Transfer, o.kind(), "", "connection refused"),
        "Error triggering transfer of funds: connection refused"
    );
    assert_eq!(
        log_line(Trigger::Deletion, OutcomeKind::Unreachable, "", "refused"),
        "Error triggering deletion of user data from IDV provider databases: refused"
    );
}

#[test]
fn transfer_lines() {
    assert_eq!(
        log_line(Trigger::Transfer, OutcomeKind::Succeeded, "200", "{}"),
        "Successfully triggered transfer of funds. response status: 200. response: {}"
    );
    assert_eq!(
        log_line(Trigger::Transfer, OutcomeKind::Rejected, "401", "x"),
        "Error triggering transfer of funds. response status: 401. response: x"
    );
    assert_eq!(headline(Trigger::Transfer, OutcomeKind::Unparsable), "Error parsing response json");
}

#[test]
fn transfer_body_carries_chain_results() {
    let chain = serde_json::Value::from(vec![1, 2, 3]);
    let body = TransferResult { optimism: Some(chain.clone()), fantom: None, avalanche: None, error: None };
    let o = classify(Ok((SUCCESS_STATUS, Ok(body))));
    match o {
        CallOutcome::Succeeded { status, body } => {
            assert_eq!(status, 200);
            assert_eq!(body.optimism, Some(chain));
            assert!(body.fantom.is_none() && body.avalanche.is_none() && body.error.is_none());
        }
        _ => panic!("expected success"),
    }
}

#[test]
fn only_exact_success_status_succeeds() {
    for status in [0u16, 199, 201, 204, 299, 65535] {
        let o = classify(Ok((status, Ok(deleted("x")))));
        assert_eq!(o.kind(), OutcomeKind::Rejected);
    }
}
