use connect_proxy::parser::MalformedReason;
use connect_proxy::session::{FailReason, OnConnectRequest, Session, WaitingRequest};

#[test]
fn fresh_session_is_waiting() {
    let session = Session::waiting_request();
    assert!(matches!(session, Session::WaitingRequest(_)));
}

#[test]
fn connect_request_advances_to_accepted_target() {
    let session = Session::waiting_request();
    let req = b"CONNECT example.com:443 HTTP/1.1\r\nHost: example.com:443\r\n\r\n";
    let session = session.on_data(&req[..]);
    match session {
        Session::OnConnectRequest(state) => assert_eq!(state.path, "example.com:443"),
        _ => panic!("expected the request to be accepted"),
    }
}

#[test]
fn non_connect_method_fails_the_session() {
    let session = Session::waiting_request();
    let req = b"GET / HTTP/1.1\r\nHost: example.com\r\n\r\n";
    let session = session.on_data(&req[..]);
    match session {
        Session::Failed(failed) => assert_eq!(
            failed.reason,
            FailReason::Malformed {
                reason: MalformedReason::UnsupportedMethod {
                    method: "GET".to_string()
                },
            }
        ),
        _ => panic!("expected the session to fail"),
    }
}

#[test]
fn partial_request_keeps_waiting_and_full_buffer_completes() {
    let first = b"CONNECT example.com:443 HTTP/1.1\r\n";
    let second = b"Host: example.com:443\r\n\r\n";

    let session = Session::waiting_request();
    let session = session.on_data(&first[..]);
    assert!(matches!(session, Session::WaitingRequest(_)));

    // The caller retains its buffer and feeds the whole of it again.
    let mut whole = first.to_vec();
    whole.extend_from_slice(second);
    let session = session.on_data(&whole);
    match session {
        Session::OnConnectRequest(state) => assert_eq!(state.path, "example.com:443"),
        _ => panic!("expected the request to be accepted"),
    }
}

#[test]
fn failed_session_absorbs_further_data() {
    let session = Session::waiting_request();
    let session = session.on_data(&b"GET / HTTP/1.1\r\n\r\n"[..]);
    assert!(matches!(session, Session::Failed(_)));
    let session = session.on_data(&b"CONNECT example.com:443 HTTP/1.1\r\n\r\n"[..]);
    match session {
        Session::Failed(failed) => assert!(matches!(
            failed.reason,
            FailReason::Malformed { .. }
        )),
        _ => panic!("a failed session must stay failed"),
    }
}

#[test]
fn accepted_session_rejects_unexpected_data() {
    let session = Session::OnConnectRequest(OnConnectRequest {
        path: "example.com:443".to_string(),
    });
    let session = session.on_data(&b"hello"[..]);
    match session {
        Session::Failed(failed) => assert_eq!(failed.reason, FailReason::UnexpectedData),
        _ => panic!("expected the session to fail"),
    }
}

#[test]
fn connect_failure_fails_the_session() {
    let state = OnConnectRequest {
        path: "unreachable.test:1".to_string(),
    };
    let session = state.on_connect_failed();
    match session {
        Session::Failed(failed) => assert_eq!(failed.reason, FailReason::TargetUnreachable),
        _ => panic!("expected the session to fail"),
    }
}

#[test]
fn waiting_state_parses_directly() {
    let state = WaitingRequest;
    let session = state.on_data(&b"CONNECT h:1 HTTP/1.1\r\n\r\n"[..]);
    match session {
        Session::OnConnectRequest(state) => assert_eq!(state.path, "h:1"),
        _ => panic!("expected the request to be accepted"),
    }
}
