use oci_distribution::{
    AuthEvent, AuthState, Client, Header, OciError, PullEvent, PullState, RegistryToken,
};

const URL: &str = "https://registry.example/v2/hello-wasm/manifests/v1";
const ACCEPT: &str = "application/vnd.docker.distribution.manifest.v2+json,application/vnd.docker.distribution.manifest.list.v2+json";

#[derive(Debug, PartialEq)]
struct Manifest {
    schema_version: u8,
    layers: Vec<String>,
}

fn accept() -> Header {
    Header { name: "Accept".to_owned(), value: ACCEPT.to_owned() }
}

fn fetch(client: &Client) -> PullState<Manifest> {
    client.pull_manifest(URL)
}

fn answered(code: u16) -> PullState<Manifest> {
    fetch(&Client::default()).advance(PullEvent::Status(code))
}

fn client_with(token: &str) -> Client {
    let mut c = Client::default();
    let done = c.auth(
        AuthState::ReadToken,
        AuthEvent::Token(RegistryToken::new(token.to_owned(), None, None)),
    );
    assert_eq!(done, AuthState::Done(Ok(())));
    c
}

#[test]
fn fresh_client_sends_accept_and_no_authorization() {
    let state = fetch(&Client::default());
    assert_eq!(state, PullState::Fetch { url: URL.to_owned(), headers: vec![accept()] });
    match state {
        PullState::Fetch { headers, .. } => {
            assert!(headers.iter().all(|h| !h.name.eq_ignore_ascii_case("authorization")));
        }
        other => panic!("unexpected state {:?}", other),
    }
}

#[test]
fn accept_lists_the_manifest_before_the_manifest_list() {
    match fetch(&Client::default()) {
        PullState::Fetch { headers, .. } => {
            assert_eq!(headers[0].name, "Accept");
            let types: Vec<&str> = headers[0].value.split(',').collect();
            assert_eq!(
                types,
                vec![
                    "application/vnd.docker.distribution.manifest.v2+json",
                    "application/vnd.docker.distribution.manifest.list.v2+json",
                ]
            );
        }
        other => panic!("unexpected state {:?}", other),
    }
}

#[test]
fn client_with_credential_sends_it_as_bearer() {
    let c = client_with("abc");
    assert_eq!(
        fetch(&c),
        PullState::Fetch {
            url: URL.to_owned(),
            headers: vec![
                accept(),
                Header { name: "Authorization".to_owned(), value: "Bearer abc".to_owned() },
            ],
        }
    );
}

#[test]
fn token_granted_by_a_handshake_is_sent_by_the_next_pull() {
    let mut c = Client::default();
    let line = r#"Bearer realm="https://auth.example/token",service="registry.example""#;
    let state = AuthState::begin("registry.example", "hello-wasm");
    let state = c.auth(state, AuthEvent::Challenge(Some(line.as_bytes().to_vec())));
    assert_eq!(
        state,
        AuthState::Exchange {
            realm: "https://auth.example/token".to_owned(),
            service: "registry.example".to_owned(),
            scope: "repository:hello-wasm:pull".to_owned(),
        }
    );
    let state = c.auth(state, AuthEvent::Status(200));
    let state = c.auth(state, AuthEvent::Token(RegistryToken::new("abc".to_owned(), None, None)));
    assert_eq!(state, AuthState::Done(Ok(())));
    match fetch(&c) {
        PullState::Fetch { headers, .. } => {
            let sent: Vec<&Header> = headers.iter().filter(|h| h.name == "Authorization").collect();
            assert_eq!(sent.len(), 1);
            assert_eq!(sent[0].value, "Bearer abc");
        }
        other => panic!("unexpected state {:?}", other),
    }
}

#[test]
fn rejected_handshake_leaves_the_pull_anonymous() {
    let mut c = Client::default();
    let state = AuthState::Exchange {
        realm: "https://auth.example/token".to_owned(),
        service: "registry.example".to_owned(),
        scope: "repository:hello-wasm:pull".to_owned(),
    };
    let state = c.auth(state, AuthEvent::Status(403));
    let state = c.auth(state, AuthEvent::Text("forbidden".to_owned()));
    match state {
        AuthState::Done(Err(OciError::AuthRejected(message))) => {
            assert!(message.contains("forbidden"));
        }
        other => panic!("unexpected state {:?}", other),
    }
    assert_eq!(fetch(&c), PullState::Fetch { url: URL.to_owned(), headers: vec![accept()] });
}

#[test]
fn status_200_reads_the_manifest() {
    assert_eq!(answered(200), PullState::ReadManifest);
}

#[test]
fn status_200_with_a_manifest_is_the_manifest() {
    let manifest = Manifest { schema_version: 2, layers: vec!["sha256:abc".to_owned()] };
    let done = answered(200).advance(PullEvent::Manifest(manifest));
    match done {
        PullState::Done(Ok(m)) => {
            assert_eq!(m.schema_version, 2);
            assert!(!m.layers.is_empty());
            assert_eq!(m, Manifest { schema_version: 2, layers: vec!["sha256:abc".to_owned()] });
        }
        other => panic!("unexpected state {:?}", other),
    }
}

#[test]
fn status_4xx_reads_the_error_envelope() {
    for code in [400u16, 401, 403, 404, 429, 499] {
        assert_eq!(answered(code), PullState::ReadErrors { url: URL.to_owned() });
    }
}

#[test]
fn status_404_names_the_first_error_and_the_url() {
    let done = answered(404).advance(PullEvent::Errors(vec!["MANIFEST_UNKNOWN".to_owned()]));
    assert_eq!(
        done,
        PullState::Done(Err(OciError::ClientError {
            message: "MANIFEST_UNKNOWN".to_owned(),
            url: URL.to_owned(),
        }))
    );
}

#[test]
fn client_error_names_the_first_of_several_errors() {
    let entries = vec!["UNAUTHORIZED".to_owned(), "DENIED".to_owned(), "".to_owned()];
    let done = answered(401).advance(PullEvent::Errors(entries));
    assert_eq!(
        done,
        PullState::Done(Err(OciError::ClientError {
            message: "UNAUTHORIZED".to_owned(),
            url: URL.to_owned(),
        }))
    );
}

#[test]
fn undecodable_envelope_is_a_decode_failure() {
    let done = answered(404).advance(PullEvent::DecodeFailed("expected value".to_owned()));
    assert_eq!(done, PullState::Done(Err(OciError::DecodeFailure("expected value".to_owned()))));
}

#[test]
fn undecodable_manifest_is_a_decode_failure() {
    let done = answered(200).advance(PullEvent::DecodeFailed("missing field".to_owned()));
    assert_eq!(done, PullState::Done(Err(OciError::DecodeFailure("missing field".to_owned()))));
}

#[test]
fn status_5xx_is_a_server_error_at_once() {
    for code in [500u16, 502, 503, 599] {
        assert_eq!(
            answered(code),
            PullState::Done(Err(OciError::ServerError { url: URL.to_owned() }))
        );
    }
}

#[test]
fn any_other_status_reads_the_text() {
    for code in [0u16, 100, 101, 199, 201, 204, 299, 301, 302, 399, 600, 999, u16::MAX] {
        assert_eq!(answered(code), PullState::ReadText { code, url: URL.to_owned() });
    }
}

#[test]
fn unexpected_status_carries_code_url_and_body() {
    let done = answered(302).advance(PullEvent::Text("<a href=\"/elsewhere\">".to_owned()));
    assert_eq!(
        done,
        PullState::Done(Err(OciError::UnexpectedStatus {
            code: 302,
            url: URL.to_owned(),
            body: "<a href=\"/elsewhere\">".to_owned(),
        }))
    );
}

#[test]
fn transport_failure_ends_the_request_wherever_it_stands() {
    for state in [
        fetch(&Client::default()),
        answered(200),
        answered(404),
        answered(302),
    ] {
        assert_eq!(
            state.advance(PullEvent::TransportFailed("timed out".to_owned())),
            PullState::Done(Err(OciError::TransportFailure("timed out".to_owned())))
        );
    }
}

#[test]
fn a_finished_request_stays_finished() {
    let done = answered(500);
    let done = done.advance(PullEvent::Status(200));
    let done = done.advance(PullEvent::TransportFailed("late".to_owned()));
    let done = done.advance(PullEvent::Errors(Vec::new()));
    assert_eq!(done, PullState::Done(Err(OciError::ServerError { url: URL.to_owned() })));
}

#[test]
fn a_report_that_answers_nothing_changes_nothing() {
    let manifest = || Manifest { schema_version: 2, layers: Vec::new() };
    let start = fetch(&Client::default());
    let start = start.advance(PullEvent::Manifest(manifest()));
    let start = start.advance(PullEvent::Text("x".to_owned()));
    let start = start.advance(PullEvent::Errors(Vec::new()));
    let start = start.advance(PullEvent::DecodeFailed("x".to_owned()));
    assert_eq!(start, fetch(&Client::default()));
    let state = answered(200).advance(PullEvent::Status(404));
    let state = state.advance(PullEvent::Errors(vec!["E".to_owned()]));
    let state = state.advance(PullEvent::Text("x".to_owned()));
    assert_eq!(state, PullState::ReadManifest);
    let state = answered(404).advance(PullEvent::Manifest(manifest()));
    let state = state.advance(PullEvent::Text("x".to_owned()));
    assert_eq!(state, PullState::ReadErrors { url: URL.to_owned() });
    let state = answered(302).advance(PullEvent::Manifest(manifest()));
    let state = state.advance(PullEvent::DecodeFailed("x".to_owned()));
    let state = state.advance(PullEvent::Errors(vec!["E".to_owned()]));
    assert_eq!(state, PullState::ReadText { code: 302, url: URL.to_owned() });
}

#[test]
fn empty_envelope_is_a_decode_failure() {
    for code in [400u16, 401, 404, 499] {
        let done = answered(code).advance(PullEvent::Errors(Vec::new()));
        assert_eq!(
            done,
            PullState::Done(Err(OciError::DecodeFailure(
                "the error envelope lists no error".to_owned()
            )))
        );
    }
}

#[test]
fn empty_envelope_after_404_is_an_error_and_no_manifest() {
    let done = answered(404).advance(PullEvent::Errors(Vec::new()));
    match done {
        PullState::Done(Err(OciError::DecodeFailure(_))) => {}
        other => panic!("unexpected state {:?}", other),
    }
}

#[test]
fn empty_envelope_where_none_is_waited_for_changes_nothing() {
    assert_eq!(answered(200).advance(PullEvent::Errors(Vec::new())), PullState::ReadManifest);
    assert_eq!(
        answered(302).advance(PullEvent::Errors(Vec::new())),
        PullState::ReadText { code: 302, url: URL.to_owned() }
    );
}
