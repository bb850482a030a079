//! The manifest request.
//!
//! Like the handshake, the request is a state machine: a state says what the
//! driver has to do next, an event reports the outcome, and an event that
//! does not answer what the state asks for leaves the state as it is.

use crate::auth::{auth_run, lemma_grant_stores_token, AuthEventView, AuthStateView};
use crate::client::Client;
use crate::errors::{ErrorView, OciError};
use crate::token::{bearer_value, TokenView};
use vstd::prelude::*;

verus! {

/// The media types a manifest is accepted in, by preference: the single
/// manifest first, then the manifest list.
pub open spec fn accepted_manifests() -> Seq<char> {
    "application/vnd.docker.distribution.manifest.v2+json,application/vnd.docker.distribution.manifest.list.v2+json"@
}

/// One header of a request.
#[derive(Debug, PartialEq, Eq)]
pub struct Header {
    pub name: String,
    pub value: String,
}

/// The mathematical value of a [`Header`].
pub struct HeaderView {
    pub name: Seq<char>,
    pub value: Seq<char>,
}

impl View for Header {
    type V = HeaderView;

    open spec fn view(&self) -> HeaderView {
        HeaderView { name: self.name@, value: self.value@ }
    }
}

/// The values of `headers`, in order.
pub open spec fn header_views(headers: Seq<Header>) -> Seq<HeaderView> {
    headers.map_values(|h: Header| h@)
}

/// The values of `texts`, in order.
pub open spec fn text_views(texts: Seq<String>) -> Seq<Seq<char>> {
    texts.map_values(|t: String| t@)
}

/// The headers of a manifest request made with `credential`: `Accept`, and
/// `Authorization` if and only if there is a credential to present.
pub open spec fn manifest_headers(credential: Option<TokenView>) -> Seq<HeaderView> {
    let accept = HeaderView { name: "Accept"@, value: accepted_manifests() };
    match credential {
        Some(token) => seq![
            accept,
            HeaderView { name: "Authorization"@, value: bearer_value(token.access_token) },
        ],
        None => seq![accept],
    }
}

/// Where a manifest request stands, which is also what the driver has to do
/// next. `M` is the manifest as the driver decodes it.
#[derive(Debug, PartialEq, Eq)]
pub enum PullState<M> {
    /// Send a GET to `url` with `headers` and report the status with
    /// [`PullEvent::Status`].
    Fetch { url: String, headers: Vec<Header> },
    /// Decode the body as a manifest and report it with
    /// [`PullEvent::Manifest`].
    ReadManifest,
    /// Decode the body as an error envelope and report its entries with
    /// [`PullEvent::Errors`].
    ReadErrors { url: String },
    /// Read the body as text and report it with [`PullEvent::Text`].
    ReadText { code: u16, url: String },
    /// The request is over.
    Done(Result<M, OciError>),
}

/// The mathematical value of a [`PullState`].
pub enum PullStateView<M> {
    Fetch { url: Seq<char>, headers: Seq<HeaderView> },
    ReadManifest,
    ReadErrors { url: Seq<char> },
    ReadText { code: u16, url: Seq<char> },
    Done(Result<M, ErrorView>),
}

impl<M> View for PullState<M> {
    type V = PullStateView<M>;

    open spec fn view(&self) -> PullStateView<M> {
        match *self {
            PullState::Fetch { url, headers } => PullStateView::Fetch {
                url: url@,
                headers: header_views(headers@),
            },
            PullState::ReadManifest => PullStateView::ReadManifest,
            PullState::ReadErrors { url } => PullStateView::ReadErrors { url: url@ },
            PullState::ReadText { code, url } => PullStateView::ReadText { code, url: url@ },
            PullState::Done(result) => PullStateView::Done(
                match result {
                    Ok(manifest) => Ok(manifest),
                    Err(e) => Err(e@),
                },
            ),
        }
    }
}

/// What the driver reports to a manifest request.
#[derive(Debug, PartialEq, Eq)]
pub enum PullEvent<M> {
    /// The registry answered with this status.
    Status(u16),
    /// The body, decoded as a manifest.
    Manifest(M),
    /// The body, decoded as an error envelope: its entries in order, each
    /// as text.
    Errors(Vec<String>),
    /// The body, as text.
    Text(String),
    /// The request or the reading of its response failed on the wire.
    TransportFailed(String),
    /// The body does not decode to what it had to be.
    DecodeFailed(String),
}

/// The mathematical value of a [`PullEvent`].
pub enum PullEventView<M> {
    Status(u16),
    Manifest(M),
    Errors(Seq<Seq<char>>),
    Text(Seq<char>),
    TransportFailed(Seq<char>),
    DecodeFailed(Seq<char>),
}

impl<M> View for PullEvent<M> {
    type V = PullEventView<M>;

    open spec fn view(&self) -> PullEventView<M> {
        match *self {
            PullEvent::Status(code) => PullEventView::Status(code),
            PullEvent::Manifest(manifest) => PullEventView::Manifest(manifest),
            PullEvent::Errors(entries) => PullEventView::Errors(text_views(entries@)),
            PullEvent::Text(body) => PullEventView::Text(body@),
            PullEvent::TransportFailed(reason) => PullEventView::TransportFailed(reason@),
            PullEvent::DecodeFailed(reason) => PullEventView::DecodeFailed(reason@),
        }
    }
}

/// What the status `code` of the answer to a manifest request for `url`
/// leads to: 200 to the manifest, 4xx to the error envelope, 5xx to a server
/// error at once, any other status to the text of the body.
pub open spec fn status_answer<M>(code: u16, url: Seq<char>) -> PullStateView<M> {
    if code == 200 {
        PullStateView::ReadManifest
    } else if 400 <= code && code < 500 {
        PullStateView::ReadErrors { url }
    } else if 500 <= code && code < 600 {
        PullStateView::Done(Err(ErrorView::ServerError { url }))
    } else {
        PullStateView::ReadText { code, url }
    }
}

/// What the decode failure says of a body that decodes to an error envelope
/// without entries.
pub open spec fn empty_envelope() -> Seq<char> {
    "the error envelope lists no error"@
}

/// The state that follows `state` on `event`.
pub open spec fn pull_next<M>(state: PullStateView<M>, event: PullEventView<M>) -> PullStateView<
    M,
> {
    match (state, event) {
        (PullStateView::Done(_), _) => state,
        (_, PullEventView::TransportFailed(reason)) => PullStateView::Done(
            Err(ErrorView::TransportFailure(reason)),
        ),
        (PullStateView::Fetch { url, headers }, PullEventView::Status(code)) => status_answer(
            code,
            url,
        ),
        (PullStateView::ReadManifest, PullEventView::Manifest(manifest)) => PullStateView::Done(
            Ok(manifest),
        ),
        (PullStateView::ReadManifest, PullEventView::DecodeFailed(reason)) => PullStateView::Done(
            Err(ErrorView::DecodeFailure(reason)),
        ),
        (PullStateView::ReadErrors { url }, PullEventView::Errors(entries)) => if entries.len()
            > 0 {
            PullStateView::Done(Err(ErrorView::ClientError { message: entries[0], url }))
        } else {
            PullStateView::Done(Err(ErrorView::DecodeFailure(empty_envelope())))
        },
        (PullStateView::ReadErrors { url }, PullEventView::DecodeFailed(reason)) => {
            PullStateView::Done(Err(ErrorView::DecodeFailure(reason)))
        },
        (PullStateView::ReadText { code, url }, PullEventView::Text(body)) => PullStateView::Done(
            Err(ErrorView::UnexpectedStatus { code, url, body }),
        ),
        _ => state,
    }
}

impl<M> PullState<M> {
    /// The state that follows `self` on `event`.
    ///
    /// An error envelope holds at least one entry. A body that decodes to
    /// one without entries has no error to name and is no envelope: it is
    /// answered as a body that failed to decode.
    pub fn advance(self, event: PullEvent<M>) -> (next: Self)
        ensures
            next@ == pull_next(self@, event@),
    {
        match self {
            PullState::Done(result) => PullState::Done(result),
            PullState::Fetch { url, headers } => match event {
                PullEvent::TransportFailed(reason) => PullState::Done(
                    Err(OciError::TransportFailure(reason)),
                ),
                PullEvent::Status(code) => {
                    if code == 200 {
                        PullState::ReadManifest
                    } else if 400 <= code && code < 500 {
                        PullState::ReadErrors { url }
                    } else if 500 <= code && code < 600 {
                        PullState::Done(Err(OciError::ServerError { url }))
                    } else {
                        PullState::ReadText { code, url }
                    }
                },
                _ => PullState::Fetch { url, headers },
            },
            PullState::ReadManifest => match event {
                PullEvent::TransportFailed(reason) => PullState::Done(
                    Err(OciError::TransportFailure(reason)),
                ),
                PullEvent::Manifest(manifest) => PullState::Done(Ok(manifest)),
                PullEvent::DecodeFailed(reason) => PullState::Done(
                    Err(OciError::DecodeFailure(reason)),
                ),
                _ => PullState::ReadManifest,
            },
            PullState::ReadErrors { url } => match event {
                PullEvent::TransportFailed(reason) => PullState::Done(
                    Err(OciError::TransportFailure(reason)),
                ),
                PullEvent::Errors(entries) => {
                    if entries.len() > 0 {
                        let message = entries[0].clone();
                        PullState::Done(Err(OciError::ClientError { message, url }))
                    } else {
                        PullState::Done(
                            Err(
                                OciError::DecodeFailure(
                                    String::from_str("the error envelope lists no error"),
                                ),
                            ),
                        )
                    }
                },
                PullEvent::DecodeFailed(reason) => PullState::Done(
                    Err(OciError::DecodeFailure(reason)),
                ),
                _ => PullState::ReadErrors { url },
            },
            PullState::ReadText { code, url } => match event {
                PullEvent::TransportFailed(reason) => PullState::Done(
                    Err(OciError::TransportFailure(reason)),
                ),
                PullEvent::Text(body) => PullState::Done(
                    Err(OciError::UnexpectedStatus { code, url, body }),
                ),
                _ => PullState::ReadText { code, url },
            },
        }
    }
}

impl Client {
    /// Begins the request for the manifest at `url`: the first state holds
    /// the request to send. The credential is presented if the client holds
    /// one; without one the request is anonymous.
    pub fn pull_manifest<M>(&self, url: &str) -> (r: PullState<M>)
        ensures
            r@ == (PullStateView::<M>::Fetch { url: url@, headers: manifest_headers(self@) }),
    {
        let mut headers: Vec<Header> = Vec::new();
        headers.push(
            Header {
                name: String::from_str("Accept"),
                value: String::from_str(
                    "application/vnd.docker.distribution.manifest.v2+json,application/vnd.docker.distribution.manifest.list.v2+json",
                ),
            },
        );
        if let Some(bearer) = self.token() {
            headers.push(
                Header { name: String::from_str("Authorization"), value: bearer.bearer_token() },
            );
        }
        assert(header_views(headers@) =~= manifest_headers(self@));
        PullState::Fetch { url: String::from_str(url), headers }
    }
}

/// A request made without a credential is anonymous: it carries the
/// `Accept` header and no `Authorization` header at all.
pub proof fn lemma_anonymous_request_has_no_authorization()
    ensures
        manifest_headers(None).len() == 1,
        manifest_headers(None)[0] == (HeaderView {
            name: "Accept"@,
            value: accepted_manifests(),
        }),
        forall|i: int|
            0 <= i < manifest_headers(None).len() ==> (#[trigger] manifest_headers(None)[i]).name
                != "Authorization"@,
{
    reveal_strlit("Accept");
    reveal_strlit("Authorization");
    assert("Accept"@.len() != "Authorization"@.len());
}

/// A request made with a credential presents it: after the `Accept` header
/// comes one `Authorization` header, whose value is `Bearer`, a space and the
/// access token.
pub proof fn lemma_credential_is_presented(token: TokenView)
    ensures
        manifest_headers(Some(token)).len() == 2,
        manifest_headers(Some(token))[0] == (HeaderView {
            name: "Accept"@,
            value: accepted_manifests(),
        }),
        manifest_headers(Some(token))[1] == (HeaderView {
            name: "Authorization"@,
            value: "Bearer "@ + token.access_token,
        }),
{
}

/// A token that a handshake was granted is presented by every manifest
/// request made after it, whatever the client held before the handshake.
pub proof fn lemma_granted_token_is_presented(
    credential: Option<TokenView>,
    realm: Seq<char>,
    service: Seq<char>,
    scope: Seq<char>,
    token: TokenView,
)
    ensures
        ({
            let events = seq![AuthEventView::Status(200), AuthEventView::Token(token)];
            let after = auth_run(
                credential,
                AuthStateView::Exchange { realm, service, scope },
                events,
            );
            manifest_headers(after.0)[1] == (HeaderView {
                name: "Authorization"@,
                value: "Bearer "@ + token.access_token,
            })
        }),
{
    lemma_grant_stores_token(credential, realm, service, scope, token);
}

/// An answer of 200 whose body decodes gives the manifest as it was
/// decoded.
pub proof fn lemma_ok_gives_manifest<M>(url: Seq<char>, headers: Seq<HeaderView>, manifest: M)
    ensures
        pull_next(
            pull_next(PullStateView::Fetch { url, headers }, PullEventView::<M>::Status(200)),
            PullEventView::Manifest(manifest),
        ) == PullStateView::Done(Ok(manifest)),
{
}

/// An answer of 4xx whose body decodes as an error envelope gives a client
/// error that names the first entry of the envelope and the URL asked for.
pub proof fn lemma_client_error_names_first_entry<M>(
    url: Seq<char>,
    headers: Seq<HeaderView>,
    code: u16,
    entries: Seq<Seq<char>>,
)
    requires
        400 <= code < 500,
        entries.len() > 0,
    ensures
        pull_next(
            pull_next(PullStateView::Fetch { url, headers }, PullEventView::<M>::Status(code)),
            PullEventView::Errors(entries),
        ) == PullStateView::<M>::Done(Err(ErrorView::ClientError { message: entries[0], url })),
{
}

/// An answer of 4xx whose body decodes to an envelope without entries gives
/// a decode failure: the body names no error, so it is no error envelope.
pub proof fn lemma_empty_envelope_is_a_decode_failure<M>(
    url: Seq<char>,
    headers: Seq<HeaderView>,
    code: u16,
)
    requires
        400 <= code < 500,
    ensures
        pull_next(
            pull_next(PullStateView::Fetch { url, headers }, PullEventView::<M>::Status(code)),
            PullEventView::Errors(Seq::empty()),
        ) == PullStateView::<M>::Done(Err(ErrorView::DecodeFailure(empty_envelope()))),
{
}

/// An answer of 4xx never gives a manifest. Whatever the driver reports
/// after it, the request either still waits for the envelope or has ended
/// in an error.
pub proof fn lemma_client_error_never_succeeds<M>(
    url: Seq<char>,
    headers: Seq<HeaderView>,
    code: u16,
    event: PullEventView<M>,
)
    requires
        400 <= code < 500,
    ensures
        ({
            let after = pull_next(
                pull_next(PullStateView::Fetch { url, headers }, PullEventView::<M>::Status(code)),
                event,
            );
            after is ReadErrors || (after matches PullStateView::Done(result) && result is Err)
        }),
        (event is Errors || event is DecodeFailed || event is TransportFailed) ==> pull_next(
            pull_next(PullStateView::Fetch { url, headers }, PullEventView::<M>::Status(code)),
            event,
        ) is Done,
{
}

/// A body that had to be JSON and is not gives a decode failure of its own,
/// after 200 as after 4xx, and never a client error.
pub proof fn lemma_undecodable_body_is_reported<M>(
    url: Seq<char>,
    headers: Seq<HeaderView>,
    code: u16,
    reason: Seq<char>,
)
    requires
        code == 200 || 400 <= code < 500,
    ensures
        pull_next(
            pull_next(PullStateView::Fetch { url, headers }, PullEventView::<M>::Status(code)),
            PullEventView::DecodeFailed(reason),
        ) == PullStateView::<M>::Done(Err(ErrorView::DecodeFailure(reason))),
{
}

/// An answer of 5xx gives a server error for the URL at once: the body is
/// never asked for.
pub proof fn lemma_server_error_reads_no_body<M>(
    url: Seq<char>,
    headers: Seq<HeaderView>,
    code: u16,
)
    requires
        500 <= code < 600,
    ensures
        pull_next(PullStateView::Fetch { url, headers }, PullEventView::<M>::Status(code))
            == PullStateView::<M>::Done(Err(ErrorView::ServerError { url })),
{
}

/// An answer that is neither 200, 4xx nor 5xx gives an unexpected status
/// with the code, the URL asked for and the body as text.
pub proof fn lemma_other_status_is_unexpected<M>(
    url: Seq<char>,
    headers: Seq<HeaderView>,
    code: u16,
    body: Seq<char>,
)
    requires
        code != 200,
        !(400 <= code < 600),
    ensures
        pull_next(
            pull_next(PullStateView::Fetch { url, headers }, PullEventView::<M>::Status(code)),
            PullEventView::Text(body),
        ) == PullStateView::<M>::Done(Err(ErrorView::UnexpectedStatus { code, url, body })),
{
}

/// A failure on the wire ends the request at once, wherever it stands, with
/// a transport failure that holds what the transport said.
pub proof fn lemma_transport_failure_ends_request<M>(state: PullStateView<M>, reason: Seq<char>)
    requires
        !(state is Done),
    ensures
        pull_next(state, PullEventView::TransportFailed(reason)) == PullStateView::<M>::Done(
            Err(ErrorView::TransportFailure(reason)),
        ),
{
}

} // verus!
