//! The bearer-token handshake.
//!
//! The handshake is a state machine. A state says what the driver has to do
//! next on the wire, the driver reports the outcome as an event, and the
//! machine answers with the next state until it reaches `Done`. An event that
//! does not answer what the state asks for leaves the state as it is.

use crate::challenge::{
    bearer_challenges, bearer_views, ends_in_backslash, lemma_token68_only_is_no_challenge,
    parsed_header, BearerChallenge, BearerView,
};
use crate::client::{base_url, registry_url, Client};
use crate::errors::{ErrorView, OciError};
use crate::text::ascii_fold;
use crate::token::{RegistryToken, TokenView};
use vstd::prelude::*;

verus! {

/// The scope that grants read access to `repository`, the only access ever
/// asked for.
pub open spec fn pull_scope(repository: Seq<char>) -> Seq<char> {
    "repository:"@ + repository + ":pull"@
}

/// Where the handshake stands, which is also what the driver has to do next.
#[derive(Debug, PartialEq, Eq)]
pub enum AuthState {
    /// Send a GET without credentials to `url` and report the
    /// `WWW-Authenticate` header of the response with
    /// [`AuthEvent::Challenge`].
    Probe { url: String, repository: String },
    /// Send a GET to `realm` with the query parameters `service` and
    /// `scope`, and report the status with [`AuthEvent::Status`].
    Exchange { realm: String, service: String, scope: String },
    /// Decode the body of the token response and report the token with
    /// [`AuthEvent::Token`].
    ReadToken,
    /// Read the body of the token response as text and report it with
    /// [`AuthEvent::Text`].
    ReadRejection,
    /// The handshake is over.
    Done(Result<(), OciError>),
}

/// The mathematical value of an [`AuthState`].
pub enum AuthStateView {
    Probe { url: Seq<char>, repository: Seq<char> },
    Exchange { realm: Seq<char>, service: Seq<char>, scope: Seq<char> },
    ReadToken,
    ReadRejection,
    Done(Result<(), ErrorView>),
}

impl View for AuthState {
    type V = AuthStateView;

    open spec fn view(&self) -> AuthStateView {
        match *self {
            AuthState::Probe { url, repository } => AuthStateView::Probe {
                url: url@,
                repository: repository@,
            },
            AuthState::Exchange { realm, service, scope } => AuthStateView::Exchange {
                realm: realm@,
                service: service@,
                scope: scope@,
            },
            AuthState::ReadToken => AuthStateView::ReadToken,
            AuthState::ReadRejection => AuthStateView::ReadRejection,
            AuthState::Done(result) => AuthStateView::Done(
                match result {
                    Ok(_) => Ok(()),
                    Err(e) => Err(e@),
                },
            ),
        }
    }
}

/// What the driver reports to the handshake.
#[derive(Debug, PartialEq, Eq)]
pub enum AuthEvent {
    /// The probe was answered; holds the value of the `WWW-Authenticate`
    /// header, if the response has one.
    Challenge(Option<Vec<u8>>),
    /// The token endpoint answered with this status.
    Status(u16),
    /// The body of the token response, decoded.
    Token(RegistryToken),
    /// The body of the token response, as text.
    Text(String),
    /// The request or the reading of its response failed on the wire.
    TransportFailed(String),
    /// The body of the token response is no token.
    DecodeFailed(String),
}

/// The mathematical value of an [`AuthEvent`].
pub enum AuthEventView {
    Challenge(Option<Seq<u8>>),
    Status(u16),
    Token(TokenView),
    Text(Seq<char>),
    TransportFailed(Seq<char>),
    DecodeFailed(Seq<char>),
}

impl View for AuthEvent {
    type V = AuthEventView;

    open spec fn view(&self) -> AuthEventView {
        match *self {
            AuthEvent::Challenge(header) => AuthEventView::Challenge(
                match header {
                    Some(line) => Some(line@),
                    None => None,
                },
            ),
            AuthEvent::Status(code) => AuthEventView::Status(code),
            AuthEvent::Token(token) => AuthEventView::Token(token@),
            AuthEvent::Text(body) => AuthEventView::Text(body@),
            AuthEvent::TransportFailed(reason) => AuthEventView::TransportFailed(reason@),
            AuthEvent::DecodeFailed(reason) => AuthEventView::DecodeFailed(reason@),
        }
    }
}

/// How the handshake goes on once the bearer challenges of the probe are
/// known. Without a bearer challenge the registry asks for no token and the
/// handshake ends well. Otherwise the first challenge counts: with its realm
/// and its service the token is asked for, without either the handshake
/// fails.
pub open spec fn token_exchange(challenges: Seq<BearerView>, repository: Seq<char>) -> AuthStateView {
    if challenges.len() == 0 {
        AuthStateView::Done(Ok(()))
    } else {
        match (challenges[0].realm, challenges[0].service) {
            (Some(realm), Some(service)) => AuthStateView::Exchange {
                realm,
                service,
                scope: pull_scope(repository),
            },
            _ => AuthStateView::Done(Err(ErrorView::MalformedChallenge)),
        }
    }
}

/// How the handshake goes on after the probe, given the `WWW-Authenticate`
/// header of the response. A response without the header asks for no token.
pub open spec fn challenge_answer(header: Option<Seq<u8>>, repository: Seq<char>) -> AuthStateView {
    match header {
        None => AuthStateView::Done(Ok(())),
        Some(line) => match bearer_challenges(line) {
            None => AuthStateView::Done(Err(ErrorView::MalformedChallenge)),
            Some(challenges) => token_exchange(challenges, repository),
        },
    }
}

/// The state that follows `state` on `event`.
pub open spec fn auth_next(state: AuthStateView, event: AuthEventView) -> AuthStateView {
    match (state, event) {
        (AuthStateView::Done(_), _) => state,
        (_, AuthEventView::TransportFailed(reason)) => AuthStateView::Done(
            Err(ErrorView::TransportFailure(reason)),
        ),
        (AuthStateView::Probe { url, repository }, AuthEventView::Challenge(header)) => {
            challenge_answer(header, repository)
        },
        (AuthStateView::Exchange { .. }, AuthEventView::Status(code)) => if code == 200 {
            AuthStateView::ReadToken
        } else {
            AuthStateView::ReadRejection
        },
        (AuthStateView::ReadToken, AuthEventView::Token(_)) => AuthStateView::Done(Ok(())),
        (AuthStateView::ReadToken, AuthEventView::DecodeFailed(reason)) => AuthStateView::Done(
            Err(ErrorView::DecodeFailure(reason)),
        ),
        (AuthStateView::ReadRejection, AuthEventView::Text(body)) => AuthStateView::Done(
            Err(ErrorView::AuthRejected(body)),
        ),
        _ => state,
    }
}

/// The credential that the client holds after `event` arrived in `state`:
/// the token just decoded, where the handshake was waiting for one, and the
/// credential held before in every other case.
pub open spec fn auth_credential(
    credential: Option<TokenView>,
    state: AuthStateView,
    event: AuthEventView,
) -> Option<TokenView> {
    match (state, event) {
        (AuthStateView::ReadToken, AuthEventView::Token(token)) => Some(token),
        _ => credential,
    }
}

impl AuthState {
    /// The first state of a handshake with the registry at `host` for read
    /// access to `repository`.
    pub fn begin(host: &str, repository: &str) -> (r: Self)
        ensures
            r@ == (AuthStateView::Probe { url: base_url(host@), repository: repository@ }),
    {
        AuthState::Probe { url: registry_url(host), repository: String::from_str(repository) }
    }

    /// The state that follows the probe once its bearer challenges have
    /// been read.
    pub fn exchange_for(challenges: &Vec<BearerChallenge>, repository: &str) -> (r: Self)
        ensures
            r@ == token_exchange(bearer_views(challenges@), repository@),
    {
        if challenges.len() == 0 {
            return AuthState::Done(Ok(()));
        }
        let first = &challenges[0];
        assert(bearer_views(challenges@)[0] == first@);
        match (&first.realm, &first.service) {
            (Some(realm), Some(service)) => {
                let scope = String::from_str("repository:").concat(repository).concat(":pull");
                AuthState::Exchange { realm: realm.clone(), service: service.clone(), scope }
            },
            _ => AuthState::Done(Err(OciError::MalformedChallenge)),
        }
    }
}

impl Client {
    /// Takes the handshake one step further: the state that follows `state`
    /// on `event`. The credential changes in one step only, the one that
    /// reports the token of a granted request. A handshake starts at
    /// [`AuthState::begin`]; from there that step is reached only after the
    /// token endpoint answered 200.
    pub fn auth(&mut self, state: AuthState, event: AuthEvent) -> (next: AuthState)
        ensures
            next@ == auth_next(state@, event@),
            final(self)@ == auth_credential(old(self)@, state@, event@),
    {
        match state {
            AuthState::Done(result) => AuthState::Done(result),
            AuthState::Probe { url, repository } => match event {
                AuthEvent::TransportFailed(reason) => AuthState::Done(
                    Err(OciError::TransportFailure(reason)),
                ),
                AuthEvent::Challenge(header) => match header {
                    None => AuthState::Done(Ok(())),
                    Some(line) => match BearerChallenge::parse(line.as_slice()) {
                        Err(error) => AuthState::Done(Err(error)),
                        Ok(challenges) => AuthState::exchange_for(&challenges, repository.as_str()),
                    },
                },
                _ => AuthState::Probe { url, repository },
            },
            AuthState::Exchange { realm, service, scope } => match event {
                AuthEvent::TransportFailed(reason) => AuthState::Done(
                    Err(OciError::TransportFailure(reason)),
                ),
                AuthEvent::Status(code) => if code == 200 {
                    AuthState::ReadToken
                } else {
                    AuthState::ReadRejection
                },
                _ => AuthState::Exchange { realm, service, scope },
            },
            AuthState::ReadToken => match event {
                AuthEvent::TransportFailed(reason) => AuthState::Done(
                    Err(OciError::TransportFailure(reason)),
                ),
                AuthEvent::Token(token) => {
                    self.store(token);
                    AuthState::Done(Ok(()))
                },
                AuthEvent::DecodeFailed(reason) => AuthState::Done(
                    Err(OciError::DecodeFailure(reason)),
                ),
                _ => AuthState::ReadToken,
            },
            AuthState::ReadRejection => match event {
                AuthEvent::TransportFailed(reason) => AuthState::Done(
                    Err(OciError::TransportFailure(reason)),
                ),
                AuthEvent::Text(body) => AuthState::Done(Err(OciError::AuthRejected(body))),
                _ => AuthState::ReadRejection,
            },
        }
    }
}

/// A probe response that offers no bearer challenge: it has no
/// `WWW-Authenticate` header, or the header is well-formed and lists no
/// challenge of the `Bearer` scheme that has fields.
pub open spec fn offers_no_bearer(header: Option<Seq<u8>>) -> bool {
    match header {
        None => true,
        Some(line) => bearer_challenges(line) == Some(Seq::<BearerView>::empty()),
    }
}

/// The handshake after the events `events` arrived, one after the other,
/// from `state` on: the credential held then, and the state reached.
pub open spec fn auth_run(
    credential: Option<TokenView>,
    state: AuthStateView,
    events: Seq<AuthEventView>,
) -> (Option<TokenView>, AuthStateView)
    decreases events.len(),
{
    if events.len() == 0 {
        (credential, state)
    } else {
        let before = auth_run(credential, state, events.drop_last());
        (
            auth_credential(before.0, before.1, events.last()),
            auth_next(before.1, events.last()),
        )
    }
}

/// A header that parses and names no `Bearer` scheme offers no bearer
/// challenge.
pub proof fn lemma_other_schemes_offer_no_bearer(line: Seq<u8>)
    requires
        !ends_in_backslash(line),
        parsed_header(line) matches Some(schemes) && !schemes.contains_key(
            ascii_fold("Bearer"@),
        ),
    ensures
        offers_no_bearer(Some(line)),
{
}

/// A header that parses and lists nothing but token68 entries under the
/// `Bearer` scheme offers no bearer challenge: such entries count as absent.
pub proof fn lemma_token68_bearer_offers_no_bearer(line: Seq<u8>)
    requires
        !ends_in_backslash(line),
        parsed_header(line) matches Some(schemes) && schemes.contains_key(ascii_fold("Bearer"@))
            && forall|i: int|
            0 <= i < schemes[ascii_fold("Bearer"@)].len() ==> (#[trigger] schemes[ascii_fold(
                "Bearer"@,
            )][i]) is Token68,
    ensures
        offers_no_bearer(Some(line)),
{
    lemma_token68_only_is_no_challenge(parsed_header(line)->0[ascii_fold("Bearer"@)]);
}

/// Where the probe response has no `WWW-Authenticate` header, or one that
/// offers no bearer challenge, the handshake ends well at once and the
/// credential is what it was: a client that held none holds none.
pub proof fn lemma_no_challenge_no_token(
    credential: Option<TokenView>,
    url: Seq<char>,
    repository: Seq<char>,
    header: Option<Seq<u8>>,
)
    requires
        offers_no_bearer(header),
    ensures
        auth_next(AuthStateView::Probe { url, repository }, AuthEventView::Challenge(header))
            == AuthStateView::Done(Ok(())),
        auth_credential(
            credential,
            AuthStateView::Probe { url, repository },
            AuthEventView::Challenge(header),
        ) == credential,
{
}

/// Where the first bearer challenge of the probe response lacks its realm
/// or its service, the handshake fails, and the credential is what it was.
pub proof fn lemma_incomplete_challenge_fails(
    credential: Option<TokenView>,
    url: Seq<char>,
    repository: Seq<char>,
    line: Seq<u8>,
)
    requires
        bearer_challenges(line) matches Some(challenges) && challenges.len() > 0 && (
        challenges[0].realm is None || challenges[0].service is None),
    ensures
        auth_next(
            AuthStateView::Probe { url, repository },
            AuthEventView::Challenge(Some(line)),
        ) == AuthStateView::Done(Err(ErrorView::MalformedChallenge)),
        auth_credential(
            credential,
            AuthStateView::Probe { url, repository },
            AuthEventView::Challenge(Some(line)),
        ) == credential,
{
}

/// Where the first bearer challenge has its realm and its service, the
/// token is asked for at that realm, for that service, with the scope that
/// grants read access to the repository and nothing else.
pub proof fn lemma_complete_challenge_asks_for_pull(
    url: Seq<char>,
    repository: Seq<char>,
    line: Seq<u8>,
)
    requires
        bearer_challenges(line) matches Some(challenges) && challenges.len() > 0
            && challenges[0].realm is Some && challenges[0].service is Some,
    ensures
        auth_next(
            AuthStateView::Probe { url, repository },
            AuthEventView::Challenge(Some(line)),
        ) == (AuthStateView::Exchange {
            realm: bearer_challenges(line)->0[0].realm->0,
            service: bearer_challenges(line)->0[0].service->0,
            scope: pull_scope(repository),
        }),
{
}

/// A token endpoint that answers 200 grants: the token decoded from its
/// body becomes the credential, whatever the client held before, and the
/// handshake ends well.
pub proof fn lemma_grant_stores_token(
    credential: Option<TokenView>,
    realm: Seq<char>,
    service: Seq<char>,
    scope: Seq<char>,
    token: TokenView,
)
    ensures
        ({
            let events = seq![AuthEventView::Status(200), AuthEventView::Token(token)];
            auth_run(credential, AuthStateView::Exchange { realm, service, scope }, events) == (
                Some(token),
                AuthStateView::Done(Ok(())),
            )
        }),
{
    let events = seq![AuthEventView::Status(200), AuthEventView::Token(token)];
    let state = AuthStateView::Exchange { realm, service, scope };
    assert(events.drop_last() =~= seq![AuthEventView::Status(200)]);
    assert(events.drop_last().drop_last() =~= Seq::<AuthEventView>::empty());
    assert(auth_run(credential, state, events.drop_last().drop_last()) == (credential, state));
    assert(auth_run(credential, state, events.drop_last()) == (
        credential,
        AuthStateView::ReadToken,
    ));
}

/// A token endpoint that answers anything but 200 rejects: the handshake
/// fails with the text of the body, word for word, and the credential is
/// what it was.
pub proof fn lemma_rejection_carries_body(
    credential: Option<TokenView>,
    realm: Seq<char>,
    service: Seq<char>,
    scope: Seq<char>,
    code: u16,
    body: Seq<char>,
)
    requires
        code != 200,
    ensures
        ({
            let events = seq![AuthEventView::Status(code), AuthEventView::Text(body)];
            auth_run(credential, AuthStateView::Exchange { realm, service, scope }, events) == (
                credential,
                AuthStateView::Done(Err(ErrorView::AuthRejected(body))),
            )
        }),
{
    let events = seq![AuthEventView::Status(code), AuthEventView::Text(body)];
    let state = AuthStateView::Exchange { realm, service, scope };
    assert(events.drop_last() =~= seq![AuthEventView::Status(code)]);
    assert(events.drop_last().drop_last() =~= Seq::<AuthEventView>::empty());
    assert(auth_run(credential, state, events.drop_last().drop_last()) == (credential, state));
    assert(auth_run(credential, state, events.drop_last()) == (
        credential,
        AuthStateView::ReadRejection,
    ));
}

/// A failure on the wire ends the handshake at once, wherever it stands,
/// with a transport failure that holds what the transport said.
pub proof fn lemma_transport_failure_ends_handshake(state: AuthStateView, reason: Seq<char>)
    requires
        !(state is Done),
    ensures
        auth_next(state, AuthEventView::TransportFailed(reason)) == AuthStateView::Done(
            Err(ErrorView::TransportFailure(reason)),
        ),
{
}

/// A handshake that is over stays as it is, and changes no credential.
pub proof fn lemma_done_is_final(
    credential: Option<TokenView>,
    state: AuthStateView,
    event: AuthEventView,
)
    requires
        state is Done,
    ensures
        auth_next(state, event) == state,
        auth_credential(credential, state, event) == credential,
{
}

/// The credential comes from a grant and from nowhere else. Whatever the
/// driver reports from the start of a handshake on, the client either holds
/// the credential it held before, or the token endpoint answered 200 and
/// the client holds the token that was decoded after that answer.
pub proof fn lemma_credential_comes_from_a_grant(
    credential: Option<TokenView>,
    state: AuthStateView,
    events: Seq<AuthEventView>,
)
    requires
        !(state is ReadToken),
    ensures
        ({
            let after = auth_run(credential, state, events);
            ||| after.0 == credential
            ||| exists|i: int, j: int|
                #![trigger events[i], events[j]]
                0 <= i < j < events.len() && events[i] == AuthEventView::Status(200)
                    && events[j] is Token && after.0 == Some(events[j]->Token_0)
        }),
        auth_run(credential, state, events).1 is ReadToken ==> auth_run(
            credential,
            state,
            events,
        ).0 == credential && exists|i: int|
            0 <= i < events.len() && #[trigger] events[i] == AuthEventView::Status(200),
        auth_run(credential, state, events).0 != credential ==> auth_run(
            credential,
            state,
            events,
        ).1 is Done,
    decreases events.len(),
{
    if events.len() > 0 {
        let earlier = events.drop_last();
        lemma_credential_comes_from_a_grant(credential, state, earlier);
        let before = auth_run(credential, state, earlier);
        let after = auth_run(credential, state, events);
        let last = events.len() - 1;
        assert(forall|k: int| 0 <= k < earlier.len() ==> earlier[k] == events[k]);
        if before.1 is ReadToken {
            let i = choose|i: int|
                0 <= i < earlier.len() && #[trigger] earlier[i] == AuthEventView::Status(200);
            assert(events[i] == AuthEventView::Status(200));
            if events.last() is Token {
                assert(events[last] is Token && after.0 == Some(events[last]->Token_0));
            }
        } else if before.0 != credential {
            let (i, j) = choose|i: int, j: int|
                #![trigger earlier[i], earlier[j]]
                0 <= i < j < earlier.len() && earlier[i] == AuthEventView::Status(200)
                    && earlier[j] is Token && before.0 == Some(earlier[j]->Token_0);
            assert(events[i] == AuthEventView::Status(200));
            assert(events[j] is Token && after.0 == Some(events[j]->Token_0));
        } else if after.1 is ReadToken {
            assert(events[last] == AuthEventView::Status(200));
        }
    }
}

} // verus!
