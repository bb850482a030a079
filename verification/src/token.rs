//! The access credential that a token endpoint grants.

use vstd::prelude::*;

verus! {

/// A point in time: whole seconds since the Unix epoch in UTC, and the
/// nanoseconds into that second.
#[derive(Clone, Copy, Debug, PartialEq, Eq, Structural)]
pub struct Timestamp {
    pub seconds: i64,
    pub nanoseconds: u32,
}

/// A token granted during the OAuth2-like workflow of OCI registries.
///
/// The expiry and the time of issue are kept as the registry gave them and
/// are never consulted: a token is used until another replaces it.
#[derive(Debug, PartialEq, Eq)]
pub struct RegistryToken {
    access_token: String,
    expires_in: Option<u32>,
    issued_at: Option<Timestamp>,
}

/// The mathematical value of a [`RegistryToken`].
pub struct TokenView {
    pub access_token: Seq<char>,
    pub expires_in: Option<u32>,
    pub issued_at: Option<Timestamp>,
}

impl View for RegistryToken {
    type V = TokenView;

    closed spec fn view(&self) -> TokenView {
        TokenView {
            access_token: self.access_token@,
            expires_in: self.expires_in,
            issued_at: self.issued_at,
        }
    }
}

/// The value of the `Authorization` header that presents `access_token`.
pub open spec fn bearer_value(access_token: Seq<char>) -> Seq<char> {
    "Bearer "@ + access_token
}

impl RegistryToken {
    /// The token with the given fields.
    pub fn new(access_token: String, expires_in: Option<u32>, issued_at: Option<Timestamp>) -> (r:
        Self)
        ensures
            r@ == (TokenView { access_token: access_token@, expires_in, issued_at }),
    {
        RegistryToken { access_token, expires_in, issued_at }
    }

    /// The value to send in the `Authorization` header.
    pub fn bearer_token(&self) -> (r: String)
        ensures
            r@ == bearer_value(self@.access_token),
    {
        String::from_str("Bearer ").concat(self.access_token.as_str())
    }

    /// The opaque token itself.
    pub fn access_token(&self) -> (r: &str)
        ensures
            r@ == self@.access_token,
    {
        self.access_token.as_str()
    }

    /// The lifetime in seconds that the registry announced, if any.
    pub fn expires_in(&self) -> (r: Option<u32>)
        ensures
            r == self@.expires_in,
    {
        self.expires_in
    }

    /// The time of issue that the registry announced, if any.
    pub fn issued_at(&self) -> (r: Option<Timestamp>)
        ensures
            r == self@.issued_at,
    {
        self.issued_at
    }
}

impl Default for RegistryToken {
    /// The empty token without expiry or time of issue.
    fn default() -> (r: Self)
        ensures
            r@ == (TokenView { access_token: Seq::empty(), expires_in: None, issued_at: None }),
    {
        RegistryToken { access_token: String::new(), expires_in: None, issued_at: None }
    }
}

} // verus!
