//! The client, the credential it holds, and the version probe.

use crate::errors::{ErrorView, OciError};
use crate::text::{all_visible_ascii, ascii_text, visible_text};
use crate::token::{RegistryToken, TokenView};
use vstd::prelude::*;

verus! {

/// The response header in which a registry advertises its API version.
pub const OCI_VERSION_KEY: &'static str = "Docker-Distribution-Api-Version";

/// The base endpoint of the registry at `host`.
pub open spec fn base_url(host: Seq<char>) -> Seq<char> {
    "https://"@ + host + "/v2/"@
}

/// The version that a probe response advertises in its version header,
/// given the header's value if the response has one. A value that is not
/// visible ASCII advertises nothing.
pub open spec fn advertised_version(header: Option<Seq<u8>>) -> Result<Seq<char>, ErrorView> {
    match header {
        Some(value) => if all_visible_ascii(value) {
            Ok(ascii_text(value))
        } else {
            Err(ErrorView::MissingVersionHeader)
        },
        None => Err(ErrorView::MissingVersionHeader),
    }
}

/// The URL of the base endpoint of the registry at `host`, to which the
/// version probe and the first request of the handshake go.
pub fn registry_url(host: &str) -> (r: String)
    ensures
        r@ == base_url(host@),
{
    String::from_str("https://").concat(host).concat("/v2/")
}

/// The OCI client connects to an OCI registry and fetches OCI images.
///
/// Some registries allow anonymous access, most ask for an OAuth2-like
/// handshake first. A new client holds no credential; a handshake that a
/// token endpoint grants stores one, and every manifest request made after
/// that presents it.
#[derive(Debug, PartialEq, Eq)]
pub struct Client {
    token: Option<RegistryToken>,
}

impl View for Client {
    type V = Option<TokenView>;

    closed spec fn view(&self) -> Option<TokenView> {
        match self.token {
            Some(token) => Some(token@),
            None => None,
        }
    }
}

impl Default for Client {
    /// The client without a credential.
    fn default() -> (r: Self)
        ensures
            r@ is None,
    {
        Client { token: None }
    }
}

impl Client {
    /// The credential that the client holds, if any.
    pub fn token(&self) -> (r: Option<&RegistryToken>)
        ensures
            match self@ {
                Some(token) => r matches Some(t) && t@ == token,
                None => r is None,
            },
    {
        self.token.as_ref()
    }

    /// Replaces the credential, whatever it was, by `token`.
    pub(crate) fn store(&mut self, token: RegistryToken)
        ensures
            final(self)@ == Some(token@),
    {
        self.token = Some(token);
    }

    /// The version of the distribution API that a registry advertises,
    /// read from the answer to a GET on its base endpoint: `header` is the
    /// value of the header named [`OCI_VERSION_KEY`], if the response has
    /// one. The status of the response plays no part.
    pub fn version(&self, header: Option<&[u8]>) -> (r: Result<String, OciError>)
        ensures
            match advertised_version(
                match header {
                    Some(value) => Some(value@),
                    None => None,
                },
            ) {
                Ok(version) => r matches Ok(v) && v@ == version,
                Err(error) => r matches Err(e) && e@ == error,
            },
    {
        match header {
            None => Err(OciError::MissingVersionHeader),
            Some(value) => match visible_text(value) {
                Some(version) => Ok(version),
                None => Err(OciError::MissingVersionHeader),
            },
        }
    }
}

/// A response without the version header advertises no version, whatever
/// else it holds.
pub proof fn lemma_version_needs_header()
    ensures
        advertised_version(None) == Err::<Seq<char>, ErrorView>(ErrorView::MissingVersionHeader),
{
}

/// A version header of visible ASCII advertises exactly its text: as many
/// characters as the value has bytes, each the character of its byte.
pub proof fn lemma_version_is_header_text(value: Seq<u8>)
    requires
        all_visible_ascii(value),
    ensures
        advertised_version(Some(value)) == Ok::<Seq<char>, ErrorView>(ascii_text(value)),
        ascii_text(value).len() == value.len(),
        forall|i: int| 0 <= i < value.len() ==> #[trigger] ascii_text(value)[i] == value[i] as char,
{
}

} // verus!
