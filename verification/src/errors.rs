//! The ways in which a call on a registry fails.

use vstd::prelude::*;

verus! {

/// A failed call. Every kind is told apart from the others by its variant,
/// and carries what the registry or the transport said.
#[derive(Debug, PartialEq, Eq)]
pub enum OciError {
    /// The registry could not be reached or the connection broke.
    TransportFailure(String),
    /// The registry's base endpoint does not advertise a distribution API
    /// version.
    MissingVersionHeader,
    /// A `WWW-Authenticate` header is present but is no well-formed list of
    /// challenges, or its bearer challenge lacks the realm or the service.
    MalformedChallenge,
    /// The token endpoint answered with anything but 200; holds the body of
    /// that answer as it came.
    AuthRejected(String),
    /// A 4xx answer to a manifest request; holds the first entry of the
    /// error envelope and the URL asked for.
    ClientError { message: String, url: String },
    /// A 5xx answer to a manifest request; holds the URL asked for.
    ServerError { url: String },
    /// An answer to a manifest request that is neither 200, 4xx nor 5xx.
    UnexpectedStatus { code: u16, url: String, body: String },
    /// A body that does not decode to what it had to be: a token, a
    /// manifest, or an error envelope with at least one entry.
    DecodeFailure(String),
}

/// The mathematical value of an [`OciError`].
pub enum ErrorView {
    TransportFailure(Seq<char>),
    MissingVersionHeader,
    MalformedChallenge,
    AuthRejected(Seq<char>),
    ClientError { message: Seq<char>, url: Seq<char> },
    ServerError { url: Seq<char> },
    UnexpectedStatus { code: u16, url: Seq<char>, body: Seq<char> },
    DecodeFailure(Seq<char>),
}

impl View for OciError {
    type V = ErrorView;

    open spec fn view(&self) -> ErrorView {
        match *self {
            OciError::TransportFailure(m) => ErrorView::TransportFailure(m@),
            OciError::MissingVersionHeader => ErrorView::MissingVersionHeader,
            OciError::MalformedChallenge => ErrorView::MalformedChallenge,
            OciError::AuthRejected(m) => ErrorView::AuthRejected(m@),
            OciError::ClientError { message, url } => ErrorView::ClientError {
                message: message@,
                url: url@,
            },
            OciError::ServerError { url } => ErrorView::ServerError { url: url@ },
            OciError::UnexpectedStatus { code, url, body } => ErrorView::UnexpectedStatus {
                code,
                url: url@,
                body: body@,
            },
            OciError::DecodeFailure(m) => ErrorView::DecodeFailure(m@),
        }
    }
}

} // verus!
