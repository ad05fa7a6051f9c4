use vstd::prelude::*;

use edge_nal_embassy::TcpError;
use embedded_io::ErrorKind;

verus! {

// The outside error types below are declared with their variants visible,
// so that verified code can build and match them.
/// `embedded_io::ErrorKind`: the coarse categories of I/O errors.
#[verifier::external_type_specification]
pub struct ExIoErrorKind(embedded_io::ErrorKind);

/// `embassy_net::tcp::Error`, carried by `TcpError::General`.
#[verifier::external_type_specification]
pub struct ExEmbassyTcpError(embassy_net::tcp::Error);

/// `embassy_net::tcp::ConnectError`, carried by `TcpError::Connect`.
#[verifier::external_type_specification]
pub struct ExConnectError(embassy_net::tcp::ConnectError);

/// `embassy_net::tcp::AcceptError`, carried by `TcpError::Accept`.
#[verifier::external_type_specification]
pub struct ExAcceptError(embassy_net::tcp::AcceptError);

/// `edge_nal_embassy::TcpError`: the TCP backend's error.
#[verifier::external_type_specification]
pub struct ExTcpError(edge_nal_embassy::TcpError);

/// `edge_http::HeadersMismatchError`, carried by an HTTP-layer error.
#[verifier::external_type_specification]
pub struct ExHeadersMismatchError(edge_http::HeadersMismatchError);

/// `edge_http::ws::UpgradeError`, carried by an HTTP-layer error.
#[verifier::external_type_specification]
pub struct ExUpgradeError(edge_http::ws::UpgradeError);

/// `edge_http::io::Error`: the HTTP layer's error over an I/O error `E`.
#[verifier::external_type_specification]
#[verifier::reject_recursive_types(E)]
pub struct ExHttpIoError<E>(edge_http::io::Error<E>);

/// The coarse category that the TCP backend reports for each of its errors.
pub open spec fn tcp_kind(e: TcpError) -> ErrorKind {
    match e {
        TcpError::General(_) => ErrorKind::Other,
        TcpError::Connect(_) => ErrorKind::Other,
        TcpError::Accept(_) => ErrorKind::Other,
        TcpError::NoBuffers => ErrorKind::OutOfMemory,
        TcpError::UnsupportedProto => ErrorKind::InvalidInput,
    }
}

/// Relies on edge_nal_embassy's `embedded_io::Error` impl for `TcpError`:
/// the category of each of its variants.
#[verifier::external_body]
fn tcp_error_kind(e: &TcpError) -> (r: ErrorKind)
    ensures
        r == tcp_kind(*e),
{
    embedded_io::Error::kind(e)
}

/// The single transport error kind of the HTTP layer.
///
/// `Tcp` wraps an error of the TCP backend. `Shut` is produced locally by a
/// socket whose half (or whole) was already closed or aborted; it carries the
/// category that such an operation reports.
#[derive(Debug)]
pub enum EdgeHttpError {
    Tcp(TcpError),
    Shut(ErrorKind),
}

impl EdgeHttpError {
    /// The category of this error.
    pub open spec fn spec_kind(self) -> ErrorKind {
        match self {
            EdgeHttpError::Tcp(t) => tcp_kind(t),
            EdgeHttpError::Shut(k) => k,
        }
    }

    /// Keeps the I/O case of an HTTP-layer error; every other case is not a
    /// transport error and gives `None`.
    pub fn from_tcp_edge(e: edge_http::io::Error<TcpError>) -> (r: Option<Self>)
        ensures
            r == (match e {
                edge_http::io::Error::Io(t) => Some(EdgeHttpError::Tcp(t)),
                _ => None,
            }),
    {
        match e {
            edge_http::io::Error::Io(t) => Some(EdgeHttpError::Tcp(t)),
            _ => None,
        }
    }

    pub fn from_tcp(e: TcpError) -> (r: Self)
        ensures
            r == EdgeHttpError::Tcp(e),
    {
        EdgeHttpError::Tcp(e)
    }

    /// The coarse category of the error (timed out, aborted, reset, ...).
    pub fn kind(&self) -> (r: ErrorKind)
        ensures
            r == self.spec_kind(),
    {
        match self {
            EdgeHttpError::Tcp(t) => tcp_error_kind(t),
            EdgeHttpError::Shut(k) => *k,
        }
    }
}

impl From<TcpError> for EdgeHttpError {
    fn from(e: TcpError) -> (r: Self) {
        EdgeHttpError::Tcp(e)
    }
}

impl vstd::std_specs::convert::FromSpecImpl<TcpError> for EdgeHttpError {
    open spec fn obeys_from_spec() -> bool {
        true
    }

    open spec fn from_spec(e: TcpError) -> Self {
        EdgeHttpError::Tcp(e)
    }
}

} // verus!
