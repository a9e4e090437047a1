//! The failures that end a router or a session request.
use vstd::prelude::*;

verus! {

/// Why a router stopped, or why a request failed.
#[derive(Debug)]
pub enum JupyterApiError {
    /// Malformed JSON, or content that does not read under its message type.
    SerdeJsonError(serde_json::Error),
    /// A failure surfaced by the kernel-connection library.
    RuntimelibError(runtimelib::RuntimeError),
    /// A pipe read or write failure.
    IOError(std::io::Error),
    /// An outbound envelope without a `content` key.
    ReceiveNoContentError,
    /// An outbound envelope without a `channel` tag.
    SendNoChannelError,
    /// An outbound envelope addressed to IOPub or Heartbeat.
    SendSubChannelError,
}

/// The class of a [`JupyterApiError`], without the underlying failure value.
#[derive(Clone, Copy, Debug, PartialEq, Eq, Structural)]
pub enum ErrorKind {
    Serialization,
    ProtocolLibrary,
    Io,
    MissingContent,
    MissingChannel,
    InvalidTargetChannel,
}

impl JupyterApiError {
    pub open spec fn kind_spec(&self) -> ErrorKind {
        match self {
            JupyterApiError::SerdeJsonError(_) => ErrorKind::Serialization,
            JupyterApiError::RuntimelibError(_) => ErrorKind::ProtocolLibrary,
            JupyterApiError::IOError(_) => ErrorKind::Io,
            JupyterApiError::ReceiveNoContentError => ErrorKind::MissingContent,
            JupyterApiError::SendNoChannelError => ErrorKind::MissingChannel,
            JupyterApiError::SendSubChannelError => ErrorKind::InvalidTargetChannel,
        }
    }

    /// The class of this error.
    pub fn kind(&self) -> (r: ErrorKind)
        ensures
            r == self.kind_spec(),
    {
        match self {
            JupyterApiError::SerdeJsonError(_) => ErrorKind::Serialization,
            JupyterApiError::RuntimelibError(_) => ErrorKind::ProtocolLibrary,
            JupyterApiError::IOError(_) => ErrorKind::Io,
            JupyterApiError::ReceiveNoContentError => ErrorKind::MissingContent,
            JupyterApiError::SendNoChannelError => ErrorKind::MissingChannel,
            JupyterApiError::SendSubChannelError => ErrorKind::InvalidTargetChannel,
        }
    }
}

/// A result with its error replaced by the error's class.
pub open spec fn by_kind<T>(r: Result<T, JupyterApiError>) -> Result<T, ErrorKind> {
    match r {
        Ok(v) => Ok(v),
        Err(e) => Err(e.kind_spec()),
    }
}

} // verus!
