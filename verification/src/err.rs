//! The errors of the engine.

use vstd::prelude::*;

verus! {

/// What can go wrong in the engine.
#[derive(Clone, Debug, PartialEq, Eq)]
pub enum CusError {
    /// The transport or the tunnel could not be established; holds the cause.
    ConnectFailed(String),
    /// Establishing the transport took longer than the bound allows.
    Timeout,
    /// No connection is registered under the given id.
    NotFound,
    /// A topology operation was asked of a connection that is not a cluster.
    NotCluster,
    /// The store answered with an error or with a reply of unexpected shape.
    ProtocolError(String),
    /// The caller's payload was malformed.
    SerializationError(String),
}

impl CusError {
    /// The text that describes an error.
    pub open spec fn text(self) -> Seq<char> {
        match self {
            CusError::ConnectFailed(cause) => cause@,
            CusError::Timeout => "Connection Timeout"@,
            CusError::NotFound => "Connection Not Found"@,
            CusError::NotCluster => "Not a Cluster Server"@,
            CusError::ProtocolError(cause) => cause@,
            CusError::SerializationError(cause) => cause@,
        }
    }

    /// Describes the error in words.
    pub fn describe(&self) -> (s: String)
        ensures
            s@ == self.text(),
    {
        match self {
            CusError::ConnectFailed(cause) => cause.clone(),
            CusError::Timeout => "Connection Timeout".to_string(),
            CusError::NotFound => "Connection Not Found".to_string(),
            CusError::NotCluster => "Not a Cluster Server".to_string(),
            CusError::ProtocolError(cause) => cause.clone(),
            CusError::SerializationError(cause) => cause.clone(),
        }
    }
}

} // verus!
