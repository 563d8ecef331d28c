//! How to reach a store through an SSH tunnel.

use vstd::prelude::*;

verus! {

/// `tokio::sync::oneshot::Receiver`: the receiving half of a channel that
/// carries one value.
#[verifier::external_type_specification]
#[verifier::external_body]
#[verifier::reject_recursive_types(T)]
pub struct ExOneshotReceiver<T>(tokio::sync::oneshot::Receiver<T>);

/// `tokio::sync::oneshot::error::RecvError`: what awaiting a receiver gives
/// once its sender is gone. The receiver is a future with this error in its
/// output, so the type has to be known wherever the receiver is.
#[verifier::external_type_specification]
#[verifier::external_body]
pub struct ExRecvError(tokio::sync::oneshot::error::RecvError);

/// `ssh_jumper::model::SshForwarderEnd`: why a tunnel's forwarder ended.
#[verifier::external_type_specification]
#[verifier::external_body]
pub struct ExSshForwarderEnd(ssh_jumper::model::SshForwarderEnd);

/// The parameters of a tunnel.
#[derive(Clone, Debug, PartialEq, Eq)]
pub struct SshParams {
    pub host: String,
    pub port: u16,
    pub username: Option<String>,
    pub password: Option<String>,
    pub private_key: Option<String>,
    pub passphrase: Option<String>,
    pub timeout: Option<u32>,
}

/// A copy of an optional text.
pub fn copy_text(text: &Option<String>) -> (copy: Option<String>)
    ensures
        copy == *text,
{
    match text {
        Some(t) => Some(t.clone()),
        None => None,
    }
}

impl SshParams {
    /// A copy of the parameters.
    pub fn duplicate(&self) -> (copy: SshParams)
        ensures
            copy == *self,
    {
        SshParams {
            host: self.host.clone(),
            port: self.port,
            username: copy_text(&self.username),
            password: copy_text(&self.password),
            private_key: copy_text(&self.private_key),
            passphrase: copy_text(&self.passphrase),
            timeout: self.timeout,
        }
    }
}

/// Closes the handle of a tunnel, which ends the tunnel's forwarder.
///
/// Trusted: wraps `tokio::sync::oneshot::Receiver::close`. Nothing is
/// returned and nothing is claimed.
#[verifier::external_body]
pub(crate) fn close_handle(handle: tokio::sync::oneshot::Receiver<ssh_jumper::model::SshForwarderEnd>) {
    let mut handle = handle;
    handle.close();
}

} // verus!
