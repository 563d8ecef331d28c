//! The form in which a caller describes a connection.

use vstd::prelude::*;
use crate::conn::RedisParam;
use crate::ssh::copy_text;

verus! {

/// A connection as a caller describes it.
#[derive(Clone, Debug, PartialEq, Eq)]
pub struct ConnectionForm {
    pub id: Option<u32>,
    pub host: String,
    pub port: u16,
    pub password: Option<String>,
    pub username: Option<String>,
    pub is_cluster: bool,
    pub readonly: bool,
    pub ssh_host: Option<String>,
    pub ssh_port: Option<u16>,
    pub ssh_password: Option<String>,
    pub ssh_username: Option<String>,
    pub ssh_private_key: Option<String>,
    pub ssh_timeout: Option<u32>,
    pub ssh_passphrase: Option<String>,
}

impl ConnectionForm {
    /// Where a connection made straight from the form goes: to the form's
    /// host and port, with its password and without a user name.
    pub fn target(&self) -> (param: RedisParam)
        ensures
            param.tcp_host == self.host,
            param.tcp_port == self.port,
            param.username is None,
            param.password == self.password,
            param.is_cluster == self.is_cluster,
    {
        RedisParam {
            tcp_host: self.host.clone(),
            tcp_port: self.port,
            username: None,
            password: copy_text(&self.password),
            is_cluster: self.is_cluster,
        }
    }
}

} // verus!
