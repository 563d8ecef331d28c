//! Connections: their parameters, the descriptor that owns a tunnel, the
//! wrapper that records executions, and the registry of live connections.

use std::collections::HashMap;
use vstd::prelude::*;
use vstd::std_specs::hash::*;
use vstd::std_specs::iter::IteratorSpec;
use crate::command::{build1, build2, build3, cmd_args, command_text, render, text_args};
use crate::err::CusError;
use crate::fields::Fields;
use crate::info::{config_of, info_of, read_config, read_info, read_version, section_views, version_of};
use crate::model::{duration, elapsed, Command, Conn, Exchange, Reported};
use crate::reply::{text_of, Reply};
use crate::ssh::{close_handle, copy_text, SshParams};
use crate::text::{decimal, decimal_text, join, joined, push_char};
use crate::topology::{copy_nodes, lists, node_lines, read_nodes, same_nodes, Node};
use crate::utils::{is_token, random_str};

verus! {

/// How to reach one node.
#[derive(Clone, Debug, PartialEq, Eq)]
pub struct RedisParam {
    pub tcp_host: String,
    pub tcp_port: u16,
    pub username: Option<String>,
    pub password: Option<String>,
    pub is_cluster: bool,
}

impl RedisParam {
    /// A copy of the parameters.
    pub fn duplicate(&self) -> (copy: RedisParam)
        ensures
            copy == *self,
    {
        RedisParam {
            tcp_host: self.tcp_host.clone(),
            tcp_port: self.tcp_port,
            username: copy_text(&self.username),
            password: copy_text(&self.password),
            is_cluster: self.is_cluster,
        }
    }
}

/// How to reach a store: the node, the tunnel to go through if there is one,
/// and whether the store is a cluster. Any combination is valid.
#[derive(Clone, Debug, PartialEq, Eq)]
pub struct RedisConnectionParams {
    pub redis_params: RedisParam,
    pub ssh_params: Option<SshParams>,
    pub model_name: String,
    pub is_cluster: bool,
}

impl RedisConnectionParams {
    /// A copy of the parameters.
    pub fn duplicate(&self) -> (copy: RedisConnectionParams)
        ensures
            copy == *self,
    {
        RedisConnectionParams {
            redis_params: self.redis_params.duplicate(),
            ssh_params: match &self.ssh_params {
                Some(ssh) => Some(ssh.duplicate()),
                None => None,
            },
            model_name: self.model_name.clone(),
            is_cluster: self.is_cluster,
        }
    }
}

/// Something that says how to reach a store.
pub trait Connectable {
    fn get_params(&self) -> RedisConnectionParams;
}

/// A host and a port as one text, with a colon between them.
pub open spec fn endpoint(host: Seq<char>, port: u16) -> Seq<char> {
    host + seq![':'] + decimal_text(port as int)
}

/// Writes a host and a port as one text.
pub fn endpoint_text(host: &str, port: u16) -> (s: String)
    ensures
        s@ == endpoint(host@, port),
{
    let mut s = host.to_string();
    push_char(&mut s, ':');
    let digits = decimal(port as i64);
    s.append(digits.as_str());
    s
}

/// The kind of transport to open.
#[derive(Clone, Copy, Debug, PartialEq, Eq, Structural)]
pub enum Transport {
    /// A transport to a single node.
    Single,
    /// A transport that follows the topology of a cluster.
    Cluster,
}

/// The bound on the time that establishing a transport may take, in seconds.
pub const CONNECT_TIMEOUT_SECS: u64 = 2;

/// What to do to establish a transport.
#[derive(Clone, Debug, PartialEq, Eq)]
pub struct Dial {
    /// Where to connect, with which credentials.
    pub target: RedisParam,
    /// Which kind of transport to open.
    pub kind: Transport,
    /// After how many seconds to give up.
    pub timeout_secs: u64,
}

/// What came of the attempt to establish a transport.
#[derive(Debug)]
pub enum Attempt<T> {
    /// The transport stands.
    Connected(T),
    /// The attempt failed; holds the cause.
    Failed(String),
    /// The attempt did not complete within the bound.
    TimedOut,
}

/// The descriptor of one connection: its parameters and at most one tunnel
/// lease, that is the local address that the tunnel forwards from and the
/// handle that ends the tunnel.
pub struct RedisConnection {
    pub params: RedisConnectionParams,
    pub cancel_tunnel_rx: Option<tokio::sync::oneshot::Receiver<ssh_jumper::model::SshForwarderEnd>>,
    pub tunnel_addr: Option<(String, u16)>,
}

impl Connectable for RedisConnection {
    fn get_params(&self) -> (params: RedisConnectionParams)
        ensures
            params == self.params,
    {
        self.params.duplicate()
    }
}

impl RedisConnection {
    /// The descriptor of a connection that has no tunnel yet.
    pub fn build(params: RedisConnectionParams) -> (connection: RedisConnection)
        ensures
            connection.params == params,
            connection.cancel_tunnel_rx is None,
            connection.tunnel_addr is None,
    {
        RedisConnection { params: params, cancel_tunnel_rx: None, tunnel_addr: None }
    }

    /// The parameters of the tunnel to open, where the connection goes
    /// through one.
    pub fn get_ssh_config(&self) -> (ssh: Option<SshParams>)
        ensures
            ssh == self.params.ssh_params,
    {
        match &self.params.ssh_params {
            Some(ssh) => Some(ssh.duplicate()),
            None => None,
        }
    }

    /// Takes the lease of a tunnel that was opened: the local address it
    /// forwards from and the handle that ends it.
    pub fn store_addr(
        &mut self,
        ip: String,
        port: u16,
        rx: tokio::sync::oneshot::Receiver<ssh_jumper::model::SshForwarderEnd>,
    )
        ensures
            final(self).params == old(self).params,
            final(self).cancel_tunnel_rx == Some(rx),
            final(self).tunnel_addr == Some((ip, port)),
    {
        self.cancel_tunnel_rx = Some(rx);
        self.tunnel_addr = Some((ip, port));
    }

    /// Whether the tunnel's handle is still held.
    pub open spec fn holds_lease(self) -> bool {
        self.cancel_tunnel_rx is Some
    }

    /// Ends the tunnel. Tells whether there was a handle to close: after the
    /// first call there is none left, so that closing again does nothing.
    pub fn close_tunnel(&mut self) -> (closed: bool)
        ensures
            closed == old(self).holds_lease(),
            !final(self).holds_lease(),
            final(self).params == old(self).params,
            final(self).tunnel_addr == old(self).tunnel_addr,
            !old(self).holds_lease() ==> *final(self) == *old(self),
    {
        match self.cancel_tunnel_rx.take() {
            Some(rx) => {
                close_handle(rx);
                true
            },
            None => false,
        }
    }

    /// The local address of the tunnel as text, where there is a tunnel.
    pub open spec fn proxy(self) -> Option<Seq<char>> {
        match self.tunnel_addr {
            Some((ip, port)) => Some(endpoint(ip@, port)),
            None => None,
        }
    }

    /// The local address of the tunnel, where there is a tunnel.
    pub fn get_proxy(&self) -> (proxy: Option<String>)
        ensures
            match proxy {
                Some(text) => self.proxy() == Some(text@),
                None => self.proxy() is None,
            },
    {
        match &self.tunnel_addr {
            Some((ip, port)) => Some(endpoint_text(ip.as_str(), *port)),
            None => None,
        }
    }

    /// Whether the store is a cluster.
    pub fn get_is_cluster(&self) -> (cluster: bool)
        ensures
            cluster == self.params.is_cluster,
    {
        self.params.is_cluster
    }

    /// How the connection names its host: the scheme, then the address as
    /// the parameters give it, whether or not a tunnel is in between.
    pub open spec fn host(self) -> Seq<char> {
        "redis://"@ + endpoint(self.params.redis_params.tcp_host@, self.params.redis_params.tcp_port)
    }

    /// The name of the connection's host.
    pub fn get_host(&self) -> (host: String)
        ensures
            host@ == self.host(),
    {
        let mut host = "redis://".to_string();
        let address = endpoint_text(
            self.params.redis_params.tcp_host.as_str(),
            self.params.redis_params.tcp_port,
        );
        host.append(address.as_str());
        host
    }

    /// The parameters to connect with: those of the connection, with the
    /// tunnel's local address in place of host and port where there is a
    /// tunnel. Credentials and cluster flag are those of the connection.
    pub open spec fn effective(self) -> RedisParam {
        match self.tunnel_addr {
            Some((ip, port)) => RedisParam {
                tcp_host: ip,
                tcp_port: port,
                username: self.params.redis_params.username,
                password: self.params.redis_params.password,
                is_cluster: self.params.redis_params.is_cluster,
            },
            None => self.params.redis_params,
        }
    }

    /// The parameters to connect with.
    pub fn get_redis_params(&self) -> (params: RedisParam)
        ensures
            params == self.effective(),
    {
        let mut params = self.params.redis_params.duplicate();
        match &self.tunnel_addr {
            Some((ip, port)) => {
                params.tcp_host = ip.clone();
                params.tcp_port = *port;
            },
            None => {},
        }
        params
    }

    /// What to do to open a transport to a single node.
    pub fn get_normal(&self) -> (dial: Dial)
        ensures
            dial.target == self.effective(),
            dial.kind == Transport::Single,
            dial.timeout_secs == CONNECT_TIMEOUT_SECS,
    {
        Dial {
            target: self.get_redis_params(),
            kind: Transport::Single,
            timeout_secs: CONNECT_TIMEOUT_SECS,
        }
    }

    /// What to do to open a transport to a cluster.
    pub fn get_cluster(&self) -> (dial: Dial)
        ensures
            dial.target == self.effective(),
            dial.kind == Transport::Cluster,
            dial.timeout_secs == CONNECT_TIMEOUT_SECS,
    {
        Dial {
            target: self.get_redis_params(),
            kind: Transport::Cluster,
            timeout_secs: CONNECT_TIMEOUT_SECS,
        }
    }

    /// What to do to open the transport of this connection: a cluster
    /// transport where the store is a cluster, a single-node transport
    /// otherwise.
    pub fn dial(&self) -> (dial: Dial)
        ensures
            dial.target == self.effective(),
            dial.kind == if self.params.is_cluster {
                Transport::Cluster
            } else {
                Transport::Single
            },
            dial.timeout_secs == CONNECT_TIMEOUT_SECS,
    {
        if self.params.is_cluster {
            self.get_cluster()
        } else {
            self.get_normal()
        }
    }

    /// What the attempt to open a transport comes to: the transport, or the
    /// error that ends the creation of the connection.
    pub open spec fn settled<T>(attempt: Attempt<T>) -> Result<T, CusError> {
        match attempt {
            Attempt::Connected(transport) => Ok(transport),
            Attempt::Failed(cause) => Err(CusError::ConnectFailed(cause)),
            Attempt::TimedOut => Err(CusError::Timeout),
        }
    }

    /// Judges the attempt to open a transport.
    pub fn settle<T>(attempt: Attempt<T>) -> (r: Result<T, CusError>)
        ensures
            r == Self::settled(attempt),
    {
        match attempt {
            Attempt::Connected(transport) => Ok(transport),
            Attempt::Failed(cause) => Err(CusError::ConnectFailed(cause)),
            Attempt::TimedOut => Err(CusError::Timeout),
        }
    }
}

/// `tokio::sync::mpsc::Sender`: the sending half of a channel.
#[verifier::external_type_specification]
#[verifier::external_body]
#[verifier::reject_recursive_types(T)]
pub struct ExMpscSender<T>(tokio::sync::mpsc::Sender<T>);

/// The length of the identifiers that the engine generates.
pub const ID_LEN: usize = 32;

/// The database that a new connection has selected.
pub const DEFAULT_DB: u8 = 0;

/// The response that a record holds: the display texts of the reply joined
/// by single spaces, or the description of the failure.
pub open spec fn response_text(outcome: Result<Reply, String>) -> Seq<char> {
    match outcome {
        Ok(reply) => joined(reply.texts(), seq![' ']),
        Err(cause) => cause@,
    }
}

/// Whether a record is the audit trail of the exchange of a command with the
/// given arguments, on a connection to the given host. The record's
/// identifier is not spoken of.
pub open spec fn reports(
    record: Command,
    host: Seq<char>,
    args: Seq<Option<Seq<u8>>>,
    exchange: Exchange,
) -> bool {
    &&& record.cmd@ == command_text(args)
    &&& record.response@ == response_text(exchange.outcome)
    &&& record.created_at@ == exchange.created_at@
    &&& record.host@ == host
    &&& record.duration == elapsed(exchange.started as int, exchange.ended as int)
}

/// What an exchange comes to for the caller: the reply, or a protocol error
/// that holds the description of the failure.
pub open spec fn answer(outcome: Result<Reply, String>) -> Result<Reply, CusError> {
    match outcome {
        Ok(reply) => Ok(reply),
        Err(cause) => Err(CusError::ProtocolError(cause)),
    }
}

/// One live connection: its identifier, the nodes of the cluster once they
/// were asked for, the database that is selected, when it was made, and the
/// descriptor with its tunnel.
pub struct ConnectionWrapper {
    pub id: String,
    pub nodes: Option<Vec<Node>>,
    pub db: u8,
    pub created_at: String,
    pub model: RedisConnection,
}

impl ConnectionWrapper {
    /// Makes the wrapper of a connection under the given identifier, once
    /// the attempt to open its transport is known. Where the attempt failed
    /// the tunnel is closed and there is no wrapper.
    pub fn build_as<T>(
        id: String,
        model: RedisConnection,
        attempt: Attempt<T>,
        created_at: String,
    ) -> (r: Result<(ConnectionWrapper, T), CusError>)
        ensures
            match r {
                Ok((wrapper, transport)) => {
                    &&& attempt == Attempt::Connected(transport)
                    &&& wrapper.id == id
                    &&& wrapper.nodes is None
                    &&& wrapper.db == DEFAULT_DB
                    &&& wrapper.created_at == created_at
                    &&& wrapper.model == model
                },
                Err(e) => RedisConnection::settled(attempt) == Err::<T, CusError>(e),
            },
    {
        let mut model = model;
        match RedisConnection::settle(attempt) {
            Ok(transport) => Ok(
                (
                    ConnectionWrapper {
                        id: id,
                        nodes: None,
                        db: DEFAULT_DB,
                        created_at: created_at,
                        model: model,
                    },
                    transport,
                ),
            ),
            Err(e) => {
                model.close_tunnel();
                Err(e)
            },
        }
    }

    /// Makes the wrapper of a connection under a fresh random identifier,
    /// once the attempt to open its transport is known.
    pub fn build<T>(model: RedisConnection, attempt: Attempt<T>, created_at: String) -> (r: Result<
        (ConnectionWrapper, T),
        CusError,
    >)
        ensures
            match r {
                Ok((wrapper, transport)) => {
                    &&& attempt == Attempt::Connected(transport)
                    &&& is_token(wrapper.id@, ID_LEN as nat)
                    &&& wrapper.nodes is None
                    &&& wrapper.db == DEFAULT_DB
                    &&& wrapper.created_at == created_at
                    &&& wrapper.model == model
                },
                Err(e) => RedisConnection::settled(attempt) == Err::<T, CusError>(e),
            },
    {
        Self::build_as(random_str(ID_LEN), model, attempt, created_at)
    }

    /// Records the exchange of a command on this connection under the given
    /// record identifier: the record is made whether the exchange brought a
    /// reply or a failure, and goes with the reply or with the error.
    pub fn execute_as(&self, id: String, cmd: &redis::Cmd, exchange: Exchange) -> (r: Result<
        (Reply, Command),
        (CusError, Command),
    >)
        ensures
            match r {
                Ok((reply, record)) => {
                    &&& exchange.outcome == Ok::<Reply, String>(reply)
                    &&& record.id == id
                    &&& reports(record, self.model.host(), cmd_args(*cmd), exchange)
                },
                Err((e, record)) => {
                    &&& answer(exchange.outcome) == Err::<Reply, CusError>(e)
                    &&& record.id == id
                    &&& reports(record, self.model.host(), cmd_args(*cmd), exchange)
                },
            },
    {
        let text = render(cmd);
        let host = self.model.get_host();
        let lasted = duration(exchange.started, exchange.ended);
        proof {
            reveal_strlit(" ");
            assert(" "@ == seq![' ']);
        }
        match exchange.outcome {
            Ok(reply) => {
                let rep = reply.normalize();
                let record = Command {
                    id: id,
                    cmd: text,
                    response: join(&rep, " "),
                    created_at: exchange.created_at,
                    host: host,
                    duration: lasted,
                };
                Ok((reply, record))
            },
            Err(cause) => {
                let record = Command {
                    id: id,
                    cmd: text,
                    response: cause.clone(),
                    created_at: exchange.created_at,
                    host: host,
                    duration: lasted,
                };
                Err((CusError::ProtocolError(cause), record))
            },
        }
    }

    /// Records the exchange of a command on this connection under a fresh
    /// random record identifier.
    pub fn execute(&self, cmd: &redis::Cmd, exchange: Exchange) -> (r: Result<
        (Reply, Command),
        (CusError, Command),
    >)
        ensures
            match r {
                Ok((reply, record)) => {
                    &&& exchange.outcome == Ok::<Reply, String>(reply)
                    &&& is_token(record.id@, ID_LEN as nat)
                    &&& reports(record, self.model.host(), cmd_args(*cmd), exchange)
                },
                Err((e, record)) => {
                    &&& answer(exchange.outcome) == Err::<Reply, CusError>(e)
                    &&& is_token(record.id@, ID_LEN as nat)
                    &&& reports(record, self.model.host(), cmd_args(*cmd), exchange)
                },
            },
    {
        self.execute_as(random_str(ID_LEN), cmd, exchange)
    }
}

/// The name that a new connection gives itself.
pub const CLIENT_NAME: &'static str = "tauri-redis";

/// The arguments of the command that names a connection.
pub open spec fn name_args(name: Seq<char>) -> Seq<Option<Seq<u8>>> {
    text_args(seq!["CLIENT"@, "SETNAME"@, name])
}

/// The arguments of the command that selects a database.
pub open spec fn select_args(db: u8) -> Seq<Option<Seq<u8>>> {
    text_args(seq!["select"@, decimal_text(db as int)])
}

/// The arguments of the command that asks for the server's information.
pub open spec fn info_args() -> Seq<Option<Seq<u8>>> {
    text_args(seq!["info"@])
}

/// The arguments of the command that asks for the configuration under a
/// pattern.
pub open spec fn config_args(pattern: Seq<char>) -> Seq<Option<Seq<u8>>> {
    text_args(seq!["config"@, "get"@, pattern])
}

/// The arguments of the command that asks for the nodes of a cluster.
pub open spec fn nodes_args() -> Seq<Option<Seq<u8>>> {
    text_args(seq!["CLUSTER"@, "nodes"@])
}

/// Whether a database switch is due before a command runs on a connection:
/// never on a cluster, and elsewhere when the database asked for is not the
/// one that the connection has selected.
pub open spec fn select_due(conn: ConnectionWrapper, db: u8) -> bool {
    !conn.model.params.is_cluster && conn.db != db
}

/// What has to be sent before a command runs on connection `id` with
/// database `db`: the arguments of the command that selects `db` where a
/// switch is due, nothing where none is due; `NotFound` where no connection
/// is live under `id`.
pub open spec fn select_plan(conns: Map<u32, ConnectionWrapper>, id: u32, db: u8) -> Result<
    Option<Seq<Option<Seq<u8>>>>,
    CusError,
> {
    if !conns.contains_key(id) {
        Err(CusError::NotFound)
    } else if select_due(conns[id], db) {
        Ok(Some(select_args(db)))
    } else {
        Ok(None)
    }
}

/// The live connections once connection `id` has selected database `db`.
pub open spec fn selected(conns: Map<u32, ConnectionWrapper>, id: u32, db: u8) -> Map<
    u32,
    ConnectionWrapper,
> {
    conns.insert(id, (ConnectionWrapper { db: db, ..conns[id] }))
}

/// What the exchange of a command on connection `id` comes to for the caller:
/// `NotFound` where no connection is live under `id`, else the reply or the
/// protocol error that holds the description of the failure.
pub open spec fn executed(conns: Map<u32, ConnectionWrapper>, id: u32, exchange: Exchange) -> Result<
    Reply,
    CusError,
> {
    if conns.contains_key(id) {
        answer(exchange.outcome)
    } else {
        Err(CusError::NotFound)
    }
}

/// Whether the nodes of the cluster behind connection `id` have to be asked
/// for: the connection is live, is a cluster, and has no list of nodes yet.
pub open spec fn asks_topology(conns: Map<u32, ConnectionWrapper>, id: u32) -> bool {
    conns.contains_key(id) && conns[id].model.params.is_cluster && conns[id].nodes is None
}

/// The live connections once connection `id` keeps the given list of nodes.
pub open spec fn topology_kept(conns: Map<u32, ConnectionWrapper>, id: u32, nodes: Vec<Node>) -> Map<
    u32,
    ConnectionWrapper,
> {
    conns.insert(id, (ConnectionWrapper { nodes: Some(nodes), ..conns[id] }))
}

/// How to learn the nodes of a cluster.
pub enum Topology {
    /// The nodes are known from an earlier query.
    Known(Vec<Node>),
    /// The nodes have to be asked for with this command.
    Ask(redis::Cmd),
}

/// The registry of live connections, each under a numeric id, and the slot
/// for the one subscriber that gets the record of every execution.
pub struct ConnectionManager {
    pub map: HashMap<u32, ConnectionWrapper>,
    pub debug_tx: Option<tokio::sync::mpsc::Sender<Command>>,
}

impl ConnectionManager {
    /// The live connections by id.
    pub open spec fn conns(self) -> Map<u32, ConnectionWrapper> {
        self.map@
    }

    /// Whether a subscriber is attached.
    pub open spec fn watched(self) -> bool {
        self.debug_tx is Some
    }

    /// The subscriber that is attached, if one is.
    pub open spec fn subscriber(self) -> Option<tokio::sync::mpsc::Sender<Command>> {
        self.debug_tx
    }

    /// Whether `record` is what the telemetry path yields for the exchange of
    /// a command with the given arguments on connection `id`: the record of
    /// that exchange where the connection is live and a subscriber is
    /// attached, and nothing otherwise.
    pub open spec fn recorded(
        self,
        id: u32,
        args: Seq<Option<Seq<u8>>>,
        exchange: Exchange,
        record: Option<Command>,
    ) -> bool {
        if self.conns().contains_key(id) && self.watched() {
            record matches Some(rec) && is_token(rec.id@, ID_LEN as nat) && reports(
                rec,
                self.conns()[id].model.host(),
                args,
                exchange,
            )
        } else {
            record is None
        }
    }

    /// A registry without connections and without subscriber.
    pub fn new() -> (manager: ConnectionManager)
        ensures
            manager.conns() == Map::<u32, ConnectionWrapper>::empty(),
            !manager.watched(),
    {
        ConnectionManager { map: HashMap::new(), debug_tx: None }
    }

    /// Registers a connection under `id`, in place of one that stood there.
    /// Hands out the command that gives the connection its name; sending it
    /// is advisory, and its failure is to be ignored.
    pub fn add(&mut self, id: u32, conn: ConnectionWrapper) -> (cmd: redis::Cmd)
        ensures
            final(self).conns() == old(self).conns().insert(id, conn),
            final(self).subscriber() == old(self).subscriber(),
            cmd_args(cmd) == name_args(CLIENT_NAME@),
    {
        broadcast use group_hash_axioms;

        self.map.insert(id, conn);
        build3("CLIENT", "SETNAME", CLIENT_NAME)
    }

    /// Registers under `id` the connection whose transport was attempted, if
    /// the attempt brought a transport. Hands out the transport and the
    /// command that names the connection. Where the attempt failed or timed
    /// out, the tunnel is closed and the registry stays as it is.
    pub fn connect<T>(
        &mut self,
        id: u32,
        model: RedisConnection,
        attempt: Attempt<T>,
        created_at: String,
    ) -> (r: Result<(T, redis::Cmd), CusError>)
        ensures
            final(self).subscriber() == old(self).subscriber(),
            match r {
                Ok((transport, cmd)) => {
                    &&& attempt == Attempt::Connected(transport)
                    &&& cmd_args(cmd) == name_args(CLIENT_NAME@)
                    &&& final(self).conns().contains_key(id)
                    &&& final(self).conns() == old(self).conns().insert(id, final(self).conns()[id])
                    &&& is_token(final(self).conns()[id].id@, ID_LEN as nat)
                    &&& final(self).conns()[id].nodes is None
                    &&& final(self).conns()[id].db == DEFAULT_DB
                    &&& final(self).conns()[id].created_at == created_at
                    &&& final(self).conns()[id].model == model
                },
                Err(e) => {
                    &&& RedisConnection::settled(attempt) == Err::<T, CusError>(e)
                    &&& final(self).conns() == old(self).conns()
                },
            },
    {
        match ConnectionWrapper::build(model, attempt, created_at) {
            Ok((conn, transport)) => {
                let cmd = self.add(id, conn);
                Ok((transport, cmd))
            },
            Err(e) => Err(e),
        }
    }

    /// Drops the connection under `id` and ends its tunnel.
    pub fn remove(&mut self, id: u32)
        ensures
            final(self).conns() == old(self).conns().remove(id),
            final(self).subscriber() == old(self).subscriber(),
    {
        broadcast use group_hash_axioms;

        match self.map.remove(&id) {
            Some(conn) => {
                let mut conn = conn;
                conn.model.close_tunnel();
            },
            None => {},
        }
    }

    /// Attaches a subscriber, in place of one that was attached.
    pub fn set_tx(&mut self, tx: tokio::sync::mpsc::Sender<Command>)
        ensures
            final(self).subscriber() == Some(tx),
            final(self).watched(),
            final(self).conns() == old(self).conns(),
    {
        self.debug_tx = Some(tx);
    }

    /// Detaches the subscriber, if one is attached.
    pub fn remove_tx(&mut self)
        ensures
            !final(self).watched(),
            final(self).conns() == old(self).conns(),
    {
        self.debug_tx = None;
    }

    /// The subscriber to hand records to, if one is attached.
    pub fn get_tx(&self) -> (tx: Option<&tokio::sync::mpsc::Sender<Command>>)
        ensures
            tx is Some <==> self.watched(),
            tx matches Some(t) ==> self.subscriber() == Some(*t),
    {
        self.debug_tx.as_ref()
    }

    /// Records the exchange of a command on connection `id` and hands the
    /// record out if a subscriber is attached.
    pub fn execute_with(&self, id: u32, cmd: &redis::Cmd, exchange: Exchange) -> (r: Reported<Reply>)
        ensures
            r.result == executed(self.conns(), id, exchange),
            self.recorded(id, cmd_args(*cmd), exchange, r.record),
    {
        broadcast use group_hash_axioms;

        match self.map.get(&id) {
            Some(conn) => {
                let watched = self.debug_tx.is_some();
                match conn.execute(cmd, exchange) {
                    Ok((reply, record)) => Reported {
                        result: Ok(reply),
                        record: if watched {
                            Some(record)
                        } else {
                            None
                        },
                    },
                    Err((e, record)) => Reported {
                        result: Err(e),
                        record: if watched {
                            Some(record)
                        } else {
                            None
                        },
                    },
                }
            },
            None => Reported { result: Err(CusError::NotFound), record: None },
        }
    }

    /// Says what has to be sent before a command runs on connection `id`
    /// with database `db`: the command that selects `db` where a switch is
    /// due, nothing otherwise.
    pub fn execute(&self, id: u32, db: u8) -> (r: Result<Option<redis::Cmd>, CusError>)
        ensures
            match r {
                Ok(Some(cmd)) => select_plan(self.conns(), id, db) matches Ok(Some(args))
                    && args == cmd_args(cmd),
                Ok(None) => select_plan(self.conns(), id, db) matches Ok(None),
                Err(e) => select_plan(self.conns(), id, db) matches Err(refusal) && refusal == e,
            },
    {
        broadcast use group_hash_axioms;

        match self.map.get(&id) {
            Some(conn) => {
                if !conn.model.get_is_cluster() && conn.db != db {
                    let index = decimal(db as i64);
                    Ok(Some(build2("select", index.as_str())))
                } else {
                    Ok(None)
                }
            },
            None => Err(CusError::NotFound),
        }
    }

    /// Takes in what the command that selects `db` on connection `id` came
    /// to: where it succeeded the connection has `db` selected from now on.
    pub fn select_with(&mut self, id: u32, db: u8, exchange: Exchange) -> (r: Reported<()>)
        ensures
            old(self).recorded(id, select_args(db), exchange, r.record),
            final(self).subscriber() == old(self).subscriber(),
            r.result == if !old(self).conns().contains_key(id) {
                Err::<(), CusError>(CusError::NotFound)
            } else {
                match exchange.outcome {
                    Ok(_) => Ok(()),
                    Err(cause) => Err(CusError::ProtocolError(cause)),
                }
            },
            final(self).conns() == if old(self).conns().contains_key(id) && exchange.outcome is Ok {
                selected(old(self).conns(), id, db)
            } else {
                old(self).conns()
            },
    {
        broadcast use group_hash_axioms;

        let index = decimal(db as i64);
        let cmd = build2("select", index.as_str());
        let done = self.execute_with(id, &cmd, exchange);
        match done.result {
            Ok(_) => {
                match self.map.remove(&id) {
                    Some(conn) => {
                        let mut conn = conn;
                        conn.db = db;
                        self.map.insert(id, conn);
                        assert(final(self).conns() =~= selected(old(self).conns(), id, db));
                    },
                    None => {},
                }
                Reported { result: Ok(()), record: done.record }
            },
            Err(e) => Reported { result: Err(e), record: done.record },
        }
    }
}

impl ConnectionManager {
    /// Whether `e` is the error of an operation whose reply could not be
    /// read: `NotFound` where the connection is not live, the protocol error
    /// with the failure's description where the exchange failed, and some
    /// protocol error where the reply has not the shape that is asked for.
    pub open spec fn refused(self, id: u32, exchange: Exchange, readable: bool, e: CusError) -> bool {
        if !self.conns().contains_key(id) {
            e == CusError::NotFound
        } else {
            match exchange.outcome {
                Err(cause) => e == CusError::ProtocolError(cause),
                Ok(_) => !readable && e is ProtocolError,
            }
        }
    }

    /// The command to send in order to name connection `id`.
    pub fn set_name(&self, id: u32, name: &str) -> (r: Result<redis::Cmd, CusError>)
        ensures
            match r {
                Ok(cmd) => self.conns().contains_key(id) && cmd_args(cmd) == name_args(name@),
                Err(e) => !self.conns().contains_key(id) && e == CusError::NotFound,
            },
    {
        broadcast use group_hash_axioms;

        if self.map.contains_key(&id) {
            Ok(build3("CLIENT", "SETNAME", name))
        } else {
            Err(CusError::NotFound)
        }
    }

    /// Takes in what the command that names connection `id` came to.
    pub fn set_name_with(&self, id: u32, name: &str, exchange: Exchange) -> (r: Reported<()>)
        ensures
            self.recorded(id, name_args(name@), exchange, r.record),
            match r.result {
                Ok(_) => self.conns().contains_key(id) && exchange.outcome is Ok,
                Err(e) => self.refused(id, exchange, true, e),
            },
    {
        let cmd = build3("CLIENT", "SETNAME", name);
        let done = self.execute_with(id, &cmd, exchange);
        match done.result {
            Ok(_) => Reported { result: Ok(()), record: done.record },
            Err(e) => Reported { result: Err(e), record: done.record },
        }
    }

    /// The command to send in order to learn the server's information on
    /// connection `id`.
    pub fn get_info(&self, id: u32) -> (r: Result<redis::Cmd, CusError>)
        ensures
            match r {
                Ok(cmd) => self.conns().contains_key(id) && cmd_args(cmd) == info_args(),
                Err(e) => !self.conns().contains_key(id) && e == CusError::NotFound,
            },
    {
        broadcast use group_hash_axioms;

        if self.map.contains_key(&id) {
            Ok(build1("info"))
        } else {
            Err(CusError::NotFound)
        }
    }

    /// Reads the server's information out of what the command came to: one
    /// section for a single node, one section per node for a cluster.
    pub fn get_info_with(&self, id: u32, exchange: Exchange) -> (r: Reported<Vec<Fields>>)
        ensures
            self.recorded(id, info_args(), exchange, r.record),
            match r.result {
                Ok(sections) => {
                    &&& self.conns().contains_key(id)
                    &&& exchange.outcome matches Ok(reply)
                    &&& info_of(reply) == Some(section_views(sections@))
                },
                Err(e) => self.refused(
                    id,
                    exchange,
                    exchange.outcome matches Ok(reply) && info_of(reply) is Some,
                    e,
                ),
            },
    {
        let cmd = build1("info");
        let done = self.execute_with(id, &cmd, exchange);
        match done.result {
            Ok(reply) => Reported { result: read_info(&reply), record: done.record },
            Err(e) => Reported { result: Err(e), record: done.record },
        }
    }

    /// The command to send in order to learn the server's version on
    /// connection `id`.
    pub fn get_version(&self, id: u32) -> (r: Result<redis::Cmd, CusError>)
        ensures
            match r {
                Ok(cmd) => self.conns().contains_key(id) && cmd_args(cmd) == info_args(),
                Err(e) => !self.conns().contains_key(id) && e == CusError::NotFound,
            },
    {
        self.get_info(id)
    }

    /// Reads the server's version out of what the command came to: what the
    /// first section of the information names as `redis_version`, the empty
    /// text where it names none.
    pub fn get_version_with(&self, id: u32, exchange: Exchange) -> (r: Reported<String>)
        ensures
            self.recorded(id, info_args(), exchange, r.record),
            match r.result {
                Ok(version) => {
                    &&& self.conns().contains_key(id)
                    &&& exchange.outcome matches Ok(reply)
                    &&& info_of(reply) matches Some(sections)
                    &&& version@ == version_of(sections)
                },
                Err(e) => self.refused(
                    id,
                    exchange,
                    exchange.outcome matches Ok(reply) && info_of(reply) is Some,
                    e,
                ),
            },
    {
        let done = self.get_info_with(id, exchange);
        match done.result {
            Ok(sections) => Reported { result: Ok(read_version(&sections)), record: done.record },
            Err(e) => Reported { result: Err(e), record: done.record },
        }
    }

    /// The command to send in order to learn the configuration under a
    /// pattern on connection `id`.
    pub fn get_config(&self, id: u32, pattern: &str) -> (r: Result<redis::Cmd, CusError>)
        ensures
            match r {
                Ok(cmd) => self.conns().contains_key(id) && cmd_args(cmd) == config_args(pattern@),
                Err(e) => !self.conns().contains_key(id) && e == CusError::NotFound,
            },
    {
        broadcast use group_hash_axioms;

        if self.map.contains_key(&id) {
            Ok(build3("config", "get", pattern))
        } else {
            Err(CusError::NotFound)
        }
    }

    /// Reads the configuration out of what the command came to.
    pub fn get_config_with(&self, id: u32, pattern: &str, exchange: Exchange) -> (r: Reported<Fields>)
        ensures
            self.recorded(id, config_args(pattern@), exchange, r.record),
            match r.result {
                Ok(fields) => {
                    &&& self.conns().contains_key(id)
                    &&& exchange.outcome matches Ok(reply)
                    &&& config_of(reply) == Some(fields@)
                },
                Err(e) => self.refused(
                    id,
                    exchange,
                    exchange.outcome matches Ok(reply) && config_of(reply) is Some,
                    e,
                ),
            },
    {
        let cmd = build3("config", "get", pattern);
        let done = self.execute_with(id, &cmd, exchange);
        match done.result {
            Ok(reply) => Reported { result: read_config(&reply), record: done.record },
            Err(e) => Reported { result: Err(e), record: done.record },
        }
    }

    /// Says how to learn the nodes of the cluster behind connection `id`:
    /// from the connection's own list where an earlier query filled it, by
    /// the command that asks for them otherwise.
    pub fn get_nodes(&self, id: u32) -> (r: Result<Topology, CusError>)
        ensures
            match r {
                Ok(Topology::Known(nodes)) => {
                    &&& self.conns().contains_key(id)
                    &&& self.conns()[id].model.params.is_cluster
                    &&& self.conns()[id].nodes matches Some(known)
                    &&& same_nodes(nodes@, known@)
                },
                Ok(Topology::Ask(cmd)) => {
                    &&& asks_topology(self.conns(), id)
                    &&& cmd_args(cmd) == nodes_args()
                },
                Err(e) => if self.conns().contains_key(id) {
                    !self.conns()[id].model.params.is_cluster && e == CusError::NotCluster
                } else {
                    e == CusError::NotFound
                },
            },
    {
        broadcast use group_hash_axioms;

        match self.map.get(&id) {
            Some(conn) => {
                if !conn.model.get_is_cluster() {
                    return Err(CusError::NotCluster);
                }
                match &conn.nodes {
                    Some(known) => Ok(Topology::Known(copy_nodes(known))),
                    None => Ok(Topology::Ask(build2("CLUSTER", "nodes"))),
                }
            },
            None => Err(CusError::NotFound),
        }
    }

    /// Reads the nodes of the cluster out of what the command came to, and
    /// keeps them with the connection, so that they are not asked for again.
    pub fn get_nodes_with(&mut self, id: u32, exchange: Exchange) -> (r: Reported<Vec<Node>>)
        ensures
            final(self).subscriber() == old(self).subscriber(),
            final(self).conns().dom() == old(self).conns().dom(),
            forall|k: u32|
                k != id && old(self).conns().contains_key(k) ==> final(self).conns()[k] == old(
                    self,
                ).conns()[k],
            if !old(self).conns().contains_key(id) {
                r.result == Err::<Vec<Node>, CusError>(CusError::NotFound) && r.record is None
            } else if !old(self).conns()[id].model.params.is_cluster {
                &&& r.result == Err::<Vec<Node>, CusError>(CusError::NotCluster)
                &&& r.record is None
                &&& final(self).conns() == old(self).conns()
            } else {
                &&& old(self).recorded(id, nodes_args(), exchange, r.record)
                &&& match r.result {
                    Ok(nodes) => {
                        &&& exchange.outcome matches Ok(reply)
                        &&& text_of(reply) matches Some(text)
                        &&& lists(nodes@, node_lines(text), old(self).conns()[id].model.params)
                        &&& final(self).conns()[id].nodes matches Some(kept)
                        &&& same_nodes(kept@, nodes@)
                        &&& final(self).conns() == topology_kept(old(self).conns(), id, kept)
                    },
                    Err(e) => {
                        &&& old(self).refused(
                            id,
                            exchange,
                            exchange.outcome matches Ok(reply) && text_of(reply) is Some,
                            e,
                        )
                        &&& final(self).conns() == old(self).conns()
                    },
                }
            },
    {
        broadcast use group_hash_axioms;

        let cluster = match self.map.get(&id) {
            Some(conn) => conn.model.get_is_cluster(),
            None => {
                return Reported { result: Err(CusError::NotFound), record: None };
            },
        };
        if !cluster {
            return Reported { result: Err(CusError::NotCluster), record: None };
        }
        let cmd = build2("CLUSTER", "nodes");
        let done = self.execute_with(id, &cmd, exchange);
        match done.result {
            Ok(reply) => {
                match self.map.remove(&id) {
                    Some(conn) => {
                        let mut conn = conn;
                        let read = read_nodes(&reply, &conn.model.params);
                        let result = match read {
                            Ok(nodes) => {
                                conn.nodes = Some(copy_nodes(&nodes));
                                Ok(nodes)
                            },
                            Err(e) => Err(e),
                        };
                        self.map.insert(id, conn);
                        proof {
                            assert(final(self).conns().dom() =~= old(self).conns().dom());
                            if result is Err {
                                assert(final(self).conns() =~= old(self).conns());
                            } else {
                                assert(final(self).conns() =~= topology_kept(
                                    old(self).conns(),
                                    id,
                                    final(self).conns()[id].nodes->0,
                                ));
                            }
                        }
                        Reported { result: result, record: done.record }
                    },
                    None => Reported { result: Err(CusError::NotFound), record: done.record },
                }
            },
            Err(e) => Reported { result: Err(e), record: done.record },
        }
    }
}

/// How a summary names the topology of a connection.
pub open spec fn kind_text(cluster: bool) -> Seq<char> {
    if cluster {
        "cluster"@
    } else {
        "normal"@
    }
}

/// Whether a summary is that of a connection.
pub open spec fn summarizes(summary: Conn, conn: ConnectionWrapper) -> bool {
    &&& summary.id@ == conn.id@
    &&& summary.host@ == conn.model.host()
    &&& summary.created_at@ == conn.created_at@
    &&& summary.types@ == kind_text(conn.model.params.is_cluster)
    &&& match summary.proxy {
        Some(text) => conn.model.proxy() == Some(text@),
        None => conn.model.proxy() is None,
    }
}

impl ConnectionWrapper {
    /// The summary of the connection.
    pub fn summary(&self) -> (summary: Conn)
        ensures
            summarizes(summary, *self),
    {
        Conn {
            id: self.id.clone(),
            host: self.model.get_host(),
            created_at: self.created_at.clone(),
            types: if self.model.get_is_cluster() {
                "cluster".to_string()
            } else {
                "normal".to_string()
            },
            proxy: self.model.get_proxy(),
        }
    }
}

impl ConnectionManager {
    /// Whether `list` holds the summaries of the live connections, one for
    /// each, in the order in which `ids` names them.
    pub open spec fn lists_conns(self, list: Seq<Conn>, ids: Seq<u32>) -> bool {
        &&& ids.no_duplicates()
        &&& ids.to_set() == self.conns().dom()
        &&& ids.len() == list.len()
        &&& forall|i: int|
            0 <= i < list.len() ==> summarizes(#[trigger] list[i], self.conns()[ids[i]])
    }

    /// The summaries of the live connections, one for each, in no
    /// particular order.
    pub fn get_conns(&self) -> (list: Vec<Conn>)
        ensures
            exists|ids: Seq<u32>| self.lists_conns(list@, ids),
    {
        broadcast use group_hash_axioms;

        let mut list: Vec<Conn> = Vec::new();
        let ghost mut ids: Seq<u32> = Seq::empty();
        for entry in it: self.map.iter()
            invariant
                it.seq() == spec_hash_map_iter(&self.map).remaining(),
                it.seq().no_duplicates(),
                ids.len() == it.index(),
                list.len() == it.index(),
                forall|i: int| 0 <= i < ids.len() ==> ids[i] == *(#[trigger] it.seq()[i]).0,
                forall|i: int|
                    0 <= i < list.len() ==> summarizes(#[trigger] list@[i], self.conns()[ids[i]]),
        {
            let (key, conn) = entry;
            list.push(conn.summary());
            proof {
                ids = ids.push(*key);
            }
        }
        proof {
            let pairs = spec_hash_map_iter(&self.map).remaining();
            assert forall|i: int, j: int| 0 <= i < ids.len() && 0 <= j < ids.len() && i != j implies ids[i]
                != ids[j] by {
                if ids[i] == ids[j] {
                    assert(*pairs[i].1 == self.map@[*pairs[i].0]);
                    assert(*pairs[j].1 == self.map@[*pairs[j].0]);
                    assert(pairs[i] == pairs[j]);
                }
            }
            assert forall|k: u32| ids.to_set().contains(k) <==> self.conns().dom().contains(k) by {
                if ids.to_set().contains(k) {
                    let i = choose|i: int| 0 <= i < ids.len() && ids[i] == k;
                    assert(self.map@.contains_key(*pairs[i].0));
                }
                if self.conns().dom().contains(k) {
                    assert(pairs.contains((&k, &self.map@[k])));
                    let i = choose|i: int| 0 <= i < pairs.len() && pairs[i] == (&k, &self.map@[k]);
                    assert(ids[i] == k);
                }
            }
            assert(ids.to_set() =~= self.conns().dom());
            assert(self.lists_conns(list@, ids));
        }
        list
    }
}

/// Once a connection that is no cluster has switched to a database, no
/// further switch is due for that database: a command for another database
/// than the selected one is preceded by exactly one `select`, and the
/// commands for the same database that follow are preceded by none.
pub proof fn lemma_select_once(conns: Map<u32, ConnectionWrapper>, id: u32, db: u8)
    requires
        conns.contains_key(id),
        !conns[id].model.params.is_cluster,
    ensures
        conns[id].db != db ==> (select_plan(conns, id, db) matches Ok(Some(args)) && args
            == select_args(db)),
        conns[id].db == db ==> select_plan(conns, id, db) matches Ok(None),
        select_plan(selected(conns, id, db), id, db) matches Ok(None),
{
}

/// On a cluster no database switch is ever due, whichever database is asked
/// for.
pub proof fn lemma_cluster_never_selects(conns: Map<u32, ConnectionWrapper>, id: u32, db: u8)
    requires
        conns.contains_key(id),
        conns[id].model.params.is_cluster,
    ensures
        select_plan(conns, id, db) matches Ok(None),
{
}

/// Once a connection keeps the list of its cluster's nodes, the nodes are
/// not asked for again, and no switch of database changes that.
pub proof fn lemma_topology_asked_once(
    conns: Map<u32, ConnectionWrapper>,
    id: u32,
    nodes: Vec<Node>,
    db: u8,
)
    requires
        conns.contains_key(id),
    ensures
        !asks_topology(topology_kept(conns, id, nodes), id),
        !asks_topology(selected(topology_kept(conns, id, nodes), id, db), id),
        topology_kept(conns, id, nodes)[id].nodes == Some(nodes),
{
}

/// After a connection was removed, an execution on its id plans nothing and
/// fails with `NotFound`, until a connection is added under that id again.
pub proof fn lemma_removed_not_found(conns: Map<u32, ConnectionWrapper>, id: u32, db: u8)
    ensures
        select_plan(conns.remove(id), id, db) matches Err(CusError::NotFound),
        !asks_topology(conns.remove(id), id),
        forall|exchange: Exchange| #[trigger]
            executed(conns.remove(id), id, exchange) == Err::<Reply, _>(CusError::NotFound),
{
}

/// An attempt to open a transport that does not complete within the bound
/// fails with `Timeout`, and one that fails otherwise fails with
/// `ConnectFailed` and its cause.
pub proof fn lemma_timeout_refused<T>(cause: String)
    ensures
        RedisConnection::settled(Attempt::<T>::TimedOut) == Err::<T, _>(CusError::Timeout),
        RedisConnection::settled(Attempt::<T>::Failed(cause)) == Err::<T, _>(
            CusError::ConnectFailed(cause),
        ),
{
}

} // verus!
