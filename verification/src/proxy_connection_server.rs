//! The server that owns the registry of connections.
use crate::channel::{
    send_to_server, sending, server_channel, server_channel_closes, server_channel_halves, server_messages,
};
use crate::error::Error;
use crate::mac_address::MacAddress;
use crate::messages::{ProxyConnectionServerReqMsg, SocketAddr};
use crate::proxy_conn_map::{ConnTable, ProxyConnMap};
use crate::proxy_connection_processor::ProxyConnectionProcessor;
use crate::proxy_runtime::ProxyRuntimes;
use std::sync::Arc;
use tokio::sync::mpsc::{UnboundedReceiver, UnboundedSender};
use vstd::prelude::*;
use vstd::string::*;

verus! {

/// The settings that a server is made from.
#[derive(Debug, Clone, Copy)]
pub struct AppArgs {
    /// The id of this gateway.
    pub cgw_id: i32,
    /// How many devices a group may hold.
    pub cgw_group_infras_capacity: i32,
}

/// The outcome of making the validators for device configurations.
#[derive(Debug)]
pub enum ValidatorOutcome<V> {
    Created(V),
    /// The validators could not be made, for this reason.
    CreateFailed(String),
    /// The task that makes them did not finish, for this reason.
    TaskFailed(String),
}

/// The part of the server that does not change: connection tasks share it.
#[derive(Debug)]
pub struct ProxyConnectionServer<V> {
    pub local_cgw_id: i32,
    /// The mailbox that the server's own task reads.
    pub mbox_internal_tx: UnboundedSender<ProxyConnectionServerReqMsg>,
    pub runtimes: ProxyRuntimes,
    /// Validators for the configurations of access points and switches.
    pub config_validator: V,
    pub infras_capacity: i32,
}

/// The part of the server that changes: its tasks take turns at it.
#[derive(Debug)]
pub struct ProxyConnectionServerState {
    pub connmap: ProxyConnMap,
    pub local_shard_partition_key: Option<String>,
    pub last_update_timestamp: i64,
}

/// A server as it comes into being, with the mailbox that its task has to read.
#[derive(Debug)]
pub struct NewProxyConnectionServer<V> {
    pub server: Arc<ProxyConnectionServer<V>>,
    pub state: ProxyConnectionServerState,
    pub mbox_internal_rx: UnboundedReceiver<ProxyConnectionServerReqMsg>,
}

/// How a TLS handshake with a device went.
#[derive(Debug, Clone, Copy)]
pub enum TlsHandshake {
    /// The connection is up and the client's certificate names this device.
    Accepted { client_cn: MacAddress },
    /// The connection is up, but the client's certificate does not name a device.
    NoClientCn,
    /// The connection was not accepted.
    Failed,
}

/// `e` is the error for validators that could not be made.
pub open spec fn is_validator_error<V>(e: Error, outcome: ValidatorOutcome<V>) -> bool {
    match outcome {
        ValidatorOutcome::Created(_) => false,
        ValidatorOutcome::CreateFailed(reason) => e.is_server_error(
            "Can't create CGW Connection server: Config validator create failed: "@ + reason@,
        ),
        ValidatorOutcome::TaskFailed(reason) => e.is_server_error(
            "Failed to retrieve json config validators! Error: "@ + reason@,
        ),
    }
}

/// `made` is a new server with the given settings and parts: no device is connected, it belongs
/// to no shard and was never updated.
pub open spec fn is_fresh_server<V>(
    made: NewProxyConnectionServer<V>,
    app_args: AppArgs,
    runtimes: ProxyRuntimes,
    config_validator: V,
) -> bool {
    &&& made.server.local_cgw_id == app_args.cgw_id
    &&& made.server.infras_capacity == app_args.cgw_group_infras_capacity
    &&& made.server.runtimes == runtimes
    &&& made.server.config_validator == config_validator
    &&& made.state.connmap@ == ConnTable::empty()
    &&& made.state.local_shard_partition_key is None
    &&& made.state.last_update_timestamp == 0
}

impl<V> ProxyConnectionServer<V> {
    /// Makes a server from its settings, its runtimes and the outcome of making its validators.
    pub fn new(
        app_args: &AppArgs,
        runtimes: ProxyRuntimes,
        validator: ValidatorOutcome<V>,
    ) -> (result: Result<NewProxyConnectionServer<V>, Error>)
        ensures
            match result {
                Ok(made) => {
                    &&& validator matches ValidatorOutcome::Created(config_validator)
                    &&& is_fresh_server(made, *app_args, runtimes, config_validator)
                    &&& server_channel_halves(made.server.mbox_internal_tx, made.mbox_internal_rx)
                },
                Err(e) => is_validator_error(e, validator),
            },
    {
        let (internal_tx, internal_rx) = server_channel();
        let config_validator = match validator {
            ValidatorOutcome::Created(config_validator) => config_validator,
            ValidatorOutcome::CreateFailed(reason) => {
                let text =
                    "Can't create CGW Connection server: Config validator create failed: ".to_owned();
                return Err(Error::ConnectionServer(text.concat(reason.as_str())));
            },
            ValidatorOutcome::TaskFailed(reason) => {
                let text = "Failed to retrieve json config validators! Error: ".to_owned();
                return Err(Error::ConnectionServer(text.concat(reason.as_str())));
            },
        };
        Ok(
            NewProxyConnectionServer {
                server: Arc::new(
                    ProxyConnectionServer {
                        local_cgw_id: app_args.cgw_id,
                        mbox_internal_tx: internal_tx,
                        runtimes,
                        config_validator,
                        infras_capacity: app_args.cgw_group_infras_capacity,
                    },
                ),
                state: ProxyConnectionServerState {
                    connmap: ProxyConnMap::new(),
                    local_shard_partition_key: None,
                    last_update_timestamp: 0,
                },
                mbox_internal_rx: internal_rx,
            },
        )
    }

    /// Puts a message into the server's mailbox: the mailbox takes it, or the message comes back,
    /// which happens only if the mailbox is closed.
    pub fn enqueue_mbox_message_to_proxy_server(&self, req: ProxyConnectionServerReqMsg) -> (result:
        Result<(), ProxyConnectionServerReqMsg>)
        ensures
            match result {
                Ok(_) => server_messages(self.mbox_internal_tx).contains(req),
                Err(unsent) => unsent == req && server_channel_closes(self.mbox_internal_tx),
            },
        opens_invariants [ sending(self.mbox_internal_tx, req) ]
    {
        send_to_server(&self.mbox_internal_tx, req)
    }

    /// Decides what becomes of a socket once its TLS handshake is over: a connection that names
    /// its device gets a processor, and any other is dropped.
    pub fn ack_connection(self: Arc<Self>, handshake: TlsHandshake, addr: SocketAddr) -> (processor:
        Option<ProxyConnectionProcessor<V>>)
        ensures
            match processor {
                Some(processor) => {
                    &&& handshake is Accepted
                    &&& processor.proxy_server == self
                    &&& processor.serial.eui@ == seq![0u8, 0, 0, 0, 0, 0]
                    &&& processor.addr == addr
                    &&& processor.group_id == 0
                },
                None => !(handshake is Accepted),
            },
        opens_invariants none
    {
        match handshake {
            TlsHandshake::Accepted { client_cn: _ } => Some(
                ProxyConnectionProcessor::new(self, addr),
            ),
            TlsHandshake::NoClientCn => None,
            TlsHandshake::Failed => None,
        }
    }
}

/// A server is made exactly if its validators were, and it keeps every setting that it is given:
/// the capacity and the id of the settings, the four runtimes and the validators. Nothing is
/// registered with it yet, and its mailbox can be read.
pub proof fn law_new_server_keeps_its_settings<V>(
    app_args: AppArgs,
    runtimes: ProxyRuntimes,
    validator: ValidatorOutcome<V>,
    result: Result<NewProxyConnectionServer<V>, Error>,
)
    requires
        call_ensures(
            ProxyConnectionServer::<V>::new,
            (&app_args, runtimes, validator),
            result,
        ),
    ensures
        result is Ok <==> validator is Created,
        result matches Ok(made) ==> {
            &&& made.server.infras_capacity == app_args.cgw_group_infras_capacity
            &&& made.server.local_cgw_id == app_args.cgw_id
            &&& made.server.runtimes == runtimes
            &&& validator == ValidatorOutcome::Created(made.server.config_validator)
            &&& forall|key: u64| !(#[trigger] made.state.connmap@.contains_key(key))
            &&& made.state.local_shard_partition_key is None
            &&& made.state.last_update_timestamp == 0
            &&& server_channel_halves(made.server.mbox_internal_tx, made.mbox_internal_rx)
        },
{
}

/// Settings that differ make servers that differ in the same way.
pub proof fn law_settings_tell_servers_apart<V>(
    args1: AppArgs,
    args2: AppArgs,
    runtimes1: ProxyRuntimes,
    runtimes2: ProxyRuntimes,
    validator1: ValidatorOutcome<V>,
    validator2: ValidatorOutcome<V>,
    made1: NewProxyConnectionServer<V>,
    made2: NewProxyConnectionServer<V>,
)
    requires
        call_ensures(
            ProxyConnectionServer::<V>::new,
            (&args1, runtimes1, validator1),
            Ok(made1),
        ),
        call_ensures(
            ProxyConnectionServer::<V>::new,
            (&args2, runtimes2, validator2),
            Ok(made2),
        ),
    ensures
        made1.server.infras_capacity == made2.server.infras_capacity
            <==> args1.cgw_group_infras_capacity == args2.cgw_group_infras_capacity,
        made1.server.local_cgw_id == made2.server.local_cgw_id <==> args1.cgw_id == args2.cgw_id,
        made1.server.runtimes == made2.server.runtimes <==> runtimes1 == runtimes2,
{
}

/// Why a server could not be made is said in the error, with the reason at its end.
pub proof fn law_server_errors_give_the_reason<V>(
    app_args: AppArgs,
    runtimes: ProxyRuntimes,
    validator: ValidatorOutcome<V>,
    result: Result<NewProxyConnectionServer<V>, Error>,
)
    requires
        call_ensures(
            ProxyConnectionServer::<V>::new,
            (&app_args, runtimes, validator),
            result,
        ),
    ensures
        validator matches ValidatorOutcome::CreateFailed(reason) ==> result matches Err(
            Error::ConnectionServer(text),
        ) && text@
            == "Can't create CGW Connection server: Config validator create failed: "@ + reason@,
        validator matches ValidatorOutcome::TaskFailed(reason) ==> result matches Err(
            Error::ConnectionServer(text),
        ) && text@ == "Failed to retrieve json config validators! Error: "@ + reason@,
{
}

/// A message that is enqueued is taken by the server's mailbox as it is; otherwise the same
/// message comes back. The `opens_invariants` clause of the function says that it sends nothing
/// else.
pub proof fn law_enqueued_as_it_is<V>(
    server: ProxyConnectionServer<V>,
    req: ProxyConnectionServerReqMsg,
    result: Result<(), ProxyConnectionServerReqMsg>,
)
    requires
        call_ensures(
            ProxyConnectionServer::<V>::enqueue_mbox_message_to_proxy_server,
            (&server, req),
            result,
        ),
    ensures
        result is Ok ==> server_messages(server.mbox_internal_tx).contains(req),
        result matches Err(unsent) ==> unsent == req && server_channel_closes(
            server.mbox_internal_tx,
        ),
{
}

/// Only a socket whose handshake succeeded and named a device gets a processor. The processor
/// belongs to this server and this socket, and knows neither device nor group yet.
pub proof fn law_only_named_devices_are_processed<V>(
    server: Arc<ProxyConnectionServer<V>>,
    handshake: TlsHandshake,
    addr: SocketAddr,
    processor: Option<ProxyConnectionProcessor<V>>,
)
    requires
        call_ensures(
            ProxyConnectionServer::<V>::ack_connection,
            (server, handshake, addr),
            processor,
        ),
    ensures
        processor is Some <==> handshake is Accepted,
        processor matches Some(p) ==> {
            &&& p.proxy_server == server
            &&& p.addr == addr
            &&& p.group_id == 0
            &&& forall|i: int| 0 <= i < 6 ==> p.serial.eui@[i] == 0
        },
{
}

} // verus!
