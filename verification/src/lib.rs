//! The decisions of a device-connection proxy.
//!
//! Devices open TLS/WebSocket connections to the proxy. Each accepted socket is driven by a
//! [`ProxyConnectionProcessor`], which reads the device's connect message and asks the
//! [`ProxyConnectionServer`] to register the connection. The server keeps one connection per
//! device in a [`ProxyConnMap`] and tells an older connection of the same device to close.
//!
//! Sockets, timers and tasks are outside this library: they hand in what happened and carry out
//! what is handed back.
pub mod app_core;
pub mod channel;
pub mod error;
pub mod internal_mbox;
pub mod mac_address;
pub mod message_processor_state;
pub mod messages;
pub mod proxy_conn_map;
pub mod proxy_connection_processor;
pub mod proxy_connection_server;
pub mod proxy_runtime;
pub mod ws_message;

pub use app_core::AppCoreLogLevel;
pub use error::Error;
pub use internal_mbox::InternalMbox;
pub use mac_address::MacAddress;
pub use message_processor_state::ProxyUCentralMessageProcessorState;
pub use messages::{ProxyConnectionProcessorReqMsg, ProxyConnectionServerReqMsg, SocketAddr};
pub use proxy_conn_map::{ConnMapChange, DuplicateNotice, ProxyConnMap};
pub use proxy_connection_processor::{
    AwaitingAck, AwaitingConnect, ConnectReceived, FirstMessage, ProxyConnectionProcessor, WsAccept,
};
pub use proxy_connection_server::{
    AppArgs, NewProxyConnectionServer, ProxyConnectionServer, ProxyConnectionServerState,
    TlsHandshake, ValidatorOutcome,
};
pub use proxy_runtime::{ProxyRuntimeType, ProxyRuntimes, RuntimeSearch, RuntimeSearchStep};
pub use ws_message::{WsCloseFrame, WsMessage};
