//! The messages that connection processors and the server exchange.
use crate::mac_address::MacAddress;
use tokio::sync::mpsc::UnboundedSender;
use vstd::prelude::*;

verus! {

/// The address of a peer's socket.
#[derive(Debug, Clone, Copy, PartialEq, Eq)]
pub enum SocketAddr {
    /// Address octets and port.
    V4([u8; 4], u16),
    /// Address octets, port, flow information and scope id.
    V6([u8; 16], u16, u32, u32),
}

/// What the server tells a connection processor.
#[derive(Debug)]
pub enum ProxyConnectionProcessorReqMsg {
    /// The connection may be processed; replies of the device carry this group id.
    AddNewConnectionAck(i32),
    /// The connection has to be closed.
    AddNewConnectionShouldClose,
    /// The device belongs to another gateway, at this host and port.
    ForeignConnection((String, u16)),
    /// The group of the device has changed; group 0 means that it is unassigned.
    GroupIdChanged(i32),
}

impl Clone for ProxyConnectionProcessorReqMsg {
    fn clone(&self) -> (copy: Self)
        ensures
            copy == *self,
    {
        match self {
            ProxyConnectionProcessorReqMsg::AddNewConnectionAck(gid) => {
                ProxyConnectionProcessorReqMsg::AddNewConnectionAck(*gid)
            },
            ProxyConnectionProcessorReqMsg::AddNewConnectionShouldClose => {
                ProxyConnectionProcessorReqMsg::AddNewConnectionShouldClose
            },
            ProxyConnectionProcessorReqMsg::ForeignConnection((host, port)) => {
                ProxyConnectionProcessorReqMsg::ForeignConnection((host.clone(), *port))
            },
            ProxyConnectionProcessorReqMsg::GroupIdChanged(gid) => {
                ProxyConnectionProcessorReqMsg::GroupIdChanged(*gid)
            },
        }
    }
}

/// What a connection processor tells the server.
#[derive(Debug)]
pub enum ProxyConnectionServerReqMsg {
    /// A device has connected: its serial, its address, the way to reach its processor, and the
    /// text of its connect message.
    AddNewConnection(
        MacAddress,
        SocketAddr,
        UnboundedSender<ProxyConnectionProcessorReqMsg>,
        String,
    ),
    /// The connection of the device with this serial is gone.
    ConnectionClosed(MacAddress),
}

impl ProxyConnectionServerReqMsg {
    /// The device that the message is about.
    pub open spec fn device(self) -> MacAddress {
        match self {
            ProxyConnectionServerReqMsg::AddNewConnection(device_mac, _, _, _) => device_mac,
            ProxyConnectionServerReqMsg::ConnectionClosed(device_mac) => device_mac,
        }
    }
}

/// A copy of a message is the same message.
pub proof fn law_copy_is_equal(
    msg: ProxyConnectionProcessorReqMsg,
    copy: ProxyConnectionProcessorReqMsg,
)
    requires
        call_ensures(<ProxyConnectionProcessorReqMsg as Clone>::clone, (&msg,), copy),
    ensures
        copy == msg,
{
}

} // verus!
