//! The processor that takes one connection from the accepted socket to its registration.
use crate::channel::{processor_channel, processor_channel_halves};
use crate::error::Error;
use crate::mac_address::MacAddress;
use crate::messages::{ProxyConnectionProcessorReqMsg, ProxyConnectionServerReqMsg, SocketAddr};
use crate::proxy_conn_map::{duplicate_in, table_after, ConnTable};
use crate::proxy_connection_server::ProxyConnectionServer;
use crate::ws_message::WsMessage;
use std::sync::Arc;
use tokio::sync::mpsc::{UnboundedReceiver, UnboundedSender};
use vstd::prelude::*;
use vstd::string::*;

verus! {

/// How long a device may take for the WebSocket handshake, in milliseconds.
pub const WS_ACCEPT_TIMEOUT_MS: u64 = 15000;

/// How long a device may take to send its first message, in milliseconds.
pub const FIRST_MESSAGE_TIMEOUT_MS: u64 = 30000;

/// One connection of a device.
#[derive(Debug)]
pub struct ProxyConnectionProcessor<V> {
    pub proxy_server: Arc<ProxyConnectionServer<V>>,
    /// The device, once it has named itself.
    pub serial: MacAddress,
    pub addr: SocketAddr,
    /// The group that the server has assigned the device to.
    pub group_id: i32,
}

/// How the WebSocket handshake went.
#[derive(Debug, Clone, Copy)]
pub enum WsAccept {
    Accepted,
    Failed,
    TimedOut,
}

/// What came of waiting for the first message.
#[derive(Debug)]
pub enum FirstMessage {
    Received(WsMessage),
    /// The connection broke.
    Failed,
    /// The device ended the stream.
    StreamEnded,
    TimedOut,
}

/// A connection whose device is expected to send its connect message.
#[derive(Debug)]
pub struct AwaitingConnect<V> {
    pub processor: ProxyConnectionProcessor<V>,
}

/// A connection whose device has sent a message that still has to be parsed.
#[derive(Debug)]
pub struct ConnectReceived<V> {
    pub processor: ProxyConnectionProcessor<V>,
    pub message: WsMessage,
}

/// A connection that waits for the server's permission, which comes through `mbox_rx`.
#[derive(Debug)]
pub struct AwaitingAck<V> {
    pub processor: ProxyConnectionProcessor<V>,
    pub mbox_rx: UnboundedReceiver<ProxyConnectionProcessorReqMsg>,
}

/// The error for a WebSocket handshake.
pub open spec fn accept_error(accepted: WsAccept) -> Option<Seq<char>> {
    match accepted {
        WsAccept::Accepted => None,
        WsAccept::Failed => Some("Failed to accept TLS stream!"@),
        WsAccept::TimedOut => Some("Failed to accept TLS stream for too long"@),
    }
}

/// The error for a first message.
pub open spec fn first_message_error(received: FirstMessage) -> Option<Seq<char>> {
    match received {
        FirstMessage::Received(_) => None,
        FirstMessage::Failed => Some(
            "Established connection with device, but failed to receive any messages"@,
        ),
        FirstMessage::StreamEnded => Some("No connect message received"@),
        FirstMessage::TimedOut => Some("No message received for too long"@),
    }
}

/// The error for a connect message, of which `parsed` is the serial.
pub open spec fn connect_error(parsed: Option<MacAddress>) -> Option<Seq<char>> {
    match parsed {
        Some(_) => None,
        None => Some("Failed to receive connect message"@),
    }
}

/// The error for the server's reply, `None` if the server has dropped the request.
pub open spec fn reply_error(reply: Option<ProxyConnectionProcessorReqMsg>) -> Option<Seq<char>> {
    match reply {
        Some(ProxyConnectionProcessorReqMsg::AddNewConnectionAck(_)) => None,
        Some(_) => Some("Unexpected response from server! Expected: ACK/NOT ACK"@),
        None => Some("WebSocket connection declined"@),
    }
}

/// The result is a success if there is no error, and otherwise fails with that error's text.
pub open spec fn fails_exactly_with<T>(result: Result<T, Error>, error: Option<Seq<char>>) -> bool {
    match error {
        Some(text) => result matches Err(e) && e.is_processor_error(text),
        None => result is Ok,
    }
}

/// `req` asks the server to register the device `serial` for the connection of `processor`,
/// whose first message was `message`.
pub open spec fn is_connect_request<V>(
    req: ProxyConnectionServerReqMsg,
    processor: ProxyConnectionProcessor<V>,
    message: WsMessage,
    serial: MacAddress,
) -> bool {
    &&& req matches ProxyConnectionServerReqMsg::AddNewConnection(
        device_mac,
        addr,
        _,
        connect_message,
    )
    &&& device_mac == serial
    &&& addr == processor.addr
    &&& connect_message@ == message.text_or_default()
}

/// What `start` does with the outcome of the WebSocket handshake.
pub open spec fn accept_leads_to<V>(
    processor: ProxyConnectionProcessor<V>,
    accepted: WsAccept,
    result: Result<AwaitingConnect<V>, Error>,
) -> bool {
    &&& fails_exactly_with(result, accept_error(accepted))
    &&& result matches Ok(next) ==> next.processor == processor
}

/// What `on_first_message` does with what came of waiting for a message.
pub open spec fn first_message_leads_to<V>(
    awaiting: AwaitingConnect<V>,
    received: FirstMessage,
    result: Result<ConnectReceived<V>, Error>,
) -> bool {
    &&& fails_exactly_with(result, first_message_error(received))
    &&& result matches Ok(next) ==> next.processor == awaiting.processor && received
        == FirstMessage::Received(next.message)
}

/// What `on_connect_event` does with the serial that the message was parsed to.
pub open spec fn connect_event_leads_to<V>(
    connect: ConnectReceived<V>,
    parsed: Option<MacAddress>,
    result: Result<(AwaitingAck<V>, ProxyConnectionServerReqMsg), Error>,
) -> bool {
    &&& fails_exactly_with(result, connect_error(parsed))
    &&& result matches Ok((next, req)) ==> {
        &&& next.processor == (ProxyConnectionProcessor {
            serial: parsed->Some_0,
            ..connect.processor
        })
        &&& is_connect_request(req, connect.processor, connect.message, parsed->Some_0)
        &&& processor_channel_halves(req->AddNewConnection_2, next.mbox_rx)
    }
}

/// What `on_reply` does with the server's reply.
pub open spec fn reply_leads_to<V>(
    awaiting: AwaitingAck<V>,
    reply: Option<ProxyConnectionProcessorReqMsg>,
    result: Result<ProxyConnectionProcessor<V>, Error>,
) -> bool {
    &&& fails_exactly_with(result, reply_error(reply))
    &&& result matches Ok(processor) ==> reply matches Some(
        ProxyConnectionProcessorReqMsg::AddNewConnectionAck(gid),
    ) && processor == (ProxyConnectionProcessor { group_id: gid, ..awaiting.processor })
}

impl<V> ProxyConnectionProcessor<V> {
    /// A processor for a socket whose device has not named itself yet.
    pub fn new(server: Arc<ProxyConnectionServer<V>>, addr: SocketAddr) -> (processor: Self)
        ensures
            processor.proxy_server == server,
            processor.serial.eui@ == seq![0u8, 0, 0, 0, 0, 0],
            processor.addr == addr,
            processor.group_id == 0,
        opens_invariants none
    {
        ProxyConnectionProcessor {
            proxy_server: server,
            serial: MacAddress::nil(),
            addr,
            group_id: 0,
        }
    }

    /// Starts on the connection once its WebSocket handshake is over.
    pub fn start(self, accepted: WsAccept) -> (result: Result<AwaitingConnect<V>, Error>)
        ensures
            accept_leads_to(self, accepted, result),
        opens_invariants none
    {
        match accepted {
            WsAccept::Accepted => Ok(AwaitingConnect { processor: self }),
            WsAccept::Failed => Err(Error::ConnectionProcessor("Failed to accept TLS stream!")),
            WsAccept::TimedOut => Err(
                Error::ConnectionProcessor("Failed to accept TLS stream for too long"),
            ),
        }
    }

    /// Names the device and makes the request to register it, with `mbox_tx` as the way to
    /// reach this processor.
    pub fn request_connection(
        self,
        serial: MacAddress,
        message: WsMessage,
        mbox_tx: UnboundedSender<ProxyConnectionProcessorReqMsg>,
    ) -> (result: (Self, ProxyConnectionServerReqMsg))
        ensures
            result.0 == (ProxyConnectionProcessor { serial, ..self }),
            is_connect_request(result.1, self, message, serial),
            result.1->AddNewConnection_2 == mbox_tx,
        opens_invariants none
    {
        let orig_connect_msg = message.into_text_or_default();
        let req = ProxyConnectionServerReqMsg::AddNewConnection(
            serial,
            self.addr,
            mbox_tx,
            orig_connect_msg,
        );
        let mut processor = self;
        processor.serial = serial;
        (processor, req)
    }
}

impl<V> AwaitingConnect<V> {
    /// Takes in what came of waiting for the first message.
    pub fn on_first_message(self, received: FirstMessage) -> (result: Result<
        ConnectReceived<V>,
        Error,
    >)
        ensures
            first_message_leads_to(self, received, result),
        opens_invariants none
    {
        match received {
            FirstMessage::Received(message) => Ok(
                ConnectReceived { processor: self.processor, message },
            ),
            FirstMessage::Failed => Err(
                Error::ConnectionProcessor(
                    "Established connection with device, but failed to receive any messages",
                ),
            ),
            FirstMessage::StreamEnded => Err(
                Error::ConnectionProcessor("No connect message received"),
            ),
            FirstMessage::TimedOut => Err(
                Error::ConnectionProcessor("No message received for too long"),
            ),
        }
    }
}

impl<V> ConnectReceived<V> {
    /// Takes in the serial that the message was parsed to, `None` if it is no connect message.
    /// Gives the request that the server has to get and the connection that waits for its
    /// answer.
    pub fn on_connect_event(self, parsed: Option<MacAddress>) -> (result: Result<
        (AwaitingAck<V>, ProxyConnectionServerReqMsg),
        Error,
    >)
        ensures
            connect_event_leads_to(self, parsed, result),
        opens_invariants none
    {
        match parsed {
            Some(serial) => {
                let (mbox_tx, mbox_rx) = processor_channel();
                let (processor, req) = self.processor.request_connection(
                    serial,
                    self.message,
                    mbox_tx,
                );
                Ok((AwaitingAck { processor, mbox_rx }, req))
            },
            None => Err(Error::ConnectionProcessor("Failed to receive connect message")),
        }
    }
}

impl<V> AwaitingAck<V> {
    /// Takes in the server's reply, `None` if the server has dropped the request. With the
    /// server's permission the processor has the group that came with it.
    pub fn on_reply(self, reply: Option<ProxyConnectionProcessorReqMsg>) -> (result: Result<
        ProxyConnectionProcessor<V>,
        Error,
    >)
        ensures
            reply_leads_to(self, reply, result),
        opens_invariants none
    {
        match reply {
            Some(ProxyConnectionProcessorReqMsg::AddNewConnectionAck(gid)) => {
                let mut processor = self.processor;
                processor.group_id = gid;
                Ok(processor)
            },
            Some(_) => Err(
                Error::ConnectionProcessor(
                    "Unexpected response from server! Expected: ACK/NOT ACK",
                ),
            ),
            None => Err(Error::ConnectionProcessor("WebSocket connection declined")),
        }
    }
}

/// A connection that meets these outcomes, one after the other until one of them is an error,
/// ends with `end`.
pub open spec fn start_ends_with<V>(
    processor: ProxyConnectionProcessor<V>,
    accepted: WsAccept,
    received: FirstMessage,
    parsed: Option<MacAddress>,
    reply: Option<ProxyConnectionProcessorReqMsg>,
    end: Result<ProxyConnectionProcessor<V>, Error>,
) -> bool {
    exists|
        result1: Result<AwaitingConnect<V>, Error>,
        result2: Result<ConnectReceived<V>, Error>,
        result3: Result<(AwaitingAck<V>, ProxyConnectionServerReqMsg), Error>,
    |
        #![trigger accept_leads_to(processor, accepted, result1),
            first_message_leads_to(result1->Ok_0, received, result2),
            connect_event_leads_to(result2->Ok_0, parsed, result3)]
        {
            &&& accept_leads_to(processor, accepted, result1)
            &&& if result1 is Err {
                end == Err::<ProxyConnectionProcessor<V>, Error>(result1->Err_0)
            } else {
                &&& first_message_leads_to(result1->Ok_0, received, result2)
                &&& if result2 is Err {
                    end == Err::<ProxyConnectionProcessor<V>, Error>(result2->Err_0)
                } else {
                    &&& connect_event_leads_to(result2->Ok_0, parsed, result3)
                    &&& if result3 is Err {
                        end == Err::<ProxyConnectionProcessor<V>, Error>(result3->Err_0)
                    } else {
                        reply_leads_to(result3->Ok_0.0, reply, end)
                    }
                }
            }
        }
}

/// The first error that a connection meets.
pub open spec fn first_error(
    accepted: WsAccept,
    received: FirstMessage,
    parsed: Option<MacAddress>,
    reply: Option<ProxyConnectionProcessorReqMsg>,
) -> Option<Seq<char>> {
    if accept_error(accepted) is Some {
        accept_error(accepted)
    } else if first_message_error(received) is Some {
        first_message_error(received)
    } else if connect_error(parsed) is Some {
        connect_error(parsed)
    } else {
        reply_error(reply)
    }
}

/// A connection is established exactly if the handshake succeeds, a connect message arrives and
/// the server gives its permission. It then has the serial of the connect message and the group
/// of the permission; its socket and its server are as before. Otherwise the first thing that
/// went wrong gives the error.
pub proof fn law_start_needs_permission<V>(
    processor: ProxyConnectionProcessor<V>,
    accepted: WsAccept,
    received: FirstMessage,
    parsed: Option<MacAddress>,
    reply: Option<ProxyConnectionProcessorReqMsg>,
    end: Result<ProxyConnectionProcessor<V>, Error>,
)
    requires
        start_ends_with(processor, accepted, received, parsed, reply, end),
    ensures
        fails_exactly_with(end, first_error(accepted, received, parsed, reply)),
        end is Ok <==> {
            &&& accepted is Accepted
            &&& received is Received
            &&& parsed is Some
            &&& reply matches Some(ProxyConnectionProcessorReqMsg::AddNewConnectionAck(_))
        },
        end matches Ok(established) ==> established == (ProxyConnectionProcessor {
            serial: parsed->Some_0,
            group_id: reply->Some_0->AddNewConnectionAck_0,
            ..processor
        }),
{
}

/// Once the server has carried out the request of a connection, the device is registered with a
/// sender that reaches the processor of that connection.
pub proof fn law_registration_reaches_processor<V>(
    connect: ConnectReceived<V>,
    serial: MacAddress,
    awaiting: AwaitingAck<V>,
    req: ProxyConnectionServerReqMsg,
    table: ConnTable,
)
    requires
        connect_event_leads_to(connect, Some(serial), Ok((awaiting, req))),
    ensures
        awaiting.processor.serial == serial,
        table_after(table, req).contains_key(serial.key()),
        processor_channel_halves(table_after(table, req)[serial.key()], awaiting.mbox_rx),
{
}

/// A connection that waits for permission gives up when the device connects again: the notice
/// that the older connection gets is not a permission.
pub proof fn law_displaced_connection_gives_up<V>(
    table: ConnTable,
    device_mac: MacAddress,
    awaiting: AwaitingAck<V>,
    result: Result<ProxyConnectionProcessor<V>, Error>,
)
    requires
        table.contains_key(device_mac.key()),
        reply_leads_to(awaiting, Some(duplicate_in(table, device_mac)->Some_0.msg), result),
    ensures
        result matches Err(e) && e.is_processor_error(
            "Unexpected response from server! Expected: ACK/NOT ACK"@,
        ),
{
}

/// A new processor belongs to its server and its socket, and knows neither device nor group.
pub proof fn law_new_processor<V>(
    server: Arc<ProxyConnectionServer<V>>,
    addr: SocketAddr,
    processor: ProxyConnectionProcessor<V>,
)
    requires
        call_ensures(ProxyConnectionProcessor::<V>::new, (server, addr), processor),
    ensures
        processor.proxy_server == server,
        processor.addr == addr,
        processor.group_id == 0,
        forall|i: int| 0 <= i < 6 ==> processor.serial.eui@[i] == 0,
{
}

/// A connection goes on exactly if its handshake succeeded. A failure and a timeout have errors
/// of their own.
pub proof fn law_handshake_decides<V>(
    processor: ProxyConnectionProcessor<V>,
    accepted: WsAccept,
    result: Result<AwaitingConnect<V>, Error>,
)
    requires
        call_ensures(ProxyConnectionProcessor::<V>::start, (processor, accepted), result),
    ensures
        match accepted {
            WsAccept::Accepted => result matches Ok(next) && next.processor == processor,
            WsAccept::Failed => result matches Err(Error::ConnectionProcessor(text)) && text@
                == "Failed to accept TLS stream!"@,
            WsAccept::TimedOut => result matches Err(Error::ConnectionProcessor(text)) && text@
                == "Failed to accept TLS stream for too long"@,
        },
{
}

/// A connection goes on exactly with a message, and with that message. Each way of not getting
/// one has an error of its own.
pub proof fn law_first_message_decides<V>(
    awaiting: AwaitingConnect<V>,
    received: FirstMessage,
    result: Result<ConnectReceived<V>, Error>,
)
    requires
        call_ensures(AwaitingConnect::<V>::on_first_message, (awaiting, received), result),
    ensures
        match received {
            FirstMessage::Received(message) => result matches Ok(next) && next.message == message
                && next.processor == awaiting.processor,
            FirstMessage::Failed => result matches Err(Error::ConnectionProcessor(text)) && text@
                == "Established connection with device, but failed to receive any messages"@,
            FirstMessage::StreamEnded => result matches Err(Error::ConnectionProcessor(text))
                && text@ == "No connect message received"@,
            FirstMessage::TimedOut => result matches Err(Error::ConnectionProcessor(text)) && text@
                == "No message received for too long"@,
        },
{
}

/// The server is asked to register the device that the message names, at the address of its
/// socket, with the text of the message, and with a sender that reaches the waiting processor.
/// The processor then carries the serial and is otherwise as before. A message that names no
/// device is an error.
pub proof fn law_connect_asks_for_the_device<V>(
    connect: ConnectReceived<V>,
    parsed: Option<MacAddress>,
    result: Result<(AwaitingAck<V>, ProxyConnectionServerReqMsg), Error>,
    text: String,
)
    requires
        call_ensures(ConnectReceived::<V>::on_connect_event, (connect, parsed), result),
        call_ensures(WsMessage::into_text_or_default, (connect.message,), text),
    ensures
        match parsed {
            Some(serial) => result matches Ok((next, req)) && {
                &&& req matches ProxyConnectionServerReqMsg::AddNewConnection(
                    device_mac,
                    addr,
                    mbox_tx,
                    connect_text,
                )
                &&& device_mac == serial
                &&& addr == connect.processor.addr
                &&& processor_channel_halves(mbox_tx, next.mbox_rx)
                &&& connect_text@ == text@
                &&& connect.message matches WsMessage::Text(t) ==> connect_text@ == t@
                &&& next.processor.serial == serial
                &&& next.processor.addr == connect.processor.addr
                &&& next.processor.group_id == connect.processor.group_id
                &&& next.processor.proxy_server == connect.processor.proxy_server
            },
            None => result matches Err(Error::ConnectionProcessor(text)) && text@
                == "Failed to receive connect message"@,
        },
{
}

/// The request that a processor makes is for the device and the sender that it is given.
pub proof fn law_request_is_for_the_device<V>(
    processor: ProxyConnectionProcessor<V>,
    serial: MacAddress,
    message: WsMessage,
    mbox_tx: UnboundedSender<ProxyConnectionProcessorReqMsg>,
    named: ProxyConnectionProcessor<V>,
    req: ProxyConnectionServerReqMsg,
    text: String,
)
    requires
        call_ensures(
            ProxyConnectionProcessor::<V>::request_connection,
            (processor, serial, message, mbox_tx),
            (named, req),
        ),
        call_ensures(WsMessage::into_text_or_default, (message,), text),
    ensures
        req matches ProxyConnectionServerReqMsg::AddNewConnection(
            device_mac,
            addr,
            sender,
            connect_text,
        ) && device_mac == serial && addr == processor.addr && sender == mbox_tx && connect_text@
            == text@,
        named == (ProxyConnectionProcessor { serial, ..processor }),
{
}

/// Only the server's permission establishes a connection, and the group is the one that came
/// with it. Any other reply, and none, are refusals.
pub proof fn law_only_permission_establishes<V>(
    awaiting: AwaitingAck<V>,
    reply: Option<ProxyConnectionProcessorReqMsg>,
    result: Result<ProxyConnectionProcessor<V>, Error>,
)
    requires
        call_ensures(AwaitingAck::<V>::on_reply, (awaiting, reply), result),
    ensures
        match reply {
            Some(ProxyConnectionProcessorReqMsg::AddNewConnectionAck(gid)) => {
                &&& result matches Ok(established)
                &&& established.group_id == gid
                &&& established.serial == awaiting.processor.serial
                &&& established.addr == awaiting.processor.addr
                &&& established.proxy_server == awaiting.processor.proxy_server
            },
            Some(_) => result matches Err(Error::ConnectionProcessor(text)) && text@
                == "Unexpected response from server! Expected: ACK/NOT ACK"@,
            None => result matches Err(Error::ConnectionProcessor(text)) && text@
                == "WebSocket connection declined"@,
        },
{
}

} // verus!
