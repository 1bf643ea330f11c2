use cgw_proxy::proxy_connection_processor::{FIRST_MESSAGE_TIMEOUT_MS, WS_ACCEPT_TIMEOUT_MS};
use cgw_proxy::{
    AppArgs, AppCoreLogLevel, AwaitingAck, ConnectReceived, Error, FirstMessage, MacAddress,
    NewProxyConnectionServer, ProxyConnMap, ProxyConnectionProcessor,
    ProxyConnectionProcessorReqMsg, ProxyConnectionServer, ProxyConnectionServerReqMsg,
    ProxyRuntimeType, ProxyRuntimes, ProxyUCentralMessageProcessorState, RuntimeSearch,
    RuntimeSearchStep, SocketAddr, TlsHandshake, ValidatorOutcome, WsAccept, WsCloseFrame,
    WsMessage,
};
use std::str::FromStr;
use std::sync::Arc;
use tokio::runtime::Runtime;

const ADDR: SocketAddr = SocketAddr::V4([192, 0, 2, 7], 50123);
const SERIAL: MacAddress = MacAddress {
    eui: [0x90, 0x3c, 0xb3, 0xbb, 0x1e, 0x04],
};

fn runtime() -> Arc<Runtime> {
    Arc::new(
        tokio::runtime::Builder::new_current_thread()
            .build()
            .expect("a runtime"),
    )
}

fn runtimes() -> ProxyRuntimes {
    ProxyRuntimes {
        wss_rx_tx: runtime(),
        mbox_internal: runtime(),
        mbox_relay: runtime(),
        queue_timeout: runtime(),
    }
}

fn server() -> NewProxyConnectionServer<&'static str> {
    let args = AppArgs {
        cgw_id: 5,
        cgw_group_infras_capacity: 2000,
    };
    ProxyConnectionServer::new(&args, runtimes(), ValidatorOutcome::Created("schemas"))
        .expect("a server")
}

fn server_error<T>(result: Result<T, Error>) -> String {
    match result {
        Err(Error::ConnectionServer(text)) => text,
        _ => panic!("a server error was expected"),
    }
}

fn processor_error<T>(result: Result<T, Error>) -> &'static str {
    match result {
        Err(Error::ConnectionProcessor(text)) => text,
        _ => panic!("a processor error was expected"),
    }
}

fn connect_received(message: WsMessage) -> ConnectReceived<&'static str> {
    ProxyConnectionProcessor::new(server().server, ADDR)
        .start(WsAccept::Accepted)
        .expect("accepted")
        .on_first_message(FirstMessage::Received(message))
        .expect("received")
}

fn awaiting_ack() -> (AwaitingAck<&'static str>, ProxyConnectionServerReqMsg) {
    connect_received(WsMessage::Text(String::from("{}")))
        .on_connect_event(Some(SERIAL))
        .expect("parsed")
}

fn connect_text(message: WsMessage) -> String {
    match connect_received(message).on_connect_event(Some(SERIAL)) {
        Ok((_, ProxyConnectionServerReqMsg::AddNewConnection(_, _, _, text))) => text,
        _ => panic!("a request was expected"),
    }
}

#[test]
fn log_levels_by_name() {
    assert_eq!(AppCoreLogLevel::from_str("debug"), Ok(AppCoreLogLevel::Debug));
    assert_eq!("info".parse::<AppCoreLogLevel>(), Ok(AppCoreLogLevel::Info));
    assert_eq!(AppCoreLogLevel::from_str("Debug"), Err(()));
    assert_eq!(AppCoreLogLevel::from_str("warn"), Err(()));
    assert_eq!(AppCoreLogLevel::from_str(""), Err(()));
}

#[test]
fn message_processor_state_names() {
    assert_eq!(ProxyUCentralMessageProcessorState::Idle.to_string(), "Idle");
    assert_eq!(
        ProxyUCentralMessageProcessorState::ResultPending.to_string(),
        "ResultPending"
    );
}

#[test]
fn runtimes_end_up_in_their_places() {
    let found = [runtime(), runtime(), runtime(), runtime()];
    let order = [
        ProxyRuntimeType::WssRxTx,
        ProxyRuntimeType::MboxInternal,
        ProxyRuntimeType::MboxRelay,
        ProxyRuntimeType::QueueTimeout,
    ];
    let mut search = RuntimeSearch::new();
    for i in 0..3 {
        assert_eq!(search.wanted(), order[i]);
        search = match search.on_lookup(Ok(Some(found[i].clone()))) {
            Ok(RuntimeSearchStep::Next(next)) => next,
            _ => panic!("more runtimes are needed"),
        };
    }
    assert_eq!(search.wanted(), order[3]);
    let Ok(RuntimeSearchStep::Complete(runtimes)) = search.on_lookup(Ok(Some(found[3].clone())))
    else {
        panic!("all runtimes are there");
    };
    assert!(Arc::ptr_eq(&runtimes.wss_rx_tx, &found[0]));
    assert!(Arc::ptr_eq(&runtimes.mbox_internal, &found[1]));
    assert!(Arc::ptr_eq(&runtimes.mbox_relay, &found[2]));
    assert!(Arc::ptr_eq(&runtimes.queue_timeout, &found[3]));
}

#[test]
fn missing_runtime_ends_the_search() {
    assert_eq!(
        server_error(RuntimeSearch::new().on_lookup(Ok(None))),
        "Failed to find runtime type WssRxTx"
    );
    let Ok(RuntimeSearchStep::Next(search)) = RuntimeSearch::new().on_lookup(Ok(Some(runtime())))
    else {
        panic!("more runtimes are needed");
    };
    assert_eq!(
        server_error(search.on_lookup(Ok(None))),
        "Failed to find runtime type WssRxTx"
    );
    assert_eq!(
        server_error(RuntimeSearch::new().on_lookup(Err(String::from("poisoned")))),
        "Failed to get runtime type WssRxTx! Error: poisoned"
    );
}

#[test]
fn new_server_has_its_settings() {
    let made = server();
    assert_eq!(made.server.local_cgw_id, 5);
    assert_eq!(made.server.infras_capacity, 2000);
    assert_eq!(made.server.config_validator, "schemas");
    assert_eq!(made.state.local_shard_partition_key, None);
    assert_eq!(made.state.last_update_timestamp, 0);
}

#[test]
fn new_server_needs_validators() {
    let args = AppArgs {
        cgw_id: 0,
        cgw_group_infras_capacity: 0,
    };
    let failed: ValidatorOutcome<()> = ValidatorOutcome::CreateFailed(String::from("no schema"));
    assert_eq!(
        server_error(ProxyConnectionServer::new(&args, runtimes(), failed)),
        "Can't create CGW Connection server: Config validator create failed: no schema"
    );
    let lost: ValidatorOutcome<()> = ValidatorOutcome::TaskFailed(String::from("task panicked"));
    assert_eq!(
        server_error(ProxyConnectionServer::new(&args, runtimes(), lost)),
        "Failed to retrieve json config validators! Error: task panicked"
    );
}

#[test]
fn enqueued_messages_arrive_in_the_mailbox() {
    let mut made = server();
    let req = ProxyConnectionServerReqMsg::ConnectionClosed(SERIAL);
    assert!(made
        .server
        .enqueue_mbox_message_to_proxy_server(req)
        .is_ok());
    assert!(matches!(
        made.mbox_internal_rx.try_recv(),
        Ok(ProxyConnectionServerReqMsg::ConnectionClosed(SERIAL))
    ));
}

#[test]
fn enqueued_message_comes_back_without_a_mailbox() {
    let made = server();
    drop(made.mbox_internal_rx);
    let req = ProxyConnectionServerReqMsg::ConnectionClosed(SERIAL);
    assert!(matches!(
        made.server.enqueue_mbox_message_to_proxy_server(req),
        Err(ProxyConnectionServerReqMsg::ConnectionClosed(SERIAL))
    ));
}

#[test]
fn only_named_devices_get_a_processor() {
    let server = server().server;
    let addr = SocketAddr::V6([1; 16], 443, 2, 3);
    assert!(server
        .clone()
        .ack_connection(TlsHandshake::Failed, addr)
        .is_none());
    assert!(server
        .clone()
        .ack_connection(TlsHandshake::NoClientCn, addr)
        .is_none());
    let handshake = TlsHandshake::Accepted { client_cn: SERIAL };
    let processor = server
        .clone()
        .ack_connection(handshake, addr)
        .expect("a processor");
    assert!(Arc::ptr_eq(&processor.proxy_server, &server));
    assert_eq!(processor.serial.eui, [0; 6]);
    assert_eq!(processor.addr, addr);
    assert_eq!(processor.group_id, 0);
}

#[test]
fn handshake_errors() {
    let processor = || ProxyConnectionProcessor::new(server().server, ADDR);
    assert_eq!(
        processor_error(processor().start(WsAccept::Failed)),
        "Failed to accept TLS stream!"
    );
    assert_eq!(
        processor_error(processor().start(WsAccept::TimedOut)),
        "Failed to accept TLS stream for too long"
    );
    assert_eq!(WS_ACCEPT_TIMEOUT_MS, 15000);
}

#[test]
fn first_message_errors() {
    let awaiting = || {
        ProxyConnectionProcessor::new(server().server, ADDR)
            .start(WsAccept::Accepted)
            .expect("accepted")
    };
    assert_eq!(
        processor_error(awaiting().on_first_message(FirstMessage::StreamEnded)),
        "No connect message received"
    );
    assert_eq!(
        processor_error(awaiting().on_first_message(FirstMessage::TimedOut)),
        "No message received for too long"
    );
    assert_eq!(
        processor_error(awaiting().on_first_message(FirstMessage::Failed)),
        "Established connection with device, but failed to receive any messages"
    );
    assert_eq!(FIRST_MESSAGE_TIMEOUT_MS, 30000);
}

#[test]
fn other_messages_are_no_connect() {
    let connect = connect_received(WsMessage::Ping(vec![1, 2]));
    assert_eq!(
        processor_error(connect.on_connect_event(None)),
        "Failed to receive connect message"
    );
}

#[test]
fn connect_makes_the_request() {
    let (awaiting, req) = awaiting_ack();
    assert_eq!(awaiting.processor.serial, SERIAL);
    assert_eq!(awaiting.processor.group_id, 0);
    match req {
        ProxyConnectionServerReqMsg::AddNewConnection(serial, addr, _, text) => {
            assert_eq!(serial, SERIAL);
            assert_eq!(addr, ADDR);
            assert_eq!(text, "{}");
        }
        _ => panic!("a request was expected"),
    }
}

#[test]
fn request_carries_the_text_of_any_message() {
    assert_eq!(connect_text(WsMessage::Text(String::from("grün"))), "grün");
    assert_eq!(connect_text(WsMessage::Binary(vec![0x67, 0xc3, 0xbc])), "gü");
    assert_eq!(connect_text(WsMessage::Binary(vec![0x67, 0xc3])), "");
    assert_eq!(connect_text(WsMessage::Ping(vec![0x70])), "p");
    assert_eq!(connect_text(WsMessage::Pong(vec![0xff])), "");
    assert_eq!(connect_text(WsMessage::Frame(vec![0x66, 0x21])), "f!");
    assert_eq!(connect_text(WsMessage::Frame(vec![0xed, 0xa0, 0x80])), "");
    assert_eq!(connect_text(WsMessage::Close(None)), "");
    let frame = WsCloseFrame {
        code: 1000,
        reason: String::from("bye"),
    };
    assert_eq!(connect_text(WsMessage::Close(Some(frame))), "bye");
}

#[test]
fn permission_establishes_the_connection() {
    let (mut awaiting, req) = awaiting_ack();
    let ProxyConnectionServerReqMsg::AddNewConnection(_, _, tx, _) = req else {
        panic!("a request was expected");
    };
    tx.send(ProxyConnectionProcessorReqMsg::AddNewConnectionAck(42))
        .expect("the processor listens");
    let reply = awaiting.mbox_rx.try_recv().ok();
    let processor = awaiting.on_reply(reply).expect("permitted");
    assert_eq!(processor.group_id, 42);
    assert_eq!(processor.serial, SERIAL);
    assert_eq!(processor.addr, ADDR);
}

#[test]
fn other_replies_are_refusals() {
    let unexpected = "Unexpected response from server! Expected: ACK/NOT ACK";
    for reply in [
        ProxyConnectionProcessorReqMsg::AddNewConnectionShouldClose,
        ProxyConnectionProcessorReqMsg::ForeignConnection((String::from("cgw-2"), 15051)),
        ProxyConnectionProcessorReqMsg::GroupIdChanged(1),
    ] {
        assert_eq!(
            processor_error(awaiting_ack().0.on_reply(Some(reply))),
            unexpected
        );
    }
    assert_eq!(
        processor_error(awaiting_ack().0.on_reply(None)),
        "WebSocket connection declined"
    );
}

#[test]
fn displaced_connection_gives_up() {
    let mut map = ProxyConnMap::new();
    let (mut older, older_req) = awaiting_ack();
    let (_newer, newer_req) = awaiting_ack();
    map.apply(older_req);
    let change = map.apply(newer_req);
    let cgw_proxy::ConnMapChange::Established {
        duplicate: Some(notice),
        ..
    } = change
    else {
        panic!("a duplicate was expected");
    };
    notice.send().expect("the older connection listens");
    let reply = older.mbox_rx.try_recv().ok();
    assert_eq!(
        processor_error(older.on_reply(reply)),
        "Unexpected response from server! Expected: ACK/NOT ACK"
    );
}
