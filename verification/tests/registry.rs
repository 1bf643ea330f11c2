use cgw_proxy::internal_mbox::{MBOX_BATCH_SIZE, MBOX_BUF_CAPACITY, MBOX_READ_TIMEOUT_MS};
use cgw_proxy::{
    ConnMapChange, InternalMbox, MacAddress, ProxyConnMap, ProxyConnectionProcessorReqMsg,
    ProxyConnectionServerReqMsg, SocketAddr,
};
use tokio::sync::mpsc::{unbounded_channel, UnboundedReceiver};

type Reply = UnboundedReceiver<ProxyConnectionProcessorReqMsg>;

fn device(last: u8) -> MacAddress {
    MacAddress {
        eui: [0x02, 0x00, 0x00, 0x00, 0x00, last],
    }
}

fn connect(last: u8) -> (ProxyConnectionServerReqMsg, Reply) {
    let (tx, rx) = unbounded_channel();
    let addr = SocketAddr::V4([10, 0, 0, last], 4000);
    let msg =
        ProxyConnectionServerReqMsg::AddNewConnection(device(last), addr, tx, String::from("hi"));
    (msg, rx)
}

fn close(last: u8) -> ProxyConnectionServerReqMsg {
    ProxyConnectionServerReqMsg::ConnectionClosed(device(last))
}

/// The count of connections that a change reports, and whether a duplicate was displaced.
fn summary(change: &ConnMapChange) -> (u8, Option<usize>, bool) {
    match change {
        ConnMapChange::Established {
            device_mac,
            num_of_connections,
            duplicate,
        } => (
            device_mac.eui[5],
            Some(*num_of_connections),
            duplicate.is_some(),
        ),
        ConnMapChange::Removed {
            device_mac,
            remaining,
        } => (device_mac.eui[5], *remaining, false),
    }
}

#[test]
fn keys_are_big_endian_and_distinct() {
    let mac = MacAddress {
        eui: [0x12, 0x34, 0x56, 0xab, 0xcd, 0xef],
    };
    assert_eq!(mac.to_key(), 0x1234_56ab_cdef);
    let other = MacAddress {
        eui: [0x12, 0x34, 0x56, 0xab, 0xef, 0xcd],
    };
    assert_ne!(mac.to_key(), other.to_key());
    assert_eq!(MacAddress { eui: [0xff; 6] }.to_key(), 0xffff_ffff_ffff);
}

#[test]
fn default_address_is_all_zero() {
    assert_eq!(MacAddress::default().eui, [0, 0, 0, 0, 0, 0]);
}

#[test]
fn unique_connections_are_counted() {
    let mut map = ProxyConnMap::new();
    let (first, _rx1) = connect(1);
    let (second, _rx2) = connect(2);
    assert_eq!(summary(&map.apply(first)), (1, Some(1), false));
    assert_eq!(summary(&map.apply(second)), (2, Some(2), false));
}

#[test]
fn reconnect_tells_the_older_connection_to_close() {
    let mut map = ProxyConnMap::new();
    let (first, mut rx1) = connect(1);
    let (second, mut rx2) = connect(1);
    map.apply(first);
    let change = map.apply(second);
    assert_eq!(summary(&change), (1, Some(1), true));
    let ConnMapChange::Established {
        duplicate: Some(notice),
        ..
    } = change
    else {
        panic!("a duplicate was expected");
    };
    assert!(notice.send().is_ok());
    assert!(matches!(
        rx1.try_recv(),
        Ok(ProxyConnectionProcessorReqMsg::AddNewConnectionShouldClose)
    ));
    assert!(rx2.try_recv().is_err());
}

#[test]
fn notice_to_a_vanished_connection_comes_back() {
    let mut map = ProxyConnMap::new();
    let (first, rx1) = connect(1);
    let (second, _rx2) = connect(1);
    map.apply(first);
    drop(rx1);
    let ConnMapChange::Established {
        duplicate: Some(notice),
        ..
    } = map.apply(second)
    else {
        panic!("a duplicate was expected");
    };
    assert!(matches!(
        notice.send(),
        Err(ProxyConnectionProcessorReqMsg::AddNewConnectionShouldClose)
    ));
}

#[test]
fn close_removes_and_drops_the_sender() {
    let mut map = ProxyConnMap::new();
    let (first, mut rx1) = connect(1);
    let (second, _rx2) = connect(2);
    map.apply(first);
    map.apply(second);
    assert_eq!(summary(&map.apply(close(1))), (1, Some(1), false));
    assert!(matches!(
        rx1.try_recv(),
        Err(tokio::sync::mpsc::error::TryRecvError::Disconnected)
    ));
    let (again, _rx3) = connect(1);
    assert_eq!(summary(&map.apply(again)), (1, Some(2), false));
}

#[test]
fn close_of_an_unknown_device_changes_nothing() {
    let mut map = ProxyConnMap::new();
    assert_eq!(summary(&map.apply(close(9))), (9, None, false));
    let (first, mut rx1) = connect(1);
    map.apply(first);
    assert_eq!(summary(&map.connection_closed(device(9))), (9, Some(0), false));
    assert!(matches!(
        rx1.try_recv(),
        Err(tokio::sync::mpsc::error::TryRecvError::Empty)
    ));
}

#[test]
fn batch_is_carried_out_in_order() {
    let mut map = ProxyConnMap::new();
    let (a1, _r1) = connect(1);
    let (a2, _r2) = connect(1);
    let (a3, _r3) = connect(1);
    let (b1, _r4) = connect(2);
    let changes = map.process_internal_mbox(vec![a1, b1, a2, close(1), a3, close(2)]);
    let reported: Vec<_> = changes.iter().map(summary).collect();
    assert_eq!(
        reported,
        vec![
            (1, Some(1), false),
            (2, Some(2), false),
            (1, Some(2), true),
            (1, Some(1), false),
            (1, Some(2), false),
            (2, Some(1), false),
        ]
    );
}

#[test]
fn batches_compose() {
    let mut whole = ProxyConnMap::new();
    let mut parts = ProxyConnMap::new();
    let script = |map: &mut ProxyConnMap, cut: usize| {
        let mut rest: Vec<_> = vec![
            connect(1).0,
            connect(2).0,
            connect(1).0,
            close(2),
            connect(3).0,
        ];
        let tail = rest.split_off(cut);
        let mut changes = map.process_internal_mbox(rest);
        changes.extend(map.process_internal_mbox(tail));
        changes.iter().map(summary).collect::<Vec<_>>()
    };
    assert_eq!(script(&mut whole, 5), script(&mut parts, 2));
    assert_eq!(
        summary(&whole.apply(close(1))),
        summary(&parts.apply(close(1)))
    );
}

#[test]
fn reconnect_in_a_later_batch_displaces() {
    let mut map = ProxyConnMap::new();
    let (older, mut rx1) = connect(1);
    map.process_internal_mbox(vec![older, connect(2).0]);
    let mut changes = map.process_internal_mbox(vec![close(2), connect(1).0]);
    assert_eq!(summary(&changes[0]), (2, Some(1), false));
    assert_eq!(summary(&changes[1]), (1, Some(1), true));
    if let Some(ConnMapChange::Established {
        duplicate: Some(notice),
        ..
    }) = changes.pop()
    {
        assert!(notice.send().is_ok());
    }
    assert!(matches!(
        rx1.try_recv(),
        Ok(ProxyConnectionProcessorReqMsg::AddNewConnectionShouldClose)
    ));
}

#[test]
fn empty_batch_changes_nothing() {
    let mut map = ProxyConnMap::new();
    assert!(map.process_internal_mbox(Vec::new()).is_empty());
    assert_eq!(summary(&map.apply(connect(1).0)), (1, Some(1), false));
}

#[test]
fn idle_mailbox_keeps_waiting() {
    let mut mbox = InternalMbox::new();
    assert_eq!(mbox.read_limit(), 1000);
    assert!(mbox.on_read(Vec::new()).is_none());
    assert_eq!(mbox.read_limit(), 1000);
}

#[test]
fn small_batch_waits_for_an_empty_read() {
    let mut mbox = InternalMbox::new();
    assert!(mbox.on_read(vec![close(1)]).is_none());
    assert!(mbox.on_read(vec![close(2), close(3)]).is_none());
    assert_eq!(mbox.read_limit(), 997);
    let batch = mbox.on_read(Vec::new()).expect("the batch is due");
    let devices: Vec<u8> = batch
        .iter()
        .map(|msg| match msg {
            ProxyConnectionServerReqMsg::ConnectionClosed(mac) => mac.eui[5],
            ProxyConnectionServerReqMsg::AddNewConnection(mac, ..) => mac.eui[5],
        })
        .collect();
    assert_eq!(devices, vec![1, 2, 3]);
    assert_eq!(mbox.read_limit(), 1000);
}

#[test]
fn full_batch_is_due_at_once() {
    let mut mbox = InternalMbox::new();
    let many = |n: usize| (0..n).map(|i| close(i as u8)).collect::<Vec<_>>();
    assert!(mbox.on_read(many(99)).is_none());
    assert_eq!(mbox.read_limit(), 901);
    assert_eq!(mbox.on_read(many(1)).map(|b| b.len()), Some(100));
    assert_eq!(mbox.on_read(many(100)).map(|b| b.len()), Some(100));
    assert!(mbox.on_read(many(99)).is_none());
    let limit = mbox.read_limit();
    assert_eq!(
        mbox.on_read(many(limit)).map(|b| b.len()),
        Some(MBOX_BUF_CAPACITY)
    );
}

#[test]
fn mailbox_settings() {
    assert_eq!(MBOX_BUF_CAPACITY, 1000);
    assert_eq!(MBOX_BATCH_SIZE, 100);
    assert_eq!(MBOX_READ_TIMEOUT_MS, 10);
}

#[test]
fn batching_is_transparent() {
    let script = || {
        (0..250u32)
            .map(|i| {
                let last = (i % 7) as u8;
                if i % 3 == 2 {
                    close(last)
                } else {
                    connect(last).0
                }
            })
            .collect::<Vec<_>>()
    };
    let mut plain = ProxyConnMap::new();
    let expected: Vec<_> = script().into_iter().map(|m| summary(&plain.apply(m))).collect();

    let mut map = ProxyConnMap::new();
    let mut mbox = InternalMbox::new();
    let mut reported = Vec::new();
    let mut msgs = script();
    let mut size = 1;
    loop {
        let rest = msgs.split_off(size.min(msgs.len()));
        let read = std::mem::replace(&mut msgs, rest);
        let done = read.is_empty();
        if let Some(batch) = mbox.on_read(read) {
            reported.extend(map.process_internal_mbox(batch).iter().map(summary));
        }
        if done {
            break;
        }
        size = size * 2 + 1;
    }
    assert_eq!(reported, expected);
}

#[test]
fn cloned_messages_are_equal() {
    let msgs = vec![
        ProxyConnectionProcessorReqMsg::AddNewConnectionAck(3),
        ProxyConnectionProcessorReqMsg::AddNewConnectionShouldClose,
        ProxyConnectionProcessorReqMsg::ForeignConnection((String::from("cgw-2"), 15051)),
        ProxyConnectionProcessorReqMsg::GroupIdChanged(-4),
    ];
    for msg in &msgs {
        assert_eq!(format!("{:?}", msg.clone()), format!("{:?}", msg));
    }
}
