//! The registry of device connections.
use crate::channel::{processor_channel_closes, processor_messages, send_to_processor, sending};
use crate::mac_address::{law_key_identifies_device, MacAddress};
use crate::messages::{ProxyConnectionProcessorReqMsg, ProxyConnectionServerReqMsg};
use std::collections::HashMap;
use tokio::sync::mpsc::UnboundedSender;
use vstd::prelude::*;

verus! {

/// The order to close that an older connection of a device gets when the device connects again.
#[derive(Debug)]
pub struct DuplicateNotice {
    pub mbox_tx: UnboundedSender<ProxyConnectionProcessorReqMsg>,
    pub msg: ProxyConnectionProcessorReqMsg,
}

impl DuplicateNotice {
    /// Sends the notice: the channel of the older connection takes its message, or the message
    /// comes back, which happens only if that connection stops listening.
    pub fn send(self) -> (result: Result<(), ProxyConnectionProcessorReqMsg>)
        ensures
            match result {
                Ok(_) => processor_messages(self.mbox_tx).contains(self.msg),
                Err(unsent) => unsent == self.msg && processor_channel_closes(self.mbox_tx),
            },
        opens_invariants [ sending(self.mbox_tx, self.msg) ]
    {
        send_to_processor(self.mbox_tx, self.msg)
    }
}

/// What one message did to the registry.
#[derive(Debug)]
pub enum ConnMapChange {
    /// The device's connection is registered. `num_of_connections` counts the connections with
    /// it; `duplicate` is owed to the connection that it replaces.
    Established {
        device_mac: MacAddress,
        num_of_connections: usize,
        duplicate: Option<DuplicateNotice>,
    },
    /// The device's connection is no longer registered. `remaining` is one less than the
    /// connections before; there is no such number if there were none.
    Removed { device_mac: MacAddress, remaining: Option<usize> },
}

/// The registered connections: device key to the sender that reaches the device's processor.
pub type ConnTable = Map<u64, UnboundedSender<ProxyConnectionProcessorReqMsg>>;

/// The table after one message.
pub open spec fn table_after(table: ConnTable, msg: ProxyConnectionServerReqMsg) -> ConnTable {
    match msg {
        ProxyConnectionServerReqMsg::AddNewConnection(device_mac, _, mbox_tx, _) => table.insert(
            device_mac.key(),
            mbox_tx,
        ),
        ProxyConnectionServerReqMsg::ConnectionClosed(device_mac) => table.remove(
            device_mac.key(),
        ),
    }
}

/// The table after a sequence of messages, the first one first.
pub open spec fn table_after_all(
    table: ConnTable,
    msgs: Seq<ProxyConnectionServerReqMsg>,
) -> ConnTable
    decreases msgs.len(),
{
    if msgs.len() == 0 {
        table
    } else {
        table_after(table_after_all(table, msgs.drop_last()), msgs.last())
    }
}

/// What a device that connects again owes its older connection.
pub open spec fn duplicate_in(table: ConnTable, device_mac: MacAddress) -> Option<DuplicateNotice> {
    if table.contains_key(device_mac.key()) {
        Some(
            DuplicateNotice {
                mbox_tx: table[device_mac.key()],
                msg: ProxyConnectionProcessorReqMsg::AddNewConnectionShouldClose,
            },
        )
    } else {
        None
    }
}

/// `change` reports what `msg` does to `table`.
pub open spec fn reports(
    change: ConnMapChange,
    table: ConnTable,
    msg: ProxyConnectionServerReqMsg,
) -> bool {
    match msg {
        ProxyConnectionServerReqMsg::AddNewConnection(mac, _, _, _) => {
            &&& change matches ConnMapChange::Established {
                device_mac,
                num_of_connections,
                duplicate,
            }
            &&& device_mac == mac
            &&& num_of_connections == table_after(table, msg).len()
            &&& duplicate == duplicate_in(table, mac)
        },
        ProxyConnectionServerReqMsg::ConnectionClosed(mac) => {
            &&& change matches ConnMapChange::Removed { device_mac, remaining }
            &&& device_mac == mac
            &&& match remaining {
                Some(n) => n == table.len() - 1,
                None => table.len() == 0,
            }
        },
    }
}

/// `changes` reports, one for one, what `msgs` do in turn, starting from `table`.
pub open spec fn reports_all(
    changes: Seq<ConnMapChange>,
    table: ConnTable,
    msgs: Seq<ProxyConnectionServerReqMsg>,
) -> bool {
    &&& changes.len() == msgs.len()
    &&& forall|i: int|
        0 <= i < msgs.len() ==> reports(
            #[trigger] changes[i],
            table_after_all(table, msgs.take(i)),
            msgs[i],
        )
}

/// The connections of the proxy, at most one per device.
#[derive(Debug)]
pub struct ProxyConnMap {
    map: HashMap<u64, UnboundedSender<ProxyConnectionProcessorReqMsg>>,
}

impl View for ProxyConnMap {
    type V = ConnTable;

    closed spec fn view(&self) -> ConnTable {
        self.map@
    }
}

impl ProxyConnMap {
    /// A registry without connections.
    pub fn new() -> (connmap: Self)
        ensures
            connmap@ == ConnTable::empty(),
    {
        ProxyConnMap { map: HashMap::new() }
    }

    /// Registers the connection of a device in place of any older one, which is owed a notice.
    pub fn add_new_connection(
        &mut self,
        device_mac: MacAddress,
        mbox_tx: UnboundedSender<ProxyConnectionProcessorReqMsg>,
    ) -> (change: ConnMapChange)
        ensures
            final(self)@ == old(self)@.insert(device_mac.key(), mbox_tx),
            change matches ConnMapChange::Established {
                device_mac: mac,
                num_of_connections,
                duplicate,
            } && mac == device_mac && num_of_connections == final(self)@.len() && duplicate
                == duplicate_in(old(self)@, device_mac),
    {
        broadcast use vstd::std_specs::hash::group_hash_axioms;

        let key: u64 = device_mac.to_key();
        let duplicate = match self.map.remove(&key) {
            Some(old_tx) => Some(
                DuplicateNotice {
                    mbox_tx: old_tx,
                    msg: ProxyConnectionProcessorReqMsg::AddNewConnectionShouldClose,
                },
            ),
            None => None,
        };
        self.map.insert(key, mbox_tx);
        assert(self.map@ =~= old(self)@.insert(key, mbox_tx));
        ConnMapChange::Established { device_mac, num_of_connections: self.map.len(), duplicate }
    }

    /// Removes the connection of a device, if there is one.
    pub fn connection_closed(&mut self, device_mac: MacAddress) -> (change: ConnMapChange)
        ensures
            final(self)@ == old(self)@.remove(device_mac.key()),
            change matches ConnMapChange::Removed { device_mac: mac, remaining } && mac == device_mac
                && match remaining {
                Some(n) => n == old(self)@.len() - 1,
                None => old(self)@.len() == 0,
            },
    {
        broadcast use vstd::std_specs::hash::group_hash_axioms;

        let remaining: Option<usize> = self.map.len().checked_sub(1);
        let key: u64 = device_mac.to_key();
        self.map.remove(&key);
        ConnMapChange::Removed { device_mac, remaining }
    }

    /// Carries out one message.
    pub fn apply(&mut self, msg: ProxyConnectionServerReqMsg) -> (change: ConnMapChange)
        ensures
            final(self)@ == table_after(old(self)@, msg),
            reports(change, old(self)@, msg),
    {
        match msg {
            ProxyConnectionServerReqMsg::AddNewConnection(device_mac, _, mbox_tx, _) => {
                self.add_new_connection(device_mac, mbox_tx)
            },
            ProxyConnectionServerReqMsg::ConnectionClosed(device_mac) => self.connection_closed(
                device_mac,
            ),
        }
    }

    /// Carries out a batch of messages from the server's mailbox, the first one first, and
    /// reports what each of them did.
    pub fn process_internal_mbox(&mut self, batch: Vec<ProxyConnectionServerReqMsg>) -> (changes:
        Vec<ConnMapChange>)
        ensures
            final(self)@ == table_after_all(old(self)@, batch@),
            reports_all(changes@, old(self)@, batch@),
    {
        let ghost msgs = batch@;
        let ghost table = self@;
        let mut buf = batch;
        let mut changes: Vec<ConnMapChange> = Vec::new();
        while buf.len() > 0
            invariant
                buf@.len() + changes@.len() == msgs.len(),
                buf@ == msgs.skip(changes@.len() as int),
                self@ == table_after_all(table, msgs.take(changes@.len() as int)),
                reports_all(changes@, table, msgs.take(changes@.len() as int)),
            decreases buf@.len(),
        {
            let ghost done = changes@.len() as int;
            proof {
                assert(msgs.take(done + 1).drop_last() =~= msgs.take(done));
                assert forall|i: int| 0 <= i <= done implies #[trigger] msgs.take(done + 1).take(i)
                    == msgs.take(done).take(i) by {
                    assert(msgs.take(done + 1).take(i) =~= msgs.take(done).take(i));
                }
                assert(msgs.take(done).take(done) =~= msgs.take(done));
            }
            let msg = buf.remove(0);
            let change = self.apply(msg);
            changes.push(change);
            assert(buf@ =~= msgs.skip(done + 1));
        }
        assert(msgs.take(msgs.len() as int) =~= msgs);
        changes
    }
}

/// Only the order of the messages matters, not how they are cut into batches.
pub proof fn law_batches_compose(
    table: ConnTable,
    first: Seq<ProxyConnectionServerReqMsg>,
    second: Seq<ProxyConnectionServerReqMsg>,
)
    ensures
        table_after_all(table, first + second) == table_after_all(
            table_after_all(table, first),
            second,
        ),
    decreases second.len(),
{
    if second.len() == 0 {
        assert(first + second =~= first);
    } else {
        law_batches_compose(table, first, second.drop_last());
        assert((first + second).drop_last() =~= first + second.drop_last());
    }
}

/// What is reported, and so which notices are owed, does not depend on how the messages are cut
/// into batches either.
pub proof fn law_reports_compose(
    table: ConnTable,
    first: Seq<ProxyConnectionServerReqMsg>,
    second: Seq<ProxyConnectionServerReqMsg>,
    first_changes: Seq<ConnMapChange>,
    second_changes: Seq<ConnMapChange>,
)
    requires
        reports_all(first_changes, table, first),
        reports_all(second_changes, table_after_all(table, first), second),
    ensures
        reports_all(first_changes + second_changes, table, first + second),
{
    let msgs = first + second;
    let changes = first_changes + second_changes;
    assert forall|i: int| 0 <= i < msgs.len() implies reports(
        #[trigger] changes[i],
        table_after_all(table, msgs.take(i)),
        msgs[i],
    ) by {
        if i < first.len() {
            assert(msgs.take(i) =~= first.take(i));
            assert(changes[i] == first_changes[i]);
        } else {
            let j = i - first.len();
            assert(msgs.take(i) =~= first + second.take(j));
            law_batches_compose(table, first, second.take(j));
            assert(changes[i] == second_changes[j]);
        }
    }
}

/// Messages about other devices leave a device's connection alone.
pub proof fn law_other_devices_untouched(
    table: ConnTable,
    msgs: Seq<ProxyConnectionServerReqMsg>,
    device_mac: MacAddress,
)
    requires
        forall|i: int| 0 <= i < msgs.len() ==> (#[trigger] msgs[i]).device() != device_mac,
    ensures
        table_after_all(table, msgs).contains_key(device_mac.key()) <==> table.contains_key(
            device_mac.key(),
        ),
        table.contains_key(device_mac.key()) ==> table_after_all(table, msgs)[device_mac.key()]
            == table[device_mac.key()],
    decreases msgs.len(),
{
    if msgs.len() > 0 {
        law_other_devices_untouched(table, msgs.drop_last(), device_mac);
        law_key_identifies_device(msgs.last().device(), device_mac);
        assert(msgs[msgs.len() - 1].device() != device_mac);
    }
}

/// The last message about a device decides: after `AddNewConnection` the device is registered
/// with the sender of that message, after `ConnectionClosed` it is not registered, whichever of
/// its connections sent that.
pub proof fn law_last_message_decides(
    table: ConnTable,
    msgs: Seq<ProxyConnectionServerReqMsg>,
    last: int,
)
    requires
        0 <= last < msgs.len(),
        forall|i: int| last < i < msgs.len() ==> (#[trigger] msgs[i]).device()
            != msgs[last].device(),
    ensures
        match msgs[last] {
            ProxyConnectionServerReqMsg::AddNewConnection(device_mac, _, mbox_tx, _) => {
                &&& table_after_all(table, msgs).contains_key(device_mac.key())
                &&& table_after_all(table, msgs)[device_mac.key()] == mbox_tx
            },
            ProxyConnectionServerReqMsg::ConnectionClosed(device_mac) => {
                !table_after_all(table, msgs).contains_key(device_mac.key())
            },
        },
{
    let upto = msgs.take(last + 1);
    let rest = msgs.skip(last + 1);
    assert(msgs =~= upto + rest);
    law_batches_compose(table, upto, rest);
    assert(upto.last() == msgs[last]);
    law_other_devices_untouched(table_after_all(table, upto), rest, msgs[last].device());
}

/// When a device connects again, the connection that it registered before is told to close.
pub proof fn law_reconnect_closes_previous(
    table: ConnTable,
    msgs: Seq<ProxyConnectionServerReqMsg>,
    changes: Seq<ConnMapChange>,
    earlier: int,
    later: int,
)
    requires
        reports_all(changes, table, msgs),
        0 <= earlier < later < msgs.len(),
        msgs[earlier] is AddNewConnection,
        msgs[later] is AddNewConnection,
        msgs[earlier].device() == msgs[later].device(),
        forall|i: int| earlier < i < later ==> (#[trigger] msgs[i]).device()
            != msgs[later].device(),
    ensures
        changes[later] matches ConnMapChange::Established { duplicate, .. } && duplicate == Some(
            DuplicateNotice {
                mbox_tx: msgs[earlier]->AddNewConnection_2,
                msg: ProxyConnectionProcessorReqMsg::AddNewConnectionShouldClose,
            },
        ),
{
    let before = msgs.take(later);
    assert(before[earlier] == msgs[earlier]);
    law_last_message_decides(table, before, earlier);
    assert(reports(changes[later], table_after_all(table, before), msgs[later]));
}

/// A device that connects with its first message of a batch displaces the connection that it had
/// before the batch, and nothing if it had none.
pub proof fn law_first_connect_displaces_registered(
    table: ConnTable,
    msgs: Seq<ProxyConnectionServerReqMsg>,
    changes: Seq<ConnMapChange>,
    first: int,
)
    requires
        reports_all(changes, table, msgs),
        0 <= first < msgs.len(),
        msgs[first] is AddNewConnection,
        forall|i: int| 0 <= i < first ==> (#[trigger] msgs[i]).device() != msgs[first].device(),
    ensures
        changes[first] matches ConnMapChange::Established { duplicate, .. } && match duplicate {
            Some(notice) => {
                &&& table.contains_key(msgs[first].device().key())
                &&& notice.mbox_tx == table[msgs[first].device().key()]
                &&& notice.msg is AddNewConnectionShouldClose
            },
            None => !table.contains_key(msgs[first].device().key()),
        },
{
    let before = msgs.take(first);
    law_other_devices_untouched(table, before, msgs[first].device());
    assert(reports(changes[first], table_after_all(table, before), msgs[first]));
}

/// A device that connects after its connection was closed displaces nothing.
pub proof fn law_connect_after_close_is_no_duplicate(
    table: ConnTable,
    msgs: Seq<ProxyConnectionServerReqMsg>,
    changes: Seq<ConnMapChange>,
    earlier: int,
    later: int,
)
    requires
        reports_all(changes, table, msgs),
        0 <= earlier < later < msgs.len(),
        msgs[earlier] is ConnectionClosed,
        msgs[later] is AddNewConnection,
        msgs[earlier].device() == msgs[later].device(),
        forall|i: int| earlier < i < later ==> (#[trigger] msgs[i]).device()
            != msgs[later].device(),
    ensures
        changes[later] matches ConnMapChange::Established { duplicate, .. } && duplicate is None,
{
    let before = msgs.take(later);
    assert(before[earlier] == msgs[earlier]);
    law_last_message_decides(table, before, earlier);
    assert(reports(changes[later], table_after_all(table, before), msgs[later]));
}

/// Every registry holds finitely many connections.
pub proof fn law_registry_is_finite(connmap: ProxyConnMap)
    ensures
        connmap@.dom().finite(),
{
    broadcast use vstd::std_specs::hash::group_hash_axioms;

}

/// A device has at most one connection: connecting adds to the number of connections exactly if
/// the device was not registered, and closing takes one away exactly if it was.
pub proof fn law_one_connection_per_device(table: ConnTable, msg: ProxyConnectionServerReqMsg)
    requires
        table.dom().finite(),
    ensures
        table_after(table, msg).dom().finite(),
        match msg {
            ProxyConnectionServerReqMsg::AddNewConnection(device_mac, _, _, _) => {
                table_after(table, msg).len() == table.len() + if table.contains_key(
                    device_mac.key(),
                ) {
                    0int
                } else {
                    1int
                }
            },
            ProxyConnectionServerReqMsg::ConnectionClosed(device_mac) => {
                table_after(table, msg).len() == table.len() - if table.contains_key(
                    device_mac.key(),
                ) {
                    1int
                } else {
                    0int
                }
            },
        },
{
    broadcast use vstd::map_lib::group_map_properties;
}

/// A connection of a device: the device was registered with the sender `mbox_tx` before the
/// message at `at`, be it in the table or by an earlier message.
pub open spec fn was_registered(
    table: ConnTable,
    msgs: Seq<ProxyConnectionServerReqMsg>,
    at: int,
    mbox_tx: UnboundedSender<ProxyConnectionProcessorReqMsg>,
) -> bool {
    ||| table.contains_key(msgs[at].device().key()) && table[msgs[at].device().key()] == mbox_tx
    ||| exists|i: int|
        0 <= i < at && #[trigger] msgs[i] is AddNewConnection && msgs[i].device()
            == msgs[at].device() && msgs[i]->AddNewConnection_2 == mbox_tx
}

/// Where a device is registered, that was before the batch or by a message of the batch.
proof fn lemma_registered_by_some_message(
    table: ConnTable,
    msgs: Seq<ProxyConnectionServerReqMsg>,
    at: int,
)
    requires
        0 <= at < msgs.len(),
        table_after_all(table, msgs.take(at)).contains_key(msgs[at].device().key()),
    ensures
        was_registered(
            table,
            msgs,
            at,
            table_after_all(table, msgs.take(at))[msgs[at].device().key()],
        ),
{
    let device = msgs[at].device();
    lemma_origin(table, msgs.take(at), device);
    let mbox_tx = table_after_all(table, msgs.take(at))[device.key()];
    if !(table.contains_key(device.key()) && table[device.key()] == mbox_tx) {
        let i = choose|i: int|
            0 <= i < at && #[trigger] msgs.take(at)[i] is AddNewConnection && msgs.take(
                at,
            )[i].device() == device && msgs.take(at)[i]->AddNewConnection_2 == mbox_tx;
        assert(msgs[i] == msgs.take(at)[i]);
    }
}

proof fn lemma_origin(
    table: ConnTable,
    msgs: Seq<ProxyConnectionServerReqMsg>,
    device: MacAddress,
)
    requires
        table_after_all(table, msgs).contains_key(device.key()),
    ensures
        ({
            let mbox_tx = table_after_all(table, msgs)[device.key()];
            ||| table.contains_key(device.key()) && table[device.key()] == mbox_tx
            ||| exists|i: int|
                0 <= i < msgs.len() && #[trigger] msgs[i] is AddNewConnection && msgs[i].device()
                    == device && msgs[i]->AddNewConnection_2 == mbox_tx
        }),
    decreases msgs.len(),
{
    if msgs.len() > 0 {
        let earlier = msgs.drop_last();
        law_key_identifies_device(msgs.last().device(), device);
        if msgs.last().device() == device {
            assert(msgs[msgs.len() - 1] is AddNewConnection);
        } else {
            lemma_origin(table, earlier, device);
            let mbox_tx = table_after_all(table, earlier)[device.key()];
            if !(table.contains_key(device.key()) && table[device.key()] == mbox_tx) {
                let i = choose|i: int|
                    0 <= i < earlier.len() && #[trigger] earlier[i] is AddNewConnection
                        && earlier[i].device() == device && earlier[i]->AddNewConnection_2
                        == mbox_tx;
                assert(msgs[i] == earlier[i]);
            }
        }
    }
}

/// A batch owes notices only to connections that it displaces: each goes to a connection that
/// the same device had before, is the order to close, and comes with the new connection. A
/// message that closes a connection owes none.
pub proof fn law_notices_go_to_older_connections(
    connmap: &mut ProxyConnMap,
    batch: Vec<ProxyConnectionServerReqMsg>,
    changes: Vec<ConnMapChange>,
    at: int,
)
    requires
        call_ensures(ProxyConnMap::process_internal_mbox, (connmap, batch), changes),
        0 <= at < batch@.len(),
    ensures
        changes@.len() == batch@.len(),
        changes@[at] is Established <==> batch@[at] is AddNewConnection,
        changes@[at] matches ConnMapChange::Established { duplicate: Some(notice), .. } ==> {
            &&& notice.msg is AddNewConnectionShouldClose
            &&& was_registered(old(connmap)@, batch@, at, notice.mbox_tx)
        },
{
    let before = table_after_all(old(connmap)@, batch@.take(at));
    assert(reports(changes@[at], before, batch@[at]));
    if let ConnMapChange::Established { duplicate: Some(notice), .. } = changes@[at] {
        lemma_registered_by_some_message(old(connmap)@, batch@, at);
    }
}

/// A connection that nobody displaces is left in peace: if it was not registered before the
/// batch, and its device does not connect again after it within the batch, no notice of the
/// batch is addressed to it. So a device that connects for the first time is not turned away.
pub proof fn law_undisplaced_connection_gets_no_notice(
    connmap: &mut ProxyConnMap,
    batch: Vec<ProxyConnectionServerReqMsg>,
    changes: Vec<ConnMapChange>,
    mbox_tx: UnboundedSender<ProxyConnectionProcessorReqMsg>,
)
    requires
        call_ensures(ProxyConnMap::process_internal_mbox, (connmap, batch), changes),
        forall|key: u64|
            old(connmap)@.contains_key(key) ==> #[trigger] old(connmap)@[key] != mbox_tx,
        forall|i: int, j: int|
            0 <= i < j < batch@.len() && #[trigger] batch@[i] is AddNewConnection
                && #[trigger] batch@[j] is AddNewConnection && batch@[i].device()
                == batch@[j].device() ==> batch@[i]->AddNewConnection_2 != mbox_tx,
    ensures
        forall|at: int|
            0 <= at < changes@.len() ==> (#[trigger] changes@[at] matches
                ConnMapChange::Established { duplicate: Some(notice), .. } ==> notice.mbox_tx
                != mbox_tx),
{
    assert forall|at: int| 0 <= at < changes@.len() implies (#[trigger] changes@[at] matches
        ConnMapChange::Established { duplicate: Some(notice), .. } ==> notice.mbox_tx
        != mbox_tx) by {
        law_notices_go_to_older_connections(connmap, batch, changes, at);
    }
}

/// Every device that connects with the batch is registered with the sender of its last
/// connection, if it is not closed again.
pub proof fn law_batch_registers_last_connection(
    connmap: &mut ProxyConnMap,
    batch: Vec<ProxyConnectionServerReqMsg>,
    changes: Vec<ConnMapChange>,
    last: int,
)
    requires
        call_ensures(ProxyConnMap::process_internal_mbox, (connmap, batch), changes),
        0 <= last < batch@.len(),
        forall|i: int| last < i < batch@.len() ==> (#[trigger] batch@[i]).device()
            != batch@[last].device(),
    ensures
        match batch@[last] {
            ProxyConnectionServerReqMsg::AddNewConnection(device_mac, _, mbox_tx, _) => {
                &&& final(connmap)@.contains_key(device_mac.key())
                &&& final(connmap)@[device_mac.key()] == mbox_tx
            },
            ProxyConnectionServerReqMsg::ConnectionClosed(device_mac) => {
                !final(connmap)@.contains_key(device_mac.key())
            },
        },
{
    law_last_message_decides(old(connmap)@, batch@, last);
}

/// A device that the batch does not speak of keeps the connection that it has.
pub proof fn law_batch_leaves_other_devices(
    connmap: &mut ProxyConnMap,
    batch: Vec<ProxyConnectionServerReqMsg>,
    changes: Vec<ConnMapChange>,
    device_mac: MacAddress,
)
    requires
        call_ensures(ProxyConnMap::process_internal_mbox, (connmap, batch), changes),
        forall|i: int| 0 <= i < batch@.len() ==> (#[trigger] batch@[i]).device() != device_mac,
    ensures
        final(connmap)@.contains_key(device_mac.key()) <==> old(connmap)@.contains_key(
            device_mac.key(),
        ),
        old(connmap)@.contains_key(device_mac.key()) ==> final(connmap)@[device_mac.key()]
            == old(connmap)@[device_mac.key()],
{
    law_other_devices_untouched(old(connmap)@, batch@, device_mac);
}

/// Connecting a device: it is registered with its sender, no other device is affected, and the
/// connection that it had, if any, is owed the order to close. The count is that of the
/// connections with it.
pub proof fn law_connect(
    connmap: &mut ProxyConnMap,
    device_mac: MacAddress,
    mbox_tx: UnboundedSender<ProxyConnectionProcessorReqMsg>,
    change: ConnMapChange,
    other: MacAddress,
)
    requires
        call_ensures(ProxyConnMap::add_new_connection, (connmap, device_mac, mbox_tx), change),
        other != device_mac,
    ensures
        final(connmap)@.contains_key(device_mac.key()),
        final(connmap)@[device_mac.key()] == mbox_tx,
        final(connmap)@.contains_key(other.key()) <==> old(connmap)@.contains_key(other.key()),
        old(connmap)@.contains_key(other.key()) ==> final(connmap)@[other.key()] == old(
            connmap,
        )@[other.key()],
        change matches ConnMapChange::Established {
            device_mac: mac,
            num_of_connections,
            duplicate,
        } && mac == device_mac && num_of_connections == final(connmap)@.len() && match duplicate {
            Some(notice) => {
                &&& old(connmap)@.contains_key(device_mac.key())
                &&& notice.mbox_tx == old(connmap)@[device_mac.key()]
                &&& notice.msg is AddNewConnectionShouldClose
            },
            None => !old(connmap)@.contains_key(device_mac.key()),
        },
{
    law_key_identifies_device(device_mac, other);
}

/// Closing a device's connection: it is no longer registered and no other device is affected.
/// The count is one less than the connections there were.
pub proof fn law_close(
    connmap: &mut ProxyConnMap,
    device_mac: MacAddress,
    change: ConnMapChange,
    other: MacAddress,
)
    requires
        call_ensures(ProxyConnMap::connection_closed, (connmap, device_mac), change),
        other != device_mac,
    ensures
        !final(connmap)@.contains_key(device_mac.key()),
        final(connmap)@.contains_key(other.key()) <==> old(connmap)@.contains_key(other.key()),
        old(connmap)@.contains_key(other.key()) ==> final(connmap)@[other.key()] == old(
            connmap,
        )@[other.key()],
        change matches ConnMapChange::Removed { device_mac: mac, remaining } && mac == device_mac
            && match remaining {
            Some(n) => n + 1 == old(connmap)@.len(),
            None => old(connmap)@.len() == 0,
        },
{
    law_key_identifies_device(device_mac, other);
}

/// One message is a batch of its own.
pub proof fn law_message_is_a_batch(
    connmap: &mut ProxyConnMap,
    msg: ProxyConnectionServerReqMsg,
    change: ConnMapChange,
    other: &mut ProxyConnMap,
    batch: Vec<ProxyConnectionServerReqMsg>,
    changes: Vec<ConnMapChange>,
)
    requires
        call_ensures(ProxyConnMap::apply, (connmap, msg), change),
        call_ensures(ProxyConnMap::process_internal_mbox, (other, batch), changes),
        connmap@ == other@,
        batch@ == seq![msg],
    ensures
        final(connmap)@ == final(other)@,
        changes@ == seq![change],
{
    assert(batch@.drop_last() =~= Seq::empty());
    assert(batch@.take(0) =~= Seq::empty());
    assert(table_after_all(other@, batch@.drop_last()) == other@);
    assert(reports(changes@[0], other@, msg));
    assert(changes@ =~= seq![change]);
}

/// The counts that a batch reports: with a new connection the connections there are then, and
/// with a closed one one less than there were.
pub proof fn law_batch_counts(
    connmap: &mut ProxyConnMap,
    batch: Vec<ProxyConnectionServerReqMsg>,
    changes: Vec<ConnMapChange>,
    at: int,
)
    requires
        call_ensures(ProxyConnMap::process_internal_mbox, (connmap, batch), changes),
        0 <= at < batch@.len(),
    ensures
        match changes@[at] {
            ConnMapChange::Established { device_mac, num_of_connections, .. } => {
                &&& device_mac == batch@[at].device()
                &&& num_of_connections == table_after_all(
                    old(connmap)@,
                    batch@.take(at + 1),
                ).len()
            },
            ConnMapChange::Removed { device_mac, remaining } => {
                &&& device_mac == batch@[at].device()
                &&& match remaining {
                    Some(n) => n + 1 == table_after_all(old(connmap)@, batch@.take(at)).len(),
                    None => table_after_all(old(connmap)@, batch@.take(at)).len() == 0,
                }
            },
        },
{
    assert(reports(
        changes@[at],
        table_after_all(old(connmap)@, batch@.take(at)),
        batch@[at],
    ));
    assert(batch@.take(at + 1).drop_last() =~= batch@.take(at));
}

/// A notice that is sent reaches the channel of the older connection as it is; otherwise the
/// same message comes back.
pub proof fn law_notice_is_sent_as_it_is(
    notice: DuplicateNotice,
    result: Result<(), ProxyConnectionProcessorReqMsg>,
)
    requires
        call_ensures(DuplicateNotice::send, (notice,), result),
    ensures
        result is Ok ==> processor_messages(notice.mbox_tx).contains(notice.msg),
        result matches Err(unsent) ==> unsent == notice.msg && processor_channel_closes(
            notice.mbox_tx,
        ),
{
}

} // verus!
