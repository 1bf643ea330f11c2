//! The server's mailbox: messages are collected into batches before they are carried out.
use crate::messages::ProxyConnectionServerReqMsg;
use crate::proxy_conn_map::{
    law_batches_compose, law_reports_compose, reports_all, table_after_all, ConnMapChange, ConnTable,
};
use vstd::prelude::*;

verus! {

/// The most messages that a batch holds.
pub const MBOX_BUF_CAPACITY: usize = 1000;

/// With this many messages a batch is carried out although more may be waiting.
pub const MBOX_BATCH_SIZE: usize = 100;

/// How long to wait for a message before a read counts as empty, in milliseconds.
pub const MBOX_READ_TIMEOUT_MS: u64 = 10;

/// Whether the messages collected so far are carried out after a read that brought `received`
/// of them and made them `total`: a read that brought something is followed by another one
/// until the batch is large enough, and an empty read ends any batch that has begun.
pub open spec fn batch_ready(received: nat, total: nat) -> bool {
    if received >= 1 {
        total >= MBOX_BATCH_SIZE
    } else {
        total >= 1
    }
}

/// Messages that have been read from the mailbox and not carried out yet.
#[derive(Debug)]
pub struct InternalMbox {
    buf: Vec<ProxyConnectionServerReqMsg>,
}

impl View for InternalMbox {
    type V = Seq<ProxyConnectionServerReqMsg>;

    closed spec fn view(&self) -> Seq<ProxyConnectionServerReqMsg> {
        self.buf@
    }
}

impl InternalMbox {
    #[verifier::type_invariant]
    spec fn inv(self) -> bool {
        self.buf@.len() < MBOX_BATCH_SIZE
    }

    /// A mailbox from which nothing has been read.
    pub fn new() -> (mbox: Self)
        ensures
            mbox@ == Seq::<ProxyConnectionServerReqMsg>::empty(),
    {
        InternalMbox { buf: Vec::new() }
    }

    /// The most messages that the next read may bring.
    pub fn read_limit(&self) -> (limit: usize)
        ensures
            limit == MBOX_BUF_CAPACITY - self@.len(),
            limit > MBOX_BUF_CAPACITY - MBOX_BATCH_SIZE,
    {
        proof {
            use_type_invariant(self);
        }
        MBOX_BUF_CAPACITY - self.buf.len()
    }

    /// Takes in what a read brought, nothing if it timed out. Gives the batch to carry out, or
    /// `None` if the mailbox is to be read again first.
    pub fn on_read(&mut self, received: Vec<ProxyConnectionServerReqMsg>) -> (batch: Option<
        Vec<ProxyConnectionServerReqMsg>,
    >)
        ensures
            match batch {
                Some(msgs) => {
                    &&& batch_ready(received@.len(), old(self)@.len() + received@.len())
                    &&& msgs@ == old(self)@ + received@
                    &&& final(self)@ == Seq::<ProxyConnectionServerReqMsg>::empty()
                },
                None => {
                    &&& !batch_ready(received@.len(), old(self)@.len() + received@.len())
                    &&& final(self)@ == old(self)@ + received@
                },
            },
            final(self)@.len() < MBOX_BATCH_SIZE,
    {
        proof {
            use_type_invariant(&*self);
        }
        let mut received = received;
        let rd_num: usize = received.len();
        let mut buf: Vec<ProxyConnectionServerReqMsg> = Vec::new();
        std::mem::swap(&mut buf, &mut self.buf);
        buf.append(&mut received);
        let num_of_msg_read: usize = buf.len();
        if rd_num >= 1 {
            if num_of_msg_read < MBOX_BATCH_SIZE {
                self.buf = buf;
                return None;
            }
        } else if num_of_msg_read == 0 {
            return None;
        }
        Some(buf)
    }
}

/// What a sequence of reads leaves: the batches to carry out, in order, and the messages that
/// are still collected.
pub open spec fn after_reads(
    pending: Seq<ProxyConnectionServerReqMsg>,
    reads: Seq<Seq<ProxyConnectionServerReqMsg>>,
) -> (Seq<Seq<ProxyConnectionServerReqMsg>>, Seq<ProxyConnectionServerReqMsg>)
    decreases reads.len(),
{
    if reads.len() == 0 {
        (Seq::empty(), pending)
    } else {
        let (batches, collected) = after_reads(pending, reads.drop_last());
        let total = collected + reads.last();
        if batch_ready(reads.last().len(), total.len()) {
            (batches.push(total), Seq::empty())
        } else {
            (batches, total)
        }
    }
}

/// The table after a sequence of batches.
pub open spec fn table_after_batches(
    table: ConnTable,
    batches: Seq<Seq<ProxyConnectionServerReqMsg>>,
) -> ConnTable
    decreases batches.len(),
{
    if batches.len() == 0 {
        table
    } else {
        table_after_all(table_after_batches(table, batches.drop_last()), batches.last())
    }
}

/// Batching neither loses, repeats nor reorders a message: the batches and the messages still
/// collected are together the messages that were read.
pub proof fn law_batches_keep_all_messages(
    pending: Seq<ProxyConnectionServerReqMsg>,
    reads: Seq<Seq<ProxyConnectionServerReqMsg>>,
)
    ensures
        after_reads(pending, reads).0.flatten() + after_reads(pending, reads).1 == pending
            + reads.flatten(),
    decreases reads.len(),
{
    if reads.len() == 0 {
        assert(pending + reads.flatten() =~= pending);
    } else {
        law_batches_keep_all_messages(pending, reads.drop_last());
        let (batches, collected) = after_reads(pending, reads.drop_last());
        lemma_flatten_last(reads);
        assert(batches.flatten() + (collected + reads.last()) =~= (batches.flatten() + collected)
            + reads.last());
        assert((pending + reads.drop_last().flatten()) + reads.last() =~= pending + (
        reads.drop_last().flatten() + reads.last()));
        let total = collected + reads.last();
        if batch_ready(reads.last().len(), total.len()) {
            lemma_flatten_last(batches.push(total));
            assert(batches.push(total).drop_last() =~= batches);
            assert((batches.flatten() + total) + Seq::empty() =~= batches.flatten() + total);
        }
    }
}

/// If no read brings more than its limit, no batch exceeds the capacity. No batch is empty, and
/// whenever the mailbox is read, fewer messages are collected than make a full batch.
pub proof fn law_batches_stay_within_capacity(
    pending: Seq<ProxyConnectionServerReqMsg>,
    reads: Seq<Seq<ProxyConnectionServerReqMsg>>,
)
    requires
        pending.len() < MBOX_BATCH_SIZE,
        forall|i: int|
            0 <= i < reads.len() ==> (#[trigger] reads[i]).len() <= MBOX_BUF_CAPACITY
                - after_reads(pending, reads.take(i)).1.len(),
    ensures
        forall|i: int|
            0 <= i < after_reads(pending, reads).0.len() ==> 1 <= (#[trigger] after_reads(
                pending,
                reads,
            ).0[i]).len() <= MBOX_BUF_CAPACITY,
        after_reads(pending, reads).1.len() < MBOX_BATCH_SIZE,
    decreases reads.len(),
{
    if reads.len() > 0 {
        let earlier = reads.drop_last();
        assert forall|i: int| 0 <= i < earlier.len() implies (#[trigger] earlier[i]).len()
            <= MBOX_BUF_CAPACITY - after_reads(pending, earlier.take(i)).1.len() by {
            assert(earlier[i] == reads[i]);
            assert(earlier.take(i) =~= reads.take(i));
        }
        law_batches_stay_within_capacity(pending, earlier);
        assert(reads.take(reads.len() - 1) =~= earlier);
        assert(reads[reads.len() - 1].len() <= MBOX_BUF_CAPACITY - after_reads(
            pending,
            earlier,
        ).1.len());
    }
}

/// Batching is invisible in the registry: once every batch and the messages still collected
/// have been carried out, the table is as if the messages had been carried out as they came.
pub proof fn law_batching_is_transparent(
    table: ConnTable,
    pending: Seq<ProxyConnectionServerReqMsg>,
    reads: Seq<Seq<ProxyConnectionServerReqMsg>>,
)
    ensures
        table_after_all(
            table_after_batches(table, after_reads(pending, reads).0),
            after_reads(pending, reads).1,
        ) == table_after_all(table, pending + reads.flatten()),
{
    let (batches, collected) = after_reads(pending, reads);
    law_batches_keep_all_messages(pending, reads);
    lemma_batches_flatten(table, batches);
    law_batches_compose(table, batches.flatten(), collected);
}

/// Batching is invisible in the reports as well: those of the batches, one after the other, are
/// the reports on the messages as they came. So the same notices are owed, in the same order.
pub proof fn law_batching_keeps_reports(
    table: ConnTable,
    batches: Seq<Seq<ProxyConnectionServerReqMsg>>,
    changes: Seq<Seq<ConnMapChange>>,
)
    requires
        changes.len() == batches.len(),
        forall|i: int|
            0 <= i < batches.len() ==> reports_all(
                #[trigger] changes[i],
                table_after_batches(table, batches.take(i)),
                batches[i],
            ),
    ensures
        reports_all(changes.flatten(), table, batches.flatten()),
    decreases batches.len(),
{
    if batches.len() > 0 {
        let earlier = batches.drop_last();
        let earlier_changes = changes.drop_last();
        assert forall|i: int| 0 <= i < earlier.len() implies reports_all(
            #[trigger] earlier_changes[i],
            table_after_batches(table, earlier.take(i)),
            earlier[i],
        ) by {
            assert(earlier.take(i) =~= batches.take(i));
            assert(earlier_changes[i] == changes[i]);
        }
        law_batching_keeps_reports(table, earlier, earlier_changes);
        lemma_batches_flatten(table, earlier);
        lemma_flatten_last(batches);
        lemma_flatten_last(changes);
        assert(batches.take(batches.len() - 1) =~= earlier);
        assert(reports_all(
            changes[changes.len() - 1],
            table_after_batches(table, earlier),
            batches.last(),
        ));
        law_reports_compose(
            table,
            earlier.flatten(),
            batches.last(),
            earlier_changes.flatten(),
            changes.last(),
        );
    }
}

proof fn lemma_flatten_last<A>(s: Seq<Seq<A>>)
    requires
        s.len() > 0,
    ensures
        s.flatten() == s.drop_last().flatten() + s.last(),
{
    s.lemma_flatten_and_flatten_alt_are_equivalent();
    s.drop_last().lemma_flatten_and_flatten_alt_are_equivalent();
}

proof fn lemma_batches_flatten(
    table: ConnTable,
    batches: Seq<Seq<ProxyConnectionServerReqMsg>>,
)
    ensures
        table_after_batches(table, batches) == table_after_all(table, batches.flatten()),
    decreases batches.len(),
{
    if batches.len() > 0 {
        lemma_batches_flatten(table, batches.drop_last());
        lemma_flatten_last(batches);
        law_batches_compose(table, batches.drop_last().flatten(), batches.last());
    }
}

/// An empty read leaves nothing collected: whatever was pending is the batch, and there is a
/// batch exactly if anything was pending.
pub proof fn law_empty_read_carries_out_everything(
    mbox: &mut InternalMbox,
    received: Vec<ProxyConnectionServerReqMsg>,
    batch: Option<Vec<ProxyConnectionServerReqMsg>>,
)
    requires
        call_ensures(InternalMbox::on_read, (mbox, received), batch),
        received@.len() == 0,
    ensures
        final(mbox)@.len() == 0,
        batch is Some <==> old(mbox)@.len() > 0,
        batch matches Some(msgs) ==> msgs@ == old(mbox)@,
{
    if let Some(msgs) = batch {
        assert(msgs@ =~= old(mbox)@);
    }
}

/// A read that brings something is followed by a batch exactly if the messages then fill one.
pub proof fn law_full_batch_is_carried_out(
    mbox: &mut InternalMbox,
    received: Vec<ProxyConnectionServerReqMsg>,
    batch: Option<Vec<ProxyConnectionServerReqMsg>>,
)
    requires
        call_ensures(InternalMbox::on_read, (mbox, received), batch),
        received@.len() > 0,
    ensures
        batch is Some <==> old(mbox)@.len() + received@.len() >= MBOX_BATCH_SIZE,
        batch matches Some(msgs) ==> msgs@ == old(mbox)@ + received@ && final(mbox)@.len() == 0,
        batch is None ==> final(mbox)@ == old(mbox)@ + received@,
{
}

/// What two reads bring is carried out in full and in order once the second is empty.
pub proof fn law_two_reads_carry_out_everything(
    first: &mut InternalMbox,
    received: Vec<ProxyConnectionServerReqMsg>,
    first_batch: Option<Vec<ProxyConnectionServerReqMsg>>,
    second: &mut InternalMbox,
    nothing: Vec<ProxyConnectionServerReqMsg>,
    second_batch: Option<Vec<ProxyConnectionServerReqMsg>>,
)
    requires
        call_ensures(InternalMbox::on_read, (first, received), first_batch),
        *second == *final(first),
        nothing@.len() == 0,
        call_ensures(InternalMbox::on_read, (second, nothing), second_batch),
    ensures
        final(second)@.len() == 0,
        ({
            let given1 = match first_batch {
                Some(msgs) => msgs@,
                None => Seq::empty(),
            };
            let given2 = match second_batch {
                Some(msgs) => msgs@,
                None => Seq::empty(),
            };
            given1 + given2 == old(first)@ + received@
        }),
{
    law_empty_read_carries_out_everything(second, nothing, second_batch);
    let given1 = match first_batch {
        Some(msgs) => msgs@,
        None => Seq::empty(),
    };
    let given2 = match second_batch {
        Some(msgs) => msgs@,
        None => Seq::empty(),
    };
    assert(given1 + given2 =~= old(first)@ + received@);
}

/// A read may bring as many messages as make up the capacity with those that are collected.
pub proof fn law_read_fills_up_to_capacity(mbox: InternalMbox, limit: usize)
    requires
        call_ensures(InternalMbox::read_limit, (&mbox,), limit),
    ensures
        limit + mbox@.len() == MBOX_BUF_CAPACITY,
{
}

} // verus!
