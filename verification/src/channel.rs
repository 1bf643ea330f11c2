//! The tokio channels that connection tasks and the server exchange messages over.
use crate::messages::{ProxyConnectionProcessorReqMsg, ProxyConnectionServerReqMsg};
use tokio::sync::mpsc::{UnboundedReceiver, UnboundedSender};
use vstd::prelude::*;

verus! {

/// The sending half of a tokio channel. Its state is shared with the receiving half and is not
/// visible here.
#[verifier::external_type_specification]
#[verifier::external_body]
#[verifier::reject_recursive_types(T)]
pub struct ExUnboundedSender<T>(tokio::sync::mpsc::UnboundedSender<T>);

/// The receiving half of a tokio channel.
#[verifier::external_type_specification]
#[verifier::external_body]
#[verifier::reject_recursive_types(T)]
pub struct ExUnboundedReceiver<T>(tokio::sync::mpsc::UnboundedReceiver<T>);

/// The number gives different sends different values.
pub open spec fn tells_sends_apart<M>(number: spec_fn(UnboundedSender<M>, M) -> int) -> bool {
    forall|tx1: UnboundedSender<M>, message1: M, tx2: UnboundedSender<M>, message2: M|
        #[trigger] number(tx1, message1) == #[trigger] number(tx2, message2) ==> tx1 == tx2
            && message1 == message2
}

/// The number that stands for sending `message` on `tx`. A send counts as the opening of the
/// invariant with this number, so the `opens_invariants` clause of a function bounds what it
/// sends: `none` means nothing at all, and one such number means that message on that sender.
pub open spec fn sending<M>(tx: UnboundedSender<M>, message: M) -> int {
    (choose|number: spec_fn(UnboundedSender<M>, M) -> int| tells_sends_apart(number))(tx, message)
}

/// The messages that the channel of a connection processor takes over its whole life, from
/// whichever of its senders.
pub uninterp spec fn processor_messages(
    tx: UnboundedSender<ProxyConnectionProcessorReqMsg>,
) -> Set<ProxyConnectionProcessorReqMsg>;

/// The receiving half of the channel of a connection processor is closed at some time of its
/// life: it is told to close, or it is dropped.
pub uninterp spec fn processor_channel_closes(
    tx: UnboundedSender<ProxyConnectionProcessorReqMsg>,
) -> bool;

/// Calls `UnboundedSender::send` on the way to a connection processor. It takes the sender for
/// good: a sender that is registered or handed on is not the one that was sent on. The call
/// never waits. If it succeeds, the channel has taken the message. It fails only if the receiving
/// half is closed, and then the message comes back. That the receiving half was closed by the
/// time of the call, and that the call succeeds while it is open, is not stated: it rests on what
/// other tasks do.
#[verifier::external_body]
pub(crate) fn send_to_processor(
    tx: UnboundedSender<ProxyConnectionProcessorReqMsg>,
    message: ProxyConnectionProcessorReqMsg,
) -> (result: Result<(), ProxyConnectionProcessorReqMsg>)
    ensures
        match result {
            Ok(_) => processor_messages(tx).contains(message),
            Err(unsent) => unsent == message && processor_channel_closes(tx),
        },
    opens_invariants [ sending(tx, message) ]
{
    tx.send(message).map_err(|e| e.0)
}

/// The messages that the channel of a server takes over its whole life, from whichever of its
/// senders.
pub uninterp spec fn server_messages(
    tx: UnboundedSender<ProxyConnectionServerReqMsg>,
) -> Set<ProxyConnectionServerReqMsg>;

/// The receiving half of the channel of a server is closed at some time of its life: it is told
/// to close, or it is dropped.
pub uninterp spec fn server_channel_closes(
    tx: UnboundedSender<ProxyConnectionServerReqMsg>,
) -> bool;

/// Calls `UnboundedSender::send` on the way to a server. It never waits. If it succeeds, the
/// channel has taken the message. It fails only if the receiving half is closed, and then the
/// message comes back. That the receiving half was closed by the time of the call, and that the
/// call succeeds while it is open, is not stated: it rests on what other tasks do.
#[verifier::external_body]
pub(crate) fn send_to_server(
    tx: &UnboundedSender<ProxyConnectionServerReqMsg>,
    message: ProxyConnectionServerReqMsg,
) -> (result: Result<(), ProxyConnectionServerReqMsg>)
    ensures
        match result {
            Ok(_) => server_messages(*tx).contains(message),
            Err(unsent) => unsent == message && server_channel_closes(*tx),
        },
    opens_invariants [ sending(*tx, message) ]
{
    tx.send(message).map_err(|e| e.0)
}

/// The two are the halves of one channel: what is sent on `tx` is received on `rx`.
pub uninterp spec fn processor_channel_halves(
    tx: UnboundedSender<ProxyConnectionProcessorReqMsg>,
    rx: UnboundedReceiver<ProxyConnectionProcessorReqMsg>,
) -> bool;

/// Calls `tokio::sync::mpsc::unbounded_channel`, which makes a new channel and gives its two
/// halves.
#[verifier::external_body]
pub(crate) fn processor_channel() -> (halves: (
    UnboundedSender<ProxyConnectionProcessorReqMsg>,
    UnboundedReceiver<ProxyConnectionProcessorReqMsg>,
))
    ensures
        processor_channel_halves(halves.0, halves.1),
    opens_invariants none
{
    tokio::sync::mpsc::unbounded_channel()
}

/// The two are the halves of one channel: what is sent on `tx` is received on `rx`.
pub uninterp spec fn server_channel_halves(
    tx: UnboundedSender<ProxyConnectionServerReqMsg>,
    rx: UnboundedReceiver<ProxyConnectionServerReqMsg>,
) -> bool;

/// Calls `tokio::sync::mpsc::unbounded_channel`, which makes a new channel and gives its two
/// halves.
#[verifier::external_body]
pub(crate) fn server_channel() -> (halves: (
    UnboundedSender<ProxyConnectionServerReqMsg>,
    UnboundedReceiver<ProxyConnectionServerReqMsg>,
))
    ensures
        server_channel_halves(halves.0, halves.1),
    opens_invariants none
{
    tokio::sync::mpsc::unbounded_channel()
}

} // verus!
