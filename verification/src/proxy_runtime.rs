//! The runtimes that a server needs, and how they are gathered.
use crate::error::Error;
use std::sync::Arc;
use tokio::runtime::Runtime;
use vstd::prelude::*;
use vstd::string::*;

verus! {

/// A tokio runtime. The library only hands it on.
#[verifier::external_type_specification]
#[verifier::external_body]
pub struct ExRuntime(tokio::runtime::Runtime);

/// What a runtime is for.
#[derive(Debug, Clone, Copy, PartialEq, Eq, Structural)]
pub enum ProxyRuntimeType {
    /// Reading from and writing to devices.
    WssRxTx,
    /// The server's own mailbox.
    MboxInternal,
    /// Relaying messages of other gateways.
    MboxRelay,
    /// The queues of disconnected devices.
    QueueTimeout,
}

/// The runtimes of a server.
#[derive(Debug)]
pub struct ProxyRuntimes {
    pub wss_rx_tx: Arc<Runtime>,
    pub mbox_internal: Arc<Runtime>,
    pub mbox_relay: Arc<Runtime>,
    pub queue_timeout: Arc<Runtime>,
}

/// The outcome of looking for a runtime: it was found, there is none of that type, or the
/// search failed for the given reason.
pub type RuntimeLookup = Result<Option<Arc<Runtime>>, String>;

/// The runtimes that a server needs, in the order in which they are looked up.
pub open spec fn runtime_order() -> Seq<ProxyRuntimeType> {
    seq![
        ProxyRuntimeType::WssRxTx,
        ProxyRuntimeType::MboxInternal,
        ProxyRuntimeType::MboxRelay,
        ProxyRuntimeType::QueueTimeout,
    ]
}

/// `e` is the error for a lookup that did not find a runtime. It names the `WssRxTx` runtime,
/// whichever one was looked up.
pub open spec fn is_lookup_error(e: Error, lookup: RuntimeLookup) -> bool {
    match lookup {
        Ok(Some(_)) => false,
        Ok(None) => e.is_server_error("Failed to find runtime type WssRxTx"@),
        Err(reason) => e.is_server_error(
            "Failed to get runtime type WssRxTx! Error: "@ + reason@,
        ),
    }
}

/// The lookup found a runtime.
pub open spec fn is_found(lookup: RuntimeLookup) -> bool {
    lookup matches Ok(Some(_))
}

/// `step` is what comes after the runtimes in `found`: another lookup while one is missing,
/// and otherwise every runtime in its place.
pub open spec fn search_continues(found: Seq<Arc<Runtime>>, step: RuntimeSearchStep) -> bool {
    match step {
        RuntimeSearchStep::Next(search) => {
            &&& found.len() < runtime_order().len()
            &&& search@ == found
        },
        RuntimeSearchStep::Complete(runtimes) => {
            &&& found == seq![
                runtimes.wss_rx_tx,
                runtimes.mbox_internal,
                runtimes.mbox_relay,
                runtimes.queue_timeout,
            ]
        },
    }
}

/// What the outcome of one lookup does to a search that has found `found`: the search goes on
/// with the runtime that was found, or ends with the error.
pub open spec fn lookup_leads_to(
    found: Seq<Arc<Runtime>>,
    lookup: RuntimeLookup,
    step: Result<RuntimeSearchStep, Error>,
) -> bool {
    match step {
        Ok(step) => lookup matches Ok(Some(runtime)) && search_continues(
            found.push(runtime),
            step,
        ),
        Err(e) => is_lookup_error(e, lookup),
    }
}

/// Some, but not all, of the runtimes that a server needs.
#[derive(Debug)]
pub struct RuntimeSearch {
    found: Vec<Arc<Runtime>>,
}

/// What a successful lookup leads to.
#[derive(Debug)]
pub enum RuntimeSearchStep {
    /// There are more runtimes to look up.
    Next(RuntimeSearch),
    /// All of them have been found.
    Complete(ProxyRuntimes),
}

impl View for RuntimeSearch {
    type V = Seq<Arc<Runtime>>;

    closed spec fn view(&self) -> Seq<Arc<Runtime>> {
        self.found@
    }
}

impl RuntimeSearch {
    #[verifier::type_invariant]
    spec fn inv(self) -> bool {
        self.found@.len() < 4
    }

    /// A search that has found nothing yet.
    pub fn new() -> (search: Self)
        ensures
            search@ == Seq::<Arc<Runtime>>::empty(),
    {
        RuntimeSearch { found: Vec::new() }
    }

    /// The runtime to look up next.
    pub fn wanted(&self) -> (runtime_type: ProxyRuntimeType)
        ensures
            self@.len() < runtime_order().len(),
            runtime_type == runtime_order()[self@.len() as int],
    {
        proof {
            use_type_invariant(self);
        }
        match self.found.len() {
            0 => ProxyRuntimeType::WssRxTx,
            1 => ProxyRuntimeType::MboxInternal,
            2 => ProxyRuntimeType::MboxRelay,
            _ => ProxyRuntimeType::QueueTimeout,
        }
    }

    /// Takes in the outcome of looking up the wanted runtime. The first lookup that finds none
    /// ends the search.
    pub fn on_lookup(self, lookup: RuntimeLookup) -> (step: Result<RuntimeSearchStep, Error>)
        ensures
            lookup_leads_to(self@, lookup, step),
    {
        proof {
            use_type_invariant(&self);
        }
        let runtime = match lookup {
            Ok(Some(runtime)) => runtime,
            Ok(None) => {
                return Err(
                    Error::ConnectionServer("Failed to find runtime type WssRxTx".to_owned()),
                );
            },
            Err(reason) => {
                let text = "Failed to get runtime type WssRxTx! Error: ".to_owned();
                return Err(Error::ConnectionServer(text.concat(reason.as_str())));
            },
        };
        let mut found = self.found;
        if found.len() < 3 {
            found.push(runtime);
            Ok(RuntimeSearchStep::Next(RuntimeSearch { found }))
        } else {
            let mbox_relay = found.remove(2);
            let mbox_internal = found.remove(1);
            let wss_rx_tx = found.remove(0);
            assert(self@.push(runtime) =~= seq![wss_rx_tx, mbox_internal, mbox_relay, runtime]);
            Ok(
                RuntimeSearchStep::Complete(
                    ProxyRuntimes { wss_rx_tx, mbox_internal, mbox_relay, queue_timeout: runtime },
                ),
            )
        }
    }
}

/// The searches that begin with `found` and meet the outcomes `lookups` end with `end`.
pub open spec fn search_ends_with(
    found: Seq<Arc<Runtime>>,
    lookups: Seq<RuntimeLookup>,
    end: Result<ProxyRuntimes, Error>,
) -> bool
    decreases lookups.len(),
{
    &&& lookups.len() > 0
    &&& exists|step: Result<RuntimeSearchStep, Error>|
        #![trigger lookup_leads_to(found, lookups[0], step)]
        {
            &&& lookup_leads_to(found, lookups[0], step)
            &&& match step {
                Ok(RuntimeSearchStep::Next(search)) => search_ends_with(
                    search@,
                    lookups.skip(1),
                    end,
                ),
                Ok(RuntimeSearchStep::Complete(runtimes)) => end == Ok::<ProxyRuntimes, Error>(
                    runtimes,
                ),
                Err(e) => end == Err::<ProxyRuntimes, Error>(e),
            }
        }
}

proof fn lemma_search_step(
    found: Seq<Arc<Runtime>>,
    lookups: Seq<RuntimeLookup>,
    end: Result<ProxyRuntimes, Error>,
)
    requires
        found.len() + lookups.len() == 4,
        search_ends_with(found, lookups, end),
    ensures
        match lookups[0] {
            Ok(Some(runtime)) => if lookups.len() > 1 {
                search_ends_with(found.push(runtime), lookups.skip(1), end)
            } else {
                end matches Ok(runtimes) && search_continues(
                    found.push(runtime),
                    RuntimeSearchStep::Complete(runtimes),
                )
            },
            _ => end matches Err(e) && is_lookup_error(e, lookups[0]),
        },
{
    let step = choose|step: Result<RuntimeSearchStep, Error>|
        #![trigger lookup_leads_to(found, lookups[0], step)]
        {
            &&& lookup_leads_to(found, lookups[0], step)
            &&& match step {
                Ok(RuntimeSearchStep::Next(search)) => search_ends_with(
                    search@,
                    lookups.skip(1),
                    end,
                ),
                Ok(RuntimeSearchStep::Complete(runtimes)) => end == Ok::<ProxyRuntimes, Error>(
                    runtimes,
                ),
                Err(e) => end == Err::<ProxyRuntimes, Error>(e),
            }
        };
    if let Ok(Some(runtime)) = lookups[0] {
        assert(search_continues(found.push(runtime), step->Ok_0));
        assert(step->Ok_0 is Next <==> lookups.len() > 1);
    }
}

/// A server gets its runtimes exactly if all four are found, and then each in its own place.
/// Otherwise the first lookup that did not find one gives the error.
pub proof fn law_search_needs_every_runtime(
    lookups: Seq<RuntimeLookup>,
    end: Result<ProxyRuntimes, Error>,
)
    requires
        lookups.len() == 4,
        search_ends_with(Seq::empty(), lookups, end),
    ensures
        match end {
            Ok(runtimes) => {
                &&& lookups[0] == Ok::<Option<Arc<Runtime>>, String>(Some(runtimes.wss_rx_tx))
                &&& lookups[1] == Ok::<Option<Arc<Runtime>>, String>(Some(runtimes.mbox_internal))
                &&& lookups[2] == Ok::<Option<Arc<Runtime>>, String>(Some(runtimes.mbox_relay))
                &&& lookups[3] == Ok::<Option<Arc<Runtime>>, String>(Some(runtimes.queue_timeout))
            },
            Err(e) => exists|i: int|
                0 <= i < 4 && !is_found(#[trigger] lookups[i]) && is_lookup_error(e, lookups[i])
                    && forall|j: int| 0 <= j < i ==> is_found(#[trigger] lookups[j]),
        },
{
    let none = Seq::<Arc<Runtime>>::empty();
    lemma_search_step(none, lookups, end);
    if is_found(lookups[0]) {
        let found1 = none.push(lookups[0]->Ok_0->Some_0);
        lemma_search_step(found1, lookups.skip(1), end);
        if is_found(lookups[1]) {
            let found2 = found1.push(lookups[1]->Ok_0->Some_0);
            lemma_search_step(found2, lookups.skip(1).skip(1), end);
            if is_found(lookups[2]) {
                let found3 = found2.push(lookups[2]->Ok_0->Some_0);
                lemma_search_step(found3, lookups.skip(1).skip(1).skip(1), end);
                if is_found(lookups[3]) {
                    let found4 = found3.push(lookups[3]->Ok_0->Some_0);
                    let runtimes = end->Ok_0;
                    assert(found4[0] == runtimes.wss_rx_tx);
                    assert(found4[1] == runtimes.mbox_internal);
                    assert(found4[2] == runtimes.mbox_relay);
                    assert(found4[3] == runtimes.queue_timeout);
                }
            }
        }
    }
}

/// One lookup goes on with the search exactly if it found a runtime. Otherwise the error says
/// that there is none, or why the search failed.
pub proof fn law_lookup_needs_a_runtime(
    search: RuntimeSearch,
    lookup: RuntimeLookup,
    result: Result<RuntimeSearchStep, Error>,
)
    requires
        call_ensures(RuntimeSearch::on_lookup, (search, lookup), result),
    ensures
        result is Ok <==> lookup matches Ok(Some(_)),
        lookup matches Ok(None) ==> result matches Err(Error::ConnectionServer(text)) && text@
            == "Failed to find runtime type WssRxTx"@,
        lookup matches Err(reason) ==> result matches Err(Error::ConnectionServer(text)) && text@
            == "Failed to get runtime type WssRxTx! Error: "@ + reason@,
{
}

/// Each runtime stands where it was looked up for: four lookups that find one end the search,
/// and what was found for a type is the runtime for that type.
pub proof fn law_runtimes_serve_what_they_were_found_for(
    searches: Seq<RuntimeSearch>,
    wanted: Seq<ProxyRuntimeType>,
    lookups: Seq<RuntimeLookup>,
    last: RuntimeSearchStep,
)
    requires
        searches.len() == 4,
        wanted.len() == 4,
        lookups.len() == 4,
        call_ensures(RuntimeSearch::new, (), searches[0]),
        forall|i: int|
            0 <= i < 4 ==> call_ensures(RuntimeSearch::wanted, (&searches[i],), #[trigger] wanted[i]),
        forall|i: int|
            0 <= i < 3 ==> call_ensures(
                RuntimeSearch::on_lookup,
                (searches[i], #[trigger] lookups[i]),
                Ok(RuntimeSearchStep::Next(searches[i + 1])),
            ),
        call_ensures(RuntimeSearch::on_lookup, (searches[3], lookups[3]), Ok(last)),
    ensures
        wanted[0] is WssRxTx,
        wanted[1] is MboxInternal,
        wanted[2] is MboxRelay,
        wanted[3] is QueueTimeout,
        last matches RuntimeSearchStep::Complete(runtimes) && {
            &&& lookups[0] == Ok::<Option<Arc<Runtime>>, String>(Some(runtimes.wss_rx_tx))
            &&& lookups[1] == Ok::<Option<Arc<Runtime>>, String>(Some(runtimes.mbox_internal))
            &&& lookups[2] == Ok::<Option<Arc<Runtime>>, String>(Some(runtimes.mbox_relay))
            &&& lookups[3] == Ok::<Option<Arc<Runtime>>, String>(Some(runtimes.queue_timeout))
        },
{
    assert(lookup_leads_to(
        searches[0]@,
        lookups[0],
        Ok(RuntimeSearchStep::Next(searches[1])),
    ));
    assert(lookup_leads_to(
        searches[1]@,
        lookups[1],
        Ok(RuntimeSearchStep::Next(searches[2])),
    ));
    assert(lookup_leads_to(
        searches[2]@,
        lookups[2],
        Ok(RuntimeSearchStep::Next(searches[3])),
    ));
    assert(lookup_leads_to(searches[3]@, lookups[3], Ok(last)));
    assert(wanted[0] == runtime_order()[0] && wanted[1] == runtime_order()[1]);
    assert(wanted[2] == runtime_order()[2] && wanted[3] == runtime_order()[3]);
    let found = searches[3]@.push(lookups[3]->Ok_0->Some_0);
    assert(search_continues(found, last));
    assert(found[0] == lookups[0]->Ok_0->Some_0);
    assert(found[1] == lookups[1]->Ok_0->Some_0);
    assert(found[2] == lookups[2]->Ok_0->Some_0);
    if let RuntimeSearchStep::Complete(runtimes) = last {
        assert(found[0] == runtimes.wss_rx_tx);
        assert(found[1] == runtimes.mbox_internal);
        assert(found[2] == runtimes.mbox_relay);
        assert(found[3] == runtimes.queue_timeout);
    }
}

} // verus!
