//! Where a processor stands with the request that it has passed to its device.
use vstd::prelude::*;
use vstd::string::*;

verus! {

/// Whether a device still owes the result of a request.
#[derive(Debug, Clone, Copy, PartialEq, Eq, Structural)]
pub enum ProxyUCentralMessageProcessorState {
    Idle,
    ResultPending,
}

impl ProxyUCentralMessageProcessorState {
    /// The name of the state.
    pub fn to_string(&self) -> (name: String)
        ensures
            name@ == match self {
                ProxyUCentralMessageProcessorState::Idle => "Idle"@,
                ProxyUCentralMessageProcessorState::ResultPending => "ResultPending"@,
            },
    {
        match self {
            ProxyUCentralMessageProcessorState::Idle => "Idle".to_owned(),
            ProxyUCentralMessageProcessorState::ResultPending => "ResultPending".to_owned(),
        }
    }
}

/// The two states have the names `Idle` and `ResultPending`.
pub proof fn law_state_names(state: ProxyUCentralMessageProcessorState, name: String)
    requires
        call_ensures(ProxyUCentralMessageProcessorState::to_string, (&state,), name),
    ensures
        state is Idle ==> name@ == "Idle"@,
        state is ResultPending ==> name@ == "ResultPending"@,
{
}

} // verus!
