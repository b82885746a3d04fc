//! The two contracts: what is sent to the trigger contract, what its receipt
//! holds, and what the submit contract's answer means.

use vstd::prelude::*;
use crate::primitives::Address;

verus! {

/// The gas ceiling attached to every trigger transaction.
pub const TRIGGER_GAS_LIMIT: u64 = 1_000_000;

/// The correlation record that the trigger contract emits.
#[derive(Debug, Clone, Copy, PartialEq, Eq, Structural)]
pub struct TriggerInfo {
    pub trigger_id: u64,
}

/// The result that is computed off chain for a trigger. The price is held
/// as the bits of its 64-bit floating-point form.
#[derive(Debug, PartialEq, Eq)]
pub struct PriceFeedData {
    pub symbol: String,
    pub timestamp: String,
    pub price_bits: u64,
}

/// Mathematical form of a result.
pub struct PriceFeedModel {
    pub symbol: Seq<char>,
    pub timestamp: Seq<char>,
    pub price_bits: u64,
}

impl View for PriceFeedData {
    type V = PriceFeedModel;

    open spec fn view(&self) -> PriceFeedModel {
        PriceFeedModel {
            symbol: self.symbol@,
            timestamp: self.timestamp@,
            price_bits: self.price_bits,
        }
    }
}

/// The call that adds a trigger.
#[derive(Debug, PartialEq, Eq)]
pub struct TriggerCall {
    pub to: Address,
    pub payload: Vec<u8>,
    pub gas: u64,
}

/// The contract that accepts a payload and emits the correlation event.
#[derive(Debug, Clone, Copy, PartialEq, Eq)]
pub struct TriggerContract {
    pub address: Address,
}

/// The contract that is asked for the result.
#[derive(Debug, Clone, Copy, PartialEq, Eq)]
pub struct SubmitContract {
    pub address: Address,
}

/// View of what one log holds for this protocol: the event's payload where
/// the log is the trigger event, nothing otherwise.
pub open spec fn log_view(log: Option<Vec<u8>>) -> Option<Seq<u8>> {
    match log {
        Some(payload) => Some(payload@),
        None => None,
    }
}

/// View of a receipt's logs.
pub open spec fn logs_view(logs: Seq<Option<Vec<u8>>>) -> Seq<Option<Seq<u8>>> {
    logs.map_values(|log: Option<Vec<u8>>| log_view(log))
}

/// The place of the first log that is the trigger event; the number of logs
/// where none is.
pub open spec fn first_event(logs: Seq<Option<Seq<u8>>>) -> int
    decreases logs.len(),
{
    if logs.len() == 0 || logs[0] is Some {
        0
    } else {
        1 + first_event(logs.skip(1))
    }
}

/// The payload of the first trigger event among the logs, if there is one.
pub open spec fn event_payload(logs: Seq<Option<Seq<u8>>>) -> Option<Seq<u8>> {
    if first_event(logs) < logs.len() {
        logs[first_event(logs)]
    } else {
        None
    }
}

/// `first_event` is the least place that holds an event.
pub proof fn first_event_is_least(logs: Seq<Option<Seq<u8>>>, i: int)
    requires
        0 <= i <= logs.len(),
        forall|j: int| 0 <= j < i ==> logs[j] is None,
        i < logs.len() ==> logs[i] is Some,
    ensures
        first_event(logs) == i,
    decreases logs.len(),
{
    if logs.len() == 0 || logs[0] is Some {
    } else {
        let rest = logs.skip(1);
        assert forall|j: int| 0 <= j < i - 1 implies rest[j] is None by {
            assert(rest[j] == logs[j + 1]);
        }
        first_event_is_least(rest, i - 1);
    }
}

impl TriggerContract {
    /// The call that submits `trigger` as payload, under the fixed gas
    /// ceiling.
    pub fn add_trigger(&self, trigger: Vec<u8>) -> (call: TriggerCall)
        ensures
            call.to == self.address,
            call.payload == trigger,
            call.gas == TRIGGER_GAS_LIMIT,
    {
        TriggerCall { to: self.address, payload: trigger, gas: TRIGGER_GAS_LIMIT }
    }

    /// The payload of the first log that is the trigger event.
    pub fn find_event(logs: Vec<Option<Vec<u8>>>) -> (payload: Option<Vec<u8>>)
        ensures
            log_view(payload) == event_payload(logs_view(logs@)),
    {
        let ghost all = logs_view(logs@);
        let mut pending = logs;
        let mut i: usize = 0;
        while i < pending.len()
            invariant
                i <= pending.len(),
                all == logs_view(logs@),
                all == logs_view(pending@),
                forall|j: int| 0 <= j < i ==> all[j] is None,
            decreases pending.len() - i,
        {
            if pending[i].is_some() {
                proof {
                    assert(all[i as int] == log_view(pending@[i as int]));
                    first_event_is_least(all, i as int);
                }
                let found = pending.swap_remove(i);
                return found;
            }
            assert(all[i as int] == log_view(pending@[i as int]));
            i = i + 1;
        }
        proof {
            first_event_is_least(all, i as int);
        }
        None
    }
}

impl SubmitContract {
    /// What the contract's answer holds: nothing yet where it is empty, else
    /// the bytes of the result.
    pub fn get_price_feed(data: Vec<u8>) -> (r: Option<Vec<u8>>)
        ensures
            data@.len() == 0 ==> r is None,
            data@.len() > 0 ==> r == Some(data),
    {
        if data.len() == 0 {
            None
        } else {
            Some(data)
        }
    }
}

} // verus!
