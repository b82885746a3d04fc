//! The trigger/result protocol as a state machine: the host performs each
//! action and hands back what happened.

use vstd::prelude::*;
use vstd::string::*;
use crate::contract::{
    event_payload, logs_view, PriceFeedData, PriceFeedModel, SubmitContract, TriggerContract,
    TriggerInfo,
};
use crate::primitives::B256;

verus! {

/// How often the result is asked for, and for how long, in milliseconds.
#[derive(Debug, Clone, Copy, PartialEq, Eq, Structural)]
pub struct PollSettings {
    pub interval_ms: u64,
    pub window_ms: u64,
}

impl PollSettings {
    /// Settings are usable where the interval is not zero.
    pub open spec fn wf(self) -> bool {
        self.interval_ms > 0
    }

    /// Settings with the given interval and window, unless the interval is
    /// zero.
    pub fn new(interval_ms: u64, window_ms: u64) -> (r: Option<Self>)
        ensures
            r == if interval_ms > 0 {
                Some(PollSettings { interval_ms, window_ms })
            } else {
                None
            },
    {
        if interval_ms > 0 {
            Some(PollSettings { interval_ms, window_ms })
        } else {
            None
        }
    }

    /// A window of ten seconds, asked once a second.
    pub fn standard() -> (s: Self)
        ensures
            s == (PollSettings { interval_ms: 1_000, window_ms: 10_000 }),
            s.wf(),
    {
        PollSettings { interval_ms: 1_000, window_ms: 10_000 }
    }
}

/// Why the protocol failed.
#[derive(Debug, PartialEq, Eq)]
pub enum ProtocolError {
    /// No receipt exists for the transaction.
    TransactionNotFound,
    /// No log of the receipt is the trigger event.
    EventNotFound,
    /// The chain, the wallet or a decoder failed; the text is its own.
    Outside(String),
}

/// Mathematical form of a failure.
pub enum ErrorModel {
    TransactionNotFound,
    EventNotFound,
    Outside(Seq<char>),
}

impl View for ProtocolError {
    type V = ErrorModel;

    open spec fn view(&self) -> ErrorModel {
        match self {
            ProtocolError::TransactionNotFound => ErrorModel::TransactionNotFound,
            ProtocolError::EventNotFound => ErrorModel::EventNotFound,
            ProtocolError::Outside(text) => ErrorModel::Outside(text@),
        }
    }
}

impl ErrorModel {
    /// The text shown for a failure.
    pub open spec fn message(self) -> Seq<char> {
        match self {
            ErrorModel::TransactionNotFound => "Transaction not found"@,
            ErrorModel::EventNotFound => "Event not found"@,
            ErrorModel::Outside(text) => text,
        }
    }
}

impl ProtocolError {
    /// The text shown for this failure.
    pub fn message(&self) -> (text: String)
        ensures
            text@ == self@.message(),
    {
        match self {
            ProtocolError::TransactionNotFound => String::from_str("Transaction not found"),
            ProtocolError::EventNotFound => String::from_str("Event not found"),
            ProtocolError::Outside(text) => text.clone(),
        }
    }
}

/// Where a run of the protocol stands.
#[derive(Debug, PartialEq, Eq)]
pub enum TriggerState {
    /// The trigger transaction is being sent.
    Submitting,
    /// The transaction is sent; its receipt is awaited.
    AwaitingReceipt { tx_hash: B256 },
    /// The event's payload is being decoded.
    Decoding,
    /// The result is being asked for since `started_ms`.
    Polling { trigger_id: u64, started_ms: u64 },
    Resolved(PriceFeedData),
    TimedOut,
    Failed(ProtocolError),
}

/// Mathematical form of a state.
pub enum StateModel {
    Submitting,
    AwaitingReceipt { tx_hash: B256 },
    Decoding,
    Polling { trigger_id: u64, started_ms: u64 },
    Resolved(PriceFeedModel),
    TimedOut,
    Failed(ErrorModel),
}

impl View for TriggerState {
    type V = StateModel;

    open spec fn view(&self) -> StateModel {
        match self {
            TriggerState::Submitting => StateModel::Submitting,
            TriggerState::AwaitingReceipt { tx_hash } => StateModel::AwaitingReceipt {
                tx_hash: *tx_hash,
            },
            TriggerState::Decoding => StateModel::Decoding,
            TriggerState::Polling { trigger_id, started_ms } => StateModel::Polling {
                trigger_id: *trigger_id,
                started_ms: *started_ms,
            },
            TriggerState::Resolved(data) => StateModel::Resolved(data@),
            TriggerState::TimedOut => StateModel::TimedOut,
            TriggerState::Failed(e) => StateModel::Failed(e@),
        }
    }
}

/// What the host reports.
#[derive(Debug, PartialEq, Eq)]
pub enum TriggerEvent {
    /// The transaction was sent and has this hash.
    Sent(B256),
    /// The receipt was asked for. `None`: there is none. Otherwise, for each
    /// log in order, the payload it carries if it is the trigger event.
    Receipt(Option<Vec<Option<Vec<u8>>>>),
    /// The event's payload was decoded.
    TriggerDecoded(TriggerInfo),
    /// The interval has passed.
    Tick,
    /// The submit contract answered with these bytes.
    Data(Vec<u8>),
    /// The answer's bytes were decoded.
    ResultDecoded(PriceFeedData),
    /// The last action failed.
    Failure(String),
}

/// Mathematical form of an event.
pub enum EventModel {
    Sent(B256),
    Receipt(Option<Seq<Option<Seq<u8>>>>),
    TriggerDecoded(TriggerInfo),
    Tick,
    Data(Seq<u8>),
    ResultDecoded(PriceFeedModel),
    Failure(Seq<char>),
}

impl View for TriggerEvent {
    type V = EventModel;

    open spec fn view(&self) -> EventModel {
        match self {
            TriggerEvent::Sent(tx_hash) => EventModel::Sent(*tx_hash),
            TriggerEvent::Receipt(Some(logs)) => EventModel::Receipt(Some(logs_view(logs@))),
            TriggerEvent::Receipt(None) => EventModel::Receipt(None),
            TriggerEvent::TriggerDecoded(info) => EventModel::TriggerDecoded(*info),
            TriggerEvent::Tick => EventModel::Tick,
            TriggerEvent::Data(bytes) => EventModel::Data(bytes@),
            TriggerEvent::ResultDecoded(data) => EventModel::ResultDecoded(data@),
            TriggerEvent::Failure(text) => EventModel::Failure(text@),
        }
    }
}

/// What the host is to do next.
#[derive(Debug, PartialEq, Eq)]
pub enum TriggerAction {
    /// Nothing: the run has ended, or the event changed nothing.
    Nothing,
    /// Wait for the transaction and fetch its receipt.
    FetchReceipt(B256),
    /// Decode this payload of the trigger event.
    DecodeTrigger(Vec<u8>),
    /// Ask the submit contract for the result of this trigger.
    Read(u64),
    /// Wait this many milliseconds, then report a tick.
    Wait(u64),
    /// Decode these bytes of the result.
    DecodeResult(Vec<u8>),
}

/// Mathematical form of an action.
pub enum ActionModel {
    Nothing,
    FetchReceipt(B256),
    DecodeTrigger(Seq<u8>),
    Read(u64),
    Wait(u64),
    DecodeResult(Seq<u8>),
}

impl View for TriggerAction {
    type V = ActionModel;

    open spec fn view(&self) -> ActionModel {
        match self {
            TriggerAction::Nothing => ActionModel::Nothing,
            TriggerAction::FetchReceipt(tx_hash) => ActionModel::FetchReceipt(*tx_hash),
            TriggerAction::DecodeTrigger(payload) => ActionModel::DecodeTrigger(payload@),
            TriggerAction::Read(trigger_id) => ActionModel::Read(*trigger_id),
            TriggerAction::Wait(ms) => ActionModel::Wait(*ms),
            TriggerAction::DecodeResult(bytes) => ActionModel::DecodeResult(bytes@),
        }
    }
}

impl StateModel {
    /// A run has ended once it is resolved, timed out or failed.
    pub open spec fn is_terminal(self) -> bool {
        self is Resolved || self is TimedOut || self is Failed
    }
}

/// Whether the window that began at `started` is over at `now`.
pub open spec fn timed_out(started: int, now: int, window: int) -> bool {
    now - started > window
}

/// The protocol: the state and the action that follow from a state and an
/// event at the time `now`.
///
/// A sent transaction is awaited. A receipt without the trigger event, or no
/// receipt, fails the run; the first trigger event's payload is decoded.
/// Polling begins when the payload is decoded, with a first read. At each
/// tick the window is checked before anything is read. An empty answer keeps
/// the run polling and asks for a pause; any other answer is decoded, and the
/// decoded result resolves the run. A failure that the host reports fails
/// the run wherever it stands. A run that has ended stays as it is, and an
/// event that a state does not expect changes nothing.
pub open spec fn step_model(
    settings: PollSettings,
    state: StateModel,
    event: EventModel,
    now: int,
) -> (StateModel, ActionModel) {
    if state.is_terminal() {
        (state, ActionModel::Nothing)
    } else if event is Failure {
        (StateModel::Failed(ErrorModel::Outside(event->Failure_0)), ActionModel::Nothing)
    } else {
        match (state, event) {
            (StateModel::Submitting, EventModel::Sent(tx_hash)) => (
                StateModel::AwaitingReceipt { tx_hash },
                ActionModel::FetchReceipt(tx_hash),
            ),
            (StateModel::AwaitingReceipt { .. }, EventModel::Receipt(None)) => (
                StateModel::Failed(ErrorModel::TransactionNotFound),
                ActionModel::Nothing,
            ),
            (StateModel::AwaitingReceipt { .. }, EventModel::Receipt(Some(logs))) => match event_payload(
                logs,
            ) {
                Some(payload) => (StateModel::Decoding, ActionModel::DecodeTrigger(payload)),
                None => (StateModel::Failed(ErrorModel::EventNotFound), ActionModel::Nothing),
            },
            (StateModel::Decoding, EventModel::TriggerDecoded(info)) => (
                StateModel::Polling { trigger_id: info.trigger_id, started_ms: now as u64 },
                ActionModel::Read(info.trigger_id),
            ),
            (StateModel::Polling { trigger_id, started_ms }, EventModel::Tick) => if timed_out(
                started_ms as int,
                now,
                settings.window_ms as int,
            ) {
                (StateModel::TimedOut, ActionModel::Nothing)
            } else {
                (state, ActionModel::Read(trigger_id))
            },
            (StateModel::Polling { .. }, EventModel::Data(bytes)) => if bytes.len() == 0 {
                (state, ActionModel::Wait(settings.interval_ms))
            } else {
                (state, ActionModel::DecodeResult(bytes))
            },
            (StateModel::Polling { .. }, EventModel::ResultDecoded(data)) => (
                StateModel::Resolved(data),
                ActionModel::Nothing,
            ),
            _ => (state, ActionModel::Nothing),
        }
    }
}

impl TriggerState {
    /// Whether the run has ended.
    pub fn is_terminal(&self) -> (b: bool)
        ensures
            b == self@.is_terminal(),
    {
        match self {
            TriggerState::Resolved(_) => true,
            TriggerState::TimedOut => true,
            TriggerState::Failed(_) => true,
            _ => false,
        }
    }

    /// The text shown for a run that ended without a result: `Timeout!`
    /// after a timeout, the failure's text after a failure.
    pub fn error_message(&self) -> (text: Option<String>)
        ensures
            match self@ {
                StateModel::TimedOut => text matches Some(t) && t@ == "Timeout!"@,
                StateModel::Failed(e) => text matches Some(t) && t@ == e.message(),
                _ => text is None,
            },
    {
        match self {
            TriggerState::TimedOut => Some(String::from_str("Timeout!")),
            TriggerState::Failed(e) => Some(e.message()),
            _ => None,
        }
    }

    /// Takes one event at the time `now_ms` and says what the host is to do.
    /// An empty answer from the submit contract never moves a run out of
    /// polling.
    pub fn step(self, settings: &PollSettings, event: TriggerEvent, now_ms: u64) -> (r: (
        TriggerState,
        TriggerAction,
    ))
        ensures
            (r.0@, r.1@) == step_model(*settings, self@, event@, now_ms as int),
            (self@ is Polling && event@ == EventModel::Data(Seq::empty())) ==> r.0@ == self@,
    {
        if self.is_terminal() {
            return (self, TriggerAction::Nothing);
        }
        if let TriggerEvent::Failure(text) = event {
            return (TriggerState::Failed(ProtocolError::Outside(text)), TriggerAction::Nothing);
        }
        match self {
            TriggerState::Submitting => match event {
                TriggerEvent::Sent(tx_hash) => (
                    TriggerState::AwaitingReceipt { tx_hash },
                    TriggerAction::FetchReceipt(tx_hash),
                ),
                _ => (self, TriggerAction::Nothing),
            },
            TriggerState::AwaitingReceipt { tx_hash } => match event {
                TriggerEvent::Receipt(None) => (
                    TriggerState::Failed(ProtocolError::TransactionNotFound),
                    TriggerAction::Nothing,
                ),
                TriggerEvent::Receipt(Some(logs)) => match TriggerContract::find_event(logs) {
                    Some(payload) => (
                        TriggerState::Decoding,
                        TriggerAction::DecodeTrigger(payload),
                    ),
                    None => (
                        TriggerState::Failed(ProtocolError::EventNotFound),
                        TriggerAction::Nothing,
                    ),
                },
                _ => (TriggerState::AwaitingReceipt { tx_hash }, TriggerAction::Nothing),
            },
            TriggerState::Decoding => match event {
                TriggerEvent::TriggerDecoded(info) => (
                    TriggerState::Polling { trigger_id: info.trigger_id, started_ms: now_ms },
                    TriggerAction::Read(info.trigger_id),
                ),
                _ => (self, TriggerAction::Nothing),
            },
            TriggerState::Polling { trigger_id, started_ms } => match event {
                TriggerEvent::Tick => {
                    if now_ms >= started_ms && now_ms - started_ms > settings.window_ms {
                        (TriggerState::TimedOut, TriggerAction::Nothing)
                    } else {
                        (
                            TriggerState::Polling { trigger_id, started_ms },
                            TriggerAction::Read(trigger_id),
                        )
                    }
                },
                TriggerEvent::Data(bytes) => match SubmitContract::get_price_feed(bytes) {
                    None => (
                        TriggerState::Polling { trigger_id, started_ms },
                        TriggerAction::Wait(settings.interval_ms),
                    ),
                    Some(bytes) => (
                        TriggerState::Polling { trigger_id, started_ms },
                        TriggerAction::DecodeResult(bytes),
                    ),
                },
                TriggerEvent::ResultDecoded(data) => (
                    TriggerState::Resolved(data),
                    TriggerAction::Nothing,
                ),
                _ => (TriggerState::Polling { trigger_id, started_ms }, TriggerAction::Nothing),
            },
            _ => (self, TriggerAction::Nothing),
        }
    }
}

/// The state after a run of events, each taken at its own time.
pub open spec fn run(settings: PollSettings, state: StateModel, events: Seq<(EventModel, int)>) -> StateModel
    decreases events.len(),
{
    if events.len() == 0 {
        state
    } else {
        step_model(
            settings,
            run(settings, state, events.drop_last()),
            events.last().0,
            events.last().1,
        ).0
    }
}

/// What one read of the submit contract comes to.
pub enum ReadModel {
    /// The answer is empty.
    Empty,
    /// The answer is `bytes`, which decode to `data`.
    Result { bytes: Seq<u8>, data: PriceFeedModel },
    /// The answer is `bytes`, which do not decode.
    Undecodable { bytes: Seq<u8>, text: Seq<char> },
    /// The read itself fails.
    Failure(Seq<char>),
}

/// The events that the host reports for one read made at `now`.
pub open spec fn read_events(read: ReadModel, now: int) -> Seq<(EventModel, int)> {
    match read {
        ReadModel::Empty => seq![(EventModel::Data(Seq::empty()), now)],
        ReadModel::Result { bytes, data } => seq![
            (EventModel::Data(bytes), now),
            (EventModel::ResultDecoded(data), now),
        ],
        ReadModel::Undecodable { bytes, text } => seq![
            (EventModel::Data(bytes), now),
            (EventModel::Failure(text), now),
        ],
        ReadModel::Failure(text) => seq![(EventModel::Failure(text), now)],
    }
}

/// The state of the polling loop that began at `started_ms`, after its first
/// read and `n` further rounds. Round `k` begins with a tick at `times(k)`
/// and, where the window is not over, makes the read `reads(k)`.
pub open spec fn after_rounds(
    settings: PollSettings,
    trigger_id: u64,
    started_ms: u64,
    times: spec_fn(nat) -> int,
    reads: spec_fn(nat) -> ReadModel,
    n: nat,
) -> StateModel
    decreases n,
{
    if n == 0 {
        run(
            settings,
            StateModel::Polling { trigger_id, started_ms },
            read_events(reads(0), started_ms as int),
        )
    } else {
        run(
            settings,
            after_rounds(settings, trigger_id, started_ms, times, reads, (n - 1) as nat),
            seq![(EventModel::Tick, times(n))] + read_events(reads(n), times(n)),
        )
    }
}

/// A run that has ended stays as it is, whatever is reported.
pub proof fn terminal_is_final(
    settings: PollSettings,
    state: StateModel,
    events: Seq<(EventModel, int)>,
)
    requires
        state.is_terminal(),
    ensures
        run(settings, state, events) == state,
    decreases events.len(),
{
    if events.len() > 0 {
        terminal_is_final(settings, state, events.drop_last());
    }
}

/// From polling, whatever is reported, a run is still polling for the same
/// trigger since the same time, or it has ended.
pub proof fn polling_stays_or_ends(
    settings: PollSettings,
    trigger_id: u64,
    started_ms: u64,
    events: Seq<(EventModel, int)>,
)
    ensures
        ({
            let polling = StateModel::Polling { trigger_id, started_ms };
            let after = run(settings, polling, events);
            after == polling || after.is_terminal()
        }),
    decreases events.len(),
{
    if events.len() > 0 {
        polling_stays_or_ends(settings, trigger_id, started_ms, events.drop_last());
    }
}

/// Empty answers, however many and whenever they come, never move a run out
/// of polling.
pub proof fn empty_reads_keep_polling(
    settings: PollSettings,
    trigger_id: u64,
    started_ms: u64,
    events: Seq<(EventModel, int)>,
)
    requires
        forall|i: int| 0 <= i < events.len() ==> (#[trigger] events[i]).0 == EventModel::Data(Seq::empty()),
    ensures
        run(settings, StateModel::Polling { trigger_id, started_ms }, events)
            == (StateModel::Polling { trigger_id, started_ms }),
    decreases events.len(),
{
    if events.len() > 0 {
        let front = events.drop_last();
        assert forall|i: int| 0 <= i < front.len() implies (#[trigger] front[i]).0
            == EventModel::Data(Seq::empty()) by {
            assert(front[i] == events[i]);
        }
        empty_reads_keep_polling(settings, trigger_id, started_ms, front);
        assert(events.last() == events[events.len() - 1]);
    }
}

/// A round that begins after the window is over ends the run.
proof fn late_round_ends(
    settings: PollSettings,
    state: StateModel,
    trigger_id: u64,
    started_ms: u64,
    now: int,
    read: ReadModel,
)
    requires
        state == (StateModel::Polling { trigger_id, started_ms }) || state.is_terminal(),
        timed_out(started_ms as int, now, settings.window_ms as int),
    ensures
        run(settings, state, seq![(EventModel::Tick, now)] + read_events(read, now)).is_terminal(),
{
    let events = seq![(EventModel::Tick, now)] + read_events(read, now);
    if state.is_terminal() {
        terminal_is_final(settings, state, events);
    } else {
        let first = seq![(EventModel::Tick, now)];
        assert(first.drop_last() =~= Seq::<(EventModel, int)>::empty());
        assert(run(settings, state, first) == StateModel::TimedOut) by {
            assert(run(settings, state, first.drop_last()) == state);
        }
        run_splits(settings, state, first, read_events(read, now));
        terminal_is_final(settings, StateModel::TimedOut, read_events(read, now));
    }
}

/// Running two lists of events in turn is running their concatenation.
pub proof fn run_splits(
    settings: PollSettings,
    state: StateModel,
    first: Seq<(EventModel, int)>,
    second: Seq<(EventModel, int)>,
)
    ensures
        run(settings, state, first + second) == run(
            settings,
            run(settings, state, first),
            second,
        ),
    decreases second.len(),
{
    if second.len() == 0 {
        assert(first + second =~= first);
    } else {
        assert((first + second).drop_last() =~= first + second.drop_last());
        assert((first + second).last() == second.last());
        run_splits(settings, state, first, second.drop_last());
    }
}

/// Each round leaves the loop polling for the same trigger, or ended.
pub proof fn rounds_stay_or_end(
    settings: PollSettings,
    trigger_id: u64,
    started_ms: u64,
    times: spec_fn(nat) -> int,
    reads: spec_fn(nat) -> ReadModel,
    n: nat,
)
    ensures
        ({
            let after = after_rounds(settings, trigger_id, started_ms, times, reads, n);
            after == (StateModel::Polling { trigger_id, started_ms }) || after.is_terminal()
        }),
    decreases n,
{
    if n == 0 {
        polling_stays_or_ends(
            settings,
            trigger_id,
            started_ms,
            read_events(reads(0), started_ms as int),
        );
    } else {
        rounds_stay_or_end(settings, trigger_id, started_ms, times, reads, (n - 1) as nat);
        let before = after_rounds(settings, trigger_id, started_ms, times, reads, (n - 1) as nat);
        let events = seq![(EventModel::Tick, times(n))] + read_events(reads(n), times(n));
        if before.is_terminal() {
            terminal_is_final(settings, before, events);
        } else {
            polling_stays_or_ends(settings, trigger_id, started_ms, events);
        }
    }
}

/// Polling ends. With an interval that is not zero, and rounds that begin
/// no sooner than one interval after another, the loop has reached
/// `Resolved`, `TimedOut` or `Failed` by the round numbered
/// `window / interval + 1`, whatever the reads return; that round is due no
/// later than one interval after the window's end. Once ended, the loop stays
/// ended.
pub proof fn polling_terminates(
    settings: PollSettings,
    trigger_id: u64,
    started_ms: u64,
    times: spec_fn(nat) -> int,
    reads: spec_fn(nat) -> ReadModel,
)
    requires
        settings.wf(),
        forall|k: nat| k >= 1 ==> #[trigger] times(k) >= started_ms + k * settings.interval_ms,
    ensures
        ({
            let last = (settings.window_ms / settings.interval_ms + 1) as nat;
            &&& last * settings.interval_ms <= settings.window_ms + settings.interval_ms
            &&& forall|n: nat|
                n >= last ==> (#[trigger] after_rounds(
                    settings,
                    trigger_id,
                    started_ms,
                    times,
                    reads,
                    n,
                )).is_terminal()
        }),
{
    let interval = settings.interval_ms as int;
    let window = settings.window_ms as int;
    let last = (settings.window_ms / settings.interval_ms + 1) as nat;
    assert(last * interval > window && last * interval <= window + interval) by (nonlinear_arith)
        requires
            interval > 0,
            window >= 0,
            last == window / interval + 1,
    ;
    assert forall|n: nat| n >= last implies (#[trigger] after_rounds(
        settings,
        trigger_id,
        started_ms,
        times,
        reads,
        n,
    )).is_terminal() by {
        ends_from(settings, trigger_id, started_ms, times, reads, last, n);
    }
}

/// From the first round that begins after the window is over, every round
/// finds the loop ended.
proof fn ends_from(
    settings: PollSettings,
    trigger_id: u64,
    started_ms: u64,
    times: spec_fn(nat) -> int,
    reads: spec_fn(nat) -> ReadModel,
    last: nat,
    n: nat,
)
    requires
        last >= 1,
        n >= last,
        last * settings.interval_ms > settings.window_ms,
        forall|k: nat| k >= 1 ==> #[trigger] times(k) >= started_ms + k * settings.interval_ms,
    ensures
        after_rounds(settings, trigger_id, started_ms, times, reads, n).is_terminal(),
    decreases n,
{
    let before = after_rounds(settings, trigger_id, started_ms, times, reads, (n - 1) as nat);
    if n > last {
        ends_from(settings, trigger_id, started_ms, times, reads, last, (n - 1) as nat);
        terminal_is_final(
            settings,
            before,
            seq![(EventModel::Tick, times(n))] + read_events(reads(n), times(n)),
        );
    } else {
        rounds_stay_or_end(settings, trigger_id, started_ms, times, reads, (n - 1) as nat);
        assert(times(n) >= started_ms + n * settings.interval_ms);
        late_round_ends(settings, before, trigger_id, started_ms, times(n), reads(n));
    }
}

} // verus!
