//! The query bridge: a fixed protocol that adapts one GraphQL request into
//! exactly one synchronous result.
//!
//! The engine delivers results by push: a value notification and a separate
//! completion notification per query. The bridge is the decision core of
//! that exchange, written as a state machine. Each state names the one
//! engine action the driver must perform next; the driver performs it and
//! hands the outcome back as a [`BridgeEvent`]. The driver holds the engine
//! handle, the per-query listener and the two notification channels; the
//! machine holds every decision, so the whole control flow is stated and
//! checked here.

use vstd::prelude::*;

verus! {

/// The outcome of one engine action, reported back by the driver.
pub enum BridgeEvent {
    /// The query text parsed.
    ParseSucceeded,
    /// The query text did not parse; the engine's message, verbatim.
    ParseFailed(String),
    /// The per-query listener was acquired for exclusive use.
    ListenerLocked,
    /// The listener could not be acquired; the failure code's text.
    ListenerLockFailed(String),
    /// The two one-shot notification sinks were registered.
    ListenStarted,
    /// Registration failed; the engine's message, verbatim.
    ListenFailed(String),
    /// The completion notification arrived: no more values will come.
    CompletionReceived,
    /// The completion channel closed with no message: the engine terminated
    /// the query abnormally. The receive failure's text.
    CompletionChannelClosed(String),
    /// The buffered value notification, with its payload.
    ValueReceived(String),
    /// The value channel closed with no message; the receive failure's text.
    ValueChannelClosed(String),
}

/// The mathematical content of an event.
pub enum EventView {
    ParseSucceeded,
    ParseFailed(Seq<char>),
    ListenerLocked,
    ListenerLockFailed(Seq<char>),
    ListenStarted,
    ListenFailed(Seq<char>),
    CompletionReceived,
    CompletionChannelClosed(Seq<char>),
    ValueReceived(Seq<char>),
    ValueChannelClosed(Seq<char>),
}

impl View for BridgeEvent {
    type V = EventView;

    open spec fn view(&self) -> EventView {
        match self {
            BridgeEvent::ParseSucceeded => EventView::ParseSucceeded,
            BridgeEvent::ParseFailed(m) => EventView::ParseFailed(m@),
            BridgeEvent::ListenerLocked => EventView::ListenerLocked,
            BridgeEvent::ListenerLockFailed(c) => EventView::ListenerLockFailed(c@),
            BridgeEvent::ListenStarted => EventView::ListenStarted,
            BridgeEvent::ListenFailed(m) => EventView::ListenFailed(m@),
            BridgeEvent::CompletionReceived => EventView::CompletionReceived,
            BridgeEvent::CompletionChannelClosed(m) => EventView::CompletionChannelClosed(m@),
            BridgeEvent::ValueReceived(v) => EventView::ValueReceived(v@),
            BridgeEvent::ValueChannelClosed(m) => EventView::ValueChannelClosed(m@),
        }
    }
}

/// One run of the bridge. Each non-terminal state names the engine action
/// the driver must perform next.
pub enum BridgeState {
    /// Parse the query text with the engine's parser.
    ParsingQuery,
    /// Create the listener for the parsed query, binding the operation name
    /// and the variables text, and acquire it for exclusive use.
    LockingListener,
    /// Register the value sink and the completion sink with the listener.
    StartingListen,
    /// Block until the completion notification arrives.
    AwaitingCompletion,
    /// Read the already-buffered value notification.
    ReadingValue,
    /// The terminal result: the value payload, or an error text.
    Done(Result<String, String>),
}

/// The mathematical content of a state.
pub enum StateView {
    ParsingQuery,
    LockingListener,
    StartingListen,
    AwaitingCompletion,
    ReadingValue,
    Done(Result<Seq<char>, Seq<char>>),
}

impl View for BridgeState {
    type V = StateView;

    open spec fn view(&self) -> StateView {
        match self {
            BridgeState::ParsingQuery => StateView::ParsingQuery,
            BridgeState::LockingListener => StateView::LockingListener,
            BridgeState::StartingListen => StateView::StartingListen,
            BridgeState::AwaitingCompletion => StateView::AwaitingCompletion,
            BridgeState::ReadingValue => StateView::ReadingValue,
            BridgeState::Done(r) => StateView::Done(outcome_view(r)),
        }
    }
}

/// The mathematical content of a bridge outcome.
pub open spec fn outcome_view(r: &Result<String, String>) -> Result<Seq<char>, Seq<char>> {
    match r {
        Result::Ok(v) => Result::Ok(v@),
        Result::Err(e) => Result::Err(e@),
    }
}

/// The error text for a notification channel that closed before a message
/// arrived.
pub open spec fn recv_error_text(detail: Seq<char>) -> Seq<char> {
    "Error receiving message: "@ + detail
}

/// The error text for a listener that could not be acquired.
pub open spec fn lock_error_text(code: Seq<char>) -> Seq<char> {
    "error code: "@ + code
}

/// Wraps a receive failure's own text in the bridge's error message.
pub fn map_recv_error(detail: &str) -> (r: String)
    ensures
        r@ == recv_error_text(detail@),
{
    let mut message = String::from_str("Error receiving message: ");
    message.append(detail);
    message
}

/// Wraps a listener-lock failure code in the bridge's error message.
pub fn map_lock_error(code: &str) -> (r: String)
    ensures
        r@ == lock_error_text(code@),
{
    let mut message = String::from_str("error code: ");
    message.append(code);
    message
}

/// Whether the protocol accepts the event in the given state: each event is
/// an outcome of exactly the action that the state names. A finished run
/// accepts nothing.
pub open spec fn accepts(s: StateView, e: EventView) -> bool {
    match (s, e) {
        (StateView::ParsingQuery, EventView::ParseSucceeded) => true,
        (StateView::ParsingQuery, EventView::ParseFailed(_)) => true,
        (StateView::LockingListener, EventView::ListenerLocked) => true,
        (StateView::LockingListener, EventView::ListenerLockFailed(_)) => true,
        (StateView::StartingListen, EventView::ListenStarted) => true,
        (StateView::StartingListen, EventView::ListenFailed(_)) => true,
        (StateView::AwaitingCompletion, EventView::CompletionReceived) => true,
        (StateView::AwaitingCompletion, EventView::CompletionChannelClosed(_)) => true,
        (StateView::ReadingValue, EventView::ValueReceived(_)) => true,
        (StateView::ReadingValue, EventView::ValueChannelClosed(_)) => true,
        _ => false,
    }
}

/// The state after one accepted event. Parse and registration failures are
/// surfaced verbatim; lock and channel failures are wrapped in the bridge's
/// error messages; the value payload is passed through verbatim.
pub open spec fn transition(s: StateView, e: EventView) -> StateView {
    match (s, e) {
        (StateView::ParsingQuery, EventView::ParseSucceeded) => StateView::LockingListener,
        (StateView::ParsingQuery, EventView::ParseFailed(m)) => StateView::Done(Result::Err(m)),
        (StateView::LockingListener, EventView::ListenerLocked) => StateView::StartingListen,
        (StateView::LockingListener, EventView::ListenerLockFailed(c)) => StateView::Done(
            Result::Err(lock_error_text(c)),
        ),
        (StateView::StartingListen, EventView::ListenStarted) => StateView::AwaitingCompletion,
        (StateView::StartingListen, EventView::ListenFailed(m)) => StateView::Done(Result::Err(m)),
        (StateView::AwaitingCompletion, EventView::CompletionReceived) => StateView::ReadingValue,
        (StateView::AwaitingCompletion, EventView::CompletionChannelClosed(m)) => StateView::Done(
            Result::Err(recv_error_text(m)),
        ),
        (StateView::ReadingValue, EventView::ValueReceived(v)) => StateView::Done(Result::Ok(v)),
        (StateView::ReadingValue, EventView::ValueChannelClosed(m)) => StateView::Done(
            Result::Err(recv_error_text(m)),
        ),
        (s, _) => s,
    }
}

impl BridgeState {
    /// The state in which every run begins.
    pub fn start() -> (s: BridgeState)
        ensures
            s@ == StateView::ParsingQuery,
    {
        BridgeState::ParsingQuery
    }

    /// Whether the run has reached its terminal result.
    pub fn is_done(&self) -> (b: bool)
        ensures
            b == (self@ is Done),
    {
        matches!(self, BridgeState::Done(_))
    }

    /// The terminal result of a finished run, if any.
    pub fn into_result(self) -> (r: Option<Result<String, String>>)
        ensures
            (self@ is Done) <==> (r is Some),
            self@ matches StateView::Done(o) ==> (r matches Option::Some(v) && outcome_view(&v)
                == o),
    {
        match self {
            BridgeState::Done(r) => Option::Some(r),
            _ => Option::None,
        }
    }
}

/// Advances one run by one event.
pub fn step(state: BridgeState, event: BridgeEvent) -> (next: BridgeState)
    requires
        accepts(state@, event@),
    ensures
        next@ == transition(state@, event@),
{
    match (state, event) {
        (BridgeState::ParsingQuery, BridgeEvent::ParseSucceeded) => BridgeState::LockingListener,
        (BridgeState::ParsingQuery, BridgeEvent::ParseFailed(m)) => BridgeState::Done(
            Result::Err(m),
        ),
        (BridgeState::LockingListener, BridgeEvent::ListenerLocked) => BridgeState::StartingListen,
        (BridgeState::LockingListener, BridgeEvent::ListenerLockFailed(c)) => BridgeState::Done(
            Result::Err(map_lock_error(c.as_str())),
        ),
        (BridgeState::StartingListen, BridgeEvent::ListenStarted) => BridgeState::AwaitingCompletion,
        (BridgeState::StartingListen, BridgeEvent::ListenFailed(m)) => BridgeState::Done(
            Result::Err(m),
        ),
        (BridgeState::AwaitingCompletion, BridgeEvent::CompletionReceived) => BridgeState::ReadingValue,
        (BridgeState::AwaitingCompletion, BridgeEvent::CompletionChannelClosed(m)) => BridgeState::Done(
            Result::Err(map_recv_error(m.as_str())),
        ),
        (BridgeState::ReadingValue, BridgeEvent::ValueReceived(v)) => BridgeState::Done(
            Result::Ok(v),
        ),
        (BridgeState::ReadingValue, BridgeEvent::ValueChannelClosed(m)) => BridgeState::Done(
            Result::Err(map_recv_error(m.as_str())),
        ),
        (other, _) => other,
    }
}

/// The state after feeding a sequence of events, first event first.
pub open spec fn run(s: StateView, events: Seq<EventView>) -> StateView
    decreases events.len(),
{
    if events.len() == 0 {
        s
    } else {
        run(transition(s, events[0]), events.drop_first())
    }
}

/// Whether the protocol accepts the whole event sequence from the given
/// state.
pub open spec fn valid_trace(s: StateView, events: Seq<EventView>) -> bool
    decreases events.len(),
{
    events.len() == 0 || (accepts(s, events[0]) && valid_trace(
        transition(s, events[0]),
        events.drop_first(),
    ))
}

/// A parse failure is terminal: the run ends at once with the engine's
/// message, verbatim, and a finished run accepts no further event — in
/// particular, the state that creates the listener is never reached.
pub proof fn lemma_parse_failure_is_terminal(message: Seq<char>, e: EventView)
    ensures
        transition(StateView::ParsingQuery, EventView::ParseFailed(message)) == StateView::Done(
            Result::<Seq<char>, Seq<char>>::Err(message),
        ),
        !accepts(StateView::Done(Result::<Seq<char>, Seq<char>>::Err(message)), e),
{
}

/// Any accepted run that begins with a parse failure is that single failing
/// step: no listener is ever created for a malformed query.
pub proof fn lemma_parse_failure_trace(events: Seq<EventView>, message: Seq<char>)
    requires
        events.len() > 0,
        events[0] == EventView::ParseFailed(message),
        valid_trace(StateView::ParsingQuery, events),
    ensures
        events.len() == 1,
        run(StateView::ParsingQuery, events) == StateView::Done(
            Result::<Seq<char>, Seq<char>>::Err(message),
        ),
{
    let finished = StateView::Done(Result::<Seq<char>, Seq<char>>::Err(message));
    assert(transition(StateView::ParsingQuery, events[0]) == finished);
    assert(valid_trace(finished, events.drop_first()));
    if events.drop_first().len() > 0 {
        assert(!accepts(finished, events.drop_first()[0]));
    }
    assert(run(finished, events.drop_first()) == finished);
}

/// The successful protocol run: the query parses, the listener is locked,
/// listening starts, completion arrives, and the one buffered value is
/// read. The bridge's result is that value's payload, verbatim.
pub proof fn lemma_successful_run(payload: Seq<char>)
    ensures
        valid_trace(StateView::ParsingQuery, successful_events(payload)),
        run(StateView::ParsingQuery, successful_events(payload)) == StateView::Done(
            Result::<Seq<char>, Seq<char>>::Ok(payload),
        ),
{
    let events = successful_events(payload);
    let tail1 = events.drop_first();
    let tail2 = tail1.drop_first();
    let tail3 = tail2.drop_first();
    let tail4 = tail3.drop_first();
    let tail5 = tail4.drop_first();
    let finished = StateView::Done(Result::<Seq<char>, Seq<char>>::Ok(payload));
    assert(events[0] == EventView::ParseSucceeded);
    assert(tail1[0] == EventView::ListenerLocked && tail1.len() == 4);
    assert(tail2[0] == EventView::ListenStarted && tail2.len() == 3);
    assert(tail3[0] == EventView::CompletionReceived && tail3.len() == 2);
    assert(tail4[0] == EventView::ValueReceived(payload) && tail4.len() == 1);
    assert(tail5.len() == 0);
    assert(run(StateView::ParsingQuery, events) == run(StateView::LockingListener, tail1));
    assert(run(StateView::LockingListener, tail1) == run(StateView::StartingListen, tail2));
    assert(run(StateView::StartingListen, tail2) == run(StateView::AwaitingCompletion, tail3));
    assert(run(StateView::AwaitingCompletion, tail3) == run(StateView::ReadingValue, tail4));
    assert(run(StateView::ReadingValue, tail4) == run(finished, tail5));
    assert(run(finished, tail5) == finished);
    assert(valid_trace(finished, tail5));
    assert(valid_trace(StateView::ReadingValue, tail4));
    assert(valid_trace(StateView::AwaitingCompletion, tail3));
    assert(valid_trace(StateView::StartingListen, tail2));
    assert(valid_trace(StateView::LockingListener, tail1));
    assert(valid_trace(StateView::ParsingQuery, events));
}

/// The event sequence of a successful one-shot query.
pub open spec fn successful_events(payload: Seq<char>) -> Seq<EventView> {
    seq![
        EventView::ParseSucceeded,
        EventView::ListenerLocked,
        EventView::ListenStarted,
        EventView::CompletionReceived,
        EventView::ValueReceived(payload),
    ]
}

/// Results never cross between runs: when an accepted run ends with a
/// success payload, that payload was delivered by a value notification of
/// this run's own event sequence. Concurrent requests each drive their own
/// run over their own listener's events, so each caller can only ever see a
/// value its own listener delivered.
pub proof fn lemma_result_from_own_events(s: StateView, events: Seq<EventView>, payload: Seq<char>)
    requires
        valid_trace(s, events),
        run(s, events) == StateView::Done(Result::<Seq<char>, Seq<char>>::Ok(payload)),
        s != StateView::Done(Result::<Seq<char>, Seq<char>>::Ok(payload)),
    ensures
        exists|i: int|
            0 <= i < events.len() && events[i] == EventView::ValueReceived(payload),
    decreases events.len(),
{
    let finished = StateView::Done(Result::<Seq<char>, Seq<char>>::Ok(payload));
    assert(events.len() > 0);
    let next = transition(s, events[0]);
    if next == finished {
        assert(events[0] == EventView::ValueReceived(payload));
    } else {
        lemma_result_from_own_events(next, events.drop_first(), payload);
        let j = choose|j: int|
            0 <= j < events.drop_first().len() && events.drop_first()[j]
                == EventView::ValueReceived(payload);
        assert(events[j + 1] == EventView::ValueReceived(payload));
    }
}

} // verus!
