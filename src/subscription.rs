use vstd::prelude::*;

use crate::types::DataPoint;
use crate::wire::{data_point_from_wire, point_from_wire, VarDataPoint};

verus! {

/// Where a subscription stands.
#[derive(Debug, Clone, Copy, PartialEq, Eq, Structural)]
pub enum SubscriptionState {
    Requesting,
    Streaming,
    Closed,
    Errored,
}

/// What happened to a subscription since its last step.
#[derive(Debug)]
pub enum StreamEvent {
    /// The handshake was answered and the stream is open.
    Established,
    /// The handshake failed.
    Rejected,
    /// A message came off the stream.
    Message(VarDataPoint),
    /// The service closed the stream.
    Ended,
    /// A pull failed: transport break or an undecodable message.
    Failed,
    /// The caller cancelled the subscription.
    Cancelled,
}

/// What the runner of a subscription does next.
#[derive(Debug)]
pub enum StreamAction {
    /// Pull the next message off the stream.
    Pull,
    /// Hand this point to the caller's handler, then pull the next message.
    Deliver(DataPoint),
    /// Stop the loop and drop the stream.
    Stop,
}

pub open spec fn is_message(e: StreamEvent) -> bool {
    e is Message
}

/// The state a subscription moves to on an event.
pub open spec fn next_state(s: SubscriptionState, e: StreamEvent) -> SubscriptionState {
    match s {
        SubscriptionState::Requesting => match e {
            StreamEvent::Established => SubscriptionState::Streaming,
            StreamEvent::Cancelled => SubscriptionState::Closed,
            _ => SubscriptionState::Errored,
        },
        SubscriptionState::Streaming => match e {
            StreamEvent::Message(_) => SubscriptionState::Streaming,
            StreamEvent::Established => SubscriptionState::Streaming,
            StreamEvent::Failed => SubscriptionState::Errored,
            StreamEvent::Rejected => SubscriptionState::Errored,
            _ => SubscriptionState::Closed,
        },
        _ => s,
    }
}

/// The event is a message handed to the handler: only a streaming
/// subscription delivers.
pub open spec fn delivers(s: SubscriptionState, e: StreamEvent) -> bool {
    s == SubscriptionState::Streaming && e is Message
}

pub open spec fn is_terminal(s: SubscriptionState) -> bool {
    s == SubscriptionState::Closed || s == SubscriptionState::Errored
}

/// The state after a run of events.
pub open spec fn run(s: SubscriptionState, es: Seq<StreamEvent>) -> SubscriptionState
    decreases es.len(),
{
    if es.len() == 0 {
        s
    } else {
        next_state(run(s, es.drop_last()), es.last())
    }
}

/// How many events of a run are handed to the handler.
pub open spec fn deliveries(s: SubscriptionState, es: Seq<StreamEvent>) -> nat
    decreases es.len(),
{
    if es.len() == 0 {
        0
    } else {
        deliveries(s, es.drop_last()) + if delivers(run(s, es.drop_last()), es.last()) {
            1nat
        } else {
            0nat
        }
    }
}

/// The decision loop of one subscription.
pub struct SubscriptionRunner {
    pub state: SubscriptionState,
}

impl SubscriptionRunner {
    /// A subscription whose handshake is under way.
    pub fn new() -> (r: SubscriptionRunner)
        ensures
            r.state == SubscriptionState::Requesting,
    {
        SubscriptionRunner { state: SubscriptionState::Requesting }
    }

    pub fn is_finished(&self) -> (r: bool)
        ensures
            r == is_terminal(self.state),
    {
        match self.state {
            SubscriptionState::Closed | SubscriptionState::Errored => true,
            _ => false,
        }
    }

    /// Takes one event and says what to do: a message on an open stream is
    /// adapted and delivered; every ending, failure or cancellation stops.
    pub fn step(&mut self, e: StreamEvent) -> (a: StreamAction)
        ensures
            final(self).state == next_state(old(self).state, e),
            delivers(old(self).state, e) <==> a is Deliver,
            a is Deliver ==> point_from_wire(e->Message_0, a->Deliver_0),
            a is Pull <==> (next_state(old(self).state, e) == SubscriptionState::Streaming
                && !delivers(old(self).state, e)),
            a is Stop <==> is_terminal(next_state(old(self).state, e)),
    {
        match self.state {
            SubscriptionState::Requesting => match e {
                StreamEvent::Established => {
                    self.state = SubscriptionState::Streaming;
                    StreamAction::Pull
                },
                StreamEvent::Cancelled => {
                    self.state = SubscriptionState::Closed;
                    StreamAction::Stop
                },
                _ => {
                    self.state = SubscriptionState::Errored;
                    StreamAction::Stop
                },
            },
            SubscriptionState::Streaming => match e {
                StreamEvent::Message(w) => StreamAction::Deliver(data_point_from_wire(w)),
                StreamEvent::Established => StreamAction::Pull,
                StreamEvent::Failed | StreamEvent::Rejected => {
                    self.state = SubscriptionState::Errored;
                    StreamAction::Stop
                },
                _ => {
                    self.state = SubscriptionState::Closed;
                    StreamAction::Stop
                },
            },
            _ => StreamAction::Stop,
        }
    }
}

/// Once a subscription has ended, failed or been cancelled it stays so.
pub proof fn lemma_terminal_stays(s: SubscriptionState, es: Seq<StreamEvent>)
    requires
        is_terminal(s),
    ensures
        run(s, es) == s,
        deliveries(s, es) == 0,
    decreases es.len(),
{
    if es.len() > 0 {
        lemma_terminal_stays(s, es.drop_last());
    }
}

/// After a cancellation no event reaches the handler.
pub proof fn lemma_no_delivery_after_cancel(s: SubscriptionState, es: Seq<StreamEvent>)
    ensures
        is_terminal(next_state(s, StreamEvent::Cancelled)),
        deliveries(next_state(s, StreamEvent::Cancelled), es) == 0,
        forall|i: int|
            0 <= i < es.len() ==> !delivers(
                run(next_state(s, StreamEvent::Cancelled), es.take(i)),
                #[trigger] es[i],
            ),
{
    let c = next_state(s, StreamEvent::Cancelled);
    lemma_terminal_stays(c, es);
    assert forall|i: int| 0 <= i < es.len() implies !delivers(run(c, es.take(i)), #[trigger] es[i]) by {
        lemma_terminal_stays(c, es.take(i));
    }
}

/// On an open stream every message is delivered, one per message.
pub proof fn lemma_messages_all_delivered(es: Seq<StreamEvent>)
    requires
        forall|i: int| 0 <= i < es.len() ==> is_message(#[trigger] es[i]),
    ensures
        run(SubscriptionState::Streaming, es) == SubscriptionState::Streaming,
        deliveries(SubscriptionState::Streaming, es) == es.len(),
    decreases es.len(),
{
    if es.len() > 0 {
        let p = es.drop_last();
        assert forall|i: int| 0 <= i < p.len() implies is_message(#[trigger] p[i]) by {
            assert(p[i] == es[i]);
        }
        lemma_messages_all_delivered(p);
        assert(is_message(es[es.len() - 1]));
    }
}

} // verus!
