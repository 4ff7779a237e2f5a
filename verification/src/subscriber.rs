//! The subscriber: subscribe to the readings' topic, then take what the
//! connection delivers, one event at a time, and show every reading that
//! arrives.
//!
//! Subscribing, receiving, decoding and printing are the caller's work. The
//! subscriber decides what is done about each event. A subscription that is
//! refused is fatal, and so is a payload that cannot be decoded: the
//! subscriber asks for an abort and accepts nothing after it. An error of the
//! connection is reported and the subscriber listens on.

use vstd::prelude::*;
use vstd::string::*;
use crate::broker::{fixed_subscription, subscription, Subscription, SubscriptionView};
use crate::error::{SensorError, SensorErrorView};
use crate::reading::SensorData;
use crate::trace::{lemma_run_concat, lemma_run_first, run};

verus! {

/// What the subscriber waits for, if it has not stopped for good.
#[derive(Clone, Copy, Debug, PartialEq, Eq, Structural)]
pub enum SubscriberState {
    /// Nothing has been done yet.
    Idle,
    /// The subscription is on its way.
    Subscribing,
    /// The connection may deliver something.
    Listening,
    /// A payload is being decoded.
    Decoding,
    /// Nothing more will be done.
    Stopped,
}

/// What the caller reports to the subscriber.
#[derive(Debug, PartialEq, Eq)]
pub enum SubscriberEvent {
    /// The connection is there.
    Started,
    /// The subscription was handed to the connection.
    Subscribed(Result<(), SensorError>),
    /// The broker delivered a message with this payload.
    Publish(Vec<u8>),
    /// The connection reported anything else that went well.
    Other,
    /// The connection reported an error, which it describes so.
    TransportError(String),
    /// The connection will deliver nothing more.
    Exhausted,
    /// The payload was decoded.
    Decoded(Result<SensorData, SensorError>),
}

/// What the subscriber asks of the caller.
#[derive(Clone, Debug, PartialEq, Eq)]
pub enum SubscriberAction {
    /// Hand the subscription to the connection and report `Subscribed`.
    Subscribe(Subscription),
    /// Decode the payload and report `Decoded`.
    Decode(Vec<u8>),
    /// Show the reading, then report what the connection delivers next.
    Emit(SensorData),
    /// Log the line, then report what the connection delivers next.
    Report(String),
    /// Nothing is to be done: report what the connection delivers next.
    Continue,
    /// End the process with this error.
    Abort(SensorError),
    /// Return: there is nothing more to wait for.
    Stop,
}

/// A `SubscriberEvent` as contracts see it.
pub enum SubscriberEventView {
    Started,
    Subscribed(Result<(), SensorErrorView>),
    Publish(Seq<u8>),
    Other,
    TransportError(Seq<char>),
    Exhausted,
    Decoded(Result<SensorData, SensorErrorView>),
}

/// A `SubscriberAction` as contracts see it.
pub enum SubscriberActionView {
    Subscribe(SubscriptionView),
    Decode(Seq<u8>),
    Emit(SensorData),
    Report(Seq<char>),
    Continue,
    Abort(SensorErrorView),
    Stop,
}

impl View for SubscriberEvent {
    type V = SubscriberEventView;

    open spec fn view(&self) -> SubscriberEventView {
        match self {
            SubscriberEvent::Started => SubscriberEventView::Started,
            SubscriberEvent::Subscribed(Ok(())) => SubscriberEventView::Subscribed(Ok(())),
            SubscriberEvent::Subscribed(Err(error)) => SubscriberEventView::Subscribed(Err(error@)),
            SubscriberEvent::Publish(payload) => SubscriberEventView::Publish(payload@),
            SubscriberEvent::Other => SubscriberEventView::Other,
            SubscriberEvent::TransportError(detail) => SubscriberEventView::TransportError(detail@),
            SubscriberEvent::Exhausted => SubscriberEventView::Exhausted,
            SubscriberEvent::Decoded(Ok(reading)) => SubscriberEventView::Decoded(Ok(*reading)),
            SubscriberEvent::Decoded(Err(error)) => SubscriberEventView::Decoded(Err(error@)),
        }
    }
}

impl View for SubscriberAction {
    type V = SubscriberActionView;

    open spec fn view(&self) -> SubscriberActionView {
        match self {
            SubscriberAction::Subscribe(wanted) => SubscriberActionView::Subscribe(wanted@),
            SubscriberAction::Decode(payload) => SubscriberActionView::Decode(payload@),
            SubscriberAction::Emit(reading) => SubscriberActionView::Emit(*reading),
            SubscriberAction::Report(line) => SubscriberActionView::Report(line@),
            SubscriberAction::Continue => SubscriberActionView::Continue,
            SubscriberAction::Abort(error) => SubscriberActionView::Abort(error@),
            SubscriberAction::Stop => SubscriberActionView::Stop,
        }
    }
}

/// The line that reports an error of the connection.
pub open spec fn report_text(detail: Seq<char>) -> Seq<char> {
    "Notification Error: "@ + detail
}

impl SubscriberState {
    /// The subscriber's transitions. An event that does not answer what the
    /// subscriber waits for is not accepted: `None`.
    pub open spec fn next(self, event: SubscriberEventView) -> Option<
        (SubscriberState, SubscriberActionView),
    > {
        match (self, event) {
            (SubscriberState::Idle, SubscriberEventView::Started) => Some(
                (
                    SubscriberState::Subscribing,
                    SubscriberActionView::Subscribe(fixed_subscription()),
                ),
            ),
            (SubscriberState::Subscribing, SubscriberEventView::Subscribed(Ok(()))) => Some(
                (SubscriberState::Listening, SubscriberActionView::Continue),
            ),
            (SubscriberState::Subscribing, SubscriberEventView::Subscribed(Err(error))) => Some(
                (SubscriberState::Stopped, SubscriberActionView::Abort(error)),
            ),
            (SubscriberState::Listening, SubscriberEventView::Publish(payload)) => Some(
                (SubscriberState::Decoding, SubscriberActionView::Decode(payload)),
            ),
            (SubscriberState::Listening, SubscriberEventView::Other) => Some(
                (SubscriberState::Listening, SubscriberActionView::Continue),
            ),
            (SubscriberState::Listening, SubscriberEventView::TransportError(detail)) => Some(
                (SubscriberState::Listening, SubscriberActionView::Report(report_text(detail))),
            ),
            (SubscriberState::Listening, SubscriberEventView::Exhausted) => Some(
                (SubscriberState::Stopped, SubscriberActionView::Stop),
            ),
            (SubscriberState::Decoding, SubscriberEventView::Decoded(Ok(reading))) => Some(
                (SubscriberState::Listening, SubscriberActionView::Emit(reading)),
            ),
            (SubscriberState::Decoding, SubscriberEventView::Decoded(Err(error))) => Some(
                (SubscriberState::Stopped, SubscriberActionView::Abort(error)),
            ),
            _ => None,
        }
    }

    /// The transitions of `next`, as a function of the state and the event.
    pub open spec fn transitions() -> spec_fn(SubscriberState, SubscriberEventView) -> Option<
        (SubscriberState, SubscriberActionView),
    > {
        |state: SubscriberState, event: SubscriberEventView| state.next(event)
    }

    /// What a subscriber in this state makes of `events`, taken in order: the
    /// state it ends in and the actions it asked for.
    pub open spec fn run(self, events: Seq<SubscriberEventView>) -> (
        SubscriberState,
        Seq<SubscriberActionView>,
    ) {
        run(Self::transitions(), self, events)
    }

    /// The state of a subscriber that has not yet done anything.
    pub fn new() -> (state: SubscriberState)
        ensures
            state == SubscriberState::Idle,
    {
        SubscriberState::Idle
    }

    /// Takes what the caller reports and answers with the next state and what
    /// to do about it, or with `None` for an event that the subscriber does
    /// not wait for in this state.
    pub fn step(self, event: SubscriberEvent) -> (next: Option<(SubscriberState, SubscriberAction)>)
        ensures
            match self.next(event@) {
                Some((state, action)) => next matches Some(taken) && taken.0 == state && taken.1@
                    == action,
                None => next is None,
            },
    {
        match self {
            SubscriberState::Idle => match event {
                SubscriberEvent::Started => Some(
                    (SubscriberState::Subscribing, SubscriberAction::Subscribe(subscription())),
                ),
                _ => None,
            },
            SubscriberState::Subscribing => match event {
                SubscriberEvent::Subscribed(Ok(())) => Some(
                    (SubscriberState::Listening, SubscriberAction::Continue),
                ),
                SubscriberEvent::Subscribed(Err(error)) => Some(
                    (SubscriberState::Stopped, SubscriberAction::Abort(error)),
                ),
                _ => None,
            },
            SubscriberState::Listening => match event {
                SubscriberEvent::Publish(payload) => Some(
                    (SubscriberState::Decoding, SubscriberAction::Decode(payload)),
                ),
                SubscriberEvent::Other => Some(
                    (SubscriberState::Listening, SubscriberAction::Continue),
                ),
                SubscriberEvent::TransportError(detail) => {
                    let mut line = String::from_str("Notification Error: ");
                    line.append(detail.as_str());
                    Some((SubscriberState::Listening, SubscriberAction::Report(line)))
                },
                SubscriberEvent::Exhausted => Some(
                    (SubscriberState::Stopped, SubscriberAction::Stop),
                ),
                _ => None,
            },
            SubscriberState::Decoding => match event {
                SubscriberEvent::Decoded(Ok(reading)) => Some(
                    (SubscriberState::Listening, SubscriberAction::Emit(reading)),
                ),
                SubscriberEvent::Decoded(Err(error)) => Some(
                    (SubscriberState::Stopped, SubscriberAction::Abort(error)),
                ),
                _ => None,
            },
            SubscriberState::Stopped => None,
        }
    }
}

/// Whether `event` can stop a subscriber: a subscription that was refused, a
/// payload that could not be decoded, or the end of the stream.
pub open spec fn stops(event: SubscriberEventView) -> bool {
    match event {
        SubscriberEventView::Subscribed(Err(_)) => true,
        SubscriberEventView::Decoded(Err(_)) => true,
        SubscriberEventView::Exhausted => true,
        _ => false,
    }
}

/// One thing that the connection delivers and that leaves the subscriber
/// listening.
pub enum Delivery {
    /// A payload that decodes to a reading.
    Reading { payload: Seq<u8>, reading: SensorData },
    /// Any other event that went well.
    Other,
    /// An error of the connection.
    TransportError { detail: Seq<char> },
}

impl Delivery {
    /// What the caller reports in the course of this delivery.
    pub open spec fn events(self) -> Seq<SubscriberEventView> {
        match self {
            Delivery::Reading { payload, reading } => seq![
                SubscriberEventView::Publish(payload),
                SubscriberEventView::Decoded(Ok(reading)),
            ],
            Delivery::Other => seq![SubscriberEventView::Other],
            Delivery::TransportError { detail } => seq![
                SubscriberEventView::TransportError(detail),
            ],
        }
    }

    /// What the subscriber asks for in the course of this delivery.
    pub open spec fn actions(self) -> Seq<SubscriberActionView> {
        match self {
            Delivery::Reading { payload, reading } => seq![
                SubscriberActionView::Decode(payload),
                SubscriberActionView::Emit(reading),
            ],
            Delivery::Other => seq![SubscriberActionView::Continue],
            Delivery::TransportError { detail } => seq![
                SubscriberActionView::Report(report_text(detail)),
            ],
        }
    }
}

/// The events of `deliveries`, one delivery after the other.
pub open spec fn events_of(deliveries: Seq<Delivery>) -> Seq<SubscriberEventView>
    decreases deliveries.len(),
{
    if deliveries.len() == 0 {
        Seq::empty()
    } else {
        deliveries.first().events() + events_of(deliveries.drop_first())
    }
}

/// The actions of `deliveries`, one delivery after the other.
pub open spec fn actions_of(deliveries: Seq<Delivery>) -> Seq<SubscriberActionView>
    decreases deliveries.len(),
{
    if deliveries.len() == 0 {
        Seq::empty()
    } else {
        deliveries.first().actions() + actions_of(deliveries.drop_first())
    }
}

/// A subscriber that has stopped accepts nothing and asks for nothing.
pub proof fn lemma_stopped_is_final(events: Seq<SubscriberEventView>)
    ensures
        SubscriberState::Stopped.run(events) == (
            SubscriberState::Stopped,
            Seq::<SubscriberActionView>::empty(),
        ),
    decreases events.len(),
{
    if events.len() > 0 {
        lemma_stopped_is_final(events.drop_first());
    }
}

/// A subscriber first asks for the one subscription of the client. Once the
/// connection has taken it, the subscriber listens, and whatever follows is
/// handled by a listening subscriber.
pub proof fn lemma_subscribes_first(later: Seq<SubscriberEventView>)
    ensures
        SubscriberState::Idle.run(
            seq![SubscriberEventView::Started, SubscriberEventView::Subscribed(Ok(()))] + later,
        ) == (
            SubscriberState::Listening.run(later).0,
            seq![
                SubscriberActionView::Subscribe(fixed_subscription()),
                SubscriberActionView::Continue,
            ] + SubscriberState::Listening.run(later).1,
        ),
{
    let next = SubscriberState::transitions();
    let started = SubscriberEventView::Started;
    let subscribed = SubscriberEventView::Subscribed(Ok(()));
    lemma_run_first(next, SubscriberState::Idle, started, seq![subscribed] + later);
    lemma_run_first(next, SubscriberState::Subscribing, subscribed, later);
    assert(seq![started, subscribed] + later =~= seq![started] + (seq![subscribed] + later));
}

/// A subscription that the connection refuses ends the subscriber: it asks
/// for an abort with the error that the connection gave, and nothing that
/// follows is looked at.
pub proof fn lemma_refused_subscription_is_fatal(
    error: SensorErrorView,
    later: Seq<SubscriberEventView>,
)
    ensures
        SubscriberState::Idle.run(
            seq![SubscriberEventView::Started, SubscriberEventView::Subscribed(Err(error))] + later,
        ) == (
            SubscriberState::Stopped,
            seq![
                SubscriberActionView::Subscribe(fixed_subscription()),
                SubscriberActionView::Abort(error),
            ],
        ),
{
    let next = SubscriberState::transitions();
    let started = SubscriberEventView::Started;
    let refused = SubscriberEventView::Subscribed(Err(error));
    lemma_run_first(next, SubscriberState::Idle, started, seq![refused] + later);
    lemma_run_first(next, SubscriberState::Subscribing, refused, later);
    lemma_stopped_is_final(later);
    assert(seq![started, refused] + later =~= seq![started] + (seq![refused] + later));
}

/// An error of the connection is reported and changes nothing else: whatever
/// follows it is handled as if the error had not come.
pub proof fn lemma_transport_error_is_survived(
    detail: Seq<char>,
    later: Seq<SubscriberEventView>,
)
    ensures
        SubscriberState::Listening.run(seq![SubscriberEventView::TransportError(detail)] + later)
            == (
            SubscriberState::Listening.run(later).0,
            seq![SubscriberActionView::Report(report_text(detail))]
                + SubscriberState::Listening.run(later).1,
        ),
{
    lemma_run_first(
        SubscriberState::transitions(),
        SubscriberState::Listening,
        SubscriberEventView::TransportError(detail),
        later,
    );
}

/// A payload that cannot be decoded ends the subscriber: it asks for the
/// decoding, then for an abort with the error that the decoding gave, and
/// nothing that follows is looked at. No reading is shown for that payload.
pub proof fn lemma_malformed_payload_is_fatal(
    payload: Seq<u8>,
    error: SensorErrorView,
    later: Seq<SubscriberEventView>,
)
    ensures
        SubscriberState::Listening.run(
            seq![SubscriberEventView::Publish(payload), SubscriberEventView::Decoded(Err(error))]
                + later,
        ) == (
            SubscriberState::Stopped,
            seq![SubscriberActionView::Decode(payload), SubscriberActionView::Abort(error)],
        ),
{
    let next = SubscriberState::transitions();
    let publish = SubscriberEventView::Publish(payload);
    let decoded = SubscriberEventView::Decoded(Err(error));
    lemma_run_first(next, SubscriberState::Listening, publish, seq![decoded] + later);
    lemma_run_first(next, SubscriberState::Decoding, decoded, later);
    lemma_stopped_is_final(later);
    assert(seq![publish, decoded] + later =~= seq![publish] + (seq![decoded] + later));
}

/// A listening subscriber goes through a delivery exactly as the delivery
/// says, and listens again.
pub proof fn lemma_delivery(delivery: Delivery)
    ensures
        SubscriberState::Listening.run(delivery.events()) == (
            SubscriberState::Listening,
            delivery.actions(),
        ),
{
    let next = SubscriberState::transitions();
    let events = delivery.events();
    let none = Seq::<SubscriberEventView>::empty();
    match delivery {
        Delivery::Reading { payload, reading } => {
            lemma_run_first(next, SubscriberState::Listening, events[0], seq![events[1]]);
            lemma_run_first(next, SubscriberState::Decoding, events[1], none);
            assert(events =~= seq![events[0]] + seq![events[1]]);
        },
        _ => {
            lemma_run_first(next, SubscriberState::Listening, events[0], none);
        },
    }
}

/// Whatever mix of readings, other events and errors of the connection the
/// stream holds, a listening subscriber shows every reading, reports every
/// error, each in its place, and listens again.
pub proof fn lemma_deliveries(deliveries: Seq<Delivery>)
    ensures
        SubscriberState::Listening.run(events_of(deliveries)) == (
            SubscriberState::Listening,
            actions_of(deliveries),
        ),
    decreases deliveries.len(),
{
    if deliveries.len() > 0 {
        lemma_delivery(deliveries.first());
        lemma_deliveries(deliveries.drop_first());
        lemma_run_concat(
            SubscriberState::transitions(),
            SubscriberState::Listening,
            deliveries.first().events(),
            events_of(deliveries.drop_first()),
        );
    }
}

/// A reading that the subscriber asks to show is one that a decoding gave:
/// the subscriber makes up no reading and changes none.
pub proof fn lemma_emitted_was_decoded(
    state: SubscriberState,
    events: Seq<SubscriberEventView>,
    i: int,
)
    requires
        0 <= i < state.run(events).1.len(),
        state.run(events).1[i] is Emit,
    ensures
        exists|j: int|
            0 <= j < events.len() && #[trigger] events[j] == SubscriberEventView::Decoded(
                Ok(state.run(events).1[i]->Emit_0),
            ),
    decreases events.len(),
{
    let reading = state.run(events).1[i]->Emit_0;
    let later = events.drop_first();
    let shown = match state.next(events.first()) {
        Some((then, action)) => (then, i - 1),
        None => (state, i),
    };
    if shown.1 >= 0 {
        lemma_emitted_was_decoded(shown.0, later, shown.1);
        let j = choose|j: int|
            0 <= j < later.len() && #[trigger] later[j] == SubscriberEventView::Decoded(
                Ok(reading),
            );
        assert(events[j + 1] == later[j]);
    }
}

/// A subscriber stops for three reasons only: its subscription was refused, a
/// payload could not be decoded, or the stream has ended.
pub proof fn lemma_stops_only_when_told(state: SubscriberState, events: Seq<SubscriberEventView>)
    requires
        state != SubscriberState::Stopped,
        state.run(events).0 == SubscriberState::Stopped,
    ensures
        exists|j: int| 0 <= j < events.len() && stops(#[trigger] events[j]),
    decreases events.len(),
{
    let later = events.drop_first();
    let then = match state.next(events.first()) {
        Some((then, action)) => then,
        None => state,
    };
    if then != SubscriberState::Stopped {
        lemma_stops_only_when_told(then, later);
        let j = choose|j: int| 0 <= j < later.len() && stops(#[trigger] later[j]);
        assert(events[j + 1] == later[j]);
    }
}

} // verus!
