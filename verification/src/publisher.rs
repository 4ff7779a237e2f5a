//! The publisher: read the sensor, encode the reading, submit it, pause, and
//! again, for as long as the process lives.
//!
//! Reading the clock, encoding, submitting and sleeping are the caller's work.
//! The publisher decides: it is a state machine that takes the outcome of the
//! step just performed and answers with the step to perform next.

use vstd::prelude::*;
use vstd::string::*;
use crate::broker::{publication, publication_of, Publication, PublicationView};
use crate::error::{SensorError, SensorErrorView};
use crate::reading::SensorData;
use crate::trace::{lemma_run_concat, lemma_run_first, run};

verus! {

/// Seconds between the end of one attempt and the start of the next, whether
/// the attempt succeeded or not.
pub const RETRY_SECS: u64 = 4;

/// The step of an attempt whose outcome the publisher waits for.
#[derive(Clone, Copy, Debug, PartialEq, Eq, Structural)]
pub enum Stage {
    Sensing,
    Encoding,
    Submitting,
}

/// The publisher is between two attempts, or in one.
#[derive(Clone, Copy, Debug, PartialEq, Eq, Structural)]
pub enum PublisherState {
    Idle,
    Attempting(Stage),
}

/// What the caller reports to the publisher.
#[derive(Debug, PartialEq, Eq)]
pub enum PublisherEvent {
    /// The process has started, or a pause has run out.
    Woke,
    /// The sensor was read.
    Sensed(Result<SensorData, SensorError>),
    /// The reading was encoded.
    Encoded(Result<String, SensorError>),
    /// The publication was handed to the connection.
    Submitted(Result<(), SensorError>),
}

/// What the publisher asks of the caller.
#[derive(Clone, Debug, PartialEq, Eq)]
pub enum PublisherAction {
    /// Read the sensor and report `Sensed`.
    Sense,
    /// Encode the reading and report `Encoded`.
    Encode(SensorData),
    /// Hand the publication to the connection and report `Submitted`.
    Submit(Publication),
    /// Print the diagnostic if there is one, sleep, and report `Woke`.
    Pause { diagnostic: Option<String>, secs: u64 },
}

/// A `PublisherEvent` as contracts see it.
pub enum PublisherEventView {
    Woke,
    Sensed(Result<SensorData, SensorErrorView>),
    Encoded(Result<Seq<char>, SensorErrorView>),
    Submitted(Result<(), SensorErrorView>),
}

/// A `PublisherAction` as contracts see it.
pub enum PublisherActionView {
    Sense,
    Encode(SensorData),
    Submit(PublicationView),
    Pause { diagnostic: Option<Seq<char>>, secs: u64 },
}

impl View for PublisherEvent {
    type V = PublisherEventView;

    open spec fn view(&self) -> PublisherEventView {
        match self {
            PublisherEvent::Woke => PublisherEventView::Woke,
            PublisherEvent::Sensed(Ok(reading)) => PublisherEventView::Sensed(Ok(*reading)),
            PublisherEvent::Sensed(Err(error)) => PublisherEventView::Sensed(Err(error@)),
            PublisherEvent::Encoded(Ok(payload)) => PublisherEventView::Encoded(Ok(payload@)),
            PublisherEvent::Encoded(Err(error)) => PublisherEventView::Encoded(Err(error@)),
            PublisherEvent::Submitted(Ok(())) => PublisherEventView::Submitted(Ok(())),
            PublisherEvent::Submitted(Err(error)) => PublisherEventView::Submitted(Err(error@)),
        }
    }
}

impl View for PublisherAction {
    type V = PublisherActionView;

    open spec fn view(&self) -> PublisherActionView {
        match self {
            PublisherAction::Sense => PublisherActionView::Sense,
            PublisherAction::Encode(reading) => PublisherActionView::Encode(*reading),
            PublisherAction::Submit(publication) => PublisherActionView::Submit(publication@),
            PublisherAction::Pause { diagnostic: Some(text), secs } => PublisherActionView::Pause {
                diagnostic: Some(text@),
                secs: *secs,
            },
            PublisherAction::Pause { diagnostic: None, secs } => PublisherActionView::Pause {
                diagnostic: None,
                secs: *secs,
            },
        }
    }
}

/// The line that reports a failed attempt.
pub open spec fn diagnostic_text(error: SensorErrorView) -> Seq<char> {
    "Sorry, did not work, again in 4 secs, "@ + error.text()
}

/// The pause that ends an attempt which went through.
pub open spec fn quiet_pause() -> PublisherActionView {
    PublisherActionView::Pause { diagnostic: None, secs: RETRY_SECS }
}

/// The pause that ends an attempt which `error` cut short.
pub open spec fn reporting_pause(error: SensorErrorView) -> PublisherActionView {
    PublisherActionView::Pause { diagnostic: Some(diagnostic_text(error)), secs: RETRY_SECS }
}

impl PublisherState {
    /// The publisher's transitions. An event that does not answer what the
    /// publisher waits for is not accepted: `None`.
    pub open spec fn next(self, event: PublisherEventView) -> Option<
        (PublisherState, PublisherActionView),
    > {
        match (self, event) {
            (PublisherState::Idle, PublisherEventView::Woke) => Some(
                (PublisherState::Attempting(Stage::Sensing), PublisherActionView::Sense),
            ),
            (
                PublisherState::Attempting(Stage::Sensing),
                PublisherEventView::Sensed(Ok(reading)),
            ) => Some(
                (PublisherState::Attempting(Stage::Encoding), PublisherActionView::Encode(reading)),
            ),
            (
                PublisherState::Attempting(Stage::Encoding),
                PublisherEventView::Encoded(Ok(payload)),
            ) => Some(
                (
                    PublisherState::Attempting(Stage::Submitting),
                    PublisherActionView::Submit(publication_of(payload)),
                ),
            ),
            (
                PublisherState::Attempting(Stage::Submitting),
                PublisherEventView::Submitted(Ok(())),
            ) => Some((PublisherState::Idle, quiet_pause())),
            (PublisherState::Attempting(Stage::Sensing), PublisherEventView::Sensed(Err(error)))
            | (PublisherState::Attempting(Stage::Encoding), PublisherEventView::Encoded(Err(error)))
            | (
                PublisherState::Attempting(Stage::Submitting),
                PublisherEventView::Submitted(Err(error)),
            ) => Some((PublisherState::Idle, reporting_pause(error))),
            _ => None,
        }
    }

    /// One if a submission is under way, else zero.
    pub open spec fn submitting(self) -> nat {
        if self == PublisherState::Attempting(Stage::Submitting) {
            1
        } else {
            0
        }
    }

    /// The transitions of `next`, as a function of the state and the event.
    pub open spec fn transitions() -> spec_fn(PublisherState, PublisherEventView) -> Option<
        (PublisherState, PublisherActionView),
    > {
        |state: PublisherState, event: PublisherEventView| state.next(event)
    }

    /// What a publisher in this state makes of `events`, taken in order: the
    /// state it ends in and the actions it asked for.
    pub open spec fn run(self, events: Seq<PublisherEventView>) -> (
        PublisherState,
        Seq<PublisherActionView>,
    ) {
        run(Self::transitions(), self, events)
    }

    /// The state of a publisher that has not yet attempted anything.
    pub fn new() -> (state: PublisherState)
        ensures
            state == PublisherState::Idle,
    {
        PublisherState::Idle
    }

    /// Takes the outcome of the step just performed and answers with the next
    /// state and the step to perform next, or with `None` for an event that
    /// the publisher does not wait for in this state.
    pub fn step(self, event: PublisherEvent) -> (next: Option<(PublisherState, PublisherAction)>)
        ensures
            match self.next(event@) {
                Some((state, action)) => next matches Some(taken) && taken.0 == state && taken.1@
                    == action,
                None => next is None,
            },
    {
        match self {
            PublisherState::Idle => match event {
                PublisherEvent::Woke => Some(
                    (PublisherState::Attempting(Stage::Sensing), PublisherAction::Sense),
                ),
                _ => None,
            },
            PublisherState::Attempting(Stage::Sensing) => match event {
                PublisherEvent::Sensed(Ok(reading)) => Some(
                    (PublisherState::Attempting(Stage::Encoding), PublisherAction::Encode(reading)),
                ),
                PublisherEvent::Sensed(Err(error)) => Some(
                    (PublisherState::Idle, report_and_pause(&error)),
                ),
                _ => None,
            },
            PublisherState::Attempting(Stage::Encoding) => match event {
                PublisherEvent::Encoded(Ok(payload)) => Some(
                    (
                        PublisherState::Attempting(Stage::Submitting),
                        PublisherAction::Submit(publication(payload)),
                    ),
                ),
                PublisherEvent::Encoded(Err(error)) => Some(
                    (PublisherState::Idle, report_and_pause(&error)),
                ),
                _ => None,
            },
            PublisherState::Attempting(Stage::Submitting) => match event {
                PublisherEvent::Submitted(Ok(())) => Some(
                    (
                        PublisherState::Idle,
                        PublisherAction::Pause { diagnostic: None, secs: RETRY_SECS },
                    ),
                ),
                PublisherEvent::Submitted(Err(error)) => Some(
                    (PublisherState::Idle, report_and_pause(&error)),
                ),
                _ => None,
            },
        }
    }
}

/// The pause that reports `error` and ends the attempt.
fn report_and_pause(error: &SensorError) -> (action: PublisherAction)
    ensures
        action@ == reporting_pause(error@),
{
    let mut line = String::from_str("Sorry, did not work, again in 4 secs, ");
    let shown = error.to_string();
    line.append(shown.as_str());
    PublisherAction::Pause { diagnostic: Some(line), secs: RETRY_SECS }
}

/// How many of `actions` are submissions.
pub open spec fn submissions(actions: Seq<PublisherActionView>) -> nat
    decreases actions.len(),
{
    if actions.len() == 0 {
        0
    } else if actions.first() is Submit {
        1 + submissions(actions.drop_first())
    } else {
        submissions(actions.drop_first())
    }
}

/// How many of `actions` are pauses.
pub open spec fn pauses(actions: Seq<PublisherActionView>) -> nat
    decreases actions.len(),
{
    if actions.len() == 0 {
        0
    } else if actions.first() is Pause {
        1 + pauses(actions.drop_first())
    } else {
        pauses(actions.drop_first())
    }
}

/// Whether `event` reports a step that failed.
pub open spec fn reports_failure(event: PublisherEventView) -> bool {
    match event {
        PublisherEventView::Sensed(Err(_)) => true,
        PublisherEventView::Encoded(Err(_)) => true,
        PublisherEventView::Submitted(Err(_)) => true,
        _ => false,
    }
}

/// One attempt of the publisher, told by how far it got.
pub enum Attempt {
    /// The sensor gave no reading.
    Unread { error: SensorErrorView },
    /// The reading could not be encoded.
    Unencoded { reading: SensorData, error: SensorErrorView },
    /// The payload was handed to the connection, which took it or did not.
    Handed { reading: SensorData, payload: Seq<char>, outcome: Result<(), SensorErrorView> },
}

impl Attempt {
    /// What the caller reports in the course of this attempt.
    pub open spec fn events(self) -> Seq<PublisherEventView> {
        match self {
            Attempt::Unread { error } => seq![
                PublisherEventView::Woke,
                PublisherEventView::Sensed(Err(error)),
            ],
            Attempt::Unencoded { reading, error } => seq![
                PublisherEventView::Woke,
                PublisherEventView::Sensed(Ok(reading)),
                PublisherEventView::Encoded(Err(error)),
            ],
            Attempt::Handed { reading, payload, outcome } => seq![
                PublisherEventView::Woke,
                PublisherEventView::Sensed(Ok(reading)),
                PublisherEventView::Encoded(Ok(payload)),
                PublisherEventView::Submitted(outcome),
            ],
        }
    }

    /// What the publisher asks for in the course of this attempt.
    pub open spec fn actions(self) -> Seq<PublisherActionView> {
        match self {
            Attempt::Unread { error } => seq![PublisherActionView::Sense, reporting_pause(error)],
            Attempt::Unencoded { reading, error } => seq![
                PublisherActionView::Sense,
                PublisherActionView::Encode(reading),
                reporting_pause(error),
            ],
            Attempt::Handed { reading, payload, outcome } => seq![
                PublisherActionView::Sense,
                PublisherActionView::Encode(reading),
                PublisherActionView::Submit(publication_of(payload)),
                match outcome {
                    Ok(_) => quiet_pause(),
                    Err(error) => reporting_pause(error),
                },
            ],
        }
    }
}

/// The events of `attempts`, one attempt after the other.
pub open spec fn events_of(attempts: Seq<Attempt>) -> Seq<PublisherEventView>
    decreases attempts.len(),
{
    if attempts.len() == 0 {
        Seq::empty()
    } else {
        attempts.first().events() + events_of(attempts.drop_first())
    }
}

/// The actions of `attempts`, one attempt after the other.
pub open spec fn actions_of(attempts: Seq<Attempt>) -> Seq<PublisherActionView>
    decreases attempts.len(),
{
    if attempts.len() == 0 {
        Seq::empty()
    } else {
        attempts.first().actions() + actions_of(attempts.drop_first())
    }
}

/// The publisher has no last state: whatever state it is in, there is an
/// event that it accepts.
pub proof fn lemma_never_stuck(state: PublisherState)
    ensures
        exists|event: PublisherEventView| state.next(event) is Some,
{
    let event = match state {
        PublisherState::Idle => PublisherEventView::Woke,
        PublisherState::Attempting(Stage::Sensing) => PublisherEventView::Sensed(
            Err(arbitrary()),
        ),
        PublisherState::Attempting(Stage::Encoding) => PublisherEventView::Encoded(
            Err(arbitrary()),
        ),
        PublisherState::Attempting(Stage::Submitting) => PublisherEventView::Submitted(Ok(())),
    };
    assert(state.next(event) is Some);
}

/// An accepted event that reports a failure ends the attempt: the publisher
/// asks for a pause of the fixed length with a diagnostic, and is idle. A wake
/// is always accepted by an idle publisher and starts the next attempt.
pub proof fn lemma_failure_is_reported_and_retried(
    state: PublisherState,
    event: PublisherEventView,
)
    requires
        reports_failure(event),
        state.next(event) is Some,
    ensures
        state.next(event) matches Some(taken) && taken.0 == PublisherState::Idle && (taken.1
            matches PublisherActionView::Pause { diagnostic, secs } && diagnostic is Some && secs
            == RETRY_SECS),
        PublisherState::Idle.next(PublisherEventView::Woke) == Some(
            (PublisherState::Attempting(Stage::Sensing), PublisherActionView::Sense),
        ),
{
}

/// Nothing is dropped in silence: a payload that the publisher accepts is the
/// payload of the submission it asks for, and a failure that it accepts is
/// the failure that its diagnostic tells of.
pub proof fn lemma_nothing_is_dropped(state: PublisherState, event: PublisherEventView)
    requires
        state.next(event) is Some,
    ensures
        event matches PublisherEventView::Encoded(Ok(payload)) ==> state.next(event).unwrap().1
            == PublisherActionView::Submit(publication_of(payload)),
        event matches PublisherEventView::Sensed(Err(error)) ==> state.next(event).unwrap().1
            == reporting_pause(error),
        event matches PublisherEventView::Encoded(Err(error)) ==> state.next(event).unwrap().1
            == reporting_pause(error),
        event matches PublisherEventView::Submitted(Err(error)) ==> state.next(event).unwrap().1
            == reporting_pause(error),
{
}

/// An idle publisher goes through an attempt exactly as the attempt says, and
/// is idle again: it asks for one read, for one encoding if there is a
/// reading, for one submission if there is a payload, and at the end for one
/// pause of the fixed length, with a diagnostic if and only if a step failed.
pub proof fn lemma_attempt(attempt: Attempt)
    ensures
        PublisherState::Idle.run(attempt.events()) == (PublisherState::Idle, attempt.actions()),
{
    let next = PublisherState::transitions();
    let events = attempt.events();
    let sensing = PublisherState::Attempting(Stage::Sensing);
    let encoding = PublisherState::Attempting(Stage::Encoding);
    let submitting = PublisherState::Attempting(Stage::Submitting);
    let none = Seq::<PublisherEventView>::empty();
    match attempt {
        Attempt::Unread { error } => {
            lemma_run_first(next, PublisherState::Idle, events[0], seq![events[1]]);
            lemma_run_first(next, sensing, events[1], none);
            assert(events =~= seq![events[0]] + seq![events[1]]);
        },
        Attempt::Unencoded { reading, error } => {
            lemma_run_first(next, PublisherState::Idle, events[0], seq![events[1], events[2]]);
            lemma_run_first(next, sensing, events[1], seq![events[2]]);
            lemma_run_first(next, encoding, events[2], none);
            assert(events =~= seq![events[0]] + seq![events[1], events[2]]);
            assert(seq![events[1], events[2]] =~= seq![events[1]] + seq![events[2]]);
        },
        Attempt::Handed { reading, payload, outcome } => {
            lemma_run_first(
                next,
                PublisherState::Idle,
                events[0],
                seq![events[1], events[2], events[3]],
            );
            lemma_run_first(next, sensing, events[1], seq![events[2], events[3]]);
            lemma_run_first(next, encoding, events[2], seq![events[3]]);
            lemma_run_first(next, submitting, events[3], none);
            assert(events =~= seq![events[0]] + seq![events[1], events[2], events[3]]);
            assert(seq![events[1], events[2], events[3]] =~= seq![events[1]] + seq![
                events[2],
                events[3],
            ]);
            assert(seq![events[2], events[3]] =~= seq![events[2]] + seq![events[3]]);
        },
    }
}

/// However many attempts follow one another and however each of them ends, an
/// idle publisher goes through all of them in order and is idle again: no
/// failure stops it, and each attempt is followed by the next.
pub proof fn lemma_attempts(attempts: Seq<Attempt>)
    ensures
        PublisherState::Idle.run(events_of(attempts)) == (
            PublisherState::Idle,
            actions_of(attempts),
        ),
    decreases attempts.len(),
{
    if attempts.len() > 0 {
        lemma_attempt(attempts.first());
        lemma_attempts(attempts.drop_first());
        lemma_run_concat(
            PublisherState::transitions(),
            PublisherState::Idle,
            attempts.first().events(),
            events_of(attempts.drop_first()),
        );
    }
}

/// Every pause that a publisher asks for has the fixed length.
pub proof fn lemma_every_pause_is_fixed(
    state: PublisherState,
    events: Seq<PublisherEventView>,
    i: int,
)
    requires
        0 <= i < state.run(events).1.len(),
        state.run(events).1[i] is Pause,
    ensures
        state.run(events).1[i]->secs == RETRY_SECS,
    decreases events.len(),
{
    match state.next(events.first()) {
        Some((then, action)) => {
            if i > 0 {
                lemma_every_pause_is_fixed(then, events.drop_first(), i - 1);
            }
        },
        None => {
            lemma_every_pause_is_fixed(state, events.drop_first(), i);
        },
    }
}

/// Over any run, the submissions asked for, and one more if a submission was
/// under way at the start, are at most the pauses asked for, and one more if a
/// submission is under way at the end. So no two submissions come without a
/// pause between them. Where no event reports a failure the two are equal:
/// one submission for each pause.
pub proof fn lemma_one_submission_per_pause(state: PublisherState, events: Seq<PublisherEventView>)
    ensures
        submissions(state.run(events).1) + state.submitting() <= pauses(state.run(events).1)
            + state.run(events).0.submitting(),
        (forall|i: int| 0 <= i < events.len() ==> !reports_failure(#[trigger] events[i]))
            ==> submissions(state.run(events).1) + state.submitting() == pauses(
            state.run(events).1,
        ) + state.run(events).0.submitting(),
    decreases events.len(),
{
    if events.len() > 0 {
        let later = events.drop_first();
        match state.next(events.first()) {
            Some((then, action)) => {
                lemma_one_submission_per_pause(then, later);
                assert((seq![action] + then.run(later).1).drop_first() =~= then.run(later).1);
            },
            None => {
                lemma_one_submission_per_pause(state, later);
            },
        }
    }
}

} // verus!
