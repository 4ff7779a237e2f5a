//! Runs of a state machine: what it makes of a sequence of events.

use vstd::prelude::*;

verus! {

/// What a machine with the transitions `next` makes of `events`, taken in
/// order from `state`: the state it ends in and the actions it asked for. An
/// event that `next` does not accept changes nothing and asks for nothing.
pub open spec fn run<S, E, A>(
    next: spec_fn(S, E) -> Option<(S, A)>,
    state: S,
    events: Seq<E>,
) -> (S, Seq<A>)
    decreases events.len(),
{
    if events.len() == 0 {
        (state, Seq::empty())
    } else {
        match next(state, events.first()) {
            Some((then, action)) => {
                let later = run(next, then, events.drop_first());
                (later.0, seq![action] + later.1)
            },
            None => run(next, state, events.drop_first()),
        }
    }
}

/// A run over `event` and then `later` takes one step, if `event` is
/// accepted, and goes on over `later`.
pub proof fn lemma_run_first<S, E, A>(
    next: spec_fn(S, E) -> Option<(S, A)>,
    state: S,
    event: E,
    later: Seq<E>,
)
    ensures
        run(next, state, seq![event] + later) == match next(state, event) {
            Some((then, action)) => (
                run(next, then, later).0,
                seq![action] + run(next, then, later).1,
            ),
            None => run(next, state, later),
        },
{
    assert((seq![event] + later).drop_first() =~= later);
}

/// A run over `first` and then over `second` is the run over both.
pub proof fn lemma_run_concat<S, E, A>(
    next: spec_fn(S, E) -> Option<(S, A)>,
    state: S,
    first: Seq<E>,
    second: Seq<E>,
)
    ensures
        run(next, state, first + second).0 == run(next, run(next, state, first).0, second).0,
        run(next, state, first + second).1 == run(next, state, first).1 + run(
            next,
            run(next, state, first).0,
            second,
        ).1,
    decreases first.len(),
{
    if first.len() > 0 {
        assert((first + second).drop_first() =~= first.drop_first() + second);
        match next(state, first.first()) {
            Some((then, action)) => {
                lemma_run_concat(next, then, first.drop_first(), second);
            },
            None => {
                lemma_run_concat(next, state, first.drop_first(), second);
            },
        }
    }
}

} // verus!
