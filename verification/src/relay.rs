//! The wrapper as a transparent relay for work that advances in steps,
//! such as a future that is polled or a stream that is asked for its next
//! item: what is relayed to the stored value goes as if the value were
//! driven directly.

use crate::mutex::{lemma_new_stores_value, lemma_wrapper_is_new_of_value, WeirdMutex};
use vstd::prelude::*;

verus! {

/// Work that advances in steps, driven directly.
///
/// `step` takes the state of the work and an event (whatever the outside
/// supplies with the step) to the next state and the outcome of the step:
/// "not yet", an item, a final result. `drive` takes one step per event,
/// in order, and gives the state after the last one with the outcomes of
/// all of them.
pub open spec fn drive<T, E, R>(step: spec_fn(T, E) -> (T, R), start: T, events: Seq<E>) -> (
    T,
    Seq<R>,
)
    decreases events.len(),
{
    if events.len() == 0 {
        (start, Seq::empty())
    } else {
        let (state, outcomes) = drive(step, start, events.drop_last());
        let (next, outcome) = step(state, events.last());
        (next, outcomes.push(outcome))
    }
}

/// One step relayed by a wrapper: the step is taken on the stored value,
/// and the wrapper stores what the step leaves.
pub open spec fn relay<T, E, R>(step: spec_fn(T, E) -> (T, R), m: WeirdMutex<T>, event: E) -> (
    WeirdMutex<T>,
    R,
) {
    let (next, outcome) = step(m@, event);
    (WeirdMutex::new(next), outcome)
}

/// Work driven through a wrapper: as [`drive`], with every step relayed.
pub open spec fn drive_wrapped<T, E, R>(
    step: spec_fn(T, E) -> (T, R),
    start: WeirdMutex<T>,
    events: Seq<E>,
) -> (WeirdMutex<T>, Seq<R>)
    decreases events.len(),
{
    if events.len() == 0 {
        (start, Seq::empty())
    } else {
        let (m, outcomes) = drive_wrapped(step, start, events.drop_last());
        let (next, outcome) = relay(step, m, events.last());
        (next, outcomes.push(outcome))
    }
}

/// A step that is taken through `get_mut` is a relayed step.
///
/// Let the wrapper be `before`, and let the step run on the reference that
/// `get_mut` returns: it finds `found` there and leaves `left`, and the
/// wrapper is `after` when the borrow is over. With what `get_mut`
/// promises of these, `after` and the step's outcome are what [`relay`]
/// gives.
pub proof fn lemma_step_through_get_mut<T, E, R>(
    step: spec_fn(T, E) -> (T, R),
    before: WeirdMutex<T>,
    event: E,
    found: T,
    left: T,
    after: WeirdMutex<T>,
)
    requires
        found == before@,
        left == step(found, event).0,
        after@ == left,
    ensures
        relay(step, before, event) == (after, step(found, event).1),
{
    lemma_wrapper_is_new_of_value(after);
}

/// The wrapper is a transparent relay: work driven through a wrapper goes
/// through the same states and has the same outcomes, step for step, as
/// the same work driven directly.
pub proof fn lemma_relay_is_transparent<T, E, R>(
    step: spec_fn(T, E) -> (T, R),
    start: T,
    events: Seq<E>,
)
    ensures
        drive_wrapped(step, WeirdMutex::new(start), events).0@ == drive(step, start, events).0,
        drive_wrapped(step, WeirdMutex::new(start), events).1 == drive(step, start, events).1,
    decreases events.len(),
{
    lemma_new_stores_value(start);
    if events.len() > 0 {
        lemma_relay_is_transparent(step, start, events.drop_last());
        let m = drive_wrapped(step, WeirdMutex::new(start), events.drop_last()).0;
        lemma_new_stores_value(step(m@, events.last()).0);
    }
}

/// Work completes through a wrapper when it completes directly: the first
/// step whose outcome is `done`, if the work is driven directly, is the
/// first such step if it is driven through a wrapper.
pub proof fn lemma_wrapped_completes_with_direct<T, E, R>(
    step: spec_fn(T, E) -> (T, R),
    start: T,
    events: Seq<E>,
    done: R,
    n: int,
)
    requires
        0 <= n < events.len(),
        drive(step, start, events).1[n] == done,
        forall|i: int| 0 <= i < n ==> drive(step, start, events).1[i] != done,
    ensures
        drive_wrapped(step, WeirdMutex::new(start), events).1[n] == done,
        forall|i: int|
            0 <= i < n ==> drive_wrapped(step, WeirdMutex::new(start), events).1[i] != done,
{
    lemma_relay_is_transparent(step, start, events);
}

} // verus!
