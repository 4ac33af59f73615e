//! Laws of the dispatcher as a whole: what holds of every event, not just
//! of one row of the transition table.

use vstd::prelude::*;

use crate::dispatch::{apply_event, fallback, row_matches, spec_dispatch};
use crate::state::{EventView, StateView};
use crate::store::state_of;

verus! {

/// An event no row of the current state's transition table accepts is
/// dropped whole: no next state is recorded, no reply is produced, and no
/// acknowledgment is sent.
pub proof fn lemma_unmatched_event_dropped(s: StateView, e: EventView)
    requires
        !row_matches(s, e),
    ensures
        spec_dispatch(s, e) == fallback(),
{
}

/// Dispatching an event no row accepts leaves the whole store as it was:
/// every identity, the addressed one included, reads as before.
pub proof fn lemma_unmatched_event_leaves_store(m: Map<i64, StateView>, id: i64, e: EventView)
    requires
        !row_matches(state_of(m, id), e),
    ensures
        apply_event(m, id, e) == m,
{
}

/// A recorded state never fabricates data: whatever fields the next state
/// carries were supplied by the prior state or by the triggering event, and
/// no transition ever records `Start` again — a conversation leaves it only
/// by the explicit start command.
pub proof fn lemma_fields_never_fabricated(s: StateView, e: EventView)
    ensures
        match spec_dispatch(s, e).next {
            Some(n) => match n {
                StateView::Start => false,
                StateView::AwaitingSymbol => s == StateView::Start,
                StateView::AwaitingPeriod { symbol } => s == StateView::AwaitingSymbol && e
                    == (EventView::ButtonPress { payload: Some(symbol) }),
                StateView::AwaitingConfirmation { symbol, period } => s
                    == (StateView::AwaitingPeriod { symbol }) && e == (EventView::ButtonPress {
                    payload: Some(period),
                }),
            },
            None => true,
        },
{
}

/// Dispatching an event for one identity never touches what any other
/// identity reads as.
pub proof fn lemma_other_identities_untouched(
    m: Map<i64, StateView>,
    id: i64,
    e: EventView,
    other: i64,
)
    requires
        other != id,
    ensures
        state_of(apply_event(m, id, e), other) == state_of(m, other),
{
}

/// Events for two distinct identities are independent: applying them in
/// either order leaves the store in the same state, so serializing events
/// per identity needs no ordering across identities.
pub proof fn lemma_distinct_identities_commute(
    m: Map<i64, StateView>,
    id1: i64,
    e1: EventView,
    id2: i64,
    e2: EventView,
)
    requires
        id1 != id2,
    ensures
        apply_event(apply_event(m, id1, e1), id2, e2) == apply_event(
            apply_event(m, id2, e2),
            id1,
            e1,
        ),
{
    assert(apply_event(apply_event(m, id1, e1), id2, e2) =~= apply_event(
        apply_event(m, id2, e2),
        id1,
        e1,
    ));
}

} // verus!
