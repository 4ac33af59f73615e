//! The state machine dispatcher: the transition table of the guided flow
//! (start command, symbol choice, interval choice, confirmation) as a spec
//! function, the verified executable dispatch that implements it, and the
//! driver step that combines it with the store.

use vstd::prelude::*;

use crate::state::{Event, EventView, Outcome, OutcomeView, Reply, ReplyView, State, StateView};
use crate::store::{state_of, Store};

verus! {

/// The two symbols offered from `Start`.
pub open spec fn symbol_menu() -> Seq<Seq<char>> {
    seq!["BTCUSDT"@, "ETHUSDT"@]
}

/// The three intervals offered once a symbol is chosen.
pub open spec fn interval_menu() -> Seq<Seq<char>> {
    seq!["1h"@, "4h"@, "1d"@]
}

/// The single confirmation button offered once an interval is chosen.
pub open spec fn submit_menu() -> Seq<Seq<char>> {
    seq!["Submit"@]
}

/// The outcome of an event no row of the transition table accepts: the
/// stored state stays, no reply is sent, nothing is acknowledged.
pub open spec fn fallback() -> OutcomeView {
    OutcomeView { next: None, reply: None, ack: false }
}

/// Whether the transition table has a row for this state and event kind:
/// the start command in `Start`, and a button press in each later state.
pub open spec fn row_matches(s: StateView, e: EventView) -> bool {
    match (s, e) {
        (StateView::Start, EventView::Command { name, .. }) => name == "start"@,
        (StateView::AwaitingSymbol, EventView::ButtonPress { .. }) => true,
        (StateView::AwaitingPeriod { .. }, EventView::ButtonPress { .. }) => true,
        (StateView::AwaitingConfirmation { .. }, EventView::ButtonPress { .. }) => true,
        _ => false,
    }
}

/// The transition table. For each state and event it gives the full
/// outcome: the state to record (`None` keeps the stored state), the reply
/// with its text and button menu, and whether the click is acknowledged.
/// Events without a matching row fall back to being dropped silently.
pub open spec fn spec_dispatch(s: StateView, e: EventView) -> OutcomeView {
    match (s, e) {
        (StateView::Start, EventView::Command { name, text }) => {
            if name == "start"@ {
                match text {
                    Some(_) => OutcomeView {
                        next: Some(StateView::AwaitingSymbol),
                        reply: Some(
                            ReplyView {
                                text: "Select your trading pair: "@,
                                buttons: Some(symbol_menu()),
                            },
                        ),
                        ack: false,
                    },
                    None => OutcomeView {
                        next: None,
                        reply: Some(ReplyView { text: "Please select:"@, buttons: None }),
                        ack: false,
                    },
                }
            } else {
                fallback()
            }
        },
        (StateView::AwaitingSymbol, EventView::ButtonPress { payload }) => {
            match payload {
                Some(symbol) => OutcomeView {
                    next: Some(StateView::AwaitingPeriod { symbol }),
                    reply: Some(
                        ReplyView {
                            text: "Select interval for "@ + symbol + ":"@,
                            buttons: Some(interval_menu()),
                        },
                    ),
                    ack: true,
                },
                None => OutcomeView {
                    next: None,
                    reply: Some(ReplyView { text: "Select symbol"@, buttons: None }),
                    ack: false,
                },
            }
        },
        (StateView::AwaitingPeriod { symbol }, EventView::ButtonPress { payload }) => {
            match payload {
                Some(period) => OutcomeView {
                    next: Some(StateView::AwaitingConfirmation { symbol, period }),
                    reply: Some(
                        ReplyView {
                            text: "Ticker: "@ + symbol + "\nInterval: "@ + period,
                            buttons: Some(submit_menu()),
                        },
                    ),
                    ack: true,
                },
                None => OutcomeView {
                    next: None,
                    reply: Some(ReplyView { text: "Select interval"@, buttons: None }),
                    ack: false,
                },
            }
        },
        (StateView::AwaitingConfirmation { symbol, period }, EventView::ButtonPress { payload }) => {
            match payload {
                Some(_) => OutcomeView {
                    next: None,
                    reply: Some(ReplyView { text: period + "\n "@ + symbol, buttons: None }),
                    ack: true,
                },
                None => fallback(),
            }
        },
        _ => fallback(),
    }
}

/// The symbol menu as button labels.
fn symbol_buttons() -> (v: Vec<String>)
    ensures
        v.deep_view() == symbol_menu(),
{
    let mut v: Vec<String> = Vec::new();
    v.push(String::from_str("BTCUSDT"));
    v.push(String::from_str("ETHUSDT"));
    v
}

/// The interval menu as button labels.
fn interval_buttons() -> (v: Vec<String>)
    ensures
        v.deep_view() == interval_menu(),
{
    let mut v: Vec<String> = Vec::new();
    v.push(String::from_str("1h"));
    v.push(String::from_str("4h"));
    v.push(String::from_str("1d"));
    v
}

/// The confirmation menu as button labels.
fn submit_buttons() -> (v: Vec<String>)
    ensures
        v.deep_view() == submit_menu(),
{
    let mut v: Vec<String> = Vec::new();
    v.push(String::from_str("Submit"));
    v
}

/// Route one event against the current state of its conversation: exactly
/// the transition table `spec_dispatch`, including every reply text, menu
/// and acknowledgment flag.
pub fn dispatch(state: &State, event: &Event) -> (r: Outcome)
    ensures
        r@ == spec_dispatch(state@, event@),
{
    match (state, event) {
        (State::Start, Event::Command { name, text }) => {
            let start_name = String::from_str("start");
            if *name == start_name {
                match text {
                    Some(_) => Outcome {
                        next: Some(State::AwaitingSymbol),
                        reply: Some(
                            Reply {
                                text: String::from_str("Select your trading pair: "),
                                buttons: Some(symbol_buttons()),
                            },
                        ),
                        ack: false,
                    },
                    None => Outcome {
                        next: None,
                        reply: Some(
                            Reply { text: String::from_str("Please select:"), buttons: None },
                        ),
                        ack: false,
                    },
                }
            } else {
                Outcome { next: None, reply: None, ack: false }
            }
        },
        (State::AwaitingSymbol, Event::ButtonPress { payload }) => {
            match payload {
                Some(symbol) => {
                    let mut text = String::from_str("Select interval for ");
                    text.append(symbol.as_str());
                    text.append(":");
                    Outcome {
                        next: Some(State::AwaitingPeriod { symbol: symbol.clone() }),
                        reply: Some(Reply { text, buttons: Some(interval_buttons()) }),
                        ack: true,
                    }
                },
                None => Outcome {
                    next: None,
                    reply: Some(Reply { text: String::from_str("Select symbol"), buttons: None }),
                    ack: false,
                },
            }
        },
        (State::AwaitingPeriod { symbol }, Event::ButtonPress { payload }) => {
            match payload {
                Some(period) => {
                    let mut text = String::from_str("Ticker: ");
                    text.append(symbol.as_str());
                    text.append("\nInterval: ");
                    text.append(period.as_str());
                    Outcome {
                        next: Some(
                            State::AwaitingConfirmation {
                                symbol: symbol.clone(),
                                period: period.clone(),
                            },
                        ),
                        reply: Some(Reply { text, buttons: Some(submit_buttons()) }),
                        ack: true,
                    }
                },
                None => Outcome {
                    next: None,
                    reply: Some(
                        Reply { text: String::from_str("Select interval"), buttons: None },
                    ),
                    ack: false,
                },
            }
        },
        (State::AwaitingConfirmation { symbol, period }, Event::ButtonPress { payload }) => {
            match payload {
                Some(_) => {
                    let mut text = period.clone();
                    text.append("\n ");
                    text.append(symbol.as_str());
                    Outcome { next: None, reply: Some(Reply { text, buttons: None }), ack: true }
                },
                None => Outcome { next: None, reply: None, ack: false },
            }
        },
        _ => Outcome { next: None, reply: None, ack: false },
    }
}

/// The store contents after one event for `id` is dispatched against `m`:
/// unchanged unless the matching transition records a next state.
pub open spec fn apply_event(m: Map<i64, StateView>, id: i64, e: EventView) -> Map<
    i64,
    StateView,
> {
    match spec_dispatch(state_of(m, id), e).next {
        Some(n) => m.insert(id, n),
        None => m,
    }
}

/// One full dispatcher step for one conversation: read the current state,
/// route the event, record the next state when the transition supplies one,
/// and hand the outcome back so the caller can acknowledge the click and
/// send the reply.
pub fn handle_event(store: &mut Store, id: i64, event: &Event) -> (r: Outcome)
    ensures
        r@ == spec_dispatch(old(store).state_at(id), event@),
        final(store)@ == apply_event(old(store)@, id, event@),
{
    let current = store.get(id);
    let outcome = dispatch(&current, event);
    match &outcome.next {
        Some(n) => store.set(id, n.clone()),
        None => {},
    }
    outcome
}

} // verus!
