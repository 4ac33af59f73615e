use dialogue_bot::dispatch::{dispatch, handle_event};
use dialogue_bot::errors::CoreError;
use dialogue_bot::state::{Event, Outcome, Reply, State};
use dialogue_bot::store::Store;

fn start_command() -> Event {
    Event::Command { name: "start".to_string(), text: Some("/start".to_string()) }
}

fn press(payload: &str) -> Event {
    Event::ButtonPress { payload: Some(payload.to_string()) }
}

fn reply_of(outcome: Outcome) -> Reply {
    outcome.reply.expect("a reply was expected")
}

fn labels(reply: &Reply) -> Vec<String> {
    reply.buttons.clone().expect("a button menu was expected")
}

#[test]
fn unseen_identity_reads_start() {
    let store = Store::new();
    assert!(matches!(store.get(1), State::Start));
    assert!(matches!(store.get(-7), State::Start));
    assert!(matches!(store.get(i64::MAX), State::Start));
}

#[test]
fn start_command_offers_both_symbols() {
    let outcome = dispatch(&State::Start, &start_command());
    assert!(matches!(outcome.next, Some(State::AwaitingSymbol)));
    assert!(!outcome.ack);
    let reply = reply_of(outcome);
    assert_eq!(reply.text, "Select your trading pair: ");
    let menu = labels(&reply);
    assert_eq!(menu.len(), 2);
    assert_eq!(menu[0], "BTCUSDT");
    assert_eq!(menu[1], "ETHUSDT");
}

#[test]
fn start_command_without_text_prompts_and_stays() {
    let event = Event::Command { name: "start".to_string(), text: None };
    let outcome = dispatch(&State::Start, &event);
    assert!(outcome.next.is_none());
    assert!(!outcome.ack);
    let reply = reply_of(outcome);
    assert_eq!(reply.text, "Please select:");
    assert!(reply.buttons.is_none());
}

#[test]
fn unknown_command_is_dropped() {
    let event = Event::Command { name: "help".to_string(), text: Some("/help".to_string()) };
    let outcome = dispatch(&State::Start, &event);
    assert!(outcome.next.is_none());
    assert!(outcome.reply.is_none());
    assert!(!outcome.ack);
}

#[test]
fn symbol_press_moves_to_period() {
    let outcome = dispatch(&State::AwaitingSymbol, &press("ETHUSDT"));
    match &outcome.next {
        Some(State::AwaitingPeriod { symbol }) => assert_eq!(symbol, "ETHUSDT"),
        other => panic!("unexpected next state: {other:?}"),
    }
    assert!(outcome.ack);
    let reply = reply_of(outcome);
    assert_eq!(reply.text, "Select interval for ETHUSDT:");
    assert!(reply.text.contains("ETHUSDT"));
    let menu = labels(&reply);
    assert_eq!(menu, vec!["1h".to_string(), "4h".to_string(), "1d".to_string()]);
}

#[test]
fn symbol_press_without_payload_stays() {
    let outcome = dispatch(&State::AwaitingSymbol, &Event::ButtonPress { payload: None });
    assert!(outcome.next.is_none());
    assert!(!outcome.ack);
    let reply = reply_of(outcome);
    assert_eq!(reply.text, "Select symbol");
    assert!(reply.buttons.is_none());
}

#[test]
fn period_press_moves_to_confirmation() {
    let state = State::AwaitingPeriod { symbol: "BTCUSDT".to_string() };
    let outcome = dispatch(&state, &press("4h"));
    match &outcome.next {
        Some(State::AwaitingConfirmation { symbol, period }) => {
            assert_eq!(symbol, "BTCUSDT");
            assert_eq!(period, "4h");
        }
        other => panic!("unexpected next state: {other:?}"),
    }
    assert!(outcome.ack);
    let reply = reply_of(outcome);
    assert_eq!(reply.text, "Ticker: BTCUSDT\nInterval: 4h");
    assert!(reply.text.contains("BTCUSDT"));
    assert!(reply.text.contains("4h"));
    let menu = labels(&reply);
    assert_eq!(menu, vec!["Submit".to_string()]);
}

#[test]
fn period_press_without_payload_stays() {
    let state = State::AwaitingPeriod { symbol: "BTCUSDT".to_string() };
    let outcome = dispatch(&state, &Event::ButtonPress { payload: None });
    assert!(outcome.next.is_none());
    assert!(!outcome.ack);
    let reply = reply_of(outcome);
    assert_eq!(reply.text, "Select interval");
    assert!(reply.buttons.is_none());
}

#[test]
fn confirmation_echoes_both_choices_and_stays() {
    let state =
        State::AwaitingConfirmation { symbol: "BTCUSDT".to_string(), period: "4h".to_string() };
    let outcome = dispatch(&state, &press("Submit"));
    assert!(outcome.next.is_none());
    assert!(outcome.ack);
    let reply = reply_of(outcome);
    assert_eq!(reply.text, "4h\n BTCUSDT");
    assert!(reply.text.contains("4h"));
    assert!(reply.text.contains("BTCUSDT"));
    assert!(reply.buttons.is_none());
}

#[test]
fn confirmation_without_payload_is_dropped() {
    let state =
        State::AwaitingConfirmation { symbol: "BTCUSDT".to_string(), period: "4h".to_string() };
    let outcome = dispatch(&state, &Event::ButtonPress { payload: None });
    assert!(outcome.next.is_none());
    assert!(outcome.reply.is_none());
    assert!(!outcome.ack);
}

#[test]
fn unmatched_events_change_nothing() {
    let mut store = Store::new();
    // A button press means nothing in `Start`.
    let outcome = handle_event(&mut store, 5, &press("BTCUSDT"));
    assert!(outcome.reply.is_none());
    assert!(matches!(store.get(5), State::Start));

    // A command means nothing once the symbol menu is shown.
    handle_event(&mut store, 5, &start_command());
    let outcome = handle_event(&mut store, 5, &start_command());
    assert!(outcome.reply.is_none());
    assert!(matches!(store.get(5), State::AwaitingSymbol));

    // Free text means nothing in any state.
    let outcome =
        handle_event(&mut store, 5, &Event::PlainText { text: "hello".to_string() });
    assert!(outcome.reply.is_none());
    assert!(matches!(store.get(5), State::AwaitingSymbol));
}

#[test]
fn full_flow_walks_every_step() {
    let mut store = Store::new();
    let id = 42;

    let outcome = handle_event(&mut store, id, &start_command());
    assert_eq!(reply_of(outcome).text, "Select your trading pair: ");
    assert!(matches!(store.get(id), State::AwaitingSymbol));

    let outcome = handle_event(&mut store, id, &press("ETHUSDT"));
    assert_eq!(reply_of(outcome).text, "Select interval for ETHUSDT:");

    let outcome = handle_event(&mut store, id, &press("1d"));
    assert_eq!(reply_of(outcome).text, "Ticker: ETHUSDT\nInterval: 1d");

    let outcome = handle_event(&mut store, id, &press("Submit"));
    assert_eq!(reply_of(outcome).text, "1d\n ETHUSDT");

    // No transition leaves the confirmation state: submitting again echoes again.
    let outcome = handle_event(&mut store, id, &press("Submit"));
    assert_eq!(reply_of(outcome).text, "1d\n ETHUSDT");
    match store.get(id) {
        State::AwaitingConfirmation { symbol, period } => {
            assert_eq!(symbol, "ETHUSDT");
            assert_eq!(period, "1d");
        }
        other => panic!("unexpected state: {other:?}"),
    }
}

#[test]
fn distinct_identities_progress_independently() {
    let mut store = Store::new();
    handle_event(&mut store, 1, &start_command());
    handle_event(&mut store, 2, &start_command());
    handle_event(&mut store, 1, &press("BTCUSDT"));
    handle_event(&mut store, 2, &press("ETHUSDT"));
    handle_event(&mut store, 1, &press("1h"));

    match store.get(1) {
        State::AwaitingConfirmation { symbol, period } => {
            assert_eq!(symbol, "BTCUSDT");
            assert_eq!(period, "1h");
        }
        other => panic!("unexpected state: {other:?}"),
    }
    match store.get(2) {
        State::AwaitingPeriod { symbol } => assert_eq!(symbol, "ETHUSDT"),
        other => panic!("unexpected state: {other:?}"),
    }
    assert!(matches!(store.get(3), State::Start));
}

#[test]
fn store_last_write_wins_and_clear_forgets() {
    let mut store = Store::new();
    store.set(9, State::AwaitingSymbol);
    store.set(9, State::AwaitingPeriod { symbol: "BTCUSDT".to_string() });
    match store.get(9) {
        State::AwaitingPeriod { symbol } => assert_eq!(symbol, "BTCUSDT"),
        other => panic!("unexpected state: {other:?}"),
    }
    store.clear(9);
    assert!(matches!(store.get(9), State::Start));
}

#[test]
fn error_kinds_are_distinct() {
    assert_eq!(CoreError::SendFailure.message(), "the reply could not be sent");
    assert_eq!(CoreError::StoreFailure.message(), "the dialogue state could not be stored");
    assert_ne!(CoreError::SendFailure.message(), CoreError::StoreFailure.message());
}
