//! The data the dialogue core works on: the per-conversation `State`, the
//! inbound `Event`, the outbound `Reply`, and the `Outcome` of dispatching
//! one event, together with their mathematical views.

use vstd::prelude::*;

verus! {

/// Which step of the guided flow a conversation is in, plus the choices
/// collected so far. Exactly one of these is held per conversation.
#[derive(Debug)]
pub enum State {
    /// Initial state; also the default for a conversation never seen before.
    Start,
    /// The symbol menu was shown; a symbol choice is awaited.
    AwaitingSymbol,
    /// A symbol was chosen; an interval choice is awaited.
    AwaitingPeriod { symbol: String },
    /// Symbol and interval were chosen; the final confirmation is awaited.
    AwaitingConfirmation { symbol: String, period: String },
}

/// Mathematical view of a `State`: the same shape over `Seq<char>`.
pub enum StateView {
    Start,
    AwaitingSymbol,
    AwaitingPeriod { symbol: Seq<char> },
    AwaitingConfirmation { symbol: Seq<char>, period: Seq<char> },
}

impl View for State {
    type V = StateView;

    open spec fn view(&self) -> StateView {
        match self {
            State::Start => StateView::Start,
            State::AwaitingSymbol => StateView::AwaitingSymbol,
            State::AwaitingPeriod { symbol } => (StateView::AwaitingPeriod { symbol: symbol@ }),
            State::AwaitingConfirmation { symbol, period } => (StateView::AwaitingConfirmation {
                symbol: symbol@,
                period: period@,
            }),
        }
    }
}

impl Clone for State {
    fn clone(&self) -> (r: State)
        ensures
            r == *self,
    {
        match self {
            State::Start => State::Start,
            State::AwaitingSymbol => State::AwaitingSymbol,
            State::AwaitingPeriod { symbol } => State::AwaitingPeriod { symbol: symbol.clone() },
            State::AwaitingConfirmation { symbol, period } => State::AwaitingConfirmation {
                symbol: symbol.clone(),
                period: period.clone(),
            },
        }
    }
}

impl Default for State {
    /// A conversation that was never written to is in `Start`.
    fn default() -> (r: State)
        ensures
            r == State::Start,
    {
        State::Start
    }
}

/// One inbound event, already stripped of transport detail: a parsed
/// command together with the text of the message that carried it, a button
/// press with its payload (absent when the click carried no data), or free
/// text that is no command.
pub enum Event {
    Command { name: String, text: Option<String> },
    ButtonPress { payload: Option<String> },
    PlainText { text: String },
}

/// Mathematical view of an `Event`.
pub enum EventView {
    Command { name: Seq<char>, text: Option<Seq<char>> },
    ButtonPress { payload: Option<Seq<char>> },
    PlainText { text: Seq<char> },
}

impl View for Event {
    type V = EventView;

    open spec fn view(&self) -> EventView {
        match self {
            Event::Command { name, text } => (EventView::Command {
                name: name@,
                text: match text {
                    Some(t) => Some(t@),
                    None => None,
                },
            }),
            Event::ButtonPress { payload } => (EventView::ButtonPress {
                payload: match payload {
                    Some(p) => Some(p@),
                    None => None,
                },
            }),
            Event::PlainText { text } => (EventView::PlainText { text: text@ }),
        }
    }
}

/// One outbound reply: the text to send and, when a menu is offered, the
/// labels of the buttons to attach (each label doubles as its payload).
pub struct Reply {
    pub text: String,
    pub buttons: Option<Vec<String>>,
}

/// Mathematical view of a `Reply`.
pub struct ReplyView {
    pub text: Seq<char>,
    pub buttons: Option<Seq<Seq<char>>>,
}

impl View for Reply {
    type V = ReplyView;

    open spec fn view(&self) -> ReplyView {
        ReplyView {
            text: self.text@,
            buttons: match &self.buttons {
                Some(b) => Some(b.deep_view()),
                None => None,
            },
        }
    }
}

/// What dispatching one event decided: the state to record (`None` when the
/// stored state is to stay as it is), the reply to send (`None` when the
/// event is dropped silently), and whether the triggering button click must
/// be acknowledged before the reply goes out.
pub struct Outcome {
    pub next: Option<State>,
    pub reply: Option<Reply>,
    pub ack: bool,
}

/// Mathematical view of an `Outcome`.
pub struct OutcomeView {
    pub next: Option<StateView>,
    pub reply: Option<ReplyView>,
    pub ack: bool,
}

impl View for Outcome {
    type V = OutcomeView;

    open spec fn view(&self) -> OutcomeView {
        OutcomeView {
            next: match &self.next {
                Some(s) => Some(s@),
                None => None,
            },
            reply: match &self.reply {
                Some(r) => Some(r@),
                None => None,
            },
            ack: self.ack,
        }
    }
}

} // verus!
