//! One turn of the actor: what it asks of its host, and how the turn ends.

use crate::state::{
    after_reminder, reply_view, AppState, Delivery, DeliveryView, Effect, EffectView, StateView,
};
use crate::text::prefixed;
use vstd::prelude::*;

verus! {

/// How a turn ends.
#[derive(Debug)]
pub enum Outcome {
    /// The stored state is to be this, as it was handed over.
    Unchanged(Option<Vec<u8>>),
    /// The stored state is to be this one.
    Updated(AppState),
    /// The stored state is to be this one, and this is the answer to the request, if
    /// there is one yet.
    Answered { state: AppState, reply: Option<Vec<u8>> },
    /// The turn failed, and why.
    Failed(String),
}

/// What an outcome is.
pub enum OutcomeView {
    Unchanged(Option<Seq<u8>>),
    Updated(StateView),
    Answered { state: StateView, reply: Option<Seq<u8>> },
    Failed(Seq<char>),
}

/// Bytes that may be absent.
pub open spec fn optional_bytes(bytes: Option<Vec<u8>>) -> Option<Seq<u8>> {
    match bytes {
        Some(b) => Some(b@),
        None => None,
    }
}

impl View for Outcome {
    type V = OutcomeView;

    open spec fn view(&self) -> OutcomeView {
        match self {
            Outcome::Unchanged(bytes) => OutcomeView::Unchanged(optional_bytes(*bytes)),
            Outcome::Updated(state) => OutcomeView::Updated(state@),
            Outcome::Answered { state, reply } => OutcomeView::Answered {
                state: state@,
                reply: optional_bytes(*reply),
            },
            Outcome::Failed(message) => OutcomeView::Failed(message@),
        }
    }
}

/// What started a turn, as far as its end depends on it.
#[derive(Debug)]
pub enum Origin {
    /// Output of the server, with the stored state as it was handed over.
    Stdout(Vec<u8>),
    /// A message.
    Message,
    /// A request.
    Request,
}

/// What an origin is.
pub enum OriginView {
    Stdout(Seq<u8>),
    Message,
    Request,
}

impl View for Origin {
    type V = OriginView;

    open spec fn view(&self) -> OriginView {
        match self {
            Origin::Stdout(stored) => OriginView::Stdout(stored@),
            Origin::Message => OriginView::Message,
            Origin::Request => OriginView::Request,
        }
    }
}

impl OriginView {
    /// How the turn ends when all that it asked for was done.
    pub open spec fn success(self, state: StateView) -> OutcomeView {
        match self {
            OriginView::Stdout(stored) => OutcomeView::Unchanged(Some(stored)),
            OriginView::Message => OutcomeView::Updated(state),
            OriginView::Request => OutcomeView::Answered { state, reply: None },
        }
    }

    /// How the turn ends when a request could not be sent.
    pub open spec fn failure(self, message: Seq<char>) -> OutcomeView {
        match self {
            OriginView::Message => OutcomeView::Failed("Failed to send next unsent request"@),
            _ => OutcomeView::Failed(message),
        }
    }

    /// Sending the next request, if there is one.
    pub open spec fn deliver(self, state: StateView) -> StepView {
        match state.delivery() {
            DeliveryView::Perform(effect) => StepView::Perform {
                effect,
                turn: TurnView { phase: Phase::Writing, origin: self, state: state.popped() },
            },
            DeliveryView::Done(_) => StepView::Finish(self.success(state)),
        }
    }
}

impl Origin {
    /// Ends a turn of which all was done.
    fn succeed(self, state: AppState) -> (r: Step)
        ensures
            r@ == StepView::Finish(self@.success(state@)),
    {
        match self {
            Origin::Stdout(stored) => Step::Finish(Outcome::Unchanged(Some(stored))),
            Origin::Message => Step::Finish(Outcome::Updated(state)),
            Origin::Request => Step::Finish(Outcome::Answered { state, reply: None }),
        }
    }

    /// Ends a turn in which a request could not be sent.
    fn fail(self, message: String) -> (r: Step)
        ensures
            r@ == StepView::Finish(self@.failure(message@)),
    {
        match self {
            Origin::Message => Step::Finish(
                Outcome::Failed("Failed to send next unsent request".to_string()),
            ),
            _ => Step::Finish(Outcome::Failed(message)),
        }
    }

    /// Sends the next request, if there is one.
    pub fn deliver(self, state: AppState) -> (r: Step)
        requires
            state@.can_send(),
        ensures
            r@ == self@.deliver(state@),
            r@.wf(),
    {
        let mut state = state;
        match state.send_next_unsent() {
            Delivery::Perform(effect) => Step::Perform {
                effect,
                turn: Turn { phase: Phase::Writing, origin: self, state },
            },
            Delivery::Done(_) => self.succeed(state),
        }
    }
}

/// What the host is doing while a turn waits.
#[derive(Debug, Clone, Copy, PartialEq, Eq, Structural)]
pub enum Phase {
    /// It tells the server that the connection is open.
    Notifying,
    /// It writes a request to the server.
    Writing,
    /// It sends the actor the reminder that requests are left.
    Reminding,
    /// It answers a request.
    Responding,
}

/// A turn that waits for its host.
#[derive(Debug)]
pub struct Turn {
    pub phase: Phase,
    pub origin: Origin,
    pub state: AppState,
}

/// What a turn is.
pub struct TurnView {
    pub phase: Phase,
    pub origin: OriginView,
    pub state: StateView,
}

impl View for Turn {
    type V = TurnView;

    open spec fn view(&self) -> TurnView {
        TurnView { phase: self.phase, origin: self.origin@, state: self.state@ }
    }
}

/// The next thing in a turn.
#[derive(Debug)]
pub enum Step {
    /// The host is to do something, and to resume the turn with its reply.
    Perform { effect: Effect, turn: Turn },
    /// The turn has ended.
    Finish(Outcome),
}

/// What a step is.
pub enum StepView {
    Perform { effect: EffectView, turn: TurnView },
    Finish(OutcomeView),
}

impl View for Step {
    type V = StepView;

    open spec fn view(&self) -> StepView {
        match self {
            Step::Perform { effect, turn } => StepView::Perform { effect: effect@, turn: turn@ },
            Step::Finish(outcome) => StepView::Finish(outcome@),
        }
    }
}

impl StepView {
    /// A step that the handlers take: what is written to the server is one line, and
    /// the turn that waits can go on.
    pub open spec fn wf(self) -> bool {
        self matches StepView::Perform { effect, turn } ==> effect.is_framed() && turn.wf()
    }
}

impl TurnView {
    /// A turn that can go on: while it tells the server that the connection is open,
    /// the server is known.
    pub open spec fn wf(self) -> bool {
        self.phase == Phase::Notifying ==> self.state.server_pid is Some
    }

    /// How the turn goes on with the reply of the host.
    pub open spec fn resume(self, reply: Result<(), Seq<char>>) -> StepView {
        match self.phase {
            Phase::Notifying => match reply {
                Ok(_) => self.origin.deliver(self.state),
                Err(message) => StepView::Finish(
                    OutcomeView::Failed("Failed to send notification: "@ + message),
                ),
            },
            Phase::Writing => match self.state.after_write(reply) {
                DeliveryView::Perform(effect) => StepView::Perform {
                    effect,
                    turn: TurnView { phase: Phase::Reminding, ..self },
                },
                DeliveryView::Done(Ok(_)) => StepView::Finish(self.origin.success(self.state)),
                DeliveryView::Done(Err(message)) => StepView::Finish(self.origin.failure(message)),
            },
            Phase::Reminding => match after_reminder(reply) {
                Ok(_) => StepView::Finish(self.origin.success(self.state)),
                Err(message) => StepView::Finish(self.origin.failure(message)),
            },
            Phase::Responding => match reply {
                Ok(_) => StepView::Finish(self.origin.success(self.state)),
                Err(message) => StepView::Finish(
                    OutcomeView::Failed("Failed to respond to request: "@ + message),
                ),
            },
        }
    }
}

impl Turn {
    /// Goes on with the reply of the host.
    pub fn resume(self, reply: Result<(), String>) -> (r: Step)
        requires
            self@.wf(),
        ensures
            r@ == self@.resume(reply_view(reply)),
            r@.wf(),
    {
        match self.phase {
            Phase::Notifying => match reply {
                Ok(_) => self.origin.deliver(self.state),
                Err(message) => Step::Finish(
                    Outcome::Failed(prefixed("Failed to send notification: ", message)),
                ),
            },
            Phase::Writing => match self.state.unsent_written(reply) {
                Delivery::Perform(effect) => Step::Perform {
                    effect,
                    turn: Turn {
                        phase: Phase::Reminding,
                        origin: self.origin,
                        state: self.state,
                    },
                },
                Delivery::Done(Ok(_)) => self.origin.succeed(self.state),
                Delivery::Done(Err(message)) => self.origin.fail(message),
            },
            Phase::Reminding => match AppState::reminder_sent(reply) {
                Ok(_) => self.origin.succeed(self.state),
                Err(message) => self.origin.fail(message),
            },
            Phase::Responding => match reply {
                Ok(_) => self.origin.succeed(self.state),
                Err(message) => Step::Finish(
                    Outcome::Failed(prefixed("Failed to respond to request: ", message)),
                ),
            },
        }
    }
}

} // verus!
