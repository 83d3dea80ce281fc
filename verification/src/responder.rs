//! The two-phase reply to a slash command: acknowledge at once, look the
//! weather up, then edit the acknowledged reply, once.
//!
//! A [`Session`] holds one invocation and decides, event by event, what is
//! to be done next. The caller performs each [`Action`] and reports back
//! with the next [`Event`].

use vstd::prelude::*;
use crate::command::{
    command_name, is_weather_command, route, route_of, CommandOption, InputShapeError, Route,
    RouteView,
};
use crate::reply::{reply_of, reply_text};
use crate::weather::{outcome_view, Failure, WeatherSummary};

verus! {

/// An invocation of a slash command as the platform delivers it.
#[derive(Debug, Clone, PartialEq, Eq)]
pub struct Interaction {
    /// The id of the invocation.
    pub id: u64,
    /// The id of the application that the command belongs to.
    pub application_id: u64,
    /// The token under which the invocation is answered.
    pub token: String,
    /// The name of the invoked command.
    pub name: String,
    /// The options given with the invocation, in order.
    pub options: Vec<CommandOption>,
}

/// How far the reply to an invocation has come.
#[derive(Debug, Clone, Copy, PartialEq, Eq, Structural)]
pub enum Phase {
    /// The invocation has arrived and nothing has been sent.
    Received,
    /// The deferred acknowledgment has been issued.
    Deferred,
    /// The final text has been issued; the token is spent.
    Finalized,
}

/// The position of a session: its phase, and whether the command has been
/// routed to its handling since the acknowledgment.
pub struct State {
    pub phase: Phase,
    pub routed: bool,
}

/// What happened outside since the last action.
#[derive(Debug, PartialEq, Eq)]
pub enum Event {
    /// The invocation arrived.
    Arrived,
    /// The acknowledgment was attempted; `delivered` tells whether the
    /// platform took it.
    Acknowledged { delivered: bool },
    /// The weather lookup ended.
    LookedUp(Result<WeatherSummary, Failure>),
}

/// What the caller is to do next.
#[derive(Debug, Clone, PartialEq, Eq)]
pub enum Action {
    /// Answer the invocation with a deferred channel message with source.
    Defer { application_id: u64, interaction_id: u64, token: String },
    /// Look up the weather of this city.
    Lookup { city: String },
    /// Replace the acknowledged reply by this text.
    Edit { token: String, content: String },
    /// Nothing.
    Idle,
}

/// The mathematical content of an [`Action`].
pub enum ActionView {
    Defer { application_id: u64, interaction_id: u64, token: Seq<char> },
    Lookup { city: Seq<char> },
    Edit { token: Seq<char>, content: Seq<char> },
    Idle,
}

impl View for Action {
    type V = ActionView;

    open spec fn view(&self) -> ActionView {
        match self {
            Action::Defer { application_id, interaction_id, token } => ActionView::Defer {
                application_id: *application_id,
                interaction_id: *interaction_id,
                token: token@,
            },
            Action::Lookup { city } => ActionView::Lookup { city: city@ },
            Action::Edit { token, content } => ActionView::Edit {
                token: token@,
                content: content@,
            },
            Action::Idle => ActionView::Idle,
        }
    }
}

/// The answer of a step as a result over views.
pub open spec fn answer_view(answer: Result<Action, InputShapeError>) -> Result<
    ActionView,
    InputShapeError,
> {
    match answer {
        Ok(action) => Ok(action@),
        Err(error) => Err(error),
    }
}

/// The position of a session that has sent nothing yet.
pub open spec fn initial() -> State {
    State { phase: Phase::Received, routed: false }
}

/// One step of the protocol: the position after `event`, and the action
/// that answers it.
///
/// - Before the acknowledgment, the arrival is answered by the deferred
///   acknowledgment, and nothing else is answered at all.
/// - After it, the first report of the attempt, delivered or not, routes the
///   command: the weather command asks for the lookup of its city, or fails
///   where its options give none, which leaves the position as it was; any
///   other command is ignored.
/// - The end of the lookup of a routed weather command is answered by the
///   edit, with the text that its outcome calls for, and finalizes.
/// - Every other event changes nothing and asks for nothing.
pub open spec fn step(state: State, call: Interaction, event: Event) -> (
    State,
    Result<ActionView, InputShapeError>,
) {
    match (state.phase, event) {
        (Phase::Received, Event::Arrived) => (
            State { phase: Phase::Deferred, routed: false },
            Ok(
                ActionView::Defer {
                    application_id: call.application_id,
                    interaction_id: call.id,
                    token: call.token@,
                },
            ),
        ),
        (Phase::Deferred, Event::Acknowledged { delivered }) => if state.routed {
            (state, Ok(ActionView::Idle))
        } else {
            match route_of(call.name@, call.options@) {
                Ok(RouteView::Weather { city }) => (
                    State { phase: Phase::Deferred, routed: true },
                    Ok(ActionView::Lookup { city }),
                ),
                Ok(RouteView::Ignored) => (
                    State { phase: Phase::Deferred, routed: true },
                    Ok(ActionView::Idle),
                ),
                Err(error) => (state, Err(error)),
            }
        },
        (Phase::Deferred, Event::LookedUp(outcome)) => if state.routed && call.name@
            == command_name() {
            (
                State { phase: Phase::Finalized, routed: true },
                Ok(
                    ActionView::Edit {
                        token: call.token@,
                        content: reply_of(outcome_view(outcome)),
                    },
                ),
            )
        } else {
            (state, Ok(ActionView::Idle))
        },
        _ => (state, Ok(ActionView::Idle)),
    }
}

/// The reply to one invocation, as far as it has come.
pub struct Session {
    phase: Phase,
    routed: bool,
    call: Interaction,
}

impl Session {
    /// The position of the session.
    pub closed spec fn state(&self) -> State {
        State { phase: self.phase, routed: self.routed }
    }

    /// The invocation that the session answers.
    pub closed spec fn interaction(&self) -> Interaction {
        self.call
    }

    /// Opens the session of an invocation that has just arrived.
    pub fn new(call: Interaction) -> (session: Session)
        ensures
            session.state() == initial(),
            session.interaction() == call,
    {
        Session { phase: Phase::Received, routed: false, call }
    }

    /// The phase that the session is in.
    pub fn phase(&self) -> (phase: Phase)
        ensures
            phase == self.state().phase,
    {
        self.phase
    }

    /// Takes one event and says what is to be done next.
    ///
    /// An error is returned exactly where the weather command is routed and
    /// its options give no city; the session is then as it was.
    pub fn advance(&mut self, event: Event) -> (answer: Result<Action, InputShapeError>)
        ensures
            final(self).interaction() == old(self).interaction(),
            (final(self).state(), answer_view(answer)) == step(
                old(self).state(),
                old(self).interaction(),
                event,
            ),
    {
        match self.phase {
            Phase::Received => match event {
                Event::Arrived => {
                    self.phase = Phase::Deferred;
                    self.routed = false;
                    Ok(
                        Action::Defer {
                            application_id: self.call.application_id,
                            interaction_id: self.call.id,
                            token: self.call.token.clone(),
                        },
                    )
                },
                _ => Ok(Action::Idle),
            },
            Phase::Deferred => match event {
                Event::Acknowledged { delivered: _ } => {
                    if self.routed {
                        Ok(Action::Idle)
                    } else {
                        match route(self.call.name.as_str(), &self.call.options) {
                            Ok(Route::Weather { city }) => {
                                self.routed = true;
                                Ok(Action::Lookup { city })
                            },
                            Ok(Route::Ignored) => {
                                self.routed = true;
                                Ok(Action::Idle)
                            },
                            Err(error) => Err(error),
                        }
                    }
                },
                Event::LookedUp(outcome) => {
                    if self.routed && is_weather_command(self.call.name.as_str()) {
                        let content = reply_text(&outcome);
                        self.phase = Phase::Finalized;
                        Ok(Action::Edit { token: self.call.token.clone(), content })
                    } else {
                        Ok(Action::Idle)
                    }
                },
                Event::Arrived => Ok(Action::Idle),
            },
            Phase::Finalized => Ok(Action::Idle),
        }
    }
}

} // verus!
