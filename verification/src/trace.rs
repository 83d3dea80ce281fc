//! Runs of the reply protocol, and what holds of every run.

use vstd::prelude::*;
use crate::command::{city_of, command_name};
use crate::reply::reply_of;
use crate::responder::{initial, step, ActionView, Event, Interaction, Phase, State};
use crate::weather::{outcome_view, Failure, WeatherSummary};

verus! {

/// The actions that a session at `state` answers to `events` with, in
/// order. A run ends where a step fails.
pub open spec fn run(state: State, call: Interaction, events: Seq<Event>) -> Seq<ActionView>
    decreases events.len(),
{
    if events.len() == 0 {
        Seq::empty()
    } else {
        let (next, answer) = step(state, call, events[0]);
        match answer {
            Ok(action) => seq![action] + run(next, call, events.skip(1)),
            Err(_) => Seq::empty(),
        }
    }
}

/// A run that does not fail at its first event is the answer to that event
/// followed by the run of the others.
proof fn lemma_run_unfolds(state: State, call: Interaction, events: Seq<Event>)
    requires
        events.len() > 0,
        step(state, call, events[0]).1 is Ok,
    ensures
        ({
            let (next, answer) = step(state, call, events[0]);
            let actions = run(state, call, events);
            let rest = run(next, call, events.skip(1));
            &&& actions.len() == rest.len() + 1
            &&& actions[0] == answer->Ok_0
            &&& forall|j: int| 0 < j < actions.len() ==> #[trigger] actions[j] == rest[j - 1]
        }),
{
}

/// A finalized session asks for nothing more, whatever happens.
pub proof fn lemma_finalized_stays_idle(state: State, call: Interaction, events: Seq<Event>)
    requires
        state.phase is Finalized,
    ensures
        ({
            let actions = run(state, call, events);
            forall|j: int| 0 <= j < actions.len() ==> #[trigger] actions[j] is Idle
        }),
    decreases events.len(),
{
    if events.len() > 0 {
        lemma_run_unfolds(state, call, events);
        lemma_finalized_stays_idle(state, call, events.skip(1));
    }
}

/// In every run from the start, a lookup and an edit are asked for only
/// after the deferred acknowledgment has been.
pub proof fn lemma_defer_comes_first(call: Interaction, events: Seq<Event>)
    ensures
        ({
            let actions = run(initial(), call, events);
            forall|j: int|
                #![trigger actions[j]]
                0 <= j < actions.len() && (actions[j] is Lookup || actions[j] is Edit)
                    ==> exists|i: int| 0 <= i < j && #[trigger] actions[i] is Defer
        }),
    decreases events.len(),
{
    let actions = run(initial(), call, events);
    if events.len() > 0 {
        lemma_run_unfolds(initial(), call, events);
        if events[0] is Arrived {
            assert(actions[0] is Defer);
        } else {
            let rest = run(initial(), call, events.skip(1));
            lemma_defer_comes_first(call, events.skip(1));
            assert forall|j: int|
                #![trigger actions[j]]
                0 <= j < actions.len() && (actions[j] is Lookup || actions[j] is Edit) implies exists|
                i: int,
            | 0 <= i < j && #[trigger] actions[i] is Defer by {
                assert(actions[j] == rest[j - 1]);
                let i = choose|i: int| 0 <= i < j - 1 && #[trigger] rest[i] is Defer;
                assert(actions[i + 1] is Defer);
            }
        }
    }
}

/// In every run, from whatever position, the edit is asked for at most once.
pub proof fn lemma_at_most_one_edit(state: State, call: Interaction, events: Seq<Event>)
    ensures
        ({
            let actions = run(state, call, events);
            forall|i: int, j: int|
                #![trigger actions[i], actions[j]]
                0 <= i < j < actions.len() ==> !(actions[i] is Edit && actions[j] is Edit)
        }),
    decreases events.len(),
{
    if events.len() > 0 && step(state, call, events[0]).1 is Ok {
        let (next, answer) = step(state, call, events[0]);
        lemma_run_unfolds(state, call, events);
        lemma_at_most_one_edit(next, call, events.skip(1));
        if answer->Ok_0 is Edit {
            lemma_finalized_stays_idle(next, call, events.skip(1));
        }
    }
}

/// Once the command is routed, no run asks for a lookup.
pub proof fn lemma_routed_asks_no_lookup(state: State, call: Interaction, events: Seq<Event>)
    requires
        state.phase is Deferred || state.phase is Finalized,
        state.routed,
    ensures
        ({
            let actions = run(state, call, events);
            forall|j: int| 0 <= j < actions.len() ==> !(#[trigger] actions[j] is Lookup)
        }),
    decreases events.len(),
{
    if events.len() > 0 && step(state, call, events[0]).1 is Ok {
        lemma_run_unfolds(state, call, events);
        lemma_routed_asks_no_lookup(step(state, call, events[0]).0, call, events.skip(1));
    }
}

/// In every run, from whatever position, the lookup is asked for at most
/// once.
pub proof fn lemma_at_most_one_lookup(state: State, call: Interaction, events: Seq<Event>)
    ensures
        ({
            let actions = run(state, call, events);
            forall|i: int, j: int|
                #![trigger actions[i], actions[j]]
                0 <= i < j < actions.len() ==> !(actions[i] is Lookup && actions[j] is Lookup)
        }),
    decreases events.len(),
{
    if events.len() > 0 && step(state, call, events[0]).1 is Ok {
        let (next, answer) = step(state, call, events[0]);
        lemma_run_unfolds(state, call, events);
        lemma_at_most_one_lookup(next, call, events.skip(1));
        if answer->Ok_0 is Lookup {
            lemma_routed_asks_no_lookup(next, call, events.skip(1));
        }
    }
}

/// A command other than the weather command is acknowledged and then
/// ignored: no run asks for a lookup or an edit on its behalf, and none
/// fails.
pub proof fn lemma_other_commands_are_ignored(
    state: State,
    call: Interaction,
    events: Seq<Event>,
)
    requires
        call.name@ != command_name(),
    ensures
        ({
            let actions = run(state, call, events);
            &&& actions.len() == events.len()
            &&& forall|j: int|
                #![trigger actions[j]]
                0 <= j < actions.len() ==> actions[j] is Defer || actions[j] is Idle
        }),
    decreases events.len(),
{
    if events.len() > 0 {
        lemma_run_unfolds(state, call, events);
        lemma_other_commands_are_ignored(step(state, call, events[0]).0, call, events.skip(1));
    }
}

/// The run of an invocation of the weather command whose options give a
/// city: the acknowledgment, the lookup of that city, and one edit with the
/// text that the outcome calls for. It is the same run whether or not the
/// acknowledgment was delivered, and it ends with the edit whether the
/// lookup succeeded or failed.
pub proof fn lemma_weather_command_run(
    call: Interaction,
    delivered: bool,
    outcome: Result<WeatherSummary, Failure>,
)
    requires
        call.name@ == command_name(),
        city_of(call.options@) is Ok,
    ensures
        run(
            initial(),
            call,
            seq![Event::Arrived, Event::Acknowledged { delivered }, Event::LookedUp(outcome)],
        ) == seq![
            ActionView::Defer {
                application_id: call.application_id,
                interaction_id: call.id,
                token: call.token@,
            },
            ActionView::Lookup { city: city_of(call.options@)->Ok_0 },
            ActionView::Edit { token: call.token@, content: reply_of(outcome_view(outcome)) },
        ],
{
    let events = seq![Event::Arrived, Event::Acknowledged { delivered }, Event::LookedUp(outcome)];
    let deferred = State { phase: Phase::Deferred, routed: false };
    let routed = State { phase: Phase::Deferred, routed: true };
    let finalized = State { phase: Phase::Finalized, routed: true };
    let after_one = events.skip(1);
    let after_two = after_one.skip(1);
    assert(after_one[0] == events[1]);
    assert(after_two[0] == events[2]);
    assert(run(finalized, call, after_two.skip(1)) =~= Seq::empty());
    lemma_run_unfolds(routed, call, after_two);
    lemma_run_unfolds(deferred, call, after_one);
    lemma_run_unfolds(initial(), call, events);
    assert(run(initial(), call, events) =~= seq![
        ActionView::Defer {
            application_id: call.application_id,
            interaction_id: call.id,
            token: call.token@,
        },
        ActionView::Lookup { city: city_of(call.options@)->Ok_0 },
        ActionView::Edit { token: call.token@, content: reply_of(outcome_view(outcome)) },
    ]);
}

} // verus!
