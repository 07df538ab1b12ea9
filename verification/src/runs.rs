//! What holds of every run of the controller, whatever events arrive.

use crate::container::container_name;
use crate::lifecycle::{
    backup_query, begin_model, step_model, ActionModel, ControllerModel, EventModel,
    LifecycleRequest, PhaseModel, Verb,
};
use vstd::prelude::*;

verus! {

/// The actions that `controller` issues as `events` arrive one by one.
pub open spec fn replies(controller: ControllerModel, events: Seq<EventModel>) -> Seq<ActionModel>
    decreases events.len(),
{
    if events.len() == 0 {
        Seq::empty()
    } else {
        let next = step_model(controller, events.first());
        seq![next.1] + replies(next.0, events.drop_first())
    }
}

/// All the actions of a request: the first one, then one for each event.
pub open spec fn actions_of(request: LifecycleRequest, events: Seq<EventModel>) -> Seq<
    ActionModel,
> {
    let begun = begin_model(request);
    seq![begun.1] + replies(begun.0, events)
}

/// Whether an action changes the server or its data: a start, a stop, or a
/// command run in the container. What goes to the console only asks.
pub open spec fn mutating(action: ActionModel) -> bool {
    action is Exec || action is StartContainer || action is StopContainer
}

/// The mutating actions among `actions`, in order.
pub open spec fn mutations(actions: Seq<ActionModel>) -> Seq<ActionModel> {
    actions.filter(|action: ActionModel| mutating(action))
}

/// Whether one of `actions` is a message addressed to the requester. The
/// controller sends one only when a start or a stop has run its course.
pub open spec fn completed(actions: Seq<ActionModel>) -> bool {
    exists|i: int| 0 <= i < actions.len() && #[trigger] actions[i] is Reply
}

/// The backup, as an action.
pub open spec fn backup_action() -> ActionModel {
    ActionModel::Exec(backup_query())
}

/// The start of the container, as an action.
pub open spec fn start_action() -> ActionModel {
    ActionModel::StartContainer { name: container_name() }
}

/// The stop of the container, as an action.
pub open spec fn stop_action() -> ActionModel {
    ActionModel::StopContainer { name: container_name() }
}

/// The mutating actions that a controller may still issue, in the order in
/// which it would.
pub open spec fn owed(controller: ControllerModel) -> Seq<ActionModel> {
    match (controller.request.verb, controller.phase) {
        (Verb::Start, PhaseModel::Locating) => seq![start_action()],
        (Verb::Stop, PhaseModel::Querying) => seq![backup_action(), stop_action()],
        (Verb::Stop, PhaseModel::Announced) => seq![backup_action(), stop_action()],
        (Verb::Stop, PhaseModel::BackingUp) => seq![stop_action()],
        (Verb::Stop, PhaseModel::Reported) => seq![stop_action()],
        (Verb::Save, PhaseModel::Querying) => seq![backup_action()],
        _ => Seq::empty(),
    }
}

/// Whether a controller will send nothing more but, at most, the word
/// that it is done.
pub open spec fn closed(controller: ControllerModel) -> bool {
    controller.phase is Closing || controller.phase is Finished
}

/// The mutating actions of a run are its first action, where that is
/// mutating, and those of the rest.
pub(crate) proof fn lemma_mutations_first(action: ActionModel, rest: Seq<ActionModel>)
    ensures
        mutations(seq![action] + rest) == if mutating(action) {
            seq![action] + mutations(rest)
        } else {
            mutations(rest)
        },
{
    rest.lemma_filter_prepend(action, |action: ActionModel| mutating(action));
}

/// One step issues either the mutating action that is owed first, or none;
/// what is owed afterwards was owed before.
proof fn lemma_step_owed(controller: ControllerModel, event: EventModel)
    ensures
        ({
            let next = step_model(controller, event);
            if mutating(next.1) {
                &&& owed(controller).len() > 0
                &&& owed(controller).first() == next.1
                &&& owed(next.0) == owed(controller).drop_first()
            } else {
                closed(next.0) || owed(next.0) == owed(controller)
            }
        }),
        closed(step_model(controller, event).0) ==> owed(step_model(controller, event).0)
            == Seq::<ActionModel>::empty(),
        closed(controller) ==> closed(step_model(controller, event).0) && !(step_model(
            controller,
            event,
        ).1 is Reply),
        step_model(controller, event).1 is Reply ==> closed(step_model(controller, event).0)
            && owed(controller) == Seq::<ActionModel>::empty(),
        step_model(controller, event).0.request == controller.request,
{
    reveal(step_model);
    let next = step_model(controller, event);
    if mutating(next.1) {
    }
}

/// A controller that has sent its last message issues no mutating action
/// and no message to the requester.
proof fn lemma_closed_is_quiet(controller: ControllerModel, events: Seq<EventModel>)
    requires
        closed(controller),
    ensures
        mutations(replies(controller, events)) == Seq::<ActionModel>::empty(),
        !completed(replies(controller, events)),
    decreases events.len(),
{
    if events.len() > 0 {
        let next = step_model(controller, events.first());
        let rest = replies(next.0, events.drop_first());
        lemma_step_owed(controller, events.first());
        lemma_closed_is_quiet(next.0, events.drop_first());
        lemma_mutations_first(next.1, rest);
        let all = seq![next.1] + rest;
        assert forall|i: int| 0 <= i < all.len() implies !(#[trigger] all[i] is Reply) by {
            if i > 0 {
                assert(all[i] == rest[i - 1]);
            }
        }
    }
}

/// The mutating actions of a run are the first of those that were owed,
/// and all of them where the run came to a message to the requester.
proof fn lemma_run_owed(controller: ControllerModel, events: Seq<EventModel>)
    ensures
        mutations(replies(controller, events)).is_prefix_of(owed(controller)),
        completed(replies(controller, events)) ==> mutations(replies(controller, events)) == owed(
            controller,
        ),
    decreases events.len(),
{
    if events.len() > 0 {
        let next = step_model(controller, events.first());
        let rest = replies(next.0, events.drop_first());
        let all = seq![next.1] + rest;
        lemma_step_owed(controller, events.first());
        lemma_run_owed(next.0, events.drop_first());
        lemma_mutations_first(next.1, rest);
        if closed(next.0) {
            lemma_closed_is_quiet(next.0, events.drop_first());
        }
        if completed(all) {
            let i = choose|i: int| 0 <= i < all.len() && #[trigger] all[i] is Reply;
            if i > 0 {
                assert(rest[i - 1] is Reply);
            }
        }
    } else {
        assert(mutations(Seq::<ActionModel>::empty()) == Seq::<ActionModel>::empty());
        assert(!completed(replies(controller, events)));
    }
}

/// The mutating actions that a request may issue, in order: a report none,
/// a start one start, a stop one backup and then one stop, a save one
/// backup.
pub open spec fn allowance(verb: Verb) -> Seq<ActionModel> {
    match verb {
        Verb::Status => Seq::empty(),
        Verb::Start => seq![start_action()],
        Verb::Stop => seq![backup_action(), stop_action()],
        Verb::Save => seq![backup_action()],
    }
}

/// Whatever events arrive, a request issues no mutating action beyond its
/// allowance, none twice and none out of order; so the runtime is asked to
/// start or to stop at most once. A request that comes to a message to the
/// requester has issued its whole allowance.
pub proof fn mutations_within_allowance(request: LifecycleRequest, events: Seq<EventModel>)
    ensures
        mutations(actions_of(request, events)).is_prefix_of(allowance(request.verb)),
        completed(actions_of(request, events)) ==> mutations(actions_of(request, events))
            == allowance(request.verb),
{
    let begun = begin_model(request);
    let rest = replies(begun.0, events);
    let all = seq![begun.1] + rest;
    lemma_run_owed(begun.0, events);
    lemma_mutations_first(begun.1, rest);
    if completed(all) {
        let i = choose|i: int| 0 <= i < all.len() && #[trigger] all[i] is Reply;
        assert(rest[i - 1] is Reply);
    }
}

/// Where the next event closes the request, as a refusal or a report
/// does, no mutating action follows.
pub(crate) proof fn lemma_closing_step(controller: ControllerModel, events: Seq<EventModel>)
    requires
        events.len() > 0,
        closed(step_model(controller, events.first()).0),
        !mutating(step_model(controller, events.first()).1),
    ensures
        mutations(replies(controller, events)) == Seq::<ActionModel>::empty(),
        replies(controller, events).len() > 0,
        replies(controller, events)[0] == step_model(controller, events.first()).1,
{
    let next = step_model(controller, events.first());
    let rest = replies(next.0, events.drop_first());
    lemma_closed_is_quiet(next.0, events.drop_first());
    lemma_mutations_first(next.1, rest);
}

} // verus!
