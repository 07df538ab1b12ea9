//! The promises of the controller: a server with players on it is never
//! stopped, and a server that runs is not started again.

use crate::container::{locate, ContainerModel};
use crate::error::ErrorModel;
use crate::lifecycle::{
    already_offline_text, begin_model, occupied_text, probe_query, shutting_down_text,
    step_model, ActionModel, ControllerModel, EventModel, LifecycleRequest, PhaseModel, Verb,
};
use crate::players::{players_query, roster_of};
use crate::runs::{
    actions_of, backup_action, lemma_closing_step, lemma_mutations_first, mutations,
    mutations_within_allowance, replies, stop_action,
};
use vstd::prelude::*;

verus! {

/// A start of a server that runs already issues no mutating action,
/// whatever events follow the listing.
pub proof fn start_of_running_server_changes_nothing(
    requester: u64,
    listing: Seq<ContainerModel>,
    later: Seq<EventModel>,
)
    requires
        locate(listing) is Ok,
        locate(listing)->Ok_0.running(),
    ensures
        mutations(
            actions_of(
                LifecycleRequest { verb: Verb::Start, requester },
                seq![EventModel::Containers(Ok(listing))] + later,
            ),
        ) == Seq::<ActionModel>::empty(),
{
    let request = LifecycleRequest { verb: Verb::Start, requester };
    let events = seq![EventModel::Containers(Ok(listing))] + later;
    reveal(step_model);
    assert(events.first() == EventModel::Containers(Ok(listing)));
    let begun = begin_model(request);
    lemma_closing_step(begun.0, events);
    lemma_mutations_first(begun.1, replies(begun.0, events));
}

/// A stop of a server with somebody on it issues no mutating action,
/// whatever events follow the roster, and answers with the number of
/// players and the roster.
pub proof fn stop_of_occupied_server_changes_nothing(
    requester: u64,
    response: Result<Seq<char>, ErrorModel>,
    later: Seq<EventModel>,
)
    requires
        roster_of(response) is Ok,
        roster_of(response)->Ok_0.count > 0,
    ensures
        ({
            let request = LifecycleRequest { verb: Verb::Stop, requester };
            let actions = actions_of(request, seq![EventModel::Output(response)] + later);
            &&& mutations(actions) == Seq::<ActionModel>::empty()
            &&& step_model(begin_model(request).0, EventModel::Output(response)).1
                == ActionModel::Say(occupied_text(roster_of(response)->Ok_0))
        }),
{
    let request = LifecycleRequest { verb: Verb::Stop, requester };
    let events = seq![EventModel::Output(response)] + later;
    reveal(step_model);
    assert(events.first() == EventModel::Output(response));
    let begun = begin_model(request);
    lemma_closing_step(begun.0, events);
    lemma_mutations_first(begun.1, replies(begun.0, events));
}

/// A stop of a server whose console gives no roster issues no mutating
/// action, whatever events follow, and answers that the server is off
/// already.
pub proof fn stop_of_unreachable_server_changes_nothing(
    requester: u64,
    response: Result<Seq<char>, ErrorModel>,
    later: Seq<EventModel>,
)
    requires
        roster_of(response) is Err,
    ensures
        ({
            let request = LifecycleRequest { verb: Verb::Stop, requester };
            let actions = actions_of(request, seq![EventModel::Output(response)] + later);
            &&& mutations(actions) == Seq::<ActionModel>::empty()
            &&& step_model(begin_model(request).0, EventModel::Output(response)).1
                == ActionModel::Say(already_offline_text())
        }),
{
    let request = LifecycleRequest { verb: Verb::Stop, requester };
    let events = seq![EventModel::Output(response)] + later;
    reveal(step_model);
    assert(events.first() == EventModel::Output(response));
    let begun = begin_model(request);
    lemma_closing_step(begun.0, events);
    lemma_mutations_first(begun.1, replies(begun.0, events));
}

/// A stop of a server with nobody on it backs the game up once and then
/// has the runtime stop the container once: with every call succeeding it
/// issues exactly these actions up to its first probe, and whatever events
/// arrive it issues no other mutating action, none twice, and the stop
/// never before the backup.
pub proof fn stop_of_empty_server_backs_up_then_stops(
    requester: u64,
    response: Result<Seq<char>, ErrorModel>,
    saved: Seq<char>,
    events: Seq<EventModel>,
)
    requires
        roster_of(response) is Ok,
        roster_of(response)->Ok_0.count == 0,
    ensures
        actions_of(
            LifecycleRequest { verb: Verb::Stop, requester },
            seq![
                EventModel::Output(response),
                EventModel::Delivered,
                EventModel::Output(Ok(saved)),
                EventModel::Delivered,
                EventModel::Stopped(Ok(())),
            ],
        ) == seq![
            ActionModel::Console(players_query()),
            ActionModel::Say(shutting_down_text()),
            backup_action(),
            ActionModel::Say(saved),
            stop_action(),
            ActionModel::Console(probe_query()),
        ],
        mutations(
            actions_of(
                LifecycleRequest { verb: Verb::Stop, requester },
                seq![EventModel::Output(response)] + events,
            ),
        ).is_prefix_of(seq![backup_action(), stop_action()]),
{
    let request = LifecycleRequest { verb: Verb::Stop, requester };
    mutations_within_allowance(request, seq![EventModel::Output(response)] + events);
    let happy = seq![
        EventModel::Output(response),
        EventModel::Delivered,
        EventModel::Output(Ok(saved)),
        EventModel::Delivered,
        EventModel::Stopped(Ok(())),
    ];
    let c0 = begin_model(request).0;
    let s1 = step_model(c0, happy[0]);
    let s2 = step_model(s1.0, happy[1]);
    let s3 = step_model(s2.0, happy[2]);
    let s4 = step_model(s3.0, happy[3]);
    let s5 = step_model(s4.0, happy[4]);
    reveal(step_model);
    let e1 = happy.drop_first();
    let e2 = e1.drop_first();
    let e3 = e2.drop_first();
    let e4 = e3.drop_first();
    let e5 = e4.drop_first();
    assert(replies(s5.0, e5) == Seq::<ActionModel>::empty());
    assert(replies(s4.0, e4) == seq![s5.1] + replies(s5.0, e5));
    assert(replies(s3.0, e3) == seq![s4.1] + replies(s4.0, e4));
    assert(replies(s2.0, e2) == seq![s3.1] + replies(s3.0, e3));
    assert(replies(s1.0, e1) == seq![s2.1] + replies(s2.0, e2));
    assert(replies(c0, happy) == seq![s1.1] + replies(s1.0, e1));
}

/// A start waits without bound: as long as the console fails to answer a
/// probe, the controller pauses for a second and probes again, and is then
/// where it was.
pub proof fn start_waits_while_console_fails(requester: u64, failure: ErrorModel)
    ensures
        ({
            let request = LifecycleRequest { verb: Verb::Start, requester };
            let probing = ControllerModel { request, phase: PhaseModel::Probing };
            let paused = step_model(probing, EventModel::Output(Err(failure)));
            &&& paused.1 == ActionModel::Sleep { seconds: 1 }
            &&& step_model(paused.0, EventModel::Elapsed) == (
                probing,
                ActionModel::Console(probe_query()),
            )
        }),
{
    reveal(step_model);
}

/// A stop waits without bound: as long as the console still answers a
/// probe, the controller pauses for a second and probes again, and is then
/// where it was.
pub proof fn stop_waits_while_console_answers(requester: u64, answer: Seq<char>)
    ensures
        ({
            let request = LifecycleRequest { verb: Verb::Stop, requester };
            let probing = ControllerModel { request, phase: PhaseModel::Probing };
            let paused = step_model(probing, EventModel::Output(Ok(answer)));
            &&& paused.1 == ActionModel::Sleep { seconds: 1 }
            &&& step_model(paused.0, EventModel::Elapsed) == (
                probing,
                ActionModel::Console(probe_query()),
            )
        }),
{
    reveal(step_model);
}

} // verus!
