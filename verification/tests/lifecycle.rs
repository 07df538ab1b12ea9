use palworld_bridge::{
    Action, ContainerSummary, Controller, Error, Event, LifecycleRequest, Phase, PlayerRoster,
    Verb,
};

const REQUESTER: u64 = 4217;

fn request(verb: Verb) -> LifecycleRequest {
    LifecycleRequest { verb, requester: REQUESTER }
}

fn words(words: &[&str]) -> Vec<String> {
    words.iter().map(|word| word.to_string()).collect()
}

fn server(state: Option<&str>) -> ContainerSummary {
    ContainerSummary {
        id: Some("c0ffee".to_string()),
        names: Some(vec!["/palworld-server".to_string()]),
        image: Some("thijsvanloef/palworld-server-docker:latest".to_string()),
        state: state.map(|state| state.to_string()),
    }
}

fn listing(state: Option<&str>) -> Event {
    Event::Containers(Ok(vec![server(state)]))
}

fn answer(text: &str) -> Event {
    Event::Output(Ok(text.to_string()))
}

fn silence() -> Event {
    Event::Output(Err(Error::NoResponse))
}

fn say(text: &str) -> Action {
    Action::Say(text.to_string())
}

fn reply(text: &str) -> Action {
    Action::Reply { to: REQUESTER, text: text.to_string() }
}

fn players_query() -> Action {
    Action::Console(words(&["ShowPlayers"]))
}

fn probe() -> Action {
    Action::Console(words(&["info"]))
}

fn backup() -> Action {
    Action::Exec(words(&["backup"]))
}

fn start_container() -> Action {
    Action::StartContainer { name: "palworld-server".to_string() }
}

fn stop_container() -> Action {
    Action::StopContainer { name: "palworld-server".to_string() }
}

fn pause() -> Action {
    Action::Sleep { seconds: 1 }
}

fn is_mutating(action: &Action) -> bool {
    matches!(
        action,
        Action::Exec(_) | Action::StartContainer { .. } | Action::StopContainer { .. }
    )
}

/// Feeds the events to a fresh controller and gives back everything it asked for.
fn run(verb: Verb, events: Vec<Event>) -> Vec<Action> {
    let (mut controller, first) = Controller::begin(request(verb));
    let mut actions = vec![first];
    for event in events {
        let (next, action) = controller.step(event);
        controller = next;
        actions.push(action);
    }
    actions
}

fn mutations(actions: &[Action]) -> Vec<&Action> {
    actions.iter().filter(|action| is_mutating(action)).collect()
}

#[test]
fn begin_looks_first() {
    for verb in [Verb::Status, Verb::Start] {
        let (controller, action) = Controller::begin(request(verb));
        assert_eq!(controller, Controller { request: request(verb), phase: Phase::Locating });
        assert_eq!(action, Action::ListContainers);
    }
    for verb in [Verb::Stop, Verb::Save] {
        let (controller, action) = Controller::begin(request(verb));
        assert_eq!(controller, Controller { request: request(verb), phase: Phase::Querying });
        assert_eq!(action, players_query());
    }
}

#[test]
fn status_of_absent_container_is_offline() {
    let actions = run(Verb::Status, vec![listing(None), Event::Delivered]);
    assert_eq!(actions, vec![Action::ListContainers, say("Server Offline"), Action::Done]);
}

#[test]
fn status_of_stopped_container_is_offline() {
    for state in ["exited", "created", "restarting", "paused", "dead"] {
        let actions = run(Verb::Status, vec![listing(Some(state))]);
        assert_eq!(actions[1], say("Server Offline"), "state {state}");
    }
}

#[test]
fn status_with_header_only_is_online_with_nobody() {
    let memory = "Mem: 15Gi 4Gi 9Gi\n";
    let actions = run(
        Verb::Status,
        vec![
            listing(Some("running")),
            answer("Name,ID"),
            Event::Memory(Ok(memory.as_bytes().to_vec())),
            Event::Delivered,
        ],
    );
    assert_eq!(
        actions,
        vec![
            Action::ListContainers,
            players_query(),
            Action::ReadMemory,
            say("```\n0 players online\nName,ID\n---\nMem: 15Gi 4Gi 9Gi\n\n```"),
            Action::Done,
        ]
    );
}

#[test]
fn status_reports_players_and_memory() {
    let actions = run(
        Verb::Status,
        vec![
            listing(Some("running")),
            answer("Name,ID\nAlice,1\nBob,2\n"),
            Event::Memory(Ok(b"free as a bird".to_vec())),
        ],
    );
    assert_eq!(
        actions[3],
        say("```\n2 players online\nName,ID\nAlice,1\nBob,2\n---\nfree as a bird\n```")
    );
}

#[test]
fn status_keeps_the_roster_while_it_reads_memory() {
    let (controller, _) = Controller::begin(request(Verb::Status));
    let (controller, _) = controller.step(listing(Some("running")));
    let (controller, action) = controller.step(answer("Name,ID\nAlice,1"));
    assert_eq!(action, Action::ReadMemory);
    assert_eq!(
        controller.phase,
        Phase::Measuring { roster: PlayerRoster { players: "Name,ID\nAlice,1".to_string(), count: 1 } }
    );
}

#[test]
fn status_with_silent_console_is_booting() {
    let actions = run(Verb::Status, vec![listing(Some("running")), silence(), Event::Delivered]);
    assert_eq!(
        actions,
        vec![
            Action::ListContainers,
            players_query(),
            say("Server is booting/restarting"),
            Action::Done,
        ]
    );
}

#[test]
fn status_with_empty_answer_is_booting() {
    let actions = run(Verb::Status, vec![listing(Some("running")), answer("")]);
    assert_eq!(actions[2], say("Server is booting/restarting"));
}

#[test]
fn status_surfaces_other_failures() {
    let failure = Error::RuntimeExecFailed("connection reset".to_string());
    let actions =
        run(Verb::Status, vec![listing(Some("running")), Event::Output(Err(failure.clone()))]);
    assert_eq!(actions[2], Action::Fail(failure));
    let actions = run(Verb::Status, vec![Event::Containers(Ok(vec![]))]);
    assert_eq!(actions[1], Action::Fail(Error::TargetNotFound));
    let actions =
        run(Verb::Status, vec![Event::Containers(Ok(vec![server(None), server(None)]))]);
    assert_eq!(actions[1], Action::Fail(Error::TargetAmbiguous));
    let actions = run(Verb::Status, vec![Event::Containers(Err("no socket".to_string()))]);
    assert_eq!(actions[1], Action::Fail(Error::RuntimeExecFailed("no socket".to_string())));
}

#[test]
fn status_fails_when_memory_cannot_be_read() {
    let actions = run(
        Verb::Status,
        vec![
            listing(Some("running")),
            answer("Name,ID"),
            Event::Memory(Err("free: command not found".to_string())),
        ],
    );
    assert_eq!(
        actions[3],
        Action::Fail(Error::HostMetricsFailed("free: command not found".to_string()))
    );
    let actions = run(
        Verb::Status,
        vec![listing(Some("running")), answer("Name,ID"), Event::Memory(Ok(vec![0xff]))],
    );
    assert_eq!(actions[3], Action::Fail(Error::InvalidOutputEncoding));
}

#[test]
fn status_never_mutates() {
    let actions = run(
        Verb::Status,
        vec![
            listing(Some("running")),
            answer("Name,ID\nAlice,1"),
            Event::Memory(Ok(vec![])),
            Event::Delivered,
            Event::Delivered,
            Event::Started(Ok(())),
        ],
    );
    assert!(mutations(&actions).is_empty());
}

#[test]
fn start_of_running_server_does_nothing() {
    let actions = run(
        Verb::Start,
        vec![
            listing(Some("running")),
            Event::Delivered,
            Event::Started(Ok(())),
            Event::Delivered,
            silence(),
        ],
    );
    assert_eq!(actions[1], say("Server is already running"));
    assert_eq!(actions[2], Action::Done);
    assert!(mutations(&actions).is_empty());
}

#[test]
fn start_waits_for_the_fourth_probe() {
    let actions = run(
        Verb::Start,
        vec![
            listing(None),
            Event::Started(Ok(())),
            Event::Delivered,
            silence(),
            Event::Elapsed,
            silence(),
            Event::Elapsed,
            silence(),
            Event::Elapsed,
            answer("Welcome to Pal Server[v0.1.4.1]"),
            Event::Delivered,
        ],
    );
    assert_eq!(
        actions,
        vec![
            Action::ListContainers,
            start_container(),
            say("Server is starting"),
            probe(),
            pause(),
            probe(),
            pause(),
            probe(),
            pause(),
            probe(),
            reply("Server started"),
            Action::Done,
        ]
    );
    let probes = actions.iter().filter(|action| **action == probe()).count();
    assert_eq!(probes, 4);
    assert_eq!(mutations(&actions), vec![&start_container()]);
}

#[test]
fn start_keeps_probing_whatever_the_failure() {
    let failures = [
        Error::NoResponse,
        Error::NotRunning,
        Error::TargetNotFound,
        Error::RuntimeExecFailed("busy".to_string()),
    ];
    for failure in failures {
        let actions = run(
            Verb::Start,
            vec![
                listing(Some("exited")),
                Event::Started(Ok(())),
                Event::Delivered,
                Event::Output(Err(failure)),
                Event::Elapsed,
            ],
        );
        assert_eq!(actions[4], pause());
        assert_eq!(actions[5], probe());
    }
}

#[test]
fn start_reports_a_refusal_and_does_not_retry() {
    let actions = run(
        Verb::Start,
        vec![
            listing(Some("exited")),
            Event::Started(Err("port is already allocated".to_string())),
            Event::Delivered,
            Event::Started(Ok(())),
        ],
    );
    assert_eq!(
        actions[2],
        say("Server failed to start Failed to start container: port is already allocated")
    );
    assert_eq!(actions[3], Action::Done);
    assert_eq!(mutations(&actions), vec![&start_container()]);
}

#[test]
fn start_fails_where_the_container_is_missing() {
    let actions = run(Verb::Start, vec![Event::Containers(Ok(vec![]))]);
    assert_eq!(actions[1], Action::Fail(Error::TargetNotFound));
    assert!(mutations(&actions).is_empty());
}

#[test]
fn stop_of_occupied_server_is_refused() {
    let actions = run(
        Verb::Stop,
        vec![
            answer("Name,ID\nAlice,1\nBob,2"),
            Event::Delivered,
            Event::Delivered,
            Event::Stopped(Ok(())),
            answer("backup done"),
        ],
    );
    assert_eq!(actions[0], players_query());
    assert_eq!(actions[1], say("2 players are still online\nName,ID\nAlice,1\nBob,2"));
    assert_eq!(actions[2], Action::Done);
    assert!(mutations(&actions).is_empty());
}

#[test]
fn stop_refuses_for_any_number_of_players() {
    for players in 1..30usize {
        let mut text = String::from("Name,ID");
        for player in 0..players {
            text.push_str(&format!("\np{player},{player}"));
        }
        let actions = run(Verb::Stop, vec![answer(&text), Event::Delivered]);
        assert_eq!(actions[1], say(&format!("{players} players are still online\n{text}")));
        assert!(mutations(&actions).is_empty());
    }
}

#[test]
fn stop_of_empty_server_backs_up_then_stops() {
    let actions = run(
        Verb::Stop,
        vec![
            answer("Name,ID\n"),
            Event::Delivered,
            answer("backup created at /palworld/backups/1.tar.gz\n"),
            Event::Delivered,
            Event::Stopped(Ok(())),
            answer("Welcome to Pal Server"),
            Event::Elapsed,
            answer("Welcome to Pal Server"),
            Event::Elapsed,
            silence(),
            Event::Delivered,
        ],
    );
    assert_eq!(
        actions,
        vec![
            players_query(),
            say("Server shutting down"),
            backup(),
            say("backup created at /palworld/backups/1.tar.gz\n"),
            stop_container(),
            probe(),
            pause(),
            probe(),
            pause(),
            probe(),
            reply("Server Stopped"),
            Action::Done,
        ]
    );
    assert_eq!(mutations(&actions), vec![&backup(), &stop_container()]);
}

#[test]
fn stop_accepts_a_silent_backup() {
    let actions = run(Verb::Stop, vec![answer("Name,ID"), Event::Delivered, answer("")]);
    assert_eq!(actions[3], say(""));
}

#[test]
fn stop_of_unreachable_server_is_already_offline() {
    let failures = [
        Error::NoResponse,
        Error::NotRunning,
        Error::TargetNotFound,
        Error::RuntimeExecFailed("no socket".to_string()),
    ];
    for failure in failures {
        let actions = run(Verb::Stop, vec![Event::Output(Err(failure)), Event::Delivered]);
        assert_eq!(
            actions,
            vec![players_query(), say("Server is already offline"), Action::Done]
        );
    }
    let actions = run(Verb::Stop, vec![answer("")]);
    assert_eq!(actions[1], say("Server is already offline"));
}

#[test]
fn stop_gives_up_when_the_backup_fails() {
    let actions = run(
        Verb::Stop,
        vec![
            answer("Name,ID"),
            Event::Delivered,
            Event::Output(Err(Error::NotRunning)),
            Event::Delivered,
            Event::Stopped(Ok(())),
        ],
    );
    assert_eq!(actions[3], Action::Fail(Error::NotRunning));
    assert_eq!(mutations(&actions), vec![&backup()]);
}

#[test]
fn stop_gives_up_when_the_runtime_refuses() {
    let actions = run(
        Verb::Stop,
        vec![
            answer("Name,ID"),
            Event::Delivered,
            answer("ok"),
            Event::Delivered,
            Event::Stopped(Err("permission denied".to_string())),
            Event::Stopped(Ok(())),
        ],
    );
    assert_eq!(actions[5], Action::Fail(Error::StopFailed("permission denied".to_string())));
    assert_eq!(mutations(&actions), vec![&backup(), &stop_container()]);
}

#[test]
fn save_backs_up_a_reachable_server() {
    let actions = run(
        Verb::Save,
        vec![answer("Name,ID\nAlice,1"), answer("saved 3 files\n"), Event::Delivered],
    );
    assert_eq!(
        actions,
        vec![players_query(), backup(), say("backup completed\nsaved 3 files\n"), Action::Done]
    );
}

#[test]
fn save_of_unreachable_server_does_nothing() {
    let actions = run(Verb::Save, vec![silence(), Event::Delivered]);
    assert_eq!(actions, vec![players_query(), say("Server is offline"), Action::Done]);
    assert!(mutations(&actions).is_empty());
}

#[test]
fn save_fails_when_the_backup_fails() {
    let actions = run(
        Verb::Save,
        vec![answer("Name,ID"), Event::Output(Err(Error::InvalidOutputEncoding))],
    );
    assert_eq!(actions[2], Action::Fail(Error::InvalidOutputEncoding));
}

#[test]
fn events_out_of_turn_fail_the_request() {
    for verb in [Verb::Status, Verb::Start, Verb::Stop, Verb::Save] {
        let actions = run(verb, vec![Event::Elapsed, Event::Delivered]);
        assert_eq!(actions[1], Action::Fail(Error::UnexpectedEvent));
        assert_eq!(actions[2], Action::Fail(Error::UnexpectedEvent));
    }
    let actions = run(Verb::Start, vec![listing(None), Event::Stopped(Ok(()))]);
    assert_eq!(actions[2], Action::Fail(Error::UnexpectedEvent));
}

#[test]
fn a_controller_in_a_phase_of_another_verb_fails() {
    let stray = Controller { request: request(Verb::Status), phase: Phase::Reported };
    let (next, action) = stray.step(Event::Delivered);
    assert_eq!(action, Action::Fail(Error::UnexpectedEvent));
    assert_eq!(next.phase, Phase::Finished);
    let stray = Controller { request: request(Verb::Save), phase: Phase::Starting };
    assert_eq!(stray.step(Event::Started(Ok(()))).1, Action::Fail(Error::UnexpectedEvent));
}

#[test]
fn a_finished_request_stays_finished() {
    let (controller, _) = Controller::begin(request(Verb::Status));
    let (controller, _) = controller.step(listing(None));
    let (controller, action) = controller.step(Event::Delivered);
    assert_eq!(action, Action::Done);
    assert_eq!(controller.phase, Phase::Finished);
    let (controller, action) = controller.step(Event::Delivered);
    assert_eq!(action, Action::Fail(Error::UnexpectedEvent));
    assert_eq!(controller.phase, Phase::Finished);
}

#[test]
fn no_verb_exceeds_its_allowance() {
    let script = || {
        vec![
            listing(None),
            answer("Name,ID"),
            Event::Started(Ok(())),
            Event::Delivered,
            answer("x"),
            Event::Delivered,
            Event::Stopped(Ok(())),
            silence(),
            Event::Elapsed,
            Event::Delivered,
            Event::Started(Ok(())),
            Event::Stopped(Ok(())),
            answer("Name,ID"),
        ]
    };
    for (verb, most) in [(Verb::Status, 0), (Verb::Start, 1), (Verb::Stop, 2), (Verb::Save, 1)] {
        for skip in 0..script().len() {
            let events = script().into_iter().skip(skip).collect();
            let actions = run(verb, events);
            assert!(mutations(&actions).len() <= most, "verb {verb:?}, skip {skip}");
        }
    }
}
