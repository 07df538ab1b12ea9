//! The controller: what to do, step by step, for a request to report on,
//! start, stop or save the server.
//!
//! A controller issues one action, is handed what came of it, and answers
//! with the next action. It never stops a server with players on it, asks
//! the runtime to start or stop at most once, and repeats nothing but the
//! console probe with which it waits for the server to come up or go down.

use crate::container::{
    get_palworld_docker_container, locate, ContainerIsRunning, ContainerModel, ContainerSummary,
};
use crate::error::{outcome, Error, ErrorModel};
use crate::players::{
    get_players, players_command, players_query, roster_of, PlayerRoster, PlayerRosterModel,
};
use crate::text::{decimal, to_decimal};
use vstd::prelude::*;
use vstd::string::*;

verus! {

/// What is asked of the controller.
#[derive(Debug, Clone, Copy, PartialEq, Eq, Structural)]
pub enum Verb {
    /// Say whether the server is off, coming up, or on and with whom.
    Status,
    /// Start the server unless it runs.
    Start,
    /// Back the game up and stop the server unless somebody plays.
    Stop,
    /// Back the game up.
    Save,
}

/// One request: the verb, and who asked, to address the answer.
#[derive(Debug, Clone, Copy, PartialEq, Eq, Structural)]
pub struct LifecycleRequest {
    pub verb: Verb,
    pub requester: u64,
}

/// What came of the action that the controller issued last.
#[derive(Debug, PartialEq, Eq)]
pub enum Event {
    /// The listing of all containers, stopped ones included, or the cause
    /// for which the runtime gave none.
    Containers(Result<Vec<ContainerSummary>, String>),
    /// The result of the command that was to run in the container.
    Output(Result<String, Error>),
    /// What the host wrote about its free memory, or the cause for which
    /// it wrote nothing.
    Memory(Result<Vec<u8>, String>),
    /// The runtime started the container, or the cause for which it did
    /// not.
    Started(Result<(), String>),
    /// The runtime stopped the container, or the cause for which it did
    /// not.
    Stopped(Result<(), String>),
    /// The message went out.
    Delivered,
    /// The pause is over.
    Elapsed,
}

/// What the controller asks its caller to do next.
#[derive(Debug, PartialEq, Eq)]
pub enum Action {
    /// List all containers, stopped ones included.
    ListContainers,
    /// Send the command to the game's console.
    Console(Vec<String>),
    /// Run the command inside the container.
    Exec(Vec<String>),
    /// Ask the host how much memory is free.
    ReadMemory,
    /// Have the runtime start the container of this name.
    StartContainer { name: String },
    /// Have the runtime stop the container of this name.
    StopContainer { name: String },
    /// Wait for so many seconds.
    Sleep { seconds: u64 },
    /// Send the text.
    Say(String),
    /// Send the text, addressed to the requester.
    Reply { to: u64, text: String },
    /// The request is done.
    Done,
    /// The request failed.
    Fail(Error),
}

/// Where the controller stands: what it waits for.
#[derive(Debug, PartialEq, Eq)]
pub enum Phase {
    /// For the listing of containers.
    Locating,
    /// For the console's list of players.
    Querying,
    /// For the host's memory, with the players known.
    Measuring { roster: PlayerRoster },
    /// For the runtime to start the container.
    Starting,
    /// For the word that work begins to go out.
    Announced,
    /// For the backup to run.
    BackingUp,
    /// For the backup's output to go out.
    Reported,
    /// For the runtime to stop the container.
    Stopping,
    /// For the console's answer to a probe.
    Probing,
    /// For the pause between two probes to pass.
    Pausing,
    /// For the last message to go out.
    Closing,
    /// For nothing: the request is over.
    Finished,
}

/// A request under way.
#[derive(Debug, PartialEq, Eq)]
pub struct Controller {
    pub request: LifecycleRequest,
    pub phase: Phase,
}

/// The mathematical value of an [`Event`].
pub enum EventModel {
    Containers(Result<Seq<ContainerModel>, Seq<char>>),
    Output(Result<Seq<char>, ErrorModel>),
    Memory(Result<Seq<u8>, Seq<char>>),
    Started(Result<(), Seq<char>>),
    Stopped(Result<(), Seq<char>>),
    Delivered,
    Elapsed,
}

/// The mathematical value of an [`Action`].
pub enum ActionModel {
    ListContainers,
    Console(Seq<Seq<char>>),
    Exec(Seq<Seq<char>>),
    ReadMemory,
    StartContainer { name: Seq<char> },
    StopContainer { name: Seq<char> },
    Sleep { seconds: u64 },
    Say(Seq<char>),
    Reply { to: u64, text: Seq<char> },
    Done,
    Fail(ErrorModel),
}

/// The mathematical value of a [`Phase`].
pub enum PhaseModel {
    Locating,
    Querying,
    Measuring { roster: PlayerRosterModel },
    Starting,
    Announced,
    BackingUp,
    Reported,
    Stopping,
    Probing,
    Pausing,
    Closing,
    Finished,
}

/// The mathematical value of a [`Controller`].
pub struct ControllerModel {
    pub request: LifecycleRequest,
    pub phase: PhaseModel,
}

impl View for Event {
    type V = EventModel;

    open spec fn view(&self) -> EventModel {
        match self {
            Event::Containers(Ok(listing)) => EventModel::Containers(Ok(listing.deep_view())),
            Event::Containers(Err(cause)) => EventModel::Containers(Err(cause@)),
            Event::Output(result) => EventModel::Output(outcome(*result)),
            Event::Memory(Ok(bytes)) => EventModel::Memory(Ok(bytes@)),
            Event::Memory(Err(cause)) => EventModel::Memory(Err(cause@)),
            Event::Started(Ok(_)) => EventModel::Started(Ok(())),
            Event::Started(Err(cause)) => EventModel::Started(Err(cause@)),
            Event::Stopped(Ok(_)) => EventModel::Stopped(Ok(())),
            Event::Stopped(Err(cause)) => EventModel::Stopped(Err(cause@)),
            Event::Delivered => EventModel::Delivered,
            Event::Elapsed => EventModel::Elapsed,
        }
    }
}

impl View for Action {
    type V = ActionModel;

    open spec fn view(&self) -> ActionModel {
        match self {
            Action::ListContainers => ActionModel::ListContainers,
            Action::Console(command) => ActionModel::Console(command.deep_view()),
            Action::Exec(command) => ActionModel::Exec(command.deep_view()),
            Action::ReadMemory => ActionModel::ReadMemory,
            Action::StartContainer { name } => ActionModel::StartContainer { name: name@ },
            Action::StopContainer { name } => ActionModel::StopContainer { name: name@ },
            Action::Sleep { seconds } => ActionModel::Sleep { seconds: *seconds },
            Action::Say(text) => ActionModel::Say(text@),
            Action::Reply { to, text } => ActionModel::Reply { to: *to, text: text@ },
            Action::Done => ActionModel::Done,
            Action::Fail(error) => ActionModel::Fail(error@),
        }
    }
}

impl View for Phase {
    type V = PhaseModel;

    open spec fn view(&self) -> PhaseModel {
        match self {
            Phase::Locating => PhaseModel::Locating,
            Phase::Querying => PhaseModel::Querying,
            Phase::Measuring { roster } => PhaseModel::Measuring { roster: roster@ },
            Phase::Starting => PhaseModel::Starting,
            Phase::Announced => PhaseModel::Announced,
            Phase::BackingUp => PhaseModel::BackingUp,
            Phase::Reported => PhaseModel::Reported,
            Phase::Stopping => PhaseModel::Stopping,
            Phase::Probing => PhaseModel::Probing,
            Phase::Pausing => PhaseModel::Pausing,
            Phase::Closing => PhaseModel::Closing,
            Phase::Finished => PhaseModel::Finished,
        }
    }
}

impl View for Controller {
    type V = ControllerModel;

    open spec fn view(&self) -> ControllerModel {
        ControllerModel { request: self.request, phase: self.phase@ }
    }
}

/// The words that ask the console whether it is there.
pub open spec fn probe_query() -> Seq<Seq<char>> {
    seq!["info"@]
}

/// The command that backs the game up.
pub open spec fn backup_query() -> Seq<Seq<char>> {
    seq!["backup"@]
}

/// The seconds between two probes.
pub open spec fn probe_interval() -> u64 {
    1
}

/// The report on a server whose container does not run.
pub open spec fn offline_text() -> Seq<char> {
    "Server Offline"@
}

/// The report on a server whose container runs while its console is
/// silent.
pub open spec fn booting_text() -> Seq<char> {
    "Server is booting/restarting"@
}

/// The report on a server that is on: how many play, who they are, and the
/// host's memory.
pub open spec fn online_text(roster: PlayerRosterModel, memory: Seq<char>) -> Seq<char> {
    "```\n"@ + decimal(roster.count) + " players online\n"@ + roster.players + "\n---\n"@ + memory
        + "\n```"@
}

/// The answer to a start of a server that runs.
pub open spec fn already_running_text() -> Seq<char> {
    "Server is already running"@
}

/// The word that the container was started and the wait begins.
pub open spec fn starting_text() -> Seq<char> {
    "Server is starting"@
}

/// The word that the server answers, for the requester.
pub open spec fn started_text() -> Seq<char> {
    "Server started"@
}

/// The report on a start that the runtime refused, with its cause.
pub open spec fn start_failed_text(cause: Seq<char>) -> Seq<char> {
    "Server failed to start "@ + ErrorModel::StartFailed(cause).message()
}

/// The refusal to stop a server on which somebody plays: how many, and
/// who.
pub open spec fn occupied_text(roster: PlayerRosterModel) -> Seq<char> {
    decimal(roster.count) + " players are still online\n"@ + roster.players
}

/// The word that the stop begins.
pub open spec fn shutting_down_text() -> Seq<char> {
    "Server shutting down"@
}

/// The word that the server answers no more, for the requester.
pub open spec fn stopped_text() -> Seq<char> {
    "Server Stopped"@
}

/// The answer to a stop of a server that gives no roster.
pub open spec fn already_offline_text() -> Seq<char> {
    "Server is already offline"@
}

/// The report on a backup, with what the backup wrote.
pub open spec fn saved_text(backup: Seq<char>) -> Seq<char> {
    "backup completed\n"@ + backup
}

/// The answer to a save of a server that gives no roster.
pub open spec fn not_saved_text() -> Seq<char> {
    "Server is offline"@
}

/// The controller in `phase`, asking for `action`.
pub open spec fn proceed(request: LifecycleRequest, phase: PhaseModel, action: ActionModel) -> (
    ControllerModel,
    ActionModel,
) {
    (ControllerModel { request, phase }, action)
}

/// The controller sending its last message.
pub open spec fn conclude(request: LifecycleRequest, text: Seq<char>) -> (
    ControllerModel,
    ActionModel,
) {
    proceed(request, PhaseModel::Closing, ActionModel::Say(text))
}

/// The controller sending its last message to the requester.
pub open spec fn conclude_to_requester(request: LifecycleRequest, text: Seq<char>) -> (
    ControllerModel,
    ActionModel,
) {
    proceed(request, PhaseModel::Closing, ActionModel::Reply { to: request.requester, text })
}

/// The controller giving up with `error`.
pub open spec fn abandon(request: LifecycleRequest, error: ErrorModel) -> (
    ControllerModel,
    ActionModel,
) {
    proceed(request, PhaseModel::Finished, ActionModel::Fail(error))
}

/// The controller at the start of a request, and its first action: a
/// report and a start begin by looking for the container, a stop and a
/// save by asking who is on.
pub open spec fn begin_model(request: LifecycleRequest) -> (ControllerModel, ActionModel) {
    match request.verb {
        Verb::Status | Verb::Start => proceed(
            request,
            PhaseModel::Locating,
            ActionModel::ListContainers,
        ),
        Verb::Stop | Verb::Save => proceed(
            request,
            PhaseModel::Querying,
            ActionModel::Console(players_query()),
        ),
    }
}

/// What follows the listing. A report goes on to the players only where
/// the container runs, and says that the server is off where it does not.
/// A start touches nothing where the container runs already.
pub open spec fn on_listing(request: LifecycleRequest, listing: Seq<ContainerModel>) -> (
    ControllerModel,
    ActionModel,
) {
    match locate(listing) {
        Err(error) => abandon(request, error),
        Ok(container) => match request.verb {
            Verb::Status => if container.running() {
                proceed(request, PhaseModel::Querying, ActionModel::Console(players_query()))
            } else {
                conclude(request, offline_text())
            },
            Verb::Start => if container.running() {
                conclude(request, already_running_text())
            } else {
                proceed(
                    request,
                    PhaseModel::Starting,
                    ActionModel::StartContainer { name: crate::container::container_name() },
                )
            },
            _ => abandon(request, ErrorModel::UnexpectedEvent),
        },
    }
}

/// What follows the console's answer to the question who is on. A report
/// takes silence for a server that is coming up. A stop goes on only where
/// the roster came and nobody is on it. A save goes on wherever the roster
/// came.
pub open spec fn on_roster(
    request: LifecycleRequest,
    roster: Result<PlayerRosterModel, ErrorModel>,
) -> (ControllerModel, ActionModel) {
    match request.verb {
        Verb::Status => match roster {
            Ok(roster) => proceed(
                request,
                PhaseModel::Measuring { roster },
                ActionModel::ReadMemory,
            ),
            Err(ErrorModel::NoResponse) => conclude(request, booting_text()),
            Err(error) => abandon(request, error),
        },
        Verb::Stop => match roster {
            Ok(roster) => if roster.count != 0 {
                conclude(request, occupied_text(roster))
            } else {
                proceed(request, PhaseModel::Announced, ActionModel::Say(shutting_down_text()))
            },
            Err(_) => conclude(request, already_offline_text()),
        },
        Verb::Save => match roster {
            Ok(_) => proceed(request, PhaseModel::BackingUp, ActionModel::Exec(backup_query())),
            Err(_) => conclude(request, not_saved_text()),
        },
        Verb::Start => abandon(request, ErrorModel::UnexpectedEvent),
    }
}

/// What follows the console's answer to a probe. A start waits until the
/// console answers, a stop until it answers no more; each pauses between
/// two probes.
pub open spec fn on_probe(request: LifecycleRequest, answered: bool) -> (
    ControllerModel,
    ActionModel,
) {
    let pause = proceed(
        request,
        PhaseModel::Pausing,
        ActionModel::Sleep { seconds: probe_interval() },
    );
    match request.verb {
        Verb::Start => if answered {
            conclude_to_requester(request, started_text())
        } else {
            pause
        },
        Verb::Stop => if answered {
            pause
        } else {
            conclude_to_requester(request, stopped_text())
        },
        _ => abandon(request, ErrorModel::UnexpectedEvent),
    }
}

/// The controller after `event`, and the action it asks for.
#[verifier::opaque]
pub open spec fn step_model(controller: ControllerModel, event: EventModel) -> (
    ControllerModel,
    ActionModel,
) {
    let request = controller.request;
    let verb = request.verb;
    let probe = proceed(request, PhaseModel::Probing, ActionModel::Console(probe_query()));
    let unexpected = abandon(request, ErrorModel::UnexpectedEvent);
    match (controller.phase, event) {
        (PhaseModel::Locating, EventModel::Containers(Ok(listing))) => on_listing(
            request,
            listing,
        ),
        (PhaseModel::Locating, EventModel::Containers(Err(cause))) => abandon(
            request,
            ErrorModel::RuntimeExecFailed(cause),
        ),
        (PhaseModel::Querying, EventModel::Output(response)) => on_roster(
            request,
            roster_of(response),
        ),
        (PhaseModel::Measuring { roster }, EventModel::Memory(output)) => {
            match crate::host::memory_of(output) {
                Ok(memory) if verb == Verb::Status => conclude(
                    request,
                    online_text(roster, memory),
                ),
                Ok(_) => unexpected,
                Err(error) => abandon(request, error),
            }
        },
        (PhaseModel::Starting, EventModel::Started(attempt)) => if verb == Verb::Start {
            match attempt {
                Ok(_) => proceed(request, PhaseModel::Announced, ActionModel::Say(starting_text())),
                Err(cause) => conclude(request, start_failed_text(cause)),
            }
        } else {
            unexpected
        },
        (PhaseModel::Announced, EventModel::Delivered) => match verb {
            Verb::Start => probe,
            Verb::Stop => proceed(request, PhaseModel::BackingUp, ActionModel::Exec(backup_query())),
            _ => unexpected,
        },
        (PhaseModel::BackingUp, EventModel::Output(Ok(backup))) => match verb {
            Verb::Stop => proceed(request, PhaseModel::Reported, ActionModel::Say(backup)),
            Verb::Save => conclude(request, saved_text(backup)),
            _ => unexpected,
        },
        (PhaseModel::BackingUp, EventModel::Output(Err(error))) => abandon(request, error),
        (PhaseModel::Reported, EventModel::Delivered) => if verb == Verb::Stop {
            proceed(
                request,
                PhaseModel::Stopping,
                ActionModel::StopContainer { name: crate::container::container_name() },
            )
        } else {
            unexpected
        },
        (PhaseModel::Stopping, EventModel::Stopped(attempt)) => if verb == Verb::Stop {
            match attempt {
                Ok(_) => probe,
                Err(cause) => abandon(request, ErrorModel::StopFailed(cause)),
            }
        } else {
            unexpected
        },
        (PhaseModel::Probing, EventModel::Output(response)) => on_probe(request, response is Ok),
        (PhaseModel::Pausing, EventModel::Elapsed) => match verb {
            Verb::Start | Verb::Stop => probe,
            _ => unexpected,
        },
        (PhaseModel::Closing, EventModel::Delivered) => proceed(
            request,
            PhaseModel::Finished,
            ActionModel::Done,
        ),
        _ => unexpected,
    }
}

/// A command of one word.
fn one_word(word: &str) -> (command: Vec<String>)
    ensures
        command.deep_view() == seq![word@],
{
    let mut command: Vec<String> = Vec::new();
    command.push(word.to_owned());
    command
}

fn proceed_with(request: LifecycleRequest, phase: Phase, action: Action) -> (next: (
    Controller,
    Action,
))
    ensures
        (next.0@, next.1@) == proceed(request, phase@, action@),
{
    (Controller { request, phase }, action)
}

fn conclude_with(request: LifecycleRequest, text: String) -> (next: (Controller, Action))
    ensures
        (next.0@, next.1@) == conclude(request, text@),
{
    proceed_with(request, Phase::Closing, Action::Say(text))
}

fn abandon_with(request: LifecycleRequest, error: Error) -> (next: (Controller, Action))
    ensures
        (next.0@, next.1@) == abandon(request, error@),
{
    proceed_with(request, Phase::Finished, Action::Fail(error))
}

fn probe_next(request: LifecycleRequest) -> (next: (Controller, Action))
    ensures
        (next.0@, next.1@) == proceed(
            request,
            PhaseModel::Probing,
            ActionModel::Console(probe_query()),
        ),
{
    proceed_with(request, Phase::Probing, Action::Console(one_word("info")))
}

fn online_report(roster: &PlayerRoster, memory: &str) -> (text: String)
    ensures
        text@ == online_text(roster@, memory@),
{
    let mut text = "```\n".to_owned();
    text.append(to_decimal(roster.count).as_str());
    text.append(" players online\n");
    text.append(roster.players.as_str());
    text.append("\n---\n");
    text.append(memory);
    text.append("\n```");
    text
}

fn occupied_report(roster: &PlayerRoster) -> (text: String)
    ensures
        text@ == occupied_text(roster@),
{
    let mut text = to_decimal(roster.count);
    text.append(" players are still online\n");
    text.append(roster.players.as_str());
    text
}

fn after_listing(request: LifecycleRequest, listing: Vec<ContainerSummary>) -> (next: (
    Controller,
    Action,
))
    ensures
        (next.0@, next.1@) == on_listing(request, listing.deep_view()),
{
    match get_palworld_docker_container(listing) {
        Err(error) => abandon_with(request, error),
        Ok(container) => match request.verb {
            Verb::Status => if container.is_running() {
                proceed_with(request, Phase::Querying, Action::Console(players_command()))
            } else {
                conclude_with(request, "Server Offline".to_owned())
            },
            Verb::Start => if container.is_running() {
                conclude_with(request, "Server is already running".to_owned())
            } else {
                proceed_with(
                    request,
                    Phase::Starting,
                    Action::StartContainer { name: "palworld-server".to_owned() },
                )
            },
            _ => abandon_with(request, Error::UnexpectedEvent),
        },
    }
}

fn after_roster(request: LifecycleRequest, roster: Result<PlayerRoster, Error>) -> (next: (
    Controller,
    Action,
))
    ensures
        (next.0@, next.1@) == on_roster(request, outcome(roster)),
{
    match request.verb {
        Verb::Status => match roster {
            Ok(roster) => proceed_with(request, Phase::Measuring { roster }, Action::ReadMemory),
            Err(Error::NoResponse) => conclude_with(
                request,
                "Server is booting/restarting".to_owned(),
            ),
            Err(error) => abandon_with(request, error),
        },
        Verb::Stop => match roster {
            Ok(roster) => if roster.count != 0 {
                conclude_with(request, occupied_report(&roster))
            } else {
                proceed_with(
                    request,
                    Phase::Announced,
                    Action::Say("Server shutting down".to_owned()),
                )
            },
            Err(_) => conclude_with(request, "Server is already offline".to_owned()),
        },
        Verb::Save => match roster {
            Ok(_) => proceed_with(request, Phase::BackingUp, Action::Exec(one_word("backup"))),
            Err(_) => conclude_with(request, "Server is offline".to_owned()),
        },
        Verb::Start => abandon_with(request, Error::UnexpectedEvent),
    }
}

fn after_probe(request: LifecycleRequest, answered: bool) -> (next: (Controller, Action))
    ensures
        (next.0@, next.1@) == on_probe(request, answered),
{
    match request.verb {
        Verb::Start => if answered {
            proceed_with(
                request,
                Phase::Closing,
                Action::Reply { to: request.requester, text: "Server started".to_owned() },
            )
        } else {
            proceed_with(request, Phase::Pausing, Action::Sleep { seconds: 1 })
        },
        Verb::Stop => if answered {
            proceed_with(request, Phase::Pausing, Action::Sleep { seconds: 1 })
        } else {
            proceed_with(
                request,
                Phase::Closing,
                Action::Reply { to: request.requester, text: "Server Stopped".to_owned() },
            )
        },
        _ => abandon_with(request, Error::UnexpectedEvent),
    }
}

impl Controller {
    /// Takes up a request and says what to do first.
    pub fn begin(request: LifecycleRequest) -> (begun: (Controller, Action))
        ensures
            (begun.0@, begun.1@) == begin_model(request),
    {
        match request.verb {
            Verb::Status | Verb::Start => proceed_with(
                request,
                Phase::Locating,
                Action::ListContainers,
            ),
            Verb::Stop | Verb::Save => proceed_with(
                request,
                Phase::Querying,
                Action::Console(players_command()),
            ),
        }
    }

    /// Takes what came of the action issued last and decides what to do
    /// next. An event that does not answer that action fails the request.
    pub fn step(self, event: Event) -> (next: (Controller, Action))
        ensures
            (next.0@, next.1@) == step_model(self@, event@),
    {
        reveal(step_model);
        let request = self.request;
        match (self.phase, event) {
            (Phase::Locating, Event::Containers(Ok(listing))) => after_listing(request, listing),
            (Phase::Locating, Event::Containers(Err(cause))) => abandon_with(
                request,
                Error::RuntimeExecFailed(cause),
            ),
            (Phase::Querying, Event::Output(response)) => after_roster(
                request,
                get_players(response),
            ),
            (Phase::Measuring { roster }, Event::Memory(output)) => {
                match crate::host::get_memory_stats(output) {
                    Ok(memory) => match request.verb {
                        Verb::Status => conclude_with(
                            request,
                            online_report(&roster, memory.as_str()),
                        ),
                        _ => abandon_with(request, Error::UnexpectedEvent),
                    },
                    Err(error) => abandon_with(request, error),
                }
            },
            (Phase::Starting, Event::Started(attempt)) => match request.verb {
                Verb::Start => match crate::container::start_docker_container(attempt) {
                    Ok(_) => proceed_with(
                        request,
                        Phase::Announced,
                        Action::Say("Server is starting".to_owned()),
                    ),
                    Err(error) => {
                        let mut text = "Server failed to start ".to_owned();
                        text.append(error.message().as_str());
                        conclude_with(request, text)
                    },
                },
                _ => abandon_with(request, Error::UnexpectedEvent),
            },
            (Phase::Announced, Event::Delivered) => match request.verb {
                Verb::Start => probe_next(request),
                Verb::Stop => proceed_with(
                    request,
                    Phase::BackingUp,
                    Action::Exec(one_word("backup")),
                ),
                _ => abandon_with(request, Error::UnexpectedEvent),
            },
            (Phase::BackingUp, Event::Output(Ok(backup))) => match request.verb {
                Verb::Stop => proceed_with(request, Phase::Reported, Action::Say(backup)),
                Verb::Save => {
                    let mut text = "backup completed\n".to_owned();
                    text.append(backup.as_str());
                    conclude_with(request, text)
                },
                _ => abandon_with(request, Error::UnexpectedEvent),
            },
            (Phase::BackingUp, Event::Output(Err(error))) => abandon_with(request, error),
            (Phase::Reported, Event::Delivered) => match request.verb {
                Verb::Stop => proceed_with(
                    request,
                    Phase::Stopping,
                    Action::StopContainer { name: "palworld-server".to_owned() },
                ),
                _ => abandon_with(request, Error::UnexpectedEvent),
            },
            (Phase::Stopping, Event::Stopped(attempt)) => match request.verb {
                Verb::Stop => match crate::container::stop_docker_container(attempt) {
                    Ok(_) => probe_next(request),
                    Err(error) => abandon_with(request, error),
                },
                _ => abandon_with(request, Error::UnexpectedEvent),
            },
            (Phase::Probing, Event::Output(response)) => after_probe(request, response.is_ok()),
            (Phase::Pausing, Event::Elapsed) => match request.verb {
                Verb::Start | Verb::Stop => probe_next(request),
                _ => abandon_with(request, Error::UnexpectedEvent),
            },
            (Phase::Closing, Event::Delivered) => proceed_with(
                request,
                Phase::Finished,
                Action::Done,
            ),
            _ => abandon_with(request, Error::UnexpectedEvent),
        }
    }
}

} // verus!
