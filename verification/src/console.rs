//! Running a command inside the managed container, one step at a time.
//!
//! A session issues one action, is handed what came of it, and answers with
//! the next action, until it finishes with the captured text or a failure.
//! The caller performs the actions; the session decides.

use crate::container::{
    get_palworld_docker_container, locate, ContainerIsRunning, ContainerModel, ContainerSummary,
};
use crate::error::{outcome, Error, ErrorModel};
use vstd::prelude::*;
use vstd::seq_lib::lemma_flatten_concat;
use vstd::string::*;
use vstd::utf8::*;

verus! {

/// What came of the action that a session issued last.
#[derive(Debug, PartialEq, Eq)]
pub enum ExecEvent {
    /// The listing of all containers, stopped ones included, or the cause
    /// for which the runtime gave none.
    Containers(Result<Vec<ContainerSummary>, String>),
    /// The id under which the runtime created the command, or the cause for
    /// which it created none.
    Created(Result<String, String>),
    /// The chunks that the command wrote to its output until the stream
    /// ended, or the cause for which the runtime did not start it.
    Output(Result<Vec<Vec<u8>>, String>),
}

/// What a session asks its caller to do next.
#[derive(Debug, PartialEq, Eq)]
pub enum ExecAction {
    /// List all containers, stopped ones included.
    ListContainers,
    /// Create `command` inside the container with the id `container`, with
    /// its standard output attached.
    CreateExec { container: String, command: Vec<String> },
    /// Start the created command `handle` and collect its output.
    StartExec { handle: String },
    /// The session is over; this is its result.
    Finish(Result<String, Error>),
}

/// A command on its way through the container runtime. `console` says that
/// the command goes to the game's console, where silence is a failure.
#[derive(Debug, PartialEq, Eq)]
pub enum ExecSession {
    /// The listing was asked for.
    Locating { command: Vec<String>, console: bool },
    /// The command was handed to the runtime.
    Creating { console: bool },
    /// The command runs.
    Attaching { console: bool },
    /// Nothing more will be asked.
    Finished,
}

/// The mathematical value of an [`ExecEvent`].
pub enum ExecEventModel {
    Containers(Result<Seq<ContainerModel>, Seq<char>>),
    Created(Result<Seq<char>, Seq<char>>),
    Output(Result<Seq<Seq<u8>>, Seq<char>>),
}

/// The mathematical value of an [`ExecAction`].
pub enum ExecActionModel {
    ListContainers,
    CreateExec { container: Seq<char>, command: Seq<Seq<char>> },
    StartExec { handle: Seq<char> },
    Finish(Result<Seq<char>, ErrorModel>),
}

/// The mathematical value of an [`ExecSession`].
pub enum ExecSessionModel {
    Locating { command: Seq<Seq<char>>, console: bool },
    Creating { console: bool },
    Attaching { console: bool },
    Finished,
}

impl View for ExecEvent {
    type V = ExecEventModel;

    open spec fn view(&self) -> ExecEventModel {
        match self {
            ExecEvent::Containers(Ok(listing)) => ExecEventModel::Containers(
                Ok(listing.deep_view()),
            ),
            ExecEvent::Containers(Err(cause)) => ExecEventModel::Containers(Err(cause@)),
            ExecEvent::Created(Ok(handle)) => ExecEventModel::Created(Ok(handle@)),
            ExecEvent::Created(Err(cause)) => ExecEventModel::Created(Err(cause@)),
            ExecEvent::Output(Ok(chunks)) => ExecEventModel::Output(Ok(chunks.deep_view())),
            ExecEvent::Output(Err(cause)) => ExecEventModel::Output(Err(cause@)),
        }
    }
}

impl View for ExecAction {
    type V = ExecActionModel;

    open spec fn view(&self) -> ExecActionModel {
        match self {
            ExecAction::ListContainers => ExecActionModel::ListContainers,
            ExecAction::CreateExec { container, command } => ExecActionModel::CreateExec {
                container: container@,
                command: command.deep_view(),
            },
            ExecAction::StartExec { handle } => ExecActionModel::StartExec { handle: handle@ },
            ExecAction::Finish(Ok(text)) => ExecActionModel::Finish(Ok(text@)),
            ExecAction::Finish(Err(error)) => ExecActionModel::Finish(Err(error@)),
        }
    }
}

impl View for ExecSession {
    type V = ExecSessionModel;

    open spec fn view(&self) -> ExecSessionModel {
        match self {
            ExecSession::Locating { command, console } => ExecSessionModel::Locating {
                command: command.deep_view(),
                console: *console,
            },
            ExecSession::Creating { console } => ExecSessionModel::Creating { console: *console },
            ExecSession::Attaching { console } => ExecSessionModel::Attaching {
                console: *console,
            },
            ExecSession::Finished => ExecSessionModel::Finished,
        }
    }
}

/// The program that talks to the game's console.
pub open spec fn console_program() -> Seq<char> {
    "rcon-cli"@
}

/// Whether every chunk is UTF-8 text by itself.
pub open spec fn all_text(chunks: Seq<Seq<u8>>) -> bool {
    forall|i: int| 0 <= i < chunks.len() ==> valid_utf8(#[trigger] chunks[i])
}

/// The text of the chunks, each decoded by itself, one after the other.
pub open spec fn joined_text(chunks: Seq<Seq<u8>>) -> Seq<char> {
    chunks.map_values(|chunk: Seq<u8>| decode_utf8(chunk)).flatten()
}

/// What a command's output amounts to: its text, or the failure to read it
/// as text.
pub open spec fn captured(chunks: Seq<Seq<u8>>) -> Result<Seq<char>, ErrorModel> {
    if all_text(chunks) {
        Ok(joined_text(chunks))
    } else {
        Err(ErrorModel::InvalidOutputEncoding)
    }
}

/// The result of a session: for a console command, empty text counts as no
/// response; any other result stands as it is.
pub open spec fn answer(console: bool, output: Result<Seq<char>, ErrorModel>) -> Result<
    Seq<char>,
    ErrorModel,
> {
    match output {
        Ok(text) => if console && text.len() == 0 {
            Err(ErrorModel::NoResponse)
        } else {
            Ok(text)
        },
        Err(error) => Err(error),
    }
}

/// The cause reported when the runtime lists the managed container without
/// an id.
pub open spec fn missing_id() -> Seq<char> {
    "container has no id"@
}

/// What a session does once the listing is in: it goes on to create the
/// command only in a managed container that is running.
pub open spec fn located(
    command: Seq<Seq<char>>,
    console: bool,
    listing: Seq<ContainerModel>,
) -> (ExecSessionModel, ExecActionModel) {
    match locate(listing) {
        Err(error) => (ExecSessionModel::Finished, ExecActionModel::Finish(Err(error))),
        Ok(container) => if !container.running() {
            (ExecSessionModel::Finished, ExecActionModel::Finish(Err(ErrorModel::NotRunning)))
        } else {
            match container.id {
                Some(id) => (
                    ExecSessionModel::Creating { console },
                    ExecActionModel::CreateExec { container: id, command },
                ),
                None => (
                    ExecSessionModel::Finished,
                    ExecActionModel::Finish(Err(ErrorModel::RuntimeExecFailed(missing_id()))),
                ),
            }
        },
    }
}

/// A session that ends by reporting that the runtime failed.
pub open spec fn runtime_failed(cause: Seq<char>) -> (ExecSessionModel, ExecActionModel) {
    (
        ExecSessionModel::Finished,
        ExecActionModel::Finish(Err(ErrorModel::RuntimeExecFailed(cause))),
    )
}

/// The session after `event`, and the action it asks for.
pub open spec fn exec_step(session: ExecSessionModel, event: ExecEventModel) -> (
    ExecSessionModel,
    ExecActionModel,
) {
    match (session, event) {
        (
            ExecSessionModel::Locating { command, console },
            ExecEventModel::Containers(Ok(listing)),
        ) => located(command, console, listing),
        (ExecSessionModel::Locating { .. }, ExecEventModel::Containers(Err(cause))) => {
            runtime_failed(cause)
        },
        (ExecSessionModel::Creating { console }, ExecEventModel::Created(Ok(handle))) => (
            ExecSessionModel::Attaching { console },
            ExecActionModel::StartExec { handle },
        ),
        (ExecSessionModel::Creating { .. }, ExecEventModel::Created(Err(cause))) => {
            runtime_failed(cause)
        },
        (ExecSessionModel::Attaching { console }, ExecEventModel::Output(Ok(chunks))) => (
            ExecSessionModel::Finished,
            ExecActionModel::Finish(answer(console, captured(chunks))),
        ),
        (ExecSessionModel::Attaching { .. }, ExecEventModel::Output(Err(cause))) => {
            runtime_failed(cause)
        },
        _ => (
            ExecSessionModel::Finished,
            ExecActionModel::Finish(Err(ErrorModel::UnexpectedEvent)),
        ),
    }
}

/// A command is created only in the managed container and only while it
/// runs. Where the managed container does not run, the session ends at
/// once, and says so.
pub proof fn exec_needs_running_container(
    command: Seq<Seq<char>>,
    console: bool,
    listing: Seq<ContainerModel>,
)
    ensures
        ({
            let next = exec_step(
                ExecSessionModel::Locating { command, console },
                ExecEventModel::Containers(Ok(listing)),
            );
            &&& next.1 is CreateExec ==> {
                &&& locate(listing) is Ok
                &&& locate(listing)->Ok_0.running()
                &&& locate(listing)->Ok_0.id == Some(next.1->container)
                &&& next.1->command == command
            }
            &&& !(next.1 is StartExec)
            &&& locate(listing) is Ok && !locate(listing)->Ok_0.running() ==> next == (
                ExecSessionModel::Finished,
                ExecActionModel::Finish(Err(ErrorModel::NotRunning)),
            )
        }),
{
}

/// The console never answers with empty text: silence is no response.
/// Any other command's output stands as it is, empty or not.
pub proof fn console_answers_are_not_empty(output: Result<Seq<char>, ErrorModel>)
    ensures
        answer(true, output) matches Ok(text) ==> text.len() > 0,
        answer(true, Ok(Seq::empty())) == Err::<Seq<char>, ErrorModel>(ErrorModel::NoResponse),
        answer(false, output) == output,
{
}

/// A session is over after three events at most, whatever they are, and
/// stays over.
pub proof fn session_ends_within_three_events(
    command: Seq<Seq<char>>,
    console: bool,
    first: ExecEventModel,
    second: ExecEventModel,
    third: ExecEventModel,
    later: ExecEventModel,
)
    ensures
        ({
            let begun = ExecSessionModel::Locating { command, console };
            let ended = exec_step(exec_step(exec_step(begun, first).0, second).0, third);
            &&& ended.0 is Finished
            &&& ended.1 is Finish
            &&& exec_step(ended.0, later).0 is Finished
        }),
{
}

/// Reads the chunks of a command's output as text. Each chunk is decoded
/// by itself; one chunk that is not UTF-8 fails the whole output.
pub fn collect_output(chunks: &Vec<Vec<u8>>) -> (text: Result<String, Error>)
    ensures
        outcome(text) == captured(chunks.deep_view()),
{
    let ghost all = chunks.deep_view();
    let mut out = String::new();
    let mut i: usize = 0;
    while i < chunks.len()
        invariant
            i <= chunks.len(),
            all == chunks.deep_view(),
            all_text(all.take(i as int)),
            out@ == joined_text(all.take(i as int)),
        decreases chunks.len() - i,
    {
        proof {
            let seen = all.take(i as int);
            let decode = |chunk: Seq<u8>| decode_utf8(chunk);
            assert(all.take(i + 1) == seen.push(all[i as int]));
            assert(seen.push(all[i as int]).map_values(decode) == seen.map_values(decode)
                + seq![decode_utf8(all[i as int])]);
            lemma_flatten_concat(seen.map_values(decode), seq![decode_utf8(all[i as int])]);
            seq![decode_utf8(all[i as int])].lemma_flatten_one_element();
            assert(chunks[i as int]@ == all[i as int]);
        }
        match core::str::from_utf8(chunks[i].as_slice()) {
            Ok(piece) => {
                out.append(piece);
            },
            Err(_) => {
                return Err(Error::InvalidOutputEncoding);
            },
        }
        i += 1;
    }
    assert(all.take(all.len() as int) == all);
    Ok(out)
}

/// Begins running `command` inside the managed container. Whatever the
/// command writes is its result, silence included.
pub fn exec_command(command: Vec<String>) -> (begun: (ExecSession, ExecAction))
    ensures
        begun.0@ == (ExecSessionModel::Locating { command: command.deep_view(), console: false }),
        begun.1@ == ExecActionModel::ListContainers,
{
    (ExecSession::Locating { command, console: false }, ExecAction::ListContainers)
}

/// Begins sending `command` to the game's console: the console program
/// goes in front of it, and an empty answer will count as no response.
pub fn run_rcon_command(command: Vec<String>) -> (begun: (ExecSession, ExecAction))
    ensures
        begun.0@ == (ExecSessionModel::Locating {
            command: seq![console_program()] + command.deep_view(),
            console: true,
        }),
        begun.1@ == ExecActionModel::ListContainers,
{
    let mut command = command;
    let ghost given = command.deep_view();
    let mut full: Vec<String> = Vec::new();
    full.push("rcon-cli".to_owned());
    full.append(&mut command);
    assert(full.deep_view() == seq![console_program()] + given);
    (ExecSession::Locating { command: full, console: true }, ExecAction::ListContainers)
}

impl ExecSession {
    /// Takes what came of the action issued last and decides what to do
    /// next. A command is created only in a managed container that is
    /// running, and every failure of the runtime ends the session with its
    /// cause. An event that does not answer the action issued last ends the
    /// session too.
    pub fn step(self, event: ExecEvent) -> (next: (ExecSession, ExecAction))
        ensures
            (next.0@, next.1@) == exec_step(self@, event@),
    {
        match (self, event) {
            (ExecSession::Locating { command, console }, ExecEvent::Containers(Ok(listing))) => {
                match get_palworld_docker_container(listing) {
                    Err(error) => (ExecSession::Finished, ExecAction::Finish(Err(error))),
                    Ok(container) => {
                        if !container.is_running() {
                            (ExecSession::Finished, ExecAction::Finish(Err(Error::NotRunning)))
                        } else {
                            match container.id {
                                Some(id) => (
                                    ExecSession::Creating { console },
                                    ExecAction::CreateExec { container: id, command },
                                ),
                                None => (
                                    ExecSession::Finished,
                                    ExecAction::Finish(
                                        Err(
                                            Error::RuntimeExecFailed(
                                                "container has no id".to_owned(),
                                            ),
                                        ),
                                    ),
                                ),
                            }
                        }
                    },
                }
            },
            (ExecSession::Locating { .. }, ExecEvent::Containers(Err(cause))) => (
                ExecSession::Finished,
                ExecAction::Finish(Err(Error::RuntimeExecFailed(cause))),
            ),
            (ExecSession::Creating { console }, ExecEvent::Created(Ok(handle))) => (
                ExecSession::Attaching { console },
                ExecAction::StartExec { handle },
            ),
            (ExecSession::Creating { .. }, ExecEvent::Created(Err(cause))) => (
                ExecSession::Finished,
                ExecAction::Finish(Err(Error::RuntimeExecFailed(cause))),
            ),
            (ExecSession::Attaching { console }, ExecEvent::Output(Ok(chunks))) => {
                let result = match collect_output(&chunks) {
                    Ok(text) => if console && text.as_str().is_empty() {
                        Err(Error::NoResponse)
                    } else {
                        Ok(text)
                    },
                    Err(error) => Err(error),
                };
                (ExecSession::Finished, ExecAction::Finish(result))
            },
            (ExecSession::Attaching { .. }, ExecEvent::Output(Err(cause))) => (
                ExecSession::Finished,
                ExecAction::Finish(Err(Error::RuntimeExecFailed(cause))),
            ),
            _ => (ExecSession::Finished, ExecAction::Finish(Err(Error::UnexpectedEvent))),
        }
    }
}

} // verus!
