//! Remote-control core for a single containerised game server: container
//! identification, console output handling, player occupancy and the
//! start/stop/status decisions, all free of I/O.
//!
//! The caller talks to the container runtime, the host and the requester.
//! It hands what it learned to a session or a controller of this crate and
//! is told what to do next.

pub mod console;
pub mod container;
pub mod error;
pub mod host;
pub mod lifecycle;
pub mod players;
pub mod policy;
pub mod runs;
pub mod text;

pub use console::{
    collect_output, exec_command, run_rcon_command, ExecAction, ExecEvent, ExecSession,
};
pub use container::{
    get_palworld_docker_container, matches_identity, start_docker_container,
    stop_docker_container, ContainerIsRunning, ContainerSummary,
};
pub use error::Error;
pub use host::get_memory_stats;
pub use lifecycle::{Action, Controller, Event, LifecycleRequest, Phase, Verb};
pub use players::{get_players, players_command, PlayerRoster};
