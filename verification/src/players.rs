//! Who is on the server, as told by the console's list of players.

use crate::error::{outcome, Error, ErrorModel};
use crate::text::{
    join, join_lines, lemma_lines_of_joined, lines_of, separable, split_lines, without_return,
};
use vstd::prelude::*;
use vstd::string::*;

verus! {

/// The console's list of players: its lines, header included, and the
/// number of players among them.
#[derive(Debug, Clone, PartialEq, Eq)]
pub struct PlayerRoster {
    /// The lines of the list, one below the other.
    pub players: String,
    /// The number of lines below the header.
    pub count: usize,
}

/// The mathematical value of a [`PlayerRoster`].
pub struct PlayerRosterModel {
    pub players: Seq<char>,
    pub count: nat,
}

impl View for PlayerRoster {
    type V = PlayerRosterModel;

    open spec fn view(&self) -> PlayerRosterModel {
        PlayerRosterModel { players: self.players@, count: self.count as nat }
    }
}

/// The words that ask the console for its list of players.
pub open spec fn players_query() -> Seq<Seq<char>> {
    seq!["ShowPlayers"@]
}

/// The roster that a console answer stands for. The first line is a
/// header, so one line means nobody is on. An answer that failed stays a
/// failure, and an answer without any line is no response.
pub open spec fn roster_of(response: Result<Seq<char>, ErrorModel>) -> Result<
    PlayerRosterModel,
    ErrorModel,
> {
    match response {
        Err(error) => Err(error),
        Ok(text) => {
            let lines = lines_of(text);
            if lines.len() == 0 {
                Err(ErrorModel::NoResponse)
            } else {
                Ok(
                    PlayerRosterModel {
                        players: join_lines(lines),
                        count: (lines.len() - 1) as nat,
                    },
                )
            }
        },
    }
}

/// A console answer of a header and so many records below it gives a
/// roster of so many players, with the lines as they came; the header alone
/// gives a roster of nobody. A line feed after the last line changes
/// nothing.
pub proof fn roster_counts_the_records(lines: Seq<Seq<char>>)
    requires
        separable(lines),
    ensures
        roster_of(Ok(join_lines(lines))) == Ok::<PlayerRosterModel, ErrorModel>(
            PlayerRosterModel { players: join_lines(lines), count: (lines.len() - 1) as nat },
        ),
        without_return(lines.last()) == lines.last() ==> roster_of(
            Ok(join_lines(lines) + seq!['\n']),
        ) == Ok::<PlayerRosterModel, ErrorModel>(
            PlayerRosterModel { players: join_lines(lines), count: (lines.len() - 1) as nat },
        ),
{
    lemma_lines_of_joined(lines);
}

/// An empty console answer is no response; it is never a roster, so no
/// count falls below nothing.
pub proof fn silence_is_no_roster()
    ensures
        roster_of(Ok(Seq::<char>::empty())) == Err::<PlayerRosterModel, ErrorModel>(
            ErrorModel::NoResponse,
        ),
{
}

/// The command that lists the players, to be sent to the console.
pub fn players_command() -> (command: Vec<String>)
    ensures
        command.deep_view() == players_query(),
{
    let mut command: Vec<String> = Vec::new();
    command.push("ShowPlayers".to_owned());
    command
}

/// Reads the console's answer to the list-players command: the number of
/// players is the number of lines after the header, and the lines are kept
/// as they came. A failed answer is handed on unchanged.
pub fn get_players(response: Result<String, Error>) -> (roster: Result<PlayerRoster, Error>)
    ensures
        outcome(roster) == roster_of(outcome(response)),
{
    match response {
        Err(error) => Err(error),
        Ok(text) => {
            let lines = split_lines(text.as_str());
            if lines.len() == 0 {
                Err(Error::NoResponse)
            } else {
                let count = lines.len() - 1;
                let players = join(&lines);
                Ok(PlayerRoster { players, count })
            }
        },
    }
}

} // verus!
