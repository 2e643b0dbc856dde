//! What an observer may read of a chain's room, and the replies given to a player whose
//! action has been scheduled.

use crate::room::{
    clone_history, history_view, player_option_view, GameRoom, GameRoomView, MatchState, Player,
    PlayerView, RoundHistoryEntry, RoundResult, Team,
};
use crate::state::{room_option_view, text_option_view};
use vstd::prelude::*;

verus! {

/// A summary of where a match stands.
#[derive(Debug)]
pub struct GameStatus {
    pub match_state: MatchState,
    pub blue_player_name: String,
    pub red_player_name: Option<String>,
    pub blue_score: u32,
    pub red_score: u32,
    pub current_round: u32,
    pub winner: Option<Team>,
    pub rounds_played: u32,
}

/// The mathematical value of a [`GameStatus`].
pub struct GameStatusView {
    pub match_state: MatchState,
    pub blue_player_name: Seq<char>,
    pub red_player_name: Option<Seq<char>>,
    pub blue_score: nat,
    pub red_score: nat,
    pub current_round: nat,
    pub winner: Option<Team>,
    pub rounds_played: nat,
}

impl View for GameStatus {
    type V = GameStatusView;

    open spec fn view(&self) -> GameStatusView {
        GameStatusView {
            match_state: self.match_state,
            blue_player_name: self.blue_player_name@,
            red_player_name: text_option_view(self.red_player_name),
            blue_score: self.blue_score as nat,
            red_score: self.red_score as nat,
            current_round: self.current_round as nat,
            winner: self.winner,
            rounds_played: self.rounds_played as nat,
        }
    }
}

/// The name of the red player of `room`, if it has one.
pub open spec fn red_name_of(room: GameRoomView) -> Option<Seq<char>> {
    match room.red_player {
        Some(red) => Some(red.name),
        None => None,
    }
}

/// The players of `room`: blue, then red if there is one.
pub open spec fn players_of(room: GameRoomView) -> Seq<PlayerView> {
    match room.red_player {
        Some(red) => seq![room.blue_player, red],
        None => seq![room.blue_player],
    }
}

/// The name of the winner of `room`, if the match has one. A red winner without a red
/// player has the empty name.
pub open spec fn winner_name_of(room: GameRoomView) -> Option<Seq<char>> {
    match room.winner {
        Some(Team::Blue) => Some(room.blue_player.name),
        Some(Team::Red) => Some(
            match room.red_player {
                Some(red) => red.name,
                None => Seq::empty(),
            },
        ),
        None => None,
    }
}

/// The summary of `room`. The number of rounds played is counted in 32 bits.
pub open spec fn status_of(room: GameRoomView) -> GameStatusView {
    GameStatusView {
        match_state: room.match_state,
        blue_player_name: room.blue_player.name,
        red_player_name: red_name_of(room),
        blue_score: room.blue_score(),
        red_score: room.red_score(),
        current_round: room.current_round,
        winner: room.winner,
        rounds_played: (room.round_history.len() as u32) as nat,
    }
}

/// The values of a list of players, in order.
pub open spec fn players_view(players: Seq<Player>) -> Seq<PlayerView> {
    players.map_values(|player: Player| player@)
}

/// The value of a summary that may be absent.
pub open spec fn status_view_of(status: Option<GameStatus>) -> Option<GameStatusView> {
    match status {
        Some(s) => Some(s@),
        None => None,
    }
}

/// A chain's room as an observer may read it. Every answer is taken from the room as it
/// stood when the query was made; a chain without a room answers with nothing, zero or
/// `false`.
#[derive(Debug)]
pub struct QueryRoot {
    pub room: Option<GameRoom>,
}

impl View for QueryRoot {
    type V = Option<GameRoomView>;

    open spec fn view(&self) -> Option<GameRoomView> {
        room_option_view(self.room)
    }
}

impl QueryRoot {
    /// The whole room.
    pub fn room(&self) -> (room: Option<&GameRoom>)
        ensures
            room is Some <==> self.room is Some,
            room is Some ==> *room->0 == self.room->0,
    {
        self.room.as_ref()
    }

    /// The state of the match.
    pub fn match_state(&self) -> (state: Option<MatchState>)
        ensures
            state == match self@ {
                Some(room) => Some(room.match_state),
                None => None,
            },
    {
        match &self.room {
            Some(room) => Some(room.match_state),
            None => None,
        }
    }

    /// Both players: blue, then red if there is one.
    pub fn players(&self) -> (players: Vec<Player>)
        ensures
            players_view(players@) == match self@ {
                Some(room) => players_of(room),
                None => Seq::empty(),
            },
    {
        let mut players: Vec<Player> = Vec::new();
        if let Some(room) = &self.room {
            players.push(room.blue_player.clone());
            if let Some(red) = &room.red_player {
                players.push(red.clone());
            }
            assert(players_view(players@) =~= players_of(room@));
        } else {
            assert(players_view(players@) =~= Seq::empty());
        }
        players
    }

    /// The blue player.
    pub fn blue_player(&self) -> (player: Option<Player>)
        ensures
            player_option_view(player) == match self@ {
                Some(room) => Some(room.blue_player),
                None => None,
            },
    {
        match &self.room {
            Some(room) => Some(room.blue_player.clone()),
            None => None,
        }
    }

    /// The red player.
    pub fn red_player(&self) -> (player: Option<Player>)
        ensures
            player_option_view(player) == match self@ {
                Some(room) => room.red_player,
                None => None,
            },
    {
        match &self.room {
            Some(room) => match &room.red_player {
                Some(red) => Some(red.clone()),
                None => None,
            },
            None => None,
        }
    }

    /// The blue score.
    pub fn blue_score(&self) -> (score: u32)
        ensures
            score == match self@ {
                Some(room) => room.blue_score(),
                None => 0,
            },
    {
        match &self.room {
            Some(room) => room.get_blue_score(),
            None => 0,
        }
    }

    /// The red score.
    pub fn red_score(&self) -> (score: u32)
        ensures
            score == match self@ {
                Some(room) => room.red_score(),
                None => 0,
            },
    {
        match &self.room {
            Some(room) => room.get_red_score(),
            None => 0,
        }
    }

    /// The name of the blue player.
    pub fn blue_player_name(&self) -> (name: Option<String>)
        ensures
            text_option_view(name) == match self@ {
                Some(room) => Some(room.blue_player.name),
                None => None,
            },
    {
        match &self.room {
            Some(room) => Some(room.blue_player.name.clone()),
            None => None,
        }
    }

    /// The name of the red player.
    pub fn red_player_name(&self) -> (name: Option<String>)
        ensures
            text_option_view(name) == match self@ {
                Some(room) => red_name_of(room),
                None => None,
            },
    {
        match &self.room {
            Some(room) => match &room.red_player {
                Some(red) => Some(red.name.clone()),
                None => None,
            },
            None => None,
        }
    }

    /// The number of the round being played.
    pub fn current_round(&self) -> (round: u32)
        ensures
            round == match self@ {
                Some(room) => room.current_round,
                None => 0,
            },
    {
        match &self.room {
            Some(room) => room.current_round,
            None => 0,
        }
    }

    /// The rounds played so far.
    pub fn round_history(&self) -> (history: Vec<RoundHistoryEntry>)
        ensures
            history_view(history@) == match self@ {
                Some(room) => room.round_history,
                None => Seq::empty(),
            },
    {
        match &self.room {
            Some(room) => clone_history(&room.round_history),
            None => {
                let history: Vec<RoundHistoryEntry> = Vec::new();
                assert(history_view(history@) =~= Seq::empty());
                history
            },
        }
    }

    /// The winning side, once the match has one.
    pub fn winner(&self) -> (winner: Option<Team>)
        ensures
            winner == match self@ {
                Some(room) => room.winner,
                None => None,
            },
    {
        match &self.room {
            Some(room) => room.winner,
            None => None,
        }
    }

    /// The name of the winner, once the match has one.
    pub fn winner_name(&self) -> (name: Option<String>)
        ensures
            text_option_view(name) == match self@ {
                Some(room) => winner_name_of(room),
                None => None,
            },
    {
        match &self.room {
            Some(room) => match room.winner {
                Some(Team::Blue) => Some(room.blue_player.name.clone()),
                Some(Team::Red) => match &room.red_player {
                    Some(red) => Some(red.name.clone()),
                    None => Some(String::new()),
                },
                None => None,
            },
            None => None,
        }
    }

    /// Whether the match is finished.
    pub fn is_match_finished(&self) -> (finished: bool)
        ensures
            finished == (self@ is Some && self@->0.match_state == MatchState::Finished),
    {
        match &self.room {
            Some(room) => room.match_state == MatchState::Finished,
            None => false,
        }
    }

    /// Whether the room waits for an opponent.
    pub fn is_waiting_for_opponent(&self) -> (waiting: bool)
        ensures
            waiting == (self@ is Some && self@->0.match_state
                == MatchState::WaitingForOpponent),
    {
        match &self.room {
            Some(room) => room.match_state == MatchState::WaitingForOpponent,
            None => false,
        }
    }

    /// The summary of the match.
    pub fn game_status(&self) -> (status: Option<GameStatus>)
        ensures
            status_view_of(status) == match self@ {
                Some(room) => Some(status_of(room)),
                None => None,
            },
    {
        match &self.room {
            Some(room) => {
                let red_player_name = match &room.red_player {
                    Some(red) => Some(red.name.clone()),
                    None => None,
                };
                Some(
                    GameStatus {
                        match_state: room.match_state,
                        blue_player_name: room.blue_player.name.clone(),
                        red_player_name,
                        blue_score: room.get_blue_score(),
                        red_score: room.get_red_score(),
                        current_round: room.current_round,
                        winner: room.winner,
                        rounds_played: #[verifier::truncate]
                        (room.round_history.len() as u32),
                    },
                )
            },
            None => None,
        }
    }
}

/// The name under which a result is reported.
pub open spec fn result_name(result: RoundResult) -> Seq<char> {
    match result {
        RoundResult::BlueWin => "BlueWin"@,
        RoundResult::RedWin => "RedWin"@,
        RoundResult::Draw => "Draw"@,
    }
}

/// The reply to a player who has asked for a lobby.
pub fn create_lobby_reply(host_name: &str) -> (reply: String)
    ensures
        reply@ == "Lobby created by host '"@ + host_name@ + "' as Blue Team"@,
{
    let mut reply = "Lobby created by host '".to_owned();
    reply.append(host_name);
    reply.append("' as Blue Team");
    reply
}

/// The reply to a player who has asked to join a lobby.
pub fn join_lobby_reply(host_chain_id: &str, player_name: &str) -> (reply: String)
    ensures
        reply@ == "Join request sent to host '"@ + host_chain_id@ + "' by player '"@
            + player_name@ + "' as Red Team"@,
{
    let mut reply = "Join request sent to host '".to_owned();
    reply.append(host_chain_id);
    reply.append("' by player '");
    reply.append(player_name);
    reply.append("' as Red Team");
    reply
}

/// The reply to a player who has reported a round.
pub fn report_round_result_reply(result: RoundResult) -> (reply: String)
    ensures
        reply@ == "Round result reported: "@ + result_name(result),
{
    let mut reply = "Round result reported: ".to_owned();
    match result {
        RoundResult::BlueWin => reply.append("BlueWin"),
        RoundResult::RedWin => reply.append("RedWin"),
        RoundResult::Draw => reply.append("Draw"),
    }
    reply
}

/// The reply to a player who has asked to leave.
pub fn leave_lobby_reply() -> (reply: String)
    ensures
        reply@ == "Leave lobby request scheduled"@,
{
    "Leave lobby request scheduled".to_owned()
}

} // verus!
