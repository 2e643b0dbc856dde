//! The game room: players, rounds, and the rules by which a match is scored.

use crate::error::GameError;
use vstd::prelude::*;

verus! {

/// The score at which a match is won.
pub const WINNING_SCORE: u32 = 3;

/// The two sides of a match. The host plays blue, the opponent red.
#[derive(Debug, Clone, Copy, PartialEq, Eq, Structural)]
pub enum Team {
    Blue,
    Red,
}

impl Default for Team {
    fn default() -> (team: Self)
        ensures
            team == Team::Blue,
    {
        Team::Blue
    }
}

/// Where a match stands.
#[derive(Debug, Clone, Copy, PartialEq, Eq, Structural)]
pub enum MatchState {
    WaitingForOpponent,
    InProgress,
    Finished,
}

impl Default for MatchState {
    fn default() -> (state: Self)
        ensures
            state == MatchState::WaitingForOpponent,
    {
        MatchState::WaitingForOpponent
    }
}

/// How a round ended.
#[derive(Debug, Clone, Copy, PartialEq, Eq, Structural)]
pub enum RoundResult {
    BlueWin,
    RedWin,
    Draw,
}

/// What a round adds to the blue score.
pub open spec fn blue_gain(result: RoundResult) -> nat {
    match result {
        RoundResult::BlueWin | RoundResult::Draw => 1,
        RoundResult::RedWin => 0,
    }
}

/// What a round adds to the red score.
pub open spec fn red_gain(result: RoundResult) -> nat {
    match result {
        RoundResult::RedWin | RoundResult::Draw => 1,
        RoundResult::BlueWin => 0,
    }
}

/// What a chain is to a room.
#[derive(Debug, Clone, Copy, PartialEq, Eq, Structural)]
pub enum Role {
    /// The chain that opened the room.
    Host,
    /// The chain of the opponent.
    Guest,
    /// Neither of the two.
    Stranger,
}

/// One of the two players of a room.
#[derive(Debug)]
pub struct Player {
    pub chain_id: String,
    pub name: String,
    pub team: Team,
    pub score: u32,
}

/// The mathematical value of a [`Player`].
pub struct PlayerView {
    pub chain_id: Seq<char>,
    pub name: Seq<char>,
    pub team: Team,
    pub score: nat,
}

impl View for Player {
    type V = PlayerView;

    open spec fn view(&self) -> PlayerView {
        PlayerView {
            chain_id: self.chain_id@,
            name: self.name@,
            team: self.team,
            score: self.score as nat,
        }
    }
}

impl Clone for Player {
    fn clone(&self) -> (copy: Self)
        ensures
            copy@ == self@,
    {
        Player {
            chain_id: self.chain_id.clone(),
            name: self.name.clone(),
            team: self.team,
            score: self.score,
        }
    }
}

/// The record of one round, as it stood when the round was reported.
#[derive(Debug)]
pub struct RoundHistoryEntry {
    pub round_number: u32,
    pub result: RoundResult,
    pub blue_score_after: u32,
    pub red_score_after: u32,
    pub timestamp: String,
}

/// The mathematical value of a [`RoundHistoryEntry`].
pub struct RoundHistoryEntryView {
    pub round_number: nat,
    pub result: RoundResult,
    pub blue_score_after: nat,
    pub red_score_after: nat,
    pub timestamp: Seq<char>,
}

impl View for RoundHistoryEntry {
    type V = RoundHistoryEntryView;

    open spec fn view(&self) -> RoundHistoryEntryView {
        RoundHistoryEntryView {
            round_number: self.round_number as nat,
            result: self.result,
            blue_score_after: self.blue_score_after as nat,
            red_score_after: self.red_score_after as nat,
            timestamp: self.timestamp@,
        }
    }
}

impl Clone for RoundHistoryEntry {
    fn clone(&self) -> (copy: Self)
        ensures
            copy@ == self@,
    {
        RoundHistoryEntry {
            round_number: self.round_number,
            result: self.result,
            blue_score_after: self.blue_score_after,
            red_score_after: self.red_score_after,
            timestamp: self.timestamp.clone(),
        }
    }
}

/// The values of a list of history entries, in order.
pub open spec fn history_view(entries: Seq<RoundHistoryEntry>) -> Seq<RoundHistoryEntryView> {
    entries.map_values(|entry: RoundHistoryEntry| entry@)
}

/// Copies a round history, entry by entry.
pub(crate) fn clone_history(entries: &Vec<RoundHistoryEntry>) -> (copy: Vec<RoundHistoryEntry>)
    ensures
        history_view(copy@) == history_view(entries@),
{
    let mut copy: Vec<RoundHistoryEntry> = Vec::new();
    let mut i: usize = 0;
    while i < entries.len()
        invariant
            i <= entries.len(),
            copy.len() == i,
            forall|k: int| 0 <= k < i ==> (#[trigger] copy[k])@ == entries[k]@,
        decreases entries.len() - i,
    {
        copy.push(entries[i].clone());
        i += 1;
    }
    assert(history_view(copy@) =~= history_view(entries@));
    copy
}

/// A match between two players, as one chain holds it.
#[derive(Debug)]
pub struct GameRoom {
    pub room_id: String,
    pub host_chain_id: String,
    pub blue_player: Player,
    pub red_player: Option<Player>,
    pub match_state: MatchState,
    pub current_round: u32,
    pub round_history: Vec<RoundHistoryEntry>,
    pub winner: Option<Team>,
    pub created_at: String,
}

/// The mathematical value of a [`GameRoom`].
pub struct GameRoomView {
    pub room_id: Seq<char>,
    pub host_chain_id: Seq<char>,
    pub blue_player: PlayerView,
    pub red_player: Option<PlayerView>,
    pub match_state: MatchState,
    pub current_round: nat,
    pub round_history: Seq<RoundHistoryEntryView>,
    pub winner: Option<Team>,
    pub created_at: Seq<char>,
}

/// The value of a player that may be absent.
pub open spec fn player_option_view(player: Option<Player>) -> Option<PlayerView> {
    match player {
        Some(p) => Some(p@),
        None => None,
    }
}

impl View for GameRoom {
    type V = GameRoomView;

    open spec fn view(&self) -> GameRoomView {
        GameRoomView {
            room_id: self.room_id@,
            host_chain_id: self.host_chain_id@,
            blue_player: self.blue_player@,
            red_player: player_option_view(self.red_player),
            match_state: self.match_state,
            current_round: self.current_round as nat,
            round_history: history_view(self.round_history@),
            winner: self.winner,
            created_at: self.created_at@,
        }
    }
}

impl GameRoomView {
    /// The room that a host opens: the host plays blue, nobody plays red, no round has
    /// been played. The room is named after the moment of its creation.
    pub open spec fn created(
        host_chain_id: Seq<char>,
        host_name: Seq<char>,
        timestamp: Seq<char>,
    ) -> GameRoomView {
        GameRoomView {
            room_id: timestamp,
            host_chain_id,
            blue_player: PlayerView {
                chain_id: host_chain_id,
                name: host_name,
                team: Team::Blue,
                score: 0,
            },
            red_player: None,
            match_state: MatchState::WaitingForOpponent,
            current_round: 0,
            round_history: Seq::empty(),
            winner: None,
            created_at: timestamp,
        }
    }

    /// The room once an opponent has joined: the match starts at round 1.
    pub open spec fn joined_by(self, chain_id: Seq<char>, name: Seq<char>) -> GameRoomView {
        GameRoomView {
            red_player: Some(PlayerView { chain_id, name, team: Team::Red, score: 0 }),
            match_state: MatchState::InProgress,
            current_round: 1,
            ..self
        }
    }

    /// The blue score.
    pub open spec fn blue_score(self) -> nat {
        self.blue_player.score
    }

    /// The red score; 0 while nobody plays red.
    pub open spec fn red_score(self) -> nat {
        match self.red_player {
            Some(red) => red.score,
            None => 0,
        }
    }

    /// The room with `blue` and `red` as its scores. Without a red player there is no red
    /// score to set.
    pub open spec fn with_scores(self, blue: nat, red: nat) -> GameRoomView {
        GameRoomView {
            blue_player: PlayerView { score: blue, ..self.blue_player },
            red_player: match self.red_player {
                Some(player) => Some(PlayerView { score: red, ..player }),
                None => None,
            },
            ..self
        }
    }

    /// The room with the scores that a round with this result leaves.
    pub open spec fn scored(self, result: RoundResult) -> GameRoomView {
        self.with_scores(self.blue_score() + blue_gain(result), self.red_score() + red_gain(result))
    }

    /// The record that a round with this result leaves in the history.
    pub open spec fn round_record(
        self,
        result: RoundResult,
        timestamp: Seq<char>,
    ) -> RoundHistoryEntryView {
        RoundHistoryEntryView {
            round_number: self.current_round,
            result,
            blue_score_after: self.scored(result).blue_score(),
            red_score_after: self.scored(result).red_score(),
            timestamp,
        }
    }

    /// The side that a round with this result makes the winner of the match, if any. Blue
    /// is looked at first.
    pub open spec fn round_winner(self, result: RoundResult) -> Option<Team> {
        if self.scored(result).blue_score() >= WINNING_SCORE {
            Some(Team::Blue)
        } else if self.scored(result).red_score() >= WINNING_SCORE {
            Some(Team::Red)
        } else {
            None
        }
    }

    /// The room after a round with this result: the scores are raised, the round is
    /// recorded, and either the match is over or the next round begins.
    pub open spec fn after_round(self, result: RoundResult, timestamp: Seq<char>) -> GameRoomView {
        let scored = self.scored(result);
        let history = self.round_history.push(self.round_record(result, timestamp));
        match self.round_winner(result) {
            Some(team) => GameRoomView {
                round_history: history,
                winner: Some(team),
                match_state: MatchState::Finished,
                ..scored
            },
            None => GameRoomView {
                round_history: history,
                current_round: self.current_round + 1,
                ..scored
            },
        }
    }

    /// The room after the other party has reported a round: the scores and the round
    /// number are the reported ones, whatever they were here, and the round is recorded as
    /// reported.
    pub open spec fn after_reported_round(
        self,
        round_number: nat,
        result: RoundResult,
        blue_score: nat,
        red_score: nat,
        timestamp: Seq<char>,
    ) -> GameRoomView {
        GameRoomView {
            current_round: round_number + 1,
            round_history: self.round_history.push(
                RoundHistoryEntryView {
                    round_number,
                    result,
                    blue_score_after: blue_score,
                    red_score_after: red_score,
                    timestamp,
                },
            ),
            ..self.with_scores(blue_score, red_score)
        }
    }

    /// The room after the other party has reported the end of the match: the scores and
    /// the winner are the reported ones.
    pub open spec fn after_reported_end(
        self,
        winner: Option<Team>,
        blue_score: nat,
        red_score: nat,
    ) -> GameRoomView {
        GameRoomView {
            winner,
            match_state: MatchState::Finished,
            ..self.with_scores(blue_score, red_score)
        }
    }

    /// The room after the red player has left: it waits for an opponent as it did when it
    /// was opened. The seat is free, no round is being played, nothing is left of the
    /// match: no record, no point, no winner. The room keeps its name, its host and the
    /// time of its creation.
    pub open spec fn vacated(self) -> GameRoomView {
        GameRoomView {
            blue_player: PlayerView { score: 0, ..self.blue_player },
            red_player: None,
            match_state: MatchState::WaitingForOpponent,
            current_round: 0,
            round_history: Seq::empty(),
            winner: None,
            ..self
        }
    }

    /// Whether the rounds of the history are numbered 1, 2, 3, ... without a gap.
    pub open spec fn rounds_numbered(self) -> bool {
        forall|i: int|
            0 <= i < self.round_history.len() ==> (#[trigger] self.round_history[i]).round_number
                == i + 1
    }

    /// Whether the players and the winner fit the state of the match: there is a red player
    /// exactly when the room no longer waits for one, there is a winner exactly when the
    /// match is finished, and a match in progress is at round 1 or later.
    pub open spec fn phase_consistent(self) -> bool {
        &&& self.red_player is Some <==> self.match_state != MatchState::WaitingForOpponent
        &&& self.winner is Some <==> self.match_state == MatchState::Finished
        &&& self.match_state == MatchState::InProgress ==> self.current_round >= 1
    }

    /// Whether the room is one that a match can be in:
    /// - it has a red player exactly when it no longer waits for one;
    /// - it has a winner exactly when the match is finished;
    /// - the rounds of its history are numbered without a gap, and the round being played
    ///   is the one after them; the last round of a finished match is the last of the
    ///   history, or the one after it where the other party reported the end, which
    ///   comes without a record;
    /// - while the match is in progress both scores are below the winning score; once it
    ///   is finished the winner stands exactly at the winning score, and red has won only
    ///   where blue has not reached it;
    /// - every round of the history has raised a score, so there are no more rounds than
    ///   points.
    pub open spec fn well_formed(self) -> bool {
        &&& self.phase_consistent()
        &&& self.rounds_numbered()
        &&& self.round_history.len() <= self.blue_score() + self.red_score()
        &&& match self.match_state {
            MatchState::WaitingForOpponent => {
                &&& self.current_round == 0
                &&& self.round_history.len() == 0
                &&& self.blue_score() == 0
            },
            MatchState::InProgress => {
                &&& self.current_round == self.round_history.len() + 1
                &&& self.blue_score() < WINNING_SCORE
                &&& self.red_score() < WINNING_SCORE
            },
            MatchState::Finished => {
                &&& self.current_round == self.round_history.len() || self.current_round
                    == self.round_history.len() + 1
                &&& self.blue_score() <= WINNING_SCORE
                &&& self.red_score() <= WINNING_SCORE
                &&& self.winner == Some(Team::Blue) ==> self.blue_score() == WINNING_SCORE
                &&& self.winner == Some(Team::Red) ==> self.red_score() == WINNING_SCORE
                    && self.blue_score() < WINNING_SCORE
            },
        }
    }

    /// The room after the rounds `rounds` have been reported one after the other, each
    /// with its result and the time of its report. A report counts only while the match is
    /// in progress.
    pub open spec fn after_rounds(self, rounds: Seq<(RoundResult, Seq<char>)>) -> GameRoomView
        decreases rounds.len(),
    {
        if rounds.len() == 0 {
            self
        } else {
            let earlier = self.after_rounds(rounds.drop_last());
            if earlier.match_state == MatchState::InProgress {
                earlier.after_round(rounds.last().0, rounds.last().1)
            } else {
                earlier
            }
        }
    }

    /// What the chain `chain` is to this room. A chain that opened the room is its host,
    /// also where it plays red as well.
    pub open spec fn role_of(self, chain: Seq<char>) -> Role {
        if self.host_chain_id == chain {
            Role::Host
        } else if self.red_player is Some && self.red_player->0.chain_id == chain {
            Role::Guest
        } else {
            Role::Stranger
        }
    }

    /// Whether every number of the room can be held in 32 bits.
    pub open spec fn in_range(self) -> bool {
        &&& self.blue_score() <= u32::MAX
        &&& self.red_score() <= u32::MAX
        &&& self.current_round <= u32::MAX
    }
}

impl Clone for GameRoom {
    fn clone(&self) -> (copy: Self)
        ensures
            copy@ == self@,
    {
        let red_player = match &self.red_player {
            Some(player) => Some(player.clone()),
            None => None,
        };
        GameRoom {
            room_id: self.room_id.clone(),
            host_chain_id: self.host_chain_id.clone(),
            blue_player: self.blue_player.clone(),
            red_player,
            match_state: self.match_state,
            current_round: self.current_round,
            round_history: clone_history(&self.round_history),
            winner: self.winner,
            created_at: self.created_at.clone(),
        }
    }
}

impl GameRoom {
    /// Opens a room for `host_name` on the chain `host_chain_id`.
    pub fn new(host_chain_id: String, host_name: String, timestamp: String) -> (room: Self)
        ensures
            room@ == GameRoomView::created(host_chain_id@, host_name@, timestamp@),
    {
        let blue_player = Player {
            chain_id: host_chain_id.clone(),
            name: host_name,
            team: Team::Blue,
            score: 0,
        };
        let room = GameRoom {
            room_id: timestamp.clone(),
            host_chain_id,
            blue_player,
            red_player: None,
            match_state: MatchState::WaitingForOpponent,
            current_round: 0,
            round_history: Vec::new(),
            winner: None,
            created_at: timestamp,
        };
        assert(room@.round_history =~= Seq::empty());
        room
    }

    /// Seats the opponent and starts the match. A room that already has its opponent
    /// refuses and stays as it is.
    pub fn add_red_player(&mut self, chain_id: String, name: String) -> (outcome: Result<
        (),
        GameError,
    >)
        ensures
            old(self)@.red_player is Some ==> outcome == Err::<(), GameError>(GameError::RoomFull)
                && final(self)@ == old(self)@,
            old(self)@.red_player is None ==> outcome is Ok && final(self)@ == old(self)@.joined_by(
                chain_id@,
                name@,
            ),
    {
        if self.red_player.is_some() {
            return Err(GameError::RoomFull);
        }
        self.red_player = Some(Player { chain_id, name, team: Team::Red, score: 0 });
        self.match_state = MatchState::InProgress;
        self.current_round = 1;
        Ok(())
    }

    /// Whether a round with this result can be scored here: whether the numbers it would
    /// leave can be held in 32 bits.
    pub fn can_apply_round(&self, result: RoundResult) -> (fits: bool)
        ensures
            forall|timestamp: Seq<char>|
                fits == (#[trigger] self@.after_round(result, timestamp)).in_range(),
            self@.well_formed() && self@.match_state == MatchState::InProgress ==> fits,
    {
        let blue_gain: u64 = match result {
            RoundResult::BlueWin | RoundResult::Draw => 1,
            RoundResult::RedWin => 0,
        };
        let red_gain: u64 = match result {
            RoundResult::RedWin | RoundResult::Draw => 1,
            RoundResult::BlueWin => 0,
        };
        let limit: u64 = 0xffff_ffff;
        let blue: u64 = self.get_blue_score() as u64 + blue_gain;
        let red: u64 = self.get_red_score() as u64 + red_gain;
        let ends = blue >= 3 || red >= 3;
        blue <= limit && red <= limit && (ends || self.current_round < u32::MAX)
    }

    /// Scores a round and records it. Returns whether the round ended the match.
    pub fn apply_round_result(&mut self, result: RoundResult, timestamp: String) -> (ended: bool)
        requires
            old(self)@.after_round(result, timestamp@).in_range(),
        ensures
            final(self)@ == old(self)@.after_round(result, timestamp@),
            ended == (old(self)@.round_winner(result) is Some),
            final(self)@.blue_score() == old(self)@.blue_score() + blue_gain(result),
            old(self)@.red_player is Some ==> final(self)@.red_score() == old(self)@.red_score()
                + red_gain(result),
            final(self)@.round_history.len() == old(self)@.round_history.len() + 1,
            final(self)@.round_history.drop_last() == old(self)@.round_history,
            final(self)@.round_history.last().round_number == old(self)@.current_round,
            ended == (final(self)@.blue_score() >= WINNING_SCORE || final(self)@.red_score()
                >= WINNING_SCORE),
            ended ==> final(self)@.match_state == MatchState::Finished && final(self)@.winner
                is Some && final(self)@.current_round == old(self)@.current_round,
            !ended ==> final(self)@.match_state == old(self)@.match_state && final(self)@.winner
                == old(self)@.winner && final(self)@.current_round == old(self)@.current_round
                + 1,
    {
        match result {
            RoundResult::BlueWin => {
                self.blue_player.score += 1;
            },
            RoundResult::RedWin => {
                if let Some(red) = &mut self.red_player {
                    red.score += 1;
                }
            },
            RoundResult::Draw => {
                self.blue_player.score += 1;
                if let Some(red) = &mut self.red_player {
                    red.score += 1;
                }
            },
        }
        let blue_score = self.get_blue_score();
        let red_score = self.get_red_score();
        assert(self@ == old(self)@.scored(result));
        self.round_history.push(
            RoundHistoryEntry {
                round_number: self.current_round,
                result,
                blue_score_after: blue_score,
                red_score_after: red_score,
                timestamp,
            },
        );
        assert(history_view(self.round_history@) =~= old(self)@.round_history.push(
            old(self)@.round_record(result, timestamp@),
        ));
        assert(old(self)@.round_history.push(
            old(self)@.round_record(result, timestamp@),
        ).drop_last() =~= old(self)@.round_history);
        if blue_score >= WINNING_SCORE {
            self.winner = Some(Team::Blue);
            self.match_state = MatchState::Finished;
            return true;
        }
        if red_score >= WINNING_SCORE {
            self.winner = Some(Team::Red);
            self.match_state = MatchState::Finished;
            return true;
        }
        self.current_round += 1;
        false
    }

    /// Sets both scores. Without a red player there is no red score to set.
    pub fn set_scores(&mut self, blue_score: u32, red_score: u32)
        ensures
            final(self)@ == old(self)@.with_scores(blue_score as nat, red_score as nat),
    {
        self.blue_player.score = blue_score;
        if let Some(red) = &mut self.red_player {
            red.score = red_score;
        }
    }

    /// Takes over a round that the other party has reported. What this copy held of the
    /// scores and of the round number is replaced, not merged.
    pub fn record_reported_round(
        &mut self,
        round_number: u32,
        result: RoundResult,
        blue_score: u32,
        red_score: u32,
        timestamp: String,
    )
        requires
            round_number < u32::MAX,
        ensures
            final(self)@ == old(self)@.after_reported_round(
                round_number as nat,
                result,
                blue_score as nat,
                red_score as nat,
                timestamp@,
            ),
    {
        self.set_scores(blue_score, red_score);
        self.current_round = round_number + 1;
        self.round_history.push(
            RoundHistoryEntry {
                round_number,
                result,
                blue_score_after: blue_score,
                red_score_after: red_score,
                timestamp,
            },
        );
        assert(history_view(self.round_history@) =~= old(self)@.after_reported_round(
            round_number as nat,
            result,
            blue_score as nat,
            red_score as nat,
            timestamp@,
        ).round_history);
    }

    /// Takes over the end of the match as the other party has reported it.
    pub fn record_reported_end(&mut self, winner: Option<Team>, blue_score: u32, red_score: u32)
        ensures
            final(self)@ == old(self)@.after_reported_end(
                winner,
                blue_score as nat,
                red_score as nat,
            ),
    {
        self.set_scores(blue_score, red_score);
        self.winner = winner;
        self.match_state = MatchState::Finished;
    }

    /// Frees the red seat: the room waits for an opponent again, as it did when it was
    /// opened, with no record, no point and no winner left of the match.
    pub fn remove_red_player(&mut self)
        ensures
            final(self)@ == old(self)@.vacated(),
            final(self)@.well_formed(),
            final(self)@.red_player is None,
            final(self)@.match_state == MatchState::WaitingForOpponent,
            final(self)@.winner is None,
            final(self)@.current_round == 0,
            final(self)@.round_history.len() == 0,
            final(self)@.blue_score() == 0,
    {
        self.blue_player.score = 0;
        self.red_player = None;
        self.match_state = MatchState::WaitingForOpponent;
        self.current_round = 0;
        self.round_history = Vec::new();
        self.winner = None;
        assert(history_view(self.round_history@) =~= Seq::empty());
    }

    /// What the chain `chain` is to this room.
    pub fn role_of(&self, chain: &String) -> (role: Role)
        ensures
            role == self@.role_of(chain@),
    {
        if self.host_chain_id == *chain {
            return Role::Host;
        }
        match &self.red_player {
            Some(red) => {
                if red.chain_id == *chain {
                    Role::Guest
                } else {
                    Role::Stranger
                }
            },
            None => Role::Stranger,
        }
    }

    /// The blue score.
    pub fn get_blue_score(&self) -> (score: u32)
        ensures
            score == self@.blue_score(),
    {
        self.blue_player.score
    }

    /// The red score; 0 while nobody plays red.
    pub fn get_red_score(&self) -> (score: u32)
        ensures
            score == self@.red_score(),
    {
        match &self.red_player {
            Some(red) => red.score,
            None => 0,
        }
    }
}

} // verus!
