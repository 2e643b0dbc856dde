//! What holds of the rules and of the state machine, whatever the inputs.

use crate::address::{is_canonical_text, is_chain_text};
use crate::contract::{
    create_lobby_step, initial_sync_step, message_step, operation_step, report_round_step,
    round_result_step, StepView,
};
use crate::error::GameError;
use crate::protocol::{stream_name_of, EffectView, MessageView, OperationView};
use crate::room::{
    GameRoomView, MatchState, PlayerView, RoundHistoryEntryView, RoundResult, Team, WINNING_SCORE,
};
use crate::state::StateView;
use vstd::prelude::*;

verus! {

/// An accepted report of a round raises the blue score by one where blue won or the round
/// was drawn, and leaves it otherwise; the same holds of red, for its wins, in a room that
/// has a red player. Nothing else of the two players changes.
pub proof fn lemma_report_scores(
    state: StateView,
    chain: Seq<char>,
    result: RoundResult,
    timestamp: Seq<char>,
)
    requires
        report_round_step(state, chain, result, timestamp) is Ok,
    ensures
        ({
            let before = state.room->0;
            let after = report_round_step(state, chain, result, timestamp)->Ok_0.state.room->0;
            &&& state.room is Some
            &&& after == before.after_round(result, timestamp)
            &&& result != RoundResult::RedWin ==> after.blue_score() == before.blue_score() + 1
            &&& result == RoundResult::RedWin ==> after.blue_score() == before.blue_score()
            &&& before.red_player is Some && result != RoundResult::BlueWin ==> after.red_score()
                == before.red_score() + 1
            &&& result == RoundResult::BlueWin ==> after.red_score() == before.red_score()
            &&& after.blue_player == (PlayerView {
                score: after.blue_score(),
                ..before.blue_player
            })
            &&& before.red_player is Some ==> after.red_player == Some(
                PlayerView { score: after.red_score(), ..before.red_player->0 },
            )
        }),
{
}

/// Over any sequence of reported rounds no score ever falls.
pub proof fn lemma_scores_never_fall(room: GameRoomView, rounds: Seq<(RoundResult, Seq<char>)>)
    ensures
        room.after_rounds(rounds).blue_score() >= room.blue_score(),
        room.after_rounds(rounds).red_score() >= room.red_score(),
    decreases rounds.len(),
{
    if rounds.len() > 0 {
        lemma_scores_never_fall(room, rounds.drop_last());
    }
}

/// A freshly created room is well formed.
pub proof fn lemma_created_room_is_well_formed(
    host_chain_id: Seq<char>,
    host_name: Seq<char>,
    timestamp: Seq<char>,
)
    ensures
        GameRoomView::created(host_chain_id, host_name, timestamp).well_formed(),
{
}

/// Seating an opponent in a well-formed room that waits for one leaves a well-formed room,
/// in which the match is in progress.
pub proof fn lemma_join_keeps_well_formed(
    room: GameRoomView,
    chain_id: Seq<char>,
    name: Seq<char>,
)
    requires
        room.well_formed(),
        room.match_state == MatchState::WaitingForOpponent,
    ensures
        room.joined_by(chain_id, name).well_formed(),
        room.joined_by(chain_id, name).match_state == MatchState::InProgress,
{
}

/// A round played in a well-formed room whose match is in progress leaves a well-formed
/// room.
pub proof fn lemma_round_keeps_well_formed(
    room: GameRoomView,
    result: RoundResult,
    timestamp: Seq<char>,
)
    requires
        room.well_formed(),
        room.match_state == MatchState::InProgress,
    ensures
        room.after_round(result, timestamp).well_formed(),
{
    let after = room.after_round(result, timestamp);
    assert forall|i: int| 0 <= i < after.round_history.len() implies (
    #[trigger] after.round_history[i]).round_number == i + 1 by {
        if i < room.round_history.len() {
            assert(after.round_history[i] == room.round_history[i]);
        }
    }
}

/// In a well-formed room whose match is in progress every round can be scored: the
/// numbers it leaves are small, far from what 32 bits hold.
pub proof fn lemma_well_formed_round_fits(
    room: GameRoomView,
    result: RoundResult,
    timestamp: Seq<char>,
)
    requires
        room.well_formed(),
        room.match_state == MatchState::InProgress,
    ensures
        room.current_round <= 5,
        room.after_round(result, timestamp).in_range(),
        room.after_round(result, timestamp).current_round <= 6,
{
}

/// A round adds one record to the history and leaves the earlier records as they were.
/// The new record carries the number of the round that was being played, the result, and
/// the scores as the round left them.
pub proof fn lemma_round_appends_one_record(
    room: GameRoomView,
    result: RoundResult,
    timestamp: Seq<char>,
)
    ensures
        ({
            let after = room.after_round(result, timestamp);
            &&& after.round_history.len() == room.round_history.len() + 1
            &&& after.round_history.drop_last() == room.round_history
            &&& after.round_history.last() == (RoundHistoryEntryView {
                round_number: room.current_round,
                result,
                blue_score_after: after.blue_score(),
                red_score_after: after.red_score(),
                timestamp,
            })
            &&& room.round_winner(result) is None ==> after.current_round == room.current_round
                + 1
            &&& room.round_winner(result) is Some ==> after.current_round == room.current_round
        }),
{
    let after = room.after_round(result, timestamp);
    assert(after.round_history.drop_last() =~= room.round_history);
}

/// The players and the winner fit the state of the match in a fresh room, and keep
/// fitting it when an opponent is seated in a waiting room, when a round is played in a
/// match in progress, when the other party's report of a round is taken over, when its
/// report of an end with a winner is taken over, and whenever the red player leaves.
pub proof fn lemma_steps_keep_phase_consistent(
    room: GameRoomView,
    chain_id: Seq<char>,
    name: Seq<char>,
    result: RoundResult,
    round_number: nat,
    blue_score: nat,
    red_score: nat,
    winner: Team,
    timestamp: Seq<char>,
)
    ensures
        GameRoomView::created(chain_id, name, timestamp).phase_consistent(),
        room.vacated().phase_consistent(),
        room.vacated().winner is None,
        room.vacated().red_player is None,
        room.vacated().match_state == MatchState::WaitingForOpponent,
        room.phase_consistent() && room.match_state == MatchState::WaitingForOpponent
            ==> room.joined_by(chain_id, name).phase_consistent(),
        room.phase_consistent() && room.match_state == MatchState::InProgress ==> room.after_round(
            result,
            timestamp,
        ).phase_consistent(),
        room.phase_consistent() ==> room.after_reported_round(
            round_number,
            result,
            blue_score,
            red_score,
            timestamp,
        ).phase_consistent(),
        room.phase_consistent() && room.red_player is Some ==> room.after_reported_end(
            Some(winner),
            blue_score,
            red_score,
        ).phase_consistent(),
{
}

/// Rounds reported in a well-formed room leave a well-formed room.
pub proof fn lemma_rounds_keep_well_formed(
    room: GameRoomView,
    rounds: Seq<(RoundResult, Seq<char>)>,
)
    requires
        room.well_formed(),
    ensures
        room.after_rounds(rounds).well_formed(),
    decreases rounds.len(),
{
    if rounds.len() > 0 {
        lemma_rounds_keep_well_formed(room, rounds.drop_last());
        let earlier = room.after_rounds(rounds.drop_last());
        if earlier.match_state == MatchState::InProgress {
            lemma_round_keeps_well_formed(earlier, rounds.last().0, rounds.last().1);
        }
    }
}

/// In every room that is reached by creating it, seating an opponent and reporting rounds,
/// the rounds of the history are numbered 1, 2, 3, ... without a gap.
pub proof fn lemma_rounds_are_numbered(
    host_chain_id: Seq<char>,
    host_name: Seq<char>,
    created_at: Seq<char>,
    red_chain_id: Seq<char>,
    red_name: Seq<char>,
    rounds: Seq<(RoundResult, Seq<char>)>,
)
    ensures
        ({
            let room = GameRoomView::created(host_chain_id, host_name, created_at).joined_by(
                red_chain_id,
                red_name,
            ).after_rounds(rounds);
            &&& room.well_formed()
            &&& forall|i: int|
                0 <= i < room.round_history.len() ==> (#[trigger] room.round_history[i]).round_number
                    == i + 1
        }),
{
    let created = GameRoomView::created(host_chain_id, host_name, created_at);
    lemma_created_room_is_well_formed(host_chain_id, host_name, created_at);
    lemma_join_keeps_well_formed(created, red_chain_id, red_name);
    lemma_rounds_keep_well_formed(created.joined_by(red_chain_id, red_name), rounds);
}

/// In a well-formed room a score stands at the winning score exactly when the match is
/// finished. The match then has a winner, who stands at the winning score, and the winner
/// is the side with the higher score unless both stand at the winning score, in which case
/// it is blue.
pub proof fn lemma_finished_at_winning_score(room: GameRoomView)
    requires
        room.well_formed(),
    ensures
        (room.blue_score() >= WINNING_SCORE || room.red_score() >= WINNING_SCORE) <==> room.match_state
            == MatchState::Finished,
        room.match_state == MatchState::Finished ==> room.winner is Some,
        room.winner == Some(Team::Blue) ==> room.blue_score() == WINNING_SCORE && room.blue_score()
            >= room.red_score(),
        room.winner == Some(Team::Red) ==> room.red_score() == WINNING_SCORE && room.red_score()
            > room.blue_score(),
        room.winner == Some(Team::Blue) && room.red_score() != WINNING_SCORE ==> room.blue_score()
            > room.red_score(),
{
    if room.match_state == MatchState::Finished {
        assert(room.winner == Some(Team::Blue) || room.winner == Some(Team::Red));
    }
}

/// A round ends the match exactly when it brings a score to the winning score, and a round
/// that is not drawn never brings both there.
pub proof fn lemma_round_ends_match_at_winning_score(
    room: GameRoomView,
    result: RoundResult,
    timestamp: Seq<char>,
)
    requires
        room.well_formed(),
        room.match_state == MatchState::InProgress,
    ensures
        ({
            let after = room.after_round(result, timestamp);
            &&& (after.match_state == MatchState::Finished) == (after.blue_score() == WINNING_SCORE
                || after.red_score() == WINNING_SCORE)
            &&& after.match_state != MatchState::Finished ==> after.match_state
                == MatchState::InProgress && after.winner is None
            &&& result != RoundResult::Draw ==> !(after.blue_score() == WINNING_SCORE
                && after.red_score() == WINNING_SCORE)
            &&& result != RoundResult::Draw && after.match_state == MatchState::Finished ==> (
            after.winner == Some(Team::Blue) <==> after.blue_score() > after.red_score()) && (
            after.winner == Some(Team::Red) <==> after.red_score() > after.blue_score())
        }),
{
    lemma_round_keeps_well_formed(room, result, timestamp);
}

/// Subscribing twice in a row to the same peer asks for at most one subscription: the
/// first request asks for one exactly where the peer is a chain address that is not yet
/// recorded, and the second asks for none and changes nothing.
pub proof fn lemma_subscribe_is_idempotent(state: StateView, peer: Seq<char>, stream: Seq<char>)
    ensures
        state.subscribe_effect(peer, stream) is Some <==> is_chain_text(peer)
            && state.subscribed_to_host != Some(peer),
        state.after_subscribe(peer).subscribe_effect(peer, stream) is None,
        state.after_subscribe(peer).after_subscribe(peer) == state.after_subscribe(peer),
{
}

/// Subscribing twice in a row to the chain at the same address asks for at most one
/// subscription: the first request asks for one unless the chain is the peer recorded,
/// and leaves it recorded; the second asks for none and changes nothing. On the text of an
/// address the two ways of subscribing are the same.
pub proof fn lemma_subscribe_at_is_idempotent(state: StateView, chain: Seq<char>, stream: Seq<char>)
    ensures
        state.subscribe_effect_at(chain, stream) is Some <==> state.subscribed_to_host != Some(
            chain,
        ),
        state.after_subscribe_at(chain).subscribed_to_host == Some(chain),
        state.after_subscribe_at(chain).subscribe_effect_at(chain, stream) is None,
        state.after_subscribe_at(chain).after_subscribe_at(chain) == state.after_subscribe_at(
            chain,
        ),
        is_canonical_text(chain) ==> state.subscribe_effect(chain, stream)
            == state.subscribe_effect_at(chain, stream) && state.after_subscribe(chain)
            == state.after_subscribe_at(chain),
{
}

/// A copy of the room that arrives a second time changes nothing and asks for no second
/// subscription.
pub proof fn lemma_repeated_sync_subscribes_once(state: StateView, room_data: GameRoomView)
    ensures
        ({
            let first = initial_sync_step(state, room_data);
            let second = initial_sync_step(first.state, room_data);
            &&& first.effects.len() <= 1
            &&& second.effects.len() == 0
            &&& second.state == first.state
            &&& first.state.room == Some(room_data)
        }),
{
}

/// Unsubscribing leaves no subscription recorded; where none was recorded, it changes
/// nothing, and unsubscribing again changes nothing either.
pub proof fn lemma_unsubscribe_is_safe(state: StateView)
    ensures
        state.after_unsubscribe().subscribed_to_host is None,
        state.after_unsubscribe().room == state.room,
        state.subscribed_to_host is None ==> state.after_unsubscribe() == state,
        state.after_unsubscribe().after_unsubscribe() == state.after_unsubscribe(),
{
}

/// A reported round replaces what the receiver held: afterwards the blue score, the red
/// score of a room with a red player, the round number and the last record of the history
/// are those of the report, whatever the receiver's copy held before. Nothing else changes.
pub proof fn lemma_reported_round_supersedes(
    state: StateView,
    round_number: nat,
    result: RoundResult,
    blue_score: nat,
    red_score: nat,
    timestamp: Seq<char>,
)
    requires
        state.room is Some,
    ensures
        ({
            let step = round_result_step(
                state,
                round_number,
                result,
                blue_score,
                red_score,
                timestamp,
            );
            let before = state.room->0;
            let after = step->Ok_0.state.room->0;
            &&& step is Ok
            &&& step->Ok_0.effects == Seq::<EffectView>::empty()
            &&& step->Ok_0.state.subscribed_to_host == state.subscribed_to_host
            &&& step->Ok_0.state.room is Some
            &&& after.blue_score() == blue_score
            &&& before.red_player is Some ==> after.red_score() == red_score
            &&& after.current_round == round_number + 1
            &&& after.round_history.len() == before.round_history.len() + 1
            &&& after.round_history.last() == (RoundHistoryEntryView {
                round_number,
                result,
                blue_score_after: blue_score,
                red_score_after: red_score,
                timestamp,
            })
            &&& after.round_history.drop_last() == before.round_history
            &&& after.match_state == before.match_state
            &&& after.winner == before.winner
        }),
{
    let before = state.room->0;
    let after = before.after_reported_round(round_number, result, blue_score, red_score, timestamp);
    assert(after.round_history.drop_last() =~= before.round_history);
}

/// Two copies of a room with a red player that agree before a round agree after it, where
/// one of them plays the round and the other takes over the report that the first sends,
/// as long as the round does not end the match.
pub proof fn lemma_report_brings_agreement(
    room: GameRoomView,
    result: RoundResult,
    timestamp: Seq<char>,
)
    requires
        room.red_player is Some,
        room.round_winner(result) is None,
    ensures
        ({
            let reporter = room.after_round(result, timestamp);
            room.after_reported_round(
                room.current_round,
                result,
                reporter.blue_score(),
                reporter.red_score(),
                timestamp,
            ) == reporter
        }),
{
}

/// Where the round ends the match, the copy that takes over the report of the end agrees
/// with the reporter's on the scores, the winner and the state of the match.
pub proof fn lemma_end_brings_agreement(
    room: GameRoomView,
    result: RoundResult,
    timestamp: Seq<char>,
)
    requires
        room.red_player is Some,
        room.round_winner(result) is Some,
    ensures
        ({
            let reporter = room.after_round(result, timestamp);
            let receiver = room.after_reported_end(
                reporter.winner,
                reporter.blue_score(),
                reporter.red_score(),
            );
            &&& receiver.blue_player == reporter.blue_player
            &&& receiver.red_player == reporter.red_player
            &&& receiver.winner == reporter.winner
            &&& receiver.match_state == reporter.match_state
            &&& receiver.current_round == reporter.current_round
        }),
{
}

/// Whether `message`, if it reports a round or the end of the match, reports a round that
/// can have been played in `room`: the match is in progress here, the round is the one
/// being played, and the scores are those that the round leaves. Any other message passes.
pub open spec fn report_in_step(room: GameRoomView, message: MessageView) -> bool {
    match message {
        MessageView::RoundResultNotification {
            round_number,
            result,
            blue_score,
            red_score,
            timestamp: _,
        } => {
            &&& room.match_state == MatchState::InProgress
            &&& room.round_winner(result) is None
            &&& round_number == room.current_round
            &&& blue_score == room.scored(result).blue_score()
            &&& red_score == room.scored(result).red_score()
        },
        MessageView::MatchEndNotification { winner, blue_score, red_score, timestamp: _ } => {
            &&& room.match_state == MatchState::InProgress
            &&& winner is Some
            &&& exists|result: RoundResult|
                {
                    &&& #[trigger] room.round_winner(result) == winner
                    &&& blue_score == room.scored(result).blue_score()
                    &&& red_score == room.scored(result).red_score()
                }
        },
        _ => true,
    }
}

/// Whether `message` can come from the other party of a match that is played by the
/// rules: a copy of a room is well formed, and a report is of a round that can have been
/// played in the room held.
pub open spec fn message_in_step(state: StateView, message: MessageView) -> bool {
    &&& message matches MessageView::InitialStateSync { room_data } ==> room_data.well_formed()
    &&& state.room is Some ==> report_in_step(state.room->0, message)
}

/// Every accepted action leaves a well-formed room where it found one, or none: creating
/// a lobby, asking to join, reporting a round, leaving.
pub proof fn lemma_operations_keep_well_formed(
    state: StateView,
    chain: Seq<char>,
    operation: OperationView,
    timestamp: Seq<char>,
)
    requires
        state.room_well_formed(),
    ensures
        operation_step(state, chain, operation, timestamp) matches Ok(step)
            ==> step.state.room_well_formed(),
{
    match operation {
        OperationView::ReportRoundResult { result } => {
            if report_round_step(state, chain, result, timestamp) is Ok {
                lemma_round_keeps_well_formed(state.room->0, result, timestamp);
            }
        },
        _ => {},
    }
}

/// Every message that is handled leaves a well-formed room where it found one, as long as
/// it can come from a match played by the rules. On the host's side these are the request
/// to join, the opponent's reports of a round and of the end, and the opponent's leaving;
/// on the guest's side the copy of the room, the host's reports, and the deletion.
pub proof fn lemma_messages_keep_well_formed(
    state: StateView,
    message: MessageView,
    timestamp: Seq<char>,
)
    requires
        state.room_well_formed(),
        message_in_step(state, message),
    ensures
        message_step(state, message, timestamp) matches Ok(step) ==> step.state.room_well_formed(),
{
    if state.room is Some {
        let room = state.room->0;
        match message {
            MessageView::RoundResultNotification {
                round_number,
                result,
                blue_score,
                red_score,
                timestamp: reported_at,
            } => {
                lemma_report_brings_agreement(room, result, reported_at);
                lemma_round_keeps_well_formed(room, result, reported_at);
            },
            MessageView::MatchEndNotification { winner, blue_score, red_score, timestamp: _ } => {
                let result = choose|result: RoundResult|
                    {
                        &&& #[trigger] room.round_winner(result) == winner
                        &&& blue_score == room.scored(result).blue_score()
                        &&& red_score == room.scored(result).red_score()
                    };
                let after = room.after_reported_end(winner, blue_score, red_score);
                assert(after.round_history == room.round_history);
                assert(after.well_formed());
            },
            _ => {},
        }
    }
}

/// What comes in at a chain: an action of its player, or a message from the other chain,
/// each with the time at which it comes.
pub enum StepInput {
    Action { operation: OperationView, timestamp: Seq<char> },
    Delivery { message: MessageView, timestamp: Seq<char> },
}

/// The state after one input. An input that is refused leaves the state as it was, and so
/// does a message that cannot come from a match played by the rules.
pub open spec fn after_input(state: StateView, chain: Seq<char>, input: StepInput) -> StateView {
    match input {
        StepInput::Action { operation, timestamp } => match operation_step(
            state,
            chain,
            operation,
            timestamp,
        ) {
            Ok(step) => step.state,
            Err(_) => state,
        },
        StepInput::Delivery { message, timestamp } => if message_in_step(state, message) {
            match message_step(state, message, timestamp) {
                Ok(step) => step.state,
                Err(_) => state,
            }
        } else {
            state
        },
    }
}

/// The state after the inputs `inputs`, one after the other.
pub open spec fn after_inputs(
    state: StateView,
    chain: Seq<char>,
    inputs: Seq<StepInput>,
) -> StateView
    decreases inputs.len(),
{
    if inputs.len() == 0 {
        state
    } else {
        after_input(after_inputs(state, chain, inputs.drop_last()), chain, inputs.last())
    }
}

/// Whatever comes in at a chain, in whatever order, the room that the chain holds is well
/// formed: a room that lost its opponent and seated another, too. In particular the
/// rounds of its history are numbered 1, 2, 3, ... without a gap, and while the match is
/// in progress both scores are below the winning score.
pub proof fn lemma_reachable_room_is_well_formed(chain: Seq<char>, inputs: Seq<StepInput>)
    ensures
        ({
            let state = after_inputs(StateView::empty(), chain, inputs);
            &&& state.room_well_formed()
            &&& state.room is Some ==> state.room->0.rounds_numbered()
            &&& state.room is Some ==> forall|i: int|
                0 <= i < state.room->0.round_history.len() ==> (
                #[trigger] state.room->0.round_history[i]).round_number == i + 1
        }),
    decreases inputs.len(),
{
    if inputs.len() > 0 {
        lemma_reachable_room_is_well_formed(chain, inputs.drop_last());
        let earlier = after_inputs(StateView::empty(), chain, inputs.drop_last());
        match inputs.last() {
            StepInput::Action { operation, timestamp } => {
                lemma_operations_keep_well_formed(earlier, chain, operation, timestamp);
            },
            StepInput::Delivery { message, timestamp } => {
                if message_in_step(earlier, message) {
                    lemma_messages_keep_well_formed(earlier, message, timestamp);
                }
            },
        }
    }
}

/// The room that a departure leaves is well formed, whatever the room was: it is the room
/// as it was opened, and the next opponent starts at round 1 with an empty history.
pub proof fn lemma_vacated_room_is_well_formed(
    room: GameRoomView,
    chain_id: Seq<char>,
    name: Seq<char>,
)
    ensures
        room.vacated().well_formed(),
        room.vacated() == (GameRoomView {
            room_id: room.room_id,
            host_chain_id: room.host_chain_id,
            blue_player: PlayerView { score: 0, ..room.blue_player },
            red_player: None,
            match_state: MatchState::WaitingForOpponent,
            current_round: 0,
            round_history: Seq::empty(),
            winner: None,
            created_at: room.created_at,
        }),
        room.vacated().joined_by(chain_id, name).well_formed(),
{
}

/// Creating a lobby on a chain without a room, whose record does not name the chain
/// itself, stores the fresh room, asks for exactly one subscription, to the chain's own
/// stream of that room, and for nothing else.
pub proof fn lemma_create_lobby_from_no_room(
    state: StateView,
    chain: Seq<char>,
    host_name: Seq<char>,
    timestamp: Seq<char>,
)
    requires
        state.room is None,
        state.subscribed_to_host != Some(chain),
    ensures
        create_lobby_step(state, chain, host_name, timestamp) == Ok::<StepView, GameError>(
            StepView {
                state: StateView {
                    room: Some(GameRoomView::created(chain, host_name, timestamp)),
                    subscribed_to_host: Some(chain),
                },
                effects: seq![
                    EffectView::Subscribe { chain, stream: stream_name_of(timestamp) },
                ],
            },
        ),
        GameRoomView::created(chain, host_name, timestamp).match_state
            == MatchState::WaitingForOpponent,
        GameRoomView::created(chain, host_name, timestamp).current_round == 0,
        GameRoomView::created(chain, host_name, timestamp).red_player is None,
{
}

} // verus!
