use hoverwars::service::{
    create_lobby_reply, join_lobby_reply, leave_lobby_reply, report_round_result_reply,
};
use hoverwars::{GameRoom, MatchState, QueryRoot, RoundResult, Team};

fn text(s: &str) -> String {
    s.to_string()
}

fn no_room() -> QueryRoot {
    QueryRoot { room: None }
}

fn waiting() -> QueryRoot {
    QueryRoot { room: Some(GameRoom::new(text("chain-a"), text("Ava"), text("100"))) }
}

fn playing() -> QueryRoot {
    let mut room = GameRoom::new(text("chain-a"), text("Ava"), text("100"));
    assert!(room.add_red_player(text("chain-b"), text("Bo")).is_ok());
    room.apply_round_result(RoundResult::RedWin, text("101"));
    room.apply_round_result(RoundResult::Draw, text("102"));
    QueryRoot { room: Some(room) }
}

fn finished() -> QueryRoot {
    let mut query = playing();
    let room = query.room.as_mut().unwrap();
    assert!(room.apply_round_result(RoundResult::RedWin, text("103")));
    query
}

#[test]
fn without_a_room_every_answer_is_empty() {
    let query = no_room();
    assert!(query.room().is_none());
    assert_eq!(query.match_state(), None);
    assert!(query.players().is_empty());
    assert!(query.blue_player().is_none());
    assert!(query.red_player().is_none());
    assert_eq!(query.blue_score(), 0);
    assert_eq!(query.red_score(), 0);
    assert_eq!(query.blue_player_name(), None);
    assert_eq!(query.red_player_name(), None);
    assert_eq!(query.current_round(), 0);
    assert!(query.round_history().is_empty());
    assert_eq!(query.winner(), None);
    assert_eq!(query.winner_name(), None);
    assert!(!query.is_match_finished());
    assert!(!query.is_waiting_for_opponent());
    assert!(query.game_status().is_none());
}

#[test]
fn a_waiting_room_shows_only_blue() {
    let query = waiting();
    assert_eq!(query.room().unwrap().room_id, "100");
    assert_eq!(query.match_state(), Some(MatchState::WaitingForOpponent));
    let players = query.players();
    assert_eq!(players.len(), 1);
    assert_eq!(players[0].name, "Ava");
    assert_eq!(players[0].team, Team::Blue);
    assert_eq!(query.blue_player().unwrap().chain_id, "chain-a");
    assert!(query.red_player().is_none());
    assert_eq!(query.blue_player_name(), Some(text("Ava")));
    assert_eq!(query.red_player_name(), None);
    assert!(query.is_waiting_for_opponent());
    assert!(!query.is_match_finished());
    let status = query.game_status().unwrap();
    assert_eq!(status.match_state, MatchState::WaitingForOpponent);
    assert_eq!(status.blue_player_name, "Ava");
    assert_eq!(status.red_player_name, None);
    assert_eq!(status.blue_score, 0);
    assert_eq!(status.red_score, 0);
    assert_eq!(status.current_round, 0);
    assert_eq!(status.winner, None);
    assert_eq!(status.rounds_played, 0);
}

#[test]
fn a_match_in_progress_shows_both_players_and_the_rounds() {
    let query = playing();
    assert_eq!(query.match_state(), Some(MatchState::InProgress));
    let players = query.players();
    assert_eq!(players.len(), 2);
    assert_eq!(players[0].name, "Ava");
    assert_eq!(players[0].score, 1);
    assert_eq!(players[1].name, "Bo");
    assert_eq!(players[1].score, 2);
    assert_eq!(players[1].team, Team::Red);
    assert_eq!(query.red_player().unwrap().chain_id, "chain-b");
    assert_eq!(query.blue_score(), 1);
    assert_eq!(query.red_score(), 2);
    assert_eq!(query.red_player_name(), Some(text("Bo")));
    assert_eq!(query.current_round(), 3);
    let history = query.round_history();
    assert_eq!(history.len(), 2);
    assert_eq!(history[0].round_number, 1);
    assert_eq!(history[0].result, RoundResult::RedWin);
    assert_eq!(history[1].round_number, 2);
    assert_eq!(history[1].blue_score_after, 1);
    assert_eq!(history[1].red_score_after, 2);
    assert_eq!(history[1].timestamp, "102");
    assert_eq!(query.winner(), None);
    assert_eq!(query.winner_name(), None);
    assert!(!query.is_match_finished());
    assert!(!query.is_waiting_for_opponent());
    let status = query.game_status().unwrap();
    assert_eq!(status.match_state, MatchState::InProgress);
    assert_eq!(status.red_player_name, Some(text("Bo")));
    assert_eq!(status.blue_score, 1);
    assert_eq!(status.red_score, 2);
    assert_eq!(status.current_round, 3);
    assert_eq!(status.rounds_played, 2);
}

#[test]
fn a_finished_match_names_its_winner() {
    let query = finished();
    assert!(query.is_match_finished());
    assert_eq!(query.winner(), Some(Team::Red));
    assert_eq!(query.winner_name(), Some(text("Bo")));
    let status = query.game_status().unwrap();
    assert_eq!(status.winner, Some(Team::Red));
    assert_eq!(status.red_score, 3);
    assert_eq!(status.rounds_played, 3);
    assert_eq!(status.current_round, 3);
}

#[test]
fn a_blue_winner_is_named_after_the_host() {
    let mut room = GameRoom::new(text("chain-a"), text("Ava"), text("100"));
    assert!(room.add_red_player(text("chain-b"), text("Bo")).is_ok());
    room.record_reported_end(Some(Team::Blue), 3, 0);
    let query = QueryRoot { room: Some(room) };
    assert_eq!(query.winner_name(), Some(text("Ava")));
}

#[test]
fn a_red_winner_without_a_red_player_has_no_name() {
    let mut room = GameRoom::new(text("chain-a"), text("Ava"), text("100"));
    room.record_reported_end(Some(Team::Red), 0, 3);
    let query = QueryRoot { room: Some(room) };
    assert_eq!(query.winner(), Some(Team::Red));
    assert_eq!(query.winner_name(), Some(String::new()));
    assert_eq!(query.red_score(), 0);
}

#[test]
fn replies_quote_what_was_asked() {
    assert_eq!(create_lobby_reply("Ava"), "Lobby created by host 'Ava' as Blue Team");
    assert_eq!(
        join_lobby_reply("chain-a", "Bo"),
        "Join request sent to host 'chain-a' by player 'Bo' as Red Team"
    );
    assert_eq!(report_round_result_reply(RoundResult::BlueWin), "Round result reported: BlueWin");
    assert_eq!(report_round_result_reply(RoundResult::RedWin), "Round result reported: RedWin");
    assert_eq!(report_round_result_reply(RoundResult::Draw), "Round result reported: Draw");
    assert_eq!(leave_lobby_reply(), "Leave lobby request scheduled");
}
