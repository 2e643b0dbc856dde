use hoverwars::{GameError, GameRoom, MatchState, Role, RoundResult, Team};

fn text(s: &str) -> String {
    s.to_string()
}

fn started_room() -> GameRoom {
    let mut room = GameRoom::new(text("chain-a"), text("Ava"), text("1000"));
    assert_eq!(room.add_red_player(text("chain-b"), text("Bo")), Ok(()));
    room
}

#[test]
fn new_room_waits_for_an_opponent() {
    let room = GameRoom::new(text("chain-a"), text("Ava"), text("1700000000000000"));
    assert_eq!(room.room_id, "1700000000000000");
    assert_eq!(room.created_at, "1700000000000000");
    assert_eq!(room.host_chain_id, "chain-a");
    assert_eq!(room.blue_player.chain_id, "chain-a");
    assert_eq!(room.blue_player.name, "Ava");
    assert_eq!(room.blue_player.team, Team::Blue);
    assert_eq!(room.blue_player.score, 0);
    assert!(room.red_player.is_none());
    assert_eq!(room.match_state, MatchState::WaitingForOpponent);
    assert_eq!(room.current_round, 0);
    assert!(room.round_history.is_empty());
    assert_eq!(room.winner, None);
}

#[test]
fn defaults_are_blue_and_waiting() {
    assert_eq!(Team::default(), Team::Blue);
    assert_eq!(MatchState::default(), MatchState::WaitingForOpponent);
}

#[test]
fn joining_starts_the_match_at_round_one() {
    let room = started_room();
    let red = room.red_player.as_ref().unwrap();
    assert_eq!(red.chain_id, "chain-b");
    assert_eq!(red.name, "Bo");
    assert_eq!(red.team, Team::Red);
    assert_eq!(red.score, 0);
    assert_eq!(room.match_state, MatchState::InProgress);
    assert_eq!(room.current_round, 1);
    assert_eq!(room.blue_player.name, "Ava");
    assert_eq!(room.room_id, "1000");
}

#[test]
fn a_full_room_refuses_a_second_opponent() {
    let mut room = started_room();
    assert!(!room.apply_round_result(RoundResult::RedWin, text("1001")));
    assert_eq!(room.add_red_player(text("chain-c"), text("Cy")), Err(GameError::RoomFull));
    let red = room.red_player.as_ref().unwrap();
    assert_eq!(red.chain_id, "chain-b");
    assert_eq!(red.name, "Bo");
    assert_eq!(red.score, 1);
    assert_eq!(room.current_round, 2);
    assert_eq!(room.match_state, MatchState::InProgress);
}

#[test]
fn blue_win_raises_only_blue() {
    let mut room = started_room();
    assert!(!room.apply_round_result(RoundResult::BlueWin, text("1001")));
    assert_eq!(room.get_blue_score(), 1);
    assert_eq!(room.get_red_score(), 0);
    assert_eq!(room.current_round, 2);
}

#[test]
fn red_win_raises_only_red() {
    let mut room = started_room();
    assert!(!room.apply_round_result(RoundResult::RedWin, text("1001")));
    assert_eq!(room.get_blue_score(), 0);
    assert_eq!(room.get_red_score(), 1);
    assert_eq!(room.current_round, 2);
}

#[test]
fn draw_raises_both() {
    let mut room = started_room();
    assert!(!room.apply_round_result(RoundResult::Draw, text("1001")));
    assert_eq!(room.get_blue_score(), 1);
    assert_eq!(room.get_red_score(), 1);
    assert_eq!(room.current_round, 2);
}

#[test]
fn three_blue_wins_end_the_match() {
    let mut room = started_room();
    assert!(!room.apply_round_result(RoundResult::BlueWin, text("2")));
    assert!(!room.apply_round_result(RoundResult::BlueWin, text("3")));
    assert!(room.apply_round_result(RoundResult::BlueWin, text("4")));
    assert_eq!(room.match_state, MatchState::Finished);
    assert_eq!(room.winner, Some(Team::Blue));
    assert_eq!(room.get_blue_score(), 3);
    assert_eq!(room.get_red_score(), 0);
    assert_eq!(room.current_round, 3);
    assert_eq!(room.round_history.len(), 3);
}

#[test]
fn three_red_wins_end_the_match() {
    let mut room = started_room();
    assert!(!room.apply_round_result(RoundResult::RedWin, text("2")));
    assert!(!room.apply_round_result(RoundResult::BlueWin, text("3")));
    assert!(!room.apply_round_result(RoundResult::RedWin, text("4")));
    assert!(room.apply_round_result(RoundResult::RedWin, text("5")));
    assert_eq!(room.match_state, MatchState::Finished);
    assert_eq!(room.winner, Some(Team::Red));
    assert_eq!(room.get_blue_score(), 1);
    assert_eq!(room.get_red_score(), 3);
    assert_eq!(room.current_round, 4);
}

#[test]
fn a_draw_at_two_all_goes_to_blue() {
    let mut room = started_room();
    assert!(!room.apply_round_result(RoundResult::Draw, text("2")));
    assert!(!room.apply_round_result(RoundResult::Draw, text("3")));
    assert!(room.apply_round_result(RoundResult::Draw, text("4")));
    assert_eq!(room.get_blue_score(), 3);
    assert_eq!(room.get_red_score(), 3);
    assert_eq!(room.winner, Some(Team::Blue));
    assert_eq!(room.match_state, MatchState::Finished);
}

#[test]
fn history_is_numbered_from_one_and_keeps_the_scores() {
    let mut room = started_room();
    room.apply_round_result(RoundResult::BlueWin, text("t1"));
    room.apply_round_result(RoundResult::Draw, text("t2"));
    room.apply_round_result(RoundResult::RedWin, text("t3"));
    room.apply_round_result(RoundResult::RedWin, text("t4"));
    assert_eq!(room.round_history.len(), 4);
    let expected = [
        (1, RoundResult::BlueWin, 1, 0, "t1"),
        (2, RoundResult::Draw, 2, 1, "t2"),
        (3, RoundResult::RedWin, 2, 2, "t3"),
        (4, RoundResult::RedWin, 2, 3, "t4"),
    ];
    for (entry, (number, result, blue, red, at)) in room.round_history.iter().zip(expected) {
        assert_eq!(entry.round_number, number);
        assert_eq!(entry.result, result);
        assert_eq!(entry.blue_score_after, blue);
        assert_eq!(entry.red_score_after, red);
        assert_eq!(entry.timestamp, at);
    }
    assert_eq!(room.winner, Some(Team::Red));
    assert_eq!(room.match_state, MatchState::Finished);
}

#[test]
fn scores_never_fall_over_a_match() {
    let mut room = started_room();
    let results = [
        RoundResult::RedWin,
        RoundResult::Draw,
        RoundResult::BlueWin,
        RoundResult::RedWin,
    ];
    let mut blue = 0;
    let mut red = 0;
    for result in results {
        room.apply_round_result(result, text("t"));
        assert!(room.get_blue_score() >= blue);
        assert!(room.get_red_score() >= red);
        let blue_gain = if result == RoundResult::RedWin { 0 } else { 1 };
        let red_gain = if result == RoundResult::BlueWin { 0 } else { 1 };
        assert_eq!(room.get_blue_score(), blue + blue_gain);
        assert_eq!(room.get_red_score(), red + red_gain);
        blue = room.get_blue_score();
        red = room.get_red_score();
    }
    assert_eq!((blue, red), (2, 3));
}

#[test]
fn without_a_red_player_the_red_score_stays_zero() {
    let mut room = GameRoom::new(text("chain-a"), text("Ava"), text("1"));
    assert!(!room.apply_round_result(RoundResult::RedWin, text("2")));
    assert_eq!(room.get_red_score(), 0);
    assert_eq!(room.get_blue_score(), 0);
    assert_eq!(room.round_history[0].red_score_after, 0);
    assert_eq!(room.round_history[0].round_number, 0);
    assert_eq!(room.current_round, 1);
}

#[test]
fn roles_follow_the_addresses() {
    let room = started_room();
    assert_eq!(room.role_of(&text("chain-a")), Role::Host);
    assert_eq!(room.role_of(&text("chain-b")), Role::Guest);
    assert_eq!(room.role_of(&text("chain-c")), Role::Stranger);
    let waiting = GameRoom::new(text("chain-a"), text("Ava"), text("1"));
    assert_eq!(waiting.role_of(&text("chain-b")), Role::Stranger);
    let mut own = GameRoom::new(text("chain-a"), text("Ava"), text("1"));
    assert!(own.add_red_player(text("chain-a"), text("Ava again")).is_ok());
    assert_eq!(own.role_of(&text("chain-a")), Role::Host);
}

#[test]
fn a_reported_round_replaces_scores_and_round() {
    let mut room = started_room();
    room.apply_round_result(RoundResult::BlueWin, text("t1"));
    room.apply_round_result(RoundResult::RedWin, text("t2"));
    assert_eq!(room.current_round, 3);
    room.record_reported_round(5, RoundResult::BlueWin, 3, 2, text("t5"));
    assert_eq!(room.get_blue_score(), 3);
    assert_eq!(room.get_red_score(), 2);
    assert_eq!(room.current_round, 6);
    assert_eq!(room.round_history.len(), 3);
    let last = room.round_history.last().unwrap();
    assert_eq!(last.round_number, 5);
    assert_eq!(last.result, RoundResult::BlueWin);
    assert_eq!(last.blue_score_after, 3);
    assert_eq!(last.red_score_after, 2);
    assert_eq!(last.timestamp, "t5");
    assert_eq!(room.match_state, MatchState::InProgress);
    assert_eq!(room.winner, None);
}

#[test]
fn a_reported_end_finishes_the_match() {
    let mut room = started_room();
    room.record_reported_end(Some(Team::Red), 1, 3);
    assert_eq!(room.get_blue_score(), 1);
    assert_eq!(room.get_red_score(), 3);
    assert_eq!(room.winner, Some(Team::Red));
    assert_eq!(room.match_state, MatchState::Finished);
    assert_eq!(room.current_round, 1);
    assert!(room.round_history.is_empty());
}

#[test]
fn set_scores_skips_a_missing_red_player() {
    let mut room = GameRoom::new(text("chain-a"), text("Ava"), text("1"));
    room.set_scores(2, 1);
    assert_eq!(room.get_blue_score(), 2);
    assert_eq!(room.get_red_score(), 0);
    assert!(room.red_player.is_none());
}

#[test]
fn removing_the_red_player_reopens_the_room() {
    let mut room = started_room();
    room.apply_round_result(RoundResult::BlueWin, text("t1"));
    room.remove_red_player();
    assert!(room.red_player.is_none());
    assert_eq!(room.match_state, MatchState::WaitingForOpponent);
    assert_eq!(room.current_round, 0);
    assert_eq!(room.winner, None);
    assert_eq!(room.get_blue_score(), 0);
    assert_eq!(room.get_red_score(), 0);
    assert!(room.round_history.is_empty());
    assert_eq!(room.host_chain_id, "chain-a");
    assert_eq!(room.room_id, "1000");
    assert_eq!(room.created_at, "1000");
    assert_eq!(room.blue_player.name, "Ava");
    assert_eq!(room.blue_player.chain_id, "chain-a");
    assert_eq!(room.blue_player.team, Team::Blue);
}

#[test]
fn removing_the_red_player_after_the_match_clears_the_match() {
    let mut room = started_room();
    for at in ["t1", "t2", "t3"] {
        room.apply_round_result(RoundResult::BlueWin, text(at));
    }
    assert_eq!(room.winner, Some(Team::Blue));
    room.remove_red_player();
    assert_eq!(room.winner, None);
    assert_eq!(room.match_state, MatchState::WaitingForOpponent);
    assert!(room.red_player.is_none());
    assert_eq!(room.current_round, 0);
    assert_eq!(room.get_blue_score(), 0);
    assert!(room.round_history.is_empty());
}

#[test]
fn a_reopened_room_numbers_its_rounds_from_one_again() {
    let mut room = started_room();
    room.apply_round_result(RoundResult::BlueWin, text("t1"));
    room.apply_round_result(RoundResult::Draw, text("t2"));
    room.remove_red_player();
    assert_eq!(room.add_red_player(text("chain-c"), text("Cy")), Ok(()));
    assert_eq!(room.current_round, 1);
    assert!(!room.apply_round_result(RoundResult::RedWin, text("t3")));
    assert!(!room.apply_round_result(RoundResult::BlueWin, text("t4")));
    assert_eq!(room.round_history.len(), 2);
    for (index, entry) in room.round_history.iter().enumerate() {
        assert_eq!(entry.round_number as usize, index + 1);
    }
    assert_eq!(room.round_history[0].blue_score_after, 0);
    assert_eq!(room.round_history[0].red_score_after, 1);
    assert_eq!(room.round_history[1].blue_score_after, 1);
    assert_eq!(room.round_history[1].red_score_after, 1);
    assert_eq!(room.current_round, 3);
}

#[test]
fn a_room_reopened_after_a_won_match_starts_at_nil_all() {
    let mut room = started_room();
    for at in ["t1", "t2", "t3"] {
        room.apply_round_result(RoundResult::BlueWin, text(at));
    }
    room.remove_red_player();
    assert_eq!(room.add_red_player(text("chain-c"), text("Cy")), Ok(()));
    assert_eq!(room.match_state, MatchState::InProgress);
    assert_eq!(room.get_blue_score(), 0);
    assert_eq!(room.get_red_score(), 0);
    assert!(!room.apply_round_result(RoundResult::RedWin, text("t4")));
    assert_eq!(room.match_state, MatchState::InProgress);
    assert_eq!(room.winner, None);
    assert_eq!(room.get_red_score(), 1);
    assert_eq!(room.get_blue_score(), 0);
}

#[test]
fn a_copy_of_a_room_holds_the_same() {
    let mut room = started_room();
    room.apply_round_result(RoundResult::Draw, text("t1"));
    let copy = room.clone();
    assert_eq!(copy.room_id, room.room_id);
    assert_eq!(copy.host_chain_id, room.host_chain_id);
    assert_eq!(copy.blue_player.name, "Ava");
    assert_eq!(copy.blue_player.score, 1);
    assert_eq!(copy.red_player.as_ref().unwrap().name, "Bo");
    assert_eq!(copy.red_player.as_ref().unwrap().score, 1);
    assert_eq!(copy.current_round, 2);
    assert_eq!(copy.round_history.len(), 1);
    assert_eq!(copy.round_history[0].timestamp, "t1");
    assert_eq!(copy.match_state, MatchState::InProgress);
    assert_eq!(copy.created_at, "1000");
}
