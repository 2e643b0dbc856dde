use hoverwars::{
    ChainAddress, CrossChainMessage, GameRoom, HoverWarsContract, MatchState, Operation,
    RoundResult, Team,
};

fn text(s: &str) -> String {
    s.to_string()
}

fn chain_text(digit: char) -> String {
    digit.to_string().repeat(64)
}

fn room_with(blue: u32, red: u32, round: u32) -> GameRoom {
    let mut room = GameRoom::new(chain_text('a'), text("Ava"), text("100"));
    assert!(room.add_red_player(chain_text('b'), text("Bo")).is_ok());
    room.set_scores(blue, red);
    room.current_round = round;
    room
}

fn host_of(room: GameRoom) -> HoverWarsContract {
    let mut host = HoverWarsContract::new(ChainAddress::parse(&chain_text('a')).unwrap());
    host.state.room = Some(room);
    host
}

fn report(result: RoundResult) -> Operation {
    Operation::ReportRoundResult { result }
}

#[test]
fn a_match_played_by_the_rules_always_fits() {
    let mut host = HoverWarsContract::new(ChainAddress::parse(&chain_text('a')).unwrap());
    host.create_lobby(text("Ava"), text("100")).unwrap();
    let guest = ChainAddress::parse(&chain_text('b')).unwrap();
    host.receive_join_request(guest, text("Bo"), text("101")).unwrap();
    let results = [
        RoundResult::Draw,
        RoundResult::Draw,
        RoundResult::BlueWin,
        RoundResult::RedWin,
        RoundResult::Draw,
    ];
    for result in results {
        assert!(host.operation_fits(&report(result)));
        let _ = host.execute_operation(report(result), text("110"));
    }
    let room = host.state.room.as_ref().unwrap();
    assert_eq!(room.match_state, MatchState::Finished);
    assert_eq!(room.round_history.len(), 3);
    assert_eq!(room.current_round, 3);
}

#[test]
fn ordinary_rounds_fit() {
    let room = room_with(0, 0, 1);
    assert!(room.can_apply_round(RoundResult::BlueWin));
    assert!(room.can_apply_round(RoundResult::RedWin));
    assert!(room.can_apply_round(RoundResult::Draw));
    let waiting = GameRoom::new(chain_text('a'), text("Ava"), text("100"));
    assert!(waiting.can_apply_round(RoundResult::RedWin));
}

#[test]
fn a_full_blue_score_takes_no_blue_win() {
    let room = room_with(u32::MAX, 0, 7);
    assert!(!room.can_apply_round(RoundResult::BlueWin));
    assert!(!room.can_apply_round(RoundResult::Draw));
    assert!(room.can_apply_round(RoundResult::RedWin));
}

#[test]
fn a_full_red_score_takes_no_red_win() {
    let room = room_with(1, u32::MAX, 7);
    assert!(room.can_apply_round(RoundResult::BlueWin));
    assert!(!room.can_apply_round(RoundResult::Draw));
    assert!(!room.can_apply_round(RoundResult::RedWin));
}

#[test]
fn the_last_round_number_takes_only_a_deciding_round() {
    let open = room_with(0, 0, u32::MAX);
    assert!(!open.can_apply_round(RoundResult::BlueWin));
    assert!(!open.can_apply_round(RoundResult::Draw));
    let mut deciding = room_with(2, 0, u32::MAX);
    assert!(deciding.can_apply_round(RoundResult::BlueWin));
    assert!(!deciding.can_apply_round(RoundResult::RedWin));
    assert!(deciding.apply_round_result(RoundResult::BlueWin, text("101")));
    assert_eq!(deciding.current_round, u32::MAX);
    assert_eq!(deciding.winner, Some(Team::Blue));
    assert_eq!(deciding.round_history[0].round_number, u32::MAX);
}

#[test]
fn a_round_just_below_the_limit_is_scored() {
    let mut room = room_with(u32::MAX - 1, 0, u32::MAX - 1);
    assert!(room.can_apply_round(RoundResult::BlueWin));
    assert!(room.apply_round_result(RoundResult::BlueWin, text("101")));
    assert_eq!(room.get_blue_score(), u32::MAX);
    assert_eq!(room.match_state, MatchState::Finished);
}

#[test]
fn operations_fit_unless_an_accepted_report_overflows() {
    let full = host_of(room_with(u32::MAX, 0, 7));
    assert!(!full.operation_fits(&report(RoundResult::BlueWin)));
    assert!(full.operation_fits(&report(RoundResult::RedWin)));
    assert!(full.operation_fits(&Operation::LeaveLobby));
    assert!(full.operation_fits(&Operation::CreateLobby { host_name: text("Ava") }));
    assert!(full.operation_fits(&Operation::JoinLobby {
        host_chain_id: chain_text('c'),
        player_name: text("Ava"),
    }));

    let mut stranger = HoverWarsContract::new(ChainAddress::parse(&chain_text('c')).unwrap());
    stranger.state.room = Some(room_with(u32::MAX, 0, 7));
    assert!(stranger.operation_fits(&report(RoundResult::BlueWin)));

    let mut finished = room_with(u32::MAX, 0, 7);
    finished.match_state = MatchState::Finished;
    assert!(host_of(finished).operation_fits(&report(RoundResult::BlueWin)));

    let idle = HoverWarsContract::new(ChainAddress::parse(&chain_text('a')).unwrap());
    assert!(idle.operation_fits(&report(RoundResult::BlueWin)));
}

#[test]
fn messages_fit_unless_the_next_round_has_no_number() {
    let notice = |round_number: u32| CrossChainMessage::RoundResultNotification {
        round_number,
        result: RoundResult::Draw,
        blue_score: u32::MAX,
        red_score: u32::MAX,
        timestamp: text("101"),
    };
    let mut host = host_of(room_with(0, 0, 1));
    assert!(!host.message_fits(&notice(u32::MAX)));
    assert!(host.message_fits(&notice(u32::MAX - 1)));
    assert!(host.message_fits(&CrossChainMessage::RoomDeleted { timestamp: text("101") }));
    assert!(host.message_fits(&CrossChainMessage::MatchEndNotification {
        winner: None,
        blue_score: u32::MAX,
        red_score: u32::MAX,
        timestamp: text("101"),
    }));
    assert!(host.execute_message(notice(u32::MAX - 1), text("102")).is_ok());
    let room = host.state.room.as_ref().unwrap();
    assert_eq!(room.current_round, u32::MAX);
    assert_eq!(room.get_blue_score(), u32::MAX);
    assert_eq!(room.get_red_score(), u32::MAX);

    let idle = HoverWarsContract::new(ChainAddress::parse(&chain_text('a')).unwrap());
    assert!(idle.message_fits(&notice(u32::MAX)));
}
