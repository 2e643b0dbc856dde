//! The state machine that one chain runs: what a player's action or a message from the
//! other chain does to the local copy of the room, and what it asks to be sent, announced
//! or subscribed to.

use crate::address::{canonical_text, is_canonical_text, is_chain_text, ChainAddress};
use crate::error::GameError;
use crate::protocol::{
    effects_view, stream_name, stream_name_of, CrossChainMessage, Effect, EffectView, EventView,
    HoverWarsEvent, MessageView, Operation, OperationView,
};
use crate::room::{GameRoom, GameRoomView, MatchState, Role, RoundResult, Team};
use crate::state::{
    effect_option_view, unsubscribe_effect, HoverWarsState, StateView,
};
use vstd::prelude::*;

verus! {

/// One chain's side of the game: its state, and the address under which it acts.
#[derive(Debug)]
pub struct HoverWarsContract {
    pub state: HoverWarsState,
    pub chain_id: ChainAddress,
}

/// What a step leaves behind: the new state, and the effects it asks for, in order.
pub struct StepView {
    pub state: StateView,
    pub effects: Seq<EffectView>,
}

/// The list of an effect that may be absent.
pub open spec fn listed(effect: Option<EffectView>) -> Seq<EffectView> {
    match effect {
        Some(e) => seq![e],
        None => Seq::empty(),
    }
}

/// Creating a lobby: a chain without a room holds a fresh room of its own, and listens to
/// its own stream of that room unless it is the peer already recorded. A chain that holds
/// a room is refused.
pub open spec fn create_lobby_step(
    state: StateView,
    chain: Seq<char>,
    host_name: Seq<char>,
    timestamp: Seq<char>,
) -> Result<StepView, GameError> {
    if state.room is Some {
        Err(GameError::AlreadyInRoom)
    } else {
        let room = GameRoomView::created(chain, host_name, timestamp);
        Ok(
            StepView {
                state: StateView { room: Some(room), ..state.after_subscribe_at(chain) },
                effects: listed(state.subscribe_effect_at(chain, stream_name_of(room.room_id))),
            },
        )
    }
}

/// Asking to join: a request goes to the host, and nothing changes here until the host
/// answers. A host that is no chain address is refused.
pub open spec fn join_lobby_step(
    state: StateView,
    chain: Seq<char>,
    host_chain_id: Seq<char>,
    player_name: Seq<char>,
) -> Result<StepView, GameError> {
    if is_chain_text(host_chain_id) {
        Ok(
            StepView {
                state,
                effects: seq![
                    EffectView::Send {
                        destination: canonical_text(host_chain_id),
                        message: MessageView::JoinRequest { player_chain_id: chain, player_name },
                    },
                ],
            },
        )
    } else {
        Err(GameError::InvalidAddress)
    }
}

/// Why the chain `chain` may not report a round, if it may not.
pub open spec fn report_refusal(state: StateView, chain: Seq<char>) -> Option<GameError> {
    match state.room {
        None => Some(GameError::NoActiveRoom),
        Some(room) => if room.role_of(chain) == Role::Stranger {
            Some(GameError::NotAuthorized)
        } else if room.match_state != MatchState::InProgress {
            Some(GameError::MatchNotInProgress)
        } else {
            None
        },
    }
}

/// The other party of the room, as seen from `chain`: the red player for the host, the
/// host for anyone else.
pub open spec fn other_party(room: GameRoomView, chain: Seq<char>) -> Option<Seq<char>> {
    if room.role_of(chain) == Role::Host {
        match room.red_player {
            Some(red) => Some(red.chain_id),
            None => None,
        }
    } else {
        Some(room.host_chain_id)
    }
}

/// What the other party is told of a round that was played in `room`: the end of the
/// match, or else the round's result.
pub open spec fn round_notice(
    room: GameRoomView,
    result: RoundResult,
    timestamp: Seq<char>,
) -> MessageView {
    let after = room.after_round(result, timestamp);
    if room.round_winner(result) is Some {
        MessageView::MatchEndNotification {
            winner: after.winner,
            blue_score: after.blue_score(),
            red_score: after.red_score(),
            timestamp,
        }
    } else {
        MessageView::RoundResultNotification {
            round_number: room.current_round,
            result,
            blue_score: after.blue_score(),
            red_score: after.red_score(),
            timestamp,
        }
    }
}

/// The notice of a round to the other party, as seen from `chain`: none where there is no
/// other party, or none with an address to be told at.
pub open spec fn round_notice_effect(
    room: GameRoomView,
    chain: Seq<char>,
    result: RoundResult,
    timestamp: Seq<char>,
) -> Option<EffectView> {
    match other_party(room, chain) {
        Some(peer) => if is_chain_text(peer) {
            Some(
                EffectView::Send {
                    destination: canonical_text(peer),
                    message: round_notice(room, result, timestamp),
                },
            )
        } else {
            None
        },
        None => None,
    }
}

/// The announcement of the end of the match, where the round played in `room` ends it.
pub open spec fn match_end_effect(
    room: GameRoomView,
    result: RoundResult,
    timestamp: Seq<char>,
) -> Option<EffectView> {
    let after = room.after_round(result, timestamp);
    if room.round_winner(result) is Some {
        Some(
            EffectView::Emit {
                stream: stream_name_of(room.room_id),
                event: EventView::MatchEnded {
                    winner: after.winner,
                    blue_score: after.blue_score(),
                    red_score: after.red_score(),
                    timestamp,
                },
            },
        )
    } else {
        None
    }
}

/// The announcement of the round played in `room`.
pub open spec fn round_completed_effect(
    room: GameRoomView,
    result: RoundResult,
    timestamp: Seq<char>,
) -> EffectView {
    let after = room.after_round(result, timestamp);
    EffectView::Emit {
        stream: stream_name_of(room.room_id),
        event: EventView::RoundCompleted {
            round_number: room.current_round,
            result,
            blue_score: after.blue_score(),
            red_score: after.red_score(),
            timestamp,
        },
    }
}

/// The effects of a round reported by `chain` in `room`, in order: the round is
/// announced; the other party is told, where it has an address to be told at; and the end
/// of the match is announced, where the round ends it.
pub open spec fn report_effects(
    room: GameRoomView,
    chain: Seq<char>,
    result: RoundResult,
    timestamp: Seq<char>,
) -> Seq<EffectView> {
    seq![round_completed_effect(room, result, timestamp)] + listed(
        round_notice_effect(room, chain, result, timestamp),
    ) + listed(match_end_effect(room, result, timestamp))
}

/// Reporting a round: either of the two players may, while the match is in progress.
pub open spec fn report_round_step(
    state: StateView,
    chain: Seq<char>,
    result: RoundResult,
    timestamp: Seq<char>,
) -> Result<StepView, GameError> {
    match report_refusal(state, chain) {
        Some(error) => Err(error),
        None => {
            let room = state.room->0;
            Ok(
                StepView {
                    state: StateView { room: Some(room.after_round(result, timestamp)), ..state },
                    effects: report_effects(room, chain, result, timestamp),
                },
            )
        },
    }
}

/// The effects of the host leaving `room`: the red player, where there is one with an
/// address, is told that the room is gone and is no longer listened to.
pub open spec fn host_leave_effects(room: GameRoomView, timestamp: Seq<char>) -> Seq<EffectView> {
    match room.red_player {
        Some(red) => if is_chain_text(red.chain_id) {
            seq![
                EffectView::Send {
                    destination: canonical_text(red.chain_id),
                    message: MessageView::RoomDeleted { timestamp },
                },
                EffectView::Unsubscribe {
                    chain: canonical_text(red.chain_id),
                    stream: stream_name_of(room.room_id),
                },
            ]
        } else {
            Seq::empty()
        },
        None => Seq::empty(),
    }
}

/// The state after the host has left `room`: the room is gone, and so is the record of a
/// subscription where there was a red player to unsubscribe from.
pub open spec fn host_leave_state(state: StateView, room: GameRoomView) -> StateView {
    if room.red_player is Some {
        StateView::empty()
    } else {
        StateView { room: None, ..state }
    }
}

/// The effects of the guest `chain` leaving `room`: the host, where it has an address, is
/// told and is no longer listened to.
pub open spec fn guest_leave_effects(
    room: GameRoomView,
    chain: Seq<char>,
    timestamp: Seq<char>,
) -> Seq<EffectView> {
    if is_chain_text(room.host_chain_id) {
        seq![
            EffectView::Send {
                destination: canonical_text(room.host_chain_id),
                message: MessageView::PlayerLeftNotification { player_chain_id: chain, timestamp },
            },
            EffectView::Unsubscribe {
                chain: canonical_text(room.host_chain_id),
                stream: stream_name_of(room.room_id),
            },
        ]
    } else {
        Seq::empty()
    }
}

/// Leaving: the host's leaving deletes the room, the guest's leaving frees its seat. Either
/// way this chain holds no room afterwards, and a guest no subscription.
pub open spec fn leave_lobby_step(
    state: StateView,
    chain: Seq<char>,
    timestamp: Seq<char>,
) -> Result<StepView, GameError> {
    match state.room {
        None => Err(GameError::NoActiveRoom),
        Some(room) => match room.role_of(chain) {
            Role::Host => Ok(
                StepView {
                    state: host_leave_state(state, room),
                    effects: host_leave_effects(room, timestamp),
                },
            ),
            Role::Guest => Ok(
                StepView {
                    state: StateView::empty(),
                    effects: guest_leave_effects(room, chain, timestamp),
                },
            ),
            Role::Stranger => Err(GameError::NotAuthorized),
        },
    }
}

/// What an action of the player on the chain `chain` does, at the time `timestamp`.
pub open spec fn operation_step(
    state: StateView,
    chain: Seq<char>,
    operation: OperationView,
    timestamp: Seq<char>,
) -> Result<StepView, GameError> {
    match operation {
        OperationView::CreateLobby { host_name } => create_lobby_step(
            state,
            chain,
            host_name,
            timestamp,
        ),
        OperationView::JoinLobby { host_chain_id, player_name } => join_lobby_step(
            state,
            chain,
            host_chain_id,
            player_name,
        ),
        OperationView::ReportRoundResult { result } => report_round_step(
            state,
            chain,
            result,
            timestamp,
        ),
        OperationView::LeaveLobby => leave_lobby_step(state, chain, timestamp),
    }
}

/// Whether the numbers that `operation` would write can be held in 32 bits. Only an
/// accepted report of a round writes numbers.
pub open spec fn operation_in_range(
    state: StateView,
    chain: Seq<char>,
    operation: OperationView,
    timestamp: Seq<char>,
) -> bool {
    match operation_step(state, chain, operation, timestamp) {
        Ok(step) => step.state.room is Some ==> step.state.room->0.in_range(),
        Err(_) => true,
    }
}

/// A request to join arrives: the requester is seated as red, listened to unless it is the
/// peer already recorded, and sent the room as it now stands; the joining and the start of
/// the match are announced. A chain without a room, or with a full one, refuses and
/// answers nothing.
pub open spec fn join_request_step(
    state: StateView,
    player_chain_id: Seq<char>,
    player_name: Seq<char>,
    timestamp: Seq<char>,
) -> Result<StepView, GameError> {
    match state.room {
        None => Err(GameError::NoActiveRoom),
        Some(room) => if room.red_player is Some {
            Err(GameError::RoomFull)
        } else {
            let joined = room.joined_by(player_chain_id, player_name);
            let stream = stream_name_of(room.room_id);
            Ok(
                StepView {
                    state: StateView {
                        room: Some(joined),
                        ..state.after_subscribe_at(player_chain_id)
                    },
                    effects: listed(state.subscribe_effect_at(player_chain_id, stream)) + seq![
                        EffectView::Send {
                            destination: player_chain_id,
                            message: MessageView::InitialStateSync { room_data: joined },
                        },
                        EffectView::Emit {
                            stream,
                            event: EventView::PlayerJoined {
                                player: joined.red_player->0,
                                timestamp,
                            },
                        },
                        EffectView::Emit {
                            stream,
                            event: EventView::MatchStarted {
                                blue_player_name: room.blue_player.name,
                                red_player_name: player_name,
                                timestamp,
                            },
                        },
                    ],
                },
            )
        },
    }
}

/// The host's copy of the room arrives: it becomes the local copy, and the host's stream
/// is subscribed to unless it already is.
pub open spec fn initial_sync_step(state: StateView, room_data: GameRoomView) -> StepView {
    StepView {
        state: StateView {
            room: Some(room_data),
            ..state.after_subscribe(room_data.host_chain_id)
        },
        effects: listed(
            state.subscribe_effect(room_data.host_chain_id, stream_name_of(room_data.room_id)),
        ),
    }
}

/// The other party's report of a round arrives: its numbers replace the local ones.
pub open spec fn round_result_step(
    state: StateView,
    round_number: nat,
    result: RoundResult,
    blue_score: nat,
    red_score: nat,
    timestamp: Seq<char>,
) -> Result<StepView, GameError> {
    match state.room {
        None => Err(GameError::NoActiveRoom),
        Some(room) => Ok(
            StepView {
                state: StateView {
                    room: Some(
                        room.after_reported_round(
                            round_number,
                            result,
                            blue_score,
                            red_score,
                            timestamp,
                        ),
                    ),
                    ..state
                },
                effects: Seq::empty(),
            },
        ),
    }
}

/// The other party's report of the end of the match arrives.
pub open spec fn match_end_step(
    state: StateView,
    winner: Option<Team>,
    blue_score: nat,
    red_score: nat,
) -> Result<StepView, GameError> {
    match state.room {
        None => Err(GameError::NoActiveRoom),
        Some(room) => Ok(
            StepView {
                state: StateView {
                    room: Some(room.after_reported_end(winner, blue_score, red_score)),
                    ..state
                },
                effects: Seq::empty(),
            },
        ),
    }
}

/// The host has deleted the room: the host is no longer listened to, and neither room nor
/// subscription is kept.
pub open spec fn room_deleted_step(state: StateView) -> StepView {
    StepView {
        state: StateView::empty(),
        effects: match state.room {
            Some(room) => listed(
                unsubscribe_effect(room.host_chain_id, stream_name_of(room.room_id)),
            ),
            None => Seq::empty(),
        },
    }
}

/// The red player has left: it is no longer listened to and no subscription is recorded
/// any more, its seat is free again, and its leaving is announced. The room stays.
pub open spec fn player_left_step(
    state: StateView,
    player_chain_id: Seq<char>,
    timestamp: Seq<char>,
) -> Result<StepView, GameError> {
    match state.room {
        None => Err(GameError::NoActiveRoom),
        Some(room) => {
            let stream = stream_name_of(room.room_id);
            Ok(
                StepView {
                    state: StateView { room: Some(room.vacated()), subscribed_to_host: None },
                    effects: listed(unsubscribe_effect(player_chain_id, stream)) + seq![
                        EffectView::Emit {
                            stream,
                            event: EventView::PlayerLeft { player_chain_id, timestamp },
                        },
                    ],
                },
            )
        },
    }
}

/// What a message from another chain does, when it arrives at the time `timestamp`.
pub open spec fn message_step(
    state: StateView,
    message: MessageView,
    timestamp: Seq<char>,
) -> Result<StepView, GameError> {
    match message {
        MessageView::JoinRequest { player_chain_id, player_name } => join_request_step(
            state,
            player_chain_id,
            player_name,
            timestamp,
        ),
        MessageView::InitialStateSync { room_data } => Ok(initial_sync_step(state, room_data)),
        MessageView::RoundResultNotification {
            round_number,
            result,
            blue_score,
            red_score,
            timestamp: reported_at,
        } => round_result_step(state, round_number, result, blue_score, red_score, reported_at),
        MessageView::MatchEndNotification {
            winner,
            blue_score,
            red_score,
            timestamp: _,
        } => match_end_step(state, winner, blue_score, red_score),
        MessageView::RoomDeleted { timestamp: _ } => Ok(room_deleted_step(state)),
        MessageView::PlayerLeftNotification { player_chain_id, timestamp: left_at } => {
            player_left_step(state, player_chain_id, left_at)
        },
    }
}

/// Whether the numbers that `message` would write can be held in 32 bits. Only the number
/// of the round after a reported one can fail to.
pub open spec fn message_in_range(
    state: StateView,
    message: MessageView,
    timestamp: Seq<char>,
) -> bool {
    match message_step(state, message, timestamp) {
        Ok(step) => step.state.room is Some ==> step.state.room->0.in_range(),
        Err(_) => true,
    }
}

/// Whether `outcome`, with `after` as the state it left, is what `step` prescribes from the
/// state `before`: the prescribed state and effects, or the prescribed refusal and the
/// state as it was.
pub open spec fn outcome_matches(
    step: Result<StepView, GameError>,
    before: StateView,
    after: StateView,
    outcome: Result<Vec<Effect>, GameError>,
) -> bool {
    match outcome {
        Ok(effects) => step == Ok::<StepView, GameError>(
            StepView { state: after, effects: effects_view(effects@) },
        ),
        Err(error) => step == Err::<StepView, GameError>(error) && after == before,
    }
}

impl HoverWarsContract {
    /// The contract of the chain `chain_id`, before anything has happened on it.
    pub fn new(chain_id: ChainAddress) -> (contract: Self)
        ensures
            contract.state@ == StateView::empty(),
            contract.chain_id@ == chain_id@,
    {
        HoverWarsContract { state: HoverWarsState::new(), chain_id }
    }

    /// Forgets the room and the subscription.
    pub fn instantiate(&mut self)
        ensures
            final(self).state@ == StateView::empty(),
            final(self).chain_id@ == old(self).chain_id@,
    {
        self.state.room = None;
        self.state.subscribed_to_host = None;
    }

    /// Subscribes to the stream of the local room on the chain `player_chain_id`, unless
    /// that chain is the peer already recorded, and records it. Nothing is asked for and
    /// nothing recorded without a room, or where `player_chain_id` is no chain address.
    pub fn subscribe_to_player(&mut self, player_chain_id: &str) -> (effect: Option<Effect>)
        ensures
            old(self).state@.room is None ==> effect is None && final(self).state@ == old(
                self,
            ).state@,
            old(self).state@.room is Some ==> effect_option_view(effect) == old(
                self,
            ).state@.subscribe_effect(
                player_chain_id@,
                stream_name_of(old(self).state@.room->0.room_id),
            ) && final(self).state@ == old(self).state@.after_subscribe(player_chain_id@),
            old(self).state@.room is Some && is_canonical_text(player_chain_id@)
                ==> effect_option_view(effect) == old(self).state@.subscribe_effect_at(
                player_chain_id@,
                stream_name_of(old(self).state@.room->0.room_id),
            ) && final(self).state@ == old(self).state@.after_subscribe_at(player_chain_id@),
            final(self).chain_id@ == old(self).chain_id@,
    {
        let stream = match &self.state.room {
            Some(room) => stream_name(room.room_id.as_str()),
            None => {
                return None;
            },
        };
        let peer = player_chain_id.to_owned();
        self.state.subscribe(&peer, stream)
    }

    /// Opens a lobby with this chain as its host. A chain that holds a room is refused.
    pub fn create_lobby(&mut self, host_name: String, timestamp: String) -> (outcome: Result<
        Vec<Effect>,
        GameError,
    >)
        ensures
            outcome_matches(
                create_lobby_step(old(self).state@, old(self).chain_id@, host_name@, timestamp@),
                old(self).state@,
                final(self).state@,
                outcome,
            ),
            final(self).chain_id@ == old(self).chain_id@,
    {
        if self.state.room.is_some() {
            return Err(GameError::AlreadyInRoom);
        }
        let host_chain_id = self.chain_id.to_string();
        let room = GameRoom::new(host_chain_id.clone(), host_name, timestamp);
        self.state.room = Some(room);
        let mut effects: Vec<Effect> = Vec::new();
        if let Some(effect) = self.subscribe_to_player(host_chain_id.as_str()) {
            effects.push(effect);
        }
        assert(effects_view(effects@) =~= create_lobby_step(
            old(self).state@,
            old(self).chain_id@,
            host_name@,
            timestamp@,
        )->Ok_0.effects);
        Ok(effects)
    }

    /// Asks the host on `host_chain_id` for a seat.
    pub fn join_lobby(&self, host_chain_id: String, player_name: String) -> (outcome: Result<
        Vec<Effect>,
        GameError,
    >)
        ensures
            outcome_matches(
                join_lobby_step(self.state@, self.chain_id@, host_chain_id@, player_name@),
                self.state@,
                self.state@,
                outcome,
            ),
    {
        match ChainAddress::parse(host_chain_id.as_str()) {
            Some(destination) => {
                let message = CrossChainMessage::JoinRequest {
                    player_chain_id: self.chain_id.clone(),
                    player_name,
                };
                let mut effects: Vec<Effect> = Vec::new();
                effects.push(Effect::Send { destination, message });
                assert(effects_view(effects@) =~= join_lobby_step(
                    self.state@,
                    self.chain_id@,
                    host_chain_id@,
                    player_name@,
                )->Ok_0.effects);
                Ok(effects)
            },
            None => Err(GameError::InvalidAddress),
        }
    }

    /// Reports the result of the round being played.
    pub fn report_round_result(&mut self, result: RoundResult, timestamp: String) -> (outcome:
        Result<Vec<Effect>, GameError>)
        requires
            operation_in_range(
                old(self).state@,
                old(self).chain_id@,
                OperationView::ReportRoundResult { result },
                timestamp@,
            ),
        ensures
            outcome_matches(
                report_round_step(old(self).state@, old(self).chain_id@, result, timestamp@),
                old(self).state@,
                final(self).state@,
                outcome,
            ),
            final(self).chain_id@ == old(self).chain_id@,
    {
        let chain = self.chain_id.to_string();
        let role = match &self.state.room {
            Some(room) => {
                let role = room.role_of(&chain);
                if role == Role::Stranger {
                    return Err(GameError::NotAuthorized);
                }
                if room.match_state != MatchState::InProgress {
                    return Err(GameError::MatchNotInProgress);
                }
                role
            },
            None => {
                return Err(GameError::NoActiveRoom);
            },
        };
        let mut room = self.state.room.take().unwrap();
        let ghost before = room@;
        let round_number = room.current_round;
        let ended = room.apply_round_result(result, timestamp.clone());
        let blue_score = room.get_blue_score();
        let red_score = room.get_red_score();
        let mut effects: Vec<Effect> = Vec::new();
        effects.push(
            Effect::Emit {
                stream: stream_name(room.room_id.as_str()),
                event: HoverWarsEvent::RoundCompleted {
                    round_number,
                    result,
                    blue_score,
                    red_score,
                    timestamp: timestamp.clone(),
                },
            },
        );
        let peer = if role == Role::Host {
            match &room.red_player {
                Some(red) => ChainAddress::parse(red.chain_id.as_str()),
                None => None,
            }
        } else {
            ChainAddress::parse(room.host_chain_id.as_str())
        };
        if let Some(destination) = peer {
            let message = if ended {
                CrossChainMessage::MatchEndNotification {
                    winner: room.winner,
                    blue_score,
                    red_score,
                    timestamp: timestamp.clone(),
                }
            } else {
                CrossChainMessage::RoundResultNotification {
                    round_number,
                    result,
                    blue_score,
                    red_score,
                    timestamp: timestamp.clone(),
                }
            };
            effects.push(Effect::Send { destination, message });
        }
        if ended {
            effects.push(
                Effect::Emit {
                    stream: stream_name(room.room_id.as_str()),
                    event: HoverWarsEvent::MatchEnded {
                        winner: room.winner,
                        blue_score,
                        red_score,
                        timestamp,
                    },
                },
            );
        }
        assert(effects_view(effects@) =~= report_effects(
            before,
            old(self).chain_id@,
            result,
            timestamp@,
        ));
        self.state.room = Some(room);
        Ok(effects)
    }

    /// Leaves the room.
    pub fn leave_lobby(&mut self, timestamp: String) -> (outcome: Result<Vec<Effect>, GameError>)
        ensures
            outcome_matches(
                leave_lobby_step(old(self).state@, old(self).chain_id@, timestamp@),
                old(self).state@,
                final(self).state@,
                outcome,
            ),
            final(self).chain_id@ == old(self).chain_id@,
    {
        let chain = self.chain_id.to_string();
        let role = match &self.state.room {
            Some(room) => room.role_of(&chain),
            None => {
                return Err(GameError::NoActiveRoom);
            },
        };
        if role == Role::Stranger {
            return Err(GameError::NotAuthorized);
        }
        let room = self.state.room.take().unwrap();
        let mut effects: Vec<Effect> = Vec::new();
        if role == Role::Host {
            if let Some(red) = &room.red_player {
                if let Some(red_chain) = ChainAddress::parse(red.chain_id.as_str()) {
                    effects.push(
                        Effect::Send {
                            destination: red_chain,
                            message: CrossChainMessage::RoomDeleted { timestamp },
                        },
                    );
                }
                let stream = stream_name(room.room_id.as_str());
                if let Some(effect) = self.state.unsubscribe(&red.chain_id, stream) {
                    effects.push(effect);
                }
            }
            assert(effects_view(effects@) =~= host_leave_effects(room@, timestamp@));
        } else {
            if let Some(host_chain) = ChainAddress::parse(room.host_chain_id.as_str()) {
                effects.push(
                    Effect::Send {
                        destination: host_chain,
                        message: CrossChainMessage::PlayerLeftNotification {
                            player_chain_id: chain,
                            timestamp,
                        },
                    },
                );
            }
            let stream = stream_name(room.room_id.as_str());
            if let Some(effect) = self.state.unsubscribe(&room.host_chain_id, stream) {
                effects.push(effect);
            }
            assert(effects_view(effects@) =~= guest_leave_effects(
                room@,
                old(self).chain_id@,
                timestamp@,
            ));
        }
        Ok(effects)
    }

    /// Whether `operation` can be carried out here: whether the numbers it would write can
    /// be held in 32 bits.
    pub fn operation_fits(&self, operation: &Operation) -> (fits: bool)
        ensures
            forall|timestamp: Seq<char>|
                fits == #[trigger] operation_in_range(
                    self.state@,
                    self.chain_id@,
                    operation@,
                    timestamp,
                ),
            self.state@.room_well_formed() ==> fits,
    {
        match operation {
            Operation::ReportRoundResult { result } => {
                let chain = self.chain_id.to_string();
                match &self.state.room {
                    Some(room) => {
                        if room.role_of(&chain) == Role::Stranger {
                            true
                        } else if room.match_state != MatchState::InProgress {
                            true
                        } else {
                            room.can_apply_round(*result)
                        }
                    },
                    None => true,
                }
            },
            _ => true,
        }
    }

    /// Whether `message` can be handled here: whether the numbers it would write can be
    /// held in 32 bits.
    pub fn message_fits(&self, message: &CrossChainMessage) -> (fits: bool)
        ensures
            forall|timestamp: Seq<char>|
                fits == #[trigger] message_in_range(self.state@, message@, timestamp),
    {
        match message {
            CrossChainMessage::RoundResultNotification { round_number, .. } => {
                self.state.room.is_none() || *round_number < u32::MAX
            },
            _ => true,
        }
    }

    /// Carries out an action of the player on this chain, at the time `timestamp`.
    pub fn execute_operation(&mut self, operation: Operation, timestamp: String) -> (outcome:
        Result<Vec<Effect>, GameError>)
        requires
            operation_in_range(old(self).state@, old(self).chain_id@, operation@, timestamp@),
        ensures
            outcome_matches(
                operation_step(old(self).state@, old(self).chain_id@, operation@, timestamp@),
                old(self).state@,
                final(self).state@,
                outcome,
            ),
            final(self).chain_id@ == old(self).chain_id@,
    {
        match operation {
            Operation::CreateLobby { host_name } => self.create_lobby(host_name, timestamp),
            Operation::JoinLobby { host_chain_id, player_name } => self.join_lobby(
                host_chain_id,
                player_name,
            ),
            Operation::ReportRoundResult { result } => self.report_round_result(result, timestamp),
            Operation::LeaveLobby => self.leave_lobby(timestamp),
        }
    }

    /// Handles a request to join the local room.
    pub fn receive_join_request(
        &mut self,
        player_chain_id: ChainAddress,
        player_name: String,
        timestamp: String,
    ) -> (outcome: Result<Vec<Effect>, GameError>)
        ensures
            outcome_matches(
                join_request_step(old(self).state@, player_chain_id@, player_name@, timestamp@),
                old(self).state@,
                final(self).state@,
                outcome,
            ),
            final(self).chain_id@ == old(self).chain_id@,
    {
        let mut room = match self.state.room.take() {
            Some(room) => room,
            None => {
                return Err(GameError::NoActiveRoom);
            },
        };
        if let Err(error) = room.add_red_player(player_chain_id.to_string(), player_name.clone()) {
            self.state.room = Some(room);
            return Err(error);
        }
        let snapshot = room.clone();
        let new_player = room.red_player.as_ref().unwrap().clone();
        let blue_player_name = room.blue_player.name.clone();
        let joined_stream = stream_name(room.room_id.as_str());
        let started_stream = stream_name(room.room_id.as_str());
        self.state.room = Some(room);
        let mut effects: Vec<Effect> = Vec::new();
        if let Some(effect) = self.subscribe_to_player(player_chain_id.as_str()) {
            effects.push(effect);
        }
        effects.push(
            Effect::Send {
                destination: player_chain_id,
                message: CrossChainMessage::InitialStateSync { room_data: snapshot },
            },
        );
        effects.push(
            Effect::Emit {
                stream: joined_stream,
                event: HoverWarsEvent::PlayerJoined {
                    player: new_player,
                    timestamp: timestamp.clone(),
                },
            },
        );
        effects.push(
            Effect::Emit {
                stream: started_stream,
                event: HoverWarsEvent::MatchStarted {
                    blue_player_name,
                    red_player_name: player_name,
                    timestamp,
                },
            },
        );
        assert(effects_view(effects@) =~= join_request_step(
            old(self).state@,
            player_chain_id@,
            player_name@,
            timestamp@,
        )->Ok_0.effects);
        Ok(effects)
    }

    /// Takes over the room as the host sent it.
    pub fn receive_initial_state(&mut self, room_data: GameRoom) -> (effects: Vec<Effect>)
        ensures
            initial_sync_step(old(self).state@, room_data@) == (StepView {
                state: final(self).state@,
                effects: effects_view(effects@),
            }),
            final(self).chain_id@ == old(self).chain_id@,
    {
        let stream = stream_name(room_data.room_id.as_str());
        let mut effects: Vec<Effect> = Vec::new();
        if let Some(effect) = self.state.subscribe(&room_data.host_chain_id, stream) {
            effects.push(effect);
        }
        self.state.room = Some(room_data);
        assert(effects_view(effects@) =~= initial_sync_step(old(self).state@, room_data@).effects);
        effects
    }

    /// Takes over a round as the other party reported it.
    pub fn receive_round_result(
        &mut self,
        round_number: u32,
        result: RoundResult,
        blue_score: u32,
        red_score: u32,
        timestamp: String,
    ) -> (outcome: Result<Vec<Effect>, GameError>)
        requires
            old(self).state@.room is Some ==> round_number < u32::MAX,
        ensures
            outcome_matches(
                round_result_step(
                    old(self).state@,
                    round_number as nat,
                    result,
                    blue_score as nat,
                    red_score as nat,
                    timestamp@,
                ),
                old(self).state@,
                final(self).state@,
                outcome,
            ),
            final(self).chain_id@ == old(self).chain_id@,
    {
        let mut room = match self.state.room.take() {
            Some(room) => room,
            None => {
                return Err(GameError::NoActiveRoom);
            },
        };
        room.record_reported_round(round_number, result, blue_score, red_score, timestamp);
        self.state.room = Some(room);
        let effects: Vec<Effect> = Vec::new();
        assert(effects_view(effects@) =~= Seq::empty());
        Ok(effects)
    }

    /// Takes over the end of the match as the other party reported it.
    pub fn receive_match_end(
        &mut self,
        winner: Option<Team>,
        blue_score: u32,
        red_score: u32,
    ) -> (outcome: Result<Vec<Effect>, GameError>)
        ensures
            outcome_matches(
                match_end_step(old(self).state@, winner, blue_score as nat, red_score as nat),
                old(self).state@,
                final(self).state@,
                outcome,
            ),
            final(self).chain_id@ == old(self).chain_id@,
    {
        let mut room = match self.state.room.take() {
            Some(room) => room,
            None => {
                return Err(GameError::NoActiveRoom);
            },
        };
        room.record_reported_end(winner, blue_score, red_score);
        self.state.room = Some(room);
        let effects: Vec<Effect> = Vec::new();
        assert(effects_view(effects@) =~= Seq::empty());
        Ok(effects)
    }

    /// Drops the room that the host has deleted.
    pub fn receive_room_deleted(&mut self) -> (effects: Vec<Effect>)
        ensures
            room_deleted_step(old(self).state@) == (StepView {
                state: final(self).state@,
                effects: effects_view(effects@),
            }),
            final(self).chain_id@ == old(self).chain_id@,
    {
        let mut effects: Vec<Effect> = Vec::new();
        if let Some(room) = self.state.room.take() {
            let stream = stream_name(room.room_id.as_str());
            if let Some(effect) = self.state.unsubscribe(&room.host_chain_id, stream) {
                effects.push(effect);
            }
        }
        self.state.subscribed_to_host = None;
        assert(effects_view(effects@) =~= room_deleted_step(old(self).state@).effects);
        effects
    }

    /// Frees the seat of the red player, who has left.
    pub fn receive_player_left(&mut self, player_chain_id: String, timestamp: String) -> (outcome:
        Result<Vec<Effect>, GameError>)
        ensures
            outcome_matches(
                player_left_step(old(self).state@, player_chain_id@, timestamp@),
                old(self).state@,
                final(self).state@,
                outcome,
            ),
            final(self).chain_id@ == old(self).chain_id@,
    {
        let mut room = match self.state.room.take() {
            Some(room) => room,
            None => {
                return Err(GameError::NoActiveRoom);
            },
        };
        let mut effects: Vec<Effect> = Vec::new();
        let stream = stream_name(room.room_id.as_str());
        if let Some(effect) = self.state.unsubscribe(&player_chain_id, stream) {
            effects.push(effect);
        }
        room.remove_red_player();
        effects.push(
            Effect::Emit {
                stream: stream_name(room.room_id.as_str()),
                event: HoverWarsEvent::PlayerLeft { player_chain_id, timestamp },
            },
        );
        self.state.room = Some(room);
        assert(effects_view(effects@) =~= player_left_step(
            old(self).state@,
            player_chain_id@,
            timestamp@,
        )->Ok_0.effects);
        Ok(effects)
    }

    /// Handles a message from another chain, arriving at the time `timestamp`.
    pub fn execute_message(&mut self, message: CrossChainMessage, timestamp: String) -> (outcome:
        Result<Vec<Effect>, GameError>)
        requires
            message_in_range(old(self).state@, message@, timestamp@),
        ensures
            outcome_matches(
                message_step(old(self).state@, message@, timestamp@),
                old(self).state@,
                final(self).state@,
                outcome,
            ),
            final(self).chain_id@ == old(self).chain_id@,
    {
        match message {
            CrossChainMessage::JoinRequest { player_chain_id, player_name } => {
                self.receive_join_request(player_chain_id, player_name, timestamp)
            },
            CrossChainMessage::InitialStateSync { room_data } => Ok(
                self.receive_initial_state(room_data),
            ),
            CrossChainMessage::RoundResultNotification {
                round_number,
                result,
                blue_score,
                red_score,
                timestamp: reported_at,
            } => {
                self.receive_round_result(round_number, result, blue_score, red_score, reported_at)
            },
            CrossChainMessage::MatchEndNotification {
                winner,
                blue_score,
                red_score,
                timestamp: _,
            } => self.receive_match_end(winner, blue_score, red_score),
            CrossChainMessage::RoomDeleted { timestamp: _ } => Ok(self.receive_room_deleted()),
            CrossChainMessage::PlayerLeftNotification { player_chain_id, timestamp: left_at } => {
                self.receive_player_left(player_chain_id, left_at)
            },
        }
    }
}

} // verus!
