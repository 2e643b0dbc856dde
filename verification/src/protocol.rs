//! The vocabulary of the protocol: what a player may ask for, what the two chains tell
//! each other, what is announced to observers, and what a step asks its surroundings to do.

use crate::address::ChainAddress;
use crate::room::{
    GameRoom, GameRoomView, Player, PlayerView, RoundResult, Team,
};
use vstd::prelude::*;

verus! {

/// The actions that a player may take on their own chain.
#[derive(Debug)]
pub enum Operation {
    CreateLobby { host_name: String },
    JoinLobby { host_chain_id: String, player_name: String },
    ReportRoundResult { result: RoundResult },
    LeaveLobby,
}

/// The mathematical value of an [`Operation`].
pub enum OperationView {
    CreateLobby { host_name: Seq<char> },
    JoinLobby { host_chain_id: Seq<char>, player_name: Seq<char> },
    ReportRoundResult { result: RoundResult },
    LeaveLobby,
}

impl View for Operation {
    type V = OperationView;

    open spec fn view(&self) -> OperationView {
        match *self {
            Operation::CreateLobby { host_name } => OperationView::CreateLobby {
                host_name: host_name@,
            },
            Operation::JoinLobby { host_chain_id, player_name } => OperationView::JoinLobby {
                host_chain_id: host_chain_id@,
                player_name: player_name@,
            },
            Operation::ReportRoundResult { result } => OperationView::ReportRoundResult { result },
            Operation::LeaveLobby => OperationView::LeaveLobby,
        }
    }
}

/// What is announced on a room's stream for observers.
#[derive(Debug)]
pub enum HoverWarsEvent {
    PlayerJoined { player: Player, timestamp: String },
    MatchStarted { blue_player_name: String, red_player_name: String, timestamp: String },
    RoundCompleted {
        round_number: u32,
        result: RoundResult,
        blue_score: u32,
        red_score: u32,
        timestamp: String,
    },
    MatchEnded { winner: Option<Team>, blue_score: u32, red_score: u32, timestamp: String },
    PlayerLeft { player_chain_id: String, timestamp: String },
}

/// The mathematical value of a [`HoverWarsEvent`].
pub enum EventView {
    PlayerJoined { player: PlayerView, timestamp: Seq<char> },
    MatchStarted { blue_player_name: Seq<char>, red_player_name: Seq<char>, timestamp: Seq<char> },
    RoundCompleted {
        round_number: nat,
        result: RoundResult,
        blue_score: nat,
        red_score: nat,
        timestamp: Seq<char>,
    },
    MatchEnded { winner: Option<Team>, blue_score: nat, red_score: nat, timestamp: Seq<char> },
    PlayerLeft { player_chain_id: Seq<char>, timestamp: Seq<char> },
}

impl View for HoverWarsEvent {
    type V = EventView;

    open spec fn view(&self) -> EventView {
        match *self {
            HoverWarsEvent::PlayerJoined { player, timestamp } => EventView::PlayerJoined {
                player: player@,
                timestamp: timestamp@,
            },
            HoverWarsEvent::MatchStarted {
                blue_player_name,
                red_player_name,
                timestamp,
            } => EventView::MatchStarted {
                blue_player_name: blue_player_name@,
                red_player_name: red_player_name@,
                timestamp: timestamp@,
            },
            HoverWarsEvent::RoundCompleted {
                round_number,
                result,
                blue_score,
                red_score,
                timestamp,
            } => EventView::RoundCompleted {
                round_number: round_number as nat,
                result,
                blue_score: blue_score as nat,
                red_score: red_score as nat,
                timestamp: timestamp@,
            },
            HoverWarsEvent::MatchEnded {
                winner,
                blue_score,
                red_score,
                timestamp,
            } => EventView::MatchEnded {
                winner,
                blue_score: blue_score as nat,
                red_score: red_score as nat,
                timestamp: timestamp@,
            },
            HoverWarsEvent::PlayerLeft { player_chain_id, timestamp } => EventView::PlayerLeft {
                player_chain_id: player_chain_id@,
                timestamp: timestamp@,
            },
        }
    }
}

/// What one chain tells the other.
#[derive(Debug)]
#[allow(inconsistent_fields)]
pub enum CrossChainMessage {
    JoinRequest { player_chain_id: ChainAddress, player_name: String },
    InitialStateSync { room_data: GameRoom },
    RoundResultNotification {
        round_number: u32,
        result: RoundResult,
        blue_score: u32,
        red_score: u32,
        timestamp: String,
    },
    MatchEndNotification {
        winner: Option<Team>,
        blue_score: u32,
        red_score: u32,
        timestamp: String,
    },
    RoomDeleted { timestamp: String },
    PlayerLeftNotification { player_chain_id: String, timestamp: String },
}

/// The mathematical value of a [`CrossChainMessage`].
pub enum MessageView {
    JoinRequest { player_chain_id: Seq<char>, player_name: Seq<char> },
    InitialStateSync { room_data: GameRoomView },
    RoundResultNotification {
        round_number: nat,
        result: RoundResult,
        blue_score: nat,
        red_score: nat,
        timestamp: Seq<char>,
    },
    MatchEndNotification {
        winner: Option<Team>,
        blue_score: nat,
        red_score: nat,
        timestamp: Seq<char>,
    },
    RoomDeleted { timestamp: Seq<char> },
    PlayerLeftNotification { player_chain_id: Seq<char>, timestamp: Seq<char> },
}

impl View for CrossChainMessage {
    type V = MessageView;

    open spec fn view(&self) -> MessageView {
        match *self {
            CrossChainMessage::JoinRequest {
                player_chain_id,
                player_name,
            } => MessageView::JoinRequest {
                player_chain_id: player_chain_id@,
                player_name: player_name@,
            },
            CrossChainMessage::InitialStateSync { room_data } => MessageView::InitialStateSync {
                room_data: room_data@,
            },
            CrossChainMessage::RoundResultNotification {
                round_number,
                result,
                blue_score,
                red_score,
                timestamp,
            } => MessageView::RoundResultNotification {
                round_number: round_number as nat,
                result,
                blue_score: blue_score as nat,
                red_score: red_score as nat,
                timestamp: timestamp@,
            },
            CrossChainMessage::MatchEndNotification {
                winner,
                blue_score,
                red_score,
                timestamp,
            } => MessageView::MatchEndNotification {
                winner,
                blue_score: blue_score as nat,
                red_score: red_score as nat,
                timestamp: timestamp@,
            },
            CrossChainMessage::RoomDeleted { timestamp } => MessageView::RoomDeleted {
                timestamp: timestamp@,
            },
            CrossChainMessage::PlayerLeftNotification {
                player_chain_id,
                timestamp,
            } => MessageView::PlayerLeftNotification {
                player_chain_id: player_chain_id@,
                timestamp: timestamp@,
            },
        }
    }
}

/// What a step asks its surroundings to do, in the order in which it is to be done.
#[derive(Debug)]
pub enum Effect {
    /// Start listening to a stream of the chain `chain`.
    Subscribe { chain: ChainAddress, stream: String },
    /// Stop listening to a stream of the chain `chain`.
    Unsubscribe { chain: ChainAddress, stream: String },
    /// Send `message` to the chain `destination`.
    Send { destination: ChainAddress, message: CrossChainMessage },
    /// Announce `event` on a stream of this chain.
    Emit { stream: String, event: HoverWarsEvent },
}

/// The mathematical value of an [`Effect`].
pub enum EffectView {
    Subscribe { chain: Seq<char>, stream: Seq<char> },
    Unsubscribe { chain: Seq<char>, stream: Seq<char> },
    Send { destination: Seq<char>, message: MessageView },
    Emit { stream: Seq<char>, event: EventView },
}

impl View for Effect {
    type V = EffectView;

    open spec fn view(&self) -> EffectView {
        match *self {
            Effect::Subscribe { chain, stream } => EffectView::Subscribe {
                chain: chain@,
                stream: stream@,
            },
            Effect::Unsubscribe { chain, stream } => EffectView::Unsubscribe {
                chain: chain@,
                stream: stream@,
            },
            Effect::Send { destination, message } => EffectView::Send {
                destination: destination@,
                message: message@,
            },
            Effect::Emit { stream, event } => EffectView::Emit { stream: stream@, event: event@ },
        }
    }
}

/// The values of a list of effects, in order.
pub open spec fn effects_view(effects: Seq<Effect>) -> Seq<EffectView> {
    effects.map_values(|effect: Effect| effect@)
}

/// The name of the stream on which a room's events are announced.
pub open spec fn stream_name_of(room_id: Seq<char>) -> Seq<char> {
    "game_events_"@ + room_id
}

/// The name of the stream on which the events of the room `room_id` are announced. Both
/// chains compute it alike from the room's name.
pub fn stream_name(room_id: &str) -> (name: String)
    ensures
        name@ == stream_name_of(room_id@),
{
    let mut name = "game_events_".to_owned();
    name.append(room_id);
    name
}

} // verus!
