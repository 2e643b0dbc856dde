//! What one chain remembers between steps: its copy of the room, and the host to whose
//! stream it listens.

use crate::address::{canonical_text, is_canonical_text, is_chain_text, ChainAddress};
use crate::protocol::{Effect, EffectView};
use crate::room::{GameRoom, GameRoomView};
use vstd::prelude::*;

verus! {

/// The state of one chain.
#[derive(Debug)]
pub struct HoverWarsState {
    /// This chain's copy of the room, if it is in one.
    pub room: Option<GameRoom>,
    /// The host to whose stream this chain has subscribed, kept so that it subscribes once.
    pub subscribed_to_host: Option<String>,
}

/// The mathematical value of a [`HoverWarsState`].
pub struct StateView {
    pub room: Option<GameRoomView>,
    pub subscribed_to_host: Option<Seq<char>>,
}

/// The value of a room that may be absent.
pub open spec fn room_option_view(room: Option<GameRoom>) -> Option<GameRoomView> {
    match room {
        Some(r) => Some(r@),
        None => None,
    }
}

/// The value of a text that may be absent.
pub open spec fn text_option_view(text: Option<String>) -> Option<Seq<char>> {
    match text {
        Some(t) => Some(t@),
        None => None,
    }
}

/// The value of an effect that may be absent.
pub open spec fn effect_option_view(effect: Option<Effect>) -> Option<EffectView> {
    match effect {
        Some(e) => Some(e@),
        None => None,
    }
}

impl View for HoverWarsState {
    type V = StateView;

    open spec fn view(&self) -> StateView {
        StateView {
            room: room_option_view(self.room),
            subscribed_to_host: text_option_view(self.subscribed_to_host),
        }
    }
}

impl StateView {
    /// The state of a chain that has not done anything yet.
    pub open spec fn empty() -> StateView {
        StateView { room: None, subscribed_to_host: None }
    }

    /// Whether the room held, if there is one, is well formed.
    pub open spec fn room_well_formed(self) -> bool {
        self.room is Some ==> self.room->0.well_formed()
    }

    /// Whether a request to subscribe to `peer` leads to a subscription: `peer` is a chain
    /// address, and not the one already recorded.
    pub open spec fn subscribes_to(self, peer: Seq<char>) -> bool {
        self.subscribed_to_host != Some(peer) && is_chain_text(peer)
    }

    /// The subscription that a request to subscribe to `peer` asks for, if any.
    pub open spec fn subscribe_effect(self, peer: Seq<char>, stream: Seq<char>) -> Option<
        EffectView,
    > {
        if self.subscribes_to(peer) {
            Some(EffectView::Subscribe { chain: canonical_text(peer), stream })
        } else {
            None
        }
    }

    /// The state after a request to subscribe to `peer`.
    pub open spec fn after_subscribe(self, peer: Seq<char>) -> StateView {
        if self.subscribes_to(peer) {
            StateView { subscribed_to_host: Some(peer), ..self }
        } else {
            self
        }
    }

    /// The subscription that a request to subscribe to the chain at the address `chain`
    /// asks for: none where `chain` is the peer already recorded.
    pub open spec fn subscribe_effect_at(self, chain: Seq<char>, stream: Seq<char>) -> Option<
        EffectView,
    > {
        if self.subscribed_to_host == Some(chain) {
            None
        } else {
            Some(EffectView::Subscribe { chain, stream })
        }
    }

    /// The state after a request to subscribe to the chain at the address `chain`: `chain`
    /// is the peer recorded.
    pub open spec fn after_subscribe_at(self, chain: Seq<char>) -> StateView {
        StateView { subscribed_to_host: Some(chain), ..self }
    }

    /// The state after a request to unsubscribe: nothing is recorded any more.
    pub open spec fn after_unsubscribe(self) -> StateView {
        StateView { subscribed_to_host: None, ..self }
    }
}

/// What a request to stop listening to `peer` asks for: nothing where `peer` is no chain
/// address.
pub open spec fn unsubscribe_effect(peer: Seq<char>, stream: Seq<char>) -> Option<EffectView> {
    if is_chain_text(peer) {
        Some(EffectView::Unsubscribe { chain: canonical_text(peer), stream })
    } else {
        None
    }
}

impl HoverWarsState {
    /// The state of a chain that has not done anything yet.
    pub fn new() -> (state: Self)
        ensures
            state@ == StateView::empty(),
    {
        HoverWarsState { room: None, subscribed_to_host: None }
    }

    /// Subscribes to the stream `stream` of `peer`, unless `peer` is the peer already
    /// recorded, and records `peer`. A `peer` that is no chain address is neither
    /// subscribed to nor recorded.
    pub fn subscribe(&mut self, peer: &String, stream: String) -> (effect: Option<Effect>)
        ensures
            effect_option_view(effect) == old(self)@.subscribe_effect(peer@, stream@),
            final(self)@ == old(self)@.after_subscribe(peer@),
            is_canonical_text(peer@) ==> effect_option_view(effect) == old(
                self,
            )@.subscribe_effect_at(peer@, stream@) && final(self)@ == old(
                self,
            )@.after_subscribe_at(peer@),
    {
        let recorded = match &self.subscribed_to_host {
            Some(host) => *host == *peer,
            None => false,
        };
        if recorded {
            return None;
        }
        match ChainAddress::parse(peer.as_str()) {
            Some(chain) => {
                self.subscribed_to_host = Some(peer.clone());
                Some(Effect::Subscribe { chain, stream })
            },
            None => None,
        }
    }

    /// Unsubscribes from the stream `stream` of `peer` and clears the record, whatever it
    /// held. A `peer` that is no chain address cannot be unsubscribed from; the record is
    /// cleared all the same.
    pub fn unsubscribe(&mut self, peer: &String, stream: String) -> (effect: Option<Effect>)
        ensures
            effect_option_view(effect) == unsubscribe_effect(peer@, stream@),
            final(self)@ == old(self)@.after_unsubscribe(),
    {
        self.subscribed_to_host = None;
        match ChainAddress::parse(peer.as_str()) {
            Some(chain) => Some(Effect::Unsubscribe { chain, stream }),
            None => None,
        }
    }
}

} // verus!
