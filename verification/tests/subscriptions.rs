use hoverwars::{Effect, HoverWarsState};

fn text(s: &str) -> String {
    s.to_string()
}

fn chain_text(digit: char) -> String {
    digit.to_string().repeat(64)
}

#[test]
fn a_new_state_is_empty() {
    let state = HoverWarsState::new();
    assert!(state.room.is_none());
    assert!(state.subscribed_to_host.is_none());
}

#[test]
fn subscribing_twice_asks_once() {
    let mut state = HoverWarsState::new();
    let first = state.subscribe(&chain_text('a'), text("game_events_1"));
    match first {
        Some(Effect::Subscribe { chain, stream }) => {
            assert_eq!(chain.as_str(), chain_text('a'));
            assert_eq!(stream, "game_events_1");
        }
        other => panic!("not a subscription: {:?}", other),
    }
    assert_eq!(state.subscribed_to_host, Some(chain_text('a')));
    let second = state.subscribe(&chain_text('a'), text("game_events_1"));
    assert!(second.is_none());
    assert_eq!(state.subscribed_to_host, Some(chain_text('a')));
}

#[test]
fn subscribing_to_another_peer_replaces_the_record() {
    let mut state = HoverWarsState::new();
    assert!(state.subscribe(&chain_text('a'), text("s1")).is_some());
    assert!(state.subscribe(&chain_text('b'), text("s2")).is_some());
    assert_eq!(state.subscribed_to_host, Some(chain_text('b')));
    assert!(state.subscribe(&chain_text('a'), text("s1")).is_some());
    assert_eq!(state.subscribed_to_host, Some(chain_text('a')));
}

#[test]
fn the_record_keeps_the_text_as_given() {
    let mut state = HoverWarsState::new();
    let upper = "A".repeat(64);
    match state.subscribe(&upper, text("s")) {
        Some(Effect::Subscribe { chain, .. }) => assert_eq!(chain.as_str(), chain_text('a')),
        other => panic!("not a subscription: {:?}", other),
    }
    assert_eq!(state.subscribed_to_host, Some(upper.clone()));
    assert!(state.subscribe(&upper, text("s")).is_none());
    assert!(state.subscribe(&chain_text('a'), text("s")).is_some());
}

#[test]
fn an_unreadable_peer_is_neither_subscribed_to_nor_recorded() {
    let mut state = HoverWarsState::new();
    assert!(state.subscribe(&text("nowhere"), text("s")).is_none());
    assert!(state.subscribed_to_host.is_none());
    assert!(state.subscribe(&text("nowhere"), text("s")).is_none());
    assert!(state.subscribed_to_host.is_none());
}

#[test]
fn unsubscribing_clears_the_record() {
    let mut state = HoverWarsState::new();
    state.subscribe(&chain_text('a'), text("s"));
    match state.unsubscribe(&chain_text('a'), text("s")) {
        Some(Effect::Unsubscribe { chain, stream }) => {
            assert_eq!(chain.as_str(), chain_text('a'));
            assert_eq!(stream, "s");
        }
        other => panic!("not an unsubscription: {:?}", other),
    }
    assert!(state.subscribed_to_host.is_none());
    assert!(state.subscribe(&chain_text('a'), text("s")).is_some());
}

#[test]
fn unsubscribing_without_a_subscription_is_safe() {
    let mut state = HoverWarsState::new();
    let effect = state.unsubscribe(&chain_text('a'), text("s"));
    assert!(matches!(effect, Some(Effect::Unsubscribe { .. })));
    assert!(state.subscribed_to_host.is_none());
    assert!(state.room.is_none());
    let again = state.unsubscribe(&chain_text('a'), text("s"));
    assert!(matches!(again, Some(Effect::Unsubscribe { .. })));
    assert!(state.subscribed_to_host.is_none());
}

#[test]
fn unsubscribing_from_an_unreadable_peer_still_clears() {
    let mut state = HoverWarsState::new();
    state.subscribe(&chain_text('a'), text("s"));
    assert!(state.unsubscribe(&text("nowhere"), text("s")).is_none());
    assert!(state.subscribed_to_host.is_none());
}
