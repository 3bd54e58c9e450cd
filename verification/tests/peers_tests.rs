use hyperwarp::peers::{OfferOutcome, PeerConnectionState, PeerTable, SdpOutcome, StateOutcome, WebRTCPeer};

#[test]
fn a_new_peer_may_be_offered_to() {
    let mut p = WebRTCPeer::new("s1".to_string());
    assert!(p.may_offer);
    assert!(p.get_data_channels().is_empty());
    p.add_data_channel(3);
    p.add_data_channel(5);
    assert_eq!(p.get_data_channels(), &vec![3, 5]);
}

#[test]
fn provisioning_twice_keeps_one_peer() {
    let mut t = PeerTable::new();
    assert!(t.provision("a"));
    assert!(!t.provision("a"));
    assert!(t.provision("b"));
    assert_eq!(t.len(), 2);
    assert_eq!(t.ids(), vec!["a".to_string(), "b".to_string()]);
}

#[test]
fn one_offer_at_a_time() {
    let mut t = PeerTable::new();
    assert_eq!(t.offer_generation("a"), OfferOutcome::NotProvisioned);
    t.provision("a");
    assert_eq!(t.offer_generation("a"), OfferOutcome::Generate);
    assert_eq!(t.offer_generation("a"), OfferOutcome::AlreadyOffering);
    assert_eq!(t.sdp("a", "offer"), SdpOutcome::OfferIgnored);
    assert_eq!(t.sdp("a", "answer"), SdpOutcome::ProcessAnswer);
    assert_eq!(t.sdp("a", "offer"), SdpOutcome::ProcessOffer);
    assert_eq!(t.offer_generation("a"), OfferOutcome::Generate);
}

#[test]
fn session_descriptions() {
    let mut t = PeerTable::new();
    assert_eq!(t.sdp("x", "answer"), SdpOutcome::Dropped);
    t.provision("x");
    assert_eq!(t.sdp("x", "pranswer"), SdpOutcome::Unhandled);
    assert!(t.local_offer("x"));
    assert_eq!(t.sdp("x", "offer"), SdpOutcome::OfferIgnored);
    assert!(t.rtc_ready("x"));
    assert_eq!(t.sdp("x", "offer"), SdpOutcome::ProcessOffer);
    assert!(t.answer_ready("x"));
    assert!(!t.answer_ready("y"));
    assert!(!t.local_offer("y"));
    assert!(!t.rtc_ready("y"));
}

#[test]
fn disconnecting_releases_channels() {
    let mut t = PeerTable::new();
    t.provision("a");
    t.provision("b");
    assert!(t.add_channel("a", 1, true));
    assert!(t.add_channel("a", 2, false));
    assert!(t.add_channel("a", 3, true));
    assert!(!t.add_channel("z", 4, true));
    assert_eq!(t.state_change("a", PeerConnectionState::Connecting), StateOutcome::Unhandled);
    assert_eq!(t.state_change("a", PeerConnectionState::Connected), StateOutcome::Play);
    assert_eq!(t.state_change("a", PeerConnectionState::Failed), StateOutcome::Disconnect(vec![1, 3]));
    assert_eq!(t.state_change("a", PeerConnectionState::Closed), StateOutcome::Unknown);
    assert_eq!(t.ids(), vec!["b".to_string()]);
}

#[test]
fn connecting_allows_offers_again() {
    let mut t = PeerTable::new();
    t.provision("a");
    assert_eq!(t.offer_generation("a"), OfferOutcome::Generate);
    assert_eq!(t.state_change("a", PeerConnectionState::Connected), StateOutcome::Play);
    assert_eq!(t.offer_generation("a"), OfferOutcome::Generate);
}

#[test]
fn removing_after_an_error() {
    let mut t = PeerTable::new();
    t.provision("a");
    t.add_channel("a", 9, true);
    let p = t.remove("a").expect("peer");
    assert_eq!(p.id, "a");
    assert_eq!(p.data_channels, vec![9]);
    assert!(t.remove("a").is_none());
    assert_eq!(t.len(), 0);
}

#[test]
fn disconnected_peer_is_forgotten() {
    let mut t = PeerTable::new();
    t.provision("a");
    assert_eq!(t.state_change("a", PeerConnectionState::Disconnected), StateOutcome::Disconnect(vec![]));
    assert_eq!(t.offer_generation("a"), OfferOutcome::NotProvisioned);
    assert!(t.provision("a"));
}
