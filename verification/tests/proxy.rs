use isorelay::config::Service;
use isorelay::proxy::{Node, Pairing, PairingAction, PairingEvent};

#[test]
fn node_for_one_service() {
    let service = Service { src: "/tmp/$ID.raw".to_string(), dst: "/tmp/$ID.iso".to_string() };
    let defines = vec![("ID".to_string(), "svc1".to_string())];
    let node = Node::from_config(&service, &defines);
    assert_eq!(node.isolated_path(), "/tmp/svc1.iso");
    assert_eq!(node.raw_path(), "/tmp/svc1.raw");
}

#[test]
fn node_keeps_unmatched_names_in_its_paths() {
    let service = Service { src: "/tmp/$WHO".to_string(), dst: "$".to_string() };
    let node = Node::from_config(&service, &[]);
    assert_eq!(node.raw_path(), "/tmp/$WHO");
    assert_eq!(node.isolated_path(), "$");
}

#[test]
fn a_new_node_accepts() {
    assert_eq!(Pairing::new(), Pairing::Listening);
    assert_eq!(Pairing::new().action(), PairingAction::Accept);
}

#[test]
fn an_accepted_client_is_followed_by_a_dial() {
    let p = Pairing::new().step(PairingEvent::Accepted);
    assert_eq!(p, Pairing::Dialing);
    assert_eq!(p.action(), PairingAction::Dial);
}

#[test]
fn a_complete_pair_leaves_the_node_listening() {
    let p = Pairing::new().step(PairingEvent::Accepted).step(PairingEvent::Connected);
    assert_eq!(p, Pairing::Listening);
    assert_eq!(p.action(), PairingAction::Accept);
}

#[test]
fn a_failed_dial_leaves_the_node_listening() {
    let p = Pairing::new().step(PairingEvent::Accepted).step(PairingEvent::ConnectFailed);
    assert_eq!(p, Pairing::Listening);
    assert_eq!(p.action(), PairingAction::Accept);
}

#[test]
fn a_failed_accept_leaves_the_node_listening() {
    let p = Pairing::new().step(PairingEvent::AcceptFailed);
    assert_eq!(p, Pairing::Listening);
}

#[test]
fn pairing_ignores_events_that_it_does_not_await() {
    assert_eq!(Pairing::Listening.step(PairingEvent::Connected), Pairing::Listening);
    assert_eq!(Pairing::Listening.step(PairingEvent::ConnectFailed), Pairing::Listening);
    assert_eq!(Pairing::Dialing.step(PairingEvent::Accepted), Pairing::Dialing);
    assert_eq!(Pairing::Dialing.step(PairingEvent::AcceptFailed), Pairing::Dialing);
}

#[test]
fn node_goes_on_after_any_number_of_failures() {
    let mut p = Pairing::new();
    for _ in 0..100 {
        p = p.step(PairingEvent::AcceptFailed);
        assert_eq!(p.action(), PairingAction::Accept);
        p = p.step(PairingEvent::Accepted).step(PairingEvent::ConnectFailed);
        assert_eq!(p.action(), PairingAction::Accept);
    }
}
