use tcpbasics::bus::{Bus, RecvOutcome};
use tcpbasics::message::Message;

fn msg(text: &str, origin: i32) -> Message {
    Message { payload: text.as_bytes().to_vec(), origin }
}

#[test]
fn delivers_in_publish_order() {
    let mut bus = Bus::new(8);
    bus.register_publisher();
    let mut sub = bus.subscribe();
    bus.publish(msg("a", 0));
    bus.publish(msg("b", 1));
    assert_eq!(bus.receive(&mut sub), RecvOutcome::Msg(msg("a", 0)));
    assert_eq!(bus.receive(&mut sub), RecvOutcome::Msg(msg("b", 1)));
    assert_eq!(bus.receive(&mut sub), RecvOutcome::Empty);
}

#[test]
fn subscriptions_are_independent() {
    let mut bus = Bus::new(8);
    bus.register_publisher();
    let mut fast = bus.subscribe();
    let mut slow = bus.subscribe();
    bus.publish(msg("a", 0));
    bus.publish(msg("b", 1));
    assert_eq!(bus.receive(&mut fast), RecvOutcome::Msg(msg("a", 0)));
    assert_eq!(bus.receive(&mut fast), RecvOutcome::Msg(msg("b", 1)));
    // Draining one subscription moved the other's view not at all.
    assert_eq!(bus.receive(&mut slow), RecvOutcome::Msg(msg("a", 0)));
    assert_eq!(bus.receive(&mut slow), RecvOutcome::Msg(msg("b", 1)));
}

#[test]
fn new_subscriber_sees_only_new_messages() {
    let mut bus = Bus::new(8);
    bus.register_publisher();
    bus.publish(msg("old", 0));
    let mut sub = bus.subscribe();
    assert_eq!(bus.receive(&mut sub), RecvOutcome::Empty);
    bus.publish(msg("new", 1));
    assert_eq!(bus.receive(&mut sub), RecvOutcome::Msg(msg("new", 1)));
}

#[test]
fn pending_messages_then_closed() {
    let mut bus = Bus::new(8);
    bus.register_publisher();
    let mut sub = bus.subscribe();
    bus.publish(msg("last", 0));
    bus.drop_publisher();
    // The pending message still arrives; only then does closure show.
    assert_eq!(bus.receive(&mut sub), RecvOutcome::Msg(msg("last", 0)));
    assert_eq!(bus.receive(&mut sub), RecvOutcome::Closed);
    assert_eq!(bus.receive(&mut sub), RecvOutcome::Closed);
}

#[test]
fn lag_is_signalled_then_delivery_resumes() {
    let mut bus = Bus::new(4);
    bus.register_publisher();
    let mut sub = bus.subscribe();
    // The subscriber pauses while ten messages arrive, six beyond the bound.
    for i in 0..10 {
        bus.publish(msg("m", i % 2));
    }
    assert_eq!(bus.receive(&mut sub), RecvOutcome::Lagged(6));
    // Delivery resumes at the oldest retained message and runs to the end.
    for _ in 0..4 {
        match bus.receive(&mut sub) {
            RecvOutcome::Msg(_) => {}
            other => panic!("expected a message, got {:?}", other),
        }
    }
    assert_eq!(bus.receive(&mut sub), RecvOutcome::Empty);
}
