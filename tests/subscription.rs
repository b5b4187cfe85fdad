use arikedb::wire::VarDataPoint;
use arikedb::{Epoch, StreamAction, StreamEvent, SubscriptionRunner, SubscriptionState};

fn message(name: &str, value: &str) -> StreamEvent {
    StreamEvent::Message(VarDataPoint {
        name: String::from(name),
        vtype: 2,
        timestamp: String::from("1"),
        epoch: 1,
        value: String::from(value),
    })
}

#[test]
fn messages_are_delivered_in_order() {
    let mut r = SubscriptionRunner::new();
    assert!(matches!(r.step(StreamEvent::Established), StreamAction::Pull));
    let mut seen = Vec::new();
    for (n, v) in [("v1", "56"), ("v2", "60"), ("v1", "57")] {
        match r.step(message(n, v)) {
            StreamAction::Deliver(p) => {
                assert_eq!(p.epoch, Epoch::Millisecond);
                seen.push((p.name, p.value));
            }
            _ => panic!("message not delivered"),
        }
    }
    assert_eq!(
        seen,
        vec![
            (String::from("v1"), String::from("56")),
            (String::from("v2"), String::from("60")),
            (String::from("v1"), String::from("57")),
        ]
    );
    assert_eq!(r.state, SubscriptionState::Streaming);
}

#[test]
fn cancel_stops_delivery() {
    let mut r = SubscriptionRunner::new();
    r.step(StreamEvent::Established);
    assert!(matches!(r.step(message("v1", "1")), StreamAction::Deliver(_)));
    assert!(matches!(r.step(StreamEvent::Cancelled), StreamAction::Stop));
    assert!(r.is_finished());
    assert!(matches!(r.step(message("v1", "2")), StreamAction::Stop));
    assert_eq!(r.state, SubscriptionState::Closed);
}

#[test]
fn stream_end_and_failure_stop_quietly() {
    let mut r = SubscriptionRunner::new();
    r.step(StreamEvent::Established);
    assert!(matches!(r.step(StreamEvent::Ended), StreamAction::Stop));
    assert_eq!(r.state, SubscriptionState::Closed);

    let mut f = SubscriptionRunner::new();
    f.step(StreamEvent::Established);
    assert!(matches!(f.step(StreamEvent::Failed), StreamAction::Stop));
    assert_eq!(f.state, SubscriptionState::Errored);
    assert!(matches!(f.step(message("v1", "3")), StreamAction::Stop));
}

#[test]
fn rejected_handshake_errors() {
    let mut r = SubscriptionRunner::new();
    assert!(!r.is_finished());
    assert!(matches!(r.step(StreamEvent::Rejected), StreamAction::Stop));
    assert_eq!(r.state, SubscriptionState::Errored);
}
