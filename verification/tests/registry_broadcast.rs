use light_api::commitments::COMMITMENT_SIZE;
use light_api::header::{
    AppLookup, H256, HeaderExtension, HeaderMessage, PublishMessage, RawHeader, V2Extension,
};
use light_api::registry::{Subscription, Topic, WsClient, WsClients};

fn subscription(topics: Vec<Topic>) -> Subscription {
    Subscription { topics, data_fields: vec![] }
}

fn header_message(number: u32) -> PublishMessage {
    let raw = RawHeader {
        encoded: vec![],
        parent_hash: H256::new(vec![0; 32]).unwrap(),
        number,
        state_root: H256::new(vec![0; 32]).unwrap(),
        extrinsics_root: H256::new(vec![0; 32]).unwrap(),
        extension: HeaderExtension::V2(V2Extension {
            rows: 1,
            cols: 1,
            commitment: vec![0u8; COMMITMENT_SIZE],
            data_root: None,
            app_lookup: AppLookup { size: 0, index: vec![] },
        }),
    };
    PublishMessage::HeaderVerified(HeaderMessage::try_from(raw).unwrap())
}

#[test]
fn subscribe_then_has_subscription() {
    let mut clients = WsClients::default();
    assert!(!clients.has_subscription("abc"));
    clients.subscribe("abc".to_string(), subscription(vec![Topic::HeaderVerified]));
    assert!(clients.has_subscription("abc"));
    assert!(!clients.has_subscription("abd"));
}

#[test]
fn second_subscribe_replaces_the_entry() {
    let mut clients = WsClients::default();
    clients.subscribe("abc".to_string(), subscription(vec![Topic::HeaderVerified]));
    let (tx, mut rx) = tokio::sync::mpsc::unbounded_channel::<String>();
    assert!(clients.set_sender("abc", tx));
    // The replacement carries other topics and is unattached again.
    clients.subscribe("abc".to_string(), subscription(vec![Topic::DataVerified]));
    assert!(clients.has_subscription("abc"));
    assert!(clients.recipients(&Topic::HeaderVerified).is_empty());
    assert!(clients.recipients(&Topic::DataVerified).is_empty());
    let ids = clients.publish(Topic::DataVerified, header_message(1)).unwrap();
    assert!(ids.is_empty());
    assert!(rx.try_recv().is_err());
}

#[test]
fn set_sender_on_unknown_id_is_a_noop() {
    let mut clients = WsClients::default();
    let (tx, _rx) = tokio::sync::mpsc::unbounded_channel::<String>();
    assert!(!clients.set_sender("nobody", tx));
    assert!(!clients.has_subscription("nobody"));
}

#[test]
fn new_client_starts_unattached() {
    let c = WsClient::new(subscription(vec![Topic::HeaderVerified]));
    assert!(c.sender.is_none());
    assert_eq!(c.subscription.topics, vec![Topic::HeaderVerified]);
}

#[test]
fn subscription_matches_on_membership() {
    let s = subscription(vec![Topic::HeaderVerified, Topic::DataVerified]);
    assert!(s.matches(&Topic::HeaderVerified));
    assert!(s.matches(&Topic::DataVerified));
    assert!(!s.matches(&Topic::ConfidenceAchieved));
}

#[test]
fn publish_delivers_one_tagged_message() {
    let mut clients = WsClients::default();
    clients.subscribe("abc".to_string(), subscription(vec![Topic::HeaderVerified]));
    let (tx, mut rx) = tokio::sync::mpsc::unbounded_channel::<String>();
    assert!(clients.set_sender("abc", tx));
    let ids = clients.publish(Topic::HeaderVerified, header_message(42)).unwrap();
    assert_eq!(ids, vec!["abc".to_string()]);
    let text = rx.try_recv().expect("exactly one message is delivered");
    assert!(text.contains("\"type\":\"header-verified\""));
    assert!(text.contains("\"block_number\":42"));
    assert!(rx.try_recv().is_err());
}

#[test]
fn publish_filters_on_topic() {
    let mut clients = WsClients::default();
    clients.subscribe("a".to_string(), subscription(vec![Topic::HeaderVerified]));
    clients.subscribe("b".to_string(), subscription(vec![Topic::ConfidenceAchieved]));
    clients.subscribe("c".to_string(), subscription(vec![Topic::HeaderVerified]));
    let (tx_a, mut rx_a) = tokio::sync::mpsc::unbounded_channel::<String>();
    let (tx_b, mut rx_b) = tokio::sync::mpsc::unbounded_channel::<String>();
    let (tx_c, mut rx_c) = tokio::sync::mpsc::unbounded_channel::<String>();
    assert!(clients.set_sender("a", tx_a));
    assert!(clients.set_sender("b", tx_b));
    assert!(clients.set_sender("c", tx_c));
    let mut ids = clients.recipients(&Topic::HeaderVerified);
    ids.sort();
    assert_eq!(ids, vec!["a".to_string(), "c".to_string()]);
    let mut sent = clients.publish(Topic::HeaderVerified, header_message(7)).unwrap();
    sent.sort();
    assert_eq!(sent, vec!["a".to_string(), "c".to_string()]);
    assert!(rx_a.try_recv().is_ok());
    assert!(rx_b.try_recv().is_err());
    assert!(rx_c.try_recv().is_ok());
}

#[test]
fn unattached_subscribers_are_skipped() {
    let mut clients = WsClients::default();
    clients.subscribe("silent".to_string(), subscription(vec![Topic::HeaderVerified]));
    assert!(clients.recipients(&Topic::HeaderVerified).is_empty());
    let ids = clients.publish(Topic::HeaderVerified, header_message(1)).unwrap();
    assert!(ids.is_empty());
}

#[test]
fn dead_channel_does_not_block_the_others() {
    let mut clients = WsClients::default();
    clients.subscribe("dead".to_string(), subscription(vec![Topic::HeaderVerified]));
    clients.subscribe("live".to_string(), subscription(vec![Topic::HeaderVerified]));
    let (tx_dead, rx_dead) = tokio::sync::mpsc::unbounded_channel::<String>();
    let (tx_live, mut rx_live) = tokio::sync::mpsc::unbounded_channel::<String>();
    assert!(clients.set_sender("dead", tx_dead));
    assert!(clients.set_sender("live", tx_live));
    drop(rx_dead);
    let mut ids = clients.publish(Topic::HeaderVerified, header_message(3)).unwrap();
    ids.sort();
    assert_eq!(ids, vec!["dead".to_string(), "live".to_string()]);
    assert!(rx_live.try_recv().is_ok());
}
