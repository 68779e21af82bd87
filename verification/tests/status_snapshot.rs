use light_api::header::H256;
use light_api::status::{
    modes, BlockRange, Mode, Node, Partition, RuntimeConfig, State, Status,
};

fn node() -> Node {
    Node {
        genesis_hash: H256::new(vec![0xaa; 32]).unwrap(),
        network: "wss://example/ws/1.0.0".to_string(),
    }
}

fn state() -> State {
    State {
        latest: 100,
        synced: None,
        confidence_achieved: Some(BlockRange { first: 10, last: 90 }),
        data_verified: None,
        sync_confidence_achieved: None,
        sync_data_verified: None,
    }
}

#[test]
fn modes_keep_their_fixed_order() {
    let none = RuntimeConfig { app_id: None, block_matrix_partition: None };
    assert_eq!(modes(&none), vec![Mode::Light]);
    let app = RuntimeConfig { app_id: Some(1), block_matrix_partition: None };
    assert_eq!(modes(&app), vec![Mode::Light, Mode::App]);
    let both = RuntimeConfig {
        app_id: Some(1),
        block_matrix_partition: Some(Partition { number: 1, fraction: 20 }),
    };
    assert_eq!(modes(&both), vec![Mode::Light, Mode::App, Mode::Partition]);
    let part = RuntimeConfig {
        app_id: None,
        block_matrix_partition: Some(Partition { number: 1, fraction: 20 }),
    };
    assert_eq!(modes(&part), vec![Mode::Light, Mode::Partition]);
}

#[test]
fn status_mirrors_config_node_and_state() {
    let config = RuntimeConfig {
        app_id: Some(7),
        block_matrix_partition: Some(Partition { number: 2, fraction: 10 }),
    };
    let s = Status::new(&config, &node(), &state());
    assert_eq!(s.modes, vec![Mode::Light, Mode::App, Mode::Partition]);
    assert_eq!(s.app_id, Some(7));
    assert_eq!(s.genesis_hash, format!("0x{}", "aa".repeat(32)));
    assert_eq!(s.network, "wss://example/ws/1.0.0");
    assert_eq!(s.blocks.latest, 100);
    assert_eq!(s.blocks.available, Some(BlockRange { first: 10, last: 90 }));
    assert!(s.blocks.app_data.is_none());
    assert!(s.blocks.historical_sync.is_none());
    assert_eq!(s.partition, Some(Partition { number: 2, fraction: 10 }));
}

#[test]
fn historical_sync_appears_with_the_synced_flag() {
    let config = RuntimeConfig { app_id: None, block_matrix_partition: None };
    let mut st = state();
    st.synced = Some(false);
    st.sync_confidence_achieved = Some(BlockRange { first: 1, last: 5 });
    let s = Status::new(&config, &node(), &st);
    let hs = s.blocks.historical_sync.expect("present when synced is reported");
    assert!(!hs.synced);
    assert_eq!(hs.available, Some(BlockRange { first: 1, last: 5 }));
    assert!(hs.app_data.is_none());
}
