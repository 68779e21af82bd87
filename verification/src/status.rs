//! The status aggregator: one snapshot combining runtime configuration and
//! live sync/confidence state, recomputed on demand.
use vstd::prelude::*;
use vstd::string::StringExecFns;
use crate::header::{h256_hex, H256};

verus! {

/// A contiguous range of block heights, `first <= last` guaranteed by the
/// upstream sync tracker.
#[derive(Debug, Clone, Copy, PartialEq, Eq, Structural)]
pub struct BlockRange {
    pub first: u32,
    pub last: u32,
}

/// An operating mode the client runs in.
#[derive(Debug, Clone, Copy, PartialEq, Eq, Structural)]
pub enum Mode {
    Light,
    App,
    Partition,
}

/// A configured row/column slice of the block matrix this node samples.
#[derive(Debug, Clone, Copy, PartialEq, Eq, Structural)]
pub struct Partition {
    pub number: u8,
    pub fraction: u8,
}

/// The runtime configuration the status snapshot reads.
#[derive(Debug, Clone, Copy, PartialEq, Eq, Structural)]
pub struct RuntimeConfig {
    pub app_id: Option<u32>,
    pub block_matrix_partition: Option<Partition>,
}

/// The connected node's identity.
pub struct Node {
    pub genesis_hash: H256,
    pub network: String,
}

/// The live sync state the snapshot is computed from.
#[derive(Debug, Clone, Copy, PartialEq, Eq, Structural)]
pub struct State {
    pub latest: u32,
    pub synced: Option<bool>,
    pub confidence_achieved: Option<BlockRange>,
    pub data_verified: Option<BlockRange>,
    pub sync_confidence_achieved: Option<BlockRange>,
    pub sync_data_verified: Option<BlockRange>,
}

/// Progress of the historical sync, present only when the state reports one.
#[derive(Debug, Clone, Copy, PartialEq, Eq, Structural)]
pub struct HistoricalSync {
    pub synced: bool,
    pub available: Option<BlockRange>,
    pub app_data: Option<BlockRange>,
}

/// The block-height part of the snapshot.
#[derive(Debug, Clone, Copy, PartialEq, Eq, Structural)]
pub struct Blocks {
    pub latest: u32,
    pub available: Option<BlockRange>,
    pub app_data: Option<BlockRange>,
    pub historical_sync: Option<HistoricalSync>,
}

/// The status snapshot handed to clients.
pub struct Status {
    pub modes: Vec<Mode>,
    pub app_id: Option<u32>,
    pub genesis_hash: String,
    pub network: String,
    pub blocks: Blocks,
    pub partition: Option<Partition>,
}

/// The modes a configuration enables, in their fixed order: Light always,
/// then App when an app id is configured, then Partition when a matrix
/// partition is configured.
pub open spec fn modes_of(config: RuntimeConfig) -> Seq<Mode> {
    seq![Mode::Light] + (if config.app_id is Some {
        seq![Mode::App]
    } else {
        Seq::empty()
    }) + (if config.block_matrix_partition is Some {
        seq![Mode::Partition]
    } else {
        Seq::empty()
    })
}

/// Derives the mode list from the configuration, in the fixed order that is
/// part of the observable contract.
pub fn modes(config: &RuntimeConfig) -> (r: Vec<Mode>)
    ensures
        r@ == modes_of(*config),
{
    let mut result: Vec<Mode> = Vec::new();
    result.push(Mode::Light);
    if config.app_id.is_some() {
        result.push(Mode::App);
    }
    if config.block_matrix_partition.is_some() {
        result.push(Mode::Partition);
    }
    proof {
        assert(result@ =~= modes_of(*config));
    }
    result
}

/// The historical-sync part of the snapshot: present exactly when the state
/// reports a `synced` flag, mirroring the historical confidence and
/// data-verified ranges.
pub open spec fn historical_sync_of(state: State) -> Option<HistoricalSync> {
    match state.synced {
        Some(synced) => Some(
            HistoricalSync {
                synced,
                available: state.sync_confidence_achieved,
                app_data: state.sync_data_verified,
            },
        ),
        None => None,
    }
}

impl Status {
    /// Builds the snapshot: modes derived from the configuration in their
    /// fixed order, the app id and partition copied from it, the genesis
    /// hash rendered in hex, the network name copied from the node, and the
    /// block ranges mirrored from the live state.
    pub fn new(config: &RuntimeConfig, node: &Node, state: &State) -> (r: Status)
        ensures
            r.modes@ == modes_of(*config),
            r.app_id == config.app_id,
            r.genesis_hash@ == h256_hex(node.genesis_hash@),
            r.network@ == node.network@,
            r.blocks == (Blocks {
                latest: state.latest,
                available: state.confidence_achieved,
                app_data: state.data_verified,
                historical_sync: historical_sync_of(*state),
            }),
            r.partition == config.block_matrix_partition,
    {
        let historical_sync = match state.synced {
            Some(synced) => Some(
                HistoricalSync {
                    synced,
                    available: state.sync_confidence_achieved,
                    app_data: state.sync_data_verified,
                },
            ),
            None => None,
        };
        let blocks = Blocks {
            latest: state.latest,
            available: state.confidence_achieved,
            app_data: state.data_verified,
            historical_sync,
        };
        Status {
            modes: modes(config),
            app_id: config.app_id,
            genesis_hash: node.genesis_hash.to_hex_string(),
            network: String::from_str(node.network.as_str()),
            blocks,
            partition: config.block_matrix_partition,
        }
    }
}

} // verus!
