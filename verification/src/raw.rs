//! The records that librdb hands to its callbacks, held as plain values.
//!
//! Each struct carries exactly the fields of the librdb record that this
//! library reads; the code that receives a record from librdb copies those
//! fields into one of these before any decision is taken on them.

use vstd::prelude::*;

verus! {

/// The key metadata librdb reports with every new key (`RdbKeyInfo`).
/// `-1` in a numeric field means "not present".
#[derive(Clone, Copy, Debug, PartialEq, Eq)]
pub struct RdbKeyInfo {
    pub expiretime: i64,
    pub lru_idle: i64,
    pub lfu_freq: i32,
    pub data_type: i32,
}

/// Cluster slot information (`RdbSlotInfo`).
#[derive(Clone, Copy, Debug, PartialEq, Eq)]
pub struct RdbSlotInfo {
    pub slot_id: u64,
    pub slot_size: u64,
    pub expires_slot_size: u64,
}

/// A stream entry id (`RdbStreamID`).
#[derive(Clone, Copy, Debug, PartialEq, Eq)]
pub struct RdbStreamID {
    pub ms: u64,
    pub seq: u64,
}

/// Stream metadata (`RdbStreamMeta`).
#[derive(Clone, Copy, Debug, PartialEq, Eq)]
pub struct RdbStreamMeta {
    pub length: u64,
    pub entries_added: u64,
    pub first_id: RdbStreamID,
    pub last_id: RdbStreamID,
    pub max_del_entry_id: RdbStreamID,
}

/// Consumer group metadata (`RdbStreamGroupMeta`).
#[derive(Clone, Copy, Debug, PartialEq, Eq)]
pub struct RdbStreamGroupMeta {
    pub last_id: RdbStreamID,
    pub entries_read: i64,
}

/// Consumer metadata (`RdbStreamConsumerMeta`).
#[derive(Clone, Copy, Debug, PartialEq, Eq)]
pub struct RdbStreamConsumerMeta {
    pub active_time: i64,
    pub seen_time: i64,
}

/// A pending entry of a consumer group (`RdbStreamPendingEntry`).
#[derive(Clone, Copy, Debug, PartialEq, Eq)]
pub struct RdbStreamPendingEntry {
    pub id: RdbStreamID,
    pub delivery_time: u64,
    pub delivery_count: u64,
}

/// Idempotent-producer metadata of a stream (`RdbStreamIdmpMeta`).
#[derive(Clone, Copy, Debug, PartialEq, Eq)]
pub struct RdbStreamIdmpMeta {
    pub duration: u64,
    pub max_entries: u64,
    pub num_producers: u64,
}

} // verus!
