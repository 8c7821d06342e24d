//! The values the parser reports: errors, data types, and the typed forms of
//! librdb's key and stream records.

use vstd::prelude::*;

use crate::decimal::{decimal, push_decimal, push_signed_decimal, signed_decimal};
use crate::raw::{
    RdbKeyInfo, RdbSlotInfo, RdbStreamConsumerMeta, RdbStreamGroupMeta, RdbStreamID,
    RdbStreamIdmpMeta, RdbStreamMeta, RdbStreamPendingEntry,
};

verus! {

/// An error of the parser or of a callback handler.
#[derive(Debug, Clone, PartialEq, Eq)]
pub enum RdbError {
    /// librdb (or the parser wrapper) failed; `code` is librdb's error code,
    /// 0 where the failure did not come from librdb.
    Parser { code: u32, message: String },
    /// A callback handler failed; the payload is the handler's error message.
    Handler(String),
}

/// What an [`RdbError`] holds, with its strings as character sequences.
pub enum RdbErrorModel {
    Parser { code: u32, message: Seq<char> },
    Handler(Seq<char>),
}

impl View for RdbError {
    type V = RdbErrorModel;

    open spec fn view(&self) -> RdbErrorModel {
        match self {
            RdbError::Parser { code, message } => RdbErrorModel::Parser { code: *code, message: message@ },
            RdbError::Handler(m) => RdbErrorModel::Handler(m@),
        }
    }
}

/// A result whose error is an [`RdbError`], with the error taken by its model.
pub open spec fn result_model<T>(r: Result<T, RdbError>) -> Result<T, RdbErrorModel> {
    match r {
        Ok(v) => Ok(v),
        Err(e) => Err(e@),
    }
}

/// An optional error, taken by its model.
pub open spec fn pending_model(e: Option<RdbError>) -> Option<RdbErrorModel> {
    match e {
        Some(e) => Some(e@),
        None => None,
    }
}

/// The model of a parser-side error.
pub open spec fn parser_error(code: u32, message: Seq<char>) -> RdbErrorModel {
    RdbErrorModel::Parser { code, message }
}

/// The text an error displays: `parser error (code C): M` for a parser error,
/// the handler's message for a handler error.
pub open spec fn error_text(e: RdbErrorModel) -> Seq<char> {
    match e {
        RdbErrorModel::Parser { code, message } =>
            "parser error (code "@ + decimal(code as nat) + "): "@ + message,
        RdbErrorModel::Handler(m) => m,
    }
}

impl RdbError {
    /// Wraps the message of a handler's own error.
    pub fn handler(message: String) -> (e: Self)
        ensures
            e == RdbError::Handler(message),
    {
        RdbError::Handler(message)
    }

    /// The text of the error, as its `Display` shows it.
    pub fn to_string(&self) -> (s: String)
        ensures
            s@ == error_text(self@),
            self is Handler ==> s@ == self->Handler_0@,
            self is Parser ==> s@ == "parser error (code "@ + decimal(self->code as nat) + "): "@
                + self->message@,
    {
        match self {
            RdbError::Parser { code, message } => {
                let mut s = String::from_str("parser error (code ");
                push_decimal(&mut s, *code as u64);
                s.append("): ");
                s.append(message.as_str());
                s
            },
            RdbError::Handler(m) => m.clone(),
        }
    }
}

/// librdb's code for a string value.
pub const RDB_DATA_TYPE_STRING: i32 = 0;
/// librdb's code for a list value.
pub const RDB_DATA_TYPE_LIST: i32 = 1;
/// librdb's code for a set value.
pub const RDB_DATA_TYPE_SET: i32 = 2;
/// librdb's code for a sorted set value.
pub const RDB_DATA_TYPE_ZSET: i32 = 3;
/// librdb's code for a hash value.
pub const RDB_DATA_TYPE_HASH: i32 = 4;
/// librdb's code for a module value.
pub const RDB_DATA_TYPE_MODULE: i32 = 5;
/// librdb's code for a stream value.
pub const RDB_DATA_TYPE_STREAM: i32 = 6;
/// librdb's code for a function library.
pub const RDB_DATA_TYPE_FUNCTION: i32 = 7;
/// librdb's code for a sparse array (RDB v14+).
pub const RDB_DATA_TYPE_ARRAY: i32 = 8;

/// The Redis data type of a key's value.
#[derive(Debug, Clone, Copy, PartialEq, Eq, Hash)]
#[non_exhaustive]
pub enum DataType {
    String,
    List,
    /// A Redis set (librdb's `RDB_DATA_TYPE_SET`).
    UnsortedSet,
    Zset,
    Hash,
    Module,
    Stream,
    Function,
    /// Sparse array (RDB v14+, `RDB_TYPE_ARRAY`).
    Array,
}

/// The data type that librdb's code `value` stands for, if any.
pub open spec fn data_type_of(value: i32) -> Option<DataType> {
    if value == RDB_DATA_TYPE_STRING {
        Some(DataType::String)
    } else if value == RDB_DATA_TYPE_LIST {
        Some(DataType::List)
    } else if value == RDB_DATA_TYPE_SET {
        Some(DataType::UnsortedSet)
    } else if value == RDB_DATA_TYPE_ZSET {
        Some(DataType::Zset)
    } else if value == RDB_DATA_TYPE_HASH {
        Some(DataType::Hash)
    } else if value == RDB_DATA_TYPE_MODULE {
        Some(DataType::Module)
    } else if value == RDB_DATA_TYPE_STREAM {
        Some(DataType::Stream)
    } else if value == RDB_DATA_TYPE_FUNCTION {
        Some(DataType::Function)
    } else if value == RDB_DATA_TYPE_ARRAY {
        Some(DataType::Array)
    } else {
        None
    }
}

/// The error for a data type code that librdb does not define.
pub open spec fn unknown_data_type(value: i32) -> RdbErrorModel {
    parser_error(0, "unknown data type: "@ + signed_decimal(value as int))
}

impl DataType {
    /// The data type for librdb's code `value`; an unknown code is a parser error.
    pub fn from_raw(value: i32) -> (r: Result<Self, RdbError>)
        ensures
            match data_type_of(value) {
                Some(t) => r == Ok::<DataType, RdbError>(t),
                None => result_model(r) == Err::<DataType, RdbErrorModel>(unknown_data_type(value)),
            },
            r is Ok <==> 0 <= value <= 8,
            value == 0 ==> r == Ok::<DataType, RdbError>(DataType::String),
            value == 1 ==> r == Ok::<DataType, RdbError>(DataType::List),
            value == 2 ==> r == Ok::<DataType, RdbError>(DataType::UnsortedSet),
            value == 3 ==> r == Ok::<DataType, RdbError>(DataType::Zset),
            value == 4 ==> r == Ok::<DataType, RdbError>(DataType::Hash),
            value == 5 ==> r == Ok::<DataType, RdbError>(DataType::Module),
            value == 6 ==> r == Ok::<DataType, RdbError>(DataType::Stream),
            value == 7 ==> r == Ok::<DataType, RdbError>(DataType::Function),
            value == 8 ==> r == Ok::<DataType, RdbError>(DataType::Array),
    {
        if value == RDB_DATA_TYPE_STRING {
            Ok(DataType::String)
        } else if value == RDB_DATA_TYPE_LIST {
            Ok(DataType::List)
        } else if value == RDB_DATA_TYPE_SET {
            Ok(DataType::UnsortedSet)
        } else if value == RDB_DATA_TYPE_ZSET {
            Ok(DataType::Zset)
        } else if value == RDB_DATA_TYPE_HASH {
            Ok(DataType::Hash)
        } else if value == RDB_DATA_TYPE_MODULE {
            Ok(DataType::Module)
        } else if value == RDB_DATA_TYPE_STREAM {
            Ok(DataType::Stream)
        } else if value == RDB_DATA_TYPE_FUNCTION {
            Ok(DataType::Function)
        } else if value == RDB_DATA_TYPE_ARRAY {
            Ok(DataType::Array)
        } else {
            let mut message = String::from_str("unknown data type: ");
            push_signed_decimal(&mut message, value as i64);
            Err(RdbError::Parser { code: 0, message })
        }
    }
}

/// librdb's "not present" value `-1`, read as an absent value.
pub open spec fn present_i64(v: i64) -> Option<i64> {
    if v == -1 {
        None
    } else {
        Some(v)
    }
}

/// librdb's "not present" value `-1`, read as an absent value.
pub open spec fn present_i32(v: i32) -> Option<i32> {
    if v == -1 {
        None
    } else {
        Some(v)
    }
}

fn read_present_i64(v: i64) -> (r: Option<i64>)
    ensures
        r == present_i64(v),
        r is None <==> v == -1,
        v != -1 ==> r == Some(v),
{
    if v == -1 {
        None
    } else {
        Some(v)
    }
}

fn read_present_i32(v: i32) -> (r: Option<i32>)
    ensures
        r == present_i32(v),
        r is None <==> v == -1,
        v != -1 ==> r == Some(v),
{
    if v == -1 {
        None
    } else {
        Some(v)
    }
}

/// Metadata of a key.
#[derive(Debug, Clone, PartialEq, Eq)]
pub struct KeyInfo {
    /// Unix timestamp in milliseconds, or `None` if no expiry is set.
    pub expire_time_ms: Option<i64>,
    /// LRU idle seconds, or `None` if not available.
    pub lru_idle: Option<i64>,
    /// LFU frequency counter, or `None` if not available.
    pub lfu_freq: Option<i32>,
    pub data_type: DataType,
}

impl KeyInfo {
    /// Reads librdb's key metadata; fails exactly when the data type code is unknown.
    pub fn from_raw(raw: &RdbKeyInfo) -> (r: Result<Self, RdbError>)
        ensures
            match data_type_of(raw.data_type) {
                Some(t) => r == Ok::<KeyInfo, RdbError>(
                    KeyInfo {
                        expire_time_ms: present_i64(raw.expiretime),
                        lru_idle: present_i64(raw.lru_idle),
                        lfu_freq: present_i32(raw.lfu_freq),
                        data_type: t,
                    },
                ),
                None => result_model(r) == Err::<KeyInfo, RdbErrorModel>(
                    unknown_data_type(raw.data_type),
                ),
            },
            // Only an unknown data type code fails.
            r is Ok <==> 0 <= raw.data_type <= 8,
            // librdb's -1 means absent; every other value is kept as it is.
            r is Ok ==> (r->Ok_0.expire_time_ms is None <==> raw.expiretime == -1),
            r is Ok && raw.expiretime != -1 ==> r->Ok_0.expire_time_ms == Some(raw.expiretime),
            r is Ok ==> (r->Ok_0.lru_idle is None <==> raw.lru_idle == -1),
            r is Ok && raw.lru_idle != -1 ==> r->Ok_0.lru_idle == Some(raw.lru_idle),
            r is Ok ==> (r->Ok_0.lfu_freq is None <==> raw.lfu_freq == -1),
            r is Ok && raw.lfu_freq != -1 ==> r->Ok_0.lfu_freq == Some(raw.lfu_freq),
    {
        let expire_time_ms = read_present_i64(raw.expiretime);
        let lru_idle = read_present_i64(raw.lru_idle);
        let lfu_freq = read_present_i32(raw.lfu_freq);
        let data_type = DataType::from_raw(raw.data_type)?;
        Ok(KeyInfo { expire_time_ms, lru_idle, lfu_freq, data_type })
    }
}

/// Cluster slot information.
#[derive(Debug, Clone, Copy, PartialEq, Eq, Hash)]
pub struct SlotInfo {
    pub slot_id: u64,
    pub slot_size: u64,
    pub expires_slot_size: u64,
}

impl SlotInfo {
    pub fn from_raw(raw: &RdbSlotInfo) -> (r: Self)
        ensures
            r == (SlotInfo {
                slot_id: raw.slot_id,
                slot_size: raw.slot_size,
                expires_slot_size: raw.expires_slot_size,
            }),
    {
        SlotInfo {
            slot_id: raw.slot_id,
            slot_size: raw.slot_size,
            expires_slot_size: raw.expires_slot_size,
        }
    }
}

/// A stream entry id: milliseconds and sequence number.
#[derive(Debug, Clone, Copy, PartialEq, Eq, Hash)]
pub struct StreamId {
    pub ms: u64,
    pub seq: u64,
}

impl StreamId {
    pub fn from_raw(raw: &RdbStreamID) -> (r: Self)
        ensures
            r == (StreamId { ms: raw.ms, seq: raw.seq }),
    {
        StreamId { ms: raw.ms, seq: raw.seq }
    }
}

/// Metadata of a stream.
#[derive(Debug, Clone, PartialEq, Eq, Hash)]
pub struct StreamMeta {
    pub length: u64,
    pub entries_added: u64,
    pub first_id: StreamId,
    pub last_id: StreamId,
    pub max_del_entry_id: StreamId,
}

impl StreamMeta {
    pub fn from_raw(raw: &RdbStreamMeta) -> (r: Self)
        ensures
            r == (StreamMeta {
                length: raw.length,
                entries_added: raw.entries_added,
                first_id: StreamId { ms: raw.first_id.ms, seq: raw.first_id.seq },
                last_id: StreamId { ms: raw.last_id.ms, seq: raw.last_id.seq },
                max_del_entry_id: StreamId {
                    ms: raw.max_del_entry_id.ms,
                    seq: raw.max_del_entry_id.seq,
                },
            }),
    {
        StreamMeta {
            length: raw.length,
            entries_added: raw.entries_added,
            first_id: StreamId::from_raw(&raw.first_id),
            last_id: StreamId::from_raw(&raw.last_id),
            max_del_entry_id: StreamId::from_raw(&raw.max_del_entry_id),
        }
    }
}

/// Metadata of a consumer group.
#[derive(Debug, Clone, Copy, PartialEq, Eq, Hash)]
pub struct StreamGroupMeta {
    pub last_id: StreamId,
    pub entries_read: i64,
}

impl StreamGroupMeta {
    pub fn from_raw(raw: &RdbStreamGroupMeta) -> (r: Self)
        ensures
            r == (StreamGroupMeta {
                last_id: StreamId { ms: raw.last_id.ms, seq: raw.last_id.seq },
                entries_read: raw.entries_read,
            }),
    {
        StreamGroupMeta { last_id: StreamId::from_raw(&raw.last_id), entries_read: raw.entries_read }
    }
}

/// Metadata of a consumer.
#[derive(Debug, Clone, Copy, PartialEq, Eq, Hash)]
pub struct StreamConsumerMeta {
    pub active_time: i64,
    pub seen_time: i64,
}

impl StreamConsumerMeta {
    pub fn from_raw(raw: &RdbStreamConsumerMeta) -> (r: Self)
        ensures
            r == (StreamConsumerMeta { active_time: raw.active_time, seen_time: raw.seen_time }),
    {
        StreamConsumerMeta { active_time: raw.active_time, seen_time: raw.seen_time }
    }
}

/// A pending entry of a consumer group.
#[derive(Debug, Clone, Copy, PartialEq, Eq, Hash)]
pub struct StreamPendingEntry {
    pub id: StreamId,
    pub delivery_time: u64,
    pub delivery_count: u64,
}

impl StreamPendingEntry {
    pub fn from_raw(raw: &RdbStreamPendingEntry) -> (r: Self)
        ensures
            r == (StreamPendingEntry {
                id: StreamId { ms: raw.id.ms, seq: raw.id.seq },
                delivery_time: raw.delivery_time,
                delivery_count: raw.delivery_count,
            }),
    {
        StreamPendingEntry {
            id: StreamId::from_raw(&raw.id),
            delivery_time: raw.delivery_time,
            delivery_count: raw.delivery_count,
        }
    }
}

/// Idempotent-producer metadata of a stream.
#[derive(Debug, Clone, Copy, PartialEq, Eq, Hash)]
pub struct StreamIdmpMeta {
    pub duration: u64,
    pub max_entries: u64,
    pub num_producers: u64,
}

impl StreamIdmpMeta {
    pub fn from_raw(raw: &RdbStreamIdmpMeta) -> (r: Self)
        ensures
            r == (StreamIdmpMeta {
                duration: raw.duration,
                max_entries: raw.max_entries,
                num_producers: raw.num_producers,
            }),
    {
        StreamIdmpMeta {
            duration: raw.duration,
            max_entries: raw.max_entries,
            num_producers: raw.num_producers,
        }
    }
}

} // verus!
