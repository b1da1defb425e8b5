//! Store configurations, the store nodes built from them, and the errors that
//! building reports.

use std::sync::Arc;
use vstd::prelude::*;
use vstd::string::StringExecFns;

use crate::health::HealthStatus;

verus! {

/// Limits of an in-memory store. A `max_bytes` of zero means no byte limit;
/// otherwise `evict_bytes` is how far below `max_bytes` eviction goes and may
/// not exceed it.
#[derive(Debug, Clone, Copy)]
pub struct MemoryConfig {
    pub max_bytes: u64,
    pub evict_bytes: u64,
}

/// Directories of a filesystem store: where content lives and where partial
/// uploads are staged.
#[derive(Debug, Clone)]
pub struct FilesystemConfig {
    pub content_path: String,
    pub temp_path: String,
}

/// Location of an object-storage store.
#[derive(Debug, Clone)]
pub struct S3Config {
    pub region: String,
    pub bucket: String,
}

/// Remote store reached over gRPC.
#[derive(Debug, Clone)]
pub struct GrpcConfig {
    pub instance_name: String,
    pub endpoint: String,
}

/// One member of a shard store.
#[derive(Debug)]
pub struct ShardConfig {
    pub store: StoreConfig,
    pub weight: Option<u32>,
}

/// Declarative description of a store tree.
#[derive(Debug)]
pub enum StoreConfig {
    Memory(MemoryConfig),
    Filesystem(FilesystemConfig),
    S3(S3Config),
    Grpc(GrpcConfig),
    Noop,
    /// A link to another store by the name it is registered under.
    RefStore { name: String },
    Verify { backend: Box<StoreConfig>, verify_size: bool, verify_hash: bool },
    Compression { backend: Box<StoreConfig> },
    Dedup { index_store: Box<StoreConfig>, content_store: Box<StoreConfig> },
    ExistenceCache { backend: Box<StoreConfig> },
    CompletenessChecking { backend: Box<StoreConfig>, cas_store: Box<StoreConfig> },
    FastSlow { fast: Box<StoreConfig>, slow: Box<StoreConfig> },
    SizePartitioning {
        size: u64,
        lower_store: Box<StoreConfig>,
        upper_store: Box<StoreConfig>,
    },
    Shard { stores: Vec<ShardConfig> },
}

/// A member of a built shard store.
#[derive(Debug)]
pub struct ShardMember {
    pub store: Arc<Store>,
    pub weight: Option<u32>,
}

/// A built store node. Children are shared: several parents may hold the same
/// node. A `RefStore` owns nothing; it names a store of the manager.
#[derive(Debug)]
pub enum Store {
    Memory(MemoryConfig),
    Filesystem(FilesystemConfig),
    S3(S3Config),
    Grpc(GrpcConfig),
    Noop,
    RefStore { name: String },
    Verify { inner: Arc<Store>, verify_size: bool, verify_hash: bool },
    Compression { inner: Arc<Store> },
    Dedup { index_store: Arc<Store>, content_store: Arc<Store> },
    ExistenceCache { inner: Arc<Store> },
    CompletenessChecking { ac_store: Arc<Store>, cas_store: Arc<Store> },
    FastSlow { fast: Arc<Store>, slow: Arc<Store> },
    SizePartitioning { size: u64, lower_store: Arc<Store>, upper_store: Arc<Store> },
    Shard { stores: Vec<ShardMember> },
}

/// A terminal backend whose own settings can be malformed.
#[derive(Debug, Clone, Copy, PartialEq, Eq, Structural)]
pub enum Backend {
    Memory,
    Filesystem,
    S3,
    Grpc,
}

/// The place of a child in its parent store.
#[derive(Debug, Clone, Copy, PartialEq, Eq, Structural)]
pub enum Slot {
    Inner,
    Index,
    Content,
    Ac,
    Cas,
    Fast,
    Slow,
    Lower,
    Upper,
    Shard(usize),
}

/// Why a store tree could not be built or resolved.
#[derive(Debug)]
pub enum ConfigError {
    /// A store with children was built without a health registry to scope
    /// its children's registries under.
    MissingHealthRegistry,
    /// A terminal backend's settings are malformed.
    Malformed(Backend),
    /// A shard store lists no members.
    EmptyShard,
    /// A child failed; `cause` is its own error.
    Child { slot: Slot, cause: Box<ConfigError> },
    /// A store refers to the name it is being registered under.
    SelfReference(String),
    /// No store is registered under the name.
    MissingStore(String),
}

pub open spec fn memory_valid(c: MemoryConfig) -> bool {
    c.max_bytes == 0 || c.evict_bytes <= c.max_bytes
}

pub open spec fn filesystem_valid(c: FilesystemConfig) -> bool {
    c.content_path@.len() > 0 && c.temp_path@.len() > 0 && c.content_path@ != c.temp_path@
}

pub open spec fn s3_valid(c: S3Config) -> bool {
    c.bucket@.len() > 0
}

pub open spec fn grpc_valid(c: GrpcConfig) -> bool {
    c.endpoint@.len() > 0
}

/// Whether the configuration describes a node without children.
pub open spec fn is_terminal(c: StoreConfig) -> bool {
    match c {
        StoreConfig::Memory(_) | StoreConfig::Filesystem(_) | StoreConfig::S3(_)
        | StoreConfig::Grpc(_) | StoreConfig::Noop | StoreConfig::RefStore { .. } => true,
        _ => false,
    }
}

/// Name of a child's health registry within its parent's.
pub open spec fn slot_name(slot: Slot) -> Seq<char> {
    match slot {
        Slot::Inner => "inner_store"@,
        Slot::Index => "index_store"@,
        Slot::Content => "content_store"@,
        Slot::Ac => "ac"@,
        Slot::Cas => "cas"@,
        Slot::Fast => "fast"@,
        Slot::Slow => "slow"@,
        Slot::Lower => "lower"@,
        Slot::Upper => "upper"@,
        Slot::Shard(_) => "shard"@,
    }
}

pub fn slot_label(slot: Slot) -> (r: String)
    ensures
        r@ == slot_name(slot),
{
    let r = match slot {
        Slot::Inner => String::from_str("inner_store"),
        Slot::Index => String::from_str("index_store"),
        Slot::Content => String::from_str("content_store"),
        Slot::Ac => String::from_str("ac"),
        Slot::Cas => String::from_str("cas"),
        Slot::Fast => String::from_str("fast"),
        Slot::Slow => String::from_str("slow"),
        Slot::Lower => String::from_str("lower"),
        Slot::Upper => String::from_str("upper"),
        Slot::Shard(_) => String::from_str("shard"),
    };
    r
}

impl FilesystemConfig {
    pub fn duplicate(&self) -> (r: FilesystemConfig)
        ensures
            r == *self,
    {
        FilesystemConfig { content_path: self.content_path.clone(), temp_path: self.temp_path.clone() }
    }
}

impl S3Config {
    pub fn duplicate(&self) -> (r: S3Config)
        ensures
            r == *self,
    {
        S3Config { region: self.region.clone(), bucket: self.bucket.clone() }
    }
}

impl GrpcConfig {
    pub fn duplicate(&self) -> (r: GrpcConfig)
        ensures
            r == *self,
    {
        GrpcConfig { instance_name: self.instance_name.clone(), endpoint: self.endpoint.clone() }
    }
}

impl Store {
    /// The node's own synchronous health probe. A node holds no connection or
    /// data of its own, so it reports `Okay`; backends report their own
    /// liveness through indicators registered beside it.
    pub fn check_health(&self) -> (r: HealthStatus)
        ensures
            r == HealthStatus::Okay,
    {
        HealthStatus::Okay
    }
}

} // verus!
