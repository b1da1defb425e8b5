//! The store composition factory: builds a store tree from its configuration,
//! bottom-up, and mirrors it in a health registry tree.

use std::sync::Arc;
use vstd::prelude::*;
use vstd::string::StringExecFns;

use crate::health::{
    entry_view, flat_entries, HealthRegistry, HealthStatus, HealthStatusDescription, RegistryModel,
};
use crate::store::{
    filesystem_valid, grpc_valid, is_terminal, memory_valid, s3_valid, slot_label, slot_name, Backend,
    ConfigError, ShardConfig, ShardMember, Slot, Store, StoreConfig,
};

verus! {

/// Name of the registry under which a store with children scopes the
/// registries of its children.
pub open spec fn variant_name(c: StoreConfig) -> Seq<char> {
    match c {
        StoreConfig::Verify { .. } => "verify_store"@,
        StoreConfig::Compression { .. } => "compression"@,
        StoreConfig::Dedup { .. } => "dedup"@,
        StoreConfig::ExistenceCache { .. } => "existence_cache"@,
        StoreConfig::CompletenessChecking { .. } => "completeness_checking"@,
        StoreConfig::FastSlow { .. } => "fast_slow"@,
        StoreConfig::SizePartitioning { .. } => "size_partitioning"@,
        StoreConfig::Shard { .. } => "shard_store"@,
        _ => Seq::empty(),
    }
}

/// The error of building `c` with a health registry at hand, if any: a
/// malformed terminal backend, an empty shard store, or else the first failing
/// child in configuration order, wrapped with its slot.
pub open spec fn config_error(c: StoreConfig) -> Option<ConfigError>
    decreases c, 0nat,
{
    match c {
        StoreConfig::Memory(m) => if memory_valid(m) {
            None
        } else {
            Some(ConfigError::Malformed(Backend::Memory))
        },
        StoreConfig::Filesystem(f) => if filesystem_valid(f) {
            None
        } else {
            Some(ConfigError::Malformed(Backend::Filesystem))
        },
        StoreConfig::S3(b) => if s3_valid(b) {
            None
        } else {
            Some(ConfigError::Malformed(Backend::S3))
        },
        StoreConfig::Grpc(g) => if grpc_valid(g) {
            None
        } else {
            Some(ConfigError::Malformed(Backend::Grpc))
        },
        StoreConfig::Noop => None,
        StoreConfig::RefStore { .. } => None,
        StoreConfig::Verify { backend, .. } => child_error(Slot::Inner, *backend),
        StoreConfig::Compression { backend } => child_error(Slot::Inner, *backend),
        StoreConfig::Dedup { index_store, content_store } => first_of(
            child_error(Slot::Index, *index_store),
            child_error(Slot::Content, *content_store),
        ),
        StoreConfig::ExistenceCache { backend } => child_error(Slot::Inner, *backend),
        StoreConfig::CompletenessChecking { backend, cas_store } => first_of(
            child_error(Slot::Ac, *backend),
            child_error(Slot::Cas, *cas_store),
        ),
        StoreConfig::FastSlow { fast, slow } => first_of(
            child_error(Slot::Fast, *fast),
            child_error(Slot::Slow, *slow),
        ),
        StoreConfig::SizePartitioning { lower_store, upper_store, .. } => first_of(
            child_error(Slot::Lower, *lower_store),
            child_error(Slot::Upper, *upper_store),
        ),
        StoreConfig::Shard { stores } => if stores@.len() == 0 {
            Some(ConfigError::EmptyShard)
        } else {
            members_error(stores@)
        },
    }
}

pub open spec fn first_of(a: Option<ConfigError>, b: Option<ConfigError>) -> Option<ConfigError> {
    if a is Some {
        a
    } else {
        b
    }
}

/// The error of the child `c` in `slot`, as its parent reports it.
pub open spec fn child_error(slot: Slot, c: StoreConfig) -> Option<ConfigError>
    decreases c, 1nat,
{
    match config_error(c) {
        Some(e) => Some(ConfigError::Child { slot, cause: Box::new(e) }),
        None => None,
    }
}

/// The first error among shard members `cs`, in configuration order.
pub open spec fn members_error(cs: Seq<ShardConfig>) -> Option<ConfigError>
    decreases cs, 2nat,
{
    if cs.len() == 0 {
        None
    } else {
        first_of(
            members_error(cs.drop_last()),
            child_error(Slot::Shard((cs.len() - 1) as usize), cs.last().store),
        )
    }
}


/// Whether `s` is the node that building `c` yields: the same kind, the same
/// settings, and each child built from the matching child configuration; a
/// shard store keeps its members in configuration order.
pub open spec fn builds(c: StoreConfig, s: Store) -> bool
    decreases c, 0nat,
{
    match c {
        StoreConfig::Memory(m) => s == Store::Memory(m),
        StoreConfig::Filesystem(f) => s == Store::Filesystem(f),
        StoreConfig::S3(b) => s == Store::S3(b),
        StoreConfig::Grpc(g) => s == Store::Grpc(g),
        StoreConfig::Noop => s is Noop,
        StoreConfig::RefStore { name } => s == Store::RefStore { name },
        StoreConfig::Verify { backend, verify_size, verify_hash } => match s {
            Store::Verify { inner, verify_size: vs, verify_hash: vh } => vs == verify_size && vh
                == verify_hash && builds(*backend, *inner),
            _ => false,
        },
        StoreConfig::Compression { backend } => match s {
            Store::Compression { inner } => builds(*backend, *inner),
            _ => false,
        },
        StoreConfig::Dedup { index_store, content_store } => match s {
            Store::Dedup { index_store: i, content_store: t } => builds(*index_store, *i) && builds(
                *content_store,
                *t,
            ),
            _ => false,
        },
        StoreConfig::ExistenceCache { backend } => match s {
            Store::ExistenceCache { inner } => builds(*backend, *inner),
            _ => false,
        },
        StoreConfig::CompletenessChecking { backend, cas_store } => match s {
            Store::CompletenessChecking { ac_store: a, cas_store: b } => builds(*backend, *a)
                && builds(*cas_store, *b),
            _ => false,
        },
        StoreConfig::FastSlow { fast, slow } => match s {
            Store::FastSlow { fast: f, slow: w } => builds(*fast, *f) && builds(*slow, *w),
            _ => false,
        },
        StoreConfig::SizePartitioning { size, lower_store, upper_store } => match s {
            Store::SizePartitioning { size: z, lower_store: l, upper_store: u } => z == size
                && builds(*lower_store, *l) && builds(*upper_store, *u),
            _ => false,
        },
        StoreConfig::Shard { stores } => match s {
            Store::Shard { stores: ms } => builds_members(stores@, ms@),
            _ => false,
        },
    }
}

/// Members `ms` are built from `cs`, one for one and in the same order.
pub open spec fn builds_members(cs: Seq<ShardConfig>, ms: Seq<ShardMember>) -> bool
    decreases cs, 1nat,
{
    cs.len() == ms.len() && forall|i: int|
        0 <= i < cs.len() ==> ms[i].weight == cs[i].weight && builds(cs[i].store, *ms[i].store)
}

pub open spec fn empty_node(name: Seq<char>) -> RegistryModel<Arc<Store>> {
    RegistryModel { component: name, indicators: Seq::empty(), children: Seq::empty() }
}

/// The registry `r` after `c` was built into it as the node `s`. A terminal
/// node registers itself on `r`. A node with children adds below `r` one
/// registry named after its kind, holding one registry per child slot, into
/// which that child was built in turn.
pub open spec fn registered(c: StoreConfig, s: Arc<Store>, r: RegistryModel<Arc<Store>>) -> RegistryModel<
    Arc<Store>,
>
    decreases c, 1nat,
{
    if is_terminal(c) {
        RegistryModel { indicators: r.indicators.push(s), ..r }
    } else {
        RegistryModel {
            children: r.children.push(
                RegistryModel {
                    component: variant_name(c),
                    indicators: Seq::empty(),
                    children: child_nodes(c, *s),
                },
            ),
            ..r
        }
    }
}

pub open spec fn slot_node(slot: Slot, c: StoreConfig, s: Arc<Store>) -> RegistryModel<Arc<Store>>
    decreases c, 2nat,
{
    registered(c, s, empty_node(slot_name(slot)))
}

/// The registries of the children of the node `s` built from `c`, in slot
/// order.
pub open spec fn child_nodes(c: StoreConfig, s: Store) -> Seq<RegistryModel<Arc<Store>>>
    decreases c, 0nat,
{
    match c {
        StoreConfig::Verify { backend, .. } => match s {
            Store::Verify { inner, .. } => seq![slot_node(Slot::Inner, *backend, inner)],
            _ => Seq::empty(),
        },
        StoreConfig::Compression { backend } => match s {
            Store::Compression { inner } => seq![slot_node(Slot::Inner, *backend, inner)],
            _ => Seq::empty(),
        },
        StoreConfig::Dedup { index_store, content_store } => match s {
            Store::Dedup { index_store: i, content_store: t } => seq![
                slot_node(Slot::Index, *index_store, i),
                slot_node(Slot::Content, *content_store, t),
            ],
            _ => Seq::empty(),
        },
        StoreConfig::ExistenceCache { backend } => match s {
            Store::ExistenceCache { inner } => seq![slot_node(Slot::Inner, *backend, inner)],
            _ => Seq::empty(),
        },
        StoreConfig::CompletenessChecking { backend, cas_store } => match s {
            Store::CompletenessChecking { ac_store: a, cas_store: b } => seq![
                slot_node(Slot::Ac, *backend, a),
                slot_node(Slot::Cas, *cas_store, b),
            ],
            _ => Seq::empty(),
        },
        StoreConfig::FastSlow { fast, slow } => match s {
            Store::FastSlow { fast: f, slow: w } => seq![
                slot_node(Slot::Fast, *fast, f),
                slot_node(Slot::Slow, *slow, w),
            ],
            _ => Seq::empty(),
        },
        StoreConfig::SizePartitioning { lower_store, upper_store, .. } => match s {
            Store::SizePartitioning { lower_store: l, upper_store: u, .. } => seq![
                slot_node(Slot::Lower, *lower_store, l),
                slot_node(Slot::Upper, *upper_store, u),
            ],
            _ => Seq::empty(),
        },
        StoreConfig::Shard { stores } => match s {
            Store::Shard { stores: ms } => member_nodes(stores@, ms@),
            _ => Seq::empty(),
        },
        _ => Seq::empty(),
    }
}

/// The registries of shard members `ms` built from `cs`, in order.
pub open spec fn member_nodes(cs: Seq<ShardConfig>, ms: Seq<ShardMember>) -> Seq<
    RegistryModel<Arc<Store>>,
>
    decreases cs, 3nat,
{
    if cs.len() == 0 {
        Seq::empty()
    } else {
        member_nodes(cs.drop_last(), ms.drop_last()).push(
            slot_node(Slot::Shard((cs.len() - 1) as usize), cs.last().store, ms[cs.len() - 1].store),
        )
    }
}


/// Builds `config` as the child in `slot` of a node whose registry is `node`.
fn build_child(slot: Slot, config: &StoreConfig, node: &mut HealthRegistry<Arc<Store>>) -> (r: Result<
    Arc<Store>,
    ConfigError,
>)
    ensures
        match r {
            Ok(s) => child_error(slot, *config) is None && builds(*config, *s) && final(node)@ == (
            RegistryModel {
                children: old(node)@.children.push(slot_node(slot, *config, s)),
                ..old(node)@
            }),
            Err(e) => child_error(slot, *config) == Some(e),
        },
    decreases config, 1nat,
{
    let reg = node.add_dependency(slot_label(slot));
    match store_factory(config, reg) {
        Ok(s) => Ok(s),
        Err(e) => Err(ConfigError::Child { slot, cause: Box::new(e) }),
    }
}

fn register_terminal(store: Store, health: &mut HealthRegistry<Arc<Store>>) -> (r: Arc<Store>)
    ensures
        *r == store,
        final(health)@ == (RegistryModel { indicators: old(health)@.indicators.push(r), ..old(health)@ }),
{
    let s = Arc::new(store);
    health.register_indicator(s.clone());
    s
}

/// Builds the store tree described by `backend`, children before parents,
/// and registers it for health on `health`: a terminal node registers itself
/// there, a node with children adds there a registry named after its kind
/// with one registry per child slot. On failure nothing is registered.
pub fn store_factory(backend: &StoreConfig, health: &mut HealthRegistry<Arc<Store>>) -> (r: Result<
    Arc<Store>,
    ConfigError,
>)
    ensures
        match r {
            Ok(s) => config_error(*backend) is None && builds(*backend, *s) && final(health)@
                == registered(*backend, s, old(health)@),
            Err(e) => config_error(*backend) == Some(e) && final(health)@ == old(health)@,
        },
    decreases backend, 0nat,
{
    match backend {
        StoreConfig::Memory(m) => {
            if m.max_bytes != 0 && m.evict_bytes > m.max_bytes {
                return Err(ConfigError::Malformed(Backend::Memory));
            }
            Ok(register_terminal(Store::Memory(*m), health))
        },
        StoreConfig::Filesystem(f) => {
            if f.content_path.as_str().is_empty() || f.temp_path.as_str().is_empty()
                || f.content_path == f.temp_path {
                return Err(ConfigError::Malformed(Backend::Filesystem));
            }
            Ok(register_terminal(Store::Filesystem(f.duplicate()), health))
        },
        StoreConfig::S3(b) => {
            if b.bucket.as_str().is_empty() {
                return Err(ConfigError::Malformed(Backend::S3));
            }
            Ok(register_terminal(Store::S3(b.duplicate()), health))
        },
        StoreConfig::Grpc(g) => {
            if g.endpoint.as_str().is_empty() {
                return Err(ConfigError::Malformed(Backend::Grpc));
            }
            Ok(register_terminal(Store::Grpc(g.duplicate()), health))
        },
        StoreConfig::Noop => Ok(register_terminal(Store::Noop, health)),
        StoreConfig::RefStore { name } => Ok(
            register_terminal(Store::RefStore { name: name.clone() }, health),
        ),
        StoreConfig::Verify { backend: inner_config, verify_size, verify_hash } => {
            proof {
                reveal_strlit("verify_store");
            }
            let mut node = HealthRegistry::new(String::from_str("verify_store"));
            let inner = match build_child(Slot::Inner, inner_config, &mut node) {
                Ok(s) => s,
                Err(e) => return Err(e),
            };
            health.adopt(node);
            let s = Arc::new(
                Store::Verify { inner, verify_size: *verify_size, verify_hash: *verify_hash },
            );
            assert(node@.children =~= child_nodes(*backend, *s));
            Ok(s)
        },
        StoreConfig::Compression { backend: inner_config } => {
            proof {
                reveal_strlit("compression");
            }
            let mut node = HealthRegistry::new(String::from_str("compression"));
            let inner = match build_child(Slot::Inner, inner_config, &mut node) {
                Ok(s) => s,
                Err(e) => return Err(e),
            };
            health.adopt(node);
            let s = Arc::new(Store::Compression { inner });
            assert(node@.children =~= child_nodes(*backend, *s));
            Ok(s)
        },
        StoreConfig::Dedup { index_store, content_store } => {
            proof {
                reveal_strlit("dedup");
            }
            let mut node = HealthRegistry::new(String::from_str("dedup"));
            let first = match build_child(Slot::Index, index_store, &mut node) {
                Ok(s) => s,
                Err(e) => return Err(e),
            };
            let second = match build_child(Slot::Content, content_store, &mut node) {
                Ok(s) => s,
                Err(e) => return Err(e),
            };
            health.adopt(node);
            let s = Arc::new(Store::Dedup { index_store: first, content_store: second });
            assert(node@.children =~= child_nodes(*backend, *s));
            Ok(s)
        },
        StoreConfig::ExistenceCache { backend: inner_config } => {
            proof {
                reveal_strlit("existence_cache");
            }
            let mut node = HealthRegistry::new(String::from_str("existence_cache"));
            let inner = match build_child(Slot::Inner, inner_config, &mut node) {
                Ok(s) => s,
                Err(e) => return Err(e),
            };
            health.adopt(node);
            let s = Arc::new(Store::ExistenceCache { inner });
            assert(node@.children =~= child_nodes(*backend, *s));
            Ok(s)
        },
        StoreConfig::CompletenessChecking { backend: ac_config, cas_store } => {
            proof {
                reveal_strlit("completeness_checking");
            }
            let mut node = HealthRegistry::new(String::from_str("completeness_checking"));
            let first = match build_child(Slot::Ac, ac_config, &mut node) {
                Ok(s) => s,
                Err(e) => return Err(e),
            };
            let second = match build_child(Slot::Cas, cas_store, &mut node) {
                Ok(s) => s,
                Err(e) => return Err(e),
            };
            health.adopt(node);
            let s = Arc::new(Store::CompletenessChecking { ac_store: first, cas_store: second });
            assert(node@.children =~= child_nodes(*backend, *s));
            Ok(s)
        },
        StoreConfig::FastSlow { fast, slow } => {
            proof {
                reveal_strlit("fast_slow");
            }
            let mut node = HealthRegistry::new(String::from_str("fast_slow"));
            let first = match build_child(Slot::Fast, fast, &mut node) {
                Ok(s) => s,
                Err(e) => return Err(e),
            };
            let second = match build_child(Slot::Slow, slow, &mut node) {
                Ok(s) => s,
                Err(e) => return Err(e),
            };
            health.adopt(node);
            let s = Arc::new(Store::FastSlow { fast: first, slow: second });
            assert(node@.children =~= child_nodes(*backend, *s));
            Ok(s)
        },
        StoreConfig::SizePartitioning { size, lower_store, upper_store } => {
            proof {
                reveal_strlit("size_partitioning");
            }
            let mut node = HealthRegistry::new(String::from_str("size_partitioning"));
            let first = match build_child(Slot::Lower, lower_store, &mut node) {
                Ok(s) => s,
                Err(e) => return Err(e),
            };
            let second = match build_child(Slot::Upper, upper_store, &mut node) {
                Ok(s) => s,
                Err(e) => return Err(e),
            };
            health.adopt(node);
            let s = Arc::new(Store::SizePartitioning { size: *size, lower_store: first, upper_store: second });
            assert(node@.children =~= child_nodes(*backend, *s));
            Ok(s)
        },
        StoreConfig::Shard { stores } => build_shard(backend, stores, health),
    }
}


/// Builds every member of a shard store, in configuration order, and reports
/// the first member error, if any, once all were attempted.
fn build_shard(
    backend: &StoreConfig,
    stores: &Vec<ShardConfig>,
    health: &mut HealthRegistry<Arc<Store>>,
) -> (r: Result<Arc<Store>, ConfigError>)
    requires
        *backend == (StoreConfig::Shard { stores: *stores }),
    ensures
        match r {
            Ok(s) => config_error(*backend) is None && builds(*backend, *s) && final(health)@
                == registered(*backend, s, old(health)@),
            Err(e) => config_error(*backend) == Some(e) && final(health)@ == old(health)@,
        },
    decreases backend, 0nat, 0nat,
{
    if stores.len() == 0 {
        return Err(ConfigError::EmptyShard);
    }
    proof {
        reveal_strlit("shard_store");
    }
    let mut node = HealthRegistry::new(String::from_str("shard_store"));
    let ghost node_name = node@.component;
    let ghost cs = stores@;
    let mut members: Vec<ShardMember> = Vec::new();
    let mut first_error: Option<ConfigError> = None;
    let mut i: usize = 0;
    while i < stores.len()
        invariant
            cs == stores@,
            *backend == (StoreConfig::Shard { stores: *stores }),
            i <= cs.len(),
            node_name == "shard_store"@,
            first_error is None ==> members_error(cs.take(i as int)) is None && builds_members(
                cs.take(i as int),
                members@,
            ) && node@ == (RegistryModel {
                component: node_name,
                indicators: Seq::empty(),
                children: member_nodes(cs.take(i as int), members@),
            }),
            first_error is Some ==> members_error(cs.take(i as int)) == first_error,
        decreases cs.len() - i,
    {
        let ghost prefix = cs.take(i as int);
        let ghost next = cs.take(i + 1);
        proof {
            assert(next.drop_last() =~= prefix);
            assert(next.last() == cs[i as int]);
            assert(decreases_to!(*backend => backend->stores));
        }
        let built = build_child(Slot::Shard(i), &stores[i].store, &mut node);
        match built {
            Ok(s) => {
                if first_error.is_none() {
                    let ghost before = members@;
                    members.push(ShardMember { store: s, weight: stores[i].weight });
                    proof {
                        assert(members@.drop_last() =~= before);
                        assert(builds_members(next, members@));
                        assert(node@.children =~= member_nodes(next, members@));
                    }
                }
            },
            Err(e) => {
                if first_error.is_none() {
                    first_error = Some(e);
                }
            },
        }
        i = i + 1;
    }
    proof {
        assert(cs.take(i as int) =~= cs);
    }
    match first_error {
        Some(e) => Err(e),
        None => {
            health.adopt(node);
            let s = Arc::new(Store::Shard { stores: members });
            assert(node@.children =~= child_nodes(*backend, *s));
            Ok(s)
        },
    }
}


/// Whether `c` holds, at any depth, a link to the store named `n`.
pub open spec fn refers_to(c: StoreConfig, n: Seq<char>) -> bool
    decreases c, 0nat,
{
    match c {
        StoreConfig::RefStore { name } => name@ == n,
        StoreConfig::Verify { backend, .. } => refers_to(*backend, n),
        StoreConfig::Compression { backend } => refers_to(*backend, n),
        StoreConfig::Dedup { index_store, content_store } => refers_to(*index_store, n) || refers_to(
            *content_store,
            n,
        ),
        StoreConfig::ExistenceCache { backend } => refers_to(*backend, n),
        StoreConfig::CompletenessChecking { backend, cas_store } => refers_to(*backend, n)
            || refers_to(*cas_store, n),
        StoreConfig::FastSlow { fast, slow } => refers_to(*fast, n) || refers_to(*slow, n),
        StoreConfig::SizePartitioning { lower_store, upper_store, .. } => refers_to(
            *lower_store,
            n,
        ) || refers_to(*upper_store, n),
        StoreConfig::Shard { stores } => exists|i: int|
            0 <= i < stores@.len() && refers_to(#[trigger] stores@[i].store, n),
        _ => false,
    }
}

/// Whether `config` links, at any depth, to the store named `name`.
pub fn mentions(config: &StoreConfig, name: &String) -> (r: bool)
    ensures
        r == refers_to(*config, name@),
    decreases config,
{
    match config {
        StoreConfig::RefStore { name: target } => *target == *name,
        StoreConfig::Verify { backend, .. } => mentions(backend, name),
        StoreConfig::Compression { backend } => mentions(backend, name),
        StoreConfig::Dedup { index_store, content_store } => mentions(index_store, name) || mentions(
            content_store,
            name,
        ),
        StoreConfig::ExistenceCache { backend } => mentions(backend, name),
        StoreConfig::CompletenessChecking { backend, cas_store } => mentions(backend, name)
            || mentions(cas_store, name),
        StoreConfig::FastSlow { fast, slow } => mentions(fast, name) || mentions(slow, name),
        StoreConfig::SizePartitioning { lower_store, upper_store, .. } => mentions(
            lower_store,
            name,
        ) || mentions(upper_store, name),
        StoreConfig::Shard { stores } => {
            let mut i: usize = 0;
            while i < stores.len()
                invariant
                    *config == (StoreConfig::Shard { stores: *stores }),
                    i <= stores@.len(),
                    forall|j: int| 0 <= j < i ==> !refers_to(#[trigger] stores@[j].store, name@),
                decreases stores@.len() - i,
            {
                proof {
                    assert(decreases_to!(*config => config->stores));
                    assert(decreases_to!(*stores => stores@));
                    assert(decreases_to!(stores@ => stores@[i as int]));
                    assert(decreases_to!(stores@[i as int] => stores@[i as int].store));
                }
                if mentions(&stores[i].store, name) {
                    return true;
                }
                i = i + 1;
            }
            false
        },
        _ => false,
    }
}

/// Builds `backend` where no health registry is at hand: a terminal node is
/// built as usual, a node with children cannot scope its children's
/// registries and is refused.
pub fn store_factory_unregistered(backend: &StoreConfig) -> (r: Result<Arc<Store>, ConfigError>)
    ensures
        !is_terminal(*backend) ==> r matches Err(ConfigError::MissingHealthRegistry),
        is_terminal(*backend) ==> match r {
            Ok(s) => config_error(*backend) is None && builds(*backend, *s),
            Err(e) => config_error(*backend) == Some(e),
        },
{
    match backend {
        StoreConfig::Memory(_) | StoreConfig::Filesystem(_) | StoreConfig::S3(_)
        | StoreConfig::Grpc(_) | StoreConfig::Noop | StoreConfig::RefStore { .. } => {
            let mut scratch: HealthRegistry<Arc<Store>> = HealthRegistry::new(String::new());
            store_factory(backend, &mut scratch)
        },
        _ => Err(ConfigError::MissingHealthRegistry),
    }
}

/// A built shard store holds one member per configured member, in the
/// configured order, each built from its own configuration with its weight.
pub proof fn shard_order_kept(c: StoreConfig, s: Store)
    requires
        c is Shard,
        builds(c, s),
    ensures
        s is Shard,
        s->Shard_stores@.len() == c->Shard_stores@.len(),
        forall|i: int|
            0 <= i < c->Shard_stores@.len() ==> #[trigger] s->Shard_stores@[i].weight
                == c->Shard_stores@[i].weight && builds(
                c->Shard_stores@[i].store,
                *s->Shard_stores@[i].store,
            ),
{
    assert(builds_members(c->Shard_stores@, s->Shard_stores@));
}


impl HealthRegistry<Arc<Store>> {
    /// The health report of a store tree: every registered store, in
    /// flattening order, with the status of its own probe.
    pub fn flatten(&self) -> (r: Vec<HealthStatusDescription>)
        ensures
            r@.len() == flat_entries(self@).len(),
            forall|k: int|
                0 <= k < r@.len() ==> #[trigger] r@[k]@ == (
                    flat_entries(self@)[k].0,
                    HealthStatus::Okay,
                ),
    {
        let entries = self.iter_collectors();
        let mut outcomes: Vec<Result<HealthStatus, ConfigError>> = Vec::new();
        let mut k: usize = 0;
        while k < entries.len()
            invariant
                k <= entries@.len(),
                outcomes@.len() == k,
                forall|m: int| 0 <= m < k ==> #[trigger] outcomes@[m] == Ok::<HealthStatus, ConfigError>(HealthStatus::Okay),
            decreases entries@.len() - k,
        {
            outcomes.push(Ok(entries[k].1.check_health()));
            k = k + 1;
        }
        assert(entries@.map_values(|e: (String, &Arc<Store>)| entry_view(e)).len() == entries@.len());
        let r = self.flatten_with(outcomes);
        proof {
            let views = r@.map_values(|d: HealthStatusDescription| d@);
            assert(views.len() == r@.len());
            assert forall|k: int| 0 <= k < r@.len() implies #[trigger] r@[k]@ == (
                flat_entries(self@)[k].0,
                HealthStatus::Okay,
            ) by {
                assert(views[k] == r@[k]@);
            }
        }
        r
    }
}

} // verus!
