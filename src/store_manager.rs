//! Registry of built stores by name.

use std::sync::Arc;
use vstd::prelude::*;

use crate::factory::{builds, config_error, mentions, refers_to, registered, store_factory};
use crate::health::{HealthRegistry, HealthStatus};
use crate::store::{ConfigError, Store, StoreConfig};

verus! {

/// Named stores, each name held once, kept in the order in which each name
/// was first added.
pub struct StoreManager {
    stores: Vec<(String, Arc<Store>)>,
}

impl StoreManager {
    /// No name is held twice.
    pub closed spec fn wf(&self) -> bool {
        forall|i: int, j: int|
            0 <= i < j < self.stores@.len() ==> #[trigger] self.stores@[i].0@
                != #[trigger] self.stores@[j].0@
    }

    /// The registered names, in the order in which each was first added.
    pub closed spec fn names(&self) -> Seq<Seq<char>> {
        self.stores@.map_values(|e: (String, Arc<Store>)| e.0@)
    }

    pub closed spec fn index_of(&self, name: Seq<char>) -> int {
        choose|i: int| 0 <= i < self.stores@.len() && self.stores@[i].0@ == name
    }

    /// Each registered name with the store registered under it.
    pub closed spec fn view(&self) -> Map<Seq<char>, Arc<Store>> {
        Map::new(
            |k: Seq<char>| exists|i: int| 0 <= i < self.stores@.len() && self.stores@[i].0@ == k,
            |k: Seq<char>| self.stores@[self.index_of(k)].1,
        )
    }

    /// An empty manager.
    pub fn new() -> (r: StoreManager)
        ensures
            r.wf(),
            r@ == Map::<Seq<char>, Arc<Store>>::empty(),
            r.names() == Seq::<Seq<char>>::empty(),
    {
        let r = StoreManager { stores: Vec::new() };
        assert(r@ =~= Map::<Seq<char>, Arc<Store>>::empty());
        assert(r.names() =~= Seq::<Seq<char>>::empty());
        r
    }

    /// Position of `name` among the registered stores, if registered.
    fn find(&self, name: &String) -> (r: Option<usize>)
        ensures
            match r {
                Some(i) => i < self.stores@.len() && self.stores@[i as int].0@ == name@,
                None => forall|i: int| 0 <= i < self.stores@.len() ==> self.stores@[i].0@ != name@,
            },
    {
        let mut i: usize = 0;
        while i < self.stores.len()
            invariant
                i <= self.stores@.len(),
                forall|j: int| 0 <= j < i ==> self.stores@[j].0@ != name@,
            decreases self.stores@.len() - i,
        {
            if self.stores[i].0 == *name {
                return Some(i);
            }
            i = i + 1;
        }
        None
    }

    /// Registers `store` under `name`, replacing any store registered under
    /// it before; a new name goes after the existing ones.
    pub fn add_store(&mut self, name: &str, store: Arc<Store>)
        requires
            old(self).wf(),
        ensures
            final(self).wf(),
            final(self)@ == old(self)@.insert(name@, store),
            old(self)@.contains_key(name@) ==> final(self).names() == old(self).names(),
            !old(self)@.contains_key(name@) ==> final(self).names() == old(self).names().push(
                name@,
            ),
    {
        let key = name.to_owned();
        match self.find(&key) {
            Some(i) => {
                assert(self@.contains_key(name@));
                let ghost before = self.stores@;
                self.stores.set(i, (key, store));
                proof {
                    assert(self.names() =~= old(self).names());
                    assert forall|k: Seq<char>| #[trigger] self@.contains_key(k) == old(self)@.insert(name@, store).contains_key(k) by {
                        if k == name@ {
                            assert(self.stores@[i as int].0@ == k);
                        } else {
                            if old(self)@.contains_key(k) {
                                let j = old(self).index_of(k);
                                assert(self.stores@[j].0@ == k);
                            }
                            if self@.contains_key(k) {
                                let j = self.index_of(k);
                                assert(old(self).stores@[j].0@ == k);
                            }
                        }
                    }
                    assert forall|k: Seq<char>| #[trigger] self@.contains_key(k) implies self@[k] == old(self)@.insert(name@, store)[k] by {
                        if k == name@ {
                            assert(self.index_of(k) == i);
                        } else {
                            let j = self.index_of(k);
                            assert(old(self).index_of(k) == j);
                        }
                    }
                    assert(self@ =~= old(self)@.insert(name@, store));
                }
            },
            None => {
                assert(!self@.contains_key(name@));
                self.stores.push((key, store));
                proof {
                    assert(self.names() =~= old(self).names().push(name@));
                    assert forall|k: Seq<char>| #[trigger] self@.contains_key(k) == old(self)@.insert(name@, store).contains_key(k) by {
                        let n = old(self).stores@.len();
                        if k == name@ {
                            assert(self.stores@[n as int].0@ == k);
                        } else {
                            if old(self)@.contains_key(k) {
                                let j = old(self).index_of(k);
                                assert(self.stores@[j].0@ == k);
                            }
                            if self@.contains_key(k) {
                                let j = self.index_of(k);
                                assert(old(self).stores@[j].0@ == k);
                            }
                        }
                    }
                    assert forall|k: Seq<char>| #[trigger] self@.contains_key(k) implies self@[k] == old(self)@.insert(name@, store)[k] by {
                        let n = old(self).stores@.len();
                        if k == name@ {
                            assert(self.stores@[n as int].0@ == k);
                            assert(self.index_of(k) == n);
                        } else {
                            let j = self.index_of(k);
                            assert(old(self).index_of(k) == j);
                        }
                    }
                    assert(self@ =~= old(self)@.insert(name@, store));
                }
            },
        }
    }

    /// The store registered under `name`, if any.
    pub fn get_store(&self, name: &str) -> (r: Option<Arc<Store>>)
        requires
            self.wf(),
        ensures
            r == (if self@.contains_key(name@) {
                Some(self@[name@])
            } else {
                None
            }),
    {
        let key = name.to_owned();
        match self.find(&key) {
            Some(i) => {
                assert(self@.contains_key(name@));
                assert(self.index_of(name@) == i);
                Some(self.stores[i].1.clone())
            },
            None => None,
        }
    }

    /// Each registered name, in registration order, with what its store's
    /// health probe reports.
    pub fn get_stores_health(&self) -> (r: Vec<(String, HealthStatus)>)
        requires
            self.wf(),
        ensures
            r@.len() == self.names().len(),
            forall|i: int|
                0 <= i < r@.len() ==> (#[trigger] r@[i]).0@ == self.names()[i] && r@[i].1
                    == HealthStatus::Okay,
            self.names().no_duplicates(),
            forall|k: Seq<char>| #[trigger] self@.contains_key(k) <==> self.names().contains(k),
    {
        proof {
            assert forall|k: Seq<char>| #[trigger] self@.contains_key(k) <==> self.names().contains(k) by {
                if self@.contains_key(k) {
                    let j = self.index_of(k);
                    assert(self.names()[j] == k);
                }
            }
        }
        let mut r: Vec<(String, HealthStatus)> = Vec::new();
        let mut i: usize = 0;
        while i < self.stores.len()
            invariant
                i <= self.stores@.len(),
                r@.len() == i,
                forall|j: int|
                    0 <= j < i ==> (#[trigger] r@[j]).0@ == self.stores@[j].0@ && r@[j].1
                        == HealthStatus::Okay,
            decreases self.stores@.len() - i,
        {
            let status = self.stores[i].1.check_health();
            r.push((self.stores[i].0.clone(), status));
            i = i + 1;
        }
        r
    }

    /// The store named `name`, as a link to it resolves; a missing name is a
    /// configuration error.
    pub fn resolve_ref(&self, name: &str) -> (r: Result<Arc<Store>, ConfigError>)
        requires
            self.wf(),
        ensures
            match r {
                Ok(s) => self@.contains_key(name@) && s == self@[name@],
                Err(e) => !self@.contains_key(name@) && (e matches ConfigError::MissingStore(n)
                    && n@ == name@),
            },
    {
        match self.get_store(name) {
            Some(s) => Ok(s),
            None => Err(ConfigError::MissingStore(name.to_owned())),
        }
    }

    /// Builds `config` with `store_factory`, registering its health on
    /// `health`, and registers the result under `name`. A configuration that
    /// links to `name` itself is refused. On failure neither the manager nor
    /// the health registry changes.
    pub fn build_store(
        &mut self,
        name: &str,
        config: &StoreConfig,
        health: &mut HealthRegistry<Arc<Store>>,
    ) -> (r: Result<Arc<Store>, ConfigError>)
        requires
            old(self).wf(),
        ensures
            final(self).wf(),
            match r {
                Ok(s) => !refers_to(*config, name@) && config_error(*config) is None && builds(
                    *config,
                    *s,
                ) && final(self)@ == old(self)@.insert(name@, s) && final(health)@ == registered(
                    *config,
                    s,
                    old(health)@,
                ),
                Err(e) => final(self)@ == old(self)@ && final(self).names() == old(self).names()
                    && final(health)@ == old(health)@ && if refers_to(*config, name@) {
                    (e matches ConfigError::SelfReference(n) && n@ == name@)
                } else {
                    config_error(*config) == Some(e)
                },
            },
    {
        let key = name.to_owned();
        if mentions(config, &key) {
            return Err(ConfigError::SelfReference(key));
        }
        let s = match store_factory(config, health) {
            Ok(s) => s,
            Err(e) => return Err(e),
        };
        self.add_store(name, s.clone());
        Ok(s)
    }
}

impl Default for StoreManager {
    fn default() -> (r: StoreManager)
        ensures
            r.wf(),
            r@ == Map::<Seq<char>, Arc<Store>>::empty(),
    {
        StoreManager::new()
    }
}

/// The stores known after registering each `(name, store)` of `adds` in turn
/// on an empty manager.
pub open spec fn after_adds(adds: Seq<(Seq<char>, Arc<Store>)>) -> Map<Seq<char>, Arc<Store>>
    decreases adds.len(),
{
    if adds.len() == 0 {
        Map::empty()
    } else {
        after_adds(adds.drop_last()).insert(adds.last().0, adds.last().1)
    }
}

/// After any sequence of registrations on an empty manager, a name never
/// registered has no store, and a registered name has the store of its last
/// registration.
pub proof fn latest_add_wins(adds: Seq<(Seq<char>, Arc<Store>)>, name: Seq<char>)
    ensures
        (forall|i: int| 0 <= i < adds.len() ==> #[trigger] adds[i].0 != name) ==> !after_adds(
            adds,
        ).contains_key(name),
        forall|i: int|
            0 <= i < adds.len() && #[trigger] adds[i].0 == name && (forall|j: int|
                i < j < adds.len() ==> adds[j].0 != name) ==> after_adds(adds).contains_key(name)
                && after_adds(adds)[name] == adds[i].1,
    decreases adds.len(),
{
    if adds.len() > 0 {
        let rest = adds.drop_last();
        latest_add_wins(rest, name);
        assert forall|i: int|
            0 <= i < adds.len() && #[trigger] adds[i].0 == name && (forall|j: int|
                i < j < adds.len() ==> adds[j].0 != name) implies after_adds(adds).contains_key(name)
            && after_adds(adds)[name] == adds[i].1 by {
            if i < adds.len() - 1 {
                assert(rest[i].0 == name);
                assert(adds[adds.len() - 1].0 != name);
            }
        }
        if forall|i: int| 0 <= i < adds.len() ==> #[trigger] adds[i].0 != name {
            assert forall|i: int| 0 <= i < rest.len() implies #[trigger] rest[i].0 != name by {
                assert(adds[i].0 != name);
            }
        }
    }
}

} // verus!
