//! Health status values and the hierarchical health registry.

use vstd::prelude::*;

verus! {

/// Coarse liveness classification reported by a health indicator.
#[derive(Debug, Clone, Copy, PartialEq, Eq, Structural)]
pub enum HealthStatus {
    Okay,
    Initializing,
    Warning,
    Failed,
}

/// Mathematical model of a registry node: its name segment, its indicators in
/// registration order and its child registries in registration order.
pub struct RegistryModel<I> {
    pub component: Seq<char>,
    pub indicators: Seq<I>,
    pub children: Seq<RegistryModel<I>>,
}

/// A registry node: a component name, the indicators registered on it and the
/// child registries added below it.
pub struct HealthRegistry<I> {
    component: String,
    indicators: Vec<I>,
    registries: Vec<HealthRegistry<I>>,
}

pub closed spec fn registry_model<I>(r: HealthRegistry<I>) -> RegistryModel<I>
    decreases r, 0nat,
{
    RegistryModel {
        component: r.component@,
        indicators: r.indicators@,
        children: registry_models(r.registries@),
    }
}

pub closed spec fn registry_models<I>(rs: Seq<HealthRegistry<I>>) -> Seq<RegistryModel<I>>
    decreases rs, 1nat,
{
    if rs.len() == 0 {
        Seq::empty()
    } else {
        registry_models(rs.drop_last()).push(registry_model(rs.last()))
    }
}

impl<I> View for HealthRegistry<I> {
    type V = RegistryModel<I>;

    open spec fn view(&self) -> RegistryModel<I> {
        registry_model(*self)
    }
}

proof fn lemma_registry_models<I>(rs: Seq<HealthRegistry<I>>)
    ensures
        registry_models(rs).len() == rs.len(),
        forall|i: int| 0 <= i < rs.len() ==> #[trigger] registry_models(rs)[i] == registry_model(rs[i]),
    decreases rs.len(),
{
    if rs.len() > 0 {
        lemma_registry_models(rs.drop_last());
    }
}


/// A resolved health report: the slash-separated path of the registry node the
/// indicator was registered on, and the status it reported.
#[derive(Debug, Clone)]
pub struct HealthStatusDescription {
    pub component: String,
    pub status: HealthStatus,
}

impl View for HealthStatusDescription {
    type V = (Seq<char>, HealthStatus);

    open spec fn view(&self) -> (Seq<char>, HealthStatus) {
        (self.component@, self.status)
    }
}

impl PartialEq for HealthStatusDescription {
    fn eq(&self, other: &HealthStatusDescription) -> (r: bool) {
        self.component == other.component && self.status == other.status
    }
}

impl vstd::std_specs::cmp::PartialEqSpecImpl for HealthStatusDescription {
    open spec fn obeys_eq_spec() -> bool {
        true
    }

    open spec fn eq_spec(&self, other: &HealthStatusDescription) -> bool {
        self@ == other@
    }
}

/// Path of a child named `component` below the node at `path`.
pub open spec fn child_path(path: Seq<char>, component: Seq<char>) -> Seq<char> {
    path + seq!['/'] + component
}

/// Every indicator of the tree `r`, whose root sits at `path`, paired with the
/// path of the node it was registered on: a node's own indicators first, then
/// the subtrees of its children in registration order.
pub open spec fn entries<I>(r: RegistryModel<I>, path: Seq<char>) -> Seq<(Seq<char>, I)>
    decreases r, 0nat,
{
    r.indicators.map_values(|i: I| (path, i)) + children_entries(r.children, path)
}

pub open spec fn children_entries<I>(cs: Seq<RegistryModel<I>>, path: Seq<char>) -> Seq<
    (Seq<char>, I),
>
    decreases cs, 1nat,
{
    if cs.len() == 0 {
        Seq::empty()
    } else {
        children_entries(cs.drop_last(), path) + entries(
            cs.last(),
            child_path(path, cs.last().component),
        )
    }
}

/// The indicators of a whole tree, in flattening order; the root's path is its
/// own component name.
pub open spec fn flat_entries<I>(r: RegistryModel<I>) -> Seq<(Seq<char>, I)> {
    entries(r, r.component)
}

pub open spec fn entry_view<I>(e: (String, &I)) -> (Seq<char>, I) {
    (e.0@, *e.1)
}

/// The status recorded for one indicator check: a failed check counts as
/// `Failed`.
pub open spec fn status_of<E>(outcome: Result<HealthStatus, E>) -> HealthStatus {
    match outcome {
        Result::Ok(s) => s,
        Result::Err(_) => HealthStatus::Failed,
    }
}

/// The report for a tree whose indicators, in flattening order, answered
/// `outcomes`.
pub open spec fn described<I, E>(r: RegistryModel<I>, outcomes: Seq<Result<HealthStatus, E>>) -> Seq<
    (Seq<char>, HealthStatus),
> {
    Seq::new(flat_entries(r).len(), |k: int| (flat_entries(r)[k].0, status_of(outcomes[k])))
}

/// Flattening an unchanged tree twice yields equal reports, in content and in
/// order, whenever every indicator gives the same answer both times.
pub proof fn flatten_is_repeatable<I, E>(
    r: RegistryModel<I>,
    first: Seq<Result<HealthStatus, E>>,
    second: Seq<Result<HealthStatus, E>>,
)
    requires
        first.len() == flat_entries(r).len(),
        second.len() == first.len(),
        forall|k: int| 0 <= k < first.len() ==> status_of(#[trigger] first[k]) == status_of(second[k]),
    ensures
        described(r, first) == described(r, second),
{
    assert(described(r, first) =~= described(r, second));
}

/// When a single indicator's check fails and every other one reports a status
/// other than `Failed`, the report still holds an entry for every indicator,
/// each other entry carries its own status, and the only `Failed` entry is the
/// failing indicator's, at its path.
pub proof fn failure_is_isolated<I, E>(r: RegistryModel<I>, outcomes: Seq<Result<HealthStatus, E>>, k: int)
    requires
        outcomes.len() == flat_entries(r).len(),
        0 <= k < outcomes.len(),
        outcomes[k] is Err,
        forall|j: int|
            0 <= j < outcomes.len() && j != k ==> #[trigger] outcomes[j] is Ok && outcomes[j]->Ok_0
                != HealthStatus::Failed,
    ensures
        described(r, outcomes).len() == flat_entries(r).len(),
        described(r, outcomes)[k] == (flat_entries(r)[k].0, HealthStatus::Failed),
        forall|j: int|
            0 <= j < outcomes.len() && j != k ==> #[trigger] described(r, outcomes)[j] == (
                flat_entries(r)[j].0,
                outcomes[j]->Ok_0,
            ),
        forall|j: int|
            0 <= j < outcomes.len() ==> (#[trigger] described(r, outcomes)[j].1
                == HealthStatus::Failed <==> j == k),
{
}

impl<I> HealthRegistry<I> {
    /// An empty registry node named `component`.
    pub fn new(component: String) -> (r: Self)
        ensures
            r@ == (RegistryModel::<I> {
                component: component@,
                indicators: Seq::empty(),
                children: Seq::empty(),
            }),
    {
        let r = HealthRegistry { component, indicators: Vec::new(), registries: Vec::new() };
        assert(r.registries@ =~= Seq::<HealthRegistry<I>>::empty());
        r
    }

    /// Appends `indicator` to this node's indicators.
    pub fn register_indicator(&mut self, indicator: I)
        ensures
            final(self)@ == (RegistryModel::<I> {
                indicators: old(self)@.indicators.push(indicator),
                ..old(self)@
            }),
    {
        self.indicators.push(indicator);
    }

    /// Adds an empty child registry named `component` after the existing
    /// children, and hands out the new child for further building.
    pub fn add_dependency(&mut self, component: String) -> (r: &mut HealthRegistry<I>)
        ensures
            r@ == (RegistryModel::<I> {
                component: component@,
                indicators: Seq::empty(),
                children: Seq::empty(),
            }),
            final(self)@ == (RegistryModel::<I> {
                children: old(self)@.children.push(final(r)@),
                ..old(self)@
            }),
    {
        let dependency = HealthRegistry::new(component);
        let ghost before = self.registries@;
        proof {
            assert forall|x: HealthRegistry<I>|
                #[trigger] registry_models(before.push(x)) == registry_models(before).push(
                    registry_model(x),
                ) by {
                assert(before.push(x).drop_last() =~= before);
            }
        }
        self.registries.push(dependency);
        let n = self.registries.len() - 1;
        let r = &mut self.registries[n];
        assert(after_borrow(self.registries)@ == before.push(*final(r)));
        assert(after_borrow(self.component) == old(self).component);
        assert(after_borrow(self.indicators) == old(self).indicators);
        assert(registry_models(after_borrow(self.registries)@) == registry_models(before).push(
            registry_model(*final(r)),
        ));
        r
    }


    /// Appends an already built registry as the last child.
    pub(crate) fn adopt(&mut self, child: HealthRegistry<I>)
        ensures
            final(self)@ == (RegistryModel::<I> {
                children: old(self)@.children.push(child@),
                ..old(self)@
            }),
    {
        proof {
            assert(self.registries@.push(child).drop_last() =~= self.registries@);
        }
        self.registries.push(child);
    }

    fn collect<'a>(&'a self, path: String, out: &mut Vec<(String, &'a I)>)
        ensures
            final(out)@.map_values(|e: (String, &'a I)| entry_view(e)) == old(out)@.map_values(
                |e: (String, &'a I)| entry_view(e),
            ) + entries(self@, path@),
        decreases self@,
    {
        let ghost start = out@.map_values(|e: (String, &'a I)| entry_view(e));
        let ghost own = self@.indicators.map_values(|i: I| (path@, i));
        let mut i: usize = 0;
        while i < self.indicators.len()
            invariant
                i <= self.indicators@.len(),
                self@.indicators == self.indicators@,
                own == self@.indicators.map_values(|i: I| (path@, i)),
                out@.map_values(|e: (String, &'a I)| entry_view(e)) == start + own.take(i as int),
            decreases self.indicators@.len() - i,
        {
            let p = path.clone();
            let ghost prev = out@;
            out.push((p, &self.indicators[i]));
            proof {
                assert(out@.map_values(|e: (String, &'a I)| entry_view(e)) =~= prev.map_values(
                    |e: (String, &'a I)| entry_view(e),
                ).push(own[i as int]));
                assert(own.take(i + 1) =~= own.take(i as int).push(own[i as int]));
                assert(out@.map_values(|e: (String, &'a I)| entry_view(e)) =~= start + own.take(
                    i + 1,
                ));
            }
            i = i + 1;
        }
        assert(own.take(i as int) =~= own);
        proof {
            lemma_registry_models(self.registries@);
        }
        let ghost cs = self@.children;
        let mut j: usize = 0;
        while j < self.registries.len()
            invariant
                j <= self.registries@.len(),
                cs == self@.children,
                cs.len() == self.registries@.len(),
                forall|k: int| 0 <= k < cs.len() ==> #[trigger] cs[k] == self.registries@[k]@,
                out@.map_values(|e: (String, &'a I)| entry_view(e)) == start + own
                    + children_entries(cs.take(j as int), path@),
            decreases self.registries@.len() - j,
        {
            let child = &self.registries[j];
            let sub_path = path.clone().concat("/").concat(child.component.as_str());
            proof {
                reveal_strlit("/");
            }
            assert(sub_path@ =~= child_path(path@, cs[j as int].component));
            assert(decreases_to!(self@ => cs[j as int]));
            child.collect(sub_path, out);
            proof {
                let t = cs.take(j + 1);
                assert(t.drop_last() =~= cs.take(j as int));
                assert(t.last() == cs[j as int]);
                assert(out@.map_values(|e: (String, &'a I)| entry_view(e)) =~= start + own
                    + children_entries(t, path@));
            }
            j = j + 1;
        }
        assert(cs.take(j as int) =~= cs);
        assert(own + children_entries(cs, path@) == entries(self@, path@));
    }

    /// Every registered indicator of the tree with the path of the node it sits
    /// on, in flattening order: a node's own indicators first, then each child
    /// subtree in registration order.
    pub fn iter_collectors<'a>(&'a self) -> (r: Vec<(String, &'a I)>)
        ensures
            r@.map_values(|e: (String, &'a I)| entry_view(e)) == flat_entries(self@),
    {
        let mut out: Vec<(String, &'a I)> = Vec::new();
        let path = self.component.clone();
        assert(out@.map_values(|e: (String, &'a I)| entry_view(e)) =~= Seq::empty());
        self.collect(path, &mut out);
        assert(Seq::<(Seq<char>, I)>::empty() + flat_entries(self@) =~= flat_entries(self@));
        out
    }

    /// The report of the tree, given what each indicator answered, in the
    /// order of `iter_collectors`; a failed check is reported as `Failed`
    /// and does not affect any other entry.
    pub fn flatten_with<E>(&self, outcomes: Vec<Result<HealthStatus, E>>) -> (r: Vec<
        HealthStatusDescription,
    >)
        requires
            outcomes@.len() == flat_entries(self@).len(),
        ensures
            r@.map_values(|d: HealthStatusDescription| d@) == described(self@, outcomes@),
    {
        let entries = self.iter_collectors();
        let ghost fe = flat_entries(self@);
        assert(forall|k: int| 0 <= k < entries@.len() ==> #[trigger] entries@[k].0@ == fe[k].0) by {
            assert forall|k: int| 0 <= k < entries@.len() implies #[trigger] entries@[k].0@ == fe[k].0 by {
                assert(entries@.map_values(|e: (String, &I)| entry_view(e))[k] == fe[k]);
            }
        }
        let mut r: Vec<HealthStatusDescription> = Vec::new();
        let mut k: usize = 0;
        while k < entries.len()
            invariant
                entries@.len() == fe.len(),
                outcomes@.len() == fe.len(),
                fe == flat_entries(self@),
                k <= entries@.len(),
                forall|m: int| 0 <= m < entries@.len() ==> #[trigger] entries@[m].0@ == fe[m].0,
                r@.len() == k,
                forall|m: int|
                    0 <= m < k ==> #[trigger] r@[m]@ == (fe[m].0, status_of(outcomes@[m])),
            decreases entries@.len() - k,
        {
            let status = match &outcomes[k] {
                Result::Ok(s) => *s,
                Result::Err(_) => HealthStatus::Failed,
            };
            r.push(HealthStatusDescription { component: entries[k].0.clone(), status });
            k = k + 1;
        }
        assert(r@.map_values(|d: HealthStatusDescription| d@) =~= described(self@, outcomes@));
        r
    }
}

} // verus!
