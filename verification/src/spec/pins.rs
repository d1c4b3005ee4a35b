//! Runtime specs keyed by runtime.

use vstd::prelude::*;

use crate::error::{Error, ErrorModel};
use crate::spec::runtime::{
    lemma_runtime_lt_irreflexive, lemma_runtime_lt_total, lemma_runtime_lt_transitive,
    runtime_lt, runtime_name, Runtime, RuntimeModel, RuntimeSpec, RuntimeSpecModel,
};

verus! {

pub type Entry = (RuntimeModel, RuntimeSpecModel);

/// Keys strictly increasing in the order of runtimes (so no key twice).
pub open spec fn sorted_by_runtime(m: Seq<Entry>) -> bool {
    forall|i: int, j: int| 0 <= i < j < m.len() ==> runtime_lt(#[trigger] m[i].0, #[trigger] m[j].0)
}

pub open spec fn has_key(m: Seq<Entry>, k: RuntimeModel) -> bool {
    exists|i: int| 0 <= i < m.len() && #[trigger] m[i].0 == k
}

/// The map that a list of entries with distinct keys stands for.
pub open spec fn entries_map(m: Seq<Entry>) -> Map<RuntimeModel, RuntimeSpecModel> {
    Map::new(
        |k: RuntimeModel| has_key(m, k),
        |k: RuntimeModel| m[choose|i: int| 0 <= i < m.len() && #[trigger] m[i].0 == k].1,
    )
}

/// The map that `specs`, inserted one after another under their runtimes, give.
pub open spec fn specs_map(specs: Seq<RuntimeSpecModel>) -> Map<RuntimeModel, RuntimeSpecModel>
    decreases specs.len(),
{
    if specs.len() == 0 {
        Map::empty()
    } else {
        specs_map(specs.drop_last()).insert(specs.last().runtime, specs.last())
    }
}

/// No runtime occurs twice among the first `n` specs.
pub open spec fn distinct_runtimes(specs: Seq<RuntimeSpecModel>, n: int) -> bool {
    forall|i: int, j: int|
        0 <= i < j < n ==> (#[trigger] specs[i]).runtime != (#[trigger] specs[j]).runtime
}

/// The spec at `i` repeats the runtime of an earlier one.
pub open spec fn repeats_runtime(specs: Seq<RuntimeSpecModel>, i: int) -> bool {
    exists|j: int| 0 <= j < i && (#[trigger] specs[j]).runtime == specs[i].runtime
}

/// After storing a spec under a runtime, that runtime reads back the spec, and
/// any other runtime reads back what it read before.
pub proof fn law_pins_read_after_write(
    before: Map<RuntimeModel, RuntimeSpecModel>,
    runtime: RuntimeModel,
    spec: RuntimeSpecModel,
    other: RuntimeModel,
)
    requires
        other != runtime,
    ensures
        before.insert(runtime, spec).contains_key(runtime),
        before.insert(runtime, spec)[runtime] == spec,
        before.insert(runtime, spec).contains_key(other) == before.contains_key(other),
        before.contains_key(other) ==> before.insert(runtime, spec)[other] == before[other],
{
}

/// Specs with distinct runtimes, collected, map each of their runtimes to that
/// spec and nothing else.
pub proof fn law_distinct_specs_map(specs: Seq<RuntimeSpecModel>)
    requires
        distinct_runtimes(specs, specs.len() as int),
    ensures
        forall|i: int|
            0 <= i < specs.len() ==> specs_map(specs).contains_key((#[trigger] specs[i]).runtime)
                && specs_map(specs)[specs[i].runtime] == specs[i],
        forall|k: RuntimeModel|
            #[trigger] specs_map(specs).contains_key(k) ==> exists|i: int|
                0 <= i < specs.len() && (#[trigger] specs[i]).runtime == k,
    decreases specs.len(),
{
    if specs.len() > 0 {
        let rest = specs.drop_last();
        assert forall|i: int, j: int| 0 <= i < j < rest.len() implies (#[trigger] rest[i]).runtime
            != (#[trigger] rest[j]).runtime by {
            assert(specs[i] == rest[i] && specs[j] == rest[j]);
        }
        law_distinct_specs_map(rest);
        assert forall|i: int| 0 <= i < specs.len() implies specs_map(specs).contains_key(
            (#[trigger] specs[i]).runtime,
        ) && specs_map(specs)[specs[i].runtime] == specs[i] by {
            if i < specs.len() - 1 {
                assert(rest[i] == specs[i]);
                assert(specs[i].runtime != specs[specs.len() - 1].runtime);
            }
        }
        assert forall|k: RuntimeModel| #[trigger] specs_map(specs).contains_key(k) implies exists|i: int|
            0 <= i < specs.len() && (#[trigger] specs[i]).runtime == k by {
            if k == specs.last().runtime {
                assert(specs[specs.len() - 1].runtime == k);
            } else {
                assert(specs_map(rest).contains_key(k));
                let i = choose|i: int| 0 <= i < rest.len() && (#[trigger] rest[i]).runtime == k;
                assert(specs[i] == rest[i]);
            }
        }
    }
}

proof fn lemma_entry_in_map(m: Seq<Entry>, i: int)
    requires
        sorted_by_runtime(m),
        0 <= i < m.len(),
    ensures
        entries_map(m).contains_key(m[i].0),
        entries_map(m)[m[i].0] == m[i].1,
{
    assert(has_key(m, m[i].0));
    let j = choose|j: int| 0 <= j < m.len() && #[trigger] m[j].0 == m[i].0;
    if j < i {
        assert(runtime_lt(m[j].0, m[i].0));
        lemma_runtime_lt_irreflexive(m[i].0);
    } else if i < j {
        assert(runtime_lt(m[i].0, m[j].0));
        lemma_runtime_lt_irreflexive(m[i].0);
    }
}

proof fn lemma_insert_new(m: Seq<Entry>, i: int, e: Entry)
    requires
        sorted_by_runtime(m),
        0 <= i <= m.len(),
        forall|j: int| 0 <= j < i ==> runtime_lt(#[trigger] m[j].0, e.0),
        i < m.len() ==> runtime_lt(e.0, m[i].0),
    ensures
        sorted_by_runtime(m.insert(i, e)),
        entries_map(m.insert(i, e)) == entries_map(m).insert(e.0, e.1),
{
    let n = m.insert(i, e);
    assert forall|a: int, b: int| 0 <= a < b < n.len() implies runtime_lt(
        #[trigger] n[a].0,
        #[trigger] n[b].0,
    ) by {
        if b == i {
        } else if a == i {
            if b - 1 > i {
                lemma_runtime_lt_transitive(e.0, m[i].0, m[b - 1].0);
            }
        } else if a < i && b > i {
            if b - 1 > i {
                lemma_runtime_lt_transitive(e.0, m[i].0, m[b - 1].0);
                lemma_runtime_lt_transitive(m[a].0, e.0, m[b - 1].0);
            } else {
                lemma_runtime_lt_transitive(m[a].0, e.0, m[b - 1].0);
            }
        } else if a > i {
            assert(runtime_lt(m[a - 1].0, m[b - 1].0));
        }
    }
    let old_map = entries_map(m).insert(e.0, e.1);
    assert forall|k: RuntimeModel| #[trigger] entries_map(n).contains_key(k) <==> old_map.contains_key(k) by {
        if has_key(n, k) {
            let j = choose|j: int| 0 <= j < n.len() && #[trigger] n[j].0 == k;
            if j < i {
                assert(m[j].0 == k);
            } else if j > i {
                assert(m[j - 1].0 == k);
            }
        }
        if has_key(m, k) {
            let j = choose|j: int| 0 <= j < m.len() && #[trigger] m[j].0 == k;
            if j < i {
                assert(n[j].0 == k);
            } else {
                assert(n[j + 1].0 == k);
            }
        }
        if k == e.0 {
            assert(n[i].0 == k);
        }
    }
    assert forall|k: RuntimeModel| #[trigger] entries_map(n).contains_key(k) implies entries_map(
        n,
    )[k] == old_map[k] by {
        if k == e.0 {
            lemma_entry_in_map(n, i);
        } else {
            let j = choose|j: int| 0 <= j < m.len() && #[trigger] m[j].0 == k;
            lemma_entry_in_map(m, j);
            if j < i {
                lemma_entry_in_map(n, j);
            } else {
                lemma_entry_in_map(n, j + 1);
            }
        }
    }
    assert(entries_map(n) =~= old_map);
}

proof fn lemma_replace_value(m: Seq<Entry>, i: int, v: RuntimeSpecModel)
    requires
        sorted_by_runtime(m),
        0 <= i < m.len(),
    ensures
        sorted_by_runtime(m.update(i, (m[i].0, v))),
        entries_map(m.update(i, (m[i].0, v))) == entries_map(m).insert(m[i].0, v),
{
    let n = m.update(i, (m[i].0, v));
    let old_map = entries_map(m).insert(m[i].0, v);
    assert forall|a: int, b: int| 0 <= a < b < n.len() implies runtime_lt(
        #[trigger] n[a].0,
        #[trigger] n[b].0,
    ) by {
        assert(runtime_lt(m[a].0, m[b].0));
    }
    assert forall|k: RuntimeModel| #[trigger] entries_map(n).contains_key(k) <==> old_map.contains_key(k) by {
        if has_key(n, k) {
            let j = choose|j: int| 0 <= j < n.len() && #[trigger] n[j].0 == k;
            assert(m[j].0 == k);
        }
        if has_key(m, k) {
            let j = choose|j: int| 0 <= j < m.len() && #[trigger] m[j].0 == k;
            assert(n[j].0 == k);
        }
    }
    assert forall|k: RuntimeModel| #[trigger] entries_map(n).contains_key(k) implies entries_map(
        n,
    )[k] == old_map[k] by {
        let j = choose|j: int| 0 <= j < n.len() && #[trigger] n[j].0 == k;
        lemma_entry_in_map(n, j);
        lemma_entry_in_map(m, j);
        if j < i {
            assert(runtime_lt(m[j].0, m[i].0));
            lemma_runtime_lt_irreflexive(k);
        } else if j > i {
            assert(runtime_lt(m[i].0, m[j].0));
            lemma_runtime_lt_irreflexive(k);
        }
    }
    assert(entries_map(n) =~= old_map);
}

/// Runtime specs keyed by runtime.
///
/// Used for both CLI `--use` selectors and resolved concrete pins. Entries are
/// kept in the order of their runtimes, which is the order `values` lists them in.
#[derive(Debug, PartialEq, Eq)]
pub struct RuntimePins {
    entries: Vec<(Runtime, RuntimeSpec)>,
}

pub open spec fn entry_model(e: (Runtime, RuntimeSpec)) -> Entry {
    (e.0@, e.1@)
}

impl RuntimePins {
    /// The entries, in the order of their runtimes.
    pub closed spec fn entries_model(&self) -> Seq<Entry> {
        self.entries@.map_values(|e: (Runtime, RuntimeSpec)| entry_model(e))
    }

    /// The runtimes, in order.
    pub closed spec fn keys_model(&self) -> Seq<RuntimeModel> {
        self.entries_model().map_values(|e: Entry| e.0)
    }

    /// The specs, in the order of their runtimes.
    pub closed spec fn values_model(&self) -> Seq<RuntimeSpecModel> {
        self.entries_model().map_values(|e: Entry| e.1)
    }

    #[verifier::type_invariant]
    spec fn well_ordered(self) -> bool {
        sorted_by_runtime(self.entries_model())
    }
}

impl View for RuntimePins {
    type V = Map<RuntimeModel, RuntimeSpecModel>;

    closed spec fn view(&self) -> Map<RuntimeModel, RuntimeSpecModel> {
        entries_map(self.entries_model())
    }
}

impl RuntimePins {
    pub fn new() -> (r: RuntimePins)
        ensures
            r@ == Map::<RuntimeModel, RuntimeSpecModel>::empty(),
            r.values_model().len() == 0,
    {
        let r = RuntimePins { entries: Vec::new() };
        assert(r@ =~= Map::<RuntimeModel, RuntimeSpecModel>::empty());
        r
    }

    pub fn len(&self) -> (n: usize)
        ensures
            n == self.values_model().len(),
            n == self@.len(),
    {
        proof {
            use_type_invariant(self);
            self.lemma_dom();
        }
        self.entries.len()
    }

    pub fn is_empty(&self) -> (b: bool)
        ensures
            b == (self@.len() == 0),
    {
        self.len() == 0
    }

    /// The domain of the map is the set of the listed runtimes, which has one
    /// element per entry.
    proof fn lemma_dom(&self)
        requires
            sorted_by_runtime(self.entries_model()),
        ensures
            self@.dom() == self.keys_model().to_set(),
            self@.len() == self.entries@.len(),
            self.keys_model().no_duplicates(),
    {
        let m = self.entries_model();
        let keys = self.keys_model();
        assert(self@.dom() =~= keys.to_set()) by {
            assert forall|k: RuntimeModel| self@.dom().contains(k) implies keys.to_set().contains(k) by {
                let j = choose|j: int| 0 <= j < m.len() && #[trigger] m[j].0 == k;
                assert(keys[j] == k);
            }
            assert forall|k: RuntimeModel| keys.to_set().contains(k) implies self@.dom().contains(k) by {
                let j = choose|j: int| 0 <= j < keys.len() && keys[j] == k;
                assert(m[j].0 == k);
            }
        }
        assert forall|i: int, j: int| 0 <= i < keys.len() && 0 <= j < keys.len() && i != j implies keys[i]
            != keys[j] by {
            if i < j {
                assert(runtime_lt(m[i].0, m[j].0));
                lemma_runtime_lt_irreflexive(m[i].0);
            } else {
                assert(runtime_lt(m[j].0, m[i].0));
                lemma_runtime_lt_irreflexive(m[j].0);
            }
        }
        keys.unique_seq_to_set();
    }

    pub fn get(&self, runtime: &Runtime) -> (r: Option<&RuntimeSpec>)
        ensures
            match r {
                Some(spec) => self@.contains_key(runtime@) && self@[runtime@] == spec@,
                None => !self@.contains_key(runtime@),
            },
    {
        proof {
            use_type_invariant(self);
        }
        let mut i: usize = 0;
        while i < self.entries.len()
            invariant
                i <= self.entries.len(),
                sorted_by_runtime(self.entries_model()),
                forall|j: int| 0 <= j < i ==> (#[trigger] self.entries_model()[j]).0 != runtime@,
            decreases self.entries.len() - i,
        {
            if self.entries[i].0.same_as(runtime) {
                proof {
                    lemma_entry_in_map(self.entries_model(), i as int);
                }
                return Some(&self.entries[i].1);
            }
            i = i + 1;
        }
        proof {
            if has_key(self.entries_model(), runtime@) {
                let j = choose|j: int|
                    0 <= j < self.entries_model().len() && #[trigger] self.entries_model()[j].0
                        == runtime@;
                assert(self.entries_model()[j].0 != runtime@);
            }
        }
        None
    }

    /// Stores `spec` under `runtime`, giving back the spec that was stored there.
    pub fn insert(&mut self, runtime: Runtime, spec: RuntimeSpec) -> (r: Option<RuntimeSpec>)
        ensures
            final(self)@ == old(self)@.insert(runtime@, spec@),
            match r {
                Some(prev) => old(self)@.contains_key(runtime@) && old(self)@[runtime@]
                    == prev@,
                None => !old(self)@.contains_key(runtime@),
            },
    {
        proof {
            use_type_invariant(&*self);
        }
        let mut entries: Vec<(Runtime, RuntimeSpec)> = Vec::new();
        std::mem::swap(&mut entries, &mut self.entries);
        let ghost m = entries@.map_values(|e: (Runtime, RuntimeSpec)| entry_model(e));
        assert(m == old(self).entries_model());
        let mut i: usize = 0;
        while i < entries.len() && entries[i].0.precedes(&runtime)
            invariant
                i <= entries.len(),
                m == entries@.map_values(|e: (Runtime, RuntimeSpec)| entry_model(e)),
                forall|j: int| 0 <= j < i ==> runtime_lt(#[trigger] m[j].0, runtime@),
            decreases entries.len() - i,
        {
            i = i + 1;
        }
        if i < entries.len() && entries[i].0.same_as(&runtime) {
            let (key, prev) = entries.remove(i);
            entries.insert(i, (key, spec));
            proof {
                lemma_replace_value(m, i as int, spec@);
                lemma_entry_in_map(m, i as int);
                assert(entries@.map_values(|e: (Runtime, RuntimeSpec)| entry_model(e)) =~= m.update(
                    i as int,
                    (m[i as int].0, spec@),
                ));
            }
            self.entries = entries;
            Some(prev)
        } else {
            proof {
                if i < entries.len() {
                    lemma_runtime_lt_total(m[i as int].0, runtime@);
                }
                if has_key(m, runtime@) {
                    let j = choose|j: int| 0 <= j < m.len() && #[trigger] m[j].0 == runtime@;
                    if j < i {
                        lemma_runtime_lt_irreflexive(runtime@);
                    } else if j > i {
                        lemma_runtime_lt_transitive(runtime@, m[i as int].0, m[j].0);
                        lemma_runtime_lt_irreflexive(runtime@);
                    }
                }
            }
            let ghost e: Entry = (runtime@, spec@);
            entries.insert(i, (runtime, spec));
            proof {
                lemma_insert_new(m, i as int, e);
                assert(entries@.map_values(|e: (Runtime, RuntimeSpec)| entry_model(e)) =~= m.insert(
                    i as int,
                    e,
                ));
            }
            self.entries = entries;
            None
        }
    }

    /// The stored specs, in the order of their runtimes.
    pub fn values(&self) -> (r: Vec<&RuntimeSpec>)
        ensures
            r@.len() == self.values_model().len(),
            forall|i: int| 0 <= i < r@.len() ==> (#[trigger] r@[i])@ == self.values_model()[i],
            self.keys_model().len() == self.values_model().len(),
            forall|i: int, j: int|
                0 <= i < j < self.keys_model().len() ==> runtime_lt(
                    #[trigger] self.keys_model()[i],
                    #[trigger] self.keys_model()[j],
                ),
            forall|i: int|
                0 <= i < self.keys_model().len() ==> self@.contains_key(
                    #[trigger] self.keys_model()[i],
                ) && self@[self.keys_model()[i]] == self.values_model()[i],
            self@.dom() == self.keys_model().to_set(),
    {
        proof {
            use_type_invariant(self);
            self.lemma_dom();
            assert forall|i: int| 0 <= i < self.keys_model().len() implies self@.contains_key(
                #[trigger] self.keys_model()[i],
            ) && self@[self.keys_model()[i]] == self.values_model()[i] by {
                lemma_entry_in_map(self.entries_model(), i);
            }
        }
        let mut r: Vec<&RuntimeSpec> = Vec::new();
        let mut i: usize = 0;
        while i < self.entries.len()
            invariant
                i <= self.entries.len(),
                r@.len() == i,
                forall|j: int| 0 <= j < i ==> (#[trigger] r@[j])@ == self.values_model()[j],
            decreases self.entries.len() - i,
        {
            r.push(&self.entries[i].1);
            i = i + 1;
        }
        r
    }

    /// A copy holding the same specs in the same order.
    pub fn duplicate(&self) -> (r: RuntimePins)
        ensures
            r@ == self@,
            r.values_model() == self.values_model(),
            r.keys_model() == self.keys_model(),
    {
        proof {
            use_type_invariant(self);
        }
        let mut entries: Vec<(Runtime, RuntimeSpec)> = Vec::new();
        let mut i: usize = 0;
        while i < self.entries.len()
            invariant
                i <= self.entries.len(),
                entries@.len() == i,
                forall|k: int|
                    0 <= k < i ==> entry_model(#[trigger] entries@[k]) == self.entries_model()[k],
            decreases self.entries.len() - i,
        {
            let e = &self.entries[i];
            let key = e.0.clone();
            let value = e.1.clone();
            entries.push((key, value));
            i = i + 1;
        }
        assert(entries@.map_values(|e: (Runtime, RuntimeSpec)| entry_model(e))
            =~= self.entries_model());
        RuntimePins { entries }
    }

    /// Collects `--use` specs, refusing a runtime given twice.
    pub fn try_from(uses: Vec<RuntimeSpec>) -> (r: Result<RuntimePins, Error>)
        ensures
            match r {
                Ok(pins) => distinct_runtimes(uses@.map_values(|s: RuntimeSpec| s@), uses@.len() as int)
                    && pins@ == specs_map(uses@.map_values(|s: RuntimeSpec| s@)),
                Err(e) => exists|i: int|
                    0 <= i < uses@.len() && repeats_runtime(uses@.map_values(|s: RuntimeSpec| s@), i)
                        && distinct_runtimes(uses@.map_values(|s: RuntimeSpec| s@), i) && e@
                        == (ErrorModel::DuplicateRuntimeUse {
                        runtime: runtime_name(uses@[i]@.runtime),
                    }),
            },
    {
        let ghost specs = uses@.map_values(|s: RuntimeSpec| s@);
        let mut pins = RuntimePins::new();
        let mut i: usize = 0;
        assert(specs.take(0) =~= Seq::<RuntimeSpecModel>::empty());
        while i < uses.len()
            invariant
                i <= uses.len(),
                specs == uses@.map_values(|s: RuntimeSpec| s@),
                distinct_runtimes(specs, i as int),
                pins@ == specs_map(specs.take(i as int)),
                forall|k: RuntimeModel|
                    pins@.contains_key(k) <==> exists|j: int|
                        0 <= j < i && (#[trigger] specs[j]).runtime == k,
            decreases uses.len() - i,
        {
            let spec = uses[i].clone();
            let runtime = spec.runtime().clone();
            let ghost before = pins@;
            assert(specs.take(i + 1).drop_last() =~= specs.take(i as int));
            if pins.insert(runtime, spec).is_some() {
                let name = uses[i].runtime().to_string();
                proof {
                    let j = choose|j: int| 0 <= j < i && (#[trigger] specs[j]).runtime == specs[i as int].runtime;
                    assert(repeats_runtime(specs, i as int));
                }
                return Err(Error::DuplicateRuntimeUse { runtime: name });
            }
            proof {
                assert forall|k: RuntimeModel|
                    pins@.contains_key(k) <==> exists|j: int|
                        0 <= j < i + 1 && (#[trigger] specs[j]).runtime == k by {
                    if k == specs[i as int].runtime {
                        assert(specs[i as int].runtime == k);
                    }
                }
            }
            i = i + 1;
        }
        assert(specs.take(uses.len() as int) =~= specs);
        Ok(pins)
    }
}

impl Clone for RuntimePins {
    fn clone(&self) -> (r: Self)
        ensures
            r@ == self@,
            r.values_model() == self.values_model(),
    {
        self.duplicate()
    }
}

impl Default for RuntimePins {
    fn default() -> (r: Self)
        ensures
            r@ == Map::<RuntimeModel, RuntimeSpecModel>::empty(),
    {
        RuntimePins::new()
    }
}

} // verus!
