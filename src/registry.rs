//! The deployment registry: a durable mapping from deployment name to the
//! subgraph id it points at and the node assigned to run it. Every committed
//! change yields the deployment events that the reconciler consumes.
use vstd::prelude::*;

use crate::name::{is_valid_name, SubgraphDeploymentName};

verus! {

/// Whether a deployment event adds or removes a binding.
#[derive(Clone, Copy, Debug, PartialEq, Eq, Structural)]
pub enum EventKind {
    Add,
    Remove,
}

/// One committed change of the registry, as seen by a node.
#[derive(Clone, Debug)]
pub struct DeploymentEvent {
    pub kind: EventKind,
    pub deployment_name: String,
    pub subgraph_id: String,
    pub node_id: String,
}

/// The abstract content of an event: kind, name, subgraph id and node.
pub type EventView = (EventKind, Seq<char>, Seq<char>, Seq<char>);

impl View for DeploymentEvent {
    type V = EventView;

    open spec fn view(&self) -> EventView {
        (self.kind, self.deployment_name@, self.subgraph_id@, self.node_id@)
    }
}

impl DeploymentEvent {
    /// Whether this event belongs to the stream of `node_id`.
    pub fn is_for(&self, node_id: &String) -> (r: bool)
        ensures
            r == (self.node_id@ == node_id@),
    {
        self.node_id == *node_id
    }
}

/// The abstract registry: name to (subgraph id, node).
pub type RegistryView = Map<Seq<char>, (Seq<char>, Seq<char>)>;

/// The events that a write of `name -> (id, node)` emits on `m`: a removal of
/// a different earlier binding of the name, then the addition.
pub open spec fn write_events(m: RegistryView, name: Seq<char>, id: Seq<char>, node: Seq<char>) -> Seq<
    EventView,
> {
    if m.contains_key(name) && m[name] != (id, node) {
        seq![(EventKind::Remove, name, m[name].0, m[name].1), (EventKind::Add, name, id, node)]
    } else {
        seq![(EventKind::Add, name, id, node)]
    }
}

/// The events that removing `name` emits on `m`: one removal if it was bound.
pub open spec fn remove_events(m: RegistryView, name: Seq<char>) -> Seq<EventView> {
    if m.contains_key(name) {
        seq![(EventKind::Remove, name, m[name].0, m[name].1)]
    } else {
        seq![]
    }
}

/// The view of a sequence of events.
pub open spec fn events_view(es: Seq<DeploymentEvent>) -> Seq<EventView> {
    es.map_values(|e: DeploymentEvent| e@)
}

/// The bindings of `m` that belong to `node`, as name to subgraph id.
pub open spec fn bindings_of_node(m: RegistryView, node: Seq<char>) -> Map<Seq<char>, Seq<char>> {
    Map::new(|n: Seq<char>| m.contains_key(n) && m[n].1 == node, |n: Seq<char>| m[n].0)
}

/// A list of (name, id) pairs whose names are distinct and which holds exactly
/// the bindings of `b`.
pub open spec fn lists_bindings(rows: Seq<(String, String)>, b: Map<Seq<char>, Seq<char>>) -> bool {
    &&& forall|i: int, j: int|
        0 <= i < rows.len() && 0 <= j < rows.len() && i != j ==> rows[i].0@ != rows[j].0@
    &&& forall|i: int|
        0 <= i < rows.len() ==> b.contains_key(#[trigger] rows[i].0@) && b[rows[i].0@]
            == rows[i].1@
    &&& forall|n: Seq<char>| #[trigger]
        b.contains_key(n) ==> exists|i: int| 0 <= i < rows.len() && rows[i].0@ == n
}

/// One row of the registry.
#[derive(Clone, Debug)]
pub struct DeploymentRecord {
    pub name: String,
    pub subgraph_id: String,
    pub node_id: String,
}

/// An in-memory deployment registry. Rows hold distinct names.
pub struct DeploymentRegistry {
    rows: Vec<DeploymentRecord>,
}

/// The abstract registry that a list of rows holds.
pub closed spec fn rows_view(rows: Seq<DeploymentRecord>) -> RegistryView {
    Map::new(
        |n: Seq<char>| exists|i: int| 0 <= i < rows.len() && rows[i].name@ == n,
        |n: Seq<char>|
            {
                let i = choose|i: int| 0 <= i < rows.len() && rows[i].name@ == n;
                (rows[i].subgraph_id@, rows[i].node_id@)
            },
    )
}

/// Rows whose names are distinct.
pub closed spec fn distinct_names(rows: Seq<DeploymentRecord>) -> bool {
    forall|i: int, j: int|
        0 <= i < rows.len() && 0 <= j < rows.len() && i != j ==> rows[i].name@ != rows[j].name@
}

proof fn lemma_rows_view(rows: Seq<DeploymentRecord>, i: int)
    requires
        distinct_names(rows),
        0 <= i < rows.len(),
    ensures
        rows_view(rows).contains_key(rows[i].name@),
        rows_view(rows)[rows[i].name@] == (rows[i].subgraph_id@, rows[i].node_id@),
{
    let n = rows[i].name@;
    assert(exists|k: int| 0 <= k < rows.len() && rows[k].name@ == n);
    let k = choose|k: int| 0 <= k < rows.len() && rows[k].name@ == n;
    assert(k == i);
}

impl View for DeploymentRegistry {
    type V = RegistryView;

    closed spec fn view(&self) -> RegistryView {
        rows_view(self.rows@)
    }
}

impl DeploymentRegistry {
    /// Names are distinct across rows and satisfy the naming policy.
    pub closed spec fn wf(&self) -> bool {
        &&& distinct_names(self.rows@)
        &&& forall|i: int| 0 <= i < self.rows@.len() ==> is_valid_name(#[trigger] self.rows@[i].name@)
    }

    /// Only names that satisfy the naming policy are bound.
    pub proof fn lemma_names_valid(&self, n: Seq<char>)
        requires
            self.wf(),
            self@.contains_key(n),
        ensures
            is_valid_name(n),
    {
        let k = choose|k: int| 0 <= k < self.rows@.len() && self.rows@[k].name@ == n;
    }

    proof fn lemma_row_view(&self, i: int)
        requires
            distinct_names(self.rows@),
            0 <= i < self.rows@.len(),
        ensures
            self@.contains_key(self.rows@[i].name@),
            self@[self.rows@[i].name@] == (self.rows@[i].subgraph_id@, self.rows@[i].node_id@),
    {
        lemma_rows_view(self.rows@, i);
    }

    /// An empty registry.
    pub fn new() -> (r: DeploymentRegistry)
        ensures
            r.wf(),
            r@ == RegistryView::empty(),
    {
        let r = DeploymentRegistry { rows: Vec::new() };
        assert(r@ =~= RegistryView::empty());
        r
    }

    /// The row index of `name`, if it is bound.
    fn find(&self, name: &String) -> (r: Option<usize>)
        requires
            self.wf(),
        ensures
            r is None <==> !self@.contains_key(name@),
            r matches Some(i) ==> i < self.rows@.len() && self.rows@[i as int].name@ == name@,
    {
        let mut i: usize = 0;
        while i < self.rows.len()
            invariant
                self.wf(),
                i <= self.rows@.len(),
                forall|j: int| 0 <= j < i ==> self.rows@[j].name@ != name@,
            decreases self.rows@.len() - i,
        {
            if self.rows[i].name == *name {
                proof {
                    self.lemma_row_view(i as int);
                }
                return Some(i);
            }
            i = i + 1;
        }
        assert(!self@.contains_key(name@)) by {
            if self@.contains_key(name@) {
                let k = choose|k: int| 0 <= k < self.rows@.len() && self.rows@[k].name@ == name@;
                assert(self.rows@[k].name@ != name@);
            }
        }
        None
    }
    /// Binds `name` to `subgraph_id` on `node_id`, overwriting an earlier
    /// binding of the name. Returns the events the change emits.
    pub fn write(&mut self, name: &SubgraphDeploymentName, subgraph_id: &String, node_id: &String) -> (events: Vec<DeploymentEvent>)
        requires
            old(self).wf(),
        ensures
            final(self).wf(),
            final(self)@ == old(self)@.insert(name@, (subgraph_id@, node_id@)),
            events_view(events@) == write_events(old(self)@, name@, subgraph_id@, node_id@),
    {
        let name_s = name.to_string();
        let rec = DeploymentRecord {
            name: name_s.clone(),
            subgraph_id: subgraph_id.clone(),
            node_id: node_id.clone(),
        };
        let add = DeploymentEvent {
            kind: EventKind::Add,
            deployment_name: name_s.clone(),
            subgraph_id: subgraph_id.clone(),
            node_id: node_id.clone(),
        };
        let mut events: Vec<DeploymentEvent> = Vec::new();
        let ghost m0 = self@;
        match self.find(&name_s) {
            Some(i) => {
                proof {
                    self.lemma_row_view(i as int);
                }
                let same = self.rows[i].subgraph_id == *subgraph_id && self.rows[i].node_id == *node_id;
                if !same {
                    events.push(
                        DeploymentEvent {
                            kind: EventKind::Remove,
                            deployment_name: name_s.clone(),
                            subgraph_id: self.rows[i].subgraph_id.clone(),
                            node_id: self.rows[i].node_id.clone(),
                        },
                    );
                }
                let ghost old_rows = self.rows@;
                self.rows.set(i, rec);
                proof {
                    assert forall|a: int| 0 <= a < self.rows@.len() implies is_valid_name(#[trigger] self.rows@[a].name@) by {
                        if a != i {
                            assert(self.rows@[a] == old_rows[a]);
                        }
                    }
                    assert forall|a: int, b: int|
                        0 <= a < self.rows@.len() && 0 <= b < self.rows@.len() && a != b
                            implies self.rows@[a].name@ != self.rows@[b].name@ by {
                        assert(old_rows[a].name@ != old_rows[b].name@);
                    }
                    assert forall|n: Seq<char>| #[trigger] self@.contains_key(n) == m0.insert(name@, (subgraph_id@, node_id@)).contains_key(n) by {
                        if exists|k: int| 0 <= k < old_rows.len() && old_rows[k].name@ == n {
                            let k = choose|k: int| 0 <= k < old_rows.len() && old_rows[k].name@ == n;
                            if k == i {
                                assert(self.rows@[k].name@ == n);
                            } else {
                                assert(self.rows@[k].name@ == n);
                            }
                        }
                        if exists|k: int| 0 <= k < self.rows@.len() && self.rows@[k].name@ == n {
                            let k = choose|k: int| 0 <= k < self.rows@.len() && self.rows@[k].name@ == n;
                            if k != i {
                                assert(old_rows[k].name@ == n);
                            }
                        }
                    }
                    assert forall|n: Seq<char>| #[trigger] self@.contains_key(n) implies self@[n] == m0.insert(name@, (subgraph_id@, node_id@))[n] by {
                        let k = choose|k: int| 0 <= k < self.rows@.len() && self.rows@[k].name@ == n;
                        self.lemma_row_view(k);
                        if k != i {
                            assert(old_rows[k] == self.rows@[k]);
                            assert(old_rows[k].name@ != name@);
                            lemma_rows_view(old_rows, k);
                        }
                    }
                    assert(self@ =~= m0.insert(name@, (subgraph_id@, node_id@)));
                }
            },
            None => {
                let ghost old_rows = self.rows@;
                self.rows.push(rec);
                proof {
                    assert forall|a: int| 0 <= a < self.rows@.len() implies is_valid_name(#[trigger] self.rows@[a].name@) by {
                        if a < old_rows.len() {
                            assert(self.rows@[a] == old_rows[a]);
                        }
                    }
                    let last = old_rows.len() as int;
                    assert forall|a: int, b: int|
                        0 <= a < self.rows@.len() && 0 <= b < self.rows@.len() && a != b
                            implies self.rows@[a].name@ != self.rows@[b].name@ by {
                        if a != last && b != last {
                            assert(old_rows[a].name@ != old_rows[b].name@);
                        } else if a == last {
                            assert(!m0.contains_key(name@));
                            assert(self.rows@[b] == old_rows[b]);
                        } else {
                            assert(!m0.contains_key(name@));
                            assert(self.rows@[a] == old_rows[a]);
                        }
                    }
                    assert forall|n: Seq<char>| #[trigger] self@.contains_key(n) == m0.insert(name@, (subgraph_id@, node_id@)).contains_key(n) by {
                        if exists|k: int| 0 <= k < old_rows.len() && old_rows[k].name@ == n {
                            let k = choose|k: int| 0 <= k < old_rows.len() && old_rows[k].name@ == n;
                            assert(self.rows@[k].name@ == n);
                        }
                        if n == name@ {
                            assert(self.rows@[last].name@ == n);
                        }
                        if exists|k: int| 0 <= k < self.rows@.len() && self.rows@[k].name@ == n {
                            let k = choose|k: int| 0 <= k < self.rows@.len() && self.rows@[k].name@ == n;
                            if k != last {
                                assert(old_rows[k].name@ == n);
                            }
                        }
                    }
                    assert forall|n: Seq<char>| #[trigger] self@.contains_key(n) implies self@[n] == m0.insert(name@, (subgraph_id@, node_id@))[n] by {
                        let k = choose|k: int| 0 <= k < self.rows@.len() && self.rows@[k].name@ == n;
                        self.lemma_row_view(k);
                        if k != last {
                            assert(old_rows[k] == self.rows@[k]);
                            lemma_rows_view(old_rows, k);
                        }
                    }
                    assert(self@ =~= m0.insert(name@, (subgraph_id@, node_id@)));
                }
            },
        }
        events.push(add);
        proof {
            assert(events_view(events@) =~= write_events(m0, name@, subgraph_id@, node_id@));
        }
        events
    }
    /// Deletes the binding of `name`. Returns whether a binding was deleted,
    /// and the events the change emits.
    pub fn remove(&mut self, name: &SubgraphDeploymentName) -> (r: (bool, Vec<DeploymentEvent>))
        requires
            old(self).wf(),
        ensures
            final(self).wf(),
            r.0 == old(self)@.contains_key(name@),
            final(self)@ == old(self)@.remove(name@),
            events_view(r.1@) == remove_events(old(self)@, name@),
    {
        let name_s = name.to_string();
        let mut events: Vec<DeploymentEvent> = Vec::new();
        let ghost m0 = self@;
        match self.find(&name_s) {
            Some(i) => {
                proof {
                    self.lemma_row_view(i as int);
                }
                let ghost old_rows = self.rows@;
                let rec = self.rows.remove(i);
                events.push(
                    DeploymentEvent {
                        kind: EventKind::Remove,
                        deployment_name: rec.name,
                        subgraph_id: rec.subgraph_id,
                        node_id: rec.node_id,
                    },
                );
                proof {
                    assert forall|a: int| 0 <= a < self.rows@.len() implies is_valid_name(#[trigger] self.rows@[a].name@) by {
                        let oa = if a < i { a } else { a + 1 };
                        assert(self.rows@[a] == old_rows[oa]);
                    }
                    assert forall|a: int, b: int|
                        0 <= a < self.rows@.len() && 0 <= b < self.rows@.len() && a != b
                            implies self.rows@[a].name@ != self.rows@[b].name@ by {
                        let oa = if a < i { a } else { a + 1 };
                        let ob = if b < i { b } else { b + 1 };
                        assert(self.rows@[a] == old_rows[oa]);
                        assert(self.rows@[b] == old_rows[ob]);
                    }
                    assert forall|n: Seq<char>| #[trigger] self@.contains_key(n) == m0.remove(name@).contains_key(n) by {
                        if exists|k: int| 0 <= k < old_rows.len() && old_rows[k].name@ == n {
                            let k = choose|k: int| 0 <= k < old_rows.len() && old_rows[k].name@ == n;
                            if k < i {
                                assert(self.rows@[k].name@ == n);
                            } else if k > i {
                                assert(self.rows@[k - 1].name@ == n);
                            }
                        }
                        if exists|k: int| 0 <= k < self.rows@.len() && self.rows@[k].name@ == n {
                            let k = choose|k: int| 0 <= k < self.rows@.len() && self.rows@[k].name@ == n;
                            let ok = if k < i { k } else { k + 1 };
                            assert(old_rows[ok].name@ == n);
                            assert(ok != i);
                        }
                    }
                    assert forall|n: Seq<char>| #[trigger] self@.contains_key(n) implies self@[n] == m0.remove(name@)[n] by {
                        let k = choose|k: int| 0 <= k < self.rows@.len() && self.rows@[k].name@ == n;
                        self.lemma_row_view(k);
                        let ok = if k < i { k } else { k + 1 };
                        assert(old_rows[ok] == self.rows@[k]);
                        lemma_rows_view(old_rows, ok);
                    }
                    assert(self@ =~= m0.remove(name@));
                    assert(events_view(events@) =~= remove_events(m0, name@));
                }
                (true, events)
            },
            None => {
                proof {
                    assert(self@ =~= m0.remove(name@));
                    assert(events_view(events@) =~= remove_events(m0, name@));
                }
                (false, events)
            },
        }
    }

    /// The bindings assigned to `node_id`, as (name, subgraph id) pairs in no
    /// particular order.
    pub fn read_by_node(&self, node_id: &String) -> (r: Vec<(String, String)>)
        requires
            self.wf(),
        ensures
            lists_bindings(r@, bindings_of_node(self@, node_id@)),
    {
        let mut out: Vec<(String, String)> = Vec::new();
        let mut i: usize = 0;
        while i < self.rows.len()
            invariant
                self.wf(),
                i <= self.rows@.len(),
                forall|a: int| 0 <= a < out@.len() ==> exists|k: int| 0 <= k < i && #[trigger] out@[a].0@ == self.rows@[k].name@ && out@[a].1@ == self.rows@[k].subgraph_id@ && self.rows@[k].node_id@ == node_id@,
                forall|a: int, b: int| 0 <= a < out@.len() && 0 <= b < out@.len() && a != b ==> out@[a].0@ != out@[b].0@,
                forall|k: int| 0 <= k < i && self.rows@[k].node_id@ == node_id@ ==> exists|a: int| 0 <= a < out@.len() && #[trigger] out@[a].0@ == self.rows@[k].name@,
            decreases self.rows@.len() - i,
        {
            if self.rows[i].node_id == *node_id {
                let ghost before = out@;
                out.push((self.rows[i].name.clone(), self.rows[i].subgraph_id.clone()));
                proof {
                    assert forall|a: int| 0 <= a < before.len() implies out@[a].0@ != self.rows@[i as int].name@ by {
                        let k = choose|k: int| 0 <= k < i && #[trigger] before[a].0@ == self.rows@[k].name@ && before[a].1@ == self.rows@[k].subgraph_id@ && self.rows@[k].node_id@ == node_id@;
                        assert(out@[a] == before[a]);
                    }
                    assert(out@[before.len() as int].0@ == self.rows@[i as int].name@);
                    assert forall|k: int| 0 <= k < i + 1 && self.rows@[k].node_id@ == node_id@ implies exists|a: int| 0 <= a < out@.len() && #[trigger] out@[a].0@ == self.rows@[k].name@ by {
                        if k < i {
                            let a = choose|a: int| 0 <= a < before.len() && #[trigger] before[a].0@ == self.rows@[k].name@;
                            assert(out@[a] == before[a]);
                        } else {
                            assert(out@[before.len() as int].0@ == self.rows@[k].name@);
                        }
                    }
                    assert forall|a: int| 0 <= a < out@.len() implies exists|k: int| 0 <= k < i + 1 && #[trigger] out@[a].0@ == self.rows@[k].name@ && out@[a].1@ == self.rows@[k].subgraph_id@ && self.rows@[k].node_id@ == node_id@ by {
                        if a < before.len() {
                            assert(out@[a] == before[a]);
                        } else {
                            assert(out@[a].0@ == self.rows@[i as int].name@);
                        }
                    }
                }
            }
            i = i + 1;
        }
        proof {
            let b = bindings_of_node(self@, node_id@);
            assert forall|a: int| 0 <= a < out@.len() implies b.contains_key(#[trigger] out@[a].0@) && b[out@[a].0@] == out@[a].1@ by {
                let k = choose|k: int| 0 <= k < self.rows@.len() && #[trigger] out@[a].0@ == self.rows@[k].name@ && out@[a].1@ == self.rows@[k].subgraph_id@ && self.rows@[k].node_id@ == node_id@;
                self.lemma_row_view(k);
            }
            assert forall|n: Seq<char>| #[trigger] b.contains_key(n) implies exists|a: int| 0 <= a < out@.len() && out@[a].0@ == n by {
                let k = choose|k: int| 0 <= k < self.rows@.len() && self.rows@[k].name@ == n;
                self.lemma_row_view(k);
                let a = choose|a: int| 0 <= a < out@.len() && #[trigger] out@[a].0@ == self.rows@[k].name@;
            }
        }
        out
    }
}

} // verus!
