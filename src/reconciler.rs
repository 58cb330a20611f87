//! The reconciler: keeps the set of subgraphs running on this node equal to
//! the set the registry assigns to it. Its decisions are made here; the
//! caller performs the provider calls they name and reports the outcomes.
use vstd::prelude::*;
use vstd::string::*;

use crate::name::SubgraphDeploymentName;
use crate::registry::{
    bindings_of_node, events_view, lists_bindings, remove_events, write_events,
    DeploymentEvent, DeploymentRegistry, EventKind, EventView, RegistryView,
};

verus! {

/// Errors of the subgraph provider and of the named provider.
#[derive(Clone, Debug)]
pub enum SubgraphProviderError {
    /// A fault without a more specific kind; its text is for the server log.
    Unknown(String),
    /// No deployment of this name exists.
    NameNotFound(String),
    /// A start was issued for a subgraph that is already running.
    AlreadyRunning(String),
    /// A stop was issued for a subgraph that is not running.
    NotRunning(String),
}

/// The text that describes an error.
pub open spec fn error_message(e: SubgraphProviderError) -> Seq<char> {
    match e {
        SubgraphProviderError::Unknown(m) => "subgraph provider error: "@ + m@,
        SubgraphProviderError::NameNotFound(n) => "name not found: "@ + n@,
        SubgraphProviderError::AlreadyRunning(id) => "subgraph with ID "@ + id@ + " already running"@,
        SubgraphProviderError::NotRunning(id) => "subgraph with ID "@ + id@ + " is not running"@,
    }
}

impl SubgraphProviderError {
    /// The text that describes this error.
    pub fn message(&self) -> (r: String)
        ensures
            r@ == error_message(*self),
    {
        match self {
            SubgraphProviderError::Unknown(m) => String::from_str("subgraph provider error: ").concat(m.as_str()),
            SubgraphProviderError::NameNotFound(n) => String::from_str("name not found: ").concat(n.as_str()),
            SubgraphProviderError::AlreadyRunning(id) => String::from_str("subgraph with ID ").concat(
                id.as_str(),
            ).concat(" already running"),
            SubgraphProviderError::NotRunning(id) => String::from_str("subgraph with ID ").concat(
                id.as_str(),
            ).concat(" is not running"),
        }
    }
}

/// Whether a provider command starts or stops a subgraph.
#[derive(Clone, Copy, Debug, PartialEq, Eq, Structural)]
pub enum ActionKind {
    Start,
    Stop,
}

/// A provider command: start or stop the subgraph with this id.
#[derive(Clone, Debug)]
pub struct Action {
    pub kind: ActionKind,
    pub subgraph_id: String,
}

impl View for Action {
    type V = (ActionKind, Seq<char>);

    open spec fn view(&self) -> (ActionKind, Seq<char>) {
        (self.kind, self.subgraph_id@)
    }
}

/// The command that an event asks for: start on an addition, stop on a removal.
pub open spec fn event_action(e: EventView) -> (ActionKind, Seq<char>) {
    match e.0 {
        EventKind::Add => (ActionKind::Start, e.2),
        EventKind::Remove => (ActionKind::Stop, e.2),
    }
}

/// The commands that a sequence of events asks for, in order.
pub open spec fn events_actions(es: Seq<EventView>) -> Seq<(ActionKind, Seq<char>)> {
    es.map_values(|e: EventView| event_action(e))
}

/// A condition under which the supervisor must not go on.
#[derive(Clone, Debug)]
pub enum SupervisorFault {
    /// An event arrived for another node than this one.
    ForeignNode { expected: String, found: String },
}

/// A start is done when it succeeded or the subgraph was already running.
pub open spec fn start_done(r: Result<(), SubgraphProviderError>) -> bool {
    r is Ok || r matches Err(SubgraphProviderError::AlreadyRunning(_))
}

/// A stop is done when it succeeded or the subgraph was not running.
pub open spec fn stop_done(r: Result<(), SubgraphProviderError>) -> bool {
    r is Ok || r matches Err(SubgraphProviderError::NotRunning(_))
}

/// Judges the outcome of a start: a subgraph that was already running counts
/// as started; any other error is passed on.
pub fn start_outcome(r: Result<(), SubgraphProviderError>) -> (o: Result<(), SubgraphProviderError>)
    ensures
        o is Ok <==> start_done(r),
        !start_done(r) ==> o == r,
{
    match r {
        Ok(()) => Ok(()),
        Err(SubgraphProviderError::AlreadyRunning(_)) => Ok(()),
        Err(e) => Err(e),
    }
}

/// Judges the outcome of a stop: a subgraph that was not running counts as
/// stopped; any other error is passed on.
pub fn stop_outcome(r: Result<(), SubgraphProviderError>) -> (o: Result<(), SubgraphProviderError>)
    ensures
        o is Ok <==> stop_done(r),
        !stop_done(r) ==> o == r,
{
    match r {
        Ok(()) => Ok(()),
        Err(SubgraphProviderError::NotRunning(_)) => Ok(()),
        Err(e) => Err(e),
    }
}

impl Action {
    /// Judges the provider's result of this command: a benign duplicate
    /// (already running for a start, not running for a stop) counts as done.
    pub fn outcome(&self, r: Result<(), SubgraphProviderError>) -> (o: Result<(), SubgraphProviderError>)
        ensures
            self.kind == ActionKind::Start ==> (o is Ok <==> start_done(r)),
            self.kind == ActionKind::Stop ==> (o is Ok <==> stop_done(r)),
            o is Err ==> o == r,
    {
        match self.kind {
            ActionKind::Start => start_outcome(r),
            ActionKind::Stop => stop_outcome(r),
        }
    }
}

/// Some pair of `rows` carries subgraph id `id`.
pub open spec fn rows_carry(rows: Seq<(String, String)>, id: Seq<char>) -> bool {
    exists|k: int| 0 <= k < rows.len() && rows[k].1@ == id
}

/// Some element of `ids` is `id`.
pub open spec fn ids_hold(ids: Seq<String>, id: Seq<char>) -> bool {
    exists|i: int| 0 <= i < ids.len() && ids[i]@ == id
}

/// The distinct subgraph ids among (name, id) pairs, each once.
pub open spec fn is_id_set_of(ids: Seq<String>, rows: Seq<(String, String)>) -> bool {
    &&& forall|i: int, j: int| 0 <= i < ids.len() && 0 <= j < ids.len() && i != j ==> ids[i]@ != ids[j]@
    &&& forall|i: int| 0 <= i < ids.len() ==> #[trigger] rows_carry(rows, ids[i]@)
    &&& forall|k: int| 0 <= k < rows.len() ==> #[trigger] ids_hold(ids, rows[k].1@)
}

fn contains_id(ids: &Vec<String>, id: &String) -> (r: bool)
    ensures
        r <==> exists|i: int| 0 <= i < ids@.len() && ids@[i]@ == id@,
{
    let mut i: usize = 0;
    while i < ids.len()
        invariant
            i <= ids@.len(),
            forall|j: int| 0 <= j < i ==> ids@[j]@ != id@,
        decreases ids@.len() - i,
    {
        if ids[i] == *id {
            return true;
        }
        i = i + 1;
    }
    false
}

/// The subgraph ids to start when a node comes up: each id of the deployed
/// (name, id) pairs exactly once, however many names alias it.
pub fn startup_ids(deployed: &Vec<(String, String)>) -> (ids: Vec<String>)
    ensures
        is_id_set_of(ids@, deployed@),
{
    let mut ids: Vec<String> = Vec::new();
    let mut k: usize = 0;
    while k < deployed.len()
        invariant
            k <= deployed@.len(),
            forall|i: int, j: int| 0 <= i < ids@.len() && 0 <= j < ids@.len() && i != j ==> ids@[i]@ != ids@[j]@,
            forall|i: int| 0 <= i < ids@.len() ==> #[trigger] rows_carry(deployed@, ids@[i]@),
            forall|m: int| 0 <= m < k ==> #[trigger] ids_hold(ids@, deployed@[m].1@),
        decreases deployed@.len() - k,
    {
        let id = &deployed[k].1;
        let ghost before = ids@;
        if !contains_id(&ids, id) {
            ids.push(id.clone());
            proof {
                let last = before.len() as int;
                assert(ids@[last]@ == deployed@[k as int].1@);
                assert(ids_hold(ids@, deployed@[k as int].1@));
                assert forall|m: int| 0 <= m < k implies #[trigger] ids_hold(ids@, deployed@[m].1@) by {
                    assert(ids_hold(before, deployed@[m].1@));
                    let i = choose|i: int| 0 <= i < before.len() && before[i]@ == deployed@[m].1@;
                    assert(ids@[i] == before[i]);
                }
                assert forall|i: int| 0 <= i < ids@.len() implies #[trigger] rows_carry(deployed@, ids@[i]@) by {
                    if i < last {
                        assert(ids@[i] == before[i]);
                        assert(rows_carry(deployed@, before[i]@));
                    } else {
                        assert(deployed@[k as int].1@ == ids@[i]@);
                    }
                }
            }
        }
        k = k + 1;
    }
    ids
}

/// The named provider of one node: deploys and removes names in the
/// registry, and turns the registry's events for this node into provider
/// commands.
#[derive(Clone, Debug)]
pub struct SubgraphProviderWithNames {
    node_id: String,
}

impl SubgraphProviderWithNames {
    /// The node this provider serves.
    pub closed spec fn node(&self) -> Seq<char> {
        self.node_id@
    }

    /// Sets up the provider of `node_id` given the bindings the registry
    /// holds for that node, and returns it with the subgraph ids to start
    /// before serving: each deployed id exactly once.
    pub fn init(node_id: String, deployed: &Vec<(String, String)>) -> (r: (SubgraphProviderWithNames, Vec<String>))
        ensures
            r.0.node() == node_id@,
            is_id_set_of(r.1@, deployed@),
    {
        (SubgraphProviderWithNames { node_id }, startup_ids(deployed))
    }

    /// The node this provider serves.
    pub fn node_id(&self) -> (r: &String)
        ensures
            r@ == self.node(),
    {
        &self.node_id
    }

    /// The provider command that a registry event asks for. An event for
    /// another node breaks the registry's promise to filter by node; the
    /// supervisor must stop on it.
    pub fn handle_event(&self, event: &DeploymentEvent) -> (r: Result<Action, SupervisorFault>)
        ensures
            r is Ok <==> event@.3 == self.node(),
            r matches Ok(a) ==> a@ == event_action(event@),
            r matches Err(SupervisorFault::ForeignNode { expected, found }) ==> expected@ == self.node() && found@ == event@.3,
    {
        if event.node_id != self.node_id {
            return Err(SupervisorFault::ForeignNode { expected: self.node_id.clone(), found: event.node_id.clone() });
        }
        let kind = match event.kind {
            EventKind::Add => ActionKind::Start,
            EventKind::Remove => ActionKind::Stop,
        };
        Ok(Action { kind, subgraph_id: event.subgraph_id.clone() })
    }

    /// Binds `name` to `id` on this node. The start is not issued here: it
    /// follows from the returned events.
    pub fn deploy(&self, registry: &mut DeploymentRegistry, name: &SubgraphDeploymentName, id: &String) -> (events: Vec<DeploymentEvent>)
        requires
            old(registry).wf(),
        ensures
            final(registry).wf(),
            final(registry)@ == old(registry)@.insert(name@, (id@, self.node())),
            events_view(events@) == write_events(old(registry)@, name@, id@, self.node()),
    {
        registry.write(name, id, &self.node_id)
    }

    /// Deletes the binding of `name`. Fails with `NameNotFound` exactly when
    /// the name is not bound, and then changes nothing and emits nothing.
    pub fn remove(&self, registry: &mut DeploymentRegistry, name: &SubgraphDeploymentName) -> (r: Result<Vec<DeploymentEvent>, SubgraphProviderError>)
        requires
            old(registry).wf(),
        ensures
            final(registry).wf(),
            final(registry)@ == old(registry)@.remove(name@),
            r is Err <==> !old(registry)@.contains_key(name@),
            r matches Err(e) ==> (e matches SubgraphProviderError::NameNotFound(n) && n@ == name@),
            r matches Ok(events) ==> events_view(events@) == remove_events(old(registry)@, name@),
    {
        let (removed, events) = registry.remove(name);
        if removed {
            Ok(events)
        } else {
            Err(SubgraphProviderError::NameNotFound(name.to_string()))
        }
    }

    /// The (name, id) bindings of this node.
    pub fn list(&self, registry: &DeploymentRegistry) -> (r: Vec<(String, String)>)
        requires
            registry.wf(),
        ensures
            lists_bindings(r@, bindings_of_node(registry@, self.node())),
    {
        registry.read_by_node(&self.node_id)
    }
}

/// Deploying a name that is not bound asks for exactly one command: start
/// its subgraph.
pub proof fn law_deploy_starts(m: RegistryView, name: Seq<char>, id: Seq<char>, node: Seq<char>)
    requires
        !m.contains_key(name),
    ensures
        events_actions(write_events(m, name, id, node)) == seq![(ActionKind::Start, id)],
{
    assert(events_actions(write_events(m, name, id, node)) =~= seq![(ActionKind::Start, id)]);
}

/// Removing a name bound to `id` asks for exactly one command: stop `id`.
pub proof fn law_remove_stops(m: RegistryView, name: Seq<char>, id: Seq<char>, node: Seq<char>)
    ensures
        events_actions(remove_events(m.insert(name, (id, node)), name)) == seq![(ActionKind::Stop, id)],
{
    assert(events_actions(remove_events(m.insert(name, (id, node)), name)) =~= seq![(ActionKind::Stop, id)]);
}

/// Binding a fresh name to `id1` and then to another `id2` asks for: start
/// `id1`, stop `id1`, start `id2`, in that order.
pub proof fn law_rebind(m: RegistryView, name: Seq<char>, id1: Seq<char>, id2: Seq<char>, node: Seq<char>)
    requires
        !m.contains_key(name),
        id1 != id2,
    ensures
        events_actions(write_events(m, name, id1, node)) + events_actions(
            write_events(m.insert(name, (id1, node)), name, id2, node),
        ) == seq![(ActionKind::Start, id1), (ActionKind::Stop, id1), (ActionKind::Start, id2)],
{
    assert(events_actions(write_events(m, name, id1, node)) + events_actions(
        write_events(m.insert(name, (id1, node)), name, id2, node),
    ) =~= seq![(ActionKind::Start, id1), (ActionKind::Stop, id1), (ActionKind::Start, id2)]);
}

/// On a node with no bindings, binding two distinct names to this node lists
/// exactly those two bindings.
pub proof fn law_list_round_trip(m: RegistryView, node: Seq<char>, a: Seq<char>, id_a: Seq<char>, b: Seq<char>, id_b: Seq<char>)
    requires
        bindings_of_node(m, node) == Map::<Seq<char>, Seq<char>>::empty(),
        a != b,
    ensures
        bindings_of_node(m.insert(a, (id_a, node)).insert(b, (id_b, node)), node)
            == map![a => id_a, b => id_b],
{
    let after = m.insert(a, (id_a, node)).insert(b, (id_b, node));
    assert forall|n: Seq<char>| !(m.contains_key(n) && m[n].1 == node) by {
        if m.contains_key(n) && m[n].1 == node {
            assert(bindings_of_node(m, node).contains_key(n));
        }
    }
    assert(bindings_of_node(after, node) =~= map![a => id_a, b => id_b]);
}

/// At startup, the ids to start are exactly the ids that the registry binds
/// to this node, each once: the bindings read for the node, passed to `init`,
/// give ids that are distinct and that cover every binding and nothing else.
pub proof fn law_startup_matches_registry(
    m: RegistryView,
    node: Seq<char>,
    rows: Seq<(String, String)>,
    ids: Seq<String>,
    id: Seq<char>,
)
    requires
        lists_bindings(rows, bindings_of_node(m, node)),
        is_id_set_of(ids, rows),
    ensures
        ids_hold(ids, id) <==> exists|n: Seq<char>| #[trigger] m.contains_key(n) && m[n] == (id, node),
        forall|i: int, j: int| 0 <= i < ids.len() && 0 <= j < ids.len() && i != j ==> ids[i]@ != ids[j]@,
{
    let b = bindings_of_node(m, node);
    if ids_hold(ids, id) {
        let i = choose|i: int| 0 <= i < ids.len() && ids[i]@ == id;
        assert(rows_carry(rows, ids[i]@));
        let k = choose|k: int| 0 <= k < rows.len() && rows[k].1@ == ids[i]@;
        assert(b.contains_key(rows[k].0@));
        assert(m.contains_key(rows[k].0@) && m[rows[k].0@] == (id, node));
    }
    if exists|n: Seq<char>| #[trigger] m.contains_key(n) && m[n] == (id, node) {
        let n = choose|n: Seq<char>| #[trigger] m.contains_key(n) && m[n] == (id, node);
        assert(b.contains_key(n));
        let k = choose|k: int| 0 <= k < rows.len() && rows[k].0@ == n;
        assert(b.contains_key(rows[k].0@));
        assert(ids_hold(ids, rows[k].1@));
    }
}

} // verus!
