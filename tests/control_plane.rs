use subgraph_names::admin::{
    decimal_text, json_rpc_error, provider_error, subgraph_routes, JsonRpcServer,
    SubgraphDeployParams, SubgraphRemoveParams, GRAPHQL_HTTP_PORT, GRAPHQL_WS_PORT,
    JSON_RPC_DEPLOY_ERROR, JSON_RPC_REMOVE_ERROR,
};
use subgraph_names::name::{valid_name, SubgraphDeploymentName};
use subgraph_names::reconciler::{
    start_outcome, startup_ids, stop_outcome, ActionKind, SubgraphProviderError,
    SubgraphProviderWithNames, SupervisorFault,
};
use subgraph_names::registry::{DeploymentEvent, DeploymentRegistry, EventKind};

const NODE: &str = "node_1";

fn s(x: &str) -> String {
    x.to_string()
}

fn name(x: &str) -> SubgraphDeploymentName {
    SubgraphDeploymentName::new(s(x)).unwrap()
}

fn provider() -> SubgraphProviderWithNames {
    SubgraphProviderWithNames::init(s(NODE), &Vec::new()).0
}

fn server() -> JsonRpcServer {
    JsonRpcServer::new(provider(), GRAPHQL_HTTP_PORT, GRAPHQL_WS_PORT)
}

/// The provider commands that a batch of events asks for, as (start?, id).
fn actions(p: &SubgraphProviderWithNames, events: &[DeploymentEvent]) -> Vec<(bool, String)> {
    events
        .iter()
        .map(|e| {
            let a = p.handle_event(e).ok().expect("event for this node");
            (a.kind == ActionKind::Start, a.subgraph_id)
        })
        .collect()
}

fn sorted(mut v: Vec<(String, String)>) -> Vec<(String, String)> {
    v.sort();
    v
}

fn deploy(srv: &JsonRpcServer, reg: &mut DeploymentRegistry, n: &str, h: &str) -> Vec<DeploymentEvent> {
    let params = SubgraphDeployParams { name: s(n), ipfs_hash: s(h) };
    srv.deploy_handler(reg, params).ok().expect("deploy succeeds").1
}

#[test]
fn startup_starts_each_deployed_id_once() {
    let rows = vec![(s("n1"), s("id1")), (s("n2"), s("id2"))];
    let (p, mut ids) = SubgraphProviderWithNames::init(s(NODE), &rows);
    ids.sort();
    assert_eq!(ids, vec![s("id1"), s("id2")]);
    assert_eq!(p.node_id(), NODE);
}

#[test]
fn startup_deduplicates_aliases() {
    let rows = vec![(s("n1"), s("id")), (s("n2"), s("id"))];
    assert_eq!(startup_ids(&rows), vec![s("id")]);
}

#[test]
fn startup_of_empty_store_starts_nothing() {
    assert!(startup_ids(&Vec::new()).is_empty());
}

#[test]
fn already_running_counts_as_started() {
    let r = start_outcome(Err(SubgraphProviderError::AlreadyRunning(s("id1"))));
    assert!(r.is_ok());
    assert!(start_outcome(Ok(())).is_ok());
    let e = start_outcome(Err(SubgraphProviderError::Unknown(s("boom"))));
    assert!(matches!(e, Err(SubgraphProviderError::Unknown(m)) if m == "boom"));
    let e = start_outcome(Err(SubgraphProviderError::NotRunning(s("id1"))));
    assert!(matches!(e, Err(SubgraphProviderError::NotRunning(_))));
}

#[test]
fn not_running_counts_as_stopped() {
    assert!(stop_outcome(Err(SubgraphProviderError::NotRunning(s("id1")))).is_ok());
    assert!(stop_outcome(Ok(())).is_ok());
    let e = stop_outcome(Err(SubgraphProviderError::AlreadyRunning(s("id1"))));
    assert!(matches!(e, Err(SubgraphProviderError::AlreadyRunning(_))));
}

#[test]
fn deploy_on_empty_store_asks_for_one_start() {
    let p = provider();
    let mut reg = DeploymentRegistry::new();
    let events = p.deploy(&mut reg, &name("a"), &s("id1"));
    assert_eq!(actions(&p, &events), vec![(true, s("id1"))]);
}

#[test]
fn deploy_then_remove_asks_for_one_stop() {
    let p = provider();
    let mut reg = DeploymentRegistry::new();
    let first = p.deploy(&mut reg, &name("a"), &s("id1"));
    let second = p.remove(&mut reg, &name("a")).ok().expect("bound");
    assert_eq!(actions(&p, &first), vec![(true, s("id1"))]);
    assert_eq!(actions(&p, &second), vec![(false, s("id1"))]);
    assert!(p.list(&reg).is_empty());
}

#[test]
fn rebinding_stops_old_id_then_starts_new() {
    let p = provider();
    let mut reg = DeploymentRegistry::new();
    let mut all = p.deploy(&mut reg, &name("a"), &s("id1"));
    all.extend(p.deploy(&mut reg, &name("a"), &s("id2")));
    assert_eq!(
        actions(&p, &all),
        vec![(true, s("id1")), (false, s("id1")), (true, s("id2"))]
    );
    assert_eq!(p.list(&reg), vec![(s("a"), s("id2"))]);
}

#[test]
fn redeploying_same_binding_emits_one_add() {
    let p = provider();
    let mut reg = DeploymentRegistry::new();
    p.deploy(&mut reg, &name("a"), &s("id1"));
    let events = p.deploy(&mut reg, &name("a"), &s("id1"));
    assert_eq!(events.len(), 1);
    assert!(events[0].kind == EventKind::Add);
}

#[test]
fn remove_absent_name_fails_with_name_not_found() {
    let p = provider();
    let mut reg = DeploymentRegistry::new();
    let r = p.remove(&mut reg, &name("none"));
    assert!(matches!(r, Err(SubgraphProviderError::NameNotFound(n)) if n == "none"));
    assert!(p.list(&reg).is_empty());
}

#[test]
fn list_round_trip() {
    let p = provider();
    let mut reg = DeploymentRegistry::new();
    p.deploy(&mut reg, &name("a"), &s("1"));
    p.deploy(&mut reg, &name("b"), &s("2"));
    assert_eq!(sorted(p.list(&reg)), vec![(s("a"), s("1")), (s("b"), s("2"))]);
}

#[test]
fn list_shows_only_this_node() {
    let p = provider();
    let mut reg = DeploymentRegistry::new();
    p.deploy(&mut reg, &name("a"), &s("1"));
    reg.write(&name("b"), &s("2"), &s("node_2"));
    assert_eq!(p.list(&reg), vec![(s("a"), s("1"))]);
    assert_eq!(reg.read_by_node(&s("node_2")), vec![(s("b"), s("2"))]);
}

#[test]
fn event_of_other_node_is_a_fault() {
    let p = provider();
    let e = DeploymentEvent {
        kind: EventKind::Add,
        deployment_name: s("a"),
        subgraph_id: s("id1"),
        node_id: s("node_2"),
    };
    match p.handle_event(&e) {
        Err(SupervisorFault::ForeignNode { expected, found }) => {
            assert_eq!(expected, NODE);
            assert_eq!(found, "node_2");
        }
        Ok(_) => panic!("event of another node was accepted"),
    }
}

#[test]
fn admin_deploy_invalid_name_gives_deploy_code() {
    let srv = server();
    let mut reg = DeploymentRegistry::new();
    let params = SubgraphDeployParams { name: s("bad name!"), ipfs_hash: s("Qm1") };
    let e = srv.deploy_handler(&mut reg, params).err().expect("invalid");
    assert_eq!(e.code, JSON_RPC_DEPLOY_ERROR);
    assert_eq!(e.code, 0);
    assert_eq!(e.message, "invalid subgraph name");
    assert!(srv.list_handler(&reg).is_empty());
}

#[test]
fn admin_remove_invalid_name_gives_deploy_code() {
    let srv = server();
    let mut reg = DeploymentRegistry::new();
    let e = srv
        .remove_handler(&mut reg, SubgraphRemoveParams { name: s("") })
        .err()
        .expect("invalid");
    assert_eq!(e.code, 0);
    assert_eq!(e.message, "invalid subgraph name");
}

#[test]
fn scenario_deploy_returns_routes_and_starts() {
    let srv = server();
    let p = provider();
    let mut reg = DeploymentRegistry::new();
    let params = SubgraphDeployParams { name: s("foo"), ipfs_hash: s("Qm1") };
    let (routes, events) = srv.deploy_handler(&mut reg, params).ok().expect("deploy");
    assert_eq!(routes.playground, ":8000/by-name/foo");
    assert_eq!(routes.queries, ":8000/by-name/foo/graphql");
    assert_eq!(routes.subscriptions, ":8001/by-name/foo");
    assert_eq!(actions(&p, &events), vec![(true, s("Qm1"))]);
}

#[test]
fn scenario_list_after_deploy() {
    let srv = server();
    let mut reg = DeploymentRegistry::new();
    deploy(&srv, &mut reg, "foo", "Qm1");
    assert_eq!(srv.list_handler(&reg), vec![(s("foo"), s("Qm1"))]);
}

#[test]
fn scenario_remove_after_deploy_stops() {
    let srv = server();
    let p = provider();
    let mut reg = DeploymentRegistry::new();
    deploy(&srv, &mut reg, "foo", "Qm1");
    let events = srv
        .remove_handler(&mut reg, SubgraphRemoveParams { name: s("foo") })
        .ok()
        .expect("bound");
    assert_eq!(actions(&p, &events), vec![(false, s("Qm1"))]);
}

#[test]
fn scenario_redeploy_stops_then_starts() {
    let srv = server();
    let p = provider();
    let mut reg = DeploymentRegistry::new();
    deploy(&srv, &mut reg, "foo", "Qm1");
    let events = deploy(&srv, &mut reg, "foo", "Qm2");
    assert_eq!(actions(&p, &events), vec![(false, s("Qm1")), (true, s("Qm2"))]);
}

#[test]
fn scenario_cold_restart_starts_once() {
    let mut reg = DeploymentRegistry::new();
    reg.write(&name("foo"), &s("Qm2"), &s(NODE));
    let rows = reg.read_by_node(&s(NODE));
    let (_, ids) = SubgraphProviderWithNames::init(s(NODE), &rows);
    assert_eq!(ids, vec![s("Qm2")]);
}

#[test]
fn scenario_remove_unknown_name() {
    let srv = server();
    let mut reg = DeploymentRegistry::new();
    let e = srv
        .remove_handler(&mut reg, SubgraphRemoveParams { name: s("bar") })
        .err()
        .expect("absent");
    assert_eq!(e.code, JSON_RPC_REMOVE_ERROR);
    assert_eq!(e.code, 1);
    assert_eq!(e.message, "name not found: bar");
}

#[test]
fn unknown_provider_error_is_hidden() {
    let e = provider_error(1, &SubgraphProviderError::Unknown(s("db down")));
    assert_eq!(e.code, 1);
    assert_eq!(e.message, "internal error");
    let e = provider_error(0, &SubgraphProviderError::AlreadyRunning(s("Qm1")));
    assert_eq!(e.message, "subgraph with ID Qm1 already running");
    let e = provider_error(1, &SubgraphProviderError::NotRunning(s("Qm1")));
    assert_eq!(e.message, "subgraph with ID Qm1 is not running");
}

#[test]
fn error_messages() {
    assert_eq!(SubgraphProviderError::Unknown(s("x")).message(), "subgraph provider error: x");
    assert_eq!(SubgraphProviderError::NameNotFound(s("n")).message(), "name not found: n");
    let e = json_rpc_error(3, s("database error"));
    assert_eq!(e.code, 3);
    assert_eq!(e.message, "database error");
}

#[test]
fn name_policy() {
    assert!(valid_name("foo"));
    assert!(valid_name("Foo-bar_09"));
    assert!(!valid_name(""));
    assert!(!valid_name("foo bar"));
    assert!(!valid_name("foo/bar"));
    assert!(!valid_name("caf\u{e9}"));
    let longest = "a".repeat(255);
    assert!(valid_name(&longest));
    assert!(!valid_name(&"a".repeat(256)));
    assert!(SubgraphDeploymentName::new(s("x y")).is_err());
    assert_eq!(name("abc").as_str(), "abc");
    assert_eq!(name("abc").clone().to_string(), "abc");
}

#[test]
fn port_text() {
    assert_eq!(decimal_text(0), "0");
    assert_eq!(decimal_text(7), "7");
    assert_eq!(decimal_text(8000), "8000");
    assert_eq!(decimal_text(65535), "65535");
    let r = subgraph_routes(&name("x"), 1, 65535);
    assert_eq!(r.playground, ":1/by-name/x");
    assert_eq!(r.subscriptions, ":65535/by-name/x");
}

#[test]
fn action_outcome_follows_its_kind() {
    let p = provider();
    let add = DeploymentEvent {
        kind: EventKind::Add,
        deployment_name: s("a"),
        subgraph_id: s("id1"),
        node_id: s(NODE),
    };
    let start = p.handle_event(&add).ok().expect("own node");
    assert!(start.outcome(Err(SubgraphProviderError::AlreadyRunning(s("id1")))).is_ok());
    assert!(start.outcome(Err(SubgraphProviderError::NotRunning(s("id1")))).is_err());
    let remove = DeploymentEvent { kind: EventKind::Remove, ..add };
    let stop = p.handle_event(&remove).ok().expect("own node");
    assert!(stop.kind == ActionKind::Stop);
    assert!(stop.outcome(Err(SubgraphProviderError::NotRunning(s("id1")))).is_ok());
    assert!(stop.outcome(Err(SubgraphProviderError::AlreadyRunning(s("id1")))).is_err());
    assert!(stop.outcome(Err(SubgraphProviderError::Unknown(s("x")))).is_err());
}
