//! The admin request rules: validate the name, call the named provider, map
//! its errors to numbered JSON-RPC errors, and answer a deploy with the URLs
//! under which the subgraph will be served.
use vstd::prelude::*;
use vstd::string::*;

use crate::name::{is_valid_name, SubgraphDeploymentName};
use crate::reconciler::{error_message, SubgraphProviderError, SubgraphProviderWithNames};
use crate::registry::{
    bindings_of_node, events_view, lists_bindings, remove_events, write_events,
    DeploymentEvent, DeploymentRegistry,
};

verus! {

/// Error code of a failed deploy, and of an invalid name on either method.
pub const JSON_RPC_DEPLOY_ERROR: i64 = 0;

/// Error code of a failed remove.
pub const JSON_RPC_REMOVE_ERROR: i64 = 1;

/// Error code of a failed list.
pub const JSON_RPC_INTERNAL_ERROR: i64 = 3;

/// Port of the GraphQL HTTP server.
pub const GRAPHQL_HTTP_PORT: u16 = 8000;

/// Port of the GraphQL WebSocket server.
pub const GRAPHQL_WS_PORT: u16 = 8001;

/// A server error of the JSON-RPC surface.
#[derive(Clone, Debug)]
pub struct JsonRpcError {
    pub code: i64,
    pub message: String,
}

/// Parameters of `subgraph_deploy`.
#[derive(Clone, Debug)]
pub struct SubgraphDeployParams {
    pub name: String,
    pub ipfs_hash: String,
}

/// Parameters of `subgraph_remove`.
#[derive(Clone, Debug)]
pub struct SubgraphRemoveParams {
    pub name: String,
}

/// The URLs, relative to the node's host, under which a deployed name is served.
#[derive(Clone, Debug)]
pub struct SubgraphRoutes {
    pub playground: String,
    pub queries: String,
    pub subscriptions: String,
}

/// The decimal digit character of `d`.
pub open spec fn digit_char(d: nat) -> char {
    if d == 0 { '0' } else if d == 1 { '1' } else if d == 2 { '2' } else if d == 3 { '3' }
    else if d == 4 { '4' } else if d == 5 { '5' } else if d == 6 { '6' } else if d == 7 { '7' }
    else if d == 8 { '8' } else { '9' }
}

/// The decimal text of `n`, without leading zeros.
pub open spec fn decimal(n: nat) -> Seq<char>
    decreases n,
{
    if n < 10 {
        seq![digit_char(n)]
    } else {
        decimal(n / 10) + seq![digit_char(n % 10)]
    }
}

/// The route `:<port>/by-name/<name>`.
pub open spec fn by_name_route(port: u16, name: Seq<char>) -> Seq<char> {
    ":"@ + decimal(port as nat) + "/by-name/"@ + name
}

fn digit_text(d: u64) -> (r: String)
    requires
        d < 10,
    ensures
        r@ == seq![digit_char(d as nat)],
{
    let s: &str = if d == 0 { "0" } else if d == 1 { "1" } else if d == 2 { "2" } else if d == 3 { "3" }
    else if d == 4 { "4" } else if d == 5 { "5" } else if d == 6 { "6" } else if d == 7 { "7" }
    else if d == 8 { "8" } else { "9" };
    proof {
        reveal_strlit("0");
        reveal_strlit("1");
        reveal_strlit("2");
        reveal_strlit("3");
        reveal_strlit("4");
        reveal_strlit("5");
        reveal_strlit("6");
        reveal_strlit("7");
        reveal_strlit("8");
        reveal_strlit("9");
    }
    let r = String::from_str(s);
    assert(r@ =~= seq![digit_char(d as nat)]);
    r
}

/// The decimal text of `n`.
pub fn decimal_text(n: u64) -> (r: String)
    ensures
        r@ == decimal(n as nat),
    decreases n,
{
    if n < 10 {
        digit_text(n)
    } else {
        let high = decimal_text(n / 10);
        let low = digit_text(n % 10);
        high.concat(low.as_str())
    }
}

/// The routes of `name`, given the HTTP and WebSocket ports.
pub fn subgraph_routes(name: &SubgraphDeploymentName, http_port: u16, ws_port: u16) -> (r: SubgraphRoutes)
    ensures
        r.playground@ == by_name_route(http_port, name@),
        r.queries@ == by_name_route(http_port, name@) + "/graphql"@,
        r.subscriptions@ == by_name_route(ws_port, name@),
{
    let http = decimal_text(http_port as u64);
    let ws = decimal_text(ws_port as u64);
    let playground = String::from_str(":").concat(http.as_str()).concat("/by-name/").concat(name.as_str());
    let queries = playground.clone().concat("/graphql");
    let subscriptions = String::from_str(":").concat(ws.as_str()).concat("/by-name/").concat(name.as_str());
    SubgraphRoutes { playground, queries, subscriptions }
}

/// A JSON-RPC server error with this code and message.
pub fn json_rpc_error(code: i64, message: String) -> (r: JsonRpcError)
    ensures
        r.code == code,
        r.message == message,
{
    JsonRpcError { code, message }
}

/// The message that a provider error is reported with: a fault without a
/// specific kind shows only "internal error", to leak no details.
pub open spec fn reported_message(e: SubgraphProviderError) -> Seq<char> {
    match e {
        SubgraphProviderError::Unknown(_) => "internal error"@,
        _ => error_message(e),
    }
}

/// Reports a provider error under `code`.
pub fn provider_error(code: i64, e: &SubgraphProviderError) -> (r: JsonRpcError)
    ensures
        r.code == code,
        r.message@ == reported_message(*e),
{
    match e {
        SubgraphProviderError::Unknown(_) => json_rpc_error(code, String::from_str("internal error")),
        _ => json_rpc_error(code, e.message()),
    }
}

fn invalid_name_error() -> (r: JsonRpcError)
    ensures
        r.code == JSON_RPC_DEPLOY_ERROR,
        r.message@ == "invalid subgraph name"@,
{
    json_rpc_error(JSON_RPC_DEPLOY_ERROR, String::from_str("invalid subgraph name"))
}

/// The JSON-RPC admin surface of a node.
#[derive(Clone, Debug)]
pub struct JsonRpcServer {
    provider: SubgraphProviderWithNames,
    http_port: u16,
    ws_port: u16,
}

impl JsonRpcServer {
    /// The node that this server's provider serves.
    pub closed spec fn node(&self) -> Seq<char> {
        self.provider.node()
    }

    /// The HTTP port named in route hints.
    pub closed spec fn http_port(&self) -> u16 {
        self.http_port
    }

    /// The WebSocket port named in route hints.
    pub closed spec fn ws_port(&self) -> u16 {
        self.ws_port
    }

    /// A server over `provider` whose route hints name these ports.
    pub fn new(provider: SubgraphProviderWithNames, http_port: u16, ws_port: u16) -> (r: JsonRpcServer)
        ensures
            r.node() == provider.node(),
            r.http_port() == http_port,
            r.ws_port() == ws_port,
    {
        JsonRpcServer { provider, http_port, ws_port }
    }

    /// `subgraph_deploy`: an invalid name fails with the deploy code;
    /// otherwise the name is bound to the hash on this node, and the routes of
    /// the name come back with the events that the write emitted.
    pub fn deploy_handler(&self, registry: &mut DeploymentRegistry, params: SubgraphDeployParams) -> (r: Result<(SubgraphRoutes, Vec<DeploymentEvent>), JsonRpcError>)
        requires
            old(registry).wf(),
        ensures
            final(registry).wf(),
            r is Ok <==> is_valid_name(params.name@),
            r matches Err(e) ==> e.code == JSON_RPC_DEPLOY_ERROR && e.message@ == "invalid subgraph name"@
                && final(registry)@ == old(registry)@,
            r matches Ok((routes, events)) ==> {
                &&& final(registry)@ == old(registry)@.insert(params.name@, (params.ipfs_hash@, self.node()))
                &&& events_view(events@) == write_events(old(registry)@, params.name@, params.ipfs_hash@, self.node())
                &&& routes.playground@ == by_name_route(self.http_port(), params.name@)
                &&& routes.queries@ == by_name_route(self.http_port(), params.name@) + "/graphql"@
                &&& routes.subscriptions@ == by_name_route(self.ws_port(), params.name@)
            },
    {
        let name = match SubgraphDeploymentName::new(params.name) {
            Ok(name) => name,
            Err(()) => return Err(invalid_name_error()),
        };
        let routes = subgraph_routes(&name, self.http_port, self.ws_port);
        let events = self.provider.deploy(registry, &name, &params.ipfs_hash);
        Ok((routes, events))
    }

    /// `subgraph_remove`: an invalid name fails with the deploy code; a name
    /// that is not bound fails with the remove code and a message that names
    /// it; otherwise the binding is deleted and its events come back.
    pub fn remove_handler(&self, registry: &mut DeploymentRegistry, params: SubgraphRemoveParams) -> (r: Result<Vec<DeploymentEvent>, JsonRpcError>)
        requires
            old(registry).wf(),
        ensures
            final(registry).wf(),
            final(registry)@ == old(registry)@.remove(params.name@),
            r is Ok <==> is_valid_name(params.name@) && old(registry)@.contains_key(params.name@),
            !is_valid_name(params.name@) ==> (r matches Err(e) && e.code == JSON_RPC_DEPLOY_ERROR
                && e.message@ == "invalid subgraph name"@),
            is_valid_name(params.name@) && !old(registry)@.contains_key(params.name@) ==> (r matches Err(e)
                && e.code == JSON_RPC_REMOVE_ERROR && e.message@ == "name not found: "@ + params.name@),
            r matches Ok(events) ==> events_view(events@) == remove_events(old(registry)@, params.name@),
    {
        let name = match SubgraphDeploymentName::new(params.name) {
            Ok(name) => name,
            Err(()) => {
                proof {
                    assert(!old(registry)@.contains_key(params.name@)) by {
                        if old(registry)@.contains_key(params.name@) {
                            old(registry).lemma_names_valid(params.name@);
                        }
                    }
                    assert(old(registry)@.remove(params.name@) =~= old(registry)@);
                }
                return Err(invalid_name_error());
            },
        };
        match self.provider.remove(registry, &name) {
            Ok(events) => Ok(events),
            Err(e) => Err(provider_error(JSON_RPC_REMOVE_ERROR, &e)),
        }
    }

    /// `subgraph_list`: the (name, id) bindings of this node.
    pub fn list_handler(&self, registry: &DeploymentRegistry) -> (r: Vec<(String, String)>)
        requires
            registry.wf(),
        ensures
            lists_bindings(r@, bindings_of_node(registry@, self.node())),
    {
        self.provider.list(registry)
    }
}

} // verus!
