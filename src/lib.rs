//! Control plane for named subgraph deployments: a registry of names bound to
//! subgraph ids and nodes, the reconciliation rules that turn registry changes
//! into provider start and stop commands, and the admin request rules.
pub mod name;
pub mod registry;
pub mod reconciler;
pub mod admin;
pub mod schema;
