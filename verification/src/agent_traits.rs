//! The shared project document the agents operate on, the scope record the
//! architect produces, and the common introspection contract of all agents.

use vstd::prelude::*;

use crate::basic_agent::BasicAgent;

verus! {

/// serde_json's JSON value, carried opaquely through the endpoint schema.
#[verifier::external_type_specification]
#[verifier::external_body]
pub struct ExValue(serde_json::Value);

/// The three independent facts the architect discovers about a project.
#[derive(Debug, PartialEq, Eq, Structural, Clone, Copy)]
pub struct ProjectScope {
    /// The site needs create/read/update/delete functionality.
    pub is_crud_required: bool,
    /// The site needs users to log in and out.
    pub is_user_login_and_logout: bool,
    /// The site needs to fetch data from third-party providers.
    pub is_external_urls_required: bool,
}

/// One route of the generated backend's endpoint schema. Produced by a
/// schema-extraction stage with no consumer yet; the shape is kept for
/// future ones.
#[derive(Debug)]
pub struct RouteObject {
    pub route: String,
    pub is_route_dynamic: String,
    pub method: String,
    pub request_body: serde_json::Value,
    pub response: serde_json::Value,
}

/// The shared project document: one exclusive writer at any time, handed
/// from agent to agent in registry order and back to the caller at the end.
#[derive(Debug)]
pub struct FactSheet {
    pub project_description: String,
    pub project_scope: Option<ProjectScope>,
    pub external_urls: Option<Vec<String>>,
    pub backend_code: Option<String>,
    pub api_endpoint_schema: Option<Vec<RouteObject>>,
}

/// What every agent exposes to the manager: read-only introspection of its
/// attributes.
pub trait SpecialFunctions {
    fn get_attributes_from_agent(&self) -> &BasicAgent;
}

} // verus!
