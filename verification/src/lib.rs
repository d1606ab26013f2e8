//! Decisions behind the wiki-trajectory routes and behind the execution of
//! attached functions, stated and proved apart from the services that they use.

pub mod errors;
pub mod execution_laws;
pub mod execution_model;
pub mod function_execution;
pub mod ids;
pub mod json;
pub mod page_laws;
pub mod reasoning;
pub mod reasoning_laws;
pub mod request_laws;
pub mod route_laws;
pub mod route_model;
pub mod routes;
pub mod run_laws;
pub mod text;
pub mod trajectory;
