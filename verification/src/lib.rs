//! The request-handling logic of a daily task list service: validation of
//! sign-up and password-change requests, the decisions each handler takes
//! between its database and session steps, the rows written to the
//! database, and the responses sent back.

pub mod ids;

pub mod domain;
pub mod errors;
pub mod responses;
pub mod authentication;
pub mod queries;
pub mod handlers;
pub mod routes;
pub mod startup;
