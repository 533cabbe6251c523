//! Request handlers, shared state and start-up configuration of a small HTTP
//! service: a greeting, an echo, a configurable application name and a request
//! counter shared by every worker.
pub mod decimal;
pub mod port;
pub mod routes;
pub mod state;
