//! Session lifecycle and credential checking for a small authentication
//! service, written without I/O: every operation is a state machine that asks
//! its driver to query the credential store or the session store and is
//! called again with what came back.

pub mod ident;
pub mod machine;
pub mod models;
pub mod password;
pub mod routes;
pub mod session;
pub mod store;
