//! Startup planning for a collaborative-editing service.
//!
//! The service comes up in two stretches. First its dependencies are
//! checked, each check blocking and fatal: the connection pool, the schema
//! migrations, the identity provider (`state`). Then the server is composed
//! on them: session store, TLS material and session key, the one
//! collaboration actor, and the listener with its middleware
//! (`application`). In both, this crate decides and the caller acts: the
//! caller performs the action it is handed and reports the outcome.
//!
//! Secret texts (the session store's address, the certificate and its key)
//! travel in `secret::Secret`, which cannot be printed and is wiped when
//! dropped.
//!
//! `order` states what holds of every run: nothing listens before every
//! dependency check has succeeded, the actor and the listener are each
//! requested once, and every worker shares one session key.

pub mod address;
pub mod application;
pub mod config;
pub mod error;
pub mod listener;
pub mod material;
pub mod middleware;
pub mod order;
pub mod secret;
pub mod session;
pub mod state;
