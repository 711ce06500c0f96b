//! Reconciles the users, groups, settings and administrator password of a
//! SonarQube server against a declarative configuration.
//!
//! The library never touches the network. Every operation is a function of
//! the replies received so far: it names the next request to send, or finishes
//! with a value, or fails (see [`exchange::Step`]). A caller sends the request,
//! appends the reply to the list and asks again.
//!
//! The operations are methods of [`sonar_api::SonarApi`]; [`setup::setup`] and
//! [`generate_token::generate_token`] are the two commands built from them.
//! What the operations do to a server is stated against the model of
//! [`remote`]: [`runs`] lists the calls of a whole run, [`convergence`] and
//! [`idempotence`] say where these calls leave the server, and
//! [`connection`] bounds the wait for the server and settles which password
//! is taken.

use vstd::prelude::*;

pub mod calls;
pub mod config_file_model;
pub mod connection;
pub mod convergence;
pub mod exchange;
pub mod failure;
pub mod generate_token;
pub mod idempotence;
pub mod remote;
pub mod runs;
pub mod setup;
pub mod sonar_api;
pub mod sonar_api_model;
pub mod text;

verus! {

/// The login of the administrator.
pub const ADMIN_USER: &'static str = "admin";

/// The password of the administrator on a server that was just installed.
pub const DEFAULT_ADMIN_PASSWORD: &'static str = "admin";

/// The environment variable that may hold the administrator's password.
pub const ENV_ADMIN_PASSWORD: &'static str = "ADMIN_PASSWORD";

/// The group that every account belongs to.
pub const DEFAULT_GROUP: &'static str = "sonar-users";

/// The permission template that applies where no other does.
pub const DEFAULT_TEMPLATE_NAME: &'static str = "default_template";

} // verus!
