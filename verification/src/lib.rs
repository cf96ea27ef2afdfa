//! Verified core of the user service: request validation, response and
//! status models, password checking, logging line layout and the decision
//! logic of the HTTP handlers and client connections.

pub mod text;
pub mod model;
pub mod utils;
pub mod logging;
pub mod validation;
pub mod repositories;
pub mod controllers;
pub mod middleware;
pub mod middlewares;
pub mod settings;
pub mod config;
pub mod services;

use vstd::prelude::*;

verus! {
} // verus!
