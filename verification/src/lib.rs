//! A multi-tenant invoicing backend core: registration with email
//! verification, token-based authentication, and ownership-scoped CRUD
//! over clients, companies and invoices with exact money arithmetic.
//!
//! The shell around this library does the plumbing: it reads requests,
//! hands plain values in, and sends what comes back. Every decision —
//! who a token speaks for, whose row an id may touch, what an invoice
//! totals to, which number it gets — is made here, under contract.

use vstd::prelude::*;

pub mod auth;
pub mod config;
pub mod credentials;
pub mod decimal;
pub mod directory;
pub mod error;
pub mod invoicing;
pub mod kinds;
pub mod laws;
pub mod mail;
pub mod models;
pub mod paths;
pub mod store;
pub mod sys;
pub mod text;

use crate::config::Config;

verus! {

/// The application: its configuration, handed to the shell that runs
/// the server around this library.
pub struct Lako {
    pub config: Config,
}

impl Lako {
    /// Wraps a loaded configuration.
    pub fn new(cfg: Config) -> (r: Lako)
        ensures
            r.config == cfg,
    {
        Lako { config: cfg }
    }
}

} // verus!
