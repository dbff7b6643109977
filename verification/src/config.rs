//! Startup configuration, built once and passed into every component.
//!
//! The values come from the environment and the command line; reading
//! them is the shell's concern. A missing required value, such as the
//! token signing secret or the database URL, is a configuration error
//! at startup, never a silent default.

use vstd::prelude::*;

verus! {

/// Where the server binds and which database it reaches.
#[derive(Debug)]
pub struct Server {
    pub address: String,
    pub db_url: String,
}

impl Clone for Server {
    fn clone(&self) -> (r: Self)
        ensures
            r == *self,
    {
        Server { address: self.address.clone(), db_url: self.db_url.clone() }
    }
}

/// The application's configuration.
#[derive(Debug)]
pub struct Config {
    pub server: Server,
}

impl Clone for Config {
    fn clone(&self) -> (r: Self)
        ensures
            r == *self,
    {
        Config { server: self.server.clone() }
    }
}

impl Config {
    /// Builds the configuration around its server section.
    pub fn new(server: Server) -> (r: Config)
        ensures
            r.server == server,
    {
        Config { server }
    }
}

/// A startup configuration problem, with what went wrong.
#[derive(Debug)]
pub struct ConfigurationError {
    details: String,
}

impl ConfigurationError {
    /// What went wrong.
    pub closed spec fn spec_details(&self) -> Seq<char> {
        self.details@
    }

    /// Wraps a description of the problem.
    pub fn new(msg: &str) -> (r: ConfigurationError)
        ensures
            r.spec_details() == msg@,
    {
        ConfigurationError { details: msg.to_owned() }
    }

    /// The description, for reporting at startup.
    pub fn message(&self) -> (r: String)
        ensures
            r@ == self.spec_details(),
    {
        self.details.clone()
    }
}

/// Credentials and endpoint of the outbound mail relay.
#[derive(Debug)]
pub struct SmtpConfig {
    pub username: String,
    pub password: String,
    pub server: String,
    pub port: u16,
}

} // verus!
