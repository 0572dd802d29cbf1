//! The errors of the configuration loader and of the two upstream clients.

use vstd::prelude::*;

verus! {

/// A variable of the environment that holds text where a port number is
/// expected. Each variant carries the text that was found.
#[derive(Debug)]
pub enum ConfigError {
    /// `POSTGRES_PORT` is not a port number.
    InvalidDatabasePort(String),
    /// `LIGHTSPARK_API_PORT` is not a port number.
    InvalidApiPort(String),
}

/// A failed call to the node-operator API.
#[derive(Debug)]
pub enum LightsparkClientError {
    /// Anything that went wrong, described in words. The description is for
    /// the server's log; no client of the service ever sees it.
    UnexpectedError(String),
}

/// A failed call to the aggregator API.
#[derive(Debug)]
pub enum PlaidError {
    /// Anything that went wrong, described in words. The description is for
    /// the server's log; no client of the service ever sees it.
    UnexpectedError(String),
}

impl LightsparkClientError {
    /// The description that the error carries.
    pub open spec fn message(self) -> Seq<char> {
        match self {
            LightsparkClientError::UnexpectedError(text) => text@,
        }
    }

    /// The description that the error carries, for the log.
    pub fn to_text(&self) -> (text: String)
        ensures
            text@ == self.message(),
    {
        match self {
            LightsparkClientError::UnexpectedError(text) => text.clone(),
        }
    }
}

impl PlaidError {
    /// The description that the error carries.
    pub open spec fn message(self) -> Seq<char> {
        match self {
            PlaidError::UnexpectedError(text) => text@,
        }
    }

    /// The description that the error carries, for the log.
    pub fn to_text(&self) -> (text: String)
        ensures
            text@ == self.message(),
    {
        match self {
            PlaidError::UnexpectedError(text) => text.clone(),
        }
    }
}

} // verus!
