//! The configuration record that the dashboard is started with.

use vstd::prelude::*;

verus! {

/// How to reach the mail server.
#[derive(Debug)]
pub struct ExchangeConfig {
    pub email: String,
    pub password: String,
    pub server: String,
}

/// The whole configuration.
#[derive(Debug)]
pub struct Config {
    pub exchange: ExchangeConfig,
}

impl Clone for ExchangeConfig {
    fn clone(&self) -> (copy: Self)
        ensures
            copy == *self,
    {
        ExchangeConfig {
            email: self.email.clone(),
            password: self.password.clone(),
            server: self.server.clone(),
        }
    }
}

impl Clone for Config {
    fn clone(&self) -> (copy: Self)
        ensures
            copy == *self,
    {
        Config { exchange: self.exchange.clone() }
    }
}

} // verus!
