//! Messages and the capability that fetches them.

pub mod exchange;

use vstd::prelude::*;
use crate::config::Config;
use crate::email::exchange::ExchangeClient;

verus! {

/// One message, immutable once fetched.
#[derive(Debug)]
pub struct Email {
    pub id: String,
    pub subject: String,
    pub sender: String,
    /// Seconds since 1970-01-01 00:00:00 UTC.
    pub date: i64,
    pub body: String,
}

impl Clone for Email {
    fn clone(&self) -> (copy: Self)
        ensures
            copy == *self,
    {
        Email {
            id: self.id.clone(),
            subject: self.subject.clone(),
            sender: self.sender.clone(),
            date: self.date,
            body: self.body.clone(),
        }
    }
}

/// Why a fetch failed, as text for the user.
#[derive(Debug)]
pub struct FetchError {
    pub description: String,
}

/// A source of the current quarter's messages.
pub trait EmailClient {
    /// Fetches the messages of the current quarter, or says why it could
    /// not.
    fn fetch_current_quarter_emails(&self) -> (fetched: Result<Vec<Email>, FetchError>);
}

/// The client for the server that `config` names.
pub fn create_client(config: &Config) -> (client: ExchangeClient)
    ensures
        client@ == config.exchange,
{
    ExchangeClient::new(&config.exchange)
}

} // verus!
