//! The agent's startup configuration, as plain values. Reading these from a
//! file or the environment is the loader's business, outside the library.

use vstd::prelude::*;

verus! {

/// Connection and behaviour settings of the agent.
#[derive(Debug, Clone)]
pub struct BotConfig {
    pub username: String,
    pub password: String,
    pub homeserver_url: String,
    /// Whether messages sent by this agent itself are left unhandled.
    pub ignore_own_messages: bool,
    /// Whether invitations addressed to this agent are accepted.
    pub autojoin: bool,
}

impl BotConfig {
    pub fn new(
        username: String,
        password: String,
        homeserver_url: String,
        ignore_own_messages: bool,
        autojoin: bool,
    ) -> (c: Self)
        ensures
            c.username == username,
            c.password == password,
            c.homeserver_url == homeserver_url,
            c.ignore_own_messages == ignore_own_messages,
            c.autojoin == autojoin,
    {
        Self { username, password, homeserver_url, ignore_own_messages, autojoin }
    }
}

} // verus!
