//! Handlers of the commands that are a single remote call each.

use crate::client::Client;
use vstd::prelude::*;

verus! {

/// Handles the `describe` command.
pub struct Describe {
    pub client: Client,
}

impl Describe {
    pub fn new(client: Client) -> (r: Self)
        ensures
            r.client == client,
    {
        Describe { client }
    }
}

/// Handles the `ls` command.
pub struct LS {
    pub client: Client,
}

impl LS {
    pub fn new(client: Client) -> (r: Self)
        ensures
            r.client == client,
    {
        LS { client }
    }
}

/// Handles the event commands.
pub struct Events {
    pub client: Client,
}

impl Events {
    pub fn new(client: Client) -> (r: Self)
        ensures
            r.client == client,
    {
        Events { client }
    }
}

/// Holds the connection for loading resources to disk; the `load` command
/// itself runs through `DownloadHandler`.
pub struct Load {
    pub client: Client,
}

} // verus!
