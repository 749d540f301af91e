//! What the client is configured with.

use vstd::prelude::*;
use vstd::string::StringExecFns;
use crate::clientinfo::CLIENT_NAME;

verus! {

/// The server address used when none is given.
pub const SERVER_ADDRESS: &'static str = "127.0.0.1:6666";

/// Where the server is, as the text `host:port`.
#[derive(Debug)]
pub struct ServerInfoResource {
    pub addr: String,
}

impl ServerInfoResource {
    pub fn new(addr: String) -> (info: Self)
        ensures
            info.addr == addr,
    {
        Self { addr }
    }
}

impl Default for ServerInfoResource {
    fn default() -> (info: Self)
        ensures
            info.addr@ == SERVER_ADDRESS@,
    {
        Self { addr: String::from_str(SERVER_ADDRESS) }
    }
}

/// The name this client goes by.
#[derive(Debug)]
pub struct ClientInfoResource {
    pub name: String,
}

impl ClientInfoResource {
    pub fn new(name: String) -> (info: Self)
        ensures
            info.name == name,
    {
        Self { name }
    }
}

impl Default for ClientInfoResource {
    fn default() -> (info: Self)
        ensures
            info.name@ == CLIENT_NAME@,
    {
        Self { name: String::from_str(CLIENT_NAME) }
    }
}

/// What the chat room is set up with: the server and the client's name.
#[derive(Debug)]
pub struct ChatroomBundle {
    pub server_info: ServerInfoResource,
    pub client_info: ClientInfoResource,
}

impl ChatroomBundle {
    pub fn new(server_info: ServerInfoResource, client_info: ClientInfoResource) -> (bundle: Self)
        ensures
            bundle.server_info == server_info,
            bundle.client_info == client_info,
    {
        Self { server_info, client_info }
    }
}

impl Default for ChatroomBundle {
    fn default() -> (bundle: Self)
        ensures
            bundle.server_info.addr@ == SERVER_ADDRESS@,
            bundle.client_info.name@ == CLIENT_NAME@,
    {
        Self { server_info: ServerInfoResource::default(), client_info: ClientInfoResource::default() }
    }
}

/// Some transient values that improve the user's experience.
#[derive(Debug)]
pub struct UserCache {
    pub name: String,
}

impl UserCache {
    /// Remembers `name`. Writing the cache to disk is left to the caller.
    pub fn save_name(&mut self, name: &str)
        ensures
            final(self).name@ == name@,
    {
        self.name = name.to_owned();
    }

    pub fn get_name(&self) -> (name: &str)
        ensures
            name@ == self.name@,
    {
        self.name.as_str()
    }
}

impl Default for UserCache {
    fn default() -> (cache: Self)
        ensures
            cache.name@ == Seq::<char>::empty(),
    {
        Self { name: String::new() }
    }
}

} // verus!
