//! Static configuration: the managed servers and the whitelist policy.
//!
//! Configuration is loaded once at process start (outside this library),
//! passed in as an immutable value, and never changed afterwards.

use vstd::prelude::*;

use crate::text::str_eq;

verus! {

/// One managed game server, as configured by the operator.
pub struct Server {
    /// Display name shown to users.
    pub name: String,
    /// Stable identifier used to reference the server in requests.
    pub id: String,
    /// Reference to the runtime container; empty when the server cannot be
    /// probed or commanded at all.
    pub container_id: String,
    /// Network address of the server.
    pub address: String,
    /// Port answering status queries.
    pub query_port: u16,
    /// Port of the remote administrative command channel.
    pub rcon_port: u16,
    /// Credential for the remote administrative command channel.
    pub rcon_password: String,
}

/// Mathematical image of a [`Server`].
pub struct ServerData {
    pub name: Seq<char>,
    pub id: Seq<char>,
    pub container_id: Seq<char>,
    pub address: Seq<char>,
    pub query_port: u16,
    pub rcon_port: u16,
    pub rcon_password: Seq<char>,
}

impl View for Server {
    type V = ServerData;

    open spec fn view(&self) -> ServerData {
        ServerData {
            name: self.name@,
            id: self.id@,
            container_id: self.container_id@,
            address: self.address@,
            query_port: self.query_port,
            rcon_port: self.rcon_port,
            rcon_password: self.rcon_password@,
        }
    }
}

impl Clone for Server {
    fn clone(&self) -> (r: Self)
        ensures
            r@ == self@,
    {
        Server {
            name: self.name.clone(),
            id: self.id.clone(),
            container_id: self.container_id.clone(),
            address: self.address.clone(),
            query_port: self.query_port,
            rcon_port: self.rcon_port,
            rcon_password: self.rcon_password.clone(),
        }
    }
}

/// The whitelist policy: who may decide requests, where requests are
/// announced, and which outcome notifications are sent.
pub struct WhitelistConfig {
    /// Whether an actor holding the administrator permission may decide
    /// requests regardless of role membership.
    pub allow_admin: bool,
    /// Role identifiers whose holders may decide requests.
    pub allowed_roles: Vec<u64>,
    /// Roles mentioned when a new request is announced.
    pub ping_roles: Vec<u64>,
    /// Channel receiving request announcements.
    pub request_channel: u64,
    /// Whether the requester is sent a direct message on approval.
    pub send_approval_dm: bool,
    /// Whether the requester is sent a direct message on denial.
    pub send_denial_dm: bool,
}

/// Mathematical image of a [`WhitelistConfig`].
pub struct WhitelistConfigData {
    pub allow_admin: bool,
    pub allowed_roles: Seq<u64>,
    pub ping_roles: Seq<u64>,
    pub request_channel: u64,
    pub send_approval_dm: bool,
    pub send_denial_dm: bool,
}

impl View for WhitelistConfig {
    type V = WhitelistConfigData;

    open spec fn view(&self) -> WhitelistConfigData {
        WhitelistConfigData {
            allow_admin: self.allow_admin,
            allowed_roles: self.allowed_roles@,
            ping_roles: self.ping_roles@,
            request_channel: self.request_channel,
            send_approval_dm: self.send_approval_dm,
            send_denial_dm: self.send_denial_dm,
        }
    }
}

/// The whole static configuration.
pub struct Config {
    pub whitelist: WhitelistConfig,
    pub servers: Vec<Server>,
}

/// Mathematical image of a [`Config`].
pub struct ConfigData {
    pub whitelist: WhitelistConfigData,
    pub servers: Seq<ServerData>,
}

impl View for Config {
    type V = ConfigData;

    open spec fn view(&self) -> ConfigData {
        ConfigData { whitelist: self.whitelist@, servers: self.servers@.map_values(|s: Server| s@) }
    }
}

/// The first configured server with the given identifier, if any.
pub open spec fn spec_find_server(servers: Seq<ServerData>, id: Seq<char>) -> Option<ServerData>
    decreases servers.len(),
{
    if servers.len() == 0 {
        None
    } else if servers[0].id == id {
        Some(servers[0])
    } else {
        spec_find_server(servers.drop_first(), id)
    }
}

impl Config {
    /// Looks up a server by identifier, returning the first match.
    pub fn find_server(&self, id: &str) -> (r: Option<&Server>)
        ensures
            match r {
                Some(s) => spec_find_server(self@.servers, id@) == Some(s@),
                None => spec_find_server(self@.servers, id@) is None,
            },
    {
        let ghost all = self@.servers;
        proof {
            assert(all.skip(0) =~= all);
        }
        let mut i: usize = 0;
        while i < self.servers.len()
            invariant
                i <= self.servers.len(),
                all == self@.servers,
                all.len() == self.servers.len(),
                forall|j: int| 0 <= j < all.len() ==> all[j] == #[trigger] self.servers@[j]@,
                spec_find_server(all, id@) == spec_find_server(all.skip(i as int), id@),
            decreases self.servers.len() - i,
        {
            proof {
                assert(all.skip(i as int)[0] == all[i as int]);
                assert(all.skip(i as int).drop_first() =~= all.skip(i as int + 1));
            }
            if str_eq(self.servers[i].id.as_str(), id) {
                return Some(&self.servers[i]);
            }
            i = i + 1;
        }
        proof {
            assert(all.skip(i as int) =~= Seq::<ServerData>::empty());
        }
        None
    }
}

} // verus!
