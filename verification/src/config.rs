//! Client configuration.

use vstd::prelude::*;

use crate::sign::SignProvider;

verus! {

/// The client protocol (platform) to present to the server.
#[derive(PartialEq, Eq, Structural, Debug, Clone, Copy)]
pub enum Protocol {
    Windows,
    MacOs,
    Linux,
}

/// How much of the contact data the client keeps cached.
#[derive(PartialEq, Eq, Structural, Debug, Clone, Copy)]
pub enum CacheMode {
    Full,
    Half,
    /// Nothing is cached.
    Disabled,
}

/// How group members are fetched when messages arrive.
#[derive(PartialEq, Eq, Structural, Debug, Clone, Copy)]
pub enum FetchGroupMemberStrategy {
    /// Fetch only what a message needs; some member fields stay unknown.
    Simple,
    /// Fetch the full member list to attach member details to messages.
    Full,
}

/// Configuration for the client.
pub struct ClientConfig {
    /// The protocol for the client, default is Linux
    pub protocol: Protocol,
    /// Auto reconnect to server when disconnected
    pub auto_reconnect: bool,
    /// Use the IPv6 to connect to server, only if your network support IPv6
    pub use_ipv6_network: bool,
    /// Get optimum server from the MSF server, set to false to use hardcode server
    pub get_optimum_server: bool,
    /// Custom Sign Provider
    pub sign_provider: Option<Box<dyn SignProvider>>,
    /// The maximum size of the highway block in byte, max 1MB (1024 * 1024 byte)
    pub highway_chuck_size: usize,
    /// Highway uploading concurrency, if the image failed to send, set this to 1
    pub highway_concurrency: usize,
    /// Cache mode for the client
    pub cache_mode: CacheMode,
    /// The strategy for fetching group members.
    /// Setting it to `Simple` can avoid fetching all group members at the cost of losing some fields
    pub fetch_group_member_strategy: FetchGroupMemberStrategy,
}

/// The default configuration: Linux protocol, reconnecting, IPv4, optimum
/// server lookup, no custom sign provider, 1 MiB highway blocks uploaded four
/// at a time, half caching and simple member fetching.
pub open spec fn is_default_config(c: ClientConfig) -> bool {
    &&& c.protocol == Protocol::Linux
    &&& c.auto_reconnect
    &&& !c.use_ipv6_network
    &&& c.get_optimum_server
    &&& c.sign_provider is None
    &&& c.highway_chuck_size == 1024 * 1024
    &&& c.highway_concurrency == 4
    &&& c.cache_mode == CacheMode::Half
    &&& c.fetch_group_member_strategy == FetchGroupMemberStrategy::Simple
}

impl Default for ClientConfig {
    fn default() -> (res: Self)
        ensures
            is_default_config(res),
    {
        ClientConfig {
            protocol: Protocol::Linux,
            auto_reconnect: true,
            use_ipv6_network: false,
            get_optimum_server: true,
            sign_provider: None,
            highway_chuck_size: 1024 * 1024,
            highway_concurrency: 4,
            cache_mode: CacheMode::Half,
            fetch_group_member_strategy: FetchGroupMemberStrategy::Simple,
        }
    }
}

/// The defaults, as documented: the Linux protocol, reconnecting, IPv4, the
/// optimum server lookup, no custom sign provider, highway blocks of the
/// 1 MiB maximum sent four at a time, half caching, simple member fetching.
pub proof fn law_default_config(c: ClientConfig)
    requires
        is_default_config(c),
    ensures
        c.protocol == Protocol::Linux,
        c.auto_reconnect && !c.use_ipv6_network && c.get_optimum_server,
        c.sign_provider is None,
        c.highway_chuck_size == 1048576,
        c.highway_concurrency == 4,
        c.cache_mode == CacheMode::Half,
        c.fetch_group_member_strategy == FetchGroupMemberStrategy::Simple,
{
}

} // verus!
