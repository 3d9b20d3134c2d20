//! The settings of a proxy, and the values they have where nothing else is
//! said.

use vstd::prelude::*;
use vstd::string::*;

verus! {

/// The settings of a proxy.
#[derive(Debug, Clone)]
pub struct ProxyConfig {
    /// The origin whose response goes back to the client, as `host:port`.
    pub primary: String,
    /// The origin whose response is only compared, as `host:port`.
    pub shadow: String,
    /// The address on which clients are accepted.
    pub listen: String,
    /// The workers that serve clients.
    pub serving_workers: usize,
    /// The workers that take exchanges from the hand-off channel.
    pub analyzer_workers: usize,
    /// How many exchanges the hand-off channel holds before a sender waits.
    pub channel_capacity: usize,
    /// The size of the buffer of one read, in bytes.
    pub buffer_size: usize,
}

impl Default for ProxyConfig {
    fn default() -> (config: ProxyConfig)
        ensures
            config.primary@ == "127.0.0.1:4001"@,
            config.shadow@ == "127.0.0.1:4002"@,
            config.listen@ == "127.0.0.1:1234"@,
            config.serving_workers == 10,
            config.analyzer_workers == 2,
            config.channel_capacity == 1000,
            config.buffer_size == 1500,
    {
        ProxyConfig {
            primary: String::from_str("127.0.0.1:4001"),
            shadow: String::from_str("127.0.0.1:4002"),
            listen: String::from_str("127.0.0.1:1234"),
            serving_workers: 10,
            analyzer_workers: 2,
            channel_capacity: 1000,
            buffer_size: 1500,
        }
    }
}

} // verus!
