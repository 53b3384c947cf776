//! The settings of a device.

use vstd::prelude::*;

verus! {

/// The settings of a device.
#[derive(Clone, Debug, PartialEq, Eq)]
pub struct Config {
    pub display_name: String,
    pub group_code: String,
    pub shared_folder: String,
    pub discovery_port: u16,
    pub transfer_port: u16,
    pub discovery_broadcast_addr: String,
    pub max_parallel_connections: u8,
    pub chunk_size_mb: u32,
    pub auto_discover: bool,
}

/// The UDP port of discovery broadcasts.
pub const DEFAULT_DISCOVERY_PORT: u16 = 19999;

/// The TCP port of transfers.
pub const DEFAULT_TRANSFER_PORT: u16 = 20000;

/// The number of parallel connections of a transfer.
pub const DEFAULT_MAX_PARALLEL_CONNECTIONS: u8 = 8;

/// The chunk size, in mebibytes.
pub const DEFAULT_CHUNK_SIZE_MB: u32 = 1;

/// Whether `c` holds the default settings, given the machine's host name
/// and home folder where they are known.
pub open spec fn is_default_config(c: Config, hostname: Option<String>, home_dir: Option<String>) -> bool {
    &&& c.display_name@ == (match hostname {
        Some(h) => h@,
        None => "My Device"@,
    })
    &&& c.group_code@ == Seq::<char>::empty()
    &&& c.shared_folder@ == (match home_dir {
        Some(h) => h@,
        None => "."@,
    })
    &&& c.discovery_port == DEFAULT_DISCOVERY_PORT
    &&& c.transfer_port == DEFAULT_TRANSFER_PORT
    &&& c.discovery_broadcast_addr@ == "255.255.255.255"@
    &&& c.max_parallel_connections == DEFAULT_MAX_PARALLEL_CONNECTIONS
    &&& c.chunk_size_mb == DEFAULT_CHUNK_SIZE_MB
    &&& c.auto_discover
}

impl Config {
    /// The default settings: the display name is the host name (or
    /// `My Device` where it is unknown), the shared folder the home folder
    /// (or the current folder), no group code, broadcasts to everyone.
    pub fn defaults(hostname: Option<String>, home_dir: Option<String>) -> (c: Config)
        ensures
            is_default_config(c, hostname, home_dir),
    {
        let display_name = match hostname {
            Some(h) => h,
            None => String::from_str("My Device"),
        };
        let shared_folder = match home_dir {
            Some(h) => h,
            None => String::from_str("."),
        };
        Config {
            display_name,
            group_code: String::new(),
            shared_folder,
            discovery_port: DEFAULT_DISCOVERY_PORT,
            transfer_port: DEFAULT_TRANSFER_PORT,
            discovery_broadcast_addr: String::from_str("255.255.255.255"),
            max_parallel_connections: DEFAULT_MAX_PARALLEL_CONNECTIONS,
            chunk_size_mb: DEFAULT_CHUNK_SIZE_MB,
            auto_discover: true,
        }
    }
}

} // verus!
