//! Server configuration values, read once at startup.

use vstd::prelude::*;
use vstd::string::StringExecFns;

verus! {

#[derive(Debug, Clone)]
pub struct ServerConfig {
    pub server: ServerSection,
    pub database: DatabaseSection,
    pub game: GameSection,
    pub paths: PathsSection,
}

/// The map directory used where the configuration names none.
pub open spec fn default_maps_dir() -> Seq<char> {
    "../L1J-TW_3.80c/maps"@
}

/// The paths used where the configuration names none.
pub fn default_paths() -> (paths: PathsSection)
    ensures
        paths.maps_dir@ == default_maps_dir(),
{
    PathsSection { maps_dir: String::from_str("../L1J-TW_3.80c/maps") }
}

#[derive(Debug, Clone)]
pub struct ServerSection {
    pub host: String,
    pub port: u16,
    pub max_online_users: u32,
}

#[derive(Debug, Clone)]
pub struct DatabaseSection {
    pub url: String,
    pub max_connections: u32,
}

#[derive(Debug, Clone)]
pub struct GameSection {
    pub tick_interval_ms: u64,
    pub npc_ai_sleep_range: u32,
    pub packet_batch_flush: bool,
}

#[derive(Debug, Clone)]
pub struct PathsSection {
    pub maps_dir: String,
}

} // verus!
