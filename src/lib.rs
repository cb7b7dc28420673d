//! Coordination core for launching automated game clients against the
//! injected BWAPI control library: version fingerprinting, the shared
//! instance table, and generation of the `bwapi.ini` configuration text.
mod cli;
mod game_table;
mod ini;
mod version;

pub use cli::{check_arguments, CliError};
pub use game_table::{
    GameInstance, GameTable, GameTableAccess, GAME_INSTANCE_COUNT, GAME_INSTANCE_SIZE,
    GAME_TABLE_SIZE,
};
pub use ini::{AutoMenu, Binary, BwapiConnectMode, BwapiIni, BwapiLanMode, InvalidLanMode, Race};
pub use version::{
    BwapiVersion, CRC_BWAPI_374, CRC_BWAPI_375, CRC_BWAPI_412, CRC_BWAPI_420, CRC_BWAPI_440,
};
