//! An escrow that locks a fixed deposit ("ping") until a deadline and then pays
//! it back ("pong"), one participant at a time or in resumable bulk sweeps.
pub mod address;
pub mod asset;
pub mod model;
pub mod contract;
pub mod laws;
pub mod cli;

pub use asset::{AssetId, asset_from_upper, get_token_identifier, is_valid_token_identifier};
pub use cli::{
    DidUserPingArgs, GetPongEnableTimestampArgs, GetTimeToPongArgs, GetUserPingTimestampArgs,
    PingArgs,
};
pub use address::{Address, address_from_bech32, address_from_bytes};
pub use contract::{BatchOutcome, PingPong, Transfer};
pub use model::{BatchStatus, GAS_PER_REFUND, PingPongError, UserStatus};
