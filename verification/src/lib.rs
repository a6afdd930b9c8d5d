//! A REST gateway for a Nomic node: the routes' answers, computed from what
//! the node reports, as JSON text.
pub mod json;
pub mod number;
pub mod codec;
pub mod staking;
pub mod delegations;
pub mod rewards;
pub mod accounts;
pub mod tx;
pub mod query;
pub mod checkpoints;
pub mod routes;

pub use routes::{
    app_host, ibc_applications_transfer_params, ibc_apps_transfer_params, proposals,
    staking_delegators_unbonding_delegations_2, staking_pool_2, CORS,
};
pub use codec::time_now;
pub use accounts::Balance;
pub use checkpoints::CheckpointQuery;
