pub mod account;
pub mod authority;
pub mod distributor;
pub mod error;
pub mod laws;
pub mod ledger;

pub use account::{AccountId, SignerInfo, TokenAccount};
pub use distributor::{
    backdoor_withdraw, distribute, initialize_distributor, redeem, update_distributor,
    BackdoorWithdraw, Distribute, DistributorAccount, InitializeDistributor, Redeem,
    UpdateDistributor,
};
pub use error::ErrorCode;
