//! The accounting engine of a keyword staking market.
//!
//! A sponsor token is sold until a funding threshold is met and is then
//! launched, which splits the collected funds into a tax and a liquidity
//! share. Speculators stake on keywords that compete under the token; a
//! keyword can be locked, or eliminated with its stakes burned, and is paid
//! periodic rewards. Comments carry a boost that halves with every week.
//!
//! Every operation is a transition on plain records whose result is stated
//! in its contract. Tokens move only through the token program of the
//! ledger, which is reached through the two calls in [`ledger`].

pub mod comment;
pub mod error;
pub mod launch;
pub mod ledger;
pub mod reward;
pub mod text;
pub mod vault;

pub use error::{EngineError, ErrorCode};
pub use launch::{
    buy_token, create_utility_token, launch_token, BuyToken, CreateUtilityToken, LaunchSplit,
    LaunchToken, UtilityToken, MAX_SYMBOL_LEN, TAX_PERCENT,
};
pub use ledger::Signer;
pub use vault::{
    create_keyword_vault, eliminate_keyword, lock_keyword, stake_on_keyword, CreateKeywordVault,
    EliminateKeyword, KeywordVault, LockKeyword, StakeOnKeyword, StakeRecord, MAX_KEYWORD_LEN,
    MIN_STAKE,
};
pub use reward::{
    distribute_rewards, plan_reward, settle_distribution, DistributeRewards, POOL_DIVISOR,
    RARITY_SCALE, REWARD_INTERVAL,
};
pub use comment::{
    boost_comment, post_comment, settle_comment_payment, transfer_to_vault_for_comment,
    BoostComment, Comment, PostComment, TransferToVaultForComment, DECAY_PERIOD, MAX_COMMENT_LEN,
};
