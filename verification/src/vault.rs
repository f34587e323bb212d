//! Keyword vaults: the stakes placed on one keyword of a token.
//!
//! A vault takes stakes while it is open. It can be locked, which ends the
//! staking and protects the vault from elimination, or eliminated, which
//! burns all that was staked. A vault never is both.

use vstd::prelude::*;
use anchor_lang::error::Error;
use solana_program::account_info::AccountInfo;
use solana_program::pubkey::Pubkey;
use crate::error::{EngineError, ErrorCode};
use crate::ledger::{burn, transfer, Signer};
use crate::text::{byte_len, fits};

verus! {

/// The least amount that can be staked, and the least that a comment or a
/// boost can cost.
pub const MIN_STAKE: u64 = 1;

/// The number of bytes that the record of a vault has room for in its keyword.
pub const MAX_KEYWORD_LEN: usize = 50;

/// The record of the vault of one keyword.
#[derive(Debug, PartialEq, Eq)]
pub struct KeywordVault {
    /// The token under which the keyword competes.
    pub utility_token: Pubkey,
    pub keyword: String,
    /// The sum of all stakes, until the vault is eliminated.
    pub total_staked: u64,
    pub staker_count: u64,
    pub locked: bool,
    pub eliminated: bool,
}

/// The record of one stake.
#[derive(Debug, PartialEq, Eq)]
pub struct StakeRecord {
    pub staker: Pubkey,
    pub amount: u64,
    /// When the stake was placed, in seconds since the epoch.
    pub timestamp: i64,
}

impl KeywordVault {
    /// The record fits the storage that the ledger gives it, and the vault
    /// is not both locked and eliminated.
    pub open spec fn wf(self) -> bool {
        &&& byte_len(self.keyword@) <= MAX_KEYWORD_LEN
        &&& !(self.locked && self.eliminated)
    }

    /// The record of a vault on which nothing was staked yet.
    pub open spec fn fresh(utility_token: Pubkey, keyword: String) -> KeywordVault {
        KeywordVault {
            utility_token,
            keyword,
            total_staked: 0,
            staker_count: 0,
            locked: false,
            eliminated: false,
        }
    }

    /// Whether the vault takes a stake of `amount`.
    pub open spec fn stake_plan(self, amount: u64) -> Result<(), ErrorCode> {
        if amount < MIN_STAKE {
            Err(ErrorCode::InsufficientStake)
        } else if self.locked || self.eliminated {
            Err(ErrorCode::KeywordLockedOrEliminated)
        } else {
            Ok(())
        }
    }

    /// A stake of `amount` by `staker` at `now` whose payment ended as
    /// `paid`: the vault after it, and the record of the stake or the
    /// reason why there is none. The stake is counted only if the vault
    /// takes it, the payment arrived and both counters have room.
    pub open spec fn stake_step(
        self,
        staker: Pubkey,
        amount: u64,
        now: i64,
        paid: Result<(), Error>,
    ) -> (KeywordVault, Result<StakeRecord, EngineError>) {
        match self.stake_plan(amount) {
            Err(code) => (self, Err(EngineError::Rule(code))),
            Ok(_) => match paid {
                Err(e) => (self, Err(EngineError::Ledger(e))),
                Ok(_) => if self.total_staked + amount > u64::MAX || self.staker_count + 1
                    > u64::MAX {
                    (self, Err(EngineError::Rule(ErrorCode::MathOverflow)))
                } else {
                    (
                        KeywordVault {
                            total_staked: (self.total_staked + amount) as u64,
                            staker_count: (self.staker_count + 1) as u64,
                            ..self
                        },
                        Ok(StakeRecord { staker, amount, timestamp: now }),
                    )
                },
            },
        }
    }

    /// Locking the vault: the vault after it, and what the caller is told.
    /// A locked vault can be locked again, an eliminated one cannot.
    pub open spec fn lock_step(self) -> (KeywordVault, Result<(), EngineError>) {
        if self.eliminated {
            (self, Err(EngineError::Rule(ErrorCode::KeywordEliminated)))
        } else {
            (KeywordVault { locked: true, ..self }, Ok(()))
        }
    }

    /// Whether the vault can be eliminated, and how much is then to burn:
    /// all that is staked.
    pub open spec fn elimination_plan(self) -> Result<u64, ErrorCode> {
        if self.locked {
            Err(ErrorCode::KeywordLocked)
        } else {
            Ok(self.total_staked)
        }
    }

    /// An elimination whose burn ended as `burned`: the vault after it, and
    /// what the caller is told. The vault counts as eliminated, with
    /// nothing staked, only if the burn took place.
    pub open spec fn elimination_step(self, burned: Result<(), Error>) -> (
        KeywordVault,
        Result<(), EngineError>,
    ) {
        match self.elimination_plan() {
            Err(code) => (self, Err(EngineError::Rule(code))),
            Ok(_) => match burned {
                Err(e) => (self, Err(EngineError::Ledger(e))),
                Ok(_) => (KeywordVault { eliminated: true, total_staked: 0, ..self }, Ok(())),
            },
        }
    }

    /// Decides whether the vault takes a stake of `amount`.
    pub fn plan_stake(&self, amount: u64) -> (plan: Result<(), ErrorCode>)
        ensures
            plan == self.stake_plan(amount),
    {
        if amount < MIN_STAKE {
            Err(ErrorCode::InsufficientStake)
        } else if self.locked || self.eliminated {
            Err(ErrorCode::KeywordLockedOrEliminated)
        } else {
            Ok(())
        }
    }

    /// Counts a stake once its payment has ended as `paid`, and writes its
    /// record.
    pub fn settle_stake(
        &mut self,
        staker: Pubkey,
        amount: u64,
        now: i64,
        paid: Result<(), Error>,
    ) -> (r: Result<StakeRecord, EngineError>)
        ensures
            (*final(self), r) == old(self).stake_step(staker, amount, now, paid),
    {
        match self.plan_stake(amount) {
            Err(code) => Err(EngineError::Rule(code)),
            Ok(_) => match paid {
                Err(e) => Err(EngineError::Ledger(e)),
                Ok(_) => match self.total_staked.checked_add(amount) {
                    None => Err(EngineError::Rule(ErrorCode::MathOverflow)),
                    Some(total) => match self.staker_count.checked_add(1) {
                        None => Err(EngineError::Rule(ErrorCode::MathOverflow)),
                        Some(count) => {
                            self.total_staked = total;
                            self.staker_count = count;
                            Ok(StakeRecord { staker, amount, timestamp: now })
                        },
                    },
                },
            },
        }
    }

    /// Decides whether the vault can be eliminated, and how much to burn.
    pub fn plan_elimination(&self) -> (plan: Result<u64, ErrorCode>)
        ensures
            plan == self.elimination_plan(),
    {
        if self.locked {
            Err(ErrorCode::KeywordLocked)
        } else {
            Ok(self.total_staked)
        }
    }

    /// Marks the vault as eliminated once the burn of its stakes has ended
    /// as `burned`.
    pub fn settle_elimination(&mut self, burned: Result<(), Error>) -> (r: Result<
        (),
        EngineError,
    >)
        ensures
            (*final(self), r) == old(self).elimination_step(burned),
    {
        match self.plan_elimination() {
            Err(code) => Err(EngineError::Rule(code)),
            Ok(_) => match burned {
                Err(e) => Err(EngineError::Ledger(e)),
                Ok(_) => {
                    self.eliminated = true;
                    self.total_staked = 0;
                    Ok(())
                },
            },
        }
    }
}

/// No operation makes a vault both locked and eliminated, or changes its
/// keyword or its token: whatever the ledger answers, a well-formed vault
/// is well-formed after a stake, a lock or an elimination.
pub proof fn lemma_vault_stays_well_formed(
    vault: KeywordVault,
    staker: Pubkey,
    amount: u64,
    now: i64,
    outcome: Result<(), Error>,
)
    requires
        vault.wf(),
    ensures
        vault.stake_step(staker, amount, now, outcome).0.wf(),
        vault.lock_step().0.wf(),
        vault.elimination_step(outcome).0.wf(),
{
}

/// A vault that is locked or eliminated takes no stake: a stake of at
/// least the minimum is refused as `KeywordLockedOrEliminated`, whatever
/// its payment would do, and the vault stays as it is.
pub proof fn lemma_closed_vault_takes_no_stake(
    vault: KeywordVault,
    staker: Pubkey,
    amount: u64,
    now: i64,
    paid: Result<(), Error>,
)
    requires
        vault.locked || vault.eliminated,
        amount >= MIN_STAKE,
    ensures
        vault.stake_step(staker, amount, now, paid) == (
            vault,
            Err::<StakeRecord, EngineError>(
                EngineError::Rule(ErrorCode::KeywordLockedOrEliminated),
            ),
        ),
{
}

/// Locking and elimination exclude each other: a locked vault cannot be
/// eliminated and an eliminated vault cannot be locked, whatever the
/// ledger would answer, while a locked vault can be locked again.
pub proof fn lemma_lock_and_elimination_exclude(vault: KeywordVault, burned: Result<(), Error>)
    ensures
        vault.locked ==> vault.elimination_step(burned) == (
            vault,
            Err::<(), EngineError>(EngineError::Rule(ErrorCode::KeywordLocked)),
        ),
        vault.eliminated ==> vault.lock_step() == (
            vault,
            Err::<(), EngineError>(EngineError::Rule(ErrorCode::KeywordEliminated)),
        ),
        vault.locked && !vault.eliminated ==> vault.lock_step() == (vault, Ok::<(), EngineError>(())),
{
}

/// An elimination that takes place leaves nothing staked, and what it had
/// burned is all that was staked before; one that fails leaves the vault as
/// it is.
pub proof fn lemma_elimination_burns_all(vault: KeywordVault, burned: Result<(), Error>)
    ensures
        vault.elimination_step(burned).1 is Ok ==> {
            &&& vault.elimination_plan() == Ok::<u64, ErrorCode>(vault.total_staked)
            &&& burned is Ok
            &&& vault.elimination_step(burned).0.total_staked == 0
            &&& vault.elimination_step(burned).0.eliminated
        },
        vault.elimination_step(burned).1 is Err ==> vault.elimination_step(burned).0 == vault,
{
}

/// What the creation of a vault works on.
pub struct CreateKeywordVault {
    /// The record to fill.
    pub keyword_vault: KeywordVault,
    /// The token under which the keyword competes.
    pub utility_token: Pubkey,
}

/// What a stake works on.
pub struct StakeOnKeyword<'info> {
    pub keyword_vault: KeywordVault,
    /// Where the stakes of the vault are kept.
    pub vault_account: AccountInfo<'info>,
    pub staker: Signer<'info>,
    /// Where the staker pays from.
    pub staker_token_account: AccountInfo<'info>,
    /// The record to fill.
    pub stake_record: StakeRecord,
    pub token_program: AccountInfo<'info>,
}

/// What the locking of a vault works on.
pub struct LockKeyword {
    pub keyword_vault: KeywordVault,
}

/// What the elimination of a vault works on.
pub struct EliminateKeyword<'info> {
    pub keyword_vault: KeywordVault,
    /// Where the stakes of the vault are kept.
    pub vault_account: AccountInfo<'info>,
    /// The mint of the staked tokens.
    pub utility_token_mint: AccountInfo<'info>,
    /// The administrator, on whose authority the stakes are burned.
    pub admin: Signer<'info>,
    pub token_program: AccountInfo<'info>,
}

/// Creates the record of a vault for `keyword`: open, with nothing staked.
/// A keyword that the record has no room for is refused.
pub fn create_keyword_vault(ctx: &mut CreateKeywordVault, keyword: String) -> (r: Result<
    (),
    EngineError,
>)
    ensures
        byte_len(keyword@) > MAX_KEYWORD_LEN ==> {
            &&& r == Err::<(), EngineError>(EngineError::TextTooLong)
            &&& *final(ctx) == *old(ctx)
        },
        byte_len(keyword@) <= MAX_KEYWORD_LEN ==> {
            &&& r is Ok
            &&& final(ctx).keyword_vault == KeywordVault::fresh(old(ctx).utility_token, keyword)
            &&& final(ctx).keyword_vault.wf()
            &&& final(ctx).utility_token == old(ctx).utility_token
        },
{
    if !fits(&keyword, MAX_KEYWORD_LEN) {
        return Err(EngineError::TextTooLong);
    }
    ctx.keyword_vault = KeywordVault {
        utility_token: ctx.utility_token,
        keyword,
        total_staked: 0,
        staker_count: 0,
        locked: false,
        eliminated: false,
    };
    Ok(())
}

/// Stakes `amount` on the keyword at `now`: the staker pays into the
/// account of the vault, and the stake is counted and recorded when the
/// payment has arrived.
///
/// Nothing is paid unless [`KeywordVault::stake_plan`] allows the stake.
/// Whether the payment arrives is for the token program to say. Whatever
/// it says, the vault and the result are those of
/// [`KeywordVault::stake_step`] for that outcome, and the record of the
/// stake is written only on success.
pub fn stake_on_keyword<'info>(ctx: &mut StakeOnKeyword<'info>, amount: u64, now: i64) -> (r:
    Result<(), EngineError>)
    ensures
        exists|paid: Result<(), Error>|
            {
                let step = #[trigger] old(ctx).keyword_vault.stake_step(
                    old(ctx).staker.key,
                    amount,
                    now,
                    paid,
                );
                &&& final(ctx).keyword_vault == step.0
                &&& match step.1 {
                    Ok(record) => r is Ok && final(ctx).stake_record == record,
                    Err(e) => {
                        &&& r == Err::<(), EngineError>(e)
                        &&& final(ctx).stake_record == old(ctx).stake_record
                    },
                }
            },
        *final(ctx) == (StakeOnKeyword {
            keyword_vault: final(ctx).keyword_vault,
            stake_record: final(ctx).stake_record,
            ..*old(ctx)
        }),
        amount >= MIN_STAKE && (old(ctx).keyword_vault.locked || old(ctx).keyword_vault.eliminated)
            ==> {
            &&& r == Err::<(), EngineError>(EngineError::Rule(ErrorCode::KeywordLockedOrEliminated))
            &&& *final(ctx) == *old(ctx)
        },
        amount < MIN_STAKE ==> {
            &&& r == Err::<(), EngineError>(EngineError::Rule(ErrorCode::InsufficientStake))
            &&& *final(ctx) == *old(ctx)
        },
        r matches Err(EngineError::Rule(code)) && code == ErrorCode::MathOverflow ==> {
            ||| old(ctx).keyword_vault.total_staked + amount > u64::MAX
            ||| old(ctx).keyword_vault.staker_count + 1 > u64::MAX
        },
{
    if let Err(code) = ctx.keyword_vault.plan_stake(amount) {
        assert(ctx.keyword_vault.stake_step(ctx.staker.key, amount, now, Ok(())).1
            == Err::<StakeRecord, EngineError>(EngineError::Rule(code)));
        return Err(EngineError::Rule(code));
    }
    let paid = transfer(
        &ctx.token_program,
        &ctx.staker_token_account,
        &ctx.vault_account,
        &ctx.staker.info,
        amount,
    );
    let settled = ctx.keyword_vault.settle_stake(ctx.staker.key, amount, now, paid);
    match settled {
        Ok(record) => {
            ctx.stake_record = record;
            Ok(())
        },
        Err(e) => Err(e),
    }
}

/// Locks the vault. An eliminated vault is refused; a locked one stays
/// locked.
pub fn lock_keyword(ctx: &mut LockKeyword) -> (r: Result<(), EngineError>)
    ensures
        (final(ctx).keyword_vault, r) == old(ctx).keyword_vault.lock_step(),
{
    if ctx.keyword_vault.eliminated {
        return Err(EngineError::Rule(ErrorCode::KeywordEliminated));
    }
    ctx.keyword_vault.locked = true;
    Ok(())
}

/// Eliminates the vault: burns all that is staked on it, and then marks it
/// as eliminated with nothing staked.
///
/// Nothing is burned unless [`KeywordVault::elimination_plan`] allows it,
/// and what is burned is the amount staked before the call. Whether the
/// burn takes place is for the token program to say. Whatever it says, the
/// vault and the result are those of [`KeywordVault::elimination_step`] for
/// that outcome.
pub fn eliminate_keyword<'info>(ctx: &mut EliminateKeyword<'info>) -> (r: Result<(), EngineError>)
    ensures
        exists|burned: Result<(), Error>|
            (final(ctx).keyword_vault, r) == #[trigger] old(ctx).keyword_vault.elimination_step(
                burned,
            ),
        *final(ctx) == (EliminateKeyword { keyword_vault: final(ctx).keyword_vault, ..*old(ctx) }),
        match old(ctx).keyword_vault.elimination_plan() {
            Err(code) => r == Err::<(), EngineError>(EngineError::Rule(code)),
            Ok(_) => r is Ok || r->Err_0 is Ledger,
        },
        r is Ok ==> final(ctx).keyword_vault.total_staked == 0 && final(ctx).keyword_vault.eliminated,
{
    let staked: u64 = match ctx.keyword_vault.plan_elimination() {
        Ok(staked) => staked,
        Err(code) => {
            assert((ctx.keyword_vault, Err::<(), EngineError>(EngineError::Rule(code)))
                == ctx.keyword_vault.elimination_step(Ok(())));
            return Err(EngineError::Rule(code));
        },
    };
    let burned = burn(
        &ctx.token_program,
        &ctx.utility_token_mint,
        &ctx.vault_account,
        &ctx.admin.info,
        staked,
    );
    let r = ctx.keyword_vault.settle_elimination(burned);
    r
}

} // verus!
