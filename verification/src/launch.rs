//! The sale and launch of a sponsor token.
//!
//! Buyers pay into the launch vault of the token until its threshold is
//! met. The launch then pays a tax out of the vault, hands the rest to the
//! liquidity pool, and marks the token as launched, which happens once.
//! Purchases are counted before and after.

use vstd::prelude::*;
use anchor_lang::error::Error;
use solana_program::account_info::AccountInfo;
use solana_program::pubkey::Pubkey;
use crate::error::{EngineError, ErrorCode};
use crate::ledger::{transfer, Signer};
use crate::text::{byte_len, fits};

verus! {

/// The share of the collected funds, in percent, that a launch pays as tax.
pub const TAX_PERCENT: u64 = 5;

/// The number of bytes that the record of a token has room for in its symbol.
pub const MAX_SYMBOL_LEN: usize = 10;

/// The record of a sponsor token.
#[derive(Debug, PartialEq, Eq)]
pub struct UtilityToken {
    pub symbol: String,
    /// The mint of the asset that the token stands for.
    pub real_token_mint: Pubkey,
    /// The funds that must be collected before the token can be launched.
    pub launch_threshold: u64,
    /// The sum of all purchases so far.
    pub funds_collected: u64,
    pub launched: bool,
    /// When rewards were last distributed, in seconds since the epoch.
    pub last_reward_time: i64,
}

/// How a launch divides the collected funds.
#[derive(Clone, Copy, Debug, PartialEq, Eq, Structural)]
pub struct LaunchSplit {
    /// What goes to the tax account.
    pub tax: u64,
    /// What goes to the liquidity pool.
    pub liquidity: u64,
}

impl UtilityToken {
    /// The record fits the storage that the ledger gives it.
    pub open spec fn wf(self) -> bool {
        byte_len(self.symbol@) <= MAX_SYMBOL_LEN
    }

    /// The record of a token that was created at `now` and has sold nothing.
    pub open spec fn fresh(
        symbol: String,
        real_token_mint: Pubkey,
        launch_threshold: u64,
        now: i64,
    ) -> UtilityToken {
        UtilityToken {
            symbol,
            real_token_mint,
            launch_threshold,
            funds_collected: 0,
            launched: false,
            last_reward_time: now,
        }
    }

    /// A purchase of `amount` whose payment ended as `paid`: the record
    /// after it, and what the buyer is told. The amount is counted only if
    /// the payment arrived and the counter has room for it.
    pub open spec fn purchase_step(self, amount: u64, paid: Result<(), Error>) -> (
        UtilityToken,
        Result<(), EngineError>,
    ) {
        match paid {
            Err(e) => (self, Err(EngineError::Ledger(e))),
            Ok(_) => if self.funds_collected + amount > u64::MAX {
                (self, Err(EngineError::Rule(ErrorCode::MathOverflow)))
            } else {
                (
                    UtilityToken { funds_collected: (self.funds_collected + amount) as u64, ..self },
                    Ok(()),
                )
            },
        }
    }

    /// Whether the token can be launched now, and how its funds would be
    /// divided: the tax is `TAX_PERCENT` percent of the funds, rounded down,
    /// and the liquidity is all the rest.
    pub open spec fn launch_plan(self) -> Result<LaunchSplit, ErrorCode> {
        if self.launched {
            Err(ErrorCode::AlreadyLaunched)
        } else if self.funds_collected < self.launch_threshold {
            Err(ErrorCode::ThresholdNotMet)
        } else if self.funds_collected * TAX_PERCENT > u64::MAX {
            Err(ErrorCode::MathOverflow)
        } else {
            Ok(
                LaunchSplit {
                    tax: (self.funds_collected * TAX_PERCENT / 100) as u64,
                    liquidity: (self.funds_collected - self.funds_collected * TAX_PERCENT / 100) as u64,
                },
            )
        }
    }

    /// A launch whose two payments, the tax and then the liquidity, ended
    /// together as `paid`: the record after it, and what the caller is told.
    pub open spec fn launch_step(self, paid: Result<(), Error>) -> (
        UtilityToken,
        Result<(), EngineError>,
    ) {
        match self.launch_plan() {
            Err(code) => (self, Err(EngineError::Rule(code))),
            Ok(_) => match paid {
                Err(e) => (self, Err(EngineError::Ledger(e))),
                Ok(_) => (UtilityToken { launched: true, ..self }, Ok(())),
            },
        }
    }

    /// Counts a purchase of `amount` once its payment has ended as `paid`.
    pub fn settle_purchase(&mut self, amount: u64, paid: Result<(), Error>) -> (r: Result<
        (),
        EngineError,
    >)
        ensures
            (*final(self), r) == old(self).purchase_step(amount, paid),
    {
        match paid {
            Err(e) => Err(EngineError::Ledger(e)),
            Ok(_) => match self.funds_collected.checked_add(amount) {
                None => Err(EngineError::Rule(ErrorCode::MathOverflow)),
                Some(total) => {
                    self.funds_collected = total;
                    Ok(())
                },
            },
        }
    }

    /// Decides whether the token can be launched, and divides its funds.
    pub fn plan_launch(&self) -> (plan: Result<LaunchSplit, ErrorCode>)
        ensures
            plan == self.launch_plan(),
    {
        if self.launched {
            return Err(ErrorCode::AlreadyLaunched);
        }
        if self.funds_collected < self.launch_threshold {
            return Err(ErrorCode::ThresholdNotMet);
        }
        let total: u64 = self.funds_collected;
        match total.checked_mul(TAX_PERCENT) {
            None => Err(ErrorCode::MathOverflow),
            Some(scaled) => {
                let tax: u64 = scaled / 100;
                match total.checked_sub(tax) {
                    None => Err(ErrorCode::MathOverflow),
                    Some(liquidity) => Ok(LaunchSplit { tax, liquidity }),
                }
            },
        }
    }

    /// Marks the token as launched once the two payments of the launch
    /// have ended together as `paid`.
    pub fn settle_launch(&mut self, paid: Result<(), Error>) -> (r: Result<(), EngineError>)
        ensures
            (*final(self), r) == old(self).launch_step(paid),
    {
        match self.plan_launch() {
            Err(code) => Err(EngineError::Rule(code)),
            Ok(_) => match paid {
                Err(e) => Err(EngineError::Ledger(e)),
                Ok(_) => {
                    self.launched = true;
                    Ok(())
                },
            },
        }
    }
}

/// The sum of the amounts of those purchases whose payment arrived.
pub open spec fn paid_total(purchases: Seq<(u64, Result<(), Error>)>) -> nat
    decreases purchases.len(),
{
    if purchases.len() == 0 {
        0
    } else {
        let last = purchases.last();
        paid_total(purchases.drop_last()) + if last.1 is Ok {
            last.0 as nat
        } else {
            0
        }
    }
}

/// The record after a run of purchases, the earliest first, each given by
/// its amount and by how its payment ended.
pub open spec fn after_purchases(
    token: UtilityToken,
    purchases: Seq<(u64, Result<(), Error>)>,
) -> UtilityToken
    decreases purchases.len(),
{
    if purchases.len() == 0 {
        token
    } else {
        let last = purchases.last();
        after_purchases(token, purchases.drop_last()).purchase_step(last.0, last.1).0
    }
}

/// A purchase whose payment failed is refused with the error of the ledger
/// and counts nothing, and no purchase makes the collected funds less or
/// changes anything but them.
pub proof fn lemma_purchase_counts_only_payments(
    token: UtilityToken,
    amount: u64,
    paid: Result<(), Error>,
)
    ensures
        paid is Err ==> token.purchase_step(amount, paid) == (
            token,
            Err::<(), EngineError>(EngineError::Ledger(paid->Err_0)),
        ),
        token.purchase_step(amount, paid).1 is Err ==> token.purchase_step(amount, paid).0 == token,
        token.purchase_step(amount, paid).0.funds_collected >= token.funds_collected,
        token.purchase_step(amount, paid).0 == (UtilityToken {
            funds_collected: token.purchase_step(amount, paid).0.funds_collected,
            ..token
        }),
{
}

/// Over any run of purchases whose payments together fit the counter, the
/// collected funds grow by exactly the sum of the amounts that were paid,
/// and nothing else in the record changes.
pub proof fn lemma_purchases_add_up(token: UtilityToken, purchases: Seq<(u64, Result<(), Error>)>)
    requires
        token.funds_collected + paid_total(purchases) <= u64::MAX,
    ensures
        after_purchases(token, purchases) == (UtilityToken {
            funds_collected: (token.funds_collected + paid_total(purchases)) as u64,
            ..token
        }),
    decreases purchases.len(),
{
    if purchases.len() > 0 {
        lemma_purchases_add_up(token, purchases.drop_last());
    }
}

/// A token is launched at most once: whatever its payments would do, the
/// launch of a launched token is refused as `AlreadyLaunched` and changes
/// nothing, and every launch that takes place leaves the token launched,
/// with its collected funds as they were.
pub proof fn lemma_launch_happens_once(
    token: UtilityToken,
    first: Result<(), Error>,
    second: Result<(), Error>,
)
    ensures
        token.launched ==> token.launch_step(first) == (
            token,
            Err::<(), EngineError>(EngineError::Rule(ErrorCode::AlreadyLaunched)),
        ),
        token.launch_step(first).1 is Ok ==> {
            let launched = token.launch_step(first).0;
            &&& !token.launched
            &&& launched == (UtilityToken { launched: true, ..token })
            &&& launched.launch_step(second) == (
                launched,
                Err::<(), EngineError>(EngineError::Rule(ErrorCode::AlreadyLaunched)),
            )
        },
        token.launch_step(first).1 is Err ==> token.launch_step(first).0 == token,
{
}

/// The launch divides the funds without loss: the tax is five percent of
/// them, rounded down, and tax and liquidity together are all of them.
pub proof fn lemma_launch_split_is_exact(token: UtilityToken)
    requires
        token.launch_plan() is Ok,
    ensures
        token.launch_plan()->Ok_0.tax == token.funds_collected * 5 / 100,
        token.launch_plan()->Ok_0.tax + token.launch_plan()->Ok_0.liquidity
            == token.funds_collected,
        token.funds_collected >= token.launch_threshold,
{
}

/// Neither a purchase nor a launch touches the symbol: a record that fits
/// its storage fits it afterwards, whatever the ledger answers.
pub proof fn lemma_token_stays_well_formed(
    token: UtilityToken,
    amount: u64,
    paid: Result<(), Error>,
)
    requires
        token.wf(),
    ensures
        token.purchase_step(amount, paid).0.wf(),
        token.launch_step(paid).0.wf(),
{
}

/// What the creation of a token works on.
pub struct CreateUtilityToken {
    /// The record to fill.
    pub utility_token: UtilityToken,
    /// The mint of the asset that the token stands for.
    pub real_token_mint: Pubkey,
}

/// What a purchase works on.
pub struct BuyToken<'info> {
    pub utility_token: UtilityToken,
    pub buyer: Signer<'info>,
    /// Where the buyer pays from.
    pub buyer_token_account: AccountInfo<'info>,
    /// Where the funds of the sale are kept until the launch.
    pub launch_vault: AccountInfo<'info>,
    pub token_program: AccountInfo<'info>,
}

/// What a launch works on.
pub struct LaunchToken<'info> {
    pub utility_token: UtilityToken,
    pub launch_vault: AccountInfo<'info>,
    pub liquidity_pool: AccountInfo<'info>,
    pub admin_tax_account: AccountInfo<'info>,
    /// The administrator, on whose authority the vault pays out.
    pub admin: Signer<'info>,
    pub token_program: AccountInfo<'info>,
}

/// Creates the record of a token at `now`, with nothing sold and not
/// launched. A symbol that the record has no room for is refused.
pub fn create_utility_token(
    ctx: &mut CreateUtilityToken,
    symbol: String,
    launch_threshold: u64,
    now: i64,
) -> (r: Result<(), EngineError>)
    ensures
        byte_len(symbol@) > MAX_SYMBOL_LEN ==> {
            &&& r == Err::<(), EngineError>(EngineError::TextTooLong)
            &&& *final(ctx) == *old(ctx)
        },
        byte_len(symbol@) <= MAX_SYMBOL_LEN ==> {
            &&& r is Ok
            &&& final(ctx).utility_token == UtilityToken::fresh(
                symbol,
                old(ctx).real_token_mint,
                launch_threshold,
                now,
            )
            &&& final(ctx).utility_token.wf()
            &&& final(ctx).real_token_mint == old(ctx).real_token_mint
        },
{
    if !fits(&symbol, MAX_SYMBOL_LEN) {
        return Err(EngineError::TextTooLong);
    }
    ctx.utility_token = UtilityToken {
        symbol,
        real_token_mint: ctx.real_token_mint,
        launch_threshold,
        funds_collected: 0,
        launched: false,
        last_reward_time: now,
    };
    Ok(())
}

/// Sells `amount` of the token: the buyer pays into the launch vault, and
/// the payment is counted when it has arrived.
///
/// Whether the payment arrives is for the token program to say. Whatever
/// it says, the record and the result are those of
/// [`UtilityToken::purchase_step`] for that outcome.
pub fn buy_token<'info>(ctx: &mut BuyToken<'info>, amount: u64) -> (r: Result<(), EngineError>)
    ensures
        exists|paid: Result<(), Error>|
            (final(ctx).utility_token, r) == #[trigger] old(ctx).utility_token.purchase_step(
                amount,
                paid,
            ),
        *final(ctx) == (BuyToken { utility_token: final(ctx).utility_token, ..*old(ctx) }),
        r matches Err(EngineError::Rule(code)) ==> {
            &&& code == ErrorCode::MathOverflow
            &&& old(ctx).utility_token.funds_collected + amount > u64::MAX
        },
{
    let paid = transfer(
        &ctx.token_program,
        &ctx.buyer_token_account,
        &ctx.launch_vault,
        &ctx.buyer.info,
        amount,
    );
    let r = ctx.utility_token.settle_purchase(amount, paid);
    r
}

/// Launches the token: pays the tax and then the liquidity out of the
/// launch vault, and marks the token as launched when both have been paid.
///
/// Nothing is paid unless [`UtilityToken::launch_plan`] allows the launch,
/// and the liquidity is paid only after the tax. Whether the payments
/// arrive is for the token program to say. Whatever it says, the record and
/// the result are those of [`UtilityToken::launch_step`] for that outcome.
pub fn launch_token<'info>(ctx: &mut LaunchToken<'info>) -> (r: Result<(), EngineError>)
    ensures
        exists|paid: Result<(), Error>|
            (final(ctx).utility_token, r) == #[trigger] old(ctx).utility_token.launch_step(paid),
        *final(ctx) == (LaunchToken { utility_token: final(ctx).utility_token, ..*old(ctx) }),
        match old(ctx).utility_token.launch_plan() {
            Err(code) => r == Err::<(), EngineError>(EngineError::Rule(code)),
            Ok(_) => r is Ok || r->Err_0 is Ledger,
        },
{
    let split = match ctx.utility_token.plan_launch() {
        Ok(split) => split,
        Err(code) => {
            assert((ctx.utility_token, Err::<(), EngineError>(EngineError::Rule(code)))
                == ctx.utility_token.launch_step(Ok(())));
            return Err(EngineError::Rule(code));
        },
    };
    let tax_paid = transfer(
        &ctx.token_program,
        &ctx.launch_vault,
        &ctx.admin_tax_account,
        &ctx.admin.info,
        split.tax,
    );
    let paid = match tax_paid {
        Ok(_) => transfer(
            &ctx.token_program,
            &ctx.launch_vault,
            &ctx.liquidity_pool,
            &ctx.admin.info,
            split.liquidity,
        ),
        Err(e) => Err(e),
    };
    let r = ctx.utility_token.settle_launch(paid);
    r
}

} // verus!
