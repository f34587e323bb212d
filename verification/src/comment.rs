//! Comments and their boost.
//!
//! A comment is posted at a cost, which becomes its boost. The boost halves
//! with every whole week since the comment was posted; a later boost first
//! applies that decay to what is stored and then adds its own amount.

use vstd::prelude::*;
use vstd::arithmetic::power2::{lemma2_to64, lemma_pow2_pos, lemma_pow2_strictly_increases, pow2};
use anchor_lang::error::Error;
use solana_program::account_info::AccountInfo;
use solana_program::pubkey::Pubkey;
use crate::error::{EngineError, ErrorCode};
use crate::ledger::{transfer, Signer};
use crate::text::{byte_len, fits};
use crate::vault::MIN_STAKE;

verus! {

/// The time in which a boost halves: one week, in seconds.
pub const DECAY_PERIOD: i64 = 604_800;

/// The number of bytes that the record of a comment has room for in its text.
pub const MAX_COMMENT_LEN: usize = 200;

/// The record of a comment.
#[derive(Debug, PartialEq, Eq)]
pub struct Comment {
    pub author: Pubkey,
    pub text: String,
    /// The weight of the comment, as of the last boost.
    pub boost: u64,
    /// When the comment was posted, in seconds since the epoch. Boosts do
    /// not move it.
    pub timestamp: i64,
}

/// The whole weeks from `posted` to `now`; none if `now` is not later.
pub open spec fn weeks_elapsed(posted: i64, now: i64) -> nat {
    if now <= posted {
        0
    } else {
        ((now - posted) / DECAY_PERIOD as int) as nat
    }
}

/// A boost after `weeks` halvings, each rounded down.
pub open spec fn decayed(boost: u64, weeks: nat) -> nat {
    boost as nat / pow2(weeks)
}

impl Comment {
    /// The record fits the storage that the ledger gives it.
    pub open spec fn wf(self) -> bool {
        byte_len(self.text@) <= MAX_COMMENT_LEN
    }

    /// Posting `text` at `now` for `cost`: the record of the comment, or
    /// the reason why there is none.
    pub open spec fn posted(author: Pubkey, text: String, cost: u64, now: i64) -> Result<
        Comment,
        EngineError,
    > {
        if cost < MIN_STAKE {
            Err(EngineError::Rule(ErrorCode::InsufficientCost))
        } else if byte_len(text@) > MAX_COMMENT_LEN {
            Err(EngineError::TextTooLong)
        } else {
            Ok(Comment { author, text, boost: cost, timestamp: now })
        }
    }

    /// Boosting the comment by `amount` at `now`: the record after it, and
    /// what the caller is told. The stored boost is halved once for every
    /// whole week since the comment was posted, and `amount` is added to
    /// what is left.
    pub open spec fn boost_step(self, amount: u64, now: i64) -> (Comment, Result<(), EngineError>) {
        let left = decayed(self.boost, weeks_elapsed(self.timestamp, now));
        if amount < MIN_STAKE {
            (self, Err(EngineError::Rule(ErrorCode::InsufficientCost)))
        } else if left + amount > u64::MAX {
            (self, Err(EngineError::Rule(ErrorCode::MathOverflow)))
        } else {
            (Comment { boost: (left + amount) as u64, ..self }, Ok(()))
        }
    }
}

/// Halving a boost no time leaves it as it is, and halving it once gives
/// its half, rounded down.
pub proof fn lemma_decay_of_first_weeks(boost: u64)
    ensures
        decayed(boost, 0) == boost,
        decayed(boost, 1) == boost / 2,
{
    lemma2_to64();
}

/// A boost never grows by decay, and nothing is left of it after 64 weeks.
pub proof fn lemma_decay_bounds(boost: u64, weeks: nat)
    ensures
        decayed(boost, weeks) <= boost,
        weeks >= 64 ==> decayed(boost, weeks) == 0,
{
    lemma_pow2_pos(weeks);
    let p = pow2(weeks) as int;
    let b = boost as int;
    assert(0 <= b / p <= b) by (nonlinear_arith)
        requires
            p >= 1,
            b >= 0,
    ;
    if weeks >= 64 {
        lemma2_to64();
        if weeks > 64 {
            lemma_pow2_strictly_increases(64, weeks);
        }
        assert(b / p == 0) by (nonlinear_arith)
            requires
                0 <= b < p,
        ;
    }
}

/// A boost in the first week after the post adds to the stored boost as it
/// is; a boost in the second week adds to its half, rounded down. Either
/// is refused only if the sum leaves the range of the boost.
pub proof fn lemma_boost_after_one_week(comment: Comment, amount: u64, now: i64)
    requires
        amount >= MIN_STAKE,
    ensures
        0 <= now - comment.timestamp < DECAY_PERIOD ==> comment.boost_step(amount, now) == (
            if comment.boost + amount > u64::MAX {
                (comment, Err::<(), EngineError>(EngineError::Rule(ErrorCode::MathOverflow)))
            } else {
                (Comment { boost: (comment.boost + amount) as u64, ..comment }, Ok(()))
            }
        ),
        DECAY_PERIOD <= now - comment.timestamp < 2 * DECAY_PERIOD ==> comment.boost_step(
            amount,
            now,
        ) == (
            if comment.boost / 2 + amount > u64::MAX {
                (comment, Err::<(), EngineError>(EngineError::Rule(ErrorCode::MathOverflow)))
            } else {
                (Comment { boost: (comment.boost / 2 + amount) as u64, ..comment }, Ok(()))
            }
        ),
{
    lemma_decay_of_first_weeks(comment.boost);
}

/// A boost changes nothing of a comment but its boost: the time of the
/// post, from which every later decay is counted, stays, and a record that
/// fits its storage fits it afterwards.
pub proof fn lemma_boost_keeps_the_post(comment: Comment, amount: u64, now: i64)
    ensures
        comment.boost_step(amount, now).0 == (Comment {
            boost: comment.boost_step(amount, now).0.boost,
            ..comment
        }),
        comment.boost_step(amount, now).1 is Err ==> comment.boost_step(amount, now).0 == comment,
        comment.wf() ==> comment.boost_step(amount, now).0.wf(),
{
}

/// What the posting of a comment works on.
pub struct PostComment<'info> {
    /// The record to fill.
    pub comment: Comment,
    /// Who posts, and is recorded as the author.
    pub buyer: Signer<'info>,
}

/// What the payment for a comment works on.
pub struct TransferToVaultForComment<'info> {
    /// Where the payment comes from.
    pub source_token_account: AccountInfo<'info>,
    /// Where the payment goes.
    pub vault_token_account: AccountInfo<'info>,
    pub authority: Signer<'info>,
    pub token_program: AccountInfo<'info>,
}

/// What a boost works on.
pub struct BoostComment {
    pub comment: Comment,
}

/// What the payer for a comment is told when the payment of `amount` ended
/// as `paid`: an amount below the minimum is refused, and the outcome of
/// the payment is passed on otherwise.
pub open spec fn comment_payment(amount: u64, paid: Result<(), Error>) -> Result<(), EngineError> {
    if amount < MIN_STAKE {
        Err(EngineError::Rule(ErrorCode::InsufficientCost))
    } else {
        match paid {
            Ok(_) => Ok(()),
            Err(e) => Err(EngineError::Ledger(e)),
        }
    }
}

/// Passes on how the payment of `amount` for a comment ended.
pub fn settle_comment_payment(amount: u64, paid: Result<(), Error>) -> (r: Result<
    (),
    EngineError,
>)
    ensures
        r == comment_payment(amount, paid),
{
    if amount < MIN_STAKE {
        return Err(EngineError::Rule(ErrorCode::InsufficientCost));
    }
    match paid {
        Ok(_) => Ok(()),
        Err(e) => Err(EngineError::Ledger(e)),
    }
}

/// Posts a comment at `now`: fills its record with the author, the text
/// and `cost` as its boost. A cost below the minimum is refused, and so is
/// a text that the record has no room for.
pub fn post_comment<'info>(ctx: &mut PostComment<'info>, text: String, cost: u64, now: i64) -> (r:
    Result<(), EngineError>)
    ensures
        match Comment::posted(old(ctx).buyer.key, text, cost, now) {
            Ok(comment) => {
                &&& r is Ok
                &&& final(ctx).comment == comment
                &&& final(ctx).comment.wf()
            },
            Err(e) => {
                &&& r == Err::<(), EngineError>(e)
                &&& final(ctx).comment == old(ctx).comment
            },
        },
        final(ctx).buyer == old(ctx).buyer,
{
    if cost < MIN_STAKE {
        return Err(EngineError::Rule(ErrorCode::InsufficientCost));
    }
    if !fits(&text, MAX_COMMENT_LEN) {
        return Err(EngineError::TextTooLong);
    }
    ctx.comment = Comment { author: ctx.buyer.key, text, boost: cost, timestamp: now };
    Ok(())
}

/// Pays `amount` for a comment from the source account into the vault. An
/// amount below the minimum is refused before anything is paid; otherwise
/// the outcome is that of the payment, passed on as it came.
pub fn transfer_to_vault_for_comment<'info>(
    ctx: &TransferToVaultForComment<'info>,
    amount: u64,
) -> (r: Result<(), EngineError>)
    ensures
        exists|paid: Result<(), Error>| r == #[trigger] comment_payment(amount, paid),
        amount < MIN_STAKE ==> r == Err::<(), EngineError>(
            EngineError::Rule(ErrorCode::InsufficientCost),
        ),
        amount >= MIN_STAKE ==> r is Ok || r->Err_0 is Ledger,
{
    if amount < MIN_STAKE {
        assert(comment_payment(amount, Ok(())) == Err::<(), EngineError>(
            EngineError::Rule(ErrorCode::InsufficientCost),
        ));
        return Err(EngineError::Rule(ErrorCode::InsufficientCost));
    }
    let paid = transfer(
        &ctx.token_program,
        &ctx.source_token_account,
        &ctx.vault_token_account,
        &ctx.authority.info,
        amount,
    );
    settle_comment_payment(amount, paid)
}

/// Boosts the comment by `boost_amount` at `now`: halves the stored boost
/// once for every whole week since the comment was posted, and adds the
/// amount. The time of the post stays as it is.
pub fn boost_comment(ctx: &mut BoostComment, boost_amount: u64, now: i64) -> (r: Result<
    (),
    EngineError,
>)
    ensures
        (final(ctx).comment, r) == old(ctx).comment.boost_step(boost_amount, now),
{
    if boost_amount < MIN_STAKE {
        return Err(EngineError::Rule(ErrorCode::InsufficientCost));
    }
    let posted: i64 = ctx.comment.timestamp;
    let stored: u64 = ctx.comment.boost;
    let left: u64 = if now <= posted {
        proof {
            lemma_decay_of_first_weeks(stored);
        }
        stored
    } else {
        match now.checked_sub(posted) {
            None => {
                proof {
                    lemma_decay_bounds(stored, weeks_elapsed(posted, now));
                }
                0
            },
            Some(elapsed) => {
                let weeks: i64 = elapsed / DECAY_PERIOD;
                if weeks >= 64 {
                    proof {
                        lemma_decay_bounds(stored, weeks_elapsed(posted, now));
                    }
                    0
                } else {
                    let shift: u64 = weeks as u64;
                    proof {
                        vstd::bits::lemma_u64_shr_is_div(stored, shift);
                    }
                    stored >> shift
                }
            },
        }
    };
    match left.checked_add(boost_amount) {
        None => Err(EngineError::Rule(ErrorCode::MathOverflow)),
        Some(boosted) => {
            ctx.comment.boost = boosted;
            Ok(())
        },
    }
}

} // verus!
