use anchor_lang::error::Error;
use anchor_spl::token::spl_token::instruction::TokenInstruction;
use solana_program::account_info::AccountInfo;
use solana_program::entrypoint::ProgramResult;
use solana_program::instruction::Instruction;
use solana_program::program_error::ProgramError;
use solana_program::program_stubs::{set_syscall_stubs, SyscallStubs};
use solana_program::pubkey::Pubkey;
use utility_staking::{
    boost_comment, post_comment, settle_comment_payment, transfer_to_vault_for_comment,
    BoostComment, Comment, EngineError, ErrorCode, PostComment, Signer,
    TransferToVaultForComment, DECAY_PERIOD, MAX_COMMENT_LEN,
};

/// A token program that keeps balances in the lamports of the accounts it is
/// handed: a transfer moves them, a burn destroys them, and either fails
/// when the source holds too little.
struct TokenLedger;

impl SyscallStubs for TokenLedger {
    fn sol_log(&self, _message: &str) {}

    fn sol_invoke_signed(
        &self,
        instruction: &Instruction,
        account_infos: &[AccountInfo],
        _signers_seeds: &[&[&[u8]]],
    ) -> ProgramResult {
        let held = |index: usize| {
            account_infos
                .iter()
                .find(|info| *info.key == instruction.accounts[index].pubkey)
                .ok_or(ProgramError::NotEnoughAccountKeys)
        };
        match TokenInstruction::unpack(&instruction.data)? {
            TokenInstruction::Transfer { amount } => {
                let from = held(0)?;
                let to = held(1)?;
                if from.lamports() < amount {
                    return Err(ProgramError::InsufficientFunds);
                }
                **from.try_borrow_mut_lamports()? -= amount;
                **to.try_borrow_mut_lamports()? += amount;
                Ok(())
            }
            TokenInstruction::Burn { amount } => {
                let from = held(0)?;
                if from.lamports() < amount {
                    return Err(ProgramError::InsufficientFunds);
                }
                **from.try_borrow_mut_lamports()? -= amount;
                Ok(())
            }
            _ => Err(ProgramError::InvalidInstructionData),
        }
    }
}

struct Wallet {
    key: Pubkey,
    owner: Pubkey,
    balance: u64,
    data: Vec<u8>,
}

impl Wallet {
    fn new(tag: u8, balance: u64) -> Wallet {
        Wallet {
            key: Pubkey::new_from_array([tag; 32]),
            owner: Pubkey::new_from_array([200; 32]),
            balance,
            data: Vec::new(),
        }
    }

    fn info(&mut self) -> AccountInfo<'_> {
        AccountInfo::new(
            &self.key,
            false,
            true,
            &mut self.balance,
            &mut self.data,
            &self.owner,
            false,
            0,
        )
    }

    fn signer(&mut self) -> Signer<'_> {
        Signer { key: self.key, info: self.info() }
    }
}

fn author() -> Pubkey {
    Pubkey::new_from_array([1; 32])
}

fn comment(boost: u64, timestamp: i64) -> Comment {
    Comment { author: author(), text: "to the moon".to_string(), boost, timestamp }
}

fn boosted(boost: u64, posted: i64, amount: u64, now: i64) -> (Result<(), EngineError>, Comment) {
    let mut ctx = BoostComment { comment: comment(boost, posted) };
    let r = boost_comment(&mut ctx, amount, now);
    (r, ctx.comment)
}

fn no_funds() -> Error {
    Error::from(ProgramError::InsufficientFunds)
}

const WEEK: i64 = 604_800;

#[test]
fn constants_of_the_comments() {
    assert_eq!(DECAY_PERIOD, 7 * 86_400);
    assert_eq!(MAX_COMMENT_LEN, 200);
}

#[test]
fn post_comment_fills_the_record() {
    let mut buyer = Wallet::new(1, 0);
    let mut ctx = PostComment { comment: comment(3, 4), buyer: buyer.signer() };
    assert_eq!(post_comment(&mut ctx, "gm".to_string(), 12, 1_700_000_000), Ok(()));
    assert_eq!(
        ctx.comment,
        Comment { author: author(), text: "gm".to_string(), boost: 12, timestamp: 1_700_000_000 }
    );
}

#[test]
fn post_comment_costs_at_least_the_minimum() {
    let mut buyer = Wallet::new(1, 0);
    let mut ctx = PostComment { comment: comment(3, 4), buyer: buyer.signer() };
    assert_eq!(
        post_comment(&mut ctx, "gm".to_string(), 0, 9),
        Err(EngineError::Rule(ErrorCode::InsufficientCost))
    );
    assert_eq!(ctx.comment, comment(3, 4));
    assert_eq!(post_comment(&mut ctx, "gm".to_string(), 1, 9), Ok(()));
    assert_eq!(ctx.comment.boost, 1);
    assert_eq!(post_comment(&mut ctx, String::new(), u64::MAX, 9), Ok(()));
    assert_eq!(ctx.comment.boost, u64::MAX);
}

#[test]
fn post_comment_bounds_the_text() {
    let mut buyer = Wallet::new(1, 0);
    let mut ctx = PostComment { comment: comment(3, 4), buyer: buyer.signer() };
    assert_eq!(post_comment(&mut ctx, "x".repeat(201), 5, 9), Err(EngineError::TextTooLong));
    assert_eq!(ctx.comment, comment(3, 4));
    assert_eq!(post_comment(&mut ctx, "€".repeat(67), 5, 9), Err(EngineError::TextTooLong));
    assert_eq!(ctx.comment, comment(3, 4));
    // the cost is looked at first
    assert_eq!(
        post_comment(&mut ctx, "x".repeat(201), 0, 9),
        Err(EngineError::Rule(ErrorCode::InsufficientCost))
    );
    assert_eq!(post_comment(&mut ctx, "x".repeat(200), 5, 9), Ok(()));
    assert_eq!(ctx.comment.text, "x".repeat(200));
    assert_eq!(post_comment(&mut ctx, "€".repeat(66), 5, 9), Ok(()));
    assert_eq!(ctx.comment.text, "€".repeat(66));
}

#[test]
fn transfer_to_vault_for_comment_pays_the_vault() {
    set_syscall_stubs(Box::new(TokenLedger));
    let mut source = Wallet::new(1, 50);
    let mut vault = Wallet::new(2, 7);
    let mut authority = Wallet::new(3, 0);
    let mut program = Wallet::new(4, 0);
    let ctx = TransferToVaultForComment {
        source_token_account: source.info(),
        vault_token_account: vault.info(),
        authority: authority.signer(),
        token_program: program.info(),
    };
    assert_eq!(transfer_to_vault_for_comment(&ctx, 20), Ok(()));
    assert_eq!(ctx.source_token_account.lamports(), 30);
    assert_eq!(ctx.vault_token_account.lamports(), 27);
    assert_eq!(transfer_to_vault_for_comment(&ctx, 1), Ok(()));
    assert_eq!(ctx.vault_token_account.lamports(), 28);
}

#[test]
fn transfer_to_vault_for_comment_refuses_less_than_the_minimum() {
    set_syscall_stubs(Box::new(TokenLedger));
    let mut source = Wallet::new(1, 50);
    let mut vault = Wallet::new(2, 7);
    let mut authority = Wallet::new(3, 0);
    let mut program = Wallet::new(4, 0);
    let ctx = TransferToVaultForComment {
        source_token_account: source.info(),
        vault_token_account: vault.info(),
        authority: authority.signer(),
        token_program: program.info(),
    };
    assert_eq!(
        transfer_to_vault_for_comment(&ctx, 0),
        Err(EngineError::Rule(ErrorCode::InsufficientCost))
    );
    assert_eq!(ctx.source_token_account.lamports(), 50);
    assert_eq!(ctx.vault_token_account.lamports(), 7);
}

#[test]
fn transfer_to_vault_for_comment_passes_the_failure_on() {
    set_syscall_stubs(Box::new(TokenLedger));
    let mut source = Wallet::new(1, 50);
    let mut vault = Wallet::new(2, 7);
    let mut authority = Wallet::new(3, 0);
    let mut program = Wallet::new(4, 0);
    let ctx = TransferToVaultForComment {
        source_token_account: source.info(),
        vault_token_account: vault.info(),
        authority: authority.signer(),
        token_program: program.info(),
    };
    assert_eq!(transfer_to_vault_for_comment(&ctx, 51), Err(EngineError::Ledger(no_funds())));
    assert_eq!(ctx.source_token_account.lamports(), 50);
    assert_eq!(ctx.vault_token_account.lamports(), 7);
}

#[test]
fn transfer_to_vault_for_comment_reports_an_account_in_use() {
    set_syscall_stubs(Box::new(TokenLedger));
    let mut source = Wallet::new(1, 50);
    let mut vault = Wallet::new(2, 7);
    let mut authority = Wallet::new(3, 0);
    let mut program = Wallet::new(4, 0);
    let ctx = TransferToVaultForComment {
        source_token_account: source.info(),
        vault_token_account: vault.info(),
        authority: authority.signer(),
        token_program: program.info(),
    };
    let held = ctx.source_token_account.try_borrow_mut_lamports().unwrap();
    assert_eq!(
        transfer_to_vault_for_comment(&ctx, 5),
        Err(EngineError::Ledger(Error::from(ProgramError::AccountBorrowFailed)))
    );
    assert_eq!(**held, 50);
}

#[test]
fn settle_comment_payment_passes_the_outcome_on() {
    assert_eq!(settle_comment_payment(1, Ok(())), Ok(()));
    assert_eq!(settle_comment_payment(1, Err(no_funds())), Err(EngineError::Ledger(no_funds())));
    assert_eq!(
        settle_comment_payment(0, Ok(())),
        Err(EngineError::Rule(ErrorCode::InsufficientCost))
    );
    assert_eq!(
        settle_comment_payment(0, Err(no_funds())),
        Err(EngineError::Rule(ErrorCode::InsufficientCost))
    );
}

#[test]
fn boost_comment_adds_without_decay_in_the_first_week() {
    assert_eq!(boosted(101, 1_000, 5, 1_000), (Ok(()), comment(106, 1_000)));
    assert_eq!(boosted(101, 1_000, 5, 1_000 + WEEK - 1), (Ok(()), comment(106, 1_000)));
    assert_eq!(boosted(0, 1_000, 1, 1_001), (Ok(()), comment(1, 1_000)));
}

#[test]
fn boost_comment_halves_after_one_week() {
    assert_eq!(boosted(101, 1_000, 5, 1_000 + WEEK), (Ok(()), comment(55, 1_000)));
    assert_eq!(boosted(101, 1_000, 5, 1_000 + 2 * WEEK - 1), (Ok(()), comment(55, 1_000)));
    assert_eq!(boosted(100, 0, 5, WEEK), (Ok(()), comment(55, 0)));
    assert_eq!(boosted(1, 0, 5, WEEK), (Ok(()), comment(5, 0)));
}

#[test]
fn boost_comment_halves_once_for_every_week() {
    assert_eq!(boosted(101, 0, 1, 2 * WEEK), (Ok(()), comment(26, 0)));
    assert_eq!(boosted(101, 0, 1, 3 * WEEK), (Ok(()), comment(13, 0)));
    assert_eq!(boosted(1_000_000, 0, 1, 10 * WEEK), (Ok(()), comment(977, 0)));
    assert_eq!(boosted(u64::MAX, 0, 1, 63 * WEEK), (Ok(()), comment(2, 0)));
    assert_eq!(boosted(u64::MAX, 0, 1, 64 * WEEK - 1), (Ok(()), comment(2, 0)));
}

#[test]
fn boost_comment_leaves_nothing_after_sixty_four_weeks() {
    assert_eq!(boosted(u64::MAX, 0, 3, 64 * WEEK), (Ok(()), comment(3, 0)));
    assert_eq!(boosted(u64::MAX, 0, 3, 65 * WEEK), (Ok(()), comment(3, 0)));
    assert_eq!(boosted(u64::MAX, 0, 3, 128 * WEEK), (Ok(()), comment(3, 0)));
    assert_eq!(boosted(u64::MAX, 0, 3, i64::MAX), (Ok(()), comment(3, 0)));
    assert_eq!(boosted(u64::MAX, -5, u64::MAX, i64::MAX), (Ok(()), comment(u64::MAX, -5)));
    assert_eq!(boosted(u64::MAX, i64::MIN, 3, i64::MAX), (Ok(()), comment(3, i64::MIN)));
}

#[test]
fn boost_comment_does_not_decay_before_the_post() {
    assert_eq!(boosted(101, 1_000, 5, 999), (Ok(()), comment(106, 1_000)));
    assert_eq!(boosted(101, 1_000, 5, 1_000 - 3 * WEEK), (Ok(()), comment(106, 1_000)));
    assert_eq!(boosted(101, i64::MAX, 5, i64::MIN), (Ok(()), comment(106, i64::MAX)));
}

#[test]
fn boost_comment_costs_at_least_the_minimum() {
    assert_eq!(
        boosted(101, 0, 0, WEEK),
        (Err(EngineError::Rule(ErrorCode::InsufficientCost)), comment(101, 0))
    );
    assert_eq!(boosted(101, 0, 1, WEEK), (Ok(()), comment(51, 0)));
}

#[test]
fn boost_comment_refuses_a_sum_that_does_not_fit() {
    assert_eq!(
        boosted(u64::MAX, 0, 1, 0),
        (Err(EngineError::Rule(ErrorCode::MathOverflow)), comment(u64::MAX, 0))
    );
    assert_eq!(
        boosted(u64::MAX, 0, u64::MAX / 2 + 2, WEEK),
        (Err(EngineError::Rule(ErrorCode::MathOverflow)), comment(u64::MAX, 0))
    );
    assert_eq!(boosted(u64::MAX, 0, u64::MAX / 2 + 1, WEEK), (Ok(()), comment(u64::MAX, 0)));
    assert_eq!(boosted(u64::MAX - 1, 0, 1, 0), (Ok(()), comment(u64::MAX, 0)));
}

#[test]
fn boost_comment_decays_from_the_post_every_time() {
    let mut ctx = BoostComment { comment: comment(100, 0) };
    assert_eq!(boost_comment(&mut ctx, 10, WEEK), Ok(()));
    assert_eq!(ctx.comment, comment(60, 0));
    // one week later the stored boost is halved twice, not once
    assert_eq!(boost_comment(&mut ctx, 10, 2 * WEEK), Ok(()));
    assert_eq!(ctx.comment, comment(25, 0));
}
