//! The boundary to the ledger: the account handles that an operation is
//! given, and the two calls into the token program that move or destroy
//! tokens. Nothing in this file is proved; the rest of the crate is proved
//! against what is declared here.

use vstd::prelude::*;

verus! {

/// `solana_program::account_info::AccountInfo`, the handle of one account of
/// the running transaction. The engine never looks inside: it only passes
/// handles on to the token program.
#[verifier::external_type_specification]
#[verifier::external_body]
pub struct ExAccountInfo<'a>(solana_program::account_info::AccountInfo<'a>);

/// `solana_program::pubkey::Pubkey`, the address of an account. The engine
/// stores addresses in its records and never computes with them.
#[verifier::external_type_specification]
#[verifier::external_body]
pub struct ExPubkey(solana_program::pubkey::Pubkey);

/// `anchor_lang::error::Error`, the error with which a call into another
/// program fails. The engine hands it on unopened.
#[verifier::external_type_specification]
#[verifier::external_body]
pub struct ExError(anchor_lang::error::Error);

/// An account that signed the transaction: its address, which records keep,
/// and its handle, which authorises transfers.
pub struct Signer<'info> {
    pub key: solana_program::pubkey::Pubkey,
    pub info: solana_program::account_info::AccountInfo<'info>,
}

/// Asks the token program, through `anchor_spl::token::transfer`, to move
/// `amount` tokens from `from` to `to` on the authority of `authority`.
///
/// Whether the transfer takes place is decided by the token program and the
/// state of the ledger, so nothing is claimed of the outcome: a caller has
/// to be right for either.
#[verifier::external_body]
pub(crate) fn transfer<'info>(
    token_program: &solana_program::account_info::AccountInfo<'info>,
    from: &solana_program::account_info::AccountInfo<'info>,
    to: &solana_program::account_info::AccountInfo<'info>,
    authority: &solana_program::account_info::AccountInfo<'info>,
    amount: u64,
) -> (paid: Result<(), anchor_lang::error::Error>) {
    anchor_spl::token::transfer(
        anchor_lang::context::CpiContext::new(
            token_program.clone(),
            anchor_spl::token::Transfer {
                from: from.clone(),
                to: to.clone(),
                authority: authority.clone(),
            },
        ),
        amount,
    )
}

/// Asks the token program, through `anchor_spl::token::burn`, to destroy
/// `amount` tokens of `mint` held in `from`, on the authority of
/// `authority`.
///
/// As with a transfer, nothing is claimed of the outcome.
#[verifier::external_body]
pub(crate) fn burn<'info>(
    token_program: &solana_program::account_info::AccountInfo<'info>,
    mint: &solana_program::account_info::AccountInfo<'info>,
    from: &solana_program::account_info::AccountInfo<'info>,
    authority: &solana_program::account_info::AccountInfo<'info>,
    amount: u64,
) -> (burned: Result<(), anchor_lang::error::Error>) {
    anchor_spl::token::burn(
        anchor_lang::context::CpiContext::new(
            token_program.clone(),
            anchor_spl::token::Burn {
                mint: mint.clone(),
                from: from.clone(),
                authority: authority.clone(),
            },
        ),
        amount,
    )
}

} // verus!
