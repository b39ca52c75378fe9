//! The commands on the ledger canister.
use vstd::prelude::*;
use vstd::string::*;
use crate::commands::{dispatch, is_dispatch_of, Dispatch};
use crate::nns_types::governance::{ledger_canister_bytes, ledger_canister_id};
use crate::hex_text::{bytes_to_hex, hex_to_bytes, is_hex_text};
use crate::nns_types::account::{
    account_bytes, account_preimage, is_account_bytes, sha224, AccountError, AccountIdentifier,
    ACCOUNT_LENGTH,
};
use crate::principal::Principal;
use crate::sign::SignPayload;

verus! {

/// Prints the selected identity's account identifier.
#[derive(Clone, Copy, Debug)]
pub struct AccountIdOpts {}

/// Prints the account balance of the user.
#[derive(Debug)]
pub struct BalanceOpts {
    /// An account identifier to get the balance of.
    pub of: Option<String>,
}

/// The commands on the ledger.
#[derive(Debug)]
pub enum SubCommand {
    AccountId(AccountIdOpts),
    Balance(BalanceOpts),
}

/// Call the ledger canister.
#[derive(Debug)]
pub struct LedgerOpts {
    pub subcmd: SubCommand,
}

/// The method that reports the balance of an account.
pub open spec fn account_balance_method() -> Seq<char> {
    "account_balance_dfx"@
}

/// The account whose balance is asked for: the one that the text stands
/// for where an account was named, and the main account of the sender where
/// none was.
pub fn balance_account(opts: &BalanceOpts, sender: &Principal) -> (r: Result<
    AccountIdentifier,
    AccountError,
>)
    ensures
        match opts.of {
            Some(text) => account_of_text(text@, r),
            None => r is Ok && r->Ok_0@ == sha224(account_preimage(sender@, None)),
        },
{
    match &opts.of {
        Some(text) => AccountIdentifier::from_hex(text.as_str()),
        None => Ok(AccountIdentifier::new(sender, None)),
    }
}

/// Whether `r` is what a text gives as an account: the digest that follows
/// a fitting check sum in 64 hexadecimal digits, or the reason why the text
/// is no account.
pub open spec fn account_of_text(text: Seq<char>, r: Result<AccountIdentifier, AccountError>) -> bool {
    if !is_hex_text(text) {
        r == Err::<AccountIdentifier, AccountError>(AccountError::NotHexadecimal)
    } else if text.len() != 2 * ACCOUNT_LENGTH {
        r == Err::<AccountIdentifier, AccountError>(AccountError::WrongLength)
    } else if !is_account_bytes(hex_to_bytes(text)) {
        r == Err::<AccountIdentifier, AccountError>(AccountError::ChecksumMismatch)
    } else {
        r is Ok && r->Ok_0@ == hex_to_bytes(text).subrange(4, 32)
    }
}

/// What the account command prints: the main account of the sender, as
/// text.
pub fn account_id(_opts: AccountIdOpts, sender: &Principal) -> (text: String)
    ensures
        text@ == bytes_to_hex(account_bytes(sha224(account_preimage(sender@, None)))),
{
    AccountIdentifier::new(sender, None).to_hex()
}

/// The call of the balance command: a query of `account_balance_dfx` on the
/// ledger canister, signed where a signing request is there.
pub fn exec(arg: Vec<u8>, maybe_sign_payload: Option<SignPayload>) -> (d: Dispatch)
    ensures
        is_dispatch_of(
            d,
            ledger_canister_bytes(),
            account_balance_method(),
            true,
            arg@,
            maybe_sign_payload,
        ),
{
    dispatch(ledger_canister_id(), "account_balance_dfx", true, arg, maybe_sign_payload)
}

} // verus!
