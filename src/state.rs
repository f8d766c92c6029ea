//! The accounts the handlers read and write, and the errors they report.
use crate::address::Address;
use vstd::prelude::*;

verus! {

/// A mint: the identity of a token and its total supply.
#[derive(Clone, Copy, Debug)]
pub struct MintAccount {
    pub address: Address,
    pub supply: u64,
    pub decimals: u8,
    pub mint_authority: Address,
    /// The token program that owns the mint.
    pub token_program: Address,
}

/// A token account: a balance of one mint held for one owner.
#[derive(Clone, Copy, Debug)]
pub struct TokenAccount {
    pub address: Address,
    pub mint: Address,
    pub owner: Address,
    pub amount: u64,
}

/// The immutable record that proves a wrapped mint genuinely stands for an
/// unwrapped mint under a given token program.
#[derive(Clone, Copy, Debug)]
pub struct Backpointer {
    pub wrapped_mint: Address,
    pub unwrapped_mint: Address,
    pub issuer: Address,
}

/// The account that holds a backpointer, with the program that owns it.
#[derive(Clone, Copy, Debug)]
pub struct BackpointerAccount {
    pub owner: Address,
    pub record: Backpointer,
}

/// Why a request was refused. Every refusal leaves all accounts unchanged.
#[derive(Clone, Copy, Debug, PartialEq, Eq, Structural)]
pub enum WrapError {
    /// A supplied derived address differs from the recomputed one.
    AddressMismatch,
    /// A non-idempotent creation found the pair already present, or the
    /// target accounts hold something else.
    AlreadyInitialized,
    /// The backpointer does not name the claimed mints and issuer, or is not
    /// owned by the program.
    BackpointerInvalid,
    /// A source token account holds less than the amount.
    InsufficientFunds,
    /// A burn exceeds the mint's supply.
    InsufficientSupply,
    /// The owner of a source account did not sign, or a mint authority differs.
    MissingAuthority,
    /// A token account belongs to another mint than the operation's.
    MintMismatch,
    /// A balance or a supply would exceed `u64::MAX`.
    Overflow,
    /// Malformed request bytes.
    InvalidInstructionData,
    /// The accounts given are not those of the requested operation.
    InvalidAccounts,
}

/// `Ok(())` where no error is found, else the error.
pub open spec fn outcome(e: Option<WrapError>) -> Result<(), WrapError> {
    match e {
        Some(err) => Err(err),
        None => Ok(()),
    }
}

} // verus!
