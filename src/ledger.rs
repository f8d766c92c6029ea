//! The token ledger operations the handlers perform: transfer, mint-to and
//! burn, each all-or-nothing.
use crate::address::{same_address, Address};
use crate::state::{outcome, MintAccount, TokenAccount, WrapError};
use vstd::prelude::*;

verus! {

/// `a` is among the signers.
pub open spec fn is_signer(signers: Seq<Address>, a: Address) -> bool {
    exists|i: int| 0 <= i < signers.len() && #[trigger] signers[i]@ == a@
}

/// A multisig owner: `m` of its distinct `signers` must sign.
#[derive(Clone, Debug)]
pub struct Multisig {
    pub address: Address,
    pub m: u64,
    pub signers: Vec<Address>,
}

/// How many distinct keys of `slots` are among the transaction's signers.
pub open spec fn approvals(slots: Seq<Address>, signers: Seq<Address>) -> nat
    decreases slots.len(),
{
    if slots.len() == 0 {
        0
    } else {
        approvals(slots.drop_last(), signers) + if is_signer(signers, slots.last()) && !is_signer(
            slots.drop_last(),
            slots.last(),
        ) {
            1nat
        } else {
            0nat
        }
    }
}

/// `owner` authorizes: where `multisig` describes it, at least `m` (and at
/// least one) of its distinct signers signed; otherwise `owner` itself signed.
pub open spec fn authorized(owner: Address, multisig: Option<Multisig>, signers: Seq<Address>) -> bool {
    match multisig {
        Some(ms) => if ms.address@ == owner@ {
            ms.m >= 1 && approvals(ms.signers@, signers) >= ms.m
        } else {
            is_signer(signers, owner)
        },
        None => is_signer(signers, owner),
    }
}

/// `t` with its balance set to `amount`.
pub open spec fn with_amount(t: TokenAccount, amount: int) -> TokenAccount {
    TokenAccount { amount: amount as u64, ..t }
}

/// `m` with its supply set to `supply`.
pub open spec fn with_supply(m: MintAccount, supply: int) -> MintAccount {
    MintAccount { supply: supply as u64, ..m }
}

/// Why a transfer of `amount` from `from` to `to` is refused, if it is.
pub open spec fn transfer_error(
    from: TokenAccount,
    to: TokenAccount,
    amount: u64,
    multisig: Option<Multisig>,
    signers: Seq<Address>,
) -> Option<WrapError> {
    if from.mint@ != to.mint@ {
        Some(WrapError::MintMismatch)
    } else if !authorized(from.owner, multisig, signers) {
        Some(WrapError::MissingAuthority)
    } else if from.amount < amount {
        Some(WrapError::InsufficientFunds)
    } else if to.amount + amount > u64::MAX {
        Some(WrapError::Overflow)
    } else {
        None
    }
}

/// Why minting `amount` of `mint` to `to` under `authority` is refused, if it is.
pub open spec fn mint_to_error(
    mint: MintAccount,
    to: TokenAccount,
    authority: Address,
    amount: u64,
) -> Option<WrapError> {
    if to.mint@ != mint.address@ {
        Some(WrapError::MintMismatch)
    } else if mint.mint_authority@ != authority@ {
        Some(WrapError::MissingAuthority)
    } else if mint.supply + amount > u64::MAX || to.amount + amount > u64::MAX {
        Some(WrapError::Overflow)
    } else {
        None
    }
}

/// Why burning `amount` of `mint` from `from` is refused, if it is.
pub open spec fn burn_error(
    mint: MintAccount,
    from: TokenAccount,
    amount: u64,
    multisig: Option<Multisig>,
    signers: Seq<Address>,
) -> Option<WrapError> {
    if from.mint@ != mint.address@ {
        Some(WrapError::MintMismatch)
    } else if !authorized(from.owner, multisig, signers) {
        Some(WrapError::MissingAuthority)
    } else if from.amount < amount {
        Some(WrapError::InsufficientFunds)
    } else if mint.supply < amount {
        Some(WrapError::InsufficientSupply)
    } else {
        None
    }
}

/// Whether `a` is among `signers`.
pub fn has_signer(signers: &Vec<Address>, a: &Address) -> (r: bool)
    ensures
        r == is_signer(signers@, *a),
{
    let mut i: usize = 0;
    while i < signers.len()
        invariant
            0 <= i <= signers@.len(),
            forall|j: int| 0 <= j < i ==> signers@[j]@ != a@,
        decreases signers@.len() - i,
    {
        if same_address(&signers[i], a) {
            return true;
        }
        i = i + 1;
    }
    false
}

fn occurs_before(slots: &Vec<Address>, i: usize, a: &Address) -> (r: bool)
    requires
        i <= slots@.len(),
    ensures
        r == is_signer(slots@.subrange(0, i as int), *a),
{
    let mut j: usize = 0;
    while j < i
        invariant
            0 <= j <= i <= slots@.len(),
            forall|k: int| 0 <= k < j ==> slots@[k]@ != a@,
        decreases i - j,
    {
        if same_address(&slots[j], a) {
            proof {
                assert(slots@.subrange(0, i as int)[j as int]@ == a@);
            }
            return true;
        }
        j = j + 1;
    }
    proof {
        assert forall|k: int| 0 <= k < slots@.subrange(0, i as int).len() implies #[trigger] slots@.subrange(
            0,
            i as int,
        )[k]@ != a@ by {
            assert(slots@.subrange(0, i as int)[k] == slots@[k]);
        }
    }
    false
}

/// How many distinct keys of `slots` signed.
pub fn count_approvals(slots: &Vec<Address>, signers: &Vec<Address>) -> (r: usize)
    ensures
        r == approvals(slots@, signers@),
{
    let mut count: usize = 0;
    let mut i: usize = 0;
    while i < slots.len()
        invariant
            0 <= i <= slots@.len(),
            count == approvals(slots@.subrange(0, i as int), signers@),
            count <= i,
        decreases slots@.len() - i,
    {
        let fresh = has_signer(signers, &slots[i]) && !occurs_before(slots, i, &slots[i]);
        proof {
            let s = slots@.subrange(0, i + 1);
            assert(s.drop_last() =~= slots@.subrange(0, i as int));
            assert(s.last() == slots@[i as int]);
        }
        if fresh {
            count = count + 1;
        }
        i = i + 1;
    }
    proof {
        assert(slots@.subrange(0, i as int) =~= slots@);
    }
    count
}

/// Whether `owner` authorizes, by its own signature or as `multisig`.
pub fn check_authorized(owner: &Address, multisig: &Option<Multisig>, signers: &Vec<Address>) -> (r:
    bool)
    ensures
        r == authorized(*owner, *multisig, signers@),
{
    match multisig {
        Some(ms) => if same_address(&ms.address, owner) {
            ms.m >= 1 && count_approvals(&ms.signers, signers) as u128 >= ms.m as u128
        } else {
            has_signer(signers, owner)
        },
        None => has_signer(signers, owner),
    }
}

/// Moves `amount` from `from` to `to`, authorized by the owner of `from`.
pub fn transfer(
    from: &mut TokenAccount,
    to: &mut TokenAccount,
    amount: u64,
    multisig: &Option<Multisig>,
    signers: &Vec<Address>,
) -> (r: Result<(), WrapError>)
    ensures
        r == outcome(transfer_error(*old(from), *old(to), amount, *multisig, signers@)),
        r is Ok ==> *final(from) == with_amount(*old(from), old(from).amount - amount)
            && *final(to) == with_amount(*old(to), old(to).amount + amount),
        r is Err ==> *final(from) == *old(from) && *final(to) == *old(to),
{
    if !same_address(&from.mint, &to.mint) {
        return Err(WrapError::MintMismatch);
    }
    if !check_authorized(&from.owner, multisig, signers) {
        return Err(WrapError::MissingAuthority);
    }
    if from.amount < amount {
        return Err(WrapError::InsufficientFunds);
    }
    if to.amount > u64::MAX - amount {
        return Err(WrapError::Overflow);
    }
    from.amount = from.amount - amount;
    to.amount = to.amount + amount;
    Ok(())
}

/// Mints `amount` of `mint` into `to`, authorized by `authority`.
pub fn mint_to(mint: &mut MintAccount, to: &mut TokenAccount, authority: &Address, amount: u64) -> (r:
    Result<(), WrapError>)
    ensures
        r == outcome(mint_to_error(*old(mint), *old(to), *authority, amount)),
        r is Ok ==> *final(mint) == with_supply(*old(mint), old(mint).supply + amount)
            && *final(to) == with_amount(*old(to), old(to).amount + amount),
        r is Err ==> *final(mint) == *old(mint) && *final(to) == *old(to),
{
    if !same_address(&to.mint, &mint.address) {
        return Err(WrapError::MintMismatch);
    }
    if !same_address(&mint.mint_authority, authority) {
        return Err(WrapError::MissingAuthority);
    }
    if mint.supply > u64::MAX - amount || to.amount > u64::MAX - amount {
        return Err(WrapError::Overflow);
    }
    mint.supply = mint.supply + amount;
    to.amount = to.amount + amount;
    Ok(())
}

/// Burns `amount` of `mint` from `from`, authorized by the owner of `from`.
pub fn burn(
    mint: &mut MintAccount,
    from: &mut TokenAccount,
    amount: u64,
    multisig: &Option<Multisig>,
    signers: &Vec<Address>,
) -> (r: Result<(), WrapError>)
    ensures
        r == outcome(burn_error(*old(mint), *old(from), amount, *multisig, signers@)),
        r is Ok ==> *final(mint) == with_supply(*old(mint), old(mint).supply - amount)
            && *final(from) == with_amount(*old(from), old(from).amount - amount),
        r is Err ==> *final(mint) == *old(mint) && *final(from) == *old(from),
{
    if !same_address(&from.mint, &mint.address) {
        return Err(WrapError::MintMismatch);
    }
    if !check_authorized(&from.owner, multisig, signers) {
        return Err(WrapError::MissingAuthority);
    }
    if from.amount < amount {
        return Err(WrapError::InsufficientFunds);
    }
    if mint.supply < amount {
        return Err(WrapError::InsufficientSupply);
    }
    mint.supply = mint.supply - amount;
    from.amount = from.amount - amount;
    Ok(())
}

} // verus!
