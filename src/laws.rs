//! Properties that hold across handlers and across sequences of requests.
use crate::address::{
    authority_address_of, backpointer_address_of, wrapped_mint_address_of, Address,
};
use crate::instruction::TokenWrapRequest;
use crate::ledger::{authorized, is_signer, Multisig};
use crate::processor::{
    after_unwrap, after_wrap, conserved, create_mint_post, create_mint_result, pair_error,
    unwrap_error, wrap_error, CreateMintAccounts, CreateOutcome, WrapAccounts,
};
use crate::state::WrapError;
use vstd::prelude::*;

verus! {

/// The accounts after one request on a pair, or `None` where it is refused
/// (a creation is no request on a pair's accounts).
pub open spec fn apply_request(
    program: Address,
    issuer: Address,
    a: WrapAccounts,
    multisig: Option<Multisig>,
    signers: Seq<Address>,
    q: TokenWrapRequest,
) -> Option<WrapAccounts> {
    match q {
        TokenWrapRequest::Wrap { amount } => if wrap_error(program, issuer, a, multisig, signers, amount) is None {
            Some(after_wrap(a, amount))
        } else {
            None
        },
        TokenWrapRequest::Unwrap { amount } => if unwrap_error(program, issuer, a, multisig, signers, amount) is None {
            Some(after_unwrap(a, amount))
        } else {
            None
        },
        TokenWrapRequest::CreateMint { .. } => None,
    }
}

/// The accounts after a sequence of requests, or `None` where one is refused.
pub open spec fn apply_requests(
    program: Address,
    issuer: Address,
    a: WrapAccounts,
    multisig: Option<Multisig>,
    signers: Seq<Address>,
    qs: Seq<TokenWrapRequest>,
) -> Option<WrapAccounts>
    decreases qs.len(),
{
    if qs.len() == 0 {
        Some(a)
    } else {
        match apply_request(program, issuer, a, multisig, signers, qs[0]) {
            Some(b) => apply_requests(program, issuer, b, multisig, signers, qs.subrange(1, qs.len() as int)),
            None => None,
        }
    }
}

/// Conservation: after any sequence of successful wraps and unwraps on a
/// pair whose escrow backs its supply, the escrow still backs the supply.
pub proof fn law_conservation(
    program: Address,
    issuer: Address,
    a: WrapAccounts,
    multisig: Option<Multisig>,
    signers: Seq<Address>,
    qs: Seq<TokenWrapRequest>,
)
    requires
        conserved(a),
    ensures
        apply_requests(program, issuer, a, multisig, signers, qs) matches Some(b) ==> conserved(b),
    decreases qs.len(),
{
    if qs.len() > 0 {
        if let Some(b) = apply_request(program, issuer, a, multisig, signers, qs[0]) {
            law_conservation(program, issuer, b, multisig, signers, qs.subrange(1, qs.len() as int));
        }
    }
}

/// Round trip: a successful wrap of `amount` followed by an unwrap of the
/// same amount, signed by the holder, succeeds and restores every account.
pub proof fn law_wrap_unwrap_round_trip(
    program: Address,
    issuer: Address,
    a: WrapAccounts,
    wrap_multisig: Option<Multisig>,
    wrap_signers: Seq<Address>,
    unwrap_multisig: Option<Multisig>,
    unwrap_signers: Seq<Address>,
    amount: u64,
)
    requires
        wrap_error(program, issuer, a, wrap_multisig, wrap_signers, amount) is None,
        authorized(a.wrapped_token.owner, unwrap_multisig, unwrap_signers),
    ensures
        unwrap_error(
            program,
            issuer,
            after_wrap(a, amount),
            unwrap_multisig,
            unwrap_signers,
            amount,
        ) is None,
        after_unwrap(after_wrap(a, amount), amount) == a,
{
    let b = after_wrap(a, amount);
    assert(is_signer(seq![b.escrow_authority], b.escrow.owner)) by {
        assert(seq![b.escrow_authority][0]@ == b.escrow.owner@);
    }
}

/// Idempotent creation: after a successful idempotent creation, the same
/// idempotent creation succeeds again and changes nothing.
pub proof fn law_idempotent_creation(
    program: Address,
    issuer: Address,
    c: CreateMintAccounts,
    c1: CreateMintAccounts,
)
    requires
        create_mint_result(program, issuer, c, true) is Ok,
        create_mint_post(program, issuer, c, c1, create_mint_result(program, issuer, c, true)),
    ensures
        create_mint_result(program, issuer, c1, true) == Ok::<CreateOutcome, WrapError>(
            CreateOutcome::AlreadyPresent,
        ),
{
}

/// Non-idempotent creation: once a creation has succeeded, a non-idempotent
/// creation with the same arguments fails with `AlreadyInitialized`.
pub proof fn law_non_idempotent_creation(
    program: Address,
    issuer: Address,
    c: CreateMintAccounts,
    c1: CreateMintAccounts,
    idempotent: bool,
)
    requires
        create_mint_result(program, issuer, c, idempotent) is Ok,
        create_mint_post(program, issuer, c, c1, create_mint_result(program, issuer, c, idempotent)),
    ensures
        create_mint_result(program, issuer, c1, false) == Err::<CreateOutcome, WrapError>(
            WrapError::AlreadyInitialized,
        ),
{
}

/// Creation of a fresh pair: with the derived addresses supplied and both
/// target accounts unallocated, a creation succeeds and writes a wrapped
/// mint of zero supply; repeating it then succeeds without change when
/// idempotent and fails with `AlreadyInitialized` otherwise. The escrow
/// authority's derivation must find an address; program-address derivation
/// fails to find one only with vanishing probability.
pub proof fn law_fresh_creation(
    program: Address,
    issuer: Address,
    c: CreateMintAccounts,
    c1: CreateMintAccounts,
    idempotent: bool,
)
    requires
        wrapped_mint_address_of(program@, c.unwrapped_mint.address@, issuer@) == Some(
            c.wrapped_mint_address@,
        ),
        backpointer_address_of(program@, c.wrapped_mint_address@) == Some(c.backpointer_address@),
        authority_address_of(program@, c.wrapped_mint_address@) is Some,
        c.wrapped_mint is None,
        c.backpointer is None,
        create_mint_post(program, issuer, c, c1, create_mint_result(program, issuer, c, idempotent)),
    ensures
        create_mint_result(program, issuer, c, idempotent) == Ok::<CreateOutcome, WrapError>(
            CreateOutcome::Created,
        ),
        c1.wrapped_mint matches Some(m) && m.supply == 0,
        create_mint_result(program, issuer, c1, true) == Ok::<CreateOutcome, WrapError>(
            CreateOutcome::AlreadyPresent,
        ),
        create_mint_result(program, issuer, c1, false) == Err::<CreateOutcome, WrapError>(
            WrapError::AlreadyInitialized,
        ),
{
}

/// Address integrity: a wrapped mint or backpointer address other than the
/// derived one makes wrap and unwrap fail with `AddressMismatch`.
pub proof fn law_address_integrity_transfer(
    program: Address,
    issuer: Address,
    a: WrapAccounts,
    multisig: Option<Multisig>,
    signers: Seq<Address>,
    amount: u64,
)
    requires
        wrapped_mint_address_of(program@, a.unwrapped_mint.address@, issuer@) != Some(
            a.wrapped_mint.address@,
        ) || backpointer_address_of(program@, a.wrapped_mint.address@) != Some(
            a.backpointer_address@,
        ),
    ensures
        wrap_error(program, issuer, a, multisig, signers, amount) == Some(WrapError::AddressMismatch),
        unwrap_error(program, issuer, a, multisig, signers, amount) == Some(WrapError::AddressMismatch),
{
}

/// Address integrity: a wrapped mint or backpointer address other than the
/// derived one makes creation fail with `AddressMismatch`.
pub proof fn law_address_integrity_create(
    program: Address,
    issuer: Address,
    c: CreateMintAccounts,
    idempotent: bool,
)
    requires
        wrapped_mint_address_of(program@, c.unwrapped_mint.address@, issuer@) != Some(
            c.wrapped_mint_address@,
        ) || backpointer_address_of(program@, c.wrapped_mint_address@) != Some(
            c.backpointer_address@,
        ),
    ensures
        create_mint_result(program, issuer, c, idempotent) == Err::<CreateOutcome, WrapError>(
            WrapError::AddressMismatch,
        ),
{
}

/// Over-withdrawal: on a valid pair, an authorized wrap or unwrap of more
/// than the source account holds fails with `InsufficientFunds` (and the
/// handlers leave every account unchanged on failure).
pub proof fn law_over_withdrawal(
    program: Address,
    issuer: Address,
    a: WrapAccounts,
    multisig: Option<Multisig>,
    signers: Seq<Address>,
    amount: u64,
)
    requires
        pair_error(program, issuer, a) is None,
    ensures
        a.unwrapped_token.mint@ == a.escrow.mint@ && authorized(a.unwrapped_token.owner, multisig, signers)
            && amount > a.unwrapped_token.amount ==> wrap_error(program, issuer, a, multisig, signers, amount)
            == Some(WrapError::InsufficientFunds),
        a.wrapped_token.mint@ == a.wrapped_mint.address@ && authorized(a.wrapped_token.owner, multisig, signers)
            && amount > a.wrapped_token.amount ==> unwrap_error(program, issuer, a, multisig, signers, amount)
            == Some(WrapError::InsufficientFunds),
{
}

} // verus!
