//! The handlers of a wrapped pair: creation of the wrapped mint and its
//! backpointer, wrap, and unwrap.
use crate::address::{
    authority_address_of, backpointer_address_of, get_wrapped_mint_address,
    get_wrapped_mint_authority, get_wrapped_mint_backpointer_address, opt_view, same_address,
    wrapped_mint_address_of, Address,
};
use crate::ledger::{
    Multisig, burn, burn_error, mint_to, mint_to_error, transfer, transfer_error, with_amount, with_supply,
};
use crate::instruction::{parse_request, TokenWrapRequest};
use crate::state::{outcome, Backpointer, BackpointerAccount, MintAccount, TokenAccount, WrapError};
use vstd::prelude::*;

verus! {

/// The accounts of one wrap or unwrap: the pair's accounts and the holder's
/// two token accounts.
#[derive(Clone, Copy, Debug)]
pub struct WrapAccounts {
    pub unwrapped_mint: MintAccount,
    pub wrapped_mint: MintAccount,
    pub backpointer_address: Address,
    pub backpointer: BackpointerAccount,
    /// Holds the unwrapped tokens that back the wrapped supply.
    pub escrow: TokenAccount,
    pub escrow_authority: Address,
    /// The holder's account of the unwrapped mint.
    pub unwrapped_token: TokenAccount,
    /// The holder's account of the wrapped mint.
    pub wrapped_token: TokenAccount,
}

/// The conservation law of a pair: the escrow backs the wrapped supply exactly.
pub open spec fn conserved(a: WrapAccounts) -> bool {
    a.escrow.amount == a.wrapped_mint.supply
}

/// Why the accounts do not form the pair (`unwrapped_mint`, `issuer`) of
/// `program`, if they do not.
pub open spec fn pair_error(program: Address, issuer: Address, a: WrapAccounts) -> Option<
    WrapError,
> {
    if wrapped_mint_address_of(program@, a.unwrapped_mint.address@, issuer@) != Some(
        a.wrapped_mint.address@,
    ) {
        Some(WrapError::AddressMismatch)
    } else if backpointer_address_of(program@, a.wrapped_mint.address@) != Some(
        a.backpointer_address@,
    ) {
        Some(WrapError::AddressMismatch)
    } else if authority_address_of(program@, a.wrapped_mint.address@) != Some(
        a.escrow_authority@,
    ) {
        Some(WrapError::AddressMismatch)
    } else if a.escrow.owner@ != a.escrow_authority@ {
        Some(WrapError::AddressMismatch)
    } else if a.backpointer.owner@ != program@ || a.backpointer.record.wrapped_mint@
        != a.wrapped_mint.address@ || a.backpointer.record.unwrapped_mint@
        != a.unwrapped_mint.address@ || a.backpointer.record.issuer@ != issuer@ {
        Some(WrapError::BackpointerInvalid)
    } else if a.escrow.mint@ != a.unwrapped_mint.address@ {
        Some(WrapError::MintMismatch)
    } else {
        None
    }
}

/// Why a wrap of `amount` is refused, if it is.
pub open spec fn wrap_error(
    program: Address,
    issuer: Address,
    a: WrapAccounts,
    multisig: Option<Multisig>,
    signers: Seq<Address>,
    amount: u64,
) -> Option<WrapError> {
    if pair_error(program, issuer, a) is Some {
        pair_error(program, issuer, a)
    } else if transfer_error(a.unwrapped_token, a.escrow, amount, multisig, signers) is Some {
        transfer_error(a.unwrapped_token, a.escrow, amount, multisig, signers)
    } else {
        mint_to_error(a.wrapped_mint, a.wrapped_token, a.escrow_authority, amount)
    }
}

/// The accounts after a wrap of `amount`.
pub open spec fn after_wrap(a: WrapAccounts, amount: u64) -> WrapAccounts {
    WrapAccounts {
        unwrapped_token: with_amount(a.unwrapped_token, a.unwrapped_token.amount - amount),
        escrow: with_amount(a.escrow, a.escrow.amount + amount),
        wrapped_mint: with_supply(a.wrapped_mint, a.wrapped_mint.supply + amount),
        wrapped_token: with_amount(a.wrapped_token, a.wrapped_token.amount + amount),
        ..a
    }
}

/// Why an unwrap of `amount` is refused, if it is. The escrow's side is
/// signed by the escrow authority.
pub open spec fn unwrap_error(
    program: Address,
    issuer: Address,
    a: WrapAccounts,
    multisig: Option<Multisig>,
    signers: Seq<Address>,
    amount: u64,
) -> Option<WrapError> {
    if pair_error(program, issuer, a) is Some {
        pair_error(program, issuer, a)
    } else if burn_error(a.wrapped_mint, a.wrapped_token, amount, multisig, signers) is Some {
        burn_error(a.wrapped_mint, a.wrapped_token, amount, multisig, signers)
    } else {
        transfer_error(a.escrow, a.unwrapped_token, amount, None, seq![a.escrow_authority])
    }
}

/// The accounts after an unwrap of `amount`.
pub open spec fn after_unwrap(a: WrapAccounts, amount: u64) -> WrapAccounts {
    WrapAccounts {
        wrapped_token: with_amount(a.wrapped_token, a.wrapped_token.amount - amount),
        wrapped_mint: with_supply(a.wrapped_mint, a.wrapped_mint.supply - amount),
        escrow: with_amount(a.escrow, a.escrow.amount - amount),
        unwrapped_token: with_amount(a.unwrapped_token, a.unwrapped_token.amount + amount),
        ..a
    }
}

fn check_derived(expected: Option<Address>, supplied: &Address) -> (r: Result<(), WrapError>)
    ensures
        r is Ok <==> opt_view(expected) == Some(supplied@),
        r is Err ==> r == Err::<(), WrapError>(WrapError::AddressMismatch),
{
    match expected {
        Some(e) => if same_address(&e, supplied) {
            Ok(())
        } else {
            Err(WrapError::AddressMismatch)
        },
        None => Err(WrapError::AddressMismatch),
    }
}

/// Checks that the accounts form the pair of `unwrapped_mint` under `issuer`.
pub fn check_pair(program_id: &Address, issuer: &Address, a: &WrapAccounts) -> (r: Result<
    (),
    WrapError,
>)
    ensures
        r == outcome(pair_error(*program_id, *issuer, *a)),
{
    let wrapped = get_wrapped_mint_address(program_id, &a.unwrapped_mint.address, issuer);
    check_derived(wrapped, &a.wrapped_mint.address)?;
    let backpointer = get_wrapped_mint_backpointer_address(program_id, &a.wrapped_mint.address);
    check_derived(backpointer, &a.backpointer_address)?;
    let authority = get_wrapped_mint_authority(program_id, &a.wrapped_mint.address);
    check_derived(authority, &a.escrow_authority)?;
    if !same_address(&a.escrow.owner, &a.escrow_authority) {
        return Err(WrapError::AddressMismatch);
    }
    if !same_address(&a.backpointer.owner, program_id) || !same_address(
        &a.backpointer.record.wrapped_mint,
        &a.wrapped_mint.address,
    ) || !same_address(&a.backpointer.record.unwrapped_mint, &a.unwrapped_mint.address)
        || !same_address(&a.backpointer.record.issuer, issuer) {
        return Err(WrapError::BackpointerInvalid);
    }
    if !same_address(&a.escrow.mint, &a.unwrapped_mint.address) {
        return Err(WrapError::MintMismatch);
    }
    Ok(())
}

/// Wraps `amount`: moves it from the holder's unwrapped account into escrow
/// and mints as much wrapped token to the holder's wrapped account.
pub fn process_wrap(
    program_id: &Address,
    issuer: &Address,
    accounts: &mut WrapAccounts,
    multisig: &Option<Multisig>,
    signers: &Vec<Address>,
    amount: u64,
) -> (r: Result<(), WrapError>)
    ensures
        r == outcome(wrap_error(*program_id, *issuer, *old(accounts), *multisig, signers@, amount)),
        r is Ok ==> *final(accounts) == after_wrap(*old(accounts), amount),
        r is Err ==> *final(accounts) == *old(accounts),
        conserved(*old(accounts)) ==> conserved(*final(accounts)),
{
    check_pair(program_id, issuer, accounts)?;
    let mut next = *accounts;
    let authority = next.escrow_authority;
    transfer(&mut next.unwrapped_token, &mut next.escrow, amount, multisig, signers)?;
    mint_to(&mut next.wrapped_mint, &mut next.wrapped_token, &authority, amount)?;
    *accounts = next;
    Ok(())
}

/// Unwraps `amount`: burns it from the holder's wrapped account and releases
/// as much unwrapped token from escrow to the holder's unwrapped account.
pub fn process_unwrap(
    program_id: &Address,
    issuer: &Address,
    accounts: &mut WrapAccounts,
    multisig: &Option<Multisig>,
    signers: &Vec<Address>,
    amount: u64,
) -> (r: Result<(), WrapError>)
    ensures
        r == outcome(unwrap_error(*program_id, *issuer, *old(accounts), *multisig, signers@, amount)),
        r is Ok ==> *final(accounts) == after_unwrap(*old(accounts), amount),
        r is Err ==> *final(accounts) == *old(accounts),
        conserved(*old(accounts)) ==> conserved(*final(accounts)),
{
    check_pair(program_id, issuer, accounts)?;
    let mut next = *accounts;
    burn(&mut next.wrapped_mint, &mut next.wrapped_token, amount, multisig, signers)?;
    let escrow_signer: Vec<Address> = vec![next.escrow_authority];
    proof {
        assert(escrow_signer@ =~= seq![next.escrow_authority]);
    }
    transfer(&mut next.escrow, &mut next.unwrapped_token, amount, &None, &escrow_signer)?;
    *accounts = next;
    Ok(())
}

/// The accounts of a creation: the two target accounts, each unallocated
/// (`None`) or holding what was written there, and the unwrapped mint.
#[derive(Clone, Copy, Debug)]
pub struct CreateMintAccounts {
    pub wrapped_mint_address: Address,
    pub wrapped_mint: Option<MintAccount>,
    pub backpointer_address: Address,
    pub backpointer: Option<BackpointerAccount>,
    pub unwrapped_mint: MintAccount,
}

/// How a creation succeeded.
#[derive(Clone, Copy, Debug, PartialEq, Eq, Structural)]
pub enum CreateOutcome {
    /// Both accounts were written.
    Created,
    /// Both accounts already held what this creation would write.
    AlreadyPresent,
}

/// What the target accounts hold, measured against what a creation writes.
#[derive(Clone, Copy, Debug, PartialEq, Eq, Structural)]
pub enum Creation {
    /// Neither account is allocated.
    Absent,
    /// Both hold what a creation writes.
    Matching,
    /// Anything else.
    Conflict,
}

/// `m` is the wrapped mint a creation writes, up to its supply.
pub open spec fn mint_matches(
    m: MintAccount,
    c: CreateMintAccounts,
    issuer: Address,
    authority: Seq<u8>,
) -> bool {
    &&& m.address@ == c.wrapped_mint_address@
    &&& m.decimals == c.unwrapped_mint.decimals
    &&& m.mint_authority@ == authority
    &&& m.token_program@ == issuer@
}

/// `b` is the backpointer account a creation writes: owned by the program
/// and naming the two mints and the issuer.
pub open spec fn backpointer_matches(
    b: BackpointerAccount,
    c: CreateMintAccounts,
    program: Address,
    issuer: Address,
) -> bool {
    &&& b.owner@ == program@
    &&& b.record.wrapped_mint@ == c.wrapped_mint_address@
    &&& b.record.unwrapped_mint@ == c.unwrapped_mint.address@
    &&& b.record.issuer@ == issuer@
}

/// What the target accounts of `c` hold.
pub open spec fn creation_of(
    c: CreateMintAccounts,
    program: Address,
    issuer: Address,
    authority: Seq<u8>,
) -> Creation {
    match (c.wrapped_mint, c.backpointer) {
        (None, None) => Creation::Absent,
        (Some(m), Some(b)) => if mint_matches(m, c, issuer, authority) && backpointer_matches(
            b,
            c,
            program,
            issuer,
        ) {
            Creation::Matching
        } else {
            Creation::Conflict
        },
        _ => Creation::Conflict,
    }
}

/// What a creation returns.
pub open spec fn create_mint_result(
    program: Address,
    issuer: Address,
    c: CreateMintAccounts,
    idempotent: bool,
) -> Result<CreateOutcome, WrapError> {
    if wrapped_mint_address_of(program@, c.unwrapped_mint.address@, issuer@) != Some(
        c.wrapped_mint_address@,
    ) {
        Err(WrapError::AddressMismatch)
    } else if backpointer_address_of(program@, c.wrapped_mint_address@) != Some(
        c.backpointer_address@,
    ) {
        Err(WrapError::AddressMismatch)
    } else {
        match authority_address_of(program@, c.wrapped_mint_address@) {
            None => Err(WrapError::AddressMismatch),
            Some(authority) => match creation_of(c, program, issuer, authority) {
                Creation::Absent => Ok(CreateOutcome::Created),
                Creation::Matching => if idempotent {
                    Ok(CreateOutcome::AlreadyPresent)
                } else {
                    Err(WrapError::AlreadyInitialized)
                },
                Creation::Conflict => Err(WrapError::AlreadyInitialized),
            },
        }
    }
}

/// `new` is `old` with the wrapped mint and the backpointer written: zero
/// supply, the unwrapped mint's decimals, the escrow authority as mint
/// authority, and `issuer` as token program; the backpointer owned by the
/// program.
pub open spec fn created(
    program: Address,
    issuer: Address,
    old: CreateMintAccounts,
    new: CreateMintAccounts,
) -> bool {
    &&& new.wrapped_mint_address == old.wrapped_mint_address
    &&& new.backpointer_address == old.backpointer_address
    &&& new.unwrapped_mint == old.unwrapped_mint
    &&& match (new.wrapped_mint, authority_address_of(program@, old.wrapped_mint_address@)) {
        (Some(m), Some(authority)) => m.supply == 0 && mint_matches(m, old, issuer, authority),
        _ => false,
    }
    &&& match new.backpointer {
        Some(b) => backpointer_matches(b, old, program, issuer),
        None => false,
    }
}

/// What a creation leaves behind, given its result `r`: both accounts
/// written on `Created`, nothing changed otherwise.
pub open spec fn create_mint_post(
    program: Address,
    issuer: Address,
    old: CreateMintAccounts,
    new: CreateMintAccounts,
    r: Result<CreateOutcome, WrapError>,
) -> bool {
    if r == Ok::<CreateOutcome, WrapError>(CreateOutcome::Created) {
        created(program, issuer, old, new)
    } else {
        new == old
    }
}

/// Classifies what the target accounts hold against a creation with
/// escrow authority `authority`.
pub fn classify_creation(
    c: &CreateMintAccounts,
    program_id: &Address,
    issuer: &Address,
    authority: &Address,
) -> (r: Creation)
    ensures
        r == creation_of(*c, *program_id, *issuer, authority@),
{
    match (&c.wrapped_mint, &c.backpointer) {
        (None, None) => Creation::Absent,
        (Some(m), Some(b)) => {
            let mint_ok = same_address(&m.address, &c.wrapped_mint_address) && m.decimals
                == c.unwrapped_mint.decimals && same_address(&m.mint_authority, authority)
                && same_address(&m.token_program, issuer);
            let backpointer_ok = same_address(&b.owner, program_id) && same_address(
                &b.record.wrapped_mint,
                &c.wrapped_mint_address,
            ) && same_address(&b.record.unwrapped_mint, &c.unwrapped_mint.address)
                && same_address(&b.record.issuer, issuer);
            if mint_ok && backpointer_ok {
                Creation::Matching
            } else {
                Creation::Conflict
            }
        },
        _ => Creation::Conflict,
    }
}

/// Creates the wrapped mint of (`unwrapped_mint`, `issuer`) and its
/// backpointer. Where both already hold what this would write, an idempotent
/// request succeeds without change and any other fails.
pub fn process_create_mint(
    program_id: &Address,
    issuer: &Address,
    accounts: &mut CreateMintAccounts,
    idempotent: bool,
) -> (r: Result<CreateOutcome, WrapError>)
    ensures
        r == create_mint_result(*program_id, *issuer, *old(accounts), idempotent),
        create_mint_post(*program_id, *issuer, *old(accounts), *final(accounts), r),
{
    let wrapped = get_wrapped_mint_address(program_id, &accounts.unwrapped_mint.address, issuer);
    check_derived(wrapped, &accounts.wrapped_mint_address)?;
    let backpointer = get_wrapped_mint_backpointer_address(
        program_id,
        &accounts.wrapped_mint_address,
    );
    check_derived(backpointer, &accounts.backpointer_address)?;
    let authority = match get_wrapped_mint_authority(program_id, &accounts.wrapped_mint_address) {
        Some(a) => a,
        None => return Err(WrapError::AddressMismatch),
    };
    match classify_creation(accounts, program_id, issuer, &authority) {
        Creation::Absent => {
            accounts.wrapped_mint = Some(
                MintAccount {
                    address: accounts.wrapped_mint_address,
                    supply: 0,
                    decimals: accounts.unwrapped_mint.decimals,
                    mint_authority: authority,
                    token_program: *issuer,
                },
            );
            accounts.backpointer = Some(
                BackpointerAccount {
                    owner: *program_id,
                    record: Backpointer {
                        wrapped_mint: accounts.wrapped_mint_address,
                        unwrapped_mint: accounts.unwrapped_mint.address,
                        issuer: *issuer,
                    },
                },
            );
            Ok(CreateOutcome::Created)
        },
        Creation::Matching => if idempotent {
            Ok(CreateOutcome::AlreadyPresent)
        } else {
            Err(WrapError::AlreadyInitialized)
        },
        Creation::Conflict => Err(WrapError::AlreadyInitialized),
    }
}

/// The accounts handed to a request: those of a creation or those of a
/// wrap or unwrap.
#[derive(Clone, Copy, Debug)]
pub enum ProgramAccounts {
    Create(CreateMintAccounts),
    Transfer(WrapAccounts),
}

/// `Ok(())` for any success, else the error.
pub open spec fn unit_result(r: Result<CreateOutcome, WrapError>) -> Result<(), WrapError> {
    match r {
        Ok(_) => Ok(()),
        Err(e) => Err(e),
    }
}

/// What a request encoded as `data` returns and leaves behind: malformed
/// bytes and accounts of the other kind are refused with nothing changed;
/// otherwise the handler of the decoded request decides.
pub open spec fn instruction_post(
    program: Address,
    issuer: Address,
    data: Seq<u8>,
    multisig: Option<Multisig>,
    signers: Seq<Address>,
    old: ProgramAccounts,
    new: ProgramAccounts,
    r: Result<(), WrapError>,
) -> bool {
    match (parse_request(data), old) {
        (None, _) => r == Err::<(), WrapError>(WrapError::InvalidInstructionData) && new == old,
        (Some(TokenWrapRequest::CreateMint { idempotent }), ProgramAccounts::Create(c)) => {
            &&& r == unit_result(create_mint_result(program, issuer, c, idempotent))
            &&& new matches ProgramAccounts::Create(c1)
            &&& create_mint_post(
                program,
                issuer,
                c,
                c1,
                create_mint_result(program, issuer, c, idempotent),
            )
        },
        (Some(TokenWrapRequest::Wrap { amount }), ProgramAccounts::Transfer(a)) => {
            &&& r == outcome(wrap_error(program, issuer, a, multisig, signers, amount))
            &&& new == ProgramAccounts::Transfer(
                if r is Ok {
                    after_wrap(a, amount)
                } else {
                    a
                },
            )
        },
        (Some(TokenWrapRequest::Unwrap { amount }), ProgramAccounts::Transfer(a)) => {
            &&& r == outcome(unwrap_error(program, issuer, a, multisig, signers, amount))
            &&& new == ProgramAccounts::Transfer(
                if r is Ok {
                    after_unwrap(a, amount)
                } else {
                    a
                },
            )
        },
        _ => r == Err::<(), WrapError>(WrapError::InvalidAccounts) && new == old,
    }
}

/// Decodes the request in `data` and runs its handler on `accounts`.
pub fn process_instruction(
    program_id: &Address,
    issuer: &Address,
    data: &[u8],
    accounts: &mut ProgramAccounts,
    multisig: &Option<Multisig>,
    signers: &Vec<Address>,
) -> (r: Result<(), WrapError>)
    ensures
        instruction_post(
            *program_id,
            *issuer,
            data@,
            *multisig,
            signers@,
            *old(accounts),
            *final(accounts),
            r,
        ),
{
    let request = TokenWrapRequest::unpack(data)?;
    match (request, accounts) {
        (TokenWrapRequest::CreateMint { idempotent }, ProgramAccounts::Create(c)) => {
            match process_create_mint(program_id, issuer, c, idempotent) {
                Ok(_) => Ok(()),
                Err(e) => Err(e),
            }
        },
        (TokenWrapRequest::Wrap { amount }, ProgramAccounts::Transfer(a)) => {
            process_wrap(program_id, issuer, a, multisig, signers, amount)
        },
        (TokenWrapRequest::Unwrap { amount }, ProgramAccounts::Transfer(a)) => {
            process_unwrap(program_id, issuer, a, multisig, signers, amount)
        },
        _ => Err(WrapError::InvalidAccounts),
    }
}

} // verus!
