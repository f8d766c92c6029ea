//! The three requests of the protocol, their byte encoding, and the
//! builders of the instructions that carry them.
use crate::address::Address;
use solana_program::pubkey::Pubkey;
use crate::state::WrapError;
use vstd::prelude::*;

verus! {

/// The operations of the protocol, by their leading byte.
#[derive(Clone, Copy, Debug, PartialEq, Eq, Structural)]
pub enum TokenWrapInstruction {
    /// Create the wrapped mint of a pair and its backpointer.
    CreateMint,
    /// Move unwrapped tokens into escrow and mint as many wrapped tokens.
    Wrap,
    /// Burn wrapped tokens and release as many unwrapped tokens from escrow.
    Unwrap,
}

/// The leading byte of each operation.
pub open spec fn discriminant_of(i: TokenWrapInstruction) -> u8 {
    match i {
        TokenWrapInstruction::CreateMint => 0,
        TokenWrapInstruction::Wrap => 1,
        TokenWrapInstruction::Unwrap => 2,
    }
}

impl TokenWrapInstruction {
    /// The leading byte of this operation.
    pub fn to_byte(&self) -> (r: u8)
        ensures
            r == discriminant_of(*self),
    {
        match self {
            TokenWrapInstruction::CreateMint => 0,
            TokenWrapInstruction::Wrap => 1,
            TokenWrapInstruction::Unwrap => 2,
        }
    }

    /// The operation whose leading byte is `b`.
    pub fn try_from_byte(b: u8) -> (r: Result<TokenWrapInstruction, WrapError>)
        ensures
            b <= 2 ==> (r matches Ok(i) && discriminant_of(i) == b),
            b > 2 ==> r == Err::<TokenWrapInstruction, WrapError>(
                WrapError::InvalidInstructionData,
            ),
    {
        if b == 0 {
            Ok(TokenWrapInstruction::CreateMint)
        } else if b == 1 {
            Ok(TokenWrapInstruction::Wrap)
        } else if b == 2 {
            Ok(TokenWrapInstruction::Unwrap)
        } else {
            Err(WrapError::InvalidInstructionData)
        }
    }
}

/// A request with its payload.
#[derive(Clone, Copy, Debug, PartialEq, Eq, Structural)]
pub enum TokenWrapRequest {
    CreateMint { idempotent: bool },
    Wrap { amount: u64 },
    Unwrap { amount: u64 },
}

/// The eight little-endian bytes of `a`.
pub open spec fn le_bytes(a: u64) -> Seq<u8> {
    seq![
        (a & 0xff) as u8,
        ((a >> 8u64) & 0xff) as u8,
        ((a >> 16u64) & 0xff) as u8,
        ((a >> 24u64) & 0xff) as u8,
        ((a >> 32u64) & 0xff) as u8,
        ((a >> 40u64) & 0xff) as u8,
        ((a >> 48u64) & 0xff) as u8,
        ((a >> 56u64) & 0xff) as u8,
    ]
}

/// The number whose little-endian bytes are `b[0..8]`.
pub open spec fn le_value(b: Seq<u8>) -> u64 {
    (b[0] as u64) | ((b[1] as u64) << 8u64) | ((b[2] as u64) << 16u64) | ((b[3] as u64)
        << 24u64) | ((b[4] as u64) << 32u64) | ((b[5] as u64) << 40u64) | ((b[6] as u64)
        << 48u64) | ((b[7] as u64) << 56u64)
}

/// The encoding of a request: its leading byte, then one byte for the flag
/// or eight little-endian bytes for the amount.
pub open spec fn request_bytes(r: TokenWrapRequest) -> Seq<u8> {
    match r {
        TokenWrapRequest::CreateMint { idempotent } => seq![0u8, if idempotent { 1u8 } else { 0u8 }],
        TokenWrapRequest::Wrap { amount } => seq![1u8] + le_bytes(amount),
        TokenWrapRequest::Unwrap { amount } => seq![2u8] + le_bytes(amount),
    }
}

/// The request that `data` encodes, or `None` where it encodes none.
pub open spec fn parse_request(data: Seq<u8>) -> Option<TokenWrapRequest> {
    if data.len() == 2 && data[0] == 0 && data[1] <= 1 {
        Some(TokenWrapRequest::CreateMint { idempotent: data[1] == 1 })
    } else if data.len() == 9 && data[0] == 1 {
        Some(TokenWrapRequest::Wrap { amount: le_value(data.subrange(1, 9)) })
    } else if data.len() == 9 && data[0] == 2 {
        Some(TokenWrapRequest::Unwrap { amount: le_value(data.subrange(1, 9)) })
    } else {
        None
    }
}

fn push_le_bytes(out: &mut Vec<u8>, a: u64)
    ensures
        final(out)@ == old(out)@ + le_bytes(a),
{
    out.push((a & 0xff) as u8);
    out.push(((a >> 8u64) & 0xff) as u8);
    out.push(((a >> 16u64) & 0xff) as u8);
    out.push(((a >> 24u64) & 0xff) as u8);
    out.push(((a >> 32u64) & 0xff) as u8);
    out.push(((a >> 40u64) & 0xff) as u8);
    out.push(((a >> 48u64) & 0xff) as u8);
    out.push(((a >> 56u64) & 0xff) as u8);
    proof {
        assert(final(out)@ =~= old(out)@ + le_bytes(a));
    }
}

fn read_le_u64(data: &[u8], start: usize) -> (r: u64)
    requires
        start + 8 <= data@.len(),
    ensures
        r == le_value(data@.subrange(start as int, start + 8)),
{
    let r = (data[start] as u64) | ((data[start + 1] as u64) << 8u64) | ((data[start + 2] as u64)
        << 16u64) | ((data[start + 3] as u64) << 24u64) | ((data[start + 4] as u64) << 32u64) | ((
    data[start + 5] as u64) << 40u64) | ((data[start + 6] as u64) << 48u64) | ((data[start
        + 7] as u64) << 56u64);
    r
}

proof fn lemma_le_join(a: u64)
    by (bit_vector)
    ensures
        ((a & 0xff) as u8 as u64) | ((((a >> 8u64) & 0xff) as u8 as u64) << 8u64) | ((((a >> 16u64)
            & 0xff) as u8 as u64) << 16u64) | ((((a >> 24u64) & 0xff) as u8 as u64) << 24u64) | ((((a
            >> 32u64) & 0xff) as u8 as u64) << 32u64) | ((((a >> 40u64) & 0xff) as u8 as u64)
            << 40u64) | ((((a >> 48u64) & 0xff) as u8 as u64) << 48u64) | ((((a >> 56u64) & 0xff) as u8
            as u64) << 56u64) == a,
{
}

proof fn lemma_le_split(b0: u8, b1: u8, b2: u8, b3: u8, b4: u8, b5: u8, b6: u8, b7: u8, v: u64)
    by (bit_vector)
    requires
        v == (b0 as u64) | ((b1 as u64) << 8u64) | ((b2 as u64) << 16u64) | ((b3 as u64) << 24u64)
            | ((b4 as u64) << 32u64) | ((b5 as u64) << 40u64) | ((b6 as u64) << 48u64) | ((b7 as u64)
            << 56u64),
    ensures
        (v & 0xff) as u8 == b0,
        ((v >> 8u64) & 0xff) as u8 == b1,
        ((v >> 16u64) & 0xff) as u8 == b2,
        ((v >> 24u64) & 0xff) as u8 == b3,
        ((v >> 32u64) & 0xff) as u8 == b4,
        ((v >> 40u64) & 0xff) as u8 == b5,
        ((v >> 48u64) & 0xff) as u8 == b6,
        ((v >> 56u64) & 0xff) as u8 == b7,
{
}

/// Reading back the eight little-endian bytes of a number gives the number.
pub proof fn lemma_le_value_of_bytes(a: u64)
    ensures
        le_value(le_bytes(a)) == a,
{
    lemma_le_join(a);
}

/// Writing out the number that eight bytes encode gives the same bytes.
pub proof fn lemma_le_bytes_of_value(b: Seq<u8>)
    requires
        b.len() == 8,
    ensures
        le_bytes(le_value(b)) == b,
{
    lemma_le_split(b[0], b[1], b[2], b[3], b[4], b[5], b[6], b[7], le_value(b));
    assert(le_bytes(le_value(b)) =~= b);
}

/// Decoding the encoding of a request gives the request back.
pub proof fn lemma_request_round_trip(r: TokenWrapRequest)
    ensures
        parse_request(request_bytes(r)) == Some(r),
{
    match r {
        TokenWrapRequest::CreateMint { idempotent } => {},
        TokenWrapRequest::Wrap { amount } => {
            lemma_le_value_of_bytes(amount);
            assert(request_bytes(r).subrange(1, 9) =~= le_bytes(amount));
        },
        TokenWrapRequest::Unwrap { amount } => {
            lemma_le_value_of_bytes(amount);
            assert(request_bytes(r).subrange(1, 9) =~= le_bytes(amount));
        },
    }
}

/// Bytes that decode to a request are exactly that request's encoding.
pub proof fn lemma_bytes_round_trip(data: Seq<u8>)
    requires
        parse_request(data) is Some,
    ensures
        request_bytes(parse_request(data).unwrap()) == data,
{
    if data[0] == 0 {
        assert(request_bytes(parse_request(data).unwrap()) =~= data);
    } else {
        lemma_le_bytes_of_value(data.subrange(1, 9));
        assert(request_bytes(parse_request(data).unwrap()) =~= data);
    }
}

impl TokenWrapRequest {
    /// The operation of this request.
    pub fn instruction(&self) -> (r: TokenWrapInstruction)
        ensures
            r == (match *self {
                TokenWrapRequest::CreateMint { .. } => TokenWrapInstruction::CreateMint,
                TokenWrapRequest::Wrap { .. } => TokenWrapInstruction::Wrap,
                TokenWrapRequest::Unwrap { .. } => TokenWrapInstruction::Unwrap,
            }),
    {
        match self {
            TokenWrapRequest::CreateMint { .. } => TokenWrapInstruction::CreateMint,
            TokenWrapRequest::Wrap { .. } => TokenWrapInstruction::Wrap,
            TokenWrapRequest::Unwrap { .. } => TokenWrapInstruction::Unwrap,
        }
    }

    /// The bytes of this request.
    pub fn pack(&self) -> (r: Vec<u8>)
        ensures
            r@ == request_bytes(*self),
    {
        let mut out: Vec<u8> = Vec::new();
        match self {
            TokenWrapRequest::CreateMint { idempotent } => {
                out.push(0u8);
                out.push(if *idempotent { 1u8 } else { 0u8 });
                proof {
                    assert(out@ =~= request_bytes(*self));
                }
            },
            TokenWrapRequest::Wrap { amount } => {
                out.push(1u8);
                push_le_bytes(&mut out, *amount);
            },
            TokenWrapRequest::Unwrap { amount } => {
                out.push(2u8);
                push_le_bytes(&mut out, *amount);
            },
        }
        out
    }

    /// The request that `data` encodes; `InvalidInstructionData` for a wrong
    /// length, an unknown leading byte, or a flag byte other than 0 or 1.
    pub fn unpack(data: &[u8]) -> (r: Result<TokenWrapRequest, WrapError>)
        ensures
            r == (match parse_request(data@) {
                Some(q) => Ok(q),
                None => Err(WrapError::InvalidInstructionData),
            }),
    {
        if data.len() == 0 {
            return Err(WrapError::InvalidInstructionData);
        }
        let tag = TokenWrapInstruction::try_from_byte(data[0])?;
        match tag {
            TokenWrapInstruction::CreateMint => {
                if data.len() == 2 && data[1] <= 1 {
                    Ok(TokenWrapRequest::CreateMint { idempotent: data[1] == 1 })
                } else {
                    Err(WrapError::InvalidInstructionData)
                }
            },
            TokenWrapInstruction::Wrap => {
                if data.len() == 9 {
                    Ok(TokenWrapRequest::Wrap { amount: read_le_u64(data, 1) })
                } else {
                    Err(WrapError::InvalidInstructionData)
                }
            },
            TokenWrapInstruction::Unwrap => {
                if data.len() == 9 {
                    Ok(TokenWrapRequest::Unwrap { amount: read_le_u64(data, 1) })
                } else {
                    Err(WrapError::InvalidInstructionData)
                }
            },
        }
    }
}

/// An account reference of an instruction.
#[derive(Clone, Copy, Debug)]
pub struct AccountMeta {
    pub pubkey: Address,
    pub is_signer: bool,
    pub is_writable: bool,
}

impl AccountMeta {
    /// A writable account reference.
    pub fn new(pubkey: Address, is_signer: bool) -> (r: AccountMeta)
        ensures
            r == (AccountMeta { pubkey, is_signer, is_writable: true }),
    {
        AccountMeta { pubkey, is_signer, is_writable: true }
    }

    /// A read-only account reference.
    pub fn new_readonly(pubkey: Address, is_signer: bool) -> (r: AccountMeta)
        ensures
            r == (AccountMeta { pubkey, is_signer, is_writable: false }),
    {
        AccountMeta { pubkey, is_signer, is_writable: false }
    }
}

/// A request addressed to a program, with the accounts it reads and writes.
#[derive(Clone, Debug)]
pub struct Instruction {
    pub program_id: Address,
    pub accounts: Vec<AccountMeta>,
    pub data: Vec<u8>,
}

/// The id of the SPL Token program.
pub open spec fn spl_token_id() -> Seq<u8> {
    seq![
        6u8, 221, 246, 225, 215, 101, 161, 147, 217, 203, 225, 70, 206, 235, 121, 172, 28, 180,
        133, 237, 95, 91, 55, 145, 58, 140, 245, 133, 126, 255, 0, 169,
    ]
}

/// The id of the SPL Token-2022 program.
pub open spec fn spl_token_2022_id() -> Seq<u8> {
    seq![
        6u8, 221, 246, 225, 238, 117, 143, 222, 24, 66, 93, 188, 228, 108, 205, 218, 182, 26, 252,
        77, 131, 185, 13, 39, 254, 189, 249, 40, 216, 161, 139, 252,
    ]
}

/// Relies on `spl_token::id`: the program id that the crate declares,
/// `TokenkegQfeZyiNwAJbNbGKPFXCWuBvf9Ss623VQ5DA`.
#[verifier::external_body]
fn token_program_id() -> (r: Address)
    ensures
        r@ == spl_token_id(),
{
    Address { bytes: spl_token::id().to_bytes() }
}

/// Relies on `spl_token_2022::id`: the program id that the crate declares,
/// `TokenzQdBNbLqP5VEhdkAS6EPFLC1PHnBqCXEpPxuEb`.
#[verifier::external_body]
fn token_2022_program_id() -> (r: Address)
    ensures
        r@ == spl_token_2022_id(),
{
    Address { bytes: spl_token_2022::id().to_bytes() }
}

/// A read-only signer reference for each co-signer.
pub open spec fn signer_metas(signers: Option<Vec<Address>>) -> Seq<AccountMeta> {
    match signers {
        Some(v) => v@.map_values(
            |s: Address| AccountMeta { pubkey: s, is_signer: true, is_writable: false },
        ),
        None => Seq::empty(),
    }
}

fn push_signers(accounts: &mut Vec<AccountMeta>, signers: Option<Vec<Address>>)
    ensures
        final(accounts)@ == old(accounts)@ + signer_metas(signers),
{
    match signers {
        Some(v) => {
            let ghost start = accounts@;
            let mut i: usize = 0;
            while i < v.len()
                invariant
                    0 <= i <= v@.len(),
                    accounts@ == start + signer_metas(Some(v)).subrange(0, i as int),
                decreases v@.len() - i,
            {
                accounts.push(AccountMeta::new_readonly(v[i], true));
                i = i + 1;
                proof {
                    assert(accounts@ =~= start + signer_metas(Some(v)).subrange(0, i as int));
                }
            }
            proof {
                assert(signer_metas(Some(v)).subrange(0, i as int) =~= signer_metas(Some(v)));
            }
        },
        None => {
            proof {
                assert(accounts@ =~= accounts@ + signer_metas(None));
            }
        },
    }
}

/// Builds a `CreateMint` request: funding account, wrapped mint, backpointer,
/// unwrapped mint and the SPL Token program, the same five accounts whatever
/// the flag.
pub fn create_mint(
    program_id: &Address,
    funding_account: &Address,
    wrapped_mint: &Address,
    wrapped_backpointer: &Address,
    unwrapped_mint: &Address,
    idempotent: bool,
) -> (r: Instruction)
    ensures
        r.program_id == *program_id,
        r.accounts@.len() == 5,
        r.accounts@[0] == (AccountMeta { pubkey: *funding_account, is_signer: true, is_writable: true }),
        r.accounts@[1] == (AccountMeta { pubkey: *wrapped_mint, is_signer: false, is_writable: true }),
        r.accounts@[2] == (AccountMeta {
            pubkey: *wrapped_backpointer,
            is_signer: false,
            is_writable: true,
        }),
        r.accounts@[3] == (AccountMeta {
            pubkey: *unwrapped_mint,
            is_signer: false,
            is_writable: false,
        }),
        r.accounts@[4].pubkey@ == spl_token_id(),
        !r.accounts@[4].is_signer && !r.accounts@[4].is_writable,
        r.data@ == request_bytes(TokenWrapRequest::CreateMint { idempotent }),
{
    let accounts: Vec<AccountMeta> = vec![
        AccountMeta::new(*funding_account, true),
        AccountMeta::new(*wrapped_mint, false),
        AccountMeta::new(*wrapped_backpointer, false),
        AccountMeta::new_readonly(*unwrapped_mint, false),
        AccountMeta::new_readonly(token_program_id(), false),
    ];
    let request = TokenWrapRequest::CreateMint { idempotent };
    Instruction { program_id: *program_id, accounts, data: request.pack() }
}

/// The fixed accounts of a wrap or unwrap: the source and destination token
/// accounts, the source's and destination's mints, and the two token programs.
pub open spec fn transfer_pair_metas(
    source_token: Address,
    destination_token: Address,
    source_mint: Address,
    destination_mint: Address,
    token: Address,
    token_2022: Address,
) -> Seq<AccountMeta> {
    seq![
        AccountMeta { pubkey: source_token, is_signer: false, is_writable: true },
        AccountMeta { pubkey: destination_token, is_signer: false, is_writable: true },
        AccountMeta { pubkey: source_mint, is_signer: false, is_writable: false },
        AccountMeta { pubkey: destination_mint, is_signer: false, is_writable: false },
        AccountMeta { pubkey: token, is_signer: false, is_writable: false },
        AccountMeta { pubkey: token_2022, is_signer: false, is_writable: false },
    ]
}

fn transfer_pair_instruction(
    program_id: &Address,
    source_token: &Address,
    destination_token: &Address,
    source_mint: &Address,
    destination_mint: &Address,
    multisig_signers: Option<Vec<Address>>,
    request: TokenWrapRequest,
) -> (r: Instruction)
    ensures
        r.program_id == *program_id,
        r.accounts@ == transfer_pair_metas(
            *source_token,
            *destination_token,
            *source_mint,
            *destination_mint,
            r.accounts@[4].pubkey,
            r.accounts@[5].pubkey,
        ) + signer_metas(multisig_signers),
        r.accounts@[4].pubkey@ == spl_token_id(),
        r.accounts@[5].pubkey@ == spl_token_2022_id(),
        r.data@ == request_bytes(request),
{
    let mut accounts: Vec<AccountMeta> = vec![
        AccountMeta::new(*source_token, false),
        AccountMeta::new(*destination_token, false),
        AccountMeta::new_readonly(*source_mint, false),
        AccountMeta::new_readonly(*destination_mint, false),
        AccountMeta::new_readonly(token_program_id(), false),
        AccountMeta::new_readonly(token_2022_program_id(), false),
    ];
    let ghost fixed = accounts@;
    push_signers(&mut accounts, multisig_signers);
    proof {
        assert(fixed =~= transfer_pair_metas(
            *source_token,
            *destination_token,
            *source_mint,
            *destination_mint,
            fixed[4].pubkey,
            fixed[5].pubkey,
        ));
    }
    Instruction { program_id: *program_id, accounts, data: request.pack() }
}

/// Builds a `Wrap` request of `amount`: the holder's unwrapped account, the
/// holder's wrapped account, the two mints, the two token programs, then a
/// read-only signer reference for each multisig co-signer.
pub fn wrap(
    program_id: &Address,
    unwrapped_token: &Address,
    unwrapped_mint: &Address,
    wrapped_mint: &Address,
    wrapped_token: &Address,
    amount: u64,
    multisig_signers: Option<Vec<Address>>,
) -> (r: Instruction)
    ensures
        r.program_id == *program_id,
        r.accounts@ == transfer_pair_metas(
            *unwrapped_token,
            *wrapped_token,
            *unwrapped_mint,
            *wrapped_mint,
            r.accounts@[4].pubkey,
            r.accounts@[5].pubkey,
        ) + signer_metas(multisig_signers),
        r.accounts@[4].pubkey@ == spl_token_id(),
        r.accounts@[5].pubkey@ == spl_token_2022_id(),
        r.data@ == request_bytes(TokenWrapRequest::Wrap { amount }),
{
    transfer_pair_instruction(
        program_id,
        unwrapped_token,
        wrapped_token,
        unwrapped_mint,
        wrapped_mint,
        multisig_signers,
        TokenWrapRequest::Wrap { amount },
    )
}

/// Builds an `Unwrap` request of `amount`: the holder's wrapped account, the
/// holder's unwrapped account, the two mints, the two token programs, then a
/// read-only signer reference for each multisig co-signer.
pub fn unwrap(
    program_id: &Address,
    wrapped_token: &Address,
    wrapped_mint: &Address,
    unwrapped_token: &Address,
    unwrapped_mint: &Address,
    amount: u64,
    multisig_signers: Option<Vec<Address>>,
) -> (r: Instruction)
    ensures
        r.program_id == *program_id,
        r.accounts@ == transfer_pair_metas(
            *wrapped_token,
            *unwrapped_token,
            *wrapped_mint,
            *unwrapped_mint,
            r.accounts@[4].pubkey,
            r.accounts@[5].pubkey,
        ) + signer_metas(multisig_signers),
        r.accounts@[4].pubkey@ == spl_token_id(),
        r.accounts@[5].pubkey@ == spl_token_2022_id(),
        r.data@ == request_bytes(TokenWrapRequest::Unwrap { amount }),
{
    transfer_pair_instruction(
        program_id,
        wrapped_token,
        unwrapped_token,
        wrapped_mint,
        unwrapped_mint,
        multisig_signers,
        TokenWrapRequest::Unwrap { amount },
    )
}

} // verus!
