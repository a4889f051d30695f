//! Instructions for the system program and the token programs, as plain
//! values that the host invokes.

use crate::address::Address;
use crate::error::MetadataError;
use solana_program::pubkey::Pubkey;
use solana_program::system_instruction;
use spl_token_2022::extension::metadata_pointer;
use vstd::prelude::*;

verus! {

/// An account that an instruction names.
#[derive(Clone, Copy, Debug, PartialEq, Eq)]
pub struct AccountMeta {
    pub pubkey: Address,
    /// Whether the account has to sign.
    pub is_signer: bool,
    /// Whether the instruction may change the account.
    pub is_writable: bool,
}

/// A request to a program.
#[derive(Clone, Debug, PartialEq, Eq)]
pub struct Instruction {
    /// The program that carries the instruction out.
    pub program_id: Address,
    pub accounts: Vec<AccountMeta>,
    /// What the program is asked to do, in the program's own encoding.
    pub data: Vec<u8>,
}

/// The account `pubkey` with its two flags.
pub open spec fn meta(pubkey: Address, is_signer: bool, is_writable: bool) -> AccountMeta {
    AccountMeta { pubkey, is_signer, is_writable }
}

/// The bytes of the address of the system program.
pub open spec fn system_program_bytes() -> Seq<u8> {
    Seq::new(32, |i: int| 0u8)
}

/// The bytes of the address of the classic token program.
pub open spec fn spl_token_bytes() -> Seq<u8> {
    seq![
        6u8, 221, 246, 225, 215, 101, 161, 147, 217, 203, 225, 70, 206, 235, 121, 172, 28, 180, 133,
        237, 95, 91, 55, 145, 58, 140, 245, 133, 126, 255, 0, 169,
    ]
}

/// The bytes of the address of the token program with extensions.
pub open spec fn spl_token_2022_bytes() -> Seq<u8> {
    seq![
        6u8, 221, 246, 225, 238, 117, 143, 222, 24, 66, 93, 188, 228, 108, 205, 218, 182, 26, 252,
        77, 131, 185, 13, 39, 254, 189, 249, 40, 216, 161, 139, 252,
    ]
}

/// The address of the classic token program.
pub fn spl_token_id() -> (r: Address)
    ensures
        r@ == spl_token_bytes(),
{
    let r = Address {
        bytes: [
            6, 221, 246, 225, 215, 101, 161, 147, 217, 203, 225, 70, 206, 235, 121, 172, 28, 180,
            133, 237, 95, 91, 55, 145, 58, 140, 245, 133, 126, 255, 0, 169,
        ],
    };
    assert(r@ =~= spl_token_bytes());
    r
}

/// The address of the token program with extensions.
pub fn spl_token_2022_id() -> (r: Address)
    ensures
        r@ == spl_token_2022_bytes(),
{
    let r = Address {
        bytes: [
            6, 221, 246, 225, 238, 117, 143, 222, 24, 66, 93, 188, 228, 108, 205, 218, 182, 26, 252,
            77, 131, 185, 13, 39, 254, 189, 249, 40, 216, 161, 139, 252,
        ],
    };
    assert(r@ =~= spl_token_2022_bytes());
    r
}

/// The bytes of an optional address.
pub open spec fn opt_bytes(a: Option<Address>) -> Option<Seq<u8>> {
    match a {
        Some(x) => Some(x@),
        None => None,
    }
}

// ---------------------------------------------------------------- system program

/// The data of the system instruction that moves `lamports`.
pub uninterp spec fn transfer_data(lamports: u64) -> Seq<u8>;

/// The data of the system instruction that creates an account of `space`
/// bytes with `lamports`, owned by `owner`.
pub uninterp spec fn create_account_data(lamports: u64, space: u64, owner: Seq<u8>) -> Seq<u8>;

/// The data of the system instruction that gives an account `space` bytes.
pub uninterp spec fn allocate_data(space: u64) -> Seq<u8>;

/// The data of the system instruction that hands an account to `owner`.
pub uninterp spec fn assign_data(owner: Seq<u8>) -> Seq<u8>;

/// `system_instruction::transfer`. Taken on trust: the instruction is for
/// the system program, names `from` as a writable signer and `to` as
/// writable, and its data depend on the lamports alone.
#[verifier::external_body]
pub(crate) fn transfer(from: &Address, to: &Address, lamports: u64) -> (r: Instruction)
    ensures
        r.program_id@ == system_program_bytes(),
        r.accounts@ == seq![meta(*from, true, true), meta(*to, false, true)],
        r.data@ == transfer_data(lamports),
{
    let ix = system_instruction::transfer(
        &Pubkey::new_from_array(from.bytes),
        &Pubkey::new_from_array(to.bytes),
        lamports,
    );
    let accounts = ix.accounts.iter().map(
        |m| AccountMeta { pubkey: Address { bytes: m.pubkey.to_bytes() }, is_signer: m.is_signer, is_writable: m.is_writable },
    ).collect();
    Instruction { program_id: Address { bytes: ix.program_id.to_bytes() }, accounts, data: ix.data }
}

/// `system_instruction::create_account`. Taken on trust: the instruction
/// is for the system program, names `from` and `to` as writable signers,
/// and its data depend on lamports, space and owner alone.
#[verifier::external_body]
pub(crate) fn create_account(
    from: &Address,
    to: &Address,
    lamports: u64,
    space: u64,
    owner: &Address,
) -> (r: Instruction)
    ensures
        r.program_id@ == system_program_bytes(),
        r.accounts@ == seq![meta(*from, true, true), meta(*to, true, true)],
        r.data@ == create_account_data(lamports, space, owner@),
{
    let ix = system_instruction::create_account(
        &Pubkey::new_from_array(from.bytes),
        &Pubkey::new_from_array(to.bytes),
        lamports,
        space,
        &Pubkey::new_from_array(owner.bytes),
    );
    let accounts = ix.accounts.iter().map(
        |m| AccountMeta { pubkey: Address { bytes: m.pubkey.to_bytes() }, is_signer: m.is_signer, is_writable: m.is_writable },
    ).collect();
    Instruction { program_id: Address { bytes: ix.program_id.to_bytes() }, accounts, data: ix.data }
}

/// `system_instruction::allocate`. Taken on trust: the instruction is for
/// the system program, names `account` as a writable signer, and its data
/// depend on the space alone.
#[verifier::external_body]
pub(crate) fn allocate(account: &Address, space: u64) -> (r: Instruction)
    ensures
        r.program_id@ == system_program_bytes(),
        r.accounts@ == seq![meta(*account, true, true)],
        r.data@ == allocate_data(space),
{
    let ix = system_instruction::allocate(&Pubkey::new_from_array(account.bytes), space);
    let accounts = ix.accounts.iter().map(
        |m| AccountMeta { pubkey: Address { bytes: m.pubkey.to_bytes() }, is_signer: m.is_signer, is_writable: m.is_writable },
    ).collect();
    Instruction { program_id: Address { bytes: ix.program_id.to_bytes() }, accounts, data: ix.data }
}

/// `system_instruction::assign`. Taken on trust: the instruction is for
/// the system program, names `account` as a writable signer, and its data
/// depend on the owner alone.
#[verifier::external_body]
pub(crate) fn assign(account: &Address, owner: &Address) -> (r: Instruction)
    ensures
        r.program_id@ == system_program_bytes(),
        r.accounts@ == seq![meta(*account, true, true)],
        r.data@ == assign_data(owner@),
{
    let ix = system_instruction::assign(
        &Pubkey::new_from_array(account.bytes),
        &Pubkey::new_from_array(owner.bytes),
    );
    let accounts = ix.accounts.iter().map(
        |m| AccountMeta { pubkey: Address { bytes: m.pubkey.to_bytes() }, is_signer: m.is_signer, is_writable: m.is_writable },
    ).collect();
    Instruction { program_id: Address { bytes: ix.program_id.to_bytes() }, accounts, data: ix.data }
}

// ---------------------------------------------------------------- token programs

/// The data of the token instruction that gives a mint its close authority.
pub uninterp spec fn close_authority_data(close_authority: Option<Seq<u8>>) -> Seq<u8>;

/// The data of the token instruction that gives a mint its metadata
/// pointer.
pub uninterp spec fn metadata_pointer_data(
    authority: Option<Seq<u8>>,
    metadata_address: Option<Seq<u8>>,
) -> Seq<u8>;

/// The data of the token instruction that initializes a mint.
pub uninterp spec fn initialize_mint_data(
    mint_authority: Seq<u8>,
    freeze_authority: Option<Seq<u8>>,
    decimals: u8,
) -> Seq<u8>;

/// `spl_token_2022::instruction::initialize_mint_close_authority`. Taken
/// on trust: it is refused unless the program is the token program with
/// extensions; else the instruction is for that program, names `mint` as
/// writable, and its data depend on the close authority alone.
#[verifier::external_body]
pub(crate) fn initialize_mint_close_authority(
    token_program: &Address,
    mint: &Address,
    close_authority: Option<Address>,
) -> (r: Option<Instruction>)
    ensures
        r is Some <==> token_program@ == spl_token_2022_bytes(),
        r matches Some(ix) ==> ix.program_id == *token_program,
        r matches Some(ix) ==> ix.accounts@ == seq![meta(*mint, false, true)],
        r matches Some(ix) ==> ix.data@ == close_authority_data(opt_bytes(close_authority)),
{
    let authority = close_authority.map(|a| Pubkey::new_from_array(a.bytes));
    let ix = spl_token_2022::instruction::initialize_mint_close_authority(
        &Pubkey::new_from_array(token_program.bytes),
        &Pubkey::new_from_array(mint.bytes),
        authority.as_ref(),
    ).ok()?;
    let accounts = ix.accounts.iter().map(
        |m| AccountMeta { pubkey: Address { bytes: m.pubkey.to_bytes() }, is_signer: m.is_signer, is_writable: m.is_writable },
    ).collect();
    Some(Instruction { program_id: Address { bytes: ix.program_id.to_bytes() }, accounts, data: ix.data })
}

/// The arguments for which a metadata pointer can be initialized: the
/// program is the token program with extensions, and neither address is
/// the address of zeros, which stands for no address.
pub open spec fn pointer_accepted(
    token_program: Address,
    authority: Option<Address>,
    metadata_address: Option<Address>,
) -> bool {
    &&& token_program@ == spl_token_2022_bytes()
    &&& opt_bytes(authority) != Some(system_program_bytes())
    &&& opt_bytes(metadata_address) != Some(system_program_bytes())
}

/// `metadata_pointer::instruction::initialize`. Taken on trust: it is
/// refused unless the program is the token program with extensions, and
/// where an address that is given is the address of zeros; else the
/// instruction is for that program, names `mint` as writable, and its data
/// depend on the two addresses alone.
#[verifier::external_body]
pub(crate) fn initialize_metadata_pointer(
    token_program: &Address,
    mint: &Address,
    authority: Option<Address>,
    metadata_address: Option<Address>,
) -> (r: Option<Instruction>)
    ensures
        r is Some <==> pointer_accepted(*token_program, authority, metadata_address),
        r matches Some(ix) ==> ix.program_id == *token_program,
        r matches Some(ix) ==> ix.accounts@ == seq![meta(*mint, false, true)],
        r matches Some(ix) ==> ix.data@ == metadata_pointer_data(
            opt_bytes(authority),
            opt_bytes(metadata_address),
        ),
{
    let ix = metadata_pointer::instruction::initialize(
        &Pubkey::new_from_array(token_program.bytes),
        &Pubkey::new_from_array(mint.bytes),
        authority.map(|a| Pubkey::new_from_array(a.bytes)),
        metadata_address.map(|a| Pubkey::new_from_array(a.bytes)),
    ).ok()?;
    let accounts = ix.accounts.iter().map(
        |m| AccountMeta { pubkey: Address { bytes: m.pubkey.to_bytes() }, is_signer: m.is_signer, is_writable: m.is_writable },
    ).collect();
    Some(Instruction { program_id: Address { bytes: ix.program_id.to_bytes() }, accounts, data: ix.data })
}

/// The program is one of the two token programs.
pub open spec fn is_token_program(program: Address) -> bool {
    program@ == spl_token_2022_bytes() || program@ == spl_token_bytes()
}

/// `spl_token_2022::instruction::initialize_mint2`. Taken on trust: it is
/// refused unless the program is one of the two token programs; else the
/// instruction is for that program, names `mint` as writable, and its data
/// depend on authorities and decimals alone.
#[verifier::external_body]
pub(crate) fn initialize_mint2(
    token_program: &Address,
    mint: &Address,
    mint_authority: &Address,
    freeze_authority: Option<Address>,
    decimals: u8,
) -> (r: Option<Instruction>)
    ensures
        r is Some <==> is_token_program(*token_program),
        r matches Some(ix) ==> ix.program_id == *token_program,
        r matches Some(ix) ==> ix.accounts@ == seq![meta(*mint, false, true)],
        r matches Some(ix) ==> ix.data@ == initialize_mint_data(
            mint_authority@,
            opt_bytes(freeze_authority),
            decimals,
        ),
{
    let freeze = freeze_authority.map(|a| Pubkey::new_from_array(a.bytes));
    let ix = spl_token_2022::instruction::initialize_mint2(
        &Pubkey::new_from_array(token_program.bytes),
        &Pubkey::new_from_array(mint.bytes),
        &Pubkey::new_from_array(mint_authority.bytes),
        freeze.as_ref(),
        decimals,
    ).ok()?;
    let accounts = ix.accounts.iter().map(
        |m| AccountMeta { pubkey: Address { bytes: m.pubkey.to_bytes() }, is_signer: m.is_signer, is_writable: m.is_writable },
    ).collect();
    Some(Instruction { program_id: Address { bytes: ix.program_id.to_bytes() }, accounts, data: ix.data })
}

// ---------------------------------------------------------------- what an instruction is

/// `ix` asks the system program to move `lamports` from `from` to `to`.
pub open spec fn is_transfer(ix: Instruction, from: Address, to: Address, lamports: u64) -> bool {
    &&& ix.program_id@ == system_program_bytes()
    &&& ix.accounts@ == seq![meta(from, true, true), meta(to, false, true)]
    &&& ix.data@ == transfer_data(lamports)
}

/// `ix` asks the system program to create the account `to` with `lamports`
/// of `from` and `space` bytes, owned by `owner`.
pub open spec fn is_create_account(
    ix: Instruction,
    from: Address,
    to: Address,
    lamports: u64,
    space: u64,
    owner: Address,
) -> bool {
    &&& ix.program_id@ == system_program_bytes()
    &&& ix.accounts@ == seq![meta(from, true, true), meta(to, true, true)]
    &&& ix.data@ == create_account_data(lamports, space, owner@)
}

/// `ix` asks the system program to give `account` `space` bytes.
pub open spec fn is_allocate(ix: Instruction, account: Address, space: u64) -> bool {
    &&& ix.program_id@ == system_program_bytes()
    &&& ix.accounts@ == seq![meta(account, true, true)]
    &&& ix.data@ == allocate_data(space)
}

/// `ix` asks the system program to hand `account` to `owner`.
pub open spec fn is_assign(ix: Instruction, account: Address, owner: Address) -> bool {
    &&& ix.program_id@ == system_program_bytes()
    &&& ix.accounts@ == seq![meta(account, true, true)]
    &&& ix.data@ == assign_data(owner@)
}

/// `ix` asks `token_program` to give `mint` the close authority.
pub open spec fn is_initialize_close_authority(
    ix: Instruction,
    token_program: Address,
    mint: Address,
    close_authority: Option<Address>,
) -> bool {
    &&& ix.program_id == token_program
    &&& ix.accounts@ == seq![meta(mint, false, true)]
    &&& ix.data@ == close_authority_data(opt_bytes(close_authority))
}

/// `ix` asks `token_program` to give `mint` the metadata pointer.
pub open spec fn is_initialize_metadata_pointer(
    ix: Instruction,
    token_program: Address,
    mint: Address,
    authority: Option<Address>,
    metadata_address: Option<Address>,
) -> bool {
    &&& ix.program_id == token_program
    &&& ix.accounts@ == seq![meta(mint, false, true)]
    &&& ix.data@ == metadata_pointer_data(opt_bytes(authority), opt_bytes(metadata_address))
}

/// `ix` asks `token_program` to initialize `mint` with the authorities and
/// the decimals.
pub open spec fn is_initialize_mint(
    ix: Instruction,
    token_program: Address,
    mint: Address,
    mint_authority: Address,
    freeze_authority: Option<Address>,
    decimals: u8,
) -> bool {
    &&& ix.program_id == token_program
    &&& ix.accounts@ == seq![meta(mint, false, true)]
    &&& ix.data@ == initialize_mint_data(mint_authority@, opt_bytes(freeze_authority), decimals)
}

// ---------------------------------------------------------------- plans

/// An instruction by what it asks for.
pub enum Effect {
    /// The system program moves lamports.
    Transfer { from: Address, to: Address, lamports: u64 },
    /// The system program creates an account.
    CreateAccount { from: Address, to: Address, lamports: u64, space: u64, owner: Address },
    /// The system program gives an account its bytes.
    Allocate { account: Address, space: u64 },
    /// The system program hands an account to its owner.
    Assign { account: Address, owner: Address },
    /// A token program gives a mint its close authority.
    InitializeCloseAuthority {
        token_program: Address,
        mint: Address,
        close_authority: Option<Address>,
    },
    /// A token program gives a mint its metadata pointer.
    InitializeMetadataPointer {
        token_program: Address,
        mint: Address,
        authority: Option<Address>,
        metadata_address: Option<Address>,
    },
    /// A token program initializes a mint.
    InitializeMint {
        token_program: Address,
        mint: Address,
        mint_authority: Address,
        freeze_authority: Option<Address>,
        decimals: u8,
    },
}

/// `ix` is the instruction that asks for `effect`.
pub open spec fn performs(ix: Instruction, effect: Effect) -> bool {
    match effect {
        Effect::Transfer { from, to, lamports } => is_transfer(ix, from, to, lamports),
        Effect::CreateAccount { from, to, lamports, space, owner } => is_create_account(
            ix,
            from,
            to,
            lamports,
            space,
            owner,
        ),
        Effect::Allocate { account, space } => is_allocate(ix, account, space),
        Effect::Assign { account, owner } => is_assign(ix, account, owner),
        Effect::InitializeCloseAuthority {
            token_program,
            mint,
            close_authority,
        } => is_initialize_close_authority(ix, token_program, mint, close_authority),
        Effect::InitializeMetadataPointer {
            token_program,
            mint,
            authority,
            metadata_address,
        } => is_initialize_metadata_pointer(ix, token_program, mint, authority, metadata_address),
        Effect::InitializeMint {
            token_program,
            mint,
            mint_authority,
            freeze_authority,
            decimals,
        } => is_initialize_mint(
            ix,
            token_program,
            mint,
            mint_authority,
            freeze_authority,
            decimals,
        ),
    }
}

/// The instructions ask for the effects, one for one and in their order.
pub open spec fn perform(ixs: Seq<Instruction>, effects: Seq<Effect>) -> bool {
    &&& ixs.len() == effects.len()
    &&& forall|i: int| 0 <= i < ixs.len() ==> performs(#[trigger] ixs[i], effects[i])
}

/// A plan that goes on with one more instruction asks for one more effect.
pub proof fn lemma_perform_push(
    ixs: Seq<Instruction>,
    effects: Seq<Effect>,
    ix: Instruction,
    effect: Effect,
)
    requires
        perform(ixs, effects),
        performs(ix, effect),
    ensures
        perform(ixs.push(ix), effects.push(effect)),
{
    let a = ixs.push(ix);
    let b = effects.push(effect);
    assert forall|i: int| 0 <= i < a.len() implies performs(#[trigger] a[i], b[i]) by {
        if i < ixs.len() {
            assert(a[i] == ixs[i]);
        }
    }
}

/// Plans that follow each other ask for the effects of both.
pub proof fn lemma_perform_add(
    ixs: Seq<Instruction>,
    effects: Seq<Effect>,
    more: Seq<Instruction>,
    more_effects: Seq<Effect>,
)
    requires
        perform(ixs, effects),
        perform(more, more_effects),
    ensures
        perform(ixs + more, effects + more_effects),
{
    let a = ixs + more;
    let b = effects + more_effects;
    assert forall|i: int| 0 <= i < a.len() implies performs(#[trigger] a[i], b[i]) by {
        if i < ixs.len() {
            assert(a[i] == ixs[i]);
        } else {
            assert(a[i] == more[i - ixs.len()]);
        }
    }
}

/// The effects of a part of a piece of work, and how the part ends once
/// they have come about. Work ends with the first part that fails.
pub struct Stage {
    pub effects: Seq<Effect>,
    pub result: Result<(), MetadataError>,
}

impl Stage {
    /// This part and then `next`, unless this part fails.
    pub open spec fn and_next(self, next: Stage) -> Stage {
        if self.result is Err {
            self
        } else {
            Stage { effects: self.effects + next.effects, result: next.result }
        }
    }

    /// A part without effects.
    pub open spec fn idle(result: Result<(), MetadataError>) -> Stage {
        Stage { effects: Seq::empty(), result }
    }
}

} // verus!
