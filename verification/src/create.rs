//! The instruction that creates the metadata of a mint, as a plan: the
//! instructions that the host is to invoke, in their order, and the data
//! that the accounts of the program hold once all of them have succeeded.

use crate::accounts::{
    context_of, Account, AssetData, CreateAccounts, CreateArgs, RentExemption,
};
use crate::address::Address;
use crate::codec::{zeroed, zeros};
use crate::error::MetadataError;
use crate::fee::{
    levied, levy, levy_stage, set_fee_flag, CREATE_FEE, FEE_FLAG_SET, METADATA_FEE_FLAG_INDEX,
};
use crate::instruction::{
    allocate, assign, lemma_perform_add, lemma_perform_push, perform, performs, transfer, Effect,
    Instruction, Stage,
};
use crate::master_edition::{
    mark_programmable, with_master_edition, write_master_edition, MAX_MASTER_EDITION_LEN,
    TOKEN_STANDARD_INDEX,
};
use crate::metadata::{
    bounds_spec, dec_metadata, lemma_metadata_round_trip, lemma_puffed_fits, puffed,
    with_metadata, Metadata, MetadataView, MAX_METADATA_LEN,
};
use crate::mint::{create_mint, validate_mint, validate_mint_spec, NewMint};
use crate::pda::{canonical, find_program_address, prefix, prefix_bytes, seeds_view, with_bump};
use crate::records::ProgrammableConfig;
use crate::state::{Key, PrintSupply, TokenStandard};
use vstd::prelude::*;

verus! {

// ---------------------------------------------------------------- derived accounts

/// The bytes of the word "edition", the last seed of a master edition.
pub open spec fn edition_bytes() -> Seq<u8> {
    seq![101u8, 100, 105, 116, 105, 111, 110]
}

/// The seeds of the metadata account of a mint.
pub open spec fn metadata_seeds(program_id: Address, mint: Address) -> Seq<Seq<u8>> {
    seq![prefix_bytes(), program_id@, mint@]
}

/// The seeds of the master edition of a mint.
pub open spec fn edition_seeds(program_id: Address, mint: Address) -> Seq<Seq<u8>> {
    seq![prefix_bytes(), program_id@, mint@, edition_bytes()]
}

fn metadata_seed_list(program_id: &Address, mint: &Address) -> (r: Vec<Vec<u8>>)
    ensures
        seeds_view(r@) == metadata_seeds(*program_id, *mint),
{
    let mut seeds: Vec<Vec<u8>> = Vec::new();
    seeds.push(prefix());
    seeds.push(program_id.to_vec());
    seeds.push(mint.to_vec());
    assert(seeds_view(seeds@) =~= metadata_seeds(*program_id, *mint));
    seeds
}

fn edition_seed_list(program_id: &Address, mint: &Address) -> (r: Vec<Vec<u8>>)
    ensures
        seeds_view(r@) == edition_seeds(*program_id, *mint),
{
    let mut seeds: Vec<Vec<u8>> = Vec::new();
    seeds.push(prefix());
    seeds.push(program_id.to_vec());
    seeds.push(mint.to_vec());
    let mut edition: Vec<u8> = Vec::new();
    edition.push(101);
    edition.push(100);
    edition.push(105);
    edition.push(116);
    edition.push(105);
    edition.push(111);
    edition.push(110);
    assert(edition@ =~= edition_bytes());
    seeds.push(edition);
    assert(seeds_view(seeds@) =~= edition_seeds(*program_id, *mint));
    seeds
}

/// The seeds with the bump seed as their last.
fn push_bump(seeds: Vec<Vec<u8>>, bump: u8) -> (r: Vec<Vec<u8>>)
    ensures
        seeds_view(r@) == with_bump(seeds_view(seeds@), bump),
{
    let ghost before = seeds@;
    let mut seeds = seeds;
    let mut last: Vec<u8> = Vec::new();
    last.push(bump);
    seeds.push(last);
    assert(seeds_view(seeds@) =~= with_bump(seeds_view(before), bump));
    seeds
}

/// The canonical address of the metadata account of a mint, and its bump
/// seed.
pub fn find_metadata_pda(program_id: &Address, mint: &Address) -> (r: Option<(Address, u8)>)
    ensures
        r == canonical(metadata_seeds(*program_id, *mint), *program_id),
{
    let seeds = metadata_seed_list(program_id, mint);
    find_program_address(&seeds, program_id)
}

/// The canonical address of the master edition of a mint, and its bump
/// seed.
pub fn find_master_edition_pda(program_id: &Address, mint: &Address) -> (r: Option<(Address, u8)>)
    ensures
        r == canonical(edition_seeds(*program_id, *mint), *program_id),
{
    let seeds = edition_seed_list(program_id, mint);
    find_program_address(&seeds, program_id)
}

// ---------------------------------------------------------------- allocation

/// The balance below which an account of this rent is topped up.
pub open spec fn floor(rent: u64) -> u64 {
    if rent == 0 {
        1
    } else {
        rent
    }
}

/// What gives an account that the program derives its bytes and its
/// owner, and keeps what the account holds: the payer tops the balance up
/// to the rent where it is short, the account is allocated, and it is
/// assigned to its owner.
pub open spec fn allocation(
    account: Address,
    balance: u64,
    payer: Address,
    size: usize,
    rent: u64,
    owner: Address,
) -> Seq<Effect> {
    let top_up = if balance < floor(rent) {
        seq![Effect::Transfer { from: payer, to: account, lamports: (floor(rent) - balance) as u64 }]
    } else {
        Seq::<Effect>::empty()
    };
    top_up + seq![
        Effect::Allocate { account, space: size as u64 },
        Effect::Assign { account, owner },
    ]
}

/// Plans the allocation of an account that the program derives.
pub fn allocate_or_top_up(
    account: &Address,
    balance: u64,
    payer: &Address,
    size: usize,
    rent: u64,
    owner: &Address,
) -> (r: Vec<Instruction>)
    ensures
        perform(r@, allocation(*account, balance, *payer, size, rent, *owner)),
{
    let mut instructions: Vec<Instruction> = Vec::new();
    let floor = if rent == 0 {
        1
    } else {
        rent
    };
    if balance < floor {
        instructions.push(transfer(payer, account, floor - balance));
    }
    instructions.push(allocate(account, size as u64));
    instructions.push(assign(account, owner));
    proof {
        let e = allocation(*account, balance, *payer, size, rent, *owner);
        assert(instructions@.len() == e.len());
        assert forall|i: int| 0 <= i < instructions@.len() implies performs(
            #[trigger] instructions@[i],
            e[i],
        ) by {}
    }
    instructions
}

// ---------------------------------------------------------------- the stages

impl CreateArgs {
    /// The asset data of the arguments.
    pub open spec fn asset(self) -> AssetData {
        match self {
            CreateArgs::V1 { asset_data, .. } => asset_data,
        }
    }

    /// The decimals that the arguments ask for.
    pub open spec fn mint_decimals(self) -> Option<u8> {
        match self {
            CreateArgs::V1 { decimals, .. } => decimals,
        }
    }

    /// The print supply of the arguments.
    pub open spec fn prints(self) -> Option<PrintSupply> {
        match self {
            CreateArgs::V1 { print_supply, .. } => print_supply,
        }
    }
}

/// A print is not created by this instruction.
pub open spec fn standard_stage(token_standard: TokenStandard) -> Stage {
    if token_standard.is_edition() {
        Stage::idle(Err(MetadataError::InvalidTokenStandard))
    } else {
        Stage::idle(Ok(()))
    }
}

/// The key of an optional account.
pub open spec fn key_of(account: Option<&Account>) -> Option<Address> {
    match account {
        Some(a) => Some(a.key),
        None => None,
    }
}

/// The mint: made where its account is empty, for which it has to sign and
/// the token program has to be there; else held against the rules of the
/// token standard.
pub open spec fn mint_stage(
    ctx: CreateAccounts,
    token_standard: TokenStandard,
    decimals: Option<u8>,
    rent: u64,
) -> Stage {
    if ctx.mint.data@.len() == 0 {
        if !ctx.mint.is_signer {
            Stage::idle(Err(MetadataError::MintIsNotSigner))
        } else {
            match ctx.spl_token_program {
                None => Stage::idle(Err(MetadataError::MissingSplTokenProgram)),
                Some(program) => (NewMint {
                    mint: ctx.mint.key,
                    metadata: ctx.metadata.key,
                    authority: ctx.authority.key,
                    payer: ctx.payer.key,
                    token_standard,
                    decimals,
                    token_program: program.key,
                    rent,
                }).stage(),
            }
        }
    } else {
        Stage::idle(validate_mint_spec(ctx.mint.data@, ctx.metadata.key, token_standard))
    }
}

/// The balance of an account after `amount` was added to it, as far as a
/// balance goes.
pub open spec fn raised(balance: u64, amount: int) -> u64 {
    if balance + amount > u64::MAX {
        u64::MAX
    } else {
        (balance + amount) as u64
    }
}

/// The metadata account: it has to be the canonical metadata account of
/// the mint, and the asset data have to be within their bounds; then it is
/// allocated with what the levy left in it.
pub open spec fn metadata_stage(
    program_id: Address,
    ctx: CreateAccounts,
    asset: AssetData,
    rent: u64,
) -> Stage {
    match canonical(metadata_seeds(program_id, ctx.mint.key), program_id) {
        None => Stage::idle(Err(MetadataError::BumpExhausted)),
        Some((pda, bump)) => if pda != ctx.metadata.key {
            Stage::idle(Err(MetadataError::InvalidSeeds))
        } else if bounds_spec(asset.data()) is Err {
            Stage::idle(bounds_spec(asset.data()))
        } else {
            Stage {
                effects: allocation(
                    ctx.metadata.key,
                    raised(ctx.metadata.lamports, levied(rent)),
                    ctx.payer.key,
                    MAX_METADATA_LEN,
                    rent,
                    program_id,
                ),
                result: Ok(()),
            }
        },
    }
}

/// The master edition of a non-fungible asset: it needs a print supply,
/// its account, which has to be the canonical master edition of the mint,
/// and the token program; then its account is allocated. Another asset
/// has none.
pub open spec fn edition_stage(
    program_id: Address,
    ctx: CreateAccounts,
    token_standard: TokenStandard,
    print_supply: Option<PrintSupply>,
    rent: u64,
) -> Stage {
    if !token_standard.is_non_fungible() {
        Stage::idle(Ok(()))
    } else if print_supply is None {
        Stage::idle(Err(MetadataError::MissingPrintSupply))
    } else {
        match ctx.master_edition {
            None => Stage::idle(Err(MetadataError::MissingMasterEditionAccount)),
            Some(edition) => if ctx.spl_token_program is None {
                Stage::idle(Err(MetadataError::MissingSplTokenProgram))
            } else {
                match canonical(edition_seeds(program_id, ctx.mint.key), program_id) {
                    None => Stage::idle(Err(MetadataError::BumpExhausted)),
                    Some((pda, bump)) => if pda != edition.key {
                        Stage::idle(Err(MetadataError::InvalidSeeds))
                    } else {
                        Stage {
                            effects: allocation(
                                edition.key,
                                edition.lamports,
                                ctx.payer.key,
                                MAX_MASTER_EDITION_LEN,
                                rent,
                                program_id,
                            ),
                            result: Ok(()),
                        }
                    },
                }
            },
        }
    }
}

/// The work up to and with the mint.
pub open spec fn until_mint(ctx: CreateAccounts, args: CreateArgs, rent: RentExemption) -> Stage {
    standard_stage(args.asset().token_standard).and_next(
        levy_stage(ctx.payer.key, ctx.payer.lamports, ctx.metadata.key, rent.metadata),
    ).and_next(mint_stage(ctx, args.asset().token_standard, args.mint_decimals(), rent.mint))
}

/// The work up to and with the metadata account.
pub open spec fn until_metadata(
    program_id: Address,
    ctx: CreateAccounts,
    args: CreateArgs,
    rent: RentExemption,
) -> Stage {
    until_mint(ctx, args, rent).and_next(metadata_stage(program_id, ctx, args.asset(), rent.metadata))
}

/// The whole of the work, in its order: the token standard is looked at,
/// the fee is levied, the mint is made or validated, the metadata account
/// is allocated, and the master edition is.
pub open spec fn create_stage(
    program_id: Address,
    ctx: CreateAccounts,
    args: CreateArgs,
    rent: RentExemption,
) -> Stage {
    until_metadata(program_id, ctx, args, rent).and_next(
        edition_stage(
            program_id,
            ctx,
            args.asset().token_standard,
            args.prints(),
            rent.master_edition,
        ),
    )
}

// ---------------------------------------------------------------- the records

/// The record that is written into a new metadata account: the asset data
/// with padded strings, no sale so far, and neither token standard nor
/// programmable configuration yet.
pub open spec fn initial_record(
    update_authority: Address,
    mint: Address,
    asset: AssetData,
) -> MetadataView {
    MetadataView {
        key: Key::MetadataV1,
        update_authority,
        mint,
        data: puffed(asset.data()),
        primary_sale_happened: false,
        is_mutable: asset.is_mutable,
        edition_nonce: None,
        token_standard: None,
        collection: asset.collection,
        uses: asset.uses,
        collection_details: asset.collection_details,
        programmable_config: None,
    }
}

/// The record with what completes it: the token standard, whether the
/// asset was sold, and for a programmable asset its rule set.
pub open spec fn completed(record: MetadataView, asset: AssetData) -> MetadataView {
    MetadataView {
        token_standard: Some(asset.token_standard),
        primary_sale_happened: asset.primary_sale_happened,
        programmable_config: if asset.token_standard == TokenStandard::ProgrammableNonFungible {
            Some(ProgrammableConfig::V1 { rule_set: asset.rule_set })
        } else {
            record.programmable_config
        },
        ..record
    }
}

/// The record that the metadata account holds in the end.
pub open spec fn final_record(ctx: CreateAccounts, asset: AssetData) -> MetadataView {
    completed(initial_record(ctx.update_authority.key, ctx.mint.key, asset), asset)
}

/// The data of the metadata account in the end: a metadata account of
/// zeros over which the initial and then the completed record were
/// written, with the fee marked as paid.
pub open spec fn final_metadata(ctx: CreateAccounts, asset: AssetData) -> Seq<u8> {
    with_metadata(
        with_metadata(
            zeros(MAX_METADATA_LEN as nat),
            initial_record(ctx.update_authority.key, ctx.mint.key, asset),
        ),
        final_record(ctx, asset),
    ).update(METADATA_FEE_FLAG_INDEX as int, FEE_FLAG_SET)
}

/// Writes the record of an asset into the data of its new metadata
/// account. Asset data beyond their bounds are refused, and so is an
/// account shorter than a metadata account; the data then stay as they
/// are.
pub fn write_metadata(
    data: &mut Vec<u8>,
    update_authority: &Address,
    mint: &Address,
    asset: &AssetData,
) -> (r: Result<(), MetadataError>)
    ensures
        match bounds_spec(asset.data()) {
            Err(e) => r == Err::<(), MetadataError>(e) && final(data)@ == old(data)@,
            Ok(_) => if old(data)@.len() >= MAX_METADATA_LEN {
                r == Ok::<(), MetadataError>(()) && final(data)@ == with_metadata(
                    old(data)@,
                    initial_record(*update_authority, *mint, *asset),
                )
            } else {
                r == Err::<(), MetadataError>(MetadataError::MalformedAccount) && final(data)@
                    == old(data)@
            },
        },
{
    let asset_data = asset.as_data();
    if let Err(e) = asset_data.check_bounds() {
        return Err(e);
    }
    proof {
        lemma_puffed_fits(asset.data());
    }
    let record = Metadata {
        key: Key::MetadataV1,
        update_authority: *update_authority,
        mint: *mint,
        data: asset_data.puffed_out(),
        primary_sale_happened: false,
        is_mutable: asset.is_mutable,
        edition_nonce: None,
        token_standard: None,
        collection: asset.collection,
        uses: asset.uses,
        collection_details: asset.collection_details,
        programmable_config: None,
    };
    assert(record@ == initial_record(*update_authority, *mint, *asset));
    record.save(data)
}

/// What [`complete_metadata`] does to the data of a metadata account.
pub open spec fn complete_metadata_spec(
    before: Seq<u8>,
    asset: AssetData,
    r: Result<(), MetadataError>,
    after: Seq<u8>,
) -> bool {
    match dec_metadata(before) {
        None => r == Err::<(), MetadataError>(MetadataError::MalformedAccount) && after == before,
        Some((record, rest)) => match completed(record, asset).check() {
            Err(e) => r == Err::<(), MetadataError>(e) && after == before,
            Ok(_) => if before.len() >= MAX_METADATA_LEN {
                r == Ok::<(), MetadataError>(()) && after == with_metadata(
                    before,
                    completed(record, asset),
                )
            } else {
                r == Err::<(), MetadataError>(MetadataError::MalformedAccount) && after == before
            },
        },
    }
}

/// Completes the record in the data of a metadata account: reads it,
/// gives it token standard, sale and, for a programmable asset, rule set,
/// and writes it back. Where that fails the data stay as they are.
pub fn complete_metadata(data: &mut Vec<u8>, asset: &AssetData) -> (r: Result<(), MetadataError>)
    ensures
        complete_metadata_spec(old(data)@, *asset, r, final(data)@),
{
    let mut metadata = match Metadata::from_bytes(data.as_slice()) {
        Ok(m) => m,
        Err(e) => {
            return Err(e);
        },
    };
    let ghost before = metadata@;
    metadata.token_standard = Some(asset.token_standard);
    metadata.primary_sale_happened = asset.primary_sale_happened;
    if asset.token_standard.programmable() {
        metadata.programmable_config = Some(ProgrammableConfig::V1 { rule_set: asset.rule_set });
    }
    assert(metadata@ == completed(before, *asset));
    metadata.save(data)
}

/// The data of the master edition account in the end: a master edition
/// account of zeros over which the record of a master edition without
/// prints was written, and marked where the asset is programmable.
pub open spec fn final_edition(token_standard: TokenStandard, print_supply: PrintSupply) -> Seq<
    u8,
> {
    let written = with_master_edition(
        zeros(MAX_MASTER_EDITION_LEN as nat),
        print_supply.max_supply(),
    );
    if token_standard == TokenStandard::ProgrammableNonFungible {
        written.update(
            TOKEN_STANDARD_INDEX as int,
            TokenStandard::ProgrammableNonFungible.code(),
        )
    } else {
        written
    }
}

// ---------------------------------------------------------------- the plan

/// What the program tells of its work without failing.
#[derive(Clone, Copy, Debug, PartialEq, Eq)]
pub enum Notice {
    /// A print supply was given for an asset that has no master edition.
    PrintSupplyIgnored,
}

impl Notice {
    /// The line that the host logs.
    pub fn message(&self) -> (r: &'static str)
        ensures
            r@ == "Ignoring print supply for selected token standard"@,
    {
        "Ignoring print supply for selected token standard"
    }
}

/// The data of the accounts of the program after the instruction.
#[derive(Debug, PartialEq, Eq)]
pub struct Created {
    /// The data of the metadata account.
    pub metadata: Vec<u8>,
    /// The data of the master edition account, for a non-fungible asset.
    pub master_edition: Option<Vec<u8>>,
}

/// What the host is to do for the instruction: invoke the instructions in
/// their order and end with the first that fails; log the notices; and
/// once every instruction has succeeded, end as the outcome says: with its
/// failure, or with its data written into the accounts.
#[derive(Debug, PartialEq, Eq)]
pub struct CreatePlan {
    pub instructions: Vec<Instruction>,
    /// The seeds by which the program signs for the metadata account.
    pub metadata_signer_seeds: Option<Vec<Vec<u8>>>,
    /// The seeds by which the program signs for the master edition.
    pub master_edition_signer_seeds: Option<Vec<Vec<u8>>>,
    pub notices: Vec<Notice>,
    pub outcome: Result<Created, MetadataError>,
}

/// The view of optional bytes.
pub open spec fn bytes_view(v: Option<Vec<u8>>) -> Option<Seq<u8>> {
    match v {
        Some(x) => Some(x@),
        None => None,
    }
}

/// The view of optional seeds.
pub open spec fn signer_view(v: Option<Vec<Vec<u8>>>) -> Option<Seq<Seq<u8>>> {
    match v {
        Some(x) => Some(seeds_view(x@)),
        None => None,
    }
}

/// The seeds with their canonical bump seed, by which a program signs for
/// the address that they derive.
pub open spec fn signer_seeds(seeds: Seq<Seq<u8>>, program_id: Address) -> Option<Seq<Seq<u8>>> {
    match canonical(seeds, program_id) {
        Some((pda, bump)) => Some(with_bump(seeds, bump)),
        None => None,
    }
}

/// The master edition is looked for: the asset is non-fungible, and print
/// supply, master edition account and token program are there.
pub open spec fn edition_sought(ctx: CreateAccounts, args: CreateArgs) -> bool {
    &&& args.asset().token_standard.is_non_fungible()
    &&& args.prints() is Some
    &&& ctx.master_edition is Some
    &&& ctx.spl_token_program is Some
}

/// A print supply that is given for an asset without master edition is
/// ignored, and the host is told so.
pub open spec fn notices_of(
    program_id: Address,
    ctx: CreateAccounts,
    args: CreateArgs,
    rent: RentExemption,
) -> Seq<Notice> {
    if until_metadata(program_id, ctx, args, rent).result is Ok
        && !args.asset().token_standard.is_non_fungible() && args.prints() is Some {
        seq![Notice::PrintSupplyIgnored]
    } else {
        Seq::<Notice>::empty()
    }
}

/// `plan` is the plan of the instruction for these accounts and arguments.
pub open spec fn created(
    program_id: Address,
    ctx: CreateAccounts,
    args: CreateArgs,
    rent: RentExemption,
    plan: CreatePlan,
) -> bool {
    let stage = create_stage(program_id, ctx, args, rent);
    let asset = args.asset();
    &&& perform(plan.instructions@, stage.effects)
    &&& plan.notices@ == notices_of(program_id, ctx, args, rent)
    &&& signer_view(plan.metadata_signer_seeds) == if until_mint(ctx, args, rent).result is Ok {
        signer_seeds(metadata_seeds(program_id, ctx.mint.key), program_id)
    } else {
        None
    }
    &&& signer_view(plan.master_edition_signer_seeds) == if until_metadata(
        program_id,
        ctx,
        args,
        rent,
    ).result is Ok && edition_sought(ctx, args) {
        signer_seeds(edition_seeds(program_id, ctx.mint.key), program_id)
    } else {
        None
    }
    &&& match plan.outcome {
        Err(e) => stage.result == Err::<(), MetadataError>(e),
        Ok(c) => {
            &&& stage.result is Ok
            &&& c.metadata@ == final_metadata(ctx, asset)
            &&& bytes_view(c.master_edition) == if asset.token_standard.is_non_fungible() {
                Some(final_edition(asset.token_standard, args.prints()->0))
            } else {
                None
            }
        },
    }
}

/// The initial record can be stored, and is read back as it was stored;
/// the completed record can be stored too.
proof fn lemma_initial_record(update_authority: Address, mint: Address, asset: AssetData)
    requires
        bounds_spec(asset.data()) is Ok,
    ensures
        initial_record(update_authority, mint, asset).check() is Ok,
        completed(initial_record(update_authority, mint, asset), asset).check() is Ok,
        dec_metadata(
            with_metadata(
                zeros(MAX_METADATA_LEN as nat),
                initial_record(update_authority, mint, asset),
            ),
        ) matches Some((v, rest)) && v == initial_record(update_authority, mint, asset),
{
    lemma_puffed_fits(asset.data());
    let v = initial_record(update_authority, mint, asset);
    lemma_metadata_round_trip(
        v,
        zeros(MAX_METADATA_LEN as nat).skip(v.encoding().len() as int),
    );
}

/// Plans the creation of the metadata of a mint: the fee is levied, the
/// mint is made where its account is empty, and validated where it is not,
/// the metadata account is allocated and written, a non-fungible asset
/// gets its master edition, and the metadata are completed and marked as
/// paid for.
pub fn create_v1(
    program_id: &Address,
    ctx: &CreateAccounts,
    args: &CreateArgs,
    rent: &RentExemption,
) -> (r: CreatePlan)
    ensures
        created(*program_id, *ctx, *args, *rent, r),
{
    let mut instructions: Vec<Instruction> = Vec::new();
    let mut metadata_signer_seeds: Option<Vec<Vec<u8>>> = None;
    let mut master_edition_signer_seeds: Option<Vec<Vec<u8>>> = None;
    let mut notices: Vec<Notice> = Vec::new();
    let outcome = run(
        program_id,
        ctx,
        args,
        rent,
        &mut instructions,
        &mut metadata_signer_seeds,
        &mut master_edition_signer_seeds,
        &mut notices,
    );
    CreatePlan { instructions, metadata_signer_seeds, master_edition_signer_seeds, notices, outcome }
}

#[verifier::rlimit(60)]
fn run(
    program_id: &Address,
    ctx: &CreateAccounts,
    args: &CreateArgs,
    rent: &RentExemption,
    instructions: &mut Vec<Instruction>,
    metadata_signer_seeds: &mut Option<Vec<Vec<u8>>>,
    master_edition_signer_seeds: &mut Option<Vec<Vec<u8>>>,
    notices: &mut Vec<Notice>,
) -> (outcome: Result<Created, MetadataError>)
    requires
        old(instructions)@.len() == 0,
        old(notices)@.len() == 0,
        *old(metadata_signer_seeds) is None,
        *old(master_edition_signer_seeds) is None,
    ensures
        created(
            *program_id,
            *ctx,
            *args,
            *rent,
            CreatePlan {
                instructions: *final(instructions),
                metadata_signer_seeds: *final(metadata_signer_seeds),
                master_edition_signer_seeds: *final(master_edition_signer_seeds),
                notices: *final(notices),
                outcome,
            },
        ),
{
    let CreateArgs::V1 { asset_data, decimals, print_supply } = args;
    let token_standard = asset_data.token_standard;
    let ghost s0 = standard_stage(token_standard);
    let ghost s1 = s0.and_next(
        levy_stage(ctx.payer.key, ctx.payer.lamports, ctx.metadata.key, rent.metadata),
    );
    let ghost s2 = until_mint(*ctx, *args, *rent);
    let ghost s3 = until_metadata(*program_id, *ctx, *args, *rent);
    let ghost s4 = create_stage(*program_id, *ctx, *args, *rent);
    assert(perform(instructions@, Seq::<Effect>::empty()));
    assert(notices@ =~= Seq::<Notice>::empty());
    assert(args.asset() == *asset_data);
    assert(args.mint_decimals() == *decimals);
    assert(args.prints() == *print_supply);

    // a print is made from its master edition, not created
    if token_standard.edition() {
        return Err(MetadataError::InvalidTokenStandard);
    }
    // the fee comes first: it funds the metadata account

    match levy(&ctx.payer.key, ctx.payer.lamports, &ctx.metadata.key, rent.metadata) {
        Err(e) => {
            return Err(e);
        },
        Ok(ix) => {
            proof {
                lemma_perform_push(instructions@, Seq::<Effect>::empty(), ix, s1.effects[0]);
                assert(Seq::<Effect>::empty().push(s1.effects[0]) =~= s1.effects);
            }
            instructions.push(ix);
        },
    }
    assert(perform(instructions@, s1.effects));

    // an empty account is that of a mint to be made
    if ctx.mint.data.len() == 0 {
        if !ctx.mint.is_signer {
            return Err(MetadataError::MintIsNotSigner);
        }
        let spl_token_program = match ctx.spl_token_program {
            Some(program) => program,
            None => {
                return Err(MetadataError::MissingSplTokenProgram);
            },
        };
        let mut plan = create_mint(
            &ctx.mint.key,
            &ctx.metadata.key,
            &ctx.authority.key,
            &ctx.payer.key,
            token_standard,
            *decimals,
            &spl_token_program.key,
            rent.mint,
        );
        proof {
            lemma_perform_add(
                instructions@,
                s1.effects,
                plan.instructions@,
                mint_stage(*ctx, token_standard, *decimals, rent.mint).effects,
            );
        }
        instructions.append(&mut plan.instructions);
        if let Err(e) = plan.outcome {
            return Err(e);
        }
    } else {
        if let Err(e) = validate_mint(ctx.mint.data.as_slice(), &ctx.metadata.key, token_standard) {
            return Err(e);
        }
        assert(s2.effects =~= s1.effects);
    }
    assert(s2.result is Ok);
    assert(perform(instructions@, s2.effects));

    // the metadata account
    let seeds = metadata_seed_list(program_id, &ctx.mint.key);
    let (pda, bump) = match find_program_address(&seeds, program_id) {
        Some(found) => found,
        None => {
            return Err(MetadataError::BumpExhausted);
        },
    };
    *metadata_signer_seeds = Some(push_bump(seeds, bump));
    if !pda.same(&ctx.metadata.key) {
        return Err(MetadataError::InvalidSeeds);
    }
    if let Err(e) = asset_data.as_data().check_bounds() {
        return Err(e);
    }
    let amount: u64 = CREATE_FEE + rent.metadata;
    let balance = match ctx.metadata.lamports.checked_add(amount) {
        Some(b) => b,
        None => u64::MAX,
    };
    let mut allocation = allocate_or_top_up(
        &ctx.metadata.key,
        balance,
        &ctx.payer.key,
        MAX_METADATA_LEN,
        rent.metadata,
        program_id,
    );
    proof {
        lemma_perform_add(
            instructions@,
            s2.effects,
            allocation@,
            metadata_stage(*program_id, *ctx, *asset_data, rent.metadata).effects,
        );
        lemma_initial_record(ctx.update_authority.key, ctx.mint.key, *asset_data);
    }
    instructions.append(&mut allocation);
    assert(s3.result is Ok);
    assert(perform(instructions@, s3.effects));

    let mut metadata_data = zeroed(MAX_METADATA_LEN);
    if let Err(e) = write_metadata(
        &mut metadata_data,
        &ctx.update_authority.key,
        &ctx.mint.key,
        asset_data,
    ) {
        return Err(e);
    }
    // the master edition, for a non-fungible asset only

    let mut master_edition_data: Option<Vec<u8>> = None;
    if token_standard.non_fungible() {
        let print_supply = match print_supply {
            Some(p) => *p,
            None => {
                return Err(MetadataError::MissingPrintSupply);
            },
        };
        let master_edition = match ctx.master_edition {
            Some(account) => account,
            None => {
                return Err(MetadataError::MissingMasterEditionAccount);
            },
        };
        if ctx.spl_token_program.is_none() {
            return Err(MetadataError::MissingSplTokenProgram);
        }
        let seeds = edition_seed_list(program_id, &ctx.mint.key);
        let (pda, bump) = match find_program_address(&seeds, program_id) {
            Some(found) => found,
            None => {
                return Err(MetadataError::BumpExhausted);
            },
        };
        *master_edition_signer_seeds = Some(push_bump(seeds, bump));
        if !pda.same(&master_edition.key) {
            return Err(MetadataError::InvalidSeeds);
        }
        let mut allocation = allocate_or_top_up(
            &master_edition.key,
            master_edition.lamports,
            &ctx.payer.key,
            MAX_MASTER_EDITION_LEN,
            rent.master_edition,
            program_id,
        );
        proof {
            lemma_perform_add(
                instructions@,
                s3.effects,
                allocation@,
                edition_stage(
                    *program_id,
                    *ctx,
                    token_standard,
                    Some(print_supply),
                    rent.master_edition,
                ).effects,
            );
        }
        instructions.append(&mut allocation);
        let mut edition = zeroed(MAX_MASTER_EDITION_LEN);
        if let Err(e) = write_master_edition(&mut edition, print_supply.to_option()) {
            return Err(e);
        }
        // a programmable asset is marked in the last byte of its master
        // edition

        if token_standard.programmable() {
            if let Err(e) = mark_programmable(&mut edition) {
                return Err(e);
            }
        }
        master_edition_data = Some(edition);
    } else {
        if print_supply.is_some() {
            notices.push(Notice::PrintSupplyIgnored);
            assert(notices@ =~= seq![Notice::PrintSupplyIgnored]);
        }
        assert(s4.effects =~= s3.effects);
    }
    assert(s4.result is Ok);
    assert(perform(instructions@, s4.effects));

    // the metadata are completed
    if let Err(e) = complete_metadata(&mut metadata_data, asset_data) {
        return Err(e);
    }
    // and marked as paid for

    if let Err(e) = set_fee_flag(&mut metadata_data) {
        return Err(e);
    }
    Ok(Created { metadata: metadata_data, master_edition: master_edition_data })
}

/// What [`create`] gives for a list of accounts.
pub open spec fn create_spec(
    program_id: Address,
    accounts: &[Account],
    args: CreateArgs,
    rent: RentExemption,
    plan: CreatePlan,
) -> bool {
    if accounts@.len() < 9 {
        &&& plan.instructions@.len() == 0
        &&& plan.notices@.len() == 0
        &&& plan.metadata_signer_seeds is None
        &&& plan.master_edition_signer_seeds is None
        &&& plan.outcome == Err::<Created, MetadataError>(MetadataError::NotEnoughAccounts)
    } else {
        created(program_id, context_of(program_id, accounts), args, rent, plan)
    }
}

/// Plans the creation of the metadata of a mint from the list of accounts
/// of the instruction.
///
/// The mint is made if its account is empty. A non-fungible asset needs a
/// master edition account.
pub fn create(
    program_id: &Address,
    accounts: &[Account],
    args: &CreateArgs,
    rent: &RentExemption,
) -> (r: CreatePlan)
    ensures
        create_spec(*program_id, accounts, *args, *rent, r),
{
    match CreateAccounts::to_context(program_id, accounts) {
        Ok(context) => match args {
            CreateArgs::V1 { .. } => create_v1(program_id, &context, args, rent),
        },
        Err(e) => CreatePlan {
            instructions: Vec::new(),
            metadata_signer_seeds: None,
            master_edition_signer_seeds: None,
            notices: Vec::new(),
            outcome: Err(e),
        },
    }
}

} // verus!
