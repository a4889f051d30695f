//! What holds of the library as a whole: of its encodings, its derived
//! addresses, and of every plan that creates the metadata of a mint.

use crate::accounts::{AssetData, CreateAccounts, CreateArgs, RentExemption};
use crate::address::{program_id, Address};
use crate::codec::zeros;
use crate::create::{
    bytes_view, create_stage, created, edition_seeds, final_edition, final_metadata, final_record,
    initial_record, metadata_seeds, standard_stage, until_metadata, until_mint, CreatePlan,
    Created,
};
use crate::error::MetadataError;
use crate::fee::{fee_paid, levied, levy_stage, FEE_FLAG_SET, METADATA_FEE_FLAG_INDEX};
use crate::holder_delegate_record::{
    holder_delegate_seeds, lemma_holder_delegate_round_trip, HolderDelegateRecord,
    HolderDelegateRoleSeed,
};
use crate::instruction::{performs, Effect};
use crate::master_edition::{
    lemma_mark_keeps_record, lemma_master_edition_round_trip, MasterEdition,
    MAX_MASTER_EDITION_LEN, TOKEN_STANDARD_INDEX,
};
use crate::metadata::{
    bounds_spec, dec_metadata, lemma_metadata_round_trip, lemma_puffed_fits, with_metadata,
    MetadataView, MAX_METADATA_LEN,
};
use crate::mint::{
    all_allowed, check_mint_spec, closes_to, is_allowed_extension, is_single, mint_of, points_to,
    resolved_decimals, MintView, NewMint,
};
use crate::pda::{
    canonical, found, lemma_found_is_canonical, program_address, with_bump, PdaError,
};
use crate::state::{Key, PrintSupply, TokenStandard};
use vstd::prelude::*;

verus! {

// ---------------------------------------------------------------- encodings

/// A metadata record that can be stored decodes from its encoding to
/// itself.
pub proof fn metadata_round_trip(v: MetadataView)
    requires
        v.valid(),
    ensures
        dec_metadata(v.encoding()) == Some((v, Seq::<u8>::empty())),
{
    lemma_metadata_round_trip(v, Seq::empty());
    assert(v.encoding() + Seq::<u8>::empty() =~= v.encoding());
}

/// The bytes that a metadata record is stored as decode to a record that
/// is stored as the same bytes.
pub proof fn metadata_bytes_round_trip(v: MetadataView, bytes: Seq<u8>)
    requires
        v.valid(),
        bytes == v.encoding(),
    ensures
        dec_metadata(bytes) matches Some((w, rest)) && w.encoding() == bytes,
{
    metadata_round_trip(v);
}

/// A master edition decodes from its encoding to itself.
pub proof fn master_edition_round_trip(v: MasterEdition)
    requires
        v.key == Key::MasterEditionV2,
    ensures
        MasterEdition::decoding(v.encoding()) == Some(v),
{
    lemma_master_edition_round_trip(v, Seq::empty());
    assert(v.encoding() + Seq::<u8>::empty() =~= v.encoding());
}

/// A holder delegate record decodes from its encoding to itself, and its
/// encoding has 98 bytes.
pub proof fn holder_delegate_round_trip(v: HolderDelegateRecord)
    requires
        v.key == Key::HolderDelegate,
    ensures
        HolderDelegateRecord::decoding(v.encoding()) == Some(v),
        v.encoding().len() == 98,
{
    lemma_holder_delegate_round_trip(v, Seq::empty());
    assert(v.encoding() + Seq::<u8>::empty() =~= v.encoding());
}

// ---------------------------------------------------------------- derived addresses

/// The address that a search finds is the address that the seeds derive
/// with the bump seed that the search finds.
pub proof fn found_address_is_derived(
    seeds: Seq<Seq<u8>>,
    program_id: Address,
    address: Address,
    bump: u8,
)
    requires
        found(seeds, program_id, Some((address, bump))),
    ensures
        program_address(with_bump(seeds, bump), program_id) == Ok::<Address, PdaError>(address),
{
}

/// Two searches with the same seeds find the same.
pub proof fn search_is_deterministic(
    seeds: Seq<Seq<u8>>,
    program_id: Address,
    first: Option<(Address, u8)>,
    second: Option<(Address, u8)>,
)
    requires
        found(seeds, program_id, first),
        found(seeds, program_id, second),
    ensures
        first == second,
{
    lemma_found_is_canonical(seeds, program_id, first);
    lemma_found_is_canonical(seeds, program_id, second);
}

/// The address of a holder delegate record that is found is the address
/// that is created with the bump seed that is found.
pub proof fn holder_delegate_find_then_create(
    mint: Address,
    delegate_role: HolderDelegateRoleSeed,
    owner: Address,
    delegate: Address,
    address: Address,
    bump: u8,
)
    requires
        found(
            holder_delegate_seeds(mint, delegate_role, owner, delegate),
            program_id(),
            Some((address, bump)),
        ),
    ensures
        program_address(
            with_bump(holder_delegate_seeds(mint, delegate_role, owner, delegate), bump),
            program_id(),
        ) == Ok::<Address, PdaError>(address),
{
}

// ---------------------------------------------------------------- the mint

/// An extension that a non-fungible asset may not have is refused as
/// such, on a mint that is initialized and has decimals and supply of the
/// token standard.
pub proof fn other_extension_is_refused(
    mint: MintView,
    metadata: Address,
    token_standard: TokenStandard,
    i: int,
)
    requires
        token_standard.is_non_fungible(),
        mint.is_initialized,
        is_single(mint),
        token_standard == TokenStandard::ProgrammableNonFungible ==> mint.supply == 0,
        mint.extension_types matches Some(types) && 0 <= i < types.len() && !is_allowed_extension(
            types[i],
        ),
    ensures
        check_mint_spec(mint, metadata, token_standard) == Err::<(), MetadataError>(
            MetadataError::InvalidMintExtensionType,
        ),
{
}

/// A mint that the rules accept keeps every rule: it is initialized; its
/// close authority and its metadata pointer, where it has them, are the
/// metadata account; and for a non-fungible asset it has no decimals, a
/// supply of at most one, of none if the asset is programmable, and
/// extensions of the three kinds only.
pub proof fn accepted_mint_keeps_the_rules(
    mint: MintView,
    metadata: Address,
    token_standard: TokenStandard,
)
    requires
        check_mint_spec(mint, metadata, token_standard) is Ok,
    ensures
        mint.is_initialized,
        closes_to(mint, metadata),
        points_to(mint, metadata),
        token_standard.is_non_fungible() ==> is_single(mint) && mint.extension_types is Some
            && all_allowed(mint.extension_types->0),
        token_standard == TokenStandard::ProgrammableNonFungible ==> mint.supply == 0,
{
}

/// A new mint is made as the rules want it: its authorities are the
/// authority, a non-fungible asset has no decimals, and with the token
/// program with extensions close authority and metadata pointer are the
/// metadata account, and nobody may change the pointer.
pub proof fn new_mint_keeps_the_rules(new: NewMint)
    requires
        new.stage().result is Ok,
    ensures
        resolved_decimals(new.token_standard, new.decimals) matches Ok(d) && new.stage().effects.last()
            == new.initialized(d) && (new.token_standard.is_non_fungible() ==> d == 0),
        new.extended() ==> new.stage().effects[1] == new.close_authority() && new.stage().effects[2]
            == new.pointer(),
        !new.token_standard.is_edition(),
{
}

// ---------------------------------------------------------------- the plan

/// The metadata account that a plan ends with holds the final record, and
/// says that the fee was paid.
pub proof fn final_metadata_holds_the_record(ctx: CreateAccounts, asset: AssetData)
    requires
        bounds_spec(asset.data()) is Ok,
    ensures
        final_metadata(ctx, asset).len() == MAX_METADATA_LEN,
        fee_paid(final_metadata(ctx, asset)),
        dec_metadata(final_metadata(ctx, asset)) matches Some((v, rest)) && v == final_record(
            ctx,
            asset,
        ),
{
    lemma_puffed_fits(asset.data());
    let first = initial_record(ctx.update_authority.key, ctx.mint.key, asset);
    let last = final_record(ctx, asset);
    let base = zeros(MAX_METADATA_LEN as nat);
    lemma_metadata_round_trip(first, base.skip(first.encoding().len() as int));
    let written = with_metadata(base, first);
    let rest = written.skip(last.encoding().len() as int);
    lemma_metadata_round_trip(last, rest);
    let marked = rest.update(
        METADATA_FEE_FLAG_INDEX - last.encoding().len(),
        FEE_FLAG_SET,
    );
    lemma_metadata_round_trip(last, marked);
    assert(final_metadata(ctx, asset) =~= last.encoding() + marked);
}

/// The master edition account that a plan ends with holds a master
/// edition without prints, with the print supply of the arguments.
pub proof fn final_edition_holds_the_record(
    token_standard: TokenStandard,
    print_supply: PrintSupply,
)
    ensures
        final_edition(token_standard, print_supply).len() == MAX_MASTER_EDITION_LEN,
        MasterEdition::decoding(final_edition(token_standard, print_supply)) == Some(
            MasterEdition {
                key: Key::MasterEditionV2,
                supply: 0,
                max_supply: print_supply.max_supply(),
            },
        ),
        token_standard == TokenStandard::ProgrammableNonFungible ==> final_edition(
            token_standard,
            print_supply,
        )[TOKEN_STANDARD_INDEX as int] == 4,
{
    let base = zeros(MAX_MASTER_EDITION_LEN as nat);
    lemma_mark_keeps_record(base, print_supply.max_supply());
    let v = MasterEdition { key: Key::MasterEditionV2, supply: 0, max_supply: print_supply.max_supply() };
    lemma_master_edition_round_trip(v, base.skip(v.encoding().len() as int));
}

/// What holds after every creation that succeeds.
///
/// The metadata record is that of the mint, its token standard is that of
/// the arguments and no print, and it has a programmable configuration
/// exactly if the asset is programmable. The metadata account is the
/// canonical one of the mint, says that the fee was paid, and the first
/// instruction of the plan is the levy of fee and rent. A mint that was
/// there keeps the rules of the token standard, and a mint that is made is
/// made by the plan of a new mint. A non-fungible asset has its master
/// edition in the canonical master edition account of the mint.
pub proof fn creation_keeps_the_invariants(
    program_id: Address,
    ctx: CreateAccounts,
    args: CreateArgs,
    rent: RentExemption,
    plan: CreatePlan,
)
    requires
        created(program_id, ctx, args, rent, plan),
        plan.outcome is Ok,
    ensures
        dec_metadata(plan.outcome->Ok_0.metadata@) matches Some((record, rest)) && {
            &&& record == final_record(ctx, args.asset())
            &&& record.mint == ctx.mint.key
            &&& record.token_standard == Some(args.asset().token_standard)
            &&& record.programmable_config is Some <==> args.asset().token_standard
                == TokenStandard::ProgrammableNonFungible
        },
        !args.asset().token_standard.is_edition(),
        canonical(metadata_seeds(program_id, ctx.mint.key), program_id) matches Some((pda, bump))
            && pda == ctx.metadata.key,
        fee_paid(plan.outcome->Ok_0.metadata@),
        plan.instructions@.len() >= 1 && performs(
            plan.instructions@[0],
            Effect::Transfer {
                from: ctx.payer.key,
                to: ctx.metadata.key,
                lamports: levied(rent.metadata) as u64,
            },
        ),
        ctx.mint.data@.len() > 0 ==> (mint_of(ctx.mint.data@) matches Ok(mint) && check_mint_spec(
            mint,
            ctx.metadata.key,
            args.asset().token_standard,
        ) is Ok),
        ctx.mint.data@.len() == 0 ==> ctx.mint.is_signer && (ctx.spl_token_program matches Some(
            program,
        ) && (NewMint {
            mint: ctx.mint.key,
            metadata: ctx.metadata.key,
            authority: ctx.authority.key,
            payer: ctx.payer.key,
            token_standard: args.asset().token_standard,
            decimals: args.mint_decimals(),
            token_program: program.key,
            rent: rent.mint,
        }).stage().result is Ok),
        args.asset().token_standard.is_non_fungible() ==> {
            &&& ctx.master_edition matches Some(edition) && canonical(
                edition_seeds(program_id, ctx.mint.key),
                program_id,
            ) matches Some((pda, bump)) && pda == edition.key
            &&& args.prints() matches Some(print_supply) && bytes_view(
                plan.outcome->Ok_0.master_edition,
            ) matches Some(data) && MasterEdition::decoding(data) == Some(
                MasterEdition {
                    key: Key::MasterEditionV2,
                    supply: 0,
                    max_supply: print_supply.max_supply(),
                },
            )
        },
        !args.asset().token_standard.is_non_fungible() ==> plan.outcome->Ok_0.master_edition is None,
{
    let asset = args.asset();
    let s0 = standard_stage(asset.token_standard);
    let s1 = s0.and_next(
        levy_stage(ctx.payer.key, ctx.payer.lamports, ctx.metadata.key, rent.metadata),
    );
    let s2 = until_mint(ctx, args, rent);
    let s3 = until_metadata(program_id, ctx, args, rent);
    let s4 = create_stage(program_id, ctx, args, rent);
    assert(s4.result is Ok);
    assert(s3.result is Ok);
    assert(s2.result is Ok);
    assert(s1.result is Ok);
    assert(s0.result is Ok);
    assert(bounds_spec(asset.data()) is Ok);
    final_metadata_holds_the_record(ctx, asset);
    assert(s1.effects.len() == 1);
    assert(s4.effects[0] == s1.effects[0]);
    if asset.token_standard.is_non_fungible() {
        final_edition_holds_the_record(asset.token_standard, args.prints()->0);
    }
}

/// A creation whose levy fails fails, whatever else holds of it: no
/// metadata account says that the fee was paid without the fee.
pub proof fn no_mark_without_levy(
    program_id: Address,
    ctx: CreateAccounts,
    args: CreateArgs,
    rent: RentExemption,
    plan: CreatePlan,
)
    requires
        created(program_id, ctx, args, rent, plan),
        ctx.payer.lamports < levied(rent.metadata),
    ensures
        plan.outcome is Err,
        plan.instructions@.len() == 0,
{
}

/// A creation of a print fails before anything is asked of the host.
pub proof fn print_is_rejected(
    program_id: Address,
    ctx: CreateAccounts,
    args: CreateArgs,
    rent: RentExemption,
    plan: CreatePlan,
)
    requires
        created(program_id, ctx, args, rent, plan),
        args.asset().token_standard.is_edition(),
    ensures
        plan.outcome == Err::<Created, MetadataError>(
            MetadataError::InvalidTokenStandard,
        ),
        plan.instructions@.len() == 0,
{
}

} // verus!
