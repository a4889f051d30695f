use solana_program::instruction::Instruction as HostInstruction;
use solana_program::program_option::COption;
use solana_program::program_pack::Pack;
use solana_program::pubkey::Pubkey;
use solana_program::system_instruction;
use spl_token_2022::state::Mint as HostMint;
use token_metadata::accounts::{Account, AssetData, CreateAccounts, CreateArgs, RentExemption};
use token_metadata::address::{program_id, Address};
use token_metadata::create::{
    allocate_or_top_up, create, create_v1, find_master_edition_pda, find_metadata_pda,
    CreatePlan, Notice,
};
use token_metadata::error::MetadataError;
use token_metadata::fee::{has_fee_flag, levy, set_fee_flag, CREATE_FEE, METADATA_FEE_FLAG_INDEX};
use token_metadata::instruction::{spl_token_2022_id, spl_token_id, Instruction};
use token_metadata::master_edition::{
    mark_programmable, write_master_edition, MasterEdition, MAX_MASTER_EDITION_LEN,
    TOKEN_STANDARD_INDEX,
};
use token_metadata::metadata::{Metadata, MAX_METADATA_LEN};
use token_metadata::records::{Collection, CollectionDetails, Creator, ProgrammableConfig};
use token_metadata::state::{Key, PrintSupply, TokenStandard};

const RENT: RentExemption =
    RentExemption { metadata: 5_616_720, mint: 1_461_600, master_edition: 2_853_600 };

fn key(n: u8) -> Address {
    Address::new([n; 32])
}

fn host(a: &Address) -> Pubkey {
    Pubkey::new_from_array(a.bytes)
}

fn as_host(ix: &Instruction) -> HostInstruction {
    HostInstruction {
        program_id: host(&ix.program_id),
        accounts: ix
            .accounts
            .iter()
            .map(|m| solana_program::instruction::AccountMeta {
                pubkey: host(&m.pubkey),
                is_signer: m.is_signer,
                is_writable: m.is_writable,
            })
            .collect(),
        data: ix.data.clone(),
    }
}

fn account(key: Address) -> Account {
    Account {
        key,
        lamports: 0,
        data: vec![],
        owner: Address::zero(),
        is_signer: false,
        is_writable: true,
    }
}

const MINT: u8 = 21;
const AUTHORITY: u8 = 22;
const PAYER: u8 = 23;
const UPDATE_AUTHORITY: u8 = 24;

/// The nine accounts, for a mint that is to be made by `token_program`.
fn accounts(token_program: Option<Address>, with_edition: bool) -> Vec<Account> {
    let id = program_id();
    let (metadata, _) = find_metadata_pda(&id, &key(MINT)).unwrap();
    let (edition, _) = find_master_edition_pda(&id, &key(MINT)).unwrap();
    let mut mint = account(key(MINT));
    mint.is_signer = true;
    let mut payer = account(key(PAYER));
    payer.lamports = 1_000_000_000;
    payer.is_signer = true;
    vec![
        account(metadata),
        account(if with_edition { edition } else { id }),
        mint,
        account(key(AUTHORITY)),
        payer,
        account(key(UPDATE_AUTHORITY)),
        account(Address::zero()),
        account(key(30)),
        account(token_program.unwrap_or(id)),
    ]
}

fn asset(token_standard: TokenStandard) -> AssetData {
    AssetData {
        name: "Asset".to_string(),
        symbol: "AST".to_string(),
        uri: "https://example.org/a.json".to_string(),
        seller_fee_basis_points: 250,
        creators: Some(vec![Creator { address: key(AUTHORITY), verified: false, share: 100 }]),
        primary_sale_happened: false,
        is_mutable: true,
        token_standard,
        collection: None,
        uses: None,
        collection_details: None,
        rule_set: None,
    }
}

fn args(asset_data: AssetData, decimals: Option<u8>, print_supply: Option<PrintSupply>) -> CreateArgs {
    CreateArgs::V1 { asset_data, decimals, print_supply }
}

fn existing_mint(decimals: u8, supply: u64) -> Vec<u8> {
    let mut data = vec![0u8; HostMint::LEN];
    let mint = HostMint {
        mint_authority: COption::Some(host(&key(AUTHORITY))),
        supply,
        decimals,
        is_initialized: true,
        freeze_authority: COption::None,
    };
    HostMint::pack(mint, &mut data).unwrap();
    data
}

fn failed(plan: &CreatePlan, e: MetadataError, instructions: usize) {
    assert_eq!(plan.outcome, Err(e));
    assert_eq!(plan.instructions.len(), instructions);
}

fn levy_instruction(accounts: &[Account]) -> HostInstruction {
    system_instruction::transfer(
        &host(&accounts[4].key),
        &host(&accounts[0].key),
        CREATE_FEE + RENT.metadata,
    )
}

#[test]
fn non_fungible_happy_path() {
    let program = spl_token_id();
    let accounts = accounts(Some(program), true);
    let plan = create(
        &program_id(),
        &accounts,
        &args(asset(TokenStandard::NonFungible), Some(9), Some(PrintSupply::Zero)),
        &RENT,
    );
    let created = plan.outcome.as_ref().unwrap();

    // the mint is made without decimals, whatever was asked for
    let got: Vec<HostInstruction> = plan.instructions.iter().map(as_host).collect();
    let (metadata, mint, edition) = (accounts[0].key, accounts[2].key, accounts[1].key);
    let expected = vec![
        levy_instruction(&accounts),
        system_instruction::create_account(&host(&key(PAYER)), &host(&mint), RENT.mint, 82, &host(&program)),
        spl_token_2022::instruction::initialize_mint2(
            &host(&program),
            &host(&mint),
            &host(&key(AUTHORITY)),
            Some(&host(&key(AUTHORITY))),
            0,
        )
        .unwrap(),
        system_instruction::allocate(&host(&metadata), 679),
        system_instruction::assign(&host(&metadata), &host(&program_id())),
        system_instruction::transfer(&host(&key(PAYER)), &host(&edition), RENT.master_edition),
        system_instruction::allocate(&host(&edition), 282),
        system_instruction::assign(&host(&edition), &host(&program_id())),
    ];
    assert_eq!(got, expected);

    let record = Metadata::from_bytes(&created.metadata).unwrap();
    assert_eq!(record.key, Key::MetadataV1);
    assert_eq!(record.mint, key(MINT));
    assert_eq!(record.update_authority, key(UPDATE_AUTHORITY));
    assert_eq!(record.token_standard, Some(TokenStandard::NonFungible));
    assert!(record.is_mutable);
    assert!(!record.primary_sale_happened);
    assert_eq!(record.programmable_config, None);
    assert_eq!(record.edition_nonce, None);
    assert_eq!(record.data.name.len(), 32);
    assert_eq!(record.data.name.trim_end_matches('\0'), "Asset");
    assert_eq!(record.data.symbol.trim_end_matches('\0'), "AST");
    assert_eq!(record.data.uri.trim_end_matches('\0'), "https://example.org/a.json");
    assert_eq!(record.data.seller_fee_basis_points, 250);
    assert_eq!(
        record.data.creators,
        Some(vec![Creator { address: key(AUTHORITY), verified: false, share: 100 }])
    );
    assert_eq!(created.metadata.len(), MAX_METADATA_LEN);
    assert!(has_fee_flag(&created.metadata));
    assert_eq!(created.metadata[METADATA_FEE_FLAG_INDEX], 1);

    let edition_data = created.master_edition.as_ref().unwrap();
    assert_eq!(edition_data.len(), MAX_MASTER_EDITION_LEN);
    assert_eq!(
        MasterEdition::from_bytes(edition_data),
        Ok(MasterEdition { key: Key::MasterEditionV2, supply: 0, max_supply: Some(0) })
    );
    assert_eq!(edition_data[TOKEN_STANDARD_INDEX], 0);
    assert!(plan.notices.is_empty());
}

#[test]
fn programmable_non_fungible_with_rule_set() {
    let program = spl_token_2022_id();
    let accounts = accounts(Some(program), true);
    let mut asset_data = asset(TokenStandard::ProgrammableNonFungible);
    asset_data.rule_set = Some(key(77));
    let mut rent = RENT;
    rent.mint = 2_700_000;
    let plan = create(
        &program_id(),
        &accounts,
        &args(asset_data, Some(9), Some(PrintSupply::Unlimited)),
        &rent,
    );
    let created = plan.outcome.as_ref().unwrap();
    let record = Metadata::from_bytes(&created.metadata).unwrap();
    assert_eq!(record.token_standard, Some(TokenStandard::ProgrammableNonFungible));
    assert_eq!(
        record.programmable_config,
        Some(ProgrammableConfig::V1 { rule_set: Some(key(77)) })
    );
    let edition_data = created.master_edition.as_ref().unwrap();
    assert_eq!(
        MasterEdition::from_bytes(edition_data),
        Ok(MasterEdition { key: Key::MasterEditionV2, supply: 0, max_supply: None })
    );
    assert_eq!(edition_data[TOKEN_STANDARD_INDEX], 4);
    assert!(has_fee_flag(&created.metadata));

    // the mint gets its extensions before it is initialized, without decimals
    let got: Vec<HostInstruction> = plan.instructions.iter().map(as_host).collect();
    assert_eq!(got.len(), 10);
    let (metadata, mint) = (accounts[0].key, accounts[2].key);
    assert_eq!(
        got[1],
        system_instruction::create_account(&host(&key(PAYER)), &host(&mint), 2_700_000, 270, &host(&program))
    );
    assert_eq!(
        got[2],
        spl_token_2022::instruction::initialize_mint_close_authority(
            &host(&program),
            &host(&mint),
            Some(&host(&metadata))
        )
        .unwrap()
    );
    assert_eq!(
        got[3],
        spl_token_2022::extension::metadata_pointer::instruction::initialize(
            &host(&program),
            &host(&mint),
            None,
            Some(host(&metadata))
        )
        .unwrap()
    );
    assert_eq!(
        got[4],
        spl_token_2022::instruction::initialize_mint2(
            &host(&program),
            &host(&mint),
            &host(&key(AUTHORITY)),
            Some(&host(&key(AUTHORITY))),
            0
        )
        .unwrap()
    );
}

#[test]
fn fungible_over_existing_classic_mint() {
    let mut accounts = accounts(None, false);
    accounts[2].data = existing_mint(6, 1000);
    accounts[2].is_signer = false;
    let mut asset_data = asset(TokenStandard::Fungible);
    asset_data.primary_sale_happened = true;
    asset_data.collection = Some(Collection { verified: false, key: key(60) });
    asset_data.collection_details = Some(CollectionDetails::V1 { size: 0 });
    let plan = create(&program_id(), &accounts, &args(asset_data, None, Some(PrintSupply::Zero)), &RENT);
    let created = plan.outcome.as_ref().unwrap();
    assert_eq!(created.master_edition, None);
    assert_eq!(plan.master_edition_signer_seeds, None);
    let record = Metadata::from_bytes(&created.metadata).unwrap();
    assert_eq!(record.token_standard, Some(TokenStandard::Fungible));
    assert!(record.primary_sale_happened);
    assert_eq!(record.programmable_config, None);
    assert_eq!(record.collection, Some(Collection { verified: false, key: key(60) }));
    assert_eq!(record.collection_details, Some(CollectionDetails::V1 { size: 0 }));
    assert!(has_fee_flag(&created.metadata));

    // the print supply is ignored, and the host is told so
    assert_eq!(plan.notices, vec![Notice::PrintSupplyIgnored]);
    assert_eq!(plan.notices[0].message(), "Ignoring print supply for selected token standard");

    // nothing is asked of the token program
    let got: Vec<HostInstruction> = plan.instructions.iter().map(as_host).collect();
    let metadata = accounts[0].key;
    assert_eq!(
        got,
        vec![
            levy_instruction(&accounts),
            system_instruction::allocate(&host(&metadata), 679),
            system_instruction::assign(&host(&metadata), &host(&program_id())),
        ]
    );
}

#[test]
fn fungible_without_print_supply_gives_no_notice() {
    let mut accounts = accounts(None, false);
    accounts[2].data = existing_mint(6, 1000);
    let plan = create(&program_id(), &accounts, &args(asset(TokenStandard::FungibleAsset), None, None), &RENT);
    assert!(plan.outcome.is_ok());
    assert!(plan.notices.is_empty());
}

#[test]
fn edition_variant_rejected() {
    let accounts = accounts(Some(spl_token_id()), true);
    for standard in
        [TokenStandard::NonFungibleEdition, TokenStandard::ProgrammableNonFungibleEdition]
    {
        let plan =
            create(&program_id(), &accounts, &args(asset(standard), None, Some(PrintSupply::Zero)), &RENT);
        failed(&plan, MetadataError::InvalidTokenStandard, 0);
        assert_eq!(plan.metadata_signer_seeds, None);
        assert_eq!(plan.master_edition_signer_seeds, None);
        assert!(plan.notices.is_empty());
    }
}

#[test]
fn existing_mint_is_held_against_the_rules() {
    let mut accounts = accounts(Some(spl_token_id()), true);
    accounts[2].data = existing_mint(6, 1000);
    let plan = create(
        &program_id(),
        &accounts,
        &args(asset(TokenStandard::NonFungible), None, Some(PrintSupply::Zero)),
        &RENT,
    );
    failed(&plan, MetadataError::InvalidMintForTokenStandard, 1);
    accounts[2].data = vec![1, 2, 3];
    let plan = create(&program_id(), &accounts, &args(asset(TokenStandard::Fungible), None, None), &RENT);
    failed(&plan, MetadataError::MalformedAccount, 1);
}

#[test]
fn a_payer_who_cannot_cover_fee_and_rent_fails_first() {
    let mut accounts = accounts(Some(spl_token_id()), true);
    accounts[4].lamports = CREATE_FEE + RENT.metadata - 1;
    accounts[2].is_signer = false;
    let plan = create(
        &program_id(),
        &accounts,
        &args(asset(TokenStandard::NonFungible), None, None),
        &RENT,
    );
    failed(&plan, MetadataError::InsufficientFunds, 0);
    accounts[4].lamports = CREATE_FEE + RENT.metadata;
    let plan = create(
        &program_id(),
        &accounts,
        &args(asset(TokenStandard::NonFungible), None, None),
        &RENT,
    );
    failed(&plan, MetadataError::MintIsNotSigner, 1);
}

#[test]
fn a_new_mint_needs_the_token_program() {
    let accounts = accounts(None, true);
    let plan = create(
        &program_id(),
        &accounts,
        &args(asset(TokenStandard::NonFungible), None, Some(PrintSupply::Zero)),
        &RENT,
    );
    failed(&plan, MetadataError::MissingSplTokenProgram, 1);
}

#[test]
fn a_non_fungible_needs_print_supply_and_master_edition() {
    let program = spl_token_id();
    let with = accounts(Some(program), true);
    let plan =
        create(&program_id(), &with, &args(asset(TokenStandard::NonFungible), None, None), &RENT);
    failed(&plan, MetadataError::MissingPrintSupply, 5);
    let without = accounts(Some(program), false);
    let plan = create(
        &program_id(),
        &without,
        &args(asset(TokenStandard::ProgrammableNonFungible), None, Some(PrintSupply::Limited(3))),
        &RENT,
    );
    failed(&plan, MetadataError::MissingMasterEditionAccount, 5);

    // over a mint that is there, the token program may be missing
    let mut no_program = accounts(None, true);
    no_program[2].data = existing_mint(0, 1);
    let plan = create(
        &program_id(),
        &no_program,
        &args(asset(TokenStandard::NonFungible), None, Some(PrintSupply::Zero)),
        &RENT,
    );
    failed(&plan, MetadataError::MissingSplTokenProgram, 3);
}

#[test]
fn accounts_have_to_be_the_derived_ones() {
    let program = spl_token_id();
    let mut wrong_metadata = accounts(Some(program), true);
    wrong_metadata[0].key = key(99);
    let plan = create(
        &program_id(),
        &wrong_metadata,
        &args(asset(TokenStandard::NonFungible), None, Some(PrintSupply::Zero)),
        &RENT,
    );
    failed(&plan, MetadataError::InvalidSeeds, 3);
    assert!(plan.metadata_signer_seeds.is_some());
    let mut wrong_edition = accounts(Some(program), true);
    wrong_edition[1].key = key(98);
    let plan = create(
        &program_id(),
        &wrong_edition,
        &args(asset(TokenStandard::NonFungible), None, Some(PrintSupply::Zero)),
        &RENT,
    );
    failed(&plan, MetadataError::InvalidSeeds, 5);
}

#[test]
fn asset_data_beyond_their_bounds_are_refused() {
    let mut accounts = accounts(None, false);
    accounts[2].data = existing_mint(6, 1000);
    let mut long = asset(TokenStandard::Fungible);
    long.name = "n".repeat(33);
    failed(
        &create(&program_id(), &accounts, &args(long, None, None), &RENT),
        MetadataError::NameTooLong,
        1,
    );
    let mut long = asset(TokenStandard::Fungible);
    long.symbol = "s".repeat(11);
    failed(
        &create(&program_id(), &accounts, &args(long, None, None), &RENT),
        MetadataError::SymbolTooLong,
        1,
    );
    let mut long = asset(TokenStandard::Fungible);
    long.uri = "u".repeat(201);
    failed(
        &create(&program_id(), &accounts, &args(long, None, None), &RENT),
        MetadataError::UriTooLong,
        1,
    );
    let mut many = asset(TokenStandard::Fungible);
    many.creators = Some(vec![Creator { address: key(1), verified: false, share: 0 }; 6]);
    failed(
        &create(&program_id(), &accounts, &args(many, None, None), &RENT),
        MetadataError::TooManyCreators,
        1,
    );
}

#[test]
fn fewer_than_nine_accounts_are_refused() {
    let mut accounts = accounts(Some(spl_token_id()), true);
    accounts.pop();
    let plan = create(
        &program_id(),
        &accounts,
        &args(asset(TokenStandard::NonFungible), None, Some(PrintSupply::Zero)),
        &RENT,
    );
    failed(&plan, MetadataError::NotEnoughAccounts, 0);
    assert!(CreateAccounts::to_context(&program_id(), &accounts).is_err());
}

#[test]
fn accounts_are_bound_by_their_places() {
    let list = accounts(None, true);
    let ctx = CreateAccounts::to_context(&program_id(), &list).ok().unwrap();
    assert_eq!(ctx.metadata, &list[0]);
    assert_eq!(ctx.master_edition, Some(&list[1]));
    assert_eq!(ctx.mint, &list[2]);
    assert_eq!(ctx.authority, &list[3]);
    assert_eq!(ctx.payer, &list[4]);
    assert_eq!(ctx.update_authority, &list[5]);
    assert_eq!(ctx.system_program, &list[6]);
    assert_eq!(ctx.sysvar_instructions, &list[7]);
    assert_eq!(ctx.spl_token_program, None);
    let list = accounts(Some(spl_token_id()), false);
    let ctx = CreateAccounts::to_context(&program_id(), &list).ok().unwrap();
    assert_eq!(ctx.master_edition, None);
    assert_eq!(ctx.spl_token_program, Some(&list[8]));
    let plan = create_v1(
        &program_id(),
        &ctx,
        &args(asset(TokenStandard::Fungible), Some(2), None),
        &RENT,
    );
    assert!(plan.outcome.is_ok());
    assert_eq!(plan.instructions.len(), 5);
}

#[test]
fn the_program_signs_with_the_seeds_of_the_derived_accounts() {
    let program = spl_token_id();
    let accounts = accounts(Some(program), true);
    let plan = create(
        &program_id(),
        &accounts,
        &args(asset(TokenStandard::NonFungible), None, Some(PrintSupply::Zero)),
        &RENT,
    );
    let id = host(&program_id());
    let seeds = plan.metadata_signer_seeds.unwrap();
    let refs: Vec<&[u8]> = seeds.iter().map(|s| s.as_slice()).collect();
    assert_eq!(seeds.len(), 4);
    assert_eq!(seeds[0], b"metadata");
    assert_eq!(Pubkey::create_program_address(&refs, &id).unwrap(), host(&accounts[0].key));
    let seeds = plan.master_edition_signer_seeds.unwrap();
    let refs: Vec<&[u8]> = seeds.iter().map(|s| s.as_slice()).collect();
    assert_eq!(seeds.len(), 5);
    assert_eq!(seeds[3], b"edition");
    assert_eq!(Pubkey::create_program_address(&refs, &id).unwrap(), host(&accounts[1].key));
}

#[test]
fn derived_accounts_are_those_of_the_host_library() {
    let id = host(&program_id());
    let mint = key(MINT);
    let (metadata, bump) = find_metadata_pda(&program_id(), &mint).unwrap();
    let expected = Pubkey::find_program_address(&[b"metadata", id.as_ref(), &mint.bytes], &id);
    assert_eq!((host(&metadata), bump), expected);
    let (edition, bump) = find_master_edition_pda(&program_id(), &mint).unwrap();
    let expected =
        Pubkey::find_program_address(&[b"metadata", id.as_ref(), &mint.bytes, b"edition"], &id);
    assert_eq!((host(&edition), bump), expected);
}

#[test]
fn levy_moves_fee_and_rent_to_the_metadata_account() {
    assert_eq!(CREATE_FEE, 10_000_000);
    let (payer, metadata) = (key(1), key(2));
    let ix = levy(&payer, 10_000_500, &metadata, 500).unwrap();
    assert_eq!(
        as_host(&ix),
        system_instruction::transfer(&host(&payer), &host(&metadata), 10_000_500)
    );
    assert_eq!(levy(&payer, 10_000_499, &metadata, 500), Err(MetadataError::InsufficientFunds));
    assert_eq!(levy(&payer, u64::MAX, &metadata, u64::MAX), Err(MetadataError::InsufficientFunds));
    assert!(levy(&payer, u64::MAX, &metadata, u64::MAX - CREATE_FEE).is_ok());
}

#[test]
fn fee_flag_is_the_last_byte_of_a_metadata_account() {
    assert_eq!(METADATA_FEE_FLAG_INDEX, MAX_METADATA_LEN - 1);
    let mut data = vec![0u8; MAX_METADATA_LEN];
    assert!(!has_fee_flag(&data));
    assert_eq!(set_fee_flag(&mut data), Ok(()));
    assert!(has_fee_flag(&data));
    let mut expected = vec![0u8; MAX_METADATA_LEN];
    expected[678] = 1;
    assert_eq!(data, expected);
    let mut short = vec![0u8; MAX_METADATA_LEN - 1];
    assert_eq!(set_fee_flag(&mut short), Err(MetadataError::MalformedAccount));
    assert_eq!(short, vec![0u8; MAX_METADATA_LEN - 1]);
    assert!(!has_fee_flag(&short));
}

#[test]
fn master_edition_writer_on_account_data() {
    assert_eq!(MAX_MASTER_EDITION_LEN, 282);
    assert_eq!(TOKEN_STANDARD_INDEX, 281);
    let mut data = vec![0xaau8; MAX_MASTER_EDITION_LEN];
    assert_eq!(write_master_edition(&mut data, Some(7)), Ok(()));
    assert_eq!(&data[..18], &[6, 0, 0, 0, 0, 0, 0, 0, 0, 1, 7, 0, 0, 0, 0, 0, 0, 0]);
    assert!(data[18..].iter().all(|b| *b == 0xaa));
    assert_eq!(mark_programmable(&mut data), Ok(()));
    assert_eq!(data[281], 4);
    assert!(data[18..281].iter().all(|b| *b == 0xaa));
    assert_eq!(
        MasterEdition::from_bytes(&data),
        Ok(MasterEdition { key: Key::MasterEditionV2, supply: 0, max_supply: Some(7) })
    );
    let mut short = vec![0u8; MAX_MASTER_EDITION_LEN - 1];
    assert_eq!(
        mark_programmable(&mut short),
        Err(MetadataError::InvalidMasterEditionAccountLength)
    );
    assert_eq!(
        write_master_edition(&mut short, None),
        Err(MetadataError::InvalidMasterEditionAccountLength)
    );
    assert_eq!(short, vec![0u8; MAX_MASTER_EDITION_LEN - 1]);
}

#[test]
fn allocation_tops_up_what_is_short_of_the_rent() {
    let (account, payer, owner) = (key(1), key(2), key(3));
    let short: Vec<HostInstruction> =
        allocate_or_top_up(&account, 40, &payer, 282, 100, &owner).iter().map(as_host).collect();
    assert_eq!(
        short,
        vec![
            system_instruction::transfer(&host(&payer), &host(&account), 60),
            system_instruction::allocate(&host(&account), 282),
            system_instruction::assign(&host(&account), &host(&owner)),
        ]
    );
    let funded: Vec<HostInstruction> =
        allocate_or_top_up(&account, 100, &payer, 679, 100, &owner).iter().map(as_host).collect();
    assert_eq!(
        funded,
        vec![
            system_instruction::allocate(&host(&account), 679),
            system_instruction::assign(&host(&account), &host(&owner)),
        ]
    );
    let empty: Vec<HostInstruction> =
        allocate_or_top_up(&account, 0, &payer, 1, 0, &owner).iter().map(as_host).collect();
    assert_eq!(empty[0], system_instruction::transfer(&host(&payer), &host(&account), 1));
}
