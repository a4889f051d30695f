use solana_program::instruction::Instruction as HostInstruction;
use solana_program::program_option::COption;
use solana_program::program_pack::Pack;
use solana_program::pubkey::Pubkey;
use solana_program::system_instruction;
use spl_token_2022::extension::default_account_state::DefaultAccountState;
use spl_token_2022::extension::metadata_pointer::MetadataPointer;
use spl_token_2022::extension::mint_close_authority::MintCloseAuthority;
use spl_token_2022::extension::non_transferable::NonTransferable;
use spl_token_2022::extension::transfer_fee::TransferFeeConfig;
use spl_token_2022::extension::{ExtensionType, StateWithExtensionsMut};
use spl_token_2022::state::Mint as HostMint;
use std::str::FromStr;
use token_metadata::address::Address;
use token_metadata::error::MetadataError;
use token_metadata::instruction::{spl_token_2022_id, spl_token_id, Instruction};
use token_metadata::mint::{
    check_mint, create_mint, extensions_allowed, mint_account_size, parse_mint, resolve_decimals,
    validate_mint, MetadataPointerState, Mint, MintFailure, DEFAULT_DECIMALS,
    EXTENSION_METADATA_POINTER, EXTENSION_MINT_CLOSE_AUTHORITY, EXTENSION_NON_TRANSFERABLE,
    MINT_LEN,
};
use token_metadata::state::TokenStandard;

fn key(n: u8) -> Address {
    Address::new([n; 32])
}

fn host(a: &Address) -> Pubkey {
    Pubkey::new_from_array(a.bytes)
}

fn as_host(ix: &Instruction) -> HostInstruction {
    HostInstruction {
        program_id: host(&ix.program_id),
        accounts: ix
            .accounts
            .iter()
            .map(|m| solana_program::instruction::AccountMeta {
                pubkey: host(&m.pubkey),
                is_signer: m.is_signer,
                is_writable: m.is_writable,
            })
            .collect(),
        data: ix.data.clone(),
    }
}

fn base(decimals: u8, supply: u64, is_initialized: bool) -> HostMint {
    HostMint {
        mint_authority: COption::Some(host(&key(50))),
        supply,
        decimals,
        is_initialized,
        freeze_authority: COption::None,
    }
}

fn classic_mint(decimals: u8, supply: u64) -> Vec<u8> {
    let mut data = vec![0u8; HostMint::LEN];
    HostMint::pack(base(decimals, supply, true), &mut data).unwrap();
    data
}

const CLOSE: u8 = 1;
const POINTER: u8 = 2;
const FROZEN: u8 = 4;
const FEE: u8 = 8;
const DEFAULT_STATE: u8 = 16;

/// A mint account of the token program with extensions.
fn extended_mint(
    decimals: u8,
    supply: u64,
    extensions: u8,
    close_authority: Option<Address>,
    pointer: (Option<Address>, Option<Address>),
) -> Vec<u8> {
    let mut types = vec![];
    if extensions & CLOSE != 0 {
        types.push(ExtensionType::MintCloseAuthority);
    }
    if extensions & POINTER != 0 {
        types.push(ExtensionType::MetadataPointer);
    }
    if extensions & FROZEN != 0 {
        types.push(ExtensionType::NonTransferable);
    }
    if extensions & FEE != 0 {
        types.push(ExtensionType::TransferFeeConfig);
    }
    if extensions & DEFAULT_STATE != 0 {
        types.push(ExtensionType::DefaultAccountState);
    }
    let len = ExtensionType::try_calculate_account_len::<HostMint>(&types).unwrap();
    let mut data = vec![0u8; len];
    let mut state = StateWithExtensionsMut::<HostMint>::unpack_uninitialized(&mut data).unwrap();
    if extensions & CLOSE != 0 {
        let e = state.init_extension::<MintCloseAuthority>(true).unwrap();
        e.close_authority = close_authority.map(|a| host(&a)).try_into().unwrap();
    }
    if extensions & POINTER != 0 {
        let e = state.init_extension::<MetadataPointer>(true).unwrap();
        e.authority = pointer.0.map(|a| host(&a)).try_into().unwrap();
        e.metadata_address = pointer.1.map(|a| host(&a)).try_into().unwrap();
    }
    if extensions & FROZEN != 0 {
        state.init_extension::<NonTransferable>(true).unwrap();
    }
    if extensions & FEE != 0 {
        state.init_extension::<TransferFeeConfig>(true).unwrap();
    }
    if extensions & DEFAULT_STATE != 0 {
        state.init_extension::<DefaultAccountState>(true).unwrap();
    }
    state.base = base(decimals, supply, true);
    state.pack_base();
    state.init_account_type().unwrap();
    data
}

fn plain(decimals: u8, supply: u64) -> Mint {
    Mint {
        decimals,
        supply,
        is_initialized: true,
        extension_types: Some(vec![]),
        close_authority: None,
        metadata_pointer: None,
    }
}

#[test]
fn constants_are_those_of_the_token_program() {
    assert_eq!(u16::from(ExtensionType::MintCloseAuthority), EXTENSION_MINT_CLOSE_AUTHORITY);
    assert_eq!(u16::from(ExtensionType::NonTransferable), EXTENSION_NON_TRANSFERABLE);
    assert_eq!(u16::from(ExtensionType::MetadataPointer), EXTENSION_METADATA_POINTER);
    assert_eq!(HostMint::LEN, MINT_LEN);
    assert_eq!(spl_token_2022::native_mint::DECIMALS, DEFAULT_DECIMALS);
    assert_eq!(spl_token_2022::id().to_bytes(), spl_token_2022_id().bytes);
    assert_eq!(
        Pubkey::from_str("TokenkegQfeZyiNwAJbNbGKPFXCWuBvf9Ss623VQ5DA").unwrap().to_bytes(),
        spl_token_id().bytes
    );
}

#[test]
fn parse_reads_a_classic_mint() {
    let mint = parse_mint(&classic_mint(6, 1000)).unwrap();
    assert_eq!(mint, plain(6, 1000));
}

#[test]
fn parse_reads_the_extensions_in_their_order() {
    let data = extended_mint(0, 1, CLOSE | POINTER | FROZEN, Some(key(7)), (None, Some(key(7))));
    let mint = parse_mint(&data).unwrap();
    assert_eq!(mint.decimals, 0);
    assert_eq!(mint.supply, 1);
    assert!(mint.is_initialized);
    assert_eq!(mint.extension_types, Some(vec![3, 18, 9]));
    assert_eq!(mint.close_authority, Some(Some(key(7))));
    assert_eq!(
        mint.metadata_pointer,
        Some(MetadataPointerState { authority: None, metadata_address: Some(key(7)) })
    );
}

#[test]
fn parse_tells_an_uninitialized_mint_from_other_data() {
    let mut data = vec![0u8; HostMint::LEN];
    HostMint::pack(base(0, 0, false), &mut data).unwrap();
    assert_eq!(parse_mint(&data), Err(MintFailure::Uninitialized));
    assert_eq!(parse_mint(&[1, 2, 3]), Err(MintFailure::Invalid));
    assert_eq!(parse_mint(&vec![0u8; 355]), Err(MintFailure::Invalid));
}

#[test]
fn validate_refuses_an_uninitialized_and_a_malformed_mint() {
    let mut data = vec![0u8; HostMint::LEN];
    HostMint::pack(base(0, 0, false), &mut data).unwrap();
    assert_eq!(
        validate_mint(&data, &key(7), TokenStandard::Fungible),
        Err(MetadataError::Uninitialized)
    );
    assert_eq!(
        validate_mint(&[9u8; 40], &key(7), TokenStandard::Fungible),
        Err(MetadataError::MalformedAccount)
    );
}

#[test]
fn validate_accepts_a_fungible_classic_mint() {
    let data = classic_mint(6, 1000);
    assert_eq!(validate_mint(&data, &key(7), TokenStandard::Fungible), Ok(()));
    assert_eq!(validate_mint(&data, &key(7), TokenStandard::FungibleAsset), Ok(()));
}

#[test]
fn validate_wants_no_decimals_and_one_token_at_most_of_a_non_fungible() {
    let metadata = key(7);
    for standard in [TokenStandard::NonFungible, TokenStandard::ProgrammableNonFungible] {
        assert_eq!(
            validate_mint(&classic_mint(1, 0), &metadata, standard),
            Err(MetadataError::InvalidMintForTokenStandard)
        );
        assert_eq!(
            validate_mint(&classic_mint(0, 2), &metadata, standard),
            Err(MetadataError::InvalidMintForTokenStandard)
        );
        assert_eq!(validate_mint(&classic_mint(0, 0), &metadata, standard), Ok(()));
    }
    assert_eq!(validate_mint(&classic_mint(0, 1), &metadata, TokenStandard::NonFungible), Ok(()));
    assert_eq!(
        validate_mint(&classic_mint(0, 1), &metadata, TokenStandard::ProgrammableNonFungible),
        Err(MetadataError::MintSupplyMustBeZero)
    );
}

#[test]
fn extension_allowlist() {
    let metadata = key(7);
    let data = extended_mint(0, 0, FEE, None, (None, None));
    assert_eq!(
        validate_mint(&data, &metadata, TokenStandard::NonFungible),
        Err(MetadataError::InvalidMintExtensionType)
    );
    assert_eq!(
        validate_mint(&data, &metadata, TokenStandard::ProgrammableNonFungible),
        Err(MetadataError::InvalidMintExtensionType)
    );
    assert_eq!(validate_mint(&data, &metadata, TokenStandard::Fungible), Ok(()));
    let data = extended_mint(0, 0, CLOSE | DEFAULT_STATE, Some(metadata), (None, None));
    assert_eq!(
        validate_mint(&data, &metadata, TokenStandard::NonFungible),
        Err(MetadataError::InvalidMintExtensionType)
    );
}

#[test]
fn validate_accepts_the_three_extensions_of_a_non_fungible() {
    let metadata = key(7);
    let data =
        extended_mint(0, 0, CLOSE | POINTER | FROZEN, Some(metadata), (None, Some(metadata)));
    assert_eq!(validate_mint(&data, &metadata, TokenStandard::NonFungible), Ok(()));
    assert_eq!(validate_mint(&data, &metadata, TokenStandard::ProgrammableNonFungible), Ok(()));
}

#[test]
fn close_authority_mismatch() {
    let (metadata, payer) = (key(7), key(8));
    let data = extended_mint(0, 0, CLOSE, Some(payer), (None, None));
    for standard in [
        TokenStandard::NonFungible,
        TokenStandard::Fungible,
        TokenStandard::FungibleAsset,
        TokenStandard::ProgrammableNonFungible,
    ] {
        assert_eq!(
            validate_mint(&data, &metadata, standard),
            Err(MetadataError::InvalidMintCloseAuthority)
        );
    }
    let none = extended_mint(0, 0, CLOSE, None, (None, None));
    assert_eq!(
        validate_mint(&none, &metadata, TokenStandard::Fungible),
        Err(MetadataError::InvalidMintCloseAuthority)
    );
}

#[test]
fn metadata_pointer_has_to_point_at_the_metadata_without_authority() {
    let (metadata, other) = (key(7), key(8));
    let with_authority = extended_mint(0, 0, POINTER, None, (Some(other), Some(metadata)));
    assert_eq!(
        validate_mint(&with_authority, &metadata, TokenStandard::Fungible),
        Err(MetadataError::InvalidMetadataPointer)
    );
    let elsewhere = extended_mint(0, 0, POINTER, None, (None, Some(other)));
    assert_eq!(
        validate_mint(&elsewhere, &metadata, TokenStandard::NonFungible),
        Err(MetadataError::InvalidMetadataPointer)
    );
    let nowhere = extended_mint(0, 0, POINTER, None, (None, None));
    assert_eq!(
        validate_mint(&nowhere, &metadata, TokenStandard::Fungible),
        Err(MetadataError::InvalidMetadataPointer)
    );
    let right = extended_mint(0, 0, POINTER, None, (None, Some(metadata)));
    assert_eq!(validate_mint(&right, &metadata, TokenStandard::Fungible), Ok(()));
}

#[test]
fn the_first_broken_rule_is_reported() {
    let (metadata, other) = (key(7), key(8));
    let data = extended_mint(2, 0, CLOSE | FEE, Some(other), (None, None));
    assert_eq!(
        validate_mint(&data, &metadata, TokenStandard::NonFungible),
        Err(MetadataError::InvalidMintForTokenStandard)
    );
    let data = extended_mint(0, 0, CLOSE | FEE, Some(other), (None, None));
    assert_eq!(
        validate_mint(&data, &metadata, TokenStandard::NonFungible),
        Err(MetadataError::InvalidMintExtensionType)
    );
    let data = extended_mint(0, 0, CLOSE | POINTER, Some(other), (None, Some(other)));
    assert_eq!(
        validate_mint(&data, &metadata, TokenStandard::NonFungible),
        Err(MetadataError::InvalidMintCloseAuthority)
    );
}

#[test]
fn check_mint_on_values() {
    let metadata = key(7);
    let mut mint = plain(0, 0);
    mint.is_initialized = false;
    assert_eq!(
        check_mint(&mint, &metadata, TokenStandard::Fungible),
        Err(MetadataError::Uninitialized)
    );
    let mut mint = plain(0, 0);
    mint.extension_types = None;
    assert_eq!(check_mint(&mint, &metadata, TokenStandard::Fungible), Ok(()));
    assert_eq!(
        check_mint(&mint, &metadata, TokenStandard::NonFungible),
        Err(MetadataError::MalformedAccount)
    );
    mint.extension_types = Some(vec![3, 9, 18, 999]);
    assert_eq!(
        check_mint(&mint, &metadata, TokenStandard::NonFungible),
        Err(MetadataError::InvalidMintExtensionType)
    );
    mint.extension_types = Some(vec![18, 9, 3, 3]);
    assert_eq!(check_mint(&mint, &metadata, TokenStandard::NonFungible), Ok(()));
    assert!(extensions_allowed(&vec![]));
    assert!(extensions_allowed(&vec![3, 9, 18]));
    assert!(!extensions_allowed(&vec![3, 0]));
    assert!(!extensions_allowed(&vec![1]));
}

#[test]
fn decimals_of_a_new_mint() {
    assert_eq!(resolve_decimals(TokenStandard::NonFungible, Some(9)), Ok(0));
    assert_eq!(resolve_decimals(TokenStandard::ProgrammableNonFungible, None), Ok(0));
    assert_eq!(resolve_decimals(TokenStandard::Fungible, Some(3)), Ok(3));
    assert_eq!(resolve_decimals(TokenStandard::Fungible, None), Ok(9));
    assert_eq!(resolve_decimals(TokenStandard::FungibleAsset, Some(0)), Ok(0));
    assert_eq!(resolve_decimals(TokenStandard::FungibleAsset, None), Ok(9));
    assert_eq!(
        resolve_decimals(TokenStandard::NonFungibleEdition, Some(1)),
        Err(MetadataError::InvalidTokenStandard)
    );
    assert_eq!(
        resolve_decimals(TokenStandard::ProgrammableNonFungibleEdition, None),
        Err(MetadataError::InvalidTokenStandard)
    );
}

#[test]
fn size_of_a_new_mint_account() {
    assert_eq!(mint_account_size(&spl_token_id()), Some(82));
    assert_eq!(mint_account_size(&key(1)), Some(82));
    let extended = ExtensionType::try_calculate_account_len::<HostMint>(&[
        ExtensionType::MintCloseAuthority,
        ExtensionType::MetadataPointer,
    ])
    .unwrap();
    assert_eq!(mint_account_size(&spl_token_2022_id()), Some(extended));
    assert_eq!(extended, 165 + 1 + (4 + 32) + (4 + 64));
}

#[test]
fn a_classic_mint_is_made_by_two_instructions() {
    let (mint, metadata, authority, payer) = (key(1), key(2), key(3), key(4));
    let program = spl_token_id();
    let plan = create_mint(
        &mint,
        &metadata,
        &authority,
        &payer,
        TokenStandard::Fungible,
        Some(6),
        &program,
        1_461_600,
    );
    assert_eq!(plan.outcome, Ok(()));
    let got: Vec<HostInstruction> = plan.instructions.iter().map(as_host).collect();
    let expected = vec![
        system_instruction::create_account(&host(&payer), &host(&mint), 1_461_600, 82, &host(&program)),
        spl_token_2022::instruction::initialize_mint2(
            &host(&program),
            &host(&mint),
            &host(&authority),
            Some(&host(&authority)),
            6,
        )
        .unwrap(),
    ];
    assert_eq!(got, expected);
    assert_eq!(got[0].program_id, solana_program::system_program::id());
}

#[test]
fn an_extended_mint_is_made_by_four_instructions() {
    let (mint, metadata, authority, payer) = (key(1), key(2), key(3), key(4));
    let program = spl_token_2022_id();
    let plan = create_mint(
        &mint,
        &metadata,
        &authority,
        &payer,
        TokenStandard::NonFungible,
        Some(9),
        &program,
        2_700_000,
    );
    assert_eq!(plan.outcome, Ok(()));
    let got: Vec<HostInstruction> = plan.instructions.iter().map(as_host).collect();
    let expected = vec![
        system_instruction::create_account(&host(&payer), &host(&mint), 2_700_000, 270, &host(&program)),
        spl_token_2022::instruction::initialize_mint_close_authority(
            &host(&program),
            &host(&mint),
            Some(&host(&metadata)),
        )
        .unwrap(),
        spl_token_2022::extension::metadata_pointer::instruction::initialize(
            &host(&program),
            &host(&mint),
            None,
            Some(host(&metadata)),
        )
        .unwrap(),
        spl_token_2022::instruction::initialize_mint2(
            &host(&program),
            &host(&mint),
            &host(&authority),
            Some(&host(&authority)),
            0,
        )
        .unwrap(),
    ];
    assert_eq!(got, expected);
}

#[test]
fn a_print_has_no_mint_of_its_own() {
    let program = spl_token_id();
    let plan = create_mint(
        &key(1),
        &key(2),
        &key(3),
        &key(4),
        TokenStandard::NonFungibleEdition,
        None,
        &program,
        10,
    );
    assert_eq!(plan.outcome, Err(MetadataError::InvalidTokenStandard));
    assert_eq!(plan.instructions.len(), 1);
    let plan = create_mint(
        &key(1),
        &key(2),
        &key(3),
        &key(4),
        TokenStandard::ProgrammableNonFungibleEdition,
        None,
        &spl_token_2022_id(),
        10,
    );
    assert_eq!(plan.outcome, Err(MetadataError::InvalidTokenStandard));
    assert_eq!(plan.instructions.len(), 3);
}

#[test]
fn another_program_than_a_token_program_makes_no_mint() {
    let plan = create_mint(&key(1), &key(2), &key(3), &key(4), TokenStandard::Fungible, None, &key(9), 10);
    assert_eq!(plan.outcome, Err(MetadataError::IncorrectProgramId));
    assert_eq!(plan.instructions.len(), 1);
}

#[test]
fn the_address_of_zeros_is_no_metadata_address() {
    let zero = Address::zero();
    let plan = create_mint(
        &key(1),
        &zero,
        &key(3),
        &key(4),
        TokenStandard::NonFungible,
        None,
        &spl_token_2022_id(),
        10,
    );
    assert_eq!(plan.outcome, Err(MetadataError::InvalidArgument));
    assert_eq!(plan.instructions.len(), 2);
}
