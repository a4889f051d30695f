use borsh::BorshSerialize;
use token_metadata::address::Address;
use token_metadata::error::MetadataError;
use token_metadata::holder_delegate_record::HolderDelegateRecord;
use token_metadata::master_edition::MasterEdition;
use token_metadata::metadata::{pad, Data, Metadata, MAX_METADATA_LEN};
use token_metadata::records::{
    Collection, CollectionDetails, Creator, ProgrammableConfig, UseMethod, Uses,
};
use token_metadata::state::{Key, PrintSupply, TokenStandard};

fn key(n: u8) -> Address {
    Address::new([n; 32])
}

fn record() -> HolderDelegateRecord {
    HolderDelegateRecord {
        key: Key::HolderDelegate,
        bump: 254,
        mint: key(1),
        delegate: key(2),
        update_authority: key(3),
    }
}

fn sample_metadata() -> Metadata {
    Metadata {
        key: Key::MetadataV1,
        update_authority: key(9),
        mint: key(8),
        data: Data {
            name: "Zoë".to_string(),
            symbol: "ZO".to_string(),
            uri: "https://example.org/z.json".to_string(),
            seller_fee_basis_points: 550,
            creators: Some(vec![
                Creator { address: key(4), verified: true, share: 60 },
                Creator { address: key(5), verified: false, share: 40 },
            ]),
        },
        primary_sale_happened: true,
        is_mutable: false,
        edition_nonce: Some(253),
        token_standard: Some(TokenStandard::ProgrammableNonFungible),
        collection: Some(Collection { verified: false, key: key(6) }),
        uses: Some(Uses { use_method: UseMethod::Single, remaining: 3, total: 0x0102030405060708 }),
        collection_details: Some(CollectionDetails::V1 { size: 77 }),
        programmable_config: Some(ProgrammableConfig::V1 { rule_set: Some(key(7)) }),
    }
}

#[test]
fn holder_delegate_record_has_98_bytes_in_field_order() {
    let bytes = record().to_bytes();
    assert_eq!(bytes.len(), 98);
    assert_eq!(HolderDelegateRecord::LEN, 98);
    assert_eq!(bytes[0], 14);
    assert_eq!(bytes[1], 254);
    assert_eq!(&bytes[2..34], &[1u8; 32]);
    assert_eq!(&bytes[34..66], &[2u8; 32]);
    assert_eq!(&bytes[66..98], &[3u8; 32]);
}

#[test]
fn holder_delegate_record_is_encoded_as_borsh_encodes_its_fields() {
    let expected = (14u8, 254u8, [1u8; 32], [2u8; 32], [3u8; 32]).try_to_vec().unwrap();
    assert_eq!(record().to_bytes(), expected);
}

#[test]
fn holder_delegate_record_round_trip() {
    let v = record();
    assert_eq!(HolderDelegateRecord::from_bytes(&v.to_bytes()), Ok(v));
}

#[test]
fn holder_delegate_record_ignores_what_follows() {
    let v = record();
    let mut bytes = v.to_bytes();
    bytes.extend_from_slice(&[7, 7, 7]);
    assert_eq!(HolderDelegateRecord::from_bytes(&bytes), Ok(v));
}

#[test]
fn holder_delegate_record_of_another_kind_is_malformed() {
    let mut bytes = record().to_bytes();
    bytes[0] = 4;
    assert_eq!(HolderDelegateRecord::from_bytes(&bytes), Err(MetadataError::MalformedAccount));
    bytes[0] = 200;
    assert_eq!(HolderDelegateRecord::from_bytes(&bytes), Err(MetadataError::MalformedAccount));
}

#[test]
fn holder_delegate_record_cut_short_is_malformed() {
    let bytes = record().to_bytes();
    assert_eq!(
        HolderDelegateRecord::from_bytes(&bytes[..97]),
        Err(MetadataError::MalformedAccount)
    );
    assert_eq!(HolderDelegateRecord::from_bytes(&[]), Err(MetadataError::MalformedAccount));
}

#[test]
fn master_edition_bytes() {
    let limited = MasterEdition::new(Some(0x0102)).to_bytes();
    assert_eq!(limited, vec![6, 0, 0, 0, 0, 0, 0, 0, 0, 1, 2, 1, 0, 0, 0, 0, 0, 0]);
    let unlimited = MasterEdition::new(None).to_bytes();
    assert_eq!(unlimited, vec![6, 0, 0, 0, 0, 0, 0, 0, 0, 0]);
}

#[test]
fn master_edition_round_trip() {
    for max_supply in [None, Some(0), Some(5), Some(u64::MAX)] {
        let v = MasterEdition { key: Key::MasterEditionV2, supply: 17, max_supply };
        assert_eq!(MasterEdition::from_bytes(&v.to_bytes()), Ok(v));
    }
}

#[test]
fn master_edition_of_another_kind_or_tag_is_malformed() {
    let mut bytes = MasterEdition::new(Some(1)).to_bytes();
    bytes[9] = 2;
    assert_eq!(MasterEdition::from_bytes(&bytes), Err(MetadataError::MalformedAccount));
    bytes[9] = 1;
    bytes[0] = 2;
    assert_eq!(MasterEdition::from_bytes(&bytes), Err(MetadataError::MalformedAccount));
    assert_eq!(MasterEdition::from_bytes(&bytes[..5]), Err(MetadataError::MalformedAccount));
}

#[test]
fn print_supply_to_option() {
    assert_eq!(PrintSupply::Zero.to_option(), Some(0));
    assert_eq!(PrintSupply::Limited(12).to_option(), Some(12));
    assert_eq!(PrintSupply::Unlimited.to_option(), None);
}

#[test]
fn enum_bytes_follow_the_declaration() {
    assert_eq!(Key::Uninitialized.to_u8(), 0);
    assert_eq!(Key::MetadataV1.to_u8(), 4);
    assert_eq!(Key::MasterEditionV2.to_u8(), 6);
    assert_eq!(Key::HolderDelegate.to_u8(), 14);
    assert_eq!(Key::from_u8(15), None);
    assert_eq!(TokenStandard::NonFungible.to_u8(), 0);
    assert_eq!(TokenStandard::FungibleAsset.to_u8(), 1);
    assert_eq!(TokenStandard::Fungible.to_u8(), 2);
    assert_eq!(TokenStandard::NonFungibleEdition.to_u8(), 3);
    assert_eq!(TokenStandard::ProgrammableNonFungible.to_u8(), 4);
    assert_eq!(TokenStandard::ProgrammableNonFungibleEdition.to_u8(), 5);
    assert_eq!(TokenStandard::from_u8(6), None);
    for b in 0..=14u8 {
        assert_eq!(Key::from_u8(b).unwrap().to_u8(), b);
    }
    for b in 0..=5u8 {
        assert_eq!(TokenStandard::from_u8(b).unwrap().to_u8(), b);
    }
}

#[test]
fn metadata_is_encoded_as_borsh_encodes_its_fields() {
    let expected = (
        4u8,
        [9u8; 32],
        [8u8; 32],
        "Zoë".to_string(),
        "ZO".to_string(),
        "https://example.org/z.json".to_string(),
        550u16,
        Some(vec![([4u8; 32], true, 60u8), ([5u8; 32], false, 40u8)]),
        true,
        false,
        Some(253u8),
        Some(4u8),
        Some((false, [6u8; 32])),
        Some((2u8, 3u64, 0x0102030405060708u64)),
        Some((0u8, 77u64)),
        Some((0u8, Some([7u8; 32]))),
    )
        .try_to_vec()
        .unwrap();
    assert_eq!(sample_metadata().to_bytes(), Ok(expected));
}

#[test]
fn metadata_starts_with_kind_authority_mint_and_name() {
    let bytes = sample_metadata().to_bytes().unwrap();
    assert_eq!(bytes[0], 4);
    assert_eq!(&bytes[1..33], &[9u8; 32]);
    assert_eq!(&bytes[33..65], &[8u8; 32]);
    assert_eq!(&bytes[65..69], &[4, 0, 0, 0]);
    assert_eq!(&bytes[69..73], "Zoë".as_bytes());
    assert!(bytes.len() < MAX_METADATA_LEN - 1);
}

#[test]
fn metadata_round_trip() {
    let v = sample_metadata();
    assert_eq!(Metadata::from_bytes(&v.to_bytes().unwrap()), Ok(v));
}

#[test]
fn metadata_round_trip_without_optional_fields() {
    let mut v = sample_metadata();
    v.data.creators = None;
    v.edition_nonce = None;
    v.token_standard = None;
    v.collection = None;
    v.uses = None;
    v.collection_details = None;
    v.programmable_config = None;
    let bytes = v.to_bytes().unwrap();
    assert_eq!(bytes.len(), 65 + (4 + 4) + (4 + 2) + (4 + 26) + 2 + 1 + 2 + 6);
    assert_eq!(Metadata::from_bytes(&bytes), Ok(v));
}

#[test]
fn metadata_ignores_what_follows() {
    let v = sample_metadata();
    let mut bytes = v.to_bytes().unwrap();
    bytes.resize(MAX_METADATA_LEN, 0);
    assert_eq!(Metadata::from_bytes(&bytes), Ok(v));
}

#[test]
fn metadata_of_another_kind_is_malformed() {
    let mut bytes = sample_metadata().to_bytes().unwrap();
    bytes[0] = 6;
    assert_eq!(Metadata::from_bytes(&bytes), Err(MetadataError::MalformedAccount));
    let mut v = sample_metadata();
    v.key = Key::MasterEditionV2;
    assert_eq!(v.to_bytes(), Err(MetadataError::MalformedAccount));
}

#[test]
fn metadata_with_a_length_past_the_end_is_malformed() {
    let mut bytes = sample_metadata().to_bytes().unwrap();
    bytes[65] = 0xff;
    bytes[66] = 0xff;
    assert_eq!(Metadata::from_bytes(&bytes), Err(MetadataError::MalformedAccount));
}

#[test]
fn metadata_with_a_name_that_is_not_utf8_is_malformed() {
    let mut bytes = sample_metadata().to_bytes().unwrap();
    bytes[69] = 0xff;
    assert_eq!(Metadata::from_bytes(&bytes), Err(MetadataError::MalformedAccount));
}

#[test]
fn metadata_with_a_wrong_tag_or_flag_is_malformed() {
    let v = sample_metadata();
    let bytes = v.to_bytes().unwrap();
    let flags = 65 + (4 + 4) + (4 + 2) + (4 + 26) + 2 + (1 + 4 + 2 * 34);
    assert_eq!(bytes[flags], 1);
    let mut wrong = bytes.clone();
    wrong[flags] = 2;
    assert_eq!(Metadata::from_bytes(&wrong), Err(MetadataError::MalformedAccount));
    let mut wrong = bytes.clone();
    wrong[flags + 2] = 9;
    assert_eq!(Metadata::from_bytes(&wrong), Err(MetadataError::MalformedAccount));
    let mut wrong = bytes.clone();
    wrong[flags + 5] = 6;
    assert_eq!(Metadata::from_bytes(&wrong), Err(MetadataError::MalformedAccount));
    assert_eq!(Metadata::from_bytes(&bytes[..bytes.len() - 1]), Err(MetadataError::MalformedAccount));
}

#[test]
fn metadata_beyond_its_bounds_is_refused() {
    let mut v = sample_metadata();
    v.data.name = "n".repeat(33);
    assert_eq!(v.to_bytes(), Err(MetadataError::NameTooLong));
    assert_eq!(v.data.check_bounds(), Err(MetadataError::NameTooLong));
    v.data.name = "n".repeat(32);
    v.data.symbol = "s".repeat(11);
    assert_eq!(v.to_bytes(), Err(MetadataError::SymbolTooLong));
    v.data.symbol = "s".repeat(10);
    v.data.uri = "u".repeat(201);
    assert_eq!(v.to_bytes(), Err(MetadataError::UriTooLong));
    v.data.uri = "u".repeat(200);
    v.data.creators = Some(vec![Creator { address: key(1), verified: false, share: 1 }; 6]);
    assert_eq!(v.to_bytes(), Err(MetadataError::TooManyCreators));
    v.data.creators = Some(vec![Creator { address: key(1), verified: false, share: 1 }; 5]);
    let bytes = v.to_bytes().unwrap();
    assert_eq!(bytes.len(), 65 + 36 + 14 + 204 + 2 + (1 + 4 + 170) + 2 + 2 + 2 + 34 + 18 + 10 + 35);
    assert_eq!(Metadata::from_bytes(&bytes), Ok(v));
}

#[test]
fn save_writes_over_the_front_and_keeps_the_rest() {
    let v = sample_metadata();
    let bytes = v.to_bytes().unwrap();
    let mut data = vec![0xeeu8; MAX_METADATA_LEN];
    assert_eq!(v.save(&mut data), Ok(()));
    assert_eq!(&data[..bytes.len()], &bytes[..]);
    assert!(data[bytes.len()..].iter().all(|b| *b == 0xee));
    assert_eq!(data.len(), MAX_METADATA_LEN);
}

#[test]
fn save_refuses_a_short_account_and_leaves_it() {
    let v = sample_metadata();
    let mut data = vec![0xeeu8; MAX_METADATA_LEN - 1];
    assert_eq!(v.save(&mut data), Err(MetadataError::MalformedAccount));
    assert_eq!(data, vec![0xeeu8; MAX_METADATA_LEN - 1]);
    let mut long = sample_metadata();
    long.data.name = "n".repeat(40);
    let mut data = vec![0xeeu8; MAX_METADATA_LEN];
    assert_eq!(long.save(&mut data), Err(MetadataError::NameTooLong));
    assert_eq!(data, vec![0xeeu8; MAX_METADATA_LEN]);
}

#[test]
fn pad_fills_with_nul_to_the_size_in_bytes() {
    assert_eq!(pad(&"Zoë".to_string(), 6), "Zoë\0\0");
    assert_eq!(pad(&"abc".to_string(), 3), "abc");
    assert_eq!(pad(&"abcd".to_string(), 3), "abcd");
    assert_eq!(pad(&String::new(), 2), "\0\0");
}

#[test]
fn puffed_out_data_fill_their_fields() {
    let d = sample_metadata().data.puffed_out();
    assert_eq!(d.name.len(), 32);
    assert_eq!(d.symbol.len(), 10);
    assert_eq!(d.uri.len(), 200);
    assert!(d.name.starts_with("Zoë\0"));
    assert_eq!(d.seller_fee_basis_points, 550);
    assert_eq!(d.creators, sample_metadata().data.creators);
}
