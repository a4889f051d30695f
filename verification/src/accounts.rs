//! The accounts and the arguments of the instruction that creates the
//! metadata of a mint.

use crate::address::Address;
use crate::error::MetadataError;
use crate::metadata::{copy_creators, creators_view, Data, DataView};
use crate::records::{Collection, CollectionDetails, Creator, Uses};
use crate::state::{PrintSupply, TokenStandard};
use vstd::prelude::*;

verus! {

/// An account as the host hands it to the program.
#[derive(Debug, PartialEq, Eq)]
pub struct Account {
    pub key: Address,
    pub lamports: u64,
    pub data: Vec<u8>,
    /// The program that owns the account.
    pub owner: Address,
    /// Whether the account signed the transaction.
    pub is_signer: bool,
    /// Whether the transaction may change the account.
    pub is_writable: bool,
}

/// The accounts of the instruction, each under its name.
pub struct CreateAccounts<'a> {
    /// The account that is to hold the metadata: not allocated yet.
    pub metadata: &'a Account,
    /// The account that is to hold the master edition.
    pub master_edition: Option<&'a Account>,
    /// The mint of the asset: empty where it is to be made.
    pub mint: &'a Account,
    /// The authority of the mint.
    pub authority: &'a Account,
    /// Who pays fee and rent.
    pub payer: &'a Account,
    /// Who may change the metadata.
    pub update_authority: &'a Account,
    pub system_program: &'a Account,
    pub sysvar_instructions: &'a Account,
    pub spl_token_program: Option<&'a Account>,
}

/// The number of accounts of the instruction.
pub const CREATE_ACCOUNTS_LEN: usize = 9;

/// An optional account is absent where the program itself stands in its
/// place.
pub open spec fn optional<'a>(program_id: Address, account: &'a Account) -> Option<&'a Account> {
    if account.key == program_id {
        None
    } else {
        Some(account)
    }
}

/// The accounts of the instruction under their names: by their places in
/// the list, in the order metadata, master edition, mint, authority, payer,
/// update authority, system program, instructions sysvar, token program.
pub open spec fn context_of<'a>(program_id: Address, accounts: &'a [Account]) -> CreateAccounts<
    'a,
> {
    CreateAccounts {
        metadata: &accounts[0],
        master_edition: optional(program_id, &accounts[1]),
        mint: &accounts[2],
        authority: &accounts[3],
        payer: &accounts[4],
        update_authority: &accounts[5],
        system_program: &accounts[6],
        sysvar_instructions: &accounts[7],
        spl_token_program: optional(program_id, &accounts[8]),
    }
}

impl<'a> CreateAccounts<'a> {
    /// Binds the list of accounts to the names of the instruction. A list
    /// of fewer than nine accounts is refused; accounts beyond the ninth
    /// are not looked at.
    pub fn to_context(program_id: &Address, accounts: &'a [Account]) -> (r: Result<
        CreateAccounts<'a>,
        MetadataError,
    >)
        ensures
            match r {
                Ok(ctx) => accounts@.len() >= CREATE_ACCOUNTS_LEN && ctx == context_of(
                    *program_id,
                    accounts,
                ),
                Err(e) => accounts@.len() < CREATE_ACCOUNTS_LEN && e
                    == MetadataError::NotEnoughAccounts,
            },
    {
        if accounts.len() < CREATE_ACCOUNTS_LEN {
            return Err(MetadataError::NotEnoughAccounts);
        }
        let master_edition = if accounts[1].key.same(program_id) {
            None
        } else {
            Some(&accounts[1])
        };
        let spl_token_program = if accounts[8].key.same(program_id) {
            None
        } else {
            Some(&accounts[8])
        };
        Ok(
            CreateAccounts {
                metadata: &accounts[0],
                master_edition,
                mint: &accounts[2],
                authority: &accounts[3],
                payer: &accounts[4],
                update_authority: &accounts[5],
                system_program: &accounts[6],
                sysvar_instructions: &accounts[7],
                spl_token_program,
            },
        )
    }
}

/// What the creator of an asset says of it.
#[derive(Debug, PartialEq, Eq)]
pub struct AssetData {
    pub name: String,
    pub symbol: String,
    pub uri: String,
    /// The royalties, in hundredths of a percent.
    pub seller_fee_basis_points: u16,
    pub creators: Option<Vec<Creator>>,
    pub primary_sale_happened: bool,
    pub is_mutable: bool,
    pub token_standard: TokenStandard,
    pub collection: Option<Collection>,
    pub uses: Option<Uses>,
    pub collection_details: Option<CollectionDetails>,
    /// The rules that a programmable asset follows.
    pub rule_set: Option<Address>,
}

impl AssetData {
    /// The part of the asset data that the metadata record holds as its
    /// data.
    pub open spec fn data(self) -> DataView {
        DataView {
            name: self.name@,
            symbol: self.symbol@,
            uri: self.uri@,
            seller_fee_basis_points: self.seller_fee_basis_points,
            creators: creators_view(self.creators),
        }
    }

    /// The part of the asset data that the metadata record holds as its
    /// data.
    pub fn as_data(&self) -> (r: Data)
        ensures
            r@ == self.data(),
    {
        Data {
            name: self.name.clone(),
            symbol: self.symbol.clone(),
            uri: self.uri.clone(),
            seller_fee_basis_points: self.seller_fee_basis_points,
            creators: copy_creators(&self.creators),
        }
    }
}

/// The arguments of the instruction.
#[derive(Debug, PartialEq, Eq)]
pub enum CreateArgs {
    V1 {
        asset_data: AssetData,
        /// The decimals of a new mint of a fungible asset.
        decimals: Option<u8>,
        /// The prints that the master edition of a non-fungible asset
        /// allows.
        print_supply: Option<PrintSupply>,
    },
}

/// The balances that keep the accounts that the instruction makes exempt
/// from rent. The host knows them.
#[derive(Clone, Copy, Debug, PartialEq, Eq)]
pub struct RentExemption {
    /// For a metadata account.
    pub metadata: u64,
    /// For the account of a new mint of the token program of the
    /// instruction.
    pub mint: u64,
    /// For a master edition account.
    pub master_edition: u64,
}

} // verus!
