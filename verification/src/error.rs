//! The failures of the program.

use vstd::prelude::*;

verus! {

/// Why an instruction was refused. Every failure ends the invocation.
#[derive(Clone, Copy, Debug, PartialEq, Eq, Hash)]
pub enum MetadataError {
    /// The account list is shorter than the instruction needs.
    NotEnoughAccounts,
    /// The token standard cannot be created by this instruction.
    InvalidTokenStandard,
    /// A non-fungible asset was given no print supply.
    MissingPrintSupply,
    /// A non-fungible asset was given no master edition account.
    MissingMasterEditionAccount,
    /// The token program account is absent where it is needed.
    MissingSplTokenProgram,
    /// The mint account is to be created but did not sign.
    MintIsNotSigner,
    /// The name is longer than its field.
    NameTooLong,
    /// The symbol is longer than its field.
    SymbolTooLong,
    /// The URI is longer than its field.
    UriTooLong,
    /// There are more creators than the record has room for.
    TooManyCreators,
    /// The mint account is not initialized.
    Uninitialized,
    /// Decimals or supply of the mint do not fit a non-fungible asset.
    InvalidMintForTokenStandard,
    /// A programmable asset needs a mint without supply.
    MintSupplyMustBeZero,
    /// The mint has an extension that a non-fungible asset may not have.
    InvalidMintExtensionType,
    /// The close authority of the mint is not the metadata account.
    InvalidMintCloseAuthority,
    /// The metadata pointer of the mint does not point at the metadata account.
    InvalidMetadataPointer,
    /// The bytes of an account are not the record they should hold.
    MalformedAccount,
    /// The master edition account is shorter than its fixed length.
    InvalidMasterEditionAccountLength,
    /// The seeds give no valid derived address, or not the address given.
    InvalidSeeds,
    /// No bump seed gives a valid derived address.
    BumpExhausted,
    /// The payer cannot cover fee and rent.
    InsufficientFunds,
    /// The program that is to serve as token program is none.
    IncorrectProgramId,
    /// An instruction cannot be built for an argument.
    InvalidArgument,
}

} // verus!
