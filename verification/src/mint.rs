//! What the program asks of the mint that it describes, and how it has a
//! new mint made.

use crate::address::Address;
use crate::error::MetadataError;
use crate::instruction::{
    create_account, initialize_metadata_pointer, initialize_mint2, initialize_mint_close_authority,
    perform, spl_token_2022_bytes, spl_token_2022_id, spl_token_bytes, system_program_bytes,
    Effect, Instruction, Stage,
};
use crate::state::TokenStandard;
use solana_program::program_error::ProgramError;
use solana_program::pubkey::Pubkey;
use spl_token_2022::extension::metadata_pointer::MetadataPointer;
use spl_token_2022::extension::mint_close_authority::MintCloseAuthority;
use spl_token_2022::extension::{BaseStateWithExtensions, ExtensionType, StateWithExtensions};
use vstd::prelude::*;

verus! {

/// The extension that lets an authority close the mint.
pub const EXTENSION_MINT_CLOSE_AUTHORITY: u16 = 3;

/// The extension that keeps the tokens of the mint where they are.
pub const EXTENSION_NON_TRANSFERABLE: u16 = 9;

/// The extension that names the account with the metadata of the mint.
pub const EXTENSION_METADATA_POINTER: u16 = 18;

/// The first fields of a mint account.
#[derive(Clone, Copy, Debug, PartialEq, Eq)]
pub struct MintBase {
    pub decimals: u8,
    pub supply: u64,
    pub is_initialized: bool,
}

/// Why the first fields of a mint account cannot be read.
#[derive(Clone, Copy, Debug, PartialEq, Eq)]
pub enum MintFailure {
    /// The account holds a mint that was not initialized.
    Uninitialized,
    /// The account does not hold a mint.
    Invalid,
}

/// The metadata pointer of a mint.
#[derive(Clone, Copy, Debug, PartialEq, Eq)]
pub struct MetadataPointerState {
    /// Who may change the pointer.
    pub authority: Option<Address>,
    /// The account with the metadata.
    pub metadata_address: Option<Address>,
}

/// What the program reads of a mint account.
#[derive(Clone, Debug, PartialEq, Eq)]
pub struct Mint {
    pub decimals: u8,
    pub supply: u64,
    pub is_initialized: bool,
    /// The extensions of the mint by their numbers, in the order in which
    /// the account holds them; nothing where they cannot be listed.
    pub extension_types: Option<Vec<u16>>,
    /// The close authority, where the mint has that extension.
    pub close_authority: Option<Option<Address>>,
    /// The metadata pointer, where the mint has that extension.
    pub metadata_pointer: Option<MetadataPointerState>,
}

/// [`Mint`] as mathematical values.
pub struct MintView {
    pub decimals: u8,
    pub supply: u64,
    pub is_initialized: bool,
    pub extension_types: Option<Seq<u16>>,
    pub close_authority: Option<Option<Address>>,
    pub metadata_pointer: Option<MetadataPointerState>,
}

/// The view of an optional list of numbers.
pub open spec fn types_view(v: Option<Vec<u16>>) -> Option<Seq<u16>> {
    match v {
        Some(x) => Some(x@),
        None => None,
    }
}

impl View for Mint {
    type V = MintView;

    open spec fn view(&self) -> MintView {
        MintView {
            decimals: self.decimals,
            supply: self.supply,
            is_initialized: self.is_initialized,
            extension_types: types_view(self.extension_types),
            close_authority: self.close_authority,
            metadata_pointer: self.metadata_pointer,
        }
    }
}

// ---------------------------------------------------------------- reading a mint account

/// The first fields of the mint that the account data hold, as the token
/// program reads them.
pub uninterp spec fn mint_base(data: Seq<u8>) -> Result<MintBase, MintFailure>;

/// The numbers of the extensions of the mint that the account data hold.
pub uninterp spec fn mint_extension_types(data: Seq<u8>) -> Option<Seq<u16>>;

/// The close authority of the mint that the account data hold, where the
/// mint has that extension.
pub uninterp spec fn mint_close_authority(data: Seq<u8>) -> Option<Option<Address>>;

/// The metadata pointer of the mint that the account data hold, where the
/// mint has that extension.
pub uninterp spec fn mint_metadata_pointer(data: Seq<u8>) -> Option<MetadataPointerState>;

/// `StateWithExtensions::<Mint>::unpack`, of which the base of the mint is
/// kept. Taken on trust: what it gives depends on the data alone. The
/// failure of a mint that is not initialized is told from every other.
#[verifier::external_body]
fn unpack_base(data: &[u8]) -> (r: Result<MintBase, MintFailure>)
    ensures
        r == mint_base(data@),
{
    match StateWithExtensions::<spl_token_2022::state::Mint>::unpack(data) {
        Ok(mint) => Ok(
            MintBase {
                decimals: mint.base.decimals,
                supply: mint.base.supply,
                is_initialized: mint.base.is_initialized,
            },
        ),
        Err(ProgramError::UninitializedAccount) => Err(MintFailure::Uninitialized),
        Err(_) => Err(MintFailure::Invalid),
    }
}

/// `get_extension_types` on the mint that
/// `StateWithExtensions::<Mint>::unpack` gives: the extensions in the order
/// in which the account holds them, each as its number; nothing where one
/// of the two fails. Taken on trust: the result depends on the data alone.
#[verifier::external_body]
fn unpack_extension_types(data: &[u8]) -> (r: Option<Vec<u16>>)
    ensures
        types_view(r) == mint_extension_types(data@),
{
    let mint = StateWithExtensions::<spl_token_2022::state::Mint>::unpack(data).ok()?;
    let types = mint.get_extension_types().ok()?;
    Some(types.into_iter().map(|t| u16::from(t)).collect())
}

/// `get_extension::<MintCloseAuthority>` on the mint that
/// `StateWithExtensions::<Mint>::unpack` gives: the close authority of the
/// extension; nothing where one of the two fails. Taken on trust: the
/// result depends on the data alone.
#[verifier::external_body]
fn unpack_close_authority(data: &[u8]) -> (r: Option<Option<Address>>)
    ensures
        r == mint_close_authority(data@),
{
    let mint = StateWithExtensions::<spl_token_2022::state::Mint>::unpack(data).ok()?;
    let extension = mint.get_extension::<MintCloseAuthority>().ok()?;
    let authority: Option<Pubkey> = extension.close_authority.into();
    Some(authority.map(|k| Address { bytes: k.to_bytes() }))
}

/// `get_extension::<MetadataPointer>` on the mint that
/// `StateWithExtensions::<Mint>::unpack` gives: authority and address of
/// the extension; nothing where one of the two fails. Taken on trust: the
/// result depends on the data alone.
#[verifier::external_body]
fn unpack_metadata_pointer(data: &[u8]) -> (r: Option<MetadataPointerState>)
    ensures
        r == mint_metadata_pointer(data@),
{
    let mint = StateWithExtensions::<spl_token_2022::state::Mint>::unpack(data).ok()?;
    let extension = mint.get_extension::<MetadataPointer>().ok()?;
    let authority: Option<Pubkey> = extension.authority.into();
    let metadata_address: Option<Pubkey> = extension.metadata_address.into();
    Some(
        MetadataPointerState {
            authority: authority.map(|k| Address { bytes: k.to_bytes() }),
            metadata_address: metadata_address.map(|k| Address { bytes: k.to_bytes() }),
        },
    )
}

/// The mint that the account data hold.
pub open spec fn mint_of(data: Seq<u8>) -> Result<MintView, MintFailure> {
    match mint_base(data) {
        Ok(base) => Ok(
            MintView {
                decimals: base.decimals,
                supply: base.supply,
                is_initialized: base.is_initialized,
                extension_types: mint_extension_types(data),
                close_authority: mint_close_authority(data),
                metadata_pointer: mint_metadata_pointer(data),
            },
        ),
        Err(e) => Err(e),
    }
}

/// Reads the mint that the account data hold.
pub fn parse_mint(data: &[u8]) -> (r: Result<Mint, MintFailure>)
    ensures
        match mint_of(data@) {
            Ok(v) => r matches Ok(m) && m@ == v,
            Err(e) => r == Err::<Mint, MintFailure>(e),
        },
{
    match unpack_base(data) {
        Err(e) => Err(e),
        Ok(base) => Ok(
            Mint {
                decimals: base.decimals,
                supply: base.supply,
                is_initialized: base.is_initialized,
                extension_types: unpack_extension_types(data),
                close_authority: unpack_close_authority(data),
                metadata_pointer: unpack_metadata_pointer(data),
            },
        ),
    }
}

// ---------------------------------------------------------------- the rules

/// The extensions that the mint of a non-fungible asset may have.
pub open spec fn is_allowed_extension(t: u16) -> bool {
    t == EXTENSION_MINT_CLOSE_AUTHORITY || t == EXTENSION_NON_TRANSFERABLE || t
        == EXTENSION_METADATA_POINTER
}

/// Every extension is one that a non-fungible asset may have.
pub open spec fn all_allowed(types: Seq<u16>) -> bool {
    forall|i: int| 0 <= i < types.len() ==> is_allowed_extension(#[trigger] types[i])
}

/// Decimals and supply are those of a non-fungible asset.
pub open spec fn is_single(mint: MintView) -> bool {
    mint.decimals == 0 && mint.supply <= 1
}

/// The close authority of the mint, if it has one, is the metadata account.
pub open spec fn closes_to(mint: MintView, metadata: Address) -> bool {
    mint.close_authority matches Some(a) ==> a == Some(metadata)
}

/// The metadata pointer of the mint, if it has one, has no authority and
/// points at the metadata account.
pub open spec fn points_to(mint: MintView, metadata: Address) -> bool {
    mint.metadata_pointer matches Some(p) ==> p.authority is None && p.metadata_address == Some(
        metadata,
    )
}

/// What the rules say of a mint for the token standard: the first rule
/// that the mint breaks, in the order in which the rules are held against
/// it.
pub open spec fn check_mint_spec(
    mint: MintView,
    metadata: Address,
    token_standard: TokenStandard,
) -> Result<(), MetadataError> {
    if !mint.is_initialized {
        Err(MetadataError::Uninitialized)
    } else if token_standard.is_non_fungible() && !is_single(mint) {
        Err(MetadataError::InvalidMintForTokenStandard)
    } else if token_standard == TokenStandard::ProgrammableNonFungible && mint.supply > 0 {
        Err(MetadataError::MintSupplyMustBeZero)
    } else if token_standard.is_non_fungible() && mint.extension_types is None {
        Err(MetadataError::MalformedAccount)
    } else if token_standard.is_non_fungible() && !all_allowed(mint.extension_types->0) {
        Err(MetadataError::InvalidMintExtensionType)
    } else if !closes_to(mint, metadata) {
        Err(MetadataError::InvalidMintCloseAuthority)
    } else if !points_to(mint, metadata) {
        Err(MetadataError::InvalidMetadataPointer)
    } else {
        Ok(())
    }
}

/// Whether every extension is one that a non-fungible asset may have.
pub fn extensions_allowed(types: &Vec<u16>) -> (r: bool)
    ensures
        r == all_allowed(types@),
{
    let mut i: usize = 0;
    while i < types.len()
        invariant
            i <= types@.len(),
            forall|j: int| 0 <= j < i ==> is_allowed_extension(#[trigger] types@[j]),
        decreases types@.len() - i,
    {
        let t = types[i];
        if !(t == EXTENSION_MINT_CLOSE_AUTHORITY || t == EXTENSION_NON_TRANSFERABLE || t
            == EXTENSION_METADATA_POINTER) {
            return false;
        }
        i += 1;
    }
    true
}

/// Holds the rules of the token standard against a mint that was read.
pub fn check_mint(mint: &Mint, metadata: &Address, token_standard: TokenStandard) -> (r: Result<
    (),
    MetadataError,
>)
    ensures
        r == check_mint_spec(mint@, *metadata, token_standard),
{
    if !mint.is_initialized {
        return Err(MetadataError::Uninitialized);
    }
    if token_standard.non_fungible() {
        if mint.decimals > 0 || mint.supply > 1 {
            return Err(MetadataError::InvalidMintForTokenStandard);
        }
        if token_standard.programmable() && mint.supply > 0 {
            return Err(MetadataError::MintSupplyMustBeZero);
        }
        match &mint.extension_types {
            None => {
                return Err(MetadataError::MalformedAccount);
            },
            Some(types) => {
                if !extensions_allowed(types) {
                    return Err(MetadataError::InvalidMintExtensionType);
                }
            },
        }
    }
    if let Some(close_authority) = mint.close_authority {
        let ok = match close_authority {
            Some(a) => a.same(metadata),
            None => false,
        };
        if !ok {
            return Err(MetadataError::InvalidMintCloseAuthority);
        }
    }
    if let Some(pointer) = mint.metadata_pointer {
        if pointer.authority.is_some() {
            return Err(MetadataError::InvalidMetadataPointer);
        }
        let ok = match pointer.metadata_address {
            Some(a) => a.same(metadata),
            None => false,
        };
        if !ok {
            return Err(MetadataError::InvalidMetadataPointer);
        }
    }
    Ok(())
}

/// What [`validate_mint`] says of the data of a mint account.
pub open spec fn validate_mint_spec(
    data: Seq<u8>,
    metadata: Address,
    token_standard: TokenStandard,
) -> Result<(), MetadataError> {
    match mint_of(data) {
        Ok(mint) => check_mint_spec(mint, metadata, token_standard),
        Err(MintFailure::Uninitialized) => Err(MetadataError::Uninitialized),
        Err(MintFailure::Invalid) => Err(MetadataError::MalformedAccount),
    }
}

/// Validates the mint in the account data for the token standard.
///
/// For every token standard the mint has to be initialized, its close
/// authority, if it has that extension, has to be the metadata account, and
/// its metadata pointer, if it has that extension, has to point at the
/// metadata account and have no authority.
///
/// For a non-fungible asset the mint also needs 0 decimals, a supply of at
/// most 1 (of 0 if the asset is programmable), and no extension but the
/// close authority, the non-transferable mark and the metadata pointer.
pub fn validate_mint(mint_data: &[u8], metadata: &Address, token_standard: TokenStandard) -> (r:
    Result<(), MetadataError>)
    ensures
        r == validate_mint_spec(mint_data@, *metadata, token_standard),
{
    match parse_mint(mint_data) {
        Ok(mint) => check_mint(&mint, metadata, token_standard),
        Err(MintFailure::Uninitialized) => Err(MetadataError::Uninitialized),
        Err(MintFailure::Invalid) => Err(MetadataError::MalformedAccount),
    }
}

// ---------------------------------------------------------------- a new mint

/// The length of a mint account of the classic token program.
pub const MINT_LEN: usize = 82;

/// The decimals of a fungible asset where none are asked for.
pub const DEFAULT_DECIMALS: u8 = 9;

/// The length of a mint account with the extensions of the given numbers;
/// nothing where a number is no extension or the length of an extension
/// varies.
pub uninterp spec fn extended_mint_len(extension_types: Seq<u16>) -> Option<usize>;

/// `ExtensionType::try_calculate_account_len::<Mint>`, with each number
/// turned into the extension that it stands for. Taken on trust: the
/// result depends on the numbers alone.
#[verifier::external_body]
fn account_len(extension_types: &Vec<u16>) -> (r: Option<usize>)
    ensures
        r == extended_mint_len(extension_types@),
{
    let types: Option<Vec<ExtensionType>> = extension_types.iter().map(
        |t| ExtensionType::try_from(*t).ok(),
    ).collect();
    ExtensionType::try_calculate_account_len::<spl_token_2022::state::Mint>(&types?).ok()
}

/// The extensions that a new mint is given.
pub open spec fn new_mint_extensions() -> Seq<u16> {
    seq![EXTENSION_MINT_CLOSE_AUTHORITY, EXTENSION_METADATA_POINTER]
}

/// The length of the account of a new mint of the token program: with
/// room for close authority and metadata pointer where the program is the
/// token program with extensions, else the classic length.
pub open spec fn mint_account_size_spec(token_program: Address) -> Option<usize> {
    if token_program@ == spl_token_2022_bytes() {
        extended_mint_len(new_mint_extensions())
    } else {
        Some(MINT_LEN)
    }
}

/// The length of the account of a new mint of the token program.
pub fn mint_account_size(token_program: &Address) -> (r: Option<usize>)
    ensures
        r == mint_account_size_spec(*token_program),
{
    if token_program.same(&spl_token_2022_id()) {
        let mut types: Vec<u16> = Vec::new();
        types.push(EXTENSION_MINT_CLOSE_AUTHORITY);
        types.push(EXTENSION_METADATA_POINTER);
        assert(types@ =~= new_mint_extensions());
        account_len(&types)
    } else {
        Some(MINT_LEN)
    }
}

/// The decimals of a new mint: none for a non-fungible asset, whatever is
/// asked for; for a fungible one those asked for, or the default. A print
/// has no mint of its own.
pub open spec fn resolved_decimals(token_standard: TokenStandard, decimals: Option<u8>) -> Result<
    u8,
    MetadataError,
> {
    if token_standard.is_non_fungible() {
        Ok(0u8)
    } else if token_standard.is_edition() {
        Err(MetadataError::InvalidTokenStandard)
    } else {
        match decimals {
            Some(d) => Ok(d),
            None => Ok(DEFAULT_DECIMALS),
        }
    }
}

/// The decimals of a new mint.
pub fn resolve_decimals(token_standard: TokenStandard, decimals: Option<u8>) -> (r: Result<
    u8,
    MetadataError,
>)
    ensures
        r == resolved_decimals(token_standard, decimals),
{
    match token_standard {
        TokenStandard::NonFungible | TokenStandard::ProgrammableNonFungible => Ok(0),
        TokenStandard::FungibleAsset | TokenStandard::Fungible => match decimals {
            Some(d) => Ok(d),
            None => Ok(DEFAULT_DECIMALS),
        },
        _ => Err(MetadataError::InvalidTokenStandard),
    }
}

/// The instructions that make a new mint, in the order in which the host
/// is to invoke them, and how the making ends once all of them have
/// succeeded.
#[derive(Debug, PartialEq, Eq)]
pub struct MintPlan {
    pub instructions: Vec<Instruction>,
    pub outcome: Result<(), MetadataError>,
}

/// What is known of a new mint.
pub struct NewMint {
    pub mint: Address,
    pub metadata: Address,
    pub authority: Address,
    pub payer: Address,
    pub token_standard: TokenStandard,
    pub decimals: Option<u8>,
    pub token_program: Address,
    /// The balance that keeps the account of the mint exempt from rent.
    pub rent: u64,
}

impl NewMint {
    /// The mint is made by the token program with extensions.
    pub open spec fn extended(self) -> bool {
        self.token_program@ == spl_token_2022_bytes()
    }

    /// The metadata pointer can be initialized: the metadata account is
    /// not the address of zeros.
    pub open spec fn pointer_ok(self) -> bool {
        self.metadata@ != system_program_bytes()
    }

    /// The account of the mint is created, paid by the payer with exactly
    /// the rent, and owned by the token program.
    pub open spec fn account(self, size: usize) -> Effect {
        Effect::CreateAccount {
            from: self.payer,
            to: self.mint,
            lamports: self.rent,
            space: size as u64,
            owner: self.token_program,
        }
    }

    /// The close authority of the mint becomes the metadata account.
    pub open spec fn close_authority(self) -> Effect {
        Effect::InitializeCloseAuthority {
            token_program: self.token_program,
            mint: self.mint,
            close_authority: Some(self.metadata),
        }
    }

    /// The metadata pointer of the mint points at the metadata account,
    /// and nobody may change it.
    pub open spec fn pointer(self) -> Effect {
        Effect::InitializeMetadataPointer {
            token_program: self.token_program,
            mint: self.mint,
            authority: None,
            metadata_address: Some(self.metadata),
        }
    }

    /// The mint is initialized: the authority mints and freezes.
    pub open spec fn initialized(self, decimals: u8) -> Effect {
        Effect::InitializeMint {
            token_program: self.token_program,
            mint: self.mint,
            mint_authority: self.authority,
            freeze_authority: Some(self.authority),
            decimals,
        }
    }

    /// The making of the mint: first the account; then, for the token
    /// program with extensions, close authority and metadata pointer; last
    /// the mint itself. It ends before the first instruction that cannot
    /// be built, and before the mint where the token standard has none.
    pub open spec fn stage(self) -> Stage {
        match mint_account_size_spec(self.token_program) {
            None => Stage::idle(Err(MetadataError::InvalidArgument)),
            Some(size) => if self.extended() {
                if !self.pointer_ok() {
                    Stage {
                        effects: seq![self.account(size), self.close_authority()],
                        result: Err(MetadataError::InvalidArgument),
                    }
                } else {
                    match resolved_decimals(self.token_standard, self.decimals) {
                        Err(e) => Stage {
                            effects: seq![
                                self.account(size),
                                self.close_authority(),
                                self.pointer(),
                            ],
                            result: Err(e),
                        },
                        Ok(d) => Stage {
                            effects: seq![
                                self.account(size),
                                self.close_authority(),
                                self.pointer(),
                                self.initialized(d),
                            ],
                            result: Ok(()),
                        },
                    }
                }
            } else {
                match resolved_decimals(self.token_standard, self.decimals) {
                    Err(e) => Stage { effects: seq![self.account(size)], result: Err(e) },
                    Ok(d) => if self.token_program@ == spl_token_bytes() {
                        Stage {
                            effects: seq![self.account(size), self.initialized(d)],
                            result: Ok(()),
                        }
                    } else {
                        Stage {
                            effects: seq![self.account(size)],
                            result: Err(MetadataError::IncorrectProgramId),
                        }
                    },
                }
            },
        }
    }

    /// `plan` is the plan for this mint.
    pub open spec fn planned(self, plan: MintPlan) -> bool {
        plan.outcome == self.stage().result && perform(plan.instructions@, self.stage().effects)
    }
}

/// Plans the making of a new mint for the asset.
pub fn create_mint(
    mint: &Address,
    metadata: &Address,
    authority: &Address,
    payer: &Address,
    token_standard: TokenStandard,
    decimals: Option<u8>,
    spl_token_program: &Address,
    rent: u64,
) -> (r: MintPlan)
    ensures
        (NewMint {
            mint: *mint,
            metadata: *metadata,
            authority: *authority,
            payer: *payer,
            token_standard,
            decimals,
            token_program: *spl_token_program,
            rent,
        }).planned(r),
{
    let ghost new = NewMint {
        mint: *mint,
        metadata: *metadata,
        authority: *authority,
        payer: *payer,
        token_standard,
        decimals,
        token_program: *spl_token_program,
        rent,
    };
    let mut instructions: Vec<Instruction> = Vec::new();
    let spl_token_2022 = spl_token_program.same(&spl_token_2022_id());

    let mint_account_size = match mint_account_size(spl_token_program) {
        Some(size) => size,
        None => return MintPlan { instructions, outcome: Err(MetadataError::InvalidArgument) },
    };

    instructions.push(create_account(payer, mint, rent, mint_account_size as u64, spl_token_program));

    if spl_token_2022 {
        match initialize_mint_close_authority(spl_token_program, mint, Some(*metadata)) {
            Some(ix) => instructions.push(ix),
            None => return MintPlan { instructions, outcome: Err(MetadataError::InvalidArgument) },
        }
        match initialize_metadata_pointer(spl_token_program, mint, None, Some(*metadata)) {
            Some(ix) => instructions.push(ix),
            None => return MintPlan { instructions, outcome: Err(MetadataError::InvalidArgument) },
        }
    }

    let decimals = match resolve_decimals(token_standard, decimals) {
        Ok(d) => d,
        Err(e) => return MintPlan { instructions, outcome: Err(e) },
    };

    match initialize_mint2(spl_token_program, mint, authority, Some(*authority), decimals) {
        Some(ix) => instructions.push(ix),
        None => return MintPlan { instructions, outcome: Err(MetadataError::IncorrectProgramId) },
    }
    MintPlan { instructions, outcome: Ok(()) }
}

} // verus!
