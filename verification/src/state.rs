//! The records that the program stores, apart from the metadata record
//! itself, and the small values they are made of.

use crate::address::Address;
use crate::codec::{
    dec_address, dec_u64, dec_u8, enc_address, enc_u64, enc_u8, lemma_dec_enc_address,
    lemma_dec_enc_u64, lemma_dec_enc_u8, read_address, read_is, read_u64, read_u8, write_address,
    write_u64, write_u8,
};
use vstd::prelude::*;

verus! {

// ---------------------------------------------------------------- Key

/// The kind of a stored account: the first byte of its data.
#[derive(Clone, Copy, Debug, PartialEq, Eq, Hash)]
pub enum Key {
    Uninitialized,
    EditionV1,
    MasterEditionV1,
    ReservationListV1,
    MetadataV1,
    ReservationListV2,
    MasterEditionV2,
    EditionMarker,
    UseAuthorityRecord,
    CollectionAuthorityRecord,
    TokenOwnedEscrow,
    TokenRecord,
    MetadataDelegate,
    EditionMarkerV2,
    HolderDelegate,
}

impl Key {
    /// The byte that stands for the kind: its place in the declaration.
    pub open spec fn code(self) -> u8 {
        match self {
            Key::Uninitialized => 0,
            Key::EditionV1 => 1,
            Key::MasterEditionV1 => 2,
            Key::ReservationListV1 => 3,
            Key::MetadataV1 => 4,
            Key::ReservationListV2 => 5,
            Key::MasterEditionV2 => 6,
            Key::EditionMarker => 7,
            Key::UseAuthorityRecord => 8,
            Key::CollectionAuthorityRecord => 9,
            Key::TokenOwnedEscrow => 10,
            Key::TokenRecord => 11,
            Key::MetadataDelegate => 12,
            Key::EditionMarkerV2 => 13,
            Key::HolderDelegate => 14,
        }
    }

    /// The kind that a byte stands for, if any.
    pub open spec fn from_code(b: u8) -> Option<Key> {
        if b == 0 {
            Some(Key::Uninitialized)
        } else if b == 1 {
            Some(Key::EditionV1)
        } else if b == 2 {
            Some(Key::MasterEditionV1)
        } else if b == 3 {
            Some(Key::ReservationListV1)
        } else if b == 4 {
            Some(Key::MetadataV1)
        } else if b == 5 {
            Some(Key::ReservationListV2)
        } else if b == 6 {
            Some(Key::MasterEditionV2)
        } else if b == 7 {
            Some(Key::EditionMarker)
        } else if b == 8 {
            Some(Key::UseAuthorityRecord)
        } else if b == 9 {
            Some(Key::CollectionAuthorityRecord)
        } else if b == 10 {
            Some(Key::TokenOwnedEscrow)
        } else if b == 11 {
            Some(Key::TokenRecord)
        } else if b == 12 {
            Some(Key::MetadataDelegate)
        } else if b == 13 {
            Some(Key::EditionMarkerV2)
        } else if b == 14 {
            Some(Key::HolderDelegate)
        } else {
            None
        }
    }

    /// The byte that stands for the value.
    pub fn to_u8(self) -> (r: u8)
        ensures
            r == self.code(),
    {
        match self {
            Key::Uninitialized => 0,
            Key::EditionV1 => 1,
            Key::MasterEditionV1 => 2,
            Key::ReservationListV1 => 3,
            Key::MetadataV1 => 4,
            Key::ReservationListV2 => 5,
            Key::MasterEditionV2 => 6,
            Key::EditionMarker => 7,
            Key::UseAuthorityRecord => 8,
            Key::CollectionAuthorityRecord => 9,
            Key::TokenOwnedEscrow => 10,
            Key::TokenRecord => 11,
            Key::MetadataDelegate => 12,
            Key::EditionMarkerV2 => 13,
            Key::HolderDelegate => 14,
        }
    }

    /// The value that a byte stands for, if any.
    pub fn from_u8(b: u8) -> (r: Option<Key>)
        ensures
            r == Key::from_code(b),
    {
        match b {
            0 => Some(Key::Uninitialized),
            1 => Some(Key::EditionV1),
            2 => Some(Key::MasterEditionV1),
            3 => Some(Key::ReservationListV1),
            4 => Some(Key::MetadataV1),
            5 => Some(Key::ReservationListV2),
            6 => Some(Key::MasterEditionV2),
            7 => Some(Key::EditionMarker),
            8 => Some(Key::UseAuthorityRecord),
            9 => Some(Key::CollectionAuthorityRecord),
            10 => Some(Key::TokenOwnedEscrow),
            11 => Some(Key::TokenRecord),
            12 => Some(Key::MetadataDelegate),
            13 => Some(Key::EditionMarkerV2),
            14 => Some(Key::HolderDelegate),
            _ => None,
        }
    }

    /// Whether two kinds are the same.
    pub fn same(self, other: Key) -> (r: bool)
        ensures
            r == (self == other),
    {
        self.to_u8() == other.to_u8()
    }
}

/// A byte decodes to the kind it was encoded from.
pub proof fn lemma_key_code(k: Key)
    ensures
        Key::from_code(k.code()) == Some(k),
{
}

// ---------------------------------------------------------------- TokenStandard

/// The category of an asset.
#[derive(Clone, Copy, Debug, PartialEq, Eq, Hash)]
pub enum TokenStandard {
    /// A master edition: one token, no decimals.
    NonFungible,
    /// A token with metadata that can also have attributes.
    FungibleAsset,
    /// A token with simple metadata.
    Fungible,
    /// A print of a master edition.
    NonFungibleEdition,
    /// A master edition whose transfers and delegations follow a rule set.
    ProgrammableNonFungible,
    /// A print of a programmable master edition.
    ProgrammableNonFungibleEdition,
}

impl TokenStandard {
    /// The byte that stands for the standard: its place in the declaration.
    pub open spec fn code(self) -> u8 {
        match self {
            TokenStandard::NonFungible => 0,
            TokenStandard::FungibleAsset => 1,
            TokenStandard::Fungible => 2,
            TokenStandard::NonFungibleEdition => 3,
            TokenStandard::ProgrammableNonFungible => 4,
            TokenStandard::ProgrammableNonFungibleEdition => 5,
        }
    }

    /// The value that a byte stands for, if any.
    pub open spec fn from_code(b: u8) -> Option<TokenStandard> {
        if b == 0 {
            Some(TokenStandard::NonFungible)
        } else if b == 1 {
            Some(TokenStandard::FungibleAsset)
        } else if b == 2 {
            Some(TokenStandard::Fungible)
        } else if b == 3 {
            Some(TokenStandard::NonFungibleEdition)
        } else if b == 4 {
            Some(TokenStandard::ProgrammableNonFungible)
        } else if b == 5 {
            Some(TokenStandard::ProgrammableNonFungibleEdition)
        } else {
            None
        }
    }

    /// One token, no decimals, with a master edition: the two standards
    /// that this program creates a master edition for.
    pub open spec fn is_non_fungible(self) -> bool {
        self == TokenStandard::NonFungible || self == TokenStandard::ProgrammableNonFungible
    }

    /// The two standards of prints, which are made from a master edition
    /// and never created directly.
    pub open spec fn is_edition(self) -> bool {
        self == TokenStandard::NonFungibleEdition || self
            == TokenStandard::ProgrammableNonFungibleEdition
    }

    /// The byte that stands for the value.
    pub fn to_u8(self) -> (r: u8)
        ensures
            r == self.code(),
    {
        match self {
            TokenStandard::NonFungible => 0,
            TokenStandard::FungibleAsset => 1,
            TokenStandard::Fungible => 2,
            TokenStandard::NonFungibleEdition => 3,
            TokenStandard::ProgrammableNonFungible => 4,
            TokenStandard::ProgrammableNonFungibleEdition => 5,
        }
    }

    /// The value that a byte stands for, if any.
    pub fn from_u8(b: u8) -> (r: Option<TokenStandard>)
        ensures
            r == TokenStandard::from_code(b),
    {
        match b {
            0 => Some(TokenStandard::NonFungible),
            1 => Some(TokenStandard::FungibleAsset),
            2 => Some(TokenStandard::Fungible),
            3 => Some(TokenStandard::NonFungibleEdition),
            4 => Some(TokenStandard::ProgrammableNonFungible),
            5 => Some(TokenStandard::ProgrammableNonFungibleEdition),
            _ => None,
        }
    }

    /// Whether the standard is one of the two with a master edition.
    #[verifier::when_used_as_spec(is_non_fungible)]
    pub fn non_fungible(self) -> (r: bool)
        ensures
            r == self.is_non_fungible(),
    {
        match self {
            TokenStandard::NonFungible | TokenStandard::ProgrammableNonFungible => true,
            _ => false,
        }
    }

    /// Whether the standard is that of a print.
    #[verifier::when_used_as_spec(is_edition)]
    pub fn edition(self) -> (r: bool)
        ensures
            r == self.is_edition(),
    {
        match self {
            TokenStandard::NonFungibleEdition
            | TokenStandard::ProgrammableNonFungibleEdition => true,
            _ => false,
        }
    }

    /// Whether the standard is that of a programmable master edition.
    pub fn programmable(self) -> (r: bool)
        ensures
            r == (self == TokenStandard::ProgrammableNonFungible),
    {
        match self {
            TokenStandard::ProgrammableNonFungible => true,
            _ => false,
        }
    }
}

/// A byte decodes to the token standard it was encoded from.
pub proof fn lemma_token_standard_code(t: TokenStandard)
    ensures
        TokenStandard::from_code(t.code()) == Some(t),
{
}

// ---------------------------------------------------------------- PrintSupply

/// How many prints a master edition allows.
#[derive(Clone, Copy, Debug, PartialEq, Eq, Hash)]
pub enum PrintSupply {
    /// No print can be made.
    Zero,
    /// At most this many prints.
    Limited(u64),
    /// Any number of prints.
    Unlimited,
}

impl PrintSupply {
    /// The maximum supply that the master edition records: none where the
    /// prints are unlimited.
    pub open spec fn max_supply(self) -> Option<u64> {
        match self {
            PrintSupply::Zero => Some(0),
            PrintSupply::Limited(n) => Some(n),
            PrintSupply::Unlimited => None,
        }
    }

    /// The maximum supply that the master edition records.
    pub fn to_option(self) -> (r: Option<u64>)
        ensures
            r == self.max_supply(),
    {
        match self {
            PrintSupply::Zero => Some(0),
            PrintSupply::Limited(n) => Some(n),
            PrintSupply::Unlimited => None,
        }
    }
}

// ---------------------------------------------------------------- optional scalars

/// An optional value is a tag byte, 0 for absent and 1 for present, then
/// the value where it is present.
pub open spec fn enc_opt_u8(v: Option<u8>) -> Seq<u8> {
    match v {
        None => seq![0u8],
        Some(x) => seq![1u8] + enc_u8(x),
    }
}

/// The value that the front of `s` holds, and what follows it; nothing
/// where `s` does not begin with such a value.
pub open spec fn dec_opt_u8(s: Seq<u8>) -> Option<(Option<u8>, Seq<u8>)> {
    if s.len() >= 1 && s[0] == 0 {
        Some((None, s.skip(1)))
    } else if s.len() >= 1 && s[0] == 1 {
        match dec_u8(s.skip(1)) {
            Some((x, r)) => Some((Some(x), r)),
            None => None,
        }
    } else {
        None
    }
}

/// What was encoded is decoded again, whatever follows it.
pub proof fn lemma_dec_enc_opt_u8(v: Option<u8>, rest: Seq<u8>)
    ensures
        dec_opt_u8(enc_opt_u8(v) + rest) == Some((v, rest)),
{
    let s = enc_opt_u8(v) + rest;
    match v {
        None => {
            assert(s.skip(1) =~= rest);
        },
        Some(x) => {
            assert(s.skip(1) =~= enc_u8(x) + rest);
            lemma_dec_enc_u8(x, rest);
        },
    }
}

/// Appends the encoding of the value to `out`.
pub fn write_opt_u8(out: &mut Vec<u8>, v: Option<u8>)
    ensures
        final(out)@ == old(out)@ + enc_opt_u8(v),
{
    match v {
        None => {
            out.push(0);
        },
        Some(x) => {
            out.push(1);
            write_u8(out, x);
        },
    }
    assert(out@ =~= old(out)@ + enc_opt_u8(v));
}

/// Reads a value at `pos` of `data`, and gives it with the position behind
/// it; nothing where no such value begins there.
pub fn read_opt_u8(data: &[u8], pos: usize) -> (r: Option<(Option<u8>, usize)>)
    requires
        pos <= data@.len(),
    ensures
        read_is(data@, pos, r, dec_opt_u8(data@.skip(pos as int))),
{
    if pos >= data.len() {
        return None;
    }
    assert(data@.skip(pos as int).skip(1) =~= data@.skip(pos + 1));
    let tag = data[pos];
    if tag == 0 {
        Some((None, pos + 1))
    } else if tag == 1 {
        match read_u8(data, pos + 1) {
            Some((x, next)) => Some((Some(x), next)),
            None => None,
        }
    } else {
        None
    }
}

/// The bytes that the value is stored as.
pub open spec fn enc_opt_u64(v: Option<u64>) -> Seq<u8> {
    match v {
        None => seq![0u8],
        Some(x) => seq![1u8] + enc_u64(x),
    }
}

/// The value that the front of `s` holds, and what follows it; nothing
/// where `s` does not begin with such a value.
pub open spec fn dec_opt_u64(s: Seq<u8>) -> Option<(Option<u64>, Seq<u8>)> {
    if s.len() >= 1 && s[0] == 0 {
        Some((None, s.skip(1)))
    } else if s.len() >= 1 && s[0] == 1 {
        match dec_u64(s.skip(1)) {
            Some((x, r)) => Some((Some(x), r)),
            None => None,
        }
    } else {
        None
    }
}

/// What was encoded is decoded again, whatever follows it.
pub proof fn lemma_dec_enc_opt_u64(v: Option<u64>, rest: Seq<u8>)
    ensures
        enc_opt_u64(v).len() <= 9,
        dec_opt_u64(enc_opt_u64(v) + rest) == Some((v, rest)),
{
    let s = enc_opt_u64(v) + rest;
    match v {
        None => {
            assert(s.skip(1) =~= rest);
        },
        Some(x) => {
            assert(s.skip(1) =~= enc_u64(x) + rest);
            lemma_dec_enc_u64(x, rest);
        },
    }
}

/// Appends the encoding of the value to `out`.
pub fn write_opt_u64(out: &mut Vec<u8>, v: Option<u64>)
    ensures
        final(out)@ == old(out)@ + enc_opt_u64(v),
{
    match v {
        None => {
            out.push(0);
        },
        Some(x) => {
            out.push(1);
            write_u64(out, x);
        },
    }
    assert(out@ =~= old(out)@ + enc_opt_u64(v));
}

/// Reads a value at `pos` of `data`, and gives it with the position behind
/// it; nothing where no such value begins there.
pub fn read_opt_u64(data: &[u8], pos: usize) -> (r: Option<(Option<u64>, usize)>)
    requires
        pos <= data@.len(),
    ensures
        read_is(data@, pos, r, dec_opt_u64(data@.skip(pos as int))),
{
    if pos >= data.len() {
        return None;
    }
    assert(data@.skip(pos as int).skip(1) =~= data@.skip(pos + 1));
    let tag = data[pos];
    if tag == 0 {
        Some((None, pos + 1))
    } else if tag == 1 {
        match read_u64(data, pos + 1) {
            Some((x, next)) => Some((Some(x), next)),
            None => None,
        }
    } else {
        None
    }
}

/// The bytes that the value is stored as.
pub open spec fn enc_opt_address(v: Option<Address>) -> Seq<u8> {
    match v {
        None => seq![0u8],
        Some(x) => seq![1u8] + enc_address(x),
    }
}

/// The value that the front of `s` holds, and what follows it; nothing
/// where `s` does not begin with such a value.
pub open spec fn dec_opt_address(s: Seq<u8>) -> Option<(Option<Address>, Seq<u8>)> {
    if s.len() >= 1 && s[0] == 0 {
        Some((None, s.skip(1)))
    } else if s.len() >= 1 && s[0] == 1 {
        match dec_address(s.skip(1)) {
            Some((x, r)) => Some((Some(x), r)),
            None => None,
        }
    } else {
        None
    }
}

/// What was encoded is decoded again, whatever follows it.
pub proof fn lemma_dec_enc_opt_address(v: Option<Address>, rest: Seq<u8>)
    ensures
        enc_opt_address(v).len() <= 33,
        dec_opt_address(enc_opt_address(v) + rest) == Some((v, rest)),
{
    let s = enc_opt_address(v) + rest;
    match v {
        None => {
            assert(s.skip(1) =~= rest);
        },
        Some(x) => {
            assert(s.skip(1) =~= enc_address(x) + rest);
            lemma_dec_enc_address(x, rest);
        },
    }
}

/// Appends the encoding of the value to `out`.
pub fn write_opt_address(out: &mut Vec<u8>, v: &Option<Address>)
    ensures
        final(out)@ == old(out)@ + enc_opt_address(*v),
{
    match v {
        None => {
            out.push(0);
        },
        Some(x) => {
            out.push(1);
            write_address(out, x);
        },
    }
    assert(out@ =~= old(out)@ + enc_opt_address(*v));
}

/// Reads a value at `pos` of `data`, and gives it with the position behind
/// it; nothing where no such value begins there.
pub fn read_opt_address(data: &[u8], pos: usize) -> (r: Option<(Option<Address>, usize)>)
    requires
        pos <= data@.len(),
    ensures
        read_is(data@, pos, r, dec_opt_address(data@.skip(pos as int))),
{
    if pos >= data.len() {
        return None;
    }
    assert(data@.skip(pos as int).skip(1) =~= data@.skip(pos + 1));
    let tag = data[pos];
    if tag == 0 {
        Some((None, pos + 1))
    } else if tag == 1 {
        match read_address(data, pos + 1) {
            Some((x, next)) => Some((Some(x), next)),
            None => None,
        }
    } else {
        None
    }
}

} // verus!
