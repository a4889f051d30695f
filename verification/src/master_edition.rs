//! The master edition of a non-fungible asset: the account that records
//! how many prints there are and how many there may be.

use crate::codec::{
    dec_u64, dec_u8, enc_u64, enc_u8, lemma_dec_enc_u64, lemma_dec_enc_u8, overwrite, read_u64,
    read_u8, write_u64, write_u8,
};
use crate::error::MetadataError;
use crate::state::{
    dec_opt_u64, enc_opt_u64, lemma_dec_enc_opt_u64, read_opt_u64, write_opt_u64, Key,
    TokenStandard,
};
use vstd::prelude::*;

verus! {

/// The length of a master edition account.
pub const MAX_MASTER_EDITION_LEN: usize = 282;

/// Where a master edition account holds the token standard of a
/// programmable asset: in its last byte, behind the record and its padding.
pub const TOKEN_STANDARD_INDEX: usize = 281;

/// The record of a master edition.
#[derive(Clone, Copy, Debug, PartialEq, Eq)]
pub struct MasterEdition {
    /// The kind of the account, which is `MasterEditionV2`.
    pub key: Key,
    /// The number of prints made.
    pub supply: u64,
    /// The number of prints that may be made; any number where it is absent.
    pub max_supply: Option<u64>,
}

impl MasterEdition {
    /// The record as it is stored.
    pub open spec fn encoding(self) -> Seq<u8> {
        enc_u8(self.key.code()) + enc_u64(self.supply) + enc_opt_u64(self.max_supply)
    }

    /// The record that the front of `s` holds, if it holds one: three
    /// fields, the first of them the kind of a master edition.
    pub open spec fn decoding(s: Seq<u8>) -> Option<MasterEdition> {
        match dec_u8(s) {
            Some((k, s1)) => match dec_u64(s1) {
                Some((supply, s2)) => match dec_opt_u64(s2) {
                    Some((max_supply, s3)) => if k == Key::MasterEditionV2.code() {
                        Some(MasterEdition { key: Key::MasterEditionV2, supply, max_supply })
                    } else {
                        None
                    },
                    None => None,
                },
                None => None,
            },
            None => None,
        }
    }

    /// The master edition of an asset without prints so far.
    pub fn new(max_supply: Option<u64>) -> (r: MasterEdition)
        ensures
            r == (MasterEdition { key: Key::MasterEditionV2, supply: 0, max_supply }),
    {
        MasterEdition { key: Key::MasterEditionV2, supply: 0, max_supply }
    }

    /// The bytes of the record as it is stored.
    pub fn to_bytes(&self) -> (r: Vec<u8>)
        ensures
            r@ == self.encoding(),
            r@.len() <= 18,
    {
        let mut out: Vec<u8> = Vec::new();
        write_u8(&mut out, self.key.to_u8());
        write_u64(&mut out, self.supply);
        write_opt_u64(&mut out, self.max_supply);
        proof {
            assert(out@ =~= self.encoding());
            lemma_dec_enc_u64(self.supply, Seq::empty());
            lemma_dec_enc_opt_u64(self.max_supply, Seq::empty());
        }
        out
    }

    /// Reads a record from the front of `data`. Fails with
    /// `MalformedAccount` where the data end too early, a tag is none, or
    /// the first byte is not the kind of a master edition.
    pub fn from_bytes(data: &[u8]) -> (r: Result<MasterEdition, MetadataError>)
        ensures
            match MasterEdition::decoding(data@) {
                Some(v) => r == Ok::<MasterEdition, MetadataError>(v),
                None => r == Err::<MasterEdition, MetadataError>(MetadataError::MalformedAccount),
            },
    {
        assert(data@.skip(0) =~= data@);
        let (k, p1) = match read_u8(data, 0) {
            Some(x) => x,
            None => return Err(MetadataError::MalformedAccount),
        };
        let (supply, p2) = match read_u64(data, p1) {
            Some(x) => x,
            None => return Err(MetadataError::MalformedAccount),
        };
        let (max_supply, _p3) = match read_opt_u64(data, p2) {
            Some(x) => x,
            None => return Err(MetadataError::MalformedAccount),
        };
        if k != Key::MasterEditionV2.to_u8() {
            return Err(MetadataError::MalformedAccount);
        }
        Ok(MasterEdition { key: Key::MasterEditionV2, supply, max_supply })
    }
}

/// A stored master edition is read back as it was written, whatever
/// follows it.
pub proof fn lemma_master_edition_round_trip(v: MasterEdition, rest: Seq<u8>)
    requires
        v.key == Key::MasterEditionV2,
    ensures
        v.encoding().len() <= 18,
        MasterEdition::decoding(v.encoding() + rest) == Some(v),
{
    let s2 = enc_opt_u64(v.max_supply) + rest;
    let s1 = enc_u64(v.supply) + s2;
    assert(v.encoding() + rest =~= enc_u8(v.key.code()) + s1);
    lemma_dec_enc_u8(v.key.code(), s1);
    lemma_dec_enc_u64(v.supply, s2);
    lemma_dec_enc_opt_u64(v.max_supply, rest);
}

/// The data of a master edition account after the record of a new master
/// edition was written over its front.
pub open spec fn with_master_edition(data: Seq<u8>, max_supply: Option<u64>) -> Seq<u8> {
    let e = (MasterEdition { key: Key::MasterEditionV2, supply: 0, max_supply }).encoding();
    e + data.skip(e.len() as int)
}

/// Writes the record of a new master edition over the front of the data of
/// its account. An account shorter than a master edition account is
/// refused, and stays as it is.
pub fn write_master_edition(data: &mut Vec<u8>, max_supply: Option<u64>) -> (r: Result<
    (),
    MetadataError,
>)
    ensures
        old(data)@.len() < MAX_MASTER_EDITION_LEN ==> r == Err::<(), MetadataError>(
            MetadataError::InvalidMasterEditionAccountLength,
        ) && final(data)@ == old(data)@,
        old(data)@.len() >= MAX_MASTER_EDITION_LEN ==> r == Ok::<(), MetadataError>(())
            && final(data)@ == with_master_edition(old(data)@, max_supply),
        final(data)@.len() == old(data)@.len(),
{
    if data.len() < MAX_MASTER_EDITION_LEN {
        return Err(MetadataError::InvalidMasterEditionAccountLength);
    }
    let bytes = MasterEdition::new(max_supply).to_bytes();
    overwrite(data, bytes.as_slice());
    Ok(())
}

/// Marks a master edition account as that of a programmable asset: its
/// byte at `TOKEN_STANDARD_INDEX` becomes the code of the programmable
/// standard. An account shorter than a master edition account is refused,
/// and stays as it is.
pub fn mark_programmable(data: &mut Vec<u8>) -> (r: Result<(), MetadataError>)
    ensures
        old(data)@.len() < MAX_MASTER_EDITION_LEN ==> r == Err::<(), MetadataError>(
            MetadataError::InvalidMasterEditionAccountLength,
        ) && final(data)@ == old(data)@,
        old(data)@.len() >= MAX_MASTER_EDITION_LEN ==> r == Ok::<(), MetadataError>(())
            && final(data)@ == old(data)@.update(
            TOKEN_STANDARD_INDEX as int,
            TokenStandard::ProgrammableNonFungible.code(),
        ),
{
    if data.len() < MAX_MASTER_EDITION_LEN {
        return Err(MetadataError::InvalidMasterEditionAccountLength);
    }
    data[TOKEN_STANDARD_INDEX] = TokenStandard::ProgrammableNonFungible.to_u8();
    Ok(())
}

/// The mark survives in the last byte and the record in the front: the two
/// do not overlap.
pub proof fn lemma_mark_keeps_record(data: Seq<u8>, max_supply: Option<u64>)
    requires
        data.len() >= MAX_MASTER_EDITION_LEN,
    ensures
        MasterEdition::decoding(
            with_master_edition(data, max_supply).update(
                TOKEN_STANDARD_INDEX as int,
                TokenStandard::ProgrammableNonFungible.code(),
            ),
        ) == Some(MasterEdition { key: Key::MasterEditionV2, supply: 0, max_supply }),
        MasterEdition::decoding(with_master_edition(data, max_supply)) == Some(
            MasterEdition { key: Key::MasterEditionV2, supply: 0, max_supply },
        ),
{
    let v = MasterEdition { key: Key::MasterEditionV2, supply: 0, max_supply };
    let e = v.encoding();
    let rest = data.skip(e.len() as int);
    lemma_master_edition_round_trip(v, rest);
    let marked = rest.update(
        TOKEN_STANDARD_INDEX - e.len(),
        TokenStandard::ProgrammableNonFungible.code(),
    );
    lemma_master_edition_round_trip(v, marked);
    assert(with_master_edition(data, max_supply).update(
        TOKEN_STANDARD_INDEX as int,
        TokenStandard::ProgrammableNonFungible.code(),
    ) =~= e + marked);
}

} // verus!
