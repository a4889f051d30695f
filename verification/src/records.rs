//! The small records that a metadata record is made of, each with its
//! encoding.

use crate::address::Address;
use crate::codec::{
    dec_address, dec_bool, dec_u64, dec_u8, enc_address, enc_bool, enc_u64, enc_u8,
    lemma_dec_enc_address, lemma_dec_enc_bool, lemma_dec_enc_u64, lemma_dec_enc_u8, read_address,
    read_bool, read_is, read_u64, read_u8, write_address, write_bool, write_u64, write_u8,
};
use crate::state::{
    dec_opt_address, enc_opt_address, lemma_dec_enc_opt_address, read_opt_address,
    write_opt_address, TokenStandard,
};
use vstd::prelude::*;

verus! {

/// An artist of the asset and the share of the royalties that is theirs.
#[derive(Clone, Copy, Debug, PartialEq, Eq)]
pub struct Creator {
    pub address: Address,
    pub verified: bool,
    /// In percent.
    pub share: u8,
}

/// The collection that an asset belongs to.
#[derive(Clone, Copy, Debug, PartialEq, Eq)]
pub struct Collection {
    pub verified: bool,
    pub key: Address,
}

/// How an asset is used up.
#[derive(Clone, Copy, Debug, PartialEq, Eq)]
pub enum UseMethod {
    Burn,
    Multiple,
    Single,
}

/// How often an asset can be used.
#[derive(Clone, Copy, Debug, PartialEq, Eq)]
pub struct Uses {
    pub use_method: UseMethod,
    pub remaining: u64,
    pub total: u64,
}

/// What makes an asset a collection.
#[derive(Clone, Copy, Debug, PartialEq, Eq)]
pub enum CollectionDetails {
    V1 { size: u64 },
}

/// The rules that a programmable asset follows.
#[derive(Clone, Copy, Debug, PartialEq, Eq)]
pub enum ProgrammableConfig {
    V1 { rule_set: Option<Address> },
}

impl UseMethod {
    /// The byte that stands for the value: its place in the declaration.
    pub open spec fn code(self) -> u8 {
        match self {
            UseMethod::Burn => 0,
            UseMethod::Multiple => 1,
            UseMethod::Single => 2,
        }
    }

    /// The value that a byte stands for, if any.
    pub open spec fn from_code(b: u8) -> Option<UseMethod> {
        if b == 0 {
            Some(UseMethod::Burn)
        } else if b == 1 {
            Some(UseMethod::Multiple)
        } else if b == 2 {
            Some(UseMethod::Single)
        } else {
            None
        }
    }

    /// The byte that stands for the value.
    pub fn to_u8(self) -> (r: u8)
        ensures
            r == self.code(),
    {
        match self {
            UseMethod::Burn => 0,
            UseMethod::Multiple => 1,
            UseMethod::Single => 2,
        }
    }

    /// The value that a byte stands for, if any.
    pub fn from_u8(b: u8) -> (r: Option<UseMethod>)
        ensures
            r == UseMethod::from_code(b),
    {
        match b {
            0 => Some(UseMethod::Burn),
            1 => Some(UseMethod::Multiple),
            2 => Some(UseMethod::Single),
            _ => None,
        }
    }
}

// ---------------------------------------------------------------- token standard

/// A token standard is stored as its code.
pub open spec fn enc_token_standard(v: TokenStandard) -> Seq<u8> {
    enc_u8(v.code())
}

/// The value that the front of `s` holds, and what follows it; nothing
/// where `s` does not begin with such a value.
pub open spec fn dec_token_standard(s: Seq<u8>) -> Option<(TokenStandard, Seq<u8>)> {
    match dec_u8(s) {
        Some((b, r)) => match TokenStandard::from_code(b) {
            Some(t) => Some((t, r)),
            None => None,
        },
        None => None,
    }
}

/// What was encoded is decoded again, whatever follows it.
pub proof fn lemma_dec_enc_token_standard(v: TokenStandard, rest: Seq<u8>)
    ensures
        enc_token_standard(v).len() == 1,
        dec_token_standard(enc_token_standard(v) + rest) == Some((v, rest)),
{
    lemma_dec_enc_u8(v.code(), rest);
}

/// Appends the encoding of the value to `out`.
pub fn write_token_standard(out: &mut Vec<u8>, v: TokenStandard)
    ensures
        final(out)@ == old(out)@ + enc_token_standard(v),
{
    write_u8(out, v.to_u8());
}

/// Reads a value at `pos` of `data`, and gives it with the position behind
/// it; nothing where no such value begins there.
pub fn read_token_standard(data: &[u8], pos: usize) -> (r: Option<(TokenStandard, usize)>)
    requires
        pos <= data@.len(),
    ensures
        read_is(data@, pos, r, dec_token_standard(data@.skip(pos as int))),
{
    match read_u8(data, pos) {
        Some((b, next)) => match TokenStandard::from_u8(b) {
            Some(t) => Some((t, next)),
            None => None,
        },
        None => None,
    }
}

// ---------------------------------------------------------------- creator

/// A creator is stored as address, verified flag and share: 34 bytes.
pub open spec fn enc_creator(v: Creator) -> Seq<u8> {
    enc_address(v.address) + enc_bool(v.verified) + enc_u8(v.share)
}

/// The value that the front of `s` holds, and what follows it; nothing
/// where `s` does not begin with such a value.
pub open spec fn dec_creator(s: Seq<u8>) -> Option<(Creator, Seq<u8>)> {
    match dec_address(s) {
        Some((address, s1)) => match dec_bool(s1) {
            Some((verified, s2)) => match dec_u8(s2) {
                Some((share, s3)) => Some((Creator { address, verified, share }, s3)),
                None => None,
            },
            None => None,
        },
        None => None,
    }
}

/// What was encoded is decoded again, whatever follows it.
pub proof fn lemma_dec_enc_creator(v: Creator, rest: Seq<u8>)
    ensures
        enc_creator(v).len() == 34,
        dec_creator(enc_creator(v) + rest) == Some((v, rest)),
{
    let s2 = enc_u8(v.share) + rest;
    let s1 = enc_bool(v.verified) + s2;
    assert(enc_creator(v) + rest =~= enc_address(v.address) + s1);
    lemma_dec_enc_address(v.address, s1);
    lemma_dec_enc_bool(v.verified, s2);
    lemma_dec_enc_u8(v.share, rest);
}

/// Appends the encoding of the value to `out`.
pub fn write_creator(out: &mut Vec<u8>, v: &Creator)
    ensures
        final(out)@ == old(out)@ + enc_creator(*v),
{
    write_address(out, &v.address);
    write_bool(out, v.verified);
    write_u8(out, v.share);
    assert(out@ =~= old(out)@ + enc_creator(*v));
}

/// Reads a value at `pos` of `data`, and gives it with the position behind
/// it; nothing where no such value begins there.
pub fn read_creator(data: &[u8], pos: usize) -> (r: Option<(Creator, usize)>)
    requires
        pos <= data@.len(),
    ensures
        read_is(data@, pos, r, dec_creator(data@.skip(pos as int))),
{
    let (address, p1) = match read_address(data, pos) {
        Some(x) => x,
        None => return None,
    };
    let (verified, p2) = match read_bool(data, p1) {
        Some(x) => x,
        None => return None,
    };
    let (share, p3) = match read_u8(data, p2) {
        Some(x) => x,
        None => return None,
    };
    Some((Creator { address, verified, share }, p3))
}

// ---------------------------------------------------------------- collection

/// A collection is stored as verified flag and address: 33 bytes.
pub open spec fn enc_collection(v: Collection) -> Seq<u8> {
    enc_bool(v.verified) + enc_address(v.key)
}

/// The value that the front of `s` holds, and what follows it; nothing
/// where `s` does not begin with such a value.
pub open spec fn dec_collection(s: Seq<u8>) -> Option<(Collection, Seq<u8>)> {
    match dec_bool(s) {
        Some((verified, s1)) => match dec_address(s1) {
            Some((key, s2)) => Some((Collection { verified, key }, s2)),
            None => None,
        },
        None => None,
    }
}

/// What was encoded is decoded again, whatever follows it.
pub proof fn lemma_dec_enc_collection(v: Collection, rest: Seq<u8>)
    ensures
        enc_collection(v).len() == 33,
        dec_collection(enc_collection(v) + rest) == Some((v, rest)),
{
    let s1 = enc_address(v.key) + rest;
    assert(enc_collection(v) + rest =~= enc_bool(v.verified) + s1);
    lemma_dec_enc_bool(v.verified, s1);
    lemma_dec_enc_address(v.key, rest);
}

/// Appends the encoding of the value to `out`.
pub fn write_collection(out: &mut Vec<u8>, v: &Collection)
    ensures
        final(out)@ == old(out)@ + enc_collection(*v),
{
    write_bool(out, v.verified);
    write_address(out, &v.key);
    assert(out@ =~= old(out)@ + enc_collection(*v));
}

/// Reads a value at `pos` of `data`, and gives it with the position behind
/// it; nothing where no such value begins there.
pub fn read_collection(data: &[u8], pos: usize) -> (r: Option<(Collection, usize)>)
    requires
        pos <= data@.len(),
    ensures
        read_is(data@, pos, r, dec_collection(data@.skip(pos as int))),
{
    let (verified, p1) = match read_bool(data, pos) {
        Some(x) => x,
        None => return None,
    };
    let (key, p2) = match read_address(data, p1) {
        Some(x) => x,
        None => return None,
    };
    Some((Collection { verified, key }, p2))
}

// ---------------------------------------------------------------- uses

/// Uses are stored as method, remaining and total: 17 bytes.
pub open spec fn enc_uses(v: Uses) -> Seq<u8> {
    enc_u8(v.use_method.code()) + enc_u64(v.remaining) + enc_u64(v.total)
}

/// The value that the front of `s` holds, and what follows it; nothing
/// where `s` does not begin with such a value.
pub open spec fn dec_uses(s: Seq<u8>) -> Option<(Uses, Seq<u8>)> {
    match dec_u8(s) {
        Some((b, s1)) => match dec_u64(s1) {
            Some((remaining, s2)) => match dec_u64(s2) {
                Some((total, s3)) => match UseMethod::from_code(b) {
                    Some(use_method) => Some((Uses { use_method, remaining, total }, s3)),
                    None => None,
                },
                None => None,
            },
            None => None,
        },
        None => None,
    }
}

/// What was encoded is decoded again, whatever follows it.
pub proof fn lemma_dec_enc_uses(v: Uses, rest: Seq<u8>)
    ensures
        enc_uses(v).len() == 17,
        dec_uses(enc_uses(v) + rest) == Some((v, rest)),
{
    let s2 = enc_u64(v.total) + rest;
    let s1 = enc_u64(v.remaining) + s2;
    assert(enc_uses(v) + rest =~= enc_u8(v.use_method.code()) + s1);
    lemma_dec_enc_u8(v.use_method.code(), s1);
    lemma_dec_enc_u64(v.remaining, s2);
    lemma_dec_enc_u64(v.total, rest);
}

/// Appends the encoding of the value to `out`.
pub fn write_uses(out: &mut Vec<u8>, v: &Uses)
    ensures
        final(out)@ == old(out)@ + enc_uses(*v),
{
    write_u8(out, v.use_method.to_u8());
    write_u64(out, v.remaining);
    write_u64(out, v.total);
    assert(out@ =~= old(out)@ + enc_uses(*v));
}

/// Reads a value at `pos` of `data`, and gives it with the position behind
/// it; nothing where no such value begins there.
pub fn read_uses(data: &[u8], pos: usize) -> (r: Option<(Uses, usize)>)
    requires
        pos <= data@.len(),
    ensures
        read_is(data@, pos, r, dec_uses(data@.skip(pos as int))),
{
    let (b, p1) = match read_u8(data, pos) {
        Some(x) => x,
        None => return None,
    };
    let (remaining, p2) = match read_u64(data, p1) {
        Some(x) => x,
        None => return None,
    };
    let (total, p3) = match read_u64(data, p2) {
        Some(x) => x,
        None => return None,
    };
    match UseMethod::from_u8(b) {
        Some(use_method) => Some((Uses { use_method, remaining, total }, p3)),
        None => None,
    }
}

// ---------------------------------------------------------------- collection details

/// Collection details are stored as the number of their variant, which is
/// 0, and the size: 9 bytes.
pub open spec fn enc_collection_details(v: CollectionDetails) -> Seq<u8> {
    match v {
        CollectionDetails::V1 { size } => enc_u8(0) + enc_u64(size),
    }
}

/// The value that the front of `s` holds, and what follows it; nothing
/// where `s` does not begin with such a value.
pub open spec fn dec_collection_details(s: Seq<u8>) -> Option<(CollectionDetails, Seq<u8>)> {
    match dec_u8(s) {
        Some((b, s1)) => match dec_u64(s1) {
            Some((size, s2)) => if b == 0 {
                Some((CollectionDetails::V1 { size }, s2))
            } else {
                None
            },
            None => None,
        },
        None => None,
    }
}

/// What was encoded is decoded again, whatever follows it.
pub proof fn lemma_dec_enc_collection_details(v: CollectionDetails, rest: Seq<u8>)
    ensures
        enc_collection_details(v).len() == 9,
        dec_collection_details(enc_collection_details(v) + rest) == Some((v, rest)),
{
    match v {
        CollectionDetails::V1 { size } => {
            let s1 = enc_u64(size) + rest;
            assert(enc_collection_details(v) + rest =~= enc_u8(0) + s1);
            lemma_dec_enc_u8(0, s1);
            lemma_dec_enc_u64(size, rest);
        },
    }
}

/// Appends the encoding of the value to `out`.
pub fn write_collection_details(out: &mut Vec<u8>, v: &CollectionDetails)
    ensures
        final(out)@ == old(out)@ + enc_collection_details(*v),
{
    match v {
        CollectionDetails::V1 { size } => {
            write_u8(out, 0);
            write_u64(out, *size);
        },
    }
    assert(out@ =~= old(out)@ + enc_collection_details(*v));
}

/// Reads a value at `pos` of `data`, and gives it with the position behind
/// it; nothing where no such value begins there.
pub fn read_collection_details(data: &[u8], pos: usize) -> (r: Option<(CollectionDetails, usize)>)
    requires
        pos <= data@.len(),
    ensures
        read_is(data@, pos, r, dec_collection_details(data@.skip(pos as int))),
{
    let (b, p1) = match read_u8(data, pos) {
        Some(x) => x,
        None => return None,
    };
    let (size, p2) = match read_u64(data, p1) {
        Some(x) => x,
        None => return None,
    };
    if b == 0 {
        Some((CollectionDetails::V1 { size }, p2))
    } else {
        None
    }
}

// ---------------------------------------------------------------- programmable config

/// A programmable configuration is stored as the number of its variant,
/// which is 0, and the optional rule set.
pub open spec fn enc_programmable_config(v: ProgrammableConfig) -> Seq<u8> {
    match v {
        ProgrammableConfig::V1 { rule_set } => enc_u8(0) + enc_opt_address(rule_set),
    }
}

/// The value that the front of `s` holds, and what follows it; nothing
/// where `s` does not begin with such a value.
pub open spec fn dec_programmable_config(s: Seq<u8>) -> Option<(ProgrammableConfig, Seq<u8>)> {
    match dec_u8(s) {
        Some((b, s1)) => match dec_opt_address(s1) {
            Some((rule_set, s2)) => if b == 0 {
                Some((ProgrammableConfig::V1 { rule_set }, s2))
            } else {
                None
            },
            None => None,
        },
        None => None,
    }
}

/// What was encoded is decoded again, whatever follows it.
pub proof fn lemma_dec_enc_programmable_config(v: ProgrammableConfig, rest: Seq<u8>)
    ensures
        enc_programmable_config(v).len() <= 34,
        dec_programmable_config(enc_programmable_config(v) + rest) == Some((v, rest)),
{
    match v {
        ProgrammableConfig::V1 { rule_set } => {
            let s1 = enc_opt_address(rule_set) + rest;
            assert(enc_programmable_config(v) + rest =~= enc_u8(0) + s1);
            lemma_dec_enc_u8(0, s1);
            lemma_dec_enc_opt_address(rule_set, rest);
        },
    }
}

/// Appends the encoding of the value to `out`.
pub fn write_programmable_config(out: &mut Vec<u8>, v: &ProgrammableConfig)
    ensures
        final(out)@ == old(out)@ + enc_programmable_config(*v),
{
    match v {
        ProgrammableConfig::V1 { rule_set } => {
            write_u8(out, 0);
            write_opt_address(out, rule_set);
        },
    }
    assert(out@ =~= old(out)@ + enc_programmable_config(*v));
}

/// Reads a value at `pos` of `data`, and gives it with the position behind
/// it; nothing where no such value begins there.
pub fn read_programmable_config(data: &[u8], pos: usize) -> (r: Option<
    (ProgrammableConfig, usize),
>)
    requires
        pos <= data@.len(),
    ensures
        read_is(data@, pos, r, dec_programmable_config(data@.skip(pos as int))),
{
    let (b, p1) = match read_u8(data, pos) {
        Some(x) => x,
        None => return None,
    };
    let (rule_set, p2) = match read_opt_address(data, p1) {
        Some(x) => x,
        None => return None,
    };
    if b == 0 {
        Some((ProgrammableConfig::V1 { rule_set }, p2))
    } else {
        None
    }
}

// ---------------------------------------------------------------- optional token_standard

/// The bytes that the value is stored as.
pub open spec fn enc_opt_token_standard(v: Option<TokenStandard>) -> Seq<u8> {
    match v {
        None => seq![0u8],
        Some(x) => seq![1u8] + enc_token_standard(x),
    }
}

/// The value that the front of `s` holds, and what follows it; nothing
/// where `s` does not begin with such a value.
pub open spec fn dec_opt_token_standard(s: Seq<u8>) -> Option<(Option<TokenStandard>, Seq<u8>)> {
    if s.len() >= 1 && s[0] == 0 {
        Some((None, s.skip(1)))
    } else if s.len() >= 1 && s[0] == 1 {
        match dec_token_standard(s.skip(1)) {
            Some((x, r)) => Some((Some(x), r)),
            None => None,
        }
    } else {
        None
    }
}

/// What was encoded is decoded again, whatever follows it.
pub proof fn lemma_dec_enc_opt_token_standard(v: Option<TokenStandard>, rest: Seq<u8>)
    ensures
        enc_opt_token_standard(v).len() <= 2,
        dec_opt_token_standard(enc_opt_token_standard(v) + rest) == Some((v, rest)),
{
    let s = enc_opt_token_standard(v) + rest;
    match v {
        None => {
            assert(s.skip(1) =~= rest);
        },
        Some(x) => {
            assert(s.skip(1) =~= enc_token_standard(x) + rest);
            lemma_dec_enc_token_standard(x, rest);
        },
    }
}

/// Appends the encoding of the value to `out`.
pub fn write_opt_token_standard(out: &mut Vec<u8>, v: &Option<TokenStandard>)
    ensures
        final(out)@ == old(out)@ + enc_opt_token_standard(*v),
{
    match v {
        None => {
            out.push(0);
        },
        Some(x) => {
            out.push(1);
            write_token_standard(out, *x);
        },
    }
    assert(out@ =~= old(out)@ + enc_opt_token_standard(*v));
}

/// Reads a value at `pos` of `data`, and gives it with the position behind
/// it; nothing where no such value begins there.
pub fn read_opt_token_standard(data: &[u8], pos: usize) -> (r: Option<(Option<TokenStandard>, usize)>)
    requires
        pos <= data@.len(),
    ensures
        read_is(data@, pos, r, dec_opt_token_standard(data@.skip(pos as int))),
{
    if pos >= data.len() {
        return None;
    }
    assert(data@.skip(pos as int).skip(1) =~= data@.skip(pos + 1));
    let tag = data[pos];
    if tag == 0 {
        Some((None, pos + 1))
    } else if tag == 1 {
        match read_token_standard(data, pos + 1) {
            Some((x, next)) => Some((Some(x), next)),
            None => None,
        }
    } else {
        None
    }
}

// ---------------------------------------------------------------- optional collection

/// The bytes that the value is stored as.
pub open spec fn enc_opt_collection(v: Option<Collection>) -> Seq<u8> {
    match v {
        None => seq![0u8],
        Some(x) => seq![1u8] + enc_collection(x),
    }
}

/// The value that the front of `s` holds, and what follows it; nothing
/// where `s` does not begin with such a value.
pub open spec fn dec_opt_collection(s: Seq<u8>) -> Option<(Option<Collection>, Seq<u8>)> {
    if s.len() >= 1 && s[0] == 0 {
        Some((None, s.skip(1)))
    } else if s.len() >= 1 && s[0] == 1 {
        match dec_collection(s.skip(1)) {
            Some((x, r)) => Some((Some(x), r)),
            None => None,
        }
    } else {
        None
    }
}

/// What was encoded is decoded again, whatever follows it.
pub proof fn lemma_dec_enc_opt_collection(v: Option<Collection>, rest: Seq<u8>)
    ensures
        enc_opt_collection(v).len() <= 34,
        dec_opt_collection(enc_opt_collection(v) + rest) == Some((v, rest)),
{
    let s = enc_opt_collection(v) + rest;
    match v {
        None => {
            assert(s.skip(1) =~= rest);
        },
        Some(x) => {
            assert(s.skip(1) =~= enc_collection(x) + rest);
            lemma_dec_enc_collection(x, rest);
        },
    }
}

/// Appends the encoding of the value to `out`.
pub fn write_opt_collection(out: &mut Vec<u8>, v: &Option<Collection>)
    ensures
        final(out)@ == old(out)@ + enc_opt_collection(*v),
{
    match v {
        None => {
            out.push(0);
        },
        Some(x) => {
            out.push(1);
            write_collection(out, x);
        },
    }
    assert(out@ =~= old(out)@ + enc_opt_collection(*v));
}

/// Reads a value at `pos` of `data`, and gives it with the position behind
/// it; nothing where no such value begins there.
pub fn read_opt_collection(data: &[u8], pos: usize) -> (r: Option<(Option<Collection>, usize)>)
    requires
        pos <= data@.len(),
    ensures
        read_is(data@, pos, r, dec_opt_collection(data@.skip(pos as int))),
{
    if pos >= data.len() {
        return None;
    }
    assert(data@.skip(pos as int).skip(1) =~= data@.skip(pos + 1));
    let tag = data[pos];
    if tag == 0 {
        Some((None, pos + 1))
    } else if tag == 1 {
        match read_collection(data, pos + 1) {
            Some((x, next)) => Some((Some(x), next)),
            None => None,
        }
    } else {
        None
    }
}

// ---------------------------------------------------------------- optional uses

/// The bytes that the value is stored as.
pub open spec fn enc_opt_uses(v: Option<Uses>) -> Seq<u8> {
    match v {
        None => seq![0u8],
        Some(x) => seq![1u8] + enc_uses(x),
    }
}

/// The value that the front of `s` holds, and what follows it; nothing
/// where `s` does not begin with such a value.
pub open spec fn dec_opt_uses(s: Seq<u8>) -> Option<(Option<Uses>, Seq<u8>)> {
    if s.len() >= 1 && s[0] == 0 {
        Some((None, s.skip(1)))
    } else if s.len() >= 1 && s[0] == 1 {
        match dec_uses(s.skip(1)) {
            Some((x, r)) => Some((Some(x), r)),
            None => None,
        }
    } else {
        None
    }
}

/// What was encoded is decoded again, whatever follows it.
pub proof fn lemma_dec_enc_opt_uses(v: Option<Uses>, rest: Seq<u8>)
    ensures
        enc_opt_uses(v).len() <= 18,
        dec_opt_uses(enc_opt_uses(v) + rest) == Some((v, rest)),
{
    let s = enc_opt_uses(v) + rest;
    match v {
        None => {
            assert(s.skip(1) =~= rest);
        },
        Some(x) => {
            assert(s.skip(1) =~= enc_uses(x) + rest);
            lemma_dec_enc_uses(x, rest);
        },
    }
}

/// Appends the encoding of the value to `out`.
pub fn write_opt_uses(out: &mut Vec<u8>, v: &Option<Uses>)
    ensures
        final(out)@ == old(out)@ + enc_opt_uses(*v),
{
    match v {
        None => {
            out.push(0);
        },
        Some(x) => {
            out.push(1);
            write_uses(out, x);
        },
    }
    assert(out@ =~= old(out)@ + enc_opt_uses(*v));
}

/// Reads a value at `pos` of `data`, and gives it with the position behind
/// it; nothing where no such value begins there.
pub fn read_opt_uses(data: &[u8], pos: usize) -> (r: Option<(Option<Uses>, usize)>)
    requires
        pos <= data@.len(),
    ensures
        read_is(data@, pos, r, dec_opt_uses(data@.skip(pos as int))),
{
    if pos >= data.len() {
        return None;
    }
    assert(data@.skip(pos as int).skip(1) =~= data@.skip(pos + 1));
    let tag = data[pos];
    if tag == 0 {
        Some((None, pos + 1))
    } else if tag == 1 {
        match read_uses(data, pos + 1) {
            Some((x, next)) => Some((Some(x), next)),
            None => None,
        }
    } else {
        None
    }
}

// ---------------------------------------------------------------- optional collection_details

/// The bytes that the value is stored as.
pub open spec fn enc_opt_collection_details(v: Option<CollectionDetails>) -> Seq<u8> {
    match v {
        None => seq![0u8],
        Some(x) => seq![1u8] + enc_collection_details(x),
    }
}

/// The value that the front of `s` holds, and what follows it; nothing
/// where `s` does not begin with such a value.
pub open spec fn dec_opt_collection_details(s: Seq<u8>) -> Option<(Option<CollectionDetails>, Seq<u8>)> {
    if s.len() >= 1 && s[0] == 0 {
        Some((None, s.skip(1)))
    } else if s.len() >= 1 && s[0] == 1 {
        match dec_collection_details(s.skip(1)) {
            Some((x, r)) => Some((Some(x), r)),
            None => None,
        }
    } else {
        None
    }
}

/// What was encoded is decoded again, whatever follows it.
pub proof fn lemma_dec_enc_opt_collection_details(v: Option<CollectionDetails>, rest: Seq<u8>)
    ensures
        enc_opt_collection_details(v).len() <= 10,
        dec_opt_collection_details(enc_opt_collection_details(v) + rest) == Some((v, rest)),
{
    let s = enc_opt_collection_details(v) + rest;
    match v {
        None => {
            assert(s.skip(1) =~= rest);
        },
        Some(x) => {
            assert(s.skip(1) =~= enc_collection_details(x) + rest);
            lemma_dec_enc_collection_details(x, rest);
        },
    }
}

/// Appends the encoding of the value to `out`.
pub fn write_opt_collection_details(out: &mut Vec<u8>, v: &Option<CollectionDetails>)
    ensures
        final(out)@ == old(out)@ + enc_opt_collection_details(*v),
{
    match v {
        None => {
            out.push(0);
        },
        Some(x) => {
            out.push(1);
            write_collection_details(out, x);
        },
    }
    assert(out@ =~= old(out)@ + enc_opt_collection_details(*v));
}

/// Reads a value at `pos` of `data`, and gives it with the position behind
/// it; nothing where no such value begins there.
pub fn read_opt_collection_details(data: &[u8], pos: usize) -> (r: Option<(Option<CollectionDetails>, usize)>)
    requires
        pos <= data@.len(),
    ensures
        read_is(data@, pos, r, dec_opt_collection_details(data@.skip(pos as int))),
{
    if pos >= data.len() {
        return None;
    }
    assert(data@.skip(pos as int).skip(1) =~= data@.skip(pos + 1));
    let tag = data[pos];
    if tag == 0 {
        Some((None, pos + 1))
    } else if tag == 1 {
        match read_collection_details(data, pos + 1) {
            Some((x, next)) => Some((Some(x), next)),
            None => None,
        }
    } else {
        None
    }
}

// ---------------------------------------------------------------- optional programmable_config

/// The bytes that the value is stored as.
pub open spec fn enc_opt_programmable_config(v: Option<ProgrammableConfig>) -> Seq<u8> {
    match v {
        None => seq![0u8],
        Some(x) => seq![1u8] + enc_programmable_config(x),
    }
}

/// The value that the front of `s` holds, and what follows it; nothing
/// where `s` does not begin with such a value.
pub open spec fn dec_opt_programmable_config(s: Seq<u8>) -> Option<(Option<ProgrammableConfig>, Seq<u8>)> {
    if s.len() >= 1 && s[0] == 0 {
        Some((None, s.skip(1)))
    } else if s.len() >= 1 && s[0] == 1 {
        match dec_programmable_config(s.skip(1)) {
            Some((x, r)) => Some((Some(x), r)),
            None => None,
        }
    } else {
        None
    }
}

/// What was encoded is decoded again, whatever follows it.
pub proof fn lemma_dec_enc_opt_programmable_config(v: Option<ProgrammableConfig>, rest: Seq<u8>)
    ensures
        enc_opt_programmable_config(v).len() <= 35,
        dec_opt_programmable_config(enc_opt_programmable_config(v) + rest) == Some((v, rest)),
{
    let s = enc_opt_programmable_config(v) + rest;
    match v {
        None => {
            assert(s.skip(1) =~= rest);
        },
        Some(x) => {
            assert(s.skip(1) =~= enc_programmable_config(x) + rest);
            lemma_dec_enc_programmable_config(x, rest);
        },
    }
}

/// Appends the encoding of the value to `out`.
pub fn write_opt_programmable_config(out: &mut Vec<u8>, v: &Option<ProgrammableConfig>)
    ensures
        final(out)@ == old(out)@ + enc_opt_programmable_config(*v),
{
    match v {
        None => {
            out.push(0);
        },
        Some(x) => {
            out.push(1);
            write_programmable_config(out, x);
        },
    }
    assert(out@ =~= old(out)@ + enc_opt_programmable_config(*v));
}

/// Reads a value at `pos` of `data`, and gives it with the position behind
/// it; nothing where no such value begins there.
pub fn read_opt_programmable_config(data: &[u8], pos: usize) -> (r: Option<(Option<ProgrammableConfig>, usize)>)
    requires
        pos <= data@.len(),
    ensures
        read_is(data@, pos, r, dec_opt_programmable_config(data@.skip(pos as int))),
{
    if pos >= data.len() {
        return None;
    }
    assert(data@.skip(pos as int).skip(1) =~= data@.skip(pos + 1));
    let tag = data[pos];
    if tag == 0 {
        Some((None, pos + 1))
    } else if tag == 1 {
        match read_programmable_config(data, pos + 1) {
            Some((x, next)) => Some((Some(x), next)),
            None => None,
        }
    } else {
        None
    }
}

} // verus!
