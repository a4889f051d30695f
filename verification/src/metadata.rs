//! The metadata record of a mint and its encoding.

use crate::address::Address;
use crate::codec::{
    at, dec_address, dec_bool, dec_str, dec_u16, dec_u32, dec_u8, enc_address, enc_bool, enc_str,
    enc_u16, enc_u32, enc_u8, lemma_dec_enc_address, lemma_dec_enc_bool, lemma_dec_enc_str,
    lemma_dec_enc_u16, lemma_dec_enc_u32, lemma_dec_enc_u8, overwrite, read_address, read_bool,
    read_str, read_u16, read_u32, read_u8, string_from_utf8, write_address, write_bool,
    write_bytes, write_str, write_u16, write_u32, write_u8, zeros,
};
use crate::error::MetadataError;
use crate::records::{
    dec_creator, dec_opt_collection, dec_opt_collection_details, dec_opt_programmable_config,
    dec_opt_token_standard, dec_opt_uses, enc_creator, enc_opt_collection,
    enc_opt_collection_details, enc_opt_programmable_config, enc_opt_token_standard,
    enc_opt_uses, lemma_dec_enc_creator, lemma_dec_enc_opt_collection,
    lemma_dec_enc_opt_collection_details, lemma_dec_enc_opt_programmable_config,
    lemma_dec_enc_opt_token_standard, lemma_dec_enc_opt_uses, read_creator, read_opt_collection,
    read_opt_collection_details, read_opt_programmable_config, read_opt_token_standard,
    read_opt_uses, write_creator, write_opt_collection, write_opt_collection_details,
    write_opt_programmable_config, write_opt_token_standard, write_opt_uses, Collection,
    CollectionDetails, Creator, ProgrammableConfig, Uses,
};
use crate::state::{
    dec_opt_u8, enc_opt_u8, lemma_dec_enc_opt_u8, read_opt_u8, write_opt_u8, Key, TokenStandard,
};
use vstd::prelude::*;
use vstd::string::*;
use vstd::utf8::*;

verus! {

/// The most bytes a name may have.
pub const MAX_NAME_LENGTH: usize = 32;

/// The most bytes a symbol may have.
pub const MAX_SYMBOL_LENGTH: usize = 10;

/// The most bytes a URI may have.
pub const MAX_URI_LENGTH: usize = 200;

/// The most creators an asset may have.
pub const MAX_CREATOR_LIMIT: usize = 5;

/// The length of a metadata account. It has room for the largest record
/// and for the byte that tells whether the fee was paid, which is its last.
pub const MAX_METADATA_LEN: usize = 679;

// ---------------------------------------------------------------- creators

/// The creators one after the other.
pub open spec fn enc_creators(v: Seq<Creator>) -> Seq<u8>
    decreases v.len(),
{
    if v.len() == 0 {
        Seq::<u8>::empty()
    } else {
        enc_creators(v.drop_last()) + enc_creator(v.last())
    }
}

/// The next `n` creators.
pub open spec fn dec_creators(s: Seq<u8>, n: nat) -> Option<(Seq<Creator>, Seq<u8>)>
    decreases n,
{
    if n == 0 {
        Some((Seq::<Creator>::empty(), s))
    } else {
        match dec_creators(s, (n - 1) as nat) {
            Some((v, r)) => match dec_creator(r) {
                Some((c, r2)) => Some((v.push(c), r2)),
                None => None,
            },
            None => None,
        }
    }
}

/// Where fewer creators cannot be read, more cannot either.
pub proof fn lemma_dec_creators_fails(s: Seq<u8>, m: nat, n: nat)
    requires
        m <= n,
        dec_creators(s, m) is None,
    ensures
        dec_creators(s, n) is None,
    decreases n,
{
    if m < n {
        lemma_dec_creators_fails(s, m, (n - 1) as nat);
    }
}

/// Each creator that is read takes 34 bytes.
pub proof fn lemma_dec_creators_len(s: Seq<u8>, n: nat)
    requires
        dec_creators(s, n) is Some,
    ensures
        34 * n <= s.len(),
        dec_creators(s, n) matches Some((v, r)) && r.len() == s.len() - 34 * n && v.len() == n,
    decreases n,
{
    if n > 0 {
        lemma_dec_creators_len(s, (n - 1) as nat);
    }
}

/// What was encoded is decoded again, whatever follows it.
pub proof fn lemma_dec_enc_creators(v: Seq<Creator>, rest: Seq<u8>)
    ensures
        enc_creators(v).len() == 34 * v.len(),
        dec_creators(enc_creators(v) + rest, v.len()) == Some((v, rest)),
    decreases v.len(),
{
    if v.len() == 0 {
        assert(enc_creators(v) + rest =~= rest);
        assert(v =~= Seq::<Creator>::empty());
    } else {
        let rest1 = enc_creator(v.last()) + rest;
        lemma_dec_enc_creators(v.drop_last(), rest1);
        assert(enc_creators(v) + rest =~= enc_creators(v.drop_last()) + rest1);
        lemma_dec_enc_creator(v.last(), rest);
        assert(v.drop_last().push(v.last()) =~= v);
    }
}

/// An optional list of creators is a tag byte, then the number of creators
/// as a `u32` and the creators.
pub open spec fn enc_opt_creators(v: Option<Seq<Creator>>) -> Seq<u8> {
    match v {
        None => seq![0u8],
        Some(x) => seq![1u8] + enc_u32(x.len() as u32) + enc_creators(x),
    }
}

/// The value that the front of `s` holds, and what follows it; nothing
/// where `s` does not begin with such a value.
pub open spec fn dec_opt_creators(s: Seq<u8>) -> Option<(Option<Seq<Creator>>, Seq<u8>)> {
    if s.len() >= 1 && s[0] == 0 {
        Some((None, s.skip(1)))
    } else if s.len() >= 1 && s[0] == 1 {
        match dec_u32(s.skip(1)) {
            Some((n, r)) => match dec_creators(r, n as nat) {
                Some((x, r2)) => Some((Some(x), r2)),
                None => None,
            },
            None => None,
        }
    } else {
        None
    }
}

/// What was encoded is decoded again, whatever follows it.
pub proof fn lemma_dec_enc_opt_creators(v: Option<Seq<Creator>>, rest: Seq<u8>)
    requires
        v matches Some(x) ==> x.len() <= u32::MAX,
    ensures
        dec_opt_creators(enc_opt_creators(v) + rest) == Some((v, rest)),
        v matches Some(x) ==> enc_opt_creators(v).len() == 5 + 34 * x.len(),
        v is None ==> enc_opt_creators(v).len() == 1,
{
    let s = enc_opt_creators(v) + rest;
    match v {
        None => {
            assert(s.skip(1) =~= rest);
        },
        Some(x) => {
            let r1 = enc_creators(x) + rest;
            assert(s.skip(1) =~= enc_u32(x.len() as u32) + r1);
            lemma_dec_enc_u32(x.len() as u32, r1);
            lemma_dec_enc_creators(x, rest);
        },
    }
}

/// The view of an optional list.
pub open spec fn creators_view(v: Option<Vec<Creator>>) -> Option<Seq<Creator>> {
    match v {
        Some(x) => Some(x@),
        None => None,
    }
}

/// Appends the encoding of the value to `out`.
pub fn write_opt_creators(out: &mut Vec<u8>, v: &Option<Vec<Creator>>)
    requires
        v matches Some(x) ==> x@.len() <= u32::MAX,
    ensures
        final(out)@ == old(out)@ + enc_opt_creators(creators_view(*v)),
{
    match v {
        None => {
            out.push(0);
            assert(out@ =~= old(out)@ + enc_opt_creators(creators_view(*v)));
        },
        Some(x) => {
            out.push(1);
            write_u32(out, x.len() as u32);
            let ghost base = out@;
            let mut i: usize = 0;
            while i < x.len()
                invariant
                    i <= x@.len(),
                    out@ == base + enc_creators(x@.take(i as int)),
                decreases x@.len() - i,
            {
                write_creator(out, &x[i]);
                proof {
                    let t = x@.take(i + 1);
                    assert(t.drop_last() =~= x@.take(i as int));
                    assert(t.last() == x@[i as int]);
                    assert(out@ =~= base + enc_creators(t));
                }
                i += 1;
            }
            assert(x@.take(i as int) =~= x@);
            assert(out@ =~= old(out)@ + enc_opt_creators(creators_view(*v)));
        },
    }
}

/// Reads a value at `pos` of `data`, and gives it with the position behind
/// it; nothing where no such value begins there.
#[verifier::loop_isolation(false)]
pub fn read_opt_creators(data: &[u8], pos: usize) -> (r: Option<(Option<Vec<Creator>>, usize)>)
    requires
        pos <= data@.len(),
    ensures
        match dec_opt_creators(data@.skip(pos as int)) {
            Some((v, rest)) => r matches Some((w, next)) && creators_view(w) == v && pos <= next
                && at(data@, next, rest),
            None => r is None,
        },
{
    if pos >= data.len() {
        return None;
    }
    assert(data@.skip(pos as int).skip(1) =~= data@.skip(pos + 1));
    let tag = data[pos];
    if tag == 0 {
        return Some((None, pos + 1));
    }
    if tag != 1 {
        return None;
    }
    let (n, start) = match read_u32(data, pos + 1) {
        Some(x) => x,
        None => return None,
    };
    let ghost s = data@.skip(start as int);
    let mut list: Vec<Creator> = Vec::new();
    let mut p: usize = start;
    let mut i: u32 = 0;
    while i < n
        invariant
            i <= n,
            start <= p <= data@.len(),
            s == data@.skip(start as int),
            dec_creators(s, i as nat) == Some((list@, data@.skip(p as int))),
        decreases n - i,
    {
        match read_creator(data, p) {
            Some((c, next)) => {
                list.push(c);
                p = next;
                i += 1;
            },
            None => {
                proof {
                    assert(dec_creators(s, (i + 1) as nat) is None);
                    lemma_dec_creators_fails(s, (i + 1) as nat, n as nat);
                }
                return None;
            },
        }
    }
    Some((Some(list), p))
}

// ---------------------------------------------------------------- data

/// What the creator of an asset says of it.
#[derive(Clone, Debug, PartialEq, Eq)]
pub struct Data {
    pub name: String,
    pub symbol: String,
    pub uri: String,
    /// The royalties, in hundredths of a percent.
    pub seller_fee_basis_points: u16,
    pub creators: Option<Vec<Creator>>,
}

/// [`Data`] as mathematical values.
pub struct DataView {
    pub name: Seq<char>,
    pub symbol: Seq<char>,
    pub uri: Seq<char>,
    pub seller_fee_basis_points: u16,
    pub creators: Option<Seq<Creator>>,
}

impl View for Data {
    type V = DataView;

    open spec fn view(&self) -> DataView {
        DataView {
            name: self.name@,
            symbol: self.symbol@,
            uri: self.uri@,
            seller_fee_basis_points: self.seller_fee_basis_points,
            creators: creators_view(self.creators),
        }
    }
}

impl DataView {
    /// Every length can be written as a `u32`.
    pub open spec fn encodable(self) -> bool {
        &&& encode_utf8(self.name).len() <= u32::MAX
        &&& encode_utf8(self.symbol).len() <= u32::MAX
        &&& encode_utf8(self.uri).len() <= u32::MAX
        &&& self.creators matches Some(x) ==> x.len() <= u32::MAX
    }

    /// Every field is within the bound that the metadata account has room
    /// for.
    pub open spec fn fits(self) -> bool {
        &&& encode_utf8(self.name).len() <= MAX_NAME_LENGTH
        &&& encode_utf8(self.symbol).len() <= MAX_SYMBOL_LENGTH
        &&& encode_utf8(self.uri).len() <= MAX_URI_LENGTH
        &&& self.creators matches Some(x) ==> x.len() <= MAX_CREATOR_LIMIT
    }
}

/// The bytes that the value is stored as.
pub open spec fn enc_data(v: DataView) -> Seq<u8> {
    enc_str(v.name) + enc_str(v.symbol) + enc_str(v.uri) + enc_u16(v.seller_fee_basis_points)
        + enc_opt_creators(v.creators)
}

/// The value that the front of `s` holds, and what follows it; nothing
/// where `s` does not begin with such a value.
pub open spec fn dec_data(s: Seq<u8>) -> Option<(DataView, Seq<u8>)> {
    match dec_str(s) {
        Some((name, s1)) => {
            match dec_str(s1) {
                Some((symbol, s2)) => {
                    match dec_str(s2) {
                        Some((uri, s3)) => {
                            match dec_u16(s3) {
                                Some((seller_fee_basis_points, s4)) => {
                                    match dec_opt_creators(s4) {
                                        Some((creators, s5)) => {
                                            Some((DataView { name, symbol, uri, seller_fee_basis_points, creators }, s5))
                                        },
                                        None => None,
                                    }
                                },
                                None => None,
                            }
                        },
                        None => None,
                    }
                },
                None => None,
            }
        },
        None => None,
    }
}

/// What was encoded is decoded again, whatever follows it.
pub proof fn lemma_dec_enc_data(v: DataView, rest: Seq<u8>)
    requires
        v.encodable(),
    ensures
        dec_data(enc_data(v) + rest) == Some((v, rest)),
        v.fits() ==> enc_data(v).len() <= 431,
{
    let s5 = rest;
    let s4 = enc_opt_creators(v.creators) + s5;
    let s3 = enc_u16(v.seller_fee_basis_points) + s4;
    let s2 = enc_str(v.uri) + s3;
    let s1 = enc_str(v.symbol) + s2;
    assert(enc_data(v) + rest =~= enc_str(v.name) + s1);
    lemma_dec_enc_str(v.name, s1);
    lemma_dec_enc_str(v.symbol, s2);
    lemma_dec_enc_str(v.uri, s3);
    lemma_dec_enc_u16(v.seller_fee_basis_points, s4);
    lemma_dec_enc_opt_creators(v.creators, s5);
    lemma_dec_enc_u32(encode_utf8(v.name).len() as u32, Seq::empty());
    lemma_dec_enc_u32(encode_utf8(v.symbol).len() as u32, Seq::empty());
    lemma_dec_enc_u32(encode_utf8(v.uri).len() as u32, Seq::empty());
}

/// Appends the encoding of the value to `out`.
pub fn write_data(out: &mut Vec<u8>, v: &Data)
    requires
        v@.encodable(),
    ensures
        final(out)@ == old(out)@ + enc_data(v@),
{
    write_str(out, v.name.as_str());
    write_str(out, v.symbol.as_str());
    write_str(out, v.uri.as_str());
    write_u16(out, v.seller_fee_basis_points);
    write_opt_creators(out, &v.creators);
    assert(out@ =~= old(out)@ + enc_data(v@));
}

/// Reads a value at `pos` of `data`, and gives it with the position behind
/// it; nothing where no such value begins there.
pub fn read_data(data: &[u8], pos: usize) -> (r: Option<(Data, usize)>)
    requires
        pos <= data@.len(),
    ensures
        match dec_data(data@.skip(pos as int)) {
            Some((v, rest)) => r matches Some((w, next)) && w@ == v && pos <= next && at(
                data@,
                next,
                rest,
            ),
            None => r is None,
        },
{
    let (name, p1) = match read_str(data, pos) {
        Some(x) => x,
        None => return None,
    };
    let (symbol, p2) = match read_str(data, p1) {
        Some(x) => x,
        None => return None,
    };
    let (uri, p3) = match read_str(data, p2) {
        Some(x) => x,
        None => return None,
    };
    let (seller_fee_basis_points, p4) = match read_u16(data, p3) {
        Some(x) => x,
        None => return None,
    };
    let (creators, p5) = match read_opt_creators(data, p4) {
        Some(x) => x,
        None => return None,
    };
    Some((Data { name, symbol, uri, seller_fee_basis_points, creators }, p5))
}

// ---------------------------------------------------------------- bounds and padding

/// The first field of `v` that is longer than the account has room for.
pub open spec fn bounds_spec(v: DataView) -> Result<(), MetadataError> {
    if encode_utf8(v.name).len() > MAX_NAME_LENGTH {
        Err(MetadataError::NameTooLong)
    } else if encode_utf8(v.symbol).len() > MAX_SYMBOL_LENGTH {
        Err(MetadataError::SymbolTooLong)
    } else if encode_utf8(v.uri).len() > MAX_URI_LENGTH {
        Err(MetadataError::UriTooLong)
    } else if v.creators is Some && v.creators->0.len() > MAX_CREATOR_LIMIT {
        Err(MetadataError::TooManyCreators)
    } else {
        Ok(())
    }
}

/// Zero bytes are text.
pub proof fn lemma_padding_is_text(text: Seq<u8>, n: nat)
    requires
        valid_utf8(text),
    ensures
        valid_utf8(text + zeros(n)),
{
    let b = text + zeros(n);
    assert(b.subrange(0, text.len() as int) =~= text);
    assert(partial_valid_utf8(b, text.len() as int));
    assert forall|i: int| text.len() <= i < b.len() implies #[trigger] is_leading_byte_width_1(
        b[i],
    ) by {}
    partial_valid_utf8_extend_ascii_block(b, text.len() as int, b.len() as int);
    assert(b.subrange(0, b.len() as int) =~= b);
}

/// The characters followed by as many NUL characters as bring them to
/// `size` bytes; the characters as they are where they have `size` bytes
/// or more.
pub open spec fn padded(chars: Seq<char>, size: nat) -> Seq<char> {
    if encode_utf8(chars).len() >= size {
        chars
    } else {
        decode_utf8(encode_utf8(chars) + zeros((size - encode_utf8(chars).len()) as nat))
    }
}

/// Padded characters are stored as the characters and then zero bytes.
pub proof fn lemma_padded(chars: Seq<char>, size: nat)
    requires
        encode_utf8(chars).len() <= size,
    ensures
        encode_utf8(padded(chars, size)) == encode_utf8(chars) + zeros(
            (size - encode_utf8(chars).len()) as nat,
        ),
        encode_utf8(padded(chars, size)).len() == size,
{
    let n = (size - encode_utf8(chars).len()) as nat;
    if n == 0 {
        assert(encode_utf8(chars) + zeros(n) =~= encode_utf8(chars));
    } else {
        encode_utf8_valid_utf8(chars);
        lemma_padding_is_text(encode_utf8(chars), n);
        decode_utf8_encode_utf8(encode_utf8(chars) + zeros(n));
    }
}

/// The string followed by as many NUL characters as bring it to `size`
/// bytes. A string that has `size` bytes or more stays as it is.
pub fn pad(s: &String, size: usize) -> (r: String)
    ensures
        r@ == padded(s@, size as nat),
{
    let bytes = s.as_str().as_bytes();
    if bytes.len() >= size {
        return s.clone();
    }
    let n = size - bytes.len();
    let mut b: Vec<u8> = Vec::new();
    write_bytes(&mut b, bytes);
    let mut i: usize = 0;
    while i < n
        invariant
            i <= n,
            b@ == bytes@ + zeros(i as nat),
        decreases n - i,
    {
        b.push(0);
        assert(b@ =~= bytes@ + zeros((i + 1) as nat));
        i += 1;
    }
    proof {
        encode_utf8_valid_utf8(s@);
        lemma_padding_is_text(bytes@, n as nat);
    }
    match string_from_utf8(b) {
        Some(r) => r,
        None => s.clone(),
    }
}

/// A copy of an optional list of creators.
pub fn copy_creators(v: &Option<Vec<Creator>>) -> (r: Option<Vec<Creator>>)
    ensures
        creators_view(r) == creators_view(*v),
{
    match v {
        None => None,
        Some(list) => {
            let mut out: Vec<Creator> = Vec::new();
            let mut i: usize = 0;
            while i < list.len()
                invariant
                    i <= list@.len(),
                    out@ == list@.take(i as int),
                decreases list@.len() - i,
            {
                out.push(list[i]);
                assert(out@ =~= list@.take(i + 1));
                i += 1;
            }
            assert(list@.take(i as int) =~= list@);
            Some(out)
        },
    }
}

/// The data with name, symbol and URI padded to the full length of their
/// fields.
pub open spec fn puffed(v: DataView) -> DataView {
    DataView {
        name: padded(v.name, MAX_NAME_LENGTH as nat),
        symbol: padded(v.symbol, MAX_SYMBOL_LENGTH as nat),
        uri: padded(v.uri, MAX_URI_LENGTH as nat),
        seller_fee_basis_points: v.seller_fee_basis_points,
        creators: v.creators,
    }
}

/// Padding keeps the data within their bounds.
pub proof fn lemma_puffed_fits(v: DataView)
    requires
        v.fits(),
    ensures
        puffed(v).fits(),
{
    lemma_padded(v.name, MAX_NAME_LENGTH as nat);
    lemma_padded(v.symbol, MAX_SYMBOL_LENGTH as nat);
    lemma_padded(v.uri, MAX_URI_LENGTH as nat);
}

impl Data {
    /// Whether every field is within the bound that the metadata account
    /// has room for; else the first that is not.
    pub fn check_bounds(&self) -> (r: Result<(), MetadataError>)
        ensures
            r == bounds_spec(self@),
            r is Ok <==> self@.fits(),
    {
        if self.name.as_str().as_bytes().len() > MAX_NAME_LENGTH {
            return Err(MetadataError::NameTooLong);
        }
        if self.symbol.as_str().as_bytes().len() > MAX_SYMBOL_LENGTH {
            return Err(MetadataError::SymbolTooLong);
        }
        if self.uri.as_str().as_bytes().len() > MAX_URI_LENGTH {
            return Err(MetadataError::UriTooLong);
        }
        if let Some(creators) = &self.creators {
            if creators.len() > MAX_CREATOR_LIMIT {
                return Err(MetadataError::TooManyCreators);
            }
        }
        Ok(())
    }

    /// The data with name, symbol and URI padded with NUL characters to
    /// the full length of their fields.
    pub fn puffed_out(&self) -> (r: Data)
        ensures
            r@ == puffed(self@),
    {
        Data {
            name: pad(&self.name, MAX_NAME_LENGTH),
            symbol: pad(&self.symbol, MAX_SYMBOL_LENGTH),
            uri: pad(&self.uri, MAX_URI_LENGTH),
            seller_fee_basis_points: self.seller_fee_basis_points,
            creators: copy_creators(&self.creators),
        }
    }
}

// ---------------------------------------------------------------- metadata

/// The record that describes the tokens of a mint.
#[derive(Clone, Debug, PartialEq, Eq)]
pub struct Metadata {
    /// The kind of the account, which is `MetadataV1`.
    pub key: Key,
    /// Who may change the record.
    pub update_authority: Address,
    /// The mint that the record describes.
    pub mint: Address,
    pub data: Data,
    /// Whether the asset was sold for the first time.
    pub primary_sale_happened: bool,
    /// Whether the record can still be changed.
    pub is_mutable: bool,
    /// The bump seed of the master edition.
    pub edition_nonce: Option<u8>,
    pub token_standard: Option<TokenStandard>,
    pub collection: Option<Collection>,
    pub uses: Option<Uses>,
    pub collection_details: Option<CollectionDetails>,
    pub programmable_config: Option<ProgrammableConfig>,
}

/// [`Metadata`] as mathematical values.
pub struct MetadataView {
    pub key: Key,
    pub update_authority: Address,
    pub mint: Address,
    pub data: DataView,
    pub primary_sale_happened: bool,
    pub is_mutable: bool,
    pub edition_nonce: Option<u8>,
    pub token_standard: Option<TokenStandard>,
    pub collection: Option<Collection>,
    pub uses: Option<Uses>,
    pub collection_details: Option<CollectionDetails>,
    pub programmable_config: Option<ProgrammableConfig>,
}

impl View for Metadata {
    type V = MetadataView;

    open spec fn view(&self) -> MetadataView {
        MetadataView {
            key: self.key,
            update_authority: self.update_authority,
            mint: self.mint,
            data: self.data@,
            primary_sale_happened: self.primary_sale_happened,
            is_mutable: self.is_mutable,
            edition_nonce: self.edition_nonce,
            token_standard: self.token_standard,
            collection: self.collection,
            uses: self.uses,
            collection_details: self.collection_details,
            programmable_config: self.programmable_config,
        }
    }
}

impl MetadataView {
    /// A record that can be stored: it has the kind of a metadata record,
    /// and its lengths can be written.
    pub open spec fn valid(self) -> bool {
        self.key == Key::MetadataV1 && self.data.encodable()
    }

    /// A record that a metadata account has room for.
    pub open spec fn fits(self) -> bool {
        self.key == Key::MetadataV1 && self.data.fits()
    }

    /// The fields after the data, as they are stored.
    pub open spec fn tail_encoding(self) -> Seq<u8> {
        enc_bool(self.primary_sale_happened) + enc_bool(self.is_mutable) + enc_opt_u8(
            self.edition_nonce,
        ) + enc_opt_token_standard(self.token_standard) + enc_opt_collection(self.collection)
            + enc_opt_uses(self.uses) + enc_opt_collection_details(self.collection_details)
            + enc_opt_programmable_config(self.programmable_config)
    }

    /// The record as it is stored.
    pub open spec fn encoding(self) -> Seq<u8> {
        enc_u8(self.key.code()) + enc_address(self.update_authority) + enc_address(self.mint)
            + enc_data(self.data) + self.tail_encoding()
    }
}

/// The fields of a metadata record that follow the data.
pub struct TailView {
    pub primary_sale_happened: bool,
    pub is_mutable: bool,
    pub edition_nonce: Option<u8>,
    pub token_standard: Option<TokenStandard>,
    pub collection: Option<Collection>,
    pub uses: Option<Uses>,
    pub collection_details: Option<CollectionDetails>,
    pub programmable_config: Option<ProgrammableConfig>,
}

impl MetadataView {
    /// The fields that follow the data.
    pub open spec fn tail(self) -> TailView {
        TailView {
            primary_sale_happened: self.primary_sale_happened,
            is_mutable: self.is_mutable,
            edition_nonce: self.edition_nonce,
            token_standard: self.token_standard,
            collection: self.collection,
            uses: self.uses,
            collection_details: self.collection_details,
            programmable_config: self.programmable_config,
        }
    }
}

/// The fields after the data, read from the front of `s`.
pub open spec fn dec_tail(s: Seq<u8>) -> Option<(TailView, Seq<u8>)> {
    match dec_bool(s) {
        Some((primary_sale_happened, s1)) => {
            match dec_bool(s1) {
                Some((is_mutable, s2)) => {
                    match dec_opt_u8(s2) {
                        Some((edition_nonce, s3)) => {
                            match dec_opt_token_standard(s3) {
                                Some((token_standard, s4)) => {
                                    match dec_opt_collection(s4) {
                                        Some((collection, s5)) => {
                                            match dec_opt_uses(s5) {
                                                Some((uses, s6)) => {
                                                    match dec_opt_collection_details(s6) {
                                                        Some((collection_details, s7)) => {
                                                            match dec_opt_programmable_config(s7) {
                                                                Some((programmable_config, s8)) => {
                                                                    Some(
                                                                        (
                                                                            TailView {
                                                                                primary_sale_happened,
                                                                                is_mutable,
                                                                                edition_nonce,
                                                                                token_standard,
                                                                                collection,
                                                                                uses,
                                                                                collection_details,
                                                                                programmable_config,
                                                                            },
                                                                            s8,
                                                                        ),
                                                                    )
                                                                },
                                                                None => None,
                                                            }
                                                        },
                                                        None => None,
                                                    }
                                                },
                                                None => None,
                                            }
                                        },
                                        None => None,
                                    }
                                },
                                None => None,
                            }
                        },
                        None => None,
                    }
                },
                None => None,
            }
        },
        None => None,
    }
}

/// The record at the front of `s` and what follows it. The first byte has
/// to be the kind of a metadata record.
pub open spec fn dec_metadata(s: Seq<u8>) -> Option<(MetadataView, Seq<u8>)> {
    match dec_u8(s) {
        Some((k, s1)) => {
            match dec_address(s1) {
                Some((update_authority, s2)) => {
                    match dec_address(s2) {
                        Some((mint, s3)) => {
                            match dec_data(s3) {
                                Some((data, s4)) => {
                                    match dec_tail(s4) {
                                        Some((t, s5)) => {
                                            if k == Key::MetadataV1.code() {
                                                Some(
                                                    (
                                                        MetadataView {
                                                            key: Key::MetadataV1,
                                                            update_authority,
                                                            mint,
                                                            data,
                                                            primary_sale_happened: t.primary_sale_happened,
                                                            is_mutable: t.is_mutable,
                                                            edition_nonce: t.edition_nonce,
                                                            token_standard: t.token_standard,
                                                            collection: t.collection,
                                                            uses: t.uses,
                                                            collection_details: t.collection_details,
                                                            programmable_config: t.programmable_config,
                                                        },
                                                        s5,
                                                    ),
                                                )
                                            } else {
                                                None
                                            }
                                        },
                                        None => None,
                                    }
                                },
                                None => None,
                            }
                        },
                        None => None,
                    }
                },
                None => None,
            }
        },
        None => None,
    }
}

/// The stored fields after the data, followed by `rest`, with the
/// concatenation nested to the right.
pub open spec fn tail_then(v: MetadataView, rest: Seq<u8>) -> Seq<u8> {
    enc_bool(v.primary_sale_happened) + (enc_bool(v.is_mutable) + (enc_opt_u8(v.edition_nonce) + (
    enc_opt_token_standard(v.token_standard) + (enc_opt_collection(v.collection) + (enc_opt_uses(
        v.uses,
    ) + (enc_opt_collection_details(v.collection_details) + (enc_opt_programmable_config(
        v.programmable_config,
    ) + rest)))))))
}

/// Concatenation may be nested to the right.
proof fn lemma_nest_right(
    a: Seq<u8>,
    b: Seq<u8>,
    c: Seq<u8>,
    d: Seq<u8>,
    e: Seq<u8>,
    f: Seq<u8>,
    g: Seq<u8>,
    h: Seq<u8>,
    rest: Seq<u8>,
)
    ensures
        (a + b + c + d + e + f + g + h) + rest == a + (b + (c + (d + (e + (f + (g + (h
            + rest))))))),
{
    assert((a + b + c + d + e + f + g + h) + rest =~= a + (b + (c + (d + (e + (f + (g + (h
        + rest))))))));
}

proof fn lemma_tail_then(v: MetadataView, rest: Seq<u8>)
    ensures
        v.tail_encoding() + rest == tail_then(v, rest),
{
    lemma_nest_right(
        enc_bool(v.primary_sale_happened),
        enc_bool(v.is_mutable),
        enc_opt_u8(v.edition_nonce),
        enc_opt_token_standard(v.token_standard),
        enc_opt_collection(v.collection),
        enc_opt_uses(v.uses),
        enc_opt_collection_details(v.collection_details),
        enc_opt_programmable_config(v.programmable_config),
        rest,
    );
}

proof fn lemma_tail_len(v: MetadataView)
    ensures
        v.tail_encoding().len() <= 103,
{
    let e = Seq::<u8>::empty();
    lemma_dec_enc_opt_u8(v.edition_nonce, e);
    lemma_dec_enc_opt_token_standard(v.token_standard, e);
    lemma_dec_enc_opt_collection(v.collection, e);
    lemma_dec_enc_opt_uses(v.uses, e);
    lemma_dec_enc_opt_collection_details(v.collection_details, e);
    lemma_dec_enc_opt_programmable_config(v.programmable_config, e);
}

proof fn lemma_dec_tail_then(v: MetadataView, rest: Seq<u8>)
    ensures
        dec_tail(tail_then(v, rest)) == Some((v.tail(), rest)),
{
    let s8 = rest;
    let s7 = enc_opt_programmable_config(v.programmable_config) + s8;
    let s6 = enc_opt_collection_details(v.collection_details) + s7;
    let s5 = enc_opt_uses(v.uses) + s6;
    let s4 = enc_opt_collection(v.collection) + s5;
    let s3 = enc_opt_token_standard(v.token_standard) + s4;
    let s2 = enc_opt_u8(v.edition_nonce) + s3;
    let s1 = enc_bool(v.is_mutable) + s2;
    lemma_dec_enc_bool(v.primary_sale_happened, s1);
    lemma_dec_enc_bool(v.is_mutable, s2);
    lemma_dec_enc_opt_u8(v.edition_nonce, s3);
    lemma_dec_enc_opt_token_standard(v.token_standard, s4);
    lemma_dec_enc_opt_collection(v.collection, s5);
    lemma_dec_enc_opt_uses(v.uses, s6);
    lemma_dec_enc_opt_collection_details(v.collection_details, s7);
    lemma_dec_enc_opt_programmable_config(v.programmable_config, s8);
}

/// The fields after the data are read back as they were written.
pub proof fn lemma_dec_enc_tail(v: MetadataView, rest: Seq<u8>)
    ensures
        dec_tail(v.tail_encoding() + rest) == Some((v.tail(), rest)),
        v.tail_encoding().len() <= 103,
{
    lemma_tail_then(v, rest);
    lemma_dec_tail_then(v, rest);
    lemma_tail_len(v);
}

/// A stored metadata record is read back as it was written, whatever
/// follows it.
pub proof fn lemma_metadata_round_trip(v: MetadataView, rest: Seq<u8>)
    requires
        v.valid(),
    ensures
        dec_metadata(v.encoding() + rest) == Some((v, rest)),
        v.fits() ==> v.encoding().len() < MAX_METADATA_LEN - 1,
{
    let s4 = v.tail_encoding() + rest;
    let s3 = enc_data(v.data) + s4;
    let s2 = enc_address(v.mint) + s3;
    let s1 = enc_address(v.update_authority) + s2;
    assert(v.encoding() + rest =~= enc_u8(v.key.code()) + s1);
    lemma_dec_enc_u8(v.key.code(), s1);
    lemma_dec_enc_address(v.update_authority, s2);
    lemma_dec_enc_address(v.mint, s3);
    lemma_dec_enc_data(v.data, s4);
    lemma_dec_enc_tail(v, rest);
}

impl MetadataView {
    /// Whether the record can be stored in a metadata account: it has the
    /// kind of a metadata record and its data are within their bounds;
    /// else why not.
    pub open spec fn check(self) -> Result<(), MetadataError> {
        if self.key != Key::MetadataV1 {
            Err(MetadataError::MalformedAccount)
        } else {
            bounds_spec(self.data)
        }
    }
}

/// The data of a metadata account after the record `v` was written over
/// its front.
pub open spec fn with_metadata(data: Seq<u8>, v: MetadataView) -> Seq<u8> {
    v.encoding() + data.skip(v.encoding().len() as int)
}

fn read_tail(data: &[u8], pos: usize) -> (r: Option<(Metadata, usize)>)
    requires
        pos <= data@.len(),
    ensures
        match dec_tail(data@.skip(pos as int)) {
            Some((t, rest)) => r matches Some((m, next)) && m@.tail() == t && pos <= next && at(
                data@,
                next,
                rest,
            ),
            None => r is None,
        },
{
    let (primary_sale_happened, p1) = match read_bool(data, pos) {
        Some(x) => x,
        None => return None,
    };
    let (is_mutable, p2) = match read_bool(data, p1) {
        Some(x) => x,
        None => return None,
    };
    let (edition_nonce, p3) = match read_opt_u8(data, p2) {
        Some(x) => x,
        None => return None,
    };
    let (token_standard, p4) = match read_opt_token_standard(data, p3) {
        Some(x) => x,
        None => return None,
    };
    let (collection, p5) = match read_opt_collection(data, p4) {
        Some(x) => x,
        None => return None,
    };
    let (uses, p6) = match read_opt_uses(data, p5) {
        Some(x) => x,
        None => return None,
    };
    let (collection_details, p7) = match read_opt_collection_details(data, p6) {
        Some(x) => x,
        None => return None,
    };
    let (programmable_config, p8) = match read_opt_programmable_config(data, p7) {
        Some(x) => x,
        None => return None,
    };
    let m = Metadata {
        key: Key::MetadataV1,
        update_authority: Address { bytes: [0u8; 32] },
        mint: Address { bytes: [0u8; 32] },
        data: Data {
            name: String::new(),
            symbol: String::new(),
            uri: String::new(),
            seller_fee_basis_points: 0,
            creators: None,
        },
        primary_sale_happened,
        is_mutable,
        edition_nonce,
        token_standard,
        collection,
        uses,
        collection_details,
        programmable_config,
    };
    Some((m, p8))
}

impl Metadata {
    /// The bytes of the record as it is stored. A record that is not of
    /// the kind of a metadata record, or whose data are beyond their
    /// bounds, is refused.
    pub fn to_bytes(&self) -> (r: Result<Vec<u8>, MetadataError>)
        ensures
            match self@.check() {
                Ok(_) => r matches Ok(b) && b@ == self@.encoding() && b@.len() < MAX_METADATA_LEN
                    - 1,
                Err(e) => r == Err::<Vec<u8>, MetadataError>(e),
            },
    {
        if !self.key.same(Key::MetadataV1) {
            return Err(MetadataError::MalformedAccount);
        }
        match self.data.check_bounds() {
            Err(e) => {
                return Err(e);
            },
            Ok(_) => {},
        }
        let mut out: Vec<u8> = Vec::new();
        write_u8(&mut out, self.key.to_u8());
        write_address(&mut out, &self.update_authority);
        write_address(&mut out, &self.mint);
        write_data(&mut out, &self.data);
        let ghost head = out@;
        write_bool(&mut out, self.primary_sale_happened);
        write_bool(&mut out, self.is_mutable);
        write_opt_u8(&mut out, self.edition_nonce);
        write_opt_token_standard(&mut out, &self.token_standard);
        write_opt_collection(&mut out, &self.collection);
        write_opt_uses(&mut out, &self.uses);
        write_opt_collection_details(&mut out, &self.collection_details);
        write_opt_programmable_config(&mut out, &self.programmable_config);
        proof {
            assert(out@ == head + self@.tail_encoding()) by {
                lemma_nest_left(
                    head,
                    enc_bool(self.primary_sale_happened),
                    enc_bool(self.is_mutable),
                    enc_opt_u8(self.edition_nonce),
                    enc_opt_token_standard(self.token_standard),
                    enc_opt_collection(self.collection),
                    enc_opt_uses(self.uses),
                    enc_opt_collection_details(self.collection_details),
                    enc_opt_programmable_config(self.programmable_config),
                );
            }
            assert(head =~= enc_u8(self.key.code()) + enc_address(self.update_authority)
                + enc_address(self.mint) + enc_data(self.data@));
            lemma_metadata_round_trip(self@, Seq::empty());
        }
        Ok(out)
    }

    /// Reads a record from the front of `data`. Fails with
    /// `MalformedAccount` where the data end too early, a length runs past
    /// their end, a string is not UTF-8, a tag or a variant is none, or the
    /// first byte is not the kind of a metadata record.
    pub fn from_bytes(data: &[u8]) -> (r: Result<Metadata, MetadataError>)
        ensures
            match dec_metadata(data@) {
                Some((v, rest)) => r matches Ok(m) && m@ == v,
                None => r == Err::<Metadata, MetadataError>(MetadataError::MalformedAccount),
            },
    {
        assert(data@.skip(0) =~= data@);
        let (k, p1) = match read_u8(data, 0) {
            Some(x) => x,
            None => return Err(MetadataError::MalformedAccount),
        };
        let (update_authority, p2) = match read_address(data, p1) {
            Some(x) => x,
            None => return Err(MetadataError::MalformedAccount),
        };
        let (mint, p3) = match read_address(data, p2) {
            Some(x) => x,
            None => return Err(MetadataError::MalformedAccount),
        };
        let (d, p4) = match read_data(data, p3) {
            Some(x) => x,
            None => return Err(MetadataError::MalformedAccount),
        };
        let (t, _p5) = match read_tail(data, p4) {
            Some(x) => x,
            None => return Err(MetadataError::MalformedAccount),
        };
        if k != Key::MetadataV1.to_u8() {
            return Err(MetadataError::MalformedAccount);
        }
        Ok(
            Metadata {
                key: Key::MetadataV1,
                update_authority,
                mint,
                data: d,
                primary_sale_happened: t.primary_sale_happened,
                is_mutable: t.is_mutable,
                edition_nonce: t.edition_nonce,
                token_standard: t.token_standard,
                collection: t.collection,
                uses: t.uses,
                collection_details: t.collection_details,
                programmable_config: t.programmable_config,
            },
        )
    }

    /// Writes the record over the front of the data of its account. A
    /// record that cannot be stored is refused, and so is an account
    /// shorter than a metadata account; the data then stay as they are.
    pub fn save(&self, data: &mut Vec<u8>) -> (r: Result<(), MetadataError>)
        ensures
            match self@.check() {
                Ok(_) => if old(data)@.len() >= MAX_METADATA_LEN {
                    r == Ok::<(), MetadataError>(()) && final(data)@ == with_metadata(
                        old(data)@,
                        self@,
                    )
                } else {
                    r == Err::<(), MetadataError>(MetadataError::MalformedAccount) && final(data)@
                        == old(data)@
                },
                Err(e) => r == Err::<(), MetadataError>(e) && final(data)@ == old(data)@,
            },
            final(data)@.len() == old(data)@.len(),
    {
        let bytes = match self.to_bytes() {
            Ok(b) => b,
            Err(e) => return Err(e),
        };
        if data.len() < MAX_METADATA_LEN {
            return Err(MetadataError::MalformedAccount);
        }
        overwrite(data, bytes.as_slice());
        Ok(())
    }
}

/// Concatenation may be nested to the left.
proof fn lemma_nest_left(
    head: Seq<u8>,
    a: Seq<u8>,
    b: Seq<u8>,
    c: Seq<u8>,
    d: Seq<u8>,
    e: Seq<u8>,
    f: Seq<u8>,
    g: Seq<u8>,
    h: Seq<u8>,
)
    ensures
        head + a + b + c + d + e + f + g + h == head + (a + b + c + d + e + f + g + h),
{
    assert(head + a + b + c + d + e + f + g + h =~= head + (a + b + c + d + e + f + g + h));
}

} // verus!
