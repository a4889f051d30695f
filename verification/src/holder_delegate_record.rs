//! The record of a delegate that the holder of a token has approved.

use crate::address::{program_id, program_id_bytes, Address};
use crate::codec::{
    dec_address, dec_u8, enc_address, enc_u8, lemma_dec_enc_address, lemma_dec_enc_u8,
    read_address, read_u8, write_address, write_u8,
};
use crate::error::MetadataError;
use crate::pda::{
    create_program_address, find_program_address, found, prefix, prefix_bytes, program_address,
    seeds_fit, seeds_view, with_bump, PdaError,
};
use crate::state::Key;
use vstd::prelude::*;
use vstd::slice::slice_to_vec;
use vstd::string::*;
use vstd::utf8::*;

verus! {

/// What a holder may delegate.
#[derive(Clone, Copy, Debug, PartialEq, Eq, Hash)]
pub enum HolderDelegateRoleSeed {
    /// The right to print editions.
    PrintDelegate,
}

impl HolderDelegateRoleSeed {
    /// The name of the role, which is its seed.
    pub open spec fn label(self) -> Seq<char> {
        "print_delegate"@
    }

    /// The bytes of the name of the role.
    pub open spec fn label_bytes(self) -> Seq<u8> {
        seq![112u8, 114, 105, 110, 116, 95, 100, 101, 108, 101, 103, 97, 116, 101]
    }

    /// The name of the role.
    pub fn to_string(&self) -> (r: String)
        ensures
            r@ == self.label(),
            encode_utf8(r@) == self.label_bytes(),
    {
        let s = "print_delegate";
        proof {
            reveal_strlit("print_delegate");
            assert(is_ascii_chars(s@));
            is_ascii_chars_encode_utf8(s@);
            assert(encode_utf8(s@) =~= self.label_bytes());
        }
        s.to_owned()
    }
}

/// The delegate that the holder of a token of `mint` has approved.
#[derive(Clone, Copy, Debug, PartialEq, Eq)]
pub struct HolderDelegateRecord {
    pub key: Key,
    pub bump: u8,
    pub mint: Address,
    pub delegate: Address,
    pub update_authority: Address,
}

/// The seeds of a holder delegate record, without the bump seed.
pub open spec fn holder_delegate_seeds(
    mint: Address,
    delegate_role: HolderDelegateRoleSeed,
    owner: Address,
    delegate: Address,
) -> Seq<Seq<u8>> {
    seq![
        prefix_bytes(),
        program_id_bytes(),
        mint@,
        delegate_role.label_bytes(),
        owner@,
        delegate@,
    ]
}

/// The seeds of a holder delegate record are within the limits of a
/// derivation, with and without a bump seed.
pub proof fn lemma_holder_delegate_seeds_fit(
    mint: Address,
    delegate_role: HolderDelegateRoleSeed,
    owner: Address,
    delegate: Address,
    bump: u8,
)
    ensures
        seeds_fit(holder_delegate_seeds(mint, delegate_role, owner, delegate)),
        seeds_fit(with_bump(holder_delegate_seeds(mint, delegate_role, owner, delegate), bump)),
{
    let s = holder_delegate_seeds(mint, delegate_role, owner, delegate);
    assert(s.len() == 6);
    assert forall|i: int| 0 <= i < s.len() implies (#[trigger] s[i]).len() <= 32 by {
        if i == 0 {
        } else if i == 1 {
        } else if i == 2 {
        } else if i == 3 {
        } else if i == 4 {
        } else {
        }
    }
    let t = with_bump(s, bump);
    assert forall|i: int| 0 <= i < t.len() implies (#[trigger] t[i]).len() <= 32 by {
        if i < 6 {
            assert(t[i] == s[i]);
        } else {
        }
    }
}

fn holder_delegate_seed_list(
    mint: &Address,
    delegate_role: HolderDelegateRoleSeed,
    owner: &Address,
    delegate: &Address,
) -> (r: Vec<Vec<u8>>)
    ensures
        seeds_view(r@) == holder_delegate_seeds(*mint, delegate_role, *owner, *delegate),
{
    let mut seeds: Vec<Vec<u8>> = Vec::new();
    seeds.push(prefix());
    seeds.push(program_id().to_vec());
    seeds.push(mint.to_vec());
    let label = delegate_role.to_string();
    seeds.push(slice_to_vec(label.as_str().as_bytes()));
    seeds.push(owner.to_vec());
    seeds.push(delegate.to_vec());
    assert(seeds_view(seeds@) =~= holder_delegate_seeds(*mint, delegate_role, *owner, *delegate));
    seeds
}

impl HolderDelegateRecord {
    /// The number of bytes of a stored record.
    pub const LEN: usize = 98;

    /// The record as it is stored.
    pub open spec fn encoding(self) -> Seq<u8> {
        enc_u8(self.key.code()) + enc_u8(self.bump) + enc_address(self.mint) + enc_address(
            self.delegate,
        ) + enc_address(self.update_authority)
    }

    /// The record that the front of `s` holds, if it holds one: five fields
    /// in order, the first of them the kind of a holder delegate record.
    pub open spec fn decoding(s: Seq<u8>) -> Option<HolderDelegateRecord> {
        match dec_u8(s) {
            Some((k, s1)) => match dec_u8(s1) {
                Some((bump, s2)) => match dec_address(s2) {
                    Some((mint, s3)) => match dec_address(s3) {
                        Some((delegate, s4)) => match dec_address(s4) {
                            Some((update_authority, s5)) => if k == Key::HolderDelegate.code() {
                                Some(
                                    HolderDelegateRecord {
                                        key: Key::HolderDelegate,
                                        bump,
                                        mint,
                                        delegate,
                                        update_authority,
                                    },
                                )
                            } else {
                                None
                            },
                            None => None,
                        },
                        None => None,
                    },
                    None => None,
                },
                None => None,
            },
            None => None,
        }
    }

    /// The address of the record of `delegate`, for a bump seed that the
    /// caller knows.
    pub fn create_pda(
        mint: Address,
        delegate_role: HolderDelegateRoleSeed,
        owner: Address,
        delegate: Address,
        bump: u8,
    ) -> (r: Result<Address, PdaError>)
        ensures
            r == program_address(
                with_bump(holder_delegate_seeds(mint, delegate_role, owner, delegate), bump),
                program_id(),
            ),
            r is Err ==> r == Err::<Address, PdaError>(PdaError::InvalidSeeds),
    {
        let mut seeds = holder_delegate_seed_list(&mint, delegate_role, &owner, &delegate);
        let mut last: Vec<u8> = Vec::new();
        last.push(bump);
        seeds.push(last);
        assert(seeds_view(seeds@) =~= with_bump(
            holder_delegate_seeds(mint, delegate_role, owner, delegate),
            bump,
        ));
        proof {
            lemma_holder_delegate_seeds_fit(mint, delegate_role, owner, delegate, bump);
        }
        let id = program_id();
        create_program_address(&seeds, &id)
    }

    /// The canonical address of the record of `delegate` and its bump seed;
    /// `BumpExhausted` where no bump seed gives an address.
    pub fn find_pda(
        mint: &Address,
        delegate_role: HolderDelegateRoleSeed,
        owner: &Address,
        delegate: &Address,
    ) -> (r: Result<(Address, u8), MetadataError>)
        ensures
            match r {
                Ok(found_pair) => found(
                    holder_delegate_seeds(*mint, delegate_role, *owner, *delegate),
                    program_id(),
                    Some(found_pair),
                ),
                Err(e) => e == MetadataError::BumpExhausted && found(
                    holder_delegate_seeds(*mint, delegate_role, *owner, *delegate),
                    program_id(),
                    None,
                ),
            },
    {
        let seeds = holder_delegate_seed_list(mint, delegate_role, owner, delegate);
        let id = program_id();
        match find_program_address(&seeds, &id) {
            Some(pair) => Ok(pair),
            None => Err(MetadataError::BumpExhausted),
        }
    }

    /// The bytes of the record as it is stored.
    pub fn to_bytes(&self) -> (r: Vec<u8>)
        ensures
            r@ == self.encoding(),
            r@.len() == HolderDelegateRecord::LEN,
    {
        let mut out: Vec<u8> = Vec::new();
        write_u8(&mut out, self.key.to_u8());
        write_u8(&mut out, self.bump);
        write_address(&mut out, &self.mint);
        write_address(&mut out, &self.delegate);
        write_address(&mut out, &self.update_authority);
        assert(out@ =~= self.encoding());
        out
    }

    /// Reads a record from the front of `data`. Fails with
    /// `MalformedAccount` where the data is too short or its first byte is
    /// not the kind of a holder delegate record.
    pub fn from_bytes(data: &[u8]) -> (r: Result<HolderDelegateRecord, MetadataError>)
        ensures
            match HolderDelegateRecord::decoding(data@) {
                Some(v) => r == Ok::<HolderDelegateRecord, MetadataError>(v),
                None => r == Err::<HolderDelegateRecord, MetadataError>(
                    MetadataError::MalformedAccount,
                ),
            },
    {
        assert(data@.skip(0) =~= data@);
        let (k, p1) = match read_u8(data, 0) {
            Some(x) => x,
            None => return Err(MetadataError::MalformedAccount),
        };
        let (bump, p2) = match read_u8(data, p1) {
            Some(x) => x,
            None => return Err(MetadataError::MalformedAccount),
        };
        let (mint, p3) = match read_address(data, p2) {
            Some(x) => x,
            None => return Err(MetadataError::MalformedAccount),
        };
        let (delegate, p4) = match read_address(data, p3) {
            Some(x) => x,
            None => return Err(MetadataError::MalformedAccount),
        };
        let (update_authority, _p5) = match read_address(data, p4) {
            Some(x) => x,
            None => return Err(MetadataError::MalformedAccount),
        };
        if k != Key::HolderDelegate.to_u8() {
            return Err(MetadataError::MalformedAccount);
        }
        Ok(HolderDelegateRecord { key: Key::HolderDelegate, bump, mint, delegate, update_authority })
    }
}

/// A stored holder delegate record is read back as it was written,
/// whatever follows it.
pub proof fn lemma_holder_delegate_round_trip(v: HolderDelegateRecord, rest: Seq<u8>)
    requires
        v.key == Key::HolderDelegate,
    ensures
        v.encoding().len() == HolderDelegateRecord::LEN,
        HolderDelegateRecord::decoding(v.encoding() + rest) == Some(v),
{
    let s5 = rest;
    let s4 = enc_address(v.update_authority) + s5;
    let s3 = enc_address(v.delegate) + s4;
    let s2 = enc_address(v.mint) + s3;
    let s1 = enc_u8(v.bump) + s2;
    let s0 = enc_u8(v.key.code()) + s1;
    assert(v.encoding() + rest =~= s0);
    lemma_dec_enc_u8(v.key.code(), s1);
    lemma_dec_enc_u8(v.bump, s2);
    lemma_dec_enc_address(v.mint, s3);
    lemma_dec_enc_address(v.delegate, s4);
    lemma_dec_enc_address(v.update_authority, s5);
}

} // verus!
