//! The fee of the protocol: levied into the metadata account before the
//! account is allocated, and marked as paid in its last byte.

use crate::address::Address;
use crate::error::MetadataError;
use crate::instruction::{performs, transfer, Effect, Instruction, Stage};
use crate::metadata::MAX_METADATA_LEN;
use vstd::prelude::*;

verus! {

/// The fee for a metadata account, in lamports.
pub const CREATE_FEE: u64 = 10_000_000;

/// The byte that says that the fee was paid.
pub const FEE_FLAG_SET: u8 = 1;

/// Where a metadata account says whether the fee was paid: in its last
/// byte.
pub const METADATA_FEE_FLAG_INDEX: usize = 678;

/// What the payer hands to the metadata account: the fee, and the rent of
/// a metadata account.
pub open spec fn levied(rent: u64) -> int {
    CREATE_FEE + rent
}

/// The levy: the payer hands fee and rent to the metadata account, or
/// cannot cover them.
pub open spec fn levy_stage(payer: Address, payer_lamports: u64, metadata: Address, rent: u64) -> Stage {
    if payer_lamports < levied(rent) {
        Stage::idle(Err(MetadataError::InsufficientFunds))
    } else {
        Stage {
            effects: seq![
                Effect::Transfer { from: payer, to: metadata, lamports: levied(rent) as u64 },
            ],
            result: Ok(()),
        }
    }
}

/// Levies fee and rent from the payer into the metadata account. The
/// account need not exist yet: it can hold lamports before it is
/// allocated.
pub fn levy(payer: &Address, payer_lamports: u64, metadata: &Address, rent: u64) -> (r: Result<
    Instruction,
    MetadataError,
>)
    ensures
        match r {
            Ok(ix) => payer_lamports >= levied(rent) && performs(
                ix,
                levy_stage(*payer, payer_lamports, *metadata, rent).effects[0],
            ),
            Err(e) => payer_lamports < levied(rent) && e == MetadataError::InsufficientFunds,
        },
{
    match CREATE_FEE.checked_add(rent) {
        Some(amount) => {
            if payer_lamports < amount {
                Err(MetadataError::InsufficientFunds)
            } else {
                Ok(transfer(payer, metadata, amount))
            }
        },
        None => Err(MetadataError::InsufficientFunds),
    }
}

/// Whether the data of a metadata account say that the fee was paid.
pub open spec fn fee_paid(data: Seq<u8>) -> bool {
    data.len() >= MAX_METADATA_LEN && data[METADATA_FEE_FLAG_INDEX as int] == FEE_FLAG_SET
}

/// Whether the data of a metadata account say that the fee was paid.
pub fn has_fee_flag(data: &[u8]) -> (r: bool)
    ensures
        r == fee_paid(data@),
{
    data.len() >= MAX_METADATA_LEN && data[METADATA_FEE_FLAG_INDEX] == FEE_FLAG_SET
}

/// Marks the fee as paid in the data of a metadata account. Data shorter
/// than a metadata account are refused, and stay as they are.
pub fn set_fee_flag(data: &mut Vec<u8>) -> (r: Result<(), MetadataError>)
    ensures
        old(data)@.len() < MAX_METADATA_LEN ==> r == Err::<(), MetadataError>(
            MetadataError::MalformedAccount,
        ) && final(data)@ == old(data)@,
        old(data)@.len() >= MAX_METADATA_LEN ==> r == Ok::<(), MetadataError>(()) && final(data)@
            == old(data)@.update(METADATA_FEE_FLAG_INDEX as int, FEE_FLAG_SET),
        r is Ok ==> fee_paid(final(data)@),
{
    if data.len() < MAX_METADATA_LEN {
        return Err(MetadataError::MalformedAccount);
    }
    data[METADATA_FEE_FLAG_INDEX] = FEE_FLAG_SET;
    Ok(())
}

} // verus!
