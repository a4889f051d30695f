//! Verified core of a token-metadata program: address derivation, the
//! binary layout of its accounts, the rules a mint must satisfy, and the
//! plan that creates the metadata of a mint.

pub mod address;
pub mod codec;
pub mod error;
pub mod state;
pub mod pda;
pub mod holder_delegate_record;
pub mod records;
pub mod metadata;
pub mod instruction;
pub mod mint;
pub mod master_edition;
pub mod fee;
pub mod accounts;
pub mod create;
pub mod theorems;
