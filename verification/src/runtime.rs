//! The calls that the contract makes into the NEAR runtime through `near_sdk::env`.
//!
//! Each is a trusted item: Verus believes its contract. The reads of the call
//! context (caller, current account, time, attached deposit) depend on the
//! transaction and the block, so nothing is claimed of their results; the
//! contract logic takes those results as arguments and is verified for every value.
use vstd::prelude::*;

verus! {

/// Name for the SHA-256 digest of `data`, as `near_sdk::env::sha256` computes it.
pub uninterp spec fn sha256_digest(data: Seq<u8>) -> Seq<u8>;

/// The price of one byte of storage, in yoctoNEAR, as `near_sdk::env::storage_byte_cost` returns it.
pub open spec fn spec_storage_byte_cost() -> u128 {
    10_000_000_000_000_000_000u128
}

/// Calls `near_sdk::env::sha256`. Claimed: the result is the digest named
/// `sha256_digest` of the bytes, and it is 32 bytes long (the function returns
/// the 32-byte `sha256_array` as a vector).
#[verifier::external_body]
pub(crate) fn sha256(data: &[u8]) -> (r: Vec<u8>)
    ensures
        r@ == sha256_digest(data@),
        r@.len() == 32,
{
    near_sdk::env::sha256(data)
}

/// Calls `near_sdk::env::storage_byte_cost`. Claimed: it returns the constant that its
/// source returns, 10^19 yoctoNEAR per byte.
#[verifier::external_body]
pub(crate) fn storage_byte_cost() -> (r: u128)
    ensures
        r == spec_storage_byte_cost(),
{
    near_sdk::env::storage_byte_cost().as_yoctonear()
}

/// Calls `near_sdk::env::current_account_id` and returns the account ID as a string.
/// Nothing is claimed of the account: it is the one the contract is deployed to.
#[verifier::external_body]
pub(crate) fn current_account_id() -> (r: String) {
    near_sdk::env::current_account_id().to_string()
}

/// Calls `near_sdk::env::predecessor_account_id` and returns the account ID as a string.
/// Nothing is claimed of the account: it is whoever made the call.
#[verifier::external_body]
pub(crate) fn predecessor_account_id() -> (r: String) {
    near_sdk::env::predecessor_account_id().to_string()
}

/// Calls `near_sdk::env::block_timestamp_ms`. Nothing is claimed of the time it returns.
#[verifier::external_body]
pub(crate) fn block_timestamp_ms() -> (r: u64) {
    near_sdk::env::block_timestamp_ms()
}

/// Calls `near_sdk::env::attached_deposit` and returns the amount in yoctoNEAR.
/// Nothing is claimed of the amount: it is what the caller attached.
#[verifier::external_body]
pub(crate) fn attached_deposit() -> (r: u128) {
    near_sdk::env::attached_deposit().as_yoctonear()
}

} // verus!
