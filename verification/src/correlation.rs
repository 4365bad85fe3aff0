//! The correlation identifier that links the two phases of a round.
//!
//! Neither phase hands the identifier to the other. Each derives it from the
//! lengths of the two input buffers, so the same input gives the same
//! identifier wherever and whenever it is computed.

use vstd::prelude::*;
use crate::input::Input;

verus! {

/// The longest batch, in bytes, whose identifier fits in 64 signed bits when
/// the collection identifier has its proper length of twenty bytes: about
/// nine petabytes.
pub const MAX_BATCH_BYTES: u64 = 9_223_372_036_854_775;

/// The identifier of a round: the byte length of the batch, not its item
/// count, a thousand times, plus the byte length of the collection identifier.
pub open spec fn external_id(batch_len: nat, collection_len: nat) -> nat {
    batch_len * 1000 + collection_len
}

/// The identifier of the round that an input belongs to.
pub open spec fn correlation_id_of(input: &Input) -> nat {
    external_id(input.encoded_token_ids@.len(), input.collection@.len())
}

/// The identifier can be held in 64 signed bits.
pub open spec fn correlation_id_fits(input: &Input) -> bool {
    correlation_id_of(input) <= i64::MAX
}

/// Says whether the identifier of an input can be held in 64 signed bits, as
/// `correlation_id` needs it.
pub fn id_in_range(input: &Input) -> (fits: bool)
    ensures
        fits == correlation_id_fits(input),
{
    let batch_len: u128 = input.encoded_token_ids.len() as u128;
    let collection_len: u128 = input.collection.len() as u128;
    batch_len * 1000 + collection_len <= 0x7fff_ffff_ffff_ffff
}

/// Computes the identifier of the round that an input belongs to.
pub fn correlation_id(input: &Input) -> (id: i64)
    requires
        correlation_id_fits(input),
    ensures
        id == correlation_id_of(input),
        id == external_id(input.encoded_token_ids@.len(), input.collection@.len()),
{
    let batch_len: i64 = input.encoded_token_ids.len() as i64;
    let collection_len: i64 = input.collection.len() as i64;
    batch_len * 1000 + collection_len
}

/// The identifier depends on the two lengths and on nothing else: inputs that
/// agree in both lengths belong to the same round, whatever their bytes are.
pub proof fn correlation_id_from_lengths(first: Input, second: Input)
    requires
        first.encoded_token_ids@.len() == second.encoded_token_ids@.len(),
        first.collection@.len() == second.collection@.len(),
    ensures
        correlation_id_of(&first) == correlation_id_of(&second),
        correlation_id_fits(&first) == correlation_id_fits(&second),
{
}

/// Every valid input whose batch is no longer than `MAX_BATCH_BYTES` has an
/// identifier that fits, and no valid input with a longer batch has one.
pub proof fn valid_input_fits(input: Input)
    requires
        input.valid(),
    ensures
        correlation_id_fits(&input) <==> input.encoded_token_ids@.len() <= MAX_BATCH_BYTES,
{
}

} // verus!
