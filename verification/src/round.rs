//! The execute phase: from the providers' answers to the flags of the batch.

use vstd::prelude::*;
use vstd::multiset::Multiset;
use crate::flags::{
    decode_flags, decoded, encode_inverts_decode, encoded, flag_text_is_ascii, is_flag_seq,
    is_flag_text, DecodingError,
};
use crate::input::Input;
use crate::vote::{
    aggregate, ballots, byte_len, settle, settle_vote, tally, text_of, AggregationError,
};

verus! {

/// What a round ends with: for each token of the batch, in the order of the
/// batch, whether it is flagged.
#[derive(Clone, Debug, PartialEq, Eq)]
pub struct Output {
    /// One byte for each token identifier: 1 if it is flagged, 0 if not.
    pub flagged_status: Vec<u8>,
}

/// Why the execute phase ended without an output.
#[derive(Clone, Copy, Debug, PartialEq, Eq, Structural)]
pub enum ExecuteError {
    /// The answers of the providers did not yield an agreed answer.
    Aggregation(AggregationError),
    /// The agreed answer could not be decoded.
    Decoding(DecodingError),
}

/// The end of a round whose vote had the given outcome, for a batch of the
/// given length in bytes. The length of the winner is checked before any of
/// its characters is read.
pub open spec fn conclusion(winner: Option<Seq<char>>, batch_len: nat) -> Result<
    Seq<u8>,
    ExecuteError,
> {
    match settle(winner, batch_len) {
        Err(fault) => Err(ExecuteError::Aggregation(fault)),
        Ok(text) => match decoded(text) {
            Ok(flags) => Ok(flags),
            Err(fault) => Err(ExecuteError::Decoding(fault)),
        },
    }
}

/// The end of a round with the given votes, for a batch of the given length
/// in bytes.
pub open spec fn round_outcome(votes: Multiset<Seq<char>>, batch_len: nat) -> Result<
    Seq<u8>,
    ExecuteError,
> {
    conclusion(tally(votes), batch_len)
}

/// What the execute phase hands on: the flags as a sequence, or the error as
/// it is.
pub open spec fn status_of(outcome: Result<Output, ExecuteError>) -> Result<Seq<u8>, ExecuteError> {
    match outcome {
        Ok(output) => Ok(output.flagged_status@),
        Err(fault) => Err(fault),
    }
}

impl ExecuteError {
    /// The text under which the fault is reported.
    pub fn message(&self) -> (text: &'static str)
        ensures
            text@ == match *self {
                ExecuteError::Aggregation(fault) => fault.message_text(),
                ExecuteError::Decoding(fault) => fault.message_text(),
            },
    {
        match self {
            ExecuteError::Aggregation(fault) => fault.message(),
            ExecuteError::Decoding(fault) => fault.message(),
        }
    }
}

/// A round that ends with an output has one flag for each token identifier
/// of its batch, and the batch holds whole token identifiers only.
pub proof fn output_covers_batch(winner: Option<Seq<char>>, batch_len: nat)
    requires
        conclusion(winner, batch_len) is Ok,
    ensures
        conclusion(winner, batch_len)->Ok_0.len() * 32 == batch_len,
        is_flag_seq(conclusion(winner, batch_len)->Ok_0),
        winner == Some(encoded(conclusion(winner, batch_len)->Ok_0)),
{
    let text = winner->0;
    flag_text_is_ascii(text);
    encode_inverts_decode(text);
}

/// A winner whose length in bytes differs from the number of token
/// identifiers in the batch ends the round with a length mismatch, whatever
/// its characters are.
pub proof fn wrong_length_is_mismatch(text: Seq<char>, batch_len: nat)
    requires
        byte_len(text) != batch_len / 32,
    ensures
        conclusion(Some(text), batch_len) == Err::<Seq<u8>, ExecuteError>(
            ExecuteError::Aggregation(AggregationError::LengthMismatch),
        ),
{
}

/// A winner of the right length with a character that is no flag ends the
/// round with an unknown flag.
pub proof fn stray_character_is_unknown_flag(text: Seq<char>, batch_len: nat)
    requires
        byte_len(text) * 32 == batch_len,
        !is_flag_text(text),
    ensures
        conclusion(Some(text), batch_len) == Err::<Seq<u8>, ExecuteError>(
            ExecuteError::Decoding(DecodingError::UnknownFlag),
        ),
{
}

/// Ends a round whose vote had the given outcome: checks the winner against
/// the batch of the input and decodes it. The input is not validated again.
pub fn conclude(input: &Input, winner: Option<String>) -> (outcome: Result<Output, ExecuteError>)
    ensures
        status_of(outcome) == conclusion(text_of(winner), input.encoded_token_ids@.len()),
        outcome matches Ok(output) ==> output.flagged_status@.len() == input.item_count()
            && is_flag_seq(output.flagged_status@),
{
    proof {
        if conclusion(text_of(winner), input.encoded_token_ids@.len()) is Ok {
            output_covers_batch(text_of(winner), input.encoded_token_ids@.len());
        }
    }
    match settle_vote(winner, input.encoded_token_ids.len()) {
        Err(fault) => Err(ExecuteError::Aggregation(fault)),
        Ok(answer) => match decode_flags(answer.as_str()) {
            Ok(flagged_status) => Ok(Output { flagged_status }),
            Err(fault) => Err(ExecuteError::Decoding(fault)),
        },
    }
}

/// The execute phase: resolves the answers of the providers by majority,
/// checks the agreed answer against the batch of the input and decodes it.
/// No output is produced unless every step succeeds.
pub fn execute_impl(input: &Input, responses: Vec<String>) -> (outcome: Result<
    Output,
    ExecuteError,
>)
    ensures
        status_of(outcome) == round_outcome(ballots(responses@), input.encoded_token_ids@.len()),
        outcome matches Ok(output) ==> output.flagged_status@.len() == input.item_count()
            && is_flag_seq(output.flagged_status@),
{
    proof {
        let votes = ballots(responses@);
        if round_outcome(votes, input.encoded_token_ids@.len()) is Ok {
            output_covers_batch(tally(votes), input.encoded_token_ids@.len());
        }
    }
    match aggregate(responses, input.encoded_token_ids.len()) {
        Err(fault) => Err(ExecuteError::Aggregation(fault)),
        Ok(answer) => match decode_flags(answer.as_str()) {
            Ok(flagged_status) => Ok(Output { flagged_status }),
            Err(fault) => Err(ExecuteError::Decoding(fault)),
        },
    }
}

} // verus!
