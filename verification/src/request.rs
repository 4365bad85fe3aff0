//! The query that the prepare phase hands to the providers.

use vstd::prelude::*;
use vstd::string::StringExecFns;
use crate::correlation::{correlation_id, correlation_id_fits, correlation_id_of};
use crate::hexcode::{hex_bytes, hex_encode, hex_round_trip, hex_text, hex_text_is_plain};
use crate::input::{validate, validation_outcome, Input, ValidationError};

verus! {

/// The one data source that a round queries: the source of flagged status.
pub const DS_ID: i64 = 537;

/// A query, ready to be sent: under which identifier the answers are to be
/// filed, which data source is asked, and what it is asked.
#[derive(Clone, Debug, PartialEq, Eq)]
pub struct ExternalRequest {
    /// The correlation identifier of the round.
    pub external_id: i64,
    /// The data source selector.
    pub data_source_id: i64,
    /// The payload, in ASCII text.
    pub calldata: String,
}

/// The payload for a collection and a batch: the hexadecimal text of the
/// collection identifier, one space, the hexadecimal text of the batch.
pub open spec fn payload_text(collection: Seq<u8>, batch: Seq<u8>) -> Seq<char> {
    hex_text(collection) + seq![' '] + hex_text(batch)
}

/// The text holds exactly one space, and holds it at this place.
pub open spec fn is_separator(text: Seq<char>, at: int) -> bool {
    &&& 0 <= at < text.len()
    &&& forall|j: int| 0 <= j < text.len() ==> ((#[trigger] text[j]) == ' ' <==> j == at)
}

/// The two fields of a text that one space separates: what stands before the
/// space and what stands after it.
pub open spec fn payload_fields(text: Seq<char>) -> Option<(Seq<char>, Seq<char>)> {
    if exists|at: int| is_separator(text, at) {
        let at = choose|at: int| is_separator(text, at);
        Some((text.subrange(0, at), text.subrange(at + 1, text.len() as int)))
    } else {
        None
    }
}

/// The collection identifier and the batch that a payload stands for: its two
/// fields, each read as hexadecimal text.
pub open spec fn payload_contents(text: Seq<char>) -> Option<(Seq<u8>, Seq<u8>)> {
    match payload_fields(text) {
        Some((left, right)) => match (hex_bytes(left), hex_bytes(right)) {
            (Some(collection), Some(batch)) => Some((collection, batch)),
            _ => None,
        },
        None => None,
    }
}

/// What the prepare phase sends for an input.
pub open spec fn request_matches(request: &ExternalRequest, input: &Input) -> bool {
    &&& request.external_id == correlation_id_of(input)
    &&& request.data_source_id == DS_ID
    &&& request.calldata@ == payload_text(input.collection@, input.encoded_token_ids@)
}

/// A payload is ASCII text with one space, which stands right behind the
/// digits of the collection identifier.
pub proof fn payload_shape(collection: Seq<u8>, batch: Seq<u8>)
    ensures
        payload_text(collection, batch).len() == 2 * collection.len() + 1 + 2 * batch.len(),
        is_separator(payload_text(collection, batch), 2 * collection.len() as int),
        vstd::utf8::is_ascii_chars(payload_text(collection, batch)),
{
    let text = payload_text(collection, batch);
    let at: int = 2 * collection.len() as int;
    hex_text_is_plain(collection);
    hex_text_is_plain(batch);
    assert forall|j: int| 0 <= j < text.len() implies ((#[trigger] text[j]) == ' ' <==> j == at)
        && (text[j] as int) < 128 by {
        if j < at {
            assert(text[j] == hex_text(collection)[j]);
        } else if j > at {
            assert(text[j] == hex_text(batch)[j - at - 1]);
        }
    }
}

/// Reading a payload back gives the buffers it was built from: the field
/// before the space is the hexadecimal text of the collection identifier, and
/// the field after it that of the batch.
pub proof fn payload_round_trip(collection: Seq<u8>, batch: Seq<u8>)
    ensures
        payload_fields(payload_text(collection, batch)) == Some(
            (hex_text(collection), hex_text(batch)),
        ),
        payload_contents(payload_text(collection, batch)) == Some((collection, batch)),
{
    let text = payload_text(collection, batch);
    let at: int = 2 * collection.len() as int;
    payload_shape(collection, batch);
    let found = choose|at: int| is_separator(text, at);
    assert(is_separator(text, found));
    assert(text[found] == ' ');
    assert(found == at);
    assert(text.subrange(0, at) =~= hex_text(collection));
    assert(text.subrange(at + 1, text.len() as int) =~= hex_text(batch));
    hex_round_trip(collection);
    hex_round_trip(batch);
}

/// Builds the query for an input: its correlation identifier, the data source
/// selector and the payload. Every input has a query; whether the input is
/// valid is not looked at here.
pub fn build_request(input: &Input) -> (request: ExternalRequest)
    requires
        correlation_id_fits(input),
    ensures
        request_matches(&request, input),
        request.calldata.is_ascii(),
{
    let mut calldata = hex_encode(&input.collection);
    let batch_text = hex_encode(&input.encoded_token_ids);
    calldata.append(" ");
    calldata.append(batch_text.as_str());
    proof {
        reveal_strlit(" ");
        assert(" "@ =~= seq![' ']);
        payload_shape(input.collection@, input.encoded_token_ids@);
    }
    ExternalRequest { external_id: correlation_id(input), data_source_id: DS_ID, calldata }
}

/// The prepare phase: validates the input and, if it is valid, builds the
/// query for the providers. An input that is not valid gets no query.
pub fn prepare_impl(input: &Input) -> (outcome: Result<ExternalRequest, ValidationError>)
    requires
        input.valid() ==> correlation_id_fits(input),
    ensures
        outcome is Ok <==> input.valid(),
        match outcome {
            Ok(request) => request_matches(&request, input) && request.calldata.is_ascii(),
            Err(fault) => validation_outcome(input.collection@, input.encoded_token_ids@) == Err::<
                (),
                ValidationError,
            >(fault),
        },
{
    match validate(input) {
        Ok(()) => Ok(build_request(input)),
        Err(fault) => Err(fault),
    }
}

} // verus!
