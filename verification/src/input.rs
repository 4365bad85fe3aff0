//! The input of a round and its structural validation.

use vstd::prelude::*;

verus! {

/// Width in bytes of one token identifier inside the packed batch.
pub const TOKEN_ID_BYTES: usize = 32;

/// Length in bytes of a collection identifier.
pub const COLLECTION_BYTES: usize = 20;

/// What a round is asked about: one collection and a batch of its tokens.
#[derive(Clone, Debug, PartialEq, Eq)]
pub struct Input {
    /// The collection identifier, an opaque address.
    pub collection: Vec<u8>,
    /// The token identifiers, each `TOKEN_ID_BYTES` wide, packed end to end.
    pub encoded_token_ids: Vec<u8>,
}

/// Why an input was turned away before any provider was asked.
#[derive(Clone, Copy, Debug, PartialEq, Eq, Structural)]
pub enum ValidationError {
    /// The batch is empty, or its length is no multiple of `TOKEN_ID_BYTES`.
    EmptyOrMisalignedBatch,
    /// The collection identifier is not `COLLECTION_BYTES` long.
    BadCollectionLength,
}

/// A batch holds at least one token identifier and no partial one.
pub open spec fn batch_well_formed(batch: Seq<u8>) -> bool {
    batch.len() > 0 && batch.len() % 32 == 0
}

/// A collection identifier has its fixed length.
pub open spec fn collection_well_formed(collection: Seq<u8>) -> bool {
    collection.len() == 20
}

/// The verdict on a pair of buffers. The batch is looked at first, so a pair
/// with both faults is reported for its batch.
pub open spec fn validation_outcome(collection: Seq<u8>, batch: Seq<u8>) -> Result<
    (),
    ValidationError,
> {
    if !batch_well_formed(batch) {
        Err(ValidationError::EmptyOrMisalignedBatch)
    } else if !collection_well_formed(collection) {
        Err(ValidationError::BadCollectionLength)
    } else {
        Ok(())
    }
}

impl Input {
    /// Both buffers are well formed.
    pub open spec fn valid(&self) -> bool {
        batch_well_formed(self.encoded_token_ids@) && collection_well_formed(self.collection@)
    }

    /// The number of token identifiers in the batch.
    pub open spec fn item_count(&self) -> nat {
        self.encoded_token_ids@.len() / 32
    }
}

impl ValidationError {
    /// The text under which the fault is reported.
    pub open spec fn message_text(self) -> Seq<char> {
        match self {
            ValidationError::EmptyOrMisalignedBatch => "Error wrong format for encoded_token_ids"@,
            ValidationError::BadCollectionLength => "Error collection must be 20 bytes"@,
        }
    }

    /// The text under which the fault is reported.
    pub fn message(&self) -> (text: &'static str)
        ensures
            text@ == self.message_text(),
    {
        match self {
            ValidationError::EmptyOrMisalignedBatch => "Error wrong format for encoded_token_ids",
            ValidationError::BadCollectionLength => "Error collection must be 20 bytes",
        }
    }
}

/// Checks the structure of an input. Nothing is changed; the result names the
/// first fault, or says that there is none.
pub fn validate(input: &Input) -> (verdict: Result<(), ValidationError>)
    ensures
        verdict == validation_outcome(input.collection@, input.encoded_token_ids@),
        verdict is Ok <==> input.valid(),
        verdict == Err::<(), ValidationError>(ValidationError::EmptyOrMisalignedBatch)
            <==> !batch_well_formed(input.encoded_token_ids@),
        verdict == Err::<(), ValidationError>(ValidationError::BadCollectionLength)
            <==> batch_well_formed(input.encoded_token_ids@) && !collection_well_formed(
            input.collection@,
        ),
{
    let batch_len: usize = input.encoded_token_ids.len();
    if batch_len == 0 || batch_len % TOKEN_ID_BYTES != 0 {
        return Err(ValidationError::EmptyOrMisalignedBatch);
    }
    if input.collection.len() != COLLECTION_BYTES {
        return Err(ValidationError::BadCollectionLength);
    }
    Ok(())
}

} // verus!
