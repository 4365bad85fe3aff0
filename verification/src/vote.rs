//! Resolving the providers' answers into one agreed answer.
//!
//! The answers are taken as votes. What matters is how often each text was
//! given, not who gave it or when: the vote is a multiset of texts, and its
//! outcome is a function of that multiset.

use vstd::prelude::*;
use vstd::multiset::Multiset;
use vstd::utf8::encode_utf8;

verus! {

/// Why the answers of the providers did not yield an agreed answer.
#[derive(Clone, Copy, Debug, PartialEq, Eq, Structural)]
pub enum AggregationError {
    /// No text was given by more than half of the providers.
    NoAgreement,
    /// The agreed text has not one byte for each token of the batch.
    LengthMismatch,
}

/// The votes cast by a list of answers: each text with the number of times
/// it was given.
pub open spec fn ballots(responses: Seq<String>) -> Multiset<Seq<char>> {
    responses.map_values(|answer: String| answer@).to_multiset()
}

/// The text was given by more than half of the votes.
pub open spec fn holds_majority(votes: Multiset<Seq<char>>, text: Seq<char>) -> bool {
    2 * votes.count(text) > votes.len()
}

/// Some text was given by more than half of the votes.
pub open spec fn has_majority(votes: Multiset<Seq<char>>) -> bool {
    exists|text: Seq<char>| holds_majority(votes, text)
}

/// The outcome of a vote: the text that more than half of the votes gave, if
/// there is one. `majority_is_unique` shows that there is at most one.
pub open spec fn tally(votes: Multiset<Seq<char>>) -> Option<Seq<char>> {
    if has_majority(votes) {
        Some(choose|text: Seq<char>| holds_majority(votes, text))
    } else {
        None
    }
}

/// The length of a text in bytes, as UTF-8 holds it. For a text of ASCII
/// characters, and so for every text of flags, it is the number of characters.
pub open spec fn byte_len(text: Seq<char>) -> nat {
    encode_utf8(text).len()
}

/// What becomes of the outcome of a vote, for a batch of the given length in
/// bytes: without a winner there is no agreement, and a winner must be as long
/// as the batch has token identifiers.
pub open spec fn settle(winner: Option<Seq<char>>, batch_len: nat) -> Result<
    Seq<char>,
    AggregationError,
> {
    match winner {
        None => Err(AggregationError::NoAgreement),
        Some(text) => if byte_len(text) * 32 == batch_len {
            Ok(text)
        } else {
            Err(AggregationError::LengthMismatch)
        },
    }
}

/// The agreed answer of a vote, for a batch of the given length in bytes.
pub open spec fn agreed_answer(votes: Multiset<Seq<char>>, batch_len: nat) -> Result<
    Seq<char>,
    AggregationError,
> {
    settle(tally(votes), batch_len)
}

/// The text of an answer that may be missing.
pub open spec fn text_of(answer: Option<String>) -> Option<Seq<char>> {
    match answer {
        Some(answer) => Some(answer@),
        None => None,
    }
}

/// What a phase hands on: the text of the answer, or the error as it is.
pub open spec fn outcome_of(outcome: Result<String, AggregationError>) -> Result<
    Seq<char>,
    AggregationError,
> {
    match outcome {
        Ok(answer) => Ok(answer@),
        Err(fault) => Err(fault),
    }
}

impl AggregationError {
    /// The text under which the fault is reported.
    pub open spec fn message_text(self) -> Seq<char> {
        match self {
            AggregationError::NoAgreement => "No majority among the reported answers"@,
            AggregationError::LengthMismatch => "Answer length does not match the number of token ids"@,
        }
    }

    /// The text under which the fault is reported.
    pub fn message(&self) -> (text: &'static str)
        ensures
            text@ == self.message_text(),
    {
        match self {
            AggregationError::NoAgreement => "No majority among the reported answers",
            AggregationError::LengthMismatch => "Answer length does not match the number of token ids",
        }
    }
}

/// Calls `owasm_kit::ext::stats::majority`, which picks a candidate by the
/// Boyer-Moore vote, counts the entries equal to it, and returns it if twice
/// that count exceeds the number of entries. The contract claims what the
/// second count makes sure of and what the vote is known for: an answer that
/// is returned was given by more than half of the entries, and where none is
/// returned no answer was. On an empty list none is returned.
#[verifier::external_body]
pub(crate) fn majority(responses: Vec<String>) -> (winner: Option<String>)
    ensures
        match winner {
            Some(answer) => 2 * ballots(responses@).count(answer@) > responses@.len(),
            None => forall|text: Seq<char>| 2 * ballots(responses@).count(text) <= responses@.len(),
        },
{
    owasm_kit::ext::stats::majority(responses)
}

/// Two different texts cannot both hold more than half of the votes.
pub proof fn majority_is_unique(votes: Multiset<Seq<char>>, first: Seq<char>, second: Seq<char>)
    requires
        holds_majority(votes, first),
        holds_majority(votes, second),
    ensures
        first == second,
{
    if first != second {
        let firsts = votes.filter(|text: Seq<char>| text == first);
        assert(firsts.count(first) == votes.count(first));
        assert(firsts.count(second) == 0);
        assert(firsts.subset_of(votes));
        let rest = votes.sub(firsts);
        assert(rest.len() == votes.len() - firsts.len());
        assert(rest.count(second) == votes.count(second));
        assert(rest.count(second) <= rest.len());
        assert(firsts.count(first) <= firsts.len());
    }
}

/// A text that holds the majority is the outcome of the vote.
pub proof fn majority_wins(votes: Multiset<Seq<char>>, text: Seq<char>)
    requires
        holds_majority(votes, text),
    ensures
        tally(votes) == Some(text),
{
    let chosen = choose|text: Seq<char>| holds_majority(votes, text);
    majority_is_unique(votes, chosen, text);
}

/// The votes of a list of answers are as many as the answers, and each
/// further answer adds one vote for its text.
pub proof fn ballots_count_answers(responses: Seq<String>)
    ensures
        ballots(responses).len() == responses.len(),
        forall|answer: String| #[trigger]
            ballots(responses.push(answer)) == ballots(responses).insert(answer@),
{
    let texts = responses.map_values(|answer: String| answer@);
    texts.to_multiset_ensures();
    assert forall|answer: String| #[trigger]
        ballots(responses.push(answer)) == ballots(responses).insert(answer@) by {
        assert(responses.push(answer).map_values(|answer: String| answer@) =~= texts.push(
            answer@,
        ));
    }
}

/// Without answers there is no agreement.
pub proof fn no_answers_no_majority()
    ensures
        tally(ballots(Seq::<String>::empty())) is None,
{
    ballots_count_answers(Seq::<String>::empty());
    let votes = ballots(Seq::<String>::empty());
    assert forall|text: Seq<char>| !holds_majority(votes, text) by {
        assert(votes.count(text) <= votes.len());
    }
}

/// Answers that all give one text agree on it. A single answer does.
pub proof fn unanimous_answers_agree(responses: Seq<String>, text: Seq<char>)
    requires
        responses.len() > 0,
        forall|i: int| 0 <= i < responses.len() ==> (#[trigger] responses[i])@ == text,
    ensures
        ballots(responses).count(text) == responses.len(),
        tally(ballots(responses)) == Some(text),
    decreases responses.len(),
{
    let earlier = responses.drop_last();
    let last = responses.last();
    assert(responses =~= earlier.push(last));
    ballots_count_answers(earlier);
    ballots_count_answers(responses);
    assert(ballots(responses) == ballots(earlier).insert(last@));
    if earlier.len() > 0 {
        assert forall|i: int| 0 <= i < earlier.len() implies (#[trigger] earlier[i])@ == text by {
            assert(earlier[i] == responses[i]);
        }
        unanimous_answers_agree(earlier, text);
    } else {
        assert(ballots(earlier).count(text) <= ballots(earlier).len());
    }
    assert(ballots(responses).count(text) == responses.len());
    majority_wins(ballots(responses), text);
}

/// The order in which answers arrive plays no part: answers that came in two
/// runs cast the same votes whichever run came first.
pub proof fn arrival_order_is_immaterial(first: Seq<String>, second: Seq<String>)
    ensures
        ballots(first + second) == ballots(second + first),
        forall|batch_len: nat|
            agreed_answer(ballots(first + second), batch_len) == agreed_answer(
                ballots(second + first),
                batch_len,
            ),
{
    let texts = |answer: String| answer@;
    assert((first + second).map_values(texts) =~= first.map_values(texts) + second.map_values(
        texts,
    ));
    assert((second + first).map_values(texts) =~= second.map_values(texts) + first.map_values(
        texts,
    ));
    vstd::seq_lib::lemma_seq_union_to_multiset_commutative(
        first.map_values(texts),
        second.map_values(texts),
    );
}

/// Decides on the outcome of a vote for a batch of the given length in bytes.
/// A missing winner means that the providers did not agree. A winner is
/// accepted if it has one byte for each token identifier of the batch; its
/// characters are not looked at here.
pub fn settle_vote(winner: Option<String>, batch_len: usize) -> (outcome: Result<
    String,
    AggregationError,
>)
    ensures
        outcome_of(outcome) == settle(text_of(winner), batch_len as nat),
        outcome matches Ok(answer) ==> winner == Some(answer),
        winner matches Some(answer) && byte_len(answer@) != batch_len as nat / 32 ==> outcome
            == Err::<String, AggregationError>(AggregationError::LengthMismatch),
{
    match winner {
        None => Err(AggregationError::NoAgreement),
        Some(answer) => {
            let answer_len: usize = answer.as_str().as_bytes().len();
            if batch_len % 32 == 0 && answer_len == batch_len / 32 {
                Ok(answer)
            } else {
                Err(AggregationError::LengthMismatch)
            }
        },
    }
}

/// Resolves the answers of the providers into the agreed answer, for a batch
/// of the given length in bytes. The text that more than half of the answers
/// gave is the agreed answer if it has one byte for each token identifier of
/// the batch. The order of the answers plays no part.
pub fn aggregate(responses: Vec<String>, batch_len: usize) -> (outcome: Result<
    String,
    AggregationError,
>)
    ensures
        outcome_of(outcome) == agreed_answer(ballots(responses@), batch_len as nat),
        outcome == Err::<String, AggregationError>(AggregationError::NoAgreement) <==> !has_majority(
            ballots(responses@),
        ),
{
    let ghost votes = ballots(responses@);
    let winner = majority(responses);
    proof {
        responses@.map_values(|answer: String| answer@).to_multiset_ensures();
        assert(votes.len() == responses@.len());
        if winner is Some {
            majority_wins(votes, winner->0@);
        } else {
            assert(!has_majority(votes));
        }
    }
    settle_vote(winner, batch_len)
}

} // verus!
