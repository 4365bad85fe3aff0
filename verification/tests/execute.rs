use flag_oracle::flags::{decode_flags, DecodingError};
use flag_oracle::input::Input;
use flag_oracle::round::{conclude, execute_impl, ExecuteError, Output};
use flag_oracle::vote::{aggregate, settle_vote, AggregationError};

fn input_with_items(items: usize) -> Input {
    Input { collection: vec![9u8; 20], encoded_token_ids: vec![1u8; items * 32] }
}

fn answers(texts: &[&str]) -> Vec<String> {
    texts.iter().map(|text| text.to_string()).collect()
}

#[test]
fn test_convert_to_output() {
    let res: String = "11100".to_string();
    assert_eq!(vec![1u8, 1u8, 1u8, 0u8, 0u8], decode_flags(&res).unwrap());
}

#[test]
fn decode_keeps_the_order_of_the_text() {
    assert_eq!(decode_flags("0"), Ok(vec![0u8]));
    assert_eq!(decode_flags("1"), Ok(vec![1u8]));
    assert_eq!(decode_flags("01"), Ok(vec![0u8, 1]));
    assert_eq!(decode_flags("10"), Ok(vec![1u8, 0]));
    assert_eq!(decode_flags("0010110"), Ok(vec![0u8, 0, 1, 0, 1, 1, 0]));
}

#[test]
fn decode_of_the_empty_text_is_empty() {
    assert_eq!(decode_flags(""), Ok(Vec::new()));
}

#[test]
fn decode_rejects_any_other_character() {
    assert_eq!(decode_flags("2"), Err(DecodingError::UnknownFlag));
    assert_eq!(decode_flags("11200"), Err(DecodingError::UnknownFlag));
    assert_eq!(decode_flags("1110 "), Err(DecodingError::UnknownFlag));
    assert_eq!(decode_flags(" 1110"), Err(DecodingError::UnknownFlag));
    assert_eq!(decode_flags("1,0"), Err(DecodingError::UnknownFlag));
    assert_eq!(decode_flags("true"), Err(DecodingError::UnknownFlag));
    assert_eq!(decode_flags("10\n"), Err(DecodingError::UnknownFlag));
    assert_eq!(decode_flags("1\u{e9}0"), Err(DecodingError::UnknownFlag));
    assert_eq!(decode_flags("\u{ff11}"), Err(DecodingError::UnknownFlag));
}

#[test]
fn decode_inverts_encoding() {
    for bits in 0u32..64 {
        let flags: Vec<u8> = (0..6).map(|place| ((bits >> place) & 1) as u8).collect();
        let text: String = flags.iter().map(|flag| if *flag == 1 { '1' } else { '0' }).collect();
        assert_eq!(decode_flags(&text), Ok(flags));
    }
}

#[test]
fn decoding_message() {
    assert_eq!(DecodingError::UnknownFlag.message(), "Unknown flag");
}

#[test]
fn majority_of_three() {
    assert_eq!(aggregate(answers(&["101", "101", "010"]), 96), Ok("101".to_string()));
}

#[test]
fn majority_does_not_depend_on_arrival_order() {
    assert_eq!(aggregate(answers(&["010", "101", "101"]), 96), Ok("101".to_string()));
    assert_eq!(aggregate(answers(&["101", "010", "101"]), 96), Ok("101".to_string()));
    assert_eq!(aggregate(answers(&["101", "101", "010"]), 96), Ok("101".to_string()));
}

#[test]
fn single_answer_is_agreed() {
    assert_eq!(aggregate(answers(&["1"]), 32), Ok("1".to_string()));
}

#[test]
fn unanimous_answers_are_agreed() {
    assert_eq!(aggregate(answers(&["10", "10", "10", "10"]), 64), Ok("10".to_string()));
}

#[test]
fn no_strict_majority_is_no_agreement() {
    assert_eq!(aggregate(answers(&["101", "010"]), 96), Err(AggregationError::NoAgreement));
    assert_eq!(
        aggregate(answers(&["101", "010", "111"]), 96),
        Err(AggregationError::NoAgreement)
    );
    assert_eq!(
        aggregate(answers(&["101", "101", "010", "010"]), 96),
        Err(AggregationError::NoAgreement)
    );
    assert_eq!(aggregate(Vec::new(), 96), Err(AggregationError::NoAgreement));
}

#[test]
fn agreed_answer_of_the_wrong_length_is_a_mismatch() {
    assert_eq!(aggregate(answers(&["101", "101", "010"]), 64), Err(AggregationError::LengthMismatch));
    assert_eq!(aggregate(answers(&["101", "101", "010"]), 128), Err(AggregationError::LengthMismatch));
    assert_eq!(aggregate(answers(&["101"]), 97), Err(AggregationError::LengthMismatch));
    assert_eq!(aggregate(answers(&["101"]), 0), Err(AggregationError::LengthMismatch));
    assert_eq!(aggregate(answers(&[""]), 0), Ok(String::new()));
}

#[test]
fn settle_vote_for_each_outcome() {
    assert_eq!(settle_vote(None, 96), Err(AggregationError::NoAgreement));
    assert_eq!(settle_vote(None, 0), Err(AggregationError::NoAgreement));
    assert_eq!(settle_vote(Some("101".to_string()), 96), Ok("101".to_string()));
    assert_eq!(settle_vote(Some("10".to_string()), 96), Err(AggregationError::LengthMismatch));
    assert_eq!(settle_vote(Some("1010".to_string()), 96), Err(AggregationError::LengthMismatch));
    assert_eq!(settle_vote(Some("101".to_string()), 95), Err(AggregationError::LengthMismatch));
    assert_eq!(settle_vote(Some("101".to_string()), 127), Err(AggregationError::LengthMismatch));
    assert_eq!(settle_vote(Some("abc".to_string()), 96), Ok("abc".to_string()));
}

#[test]
fn length_is_counted_in_bytes() {
    assert_eq!(settle_vote(Some("\u{e9}".to_string()), 64), Ok("\u{e9}".to_string()));
    assert_eq!(settle_vote(Some("\u{e9}".to_string()), 32), Err(AggregationError::LengthMismatch));
}

#[test]
fn aggregation_messages() {
    assert_eq!(AggregationError::NoAgreement.message(), "No majority among the reported answers");
    assert_eq!(
        AggregationError::LengthMismatch.message(),
        "Answer length does not match the number of token ids"
    );
    assert_eq!(
        ExecuteError::Aggregation(AggregationError::NoAgreement).message(),
        "No majority among the reported answers"
    );
    assert_eq!(ExecuteError::Decoding(DecodingError::UnknownFlag).message(), "Unknown flag");
}

#[test]
fn execute_decodes_the_majority() {
    let input = input_with_items(5);
    assert_eq!(
        execute_impl(&input, answers(&["11100", "00000", "11100"])),
        Ok(Output { flagged_status: vec![1, 1, 1, 0, 0] })
    );
    assert_eq!(
        execute_impl(&input_with_items(3), answers(&["101", "101", "010"])),
        Ok(Output { flagged_status: vec![1, 0, 1] })
    );
}

#[test]
fn execute_without_agreement_fails() {
    let input = input_with_items(3);
    assert_eq!(
        execute_impl(&input, answers(&["101", "010"])),
        Err(ExecuteError::Aggregation(AggregationError::NoAgreement))
    );
    assert_eq!(
        execute_impl(&input, Vec::new()),
        Err(ExecuteError::Aggregation(AggregationError::NoAgreement))
    );
}

#[test]
fn execute_checks_the_length_before_decoding() {
    let input = input_with_items(3);
    assert_eq!(
        execute_impl(&input, answers(&["10x1"])),
        Err(ExecuteError::Aggregation(AggregationError::LengthMismatch))
    );
    assert_eq!(
        execute_impl(&input, answers(&["11"])),
        Err(ExecuteError::Aggregation(AggregationError::LengthMismatch))
    );
    assert_eq!(
        execute_impl(&input, answers(&["1x1"])),
        Err(ExecuteError::Decoding(DecodingError::UnknownFlag))
    );
}

#[test]
fn execute_on_a_misaligned_batch_is_a_mismatch() {
    let input = Input { collection: vec![9u8; 20], encoded_token_ids: vec![1u8; 97] };
    assert_eq!(
        execute_impl(&input, answers(&["101"])),
        Err(ExecuteError::Aggregation(AggregationError::LengthMismatch))
    );
}

#[test]
fn conclude_for_each_outcome_of_the_vote() {
    let input = input_with_items(5);
    assert_eq!(
        conclude(&input, Some("11100".to_string())),
        Ok(Output { flagged_status: vec![1, 1, 1, 0, 0] })
    );
    assert_eq!(conclude(&input, None), Err(ExecuteError::Aggregation(AggregationError::NoAgreement)));
    assert_eq!(
        conclude(&input, Some("1110".to_string())),
        Err(ExecuteError::Aggregation(AggregationError::LengthMismatch))
    );
    assert_eq!(
        conclude(&input, Some("11a00".to_string())),
        Err(ExecuteError::Decoding(DecodingError::UnknownFlag))
    );
}

#[test]
fn output_has_one_flag_for_each_token() {
    for items in 1usize..8 {
        let input = input_with_items(items);
        let text: String = (0..items).map(|place| if place % 2 == 0 { '1' } else { '0' }).collect();
        let output = execute_impl(&input, vec![text.clone(), text]).unwrap();
        assert_eq!(output.flagged_status.len(), items);
        assert!(output.flagged_status.iter().all(|flag| *flag <= 1));
    }
}
