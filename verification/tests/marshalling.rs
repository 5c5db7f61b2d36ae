use rustyctranslate2::TokenBatch;
use rustyctranslate2::echo_batch;

fn sentence(tokens: &[&str]) -> Vec<String> {
    tokens.iter().map(|t| t.to_string()).collect()
}

#[test]
fn round_trip_single_sentence() {
    let mut batch = TokenBatch::new_data();
    batch.push_data(sentence(&["a", "b", "c"]));
    assert_eq!(batch.get_length(), 1);
    let read_back = batch.get_data(0).unwrap();
    assert_eq!(read_back, sentence(&["a", "b", "c"]));
}

#[test]
fn push_preserves_order_and_values() {
    let mut batch = TokenBatch::new_data();
    batch.push_data(sentence(&["▁H", "ell", "o"]));
    batch.push_data(sentence(&["▁world", "!"]));
    assert_eq!(batch.get_length(), 2);
    assert_eq!(batch.get_data(0).unwrap(), sentence(&["▁H", "ell", "o"]));
    assert_eq!(batch.get_data(1).unwrap(), sentence(&["▁world", "!"]));
}

#[test]
fn get_data_out_of_range() {
    let mut batch = TokenBatch::new_data();
    batch.push_data(sentence(&["a"]));
    let err = batch.get_data(1).unwrap_err();
    assert_eq!(err.message, "data index out of range");
    let err = TokenBatch::new_data().get_data(0).unwrap_err();
    assert_eq!(err.message, "data index out of range");
}

#[test]
fn generate_then_extract_is_identity() {
    let input = vec![
        sentence(&["one", "two"]),
        sentence(&["three"]),
        sentence(&["four", "five", "six"]),
    ];
    let batch = TokenBatch::generate_input(&input);
    assert_eq!(batch.get_length(), 3);
    let output = TokenBatch::extract_output(&batch).unwrap();
    assert_eq!(output, input);
}

#[test]
fn echo_preserves_every_sentence() {
    let input = vec![sentence(&["a", "b", "c"]), sentence(&["d"]), sentence(&[])];
    let output = echo_batch(&input);
    assert_eq!(output, input);
}

#[test]
fn empty_batch_round_trips_empty() {
    let input: Vec<Vec<String>> = Vec::new();
    let batch = TokenBatch::generate_input(&input);
    assert_eq!(batch.get_length(), 0);
    assert_eq!(TokenBatch::extract_output(&batch).unwrap(), input);
    assert_eq!(echo_batch(&input), input);
}

#[test]
fn empty_sentence_round_trips() {
    let input = vec![Vec::new(), sentence(&["x"])];
    assert_eq!(echo_batch(&input), input);
}
