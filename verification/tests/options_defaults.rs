use rustyctranslate2::BatchType;
use rustyctranslate2::TranslationOptions;
use rustyctranslate2::prepare_request;

#[test]
fn defaults_match_documented_table() {
    let o = TranslationOptions::default();
    assert_eq!(o.beam_size, 2);
    assert_eq!(o.patience, 1000);
    assert_eq!(o.length_penalty, 1000);
    assert_eq!(o.coverage_penalty, 0);
    assert_eq!(o.repetition_penalty, 1000);
    assert_eq!(o.no_repeat_ngram_size, 0);
    assert!(!o.disable_unk);
    assert_eq!(o.prefix_bias_beta, 0);
    assert!(!o.return_end_token);
    assert_eq!(o.max_input_length, 1024);
    assert_eq!(o.max_decoding_length, 256);
    assert_eq!(o.min_decoding_length, 1);
    assert_eq!(o.sampling_topk, 1);
    assert_eq!(o.sampling_temperature, 1000);
    assert!(!o.use_vmap);
    assert_eq!(o.num_hypotheses, 1);
    assert!(!o.return_scores);
    assert!(!o.return_attention);
    assert!(!o.return_alternatives);
    assert_eq!(o.min_alternative_expansion_prob, 0);
    assert!(!o.replace_unknowns);
}

#[test]
fn omitted_bundle_yields_defaults() {
    let r = prepare_request(None, None, &BatchType::Example);
    assert_eq!(r.options, TranslationOptions::default());
    assert_eq!(r.max_batch_size, 0);
    assert!(r.batch_type_example);
}

#[test]
fn omitted_field_yields_its_default() {
    let custom = TranslationOptions { beam_size: 5, ..TranslationOptions::default() };
    let r = prepare_request(Some(32), Some(custom), &BatchType::Tokens);
    assert_eq!(r.options.beam_size, 5);
    assert_eq!(r.options.max_decoding_length, 256);
    assert_eq!(r.options.patience, 1000);
    assert_eq!(r.max_batch_size, 32);
    assert!(!r.batch_type_example);
}

#[test]
fn supplied_bundle_kept_unchanged() {
    let custom = TranslationOptions {
        beam_size: 1,
        patience: 2000,
        length_penalty: 600,
        coverage_penalty: 100,
        repetition_penalty: 1100,
        no_repeat_ngram_size: 3,
        disable_unk: true,
        prefix_bias_beta: 500,
        return_end_token: true,
        max_input_length: 0,
        max_decoding_length: 64,
        min_decoding_length: 2,
        sampling_topk: 0,
        sampling_temperature: 800,
        use_vmap: true,
        num_hypotheses: 4,
        return_scores: true,
        return_attention: true,
        return_alternatives: true,
        min_alternative_expansion_prob: 50,
        replace_unknowns: true,
    };
    let r = prepare_request(None, Some(custom), &BatchType::Example);
    assert_eq!(r.options, custom);
    assert_eq!(r.max_batch_size, 0);
}

#[test]
fn batch_unit_flag() {
    assert!(BatchType::Example.to_bool());
    assert!(!BatchType::Tokens.to_bool());
    assert_eq!(BatchType::default(), BatchType::Example);
}
