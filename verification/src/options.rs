//! The per-call configuration bundle and its resolution to documented
//! defaults.
//!
//! The native translate entry point takes its ~20 decoding knobs positionally,
//! so callers here build one immutable [`TranslationOptions`] value instead;
//! a call that supplies no bundle gets the documented defaults. Fractional
//! knobs are fixed-point values in thousandths: a stored value of `1000`
//! stands for a factor of `1.0`.

use vstd::prelude::*;

verus! {

/// What one unit of `max_batch_size` counts: whole sentences, or the total
/// number of tokens across sentences. A two-variant choice, not an open
/// enumeration.
#[derive(Debug, Clone, Copy, PartialEq, Eq, Structural)]
pub enum BatchType {
    /// `max_batch_size` counts whole sentences.
    Example,
    /// `max_batch_size` counts tokens summed over sentences.
    Tokens,
}

impl BatchType {
    /// The flag the native entry point takes in place of this choice:
    /// `true` means batching by whole sentences.
    pub fn to_bool(&self) -> (b: bool)
        ensures
            b == (self is Example),
    {
        matches!(self, BatchType::Example)
    }
}

impl Default for BatchType {
    /// Batching counts whole sentences unless the caller says otherwise.
    fn default() -> (r: Self)
        ensures
            r is Example,
    {
        BatchType::Example
    }
}

/// The immutable decoding-option bundle handed to one translate call.
///
/// Every field is independent; the documented default of each is what
/// [`default_options`] states and what `Default::default` returns.
/// Fields described as "thousandths" are fixed-point: `1000` stands for
/// `1.0`, `0` for `0.0`.
#[derive(Debug, Clone, Copy, PartialEq, Eq, Structural)]
pub struct TranslationOptions {
    /// Beam search width (1 runs greedy search).
    pub beam_size: usize,
    /// Beam search patience multiplier, in thousandths: decoding continues
    /// until `beam_size * patience` hypotheses are finished.
    pub patience: u32,
    /// Exponential length normalization applied to hypothesis scores,
    /// in thousandths.
    pub length_penalty: u32,
    /// Coverage penalty weight, in thousandths.
    pub coverage_penalty: u32,
    /// Penalty on previously generated tokens, in thousandths
    /// (above 1000 penalizes).
    pub repetition_penalty: u32,
    /// Forbid repeating n-grams of this size (0 switches the check off).
    pub no_repeat_ngram_size: usize,
    /// Forbid emitting the unknown token.
    pub disable_unk: bool,
    /// Soft-bias strength toward a supplied target prefix, in thousandths;
    /// 0 makes a non-empty prefix a hard constraint.
    pub prefix_bias_beta: u32,
    /// Include the end-of-sequence marker in the output.
    pub return_end_token: bool,
    /// Truncate inputs beyond this many tokens (0 means no truncation).
    pub max_input_length: usize,
    /// Hard cap on generated tokens per sequence.
    pub max_decoding_length: usize,
    /// Minimum generated tokens per sequence.
    pub min_decoding_length: usize,
    /// Restrict sampling to the top K candidates (0 samples the full
    /// distribution).
    pub sampling_topk: usize,
    /// Sampling randomness scale, in thousandths.
    pub sampling_temperature: u32,
    /// Allow the vocabulary restriction map shipped with the model, if any.
    pub use_vmap: bool,
    /// Hypotheses retained per input sentence.
    pub num_hypotheses: usize,
    /// Include hypothesis scores in the result.
    pub return_scores: bool,
    /// Include attention matrices in the result.
    pub return_attention: bool,
    /// Return alternatives at the first unconstrained decoding position.
    pub return_alternatives: bool,
    /// Minimum probability to expand an alternative, in thousandths.
    pub min_alternative_expansion_prob: u32,
    /// Replace unknown output tokens by the attention-aligned source token.
    pub replace_unknowns: bool,
}

/// The documented default of every decoding knob; what a call that omits
/// the bundle runs with.
pub open spec fn default_options() -> TranslationOptions {
    TranslationOptions {
        beam_size: 2,
        patience: 1000,
        length_penalty: 1000,
        coverage_penalty: 0,
        repetition_penalty: 1000,
        no_repeat_ngram_size: 0,
        disable_unk: false,
        prefix_bias_beta: 0,
        return_end_token: false,
        max_input_length: 1024,
        max_decoding_length: 256,
        min_decoding_length: 1,
        sampling_topk: 1,
        sampling_temperature: 1000,
        use_vmap: false,
        num_hypotheses: 1,
        return_scores: false,
        return_attention: false,
        return_alternatives: false,
        min_alternative_expansion_prob: 0,
        replace_unknowns: false,
    }
}

impl Default for TranslationOptions {
    /// The documented defaults, field for field.
    fn default() -> (r: Self)
        ensures
            r == default_options(),
    {
        TranslationOptions {
            beam_size: 2,
            patience: 1000,
            length_penalty: 1000,
            coverage_penalty: 0,
            repetition_penalty: 1000,
            no_repeat_ngram_size: 0,
            disable_unk: false,
            prefix_bias_beta: 0,
            return_end_token: false,
            max_input_length: 1024,
            max_decoding_length: 256,
            min_decoding_length: 1,
            sampling_topk: 1,
            sampling_temperature: 1000,
            use_vmap: false,
            num_hypotheses: 1,
            return_scores: false,
            return_attention: false,
            return_alternatives: false,
            min_alternative_expansion_prob: 0,
            replace_unknowns: false,
        }
    }
}

/// The scalar part of one translate call, resolved: the option bundle to
/// pass by reference, the batch-size bound (0 leaves batching to the
/// engine), and the unit flag in the form the native entry point takes.
#[derive(Debug, Clone, Copy, PartialEq, Eq, Structural)]
pub struct TranslateRequest {
    /// The resolved decoding options.
    pub options: TranslationOptions,
    /// Upper bound on units grouped per internal batch; 0 means the engine
    /// decides.
    pub max_batch_size: usize,
    /// `true` when the bound counts whole sentences, `false` when it counts
    /// tokens.
    pub batch_type_example: bool,
}

/// Resolve the caller-facing optional knobs of one translate call: an
/// omitted option bundle becomes the documented defaults, an omitted
/// batch-size bound becomes 0 ("engine decides"), and the batch unit
/// becomes the flag the native entry point takes.
pub fn prepare_request(
    max_batch_size: Option<usize>,
    options: Option<TranslationOptions>,
    batch_type: &BatchType,
) -> (r: TranslateRequest)
    ensures
        r.options == (match options {
            Some(o) => o,
            None => default_options(),
        }),
        r.max_batch_size == (match max_batch_size {
            Some(n) => n,
            None => 0usize,
        }),
        r.batch_type_example == (batch_type is Example),
{
    TranslateRequest {
        options: match options {
            Some(o) => o,
            None => TranslationOptions::default(),
        },
        max_batch_size: match max_batch_size {
            Some(n) => n,
            None => 0,
        },
        batch_type_example: batch_type.to_bool(),
    }
}

} // verus!
