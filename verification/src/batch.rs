//! The batched token containers that cross the boundary.
//!
//! A batch is an ordered sequence of sentences, each an ordered sequence of
//! pre-tokenized token strings. [`TokenBatch`] is the container the
//! marshalling layer fills sentence by sentence before a translate call and
//! reads back index by index afterwards; its view is the nested sequence of
//! the token characters it holds.

use vstd::prelude::*;
use vstd::string::StringExecFns;

use crate::errors::TranslationError;

verus! {

/// An ordered batch of sentences, each an ordered sequence of token
/// strings. Built incrementally by appending one sentence at a time;
/// read back one index at a time, in order.
pub struct TokenBatch {
    sentences: Vec<Vec<String>>,
}

impl View for TokenBatch {
    type V = Seq<Seq<Seq<char>>>;

    closed spec fn view(&self) -> Seq<Seq<Seq<char>>> {
        self.sentences.deep_view()
    }
}

/// Appending to a vector appends to its element-wise view: the deep view
/// of the grown vector is the deep view of the old one with the new
/// element's view at the end.
pub(crate) proof fn lemma_vec_deep_view_push<T: DeepView>(v1: Vec<T>, v2: Vec<T>, x: T)
    requires
        v2@ == v1@.push(x),
    ensures
        v2.deep_view() == v1.deep_view().push(x.deep_view()),
{
    assert forall|k: int| 0 <= k < v2@.len() implies #[trigger] v2.deep_view()[k]
        == v1.deep_view().push(x.deep_view())[k] by {
        if k < v1@.len() {
            assert(v2@[k] == v1@[k]);
            assert(v1.deep_view()[k] == v1@[k].deep_view());
        } else {
            assert(v2@[k] == x);
        }
    }
    assert(v2.deep_view() =~= v1.deep_view().push(x.deep_view()));
}

/// Copy one sentence's token strings, keeping values and order.
pub(crate) fn clone_tokens(tokens: &Vec<String>) -> (r: Vec<String>)
    ensures
        r@ == tokens@,
        r.deep_view() == tokens.deep_view(),
{
    let mut r: Vec<String> = Vec::new();
    let mut i: usize = 0;
    while i < tokens.len()
        invariant
            i <= tokens.len(),
            r@ == tokens@.subrange(0, i as int),
        decreases tokens.len() - i,
    {
        r.push(tokens[i].clone());
        i += 1;
        proof {
            assert(r@ =~= tokens@.subrange(0, i as int));
        }
    }
    proof {
        assert(tokens@.subrange(0, tokens.len() as int) =~= tokens@);
        assert(r.deep_view() =~= tokens.deep_view());
    }
    r
}

impl TokenBatch {
    /// A fresh, empty batch container.
    pub fn new_data() -> (b: TokenBatch)
        ensures
            b@ == Seq::<Seq<Seq<char>>>::empty(),
    {
        let b = TokenBatch { sentences: Vec::new() };
        proof {
            assert(b@ =~= Seq::<Seq<Seq<char>>>::empty());
        }
        b
    }

    /// Append one sentence at the end of the batch, leaving the sentences
    /// already held untouched.
    pub fn push_data(&mut self, item: Vec<String>)
        ensures
            final(self)@ == old(self)@.push(item.deep_view()),
    {
        let ghost item_view = item.deep_view();
        self.sentences.push(item);
        proof {
            assert(self@ =~= old(self)@.push(item_view));
        }
    }

    /// How many sentences the batch holds.
    pub fn get_length(&self) -> (n: usize)
        ensures
            n == self@.len(),
    {
        self.sentences.len()
    }

    /// Read back the sentence at one index: the very token strings that
    /// were pushed there, in their original order. Only an index past the
    /// end is refused.
    pub fn get_data(&self, index: usize) -> (r: Result<Vec<String>, TranslationError>)
        ensures
            index < self@.len() ==> (r matches Ok(tokens) && tokens.deep_view()
                == self@[index as int]),
            index >= self@.len() ==> (r matches Err(e) && e.message@ == "data index out of range"@),
    {
        if index < self.sentences.len() {
            Ok(clone_tokens(&self.sentences[index]))
        } else {
            Err(
                TranslationError {
                    message: String::from_str("data index out of range"),
                },
            )
        }
    }

    /// Build the batch container for one translate call: start empty and
    /// append every input sentence, preserving order. In this container
    /// no append can fail.
    pub fn generate_input(input: &Vec<Vec<String>>) -> (b: TokenBatch)
        ensures
            b@ == input.deep_view(),
    {
        let mut b = TokenBatch::new_data();
        let mut i: usize = 0;
        while i < input.len()
            invariant
                i <= input.len(),
                input.deep_view().len() == input.len(),
                b@ == input.deep_view().subrange(0, i as int),
            decreases input.len() - i,
        {
            b.push_data(clone_tokens(&input[i]));
            i += 1;
            proof {
                assert(b@ =~= input.deep_view().subrange(0, i as int));
            }
        }
        proof {
            assert(input.deep_view().subrange(0, input.len() as int) =~= input.deep_view());
        }
        b
    }

    /// Read a whole result container back out: take its length, then copy
    /// the sentence at every index in order `0..length`, aborting on the
    /// first index that fails. In this container no in-range read fails,
    /// so the copy is always the full, correctly-ordered batch.
    pub fn extract_output(v: &TokenBatch) -> (r: Result<Vec<Vec<String>>, TranslationError>)
        ensures
            r matches Ok(out) && out.deep_view() == v@,
    {
        let mut res: Vec<Vec<String>> = Vec::new();
        let length = v.get_length();
        let mut index: usize = 0;
        proof {
            assert(res.deep_view() =~= v@.subrange(0, 0));
        }
        while index < length
            invariant
                length == v@.len(),
                index <= length,
                res.deep_view() == v@.subrange(0, index as int),
            decreases length - index,
        {
            match v.get_data(index) {
                Ok(tokens) => {
                    let ghost pre = res;
                    let ghost tok = tokens;
                    res.push(tokens);
                    proof {
                        lemma_vec_deep_view_push(pre, res, tok);
                    }
                },
                Err(e) => {
                    proof {
                        assert(false);
                    }
                    return Err(e);
                },
            }
            index += 1;
            proof {
                assert(res.deep_view() =~= v@.subrange(0, index as int));
            }
        }
        proof {
            assert(v@.subrange(0, v@.len() as int) =~= v@);
        }
        Ok(res)
    }
}

/// Marshal a batch across the boundary and straight back: push every
/// sentence into a fresh container, then read the container out again.
/// The result is the input, sentence for sentence and token for token —
/// the round trip through the containers loses and reorders nothing.
pub fn echo_batch(input: &Vec<Vec<String>>) -> (out: Vec<Vec<String>>)
    ensures
        out.deep_view() == input.deep_view(),
{
    let b = TokenBatch::generate_input(input);
    TokenBatch::extract_output(&b).unwrap()
}

} // verus!
