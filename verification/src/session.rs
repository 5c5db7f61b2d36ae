//! One translate call, end to end: what the session does around the native
//! entry point.
//!
//! The native engine itself is opaque to this layer; what it did to one call
//! is a [`NativeOutcome`]. Given the outcome, the session either surfaces the
//! diagnostic unchanged or collects the per-index extraction results into a
//! full, correctly-ordered output batch — never a partial one. A
//! [`ContainerLedger`] counts the native containers a call creates and
//! releases: they are not garbage-collected, so every exit path, the error
//! paths included, must give back exactly what it took.

use vstd::prelude::*;

use crate::batch::TokenBatch;
use crate::batch::clone_tokens;
use crate::errors::TranslationError;

verus! {

/// Every per-index read of the native result container succeeded.
pub open spec fn all_ok(items: Seq<Result<Vec<String>, String>>) -> bool {
    forall|i: int| 0 <= i < items.len() ==> items[i] is Ok
}

/// The output batch that a run of successful per-index reads yields: one
/// sentence per read, at the same index.
pub open spec fn collected(items: Seq<Result<Vec<String>, String>>) -> Seq<Seq<Seq<char>>> {
    Seq::new(items.len(), |i: int| items[i]->Ok_0.deep_view())
}

/// `msg` is the diagnostic of the first failed per-index read: some read
/// failed with it, and every read before that one succeeded.
pub open spec fn is_first_error(items: Seq<Result<Vec<String>, String>>, msg: Seq<char>) -> bool {
    exists|i: int|
        0 <= i < items.len() && items[i] is Err && msg == items[i]->Err_0@ && (forall|j: int|
            0 <= j < i ==> items[j] is Ok)
}

/// Counts the native containers currently alive on behalf of one session.
/// The native side does not garbage-collect, so whatever a call acquires
/// it must release before returning — on the error paths too.
pub struct ContainerLedger {
    /// How many native containers are currently alive.
    pub live: u64,
}

impl ContainerLedger {
    /// A ledger with nothing outstanding.
    pub fn new() -> (l: ContainerLedger)
        ensures
            l.live == 0,
    {
        ContainerLedger { live: 0 }
    }

    /// Record one native container coming alive.
    pub fn acquire(&mut self)
        requires
            old(self).live < u64::MAX,
        ensures
            final(self).live == old(self).live + 1,
    {
        self.live = self.live + 1;
    }

    /// Record one native container being destroyed.
    pub fn release(&mut self)
        requires
            old(self).live >= 1,
        ensures
            final(self).live == old(self).live - 1,
    {
        self.live = self.live - 1;
    }
}

/// What the native translate entry point did with one call.
pub enum NativeOutcome {
    /// It raised: the diagnostic to surface, unchanged.
    Raised(String),
    /// It returned a result container; reading it index by index gave
    /// these values, each a sentence or the diagnostic of a failed read.
    Extracted(Vec<Result<Vec<String>, String>>),
    /// It echoed the input batch back unchanged (the input-echo path some
    /// engines support).
    Echoed,
}

/// Fold the per-index reads of a native result container into one output
/// batch: the full, correctly-ordered batch when every read succeeded, or
/// the first failure's diagnostic — never a partial batch.
pub fn collect_outputs(items: Vec<Result<Vec<String>, String>>) -> (r: Result<
    Vec<Vec<String>>,
    TranslationError,
>)
    ensures
        (r is Ok) <==> all_ok(items@),
        r matches Ok(out) ==> out.deep_view() == collected(items@),
        r matches Err(e) ==> is_first_error(items@, e.message@),
{
    let mut out: Vec<Vec<String>> = Vec::new();
    let mut i: usize = 0;
    proof {
        assert(out.deep_view() =~= collected(items@).subrange(0, 0));
    }
    while i < items.len()
        invariant
            i <= items.len(),
            forall|j: int| 0 <= j < i ==> items@[j] is Ok,
            out.deep_view() == collected(items@).subrange(0, i as int),
        decreases items.len() - i,
    {
        match &items[i] {
            Ok(tokens) => {
                let copied = clone_tokens(tokens);
                let ghost pre = out;
                let ghost cop = copied;
                out.push(copied);
                proof {
                    crate::batch::lemma_vec_deep_view_push(pre, out, cop);
                }
            },
            Err(message) => {
                return Err(TranslationError { message: message.clone() });
            },
        }
        i += 1;
        proof {
            assert(out.deep_view() =~= collected(items@).subrange(0, i as int));
        }
    }
    proof {
        assert(collected(items@).subrange(0, items@.len() as int) =~= collected(items@));
    }
    Ok(out)
}

/// One translate call on a session, end to end: create the input container,
/// push every sentence in order, let the native entry point run (its doing
/// is `outcome`), read the result back, and release every container that
/// was created — on the success path and on every error path alike.
///
/// The ledger ends exactly where it began, whatever the outcome: a call
/// leaks no native container, and a failed call leaves nothing behind that
/// a later call on the same session could see.
pub fn run_translate_call(
    input: &Vec<Vec<String>>,
    outcome: NativeOutcome,
    ledger: &mut ContainerLedger,
) -> (r: Result<Vec<Vec<String>>, TranslationError>)
    requires
        old(ledger).live <= u64::MAX - 2,
    ensures
        final(ledger).live == old(ledger).live,
        outcome matches NativeOutcome::Raised(m) ==> (r matches Err(e) && e.message@ == m@),
        outcome matches NativeOutcome::Extracted(items) ==> ((r is Ok) <==> all_ok(items@)),
        outcome matches NativeOutcome::Extracted(items) ==> (r matches Ok(out) ==> out.deep_view()
            == collected(items@)),
        outcome matches NativeOutcome::Extracted(items) ==> (r matches Err(e) ==> is_first_error(
            items@,
            e.message@,
        )),
        outcome is Echoed ==> (r matches Ok(out) && out.deep_view() == input.deep_view()),
{
    ledger.acquire();
    let batch = TokenBatch::generate_input(input);
    let r: Result<Vec<Vec<String>>, TranslationError> = match outcome {
        NativeOutcome::Raised(message) => Err(TranslationError { message }),
        NativeOutcome::Extracted(items) => {
            ledger.acquire();
            let folded = collect_outputs(items);
            ledger.release();
            folded
        },
        NativeOutcome::Echoed => {
            ledger.acquire();
            let echoed = TokenBatch::extract_output(&batch);
            ledger.release();
            echoed
        },
    };
    ledger.release();
    r
}

/// A successful collection has exactly one output sentence per native
/// result entry, and the entry read at each index lands at that same
/// index of the output: order is preserved, nothing is dropped, nothing
/// is added.
pub proof fn lemma_collected_shape(items: Seq<Result<Vec<String>, String>>)
    ensures
        collected(items).len() == items.len(),
        forall|i: int| 0 <= i < items.len() ==> collected(items)[i] == items[i]->Ok_0.deep_view(),
{
}

/// With one hypothesis retained per input sentence the engine hands back
/// exactly one result entry per input sentence; a successful call then
/// returns exactly one output sentence per input sentence.
pub proof fn lemma_one_sentence_per_input(
    input: Seq<Seq<Seq<char>>>,
    items: Seq<Result<Vec<String>, String>>,
)
    requires
        items.len() == input.len(),
    ensures
        collected(items).len() == input.len(),
{
}

/// A call that gives back every container it took — as every translate
/// call does, the failed ones included — leaves the session ready for the
/// next call: nothing of a failure persists in this layer.
pub proof fn lemma_session_reusable(before: ContainerLedger, after: ContainerLedger)
    requires
        before.live <= u64::MAX - 2,
        after.live == before.live,
    ensures
        after.live <= u64::MAX - 2,
{
}

/// An empty run of reads collects to the empty batch and can carry no
/// failure: an empty input yields an empty output, not an error.
pub proof fn lemma_empty_collection(items: Seq<Result<Vec<String>, String>>)
    requires
        items.len() == 0,
    ensures
        all_ok(items),
        collected(items) == Seq::<Seq<Seq<char>>>::empty(),
{
    assert(collected(items) =~= Seq::<Seq<Seq<char>>>::empty());
}

} // verus!
