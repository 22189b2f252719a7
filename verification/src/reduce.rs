//! Summarising a buffer in parallel: every byte gets its own summary, and
//! the summaries are merged in whatever grouping the thread pool arrives at.

use vstd::prelude::*;
use rayon::iter::{IntoParallelRefIterator, ParallelIterator};
use crate::flux::{merge_opt, opt_view, span_opt, Flux, Summary};
use crate::text::{lemma_summary_concat, lemma_summary_push, summary};

verus! {

/// One way of summarising a sequence of bytes piece by piece.
///
/// The pieces are contiguous and keep their order; how many there are, where
/// they are cut and which neighbours are merged first is left open. A piece
/// may be empty.
pub enum Grouping {
    /// The bytes are folded one after the other, from left to right,
    /// starting from the absent summary.
    Run(Seq<u8>),
    /// The two groupings are worked out apart, and the result of the left
    /// one is merged with the result of the right one.
    Join(Box<Grouping>, Box<Grouping>),
}

/// The result of folding the bytes of `s` one by one, from left to right,
/// into an absent summary.
pub open spec fn fold_bytes(s: Seq<u8>) -> Option<Summary> {
    s.fold_left(None, |acc: Option<Summary>, b: u8| merge_opt(acc, Some(Summary::of_byte(b))))
}

impl Grouping {
    /// The bytes that the grouping covers, in order.
    pub open spec fn bytes(self) -> Seq<u8>
        decreases self,
    {
        match self {
            Grouping::Run(s) => s,
            Grouping::Join(left, right) => left.bytes() + right.bytes(),
        }
    }

    /// The summary that the grouping arrives at.
    pub open spec fn value(self) -> Option<Summary>
        decreases self,
    {
        match self {
            Grouping::Run(s) => fold_bytes(s),
            Grouping::Join(left, right) => merge_opt(left.value(), right.value()),
        }
    }
}

/// Folding a sequence byte by byte gives its summary.
pub proof fn lemma_fold_bytes(s: Seq<u8>)
    ensures
        fold_bytes(s) == summary(s),
    decreases s.len(),
{
    if s.len() > 0 {
        lemma_fold_bytes(s.drop_last());
        lemma_summary_push(s.drop_last(), s.last());
        assert(s.drop_last().push(s.last()) =~= s);
    }
}

/// Whatever the grouping, it arrives at the summary of the bytes it covers:
/// neither the cuts nor the order of the merges can change the result.
pub proof fn lemma_grouping_value(g: Grouping)
    ensures
        g.value() == summary(g.bytes()),
    decreases g,
{
    match g {
        Grouping::Run(s) => {
            lemma_fold_bytes(s);
        },
        Grouping::Join(left, right) => {
            lemma_grouping_value(*left);
            lemma_grouping_value(*right);
            lemma_summary_concat(left.bytes(), right.bytes());
        },
    }
}

/// Whether some grouping of the bytes of `input` arrives at `result`.
pub open spec fn reduces_to(input: Seq<u8>, result: Option<Summary>) -> bool {
    exists|g: Grouping| g.bytes() == input && g.value() == result
}

/// Runs rayon's `par_iter`, `cloned`, `map`, `fold` and `reduce` over the
/// bytes of `input`.
///
/// Not proved, but taken from rayon: `fold` cuts the items into contiguous
/// sublists at points of its choosing and folds each from the identity, here
/// the absent summary; `reduce` then combines those results in the order of
/// the items, grouped as it sees fit, and may put the identity in between.
/// So the result is what some grouping of the input arrives at.
#[verifier::external_body]
fn reduce_in_parallel(input: &[u8]) -> (flux: Option<Flux>)
    ensures
        reduces_to(input@, opt_view(flux)),
{
    input
        .par_iter()
        .cloned()
        .map(Flux::from)
        .fold(|| None, |acc, next| span_opt(acc, Some(next)))
        .reduce(|| None, |acc, next| span_opt(acc, next))
}

/// Computes the flux over the provided input byte string: absent where the
/// input is empty, else the summary of all of it.
pub fn flux_over_byte_string(input: &[u8]) -> (flux: Option<Flux>)
    ensures
        opt_view(flux) == summary(input@),
{
    let flux = reduce_in_parallel(input);
    proof {
        let g = choose|g: Grouping| g.bytes() == input@ && g.value() == opt_view(flux);
        lemma_grouping_value(g);
    }
    flux
}

/// The summaries of the chunks, each worked out by its own grouping, merged
/// from left to right.
pub open spec fn merge_all(chunks: Seq<Grouping>) -> Option<Summary> {
    chunks.fold_left(None, |acc: Option<Summary>, g: Grouping| merge_opt(acc, g.value()))
}

/// The bytes of all the chunks, one chunk after the other.
pub open spec fn all_bytes(chunks: Seq<Grouping>) -> Seq<u8> {
    chunks.map_values(|g: Grouping| g.bytes()).flatten()
}

/// However a sequence of bytes is cut into chunks, and however each chunk is
/// grouped within, merging the chunks' summaries from left to right gives
/// the summary of the whole sequence, as one scan would.
pub proof fn lemma_split_invariance(chunks: Seq<Grouping>)
    ensures
        merge_all(chunks) == summary(all_bytes(chunks)),
    decreases chunks.len(),
{
    if chunks.len() == 0 {
        assert(all_bytes(chunks) =~= Seq::<u8>::empty());
    } else {
        let front = chunks.drop_last();
        let last = chunks.last();
        let pieces = front.map_values(|g: Grouping| g.bytes());
        assert(chunks.map_values(|g: Grouping| g.bytes()) =~= pieces.push(last.bytes()));
        pieces.lemma_flatten_push(last.bytes());
        lemma_split_invariance(front);
        lemma_grouping_value(last);
        lemma_summary_concat(all_bytes(front), last.bytes());
    }
}

} // verus!
