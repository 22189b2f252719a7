//! What the words and the lines of a sequence of bytes are, and why the
//! summary of a sequence is the merge of the summaries of its parts.

use vstd::prelude::*;
use crate::flux::{
    is_newline, is_space, lemma_merge_opt_associative, merge_opt, wf_opt, CharType, Summary,
};

verus! {

/// Whether a word begins at index `i` of `s`: the byte there is no
/// whitespace, and it is the first byte or follows whitespace.
pub open spec fn begins_word(s: Seq<u8>, i: int) -> bool {
    &&& 0 <= i < s.len()
    &&& !is_space(s[i])
    &&& (i == 0 || is_space(s[i - 1]))
}

/// The number of words in `s`, that is of maximal runs of bytes that are no
/// whitespace: the number of indices at which a word begins.
pub open spec fn word_count(s: Seq<u8>) -> nat
    decreases s.len(),
{
    if s.len() == 0 {
        0
    } else {
        word_count(s.drop_last()) + if begins_word(s, s.len() - 1) { 1nat } else { 0nat }
    }
}

/// The number of line feeds in `s`.
pub open spec fn line_count(s: Seq<u8>) -> nat
    decreases s.len(),
{
    if s.len() == 0 {
        0
    } else {
        line_count(s.drop_last()) + if is_newline(s.last()) { 1nat } else { 0nat }
    }
}

/// The summary of `s`: absent for the empty sequence, else the classes of
/// its first and last bytes with its numbers of words and of lines.
pub open spec fn summary(s: Seq<u8>) -> Option<Summary> {
    if s.len() == 0 {
        None
    } else {
        Some(
            Summary {
                left: CharType::spec_of(s.first()),
                words: word_count(s),
                lines: line_count(s),
                right: CharType::spec_of(s.last()),
            },
        )
    }
}

/// A sequence has no more words and no more lines than bytes.
pub proof fn lemma_counts_bounded(s: Seq<u8>)
    ensures
        word_count(s) <= s.len(),
        line_count(s) <= s.len(),
    decreases s.len(),
{
    if s.len() > 0 {
        lemma_counts_bounded(s.drop_last());
    }
}

/// A sequence that holds a byte that is no whitespace holds a word.
pub proof fn lemma_word_present(s: Seq<u8>, i: int)
    requires
        0 <= i < s.len(),
        !is_space(s[i]),
    ensures
        word_count(s) >= 1,
    decreases s.len(),
{
    let last = s.len() - 1;
    if i < last {
        lemma_word_present(s.drop_last(), i);
    } else if !begins_word(s, last) {
        lemma_word_present(s.drop_last(), last - 1);
    }
}

/// The summary of a sequence is well formed.
pub proof fn lemma_summary_wf(s: Seq<u8>)
    ensures
        wf_opt(summary(s)),
{
    if s.len() > 0 {
        if !is_space(s.first()) {
            lemma_word_present(s, 0);
        }
        if !is_space(s.last()) {
            lemma_word_present(s, s.len() - 1);
        }
    }
}

/// Appending one byte to a sequence merges that byte's summary into the
/// sequence's, on the right.
pub proof fn lemma_summary_push(s: Seq<u8>, b: u8)
    ensures
        summary(s.push(b)) == merge_opt(summary(s), Some(Summary::of_byte(b))),
{
    let t = s.push(b);
    assert(t.drop_last() =~= s);
    if s.len() == 0 {
        assert(word_count(s) == 0);
        assert(line_count(s) == 0);
    } else {
        assert(t.first() == s.first());
        assert(t[t.len() - 2] == s.last());
        lemma_summary_wf(s);
    }
}

/// The summary of two sequences, one after the other, is the merge of their
/// summaries. Put otherwise: wherever a sequence is split in two, the two
/// parts' summaries merge into the summary of the whole.
pub proof fn lemma_summary_concat(s: Seq<u8>, t: Seq<u8>)
    ensures
        summary(s + t) == merge_opt(summary(s), summary(t)),
    decreases t.len(),
{
    if t.len() == 0 {
        assert(s + t =~= s);
    } else {
        let front = t.drop_last();
        let b = t.last();
        assert(s + t =~= (s + front).push(b));
        assert(t =~= front.push(b));
        lemma_summary_concat(s, front);
        lemma_summary_push(s + front, b);
        lemma_summary_push(front, b);
        lemma_summary_wf(s);
        lemma_summary_wf(front);
        lemma_merge_opt_associative(summary(s), summary(front), Some(Summary::of_byte(b)));
    }
}

/// Wherever a sequence is split in two, at its ends and inside a word or a
/// run of whitespace too, the summaries of the two parts merge into the
/// summary of the whole.
pub proof fn lemma_summary_split(s: Seq<u8>, at: int)
    requires
        0 <= at <= s.len(),
    ensures
        merge_opt(summary(s.subrange(0, at)), summary(s.subrange(at, s.len() as int)))
            == summary(s),
{
    assert(s.subrange(0, at) + s.subrange(at, s.len() as int) =~= s);
    lemma_summary_concat(s.subrange(0, at), s.subrange(at, s.len() as int));
}

} // verus!
