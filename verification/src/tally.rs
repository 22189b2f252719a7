//! The running count over a stream that arrives buffer by buffer.

use vstd::prelude::*;
use crate::flux::{opt_view, span_opt, Flux};
use crate::reduce::flux_over_byte_string;
use crate::text::{
    lemma_counts_bounded, lemma_summary_concat, lemma_summary_wf, line_count, summary, word_count,
};

verus! {

/// Size of the buffer to read the input with.
pub const BUFFER_SIZE: usize = 512 * 1024;

/// The result of counting: the bytes, the words and the lines of an input.
#[derive(Copy, Clone, PartialEq, Eq, Structural, Debug, Hash)]
pub struct Counts {
    pub bytes: usize,
    pub words: usize,
    pub lines: usize,
}

impl Counts {
    /// Whether these are the counts of the byte sequence `s`.
    pub open spec fn describes(self, s: Seq<u8>) -> bool {
        &&& self.bytes == s.len()
        &&& self.words == word_count(s)
        &&& self.lines == line_count(s)
    }
}

/// What the reader of the input does after handing over a buffer.
#[derive(Copy, Clone, PartialEq, Eq, Structural, Debug, Hash)]
pub enum Step {
    /// The buffer was counted: mark this many bytes as consumed, then ask
    /// for the next buffer.
    Consume(usize),
    /// The input has ended, and these are its counts.
    Done(Counts),
}

/// The running byte count and the running summary of all that was read so
/// far. Its view is the sequence of the bytes read so far.
pub struct Tally {
    bytes: usize,
    flux: Option<Flux>,
    seen: Ghost<Seq<u8>>,
}

impl View for Tally {
    type V = Seq<u8>;

    closed spec fn view(&self) -> Seq<u8> {
        self.seen@
    }
}

impl Tally {
    /// The byte counter and the summary are those of the bytes read so far.
    pub closed spec fn wf(&self) -> bool {
        &&& self.bytes == self.seen@.len()
        &&& opt_view(self.flux) == summary(self.seen@)
    }

    /// The counts that the counter and the summary amount to: no words and
    /// no lines while the summary is absent.
    pub closed spec fn spec_counts(&self) -> Counts {
        Counts {
            bytes: self.bytes,
            words: match self.flux {
                Some(f) => f.words,
                None => 0,
            },
            lines: match self.flux {
                Some(f) => f.lines,
                None => 0,
            },
        }
    }

    /// A tally of nothing: no byte read, no summary yet.
    pub fn new() -> (tally: Tally)
        ensures
            tally.wf(),
            tally@ == Seq::<u8>::empty(),
    {
        Tally { bytes: 0, flux: None, seen: Ghost(Seq::empty()) }
    }

    /// The number of bytes read so far.
    pub fn bytes(&self) -> (n: usize)
        requires
            self.wf(),
        ensures
            n == self@.len(),
    {
        self.bytes
    }

    /// The counts of what was read so far.
    pub fn counts(&self) -> (counts: Counts)
        requires
            self.wf(),
        ensures
            counts == self.spec_counts(),
            counts.describes(self@),
    {
        let (words, lines): (usize, usize) = match self.flux {
            Some(f) => (f.words, f.lines),
            None => (0, 0),
        };
        Counts { bytes: self.bytes, words, lines }
    }

    /// Takes the next buffer of the input, which follows at once on what was
    /// read before. An empty buffer is the end of the input: nothing changes
    /// and the counts of the whole input are handed out. Any other buffer
    /// is counted whole and merged in on the right.
    pub fn step(&mut self, buffer: &[u8]) -> (next: Step)
        requires
            old(self).wf(),
            old(self)@.len() + buffer@.len() <= usize::MAX,
        ensures
            final(self).wf(),
            buffer@.len() == 0 ==> final(self)@ == old(self)@,
            buffer@.len() == 0 ==> (next matches Step::Done(counts) && counts.describes(
                old(self)@,
            )),
            buffer@.len() > 0 ==> final(self)@ == old(self)@ + buffer@,
            buffer@.len() > 0 ==> next == Step::Consume(buffer@.len() as usize),
    {
        let length: usize = buffer.len();
        if length == 0 {
            return Step::Done(self.counts());
        }
        let flux = flux_over_byte_string(buffer);
        proof {
            let whole = self.seen@ + buffer@;
            lemma_summary_concat(self.seen@, buffer@);
            lemma_summary_wf(self.seen@);
            lemma_summary_wf(buffer@);
            lemma_counts_bounded(whole);
        }
        self.bytes = self.bytes + length;
        self.flux = span_opt(self.flux, flux);
        self.seen = Ghost(self.seen@ + buffer@);
        Step::Consume(length)
    }
}

/// Two tallies that have read the same bytes hold the same counts, however
/// the bytes were cut into buffers: counting an input again gives the same
/// result.
pub proof fn lemma_recount(first: Tally, second: Tally)
    requires
        first.wf(),
        second.wf(),
        first@ == second@,
    ensures
        first.spec_counts() == second.spec_counts(),
        first.spec_counts().describes(first@),
{
}

} // verus!
