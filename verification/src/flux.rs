//! The summary of a non-empty range of bytes, and the merge of two adjacent
//! summaries.

use vstd::prelude::*;

verus! {

/// The class of a byte.
#[derive(Copy, Clone, PartialEq, Eq, Structural, Debug, Hash)]
pub enum CharType {
    /// The byte is a whitespace separator.
    IsSpace,
    /// The byte is not a whitespace separator.
    NotSpace,
}

/// Whether `b` separates words: it is a space, a horizontal tab, a line
/// feed, a vertical tab, a form feed or a carriage return. Every other
/// byte, those above the ASCII range included, is part of a word.
pub open spec fn is_space(b: u8) -> bool {
    b == 0x20 || b == 0x09 || b == 0x0a || b == 0x0b || b == 0x0c || b == 0x0d
}

/// Whether `b` ends a line.
pub open spec fn is_newline(b: u8) -> bool {
    b == 0x0a
}

impl CharType {
    /// The class of the byte `b`.
    pub open spec fn spec_of(b: u8) -> CharType {
        if is_space(b) {
            CharType::IsSpace
        } else {
            CharType::NotSpace
        }
    }

    /// Classifies the byte `b`.
    pub fn of(b: u8) -> (class: CharType)
        ensures
            class == CharType::spec_of(b),
    {
        if b == 0x20 || (0x09 <= b && b <= 0x0d) {
            CharType::IsSpace
        } else {
            CharType::NotSpace
        }
    }
}

/// What a [`Flux`] stands for: the classes of the first and the last byte of
/// a range, and its numbers of words and of lines, as unbounded naturals.
pub struct Summary {
    pub left: CharType,
    pub words: nat,
    pub lines: nat,
    pub right: CharType,
}

impl Summary {
    /// A range that begins or ends inside a word holds at least that word.
    pub open spec fn wf(self) -> bool {
        (self.left == CharType::NotSpace || self.right == CharType::NotSpace) ==> self.words >= 1
    }

    /// The summary of the range that holds the single byte `b`.
    pub open spec fn of_byte(b: u8) -> Summary {
        Summary {
            left: CharType::spec_of(b),
            words: if is_space(b) { 0 } else { 1 },
            lines: if is_newline(b) { 1 } else { 0 },
            right: CharType::spec_of(b),
        }
    }

    /// Whether one word runs from the end of `self` into the start of `rhs`.
    pub open spec fn shares_word(self, rhs: Summary) -> bool {
        self.right == CharType::NotSpace && rhs.left == CharType::NotSpace
    }

    /// The summary of the range made of `self`'s range followed at once by
    /// `rhs`'s. A word that runs across the boundary is counted once.
    pub open spec fn merge(self, rhs: Summary) -> Summary {
        Summary {
            left: self.left,
            words: if self.shares_word(rhs) {
                (self.words + rhs.words - 1) as nat
            } else {
                self.words + rhs.words
            },
            lines: self.lines + rhs.lines,
            right: rhs.right,
        }
    }
}

/// The merge of two summaries either of which may be absent, as that of an
/// empty range is: an absent summary leaves the other one as it is.
pub open spec fn merge_opt(lhs: Option<Summary>, rhs: Option<Summary>) -> Option<Summary> {
    match (lhs, rhs) {
        (Some(l), Some(r)) => Some(l.merge(r)),
        (Some(l), None) => Some(l),
        (None, r) => r,
    }
}

/// Whether an optional summary, where present, is well formed.
pub open spec fn wf_opt(s: Option<Summary>) -> bool {
    s matches Some(v) ==> v.wf()
}

/// Representation of a chunk of text.
#[derive(Copy, Clone, PartialEq, Eq, Structural, Debug, Hash)]
pub struct Flux {
    /// The class of the left-most byte of the chunk.
    pub leftmost_char_type: CharType,
    /// The number of words in the chunk.
    pub words: usize,
    /// The number of lines in the chunk.
    pub lines: usize,
    /// The class of the right-most byte of the chunk.
    pub rightmost_char_type: CharType,
}

impl View for Flux {
    type V = Summary;

    open spec fn view(&self) -> Summary {
        Summary {
            left: self.leftmost_char_type,
            words: self.words as nat,
            lines: self.lines as nat,
            right: self.rightmost_char_type,
        }
    }
}

/// What an optional [`Flux`] stands for.
pub open spec fn opt_view(flux: Option<Flux>) -> Option<Summary> {
    match flux {
        Some(f) => Some(f@),
        None => None,
    }
}

impl Flux {
    /// Whether the word count agrees with the classes of the two ends.
    pub open spec fn wf(self) -> bool {
        self@.wf()
    }

    /// Whether the span of `self` and `rhs` has counts that fit the machine's
    /// word.
    pub open spec fn spans_with(self, rhs: Flux) -> bool {
        &&& self.wf()
        &&& rhs.wf()
        &&& self@.merge(rhs@).words <= usize::MAX
        &&& self@.merge(rhs@).lines <= usize::MAX
    }

    /// Returns a new instance with the provided parameters.
    pub fn new(
        leftmost_char_type: CharType,
        words: usize,
        lines: usize,
        rightmost_char_type: CharType,
    ) -> (flux: Flux)
        ensures
            flux.leftmost_char_type == leftmost_char_type,
            flux.words == words,
            flux.lines == lines,
            flux.rightmost_char_type == rightmost_char_type,
    {
        Flux { leftmost_char_type, words, lines, rightmost_char_type }
    }

    /// Returns a new Flux spanning the receiver on the left, and `rhs` on the
    /// right.
    pub fn span(self, rhs: Flux) -> (flux: Flux)
        requires
            self.spans_with(rhs),
        ensures
            flux@ == self@.merge(rhs@),
            flux.wf(),
    {
        let lines: usize = self.lines + rhs.lines;
        let shared: bool = self.rightmost_char_type == CharType::NotSpace
            && rhs.leftmost_char_type == CharType::NotSpace;
        let words: usize = if shared {
            // Along a boundary inside a word the count is one less than the sum.
            self.words + (rhs.words - 1)
        } else {
            self.words + rhs.words
        };
        Flux::new(self.leftmost_char_type, words, lines, rhs.rightmost_char_type)
    }
}

impl From<u8> for Flux {
    /// Creates the Flux of a single byte.
    fn from(other: u8) -> (flux: Flux) {
        match CharType::of(other) {
            CharType::IsSpace => {
                let lines: usize = if other == 0x0a { 1 } else { 0 };
                Flux::new(CharType::IsSpace, 0, lines, CharType::IsSpace)
            },
            CharType::NotSpace => Flux::new(CharType::NotSpace, 1, 0, CharType::NotSpace),
        }
    }
}

impl vstd::std_specs::convert::FromSpecImpl<u8> for Flux {
    open spec fn obeys_from_spec() -> bool {
        true
    }

    open spec fn from_spec(other: u8) -> Flux {
        Flux {
            leftmost_char_type: CharType::spec_of(other),
            words: if is_space(other) { 0 } else { 1 },
            lines: if is_newline(other) { 1 } else { 0 },
            rightmost_char_type: CharType::spec_of(other),
        }
    }
}

/// Takes two optional Flux instances and returns the span of the two; where
/// one is absent, the other as it is.
pub fn span_opt(lhs: Option<Flux>, rhs: Option<Flux>) -> (flux: Option<Flux>)
    requires
        lhs is Some && rhs is Some ==> lhs->Some_0.spans_with(rhs->Some_0),
    ensures
        opt_view(flux) == merge_opt(opt_view(lhs), opt_view(rhs)),
        lhs is None ==> flux == rhs,
        rhs is None ==> flux == lhs,
{
    match lhs {
        None => rhs,
        Some(left_flux) => match rhs {
            None => lhs,
            Some(right_flux) => Some(left_flux.span(right_flux)),
        },
    }
}

/// Merging is associative: of three adjacent ranges, it does not matter
/// which two are merged first.
pub proof fn lemma_merge_associative(a: Summary, b: Summary, c: Summary)
    requires
        a.wf(),
        b.wf(),
        c.wf(),
    ensures
        a.merge(b).merge(c) == a.merge(b.merge(c)),
{
}

/// An absent summary is the identity of the merge, on the left and on the
/// right.
pub proof fn lemma_merge_opt_absent(s: Option<Summary>)
    ensures
        merge_opt(None, s) == s,
        merge_opt(s, None) == s,
{
}

/// Merging optional summaries is associative as well.
pub proof fn lemma_merge_opt_associative(
    a: Option<Summary>,
    b: Option<Summary>,
    c: Option<Summary>,
)
    requires
        wf_opt(a),
        wf_opt(b),
        wf_opt(c),
    ensures
        merge_opt(merge_opt(a, b), c) == merge_opt(a, merge_opt(b, c)),
        wf_opt(merge_opt(a, b)),
{
    if let (Some(x), Some(y), Some(z)) = (a, b, c) {
        lemma_merge_associative(x, y, z);
    }
}

} // verus!
