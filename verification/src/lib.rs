//! Counting the bytes, words and lines of a byte stream.
//!
//! The words and lines of a range of bytes are held in a small summary, a
//! [`Flux`], and the summaries of two adjacent ranges merge into the summary
//! of their concatenation. Because merging is associative, a buffer may be
//! summarised piece by piece, on several threads and in any grouping, and
//! still give the counts of one scan from left to right.

pub mod flux;
pub mod reduce;
pub mod tally;
pub mod text;

pub use flux::{span_opt, CharType, Flux};
pub use reduce::flux_over_byte_string;
pub use tally::{Counts, Step, Tally, BUFFER_SIZE};
