use flux_wc::{Counts, Step, Tally, BUFFER_SIZE};

/// Feeds the chunks in order, then the end of input, and returns the counts.
fn count_chunks(chunks: &[&[u8]]) -> Counts {
    let mut tally = Tally::new();
    for chunk in chunks {
        if chunk.is_empty() {
            continue;
        }
        assert_eq!(tally.step(chunk), Step::Consume(chunk.len()));
    }
    match tally.step(&[]) {
        Step::Done(counts) => counts,
        Step::Consume(n) => panic!("asked to consume {} bytes of an empty buffer", n),
    }
}

fn count(input: &str) -> Counts {
    count_chunks(&[input.as_bytes()])
}

#[test]
fn buffer_size_is_half_a_mebibyte() {
    assert_eq!(BUFFER_SIZE, 524_288);
}

#[test]
fn a_new_tally_is_empty() {
    let tally = Tally::new();
    assert_eq!(tally.bytes(), 0);
    assert_eq!(tally.counts(), Counts { bytes: 0, words: 0, lines: 0 });
}

#[test]
fn counts_of_empty_input() {
    assert_eq!(count(""), Counts { bytes: 0, words: 0, lines: 0 });
}

#[test]
fn counts_of_one_word() {
    assert_eq!(count("hello"), Counts { bytes: 5, words: 1, lines: 0 });
}

#[test]
fn counts_of_one_line() {
    assert_eq!(count("hello world\n"), Counts { bytes: 12, words: 2, lines: 1 });
}

#[test]
fn counts_with_leading_and_trailing_whitespace() {
    // Three words; the blanks at either end add none.
    assert_eq!(count("  leading and trailing  "), Counts { bytes: 24, words: 3, lines: 0 });
}

#[test]
fn counts_without_a_final_line_feed() {
    assert_eq!(count("one\ntwo\nthree"), Counts { bytes: 13, words: 3, lines: 2 });
}

#[test]
fn counts_of_whitespace_only() {
    assert_eq!(count(" \n\t\n "), Counts { bytes: 5, words: 0, lines: 2 });
}

#[test]
fn step_tells_how_much_to_consume() {
    let mut tally = Tally::new();
    assert_eq!(tally.step(b"ab c"), Step::Consume(4));
    assert_eq!(tally.bytes(), 4);
    assert_eq!(tally.step(b"d\n"), Step::Consume(2));
    assert_eq!(tally.bytes(), 6);
    assert_eq!(tally.counts(), Counts { bytes: 6, words: 2, lines: 1 });
}

#[test]
fn the_end_of_input_changes_nothing() {
    let mut tally = Tally::new();
    assert_eq!(tally.step(b"x y\n"), Step::Consume(4));
    let done = Step::Done(Counts { bytes: 4, words: 2, lines: 1 });
    assert_eq!(tally.step(&[]), done);
    assert_eq!(tally.step(&[]), done);
    assert_eq!(tally.bytes(), 4);
}

#[test]
fn a_word_across_two_buffers_is_one_word() {
    assert_eq!(
        count_chunks(&[b"hel", b"lo wor", b"ld\n"]),
        Counts { bytes: 12, words: 2, lines: 1 }
    );
}

#[test]
fn whitespace_across_two_buffers() {
    assert_eq!(count_chunks(&[b"a ", b" b"]), Counts { bytes: 4, words: 2, lines: 0 });
}

#[test]
fn every_cut_in_two_buffers_counts_the_same() {
    let whole = b"testing one two three";
    for at in 0..=whole.len() {
        let (left, right) = whole.split_at(at);
        assert_eq!(
            count_chunks(&[left, right]),
            Counts { bytes: 21, words: 4, lines: 0 },
            "cut at {}",
            at
        );
    }
}

#[test]
fn every_cut_in_three_buffers_counts_the_same() {
    let whole = b" one\ntwo  three\n\nfour ";
    let expected = count_chunks(&[whole]);
    assert_eq!(expected, Counts { bytes: 22, words: 4, lines: 3 });
    for i in 0..=whole.len() {
        for j in i..=whole.len() {
            assert_eq!(
                count_chunks(&[&whole[..i], &whole[i..j], &whole[j..]]),
                expected,
                "cuts at {} and {}",
                i,
                j
            );
        }
    }
}

#[test]
fn byte_by_byte_counts_the_same() {
    let whole = b"a bc\n\ndef g\n";
    let chunks: Vec<&[u8]> = whole.chunks(1).collect();
    assert_eq!(count_chunks(&chunks), Counts { bytes: 12, words: 4, lines: 3 });
}

#[test]
fn counting_twice_gives_the_same_counts() {
    let input = "it was the best of times,\nit was the worst of times\n";
    let first = count(input);
    let second = count(input);
    assert_eq!(first, second);
    assert_eq!(first, Counts { bytes: 52, words: 12, lines: 2 });
}
