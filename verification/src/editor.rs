//! Helpers of the code editor.
use vstd::prelude::*;
use vstd::string::*;

verus! {

/// Whether an ASCII character ends a word: white space, or punctuation other than `.` and `_`
/// (which belong to names such as `.text` or `my_label`).
pub open spec fn is_word_end(c: char) -> bool {
    let n = c as u32;
    ||| n == 0x20
    ||| 0x09 <= n <= 0x0d
    ||| ((0x21 <= n <= 0x2f || 0x3a <= n <= 0x40 || 0x5b <= n <= 0x60 || 0x7b <= n <= 0x7e) && c
        != '.' && c != '_')
}

/// Where the word around `col` starts: just after the last word end before `col`, or at 0.
pub open spec fn word_start(line: Seq<char>, col: int) -> int
    decreases col,
{
    if col <= 0 {
        0
    } else if is_word_end(line[col - 1]) {
        col
    } else {
        word_start(line, col - 1)
    }
}

/// Where the word around `col` ends: at the first word end from `col` on, or at the end of
/// the line.
pub open spec fn word_stop(line: Seq<char>, col: int) -> int
    decreases line.len() - col,
{
    if col >= line.len() {
        line.len() as int
    } else if is_word_end(line[col]) {
        col
    } else {
        word_stop(line, col + 1)
    }
}

fn byte_is_word_end(b: u8) -> (r: bool)
    ensures
        r == is_word_end((b as u32) as char),
{
    b == 0x20 || (0x09 <= b && b <= 0x0d) || ((0x21 <= b && b <= 0x2f || 0x3a <= b && b <= 0x40
        || 0x5b <= b && b <= 0x60 || 0x7b <= b && b <= 0x7e) && b != 0x2e && b != 0x5f)
}

proof fn lemma_word_start_bounds(line: Seq<char>, col: int)
    ensures
        col >= 0 ==> 0 <= word_start(line, col) <= col,
    decreases col,
{
    if col > 0 {
        lemma_word_start_bounds(line, col - 1);
    }
}

proof fn lemma_word_stop_bounds(line: Seq<char>, col: int)
    requires
        0 <= col <= line.len(),
    ensures
        col <= word_stop(line, col) <= line.len(),
    decreases line.len() - col,
{
    if col < line.len() {
        lemma_word_stop_bounds(line, col + 1);
    }
}

/// The word of an ASCII line around column `col` (a byte index at most the line's length),
/// for the editor's hover help: from just after the last word end before `col` to the first
/// word end from `col` on.
pub fn get_word_at_position(line: &str, col: usize) -> (r: &str)
    requires
        line.is_ascii(),
        col <= line@.len(),
    ensures
        r@ == line@.subrange(word_start(line@, col as int), word_stop(line@, col as int)),
{
    let len = line.unicode_len();
    // back from `col` to the start of the word
    let mut start: usize = col;
    while start > 0
        invariant
            line.is_ascii(),
            start <= col <= line@.len() == len,
            word_start(line@, col as int) == word_start(line@, start as int),
        ensures
            start == word_start(line@, col as int),
        decreases start,
    {
        let b = line.get_ascii(start - 1);
        proof {
            assert(line@[start - 1] as u8 == b);
            assert((b as u32) as char == line@[start - 1]) by {
                broadcast use vstd::string::is_ascii_spec_bytes;

            }
        }
        if byte_is_word_end(b) {
            break;
        }
        start = start - 1;
    }
    // on from `col` to the end of the word
    let mut end: usize = col;
    while end < len
        invariant
            line.is_ascii(),
            col <= end <= line@.len() == len,
            word_stop(line@, col as int) == word_stop(line@, end as int),
        ensures
            end == word_stop(line@, col as int),
        decreases len - end,
    {
        let b = line.get_ascii(end);
        proof {
            assert((b as u32) as char == line@[end as int]) by {
                broadcast use vstd::string::is_ascii_spec_bytes;

            }
        }
        if byte_is_word_end(b) {
            break;
        }
        end = end + 1;
    }
    proof {
        lemma_word_start_bounds(line@, col as int);
        lemma_word_stop_bounds(line@, col as int);
    }
    line.substring_ascii(start, end)
}

} // verus!
