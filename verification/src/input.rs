//! Reading the move a player typed.
//!
//! A move is typed as three numbers on one line, separated by white space:
//! the number of a piece in the player's inventory, then the row and the
//! column to anchor it at. A number is written in decimal digits, with an
//! optional `+` in front. A line that holds anything else is no move.

use vstd::prelude::*;
use crate::board::Position;

verus! {

/// White space: the characters that separate the words of a line.
pub open spec fn is_blank(c: char) -> bool {
    let code = c as u32;
    ||| 0x09 <= code <= 0x0D
    ||| code == 0x20
    ||| code == 0x85
    ||| code == 0xA0
    ||| code == 0x1680
    ||| 0x2000 <= code <= 0x200A
    ||| code == 0x2028
    ||| code == 0x2029
    ||| code == 0x202F
    ||| code == 0x205F
    ||| code == 0x3000
}

/// The decimal digits `0` to `9`.
pub open spec fn is_digit(c: char) -> bool {
    0x30 <= c as u32 <= 0x39
}

/// What a digit stands for.
pub open spec fn digit_value(c: char) -> nat {
    (c as u32 - 0x30) as nat
}

/// The words of a line: its longest runs of characters without white space,
/// from left to right.
pub open spec fn words(line: Seq<char>) -> Seq<Seq<char>>
    decreases line.len(),
{
    if line.len() == 0 {
        Seq::empty()
    } else {
        let before = words(line.drop_last());
        let c = line.last();
        if is_blank(c) {
            before
        } else if line.len() >= 2 && !is_blank(line[line.len() - 2]) {
            before.drop_last().push(before.last().push(c))
        } else {
            before.push(seq![c])
        }
    }
}

/// The number that a run of digits writes, most significant digit first.
pub open spec fn decimal(digits: Seq<char>) -> nat
    decreases digits.len(),
{
    if digits.len() == 0 {
        0
    } else {
        decimal(digits.drop_last()) * 10 + digit_value(digits.last())
    }
}

/// A word without the `+` that may stand in front of it.
pub open spec fn unsigned_part(word: Seq<char>) -> Seq<char> {
    if word.len() > 0 && word[0] == '+' {
        word.drop_first()
    } else {
        word
    }
}

/// The number a word writes: one or more digits, with an optional `+` in
/// front, whose value fits the machine. Any other word writes no number.
pub open spec fn number(word: Seq<char>) -> Option<usize> {
    let digits = unsigned_part(word);
    if digits.len() > 0 && (forall|i: int| 0 <= i < digits.len() ==> is_digit(#[trigger] digits[i]))
        && decimal(digits) <= usize::MAX {
        Some(decimal(digits) as usize)
    } else {
        None
    }
}

/// The numbers that the words write, if each of them writes one.
pub open spec fn numbers(words: Seq<Seq<char>>) -> Option<Seq<usize>> {
    if forall|i: int| 0 <= i < words.len() ==> (#[trigger] number(words[i])) is Some {
        Some(Seq::new(words.len(), |i: int| number(words[i])->0))
    } else {
        None
    }
}

/// The move chosen by the numbers typed: a piece number, a row and a column.
/// Anything but three numbers is no move, and neither is a piece number that
/// an inventory of `piece_count` pieces does not have.
pub open spec fn selection(values: Seq<usize>, piece_count: usize) -> Option<(usize, Position)> {
    if values.len() == 3 && values[0] < piece_count {
        Some((values[0], (values[1], values[2])))
    } else {
        None
    }
}

/// The move that a typed line asks for, if it asks for one.
pub open spec fn typed_move(line: Seq<char>, piece_count: usize) -> Option<(usize, Position)> {
    match numbers(words(line)) {
        Some(values) => selection(values, piece_count),
        None => None,
    }
}

/// The words held in a list of character vectors.
pub open spec fn word_views(words: Seq<Vec<char>>) -> Seq<Seq<char>> {
    Seq::new(words.len(), |i: int| words[i]@)
}

/// Whether a character is white space.
pub fn is_blank_char(c: char) -> (blank: bool)
    ensures
        blank == is_blank(c),
{
    let code = c as u32;
    (0x09 <= code && code <= 0x0D) || code == 0x20 || code == 0x85 || code == 0xA0 || code
        == 0x1680 || (0x2000 <= code && code <= 0x200A) || code == 0x2028 || code == 0x2029
        || code == 0x202F || code == 0x205F || code == 0x3000
}

/// A word holds at least one character and no white space.
pub proof fn law_words_hold_no_white_space(line: Seq<char>, i: int)
    requires
        0 <= i < words(line).len(),
    ensures
        words(line)[i].len() > 0,
        forall|k: int| 0 <= k < words(line)[i].len() ==> !is_blank(#[trigger] words(line)[i][k]),
    decreases line.len(),
{
    if line.len() > 0 {
        let rest = line.drop_last();
        let before = words(rest);
        lemma_open_word(rest);
        if is_blank(line.last()) {
            law_words_hold_no_white_space(rest, i);
        } else if line.len() >= 2 && !is_blank(line[line.len() - 2]) {
            assert(rest.last() == line[line.len() - 2]);
            if i < before.len() - 1 {
                law_words_hold_no_white_space(rest, i);
            } else {
                law_words_hold_no_white_space(rest, before.len() - 1);
            }
        } else if i < before.len() {
            law_words_hold_no_white_space(rest, i);
        }
    }
}

/// A line that ends in a character other than white space has a last word.
proof fn lemma_open_word(line: Seq<char>)
    ensures
        line.len() > 0 && !is_blank(line.last()) ==> words(line).len() > 0,
    decreases line.len(),
{
    if line.len() > 0 {
        lemma_open_word(line.drop_last());
        if line.len() >= 2 {
            assert(line.drop_last().last() == line[line.len() - 2]);
        }
    }
}

/// Splits a line into its words.
pub fn split_words(line: &str) -> (found: Vec<Vec<char>>)
    ensures
        word_views(found@) == words(line@),
{
    let mut done: Vec<Vec<char>> = Vec::new();
    let mut current: Vec<char> = Vec::new();
    assert(line@.take(0) =~= Seq::<char>::empty());
    assert(word_views(done@) =~= words(line@.take(0)));
    for c in it: line.chars()
        invariant
            it.seq() == line@,
            current@.len() > 0 <==> it.index() > 0 && !is_blank(line@[it.index() - 1]),
            current@.len() == 0 ==> word_views(done@) == words(line@.take(it.index() as int)),
            current@.len() > 0 ==> word_views(done@).push(current@) == words(
                line@.take(it.index() as int),
            ),
    {
        let ghost seen = line@.take(it.index() as int);
        let ghost next = line@.take(it.index() + 1);
        proof {
            assert(next.drop_last() =~= seen);
            assert(next.last() == c);
            if it.index() > 0 {
                assert(next[next.len() - 2] == line@[it.index() - 1]);
            }
        }
        if is_blank_char(c) {
            if current.len() > 0 {
                done.push(current);
                current = Vec::new();
                assert(word_views(done@) =~= words(next));
            }
        } else {
            let ghost before = current@;
            current.push(c);
            proof {
                if before.len() > 0 {
                    let w = words(seen);
                    assert(w == word_views(done@).push(before));
                    assert(w.drop_last() =~= word_views(done@));
                    assert(w.last() == before);
                    assert(word_views(done@).push(current@) =~= words(next));
                } else {
                    assert(current@ =~= seq![c]);
                    assert(word_views(done@).push(current@) =~= words(next));
                }
            }
        }
    }
    assert(line@.take(line@.len() as int) =~= line@);
    if current.len() > 0 {
        done.push(current);
        assert(word_views(done@) =~= words(line@));
    }
    done
}

/// A run of digits writes no smaller a number than any of its beginnings.
proof fn lemma_decimal_grows(digits: Seq<char>, k: int)
    requires
        0 <= k <= digits.len(),
    ensures
        decimal(digits.take(k)) <= decimal(digits),
    decreases digits.len(),
{
    if k == digits.len() {
        assert(digits.take(k) =~= digits);
    } else {
        lemma_decimal_grows(digits.drop_last(), k);
        assert(digits.drop_last().take(k) =~= digits.take(k));
    }
}

/// Reads a word as a number.
pub fn parse_number(word: &Vec<char>) -> (value: Option<usize>)
    ensures
        value == number(word@),
{
    let len = word.len();
    let start: usize = if len > 0 && word[0] == '+' {
        1
    } else {
        0
    };
    let ghost digits = unsigned_part(word@);
    assert(digits =~= word@.skip(start as int));
    if start == len {
        return None;
    }
    let mut value: usize = 0;
    let mut i: usize = start;
    assert(digits.take(0) =~= Seq::<char>::empty());
    while i < len
        invariant
            len == word@.len(),
            start <= i <= len,
            start < len,
            digits == word@.skip(start as int),
            digits == unsigned_part(word@),
            forall|k: int| 0 <= k < i - start ==> is_digit(#[trigger] digits[k]),
            value == decimal(digits.take(i - start)),
        decreases len - i,
    {
        let code = word[i] as u32;
        assert(digits[i - start] == word@[i as int]);
        if code < 0x30 || code > 0x39 {
            assert(!is_digit(digits[i - start]));
            return None;
        }
        let digit = (code - 0x30) as usize;
        proof {
            assert(digits.take(i - start + 1).drop_last() =~= digits.take(i - start));
            assert(digits.take(i - start + 1).last() == digits[i - start]);
            assert(decimal(digits.take(i - start + 1)) == value * 10 + digit);
        }
        if value > (usize::MAX - digit) / 10 {
            proof {
                lemma_decimal_grows(digits, i - start + 1);
            }
            return None;
        }
        value = value * 10 + digit;
        i += 1;
    }
    assert(digits.take(len - start) =~= digits);
    Some(value)
}

/// Reads the numbers a player typed as a move: the number of a piece in
/// their inventory, then the row and the column to anchor it at.
pub fn select_move(values: &Vec<usize>, piece_count: usize) -> (chosen: Option<(usize, Position)>)
    ensures
        chosen == selection(values@, piece_count),
{
    if values.len() == 3 && values[0] < piece_count {
        Some((values[0], (values[1], values[2])))
    } else {
        None
    }
}

/// Reads the line a player typed as a move for an inventory of
/// `piece_count` pieces.
pub fn parse_move(line: &str, piece_count: usize) -> (chosen: Option<(usize, Position)>)
    ensures
        chosen == typed_move(line@, piece_count),
{
    let found = split_words(line);
    let mut values: Vec<usize> = Vec::new();
    let mut i: usize = 0;
    while i < found.len()
        invariant
            word_views(found@) == words(line@),
            i <= found@.len(),
            values@.len() == i,
            forall|k: int|
                0 <= k < i ==> number(#[trigger] words(line@)[k]) == Some(values@[k]),
        decreases found@.len() - i,
    {
        assert(word_views(found@)[i as int] == found@[i as int]@);
        match parse_number(&found[i]) {
            Some(value) => {
                values.push(value);
            },
            None => {
                assert(number(words(line@)[i as int]) is None);
                return None;
            },
        }
        i += 1;
    }
    assert(numbers(words(line@)) is Some);
    assert(values@ =~= numbers(words(line@))->0);
    select_move(&values, piece_count)
}

} // verus!
