//! Reading the line typed at the selection prompt.

use crate::display::{choice_message, INVALID_CHOICE, NOT_A_NUMBER};
use crate::error::ChoiceError;
use crate::search::SearchResult;
use crate::text::{decimal, digit_char};
use vstd::prelude::*;

verus! {

/// Line feed and carriage return: the characters that end a typed line.
pub open spec fn is_line_break(c: char) -> bool {
    c == '\n' || c == '\r'
}

/// The line without its line breaks, wherever in the line they stand.
pub open spec fn without_breaks(line: Seq<char>) -> Seq<char> {
    line.filter(|c: char| !is_line_break(c))
}

/// The value of a decimal digit; `None` for every other character.
pub open spec fn digit_of(c: char) -> Option<nat> {
    if c == '0' {
        Some(0)
    } else if c == '1' {
        Some(1)
    } else if c == '2' {
        Some(2)
    } else if c == '3' {
        Some(3)
    } else if c == '4' {
        Some(4)
    } else if c == '5' {
        Some(5)
    } else if c == '6' {
        Some(6)
    } else if c == '7' {
        Some(7)
    } else if c == '8' {
        Some(8)
    } else if c == '9' {
        Some(9)
    } else {
        None
    }
}

/// Every character is a decimal digit.
pub open spec fn is_digits(text: Seq<char>) -> bool {
    forall|i: int| 0 <= i < text.len() ==> digit_of(#[trigger] text[i]) is Some
}

/// The number that a run of decimal digits writes.
pub open spec fn digits_value(text: Seq<char>) -> nat
    decreases text.len(),
{
    if text.len() == 0 {
        0
    } else {
        digits_value(text.drop_last()) * 10 + match digit_of(text.last()) {
            Some(d) => d,
            None => 0,
        }
    }
}

/// The text without one leading plus sign.
pub open spec fn after_sign(text: Seq<char>) -> Seq<char> {
    if text.len() > 0 && text[0] == '+' {
        text.drop_first()
    } else {
        text
    }
}

/// The number that a text writes: an optional plus sign and then one or more
/// decimal digits and nothing else, with a value that fits the machine word.
pub open spec fn number_of(text: Seq<char>) -> Option<nat> {
    let digits = after_sign(text);
    if digits.len() > 0 && is_digits(digits) && digits_value(digits) <= usize::MAX {
        Some(digits_value(digits))
    } else {
        None
    }
}

/// The entry that a typed line selects from a list of `count` entries.
pub open spec fn choice_of(line: Seq<char>, count: nat) -> Result<nat, ChoiceError> {
    match number_of(without_breaks(line)) {
        None => Err(ChoiceError::NotANumber),
        Some(n) => if n < count {
            Ok(n)
        } else {
            Err(ChoiceError::OutOfRange)
        },
    }
}

/// A run of digits is worth at least as much as any of its beginnings.
pub proof fn lemma_value_grows(text: Seq<char>, k: int)
    requires
        0 <= k <= text.len(),
    ensures
        digits_value(text.take(k)) <= digits_value(text),
    decreases text.len() - k,
{
    if k == text.len() {
        assert(text.take(k) =~= text);
    } else {
        lemma_value_grows(text, k + 1);
        assert(text.take(k + 1).drop_last() =~= text.take(k));
    }
}

fn digit_value(c: char) -> (digit: Option<usize>)
    ensures
        match digit {
            Some(d) => digit_of(c) == Some(d as nat),
            None => digit_of(c) is None,
        },
{
    if c == '0' {
        Some(0)
    } else if c == '1' {
        Some(1)
    } else if c == '2' {
        Some(2)
    } else if c == '3' {
        Some(3)
    } else if c == '4' {
        Some(4)
    } else if c == '5' {
        Some(5)
    } else if c == '6' {
        Some(6)
    } else if c == '7' {
        Some(7)
    } else if c == '8' {
        Some(8)
    } else if c == '9' {
        Some(9)
    } else {
        None
    }
}

/// The characters of a line that are no line breaks, in order.
pub fn strip_breaks(line: &str) -> (kept: Vec<char>)
    ensures
        kept@ == without_breaks(line@),
{
    let mut kept: Vec<char> = Vec::new();
    let chars = line.chars();
    proof {
        reveal(Seq::filter);
        assert(line@.take(0) =~= Seq::<char>::empty());
    }
    for c in it: chars
        invariant
            it.seq() == line@,
            kept@ == without_breaks(line@.take(it.index())),
    {
        proof {
            assert(line@.take(it.index() + 1) =~= line@.take(it.index()).push(c));
            line@.take(it.index()).lemma_filter_push(c, |c: char| !is_line_break(c));
        }
        if c != '\n' && c != '\r' {
            kept.push(c);
        }
    }
    assert(line@.take(line@.len() as int) =~= line@);
    kept
}

/// Reads an unsigned decimal number.
pub fn parse_number(text: &Vec<char>) -> (number: Option<usize>)
    ensures
        match number {
            Some(n) => number_of(text@) == Some(n as nat),
            None => number_of(text@) is None,
        },
{
    let start: usize = if text.len() > 0 && text[0] == '+' {
        1
    } else {
        0
    };
    let ghost digits = after_sign(text@);
    assert(digits =~= text@.skip(start as int));
    if start == text.len() {
        return None;
    }
    let mut value: usize = 0;
    let mut i: usize = start;
    assert(digits.take(0) =~= Seq::<char>::empty());
    while i < text.len()
        invariant
            start <= i <= text.len(),
            digits == text@.skip(start as int),
            digits == after_sign(text@),
            is_digits(digits.take(i - start)),
            value == digits_value(digits.take(i - start)),
        decreases text.len() - i,
    {
        let ghost k = i - start;
        assert(digits[k] == text@[i as int]);
        assert(digits.take(k + 1).drop_last() =~= digits.take(k));
        assert(digits.take(k + 1).last() == digits[k]);
        let digit = match digit_value(text[i]) {
            Some(d) => d,
            None => {
                assert(!is_digits(digits)) by {
                    assert(digit_of(digits[k]) is None);
                }
                return None;
            },
        };
        let next = match value.checked_mul(10) {
            Some(tens) => tens.checked_add(digit),
            None => None,
        };
        match next {
            Some(n) => {
                value = n;
            },
            None => {
                proof {
                    assert(digits_value(digits.take(k + 1)) > usize::MAX);
                    lemma_value_grows(digits, k + 1);
                }
                return None;
            },
        }
        i += 1;
    }
    assert(digits.take(i - start) =~= digits);
    Some(value)
}

/// Reads the entry that a typed line selects from a list of `count` entries.
///
/// Line feeds and carriage returns in the line do not count. What is left
/// must be an unsigned decimal number, with or without a plus sign before it,
/// and below `count`.
pub fn parse_choice(line: &str, count: usize) -> (choice: Result<usize, ChoiceError>)
    ensures
        match choice {
            Ok(index) => choice_of(line@, count as nat) == Ok::<nat, ChoiceError>(index as nat),
            Err(e) => choice_of(line@, count as nat) == Err::<nat, ChoiceError>(e),
        },
{
    let text = strip_breaks(line);
    match parse_number(&text) {
        None => Err(ChoiceError::NotANumber),
        Some(n) => if n < count {
            Ok(n)
        } else {
            Err(ChoiceError::OutOfRange)
        },
    }
}

/// The game that a typed line selects from the list of games.
pub fn pick(games: &Vec<SearchResult>, line: &str) -> (choice: Result<SearchResult, ChoiceError>)
    ensures
        match choice {
            Ok(game) => choice_of(line@, games.len() as nat) matches Ok(index) && game@
                == games@[index as int]@,
            Err(e) => choice_of(line@, games.len() as nat) == Err::<nat, ChoiceError>(e),
        },
{
    match parse_choice(line, games.len()) {
        Ok(index) => Ok(games[index].duplicate()),
        Err(e) => Err(e),
    }
}

/// A line without line breaks is kept as it is.
pub proof fn lemma_nothing_to_strip(line: Seq<char>)
    requires
        forall|i: int| 0 <= i < line.len() ==> !is_line_break(#[trigger] line[i]),
    ensures
        without_breaks(line) == line,
    decreases line.len(),
{
    reveal(Seq::filter);
    if line.len() > 0 {
        lemma_nothing_to_strip(line.drop_last());
        assert(line.drop_last().push(line.last()) =~= line);
    }
}

/// Line breaks after a line are stripped with nothing left of them.
pub proof fn lemma_ending_stripped(line: Seq<char>, ending: Seq<char>)
    requires
        forall|i: int| 0 <= i < ending.len() ==> is_line_break(#[trigger] ending[i]),
    ensures
        without_breaks(line + ending) == without_breaks(line),
    decreases ending.len(),
{
    if ending.len() == 0 {
        assert(line + ending =~= line);
    } else {
        lemma_ending_stripped(line, ending.drop_last());
        assert((line + ending.drop_last()).push(ending.last()) =~= line + ending);
        (line + ending.drop_last()).lemma_filter_push(
            ending.last(),
            |c: char| !is_line_break(c),
        );
    }
}

/// What is written for a number reads back as that number: it is a run of
/// digits, without sign or line break, worth the number.
pub proof fn lemma_decimal_reads_back(n: nat)
    ensures
        decimal(n).len() > 0,
        is_digits(decimal(n)),
        digits_value(decimal(n)) == n,
    decreases n,
{
    if n < 10 {
        assert(decimal(n).drop_last() =~= Seq::<char>::empty());
        assert(digits_value(decimal(n).drop_last()) == 0);
        assert(digit_of(decimal(n).last()) == Some(n));
    } else {
        lemma_decimal_reads_back(n / 10);
        let front = decimal(n / 10);
        assert(decimal(n).drop_last() =~= front);
        assert(digit_of(digit_char(n % 10)) == Some(n % 10));
        assert forall|i: int| 0 <= i < decimal(n).len() implies digit_of(
            #[trigger] decimal(n)[i],
        ) is Some by {
            if i < front.len() {
                assert(decimal(n)[i] == front[i]);
            }
        }
    }
}

/// Typing the number of an entry as the list shows it, with or without the
/// line's ending, selects that entry; typing any other number that fits the
/// machine word is out of range.
pub proof fn lemma_typed_number(n: nat, ending: Seq<char>, count: nat)
    requires
        n <= usize::MAX,
        forall|i: int| 0 <= i < ending.len() ==> is_line_break(#[trigger] ending[i]),
    ensures
        choice_of(decimal(n) + ending, count) == if n < count {
            Ok::<nat, ChoiceError>(n)
        } else {
            Err::<nat, ChoiceError>(ChoiceError::OutOfRange)
        },
{
    lemma_decimal_reads_back(n);
    lemma_ending_stripped(decimal(n), ending);
    assert forall|i: int| 0 <= i < decimal(n).len() implies !is_line_break(
        #[trigger] decimal(n)[i],
    ) by {
        assert(digit_of(decimal(n)[i]) is Some);
    }
    lemma_nothing_to_strip(decimal(n));
    assert(digit_of(decimal(n)[0]) is Some);
    assert(after_sign(decimal(n)) == decimal(n));
}

/// In a list of `count` entries, typing `count` itself is refused as an
/// invalid choice.
pub proof fn lemma_length_is_out_of_range(count: nat, ending: Seq<char>)
    requires
        count <= usize::MAX,
        forall|i: int| 0 <= i < ending.len() ==> is_line_break(#[trigger] ending[i]),
    ensures
        choice_of(decimal(count) + ending, count) == Err::<nat, ChoiceError>(
            ChoiceError::OutOfRange,
        ),
        choice_message(ChoiceError::OutOfRange) == INVALID_CHOICE@,
{
    lemma_typed_number(count, ending, count);
}

/// A line with a character that is neither a digit, nor a plus sign, nor a
/// line break is refused as no number, whatever the list holds.
pub proof fn lemma_stray_character(line: Seq<char>, at: int, count: nat)
    requires
        0 <= at < line.len(),
        digit_of(line[at]) is None,
        !is_line_break(line[at]),
        line[at] != '+',
    ensures
        choice_of(line, count) == Err::<nat, ChoiceError>(ChoiceError::NotANumber),
        choice_message(ChoiceError::NotANumber) == NOT_A_NUMBER@,
{
    let text = without_breaks(line);
    line.lemma_filter_contains(|c: char| !is_line_break(c), at);
    let j = choose|j: int| 0 <= j < text.len() && text[j] == line[at];
    let digits = after_sign(text);
    if text[0] == '+' {
        assert(digits[j - 1] == line[at]);
    } else {
        assert(digits[j] == line[at]);
    }
}

/// A line of nothing but line breaks is refused as no number.
pub proof fn lemma_blank_line(ending: Seq<char>, count: nat)
    requires
        forall|i: int| 0 <= i < ending.len() ==> is_line_break(#[trigger] ending[i]),
    ensures
        choice_of(ending, count) == Err::<nat, ChoiceError>(ChoiceError::NotANumber),
{
    reveal(Seq::filter);
    lemma_ending_stripped(Seq::<char>::empty(), ending);
    assert(Seq::<char>::empty() + ending =~= ending);
    assert(without_breaks(Seq::<char>::empty()) =~= Seq::<char>::empty());
}

} // verus!
