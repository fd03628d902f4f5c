//! Words and numbers in a line of text.
//!
//! A line is split at white space into words. Two kinds of number are
//! recognised in a word: an unsigned decimal integer, whose value is
//! computed, and a decimal fraction with optional exponent, which is only
//! checked for its form and kept as text.

use vstd::prelude::*;

verus! {

/// Whether `c` is white space: one of the characters with Unicode's
/// `White_Space` property.
pub open spec fn is_space(c: char) -> bool {
    let n = c as u32;
    ||| 0x09 <= n <= 0x0d
    ||| n == 0x20
    ||| n == 0x85
    ||| n == 0xa0
    ||| n == 0x1680
    ||| 0x2000 <= n <= 0x200a
    ||| n == 0x2028
    ||| n == 0x2029
    ||| n == 0x202f
    ||| n == 0x205f
    ||| n == 0x3000
}

/// Whether `c` is one of the digits 0 to 9.
pub open spec fn is_digit(c: char) -> bool {
    0x30 <= c as u32 <= 0x39
}

/// The value of a digit.
pub open spec fn digit_value(c: char) -> nat {
    (c as u32 - 0x30) as nat
}

/// Whether `c` is a plus or a minus sign.
pub open spec fn is_sign(c: char) -> bool {
    c == '+' || c == '-'
}

/// Whether `c` is the lower-case letter `letter`, or the upper-case Latin letter for it.
pub open spec fn same_letter(c: char, letter: char) -> bool {
    c == letter || (0x41 <= c as u32 <= 0x5a && c as u32 + 0x20 == letter as u32)
}

/// The first position at or after `from` that holds no white space, or the end.
pub open spec fn word_start(s: Seq<char>, from: int) -> int
    decreases s.len() - from,
{
    if from >= s.len() || !is_space(s[from]) {
        from
    } else {
        word_start(s, from + 1)
    }
}

/// The first position at or after `from` that holds white space, or the end.
pub open spec fn word_end(s: Seq<char>, from: int) -> int
    decreases s.len() - from,
{
    if from >= s.len() || is_space(s[from]) {
        from
    } else {
        word_end(s, from + 1)
    }
}

/// The first position at or after `from` that holds no digit, or the end.
pub open spec fn digits_end(s: Seq<char>, from: int) -> int
    decreases s.len() - from,
{
    if from >= s.len() || !is_digit(s[from]) {
        from
    } else {
        digits_end(s, from + 1)
    }
}

/// The first position at or after `from` that holds `mark`, or the end.
pub open spec fn mark_at(s: Seq<char>, mark: char, from: int) -> int
    decreases s.len() - from,
{
    if from >= s.len() || s[from] == mark {
        from
    } else {
        mark_at(s, mark, from + 1)
    }
}

/// What `word_start` returns lies between `from` and the end.
pub proof fn lemma_word_start_bounds(s: Seq<char>, from: int)
    requires
        0 <= from <= s.len(),
    ensures
        from <= word_start(s, from) <= s.len(),
        word_start(s, from) < s.len() ==> !is_space(s[word_start(s, from)]),
    decreases s.len() - from,
{
    if from < s.len() && is_space(s[from]) {
        lemma_word_start_bounds(s, from + 1);
    }
}

/// What `word_end` returns lies between `from` and the end, and beyond
/// `from` where a word starts there.
pub proof fn lemma_word_end_bounds(s: Seq<char>, from: int)
    requires
        0 <= from <= s.len(),
    ensures
        from <= word_end(s, from) <= s.len(),
        from < s.len() && !is_space(s[from]) ==> from < word_end(s, from),
    decreases s.len() - from,
{
    if from < s.len() && !is_space(s[from]) {
        lemma_word_end_bounds(s, from + 1);
    }
}

/// What `mark_at` returns lies between `from` and the end.
pub proof fn lemma_mark_at_bounds(s: Seq<char>, mark: char, from: int)
    requires
        0 <= from <= s.len(),
    ensures
        from <= mark_at(s, mark, from) <= s.len(),
    decreases s.len() - from,
{
    if from < s.len() && s[from] != mark {
        lemma_mark_at_bounds(s, mark, from + 1);
    }
}

/// The words of `s` from position `from` on: the maximal runs of characters
/// that are not white space, in order.
pub open spec fn words_from(s: Seq<char>, from: int) -> Seq<Seq<char>>
    decreases s.len() - from,
{
    if from < 0 || from >= s.len() {
        Seq::empty()
    } else {
        let start = word_start(s, from);
        let end = word_end(s, start);
        if start >= s.len() {
            Seq::empty()
        } else {
            proof {
                lemma_word_start_bounds(s, from);
                lemma_word_end_bounds(s, start);
            }
            seq![s.subrange(start, end)] + words_from(s, end)
        }
    }
}

/// The words of `s`.
pub open spec fn words_of(s: Seq<char>) -> Seq<Seq<char>> {
    words_from(s, 0)
}

/// Whether every character of `s` is a digit.
pub open spec fn all_digits(s: Seq<char>) -> bool {
    forall|i: int| 0 <= i < s.len() ==> is_digit(#[trigger] s[i])
}

/// The number that a sequence of digits writes in base ten.
pub open spec fn decimal_value(s: Seq<char>) -> nat
    decreases s.len(),
{
    if s.len() == 0 {
        0
    } else {
        10 * decimal_value(s.drop_last()) + digit_value(s.last())
    }
}

/// The number that `s` writes as an unsigned integer: digits, at least one,
/// which a single plus sign may precede. `None` for any other text.
pub open spec fn unsigned_value(s: Seq<char>) -> Option<nat> {
    let digits = if s.len() > 0 && s[0] == '+' {
        s.subrange(1, s.len() as int)
    } else {
        s
    };
    if digits.len() > 0 && all_digits(digits) {
        Some(decimal_value(digits))
    } else {
        None
    }
}

/// The number that `s` writes as an unsigned integer, where it fits a machine word.
pub open spec fn usize_value(s: Seq<char>) -> Option<usize> {
    match unsigned_value(s) {
        Some(v) => if v <= usize::MAX {
            Some(v as usize)
        } else {
            None
        },
        None => None,
    }
}

/// Whether `s` is `word`, letter case aside. `word` is in lower case.
pub open spec fn spells(s: Seq<char>, word: Seq<char>) -> bool {
    s.len() == word.len() && forall|i: int|
        0 <= i < s.len() ==> same_letter(#[trigger] s[i], word[i])
}

/// Whether `s` names infinity or not-a-number.
pub open spec fn is_special_number(s: Seq<char>) -> bool {
    ||| spells(s, seq!['i', 'n', 'f'])
    ||| spells(s, seq!['i', 'n', 'f', 'i', 'n', 'i', 't', 'y'])
    ||| spells(s, seq!['n', 'a', 'n'])
}

/// Whether from `at` on `s` is an exponent, or at its end: the letter e,
/// an optional sign, and digits, at least one, up to the end.
pub open spec fn is_exponent_or_end(s: Seq<char>, at: int) -> bool {
    at == s.len() || ({
        let digits = if at + 1 < s.len() && is_sign(s[at + 1]) {
            at + 2
        } else {
            at + 1
        };
        &&& at < s.len()
        &&& s[at] == 'e' || s[at] == 'E'
        &&& digits < s.len()
        &&& digits_end(s, digits) == s.len()
    })
}

/// Whether from `from` on `s` is an unsigned decimal number: digits with at
/// most one point among them, at least one digit in all, and then an
/// exponent or nothing.
pub open spec fn is_plain_number(s: Seq<char>, from: int) -> bool {
    let whole_end = digits_end(s, from);
    let pointed = whole_end < s.len() && s[whole_end] == '.';
    let fraction_end = if pointed {
        digits_end(s, whole_end + 1)
    } else {
        whole_end
    };
    let digit_count = if pointed {
        fraction_end - from - 1
    } else {
        fraction_end - from
    };
    digit_count > 0 && is_exponent_or_end(s, fraction_end)
}

/// Whether `s` has the form of a decimal number: an optional sign, and then
/// either a name of infinity or not-a-number or a plain number.
pub open spec fn is_number(s: Seq<char>) -> bool {
    let from: int = if s.len() > 0 && is_sign(s[0]) {
        1
    } else {
        0
    };
    is_special_number(s.subrange(from, s.len() as int)) || is_plain_number(s, from)
}

/// Whether `c` is white space.
pub fn is_whitespace(c: char) -> (b: bool)
    ensures
        b == is_space(c),
{
    let n: u32 = c as u32;
    (0x09 <= n && n <= 0x0d) || n == 0x20 || n == 0x85 || n == 0xa0 || n == 0x1680 || (0x2000 <= n
        && n <= 0x200a) || n == 0x2028 || n == 0x2029 || n == 0x202f || n == 0x205f || n == 0x3000
}

/// Whether `c` is a digit.
pub fn is_decimal_digit(c: char) -> (b: bool)
    ensures
        b == is_digit(c),
{
    let n: u32 = c as u32;
    0x30 <= n && n <= 0x39
}

/// The view of each word.
pub open spec fn word_views(words: Seq<Vec<char>>) -> Seq<Seq<char>> {
    Seq::new(words.len(), |i: int| words[i]@)
}

/// Splits a line into its words.
pub fn split_words(line: &Vec<char>) -> (words: Vec<Vec<char>>)
    ensures
        word_views(words@) == words_of(line@),
{
    let ghost s = line@;
    let len = line.len();
    let mut words: Vec<Vec<char>> = Vec::new();
    let mut pos: usize = 0;
    while pos < len
        invariant
            s == line@,
            len == s.len(),
            pos <= len,
            word_views(words@) + words_from(s, pos as int) == words_of(s),
        decreases len - pos,
    {
        let ghost from = pos as int;
        while pos < len && is_whitespace(line[pos])
            invariant
                s == line@,
                len == s.len(),
                from <= pos <= len,
                word_start(s, pos as int) == word_start(s, from),
            decreases len - pos,
        {
            pos = pos + 1;
        }
        let start = pos;
        let mut word: Vec<char> = Vec::new();
        while pos < len && !is_whitespace(line[pos])
            invariant
                s == line@,
                len == s.len(),
                start <= pos <= len,
                word_end(s, pos as int) == word_end(s, start as int),
                word@ == s.subrange(start as int, pos as int),
            decreases len - pos,
        {
            word.push(line[pos]);
            pos = pos + 1;
        }
        if start < len {
            words.push(word);
        }
    }
    words
}

/// A prefix of a sequence of digits writes a number no greater than the whole.
pub proof fn lemma_decimal_prefix(s: Seq<char>, k: int)
    requires
        0 <= k <= s.len(),
    ensures
        decimal_value(s.subrange(0, k)) <= decimal_value(s),
    decreases s.len() - k,
{
    if k < s.len() {
        lemma_decimal_prefix(s, k + 1);
        let longer = s.subrange(0, k + 1);
        assert(longer.drop_last() =~= s.subrange(0, k));
    } else {
        assert(s.subrange(0, k) =~= s);
    }
}

/// The number that the characters of `word` from `from` up to `to` write as
/// an unsigned integer, where they do and it fits a machine word.
pub fn parse_usize(word: &Vec<char>, from: usize, to: usize) -> (value: Option<usize>)
    requires
        from <= to <= word@.len(),
    ensures
        value == usize_value(word@.subrange(from as int, to as int)),
{
    let ghost s = word@.subrange(from as int, to as int);
    let mut pos: usize = from;
    if pos < to && word[pos] == '+' {
        pos = pos + 1;
    }
    let first = pos;
    let ghost digits = word@.subrange(first as int, to as int);
    assert(digits =~= if s.len() > 0 && s[0] == '+' {
        s.subrange(1, s.len() as int)
    } else {
        s
    });
    if first == to {
        return None;
    }
    let mut value: usize = 0;
    while pos < to
        invariant
            first <= pos <= to <= word@.len(),
            from <= to,
            s == word@.subrange(from as int, to as int),
            digits == word@.subrange(first as int, to as int),
            unsigned_value(s) == if all_digits(digits) {
                Some(decimal_value(digits))
            } else {
                None
            },
            all_digits(digits.subrange(0, pos - first)),
            value == decimal_value(digits.subrange(0, pos - first)),
        decreases to - pos,
    {
        let c = word[pos];
        assert(c == digits[pos - first]);
        if !is_decimal_digit(c) {
            return None;
        }
        let d: usize = (c as u32 - 0x30) as usize;
        let ghost longer = digits.subrange(0, pos - first + 1);
        assert(longer.drop_last() =~= digits.subrange(0, pos - first));
        proof {
            lemma_decimal_prefix(digits, pos - first + 1);
        }
        let scaled = match value.checked_mul(10) {
            Some(v) => v,
            None => {
                return None;
            },
        };
        let next = match scaled.checked_add(d) {
            Some(v) => v,
            None => {
                return None;
            },
        };
        value = next;
        pos = pos + 1;
        assert(all_digits(longer)) by {
            assert forall|i: int| 0 <= i < longer.len() implies is_digit(#[trigger] longer[i]) by {
                if i < longer.len() - 1 {
                }
            }
        }
    }
    assert(digits.subrange(0, pos - first) =~= digits);
    Some(value)
}

/// The position at or after `from` where the digits end.
fn scan_digits(word: &Vec<char>, from: usize) -> (end: usize)
    requires
        from <= word@.len(),
    ensures
        end == digits_end(word@, from as int),
        from <= end <= word@.len(),
{
    let mut pos: usize = from;
    while pos < word.len() && is_decimal_digit(word[pos])
        invariant
            from <= pos <= word@.len(),
            digits_end(word@, pos as int) == digits_end(word@, from as int),
        decreases word@.len() - pos,
    {
        pos = pos + 1;
    }
    pos
}

/// Whether `c` is the lower-case letter `letter`, or the upper-case Latin letter for it.
fn is_letter(c: char, letter: char) -> (b: bool)
    ensures
        b == same_letter(c, letter),
{
    let n: u32 = c as u32;
    c == letter || (0x41 <= n && n <= 0x5a && n + 0x20 == letter as u32)
}

/// Whether the characters of `word` from `from` on are `name`, letter case aside.
fn spells_from(word: &Vec<char>, from: usize, name: &Vec<char>) -> (b: bool)
    requires
        from <= word@.len(),
    ensures
        b == spells(word@.subrange(from as int, word@.len() as int), name@),
{
    let ghost s = word@.subrange(from as int, word@.len() as int);
    let len = word.len();
    if len - from != name.len() {
        return false;
    }
    let mut i: usize = 0;
    while i < name.len()
        invariant
            len == word@.len(),
            from <= word@.len(),
            s == word@.subrange(from as int, word@.len() as int),
            s.len() == name@.len(),
            word@.len() - from == name@.len(),
            i <= name@.len(),
            forall|k: int| 0 <= k < i ==> same_letter(#[trigger] s[k], name@[k]),
        decreases name@.len() - i,
    {
        assert(s[i as int] == word@[from + i]);
        if !is_letter(word[from + i], name[i]) {
            return false;
        }
        i = i + 1;
    }
    true
}

/// Whether the characters of `word` from `from` on name infinity or not-a-number.
fn is_special_from(word: &Vec<char>, from: usize) -> (b: bool)
    requires
        from <= word@.len(),
    ensures
        b == is_special_number(word@.subrange(from as int, word@.len() as int)),
{
    let inf: Vec<char> = vec!['i', 'n', 'f'];
    let infinity: Vec<char> = vec!['i', 'n', 'f', 'i', 'n', 'i', 't', 'y'];
    let nan: Vec<char> = vec!['n', 'a', 'n'];
    spells_from(word, from, &inf) || spells_from(word, from, &infinity) || spells_from(
        word,
        from,
        &nan,
    )
}

/// Whether `word` has the form of a decimal number.
pub fn is_number_word(word: &Vec<char>) -> (b: bool)
    ensures
        b == is_number(word@),
{
    let len = word.len();
    let from: usize = if len > 0 && (word[0] == '+' || word[0] == '-') {
        1
    } else {
        0
    };
    if is_special_from(word, from) {
        return true;
    }
    let whole_end = scan_digits(word, from);
    let pointed = whole_end < len && word[whole_end] == '.';
    let fraction_end = if pointed {
        scan_digits(word, whole_end + 1)
    } else {
        whole_end
    };
    let digit_count = if pointed {
        fraction_end - from - 1
    } else {
        fraction_end - from
    };
    if digit_count == 0 {
        return false;
    }
    if fraction_end == len {
        return true;
    }
    if word[fraction_end] != 'e' && word[fraction_end] != 'E' {
        return false;
    }
    let digits: usize = if fraction_end + 1 < len && (word[fraction_end + 1] == '+'
        || word[fraction_end + 1] == '-') {
        fraction_end + 2
    } else {
        fraction_end + 1
    };
    if digits >= len {
        return false;
    }
    scan_digits(word, digits) == len
}

} // verus!
