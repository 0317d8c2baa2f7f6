//! Text as sequences of characters: conversions between strings and
//! character vectors, and the elementary scanning operations of the parser.
//!
//! Every operation is specified over `Seq<char>`; the executable functions
//! work on character slices so that positions are character positions.

use vstd::prelude::*;
use vstd::string::*;

verus! {

/// Appending one character to a `String` appends it to the string's view.
pub assume_specification[ String::push ](s: &mut String, c: char)
    ensures
        final(s)@ == old(s)@.push(c),
;

/// The characters of a string slice, in order.
pub fn chars_of(s: &str) -> (chars: Vec<char>)
    ensures
        chars@ == s@,
{
    let mut chars: Vec<char> = Vec::new();
    for c in it: s.chars()
        invariant
            chars@ == it.seq().take(it.index()),
            it.seq() == s@,
    {
        chars.push(c);
    }
    chars
}

/// The string made of the given characters, in order.
pub fn string_of(chars: &[char]) -> (s: String)
    ensures
        s@ == chars@,
{
    let mut s = String::new();
    let mut i: usize = 0;
    while i < chars.len()
        invariant
            i <= chars.len(),
            s@ == chars@.take(i as int),
        decreases chars.len() - i,
    {
        s.push(chars[i]);
        i += 1;
    }
    s
}

/// A copy of the characters `from..to` of a slice.
pub fn copy_range(s: &[char], from: usize, to: usize) -> (part: Vec<char>)
    requires
        from <= to <= s@.len(),
    ensures
        part@ == s@.subrange(from as int, to as int),
{
    let mut part: Vec<char> = Vec::new();
    let mut i: usize = from;
    while i < to
        invariant
            from <= i <= to <= s@.len(),
            part@ == s@.subrange(from as int, i as int),
        decreases to - i,
    {
        part.push(s[i]);
        i += 1;
    }
    part
}

/// Whether two character slices hold the same text.
pub fn same_text(a: &[char], b: &[char]) -> (same: bool)
    ensures
        same == (a@ == b@),
{
    if a.len() != b.len() {
        return false;
    }
    let mut i: usize = 0;
    while i < a.len()
        invariant
            i <= a.len(),
            a.len() == b.len(),
            a@.take(i as int) == b@.take(i as int),
        decreases a.len() - i,
    {
        if a[i] != b[i] {
            return false;
        }
        assert(a@.take(i + 1) == a@.take(i as int).push(a@[i as int]));
        assert(b@.take(i + 1) == b@.take(i as int).push(b@[i as int]));
        i += 1;
    }
    assert(a@ == a@.take(a.len() as int));
    assert(b@ == b@.take(b.len() as int));
    true
}

/// `s` begins with `prefix`.
pub open spec fn has_prefix(s: Seq<char>, prefix: Seq<char>) -> bool {
    prefix.len() <= s.len() && s.subrange(0, prefix.len() as int) == prefix
}

/// `needle` occurs in `s` at position `at`.
pub open spec fn occurs_at(s: Seq<char>, needle: Seq<char>, at: int) -> bool {
    0 <= at && at + needle.len() <= s.len() && s.subrange(at, at + needle.len()) == needle
}

/// `needle` occurs somewhere in `s`.
pub open spec fn has_infix(s: Seq<char>, needle: Seq<char>) -> bool {
    exists|at: int| occurs_at(s, needle, at)
}

/// Whether `needle` occurs in `s` at position `at`.
pub fn matches_at(s: &[char], needle: &[char], at: usize) -> (found: bool)
    ensures
        found == occurs_at(s@, needle@, at as int),
{
    if needle.len() > s.len() || at > s.len() - needle.len() {
        return false;
    }
    let mut i: usize = 0;
    while i < needle.len()
        invariant
            i <= needle.len(),
            at + needle.len() <= s.len(),
            s@.subrange(at as int, at + i) == needle@.take(i as int),
        decreases needle.len() - i,
    {
        if s[at + i] != needle[i] {
            assert(s@.subrange(at as int, at + needle.len())[i as int] != needle@[i as int]);
            return false;
        }
        assert(s@.subrange(at as int, at + i + 1) == s@.subrange(at as int, at + i).push(
            s@[at + i],
        ));
        assert(needle@.take(i + 1) == needle@.take(i as int).push(needle@[i as int]));
        i += 1;
    }
    assert(needle@ == needle@.take(needle.len() as int));
    true
}

/// Whether `s` begins with `prefix`.
pub fn starts_with(s: &[char], prefix: &[char]) -> (found: bool)
    ensures
        found == has_prefix(s@, prefix@),
{
    matches_at(s, prefix, 0)
}

/// Whether `needle` occurs somewhere in `s`.
pub fn contains(s: &[char], needle: &[char]) -> (found: bool)
    ensures
        found == has_infix(s@, needle@),
{
    if needle.len() > s.len() {
        return false;
    }
    let last: usize = s.len() - needle.len();
    let mut at: usize = 0;
    while at < last
        invariant
            at <= last,
            last == s.len() - needle.len(),
            forall|k: int| 0 <= k < at ==> !occurs_at(s@, needle@, k),
        decreases last - at,
    {
        if matches_at(s, needle, at) {
            return true;
        }
        at += 1;
    }
    matches_at(s, needle, last)
}


/// The characters that count as white space when a text is trimmed: the
/// code points with the Unicode property `White_Space`.
pub open spec fn is_space(c: char) -> bool {
    ||| '\u{9}' <= c <= '\u{d}'
    ||| c == '\u{20}'
    ||| c == '\u{85}'
    ||| c == '\u{a0}'
    ||| c == '\u{1680}'
    ||| '\u{2000}' <= c <= '\u{200a}'
    ||| c == '\u{2028}'
    ||| c == '\u{2029}'
    ||| c == '\u{202f}'
    ||| c == '\u{205f}'
    ||| c == '\u{3000}'
}

/// Whether a character counts as white space.
pub fn is_whitespace(c: char) -> (space: bool)
    ensures
        space == is_space(c),
{
    ('\u{9}' <= c && c <= '\u{d}') || c == '\u{20}' || c == '\u{85}' || c == '\u{a0}' || c
        == '\u{1680}' || ('\u{2000}' <= c && c <= '\u{200a}') || c == '\u{2028}' || c
        == '\u{2029}' || c == '\u{202f}' || c == '\u{205f}' || c == '\u{3000}'
}

/// `s` without the white space at its start.
pub open spec fn without_leading_space(s: Seq<char>) -> Seq<char>
    decreases s.len(),
{
    if s.len() > 0 && is_space(s[0]) {
        without_leading_space(s.drop_first())
    } else {
        s
    }
}

/// `s` without the white space at its end.
pub open spec fn without_trailing_space(s: Seq<char>) -> Seq<char>
    decreases s.len(),
{
    if s.len() > 0 && is_space(s.last()) {
        without_trailing_space(s.drop_last())
    } else {
        s
    }
}

/// `s` without the white space at either end.
pub open spec fn trimmed(s: Seq<char>) -> Seq<char> {
    without_trailing_space(without_leading_space(s))
}

/// A copy of `s` without the white space at either end.
pub fn trim(s: &[char]) -> (t: Vec<char>)
    ensures
        t@ == trimmed(s@),
{
    let mut from: usize = 0;
    assert(s@.skip(0) == s@);
    while from < s.len() && is_whitespace(s[from])
        invariant
            from <= s.len(),
            without_leading_space(s@) == without_leading_space(s@.skip(from as int)),
        decreases s.len() - from,
    {
        assert(s@.skip(from as int).drop_first() == s@.skip(from + 1));
        from += 1;
    }
    assert(without_leading_space(s@) == s@.skip(from as int));
    assert(s@.skip(from as int) == s@.subrange(from as int, s.len() as int));
    let mut to: usize = s.len();
    while to > from && is_whitespace(s[to - 1])
        invariant
            from <= to <= s.len(),
            trimmed(s@) == without_trailing_space(s@.subrange(from as int, to as int)),
        decreases to,
    {
        assert(s@.subrange(from as int, to as int).drop_last() == s@.subrange(
            from as int,
            to - 1,
        ));
        to -= 1;
    }
    copy_range(s, from, to)
}

/// The texts held by a vector of character vectors.
pub open spec fn texts(v: Seq<Vec<char>>) -> Seq<Seq<char>> {
    Seq::new(v.len(), |i: int| v[i]@)
}

/// The pieces of `s` between occurrences of `sep`. There is always at least
/// one piece; a separator at the start or the end, or two in a row, give an
/// empty piece.
pub open spec fn pieces_of(s: Seq<char>, sep: char) -> Seq<Seq<char>>
    decreases s.len(),
{
    if s.len() == 0 {
        seq![Seq::<char>::empty()]
    } else {
        let before = pieces_of(s.drop_last(), sep);
        if s.last() == sep {
            before.push(Seq::<char>::empty())
        } else {
            before.drop_last().push(before.last().push(s.last()))
        }
    }
}

/// A text always splits into at least one piece.
pub proof fn lemma_pieces_nonempty(s: Seq<char>, sep: char)
    ensures
        pieces_of(s, sep).len() >= 1,
    decreases s.len(),
{
    if s.len() > 0 {
        lemma_pieces_nonempty(s.drop_last(), sep);
    }
}

/// Splits `s` at every occurrence of `sep`.
pub fn split_on(s: &[char], sep: char) -> (pieces: Vec<Vec<char>>)
    ensures
        texts(pieces@) == pieces_of(s@, sep),
        pieces@.len() >= 1,
{
    let mut done: Vec<Vec<char>> = Vec::new();
    let mut current: Vec<char> = Vec::new();
    let mut i: usize = 0;
    while i < s.len()
        invariant
            i <= s.len(),
            texts(done@).push(current@) == pieces_of(s@.take(i as int), sep),
        decreases s.len() - i,
    {
        let c: char = s[i];
        proof {
            assert(s@.take(i + 1).drop_last() == s@.take(i as int));
            lemma_pieces_nonempty(s@.take(i as int), sep);
        }
        let ghost before = texts(done@).push(current@);
        if c == sep {
            done.push(current);
            current = Vec::new();
            assert(texts(done@) == before);
        } else {
            current.push(c);
            assert(texts(done@) == before.drop_last());
        }
        i += 1;
    }
    assert(s@.take(s.len() as int) == s@);
    let ghost before = texts(done@).push(current@);
    done.push(current);
    assert(texts(done@) == before);
    done
}

/// A line without the carriage return that may close it.
pub open spec fn without_cr(line: Seq<char>) -> Seq<char> {
    if line.len() > 0 && line.last() == '\r' {
        line.drop_last()
    } else {
        line
    }
}

/// The lines of a text. A line ends at a line feed, or at a carriage return
/// directly followed by one; neither belongs to the line. What follows the
/// last line feed is a line of its own unless it is empty.
pub open spec fn lines_of(text: Seq<char>) -> Seq<Seq<char>> {
    let raw = pieces_of(text, '\n');
    let ended = Seq::new((raw.len() - 1) as nat, |i: int| without_cr(raw[i]));
    if raw.last().len() == 0 {
        ended
    } else {
        ended.push(raw.last())
    }
}

/// Splits a text into its lines.
pub fn split_lines(text: &[char]) -> (lines: Vec<Vec<char>>)
    ensures
        texts(lines@) == lines_of(text@),
{
    let mut done: Vec<Vec<char>> = Vec::new();
    let mut current: Vec<char> = Vec::new();
    let mut i: usize = 0;
    while i < text.len()
        invariant
            i <= text.len(),
            pieces_of(text@.take(i as int), '\n').len() == done@.len() + 1,
            forall|k: int|
                0 <= k < done@.len() ==> #[trigger] done@[k]@ == without_cr(
                    pieces_of(text@.take(i as int), '\n')[k],
                ),
            current@ == pieces_of(text@.take(i as int), '\n').last(),
        decreases text.len() - i,
    {
        let c: char = text[i];
        proof {
            assert(text@.take(i + 1).drop_last() == text@.take(i as int));
        }
        if c == '\n' {
            let n: usize = current.len();
            if n > 0 && current[n - 1] == '\r' {
                current.pop();
            }
            done.push(current);
            current = Vec::new();
        } else {
            current.push(c);
        }
        i += 1;
    }
    assert(text@.take(text.len() as int) == text@);
    if current.len() > 0 {
        done.push(current);
    }
    assert(texts(done@) == lines_of(text@));
    done
}

/// `s` without every copy of `prefix` at its start.
pub open spec fn without_prefix_runs(s: Seq<char>, prefix: Seq<char>) -> Seq<char>
    decreases s.len(),
{
    if prefix.len() > 0 && has_prefix(s, prefix) {
        without_prefix_runs(s.skip(prefix.len() as int), prefix)
    } else {
        s
    }
}

/// A copy of `s` without every copy of `prefix` at its start.
pub fn strip_prefix_runs(s: &[char], prefix: &[char]) -> (rest: Vec<char>)
    ensures
        rest@ == without_prefix_runs(s@, prefix@),
{
    let mut from: usize = 0;
    assert(s@.skip(0) == s@);
    if prefix.len() > 0 {
        while matches_at(s, prefix, from)
            invariant
                from <= s.len(),
                prefix.len() > 0,
                without_prefix_runs(s@, prefix@) == without_prefix_runs(
                    s@.skip(from as int),
                    prefix@,
                ),
            decreases s.len() - from,
        {
            proof {
                let tail = s@.skip(from as int);
                assert(tail.subrange(0, prefix@.len() as int) == s@.subrange(
                    from as int,
                    from + prefix@.len(),
                ));
                assert(tail.skip(prefix@.len() as int) == s@.skip(from + prefix@.len()));
            }
            from += prefix.len();
        }
        proof {
            let tail = s@.skip(from as int);
            if prefix@.len() <= tail.len() {
                assert(tail.subrange(0, prefix@.len() as int) == s@.subrange(
                    from as int,
                    from + prefix@.len(),
                ));
            }
        }
    }
    assert(s@.skip(from as int) == s@.subrange(from as int, s.len() as int));
    copy_range(s, from, s.len())
}


/// An ASCII decimal digit.
pub open spec fn is_digit(c: char) -> bool {
    '0' <= c <= '9'
}

/// The value of an ASCII decimal digit.
pub open spec fn digit_value(c: char) -> int {
    c as int - '0' as int
}

/// Every character of `s` is an ASCII decimal digit.
pub open spec fn all_digits(s: Seq<char>) -> bool {
    forall|i: int| 0 <= i < s.len() ==> is_digit(#[trigger] s[i])
}

/// The number that a run of decimal digits writes, the most significant
/// digit first.
pub open spec fn decimal_value(digits: Seq<char>) -> int
    decreases digits.len(),
{
    if digits.len() == 0 {
        0
    } else {
        decimal_value(digits.drop_last()) * 10 + digit_value(digits.last())
    }
}

/// The integer that `s` writes in decimal: an optional sign, `+` or `-`,
/// then one digit or more and nothing else. Leading zeros are accepted.
pub open spec fn integer_of(s: Seq<char>) -> Option<int> {
    let signed = s.len() > 0 && (s[0] == '-' || s[0] == '+');
    let digits = if signed {
        s.drop_first()
    } else {
        s
    };
    if digits.len() == 0 || !all_digits(digits) {
        None
    } else if signed && s[0] == '-' {
        Some(-decimal_value(digits))
    } else {
        Some(decimal_value(digits))
    }
}

/// The 32-bit signed integer that `s` writes in decimal, if it writes an
/// integer and that integer fits.
pub open spec fn i32_of(s: Seq<char>) -> Option<i32> {
    match integer_of(s) {
        Some(v) => if i32::MIN <= v <= i32::MAX {
            Some(v as i32)
        } else {
            None
        },
        None => None,
    }
}

/// A run of digits writes a number that is not negative.
pub proof fn lemma_decimal_value_nonnegative(digits: Seq<char>)
    requires
        all_digits(digits),
    ensures
        0 <= decimal_value(digits),
    decreases digits.len(),
{
    if digits.len() > 0 {
        assert(is_digit(digits[digits.len() - 1]));
        assert(forall|i: int|
            0 <= i < digits.drop_last().len() ==> digits.drop_last()[i] == digits[i]);
        lemma_decimal_value_nonnegative(digits.drop_last());
    }
}

/// A run of digits writes at least the number that any shorter run at its
/// start writes.
pub proof fn lemma_decimal_value_grows(digits: Seq<char>, n: int)
    requires
        all_digits(digits),
        0 <= n <= digits.len(),
    ensures
        decimal_value(digits.take(n)) <= decimal_value(digits),
    decreases digits.len(),
{
    if n == digits.len() {
        assert(digits.take(n) == digits);
    } else {
        assert(is_digit(digits[digits.len() - 1]));
        assert(forall|i: int|
            0 <= i < digits.drop_last().len() ==> digits.drop_last()[i] == digits[i]);
        lemma_decimal_value_grows(digits.drop_last(), n);
        lemma_decimal_value_nonnegative(digits.drop_last());
        assert(digits.drop_last().take(n) == digits.take(n));
    }
}

/// One more digit multiplies what a run of digits writes by ten and adds the
/// digit's value.
pub proof fn lemma_decimal_value_step(digits: Seq<char>, n: int)
    requires
        0 <= n < digits.len(),
        all_digits(digits.take(n)),
        is_digit(digits[n]),
    ensures
        all_digits(digits.take(n + 1)),
        decimal_value(digits.take(n + 1)) == decimal_value(digits.take(n)) * 10 + digit_value(
            digits[n],
        ),
{
    let longer = digits.take(n + 1);
    assert(longer.drop_last() == digits.take(n));
    assert(longer.last() == digits[n]);
    assert forall|k: int| 0 <= k < longer.len() implies is_digit(#[trigger] longer[k]) by {
        if k < n {
            assert(longer[k] == digits.take(n)[k]);
        }
    }
}

/// Reads a 32-bit signed integer written in decimal.
pub fn parse_i32(s: &[char]) -> (value: Option<i32>)
    ensures
        value == i32_of(s@),
{
    let n: usize = s.len();
    if n == 0 {
        return None;
    }
    let signed: bool = s[0] == '-' || s[0] == '+';
    let negative: bool = s[0] == '-';
    let start: usize = if signed {
        1
    } else {
        0
    };
    let ghost digits = if signed {
        s@.drop_first()
    } else {
        s@
    };
    assert(digits == s@.skip(start as int));
    if start == n {
        return None;
    }
    let mut total: i64 = 0;
    let mut i: usize = start;
    while i < n
        invariant
            start <= i <= n,
            n == s@.len(),
            n > 0,
            signed == (s@[0] == '-' || s@[0] == '+'),
            digits == if signed {
                s@.drop_first()
            } else {
                s@
            },
            digits == s@.skip(start as int),
            all_digits(digits.take(i - start)),
            total == decimal_value(digits.take(i - start)),
            0 <= total <= 0x8000_0000,
        decreases n - i,
    {
        let c: char = s[i];
        assert(c == digits[i - start]);
        if !('0' <= c && c <= '9') {
            assert(!is_digit(digits[i - start]));
            return None;
        }
        let d: i64 = (c as u32 - '0' as u32) as i64;
        proof {
            lemma_decimal_value_step(digits, i - start);
        }
        let next: i64 = total * 10 + d;
        if next > 0x8000_0000 {
            proof {
                if all_digits(digits) {
                    lemma_decimal_value_grows(digits, i - start + 1);
                }
            }
            return None;
        }
        total = next;
        i += 1;
    }
    assert(digits.take(n - start) == digits);
    if negative {
        Some((-total) as i32)
    } else if total > 0x7fff_ffff {
        None
    } else {
        Some(total as i32)
    }
}


/// The place of `wanted` in a list of texts: the last position that holds it.
pub open spec fn position_of(list: Seq<Seq<char>>, wanted: Seq<char>) -> Option<int>
    decreases list.len(),
{
    if list.len() == 0 {
        None
    } else if list.last() == wanted {
        Some(list.len() - 1)
    } else {
        position_of(list.drop_last(), wanted)
    }
}

/// A position is the last one that holds the text; where there is none, no
/// position holds it.
pub proof fn lemma_position_of(list: Seq<Seq<char>>, wanted: Seq<char>)
    ensures
        match position_of(list, wanted) {
            Some(at) => 0 <= at < list.len() && list[at] == wanted && forall|k: int|
                at < k < list.len() ==> list[k] != wanted,
            None => forall|k: int| 0 <= k < list.len() ==> list[k] != wanted,
        },
    decreases list.len(),
{
    if list.len() > 0 && list.last() != wanted {
        lemma_position_of(list.drop_last(), wanted);
        assert(forall|k: int|
            0 <= k < list.len() - 1 ==> list.drop_last()[k] == #[trigger] list[k]);
    }
}

/// A position in a vector, as a mathematical integer.
pub open spec fn slot(at: Option<usize>) -> Option<int> {
    match at {
        Some(i) => Some(i as int),
        None => None,
    }
}

/// Finds the last position of `list` that holds the text `wanted`.
pub fn find_last(list: &Vec<Vec<char>>, wanted: &[char]) -> (at: Option<usize>)
    ensures
        slot(at) == position_of(texts(list@), wanted@),
        at matches Some(i) ==> i < list@.len(),
{
    let mut i: usize = list.len();
    assert(texts(list@).take(i as int) == texts(list@));
    while i > 0
        invariant
            i <= list.len(),
            position_of(texts(list@), wanted@) == position_of(
                texts(list@).take(i as int),
                wanted@,
            ),
        decreases i,
    {
        assert(texts(list@).take(i as int).drop_last() == texts(list@).take(i - 1));
        if same_text(list[i - 1].as_slice(), wanted) {
            return Some(i - 1);
        }
        i -= 1;
    }
    None
}


/// The ASCII digit that writes a value from 0 to 9.
pub open spec fn digit_char(value: int) -> char {
    if value == 0 {
        '0'
    } else if value == 1 {
        '1'
    } else if value == 2 {
        '2'
    } else if value == 3 {
        '3'
    } else if value == 4 {
        '4'
    } else if value == 5 {
        '5'
    } else if value == 6 {
        '6'
    } else if value == 7 {
        '7'
    } else if value == 8 {
        '8'
    } else {
        '9'
    }
}

/// The decimal digits that write a natural number, without leading zeros.
pub open spec fn decimal_text(number: nat) -> Seq<char>
    decreases number,
{
    if number < 10 {
        seq![digit_char(number as int)]
    } else {
        decimal_text(number / 10).push(digit_char((number % 10) as int))
    }
}

/// The ASCII digit that writes a value from 0 to 9.
fn digit_of(value: usize) -> (digit: char)
    requires
        value < 10,
    ensures
        digit == digit_char(value as int),
{
    if value == 0 {
        '0'
    } else if value == 1 {
        '1'
    } else if value == 2 {
        '2'
    } else if value == 3 {
        '3'
    } else if value == 4 {
        '4'
    } else if value == 5 {
        '5'
    } else if value == 6 {
        '6'
    } else if value == 7 {
        '7'
    } else if value == 8 {
        '8'
    } else {
        '9'
    }
}

/// Writes a number in decimal, without leading zeros.
pub fn decimal_chars(number: usize) -> (digits: Vec<char>)
    ensures
        digits@ == decimal_text(number as nat),
    decreases number,
{
    if number < 10 {
        let mut digits: Vec<char> = Vec::new();
        digits.push(digit_of(number));
        digits
    } else {
        let mut digits = decimal_chars(number / 10);
        digits.push(digit_of(number % 10));
        digits
    }
}

/// The given parts, in order, with `sep` between every two of them.
pub open spec fn joined(parts: Seq<Seq<char>>, sep: Seq<char>) -> Seq<char>
    decreases parts.len(),
{
    if parts.len() == 0 {
        Seq::<char>::empty()
    } else if parts.len() == 1 {
        parts[0]
    } else {
        joined(parts.drop_last(), sep) + sep + parts.last()
    }
}

/// Appends a text to a vector of characters.
pub fn append_chars(target: &mut Vec<char>, part: &[char])
    ensures
        final(target)@ == old(target)@ + part@,
{
    let mut i: usize = 0;
    while i < part.len()
        invariant
            i <= part.len(),
            target@ == old(target)@ + part@.take(i as int),
        decreases part.len() - i,
    {
        target.push(part[i]);
        i += 1;
    }
    assert(part@.take(part.len() as int) == part@);
}

/// Appends the characters of a string slice to a vector of characters.
pub fn append_str(target: &mut Vec<char>, part: &str)
    ensures
        final(target)@ == old(target)@ + part@,
{
    let chars = chars_of(part);
    append_chars(target, chars.as_slice());
}

/// Joins the given parts, with `sep` between every two of them.
pub fn join(parts: &Vec<Vec<char>>, sep: &str) -> (whole: Vec<char>)
    ensures
        whole@ == joined(texts(parts@), sep@),
{
    let mut whole: Vec<char> = Vec::new();
    let mut i: usize = 0;
    while i < parts.len()
        invariant
            i <= parts.len(),
            whole@ == joined(texts(parts@).take(i as int), sep@),
        decreases parts.len() - i,
    {
        proof {
            let next = texts(parts@).take(i + 1);
            assert(next.drop_last() == texts(parts@).take(i as int));
            assert(next.last() == parts@[i as int]@);
            if i == 0 {
                assert(next[0] == parts@[0]@);
            }
        }
        if i > 0 {
            append_str(&mut whole, sep);
        }
        append_chars(&mut whole, parts[i].as_slice());
        i += 1;
    }
    assert(texts(parts@).take(parts.len() as int) == texts(parts@));
    whole
}

} // verus!
