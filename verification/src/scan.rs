//! Searching and cutting text: the first and the last character of a
//! class, white space at the ends, patterns, lines, words and fields.

use crate::text::{
    all_digits, char_is_digit, char_is_space, chars_of, decimal, decimal_value, digit_value,
    is_digit, is_space, lemma_decimal_round_trip,
};
use vstd::prelude::*;
use vstd::string::*;

verus! {

/// `String::push`: the string afterwards is the string before with `c`
/// added at its end.
#[verifier::external_body]
fn push_char(out: &mut String, c: char)
    ensures
        final(out)@ == old(out)@.push(c),
{
    out.push(c)
}

/// The string made of the characters `chars`, in order.
pub fn string_of(chars: &Vec<char>) -> (s: String)
    ensures
        s@ == chars@,
{
    let mut s = String::new();
    let mut i: usize = 0;
    while i < chars.len()
        invariant
            i <= chars.len(),
            s@ == chars@.take(i as int),
        decreases chars.len() - i,
    {
        push_char(&mut s, chars[i]);
        assert(chars@.take(i as int).push(chars@[i as int]) =~= chars@.take(i + 1));
        i += 1;
    }
    assert(chars@.take(chars.len() as int) =~= chars@);
    s
}

/// The characters of `chars` from index `from` up to, not including, `to`.
pub fn slice_of(chars: &Vec<char>, from: usize, to: usize) -> (part: Vec<char>)
    requires
        from <= to <= chars.len(),
    ensures
        part@ == chars@.subrange(from as int, to as int),
{
    let mut part: Vec<char> = Vec::new();
    let mut i: usize = from;
    while i < to
        invariant
            from <= i <= to <= chars.len(),
            part@ == chars@.subrange(from as int, i as int),
        decreases to - i,
    {
        part.push(chars[i]);
        assert(chars@.subrange(from as int, i as int).push(chars@[i as int]) =~= chars@.subrange(
            from as int,
            i + 1,
        ));
        i += 1;
    }
    part
}

/// A set of characters that a search looks for.
#[derive(Debug, Clone, Copy, PartialEq, Eq, Structural)]
pub enum CharClass {
    /// The one character given.
    Is(char),
    /// Unicode white space.
    Space,
    /// Anything but Unicode white space.
    NotSpace,
}

/// Whether `c` belongs to `class`.
pub open spec fn in_class(c: char, class: CharClass) -> bool {
    match class {
        CharClass::Is(wanted) => c == wanted,
        CharClass::Space => is_space(c),
        CharClass::NotSpace => !is_space(c),
    }
}

/// Tells whether `c` belongs to `class`.
pub fn char_in_class(c: char, class: CharClass) -> (b: bool)
    ensures
        b == in_class(c, class),
{
    match class {
        CharClass::Is(wanted) => c == wanted,
        CharClass::Space => char_is_space(c),
        CharClass::NotSpace => !char_is_space(c),
    }
}

/// The least index at or after `from` whose character belongs to `class`,
/// or the length of `s` where there is none.
pub open spec fn first_in(s: Seq<char>, class: CharClass, from: int) -> int
    recommends
        0 <= from,
    decreases s.len() - from,
{
    if from >= s.len() {
        s.len() as int
    } else if in_class(s[from], class) {
        from
    } else {
        first_in(s, class, from + 1)
    }
}

/// One more than the greatest index before `to` whose character belongs to
/// `class`, or 0 where there is none.
pub open spec fn last_end(s: Seq<char>, class: CharClass, to: int) -> int
    recommends
        to <= s.len(),
    decreases to,
{
    if to <= 0 {
        0
    } else if in_class(s[to - 1], class) {
        to
    } else {
        last_end(s, class, to - 1)
    }
}

/// `first_in` finds the first character of the class and nothing before it
/// belongs to the class.
pub proof fn lemma_first_in(s: Seq<char>, class: CharClass, from: int)
    requires
        0 <= from <= s.len(),
    ensures
        from <= first_in(s, class, from) <= s.len(),
        first_in(s, class, from) < s.len() ==> in_class(s[first_in(s, class, from)], class),
        forall|i: int| from <= i < first_in(s, class, from) ==> !in_class(#[trigger] s[i], class),
    decreases s.len() - from,
{
    if from < s.len() && !in_class(s[from], class) {
        lemma_first_in(s, class, from + 1);
    }
}

/// `last_end` ends just after the last character of the class and nothing
/// after it belongs to the class.
pub proof fn lemma_last_end(s: Seq<char>, class: CharClass, to: int)
    requires
        0 <= to <= s.len(),
    ensures
        0 <= last_end(s, class, to) <= to,
        last_end(s, class, to) > 0 ==> in_class(s[last_end(s, class, to) - 1], class),
        forall|i: int| last_end(s, class, to) <= i < to ==> !in_class(#[trigger] s[i], class),
    decreases to,
{
    if to > 0 && !in_class(s[to - 1], class) {
        lemma_last_end(s, class, to - 1);
    }
}

/// Finds the first character of `class` at or after `from`.
pub fn find_first(chars: &Vec<char>, class: CharClass, from: usize) -> (at: usize)
    requires
        from <= chars.len(),
    ensures
        at == first_in(chars@, class, from as int),
        from <= at <= chars.len(),
{
    let mut i: usize = from;
    while i < chars.len()
        invariant
            from <= i <= chars.len(),
            first_in(chars@, class, from as int) == first_in(chars@, class, i as int),
        decreases chars.len() - i,
    {
        if char_in_class(chars[i], class) {
            return i;
        }
        i += 1;
    }
    i
}

/// Finds the end of the last character of `class` before `to`.
pub fn find_last_end(chars: &Vec<char>, class: CharClass, to: usize) -> (end: usize)
    requires
        to <= chars.len(),
    ensures
        end == last_end(chars@, class, to as int),
        end <= to,
{
    let mut i: usize = to;
    while i > 0
        invariant
            i <= to <= chars.len(),
            last_end(chars@, class, to as int) == last_end(chars@, class, i as int),
        decreases i,
    {
        if char_in_class(chars[i - 1], class) {
            return i;
        }
        i -= 1;
    }
    i
}

/// `s` without the white space at its two ends.
pub open spec fn trimmed(s: Seq<char>) -> Seq<char> {
    let start = first_in(s, CharClass::NotSpace, 0);
    if start >= s.len() {
        Seq::<char>::empty()
    } else {
        s.subrange(start, last_end(s, CharClass::NotSpace, s.len() as int))
    }
}

/// Removes the white space at the two ends of `chars`.
pub fn trim(chars: &Vec<char>) -> (rest: Vec<char>)
    ensures
        rest@ == trimmed(chars@),
{
    let start = find_first(chars, CharClass::NotSpace, 0);
    if start >= chars.len() {
        return Vec::new();
    }
    let end = find_last_end(chars, CharClass::NotSpace, chars.len());
    proof {
        lemma_first_in(chars@, CharClass::NotSpace, 0);
        lemma_last_end(chars@, CharClass::NotSpace, chars@.len() as int);
    }
    slice_of(chars, start, end)
}

/// Whether `s` begins with `prefix`.
pub open spec fn has_prefix(s: Seq<char>, prefix: Seq<char>) -> bool {
    prefix.len() <= s.len() && s.subrange(0, prefix.len() as int) == prefix
}

/// Whether `pattern` stands in `s` at index `at`.
pub open spec fn matches_at(s: Seq<char>, pattern: Seq<char>, at: int) -> bool {
    0 <= at && at + pattern.len() <= s.len() && s.subrange(at, at + pattern.len()) == pattern
}

/// The least index at or after `from` at which `pattern` stands in `s`, or
/// the length of `s` where it stands nowhere.
pub open spec fn first_match(s: Seq<char>, pattern: Seq<char>, from: int) -> int
    recommends
        0 <= from,
    decreases s.len() - from,
{
    if from + pattern.len() > s.len() || from >= s.len() {
        s.len() as int
    } else if matches_at(s, pattern, from) {
        from
    } else {
        first_match(s, pattern, from + 1)
    }
}

/// `first_match` finds a place where the pattern stands, and the pattern
/// stands nowhere before it.
pub proof fn lemma_first_match(s: Seq<char>, pattern: Seq<char>, from: int)
    requires
        0 <= from <= s.len(),
    ensures
        from <= first_match(s, pattern, from) <= s.len(),
        first_match(s, pattern, from) < s.len() ==> matches_at(
            s,
            pattern,
            first_match(s, pattern, from),
        ),
        forall|i: int|
            from <= i < first_match(s, pattern, from) ==> !#[trigger] matches_at(s, pattern, i),
    decreases s.len() - from,
{
    if !(from + pattern.len() > s.len() || from >= s.len()) && !matches_at(s, pattern, from) {
        lemma_first_match(s, pattern, from + 1);
    }
}

/// Tells whether `pattern` stands in `chars` at index `at`.
pub fn text_matches_at(chars: &Vec<char>, pattern: &Vec<char>, at: usize) -> (b: bool)
    ensures
        b == matches_at(chars@, pattern@, at as int),
{
    if pattern.len() > chars.len() || at > chars.len() - pattern.len() {
        return false;
    }
    let mut i: usize = 0;
    while i < pattern.len()
        invariant
            i <= pattern.len(),
            at + pattern.len() <= chars.len(),
            forall|j: int| 0 <= j < i ==> chars@[at + j] == pattern@[j],
        decreases pattern.len() - i,
    {
        if chars[at + i] != pattern[i] {
            assert(chars@.subrange(at as int, at + pattern.len())[i as int] != pattern@[i as int]);
            return false;
        }
        i += 1;
    }
    assert(chars@.subrange(at as int, at + pattern.len()) =~= pattern@);
    true
}

/// Tells whether `chars` begins with `prefix`.
pub fn starts_with(chars: &Vec<char>, prefix: &str) -> (b: bool)
    ensures
        b == has_prefix(chars@, prefix@),
{
    let pattern = chars_of(prefix);
    text_matches_at(chars, &pattern, 0)
}

/// Finds the first place at or after `from` where `pattern` stands.
pub fn find_text(chars: &Vec<char>, pattern: &str, from: usize) -> (at: usize)
    requires
        from <= chars.len(),
    ensures
        at == first_match(chars@, pattern@, from as int),
        from <= at <= chars.len(),
        at < chars.len() ==> at + pattern@.len() <= chars.len(),
{
    proof {
        lemma_first_match(chars@, pattern@, from as int);
    }
    let wanted = chars_of(pattern);
    let mut i: usize = from;
    while i < chars.len() && wanted.len() <= chars.len() - i
        invariant
            from <= i <= chars.len(),
            wanted@ == pattern@,
            first_match(chars@, pattern@, from as int) == first_match(chars@, pattern@, i as int),
        decreases chars.len() - i,
    {
        if text_matches_at(chars, &wanted, i) {
            return i;
        }
        i += 1;
    }
    chars.len()
}

/// Where the line that begins at `from` ends, and where the next line
/// begins: a line ends before the next line feed, and before the carriage
/// return that stands just before that line feed; the last line may end with
/// the text.
pub open spec fn line_end(s: Seq<char>, from: int) -> (int, int) {
    let feed = first_in(s, CharClass::Is('\n'), from);
    if feed >= s.len() {
        (s.len() as int, s.len() as int)
    } else if feed > from && s[feed - 1] == '\r' {
        (feed - 1, feed + 1)
    } else {
        (feed, feed + 1)
    }
}

/// The lines of `s` from index `from` on, without their line endings. A
/// line ending at the very end of the text begins no further line.
pub open spec fn lines_from(s: Seq<char>, from: int) -> Seq<Seq<char>>
    recommends
        0 <= from,
    decreases s.len() - from,
{
    if from < 0 || from >= s.len() {
        Seq::<Seq<char>>::empty()
    } else {
        proof {
            lemma_first_in(s, CharClass::Is('\n'), from);
        }
        let (end, next) = line_end(s, from);
        seq![s.subrange(from, end)] + lines_from(s, next)
    }
}

/// The lines of `s`.
pub open spec fn lines_of(s: Seq<char>) -> Seq<Seq<char>> {
    lines_from(s, 0)
}

/// The words of `s` from index `from` on: the longest runs of characters
/// that are not white space.
pub open spec fn words_from(s: Seq<char>, from: int) -> Seq<Seq<char>>
    recommends
        0 <= from,
    decreases s.len() - from,
{
    if from < 0 || first_in(s, CharClass::NotSpace, from) >= s.len() {
        Seq::<Seq<char>>::empty()
    } else {
        proof {
            lemma_first_in(s, CharClass::NotSpace, from);
            lemma_first_in(s, CharClass::Space, first_in(s, CharClass::NotSpace, from));
        }
        let start = first_in(s, CharClass::NotSpace, from);
        let end = first_in(s, CharClass::Space, start);
        seq![s.subrange(start, end)] + words_from(s, end)
    }
}

/// The words of `s`.
pub open spec fn words_of(s: Seq<char>) -> Seq<Seq<char>> {
    words_from(s, 0)
}

/// The fields of `s` from index `from` on, where `separator` stands between
/// two fields: one more field than there are separators, empty ones too.
pub open spec fn fields_from(s: Seq<char>, separator: char, from: int) -> Seq<Seq<char>>
    recommends
        0 <= from <= s.len(),
    decreases s.len() - from,
{
    if from < 0 || from > s.len() {
        Seq::<Seq<char>>::empty()
    } else if first_in(s, CharClass::Is(separator), from) >= s.len() {
        seq![s.subrange(from, s.len() as int)]
    } else {
        proof {
            lemma_first_in(s, CharClass::Is(separator), from);
        }
        let at = first_in(s, CharClass::Is(separator), from);
        seq![s.subrange(from, at)] + fields_from(s, separator, at + 1)
    }
}

/// The fields of `s`.
pub open spec fn fields_of(s: Seq<char>, separator: char) -> Seq<Seq<char>> {
    fields_from(s, separator, 0)
}

/// The part of `s` before its first `stop`, all of `s` where it has none.
pub open spec fn before_first(s: Seq<char>, stop: char) -> Seq<char> {
    s.subrange(0, first_in(s, CharClass::Is(stop), 0))
}

/// The part of `s` after its last `stop`, all of `s` where it has none.
pub open spec fn after_last(s: Seq<char>, stop: char) -> Seq<char> {
    s.subrange(last_end(s, CharClass::Is(stop), s.len() as int), s.len() as int)
}

/// Cuts `chars` into its lines.
pub fn lines(chars: &Vec<char>) -> (all: Vec<Vec<char>>)
    ensures
        all@.len() == lines_of(chars@).len(),
        forall|i: int| 0 <= i < all@.len() ==> (#[trigger] all@[i])@ == lines_of(chars@)[i],
{
    let mut all: Vec<Vec<char>> = Vec::new();
    let mut from: usize = 0;
    let ghost mut done: Seq<Seq<char>> = Seq::empty();
    while from < chars.len()
        invariant
            from <= chars.len(),
            done.len() == all@.len(),
            forall|i: int| 0 <= i < all@.len() ==> (#[trigger] all@[i])@ == done[i],
            lines_of(chars@) == done + lines_from(chars@, from as int),
        decreases chars.len() - from,
    {
        let feed = find_first(chars, CharClass::Is('\n'), from);
        let (end, next) = if feed >= chars.len() {
            (chars.len(), chars.len())
        } else if feed > from && chars[feed - 1] == '\r' {
            (feed - 1, feed + 1)
        } else {
            (feed, feed + 1)
        };
        let line = slice_of(chars, from, end);
        proof {
            assert(done + (seq![line@] + lines_from(chars@, next as int)) =~= done.push(line@)
                + lines_from(chars@, next as int));
            done = done.push(line@);
        }
        all.push(line);
        from = next;
    }
    proof {
        assert(done + lines_from(chars@, from as int) =~= done);
    }
    all
}

/// Cuts `chars` into its words.
pub fn words(chars: &Vec<char>) -> (all: Vec<Vec<char>>)
    ensures
        all@.len() == words_of(chars@).len(),
        forall|i: int| 0 <= i < all@.len() ==> (#[trigger] all@[i])@ == words_of(chars@)[i],
{
    let mut all: Vec<Vec<char>> = Vec::new();
    let mut from: usize = 0;
    let ghost mut done: Seq<Seq<char>> = Seq::empty();
    loop
        invariant
            from <= chars.len(),
            done.len() == all@.len(),
            forall|i: int| 0 <= i < all@.len() ==> (#[trigger] all@[i])@ == done[i],
            words_of(chars@) == done + words_from(chars@, from as int),
        ensures
            done.len() == all@.len(),
            forall|i: int| 0 <= i < all@.len() ==> (#[trigger] all@[i])@ == done[i],
            words_of(chars@) == done,
        decreases chars.len() - from,
    {
        let start = find_first(chars, CharClass::NotSpace, from);
        if start >= chars.len() {
            proof {
                assert(done + words_from(chars@, from as int) =~= done);
            }
            break;
        }
        let end = find_first(chars, CharClass::Space, start);
        proof {
            lemma_first_in(chars@, CharClass::Space, start as int);
        }
        let word = slice_of(chars, start, end);
        proof {
            assert(done + (seq![word@] + words_from(chars@, end as int)) =~= done.push(word@)
                + words_from(chars@, end as int));
            done = done.push(word@);
        }
        all.push(word);
        from = end;
    }
    all
}

/// Cuts `chars` into its fields, with `separator` between two fields.
pub fn fields(chars: &Vec<char>, separator: char) -> (all: Vec<Vec<char>>)
    ensures
        all@.len() == fields_of(chars@, separator).len(),
        forall|i: int|
            0 <= i < all@.len() ==> (#[trigger] all@[i])@ == fields_of(chars@, separator)[i],
{
    let mut all: Vec<Vec<char>> = Vec::new();
    let mut from: usize = 0;
    let ghost mut done: Seq<Seq<char>> = Seq::empty();
    loop
        invariant_except_break
            from <= chars.len(),
            done.len() == all@.len(),
            forall|i: int| 0 <= i < all@.len() ==> (#[trigger] all@[i])@ == done[i],
            fields_of(chars@, separator) == done + fields_from(chars@, separator, from as int),
        ensures
            done.len() == all@.len(),
            forall|i: int| 0 <= i < all@.len() ==> (#[trigger] all@[i])@ == done[i],
            fields_of(chars@, separator) == done,
        decreases chars.len() - from,
    {
        let at = find_first(chars, CharClass::Is(separator), from);
        let field = slice_of(chars, from, at);
        all.push(field);
        if at >= chars.len() {
            proof {
                assert(done + seq![field@] =~= done.push(field@));
                done = done.push(field@);
            }
            break;
        }
        proof {
            assert(done + (seq![field@] + fields_from(chars@, separator, at + 1)) =~= done.push(
                field@,
            ) + fields_from(chars@, separator, at + 1));
            done = done.push(field@);
        }
        from = at + 1;
    }
    all
}

/// The part of `chars` before its first `stop`.
pub fn take_before_first(chars: &Vec<char>, stop: char) -> (part: Vec<char>)
    ensures
        part@ == before_first(chars@, stop),
{
    let at = find_first(chars, CharClass::Is(stop), 0);
    slice_of(chars, 0, at)
}

/// The part of `chars` after its last `stop`.
pub fn take_after_last(chars: &Vec<char>, stop: char) -> (part: Vec<char>)
    ensures
        part@ == after_last(chars@, stop),
{
    let from = find_last_end(chars, CharClass::Is(stop), chars.len());
    slice_of(chars, from, chars.len())
}

/// The number that `s` writes as a `u32`: an optional `+`, then one digit
/// or more, with a value that a `u32` holds. Anything else writes none.
pub open spec fn u32_of(s: Seq<char>) -> Option<u32> {
    let digits = if s.len() > 0 && s[0] == '+' {
        s.subrange(1, s.len() as int)
    } else {
        s
    };
    if digits.len() > 0 && all_digits(digits) && decimal_value(digits) <= u32::MAX {
        Some(decimal_value(digits) as u32)
    } else {
        None
    }
}

/// What is written as a numeral is read back as the same number.
pub proof fn lemma_numeral_reads_back(n: u32)
    ensures
        u32_of(decimal(n as nat)) == Some(n),
{
    lemma_decimal_round_trip(n as nat);
    assert(is_digit(decimal(n as nat)[0]));
}

/// A longer digit string writes no smaller number.
pub proof fn lemma_decimal_value_grows(s: Seq<char>, n: int)
    requires
        0 <= n <= s.len(),
    ensures
        decimal_value(s.take(n)) <= decimal_value(s),
    decreases s.len() - n,
{
    if n < s.len() {
        lemma_decimal_value_grows(s, n + 1);
        assert(s.take(n + 1).drop_last() =~= s.take(n));
    } else {
        assert(s.take(n) =~= s);
    }
}

/// Reads `chars` as a `u32`.
pub fn parse_u32(chars: &Vec<char>) -> (value: Option<u32>)
    ensures
        value == u32_of(chars@),
{
    let start: usize = if chars.len() > 0 && chars[0] == '+' {
        1
    } else {
        0
    };
    if start >= chars.len() {
        return None;
    }
    let ghost digits = chars@.subrange(start as int, chars@.len() as int);
    proof {
        assert(chars@.subrange(0, chars@.len() as int) =~= chars@);
    }
    let mut value: u64 = 0;
    let mut i: usize = start;
    while i < chars.len()
        invariant
            start <= i <= chars.len(),
            start < chars.len(),
            digits == chars@.subrange(start as int, chars@.len() as int),
            digits == if chars@.len() > 0 && chars@[0] == '+' {
                chars@.subrange(1, chars@.len() as int)
            } else {
                chars@
            },
            forall|j: int| 0 <= j < i - start ==> is_digit(#[trigger] digits[j]),
            value == decimal_value(digits.take(i - start)),
            value <= u32::MAX,
        decreases chars.len() - i,
    {
        let c = chars[i];
        if !char_is_digit(c) {
            assert(!is_digit(digits[i - start]));
            return None;
        }
        let digit: u64 = (c as u32 - '0' as u32) as u64;
        proof {
            assert(digits.take(i - start + 1).drop_last() =~= digits.take(i - start));
            assert(digits.take(i - start + 1).last() == c);
            assert(digit == digit_value(c));
        }
        value = value * 10 + digit;
        if value > u32::MAX as u64 {
            proof {
                lemma_decimal_value_grows(digits, i - start + 1);
            }
            return None;
        }
        i += 1;
    }
    proof {
        assert(digits.take(i - start) =~= digits);
    }
    Some(value as u32)
}

} // verus!
