//! Text primitives shared by the rest of the library.
//!
//! Strings are modelled by their sequence of characters (`Seq<char>`), byte
//! buffers by `Seq<u8>`. Algorithms work on a `Vec<char>` copy of the text and
//! address it by index, which keeps every step linear and easy to reason about.

use vstd::prelude::*;
use vstd::string::StringSliceAdditionalSpecFns;
use vstd::utf8::encode_utf8_decode_utf8;

verus! {

/// The line feed character as a one-element text.
pub open spec fn newline() -> Seq<char> {
    seq!['\n']
}

/// Whether `hay` holds `needle` as a contiguous run starting at `at`.
pub open spec fn occurs_at(hay: Seq<char>, needle: Seq<char>, at: int) -> bool {
    &&& 0 <= at
    &&& at + needle.len() <= hay.len()
    &&& hay.subrange(at, at + needle.len()) == needle
}

/// Whether `hay` holds `needle` somewhere as a contiguous run.
pub open spec fn contains_text(hay: Seq<char>, needle: Seq<char>) -> bool {
    exists|at: int| occurs_at(hay, needle, at)
}

/// Position of the first `c` in `s`, or `s.len()` when `s` holds none.
pub open spec fn index_of(s: Seq<char>, c: char) -> nat
    decreases s.len(),
{
    if s.len() == 0 {
        0
    } else if s[0] == c {
        0
    } else {
        1 + index_of(s.skip(1), c)
    }
}

/// `index_of` is the least position holding `c`, and it is `s.len()` exactly
/// when `c` does not occur.
pub proof fn lemma_index_of(s: Seq<char>, c: char)
    ensures
        0 <= index_of(s, c) <= s.len(),
        forall|i: int| 0 <= i < index_of(s, c) ==> s[i] != c,
        index_of(s, c) < s.len() ==> s[index_of(s, c) as int] == c,
    decreases s.len(),
{
    if s.len() > 0 && s[0] != c {
        let rest = s.skip(1);
        lemma_index_of(rest, c);
        assert forall|i: int| 0 <= i < index_of(s, c) implies s[i] != c by {
            if i > 0 {
                assert(rest[i - 1] == s[i]);
            }
        }
    }
}

/// A position that holds `c` and has no `c` before it is `index_of`.
pub proof fn lemma_index_of_is(s: Seq<char>, c: char, k: int)
    requires
        0 <= k <= s.len(),
        forall|i: int| 0 <= i < k ==> s[i] != c,
        k < s.len() ==> s[k] == c,
    ensures
        index_of(s, c) == k,
{
    lemma_index_of(s, c);
}

/// Position just after the last `c` in `s`, or 0 when `s` holds none.
pub open spec fn after_last(s: Seq<char>, c: char) -> nat
    decreases s.len(),
{
    if s.len() == 0 {
        0
    } else if s.last() == c {
        s.len()
    } else {
        after_last(s.drop_last(), c)
    }
}

/// `after_last` marks the tail of `s` that is free of `c`.
pub proof fn lemma_after_last(s: Seq<char>, c: char)
    ensures
        0 <= after_last(s, c) <= s.len(),
        forall|i: int| after_last(s, c) <= i < s.len() ==> s[i] != c,
        after_last(s, c) > 0 ==> s[after_last(s, c) - 1] == c,
    decreases s.len(),
{
    if s.len() > 0 && s.last() != c {
        let front = s.drop_last();
        lemma_after_last(front, c);
        assert forall|i: int| after_last(s, c) <= i < s.len() implies s[i] != c by {
            if i < front.len() {
                assert(front[i] == s[i]);
            }
        }
        if after_last(s, c) > 0 {
            assert(front[after_last(s, c) - 1] == s[after_last(s, c) - 1]);
        }
    }
}

/// A position whose predecessor holds `c` and after which no `c` follows is
/// `after_last`.
pub proof fn lemma_after_last_is(s: Seq<char>, c: char, k: int)
    requires
        0 <= k <= s.len(),
        forall|i: int| k <= i < s.len() ==> s[i] != c,
        k > 0 ==> s[k - 1] == c,
    ensures
        after_last(s, c) == k,
{
    lemma_after_last(s, c);
}

/// `s` without the line feeds at its end.
pub open spec fn without_trailing_newlines(s: Seq<char>) -> Seq<char>
    decreases s.len(),
{
    if s.len() > 0 && s.last() == '\n' {
        without_trailing_newlines(s.drop_last())
    } else {
        s
    }
}

/// `s` without the white space at its end.
pub open spec fn without_trailing_whitespace(s: Seq<char>) -> Seq<char>
    decreases s.len(),
{
    if s.len() > 0 && is_whitespace(s.last()) {
        without_trailing_whitespace(s.drop_last())
    } else {
        s
    }
}

/// Whether a text is free of the NUL character.
pub open spec fn nul_free(text: Seq<char>) -> bool {
    forall|i: int| 0 <= i < text.len() ==> text[i] != '\0'
}

/// Whether the byte buffer holds a NUL byte.
pub open spec fn has_nul(bytes: Seq<u8>) -> bool {
    exists|i: int| 0 <= i < bytes.len() && bytes[i] == 0u8
}

/// The lower-case form of a text, as `str::to_lowercase` gives it.
pub uninterp spec fn lowercase(text: Seq<char>) -> Seq<char>;

/// The text that `String::from_utf8_lossy` reads from a byte buffer.
pub uninterp spec fn utf8_lossy(bytes: Seq<u8>) -> Seq<char>;

/// Whether `char::is_whitespace` holds of a character.
pub uninterp spec fn is_whitespace(c: char) -> bool;

/// The lower-case form of `s`.
///
/// Trusted: calls `str::to_lowercase`. Its result depends on the text alone
/// and is named `lowercase`; nothing more is claimed of it.
#[verifier::external_body]
pub(crate) fn to_lowercase(s: &str) -> (lower: String)
    ensures
        lower@ == lowercase(s@),
{
    s.to_lowercase()
}

/// Reads a byte buffer as UTF-8 text, putting the replacement character in
/// place of what is not valid.
///
/// Trusted: calls `String::from_utf8_lossy`. Its result depends on the bytes
/// alone and is named `utf8_lossy`; nothing more is claimed of it.
#[verifier::external_body]
pub(crate) fn decode_utf8_lossy(bytes: &[u8]) -> (text: String)
    ensures
        text@ == utf8_lossy(bytes@),
{
    String::from_utf8_lossy(bytes).into_owned()
}

/// Whether `c` is white space.
///
/// Trusted: calls `char::is_whitespace`. Its result depends on the character
/// alone and is named `is_whitespace`; nothing more is claimed of it.
#[verifier::external_body]
pub(crate) fn char_is_whitespace(c: char) -> (white: bool)
    ensures
        white == is_whitespace(c),
{
    c.is_whitespace()
}

/// Appends one character to a string.
///
/// Trusted: calls `String::push`, which the standard library documents as
/// appending the given character to the end of the string.
#[verifier::external_body]
fn push_char(s: &mut String, c: char)
    ensures
        final(s)@ == old(s)@.push(c),
{
    s.push(c);
}

/// The characters of `s`, in order.
pub fn chars_of(s: &str) -> (chars: Vec<char>)
    ensures
        chars@ == s@,
{
    let mut chars: Vec<char> = Vec::new();
    for c in it: s.chars()
        invariant
            it.seq() == s@,
            chars@ == it.seq().take(it.index() as int),
    {
        chars.push(c);
    }
    chars
}

/// The string made of `chars[from..to]`.
pub fn string_from_chars(chars: &[char], from: usize, to: usize) -> (s: String)
    requires
        from <= to <= chars@.len(),
    ensures
        s@ == chars@.subrange(from as int, to as int),
{
    let mut s = String::new();
    let mut i: usize = from;
    while i < to
        invariant
            from <= i <= to <= chars@.len(),
            s@ == chars@.subrange(from as int, i as int),
        decreases to - i,
    {
        push_char(&mut s, chars[i]);
        i = i + 1;
        assert(chars@.subrange(from as int, i as int) == chars@.subrange(
            from as int,
            i as int - 1,
        ).push(chars@[i as int - 1]));
    }
    s
}

/// Whether two string slices hold the same text.
pub fn str_eq(a: &str, b: &str) -> (same: bool)
    ensures
        same == (a@ == b@),
{
    let x = a.as_bytes();
    let y = b.as_bytes();
    proof {
        encode_utf8_decode_utf8(a@);
        encode_utf8_decode_utf8(b@);
    }
    if x.len() != y.len() {
        return false;
    }
    let mut i: usize = 0;
    while i < x.len()
        invariant
            i <= x@.len(),
            x@.len() == y@.len(),
            x@ == a.spec_bytes(),
            y@ == b.spec_bytes(),
            forall|j: int| 0 <= j < i ==> x@[j] == y@[j],
        decreases x@.len() - i,
    {
        if x[i] != y[i] {
            return false;
        }
        i = i + 1;
    }
    assert(x@ =~= y@);
    true
}

/// Whether `chars[from..to]` spells the text of `word`.
pub fn range_is(chars: &[char], from: usize, to: usize, word: &[char]) -> (same: bool)
    requires
        from <= to <= chars@.len(),
    ensures
        same == (chars@.subrange(from as int, to as int) == word@),
{
    if to - from != word.len() {
        return false;
    }
    let mut i: usize = 0;
    while i < word.len()
        invariant
            from <= to <= chars@.len(),
            i <= word@.len(),
            word@.len() == to - from,
            forall|j: int| 0 <= j < i ==> chars@[from + j] == word@[j],
        decreases word@.len() - i,
    {
        if chars[from + i] != word[i] {
            assert(chars@.subrange(from as int, to as int)[i as int] != word@[i as int]);
            return false;
        }
        i = i + 1;
    }
    assert(chars@.subrange(from as int, to as int) =~= word@);
    true
}

/// Position of the first `c` in `chars[from..]`, or `chars.len()` when there
/// is none.
pub fn find_char(chars: &[char], from: usize, c: char) -> (at: usize)
    requires
        from <= chars@.len(),
    ensures
        at == from + index_of(chars@.skip(from as int), c),
        from <= at <= chars@.len(),
{
    let mut i: usize = from;
    while i < chars.len() && chars[i] != c
        invariant
            from <= i <= chars@.len(),
            forall|j: int| from <= j < i ==> chars@[j] != c,
        decreases chars@.len() - i,
    {
        i = i + 1;
    }
    proof {
        lemma_index_of_is(chars@.skip(from as int), c, i - from);
    }
    i
}

/// Whether the text holds two dots next to each other.
pub fn has_dot_dot(chars: &[char]) -> (found: bool)
    ensures
        found == contains_text(chars@, seq!['.', '.']),
{
    let ghost dots = seq!['.', '.'];
    let mut i: usize = 1;
    while i < chars.len()
        invariant
            1 <= i,
            dots == seq!['.', '.'],
            forall|at: int| 0 <= at < i - 1 ==> !occurs_at(chars@, dots, at),
        decreases chars@.len() - i,
    {
        if chars[i - 1] == '.' && chars[i] == '.' {
            assert(chars@.subrange(i - 1, i + 1) =~= dots);
            assert(occurs_at(chars@, dots, i - 1));
            return true;
        }
        assert(!occurs_at(chars@, dots, i - 1)) by {
            if occurs_at(chars@, dots, i - 1) {
                assert(chars@.subrange(i - 1, i + 1)[0] == '.');
                assert(chars@.subrange(i - 1, i + 1)[1] == '.');
            }
        }
        i = i + 1;
    }
    assert forall|at: int| !occurs_at(chars@, dots, at) by {
        if occurs_at(chars@, dots, at) {
            assert(at + 2 <= chars@.len());
        }
    }
    false
}

/// Whether the buffer holds a NUL byte.
pub fn contains_nul(bytes: &[u8]) -> (found: bool)
    ensures
        found == has_nul(bytes@),
{
    let mut i: usize = 0;
    while i < bytes.len()
        invariant
            i <= bytes@.len(),
            forall|j: int| 0 <= j < i ==> bytes@[j] != 0u8,
        decreases bytes@.len() - i,
    {
        if bytes[i] == 0 {
            return true;
        }
        i = i + 1;
    }
    false
}


/// `line` without the carriage return at its end, if it has one.
pub open spec fn without_carriage_return(line: Seq<char>) -> Seq<char> {
    if line.len() > 0 && line.last() == '\r' {
        line.drop_last()
    } else {
        line
    }
}

/// The lines of a text. A line ends at a line feed, or at a carriage return
/// directly followed by one; the line ending is not part of the line. The
/// last line need not have an ending, and an empty text has no lines.
pub open spec fn lines_of(text: Seq<char>) -> Seq<Seq<char>>
    decreases text.len(),
{
    if text.len() == 0 {
        Seq::empty()
    } else {
        let k = index_of(text, '\n');
        if k < text.len() {
            seq![without_carriage_return(text.take(k as int))] + lines_of(text.skip((k + 1) as int))
        } else {
            seq![text]
        }
    }
}

/// The lines of `text`, in order.
pub fn split_lines(text: &str) -> (lines: Vec<String>)
    ensures
        lines.deep_view() == lines_of(text@),
{
    let chars = chars_of(text);
    let mut lines: Vec<String> = Vec::new();
    let mut start: usize = 0;
    proof {
        assert(chars@.skip(0) =~= chars@);
        assert(lines.deep_view() + lines_of(chars@) =~= lines_of(chars@));
    }
    while start < chars.len()
        invariant
            start <= chars@.len(),
            lines_of(chars@) == lines.deep_view() + lines_of(chars@.skip(start as int)),
        decreases chars@.len() - start,
    {
        let end: usize = find_char(chars.as_slice(), start, '\n');
        let ghost rest = chars@.skip(start as int);
        let ghost before = lines.deep_view();
        proof {
            lemma_index_of(rest, '\n');
            assert(rest.take(end - start) =~= chars@.subrange(start as int, end as int));
        }
        if end < chars.len() {
            let stop: usize = if end > start && chars[end - 1] == '\r' {
                end - 1
            } else {
                end
            };
            let line = string_from_chars(chars.as_slice(), start, stop);
            proof {
                let raw = rest.take(end - start);
                assert(line@ =~= without_carriage_return(raw));
                assert(rest.skip(end - start + 1) =~= chars@.skip(end + 1));
            }
            lines.push(line);
            proof {
                assert(lines.deep_view() =~= before.push(line@));
                assert(before + (seq![line@] + lines_of(chars@.skip(end + 1))) =~= before.push(
                    line@,
                ) + lines_of(chars@.skip(end + 1)));
            }
            start = end + 1;
        } else {
            let line = string_from_chars(chars.as_slice(), start, end);
            proof {
                assert(line@ =~= rest);
            }
            lines.push(line);
            proof {
                assert(lines.deep_view() =~= before.push(line@));
                assert(before + seq![line@] =~= before.push(line@));
                assert(lines_of(chars@.skip(end as int)) =~= Seq::<Seq<char>>::empty());
                assert(before.push(line@) + Seq::<Seq<char>>::empty() =~= before.push(line@));
            }
            start = end;
        }
    }
    proof {
        assert(lines_of(chars@.skip(start as int)) =~= Seq::<Seq<char>>::empty());
        assert(lines.deep_view() + Seq::<Seq<char>>::empty() =~= lines.deep_view());
    }
    lines
}

/// The same strings, borrowed.
pub fn as_str_slices(strings: &Vec<String>) -> (slices: Vec<&str>)
    ensures
        slices.deep_view() == strings.deep_view(),
{
    let mut slices: Vec<&str> = Vec::new();
    let mut i: usize = 0;
    while i < strings.len()
        invariant
            i <= strings@.len(),
            slices@.len() == i,
            forall|j: int| 0 <= j < i ==> slices@[j]@ == strings@[j]@,
        decreases strings@.len() - i,
    {
        slices.push(strings[i].as_str());
        i = i + 1;
    }
    assert(slices.deep_view() =~= strings.deep_view());
    slices
}

/// The character for a decimal digit.
pub open spec fn digit_char(d: nat) -> char {
    if d == 0 {
        '0'
    } else if d == 1 {
        '1'
    } else if d == 2 {
        '2'
    } else if d == 3 {
        '3'
    } else if d == 4 {
        '4'
    } else if d == 5 {
        '5'
    } else if d == 6 {
        '6'
    } else if d == 7 {
        '7'
    } else if d == 8 {
        '8'
    } else {
        '9'
    }
}

/// A number written in decimal digits.
pub open spec fn decimal(n: nat) -> Seq<char>
    decreases n,
{
    if n < 10 {
        seq![digit_char(n)]
    } else {
        decimal(n / 10).push(digit_char(n % 10))
    }
}

/// The digits before the last `written` ones of a number: none where the
/// number has no more.
pub open spec fn leading_digits(m: nat) -> Seq<char> {
    if m == 0 {
        Seq::empty()
    } else {
        decimal(m)
    }
}

/// The character for the decimal digit `d`.
fn digit_of(d: u64) -> (c: char)
    requires
        d < 10,
    ensures
        c == digit_char(d as nat),
{
    if d == 0 {
        '0'
    } else if d == 1 {
        '1'
    } else if d == 2 {
        '2'
    } else if d == 3 {
        '3'
    } else if d == 4 {
        '4'
    } else if d == 5 {
        '5'
    } else if d == 6 {
        '6'
    } else if d == 7 {
        '7'
    } else if d == 8 {
        '8'
    } else {
        '9'
    }
}

/// `n` written in decimal digits.
pub fn decimal_string(n: u64) -> (text: String)
    ensures
        text@ == decimal(n as nat),
{
    let mut digits: Vec<char> = Vec::new();
    digits.push(digit_of(n % 10));
    let mut m: u64 = n / 10;
    proof {
        assert(digits@.reverse() =~= seq![digit_char((n % 10) as nat)]);
        assert(leading_digits(m as nat) + digits@.reverse() =~= decimal(n as nat));
    }
    while m > 0
        invariant
            digits@.len() > 0,
            decimal(n as nat) == leading_digits(m as nat) + digits@.reverse(),
        decreases m,
    {
        let ghost before = digits@;
        let d = digit_of(m % 10);
        digits.push(d);
        proof {
            assert(digits@.reverse() =~= seq![d] + before.reverse());
            assert(leading_digits(m as nat) =~= leading_digits((m / 10) as nat).push(d));
            assert(leading_digits((m / 10) as nat).push(d) + before.reverse() =~= leading_digits(
                (m / 10) as nat,
            ) + (seq![d] + before.reverse()));
        }
        m = m / 10;
    }
    let mut text = String::new();
    let mut i: usize = digits.len();
    while i > 0
        invariant
            i <= digits@.len(),
            text@ == digits@.reverse().take(digits@.len() - i),
        decreases i,
    {
        i = i - 1;
        push_char(&mut text, digits[i]);
        assert(digits@.reverse().take(digits@.len() - i) =~= digits@.reverse().take(
            digits@.len() - i - 1,
        ).push(digits@[i as int]));
    }
    assert(digits@.reverse().take(digits@.len() as int) =~= digits@.reverse());
    assert(leading_digits(0) + digits@.reverse() =~= digits@.reverse());
    text
}

/// Whether the text is free of the NUL character.
pub fn is_nul_free(chars: &[char]) -> (free: bool)
    ensures
        free == nul_free(chars@),
{
    let mut i: usize = 0;
    while i < chars.len()
        invariant
            i <= chars@.len(),
            forall|j: int| 0 <= j < i ==> chars@[j] != '\0',
        decreases chars@.len() - i,
    {
        if chars[i] == '\0' {
            return false;
        }
        i = i + 1;
    }
    true
}

/// `s` without the line feeds at its end.
pub fn trim_trailing_newlines(s: &str) -> (trimmed: String)
    ensures
        trimmed@ == without_trailing_newlines(s@),
{
    let chars = chars_of(s);
    let mut end: usize = chars.len();
    proof {
        assert(chars@.take(end as int) =~= chars@);
    }
    while end > 0 && chars[end - 1] == '\n'
        invariant
            end <= chars@.len(),
            without_trailing_newlines(chars@) == without_trailing_newlines(chars@.take(end as int)),
        decreases end,
    {
        proof {
            assert(chars@.take(end as int).drop_last() =~= chars@.take(end - 1));
        }
        end = end - 1;
    }
    let trimmed = string_from_chars(chars.as_slice(), 0, end);
    proof {
        assert(chars@.subrange(0, end as int) =~= chars@.take(end as int));
    }
    trimmed
}

/// `s` without the white space at its end.
pub fn trim_end(s: &str) -> (trimmed: String)
    ensures
        trimmed@ == without_trailing_whitespace(s@),
{
    let chars = chars_of(s);
    let mut end: usize = chars.len();
    proof {
        assert(chars@.take(end as int) =~= chars@);
    }
    while end > 0
        invariant
            end <= chars@.len(),
            without_trailing_whitespace(chars@) == without_trailing_whitespace(
                chars@.take(end as int),
            ),
        ensures
            end <= chars@.len(),
            without_trailing_whitespace(chars@) == chars@.take(end as int),
        decreases end,
    {
        if !char_is_whitespace(chars[end - 1]) {
            break ;
        }
        proof {
            assert(chars@.take(end as int).drop_last() =~= chars@.take(end - 1));
        }
        end = end - 1;
    }
    let trimmed = string_from_chars(chars.as_slice(), 0, end);
    proof {
        assert(chars@.subrange(0, end as int) =~= chars@.take(end as int));
    }
    trimmed
}

} // verus!
