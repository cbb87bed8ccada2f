//! Text as sequences of characters: searching, splitting, trimming, decimal numerals.

use vstd::prelude::*;

verus! {

/// `String::push`: appends one character.
pub assume_specification[ String::push ](s: &mut String, c: char)
    ensures
        final(s)@ == old(s)@.push(c),
;

/// What `String::from_utf8_lossy` makes of a sequence of bytes.
pub uninterp spec fn lossy_text(bytes: Seq<u8>) -> Seq<char>;

/// `String::from_utf8_lossy`, as an owned string: valid UTF-8 is decoded, and every
/// ill-formed part of any other input is replaced by U+FFFD. Where those replacements
/// fall is left to the name; that valid input is decoded unchanged is stated.
#[verifier::external_body]
pub(crate) fn from_utf8_lossy(bytes: &[u8]) -> (res: String)
    ensures
        res@ == lossy_text(bytes@),
        vstd::utf8::valid_utf8(bytes@) ==> res@ == vstd::utf8::decode_utf8(bytes@),
{
    String::from_utf8_lossy(bytes).into_owned()
}

/// `str::from_utf8`, as an owned string: the text of valid UTF-8, and nothing for any other
/// input.
#[verifier::external_body]
pub(crate) fn from_utf8(bytes: &[u8]) -> (res: Option<String>)
    ensures
        match res {
            Some(s) => vstd::utf8::valid_utf8(bytes@) && s@ == vstd::utf8::decode_utf8(bytes@),
            None => !vstd::utf8::valid_utf8(bytes@),
        },
{
    std::str::from_utf8(bytes).ok().map(|s| s.to_owned())
}

/// The characters of each string of a list.
pub open spec fn texts(list: Seq<String>) -> Seq<Seq<char>> {
    list.map_values(|s: String| s@)
}

/// The characters of each pair of strings of a list.
pub open spec fn text_pairs(list: Seq<(String, String)>) -> Seq<(Seq<char>, Seq<char>)> {
    list.map_values(|p: (String, String)| (p.0@, p.1@))
}

/// The characters of `s`, one by one.
pub fn chars_of(s: &str) -> (res: Vec<char>)
    ensures
        res@ == s@,
{
    let mut res: Vec<char> = Vec::new();
    for c in it: s.chars()
        invariant
            res@ == it.seq().take(it.index() as int),
    {
        res.push(c);
    }
    res
}

/// The string that holds `chars[from..to]`.
pub fn string_of(chars: &Vec<char>, from: usize, to: usize) -> (res: String)
    requires
        from <= to <= chars@.len(),
    ensures
        res@ == chars@.subrange(from as int, to as int),
{
    let mut res = String::new();
    let mut i: usize = from;
    while i < to
        invariant
            from <= i <= to <= chars@.len(),
            res@ == chars@.subrange(from as int, i as int),
        decreases to - i,
    {
        res.push(chars[i]);
        i = i + 1;
    }
    res
}

/// Whether two strings hold the same characters.
pub fn same_text(a: &str, b: &str) -> (res: bool)
    ensures
        res == (a@ == b@),
{
    let x = chars_of(a);
    let y = chars_of(b);
    if x.len() != y.len() {
        return false;
    }
    let mut i: usize = 0;
    while i < x.len()
        invariant
            i <= x@.len(),
            x@.len() == y@.len(),
            x@ == a@,
            y@ == b@,
            forall|j: int| 0 <= j < i ==> x@[j] == y@[j],
        decreases x@.len() - i,
    {
        if x[i] != y[i] {
            return false;
        }
        i = i + 1;
    }
    assert(x@ =~= y@);
    true
}

// ---------------------------------------------------------------------------
// Decimal numerals
// ---------------------------------------------------------------------------

pub open spec fn is_digit(c: char) -> bool {
    '0' <= c <= '9'
}

pub open spec fn digit_value(c: char) -> nat {
    (c as nat - '0' as nat) as nat
}

/// The character of a digit.
pub open spec fn digit_char(d: nat) -> char
    recommends
        d < 10,
{
    (d + '0' as nat) as char
}

/// The decimal numeral of `n`, without leading zeros.
pub open spec fn decimal(n: nat) -> Seq<char>
    decreases n,
{
    if n < 10 {
        seq![digit_char(n)]
    } else {
        decimal(n / 10).push(digit_char(n % 10))
    }
}

/// Whether `s` is a run of one or more decimal digits.
pub open spec fn is_numeral(s: Seq<char>) -> bool {
    s.len() > 0 && forall|i: int| 0 <= i < s.len() ==> is_digit(#[trigger] s[i])
}

/// The number that a run of digits stands for.
pub open spec fn numeral_value(s: Seq<char>) -> nat
    decreases s.len(),
{
    if s.len() == 0 {
        0
    } else {
        10 * numeral_value(s.drop_last()) + digit_value(s.last())
    }
}

/// What parsing `s` as an unsigned integer of at most `max` gives: an optional `+`, then
/// digits and nothing else, standing for a number that fits.
pub open spec fn unsigned_value(s: Seq<char>, max: nat) -> Option<nat> {
    let digits = if s.len() > 0 && s[0] == '+' { s.skip(1) } else { s };
    if is_numeral(digits) && numeral_value(digits) <= max {
        Some(numeral_value(digits))
    } else {
        None
    }
}

/// What parsing `s` as an `i32` gives: an optional sign, then digits and nothing else,
/// standing for a number that fits.
pub open spec fn i32_value(s: Seq<char>) -> Option<int> {
    let digits = if s.len() > 0 && (s[0] == '+' || s[0] == '-') { s.skip(1) } else { s };
    let magnitude = numeral_value(digits) as int;
    let value = if s.len() > 0 && s[0] == '-' { -magnitude } else { magnitude };
    if is_numeral(digits) && i32::MIN <= value <= i32::MAX {
        Some(value)
    } else {
        None
    }
}

/// The decimal numeral of `n`.
pub fn decimal_text(n: u64) -> (res: String)
    ensures
        res@ == decimal(n as nat),
    decreases n,
{
    let mut res = if n < 10 {
        String::new()
    } else {
        decimal_text(n / 10)
    };
    let d: u8 = (n % 10) as u8;
    res.push((d + 48) as char);
    assert(res@ =~= decimal(n as nat));
    res
}

/// The decimal numeral of an integer, with a leading `-` if it is negative.
pub open spec fn signed_decimal(n: int) -> Seq<char> {
    if n < 0 {
        "-"@ + decimal((-n) as nat)
    } else {
        decimal(n as nat)
    }
}

/// The decimal numeral of `n`.
pub fn signed_decimal_text(n: i32) -> (res: String)
    ensures
        res@ == signed_decimal(n as int),
{
    if n < 0 {
        let mut res = "-".to_owned();
        res.append(decimal_text((-(n as i64)) as u64).as_str());
        res
    } else {
        decimal_text(n as u64)
    }
}

/// A longer run of digits never stands for a smaller number.
proof fn lemma_numeral_prefix(s: Seq<char>, i: int)
    requires
        0 <= i <= s.len(),
    ensures
        numeral_value(s.take(i)) <= numeral_value(s),
    decreases s.len() - i,
{
    if i == s.len() {
        assert(s.take(i) =~= s);
    } else {
        lemma_numeral_prefix(s, i + 1);
        assert(s.take(i + 1).drop_last() =~= s.take(i));
    }
}

/// The number that `chars[from..]` stands for, if it is a run of digits for a number of
/// at most `max`.
fn digits_value(chars: &Vec<char>, from: usize, max: u64) -> (res: Option<u64>)
    requires
        from <= chars@.len(),
    ensures
        match res {
            Some(v) => is_numeral(chars@.skip(from as int)) && v == numeral_value(
                chars@.skip(from as int),
            ) && v <= max,
            None => !is_numeral(chars@.skip(from as int)) || numeral_value(
                chars@.skip(from as int),
            ) > max,
        },
{
    let ghost digits = chars@.skip(from as int);
    if from == chars.len() {
        return None;
    }
    let mut value: u64 = 0;
    let mut i: usize = from;
    while i < chars.len()
        invariant
            from <= i <= chars@.len(),
            digits == chars@.skip(from as int),
            forall|j: int| 0 <= j < i - from ==> is_digit(#[trigger] digits[j]),
            value == numeral_value(digits.take(i - from)),
            value <= max,
        decreases chars@.len() - i,
    {
        let c = chars[i];
        assert(digits[i - from] == c);
        if !('0' <= c && c <= '9') {
            return None;
        }
        let d: u64 = c as u64 - '0' as u64;
        assert(digits.take(i - from + 1).drop_last() =~= digits.take(i - from));
        if d > max || value > (max - d) / 10 {
            proof {
                lemma_numeral_prefix(digits, i - from + 1);
            }
            return None;
        }
        value = value * 10 + d;
        i = i + 1;
    }
    assert(digits.take(i - from) =~= digits);
    Some(value)
}

/// Parses an unsigned integer of at most `max`.
pub fn parse_unsigned(s: &str, max: u64) -> (res: Option<u64>)
    ensures
        match res {
            Some(v) => unsigned_value(s@, max as nat) == Some(v as nat),
            None => unsigned_value(s@, max as nat) is None,
        },
{
    let chars = chars_of(s);
    let from: usize = if chars.len() > 0 && chars[0] == '+' { 1 } else { 0 };
    assert(chars@.skip(0) =~= chars@);
    digits_value(&chars, from, max)
}

/// Parses an `i32`.
pub fn parse_i32(s: &str) -> (res: Option<i32>)
    ensures
        match res {
            Some(v) => i32_value(s@) == Some(v as int),
            None => i32_value(s@) is None,
        },
{
    let chars = chars_of(s);
    let negative = chars.len() > 0 && chars[0] == '-';
    let signed = negative || (chars.len() > 0 && chars[0] == '+');
    let from: usize = if signed { 1 } else { 0 };
    assert(chars@.skip(0) =~= chars@);
    if negative {
        match digits_value(&chars, from, 2147483648) {
            Some(v) => Some((-(v as i64)) as i32),
            None => None,
        }
    } else {
        match digits_value(&chars, from, 2147483647) {
            Some(v) => Some(v as i32),
            None => None,
        }
    }
}

/// The numeral of a number is a run of digits that stands for that number.
pub proof fn numeral_of_decimal(n: nat)
    ensures
        is_numeral(decimal(n)),
        numeral_value(decimal(n)) == n,
    decreases n,
{
    if n >= 10 {
        numeral_of_decimal(n / 10);
        let front = decimal(n / 10);
        assert(decimal(n).drop_last() =~= front);
        assert forall|i: int| 0 <= i < decimal(n).len() implies is_digit(
            #[trigger] decimal(n)[i],
        ) by {
            if i < front.len() {
                assert(decimal(n)[i] == front[i]);
            }
        }
    } else {
        assert(decimal(n).drop_last() =~= Seq::<char>::empty());
        assert(numeral_value(Seq::<char>::empty()) == 0);
    }
}

/// A number that was written out in decimal is read back as itself.
pub proof fn decimal_reads_back(n: nat, max: nat)
    requires
        n <= max,
    ensures
        unsigned_value(decimal(n), max) == Some(n),
{
    numeral_of_decimal(n);
    assert(is_digit(decimal(n)[0]));
}

// ---------------------------------------------------------------------------
// Whitespace
// ---------------------------------------------------------------------------

/// The characters with the Unicode property White_Space.
pub open spec fn is_space(c: char) -> bool {
    ||| '\u{9}' <= c <= '\u{d}'
    ||| c == '\u{20}'
    ||| c == '\u{85}'
    ||| c == '\u{a0}'
    ||| c == '\u{1680}'
    ||| '\u{2000}' <= c <= '\u{200a}'
    ||| c == '\u{2028}'
    ||| c == '\u{2029}'
    ||| c == '\u{202f}'
    ||| c == '\u{205f}'
    ||| c == '\u{3000}'
}

/// `s` without its leading whitespace.
pub open spec fn trimmed_start(s: Seq<char>) -> Seq<char>
    decreases s.len(),
{
    if s.len() > 0 && is_space(s[0]) {
        trimmed_start(s.skip(1))
    } else {
        s
    }
}

/// `s` without its trailing whitespace.
pub open spec fn trimmed_end(s: Seq<char>) -> Seq<char>
    decreases s.len(),
{
    if s.len() > 0 && is_space(s.last()) {
        trimmed_end(s.drop_last())
    } else {
        s
    }
}

/// `s` without leading and trailing whitespace.
pub open spec fn trimmed(s: Seq<char>) -> Seq<char> {
    trimmed_end(trimmed_start(s))
}

fn space(c: char) -> (res: bool)
    ensures
        res == is_space(c),
{
    ('\u{9}' <= c && c <= '\u{d}') || c == '\u{20}' || c == '\u{85}' || c == '\u{a0}' || c
        == '\u{1680}' || ('\u{2000}' <= c && c <= '\u{200a}') || c == '\u{2028}' || c == '\u{2029}'
        || c == '\u{202f}' || c == '\u{205f}' || c == '\u{3000}'
}

/// Drops leading and trailing whitespace.
pub fn trim(s: &str) -> (res: String)
    ensures
        res@ == trimmed(s@),
{
    let chars = chars_of(s);
    let mut from: usize = 0;
    assert(chars@.skip(0) =~= chars@);
    while from < chars.len() && space(chars[from])
        invariant
            from <= chars@.len(),
            trimmed_start(chars@.skip(from as int)) == trimmed_start(chars@),
        decreases chars@.len() - from,
    {
        assert(chars@.skip(from as int).skip(1) =~= chars@.skip(from + 1));
        from = from + 1;
    }
    let ghost rest = chars@.skip(from as int);
    assert(trimmed_start(chars@) == rest);
    let mut to: usize = chars.len();
    assert(chars@.subrange(from as int, to as int) =~= rest);
    while from < to && space(chars[to - 1])
        invariant
            from <= to <= chars@.len(),
            trimmed_end(chars@.subrange(from as int, to as int)) == trimmed_end(rest),
        decreases to,
    {
        assert(chars@.subrange(from as int, to as int).drop_last() =~= chars@.subrange(
            from as int,
            to - 1,
        ));
        to = to - 1;
    }
    assert(trimmed_end(rest) == chars@.subrange(from as int, to as int));
    string_of(&chars, from, to)
}

// ---------------------------------------------------------------------------
// Splitting and joining
// ---------------------------------------------------------------------------

/// The parts of `s` between the occurrences of `sep`: one more part than occurrences.
pub open spec fn split_at(s: Seq<char>, sep: char) -> Seq<Seq<char>>
    decreases s.len(),
{
    if s.len() == 0 {
        seq![Seq::<char>::empty()]
    } else {
        let parts = split_at(s.drop_last(), sep);
        if s.last() == sep {
            parts.push(Seq::<char>::empty())
        } else {
            parts.drop_last().push(parts.last().push(s.last()))
        }
    }
}

/// The parts one after another with `sep` between them.
pub open spec fn joined(parts: Seq<Seq<char>>, sep: Seq<char>) -> Seq<char>
    decreases parts.len(),
{
    if parts.len() == 0 {
        Seq::<char>::empty()
    } else if parts.len() == 1 {
        parts[0]
    } else {
        joined(parts.drop_last(), sep) + sep + parts.last()
    }
}

/// Splits `s` at every `sep`.
pub fn split(s: &str, sep: char) -> (res: Vec<String>)
    ensures
        texts(res@) == split_at(s@, sep),
{
    let chars = chars_of(s);
    let mut res: Vec<String> = Vec::new();
    let mut part = String::new();
    let mut i: usize = 0;
    assert(texts(res@).push(part@) =~= split_at(chars@.take(0), sep));
    while i < chars.len()
        invariant
            i <= chars@.len(),
            texts(res@).push(part@) == split_at(chars@.take(i as int), sep),
        decreases chars@.len() - i,
    {
        assert(chars@.take(i + 1).drop_last() =~= chars@.take(i as int));
        let ghost before = texts(res@).push(part@);
        assert(before.drop_last() =~= texts(res@));
        let c = chars[i];
        if c == sep {
            res.push(part);
            assert(texts(res@) =~= before);
            part = String::new();
        } else {
            part.push(c);
        }
        i = i + 1;
    }
    assert(chars@.take(i as int) =~= chars@);
    let ghost before = texts(res@).push(part@);
    res.push(part);
    assert(texts(res@) =~= before);
    res
}

/// The strings one after another with `sep` between them.
pub fn join(parts: &Vec<String>, sep: &str) -> (res: String)
    ensures
        res@ == joined(texts(parts@), sep@),
{
    let mut res = String::new();
    let mut i: usize = 0;
    while i < parts.len()
        invariant
            i <= parts@.len(),
            res@ == joined(texts(parts@).take(i as int), sep@),
        decreases parts@.len() - i,
    {
        assert(texts(parts@).take(i + 1).drop_last() =~= texts(parts@).take(i as int));
        if i > 0 {
            res.append(sep);
        }
        res.append(parts[i].as_str());
        assert(res@ =~= joined(texts(parts@).take(i + 1), sep@));
        i = i + 1;
    }
    assert(texts(parts@).take(i as int) =~= texts(parts@));
    res
}

/// Joining the parts of a string with the separator gives the string back, and no part
/// holds the separator.
pub proof fn split_parts(s: Seq<char>, sep: char)
    ensures
        split_at(s, sep).len() > 0,
        joined(split_at(s, sep), seq![sep]) == s,
        forall|i: int|
            0 <= i < split_at(s, sep).len() ==> !(#[trigger] split_at(s, sep)[i]).contains(sep),
    decreases s.len(),
{
    let parts = split_at(s, sep);
    if s.len() > 0 {
        let front = split_at(s.drop_last(), sep);
        split_parts(s.drop_last(), sep);
        if s.last() == sep {
            assert(parts.drop_last() =~= front);
            assert(joined(parts, seq![sep]) =~= s);
        } else {
            assert(parts.drop_last() =~= front.drop_last());
            assert(parts.last() == front.last().push(s.last()));
            assert(joined(parts, seq![sep]) =~= joined(front, seq![sep]).push(s.last()));
            assert(s =~= s.drop_last().push(s.last()));
            assert forall|i: int| 0 <= i < parts.len() implies !(#[trigger] parts[i]).contains(
                sep,
            ) by {
                if i < front.len() - 1 {
                    assert(parts[i] == front[i]);
                } else {
                    let last = front.last();
                    assert(!front[front.len() - 1].contains(sep));
                    assert(parts[i] == last.push(s.last()));
                    if parts[i].contains(sep) {
                        let k = choose|k: int| 0 <= k < parts[i].len() && parts[i][k] == sep;
                        assert(last[k] == sep);
                    }
                }
            }
        }
    } else {
        assert(joined(parts, seq![sep]) =~= s);
    }
}

// ---------------------------------------------------------------------------
// Searching and replacing
// ---------------------------------------------------------------------------

/// Whether `pattern` stands in `s` at position `i`.
pub open spec fn occurs_at(s: Seq<char>, pattern: Seq<char>, i: int) -> bool {
    0 <= i && i + pattern.len() <= s.len() && s.subrange(i, i + pattern.len()) == pattern
}

/// Whether `pattern` stands anywhere in `s`.
pub open spec fn occurs_in(s: Seq<char>, pattern: Seq<char>) -> bool {
    exists|i: int| occurs_at(s, pattern, i)
}

/// `s` with every occurrence of `pattern`, taken from left to right without overlap,
/// replaced by `with`.
pub open spec fn replaced(s: Seq<char>, pattern: Seq<char>, with: Seq<char>) -> Seq<char>
    decreases s.len(),
{
    if s.len() == 0 || pattern.len() == 0 {
        s
    } else if occurs_at(s, pattern, 0) {
        with + replaced(s.skip(pattern.len() as int), pattern, with)
    } else {
        seq![s[0]] + replaced(s.skip(1), pattern, with)
    }
}

/// The parts of `s` before and after the first occurrence of `pattern`.
pub open spec fn split_once_at(s: Seq<char>, pattern: Seq<char>) -> Option<(Seq<char>, Seq<char>)>
    decreases s.len(),
{
    if occurs_at(s, pattern, 0) {
        Some((Seq::<char>::empty(), s.skip(pattern.len() as int)))
    } else if s.len() == 0 {
        None
    } else {
        match split_once_at(s.skip(1), pattern) {
            Some((before, after)) => Some((seq![s[0]] + before, after)),
            None => None,
        }
    }
}

/// Whether `pattern` stands in `chars` at `i`.
fn matches_at(chars: &Vec<char>, pattern: &Vec<char>, i: usize) -> (res: bool)
    requires
        i <= chars@.len(),
    ensures
        res == occurs_at(chars@, pattern@, i as int),
{
    if chars.len() - i < pattern.len() {
        return false;
    }
    let mut j: usize = 0;
    while j < pattern.len()
        invariant
            j <= pattern@.len(),
            i + pattern@.len() <= chars.len(),
            forall|k: int| 0 <= k < j ==> chars@[i + k] == pattern@[k],
        decreases pattern@.len() - j,
    {
        if chars[i + j] != pattern[j] {
            assert(chars@.subrange(i as int, i + pattern@.len())[j as int] != pattern@[j as int]);
            return false;
        }
        j = j + 1;
    }
    assert(chars@.subrange(i as int, i + pattern@.len()) =~= pattern@);
    true
}

/// Where `pattern` stands in a sequence and in its tail.
proof fn lemma_occurs_skip(s: Seq<char>, pattern: Seq<char>, i: int)
    requires
        0 <= i <= s.len(),
    ensures
        occurs_at(s.skip(i), pattern, 0) == occurs_at(s, pattern, i),
{
    if i + pattern.len() <= s.len() {
        assert(s.skip(i).subrange(0, pattern.len() as int) =~= s.subrange(i, i + pattern.len()));
    }
}

/// Replaces every occurrence of `pattern` in `s` by `with`.
pub fn replace(s: &str, pattern: &str, with: &str) -> (res: String)
    requires
        pattern@.len() > 0,
    ensures
        res@ == replaced(s@, pattern@, with@),
{
    let chars = chars_of(s);
    let wanted = chars_of(pattern);
    let mut res = String::new();
    let mut i: usize = 0;
    assert(chars@.skip(0) =~= chars@);
    assert(res@ + replaced(chars@, wanted@, with@) =~= replaced(chars@, wanted@, with@));
    while i < chars.len()
        invariant
            i <= chars@.len(),
            wanted@.len() > 0,
            res@ + replaced(chars@.skip(i as int), wanted@, with@) == replaced(
                chars@,
                wanted@,
                with@,
            ),
        decreases chars@.len() - i,
    {
        let ghost rest = chars@.skip(i as int);
        proof {
            lemma_occurs_skip(chars@, wanted@, i as int);
        }
        let ghost done = res@;
        if matches_at(&chars, &wanted, i) {
            res.append(with);
            assert(rest.skip(wanted@.len() as int) =~= chars@.skip(i + wanted@.len()));
            assert(done + replaced(rest, wanted@, with@) =~= res@ + replaced(
                chars@.skip(i + wanted@.len()),
                wanted@,
                with@,
            ));
            i = i + wanted.len();
        } else {
            res.push(chars[i]);
            assert(rest.skip(1) =~= chars@.skip(i + 1));
            assert(done + replaced(rest, wanted@, with@) =~= res@ + replaced(
                chars@.skip(i + 1),
                wanted@,
                with@,
            ));
            i = i + 1;
        }
    }
    assert(res@ + replaced(chars@.skip(i as int), wanted@, with@) =~= res@);
    res
}

/// Splits `s` around the first occurrence of `pattern`.
pub fn split_once(s: &str, pattern: &str) -> (res: Option<(String, String)>)
    ensures
        match res {
            Some((before, after)) => split_once_at(s@, pattern@) == Some((before@, after@)),
            None => split_once_at(s@, pattern@) is None,
        },
{
    let chars = chars_of(s);
    let wanted = chars_of(pattern);
    let mut i: usize = 0;
    assert(chars@.skip(0) =~= chars@);
    loop
        invariant
            i <= chars@.len(),
            chars@ == s@,
            wanted@ == pattern@,
            match split_once_at(chars@.skip(i as int), wanted@) {
                Some((before, after)) => split_once_at(chars@, wanted@) == Some(
                    (chars@.take(i as int) + before, after),
                ),
                None => split_once_at(chars@, wanted@) is None,
            },
        decreases chars@.len() - i,
    {
        let ghost rest = chars@.skip(i as int);
        proof {
            lemma_occurs_skip(chars@, wanted@, i as int);
        }
        if matches_at(&chars, &wanted, i) {
            assert(i + wanted@.len() <= chars.len());
            let to: usize = i + wanted.len();
            assert(rest.skip(wanted@.len() as int) =~= chars@.subrange(
                to as int,
                chars@.len() as int,
            ));
            assert(chars@.take(i as int) + Seq::<char>::empty() =~= chars@.subrange(0, i as int));
            return Some((string_of(&chars, 0, i), string_of(&chars, to, chars.len())));
        }
        if i == chars.len() {
            return None;
        }
        proof {
            assert(rest.skip(1) =~= chars@.skip(i + 1));
            if let Some((before, after)) = split_once_at(rest.skip(1), wanted@) {
                assert(chars@.take(i as int) + (seq![rest[0]] + before) =~= chars@.take(i + 1)
                    + before);
            }
        }
        i = i + 1;
    }
}

/// A text in which the pattern does not occur is left as it is.
pub proof fn replaced_without_occurrence(s: Seq<char>, pattern: Seq<char>, with: Seq<char>)
    requires
        !occurs_in(s, pattern),
    ensures
        replaced(s, pattern, with) == s,
    decreases s.len(),
{
    if s.len() > 0 && pattern.len() > 0 {
        assert(!occurs_at(s, pattern, 0));
        assert forall|i: int| !occurs_at(s.skip(1), pattern, i) by {
            if occurs_at(s.skip(1), pattern, i) {
                assert(s.skip(1).subrange(i, i + pattern.len()) =~= s.subrange(
                    i + 1,
                    i + 1 + pattern.len(),
                ));
                assert(occurs_at(s, pattern, i + 1));
            }
        }
        replaced_without_occurrence(s.skip(1), pattern, with);
        assert(seq![s[0]] + s.skip(1) =~= s);
    }
}

/// Where the pattern does occur, the replacement stands in the result.
pub proof fn replaced_holds_replacement(s: Seq<char>, pattern: Seq<char>, with: Seq<char>)
    requires
        pattern.len() > 0,
        occurs_in(s, pattern),
    ensures
        occurs_in(replaced(s, pattern, with), with),
    decreases s.len(),
{
    let res = replaced(s, pattern, with);
    let at = choose|i: int| occurs_at(s, pattern, i);
    if occurs_at(s, pattern, 0) {
        assert(res.subrange(0, with.len() as int) =~= with);
        assert(occurs_at(res, with, 0));
    } else {
        assert(s.skip(1).subrange(at - 1, at - 1 + pattern.len()) =~= s.subrange(
            at,
            at + pattern.len(),
        ));
        assert(occurs_at(s.skip(1), pattern, at - 1));
        replaced_holds_replacement(s.skip(1), pattern, with);
        let tail = replaced(s.skip(1), pattern, with);
        let j = choose|i: int| occurs_at(tail, with, i);
        assert(res.subrange(j + 1, j + 1 + with.len()) =~= tail.subrange(j, j + with.len()));
        assert(occurs_at(res, with, j + 1));
    }
}

/// The texts of a list of strings are those of its strings, one by one.
pub proof fn texts_are_those_of_the_list(list: Seq<String>, i: int)
    requires
        0 <= i < list.len(),
    ensures
        texts(list).len() == list.len(),
        texts(list)[i] == list[i]@,
{
}

/// The texts of a list of pairs are those of its pairs, one by one.
pub proof fn text_pairs_are_those_of_the_list(list: Seq<(String, String)>, i: int)
    requires
        0 <= i < list.len(),
    ensures
        text_pairs(list).len() == list.len(),
        text_pairs(list)[i] == (list[i].0@, list[i].1@),
{
}

/// A run of digits is read from left to right: each digit more multiplies by ten what was
/// read before and adds itself, and nothing above the maximum is read at all.
pub proof fn digits_are_read_in_turn(s: Seq<char>, c: char, max: nat)
    requires
        s.len() > 0,
        forall|i: int| 0 <= i < s.len() ==> '0' <= #[trigger] s[i] <= '9',
        '0' <= c <= '9',
    ensures
        unsigned_value(seq![c], max) == (if c as nat <= 48 + max {
            Some((c as nat - 48) as nat)
        } else {
            None
        }),
        unsigned_value(s.push(c), max) == (match unsigned_value(s, max) {
            Some(v) => if 10 * v + c as nat <= 48 + max {
                Some((10 * v + c as nat - 48) as nat)
            } else {
                None
            },
            None => None,
        }),
{
    let one = seq![c];
    assert(one.drop_last() =~= Seq::<char>::empty());
    assert(numeral_value(Seq::<char>::empty()) == 0);
    assert(one[0] == c);
    assert(is_numeral(one));
    let more = s.push(c);
    assert(more.drop_last() =~= s);
    assert(more[0] == s[0]);
    assert(is_numeral(s));
    assert forall|i: int| 0 <= i < more.len() implies is_digit(#[trigger] more[i]) by {
        if i < s.len() {
            assert(more[i] == s[i]);
        }
    }
}

/// A leading `+` counts for nothing, and neither it alone nor nothing at all is a number.
pub proof fn a_plus_sign_is_skipped(s: Seq<char>, max: nat)
    ensures
        unsigned_value(Seq::empty(), max) is None,
        unsigned_value(seq!['+'], max) is None,
        s.len() > 0 && s[0] != '+' ==> unsigned_value(seq!['+'] + s, max) == unsigned_value(
            s,
            max,
        ),
{
    assert((seq!['+'] + s).skip(1) =~= s);
    assert(seq!['+'].skip(1) =~= Seq::<char>::empty());
}

/// Any character but a digit, other than a leading `+`, makes a text no number.
pub proof fn only_digits_are_numbers(s: Seq<char>, max: nat, i: int)
    requires
        0 <= i < s.len(),
        !('0' <= s[i] <= '9'),
        !(i == 0 && s[i] == '+'),
    ensures
        unsigned_value(s, max) is None,
{
    if s[0] == '+' {
        let digits = s.skip(1);
        assert(digits[i - 1] == s[i]);
        assert(!is_digit(digits[i - 1]));
    } else {
        assert(!is_digit(s[i]));
    }
}

/// A signed number is an unsigned one, with or without a `-` in front, within its range.
pub proof fn signed_numbers_are_signed_unsigned_ones(s: Seq<char>)
    ensures
        i32_value(Seq::empty()) is None,
        s.len() > 0 && s[0] != '-' ==> i32_value(s) == (match unsigned_value(
            s,
            2147483647,
        ) {
            Some(v) => Some(v as int),
            None => None,
        }),
        i32_value(seq!['-'] + s) == (if s.len() > 0 && s[0] == '+' {
            None
        } else {
            match unsigned_value(s, 2147483648) {
                Some(v) => Some(-(v as int)),
                None => None,
            }
        }),
{
    let negative = seq!['-'] + s;
    assert(negative.skip(1) =~= s);
    if s.len() > 0 && s[0] == '+' {
        assert(!is_digit(s[0]));
    }
}

/// A numeral is made of digits, has no leading zero, and is read back as its number.
pub proof fn numerals_are_shortest(n: nat)
    ensures
        decimal(n).len() > 0,
        forall|i: int| 0 <= i < decimal(n).len() ==> '0' <= #[trigger] decimal(n)[i] <= '9',
        decimal(n)[0] == '0' ==> n == 0 && decimal(n).len() == 1,
        unsigned_value(decimal(n), n) == Some(n),
    decreases n,
{
    numeral_of_decimal(n);
    decimal_reads_back(n, n);
    assert forall|i: int| 0 <= i < decimal(n).len() implies '0' <= #[trigger] decimal(n)[i]
        <= '9' by {
        assert(is_digit(decimal(n)[i]));
    }
    if n >= 10 {
        numerals_are_shortest(n / 10);
        assert(decimal(n)[0] == decimal(n / 10)[0]);
    }
}

/// A negative number is written as a `-` and its magnitude, any other as it is.
pub proof fn negative_numerals_have_a_sign(n: int)
    ensures
        n < 0 ==> signed_decimal(n).len() > 0 && signed_decimal(n)[0] == '-'
            && signed_decimal(n).skip(1) == decimal((-n) as nat),
        n >= 0 ==> signed_decimal(n) == decimal(n as nat),
{
    reveal_strlit("-");
    if n < 0 {
        assert(signed_decimal(n).skip(1) =~= decimal((-n) as nat));
    }
}

/// White space is what Unicode says it is.
pub proof fn white_space_is_that_of_unicode(c: char)
    ensures
        is_space(c) <==> {
            let n = c as int;
            ||| 9 <= n <= 13
            ||| n == 32
            ||| n == 133
            ||| n == 160
            ||| n == 5760
            ||| 8192 <= n <= 8202
            ||| n == 8232
            ||| n == 8233
            ||| n == 8239
            ||| n == 8287
            ||| n == 12288
        },
{
}

/// Trimming takes white space off both ends, all of it, and nothing else.
pub proof fn trimming_leaves_the_middle(s: Seq<char>)
    ensures
        exists|i: int, j: int|
            {
                &&& 0 <= i <= j <= s.len()
                &&& trimmed(s) == #[trigger] s.subrange(i, j)
                &&& forall|k: int| 0 <= k < i ==> is_space(#[trigger] s[k])
                &&& forall|k: int| j <= k < s.len() ==> is_space(#[trigger] s[k])
                &&& i < j ==> !is_space(s[i]) && !is_space(s[j - 1])
            },
{
    let i = lemma_trimmed_start(s);
    let rest = s.skip(i);
    let n = lemma_trimmed_end(rest);
    let j = i + n;
    assert(trimmed(s) =~= s.subrange(i, j));
    assert forall|k: int| j <= k < s.len() implies is_space(#[trigger] s[k]) by {
        assert(rest[k - i] == s[k]);
    }
    if i < j {
        assert(rest[0] == s[i]);
        assert(rest[n - 1] == s[j - 1]);
        assert(!is_space(s[i]));
    }
}

proof fn lemma_trimmed_start(s: Seq<char>) -> (i: int)
    ensures
        0 <= i <= s.len(),
        trimmed_start(s) == s.skip(i),
        forall|k: int| 0 <= k < i ==> is_space(#[trigger] s[k]),
        i < s.len() ==> !is_space(s[i]),
    decreases s.len(),
{
    if s.len() > 0 && is_space(s[0]) {
        let tail = s.skip(1);
        let i = lemma_trimmed_start(tail);
        assert(tail.skip(i) =~= s.skip(i + 1));
        assert forall|k: int| 0 <= k < i + 1 implies is_space(#[trigger] s[k]) by {
            if k > 0 {
                assert(tail[k - 1] == s[k]);
            }
        }
        if i < tail.len() {
            assert(tail[i] == s[i + 1]);
        }
        i + 1
    } else {
        assert(s.skip(0) =~= s);
        0
    }
}

proof fn lemma_trimmed_end(s: Seq<char>) -> (n: int)
    ensures
        0 <= n <= s.len(),
        trimmed_end(s) == s.take(n),
        forall|k: int| n <= k < s.len() ==> is_space(#[trigger] s[k]),
        n > 0 ==> !is_space(s[n - 1]),
    decreases s.len(),
{
    if s.len() > 0 && is_space(s.last()) {
        let front = s.drop_last();
        let n = lemma_trimmed_end(front);
        assert(front.take(n) =~= s.take(n));
        assert forall|k: int| n <= k < s.len() implies is_space(#[trigger] s[k]) by {
            if k < front.len() {
                assert(front[k] == s[k]);
            }
        }
        if n > 0 {
            assert(front[n - 1] == s[n - 1]);
        }
        n
    } else {
        assert(s.take(s.len() as int) =~= s);
        s.len() as int
    }
}

/// Joining puts the parts one after another, with the separator between two of them and
/// nowhere else.
pub proof fn joining_adds_parts_in_turn(
    parts: Seq<Seq<char>>,
    part: Seq<char>,
    sep: Seq<char>,
)
    ensures
        joined(Seq::empty(), sep) == Seq::<char>::empty(),
        joined(seq![part], sep) == part,
        parts.len() > 0 ==> joined(parts.push(part), sep) == joined(parts, sep) + sep + part,
{
    assert(parts.push(part).drop_last() =~= parts);
    assert(joined(seq![part], sep) =~= part);
}

/// Replacing goes from left to right: what stands before the first occurrence stays, the
/// replacement takes the occurrence's place, and it goes on behind that.
pub proof fn replacing_takes_the_first_occurrence(
    s: Seq<char>,
    pattern: Seq<char>,
    with: Seq<char>,
    i: int,
)
    requires
        pattern.len() > 0,
        0 <= i,
        i + pattern.len() <= s.len(),
        s.subrange(i, i + pattern.len()) == pattern,
        forall|j: int|
            0 <= j < i && j + pattern.len() <= s.len() ==> #[trigger] s.subrange(
                j,
                j + pattern.len(),
            ) != pattern,
    ensures
        replaced(s, pattern, with) == s.take(i) + with + replaced(
            s.skip(i + pattern.len()),
            pattern,
            with,
        ),
    decreases i,
{
    if i == 0 {
        assert(occurs_at(s, pattern, 0));
        assert(s.take(0) + with =~= with);
    } else {
        let tail = s.skip(1);
        assert(pattern.len() <= s.len() ==> s.subrange(0, 0 + pattern.len() as int) != pattern);
        assert(tail.subrange(i - 1, i - 1 + pattern.len()) =~= s.subrange(
            i,
            i + pattern.len(),
        ));
        assert forall|j: int|
            0 <= j < i - 1 && j + pattern.len() <= tail.len() implies #[trigger] tail.subrange(
            j,
            j + pattern.len(),
        ) != pattern by {
            assert(tail.subrange(j, j + pattern.len()) =~= s.subrange(
                j + 1,
                j + 1 + pattern.len(),
            ));
        }
        replacing_takes_the_first_occurrence(tail, pattern, with, i - 1);
        assert(tail.skip(i - 1 + pattern.len()) =~= s.skip(i + pattern.len()));
        let rest = replaced(s.skip(i + pattern.len()), pattern, with);
        assert(seq![s[0]] + (tail.take(i - 1) + with + rest) =~= s.take(i) + with + rest);
    }
}

/// A text is split once at the first occurrence of the pattern, which belongs to neither
/// side; without an occurrence it is not split.
pub proof fn splitting_once_takes_the_first_occurrence(
    s: Seq<char>,
    pattern: Seq<char>,
    i: int,
)
    requires
        pattern.len() > 0,
        0 <= i <= s.len(),
        forall|j: int|
            0 <= j < i && j + pattern.len() <= s.len() ==> #[trigger] s.subrange(
                j,
                j + pattern.len(),
            ) != pattern,
    ensures
        i + pattern.len() <= s.len() && s.subrange(i, i + pattern.len()) == pattern
            ==> split_once_at(s, pattern) == Some((s.take(i), s.skip(i + pattern.len()))),
        i + pattern.len() > s.len() ==> split_once_at(s, pattern) is None,
    decreases i,
{
    if i > 0 {
        let tail = s.skip(1);
        assert(pattern.len() <= s.len() ==> s.subrange(0, 0 + pattern.len() as int) != pattern);
        assert forall|j: int|
            0 <= j < i - 1 && j + pattern.len() <= tail.len() implies #[trigger] tail.subrange(
            j,
            j + pattern.len(),
        ) != pattern by {
            assert(tail.subrange(j, j + pattern.len()) =~= s.subrange(
                j + 1,
                j + 1 + pattern.len(),
            ));
        }
        splitting_once_takes_the_first_occurrence(tail, pattern, i - 1);
        assert(!occurs_at(s, pattern, 0));
        if i + pattern.len() <= s.len() {
            assert(tail.subrange(i - 1, i - 1 + pattern.len()) =~= s.subrange(
                i,
                i + pattern.len(),
            ));
            assert(seq![s[0]] + tail.take(i - 1) =~= s.take(i));
            assert(tail.skip(i - 1 + pattern.len()) =~= s.skip(i + pattern.len()));
        }
    } else {
        assert(s.take(0) =~= Seq::<char>::empty());
        if pattern.len() > s.len() {
            lemma_short_text_is_not_split(s, pattern);
        }
    }
}

proof fn lemma_short_text_is_not_split(s: Seq<char>, pattern: Seq<char>)
    requires
        pattern.len() > s.len(),
    ensures
        split_once_at(s, pattern) is None,
    decreases s.len(),
{
    if s.len() > 0 {
        lemma_short_text_is_not_split(s.skip(1), pattern);
    }
}

// ---------------------------------------------------------------------------
// Templates
// ---------------------------------------------------------------------------

/// A piece of a template: text, or a slot to be filled.
pub ghost enum Piece {
    Text(Seq<char>),
    Slot(int),
}

/// Whether a text holds no braces.
pub open spec fn is_plain(s: Seq<char>) -> bool {
    forall|i: int| 0 <= i < s.len() ==> (#[trigger] s[i]) != '{' && s[i] != '}'
}

/// How a slot is written in a template: its name in double braces.
pub open spec fn slot_mark(name: Seq<char>) -> Seq<char> {
    seq!['{', '{'] + name + seq!['}', '}']
}

/// The text of a piece: a slot is its value if it has one, else its mark.
pub open spec fn piece_text(
    piece: Piece,
    names: Seq<Seq<char>>,
    values: Seq<Option<Seq<char>>>,
) -> Seq<char> {
    match piece {
        Piece::Text(t) => t,
        Piece::Slot(i) => match values[i] {
            Some(v) => v,
            None => slot_mark(names[i]),
        },
    }
}

/// A template whose slots have these values so far.
pub open spec fn assembled(
    pieces: Seq<Piece>,
    names: Seq<Seq<char>>,
    values: Seq<Option<Seq<char>>>,
) -> Seq<char>
    decreases pieces.len(),
{
    if pieces.len() == 0 {
        Seq::empty()
    } else {
        piece_text(pieces[0], names, values) + assembled(pieces.skip(1), names, values)
    }
}

/// Whether the pieces make a template with these slots: their texts, and the names, which
/// are all different, hold no braces.
pub open spec fn is_template(pieces: Seq<Piece>, names: Seq<Seq<char>>) -> bool {
    &&& forall|i: int|
        0 <= i < pieces.len() ==> (match #[trigger] pieces[i] {
            Piece::Text(t) => is_plain(t),
            Piece::Slot(j) => 0 <= j < names.len(),
        })
    &&& forall|i: int| 0 <= i < names.len() ==> is_plain(#[trigger] names[i])
    &&& forall|i: int, j: int|
        0 <= i < names.len() && 0 <= j < names.len() && i != j ==> (#[trigger] names[i])
            != (#[trigger] names[j])
}

proof fn lemma_no_brace_is_kept(
    a: Seq<char>,
    b: Seq<char>,
    pattern: Seq<char>,
    with: Seq<char>,
)
    requires
        pattern.len() > 0,
        pattern[0] == '{',
        forall|i: int| 0 <= i < a.len() ==> (#[trigger] a[i]) != '{',
    ensures
        replaced(a + b, pattern, with) == a + replaced(b, pattern, with),
    decreases a.len(),
{
    let s = a + b;
    if a.len() == 0 {
        assert(s =~= b);
        assert(a + replaced(b, pattern, with) =~= replaced(b, pattern, with));
    } else {
        let tail = a.skip(1);
        assert(a[0] != '{');
        if occurs_at(s, pattern, 0) {
            assert(s.subrange(0, pattern.len() as int)[0] == s[0]);
        }
        assert forall|i: int| 0 <= i < tail.len() implies (#[trigger] tail[i]) != '{' by {
            assert(tail[i] == a[i + 1]);
        }
        assert(s.skip(1) =~= tail + b);
        lemma_no_brace_is_kept(tail, b, pattern, with);
        assert(seq![s[0]] + (tail + replaced(b, pattern, with)) =~= a + replaced(
            b,
            pattern,
            with,
        ));
    }
}

proof fn lemma_other_mark_is_kept(
    name: Seq<char>,
    b: Seq<char>,
    other: Seq<char>,
    with: Seq<char>,
)
    requires
        is_plain(name),
        is_plain(other),
        name != other,
    ensures
        replaced(slot_mark(name) + b, slot_mark(other), with) == slot_mark(name) + replaced(
            b,
            slot_mark(other),
            with,
        ),
{
    let q = slot_mark(name);
    let p = slot_mark(other);
    let s = q + b;
    if occurs_at(s, p, 0) {
        let found = s.subrange(0, p.len() as int);
        assert(found == p);
        if other.len() < name.len() {
            assert(found[2 + other.len() as int] == name[other.len() as int]);
            assert(p[2 + other.len() as int] == '}');
        } else if other.len() > name.len() {
            assert(found[2 + name.len() as int] == '}');
            assert(p[2 + name.len() as int] == other[name.len() as int]);
        } else {
            assert forall|k: int| 0 <= k < name.len() implies name[k] == other[k] by {
                assert(found[2 + k] == name[k]);
                assert(p[2 + k] == other[k]);
            }
            assert(name =~= other);
        }
        assert(false);
    }
    let t = s.skip(1);
    if occurs_at(t, p, 0) {
        let found = t.subrange(0, p.len() as int);
        assert(found[1] == p[1]);
        assert(p[1] == '{');
        assert(found[1] == t[1]);
        if name.len() > 0 {
            assert(t[1] == name[0]);
        } else {
            assert(t[1] == '}');
        }
        assert(false);
    }
    let u = t.skip(1);
    let a = name + seq!['}', '}'];
    assert(u =~= a + b);
    assert forall|i: int| 0 <= i < a.len() implies (#[trigger] a[i]) != '{' by {
        if i < name.len() {
            assert(a[i] == name[i]);
        }
    }
    lemma_no_brace_is_kept(a, b, p, with);
    let end = replaced(b, p, with);
    assert(replaced(t, p, with) =~= seq!['{'] + (a + end));
    assert(replaced(s, p, with) =~= seq!['{'] + (seq!['{'] + (a + end)));
    assert(seq!['{'] + (seq!['{'] + (a + end)) =~= q + end);
}

/// Filling a slot puts the value wherever the slot is marked, and changes nothing else.
pub proof fn filling_a_slot(
    pieces: Seq<Piece>,
    names: Seq<Seq<char>>,
    values: Seq<Option<Seq<char>>>,
    i: int,
    with: Seq<char>,
)
    requires
        is_template(pieces, names),
        names.len() == values.len(),
        forall|k: int|
            0 <= k < values.len() ==> ((#[trigger] values[k]) matches Some(v) ==> is_plain(v)),
        0 <= i < names.len(),
        values[i] is None,
    ensures
        replaced(assembled(pieces, names, values), slot_mark(names[i]), with) == assembled(
            pieces,
            names,
            values.update(i, Some(with)),
        ),
    decreases pieces.len(),
{
    let p = slot_mark(names[i]);
    let after = values.update(i, Some(with));
    if pieces.len() == 0 {
        assert(replaced(Seq::<char>::empty(), p, with) =~= Seq::<char>::empty());
    } else {
        let tail = pieces.skip(1);
        assert forall|k: int| 0 <= k < tail.len() implies (match #[trigger] tail[k] {
            Piece::Text(t) => is_plain(t),
            Piece::Slot(j) => 0 <= j < names.len(),
        }) by {
            assert(tail[k] == pieces[k + 1]);
        }
        filling_a_slot(tail, names, values, i, with);
        let head = piece_text(pieces[0], names, values);
        let rest = assembled(tail, names, values);
        match pieces[0] {
            Piece::Text(t) => {
                lemma_no_brace_is_kept(t, rest, p, with);
            },
            Piece::Slot(j) => {
                if j == i {
                    assert((p + rest).subrange(0, p.len() as int) =~= p);
                    assert(occurs_at(p + rest, p, 0));
                    assert((p + rest).skip(p.len() as int) =~= rest);
                } else {
                    assert(after[j] == values[j]);
                    match values[j] {
                        Some(v) => {
                            lemma_no_brace_is_kept(v, rest, p, with);
                        },
                        None => {
                            assert(names[j] != names[i]);
                            lemma_other_mark_is_kept(names[j], rest, names[i], with);
                        },
                    }
                }
            },
        }
    }
}

/// The texts of a list, and those of a list of pairs, at all places.
pub(crate) proof fn lemma_texts(list: Seq<String>, pairs: Seq<(String, String)>)
    ensures
        texts(list).len() == list.len(),
        forall|i: int| 0 <= i < list.len() ==> (#[trigger] list[i])@ == texts(list)[i],
        text_pairs(pairs).len() == pairs.len(),
        forall|i: int|
            0 <= i < pairs.len() ==> ((#[trigger] pairs[i]).0@, pairs[i].1@) == text_pairs(
                pairs,
            )[i],
{
}

/// Numerals hold no braces.
pub(crate) proof fn lemma_numerals_are_plain(n: nat)
    ensures
        is_plain(decimal(n)),
{
    numerals_are_shortest(n);
}

} // verus!
