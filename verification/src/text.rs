//! Text as sequences of characters: the small string operations every other
//! module builds on, each tied to a specification over `Seq<char>`.

use vstd::prelude::*;

verus! {

/// `String::push` of the standard library: the character becomes the last one
/// of the string.
pub assume_specification[ String::push ](s: &mut String, c: char)
    ensures
        final(s)@ == old(s)@.push(c),
;

/// The characters with the Unicode `White_Space` property.
pub open spec fn is_white_space(c: char) -> bool {
    ||| '\u{9}' <= c <= '\u{d}'
    ||| c == ' '
    ||| c == '\u{85}'
    ||| c == '\u{a0}'
    ||| c == '\u{1680}'
    ||| '\u{2000}' <= c <= '\u{200a}'
    ||| c == '\u{2028}'
    ||| c == '\u{2029}'
    ||| c == '\u{202f}'
    ||| c == '\u{205f}'
    ||| c == '\u{3000}'
}

/// Whether `c` is Unicode white space.
pub fn white_space(c: char) -> (r: bool)
    ensures
        r == is_white_space(c),
{
    ('\u{9}' <= c && c <= '\u{d}') || c == ' ' || c == '\u{85}' || c == '\u{a0}' || c == '\u{1680}'
        || ('\u{2000}' <= c && c <= '\u{200a}') || c == '\u{2028}' || c == '\u{2029}' || c
        == '\u{202f}' || c == '\u{205f}' || c == '\u{3000}'
}

/// ASCII digits.
pub open spec fn is_digit(c: char) -> bool {
    '0' <= c <= '9'
}

/// ASCII letters and digits.
pub open spec fn is_alphanumeric(c: char) -> bool {
    is_digit(c) || 'a' <= c <= 'z' || 'A' <= c <= 'Z'
}

/// ASCII hexadecimal digits of either case.
pub open spec fn is_hex_digit(c: char) -> bool {
    is_digit(c) || 'a' <= c <= 'f' || 'A' <= c <= 'F'
}

/// Whether `c` is an ASCII letter or digit.
pub fn alphanumeric(c: char) -> (r: bool)
    ensures
        r == is_alphanumeric(c),
{
    ('0' <= c && c <= '9') || ('a' <= c && c <= 'z') || ('A' <= c && c <= 'Z')
}

/// Whether `c` is an ASCII hexadecimal digit.
pub fn hex_digit(c: char) -> (r: bool)
    ensures
        r == is_hex_digit(c),
{
    ('0' <= c && c <= '9') || ('a' <= c && c <= 'f') || ('A' <= c && c <= 'F')
}

/// The ASCII lower case of `c`; every other character is its own lower case.
pub open spec fn lower(c: char) -> char {
    if 'A' <= c <= 'Z' {
        (c as u32 + 32) as char
    } else {
        c
    }
}

/// ASCII lower case of one character.
pub fn lower_char(c: char) -> (r: char)
    ensures
        r == lower(c),
{
    if 'A' <= c && c <= 'Z' {
        let code: u8 = c as u8;
        (code + 32) as char
    } else {
        c
    }
}

/// ASCII lower case of a text, character by character.
pub open spec fn lowered(s: Seq<char>) -> Seq<char> {
    Seq::new(s.len(), |i: int| lower(s[i]))
}

/// The characters of `s` as a vector.
pub fn chars_of(s: &str) -> (v: Vec<char>)
    ensures
        v@ == s@,
{
    let mut v: Vec<char> = Vec::new();
    for c in it: s.chars()
        invariant
            it.seq() == s@,
            v@ == s@.take(it.index() as int),
    {
        v.push(c);
        assert(v@ == s@.take(it.index() as int + 1));
    }
    assert(s@.take(s@.len() as int) == s@);
    v
}

/// The text made of `chars[from..to]`.
pub fn text_of(chars: &Vec<char>, from: usize, to: usize) -> (r: String)
    requires
        from <= to <= chars@.len(),
    ensures
        r@ == chars@.subrange(from as int, to as int),
{
    let mut r = String::new();
    let mut i: usize = from;
    while i < to
        invariant
            from <= i <= to <= chars@.len(),
            r@ == chars@.subrange(from as int, i as int),
        decreases to - i,
    {
        r.push(chars[i]);
        i += 1;
        assert(r@ == chars@.subrange(from as int, i as int));
    }
    r
}

/// Whether two texts hold the same characters.
pub fn same_text(a: &str, b: &str) -> (r: bool)
    ensures
        r == (a@ == b@),
{
    a.to_owned() == b.to_owned()
}

/// Where the text starts once leading white space is passed over, seen from
/// position `i`.
pub open spec fn first_visible(s: Seq<char>, i: int) -> int
    decreases s.len() - i,
{
    if 0 <= i < s.len() && is_white_space(s[i]) {
        first_visible(s, i + 1)
    } else {
        i
    }
}

/// Where the text ends once trailing white space is dropped, seen from the end
/// position `j` and not before `from`.
pub open spec fn last_visible(s: Seq<char>, from: int, j: int) -> int
    decreases j - from,
{
    if from < j <= s.len() && is_white_space(s[j - 1]) {
        last_visible(s, from, j - 1)
    } else {
        j
    }
}

/// The text without its leading and trailing white space.
pub open spec fn trimmed(s: Seq<char>) -> Seq<char> {
    let from = first_visible(s, 0);
    s.subrange(from, last_visible(s, from, s.len() as int))
}

/// The scan for the first visible character stays inside the text.
pub proof fn lemma_first_visible(s: Seq<char>, i: int)
    requires
        0 <= i <= s.len(),
    ensures
        i <= first_visible(s, i) <= s.len(),
        forall|k: int| i <= k < first_visible(s, i) ==> is_white_space(#[trigger] s[k]),
        first_visible(s, i) < s.len() ==> !is_white_space(s[first_visible(s, i)]),
    decreases s.len() - i,
{
    if i < s.len() && is_white_space(s[i]) {
        lemma_first_visible(s, i + 1);
    }
}

/// The scan for the last visible character stays between its bounds.
pub proof fn lemma_last_visible(s: Seq<char>, from: int, j: int)
    requires
        0 <= from <= j <= s.len(),
    ensures
        from <= last_visible(s, from, j) <= j,
        forall|k: int| last_visible(s, from, j) <= k < j ==> is_white_space(#[trigger] s[k]),
        last_visible(s, from, j) > from ==> !is_white_space(s[last_visible(s, from, j) - 1]),
    decreases j - from,
{
    if from < j && is_white_space(s[j - 1]) {
        lemma_last_visible(s, from, j - 1);
    }
}

/// A text that neither starts nor ends with white space is its own trimming.
pub proof fn lemma_trimmed_fixed(s: Seq<char>)
    requires
        s.len() > 0 ==> !is_white_space(s[0]) && !is_white_space(s[s.len() - 1]),
    ensures
        trimmed(s) == s,
{
    assert(first_visible(s, 0) == 0);
    assert(last_visible(s, 0, s.len() as int) == s.len());
    assert(s.subrange(0, s.len() as int) == s);
}

/// Trimming twice is trimming once.
pub proof fn lemma_trimmed_idempotent(s: Seq<char>)
    ensures
        trimmed(trimmed(s)) == trimmed(s),
{
    let from = first_visible(s, 0);
    lemma_first_visible(s, 0);
    let to = last_visible(s, from, s.len() as int);
    lemma_last_visible(s, from, s.len() as int);
    let t = trimmed(s);
    if t.len() > 0 {
        assert(t[0] == s[from]);
        assert(t[t.len() - 1] == s[to - 1]);
    }
    lemma_trimmed_fixed(t);
}

/// The text without leading and trailing white space.
pub fn trim(s: &str) -> (r: String)
    ensures
        r@ == trimmed(s@),
{
    let chars = chars_of(s);
    let mut from: usize = 0;
    proof {
        lemma_first_visible(s@, 0);
    }
    while from < chars.len() && white_space(chars[from])
        invariant
            chars@ == s@,
            from <= chars@.len(),
            first_visible(s@, from as int) == first_visible(s@, 0),
        decreases chars@.len() - from,
    {
        from += 1;
    }
    let mut to: usize = chars.len();
    while from < to && white_space(chars[to - 1])
        invariant
            chars@ == s@,
            from <= to <= chars@.len(),
            last_visible(s@, from as int, to as int) == last_visible(
                s@,
                from as int,
                s@.len() as int,
            ),
        decreases to - from,
    {
        to -= 1;
    }
    text_of(&chars, from, to)
}

/// Whether a text is empty once trimmed.
pub fn blank(s: &str) -> (r: bool)
    ensures
        r == (trimmed(s@).len() == 0),
{
    trim(s).as_str().is_empty()
}

/// ASCII lower case of a text.
pub fn lower_text(s: &str) -> (r: String)
    ensures
        r@ == lowered(s@),
{
    let chars = chars_of(s);
    let mut r = String::new();
    let mut i: usize = 0;
    while i < chars.len()
        invariant
            chars@ == s@,
            i <= chars@.len(),
            r@ == lowered(s@).take(i as int),
        decreases chars@.len() - i,
    {
        r.push(lower_char(chars[i]));
        i += 1;
        assert(r@ == lowered(s@).take(i as int));
    }
    assert(lowered(s@).take(s@.len() as int) == lowered(s@));
    r
}

/// Whether two texts agree up to ASCII case.
pub fn same_ignoring_case(a: &str, b: &str) -> (r: bool)
    ensures
        r == (lowered(a@) == lowered(b@)),
{
    lower_text(a) == lower_text(b)
}

/// `prefix` stands at the start of `s`.
pub open spec fn has_prefix(s: Seq<char>, prefix: Seq<char>) -> bool {
    prefix.len() <= s.len() && s.take(prefix.len() as int) == prefix
}

/// Whether `s` starts with `prefix`.
pub fn starts_with(s: &str, prefix: &str) -> (r: bool)
    ensures
        r == has_prefix(s@, prefix@),
{
    let a = chars_of(s);
    let b = chars_of(prefix);
    if b.len() > a.len() {
        return false;
    }
    let mut i: usize = 0;
    while i < b.len()
        invariant
            a@ == s@,
            b@ == prefix@,
            i <= b@.len() <= a@.len(),
            forall|k: int| 0 <= k < i ==> a@[k] == b@[k],
        decreases b@.len() - i,
    {
        if a[i] != b[i] {
            assert(s@.take(prefix@.len() as int)[i as int] != prefix@[i as int]);
            return false;
        }
        i += 1;
    }
    assert(s@.take(prefix@.len() as int) == prefix@);
    true
}

/// `part` stands in `s` at position `at`.
pub open spec fn occurs_at(s: Seq<char>, part: Seq<char>, at: int) -> bool {
    0 <= at <= s.len() - part.len() && s.subrange(at, at + part.len()) == part
}

/// `part` stands somewhere in `s`.
pub open spec fn has_part(s: Seq<char>, part: Seq<char>) -> bool {
    exists|at: int| occurs_at(s, part, at)
}

/// Whether `part` stands in `a` at position `at`.
pub fn part_at(a: &Vec<char>, b: &Vec<char>, at: usize) -> (r: bool)
    ensures
        r == occurs_at(a@, b@, at as int),
{
    if b.len() > a.len() || at > a.len() - b.len() {
        return false;
    }
    let n: usize = a.len();
    let mut i: usize = 0;
    while i < b.len()
        invariant
            n == a@.len(),
            at + b@.len() <= n,
            i <= b@.len(),
            forall|k: int| 0 <= k < i ==> a@[at + k] == b@[k],
        decreases b@.len() - i,
    {
        if a[at + i] != b[i] {
            assert(a@.subrange(at as int, at + b@.len())[i as int] != b@[i as int]);
            return false;
        }
        i += 1;
    }
    assert(a@.subrange(at as int, at + b@.len()) == b@);
    true
}

/// The first position of `part` in `s`, if there is one.
pub fn find_part(s: &str, part: &str) -> (r: Option<usize>)
    ensures
        match r {
            Some(at) => occurs_at(s@, part@, at as int) && forall|k: int|
                0 <= k < at ==> !occurs_at(s@, part@, k),
            None => !has_part(s@, part@),
        },
{
    let a = chars_of(s);
    let b = chars_of(part);
    let mut at: usize = 0;
    while at < a.len()
        invariant
            a@ == s@,
            b@ == part@,
            at <= a@.len(),
            forall|k: int| 0 <= k < at ==> !occurs_at(s@, part@, k),
        decreases a@.len() - at,
    {
        if part_at(&a, &b, at) {
            return Some(at);
        }
        at += 1;
    }
    if part_at(&a, &b, at) {
        Some(at)
    } else {
        assert forall|k: int| !occurs_at(s@, part@, k) by {
            if 0 <= k < at {
                assert(!occurs_at(s@, part@, k));
            }
        }
        None
    }
}

/// Whether `part` stands somewhere in `s`.
pub fn contains_part(s: &str, part: &str) -> (r: bool)
    ensures
        r == has_part(s@, part@),
{
    find_part(s, part).is_some()
}

/// The position of the first `c` at or after `i`, or the length of the text.
pub open spec fn index_from(s: Seq<char>, c: char, i: int) -> int
    decreases s.len() - i,
{
    if 0 <= i < s.len() && s[i] != c {
        index_from(s, c, i + 1)
    } else {
        i
    }
}

/// The search for a character stays inside the text, and stops at the first one.
pub proof fn lemma_index_from(s: Seq<char>, c: char, i: int)
    requires
        0 <= i <= s.len(),
    ensures
        i <= index_from(s, c, i) <= s.len(),
        forall|k: int| i <= k < index_from(s, c, i) ==> #[trigger] s[k] != c,
        index_from(s, c, i) < s.len() ==> s[index_from(s, c, i)] == c,
    decreases s.len() - i,
{
    if i < s.len() && s[i] != c {
        lemma_index_from(s, c, i + 1);
    }
}

/// The position of the first `c` at or after `i`, or the length of the text.
pub fn find_from(chars: &Vec<char>, c: char, i: usize) -> (r: usize)
    requires
        i <= chars@.len(),
    ensures
        r == index_from(chars@, c, i as int),
        i <= r <= chars@.len(),
{
    let mut at: usize = i;
    while at < chars.len() && chars[at] != c
        invariant
            i <= at <= chars@.len(),
            index_from(chars@, c, at as int) == index_from(chars@, c, i as int),
        decreases chars@.len() - at,
    {
        at += 1;
    }
    at
}

/// The two halves of a text around the first `c` in it.
pub open spec fn halves(s: Seq<char>, c: char) -> Option<(Seq<char>, Seq<char>)> {
    let at = index_from(s, c, 0);
    if at < s.len() {
        Some((s.take(at), s.skip(at + 1)))
    } else {
        None
    }
}

/// Splits a text around the first `c` in it.
pub fn split_once(s: &str, c: char) -> (r: Option<(String, String)>)
    ensures
        match r {
            Some((left, right)) => halves(s@, c) == Some((left@, right@)),
            None => halves(s@, c) is None,
        },
{
    let chars = chars_of(s);
    let at = find_from(&chars, c, 0);
    if at < chars.len() {
        let left = text_of(&chars, 0, at);
        let right = text_of(&chars, at + 1, chars.len());
        assert(left@ == s@.take(at as int));
        assert(right@ == s@.skip(at as int + 1));
        Some((left, right))
    } else {
        None
    }
}

/// The pieces of a text between the occurrences of `c`, from position `i` on.
pub open spec fn pieces_from(s: Seq<char>, c: char, i: int) -> Seq<Seq<char>>
    decreases s.len() - i,
    when 0 <= i <= s.len()
    via pieces_from_decreases
{
    let at = index_from(s, c, i);
    if at < s.len() {
        seq![s.subrange(i, at)] + pieces_from(s, c, at + 1)
    } else {
        seq![s.subrange(i, s.len() as int)]
    }
}

#[via_fn]
proof fn pieces_from_decreases(s: Seq<char>, c: char, i: int) {
    lemma_index_from(s, c, i);
}

/// The pieces of a text between the occurrences of `c`: one more than there are
/// occurrences.
pub open spec fn pieces(s: Seq<char>, c: char) -> Seq<Seq<char>> {
    pieces_from(s, c, 0)
}

/// The views of a vector of strings.
pub open spec fn texts(v: Seq<String>) -> Seq<Seq<char>> {
    Seq::new(v.len(), |i: int| v[i]@)
}

/// Splits a text at every `c`.
pub fn split(s: &str, c: char) -> (r: Vec<String>)
    ensures
        texts(r@) == pieces(s@, c),
{
    let chars = chars_of(s);
    let mut r: Vec<String> = Vec::new();
    let mut i: usize = 0;
    loop
        invariant
            chars@ == s@,
            i <= chars@.len(),
            texts(r@) + pieces_from(s@, c, i as int) == pieces(s@, c),
        decreases chars@.len() - i,
    {
        let at = find_from(&chars, c, i);
        let ghost before = r@;
        r.push(text_of(&chars, i, at));
        assert(texts(r@) == texts(before) + seq![s@.subrange(i as int, at as int)]);
        if at < chars.len() {
            assert(texts(r@) + pieces_from(s@, c, at + 1) == texts(before) + pieces_from(
                s@,
                c,
                i as int,
            ));
            i = at + 1;
        } else {
            assert(texts(r@) == texts(before) + pieces_from(s@, c, i as int));
            return r;
        }
    }
}

/// The parts of a text put together with `separator` between neighbours.
pub open spec fn joined(parts: Seq<Seq<char>>, separator: Seq<char>) -> Seq<char>
    decreases parts.len(),
{
    if parts.len() == 0 {
        Seq::empty()
    } else if parts.len() == 1 {
        parts[0]
    } else {
        joined(parts.drop_last(), separator) + separator + parts.last()
    }
}

/// Puts texts together with `separator` between neighbours.
pub fn join(parts: &Vec<String>, separator: &str) -> (r: String)
    ensures
        r@ == joined(texts(parts@), separator@),
{
    let mut r = String::new();
    let mut i: usize = 0;
    while i < parts.len()
        invariant
            i <= parts@.len(),
            r@ == joined(texts(parts@).take(i as int), separator@),
        decreases parts@.len() - i,
    {
        if i > 0 {
            r.append(separator);
        }
        r.append(parts[i].as_str());
        i += 1;
        let ghost now = texts(parts@).take(i as int);
        assert(now.drop_last() == texts(parts@).take(i - 1));
        assert(now.last() == parts@[i - 1]@);
        if i == 1 {
            assert(r@ == now[0]);
        }
    }
    assert(texts(parts@).take(parts@.len() as int) == texts(parts@));
    r
}

/// The character of a decimal digit.
pub open spec fn digit_char(d: int) -> char {
    (48 + d) as char
}

/// A natural number in decimal, without leading zeros.
pub open spec fn decimal(n: nat) -> Seq<char>
    decreases n,
{
    if n < 10 {
        seq![digit_char(n as int)]
    } else {
        decimal(n / 10).push(digit_char((n % 10) as int))
    }
}

/// An integer in decimal, with a minus sign where it is negative.
pub open spec fn signed_decimal(n: int) -> Seq<char> {
    if n < 0 {
        seq!['-'] + decimal((-n) as nat)
    } else {
        decimal(n as nat)
    }
}

/// Appends a number in decimal.
pub fn push_decimal(s: &mut String, n: u64)
    ensures
        final(s)@ == old(s)@ + decimal(n as nat),
    decreases n,
{
    let digit: u8 = (n % 10) as u8;
    if n >= 10 {
        push_decimal(s, n / 10);
    }
    s.push((48 + digit) as char);
    assert(s@ == old(s)@ + decimal(n as nat));
}

/// Appends a wide number in decimal.
pub fn push_wide_decimal(s: &mut String, n: u128)
    ensures
        final(s)@ == old(s)@ + decimal(n as nat),
    decreases n,
{
    let digit: u8 = (n % 10) as u8;
    if n >= 10 {
        push_wide_decimal(s, n / 10);
    }
    s.push((48 + digit) as char);
    assert(s@ == old(s)@ + decimal(n as nat));
}

/// Appends a signed number in decimal.
pub fn push_signed(s: &mut String, n: i64)
    ensures
        final(s)@ == old(s)@ + signed_decimal(n as int),
{
    if n < 0 {
        s.push('-');
        let magnitude: i128 = -(n as i128);
        push_decimal(s, magnitude as u64);
        assert(s@ == old(s)@ + signed_decimal(n as int));
    } else {
        push_decimal(s, n as u64);
    }
}

/// The number in decimal.
pub fn decimal_text(n: u64) -> (r: String)
    ensures
        r@ == decimal(n as nat),
{
    let mut r = String::new();
    push_decimal(&mut r, n);
    assert(r@ == decimal(n as nat));
    r
}

/// The character of a hexadecimal digit, in the wanted case.
pub open spec fn nibble_char(d: int, upper: bool) -> char {
    if d < 10 {
        (48 + d) as char
    } else if upper {
        (55 + d) as char
    } else {
        (87 + d) as char
    }
}

/// The last `width` hexadecimal digits of a number.
pub open spec fn hex_digits(n: nat, width: nat, upper: bool) -> Seq<char>
    decreases width,
{
    if width == 0 {
        Seq::empty()
    } else {
        hex_digits(n / 16, (width - 1) as nat, upper).push(nibble_char((n % 16) as int, upper))
    }
}

/// Appends the last `width` hexadecimal digits of a number.
pub fn push_hex(s: &mut String, n: u32, width: u8, upper: bool)
    ensures
        final(s)@ == old(s)@ + hex_digits(n as nat, width as nat, upper),
    decreases width,
{
    if width > 0 {
        push_hex(s, n / 16, width - 1, upper);
        let digit: u8 = (n % 16) as u8;
        if digit < 10 {
            s.push((48 + digit) as char);
        } else if upper {
            s.push((55 + digit) as char);
        } else {
            s.push((87 + digit) as char);
        }
    }
    assert(s@ == old(s)@ + hex_digits(n as nat, width as nat, upper));
}

/// The bytes of a digest in lower case hexadecimal, two digits each.
pub open spec fn hex_of_bytes(bytes: Seq<u8>) -> Seq<char>
    decreases bytes.len(),
{
    if bytes.len() == 0 {
        Seq::empty()
    } else {
        hex_of_bytes(bytes.drop_last()) + hex_digits(bytes.last() as nat, 2, false)
    }
}

/// The bytes in lower case hexadecimal, two digits each.
pub fn lowercase_hex(bytes: &[u8]) -> (r: String)
    ensures
        r@ == hex_of_bytes(bytes@),
{
    let mut r = String::new();
    let mut i: usize = 0;
    while i < bytes.len()
        invariant
            i <= bytes@.len(),
            r@ == hex_of_bytes(bytes@.take(i as int)),
        decreases bytes@.len() - i,
    {
        push_hex(&mut r, bytes[i] as u32, 2, false);
        i += 1;
        assert(bytes@.take(i as int).drop_last() == bytes@.take(i - 1));
    }
    assert(bytes@.take(bytes@.len() as int) == bytes@);
    r
}

/// The value of a run of decimal digits.
pub open spec fn digits_value(s: Seq<char>) -> nat
    decreases s.len(),
{
    if s.len() == 0 {
        0
    } else {
        digits_value(s.drop_last()) * 10 + (s.last() as nat - 48) as nat
    }
}

/// The digits that a number is written with: all of the text, or what follows a
/// leading plus sign.
pub open spec fn digits_part(s: Seq<char>) -> Seq<char> {
    if s.len() > 0 && s[0] == '+' {
        s.skip(1)
    } else {
        s
    }
}

/// Whether the text is a decimal number no larger than `max`.
pub open spec fn is_number(s: Seq<char>, max: nat) -> bool {
    &&& digits_part(s).len() > 0
    &&& forall|i: int| 0 <= i < digits_part(s).len() ==> is_digit(#[trigger] digits_part(s)[i])
    &&& digits_value(digits_part(s)) <= max
}

/// A shorter run of the same digits is no larger.
proof fn lemma_digits_monotonic(s: Seq<char>, i: int)
    requires
        0 <= i <= s.len(),
    ensures
        digits_value(s.take(i)) <= digits_value(s),
    decreases s.len() - i,
{
    if i < s.len() {
        lemma_digits_monotonic(s, i + 1);
        assert(s.take(i + 1).drop_last() == s.take(i));
    } else {
        assert(s.take(i) == s);
    }
}

/// Reads a decimal number that is no larger than `max`.
pub fn parse_number(s: &str, max: u64) -> (r: Option<u64>)
    ensures
        match r {
            Some(n) => is_number(s@, max as nat) && n == digits_value(digits_part(s@)),
            None => !is_number(s@, max as nat),
        },
{
    let chars = chars_of(s);
    let start: usize = if chars.len() > 0 && chars[0] == '+' {
        1
    } else {
        0
    };
    let ghost digits = digits_part(s@);
    assert(digits == chars@.skip(start as int));
    if start == chars.len() {
        return None;
    }
    let mut value: u64 = 0;
    let mut i: usize = start;
    while i < chars.len()
        invariant
            start <= i <= chars@.len(),
            start <= 1,
            digits == digits_part(s@),
            digits == chars@.skip(start as int),
            value == digits_value(digits.take(i - start)),
            value <= max,
            forall|k: int| 0 <= k < i - start ==> is_digit(#[trigger] digits[k]),
        decreases chars@.len() - i,
    {
        let c = chars[i];
        assert(digits[i - start] == c);
        if !('0' <= c && c <= '9') {
            return None;
        }
        let digit: u64 = (c as u8 - 48) as u64;
        let next: u128 = value as u128 * 10 + digit as u128;
        proof {
            assert(digits.take(i - start + 1).drop_last() == digits.take(i - start));
            assert(digits.take(i - start + 1).last() == c);
            lemma_digits_monotonic(digits, i - start + 1);
        }
        if next > max as u128 {
            return None;
        }
        value = next as u64;
        i += 1;
    }
    assert(digits.take(digits.len() as int) == digits);
    Some(value)
}

/// The parts of a text, one after the other.
pub fn concat3(a: &str, b: &str, c: &str) -> (r: String)
    ensures
        r@ == a@ + b@ + c@,
{
    let mut r = a.to_owned();
    r.append(b);
    r.append(c);
    r
}

/// Two texts, one after the other.
pub fn concat2(a: &str, b: &str) -> (r: String)
    ensures
        r@ == a@ + b@,
{
    let mut r = a.to_owned();
    r.append(b);
    r
}

/// The view of an optional text.
pub open spec fn optional(s: Option<String>) -> Option<Seq<char>> {
    match s {
        Some(t) => Some(t@),
        None => None,
    }
}

/// Whether two optional texts are both absent or hold the same characters.
pub fn same_optional(a: &Option<String>, b: &Option<String>) -> (r: bool)
    ensures
        r == (optional(*a) == optional(*b)),
{
    match (a, b) {
        (Some(x), Some(y)) => *x == *y,
        (None, None) => true,
        _ => false,
    }
}

/// A copy of an optional text.
pub fn copy_optional(a: &Option<String>) -> (r: Option<String>)
    ensures
        optional(r) == optional(*a),
{
    match a {
        Some(x) => Some(x.clone()),
        None => None,
    }
}

/// Whether one text comes before another in the order of their characters, a text
/// before all that it begins.
pub open spec fn precedes(a: Seq<char>, b: Seq<char>) -> bool
    decreases b.len(),
{
    if b.len() == 0 {
        false
    } else if a.len() == 0 {
        true
    } else if a[0] != b[0] {
        a[0] < b[0]
    } else {
        precedes(a.skip(1), b.skip(1))
    }
}

/// Of two texts that do not come before each other, each is the other.
pub proof fn lemma_precedes_total(a: Seq<char>, b: Seq<char>)
    ensures
        a == b || precedes(a, b) || precedes(b, a),
        !(precedes(a, b) && precedes(b, a)),
        a == b ==> !precedes(a, b),
    decreases b.len(),
{
    if a.len() > 0 && b.len() > 0 && a[0] == b[0] {
        lemma_precedes_total(a.skip(1), b.skip(1));
        if a.skip(1) == b.skip(1) {
            assert(a =~= seq![a[0]] + a.skip(1));
            assert(b =~= seq![b[0]] + b.skip(1));
        }
    } else if a.len() == 0 && b.len() == 0 {
        assert(a =~= b);
    }
}

/// What comes before a text comes before all that the text comes before.
pub proof fn lemma_precedes_transitive(a: Seq<char>, b: Seq<char>, c: Seq<char>)
    requires
        precedes(a, b),
        precedes(b, c),
    ensures
        precedes(a, c),
    decreases c.len(),
{
    if a.len() > 0 && a[0] == b[0] && b[0] == c[0] {
        lemma_precedes_transitive(a.skip(1), b.skip(1), c.skip(1));
    }
}

/// Whether one text comes before another.
pub fn comes_before(a: &str, b: &str) -> (r: bool)
    ensures
        r == precedes(a@, b@),
{
    let x = chars_of(a);
    let y = chars_of(b);
    let mut i: usize = 0;
    assert(a@.skip(0) =~= a@);
    assert(b@.skip(0) =~= b@);
    while i < x.len() && i < y.len()
        invariant
            x@ == a@,
            y@ == b@,
            i <= x@.len(),
            i <= y@.len(),
            precedes(a@, b@) == precedes(a@.skip(i as int), b@.skip(i as int)),
        decreases x@.len() - i,
    {
        assert(a@.skip(i as int).skip(1) =~= a@.skip(i + 1));
        assert(b@.skip(i as int).skip(1) =~= b@.skip(i + 1));
        if x[i] != y[i] {
            return x[i] < y[i];
        }
        i += 1;
    }
    i < y.len()
}

/// The characters of a text that are letters or digits of ASCII.
pub open spec fn letters_and_digits(s: Seq<char>) -> Seq<char> {
    s.filter(|c: char| is_alphanumeric(c))
}

/// The characters of a text that are letters or digits of ASCII.
pub fn keep_letters_and_digits(s: &str) -> (r: String)
    ensures
        r@ == letters_and_digits(s@),
{
    let chars = chars_of(s);
    let mut r = String::new();
    let mut i: usize = 0;
    assert(s@.take(0).filter(|c: char| is_alphanumeric(c)) =~= Seq::<char>::empty()) by {
        assert(s@.take(0) =~= Seq::<char>::empty());
        reveal(Seq::filter);
    }
    while i < chars.len()
        invariant
            chars@ == s@,
            i <= chars@.len(),
            r@ == letters_and_digits(s@.take(i as int)),
        decreases chars@.len() - i,
    {
        proof {
            let kept = |c: char| is_alphanumeric(c);
            assert(s@.take(i + 1).drop_last() =~= s@.take(i as int));
            assert(s@.take(i + 1).last() == s@[i as int]);
            reveal(Seq::filter);
            assert(s@.take(i + 1).filter(kept) == {
                let before = s@.take(i as int).filter(kept);
                if kept(s@[i as int]) {
                    before.push(s@[i as int])
                } else {
                    before
                }
            });
        }
        if alphanumeric(chars[i]) {
            r.push(chars[i]);
        }
        i += 1;
    }
    assert(s@.take(s@.len() as int) =~= s@);
    r
}

/// A text, filled up with spaces to a width.
pub open spec fn padded(s: Seq<char>, width: nat) -> Seq<char>
    decreases width - s.len(),
{
    if s.len() >= width {
        s
    } else {
        padded(s.push(' '), width)
    }
}

/// Adds a text, filled up with spaces to a width.
pub fn push_padded(out: &mut String, s: &str, width: usize)
    ensures
        final(out)@ == old(out)@ + padded(s@, width as nat),
{
    let mut filled = s.to_owned();
    let mut n: usize = chars_of(s).len();
    while n < width
        invariant
            n == filled@.len(),
            padded(s@, width as nat) == padded(filled@, width as nat),
        decreases width - n,
    {
        filled.push(' ');
        n += 1;
    }
    out.append(filled.as_str());
}

/// A line without the carriage return that it may end with.
pub open spec fn line_body(s: Seq<char>) -> Seq<char> {
    if s.len() > 0 && s.last() == '\r' {
        s.drop_last()
    } else {
        s
    }
}

/// The lines of a text. What follows the last line break is a line unless it is
/// empty.
pub open spec fn lines_of(s: Seq<char>) -> Seq<Seq<char>> {
    let all = pieces(s, '\n');
    let kept = if all.last().len() == 0 {
        all.drop_last()
    } else {
        all
    };
    Seq::new(
        kept.len(),
        |i: int|
            if i == all.len() - 1 {
                kept[i]
            } else {
                line_body(kept[i])
            },
    )
}

proof fn lemma_pieces_nonempty(s: Seq<char>, c: char)
    ensures
        pieces(s, c).len() > 0,
{
    lemma_index_from(s, c, 0);
}

/// The lines of a text.
pub fn lines(s: &str) -> (r: Vec<String>)
    ensures
        texts(r@) == lines_of(s@),
{
    let all = split(s, '\n');
    proof {
        lemma_pieces_nonempty(s@, '\n');
    }
    let ghost wanted = lines_of(s@);
    let n: usize = all.len();
    let kept: usize = if all[n - 1].as_str().is_empty() {
        n - 1
    } else {
        n
    };
    assert(wanted.len() == kept);
    let mut r: Vec<String> = Vec::new();
    let mut i: usize = 0;
    assert(texts(r@) =~= wanted.take(0));
    while i < kept
        invariant
            n == all@.len(),
            n > 0,
            kept <= n,
            n - 1 <= kept,
            texts(all@) == pieces(s@, '\n'),
            kept == n - 1 <==> all@[n - 1]@.len() == 0,
            wanted == lines_of(s@),
            wanted.len() == kept,
            i <= kept,
            texts(r@) == wanted.take(i as int),
        decreases kept - i,
    {
        let ghost before = texts(r@);
        assert(texts(all@)[i as int] == all@[i as int]@);
        assert(texts(all@).last() == all@[n - 1]@);
        if i == n - 1 {
            r.push(all[i].clone());
        } else {
            r.push(strip_return(all[i].as_str()));
        }
        assert(texts(r@) =~= before.push(wanted[i as int]));
        i += 1;
        assert(texts(r@) =~= wanted.take(i as int));
    }
    assert(wanted.take(wanted.len() as int) =~= wanted);
    r
}

fn strip_return(s: &str) -> (r: String)
    ensures
        r@ == line_body(s@),
{
    let chars = chars_of(s);
    let n: usize = chars.len();
    if n > 0 && chars[n - 1] == '\r' {
        let r = text_of(&chars, 0, n - 1);
        assert(s@.subrange(0, n - 1) =~= s@.drop_last());
        r
    } else {
        s.to_owned()
    }
}

/// A number in hexadecimal, with as many digits as it needs.
pub open spec fn plain_hex(n: nat) -> Seq<char>
    decreases n,
{
    if n < 16 {
        seq![nibble_char(n as int, false)]
    } else {
        plain_hex(n / 16).push(nibble_char((n % 16) as int, false))
    }
}

/// Different numbers look different in hexadecimal.
pub proof fn lemma_plain_hex_is_unique(a: nat, b: nat)
    requires
        plain_hex(a) == plain_hex(b),
    ensures
        a == b,
    decreases a,
{
    assert(plain_hex(a).last() == nibble_char((a % 16) as int, false));
    assert(plain_hex(b).last() == nibble_char((b % 16) as int, false));
    assert(a % 16 == b % 16);
    if a >= 16 && b >= 16 {
        assert(plain_hex(a).drop_last() =~= plain_hex(a / 16));
        assert(plain_hex(b).drop_last() =~= plain_hex(b / 16));
        lemma_plain_hex_is_unique(a / 16, b / 16);
    } else if a >= 16 {
        lemma_plain_hex_is_not_empty(a / 16);
        assert(plain_hex(a).len() > 1);
    } else if b >= 16 {
        lemma_plain_hex_is_not_empty(b / 16);
        assert(plain_hex(b).len() > 1);
    }
}

proof fn lemma_plain_hex_is_not_empty(n: nat)
    ensures
        plain_hex(n).len() > 0,
{
}

/// Adds a number in hexadecimal.
pub fn push_plain_hex(s: &mut String, n: u128)
    ensures
        final(s)@ == old(s)@ + plain_hex(n as nat),
    decreases n,
{
    if n >= 16 {
        push_plain_hex(s, n / 16);
    }
    let digit: u8 = (n % 16) as u8;
    let c: char = if digit < 10 {
        (48 + digit) as char
    } else {
        (87 + digit) as char
    };
    s.push(c);
    assert(s@ =~= old(s)@ + plain_hex(n as nat));
}

/// Where a word ends that is looked at from position `i` on.
pub open spec fn word_end(s: Seq<char>, i: int) -> int
    decreases s.len() - i,
{
    if 0 <= i < s.len() && !is_white_space(s[i]) {
        word_end(s, i + 1)
    } else {
        i
    }
}

proof fn lemma_word_end(s: Seq<char>, i: int)
    requires
        0 <= i <= s.len(),
    ensures
        i <= word_end(s, i) <= s.len(),
    decreases s.len() - i,
{
    if i < s.len() && !is_white_space(s[i]) {
        lemma_word_end(s, i + 1);
    }
}

/// Where a word ends that is looked at from position `i` on.
fn end_of_word(chars: &Vec<char>, i: usize) -> (r: usize)
    requires
        i <= chars@.len(),
    ensures
        r == word_end(chars@, i as int),
        i <= r <= chars@.len(),
{
    let mut at: usize = i;
    while at < chars.len() && !white_space(chars[at])
        invariant
            i <= at <= chars@.len(),
            word_end(chars@, i as int) == word_end(chars@, at as int),
        decreases chars@.len() - at,
    {
        at += 1;
    }
    at
}

/// The first word of a text.
pub open spec fn first_word(s: Seq<char>) -> Option<Seq<char>> {
    let t = trimmed(s);
    if t.len() == 0 {
        None
    } else {
        Some(t.take(word_end(t, 0)))
    }
}

/// The first word of a text.
pub fn word(s: &str) -> (r: Option<String>)
    ensures
        optional(r) == first_word(s@),
{
    let t = trim(s);
    let chars = chars_of(t.as_str());
    if chars.len() == 0 {
        return None;
    }
    let end = end_of_word(&chars, 0);
    let found = text_of(&chars, 0, end);
    assert(found@ =~= t@.take(end as int));
    Some(found)
}

/// The words of a text from position `i` on.
pub open spec fn words_from(s: Seq<char>, i: int) -> Seq<Seq<char>>
    decreases s.len() - i,
    when 0 <= i <= s.len()
    via words_from_decreases
{
    let from = first_visible(s, i);
    if from >= s.len() {
        Seq::empty()
    } else {
        seq![s.subrange(from, word_end(s, from))] + words_from(s, word_end(s, from))
    }
}

#[via_fn]
proof fn words_from_decreases(s: Seq<char>, i: int) {
    lemma_first_visible(s, i);
    let from = first_visible(s, i);
    if from < s.len() {
        lemma_word_end(s, from + 1);
    }
}

/// The words of a text.
pub open spec fn words_of(s: Seq<char>) -> Seq<Seq<char>> {
    words_from(s, 0)
}

/// The words of a text.
pub fn words(s: &str) -> (r: Vec<String>)
    ensures
        texts(r@) == words_of(s@),
{
    let chars = chars_of(s);
    let mut found: Vec<String> = Vec::new();
    let mut at: usize = 0;
    assert(texts(found@) + words_from(s@, 0) =~= words_from(s@, 0));
    while at < chars.len()
        invariant
            chars@ == s@,
            at <= chars@.len(),
            texts(found@) + words_from(s@, at as int) == words_of(s@),
        decreases chars@.len() - at,
    {
        proof {
            lemma_first_visible(s@, at as int);
        }
        if white_space(chars[at]) {
            proof {
                lemma_first_visible(s@, at as int + 1);
                assert(first_visible(s@, at as int) == first_visible(s@, at as int + 1));
                assert(words_from(s@, at as int) == words_from(s@, at as int + 1));
            }
            at += 1;
        } else {
            let end = end_of_word(&chars, at);
            let ghost before = found@;
            let next = text_of(&chars, at, end);
            found.push(next);
            proof {
                lemma_word_end(s@, at as int + 1);
                assert(first_visible(s@, at as int) == at);
                assert(texts(found@) =~= texts(before).push(next@));
                assert(next@ =~= s@.subrange(at as int, end as int));
                assert(texts(before) + (seq![next@] + words_from(s@, end as int)) =~= texts(found@)
                    + words_from(s@, end as int));
            }
            at = end;
        }
    }
    proof {
        lemma_first_visible(s@, at as int);
    }
    assert(texts(found@) + words_from(s@, at as int) =~= texts(found@));
    found
}

/// A number that is written in decimal is read back as it was.
pub proof fn lemma_decimal_is_read_back(n: nat)
    ensures
        is_number(decimal(n), n),
        digits_value(digits_part(decimal(n))) == n,
{
    lemma_decimal_digits(n);
    assert(decimal(n)[0] != '+');
    assert(digits_part(decimal(n)) == decimal(n));
}

/// A number in decimal is made of digits alone, at least one, and they stand for it.
pub proof fn lemma_decimal_digits(n: nat)
    ensures
        decimal(n).len() > 0,
        forall|i: int| 0 <= i < decimal(n).len() ==> is_digit(#[trigger] decimal(n)[i]),
        digits_value(decimal(n)) == n,
    decreases n,
{
    if n < 10 {
        assert(decimal(n).drop_last() =~= Seq::empty());
        assert(digits_value(decimal(n).drop_last()) == 0);
    } else {
        lemma_decimal_digits(n / 10);
        assert(decimal(n).drop_last() =~= decimal(n / 10));
    }
}

/// Trimming takes away the white space around a text and nothing else.
pub proof fn law_trimming(before: Seq<char>, s: Seq<char>, after: Seq<char>)
    requires
        forall|i: int| 0 <= i < before.len() ==> is_white_space(#[trigger] before[i]),
        forall|i: int| 0 <= i < after.len() ==> is_white_space(#[trigger] after[i]),
        s.len() > 0 ==> !is_white_space(s[0]) && !is_white_space(s.last()),
    ensures
        trimmed(before + s + after) == s,
        is_white_space(' ') && is_white_space('\t') && is_white_space('\n') && is_white_space('\r'),
        forall|c: char| '!' <= c <= '~' ==> !#[trigger] is_white_space(c),
{
    let whole = before + s + after;
    let n = before.len() as int;
    let m = n + s.len();
    lemma_first_visible(whole, 0);
    let from = first_visible(whole, 0);
    lemma_last_visible(whole, from, whole.len() as int);
    let to = last_visible(whole, from, whole.len() as int);
    assert forall|k: int| 0 <= k < n implies is_white_space(#[trigger] whole[k]) by {
        assert(whole[k] == before[k]);
    }
    assert forall|k: int| m <= k < whole.len() implies is_white_space(#[trigger] whole[k]) by {
        assert(whole[k] == after[k - m]);
    }
    if s.len() > 0 {
        assert(whole[n] == s[0] && whole[m - 1] == s.last());
        assert(from == n);
        assert(to == m);
    } else {
        assert(from == whole.len());
    }
    assert(trimmed(whole) =~= s);
}

/// A text without the separator is one piece, and behind a separator the pieces of the rest
/// follow.
pub proof fn law_pieces_lie_between_separators(a: Seq<char>, b: Seq<char>, c: char)
    requires
        !a.contains(c),
    ensures
        pieces(a, c) == seq![a],
        pieces(a + seq![c] + b, c) == seq![a] + pieces(b, c),
        halves(a + seq![c] + b, c) == Some((a, b)),
        halves(a, c) is None,
{
    let whole = a + seq![c] + b;
    let n = a.len() as int;
    lemma_index_from(a, c, 0);
    if index_from(a, c, 0) < a.len() {
        assert(a.contains(a[index_from(a, c, 0)]));
    }
    assert(a.subrange(0, n) =~= a);
    lemma_index_from(whole, c, 0);
    let at = index_from(whole, c, 0);
    assert(whole[n] == c);
    if at < n {
        assert(a.contains(a[at]));
    }
    assert(at == n);
    assert(whole.subrange(0, n) =~= a);
    assert(whole.take(n) =~= a);
    assert(whole.skip(n + 1) =~= b);
    assert(whole =~= (a + seq![c]) + b);
    lemma_pieces_behind(a + seq![c], b, c, 0);
}

proof fn lemma_pieces_behind(a: Seq<char>, b: Seq<char>, c: char, i: int)
    requires
        0 <= i <= b.len(),
    ensures
        pieces_from(a + b, c, a.len() + i) == pieces_from(b, c, i),
    decreases b.len() - i,
{
    let n = a.len() as int;
    lemma_index_behind(a, b, c, i);
    lemma_index_from(b, c, i);
    let at = index_from(b, c, i);
    if at < b.len() {
        lemma_pieces_behind(a, b, c, at + 1);
        assert((a + b).subrange(n + i, n + at) =~= b.subrange(i, at));
    } else {
        assert((a + b).subrange(n + i, (a + b).len() as int) =~= b.subrange(i, b.len() as int));
    }
}

proof fn lemma_index_behind(a: Seq<char>, b: Seq<char>, c: char, i: int)
    requires
        0 <= i <= b.len(),
    ensures
        index_from(a + b, c, a.len() + i) == a.len() + index_from(b, c, i),
    decreases b.len() - i,
{
    if i < b.len() {
        assert((a + b)[a.len() + i] == b[i]);
        if b[i] != c {
            lemma_index_behind(a, b, c, i + 1);
        }
    }
}

/// The lines of a text end at each line feed, without a carriage return before it; what
/// follows the last one is a line where it is not empty.
pub proof fn law_lines_end_at_line_feeds(line: Seq<char>, rest: Seq<char>)
    requires
        !line.contains('\n'),
    ensures
        line.len() > 0 ==> lines_of(line) == seq![line],
        lines_of(Seq::empty()).len() == 0,
        line.len() == 0 || line.last() != '\r' ==> lines_of(line + seq!['\n'] + rest) == seq![line]
            + lines_of(rest),
        lines_of(line + seq!['\r', '\n'] + rest) == seq![line] + lines_of(rest),
{
    let empty = Seq::<char>::empty();
    law_pieces_lie_between_separators(line, rest, '\n');
    law_pieces_lie_between_separators(empty, empty, '\n');
    lemma_pieces_nonempty(rest, '\n');
    let ended = line.push('\r');
    assert(!ended.contains('\n')) by {
        if ended.contains('\n') {
            let k = ended.index_of('\n');
            assert(line[k] == '\n');
        }
    }
    law_pieces_lie_between_separators(ended, rest, '\n');
    assert(line + seq!['\r', '\n'] + rest =~= ended + seq!['\n'] + rest);
    assert(ended.drop_last() =~= line);
    assert((seq![line] + pieces(rest, '\n')).drop_last() =~= seq![line] + pieces(
        rest,
        '\n',
    ).drop_last());
    assert((seq![ended] + pieces(rest, '\n')).drop_last() =~= seq![ended] + pieces(
        rest,
        '\n',
    ).drop_last());
    assert((seq![line] + pieces(rest, '\n')).last() == pieces(rest, '\n').last());
    assert((seq![ended] + pieces(rest, '\n')).last() == pieces(rest, '\n').last());
    assert(lines_of(empty) =~= Seq::empty());
    if line.len() > 0 {
        assert(lines_of(line) =~= seq![line]);
    }
    if line.len() == 0 || line.last() != '\r' {
        assert(lines_of(line + seq!['\n'] + rest) =~= seq![line] + lines_of(rest));
    }
    assert(lines_of(ended + seq!['\n'] + rest) =~= seq![line] + lines_of(rest));
}

/// Texts are put together in their order, with the separator between neighbours.
pub proof fn law_texts_are_joined(parts: Seq<Seq<char>>, last: Seq<char>, separator: Seq<char>)
    ensures
        joined(Seq::empty(), separator).len() == 0,
        joined(seq![last], separator) == last,
        parts.len() > 0 ==> joined(parts.push(last), separator) == joined(parts, separator)
            + separator + last,
{
    assert(parts.push(last).drop_last() =~= parts);
}

/// A number in decimal ends with its last digit, which follows the digits of the rest.
pub proof fn law_decimal_digits(n: nat, d: nat)
    requires
        d < 10,
    ensures
        decimal(d) == seq![('0' as int + d) as char],
        n > 0 ==> decimal(10 * n + d) == decimal(n).push(('0' as int + d) as char),
        n > 0 ==> signed_decimal(-(n as int)) == seq!['-'] + decimal(n),
        signed_decimal(n as int) == decimal(n),
{
    assert((10 * n + d) / 10 == n);
    assert((10 * n + d) % 10 == d);
}

/// A number in hexadecimal ends with its last digit: one of `0` to `9`, and then a letter in
/// the case that is asked for.
pub proof fn law_hex_digits(n: nat, d: nat, width: nat)
    requires
        d < 16,
    ensures
        d < 10 ==> nibble_char(d as int, true) == ('0' as int + d) as char && nibble_char(
            d as int,
            false,
        ) == ('0' as int + d) as char,
        d >= 10 ==> nibble_char(d as int, true) == ('A' as int + d - 10) as char && nibble_char(
            d as int,
            false,
        ) == ('a' as int + d - 10) as char,
        hex_digits(16 * n + d, width + 1, false) == hex_digits(n, width, false).push(
            nibble_char(d as int, false),
        ),
        hex_digits(16 * n + d, width + 1, true) == hex_digits(n, width, true).push(
            nibble_char(d as int, true),
        ),
        hex_digits(n, 0, true).len() == 0 && hex_digits(n, 0, false).len() == 0,
        n > 0 ==> plain_hex(16 * n + d) == plain_hex(n).push(nibble_char(d as int, false)),
        plain_hex(d) == seq![nibble_char(d as int, false)],
{
    assert((16 * n + d) / 16 == n);
    assert((16 * n + d) % 16 == d);
}

/// Bytes in hexadecimal are two digits each, in their order.
pub proof fn law_bytes_in_hex(bytes: Seq<u8>, last: u8)
    ensures
        hex_of_bytes(Seq::empty()).len() == 0,
        hex_of_bytes(bytes.push(last)) == hex_of_bytes(bytes).push(
            nibble_char((last / 16) as int, false),
        ).push(nibble_char((last % 16) as int, false)),
{
    assert(bytes.push(last).drop_last() =~= bytes);
    let n = last as nat;
    reveal_with_fuel(hex_digits, 3);
    assert(n / 16 % 16 == n / 16);
    assert(hex_digits(n, 2, false) =~= seq![
        nibble_char((n / 16) as int, false),
        nibble_char((n % 16) as int, false),
    ]);
    assert(hex_of_bytes(bytes.push(last)) =~= hex_of_bytes(bytes).push(
        nibble_char((last / 16) as int, false),
    ).push(nibble_char((last % 16) as int, false)));
}

/// What a text starts with and what stands in it.
pub proof fn law_parts_of_texts(a: Seq<char>, b: Seq<char>, c: Seq<char>)
    ensures
        has_prefix(a + b, a),
        a.len() > c.len() ==> !has_prefix(c, a),
        has_prefix(c, a) ==> c == a + c.skip(a.len() as int),
        has_part(a + b + c, b),
{
    assert((a + b).take(a.len() as int) =~= a);
    if has_prefix(c, a) {
        assert(c =~= a + c.skip(a.len() as int));
    }
    assert((a + b + c).subrange(a.len() as int, (a.len() + b.len()) as int) =~= b);
    assert(occurs_at(a + b + c, b, a.len() as int));
}

/// Capitals become small letters, and nothing else changes.
pub proof fn law_lower_case(s: Seq<char>, i: int)
    requires
        0 <= i < s.len(),
    ensures
        lowered(s).len() == s.len(),
        'A' <= s[i] <= 'Z' ==> lowered(s)[i] as int == s[i] as int + ('a' as int - 'A' as int),
        !('A' <= s[i] <= 'Z') ==> lowered(s)[i] == s[i],
{
}

/// A text that is filled up has the width that is asked for, and spaces behind it.
pub proof fn law_padding(s: Seq<char>, width: nat, i: int)
    ensures
        s.len() >= width ==> padded(s, width) == s,
        s.len() < width ==> padded(s, width).len() == width,
        s.len() < width && 0 <= i < s.len() ==> padded(s, width)[i] == s[i],
        s.len() <= i < width ==> padded(s, width)[i] == ' ',
    decreases width - s.len(),
{
    if s.len() < width {
        law_padding(s.push(' '), width, i);
    }
}

/// Texts are ordered by their first difference, and the beginning of a text goes before it.
pub proof fn law_order_of_texts(start: Seq<char>, a: Seq<char>, b: Seq<char>, x: char, y: char)
    ensures
        x < y ==> precedes(start + seq![x] + a, start + seq![y] + b) && !precedes(
            start + seq![y] + b,
            start + seq![x] + a,
        ),
        precedes(start, start + seq![x] + a),
        !precedes(start, start),
    decreases start.len(),
{
    let p = start + seq![x] + a;
    let q = start + seq![y] + b;
    if start.len() > 0 {
        let rest = start.skip(1);
        law_order_of_texts(rest, a, b, x, y);
        assert(p.skip(1) =~= rest + seq![x] + a);
        assert(q.skip(1) =~= rest + seq![y] + b);
        assert(p[0] == start[0] && q[0] == start[0]);
    } else {
        assert(p[0] == x && q[0] == y);
    }
}

/// The words of a text are what stands between white space.
pub proof fn law_words_stand_between_spaces(before: Seq<char>, word: Seq<char>, rest: Seq<char>)
    requires
        word.len() > 0,
        forall|i: int| 0 <= i < word.len() ==> !is_white_space(#[trigger] word[i]),
        forall|i: int| 0 <= i < before.len() ==> is_white_space(#[trigger] before[i]),
        rest.len() > 0 ==> is_white_space(rest[0]),
    ensures
        words_of(before + word + rest) == seq![word] + words_of(rest),
        words_of(before).len() == 0,
{
    let whole = before + word + rest;
    let n = before.len() as int;
    let m = n + word.len();
    lemma_first_visible(whole, 0);
    assert(whole[n] == word[0]);
    let from = first_visible(whole, 0);
    if from < n {
        assert(whole[from] == before[from]);
    }
    if from > n {
        assert(is_white_space(whole[n]));
    }
    assert forall|k: int| n <= k < m implies !is_white_space(#[trigger] whole[k]) by {
        assert(whole[k] == word[k - n]);
    }
    if rest.len() > 0 {
        assert(whole[m] == rest[0]);
    }
    lemma_word_ends(whole, n, m);
    assert(whole.subrange(n, m) =~= word);
    assert(whole =~= (before + word) + rest);
    lemma_words_behind(before + word, rest, 0);
    lemma_first_visible(before, 0);
}

proof fn lemma_word_ends(s: Seq<char>, i: int, n: int)
    requires
        0 <= i <= n <= s.len(),
        forall|k: int| i <= k < n ==> !is_white_space(#[trigger] s[k]),
        n < s.len() ==> is_white_space(s[n]),
    ensures
        word_end(s, i) == n,
    decreases n - i,
{
    if i < n {
        lemma_word_ends(s, i + 1, n);
    }
}

proof fn lemma_words_behind(a: Seq<char>, b: Seq<char>, i: int)
    requires
        0 <= i <= b.len(),
    ensures
        words_from(a + b, a.len() + i) == words_from(b, i),
    decreases b.len() - i,
{
    let n = a.len() as int;
    lemma_visible_behind(a, b, i);
    lemma_first_visible(b, i);
    let from = first_visible(b, i);
    if from < b.len() {
        lemma_word_end_behind(a, b, from);
        lemma_word_end(b, from + 1);
        let to = word_end(b, from);
        lemma_words_behind(a, b, to);
        assert((a + b).subrange(n + from, n + to) =~= b.subrange(from, to));
    }
}

proof fn lemma_visible_behind(a: Seq<char>, b: Seq<char>, i: int)
    requires
        0 <= i <= b.len(),
    ensures
        first_visible(a + b, a.len() + i) == a.len() + first_visible(b, i),
    decreases b.len() - i,
{
    if i < b.len() {
        assert((a + b)[a.len() + i] == b[i]);
        if is_white_space(b[i]) {
            lemma_visible_behind(a, b, i + 1);
        }
    }
}

proof fn lemma_word_end_behind(a: Seq<char>, b: Seq<char>, i: int)
    requires
        0 <= i <= b.len(),
    ensures
        word_end(a + b, a.len() + i) == a.len() + word_end(b, i),
    decreases b.len() - i,
{
    if i < b.len() {
        assert((a + b)[a.len() + i] == b[i]);
        if !is_white_space(b[i]) {
            lemma_word_end_behind(a, b, i + 1);
        }
    }
}

/// A number is read where it is written in decimal, with or without a plus sign, and is not
/// larger than allowed.
pub proof fn law_numbers_are_read(n: u64, max: u64, s: &str)
    requires
        s@ == decimal(n as nat) || s@ == seq!['+'] + decimal(n as nat),
    ensures
        forall|r: Option<u64>|
            #![trigger call_ensures(parse_number, (s, max), r)]
            call_ensures(parse_number, (s, max), r) ==> (n <= max ==> r == Some(n)) && (n > max ==> r
                is None),
{
    lemma_decimal_is_read_back(n as nat);
    lemma_decimal_digits(n as nat);
    assert((seq!['+'] + decimal(n as nat)).skip(1) =~= decimal(n as nat));
    assert(decimal(n as nat)[0] != '+');
}

}
