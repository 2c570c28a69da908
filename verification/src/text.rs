//! Text primitives shared by the parsers and the request builders.
//!
//! Every function here works on the characters of a string; the specifications
//! are stated over `Seq<char>`, the view of `str` and `String`.

use vstd::prelude::*;
use vstd::string::*;

verus! {

/// Appends one character to a string (`String::push`): afterwards the string
/// holds what it held before, followed by `c`.
#[verifier::external_body]
pub(crate) fn push_char(s: &mut String, c: char)
    ensures
        final(s)@ == old(s)@.push(c),
{
    s.push(c)
}

/// The characters of a string slice, in order.
pub fn chars_of(s: &str) -> (v: Vec<char>)
    ensures
        v@ == s@,
{
    let mut v: Vec<char> = Vec::new();
    let source = s.chars();
    for c in it: source
        invariant
            v@ == it.seq().take(it.index()),
            it.seq() == s@,
    {
        v.push(c);
    }
    v
}

/// The string made of `v[start..end]`.
pub(crate) fn string_from(v: &Vec<char>, start: usize, end: usize) -> (s: String)
    requires
        start <= end <= v.len(),
    ensures
        s@ == v@.subrange(start as int, end as int),
{
    let mut s = String::new();
    let mut i: usize = start;
    while i < end
        invariant
            start <= i <= end <= v.len(),
            s@ == v@.subrange(start as int, i as int),
        decreases end - i,
    {
        push_char(&mut s, v[i]);
        i += 1;
        assert(v@.subrange(start as int, i as int) == v@.subrange(start as int, i - 1).push(
            v@[i - 1],
        ));
    }
    s
}

/// The string made of the given characters.
pub fn string_of(v: &Vec<char>) -> (s: String)
    ensures
        s@ == v@,
{
    let s = string_from(v, 0, v.len());
    assert(v@.subrange(0, v.len() as int) == v@);
    s
}

/// The characters that Unicode gives the property `White_Space`.
pub open spec fn is_space(c: char) -> bool {
    let n = c as u32;
    ||| 0x09 <= n <= 0x0D
    ||| n == 0x20
    ||| n == 0x85
    ||| n == 0xA0
    ||| n == 0x1680
    ||| 0x2000 <= n <= 0x200A
    ||| n == 0x2028
    ||| n == 0x2029
    ||| n == 0x202F
    ||| n == 0x205F
    ||| n == 0x3000
}

/// Tells whether a character is white space.
pub fn is_whitespace(c: char) -> (r: bool)
    ensures
        r == is_space(c),
{
    let n: u32 = c as u32;
    (0x09 <= n && n <= 0x0D) || n == 0x20 || n == 0x85 || n == 0xA0 || n == 0x1680 || (0x2000 <= n
        && n <= 0x200A) || n == 0x2028 || n == 0x2029 || n == 0x202F || n == 0x205F || n == 0x3000
}

/// The least index `i >= from` at which `is_space(s[i]) == space`, or the
/// length of `s` where there is none.
pub open spec fn scan(s: Seq<char>, from: int, space: bool) -> int
    decreases s.len() - from,
{
    if from >= s.len() {
        s.len() as int
    } else if is_space(s[from]) == space {
        from
    } else {
        scan(s, from + 1, space)
    }
}

/// Finds the first character at or after `from` that is white space (where
/// `space` holds) or is not (where it does not).
pub(crate) fn scan_from(v: &Vec<char>, from: usize, space: bool) -> (r: usize)
    requires
        from <= v.len(),
    ensures
        r == scan(v@, from as int, space),
        from <= r <= v.len(),
{
    let mut i: usize = from;
    while i < v.len() && is_whitespace(v[i]) != space
        invariant
            from <= i <= v.len(),
            scan(v@, from as int, space) == scan(v@, i as int, space),
        decreases v.len() - i,
    {
        i += 1;
    }
    i
}

/// An ASCII decimal digit.
pub open spec fn is_digit(c: char) -> bool {
    0x30 <= c as u32 <= 0x39
}

/// The number that a decimal digit stands for.
pub open spec fn digit_value(c: char) -> nat {
    (c as u32 - 0x30) as nat
}

/// Every character is a decimal digit.
pub open spec fn all_digits(s: Seq<char>) -> bool {
    forall|i: int| 0 <= i < s.len() ==> is_digit(#[trigger] s[i])
}

/// The number written by a sequence of decimal digits, most significant first.
pub open spec fn decimal_value(s: Seq<char>) -> nat
    decreases s.len(),
{
    if s.len() == 0 {
        0
    } else {
        10 * decimal_value(s.drop_last()) + digit_value(s.last())
    }
}

/// What is left of a number's text once one leading `+` is taken off.
pub open spec fn unsigned_digits(s: Seq<char>) -> Seq<char> {
    if s.len() > 0 && s[0] == '+' {
        s.skip(1)
    } else {
        s
    }
}

/// The unsigned 16-bit number that a text writes: an optional `+`, then one or
/// more decimal digits whose value is at most 65535. Any other text writes none.
pub open spec fn decimal_u16(s: Seq<char>) -> Option<u16> {
    let d = unsigned_digits(s);
    if d.len() > 0 && all_digits(d) && decimal_value(d) <= u16::MAX {
        Some(decimal_value(d) as u16)
    } else {
        None
    }
}

/// A number never gets smaller when a digit is written after it.
pub proof fn lemma_decimal_value_grows(s: Seq<char>, n: int)
    requires
        0 <= n <= s.len(),
    ensures
        decimal_value(s.take(n)) <= decimal_value(s),
    decreases s.len() - n,
{
    if n == s.len() {
        assert(s.take(n) == s);
    } else {
        lemma_decimal_value_grows(s.drop_last(), n);
        assert(s.drop_last().take(n) == s.take(n));
    }
}

/// Reads `v[start..end]` as an unsigned 16-bit decimal number.
pub(crate) fn parse_u16_at(v: &Vec<char>, start: usize, end: usize) -> (r: Option<u16>)
    requires
        start <= end <= v.len(),
    ensures
        r == decimal_u16(v@.subrange(start as int, end as int)),
{
    let ghost text = v@.subrange(start as int, end as int);
    let mut i: usize = start;
    if start < end && v[start] == '+' {
        i = start + 1;
    }
    let first: usize = i;
    let ghost d = unsigned_digits(text);
    assert(d == v@.subrange(first as int, end as int));
    if first == end {
        return None;
    }
    let mut value: u32 = 0;
    while i < end
        invariant
            start <= first <= i <= end <= v.len(),
            text == v@.subrange(start as int, end as int),
            d == unsigned_digits(text),
            d == v@.subrange(first as int, end as int),
            all_digits(d.take(i - first)),
            value == decimal_value(d.take(i - first)),
            value <= u16::MAX,
        decreases end - i,
    {
        let n: u32 = v[i] as u32;
        let ghost before = d.take(i - first);
        let ghost after = d.take(i + 1 - first);
        assert(after.drop_last() == before);
        assert(after.last() == v@[i as int]);
        if n < 0x30 || n > 0x39 {
            assert(!is_digit(d[i - first]));
            return None;
        }
        value = value * 10 + (n - 0x30);
        if value > 0xFFFF {
            proof {
                lemma_decimal_value_grows(d, i + 1 - first);
            }
            return None;
        }
        i += 1;
    }
    assert(d.take(end - first) == d);
    Some(value as u16)
}

/// Reads a text as an unsigned 16-bit decimal number.
pub fn parse_u16(text: &str) -> (r: Option<u16>)
    ensures
        r == decimal_u16(text@),
{
    let v = chars_of(text);
    assert(v@.subrange(0, v.len() as int) == v@);
    parse_u16_at(&v, 0, v.len())
}

/// The digit character for a number below ten.
pub open spec fn digit_char(d: nat) -> char
    recommends
        d < 10,
{
    (0x30 + d) as char
}

/// The decimal text of a number, without sign or leading zeros.
pub open spec fn decimal(n: nat) -> Seq<char>
    decreases n,
{
    if n < 10 {
        seq![digit_char(n)]
    } else {
        decimal(n / 10).push(digit_char(n % 10))
    }
}

/// What is written as a number reads as that number: the decimal text of a
/// number is made of digits, begins with no sign, and has the number as its
/// value; where the number fits in 16 bits, reading its text gives it back.
pub proof fn law_decimal_round_trip(n: nat)
    ensures
        decimal(n).len() > 0,
        all_digits(decimal(n)),
        decimal_value(decimal(n)) == n,
        n <= u16::MAX ==> decimal_u16(decimal(n)) == Some(n as u16),
    decreases n,
{
    let text = decimal(n);
    if n < 10 {
        assert(text.drop_last() =~= Seq::<char>::empty());
        assert(decimal_value(text.drop_last()) == 0);
        assert(digit_char(n) as u32 == 0x30 + n);
        assert(text.last() == digit_char(n));
    } else {
        law_decimal_round_trip(n / 10);
        assert(text.drop_last() =~= decimal(n / 10));
        assert(digit_char(n % 10) as u32 == 0x30 + n % 10);
        assert(text.last() == digit_char(n % 10));
        assert forall|i: int| 0 <= i < text.len() implies is_digit(#[trigger] text[i]) by {
            if i < text.len() - 1 {
                assert(text[i] == decimal(n / 10)[i]);
            }
        }
    }
    assert(is_digit(text[0]));
    assert(text[0] != '+');
}

/// Writes the decimal text of `n` at the end of `s`.
pub fn push_decimal(s: &mut String, n: usize)
    ensures
        final(s)@ == old(s)@ + decimal(n as nat),
    decreases n,
{
    if n >= 10 {
        push_decimal(s, n / 10);
    }
    let d: u8 = (n % 10) as u8;
    let c: char = (0x30u8 + d) as char;
    push_char(s, c);
    assert(c == digit_char((n % 10) as nat));
    assert(final(s)@ == old(s)@ + decimal(n as nat));
}

/// The index of the first line feed at or after `from`, or the length of `s`
/// where there is none.
pub open spec fn line_break(s: Seq<char>, from: int) -> int
    decreases s.len() - from,
{
    if from >= s.len() {
        s.len() as int
    } else if s[from] == '\n' {
        from
    } else {
        line_break(s, from + 1)
    }
}

/// The line that starts at `from`: it runs up to the next line feed, and where
/// a carriage return stands directly before that line feed it is left out too.
/// A carriage return that no line feed follows belongs to the line.
pub open spec fn line_at(s: Seq<char>, from: int) -> Seq<char> {
    let end = line_break(s, from);
    if end < s.len() && from < end && s[end - 1] == '\r' {
        s.subrange(from, end - 1)
    } else {
        s.subrange(from, end)
    }
}

/// The lines of a text from `from` on. A text that ends in a line feed has no
/// empty last line.
pub open spec fn lines_from(s: Seq<char>, from: int) -> Seq<Seq<char>>
    decreases s.len() - from,
{
    if from < 0 || from >= s.len() {
        Seq::empty()
    } else if line_break(s, from) >= s.len() {
        seq![line_at(s, from)]
    } else {
        proof {
            lemma_line_break_bounds(s, from);
        }
        seq![line_at(s, from)] + lines_from(s, line_break(s, from) + 1)
    }
}

/// The first line of a text, or the empty text where it has no line.
pub open spec fn first_line_of(s: Seq<char>) -> Seq<char> {
    line_at(s, 0)
}

/// A line ends at or after its start, and within the text.
pub proof fn lemma_line_break_bounds(s: Seq<char>, from: int)
    requires
        0 <= from <= s.len(),
    ensures
        from <= line_break(s, from) <= s.len(),
    decreases s.len() - from,
{
    if from < s.len() && s[from] != '\n' {
        lemma_line_break_bounds(s, from + 1);
    }
}

/// Finds the end of the line that starts at `from`: the index of its line feed,
/// or the length of the text.
pub(crate) fn find_line_break(v: &Vec<char>, from: usize) -> (r: usize)
    requires
        from <= v.len(),
    ensures
        r == line_break(v@, from as int),
        from <= r <= v.len(),
{
    let mut i: usize = from;
    while i < v.len() && v[i] != '\n'
        invariant
            from <= i <= v.len(),
            line_break(v@, from as int) == line_break(v@, i as int),
        decreases v.len() - i,
    {
        i += 1;
    }
    i
}

/// Where the line that starts at `from` and breaks at `end` stops once its
/// carriage return is left out.
pub(crate) fn line_end(v: &Vec<char>, from: usize, end: usize) -> (r: usize)
    requires
        from <= end <= v.len(),
        end == line_break(v@, from as int),
    ensures
        from <= r <= end,
        v@.subrange(from as int, r as int) == line_at(v@, from as int),
{
    if end < v.len() && from < end && v[end - 1] == '\r' {
        end - 1
    } else {
        end
    }
}

/// Tells whether `v[start..end]` begins with the characters of `prefix`.
pub(crate) fn starts_with_at(v: &Vec<char>, start: usize, end: usize, prefix: &Vec<char>) -> (r: bool)
    requires
        start <= end <= v.len(),
    ensures
        r == prefix@.is_prefix_of(v@.subrange(start as int, end as int)),
{
    let ghost text = v@.subrange(start as int, end as int);
    if prefix.len() > end - start {
        return false;
    }
    let mut i: usize = 0;
    while i < prefix.len()
        invariant
            start <= end <= v.len(),
            text == v@.subrange(start as int, end as int),
            prefix.len() <= end - start,
            i <= prefix.len(),
            forall|j: int| 0 <= j < i ==> prefix@[j] == text[j],
        decreases prefix.len() - i,
    {
        if v[start + i] != prefix[i] {
            assert(text[i as int] != prefix@[i as int]);
            assert(text.subrange(0, prefix@.len() as int)[i as int] == text[i as int]);
            return false;
        }
        i += 1;
    }
    assert(text.subrange(0, prefix@.len() as int) =~= prefix@);
    true
}

/// The text of an optional string.
pub open spec fn text_of(s: Option<String>) -> Option<Seq<char>> {
    match s {
        Some(t) => Some(t@),
        None => None,
    }
}

/// The texts of a sequence of strings, in order.
pub open spec fn texts_of(parts: Seq<String>) -> Seq<Seq<char>> {
    Seq::new(parts.len(), |i: int| parts[i]@)
}

/// Puts a string at the end of a list of strings.
pub fn push_text(list: &mut Vec<String>, text: String)
    ensures
        texts_of(final(list)@) == texts_of(old(list)@).push(text@),
{
    list.push(text);
    assert(texts_of(list@) =~= texts_of(old(list)@).push(text@));
}

/// Puts a copy of a string slice at the end of a list of strings.
pub fn push_str(list: &mut Vec<String>, text: &str)
    ensures
        texts_of(final(list)@) == texts_of(old(list)@).push(text@),
{
    push_text(list, String::from_str(text));
}

/// The parts written one after the other with `separator` between each two.
pub open spec fn joined(parts: Seq<Seq<char>>, separator: Seq<char>) -> Seq<char>
    decreases parts.len(),
{
    if parts.len() == 0 {
        Seq::empty()
    } else if parts.len() == 1 {
        parts[0]
    } else {
        joined(parts.drop_last(), separator) + separator + parts.last()
    }
}

/// Joins strings with a separator between each two.
pub fn join(parts: &[String], separator: &str) -> (text: String)
    ensures
        text@ == joined(texts_of(parts@), separator@),
{
    let ghost all = texts_of(parts@);
    let mut text = String::new();
    if parts.len() == 0 {
        return text;
    }
    text.append(parts[0].as_str());
    assert(all.take(1) == seq![parts@[0]@]);
    let mut i: usize = 1;
    while i < parts.len()
        invariant
            1 <= i <= parts.len(),
            all == texts_of(parts@),
            text@ == joined(all.take(i as int), separator@),
        decreases parts.len() - i,
    {
        text.append(separator);
        text.append(parts[i].as_str());
        i += 1;
        assert(all.take(i as int).drop_last() == all.take(i - 1));
    }
    assert(all.take(parts.len() as int) == all);
    text
}

/// The index of the first `c` at or after `from`, or the length of `s` where
/// there is none.
pub open spec fn position(s: Seq<char>, c: char, from: int) -> int
    decreases s.len() - from,
{
    if from >= s.len() {
        s.len() as int
    } else if s[from] == c {
        from
    } else {
        position(s, c, from + 1)
    }
}

/// A character is found at or after the place where the search starts, and
/// within the text.
pub proof fn lemma_position_bounds(s: Seq<char>, c: char, from: int)
    requires
        0 <= from <= s.len(),
    ensures
        from <= position(s, c, from) <= s.len(),
    decreases s.len() - from,
{
    if from < s.len() && s[from] != c {
        lemma_position_bounds(s, c, from + 1);
    }
}

/// Finds the first `c` in `v[from..end]`.
pub(crate) fn find_char(v: &Vec<char>, c: char, from: usize, end: usize) -> (r: usize)
    requires
        from <= end <= v.len(),
    ensures
        from <= r <= end,
        r - from == position(v@.subrange(from as int, end as int), c, 0),
{
    let ghost text = v@.subrange(from as int, end as int);
    let mut i: usize = from;
    while i < end && v[i] != c
        invariant
            from <= i <= end <= v.len(),
            text == v@.subrange(from as int, end as int),
            position(text, c, 0) == position(text, c, i - from),
        decreases end - i,
    {
        i += 1;
    }
    i
}

/// Where the text ends once the white space at its end is taken off: the
/// least index from which on every character before `upto` is white space.
pub open spec fn trim_end(s: Seq<char>, upto: int) -> int
    decreases upto,
{
    if upto <= 0 {
        0
    } else if !is_space(s[upto - 1]) {
        upto
    } else {
        trim_end(s, upto - 1)
    }
}

/// A text without the white space at its beginning and at its end.
pub open spec fn trimmed(s: Seq<char>) -> Seq<char> {
    let start = scan(s, 0, false);
    let end = trim_end(s, s.len() as int);
    if start < end {
        s.subrange(start, end)
    } else {
        Seq::empty()
    }
}

/// The bounds of `v[from..end]` without the white space at its beginning and
/// at its end.
pub(crate) fn trim_bounds(v: &Vec<char>, from: usize, end: usize) -> (r: (usize, usize))
    requires
        from <= end <= v.len(),
    ensures
        from <= r.0 <= r.1 <= end,
        v@.subrange(r.0 as int, r.1 as int) == trimmed(v@.subrange(from as int, end as int)),
{
    let ghost text = v@.subrange(from as int, end as int);
    let mut a: usize = from;
    while a < end && is_whitespace(v[a])
        invariant
            from <= a <= end <= v.len(),
            text == v@.subrange(from as int, end as int),
            scan(text, 0, false) == scan(text, a - from, false),
        decreases end - a,
    {
        a += 1;
    }
    let mut b: usize = end;
    while b > from && is_whitespace(v[b - 1])
        invariant
            from <= b <= end <= v.len(),
            text == v@.subrange(from as int, end as int),
            trim_end(text, text.len() as int) == trim_end(text, b - from),
        decreases b,
    {
        b -= 1;
    }
    if a < b {
        assert(text.subrange(a - from, b - from) == v@.subrange(a as int, b as int));
        (a, b)
    } else {
        assert(v@.subrange(a as int, a as int) == Seq::<char>::empty());
        (a, a)
    }
}

/// The fields of a text from `from` on: the stretches between one `c` and
/// the next. A text without `c` is one field, and a `c` at the end is followed
/// by an empty field.
pub open spec fn fields_from(s: Seq<char>, c: char, from: int) -> Seq<Seq<char>>
    decreases s.len() - from,
{
    if from < 0 || from > s.len() {
        Seq::empty()
    } else if position(s, c, from) >= s.len() {
        seq![s.subrange(from, s.len() as int)]
    } else {
        proof {
            lemma_position_bounds(s, c, from);
        }
        seq![s.subrange(from, position(s, c, from))] + fields_from(s, c, position(s, c, from) + 1)
    }
}

/// `part` stands in `text` at index `i`.
pub open spec fn occurs_at(text: Seq<char>, part: Seq<char>, i: int) -> bool {
    0 <= i && i + part.len() <= text.len() && text.subrange(i, i + part.len()) == part
}

/// A text has `part` somewhere in it.
pub open spec fn has_substring(text: Seq<char>, part: Seq<char>) -> bool {
    exists|i: int| occurs_at(text, part, i)
}

/// Tells whether `part` occurs in `text`.
pub fn contains_chars(text: &Vec<char>, part: &Vec<char>) -> (r: bool)
    ensures
        r == has_substring(text@, part@),
{
    if part.len() > text.len() {
        return false;
    }
    let last: usize = text.len() - part.len();
    let mut i: usize = 0;
    while i <= last
        invariant
            last == text.len() - part.len(),
            i <= last + 1,
            forall|j: int| 0 <= j < i ==> !occurs_at(text@, part@, j),
        decreases last + 1 - i,
    {
        assert(text@.subrange(i as int, text.len() as int).subrange(0, part.len() as int)
            == text@.subrange(i as int, i + part.len()));
        if starts_with_at(text, i, text.len(), part) {
            assert(occurs_at(text@, part@, i as int));
            return true;
        }
        i += 1;
    }
    false
}

/// The lowercase form of a text as Unicode defines it, whatever the locale.
pub uninterp spec fn lowercase(s: Seq<char>) -> Seq<char>;

/// The lowercase form of a text (`str::to_lowercase`), which depends on the
/// text alone.
#[verifier::external_body]
pub(crate) fn to_lowercase(s: &str) -> (lowered: String)
    ensures
        lowered@ == lowercase(s@),
{
    s.to_lowercase()
}

/// Splits a text into its lines.
pub fn split_lines(text: &str) -> (lines: Vec<String>)
    ensures
        texts_of(lines@) == lines_from(text@, 0),
{
    let v = chars_of(text);
    let mut lines: Vec<String> = Vec::new();
    let mut from: usize = 0;
    assert(texts_of(lines@) =~= Seq::<Seq<char>>::empty());
    while from < v.len()
        invariant
            from <= v.len(),
            v@ == text@,
            texts_of(lines@) + lines_from(v@, from as int) == lines_from(v@, 0),
        decreases v.len() - from,
    {
        let end = find_line_break(&v, from);
        let stop = line_end(&v, from, end);
        let ghost before = texts_of(lines@);
        push_text(&mut lines, string_from(&v, from, stop));
        assert(before.push(line_at(v@, from as int)) + lines_from(v@, end + 1) =~= before + (
            seq![line_at(v@, from as int)] + lines_from(v@, end + 1)));
        assert(before.push(line_at(v@, from as int)) =~= before + seq![line_at(v@, from as int)]);
        if end >= v.len() {
            assert(lines_from(v@, v.len() as int) =~= Seq::<Seq<char>>::empty());
            from = v.len();
        } else {
            from = end + 1;
        }
    }
    assert(lines_from(v@, from as int) =~= Seq::<Seq<char>>::empty());
    assert(texts_of(lines@) + Seq::<Seq<char>>::empty() =~= texts_of(lines@));
    lines
}

/// Splits a text into its fields at each `c`.
pub fn split_fields(text: &str, c: char) -> (fields: Vec<String>)
    ensures
        texts_of(fields@) == fields_from(text@, c, 0),
{
    let v = chars_of(text);
    let mut fields: Vec<String> = Vec::new();
    let mut from: usize = 0;
    let mut more = true;
    assert(texts_of(fields@) =~= Seq::<Seq<char>>::empty());
    while more
        invariant
            from <= v.len(),
            v@ == text@,
            more ==> texts_of(fields@) + fields_from(v@, c, from as int) == fields_from(v@, c, 0),
            !more ==> texts_of(fields@) == fields_from(v@, c, 0),
        decreases v.len() - from + if more {
            1int
        } else {
            0int
        },
    {
        let end = find_char(&v, c, from, v.len());
        let ghost before = texts_of(fields@);
        proof {
            lemma_position_shift(v@, c, from as int);
        }
        push_text(&mut fields, string_from(&v, from, end));
        if end >= v.len() {
            assert(before.push(v@.subrange(from as int, v.len() as int)) =~= before + seq![
                v@.subrange(from as int, v.len() as int),
            ]);
            more = false;
        } else {
            assert(before.push(v@.subrange(from as int, end as int)) + fields_from(v@, c, end + 1)
                =~= before + (seq![v@.subrange(from as int, end as int)] + fields_from(
                v@,
                c,
                end + 1,
            )));
            from = end + 1;
        }
    }
    fields
}

/// Searching the rest of a text finds what searching the text from that
/// place on finds.
pub proof fn lemma_position_shift(s: Seq<char>, c: char, from: int)
    requires
        0 <= from <= s.len(),
    ensures
        position(s, c, from) == from + position(s.subrange(from, s.len() as int), c, 0),
{
    lemma_position_shift_by(s, c, from, 0);
}

/// The same, from any place in the rest.
pub proof fn lemma_position_shift_by(s: Seq<char>, c: char, from: int, k: int)
    requires
        0 <= from <= s.len(),
        0 <= k <= s.len() - from,
    ensures
        position(s, c, from + k) == from + position(s.subrange(from, s.len() as int), c, k),
    decreases s.len() - from - k,
{
    let rest = s.subrange(from, s.len() as int);
    if k < rest.len() {
        assert(rest[k] == s[from + k]);
        if s[from + k] != c {
            lemma_position_shift_by(s, c, from, k + 1);
        }
    }
}

/// Tells whether two texts are the same.
pub fn same_text(a: &str, b: &str) -> (r: bool)
    ensures
        r == (a@ == b@),
{
    let x = chars_of(a);
    let y = chars_of(b);
    if x.len() != y.len() {
        return false;
    }
    assert(x@.subrange(0, x.len() as int) == x@);
    let same = starts_with_at(&x, 0, x.len(), &y);
    assert(same ==> x@ =~= y@);
    same
}

/// A text without the white space at its beginning and at its end.
pub fn trim(text: &str) -> (kept: String)
    ensures
        kept@ == trimmed(text@),
{
    let v = chars_of(text);
    assert(v@.subrange(0, v.len() as int) == v@);
    let (a, b) = trim_bounds(&v, 0, v.len());
    string_from(&v, a, b)
}

/// The fields of a list that is separated by commas, each without the white
/// space around it.
pub open spec fn listed(list: Seq<char>) -> Seq<Seq<char>> {
    fields_from(list, ',', 0).map_values(|field: Seq<char>| trimmed(field))
}

/// Splits a list that is separated by commas, and trims each field.
pub fn split_list(list: &str) -> (names: Vec<String>)
    ensures
        texts_of(names@) == listed(list@),
{
    let fields = split_fields(list, ',');
    let mut names: Vec<String> = Vec::new();
    let mut i: usize = 0;
    while i < fields.len()
        invariant
            i <= fields.len(),
            names.len() == i,
            forall|j: int| 0 <= j < i ==> names@[j]@ == trimmed(fields@[j]@),
        decreases fields.len() - i,
    {
        names.push(trim(fields[i].as_str()));
        i += 1;
    }
    assert(texts_of(names@) =~= listed(list@));
    names
}

/// Tells whether a text is among the texts of a list.
pub fn is_listed(names: &Vec<String>, name: &str) -> (r: bool)
    ensures
        r == texts_of(names@).contains(name@),
{
    let mut i: usize = 0;
    while i < names.len()
        invariant
            i <= names.len(),
            forall|j: int| 0 <= j < i ==> texts_of(names@)[j] != name@,
        decreases names.len() - i,
    {
        if same_text(names[i].as_str(), name) {
            assert(texts_of(names@)[i as int] == name@);
            return true;
        }
        i += 1;
    }
    false
}

} // verus!
