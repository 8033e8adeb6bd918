//! Character and string helpers shared by the parsers and report builders.
use vstd::prelude::*;

verus! {

/// A character with the Unicode `White_Space` property (the set that `char::is_whitespace`
/// and `str::trim` use).
pub open spec fn is_white_space(c: char) -> bool {
    let n = c as u32;
    ||| 0x9 <= n <= 0xd
    ||| n == 0x20
    ||| n == 0x85
    ||| n == 0xa0
    ||| n == 0x1680
    ||| 0x2000 <= n <= 0x200a
    ||| n == 0x2028
    ||| n == 0x2029
    ||| n == 0x202f
    ||| n == 0x205f
    ||| n == 0x3000
}

/// A character of the Unicode general category `Cc` (the set that `char::is_control` tests).
pub open spec fn is_control_char(c: char) -> bool {
    let n = c as u32;
    n <= 0x1f || 0x7f <= n <= 0x9f
}

/// An ASCII decimal digit.
pub open spec fn is_ascii_digit(c: char) -> bool {
    '0' <= c && c <= '9'
}

pub fn char_is_white_space(c: char) -> (b: bool)
    ensures
        b == is_white_space(c),
{
    let n = c as u32;
    (0x9 <= n && n <= 0xd) || n == 0x20 || n == 0x85 || n == 0xa0 || n == 0x1680 || (0x2000 <= n
        && n <= 0x200a) || n == 0x2028 || n == 0x2029 || n == 0x202f || n == 0x205f || n == 0x3000
}

pub fn char_is_control(c: char) -> (b: bool)
    ensures
        b == is_control_char(c),
{
    let n = c as u32;
    n <= 0x1f || (0x7f <= n && n <= 0x9f)
}

pub fn char_is_ascii_digit(c: char) -> (b: bool)
    ensures
        b == is_ascii_digit(c),
{
    '0' <= c && c <= '9'
}

/// Index of the first character at or after `i` that is not white space (or the length).
pub open spec fn lead_end(s: Seq<char>, i: int) -> int
    decreases s.len() - i,
{
    if 0 <= i < s.len() && is_white_space(s[i]) {
        lead_end(s, i + 1)
    } else {
        i
    }
}

/// Index just past the last character before `j` that is not white space, not going below `lo`.
pub open spec fn trail_end(s: Seq<char>, lo: int, j: int) -> int
    decreases j - lo,
{
    if lo < j && j <= s.len() && is_white_space(s[j - 1]) {
        trail_end(s, lo, j - 1)
    } else {
        j
    }
}

/// `s` without leading and trailing white space, as `str::trim` gives it.
pub open spec fn trimmed(s: Seq<char>) -> Seq<char> {
    let a = lead_end(s, 0);
    s.subrange(a, trail_end(s, a, s.len() as int))
}

/// Every character of `s` is white space.
pub open spec fn all_white_space(s: Seq<char>) -> bool {
    forall|k: int| 0 <= k < s.len() ==> is_white_space(#[trigger] s[k])
}

/// Some character of `s` is a control character.
pub open spec fn has_control_char(s: Seq<char>) -> bool {
    exists|k: int| 0 <= k < s.len() && is_control_char(#[trigger] s[k])
}

pub proof fn lemma_lead_end_bounds(s: Seq<char>, i: int)
    requires
        0 <= i <= s.len(),
    ensures
        i <= lead_end(s, i) <= s.len(),
        forall|k: int| i <= k < lead_end(s, i) ==> is_white_space(#[trigger] s[k]),
        lead_end(s, i) < s.len() ==> !is_white_space(s[lead_end(s, i)]),
    decreases s.len() - i,
{
    if i < s.len() && is_white_space(s[i]) {
        lemma_lead_end_bounds(s, i + 1);
    }
}

pub proof fn lemma_trail_end_bounds(s: Seq<char>, lo: int, j: int)
    requires
        0 <= lo <= j <= s.len(),
    ensures
        lo <= trail_end(s, lo, j) <= j,
        forall|k: int| trail_end(s, lo, j) <= k < j ==> is_white_space(#[trigger] s[k]),
        lo < trail_end(s, lo, j) ==> !is_white_space(s[trail_end(s, lo, j) - 1]),
    decreases j - lo,
{
    if lo < j && is_white_space(s[j - 1]) {
        lemma_trail_end_bounds(s, lo, j - 1);
    }
}

/// The trimmed text is empty exactly when every character is white space.
pub proof fn lemma_trimmed_empty(s: Seq<char>)
    ensures
        (trimmed(s).len() == 0) == all_white_space(s),
{
    lemma_lead_end_bounds(s, 0);
    let a = lead_end(s, 0);
    lemma_trail_end_bounds(s, a, s.len() as int);
    if trimmed(s).len() == 0 {
        assert forall|k: int| 0 <= k < s.len() implies is_white_space(#[trigger] s[k]) by {
            if k >= a {
                assert(trail_end(s, a, s.len() as int) == a);
            }
        }
    } else {
        assert(!is_white_space(s[a]));
    }
}

/// The positions `(start, end)` such that `s.subrange(start, end)` is `trimmed(s)`.
pub fn trim_bounds(s: &Vec<char>) -> (r: (usize, usize))
    ensures
        r.0 == lead_end(s@, 0),
        r.1 == trail_end(s@, r.0 as int, s@.len() as int),
        r.0 <= r.1 <= s@.len(),
        s@.subrange(r.0 as int, r.1 as int) == trimmed(s@),
{
    let n = s.len();
    let mut a: usize = 0;
    while a < n && char_is_white_space(s[a])
        invariant
            a <= n == s@.len(),
            lead_end(s@, a as int) == lead_end(s@, 0),
        decreases n - a,
    {
        a = a + 1;
    }
    let mut b: usize = n;
    while b > a && char_is_white_space(s[b - 1])
        invariant
            a <= b <= n == s@.len(),
            trail_end(s@, a as int, b as int) == trail_end(s@, a as int, n as int),
        decreases b - a,
    {
        b = b - 1;
    }
    (a, b)
}

/// Copies `s.subrange(start, end)` into a new vector.
pub fn slice_chars(s: &Vec<char>, start: usize, end: usize) -> (out: Vec<char>)
    requires
        start <= end <= s@.len(),
    ensures
        out@ == s@.subrange(start as int, end as int),
{
    let mut out: Vec<char> = Vec::new();
    let mut i = start;
    while i < end
        invariant
            start <= i <= end <= s@.len(),
            out@ == s@.subrange(start as int, i as int),
        decreases end - i,
    {
        out.push(s[i]);
        i = i + 1;
    }
    out
}

/// `s` without its leading and trailing white space.
pub fn trim_chars(s: &Vec<char>) -> (out: Vec<char>)
    ensures
        out@ == trimmed(s@),
{
    let (a, b) = trim_bounds(s);
    slice_chars(s, a, b)
}

/// Copies the characters of `s` into a vector, in order.
pub fn chars_of(s: &str) -> (out: Vec<char>)
    ensures
        out@ == s@,
{
    let mut out: Vec<char> = Vec::new();
    for c in it: s.chars()
        invariant
            it.seq() == s@,
            out@ == it.seq().take(it.index() as int),
    {
        out.push(c);
    }
    out
}

/// Whether two character vectors hold the same text.
pub fn chars_equal(a: &Vec<char>, b: &Vec<char>) -> (eq: bool)
    ensures
        eq == (a@ == b@),
{
    if a.len() != b.len() {
        return false;
    }
    let mut i: usize = 0;
    while i < a.len()
        invariant
            a@.len() == b@.len(),
            i <= a@.len(),
            forall|k: int| 0 <= k < i ==> a@[k] == b@[k],
        decreases a@.len() - i,
    {
        if a[i] != b[i] {
            return false;
        }
        i = i + 1;
    }
    assert(a@ =~= b@);
    true
}

/// Builds a `String` from characters (`String: FromIterator<char>`).
#[verifier::external_body]
pub(crate) fn string_from_chars(v: &Vec<char>) -> (s: String)
    ensures
        s@ == v@,
{
    v.iter().collect()
}

/// The text of a two-digit, zero-padded decimal number.
pub open spec fn two_digits(n: int) -> Seq<char> {
    seq![(('0' as u32) + n / 10) as char, (('0' as u32) + n % 10) as char]
}

pub fn format_two_digits(n: u32) -> (s: String)
    requires
        n < 100,
    ensures
        s@ == two_digits(n as int),
{
    let tens = char_from_digit(n / 10);
    let ones = char_from_digit(n % 10);
    let mut v: Vec<char> = Vec::new();
    v.push(tens);
    v.push(ones);
    assert(v@ =~= two_digits(n as int));
    string_from_chars(&v)
}

/// The decimal digit character for `d`.
pub fn char_from_digit(d: u32) -> (c: char)
    requires
        d < 10,
    ensures
        c == (('0' as u32) + d) as char,
        is_ascii_digit(c),
{
    if d == 0 {
        '0'
    } else if d == 1 {
        '1'
    } else if d == 2 {
        '2'
    } else if d == 3 {
        '3'
    } else if d == 4 {
        '4'
    } else if d == 5 {
        '5'
    } else if d == 6 {
        '6'
    } else if d == 7 {
        '7'
    } else if d == 8 {
        '8'
    } else {
        '9'
    }
}

/// Decimal value of a sequence of ASCII digits.
pub open spec fn digits_value(s: Seq<char>) -> int
    decreases s.len(),
{
    if s.len() == 0 {
        0
    } else {
        digits_value(s.drop_last()) * 10 + ((s.last() as u32) - ('0' as u32))
    }
}

} // verus!

verus! {

/// Index of the first `c` in `s` at or after `i`, or the length when there is none.
pub open spec fn first_index_from(s: Seq<char>, c: char, i: int) -> int
    decreases s.len() - i,
{
    if i >= s.len() {
        s.len() as int
    } else if i >= 0 && s[i] == c {
        i
    } else {
        first_index_from(s, c, i + 1)
    }
}

pub proof fn lemma_first_index_from(s: Seq<char>, c: char, i: int)
    requires
        0 <= i <= s.len(),
    ensures
        i <= first_index_from(s, c, i) <= s.len(),
        forall|k: int| i <= k < first_index_from(s, c, i) ==> s[k] != c,
        first_index_from(s, c, i) < s.len() ==> s[first_index_from(s, c, i)] == c,
    decreases s.len() - i,
{
    if i < s.len() && s[i] != c {
        lemma_first_index_from(s, c, i + 1);
    }
}

/// Position of the first `c` at or after `from` (the length when there is none).
pub fn find_char(v: &Vec<char>, c: char, from: usize) -> (p: usize)
    requires
        from <= v@.len(),
    ensures
        p == first_index_from(v@, c, from as int),
        from <= p <= v@.len(),
{
    let mut i = from;
    while i < v.len() && v[i] != c
        invariant
            from <= i <= v@.len(),
            first_index_from(v@, c, i as int) == first_index_from(v@, c, from as int),
        decreases v@.len() - i,
    {
        i = i + 1;
    }
    i
}

/// Every character of `s[start..end]` is an ASCII digit.
pub open spec fn all_digits(s: Seq<char>) -> bool {
    forall|k: int| 0 <= k < s.len() ==> is_ascii_digit(#[trigger] s[k])
}

pub fn chars_all_digits(v: &Vec<char>, start: usize, end: usize) -> (b: bool)
    requires
        start <= end <= v@.len(),
    ensures
        b == all_digits(v@.subrange(start as int, end as int)),
{
    let mut i = start;
    while i < end
        invariant
            start <= i <= end <= v@.len(),
            all_digits(v@.subrange(start as int, i as int)),
        decreases end - i,
    {
        if !char_is_ascii_digit(v[i]) {
            assert(v@.subrange(start as int, end as int)[i - start] == v@[i as int]);
            return false;
        }
        i = i + 1;
    }
    true
}

/// The value of the (at most four) ASCII digits `v[start..end]`.
pub fn digits_to_u32(v: &Vec<char>, start: usize, end: usize) -> (n: u32)
    requires
        start <= end <= v@.len(),
        end - start <= 4,
        all_digits(v@.subrange(start as int, end as int)),
    ensures
        n == digits_value(v@.subrange(start as int, end as int)),
        n < 10000,
{
    let mut n: u32 = 0;
    let mut i = start;
    while i < end
        invariant
            start <= i <= end <= v@.len(),
            end - start <= 4,
            all_digits(v@.subrange(start as int, end as int)),
            n == digits_value(v@.subrange(start as int, i as int)),
            n < pow10((i - start) as nat),
        decreases end - i,
    {
        assert(is_ascii_digit(v@.subrange(start as int, end as int)[i - start]));
        let d = (v[i] as u32) - ('0' as u32);
        assert(v@.subrange(start as int, i + 1).drop_last() =~= v@.subrange(start as int, i as int));
        assert(pow10((i + 1 - start) as nat) == pow10((i - start) as nat) * 10);
        proof {
            lemma_pow10_small((i - start) as nat);
        }
        n = n * 10 + d;
        i = i + 1;
    }
    proof {
        lemma_pow10_small((end - start) as nat);
    }
    n
}

proof fn lemma_pow10_small(k: nat)
    requires
        k <= 4,
    ensures
        pow10(k) <= 10000,
        k <= 3 ==> pow10(k) <= 1000,
{
    reveal_with_fuel(pow10, 5);
}

pub open spec fn pow10(k: nat) -> int
    decreases k,
{
    if k == 0 {
        1
    } else {
        10 * pow10((k - 1) as nat)
    }
}

/// The text `{:?}` gives a string (quoted and escaped), as std's `Debug` for `str` writes it.
pub uninterp spec fn debug_text(s: Seq<char>) -> Seq<char>;

/// `format!("{:?}", s)`.
#[verifier::external_body]
pub(crate) fn debug_quoted(s: &str) -> (r: String)
    ensures
        r@ == debug_text(s@),
{
    format!("{s:?}")
}

/// The views of a sequence of strings.
pub open spec fn texts(ps: Seq<String>) -> Seq<Seq<char>> {
    ps.map_values(|p: String| p@)
}

pub fn clone_opt_string(o: &Option<String>) -> (r: Option<String>)
    ensures
        r == *o,
{
    match o {
        Some(s) => Some(s.clone()),
        None => None,
    }
}

pub fn clone_strings(v: &Vec<String>) -> (r: Vec<String>)
    ensures
        r@ == v@,
{
    let mut r: Vec<String> = Vec::new();
    let mut i: usize = 0;
    while i < v.len()
        invariant
            i <= v@.len(),
            r@ == v@.take(i as int),
        decreases v@.len() - i,
    {
        r.push(v[i].clone());
        assert(r@ =~= v@.take(i + 1));
        i = i + 1;
    }
    assert(v@.take(v@.len() as int) =~= v@);
    r
}

} // verus!

verus! {

/// The parts joined with `sep` between neighbours.
pub open spec fn join_texts(parts: Seq<Seq<char>>, sep: Seq<char>) -> Seq<char>
    decreases parts.len(),
{
    if parts.len() == 0 {
        Seq::empty()
    } else if parts.len() == 1 {
        parts[0]
    } else {
        join_texts(parts.drop_last(), sep) + sep + parts.last()
    }
}

/// `parts.join(sep)`.
pub fn join_strings(parts: &Vec<String>, sep: &str) -> (s: String)
    ensures
        s@ == join_texts(texts(parts@), sep@),
{
    let ghost ps = texts(parts@);
    let mut s = String::new();
    let mut i: usize = 0;
    while i < parts.len()
        invariant
            ps == texts(parts@),
            i <= parts@.len(),
            s@ == join_texts(ps.take(i as int), sep@),
        decreases parts@.len() - i,
    {
        assert(ps.take(i + 1).drop_last() =~= ps.take(i as int));
        assert(ps.take(i + 1).last() == parts@[i as int]@);
        if i > 0 {
            s.append(sep);
        }
        s.append(parts[i].as_str());
        i = i + 1;
    }
    assert(ps.take(parts@.len() as int) =~= ps);
    s
}


/// `line` stands in `text` at position `i` as a whole line: at the start or after a newline,
/// and followed by a newline or the end.
pub open spec fn is_line_at(text: Seq<char>, line: Seq<char>, i: int) -> bool {
    &&& 0 <= i
    &&& i + line.len() <= text.len()
    &&& i == 0 || text[i - 1] == '\n'
    &&& text.subrange(i, i + line.len()) == line
    &&& i + line.len() == text.len() || text[i + line.len()] == '\n'
}

/// `line` is one of the lines of `text`.
pub open spec fn is_line_of(text: Seq<char>, line: Seq<char>) -> bool {
    exists|i: int| #[trigger] is_line_at(text, line, i)
}

/// Every part of a newline-joined text is one of its lines.
pub proof fn lemma_joined_lines(parts: Seq<Seq<char>>, k: int)
    requires
        0 <= k < parts.len(),
    ensures
        is_line_of(join_texts(parts, "\n"@), parts[k]),
    decreases parts.len(),
{
    reveal_strlit("\n");
    let sep = "\n"@;
    let line = parts[k];
    if parts.len() == 1 {
        let text = join_texts(parts, sep);
        let i: int = 0;
        assert(text.subrange(i, i + line.len()) =~= line);
        assert(is_line_at(text, line, i));
    } else {
        let init = join_texts(parts.drop_last(), sep);
        let text = join_texts(parts, sep);
        assert(text == init + sep + parts.last());
        if k == parts.len() - 1 {
            let i: int = init.len() as int + 1;
            assert(text[i - 1] == '\n');
            assert(text.subrange(i, i + line.len()) =~= line);
            assert(is_line_at(text, line, i));
        } else {
            lemma_joined_lines(parts.drop_last(), k);
            assert(parts.drop_last()[k] == line);
            let i = choose|i: int| #[trigger] is_line_at(init, line, i);
            assert(text.subrange(i, i + line.len()) =~= init.subrange(i, i + line.len()));
            if i > 0 {
                assert(text[i - 1] == init[i - 1]);
            }
            if i + line.len() < init.len() {
                assert(text[i + line.len()] == init[i + line.len()]);
            } else {
                assert(text[i + line.len()] == '\n');
            }
            assert(is_line_at(text, line, i));
        }
    }
}

} // verus!
