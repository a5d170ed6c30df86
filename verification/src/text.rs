//! Text primitives shared by the rest of the library: Unicode white space,
//! trimming, splitting into lines and words, decimal printing and parsing.

use vstd::prelude::*;

verus! {

/// The Unicode `White_Space` property, which `char::is_whitespace` reports.
pub open spec fn is_ws(c: char) -> bool {
    let u = c as u32;
    ||| 0x9 <= u <= 0xd
    ||| u == 0x20
    ||| u == 0x85
    ||| u == 0xa0
    ||| u == 0x1680
    ||| 0x2000 <= u <= 0x200a
    ||| u == 0x2028
    ||| u == 0x2029
    ||| u == 0x202f
    ||| u == 0x205f
    ||| u == 0x3000
}

/// Whether a character has the Unicode `White_Space` property, as
/// `char::is_whitespace` reports it.
pub fn is_white_space(c: char) -> (r: bool)
    ensures
        r == is_ws(c),
{
    let u = c as u32;
    (0x9 <= u && u <= 0xd) || u == 0x20 || u == 0x85 || u == 0xa0 || u == 0x1680 || (0x2000 <= u
        && u <= 0x200a) || u == 0x2028 || u == 0x2029 || u == 0x202f || u == 0x205f || u == 0x3000
}

/// `String::from_iter` over characters: the string holds exactly the given
/// characters, in order.
#[verifier::external_body]
pub(crate) fn string_from_chars(v: &Vec<char>) -> (r: String)
    ensures
        r@ == v@,
{
    v.iter().collect::<String>()
}

/// The characters of a string, in order.
pub fn chars_of(s: &str) -> (v: Vec<char>)
    ensures
        v@ == s@,
{
    let mut v: Vec<char> = Vec::new();
    for c in it: s.chars()
        invariant
            it.seq() == s@,
            v@ == it.seq().take(it.index() as int),
    {
        v.push(c);
    }
    v
}


/// White space removed from the front.
pub open spec fn trim_start_ws(s: Seq<char>) -> Seq<char>
    decreases s.len(),
{
    if s.len() > 0 && is_ws(s[0]) {
        trim_start_ws(s.drop_first())
    } else {
        s
    }
}

/// White space removed from the back.
pub open spec fn trim_end_ws(s: Seq<char>) -> Seq<char>
    decreases s.len(),
{
    if s.len() > 0 && is_ws(s.last()) {
        trim_end_ws(s.drop_last())
    } else {
        s
    }
}

/// What `str::trim` gives: white space removed from both ends.
pub open spec fn trim_ws(s: Seq<char>) -> Seq<char> {
    trim_end_ws(trim_start_ws(s))
}

proof fn lemma_trim_start_at(s: Seq<char>, i: int)
    requires
        0 <= i <= s.len(),
        forall|k: int| 0 <= k < i ==> is_ws(#[trigger] s[k]),
        i == s.len() || !is_ws(s[i]),
    ensures
        trim_start_ws(s) == s.skip(i),
    decreases i,
{
    if i == 0 {
        assert(s.skip(0) =~= s);
    } else {
        let t = s.drop_first();
        assert forall|k: int| 0 <= k < i - 1 implies is_ws(#[trigger] t[k]) by {
            assert(t[k] == s[k + 1]);
        }
        if i - 1 < t.len() {
            assert(t[i - 1] == s[i]);
        }
        lemma_trim_start_at(t, i - 1);
        assert(t.skip(i - 1) =~= s.skip(i));
    }
}

proof fn lemma_trim_end_at(s: Seq<char>, j: int)
    requires
        0 <= j <= s.len(),
        forall|k: int| j <= k < s.len() ==> is_ws(#[trigger] s[k]),
        j == 0 || !is_ws(s[j - 1]),
    ensures
        trim_end_ws(s) == s.take(j),
    decreases s.len() - j,
{
    if j == s.len() {
        assert(s.take(j) =~= s);
    } else {
        let t = s.drop_last();
        assert forall|k: int| j <= k < t.len() implies is_ws(#[trigger] t[k]) by {
            assert(t[k] == s[k]);
        }
        if j > 0 {
            assert(t[j - 1] == s[j - 1]);
        }
        lemma_trim_end_at(t, j);
        assert(t.take(j) =~= s.take(j));
    }
}

/// The bounds of the trimmed part of `s`: it is `s[start..end]`.
proof fn lemma_trim_bounds(s: Seq<char>, start: int, end: int)
    requires
        0 <= start <= end <= s.len(),
        forall|k: int| 0 <= k < start ==> is_ws(#[trigger] s[k]),
        start == s.len() || !is_ws(s[start]),
        forall|k: int| end <= k < s.len() ==> is_ws(#[trigger] s[k]),
        end == start || !is_ws(s[end - 1]),
    ensures
        trim_ws(s) == s.subrange(start, end),
{
    lemma_trim_start_at(s, start);
    let t = s.skip(start);
    assert forall|k: int| end - start <= k < t.len() implies is_ws(#[trigger] t[k]) by {
        assert(t[k] == s[k + start]);
    }
    if end - start > 0 {
        assert(t[end - start - 1] == s[end - 1]);
    }
    lemma_trim_end_at(t, end - start);
    assert(t.take(end - start) =~= s.subrange(start, end));
}

/// The characters `v[from..to]` as a string.
pub fn substring(v: &Vec<char>, from: usize, to: usize) -> (r: String)
    requires
        from <= to <= v.len(),
    ensures
        r@ == v@.subrange(from as int, to as int),
{
    let mut out: Vec<char> = Vec::new();
    let mut i = from;
    while i < to
        invariant
            from <= i <= to <= v.len(),
            out@ == v@.subrange(from as int, i as int),
        decreases to - i,
    {
        out.push(v[i]);
        proof {
            assert(out@ =~= v@.subrange(from as int, i + 1));
        }
        i = i + 1;
    }
    string_from_chars(&out)
}

/// `str::trim`: the string without leading and trailing white space.
pub fn trim(s: &str) -> (r: String)
    ensures
        r@ == trim_ws(s@),
{
    let v = chars_of(s);
    let n = v.len();
    let mut start: usize = 0;
    while start < n && is_white_space(v[start])
        invariant
            v@ == s@,
            n == v.len(),
            start <= n,
            forall|k: int| 0 <= k < start ==> is_ws(#[trigger] v@[k]),
        decreases n - start,
    {
        start = start + 1;
    }
    let mut end: usize = n;
    while end > start && is_white_space(v[end - 1])
        invariant
            v@ == s@,
            n == v.len(),
            start <= end <= n,
            forall|k: int| end <= k < n ==> is_ws(#[trigger] v@[k]),
        decreases end - start,
    {
        end = end - 1;
    }
    proof {
        lemma_trim_bounds(s@, start as int, end as int);
    }
    substring(&v, start, end)
}


/// The view of an optional string.
pub open spec fn opt_view(o: Option<String>) -> Option<Seq<char>> {
    match o {
        Some(t) => Some(t@),
        None => None,
    }
}

/// An optional form field: the trimmed text, or nothing when that is empty.
pub open spec fn opt_text(s: Seq<char>) -> Option<Seq<char>> {
    if trim_ws(s).len() == 0 {
        None
    } else {
        Some(trim_ws(s))
    }
}

/// Trims a field and drops it when nothing is left.
pub fn to_opt(s: String) -> (r: Option<String>)
    ensures
        opt_view(r) == opt_text(s@),
{
    let t = trim(s.as_str());
    if t.as_str().is_empty() {
        None
    } else {
        Some(t)
    }
}

/// `needle` occurs somewhere in `hay`.
pub open spec fn has_sub(hay: Seq<char>, needle: Seq<char>) -> bool {
    exists|i: int|
        0 <= i && i + needle.len() <= hay.len() && #[trigger] hay.subrange(i, i + needle.len())
            == needle
}

fn matches_at(hay: &Vec<char>, needle: &Vec<char>, i: usize) -> (r: bool)
    requires
        i + needle.len() <= hay.len(),
    ensures
        r == (hay@.subrange(i as int, i + needle.len()) == needle@),
{
    let m = needle.len();
    let mut k: usize = 0;
    while k < m
        invariant
            m == needle.len(),
            i + m <= hay.len(),
            k <= m,
            forall|j: int| 0 <= j < k ==> hay@[i + j] == needle@[j],
        decreases m - k,
    {
        if hay[i + k] != needle[k] {
            assert(hay@.subrange(i as int, i + m)[k as int] != needle@[k as int]);
            return false;
        }
        k = k + 1;
    }
    assert(hay@.subrange(i as int, i + m) =~= needle@);
    true
}

/// `str::contains` with a string pattern.
pub fn contains(hay: &str, needle: &str) -> (r: bool)
    ensures
        r == has_sub(hay@, needle@),
{
    let h = chars_of(hay);
    let nd = chars_of(needle);
    if nd.len() == 0 {
        assert(hay@.subrange(0int, 0int + needle@.len()) =~= needle@);
        return true;
    }
    if nd.len() > h.len() {
        return false;
    }
    let last = h.len() - nd.len();
    let mut i: usize = 0;
    while i <= last
        invariant
            h@ == hay@,
            nd@ == needle@,
            last + nd.len() == h.len(),
            nd.len() > 0,
            forall|j: int|
                0 <= j < i ==> #[trigger] hay@.subrange(j, j + needle@.len()) != needle@,
        decreases last + 1 - i,
    {
        if matches_at(&h, &nd, i) {
            return true;
        }
        i = i + 1;
    }
    false
}

/// The character of a decimal digit.
pub open spec fn digit_char(d: int) -> char {
    ((d + 48) as u32) as char
}

/// The decimal digits of `n`, as `Display` prints an unsigned integer.
pub open spec fn decimal(n: nat) -> Seq<char>
    decreases n,
{
    if n < 10 {
        seq![digit_char(n as int)]
    } else {
        decimal(n / 10).push(digit_char((n % 10) as int))
    }
}

fn digit_of(d: u64) -> (c: char)
    requires
        d < 10,
    ensures
        c == digit_char(d as int),
{
    ((d as u8) + 48u8) as char
}

fn decimal_chars(n: u64) -> (v: Vec<char>)
    ensures
        v@ == decimal(n as nat),
    decreases n,
{
    if n < 10 {
        let mut v: Vec<char> = Vec::new();
        v.push(digit_of(n));
        v
    } else {
        let mut v = decimal_chars(n / 10);
        v.push(digit_of(n % 10));
        v
    }
}

/// `n.to_string()` for an unsigned integer.
pub fn decimal_string(n: u64) -> (r: String)
    ensures
        r@ == decimal(n as nat),
{
    let v = decimal_chars(n);
    string_from_chars(&v)
}

/// The decimal text of a signed integer, as `Display` prints it.
pub open spec fn signed_decimal(i: int) -> Seq<char> {
    if i < 0 {
        seq!['-'] + decimal((-i) as nat)
    } else {
        decimal(i as nat)
    }
}

/// `i.to_string()` for an `i32`.
pub fn signed_decimal_string(i: i32) -> (r: String)
    ensures
        r@ == signed_decimal(i as int),
{
    if i < 0 {
        let m: i64 = -(i as i64);
        let mut v: Vec<char> = Vec::new();
        v.push('-');
        let d = decimal_chars(m as u64);
        let mut k: usize = 0;
        while k < d.len()
            invariant
                v@ == seq!['-'] + d@.take(k as int),
                k <= d.len(),
            decreases d.len() - k,
        {
            v.push(d[k]);
            proof {
                assert(v@ =~= seq!['-'] + d@.take(k + 1));
            }
            k = k + 1;
        }
        assert(d@.take(d.len() as int) =~= d@);
        string_from_chars(&v)
    } else {
        decimal_string(i as u64)
    }
}

/// A decimal digit character.
pub open spec fn is_digit(c: char) -> bool {
    '0' <= c && c <= '9'
}

/// The value of a run of decimal digits.
pub open spec fn digits_value(s: Seq<char>) -> nat
    decreases s.len(),
{
    if s.len() == 0 {
        0
    } else {
        digits_value(s.drop_last()) * 10 + ((s.last() as int - 48) as nat)
    }
}

/// Every character is a decimal digit.
pub open spec fn all_digits(s: Seq<char>) -> bool {
    forall|i: int| 0 <= i < s.len() ==> is_digit(#[trigger] s[i])
}

/// What `str::parse::<u32>` accepts: an optional `+`, then at least one
/// decimal digit and nothing else, of a value that fits in 32 bits.
pub open spec fn parse_u32_spec(s: Seq<char>) -> Option<u32> {
    let d = if s.len() > 0 && s[0] == '+' {
        s.drop_first()
    } else {
        s
    };
    if d.len() > 0 && all_digits(d) && digits_value(d) <= u32::MAX {
        Some(digits_value(d) as u32)
    } else {
        None
    }
}

proof fn lemma_digits_value_grows(s: Seq<char>, k: int)
    requires
        0 <= k <= s.len(),
        all_digits(s),
    ensures
        digits_value(s.take(k)) <= digits_value(s),
    decreases s.len() - k,
{
    if k < s.len() {
        let t = s.take(k + 1);
        assert(t.drop_last() =~= s.take(k));
        assert(is_digit(s[k]));
        lemma_digits_value_grows(s, k + 1);
    } else {
        assert(s.take(k) =~= s);
    }
}

/// `s.parse::<u32>().ok()`.
pub fn parse_u32(s: &str) -> (r: Option<u32>)
    ensures
        r == parse_u32_spec(s@),
{
    let v = chars_of(s);
    let n = v.len();
    let start: usize = if n > 0 && v[0] == '+' { 1 } else { 0 };
    let ghost d = if s@.len() > 0 && s@[0] == '+' { s@.drop_first() } else { s@ };
    assert(d =~= v@.skip(start as int));
    if start == n {
        return None;
    }
    let mut value: u64 = 0;
    let mut i: usize = start;
    while i < n
        invariant
            v@ == s@,
            n == v.len(),
            start <= i <= n,
            d == v@.skip(start as int),
            d == (if s@.len() > 0 && s@[0] == '+' { s@.drop_first() } else { s@ }),
            all_digits(d.take(i - start)),
            value == digits_value(d.take(i - start)),
            value <= u32::MAX,
        decreases n - i,
    {
        let c = v[i];
        if !('0' <= c && c <= '9') {
            assert(d[i - start] == c);
            assert(!is_digit(d[i - start]));
            assert(!all_digits(d));
            return None;
        }
        let digit = (c as u64) - 48;
        let ghost t = d.take(i - start + 1);
        assert(t.drop_last() =~= d.take(i - start));
        assert(t.last() == c);
        value = value * 10 + digit;
        assert(value == digits_value(t));
        assert forall|j: int| 0 <= j < t.len() implies is_digit(#[trigger] t[j]) by {
            if j < t.len() - 1 {
                assert(t[j] == d.take(i - start)[j]);
            }
        }
        if value > 0xffff_ffffu64 {
            proof {
                if all_digits(d) {
                    lemma_digits_value_grows(d, i - start + 1);
                    assert(digits_value(d) > u32::MAX);
                }
            }
            return None;
        }
        i = i + 1;
    }
    assert(d.take(n - start) =~= d);
    Some(value as u32)
}


/// The views of a list of strings.
pub open spec fn views(v: Seq<String>) -> Seq<Seq<char>> {
    v.map_values(|t: String| t@)
}

pub proof fn lemma_views_push(v: Seq<String>, t: String)
    ensures
        views(v.push(t)) == views(v).push(t@),
{
    assert(views(v.push(t)) =~= views(v).push(t@));
}

/// The number of characters before the first `\n`.
pub open spec fn line_len(s: Seq<char>) -> nat
    decreases s.len(),
{
    if s.len() == 0 || s[0] == '\n' {
        0
    } else {
        1 + line_len(s.drop_first())
    }
}

pub proof fn lemma_line_len_bound(s: Seq<char>)
    ensures
        line_len(s) <= s.len(),
        line_len(s) < s.len() ==> s[line_len(s) as int] == '\n',
    decreases s.len(),
{
    if s.len() > 0 && s[0] != '\n' {
        lemma_line_len_bound(s.drop_first());
    }
}

proof fn lemma_line_len_at(s: Seq<char>, j: int)
    requires
        0 <= j <= s.len(),
        forall|k: int| 0 <= k < j ==> #[trigger] s[k] != '\n',
        j == s.len() || s[j] == '\n',
    ensures
        line_len(s) == j,
    decreases j,
{
    if j > 0 {
        let t = s.drop_first();
        assert forall|k: int| 0 <= k < j - 1 implies #[trigger] t[k] != '\n' by {
            assert(t[k] == s[k + 1]);
        }
        if j < s.len() {
            assert(t[j - 1] == s[j]);
        }
        lemma_line_len_at(t, j - 1);
    }
}

/// A line that ended in `\r\n` loses its `\r`.
pub open spec fn strip_cr(l: Seq<char>) -> Seq<char> {
    if l.len() > 0 && l.last() == '\r' {
        l.drop_last()
    } else {
        l
    }
}

/// What `str::lines` yields: the text cut at each `\n`, a `\r` right
/// before a `\n` dropped, and no empty line after a final `\n`.
pub open spec fn lines_of(s: Seq<char>) -> Seq<Seq<char>>
    decreases s.len(),
{
    if s.len() == 0 {
        seq![]
    } else {
        let k = line_len(s);
        if k >= s.len() {
            seq![s]
        } else {
            seq![strip_cr(s.take(k as int))] + lines_of(s.skip(k as int + 1))
        }
    }
}

fn strip_cr_string(v: &Vec<char>, from: usize, to: usize) -> (r: String)
    requires
        from <= to <= v.len(),
    ensures
        r@ == strip_cr(v@.subrange(from as int, to as int)),
{
    if to > from && v[to - 1] == '\r' {
        let r = substring(v, from, to - 1);
        assert(v@.subrange(from as int, to as int).drop_last() =~= v@.subrange(
            from as int,
            to - 1,
        ));
        r
    } else {
        substring(v, from, to)
    }
}

/// `str::lines`, collected.
pub fn lines(s: &str) -> (r: Vec<String>)
    ensures
        views(r@) == lines_of(s@),
{
    let v = chars_of(s);
    let n = v.len();
    let mut out: Vec<String> = Vec::new();
    let mut pos: usize = 0;
    assert(s@.skip(0) =~= s@);
    while pos < n
        invariant
            v@ == s@,
            n == v.len(),
            pos <= n,
            lines_of(s@) == views(out@) + lines_of(s@.skip(pos as int)),
        decreases n - pos,
    {
        let mut j = pos;
        while j < n && v[j] != '\n'
            invariant
                v@ == s@,
                n == v.len(),
                pos <= j <= n,
                forall|k: int| pos <= k < j ==> #[trigger] v@[k] != '\n',
            decreases n - j,
        {
            j = j + 1;
        }
        let ghost rest = s@.skip(pos as int);
        proof {
            assert forall|k: int| 0 <= k < j - pos implies #[trigger] rest[k] != '\n' by {
                assert(rest[k] == v@[pos + k]);
            }
            if j < n {
                assert(rest[j - pos] == v@[j as int]);
            }
            lemma_line_len_at(rest, j - pos);
        }
        let ghost old_out = out@;
        if j == n {
            let line = substring(&v, pos, n);
            assert(rest =~= v@.subrange(pos as int, n as int));
            out.push(line);
            proof {
                lemma_views_push(old_out, line);
                assert(s@.skip(n as int) =~= Seq::<char>::empty());
                assert(lines_of(rest) =~= seq![rest]);
                assert(lines_of(Seq::<char>::empty()) =~= Seq::<Seq<char>>::empty());
                assert(views(out@) + lines_of(s@.skip(n as int)) =~= views(old_out) + lines_of(
                    rest,
                ));
            }
            pos = n;
        } else {
            let line = strip_cr_string(&v, pos, j);
            assert(rest.take(j - pos) =~= v@.subrange(pos as int, j as int));
            assert(rest.skip(j - pos + 1) =~= s@.skip(j + 1));
            out.push(line);
            proof {
                lemma_views_push(old_out, line);
                assert(lines_of(rest) == seq![line@] + lines_of(s@.skip(j + 1)));
                assert(views(out@) + lines_of(s@.skip(j + 1)) =~= views(old_out) + lines_of(
                    rest,
                ));
            }
            pos = j + 1;
        }
    }
    assert(s@.skip(n as int) =~= Seq::<char>::empty());
    assert(views(out@) + Seq::<Seq<char>>::empty() =~= views(out@));
    out
}

/// The number of characters before the first white space.
pub open spec fn word_len(s: Seq<char>) -> nat
    decreases s.len(),
{
    if s.len() == 0 || is_ws(s[0]) {
        0
    } else {
        1 + word_len(s.drop_first())
    }
}

pub proof fn lemma_word_len_bound(s: Seq<char>)
    ensures
        word_len(s) <= s.len(),
        s.len() > 0 && !is_ws(s[0]) ==> word_len(s) > 0,
    decreases s.len(),
{
    if s.len() > 0 && !is_ws(s[0]) {
        lemma_word_len_bound(s.drop_first());
    }
}

proof fn lemma_word_len_at(s: Seq<char>, j: int)
    requires
        0 <= j <= s.len(),
        forall|k: int| 0 <= k < j ==> !is_ws(#[trigger] s[k]),
        j == s.len() || is_ws(s[j]),
    ensures
        word_len(s) == j,
    decreases j,
{
    if j > 0 {
        let t = s.drop_first();
        assert forall|k: int| 0 <= k < j - 1 implies !is_ws(#[trigger] t[k]) by {
            assert(t[k] == s[k + 1]);
        }
        if j < s.len() {
            assert(t[j - 1] == s[j]);
        }
        lemma_word_len_at(t, j - 1);
    }
}

pub proof fn lemma_trim_start_shorter(s: Seq<char>)
    ensures
        trim_start_ws(s).len() <= s.len(),
        trim_start_ws(s).len() > 0 ==> !is_ws(trim_start_ws(s)[0]),
    decreases s.len(),
{
    if s.len() > 0 && is_ws(s[0]) {
        lemma_trim_start_shorter(s.drop_first());
    }
}

/// What `str::split_whitespace` yields: the maximal runs of characters
/// that are not white space.
pub open spec fn words_of(s: Seq<char>) -> Seq<Seq<char>>
    decreases s.len(),
{
    let t = trim_start_ws(s);
    if t.len() == 0 {
        seq![]
    } else {
        proof {
            lemma_trim_start_shorter(s);
            lemma_word_len_bound(t);
        }
        let k = word_len(t);
        seq![t.take(k as int)] + words_of(t.skip(k as int))
    }
}

/// `str::split_whitespace`, collected.
pub fn words(s: &str) -> (r: Vec<String>)
    ensures
        views(r@) == words_of(s@),
{
    let v = chars_of(s);
    let n = v.len();
    let mut out: Vec<String> = Vec::new();
    let mut pos: usize = 0;
    assert(s@.skip(0) =~= s@);
    loop
        invariant
            v@ == s@,
            n == v.len(),
            pos <= n,
            words_of(s@) == views(out@) + words_of(s@.skip(pos as int)),
        decreases n - pos,
    {
        let ghost rest = s@.skip(pos as int);
        let mut a = pos;
        while a < n && is_white_space(v[a])
            invariant
                v@ == s@,
                n == v.len(),
                pos <= a <= n,
                forall|k: int| pos <= k < a ==> is_ws(#[trigger] v@[k]),
            decreases n - a,
        {
            a = a + 1;
        }
        proof {
            assert forall|k: int| 0 <= k < a - pos implies is_ws(#[trigger] rest[k]) by {
                assert(rest[k] == v@[pos + k]);
            }
            if a < n {
                assert(rest[a - pos] == v@[a as int]);
            }
            lemma_trim_start_at(rest, a - pos);
            assert(rest.skip(a - pos) =~= s@.skip(a as int));
        }
        if a == n {
            proof {
                assert(s@.skip(a as int).len() == 0);
                assert(words_of(rest) =~= Seq::<Seq<char>>::empty());
                assert(views(out@) + words_of(rest) =~= views(out@));
            }
            return out;
        }
        let mut b = a;
        while b < n && !is_white_space(v[b])
            invariant
                v@ == s@,
                n == v.len(),
                a <= b <= n,
                forall|k: int| a <= k < b ==> !is_ws(#[trigger] v@[k]),
            decreases n - b,
        {
            b = b + 1;
        }
        let ghost t = s@.skip(a as int);
        proof {
            assert forall|k: int| 0 <= k < b - a implies !is_ws(#[trigger] t[k]) by {
                assert(t[k] == v@[a + k]);
            }
            if b < n {
                assert(t[b - a] == v@[b as int]);
            }
            lemma_word_len_at(t, b - a);
            assert(t.take(b - a) =~= v@.subrange(a as int, b as int));
            assert(t.skip(b - a) =~= s@.skip(b as int));
        }
        let word = substring(&v, a, b);
        let ghost old_out = out@;
        out.push(word);
        proof {
            lemma_views_push(old_out, word);
            assert(words_of(rest) == seq![word@] + words_of(s@.skip(b as int)));
            assert(views(out@) + words_of(s@.skip(b as int)) =~= views(old_out) + words_of(
                rest,
            ));
        }
        pos = b;
    }
}


/// `p` is a prefix of `s`.
pub open spec fn has_prefix(s: Seq<char>, p: Seq<char>) -> bool {
    p.len() <= s.len() && s.take(p.len() as int) == p
}

/// `str::starts_with` with a string pattern.
pub fn starts_with(s: &str, p: &str) -> (r: bool)
    ensures
        r == has_prefix(s@, p@),
{
    let sv = chars_of(s);
    let pv = chars_of(p);
    if pv.len() > sv.len() {
        return false;
    }
    let mut k: usize = 0;
    while k < pv.len()
        invariant
            sv@ == s@,
            pv@ == p@,
            pv.len() <= sv.len(),
            k <= pv.len(),
            forall|j: int| 0 <= j < k ==> sv@[j] == pv@[j],
        decreases pv.len() - k,
    {
        if sv[k] != pv[k] {
            assert(s@.take(p@.len() as int)[k as int] != p@[k as int]);
            return false;
        }
        k = k + 1;
    }
    assert(s@.take(p@.len() as int) =~= p@);
    true
}


/// Trimming twice is trimming once.
pub proof fn lemma_trim_idempotent(s: Seq<char>)
    ensures
        trim_ws(trim_ws(s)) == trim_ws(s),
{
    lemma_trim_start_shorter(s);
    let a = trim_start_ws(s);
    lemma_trim_end_keeps_front(a);
    let t = trim_end_ws(a);
    // `t` starts with a character that is not white space, or is empty.
    assert(trim_start_ws(t) == t);
    lemma_trim_end_fixed(t);
}

proof fn lemma_trim_end_keeps_front(s: Seq<char>)
    ensures
        trim_end_ws(s).len() <= s.len(),
        forall|k: int| 0 <= k < trim_end_ws(s).len() ==> #[trigger] trim_end_ws(s)[k] == s[k],
        trim_end_ws(s).len() > 0 ==> !is_ws(trim_end_ws(s).last()),
    decreases s.len(),
{
    if s.len() > 0 && is_ws(s.last()) {
        lemma_trim_end_keeps_front(s.drop_last());
    }
}

proof fn lemma_trim_end_fixed(t: Seq<char>)
    requires
        t.len() > 0 ==> !is_ws(t.last()),
    ensures
        trim_end_ws(t) == t,
{
}


proof fn lemma_digit_char(d: int)
    requires
        0 <= d < 10,
    ensures
        is_digit(digit_char(d)),
        digit_char(d) as int - 48 == d,
        digit_char(d) != '+',
{
    assert(((d + 48) as u32) as char as int == d + 48);
}

proof fn lemma_decimal_digits(n: nat)
    ensures
        decimal(n).len() > 0,
        all_digits(decimal(n)),
        digits_value(decimal(n)) == n,
    decreases n,
{
    if n < 10 {
        lemma_digit_char(n as int);
        let s = decimal(n);
        assert(s.drop_last() =~= Seq::<char>::empty());
        assert(s.last() == digit_char(n as int));
        assert(digits_value(Seq::<char>::empty()) == 0);
        assert(digits_value(s) == digits_value(s.drop_last()) * 10 + ((s.last() as int - 48) as nat));
    } else {
        lemma_decimal_digits(n / 10);
        lemma_digit_char((n % 10) as int);
        let s = decimal(n);
        assert(s.drop_last() =~= decimal(n / 10));
        assert(s.last() == digit_char((n % 10) as int));
        assert(digits_value(s) == digits_value(decimal(n / 10)) * 10 + ((s.last() as int - 48) as nat));
        assert((n / 10) * 10 + n % 10 == n);
        assert forall|i: int| 0 <= i < s.len() implies is_digit(#[trigger] s[i]) by {
            if i < s.len() - 1 {
                assert(s[i] == decimal(n / 10)[i]);
            }
        }
    }
}

/// Reading back the decimal text of a 32-bit number gives the number: a
/// number that a form reads is passed on unchanged.
pub proof fn lemma_decimal_parses_back(n: u32)
    ensures
        parse_u32_spec(decimal(n as nat)) == Some(n),
{
    lemma_decimal_digits(n as nat);
    let s = decimal(n as nat);
    assert(is_digit(s[0]));
}

/// An optional field that is kept is neither blank nor padded with white
/// space.
pub proof fn lemma_opt_text_trimmed(s: Seq<char>)
    ensures
        opt_text(s) matches Some(t) ==> t.len() > 0 && trim_ws(t) == t,
{
    lemma_trim_idempotent(s);
}

} // verus!
