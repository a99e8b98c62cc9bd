use vstd::prelude::*;

verus! {

broadcast use vstd::string::group_string_axioms;

/// The characters of a string slice, in order.
pub fn chars_of(s: &str) -> (v: Vec<char>)
    ensures
        v@ == s@,
{
    let mut v: Vec<char> = Vec::new();
    for c in it: s.chars()
        invariant
            it.seq() == s@,
            v@ == it.seq().take(it.index()),
    {
        v.push(c);
    }
    v
}

/// Appends one character to a string (std's `String::push`).
#[verifier::external_body]
pub(crate) fn push_char(s: &mut String, c: char)
    ensures
        final(s)@ == old(s)@.push(c),
{
    s.push(c);
}

/// Builds a string from a sequence of characters.
pub fn string_of_chars(v: &Vec<char>) -> (s: String)
    ensures
        s@ == v@,
{
    let mut s = String::new();
    let mut i: usize = 0;
    while i < v.len()
        invariant
            i <= v.len(),
            s@ == v@.take(i as int),
        decreases v.len() - i,
    {
        push_char(&mut s, v[i]);
        i = i + 1;
        assert(v@.take(i as int) == v@.take((i - 1) as int).push(v@[i - 1]));
    }
    assert(v@.take(v.len() as int) == v@);
    s
}

/// An owned copy of a string slice.
pub fn owned(s: &str) -> (r: String)
    ensures
        r@ == s@,
{
    s.to_string()
}

/// Concatenation of two string slices.
pub fn concat2(a: &str, b: &str) -> (r: String)
    ensures
        r@ == a@ + b@,
{
    let mut r = a.to_string();
    r.append(b);
    r
}

/// Concatenation of three string slices.
pub fn concat3(a: &str, b: &str, c: &str) -> (r: String)
    ensures
        r@ == a@ + b@ + c@,
{
    let mut r = a.to_string();
    r.append(b);
    r.append(c);
    r
}

/// Concatenation of four string slices.
pub fn concat4(a: &str, b: &str, c: &str, d: &str) -> (r: String)
    ensures
        r@ == a@ + b@ + c@ + d@,
{
    let mut r = a.to_string();
    r.append(b);
    r.append(c);
    r.append(d);
    r
}

/// Whether two strings hold the same characters.
pub fn text_eq(a: &str, b: &str) -> (r: bool)
    ensures
        r == (a@ == b@),
{
    let va = chars_of(a);
    let vb = chars_of(b);
    if va.len() != vb.len() {
        return false;
    }
    let mut i: usize = 0;
    while i < va.len()
        invariant
            va@ == a@,
            vb@ == b@,
            va.len() == vb.len(),
            i <= va.len(),
            forall|j: int| 0 <= j < i ==> va@[j] == vb@[j],
        decreases va.len() - i,
    {
        if va[i] != vb[i] {
            return false;
        }
        i = i + 1;
    }
    assert(va@ =~= vb@);
    true
}

/// `needle` occurs in `hay` starting at position `i`.
pub open spec fn occurs_at(hay: Seq<char>, needle: Seq<char>, i: int) -> bool {
    0 <= i && i + needle.len() <= hay.len() && hay.subrange(i, i + needle.len()) == needle
}

/// `needle` occurs somewhere in `hay` (the empty needle occurs everywhere).
pub open spec fn seq_contains(hay: Seq<char>, needle: Seq<char>) -> bool {
    exists|i: int| occurs_at(hay, needle, i)
}

fn matches_at(h: &Vec<char>, n: &Vec<char>, i: usize) -> (r: bool)
    requires
        i + n.len() <= h.len(),
    ensures
        r == occurs_at(h@, n@, i as int),
{
    let mut j: usize = 0;
    while j < n.len()
        invariant
            i + n.len() <= h.len(),
            j <= n.len(),
            forall|k: int| 0 <= k < j ==> h@[i + k] == n@[k],
        decreases n.len() - j,
    {
        if h[i + j] != n[j] {
            assert(h@.subrange(i as int, i + n.len())[j as int] != n@[j as int]);
            return false;
        }
        j = j + 1;
    }
    assert(h@.subrange(i as int, i + n.len()) =~= n@);
    true
}

/// Whether `needle` occurs in `hay` (std's `str::contains` with a `&str` pattern).
pub fn text_contains(hay: &str, needle: &str) -> (r: bool)
    ensures
        r == seq_contains(hay@, needle@),
{
    let h = chars_of(hay);
    let n = chars_of(needle);
    if n.len() > h.len() {
        assert forall|i: int| !occurs_at(hay@, needle@, i) by {}
        return false;
    }
    let last: usize = h.len() - n.len();
    let mut i: usize = 0;
    while i < last
        invariant
            h@ == hay@,
            n@ == needle@,
            n.len() <= h.len(),
            last == h.len() - n.len(),
            i <= last,
            forall|k: int| 0 <= k < i ==> !occurs_at(hay@, needle@, k),
        decreases last - i,
    {
        if matches_at(&h, &n, i) {
            return true;
        }
        i = i + 1;
    }
    if matches_at(&h, &n, last) {
        return true;
    }
    assert forall|k: int| !occurs_at(hay@, needle@, k) by {
        if 0 <= k && k < last {
        }
    }
    false
}

/// What std's `str::to_uppercase` makes of a text (Unicode case mapping).
pub uninterp spec fn uppercase(s: Seq<char>) -> Seq<char>;

/// What std's `str::to_lowercase` makes of a text (Unicode case mapping).
pub uninterp spec fn lowercase(s: Seq<char>) -> Seq<char>;

/// Whether a character has the Unicode `White_Space` property, as std's
/// `char::is_whitespace` documents it.
pub open spec fn is_white(c: char) -> bool {
    let n = c as u32;
    ||| 0x09 <= n <= 0x0d
    ||| n == 0x20
    ||| n == 0x85
    ||| n == 0xa0
    ||| n == 0x1680
    ||| 0x2000 <= n <= 0x200a
    ||| n == 0x2028
    ||| n == 0x2029
    ||| n == 0x202f
    ||| n == 0x205f
    ||| n == 0x3000
}

/// std's `str::to_uppercase`; the result is named by `uppercase`.
#[verifier::external_body]
pub(crate) fn to_upper(s: &str) -> (r: String)
    ensures
        r@ == uppercase(s@),
{
    s.to_uppercase()
}

/// std's `str::to_lowercase`; the result is named by `lowercase`.
#[verifier::external_body]
pub(crate) fn to_lower(s: &str) -> (r: String)
    ensures
        r@ == lowercase(s@),
{
    s.to_lowercase()
}

/// std's `char::is_whitespace`: whether the character is Unicode white space (`is_white`).
#[verifier::external_body]
pub(crate) fn char_is_whitespace(c: char) -> (r: bool)
    ensures
        r == is_white(c),
{
    c.is_whitespace()
}

/// Index of the first non-whitespace character at or after `from`.
pub open spec fn skip_white_from(s: Seq<char>, from: int) -> int
    decreases s.len() - from,
{
    if from >= s.len() || !is_white(s[from]) {
        from
    } else {
        skip_white_from(s, from + 1)
    }
}

/// One past the last non-whitespace character strictly before `to`.
pub open spec fn trim_end_at(s: Seq<char>, to: int) -> int
    decreases to,
{
    if to <= 0 || !is_white(s[to - 1]) {
        to
    } else {
        trim_end_at(s, to - 1)
    }
}

/// `s` without its leading and trailing whitespace (std's `str::trim`).
pub open spec fn trimmed(s: Seq<char>) -> Seq<char> {
    let start = skip_white_from(s, 0);
    let end = trim_end_at(s, s.len() as int);
    if end <= start {
        Seq::empty()
    } else {
        s.subrange(start, end)
    }
}

proof fn lemma_skip_bounds(s: Seq<char>, from: int)
    requires
        0 <= from <= s.len(),
    ensures
        from <= skip_white_from(s, from) <= s.len(),
        forall|k: int| from <= k < skip_white_from(s, from) ==> is_white(#[trigger] s[k]),
        skip_white_from(s, from) < s.len() ==> !is_white(s[skip_white_from(s, from)]),
    decreases s.len() - from,
{
    if from < s.len() && is_white(s[from]) {
        lemma_skip_bounds(s, from + 1);
    }
}

proof fn lemma_trim_end_bounds(s: Seq<char>, to: int)
    requires
        0 <= to <= s.len(),
    ensures
        0 <= trim_end_at(s, to) <= to,
        forall|k: int| trim_end_at(s, to) <= k < to ==> is_white(#[trigger] s[k]),
        trim_end_at(s, to) > 0 ==> !is_white(s[trim_end_at(s, to) - 1]),
    decreases to,
{
    if to > 0 && is_white(s[to - 1]) {
        lemma_trim_end_bounds(s, to - 1);
    }
}

/// Whether every character of `s` is whitespace.
pub open spec fn all_white(s: Seq<char>) -> bool {
    forall|k: int| 0 <= k < s.len() ==> is_white(#[trigger] s[k])
}

/// A text is blank exactly when trimming leaves nothing.
pub proof fn lemma_trimmed_empty_iff_all_white(s: Seq<char>)
    ensures
        (trimmed(s).len() == 0) == all_white(s),
{
    lemma_skip_bounds(s, 0);
    lemma_trim_end_bounds(s, s.len() as int);
    let start = skip_white_from(s, 0);
    let end = trim_end_at(s, s.len() as int);
    if all_white(s) {
        if start < s.len() {
            assert(is_white(s[start]));
        }
    } else {
        let k = choose|k: int| 0 <= k < s.len() && !is_white(s[k]);
        assert(start <= k);
        assert(k < end);
    }
}

/// std's `str::trim`, over whitespace as std's `char::is_whitespace` defines it.
pub fn trim_text(s: &str) -> (r: String)
    ensures
        r@ == trimmed(s@),
{
    let v = chars_of(s);
    let mut start: usize = 0;
    while start < v.len() && char_is_whitespace(v[start])
        invariant
            v@ == s@,
            start <= v.len(),
            skip_white_from(s@, 0) == skip_white_from(s@, start as int),
        decreases v.len() - start,
    {
        start = start + 1;
    }
    let mut end: usize = v.len();
    while end > 0 && char_is_whitespace(v[end - 1])
        invariant
            v@ == s@,
            end <= v.len(),
            trim_end_at(s@, s@.len() as int) == trim_end_at(s@, end as int),
        decreases end,
    {
        end = end - 1;
    }
    let mut out: Vec<char> = Vec::new();
    if start < end {
        let mut i = start;
        while i < end
            invariant
                v@ == s@,
                start <= i <= end <= v.len(),
                out@ == v@.subrange(start as int, i as int),
            decreases end - i,
        {
            out.push(v[i]);
            i = i + 1;
            assert(v@.subrange(start as int, i as int) == v@.subrange(start as int, i - 1).push(v@[i - 1]));
        }
    }
    assert(out@ =~= trimmed(s@));
    string_of_chars(&out)
}

/// Whether a text holds nothing but whitespace (`s.trim().is_empty()`).
pub fn is_blank(s: &str) -> (r: bool)
    ensures
        r == all_white(s@),
{
    let t = trim_text(s);
    proof {
        lemma_trimmed_empty_iff_all_white(s@);
    }
    t.as_str().is_empty()
}

/// The parts joined with `sep` between consecutive ones (std's `join` on string slices).
pub open spec fn joined(parts: Seq<Seq<char>>, sep: Seq<char>) -> Seq<char>
    decreases parts.len(),
{
    if parts.len() == 0 {
        Seq::empty()
    } else if parts.len() == 1 {
        parts[0]
    } else {
        joined(parts.drop_last(), sep) + sep + parts.last()
    }
}

/// Joins the parts with `sep` between consecutive ones.
pub fn join_texts(parts: &Vec<String>, sep: &str) -> (r: String)
    ensures
        r@ == joined(parts@.map_values(|s: String| s@), sep@),
{
    let ghost views = parts@.map_values(|s: String| s@);
    let mut r = String::new();
    let mut i: usize = 0;
    while i < parts.len()
        invariant
            i <= parts.len(),
            views == parts@.map_values(|s: String| s@),
            r@ == joined(views.take(i as int), sep@),
        decreases parts.len() - i,
    {
        proof {
            assert(views.take(i + 1).drop_last() =~= views.take(i as int));
        }
        if i > 0 {
            r.append(sep);
        } else {
            assert(r@ + parts@[0]@ =~= parts@[0]@);
        }
        r.append(parts[i].as_str());
        i = i + 1;
    }
    assert(views.take(parts.len() as int) =~= views);
    r
}

/// ASCII lower-casing of one character; other characters are left alone.
pub open spec fn ascii_lower(c: char) -> char {
    if 'A' <= c && c <= 'Z' {
        ((c as u32) + 32) as char
    } else {
        c
    }
}

/// Two texts are equal when ASCII letters are compared without regard to case
/// (std's `str::eq_ignore_ascii_case`).
pub open spec fn eq_ascii_nocase(a: Seq<char>, b: Seq<char>) -> bool {
    a.len() == b.len() && forall|i: int| 0 <= i < a.len() ==> ascii_lower(#[trigger] a[i]) == ascii_lower(b[i])
}

fn lower_ascii_char(c: char) -> (r: char)
    ensures
        r == ascii_lower(c),
{
    if 'A' <= c && c <= 'Z' {
        let v: u32 = (c as u32) + 32;
        assert(0x61 <= v <= 0x7a);
        v as u8 as char
    } else {
        c
    }
}

/// Whether two texts are equal when ASCII letters are compared without regard to case.
pub fn eq_ignore_ascii_case(a: &str, b: &str) -> (r: bool)
    ensures
        r == eq_ascii_nocase(a@, b@),
{
    let va = chars_of(a);
    let vb = chars_of(b);
    if va.len() != vb.len() {
        return false;
    }
    let mut i: usize = 0;
    while i < va.len()
        invariant
            va@ == a@,
            vb@ == b@,
            va.len() == vb.len(),
            i <= va.len(),
            forall|j: int| 0 <= j < i ==> ascii_lower(#[trigger] va@[j]) == ascii_lower(vb@[j]),
        decreases va.len() - i,
    {
        if lower_ascii_char(va[i]) != lower_ascii_char(vb[i]) {
            return false;
        }
        i = i + 1;
    }
    true
}

/// The decimal digit character for `d` (0 to 9).
pub open spec fn digit_char(d: nat) -> char {
    ((48 + d) as u8) as char
}

/// The decimal writing of `n`, as `Display` writes an unsigned integer.
pub open spec fn decimal(n: nat) -> Seq<char>
    decreases n,
{
    if n < 10 {
        seq![digit_char(n)]
    } else {
        decimal(n / 10) + seq![digit_char(n % 10)]
    }
}

/// The decimal writing of `n`.
pub fn decimal_text(n: u64) -> (r: String)
    ensures
        r@ == decimal(n as nat),
    decreases n,
{
    if n < 10 {
        let mut s = String::new();
        push_char(&mut s, ((48 + n) as u8) as char);
        assert(s@ =~= seq![digit_char(n as nat)]);
        s
    } else {
        let mut s = decimal_text(n / 10);
        push_char(&mut s, ((48 + n % 10) as u8) as char);
        s
    }
}

/// The decimal writing of an integer, as `Display` writes a signed integer: a minus sign
/// before negative numbers.
pub open spec fn signed_decimal(n: int) -> Seq<char> {
    if n < 0 {
        seq!['-'] + decimal((-n) as nat)
    } else {
        decimal(n as nat)
    }
}

/// The writing of an integer with its sign always shown, as the `{:+}` format writes it.
pub open spec fn plus_decimal(n: int) -> Seq<char> {
    if n < 0 {
        seq!['-'] + decimal((-n) as nat)
    } else {
        seq!['+'] + decimal(n as nat)
    }
}

fn magnitude(n: i64) -> (r: u64)
    ensures
        r as int == (if n < 0 { -n } else { n as int }),
{
    if n < 0 {
        ((-(n + 1)) as u64) + 1
    } else {
        n as u64
    }
}

/// The decimal writing of a signed integer.
pub fn signed_decimal_text(n: i64) -> (r: String)
    ensures
        r@ == signed_decimal(n as int),
{
    let digits = decimal_text(magnitude(n));
    proof {
        reveal_strlit("-");
    }
    if n < 0 {
        concat2("-", digits.as_str())
    } else {
        digits
    }
}

/// The writing of a signed integer with its sign always shown.
pub fn plus_decimal_text(n: i64) -> (r: String)
    ensures
        r@ == plus_decimal(n as int),
{
    let digits = decimal_text(magnitude(n));
    proof {
        reveal_strlit("-");
        reveal_strlit("+");
    }
    if n < 0 {
        concat2("-", digits.as_str())
    } else {
        concat2("+", digits.as_str())
    }
}

} // verus!
