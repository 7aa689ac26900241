//! Character-level string helpers shared by the metadata validators and the
//! code generators. Every helper works on the `Seq<char>` view of a string.
use vstd::prelude::*;

verus! {

/// Unicode `White_Space`, the set that `char::is_whitespace` and `str::trim` use.
pub open spec fn is_ws(c: char) -> bool {
    let u = c as u32;
    ||| 0x09 <= u <= 0x0d
    ||| u == 0x20
    ||| u == 0x85
    ||| u == 0xa0
    ||| u == 0x1680
    ||| 0x2000 <= u <= 0x200a
    ||| u == 0x2028
    ||| u == 0x2029
    ||| u == 0x202f
    ||| u == 0x205f
    ||| u == 0x3000
}

/// A string made only of whitespace (what `s.trim().is_empty()` tests).
pub open spec fn is_blank(s: Seq<char>) -> bool {
    forall|i: int| 0 <= i < s.len() ==> is_ws(#[trigger] s[i])
}

/// `str::trim_start`.
pub open spec fn trim_start(s: Seq<char>) -> Seq<char>
    decreases s.len(),
{
    if s.len() > 0 && is_ws(s[0]) {
        trim_start(s.drop_first())
    } else {
        s
    }
}

/// `str::trim_end`.
pub open spec fn trim_end(s: Seq<char>) -> Seq<char>
    decreases s.len(),
{
    if s.len() > 0 && is_ws(s.last()) {
        trim_end(s.drop_last())
    } else {
        s
    }
}

/// `str::trim`.
pub open spec fn trim(s: Seq<char>) -> Seq<char> {
    trim_end(trim_start(s))
}

/// `s.starts_with(p)`.
pub open spec fn starts_with(s: Seq<char>, p: Seq<char>) -> bool {
    p.len() <= s.len() && s.take(p.len() as int) == p
}

/// `s.ends_with(p)`.
pub open spec fn ends_with(s: Seq<char>, p: Seq<char>) -> bool {
    p.len() <= s.len() && s.skip(s.len() - p.len()) == p
}

/// `s` holds `p` at position `i`.
pub open spec fn occurs_at(s: Seq<char>, p: Seq<char>, i: int) -> bool {
    0 <= i && i + p.len() <= s.len() && s.subrange(i, i + p.len()) == p
}

/// `s.contains(p)`.
pub open spec fn contains(s: Seq<char>, p: Seq<char>) -> bool {
    exists|i: int| occurs_at(s, p, i)
}

/// `char::to_ascii_uppercase`.
pub open spec fn ascii_upper(c: char) -> char {
    if 'a' <= c && c <= 'z' {
        ((c as u32) - 32) as char
    } else {
        c
    }
}

/// `char::to_ascii_lowercase`.
pub open spec fn ascii_lower(c: char) -> char {
    if 'A' <= c && c <= 'Z' {
        ((c as u32) + 32) as char
    } else {
        c
    }
}

/// `char::is_ascii_alphabetic`.
pub open spec fn is_ascii_alpha(c: char) -> bool {
    ('a' <= c && c <= 'z') || ('A' <= c && c <= 'Z')
}

/// `char::is_ascii_alphanumeric`.
pub open spec fn is_ascii_alnum(c: char) -> bool {
    is_ascii_alpha(c) || ('0' <= c && c <= '9')
}

/// Each element of `parts` followed by `sep`, except the last (`[..].join(sep)`).
pub open spec fn join(parts: Seq<Seq<char>>, sep: Seq<char>) -> Seq<char>
    decreases parts.len(),
{
    if parts.len() == 0 {
        Seq::empty()
    } else if parts.len() == 1 {
        parts[0]
    } else {
        join(parts.drop_last(), sep) + sep + parts.last()
    }
}

pub proof fn lemma_trim_start_skip(s: Seq<char>, k: int)
    requires
        0 <= k <= s.len(),
        forall|i: int| 0 <= i < k ==> is_ws(#[trigger] s[i]),
        k == s.len() || !is_ws(s[k]),
    ensures
        trim_start(s) == s.skip(k),
    decreases k,
{
    if k > 0 {
        assert(is_ws(s[0]));
        let t = s.drop_first();
        assert forall|i: int| 0 <= i < k - 1 implies is_ws(#[trigger] t[i]) by {
            assert(t[i] == s[i + 1]);
        }
        if k - 1 < t.len() {
            assert(t[k - 1] == s[k]);
        }
        lemma_trim_start_skip(t, k - 1);
        assert(t.skip(k - 1) =~= s.skip(k));
    } else {
        assert(s.skip(0) =~= s);
    }
}

pub proof fn lemma_trim_end_take(s: Seq<char>, k: int)
    requires
        0 <= k <= s.len(),
        forall|i: int| k <= i < s.len() ==> is_ws(#[trigger] s[i]),
        k == 0 || !is_ws(s[k - 1]),
    ensures
        trim_end(s) == s.take(k),
    decreases s.len() - k,
{
    if k < s.len() {
        assert(is_ws(s.last()));
        let t = s.drop_last();
        assert forall|i: int| k <= i < t.len() implies is_ws(#[trigger] t[i]) by {
            assert(t[i] == s[i]);
        }
        if k > 0 {
            assert(t[k - 1] == s[k - 1]);
        }
        lemma_trim_end_take(t, k);
        assert(t.take(k) =~= s.take(k));
    } else {
        assert(s.take(k) =~= s);
    }
}

/// Trimming never makes a string longer.
pub proof fn lemma_trim_len(s: Seq<char>)
    ensures
        trim_start(s).len() <= s.len(),
        trim_end(s).len() <= s.len(),
        trim(s).len() <= s.len(),
{
    lemma_trim_start_len(s);
    lemma_trim_end_len(s);
    lemma_trim_end_len(trim_start(s));
}

proof fn lemma_trim_start_len(s: Seq<char>)
    ensures
        trim_start(s).len() <= s.len(),
    decreases s.len(),
{
    if s.len() > 0 {
        lemma_trim_start_len(s.drop_first());
    }
}

proof fn lemma_trim_end_len(s: Seq<char>)
    ensures
        trim_end(s).len() <= s.len(),
    decreases s.len(),
{
    if s.len() > 0 {
        lemma_trim_end_len(s.drop_last());
    }
}

/// `String::push`.
#[verifier::external_body]
pub(crate) fn push_char(s: &mut String, c: char)
    ensures
        final(s)@ == old(s)@.push(c),
{
    s.push(c);
}

/// The characters of `s`, in order.
pub fn chars_of(s: &str) -> (res: Vec<char>)
    ensures
        res@ == s@,
{
    let n = s.unicode_len();
    let mut v: Vec<char> = Vec::new();
    let mut i: usize = 0;
    while i < n
        invariant
            n == s@.len(),
            i <= n,
            v@ == s@.take(i as int),
        decreases n - i,
    {
        v.push(s.get_char(i));
        i = i + 1;
        assert(v@ =~= s@.take(i as int));
    }
    assert(s@.take(n as int) =~= s@);
    v
}

/// The string made of `v[lo..hi]`.
pub fn string_of_range(v: &Vec<char>, lo: usize, hi: usize) -> (res: String)
    requires
        lo <= hi <= v.len(),
    ensures
        res@ == v@.subrange(lo as int, hi as int),
{
    let mut s = String::new();
    let mut i = lo;
    while i < hi
        invariant
            lo <= i <= hi,
            hi <= v.len(),
            s@ == v@.subrange(lo as int, i as int),
        decreases hi - i,
    {
        push_char(&mut s, v[i]);
        i = i + 1;
        assert(s@ =~= v@.subrange(lo as int, i as int));
    }
    s
}

/// The string made of all of `v`.
pub fn string_of(v: &Vec<char>) -> (res: String)
    ensures
        res@ == v@,
{
    let s = string_of_range(v, 0, v.len());
    assert(v@.subrange(0, v@.len() as int) =~= v@);
    s
}

/// A copy of `s` as an owned string.
pub fn owned(s: &str) -> (res: String)
    ensures
        res@ == s@,
{
    String::from_str(s)
}

/// `char::is_whitespace`.
pub fn char_is_ws(c: char) -> (r: bool)
    ensures
        r == is_ws(c),
{
    let u = c as u32;
    (0x09 <= u && u <= 0x0d) || u == 0x20 || u == 0x85 || u == 0xa0 || u == 0x1680 || (0x2000
        <= u && u <= 0x200a) || u == 0x2028 || u == 0x2029 || u == 0x202f || u == 0x205f || u
        == 0x3000
}

/// Whether `v` holds only whitespace.
pub fn chars_blank(v: &Vec<char>) -> (r: bool)
    ensures
        r == is_blank(v@),
{
    let mut i: usize = 0;
    while i < v.len()
        invariant
            i <= v.len(),
            forall|j: int| 0 <= j < i ==> is_ws(#[trigger] v@[j]),
        decreases v.len() - i,
    {
        if !char_is_ws(v[i]) {
            return false;
        }
        i = i + 1;
    }
    true
}

/// `s.trim().is_empty()`.
pub fn str_blank(s: &str) -> (r: bool)
    ensures
        r == is_blank(s@),
{
    let v = chars_of(s);
    chars_blank(&v)
}

/// The bounds `lo..hi` of `trim(v)` inside `v`.
pub fn trim_bounds(v: &Vec<char>) -> (res: (usize, usize))
    ensures
        res.0 <= res.1 <= v.len(),
        trim(v@) == v@.subrange(res.0 as int, res.1 as int),
        trim_start(v@) == v@.skip(res.0 as int),
{
    let n = v.len();
    let mut lo: usize = 0;
    while lo < n && char_is_ws(v[lo])
        invariant
            lo <= n,
            n == v.len(),
            forall|i: int| 0 <= i < lo ==> is_ws(#[trigger] v@[i]),
        decreases n - lo,
    {
        lo = lo + 1;
    }
    proof {
        lemma_trim_start_skip(v@, lo as int);
    }
    let mut hi: usize = n;
    while hi > lo && char_is_ws(v[hi - 1])
        invariant
            lo <= hi <= n,
            n == v.len(),
            forall|i: int| hi <= i < n ==> is_ws(#[trigger] v@[i]),
        decreases hi - lo,
    {
        hi = hi - 1;
    }
    proof {
        let t = v@.skip(lo as int);
        let k = hi - lo;
        assert forall|i: int| k <= i < t.len() implies is_ws(#[trigger] t[i]) by {
            assert(t[i] == v@[i + lo]);
        }
        if k > 0 {
            assert(t[k - 1] == v@[hi - 1]);
        }
        lemma_trim_end_take(t, k as int);
        assert(t.take(k as int) =~= v@.subrange(lo as int, hi as int));
    }
    (lo, hi)
}

/// `s.trim().to_string()`.
pub fn trimmed(s: &str) -> (res: String)
    ensures
        res@ == trim(s@),
{
    let v = chars_of(s);
    let (lo, hi) = trim_bounds(&v);
    string_of_range(&v, lo, hi)
}

/// `s.trim_end().to_string()`.
pub fn trimmed_end(s: &str) -> (res: String)
    ensures
        res@ == trim_end(s@),
{
    let v = chars_of(s);
    let n = v.len();
    let mut hi: usize = n;
    while hi > 0 && char_is_ws(v[hi - 1])
        invariant
            hi <= n,
            n == v.len(),
            forall|i: int| hi <= i < n ==> is_ws(#[trigger] v@[i]),
        decreases hi,
    {
        hi = hi - 1;
    }
    proof {
        lemma_trim_end_take(v@, hi as int);
        assert(v@.take(hi as int) =~= v@.subrange(0, hi as int));
    }
    string_of_range(&v, 0, hi)
}

/// Whether `a` and `b` hold the same characters.
pub fn chars_eq(a: &Vec<char>, b: &Vec<char>) -> (r: bool)
    ensures
        r == (a@ == b@),
{
    if a.len() != b.len() {
        return false;
    }
    let mut i: usize = 0;
    while i < a.len()
        invariant
            a.len() == b.len(),
            i <= a.len(),
            forall|j: int| 0 <= j < i ==> a@[j] == b@[j],
        decreases a.len() - i,
    {
        if a[i] != b[i] {
            return false;
        }
        i = i + 1;
    }
    assert(a@ =~= b@);
    true
}

/// `a == b` on string slices.
pub fn str_eq(a: &str, b: &str) -> (r: bool)
    ensures
        r == (a@ == b@),
{
    let va = chars_of(a);
    let vb = chars_of(b);
    chars_eq(&va, &vb)
}

/// Whether `v[at..]` starts with `p`.
pub fn chars_occur_at(v: &Vec<char>, p: &Vec<char>, at: usize) -> (r: bool)
    requires
        at <= v.len(),
    ensures
        r == occurs_at(v@, p@, at as int),
{
    if p.len() > v.len() - at {
        return false;
    }
    let mut i: usize = 0;
    while i < p.len()
        invariant
            at + p.len() <= v.len(),
            i <= p.len(),
            forall|j: int| 0 <= j < i ==> v@[at + j] == p@[j],
        decreases p.len() - i,
    {
        if v[at + i] != p[i] {
            assert(v@.subrange(at as int, at + p.len())[i as int] != p@[i as int]);
            return false;
        }
        i = i + 1;
    }
    assert(v@.subrange(at as int, at + p.len()) =~= p@);
    true
}

/// `s.starts_with(p)` on character vectors.
pub fn chars_starts_with(v: &Vec<char>, p: &str) -> (r: bool)
    ensures
        r == starts_with(v@, p@),
{
    let pv = chars_of(p);
    let r = chars_occur_at(v, &pv, 0);
    proof {
        if pv@.len() <= v@.len() {
            assert(v@.subrange(0, pv@.len() as int) =~= v@.take(pv@.len() as int));
        }
    }
    r
}

/// `s.ends_with(p)` on character vectors.
pub fn chars_ends_with(v: &Vec<char>, p: &str) -> (r: bool)
    ensures
        r == ends_with(v@, p@),
{
    let pv = chars_of(p);
    if pv.len() > v.len() {
        return false;
    }
    let r = chars_occur_at(v, &pv, v.len() - pv.len());
    proof {
        assert(v@.subrange(v@.len() - pv@.len(), v@.len() as int) =~= v@.skip(
            v@.len() - pv@.len(),
        ));
    }
    r
}

/// `s.contains(p)` on character vectors.
pub fn chars_contains(v: &Vec<char>, p: &str) -> (r: bool)
    ensures
        r == contains(v@, p@),
{
    let pv = chars_of(p);
    let n = v.len();
    let mut i: usize = 0;
    while i < n
        invariant
            pv@ == p@,
            n == v.len(),
            i <= n,
            forall|j: int| 0 <= j < i ==> !occurs_at(v@, p@, j),
        decreases n - i,
    {
        if chars_occur_at(v, &pv, i) {
            return true;
        }
        i = i + 1;
    }
    if chars_occur_at(v, &pv, n) {
        return true;
    }
    assert forall|j: int| !occurs_at(v@, p@, j) by {
        if 0 <= j < n {
        }
    }
    false
}

/// `parts.join(sep)`.
pub fn join_strings(parts: &Vec<String>, sep: &str) -> (res: String)
    ensures
        res@ == join(views(parts@), sep@),
{
    let ghost vs = views(parts@);
    let mut out = String::new();
    let mut i: usize = 0;
    while i < parts.len()
        invariant
            i <= parts.len(),
            vs == views(parts@),
            out@ == join(vs.take(i as int), sep@),
        decreases parts.len() - i,
    {
        assert(vs.take(i + 1).drop_last() =~= vs.take(i as int));
        if i != 0 {
            out.append(sep);
        } else {
            assert(out@ =~= Seq::<char>::empty());
        }
        out.append(parts[i].as_str());
        i = i + 1;
    }
    assert(vs.take(parts.len() as int) =~= vs);
    out
}

/// The ASCII digit for `d < 10`.
pub open spec fn digit_char(d: nat) -> char {
    ((48 + d) as u32) as char
}

/// Decimal digits of `n`, most significant first, without leading zeros.
pub open spec fn decimal(n: nat) -> Seq<char>
    decreases n,
{
    if n < 10 {
        seq![digit_char(n)]
    } else {
        decimal(n / 10).push(digit_char(n % 10))
    }
}

/// `s` left-padded with `'0'` to at least `w` characters.
pub open spec fn zero_pad(s: Seq<char>, w: nat) -> Seq<char> {
    if s.len() >= w {
        s
    } else {
        Seq::new((w - s.len()) as nat, |i: int| '0') + s
    }
}

/// `format!("{:0w$}", v)` for an integer `v`: the sign counts toward the width.
pub open spec fn padded_int(v: int, w: nat) -> Seq<char> {
    if v < 0 {
        seq!['-'] + zero_pad(decimal((-v) as nat), if w >= 1 { (w - 1) as nat } else { 0 })
    } else {
        zero_pad(decimal(v as nat), w)
    }
}

/// Appends the decimal digits of `n`.
pub fn push_decimal(s: &mut String, n: u64)
    ensures
        final(s)@ == old(s)@ + decimal(n as nat),
    decreases n,
{
    if n >= 10 {
        push_decimal(s, n / 10);
    }
    let d = (n % 10) as u8;
    let c = (d + 48u8) as char;
    assert(c == digit_char((n % 10) as nat));
    push_char(s, c);
}

/// `n.to_string()`.
pub fn u64_to_decimal(n: u64) -> (res: String)
    ensures
        res@ == decimal(n as nat),
{
    let mut s = String::new();
    push_decimal(&mut s, n);
    assert(s@ =~= decimal(n as nat));
    s
}

/// `decimal(n)` has at least one digit.
pub proof fn lemma_decimal_len(n: nat)
    ensures
        decimal(n).len() >= 1,
    decreases n,
{
    if n >= 10 {
        lemma_decimal_len(n / 10);
    }
}

/// Appends `v` left-padded with zeros to width `w`, the sign counting toward the width.
pub fn push_padded(s: &mut String, v: i64, w: usize)
    ensures
        final(s)@ == old(s)@ + padded_int(v as int, w as nat),
{
    let ghost start = s@;
    let mag: u64 = if v < 0 {
        (0i128 - v as i128) as u64
    } else {
        v as u64
    };
    let digits = u64_to_decimal(mag);
    let dv = chars_of(digits.as_str());
    let width: usize = if v < 0 {
        push_char(s, '-');
        if w >= 1 {
            w - 1
        } else {
            0
        }
    } else {
        w
    };
    let ghost after_sign = s@;
    let mut k: usize = dv.len();
    while k < width
        invariant
            dv.len() <= k <= width || (width < dv.len() && k == dv.len()),
            s@ == after_sign + Seq::new((k - dv.len()) as nat, |i: int| '0'),
        decreases width - k,
    {
        push_char(s, '0');
        k = k + 1;
        assert(s@ =~= after_sign + Seq::new((k - dv.len()) as nat, |i: int| '0'));
    }
    s.append(digits.as_str());
    proof {
        let d = decimal(mag as nat);
        assert(dv@ == d);
        if width <= dv.len() {
            assert(Seq::new((k - dv.len()) as nat, |i: int| '0') =~= Seq::<char>::empty());
            assert(zero_pad(d, width as nat) == d);
        } else {
            assert(k == width);
        }
        if v < 0 {
            assert(mag as int == -(v as int));
        }
        assert(s@ =~= old(s)@ + padded_int(v as int, w as nat));
    }
}

/// Whether the characters of `v` spell `lit`.
pub fn chars_is(v: &Vec<char>, lit: &str) -> (r: bool)
    ensures
        r == (v@ == lit@),
{
    let lv = chars_of(lit);
    chars_eq(v, &lv)
}

/// The characters `v[lo..hi]` as a new vector.
pub fn chars_range(v: &Vec<char>, lo: usize, hi: usize) -> (res: Vec<char>)
    requires
        lo <= hi <= v.len(),
    ensures
        res@ == v@.subrange(lo as int, hi as int),
{
    let mut out: Vec<char> = Vec::new();
    let mut i = lo;
    while i < hi
        invariant
            lo <= i <= hi,
            hi <= v.len(),
            out@ == v@.subrange(lo as int, i as int),
        decreases hi - i,
    {
        out.push(v[i]);
        i = i + 1;
        assert(out@ =~= v@.subrange(lo as int, i as int));
    }
    out
}

/// The index of the first `'\n'` at or after `i`, or `s.len()`.
pub open spec fn first_newline_from(s: Seq<char>, i: int) -> int
    decreases s.len() - i,
{
    if i < 0 || i >= s.len() {
        s.len() as int
    } else if s[i] == '\n' {
        i
    } else {
        first_newline_from(s, i + 1)
    }
}

pub proof fn lemma_first_newline_bounds(s: Seq<char>, i: int)
    requires
        0 <= i,
    ensures
        i <= first_newline_from(s, i) || i > s.len(),
        first_newline_from(s, i) <= s.len(),
    decreases s.len() - i,
{
    if i < s.len() && s[i] != '\n' {
        lemma_first_newline_bounds(s, i + 1);
    }
}

pub proof fn lemma_first_newline_at(s: Seq<char>, j: int, m: int)
    requires
        0 <= j <= m <= s.len(),
        forall|x: int| j <= x < m ==> s[x] != '\n',
        m == s.len() || s[m] == '\n',
    ensures
        first_newline_from(s, j) == m,
    decreases m - j,
{
    if j < m {
        lemma_first_newline_at(s, j + 1, m);
    }
}

/// `raw` without one trailing `'\r'`.
pub open spec fn strip_cr(raw: Seq<char>) -> Seq<char> {
    if raw.len() > 0 && raw.last() == '\r' {
        raw.drop_last()
    } else {
        raw
    }
}

/// The character views of a sequence of strings.
pub open spec fn views(ss: Seq<String>) -> Seq<Seq<char>> {
    ss.map_values(|s: String| s@)
}

/// `indent_line` applied to every line.
pub open spec fn indent_lines(ls: Seq<Seq<char>>, n: nat) -> Seq<Seq<char>> {
    ls.map_values(|l: Seq<char>| indent_line(l, n))
}

pub proof fn lemma_views_push(ss: Seq<String>, s: String)
    ensures
        views(ss.push(s)) == views(ss).push(s@),
{
    assert(views(ss.push(s)) =~= views(ss).push(s@));
}

pub proof fn lemma_indent_lines_push(ls: Seq<Seq<char>>, l: Seq<char>, n: nat)
    ensures
        indent_lines(ls.push(l), n) == indent_lines(ls, n).push(indent_line(l, n)),
{
    assert(indent_lines(ls.push(l), n) =~= indent_lines(ls, n).push(indent_line(l, n)));
}

pub proof fn lemma_lines_step(all: Seq<char>, start: int, i: int)
    requires
        0 <= start <= i < all.len(),
        forall|x: int| start <= x < i ==> all[x] != '\n',
        all[i] == '\n',
    ensures
        lines(all.skip(start)) == seq![strip_cr(all.subrange(start, i))] + lines(all.skip(i + 1)),
{
    let t = all.skip(start);
    assert forall|x: int| 0 <= x < i - start implies t[x] != '\n' by {
        assert(t[x] == all[start + x]);
    }
    assert(t[i - start] == '\n');
    lemma_first_newline_at(t, 0, i - start);
    assert(t.take(i - start) =~= all.subrange(start, i));
    assert(t.skip(i - start + 1) =~= all.skip(i + 1));
}

pub proof fn lemma_lines_last(all: Seq<char>, start: int)
    requires
        0 <= start < all.len(),
        forall|x: int| start <= x < all.len() ==> all[x] != '\n',
    ensures
        lines(all.skip(start)) == seq![all.skip(start)],
{
    let t = all.skip(start);
    assert forall|x: int| 0 <= x < t.len() implies t[x] != '\n' by {
        assert(t[x] == all[start + x]);
    }
    lemma_first_newline_at(t, 0, t.len() as int);
}

/// The lines of `s`, as `str::lines` yields them: split at `'\n'`, a `'\r'`
/// right before a `'\n'` dropped, and no empty line after a final `'\n'`.
pub open spec fn lines(s: Seq<char>) -> Seq<Seq<char>>
    decreases s.len(),
{
    if s.len() == 0 {
        Seq::empty()
    } else {
        let k = first_newline_from(s, 0);
        proof {
            lemma_first_newline_bounds(s, 0);
        }
        if k >= s.len() {
            seq![s]
        } else {
            seq![strip_cr(s.take(k))] + lines(s.skip(k + 1))
        }
    }
}

/// `n` spaces.
pub open spec fn spaces(n: nat) -> Seq<char> {
    Seq::new(n, |i: int| ' ')
}

/// One line of `indented`: empty lines stay empty.
pub open spec fn indent_line(line: Seq<char>, n: nat) -> Seq<char> {
    if line.len() == 0 {
        line
    } else {
        spaces(n) + line
    }
}

/// Every non-empty line of `s` prefixed with `n` spaces, lines joined with `'\n'`.
pub open spec fn indented(s: Seq<char>, n: nat) -> Seq<char> {
    join(indent_lines(lines(s), n), "\n"@)
}

/// `indented`, or nothing when `s` is blank.
pub open spec fn indented_optional(s: Seq<char>, n: nat) -> Seq<char> {
    if is_blank(s) {
        Seq::empty()
    } else {
        indented(s, n)
    }
}

fn indented_line(v: &Vec<char>, lo: usize, hi: usize, pad: &str) -> (res: String)
    requires
        lo <= hi <= v.len(),
    ensures
        res@ == (if lo == hi {
            Seq::empty()
        } else {
            pad@ + v@.subrange(lo as int, hi as int)
        }),
{
    if lo == hi {
        String::new()
    } else {
        let mut s = String::from_str(pad);
        let body = string_of_range(v, lo, hi);
        s.append(body.as_str());
        s
    }
}

/// `n` spaces as a string.
pub fn spaces_string(n: usize) -> (res: String)
    ensures
        res@ == spaces(n as nat),
{
    let mut s = String::new();
    let mut i: usize = 0;
    while i < n
        invariant
            i <= n,
            s@ == spaces(i as nat),
        decreases n - i,
    {
        push_char(&mut s, ' ');
        i = i + 1;
        assert(s@ =~= spaces(i as nat));
    }
    s
}

/// Indents every non-empty line of `input` by `n` spaces (see `indented`).
pub fn indent(input: &str, n: usize) -> (res: String)
    ensures
        res@ == indented(input@, n as nat),
{
    let v = chars_of(input);
    let pad = spaces_string(n);
    let ghost all = v@;
    let ghost mut done: Seq<Seq<char>> = Seq::empty();
    let mut out: Vec<String> = Vec::new();
    let mut start: usize = 0;
    let mut i: usize = 0;
    proof {
        assert(all.skip(0) =~= all);
        assert(done + lines(all.skip(0)) =~= lines(all));
        assert(views(out@) =~= indent_lines(done, n as nat));
    }
    while i < v.len()
        invariant
            all == v@,
            start <= i <= v.len(),
            forall|x: int| start <= x < i ==> v@[x] != '\n',
            lines(all) == done + lines(all.skip(start as int)),
            views(out@) == indent_lines(done, n as nat),
            pad@ == spaces(n as nat),
        decreases v.len() - i,
    {
        if v[i] == '\n' {
            proof {
                lemma_lines_step(all, start as int, i as int);
            }
            let hi = if i > start && v[i - 1] == '\r' {
                i - 1
            } else {
                i
            };
            let line = indented_line(&v, start, hi, pad.as_str());
            let ghost l = strip_cr(all.subrange(start as int, i as int));
            assert(l =~= all.subrange(start as int, hi as int));
            assert(line@ == indent_line(l, n as nat));
            let ghost old_out = out@;
            out.push(line);
            proof {
                let old_done = done;
                done = done.push(l);
                assert(old_done + (seq![l] + lines(all.skip(i + 1))) =~= done + lines(
                    all.skip(i + 1),
                ));
                lemma_views_push(old_out, line);
                lemma_indent_lines_push(old_done, l, n as nat);
            }
            start = i + 1;
        }
        i = i + 1;
    }
    if start < v.len() {
        let ghost t = all.skip(start as int);
        proof {
            lemma_lines_last(all, start as int);
            assert(t =~= all.subrange(start as int, v.len() as int));
        }
        let line = indented_line(&v, start, v.len(), pad.as_str());
        assert(line@ == indent_line(t, n as nat));
        let ghost old_out = out@;
        out.push(line);
        proof {
            let old_done = done;
            done = done.push(t);
            assert(old_done + seq![t] =~= done);
            lemma_views_push(old_out, line);
            lemma_indent_lines_push(old_done, t, n as nat);
        }
    } else {
        proof {
            assert(all.skip(start as int) =~= Seq::<char>::empty());
            assert(done + lines(all.skip(start as int)) =~= done);
        }
    }
    join_strings(&out, "\n")
}

/// `indent`, or the empty string when `input` is blank.
pub fn indent_optional(input: &str, n: usize) -> (res: String)
    ensures
        res@ == indented_optional(input@, n as nat),
{
    if str_blank(input) {
        String::new()
    } else {
        indent(input, n)
    }
}

/// `s` with every `from` replaced by `to`.
pub open spec fn replace_char(s: Seq<char>, from: char, to: char) -> Seq<char> {
    s.map_values(|c: char| if c == from { to } else { c })
}

/// `s.replace(from, to)` for single characters.
pub fn replaced_char(s: &str, from: char, to: char) -> (res: String)
    ensures
        res@ == replace_char(s@, from, to),
{
    let ghost p = s@;
    let mut out = String::new();
    let mut i: usize = 0;
    let n = s.unicode_len();
    while i < n
        invariant
            i <= n,
            n == p.len(),
            p == s@,
            out@ == replace_char(p.take(i as int), from, to),
        decreases n - i,
    {
        let c = s.get_char(i);
        if c == from {
            push_char(&mut out, to);
        } else {
            push_char(&mut out, c);
        }
        assert(replace_char(p.take(i + 1), from, to) =~= replace_char(p.take(i as int), from, to).push(
            if c == from {
                to
            } else {
                c
            },
        ));
        i = i + 1;
    }
    assert(p.take(n as int) =~= p);
    out
}

/// `s.replace(from, to)`: the non-overlapping occurrences of `from`, found
/// from the left, each replaced by `to`.
pub open spec fn replace_all(s: Seq<char>, from: Seq<char>, to: Seq<char>) -> Seq<char>
    decreases s.len(),
{
    if s.len() == 0 || from.len() == 0 {
        s
    } else if starts_with(s, from) {
        to + replace_all(s.skip(from.len() as int), from, to)
    } else {
        seq![s[0]] + replace_all(s.skip(1), from, to)
    }
}

/// `s.replace(from, to)` for a non-empty `from`.
pub fn replaced(s: &str, from: &str, to: &str) -> (res: String)
    requires
        from@.len() > 0,
    ensures
        res@ == replace_all(s@, from@, to@),
{
    let v = chars_of(s);
    let p = chars_of(from);
    let mut out = String::new();
    let mut i: usize = 0;
    assert(v@.skip(0) =~= v@);
    assert(out@ + replace_all(v@, p@, to@) =~= replace_all(v@, p@, to@));
    while i < v.len()
        invariant
            i <= v@.len(),
            v@ == s@,
            p@ == from@,
            p@.len() > 0,
            out@ + replace_all(v@.skip(i as int), p@, to@) == replace_all(v@, p@, to@),
        decreases v@.len() - i,
    {
        let ghost rest = v@.skip(i as int);
        if chars_occur_at(&v, &p, i) {
            assert(starts_with(rest, p@)) by {
                assert(rest.take(p@.len() as int) =~= v@.subrange(i as int, i + p@.len()));
            }
            assert(rest.skip(p@.len() as int) =~= v@.skip(i + p@.len()));
            let ghost before = out@;
            out.append(to);
            assert(before + replace_all(rest, p@, to@) =~= out@ + replace_all(
                v@.skip(i + p@.len()),
                p@,
                to@,
            ));
            i = i + p.len();
        } else {
            assert(!starts_with(rest, p@)) by {
                if starts_with(rest, p@) {
                    assert(rest.take(p@.len() as int) =~= v@.subrange(i as int, i + p@.len()));
                }
            }
            assert(rest.skip(1) =~= v@.skip(i + 1));
            let ghost before = out@;
            push_char(&mut out, v[i]);
            assert(before + replace_all(rest, p@, to@) =~= out@ + replace_all(v@.skip(i + 1), p@, to@));
            i = i + 1;
        }
    }
    assert(v@.skip(v@.len() as int) =~= Seq::<char>::empty());
    assert(out@ + Seq::<char>::empty() =~= out@);
    out
}

/// A text that holds `h` at `start`, where `h` holds `f` at `off`, holds `f`.
pub proof fn lemma_contains_within(t: Seq<char>, start: int, h: Seq<char>, off: int, f: Seq<char>)
    requires
        0 <= start,
        start + h.len() <= t.len(),
        t.subrange(start, start + h.len()) == h,
        0 <= off,
        off + f.len() <= h.len(),
        h.subrange(off, off + f.len()) == f,
    ensures
        occurs_at(t, f, start + off),
        contains(t, f),
{
    assert(t.subrange(start + off, start + off + f.len()) =~= f) by {
        assert forall|j: int| 0 <= j < f.len() implies t.subrange(start + off, start + off + f.len())[j]
            == f[j] by {
            assert(t.subrange(start, start + h.len())[off + j] == h[off + j]);
            assert(h.subrange(off, off + f.len())[j] == h[off + j]);
        }
    }
    assert(occurs_at(t, f, start + off));
}

/// When `l` begins with `r`, `a + l` begins with `a + r`.
pub proof fn lemma_prefix_after(a: Seq<char>, l: Seq<char>, r: Seq<char>)
    requires
        r.len() <= l.len(),
        l.subrange(0, r.len() as int) == r,
    ensures
        (a + l).subrange(0, (a.len() + r.len()) as int) == a + r,
{
    assert forall|j: int| 0 <= j < a.len() + r.len() implies (a + l).subrange(0, (a.len() + r.len()) as int)[j]
        == (a + r)[j] by {
        if j >= a.len() {
            assert(l.subrange(0, r.len() as int)[j - a.len()] == l[j - a.len()]);
        }
    }
    assert((a + l).subrange(0, (a.len() + r.len()) as int) =~= a + r);
}

} // verus!
