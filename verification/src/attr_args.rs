//! The grammar of the bridge attributes' argument lists, over tokens: any
//! number of `name = value` options, each optionally followed by a comma.
//! A value is a string literal, or, for the path options, a Rust path such
//! as `AppViewModel::make_counter_vm` or `types::ListDiff`.
use vstd::prelude::*;
use crate::bridge_meta::{PathArg, PathSegmentInfo};
use crate::text::{push_char, str_eq};

verus! {

/// One token of an argument list: an identifier, a punctuation character
/// (and whether it is joined to the next one, as the `:` of `::` is), a
/// literal as written, or a delimited group as printed.
pub enum ArgToken {
    Ident(String),
    Punct(char, bool),
    Literal(String),
    Group(String),
}

/// Splits the argument list `text` into tokens with `proc_macro2`; or the
/// lexer's error message. How the tokens print depends on the process, so
/// nothing is claimed of the result.
#[verifier::external_body]
pub(crate) fn read_tokens(text: &str) -> Result<Vec<ArgToken>, String> {
    match text.parse::<proc_macro2::TokenStream>() {
        Ok(stream) => Ok(stream.into_iter().map(|t| match t {
            proc_macro2::TokenTree::Ident(i) => ArgToken::Ident(i.to_string()),
            proc_macro2::TokenTree::Punct(p) => ArgToken::Punct(
                p.as_char(),
                matches!(p.spacing(), proc_macro2::Spacing::Joint),
            ),
            proc_macro2::TokenTree::Literal(l) => ArgToken::Literal(l.to_string()),
            proc_macro2::TokenTree::Group(g) => ArgToken::Group(g.to_string()),
        }).collect()),
        Err(e) => Err(e.to_string()),
    }
}

/// `t` holds the punctuation character `c` at `j`.
pub open spec fn punct_at(t: Seq<ArgToken>, j: int, c: char) -> bool {
    &&& 0 <= j < t.len()
    &&& t[j] matches ArgToken::Punct(x, _) && x == c
}

/// `t` holds `::` at `j`: a `:` joined to the next token, then a `:`.
pub open spec fn colons_at(t: Seq<ArgToken>, j: int) -> bool {
    &&& 0 <= j && j + 1 < t.len()
    &&& t[j] matches ArgToken::Punct(x, joint) && x == ':' && joint
    &&& punct_at(t, j + 1, ':')
}

/// `t` holds an identifier at `j`.
pub open spec fn ident_at(t: Seq<ArgToken>, j: int) -> bool {
    0 <= j < t.len() && t[j] is Ident
}

/// The position just after the `>` that closes generic arguments opened
/// `depth` levels deep before `j`; `None` when they are not closed.
pub open spec fn angle_close(t: Seq<ArgToken>, j: int, depth: nat) -> Option<int>
    decreases t.len() - j,
{
    if j < 0 || j >= t.len() {
        None
    } else if punct_at(t, j, '<') {
        angle_close(t, j + 1, depth + 1)
    } else if punct_at(t, j, '>') {
        if depth <= 1 {
            Some(j + 1)
        } else {
            angle_close(t, j + 1, (depth - 1) as nat)
        }
    } else {
        angle_close(t, j + 1, depth)
    }
}

/// Where the path segment whose identifier is at `j` ends, and whether it
/// has no generic arguments (`Name<..>` or `Name::<..>`); `None` for
/// unclosed generic arguments.
pub open spec fn segment_end(t: Seq<ArgToken>, j: int) -> Option<(int, bool)> {
    if punct_at(t, j + 1, '<') {
        match angle_close(t, j + 2, 1) {
            Some(e) => Some((e, false)),
            None => None,
        }
    } else if colons_at(t, j + 1) && punct_at(t, j + 3, '<') {
        match angle_close(t, j + 4, 1) {
            Some(e) => Some((e, false)),
            None => None,
        }
    } else {
        Some((j + 1, true))
    }
}

/// The segments of the path whose next segment starts at `j`, after the
/// segments `segs`, and where the path ends; or why it cannot be read.
pub open spec fn path_from(t: Seq<ArgToken>, j: int, segs: Seq<(Seq<char>, bool)>) -> Result<
    (Seq<(Seq<char>, bool)>, int),
    Seq<char>,
>
    decreases t.len() - j,
{
    if !ident_at(t, j) {
        Err("expected identifier"@)
    } else {
        match segment_end(t, j) {
            None => Err("expected `>`"@),
            Some((k, plain)) => {
                let segs2 = segs.push((t[j]->Ident_0@, plain));
                if colons_at(t, k) && j < k + 2 <= t.len() {
                    path_from(t, k + 2, segs2)
                } else {
                    Ok((segs2, k))
                }
            },
        }
    }
}

/// A token as printed.
pub open spec fn token_text(x: ArgToken) -> Seq<char> {
    match x {
        ArgToken::Ident(s) => s@,
        ArgToken::Punct(c, _) => seq![c],
        ArgToken::Literal(s) => s@,
        ArgToken::Group(s) => s@,
    }
}

/// The tokens from `a` up to `b` printed: separated by a space, except
/// after a punctuation character joined to the next token.
pub open spec fn printed(t: Seq<ArgToken>, a: int, b: int) -> Seq<char>
    decreases b - a,
{
    if a < 0 || a >= b || b > t.len() {
        Seq::empty()
    } else {
        token_text(t[a]) + (if a + 1 < b && !(t[a] matches ArgToken::Punct(_, joint) && joint) {
            " "@
        } else {
            Seq::empty()
        }) + printed(t, a + 1, b)
    }
}

/// The path option value starting at `p` (a leading `::` allowed): its
/// segments and its tokens printed, and where it ends.
pub open spec fn path_value(t: Seq<ArgToken>, p: int) -> Result<
    ((Seq<(Seq<char>, bool)>, Seq<char>), int),
    Seq<char>,
> {
    let start = if colons_at(t, p) {
        p + 2
    } else {
        p
    };
    match path_from(t, start, Seq::empty()) {
        Err(e) => Err(e),
        Ok((segs, e)) => Ok(((segs, printed(t, p, e)), e)),
    }
}

/// An option's value as read: a literal as written, or a path's segments
/// and its tokens printed.
pub enum RawView {
    Lit(Seq<char>),
    Path(Seq<(Seq<char>, bool)>, Seq<char>),
}

/// An option's value as read.
pub enum RawOption {
    Lit(String),
    Path(PathArg),
}

/// A path option as plain values: its segments and its printed form.
pub open spec fn path_view(p: PathArg) -> (Seq<(Seq<char>, bool)>, Seq<char>) {
    (p.segments@.map_values(|s: PathSegmentInfo| (s.ident@, s.plain)), p.printed@)
}

/// An option's value as plain values.
pub open spec fn raw_view(r: RawOption) -> RawView {
    match r {
        RawOption::Lit(s) => RawView::Lit(s@),
        RawOption::Path(p) => RawView::Path(path_view(p).0, path_view(p).1),
    }
}

/// The options read as plain values.
pub open spec fn raws_view(v: Seq<(String, RawOption)>) -> Seq<(Seq<char>, RawView)> {
    v.map_values(|e: (String, RawOption)| (e.0@, raw_view(e.1)))
}

/// `factory`, `diff` and `item` take a path when `path_keys` is set.
pub open spec fn takes_path(key: Seq<char>, path_keys: bool) -> bool {
    path_keys && (key == "factory"@ || key == "diff"@ || key == "item"@)
}

/// The options read from position `i` on, after the options `acc`; or why
/// the argument list is refused.
pub open spec fn options_from(
    t: Seq<ArgToken>,
    i: int,
    acc: Seq<(Seq<char>, RawView)>,
    path_keys: bool,
) -> Result<Seq<(Seq<char>, RawView)>, Seq<char>>
    decreases t.len() - i,
{
    if i < 0 || i >= t.len() {
        Ok(acc)
    } else if !ident_at(t, i) {
        Err("expected identifier"@)
    } else if !punct_at(t, i + 1, '=') {
        Err("expected `=`"@)
    } else {
        let k = t[i]->Ident_0@;
        let v: Result<(RawView, int), Seq<char>> = if takes_path(k, path_keys) {
            match path_value(t, i + 2) {
                Err(e) => Err(e),
                Ok((pv, e)) => Ok((RawView::Path(pv.0, pv.1), e)),
            }
        } else if 0 <= i + 2 < t.len() && t[i + 2] is Literal {
            Ok((RawView::Lit(t[i + 2]->Literal_0@), i + 3))
        } else {
            Err("expected string literal"@)
        };
        match v {
            Err(e) => Err(e),
            Ok((rv, e)) => {
                let n = if punct_at(t, e, ',') {
                    e + 1
                } else {
                    e
                };
                if i < n <= t.len() {
                    options_from(t, n, acc.push((k, rv)), path_keys)
                } else {
                    Ok(acc.push((k, rv)))
                }
            },
        }
    }
}

/// Every literal option of `v` has a name that does not take a path.
pub open spec fn literals_named_plainly(v: Seq<(Seq<char>, RawView)>, path_keys: bool) -> bool {
    forall|i: int| 0 <= i < v.len() ==> (#[trigger] v[i]).1 is Lit ==> !takes_path(v[i].0, path_keys)
}

proof fn lemma_literals_named_plainly(
    t: Seq<ArgToken>,
    i: int,
    acc: Seq<(Seq<char>, RawView)>,
    path_keys: bool,
)
    requires
        literals_named_plainly(acc, path_keys),
    ensures
        options_from(t, i, acc, path_keys) matches Ok(v) ==> literals_named_plainly(v, path_keys),
    decreases t.len() - i,
{
    if 0 <= i < t.len() && ident_at(t, i) && punct_at(t, i + 1, '=') {
        let k = t[i]->Ident_0@;
        let v: Result<(RawView, int), Seq<char>> = if takes_path(k, path_keys) {
            match path_value(t, i + 2) {
                Err(e) => Err(e),
                Ok((pv, e)) => Ok((RawView::Path(pv.0, pv.1), e)),
            }
        } else if 0 <= i + 2 < t.len() && t[i + 2] is Literal {
            Ok((RawView::Lit(t[i + 2]->Literal_0@), i + 3))
        } else {
            Err("expected string literal"@)
        };
        if let Ok((rv, e)) = v {
            let n = if punct_at(t, e, ',') {
                e + 1
            } else {
                e
            };
            let acc2 = acc.push((k, rv));
            assert(literals_named_plainly(acc2, path_keys)) by {
                assert forall|j: int| 0 <= j < acc2.len() && (#[trigger] acc2[j]).1 is Lit implies !takes_path(
                    acc2[j].0,
                    path_keys,
                ) by {
                    if j < acc.len() {
                        assert(acc2[j] == acc[j]);
                    }
                }
            }
            if i < n <= t.len() {
                lemma_literals_named_plainly(t, n, acc2, path_keys);
            }
        }
    }
}

fn punct_is(t: &Vec<ArgToken>, j: usize, c: char) -> (r: bool)
    ensures
        r == punct_at(t@, j as int, c),
{
    if j < t.len() {
        match &t[j] {
            ArgToken::Punct(x, _) => *x == c,
            _ => false,
        }
    } else {
        false
    }
}

fn colons_are(t: &Vec<ArgToken>, j: usize) -> (r: bool)
    ensures
        r == colons_at(t@, j as int),
{
    if j < t.len() && j + 1 < t.len() {
        match &t[j] {
            ArgToken::Punct(x, joint) => *x == ':' && *joint && punct_is(t, j + 1, ':'),
            _ => false,
        }
    } else {
        false
    }
}

fn angle_close_exec(t: &Vec<ArgToken>, start: usize) -> (r: Option<usize>)
    requires
        start >= 1,
    ensures
        match angle_close(t@, start as int, 1) {
            Some(e) => r matches Some(x) && x as int == e && start < x <= t@.len(),
            None => r is None,
        },
{
    let mut j: usize = start;
    let mut depth: usize = 1;
    while j < t.len()
        invariant
            1 <= start <= j,
            1 <= depth <= j - start + 1,
            angle_close(t@, j as int, depth as nat) == angle_close(t@, start as int, 1),
        decreases t@.len() - j,
    {
        if punct_is(t, j, '<') {
            depth = depth + 1;
        } else if punct_is(t, j, '>') {
            if depth <= 1 {
                return Some(j + 1);
            }
            depth = depth - 1;
        }
        j = j + 1;
    }
    None
}

/// Appends the tokens from `a` up to `b` printed.
fn push_printed(out: &mut String, t: &Vec<ArgToken>, a: usize, b: usize)
    requires
        a <= b <= t@.len(),
    ensures
        final(out)@ == old(out)@ + printed(t@, a as int, b as int),
{
    let mut i: usize = a;
    proof {
        reveal_strlit(" ");
    }
    while i < b
        invariant
            a <= i <= b <= t@.len(),
            out@ + printed(t@, i as int, b as int) == old(out)@ + printed(t@, a as int, b as int),
        decreases b - i,
    {
        let ghost before = out@;
        let joint = match &t[i] {
            ArgToken::Ident(s) => {
                out.append(s.as_str());
                false
            },
            ArgToken::Punct(c, j) => {
                push_char(out, *c);
                *j
            },
            ArgToken::Literal(s) => {
                out.append(s.as_str());
                false
            },
            ArgToken::Group(s) => {
                out.append(s.as_str());
                false
            },
        };
        assert(out@ == before + token_text(t@[i as int]));
        if i + 1 < b && !joint {
            out.append(" ");
        }
        assert(out@ + printed(t@, i + 1, b as int) =~= before + printed(t@, i as int, b as int));
        i = i + 1;
    }
}

/// Reads the path option value starting at `p`.
fn path_value_exec(t: &Vec<ArgToken>, p: usize) -> (res: Result<(PathArg, usize), String>)
    requires
        p <= t@.len(),
    ensures
        match path_value(t@, p as int) {
            Ok((v, e)) => res matches Ok((a, f)) && path_view(a) == v && f == e && e <= t@.len(),
            Err(m) => res matches Err(x) && x@ == m,
        },
{
    proof {
        reveal_strlit("expected identifier");
        reveal_strlit("expected `>`");
    }
    let n = t.len();
    let start = if colons_are(t, p) {
        assert(p + 1 < n);
        p + 2
    } else {
        p
    };
    let mut segs: Vec<PathSegmentInfo> = Vec::new();
    let mut j: usize = start;
    assert(segs@.map_values(|s: PathSegmentInfo| (s.ident@, s.plain)) =~= Seq::empty());
    loop
        invariant
            start <= j,
            path_from(t@, j as int, segs@.map_values(|s: PathSegmentInfo| (s.ident@, s.plain)))
                == path_from(t@, start as int, Seq::empty()),
            path_value(t@, p as int) == match path_from(t@, start as int, Seq::empty()) {
                Err(e) => Err(e),
                Ok((segs, e)) => Ok(((segs, printed(t@, p as int, e)), e)),
            },
            p <= start,
        decreases t@.len() - j,
    {
        let ghost sv = segs@.map_values(|s: PathSegmentInfo| (s.ident@, s.plain));
        let name = if j < t.len() {
            match &t[j] {
                ArgToken::Ident(s) => s.clone(),
                _ => {
                    return Err(String::from_str("expected identifier"));
                },
            }
        } else {
            return Err(String::from_str("expected identifier"));
        };
        let (k, plain) = if punct_is(t, j + 1, '<') {
            match angle_close_exec(t, j + 2) {
                Some(e) => (e, false),
                None => {
                    return Err(String::from_str("expected `>`"));
                },
            }
        } else if colons_are(t, j + 1) && punct_is(t, j + 3, '<') {
            match angle_close_exec(t, j + 4) {
                Some(e) => (e, false),
                None => {
                    return Err(String::from_str("expected `>`"));
                },
            }
        } else {
            (j + 1, true)
        };
        assert(segment_end(t@, j as int) == Some((k as int, plain)));
        segs.push(PathSegmentInfo { ident: name, plain });
        assert(segs@.map_values(|s: PathSegmentInfo| (s.ident@, s.plain)) =~= sv.push(
            (t@[j as int]->Ident_0@, plain),
        ));
        if colons_are(t, k) && j < k + 2 && k + 2 <= t.len() {
            j = k + 2;
        } else {
            let mut printed_text = String::new();
            push_printed(&mut printed_text, t, p, k);
            return Ok((PathArg { segments: segs, printed: printed_text }, k));
        }
    }
}

fn literal_at(t: &Vec<ArgToken>, j: usize) -> (res: Option<String>)
    ensures
        match res {
            Some(s) => j < t@.len() && (t@[j as int] matches ArgToken::Literal(x) && x@ == s@),
            None => !(j < t@.len() && t@[j as int] is Literal),
        },
{
    if j < t.len() {
        match &t[j] {
            ArgToken::Literal(s) => Some(s.clone()),
            _ => None,
        }
    } else {
        None
    }
}

/// Reads the options of the tokens `t`: any number of `name = value`
/// options, each optionally followed by a comma. With `path_keys`,
/// `factory`, `diff` and `item` take a Rust path (a leading `::` and
/// generic arguments allowed); every other option takes a literal, kept as
/// written. Refused with "expected identifier" where a name or a path
/// segment is missing, "expected `=`" after a name without `=`, "expected
/// string literal" for a value that is not a literal, and "expected `>`"
/// for unclosed generic arguments.
pub fn scan_options(t: &Vec<ArgToken>, path_keys: bool) -> (res: Result<Vec<(String, RawOption)>, String>)
    ensures
        match options_from(t@, 0, Seq::empty(), path_keys) {
            Ok(v) => res matches Ok(r) && raws_view(r@) == v,
            Err(m) => res matches Err(x) && x@ == m,
        },
        res matches Ok(r) ==> literals_named_plainly(raws_view(r@), path_keys),
{
    proof {
        lemma_literals_named_plainly(t@, 0, Seq::empty(), path_keys);
    }
    proof {
        reveal_strlit("expected identifier");
        reveal_strlit("expected `=`");
        reveal_strlit("expected string literal");
        reveal_strlit("factory");
        reveal_strlit("diff");
        reveal_strlit("item");
    }
    let mut out: Vec<(String, RawOption)> = Vec::new();
    let mut i: usize = 0;
    assert(raws_view(out@) =~= Seq::empty());
    while i < t.len()
        invariant
            i <= t@.len(),
            options_from(t@, i as int, raws_view(out@), path_keys) == options_from(
                t@,
                0,
                Seq::empty(),
                path_keys,
            ),
        decreases t@.len() - i,
    {
        let key = match &t[i] {
            ArgToken::Ident(s) => s.clone(),
            _ => {
                return Err(String::from_str("expected identifier"));
            },
        };
        if !punct_is(t, i + 1, '=') {
            return Err(String::from_str("expected `=`"));
        }
        let path = path_keys && (str_eq(key.as_str(), "factory") || str_eq(key.as_str(), "diff")
            || str_eq(key.as_str(), "item"));
        let (value, e) = if path {
            match path_value_exec(t, i + 2) {
                Ok((p, e)) => (RawOption::Path(p), e),
                Err(m) => {
                    return Err(m);
                },
            }
        } else {
            match literal_at(t, i + 2) {
                Some(s) => (RawOption::Lit(s), i + 3),
                None => {
                    return Err(String::from_str("expected string literal"));
                },
            }
        };
        let n = if punct_is(t, e, ',') {
            e + 1
        } else {
            e
        };
        let ghost before = raws_view(out@);
        out.push((key, value));
        assert(raws_view(out@) =~= before.push((out@.last().0@, raw_view(out@.last().1))));
        if !(i < n && n <= t.len()) {
            assert(options_from(t@, 0, Seq::empty(), path_keys) == Ok::<
                Seq<(Seq<char>, RawView)>,
                Seq<char>,
            >(raws_view(out@)));
            proof {
                lemma_literals_named_plainly(t@, 0, Seq::empty(), path_keys);
            }
            return Ok(out);
        }
        i = n;
    }
    Ok(out)
}

} // verus!
