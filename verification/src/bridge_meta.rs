//! The metadata logic of the `vm_bridge` attribute: how the annotated impl's
//! public methods and the attribute's options become VM metadata, with the
//! defaults the attribute infers.
use vstd::prelude::*;
use crate::codegen::{codegen_message, fault_of, CodegenError, CodegenFault};
use crate::metadata::{
    validation_error, ArgMetadata, FactoryMetadata, MethodMetadata, ObserverMetadata, VmMetadata,
    VmMode, VM_METADATA_SCHEMA_VERSION,
};
use crate::swift::{generate_swift_bridge_source, swift_bridge_source};
use crate::text::{
    chars_of, contains, ends_with, is_ascii_alnum, is_blank, occurs_at, push_char, replace_all,
    replaced, starts_with, str_blank, str_eq, string_of_range, trim, trimmed,
};

verus! {

// ---------------------------------------------------------------------------
// Type names.
// ---------------------------------------------------------------------------

/// The `(from, to)` token spacings that `normalize_rust_type` removes, in order.
pub open spec fn normalize_steps() -> Seq<(Seq<char>, Seq<char>)> {
    seq![
        (" :: "@, "::"@),
        (" < "@, "<"@),
        (" >"@, ">"@),
        (" , "@, ", "@),
        (" ( "@, "("@),
        (" ) "@, ")"@),
        (" [ "@, "["@),
        (" ] "@, "]"@),
        (" & "@, "&"@),
    ]
}

/// `s` after the first `k` normalization steps.
pub open spec fn normalized_upto(s: Seq<char>, k: int) -> Seq<char>
    decreases k,
{
    if k <= 0 {
        s
    } else {
        let (from, to) = normalize_steps()[k - 1];
        replace_all(normalized_upto(s, k - 1), from, to)
    }
}

/// A Rust type as token printing spells it, with the spaces around `::`,
/// brackets, commas and `&` removed (but the one after `dyn` kept).
pub open spec fn normalized_type(s: Seq<char>) -> Seq<char> {
    normalized_upto(trim(s), 9)
}

/// Removes the spacing that token printing puts into a Rust type.
pub fn normalize_rust_type(input: &str) -> (res: String)
    ensures
        res@ == normalized_type(input@),
{
    proof {
        reveal_strlit(" :: ");
        reveal_strlit(" < ");
        reveal_strlit(" >");
        reveal_strlit(" , ");
        reveal_strlit(" ( ");
        reveal_strlit(" ) ");
        reveal_strlit(" [ ");
        reveal_strlit(" ] ");
        reveal_strlit(" & ");
    }
    let out = trimmed(input);
    let ghost t = trim(input@);
    assert(out@ == normalized_upto(t, 0));
    let out = replaced(out.as_str(), " :: ", "::");
    assert(out@ == normalized_upto(t, 1));
    let out = replaced(out.as_str(), " < ", "<");
    assert(out@ == normalized_upto(t, 2));
    let out = replaced(out.as_str(), " >", ">");
    assert(out@ == normalized_upto(t, 3));
    let out = replaced(out.as_str(), " , ", ", ");
    assert(out@ == normalized_upto(t, 4));
    let out = replaced(out.as_str(), " ( ", "(");
    assert(out@ == normalized_upto(t, 5));
    let out = replaced(out.as_str(), " ) ", ")");
    assert(out@ == normalized_upto(t, 6));
    let out = replaced(out.as_str(), " [ ", "[");
    assert(out@ == normalized_upto(t, 7));
    let out = replaced(out.as_str(), " ] ", "]");
    assert(out@ == normalized_upto(t, 8));
    let out = replaced(out.as_str(), " & ", "&");
    assert(out@ == normalized_upto(t, 9));
    out
}

/// A character of a Rust path token: ASCII letters and digits, `_` and `:`.
pub open spec fn is_path_char(c: char) -> bool {
    is_ascii_alnum(c) || c == '_' || c == ':'
}

/// `tok` holds `::` at `j`.
pub open spec fn sep_at(tok: Seq<char>, j: int) -> bool {
    0 <= j && j + 1 < tok.len() && tok[j] == ':' && tok[j + 1] == ':'
}

/// The last `::` of `tok` starting at or before `j`.
pub open spec fn last_sep(tok: Seq<char>, j: int) -> Option<int>
    decreases j + 1,
{
    if j < 0 {
        None
    } else if sep_at(tok, j) {
        Some(j)
    } else {
        last_sep(tok, j - 1)
    }
}

/// A path token with its module qualifiers dropped: the text after its last
/// `::`, or the whole token.
pub open spec fn last_segment(tok: Seq<char>) -> Seq<char> {
    match last_sep(tok, tok.len() - 2) {
        Some(j) => tok.skip(j + 2),
        None => tok,
    }
}

/// `s` with the pending path token `tok` in front, every path token reduced
/// to its last segment and every other character kept.
pub open spec fn export_scan(s: Seq<char>, tok: Seq<char>) -> Seq<char>
    decreases s.len(),
{
    if s.len() == 0 {
        last_segment(tok)
    } else if is_path_char(s[0]) {
        export_scan(s.skip(1), tok.push(s[0]))
    } else {
        last_segment(tok) + seq![s[0]] + export_scan(s.skip(1), Seq::empty())
    }
}

/// The platform name of a Rust type: module qualifiers dropped everywhere,
/// including inside generics, and the result trimmed.
pub open spec fn export_name(ty: Seq<char>) -> Seq<char> {
    trim(export_scan(ty, Seq::empty()))
}

fn push_last_segment(out: &mut String, tok: &Vec<char>)
    ensures
        final(out)@ == old(out)@ + last_segment(tok@),
{
    if tok.len() < 2 {
        assert(last_sep(tok@, tok@.len() - 2) is None);
        let mut i: usize = 0;
        let ghost start = out@;
        while i < tok.len()
            invariant
                i <= tok@.len(),
                out@ == start + tok@.take(i as int),
            decreases tok@.len() - i,
        {
            push_char(out, tok[i]);
            i = i + 1;
            assert(out@ =~= start + tok@.take(i as int));
        }
        assert(tok@.take(tok@.len() as int) =~= tok@);
        return;
    }
    let mut k: usize = tok.len() - 1;
    while k > 0 && !(tok[k - 1] == ':' && tok[k] == ':')
        invariant
            1 <= tok@.len(),
            k < tok@.len(),
            last_sep(tok@, tok@.len() - 2) == last_sep(tok@, k - 1),
        decreases k,
    {
        k = k - 1;
    }
    let found = k > 0;
    let start = if found {
        k + 1
    } else {
        0
    };
    proof {
        if found {
            assert(last_sep(tok@, k - 1) == Some((k - 1) as int));
        } else {
            assert(k == 0);
            assert(last_sep(tok@, -1) is None);
        }
    }
    let ghost before = out@;
    let mut i: usize = start;
    while i < tok.len()
        invariant
            start <= i <= tok@.len(),
            out@ == before + tok@.subrange(start as int, i as int),
        decreases tok@.len() - i,
    {
        push_char(out, tok[i]);
        i = i + 1;
        assert(out@ =~= before + tok@.subrange(start as int, i as int));
    }
    assert(tok@.subrange(start as int, tok@.len() as int) =~= tok@.skip(start as int));
}

/// The platform name of a Rust type: module qualifiers dropped everywhere,
/// including inside generics, and the result trimmed.
pub fn platform_export_type_name(ty: &str) -> (res: String)
    ensures
        res@ == export_name(ty@),
{
    let v = chars_of(ty);
    let mut out = String::new();
    let mut token: Vec<char> = Vec::new();
    let mut i: usize = 0;
    assert(v@.skip(0) =~= v@);
    assert(out@ + export_scan(v@, token@) =~= export_scan(v@, Seq::empty()));
    while i < v.len()
        invariant
            i <= v@.len(),
            v@ == ty@,
            out@ + export_scan(v@.skip(i as int), token@) == export_scan(v@, Seq::empty()),
        decreases v@.len() - i,
    {
        let c = v[i];
        let ghost rest = v@.skip(i as int);
        assert(rest.skip(1) =~= v@.skip(i + 1));
        if ('a' <= c && c <= 'z') || ('A' <= c && c <= 'Z') || ('0' <= c && c <= '9') || c == '_'
            || c == ':' {
            token.push(c);
        } else {
            let ghost before = out@;
            let ghost tok0 = token@;
            push_last_segment(&mut out, &token);
            push_char(&mut out, c);
            token = Vec::new();
            assert(out@ =~= before + last_segment(tok0) + seq![c]);
            assert(before + export_scan(rest, tok0) =~= out@ + export_scan(v@.skip(i + 1), token@));
        }
        i = i + 1;
    }
    push_last_segment(&mut out, &token);
    assert(v@.skip(v@.len() as int) =~= Seq::<char>::empty());
    trimmed(out.as_str())
}

// ---------------------------------------------------------------------------
// The annotated impl.
// ---------------------------------------------------------------------------

/// One argument of a public method of the annotated impl, its type as token
/// printing spells it after `normalize_rust_type`.
#[derive(Clone, Debug)]
pub struct ArgInfo {
    pub name: String,
    pub ty: String,
}

/// One public method of the annotated impl; `ret` is `unit` for no return type.
#[derive(Clone, Debug)]
pub struct MethodInfo {
    pub name: String,
    pub args: Vec<ArgInfo>,
    pub ret: String,
}

/// The attribute's options and the impl's public methods, before defaults.
#[derive(Debug)]
pub struct VmMetaLocal {
    pub swift_bridge: String,
    pub mode: String,
    pub vm_type: String,
    pub observer: String,
    pub observer_method: String,
    pub state_type: String,
    pub diff_type: String,
    pub list_item_type: String,
    pub factory_type: String,
    pub factory_method: String,
    pub factory_bridge: String,
    pub methods: Vec<MethodInfo>,
}

/// Options written as Rust paths rather than strings.
pub fn is_path_arg_key(key: &str) -> (r: bool)
    ensures
        r == (key@ == "factory"@ || key@ == "diff"@ || key@ == "item"@),
{
    str_eq(key, "factory") || str_eq(key, "diff") || str_eq(key, "item")
}

/// The observer trait of an `Arc<dyn Trait>` (or `std::sync::Arc<dyn Trait>`)
/// argument type, as a platform name.
pub open spec fn observer_target(ty: Seq<char>) -> Option<Seq<char>> {
    let rest = if starts_with(ty, "Arc<dyn "@) {
        Some(ty.skip(8))
    } else if starts_with(ty, "std::sync::Arc<dyn "@) {
        Some(ty.skip(19))
    } else {
        None
    };
    match rest {
        Some(r) => if r.len() > 0 && r.last() == '>' && trim(r.drop_last()).len() > 0 {
            Some(export_name(trim(r.drop_last())))
        } else {
            None
        },
        None => None,
    }
}

/// Reads the observer trait out of an `Arc<dyn Trait>` argument type.
pub fn extract_observer_type(ty: &str) -> (res: Option<String>)
    ensures
        match res {
            Some(t) => observer_target(ty@) == Some(t@),
            None => observer_target(ty@) is None,
        },
{
    proof {
        reveal_strlit("Arc<dyn ");
        reveal_strlit("std::sync::Arc<dyn ");
    }
    let v = chars_of(ty);
    let start: usize = if crate::text::chars_starts_with(&v, "Arc<dyn ") {
        8
    } else if crate::text::chars_starts_with(&v, "std::sync::Arc<dyn ") {
        19
    } else {
        return None;
    };
    if !(v.len() > start && v[v.len() - 1] == '>') {
        return None;
    }
    let body = string_of_range(&v, start, v.len() - 1);
    assert(body@ =~= ty@.skip(start as int).drop_last());
    let inner = trimmed(body.as_str());
    if inner.as_str().unicode_len() == 0 {
        return None;
    }
    Some(platform_export_type_name(inner.as_str()))
}

/// The first method named `name` at or after `i`.
pub open spec fn find_info_from(ms: Seq<MethodInfo>, name: Seq<char>, i: int) -> Option<int>
    decreases ms.len() - i,
{
    if i < 0 || i >= ms.len() {
        None
    } else if ms[i].name@ == name {
        Some(i)
    } else {
        find_info_from(ms, name, i + 1)
    }
}

/// The first `get_state` without arguments at or after `i`.
pub open spec fn find_getter_from(ms: Seq<MethodInfo>, i: int) -> Option<int>
    decreases ms.len() - i,
{
    if i < 0 || i >= ms.len() {
        None
    } else if ms[i].name@ == "get_state"@ && ms[i].args@.len() == 0 {
        Some(i)
    } else {
        find_getter_from(ms, i + 1)
    }
}

/// The refusal of a `subscribe` that does not take one `observer`.
pub open spec fn subscribe_shape_message() -> Seq<char> {
    "cannot infer observer: subscribe must accept exactly one `observer` argument"@
}

/// The refusal of an observer argument that is not an `Arc<dyn Trait>`.
pub open spec fn observer_shape_message() -> Seq<char> {
    "cannot infer observer: subscribe observer argument must be `Arc<dyn Observer>` or `std::sync::Arc<dyn Observer>`"@
}

/// The observer trait that `subscribe` takes: none without `subscribe`, or a
/// refusal when its argument does not name one.
pub open spec fn observer_inference(ms: Seq<MethodInfo>) -> Result<Option<Seq<char>>, Seq<char>> {
    match find_info_from(ms, "subscribe"@, 0) {
        None => Ok(None),
        Some(i) => if ms[i].args@.len() != 1 || ms[i].args@[0].name@ != "observer"@ {
            Err(subscribe_shape_message())
        } else {
            match observer_target(ms[i].args@[0].ty@) {
                Some(t) => Ok(Some(t)),
                None => Err(observer_shape_message()),
            }
        },
    }
}

/// The state type that the first `get_state()` returns, unless it returns `unit`.
pub open spec fn state_inference(ms: Seq<MethodInfo>) -> Option<Seq<char>> {
    match find_getter_from(ms, 0) {
        None => None,
        Some(i) => if export_name(ms[i].ret@) == "unit"@ {
            None
        } else {
            Some(export_name(ms[i].ret@))
        },
    }
}

pub(crate) fn find_info(methods: &Vec<MethodInfo>, name: &str) -> (r: Option<usize>)
    ensures
        match r {
            None => find_info_from(methods@, name@, 0) is None,
            Some(i) => find_info_from(methods@, name@, 0) == Some(i as int) && i < methods@.len(),
        },
{
    let mut i: usize = 0;
    while i < methods.len()
        invariant
            i <= methods@.len(),
            find_info_from(methods@, name@, 0) == find_info_from(methods@, name@, i as int),
        decreases methods@.len() - i,
    {
        if str_eq(methods[i].name.as_str(), name) {
            return Some(i);
        }
        i = i + 1;
    }
    None
}

/// Infers the observer trait from the `subscribe` method.
pub fn infer_observer_type(methods: &Vec<MethodInfo>) -> (res: Result<Option<String>, String>)
    ensures
        match observer_inference(methods@) {
            Ok(None) => res == Ok::<Option<String>, String>(None),
            Ok(Some(t)) => res matches Ok(Some(s)) && s@ == t,
            Err(m) => res matches Err(e) && e@ == m,
        },
{
    let i = match find_info(methods, "subscribe") {
        Some(i) => i,
        None => {
            return Ok(None);
        },
    };
    let method = &methods[i];
    if method.args.len() != 1 || !str_eq(method.args[0].name.as_str(), "observer") {
        return Err(
            String::from_str(
                "cannot infer observer: subscribe must accept exactly one `observer` argument",
            ),
        );
    }
    match extract_observer_type(method.args[0].ty.as_str()) {
        Some(t) => Ok(Some(t)),
        None => Err(
            String::from_str(
                "cannot infer observer: subscribe observer argument must be `Arc<dyn Observer>` or `std::sync::Arc<dyn Observer>`",
            ),
        ),
    }
}

/// Infers the state type from a `get_state()` without arguments.
pub fn infer_state_type(methods: &Vec<MethodInfo>) -> (res: Option<String>)
    ensures
        match res {
            Some(t) => state_inference(methods@) == Some(t@),
            None => state_inference(methods@) is None,
        },
{
    let mut i: usize = 0;
    while i < methods.len()
        invariant
            i <= methods@.len(),
            find_getter_from(methods@, 0) == find_getter_from(methods@, i as int),
        decreases methods@.len() - i,
    {
        if str_eq(methods[i].name.as_str(), "get_state") && methods[i].args.len() == 0 {
            let t = platform_export_type_name(methods[i].ret.as_str());
            if str_eq(t.as_str(), "unit") {
                return None;
            }
            return Some(t);
        }
        i = i + 1;
    }
    None
}

// ---------------------------------------------------------------------------
// Defaults.
// ---------------------------------------------------------------------------

/// Takes a path option's value unless the string option already says
/// otherwise: a blank `existing` takes `value`; an equal one stays; a
/// different one is a conflict.
pub fn apply_path_value(existing: &mut String, value: &str, path_key: &str, legacy_key: &str) -> (res:
    Result<(), String>)
    ensures
        is_blank(old(existing)@) ==> res is Ok && final(existing)@ == value@,
        !is_blank(old(existing)@) && old(existing)@ == value@ ==> res is Ok && *final(existing)
            == *old(existing),
        !is_blank(old(existing)@) && old(existing)@ != value@ ==> *final(existing) == *old(existing),
        !is_blank(old(existing)@) && old(existing)@ != value@ ==> (res matches Err(e) && e@
            == path_key@ + " conflicts with `"@ + legacy_key@ + "`: `"@ + value@ + "` != `"@ + old(
            existing,
        )@ + "`"@),
{
    if str_blank(existing.as_str()) {
        *existing = String::from_str(value);
        return Ok(());
    }
    if str_eq(existing.as_str(), value) {
        return Ok(());
    }
    let mut message = String::from_str(path_key);
    message.append(" conflicts with `");
    message.append(legacy_key);
    message.append("`: `");
    message.append(value);
    message.append("` != `");
    message.append(existing.as_str());
    message.append("`");
    Err(message)
}

/// The value of a string option after a path option gives `value`: a blank
/// option takes it, an equal one stays, a different one is a conflict.
pub open spec fn merged_value(
    existing: Seq<char>,
    value: Seq<char>,
    path_key: Seq<char>,
    legacy_key: Seq<char>,
) -> Result<Seq<char>, Seq<char>> {
    if is_blank(existing) {
        Ok(value)
    } else if existing == value {
        Ok(existing)
    } else {
        Err(path_key + " conflicts with `"@ + legacy_key + "`: `"@ + value + "` != `"@ + existing
            + "`"@)
    }
}

/// One segment of a path option: its identifier, and whether it has no
/// generic arguments.
#[derive(Clone, Debug)]
pub struct PathSegmentInfo {
    pub ident: String,
    pub plain: bool,
}

/// A path option of the attribute (`factory = AppViewModel::make_counter_vm`):
/// its segments, and the path as token printing spells it.
#[derive(Clone, Debug)]
pub struct PathArg {
    pub segments: Vec<PathSegmentInfo>,
    pub printed: String,
}

/// Why a path option was refused: the option's key and the message.
#[derive(Clone, Debug, PartialEq, Eq)]
pub struct PathArgError {
    pub key: String,
    pub message: String,
}

/// Every segment is plain.
pub open spec fn all_plain(segments: Seq<PathSegmentInfo>) -> bool {
    forall|i: int| 0 <= i < segments.len() ==> (#[trigger] segments[i]).plain
}

fn segments_plain(segments: &Vec<PathSegmentInfo>) -> (r: bool)
    ensures
        r == all_plain(segments@),
{
    let mut i: usize = 0;
    while i < segments.len()
        invariant
            i <= segments@.len(),
            forall|j: int| 0 <= j < i ==> (#[trigger] segments@[j]).plain,
        decreases segments@.len() - i,
    {
        if !segments[i].plain {
            return false;
        }
        i = i + 1;
    }
    true
}

/// The factory type and method of a `factory` path, which must be exactly
/// `FactoryType::method`.
pub open spec fn factory_path_of(arg: PathArg) -> Result<(Seq<char>, Seq<char>), Seq<char>> {
    if arg.segments@.len() != 2 || !all_plain(arg.segments@) {
        Err("factory path must be exactly `FactoryType::method`"@)
    } else {
        Ok((arg.segments@[0].ident@, arg.segments@[1].ident@))
    }
}

/// Splits a `factory` path into its type and method.
pub fn parse_factory_path(arg: &PathArg) -> (res: Result<(String, String), String>)
    ensures
        match factory_path_of(*arg) {
            Ok((t, m)) => res matches Ok((a, b)) && a@ == t && b@ == m,
            Err(msg) => res matches Err(e) && e@ == msg,
        },
{
    if arg.segments.len() != 2 || !segments_plain(&arg.segments) {
        return Err(String::from_str("factory path must be exactly `FactoryType::method`"));
    }
    Ok((arg.segments[0].ident.clone(), arg.segments[1].ident.clone()))
}

/// The platform name of a type path given for `key`, which must be a plain
/// Rust type path.
pub open spec fn type_path_of(arg: PathArg, key: Seq<char>) -> Result<Seq<char>, Seq<char>> {
    if arg.segments@.len() == 0 || !all_plain(arg.segments@) {
        Err(key + " path must be a plain Rust type path"@)
    } else {
        Ok(export_name(normalized_type(arg.printed@)))
    }
}

/// Reads the platform type name of a `diff` or `item` path.
pub fn parse_type_path(arg: &PathArg, key: &str) -> (res: Result<String, String>)
    ensures
        match type_path_of(*arg, key@) {
            Ok(t) => res matches Ok(s) && s@ == t,
            Err(msg) => res matches Err(e) && e@ == msg,
        },
{
    if arg.segments.len() == 0 || !segments_plain(&arg.segments) {
        let mut message = String::from_str(key);
        message.append(" path must be a plain Rust type path");
        return Err(message);
    }
    let normalized = normalize_rust_type(arg.printed.as_str());
    Ok(platform_export_type_name(normalized.as_str()))
}

/// The factory type and method after the `factory` path option, or the
/// refusal (the key and the message).
pub open spec fn factory_outcome(factory: Option<PathArg>, m: VmMetaLocal) -> Result<
    (Seq<char>, Seq<char>),
    (Seq<char>, Seq<char>),
> {
    match factory {
        None => Ok((m.factory_type@, m.factory_method@)),
        Some(f) => match factory_path_of(f) {
            Err(msg) => Err(("factory"@, msg)),
            Ok((t, method)) => match merged_value(
                m.factory_type@,
                t,
                "factory"@,
                "factory_type"@,
            ) {
                Err(msg) => Err(("factory"@, msg)),
                Ok(ft) => match merged_value(
                    m.factory_method@,
                    method,
                    "factory"@,
                    "factory_method"@,
                ) {
                    Err(msg) => Err(("factory"@, msg)),
                    Ok(fm) => Ok((ft, fm)),
                },
            },
        },
    }
}

/// A type option after its path option `arg` (given for `key`, merging into
/// the string option `legacy_key` whose value is `existing`), or the refusal.
pub open spec fn type_outcome(
    arg: Option<PathArg>,
    existing: Seq<char>,
    key: Seq<char>,
    legacy_key: Seq<char>,
) -> Result<Seq<char>, (Seq<char>, Seq<char>)> {
    match arg {
        None => Ok(existing),
        Some(a) => match type_path_of(a, key) {
            Err(msg) => Err((key, msg)),
            Ok(t) => match merged_value(existing, t, key, legacy_key) {
                Err(msg) => Err((key, msg)),
                Ok(v) => Ok(v),
            },
        },
    }
}

/// `e` is the refusal `(key, message)`.
pub open spec fn path_error_is(e: PathArgError, expected: (Seq<char>, Seq<char>)) -> bool {
    e.key@ == expected.0 && e.message@ == expected.1
}

fn merge_path_value(
    existing: &mut String,
    value: &str,
    path_key: &str,
    legacy_key: &str,
) -> (res: Result<(), PathArgError>)
    ensures
        match merged_value(old(existing)@, value@, path_key@, legacy_key@) {
            Ok(v) => res is Ok && final(existing)@ == v,
            Err(msg) => res matches Err(e) && e.key@ == path_key@ && e.message@ == msg,
        },
{
    match apply_path_value(existing, value, path_key, legacy_key) {
        Ok(()) => Ok(()),
        Err(message) => Err(PathArgError { key: String::from_str(path_key), message }),
    }
}

/// The outcome of merging the `factory`, `diff` and `item` path options into
/// `meta`: the first refusal, or `meta` with the merged values.
pub open spec fn path_args_outcome(
    factory: Option<PathArg>,
    diff: Option<PathArg>,
    item: Option<PathArg>,
    meta: VmMetaLocal,
    res: Result<VmMetaLocal, PathArgError>,
) -> bool {
    match (
        factory_outcome(factory, meta),
        type_outcome(diff, meta.diff_type@, "diff"@, "diff_type"@),
        type_outcome(item, meta.list_item_type@, "item"@, "list_item_type"@),
    ) {
        (Err(e), _, _) => res matches Err(r) && path_error_is(r, e),
        (Ok(_), Err(e), _) => res matches Err(r) && path_error_is(r, e),
        (Ok(_), Ok(_), Err(e)) => res matches Err(r) && path_error_is(r, e),
        (Ok((ft, fm)), Ok(d), Ok(i)) => res matches Ok(n) && n.factory_type@ == ft
            && n.factory_method@ == fm && n.diff_type@ == d && n.list_item_type@ == i
            && n.swift_bridge == meta.swift_bridge && n.mode == meta.mode && n.vm_type
            == meta.vm_type && n.observer == meta.observer && n.observer_method
            == meta.observer_method && n.state_type == meta.state_type && n.factory_bridge
            == meta.factory_bridge && n.methods == meta.methods,
    }
}

/// Merges the `factory`, `diff` and `item` path options into the string
/// options of `meta`, in that order; a path that disagrees with a string
/// option given for the same thing is refused.
pub fn apply_path_args(
    factory: &Option<PathArg>,
    diff: &Option<PathArg>,
    item: &Option<PathArg>,
    meta: VmMetaLocal,
) -> (res: Result<VmMetaLocal, PathArgError>)
    ensures
        path_args_outcome(*factory, *diff, *item, meta, res),
{
    let mut meta = meta;
    if let Some(f) = factory {
        let (factory_type, factory_method) = match parse_factory_path(f) {
            Ok(parts) => parts,
            Err(message) => {
                return Err(PathArgError { key: String::from_str("factory"), message });
            },
        };
        merge_path_value(&mut meta.factory_type, factory_type.as_str(), "factory", "factory_type")?;
        merge_path_value(
            &mut meta.factory_method,
            factory_method.as_str(),
            "factory",
            "factory_method",
        )?;
    }
    if let Some(d) = diff {
        let diff_type = match parse_type_path(d, "diff") {
            Ok(t) => t,
            Err(message) => {
                return Err(PathArgError { key: String::from_str("diff"), message });
            },
        };
        merge_path_value(&mut meta.diff_type, diff_type.as_str(), "diff", "diff_type")?;
    }
    if let Some(i) = item {
        let list_item_type = match parse_type_path(i, "item") {
            Ok(t) => t,
            Err(message) => {
                return Err(PathArgError { key: String::from_str("item"), message });
            },
        };
        merge_path_value(&mut meta.list_item_type, list_item_type.as_str(), "item", "list_item_type")?;
    }
    Ok(meta)
}

/// The bridge name: the given one, or `<VmType>Bridge`.
pub open spec fn bridge_default(m: VmMetaLocal) -> Seq<char> {
    if is_blank(m.swift_bridge@) {
        m.vm_type@ + "Bridge"@
    } else {
        m.swift_bridge@
    }
}

/// The observer trait: the given one, or the one `subscribe` takes; or why
/// it cannot be inferred.
pub open spec fn observer_default(m: VmMetaLocal) -> Result<Seq<char>, Seq<char>> {
    if is_blank(m.observer@) {
        match observer_inference(m.methods@) {
            Err(e) => Err(e),
            Ok(Some(t)) => Ok(t),
            Ok(None) => Ok(m.observer@),
        }
    } else {
        Ok(m.observer@)
    }
}

/// The observer callback: the given one, or the mode's usual one (none for
/// an unknown mode).
pub open spec fn observer_method_default(m: VmMetaLocal) -> Seq<char> {
    if is_blank(m.observer_method@) {
        if m.mode@ == "state"@ {
            "on_state"@
        } else if m.mode@ == "diff_list"@ {
            "on_diffs"@
        } else if m.mode@ == "event"@ {
            "on_event"@
        } else {
            Seq::empty()
        }
    } else {
        m.observer_method@
    }
}

/// The refusal of a state VM whose state type cannot be inferred.
pub open spec fn state_getter_message() -> Seq<char> {
    "state VM requires get_state() with no arguments returning a non-unit state type, or an explicit state_type override"@
}

/// The state type: the given one, or for a state VM the one `get_state()`
/// returns; or why it cannot be inferred.
pub open spec fn state_default(m: VmMetaLocal) -> Result<Seq<char>, Seq<char>> {
    if m.mode@ == "state"@ && is_blank(m.state_type@) {
        match state_inference(m.methods@) {
            Some(t) => Ok(t),
            None => Err(state_getter_message()),
        }
    } else {
        Ok(m.state_type@)
    }
}

/// `n` is `m` with the fields that `apply_defaults` leaves alone unchanged.
pub open spec fn same_options(n: VmMetaLocal, m: VmMetaLocal) -> bool {
    &&& n.mode == m.mode
    &&& n.vm_type == m.vm_type
    &&& n.diff_type == m.diff_type
    &&& n.list_item_type == m.list_item_type
    &&& n.factory_type == m.factory_type
    &&& n.factory_method == m.factory_method
    &&& n.factory_bridge == m.factory_bridge
    &&& n.methods == m.methods
}

/// The outcome of `apply_defaults` on `m`: `n` and `res` are what it leaves.
pub open spec fn defaults_outcome(m: VmMetaLocal, n: VmMetaLocal, res: Result<(), String>) -> bool {
    &&& same_options(n, m)
    &&& n.swift_bridge@ == bridge_default(m)
    &&& match observer_default(m) {
        Err(e) => res matches Err(r) && r@ == e && n.observer == m.observer && n.observer_method
            == m.observer_method && n.state_type == m.state_type,
        Ok(o) => n.observer@ == o && n.observer_method@ == observer_method_default(m)
            && match state_default(m) {
            Err(e) => res matches Err(r) && r@ == e && n.state_type == m.state_type,
            Ok(t) => res is Ok && n.state_type@ == t,
        },
    }
}

/// Fills in the bridge name, observer, observer callback and state type that
/// the attribute leaves out, inferring them from the impl's methods.
pub fn apply_defaults(meta: &mut VmMetaLocal) -> (res: Result<(), String>)
    ensures
        defaults_outcome(*old(meta), *final(meta), res),
{
    if str_blank(meta.swift_bridge.as_str()) {
        let mut name = meta.vm_type.clone();
        name.append("Bridge");
        meta.swift_bridge = name;
    }
    if str_blank(meta.observer.as_str()) {
        match infer_observer_type(&meta.methods) {
            Err(e) => {
                return Err(e);
            },
            Ok(Some(observer)) => {
                meta.observer = observer;
            },
            Ok(None) => {},
        }
    }
    if str_blank(meta.observer_method.as_str()) {
        let mode = meta.mode.as_str();
        meta.observer_method = if str_eq(mode, "state") {
            String::from_str("on_state")
        } else if str_eq(mode, "diff_list") {
            String::from_str("on_diffs")
        } else if str_eq(mode, "event") {
            String::from_str("on_event")
        } else {
            String::new()
        };
    }
    if str_eq(meta.mode.as_str(), "state") && str_blank(meta.state_type.as_str()) {
        match infer_state_type(&meta.methods) {
            Some(t) => {
                meta.state_type = t;
            },
            None => {
                return Err(
                    String::from_str(
                        "state VM requires get_state() with no arguments returning a non-unit state type, or an explicit state_type override",
                    ),
                );
            },
        }
    }
    Ok(())
}

/// The factory's bridge: the given one, else `<FactoryType>Bridge` when a
/// factory type is given.
pub open spec fn factory_bridge_default(m: VmMetaLocal) -> Seq<char> {
    if is_blank(m.factory_bridge@) && !is_blank(m.factory_type@) {
        m.factory_type@ + "Bridge"@
    } else {
        m.factory_bridge@
    }
}

/// The bridge name of the factory's VM.
pub fn resolved_factory_bridge_name(meta: &VmMetaLocal) -> (res: String)
    ensures
        res@ == factory_bridge_default(*meta),
{
    if str_blank(meta.factory_bridge.as_str()) && !str_blank(meta.factory_type.as_str()) {
        let mut name = meta.factory_type.clone();
        name.append("Bridge");
        name
    } else {
        meta.factory_bridge.clone()
    }
}

// ---------------------------------------------------------------------------
// The metadata.
// ---------------------------------------------------------------------------

/// The VM mode an attribute's `mode` option names.
pub open spec fn mode_of(mode: Seq<char>) -> VmMode {
    if mode == "state"@ {
        VmMode::State
    } else if mode == "diff_list"@ {
        VmMode::DiffList
    } else if mode == "event"@ {
        VmMode::Event
    } else {
        VmMode::Unknown
    }
}

/// `o` is absent for a blank `v`, else holds `v`.
pub open spec fn optional_text(o: Option<String>, v: Seq<char>) -> bool {
    if is_blank(v) {
        o is None
    } else {
        o matches Some(s) && s@ == v
    }
}

/// The metadata method of a public method: its name, its arguments' names
/// and platform types, and its platform return type.
pub open spec fn method_ir(md: MethodMetadata, mi: MethodInfo) -> bool {
    &&& md.name@ == mi.name@
    &&& md.args@.len() == mi.args@.len()
    &&& forall|j: int|
        0 <= j < md.args@.len() ==> (#[trigger] md.args@[j]).name@ == mi.args@[j].name@
            && md.args@[j].rust_type@ == export_name(mi.args@[j].ty@)
    &&& md.return_type@ == export_name(mi.ret@)
}

/// `ir` is the target-independent metadata of `m`.
pub open spec fn ir_matches(ir: VmMetadata, m: VmMetaLocal) -> bool {
    &&& ir.schema_version == VM_METADATA_SCHEMA_VERSION
    &&& ir.rust_type@ == m.vm_type@
    &&& ir.bridge_name@ == m.swift_bridge@
    &&& ir.mode == mode_of(m.mode@)
    &&& if is_blank(m.observer@) && is_blank(m.observer_method@) {
        ir.observer is None
    } else {
        ir.observer matches Some(o) && o.rust_type@ == m.observer@ && o.method@
            == m.observer_method@
    }
    &&& optional_text(ir.state_type, m.state_type@)
    &&& optional_text(ir.diff_type, m.diff_type@)
    &&& optional_text(ir.list_item_type, m.list_item_type@)
    &&& if is_blank(m.factory_type@) && is_blank(m.factory_method@) {
        ir.factory is None
    } else {
        ir.factory matches Some(f) && f.rust_type@ == m.factory_type@ && f.method@
            == m.factory_method@ && f.bridge_name@ == factory_bridge_default(m)
    }
    &&& ir.methods@.len() == m.methods@.len()
    &&& forall|i: int| 0 <= i < ir.methods@.len() ==> method_ir(#[trigger] ir.methods@[i], m.methods@[i])
}

fn optional_string(value: &String) -> (res: Option<String>)
    ensures
        optional_text(res, value@),
{
    if str_blank(value.as_str()) {
        None
    } else {
        Some(value.clone())
    }
}

fn vm_mode(mode: &str) -> (res: VmMode)
    ensures
        res == mode_of(mode@),
{
    if str_eq(mode, "state") {
        VmMode::State
    } else if str_eq(mode, "diff_list") {
        VmMode::DiffList
    } else if str_eq(mode, "event") {
        VmMode::Event
    } else {
        VmMode::Unknown
    }
}

fn ir_method(method: &MethodInfo) -> (res: MethodMetadata)
    ensures
        method_ir(res, *method),
{
    let mut args: Vec<ArgMetadata> = Vec::new();
    let mut j: usize = 0;
    while j < method.args.len()
        invariant
            j <= method.args@.len(),
            args@.len() == j,
            forall|k: int|
                0 <= k < j ==> (#[trigger] args@[k]).name@ == method.args@[k].name@
                    && args@[k].rust_type@ == export_name(method.args@[k].ty@),
        decreases method.args@.len() - j,
    {
        let arg = &method.args[j];
        args.push(
            ArgMetadata {
                name: arg.name.clone(),
                rust_type: platform_export_type_name(arg.ty.as_str()),
            },
        );
        j = j + 1;
    }
    MethodMetadata {
        name: method.name.clone(),
        args,
        return_type: platform_export_type_name(method.ret.as_str()),
    }
}

/// The target-independent metadata of `meta`, as the attribute emits it.
pub fn metadata_ir(meta: &VmMetaLocal) -> (ir: VmMetadata)
    ensures
        ir_matches(ir, *meta),
{
    let observer = if str_blank(meta.observer.as_str()) && str_blank(
        meta.observer_method.as_str(),
    ) {
        None
    } else {
        Some(
            ObserverMetadata {
                rust_type: meta.observer.clone(),
                method: meta.observer_method.clone(),
            },
        )
    };
    let factory = if str_blank(meta.factory_type.as_str()) && str_blank(
        meta.factory_method.as_str(),
    ) {
        None
    } else {
        Some(
            FactoryMetadata {
                rust_type: meta.factory_type.clone(),
                method: meta.factory_method.clone(),
                bridge_name: resolved_factory_bridge_name(meta),
            },
        )
    };
    let mut methods: Vec<MethodMetadata> = Vec::new();
    let mut i: usize = 0;
    while i < meta.methods.len()
        invariant
            i <= meta.methods@.len(),
            methods@.len() == i,
            forall|k: int| 0 <= k < i ==> method_ir(#[trigger] methods@[k], meta.methods@[k]),
        decreases meta.methods@.len() - i,
    {
        methods.push(ir_method(&meta.methods[i]));
        i = i + 1;
    }
    VmMetadata {
        schema_version: VM_METADATA_SCHEMA_VERSION,
        rust_type: meta.vm_type.clone(),
        bridge_name: meta.swift_bridge.clone(),
        mode: vm_mode(meta.mode.as_str()),
        observer,
        state_type: optional_string(&meta.state_type),
        diff_type: optional_string(&meta.diff_type),
        list_item_type: optional_string(&meta.list_item_type),
        factory,
        methods,
    }
}

/// Why the attribute refuses metadata `ir`: its validation error, or why no
/// Swift bridge can be generated for it.
pub open spec fn ir_fault(ir: VmMetadata) -> Option<Seq<char>> {
    match validation_error(ir) {
        Some(e) => Some("invalid vm_bridge metadata: "@ + crate::codegen::validation_message(e)),
        None => match swift_bridge_source(ir) {
            Err(f) => Some("invalid vm_bridge metadata: "@ + crate::codegen::fault_message(f)),
            Ok(_) => None,
        },
    }
}

/// The outcome of `finalize_metadata` on `meta`: the completed options, their
/// metadata and its Swift bridge source; or the first refusal.
pub open spec fn finalize_outcome(
    meta: VmMetaLocal,
    res: Result<(VmMetaLocal, VmMetadata, String), String>,
) -> bool {
    match res {
        Ok((n, ir, code)) => defaults_outcome(meta, n, Ok(())) && ir_matches(ir, n) && ir_fault(ir)
            is None && swift_bridge_source(ir) == Ok::<Seq<char>, CodegenFault>(code@),
        Err(msg) => exists|n: VmMetaLocal, r: Result<(), String>|
            #![trigger defaults_outcome(meta, n, r)]
            defaults_outcome(meta, n, r) && match r {
                Err(e) => msg@ == e@,
                Ok(_) => exists|ir: VmMetadata| #[trigger]
                    ir_matches(ir, n) && ir_fault(ir) == Some(msg@),
            },
    }
}

/// Applies the defaults to `meta`, derives its metadata, and generates the
/// Swift bridge source the attribute embeds for older packagers. Refuses
/// metadata that fails validation or bridge generation.
pub fn finalize_metadata(meta: VmMetaLocal) -> (res: Result<(VmMetaLocal, VmMetadata, String), String>)
    ensures
        finalize_outcome(meta, res),
{
    let ghost original = meta;
    let mut meta = meta;
    let defaults = apply_defaults(&mut meta);
    match defaults {
        Err(e) => {
            assert(defaults_outcome(original, meta, Err(e)));
            return Err(e);
        },
        Ok(()) => {},
    }
    let ir = metadata_ir(&meta);
    match ir.validate() {
        Err(e) => {
            let mut message = String::from_str("invalid vm_bridge metadata: ");
            message.append(e.message().as_str());
            assert(ir_matches(ir, meta) && ir_fault(ir) == Some(message@));
            return Err(message);
        },
        Ok(()) => {},
    }
    match generate_swift_bridge_source(&ir) {
        Err(e) => {
            let mut message = String::from_str("invalid vm_bridge metadata: ");
            message.append(e.message().as_str());
            assert(codegen_message(e) == crate::codegen::fault_message(fault_of(e)));
            assert(ir_matches(ir, meta) && ir_fault(ir) == Some(message@));
            Err(message)
        },
        Ok(code) => Ok((meta, ir, code)),
    }
}

} // verus!
