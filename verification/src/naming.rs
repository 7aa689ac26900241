//! Naming conventions shared by the Swift and Kotlin generators: method and
//! property names, identifier rules, and Rust-to-platform type mapping.
use vstd::prelude::*;
use crate::text::{
    ascii_lower, ascii_upper, chars_contains, chars_ends_with, chars_is, chars_of, chars_range,
    chars_starts_with, contains, ends_with, is_ascii_alnum, is_ascii_alpha, lemma_trim_len,
    push_char, starts_with, string_of, string_of_range, trim, trim_bounds,
};

verus! {

// ---------------------------------------------------------------------------
// Method and property names.
// ---------------------------------------------------------------------------

/// snake_case to lowerCamelCase: underscores are dropped and the character
/// after an underscore is upper-cased.
pub open spec fn camel(s: Seq<char>) -> Seq<char>
    decreases s.len(),
{
    if s.len() == 0 {
        Seq::empty()
    } else {
        let c = s.last();
        let prev = camel(s.drop_last());
        if c == '_' {
            prev
        } else if s.len() >= 2 && s[s.len() - 2] == '_' {
            prev.push(ascii_upper(c))
        } else {
            prev.push(c)
        }
    }
}

/// Converts a Rust snake_case name to a Swift/Kotlin lowerCamelCase name.
pub fn to_swift_method_name(name: &str) -> (res: String)
    ensures
        res@ == camel(name@),
{
    let v = chars_of(name);
    let mut out = String::new();
    let mut i: usize = 0;
    while i < v.len()
        invariant
            i <= v.len(),
            out@ == camel(v@.take(i as int)),
        decreases v.len() - i,
    {
        let c = v[i];
        assert(v@.take(i + 1).drop_last() =~= v@.take(i as int));
        if c == '_' {
        } else if i >= 1 && v[i - 1] == '_' {
            let u = if 'a' <= c && c <= 'z' {
                ((c as u8) - 32) as char
            } else {
                c
            };
            assert(u == ascii_upper(c)) by {
                if 'a' <= c && c <= 'z' {
                    assert(((c as u8) - 32) as char == ((c as u32) - 32) as char);
                }
            }
            push_char(&mut out, u);
        } else {
            push_char(&mut out, c);
        }
        i = i + 1;
    }
    assert(v@.take(v.len() as int) =~= v@);
    out
}

/// The Kotlin method name of a Rust method (the same convention as Swift).
pub fn to_kotlin_method_name(name: &str) -> (res: String)
    ensures
        res@ == camel(name@),
{
    to_swift_method_name(name)
}

/// The root-container property for a VM type: `ViewModel` is dropped and the
/// first character lower-cased.
pub open spec fn property_of(t: Seq<char>) -> Seq<char> {
    let stripped = if ends_with(t, "ViewModel"@) {
        t.take(t.len() - 9)
    } else {
        t
    };
    let base = if stripped.len() == 0 {
        t
    } else {
        stripped
    };
    if base.len() == 0 {
        Seq::empty()
    } else {
        seq![ascii_lower(base[0])] + base.drop_first()
    }
}

fn lower_char(c: char) -> (r: char)
    ensures
        r == ascii_lower(c),
{
    if 'A' <= c && c <= 'Z' {
        let r = ((c as u8) + 32) as char;
        assert(r == ((c as u32) + 32) as char);
        r
    } else {
        c
    }
}

/// Computes the root-container property name for a VM type.
pub fn property_name(rust_type: &str) -> (res: String)
    ensures
        res@ == property_of(rust_type@),
{
    let v = chars_of(rust_type);
    proof {
        reveal_strlit("ViewModel");
    }
    let end = if chars_ends_with(&v, "ViewModel") {
        v.len() - 9
    } else {
        v.len()
    };
    let base = if end == 0 {
        chars_range(&v, 0, v.len())
    } else {
        chars_range(&v, 0, end)
    };
    proof {
        assert(v@.subrange(0, v@.len() as int) =~= v@);
        assert(v@.take(end as int) =~= v@.subrange(0, end as int));
    }
    if base.len() == 0 {
        return String::new();
    }
    let mut out = String::new();
    push_char(&mut out, lower_char(base[0]));
    let rest = string_of_range(&base, 1, base.len());
    out.append(rest.as_str());
    proof {
        assert(base@.subrange(1, base@.len() as int) =~= base@.drop_first());
        assert(out@ =~= seq![ascii_lower(base@[0])] + base@.drop_first());
    }
    out
}

// ---------------------------------------------------------------------------
// Identifiers.
// ---------------------------------------------------------------------------

/// An ASCII identifier that is not `_`: a letter or `_`, then letters, digits or `_`.
pub open spec fn is_identifier(v: Seq<char>) -> bool {
    &&& v != "_"@
    &&& v.len() > 0
    &&& (v[0] == '_' || is_ascii_alpha(v[0]))
    &&& forall|i: int| 1 <= i < v.len() ==> (#[trigger] v[i] == '_' || is_ascii_alnum(v[i]))
}

/// Checks `is_identifier`.
pub fn is_ascii_identifier(value: &str) -> (r: bool)
    ensures
        r == is_identifier(value@),
{
    let v = chars_of(value);
    if chars_is(&v, "_") {
        return false;
    }
    if v.len() == 0 {
        return false;
    }
    let first = v[0];
    if !(first == '_' || ('a' <= first && first <= 'z') || ('A' <= first && first <= 'Z')) {
        return false;
    }
    let mut i: usize = 1;
    while i < v.len()
        invariant
            1 <= i <= v.len(),
            v@ == value@,
            v@ != "_"@,
            v@[0] == '_' || is_ascii_alpha(v@[0]),
            forall|j: int| 1 <= j < i ==> (#[trigger] v@[j] == '_' || is_ascii_alnum(v@[j])),
        decreases v.len() - i,
    {
        let c = v[i];
        if !(c == '_' || ('a' <= c && c <= 'z') || ('A' <= c && c <= 'Z') || ('0' <= c && c
            <= '9')) {
            assert(!(v@[i as int] == '_' || is_ascii_alnum(v@[i as int])));
            return false;
        }
        i = i + 1;
    }
    true
}

/// A keyword of Swift or Kotlin that generated code cannot use as a name.
pub open spec fn is_keyword(v: Seq<char>) -> bool {
    ||| v == "Any"@
    ||| v == "Self"@
    ||| v == "actor"@
    ||| v == "actual"@
    ||| v == "abstract"@
    ||| v == "annotation"@
    ||| v == "as"@
    ||| v == "associatedtype"@
    ||| v == "async"@
    ||| v == "await"@
    ||| v == "break"@
    ||| v == "by"@
    ||| v == "case"@
    ||| v == "catch"@
    ||| v == "class"@
    ||| v == "companion"@
    ||| v == "const"@
    ||| v == "constructor"@
    ||| v == "continue"@
    ||| v == "convenience"@
    ||| v == "data"@
    ||| v == "default"@
    ||| v == "defer"@
    ||| v == "deinit"@
    ||| v == "do"@
    ||| v == "dynamic"@
    ||| v == "else"@
    ||| v == "enum"@
    ||| v == "expect"@
    ||| v == "extension"@
    ||| v == "external"@
    ||| v == "fallthrough"@
    ||| v == "false"@
    ||| v == "fileprivate"@
    ||| v == "final"@
    ||| v == "finally"@
    ||| v == "for"@
    ||| v == "fun"@
    ||| v == "func"@
    ||| v == "if"@
    ||| v == "import"@
    ||| v == "in"@
    ||| v == "indirect"@
    ||| v == "infix"@
    ||| v == "init"@
    ||| v == "inner"@
    ||| v == "inout"@
    ||| v == "interface"@
    ||| v == "internal"@
    ||| v == "is"@
    ||| v == "lateinit"@
    ||| v == "let"@
    ||| v == "mutating"@
    ||| v == "nil"@
    ||| v == "noinline"@
    ||| v == "nonmutating"@
    ||| v == "null"@
    ||| v == "object"@
    ||| v == "open"@
    ||| v == "operator"@
    ||| v == "out"@
    ||| v == "override"@
    ||| v == "package"@
    ||| v == "precedencegroup"@
    ||| v == "private"@
    ||| v == "protected"@
    ||| v == "protocol"@
    ||| v == "public"@
    ||| v == "reified"@
    ||| v == "required"@
    ||| v == "return"@
    ||| v == "rethrows"@
    ||| v == "sealed"@
    ||| v == "self"@
    ||| v == "static"@
    ||| v == "struct"@
    ||| v == "subscript"@
    ||| v == "super"@
    ||| v == "suspend"@
    ||| v == "switch"@
    ||| v == "this"@
    ||| v == "throw"@
    ||| v == "throws"@
    ||| v == "true"@
    ||| v == "try"@
    ||| v == "typealias"@
    ||| v == "typeof"@
    ||| v == "unowned"@
    ||| v == "val"@
    ||| v == "var"@
    ||| v == "vararg"@
    ||| v == "weak"@
    ||| v == "when"@
    ||| v == "where"@
    ||| v == "while"@
}

/// Checks `is_keyword`.
pub fn is_swift_or_kotlin_keyword(value: &str) -> (r: bool)
    ensures
        r == is_keyword(value@),
{
    let v = chars_of(value);
    if chars_is(&v, "Any") {
        return true;
    }
    if chars_is(&v, "Self") {
        return true;
    }
    if chars_is(&v, "actor") {
        return true;
    }
    if chars_is(&v, "actual") {
        return true;
    }
    if chars_is(&v, "abstract") {
        return true;
    }
    if chars_is(&v, "annotation") {
        return true;
    }
    if chars_is(&v, "as") {
        return true;
    }
    if chars_is(&v, "associatedtype") {
        return true;
    }
    if chars_is(&v, "async") {
        return true;
    }
    if chars_is(&v, "await") {
        return true;
    }
    if chars_is(&v, "break") {
        return true;
    }
    if chars_is(&v, "by") {
        return true;
    }
    if chars_is(&v, "case") {
        return true;
    }
    if chars_is(&v, "catch") {
        return true;
    }
    if chars_is(&v, "class") {
        return true;
    }
    if chars_is(&v, "companion") {
        return true;
    }
    if chars_is(&v, "const") {
        return true;
    }
    if chars_is(&v, "constructor") {
        return true;
    }
    if chars_is(&v, "continue") {
        return true;
    }
    if chars_is(&v, "convenience") {
        return true;
    }
    if chars_is(&v, "data") {
        return true;
    }
    if chars_is(&v, "default") {
        return true;
    }
    if chars_is(&v, "defer") {
        return true;
    }
    if chars_is(&v, "deinit") {
        return true;
    }
    if chars_is(&v, "do") {
        return true;
    }
    if chars_is(&v, "dynamic") {
        return true;
    }
    if chars_is(&v, "else") {
        return true;
    }
    if chars_is(&v, "enum") {
        return true;
    }
    if chars_is(&v, "expect") {
        return true;
    }
    if chars_is(&v, "extension") {
        return true;
    }
    if chars_is(&v, "external") {
        return true;
    }
    if chars_is(&v, "fallthrough") {
        return true;
    }
    if chars_is(&v, "false") {
        return true;
    }
    if chars_is(&v, "fileprivate") {
        return true;
    }
    if chars_is(&v, "final") {
        return true;
    }
    if chars_is(&v, "finally") {
        return true;
    }
    if chars_is(&v, "for") {
        return true;
    }
    if chars_is(&v, "fun") {
        return true;
    }
    if chars_is(&v, "func") {
        return true;
    }
    if chars_is(&v, "if") {
        return true;
    }
    if chars_is(&v, "import") {
        return true;
    }
    if chars_is(&v, "in") {
        return true;
    }
    if chars_is(&v, "indirect") {
        return true;
    }
    if chars_is(&v, "infix") {
        return true;
    }
    if chars_is(&v, "init") {
        return true;
    }
    if chars_is(&v, "inner") {
        return true;
    }
    if chars_is(&v, "inout") {
        return true;
    }
    if chars_is(&v, "interface") {
        return true;
    }
    if chars_is(&v, "internal") {
        return true;
    }
    if chars_is(&v, "is") {
        return true;
    }
    if chars_is(&v, "lateinit") {
        return true;
    }
    if chars_is(&v, "let") {
        return true;
    }
    if chars_is(&v, "mutating") {
        return true;
    }
    if chars_is(&v, "nil") {
        return true;
    }
    if chars_is(&v, "noinline") {
        return true;
    }
    if chars_is(&v, "nonmutating") {
        return true;
    }
    if chars_is(&v, "null") {
        return true;
    }
    if chars_is(&v, "object") {
        return true;
    }
    if chars_is(&v, "open") {
        return true;
    }
    if chars_is(&v, "operator") {
        return true;
    }
    if chars_is(&v, "out") {
        return true;
    }
    if chars_is(&v, "override") {
        return true;
    }
    if chars_is(&v, "package") {
        return true;
    }
    if chars_is(&v, "precedencegroup") {
        return true;
    }
    if chars_is(&v, "private") {
        return true;
    }
    if chars_is(&v, "protected") {
        return true;
    }
    if chars_is(&v, "protocol") {
        return true;
    }
    if chars_is(&v, "public") {
        return true;
    }
    if chars_is(&v, "reified") {
        return true;
    }
    if chars_is(&v, "required") {
        return true;
    }
    if chars_is(&v, "return") {
        return true;
    }
    if chars_is(&v, "rethrows") {
        return true;
    }
    if chars_is(&v, "sealed") {
        return true;
    }
    if chars_is(&v, "self") {
        return true;
    }
    if chars_is(&v, "static") {
        return true;
    }
    if chars_is(&v, "struct") {
        return true;
    }
    if chars_is(&v, "subscript") {
        return true;
    }
    if chars_is(&v, "super") {
        return true;
    }
    if chars_is(&v, "suspend") {
        return true;
    }
    if chars_is(&v, "switch") {
        return true;
    }
    if chars_is(&v, "this") {
        return true;
    }
    if chars_is(&v, "throw") {
        return true;
    }
    if chars_is(&v, "throws") {
        return true;
    }
    if chars_is(&v, "true") {
        return true;
    }
    if chars_is(&v, "try") {
        return true;
    }
    if chars_is(&v, "typealias") {
        return true;
    }
    if chars_is(&v, "typeof") {
        return true;
    }
    if chars_is(&v, "unowned") {
        return true;
    }
    if chars_is(&v, "val") {
        return true;
    }
    if chars_is(&v, "var") {
        return true;
    }
    if chars_is(&v, "vararg") {
        return true;
    }
    if chars_is(&v, "weak") {
        return true;
    }
    if chars_is(&v, "when") {
        return true;
    }
    if chars_is(&v, "where") {
        return true;
    }
    if chars_is(&v, "while") {
        return true;
    }
    false
}

/// Property names that the generated root containers use for themselves.
pub open spec fn is_reserved_property(v: Seq<char>) -> bool {
    v == "cancellables"@ || v == "closed"@ || v == "close"@ || v == "objectWillChange"@
}

/// Checks `is_reserved_property`.
pub fn is_reserved_root_container_property(value: &str) -> (r: bool)
    ensures
        r == is_reserved_property(value@),
{
    let v = chars_of(value);
    chars_is(&v, "cancellables") || chars_is(&v, "closed") || chars_is(&v, "close") || chars_is(
        &v,
        "objectWillChange",
    )
}

// ---------------------------------------------------------------------------
// Rust type strings to platform types.
// ---------------------------------------------------------------------------

/// `trim(t)` with the runtime subscription alias replaced by its short name.
pub open spec fn dealias(ty: Seq<char>) -> Seq<char> {
    if trim(ty) == "crate::runtime::SubscriptionId"@ {
        "SubscriptionId"@
    } else {
        trim(ty)
    }
}

/// A wrapper `prefix ... >` around an inner type, for `prefix` of length `n`.
pub open spec fn wraps(t: Seq<char>, prefix: Seq<char>) -> bool {
    starts_with(t, prefix) && t.len() >= prefix.len() + 1 && t.last() == '>'
}

/// The inner type of `prefix<inner>`.
pub open spec fn wrapped(t: Seq<char>, n: int) -> Seq<char> {
    t.subrange(n, t.len() - 1)
}

/// The names of the 64-bit subscription id types.
pub open spec fn is_id_type(t: Seq<char>) -> bool {
    t == "i64"@ || t == "SubscriptionId"@ || t == "cross_kit::SubscriptionId"@
        || t == "crate::SubscriptionId"@
}

pub proof fn lemma_dealias_len(ty: Seq<char>)
    ensures
        dealias(ty).len() <= ty.len(),
{
    lemma_trim_len(ty);
    reveal_strlit("crate::runtime::SubscriptionId");
    reveal_strlit("SubscriptionId");
}

/// The Swift spelling of a Rust type string.
pub open spec fn swift_type(ty: Seq<char>) -> Seq<char>
    decreases ty.len(),
{
    let t = dealias(ty);
    proof {
        lemma_dealias_len(ty);
        reveal_strlit("Arc<");
        reveal_strlit("std::sync::Arc<");
        reveal_strlit("dyn ");
        reveal_strlit("Option<");
        reveal_strlit("Vec<");
    }
    if t == "unit"@ {
        "Void"@
    } else if wraps(t, "Arc<"@) {
        if contains(t, "Arc<dyn "@) {
            swift_type(wrapped(t, 4))
        } else {
            swift_type(wrapped(t, 4)) + "Protocol"@
        }
    } else if wraps(t, "std::sync::Arc<"@) {
        if contains(t, "Arc<dyn "@) {
            swift_type(wrapped(t, 15))
        } else {
            swift_type(wrapped(t, 15)) + "Protocol"@
        }
    } else if starts_with(t, "dyn "@) {
        swift_type(t.skip(4))
    } else if wraps(t, "Option<"@) {
        swift_type(wrapped(t, 7)) + "?"@
    } else if wraps(t, "Vec<"@) {
        "["@ + swift_type(wrapped(t, 4)) + "]"@
    } else if is_id_type(t) {
        "Int64"@
    } else if t == "i32"@ {
        "Int32"@
    } else if t == "u64"@ {
        "UInt64"@
    } else if t == "u32"@ {
        "UInt32"@
    } else if t == "bool"@ {
        "Bool"@
    } else {
        t
    }
}

/// `s` with every leading copy of `p` removed (`trim_start_matches`).
pub open spec fn trim_start_matches(s: Seq<char>, p: Seq<char>) -> Seq<char>
    decreases s.len(),
{
    if p.len() > 0 && starts_with(s, p) {
        trim_start_matches(s.skip(p.len() as int), p)
    } else {
        s
    }
}

pub proof fn lemma_trim_start_matches_len(s: Seq<char>, p: Seq<char>)
    ensures
        trim_start_matches(s, p).len() <= s.len(),
    decreases s.len(),
{
    if p.len() > 0 && starts_with(s, p) {
        lemma_trim_start_matches_len(s.skip(p.len() as int), p);
    }
}

/// The Kotlin spelling of a Rust type string.
pub open spec fn kotlin_type(ty: Seq<char>) -> Seq<char>
    decreases ty.len(),
{
    let t = dealias(ty);
    proof {
        lemma_dealias_len(ty);
        reveal_strlit("Arc<");
        reveal_strlit("std::sync::Arc<");
        reveal_strlit("dyn ");
        reveal_strlit("Option<");
        reveal_strlit("Vec<");
        lemma_trim_start_matches_len(wrapped(t, 4), "dyn "@);
        lemma_trim_start_matches_len(wrapped(t, 15), "dyn "@);
    }
    if t == "unit"@ {
        "Unit"@
    } else if wraps(t, "Arc<"@) {
        kotlin_type(trim_start_matches(wrapped(t, 4), "dyn "@))
    } else if wraps(t, "std::sync::Arc<"@) {
        kotlin_type(trim_start_matches(wrapped(t, 15), "dyn "@))
    } else if starts_with(t, "dyn "@) {
        kotlin_type(t.skip(4))
    } else if wraps(t, "Option<"@) {
        kotlin_type(wrapped(t, 7)) + "?"@
    } else if wraps(t, "Vec<"@) {
        "List<"@ + kotlin_type(wrapped(t, 4)) + ">"@
    } else if is_id_type(t) {
        "Long"@
    } else if t == "i32"@ {
        "Int"@
    } else if t == "u64"@ {
        "ULong"@
    } else if t == "u32"@ {
        "UInt"@
    } else if t == "bool"@ {
        "Boolean"@
    } else {
        t
    }
}

/// The characters of `dealias(ty)`.
fn dealiased(ty: &str) -> (res: Vec<char>)
    ensures
        res@ == dealias(ty@),
{
    let v = chars_of(ty);
    let (lo, hi) = trim_bounds(&v);
    let t = chars_range(&v, lo, hi);
    if chars_is(&t, "crate::runtime::SubscriptionId") {
        chars_of("SubscriptionId")
    } else {
        t
    }
}

/// Checks `wraps(v, prefix)`.
pub(crate) fn wraps_exec(v: &Vec<char>, prefix: &str) -> (r: bool)
    ensures
        r == wraps(v@, prefix@),
{
    let n = prefix.unicode_len();
    chars_starts_with(v, prefix) && v.len() > n && v[v.len() - 1] == '>'
}

/// The string `v[lo..v.len() - 1]`, the inner type of a wrapper.
pub(crate) fn inner_of(v: &Vec<char>, lo: usize) -> (res: String)
    requires
        lo + 1 <= v.len(),
    ensures
        res@ == wrapped(v@, lo as int),
{
    string_of_range(v, lo, v.len() - 1)
}

/// Maps a Rust type string to its Swift spelling.
pub fn map_type_to_swift(ty: &str) -> (res: String)
    ensures
        res@ == swift_type(ty@),
    decreases ty@.len(),
{
    let t = dealiased(ty);
    proof {
        lemma_dealias_len(ty@);
        reveal_strlit("Arc<");
        reveal_strlit("std::sync::Arc<");
        reveal_strlit("dyn ");
        reveal_strlit("Option<");
        reveal_strlit("Vec<");
    }
    if chars_is(&t, "unit") {
        return String::from_str("Void");
    }
    if wraps_exec(&t, "Arc<") {
        let inner = inner_of(&t, 4);
        let mut mapped = map_type_to_swift(inner.as_str());
        if !chars_contains(&t, "Arc<dyn ") {
            mapped.append("Protocol");
        }
        return mapped;
    }
    if wraps_exec(&t, "std::sync::Arc<") {
        let inner = inner_of(&t, 15);
        let mut mapped = map_type_to_swift(inner.as_str());
        if !chars_contains(&t, "Arc<dyn ") {
            mapped.append("Protocol");
        }
        return mapped;
    }
    if chars_starts_with(&t, "dyn ") {
        let inner = string_of_range(&t, 4, t.len());
        proof {
            assert(t@.subrange(4, t@.len() as int) =~= t@.skip(4));
        }
        return map_type_to_swift(inner.as_str());
    }
    if wraps_exec(&t, "Option<") {
        let inner = inner_of(&t, 7);
        let mut mapped = map_type_to_swift(inner.as_str());
        mapped.append("?");
        return mapped;
    }
    if wraps_exec(&t, "Vec<") {
        let inner = inner_of(&t, 4);
        let mapped = map_type_to_swift(inner.as_str());
        let mut out = String::from_str("[");
        out.append(mapped.as_str());
        out.append("]");
        return out;
    }
    if chars_is(&t, "i64") || chars_is(&t, "SubscriptionId") || chars_is(
        &t,
        "cross_kit::SubscriptionId",
    ) || chars_is(&t, "crate::SubscriptionId") {
        return String::from_str("Int64");
    }
    if chars_is(&t, "i32") {
        return String::from_str("Int32");
    }
    if chars_is(&t, "u64") {
        return String::from_str("UInt64");
    }
    if chars_is(&t, "u32") {
        return String::from_str("UInt32");
    }
    if chars_is(&t, "bool") {
        return String::from_str("Bool");
    }
    string_of(&t)
}

/// The characters of `trim_start_matches(v, p)`.
fn strip_leading(v: Vec<char>, p: &str) -> (res: Vec<char>)
    ensures
        res@ == trim_start_matches(v@, p@),
    decreases v@.len(),
{
    let n = p.unicode_len();
    if n > 0 && chars_starts_with(&v, p) {
        let rest = chars_range(&v, n, v.len());
        assert(rest@ =~= v@.skip(n as int));
        strip_leading(rest, p)
    } else {
        v
    }
}

/// Maps a Rust type string to its Kotlin spelling.
pub fn map_type_to_kotlin(ty: &str) -> (res: String)
    ensures
        res@ == kotlin_type(ty@),
    decreases ty@.len(),
{
    let t = dealiased(ty);
    proof {
        lemma_dealias_len(ty@);
        reveal_strlit("Arc<");
        reveal_strlit("std::sync::Arc<");
        reveal_strlit("dyn ");
        reveal_strlit("Option<");
        reveal_strlit("Vec<");
    }
    if chars_is(&t, "unit") {
        return String::from_str("Unit");
    }
    if wraps_exec(&t, "Arc<") {
        let inner = strip_leading(chars_range(&t, 4, t.len() - 1), "dyn ");
        proof {
            lemma_trim_start_matches_len(wrapped(t@, 4), "dyn "@);
        }
        let inner = string_of(&inner);
        return map_type_to_kotlin(inner.as_str());
    }
    if wraps_exec(&t, "std::sync::Arc<") {
        let inner = strip_leading(chars_range(&t, 15, t.len() - 1), "dyn ");
        proof {
            lemma_trim_start_matches_len(wrapped(t@, 15), "dyn "@);
        }
        let inner = string_of(&inner);
        return map_type_to_kotlin(inner.as_str());
    }
    if chars_starts_with(&t, "dyn ") {
        let inner = string_of_range(&t, 4, t.len());
        proof {
            assert(t@.subrange(4, t@.len() as int) =~= t@.skip(4));
        }
        return map_type_to_kotlin(inner.as_str());
    }
    if wraps_exec(&t, "Option<") {
        let inner = inner_of(&t, 7);
        let mut mapped = map_type_to_kotlin(inner.as_str());
        mapped.append("?");
        return mapped;
    }
    if wraps_exec(&t, "Vec<") {
        let inner = inner_of(&t, 4);
        let mapped = map_type_to_kotlin(inner.as_str());
        let mut out = String::from_str("List<");
        out.append(mapped.as_str());
        out.append(">");
        return out;
    }
    if chars_is(&t, "i64") || chars_is(&t, "SubscriptionId") || chars_is(
        &t,
        "cross_kit::SubscriptionId",
    ) || chars_is(&t, "crate::SubscriptionId") {
        return String::from_str("Long");
    }
    if chars_is(&t, "i32") {
        return String::from_str("Int");
    }
    if chars_is(&t, "u64") {
        return String::from_str("ULong");
    }
    if chars_is(&t, "u32") {
        return String::from_str("UInt");
    }
    if chars_is(&t, "bool") {
        return String::from_str("Boolean");
    }
    string_of(&t)
}

/// The VM type owned by an `Arc<T>` (or `std::sync::Arc<T>`) return type;
/// `None` for other types and for trait objects.
pub open spec fn owned_arc(ty: Seq<char>) -> Option<Seq<char>> {
    let t = trim(ty);
    let rest = if starts_with(t, "Arc<"@) {
        Some(t.skip(4))
    } else if starts_with(t, "std::sync::Arc<"@) {
        Some(t.skip(15))
    } else {
        None
    };
    match rest {
        None => None,
        Some(r) => if r.len() > 0 && r.last() == '>' {
            let inner = trim(r.drop_last());
            if starts_with(inner, "dyn "@) {
                None
            } else {
                Some(inner)
            }
        } else {
            None
        },
    }
}

/// Computes `owned_arc`.
pub fn owned_arc_return_type(ty: &str) -> (res: Option<String>)
    ensures
        match res {
            None => owned_arc(ty@) is None,
            Some(s) => owned_arc(ty@) == Some(s@),
        },
{
    proof {
        reveal_strlit("Arc<");
        reveal_strlit("std::sync::Arc<");
    }
    let v = chars_of(ty);
    let (lo, hi) = trim_bounds(&v);
    let t = chars_range(&v, lo, hi);
    let start: usize = if chars_starts_with(&t, "Arc<") {
        4
    } else if chars_starts_with(&t, "std::sync::Arc<") {
        15
    } else {
        return None;
    };
    let r = chars_range(&t, start, t.len());
    assert(r@ =~= t@.skip(start as int));
    if !(r.len() > 0 && r[r.len() - 1] == '>') {
        return None;
    }
    let body = chars_range(&r, 0, r.len() - 1);
    assert(body@ =~= r@.drop_last());
    let (blo, bhi) = trim_bounds(&body);
    let inner = chars_range(&body, blo, bhi);
    if chars_starts_with(&inner, "dyn ") {
        None
    } else {
        Some(string_of(&inner))
    }
}

/// The Kotlin bridge class generated for a Rust VM type.
pub fn kotlin_bridge_name_for_rust_type(rust_type: &str) -> (res: String)
    ensures
        res@ == rust_type@ + "Bridge"@,
{
    let mut s = String::from_str(rust_type);
    s.append("Bridge");
    s
}

} // verus!
