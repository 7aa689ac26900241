//! The expansion of the `vm_bridge` attribute and of the older `ck_vm_bridge`
//! attribute: from the text of the attribute's arguments and of the annotated
//! impl to the VM metadata that the expansion embeds beside the impl.
//!
//! `syn` reads the impl and the string literals, and `proc_macro2` splits the
//! argument list into tokens; what they give back depends on the token
//! printer of the process (the compiler's inside a procedural macro,
//! proc-macro2's own elsewhere), so nothing is claimed of it. What the
//! attribute makes of what was read (the argument grammar, which methods
//! count, how types are spelled, which options stand for one another, how
//! the metadata is completed) is decided by the public functions here and in
//! `attr_args`, which take what was read as arguments and are proved exact.
use vstd::prelude::*;
use quote::ToTokens;
use crate::attribute_swift::{attr_swift_bridge, generate_swift_bridge};
use crate::bridge_meta::{
    apply_path_args, finalize_metadata, finalize_outcome, normalize_rust_type, normalized_type,
    path_args_outcome, ArgInfo, MethodInfo, PathArg, PathArgError, PathSegmentInfo, VmMetaLocal,
};
use crate::attr_args::{
    literals_named_plainly, raws_view, read_tokens, scan_options, takes_path, RawOption,
};
use crate::metadata::VmMetadata;
use crate::text::{replace_all, replaced, str_eq};

verus! {

// ---------------------------------------------------------------------------
// Reading Rust syntax with `syn`.
// ---------------------------------------------------------------------------

/// The character views of a list of pairs of strings.
pub open spec fn pairs_view(v: Seq<(String, String)>) -> Seq<(Seq<char>, Seq<char>)> {
    v.map_values(|p: (String, String)| (p.0@, p.1@))
}

/// The character views of a list of strings.
pub open spec fn texts_view(v: Seq<String>) -> Seq<Seq<char>> {
    v.map_values(|s: String| s@)
}

/// A path option as plain values: its segments and its printed form.
pub open spec fn path_arg_view(p: PathArg) -> (Seq<(Seq<char>, bool)>, Seq<char>) {
    (p.segments@.map_values(|s: PathSegmentInfo| (s.ident@, s.plain)), p.printed@)
}

/// A function item of an impl as `syn` reads it: whether it is `pub`, its
/// name, its arguments and its return type, each printed back as tokens.
pub struct ParsedMethod {
    pub is_public: bool,
    pub name: String,
    pub args: Vec<String>,
    pub ret: Option<String>,
}

/// A function item as plain values.
pub open spec fn parsed_method_view(m: ParsedMethod) -> (
    bool,
    Seq<char>,
    Seq<Seq<char>>,
    Option<Seq<char>>,
) {
    (
        m.is_public,
        m.name@,
        texts_view(m.args@),
        match m.ret {
            Some(r) => Some(r@),
            None => None,
        },
    )
}

/// Reads a string literal with `syn::parse_str::<syn::LitStr>` and gives its
/// value (escapes resolved), or syn's error message. Nothing is claimed of
/// the result.
#[verifier::external_body]
fn parse_lit_str(text: &str) -> Result<String, String> {
    match syn::parse_str::<syn::LitStr>(text) {
        Ok(lit) => Ok(lit.value()),
        Err(e) => Err(e.to_string()),
    }
}

/// Reads an impl block with `syn::parse_str::<syn::ItemImpl>`: its self type
/// and its items, printed back as tokens; or syn's error message. Nothing is
/// claimed of the result.
#[verifier::external_body]
fn parse_impl(text: &str) -> Result<(String, Vec<String>), String> {
    match syn::parse_str::<syn::ItemImpl>(text) {
        Ok(item) => Ok((
            item.self_ty.to_token_stream().to_string(),
            item.items.iter().map(|i| i.to_token_stream().to_string()).collect(),
        )),
        Err(e) => Err(e.to_string()),
    }
}

/// Reads one item of an impl with `syn::parse_str::<syn::ImplItem>`: a
/// function as a `ParsedMethod`, any other item as `None`; or syn's error
/// message. Nothing is claimed of the result.
#[verifier::external_body]
fn parse_impl_item(text: &str) -> Result<Option<ParsedMethod>, String> {
    match syn::parse_str::<syn::ImplItem>(text) {
        Ok(syn::ImplItem::Fn(f)) => Ok(Some(ParsedMethod {
            is_public: matches!(f.vis, syn::Visibility::Public(_)),
            name: f.sig.ident.to_string(),
            args: f.sig.inputs.iter().map(|a| a.to_token_stream().to_string()).collect(),
            ret: match f.sig.output {
                syn::ReturnType::Default => None,
                syn::ReturnType::Type(_, t) => Some(t.to_token_stream().to_string()),
            },
        })),
        Ok(_) => Ok(None),
        Err(e) => Err(e.to_string()),
    }
}

/// Reads one function argument with `syn::parse_str::<syn::FnArg>`: a typed
/// argument as its identifier (when its pattern is one) and its printed type,
/// a receiver as `None`; or syn's error message. Nothing is claimed of the
/// result.
#[verifier::external_body]
fn parse_fn_arg(text: &str) -> Result<Option<(Option<String>, String)>, String> {
    match syn::parse_str::<syn::FnArg>(text) {
        Ok(syn::FnArg::Typed(p)) => Ok(Some((
            match &*p.pat {
                syn::Pat::Ident(i) => Some(i.ident.to_string()),
                _ => None,
            },
            p.ty.to_token_stream().to_string(),
        ))),
        Ok(syn::FnArg::Receiver(_)) => Ok(None),
        Err(e) => Err(e.to_string()),
    }
}

// ---------------------------------------------------------------------------
// The impl's public methods.
// ---------------------------------------------------------------------------

/// A method of the metadata as plain values: name, arguments (name and
/// type) and return type.
pub open spec fn method_view(m: MethodInfo) -> (Seq<char>, Seq<(Seq<char>, Seq<char>)>, Seq<char>) {
    (m.name@, m.args@.map_values(|a: ArgInfo| (a.name@, a.ty@)), m.ret@)
}

/// The methods of the metadata as plain values.
pub open spec fn methods_view(ms: Seq<MethodInfo>) -> Seq<
    (Seq<char>, Seq<(Seq<char>, Seq<char>)>, Seq<char>),
> {
    ms.map_values(|m: MethodInfo| method_view(m))
}

/// How a type is spelled in the metadata: normalized (`vm_bridge`), or with
/// every space removed (`ck_vm_bridge`).
pub open spec fn spelled(ty: Seq<char>, collapse_spaces: bool) -> Seq<char> {
    if collapse_spaces {
        replace_all(ty, " "@, ""@)
    } else {
        normalized_type(ty)
    }
}

fn spell(ty: &str, collapse_spaces: bool) -> (res: String)
    ensures
        res@ == spelled(ty@, collapse_spaces),
{
    if collapse_spaces {
        proof {
            reveal_strlit(" ");
        }
        replaced(ty, " ", "")
    } else {
        normalize_rust_type(ty)
    }
}

/// An argument as read, as plain values: its name when its pattern is an
/// identifier, and its printed type; `None` for a receiver.
pub open spec fn arg_read_view(a: Option<(Option<String>, String)>) -> Option<(Option<Seq<char>>, Seq<char>)> {
    match a {
        Some((n, t)) => Some(
            (
                match n {
                    Some(x) => Some(x@),
                    None => None,
                },
                t@,
            ),
        ),
        None => None,
    }
}

/// The metadata arguments of arguments read as `args`: receivers left out,
/// an argument whose pattern is not an identifier named `arg`, types spelled.
pub open spec fn arg_infos(args: Seq<Option<(Option<Seq<char>>, Seq<char>)>>, collapse_spaces: bool) -> Seq<
    (Seq<char>, Seq<char>),
>
    decreases args.len(),
{
    if args.len() == 0 {
        Seq::empty()
    } else {
        let prefix = arg_infos(args.drop_last(), collapse_spaces);
        match args.last() {
            None => prefix,
            Some((name, ty)) => prefix.push(
                (
                    match name {
                        Some(n) => n,
                        None => "arg"@,
                    },
                    spelled(ty, collapse_spaces),
                ),
            ),
        }
    }
}

/// The metadata method of a function read as `parsed` whose arguments were
/// read as `args`: `None` unless it is `pub`; `unit` for no return type.
pub open spec fn method_of(
    parsed: (bool, Seq<char>, Seq<Seq<char>>, Option<Seq<char>>),
    args: Seq<Option<(Option<Seq<char>>, Seq<char>)>>,
    collapse_spaces: bool,
) -> Option<(Seq<char>, Seq<(Seq<char>, Seq<char>)>, Seq<char>)> {
    if !parsed.0 {
        None
    } else {
        Some(
            (
                parsed.1,
                arg_infos(args, collapse_spaces),
                match parsed.3 {
                    None => "unit"@,
                    Some(t) => spelled(t, collapse_spaces),
                },
            ),
        )
    }
}

/// The metadata method of a function item read as `parsed`, whose
/// arguments were read, in order, as `args`: `None` unless the function is
/// `pub`; its arguments with receivers left out and `arg` for an argument
/// whose pattern is not an identifier; `unit` for no return type; types
/// normalized, or with every space removed.
pub fn method_info(
    parsed: &ParsedMethod,
    args: &Vec<Option<(Option<String>, String)>>,
    collapse_spaces: bool,
) -> (res: Option<MethodInfo>)
    ensures
        match method_of(parsed_method_view(*parsed), args@.map_values(|a| arg_read_view(a)), collapse_spaces) {
            Some(m) => res matches Some(x) && method_view(x) == m,
            None => res is None,
        },
{
    if !parsed.is_public {
        return None;
    }
    let ghost all = args@.map_values(|a| arg_read_view(a));
    let mut out: Vec<ArgInfo> = Vec::new();
    let mut i: usize = 0;
    assert(all.take(0) =~= Seq::<Option<(Option<Seq<char>>, Seq<char>)>>::empty());
    assert(out@.map_values(|x: ArgInfo| (x.name@, x.ty@)) =~= Seq::empty());
    proof {
        reveal_strlit("arg");
        reveal_strlit("unit");
    }
    while i < args.len()
        invariant
            i <= args@.len(),
            all == args@.map_values(|a| arg_read_view(a)),
            arg_infos(all.take(i as int), collapse_spaces) == out@.map_values(
                |x: ArgInfo| (x.name@, x.ty@),
            ),
        decreases args@.len() - i,
    {
        let ghost before = out@;
        assert(all.take(i + 1).drop_last() =~= all.take(i as int));
        assert(all.take(i + 1).last() == arg_read_view(args@[i as int]));
        match &args[i] {
            None => {},
            Some((name, ty)) => {
                let name = match name {
                    Some(n) => n.clone(),
                    None => String::from_str("arg"),
                };
                let ty = spell(ty.as_str(), collapse_spaces);
                out.push(ArgInfo { name, ty });
                assert(out@.map_values(|x: ArgInfo| (x.name@, x.ty@)) =~= before.map_values(
                    |x: ArgInfo| (x.name@, x.ty@),
                ).push((out@.last().name@, out@.last().ty@)));
            },
        }
        i = i + 1;
    }
    assert(all.take(args@.len() as int) =~= all);
    let ret = match &parsed.ret {
        None => String::from_str("unit"),
        Some(t) => spell(t.as_str(), collapse_spaces),
    };
    Some(MethodInfo { name: parsed.name.clone(), args: out, ret })
}

/// Every method of `ms` is what `method_info` makes of some function and
/// arguments as read.
pub open spec fn all_read_methods(ms: Seq<MethodInfo>, collapse_spaces: bool) -> bool {
    forall|i: int|
        0 <= i < ms.len() ==> exists|
            p: (bool, Seq<char>, Seq<Seq<char>>, Option<Seq<char>>),
            a: Seq<Option<(Option<Seq<char>>, Seq<char>)>>,
        | #[trigger] method_of(p, a, collapse_spaces) == Some(method_view(#[trigger] ms[i]))
}

/// Reads the impl items `items` (printed as tokens) with `syn` and gives,
/// in order, what `method_info` makes of each function; other items are
/// left out. Refused with syn's message when it refuses an item or an
/// argument.
pub fn impl_methods(items: &Vec<String>, collapse_spaces: bool) -> (res: Result<Vec<MethodInfo>, String>)
    ensures
        res matches Ok(v) ==> all_read_methods(v@, collapse_spaces),
{
    let mut out: Vec<MethodInfo> = Vec::new();
    let mut i: usize = 0;
    while i < items.len()
        invariant
            i <= items@.len(),
            all_read_methods(out@, collapse_spaces),
        decreases items@.len() - i,
    {
        let parsed = match parse_impl_item(items[i].as_str()) {
            Err(e) => {
                return Err(e);
            },
            Ok(None) => {
                i = i + 1;
                continue;
            },
            Ok(Some(p)) => p,
        };
        let mut args: Vec<Option<(Option<String>, String)>> = Vec::new();
        let mut j: usize = 0;
        while j < parsed.args.len()
            decreases parsed.args@.len() - j,
        {
            let a = parse_fn_arg(parsed.args[j].as_str())?;
            args.push(a);
            j = j + 1;
        }
        match method_info(&parsed, &args, collapse_spaces) {
            None => {},
            Some(m) => {
                let ghost before = out@;
                let ghost p = parsed_method_view(parsed);
                let ghost a = args@.map_values(|x| arg_read_view(x));
                out.push(m);
                assert forall|k: int| 0 <= k < out@.len() implies exists|
                    p2: (bool, Seq<char>, Seq<Seq<char>>, Option<Seq<char>>),
                    a2: Seq<Option<(Option<Seq<char>>, Seq<char>)>>,
                | #[trigger] method_of(p2, a2, collapse_spaces) == Some(
                    method_view(#[trigger] out@[k]),
                ) by {
                    if k < before.len() {
                        assert(out@[k] == before[k]);
                    } else {
                        assert(method_of(p, a, collapse_spaces) == Some(method_view(out@[k])));
                    }
                }
            },
        }
        i = i + 1;
    }
    Ok(out)
}

// ---------------------------------------------------------------------------
// The attribute's options.
// ---------------------------------------------------------------------------

/// The attribute's options: the string options in the order written, and
/// the `factory`, `diff` and `item` path options (the last one written).
pub struct AttrOptions {
    pub values: Vec<(String, String)>,
    pub factory: Option<PathArg>,
    pub diff: Option<PathArg>,
    pub item: Option<PathArg>,
}

/// A path option as plain values, if there is one.
pub open spec fn optional_path_view(p: Option<PathArg>) -> Option<(Seq<(Seq<char>, bool)>, Seq<char>)> {
    match p {
        Some(a) => Some(path_arg_view(a)),
        None => None,
    }
}

/// The attribute's options as plain values.
pub open spec fn options_view(o: AttrOptions) -> (
    Seq<(Seq<char>, Seq<char>)>,
    Option<(Seq<(Seq<char>, bool)>, Seq<char>)>,
    Option<(Seq<(Seq<char>, bool)>, Seq<char>)>,
    Option<(Seq<(Seq<char>, bool)>, Seq<char>)>,
) {
    (pairs_view(o.values@), optional_path_view(o.factory), optional_path_view(o.diff), optional_path_view(o.item))
}

/// The value an option was given: a string literal's value, or a path.
pub enum OptionValue {
    Str(String),
    Path(PathArg),
}

/// `o` after the option `key` is given `value`: a string value is added
/// after the others; a path fills the `factory`, `diff` or `item` slot,
/// replacing an earlier one; any other path is dropped.
pub open spec fn with_option(
    o: (
        Seq<(Seq<char>, Seq<char>)>,
        Option<(Seq<(Seq<char>, bool)>, Seq<char>)>,
        Option<(Seq<(Seq<char>, bool)>, Seq<char>)>,
        Option<(Seq<(Seq<char>, bool)>, Seq<char>)>,
    ),
    key: Seq<char>,
    value: OptionValue,
) -> (
    Seq<(Seq<char>, Seq<char>)>,
    Option<(Seq<(Seq<char>, bool)>, Seq<char>)>,
    Option<(Seq<(Seq<char>, bool)>, Seq<char>)>,
    Option<(Seq<(Seq<char>, bool)>, Seq<char>)>,
) {
    match value {
        OptionValue::Str(v) => (o.0.push((key, v@)), o.1, o.2, o.3),
        OptionValue::Path(p) => if key == "factory"@ {
            (o.0, Some(path_arg_view(p)), o.2, o.3)
        } else if key == "diff"@ {
            (o.0, o.1, Some(path_arg_view(p)), o.3)
        } else if key == "item"@ {
            (o.0, o.1, o.2, Some(path_arg_view(p)))
        } else {
            o
        },
    }
}

/// Records that the option `key` was given `value`.
pub fn add_option(options: &mut AttrOptions, key: String, value: OptionValue)
    ensures
        options_view(*final(options)) == with_option(options_view(*old(options)), key@, value),
{
    proof {
        reveal_strlit("factory");
        reveal_strlit("diff");
        reveal_strlit("item");
    }
    match value {
        OptionValue::Str(v) => {
            let ghost before = options.values@;
            options.values.push((key, v));
            assert(pairs_view(options.values@) =~= pairs_view(before).push(
                (options.values@.last().0@, options.values@.last().1@),
            ));
        },
        OptionValue::Path(p) => {
            if str_eq(key.as_str(), "factory") {
                options.factory = Some(p);
            } else if str_eq(key.as_str(), "diff") {
                options.diff = Some(p);
            } else if str_eq(key.as_str(), "item") {
                options.item = Some(p);
            }
        },
    }
}

/// With `path_keys`, no string option is named `factory`, `diff` or `item`.
pub open spec fn options_read(o: AttrOptions, path_keys: bool) -> bool {
    forall|i: int|
        0 <= i < pairs_view(o.values@).len() ==> !takes_path(
            #[trigger] pairs_view(o.values@)[i].0,
            path_keys,
        )
}

/// Reads the attribute's argument list: splits it into tokens, reads the
/// options with `scan_options` (any number of `name = value` options, each
/// optionally followed by a comma), reads each string literal's value with
/// `syn`, and records every option with `add_option`. Refused with the
/// first message of the lexer, of `scan_options` or of `syn`.
pub fn attribute_options(args: &str, path_keys: bool) -> (res: Result<AttrOptions, String>)
    ensures
        res matches Ok(o) ==> options_read(o, path_keys),
{
    let tokens = read_tokens(args)?;
    let raws = scan_options(&tokens, path_keys)?;
    let ghost all = raws_view(raws@);
    let mut o = AttrOptions { values: Vec::new(), factory: None, diff: None, item: None };
    let mut i: usize = 0;
    assert(pairs_view(o.values@) =~= Seq::empty());
    while i < raws.len()
        invariant
            i <= raws@.len(),
            all == raws_view(raws@),
            literals_named_plainly(all, path_keys),
            options_read(o, path_keys),
        decreases raws@.len() - i,
    {
        let key = raws[i].0.clone();
        match &raws[i].1 {
            RawOption::Path(p) => {
                add_option(&mut o, key, OptionValue::Path(p.clone()));
            },
            RawOption::Lit(text) => {
                let v = parse_lit_str(text.as_str())?;
                let ghost before = pairs_view(o.values@);
                let ghost kv = key@;
                assert(all[i as int].1 is Lit && all[i as int].0 == kv);
                add_option(&mut o, key, OptionValue::Str(v));
                assert forall|k: int| 0 <= k < pairs_view(o.values@).len() implies !takes_path(
                    #[trigger] pairs_view(o.values@)[k].0,
                    path_keys,
                ) by {
                    if k < before.len() {
                        assert(pairs_view(o.values@)[k] == before[k]);
                    } else {
                        assert(pairs_view(o.values@)[k].0 == kv);
                    }
                }
            },
        }
        i = i + 1;
    }
    Ok(o)
}

/// The value last given for `key`, if any.
pub open spec fn last_value(values: Seq<(Seq<char>, Seq<char>)>, key: Seq<char>) -> Option<Seq<char>>
    decreases values.len(),
{
    if values.len() == 0 {
        None
    } else if values.last().0 == key {
        Some(values.last().1)
    } else {
        last_value(values.drop_last(), key)
    }
}

/// The value last given for `key`, or the empty string.
pub open spec fn value_or_empty(values: Seq<(Seq<char>, Seq<char>)>, key: Seq<char>) -> Seq<char> {
    match last_value(values, key) {
        Some(v) => v,
        None => Seq::empty(),
    }
}

/// The value of the first of `keys` that is given, or the empty string.
pub open spec fn first_present(values: Seq<(Seq<char>, Seq<char>)>, keys: Seq<Seq<char>>) -> Seq<char>
    decreases keys.len(),
{
    if keys.len() == 0 {
        Seq::empty()
    } else {
        match last_value(values, keys[0]) {
            Some(v) => v,
            None => first_present(values, keys.skip(1)),
        }
    }
}

fn option_value(values: &Vec<(String, String)>, key: &str) -> (res: Option<String>)
    ensures
        match last_value(pairs_view(values@), key@) {
            Some(v) => res matches Some(s) && s@ == v,
            None => res is None,
        },
{
    let ghost all = pairs_view(values@);
    let mut i: usize = values.len();
    assert(all.take(i as int) =~= all);
    while i > 0
        invariant
            i <= values@.len(),
            all == pairs_view(values@),
            last_value(all, key@) == last_value(all.take(i as int), key@),
        decreases i,
    {
        assert(all.take(i as int).drop_last() =~= all.take(i - 1));
        assert(all.take(i as int).last() == (values@[i - 1].0@, values@[i - 1].1@));
        if str_eq(values[i - 1].0.as_str(), key) {
            return Some(values[i - 1].1.clone());
        }
        i = i - 1;
    }
    None
}

fn value_of(values: &Vec<(String, String)>, key: &str) -> (res: String)
    ensures
        res@ == value_or_empty(pairs_view(values@), key@),
{
    match option_value(values, key) {
        Some(v) => v,
        None => String::new(),
    }
}

/// `m` holds the options `values`, the VM type `vm_type` and the methods
/// `methods`. With `aliases`, the bridge name is the first of `bridge`,
/// `bridge_name` and `swift_bridge` that is given, and the factory bridge
/// the first of `factory_bridge` and `factory_bridge_name`; without, only
/// `swift_bridge` and `factory_bridge` count.
pub open spec fn initial_meta(
    m: VmMetaLocal,
    values: Seq<(Seq<char>, Seq<char>)>,
    vm_type: Seq<char>,
    methods: Seq<(Seq<char>, Seq<(Seq<char>, Seq<char>)>, Seq<char>)>,
    aliases: bool,
) -> bool {
    &&& m.swift_bridge@ == if aliases {
        first_present(values, seq!["bridge"@, "bridge_name"@, "swift_bridge"@])
    } else {
        value_or_empty(values, "swift_bridge"@)
    }
    &&& m.mode@ == value_or_empty(values, "mode"@)
    &&& m.vm_type@ == vm_type
    &&& m.observer@ == value_or_empty(values, "observer"@)
    &&& m.observer_method@ == value_or_empty(values, "observer_method"@)
    &&& m.state_type@ == value_or_empty(values, "state_type"@)
    &&& m.diff_type@ == value_or_empty(values, "diff_type"@)
    &&& m.list_item_type@ == value_or_empty(values, "list_item_type"@)
    &&& m.factory_type@ == value_or_empty(values, "factory_type"@)
    &&& m.factory_method@ == value_or_empty(values, "factory_method"@)
    &&& m.factory_bridge@ == if aliases {
        first_present(values, seq!["factory_bridge"@, "factory_bridge_name"@])
    } else {
        value_or_empty(values, "factory_bridge"@)
    }
    &&& methods_view(m.methods@) == methods
}

/// The metadata options before defaults: each string option's last value
/// (or empty), the bridge names by their aliases where `aliases` is set,
/// the VM type and the methods.
pub fn bridge_options(
    values: &Vec<(String, String)>,
    methods: Vec<MethodInfo>,
    vm_type: String,
    aliases: bool,
) -> (m: VmMetaLocal)
    ensures
        initial_meta(m, pairs_view(values@), vm_type@, methods_view(methods@), aliases),
{
    let ghost vs = pairs_view(values@);
    proof {
        reveal_strlit("bridge");
        reveal_strlit("bridge_name");
        reveal_strlit("swift_bridge");
        reveal_strlit("factory_bridge");
        reveal_strlit("factory_bridge_name");
    }
    let swift_bridge = if aliases {
        match option_value(values, "bridge") {
            Some(v) => v,
            None => match option_value(values, "bridge_name") {
                Some(v) => v,
                None => value_of(values, "swift_bridge"),
            },
        }
    } else {
        value_of(values, "swift_bridge")
    };
    let factory_bridge = if aliases {
        match option_value(values, "factory_bridge") {
            Some(v) => v,
            None => value_of(values, "factory_bridge_name"),
        }
    } else {
        value_of(values, "factory_bridge")
    };
    proof {
        let k3 = seq!["bridge"@, "bridge_name"@, "swift_bridge"@];
        assert(k3.skip(1) =~= seq!["bridge_name"@, "swift_bridge"@]);
        assert(k3.skip(1).skip(1) =~= seq!["swift_bridge"@]);
        assert(k3.skip(1).skip(1).skip(1) =~= Seq::<Seq<char>>::empty());
        let k2 = seq!["factory_bridge"@, "factory_bridge_name"@];
        assert(k2.skip(1) =~= seq!["factory_bridge_name"@]);
        assert(k2.skip(1).skip(1) =~= Seq::<Seq<char>>::empty());
        reveal_with_fuel(first_present, 4);
        if aliases {
            assert(swift_bridge@ == first_present(vs, k3));
            assert(factory_bridge@ == first_present(vs, k2));
        }
    }
    VmMetaLocal {
        swift_bridge,
        mode: value_of(values, "mode"),
        vm_type,
        observer: value_of(values, "observer"),
        observer_method: value_of(values, "observer_method"),
        state_type: value_of(values, "state_type"),
        diff_type: value_of(values, "diff_type"),
        list_item_type: value_of(values, "list_item_type"),
        factory_type: value_of(values, "factory_type"),
        factory_method: value_of(values, "factory_method"),
        factory_bridge,
        methods,
    }
}

// ---------------------------------------------------------------------------
// The expansions.
// ---------------------------------------------------------------------------

/// What `vm_bridge` embeds beside the annotated impl: the completed options
/// (whose methods are the impl's `pub` functions), their metadata, the Swift
/// bridge source generated from it, and the impl's self type as printed.
pub struct BridgeExpansion {
    pub meta: VmMetaLocal,
    pub ir: VmMetadata,
    pub swift_code: String,
    pub self_ty: String,
}

/// `res` is what `vm_bridge` makes of the options `options`, the self type
/// `self_ty` and the methods `methods`: the options and methods gathered
/// (aliases allowed, the VM type normalized), the path options merged, and
/// the metadata completed and checked; the first refusal is the error.
pub open spec fn build_outcome(
    options: AttrOptions,
    self_ty: Seq<char>,
    methods: Seq<MethodInfo>,
    res: Result<BridgeExpansion, String>,
) -> bool {
    exists|m0: VmMetaLocal, pr: Result<VmMetaLocal, PathArgError>|
        #![trigger path_args_outcome(options.factory, options.diff, options.item, m0, pr)]
        {
            &&& initial_meta(m0, pairs_view(options.values@), normalized_type(self_ty), methods_view(methods), true)
            &&& path_args_outcome(options.factory, options.diff, options.item, m0, pr)
            &&& match pr {
                Err(pe) => res matches Err(m) && m@ == pe.message@,
                Ok(m1) => match res {
                    Ok(x) => x.self_ty@ == self_ty && finalize_outcome(m1, Ok((x.meta, x.ir, x.swift_code))),
                    Err(m) => finalize_outcome(m1, Err(m)),
                },
            }
        }
}

/// Builds what `vm_bridge` embeds from what was read: gathers the options
/// (`bridge`, `bridge_name` or `swift_bridge` for the bridge name;
/// `factory_bridge` or `factory_bridge_name` for the factory's) with the
/// normalized self type and the methods, merges the path options and
/// completes the metadata.
pub fn build_expansion(options: &AttrOptions, self_ty: String, methods: Vec<MethodInfo>) -> (res: Result<
    BridgeExpansion,
    String,
>)
    ensures
        build_outcome(*options, self_ty@, methods@, res),
{
    let vm_type = normalize_rust_type(self_ty.as_str());
    let m0 = bridge_options(&options.values, methods, vm_type, true);
    let ghost m0_ghost = m0;
    let pr = apply_path_args(&options.factory, &options.diff, &options.item, m0);
    let ghost pr_ghost = pr;
    proof {
        assert(path_args_outcome(options.factory, options.diff, options.item, m0_ghost, pr_ghost));
    }
    let m1 = match pr {
        Err(e) => {
            return Err(e.message);
        },
        Ok(m1) => m1,
    };
    match finalize_metadata(m1) {
        Err(e) => Err(e),
        Ok((meta, ir, swift_code)) => Ok(BridgeExpansion { meta, ir, swift_code, self_ty }),
    }
}

/// Expands `#[vm_bridge(args)]` on the impl `input`, both given as their
/// tokens printed: reads the options with `attribute_options`, the impl and
/// its methods with `syn` and `impl_methods`, and hands them to
/// `build_expansion`. The impl itself is left as it is.
pub fn expand_vm_bridge(args: &str, input: &str) -> (res: Result<BridgeExpansion, String>)
    ensures
        res is Ok ==> exists|o: AttrOptions, ms: Seq<MethodInfo>|
            #![trigger build_outcome(o, res->Ok_0.self_ty@, ms, res)]
            options_read(o, true) && all_read_methods(ms, false) && build_outcome(
                o,
                res->Ok_0.self_ty@,
                ms,
                res,
            ),
{
    let options = attribute_options(args, true)?;
    let (self_ty, items) = parse_impl(input)?;
    let methods = impl_methods(&items, false)?;
    let ghost ms = methods@;
    let ghost t = self_ty@;
    let res = build_expansion(&options, self_ty, methods);
    proof {
        if res is Ok {
            assert(res->Ok_0.self_ty@ == t);
            assert(build_outcome(options, res->Ok_0.self_ty@, ms, res));
        }
    }
    res
}

/// What `ck_vm_bridge` embeds beside the annotated impl: its options and
/// methods as written, the Swift bridge it generates for them, and the
/// impl's self type as printed.
pub struct LegacyExpansion {
    pub meta: VmMetaLocal,
    pub swift_code: String,
    pub self_ty: String,
}

/// `x` is what `ck_vm_bridge` makes of the options `options`, the self type
/// `self_ty` and the methods `methods`: string options only, no aliases, the
/// VM type with every space removed, and the attribute's own Swift bridge.
pub open spec fn legacy_build_outcome(
    options: AttrOptions,
    self_ty: Seq<char>,
    methods: Seq<MethodInfo>,
    x: LegacyExpansion,
) -> bool {
    &&& x.self_ty@ == self_ty
    &&& initial_meta(x.meta, pairs_view(options.values@), spelled(self_ty, true), methods_view(methods), false)
    &&& x.swift_code@ == attr_swift_bridge(x.meta)
}

/// Builds what `ck_vm_bridge` embeds from what was read.
pub fn build_legacy_expansion(options: &AttrOptions, self_ty: String, methods: Vec<MethodInfo>) -> (x:
    LegacyExpansion)
    ensures
        legacy_build_outcome(*options, self_ty@, methods@, x),
{
    let vm_type = spell(self_ty.as_str(), true);
    let meta = bridge_options(&options.values, methods, vm_type, false);
    let swift_code = generate_swift_bridge(&meta);
    LegacyExpansion { meta, swift_code, self_ty }
}

/// Expands the older `#[ck_vm_bridge(args)]` on the impl `input`, both given
/// as their tokens printed: string options only, the `pub` methods with
/// every space removed from their types, handed to
/// `build_legacy_expansion`. The impl itself is left as it is.
pub fn expand_legacy_vm_bridge(args: &str, input: &str) -> (res: Result<LegacyExpansion, String>)
    ensures
        res is Ok ==> exists|o: AttrOptions, ms: Seq<MethodInfo>|
            #![trigger legacy_build_outcome(o, res->Ok_0.self_ty@, ms, res->Ok_0)]
            options_read(o, false) && all_read_methods(ms, true) && legacy_build_outcome(
                o,
                res->Ok_0.self_ty@,
                ms,
                res->Ok_0,
            ),
{
    let options = attribute_options(args, false)?;
    let (self_ty, items) = parse_impl(input)?;
    let methods = impl_methods(&items, true)?;
    let ghost ms = methods@;
    let x = build_legacy_expansion(&options, self_ty, methods);
    let res: Result<LegacyExpansion, String> = Ok(x);
    assert(legacy_build_outcome(options, res->Ok_0.self_ty@, ms, res->Ok_0));
    res
}

} // verus!
