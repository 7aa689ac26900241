//! The Swift bridge that the older `ck_vm_bridge` attribute embeds in its
//! metadata, generated straight from the attribute's string options and the
//! impl's public methods, with that attribute's own type mapping.
use vstd::prelude::*;
use crate::bridge_meta::{find_info, find_info_from, ArgInfo, MethodInfo, VmMetaLocal};
use crate::naming::{camel, inner_of, to_swift_method_name, wrapped, wraps, wraps_exec};
use crate::text::{
    chars_is, chars_of, chars_range, indent, indent_optional, indented, indented_optional, join,
    join_strings, lemma_trim_len, lemma_views_push, str_eq, string_of, trim, trim_bounds,
    trim_end, trimmed_end, views,
};

verus! {

// ---------------------------------------------------------------------------
// Types and arguments.
// ---------------------------------------------------------------------------

/// The Swift spelling of a Rust type string as the attribute maps it: every
/// `Arc<T>` becomes `TProtocol`, and no subscription id alias is known.
pub open spec fn attr_swift_type(ty: Seq<char>) -> Seq<char>
    decreases ty.len(),
{
    let t = trim(ty);
    proof {
        lemma_trim_len(ty);
        reveal_strlit("Arc<");
        reveal_strlit("std::sync::Arc<");
        reveal_strlit("Option<");
        reveal_strlit("Vec<");
    }
    if t == "unit"@ {
        "Void"@
    } else if wraps(t, "Arc<"@) {
        attr_swift_type(wrapped(t, 4)) + "Protocol"@
    } else if wraps(t, "std::sync::Arc<"@) {
        attr_swift_type(wrapped(t, 15)) + "Protocol"@
    } else if wraps(t, "Option<"@) {
        attr_swift_type(wrapped(t, 7)) + "?"@
    } else if wraps(t, "Vec<"@) {
        "["@ + attr_swift_type(wrapped(t, 4)) + "]"@
    } else if t == "i64"@ {
        "Int64"@
    } else if t == "i32"@ {
        "Int32"@
    } else if t == "u64"@ {
        "UInt64"@
    } else if t == "u32"@ {
        "UInt32"@
    } else if t == "bool"@ {
        "Bool"@
    } else {
        t
    }
}

/// Maps a Rust type string to Swift as the attribute does.
pub fn map_type_to_swift(ty: &str) -> (res: String)
    ensures
        res@ == attr_swift_type(ty@),
    decreases ty@.len(),
{
    let v = chars_of(ty);
    let (lo, hi) = trim_bounds(&v);
    let t = chars_range(&v, lo, hi);
    proof {
        lemma_trim_len(ty@);
        reveal_strlit("Arc<");
        reveal_strlit("std::sync::Arc<");
        reveal_strlit("Option<");
        reveal_strlit("Vec<");
    }
    if chars_is(&t, "unit") {
        return String::from_str("Void");
    }
    if wraps_exec(&t, "Arc<") {
        let inner = inner_of(&t, 4);
        let mut mapped = map_type_to_swift(inner.as_str());
        mapped.append("Protocol");
        return mapped;
    }
    if wraps_exec(&t, "std::sync::Arc<") {
        let inner = inner_of(&t, 15);
        let mut mapped = map_type_to_swift(inner.as_str());
        mapped.append("Protocol");
        return mapped;
    }
    if wraps_exec(&t, "Option<") {
        let inner = inner_of(&t, 7);
        let mut mapped = map_type_to_swift(inner.as_str());
        mapped.append("?");
        return mapped;
    }
    if wraps_exec(&t, "Vec<") {
        let inner = inner_of(&t, 4);
        let mapped = map_type_to_swift(inner.as_str());
        let mut out = String::from_str("[");
        out.append(mapped.as_str());
        out.append("]");
        return out;
    }
    if chars_is(&t, "i64") {
        return String::from_str("Int64");
    }
    if chars_is(&t, "i32") {
        return String::from_str("Int32");
    }
    if chars_is(&t, "u64") {
        return String::from_str("UInt64");
    }
    if chars_is(&t, "u32") {
        return String::from_str("UInt32");
    }
    if chars_is(&t, "bool") {
        return String::from_str("Bool");
    }
    string_of(&t)
}

/// One argument: a Swift parameter, or a labelled call argument.
pub open spec fn attr_arg_text(a: ArgInfo, labelled: bool) -> Seq<char> {
    let name = camel(a.name@);
    if labelled {
        name + ": "@ + name
    } else {
        name + ": "@ + attr_swift_type(a.ty@)
    }
}

/// Every argument, as parameters or as labelled call arguments.
pub open spec fn attr_arg_texts(args: Seq<ArgInfo>, labelled: bool) -> Seq<Seq<char>> {
    Seq::new(args.len(), |i: int| attr_arg_text(args[i], labelled))
}

/// The arguments separated by `", "`.
pub open spec fn attr_arg_list(args: Seq<ArgInfo>, labelled: bool) -> Seq<char> {
    join(attr_arg_texts(args, labelled), ", "@)
}

fn format_arg(a: &ArgInfo, labelled: bool) -> (res: String)
    ensures
        res@ == attr_arg_text(*a, labelled),
{
    let name = to_swift_method_name(a.name.as_str());
    let mut s = name.clone();
    s.append(": ");
    if labelled {
        s.append(name.as_str());
    } else {
        let t = map_type_to_swift(a.ty.as_str());
        s.append(t.as_str());
    }
    s
}

fn format_arg_list(args: &Vec<ArgInfo>, labelled: bool) -> (res: String)
    ensures
        res@ == attr_arg_list(args@, labelled),
{
    let mut parts: Vec<String> = Vec::new();
    let mut i: usize = 0;
    while i < args.len()
        invariant
            i <= args.len(),
            views(parts@) == attr_arg_texts(args@.take(i as int), labelled),
        decreases args.len() - i,
    {
        let p = format_arg(&args[i], labelled);
        let ghost old_parts = parts@;
        parts.push(p);
        proof {
            lemma_views_push(old_parts, p);
            assert(attr_arg_texts(args@.take(i + 1), labelled) =~= attr_arg_texts(
                args@.take(i as int),
                labelled,
            ).push(attr_arg_text(args@[i as int], labelled)));
        }
        i = i + 1;
    }
    assert(args@.take(args.len() as int) =~= args@);
    join_strings(&parts, ", ")
}

// ---------------------------------------------------------------------------
// Methods and constructors.
// ---------------------------------------------------------------------------

/// A forwarding Swift method for one public method of the impl.
pub open spec fn attr_method(m: MethodInfo) -> Seq<char> {
    let name = camel(m.name@);
    let args = attr_arg_list(m.args@, false);
    let call_args = attr_arg_list(m.args@, true);
    let ret = attr_swift_type(m.ret@);
    let ret_sig = if ret == "Void"@ {
        Seq::empty()
    } else {
        " -> "@ + ret
    };
    let call = if ret == "Void"@ {
        "vm."@ + name + "("@ + call_args + ")"@
    } else {
        "return vm."@ + name + "("@ + call_args + ")"@
    };
    "public func "@ + name + "("@ + args + ")"@ + ret_sig + " {\n        "@ + call + "\n    }\n\n"@
}

/// Formats `attr_method`.
pub fn format_swift_method(method: &MethodInfo) -> (res: String)
    ensures
        res@ == attr_method(*method),
{
    let name = to_swift_method_name(method.name.as_str());
    let args = format_arg_list(&method.args, false);
    let call_args = format_arg_list(&method.args, true);
    let ret = map_type_to_swift(method.ret.as_str());
    let is_void = str_eq(ret.as_str(), "Void");
    let ret_sig = if is_void {
        String::new()
    } else {
        let mut r = String::from_str(" -> ");
        r.append(ret.as_str());
        r
    };
    let mut call = if is_void {
        String::from_str("vm.")
    } else {
        String::from_str("return vm.")
    };
    call.append(name.as_str());
    call.append("(");
    call.append(call_args.as_str());
    call.append(")");
    let mut s = String::from_str("public func ");
    s.append(name.as_str());
    s.append("(");
    s.append(args.as_str());
    s.append(")");
    s.append(ret_sig.as_str());
    s.append(" {\n        ");
    s.append(call.as_str());
    s.append("\n    }\n\n");
    s
}

/// Methods the bridge forwards: all but `subscribe`, `new` and `unsubscribe`.
pub open spec fn attr_keeps(m: MethodInfo) -> bool {
    m.name@ != "subscribe"@ && m.name@ != "new"@ && m.name@ != "unsubscribe"@
}

/// The forwarding methods of `ms`, in order.
pub open spec fn attr_methods(ms: Seq<MethodInfo>) -> Seq<char>
    decreases ms.len(),
{
    if ms.len() == 0 {
        Seq::empty()
    } else {
        attr_methods(ms.drop_last()) + if attr_keeps(ms.last()) {
            attr_method(ms.last())
        } else {
            Seq::empty()
        }
    }
}

/// The forwarding methods of `meta`, in order.
fn filtered_methods_text(methods: &Vec<MethodInfo>) -> (res: String)
    ensures
        res@ == attr_methods(methods@),
{
    let mut out = String::new();
    let mut i: usize = 0;
    while i < methods.len()
        invariant
            i <= methods.len(),
            out@ == attr_methods(methods@.take(i as int)),
        decreases methods.len() - i,
    {
        let m = &methods[i];
        assert(methods@.take(i + 1).drop_last() =~= methods@.take(i as int));
        if !str_eq(m.name.as_str(), "subscribe") && !str_eq(m.name.as_str(), "new") && !str_eq(
            m.name.as_str(),
            "unsubscribe",
        ) {
            let text = format_swift_method(m);
            out.append(text.as_str());
        } else {
            assert(out@ =~= out@ + Seq::<char>::empty());
        }
        i = i + 1;
    }
    assert(methods@.take(methods.len() as int) =~= methods@);
    out
}

/// `init(...)` or `public init(...)` for a constructor method.
pub open spec fn attr_signature(m: MethodInfo, with_public: bool) -> Seq<char> {
    (if with_public {
        "public init("@
    } else {
        "init("@
    }) + attr_arg_list(m.args@, false) + ")"@
}

/// Formats `attr_signature`.
pub fn format_swift_signature(method: &MethodInfo, with_public: bool) -> (res: String)
    ensures
        res@ == attr_signature(*method, with_public),
{
    let args = format_arg_list(&method.args, false);
    let mut s = if with_public {
        String::from_str("public init(")
    } else {
        String::from_str("init(")
    };
    s.append(args.as_str());
    s.append(")");
    s
}

/// A call of the constructor of `vm_type` with the constructor's arguments.
pub open spec fn attr_ctor_call(m: MethodInfo, vm_type: Seq<char>) -> Seq<char> {
    vm_type + "("@ + attr_arg_list(m.args@, true) + ")"@
}

/// Formats `attr_ctor_call`.
pub fn format_swift_ctor_call(method: &MethodInfo, vm_type: &str) -> (res: String)
    ensures
        res@ == attr_ctor_call(*method, vm_type@),
{
    let args = format_arg_list(&method.args, true);
    let mut s = String::from_str(vm_type);
    s.append("(");
    s.append(args.as_str());
    s.append(")");
    s
}

/// The initializer signature and the expression that creates the VM: through
/// the factory when a factory method is named (its bridge defaulting to the
/// factory type's name with `Bridge`), else through `new`, else `VmType()`.
pub open spec fn attr_ctor(m: VmMetaLocal) -> (Seq<char>, Seq<char>) {
    if m.factory_method@.len() != 0 {
        let bridge = if m.factory_bridge@.len() == 0 {
            m.factory_type@ + "Bridge"@
        } else {
            m.factory_bridge@
        };
        ("public init(app: "@ + bridge + ")"@, "app."@ + camel(m.factory_method@) + "()"@)
    } else {
        match find_info_from(m.methods@, "new"@, 0) {
            Some(i) => (
                attr_signature(m.methods@[i], true),
                attr_ctor_call(m.methods@[i], m.vm_type@),
            ),
            None => ("public init()"@, m.vm_type@ + "()"@),
        }
    }
}

fn constructor_or_factory(meta: &VmMetaLocal) -> (res: (String, String))
    ensures
        (res.0@, res.1@) == attr_ctor(*meta),
{
    if meta.factory_method.as_str().unicode_len() != 0 {
        let bridge = if meta.factory_bridge.as_str().unicode_len() == 0 {
            let mut b = meta.factory_type.clone();
            b.append("Bridge");
            b
        } else {
            meta.factory_bridge.clone()
        };
        let method = to_swift_method_name(meta.factory_method.as_str());
        let mut sig = String::from_str("public init(app: ");
        sig.append(bridge.as_str());
        sig.append(")");
        let mut call = String::from_str("app.");
        call.append(method.as_str());
        call.append("()");
        return (sig, call);
    }
    if let Some(i) = find_info(&meta.methods, "new") {
        let ctor = &meta.methods[i];
        return (
            format_swift_signature(ctor, true),
            format_swift_ctor_call(ctor, meta.vm_type.as_str()),
        );
    }
    let mut call = meta.vm_type.clone();
    call.append("()");
    (String::from_str("public init()"), call)
}

/// The Swift type of the subscription id, unless `subscribe` returns nothing.
pub open spec fn attr_subscribe_ret(m: VmMetaLocal) -> Option<Seq<char>> {
    match find_info_from(m.methods@, "subscribe"@, 0) {
        None => None,
        Some(i) => {
            let r = attr_swift_type(m.methods@[i].ret@);
            if r == "Void"@ {
                None
            } else {
                Some(r)
            }
        },
    }
}

/// The platform name of the `unsubscribe` method, when the impl has one.
pub open spec fn attr_unsubscribe_name(m: VmMetaLocal) -> Option<Seq<char>> {
    match find_info_from(m.methods@, "unsubscribe"@, 0) {
        None => None,
        Some(i) => Some(camel(m.methods@[i].name@)),
    }
}

fn subscribe_info(meta: &VmMetaLocal) -> (res: Option<String>)
    ensures
        match res {
            None => attr_subscribe_ret(*meta) is None,
            Some(r) => attr_subscribe_ret(*meta) == Some(r@),
        },
{
    let i = find_info(&meta.methods, "subscribe")?;
    let ret = map_type_to_swift(meta.methods[i].ret.as_str());
    if str_eq(ret.as_str(), "Void") {
        None
    } else {
        Some(ret)
    }
}

fn unsubscribe_method_name(meta: &VmMetaLocal) -> (res: Option<String>)
    ensures
        match res {
            None => attr_unsubscribe_name(*meta) is None,
            Some(r) => attr_unsubscribe_name(*meta) == Some(r@),
        },
{
    let i = find_info(&meta.methods, "unsubscribe")?;
    Some(to_swift_method_name(meta.methods[i].name.as_str()))
}

/// The observer-id declaration, the subscribe statement and the `deinit` that
/// unsubscribes.
pub open spec fn attr_observer_ids(m: VmMetaLocal) -> (Seq<char>, Seq<char>, Seq<char>) {
    match attr_subscribe_ret(m) {
        Some(r) => (
            "private var observerId: "@ + r + "?"@,
            "self.observerId = vm.subscribe(observer: observer)"@,
            match attr_unsubscribe_name(m) {
                Some(n) => "deinit {\n        if let id = observerId {\n            vm."@ + n
                    + "(id: id)\n        }\n    }\n"@,
                None => Seq::empty(),
            },
        ),
        None => (Seq::empty(), "vm.subscribe(observer: observer)"@, Seq::empty()),
    }
}

fn observer_id_code(meta: &VmMetaLocal) -> (res: (String, String, String))
    ensures
        (res.0@, res.1@, res.2@) == attr_observer_ids(*meta),
{
    let unsubscribe_name = unsubscribe_method_name(meta);
    match subscribe_info(meta) {
        Some(ret) => {
            let mut decl = String::from_str("private var observerId: ");
            decl.append(ret.as_str());
            decl.append("?");
            let assign = String::from_str("self.observerId = vm.subscribe(observer: observer)");
            let unsubscribe = match unsubscribe_name {
                Some(name) => {
                    let mut u = String::from_str(
                        "deinit {\n        if let id = observerId {\n            vm.",
                    );
                    u.append(name.as_str());
                    u.append("(id: id)\n        }\n    }\n");
                    u
                },
                None => String::new(),
            };
            (decl, assign, unsubscribe)
        },
        None => (
            String::new(),
            String::from_str("vm.subscribe(observer: observer)"),
            String::new(),
        ),
    }
}

// ---------------------------------------------------------------------------
// Bridges.
// ---------------------------------------------------------------------------

/// The proxy class that forwards observer callbacks to the main actor;
/// `param` is `state: T` or `diffs: [T]`, `arg` the name passed on.
pub open spec fn attr_proxy(m: VmMetaLocal, param: Seq<char>, arg: Seq<char>) -> Seq<char> {
    let observer_method = camel(m.observer_method@);
    "private final class ObserverProxy: "@ + m.observer@ + " {\n    weak var owner: "@
        + m.swift_bridge@ + "?\n    init(owner: "@ + m.swift_bridge@
        + ") {\n        self.owner = owner\n    }\n    func "@ + observer_method + "("@ + param
        + ") {\n        Task { @MainActor [weak owner] in\n            owner?."@ + observer_method
        + "("@ + arg + ": "@ + arg + ")\n        }\n    }\n}\n"@
}

fn proxy_text(meta: &VmMetaLocal, param: &str, arg: &str) -> (res: String)
    ensures
        res@ == attr_proxy(*meta, param@, arg@),
{
    let observer_method = to_swift_method_name(meta.observer_method.as_str());
    let mut proxy = String::from_str("private final class ObserverProxy: ");
    proxy.append(meta.observer.as_str());
    proxy.append(" {\n    weak var owner: ");
    proxy.append(meta.swift_bridge.as_str());
    proxy.append("?\n    init(owner: ");
    proxy.append(meta.swift_bridge.as_str());
    proxy.append(") {\n        self.owner = owner\n    }\n    func ");
    proxy.append(observer_method.as_str());
    proxy.append("(");
    proxy.append(param);
    proxy.append(") {\n        Task { @MainActor [weak owner] in\n            owner?.");
    proxy.append(observer_method.as_str());
    proxy.append("(");
    proxy.append(arg);
    proxy.append(": ");
    proxy.append(arg);
    proxy.append(")\n        }\n    }\n}\n");
    proxy
}

/// The Swift bridge of a state VM.
pub open spec fn attr_state_bridge(m: VmMetaLocal) -> Seq<char> {
    let observer_method = camel(m.observer_method@);
    let ctor = attr_ctor(m);
    let ids = attr_observer_ids(m);
    let proxy = attr_proxy(m, "state: "@ + m.state_type@, "state"@);
    "// Generated by ck-vm-macros.\nimport Combine\nimport Foundation\n\n"@ + trim_end(proxy)
        + "\n@MainActor\npublic final class "@ + m.swift_bridge@ + ": ObservableObject, "@
        + m.observer@ + " {\n    @Published public private(set) var state: "@ + m.state_type@
        + "\n\n    private let vm: "@ + m.vm_type@
        + "Protocol\n    private var observer: ObserverProxy?\n"@ + indented_optional(ids.0, 4)
        + "\n\n    "@ + ctor.0 + " {\n        let vm = "@ + ctor.1
        + "\n        self.vm = vm\n        self.state = vm.getState()\n        let observer = ObserverProxy(owner: self)\n        self.observer = observer\n        "@
        + ids.1 + "\n    }\n\n"@ + indented(attr_methods(m.methods@), 4) + "\n    public func "@
        + observer_method + "(state: "@ + m.state_type@
        + ") {\n        self.state = state\n    }\n\n    "@ + indented_optional(trim_end(ids.2), 4)
        + "\n}\n"@
}

/// Generates the Swift bridge of a state VM.
pub fn generate_state_bridge(meta: &VmMetaLocal) -> (res: String)
    ensures
        res@ == attr_state_bridge(*meta),
{
    let observer_method = to_swift_method_name(meta.observer_method.as_str());
    let (ctor_sig, ctor_call) = constructor_or_factory(meta);
    let (decl, assign, unsub) = observer_id_code(meta);
    let methods = filtered_methods_text(&meta.methods);
    let mut param = String::from_str("state: ");
    param.append(meta.state_type.as_str());
    let proxy = proxy_text(meta, param.as_str(), "state");
    let proxy_trimmed = trimmed_end(proxy.as_str());
    let methods_text = indent(methods.as_str(), 4);
    let decl_text = indent_optional(decl.as_str(), 4);
    let unsub_trimmed = trimmed_end(unsub.as_str());
    let unsub_text = indent_optional(unsub_trimmed.as_str(), 4);
    let mut s = String::from_str("// Generated by ck-vm-macros.\nimport Combine\nimport Foundation\n\n");
    s.append(proxy_trimmed.as_str());
    s.append("\n@MainActor\npublic final class ");
    s.append(meta.swift_bridge.as_str());
    s.append(": ObservableObject, ");
    s.append(meta.observer.as_str());
    s.append(" {\n    @Published public private(set) var state: ");
    s.append(meta.state_type.as_str());
    s.append("\n\n    private let vm: ");
    s.append(meta.vm_type.as_str());
    s.append("Protocol\n    private var observer: ObserverProxy?\n");
    s.append(decl_text.as_str());
    s.append("\n\n    ");
    s.append(ctor_sig.as_str());
    s.append(" {\n        let vm = ");
    s.append(ctor_call.as_str());
    s.append("\n        self.vm = vm\n        self.state = vm.getState()\n        let observer = ObserverProxy(owner: self)\n        self.observer = observer\n        ");
    s.append(assign.as_str());
    s.append("\n    }\n\n");
    s.append(methods_text.as_str());
    s.append("\n    public func ");
    s.append(observer_method.as_str());
    s.append("(state: ");
    s.append(meta.state_type.as_str());
    s.append(") {\n        self.state = state\n    }\n\n    ");
    s.append(unsub_text.as_str());
    s.append("\n}\n");
    s
}

/// The body of the diff callback and the index clamp of a list bridge.
pub open spec fn attr_diff_body() -> Seq<char> {
    "]) {\n        for diff in diffs {\n            switch diff {\n            case let .insert(index, item):\n                let idx = clampIndex(index, upperBound: items.count)\n                items.insert(item, at: idx)\n            case let .update(index, item):\n                let idx = Int(index)\n                guard idx >= 0 && idx < items.count else { continue }\n                items[idx] = item\n            case let .remove(index, _):\n                let idx = Int(index)\n                guard idx >= 0 && idx < items.count else { continue }\n                items.remove(at: idx)\n            case let .move(from, to):\n                let fromIdx = Int(from)\n                let toIdx = Int(to)\n                guard fromIdx >= 0, toIdx >= 0, fromIdx < items.count, toIdx < items.count else { continue }\n                if fromIdx == toIdx { continue }\n                let item = items.remove(at: fromIdx)\n                let adjusted = fromIdx < toIdx ? toIdx - 1 : toIdx\n                items.insert(item, at: adjusted)\n            }\n        }\n    }\n\n    private func clampIndex(_ index: Int64, upperBound: Int) -> Int {\n        let idx = Int(index)\n        if idx < 0 { return 0 }\n        if idx > upperBound { return upperBound }\n        return idx\n    }\n\n    "@
}

/// The Swift bridge of a diff-list VM.
pub open spec fn attr_list_bridge(m: VmMetaLocal) -> Seq<char> {
    let observer_method = camel(m.observer_method@);
    let ctor = attr_ctor(m);
    let ids = attr_observer_ids(m);
    let proxy = attr_proxy(m, "diffs: ["@ + m.diff_type@ + "]"@, "diffs"@);
    "// Generated by ck-vm-macros.\nimport Combine\nimport Foundation\n\n"@ + trim_end(proxy)
        + "\n@MainActor\npublic final class "@ + m.swift_bridge@ + ": ObservableObject, "@
        + m.observer@ + " {\n    @Published public private(set) var items: ["@
        + m.list_item_type@ + "] = []\n\n    private let vm: "@ + m.vm_type@
        + "Protocol\n    private var observer: ObserverProxy?\n"@ + indented_optional(ids.0, 4)
        + "\n\n    "@ + ctor.0 + " {\n        let vm = "@ + ctor.1
        + "\n        self.vm = vm\n        let observer = ObserverProxy(owner: self)\n        self.observer = observer\n        "@
        + ids.1 + "\n    }\n\n"@ + indented(attr_methods(m.methods@), 4) + "\n    public func "@
        + observer_method + "(diffs: ["@ + m.diff_type@ + attr_diff_body() + indented_optional(
        trim_end(ids.2),
        4,
    ) + "\n}\n"@
}

/// Generates the Swift bridge of a diff-list VM.
pub fn generate_list_bridge(meta: &VmMetaLocal) -> (res: String)
    ensures
        res@ == attr_list_bridge(*meta),
{
    let observer_method = to_swift_method_name(meta.observer_method.as_str());
    let (ctor_sig, ctor_call) = constructor_or_factory(meta);
    let (decl, assign, unsub) = observer_id_code(meta);
    let methods = filtered_methods_text(&meta.methods);
    let mut param = String::from_str("diffs: [");
    param.append(meta.diff_type.as_str());
    param.append("]");
    let proxy = proxy_text(meta, param.as_str(), "diffs");
    let proxy_trimmed = trimmed_end(proxy.as_str());
    let methods_text = indent(methods.as_str(), 4);
    let decl_text = indent_optional(decl.as_str(), 4);
    let unsub_trimmed = trimmed_end(unsub.as_str());
    let unsub_text = indent_optional(unsub_trimmed.as_str(), 4);
    let mut s = String::from_str("// Generated by ck-vm-macros.\nimport Combine\nimport Foundation\n\n");
    s.append(proxy_trimmed.as_str());
    s.append("\n@MainActor\npublic final class ");
    s.append(meta.swift_bridge.as_str());
    s.append(": ObservableObject, ");
    s.append(meta.observer.as_str());
    s.append(" {\n    @Published public private(set) var items: [");
    s.append(meta.list_item_type.as_str());
    s.append("] = []\n\n    private let vm: ");
    s.append(meta.vm_type.as_str());
    s.append("Protocol\n    private var observer: ObserverProxy?\n");
    s.append(decl_text.as_str());
    s.append("\n\n    ");
    s.append(ctor_sig.as_str());
    s.append(" {\n        let vm = ");
    s.append(ctor_call.as_str());
    s.append("\n        self.vm = vm\n        let observer = ObserverProxy(owner: self)\n        self.observer = observer\n        ");
    s.append(assign.as_str());
    s.append("\n    }\n\n");
    s.append(methods_text.as_str());
    s.append("\n    public func ");
    s.append(observer_method.as_str());
    s.append("(diffs: [");
    s.append(meta.diff_type.as_str());
    s.append("]) {\n        for diff in diffs {\n            switch diff {\n            case let .insert(index, item):\n                let idx = clampIndex(index, upperBound: items.count)\n                items.insert(item, at: idx)\n            case let .update(index, item):\n                let idx = Int(index)\n                guard idx >= 0 && idx < items.count else { continue }\n                items[idx] = item\n            case let .remove(index, _):\n                let idx = Int(index)\n                guard idx >= 0 && idx < items.count else { continue }\n                items.remove(at: idx)\n            case let .move(from, to):\n                let fromIdx = Int(from)\n                let toIdx = Int(to)\n                guard fromIdx >= 0, toIdx >= 0, fromIdx < items.count, toIdx < items.count else { continue }\n                if fromIdx == toIdx { continue }\n                let item = items.remove(at: fromIdx)\n                let adjusted = fromIdx < toIdx ? toIdx - 1 : toIdx\n                items.insert(item, at: adjusted)\n            }\n        }\n    }\n\n    private func clampIndex(_ index: Int64, upperBound: Int) -> Int {\n        let idx = Int(index)\n        if idx < 0 { return 0 }\n        if idx > upperBound { return upperBound }\n        return idx\n    }\n\n    ");
    s.append(unsub_text.as_str());
    s.append("\n}\n");
    s
}

/// The bridge the attribute embeds: a state or diff-list bridge by mode, and
/// nothing for any other mode.
pub open spec fn attr_swift_bridge(m: VmMetaLocal) -> Seq<char> {
    if m.mode@ == "state"@ {
        attr_state_bridge(m)
    } else if m.mode@ == "diff_list"@ {
        attr_list_bridge(m)
    } else {
        Seq::empty()
    }
}

/// Generates the Swift bridge the attribute embeds for `meta`.
pub fn generate_swift_bridge(meta: &VmMetaLocal) -> (res: String)
    ensures
        res@ == attr_swift_bridge(*meta),
{
    if str_eq(meta.mode.as_str(), "state") {
        generate_state_bridge(meta)
    } else if str_eq(meta.mode.as_str(), "diff_list") {
        generate_list_bridge(meta)
    } else {
        String::new()
    }
}

} // verus!
