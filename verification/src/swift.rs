//! Swift bridge generation: one `ObservableObject` class per VM, and the
//! root container that owns a root VM and its children.
use vstd::prelude::*;
use crate::codegen::{
    bridge_fault, fault_of, validate_swift_bridge_metadata, CodegenError, CodegenFault,
    GeneratedFile, GeneratedFileSet,
};
use crate::config::BindingsConfig;
use crate::metadata::{
    find_method, find_method_index, opt_view, ArgMetadata, MethodMetadata, VmMetadata, VmMode,
};
use crate::naming::{
    camel, kotlin_type, map_type_to_kotlin, map_type_to_swift, property_of, property_name,
    swift_type, to_swift_method_name,
};
use crate::root_graph::{build_result, is_root_graph_of, root_graph, RootGraph};
use crate::text::{
    indented, indented_optional, indent_optional, indent, join, join_strings,
    lemma_views_push, str_eq, trim_end, trimmed_end, views, contains, lemma_contains_within,
};

verus! {

// ---------------------------------------------------------------------------
// Argument lists.
// ---------------------------------------------------------------------------

/// One argument as written in generated code. Style 0: Swift parameter,
/// 1: Swift labelled call argument, 2: Kotlin parameter, 3: Kotlin call argument.
pub open spec fn arg_text(a: ArgMetadata, style: nat) -> Seq<char> {
    let name = camel(a.name@);
    if style == 0 {
        name + ": "@ + swift_type(a.rust_type@)
    } else if style == 1 {
        name + ": "@ + name
    } else if style == 2 {
        name + ": "@ + kotlin_type(a.rust_type@)
    } else {
        name
    }
}

/// Every argument in `style`.
pub open spec fn arg_texts(args: Seq<ArgMetadata>, style: nat) -> Seq<Seq<char>> {
    Seq::new(args.len(), |i: int| arg_text(args[i], style))
}

/// The arguments in `style`, separated by `", "`.
pub open spec fn arg_list(args: Seq<ArgMetadata>, style: nat) -> Seq<char> {
    join(arg_texts(args, style), ", "@)
}

/// Formats one argument in `style` (see `arg_text`).
pub fn format_arg(a: &ArgMetadata, style: u8) -> (res: String)
    ensures
        res@ == arg_text(*a, style as nat),
{
    let name = to_swift_method_name(a.name.as_str());
    if style > 2 {
        return name;
    }
    let mut s = name.clone();
    s.append(": ");
    if style == 0 {
        let t = map_type_to_swift(a.rust_type.as_str());
        s.append(t.as_str());
    } else if style == 1 {
        s.append(name.as_str());
    } else {
        let t = map_type_to_kotlin(a.rust_type.as_str());
        s.append(t.as_str());
    }
    s
}

/// Formats the arguments in `style`, separated by `", "`.
pub fn format_arg_list(args: &Vec<ArgMetadata>, style: u8) -> (res: String)
    ensures
        res@ == arg_list(args@, style as nat),
{
    let mut parts: Vec<String> = Vec::new();
    let mut i: usize = 0;
    while i < args.len()
        invariant
            i <= args.len(),
            views(parts@) == arg_texts(args@.take(i as int), style as nat),
        decreases args.len() - i,
    {
        let p = format_arg(&args[i], style);
        let ghost old_parts = parts@;
        parts.push(p);
        proof {
            lemma_views_push(old_parts, p);
            assert(arg_texts(args@.take(i + 1), style as nat) =~= arg_texts(
                args@.take(i as int),
                style as nat,
            ).push(arg_text(args@[i as int], style as nat)));
        }
        i = i + 1;
    }
    assert(args@.take(args.len() as int) =~= args@);
    join_strings(&parts, ", ")
}

// ---------------------------------------------------------------------------
// Methods and constructors.
// ---------------------------------------------------------------------------

/// A forwarding Swift method for a VM method.
pub open spec fn swift_method(m: MethodMetadata) -> Seq<char> {
    let name = camel(m.name@);
    let args = arg_list(m.args@, 0);
    let call_args = arg_list(m.args@, 1);
    let ret = swift_type(m.return_type@);
    let ret_sig = if ret == "Void"@ {
        Seq::empty()
    } else {
        " -> "@ + ret
    };
    let call = if ret == "Void"@ {
        "vm."@ + name + "("@ + call_args + ")"@
    } else {
        "return vm."@ + name + "("@ + call_args + ")"@
    };
    "public func "@ + name + "("@ + args + ")"@ + ret_sig + " {\n        "@ + call + "\n    }\n\n"@
}

/// Formats `swift_method`.
pub fn format_swift_method(method: &MethodMetadata) -> (res: String)
    ensures
        res@ == swift_method(*method),
{
    let name = to_swift_method_name(method.name.as_str());
    let args = format_arg_list(&method.args, 0);
    let call_args = format_arg_list(&method.args, 1);
    let ret = map_type_to_swift(method.return_type.as_str());
    let is_void = str_eq(ret.as_str(), "Void");
    let ret_sig = if is_void {
        String::new()
    } else {
        let mut r = String::from_str(" -> ");
        r.append(ret.as_str());
        r
    };
    let call = if is_void {
        let mut c = String::from_str("vm.");
        c.append(name.as_str());
        c.append("(");
        c.append(call_args.as_str());
        c.append(")");
        c
    } else {
        let mut c = String::from_str("return vm.");
        c.append(name.as_str());
        c.append("(");
        c.append(call_args.as_str());
        c.append(")");
        c
    };
    let mut s = String::from_str("public func ");
    s.append(name.as_str());
    s.append("(");
    s.append(args.as_str());
    s.append(")");
    s.append(ret_sig.as_str());
    s.append(" {\n        ");
    s.append(call.as_str());
    s.append("\n    }\n\n");
    s
}

/// Methods that the Swift bridge forwards: all but `subscribe`, `new` and `unsubscribe`.
pub open spec fn swift_keeps(m: MethodMetadata) -> bool {
    m.name@ != "subscribe"@ && m.name@ != "new"@ && m.name@ != "unsubscribe"@
}

/// The forwarding methods of `ms`, in order.
pub open spec fn swift_methods(ms: Seq<MethodMetadata>) -> Seq<char>
    decreases ms.len(),
{
    if ms.len() == 0 {
        Seq::empty()
    } else {
        swift_methods(ms.drop_last()) + if swift_keeps(ms.last()) {
            swift_method(ms.last())
        } else {
            Seq::empty()
        }
    }
}

fn swift_methods_text(methods: &Vec<MethodMetadata>) -> (res: String)
    ensures
        res@ == swift_methods(methods@),
{
    let mut out = String::new();
    let mut i: usize = 0;
    while i < methods.len()
        invariant
            i <= methods.len(),
            out@ == swift_methods(methods@.take(i as int)),
        decreases methods.len() - i,
    {
        let m = &methods[i];
        assert(methods@.take(i + 1).drop_last() =~= methods@.take(i as int));
        if !str_eq(m.name.as_str(), "subscribe") && !str_eq(m.name.as_str(), "new") && !str_eq(
            m.name.as_str(),
            "unsubscribe",
        ) {
            let text = format_swift_method(m);
            out.append(text.as_str());
        } else {
            assert(out@ =~= out@ + Seq::<char>::empty());
        }
        i = i + 1;
    }
    assert(methods@.take(methods.len() as int) =~= methods@);
    out
}

/// `init(...)` or `public init(...)` for a constructor method.
pub open spec fn swift_signature(m: MethodMetadata, with_public: bool) -> Seq<char> {
    (if with_public {
        "public init("@
    } else {
        "init("@
    }) + arg_list(m.args@, 0) + ")"@
}

/// Formats `swift_signature`.
pub fn format_swift_signature(method: &MethodMetadata, with_public: bool) -> (res: String)
    ensures
        res@ == swift_signature(*method, with_public),
{
    let args = format_arg_list(&method.args, 0);
    let mut s = if with_public {
        String::from_str("public init(")
    } else {
        String::from_str("init(")
    };
    s.append(args.as_str());
    s.append(")");
    s
}

/// A call of the constructor of `vm_type` with the constructor's arguments.
pub open spec fn swift_ctor_call(m: MethodMetadata, vm_type: Seq<char>) -> Seq<char> {
    vm_type + "("@ + arg_list(m.args@, 1) + ")"@
}

/// Formats `swift_ctor_call`.
pub fn format_swift_ctor_call(method: &MethodMetadata, vm_type: &str) -> (res: String)
    ensures
        res@ == swift_ctor_call(*method, vm_type@),
{
    let args = format_arg_list(&method.args, 1);
    let mut s = String::from_str(vm_type);
    s.append("(");
    s.append(args.as_str());
    s.append(")");
    s
}

/// The initializer signature and the expression that creates the VM.
pub open spec fn swift_ctor(m: VmMetadata) -> (Seq<char>, Seq<char>) {
    match m.factory {
        Some(f) => ("public init(app: "@ + f.bridge_name@ + ")"@, "app."@ + camel(f.method@) + "()"@),
        None => match find_method(m.methods@, "new"@) {
            Some(i) => (
                swift_signature(m.methods@[i], true),
                swift_ctor_call(m.methods@[i], m.rust_type@),
            ),
            None => ("public init()"@, m.rust_type@ + "()"@),
        },
    }
}

fn constructor_or_factory(metadata: &VmMetadata) -> (res: (String, String))
    ensures
        (res.0@, res.1@) == swift_ctor(*metadata),
{
    if let Some(factory) = &metadata.factory {
        let method = to_swift_method_name(factory.method.as_str());
        let mut sig = String::from_str("public init(app: ");
        sig.append(factory.bridge_name.as_str());
        sig.append(")");
        let mut call = String::from_str("app.");
        call.append(method.as_str());
        call.append("()");
        return (sig, call);
    }
    if let Some(i) = find_method_index(&metadata.methods, "new") {
        let ctor = &metadata.methods[i];
        return (
            format_swift_signature(ctor, true),
            format_swift_ctor_call(ctor, metadata.rust_type.as_str()),
        );
    }
    let mut call = String::from_str(metadata.rust_type.as_str());
    call.append("()");
    (String::from_str("public init()"), call)
}

/// The Swift type of the subscription id, unless `subscribe` returns nothing.
pub open spec fn subscribe_ret(m: VmMetadata) -> Option<Seq<char>> {
    match find_method(m.methods@, "subscribe"@) {
        None => None,
        Some(i) => {
            let r = swift_type(m.methods@[i].return_type@);
            if r == "Void"@ {
                None
            } else {
                Some(r)
            }
        },
    }
}

/// The platform name of the `unsubscribe` method, when the VM has one.
pub open spec fn unsubscribe_name(m: VmMetadata) -> Option<Seq<char>> {
    match find_method(m.methods@, "unsubscribe"@) {
        None => None,
        Some(i) => Some(camel(m.methods@[i].name@)),
    }
}

fn subscribe_info(metadata: &VmMetadata) -> (res: Option<String>)
    ensures
        match res {
            None => subscribe_ret(*metadata) is None,
            Some(r) => subscribe_ret(*metadata) == Some(r@),
        },
{
    let i = find_method_index(&metadata.methods, "subscribe")?;
    let ret = map_type_to_swift(metadata.methods[i].return_type.as_str());
    if str_eq(ret.as_str(), "Void") {
        None
    } else {
        Some(ret)
    }
}

fn unsubscribe_method_name(metadata: &VmMetadata) -> (res: Option<String>)
    ensures
        match res {
            None => unsubscribe_name(*metadata) is None,
            Some(r) => unsubscribe_name(*metadata) == Some(r@),
        },
{
    let i = find_method_index(&metadata.methods, "unsubscribe")?;
    Some(to_swift_method_name(metadata.methods[i].name.as_str()))
}

/// The observer-id declaration, the subscribe statement and the `deinit` that
/// unsubscribes.
pub open spec fn observer_id_parts(m: VmMetadata) -> (Seq<char>, Seq<char>, Seq<char>) {
    match subscribe_ret(m) {
        Some(r) => (
            "private var observerId: "@ + r + "?"@,
            "self.observerId = vm.subscribe(observer: observer)"@,
            match unsubscribe_name(m) {
                Some(n) => "deinit {\n        if let id = observerId {\n            vm."@ + n
                    + "(id: id)\n        }\n    }\n"@,
                None => Seq::empty(),
            },
        ),
        None => (Seq::empty(), "vm.subscribe(observer: observer)"@, Seq::empty()),
    }
}

fn observer_id_code(metadata: &VmMetadata) -> (res: (String, String, String))
    ensures
        (res.0@, res.1@, res.2@) == observer_id_parts(*metadata),
{
    let unsubscribe_name = unsubscribe_method_name(metadata);
    match subscribe_info(metadata) {
        Some(ret) => {
            let mut decl = String::from_str("private var observerId: ");
            decl.append(ret.as_str());
            decl.append("?");
            let assign = String::from_str("self.observerId = vm.subscribe(observer: observer)");
            let unsubscribe = match unsubscribe_name {
                Some(name) => {
                    let mut u = String::from_str(
                        "deinit {\n        if let id = observerId {\n            vm.",
                    );
                    u.append(name.as_str());
                    u.append("(id: id)\n        }\n    }\n");
                    u
                },
                None => String::new(),
            };
            (decl, assign, unsubscribe)
        },
        None => (
            String::new(),
            String::from_str("vm.subscribe(observer: observer)"),
            String::new(),
        ),
    }
}

// ---------------------------------------------------------------------------
// VM bridges.
// ---------------------------------------------------------------------------

/// The Swift bridge of a state VM.
pub open spec fn swift_state_bridge(m: VmMetadata) -> Seq<char> {
    let observer = m.observer->0;
    let state_type = opt_view(m.state_type);
    let observer_method = camel(observer.method@);
    let ctor = swift_ctor(m);
    let ids = observer_id_parts(m);
    let methods = swift_methods(m.methods@);
    let proxy = "private final class ObserverProxy: "@
        + observer.rust_type@
        + " {\n    weak var owner: "@
        + m.bridge_name@
        + "?\n    init(owner: "@
        + m.bridge_name@
        + ") {\n        self.owner = owner\n    }\n    func "@
        + observer_method
        + "(state: "@
        + state_type
        + ") {\n        Task { @MainActor [weak owner] in\n            owner?."@
        + observer_method
        + "(state: state)\n        }\n    }\n}\n"@;
    "// Generated by cross-kit-codegen.\nimport Combine\nimport Foundation\n\n"@
        + trim_end(proxy)
        + "\n@MainActor\npublic final class "@
        + m.bridge_name@
        + ": ObservableObject, "@
        + observer.rust_type@
        + " {\n    @Published public private(set) var state: "@
        + state_type
        + "\n\n    private let vm: "@
        + m.rust_type@
        + "Protocol\n    private var observer: ObserverProxy?\n"@
        + indented_optional(ids.0, 4)
        + "\n\n    "@
        + ctor.0
        + " {\n        let vm = "@
        + ctor.1
        + "\n        self.vm = vm\n        self.state = vm.getState()\n        let observer = ObserverProxy(owner: self)\n        self.observer = observer\n        "@
        + ids.1
        + "\n    }\n\n"@
        + indented(methods, 4)
        + "\n    public func "@
        + observer_method
        + "(state: "@
        + state_type
        + ") {\n        self.state = state\n    }\n\n    "@
        + indented_optional(trim_end(ids.2), 4)
        + "\n}\n"@
}

fn generate_state_bridge(metadata: &VmMetadata) -> (res: String)
    requires
        metadata.observer is Some,
        metadata.state_type is Some,
    ensures
        res@ == swift_state_bridge(*metadata),
{
    let observer = metadata.observer.as_ref().unwrap();
    let state_type = metadata.state_type.as_ref().unwrap();
    let observer_method = to_swift_method_name(observer.method.as_str());
    let (ctor_sig, ctor_call) = constructor_or_factory(metadata);
    let (decl, assign, unsub) = observer_id_code(metadata);
    let methods = swift_methods_text(&metadata.methods);
    let mut proxy = String::from_str("private final class ObserverProxy: ");
    proxy.append(observer.rust_type.as_str());
    proxy.append(" {\n    weak var owner: ");
    proxy.append(metadata.bridge_name.as_str());
    proxy.append("?\n    init(owner: ");
    proxy.append(metadata.bridge_name.as_str());
    proxy.append(") {\n        self.owner = owner\n    }\n    func ");
    proxy.append(observer_method.as_str());
    proxy.append("(state: ");
    proxy.append(state_type.as_str());
    proxy.append(") {\n        Task { @MainActor [weak owner] in\n            owner?.");
    proxy.append(observer_method.as_str());
    proxy.append("(state: state)\n        }\n    }\n}\n");
    let proxy_text = trimmed_end(proxy.as_str());
    let methods_text = indent(methods.as_str(), 4);
    let decl_text = indent_optional(decl.as_str(), 4);
    let unsub_trimmed = trimmed_end(unsub.as_str());
    let unsub_text = indent_optional(unsub_trimmed.as_str(), 4);
    let mut s = String::from_str("// Generated by cross-kit-codegen.\nimport Combine\nimport Foundation\n\n");
    s.append(proxy_text.as_str());
    s.append("\n@MainActor\npublic final class ");
    s.append(metadata.bridge_name.as_str());
    s.append(": ObservableObject, ");
    s.append(observer.rust_type.as_str());
    s.append(" {\n    @Published public private(set) var state: ");
    s.append(state_type.as_str());
    s.append("\n\n    private let vm: ");
    s.append(metadata.rust_type.as_str());
    s.append("Protocol\n    private var observer: ObserverProxy?\n");
    s.append(decl_text.as_str());
    s.append("\n\n    ");
    s.append(ctor_sig.as_str());
    s.append(" {\n        let vm = ");
    s.append(ctor_call.as_str());
    s.append("\n        self.vm = vm\n        self.state = vm.getState()\n        let observer = ObserverProxy(owner: self)\n        self.observer = observer\n        ");
    s.append(assign.as_str());
    s.append("\n    }\n\n");
    s.append(methods_text.as_str());
    s.append("\n    public func ");
    s.append(observer_method.as_str());
    s.append("(state: ");
    s.append(state_type.as_str());
    s.append(") {\n        self.state = state\n    }\n\n    ");
    s.append(unsub_text.as_str());
    s.append("\n}\n");
    s
}

/// The Swift bridge of a diff-list VM.
pub open spec fn swift_list_bridge(m: VmMetadata) -> Seq<char> {
    let observer = m.observer->0;
    let diff_type = opt_view(m.diff_type);
    let list_item = opt_view(m.list_item_type);
    let observer_method = camel(observer.method@);
    let ctor = swift_ctor(m);
    let ids = observer_id_parts(m);
    let methods = swift_methods(m.methods@);
    let proxy = "private final class ObserverProxy: "@
        + observer.rust_type@
        + " {\n    weak var owner: "@
        + m.bridge_name@
        + "?\n    init(owner: "@
        + m.bridge_name@
        + ") {\n        self.owner = owner\n    }\n    func "@
        + observer_method
        + "(diffs: ["@
        + diff_type
        + "]) {\n        Task { @MainActor [weak owner] in\n            owner?."@
        + observer_method
        + "(diffs: diffs)\n        }\n    }\n}\n"@;
    "// Generated by cross-kit-codegen.\nimport Combine\nimport Foundation\n\n"@
        + trim_end(proxy)
        + "\n@MainActor\npublic final class "@
        + m.bridge_name@
        + ": ObservableObject, "@
        + observer.rust_type@
        + " {\n    @Published public private(set) var items: ["@
        + list_item
        + "] = []\n\n    private let vm: "@
        + m.rust_type@
        + "Protocol\n    private var observer: ObserverProxy?\n"@
        + indented_optional(ids.0, 4)
        + "\n\n    "@
        + ctor.0
        + " {\n        let vm = "@
        + ctor.1
        + "\n        self.vm = vm\n        let observer = ObserverProxy(owner: self)\n        self.observer = observer\n        "@
        + ids.1
        + "\n    }\n\n"@
        + indented(methods, 4)
        + "\n    public func "@
        + observer_method
        + "(diffs: ["@
        + diff_type
        + "]) {\n        for diff in diffs {\n            switch diff {\n            case let .insert(index, item):\n                let idx = clampIndex(index, upperBound: items.count)\n                items.insert(item, at: idx)\n            case let .update(index, item):\n                let idx = Int(index)\n                guard idx >= 0 && idx < items.count else { continue }\n                items[idx] = item\n            case let .remove(index, _):\n                let idx = Int(index)\n                guard idx >= 0 && idx < items.count else { continue }\n                items.remove(at: idx)\n            case let .move(from, to):\n                let fromIdx = Int(from)\n                let toIdx = Int(to)\n                guard fromIdx >= 0, toIdx >= 0, fromIdx < items.count, toIdx < items.count else { continue }\n                if fromIdx == toIdx { continue }\n                let item = items.remove(at: fromIdx)\n                items.insert(item, at: toIdx)\n            }\n        }\n    }\n\n    private func clampIndex(_ index: Int64, upperBound: Int) -> Int {\n        let idx = Int(index)\n        if idx < 0 { return 0 }\n        if idx > upperBound { return upperBound }\n        return idx\n    }\n\n    "@
        + indented_optional(trim_end(ids.2), 4)
        + "\n}\n"@
}

fn generate_list_bridge(metadata: &VmMetadata) -> (res: String)
    requires
        metadata.observer is Some,
        metadata.diff_type is Some,
        metadata.list_item_type is Some,
    ensures
        res@ == swift_list_bridge(*metadata),
{
    let observer = metadata.observer.as_ref().unwrap();
    let diff_type = metadata.diff_type.as_ref().unwrap();
    let list_item = metadata.list_item_type.as_ref().unwrap();
    let observer_method = to_swift_method_name(observer.method.as_str());
    let (ctor_sig, ctor_call) = constructor_or_factory(metadata);
    let (decl, assign, unsub) = observer_id_code(metadata);
    let methods = swift_methods_text(&metadata.methods);
    let mut proxy = String::from_str("private final class ObserverProxy: ");
    proxy.append(observer.rust_type.as_str());
    proxy.append(" {\n    weak var owner: ");
    proxy.append(metadata.bridge_name.as_str());
    proxy.append("?\n    init(owner: ");
    proxy.append(metadata.bridge_name.as_str());
    proxy.append(") {\n        self.owner = owner\n    }\n    func ");
    proxy.append(observer_method.as_str());
    proxy.append("(diffs: [");
    proxy.append(diff_type.as_str());
    proxy.append("]) {\n        Task { @MainActor [weak owner] in\n            owner?.");
    proxy.append(observer_method.as_str());
    proxy.append("(diffs: diffs)\n        }\n    }\n}\n");
    let proxy_text = trimmed_end(proxy.as_str());
    let methods_text = indent(methods.as_str(), 4);
    let decl_text = indent_optional(decl.as_str(), 4);
    let unsub_trimmed = trimmed_end(unsub.as_str());
    let unsub_text = indent_optional(unsub_trimmed.as_str(), 4);
    let mut s = String::from_str("// Generated by cross-kit-codegen.\nimport Combine\nimport Foundation\n\n");
    s.append(proxy_text.as_str());
    s.append("\n@MainActor\npublic final class ");
    s.append(metadata.bridge_name.as_str());
    s.append(": ObservableObject, ");
    s.append(observer.rust_type.as_str());
    s.append(" {\n    @Published public private(set) var items: [");
    s.append(list_item.as_str());
    s.append("] = []\n\n    private let vm: ");
    s.append(metadata.rust_type.as_str());
    s.append("Protocol\n    private var observer: ObserverProxy?\n");
    s.append(decl_text.as_str());
    s.append("\n\n    ");
    s.append(ctor_sig.as_str());
    s.append(" {\n        let vm = ");
    s.append(ctor_call.as_str());
    s.append("\n        self.vm = vm\n        let observer = ObserverProxy(owner: self)\n        self.observer = observer\n        ");
    s.append(assign.as_str());
    s.append("\n    }\n\n");
    s.append(methods_text.as_str());
    s.append("\n    public func ");
    s.append(observer_method.as_str());
    s.append("(diffs: [");
    s.append(diff_type.as_str());
    s.append("]) {\n        for diff in diffs {\n            switch diff {\n            case let .insert(index, item):\n                let idx = clampIndex(index, upperBound: items.count)\n                items.insert(item, at: idx)\n            case let .update(index, item):\n                let idx = Int(index)\n                guard idx >= 0 && idx < items.count else { continue }\n                items[idx] = item\n            case let .remove(index, _):\n                let idx = Int(index)\n                guard idx >= 0 && idx < items.count else { continue }\n                items.remove(at: idx)\n            case let .move(from, to):\n                let fromIdx = Int(from)\n                let toIdx = Int(to)\n                guard fromIdx >= 0, toIdx >= 0, fromIdx < items.count, toIdx < items.count else { continue }\n                if fromIdx == toIdx { continue }\n                let item = items.remove(at: fromIdx)\n                items.insert(item, at: toIdx)\n            }\n        }\n    }\n\n    private func clampIndex(_ index: Int64, upperBound: Int) -> Int {\n        let idx = Int(index)\n        if idx < 0 { return 0 }\n        if idx > upperBound { return upperBound }\n        return idx\n    }\n\n    ");
    s.append(unsub_text.as_str());
    s.append("\n}\n");
    s
}

proof fn lemma_swift_handler_insert()
    ensures
        "]) {\n        for diff in diffs {\n            switch diff {\n            case let .insert(index, item):\n                let idx = clampIndex(index, upperBound: items.count)\n                items.insert(item, at: idx)\n            case let .update(index, item):\n                let idx = Int(index)\n                guard idx >= 0 && idx < items.count else { continue }\n                items[idx] = item\n            case let .remove(index, _):\n                let idx = Int(index)\n                guard idx >= 0 && idx < items.count else { continue }\n                items.remove(at: idx)\n            case let .move(from, to):\n                let fromIdx = Int(from)\n                let toIdx = Int(to)\n                guard fromIdx >= 0, toIdx >= 0, fromIdx < items.count, toIdx < items.count else { continue }\n                if fromIdx == toIdx { continue }\n                let item = items.remove(at: fromIdx)\n                items.insert(item, at: toIdx)\n            }\n        }\n    }\n\n    private func clampIndex(_ index: Int64, upperBound: Int) -> Int {\n        let idx = Int(index)\n        if idx < 0 { return 0 }\n        if idx > upperBound { return upperBound }\n        return idx\n    }\n\n    "@.subrange(71, 257) == "case let .insert(index, item):\n                let idx = clampIndex(index, upperBound: items.count)\n                items.insert(item, at: idx)\n            case let .update(index, item):"@,
        "]) {\n        for diff in diffs {\n            switch diff {\n            case let .insert(index, item):\n                let idx = clampIndex(index, upperBound: items.count)\n                items.insert(item, at: idx)\n            case let .update(index, item):\n                let idx = Int(index)\n                guard idx >= 0 && idx < items.count else { continue }\n                items[idx] = item\n            case let .remove(index, _):\n                let idx = Int(index)\n                guard idx >= 0 && idx < items.count else { continue }\n                items.remove(at: idx)\n            case let .move(from, to):\n                let fromIdx = Int(from)\n                let toIdx = Int(to)\n                guard fromIdx >= 0, toIdx >= 0, fromIdx < items.count, toIdx < items.count else { continue }\n                if fromIdx == toIdx { continue }\n                let item = items.remove(at: fromIdx)\n                items.insert(item, at: toIdx)\n            }\n        }\n    }\n\n    private func clampIndex(_ index: Int64, upperBound: Int) -> Int {\n        let idx = Int(index)\n        if idx < 0 { return 0 }\n        if idx > upperBound { return upperBound }\n        return idx\n    }\n\n    "@.len() == 1197,
        "case let .insert(index, item):\n                let idx = clampIndex(index, upperBound: items.count)\n                items.insert(item, at: idx)\n            case let .update(index, item):"@.len() == 186,
{
    reveal_strlit("]) {\n        for diff in diffs {\n            switch diff {\n            case let .insert(index, item):\n                let idx = clampIndex(index, upperBound: items.count)\n                items.insert(item, at: idx)\n            case let .update(index, item):\n                let idx = Int(index)\n                guard idx >= 0 && idx < items.count else { continue }\n                items[idx] = item\n            case let .remove(index, _):\n                let idx = Int(index)\n                guard idx >= 0 && idx < items.count else { continue }\n                items.remove(at: idx)\n            case let .move(from, to):\n                let fromIdx = Int(from)\n                let toIdx = Int(to)\n                guard fromIdx >= 0, toIdx >= 0, fromIdx < items.count, toIdx < items.count else { continue }\n                if fromIdx == toIdx { continue }\n                let item = items.remove(at: fromIdx)\n                items.insert(item, at: toIdx)\n            }\n        }\n    }\n\n    private func clampIndex(_ index: Int64, upperBound: Int) -> Int {\n        let idx = Int(index)\n        if idx < 0 { return 0 }\n        if idx > upperBound { return upperBound }\n        return idx\n    }\n\n    ");
    reveal_strlit("case let .insert(index, item):\n                let idx = clampIndex(index, upperBound: items.count)\n                items.insert(item, at: idx)\n            case let .update(index, item):");
    assert("]) {\n        for diff in diffs {\n            switch diff {\n            case let .insert(index, item):\n                let idx = clampIndex(index, upperBound: items.count)\n                items.insert(item, at: idx)\n            case let .update(index, item):\n                let idx = Int(index)\n                guard idx >= 0 && idx < items.count else { continue }\n                items[idx] = item\n            case let .remove(index, _):\n                let idx = Int(index)\n                guard idx >= 0 && idx < items.count else { continue }\n                items.remove(at: idx)\n            case let .move(from, to):\n                let fromIdx = Int(from)\n                let toIdx = Int(to)\n                guard fromIdx >= 0, toIdx >= 0, fromIdx < items.count, toIdx < items.count else { continue }\n                if fromIdx == toIdx { continue }\n                let item = items.remove(at: fromIdx)\n                items.insert(item, at: toIdx)\n            }\n        }\n    }\n\n    private func clampIndex(_ index: Int64, upperBound: Int) -> Int {\n        let idx = Int(index)\n        if idx < 0 { return 0 }\n        if idx > upperBound { return upperBound }\n        return idx\n    }\n\n    "@.subrange(71, 257) =~= "case let .insert(index, item):\n                let idx = clampIndex(index, upperBound: items.count)\n                items.insert(item, at: idx)\n            case let .update(index, item):"@);
}

proof fn lemma_swift_handler_update()
    ensures
        "]) {\n        for diff in diffs {\n            switch diff {\n            case let .insert(index, item):\n                let idx = clampIndex(index, upperBound: items.count)\n                items.insert(item, at: idx)\n            case let .update(index, item):\n                let idx = Int(index)\n                guard idx >= 0 && idx < items.count else { continue }\n                items[idx] = item\n            case let .remove(index, _):\n                let idx = Int(index)\n                guard idx >= 0 && idx < items.count else { continue }\n                items.remove(at: idx)\n            case let .move(from, to):\n                let fromIdx = Int(from)\n                let toIdx = Int(to)\n                guard fromIdx >= 0, toIdx >= 0, fromIdx < items.count, toIdx < items.count else { continue }\n                if fromIdx == toIdx { continue }\n                let item = items.remove(at: fromIdx)\n                items.insert(item, at: toIdx)\n            }\n        }\n    }\n\n    private func clampIndex(_ index: Int64, upperBound: Int) -> Int {\n        let idx = Int(index)\n        if idx < 0 { return 0 }\n        if idx > upperBound { return upperBound }\n        return idx\n    }\n\n    "@.subrange(227, 438) == "case let .update(index, item):\n                let idx = Int(index)\n                guard idx >= 0 && idx < items.count else { continue }\n                items[idx] = item\n            case let .remove(index, _):"@,
        "]) {\n        for diff in diffs {\n            switch diff {\n            case let .insert(index, item):\n                let idx = clampIndex(index, upperBound: items.count)\n                items.insert(item, at: idx)\n            case let .update(index, item):\n                let idx = Int(index)\n                guard idx >= 0 && idx < items.count else { continue }\n                items[idx] = item\n            case let .remove(index, _):\n                let idx = Int(index)\n                guard idx >= 0 && idx < items.count else { continue }\n                items.remove(at: idx)\n            case let .move(from, to):\n                let fromIdx = Int(from)\n                let toIdx = Int(to)\n                guard fromIdx >= 0, toIdx >= 0, fromIdx < items.count, toIdx < items.count else { continue }\n                if fromIdx == toIdx { continue }\n                let item = items.remove(at: fromIdx)\n                items.insert(item, at: toIdx)\n            }\n        }\n    }\n\n    private func clampIndex(_ index: Int64, upperBound: Int) -> Int {\n        let idx = Int(index)\n        if idx < 0 { return 0 }\n        if idx > upperBound { return upperBound }\n        return idx\n    }\n\n    "@.len() == 1197,
        "case let .update(index, item):\n                let idx = Int(index)\n                guard idx >= 0 && idx < items.count else { continue }\n                items[idx] = item\n            case let .remove(index, _):"@.len() == 211,
{
    reveal_strlit("]) {\n        for diff in diffs {\n            switch diff {\n            case let .insert(index, item):\n                let idx = clampIndex(index, upperBound: items.count)\n                items.insert(item, at: idx)\n            case let .update(index, item):\n                let idx = Int(index)\n                guard idx >= 0 && idx < items.count else { continue }\n                items[idx] = item\n            case let .remove(index, _):\n                let idx = Int(index)\n                guard idx >= 0 && idx < items.count else { continue }\n                items.remove(at: idx)\n            case let .move(from, to):\n                let fromIdx = Int(from)\n                let toIdx = Int(to)\n                guard fromIdx >= 0, toIdx >= 0, fromIdx < items.count, toIdx < items.count else { continue }\n                if fromIdx == toIdx { continue }\n                let item = items.remove(at: fromIdx)\n                items.insert(item, at: toIdx)\n            }\n        }\n    }\n\n    private func clampIndex(_ index: Int64, upperBound: Int) -> Int {\n        let idx = Int(index)\n        if idx < 0 { return 0 }\n        if idx > upperBound { return upperBound }\n        return idx\n    }\n\n    ");
    reveal_strlit("case let .update(index, item):\n                let idx = Int(index)\n                guard idx >= 0 && idx < items.count else { continue }\n                items[idx] = item\n            case let .remove(index, _):");
    assert("]) {\n        for diff in diffs {\n            switch diff {\n            case let .insert(index, item):\n                let idx = clampIndex(index, upperBound: items.count)\n                items.insert(item, at: idx)\n            case let .update(index, item):\n                let idx = Int(index)\n                guard idx >= 0 && idx < items.count else { continue }\n                items[idx] = item\n            case let .remove(index, _):\n                let idx = Int(index)\n                guard idx >= 0 && idx < items.count else { continue }\n                items.remove(at: idx)\n            case let .move(from, to):\n                let fromIdx = Int(from)\n                let toIdx = Int(to)\n                guard fromIdx >= 0, toIdx >= 0, fromIdx < items.count, toIdx < items.count else { continue }\n                if fromIdx == toIdx { continue }\n                let item = items.remove(at: fromIdx)\n                items.insert(item, at: toIdx)\n            }\n        }\n    }\n\n    private func clampIndex(_ index: Int64, upperBound: Int) -> Int {\n        let idx = Int(index)\n        if idx < 0 { return 0 }\n        if idx > upperBound { return upperBound }\n        return idx\n    }\n\n    "@.subrange(227, 438) =~= "case let .update(index, item):\n                let idx = Int(index)\n                guard idx >= 0 && idx < items.count else { continue }\n                items[idx] = item\n            case let .remove(index, _):"@);
}

proof fn lemma_swift_handler_remove()
    ensures
        "]) {\n        for diff in diffs {\n            switch diff {\n            case let .insert(index, item):\n                let idx = clampIndex(index, upperBound: items.count)\n                items.insert(item, at: idx)\n            case let .update(index, item):\n                let idx = Int(index)\n                guard idx >= 0 && idx < items.count else { continue }\n                items[idx] = item\n            case let .remove(index, _):\n                let idx = Int(index)\n                guard idx >= 0 && idx < items.count else { continue }\n                items.remove(at: idx)\n            case let .move(from, to):\n                let fromIdx = Int(from)\n                let toIdx = Int(to)\n                guard fromIdx >= 0, toIdx >= 0, fromIdx < items.count, toIdx < items.count else { continue }\n                if fromIdx == toIdx { continue }\n                let item = items.remove(at: fromIdx)\n                items.insert(item, at: toIdx)\n            }\n        }\n    }\n\n    private func clampIndex(_ index: Int64, upperBound: Int) -> Int {\n        let idx = Int(index)\n        if idx < 0 { return 0 }\n        if idx > upperBound { return upperBound }\n        return idx\n    }\n\n    "@.subrange(411, 621) == "case let .remove(index, _):\n                let idx = Int(index)\n                guard idx >= 0 && idx < items.count else { continue }\n                items.remove(at: idx)\n            case let .move(from, to):"@,
        "]) {\n        for diff in diffs {\n            switch diff {\n            case let .insert(index, item):\n                let idx = clampIndex(index, upperBound: items.count)\n                items.insert(item, at: idx)\n            case let .update(index, item):\n                let idx = Int(index)\n                guard idx >= 0 && idx < items.count else { continue }\n                items[idx] = item\n            case let .remove(index, _):\n                let idx = Int(index)\n                guard idx >= 0 && idx < items.count else { continue }\n                items.remove(at: idx)\n            case let .move(from, to):\n                let fromIdx = Int(from)\n                let toIdx = Int(to)\n                guard fromIdx >= 0, toIdx >= 0, fromIdx < items.count, toIdx < items.count else { continue }\n                if fromIdx == toIdx { continue }\n                let item = items.remove(at: fromIdx)\n                items.insert(item, at: toIdx)\n            }\n        }\n    }\n\n    private func clampIndex(_ index: Int64, upperBound: Int) -> Int {\n        let idx = Int(index)\n        if idx < 0 { return 0 }\n        if idx > upperBound { return upperBound }\n        return idx\n    }\n\n    "@.len() == 1197,
        "case let .remove(index, _):\n                let idx = Int(index)\n                guard idx >= 0 && idx < items.count else { continue }\n                items.remove(at: idx)\n            case let .move(from, to):"@.len() == 210,
{
    reveal_strlit("]) {\n        for diff in diffs {\n            switch diff {\n            case let .insert(index, item):\n                let idx = clampIndex(index, upperBound: items.count)\n                items.insert(item, at: idx)\n            case let .update(index, item):\n                let idx = Int(index)\n                guard idx >= 0 && idx < items.count else { continue }\n                items[idx] = item\n            case let .remove(index, _):\n                let idx = Int(index)\n                guard idx >= 0 && idx < items.count else { continue }\n                items.remove(at: idx)\n            case let .move(from, to):\n                let fromIdx = Int(from)\n                let toIdx = Int(to)\n                guard fromIdx >= 0, toIdx >= 0, fromIdx < items.count, toIdx < items.count else { continue }\n                if fromIdx == toIdx { continue }\n                let item = items.remove(at: fromIdx)\n                items.insert(item, at: toIdx)\n            }\n        }\n    }\n\n    private func clampIndex(_ index: Int64, upperBound: Int) -> Int {\n        let idx = Int(index)\n        if idx < 0 { return 0 }\n        if idx > upperBound { return upperBound }\n        return idx\n    }\n\n    ");
    reveal_strlit("case let .remove(index, _):\n                let idx = Int(index)\n                guard idx >= 0 && idx < items.count else { continue }\n                items.remove(at: idx)\n            case let .move(from, to):");
    assert("]) {\n        for diff in diffs {\n            switch diff {\n            case let .insert(index, item):\n                let idx = clampIndex(index, upperBound: items.count)\n                items.insert(item, at: idx)\n            case let .update(index, item):\n                let idx = Int(index)\n                guard idx >= 0 && idx < items.count else { continue }\n                items[idx] = item\n            case let .remove(index, _):\n                let idx = Int(index)\n                guard idx >= 0 && idx < items.count else { continue }\n                items.remove(at: idx)\n            case let .move(from, to):\n                let fromIdx = Int(from)\n                let toIdx = Int(to)\n                guard fromIdx >= 0, toIdx >= 0, fromIdx < items.count, toIdx < items.count else { continue }\n                if fromIdx == toIdx { continue }\n                let item = items.remove(at: fromIdx)\n                items.insert(item, at: toIdx)\n            }\n        }\n    }\n\n    private func clampIndex(_ index: Int64, upperBound: Int) -> Int {\n        let idx = Int(index)\n        if idx < 0 { return 0 }\n        if idx > upperBound { return upperBound }\n        return idx\n    }\n\n    "@.subrange(411, 621) =~= "case let .remove(index, _):\n                let idx = Int(index)\n                guard idx >= 0 && idx < items.count else { continue }\n                items.remove(at: idx)\n            case let .move(from, to):"@);
}

proof fn lemma_swift_handler_move()
    ensures
        "]) {\n        for diff in diffs {\n            switch diff {\n            case let .insert(index, item):\n                let idx = clampIndex(index, upperBound: items.count)\n                items.insert(item, at: idx)\n            case let .update(index, item):\n                let idx = Int(index)\n                guard idx >= 0 && idx < items.count else { continue }\n                items[idx] = item\n            case let .remove(index, _):\n                let idx = Int(index)\n                guard idx >= 0 && idx < items.count else { continue }\n                items.remove(at: idx)\n            case let .move(from, to):\n                let fromIdx = Int(from)\n                let toIdx = Int(to)\n                guard fromIdx >= 0, toIdx >= 0, fromIdx < items.count, toIdx < items.count else { continue }\n                if fromIdx == toIdx { continue }\n                let item = items.remove(at: fromIdx)\n                items.insert(item, at: toIdx)\n            }\n        }\n    }\n\n    private func clampIndex(_ index: Int64, upperBound: Int) -> Int {\n        let idx = Int(index)\n        if idx < 0 { return 0 }\n        if idx > upperBound { return upperBound }\n        return idx\n    }\n\n    "@.subrange(596, 984) == "case let .move(from, to):\n                let fromIdx = Int(from)\n                let toIdx = Int(to)\n                guard fromIdx >= 0, toIdx >= 0, fromIdx < items.count, toIdx < items.count else { continue }\n                if fromIdx == toIdx { continue }\n                let item = items.remove(at: fromIdx)\n                items.insert(item, at: toIdx)\n            }\n        }\n    }"@,
        "]) {\n        for diff in diffs {\n            switch diff {\n            case let .insert(index, item):\n                let idx = clampIndex(index, upperBound: items.count)\n                items.insert(item, at: idx)\n            case let .update(index, item):\n                let idx = Int(index)\n                guard idx >= 0 && idx < items.count else { continue }\n                items[idx] = item\n            case let .remove(index, _):\n                let idx = Int(index)\n                guard idx >= 0 && idx < items.count else { continue }\n                items.remove(at: idx)\n            case let .move(from, to):\n                let fromIdx = Int(from)\n                let toIdx = Int(to)\n                guard fromIdx >= 0, toIdx >= 0, fromIdx < items.count, toIdx < items.count else { continue }\n                if fromIdx == toIdx { continue }\n                let item = items.remove(at: fromIdx)\n                items.insert(item, at: toIdx)\n            }\n        }\n    }\n\n    private func clampIndex(_ index: Int64, upperBound: Int) -> Int {\n        let idx = Int(index)\n        if idx < 0 { return 0 }\n        if idx > upperBound { return upperBound }\n        return idx\n    }\n\n    "@.len() == 1197,
        "case let .move(from, to):\n                let fromIdx = Int(from)\n                let toIdx = Int(to)\n                guard fromIdx >= 0, toIdx >= 0, fromIdx < items.count, toIdx < items.count else { continue }\n                if fromIdx == toIdx { continue }\n                let item = items.remove(at: fromIdx)\n                items.insert(item, at: toIdx)\n            }\n        }\n    }"@.len() == 388,
{
    reveal_strlit("]) {\n        for diff in diffs {\n            switch diff {\n            case let .insert(index, item):\n                let idx = clampIndex(index, upperBound: items.count)\n                items.insert(item, at: idx)\n            case let .update(index, item):\n                let idx = Int(index)\n                guard idx >= 0 && idx < items.count else { continue }\n                items[idx] = item\n            case let .remove(index, _):\n                let idx = Int(index)\n                guard idx >= 0 && idx < items.count else { continue }\n                items.remove(at: idx)\n            case let .move(from, to):\n                let fromIdx = Int(from)\n                let toIdx = Int(to)\n                guard fromIdx >= 0, toIdx >= 0, fromIdx < items.count, toIdx < items.count else { continue }\n                if fromIdx == toIdx { continue }\n                let item = items.remove(at: fromIdx)\n                items.insert(item, at: toIdx)\n            }\n        }\n    }\n\n    private func clampIndex(_ index: Int64, upperBound: Int) -> Int {\n        let idx = Int(index)\n        if idx < 0 { return 0 }\n        if idx > upperBound { return upperBound }\n        return idx\n    }\n\n    ");
    reveal_strlit("case let .move(from, to):\n                let fromIdx = Int(from)\n                let toIdx = Int(to)\n                guard fromIdx >= 0, toIdx >= 0, fromIdx < items.count, toIdx < items.count else { continue }\n                if fromIdx == toIdx { continue }\n                let item = items.remove(at: fromIdx)\n                items.insert(item, at: toIdx)\n            }\n        }\n    }");
    assert("]) {\n        for diff in diffs {\n            switch diff {\n            case let .insert(index, item):\n                let idx = clampIndex(index, upperBound: items.count)\n                items.insert(item, at: idx)\n            case let .update(index, item):\n                let idx = Int(index)\n                guard idx >= 0 && idx < items.count else { continue }\n                items[idx] = item\n            case let .remove(index, _):\n                let idx = Int(index)\n                guard idx >= 0 && idx < items.count else { continue }\n                items.remove(at: idx)\n            case let .move(from, to):\n                let fromIdx = Int(from)\n                let toIdx = Int(to)\n                guard fromIdx >= 0, toIdx >= 0, fromIdx < items.count, toIdx < items.count else { continue }\n                if fromIdx == toIdx { continue }\n                let item = items.remove(at: fromIdx)\n                items.insert(item, at: toIdx)\n            }\n        }\n    }\n\n    private func clampIndex(_ index: Int64, upperBound: Int) -> Int {\n        let idx = Int(index)\n        if idx < 0 { return 0 }\n        if idx > upperBound { return upperBound }\n        return idx\n    }\n\n    "@.subrange(596, 984) =~= "case let .move(from, to):\n                let fromIdx = Int(from)\n                let toIdx = Int(to)\n                guard fromIdx >= 0, toIdx >= 0, fromIdx < items.count, toIdx < items.count else { continue }\n                if fromIdx == toIdx { continue }\n                let item = items.remove(at: fromIdx)\n                items.insert(item, at: toIdx)\n            }\n        }\n    }"@);
}

/// The diff-list bridge applies every diff kind the way the view model
/// does: an insert puts the item at the clamped index, an update replaces
/// the item at an in-range index in place (the length stays), a removal
/// takes out the item at an in-range index, and a move takes the item out
/// and puts it back at the target index; out-of-range indices are skipped.
pub proof fn law_swift_list_bridge_applies_diffs(m: VmMetadata)
    ensures
        m.mode is DiffList ==> (swift_bridge_source(m) matches Ok(src) ==> contains(
            src,
            "case let .insert(index, item):\n                let idx = clampIndex(index, upperBound: items.count)\n                items.insert(item, at: idx)\n            case let .update(index, item):"@,
        )),
        m.mode is DiffList ==> (swift_bridge_source(m) matches Ok(src) ==> contains(
            src,
            "case let .update(index, item):\n                let idx = Int(index)\n                guard idx >= 0 && idx < items.count else { continue }\n                items[idx] = item\n            case let .remove(index, _):"@,
        )),
        m.mode is DiffList ==> (swift_bridge_source(m) matches Ok(src) ==> contains(
            src,
            "case let .remove(index, _):\n                let idx = Int(index)\n                guard idx >= 0 && idx < items.count else { continue }\n                items.remove(at: idx)\n            case let .move(from, to):"@,
        )),
        m.mode is DiffList ==> (swift_bridge_source(m) matches Ok(src) ==> contains(
            src,
            "case let .move(from, to):\n                let fromIdx = Int(from)\n                let toIdx = Int(to)\n                guard fromIdx >= 0, toIdx >= 0, fromIdx < items.count, toIdx < items.count else { continue }\n                if fromIdx == toIdx { continue }\n                let item = items.remove(at: fromIdx)\n                items.insert(item, at: toIdx)\n            }\n        }\n    }"@,
        )),
{
    if swift_bridge_source(m) is Ok && m.mode is DiffList {
        let t = swift_list_bridge(m);
        let ids = observer_id_parts(m);
        let h = "]) {\n        for diff in diffs {\n            switch diff {\n            case let .insert(index, item):\n                let idx = clampIndex(index, upperBound: items.count)\n                items.insert(item, at: idx)\n            case let .update(index, item):\n                let idx = Int(index)\n                guard idx >= 0 && idx < items.count else { continue }\n                items[idx] = item\n            case let .remove(index, _):\n                let idx = Int(index)\n                guard idx >= 0 && idx < items.count else { continue }\n                items.remove(at: idx)\n            case let .move(from, to):\n                let fromIdx = Int(from)\n                let toIdx = Int(to)\n                guard fromIdx >= 0, toIdx >= 0, fromIdx < items.count, toIdx < items.count else { continue }\n                if fromIdx == toIdx { continue }\n                let item = items.remove(at: fromIdx)\n                items.insert(item, at: toIdx)\n            }\n        }\n    }\n\n    private func clampIndex(_ index: Int64, upperBound: Int) -> Int {\n        let idx = Int(index)\n        if idx < 0 { return 0 }\n        if idx > upperBound { return upperBound }\n        return idx\n    }\n\n    "@;
        let io = indented_optional(trim_end(ids.2), 4);
        let e = "\n}\n"@;
        let start = t.len() - e.len() - io.len() - h.len();
        assert(t.subrange(start, start + h.len()) =~= h);
        lemma_swift_handler_insert();
        lemma_contains_within(t, start, h, 71, "case let .insert(index, item):\n                let idx = clampIndex(index, upperBound: items.count)\n                items.insert(item, at: idx)\n            case let .update(index, item):"@);
        lemma_swift_handler_update();
        lemma_contains_within(t, start, h, 227, "case let .update(index, item):\n                let idx = Int(index)\n                guard idx >= 0 && idx < items.count else { continue }\n                items[idx] = item\n            case let .remove(index, _):"@);
        lemma_swift_handler_remove();
        lemma_contains_within(t, start, h, 411, "case let .remove(index, _):\n                let idx = Int(index)\n                guard idx >= 0 && idx < items.count else { continue }\n                items.remove(at: idx)\n            case let .move(from, to):"@);
        lemma_swift_handler_move();
        lemma_contains_within(t, start, h, 596, "case let .move(from, to):\n                let fromIdx = Int(from)\n                let toIdx = Int(to)\n                guard fromIdx >= 0, toIdx >= 0, fromIdx < items.count, toIdx < items.count else { continue }\n                if fromIdx == toIdx { continue }\n                let item = items.remove(at: fromIdx)\n                items.insert(item, at: toIdx)\n            }\n        }\n    }"@);
    }
}

/// The Swift bridge source for `m`, or why there is none.
pub open spec fn swift_bridge_source(m: VmMetadata) -> Result<Seq<char>, CodegenFault> {
    match bridge_fault(m) {
        Some(f) => Err(f),
        None => match m.mode {
            VmMode::State => Ok(swift_state_bridge(m)),
            VmMode::DiffList => Ok(swift_list_bridge(m)),
            mode => Err(CodegenFault::Mode(mode)),
        },
    }
}

/// `res` carries `expected`: the same text, or an error for the same fault.
pub open spec fn source_result(res: Result<String, CodegenError>, expected: Result<
    Seq<char>,
    CodegenFault,
>) -> bool {
    match expected {
        Ok(text) => res matches Ok(s) && s@ == text,
        Err(f) => res matches Err(e) && fault_of(e) == f,
    }
}

/// `res` is one file at `path` holding the text of `expected`, or its error.
pub open spec fn file_set_result(
    res: Result<GeneratedFileSet, CodegenError>,
    path: Seq<char>,
    expected: Result<Seq<char>, CodegenFault>,
) -> bool {
    match expected {
        Ok(text) => res matches Ok(set) && set.files@.len() == 1 && set.files@[0].path@ == path
            && set.files@[0].contents@ == text,
        Err(f) => res matches Err(e) && fault_of(e) == f,
    }
}

/// Generates the Swift bridge source for one VM.
pub fn generate_swift_bridge_source(metadata: &VmMetadata) -> (res: Result<String, CodegenError>)
    ensures
        source_result(res, swift_bridge_source(*metadata)),
{
    validate_swift_bridge_metadata(metadata)?;
    match metadata.mode {
        VmMode::State => Ok(generate_state_bridge(metadata)),
        VmMode::DiffList => Ok(generate_list_bridge(metadata)),
        VmMode::Event => Err(CodegenError::UnsupportedMode(VmMode::Event)),
        VmMode::Unknown => Err(CodegenError::UnsupportedMode(VmMode::Unknown)),
    }
}

/// Generates `<BridgeName>.swift` for one VM.
pub fn generate_swift_bridge(metadata: &VmMetadata) -> (res: Result<
    GeneratedFileSet,
    CodegenError,
>)
    ensures
        file_set_result(res, metadata.bridge_name@ + ".swift"@, swift_bridge_source(*metadata)),
{
    let contents = generate_swift_bridge_source(metadata)?;
    let mut path = metadata.bridge_name.clone();
    path.append(".swift");
    let mut files = Vec::new();
    files.push(GeneratedFile { path, contents });
    Ok(GeneratedFileSet { files })
}

// ---------------------------------------------------------------------------
// Root container.
// ---------------------------------------------------------------------------

/// One line of the root container per VM. Kind 0: the child property
/// declaration, 1: the child initialization, 2: the change forwarding.
pub open spec fn swift_line(kind: nat, m: VmMetadata, root_property: Seq<char>) -> Seq<char> {
    if kind == 0 {
        "    public let "@ + property_of(m.rust_type@) + ": "@ + m.bridge_name@
    } else if kind == 1 {
        "        self."@ + property_of(m.rust_type@) + " = "@ + m.bridge_name@ + "(app: "@
            + root_property + ")"@
    } else {
        "        "@ + property_of(m.rust_type@)
            + ".objectWillChange.sink { [weak self] _ in self?.objectWillChange.send() }.store(in: &cancellables)"@
    }
}

/// `swift_line` for the VMs at the indices `ix`.
pub open spec fn swift_lines(
    ms: Seq<VmMetadata>,
    ix: Seq<usize>,
    kind: nat,
    root_property: Seq<char>,
) -> Seq<Seq<char>> {
    Seq::new(ix.len(), |k: int| swift_line(kind, ms[ix[k] as int], root_property))
}

/// The initializer of the root container and the expression creating the root bridge.
pub open spec fn swift_root_ctor(root: VmMetadata) -> (Seq<char>, Seq<char>) {
    match find_method(root.methods@, "new"@) {
        Some(i) => (
            swift_signature(root.methods@[i], true),
            swift_ctor_call(root.methods@[i], root.bridge_name@),
        ),
        None => ("public init()"@, root.bridge_name@ + "()"@),
    }
}

/// The Swift root container for the graph with root `r` and children `ch`.
pub open spec fn swift_root_container(
    ms: Seq<VmMetadata>,
    container: Seq<char>,
    r: int,
    ch: Seq<usize>,
) -> Seq<char> {
    let root = ms[r];
    let root_property = property_of(root.rust_type@);
    let ctor = swift_root_ctor(root);
    let child_decls = join(swift_lines(ms, ch, 0, root_property), "\n"@);
    let child_inits = join(swift_lines(ms, ch, 1, root_property), "\n"@);
    let forwards = join(swift_lines(ms, seq![r as usize] + ch, 2, root_property), "\n"@);
    "// Generated by cross-kit-codegen.\nimport Combine\nimport Foundation\n\n@MainActor\npublic final class "@
        + container
        + ": ObservableObject {\n    public let "@
        + root_property
        + ": "@
        + root.bridge_name@
        + "\n"@
        + indented_optional(child_decls, 0)
        + "\n    private var cancellables: Set<AnyCancellable> = []\n\n    "@
        + ctor.0
        + " {\n        let "@
        + root_property
        + " = "@
        + ctor.1
        + "\n        self."@
        + root_property
        + " = "@
        + root_property
        + "\n"@
        + indented_optional(child_inits, 0)
        + "\n"@
        + forwards
        + "\n    }\n}\n"@
}

/// The Swift root container source, or why there is none.
pub open spec fn swift_root_container_source(ms: Seq<VmMetadata>, b: BindingsConfig) -> Result<
    Seq<char>,
    CodegenFault,
> {
    match root_graph(ms, b) {
        Ok((r, ch)) => Ok(swift_root_container(ms, b.container_name@, r, ch)),
        Err(f) => Err(f),
    }
}

fn swift_line_text(m: &VmMetadata, kind: u8, root_property: &str) -> (res: String)
    ensures
        res@ == swift_line(kind as nat, *m, root_property@),
{
    let property = property_name(m.rust_type.as_str());
    if kind == 0 {
        let mut s = String::from_str("    public let ");
        s.append(property.as_str());
        s.append(": ");
        s.append(m.bridge_name.as_str());
        s
    } else if kind == 1 {
        let mut s = String::from_str("        self.");
        s.append(property.as_str());
        s.append(" = ");
        s.append(m.bridge_name.as_str());
        s.append("(app: ");
        s.append(root_property);
        s.append(")");
        s
    } else {
        let mut s = String::from_str("        ");
        s.append(property.as_str());
        s.append(
            ".objectWillChange.sink { [weak self] _ in self?.objectWillChange.send() }.store(in: &cancellables)",
        );
        s
    }
}

fn swift_lines_text(ms: &[VmMetadata], ix: &Vec<usize>, kind: u8, root_property: &str) -> (res:
    String)
    requires
        forall|k: int| 0 <= k < ix@.len() ==> ix@[k] < ms@.len(),
    ensures
        res@ == join(swift_lines(ms@, ix@, kind as nat, root_property@), "\n"@),
{
    let ghost target = swift_lines(ms@, ix@, kind as nat, root_property@);
    let mut parts: Vec<String> = Vec::new();
    let mut k: usize = 0;
    while k < ix.len()
        invariant
            k <= ix.len(),
            target == swift_lines(ms@, ix@, kind as nat, root_property@),
            forall|j: int| 0 <= j < ix@.len() ==> ix@[j] < ms@.len(),
            views(parts@) == target.take(k as int),
        decreases ix.len() - k,
    {
        let line = swift_line_text(&ms[ix[k]], kind, root_property);
        let ghost old_parts = parts@;
        parts.push(line);
        proof {
            lemma_views_push(old_parts, line);
            assert(target.take(k + 1) =~= target.take(k as int).push(target[k as int]));
        }
        k = k + 1;
    }
    assert(target.take(ix.len() as int) =~= target);
    join_strings(&parts, "\n")
}

fn root_constructor_for_container(root: &VmMetadata) -> (res: (String, String))
    ensures
        (res.0@, res.1@) == swift_root_ctor(*root),
{
    if let Some(i) = find_method_index(&root.methods, "new") {
        let ctor = &root.methods[i];
        return (
            format_swift_signature(ctor, true),
            format_swift_ctor_call(ctor, root.bridge_name.as_str()),
        );
    }
    let mut call = String::from_str(root.bridge_name.as_str());
    call.append("()");
    (String::from_str("public init()"), call)
}

fn generate_swift_root_container_source(ms: &[VmMetadata], graph: &RootGraph) -> (res: String)
    requires
        forall|k: int| 0 <= k < graph.children@.len() ==> graph.children@[k] < ms@.len(),
        graph.root < ms@.len(),
    ensures
        res@ == swift_root_container(
            ms@,
            graph.container_name@,
            graph.root as int,
            graph.children@,
        ),
{
    let root = &ms[graph.root];
    let root_property = property_name(root.rust_type.as_str());
    let (ctor_sig, ctor_call) = root_constructor_for_container(root);
    let child_decls = swift_lines_text(ms, &graph.children, 0, root_property.as_str());
    let child_inits = swift_lines_text(ms, &graph.children, 1, root_property.as_str());
    let mut all: Vec<usize> = Vec::new();
    all.push(graph.root);
    let mut k: usize = 0;
    while k < graph.children.len()
        invariant
            k <= graph.children.len(),
            all@ == seq![graph.root] + graph.children@.take(k as int),
        decreases graph.children.len() - k,
    {
        all.push(graph.children[k]);
        k = k + 1;
        assert(all@ =~= seq![graph.root] + graph.children@.take(k as int));
    }
    assert(graph.children@.take(graph.children.len() as int) =~= graph.children@);
    let forwards = swift_lines_text(ms, &all, 2, root_property.as_str());
    let child_decls_text = indent_optional(child_decls.as_str(), 0);
    let child_inits_text = indent_optional(child_inits.as_str(), 0);
    let mut s = String::from_str("// Generated by cross-kit-codegen.\nimport Combine\nimport Foundation\n\n@MainActor\npublic final class ");
    s.append(graph.container_name.as_str());
    s.append(": ObservableObject {\n    public let ");
    s.append(root_property.as_str());
    s.append(": ");
    s.append(root.bridge_name.as_str());
    s.append("\n");
    s.append(child_decls_text.as_str());
    s.append("\n    private var cancellables: Set<AnyCancellable> = []\n\n    ");
    s.append(ctor_sig.as_str());
    s.append(" {\n        let ");
    s.append(root_property.as_str());
    s.append(" = ");
    s.append(ctor_call.as_str());
    s.append("\n        self.");
    s.append(root_property.as_str());
    s.append(" = ");
    s.append(root_property.as_str());
    s.append("\n");
    s.append(child_inits_text.as_str());
    s.append("\n");
    s.append(forwards.as_str());
    s.append("\n    }\n}\n");
    s
}

/// Generates the Swift root container for `metadatas` under `bindings`.
pub fn generate_swift_root_container(
    metadatas: &[VmMetadata],
    bindings: &BindingsConfig,
) -> (res: Result<GeneratedFileSet, CodegenError>)
    ensures
        file_set_result(
            res,
            bindings.container_name@ + ".swift"@,
            swift_root_container_source(metadatas@, *bindings),
        ),
{
    let graph = RootGraph::build(metadatas, bindings)?;
    let contents = generate_swift_root_container_source(metadatas, &graph);
    let mut path = graph.container_name.clone();
    path.append(".swift");
    let mut files = Vec::new();
    files.push(GeneratedFile { path, contents });
    Ok(GeneratedFileSet { files })
}

} // verus!
