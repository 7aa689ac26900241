//! Kotlin bridge generation: one Compose-friendly class per VM, and the root
//! container that owns a root VM and its children.
use vstd::prelude::*;
use crate::codegen::{
    bridge_fault, fault_of, file_view, file_views, only_file, validate_swift_bridge_metadata,
    CodegenError, CodegenFault, GeneratedFile, GeneratedFileSet,
};
use crate::config::BindingsConfig;
use crate::metadata::{find_method, find_method_index, has_method, opt_view, MethodMetadata, VmMetadata, VmMode};
use crate::naming::{
    camel, kotlin_type, map_type_to_kotlin, owned_arc, owned_arc_return_type, property_of,
    property_name, to_kotlin_method_name,
};
use crate::root_graph::{created_by_root, lemma_root_graph_children, root_graph, RootGraph};
use crate::swift::{
    arg_list, file_set_result, format_arg_list, source_result, swift_bridge_source, swift_keeps,
    swift_root_container_source,
};
use crate::text::{
    indented, indented_optional, indent_optional, indent, join, join_strings,
    lemma_views_push, replace_char, replaced_char, str_eq, views, contains, lemma_contains_within,
    lemma_prefix_after,
};

verus! {

// ---------------------------------------------------------------------------
// Package paths.
// ---------------------------------------------------------------------------

/// The directory of a Kotlin package: every `.` becomes `/`.
pub open spec fn package_dir(package_name: Seq<char>) -> Seq<char> {
    replace_char(package_name, '.', '/')
}

/// The path of the Kotlin file that holds class `class_name` of `package_name`.
pub open spec fn kotlin_file_path(package_name: Seq<char>, class_name: Seq<char>) -> Seq<char> {
    package_dir(package_name) + "/"@ + class_name + ".kt"@
}

fn package_path(package_name: &str, class_name: &str) -> (res: String)
    ensures
        res@ == kotlin_file_path(package_name@, class_name@),
{
    let mut out = replaced_char(package_name, '.', '/');
    out.append("/");
    out.append(class_name);
    out.append(".kt");
    out
}

// ---------------------------------------------------------------------------
// Methods and constructors.
// ---------------------------------------------------------------------------

/// A forwarding Kotlin method for a VM method. A method that returns an owned
/// `Arc<T>` of another VM hands back that VM's bridge.
pub open spec fn kotlin_method(m: MethodMetadata) -> Seq<char> {
    let name = camel(m.name@);
    let args = arg_list(m.args@, 2);
    let call_args = arg_list(m.args@, 3);
    let ret = match owned_arc(m.return_type@) {
        Some(t) => t + "Bridge"@,
        None => kotlin_type(m.return_type@),
    };
    let call = match owned_arc(m.return_type@) {
        Some(t) => "return "@ + t + "Bridge.__crossKitFromVm(vm."@ + name + "("@ + call_args
            + "))"@,
        None => if ret == "Unit"@ {
            "vm."@ + name + "("@ + call_args + ")"@
        } else {
            "return vm."@ + name + "("@ + call_args + ")"@
        },
    };
    "fun "@ + name + "("@ + args + "): "@ + ret + " {\n    "@ + call + "\n}\n\n"@
}

/// Formats `kotlin_method`.
pub fn format_kotlin_method(method: &MethodMetadata) -> (res: String)
    ensures
        res@ == kotlin_method(*method),
{
    let name = to_kotlin_method_name(method.name.as_str());
    let args = format_arg_list(&method.args, 2);
    let call_args = format_arg_list(&method.args, 3);
    let arc = owned_arc_return_type(method.return_type.as_str());
    let (ret, call) = match arc {
        Some(t) => {
            let mut r = t.clone();
            r.append("Bridge");
            let mut c = String::from_str("return ");
            c.append(t.as_str());
            c.append("Bridge.__crossKitFromVm(vm.");
            c.append(name.as_str());
            c.append("(");
            c.append(call_args.as_str());
            c.append("))");
            (r, c)
        },
        None => {
            let r = map_type_to_kotlin(method.return_type.as_str());
            let mut c = if str_eq(r.as_str(), "Unit") {
                String::from_str("vm.")
            } else {
                String::from_str("return vm.")
            };
            c.append(name.as_str());
            c.append("(");
            c.append(call_args.as_str());
            c.append(")");
            (r, c)
        },
    };
    let mut s = String::from_str("fun ");
    s.append(name.as_str());
    s.append("(");
    s.append(args.as_str());
    s.append("): ");
    s.append(ret.as_str());
    s.append(" {\n    ");
    s.append(call.as_str());
    s.append("\n}\n\n");
    s
}

/// Methods that the Kotlin bridge forwards: those of the Swift bridge, less
/// `get_state`, which the bridge reads once into its observable state, and
/// less the observer callback `callback`, which the bridge itself implements.
pub open spec fn kotlin_keeps(m: MethodMetadata, callback: Seq<char>) -> bool {
    swift_keeps(m) && m.name@ != "get_state"@ && m.name@ != callback
}

/// The forwarding methods of `ms`, in order.
pub open spec fn kotlin_methods(ms: Seq<MethodMetadata>, callback: Seq<char>) -> Seq<char>
    decreases ms.len(),
{
    if ms.len() == 0 {
        Seq::empty()
    } else {
        kotlin_methods(ms.drop_last(), callback) + if kotlin_keeps(ms.last(), callback) {
            kotlin_method(ms.last())
        } else {
            Seq::empty()
        }
    }
}

fn kotlin_methods_text(methods: &Vec<MethodMetadata>, callback: &str) -> (res: String)
    ensures
        res@ == kotlin_methods(methods@, callback@),
{
    let mut out = String::new();
    let mut i: usize = 0;
    while i < methods.len()
        invariant
            i <= methods.len(),
            out@ == kotlin_methods(methods@.take(i as int), callback@),
        decreases methods.len() - i,
    {
        let m = &methods[i];
        assert(methods@.take(i + 1).drop_last() =~= methods@.take(i as int));
        let name = m.name.as_str();
        if !str_eq(name, "subscribe") && !str_eq(name, "new") && !str_eq(name, "unsubscribe")
            && !str_eq(name, "get_state") && !str_eq(name, callback) {
            let text = format_kotlin_method(m);
            out.append(text.as_str());
        } else {
            assert(out@ =~= out@ + Seq::<char>::empty());
        }
        i = i + 1;
    }
    assert(methods@.take(methods.len() as int) =~= methods@);
    out
}

/// The parameter list of a Kotlin constructor for a constructor method.
pub open spec fn kotlin_signature(m: MethodMetadata) -> Seq<char> {
    "("@ + arg_list(m.args@, 2) + ")"@
}

/// A call of the constructor of `vm_type` with the constructor's arguments.
pub open spec fn kotlin_ctor_call(m: MethodMetadata, vm_type: Seq<char>) -> Seq<char> {
    vm_type + "("@ + arg_list(m.args@, 3) + ")"@
}

/// Formats `kotlin_signature`.
pub fn format_kotlin_constructor_signature(method: &MethodMetadata) -> (res: String)
    ensures
        res@ == kotlin_signature(*method),
{
    let args = format_arg_list(&method.args, 2);
    let mut s = String::from_str("(");
    s.append(args.as_str());
    s.append(")");
    s
}

/// Formats `kotlin_ctor_call`.
pub fn format_kotlin_ctor_call(method: &MethodMetadata, vm_type: &str) -> (res: String)
    ensures
        res@ == kotlin_ctor_call(*method, vm_type@),
{
    let args = format_arg_list(&method.args, 3);
    let mut s = String::from_str(vm_type);
    s.append("(");
    s.append(args.as_str());
    s.append(")");
    s
}

/// The constructor suffix of the bridge class and the expression that creates
/// the VM. A VM made by a factory gets a private constructor taking the VM.
pub open spec fn kotlin_ctor(m: VmMetadata) -> (Seq<char>, Seq<char>) {
    if m.factory is Some {
        (" private constructor(vm: "@ + m.rust_type@ + ")"@, "vm"@)
    } else {
        match find_method(m.methods@, "new"@) {
            Some(i) => (kotlin_signature(m.methods@[i]), kotlin_ctor_call(m.methods@[i], m.rust_type@)),
            None => ("()"@, m.rust_type@ + "()"@),
        }
    }
}

fn kotlin_constructor_or_factory(metadata: &VmMetadata) -> (res: (String, String))
    ensures
        (res.0@, res.1@) == kotlin_ctor(*metadata),
{
    if metadata.factory.is_some() {
        let mut sig = String::from_str(" private constructor(vm: ");
        sig.append(metadata.rust_type.as_str());
        sig.append(")");
        return (sig, String::from_str("vm"));
    }
    if let Some(i) = find_method_index(&metadata.methods, "new") {
        let ctor = &metadata.methods[i];
        return (
            format_kotlin_constructor_signature(ctor),
            format_kotlin_ctor_call(ctor, metadata.rust_type.as_str()),
        );
    }
    let mut call = String::from_str(metadata.rust_type.as_str());
    call.append("()");
    (String::from_str("()"), call)
}

/// The companion object through which a parent bridge wraps a VM that its
/// factory method returned; empty for a VM that no factory creates.
pub open spec fn kotlin_companion(m: VmMetadata) -> Seq<char> {
    if m.factory is None {
        Seq::empty()
    } else {
        "\n\ncompanion object {\n    internal fun __crossKitFromVm(vm: "@
            + m.rust_type@
            + "): "@
            + m.bridge_name@
            + " = "@
            + m.bridge_name@
            + "(vm)\n}\n"@
    }
}

fn kotlin_native_companion(metadata: &VmMetadata) -> (res: String)
    ensures
        res@ == kotlin_companion(*metadata),
{
    if metadata.factory.is_none() {
        return String::new();
    }
    let mut s = String::from_str("\n\ncompanion object {\n    internal fun __crossKitFromVm(vm: ");
    s.append(metadata.rust_type.as_str());
    s.append("): ");
    s.append(metadata.bridge_name.as_str());
    s.append(" = ");
    s.append(metadata.bridge_name.as_str());
    s.append("(vm)\n}\n");
    s
}

/// The body of `close()`: unsubscribe first when the VM can, then close the VM.
pub open spec fn kotlin_close_body(m: VmMetadata) -> Seq<char> {
    if has_method(m.methods@, "unsubscribe"@) {
        "vm.unsubscribe(observerId)\n        vm.close()"@
    } else {
        "vm.close()"@
    }
}

fn close_body_text(metadata: &VmMetadata) -> (res: String)
    ensures
        res@ == kotlin_close_body(*metadata),
{
    match find_method_index(&metadata.methods, "unsubscribe") {
        Some(_) => String::from_str("vm.unsubscribe(observerId)\n        vm.close()"),
        None => String::from_str("vm.close()"),
    }
}

// ---------------------------------------------------------------------------
// VM bridges.
// ---------------------------------------------------------------------------

/// The Kotlin bridge of a state VM in `package_name`.
pub open spec fn kotlin_state_bridge(m: VmMetadata, package_name: Seq<char>) -> Seq<char> {
    let observer = m.observer->0;
    let state_type = opt_view(m.state_type);
    let observer_method = camel(observer.method@);
    let ctor = kotlin_ctor(m);
    let methods = kotlin_methods(m.methods@, observer.method@);
    "// Generated by cross-kit-codegen.\npackage "@
        + package_name
        + "\n\nimport android.os.Handler\nimport android.os.Looper\nimport androidx.compose.runtime.getValue\nimport androidx.compose.runtime.mutableStateOf\nimport androidx.compose.runtime.setValue\n\nclass "@
        + m.bridge_name@
        + ctor.0
        + " : "@
        + observer.rust_type@
        + " {\n    private val handler = Handler(Looper.getMainLooper())\n    private val vm: "@
        + m.rust_type@
        + " = "@
        + ctor.1
        + "\n    private val observerId: Long = vm.subscribe(this)\n    private var closed = false\n\n    var state: "@
        + state_type
        + " by mutableStateOf(vm.getState())\n        private set\n\n"@
        + indented(methods, 4)
        + "    fun close() {\n        if (closed) return\n        closed = true\n        "@
        + kotlin_close_body(m)
        + "\n    }\n\n    override fun "@
        + observer_method
        + "(state: "@
        + state_type
        + ") {\n        if (Looper.myLooper() == Looper.getMainLooper()) {\n            this.state = state\n        } else {\n            handler.post { this.state = state }\n        }\n    }\n"@
        + indented_optional(kotlin_companion(m), 4)
        + "\n}\n"@
}

fn generate_kotlin_state_bridge(metadata: &VmMetadata, package_name: &str) -> (res: String)
    requires
        metadata.observer is Some,
        metadata.state_type is Some,
    ensures
        res@ == kotlin_state_bridge(*metadata, package_name@),
{
    let observer = metadata.observer.as_ref().unwrap();
    let state_type = metadata.state_type.as_ref().unwrap();
    let observer_method = to_kotlin_method_name(observer.method.as_str());
    let (ctor_sig, vm_init) = kotlin_constructor_or_factory(metadata);
    let close_body = close_body_text(metadata);
    let companion = kotlin_native_companion(metadata);
    let methods = kotlin_methods_text(&metadata.methods, observer.method.as_str());
    let methods_text = indent(methods.as_str(), 4);
    let companion_text = indent_optional(companion.as_str(), 4);
    let mut s = String::from_str("// Generated by cross-kit-codegen.\npackage ");
    s.append(package_name);
    s.append("\n\nimport android.os.Handler\nimport android.os.Looper\nimport androidx.compose.runtime.getValue\nimport androidx.compose.runtime.mutableStateOf\nimport androidx.compose.runtime.setValue\n\nclass ");
    s.append(metadata.bridge_name.as_str());
    s.append(ctor_sig.as_str());
    s.append(" : ");
    s.append(observer.rust_type.as_str());
    s.append(" {\n    private val handler = Handler(Looper.getMainLooper())\n    private val vm: ");
    s.append(metadata.rust_type.as_str());
    s.append(" = ");
    s.append(vm_init.as_str());
    s.append("\n    private val observerId: Long = vm.subscribe(this)\n    private var closed = false\n\n    var state: ");
    s.append(state_type.as_str());
    s.append(" by mutableStateOf(vm.getState())\n        private set\n\n");
    s.append(methods_text.as_str());
    s.append("    fun close() {\n        if (closed) return\n        closed = true\n        ");
    s.append(close_body.as_str());
    s.append("\n    }\n\n    override fun ");
    s.append(observer_method.as_str());
    s.append("(state: ");
    s.append(state_type.as_str());
    s.append(") {\n        if (Looper.myLooper() == Looper.getMainLooper()) {\n            this.state = state\n        } else {\n            handler.post { this.state = state }\n        }\n    }\n");
    s.append(companion_text.as_str());
    s.append("\n}\n");
    s
}

/// The Kotlin bridge of a diff-list VM in `package_name`.
pub open spec fn kotlin_list_bridge(m: VmMetadata, package_name: Seq<char>) -> Seq<char> {
    let observer = m.observer->0;
    let diff_type = opt_view(m.diff_type);
    let list_item = opt_view(m.list_item_type);
    let observer_method = camel(observer.method@);
    let ctor = kotlin_ctor(m);
    let methods = kotlin_methods(m.methods@, observer.method@);
    "// Generated by cross-kit-codegen.\npackage "@
        + package_name
        + "\n\nimport android.os.Handler\nimport android.os.Looper\nimport androidx.compose.runtime.mutableStateListOf\nimport androidx.compose.runtime.snapshots.SnapshotStateList\n\nclass "@
        + m.bridge_name@
        + ctor.0
        + " : "@
        + observer.rust_type@
        + " {\n    private val handler = Handler(Looper.getMainLooper())\n    private val vm: "@
        + m.rust_type@
        + " = "@
        + ctor.1
        + "\n    private val observerId: Long = vm.subscribe(this)\n    private var closed = false\n\n    val items: SnapshotStateList<"@
        + list_item
        + "> = mutableStateListOf()\n\n"@
        + indented(methods, 4)
        + "    fun close() {\n        if (closed) return\n        closed = true\n        "@
        + kotlin_close_body(m)
        + "\n    }\n\n    override fun "@
        + observer_method
        + "(diffs: List<"@
        + diff_type
        + ">) {\n        if (Looper.myLooper() == Looper.getMainLooper()) {\n            applyDiffsToItems(diffs)\n        } else {\n            handler.post { applyDiffsToItems(diffs) }\n        }\n    }\n\n    private fun applyDiffsToItems(diffs: List<"@
        + diff_type
        + ">) {\n        for (diff in diffs) {\n            when (diff) {\n                is "@
        + diff_type
        + ".Insert -> {\n                    val idx = clampIndex(diff.index, items.size)\n                    items.add(idx, diff.item)\n                }\n                is "@
        + diff_type
        + ".Update -> {\n                    val idx = diff.index.toInt()\n                    if (idx in items.indices) {\n                        items[idx] = diff.item\n                    }\n                }\n                is "@
        + diff_type
        + ".Remove -> {\n                    val idx = diff.index.toInt()\n                    if (idx in items.indices) {\n                        items.removeAt(idx)\n                    }\n                }\n                is "@
        + diff_type
        + ".Move -> {\n                    val fromIdx = diff.from.toInt()\n                    val toIdx = diff.to.toInt()\n                    if (fromIdx !in items.indices || toIdx !in items.indices) continue\n                    if (fromIdx == toIdx) continue\n                    val item = items.removeAt(fromIdx)\n                    items.add(toIdx, item)\n                }\n            }\n        }\n    }\n\n    private fun clampIndex(index: Long, upperBound: Int): Int {\n        val idx = index.toInt()\n        return when {\n            idx < 0 -> 0\n            idx > upperBound -> upperBound\n            else -> idx\n        }\n    }\n"@
        + indented_optional(kotlin_companion(m), 4)
        + "\n}\n"@
}

proof fn lemma_kotlin_case_insert()
    ensures
        ".Insert -> {\n                    val idx = clampIndex(diff.index, items.size)\n                    items.add(idx, diff.item)\n                }\n                is "@.len() == 161,
        ".Insert -> {\n                    val idx = clampIndex(diff.index, items.size)\n                    items.add(idx, diff.item)\n                }\n"@.len() == 142,
        ".Insert -> {\n                    val idx = clampIndex(diff.index, items.size)\n                    items.add(idx, diff.item)\n                }\n                is "@.subrange(0, 142) == ".Insert -> {\n                    val idx = clampIndex(diff.index, items.size)\n                    items.add(idx, diff.item)\n                }\n"@,
{
    reveal_strlit(".Insert -> {\n                    val idx = clampIndex(diff.index, items.size)\n                    items.add(idx, diff.item)\n                }\n                is ");
    reveal_strlit(".Insert -> {\n                    val idx = clampIndex(diff.index, items.size)\n                    items.add(idx, diff.item)\n                }\n");
    assert(".Insert -> {\n                    val idx = clampIndex(diff.index, items.size)\n                    items.add(idx, diff.item)\n                }\n                is "@.subrange(0, 142) =~= ".Insert -> {\n                    val idx = clampIndex(diff.index, items.size)\n                    items.add(idx, diff.item)\n                }\n"@);
}

proof fn lemma_kotlin_case_update()
    ensures
        ".Update -> {\n                    val idx = diff.index.toInt()\n                    if (idx in items.indices) {\n                        items[idx] = diff.item\n                    }\n                }\n                is "@.len() == 216,
        ".Update -> {\n                    val idx = diff.index.toInt()\n                    if (idx in items.indices) {\n                        items[idx] = diff.item\n                    }\n                }\n"@.len() == 197,
        ".Update -> {\n                    val idx = diff.index.toInt()\n                    if (idx in items.indices) {\n                        items[idx] = diff.item\n                    }\n                }\n                is "@.subrange(0, 197) == ".Update -> {\n                    val idx = diff.index.toInt()\n                    if (idx in items.indices) {\n                        items[idx] = diff.item\n                    }\n                }\n"@,
{
    reveal_strlit(".Update -> {\n                    val idx = diff.index.toInt()\n                    if (idx in items.indices) {\n                        items[idx] = diff.item\n                    }\n                }\n                is ");
    reveal_strlit(".Update -> {\n                    val idx = diff.index.toInt()\n                    if (idx in items.indices) {\n                        items[idx] = diff.item\n                    }\n                }\n");
    assert(".Update -> {\n                    val idx = diff.index.toInt()\n                    if (idx in items.indices) {\n                        items[idx] = diff.item\n                    }\n                }\n                is "@.subrange(0, 197) =~= ".Update -> {\n                    val idx = diff.index.toInt()\n                    if (idx in items.indices) {\n                        items[idx] = diff.item\n                    }\n                }\n"@);
}

proof fn lemma_kotlin_case_remove()
    ensures
        ".Remove -> {\n                    val idx = diff.index.toInt()\n                    if (idx in items.indices) {\n                        items.removeAt(idx)\n                    }\n                }\n                is "@.len() == 213,
        ".Remove -> {\n                    val idx = diff.index.toInt()\n                    if (idx in items.indices) {\n                        items.removeAt(idx)\n                    }\n                }\n"@.len() == 194,
        ".Remove -> {\n                    val idx = diff.index.toInt()\n                    if (idx in items.indices) {\n                        items.removeAt(idx)\n                    }\n                }\n                is "@.subrange(0, 194) == ".Remove -> {\n                    val idx = diff.index.toInt()\n                    if (idx in items.indices) {\n                        items.removeAt(idx)\n                    }\n                }\n"@,
{
    reveal_strlit(".Remove -> {\n                    val idx = diff.index.toInt()\n                    if (idx in items.indices) {\n                        items.removeAt(idx)\n                    }\n                }\n                is ");
    reveal_strlit(".Remove -> {\n                    val idx = diff.index.toInt()\n                    if (idx in items.indices) {\n                        items.removeAt(idx)\n                    }\n                }\n");
    assert(".Remove -> {\n                    val idx = diff.index.toInt()\n                    if (idx in items.indices) {\n                        items.removeAt(idx)\n                    }\n                }\n                is "@.subrange(0, 194) =~= ".Remove -> {\n                    val idx = diff.index.toInt()\n                    if (idx in items.indices) {\n                        items.removeAt(idx)\n                    }\n                }\n"@);
}

proof fn lemma_kotlin_case_move()
    ensures
        ".Move -> {\n                    val fromIdx = diff.from.toInt()\n                    val toIdx = diff.to.toInt()\n                    if (fromIdx !in items.indices || toIdx !in items.indices) continue\n                    if (fromIdx == toIdx) continue\n                    val item = items.removeAt(fromIdx)\n                    items.add(toIdx, item)\n                }\n            }\n        }\n    }\n\n    private fun clampIndex(index: Long, upperBound: Int): Int {\n        val idx = index.toInt()\n        return when {\n            idx < 0 -> 0\n            idx > upperBound -> upperBound\n            else -> idx\n        }\n    }\n"@.len() == 622,
        ".Move -> {\n                    val fromIdx = diff.from.toInt()\n                    val toIdx = diff.to.toInt()\n                    if (fromIdx !in items.indices || toIdx !in items.indices) continue\n                    if (fromIdx == toIdx) continue\n                    val item = items.removeAt(fromIdx)\n                    items.add(toIdx, item)\n                }\n"@.len() == 365,
        ".Move -> {\n                    val fromIdx = diff.from.toInt()\n                    val toIdx = diff.to.toInt()\n                    if (fromIdx !in items.indices || toIdx !in items.indices) continue\n                    if (fromIdx == toIdx) continue\n                    val item = items.removeAt(fromIdx)\n                    items.add(toIdx, item)\n                }\n            }\n        }\n    }\n\n    private fun clampIndex(index: Long, upperBound: Int): Int {\n        val idx = index.toInt()\n        return when {\n            idx < 0 -> 0\n            idx > upperBound -> upperBound\n            else -> idx\n        }\n    }\n"@.subrange(0, 365) == ".Move -> {\n                    val fromIdx = diff.from.toInt()\n                    val toIdx = diff.to.toInt()\n                    if (fromIdx !in items.indices || toIdx !in items.indices) continue\n                    if (fromIdx == toIdx) continue\n                    val item = items.removeAt(fromIdx)\n                    items.add(toIdx, item)\n                }\n"@,
{
    reveal_strlit(".Move -> {\n                    val fromIdx = diff.from.toInt()\n                    val toIdx = diff.to.toInt()\n                    if (fromIdx !in items.indices || toIdx !in items.indices) continue\n                    if (fromIdx == toIdx) continue\n                    val item = items.removeAt(fromIdx)\n                    items.add(toIdx, item)\n                }\n            }\n        }\n    }\n\n    private fun clampIndex(index: Long, upperBound: Int): Int {\n        val idx = index.toInt()\n        return when {\n            idx < 0 -> 0\n            idx > upperBound -> upperBound\n            else -> idx\n        }\n    }\n");
    reveal_strlit(".Move -> {\n                    val fromIdx = diff.from.toInt()\n                    val toIdx = diff.to.toInt()\n                    if (fromIdx !in items.indices || toIdx !in items.indices) continue\n                    if (fromIdx == toIdx) continue\n                    val item = items.removeAt(fromIdx)\n                    items.add(toIdx, item)\n                }\n");
    assert(".Move -> {\n                    val fromIdx = diff.from.toInt()\n                    val toIdx = diff.to.toInt()\n                    if (fromIdx !in items.indices || toIdx !in items.indices) continue\n                    if (fromIdx == toIdx) continue\n                    val item = items.removeAt(fromIdx)\n                    items.add(toIdx, item)\n                }\n            }\n        }\n    }\n\n    private fun clampIndex(index: Long, upperBound: Int): Int {\n        val idx = index.toInt()\n        return when {\n            idx < 0 -> 0\n            idx > upperBound -> upperBound\n            else -> idx\n        }\n    }\n"@.subrange(0, 365) =~= ".Move -> {\n                    val fromIdx = diff.from.toInt()\n                    val toIdx = diff.to.toInt()\n                    if (fromIdx !in items.indices || toIdx !in items.indices) continue\n                    if (fromIdx == toIdx) continue\n                    val item = items.removeAt(fromIdx)\n                    items.add(toIdx, item)\n                }\n"@);
}

/// The diff-list bridge applies every diff kind the way the view model
/// does: an insert adds the item at the clamped index, an update replaces
/// the item at an in-range index in place, a removal removes the item at
/// the diff's in-range index, and a move takes the item out and adds it
/// back at the target index; out-of-range indices are skipped.
pub proof fn law_kotlin_list_bridge_applies_diffs(m: VmMetadata, package_name: Seq<char>)
    ensures
        m.mode is DiffList ==> (kotlin_bridge_source(m, package_name) matches Ok(src) ==> contains(
            src,
            opt_view(m.diff_type) + ".Insert -> {\n                    val idx = clampIndex(diff.index, items.size)\n                    items.add(idx, diff.item)\n                }\n"@,
        )),
        m.mode is DiffList ==> (kotlin_bridge_source(m, package_name) matches Ok(src) ==> contains(
            src,
            opt_view(m.diff_type) + ".Update -> {\n                    val idx = diff.index.toInt()\n                    if (idx in items.indices) {\n                        items[idx] = diff.item\n                    }\n                }\n"@,
        )),
        m.mode is DiffList ==> (kotlin_bridge_source(m, package_name) matches Ok(src) ==> contains(
            src,
            opt_view(m.diff_type) + ".Remove -> {\n                    val idx = diff.index.toInt()\n                    if (idx in items.indices) {\n                        items.removeAt(idx)\n                    }\n                }\n"@,
        )),
        m.mode is DiffList ==> (kotlin_bridge_source(m, package_name) matches Ok(src) ==> contains(
            src,
            opt_view(m.diff_type) + ".Move -> {\n                    val fromIdx = diff.from.toInt()\n                    val toIdx = diff.to.toInt()\n                    if (fromIdx !in items.indices || toIdx !in items.indices) continue\n                    if (fromIdx == toIdx) continue\n                    val item = items.removeAt(fromIdx)\n                    items.add(toIdx, item)\n                }\n"@,
        )),
{
    if kotlin_bridge_source(m, package_name) is Ok && m.mode is DiffList {
        let t = kotlin_list_bridge(m, package_name);
        let dt = opt_view(m.diff_type);
        let l0 = ".Insert -> {\n                    val idx = clampIndex(diff.index, items.size)\n                    items.add(idx, diff.item)\n                }\n                is "@;
        let l1 = ".Update -> {\n                    val idx = diff.index.toInt()\n                    if (idx in items.indices) {\n                        items[idx] = diff.item\n                    }\n                }\n                is "@;
        let l2 = ".Remove -> {\n                    val idx = diff.index.toInt()\n                    if (idx in items.indices) {\n                        items.removeAt(idx)\n                    }\n                }\n                is "@;
        let l3 = ".Move -> {\n                    val fromIdx = diff.from.toInt()\n                    val toIdx = diff.to.toInt()\n                    if (fromIdx !in items.indices || toIdx !in items.indices) continue\n                    if (fromIdx == toIdx) continue\n                    val item = items.removeAt(fromIdx)\n                    items.add(toIdx, item)\n                }\n            }\n        }\n    }\n\n    private fun clampIndex(index: Long, upperBound: Int): Int {\n        val idx = index.toInt()\n        return when {\n            idx < 0 -> 0\n            idx > upperBound -> upperBound\n            else -> idx\n        }\n    }\n"@;
        let co = indented_optional(kotlin_companion(m), 4);
        let e = "\n}\n"@;
        lemma_kotlin_case_insert();
        let s0 = t.len() - (e.len() + co.len() + l1.len() + dt.len() + l2.len() + dt.len() + l3.len() + dt.len() + l0.len() + dt.len());
        assert(t.subrange(s0, s0 + dt.len() + l0.len()) =~= dt + l0);
        lemma_prefix_after(dt, l0, ".Insert -> {\n                    val idx = clampIndex(diff.index, items.size)\n                    items.add(idx, diff.item)\n                }\n"@);
        lemma_contains_within(t, s0, dt + l0, 0, dt + ".Insert -> {\n                    val idx = clampIndex(diff.index, items.size)\n                    items.add(idx, diff.item)\n                }\n"@);
        lemma_kotlin_case_update();
        let s1 = t.len() - (e.len() + co.len() + l2.len() + dt.len() + l3.len() + dt.len() + l1.len() + dt.len());
        assert(t.subrange(s1, s1 + dt.len() + l1.len()) =~= dt + l1);
        lemma_prefix_after(dt, l1, ".Update -> {\n                    val idx = diff.index.toInt()\n                    if (idx in items.indices) {\n                        items[idx] = diff.item\n                    }\n                }\n"@);
        lemma_contains_within(t, s1, dt + l1, 0, dt + ".Update -> {\n                    val idx = diff.index.toInt()\n                    if (idx in items.indices) {\n                        items[idx] = diff.item\n                    }\n                }\n"@);
        lemma_kotlin_case_remove();
        let s2 = t.len() - (e.len() + co.len() + l3.len() + dt.len() + l2.len() + dt.len());
        assert(t.subrange(s2, s2 + dt.len() + l2.len()) =~= dt + l2);
        lemma_prefix_after(dt, l2, ".Remove -> {\n                    val idx = diff.index.toInt()\n                    if (idx in items.indices) {\n                        items.removeAt(idx)\n                    }\n                }\n"@);
        lemma_contains_within(t, s2, dt + l2, 0, dt + ".Remove -> {\n                    val idx = diff.index.toInt()\n                    if (idx in items.indices) {\n                        items.removeAt(idx)\n                    }\n                }\n"@);
        lemma_kotlin_case_move();
        let s3 = t.len() - (e.len() + co.len() + l3.len() + dt.len());
        assert(t.subrange(s3, s3 + dt.len() + l3.len()) =~= dt + l3);
        lemma_prefix_after(dt, l3, ".Move -> {\n                    val fromIdx = diff.from.toInt()\n                    val toIdx = diff.to.toInt()\n                    if (fromIdx !in items.indices || toIdx !in items.indices) continue\n                    if (fromIdx == toIdx) continue\n                    val item = items.removeAt(fromIdx)\n                    items.add(toIdx, item)\n                }\n"@);
        lemma_contains_within(t, s3, dt + l3, 0, dt + ".Move -> {\n                    val fromIdx = diff.from.toInt()\n                    val toIdx = diff.to.toInt()\n                    if (fromIdx !in items.indices || toIdx !in items.indices) continue\n                    if (fromIdx == toIdx) continue\n                    val item = items.removeAt(fromIdx)\n                    items.add(toIdx, item)\n                }\n"@);
    }
}

fn generate_kotlin_list_bridge(metadata: &VmMetadata, package_name: &str) -> (res: String)
    requires
        metadata.observer is Some,
        metadata.diff_type is Some,
        metadata.list_item_type is Some,
    ensures
        res@ == kotlin_list_bridge(*metadata, package_name@),
{
    let observer = metadata.observer.as_ref().unwrap();
    let diff_type = metadata.diff_type.as_ref().unwrap();
    let list_item = metadata.list_item_type.as_ref().unwrap();
    let observer_method = to_kotlin_method_name(observer.method.as_str());
    let (ctor_sig, vm_init) = kotlin_constructor_or_factory(metadata);
    let close_body = close_body_text(metadata);
    let companion = kotlin_native_companion(metadata);
    let methods = kotlin_methods_text(&metadata.methods, observer.method.as_str());
    let methods_text = indent(methods.as_str(), 4);
    let companion_text = indent_optional(companion.as_str(), 4);
    let mut s = String::from_str("// Generated by cross-kit-codegen.\npackage ");
    s.append(package_name);
    s.append("\n\nimport android.os.Handler\nimport android.os.Looper\nimport androidx.compose.runtime.mutableStateListOf\nimport androidx.compose.runtime.snapshots.SnapshotStateList\n\nclass ");
    s.append(metadata.bridge_name.as_str());
    s.append(ctor_sig.as_str());
    s.append(" : ");
    s.append(observer.rust_type.as_str());
    s.append(" {\n    private val handler = Handler(Looper.getMainLooper())\n    private val vm: ");
    s.append(metadata.rust_type.as_str());
    s.append(" = ");
    s.append(vm_init.as_str());
    s.append("\n    private val observerId: Long = vm.subscribe(this)\n    private var closed = false\n\n    val items: SnapshotStateList<");
    s.append(list_item.as_str());
    s.append("> = mutableStateListOf()\n\n");
    s.append(methods_text.as_str());
    s.append("    fun close() {\n        if (closed) return\n        closed = true\n        ");
    s.append(close_body.as_str());
    s.append("\n    }\n\n    override fun ");
    s.append(observer_method.as_str());
    s.append("(diffs: List<");
    s.append(diff_type.as_str());
    s.append(">) {\n        if (Looper.myLooper() == Looper.getMainLooper()) {\n            applyDiffsToItems(diffs)\n        } else {\n            handler.post { applyDiffsToItems(diffs) }\n        }\n    }\n\n    private fun applyDiffsToItems(diffs: List<");
    s.append(diff_type.as_str());
    s.append(">) {\n        for (diff in diffs) {\n            when (diff) {\n                is ");
    s.append(diff_type.as_str());
    s.append(".Insert -> {\n                    val idx = clampIndex(diff.index, items.size)\n                    items.add(idx, diff.item)\n                }\n                is ");
    s.append(diff_type.as_str());
    s.append(".Update -> {\n                    val idx = diff.index.toInt()\n                    if (idx in items.indices) {\n                        items[idx] = diff.item\n                    }\n                }\n                is ");
    s.append(diff_type.as_str());
    s.append(".Remove -> {\n                    val idx = diff.index.toInt()\n                    if (idx in items.indices) {\n                        items.removeAt(idx)\n                    }\n                }\n                is ");
    s.append(diff_type.as_str());
    s.append(".Move -> {\n                    val fromIdx = diff.from.toInt()\n                    val toIdx = diff.to.toInt()\n                    if (fromIdx !in items.indices || toIdx !in items.indices) continue\n                    if (fromIdx == toIdx) continue\n                    val item = items.removeAt(fromIdx)\n                    items.add(toIdx, item)\n                }\n            }\n        }\n    }\n\n    private fun clampIndex(index: Long, upperBound: Int): Int {\n        val idx = index.toInt()\n        return when {\n            idx < 0 -> 0\n            idx > upperBound -> upperBound\n            else -> idx\n        }\n    }\n");
    s.append(companion_text.as_str());
    s.append("\n}\n");
    s
}

/// The Kotlin bridge source for `m` in `package_name`, or why there is none.
pub open spec fn kotlin_bridge_source(m: VmMetadata, package_name: Seq<char>) -> Result<
    Seq<char>,
    CodegenFault,
> {
    match bridge_fault(m) {
        Some(f) => Err(f),
        None => match m.mode {
            VmMode::State => Ok(kotlin_state_bridge(m, package_name)),
            VmMode::DiffList => Ok(kotlin_list_bridge(m, package_name)),
            mode => Err(CodegenFault::Mode(mode)),
        },
    }
}

/// Generates the Kotlin bridge source for one VM in `package_name`.
pub fn generate_kotlin_bridge_source(metadata: &VmMetadata, package_name: &str) -> (res: Result<
    String,
    CodegenError,
>)
    ensures
        source_result(res, kotlin_bridge_source(*metadata, package_name@)),
{
    validate_swift_bridge_metadata(metadata)?;
    match metadata.mode {
        VmMode::State => Ok(generate_kotlin_state_bridge(metadata, package_name)),
        VmMode::DiffList => Ok(generate_kotlin_list_bridge(metadata, package_name)),
        VmMode::Event => Err(CodegenError::UnsupportedMode(VmMode::Event)),
        VmMode::Unknown => Err(CodegenError::UnsupportedMode(VmMode::Unknown)),
    }
}

/// Generates `<package dir>/<BridgeName>.kt` for one VM.
pub fn generate_kotlin_bridge(metadata: &VmMetadata, package_name: &str) -> (res: Result<
    GeneratedFileSet,
    CodegenError,
>)
    ensures
        file_set_result(
            res,
            kotlin_file_path(package_name@, metadata.bridge_name@),
            kotlin_bridge_source(*metadata, package_name@),
        ),
{
    let contents = generate_kotlin_bridge_source(metadata, package_name)?;
    let path = package_path(package_name, metadata.bridge_name.as_str());
    let mut files = Vec::new();
    files.push(GeneratedFile { path, contents });
    Ok(GeneratedFileSet { files })
}

// ---------------------------------------------------------------------------
// Root container.
// ---------------------------------------------------------------------------

/// The declaration of a child bridge, created through the root's factory method.
pub open spec fn kotlin_child_decl(m: VmMetadata, root_property: Seq<char>) -> Seq<char> {
    "    val "@ + property_of(m.rust_type@) + ": "@ + m.bridge_name@ + " = "@ + root_property
        + "."@ + camel(m.factory->0.method@) + "()"@
}

/// The statement closing a child bridge.
pub open spec fn kotlin_child_close(m: VmMetadata) -> Seq<char> {
    "        "@ + property_of(m.rust_type@) + ".close()"@
}

/// The child declarations, in the order of `ix`.
pub open spec fn kotlin_child_decls(ms: Seq<VmMetadata>, ix: Seq<usize>, root_property: Seq<char>) -> Seq<Seq<char>> {
    Seq::new(ix.len(), |k: int| kotlin_child_decl(ms[ix[k] as int], root_property))
}

/// The child close statements, in the reverse order of `ix`.
pub open spec fn kotlin_child_closes(ms: Seq<VmMetadata>, ix: Seq<usize>) -> Seq<Seq<char>> {
    Seq::new(ix.len(), |k: int| kotlin_child_close(ms[ix[ix.len() - 1 - k] as int]))
}

/// The constructor suffix of the root container and the expression that
/// creates the root bridge.
pub open spec fn kotlin_root_ctor(root: VmMetadata) -> (Seq<char>, Seq<char>) {
    match find_method(root.methods@, "new"@) {
        Some(i) => (kotlin_signature(root.methods@[i]), kotlin_ctor_call(root.methods@[i], root.bridge_name@)),
        None => ("()"@, root.bridge_name@ + "()"@),
    }
}

/// The root constructor's arguments in `style` (2: parameters, 3: call
/// arguments); empty when the root VM has no constructor method.
pub open spec fn kotlin_root_args(root: VmMetadata, style: nat) -> Seq<char> {
    match find_method(root.methods@, "new"@) {
        Some(i) => arg_list(root.methods@[i].args@, style),
        None => Seq::empty(),
    }
}

/// The keys of `remember`: the constructor arguments, or `Unit` when there are none.
pub open spec fn kotlin_remember_keys(root: VmMetadata) -> Seq<char> {
    if kotlin_root_args(root, 3).len() == 0 {
        "Unit"@
    } else {
        kotlin_root_args(root, 3)
    }
}

/// The Kotlin root container in `package_name` for the graph with root `r`
/// and children `ch`.
pub open spec fn kotlin_root_container(
    ms: Seq<VmMetadata>,
    container: Seq<char>,
    r: int,
    ch: Seq<usize>,
    package_name: Seq<char>,
) -> Seq<char> {
    let root = ms[r];
    let root_property = property_of(root.rust_type@);
    let ctor = kotlin_root_ctor(root);
    let child_decls = join(kotlin_child_decls(ms, ch, root_property), "\n"@);
    let child_closes = join(kotlin_child_closes(ms, ch), "\n"@);
    "// Generated by cross-kit-codegen.\npackage "@
        + package_name
        + "\n\nimport androidx.compose.runtime.Composable\nimport androidx.compose.runtime.DisposableEffect\nimport androidx.compose.runtime.remember\n\nclass "@
        + container
        + ctor.0
        + " : AutoCloseable {\n    val "@
        + root_property
        + ": "@
        + root.bridge_name@
        + " = "@
        + ctor.1
        + "\n"@
        + indented_optional(child_decls, 0)
        + "\n    private var closed = false\n\n    override fun close() {\n        if (closed) return\n        closed = true\n"@
        + indented_optional(child_closes, 0)
        + "\n        "@
        + root_property
        + ".close()\n    }\n}\n\n@Composable\nfun remember"@
        + container
        + "("@
        + kotlin_root_args(root, 2)
        + "): "@
        + container
        + " {\n    val kit = remember("@
        + kotlin_remember_keys(root)
        + ") { "@
        + container
        + "("@
        + kotlin_root_args(root, 3)
        + ") }\n    DisposableEffect(kit) {\n        onDispose { kit.close() }\n    }\n    return kit\n}\n"@
}

/// The Kotlin root container source, or why there is none.
pub open spec fn kotlin_root_container_source(
    ms: Seq<VmMetadata>,
    b: BindingsConfig,
    package_name: Seq<char>,
) -> Result<Seq<char>, CodegenFault> {
    match root_graph(ms, b) {
        Ok((r, ch)) => Ok(kotlin_root_container(ms, b.container_name@, r, ch, package_name)),
        Err(f) => Err(f),
    }
}

fn child_decl_text(m: &VmMetadata, root_property: &str) -> (res: String)
    requires
        m.factory is Some,
    ensures
        res@ == kotlin_child_decl(*m, root_property@),
{
    let factory = m.factory.as_ref().unwrap();
    let property = property_name(m.rust_type.as_str());
    let method = to_kotlin_method_name(factory.method.as_str());
    let mut s = String::from_str("    val ");
    s.append(property.as_str());
    s.append(": ");
    s.append(m.bridge_name.as_str());
    s.append(" = ");
    s.append(root_property);
    s.append(".");
    s.append(method.as_str());
    s.append("()");
    s
}

fn child_close_text(m: &VmMetadata) -> (res: String)
    ensures
        res@ == kotlin_child_close(*m),
{
    let property = property_name(m.rust_type.as_str());
    let mut s = String::from_str("        ");
    s.append(property.as_str());
    s.append(".close()");
    s
}

fn child_decls_text(ms: &[VmMetadata], ix: &Vec<usize>, root_property: &str) -> (res: String)
    requires
        forall|k: int| 0 <= k < ix@.len() ==> ix@[k] < ms@.len(),
        forall|k: int| 0 <= k < ix@.len() ==> (#[trigger] ms@[ix@[k] as int]).factory is Some,
    ensures
        res@ == join(kotlin_child_decls(ms@, ix@, root_property@), "\n"@),
{
    let ghost target = kotlin_child_decls(ms@, ix@, root_property@);
    let mut parts: Vec<String> = Vec::new();
    let mut k: usize = 0;
    while k < ix.len()
        invariant
            k <= ix.len(),
            target == kotlin_child_decls(ms@, ix@, root_property@),
            forall|j: int| 0 <= j < ix@.len() ==> ix@[j] < ms@.len(),
            forall|j: int| 0 <= j < ix@.len() ==> (#[trigger] ms@[ix@[j] as int]).factory is Some,
            views(parts@) == target.take(k as int),
        decreases ix.len() - k,
    {
        let line = child_decl_text(&ms[ix[k]], root_property);
        let ghost old_parts = parts@;
        parts.push(line);
        proof {
            lemma_views_push(old_parts, line);
            assert(target.take(k + 1) =~= target.take(k as int).push(target[k as int]));
        }
        k = k + 1;
    }
    assert(target.take(ix.len() as int) =~= target);
    join_strings(&parts, "\n")
}

fn child_closes_text(ms: &[VmMetadata], ix: &Vec<usize>) -> (res: String)
    requires
        forall|k: int| 0 <= k < ix@.len() ==> ix@[k] < ms@.len(),
    ensures
        res@ == join(kotlin_child_closes(ms@, ix@), "\n"@),
{
    let ghost target = kotlin_child_closes(ms@, ix@);
    let mut parts: Vec<String> = Vec::new();
    let mut k: usize = 0;
    while k < ix.len()
        invariant
            k <= ix.len(),
            target == kotlin_child_closes(ms@, ix@),
            forall|j: int| 0 <= j < ix@.len() ==> ix@[j] < ms@.len(),
            views(parts@) == target.take(k as int),
        decreases ix.len() - k,
    {
        let line = child_close_text(&ms[ix[ix.len() - 1 - k]]);
        let ghost old_parts = parts@;
        parts.push(line);
        proof {
            lemma_views_push(old_parts, line);
            assert(target.take(k + 1) =~= target.take(k as int).push(target[k as int]));
        }
        k = k + 1;
    }
    assert(target.take(ix.len() as int) =~= target);
    join_strings(&parts, "\n")
}

fn root_kotlin_constructor_for_container(root: &VmMetadata) -> (res: (String, String))
    ensures
        (res.0@, res.1@) == kotlin_root_ctor(*root),
{
    if let Some(i) = find_method_index(&root.methods, "new") {
        let ctor = &root.methods[i];
        return (
            format_kotlin_constructor_signature(ctor),
            format_kotlin_ctor_call(ctor, root.bridge_name.as_str()),
        );
    }
    let mut call = String::from_str(root.bridge_name.as_str());
    call.append("()");
    (String::from_str("()"), call)
}

fn root_kotlin_constructor_args(root: &VmMetadata, style: u8) -> (res: String)
    ensures
        res@ == kotlin_root_args(*root, style as nat),
{
    match find_method_index(&root.methods, "new") {
        Some(i) => format_arg_list(&root.methods[i].args, style),
        None => String::new(),
    }
}

fn root_kotlin_remember_keys(root: &VmMetadata) -> (res: String)
    ensures
        res@ == kotlin_remember_keys(*root),
{
    let args = root_kotlin_constructor_args(root, 3);
    if args.as_str().unicode_len() == 0 {
        String::from_str("Unit")
    } else {
        args
    }
}

fn generate_kotlin_root_container_source(
    ms: &[VmMetadata],
    graph: &RootGraph,
    package_name: &str,
) -> (res: String)
    requires
        forall|k: int| 0 <= k < graph.children@.len() ==> graph.children@[k] < ms@.len(),
        forall|k: int| 0 <= k < graph.children@.len() ==> (#[trigger] ms@[graph.children@[k] as int]).factory is Some,
        graph.root < ms@.len(),
    ensures
        res@ == kotlin_root_container(
            ms@,
            graph.container_name@,
            graph.root as int,
            graph.children@,
            package_name@,
        ),
{
    let root = &ms[graph.root];
    let root_property = property_name(root.rust_type.as_str());
    let (ctor_sig, ctor_call) = root_kotlin_constructor_for_container(root);
    let child_decls = child_decls_text(ms, &graph.children, root_property.as_str());
    let child_closes = child_closes_text(ms, &graph.children);
    let child_decls_text = indent_optional(child_decls.as_str(), 0);
    let child_closes_text = indent_optional(child_closes.as_str(), 0);
    let remember_args = root_kotlin_constructor_args(root, 2);
    let remember_keys = root_kotlin_remember_keys(root);
    let remember_call_args = root_kotlin_constructor_args(root, 3);
    let mut s = String::from_str("// Generated by cross-kit-codegen.\npackage ");
    s.append(package_name);
    s.append("\n\nimport androidx.compose.runtime.Composable\nimport androidx.compose.runtime.DisposableEffect\nimport androidx.compose.runtime.remember\n\nclass ");
    s.append(graph.container_name.as_str());
    s.append(ctor_sig.as_str());
    s.append(" : AutoCloseable {\n    val ");
    s.append(root_property.as_str());
    s.append(": ");
    s.append(root.bridge_name.as_str());
    s.append(" = ");
    s.append(ctor_call.as_str());
    s.append("\n");
    s.append(child_decls_text.as_str());
    s.append("\n    private var closed = false\n\n    override fun close() {\n        if (closed) return\n        closed = true\n");
    s.append(child_closes_text.as_str());
    s.append("\n        ");
    s.append(root_property.as_str());
    s.append(".close()\n    }\n}\n\n@Composable\nfun remember");
    s.append(graph.container_name.as_str());
    s.append("(");
    s.append(remember_args.as_str());
    s.append("): ");
    s.append(graph.container_name.as_str());
    s.append(" {\n    val kit = remember(");
    s.append(remember_keys.as_str());
    s.append(") { ");
    s.append(graph.container_name.as_str());
    s.append("(");
    s.append(remember_call_args.as_str());
    s.append(") }\n    DisposableEffect(kit) {\n        onDispose { kit.close() }\n    }\n    return kit\n}\n");
    s
}

/// Generates the Kotlin root container for `metadatas` under `bindings` in
/// `package_name`.
pub fn generate_kotlin_root_container(
    metadatas: &[VmMetadata],
    bindings: &BindingsConfig,
    package_name: &str,
) -> (res: Result<GeneratedFileSet, CodegenError>)
    ensures
        file_set_result(
            res,
            kotlin_file_path(package_name@, bindings.container_name@),
            kotlin_root_container_source(metadatas@, *bindings, package_name@),
        ),
{
    let graph = RootGraph::build(metadatas, bindings)?;
    let n = metadatas.len();
    proof {
        lemma_root_graph_children(metadatas@, *bindings);
        assert forall|k: int| 0 <= k < graph.children@.len() implies (#[trigger] metadatas@[graph.children@[k] as int]).factory is Some by {
            assert(created_by_root(metadatas@, graph.root as int, graph.children@[k] as int));
        }
    }
    let contents = generate_kotlin_root_container_source(metadatas, &graph, package_name);
    let path = package_path(package_name, graph.container_name.as_str());
    let mut files = Vec::new();
    files.push(GeneratedFile { path, contents });
    Ok(GeneratedFileSet { files })
}

// ---------------------------------------------------------------------------
// Laws.
// ---------------------------------------------------------------------------

/// The Swift and Kotlin generators accept the same VM metadata and refuse
/// the rest for the same reason.
pub proof fn law_bridges_accept_alike(m: VmMetadata, package_name: Seq<char>)
    ensures
        swift_bridge_source(m) is Ok <==> kotlin_bridge_source(m, package_name) is Ok,
        swift_bridge_source(m) matches Err(f) ==> kotlin_bridge_source(m, package_name) == Err::<
            Seq<char>,
            CodegenFault,
        >(f),
{
}

/// The Swift and Kotlin root containers accept the same VM graphs and refuse
/// the rest for the same reason.
pub proof fn law_root_containers_accept_alike(
    ms: Seq<VmMetadata>,
    b: BindingsConfig,
    package_name: Seq<char>,
)
    ensures
        swift_root_container_source(ms, b) is Ok <==> kotlin_root_container_source(
            ms,
            b,
            package_name,
        ) is Ok,
        swift_root_container_source(ms, b) matches Err(f) ==> kotlin_root_container_source(
            ms,
            b,
            package_name,
        ) == Err::<Seq<char>, CodegenFault>(f),
{
}

// ---------------------------------------------------------------------------
// All Kotlin sources of a package.
// ---------------------------------------------------------------------------

/// The bridge files of `ms` in `package_name`, in order, or the fault of the
/// first VM that has none.
pub open spec fn kotlin_bridge_texts(ms: Seq<VmMetadata>, package_name: Seq<char>) -> Result<
    Seq<(Seq<char>, Seq<char>)>,
    CodegenFault,
>
    decreases ms.len(),
{
    if ms.len() == 0 {
        Ok(Seq::empty())
    } else {
        match kotlin_bridge_texts(ms.drop_last(), package_name) {
            Err(f) => Err(f),
            Ok(files) => match kotlin_bridge_source(ms.last(), package_name) {
                Err(f) => Err(f),
                Ok(t) => Ok(files.push((kotlin_file_path(package_name, ms.last().bridge_name@), t))),
            },
        }
    }
}

/// The bridge files, then the root container when `bindings` are given.
pub open spec fn kotlin_source_texts(
    ms: Seq<VmMetadata>,
    bindings: Option<BindingsConfig>,
    package_name: Seq<char>,
) -> Result<Seq<(Seq<char>, Seq<char>)>, CodegenFault> {
    match kotlin_bridge_texts(ms, package_name) {
        Err(f) => Err(f),
        Ok(files) => match bindings {
            None => Ok(files),
            Some(b) => match kotlin_root_container_source(ms, b, package_name) {
                Err(f) => Err(f),
                Ok(t) => Ok(files.push((kotlin_file_path(package_name, b.container_name@), t))),
            },
        },
    }
}

proof fn lemma_bridge_texts_fault_stays(ms: Seq<VmMetadata>, package_name: Seq<char>, i: int)
    requires
        0 <= i <= ms.len(),
        kotlin_bridge_texts(ms.take(i), package_name) is Err,
    ensures
        kotlin_bridge_texts(ms, package_name) == kotlin_bridge_texts(ms.take(i), package_name),
    decreases ms.len() - i,
{
    if i < ms.len() {
        assert(ms.take(i + 1).drop_last() =~= ms.take(i));
        lemma_bridge_texts_fault_stays(ms, package_name, i + 1);
    } else {
        assert(ms.take(i) =~= ms);
    }
}

/// Generates every Kotlin source of a package: one bridge per VM, in order,
/// then the root container when `bindings` are configured. Paths are relative
/// to the Kotlin source root.
pub fn generate_kotlin_sources(
    metadatas: &[VmMetadata],
    bindings: &Option<BindingsConfig>,
    package_name: &str,
) -> (res: Result<Vec<GeneratedFile>, CodegenError>)
    ensures
        match kotlin_source_texts(metadatas@, *bindings, package_name@) {
            Ok(files) => res matches Ok(v) && file_views(v@) == files,
            Err(f) => res matches Err(e) && fault_of(e) == f,
        },
{
    let ghost ms = metadatas@;
    let ghost pkg = package_name@;
    let mut out: Vec<GeneratedFile> = Vec::new();
    let mut i: usize = 0;
    assert(ms.take(0) =~= Seq::<VmMetadata>::empty());
    assert(file_views(out@) =~= Seq::<(Seq<char>, Seq<char>)>::empty());
    while i < metadatas.len()
        invariant
            i <= ms.len(),
            ms == metadatas@,
            pkg == package_name@,
            kotlin_bridge_texts(ms.take(i as int), pkg) == Ok::<
                Seq<(Seq<char>, Seq<char>)>,
                CodegenFault,
            >(file_views(out@)),
        decreases ms.len() - i,
    {
        assert(ms.take(i + 1).drop_last() =~= ms.take(i as int));
        match generate_kotlin_bridge(&metadatas[i], package_name) {
            Err(e) => {
                proof {
                    lemma_bridge_texts_fault_stays(ms, pkg, i + 1);
                }
                return Err(e);
            },
            Ok(set) => {
                let f = only_file(set);
                let ghost before = out@;
                out.push(f);
                assert(file_views(out@) =~= file_views(before).push(file_view(f)));
            },
        }
        i = i + 1;
    }
    assert(ms.take(ms.len() as int) =~= ms);
    match bindings {
        None => Ok(out),
        Some(b) => {
            let set = generate_kotlin_root_container(metadatas, b, package_name)?;
            let f = only_file(set);
            let ghost before = out@;
            out.push(f);
            assert(file_views(out@) =~= file_views(before).push(file_view(f)));
            Ok(out)
        },
    }
}

} // verus!
