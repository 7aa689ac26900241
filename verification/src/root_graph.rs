//! The root graph behind the generated platform containers: one root VM and
//! the child VMs that its factory methods create.
use vstd::prelude::*;
use crate::codegen::{
    bridge_fault, fault_of, validate_swift_bridge_metadata, CodegenError, CodegenFault,
};
use crate::config::BindingsConfig;
use crate::metadata::{find_method, find_method_index, VmMetadata};
use crate::naming::{
    is_ascii_identifier, is_identifier, is_keyword, is_reserved_property, owned_arc,
    owned_arc_return_type, property_of, property_name, is_reserved_root_container_property,
    is_swift_or_kotlin_keyword,
};
use crate::text::{is_blank, str_blank, str_eq};

verus! {

// ---------------------------------------------------------------------------
// Specification.
// ---------------------------------------------------------------------------

/// A root-graph refusal with message `msg`.
pub open spec fn rg(msg: Seq<char>) -> Option<CodegenFault> {
    Some(CodegenFault::RootGraph(msg))
}

/// The refusal for a name that cannot be a Swift/Kotlin identifier.
pub open spec fn identifier_fault(kind: Seq<char>, value: Seq<char>) -> Option<CodegenFault> {
    if !is_identifier(value) || is_keyword(value) {
        rg(kind + " must be a valid Swift/Kotlin identifier, got '"@ + value + "'"@)
    } else {
        None
    }
}

/// Problems with the `[bindings]` table itself.
pub open spec fn bindings_fault(b: BindingsConfig) -> Option<CodegenFault> {
    if is_blank(b.root_vm@) {
        rg("[bindings].root_vm must not be empty"@)
    } else if is_blank(b.container_name@) {
        rg("[bindings].container_name must not be empty"@)
    } else {
        identifier_fault("[bindings].container_name"@, b.container_name@)
    }
}

/// The first bridge-metadata problem at or after index `i`.
pub open spec fn bridge_faults_from(ms: Seq<VmMetadata>, i: int) -> Option<CodegenFault>
    decreases ms.len() - i,
{
    if i < 0 || i >= ms.len() {
        None
    } else {
        match bridge_fault(ms[i]) {
            Some(f) => Some(f),
            None => bridge_faults_from(ms, i + 1),
        }
    }
}

/// How many VMs at or after index `i` have Rust type `t`.
pub open spec fn count_type_from(ms: Seq<VmMetadata>, t: Seq<char>, i: int) -> nat
    decreases ms.len() - i,
{
    if i < 0 || i >= ms.len() {
        0
    } else {
        (if ms[i].rust_type@ == t {
            1nat
        } else {
            0nat
        }) + count_type_from(ms, t, i + 1)
    }
}

/// The first VM at or after index `i` with Rust type `t`.
pub open spec fn find_type_from(ms: Seq<VmMetadata>, t: Seq<char>, i: int) -> Option<int>
    decreases ms.len() - i,
{
    if i < 0 || i >= ms.len() {
        None
    } else if ms[i].rust_type@ == t {
        Some(i)
    } else {
        find_type_from(ms, t, i + 1)
    }
}

/// The platform type names generated for a VM.
pub open spec fn generated_names(m: VmMetadata) -> Seq<Seq<char>> {
    let base = seq![m.rust_type@, m.bridge_name@, m.rust_type@ + "Protocol"@];
    let with_observer = match m.observer {
        Some(o) => base + seq![o.rust_type@, o.rust_type@ + "Protocol"@],
        None => base,
    };
    let with_state = match m.state_type {
        Some(t) => with_observer.push(t@),
        None => with_observer,
    };
    let with_diff = match m.diff_type {
        Some(t) => with_state.push(t@),
        None => with_state,
    };
    match m.list_item_type {
        Some(t) => with_diff.push(t@),
        None => with_diff,
    }
}

/// Some VM before index `i` has the bridge name of VM `i`.
pub open spec fn earlier_bridge(ms: Seq<VmMetadata>, i: int) -> bool {
    exists|j: int| 0 <= j < i && #[trigger] ms[j].bridge_name@ == ms[i].bridge_name@
}

/// The first VM in `[j, i)` whose root-container property is `p`.
pub open spec fn find_property_from(ms: Seq<VmMetadata>, p: Seq<char>, j: int, i: int) -> Option<
    int,
>
    decreases i - j,
{
    if j < 0 || j >= i || j >= ms.len() {
        None
    } else if property_of(ms[j].rust_type@) == p {
        Some(j)
    } else {
        find_property_from(ms, p, j + 1, i)
    }
}

/// The naming problems of VM `i`, given that the VMs before it had none.
pub open spec fn entry_fault(ms: Seq<VmMetadata>, b: BindingsConfig, i: int) -> Option<
    CodegenFault,
> {
    let m = ms[i];
    let p = property_of(m.rust_type@);
    if earlier_bridge(ms, i) {
        rg("bridge name '"@ + m.bridge_name@ + "' is used by more than one VM"@)
    } else if b.container_name@ == m.bridge_name@ {
        rg(
            "[bindings].container_name '"@ + b.container_name@
                + "' conflicts with generated bridge '"@ + m.bridge_name@ + "'"@,
        )
    } else if generated_names(m).contains(b.container_name@) {
        rg(
            "[bindings].container_name '"@ + b.container_name@
                + "' conflicts with generated type '"@ + b.container_name@ + "' from VM '"@
                + m.rust_type@ + "'"@,
        )
    } else if identifier_fault(
        "root container property for VM '"@ + m.rust_type@ + "'"@,
        p,
    ) is Some {
        identifier_fault("root container property for VM '"@ + m.rust_type@ + "'"@, p)
    } else if is_reserved_property(p) {
        rg(
            "root container property '"@ + p + "' for VM '"@ + m.rust_type@
                + "' is reserved by generated code"@,
        )
    } else {
        match find_property_from(ms, p, 0, i) {
            Some(j) => rg(
                "VM '"@ + ms[j].rust_type@ + "' and VM '"@ + m.rust_type@
                    + "' both generate root container property '"@ + p + "'"@,
            ),
            None => None,
        }
    }
}

/// The first naming problem at or after index `i`.
pub open spec fn entries_fault_from(ms: Seq<VmMetadata>, b: BindingsConfig, i: int) -> Option<
    CodegenFault,
>
    decreases ms.len() - i,
{
    if i < 0 || i >= ms.len() {
        None
    } else {
        match entry_fault(ms, b, i) {
            Some(f) => Some(f),
            None => entries_fault_from(ms, b, i + 1),
        }
    }
}

/// The problems of VM `i` as a child of the root VM `r`.
pub open spec fn child_fault(ms: Seq<VmMetadata>, r: int, i: int) -> Option<CodegenFault> {
    let m = ms[i];
    let root = ms[r];
    match m.factory {
        None => rg(
            "non-root VM '"@ + m.rust_type@ + "' must be created by root VM '"@ + root.rust_type@
                + "'"@,
        ),
        Some(f) => if f.rust_type@ != root.rust_type@ {
            rg(
                "child VM '"@ + m.rust_type@ + "' factory points to '"@ + f.rust_type@
                    + "', expected root VM '"@ + root.rust_type@ + "'"@,
            )
        } else if f.bridge_name@ != root.bridge_name@ {
            rg(
                "child VM '"@ + m.rust_type@ + "' factory bridge '"@ + f.bridge_name@
                    + "' does not match root bridge '"@ + root.bridge_name@ + "'"@,
            )
        } else {
            match find_method(root.methods@, f.method@) {
                None => rg(
                    "root VM '"@ + root.rust_type@ + "' is missing child factory method '"@
                        + f.method@ + "'"@,
                ),
                Some(k) => if root.methods@[k].args@.len() != 0 {
                    rg(
                        "child factory method '"@ + root.rust_type@ + "."@ + f.method@
                            + "' must not accept arguments"@,
                    )
                } else if owned_arc(root.methods@[k].return_type@) != Some(m.rust_type@) {
                    rg(
                        "child factory method '"@ + root.rust_type@ + "."@ + f.method@
                            + "' must return Arc<"@ + m.rust_type@ + ">"@,
                    )
                } else {
                    None
                },
            }
        },
    }
}

/// The first child problem at or after index `i`.
pub open spec fn children_fault_from(ms: Seq<VmMetadata>, r: int, i: int) -> Option<CodegenFault>
    decreases ms.len() - i,
{
    if i < 0 || i >= ms.len() {
        None
    } else if i == r {
        children_fault_from(ms, r, i + 1)
    } else {
        match child_fault(ms, r, i) {
            Some(f) => Some(f),
            None => children_fault_from(ms, r, i + 1),
        }
    }
}

/// The indices of the child VMs at or after index `i`, in order.
pub open spec fn children_from(ms: Seq<VmMetadata>, r: int, i: int) -> Seq<usize>
    decreases ms.len() - i,
{
    if i < 0 || i >= ms.len() {
        Seq::empty()
    } else if i == r {
        children_from(ms, r, i + 1)
    } else {
        seq![i as usize] + children_from(ms, r, i + 1)
    }
}

/// Problems found before the root VM is looked up: the bindings, an empty
/// input, and the per-VM bridge checks.
pub open spec fn prelude_fault(ms: Seq<VmMetadata>, b: BindingsConfig) -> Option<CodegenFault> {
    if bindings_fault(b) is Some {
        bindings_fault(b)
    } else if ms.len() == 0 {
        rg("root graph requires at least one VM metadata entry"@)
    } else {
        bridge_faults_from(ms, 0)
    }
}

/// The root VM: the one VM whose Rust type is the configured root, and which
/// no factory creates.
pub open spec fn root_lookup(ms: Seq<VmMetadata>, b: BindingsConfig) -> Result<int, CodegenFault> {
    if count_type_from(ms, b.root_vm@, 0) == 0 {
        Err(CodegenFault::RootGraph("root VM '"@ + b.root_vm@ + "' was not found in metadata"@))
    } else if count_type_from(ms, b.root_vm@, 0) >= 2 {
        Err(CodegenFault::RootGraph("root VM '"@ + b.root_vm@ + "' is ambiguous in metadata"@))
    } else {
        let r = find_type_from(ms, b.root_vm@, 0)->0;
        if ms[r].factory is Some {
            Err(
                CodegenFault::RootGraph(
                    "root VM '"@ + ms[r].rust_type@ + "' must not be created by a factory"@,
                ),
            )
        } else {
            Ok(r)
        }
    }
}

/// The root graph of `ms` under `b`: the root index and the child indices in
/// input order, or the first problem found.
pub open spec fn root_graph(ms: Seq<VmMetadata>, b: BindingsConfig) -> Result<
    (int, Seq<usize>),
    CodegenFault,
> {
    if prelude_fault(ms, b) is Some {
        Err(prelude_fault(ms, b)->0)
    } else {
        match root_lookup(ms, b) {
            Err(f) => Err(f),
            Ok(r) => if entries_fault_from(ms, b, 0) is Some {
                Err(entries_fault_from(ms, b, 0)->0)
            } else if children_fault_from(ms, r, 0) is Some {
                Err(children_fault_from(ms, r, 0)->0)
            } else {
                Ok((r, children_from(ms, r, 0)))
            },
        }
    }
}

// ---------------------------------------------------------------------------
// Implementation.
// ---------------------------------------------------------------------------

/// A validated root graph: the container name, the root VM's index and the
/// child VMs' indices, in input order.
pub struct RootGraph {
    pub container_name: String,
    pub root: usize,
    pub children: Vec<usize>,
}

/// Whether `graph` is the root graph of `ms` under `b`.
pub open spec fn is_root_graph_of(graph: RootGraph, ms: Seq<VmMetadata>, b: BindingsConfig) -> bool {
    root_graph(ms, b) matches Ok((r, ch)) && graph.root as int == r && graph.children@ == ch
        && graph.container_name@ == b.container_name@
}

/// The indices of `graph` are indices of `ms`.
pub open spec fn graph_in_bounds(graph: RootGraph, ms: Seq<VmMetadata>) -> bool {
    &&& graph.root < ms.len()
    &&& forall|k: int| 0 <= k < graph.children@.len() ==> graph.children@[k] < ms.len()
}

/// The result of `RootGraph::build` agrees with `root_graph`.
pub open spec fn build_result(
    res: Result<RootGraph, CodegenError>,
    ms: Seq<VmMetadata>,
    b: BindingsConfig,
) -> bool {
    match root_graph(ms, b) {
        Ok(_) => res matches Ok(g) && is_root_graph_of(g, ms, b) && graph_in_bounds(g, ms),
        Err(f) => res matches Err(e) && fault_of(e) == f,
    }
}

/// VM `j` is made by the root VM `r`: its factory names the root's type and
/// bridge, and the root has that factory method, which takes no arguments and
/// returns `Arc` of VM `j`'s type.
pub open spec fn created_by_root(ms: Seq<VmMetadata>, r: int, j: int) -> bool {
    match ms[j].factory {
        None => false,
        Some(f) => f.rust_type@ == ms[r].rust_type@ && f.bridge_name@ == ms[r].bridge_name@
            && match find_method(ms[r].methods@, f.method@) {
            None => false,
            Some(k) => ms[r].methods@[k].args@.len() == 0 && owned_arc(
                ms[r].methods@[k].return_type@,
            ) == Some(ms[j].rust_type@),
        },
    }
}

proof fn lemma_children_from(ms: Seq<VmMetadata>, r: int, i: int)
    requires
        0 <= i,
        ms.len() <= usize::MAX,
        children_fault_from(ms, r, i) is None,
    ensures
        forall|k: int|
            0 <= k < children_from(ms, r, i).len() ==> {
                let j = #[trigger] children_from(ms, r, i)[k] as int;
                &&& i <= j < ms.len()
                &&& j != r
                &&& created_by_root(ms, r, j)
            },
    decreases ms.len() - i,
{
    if i < ms.len() {
        lemma_children_from(ms, r, i + 1);
        if i == r {
            assert(children_from(ms, r, i) == children_from(ms, r, i + 1));
        } else {
            let rest = children_from(ms, r, i + 1);
            assert(children_from(ms, r, i) == seq![i as usize] + rest);
            assert forall|k: int| 0 <= k < children_from(ms, r, i).len() implies {
                let j = #[trigger] children_from(ms, r, i)[k] as int;
                &&& i <= j < ms.len()
                &&& j != r
                &&& created_by_root(ms, r, j)
            } by {
                if k > 0 {
                    assert(children_from(ms, r, i)[k] == rest[k - 1]);
                }
            }
        }
    }
}

/// In a root graph, every VM other than the root is a child, children keep
/// their input order, and each child is made by a factory method of the root.
pub proof fn lemma_root_graph_children(ms: Seq<VmMetadata>, b: BindingsConfig)
    requires
        ms.len() <= usize::MAX,
        root_graph(ms, b) is Ok,
    ensures
        ({
            let (r, ch) = root_graph(ms, b)->Ok_0;
            &&& 0 <= r < ms.len()
            &&& ch.len() + 1 == ms.len()
            &&& forall|k: int| 0 <= k < ch.len() ==> {
                let j = #[trigger] ch[k] as int;
                &&& 0 <= j < ms.len()
                &&& j != r
                &&& created_by_root(ms, r, j)
            }
            &&& forall|k1: int, k2: int| 0 <= k1 < k2 < ch.len() ==> #[trigger] ch[k1] < #[trigger] ch[k2]
        }),
{
    let (r, ch) = root_graph(ms, b)->Ok_0;
    lemma_find_type(ms, b.root_vm@, 0);
    lemma_children_from(ms, r, 0);
    lemma_children_shape(ms, r, 0);
}

proof fn lemma_children_shape(ms: Seq<VmMetadata>, r: int, i: int)
    requires
        0 <= i <= ms.len(),
        0 <= r < ms.len(),
        ms.len() <= usize::MAX,
    ensures
        children_from(ms, r, i).len() == if i <= r {
            ms.len() - i - 1
        } else {
            ms.len() - i
        },
        forall|k1: int, k2: int|
            0 <= k1 < k2 < children_from(ms, r, i).len() ==> #[trigger] children_from(ms, r, i)[k1]
                < #[trigger] children_from(ms, r, i)[k2],
        forall|k: int|
            0 <= k < children_from(ms, r, i).len() ==> i <= #[trigger] children_from(ms, r, i)[k],
    decreases ms.len() - i,
{
    if i < ms.len() {
        lemma_children_shape(ms, r, i + 1);
        let rest = children_from(ms, r, i + 1);
        if i != r {
            let all = children_from(ms, r, i);
            assert(all == seq![i as usize] + rest);
            assert forall|k: int| 0 <= k < all.len() implies i <= #[trigger] all[k] by {
                if k > 0 {
                    assert(all[k] == rest[k - 1]);
                }
            }
            assert forall|k1: int, k2: int| 0 <= k1 < k2 < all.len() implies #[trigger] all[k1]
                < #[trigger] all[k2] by {
                assert(all[k2] == rest[k2 - 1]);
                if k1 > 0 {
                    assert(all[k1] == rest[k1 - 1]);
                }
            }
        }
    }
}

proof fn lemma_find_type(ms: Seq<VmMetadata>, t: Seq<char>, i: int)
    requires
        0 <= i,
    ensures
        find_type_from(ms, t, i) matches Some(j) ==> i <= j < ms.len(),
        count_type_from(ms, t, i) > 0 ==> find_type_from(ms, t, i) is Some,
    decreases ms.len() - i,
{
    if i < ms.len() {
        lemma_find_type(ms, t, i + 1);
    }
}

fn root_graph_error(s: String) -> (res: CodegenError)
    ensures
        fault_of(res) == CodegenFault::RootGraph(s@),
{
    CodegenError::InvalidRootGraph(s)
}

fn validate_cross_platform_identifier(kind: &str, value: &str) -> (r: Result<(), CodegenError>)
    ensures
        match identifier_fault(kind@, value@) {
            None => r is Ok,
            Some(f) => r matches Err(e) && fault_of(e) == f,
        },
{
    if !is_ascii_identifier(value) || is_swift_or_kotlin_keyword(value) {
        let mut s = String::from_str(kind);
        s.append(" must be a valid Swift/Kotlin identifier, got '");
        s.append(value);
        s.append("'");
        return Err(root_graph_error(s));
    }
    Ok(())
}

fn contains_string(names: &Vec<String>, value: &str) -> (r: bool)
    ensures
        r == names@.map_values(|n: String| n@).contains(value@),
{
    let ghost views = names@.map_values(|n: String| n@);
    let mut i: usize = 0;
    while i < names.len()
        invariant
            i <= names.len(),
            views == names@.map_values(|n: String| n@),
            forall|j: int| 0 <= j < i ==> views[j] != value@,
        decreases names.len() - i,
    {
        if str_eq(names[i].as_str(), value) {
            assert(views[i as int] == value@);
            return true;
        }
        i = i + 1;
    }
    false
}

/// The platform type names generated for a VM.
fn generated_platform_type_names(metadata: &VmMetadata) -> (res: Vec<String>)
    ensures
        res@.map_values(|n: String| n@) == generated_names(*metadata),
{
    let mut names: Vec<String> = Vec::new();
    names.push(metadata.rust_type.clone());
    names.push(metadata.bridge_name.clone());
    let mut p = metadata.rust_type.clone();
    p.append("Protocol");
    names.push(p);
    if let Some(observer) = &metadata.observer {
        names.push(observer.rust_type.clone());
        let mut op = observer.rust_type.clone();
        op.append("Protocol");
        names.push(op);
    }
    if let Some(t) = &metadata.state_type {
        names.push(t.clone());
    }
    if let Some(t) = &metadata.diff_type {
        names.push(t.clone());
    }
    if let Some(t) = &metadata.list_item_type {
        names.push(t.clone());
    }
    assert(names@.map_values(|n: String| n@) =~= generated_names(*metadata));
    names
}

#[verifier::loop_isolation(false)]
fn entry_check(ms: &[VmMetadata], bindings: &BindingsConfig, i: usize) -> (r: Result<
    (),
    CodegenError,
>)
    requires
        i < ms@.len(),
    ensures
        match entry_fault(ms@, *bindings, i as int) {
            None => r is Ok,
            Some(f) => r matches Err(e) && fault_of(e) == f,
        },
{
    let m = &ms[i];
    let mut j: usize = 0;
    while j < i
        invariant
            i < ms@.len(),
            j <= i,
            m == ms@[i as int],
            forall|k: int| 0 <= k < j ==> ms@[k].bridge_name@ != ms@[i as int].bridge_name@,
        decreases i - j,
    {
        if str_eq(ms[j].bridge_name.as_str(), m.bridge_name.as_str()) {
            assert(earlier_bridge(ms@, i as int));
            let mut s = String::from_str("bridge name '");
            s.append(m.bridge_name.as_str());
            s.append("' is used by more than one VM");
            return Err(root_graph_error(s));
        }
        j = j + 1;
    }
    if str_eq(bindings.container_name.as_str(), m.bridge_name.as_str()) {
        let mut s = String::from_str("[bindings].container_name '");
        s.append(bindings.container_name.as_str());
        s.append("' conflicts with generated bridge '");
        s.append(m.bridge_name.as_str());
        s.append("'");
        return Err(root_graph_error(s));
    }
    let names = generated_platform_type_names(m);
    if contains_string(&names, bindings.container_name.as_str()) {
        let mut s = String::from_str("[bindings].container_name '");
        s.append(bindings.container_name.as_str());
        s.append("' conflicts with generated type '");
        s.append(bindings.container_name.as_str());
        s.append("' from VM '");
        s.append(m.rust_type.as_str());
        s.append("'");
        return Err(root_graph_error(s));
    }
    let property = property_name(m.rust_type.as_str());
    let mut kind = String::from_str("root container property for VM '");
    kind.append(m.rust_type.as_str());
    kind.append("'");
    validate_cross_platform_identifier(kind.as_str(), property.as_str())?;
    if is_reserved_root_container_property(property.as_str()) {
        let mut s = String::from_str("root container property '");
        s.append(property.as_str());
        s.append("' for VM '");
        s.append(m.rust_type.as_str());
        s.append("' is reserved by generated code");
        return Err(root_graph_error(s));
    }
    let mut j: usize = 0;
    while j < i
        invariant
            i < ms@.len(),
            j <= i,
            m == ms@[i as int],
            property@ == property_of(m.rust_type@),
            find_property_from(ms@, property@, 0, i as int) == find_property_from(
                ms@,
                property@,
                j as int,
                i as int,
            ),
        decreases i - j,
    {
        let other = property_name(ms[j].rust_type.as_str());
        if str_eq(other.as_str(), property.as_str()) {
            assert(find_property_from(ms@, property@, j as int, i as int) == Some(j as int));
            let mut s = String::from_str("VM '");
            s.append(ms[j].rust_type.as_str());
            s.append("' and VM '");
            s.append(m.rust_type.as_str());
            s.append("' both generate root container property '");
            s.append(property.as_str());
            s.append("'");
            return Err(root_graph_error(s));
        }
        j = j + 1;
    }
    Ok(())
}

fn child_check(ms: &[VmMetadata], r: usize, i: usize) -> (res: Result<(), CodegenError>)
    requires
        i < ms@.len(),
        r < ms@.len(),
    ensures
        match child_fault(ms@, r as int, i as int) {
            None => res is Ok,
            Some(f) => res matches Err(e) && fault_of(e) == f,
        },
{
    let m = &ms[i];
    let root = &ms[r];
    let f = match &m.factory {
        Some(f) => f,
        None => {
            let mut s = String::from_str("non-root VM '");
            s.append(m.rust_type.as_str());
            s.append("' must be created by root VM '");
            s.append(root.rust_type.as_str());
            s.append("'");
            return Err(root_graph_error(s));
        },
    };
    if !str_eq(f.rust_type.as_str(), root.rust_type.as_str()) {
        let mut s = String::from_str("child VM '");
        s.append(m.rust_type.as_str());
        s.append("' factory points to '");
        s.append(f.rust_type.as_str());
        s.append("', expected root VM '");
        s.append(root.rust_type.as_str());
        s.append("'");
        return Err(root_graph_error(s));
    }
    if !str_eq(f.bridge_name.as_str(), root.bridge_name.as_str()) {
        let mut s = String::from_str("child VM '");
        s.append(m.rust_type.as_str());
        s.append("' factory bridge '");
        s.append(f.bridge_name.as_str());
        s.append("' does not match root bridge '");
        s.append(root.bridge_name.as_str());
        s.append("'");
        return Err(root_graph_error(s));
    }
    let k = match find_method_index(&root.methods, f.method.as_str()) {
        Some(k) => k,
        None => {
            let mut s = String::from_str("root VM '");
            s.append(root.rust_type.as_str());
            s.append("' is missing child factory method '");
            s.append(f.method.as_str());
            s.append("'");
            return Err(root_graph_error(s));
        },
    };
    let method = &root.methods[k];
    if method.args.len() != 0 {
        let mut s = String::from_str("child factory method '");
        s.append(root.rust_type.as_str());
        s.append(".");
        s.append(f.method.as_str());
        s.append("' must not accept arguments");
        return Err(root_graph_error(s));
    }
    let owned = owned_arc_return_type(method.return_type.as_str());
    let matches = match &owned {
        Some(t) => str_eq(t.as_str(), m.rust_type.as_str()),
        None => false,
    };
    if !matches {
        let mut s = String::from_str("child factory method '");
        s.append(root.rust_type.as_str());
        s.append(".");
        s.append(f.method.as_str());
        s.append("' must return Arc<");
        s.append(m.rust_type.as_str());
        s.append(">");
        return Err(root_graph_error(s));
    }
    Ok(())
}

/// The checks before the root lookup.
fn check_prelude(metadatas: &[VmMetadata], bindings: &BindingsConfig) -> (r: Result<
    (),
    CodegenError,
>)
    ensures
        match prelude_fault(metadatas@, *bindings) {
            None => r is Ok,
            Some(f) => r matches Err(e) && fault_of(e) == f,
        },
{
    let ghost ms = metadatas@;
    if str_blank(bindings.root_vm.as_str()) {
        return Err(root_graph_error(String::from_str("[bindings].root_vm must not be empty")));
    }
    if str_blank(bindings.container_name.as_str()) {
        return Err(
            root_graph_error(String::from_str("[bindings].container_name must not be empty")),
        );
    }
    validate_cross_platform_identifier("[bindings].container_name", bindings.container_name.as_str())?;
    if metadatas.len() == 0 {
        return Err(
            root_graph_error(String::from_str("root graph requires at least one VM metadata entry")),
        );
    }
    let n = metadatas.len();
    let mut i: usize = 0;
    while i < n
        invariant
            n == ms.len(),
            ms == metadatas@,
            i <= n,
            bindings_fault(*bindings) is None,
            ms.len() > 0,
            bridge_faults_from(ms, 0) == bridge_faults_from(ms, i as int),
        decreases n - i,
    {
        validate_swift_bridge_metadata(&metadatas[i])?;
        i = i + 1;
    }
    Ok(())
}

/// Looks up the root VM.
fn lookup_root(metadatas: &[VmMetadata], bindings: &BindingsConfig) -> (r: Result<
    usize,
    CodegenError,
>)
    ensures
        match root_lookup(metadatas@, *bindings) {
            Ok(root) => r matches Ok(v) && v as int == root && 0 <= root < metadatas@.len(),
            Err(f) => r matches Err(e) && fault_of(e) == f,
        },
{
    let ghost ms = metadatas@;
    let n = metadatas.len();
    let mut count: usize = 0;
    let mut root: usize = 0;
    let mut i: usize = n;
    while i > 0
        invariant
            n == ms.len(),
            ms == metadatas@,
            i <= n,
            count as nat == count_type_from(ms, bindings.root_vm@, i as int),
            count <= n - i,
            count > 0 ==> root < n && find_type_from(ms, bindings.root_vm@, i as int) == Some(
                root as int,
            ),
            count == 0 ==> find_type_from(ms, bindings.root_vm@, i as int) is None,
        decreases i,
    {
        i = i - 1;
        if str_eq(metadatas[i].rust_type.as_str(), bindings.root_vm.as_str()) {
            count = count + 1;
            root = i;
        }
    }
    if count == 0 {
        let mut s = String::from_str("root VM '");
        s.append(bindings.root_vm.as_str());
        s.append("' was not found in metadata");
        return Err(root_graph_error(s));
    }
    if count >= 2 {
        let mut s = String::from_str("root VM '");
        s.append(bindings.root_vm.as_str());
        s.append("' is ambiguous in metadata");
        return Err(root_graph_error(s));
    }
    if metadatas[root].factory.is_some() {
        let mut s = String::from_str("root VM '");
        s.append(metadatas[root].rust_type.as_str());
        s.append("' must not be created by a factory");
        return Err(root_graph_error(s));
    }
    Ok(root)
}

/// The naming checks of every VM.
fn check_entries(metadatas: &[VmMetadata], bindings: &BindingsConfig) -> (r: Result<
    (),
    CodegenError,
>)
    ensures
        match entries_fault_from(metadatas@, *bindings, 0) {
            None => r is Ok,
            Some(f) => r matches Err(e) && fault_of(e) == f,
        },
{
    let ghost ms = metadatas@;
    let n = metadatas.len();
    let mut i: usize = 0;
    while i < n
        invariant
            n == ms.len(),
            ms == metadatas@,
            i <= n,
            entries_fault_from(ms, *bindings, 0) == entries_fault_from(ms, *bindings, i as int),
        decreases n - i,
    {
        entry_check(metadatas, bindings, i)?;
        i = i + 1;
    }
    Ok(())
}

/// The child checks, collecting the child indices.
fn collect_children(metadatas: &[VmMetadata], root: usize) -> (r: Result<
    Vec<usize>,
    CodegenError,
>)
    requires
        root < metadatas@.len(),
    ensures
        match children_fault_from(metadatas@, root as int, 0) {
            None => r matches Ok(ch) && ch@ == children_from(metadatas@, root as int, 0) && forall|
                k: int,
            | 0 <= k < ch@.len() ==> ch@[k] < metadatas@.len(),
            Some(f) => r matches Err(e) && fault_of(e) == f,
        },
{
    let ghost ms = metadatas@;
    let n = metadatas.len();
    let mut children: Vec<usize> = Vec::new();
    let mut i: usize = 0;
    while i < n
        invariant
            n == ms.len(),
            ms == metadatas@,
            i <= n,
            root < n,
            children_fault_from(ms, root as int, 0) == children_fault_from(
                ms,
                root as int,
                i as int,
            ),
            children_from(ms, root as int, 0) == children@ + children_from(
                ms,
                root as int,
                i as int,
            ),
            forall|k: int| 0 <= k < children@.len() ==> children@[k] < n,
        decreases n - i,
    {
        if i != root {
            child_check(metadatas, root, i)?;
            children.push(i);
            assert(children_from(ms, root as int, 0) =~= children@ + children_from(
                ms,
                root as int,
                i + 1,
            ));
        }
        i = i + 1;
    }
    assert(children@ =~= children_from(ms, root as int, 0));
    Ok(children)
}

impl RootGraph {
    /// Builds and validates the root graph of `metadatas` under `bindings`.
    pub fn build(metadatas: &[VmMetadata], bindings: &BindingsConfig) -> (res: Result<
        RootGraph,
        CodegenError,
    >)
        ensures
            build_result(res, metadatas@, *bindings),
    {
        check_prelude(metadatas, bindings)?;
        let root = match lookup_root(metadatas, bindings) {
            Ok(root) => root,
            Err(e) => {
                return Err(e);
            },
        };
        assert(root_lookup(metadatas@, *bindings) == Ok::<int, CodegenFault>(root as int));
        check_entries(metadatas, bindings)?;
        let children = match collect_children(metadatas, root) {
            Ok(children) => children,
            Err(e) => {
                return Err(e);
            },
        };
        let graph = RootGraph { container_name: bindings.container_name.clone(), root, children };
        assert(is_root_graph_of(graph, metadatas@, *bindings));
        Ok(graph)
    }
}

} // verus!
