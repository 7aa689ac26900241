use cross_kit::codegen::CodegenError;
use cross_kit::config::BindingsConfig;
use cross_kit::kotlin::{
    generate_kotlin_bridge, generate_kotlin_bridge_source, generate_kotlin_root_container,
};
use cross_kit::metadata::{
    ArgMetadata, FactoryMetadata, MetadataValidationError, MethodMetadata, ObserverMetadata,
    VmMetadata, VmMode, VM_METADATA_SCHEMA_VERSION,
};
use cross_kit::naming::{
    is_ascii_identifier, kotlin_bridge_name_for_rust_type, map_type_to_kotlin, map_type_to_swift,
    owned_arc_return_type, property_name, to_kotlin_method_name, to_swift_method_name,
};
use cross_kit::swift::{
    format_swift_signature, generate_swift_bridge, generate_swift_bridge_source,
    generate_swift_root_container,
};
use cross_kit::text::{indent, indent_optional};

    fn state_metadata() -> VmMetadata {
        VmMetadata {
            schema_version: VM_METADATA_SCHEMA_VERSION,
            rust_type: "CounterViewModel".to_string(),
            bridge_name: "CounterViewModelBridge".to_string(),
            mode: VmMode::State,
            observer: Some(ObserverMetadata {
                rust_type: "CounterObserver".to_string(),
                method: "on_state".to_string(),
            }),
            state_type: Some("CounterState".to_string()),
            diff_type: None,
            list_item_type: None,
            factory: Some(FactoryMetadata {
                rust_type: "AppViewModel".to_string(),
                method: "make_counter_vm".to_string(),
                bridge_name: "AppViewModelBridge".to_string(),
            }),
            methods: vec![
                MethodMetadata {
                    name: "subscribe".to_string(),
                    args: vec![ArgMetadata {
                        name: "observer".to_string(),
                        rust_type: "Arc<dyn CounterObserver>".to_string(),
                    }],
                    return_type: "i64".to_string(),
                },
                MethodMetadata {
                    name: "unsubscribe".to_string(),
                    args: vec![ArgMetadata {
                        name: "id".to_string(),
                        rust_type: "i64".to_string(),
                    }],
                    return_type: "unit".to_string(),
                },
                MethodMetadata {
                    name: "get_state".to_string(),
                    args: Vec::new(),
                    return_type: "CounterState".to_string(),
                },
                MethodMetadata {
                    name: "increment_by".to_string(),
                    args: vec![ArgMetadata {
                        name: "delta_value".to_string(),
                        rust_type: "i32".to_string(),
                    }],
                    return_type: "CounterState".to_string(),
                },
            ],
        }
    }

    fn list_metadata() -> VmMetadata {
        VmMetadata {
            schema_version: VM_METADATA_SCHEMA_VERSION,
            rust_type: "ListViewModel".to_string(),
            bridge_name: "ListViewModelBridge".to_string(),
            mode: VmMode::DiffList,
            observer: Some(ObserverMetadata {
                rust_type: "ListObserver".to_string(),
                method: "on_diffs".to_string(),
            }),
            state_type: None,
            diff_type: Some("ListDiff".to_string()),
            list_item_type: Some("ListItem".to_string()),
            factory: None,
            methods: vec![
                MethodMetadata {
                    name: "subscribe".to_string(),
                    args: vec![ArgMetadata {
                        name: "observer".to_string(),
                        rust_type: "Arc<dyn ListObserver>".to_string(),
                    }],
                    return_type: "unit".to_string(),
                },
                MethodMetadata {
                    name: "append_now".to_string(),
                    args: Vec::new(),
                    return_type: "ListItem".to_string(),
                },
                MethodMetadata {
                    name: "apply_diffs".to_string(),
                    args: vec![ArgMetadata {
                        name: "diffs".to_string(),
                        rust_type: "Vec<ListDiff>".to_string(),
                    }],
                    return_type: "bool".to_string(),
                },
            ],
        }
    }

    fn app_metadata() -> VmMetadata {
        let mut metadata = state_metadata();
        metadata.rust_type = "AppViewModel".to_string();
        metadata.bridge_name = "AppViewModelBridge".to_string();
        metadata.factory = None;
        metadata.observer.as_mut().unwrap().rust_type = "AppObserver".to_string();
        metadata.methods[0].args[0].rust_type = "Arc<dyn AppObserver>".to_string();
        metadata.state_type = Some("AppState".to_string());
        metadata.methods[2].return_type = "AppState".to_string();
        metadata.methods.push(MethodMetadata {
            name: "new".to_string(),
            args: vec![ArgMetadata {
                name: "initial".to_string(),
                rust_type: "i32".to_string(),
            }],
            return_type: "Arc<Self>".to_string(),
        });
        metadata.methods.push(MethodMetadata {
            name: "clear_route".to_string(),
            args: Vec::new(),
            return_type: "unit".to_string(),
        });
        metadata.methods.push(MethodMetadata {
            name: "make_counter_vm".to_string(),
            args: Vec::new(),
            return_type: "Arc<CounterViewModel>".to_string(),
        });
        metadata.methods.push(MethodMetadata {
            name: "make_list_vm".to_string(),
            args: Vec::new(),
            return_type: "Arc<ListViewModel>".to_string(),
        });
        metadata
    }

    fn child_list_metadata() -> VmMetadata {
        let mut metadata = list_metadata();
        metadata.factory = Some(FactoryMetadata {
            rust_type: "AppViewModel".to_string(),
            method: "make_list_vm".to_string(),
            bridge_name: "AppViewModelBridge".to_string(),
        });
        metadata
    }

    fn bindings() -> BindingsConfig {
        BindingsConfig {
            root_vm: "AppViewModel".to_string(),
            container_name: "CrossKitSharedBridge".to_string(),
        }
    }

    #[test]
    fn generates_state_bridge_with_factory_and_unsubscribe() {
        let files = generate_swift_bridge(&state_metadata()).unwrap();
        let code = &files.files[0].contents;

        assert_eq!(files.files[0].path, "CounterViewModelBridge.swift");
        assert!(code.contains("// Generated by cross-kit-codegen."));
        assert!(code.contains("public final class CounterViewModelBridge"));
        assert!(code.contains("public init(app: AppViewModelBridge)"));
        assert!(code.contains("let vm = app.makeCounterVm()"));
        assert!(code.contains("private var observerId: Int64?"));
        assert!(code.contains("vm.unsubscribe(id: id)"));
        assert!(code.contains("public func incrementBy(deltaValue: Int32) -> CounterState"));
        assert!(!code.contains("public func subscribe"));
    }

    #[test]
    fn generates_diff_list_bridge_with_diff_application() {
        let code = generate_swift_bridge_source(&list_metadata()).unwrap();

        assert!(code.contains("@Published public private(set) var items: [ListItem] = []"));
        assert!(code.contains("public func appendNow() -> ListItem"));
        assert!(code.contains("public func applyDiffs(diffs: [ListDiff]) -> Bool"));
        assert!(code.contains("case let .move(from, to):"));
        assert!(code.contains("items.insert(item, at: toIdx)"));
        assert!(!code.contains("fromIdx < toIdx ? toIdx - 1 : toIdx"));
        assert!(code.contains("private func clampIndex"));
        assert!(code.contains("vm.subscribe(observer: observer)"));
    }

    #[test]
    fn generates_kotlin_state_bridge_with_main_thread_dispatch_and_close() {
        let files = generate_kotlin_bridge(&state_metadata(), "com.crosskit.shared").unwrap();
        let code = &files.files[0].contents;

        assert_eq!(
            files.files[0].path,
            "com/crosskit/shared/CounterViewModelBridge.kt"
        );
        assert!(code.contains("package com.crosskit.shared"));
        assert!(
            code.contains("class CounterViewModelBridge private constructor(vm: CounterViewModel)")
        );
        assert!(code.contains("private val handler = Handler(Looper.getMainLooper())"));
        assert!(code.contains("var state: CounterState by mutableStateOf(vm.getState())"));
        assert!(code.contains("private val observerId: Long = vm.subscribe(this)"));
        assert!(code.contains("fun incrementBy(deltaValue: Int): CounterState"));
        assert!(code.contains("fun close()"));
        assert!(code.contains("private var closed = false"));
        assert!(code.contains("if (closed) return"));
        assert!(code.contains("vm.unsubscribe(observerId)"));
        assert!(code.contains("vm.close()"));
        assert!(code.contains("internal fun __crossKitFromVm(vm: CounterViewModel)"));
        assert!(code.contains("handler.post { this.state = state }"));
        assert!(!code.contains("__crossKitVm"));
        assert!(!code.contains("System.loadLibrary"));
    }

    #[test]
    fn generated_swift_bridge_maps_subscription_id_alias() {
        let mut metadata = state_metadata();
        metadata.methods[0].return_type = "SubscriptionId".to_string();
        metadata.methods[1].args[0].rust_type = "SubscriptionId".to_string();

        let code = generate_swift_bridge_source(&metadata).unwrap();

        assert!(code.contains("private var observerId: Int64?"));
        assert!(code.contains("self.observerId = vm.subscribe(observer: observer)"));
        assert!(code.contains("vm.unsubscribe(id: id)"));
        assert!(!code.contains("SubscriptionId"));
        assert!(!code.contains("cross_kit::SubscriptionId"));
    }

    #[test]
    fn generated_kotlin_bridge_maps_subscription_id_alias() {
        let mut metadata = state_metadata();
        metadata.methods[0].return_type = "crate::runtime::SubscriptionId".to_string();
        metadata.methods[1].args[0].rust_type = "crate::runtime::SubscriptionId".to_string();

        let code = generate_kotlin_bridge_source(&metadata, "com.crosskit.shared").unwrap();

        assert!(code.contains("private val observerId: Long = vm.subscribe(this)"));
        assert!(code.contains("vm.unsubscribe(observerId)"));
        assert!(!code.contains("SubscriptionId"));
        assert!(!code.contains("cross_kit::SubscriptionId"));
        assert!(!code.contains("crate::runtime::SubscriptionId"));
    }

    #[test]
    fn generates_kotlin_root_state_bridge_with_constructor_args_and_unit_methods() {
        let mut metadata = state_metadata();
        metadata.rust_type = "AppViewModel".to_string();
        metadata.bridge_name = "AppViewModelBridge".to_string();
        metadata.factory = None;
        metadata.observer.as_mut().unwrap().rust_type = "AppObserver".to_string();
        metadata.methods[0].args[0].rust_type = "Arc<dyn AppObserver>".to_string();
        metadata.state_type = Some("AppState".to_string());
        metadata.methods.push(MethodMetadata {
            name: "new".to_string(),
            args: vec![ArgMetadata {
                name: "initial".to_string(),
                rust_type: "i32".to_string(),
            }],
            return_type: "Arc<Self>".to_string(),
        });
        metadata.methods.push(MethodMetadata {
            name: "clear_route".to_string(),
            args: Vec::new(),
            return_type: "unit".to_string(),
        });
        metadata.methods.push(MethodMetadata {
            name: "make_counter_vm".to_string(),
            args: Vec::new(),
            return_type: "Arc<CounterViewModel>".to_string(),
        });
        metadata.methods[2].return_type = "AppState".to_string();

        let code = generate_kotlin_bridge_source(&metadata, "com.crosskit.shared").unwrap();

        assert!(code.contains("class AppViewModelBridge(initial: Int)"));
        assert!(code.contains("private val vm: AppViewModel = AppViewModel(initial)"));
        assert!(code.contains("fun clearRoute(): Unit"));
        assert!(code.contains("vm.clearRoute()"));
        assert!(code.contains("fun makeCounterVm(): CounterViewModelBridge"));
        assert!(
            code.contains("return CounterViewModelBridge.__crossKitFromVm(vm.makeCounterVm())")
        );
        assert!(!code.contains("__crossKitVm"));
    }

    #[test]
    fn generates_kotlin_diff_list_bridge_with_invalid_diff_guards() {
        let code = generate_kotlin_bridge_source(&list_metadata(), "com.crosskit.shared").unwrap();

        assert!(code.contains("val items: SnapshotStateList<ListItem> = mutableStateListOf()"));
        assert!(code.contains("fun appendNow(): ListItem"));
        assert!(code.contains("fun applyDiffs(diffs: List<ListDiff>): Boolean"));
        assert!(code.contains("is ListDiff.Move ->"));
        assert!(
            code.contains("if (fromIdx !in items.indices || toIdx !in items.indices) continue")
        );
        assert!(code.contains("items.add(toIdx, item)"));
        assert!(!code.contains("if (fromIdx < toIdx) toIdx - 1 else toIdx"));
        assert!(code.contains("private fun clampIndex(index: Long, upperBound: Int): Int"));
        assert!(code.contains("handler.post { applyDiffsToItems(diffs) }"));
        assert!(code.contains("vm.close()"));
    }

    #[test]
    fn generates_swift_root_container_with_forwarding_and_stable_children() {
        let files = generate_swift_root_container(
            &[app_metadata(), state_metadata(), child_list_metadata()],
            &bindings(),
        )
        .unwrap();
        let code = &files.files[0].contents;

        assert_eq!(files.files[0].path, "CrossKitSharedBridge.swift");
        assert!(code.contains("import Combine"));
        assert!(code.contains("@MainActor"));
        assert!(code.contains("public final class CrossKitSharedBridge: ObservableObject"));
        assert!(code.contains("public let app: AppViewModelBridge"));
        assert!(code.contains("public let counter: CounterViewModelBridge"));
        assert!(code.contains("public let list: ListViewModelBridge"));
        assert!(code.contains("private var cancellables: Set<AnyCancellable> = []"));
        assert!(code.contains("public init(initial: Int32)"));
        assert!(code.contains("let app = AppViewModelBridge(initial: initial)"));
        assert!(code.contains("self.counter = CounterViewModelBridge(app: app)"));
        assert!(code.contains("self.list = ListViewModelBridge(app: app)"));
        assert!(
            code.find("self.counter = CounterViewModelBridge(app: app)")
                .unwrap()
                < code
                    .find("self.list = ListViewModelBridge(app: app)")
                    .unwrap()
        );
        assert!(code.contains(
            "app.objectWillChange.sink { [weak self] _ in self?.objectWillChange.send() }"
        ));
        assert!(code.contains(
            "counter.objectWillChange.sink { [weak self] _ in self?.objectWillChange.send() }"
        ));
        assert!(code.contains(
            "list.objectWillChange.sink { [weak self] _ in self?.objectWillChange.send() }"
        ));
    }

    #[test]
    fn generates_kotlin_root_container_with_remember_helper_and_idempotent_close() {
        let files = generate_kotlin_root_container(
            &[app_metadata(), state_metadata(), child_list_metadata()],
            &bindings(),
            "com.crosskit.shared",
        )
        .unwrap();
        let code = &files.files[0].contents;

        assert_eq!(
            files.files[0].path,
            "com/crosskit/shared/CrossKitSharedBridge.kt"
        );
        assert!(code.contains("package com.crosskit.shared"));
        assert!(code.contains("class CrossKitSharedBridge(initial: Int) : AutoCloseable"));
        assert!(code.contains("val app: AppViewModelBridge = AppViewModelBridge(initial)"));
        assert!(code.contains("val counter: CounterViewModelBridge = app.makeCounterVm()"));
        assert!(code.contains("val list: ListViewModelBridge = app.makeListVm()"));
        assert!(code.contains("private var closed = false"));
        assert!(code.contains("if (closed) return"));
        assert!(code.find("list.close()").unwrap() < code.find("counter.close()").unwrap());
        assert!(code.find("counter.close()").unwrap() < code.find("app.close()").unwrap());
        assert!(code.contains("@Composable"));
        assert!(
            code.contains("fun rememberCrossKitSharedBridge(initial: Int): CrossKitSharedBridge")
        );
        assert!(code.contains("val kit = remember(initial) { CrossKitSharedBridge(initial) }"));
        assert!(code.contains("DisposableEffect(kit)"));
        assert!(code.contains("onDispose { kit.close() }"));
    }

    #[test]
    fn generates_root_container_without_children() {
        let swift = generate_swift_root_container(&[app_metadata()], &bindings())
            .unwrap()
            .files
            .remove(0)
            .contents;
        let kotlin =
            generate_kotlin_root_container(&[app_metadata()], &bindings(), "com.crosskit.shared")
                .unwrap()
                .files
                .remove(0)
                .contents;

        assert!(swift.contains("public let app: AppViewModelBridge"));
        assert!(!swift.contains("public let counter"));
        assert!(!kotlin.contains("counter.close()"));
        assert!(kotlin.contains("app.close()"));
    }

    #[test]
    fn generates_zero_arg_root_container_without_children() {
        let mut root = app_metadata();
        root.methods.retain(|method| method.name != "new");
        root.methods
            .retain(|method| !method.name.starts_with("make_"));
        let swift = generate_swift_root_container(&[root.clone()], &bindings())
            .unwrap()
            .files
            .remove(0)
            .contents;
        let kotlin = generate_kotlin_root_container(&[root], &bindings(), "com.crosskit.shared")
            .unwrap()
            .files
            .remove(0)
            .contents;

        assert!(swift.contains("public init()"));
        assert!(swift.contains("let app = AppViewModelBridge()"));
        assert!(kotlin.contains("class CrossKitSharedBridge() : AutoCloseable"));
        assert!(kotlin.contains("val app: AppViewModelBridge = AppViewModelBridge()"));
        assert!(kotlin.contains("fun rememberCrossKitSharedBridge(): CrossKitSharedBridge"));
        assert!(kotlin.contains("val kit = remember(Unit) { CrossKitSharedBridge() }"));
    }

    #[test]
    fn rejects_root_graph_with_missing_bindings_or_metadata() {
        let mut empty_root = bindings();
        empty_root.root_vm.clear();
        let err = generate_swift_root_container(&[app_metadata()], &empty_root).unwrap_err();
        assert!(err.message().contains("[bindings].root_vm"));

        let mut empty_container = bindings();
        empty_container.container_name.clear();
        let err = generate_swift_root_container(&[app_metadata()], &empty_container).unwrap_err();
        assert!(err.message().contains("[bindings].container_name"));

        let err = generate_swift_root_container(&[], &bindings()).unwrap_err();
        assert!(err.message().contains("requires at least one VM"));

        let err = generate_swift_root_container(&[app_metadata(), app_metadata()], &bindings())
            .unwrap_err();
        assert!(err.message().contains("is ambiguous in metadata"));

        let mut orphan = state_metadata();
        orphan.factory = None;
        let err =
            generate_swift_root_container(&[app_metadata(), orphan], &bindings()).unwrap_err();
        assert!(err.message().contains("must be created by root VM"));
    }

    #[test]
    fn rejects_invalid_root_graph_contracts() {
        let err = generate_swift_root_container(&[state_metadata()], &bindings()).unwrap_err();
        assert!(
            err.message()
                .contains("root VM 'AppViewModel' was not found")
        );

        let mut root_with_factory = app_metadata();
        root_with_factory.factory = Some(FactoryMetadata {
            rust_type: "OtherRoot".to_string(),
            method: "make_app_vm".to_string(),
            bridge_name: "OtherRootBridge".to_string(),
        });
        let err = generate_swift_root_container(&[root_with_factory], &bindings()).unwrap_err();
        assert!(err.message().contains("must not be created by a factory"));

        let mut wrong_parent = state_metadata();
        wrong_parent.factory.as_mut().unwrap().rust_type = "OtherRoot".to_string();
        let err =
            generate_kotlin_root_container(&[app_metadata(), wrong_parent], &bindings(), "pkg")
                .unwrap_err();
        assert!(err.message().contains("factory points to 'OtherRoot'"));

        let mut wrong_factory_bridge = state_metadata();
        wrong_factory_bridge.factory.as_mut().unwrap().bridge_name = "OtherRootBridge".to_string();
        let err =
            generate_swift_root_container(&[app_metadata(), wrong_factory_bridge], &bindings())
                .unwrap_err();
        assert!(err.message().contains("does not match root bridge"));

        let mut missing_method = state_metadata();
        missing_method.factory.as_mut().unwrap().method = "make_missing_vm".to_string();
        let err = generate_swift_root_container(&[app_metadata(), missing_method], &bindings())
            .unwrap_err();
        assert!(err.message().contains("missing child factory method"));

        let mut arg_factory_root = app_metadata();
        arg_factory_root
            .methods
            .iter_mut()
            .find(|method| method.name == "make_counter_vm")
            .unwrap()
            .args
            .push(ArgMetadata {
                name: "id".to_string(),
                rust_type: "i64".to_string(),
            });
        let err = generate_swift_root_container(&[arg_factory_root, state_metadata()], &bindings())
            .unwrap_err();
        assert!(err.message().contains("must not accept arguments"));

        let mut wrong_return_root = app_metadata();
        wrong_return_root
            .methods
            .iter_mut()
            .find(|method| method.name == "make_counter_vm")
            .unwrap()
            .return_type = "Arc<WrongViewModel>".to_string();
        let err =
            generate_swift_root_container(&[wrong_return_root, state_metadata()], &bindings())
                .unwrap_err();
        assert!(
            err.message()
                .contains("must return Arc<CounterViewModel>")
        );

        let mut duplicate_bridge = child_list_metadata();
        duplicate_bridge.bridge_name = "CounterViewModelBridge".to_string();
        let err = generate_swift_root_container(
            &[app_metadata(), state_metadata(), duplicate_bridge],
            &bindings(),
        )
        .unwrap_err();
        assert!(err.message().contains("used by more than one VM"));

        for bad_container in ["123Bridge", "Cross-Kit", "class", "Self", "_"] {
            let mut bindings = bindings();
            bindings.container_name = bad_container.to_string();
            let err = generate_swift_root_container(&[app_metadata()], &bindings).unwrap_err();
            assert!(
                err.message()
                    .contains("[bindings].container_name must be a valid Swift/Kotlin identifier")
            );
        }

        let mut conflicting_bindings = bindings();
        conflicting_bindings.container_name = "AppViewModelBridge".to_string();
        let err =
            generate_swift_root_container(&[app_metadata()], &conflicting_bindings).unwrap_err();
        assert!(
            err.message()
                .contains("conflicts with generated bridge 'AppViewModelBridge'")
        );

        for generated_type in [
            "AppViewModel",
            "AppState",
            "AppObserver",
            "AppViewModelProtocol",
        ] {
            let mut bindings = bindings();
            bindings.container_name = generated_type.to_string();
            let err = generate_swift_root_container(&[app_metadata()], &bindings).unwrap_err();
            assert!(
                err.message()
                    .contains(&format!("conflicts with generated type '{generated_type}'"))
            );
        }

        let mut keyword_property = state_metadata();
        keyword_property.rust_type = "ClassViewModel".to_string();
        keyword_property.bridge_name = "ClassViewModelBridge".to_string();
        keyword_property.factory.as_mut().unwrap().method = "make_class_vm".to_string();
        let mut keyword_root = app_metadata();
        keyword_root.methods.push(MethodMetadata {
            name: "make_class_vm".to_string(),
            args: Vec::new(),
            return_type: "Arc<ClassViewModel>".to_string(),
        });
        let err = generate_swift_root_container(&[keyword_root, keyword_property], &bindings())
            .unwrap_err();
        assert!(
            err.message()
                .contains("root container property for VM 'ClassViewModel'")
        );

        let mut swift_keyword_root = app_metadata();
        swift_keyword_root.methods.push(MethodMetadata {
            name: "make_inout_vm".to_string(),
            args: Vec::new(),
            return_type: "Arc<InoutViewModel>".to_string(),
        });
        swift_keyword_root.methods.push(MethodMetadata {
            name: "make_precedencegroup_vm".to_string(),
            args: Vec::new(),
            return_type: "Arc<PrecedencegroupViewModel>".to_string(),
        });
        for (rust_type, bridge_name, factory_method) in [
            ("InoutViewModel", "InoutViewModelBridge", "make_inout_vm"),
            (
                "PrecedencegroupViewModel",
                "PrecedencegroupViewModelBridge",
                "make_precedencegroup_vm",
            ),
        ] {
            let mut keyword_child = state_metadata();
            keyword_child.rust_type = rust_type.to_string();
            keyword_child.bridge_name = bridge_name.to_string();
            keyword_child.factory.as_mut().unwrap().method = factory_method.to_string();
            let err = generate_swift_root_container(
                &[swift_keyword_root.clone(), keyword_child],
                &bindings(),
            )
            .unwrap_err();
            assert!(
                err.message()
                    .contains(&format!("root container property for VM '{rust_type}'"))
            );
        }

        let mut collision_root = app_metadata();
        collision_root.methods.push(MethodMetadata {
            name: "make_foo_vm".to_string(),
            args: Vec::new(),
            return_type: "Arc<FooViewModel>".to_string(),
        });
        collision_root.methods.push(MethodMetadata {
            name: "make_foo".to_string(),
            args: Vec::new(),
            return_type: "Arc<Foo>".to_string(),
        });
        let mut foo_vm = state_metadata();
        foo_vm.rust_type = "FooViewModel".to_string();
        foo_vm.bridge_name = "FooViewModelBridge".to_string();
        foo_vm.factory.as_mut().unwrap().method = "make_foo_vm".to_string();
        let mut foo = state_metadata();
        foo.rust_type = "Foo".to_string();
        foo.bridge_name = "FooBridge".to_string();
        foo.factory.as_mut().unwrap().method = "make_foo".to_string();
        let err =
            generate_swift_root_container(&[collision_root, foo_vm, foo], &bindings()).unwrap_err();
        assert!(
            err.message()
                .contains("both generate root container property 'foo'")
        );

        let mut reserved_root = app_metadata();
        reserved_root.methods.push(MethodMetadata {
            name: "make_cancellables_vm".to_string(),
            args: Vec::new(),
            return_type: "Arc<CancellablesViewModel>".to_string(),
        });
        reserved_root.methods.push(MethodMetadata {
            name: "make_closed_vm".to_string(),
            args: Vec::new(),
            return_type: "Arc<ClosedViewModel>".to_string(),
        });
        reserved_root.methods.push(MethodMetadata {
            name: "make_close_vm".to_string(),
            args: Vec::new(),
            return_type: "Arc<CloseViewModel>".to_string(),
        });
        reserved_root.methods.push(MethodMetadata {
            name: "make_object_will_change_vm".to_string(),
            args: Vec::new(),
            return_type: "Arc<ObjectWillChangeViewModel>".to_string(),
        });
        for (rust_type, bridge_name, factory_method, property) in [
            (
                "CancellablesViewModel",
                "CancellablesViewModelBridge",
                "make_cancellables_vm",
                "cancellables",
            ),
            (
                "ClosedViewModel",
                "ClosedViewModelBridge",
                "make_closed_vm",
                "closed",
            ),
            (
                "CloseViewModel",
                "CloseViewModelBridge",
                "make_close_vm",
                "close",
            ),
            (
                "ObjectWillChangeViewModel",
                "ObjectWillChangeViewModelBridge",
                "make_object_will_change_vm",
                "objectWillChange",
            ),
        ] {
            let mut reserved_child = state_metadata();
            reserved_child.rust_type = rust_type.to_string();
            reserved_child.bridge_name = bridge_name.to_string();
            reserved_child.factory.as_mut().unwrap().method = factory_method.to_string();
            let err = generate_swift_root_container(
                &[reserved_root.clone(), reserved_child],
                &bindings(),
            )
            .unwrap_err();
            assert!(err.message().contains(&format!("property '{property}'")));
            assert!(err.message().contains("is reserved by generated code"));
        }
    }

    #[test]
    fn rejects_unsupported_event_bridge_for_swift() {
        let mut metadata = list_metadata();
        metadata.mode = VmMode::Event;
        metadata.diff_type = None;
        metadata.list_item_type = None;
        assert_eq!(
            generate_swift_bridge_source(&metadata),
            Err(CodegenError::UnsupportedMode(VmMode::Event))
        );
        assert_eq!(
            generate_kotlin_bridge_source(&metadata, "com.crosskit.shared"),
            Err(CodegenError::UnsupportedMode(VmMode::Event))
        );
    }

    #[test]
    fn maps_rust_types_to_swift_types() {
        assert_eq!(map_type_to_swift("unit"), "Void");
        assert_eq!(map_type_to_swift("i64"), "Int64");
        assert_eq!(map_type_to_swift("SubscriptionId"), "Int64");
        assert_eq!(map_type_to_swift("cross_kit::SubscriptionId"), "Int64");
        assert_eq!(map_type_to_swift("crate::SubscriptionId"), "Int64");
        assert_eq!(map_type_to_swift("crate::runtime::SubscriptionId"), "Int64");
        assert_eq!(
            map_type_to_swift("other::runtime::SubscriptionId"),
            "other::runtime::SubscriptionId"
        );
        assert_eq!(map_type_to_swift("i32"), "Int32");
        assert_eq!(map_type_to_swift("u64"), "UInt64");
        assert_eq!(map_type_to_swift("u32"), "UInt32");
        assert_eq!(map_type_to_swift("bool"), "Bool");
        assert_eq!(map_type_to_swift("String"), "String");
        assert_eq!(map_type_to_swift("Option<Vec<i64>>"), "[Int64]?");
        assert_eq!(
            map_type_to_swift("Arc<CounterViewModel>"),
            "CounterViewModelProtocol"
        );
        assert_eq!(
            map_type_to_swift("Arc<AppViewModel>"),
            "AppViewModelProtocol"
        );
        assert_eq!(
            map_type_to_swift("std::sync::Arc<ListViewModel>"),
            "ListViewModelProtocol"
        );
        assert_eq!(
            map_type_to_swift("Arc<dyn CounterObserver>"),
            "CounterObserver"
        );
        assert_eq!(map_type_to_swift("CustomRecord"), "CustomRecord");
    }

    #[test]
    fn formats_method_names_and_indentation() {
        assert_eq!(to_swift_method_name("get_state"), "getState");
        assert_eq!(to_swift_method_name("append_now"), "appendNow");
        assert_eq!(to_swift_method_name("already"), "already");
        assert_eq!(to_swift_method_name(""), "");
        assert_eq!(
            to_kotlin_method_name("sort_by_timestamp_desc"),
            "sortByTimestampDesc"
        );
        assert_eq!(map_type_to_kotlin("Option<Vec<i64>>"), "List<Long>?");
        assert_eq!(map_type_to_kotlin("SubscriptionId"), "Long");
        assert_eq!(map_type_to_kotlin("cross_kit::SubscriptionId"), "Long");
        assert_eq!(map_type_to_kotlin("crate::SubscriptionId"), "Long");
        assert_eq!(map_type_to_kotlin("crate::runtime::SubscriptionId"), "Long");
        assert_eq!(
            map_type_to_kotlin("other::runtime::SubscriptionId"),
            "other::runtime::SubscriptionId"
        );
        assert_eq!(
            map_type_to_kotlin("Arc<dyn CounterObserver>"),
            "CounterObserver"
        );
        assert_eq!(
            map_type_to_kotlin("std::sync::Arc<dyn CounterObserver>"),
            "CounterObserver"
        );
        assert_eq!(map_type_to_kotlin("dyn CounterObserver"), "CounterObserver");
        assert_eq!(
            owned_arc_return_type("Arc<CounterViewModel>").as_deref(),
            Some("CounterViewModel")
        );
        assert_eq!(
            owned_arc_return_type("std::sync::Arc<ListViewModel>").as_deref(),
            Some("ListViewModel")
        );
        assert_eq!(owned_arc_return_type("Arc<dyn CounterObserver>").as_deref(), None);
        assert_eq!(
            kotlin_bridge_name_for_rust_type("CounterViewModel"),
            "CounterViewModelBridge"
        );
        assert_eq!(map_type_to_kotlin("u64"), "ULong");
        assert_eq!(map_type_to_kotlin("u32"), "UInt");
        assert_eq!(indent("a\n\nb", 2), "  a\n\n  b");
        assert_eq!(indent_optional("  ", 4), "");
        assert_eq!(indent_optional("x", 4), "    x");
        assert_eq!(property_name("ViewModel"), "viewModel");
        assert_eq!(property_name(""), "");
        assert!(!is_ascii_identifier(""));
    }

    #[test]
    fn state_bridge_handles_void_subscription_without_unsubscribe() {
        let mut metadata = state_metadata();
        metadata.factory = None;
        metadata
            .methods
            .retain(|method| method.name != "unsubscribe");
        metadata.methods[0].return_type = "unit".to_string();

        let code = generate_swift_bridge_source(&metadata).unwrap();

        assert!(code.contains("public init()"));
        assert!(code.contains("let vm = CounterViewModel()"));
        assert!(code.contains("vm.subscribe(observer: observer)"));
        assert!(!code.contains("observerId"));
        assert!(!code.contains("deinit"));
    }

    #[test]
    fn list_bridge_handles_subscription_id_without_unsubscribe() {
        let mut metadata = list_metadata();
        metadata.methods[0].return_type = "i64".to_string();

        let code = generate_swift_bridge_source(&metadata).unwrap();

        assert!(code.contains("private var observerId: Int64?"));
        assert!(code.contains("self.observerId = vm.subscribe(observer: observer)"));
        assert!(!code.contains("deinit"));
    }

    #[test]
    fn reports_invalid_metadata_and_formats_errors() {
        let mut metadata = state_metadata();
        metadata.state_type = Some("WrongState".to_string());

        let err = generate_swift_bridge(&metadata).unwrap_err();
        assert_eq!(
            err.message(),
            "metadata method `get_state` is invalid: return type must match state_type"
        );

        let converted = CodegenError::from(MetadataValidationError::MissingField("observer"));
        assert_eq!(
            converted.message(),
            "metadata field `observer` is required"
        );
        assert_eq!(
            CodegenError::UnsupportedMode(VmMode::Event).message(),
            "unsupported bridge mode: Event"
        );
    }

    #[test]
    fn rejects_swift_specific_subscribe_and_unsubscribe_shape_mismatches() {
        let mut missing_observer_arg = list_metadata();
        missing_observer_arg.methods[0].args.clear();
        assert_eq!(
            generate_swift_bridge_source(&missing_observer_arg),
            Err(CodegenError::InvalidMetadata(
                MetadataValidationError::InvalidMethodShape {
                    method: "subscribe",
                    reason: "must accept exactly one observer argument"
                }
            ))
        );

        let mut wrong_unsubscribe_arg = state_metadata();
        let unsubscribe = wrong_unsubscribe_arg
            .methods
            .iter_mut()
            .find(|method| method.name == "unsubscribe")
            .unwrap();
        unsubscribe.args[0].name = "token".to_string();
        assert_eq!(
            generate_swift_bridge_source(&wrong_unsubscribe_arg),
            Err(CodegenError::InvalidMetadata(
                MetadataValidationError::InvalidMethodShape {
                    method: "unsubscribe",
                    reason: "must accept exactly one id argument"
                }
            ))
        );

        let mut wrong_subscribe_arg_type = state_metadata();
        wrong_subscribe_arg_type.methods[0].args[0].rust_type = "i32".to_string();
        assert_eq!(
            generate_swift_bridge_source(&wrong_subscribe_arg_type),
            Err(CodegenError::InvalidMetadata(
                MetadataValidationError::InvalidMethodShape {
                    method: "subscribe",
                    reason: "observer argument type must match observer"
                }
            ))
        );

        let mut wrong_unsubscribe_arg_type = state_metadata();
        let unsubscribe = wrong_unsubscribe_arg_type
            .methods
            .iter_mut()
            .find(|method| method.name == "unsubscribe")
            .unwrap();
        unsubscribe.args[0].rust_type = "String".to_string();
        assert_eq!(
            generate_swift_bridge_source(&wrong_unsubscribe_arg_type),
            Err(CodegenError::InvalidMetadata(
                MetadataValidationError::InvalidMethodShape {
                    method: "unsubscribe",
                    reason: "id argument type must match subscribe return type"
                }
            ))
        );

        let mut wrong_unsubscribe_return = state_metadata();
        let unsubscribe = wrong_unsubscribe_return
            .methods
            .iter_mut()
            .find(|method| method.name == "unsubscribe")
            .unwrap();
        unsubscribe.return_type = "bool".to_string();
        assert_eq!(
            generate_swift_bridge_source(&wrong_unsubscribe_return),
            Err(CodegenError::InvalidMetadata(
                MetadataValidationError::InvalidMethodShape {
                    method: "unsubscribe",
                    reason: "must return unit"
                }
            ))
        );
    }

    #[test]
    fn formats_internal_initializer_signature() {
        let method = MethodMetadata {
            name: "new".to_string(),
            args: vec![ArgMetadata {
                name: "initial_count".to_string(),
                rust_type: "i32".to_string(),
            }],
            return_type: "Arc<Self>".to_string(),
        };

        assert_eq!(
            format_swift_signature(&method, false),
            "init(initialCount: Int32)"
        );
    }
