use cross_kit::android::{
    gradle_project_files, gradle_uri, package_layout, AndroidPackageOptions,
};
use cross_kit::attribute_swift::{
    generate_list_bridge, generate_state_bridge, generate_swift_bridge as attribute_swift_bridge,
    map_type_to_swift as attribute_swift_type,
};
use cross_kit::bridge_meta::{ArgInfo, MethodInfo, VmMetaLocal};
use cross_kit::codegen::GeneratedFile;
use cross_kit::config::{AndroidMavenConfig, BindingsConfig};
use cross_kit::ios::{
    coalesce_libraries, generate_swift_bridges, generated_binding_files, pick_lib_target,
    pick_package, single_generated_file, stale_manifests, swift_source_copies,
    xcframeworks_to_remove, BindingFileKind, CargoPackage, CargoTarget, LibraryMerge,
    OutputEntry, VmMeta,
};
use cross_kit::kotlin::generate_kotlin_sources;
use cross_kit::metadata::{
    ArgMetadata, FactoryMetadata, MethodMetadata, ObserverMetadata, VmMetadata, VmMode,
    VM_METADATA_SCHEMA_VERSION,
};

fn method(name: &str, args: &[(&str, &str)], return_type: &str) -> MethodMetadata {
    MethodMetadata {
        name: name.to_string(),
        args: args
            .iter()
            .map(|(n, t)| ArgMetadata {
                name: n.to_string(),
                rust_type: t.to_string(),
            })
            .collect(),
        return_type: return_type.to_string(),
    }
}

fn state_vm(
    rust_type: &str,
    observer: &str,
    state_type: &str,
    factory: Option<FactoryMetadata>,
    methods: Vec<MethodMetadata>,
) -> VmMetadata {
    VmMetadata {
        schema_version: VM_METADATA_SCHEMA_VERSION,
        rust_type: rust_type.to_string(),
        bridge_name: format!("{rust_type}Bridge"),
        mode: VmMode::State,
        observer: Some(ObserverMetadata {
            rust_type: observer.to_string(),
            method: "on_state".to_string(),
        }),
        state_type: Some(state_type.to_string()),
        diff_type: None,
        list_item_type: None,
        factory,
        methods,
    }
}

fn app_factory() -> Option<FactoryMetadata> {
    Some(FactoryMetadata {
        rust_type: "AppViewModel".to_string(),
        method: "make_counter_vm".to_string(),
        bridge_name: "AppViewModelBridge".to_string(),
    })
}

fn counter_ir() -> VmMetadata {
    state_vm(
        "CounterViewModel",
        "CounterObserver",
        "CounterState",
        app_factory(),
        vec![
            method("subscribe", &[("observer", "Arc<dyn CounterObserver>")], "i64"),
            method("unsubscribe", &[("id", "i64")], "unit"),
            method("get_state", &[], "CounterState"),
        ],
    )
}

fn app_ir() -> VmMetadata {
    state_vm(
        "AppViewModel",
        "AppObserver",
        "AppState",
        None,
        vec![
            method("subscribe", &[("observer", "Arc<dyn AppObserver>")], "i64"),
            method("get_state", &[], "AppState"),
            method("new", &[("initial", "i32")], "Arc<Self>"),
            method("make_counter_vm", &[], "Arc<CounterViewModel>"),
        ],
    )
}

fn android_counter_metadata() -> VmMetadata {
    state_vm(
        "CounterViewModel",
        "CounterObserver",
        "CounterState",
        app_factory(),
        vec![
            method("subscribe", &[("observer", "Arc<dyn CounterObserver>")], "i64"),
            method("get_state", &[], "CounterState"),
        ],
    )
}

fn vm_meta(ir: VmMetadata) -> VmMeta {
    let observer = ir.observer.clone().unwrap();
    VmMeta {
        swift_bridge: ir.bridge_name.clone(),
        mode: "state".to_string(),
        vm_type: ir.rust_type.clone(),
        observer: observer.rust_type,
        observer_method: observer.method,
        state_type: ir.state_type.clone().unwrap_or_default(),
        diff_type: ir.diff_type.clone().unwrap_or_default(),
        list_item_type: ir.list_item_type.clone().unwrap_or_default(),
        methods: Vec::new(),
        ir: Some(ir),
        swift_code: None,
    }
}

fn counter_meta_without_ir(swift_code: Option<&str>) -> VmMeta {
    VmMeta {
        swift_bridge: "CounterViewModelBridge".to_string(),
        mode: "state".to_string(),
        vm_type: "CounterViewModel".to_string(),
        observer: "CounterObserver".to_string(),
        observer_method: "on_state".to_string(),
        state_type: "CounterState".to_string(),
        diff_type: String::new(),
        list_item_type: String::new(),
        methods: Vec::new(),
        ir: None,
        swift_code: swift_code.map(ToString::to_string),
    }
}

fn bindings() -> Option<BindingsConfig> {
    Some(BindingsConfig {
        root_vm: "AppViewModel".to_string(),
        container_name: "CrossKitSharedBridge".to_string(),
    })
}

fn file<'a>(files: &'a [GeneratedFile], path: &str) -> &'a GeneratedFile {
    files
        .iter()
        .find(|f| f.path == path)
        .unwrap_or_else(|| panic!("no generated file {path}"))
}

fn android_options() -> AndroidPackageOptions {
    AndroidPackageOptions {
        crate_path: "/tmp/project/shared".to_string(),
        package_name: "com.crosskit.shared".to_string(),
        lib_name: "cross_kit_shared".to_string(),
        output: "/tmp/project/dist/android".to_string(),
        gradle_project: "/tmp/project/dist/android/gradle-project".to_string(),
        module_name: "crosskitshared".to_string(),
        gradle_executable: "/tmp/project/android/gradlew".to_string(),
        java_home: None,
        targets: vec!["arm64-v8a".to_string(), "x86_64".to_string()],
        build_mode: "release".to_string(),
        metadata_bin: "ck_vm_metadata".to_string(),
        maven: AndroidMavenConfig::default(),
        bindings: None,
    }
}

// ---------------------------------------------------------------------------
// Swift bridges of the iOS package.
// ---------------------------------------------------------------------------

#[test]
fn writes_swift_bridge_files_from_ir_codegen() {
    let files = generate_swift_bridges(vec![vm_meta(counter_ir())], &None).unwrap();

    assert_eq!(files.len(), 1);
    let content = &file(&files, "CounterViewModelBridge.swift").contents;
    assert!(content.contains("// Generated by cross-kit-codegen."));
    assert!(content.contains("public final class CounterViewModelBridge"));
}

#[test]
fn writes_swift_root_container_when_bindings_are_configured() {
    let metas = vec![vm_meta(app_ir()), vm_meta(counter_ir())];

    let files = generate_swift_bridges(metas, &bindings()).unwrap();

    let paths: Vec<&str> = files.iter().map(|f| f.path.as_str()).collect();
    assert_eq!(
        paths,
        vec![
            "AppViewModelBridge.swift",
            "CounterViewModelBridge.swift",
            "CrossKitSharedBridge.swift"
        ]
    );
    let root_code = &file(&files, "CrossKitSharedBridge.swift").contents;
    assert!(root_code.contains("public final class CrossKitSharedBridge"));
    assert!(root_code.contains("public let app: AppViewModelBridge"));
    assert!(root_code.contains("public let counter: CounterViewModelBridge"));
    assert!(root_code.contains("counter.objectWillChange.sink"));
}

#[test]
fn writes_swift_bridge_files_from_legacy_compatibility_field() {
    let meta = counter_meta_without_ir(Some("public final class CounterViewModelBridge {}"));

    let files = generate_swift_bridges(vec![meta], &None).unwrap();

    assert_eq!(
        file(&files, "CounterViewModelBridge.swift").contents,
        "public final class CounterViewModelBridge {}"
    );
}

#[test]
fn rejects_metadata_without_swift_code_during_compatibility_window() {
    let meta = counter_meta_without_ir(None);

    let err = generate_swift_bridges(vec![meta], &None).unwrap_err();

    assert!(err.message().contains("swift_code missing"));
}

#[test]
fn blank_embedded_swift_code_counts_as_missing() {
    let err = generate_swift_bridges(vec![counter_meta_without_ir(Some("  \n"))], &None)
        .unwrap_err();
    assert_eq!(err.message(), "swift_code missing for CounterViewModel");
}

#[test]
fn swift_bridge_errors_name_the_vm_and_the_codegen_error() {
    let mut ir = counter_ir();
    ir.mode = VmMode::Event;
    let err = generate_swift_bridges(vec![vm_meta(ir)], &None).unwrap_err();
    assert_eq!(
        err.message(),
        "failed to generate Swift bridge for CounterViewModel: unsupported bridge mode: Event"
    );
}

#[test]
fn swift_root_container_errors_are_reported_after_bridges() {
    let err = generate_swift_bridges(vec![vm_meta(counter_ir())], &bindings()).unwrap_err();
    assert!(err
        .message()
        .starts_with("failed to generate Swift root container: "));
}

// ---------------------------------------------------------------------------
// Kotlin sources of the Android package.
// ---------------------------------------------------------------------------

#[test]
fn writes_kotlin_sources_into_package_path() {
    let options = android_options();
    let metadata = state_vm(
        "CounterViewModel",
        "CounterObserver",
        "CounterState",
        None,
        vec![
            method("subscribe", &[("observer", "Arc<dyn CounterObserver>")], "i64"),
            method("get_state", &[], "CounterState"),
            method("unsubscribe", &[("id", "i64")], "unit"),
            method("__cross_kit_probe", &[], "unit"),
            method("on_state", &[], "unit"),
            method("increment_by", &[("delta_value", "i32")], "CounterState"),
        ],
    );

    let files = generate_kotlin_sources(&[metadata], &options.bindings, &options.package_name)
        .unwrap();

    assert_eq!(files.len(), 1);
    let bridge_code = &file(&files, "com/crosskit/shared/CounterViewModelBridge.kt").contents;
    assert!(bridge_code.contains("vm.close()"));
    assert!(bridge_code.contains("fun incrementBy(deltaValue: Int): CounterState"));
    assert!(!bridge_code.contains("fun getState"));
    assert!(!bridge_code.contains("fun subscribe"));
    assert!(!bridge_code.contains("fun unsubscribe"));
    assert!(!bridge_code.contains("fun __crossKitProbe"));
    assert!(!bridge_code.contains("/** Calls the Rust VM `on_state` action. */"));
    assert!(!bridge_code.contains("vm.onState("));
    assert!(!bridge_code.contains("\n            vm."));
    assert!(!bridge_code.contains("\n            return vm."));
}

#[test]
fn writes_kotlin_root_container_when_bindings_are_configured() {
    let mut options = android_options();
    options.bindings = bindings();

    let files = generate_kotlin_sources(
        &[app_ir(), android_counter_metadata()],
        &options.bindings,
        &options.package_name,
    )
    .unwrap();

    assert_eq!(files.len(), 3);
    assert_eq!(files[2].path, "com/crosskit/shared/CrossKitSharedBridge.kt");
    file(&files, "com/crosskit/shared/CounterViewModelBridge.kt");
    let root_code = &file(&files, "com/crosskit/shared/CrossKitSharedBridge.kt").contents;
    assert!(root_code.contains("class CrossKitSharedBridge(initial: Int) : AutoCloseable"));
    assert!(root_code.contains("val app: AppViewModelBridge = AppViewModelBridge(initial)"));
    assert!(root_code.contains("val counter: CounterViewModelBridge = app.makeCounterVm()"));
    assert!(root_code.contains("fun rememberCrossKitSharedBridge(initial: Int)"));
    assert!(root_code.contains("onDispose { kit.close() }"));
}

#[test]
fn kotlin_sources_stop_at_the_first_vm_without_a_bridge() {
    let mut bad = android_counter_metadata();
    bad.observer = None;
    let err = generate_kotlin_sources(&[app_ir(), bad], &None, "com.crosskit.shared").unwrap_err();
    assert_eq!(err.message(), "metadata field `observer` is required");
}

// ---------------------------------------------------------------------------
// The Gradle project.
// ---------------------------------------------------------------------------

#[test]
fn writes_gradle_project_with_fixed_android_dependencies() {
    let options = android_options();
    let layout = package_layout(&options);

    let files = gradle_project_files(&options, &layout, "/tmp/project/dist/android/maven");

    let root = "/tmp/project/dist/android/gradle-project";
    let module = "/tmp/project/dist/android/gradle-project/crosskitshared";
    let paths: Vec<&str> = files.iter().map(|f| f.path.as_str()).collect();
    assert_eq!(
        paths,
        vec![
            format!("{root}/settings.gradle.kts"),
            format!("{root}/gradle.properties"),
            format!("{root}/build.gradle.kts"),
            format!("{module}/build.gradle.kts"),
            format!("{module}/src/main/AndroidManifest.xml"),
            format!("{module}/consumer-rules.pro"),
        ]
    );
    let settings = &files[0].contents;
    let properties = &files[1].contents;
    let module_gradle = &files[3].contents;
    let manifest = &files[4].contents;
    assert!(settings.contains("include(\":crosskitshared\")"));
    assert!(properties.contains("android.useAndroidX=true"));
    assert!(module_gradle.contains("id(\"com.android.library\")"));
    assert!(module_gradle.contains("id(\"maven-publish\")"));
    assert!(module_gradle.contains("group = \"com.crosskit\""));
    assert!(module_gradle.contains("version = \"0.1.0\""));
    assert!(module_gradle.contains("artifactId = \"crosskitshared\""));
    assert!(module_gradle.contains("publish"));
    assert!(module_gradle.contains("compose = true"));
    assert!(module_gradle.contains("kotlinCompilerExtensionVersion = \"1.5.1\""));
    assert!(module_gradle.contains("api(\"androidx.compose.runtime:runtime\")"));
    assert!(module_gradle.contains("net.java.dev.jna:jna:5.14.0@aar"));
    assert!(module_gradle.contains("url = uri(\"/tmp/project/dist/android/maven\")"));
    assert!(manifest.contains("<manifest"));
    assert_eq!(files[5].contents, "");
}

#[test]
fn writes_gradle_project_with_configured_maven_coordinates() {
    let mut options = android_options();
    options.module_name = "internalshared".to_string();
    options.maven = AndroidMavenConfig {
        group_id: "com.example.sdk".to_string(),
        artifact_id: "public-shared".to_string(),
        version: "2.3.4".to_string(),
        artifact_id_explicit: true,
    };
    let layout = package_layout(&options);

    let files = gradle_project_files(&options, &layout, "/tmp/project/dist/android/maven");

    let settings = &files[0].contents;
    let module = &files[3].contents;
    assert!(settings.contains("include(\":internalshared\")"));
    assert!(module.contains("group = \"com.example.sdk\""));
    assert!(module.contains("version = \"2.3.4\""));
    assert!(module.contains("artifactId = \"public-shared\""));
    assert!(!module.contains("group = \"com.crosskit\""));
    assert!(!module.contains("version = \"0.1.0\""));
    assert!(!module.contains("artifactId = \"internalshared\""));
}

#[test]
fn gradle_uri_absolutizes_relative_maven_repo_paths() {
    let uri = gradle_uri("dist/android/maven", "/work/project");

    assert!(uri.starts_with('/'));
    assert!(uri.ends_with("dist/android/maven"));
    assert_eq!(uri, "/work/project/dist/android/maven");
}

#[test]
fn gradle_uri_keeps_absolute_paths_and_doubles_backslashes() {
    assert_eq!(gradle_uri("/abs/maven", "/work"), "/abs/maven");
    assert_eq!(gradle_uri("/a\\b", "/work"), "/a\\\\b");
}

// ---------------------------------------------------------------------------
// The package and library target of the iOS build.
// ---------------------------------------------------------------------------

fn target(name: &str, kinds: &[&str]) -> CargoTarget {
    CargoTarget {
        name: name.to_string(),
        kinds: kinds.iter().map(ToString::to_string).collect(),
    }
}

fn packages() -> Vec<CargoPackage> {
    vec![
        CargoPackage {
            name: "tool".to_string(),
            targets: vec![target("tool", &["bin"])],
        },
        CargoPackage {
            name: "shared".to_string(),
            targets: vec![
                target("ck_vm_metadata", &["bin"]),
                target("cross-kit-shared", &["staticlib", "cdylib", "lib"]),
            ],
        },
    ]
}

#[test]
fn picks_the_named_package_or_the_root_package() {
    let packages = packages();
    assert_eq!(pick_package(&packages, None, &Some("shared".to_string())).unwrap(), 1);
    assert_eq!(pick_package(&packages, Some(0), &None).unwrap(), 0);
    assert_eq!(
        pick_package(&packages, Some(0), &Some("missing".to_string()))
            .unwrap_err()
            .message(),
        "package 'missing' not found in workspace"
    );
    assert_eq!(
        pick_package(&packages, None, &None).unwrap_err().message(),
        "no root package found; use --package to select one"
    );
}

#[test]
fn picks_the_first_library_target() {
    let packages = packages();
    assert_eq!(pick_lib_target(&packages[1]).unwrap(), 1);
    assert_eq!(
        pick_lib_target(&packages[0]).unwrap_err().message(),
        "no lib target found in tool"
    );
}

// ---------------------------------------------------------------------------
// The bridge of the older attribute.
// ---------------------------------------------------------------------------

fn info(name: &str, args: &[(&str, &str)], ret: &str) -> MethodInfo {
    MethodInfo {
        name: name.to_string(),
        args: args
            .iter()
            .map(|(n, t)| ArgInfo {
                name: n.to_string(),
                ty: t.to_string(),
            })
            .collect(),
        ret: ret.to_string(),
    }
}

fn attribute_meta(mode: &str) -> VmMetaLocal {
    VmMetaLocal {
        swift_bridge: "CounterBridge".to_string(),
        mode: mode.to_string(),
        vm_type: "CounterViewModel".to_string(),
        observer: "CounterObserver".to_string(),
        observer_method: "on_state".to_string(),
        state_type: "CounterState".to_string(),
        diff_type: "ListDiff".to_string(),
        list_item_type: "ListItem".to_string(),
        factory_type: String::new(),
        factory_method: String::new(),
        factory_bridge: String::new(),
        methods: vec![
            info("new", &[("initial", "i32")], "Arc<Self>"),
            info("subscribe", &[("observer", "Arc<dyn CounterObserver>")], "i64"),
            info("unsubscribe", &[("id", "i64")], "unit"),
            info("increment_by", &[("delta_value", "i32")], "CounterState"),
        ],
    }
}

#[test]
fn attribute_maps_every_arc_to_a_protocol() {
    assert_eq!(attribute_swift_type(" Arc<dyn CounterObserver> "), "dyn CounterObserverProtocol");
    assert_eq!(attribute_swift_type("std::sync::Arc<Counter>"), "CounterProtocol");
    assert_eq!(attribute_swift_type("Option<Vec<u64>>"), "[UInt64]?");
    assert_eq!(attribute_swift_type("SubscriptionId"), "SubscriptionId");
    assert_eq!(attribute_swift_type("unit"), "Void");
}

#[test]
fn attribute_state_bridge_forwards_methods_and_unsubscribes() {
    let code = generate_state_bridge(&attribute_meta("state"));
    assert!(code.starts_with("// Generated by ck-vm-macros.\nimport Combine\nimport Foundation\n\n"));
    assert!(code.contains("public final class CounterBridge: ObservableObject, CounterObserver {"));
    assert!(code.contains("@Published public private(set) var state: CounterState"));
    assert!(code.contains("    private var observerId: Int64?\n"));
    assert!(code.contains("    public init(initial: Int32) {\n        let vm = CounterViewModel(initial: initial)\n"));
    assert!(code.contains("        self.observerId = vm.subscribe(observer: observer)\n"));
    assert!(code.contains(
        "    public func incrementBy(deltaValue: Int32) -> CounterState {\n            return vm.incrementBy(deltaValue: deltaValue)\n        }\n"
    ));
    assert!(code.contains("\n\n        deinit {\n            if let id = observerId {\n                vm.unsubscribe(id: id)\n            }\n        }\n}\n"));
    assert!(!code.contains("func subscribe"));
    assert_eq!(attribute_swift_bridge(&attribute_meta("state")), code);
}

#[test]
fn attribute_list_bridge_adjusts_forward_moves() {
    let mut meta = attribute_meta("diff_list");
    meta.factory_type = "AppViewModel".to_string();
    meta.factory_method = "make_list_vm".to_string();
    let code = generate_list_bridge(&meta);
    assert!(code.contains("@Published public private(set) var items: [ListItem] = []"));
    assert!(code.contains("    public init(app: AppViewModelBridge) {\n        let vm = app.makeListVm()\n"));
    assert!(code.contains("let adjusted = fromIdx < toIdx ? toIdx - 1 : toIdx"));
    assert!(code.contains("    func onState(diffs: [ListDiff]) {\n        Task { @MainActor [weak owner] in\n            owner?.onState(diffs: diffs)\n"));
    assert_eq!(attribute_swift_bridge(&meta), code);
}

#[test]
fn attribute_generates_nothing_for_other_modes() {
    assert_eq!(attribute_swift_bridge(&attribute_meta("event")), "");
    assert_eq!(attribute_swift_bridge(&attribute_meta("")), "");
}

#[test]
fn kotlin_bridge_forwards_methods_at_member_indentation() {
    let metadata = state_vm(
        "CounterViewModel",
        "CounterObserver",
        "CounterState",
        None,
        vec![
            method("subscribe", &[("observer", "Arc<dyn CounterObserver>")], "i64"),
            method("get_state", &[], "CounterState"),
            method("on_state", &[], "unit"),
            method("increment_by", &[("delta_value", "i32")], "CounterState"),
            method("reset", &[], "unit"),
        ],
    );
    let files = generate_kotlin_sources(&[metadata], &None, "com.crosskit.shared").unwrap();
    let code = &files[0].contents;
    assert!(code.contains(
        "    fun incrementBy(deltaValue: Int): CounterState {\n        return vm.incrementBy(deltaValue)\n    }\n\n    fun reset(): Unit {\n        vm.reset()\n    }\n"
    ));
    assert!(code.contains("    override fun onState(state: CounterState) {"));
    assert!(!code.contains("fun onState(): Unit"));
}

// ---------------------------------------------------------------------------
// UniFFI output files.
// ---------------------------------------------------------------------------

fn entries(dir: &str, names: &[&str]) -> Vec<OutputEntry> {
    names
        .iter()
        .map(|name| OutputEntry {
            path: format!("{dir}/{name}"),
            is_file: !name.ends_with('/'),
        })
        .collect()
}

#[test]
fn resolves_uniffi_outputs_named_after_crate() {
    let dir = "/tmp/ck-swift-packager-exact-uniffi-names";
    let listing = entries(
        dir,
        &["cross_kit_shared.swift", "cross_kit_sharedFFI.h", "cross_kit_sharedFFI.modulemap"],
    );

    let files = generated_binding_files(&listing, dir, "cross_kit_shared").unwrap();

    assert_eq!(files.swift_file_name, "cross_kit_shared.swift");
    assert_eq!(files.ffi_header_file_name, "cross_kit_sharedFFI.h");
    assert_eq!(files.swift_source, format!("{dir}/cross_kit_shared.swift"));
    assert_eq!(files.ffi_header, format!("{dir}/cross_kit_sharedFFI.h"));
    assert_eq!(files.ffi_modulemap, format!("{dir}/cross_kit_sharedFFI.modulemap"));
}

#[test]
fn resolves_uniffi_outputs_named_after_swift_module() {
    let dir = "/tmp/ck-swift-packager-module-uniffi-names";
    let listing = entries(
        dir,
        &[
            "CrossKitMinimalCounterShared.swift",
            "CrossKitMinimalCounterSharedFFI.h",
            "CrossKitMinimalCounterSharedFFI.modulemap",
        ],
    );

    let files = generated_binding_files(&listing, dir, "cross_kit_minimal_counter_shared").unwrap();

    assert_eq!(files.swift_file_name, "CrossKitMinimalCounterShared.swift");
    assert_eq!(files.ffi_header_file_name, "CrossKitMinimalCounterSharedFFI.h");
    assert_eq!(files.swift_source, format!("{dir}/CrossKitMinimalCounterShared.swift"));
    assert_eq!(files.ffi_header, format!("{dir}/CrossKitMinimalCounterSharedFFI.h"));
    assert_eq!(
        files.ffi_modulemap,
        format!("{dir}/CrossKitMinimalCounterSharedFFI.modulemap")
    );
}

#[test]
fn generated_files_must_be_unique_and_present() {
    let dir = "/out";
    let two = entries(dir, &["A.swift", "B.swift", "AFFI.h"]);
    assert_eq!(
        single_generated_file(&two, dir, BindingFileKind::SwiftSource)
            .unwrap_err()
            .message(),
        "Swift source generated by UniFFI is ambiguous in /out"
    );
    assert_eq!(
        single_generated_file(&two, dir, BindingFileKind::FfiModulemap)
            .unwrap_err()
            .message(),
        "FFI modulemap generated by UniFFI was not found in /out"
    );
    assert_eq!(
        single_generated_file(&two, dir, BindingFileKind::FfiHeader).unwrap(),
        "/out/AFFI.h"
    );
    let no_ffi_stem = entries(dir, &["A.h", "dir.swift/"]);
    assert!(single_generated_file(&no_ffi_stem, dir, BindingFileKind::FfiHeader).is_err());
    assert!(single_generated_file(&no_ffi_stem, dir, BindingFileKind::SwiftSource).is_err());
    assert_eq!(
        generated_binding_files(&two, dir, "crate").unwrap_err().message(),
        "Swift source generated by UniFFI is ambiguous in /out"
    );
}

#[test]
fn coalesces_single_arch_libraries_without_lipo() {
    let libs = vec![
        "/tmp/libcross_kit_shared_ios.a".to_string(),
        "/tmp/libcross_kit_shared_sim.a".to_string(),
    ];
    let targets = vec![
        "aarch64-apple-ios".to_string(),
        "aarch64-apple-ios-sim".to_string(),
    ];

    let coalesced = coalesce_libraries(&targets, &libs, "/tmp/ck-swift-packager-lipo-root").unwrap();

    assert_eq!(
        coalesced,
        vec![
            LibraryMerge::Single(libs[0].clone()),
            LibraryMerge::Single(libs[1].clone())
        ]
    );
}

// ---------------------------------------------------------------------------
// Cleaning and copying inside the iOS package.
// ---------------------------------------------------------------------------

#[test]
fn removes_stale_manifests_before_writing_selected_format() {
    let dir = "/tmp/ck-swift-packager-stale-manifests";
    let listing = entries(dir, &["Package.swift", "OldPackage.podspec", "notes.txt"]);

    let removed = stale_manifests(dir, &listing);

    assert_eq!(
        removed,
        vec![format!("{dir}/Package.swift"), format!("{dir}/OldPackage.podspec")]
    );
    assert!(!removed.contains(&format!("{dir}/notes.txt")));
    assert!(stale_manifests(dir, &entries(dir, &["notes.txt"])).is_empty());
}

#[test]
fn removes_stale_xcframeworks_before_copying_selected_binary() {
    let dir = "/tmp/ck-swift-packager-stale-xcframeworks";
    let listing = entries(
        dir,
        &["OldFFI.xcframework/", "CurrentFFI.xcframework/", "notes.txt"],
    );

    let removed = xcframeworks_to_remove(&listing, &None);

    assert_eq!(
        removed,
        vec![
            format!("{dir}/OldFFI.xcframework/"),
            format!("{dir}/CurrentFFI.xcframework/")
        ]
    );
}

#[test]
fn preserves_staged_xcframework_during_replacement_cleanup() {
    let dir = "/tmp/ck-swift-packager-keep-staged-xcframework";
    let staged = format!("{dir}/._CurrentFFI.next.xcframework");
    let listing = vec![
        OutputEntry {
            path: format!("{dir}/OldFFI.xcframework"),
            is_file: false,
        },
        OutputEntry {
            path: staged.clone(),
            is_file: false,
        },
    ];

    let removed = xcframeworks_to_remove(&listing, &Some(staged.clone()));

    assert_eq!(removed, vec![format!("{dir}/OldFFI.xcframework")]);
}

#[test]
fn copies_only_generated_swift_sources() {
    let listing = entries("/gen/sources", &["cross_kit_shared.swift", "notes.txt"]);
    let copies = swift_source_copies(&listing, "/dest").unwrap();
    assert_eq!(
        copies,
        vec![(
            "/gen/sources/cross_kit_shared.swift".to_string(),
            "/dest/cross_kit_shared.swift".to_string()
        )]
    );
}
