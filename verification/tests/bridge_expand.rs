use cross_kit::attr_args::{scan_options, ArgToken};
use cross_kit::bridge_expand::{
    add_option, attribute_options, bridge_options, build_expansion, build_legacy_expansion,
    expand_legacy_vm_bridge, expand_vm_bridge, impl_methods, method_info,
    AttrOptions, OptionValue, ParsedMethod,
};
use cross_kit::bridge_meta::{
    normalize_rust_type, parse_type_path, PathArg, PathSegmentInfo, VmMetaLocal,
};

fn value<'a>(options: &'a AttrOptions, key: &str) -> &'a str {
    options
        .values
        .iter()
        .rev()
        .find(|(k, _)| k == key)
        .map(|(_, v)| v.as_str())
        .unwrap()
}

fn empty_meta() -> VmMetaLocal {
    bridge_options(&Vec::new(), Vec::new(), "ListViewModel".to_string(), true)
}

#[test]
fn parses_string_macro_args_with_trailing_comma_and_aliases() {
    let args = attribute_options(
        r#"mode = "state", bridge_name = "CounterBridge", factory_bridge_name = "AppBridge","#,
        true,
    )
    .unwrap();

    assert_eq!(value(&args, "mode"), "state");
    let meta = bridge_options(&args.values, Vec::new(), "CounterViewModel".to_string(), true);
    assert_eq!(meta.swift_bridge, "CounterBridge");
    assert_eq!(meta.factory_bridge, "AppBridge");
}

#[test]
fn parses_mixed_string_and_path_macro_args() {
    let args = attribute_options(
        r#"mode = "state", bridge = "CustomCounterBridge", factory = AppViewModel::make_counter_vm, diff = types::ListDiff, item = types::ListItem,"#,
        true,
    )
    .unwrap();

    assert_eq!(value(&args, "mode"), "state");
    assert_eq!(value(&args, "bridge"), "CustomCounterBridge");
    assert_eq!(
        normalize_rust_type(&args.factory.as_ref().unwrap().printed),
        "AppViewModel::make_counter_vm"
    );
    assert_eq!(
        parse_type_path(args.diff.as_ref().unwrap(), "diff").unwrap(),
        "ListDiff"
    );
    assert_eq!(
        parse_type_path(args.item.as_ref().unwrap(), "item").unwrap(),
        "ListItem"
    );
}

#[test]
fn attribute_options_refuse_values_of_the_wrong_kind() {
    assert!(attribute_options("mode = state", true).is_err());
    assert!(attribute_options(r#"factory = "AppViewModel::make""#, true).is_err());
    assert_eq!(
        attribute_options(r#"a::b = "x""#, true).err().unwrap(),
        "expected `=`"
    );
    // Without path options every value is a string literal.
    let legacy = attribute_options(r#"factory = "AppViewModel::make""#, false).unwrap();
    assert_eq!(value(&legacy, "factory"), "AppViewModel::make");
    assert!(legacy.factory.is_none());
    // The last value given for an option counts.
    let twice = attribute_options(r#"mode = "state", mode = "diff_list""#, true).unwrap();
    let meta = bridge_options(&twice.values, Vec::new(), "Vm".to_string(), true);
    assert_eq!(meta.mode, "diff_list");
    assert_eq!(empty_meta().swift_bridge, "");
}

#[test]
fn bridge_name_aliases_keep_their_precedence() {
    let args = attribute_options(
        r#"swift_bridge = "C", bridge_name = "B", bridge = "A", factory_bridge_name = "F2", factory_bridge = "F1""#,
        true,
    )
    .unwrap();
    let meta = bridge_options(&args.values, Vec::new(), "Vm".to_string(), true);
    assert_eq!(meta.swift_bridge, "A");
    assert_eq!(meta.factory_bridge, "F1");
    let legacy = bridge_options(&args.values, Vec::new(), "Vm".to_string(), false);
    assert_eq!(legacy.swift_bridge, "C");
    assert_eq!(legacy.factory_bridge, "F1");
    let args = attribute_options(r#"swift_bridge = "C", bridge_name = "B""#, true).unwrap();
    let meta = bridge_options(&args.values, Vec::new(), "Vm".to_string(), true);
    assert_eq!(meta.swift_bridge, "B");
}

const COUNTER_IMPL: &str = r#"
impl CounterViewModel {
    fn private_helper(&self) -> bool {
        true
    }

    pub fn subscribe(&self, observer: Arc<dyn CounterObserver>) -> i64 {
        drop(observer);
        1
    }

    pub fn get_state(&self) -> CounterState {
        CounterState { value: 0 }
    }

    pub fn reset(&self) {}
}
"#;

#[test]
fn expand_vm_bridge_builds_metadata_impl_and_ignores_private_methods() {
    let expansion = expand_vm_bridge(r#"mode = "state""#, COUNTER_IMPL).unwrap();

    assert_eq!(expansion.self_ty, "CounterViewModel");
    assert_eq!(expansion.meta.swift_bridge, "CounterViewModelBridge");
    assert_eq!(expansion.meta.observer, "CounterObserver");
    let names: Vec<&str> = expansion.meta.methods.iter().map(|m| m.name.as_str()).collect();
    assert_eq!(names, vec!["subscribe", "get_state", "reset"]);
    assert!(expansion.swift_code.contains("CounterViewModelBridge"));
    assert!(expansion.swift_code.contains("CounterObserver"));
}

#[test]
fn expand_vm_bridge_falls_back_to_arg_for_non_ident_patterns() {
    let expansion = expand_vm_bridge(
        r#"mode = "state", state_type = "CounterState""#,
        r#"
impl CounterViewModel {
    pub fn subscribe(&self, observer: Arc<dyn CounterObserver>) -> i64 {
        drop(observer);
        1
    }

    pub fn get_state(&self) -> CounterState {
        CounterState { value: 0 }
    }

    pub fn replace_state(&self, (next, _): (CounterState, bool)) -> CounterState {
        next
    }
}
"#,
    )
    .unwrap();

    assert_eq!(expansion.meta.methods[2].args[0].name, "arg");
    assert_eq!(expansion.meta.methods[2].args[0].ty, "(CounterState, bool)");
}

#[test]
fn expand_vm_bridge_returns_compile_error_for_invalid_metadata() {
    let error = expand_vm_bridge(
        r#"mode = "state""#,
        r#"
impl BrokenViewModel {
    pub fn subscribe(&self, callback: Arc<dyn CounterObserver>) -> i64 {
        drop(callback);
        1
    }
}
"#,
    )
    .err()
    .unwrap();

    assert!(error.contains("subscribe must accept exactly one `observer` argument"));
}

#[test]
fn impl_methods_spell_types_and_skip_receivers() {
    let items = vec![
        "pub fn subscribe (& self , observer : std :: sync :: Arc < dyn CounterObserver >) -> i64 { 1 }".to_string(),
        "pub fn reset (& mut self) { }".to_string(),
        "const LIMIT : i32 = 3 ;".to_string(),
        "fn hidden (& self) -> bool { true }".to_string(),
    ];
    let methods = impl_methods(&items, false).unwrap();
    assert_eq!(methods.len(), 2);
    assert_eq!(methods[0].args.len(), 1);
    assert_eq!(methods[0].args[0].name, "observer");
    assert_eq!(methods[0].args[0].ty, "std::sync::Arc<dyn CounterObserver>");
    assert_eq!(methods[0].ret, "i64");
    assert_eq!(methods[1].ret, "unit");
    let collapsed = impl_methods(&items, true).unwrap();
    assert_eq!(collapsed[0].args[0].ty, "std::sync::Arc<dynCounterObserver>");
    assert!(impl_methods(&vec!["pub fn broken (".to_string()], false).is_err());
}

#[test]
fn legacy_expansion_removes_spaces_and_keeps_options_as_written() {
    let expansion = expand_legacy_vm_bridge(
        r#"swift_bridge = "CounterBridge", mode = "state", observer = "CounterObserver", observer_method = "on_state", state_type = "CounterState", bridge = "Ignored""#,
        r#"
impl CounterViewModel {
    pub fn subscribe(&self, observer: Arc<dyn CounterObserver>) -> i64 { 1 }
    pub fn get_state(&self) -> CounterState { CounterState { value: 0 } }
    fn hidden(&self) {}
}
"#,
    )
    .unwrap();

    assert_eq!(expansion.self_ty, "CounterViewModel");
    assert_eq!(expansion.meta.vm_type, "CounterViewModel");
    assert_eq!(expansion.meta.swift_bridge, "CounterBridge");
    assert_eq!(expansion.meta.methods.len(), 2);
    assert_eq!(expansion.meta.methods[0].args[0].ty, "Arc<dynCounterObserver>");
    assert!(expansion.swift_code.contains("CounterBridge"));
    assert!(expand_legacy_vm_bridge("factory = AppViewModel::make", "impl A {}").is_err());
}

const EXAMPLE_COUNTER_ARGS: &str = r#"swift_bridge = "CounterViewModelBridge", mode = "state", observer = "CounterObserver", observer_method = "on_state", state_type = "CounterState""#;

const EXAMPLE_COUNTER_IMPL: &str = r#"
#[uniffi::export]
impl CounterViewModel {
    #[uniffi::constructor]
    pub fn new(initial: i32) -> Arc<Self> {
        Arc::new(Self { state: Arc::new(Mutex::new(CounterState { value: initial })), observers: Arc::new(Mutex::new(Vec::new())) })
    }
    pub fn subscribe(&self, observer: Arc<dyn CounterObserver>) {
        let current = self.get_state();
        observer.on_state(current);
    }
    pub fn increment(&self) -> CounterState {
        let new_state = self.get_state();
        self.notify_state(&new_state);
        new_state
    }
    pub fn get_state(&self) -> CounterState {
        let state = self.state.lock().expect("state lock poisoned");
        state.clone()
    }
}
"#;

const EXAMPLE_LIST_ARGS: &str = r#"swift_bridge = "ListViewModelBridge", mode = "diff_list", observer = "ListObserver", observer_method = "on_diffs", diff_type = "ListDiff", list_item_type = "ListItem""#;

const EXAMPLE_LIST_IMPL: &str = r#"
#[uniffi::export]
impl ListViewModel {
    #[uniffi::constructor]
    pub fn new() -> Arc<Self> { Arc::new(Self::default()) }
    pub fn subscribe(&self, observer: Arc<dyn ListObserver>) {}
    pub fn len(&self) -> i64 { 0 }
    pub fn append_now(&self) -> ListItem { self.insert_now(0).unwrap() }
    pub fn insert_now(&self, index: i64) -> Option<ListItem> { None }
    pub fn insert_with_timestamp(&self, index: i64, timestamp_ms: i64) -> Option<ListItem> { None }
    pub fn update_with_timestamp(&self, index: i64, timestamp_ms: i64) -> Option<ListItem> { None }
    pub fn remove_at(&self, index: i64) -> Option<ListItem> { None }
    pub fn move_item(&self, from: i64, to: i64) -> bool { false }
    pub fn sort_by_timestamp_desc(&self) -> bool { false }
    pub fn apply_diffs(&self, diffs: Vec<ListDiff>) -> bool { true }
}
"#;

#[test]
fn vm_metadata_includes_counter_and_list() {
    let counter = expand_legacy_vm_bridge(EXAMPLE_COUNTER_ARGS, EXAMPLE_COUNTER_IMPL).unwrap();
    assert_eq!(counter.meta.vm_type, "CounterViewModel");
    assert_eq!(counter.meta.mode, "state");
    assert_eq!(counter.meta.observer, "CounterObserver");

    let list = expand_legacy_vm_bridge(EXAMPLE_LIST_ARGS, EXAMPLE_LIST_IMPL).unwrap();
    assert_eq!(list.meta.vm_type, "ListViewModel");
    assert_eq!(list.meta.mode, "diff_list");
    assert_eq!(list.meta.observer, "ListObserver");
    assert!(list.meta.methods.iter().any(|m| m.name == "move_item"));
}

#[test]
fn metadata_contains_swift_code() {
    for (args, input) in [
        (EXAMPLE_COUNTER_ARGS, EXAMPLE_COUNTER_IMPL),
        (EXAMPLE_LIST_ARGS, EXAMPLE_LIST_IMPL),
    ] {
        let expansion = expand_legacy_vm_bridge(args, input).unwrap();
        assert!(!expansion.swift_code.trim().is_empty());
    }
}

#[test]
fn method_info_keeps_public_functions_and_fills_defaults() {
    let parsed = ParsedMethod {
        is_public: true,
        name: "replace".to_string(),
        args: vec![
            "& self".to_string(),
            "(a , b) : (i32 , bool)".to_string(),
            "observer : Arc < dyn Obs >".to_string(),
        ],
        ret: None,
    };
    let read = vec![
        None,
        Some((None, "(i32 , bool)".to_string())),
        Some((Some("observer".to_string()), "Arc < dyn Obs >".to_string())),
    ];
    let m = method_info(&parsed, &read, false).unwrap();
    assert_eq!(m.name, "replace");
    assert_eq!(m.ret, "unit");
    assert_eq!(m.args.len(), 2);
    assert_eq!(m.args[0].name, "arg");
    assert_eq!(m.args[0].ty, "(i32, bool)");
    assert_eq!(m.args[1].ty, "Arc<dyn Obs>");
    let collapsed = method_info(&parsed, &read, true).unwrap();
    assert_eq!(collapsed.args[1].ty, "Arc<dynObs>");
    let private = ParsedMethod { is_public: false, ..parsed };
    assert!(method_info(&private, &read, false).is_none());
}

#[test]
fn options_are_sorted_and_recorded() {
    let mut options = attribute_options("", true).unwrap();
    add_option(&mut options, "mode".to_string(), OptionValue::Str("state".to_string()));
    add_option(
        &mut options,
        "diff".to_string(),
        OptionValue::Path(PathArg {
            segments: vec![PathSegmentInfo { ident: "ListDiff".to_string(), plain: true }],
            printed: "ListDiff".to_string(),
        }),
    );
    assert_eq!(options.values, vec![("mode".to_string(), "state".to_string())]);
    assert_eq!(options.diff.as_ref().unwrap().printed, "ListDiff");
    assert!(options.factory.is_none());
}

#[test]
fn build_expansion_completes_metadata_from_what_was_read() {
    let options = attribute_options(r#"mode = "state""#, true).unwrap();
    let items = vec![
        "pub fn subscribe (& self , observer : Arc < dyn CounterObserver >) -> i64 { 1 }".to_string(),
        "pub fn get_state (& self) -> CounterState { CounterState { value : 0 } }".to_string(),
    ];
    let methods = impl_methods(&items, false).unwrap();
    let expansion = build_expansion(&options, "CounterViewModel".to_string(), methods).unwrap();
    assert_eq!(expansion.meta.swift_bridge, "CounterViewModelBridge");
    assert_eq!(expansion.meta.observer, "CounterObserver");
    assert_eq!(expansion.meta.state_type, "CounterState");
    let legacy = build_legacy_expansion(&options, "Counter < T >".to_string(), Vec::new());
    assert_eq!(legacy.meta.vm_type, "Counter<T>");
    assert_eq!(legacy.meta.mode, "state");
}

#[test]
fn option_names_may_be_raw_or_non_ascii_identifiers() {
    let options = attribute_options(r#"r#type = "a", größe = "b""#, true).unwrap();
    assert_eq!(value(&options, "r#type"), "a");
    assert_eq!(value(&options, "größe"), "b");
}

#[test]
fn options_without_commas_and_generic_paths_are_read() {
    let options = attribute_options(
        r#"mode = "state" bridge = "B" factory = ::app::AppViewModel::make diff = Vec<ListDiff>"#,
        true,
    )
    .unwrap();
    assert_eq!(value(&options, "mode"), "state");
    assert_eq!(value(&options, "bridge"), "B");
    let factory = options.factory.as_ref().unwrap();
    let idents: Vec<&str> = factory.segments.iter().map(|s| s.ident.as_str()).collect();
    assert_eq!(idents, vec!["app", "AppViewModel", "make"]);
    assert_eq!(normalize_rust_type(&factory.printed), ":: app::AppViewModel::make");
    let diff = options.diff.as_ref().unwrap();
    assert_eq!(diff.segments.len(), 1);
    assert!(!diff.segments[0].plain);
    assert_eq!(
        parse_type_path(diff, "diff").unwrap_err(),
        "diff path must be a plain Rust type path"
    );
}

#[test]
fn scan_options_reports_what_is_missing() {
    let ident = |s: &str| ArgToken::Ident(s.to_string());
    let punct = |c: char, joint: bool| ArgToken::Punct(c, joint);
    let lit = |s: &str| ArgToken::Literal(s.to_string());
    assert_eq!(scan_options(&vec![lit("\"x\"")], true).err().unwrap(), "expected identifier");
    assert_eq!(scan_options(&vec![ident("mode"), lit("\"x\"")], true).err().unwrap(), "expected `=`");
    assert_eq!(
        scan_options(&vec![ident("mode"), punct('=', false), ident("state")], true).err().unwrap(),
        "expected string literal"
    );
    assert_eq!(
        scan_options(&vec![ident("item"), punct('=', false), ident("Vec"), punct('<', false), ident("T")], true)
            .err()
            .unwrap(),
        "expected `>`"
    );
    let read = scan_options(
        &vec![ident("mode"), punct('=', false), lit("\"state\""), punct(',', false)],
        true,
    )
    .unwrap();
    assert_eq!(read.len(), 1);
    assert_eq!(read[0].0, "mode");
}
