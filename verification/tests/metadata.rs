use cross_kit::config::{
    default_android_maven_artifact_id, default_android_maven_group_id,
    default_android_maven_version, default_android_targets, default_ios_targets,
    default_metadata_bin, default_release, default_spm, default_static_lib, default_true,
};
use cross_kit::metadata::{
    ArgMetadata, FactoryMetadata, MetadataValidationError, MethodMetadata, ObserverMetadata,
    VmMetadata, VmMode, CONFIG_FILE_NAME, VM_METADATA_SCHEMA_VERSION,
};

    #[test]
    fn config_file_name_matches_cli_contract() {
        assert_eq!(CONFIG_FILE_NAME, "cross-kit.toml");
    }

    #[test]
    fn default_config_helpers_match_public_contract() {
        assert_eq!(default_metadata_bin(), "ck_vm_metadata");
        assert_eq!(
            default_ios_targets(),
            vec!["ios".to_string(), "ios-sim".to_string()]
        );
        assert_eq!(
            default_android_targets(),
            vec!["arm64-v8a".to_string(), "x86_64".to_string()]
        );
        assert_eq!(default_android_maven_group_id(), "com.crosskit");
        assert_eq!(default_android_maven_artifact_id(), "crosskitshared");
        assert_eq!(default_android_maven_version(), "0.1.0");
        assert_eq!(default_release(), "release");
        assert_eq!(default_static_lib(), "static");
        assert_eq!(default_spm(), "spm");
        assert!(default_true());
    }

    #[test]
    fn rejects_state_metadata_without_required_get_state_method() {
        let metadata = VmMetadata {
            schema_version: VM_METADATA_SCHEMA_VERSION,
            rust_type: "CounterViewModel".to_string(),
            bridge_name: "CounterViewModelBridge".to_string(),
            mode: VmMode::State,
            observer: Some(ObserverMetadata {
                rust_type: "CounterObserver".to_string(),
                method: "on_state".to_string(),
            }),
            state_type: Some("CounterState".to_string()),
            diff_type: None,
            list_item_type: None,
            factory: None,
            methods: vec![MethodMetadata {
                name: "subscribe".to_string(),
                args: vec![ArgMetadata {
                    name: "observer".to_string(),
                    rust_type: "Arc<dyn CounterObserver>".to_string(),
                }],
                return_type: "i64".to_string(),
            }],
        };

        assert_eq!(
            metadata.validate(),
            Err(MetadataValidationError::MissingMethod("get_state"))
        );
    }

    #[test]
    fn rejects_unknown_schema_version() {
        let metadata = VmMetadata {
            schema_version: VM_METADATA_SCHEMA_VERSION + 1,
            rust_type: "EventViewModel".to_string(),
            bridge_name: "EventViewModelBridge".to_string(),
            mode: VmMode::Event,
            observer: Some(ObserverMetadata {
                rust_type: "EventObserver".to_string(),
                method: "on_event".to_string(),
            }),
            state_type: None,
            diff_type: None,
            list_item_type: None,
            factory: None,
            methods: vec![MethodMetadata {
                name: "subscribe".to_string(),
                args: vec![ArgMetadata {
                    name: "observer".to_string(),
                    rust_type: "Arc<dyn EventObserver>".to_string(),
                }],
                return_type: "i64".to_string(),
            }],
        };

        assert_eq!(
            metadata.validate(),
            Err(MetadataValidationError::UnsupportedSchemaVersion {
                actual: VM_METADATA_SCHEMA_VERSION + 1,
                expected: VM_METADATA_SCHEMA_VERSION
            })
        );
    }

    #[test]
    fn validates_event_metadata_with_observer() {
        let metadata = VmMetadata {
            schema_version: VM_METADATA_SCHEMA_VERSION,
            rust_type: "EventViewModel".to_string(),
            bridge_name: "EventViewModelBridge".to_string(),
            mode: VmMode::Event,
            observer: Some(ObserverMetadata {
                rust_type: "EventObserver".to_string(),
                method: "on_event".to_string(),
            }),
            state_type: None,
            diff_type: None,
            list_item_type: None,
            factory: None,
            methods: vec![MethodMetadata {
                name: "subscribe".to_string(),
                args: vec![ArgMetadata {
                    name: "observer".to_string(),
                    rust_type: "Arc<dyn EventObserver>".to_string(),
                }],
                return_type: "i64".to_string(),
            }],
        };

        metadata.validate().unwrap();
    }

    #[test]
    fn rejects_unknown_mode_and_missing_observer() {
        let unknown_mode = VmMetadata {
            schema_version: VM_METADATA_SCHEMA_VERSION,
            rust_type: "UnknownViewModel".to_string(),
            bridge_name: "UnknownViewModelBridge".to_string(),
            mode: VmMode::Unknown,
            observer: Some(ObserverMetadata {
                rust_type: "UnknownObserver".to_string(),
                method: "on_unknown".to_string(),
            }),
            state_type: None,
            diff_type: None,
            list_item_type: None,
            factory: None,
            methods: Vec::new(),
        };
        assert_eq!(
            unknown_mode.validate(),
            Err(MetadataValidationError::UnknownMode)
        );

        let missing_observer = VmMetadata {
            schema_version: VM_METADATA_SCHEMA_VERSION,
            rust_type: "ListViewModel".to_string(),
            bridge_name: "ListViewModelBridge".to_string(),
            mode: VmMode::DiffList,
            observer: None,
            state_type: None,
            diff_type: Some("ListDiff".to_string()),
            list_item_type: Some("ListItem".to_string()),
            factory: None,
            methods: Vec::new(),
        };
        assert_eq!(
            missing_observer.validate(),
            Err(MetadataValidationError::MissingField("observer"))
        );
    }

    #[test]
    fn rejects_empty_required_fields() {
        let empty_root_field = VmMetadata {
            schema_version: VM_METADATA_SCHEMA_VERSION,
            rust_type: " ".to_string(),
            bridge_name: "CounterViewModelBridge".to_string(),
            mode: VmMode::State,
            observer: Some(ObserverMetadata {
                rust_type: "CounterObserver".to_string(),
                method: "on_state".to_string(),
            }),
            state_type: Some("CounterState".to_string()),
            diff_type: None,
            list_item_type: None,
            factory: None,
            methods: vec![
                MethodMetadata {
                    name: "subscribe".to_string(),
                    args: vec![ArgMetadata {
                        name: "observer".to_string(),
                        rust_type: "Arc<dyn CounterObserver>".to_string(),
                    }],
                    return_type: "i64".to_string(),
                },
                MethodMetadata {
                    name: "get_state".to_string(),
                    args: Vec::new(),
                    return_type: "CounterState".to_string(),
                },
            ],
        };
        assert_eq!(
            empty_root_field.validate(),
            Err(MetadataValidationError::EmptyField("rust_type"))
        );

        let empty_optional_field = VmMetadata {
            schema_version: VM_METADATA_SCHEMA_VERSION,
            rust_type: "ListViewModel".to_string(),
            bridge_name: "ListViewModelBridge".to_string(),
            mode: VmMode::DiffList,
            observer: Some(ObserverMetadata {
                rust_type: "ListObserver".to_string(),
                method: "on_diffs".to_string(),
            }),
            state_type: None,
            diff_type: Some(" ".to_string()),
            list_item_type: Some("ListItem".to_string()),
            factory: None,
            methods: Vec::new(),
        };
        assert_eq!(
            empty_optional_field.validate(),
            Err(MetadataValidationError::EmptyField("diff_type"))
        );
    }

    #[test]
    fn rejects_empty_factory_and_method_fields() {
        let empty_factory_field = VmMetadata {
            schema_version: VM_METADATA_SCHEMA_VERSION,
            rust_type: "CounterViewModel".to_string(),
            bridge_name: "CounterViewModelBridge".to_string(),
            mode: VmMode::State,
            observer: Some(ObserverMetadata {
                rust_type: "CounterObserver".to_string(),
                method: "on_state".to_string(),
            }),
            state_type: Some("CounterState".to_string()),
            diff_type: None,
            list_item_type: None,
            factory: Some(FactoryMetadata {
                rust_type: "AppViewModel".to_string(),
                method: " ".to_string(),
                bridge_name: "AppViewModelBridge".to_string(),
            }),
            methods: vec![MethodMetadata {
                name: "subscribe".to_string(),
                args: vec![ArgMetadata {
                    name: "observer".to_string(),
                    rust_type: "Arc<dyn CounterObserver>".to_string(),
                }],
                return_type: "i64".to_string(),
            }],
        };
        assert_eq!(
            empty_factory_field.validate(),
            Err(MetadataValidationError::EmptyField("factory.method"))
        );

        let empty_method_field = VmMetadata {
            schema_version: VM_METADATA_SCHEMA_VERSION,
            rust_type: "ListViewModel".to_string(),
            bridge_name: "ListViewModelBridge".to_string(),
            mode: VmMode::DiffList,
            observer: Some(ObserverMetadata {
                rust_type: "ListObserver".to_string(),
                method: "on_diffs".to_string(),
            }),
            state_type: None,
            diff_type: Some("ListDiff".to_string()),
            list_item_type: Some("ListItem".to_string()),
            factory: None,
            methods: vec![MethodMetadata {
                name: "subscribe".to_string(),
                args: vec![ArgMetadata {
                    name: "observer".to_string(),
                    rust_type: " ".to_string(),
                }],
                return_type: "i64".to_string(),
            }],
        };
        assert_eq!(
            empty_method_field.validate(),
            Err(MetadataValidationError::EmptyField(
                "methods.args.rust_type"
            ))
        );
    }

    #[test]
    fn rejects_observer_vm_without_subscribe_method() {
        let metadata = VmMetadata {
            schema_version: VM_METADATA_SCHEMA_VERSION,
            rust_type: "ListViewModel".to_string(),
            bridge_name: "ListViewModelBridge".to_string(),
            mode: VmMode::DiffList,
            observer: Some(ObserverMetadata {
                rust_type: "ListObserver".to_string(),
                method: "on_diffs".to_string(),
            }),
            state_type: None,
            diff_type: Some("ListDiff".to_string()),
            list_item_type: Some("ListItem".to_string()),
            factory: None,
            methods: vec![MethodMetadata {
                name: "apply_diffs".to_string(),
                args: Vec::new(),
                return_type: "bool".to_string(),
            }],
        };

        assert_eq!(
            metadata.validate(),
            Err(MetadataValidationError::MissingMethod("subscribe"))
        );
    }

    #[test]
    fn rejects_state_getter_with_wrong_shape() {
        let wrong_args = VmMetadata {
            schema_version: VM_METADATA_SCHEMA_VERSION,
            rust_type: "CounterViewModel".to_string(),
            bridge_name: "CounterViewModelBridge".to_string(),
            mode: VmMode::State,
            observer: Some(ObserverMetadata {
                rust_type: "CounterObserver".to_string(),
                method: "on_state".to_string(),
            }),
            state_type: Some("CounterState".to_string()),
            diff_type: None,
            list_item_type: None,
            factory: None,
            methods: vec![
                MethodMetadata {
                    name: "subscribe".to_string(),
                    args: vec![ArgMetadata {
                        name: "observer".to_string(),
                        rust_type: "Arc<dyn CounterObserver>".to_string(),
                    }],
                    return_type: "i64".to_string(),
                },
                MethodMetadata {
                    name: "get_state".to_string(),
                    args: vec![ArgMetadata {
                        name: "id".to_string(),
                        rust_type: "i64".to_string(),
                    }],
                    return_type: "CounterState".to_string(),
                },
            ],
        };
        assert_eq!(
            wrong_args.validate(),
            Err(MetadataValidationError::InvalidMethodShape {
                method: "get_state",
                reason: "must not accept arguments"
            })
        );

        let wrong_return = VmMetadata {
            methods: vec![
                MethodMetadata {
                    name: "subscribe".to_string(),
                    args: vec![ArgMetadata {
                        name: "observer".to_string(),
                        rust_type: "Arc<dyn CounterObserver>".to_string(),
                    }],
                    return_type: "i64".to_string(),
                },
                MethodMetadata {
                    name: "get_state".to_string(),
                    args: Vec::new(),
                    return_type: "OtherState".to_string(),
                },
            ],
            ..wrong_args
        };
        assert_eq!(
            wrong_return.validate(),
            Err(MetadataValidationError::InvalidMethodShape {
                method: "get_state",
                reason: "return type must match state_type"
            })
        );
    }

    #[test]
    fn validation_errors_have_actionable_messages() {
        assert_eq!(
            MetadataValidationError::EmptyField("rust_type").message(),
            "metadata field `rust_type` must not be empty"
        );
        assert_eq!(
            MetadataValidationError::MissingField("observer").message(),
            "metadata field `observer` is required"
        );
        assert_eq!(
            MetadataValidationError::MissingMethod("get_state").message(),
            "metadata method `get_state` is required"
        );
        assert_eq!(
            (MetadataValidationError::InvalidMethodShape {
                method: "get_state",
                reason: "must not accept arguments",
            })
            .message(),
            "metadata method `get_state` is invalid: must not accept arguments"
        );
        assert_eq!(
            MetadataValidationError::UnknownMode.message(),
            "metadata mode is unknown"
        );
        assert_eq!(
            (MetadataValidationError::UnsupportedSchemaVersion {
                actual: 2,
                expected: 1,
            })
            .message(),
            "metadata schema version 2 is unsupported; expected 1"
        );
    }

fn method(name: &str, args: &[(&str, &str)], return_type: &str) -> MethodMetadata {
    MethodMetadata {
        name: name.to_string(),
        args: args
            .iter()
            .map(|(n, t)| ArgMetadata { name: n.to_string(), rust_type: t.to_string() })
            .collect(),
        return_type: return_type.to_string(),
    }
}

#[test]
fn parses_and_validates_state_metadata() {
    let metadata = VmMetadata {
        schema_version: VM_METADATA_SCHEMA_VERSION,
        rust_type: "CounterViewModel".to_string(),
        bridge_name: "CounterViewModelBridge".to_string(),
        mode: VmMode::State,
        observer: Some(ObserverMetadata {
            rust_type: "CounterObserver".to_string(),
            method: "on_state".to_string(),
        }),
        state_type: Some("CounterState".to_string()),
        diff_type: None,
        list_item_type: None,
        factory: Some(FactoryMetadata {
            rust_type: "AppViewModel".to_string(),
            method: "make_counter_vm".to_string(),
            bridge_name: "AppViewModelBridge".to_string(),
        }),
        methods: vec![
            method("get_state", &[], "CounterState"),
            method("subscribe", &[("observer", "Arc<dyn CounterObserver>")], "i64"),
            method("increment_by", &[("delta", "i32")], "CounterState"),
        ],
    };

    assert_eq!(metadata.mode, VmMode::State);
    assert_eq!(metadata.factory.as_ref().unwrap().bridge_name, "AppViewModelBridge");
    metadata.validate().unwrap();
}

#[test]
fn parses_diff_list_metadata_with_collection_types() {
    let metadata = VmMetadata {
        schema_version: VM_METADATA_SCHEMA_VERSION,
        rust_type: "ListViewModel".to_string(),
        bridge_name: "ListViewModelBridge".to_string(),
        mode: VmMode::DiffList,
        observer: Some(ObserverMetadata {
            rust_type: "ListObserver".to_string(),
            method: "on_diffs".to_string(),
        }),
        state_type: None,
        diff_type: Some("ListDiff".to_string()),
        list_item_type: Some("ListItem".to_string()),
        factory: None,
        methods: vec![
            method("subscribe", &[("observer", "Arc<dyn ListObserver>")], "i64"),
            method("apply_diffs", &[("diffs", "Vec<ListDiff>")], "bool"),
            method("find_item", &[("id", "i64")], "Option<ListItem>"),
        ],
    };

    assert_eq!(metadata.mode, VmMode::DiffList);
    assert_eq!(
        metadata.methods[2].args[0].rust_type, "i64",
        "record and enum type names are passed through as Rust type strings"
    );
    metadata.validate().unwrap();
}
