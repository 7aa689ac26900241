use cross_kit::android::{
    cargo_ndk_command, gradle_variant, package_layout, settings_gradle, validate_options,
    AndroidPackageOptions,
};
use cross_kit::cli::{
    android_native_plan, android_package_options_from_config, android_paths_from_config,
    ios_options_from_config, AndroidPaths,
};
use cross_kit::config::{
    default_android_targets, default_ios_targets, default_metadata_bin, default_release,
    default_spm, default_static_lib, default_true, AndroidConfig, AndroidMavenConfig,
    BindingsConfig, CrossKitConfig, IosConfig, SharedConfig,
};
use cross_kit::ios::{
    coalesce_libraries, lib_output_path, plan_ios_package, podspec, resolve_targets,
    spm_manifest, ApplePlatform, BuildMode, IosPackageOptions, LibType, LibraryMerge,
    PackageFormat,
};

/// `[shared]` with only `crate_path` given.
fn shared(crate_path: &str) -> SharedConfig {
    SharedConfig {
        crate_path: crate_path.to_string(),
        package: None,
        lib_name: None,
        metadata_bin: default_metadata_bin(),
    }
}

/// `[ios]` with only `package_name` given.
fn ios_section(package_name: &str) -> IosConfig {
    IosConfig {
        package_name: package_name.to_string(),
        output: None,
        xcframework_name: None,
        targets: default_ios_targets(),
        build_mode: default_release(),
        lib_type: default_static_lib(),
        format: default_spm(),
        swift_bridges: default_true(),
    }
}

/// An empty `[android]` table.
fn android_section() -> AndroidConfig {
    AndroidConfig {
        package_name: None,
        output: None,
        jni_libs_output: None,
        package_output: None,
        gradle_project_output: None,
        module_name: None,
        gradle_executable: None,
        java_home: None,
        targets: default_android_targets(),
        build_mode: default_release(),
        maven: AndroidMavenConfig::default(),
    }
}

fn config(shared: SharedConfig) -> CrossKitConfig {
    CrossKitConfig {
        shared,
        bindings: None,
        ios: None,
        android: None,
    }
}

fn android_options() -> AndroidPackageOptions {
    AndroidPackageOptions {
        crate_path: "/tmp/project/shared".to_string(),
        package_name: "com.crosskit.shared".to_string(),
        lib_name: "cross_kit_shared".to_string(),
        output: "/tmp/project/dist/android".to_string(),
        gradle_project: "/tmp/project/dist/android/gradle-project".to_string(),
        module_name: "crosskitshared".to_string(),
        gradle_executable: "/tmp/project/android/gradlew".to_string(),
        java_home: None,
        targets: vec!["arm64-v8a".to_string(), "x86_64".to_string()],
        build_mode: "release".to_string(),
        metadata_bin: "ck_vm_metadata".to_string(),
        maven: AndroidMavenConfig::default(),
        bindings: None,
    }
}

#[test]
fn default_options_match_compatibility_command_defaults() {
    let options = IosPackageOptions::default();

    assert_eq!(options.crate_path, ".".to_string());
    assert_eq!(options.build_mode, BuildMode::Release);
    assert_eq!(options.lib_type, LibType::Static);
    assert_eq!(options.format, PackageFormat::Spm);
    assert_eq!(options.metadata_bin, "ck_vm_metadata");
    assert!(!options.swift_bridges);
}

#[test]
fn parses_package_option_enums_with_actionable_errors() {
    assert_eq!("debug".parse::<BuildMode>().unwrap(), BuildMode::Debug);
    assert_eq!("release".parse::<BuildMode>().unwrap(), BuildMode::Release);
    assert_eq!("static".parse::<LibType>().unwrap(), LibType::Static);
    assert_eq!("dynamic".parse::<LibType>().unwrap(), LibType::Dynamic);
    assert_eq!("spm".parse::<PackageFormat>().unwrap(), PackageFormat::Spm);
    assert_eq!("pod".parse::<PackageFormat>().unwrap(), PackageFormat::Pod);

    assert!(
        "fast"
            .parse::<BuildMode>()
            .unwrap_err()
            .message()
            .contains("unsupported build mode")
    );
    assert!(
        "shared"
            .parse::<LibType>()
            .unwrap_err()
            .message()
            .contains("unsupported iOS lib type")
    );
    assert!(
        "zip"
            .parse::<PackageFormat>()
            .unwrap_err()
            .message()
            .contains("unsupported iOS package format")
    );
}

#[test]
fn resolves_supported_apple_target_aliases() {
    let targets = resolve_targets(Some(vec![
        "ios".to_string(),
        "ios-sim".to_string(),
        "ios-sim-x86_64".to_string(),
        "macos".to_string(),
        "macos-x86_64".to_string(),
    ]))
    .unwrap();

    assert_eq!(
        targets,
        [
            "aarch64-apple-ios",
            "aarch64-apple-ios-sim",
            "x86_64-apple-ios",
            "aarch64-apple-darwin",
            "x86_64-apple-darwin"
        ]
        .map(str::to_string)
    );
}

#[test]
fn rejects_empty_and_unsupported_target_sets_before_building() {
    let empty = resolve_targets(Some(Vec::new())).unwrap_err();
    assert!(
        empty
            .message()
            .contains("at least one iOS target must be configured")
    );

    let unsupported =
        resolve_targets(Some(vec!["aarch64-apple-visionos".to_string()])).unwrap_err();
    assert!(
        unsupported
            .message()
            .contains("unsupported apple target: aarch64-apple-visionos")
    );
}

#[test]
fn computes_library_output_paths_for_profiles_and_library_types() {
    let target_dir = "/tmp/cross-kit-target";

    assert_eq!(
        lib_output_path(
            target_dir,
            "aarch64-apple-ios",
            BuildMode::Debug,
            "cross_kit_shared",
            LibType::Static
        )
        .unwrap(),
        "/tmp/cross-kit-target/aarch64-apple-ios/debug/libcross_kit_shared.a".to_string()
    );
    assert_eq!(
        lib_output_path(
            target_dir,
            "aarch64-apple-ios-sim",
            BuildMode::Release,
            "cross_kit_shared",
            LibType::Dynamic
        )
        .unwrap(),
        "/tmp/cross-kit-target/aarch64-apple-ios-sim/release/libcross_kit_shared.dylib".to_string()
    );
}

#[test]
fn default_targets_resolve_to_device_and_simulator() {
    let targets = resolve_targets(None).unwrap();
    assert_eq!(targets, vec!["aarch64-apple-ios", "aarch64-apple-ios-sim"]);
}

#[test]
fn coalesces_libraries_per_platform_in_platform_order() {
    let targets = vec![
        "aarch64-apple-darwin".to_string(),
        "aarch64-apple-ios-sim".to_string(),
        "aarch64-apple-ios".to_string(),
        "x86_64-apple-ios".to_string(),
    ];
    let libs = vec![
        "/t/mac/libx.a".to_string(),
        "/t/sim/libx.a".to_string(),
        "/t/ios/libx.a".to_string(),
        "/t/sim86/libx.a".to_string(),
    ];
    let plan = coalesce_libraries(&targets, &libs, "/out").unwrap();
    assert_eq!(
        plan,
        vec![
            LibraryMerge::Single("/t/ios/libx.a".to_string()),
            LibraryMerge::Lipo {
                platform: ApplePlatform::IosSim,
                inputs: vec!["/t/sim/libx.a".to_string(), "/t/sim86/libx.a".to_string()],
                output: "/out/_lipo/ios-sim-libx.a".to_string(),
            },
            LibraryMerge::Single("/t/mac/libx.a".to_string()),
        ]
    );

    let err = coalesce_libraries(&vec!["riscv".to_string()], &vec!["/a".to_string()], "/out")
        .unwrap_err();
    assert_eq!(err.message(), "unsupported apple target: riscv");
}

#[test]
fn plans_ios_package_names_from_the_library_target() {
    let options = IosPackageOptions::default();
    let plan = plan_ios_package(&options, "cross-kit-shared", "shared").unwrap();
    assert_eq!(plan.lib_name, "cross_kit_shared");
    assert_eq!(plan.package_name, "shared");
    assert_eq!(plan.xcframework_name, "cross_kit_sharedFFI");
    assert_eq!(plan.output_root, "./dist");
    assert_eq!(plan.targets, vec!["aarch64-apple-ios", "aarch64-apple-ios-sim"]);
}

#[test]
fn writes_spm_manifest_and_podspec() {
    let manifest = spm_manifest("CrossKitShared", "cross_kit_sharedFFI");
    assert!(manifest.starts_with("// swift-tools-version:5.5\n"));
    assert!(manifest.contains("name: \"CrossKitShared\""));
    assert!(manifest.contains("path: \"./cross_kit_sharedFFI.xcframework\""));

    let pod = podspec("CrossKitShared", "cross_kit_sharedFFI");
    assert!(pod.contains("s.name = \"CrossKitShared\""));
    assert!(pod.contains("s.license = { :type => \"Proprietary\" }"));
    assert!(pod.contains("s.vendored_frameworks = \"cross_kit_sharedFFI.xcframework\""));
}

#[test]
fn computes_package_layout_and_cargo_ndk_command() {
    let options = android_options();
    let layout = package_layout(&options);
    let manifest = "/tmp/project/shared/Cargo.toml";
    let args = cargo_ndk_command(&options, manifest, &layout.native_output_dir);

    assert_eq!(
        layout.aar_final_output,
        "/tmp/project/dist/android/crosskitshared-release.aar".to_string()
    );
    assert_eq!(
        layout.maven_repo,
        "/tmp/project/dist/android/maven".to_string()
    );
    assert_eq!(
        layout.kotlin_dir,
        "/tmp/project/dist/android/gradle-project/crosskitshared/src/main/kotlin".to_string()
    );
    assert_eq!(
        args,
        vec![
            "ndk",
            "-t",
            "arm64-v8a",
            "-t",
            "x86_64",
            "-o",
            "/tmp/project/dist/android/native",
            "build",
            "--manifest-path",
            "/tmp/project/shared/Cargo.toml",
            "--release"
        ]
    );
}

#[test]
fn debug_build_mode_uses_debug_gradle_variant_and_aar_name() {
    let mut options = android_options();
    options.build_mode = "debug".to_string();
    let layout = package_layout(&options);

    assert_eq!(
        layout.aar_final_output,
        "/tmp/project/dist/android/crosskitshared-debug.aar".to_string()
    );
    assert_eq!(gradle_variant(&options), "Debug");
}

#[test]
fn settings_gradle_includes_the_module() {
    assert!(settings_gradle("crosskitshared").contains("include(\":crosskitshared\")"));
}

#[test]
fn validates_options_before_running_tools() {
    let mut invalid = android_options();
    invalid.crate_path = String::new();
    assert!(
        validate_options(&invalid)
            .unwrap_err()
            .message()
            .contains("crate_path")
    );

    let mut invalid = android_options();
    invalid.package_name = " ".to_string();
    assert!(
        validate_options(&invalid)
            .unwrap_err()
            .message()
            .contains("package_name")
    );

    let mut invalid = android_options();
    invalid.lib_name = "".to_string();
    assert!(
        validate_options(&invalid)
            .unwrap_err()
            .message()
            .contains("lib_name")
    );

    let mut invalid = android_options();
    invalid.targets.clear();
    assert!(
        validate_options(&invalid)
            .unwrap_err()
            .message()
            .contains("targets")
    );

    let mut invalid = android_options();
    invalid.build_mode = "fast".to_string();
    assert!(
        validate_options(&invalid)
            .unwrap_err()
            .message()
            .contains("unsupported Android build mode")
    );

    let mut invalid = android_options();
    invalid.module_name = "".to_string();
    assert!(
        validate_options(&invalid)
            .unwrap_err()
            .message()
            .contains("module_name")
    );

    let mut invalid = android_options();
    invalid.maven.group_id = " ".to_string();
    assert!(
        validate_options(&invalid)
            .unwrap_err()
            .message()
            .contains("android.maven.group_id")
    );

    let mut invalid = android_options();
    invalid.maven.artifact_id.clear();
    assert!(
        validate_options(&invalid)
            .unwrap_err()
            .message()
            .contains("android.maven.artifact_id")
    );

    let mut invalid = android_options();
    invalid.maven.version.clear();
    assert!(
        validate_options(&invalid)
            .unwrap_err()
            .message()
            .contains("android.maven.version")
    );

    assert!(validate_options(&android_options()).is_ok());
}

#[test]
fn android_native_plan_rejects_empty_targets() {
    let paths = AndroidPaths {
        crate_path: "/tmp/project/shared".to_string(),
        package_name: "com.crosskit.shared".to_string(),
        bridge_output: "/tmp/project/android/generated/bridges".to_string(),
        binding_output: "/tmp/project/android/generated/uniffi".to_string(),
        jni_libs_output: "/tmp/project/android/jniLibs".to_string(),
        targets: vec![],
        build_mode: "debug".to_string(),
        lib_name: "cross_kit_shared".to_string(),
        metadata_bin: "ck_vm_metadata".to_string(),
    };

    let err = android_native_plan(&paths).unwrap_err();

    assert!(err.message().contains("[android].targets"));
}

#[test]
fn builds_android_native_plan_and_cargo_ndk_command() {
    let paths = AndroidPaths {
        crate_path: "/tmp/project/shared".to_string(),
        package_name: "com.crosskit.shared".to_string(),
        bridge_output: "/tmp/project/android/generated/bridges".to_string(),
        binding_output: "/tmp/project/android/generated/uniffi".to_string(),
        jni_libs_output: "/tmp/project/android/jniLibs".to_string(),
        targets: vec!["arm64-v8a".to_string(), "x86_64".to_string()],
        build_mode: "release".to_string(),
        lib_name: "cross_kit_shared".to_string(),
        metadata_bin: "ck_vm_metadata".to_string(),
    };

    let plan = android_native_plan(&paths).unwrap();
    let args = cross_kit::cli::cargo_ndk_command(&paths, &plan.manifest);

    assert_eq!(plan.manifest, "/tmp/project/shared/Cargo.toml".to_string());
    assert_eq!(
        plan.library,
        "/tmp/project/android/jniLibs/arm64-v8a/libcross_kit_shared.so".to_string()
    );
    assert_eq!(
        args,
        vec![
            "ndk",
            "-t",
            "arm64-v8a",
            "-t",
            "x86_64",
            "-o",
            "/tmp/project/android/jniLibs",
            "build",
            "--manifest-path",
            "/tmp/project/shared/Cargo.toml",
            "--release"
        ]
    );
}

#[test]
fn maps_ios_config_to_packager_options_with_relative_paths() {
    let mut config = config(SharedConfig {
        crate_path: "shared".to_string(),
        package: Some("shared".to_string()),
        lib_name: Some("cross_kit_shared".to_string()),
        metadata_bin: "ck_vm_metadata".to_string(),
    });
    config.bindings = Some(BindingsConfig {
        root_vm: "AppViewModel".to_string(),
        container_name: "CrossKitSharedBridge".to_string(),
    });
    let mut ios = ios_section("CrossKitShared");
    ios.output = Some("dist/ios".to_string());
    ios.targets = vec!["ios".to_string(), "ios-sim-x86_64".to_string()];
    ios.build_mode = "debug".to_string();
    ios.lib_type = "dynamic".to_string();
    ios.format = "pod".to_string();
    ios.swift_bridges = false;
    config.ios = Some(ios);

    let options = ios_options_from_config("/tmp/project/cross-kit.toml", &config).unwrap();

    assert_eq!(options.crate_path, "/tmp/project/shared".to_string());
    assert_eq!(options.package_name.as_deref(), Some("CrossKitShared"));
    assert_eq!(options.package.as_deref(), Some("shared"));
    assert_eq!(options.lib_name.as_deref(), Some("cross_kit_shared"));
    assert_eq!(options.output, Some("/tmp/project/dist/ios".to_string()));
    assert_eq!(
        options.targets,
        Some(vec!["ios".to_string(), "ios-sim-x86_64".to_string()])
    );
    assert_eq!(options.build_mode, BuildMode::Debug);
    assert_eq!(options.lib_type, LibType::Dynamic);
    assert_eq!(options.format, PackageFormat::Pod);
    assert!(!options.swift_bridges);
    let bindings = options.bindings.unwrap();
    assert_eq!(bindings.root_vm, "AppViewModel");
    assert_eq!(bindings.container_name, "CrossKitSharedBridge");
}

#[test]
fn maps_android_config_to_generated_and_native_paths() {
    let mut config = config(SharedConfig {
        crate_path: "shared".to_string(),
        package: None,
        lib_name: Some("cross_kit_shared".to_string()),
        metadata_bin: "metadata".to_string(),
    });
    config.bindings = Some(BindingsConfig {
        root_vm: "AppViewModel".to_string(),
        container_name: "CrossKitSharedBridge".to_string(),
    });
    let mut android = android_section();
    android.package_name = Some("com.example.shared".to_string());
    android.output = Some("android/app/build/generated/cross-kit".to_string());
    android.jni_libs_output = Some("android/app/src/main/jniLibs".to_string());
    android.package_output = Some("dist/android".to_string());
    android.gradle_project_output = Some("dist/android/gradle-project".to_string());
    android.module_name = Some("crosskitshared".to_string());
    android.gradle_executable = Some("android/gradlew".to_string());
    android.java_home = Some("/opt/homebrew/opt/openjdk@21".to_string());
    android.targets = vec!["arm64-v8a".to_string()];
    android.build_mode = "debug".to_string();
    android.maven = AndroidMavenConfig::from_table(
        Some("com.example.sdk".to_string()),
        Some("public-shared".to_string()),
        Some("2.3.4".to_string()),
    );
    config.android = Some(android);

    let paths = android_paths_from_config("/tmp/project/cross-kit.toml", &config).unwrap();

    assert_eq!(paths.crate_path, "/tmp/project/shared".to_string());
    assert_eq!(paths.package_name, "com.example.shared");
    assert_eq!(
        paths.bridge_output,
        "/tmp/project/android/app/build/generated/cross-kit/bridges".to_string()
    );
    assert_eq!(
        paths.binding_output,
        "/tmp/project/android/app/build/generated/cross-kit/uniffi".to_string()
    );
    assert_eq!(
        paths.jni_libs_output,
        "/tmp/project/android/app/src/main/jniLibs".to_string()
    );
    assert_eq!(paths.targets, vec!["arm64-v8a"]);
    assert_eq!(paths.build_mode, "debug");
    assert_eq!(paths.lib_name, "cross_kit_shared");
    assert_eq!(paths.metadata_bin, "metadata");

    let package =
        android_package_options_from_config("/tmp/project/cross-kit.toml", &config).unwrap();
    assert_eq!(package.output, "/tmp/project/dist/android".to_string());
    assert_eq!(
        package.gradle_project,
        "/tmp/project/dist/android/gradle-project".to_string()
    );
    assert_eq!(package.module_name, "crosskitshared");
    assert_eq!(
        package.gradle_executable,
        "/tmp/project/android/gradlew".to_string()
    );
    assert_eq!(
        package.java_home,
        Some("/opt/homebrew/opt/openjdk@21".to_string())
    );
    assert_eq!(
        package.maven,
        AndroidMavenConfig {
            group_id: "com.example.sdk".to_string(),
            artifact_id: "public-shared".to_string(),
            version: "2.3.4".to_string(),
            artifact_id_explicit: true,
        }
    );
    assert_eq!(
        package
            .bindings
            .as_ref()
            .map(|bindings| bindings.root_vm.as_str()),
        Some("AppViewModel")
    );
}

#[test]
fn android_package_options_default_maven_artifact_to_module_name() {
    let mut config = config(shared("shared"));
    let mut android = android_section();
    android.module_name = Some("examplekit".to_string());
    config.android = Some(android);

    let package =
        android_package_options_from_config("/tmp/project/cross-kit.toml", &config).unwrap();

    assert_eq!(package.module_name, "examplekit");
    assert_eq!(package.maven.group_id, "com.crosskit");
    assert_eq!(package.maven.artifact_id, "examplekit");
    assert_eq!(package.maven.version, "0.1.0");
}

#[test]
fn android_package_options_preserve_explicit_default_artifact_id() {
    let mut config = config(shared("shared"));
    let mut android = android_section();
    android.module_name = Some("internalshared".to_string());
    android.maven = AndroidMavenConfig::from_table(None, Some("crosskitshared".to_string()), None);
    config.android = Some(android);

    let package =
        android_package_options_from_config("/tmp/project/cross-kit.toml", &config).unwrap();

    assert_eq!(package.module_name, "internalshared");
    assert_eq!(package.maven.group_id, "com.crosskit");
    assert_eq!(package.maven.artifact_id, "crosskitshared");
    assert_eq!(package.maven.version, "0.1.0");
}

#[test]
fn rejects_invalid_ios_and_android_package_values() {
    let mut config_a = config(shared(""));
    config_a.ios = Some(ios_section(""));
    let err = ios_options_from_config("/tmp/project/cross-kit.toml", &config_a).unwrap_err();
    assert!(err.message().contains("[ios].package_name"));

    let mut config_b = config(shared(""));
    config_b.ios = Some(ios_section("CrossKitShared"));
    let err = ios_options_from_config("/tmp/project/cross-kit.toml", &config_b).unwrap_err();
    assert!(err.message().contains("[shared].crate_path"));

    let mut config_c = config(shared("shared"));
    let mut android = android_section();
    android.build_mode = "fast".to_string();
    config_c.android = Some(android);
    let err =
        android_package_options_from_config("/tmp/project/cross-kit.toml", &config_c).unwrap_err();
    assert!(err.message().contains("unsupported Android build mode"));

    let mut config_d = config(shared("shared"));
    let mut android = android_section();
    android.targets = vec![];
    config_d.android = Some(android);
    let err =
        android_package_options_from_config("/tmp/project/cross-kit.toml", &config_d).unwrap_err();
    assert!(err.message().contains("[android].targets"));
}

#[test]
fn rejects_missing_ios_section() {
    let config = config(shared("shared"));

    let err = ios_options_from_config("/tmp/project/cross-kit.toml", &config).unwrap_err();
    assert!(err.message().contains("missing [ios] section"));
}

#[test]
fn rejects_invalid_android_config_before_running_build_tools() {
    let mut config_a = config(shared("shared"));
    let mut android = android_section();
    android.targets = vec![];
    config_a.android = Some(android);

    let err = android_paths_from_config("/tmp/project/cross-kit.toml", &config_a).unwrap_err();
    assert!(err.message().contains("[android].targets"));

    let mut config_b = config(shared("shared"));
    let mut android = android_section();
    android.build_mode = "fast".to_string();
    config_b.android = Some(android);

    let err = android_paths_from_config("/tmp/project/cross-kit.toml", &config_b).unwrap_err();
    assert!(err.message().contains("unsupported Android build mode"));

    let mut config_c = config(shared(""));
    config_c.android = Some(android_section());

    let err = android_paths_from_config("/tmp/project/cross-kit.toml", &config_c).unwrap_err();
    assert!(err.message().contains("[shared].crate_path"));
}

#[test]
fn rejects_invalid_enum_values_before_packaging() {
    let mut config = config(shared("shared"));
    let mut ios = ios_section("CrossKitShared");
    ios.build_mode = "fast".to_string();
    config.ios = Some(ios);

    let err = ios_options_from_config("/tmp/project/cross-kit.toml", &config).unwrap_err();
    assert!(err.message().contains("unsupported build mode"));
}

#[test]
fn applies_android_maven_partial_defaults() {
    // `[android.maven]` with only `version = "2.0.0"`.
    let maven = AndroidMavenConfig::from_table(None, None, Some("2.0.0".to_string()));

    assert_eq!(maven.group_id, "com.crosskit");
    assert_eq!(maven.artifact_id, "crosskitshared");
    assert_eq!(maven.version, "2.0.0");
    assert!(!maven.artifact_id_explicit);
}

#[test]
fn maven_table_keeps_every_given_key() {
    let maven = AndroidMavenConfig::from_table(
        Some("com.example".to_string()),
        Some("sdk".to_string()),
        Some("1.2.3".to_string()),
    );
    assert_eq!(maven.group_id, "com.example");
    assert_eq!(maven.artifact_id, "sdk");
    assert_eq!(maven.version, "1.2.3");
    assert!(maven.artifact_id_explicit);
    assert_eq!(AndroidMavenConfig::from_table(None, None, None), AndroidMavenConfig::default());
}
