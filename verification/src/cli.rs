//! The command line's decisions: how `cross-kit.toml` becomes packager
//! options, and the native build plan of the Android helper commands.
use vstd::prelude::*;
use crate::android::{ndk_args, ndk_command_args, AndroidPackageOptions};
use crate::config::{AndroidConfig, AndroidMavenConfig, BindingsConfig, CrossKitConfig};
use crate::ios::{
    build_mode_of, lib_type_of, package_format_of, BuildMode, IosPackageOptions, LibType,
    PackageFormat,
};
use crate::packaging::{error_with, packager_error, path_join, std_joined, PackagerError};
use crate::text::{is_blank, str_blank, str_eq, views};

verus! {

// ---------------------------------------------------------------------------
// Paths.
// ---------------------------------------------------------------------------

/// Whether `std::path::Path::is_absolute` holds of the path.
pub uninterp spec fn std_is_absolute(path: Seq<char>) -> bool;

/// `std::path::Path::new(path).is_absolute()`. The contract only names the
/// result.
#[verifier::external_body]
fn path_is_absolute(path: &str) -> (r: bool)
    ensures
        r == std_is_absolute(path@),
{
    std::path::Path::new(path).is_absolute()
}

/// The parent of a path, as `std::path::Path::parent` finds it.
pub uninterp spec fn std_parent(path: Seq<char>) -> Option<Seq<char>>;

/// `std::path::Path::new(path).parent()`, as text; `None` for a root or an
/// empty path. The contract only names the result.
#[verifier::external_body]
fn path_parent(path: &str) -> (res: Option<String>)
    ensures
        match res {
            Some(p) => std_parent(path@) == Some(p@),
            None => std_parent(path@) is None,
        },
{
    match std::path::Path::new(path).parent() {
        Some(p) => Some(p.to_string_lossy().into_owned()),
        None => None,
    }
}

/// `value` itself when absolute, else `value` under `base`.
pub open spec fn relative_to(base: Seq<char>, value: Seq<char>) -> Seq<char> {
    if std_is_absolute(value) {
        value
    } else {
        std_joined(base, value)
    }
}

/// The directory of the configuration file (`.` when the path has no parent).
pub open spec fn config_dir_of(config_path: Seq<char>) -> Seq<char> {
    match std_parent(config_path) {
        Some(p) => p,
        None => "."@,
    }
}

/// Resolves `value` against `base` unless it is absolute.
pub fn resolve_relative(base: &str, value: &str) -> (res: String)
    ensures
        res@ == relative_to(base@, value@),
{
    if path_is_absolute(value) {
        String::from_str(value)
    } else {
        path_join(base, value)
    }
}

fn config_dir(config_path: &str) -> (res: String)
    ensures
        res@ == config_dir_of(config_path@),
{
    match path_parent(config_path) {
        Some(p) => p,
        None => String::from_str("."),
    }
}

fn resolve_optional(base: &str, value: &Option<String>, default: &str) -> (res: String)
    ensures
        res@ == relative_to(
            base@,
            match *value {
                Some(v) => v@,
                None => default@,
            },
        ),
{
    match value {
        Some(v) => resolve_relative(base, v.as_str()),
        None => resolve_relative(base, default),
    }
}

fn copy_opt(o: &Option<String>) -> (res: Option<String>)
    ensures
        res == *o,
{
    match o {
        Some(s) => Some(s.clone()),
        None => None,
    }
}

pub(crate) fn copy_strings(v: &Vec<String>) -> (res: Vec<String>)
    ensures
        res@ == v@,
{
    let mut out: Vec<String> = Vec::new();
    let mut i: usize = 0;
    while i < v.len()
        invariant
            i <= v@.len(),
            out@ == v@.take(i as int),
        decreases v@.len() - i,
    {
        out.push(v[i].clone());
        i = i + 1;
        assert(out@ =~= v@.take(i as int));
    }
    assert(v@.take(v@.len() as int) =~= v@);
    out
}

fn copy_bindings(b: &Option<BindingsConfig>) -> (res: Option<BindingsConfig>)
    ensures
        res == *b,
{
    match b {
        Some(b) => Some(
            BindingsConfig { root_vm: b.root_vm.clone(), container_name: b.container_name.clone() },
        ),
        None => None,
    }
}

// ---------------------------------------------------------------------------
// iOS.
// ---------------------------------------------------------------------------

/// The first problem of the iOS configuration, before its enum values are read.
pub open spec fn ios_config_fault(config_path: Seq<char>, c: CrossKitConfig) -> Option<Seq<char>> {
    match c.ios {
        None => Some("missing [ios] section in "@ + config_path),
        Some(ios) => if is_blank(ios.package_name@) {
            Some("[ios].package_name must not be empty"@)
        } else if is_blank(c.shared.crate_path@) {
            Some("[shared].crate_path must not be empty"@)
        } else {
            None
        },
    }
}

/// The iOS packager options of configuration `c` read from `config_path`,
/// leaving aside the three enum values.
pub open spec fn ios_options_match(o: IosPackageOptions, config_path: Seq<char>, c: CrossKitConfig) -> bool {
    let ios = c.ios->0;
    let dir = config_dir_of(config_path);
    &&& o.crate_path@ == relative_to(dir, c.shared.crate_path@)
    &&& o.package_name == Some(ios.package_name)
    &&& o.package == c.shared.package
    &&& o.lib_name == c.shared.lib_name
    &&& match ios.output {
        Some(out) => o.output matches Some(p) && p@ == relative_to(dir, out@),
        None => o.output is None,
    }
    &&& o.xcframework_name == ios.xcframework_name
    &&& o.targets matches Some(t) && t@ == ios.targets@
    &&& o.swift_bridges == ios.swift_bridges
    &&& o.metadata_bin == c.shared.metadata_bin
    &&& o.bindings == c.bindings
}

/// Maps `[shared]`, `[ios]` and `[bindings]` of the configuration read from
/// `config_path` to iOS packager options; relative paths are taken from the
/// configuration file's directory.
pub fn ios_options_from_config(config_path: &str, config: &CrossKitConfig) -> (res: Result<
    IosPackageOptions,
    PackagerError,
>)
    ensures
        match ios_config_fault(config_path@, *config) {
            Some(m) => res matches Err(e) && e.message@ == m,
            None => {
                let ios = config.ios->0;
                match (
                    build_mode_of(ios.build_mode@),
                    lib_type_of(ios.lib_type@),
                    package_format_of(ios.format@),
                ) {
                    (Err(m), _, _) => res matches Err(e) && e.message@ == m,
                    (Ok(_), Err(m), _) => res matches Err(e) && e.message@ == m,
                    (Ok(_), Ok(_), Err(m)) => res matches Err(e) && e.message@ == m,
                    (Ok(b), Ok(l), Ok(f)) => res matches Ok(o) && ios_options_match(
                        o,
                        config_path@,
                        *config,
                    ) && o.build_mode == b && o.lib_type == l && o.format == f,
                }
            },
        },
{
    let ios = match &config.ios {
        Some(ios) => ios,
        None => {
            let mut message = String::from_str("missing [ios] section in ");
            message.append(config_path);
            return Err(packager_error(message));
        },
    };
    if str_blank(ios.package_name.as_str()) {
        return Err(packager_error(String::from_str("[ios].package_name must not be empty")));
    }
    if str_blank(config.shared.crate_path.as_str()) {
        return Err(packager_error(String::from_str("[shared].crate_path must not be empty")));
    }
    let dir = config_dir(config_path);
    let crate_path = resolve_relative(dir.as_str(), config.shared.crate_path.as_str());
    let output = match &ios.output {
        Some(out) => Some(resolve_relative(dir.as_str(), out.as_str())),
        None => None,
    };
    let build_mode = BuildMode::parse(ios.build_mode.as_str())?;
    let lib_type = LibType::parse(ios.lib_type.as_str())?;
    let format = PackageFormat::parse(ios.format.as_str())?;
    Ok(IosPackageOptions {
        crate_path,
        package_name: Some(ios.package_name.clone()),
        package: copy_opt(&config.shared.package),
        lib_name: copy_opt(&config.shared.lib_name),
        output,
        xcframework_name: copy_opt(&ios.xcframework_name),
        targets: Some(copy_strings(&ios.targets)),
        build_mode,
        lib_type,
        format,
        swift_bridges: ios.swift_bridges,
        metadata_bin: config.shared.metadata_bin.clone(),
        bindings: copy_bindings(&config.bindings),
    })
}

// ---------------------------------------------------------------------------
// Android.
// ---------------------------------------------------------------------------

/// Where the Android helper commands read and write.
#[derive(Debug, Clone, PartialEq, Eq)]
pub struct AndroidPaths {
    pub crate_path: String,
    pub package_name: String,
    pub bridge_output: String,
    pub binding_output: String,
    pub jni_libs_output: String,
    pub targets: Vec<String>,
    pub build_mode: String,
    pub lib_name: String,
    pub metadata_bin: String,
}

/// The native build of the Android helper: the crate manifest, and the library
/// built for the first target.
#[derive(Debug, Clone, PartialEq, Eq)]
pub struct AndroidNativePlan {
    pub manifest: String,
    pub library: String,
}

/// Some target of `targets` is blank.
pub open spec fn any_blank_target(targets: Seq<String>) -> bool {
    exists|i: int| 0 <= i < targets.len() && is_blank((#[trigger] targets[i])@)
}

/// The first problem of the Android configuration.
pub open spec fn android_config_fault(config_path: Seq<char>, c: CrossKitConfig) -> Option<Seq<char>> {
    match c.android {
        None => Some("missing [android] section in "@ + config_path),
        Some(a) => if is_blank(c.shared.crate_path@) {
            Some("[shared].crate_path must not be empty"@)
        } else if a.build_mode@ != "debug"@ && a.build_mode@ != "release"@ {
            Some(
                "unsupported Android build mode '"@ + a.build_mode@
                    + "'; expected 'debug' or 'release'"@,
            )
        } else if a.targets@.len() == 0 || any_blank_target(a.targets@) {
            Some("[android].targets must contain at least one non-empty target"@)
        } else {
            None
        },
    }
}

fn blank_target(targets: &Vec<String>) -> (r: bool)
    ensures
        r == any_blank_target(targets@),
{
    let mut i: usize = 0;
    while i < targets.len()
        invariant
            i <= targets@.len(),
            forall|j: int| 0 <= j < i ==> !is_blank((#[trigger] targets@[j])@),
        decreases targets@.len() - i,
    {
        if str_blank(targets[i].as_str()) {
            return true;
        }
        i = i + 1;
    }
    false
}

fn check_android<'a>(config_path: &str, config: &'a CrossKitConfig) -> (res: Result<
    &'a AndroidConfig,
    PackagerError,
>)
    ensures
        match android_config_fault(config_path@, *config) {
            Some(m) => res matches Err(e) && e.message@ == m,
            None => res matches Ok(a) && config.android == Some(*a),
        },
{
    let android = match &config.android {
        Some(a) => a,
        None => {
            let mut message = String::from_str("missing [android] section in ");
            message.append(config_path);
            return Err(packager_error(message));
        },
    };
    if str_blank(config.shared.crate_path.as_str()) {
        return Err(packager_error(String::from_str("[shared].crate_path must not be empty")));
    }
    if !str_eq(android.build_mode.as_str(), "debug") && !str_eq(
        android.build_mode.as_str(),
        "release",
    ) {
        return Err(
            error_with(
                "unsupported Android build mode '",
                android.build_mode.as_str(),
                "'; expected 'debug' or 'release'",
            ),
        );
    }
    if android.targets.len() == 0 || blank_target(&android.targets) {
        return Err(
            packager_error(
                String::from_str("[android].targets must contain at least one non-empty target"),
            ),
        );
    }
    Ok(android)
}

/// The option's value, or the default.
pub open spec fn value_or(o: Option<String>, default: Seq<char>) -> Seq<char> {
    match o {
        Some(s) => s@,
        None => default,
    }
}

fn string_or(o: &Option<String>, default: &str) -> (res: String)
    ensures
        res@ == value_or(*o, default@),
{
    match o {
        Some(s) => s.clone(),
        None => String::from_str(default),
    }
}

/// The Android helper paths of configuration `c` read from `config_path`.
pub open spec fn android_paths_match(p: AndroidPaths, config_path: Seq<char>, c: CrossKitConfig) -> bool {
    let a = c.android->0;
    let dir = config_dir_of(config_path);
    let generated = relative_to(dir, value_or(a.output, "android/app/build/generated/cross-kit"@));
    &&& p.crate_path@ == relative_to(dir, c.shared.crate_path@)
    &&& p.package_name@ == value_or(a.package_name, "com.crosskit.shared"@)
    &&& p.bridge_output@ == std_joined(generated, "bridges"@)
    &&& p.binding_output@ == std_joined(generated, "uniffi"@)
    &&& p.jni_libs_output@ == relative_to(dir, value_or(a.jni_libs_output, "android/app/src/main/jniLibs"@))
    &&& p.targets@ == a.targets@
    &&& p.build_mode == a.build_mode
    &&& p.lib_name@ == value_or(c.shared.lib_name, "cross_kit_shared"@)
    &&& p.metadata_bin == c.shared.metadata_bin
}

/// Maps `[shared]` and `[android]` of the configuration read from
/// `config_path` to the paths of the Android helper commands.
pub fn android_paths_from_config(config_path: &str, config: &CrossKitConfig) -> (res: Result<
    AndroidPaths,
    PackagerError,
>)
    ensures
        match android_config_fault(config_path@, *config) {
            Some(m) => res matches Err(e) && e.message@ == m,
            None => res matches Ok(p) && android_paths_match(p, config_path@, *config),
        },
{
    let android = check_android(config_path, config)?;
    let dir = config_dir(config_path);
    let generated_root = resolve_optional(
        dir.as_str(),
        &android.output,
        "android/app/build/generated/cross-kit",
    );
    Ok(AndroidPaths {
        crate_path: resolve_relative(dir.as_str(), config.shared.crate_path.as_str()),
        package_name: string_or(&android.package_name, "com.crosskit.shared"),
        bridge_output: path_join(generated_root.as_str(), "bridges"),
        binding_output: path_join(generated_root.as_str(), "uniffi"),
        jni_libs_output: resolve_optional(
            dir.as_str(),
            &android.jni_libs_output,
            "android/app/src/main/jniLibs",
        ),
        targets: copy_strings(&android.targets),
        build_mode: android.build_mode.clone(),
        lib_name: string_or(&config.shared.lib_name, "cross_kit_shared"),
        metadata_bin: config.shared.metadata_bin.clone(),
    })
}

/// The Android packager options of configuration `c` read from `config_path`.
pub open spec fn android_options_match(
    o: AndroidPackageOptions,
    config_path: Seq<char>,
    c: CrossKitConfig,
) -> bool {
    let a = c.android->0;
    let dir = config_dir_of(config_path);
    let output = relative_to(dir, value_or(a.package_output, "dist/android"@));
    let module_name = value_or(a.module_name, "crosskitshared"@);
    &&& o.crate_path@ == relative_to(dir, c.shared.crate_path@)
    &&& o.package_name@ == value_or(a.package_name, "com.crosskit.shared"@)
    &&& o.lib_name@ == value_or(c.shared.lib_name, "cross_kit_shared"@)
    &&& o.output@ == output
    &&& o.gradle_project@ == match a.gradle_project_output {
        Some(g) => relative_to(dir, g@),
        None => std_joined(output, "gradle-project"@),
    }
    &&& o.module_name@ == module_name
    &&& o.gradle_executable@ == relative_to(dir, value_or(a.gradle_executable, "android/gradlew"@))
    &&& match a.java_home {
        Some(j) => o.java_home matches Some(p) && p@ == relative_to(dir, j@),
        None => o.java_home is None,
    }
    &&& o.targets@ == a.targets@
    &&& o.build_mode == a.build_mode
    &&& o.metadata_bin == c.shared.metadata_bin
    &&& o.maven.group_id == a.maven.group_id
    &&& o.maven.version == a.maven.version
    &&& o.maven.artifact_id_explicit == a.maven.artifact_id_explicit
    &&& o.maven.artifact_id@ == if a.maven.artifact_id_explicit {
        a.maven.artifact_id@
    } else {
        module_name
    }
    &&& o.bindings == c.bindings
}

/// Maps `[shared]`, `[android]` and `[bindings]` of the configuration read
/// from `config_path` to Android packager options. Without an explicit Maven
/// artifact id, the module name is the artifact id.
pub fn android_package_options_from_config(config_path: &str, config: &CrossKitConfig) -> (res:
    Result<AndroidPackageOptions, PackagerError>)
    ensures
        match android_config_fault(config_path@, *config) {
            Some(m) => res matches Err(e) && e.message@ == m,
            None => res matches Ok(o) && android_options_match(o, config_path@, *config),
        },
{
    let android = check_android(config_path, config)?;
    let dir = config_dir(config_path);
    let output = resolve_optional(dir.as_str(), &android.package_output, "dist/android");
    let gradle_project = match &android.gradle_project_output {
        Some(g) => resolve_relative(dir.as_str(), g.as_str()),
        None => path_join(output.as_str(), "gradle-project"),
    };
    let module_name = string_or(&android.module_name, "crosskitshared");
    let artifact_id = if android.maven.artifact_id_explicit {
        android.maven.artifact_id.clone()
    } else {
        module_name.clone()
    };
    let maven = AndroidMavenConfig {
        group_id: android.maven.group_id.clone(),
        artifact_id,
        version: android.maven.version.clone(),
        artifact_id_explicit: android.maven.artifact_id_explicit,
    };
    let java_home = match &android.java_home {
        Some(j) => Some(resolve_relative(dir.as_str(), j.as_str())),
        None => None,
    };
    Ok(AndroidPackageOptions {
        crate_path: resolve_relative(dir.as_str(), config.shared.crate_path.as_str()),
        package_name: string_or(&android.package_name, "com.crosskit.shared"),
        lib_name: string_or(&config.shared.lib_name, "cross_kit_shared"),
        output,
        gradle_project,
        module_name,
        gradle_executable: resolve_optional(
            dir.as_str(),
            &android.gradle_executable,
            "android/gradlew",
        ),
        java_home,
        targets: copy_strings(&android.targets),
        build_mode: android.build_mode.clone(),
        metadata_bin: config.shared.metadata_bin.clone(),
        maven,
        bindings: copy_bindings(&config.bindings),
    })
}

/// The native build of the Android helper: `<crate>/Cargo.toml`, and the
/// library of the first target under the JNI libraries output.
pub fn android_native_plan(paths: &AndroidPaths) -> (res: Result<AndroidNativePlan, PackagerError>)
    ensures
        if paths.targets@.len() == 0 {
            res matches Err(e) && e.message@ == "[android].targets must not be empty"@
        } else {
            res matches Ok(plan) && plan.manifest@ == std_joined(paths.crate_path@, "Cargo.toml"@)
                && plan.library@ == std_joined(
                std_joined(paths.jni_libs_output@, paths.targets@[0]@),
                "lib"@ + paths.lib_name@ + ".so"@,
            )
        },
{
    if paths.targets.len() == 0 {
        return Err(packager_error(String::from_str("[android].targets must not be empty")));
    }
    let mut file = String::from_str("lib");
    file.append(paths.lib_name.as_str());
    file.append(".so");
    let target_dir = path_join(paths.jni_libs_output.as_str(), paths.targets[0].as_str());
    Ok(AndroidNativePlan {
        manifest: path_join(paths.crate_path.as_str(), "Cargo.toml"),
        library: path_join(target_dir.as_str(), file.as_str()),
    })
}

/// The arguments of `cargo` that build the helper's native libraries into the
/// JNI libraries output.
pub fn cargo_ndk_command(paths: &AndroidPaths, manifest: &str) -> (args: Vec<String>)
    ensures
        views(args@) == ndk_args(
            views(paths.targets@),
            paths.jni_libs_output@,
            manifest@,
            paths.build_mode@,
        ),
{
    ndk_command_args(&paths.targets, paths.jni_libs_output.as_str(), manifest, paths.build_mode.as_str())
}

} // verus!
