//! The `cross-kit.toml` project configuration and its defaults.
use vstd::prelude::*;

verus! {

/// Cross-Kit project configuration loaded from `cross-kit.toml`.
#[derive(Debug, Clone, PartialEq, Eq)]
pub struct CrossKitConfig {
    /// Rust shared crate settings used by every target packager.
    pub shared: SharedConfig,
    /// Optional root graph settings for generated platform containers.
    pub bindings: Option<BindingsConfig>,
    /// Optional iOS packaging settings.
    pub ios: Option<IosConfig>,
    /// Optional Android packaging settings.
    pub android: Option<AndroidConfig>,
}

/// Rust shared crate settings used to build native libraries and metadata.
#[derive(Debug, Clone, PartialEq, Eq)]
pub struct SharedConfig {
    /// Path to the Rust crate that owns the Cross-Kit VM implementations.
    pub crate_path: String,
    /// Optional Cargo package name when it differs from the crate path name.
    pub package: Option<String>,
    /// Optional native library base name used by target packagers.
    pub lib_name: Option<String>,
    /// Cargo binary name that prints VM metadata JSON.
    pub metadata_bin: String,
}

/// Root graph settings for generated SwiftUI and Compose containers.
#[derive(Debug, Clone, PartialEq, Eq)]
pub struct BindingsConfig {
    /// Rust VM type that acts as the root of the generated graph.
    pub root_vm: String,
    /// Generated platform container name, such as `CrossKitSharedBridge`.
    pub container_name: String,
}

/// iOS packaging settings for Swift Package and native library output.
#[derive(Debug, Clone, PartialEq, Eq)]
pub struct IosConfig {
    /// Swift Package product/module name.
    pub package_name: String,
    /// Output directory for generated iOS artifacts.
    pub output: Option<String>,
    /// Optional XCFramework name override.
    pub xcframework_name: Option<String>,
    /// iOS build targets requested by the package command.
    pub targets: Vec<String>,
    /// Cargo build mode, usually `release` or `debug`.
    pub build_mode: String,
    /// Native library kind produced for iOS, `static` by default.
    pub lib_type: String,
    /// iOS package format, `spm` by default.
    pub format: String,
    /// Whether Cross-Kit should generate Swift bridge classes.
    pub swift_bridges: bool,
}

/// Android packaging settings for native libraries, Kotlin bindings, and AAR output.
#[derive(Debug, Clone, PartialEq, Eq)]
pub struct AndroidConfig {
    /// Kotlin package name for generated Android bindings.
    pub package_name: Option<String>,
    /// Legacy output directory for generated Android files.
    pub output: Option<String>,
    /// Optional destination for copied JNI libraries.
    pub jni_libs_output: Option<String>,
    /// Output directory for packaged Android artifacts.
    pub package_output: Option<String>,
    /// Optional output directory for the temporary generated Gradle project.
    pub gradle_project_output: Option<String>,
    /// Android library module name used inside the generated Gradle project.
    pub module_name: Option<String>,
    /// Gradle executable used by the Android packager.
    pub gradle_executable: Option<String>,
    /// Java home used for generated Gradle builds.
    pub java_home: Option<String>,
    /// Android ABI targets to build with `cargo-ndk`.
    pub targets: Vec<String>,
    /// Cargo build mode for Android native libraries.
    pub build_mode: String,
    /// Maven coordinates for the generated Android AAR.
    pub maven: AndroidMavenConfig,
}

/// Maven coordinates used when publishing generated Android AARs locally.
#[derive(Debug, Clone, PartialEq, Eq)]
pub struct AndroidMavenConfig {
    /// Maven group id, for example `com.crosskit`.
    pub group_id: String,
    /// Maven artifact id. If omitted in TOML, the CLI may derive it from the module name.
    pub artifact_id: String,
    /// Maven version for the generated AAR.
    pub version: String,
    /// Whether `artifact_id` was explicitly present in TOML.
    pub artifact_id_explicit: bool,
}

/// Default name of the metadata binary.
pub fn default_metadata_bin() -> (res: String)
    ensures
        res@ == "ck_vm_metadata"@,
{
    String::from_str("ck_vm_metadata")
}

/// Default iOS targets.
pub fn default_ios_targets() -> (res: Vec<String>)
    ensures
        res@.len() == 2,
        res@[0]@ == "ios"@,
        res@[1]@ == "ios-sim"@,
{
    let mut v = Vec::new();
    v.push(String::from_str("ios"));
    v.push(String::from_str("ios-sim"));
    v
}

/// Default Android ABIs.
pub fn default_android_targets() -> (res: Vec<String>)
    ensures
        res@.len() == 2,
        res@[0]@ == "arm64-v8a"@,
        res@[1]@ == "x86_64"@,
{
    let mut v = Vec::new();
    v.push(String::from_str("arm64-v8a"));
    v.push(String::from_str("x86_64"));
    v
}

/// Default Maven group id.
pub fn default_android_maven_group_id() -> (res: String)
    ensures
        res@ == "com.crosskit"@,
{
    String::from_str("com.crosskit")
}

/// Default Maven artifact id.
pub fn default_android_maven_artifact_id() -> (res: String)
    ensures
        res@ == "crosskitshared"@,
{
    String::from_str("crosskitshared")
}

/// Default Maven version.
pub fn default_android_maven_version() -> (res: String)
    ensures
        res@ == "0.1.0"@,
{
    String::from_str("0.1.0")
}

/// Default build mode.
pub fn default_release() -> (res: String)
    ensures
        res@ == "release"@,
{
    String::from_str("release")
}

/// Default iOS library kind.
pub fn default_static_lib() -> (res: String)
    ensures
        res@ == "static"@,
{
    String::from_str("static")
}

/// Default iOS package format.
pub fn default_spm() -> (res: String)
    ensures
        res@ == "spm"@,
{
    String::from_str("spm")
}

/// Default for switches that are on unless configured off.
pub fn default_true() -> (res: bool)
    ensures
        res,
{
    true
}

impl AndroidMavenConfig {
    /// The `[android.maven]` table from the keys present in it; absent keys
    /// take their defaults, and the artifact id is remembered as explicit
    /// exactly when it was given.
    pub fn from_table(
        group_id: Option<String>,
        artifact_id: Option<String>,
        version: Option<String>,
    ) -> (res: AndroidMavenConfig)
        ensures
            res.group_id@ == (match group_id {
                Some(g) => g@,
                None => "com.crosskit"@,
            }),
            res.artifact_id@ == (match artifact_id {
                Some(a) => a@,
                None => "crosskitshared"@,
            }),
            res.version@ == (match version {
                Some(v) => v@,
                None => "0.1.0"@,
            }),
            res.artifact_id_explicit == artifact_id is Some,
    {
        let artifact_id_explicit = artifact_id.is_some();
        AndroidMavenConfig {
            group_id: match group_id {
                Some(g) => g,
                None => default_android_maven_group_id(),
            },
            artifact_id: match artifact_id {
                Some(a) => a,
                None => default_android_maven_artifact_id(),
            },
            version: match version {
                Some(v) => v,
                None => default_android_maven_version(),
            },
            artifact_id_explicit,
        }
    }
}

impl Default for AndroidMavenConfig {
    fn default() -> (res: AndroidMavenConfig)
        ensures
            res.group_id@ == "com.crosskit"@,
            res.artifact_id@ == "crosskitshared"@,
            res.version@ == "0.1.0"@,
            !res.artifact_id_explicit,
    {
        AndroidMavenConfig {
            group_id: default_android_maven_group_id(),
            artifact_id: default_android_maven_artifact_id(),
            version: default_android_maven_version(),
            artifact_id_explicit: false,
        }
    }
}

} // verus!
