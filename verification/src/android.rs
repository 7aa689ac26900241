//! The Android packager's decisions: its options and their checks, where the
//! Gradle project, native libraries and AAR go, the `cargo ndk` and Gradle
//! invocations, and the Gradle project files.
use vstd::prelude::*;
use crate::cli::{relative_to, resolve_relative};
use crate::codegen::{file_view, file_views, GeneratedFile};
use crate::config::{AndroidMavenConfig, BindingsConfig};
use crate::packaging::{error_with, packager_error, path_join, std_joined, PackagerError};
use crate::text::{contains, is_blank, lemma_views_push, occurs_at, push_char, str_blank, str_eq, views};

verus! {

/// What `package_android` is asked to do. Paths are UTF-8 text.
#[derive(Debug, Clone, PartialEq, Eq)]
pub struct AndroidPackageOptions {
    pub crate_path: String,
    pub package_name: String,
    pub lib_name: String,
    pub output: String,
    pub gradle_project: String,
    pub module_name: String,
    pub gradle_executable: String,
    pub java_home: Option<String>,
    pub targets: Vec<String>,
    pub build_mode: String,
    pub metadata_bin: String,
    pub maven: AndroidMavenConfig,
    pub bindings: Option<BindingsConfig>,
}

/// What `package_android` produced.
#[derive(Debug, Clone, PartialEq, Eq)]
pub struct AndroidPackageReport {
    pub aar: String,
    pub maven_repo: String,
    pub gradle_project: String,
    pub module_dir: String,
}

/// Where the packager puts its work.
#[derive(Debug, Clone, PartialEq, Eq)]
pub struct AndroidPackageLayout {
    pub gradle_project: String,
    pub module_dir: String,
    pub kotlin_dir: String,
    pub jni_libs_dir: String,
    pub native_output_dir: String,
    pub maven_repo: String,
    pub aar_build_output: String,
    pub aar_final_output: String,
}

// ---------------------------------------------------------------------------
// Checks.
// ---------------------------------------------------------------------------

/// Some target of `targets` is blank.
pub open spec fn has_blank(targets: Seq<String>) -> bool {
    exists|i: int| 0 <= i < targets.len() && is_blank((#[trigger] targets[i])@)
}

/// The first problem of `o`, by the packager's order of checks.
pub open spec fn options_fault(o: AndroidPackageOptions) -> Option<Seq<char>> {
    if o.crate_path@.len() == 0 {
        Some("crate_path must not be empty"@)
    } else if is_blank(o.package_name@) {
        Some("package_name must not be empty"@)
    } else if is_blank(o.lib_name@) {
        Some("lib_name must not be empty"@)
    } else if is_blank(o.module_name@) {
        Some("module_name must not be empty"@)
    } else if o.targets@.len() == 0 || has_blank(o.targets@) {
        Some("targets must contain at least one non-empty Android ABI"@)
    } else if o.build_mode@ != "debug"@ && o.build_mode@ != "release"@ {
        Some(
            "unsupported Android build mode '"@ + o.build_mode@
                + "'; expected 'debug' or 'release'"@,
        )
    } else if is_blank(o.maven.group_id@) {
        Some("android.maven.group_id must not be empty"@)
    } else if is_blank(o.maven.artifact_id@) {
        Some("android.maven.artifact_id must not be empty"@)
    } else if is_blank(o.maven.version@) {
        Some("android.maven.version must not be empty"@)
    } else {
        None
    }
}

/// Whether some string of `v` is blank.
pub fn any_blank(v: &Vec<String>) -> (r: bool)
    ensures
        r == has_blank(v@),
{
    let mut i: usize = 0;
    while i < v.len()
        invariant
            i <= v@.len(),
            forall|j: int| 0 <= j < i ==> !is_blank((#[trigger] v@[j])@),
        decreases v@.len() - i,
    {
        if str_blank(v[i].as_str()) {
            return true;
        }
        i = i + 1;
    }
    false
}

fn fail(message: &str) -> (res: Result<(), PackagerError>)
    ensures
        res matches Err(e) && e.message@ == message@,
{
    Err(packager_error(String::from_str(message)))
}

/// Checks the options before any tool runs.
pub fn validate_options(options: &AndroidPackageOptions) -> (res: Result<(), PackagerError>)
    ensures
        match options_fault(*options) {
            None => res is Ok,
            Some(m) => res matches Err(e) && e.message@ == m,
        },
{
    if options.crate_path.as_str().unicode_len() == 0 {
        return fail("crate_path must not be empty");
    }
    if str_blank(options.package_name.as_str()) {
        return fail("package_name must not be empty");
    }
    if str_blank(options.lib_name.as_str()) {
        return fail("lib_name must not be empty");
    }
    if str_blank(options.module_name.as_str()) {
        return fail("module_name must not be empty");
    }
    if options.targets.len() == 0 || any_blank(&options.targets) {
        return fail("targets must contain at least one non-empty Android ABI");
    }
    if !str_eq(options.build_mode.as_str(), "debug") && !str_eq(
        options.build_mode.as_str(),
        "release",
    ) {
        return Err(
            error_with(
                "unsupported Android build mode '",
                options.build_mode.as_str(),
                "'; expected 'debug' or 'release'",
            ),
        );
    }
    if str_blank(options.maven.group_id.as_str()) {
        return fail("android.maven.group_id must not be empty");
    }
    if str_blank(options.maven.artifact_id.as_str()) {
        return fail("android.maven.artifact_id must not be empty");
    }
    if str_blank(options.maven.version.as_str()) {
        return fail("android.maven.version must not be empty");
    }
    Ok(())
}

// ---------------------------------------------------------------------------
// Layout and commands.
// ---------------------------------------------------------------------------

/// `<module>-<build mode>.aar`.
pub open spec fn aar_name(o: AndroidPackageOptions) -> Seq<char> {
    o.module_name@ + "-"@ + o.build_mode@ + ".aar"@
}

/// The layout of the packager's work for `o`.
pub open spec fn layout_matches(l: AndroidPackageLayout, o: AndroidPackageOptions) -> bool {
    let module_dir = std_joined(o.gradle_project@, o.module_name@);
    &&& l.gradle_project@ == o.gradle_project@
    &&& l.module_dir@ == module_dir
    &&& l.kotlin_dir@ == std_joined(module_dir, "src/main/kotlin"@)
    &&& l.jni_libs_dir@ == std_joined(module_dir, "src/main/jniLibs"@)
    &&& l.native_output_dir@ == std_joined(o.output@, "native"@)
    &&& l.maven_repo@ == std_joined(o.output@, "maven"@)
    &&& l.aar_build_output@ == std_joined(std_joined(module_dir, "build/outputs/aar"@), aar_name(o))
    &&& l.aar_final_output@ == std_joined(o.output@, aar_name(o))
}

/// Where the packager puts its work for `options`.
pub fn package_layout(options: &AndroidPackageOptions) -> (layout: AndroidPackageLayout)
    ensures
        layout_matches(layout, *options),
{
    let module_dir = path_join(options.gradle_project.as_str(), options.module_name.as_str());
    let mut aar_name = options.module_name.clone();
    aar_name.append("-");
    aar_name.append(options.build_mode.as_str());
    aar_name.append(".aar");
    let aar_dir = path_join(module_dir.as_str(), "build/outputs/aar");
    AndroidPackageLayout {
        gradle_project: options.gradle_project.clone(),
        kotlin_dir: path_join(module_dir.as_str(), "src/main/kotlin"),
        jni_libs_dir: path_join(module_dir.as_str(), "src/main/jniLibs"),
        native_output_dir: path_join(options.output.as_str(), "native"),
        maven_repo: path_join(options.output.as_str(), "maven"),
        aar_build_output: path_join(aar_dir.as_str(), aar_name.as_str()),
        aar_final_output: path_join(options.output.as_str(), aar_name.as_str()),
        module_dir,
    }
}

/// The report of a finished package for `layout`.
pub fn package_report(layout: &AndroidPackageLayout) -> (report: AndroidPackageReport)
    ensures
        report.aar@ == layout.aar_final_output@,
        report.maven_repo@ == layout.maven_repo@,
        report.gradle_project@ == layout.gradle_project@,
        report.module_dir@ == layout.module_dir@,
{
    AndroidPackageReport {
        aar: layout.aar_final_output.clone(),
        maven_repo: layout.maven_repo.clone(),
        gradle_project: layout.gradle_project.clone(),
        module_dir: layout.module_dir.clone(),
    }
}

/// `-t <target>` for each target, in order.
pub open spec fn target_args(targets: Seq<Seq<char>>) -> Seq<Seq<char>>
    decreases targets.len(),
{
    if targets.len() == 0 {
        Seq::empty()
    } else {
        target_args(targets.drop_last()) + seq!["-t"@, targets.last()]
    }
}

/// The arguments of `cargo` that build the native libraries of `targets` into
/// `output` with `cargo ndk`.
pub open spec fn ndk_args(
    targets: Seq<Seq<char>>,
    output: Seq<char>,
    manifest: Seq<char>,
    build_mode: Seq<char>,
) -> Seq<Seq<char>> {
    seq!["ndk"@] + target_args(targets) + seq!["-o"@, output, "build"@, "--manifest-path"@, manifest]
        + if build_mode == "release"@ {
        seq!["--release"@]
    } else {
        Seq::empty()
    }
}

/// The arguments of `cargo` for `cargo ndk`: every target, the output
/// directory and the manifest, and `--release` for a release build.
pub fn ndk_command_args(
    targets: &Vec<String>,
    output: &str,
    manifest: &str,
    build_mode: &str,
) -> (args: Vec<String>)
    ensures
        views(args@) == ndk_args(views(targets@), output@, manifest@, build_mode@),
{
    let mut args: Vec<String> = Vec::new();
    args.push(String::from_str("ndk"));
    let mut i: usize = 0;
    while i < targets.len()
        invariant
            i <= targets@.len(),
            views(args@) == seq!["ndk"@] + target_args(views(targets@).take(i as int)),
        decreases targets@.len() - i,
    {
        let ghost before = args@;
        let flag = String::from_str("-t");
        args.push(flag);
        proof {
            lemma_views_push(before, flag);
        }
        let ghost middle = args@;
        let target = targets[i].clone();
        args.push(target);
        proof {
            lemma_views_push(middle, target);
            assert(views(targets@).take(i + 1).drop_last() =~= views(targets@).take(i as int));
            assert(views(args@) =~= seq!["ndk"@] + target_args(views(targets@).take(i + 1)));
        }
        i = i + 1;
    }
    assert(views(targets@).take(targets@.len() as int) =~= views(targets@));
    let ghost prefix = args@;
    let mut tail: Vec<String> = Vec::new();
    tail.push(String::from_str("-o"));
    tail.push(String::from_str(output));
    tail.push(String::from_str("build"));
    tail.push(String::from_str("--manifest-path"));
    tail.push(String::from_str(manifest));
    if str_eq(build_mode, "release") {
        tail.push(String::from_str("--release"));
    }
    let ghost tail_view = views(tail@);
    args.append(&mut tail);
    assert(views(args@) =~= views(prefix) + tail_view);
    args
}

/// The `cargo ndk` arguments of the packager: its targets, into the native
/// output directory, from `manifest`.
pub fn cargo_ndk_command(options: &AndroidPackageOptions, manifest: &str, output: &str) -> (args:
    Vec<String>)
    ensures
        views(args@) == ndk_args(views(options.targets@), output@, manifest@, options.build_mode@),
{
    ndk_command_args(&options.targets, output, manifest, options.build_mode.as_str())
}

/// The Gradle variant of the build mode: `Debug` for `debug`, else `Release`.
pub open spec fn variant_of(build_mode: Seq<char>) -> Seq<char> {
    if build_mode == "debug"@ {
        "Debug"@
    } else {
        "Release"@
    }
}

/// The Gradle variant of the options' build mode.
pub fn gradle_variant(options: &AndroidPackageOptions) -> (v: &'static str)
    ensures
        v@ == variant_of(options.build_mode@),
{
    if str_eq(options.build_mode.as_str(), "debug") {
        "Debug"
    } else {
        "Release"
    }
}

/// The Gradle task path `:<module>:<task>`.
pub fn gradle_task_path(options: &AndroidPackageOptions, task_name: &str) -> (res: String)
    ensures
        res@ == ":"@ + options.module_name@ + ":"@ + task_name@,
{
    let mut s = String::from_str(":");
    s.append(options.module_name.as_str());
    s.append(":");
    s.append(task_name);
    s
}

/// The task that assembles the AAR: `assemble<Variant>`.
pub fn assemble_task(options: &AndroidPackageOptions) -> (res: String)
    ensures
        res@ == "assemble"@ + variant_of(options.build_mode@),
{
    let mut s = String::from_str("assemble");
    s.append(gradle_variant(options));
    s
}

/// The task that publishes the AAR to the local repository.
pub fn publish_task(options: &AndroidPackageOptions) -> (res: String)
    ensures
        res@ == "publish"@ + variant_of(options.build_mode@)
            + "PublicationToLocalCrossKitRepository"@,
{
    let mut s = String::from_str("publish");
    s.append(gradle_variant(options));
    s.append("PublicationToLocalCrossKitRepository");
    s
}

/// `lib<name>.so`.
pub open spec fn shared_library_name(lib_name: Seq<char>) -> Seq<char> {
    "lib"@ + lib_name + ".so"@
}

/// The native library of `target` under `dir`: `<dir>/<target>/lib<name>.so`.
pub open spec fn native_library(dir: Seq<char>, target: Seq<char>, lib_name: Seq<char>) -> Seq<char> {
    std_joined(std_joined(dir, target), shared_library_name(lib_name))
}

/// `<dir>/<target>/lib<name>.so`.
pub fn native_library_path(dir: &str, target: &str, lib_name: &str) -> (res: String)
    ensures
        res@ == native_library(dir@, target@, lib_name@),
{
    let mut file = String::from_str("lib");
    file.append(lib_name);
    file.append(".so");
    let target_dir = path_join(dir, target);
    path_join(target_dir.as_str(), file.as_str())
}

/// For each target, in order, where `cargo ndk` left its library and where the
/// Gradle module expects it.
pub fn native_library_copies(options: &AndroidPackageOptions, layout: &AndroidPackageLayout) -> (res:
    Vec<(String, String)>)
    ensures
        res@.len() == options.targets@.len(),
        forall|i: int|
            0 <= i < res@.len() ==> (#[trigger] res@[i]).0@ == native_library(
                layout.native_output_dir@,
                options.targets@[i]@,
                options.lib_name@,
            ) && res@[i].1@ == native_library(
                layout.jni_libs_dir@,
                options.targets@[i]@,
                options.lib_name@,
            ),
{
    let mut out: Vec<(String, String)> = Vec::new();
    let mut i: usize = 0;
    while i < options.targets.len()
        invariant
            i <= options.targets@.len(),
            out@.len() == i,
            forall|j: int|
                0 <= j < i ==> (#[trigger] out@[j]).0@ == native_library(
                    layout.native_output_dir@,
                    options.targets@[j]@,
                    options.lib_name@,
                ) && out@[j].1@ == native_library(
                    layout.jni_libs_dir@,
                    options.targets@[j]@,
                    options.lib_name@,
                ),
        decreases options.targets@.len() - i,
    {
        let target = options.targets[i].as_str();
        let source = native_library_path(
            layout.native_output_dir.as_str(),
            target,
            options.lib_name.as_str(),
        );
        let dest = native_library_path(layout.jni_libs_dir.as_str(), target, options.lib_name.as_str());
        out.push((source, dest));
        i = i + 1;
    }
    out
}

/// The library UniFFI reads the bindings from: the one built for the first
/// target.
pub fn uniffi_library(options: &AndroidPackageOptions, layout: &AndroidPackageLayout) -> (res: Result<
    String,
    PackagerError,
>)
    ensures
        if options.targets@.len() == 0 {
            res matches Err(e) && e.message@ == "targets must not be empty"@
        } else {
            res matches Ok(p) && p@ == native_library(
                layout.native_output_dir@,
                options.targets@[0]@,
                options.lib_name@,
            )
        },
{
    if options.targets.len() == 0 {
        return Err(packager_error(String::from_str("targets must not be empty")));
    }
    Ok(native_library_path(
        layout.native_output_dir.as_str(),
        options.targets[0].as_str(),
        options.lib_name.as_str(),
    ))
}

// ---------------------------------------------------------------------------
// Gradle project files.
// ---------------------------------------------------------------------------

/// A path as a Gradle string: each `\` doubled.
pub open spec fn gradle_escaped(path: Seq<char>) -> Seq<char>
    decreases path.len(),
{
    if path.len() == 0 {
        Seq::empty()
    } else {
        gradle_escaped(path.drop_last()) + if path.last() == '\\' {
            seq!['\\', '\\']
        } else {
            seq![path.last()]
        }
    }
}

/// The Gradle URI text of an absolute path: each `\` doubled.
pub fn gradle_uri_text(absolute_path: &str) -> (res: String)
    ensures
        res@ == gradle_escaped(absolute_path@),
{
    let ghost p = absolute_path@;
    let n = absolute_path.unicode_len();
    let mut out = String::new();
    let mut i: usize = 0;
    while i < n
        invariant
            i <= n,
            n == p.len(),
            p == absolute_path@,
            out@ == gradle_escaped(p.take(i as int)),
        decreases n - i,
    {
        let c = absolute_path.get_char(i);
        assert(p.take(i + 1).drop_last() =~= p.take(i as int));
        if c == '\\' {
            push_char(&mut out, '\\');
            push_char(&mut out, '\\');
        } else {
            push_char(&mut out, c);
        }
        i = i + 1;
        assert(out@ =~= gradle_escaped(p.take(i as int)));
    }
    assert(p.take(n as int) =~= p);
    out
}

/// The Gradle URI of `path`: a relative path is taken under `working_dir`,
/// then each `\\` is doubled.
pub fn gradle_uri(path: &str, working_dir: &str) -> (res: String)
    ensures
        res@ == gradle_escaped(relative_to(working_dir@, path@)),
{
    let absolute = resolve_relative(working_dir, path);
    gradle_uri_text(absolute.as_str())
}

/// `settings.gradle.kts` including the module.
pub open spec fn settings_gradle_text(module_name: Seq<char>) -> Seq<char> {
    "pluginManagement {\n    repositories {\n        google()\n        mavenCentral()\n        gradlePluginPortal()\n    }\n}\ndependencyResolutionManagement {\n    repositoriesMode.set(RepositoriesMode.FAIL_ON_PROJECT_REPOS)\n    repositories {\n        google()\n        mavenCentral()\n    }\n}\n\nrootProject.name = \"cross-kit-android-package\"\ninclude(\":"@
        + module_name
        + "\")\n"@
}

/// `settings.gradle.kts` including `module_name`.
pub fn settings_gradle(module_name: &str) -> (res: String)
    ensures
        res@ == settings_gradle_text(module_name@),
{
    let mut s = String::from_str("pluginManagement {\n    repositories {\n        google()\n        mavenCentral()\n        gradlePluginPortal()\n    }\n}\ndependencyResolutionManagement {\n    repositoriesMode.set(RepositoriesMode.FAIL_ON_PROJECT_REPOS)\n    repositories {\n        google()\n        mavenCentral()\n    }\n}\n\nrootProject.name = \"cross-kit-android-package\"\ninclude(\":");
    s.append(module_name);
    s.append("\")\n");
    s
}

/// The root `build.gradle.kts`.
pub open spec fn root_gradle_text() -> Seq<char> {
    "plugins {\n    id(\"com.android.library\") version \"8.6.1\" apply false\n    id(\"org.jetbrains.kotlin.android\") version \"1.9.0\" apply false\n}\n"@
}

/// The root `build.gradle.kts`.
pub fn root_gradle() -> (res: &'static str)
    ensures
        res@ == root_gradle_text(),
{
    "plugins {\n    id(\"com.android.library\") version \"8.6.1\" apply false\n    id(\"org.jetbrains.kotlin.android\") version \"1.9.0\" apply false\n}\n"
}

/// `gradle.properties`.
pub open spec fn gradle_properties_text() -> Seq<char> {
    "android.useAndroidX=true\nandroid.nonTransitiveRClass=true\n"@
}

/// `gradle.properties`.
pub fn gradle_properties() -> (res: &'static str)
    ensures
        res@ == gradle_properties_text(),
{
    "android.useAndroidX=true\nandroid.nonTransitiveRClass=true\n"
}

/// The module's `build.gradle.kts` for `o`, publishing to `maven_repo`.
pub open spec fn module_gradle_text(o: AndroidPackageOptions, maven_repo: Seq<char>) -> Seq<char> {
    "plugins {\n    id(\"com.android.library\")\n    id(\"org.jetbrains.kotlin.android\")\n    id(\"maven-publish\")\n}\n\ngroup = \""@
        + o.maven.group_id@
        + "\"\nversion = \""@
        + o.maven.version@
        + "\"\n\nandroid {\n    namespace = \""@
        + o.package_name@
        + "\"\n    compileSdk = 34\n\n    defaultConfig {\n        minSdk = 23\n        consumerProguardFiles(\"consumer-rules.pro\")\n    }\n\n    compileOptions {\n        sourceCompatibility = JavaVersion.VERSION_1_8\n        targetCompatibility = JavaVersion.VERSION_1_8\n    }\n    kotlinOptions {\n        jvmTarget = \"1.8\"\n    }\n    buildFeatures {\n        compose = true\n    }\n    composeOptions {\n        kotlinCompilerExtensionVersion = \"1.5.1\"\n    }\n}\n\ndependencies {\n    api(platform(\"androidx.compose:compose-bom:2024.04.01\"))\n    api(\"androidx.compose.runtime:runtime\")\n    implementation(\"net.java.dev.jna:jna:5.14.0@aar\")\n}\n\npublishing {\n    repositories {\n        maven {\n            name = \"localCrossKit\"\n            url = uri(\""@
        + maven_repo
        + "\")\n        }\n    }\n    publications {\n        create<MavenPublication>(\""@
        + o.build_mode@
        + "\") {\n            afterEvaluate {\n                from(components[\""@
        + o.build_mode@
        + "\"])\n            }\n            artifactId = \""@
        + o.maven.artifact_id@
        + "\"\n        }\n    }\n}\n"@
}

/// The module's `build.gradle.kts`, publishing to the Gradle URI `maven_repo`.
pub fn module_gradle(options: &AndroidPackageOptions, maven_repo: &str) -> (res: String)
    ensures
        res@ == module_gradle_text(*options, maven_repo@),
{
    let mut s = String::from_str("plugins {\n    id(\"com.android.library\")\n    id(\"org.jetbrains.kotlin.android\")\n    id(\"maven-publish\")\n}\n\ngroup = \"");
    s.append(options.maven.group_id.as_str());
    s.append("\"\nversion = \"");
    s.append(options.maven.version.as_str());
    s.append("\"\n\nandroid {\n    namespace = \"");
    s.append(options.package_name.as_str());
    s.append("\"\n    compileSdk = 34\n\n    defaultConfig {\n        minSdk = 23\n        consumerProguardFiles(\"consumer-rules.pro\")\n    }\n\n    compileOptions {\n        sourceCompatibility = JavaVersion.VERSION_1_8\n        targetCompatibility = JavaVersion.VERSION_1_8\n    }\n    kotlinOptions {\n        jvmTarget = \"1.8\"\n    }\n    buildFeatures {\n        compose = true\n    }\n    composeOptions {\n        kotlinCompilerExtensionVersion = \"1.5.1\"\n    }\n}\n\ndependencies {\n    api(platform(\"androidx.compose:compose-bom:2024.04.01\"))\n    api(\"androidx.compose.runtime:runtime\")\n    implementation(\"net.java.dev.jna:jna:5.14.0@aar\")\n}\n\npublishing {\n    repositories {\n        maven {\n            name = \"localCrossKit\"\n            url = uri(\"");
    s.append(maven_repo);
    s.append("\")\n        }\n    }\n    publications {\n        create<MavenPublication>(\"");
    s.append(options.build_mode.as_str());
    s.append("\") {\n            afterEvaluate {\n                from(components[\"");
    s.append(options.build_mode.as_str());
    s.append("\"])\n            }\n            artifactId = \"");
    s.append(options.maven.artifact_id.as_str());
    s.append("\"\n        }\n    }\n}\n");
    s
}

/// The module's `AndroidManifest.xml`.
pub open spec fn android_manifest_text() -> Seq<char> {
    "<manifest xmlns:android=\"http://schemas.android.com/apk/res/android\">\n    <uses-sdk android:minSdkVersion=\"23\" />\n</manifest>\n"@
}

/// The module's `AndroidManifest.xml`; it names no package, whatever
/// `package_name` is.
pub fn android_manifest(package_name: &str) -> (res: String)
    ensures
        res@ == android_manifest_text(),
{
    String::from_str("<manifest xmlns:android=\"http://schemas.android.com/apk/res/android\">\n    <uses-sdk android:minSdkVersion=\"23\" />\n</manifest>\n")
}

// ---------------------------------------------------------------------------
// The Gradle project.
// ---------------------------------------------------------------------------

/// The files of the generated Gradle project, in the order they are written,
/// with the module publishing to the Gradle URI `maven_repo_uri`.
pub open spec fn gradle_project_texts(
    o: AndroidPackageOptions,
    l: AndroidPackageLayout,
    maven_repo_uri: Seq<char>,
) -> Seq<(Seq<char>, Seq<char>)> {
    seq![
        (std_joined(l.gradle_project@, "settings.gradle.kts"@), settings_gradle_text(o.module_name@)),
        (std_joined(l.gradle_project@, "gradle.properties"@), gradle_properties_text()),
        (std_joined(l.gradle_project@, "build.gradle.kts"@), root_gradle_text()),
        (std_joined(l.module_dir@, "build.gradle.kts"@), module_gradle_text(o, maven_repo_uri)),
        (std_joined(l.module_dir@, "src/main/AndroidManifest.xml"@), android_manifest_text()),
        (std_joined(l.module_dir@, "consumer-rules.pro"@), Seq::empty()),
    ]
}

fn project_file(dir: &str, name: &str, contents: String) -> (f: GeneratedFile)
    ensures
        f.path@ == std_joined(dir@, name@),
        f.contents@ == contents@,
{
    GeneratedFile { path: path_join(dir, name), contents }
}

/// The files of the Gradle project for `options` laid out as `layout`, the
/// module publishing to `maven_repo_uri`.
pub fn gradle_project_files(
    options: &AndroidPackageOptions,
    layout: &AndroidPackageLayout,
    maven_repo_uri: &str,
) -> (res: Vec<GeneratedFile>)
    ensures
        file_views(res@) == gradle_project_texts(*options, *layout, maven_repo_uri@),
{
    let root = layout.gradle_project.as_str();
    let module = layout.module_dir.as_str();
    let mut files: Vec<GeneratedFile> = Vec::new();
    files.push(project_file(root, "settings.gradle.kts", settings_gradle(options.module_name.as_str())));
    files.push(project_file(root, "gradle.properties", String::from_str(gradle_properties())));
    files.push(project_file(root, "build.gradle.kts", String::from_str(root_gradle())));
    files.push(project_file(module, "build.gradle.kts", module_gradle(options, maven_repo_uri)));
    files.push(project_file(
        module,
        "src/main/AndroidManifest.xml",
        android_manifest(options.package_name.as_str()),
    ));
    files.push(project_file(module, "consumer-rules.pro", String::new()));
    assert(file_views(files@) =~= gradle_project_texts(*options, *layout, maven_repo_uri@));
    files
}

/// The module's build file publishes the Android component of the
/// configured build mode, under a publication of the same name: it holds
/// `create<MavenPublication>("<mode>")` and `from(components["<mode>"])`.
/// It also publishes under the configured artifact id, group and version,
/// to the given repository, for the configured namespace.
pub proof fn law_module_publishes_build_mode(o: AndroidPackageOptions, maven_repo: Seq<char>)
    ensures
        contains(
            module_gradle_text(o, maven_repo),
            "from(components[\""@ + o.build_mode@ + "\"])"@,
        ),
        contains(
            module_gradle_text(o, maven_repo),
            "create<MavenPublication>(\""@ + o.build_mode@ + "\")"@,
        ),
        contains(
            module_gradle_text(o, maven_repo),
            "artifactId = \""@ + o.maven.artifact_id@ + "\"\n"@,
        ),
        contains(
            module_gradle_text(o, maven_repo),
            "url = uri(\""@ + maven_repo + "\")"@,
        ),
        contains(
            module_gradle_text(o, maven_repo),
            "namespace = \""@ + o.package_name@ + "\"\n"@,
        ),
        contains(
            module_gradle_text(o, maven_repo),
            "group = \""@ + o.maven.group_id@ + "\"\nversion = \""@ + o.maven.version@ + "\"\n"@,
        ),
{
    let t = module_gradle_text(o, maven_repo);
    let m = o.build_mode@;
    let lb = "\") {\n            afterEvaluate {\n                from(components[\""@;
    let lc = "\"])\n            }\n            artifactId = \""@;
    let le = "\"\n        }\n    }\n}\n"@;
    let from = "from(components[\""@;
    let close = "\"])"@;
    let create = "create<MavenPublication>(\""@;
    let paren = "\")"@;
    reveal_strlit("\") {\n            afterEvaluate {\n                from(components[\"");
    reveal_strlit("\"])\n            }\n            artifactId = \"");
    reveal_strlit("\")\n        }\n    }\n    publications {\n        create<MavenPublication>(\"");
    reveal_strlit("from(components[\"");
    reveal_strlit("\"])");
    reveal_strlit("create<MavenPublication>(\"");
    reveal_strlit("\")");
    let aid = o.maven.artifact_id@;
    let f = from + m + close;
    let start = t.len() - le.len() - aid.len() - lc.len() - m.len() - from.len();
    assert(t.subrange(start, start + f.len()) =~= f);
    assert(occurs_at(t, f, start));
    let g = create + m + paren;
    let start2 = t.len() - le.len() - aid.len() - lc.len() - m.len() - lb.len() - m.len()
        - create.len();
    assert(t.subrange(start2, start2 + g.len()) =~= g);
    assert(occurs_at(t, g, start2));
    reveal_strlit("plugins {\n    id(\"com.android.library\")\n    id(\"org.jetbrains.kotlin.android\")\n    id(\"maven-publish\")\n}\n\ngroup = \"");
    reveal_strlit("\"\nversion = \"");
    reveal_strlit("\"\n\nandroid {\n    namespace = \"");
    reveal_strlit("\"\n    compileSdk = 34\n\n    defaultConfig {\n        minSdk = 23\n        consumerProguardFiles(\"consumer-rules.pro\")\n    }\n\n    compileOptions {\n        sourceCompatibility = JavaVersion.VERSION_1_8\n        targetCompatibility = JavaVersion.VERSION_1_8\n    }\n    kotlinOptions {\n        jvmTarget = \"1.8\"\n    }\n    buildFeatures {\n        compose = true\n    }\n    composeOptions {\n        kotlinCompilerExtensionVersion = \"1.5.1\"\n    }\n}\n\ndependencies {\n    api(platform(\"androidx.compose:compose-bom:2024.04.01\"))\n    api(\"androidx.compose.runtime:runtime\")\n    implementation(\"net.java.dev.jna:jna:5.14.0@aar\")\n}\n\npublishing {\n    repositories {\n        maven {\n            name = \"localCrossKit\"\n            url = uri(\"");
    reveal_strlit("\")\n        }\n    }\n    publications {\n        create<MavenPublication>(\"");
    reveal_strlit("\") {\n            afterEvaluate {\n                from(components[\"");
    reveal_strlit("\"])\n            }\n            artifactId = \"");
    reveal_strlit("\"\n        }\n    }\n}\n");
    reveal_strlit("artifactId = \"");
    reveal_strlit("\"\n");
    reveal_strlit("url = uri(\"");
    reveal_strlit("namespace = \"");
    reveal_strlit("group = \"");
    let l0 = "plugins {\n    id(\"com.android.library\")\n    id(\"org.jetbrains.kotlin.android\")\n    id(\"maven-publish\")\n}\n\ngroup = \""@;
    let l1 = "\"\nversion = \""@;
    let l2 = "\"\n\nandroid {\n    namespace = \""@;
    let l3 = "\"\n    compileSdk = 34\n\n    defaultConfig {\n        minSdk = 23\n        consumerProguardFiles(\"consumer-rules.pro\")\n    }\n\n    compileOptions {\n        sourceCompatibility = JavaVersion.VERSION_1_8\n        targetCompatibility = JavaVersion.VERSION_1_8\n    }\n    kotlinOptions {\n        jvmTarget = \"1.8\"\n    }\n    buildFeatures {\n        compose = true\n    }\n    composeOptions {\n        kotlinCompilerExtensionVersion = \"1.5.1\"\n    }\n}\n\ndependencies {\n    api(platform(\"androidx.compose:compose-bom:2024.04.01\"))\n    api(\"androidx.compose.runtime:runtime\")\n    implementation(\"net.java.dev.jna:jna:5.14.0@aar\")\n}\n\npublishing {\n    repositories {\n        maven {\n            name = \"localCrossKit\"\n            url = uri(\""@;
    let l4 = "\")\n        }\n    }\n    publications {\n        create<MavenPublication>(\""@;
    let gid = o.maven.group_id@;
    let ver = o.maven.version@;
    let pkg = o.package_name@;
    let art = "artifactId = \""@ + aid + "\"\n"@;
    let sa = t.len() - le.len() - aid.len() - 14;
    assert(t.subrange(sa, sa + art.len()) =~= art);
    assert(occurs_at(t, art, sa));
    let repo_start = l0.len() + gid.len() + l1.len() + ver.len() + l2.len() + pkg.len() + l3.len();
    let url = "url = uri(\""@ + maven_repo + "\")"@;
    let su = repo_start - 11;
    assert(t.subrange(su, su + url.len()) =~= url);
    assert(occurs_at(t, url, su));
    let ns = "namespace = \""@ + pkg + "\"\n"@;
    let sn = l0.len() + gid.len() + l1.len() + ver.len() + l2.len() - 13;
    assert(t.subrange(sn, sn + ns.len()) =~= ns);
    assert(occurs_at(t, ns, sn));
    let gv = "group = \""@ + gid + "\"\nversion = \""@ + ver + "\"\n"@;
    let sg = l0.len() - 9;
    assert(t.subrange(sg, sg + gv.len()) =~= gv);
    assert(occurs_at(t, gv, sg));
}

} // verus!
