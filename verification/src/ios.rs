//! The iOS packager's decisions: its options, the Apple targets it builds,
//! where the libraries and package files go, and the package manifests.
use vstd::prelude::*;
use crate::bridge_meta::MethodInfo;
use crate::codegen::{
    codegen_message, fault_message, fault_of, file_view, file_views, only_file, GeneratedFile,
};
use crate::cli::copy_strings;
use crate::config::BindingsConfig;
use crate::metadata::VmMetadata;
use crate::swift::{
    generate_swift_bridge, generate_swift_root_container, swift_bridge_source,
    swift_root_container_source,
};
use crate::packaging::{
    error_with, packager_error, path_extension, path_file_name, path_file_stem, path_join,
    same_path, std_extension, std_file_name, std_file_stem, std_joined, std_same_path,
    utf8_joined, utf8_path_join, PackagerError,
};
use crate::text::{
    chars_ends_with, chars_of, contains, ends_with, is_blank, occurs_at, lemma_views_push, replace_char, replaced_char,
    str_blank, str_eq, views,
};

verus! {

/// `res` is `Ok` of the expected value, or an error with the expected message.
pub open spec fn outcome<T>(res: Result<T, PackagerError>, expected: Result<T, Seq<char>>) -> bool {
    match expected {
        Ok(v) => res == Ok::<T, PackagerError>(v),
        Err(m) => res matches Err(e) && e.message@ == m,
    }
}

// ---------------------------------------------------------------------------
// Options.
// ---------------------------------------------------------------------------

/// The Cargo profile to build.
#[derive(Debug, Clone, Copy, PartialEq, Eq, Structural)]
pub enum BuildMode {
    Debug,
    Release,
}

/// The kind of native library to package.
#[derive(Debug, Clone, Copy, PartialEq, Eq, Structural)]
pub enum LibType {
    Static,
    Dynamic,
}

/// The package manifest to write.
#[derive(Debug, Clone, Copy, PartialEq, Eq, Structural)]
pub enum PackageFormat {
    Spm,
    Pod,
}

/// The build mode that `value` names, or the message refusing it.
pub open spec fn build_mode_of(value: Seq<char>) -> Result<BuildMode, Seq<char>> {
    if value == "debug"@ {
        Ok(BuildMode::Debug)
    } else if value == "release"@ {
        Ok(BuildMode::Release)
    } else {
        Err("unsupported build mode '"@ + value + "'; expected 'debug' or 'release'"@)
    }
}

/// The library type that `value` names, or the message refusing it.
pub open spec fn lib_type_of(value: Seq<char>) -> Result<LibType, Seq<char>> {
    if value == "static"@ {
        Ok(LibType::Static)
    } else if value == "dynamic"@ {
        Ok(LibType::Dynamic)
    } else {
        Err("unsupported iOS lib type '"@ + value + "'; expected 'static' or 'dynamic'"@)
    }
}

/// The package format that `value` names, or the message refusing it.
pub open spec fn package_format_of(value: Seq<char>) -> Result<PackageFormat, Seq<char>> {
    if value == "spm"@ {
        Ok(PackageFormat::Spm)
    } else if value == "pod"@ {
        Ok(PackageFormat::Pod)
    } else {
        Err("unsupported iOS package format '"@ + value + "'; expected 'spm' or 'pod'"@)
    }
}

impl BuildMode {
    /// Parses `debug` or `release`.
    pub fn parse(value: &str) -> (res: Result<BuildMode, PackagerError>)
        ensures
            outcome(res, build_mode_of(value@)),
    {
        if str_eq(value, "debug") {
            Ok(BuildMode::Debug)
        } else if str_eq(value, "release") {
            Ok(BuildMode::Release)
        } else {
            Err(error_with("unsupported build mode '", value, "'; expected 'debug' or 'release'"))
        }
    }
}

impl LibType {
    /// Parses `static` or `dynamic`.
    pub fn parse(value: &str) -> (res: Result<LibType, PackagerError>)
        ensures
            outcome(res, lib_type_of(value@)),
    {
        if str_eq(value, "static") {
            Ok(LibType::Static)
        } else if str_eq(value, "dynamic") {
            Ok(LibType::Dynamic)
        } else {
            Err(error_with("unsupported iOS lib type '", value, "'; expected 'static' or 'dynamic'"))
        }
    }
}

impl PackageFormat {
    /// Parses `spm` or `pod`.
    pub fn parse(value: &str) -> (res: Result<PackageFormat, PackagerError>)
        ensures
            outcome(res, package_format_of(value@)),
    {
        if str_eq(value, "spm") {
            Ok(PackageFormat::Spm)
        } else if str_eq(value, "pod") {
            Ok(PackageFormat::Pod)
        } else {
            Err(error_with("unsupported iOS package format '", value, "'; expected 'spm' or 'pod'"))
        }
    }
}

impl std::str::FromStr for BuildMode {
    type Err = PackagerError;

    fn from_str(value: &str) -> (res: Result<BuildMode, PackagerError>)
        ensures
            outcome(res, build_mode_of(value@)),
    {
        BuildMode::parse(value)
    }
}

impl std::str::FromStr for LibType {
    type Err = PackagerError;

    fn from_str(value: &str) -> (res: Result<LibType, PackagerError>)
        ensures
            outcome(res, lib_type_of(value@)),
    {
        LibType::parse(value)
    }
}

impl std::str::FromStr for PackageFormat {
    type Err = PackagerError;

    fn from_str(value: &str) -> (res: Result<PackageFormat, PackagerError>)
        ensures
            outcome(res, package_format_of(value@)),
    {
        PackageFormat::parse(value)
    }
}

/// What `package_ios` is asked to do. Paths are UTF-8 text.
#[derive(Debug, Clone, PartialEq, Eq)]
pub struct IosPackageOptions {
    pub crate_path: String,
    pub package_name: Option<String>,
    pub package: Option<String>,
    pub lib_name: Option<String>,
    pub output: Option<String>,
    pub xcframework_name: Option<String>,
    pub targets: Option<Vec<String>>,
    pub build_mode: BuildMode,
    pub lib_type: LibType,
    pub format: PackageFormat,
    pub swift_bridges: bool,
    pub metadata_bin: String,
    pub bindings: Option<BindingsConfig>,
}

impl Default for IosPackageOptions {
    /// The defaults of the compatibility command: the current directory, a
    /// static release build, a Swift package, no bridges.
    fn default() -> (o: Self)
        ensures
            o.crate_path@ == "."@,
            o.package_name is None,
            o.package is None,
            o.lib_name is None,
            o.output is None,
            o.xcframework_name is None,
            o.targets is None,
            o.build_mode == BuildMode::Release,
            o.lib_type == LibType::Static,
            o.format == PackageFormat::Spm,
            !o.swift_bridges,
            o.metadata_bin@ == "ck_vm_metadata"@,
            o.bindings is None,
    {
        IosPackageOptions {
            crate_path: String::from_str("."),
            package_name: None,
            package: None,
            lib_name: None,
            output: None,
            xcframework_name: None,
            targets: None,
            build_mode: BuildMode::Release,
            lib_type: LibType::Static,
            format: PackageFormat::Spm,
            swift_bridges: false,
            metadata_bin: String::from_str("ck_vm_metadata"),
            bindings: None,
        }
    }
}

/// What `package_ios` produced.
#[derive(Debug, Clone, PartialEq, Eq)]
pub struct IosPackageReport {
    pub package_root: String,
    pub xcframework_path: String,
    pub package_name: String,
    pub lib_name: String,
    pub targets: Vec<String>,
}

// ---------------------------------------------------------------------------
// Targets.
// ---------------------------------------------------------------------------

/// The Apple platform a target triple builds for.
#[derive(Debug, Clone, Copy, PartialEq, Eq, Structural)]
pub enum ApplePlatform {
    Ios,
    IosSim,
    Macos,
}

/// The platform's name in merged library file names.
pub open spec fn platform_label(p: ApplePlatform) -> Seq<char> {
    match p {
        ApplePlatform::Ios => "ios"@,
        ApplePlatform::IosSim => "ios-sim"@,
        ApplePlatform::Macos => "macos"@,
    }
}

impl ApplePlatform {
    /// The platform's name in merged library file names.
    pub fn label(self) -> (res: &'static str)
        ensures
            res@ == platform_label(self),
    {
        match self {
            ApplePlatform::Ios => "ios",
            ApplePlatform::IosSim => "ios-sim",
            ApplePlatform::Macos => "macos",
        }
    }
}

/// The platform of a supported target triple.
pub open spec fn target_platform(target: Seq<char>) -> Option<ApplePlatform> {
    if target == "aarch64-apple-ios"@ {
        Some(ApplePlatform::Ios)
    } else if target == "aarch64-apple-ios-sim"@ || target == "x86_64-apple-ios"@ {
        Some(ApplePlatform::IosSim)
    } else if target == "aarch64-apple-darwin"@ || target == "x86_64-apple-darwin"@ {
        Some(ApplePlatform::Macos)
    } else {
        None
    }
}

/// The message refusing an unsupported target.
pub open spec fn unsupported_target(target: Seq<char>) -> Seq<char> {
    "unsupported apple target: "@ + target
}

/// The platform of `target`, or an error for an unsupported triple.
pub fn platform_for_target(target: &str) -> (res: Result<ApplePlatform, PackagerError>)
    ensures
        match target_platform(target@) {
            Some(p) => res == Ok::<ApplePlatform, PackagerError>(p),
            None => res matches Err(e) && e.message@ == unsupported_target(target@),
        },
{
    if str_eq(target, "aarch64-apple-ios") {
        Ok(ApplePlatform::Ios)
    } else if str_eq(target, "aarch64-apple-ios-sim") || str_eq(target, "x86_64-apple-ios") {
        Ok(ApplePlatform::IosSim)
    } else if str_eq(target, "aarch64-apple-darwin") || str_eq(target, "x86_64-apple-darwin") {
        Ok(ApplePlatform::Macos)
    } else {
        let mut message = String::from_str("unsupported apple target: ");
        message.append(target);
        Err(packager_error(message))
    }
}

/// The triple a configured target stands for: the short aliases `ios`,
/// `ios-sim`, `ios-sim-x86_64`, `macos` and `macos-x86_64`, or the value itself.
pub open spec fn target_alias(value: Seq<char>) -> Seq<char> {
    if value == "ios"@ {
        "aarch64-apple-ios"@
    } else if value == "ios-sim"@ {
        "aarch64-apple-ios-sim"@
    } else if value == "ios-sim-x86_64"@ {
        "x86_64-apple-ios"@
    } else if value == "macos"@ {
        "aarch64-apple-darwin"@
    } else if value == "macos-x86_64"@ {
        "x86_64-apple-darwin"@
    } else {
        value
    }
}

/// The first configured target at or after `i` whose triple is unsupported.
pub open spec fn first_unsupported(values: Seq<Seq<char>>, i: int) -> Option<int>
    decreases values.len() - i,
{
    if i < 0 || i >= values.len() {
        None
    } else if target_platform(target_alias(values[i])) is None {
        Some(i)
    } else {
        first_unsupported(values, i + 1)
    }
}

/// The configured targets: the given ones, or `ios` and `ios-sim`.
pub open spec fn configured_targets(values: Option<Seq<Seq<char>>>) -> Seq<Seq<char>> {
    match values {
        Some(v) => v,
        None => seq!["ios"@, "ios-sim"@],
    }
}

/// The target triples to build, or the message refusing the configuration.
pub open spec fn resolved_targets(values: Option<Seq<Seq<char>>>) -> Result<Seq<Seq<char>>, Seq<char>> {
    let v = configured_targets(values);
    if v.len() == 0 {
        Err("at least one iOS target must be configured"@)
    } else {
        match first_unsupported(v, 0) {
            Some(i) => Err(unsupported_target(target_alias(v[i]))),
            None => Ok(v.map_values(|t: Seq<char>| target_alias(t))),
        }
    }
}

/// The texts of an optional list of strings.
pub open spec fn opt_views(o: Option<Vec<String>>) -> Option<Seq<Seq<char>>> {
    match o {
        Some(v) => Some(views(v@)),
        None => None,
    }
}

fn alias_of(value: &str) -> (res: String)
    ensures
        res@ == target_alias(value@),
{
    let triple = if str_eq(value, "ios") {
        "aarch64-apple-ios"
    } else if str_eq(value, "ios-sim") {
        "aarch64-apple-ios-sim"
    } else if str_eq(value, "ios-sim-x86_64") {
        "x86_64-apple-ios"
    } else if str_eq(value, "macos") {
        "aarch64-apple-darwin"
    } else if str_eq(value, "macos-x86_64") {
        "x86_64-apple-darwin"
    } else {
        value
    };
    String::from_str(triple)
}

/// Resolves the configured targets to supported Apple target triples.
#[verifier::loop_isolation(false)]
pub fn resolve_targets(values: Option<Vec<String>>) -> (res: Result<Vec<String>, PackagerError>)
    ensures
        match resolved_targets(opt_views(values)) {
            Ok(ts) => res matches Ok(out) && views(out@) == ts,
            Err(m) => res matches Err(e) && e.message@ == m,
        },
{
    let ghost given = opt_views(values);
    let values = match values {
        Some(v) => v,
        None => {
            let mut v: Vec<String> = Vec::new();
            v.push(String::from_str("ios"));
            v.push(String::from_str("ios-sim"));
            v
        },
    };
    let ghost v = configured_targets(given);
    assert(views(values@) =~= v);
    if values.len() == 0 {
        return Err(packager_error(String::from_str("at least one iOS target must be configured")));
    }
    let mut targets: Vec<String> = Vec::new();
    let mut i: usize = 0;
    while i < values.len()
        invariant
            i <= values@.len(),
            v == views(values@),
            v == configured_targets(given),
            v.len() > 0,
            first_unsupported(v, 0) == first_unsupported(v, i as int),
            views(targets@) == v.take(i as int).map_values(|t: Seq<char>| target_alias(t)),
        decreases values@.len() - i,
    {
        assert(v[i as int] == values@[i as int]@);
        let triple = alias_of(values[i].as_str());
        match platform_for_target(triple.as_str()) {
            Ok(_) => {},
            Err(e) => {
                assert(first_unsupported(v, i as int) == Some(i as int));
                assert(resolved_targets(given) == Err::<Seq<Seq<char>>, Seq<char>>(
                    unsupported_target(target_alias(v[i as int])),
                ));
                return Err(e);
            },
        }
        let ghost before = targets@;
        targets.push(triple);
        proof {
            lemma_views_push(before, triple);
        }
        i = i + 1;
        assert(views(targets@) =~= v.take(i as int).map_values(
            |t: Seq<char>| target_alias(t),
        ));
    }
    assert(v.take(values@.len() as int) =~= v);
    Ok(targets)
}

proof fn lemma_supported_from(values: Seq<Seq<char>>, i: int)
    requires
        0 <= i,
        first_unsupported(values, i) is None,
    ensures
        forall|k: int| i <= k < values.len() ==> target_platform(#[trigger] target_alias(values[k])) is Some,
    decreases values.len() - i,
{
    if i < values.len() {
        lemma_supported_from(values, i + 1);
    }
}

/// Every target triple that `resolve_targets` accepts is one of the
/// supported Apple triples.
pub proof fn law_resolved_targets_supported(values: Option<Seq<Seq<char>>>)
    ensures
        resolved_targets(values) matches Ok(ts) ==> forall|k: int|
            0 <= k < ts.len() ==> target_platform(#[trigger] ts[k]) is Some,
{
    let v = configured_targets(values);
    if v.len() > 0 && first_unsupported(v, 0) is None {
        lemma_supported_from(v, 0);
        let ts = v.map_values(|t: Seq<char>| target_alias(t));
        assert forall|k: int| 0 <= k < ts.len() implies target_platform(#[trigger] ts[k]) is Some by {
            assert(ts[k] == target_alias(v[k]));
        }
    }
}

// ---------------------------------------------------------------------------
// Libraries.
// ---------------------------------------------------------------------------

/// The Cargo profile directory of a build mode.
pub open spec fn profile_dir(mode: BuildMode) -> Seq<char> {
    match mode {
        BuildMode::Debug => "debug"@,
        BuildMode::Release => "release"@,
    }
}

/// The file name of the native library `lib_name` of type `lib_type`.
pub open spec fn library_file_name(lib_name: Seq<char>, lib_type: LibType) -> Seq<char> {
    match lib_type {
        LibType::Static => "lib"@ + lib_name + ".a"@,
        LibType::Dynamic => "lib"@ + lib_name + ".dylib"@,
    }
}

/// `<target_dir>/<target>/<profile>/<library file>`.
pub open spec fn library_path(
    target_dir: Seq<char>,
    target: Seq<char>,
    mode: BuildMode,
    lib_name: Seq<char>,
    lib_type: LibType,
) -> Seq<char> {
    utf8_joined(
        utf8_joined(utf8_joined(target_dir, target), profile_dir(mode)),
        library_file_name(lib_name, lib_type),
    )
}

/// Where Cargo puts the library `lib_name` built for `target` in `build_mode`.
pub fn lib_output_path(
    target_dir: &str,
    target: &str,
    build_mode: BuildMode,
    lib_name: &str,
    lib_type: LibType,
) -> (res: Result<String, PackagerError>)
    ensures
        res matches Ok(p) && p@ == library_path(target_dir@, target@, build_mode, lib_name@, lib_type),
{
    let profile = match build_mode {
        BuildMode::Debug => "debug",
        BuildMode::Release => "release",
    };
    let mut file_name = String::from_str("lib");
    file_name.append(lib_name);
    match lib_type {
        LibType::Static => file_name.append(".a"),
        LibType::Dynamic => file_name.append(".dylib"),
    }
    let dir = utf8_path_join(target_dir, target);
    let dir = utf8_path_join(dir.as_str(), profile);
    Ok(utf8_path_join(dir.as_str(), file_name.as_str()))
}

/// How the libraries of one platform reach the XCFramework.
#[derive(Debug, Clone, PartialEq, Eq)]
pub enum LibraryMerge {
    /// The platform's only library, used as it is.
    Single(String),
    /// Several libraries merged by `lipo` into `output`.
    Lipo { platform: ApplePlatform, inputs: Vec<String>, output: String },
}

/// A `LibraryMerge` with its texts as character sequences.
pub ghost enum MergeStep {
    Single(Seq<char>),
    Lipo(ApplePlatform, Seq<Seq<char>>, Seq<char>),
}

/// The step a `LibraryMerge` stands for.
pub open spec fn merge_view(m: LibraryMerge) -> MergeStep {
    match m {
        LibraryMerge::Single(p) => MergeStep::Single(p@),
        LibraryMerge::Lipo { platform, inputs, output } => MergeStep::Lipo(
            platform,
            views(inputs@),
            output@,
        ),
    }
}

/// The libraries among the first `k` whose target builds for `p`, in order.
pub open spec fn platform_libs(
    targets: Seq<Seq<char>>,
    libs: Seq<Seq<char>>,
    p: ApplePlatform,
    k: int,
) -> Seq<Seq<char>>
    decreases k,
{
    if k <= 0 {
        Seq::empty()
    } else {
        platform_libs(targets, libs, p, k - 1) + if target_platform(targets[k - 1]) == Some(p) {
            seq![libs[k - 1]]
        } else {
            Seq::empty()
        }
    }
}

/// The first of the first `n` targets that is unsupported.
pub open spec fn first_bad_target(targets: Seq<Seq<char>>, n: int, i: int) -> Option<int>
    decreases n - i,
{
    if i < 0 || i >= n {
        None
    } else if target_platform(targets[i]) is None {
        Some(i)
    } else {
        first_bad_target(targets, n, i + 1)
    }
}

/// The merged library of a platform with several libraries:
/// `<output_root>/_lipo/<label>-<file name of the first library>`.
pub open spec fn lipo_output(output_root: Seq<char>, p: ApplePlatform, file_name: Seq<char>) -> Seq<char> {
    std_joined(std_joined(output_root, "_lipo"@), platform_label(p) + "-"@ + file_name)
}

/// The plan so far, extended with platform `p` and its libraries `libs`.
pub open spec fn add_platform(
    plan: Result<Seq<MergeStep>, Seq<char>>,
    p: ApplePlatform,
    libs: Seq<Seq<char>>,
    output_root: Seq<char>,
) -> Result<Seq<MergeStep>, Seq<char>> {
    match plan {
        Err(m) => Err(m),
        Ok(steps) => if libs.len() == 0 {
            Ok(steps)
        } else if libs.len() == 1 {
            Ok(steps.push(MergeStep::Single(libs[0])))
        } else {
            match std_file_name(libs[0]) {
                None => Err("invalid library filename"@),
                Some(name) => Ok(
                    steps.push(MergeStep::Lipo(p, libs, lipo_output(output_root, p, name))),
                ),
            }
        },
    }
}

/// The merge plan of the libraries built for `targets`, paired in order:
/// per platform (iOS, simulator, macOS), its one library, or a `lipo` merge
/// of its several; or the message refusing the input.
pub open spec fn merge_plan(
    targets: Seq<Seq<char>>,
    libs: Seq<Seq<char>>,
    output_root: Seq<char>,
) -> Result<Seq<MergeStep>, Seq<char>> {
    let n = if targets.len() < libs.len() {
        targets.len() as int
    } else {
        libs.len() as int
    };
    match first_bad_target(targets, n, 0) {
        Some(i) => Err(unsupported_target(targets[i])),
        None => add_platform(
            add_platform(
                add_platform(
                    Ok(Seq::empty()),
                    ApplePlatform::Ios,
                    platform_libs(targets, libs, ApplePlatform::Ios, n),
                    output_root,
                ),
                ApplePlatform::IosSim,
                platform_libs(targets, libs, ApplePlatform::IosSim, n),
                output_root,
            ),
            ApplePlatform::Macos,
            platform_libs(targets, libs, ApplePlatform::Macos, n),
            output_root,
        ),
    }
}

fn add_platform_step(
    plan: &mut Vec<LibraryMerge>,
    p: ApplePlatform,
    libs: Vec<String>,
    output_root: &str,
) -> (res: Result<(), PackagerError>)
    ensures
        match add_platform(
            Ok(old(plan)@.map_values(|m: LibraryMerge| merge_view(m))),
            p,
            views(libs@),
            output_root@,
        ) {
            Ok(steps) => res is Ok && final(plan)@.map_values(|m: LibraryMerge| merge_view(m)) == steps,
            Err(msg) => res matches Err(e) && e.message@ == msg,
        },
{
    let ghost before = plan@;
    if libs.len() == 0 {
        return Ok(());
    }
    if libs.len() == 1 {
        let only = libs[0].clone();
        plan.push(LibraryMerge::Single(only));
        assert(plan@.map_values(|m: LibraryMerge| merge_view(m)) =~= before.map_values(
            |m: LibraryMerge| merge_view(m),
        ).push(MergeStep::Single(libs@[0]@)));
        return Ok(());
    }
    let name = match path_file_name(libs[0].as_str()) {
        Some(name) => name,
        None => {
            return Err(packager_error(String::from_str("invalid library filename")));
        },
    };
    let lipo_root = path_join(output_root, "_lipo");
    let mut merged = String::from_str(p.label());
    merged.append("-");
    merged.append(name.as_str());
    let output = path_join(lipo_root.as_str(), merged.as_str());
    let ghost step = MergeStep::Lipo(p, views(libs@), output@);
    plan.push(LibraryMerge::Lipo { platform: p, inputs: libs, output });
    assert(plan@.map_values(|m: LibraryMerge| merge_view(m)) =~= before.map_values(
        |m: LibraryMerge| merge_view(m),
    ).push(step));
    Ok(())
}

/// Plans how the libraries built for `targets` (paired in order with
/// `lib_paths`) reach the XCFramework: per platform, in the order iOS,
/// simulator, macOS, its only library, or a `lipo` merge into `_lipo` under
/// `output_root`.
pub fn coalesce_libraries(
    targets: &Vec<String>,
    lib_paths: &Vec<String>,
    output_root: &str,
) -> (res: Result<Vec<LibraryMerge>, PackagerError>)
    ensures
        match merge_plan(views(targets@), views(lib_paths@), output_root@) {
            Ok(steps) => res matches Ok(plan) && plan@.map_values(|m: LibraryMerge| merge_view(m)) == steps,
            Err(msg) => res matches Err(e) && e.message@ == msg,
        },
{
    let ghost ts = views(targets@);
    let ghost ls = views(lib_paths@);
    let n = if targets.len() < lib_paths.len() {
        targets.len()
    } else {
        lib_paths.len()
    };
    let mut ios: Vec<String> = Vec::new();
    let mut sim: Vec<String> = Vec::new();
    let mut mac: Vec<String> = Vec::new();
    let mut i: usize = 0;
    while i < n
        invariant
            i <= n,
            n <= targets@.len(),
            n <= lib_paths@.len(),
            n as int == (if ts.len() < ls.len() { ts.len() as int } else { ls.len() as int }),
            ts == views(targets@),
            ls == views(lib_paths@),
            first_bad_target(ts, n as int, 0) == first_bad_target(ts, n as int, i as int),
            views(ios@) == platform_libs(ts, ls, ApplePlatform::Ios, i as int),
            views(sim@) == platform_libs(ts, ls, ApplePlatform::IosSim, i as int),
            views(mac@) == platform_libs(ts, ls, ApplePlatform::Macos, i as int),
        decreases n - i,
    {
        let lib = lib_paths[i].clone();
        match platform_for_target(targets[i].as_str()) {
            Ok(ApplePlatform::Ios) => ios.push(lib),
            Ok(ApplePlatform::IosSim) => sim.push(lib),
            Ok(ApplePlatform::Macos) => mac.push(lib),
            Err(e) => {
                return Err(e);
            },
        }
        i = i + 1;
        assert(views(ios@) =~= platform_libs(ts, ls, ApplePlatform::Ios, i as int));
        assert(views(sim@) =~= platform_libs(ts, ls, ApplePlatform::IosSim, i as int));
        assert(views(mac@) =~= platform_libs(ts, ls, ApplePlatform::Macos, i as int));
    }
    let mut plan: Vec<LibraryMerge> = Vec::new();
    assert(plan@.map_values(|m: LibraryMerge| merge_view(m)) =~= Seq::<MergeStep>::empty());
    add_platform_step(&mut plan, ApplePlatform::Ios, ios, output_root)?;
    add_platform_step(&mut plan, ApplePlatform::IosSim, sim, output_root)?;
    add_platform_step(&mut plan, ApplePlatform::Macos, mac, output_root)?;
    Ok(plan)
}

// ---------------------------------------------------------------------------
// The package.
// ---------------------------------------------------------------------------

/// The names and places of one iOS package.
#[derive(Debug, Clone, PartialEq, Eq)]
pub struct IosPackagePlan {
    pub lib_name: String,
    pub package_name: String,
    pub xcframework_name: String,
    pub targets: Vec<String>,
    pub output_root: String,
}

/// The option's value, or the default.
pub open spec fn or_default(o: Option<String>, default: Seq<char>) -> Seq<char> {
    match o {
        Some(s) => s@,
        None => default,
    }
}

/// The library name: the option, or the library target's name with `-` as `_`.
pub open spec fn planned_lib_name(o: IosPackageOptions, lib_target_name: Seq<char>) -> Seq<char> {
    or_default(o.lib_name, replace_char(lib_target_name, '-', '_'))
}

/// The names, targets and output root of the package for `options`, given the
/// name of the crate's library target and of its package; or why there are none.
pub open spec fn plan_matches(
    res: Result<IosPackagePlan, PackagerError>,
    o: IosPackageOptions,
    lib_target_name: Seq<char>,
    package: Seq<char>,
) -> bool {
    let lib_name = planned_lib_name(o, lib_target_name);
    match resolved_targets(opt_views(o.targets)) {
        Err(m) => res matches Err(e) && e.message@ == m,
        Ok(ts) => res matches Ok(plan) && plan.lib_name@ == lib_name && plan.package_name@
            == or_default(o.package_name, package) && plan.xcframework_name@ == or_default(
            o.xcframework_name,
            lib_name + "FFI"@,
        ) && views(plan.targets@) == ts && plan.output_root@ == or_default(
            o.output,
            std_joined(o.crate_path@, "dist"@),
        ),
    }
}

fn copy_targets(o: &Option<Vec<String>>) -> (res: Option<Vec<String>>)
    ensures
        match (*o, res) {
            (Some(a), Some(b)) => views(a@) == views(b@),
            (None, None) => true,
            _ => false,
        },
{
    match o {
        None => None,
        Some(v) => {
            let mut out: Vec<String> = Vec::new();
            let mut i: usize = 0;
            while i < v.len()
                invariant
                    i <= v@.len(),
                    views(out@) == views(v@).take(i as int),
                decreases v@.len() - i,
            {
                let item = v[i].clone();
                assert(item@ == v@[i as int]@);
                let ghost before = out@;
                out.push(item);
                proof {
                    lemma_views_push(before, item);
                }
                i = i + 1;
                assert(views(out@) =~= views(v@).take(i as int));
            }
            assert(views(v@).take(v@.len() as int) =~= views(v@));
            Some(out)
        },
    }
}

fn option_or(o: &Option<String>, default: String) -> (res: String)
    ensures
        res@ == or_default(*o, default@),
{
    match o {
        Some(s) => s.clone(),
        None => default,
    }
}

/// Decides the names, targets and output root of the package for `options`,
/// given the crate's library target name and package name.
pub fn plan_ios_package(
    options: &IosPackageOptions,
    lib_target_name: &str,
    package: &str,
) -> (res: Result<IosPackagePlan, PackagerError>)
    ensures
        plan_matches(res, *options, lib_target_name@, package@),
{
    let lib_name = option_or(&options.lib_name, replaced_char(lib_target_name, '-', '_'));
    let package_name = option_or(&options.package_name, String::from_str(package));
    let mut default_xcframework = lib_name.clone();
    default_xcframework.append("FFI");
    let xcframework_name = option_or(&options.xcframework_name, default_xcframework);
    let targets = resolve_targets(copy_targets(&options.targets))?;
    let output_root = option_or(&options.output, path_join(options.crate_path.as_str(), "dist"));
    Ok(IosPackagePlan { lib_name, package_name, xcframework_name, targets, output_root })
}

/// What `package_ios` reports for `plan` when its output directory, made
/// canonical, is `root`: the package directory and the XCFramework inside
/// `root`, and the plan's names and targets.
pub open spec fn report_matches(r: IosPackageReport, plan: IosPackagePlan, root: Seq<char>) -> bool {
    &&& r.package_root@ == std_joined(root, plan.package_name@)
    &&& r.xcframework_path@ == std_joined(root, plan.xcframework_name@ + ".xcframework"@)
    &&& r.package_name == plan.package_name
    &&& r.lib_name == plan.lib_name
    &&& r.targets@ == plan.targets@
}

/// The report of packaging `plan` into the output directory `root` (the
/// plan's output root made canonical).
pub fn ios_report(plan: &IosPackagePlan, root: &str) -> (r: IosPackageReport)
    ensures
        report_matches(r, *plan, root@),
{
    let mut xcframework = plan.xcframework_name.clone();
    xcframework.append(".xcframework");
    proof {
        reveal_strlit(".xcframework");
    }
    IosPackageReport {
        package_root: path_join(root, plan.package_name.as_str()),
        xcframework_path: path_join(root, xcframework.as_str()),
        package_name: plan.package_name.clone(),
        lib_name: plan.lib_name.clone(),
        targets: copy_strings(&plan.targets),
    }
}

/// `Package.swift` of a Swift package wrapping the XCFramework.
pub open spec fn spm_manifest_text(package_name: Seq<char>, xcframework_name: Seq<char>) -> Seq<char> {
    "// swift-tools-version:5.5\nimport PackageDescription\n\nlet package = Package(\n    name: \""@
    + package_name
    + "\",\n    platforms: [\n        .iOS(.v13),\n        .macOS(.v10_15)\n    ],\n    products: [\n        .library(\n            name: \""@
    + package_name
    + "\",\n            targets: [\""@
    + package_name
    + "\"]\n        )\n    ],\n    targets: [\n        .binaryTarget(\n            name: \""@
    + xcframework_name
    + "\",\n            path: \"./"@
    + xcframework_name
    + ".xcframework\"\n        ),\n        .target(\n            name: \""@
    + package_name
    + "\",\n            dependencies: [\n                .target(name: \""@
    + xcframework_name
    + "\")\n            ]\n        )\n    ]\n)\n"@
}

/// The `.podspec` of a CocoaPods pod wrapping the XCFramework.
pub open spec fn podspec_text(package_name: Seq<char>, xcframework_name: Seq<char>) -> Seq<char> {
    "Pod::Spec.new do |s|\n  s.name = \""@
    + package_name
    + "\"\n  s.version = \"0.1.0\"\n  s.summary = \"Generated UniFFI bindings for "@
    + package_name
    + "\"\n  s.license = { :type => \"Proprietary\" }\n  s.authors = { \"Cross-Kit\" => \"dev@cross-kit.local\" }\n  s.homepage = \"https://example.invalid\"\n  s.source = { :path => \".\" }\n  s.vendored_frameworks = \""@
    + xcframework_name
    + ".xcframework\"\n  s.source_files = \"Sources/"@
    + package_name
    + "/**/*.swift\"\n  s.swift_version = \"5.9\"\nend\n"@
}

/// Writes `Package.swift` for `package_name` around `xcframework_name`.
pub fn spm_manifest(package_name: &str, xcframework_name: &str) -> (res: String)
    ensures
        res@ == spm_manifest_text(package_name@, xcframework_name@),
{
    let mut s = String::from_str("// swift-tools-version:5.5\nimport PackageDescription\n\nlet package = Package(\n    name: \"");
    s.append(package_name);
    s.append("\",\n    platforms: [\n        .iOS(.v13),\n        .macOS(.v10_15)\n    ],\n    products: [\n        .library(\n            name: \"");
    s.append(package_name);
    s.append("\",\n            targets: [\"");
    s.append(package_name);
    s.append("\"]\n        )\n    ],\n    targets: [\n        .binaryTarget(\n            name: \"");
    s.append(xcframework_name);
    s.append("\",\n            path: \"./");
    s.append(xcframework_name);
    s.append(".xcframework\"\n        ),\n        .target(\n            name: \"");
    s.append(package_name);
    s.append("\",\n            dependencies: [\n                .target(name: \"");
    s.append(xcframework_name);
    s.append("\")\n            ]\n        )\n    ]\n)\n");
    s
}

/// Writes the `.podspec` for `package_name` around `xcframework_name`.
pub fn podspec(package_name: &str, xcframework_name: &str) -> (res: String)
    ensures
        res@ == podspec_text(package_name@, xcframework_name@),
{
    let mut s = String::from_str("Pod::Spec.new do |s|\n  s.name = \"");
    s.append(package_name);
    s.append("\"\n  s.version = \"0.1.0\"\n  s.summary = \"Generated UniFFI bindings for ");
    s.append(package_name);
    s.append("\"\n  s.license = { :type => \"Proprietary\" }\n  s.authors = { \"Cross-Kit\" => \"dev@cross-kit.local\" }\n  s.homepage = \"https://example.invalid\"\n  s.source = { :path => \".\" }\n  s.vendored_frameworks = \"");
    s.append(xcframework_name);
    s.append(".xcframework\"\n  s.source_files = \"Sources/");
    s.append(package_name);
    s.append("/**/*.swift\"\n  s.swift_version = \"5.9\"\nend\n");
    s
}

// ---------------------------------------------------------------------------
// Swift bridges of the package.
// ---------------------------------------------------------------------------

/// One entry the metadata binary prints: the attribute's options and public
/// methods, with the VM metadata, or (from older attributes) only the Swift
/// bridge the attribute generated itself.
#[derive(Debug)]
pub struct VmMeta {
    pub swift_bridge: String,
    pub mode: String,
    pub vm_type: String,
    pub observer: String,
    pub observer_method: String,
    pub state_type: String,
    pub diff_type: String,
    pub list_item_type: String,
    pub methods: Vec<MethodInfo>,
    pub ir: Option<VmMetadata>,
    pub swift_code: Option<String>,
}

/// The bridge file of one entry: generated from its metadata when it has
/// some, else its embedded Swift bridge, which must not be blank.
pub open spec fn meta_bridge_text(m: VmMeta) -> Result<(Seq<char>, Seq<char>), Seq<char>> {
    match m.ir {
        Some(ir) => match swift_bridge_source(ir) {
            Ok(t) => Ok((ir.bridge_name@ + ".swift"@, t)),
            Err(f) => Err(
                "failed to generate Swift bridge for "@ + m.vm_type@ + ": "@ + fault_message(f),
            ),
        },
        None => match m.swift_code {
            Some(code) => if is_blank(code@) {
                Err("swift_code missing for "@ + m.vm_type@)
            } else {
                Ok((m.swift_bridge@ + ".swift"@, code@))
            },
            None => Err("swift_code missing for "@ + m.vm_type@),
        },
    }
}

/// The bridge files of `ms`, in order, or the refusal of the first entry that
/// has none.
pub open spec fn meta_bridge_texts(ms: Seq<VmMeta>) -> Result<Seq<(Seq<char>, Seq<char>)>, Seq<char>>
    decreases ms.len(),
{
    if ms.len() == 0 {
        Ok(Seq::empty())
    } else {
        match meta_bridge_texts(ms.drop_last()) {
            Err(m) => Err(m),
            Ok(files) => match meta_bridge_text(ms.last()) {
                Err(m) => Err(m),
                Ok(f) => Ok(files.push(f)),
            },
        }
    }
}

/// The VM metadata of the entries that carry some, in order.
pub open spec fn meta_irs(ms: Seq<VmMeta>) -> Seq<VmMetadata>
    decreases ms.len(),
{
    if ms.len() == 0 {
        Seq::empty()
    } else {
        meta_irs(ms.drop_last()) + match ms.last().ir {
            Some(ir) => seq![ir],
            None => Seq::empty(),
        }
    }
}

/// The bridge files, then the root container of the entries' metadata when
/// `bindings` are given.
pub open spec fn swift_bridge_texts(ms: Seq<VmMeta>, bindings: Option<BindingsConfig>) -> Result<
    Seq<(Seq<char>, Seq<char>)>,
    Seq<char>,
> {
    match meta_bridge_texts(ms) {
        Err(m) => Err(m),
        Ok(files) => match bindings {
            None => Ok(files),
            Some(b) => match swift_root_container_source(meta_irs(ms), b) {
                Err(f) => Err("failed to generate Swift root container: "@ + fault_message(f)),
                Ok(t) => Ok(files.push((b.container_name@ + ".swift"@, t))),
            },
        },
    }
}

proof fn lemma_meta_fault_stays(ms: Seq<VmMeta>, i: int)
    requires
        0 <= i <= ms.len(),
        meta_bridge_texts(ms.take(i)) is Err,
    ensures
        meta_bridge_texts(ms) == meta_bridge_texts(ms.take(i)),
    decreases ms.len() - i,
{
    if i < ms.len() {
        assert(ms.take(i + 1).drop_last() =~= ms.take(i));
        lemma_meta_fault_stays(ms, i + 1);
    } else {
        assert(ms.take(i) =~= ms);
    }
}

fn meta_bridge_file(meta: &VmMeta) -> (res: Result<GeneratedFile, PackagerError>)
    ensures
        match meta_bridge_text(*meta) {
            Ok(f) => res matches Ok(g) && file_view(g) == f,
            Err(m) => res matches Err(e) && e.message@ == m,
        },
{
    match &meta.ir {
        Some(ir) => match generate_swift_bridge(ir) {
            Ok(set) => Ok(only_file(set)),
            Err(err) => {
                let mut message = String::from_str("failed to generate Swift bridge for ");
                message.append(meta.vm_type.as_str());
                message.append(": ");
                message.append(err.message().as_str());
                assert(codegen_message(err) == fault_message(fault_of(err)));
                Err(packager_error(message))
            },
        },
        None => {
            let missing = error_with("swift_code missing for ", meta.vm_type.as_str(), "");
            proof {
                reveal_strlit("");
            }
            assert(missing.message@ =~= "swift_code missing for "@ + meta.vm_type@);
            match &meta.swift_code {
                Some(code) => {
                    if str_blank(code.as_str()) {
                        Err(missing)
                    } else {
                        let mut path = meta.swift_bridge.clone();
                        path.append(".swift");
                        let contents = code.clone();
                        Ok(GeneratedFile { path, contents })
                    }
                },
                None => Err(missing),
            }
        },
    }
}

/// The Swift sources under `Bridges/`: one bridge per entry, in order, then
/// the root container when `bindings` are configured. Paths are relative to
/// the `Bridges` directory.
pub fn generate_swift_bridges(metas: Vec<VmMeta>, bindings: &Option<BindingsConfig>) -> (res: Result<
    Vec<GeneratedFile>,
    PackagerError,
>)
    ensures
        match swift_bridge_texts(metas@, *bindings) {
            Ok(files) => res matches Ok(v) && file_views(v@) == files,
            Err(m) => res matches Err(e) && e.message@ == m,
        },
{
    let ghost all = metas@;
    let mut rest = metas;
    let mut out: Vec<GeneratedFile> = Vec::new();
    let mut irs: Vec<VmMetadata> = Vec::new();
    let mut k: usize = 0;
    let n = rest.len();
    assert(all.take(0) =~= Seq::<VmMeta>::empty());
    assert(file_views(out@) =~= Seq::<(Seq<char>, Seq<char>)>::empty());
    assert(all.skip(0) =~= all);
    while rest.len() > 0
        invariant
            k <= n,
            n == all.len(),
            all == metas@,
            rest@ == all.skip(k as int),
            meta_bridge_texts(all.take(k as int)) == Ok::<Seq<(Seq<char>, Seq<char>)>, Seq<char>>(
                file_views(out@),
            ),
            irs@ == meta_irs(all.take(k as int)),
        decreases rest.len(),
    {
        let meta = rest.remove(0);
        assert(meta == all[k as int]);
        assert(all.take(k + 1).drop_last() =~= all.take(k as int));
        assert(all.take(k + 1).last() == meta);
        assert(all.skip(k + 1) =~= rest@);
        match meta_bridge_file(&meta) {
            Err(e) => {
                proof {
                    assert(meta_bridge_text(meta) == Err::<(Seq<char>, Seq<char>), Seq<char>>(e.message@));
                    assert(meta_bridge_texts(all.take(k + 1)) == Err::<Seq<(Seq<char>, Seq<char>)>, Seq<char>>(e.message@));
                    lemma_meta_fault_stays(all, k + 1);
                    assert(meta_bridge_texts(all) == Err::<Seq<(Seq<char>, Seq<char>)>, Seq<char>>(e.message@));
                    assert(swift_bridge_texts(all, *bindings) == Err::<Seq<(Seq<char>, Seq<char>)>, Seq<char>>(e.message@));
                }
                return Err(e);
            },
            Ok(f) => {
                let ghost before = out@;
                out.push(f);
                assert(file_views(out@) =~= file_views(before).push(file_view(f)));
            },
        }
        let ghost irs_before = irs@;
        match meta.ir {
            Some(ir) => {
                irs.push(ir);
            },
            None => {},
        }
        assert(irs@ =~= irs_before + match all[k as int].ir {
            Some(ir) => seq![ir],
            None => Seq::<VmMetadata>::empty(),
        });
        k = k + 1;
    }
    assert(all.take(k as int) =~= all);
    match bindings {
        None => Ok(out),
        Some(b) => match generate_swift_root_container(irs.as_slice(), b) {
            Ok(set) => {
                let f = only_file(set);
                let ghost before = out@;
                out.push(f);
                assert(file_views(out@) =~= file_views(before).push(file_view(f)));
                Ok(out)
            },
            Err(err) => {
                let e = error_with("failed to generate Swift root container: ", err.message().as_str(), "");
                proof {
                    reveal_strlit("");
                }
                assert(codegen_message(err) == fault_message(fault_of(err)));
                assert(e.message@ =~= "failed to generate Swift root container: "@ + codegen_message(err));
                Err(e)
            },
        },
    }
}

// ---------------------------------------------------------------------------
// The package and its library target.
// ---------------------------------------------------------------------------

/// A target of a workspace package as `cargo metadata` reports it: its name
/// and its kinds (`lib`, `staticlib`, `bin`, ...).
#[derive(Debug, Clone, PartialEq, Eq)]
pub struct CargoTarget {
    pub name: String,
    pub kinds: Vec<String>,
}

/// A workspace package as `cargo metadata` reports it.
#[derive(Debug, Clone, PartialEq, Eq)]
pub struct CargoPackage {
    pub name: String,
    pub targets: Vec<CargoTarget>,
}

/// The first package named `name` at or after `i`.
pub open spec fn package_named_from(ps: Seq<CargoPackage>, name: Seq<char>, i: int) -> Option<int>
    decreases ps.len() - i,
{
    if i < 0 || i >= ps.len() {
        None
    } else if ps[i].name@ == name {
        Some(i)
    } else {
        package_named_from(ps, name, i + 1)
    }
}

/// The package to build: the first one named `name` when one is asked for,
/// else the workspace's root package (`root`, an index into `ps`).
pub open spec fn picked_package(ps: Seq<CargoPackage>, root: Option<usize>, name: Option<String>) -> Result<
    int,
    Seq<char>,
> {
    match name {
        Some(n) => match package_named_from(ps, n@, 0) {
            Some(i) => Ok(i),
            None => Err("package '"@ + n@ + "' not found in workspace"@),
        },
        None => match root {
            Some(i) => Ok(i as int),
            None => Err("no root package found; use --package to select one"@),
        },
    }
}

/// Picks the package to build among `packages`, by name or as the root
/// package.
pub fn pick_package(packages: &Vec<CargoPackage>, root: Option<usize>, name: &Option<String>) -> (res:
    Result<usize, PackagerError>)
    ensures
        match picked_package(packages@, root, *name) {
            Ok(i) => res matches Ok(j) && j == i,
            Err(m) => res matches Err(e) && e.message@ == m,
        },
{
    match name {
        Some(n) => {
            let mut i: usize = 0;
            while i < packages.len()
                invariant
                    i <= packages@.len(),
                    *name == Some(*n),
                    package_named_from(packages@, n@, 0) == package_named_from(packages@, n@, i as int),
                decreases packages@.len() - i,
            {
                if str_eq(packages[i].name.as_str(), n.as_str()) {
                    return Ok(i);
                }
                i = i + 1;
            }
            Err(error_with("package '", n.as_str(), "' not found in workspace"))
        },
        None => match root {
            Some(i) => Ok(i),
            None => Err(packager_error(String::from_str("no root package found; use --package to select one"))),
        },
    }
}

/// The crate kinds that make a library target.
pub open spec fn is_lib_kind(kind: Seq<char>) -> bool {
    kind == "lib"@ || kind == "staticlib"@ || kind == "cdylib"@ || kind == "dylib"@ || kind == "rlib"@
}

/// Whether a target has a library kind.
pub open spec fn is_lib_target(t: CargoTarget) -> bool {
    exists|k: int| 0 <= k < t.kinds@.len() && is_lib_kind(#[trigger] t.kinds@[k]@)
}

/// The first library target at or after `i`.
pub open spec fn lib_target_from(ts: Seq<CargoTarget>, i: int) -> Option<int>
    decreases ts.len() - i,
{
    if i < 0 || i >= ts.len() {
        None
    } else if is_lib_target(ts[i]) {
        Some(i)
    } else {
        lib_target_from(ts, i + 1)
    }
}

fn has_lib_kind(t: &CargoTarget) -> (r: bool)
    ensures
        r == is_lib_target(*t),
{
    let mut k: usize = 0;
    while k < t.kinds.len()
        invariant
            k <= t.kinds@.len(),
            forall|j: int| 0 <= j < k ==> !is_lib_kind(#[trigger] t.kinds@[j]@),
        decreases t.kinds@.len() - k,
    {
        let kind = t.kinds[k].as_str();
        if str_eq(kind, "lib") || str_eq(kind, "staticlib") || str_eq(kind, "cdylib") || str_eq(
            kind,
            "dylib",
        ) || str_eq(kind, "rlib") {
            return true;
        }
        k = k + 1;
    }
    false
}

/// The index of the package's first library target.
pub fn pick_lib_target(package: &CargoPackage) -> (res: Result<usize, PackagerError>)
    ensures
        match lib_target_from(package.targets@, 0) {
            Some(i) => res matches Ok(j) && j == i,
            None => res matches Err(e) && e.message@ == "no lib target found in "@ + package.name@,
        },
{
    let mut i: usize = 0;
    while i < package.targets.len()
        invariant
            i <= package.targets@.len(),
            lib_target_from(package.targets@, 0) == lib_target_from(package.targets@, i as int),
        decreases package.targets@.len() - i,
    {
        if has_lib_kind(&package.targets[i]) {
            return Ok(i);
        }
        i = i + 1;
    }
    let e = error_with("no lib target found in ", package.name.as_str(), "");
    proof {
        reveal_strlit("");
    }
    assert(e.message@ =~= "no lib target found in "@ + package.name@);
    Err(e)
}

// ---------------------------------------------------------------------------
// The files UniFFI generates.
// ---------------------------------------------------------------------------

/// An entry of the directory UniFFI wrote into: its path and whether it is a
/// regular file.
#[derive(Debug, Clone, PartialEq, Eq)]
pub struct OutputEntry {
    pub path: String,
    pub is_file: bool,
}

/// The three files the Swift package takes from UniFFI's output.
#[derive(Debug, Clone, Copy, PartialEq, Eq, Structural)]
pub enum BindingFileKind {
    SwiftSource,
    FfiHeader,
    FfiModulemap,
}

/// The name of a kind of generated file in messages.
pub open spec fn binding_kind_label(kind: BindingFileKind) -> Seq<char> {
    match kind {
        BindingFileKind::SwiftSource => "Swift source"@,
        BindingFileKind::FfiHeader => "FFI header"@,
        BindingFileKind::FfiModulemap => "FFI modulemap"@,
    }
}

/// The stem of the path ends in `FFI`.
pub open spec fn has_ffi_stem(path: Seq<char>) -> bool {
    match std_file_stem(path) {
        Some(stem) => ends_with(stem, "FFI"@),
        None => false,
    }
}

/// Whether `path` looks like a generated file of `kind`: a `.swift` file, or
/// an `...FFI.h` or `...FFI.modulemap` file.
pub open spec fn is_binding_file(kind: BindingFileKind, path: Seq<char>) -> bool {
    match kind {
        BindingFileKind::SwiftSource => std_extension(path) == Some("swift"@),
        BindingFileKind::FfiHeader => std_extension(path) == Some("h"@) && has_ffi_stem(path),
        BindingFileKind::FfiModulemap => std_extension(path) == Some("modulemap"@) && has_ffi_stem(
            path,
        ),
    }
}

/// The regular files among `entries` that look like files of `kind`, in order.
pub open spec fn binding_candidates(entries: Seq<OutputEntry>, kind: BindingFileKind) -> Seq<
    Seq<char>,
>
    decreases entries.len(),
{
    if entries.len() == 0 {
        Seq::empty()
    } else {
        let e = entries.last();
        binding_candidates(entries.drop_last(), kind) + if e.is_file && is_binding_file(
            kind,
            e.path@,
        ) {
            seq![e.path@]
        } else {
            Seq::empty()
        }
    }
}

/// The only file of `kind` in `out_dir`, or why there is none.
pub open spec fn single_binding_file(
    entries: Seq<OutputEntry>,
    out_dir: Seq<char>,
    kind: BindingFileKind,
) -> Result<Seq<char>, Seq<char>> {
    let found = binding_candidates(entries, kind);
    if found.len() == 1 {
        Ok(found[0])
    } else if found.len() == 0 {
        Err(binding_kind_label(kind) + " generated by UniFFI was not found in "@ + out_dir)
    } else {
        Err(binding_kind_label(kind) + " generated by UniFFI is ambiguous in "@ + out_dir)
    }
}

fn is_binding_file_exec(kind: BindingFileKind, path: &str) -> (r: bool)
    ensures
        r == is_binding_file(kind, path@),
{
    let ext = path_extension(path);
    let ext_is = |want: &str| -> (r: bool)
        ensures
            r == (std_extension(path@) == Some(want@)),
        {
            match &ext {
                Some(e) => str_eq(e.as_str(), want),
                None => false,
            }
        };
    match kind {
        BindingFileKind::SwiftSource => ext_is("swift"),
        BindingFileKind::FfiHeader => ext_is("h") && ffi_stem(path),
        BindingFileKind::FfiModulemap => ext_is("modulemap") && ffi_stem(path),
    }
}

fn ffi_stem(path: &str) -> (r: bool)
    ensures
        r == has_ffi_stem(path@),
{
    match path_file_stem(path) {
        Some(stem) => chars_ends_with(&chars_of(stem.as_str()), "FFI"),
        None => false,
    }
}

/// Picks the only regular file of `kind` among the `entries` of `out_dir`.
pub fn single_generated_file(entries: &Vec<OutputEntry>, out_dir: &str, kind: BindingFileKind) -> (res:
    Result<String, PackagerError>)
    ensures
        match single_binding_file(entries@, out_dir@, kind) {
            Ok(p) => res matches Ok(q) && q@ == p,
            Err(m) => res matches Err(e) && e.message@ == m,
        },
{
    let mut found: Vec<String> = Vec::new();
    let mut i: usize = 0;
    while i < entries.len()
        invariant
            i <= entries@.len(),
            views(found@) == binding_candidates(entries@.take(i as int), kind),
        decreases entries@.len() - i,
    {
        assert(entries@.take(i + 1).drop_last() =~= entries@.take(i as int));
        let e = &entries[i];
        if e.is_file && is_binding_file_exec(kind, e.path.as_str()) {
            let ghost before = found@;
            let p = e.path.clone();
            found.push(p);
            proof {
                lemma_views_push(before, p);
            }
        }
        i = i + 1;
        assert(views(found@) =~= binding_candidates(entries@.take(i as int), kind));
    }
    assert(entries@.take(entries@.len() as int) =~= entries@);
    let label = match kind {
        BindingFileKind::SwiftSource => "Swift source",
        BindingFileKind::FfiHeader => "FFI header",
        BindingFileKind::FfiModulemap => "FFI modulemap",
    };
    if found.len() == 1 {
        let p = found.remove(0);
        Ok(p)
    } else if found.len() == 0 {
        let mut message = String::from_str(label);
        message.append(" generated by UniFFI was not found in ");
        message.append(out_dir);
        Err(packager_error(message))
    } else {
        let mut message = String::from_str(label);
        message.append(" generated by UniFFI is ambiguous in ");
        message.append(out_dir);
        Err(packager_error(message))
    }
}

/// Whether some entry is at `path`.
pub open spec fn has_entry(entries: Seq<OutputEntry>, path: Seq<char>) -> bool {
    exists|i: int| 0 <= i < entries.len() && (#[trigger] entries[i]).path@ == path
}

fn entry_exists(entries: &Vec<OutputEntry>, path: &str) -> (r: bool)
    ensures
        r == has_entry(entries@, path@),
{
    let mut i: usize = 0;
    while i < entries.len()
        invariant
            i <= entries@.len(),
            forall|j: int| 0 <= j < i ==> (#[trigger] entries@[j]).path@ != path@,
        decreases entries@.len() - i,
    {
        if str_eq(entries[i].path.as_str(), path) {
            return true;
        }
        i = i + 1;
    }
    false
}

/// The file of `kind`: the one at `exact` when it exists, else the only file
/// of that kind.
pub open spec fn binding_file(
    entries: Seq<OutputEntry>,
    out_dir: Seq<char>,
    exact: Seq<char>,
    kind: BindingFileKind,
) -> Result<Seq<char>, Seq<char>> {
    if has_entry(entries, exact) {
        Ok(exact)
    } else {
        single_binding_file(entries, out_dir, kind)
    }
}

/// The file name of a generated file.
pub open spec fn binding_file_name(path: Seq<char>) -> Result<Seq<char>, Seq<char>> {
    match std_file_name(path) {
        Some(name) => Ok(name),
        None => Err("invalid generated binding filename "@ + path),
    }
}

/// The Swift source, FFI header and module map UniFFI wrote for a crate, with
/// the file names of the first two.
#[derive(Debug, Clone, PartialEq, Eq)]
pub struct GeneratedBindingFiles {
    pub swift_source: String,
    pub swift_file_name: String,
    pub ffi_header: String,
    pub ffi_header_file_name: String,
    pub ffi_modulemap: String,
}

/// The generated files of `crate_name` in `out_dir`: each one named after
/// the crate (`<crate>.swift`, `<crate>FFI.h`, `<crate>FFI.modulemap`) when
/// it exists, else the only file of its kind; or the first problem found.
pub open spec fn binding_files_outcome(
    entries: Seq<OutputEntry>,
    out_dir: Seq<char>,
    crate_name: Seq<char>,
) -> Result<(Seq<char>, Seq<char>, Seq<char>, Seq<char>, Seq<char>), Seq<char>> {
    let ffi = crate_name + "FFI"@;
    match binding_file(
        entries,
        out_dir,
        std_joined(out_dir, crate_name + ".swift"@),
        BindingFileKind::SwiftSource,
    ) {
        Err(m) => Err(m),
        Ok(swift) => match binding_file(
            entries,
            out_dir,
            std_joined(out_dir, ffi + ".h"@),
            BindingFileKind::FfiHeader,
        ) {
            Err(m) => Err(m),
            Ok(header) => match binding_file(
                entries,
                out_dir,
                std_joined(out_dir, ffi + ".modulemap"@),
                BindingFileKind::FfiModulemap,
            ) {
                Err(m) => Err(m),
                Ok(modulemap) => match binding_file_name(swift) {
                    Err(m) => Err(m),
                    Ok(swift_name) => match binding_file_name(header) {
                        Err(m) => Err(m),
                        Ok(header_name) => Ok((swift, swift_name, header, header_name, modulemap)),
                    },
                },
            },
        },
    }
}

fn pick_binding_file(
    entries: &Vec<OutputEntry>,
    out_dir: &str,
    exact: String,
    kind: BindingFileKind,
) -> (res: Result<String, PackagerError>)
    ensures
        match binding_file(entries@, out_dir@, exact@, kind) {
            Ok(p) => res matches Ok(q) && q@ == p,
            Err(m) => res matches Err(e) && e.message@ == m,
        },
{
    if entry_exists(entries, exact.as_str()) {
        Ok(exact)
    } else {
        single_generated_file(entries, out_dir, kind)
    }
}

fn file_name_string(path: &str) -> (res: Result<String, PackagerError>)
    ensures
        match binding_file_name(path@) {
            Ok(n) => res matches Ok(m) && m@ == n,
            Err(msg) => res matches Err(e) && e.message@ == msg,
        },
{
    match path_file_name(path) {
        Some(name) => Ok(name),
        None => {
            let e = error_with("invalid generated binding filename ", path, "");
            proof {
                reveal_strlit("");
            }
            assert(e.message@ =~= "invalid generated binding filename "@ + path@);
            Err(e)
        },
    }
}

/// Finds the files UniFFI generated for `crate_name` among the `entries` of
/// `out_dir`.
pub fn generated_binding_files(entries: &Vec<OutputEntry>, out_dir: &str, crate_name: &str) -> (res:
    Result<GeneratedBindingFiles, PackagerError>)
    ensures
        match binding_files_outcome(entries@, out_dir@, crate_name@) {
            Ok((swift, swift_name, header, header_name, modulemap)) => res matches Ok(f)
                && f.swift_source@ == swift && f.swift_file_name@ == swift_name && f.ffi_header@
                == header && f.ffi_header_file_name@ == header_name && f.ffi_modulemap@
                == modulemap,
            Err(m) => res matches Err(e) && e.message@ == m,
        },
{
    let mut ffi = String::from_str(crate_name);
    ffi.append("FFI");
    let mut swift_name = String::from_str(crate_name);
    swift_name.append(".swift");
    let mut header_name = ffi.clone();
    header_name.append(".h");
    let mut modulemap_name = ffi.clone();
    modulemap_name.append(".modulemap");
    let swift_source = pick_binding_file(
        entries,
        out_dir,
        path_join(out_dir, swift_name.as_str()),
        BindingFileKind::SwiftSource,
    )?;
    let ffi_header = pick_binding_file(
        entries,
        out_dir,
        path_join(out_dir, header_name.as_str()),
        BindingFileKind::FfiHeader,
    )?;
    let ffi_modulemap = pick_binding_file(
        entries,
        out_dir,
        path_join(out_dir, modulemap_name.as_str()),
        BindingFileKind::FfiModulemap,
    )?;
    let swift_file_name = file_name_string(swift_source.as_str())?;
    let ffi_header_file_name = file_name_string(ffi_header.as_str())?;
    Ok(GeneratedBindingFiles {
        swift_source,
        swift_file_name,
        ffi_header,
        ffi_header_file_name,
        ffi_modulemap,
    })
}

// ---------------------------------------------------------------------------
// Cleaning and copying inside the package.
// ---------------------------------------------------------------------------

/// The paths of the entries whose extension is `ext`, in order.
pub open spec fn paths_with_extension(entries: Seq<OutputEntry>, ext: Seq<char>) -> Seq<Seq<char>>
    decreases entries.len(),
{
    if entries.len() == 0 {
        Seq::empty()
    } else {
        paths_with_extension(entries.drop_last(), ext) + if std_extension(entries.last().path@)
            == Some(ext) {
            seq![entries.last().path@]
        } else {
            Seq::empty()
        }
    }
}

fn has_extension(path: &str, ext: &str) -> (r: bool)
    ensures
        r == (std_extension(path@) == Some(ext@)),
{
    match path_extension(path) {
        Some(e) => str_eq(e.as_str(), ext),
        None => false,
    }
}

/// The paths of the entries with extension `ext`, in order.
fn entries_with_extension(entries: &Vec<OutputEntry>, ext: &str) -> (res: Vec<String>)
    ensures
        views(res@) == paths_with_extension(entries@, ext@),
{
    let mut out: Vec<String> = Vec::new();
    let mut i: usize = 0;
    while i < entries.len()
        invariant
            i <= entries@.len(),
            views(out@) == paths_with_extension(entries@.take(i as int), ext@),
        decreases entries@.len() - i,
    {
        assert(entries@.take(i + 1).drop_last() =~= entries@.take(i as int));
        let path = entries[i].path.as_str();
        if has_extension(path, ext) {
            let ghost before = out@;
            let p = String::from_str(path);
            out.push(p);
            proof {
                lemma_views_push(before, p);
            }
        }
        i = i + 1;
        assert(views(out@) =~= paths_with_extension(entries@.take(i as int), ext@));
    }
    assert(entries@.take(entries@.len() as int) =~= entries@);
    out
}

/// What to delete from a package directory `root` before its manifest is
/// written: `Package.swift` when it is there, then every `.podspec`.
pub open spec fn stale_manifest_paths(root: Seq<char>, entries: Seq<OutputEntry>) -> Seq<Seq<char>> {
    let spm = std_joined(root, "Package.swift"@);
    (if has_entry(entries, spm) {
        seq![spm]
    } else {
        Seq::empty()
    }) + paths_with_extension(entries, "podspec"@)
}

/// The stale manifests among the `entries` of the package directory `root`.
pub fn stale_manifests(root: &str, entries: &Vec<OutputEntry>) -> (res: Vec<String>)
    ensures
        views(res@) == stale_manifest_paths(root@, entries@),
{
    let spm = path_join(root, "Package.swift");
    let mut out: Vec<String> = Vec::new();
    if entry_exists(entries, spm.as_str()) {
        out.push(spm);
    }
    let ghost first = views(out@);
    let mut pods = entries_with_extension(entries, "podspec");
    let ghost pod_views = views(pods@);
    out.append(&mut pods);
    assert(views(out@) =~= first + pod_views);
    out
}

/// The XCFrameworks among `entries` to delete, all but the one at `keep`.
pub open spec fn xcframeworks_removed(entries: Seq<OutputEntry>, keep: Option<String>) -> Seq<
    Seq<char>,
>
    decreases entries.len(),
{
    if entries.len() == 0 {
        Seq::empty()
    } else {
        let p = entries.last().path@;
        let kept = match keep {
            Some(k) => std_same_path(k@, p),
            None => false,
        };
        xcframeworks_removed(entries.drop_last(), keep) + if std_extension(p) == Some(
            "xcframework"@,
        ) && !kept {
            seq![p]
        } else {
            Seq::empty()
        }
    }
}

/// The XCFrameworks of an output directory to delete before the new one
/// takes its place: every entry with the `xcframework` extension but `keep`.
pub fn xcframeworks_to_remove(entries: &Vec<OutputEntry>, keep: &Option<String>) -> (res: Vec<
    String,
>)
    ensures
        views(res@) == xcframeworks_removed(entries@, *keep),
{
    let mut out: Vec<String> = Vec::new();
    let mut i: usize = 0;
    while i < entries.len()
        invariant
            i <= entries@.len(),
            views(out@) == xcframeworks_removed(entries@.take(i as int), *keep),
        decreases entries@.len() - i,
    {
        assert(entries@.take(i + 1).drop_last() =~= entries@.take(i as int));
        let path = entries[i].path.as_str();
        let kept = match keep {
            Some(k) => same_path(k.as_str(), path),
            None => false,
        };
        if has_extension(path, "xcframework") && !kept {
            let ghost before = out@;
            let p = String::from_str(path);
            out.push(p);
            proof {
                lemma_views_push(before, p);
            }
        }
        i = i + 1;
        assert(views(out@) =~= xcframeworks_removed(entries@.take(i as int), *keep));
    }
    assert(entries@.take(entries@.len() as int) =~= entries@);
    out
}

/// The copies of the generated Swift sources into `dest`: each `.swift` entry,
/// in order, to the same file name under `dest`; or the path of the first
/// such entry without a file name.
pub open spec fn swift_copies(entries: Seq<OutputEntry>, dest: Seq<char>) -> Result<
    Seq<(Seq<char>, Seq<char>)>,
    Seq<char>,
>
    decreases entries.len(),
{
    if entries.len() == 0 {
        Ok(Seq::empty())
    } else {
        match swift_copies(entries.drop_last(), dest) {
            Err(m) => Err(m),
            Ok(copies) => {
                let p = entries.last().path@;
                if std_extension(p) == Some("swift"@) {
                    match std_file_name(p) {
                        Some(name) => Ok(copies.push((p, std_joined(dest, name)))),
                        None => Err("invalid swift filename"@),
                    }
                } else {
                    Ok(copies)
                }
            },
        }
    }
}

proof fn lemma_swift_copies_fault_stays(entries: Seq<OutputEntry>, dest: Seq<char>, i: int)
    requires
        0 <= i <= entries.len(),
        swift_copies(entries.take(i), dest) is Err,
    ensures
        swift_copies(entries, dest) == swift_copies(entries.take(i), dest),
    decreases entries.len() - i,
{
    if i < entries.len() {
        assert(entries.take(i + 1).drop_last() =~= entries.take(i));
        lemma_swift_copies_fault_stays(entries, dest, i + 1);
    } else {
        assert(entries.take(i) =~= entries);
    }
}

/// Where each generated Swift source among `entries` is copied under `dest`.
pub fn swift_source_copies(entries: &Vec<OutputEntry>, dest: &str) -> (res: Result<
    Vec<(String, String)>,
    PackagerError,
>)
    ensures
        match swift_copies(entries@, dest@) {
            Ok(copies) => res matches Ok(v) && v@.len() == copies.len() && forall|k: int|
                0 <= k < copies.len() ==> (#[trigger] v@[k]).0@ == copies[k].0 && v@[k].1@
                    == copies[k].1,
            Err(m) => res matches Err(e) && e.message@ == m,
        },
{
    let ghost es = entries@;
    let mut out: Vec<(String, String)> = Vec::new();
    let mut i: usize = 0;
    while i < entries.len()
        invariant
            i <= es.len(),
            es == entries@,
            swift_copies(es.take(i as int), dest@) matches Ok(copies) && out@.len() == copies.len()
                && forall|k: int|
                0 <= k < copies.len() ==> (#[trigger] out@[k]).0@ == copies[k].0 && out@[k].1@
                    == copies[k].1,
        decreases es.len() - i,
    {
        assert(es.take(i + 1).drop_last() =~= es.take(i as int));
        let path = entries[i].path.as_str();
        if has_extension(path, "swift") {
            match path_file_name(path) {
                Some(name) => {
                    out.push((String::from_str(path), path_join(dest, name.as_str())));
                },
                None => {
                    proof {
                        lemma_swift_copies_fault_stays(es, dest@, i + 1);
                    }
                    return Err(packager_error(String::from_str("invalid swift filename")));
                },
            }
        }
        i = i + 1;
    }
    assert(es.take(es.len() as int) =~= es);
    Ok(out)
}

// ---------------------------------------------------------------------------
// Laws.
// ---------------------------------------------------------------------------

/// A target's platform follows the OS component of its triple: every
/// supported `*-apple-darwin` triple builds for macOS and nothing else does,
/// every `*-apple-ios-sim` triple builds for the simulator, and only
/// `aarch64-apple-ios` builds for devices (`x86_64-apple-ios` is the Intel
/// simulator). Both macOS triples are supported.
pub proof fn law_platform_follows_os(target: Seq<char>)
    ensures
        target_platform(target) matches Some(p) ==> {
            &&& ends_with(target, "-apple-darwin"@) <==> p == ApplePlatform::Macos
            &&& ends_with(target, "-apple-ios-sim"@) ==> p == ApplePlatform::IosSim
            &&& p == ApplePlatform::Ios <==> target == "aarch64-apple-ios"@
        },
        target_platform("aarch64-apple-darwin"@) == Some(ApplePlatform::Macos),
        target_platform("x86_64-apple-darwin"@) == Some(ApplePlatform::Macos),
        target_platform("aarch64-apple-ios"@) == Some(ApplePlatform::Ios),
        target_platform("aarch64-apple-ios-sim"@) == Some(ApplePlatform::IosSim),
        target_platform("x86_64-apple-ios"@) == Some(ApplePlatform::IosSim),
{
    reveal_strlit("-apple-darwin");
    reveal_strlit("-apple-ios-sim");
    reveal_strlit("aarch64-apple-ios");
    reveal_strlit("aarch64-apple-ios-sim");
    reveal_strlit("x86_64-apple-ios");
    reveal_strlit("aarch64-apple-darwin");
    reveal_strlit("x86_64-apple-darwin");
    let d = "-apple-darwin"@;
    let sim = "-apple-ios-sim"@;
    assert("aarch64-apple-darwin"@.skip(20 - 13) =~= d);
    assert("x86_64-apple-darwin"@.skip(19 - 13) =~= d);
    assert("aarch64-apple-ios-sim"@.skip(21 - 14) =~= sim);
    assert("aarch64-apple-ios"@.skip(17 - 13) != d) by {
        assert("aarch64-apple-ios"@.skip(4)[12] != d[12]);
    }
    assert("x86_64-apple-ios"@.skip(16 - 13) != d) by {
        assert("x86_64-apple-ios"@.skip(3)[12] != d[12]);
    }
    assert("aarch64-apple-ios-sim"@.skip(21 - 13) != d) by {
        assert("aarch64-apple-ios-sim"@.skip(8)[12] != d[12]);
    }
    assert("aarch64-apple-ios"@.skip(17 - 14) != sim) by {
        assert("aarch64-apple-ios"@.skip(3)[13] != sim[13]);
    }
    assert("aarch64-apple-darwin"@.skip(20 - 14) != sim) by {
        assert("aarch64-apple-darwin"@.skip(6)[13] != sim[13]);
    }
    assert("x86_64-apple-darwin"@.skip(19 - 14) != sim) by {
        assert("x86_64-apple-darwin"@.skip(5)[13] != sim[13]);
    }
    assert("aarch64-apple-ios"@ != "x86_64-apple-ios"@) by {
        assert("aarch64-apple-ios"@.len() != "x86_64-apple-ios"@.len());
    }
    assert("aarch64-apple-ios"@ != "aarch64-apple-ios-sim"@) by {
        assert("aarch64-apple-ios"@.len() != "aarch64-apple-ios-sim"@.len());
    }
}

/// In `Package.swift`, the source target named `package_name` depends on
/// the binary target named `xcframework_name`, which is declared with the
/// XCFramework of that name as its path.
pub proof fn law_spm_target_links_binary(package_name: Seq<char>, xcframework_name: Seq<char>)
    ensures
        contains(
            spm_manifest_text(package_name, xcframework_name),
            "name: \""@ + package_name + "\",\n            dependencies: [\n                .target(name: \""@
                + xcframework_name + "\")"@,
        ),
        contains(
            spm_manifest_text(package_name, xcframework_name),
            ".binaryTarget(\n            name: \""@ + xcframework_name + "\",\n            path: \"./"@
                + xcframework_name + ".xcframework\""@,
        ),
        contains(
            spm_manifest_text(package_name, xcframework_name),
            ".library(\n            name: \""@ + package_name + "\",\n            targets: [\""@ + package_name
                + "\"]"@,
        ),
{
    let p = package_name;
    let x = xcframework_name;
    let t = spm_manifest_text(p, x);
    let la = ".xcframework\"\n        ),\n        .target(\n            name: \""@;
    let lb = "\",\n            dependencies: [\n                .target(name: \""@;
    let lc = "\")\n            ]\n        )\n    ]\n)\n"@;
    let name = "name: \""@;
    let close = "\")"@;
    reveal_strlit(".xcframework\"\n        ),\n        .target(\n            name: \"");
    reveal_strlit("\")\n            ]\n        )\n    ]\n)\n");
    reveal_strlit("name: \"");
    reveal_strlit("\")");
    let f = name + p + lb + x + close;
    let start = t.len() - lc.len() - x.len() - lb.len() - p.len() - name.len();
    assert(t.subrange(start, start + f.len()) =~= f);
    assert(occurs_at(t, f, start));

    let lp = "\"]\n        )\n    ],\n    targets: [\n        .binaryTarget(\n            name: \""@;
    let lq = "\",\n            path: \"./"@;
    let bin = ".binaryTarget(\n            name: \""@;
    let ext = ".xcframework\""@;
    reveal_strlit("\"]\n        )\n    ],\n    targets: [\n        .binaryTarget(\n            name: \"");
    reveal_strlit(".binaryTarget(\n            name: \"");
    reveal_strlit(".xcframework\"");
    let g = bin + x + lq + x + ext;
    let start2 = t.len() - lc.len() - x.len() - lb.len() - p.len() - la.len() - x.len() - lq.len()
        - x.len() - bin.len();
    assert(t.subrange(start2, start2 + g.len()) =~= g);
    assert(occurs_at(t, g, start2));

    let lr = "\",\n            targets: [\""@;
    let lib = ".library(\n            name: \""@;
    let bracket = "\"]"@;
    reveal_strlit(".library(\n            name: \"");
    reveal_strlit("\",\n    platforms: [\n        .iOS(.v13),\n        .macOS(.v10_15)\n    ],\n    products: [\n        .library(\n            name: \"");
    reveal_strlit("\",\n            targets: [\"");
    reveal_strlit("\"]");
    let k = lib + p + lr + p + bracket;
    let start3 = start2 - (lp.len() - bin.len()) - p.len() - lr.len() - p.len() - lib.len();
    assert(t.subrange(start3, start3 + k.len()) =~= k);
    assert(occurs_at(t, k, start3));
}

} // verus!
