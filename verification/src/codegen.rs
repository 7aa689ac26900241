//! Code-generation errors and the bridge-specific metadata checks shared by
//! the Swift and Kotlin generators.
use vstd::prelude::*;
use crate::metadata::{
    as_result, find_method, find_method_index, validation_error, MetadataValidationError,
    MethodMetadata, VmMetadata, VmMode,
};
use crate::text::{decimal, push_decimal, str_eq};

verus! {

/// A generated source file: its path relative to the output root, and its text.
#[derive(Debug, Clone, PartialEq, Eq)]
pub struct GeneratedFile {
    pub path: String,
    pub contents: String,
}

/// A generated file as its path and its text.
pub open spec fn file_view(f: GeneratedFile) -> (Seq<char>, Seq<char>) {
    (f.path@, f.contents@)
}

/// Generated files as paths and texts, in order.
pub open spec fn file_views(fs: Seq<GeneratedFile>) -> Seq<(Seq<char>, Seq<char>)> {
    fs.map_values(|f: GeneratedFile| file_view(f))
}

/// The files produced by one generator call.
#[derive(Debug, Clone, PartialEq, Eq)]
pub struct GeneratedFileSet {
    pub files: Vec<GeneratedFile>,
}

/// The only file of a one-file set.
pub(crate) fn only_file(set: GeneratedFileSet) -> (f: GeneratedFile)
    requires
        set.files@.len() == 1,
    ensures
        f == set.files@[0],
{
    let mut files = set.files;
    files.remove(0)
}

/// Why code generation refused its input.
#[derive(Debug, Clone, PartialEq, Eq)]
pub enum CodegenError {
    InvalidMetadata(MetadataValidationError),
    InvalidRootGraph(String),
    UnsupportedMode(VmMode),
}

/// A `CodegenError` with its message taken as a character sequence.
pub ghost enum CodegenFault {
    Metadata(MetadataValidationError),
    RootGraph(Seq<char>),
    Mode(VmMode),
}

/// The fault a `CodegenError` stands for.
pub open spec fn fault_of(e: CodegenError) -> CodegenFault {
    match e {
        CodegenError::InvalidMetadata(m) => CodegenFault::Metadata(m),
        CodegenError::InvalidRootGraph(s) => CodegenFault::RootGraph(s@),
        CodegenError::UnsupportedMode(mode) => CodegenFault::Mode(mode),
    }
}

/// The message of a metadata validation error, as `Display` would write it.
pub open spec fn validation_message(e: MetadataValidationError) -> Seq<char> {
    match e {
        MetadataValidationError::EmptyField(field) => "metadata field `"@ + field@
            + "` must not be empty"@,
        MetadataValidationError::MissingField(field) => "metadata field `"@ + field@
            + "` is required"@,
        MetadataValidationError::MissingMethod(method) => "metadata method `"@ + method@
            + "` is required"@,
        MetadataValidationError::InvalidMethodShape { method, reason } => "metadata method `"@
            + method@ + "` is invalid: "@ + reason@,
        MetadataValidationError::UnknownMode => "metadata mode is unknown"@,
        MetadataValidationError::UnsupportedSchemaVersion { actual, expected } =>
            "metadata schema version "@ + decimal(actual as nat) + " is unsupported; expected "@
            + decimal(expected as nat),
    }
}

/// The `Debug` spelling of a VM mode.
pub open spec fn mode_name(mode: VmMode) -> Seq<char> {
    match mode {
        VmMode::State => "State"@,
        VmMode::DiffList => "DiffList"@,
        VmMode::Event => "Event"@,
        VmMode::Unknown => "Unknown"@,
    }
}

/// The message of a code-generation error, as `Display` would write it.
pub open spec fn codegen_message(e: CodegenError) -> Seq<char> {
    match e {
        CodegenError::InvalidMetadata(m) => validation_message(m),
        CodegenError::InvalidRootGraph(s) => s@,
        CodegenError::UnsupportedMode(mode) => "unsupported bridge mode: "@ + mode_name(mode),
    }
}

/// The message of the error a fault stands for.
pub open spec fn fault_message(f: CodegenFault) -> Seq<char> {
    match f {
        CodegenFault::Metadata(m) => validation_message(m),
        CodegenFault::RootGraph(s) => s,
        CodegenFault::Mode(mode) => "unsupported bridge mode: "@ + mode_name(mode),
    }
}

impl MetadataValidationError {
    /// The human-readable message for this error.
    pub fn message(&self) -> (res: String)
        ensures
            res@ == validation_message(*self),
    {
        match self {
            MetadataValidationError::EmptyField(field) => {
                let mut s = String::from_str("metadata field `");
                s.append(field);
                s.append("` must not be empty");
                s
            },
            MetadataValidationError::MissingField(field) => {
                let mut s = String::from_str("metadata field `");
                s.append(field);
                s.append("` is required");
                s
            },
            MetadataValidationError::MissingMethod(method) => {
                let mut s = String::from_str("metadata method `");
                s.append(method);
                s.append("` is required");
                s
            },
            MetadataValidationError::InvalidMethodShape { method, reason } => {
                let mut s = String::from_str("metadata method `");
                s.append(method);
                s.append("` is invalid: ");
                s.append(reason);
                s
            },
            MetadataValidationError::UnknownMode => String::from_str("metadata mode is unknown"),
            MetadataValidationError::UnsupportedSchemaVersion { actual, expected } => {
                let mut s = String::from_str("metadata schema version ");
                push_decimal(&mut s, *actual as u64);
                s.append(" is unsupported; expected ");
                push_decimal(&mut s, *expected as u64);
                s
            },
        }
    }
}

impl CodegenError {
    /// The human-readable message for this error.
    pub fn message(&self) -> (res: String)
        ensures
            res@ == codegen_message(*self),
    {
        match self {
            CodegenError::InvalidMetadata(err) => err.message(),
            CodegenError::InvalidRootGraph(err) => err.clone(),
            CodegenError::UnsupportedMode(mode) => {
                let mut s = String::from_str("unsupported bridge mode: ");
                match mode {
                    VmMode::State => s.append("State"),
                    VmMode::DiffList => s.append("DiffList"),
                    VmMode::Event => s.append("Event"),
                    VmMode::Unknown => s.append("Unknown"),
                }
                s
            },
        }
    }
}

impl From<MetadataValidationError> for CodegenError {
    fn from(value: MetadataValidationError) -> (res: CodegenError) {
        CodegenError::InvalidMetadata(value)
    }
}

impl vstd::std_specs::convert::FromSpecImpl<MetadataValidationError> for CodegenError {
    open spec fn obeys_from_spec() -> bool {
        true
    }

    open spec fn from_spec(v: MetadataValidationError) -> CodegenError {
        CodegenError::InvalidMetadata(v)
    }
}

/// The shape error for the bridge-specific method checks.
pub open spec fn shape(method: &'static str, reason: &'static str) -> Option<CodegenFault> {
    Some(
        CodegenFault::Metadata(
            MetadataValidationError::InvalidMethodShape { method: method, reason: reason },
        ),
    )
}

/// Checks of the `unsubscribe` method against `subscribe`, when it exists.
pub open spec fn unsubscribe_fault(sub: MethodMetadata, un: MethodMetadata) -> Option<
    CodegenFault,
> {
    if un.args@.len() != 1 || un.args@[0].name@ != "id"@ {
        shape("unsubscribe", "must accept exactly one id argument")
    } else if sub.return_type@ != "unit"@ && un.args@[0].rust_type@ != sub.return_type@ {
        shape("unsubscribe", "id argument type must match subscribe return type")
    } else if un.return_type@ != "unit"@ {
        shape("unsubscribe", "must return unit")
    } else {
        None
    }
}

/// Checks that the Swift and Kotlin bridges need beyond `validate`, for
/// state and diff-list VMs.
pub open spec fn subscription_fault(m: VmMetadata) -> Option<CodegenFault> {
    match m.observer {
        None => Some(CodegenFault::Metadata(MetadataValidationError::MissingField("observer"))),
        Some(observer) => match find_method(m.methods@, "subscribe"@) {
            None => Some(CodegenFault::Metadata(MetadataValidationError::MissingMethod("subscribe"))),
            Some(i) => {
                let sub = m.methods@[i];
                if sub.args@.len() != 1 || sub.args@[0].name@ != "observer"@ {
                    shape("subscribe", "must accept exactly one observer argument")
                } else if sub.args@[0].rust_type@ != "Arc<dyn "@ + observer.rust_type@ + ">"@
                    && sub.args@[0].rust_type@ != "std::sync::Arc<dyn "@ + observer.rust_type@
                    + ">"@ {
                    shape("subscribe", "observer argument type must match observer")
                } else {
                    match find_method(m.methods@, "unsubscribe"@) {
                        None => None,
                        Some(j) => unsubscribe_fault(sub, m.methods@[j]),
                    }
                }
            },
        },
    }
}

/// The first problem that keeps `m` from getting a platform bridge.
pub open spec fn bridge_fault(m: VmMetadata) -> Option<CodegenFault> {
    match validation_error(m) {
        Some(e) => Some(CodegenFault::Metadata(e)),
        None => match m.mode {
            VmMode::State | VmMode::DiffList => subscription_fault(m),
            _ => None,
        },
    }
}

/// `Ok(())` when there is no fault.
pub open spec fn fault_result(r: Result<(), CodegenError>, f: Option<CodegenFault>) -> bool {
    match f {
        None => r is Ok,
        Some(f) => r matches Err(e) && fault_of(e) == f,
    }
}

fn invalid_shape(method: &'static str, reason: &'static str) -> (res: Result<(), CodegenError>)
    ensures
        fault_result(res, shape(method, reason)),
{
    Err(
        CodegenError::InvalidMetadata(
            MetadataValidationError::InvalidMethodShape { method, reason },
        ),
    )
}

/// Validates `metadata` for bridge generation.
pub fn validate_swift_bridge_metadata(metadata: &VmMetadata) -> (r: Result<(), CodegenError>)
    ensures
        fault_result(r, bridge_fault(*metadata)),
{
    match metadata.validate() {
        Ok(()) => {},
        Err(e) => {
            return Err(CodegenError::from(e));
        },
    }
    match metadata.mode {
        VmMode::State | VmMode::DiffList => {},
        _ => {
            return Ok(());
        },
    }
    let observer = match &metadata.observer {
        Some(o) => o,
        None => {
            return Err(
                CodegenError::InvalidMetadata(MetadataValidationError::MissingField("observer")),
            );
        },
    };
    let si = match find_method_index(&metadata.methods, "subscribe") {
        Some(i) => i,
        None => {
            return Err(
                CodegenError::InvalidMetadata(MetadataValidationError::MissingMethod("subscribe")),
            );
        },
    };
    let subscribe = &metadata.methods[si];
    if subscribe.args.len() != 1 || !str_eq(subscribe.args[0].name.as_str(), "observer") {
        return invalid_shape("subscribe", "must accept exactly one observer argument");
    }
    let observer_arg_type = subscribe.args[0].rust_type.as_str();
    let mut short_observer_type = String::from_str("Arc<dyn ");
    short_observer_type.append(observer.rust_type.as_str());
    short_observer_type.append(">");
    let mut full_observer_type = String::from_str("std::sync::Arc<dyn ");
    full_observer_type.append(observer.rust_type.as_str());
    full_observer_type.append(">");
    if !str_eq(observer_arg_type, short_observer_type.as_str()) && !str_eq(
        observer_arg_type,
        full_observer_type.as_str(),
    ) {
        return invalid_shape("subscribe", "observer argument type must match observer");
    }
    if let Some(ui) = find_method_index(&metadata.methods, "unsubscribe") {
        let unsubscribe = &metadata.methods[ui];
        if unsubscribe.args.len() != 1 || !str_eq(unsubscribe.args[0].name.as_str(), "id") {
            return invalid_shape("unsubscribe", "must accept exactly one id argument");
        }
        if !str_eq(subscribe.return_type.as_str(), "unit") && !str_eq(
            unsubscribe.args[0].rust_type.as_str(),
            subscribe.return_type.as_str(),
        ) {
            return invalid_shape("unsubscribe", "id argument type must match subscribe return type");
        }
        if !str_eq(unsubscribe.return_type.as_str(), "unit") {
            return invalid_shape("unsubscribe", "must return unit");
        }
    }
    Ok(())
}

} // verus!
