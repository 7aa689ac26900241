//! Target-independent VM metadata and its validation.
use vstd::prelude::*;
use crate::text::{is_blank, str_blank, str_eq};

verus! {

/// Default Cross-Kit project configuration file name.
pub const CONFIG_FILE_NAME: &'static str = "cross-kit.toml";

/// Current VM metadata schema version emitted by Cross-Kit macros.
pub const VM_METADATA_SCHEMA_VERSION: u32 = 1;

/// VM change notification style.
#[derive(Debug, Clone, Copy, PartialEq, Eq, Structural)]
pub enum VmMode {
    /// VM publishes full state snapshots through an observer callback.
    State,
    /// VM publishes list patches that platform bridges apply to observable lists.
    DiffList,
    /// Reserved mode for future one-off event streams.
    Event,
    /// Value for unknown modes so validation can report a clean error.
    Unknown,
}

/// Observer callback contract for a VM.
#[derive(Debug, Clone, PartialEq, Eq)]
pub struct ObserverMetadata {
    /// Rust observer trait type, for example `CounterObserver`.
    pub rust_type: String,
    /// Rust callback method, for example `on_state` or `on_diffs`.
    pub method: String,
}

/// Parent factory used to create a child VM bridge.
#[derive(Debug, Clone, PartialEq, Eq)]
pub struct FactoryMetadata {
    /// Rust parent VM type that owns the factory method.
    pub rust_type: String,
    /// Rust parent method used to create the child VM.
    pub method: String,
    /// Generated bridge name for the parent VM.
    pub bridge_name: String,
}

/// Public VM method exposed to platform bindings.
#[derive(Debug, Clone, PartialEq, Eq)]
pub struct MethodMetadata {
    /// Rust method name in snake_case.
    pub name: String,
    /// Rust method arguments in declaration order.
    pub args: Vec<ArgMetadata>,
    /// Rust return type string captured from the annotated impl.
    pub return_type: String,
}

/// Public VM method argument.
#[derive(Debug, Clone, PartialEq, Eq)]
pub struct ArgMetadata {
    /// Rust argument name.
    pub name: String,
    /// Rust argument type string.
    pub rust_type: String,
}

/// Target-independent VM metadata consumed by platform code generators.
#[derive(Debug, Clone, PartialEq, Eq)]
pub struct VmMetadata {
    /// Metadata schema version. Generators reject unsupported versions.
    pub schema_version: u32,
    /// Rust object type annotated with `vm_bridge`.
    pub rust_type: String,
    /// Generated platform bridge type name.
    pub bridge_name: String,
    /// Notification model used by this VM.
    pub mode: VmMode,
    /// Observer trait and callback used by state, diff-list, or event VMs.
    pub observer: Option<ObserverMetadata>,
    /// Rust state record type for `state` VMs.
    pub state_type: Option<String>,
    /// Rust diff enum type for `diff_list` VMs.
    pub diff_type: Option<String>,
    /// Rust list item record type for `diff_list` VMs.
    pub list_item_type: Option<String>,
    /// Optional parent factory that constructs this VM from a root VM.
    pub factory: Option<FactoryMetadata>,
    /// Rust VM methods visible to platform code generators.
    pub methods: Vec<MethodMetadata>,
}

/// Validation failure for target-independent metadata.
#[derive(Debug, Clone, PartialEq, Eq)]
pub enum MetadataValidationError {
    /// A required field was present but contained only whitespace.
    EmptyField(&'static str),
    /// A required field was absent.
    MissingField(&'static str),
    /// A required method, such as `subscribe` or `get_state`, was absent.
    MissingMethod(&'static str),
    /// A required method exists but has an unsupported signature.
    InvalidMethodShape {
        /// Method whose signature failed validation.
        method: &'static str,
        /// Human-readable reason describing the required shape.
        reason: &'static str,
    },
    /// Metadata mode could not be mapped to a supported VM mode.
    UnknownMode,
    /// Metadata schema version does not match the generator's supported version.
    UnsupportedSchemaVersion {
        /// Version found in the metadata.
        actual: u32,
        /// Version supported by this crate.
        expected: u32,
    },
}

// ---------------------------------------------------------------------------
// Specification of `VmMetadata::validate`.
// ---------------------------------------------------------------------------

/// The `EmptyField` error for `field` when `value` is blank.
pub open spec fn blank_check(
    field: &'static str,
    value: Seq<char>,
) -> Option<MetadataValidationError> {
    if is_blank(value) {
        Some(MetadataValidationError::EmptyField(field))
    } else {
        None
    }
}

/// First failing non-empty check among a method's arguments, from index `j` on.
pub open spec fn args_error_from(args: Seq<ArgMetadata>, j: int) -> Option<
    MetadataValidationError,
>
    decreases args.len() - j,
{
    if j < 0 || j >= args.len() {
        None
    } else if is_blank(args[j].name@) {
        Some(MetadataValidationError::EmptyField("methods.args.name"))
    } else if is_blank(args[j].rust_type@) {
        Some(MetadataValidationError::EmptyField("methods.args.rust_type"))
    } else {
        args_error_from(args, j + 1)
    }
}

/// First failing non-empty check of one method.
pub open spec fn method_error(m: MethodMetadata) -> Option<MetadataValidationError> {
    if is_blank(m.name@) {
        Some(MetadataValidationError::EmptyField("methods.name"))
    } else if is_blank(m.return_type@) {
        Some(MetadataValidationError::EmptyField("methods.return_type"))
    } else {
        args_error_from(m.args@, 0)
    }
}

/// First failing non-empty check among the methods, from index `i` on.
pub open spec fn methods_error_from(ms: Seq<MethodMetadata>, i: int) -> Option<
    MetadataValidationError,
>
    decreases ms.len() - i,
{
    if i < 0 || i >= ms.len() {
        None
    } else {
        match method_error(ms[i]) {
            Some(e) => Some(e),
            None => methods_error_from(ms, i + 1),
        }
    }
}

/// The first index at or after `i` of a method named `name`.
pub open spec fn find_method_from(ms: Seq<MethodMetadata>, name: Seq<char>, i: int) -> Option<int>
    decreases ms.len() - i,
{
    if i < 0 || i >= ms.len() {
        None
    } else if ms[i].name@ == name {
        Some(i)
    } else {
        find_method_from(ms, name, i + 1)
    }
}

/// The first method named `name`.
pub open spec fn find_method(ms: Seq<MethodMetadata>, name: Seq<char>) -> Option<int> {
    find_method_from(ms, name, 0)
}

/// Whether some method is named `name`.
pub open spec fn has_method(ms: Seq<MethodMetadata>, name: Seq<char>) -> bool {
    exists|i: int| 0 <= i < ms.len() && (#[trigger] ms[i]).name@ == name
}

/// The string view of an optional string, empty when absent (`as_deref().unwrap_or_default()`).
pub open spec fn opt_view(o: Option<String>) -> Seq<char> {
    match o {
        Some(s) => s@,
        None => Seq::empty(),
    }
}

/// Result of requiring an optional field to be present and non-blank.
pub open spec fn optional_check(field: &'static str, value: Option<String>) -> Option<
    MetadataValidationError,
> {
    match value {
        None => Some(MetadataValidationError::MissingField(field)),
        Some(v) => blank_check(field, v@),
    }
}

/// Result of requiring the observer to be present with non-blank fields.
pub open spec fn observer_check(m: VmMetadata) -> Option<MetadataValidationError> {
    match m.observer {
        None => Some(MetadataValidationError::MissingField("observer")),
        Some(o) => if is_blank(o.rust_type@) {
            Some(MetadataValidationError::EmptyField("observer.rust_type"))
        } else if is_blank(o.method@) {
            Some(MetadataValidationError::EmptyField("observer.method"))
        } else {
            None
        },
    }
}

/// Result of requiring a `subscribe` method.
pub open spec fn subscribe_check(m: VmMetadata) -> Option<MetadataValidationError> {
    if has_method(m.methods@, "subscribe"@) {
        None
    } else {
        Some(MetadataValidationError::MissingMethod("subscribe"))
    }
}

/// Result of requiring a `get_state()` that returns `state_type`.
pub open spec fn state_getter_check(m: VmMetadata) -> Option<MetadataValidationError> {
    match find_method(m.methods@, "get_state"@) {
        None => Some(MetadataValidationError::MissingMethod("get_state")),
        Some(i) => if m.methods@[i].args@.len() != 0 {
            Some(
                MetadataValidationError::InvalidMethodShape {
                    method: "get_state",
                    reason: "must not accept arguments",
                },
            )
        } else if m.methods@[i].return_type@ != opt_view(m.state_type) {
            Some(
                MetadataValidationError::InvalidMethodShape {
                    method: "get_state",
                    reason: "return type must match state_type",
                },
            )
        } else {
            None
        },
    }
}

/// Result of the factory's non-empty checks.
pub open spec fn factory_check(m: VmMetadata) -> Option<MetadataValidationError> {
    match m.factory {
        None => None,
        Some(f) => if is_blank(f.rust_type@) {
            Some(MetadataValidationError::EmptyField("factory.rust_type"))
        } else if is_blank(f.method@) {
            Some(MetadataValidationError::EmptyField("factory.method"))
        } else if is_blank(f.bridge_name@) {
            Some(MetadataValidationError::EmptyField("factory.bridge_name"))
        } else {
            None
        },
    }
}

/// Mode-specific checks, in the order `validate` runs them.
pub open spec fn mode_check(m: VmMetadata) -> Option<MetadataValidationError> {
    match m.mode {
        VmMode::State => if observer_check(m) is Some {
            observer_check(m)
        } else if optional_check("state_type", m.state_type) is Some {
            optional_check("state_type", m.state_type)
        } else if subscribe_check(m) is Some {
            subscribe_check(m)
        } else {
            state_getter_check(m)
        },
        VmMode::DiffList => if observer_check(m) is Some {
            observer_check(m)
        } else if optional_check("diff_type", m.diff_type) is Some {
            optional_check("diff_type", m.diff_type)
        } else if optional_check("list_item_type", m.list_item_type) is Some {
            optional_check("list_item_type", m.list_item_type)
        } else {
            subscribe_check(m)
        },
        VmMode::Event => if observer_check(m) is Some {
            observer_check(m)
        } else {
            subscribe_check(m)
        },
        VmMode::Unknown => Some(MetadataValidationError::UnknownMode),
    }
}

/// The first problem `validate` reports for `m`, or `None` when `m` is valid.
pub open spec fn validation_error(m: VmMetadata) -> Option<MetadataValidationError> {
    if m.schema_version != VM_METADATA_SCHEMA_VERSION {
        Some(
            MetadataValidationError::UnsupportedSchemaVersion {
                actual: m.schema_version,
                expected: VM_METADATA_SCHEMA_VERSION,
            },
        )
    } else if is_blank(m.rust_type@) {
        Some(MetadataValidationError::EmptyField("rust_type"))
    } else if is_blank(m.bridge_name@) {
        Some(MetadataValidationError::EmptyField("bridge_name"))
    } else if factory_check(m) is Some {
        factory_check(m)
    } else if methods_error_from(m.methods@, 0) is Some {
        methods_error_from(m.methods@, 0)
    } else {
        mode_check(m)
    }
}

/// `Ok(())` when there is no error, else `Err` of it.
pub open spec fn as_result(e: Option<MetadataValidationError>) -> Result<
    (),
    MetadataValidationError,
> {
    match e {
        None => Ok(()),
        Some(e) => Err(e),
    }
}

// ---------------------------------------------------------------------------
// Implementation.
// ---------------------------------------------------------------------------

fn require_non_empty(field: &'static str, value: &str) -> (r: Result<(), MetadataValidationError>)
    ensures
        r == as_result(blank_check(field, value@)),
{
    if str_blank(value) {
        Err(MetadataValidationError::EmptyField(field))
    } else {
        Ok(())
    }
}

fn require_optional(field: &'static str, value: &Option<String>) -> (r: Result<
    (),
    MetadataValidationError,
>)
    ensures
        r == as_result(optional_check(field, *value)),
{
    match value {
        None => Err(MetadataValidationError::MissingField(field)),
        Some(v) => require_non_empty(field, v.as_str()),
    }
}

/// The index of the first method named `name`.
pub fn find_method_index(methods: &Vec<MethodMetadata>, name: &str) -> (r: Option<usize>)
    ensures
        match r {
            None => find_method(methods@, name@) is None,
            Some(i) => find_method(methods@, name@) == Some(i as int),
        },
        r is None <==> !has_method(methods@, name@),
        r matches Some(i) ==> i < methods@.len() && methods@[i as int].name@ == name@,
{
    let mut i: usize = 0;
    while i < methods.len()
        invariant
            i <= methods.len(),
            find_method(methods@, name@) == find_method_from(methods@, name@, i as int),
            forall|j: int| 0 <= j < i ==> (#[trigger] methods@[j]).name@ != name@,
        decreases methods.len() - i,
    {
        if str_eq(methods[i].name.as_str(), name) {
            return Some(i);
        }
        i = i + 1;
    }
    None
}

fn args_error(args: &Vec<ArgMetadata>) -> (r: Result<(), MetadataValidationError>)
    ensures
        r == as_result(args_error_from(args@, 0)),
{
    let mut j: usize = 0;
    while j < args.len()
        invariant
            j <= args.len(),
            args_error_from(args@, 0) == args_error_from(args@, j as int),
        decreases args.len() - j,
    {
        require_non_empty("methods.args.name", args[j].name.as_str())?;
        require_non_empty("methods.args.rust_type", args[j].rust_type.as_str())?;
        j = j + 1;
    }
    Ok(())
}

fn methods_error(methods: &Vec<MethodMetadata>) -> (r: Result<(), MetadataValidationError>)
    ensures
        r == as_result(methods_error_from(methods@, 0)),
{
    let mut i: usize = 0;
    while i < methods.len()
        invariant
            i <= methods.len(),
            methods_error_from(methods@, 0) == methods_error_from(methods@, i as int),
        decreases methods.len() - i,
    {
        let m = &methods[i];
        require_non_empty("methods.name", m.name.as_str())?;
        require_non_empty("methods.return_type", m.return_type.as_str())?;
        args_error(&m.args)?;
        i = i + 1;
    }
    Ok(())
}

impl VmMetadata {
    /// Validates the target-independent VM contract before code generation.
    ///
    /// This catches missing observer callbacks, missing state getters, invalid
    /// method shapes, unsupported schema versions, and unknown modes early so
    /// CLI/package failures point back to the VM metadata instead of generated
    /// platform source code.
    pub fn validate(&self) -> (r: Result<(), MetadataValidationError>)
        ensures
            r == as_result(validation_error(*self)),
    {
        if self.schema_version != VM_METADATA_SCHEMA_VERSION {
            return Err(
                MetadataValidationError::UnsupportedSchemaVersion {
                    actual: self.schema_version,
                    expected: VM_METADATA_SCHEMA_VERSION,
                },
            );
        }
        require_non_empty("rust_type", self.rust_type.as_str())?;
        require_non_empty("bridge_name", self.bridge_name.as_str())?;
        if let Some(factory) = &self.factory {
            require_non_empty("factory.rust_type", factory.rust_type.as_str())?;
            require_non_empty("factory.method", factory.method.as_str())?;
            require_non_empty("factory.bridge_name", factory.bridge_name.as_str())?;
        }
        methods_error(&self.methods)?;
        match self.mode {
            VmMode::State => {
                self.require_observer()?;
                require_optional("state_type", &self.state_type)?;
                self.require_observer_subscription()?;
                self.require_state_getter()?;
            },
            VmMode::DiffList => {
                self.require_observer()?;
                require_optional("diff_type", &self.diff_type)?;
                require_optional("list_item_type", &self.list_item_type)?;
                self.require_observer_subscription()?;
            },
            VmMode::Event => {
                self.require_observer()?;
                self.require_observer_subscription()?;
            },
            VmMode::Unknown => {
                return Err(MetadataValidationError::UnknownMode);
            },
        }
        Ok(())
    }

    fn require_observer(&self) -> (r: Result<(), MetadataValidationError>)
        ensures
            r == as_result(observer_check(*self)),
    {
        match &self.observer {
            None => Err(MetadataValidationError::MissingField("observer")),
            Some(observer) => {
                require_non_empty("observer.rust_type", observer.rust_type.as_str())?;
                require_non_empty("observer.method", observer.method.as_str())
            },
        }
    }

    fn require_method(&self, method_name: &'static str) -> (r: Result<
        (),
        MetadataValidationError,
    >)
        ensures
            r == (if has_method(self.methods@, method_name@) {
                Ok(())
            } else {
                Err(MetadataValidationError::MissingMethod(method_name))
            }),
    {
        match find_method_index(&self.methods, method_name) {
            Some(_) => Ok(()),
            None => Err(MetadataValidationError::MissingMethod(method_name)),
        }
    }

    fn require_observer_subscription(&self) -> (r: Result<(), MetadataValidationError>)
        ensures
            r == as_result(subscribe_check(*self)),
    {
        self.require_method("subscribe")
    }

    fn require_state_getter(&self) -> (r: Result<(), MetadataValidationError>)
        ensures
            r == as_result(state_getter_check(*self)),
    {
        let i = match find_method_index(&self.methods, "get_state") {
            Some(i) => i,
            None => {
                return Err(MetadataValidationError::MissingMethod("get_state"));
            },
        };
        let method = &self.methods[i];
        if method.args.len() != 0 {
            return Err(
                MetadataValidationError::InvalidMethodShape {
                    method: "get_state",
                    reason: "must not accept arguments",
                },
            );
        }
        let state_type = match &self.state_type {
            Some(s) => s.as_str(),
            None => "",
        };
        proof {
            reveal_strlit("");
            assert(state_type@ =~= opt_view(self.state_type));
        }
        if !str_eq(method.return_type.as_str(), state_type) {
            return Err(
                MetadataValidationError::InvalidMethodShape {
                    method: "get_state",
                    reason: "return type must match state_type",
                },
            );
        }
        Ok(())
    }
}

} // verus!
