# cross_kit

Cross-Kit turns Rust view models into platform libraries for iOS and Android.
This crate is its verified core, written in Verus: the metadata rules, the
code generators, the packaging plans and the example view models are proved
against their `requires`/`ensures` contracts. Calls into `chrono`, `camino`
and std's paths and clock go through small trusted wrappers whose contracts
state what those crates document. `syn` and `proc_macro2` read the attribute
arguments and the annotated impl; what they give back depends on the
process's token printer, so nothing is claimed of it, and the functions that
decide what is made of what was read take it as arguments. The view models
hand messages to observers only through `src/delivery.rs`, whose receipts
record the calls made. The observer set of the runtime, shared behind locks,
promises only what can be stated without tracked state.

- `src/metadata.rs`, `src/config.rs`: the VM metadata contract and
  `cross-kit.toml`, with `VmMetadata::validate`.
- `src/naming.rs`, `src/swift.rs`, `src/kotlin.rs`, `src/root_graph.rs`,
  `src/codegen.rs`: Swift and Kotlin bridge generation and the root container
  graph.
- `src/attr_args.rs`, `src/bridge_expand.rs`, `src/bridge_meta.rs`,
  `src/attribute_swift.rs`: the
  expansion of the `vm_bridge` and `ck_vm_bridge` attributes, from the text of
  their arguments and of the annotated impl to the metadata they embed, and
  the Swift bridge of the older attribute.
- `src/ios.rs`, `src/android.rs`, `src/cli.rs`, `src/packaging.rs`: what the
  packagers and the command line decide: options, targets, layouts, commands,
  manifests and Gradle files.
- `src/runtime.rs`, `src/list_vm.rs`, `src/counter_vm.rs`, `src/calendar.rs`:
  the observer set of the runtime and the example view models.
- `src/text.rs`: string utilities with their specifications.

`app/` is the `cross-kit` command line around the library: reading files,
running Cargo, UniFFI, Gradle and Xcode tools, and the token-stream side of the
attribute expansion (for a proc-macro crate to call; this package builds
none). `tests/` exercises the library on concrete values.
