//! The virtual-machine capability that the pipeline consumes: parse,
//! configure, create an engine, compile, link, instantiate and call. The
//! engine used in production is PolkaVM.
use vstd::prelude::*;
use polkavm::Config as PolkaVmConfig;

verus! {

/// A virtual-machine engine, seen through the narrow set of steps that
/// loading and running a program takes. Each fallible step reports failure
/// as `None`. The spec functions follow the program's bytes from one step to
/// the next, so that a result can be traced to the program it came from.
pub trait Runner {
    /// A parsed program.
    type Parsed;
    /// An engine configuration.
    type Settings;
    /// An execution engine.
    type Vm;
    /// A program compiled for an engine.
    type Compiled;
    /// A table of host functions.
    type HostTable;
    /// A module linked against a host-function table.
    type Linked;
    /// A running instance.
    type Running;

    /// Whether the engine accepts `code` as a program.
    spec fn parses(&self, code: Seq<u8>) -> bool;

    /// Whether a configuration can be built.
    spec fn configures(&self) -> bool;

    /// The bytes that a parsed program was parsed from.
    spec fn parsed_from(&self, blob: Self::Parsed) -> Seq<u8>;

    /// The bytes of the program that a module was compiled from.
    spec fn compiled_from(&self, module: Self::Compiled) -> Seq<u8>;

    /// Whether a host-function table holds no function.
    spec fn empty_table(&self, linker: Self::HostTable) -> bool;

    /// The bytes of the program that a linked module holds.
    spec fn linked_from(&self, pre: Self::Linked) -> Seq<u8>;

    /// Whether a linked module was linked against an empty table.
    spec fn linked_bare(&self, pre: Self::Linked) -> bool;

    /// The bytes of the program that an instance runs.
    spec fn running_from(&self, instance: Self::Running) -> Seq<u8>;

    /// Whether an instance can call no host function.
    spec fn running_bare(&self, instance: Self::Running) -> bool;

    /// Whether calling export `name` of the program `code` on `(a, b)` may
    /// return `v`.
    spec fn may_return(&self, code: Seq<u8>, name: Seq<char>, a: u32, b: u32, v: u32) -> bool;

    /// Parses and validates raw program bytes.
    fn parse(&self, code: &[u8]) -> (r: Option<Self::Parsed>)
        ensures
            r is Some == self.parses(code@),
            r is Some ==> self.parsed_from(r->0) == code@,
    ;

    /// The names of the functions that a parsed program exports.
    fn exports(&self, blob: &Self::Parsed) -> Vec<Vec<u8>>;

    /// Builds an engine configuration.
    fn configure(&self) -> (r: Option<Self::Settings>)
        ensures
            r is Some == self.configures(),
    ;

    /// Creates an engine from a configuration.
    fn new_engine(&self, config: &Self::Settings) -> Option<Self::Vm>;

    /// Compiles a parsed program for an engine.
    fn compile(&self, engine: &Self::Vm, blob: Self::Parsed) -> (r: Option<Self::Compiled>)
        ensures
            r is Some ==> self.compiled_from(r->0) == self.parsed_from(blob),
    ;

    /// An empty host-function table.
    fn link(&self) -> (r: Self::HostTable)
        ensures
            self.empty_table(r),
    ;

    /// Links a module against a host-function table.
    fn pre_instantiate(&self, linker: &Self::HostTable, module: &Self::Compiled) -> (r: Option<
        Self::Linked,
    >)
        ensures
            r is Some ==> self.linked_from(r->0) == self.compiled_from(*module),
            r is Some ==> self.linked_bare(r->0) == self.empty_table(*linker),
    ;

    /// Creates an instance of a linked module.
    fn instantiate(&self, pre: &Self::Linked) -> (r: Option<Self::Running>)
        ensures
            r is Some ==> self.running_from(r->0) == self.linked_from(*pre),
            r is Some ==> self.running_bare(r->0) == self.linked_bare(*pre),
    ;

    /// Calls the export `name` with arguments `(a, b)`, expecting a `u32`.
    fn call(&self, instance: &mut Self::Running, name: &str, a: u32, b: u32) -> (r: Option<u32>)
        ensures
            r matches Some(v) ==> self.may_return(self.running_from(*old(instance)), name@, a, b, v),
    ;
}

#[verifier::external_type_specification]
#[verifier::external_body]
pub struct ExProgramBlob(polkavm::ProgramBlob);

#[verifier::external_type_specification]
#[verifier::external_body]
pub struct ExConfig(PolkaVmConfig);

#[verifier::external_type_specification]
#[verifier::external_body]
pub struct ExEngine(polkavm::Engine);

#[verifier::external_type_specification]
#[verifier::external_body]
pub struct ExModule(polkavm::Module);

#[verifier::external_type_specification]
#[verifier::external_body]
#[verifier::reject_recursive_types(UserData)]
#[verifier::reject_recursive_types(UserError)]
pub struct ExLinker<UserData, UserError>(polkavm::Linker<UserData, UserError>);

#[verifier::external_type_specification]
#[verifier::external_body]
#[verifier::reject_recursive_types(UserData)]
#[verifier::reject_recursive_types(UserError)]
pub struct ExInstancePre<UserData, UserError>(polkavm::InstancePre<UserData, UserError>);

#[verifier::external_type_specification]
#[verifier::external_body]
#[verifier::reject_recursive_types(UserData)]
#[verifier::reject_recursive_types(UserError)]
pub struct ExInstance<UserData, UserError>(polkavm::Instance<UserData, UserError>);

/// Whether PolkaVM accepts `code` as a program blob.
pub uninterp spec fn polkavm_parses(code: Seq<u8>) -> bool;

/// Relies on `polkavm::ProgramBlob::parse`: validates and parses the bytes;
/// whether it succeeds depends on the bytes alone.
#[verifier::external_body]
fn parse_blob(code: &[u8]) -> (r: Option<polkavm::ProgramBlob>)
    ensures
        r is Some == polkavm_parses(code@),
{
    polkavm::ProgramBlob::parse(code.into()).ok()
}

/// Relies on `polkavm::ProgramBlob::exports`: the symbols of the exports.
#[verifier::external_body]
fn blob_exports(blob: &polkavm::ProgramBlob) -> Vec<Vec<u8>> {
    blob.exports().map(|export| export.symbol().as_bytes().to_vec()).collect()
}

/// Relies on `polkavm::Config::new`: the default configuration; it cannot
/// fail and reads nothing from the environment.
#[verifier::external_body]
fn config_new() -> PolkaVmConfig {
    PolkaVmConfig::new()
}

/// Relies on `polkavm::Config::set_allow_dynamic_paging`.
#[verifier::external_body]
fn config_set_dynamic_paging(config: &mut PolkaVmConfig, value: bool) {
    config.set_allow_dynamic_paging(value);
}

/// Relies on `polkavm::Engine::new`.
#[verifier::external_body]
fn engine_new(config: &PolkaVmConfig) -> Option<polkavm::Engine> {
    polkavm::Engine::new(config).ok()
}

/// Relies on `polkavm::Module::from_blob`, with the default module
/// configuration.
#[verifier::external_body]
fn module_from_blob(engine: &polkavm::Engine, blob: polkavm::ProgramBlob) -> Option<
    polkavm::Module,
> {
    polkavm::Module::from_blob(engine, &polkavm::ModuleConfig::default(), blob).ok()
}

/// Relies on `polkavm::Linker::new`: a linker with no host functions.
#[verifier::external_body]
fn linker_new() -> polkavm::Linker {
    polkavm::Linker::new()
}

/// Relies on `polkavm::Linker::instantiate_pre`.
#[verifier::external_body]
fn linker_instantiate_pre(linker: &polkavm::Linker, module: &polkavm::Module) -> Option<
    polkavm::InstancePre,
> {
    linker.instantiate_pre(module).ok()
}

/// Relies on `polkavm::InstancePre::instantiate`.
#[verifier::external_body]
fn instance_pre_instantiate(pre: &polkavm::InstancePre) -> Option<polkavm::Instance> {
    pre.instantiate().ok()
}

/// Relies on `polkavm::Instance::call_typed_and_get_result`, called with
/// two `u32` arguments and a `u32` result.
#[verifier::external_body]
fn instance_call(instance: &mut polkavm::Instance, name: &str, a: u32, b: u32) -> Option<u32> {
    instance.call_typed_and_get_result::<u32, (u32, u32)>(&mut (), name, (a, b)).ok()
}

/// A PolkaVM program blob, with the bytes it was parsed from.
pub struct PvmBlob {
    blob: polkavm::ProgramBlob,
    source: Ghost<Seq<u8>>,
}

/// A compiled PolkaVM module, with the bytes of its program.
pub struct PvmModule {
    module: polkavm::Module,
    source: Ghost<Seq<u8>>,
}

/// A PolkaVM linker, with whether host functions were added to it.
pub struct PvmLinker {
    linker: polkavm::Linker,
    empty: Ghost<bool>,
}

/// A linked PolkaVM module, with the bytes of its program.
pub struct PvmLinked {
    pre: polkavm::InstancePre,
    source: Ghost<Seq<u8>>,
    bare: Ghost<bool>,
}

/// A PolkaVM instance, with the bytes of its program.
pub struct PvmInstance {
    instance: polkavm::Instance,
    source: Ghost<Seq<u8>>,
    bare: Ghost<bool>,
}

/// The PolkaVM engine with its default configuration.
pub struct PolkaVmRunner {
    /// Whether modules may use dynamic paging.
    pub allow_dynamic_paging: bool,
}

impl Runner for PolkaVmRunner {
    type Parsed = PvmBlob;
    type Settings = PolkaVmConfig;
    type Vm = polkavm::Engine;
    type Compiled = PvmModule;
    type HostTable = PvmLinker;
    type Linked = PvmLinked;
    type Running = PvmInstance;

    open spec fn parses(&self, code: Seq<u8>) -> bool {
        polkavm_parses(code)
    }

    open spec fn configures(&self) -> bool {
        true
    }

    closed spec fn parsed_from(&self, blob: PvmBlob) -> Seq<u8> {
        blob.source@
    }

    closed spec fn compiled_from(&self, module: PvmModule) -> Seq<u8> {
        module.source@
    }

    closed spec fn empty_table(&self, linker: PvmLinker) -> bool {
        linker.empty@
    }

    closed spec fn linked_from(&self, pre: PvmLinked) -> Seq<u8> {
        pre.source@
    }

    closed spec fn linked_bare(&self, pre: PvmLinked) -> bool {
        pre.bare@
    }

    closed spec fn running_from(&self, instance: PvmInstance) -> Seq<u8> {
        instance.source@
    }

    closed spec fn running_bare(&self, instance: PvmInstance) -> bool {
        instance.bare@
    }

    /// What a PolkaVM program computes is not modelled: any value may come
    /// back from a call.
    open spec fn may_return(&self, code: Seq<u8>, name: Seq<char>, a: u32, b: u32, v: u32) -> bool {
        true
    }

    fn parse(&self, code: &[u8]) -> (r: Option<PvmBlob>) {
        match parse_blob(code) {
            Some(blob) => Some(PvmBlob { blob, source: Ghost(code@) }),
            None => None,
        }
    }

    fn exports(&self, blob: &PvmBlob) -> Vec<Vec<u8>> {
        blob_exports(&blob.blob)
    }

    fn configure(&self) -> (r: Option<PolkaVmConfig>) {
        let mut config = config_new();
        config_set_dynamic_paging(&mut config, self.allow_dynamic_paging);
        Some(config)
    }

    fn new_engine(&self, config: &PolkaVmConfig) -> Option<polkavm::Engine> {
        engine_new(config)
    }

    fn compile(&self, engine: &polkavm::Engine, blob: PvmBlob) -> (r: Option<PvmModule>) {
        let source = blob.source;
        match module_from_blob(engine, blob.blob) {
            Some(module) => Some(PvmModule { module, source }),
            None => None,
        }
    }

    /// `polkavm::Linker::new` builds a linker with no host functions, and
    /// none is added.
    fn link(&self) -> (r: PvmLinker) {
        PvmLinker { linker: linker_new(), empty: Ghost(true) }
    }

    fn pre_instantiate(&self, linker: &PvmLinker, module: &PvmModule) -> (r: Option<PvmLinked>) {
        match linker_instantiate_pre(&linker.linker, &module.module) {
            Some(pre) => Some(PvmLinked { pre, source: module.source, bare: linker.empty }),
            None => None,
        }
    }

    fn instantiate(&self, pre: &PvmLinked) -> (r: Option<PvmInstance>) {
        match instance_pre_instantiate(&pre.pre) {
            Some(instance) => Some(PvmInstance { instance, source: pre.source, bare: pre.bare }),
            None => None,
        }
    }

    fn call(&self, instance: &mut PvmInstance, name: &str, a: u32, b: u32) -> (r: Option<u32>) {
        instance_call(&mut instance.instance, name, a, b)
    }
}

} // verus!
