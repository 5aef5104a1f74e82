//! The deployment-and-execution pipeline: each owner keeps one generation of
//! program bytes, addressed by the owner's slot snapshot, and callers run one
//! of three arithmetic exports of a stored program and have the result
//! recorded.
use vstd::prelude::*;
use crate::address::{AccountId, CodeHash, derive_identifier, identifier_of};
use crate::runner::Runner;
use crate::table::Table;

verus! {

/// The pallet's configuration.
pub struct Config {
    /// The largest program, in bytes, that `upload` accepts.
    pub max_code_len: u32,
}

/// Every way in which `upload` or `execute` can fail.
#[derive(Debug, Clone, Copy, PartialEq, Eq, Structural)]
pub enum Error {
    /// The owner's version counter is at its maximum.
    CounterOverflow,
    /// No program is stored under the identifier.
    ProgramNotFound,
    /// The operation code is none of add, sub and mul.
    InvalidOperation,
    /// The operation overflows or underflows on `u32`.
    InvalidOperands,
    /// The program is longer than the configured maximum.
    ProgramTooLarge,
    /// The program bytes do not parse.
    ProgramParsingFailed,
    /// No engine configuration could be built.
    RunnerConfigurationFailed,
    /// No engine could be created.
    EngineCreationFailed,
    /// The program could not be compiled.
    ModuleCreationFailed,
    /// The module could not be linked.
    ModulePreInstantiationFailed,
    /// The module could not be instantiated.
    ModuleInstantiationFailed,
    /// The call into the program failed.
    ExecutionFailed,
}

/// Notifications for outside observers.
#[derive(Debug, Clone, PartialEq, Eq)]
pub enum Event {
    /// A result was computed and recorded.
    Calculated { who: AccountId, address: CodeHash, result: u32 },
    /// A program was stored under a new identifier.
    ProgramBlobUploaded { who: AccountId, address: CodeHash, exports: Vec<Vec<u8>> },
}

/// The arithmetic operations that a program exports.
#[derive(Debug, Clone, Copy, PartialEq, Eq, Structural)]
pub enum OpCode {
    Add,
    Sub,
    Mul,
}

/// The operation that a one-byte code selects.
pub open spec fn decode_op(op: u8) -> Option<OpCode> {
    if op == 0 {
        Some(OpCode::Add)
    } else if op == 1 {
        Some(OpCode::Sub)
    } else if op == 2 {
        Some(OpCode::Mul)
    } else {
        None
    }
}

/// The name of the export that carries out `op`.
pub open spec fn export_of(op: OpCode) -> Seq<char> {
    match op {
        OpCode::Add => "add_numbers"@,
        OpCode::Sub => "sub_numbers"@,
        OpCode::Mul => "mul_numbers"@,
    }
}

/// Whether `op` on `a` and `b` stays within `u32`.
pub open spec fn operands_valid(op: OpCode, a: u32, b: u32) -> bool {
    match op {
        OpCode::Add => a + b <= u32::MAX,
        OpCode::Sub => b <= a,
        OpCode::Mul => a * b <= u32::MAX,
    }
}

/// The error with which `execute` stops before the engine is touched, if any.
pub open spec fn rejection(code: Map<Seq<u8>, Seq<u8>>, address: Seq<u8>, a: u32, b: u32, op: u8) -> Option<
    Error,
> {
    if !code.contains_key(address) {
        Some(Error::ProgramNotFound)
    } else if decode_op(op) is None {
        Some(Error::InvalidOperation)
    } else if !operands_valid(decode_op(op)->0, a, b) {
        Some(Error::InvalidOperands)
    } else {
        None
    }
}

/// The errors that come from a stage of loading or running a program.
pub open spec fn is_stage_error(e: Error) -> bool {
    ||| e == Error::ProgramParsingFailed
    ||| e == Error::RunnerConfigurationFailed
    ||| e == Error::EngineCreationFailed
    ||| e == Error::ModuleCreationFailed
    ||| e == Error::ModulePreInstantiationFailed
    ||| e == Error::ModuleInstantiationFailed
    ||| e == Error::ExecutionFailed
}

/// What loading `code` afresh with `runner` and calling its export `name`
/// on `(a, b)` may give: the stages run in order and the first to fail
/// gives its own error; a success carries what the call returned.
pub open spec fn run_outcome<R: Runner>(
    runner: &R,
    code: Seq<u8>,
    name: Seq<char>,
    a: u32,
    b: u32,
    r: Result<u32, Error>,
) -> bool {
    &&& !runner.parses(code) <==> r == Err::<u32, Error>(Error::ProgramParsingFailed)
    &&& runner.parses(code) && !runner.configures() ==> r == Err::<u32, Error>(
        Error::RunnerConfigurationFailed,
    )
    &&& r is Err && r->Err_0 != Error::ProgramParsingFailed && r->Err_0
        != Error::RunnerConfigurationFailed ==> runner.configures()
    &&& r is Err ==> is_stage_error(r->Err_0)
    &&& r is Ok ==> runner.may_return(code, name, a, b, r->Ok_0)
}

/// The key of the result that `who` computed with the program at `address`.
pub open spec fn result_key(address: Seq<u8>, who: Seq<u8>) -> Seq<u8> {
    address + who
}

/// The version in `who`'s slot; zero when there is none.
pub open spec fn version_of(slots: Map<Seq<u8>, u64>, who: Seq<u8>) -> u64 {
    if slots.contains_key(who) {
        slots[who]
    } else {
        0
    }
}

/// The code store after `who`, whose slot was at `version`, stored `blob`:
/// the previous generation is gone (if there was one) and the new one is in.
pub open spec fn code_after_upload(
    code: Map<Seq<u8>, Seq<u8>>,
    who: Seq<u8>,
    version: u64,
    blob: Seq<u8>,
) -> Map<Seq<u8>, Seq<u8>> {
    let kept = if version == 0 {
        code
    } else {
        code.remove(identifier_of(who, version))
    };
    kept.insert(identifier_of(who, (version + 1) as u64), blob)
}

/// Whether `e` announces that `who` stored a program under `id`.
pub open spec fn is_upload_notice(e: Event, who: AccountId, id: Seq<u8>) -> bool {
    match e {
        Event::ProgramBlobUploaded { who: w, address, .. } => w == who && address@ == id,
        _ => false,
    }
}

/// `a` followed by `b`.
fn concat_bytes(a: &[u8], b: &[u8]) -> (r: Vec<u8>)
    ensures
        r@ == a@ + b@,
{
    let mut out = vstd::slice::slice_to_vec(a);
    let mut i: usize = 0;
    while i < b.len()
        invariant
            i <= b@.len(),
            out@ == a@ + b@.subrange(0, i as int),
        decreases b@.len() - i,
    {
        out.push(b[i]);
        assert(out@ =~= a@ + b@.subrange(0, i + 1));
        i = i + 1;
    }
    assert(b@.subrange(0, b@.len() as int) =~= b@);
    out
}

impl OpCode {
    /// The operation that a one-byte code selects, if any.
    pub fn from_u8(op: u8) -> (r: Option<OpCode>)
        ensures
            r == decode_op(op),
    {
        if op == 0 {
            Some(OpCode::Add)
        } else if op == 1 {
            Some(OpCode::Sub)
        } else if op == 2 {
            Some(OpCode::Mul)
        } else {
            None
        }
    }

    /// The name of the export that carries out this operation.
    pub fn export_name(&self) -> (r: &'static str)
        ensures
            r@ == export_of(*self),
    {
        proof {
            reveal_strlit("add_numbers");
            reveal_strlit("sub_numbers");
            reveal_strlit("mul_numbers");
        }
        match self {
            OpCode::Add => "add_numbers",
            OpCode::Sub => "sub_numbers",
            OpCode::Mul => "mul_numbers",
        }
    }
}

/// The durable state: stored programs, owner slots, recorded results, and
/// the notifications emitted so far.
pub struct Pallet {
    max_code_len: u32,
    code: Table<Vec<u8>>,
    code_metadata: Table<u64>,
    calculation_result: Table<u32>,
    events: Vec<Event>,
}

impl Pallet {
    /// The tables are well formed.
    pub closed spec fn wf(&self) -> bool {
        &&& self.code.wf()
        &&& self.code_metadata.wf()
        &&& self.calculation_result.wf()
    }

    /// The configured maximum program length.
    pub closed spec fn max_len(&self) -> u32 {
        self.max_code_len
    }

    /// Identifier to program bytes.
    pub closed spec fn code_store(&self) -> Map<Seq<u8>, Seq<u8>> {
        Map::new(|k: Seq<u8>| self.code@.contains_key(k), |k: Seq<u8>| self.code@[k]@)
    }

    /// Owner to the version of its current program.
    pub closed spec fn slots(&self) -> Map<Seq<u8>, u64> {
        self.code_metadata@
    }

    /// `result_key(identifier, caller)` to the last result recorded.
    pub closed spec fn results(&self) -> Map<Seq<u8>, u32> {
        self.calculation_result@
    }

    /// The notifications emitted, oldest first.
    pub closed spec fn event_log(&self) -> Seq<Event> {
        self.events@
    }

    /// `post` holds the same durable state as `pre`.
    pub open spec fn unchanged(pre: &Pallet, post: &Pallet) -> bool {
        &&& post.max_len() == pre.max_len()
        &&& post.code_store() == pre.code_store()
        &&& post.slots() == pre.slots()
        &&& post.results() == pre.results()
        &&& post.event_log() == pre.event_log()
    }

    /// What an upload by `who` of `blob` that passed validation does: fail
    /// on a full counter, else retire the previous generation, store the
    /// new one, advance the slot and notify.
    pub open spec fn upload_effect(
        pre: &Pallet,
        post: &Pallet,
        who: AccountId,
        blob: Seq<u8>,
        r: Result<(), Error>,
    ) -> bool {
        let v = version_of(pre.slots(), who@);
        if v == u64::MAX {
            r == Err::<(), Error>(Error::CounterOverflow) && Pallet::unchanged(pre, post)
        } else {
            &&& r is Ok
            &&& post.max_len() == pre.max_len()
            &&& post.code_store() == code_after_upload(pre.code_store(), who@, v, blob)
            &&& post.slots() == pre.slots().insert(who@, (v + 1) as u64)
            &&& post.results() == pre.results()
            &&& post.event_log().len() == pre.event_log().len() + 1
            &&& post.event_log().drop_last() == pre.event_log()
            &&& is_upload_notice(post.event_log().last(), who, identifier_of(who@, (v + 1) as u64))
        }
    }

    /// What a successful run of `who` on the program at `address` with
    /// result `v` does: record `v` under the key, overwriting, and notify.
    pub open spec fn recorded(pre: &Pallet, post: &Pallet, who: AccountId, address: CodeHash, v: u32) -> bool {
        &&& post.max_len() == pre.max_len()
        &&& post.code_store() == pre.code_store()
        &&& post.slots() == pre.slots()
        &&& post.results() == pre.results().insert(result_key(address@, who@), v)
        &&& post.event_log() == pre.event_log().push(
            Event::Calculated { who, address, result: v },
        )
    }

    /// What `execute` by `who` of `op` on `(a, b)` with the program at
    /// `address` does: a refusal decided before the engine runs comes back
    /// as such; otherwise the stored program is run with the export that
    /// `op` names, as `run_outcome` says; a result is recorded, and an error changes
    /// nothing.
    pub open spec fn execute_effect<R: Runner>(
        runner: &R,
        pre: &Pallet,
        post: &Pallet,
        who: AccountId,
        address: CodeHash,
        a: u32,
        b: u32,
        op: u8,
        r: Result<u32, Error>,
    ) -> bool {
        &&& r is Err ==> Pallet::unchanged(pre, post)
        &&& rejection(pre.code_store(), address@, a, b, op) is Some ==> r == Err::<u32, Error>(
            rejection(pre.code_store(), address@, a, b, op)->0,
        )
        &&& rejection(pre.code_store(), address@, a, b, op) is None ==> run_outcome(
            runner,
            pre.code_store()[address@],
            export_of(decode_op(op)->0),
            a,
            b,
            r,
        )
        &&& r is Ok ==> Pallet::recorded(pre, post, who, address, r->Ok_0)
    }

    /// An empty pallet with the given configuration.
    pub fn new(config: Config) -> (p: Pallet)
        ensures
            p.wf(),
            p.max_len() == config.max_code_len,
            p.code_store() == Map::<Seq<u8>, Seq<u8>>::empty(),
            p.slots() == Map::<Seq<u8>, u64>::empty(),
            p.results() == Map::<Seq<u8>, u32>::empty(),
            p.event_log() == Seq::<Event>::empty(),
    {
        let p = Pallet {
            max_code_len: config.max_code_len,
            code: Table::new(),
            code_metadata: Table::new(),
            calculation_result: Table::new(),
            events: Vec::new(),
        };
        assert(p.code_store() =~= Map::<Seq<u8>, Seq<u8>>::empty());
        p
    }
    /// Parses `raw_blob`, configures an engine and compiles the program for it.
    pub fn prepare<R: Runner>(runner: &R, raw_blob: &[u8]) -> (r: Result<R::Compiled, Error>)
        ensures
            !runner.parses(raw_blob@) <==> r == Err::<R::Compiled, Error>(Error::ProgramParsingFailed),
            runner.parses(raw_blob@) && !runner.configures() ==> r == Err::<R::Compiled, Error>(
                Error::RunnerConfigurationFailed,
            ),
            r is Err && r->Err_0 != Error::ProgramParsingFailed && r->Err_0
                != Error::RunnerConfigurationFailed ==> runner.configures(),
            r matches Err(e) ==> e == Error::ProgramParsingFailed || e
                == Error::RunnerConfigurationFailed || e == Error::EngineCreationFailed || e
                == Error::ModuleCreationFailed,
            r matches Ok(m) ==> runner.compiled_from(m) == raw_blob@,
    {
        let blob = match runner.parse(raw_blob) {
            Some(blob) => blob,
            None => return Err(Error::ProgramParsingFailed),
        };
        let config = match runner.configure() {
            Some(config) => config,
            None => return Err(Error::RunnerConfigurationFailed),
        };
        let engine = match runner.new_engine(&config) {
            Some(engine) => engine,
            None => return Err(Error::EngineCreationFailed),
        };
        match runner.compile(&engine, blob) {
            Some(module) => Ok(module),
            None => Err(Error::ModuleCreationFailed),
        }
    }

    /// Links `module` against an empty host-function table and instantiates it.
    pub fn instantiate<R: Runner>(runner: &R, module: &R::Compiled) -> (r: Result<R::Running, Error>)
        ensures
            r matches Err(e) ==> e == Error::ModulePreInstantiationFailed || e
                == Error::ModuleInstantiationFailed,
            r matches Ok(i) ==> runner.running_from(i) == runner.compiled_from(*module)
                && runner.running_bare(i),
    {
        let linker = runner.link();
        let instance_pre = match runner.pre_instantiate(&linker, module) {
            Some(pre) => pre,
            None => return Err(Error::ModulePreInstantiationFailed),
        };
        match runner.instantiate(&instance_pre) {
            Some(instance) => Ok(instance),
            None => Err(Error::ModuleInstantiationFailed),
        }
    }

    /// Loads `raw_blob` afresh and calls its export `name` on `(a, b)`.
    pub fn run<R: Runner>(runner: &R, raw_blob: &[u8], name: &str, a: u32, b: u32) -> (r: Result<
        u32,
        Error,
    >)
        ensures
            run_outcome(runner, raw_blob@, name@, a, b, r),
    {
        let module = Self::prepare(runner, raw_blob)?;
        let mut instance = Self::instantiate(runner, &module)?;
        match runner.call(&mut instance, name, a, b) {
            Some(result) => Ok(result),
            None => Err(Error::ExecutionFailed),
        }
    }

    /// Adds `a` and `b` with the program's `add_numbers`, after checking
    /// natively that the sum fits.
    pub fn sum<R: Runner>(runner: &R, a: u32, b: u32, raw_blob: &[u8]) -> (r: Result<u32, Error>)
        ensures
            !operands_valid(OpCode::Add, a, b) <==> r == Err::<u32, Error>(Error::InvalidOperands),
            operands_valid(OpCode::Add, a, b) ==> run_outcome(runner, raw_blob@, export_of(OpCode::Add), a, b, r),
    {
        if a.checked_add(b).is_none() {
            return Err(Error::InvalidOperands);
        }
        Self::run(runner, raw_blob, OpCode::Add.export_name(), a, b)
    }

    /// Subtracts `b` from `a` with the program's `sub_numbers`, after
    /// checking natively that the difference is not negative.
    pub fn sub<R: Runner>(runner: &R, a: u32, b: u32, raw_blob: &[u8]) -> (r: Result<u32, Error>)
        ensures
            !operands_valid(OpCode::Sub, a, b) <==> r == Err::<u32, Error>(Error::InvalidOperands),
            operands_valid(OpCode::Sub, a, b) ==> run_outcome(runner, raw_blob@, export_of(OpCode::Sub), a, b, r),
    {
        if a.checked_sub(b).is_none() {
            return Err(Error::InvalidOperands);
        }
        Self::run(runner, raw_blob, OpCode::Sub.export_name(), a, b)
    }

    /// Multiplies `a` and `b` with the program's `mul_numbers`, after
    /// checking natively that the product fits.
    pub fn mul<R: Runner>(runner: &R, a: u32, b: u32, raw_blob: &[u8]) -> (r: Result<u32, Error>)
        ensures
            !operands_valid(OpCode::Mul, a, b) <==> r == Err::<u32, Error>(Error::InvalidOperands),
            operands_valid(OpCode::Mul, a, b) ==> run_outcome(runner, raw_blob@, export_of(OpCode::Mul), a, b, r),
    {
        if a.checked_mul(b).is_none() {
            return Err(Error::InvalidOperands);
        }
        Self::run(runner, raw_blob, OpCode::Mul.export_name(), a, b)
    }

    /// Stores `program_blob` as `who`'s next generation, retiring the
    /// previous one, and announces it with `exports`.
    pub fn store_program(&mut self, who: AccountId, program_blob: Vec<u8>, exports: Vec<Vec<u8>>) -> (r: Result<(), Error>)
        requires
            old(self).wf(),
        ensures
            final(self).wf(),
            Pallet::upload_effect(old(self), final(self), who, program_blob@, r),
            r is Ok ==> final(self).event_log().last() == (Event::ProgramBlobUploaded {
                who,
                address: final(self).event_log().last()->ProgramBlobUploaded_address,
                exports,
            }),
    {
        let key = vstd::slice::slice_to_vec(who.as_slice());
        let version: u64 = match self.code_metadata.get(key.as_slice()) {
            Some(v) => *v,
            None => 0,
        };
        assert(version == version_of(self.slots(), who@));
        let old_address = derive_identifier(&who, version);
        let new_version = match version.checked_add(1) {
            Some(v) => v,
            None => return Err(Error::CounterOverflow),
        };
        let address = derive_identifier(&who, new_version);
        let ghost pre_code = self.code_store();
        if version != 0 {
            self.code.remove(old_address.as_slice());
        }
        let ghost kept = self.code_store();
        assert(kept =~= (if version == 0 { pre_code } else { pre_code.remove(old_address@) }));
        let stored_key = vstd::slice::slice_to_vec(address.as_slice());
        self.code.insert(stored_key, program_blob);
        assert(self.code_store() =~= kept.insert(address@, program_blob@));
        self.code_metadata.insert(key, new_version);
        self.events.push(Event::ProgramBlobUploaded { who, address, exports });
        assert(self.event_log().drop_last() =~= old(self).event_log());
        Ok(())
    }

    /// Deploys `program_blob` as `who`'s program: checks its length and that
    /// it parses, then stores it as the next generation.
    pub fn upload<R: Runner>(&mut self, runner: &R, who: AccountId, program_blob: Vec<u8>) -> (r: Result<(), Error>)
        requires
            old(self).wf(),
        ensures
            final(self).wf(),
            program_blob@.len() > old(self).max_len() ==> r == Err::<(), Error>(Error::ProgramTooLarge),
            r is Err ==> Pallet::unchanged(old(self), final(self)),
            program_blob@.len() <= old(self).max_len() ==> (r == Err::<(), Error>(Error::ProgramParsingFailed)
                <==> !runner.parses(program_blob@)),
            program_blob@.len() <= old(self).max_len() && runner.parses(program_blob@)
                ==> Pallet::upload_effect(old(self), final(self), who, program_blob@, r),
    {
        if program_blob.len() > self.max_code_len as usize {
            return Err(Error::ProgramTooLarge);
        }
        let exports = match runner.parse(program_blob.as_slice()) {
            Some(blob) => runner.exports(&blob),
            None => return Err(Error::ProgramParsingFailed),
        };
        self.store_program(who, program_blob, exports)
    }

    /// Records the outcome of a run of `who` on the program at `address`:
    /// a result is written under its key, overwriting, and announced; an
    /// error changes nothing. Returns `outcome`.
    pub fn record_calculation(&mut self, who: AccountId, address: CodeHash, outcome: Result<u32, Error>) -> (r: Result<u32, Error>)
        requires
            old(self).wf(),
        ensures
            final(self).wf(),
            r == outcome,
            outcome matches Ok(v) ==> Pallet::recorded(old(self), final(self), who, address, v),
            outcome is Err ==> Pallet::unchanged(old(self), final(self)),
    {
        match outcome {
            Ok(result) => {
                let key = concat_bytes(address.as_slice(), who.as_slice());
                self.calculation_result.insert(key, result);
                self.events.push(Event::Calculated { who, address, result });
                Ok(result)
            },
            Err(e) => Err(e),
        }
    }

    /// Runs operation `op` on `(a, b)` with the program stored at
    /// `blob_address`, records the result for `who` and returns it.
    pub fn execute<R: Runner>(
        &mut self,
        runner: &R,
        who: AccountId,
        blob_address: CodeHash,
        a: u32,
        b: u32,
        op: u8,
    ) -> (r: Result<u32, Error>)
        requires
            old(self).wf(),
        ensures
            final(self).wf(),
            Pallet::execute_effect(runner, old(self), final(self), who, blob_address, a, b, op, r),
    {
        let outcome = match self.code.get(blob_address.as_slice()) {
            None => Err(Error::ProgramNotFound),
            Some(raw_blob) => match OpCode::from_u8(op) {
                Some(OpCode::Add) => Self::sum(runner, a, b, raw_blob.as_slice()),
                Some(OpCode::Sub) => Self::sub(runner, a, b, raw_blob.as_slice()),
                Some(OpCode::Mul) => Self::mul(runner, a, b, raw_blob.as_slice()),
                None => Err(Error::InvalidOperation),
            },
        };
        self.record_calculation(who, blob_address, outcome)
    }

    /// The program stored under `address`, if any.
    pub fn code(&self, address: &CodeHash) -> (r: Option<&Vec<u8>>)
        requires
            self.wf(),
        ensures
            r is Some == self.code_store().contains_key(address@),
            r is Some ==> r->0@ == self.code_store()[address@],
    {
        self.code.get(address.as_slice())
    }

    /// The version of `who`'s current program; zero when it has none.
    pub fn code_version(&self, who: &AccountId) -> (r: u64)
        requires
            self.wf(),
        ensures
            r == version_of(self.slots(), who@),
    {
        let key = vstd::slice::slice_to_vec(who.as_slice());
        match self.code_metadata.get(key.as_slice()) {
            Some(v) => *v,
            None => 0,
        }
    }

    /// The last result that `who` computed with the program at `address`.
    pub fn calculation_result(&self, address: &CodeHash, who: &AccountId) -> (r: Option<u32>)
        requires
            self.wf(),
        ensures
            r is Some == self.results().contains_key(result_key(address@, who@)),
            r is Some ==> r->0 == self.results()[result_key(address@, who@)],
    {
        let key = concat_bytes(address.as_slice(), who.as_slice());
        match self.calculation_result.get(key.as_slice()) {
            Some(v) => Some(*v),
            None => None,
        }
    }

    /// The notifications emitted, oldest first.
    pub fn events(&self) -> (r: &Vec<Event>)
        ensures
            r@ == self.event_log(),
    {
        &self.events
    }

    /// The configured maximum program length.
    pub fn max_code_len(&self) -> (r: u32)
        ensures
            r == self.max_len(),
    {
        self.max_code_len
    }
}

/// The generations `1..=upto` of `who`'s program that `code` still holds.
pub open spec fn generations(code: Map<Seq<u8>, Seq<u8>>, who: Seq<u8>, upto: u64) -> Set<u64> {
    Set::new(|k: u64| 1 <= k <= upto && code.contains_key(identifier_of(who, k)))
}

/// Byte-identical programs uploaded by two different owners are stored
/// under digests of different inputs: the address comes from the owner and
/// the version, never from the bytes.
pub proof fn lemma_owners_stored_apart(
    pre1: &Pallet,
    post1: &Pallet,
    who1: AccountId,
    pre2: &Pallet,
    post2: &Pallet,
    who2: AccountId,
    blob: Seq<u8>,
)
    requires
        Pallet::upload_effect(pre1, post1, who1, blob, Ok(())),
        Pallet::upload_effect(pre2, post2, who2, blob, Ok(())),
        who1@ != who2@,
    ensures
        ({
            let v1 = (version_of(pre1.slots(), who1@) + 1) as u64;
            let v2 = (version_of(pre2.slots(), who2@) + 1) as u64;
            &&& post1.code_store().contains_key(identifier_of(who1@, v1))
            &&& post1.code_store()[identifier_of(who1@, v1)] == blob
            &&& post2.code_store().contains_key(identifier_of(who2@, v2))
            &&& post2.code_store()[identifier_of(who2@, v2)] == blob
            &&& crate::address::slot_encoding(who1@, v1) != crate::address::slot_encoding(who2@, v2)
        }),
{
    let v1 = (version_of(pre1.slots(), who1@) + 1) as u64;
    let v2 = (version_of(pre2.slots(), who2@) + 1) as u64;
    crate::address::lemma_encoding_separates_owners(who1@, v1, who2@, v2);
}

/// After a successful upload by `who`, whose slot now holds `n`, the store
/// holds generation `n` of `who`'s program and none of the earlier ones,
/// provided it held at most the current one before and no two of `who`'s
/// identifiers up to `n` coincide.
pub proof fn lemma_single_generation(pre: &Pallet, post: &Pallet, who: AccountId, blob: Seq<u8>)
    requires
        Pallet::upload_effect(pre, post, who, blob, Ok(())),
        generations(pre.code_store(), who@, version_of(pre.slots(), who@)).subset_of(
            set![version_of(pre.slots(), who@)],
        ),
        forall|k: u64|
            1 <= k < version_of(post.slots(), who@) ==> #[trigger] identifier_of(who@, k) != identifier_of(
                who@,
                version_of(post.slots(), who@),
            ),
    ensures
        generations(post.code_store(), who@, version_of(post.slots(), who@)) == set![
            version_of(post.slots(), who@),
        ],
{
    let v = version_of(pre.slots(), who@);
    let n = version_of(post.slots(), who@);
    assert(n == v + 1);
    let g = generations(post.code_store(), who@, n);
    assert forall|k: u64| g.contains(k) <==> k == n by {
        if 1 <= k < n {
            assert(identifier_of(who@, k) != identifier_of(who@, n));
            if k != v {
                assert(!generations(pre.code_store(), who@, v).contains(k));
            }
        }
    }
    assert(g =~= set![n]);
}

/// An upload by `other` leaves the generations of `who`'s program as they
/// were, provided neither the identifier it retires nor the one it stores is
/// one of `who`'s.
pub proof fn lemma_upload_keeps_other_owners(
    pre: &Pallet,
    post: &Pallet,
    other: AccountId,
    blob: Seq<u8>,
    who: Seq<u8>,
    upto: u64,
)
    requires
        Pallet::upload_effect(pre, post, other, blob, Ok(())),
        forall|k: u64|
            1 <= k <= upto ==> #[trigger] identifier_of(who, k) != identifier_of(
                other@,
                version_of(pre.slots(), other@),
            ) && identifier_of(who, k) != identifier_of(other@, version_of(post.slots(), other@)),
    ensures
        generations(post.code_store(), who, upto) == generations(pre.code_store(), who, upto),
{
    assert(generations(post.code_store(), who, upto) =~= generations(pre.code_store(), who, upto));
}

/// An owner's first upload only adds: nothing is removed from the store.
pub proof fn lemma_first_upload_only_inserts(pre: &Pallet, post: &Pallet, who: AccountId, blob: Seq<u8>)
    requires
        Pallet::upload_effect(pre, post, who, blob, Ok(())),
        version_of(pre.slots(), who@) == 0,
    ensures
        post.code_store() == pre.code_store().insert(identifier_of(who@, 1), blob),
        post.slots() == pre.slots().insert(who@, 1),
{
}

/// An upload that passed validation, by an owner whose counter is at its
/// maximum, fails with `CounterOverflow` and leaves the owner's slot and the
/// code store as they were.
pub proof fn lemma_full_counter_rejects(pre: &Pallet, post: &Pallet, who: AccountId, blob: Seq<u8>, r: Result<(), Error>)
    requires
        version_of(pre.slots(), who@) == u64::MAX,
        Pallet::upload_effect(pre, post, who, blob, r),
    ensures
        r == Err::<(), Error>(Error::CounterOverflow),
        post.slots() == pre.slots(),
        post.code_store() == pre.code_store(),
{
}

/// Two executions with the same inputs against the same stored programs
/// agree: where the inputs are refused before the engine runs, or the stored
/// program does not parse, both return the same error and neither changes
/// anything; where both succeed with an engine whose call can return only
/// one value on those inputs, both return and record that value.
pub proof fn lemma_refusals_repeat<R: Runner>(
    runner: &R,
    pre1: &Pallet,
    post1: &Pallet,
    r1: Result<u32, Error>,
    pre2: &Pallet,
    post2: &Pallet,
    r2: Result<u32, Error>,
    who: AccountId,
    address: CodeHash,
    a: u32,
    b: u32,
    op: u8,
)
    requires
        Pallet::execute_effect(runner, pre1, post1, who, address, a, b, op, r1),
        Pallet::execute_effect(runner, pre2, post2, who, address, a, b, op, r2),
        pre1.code_store() == pre2.code_store(),
    ensures
        rejection(pre1.code_store(), address@, a, b, op) is Some ==> r1 == r2 && r1 is Err
            && Pallet::unchanged(pre1, post1) && Pallet::unchanged(pre2, post2),
        rejection(pre1.code_store(), address@, a, b, op) is None && !runner.parses(
            pre1.code_store()[address@],
        ) ==> r1 == r2 && r1 == Err::<u32, Error>(Error::ProgramParsingFailed),
        ({
            let code = pre1.code_store()[address@];
            let name = export_of(decode_op(op)->0);
            rejection(pre1.code_store(), address@, a, b, op) is None && r1 is Ok && r2 is Ok && (
            forall|v1: u32, v2: u32|
                #![trigger runner.may_return(code, name, a, b, v1), runner.may_return(code, name, a, b, v2)]
                runner.may_return(code, name, a, b, v1) && runner.may_return(code, name, a, b, v2) ==> v1
                    == v2) ==> r1 == r2 && post1.results()[result_key(address@, who@)]
                == post2.results()[result_key(address@, who@)]
        }),
{
}

} // verus!
