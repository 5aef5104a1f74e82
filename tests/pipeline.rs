use std::cell::Cell;

use vstd::seq::Seq;


use qf_polkavm::address::{derive_identifier, encode_slot};
use qf_polkavm::pallet::{Config, Error, Event, OpCode, Pallet};
use qf_polkavm::runner::{PolkaVmRunner, Runner};

const ALICE: [u8; 32] = [1u8; 32];
const BOB: [u8; 32] = [2u8; 32];

/// An engine that accepts programs starting with "PVM" and computes the
/// three exports natively; it can be told to fail at one stage.
struct FakeRunner {
    fail_at: u8,
    touched: Cell<u32>,
}

impl FakeRunner {
    fn new() -> Self {
        FakeRunner { fail_at: 0, touched: Cell::new(0) }
    }

    fn failing_at(stage: u8) -> Self {
        FakeRunner { fail_at: stage, touched: Cell::new(0) }
    }

    fn step(&self, stage: u8) -> Option<()> {
        self.touched.set(self.touched.get() + 1);
        if self.fail_at == stage {
            None
        } else {
            Some(())
        }
    }
}

impl Runner for FakeRunner {
    type Parsed = Vec<u8>;
    type Settings = ();
    type Vm = ();
    type Compiled = Vec<u8>;
    type HostTable = ();
    type Linked = Vec<u8>;
    type Running = Vec<u8>;

    // The spec functions below are read by the verifier only and never run.
    fn parses(&self, _code: Seq<u8>) -> bool {
        unreachable!()
    }

    fn configures(&self) -> bool {
        unreachable!()
    }

    fn parsed_from(&self, _blob: Vec<u8>) -> Seq<u8> {
        unreachable!()
    }

    fn compiled_from(&self, _module: Vec<u8>) -> Seq<u8> {
        unreachable!()
    }

    fn empty_table(&self, _linker: ()) -> bool {
        unreachable!()
    }

    fn linked_from(&self, _pre: Vec<u8>) -> Seq<u8> {
        unreachable!()
    }

    fn linked_bare(&self, _pre: Vec<u8>) -> bool {
        unreachable!()
    }

    fn running_from(&self, _instance: Vec<u8>) -> Seq<u8> {
        unreachable!()
    }

    fn running_bare(&self, _instance: Vec<u8>) -> bool {
        unreachable!()
    }

    fn may_return(&self, _code: Seq<u8>, _name: Seq<char>, _a: u32, _b: u32, _v: u32) -> bool {
        unreachable!()
    }

    fn parse(&self, code: &[u8]) -> Option<Vec<u8>> {
        self.step(1)?;
        if code.starts_with(b"PVM") {
            Some(code.to_vec())
        } else {
            None
        }
    }

    fn exports(&self, _blob: &Vec<u8>) -> Vec<Vec<u8>> {
        vec![b"add_numbers".to_vec(), b"sub_numbers".to_vec(), b"mul_numbers".to_vec()]
    }

    fn configure(&self) -> Option<()> {
        self.step(2)
    }

    fn new_engine(&self, _config: &()) -> Option<()> {
        self.step(3)
    }

    fn compile(&self, _engine: &(), blob: Vec<u8>) -> Option<Vec<u8>> {
        self.step(4)?;
        Some(blob)
    }

    fn link(&self) {}

    fn pre_instantiate(&self, _linker: &(), module: &Vec<u8>) -> Option<Vec<u8>> {
        self.step(5)?;
        Some(module.clone())
    }

    fn instantiate(&self, pre: &Vec<u8>) -> Option<Vec<u8>> {
        self.step(6)?;
        Some(pre.clone())
    }

    fn call(&self, _instance: &mut Vec<u8>, name: &str, a: u32, b: u32) -> Option<u32> {
        self.step(7)?;
        match name {
            "add_numbers" => a.checked_add(b),
            "sub_numbers" => a.checked_sub(b),
            "mul_numbers" => a.checked_mul(b),
            _ => None,
        }
    }
}

fn program() -> Vec<u8> {
    b"PVM\0calc".to_vec()
}

fn pallet() -> Pallet {
    Pallet::new(Config { max_code_len: 64 })
}

#[test]
fn owners_uploading_same_bytes_get_different_identifiers() {
    let runner = FakeRunner::new();
    let mut p = pallet();
    assert_eq!(p.upload(&runner, ALICE, program()), Ok(()));
    assert_eq!(p.upload(&runner, BOB, program()), Ok(()));
    let alice_id = derive_identifier(&ALICE, 1);
    let bob_id = derive_identifier(&BOB, 1);
    assert_ne!(alice_id, bob_id);
    assert_eq!(p.code(&alice_id), Some(&program()));
    assert_eq!(p.code(&bob_id), Some(&program()));
}

#[test]
fn only_latest_generation_is_kept() {
    let runner = FakeRunner::new();
    let mut p = pallet();
    for n in 0..3u8 {
        let mut blob = program();
        blob.push(n);
        assert_eq!(p.upload(&runner, ALICE, blob), Ok(()));
    }
    assert_eq!(p.code_version(&ALICE), 3);
    assert_eq!(p.code(&derive_identifier(&ALICE, 1)), None);
    assert_eq!(p.code(&derive_identifier(&ALICE, 2)), None);
    let mut last = program();
    last.push(2);
    assert_eq!(p.code(&derive_identifier(&ALICE, 3)), Some(&last));
}

#[test]
fn reuploading_identical_bytes_moves_identifier() {
    let runner = FakeRunner::new();
    let mut p = pallet();
    assert_eq!(p.upload(&runner, ALICE, program()), Ok(()));
    assert_eq!(p.upload(&runner, ALICE, program()), Ok(()));
    assert_eq!(p.code(&derive_identifier(&ALICE, 1)), None);
    assert_eq!(p.code(&derive_identifier(&ALICE, 2)), Some(&program()));
}

#[test]
fn first_upload_succeeds_without_prior_entry() {
    let runner = FakeRunner::new();
    let mut p = pallet();
    assert_eq!(p.code_version(&ALICE), 0);
    assert_eq!(p.upload(&runner, ALICE, program()), Ok(()));
    assert_eq!(p.code_version(&ALICE), 1);
    let id = derive_identifier(&ALICE, 1);
    assert_eq!(
        p.events(),
        &vec![Event::ProgramBlobUploaded {
            who: ALICE,
            address: id,
            exports: vec![b"add_numbers".to_vec(), b"sub_numbers".to_vec(), b"mul_numbers".to_vec()],
        }]
    );
}

#[test]
fn too_large_program_is_rejected() {
    let runner = FakeRunner::new();
    let mut p = Pallet::new(Config { max_code_len: 4 });
    assert_eq!(p.upload(&runner, ALICE, program()), Err(Error::ProgramTooLarge));
    assert_eq!(p.code_version(&ALICE), 0);
    assert!(p.events().is_empty());
    assert_eq!(runner.touched.get(), 0);
}

#[test]
fn program_of_exactly_maximum_length_is_accepted() {
    let runner = FakeRunner::new();
    let mut p = Pallet::new(Config { max_code_len: program().len() as u32 });
    assert_eq!(p.upload(&runner, ALICE, program()), Ok(()));
}

#[test]
fn malformed_program_is_rejected() {
    let runner = FakeRunner::new();
    let mut p = pallet();
    assert_eq!(p.upload(&runner, ALICE, b"junk".to_vec()), Err(Error::ProgramParsingFailed));
    assert_eq!(p.code_version(&ALICE), 0);
    assert!(p.events().is_empty());
}

#[test]
fn polkavm_rejects_malformed_program() {
    let mut p = pallet();
    assert_eq!(p.upload(&PolkaVmRunner { allow_dynamic_paging: false }, ALICE, b"not a program".to_vec()), Err(Error::ProgramParsingFailed));
    assert_eq!(p.code_version(&ALICE), 0);
}

#[test]
fn add_overflow_is_rejected_before_engine() {
    let runner = FakeRunner::new();
    let mut p = pallet();
    p.upload(&runner, ALICE, program()).unwrap();
    let id = derive_identifier(&ALICE, 1);
    let before = runner.touched.get();
    assert_eq!(p.execute(&runner, BOB, id, 4294967295, 1, 0), Err(Error::InvalidOperands));
    assert_eq!(runner.touched.get(), before);
    assert_eq!(p.calculation_result(&id, &BOB), None);
    assert_eq!(p.events().len(), 1);
}

#[test]
fn sub_underflow_and_mul_overflow_are_rejected() {
    let runner = FakeRunner::new();
    let mut p = pallet();
    p.upload(&runner, ALICE, program()).unwrap();
    let id = derive_identifier(&ALICE, 1);
    assert_eq!(p.execute(&runner, ALICE, id, 1, 2, 1), Err(Error::InvalidOperands));
    assert_eq!(p.execute(&runner, ALICE, id, 65536, 65536, 2), Err(Error::InvalidOperands));
    assert_eq!(p.calculation_result(&id, &ALICE), None);
}

#[test]
fn unknown_operation_is_rejected() {
    let runner = FakeRunner::new();
    let mut p = pallet();
    p.upload(&runner, ALICE, program()).unwrap();
    let id = derive_identifier(&ALICE, 1);
    assert_eq!(p.execute(&runner, ALICE, id, 1, 2, 3), Err(Error::InvalidOperation));
    assert_eq!(p.execute(&runner, ALICE, id, 1, 2, 255), Err(Error::InvalidOperation));
}

#[test]
fn missing_program_is_reported_first() {
    let runner = FakeRunner::new();
    let mut p = pallet();
    let id = derive_identifier(&ALICE, 1);
    assert_eq!(p.execute(&runner, ALICE, id, 2, 3, 0), Err(Error::ProgramNotFound));
    assert_eq!(p.execute(&runner, ALICE, id, 4294967295, 1, 0), Err(Error::ProgramNotFound));
    assert_eq!(p.execute(&runner, ALICE, id, 1, 2, 3), Err(Error::ProgramNotFound));
    assert_eq!(runner.touched.get(), 0);
}

#[test]
fn superseded_identifier_is_not_found() {
    let runner = FakeRunner::new();
    let mut p = pallet();
    p.upload(&runner, ALICE, program()).unwrap();
    p.upload(&runner, ALICE, program()).unwrap();
    let old_id = derive_identifier(&ALICE, 1);
    assert_eq!(p.execute(&runner, ALICE, old_id, 2, 3, 0), Err(Error::ProgramNotFound));
}

#[test]
fn end_to_end_add_then_sub_overwrites_record() {
    let runner = FakeRunner::new();
    let mut p = pallet();
    p.upload(&runner, ALICE, program()).unwrap();
    let id = derive_identifier(&ALICE, 1);
    assert_eq!(p.execute(&runner, BOB, id, 2, 3, 0), Ok(5));
    assert_eq!(p.calculation_result(&id, &BOB), Some(5));
    assert_eq!(p.execute(&runner, BOB, id, 10, 1, 1), Ok(9));
    assert_eq!(p.calculation_result(&id, &BOB), Some(9));
    assert_eq!(p.calculation_result(&id, &ALICE), None);
    let events = p.events();
    assert_eq!(events.len(), 3);
    assert_eq!(events[1], Event::Calculated { who: BOB, address: id, result: 5 });
    assert_eq!(events[2], Event::Calculated { who: BOB, address: id, result: 9 });
}

#[test]
fn multiply_runs_mul_export() {
    let runner = FakeRunner::new();
    let mut p = pallet();
    p.upload(&runner, ALICE, program()).unwrap();
    let id = derive_identifier(&ALICE, 1);
    assert_eq!(p.execute(&runner, ALICE, id, 6, 7, 2), Ok(42));
    assert_eq!(p.calculation_result(&id, &ALICE), Some(42));
}

#[test]
fn repeated_execute_gives_same_result() {
    let runner = FakeRunner::new();
    let mut p = pallet();
    p.upload(&runner, ALICE, program()).unwrap();
    let id = derive_identifier(&ALICE, 1);
    let first = p.execute(&runner, ALICE, id, 7, 8, 0);
    for _ in 0..3 {
        assert_eq!(p.execute(&runner, ALICE, id, 7, 8, 0), first);
    }
    assert_eq!(first, Ok(15));
    assert_eq!(p.calculation_result(&id, &ALICE), Some(15));
}

#[test]
fn each_stage_failure_has_its_own_error() {
    let expected = [
        (1u8, Error::ProgramParsingFailed),
        (2, Error::RunnerConfigurationFailed),
        (3, Error::EngineCreationFailed),
        (4, Error::ModuleCreationFailed),
        (5, Error::ModulePreInstantiationFailed),
        (6, Error::ModuleInstantiationFailed),
        (7, Error::ExecutionFailed),
    ];
    for (stage, error) in expected {
        let mut p = pallet();
        p.upload(&FakeRunner::new(), ALICE, program()).unwrap();
        let id = derive_identifier(&ALICE, 1);
        let runner = FakeRunner::failing_at(stage);
        assert_eq!(p.execute(&runner, ALICE, id, 2, 3, 0), Err(error));
        assert_eq!(p.calculation_result(&id, &ALICE), None);
        assert_eq!(p.events().len(), 1);
    }
}

#[test]
fn opcodes_decode_and_name_exports() {
    assert_eq!(OpCode::from_u8(0), Some(OpCode::Add));
    assert_eq!(OpCode::from_u8(1), Some(OpCode::Sub));
    assert_eq!(OpCode::from_u8(2), Some(OpCode::Mul));
    assert_eq!(OpCode::from_u8(3), None);
    assert_eq!(OpCode::Add.export_name(), "add_numbers");
    assert_eq!(OpCode::Sub.export_name(), "sub_numbers");
    assert_eq!(OpCode::Mul.export_name(), "mul_numbers");
}

#[test]
fn slot_encoding_is_owner_then_little_endian_version() {
    let encoded = encode_slot(&ALICE, 0x0102030405060708);
    let mut expected = vec![1u8; 32];
    expected.extend_from_slice(&[8, 7, 6, 5, 4, 3, 2, 1]);
    assert_eq!(encoded, expected);
}

#[test]
fn identifier_is_blake2_256_of_slot_encoding() {
    let id = derive_identifier(&ALICE, 1);
    let expected = <sp_runtime::traits::BlakeTwo256 as sp_runtime::traits::Hash>::hash(&encode_slot(&ALICE, 1)).0;
    assert_eq!(id, expected);
    assert_ne!(id.to_vec(), encode_slot(&ALICE, 1)[..32].to_vec());
    assert_ne!(derive_identifier(&ALICE, 1), derive_identifier(&ALICE, 2));
}
