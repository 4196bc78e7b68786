//! The fixed catalog of test cases: each binds a name, a ROM image, an
//! execution policy, a verdict rule and any per-test setup. New suites
//! are added here, never by changing the runner or the orchestrator.

use vstd::prelude::*;

verus! {

/// Identifier of a catalog entry.
#[derive(Clone, Copy)]
pub enum TestId {
    AllInstrs,
    OfficialInstrs,
    Nestest,
}

/// How a test case is executed.
///
/// `FixedBudget` runs once for the whole cycle budget and then decodes.
/// `PollingBudget` runs in bounded increments, checking after each one
/// whether the decoded status already signals definitive failure, to
/// short-circuit long multi-phase suites.
#[derive(Clone, Copy)]
pub enum ExecutionPolicy {
    FixedBudget { cycles: u32 },
    PollingBudget { chunk_cycles: u32, max_chunks: u32 },
}

/// Which status protocol turns post-execution memory into an outcome.
///
/// `MagicStatus` is the magic-prefixed record at `0x6000`; `ResultCode`
/// is the two-byte result code at `0x0002`/`0x0003`.
#[derive(Clone, Copy)]
pub enum VerdictRule {
    MagicStatus,
    ResultCode,
}

/// One immutable test case of the catalog.
pub struct TestCase {
    pub id: TestId,
    pub name: String,
    pub rom: Vec<u8>,
    pub policy: ExecutionPolicy,
    pub verdict: VerdictRule,
    pub initial_pc: Option<u16>,
}

/// The ROM images that back the catalog, supplied by the caller as
/// opaque read-only byte blobs.
pub struct TestRoms {
    pub all_instrs: Vec<u8>,
    pub official_only: Vec<u8>,
    pub nestest: Vec<u8>,
}

/// The name under which a catalog entry is reported.
pub open spec fn catalog_name(id: TestId) -> Seq<char> {
    match id {
        TestId::AllInstrs => "all instructions"@,
        TestId::OfficialInstrs => "all instructions (official only)"@,
        TestId::Nestest => "nestest"@,
    }
}

/// The verdict rule under which a catalog entry is decoded.
pub open spec fn catalog_verdict(id: TestId) -> VerdictRule {
    match id {
        TestId::AllInstrs => VerdictRule::MagicStatus,
        TestId::OfficialInstrs => VerdictRule::MagicStatus,
        TestId::Nestest => VerdictRule::ResultCode,
    }
}

/// Well-formedness of one catalog entry: it is reported under the name
/// of its identifier and decoded under its identifier's verdict rule.
pub open spec fn entry_well_formed(case: TestCase) -> bool {
    &&& case.name@ == catalog_name(case.id)
    &&& case.verdict == catalog_verdict(case.id)
}

/// Builds the catalog in its fixed execution order: the full
/// instruction-coverage suite, the official-instructions-only variant,
/// then the reference-trace suite with its forced entry point.
pub fn catalog(roms: &TestRoms) -> (cases: Vec<TestCase>)
    ensures
        cases@.len() == 3,
        cases@[0].id is AllInstrs,
        cases@[0].policy == (ExecutionPolicy::PollingBudget {
            chunk_cycles: 200000,
            max_chunks: 500,
        }),
        cases@[0].verdict is MagicStatus,
        cases@[0].initial_pc is None,
        cases@[0].rom@ == roms.all_instrs@,
        cases@[1].id is OfficialInstrs,
        cases@[1].policy == (ExecutionPolicy::PollingBudget {
            chunk_cycles: 200000,
            max_chunks: 350,
        }),
        cases@[1].verdict is MagicStatus,
        cases@[1].initial_pc is None,
        cases@[1].rom@ == roms.official_only@,
        cases@[2].id is Nestest,
        cases@[2].policy == (ExecutionPolicy::FixedBudget { cycles: 1000000 }),
        cases@[2].verdict is ResultCode,
        cases@[2].initial_pc == Some(0xC000u16),
        cases@[2].rom@ == roms.nestest@,
        forall|k: int| 0 <= k < 3 ==> entry_well_formed(#[trigger] cases@[k]),
{
    let mut cases: Vec<TestCase> = Vec::new();
    cases.push(
        TestCase {
            id: TestId::AllInstrs,
            name: "all instructions".to_owned(),
            rom: roms.all_instrs.clone(),
            policy: ExecutionPolicy::PollingBudget { chunk_cycles: 200000, max_chunks: 500 },
            verdict: VerdictRule::MagicStatus,
            initial_pc: None,
        },
    );
    cases.push(
        TestCase {
            id: TestId::OfficialInstrs,
            name: "all instructions (official only)".to_owned(),
            rom: roms.official_only.clone(),
            policy: ExecutionPolicy::PollingBudget { chunk_cycles: 200000, max_chunks: 350 },
            verdict: VerdictRule::MagicStatus,
            initial_pc: None,
        },
    );
    cases.push(
        TestCase {
            id: TestId::Nestest,
            name: "nestest".to_owned(),
            rom: roms.nestest.clone(),
            policy: ExecutionPolicy::FixedBudget { cycles: 1000000 },
            verdict: VerdictRule::ResultCode,
            initial_pc: Some(0xC000),
        },
    );
    cases
}

} // verus!
