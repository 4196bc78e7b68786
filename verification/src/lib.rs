//! A conformance-test harness for NES CPU implementations.
//!
//! The harness drives a caller-supplied, black-box CPU implementation
//! through a fixed catalog of pre-recorded test programs and decides
//! pass/fail by decoding a small, well-known region of the CPU's
//! addressable memory after execution.

use vstd::prelude::*;

pub mod all_instrs;
pub mod nestest;
pub mod outcome;
pub mod runner;
pub mod scripted;
pub mod suite;
pub mod text;

use crate::outcome::{failure_report, report_failure, Outcome};
use crate::runner::{run_case, runner_outcome};
use crate::suite::{catalog, catalog_name, catalog_verdict, entry_well_formed, TestId, TestRoms};

verus! {

/// Capability interface that a CPU implementation under test must provide.
///
/// The harness holds exactly one instance per test execution: it constructs
/// the instance from the test's ROM image, optionally forces an initial
/// program counter, advances it for bounded cycle counts, and reads single
/// memory bytes to decode the test's status protocol.
pub trait TestableCpu: Sized {
    /// Abstraction of the CPU's addressable memory: the byte currently
    /// stored at `address`.
    spec fn mem(&self, address: u16) -> u8;

    /// Constructs a fresh CPU instance loaded with the given ROM image.
    /// A construction error is reported as the error message.
    fn get_cpu(rom: &[u8]) -> (result: Result<Self, String>);

    /// Forces the program counter, used by tests whose ROM requires a
    /// fixed entry point.
    fn set_program_counter(&mut self, value: u16);

    /// Reads one byte of memory without changing any state.
    fn memory_read(&self, address: u16) -> (value: u8)
        ensures
            value == self.mem(address),
    ;

    /// Advances the CPU for the given number of cycles. An error carries
    /// the stepping engine's crash or timeout message.
    fn step(&mut self, cycles: u32) -> (result: Result<(), String>);
}

/// Selects which catalog entries to run.
///
/// The selection is a bit set: bit 0 is the reference-trace suite, bit
/// 1 the full instruction-coverage suite, bit 2 its
/// official-instructions-only variant.
#[derive(Clone, Copy)]
pub struct TestSelector {
    pub bits: u32,
}

/// The bit masks of the selectable entries, on the preset selection
/// values.
proof fn lemma_selector_masks()
    ensures
        0x1u32 & 0x1 != 0,
        0x1u32 & 0x2 == 0,
        0x1u32 & 0x4 == 0,
        0x2u32 & 0x1 == 0,
        0x2u32 & 0x2 != 0,
        0x2u32 & 0x4 == 0,
        0x4u32 & 0x1 == 0,
        0x4u32 & 0x2 == 0,
        0x4u32 & 0x4 != 0,
        0x3u32 & 0x1 != 0,
        0x3u32 & 0x2 != 0,
        0x3u32 & 0x4 == 0,
{
    assert(0x1u32 & 0x1 != 0 && 0x1u32 & 0x2 == 0 && 0x1u32 & 0x4 == 0 && 0x2u32 & 0x1 == 0
        && 0x2u32 & 0x2 != 0 && 0x2u32 & 0x4 == 0 && 0x4u32 & 0x1 == 0 && 0x4u32 & 0x2 == 0
        && 0x4u32 & 0x4 != 0 && 0x3u32 & 0x1 != 0 && 0x3u32 & 0x2 != 0 && 0x3u32 & 0x4 == 0)
        by (bit_vector);
}

impl TestSelector {
    /// True when the entry with the given identifier is selected.
    pub open spec fn spec_selects(self, id: TestId) -> bool {
        match id {
            TestId::Nestest => self.bits & 0x1 != 0,
            TestId::AllInstrs => self.bits & 0x2 != 0,
            TestId::OfficialInstrs => self.bits & 0x4 != 0,
        }
    }

    /// True when no entry at all is selected.
    pub open spec fn spec_selects_none(self) -> bool {
        &&& !self.spec_selects(TestId::Nestest)
        &&& !self.spec_selects(TestId::AllInstrs)
        &&& !self.spec_selects(TestId::OfficialInstrs)
    }

    /// Selects only the reference-trace suite.
    pub fn nestest() -> (result: Self)
        ensures
            result.spec_selects(TestId::Nestest),
            !result.spec_selects(TestId::AllInstrs),
            !result.spec_selects(TestId::OfficialInstrs),
    {
        proof {
            lemma_selector_masks();
        }
        TestSelector { bits: 0x1 }
    }

    /// Selects only the full instruction-coverage suite.
    pub fn all_instrs() -> (result: Self)
        ensures
            !result.spec_selects(TestId::Nestest),
            result.spec_selects(TestId::AllInstrs),
            !result.spec_selects(TestId::OfficialInstrs),
    {
        proof {
            lemma_selector_masks();
        }
        TestSelector { bits: 0x2 }
    }

    /// Selects only the official-instructions-only suite.
    pub fn official_instrs() -> (result: Self)
        ensures
            !result.spec_selects(TestId::Nestest),
            !result.spec_selects(TestId::AllInstrs),
            result.spec_selects(TestId::OfficialInstrs),
    {
        proof {
            lemma_selector_masks();
        }
        TestSelector { bits: 0x4 }
    }

    /// The "all tests" preset: the reference-trace suite together with
    /// the full instruction-coverage suite.
    pub fn all() -> (result: Self)
        ensures
            result.spec_selects(TestId::Nestest),
            result.spec_selects(TestId::AllInstrs),
            !result.spec_selects(TestId::OfficialInstrs),
    {
        proof {
            lemma_selector_masks();
        }
        TestSelector { bits: 0x3 }
    }

    /// The curated default subset: only the official-instructions-only
    /// suite, a deliberately fast sanity path distinct from the full
    /// catalog.
    pub fn default_selection() -> (result: Self)
        ensures
            !result.spec_selects(TestId::Nestest),
            !result.spec_selects(TestId::AllInstrs),
            result.spec_selects(TestId::OfficialInstrs),
    {
        proof {
            lemma_selector_masks();
        }
        TestSelector { bits: 0x4 }
    }

    /// The union of two selections.
    pub fn union(self, other: Self) -> (result: Self)
        ensures
            forall|id: TestId|
                #[trigger] result.spec_selects(id) <==> self.spec_selects(id)
                    || other.spec_selects(id),
    {
        let result = TestSelector { bits: self.bits | other.bits };
        proof {
            let sb = self.bits;
            let ob = other.bits;
            assert(((sb | ob) & 0x1 != 0 <==> (sb & 0x1 != 0) || (ob & 0x1 != 0)) && ((sb | ob)
                & 0x2 != 0 <==> (sb & 0x2 != 0) || (ob & 0x2 != 0)) && ((sb | ob) & 0x4 != 0 <==> (
            sb & 0x4 != 0) || (ob & 0x4 != 0))) by (bit_vector);
        }
        result
    }

    /// Tests whether the entry with the given identifier is selected.
    pub fn selects(&self, id: TestId) -> (result: bool)
        ensures
            result == self.spec_selects(id),
    {
        match id {
            TestId::Nestest => self.bits & 0x1 != 0,
            TestId::AllInstrs => self.bits & 0x2 != 0,
            TestId::OfficialInstrs => self.bits & 0x4 != 0,
        }
    }
}

impl Default for TestSelector {
    /// With no explicit selection the harness runs the curated default
    /// subset, not the full catalog.
    fn default() -> (result: Self)
        ensures
            !result.spec_selects(TestId::Nestest),
            !result.spec_selects(TestId::AllInstrs),
            result.spec_selects(TestId::OfficialInstrs),
    {
        proof {
            lemma_selector_masks();
        }
        TestSelector { bits: 0x4 }
    }
}

/// Runs every selected catalog entry in the catalog's fixed order,
/// stopping at the first test that does not pass.
///
/// The result is `Ok` when every selected test passed (in particular
/// when nothing is selected), and otherwise an error that names the
/// failing test and embeds its diagnostic, built by the reporting rule
/// of [`outcome::failure_report`].
pub fn run_tests<T: TestableCpu>(selector: TestSelector, roms: &TestRoms) -> (result: Result<
    (),
    String,
>)
    ensures
        selector.spec_selects_none() ==> result is Ok,
        result is Err ==> exists|id: TestId, outcome: Outcome|
            selector.spec_selects(id) && !(outcome is Pass) && runner_outcome::<T>(
                catalog_verdict(id),
                outcome,
            ) && result->Err_0@ == #[trigger] failure_report(catalog_name(id), outcome),
{
    let cases = catalog(roms);
    let mut k: usize = 0;
    while k < cases.len()
        invariant
            forall|j: int| 0 <= j < cases@.len() ==> entry_well_formed(#[trigger] cases@[j]),
        decreases cases@.len() - k,
    {
        let case = &cases[k];
        if selector.selects(case.id) {
            let outcome = run_case::<T>(case);
            if !outcome.is_pass() {
                let report = report_failure(case.name.as_str(), &outcome);
                proof {
                    assert(selector.spec_selects(case.id) && !(outcome is Pass)
                        && runner_outcome::<T>(catalog_verdict(case.id), outcome) && report@
                        == failure_report(catalog_name(case.id), outcome));
                }
                return Err(report);
            }
        }
        k = k + 1;
    }
    Ok(())
}

} // verus!
