//! The isolated test runner: executes one test case under its execution
//! policy and decodes the processor's memory into an outcome.

use vstd::prelude::*;

use crate::all_instrs::{
    all_instrs_status_code, contains_failure_marker, magic_decode_post, read_status_string,
};
use crate::nestest::{nestest_status_code, result_code_post};
use crate::outcome::{describe_step_failure, Outcome};
use crate::suite::{ExecutionPolicy, TestCase, VerdictRule};
use crate::TestableCpu;

verus! {

/// Decodes the processor's memory into an outcome under the given
/// verdict rule.
pub fn decode_verdict<T: TestableCpu>(rule: VerdictRule, cpu: &T) -> (result: Outcome)
    ensures
        rule is MagicStatus ==> magic_decode_post(cpu, result),
        rule is ResultCode ==> result_code_post(cpu.mem(0x0002), cpu.mem(0x0003), result),
{
    match rule {
        VerdictRule::MagicStatus => all_instrs_status_code(cpu),
        VerdictRule::ResultCode => nestest_status_code(
            cpu.memory_read(0x0002),
            cpu.memory_read(0x0003),
        ),
    }
}

/// What the runner can return under a verdict rule: a harness-level
/// error, or the decode of some processor memory state — never a pass
/// or a reported failure that no status record would decode to.
pub open spec fn runner_outcome<T: TestableCpu>(rule: VerdictRule, result: Outcome) -> bool {
    &&& (rule is MagicStatus && !(result is HarnessError) ==> exists|cpu: T|
        #[trigger] magic_decode_post(&cpu, result))
    &&& (rule is ResultCode && !(result is HarnessError) ==> exists|low: u8, high: u8|
        #[trigger] result_code_post(low, high, result))
}

/// Classifies a construction error: it becomes a harness-level error
/// carrying the constructor's message verbatim, never a reported test
/// failure.
fn construction_failure(message: String) -> (result: Outcome)
    ensures
        result is HarnessError,
        result->HarnessError_0@ == message@,
{
    Outcome::HarnessError(message)
}

/// Converts a stepping-engine crash or timeout into a harness-level
/// error, enriched by a best-effort secondary decode of the status
/// record. The enrichment never changes the classification: the result
/// is a harness error whatever the record holds.
fn step_failure_outcome<T: TestableCpu>(rule: VerdictRule, cpu: &T, engine: String) -> (result:
    Outcome)
    ensures
        result is HarnessError,
        rule is MagicStatus ==> exists|secondary: Outcome|
            #[trigger] magic_decode_post(cpu, secondary) && result->HarnessError_0@
                == crate::outcome::step_failure_message(engine@, secondary),
        rule is ResultCode ==> exists|secondary: Outcome|
            #[trigger] result_code_post(cpu.mem(0x0002), cpu.mem(0x0003), secondary)
                && result->HarnessError_0@ == crate::outcome::step_failure_message(
                engine@,
                secondary,
            ),
{
    let secondary = decode_verdict(rule, cpu);
    let described = describe_step_failure(engine, &secondary);
    proof {
        if rule is MagicStatus {
            assert(magic_decode_post(cpu, secondary) && described@
                == crate::outcome::step_failure_message(engine@, secondary));
        } else {
            assert(result_code_post(cpu.mem(0x0002), cpu.mem(0x0003), secondary) && described@
                == crate::outcome::step_failure_message(engine@, secondary));
        }
    }
    Outcome::HarnessError(described)
}

/// Executes one test case and returns its outcome.
///
/// A fresh processor instance is constructed from the case's ROM; a
/// construction error is a harness error carrying the constructor's
/// message, never a reported test failure. Under a polling budget the
/// runner stops stepping as soon as the decoded diagnostic signals a
/// definitive failure and proceeds straight to the final decode. What
/// the final decode returns for each memory state is pinned by
/// [`decode_verdict`]; which state the processor reaches is the
/// implementation under test's own affair. Whatever it does, any pass
/// or reported failure returned here is the decode of some memory
/// state under the case's verdict rule — see [`runner_outcome`].
pub fn run_case<T: TestableCpu>(case: &TestCase) -> (result: Outcome)
    ensures
        runner_outcome::<T>(case.verdict, result),
{
    let mut cpu = match T::get_cpu(case.rom.as_slice()) {
        Ok(cpu) => cpu,
        Err(message) => {
            return construction_failure(message);
        },
    };
    if let Some(pc) = case.initial_pc {
        cpu.set_program_counter(pc);
    }
    match case.policy {
        ExecutionPolicy::FixedBudget { cycles } => {
            match cpu.step(cycles) {
                Ok(_) => {},
                Err(engine) => {
                    return step_failure_outcome(case.verdict, &cpu, engine);
                },
            }
        },
        ExecutionPolicy::PollingBudget { chunk_cycles, max_chunks } => {
            let mut chunk: u32 = 0;
            while chunk < max_chunks
                decreases max_chunks - chunk,
            {
                match cpu.step(chunk_cycles) {
                    Ok(_) => {},
                    Err(engine) => {
                        return step_failure_outcome(case.verdict, &cpu, engine);
                    },
                }
                let text = read_status_string(&cpu);
                if contains_failure_marker(text.as_str()) {
                    break;
                }
                chunk = chunk + 1;
            }
        },
    }
    let result = decode_verdict(case.verdict, &cpu);
    proof {
        if case.verdict is MagicStatus {
            assert(magic_decode_post(&cpu, result));
        } else {
            assert(result_code_post(cpu.mem(0x0002), cpu.mem(0x0003), result));
        }
    }
    result
}

} // verus!
