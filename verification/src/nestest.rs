//! Decoder for the two-byte result-code protocol.
//!
//! Tests using this protocol leave a 16-bit result code at two fixed
//! memory addresses (low byte at `0x0002`, high byte at `0x0003`).
//! Zero is the designated success value; any other value is a reported
//! failure whose diagnostic states the literal code observed. The
//! mapping from nonzero codes to human-readable reasons is external
//! knowledge and is deliberately not reproduced here.

use vstd::prelude::*;

use crate::outcome::{result_code_fail_message, Outcome};
use crate::text::push_dec_u16;
use vstd::string::StringExecFns;

verus! {

/// The 16-bit result code formed from its two bytes.
pub open spec fn result_code(low: u8, high: u8) -> u16 {
    (low + 256 * high) as u16
}

/// What decoding the two-byte result code yields: the designated
/// success value is a pass; any other value is a reported failure whose
/// diagnostic states the literal code.
pub open spec fn result_code_post(low: u8, high: u8, r: Outcome) -> bool {
    &&& (r is Pass <==> result_code(low, high) == 0)
    &&& (result_code(low, high) != 0 ==> r is Fail && r->Fail_0@ == result_code_fail_message(
        result_code(low, high),
    ))
}

/// Decodes the two-byte result code into an outcome.
pub fn nestest_status_code(low: u8, high: u8) -> (result: Outcome)
    ensures
        result_code_post(low, high, result),
{
    let code: u16 = low as u16 + 256 * (high as u16);
    if code == 0 {
        Outcome::Pass
    } else {
        let mut s = "exited with unknown result code ".to_owned();
        push_dec_u16(&mut s, code);
        s.append(", which is not a known success code");
        proof {
            assert(s@ =~= result_code_fail_message(code));
        }
        Outcome::Fail(s)
    }
}

/// Decoding is a pure function of the two bytes read: two decodes of
/// the same bytes yield observably identical outcomes.
pub proof fn lemma_result_code_deterministic(low: u8, high: u8, r1: Outcome, r2: Outcome)
    requires
        result_code_post(low, high, r1),
        result_code_post(low, high, r2),
    ensures
        crate::outcome::outcome_equivalent(r1, r2),
{
}

} // verus!
