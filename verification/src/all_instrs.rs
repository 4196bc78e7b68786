//! Decoder for the magic-prefixed status protocol.
//!
//! Tests using this protocol place a structured record at memory base
//! `0x6000`: the exit status byte, a three-byte magic constant that
//! guards against a corrupted output channel, and a NUL-terminated
//! diagnostic text starting at `0x6004`, scanned up to `0x7000`.

use vstd::prelude::*;

use crate::outcome::{status_fail_message, Outcome};
use crate::text::{hex_digits, push_hex_u8};
use crate::TestableCpu;
use vstd::string::StringExecFns;

verus! {

broadcast use vstd::string::group_string_axioms;

/// True when the three-byte magic constant after the status byte is
/// intact, so the record can be trusted.
pub open spec fn magic_ok<T: TestableCpu>(cpu: &T) -> bool {
    &&& cpu.mem(0x6001) == 0xde
    &&& cpu.mem(0x6002) == 0xb0
    &&& cpu.mem(0x6003) == 0x61
}

/// The diagnostic text found from `addr` on: each byte read as one
/// character, stopping at the first NUL byte or after `0x7000`,
/// whichever comes first.
pub open spec fn status_text_from<T: TestableCpu>(cpu: &T, addr: int) -> Seq<char>
    decreases 0x7001 - addr,
{
    if addr < 0x6004 || addr > 0x7000 {
        Seq::<char>::empty()
    } else if cpu.mem(addr as u16) == 0 {
        Seq::<char>::empty()
    } else {
        seq![cpu.mem(addr as u16) as char] + status_text_from(cpu, addr + 1)
    }
}

/// The whole diagnostic text of the status record.
pub open spec fn status_text<T: TestableCpu>(cpu: &T) -> Seq<char> {
    status_text_from(cpu, 0x6004)
}

/// The message reported when the magic constant is damaged.
pub open spec fn corruption_message(m1: u8, m2: u8, m3: u8) -> Seq<char> {
    "invalid magic sequence: "@ + hex_digits(m1 as nat) + hex_digits(m2 as nat) + hex_digits(
        m3 as nat,
    ) + ". the test output was corrupted"@
}

/// What decoding the magic-prefixed status record yields:
/// an intact magic constant and status zero is a pass; an intact magic
/// constant and a nonzero status is a reported failure carrying the
/// status code and the diagnostic text; a damaged magic constant is a
/// harness-level corruption error, whatever the status byte holds.
pub open spec fn magic_decode_post<T: TestableCpu>(cpu: &T, r: Outcome) -> bool {
    &&& (r is Pass <==> magic_ok(cpu) && cpu.mem(0x6000) == 0)
    &&& (!magic_ok(cpu) ==> r is HarnessError && r->HarnessError_0@ == corruption_message(
        cpu.mem(0x6001),
        cpu.mem(0x6002),
        cpu.mem(0x6003),
    ))
    &&& (magic_ok(cpu) && cpu.mem(0x6000) != 0 ==> r is Fail && r->Fail_0@
        == status_fail_message(cpu.mem(0x6000), status_text(cpu)))
}

/// Reads the NUL-terminated diagnostic text of the status record.
pub fn read_status_string<T: TestableCpu>(cpu: &T) -> (result: String)
    ensures
        result@ == status_text(cpu),
{
    let mut result = String::new();
    let mut i: u16 = 0x6004;
    while i <= 0x7000
        invariant
            0x6004 <= i <= 0x7001,
            status_text(cpu) == result@ + status_text_from(cpu, i as int),
        decreases 0x7001 - i,
    {
        let b = cpu.memory_read(i);
        if b == 0 {
            proof {
                assert(status_text(cpu) =~= result@);
            }
            return result;
        }
        result.push(b as char);
        proof {
            assert(status_text_from(cpu, i as int) =~= seq![cpu.mem(i) as char]
                + status_text_from(cpu, i + 1));
            assert(status_text(cpu) =~= result@ + status_text_from(cpu, i + 1));
        }
        i = i + 1;
    }
    proof {
        assert(status_text(cpu) =~= result@);
    }
    result
}

/// Decodes the magic-prefixed status record into an outcome.
pub fn all_instrs_status_code<T: TestableCpu>(cpu: &T) -> (result: Outcome)
    ensures
        magic_decode_post(cpu, result),
{
    let status = cpu.memory_read(0x6000);
    let m1 = cpu.memory_read(0x6001);
    let m2 = cpu.memory_read(0x6002);
    let m3 = cpu.memory_read(0x6003);

    if m1 != 0xde || m2 != 0xb0 || m3 != 0x61 {
        let mut s = "invalid magic sequence: ".to_owned();
        push_hex_u8(&mut s, m1);
        push_hex_u8(&mut s, m2);
        push_hex_u8(&mut s, m3);
        s.append(". the test output was corrupted");
        proof {
            assert(s@ =~= corruption_message(m1, m2, m3));
        }
        return Outcome::HarnessError(s);
    }

    if status == 0 {
        Outcome::Pass
    } else {
        let mut s = "exited with status ".to_owned();
        crate::text::push_dec_u16(&mut s, status as u16);
        s.append(":\n ");
        let text = read_status_string(cpu);
        s.append(text.as_str());
        proof {
            assert(s@ =~= status_fail_message(status, status_text(cpu)));
        }
        Outcome::Fail(s)
    }
}

/// The marker word that a diagnostic text of this protocol contains
/// once the ROM has decided that some test phase definitively failed.
pub open spec fn failure_marker() -> Seq<char> {
    "Failed"@
}

/// True when the diagnostic text contains the failure marker word, so
/// polling may stop early: the verdict is already definitive.
pub open spec fn signals_failure(text: Seq<char>) -> bool {
    exists|i: int|
        0 <= i && i + 6 <= text.len() && #[trigger] text.subrange(i, i + 6) == failure_marker()
}

/// Scans the diagnostic text for the failure marker word.
pub fn contains_failure_marker(text: &str) -> (result: bool)
    ensures
        result == signals_failure(text@),
{
    proof {
        reveal_strlit("Failed");
    }
    let len = text.unicode_len();
    if len < 6 {
        return false;
    }
    let mut i: usize = 0;
    while i <= len - 6
        invariant
            6 <= len == text@.len(),
            i <= len - 5,
            forall|k: int| 0 <= k < i ==> #[trigger] text@.subrange(k, k + 6) != failure_marker(),
        decreases len - i,
    {
        if text.get_char(i) == 'F' && text.get_char(i + 1) == 'a' && text.get_char(i + 2) == 'i'
            && text.get_char(i + 3) == 'l' && text.get_char(i + 4) == 'e' && text.get_char(i + 5)
            == 'd' {
            proof {
                reveal_strlit("Failed");
                assert(text@.subrange(i as int, i as int + 6) =~= failure_marker());
            }
            return true;
        }
        proof {
            assert(text@.subrange(i as int, i as int + 6) != failure_marker()) by {
                reveal_strlit("Failed");
                let sub = text@.subrange(i as int, i as int + 6);
                if sub == failure_marker() {
                    assert(sub[0] == 'F' && sub[1] == 'a' && sub[2] == 'i' && sub[3] == 'l'
                        && sub[4] == 'e' && sub[5] == 'd');
                    assert(false);
                }
            }
        }
        i = i + 1;
    }
    false
}

/// Decoding is a pure function of memory contents: two decodes of the
/// same unmodified memory yield observably identical outcomes.
pub proof fn lemma_magic_decode_deterministic<T: TestableCpu>(cpu: &T, r1: Outcome, r2: Outcome)
    requires
        magic_decode_post(cpu, r1),
        magic_decode_post(cpu, r2),
    ensures
        crate::outcome::outcome_equivalent(r1, r2),
{
}

} // verus!
