use nes_test_harness::all_instrs::{
    all_instrs_status_code, contains_failure_marker, read_status_string,
};
use nes_test_harness::nestest::nestest_status_code;
use nes_test_harness::outcome::Outcome;
use nes_test_harness::scripted::ScriptedCpu;

fn cpu_with_memory(writes: &[(u16, u8)]) -> ScriptedCpu {
    let mut memory = vec![0u8; 65536];
    for (address, value) in writes {
        memory[*address as usize] = *value;
    }
    ScriptedCpu {
        memory,
        script: Vec::new(),
        script_pos: 0,
        steps_taken: 0,
        fail_on_step: 0,
        pc: 0,
    }
}

fn magic_writes() -> Vec<(u16, u8)> {
    vec![(0x6001, 0xde), (0x6002, 0xb0), (0x6003, 0x61)]
}

#[test]
fn magic_status_zero_is_pass() {
    let cpu = cpu_with_memory(&magic_writes());
    assert!(matches!(all_instrs_status_code(&cpu), Outcome::Pass));
}

#[test]
fn magic_nonzero_status_is_fail_with_text() {
    let mut writes = magic_writes();
    writes.push((0x6000, 5));
    writes.push((0x6004, b'f'));
    writes.push((0x6005, b'o'));
    writes.push((0x6006, b'o'));
    let cpu = cpu_with_memory(&writes);
    match all_instrs_status_code(&cpu) {
        Outcome::Fail(diagnostic) => {
            assert_eq!(diagnostic, "exited with status 5:\n foo");
        }
        _ => panic!("expected a reported failure"),
    }
}

#[test]
fn altered_first_magic_byte_is_corruption() {
    let cpu = cpu_with_memory(&[(0x6001, 0xdd), (0x6002, 0xb0), (0x6003, 0x61)]);
    match all_instrs_status_code(&cpu) {
        Outcome::HarnessError(cause) => {
            assert_eq!(
                cause,
                "invalid magic sequence: ddb061. the test output was corrupted"
            );
        }
        _ => panic!("expected a corruption error"),
    }
}

#[test]
fn altered_second_magic_byte_is_corruption() {
    let cpu = cpu_with_memory(&[(0x6001, 0xde), (0x6002, 0xb1), (0x6003, 0x61)]);
    assert!(matches!(
        all_instrs_status_code(&cpu),
        Outcome::HarnessError(_)
    ));
}

#[test]
fn altered_third_magic_byte_is_corruption_even_with_status_zero() {
    // the status byte reads as a pass, but the damaged magic constant
    // must win: the record cannot be trusted
    let cpu = cpu_with_memory(&[(0x6001, 0xde), (0x6002, 0xb0), (0x6003, 0x62), (0x6000, 0)]);
    assert!(matches!(
        all_instrs_status_code(&cpu),
        Outcome::HarnessError(_)
    ));
}

#[test]
fn corruption_message_prints_hex_without_padding() {
    let cpu = cpu_with_memory(&[(0x6001, 0x05), (0x6002, 0xb0), (0x6003, 0x61)]);
    match all_instrs_status_code(&cpu) {
        Outcome::HarnessError(cause) => {
            assert_eq!(
                cause,
                "invalid magic sequence: 5b061. the test output was corrupted"
            );
        }
        _ => panic!("expected a corruption error"),
    }
}

#[test]
fn status_text_stops_at_first_nul() {
    let cpu = cpu_with_memory(&[
        (0x6004, b'a'),
        (0x6005, b'b'),
        (0x6006, 0),
        (0x6007, b'c'),
        (0x6008, b'd'),
    ]);
    assert_eq!(read_status_string(&cpu), "ab");
}

#[test]
fn status_text_is_capped_at_the_scan_limit() {
    let mut memory = vec![b'A'; 65536];
    memory[0x6000] = 0;
    let cpu = ScriptedCpu {
        memory,
        script: Vec::new(),
        script_pos: 0,
        steps_taken: 0,
        fail_on_step: 0,
        pc: 0,
    };
    let text = read_status_string(&cpu);
    // 0x6004 through 0x7000 inclusive
    assert_eq!(text.chars().count(), 4093);
    assert!(text.chars().all(|c| c == 'A'));
}

#[test]
fn non_ascii_byte_becomes_its_code_point() {
    let cpu = cpu_with_memory(&[(0x6004, 0xff)]);
    assert_eq!(read_status_string(&cpu), "\u{ff}");
}

#[test]
fn magic_decode_is_idempotent() {
    let mut writes = magic_writes();
    writes.push((0x6000, 9));
    writes.push((0x6004, b'x'));
    let cpu = cpu_with_memory(&writes);
    let first = all_instrs_status_code(&cpu);
    let second = all_instrs_status_code(&cpu);
    match (first, second) {
        (Outcome::Fail(a), Outcome::Fail(b)) => assert_eq!(a, b),
        _ => panic!("expected the same reported failure twice"),
    }
}

#[test]
fn result_code_zero_is_pass() {
    assert!(matches!(nestest_status_code(0, 0), Outcome::Pass));
}

#[test]
fn result_code_nonzero_is_fail_with_the_literal_value() {
    match nestest_status_code(0x34, 0x12) {
        Outcome::Fail(diagnostic) => {
            assert_eq!(
                diagnostic,
                "exited with unknown result code 4660, which is not a known success code"
            );
        }
        _ => panic!("expected a reported failure"),
    }
}

#[test]
fn result_code_low_byte_alone_is_fail() {
    match nestest_status_code(7, 0) {
        Outcome::Fail(diagnostic) => {
            assert_eq!(
                diagnostic,
                "exited with unknown result code 7, which is not a known success code"
            );
        }
        _ => panic!("expected a reported failure"),
    }
}

#[test]
fn result_code_decode_is_idempotent() {
    let first = nestest_status_code(1, 2);
    let second = nestest_status_code(1, 2);
    match (first, second) {
        (Outcome::Fail(a), Outcome::Fail(b)) => assert_eq!(a, b),
        _ => panic!("expected the same reported failure twice"),
    }
}

#[test]
fn marker_is_found_inside_text() {
    assert!(contains_failure_marker("phase 3 Failed badly"));
    assert!(contains_failure_marker("Failed"));
}

#[test]
fn marker_is_not_found_in_other_text() {
    assert!(!contains_failure_marker("all fine so far"));
    assert!(!contains_failure_marker("Faile"));
    assert!(!contains_failure_marker(""));
}
