use riscv_boot::console::{putchar, DebugConsoleWriter};
use riscv_boot::mem::{memcpy, memset, strcmp, strcpy};
use riscv_boot::sbi::{SbiBridge, SbiCall};
use riscv_boot::textfmt::{push_dec, push_hex};

#[test]
fn memset_zero_fills_whole_region() {
    let mut buf = vec![0xde, 0xad, 0xbe, 0xef, 0x01];
    memset(&mut buf, 0, 5);
    assert_eq!(buf, vec![0, 0, 0, 0, 0]);
}

#[test]
fn memset_prefix_keeps_tail() {
    let mut buf = vec![9, 9, 9, 9, 9];
    memset(&mut buf, 7, 3);
    assert_eq!(buf, vec![7, 7, 7, 9, 9]);
}

#[test]
fn memset_empty_region_is_noop() {
    let mut buf: Vec<u8> = Vec::new();
    memset(&mut buf, 0, 0);
    assert!(buf.is_empty());
}

#[test]
fn memcpy_copies_prefix_and_keeps_tail() {
    let mut dest = vec![0xff; 6];
    let source = vec![1, 2, 3, 4];
    memcpy(&mut dest, &source, 4);
    assert_eq!(dest, vec![1, 2, 3, 4, 0xff, 0xff]);
}

#[test]
fn strcpy_copies_terminator_inclusive() {
    let mut dest = vec![0xaa; 8];
    let source = b"hi\0junk".to_vec();
    let t = strcpy(&mut dest, &source);
    assert_eq!(t, 2);
    assert_eq!(dest, vec![b'h', b'i', 0, 0xaa, 0xaa, 0xaa, 0xaa, 0xaa]);
}

#[test]
fn strcpy_with_immediate_terminator_writes_one_byte() {
    let mut dest = vec![0x11, 0x22, 0x33];
    let source = b"\0rest".to_vec();
    let t = strcpy(&mut dest, &source);
    assert_eq!(t, 0);
    assert_eq!(dest, vec![0, 0x22, 0x33]);
}

#[test]
fn strcmp_both_empty_are_equal() {
    let a = b"\0".to_vec();
    let b = b"\0".to_vec();
    assert_eq!(strcmp(&a, &b), 0);
}

#[test]
fn strcmp_equal_sequences() {
    let a = b"same\0".to_vec();
    let b = b"same\0trailing".to_vec();
    assert_eq!(strcmp(&a, &b), 0);
}

#[test]
fn strcmp_first_below_second() {
    let a = b"abc\0".to_vec();
    let b = b"abd\0".to_vec();
    assert_eq!(strcmp(&a, &b), -1);
}

#[test]
fn strcmp_first_above_second() {
    let a = b"b\0".to_vec();
    let b = b"a\0".to_vec();
    assert_eq!(strcmp(&a, &b), 1);
}

#[test]
fn strcmp_proper_prefix_is_below() {
    let a = b"ab\0".to_vec();
    let b = b"abc\0".to_vec();
    assert_eq!(strcmp(&a, &b), -1);
}

#[test]
fn strcmp_advances_both_cursors_one_byte_per_step() {
    // A one-sided two-byte stride would skip the differing middle byte here.
    let a = b"aba\0".to_vec();
    let b = b"aca\0".to_vec();
    assert_eq!(strcmp(&a, &b), -1);
}

#[test]
fn sbi_call_is_logged_and_reports_success() {
    let mut bridge = SbiBridge::new();
    let ret = bridge.sbi_call(10, 20, 30, 40, 50, 60, 7, 8);
    assert_eq!(ret.error, 0);
    assert_eq!(ret.value, 0);
    assert_eq!(bridge.calls.len(), 1);
    let c = bridge.calls[0];
    assert_eq!(
        c,
        SbiCall { eid: 8, fid: 7, arg0: 10, arg1: 20, arg2: 30, arg3: 40, arg4: 50, arg5: 60 }
    );
}

#[test]
fn putchar_issues_one_console_call() {
    let mut w = DebugConsoleWriter::new();
    putchar(&mut w, b'A');
    assert_eq!(w.sbi.calls.len(), 1);
    let c = w.sbi.calls[0];
    assert_eq!(c.eid, 1);
    assert_eq!(c.fid, 0);
    assert_eq!(c.arg0, 65);
    assert_eq!((c.arg1, c.arg2, c.arg3, c.arg4, c.arg5), (0, 0, 0, 0, 0));
}

#[test]
fn write_bytes_transmits_in_submission_order() {
    let mut w = DebugConsoleWriter::new();
    w.write_bytes(&vec![10, 20, 30]);
    assert_eq!(w.sbi.calls.len(), 3);
    for (i, expected) in [10, 20, 30].iter().enumerate() {
        assert_eq!(w.sbi.calls[i].eid, 1);
        assert_eq!(w.sbi.calls[i].fid, 0);
        assert_eq!(w.sbi.calls[i].arg0, *expected);
    }
    assert_eq!(w.output(), vec![10, 20, 30]);
}

#[test]
fn write_str_transmits_utf8_bytes() {
    let mut w = DebugConsoleWriter::new();
    w.write_str("é");
    assert_eq!(w.output(), vec![0xc3, 0xa9]);
}

#[test]
fn hex_rendering_exact_values() {
    let mut out: Vec<u8> = Vec::new();
    push_hex(&mut out, 0);
    assert_eq!(out, b"0".to_vec());

    let mut out: Vec<u8> = Vec::new();
    push_hex(&mut out, 0x2a);
    assert_eq!(out, b"2a".to_vec());

    let mut out: Vec<u8> = Vec::new();
    push_hex(&mut out, 0x8020_0052);
    assert_eq!(out, b"80200052".to_vec());

    let mut out: Vec<u8> = Vec::new();
    push_hex(&mut out, u32::MAX);
    assert_eq!(out, b"ffffffff".to_vec());
}

#[test]
fn dec_rendering_exact_values() {
    let mut out: Vec<u8> = Vec::new();
    push_dec(&mut out, 0);
    assert_eq!(out, b"0".to_vec());

    let mut out: Vec<u8> = Vec::new();
    push_dec(&mut out, 1234);
    assert_eq!(out, b"1234".to_vec());

    let mut out: Vec<u8> = Vec::new();
    push_dec(&mut out, u32::MAX);
    assert_eq!(out, b"4294967295".to_vec());
}

#[test]
fn hex_appends_after_existing_bytes() {
    let mut out = b"x=".to_vec();
    push_hex(&mut out, 0xff);
    assert_eq!(out, b"x=ff".to_vec());
}
