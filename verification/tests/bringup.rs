use riscv_boot::machine::{
    boot, boot_trampoline, deliver_trap, handle_trap, kernel_main, kernel_main_banner,
    kernel_main_minimal, panic_report, ExecState, Machine, SourceLocation,
    SCAUSE_ILLEGAL_INSTRUCTION,
};
use riscv_boot::trap::{
    restore_registers, save_registers, trap_roundtrip, Registers, TRAP_FRAME_BYTES,
};

const BANNER: &[u8] = b"Hello world!\n\nHello house!\n\nHello friends!\n\n";

fn sample_regs() -> Registers {
    Registers {
        ra: 1,
        gp: 2,
        tp: 3,
        t0: 4,
        t1: 5,
        t2: 6,
        t3: 7,
        t4: 8,
        t5: 9,
        t6: 10,
        a0: 11,
        a1: 12,
        a2: 13,
        a3: 14,
        a4: 15,
        a5: 16,
        a6: 17,
        a7: 18,
        s0: 19,
        s1: 20,
        s2: 21,
        s3: 22,
        s4: 23,
        s5: 24,
        s6: 25,
        s7: 26,
        s8: 27,
        s9: 28,
        s10: 29,
        s11: 30,
        sp: 0x8000_0000,
    }
}

fn fresh_machine() -> Machine {
    Machine::new(sample_regs(), vec![0x5a; 16], 0x8022_0000)
}

#[test]
fn save_restore_is_identity() {
    let regs = sample_regs();
    let restored = trap_roundtrip(&regs);
    assert_eq!(restored, regs);
}

#[test]
fn save_and_restore_use_the_same_slots() {
    let regs = sample_regs();
    let frame = save_registers(&regs);
    assert_eq!(frame.ra, regs.ra);
    assert_eq!(frame.t6, regs.t6);
    assert_eq!(frame.a0, regs.a0);
    assert_eq!(frame.s11, regs.s11);
    assert_eq!(frame.sp, regs.sp);
    let back = restore_registers(&frame);
    assert_eq!(back, regs);
}

#[test]
fn boot_trampoline_sets_stack_pointer_exactly() {
    let mut m = fresh_machine();
    boot_trampoline(&mut m);
    assert_eq!(m.regs.sp, 0x8022_0000);
    // every other register keeps the value firmware left in it
    let expected = Registers { sp: 0x8022_0000, ..sample_regs() };
    assert_eq!(m.regs, expected);
    assert_eq!(m.state, ExecState::Running);
}

#[test]
fn boot_zeroes_static_storage() {
    let mut m = fresh_machine();
    boot(&mut m);
    assert_eq!(m.bss.len(), 16);
    assert!(m.bss.iter().all(|b| *b == 0));
}

#[test]
fn banner_stage_emits_banner_byte_for_byte() {
    let mut m = fresh_machine();
    kernel_main_banner(&mut m);
    assert_eq!(m.writer.output(), BANNER.to_vec());
    assert_eq!(m.state, ExecState::Running);
    assert!(!m.csrs.stvec_installed);
}

#[test]
fn minimal_stage_emits_exact_greeting() {
    let mut m = fresh_machine();
    kernel_main_minimal(&mut m);
    assert_eq!(m.writer.output(), b"\n\nhello world\n".to_vec());
    assert_eq!(m.state, ExecState::Running);
}

#[test]
fn kernel_main_installs_trap_vector() {
    let mut m = fresh_machine();
    kernel_main(&mut m);
    assert!(m.csrs.stvec_installed);
    assert_eq!(m.writer.output(), BANNER.to_vec());
    assert_eq!(m.state, ExecState::Running);
}

#[test]
fn fatal_trap_after_boot_reports_and_halts() {
    let mut m = fresh_machine();
    boot(&mut m);
    deliver_trap(&mut m, SCAUSE_ILLEGAL_INSTRUCTION, 0, 0x8020_0052);

    assert_eq!(m.state, ExecState::Halted);
    assert!(!m.sret_executed);
    assert!(!m.csrs.trap_delivery_enabled);

    let out = m.writer.output();
    let mut expected = BANNER.to_vec();
    expected.extend_from_slice(b"PANIC: ??:??: unexpected trap scause=2, stval=0, sepc=80200052\n");
    assert_eq!(out, expected);

    // the output ends with the diagnostic line; nothing follows it
    let text = String::from_utf8(out).unwrap();
    let last_line = text.trim_end_matches('\n').lines().last().unwrap();
    assert!(last_line.ends_with("unexpected trap scause=2, stval=0, sepc=80200052"));
}

#[test]
fn fatal_trap_saves_interrupted_context() {
    let mut m = fresh_machine();
    boot(&mut m);
    let sp_before = m.regs.sp;
    deliver_trap(&mut m, SCAUSE_ILLEGAL_INSTRUCTION, 7, 9);

    let frame = m.frame.expect("a delivered trap saves a frame");
    assert_eq!(frame.ra, 1);
    assert_eq!(frame.s11, 30);
    assert_eq!(frame.sp, sp_before);
    assert_eq!(m.csrs.sscratch, sp_before);
    assert_eq!(m.regs.sp, sp_before - TRAP_FRAME_BYTES);
    assert_eq!(m.csrs.scause, SCAUSE_ILLEGAL_INSTRUCTION);
    assert_eq!(m.csrs.stval, 7);
    assert_eq!(m.csrs.sepc, 9);
}

#[test]
fn handle_trap_renders_causes_in_hex() {
    let mut m = fresh_machine();
    m.state = ExecState::Trapped;
    m.csrs.scause = 0xff;
    m.csrs.stval = 0xabc;
    m.csrs.sepc = 1;
    let frame = save_registers(&m.regs);
    handle_trap(&mut m, &frame);
    assert_eq!(
        m.writer.output(),
        b"PANIC: ??:??: unexpected trap scause=ff, stval=abc, sepc=1\n".to_vec()
    );
    assert_eq!(m.state, ExecState::Halted);
}

#[test]
fn panic_report_verbose_variant() {
    let mut m = fresh_machine();
    let loc = SourceLocation { file: String::from("main.rs"), line: 42 };
    panic_report(&mut m, Some(loc), &b"boom".to_vec());
    assert_eq!(m.writer.output(), b"PANIC: main.rs:42: boom\n".to_vec());
    assert_eq!(m.state, ExecState::Halted);
    assert!(!m.csrs.trap_delivery_enabled);
}

#[test]
fn panic_report_without_location() {
    let mut m = fresh_machine();
    panic_report(&mut m, None, &b"out of ideas".to_vec());
    assert_eq!(m.writer.output(), b"PANIC: ??:??: out of ideas\n".to_vec());
    assert_eq!(m.state, ExecState::Halted);
}

#[test]
fn machine_starts_clean() {
    let m = fresh_machine();
    assert_eq!(m.state, ExecState::Running);
    assert!(m.writer.sbi.calls.is_empty());
    assert!(m.frame.is_none());
    assert!(!m.sret_executed);
    assert!(!m.csrs.stvec_installed);
    assert!(m.csrs.trap_delivery_enabled);
}
