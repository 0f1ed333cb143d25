//! The machine model and the control flow of the bring-up layer: the boot
//! trampoline, kernel startup, trap delivery, the trap handler, and the
//! panic reporter.
//!
//! The hart is a small state machine: `Running` (normal instruction
//! stream), `Trapped` (inside the trap vector), `Halted` (the absorbing
//! terminal state the panic reporter enters). Control flow: firmware →
//! boot trampoline → static-storage zeroing → startup logic (console
//! banner, trap-vector installation) → idle wait. On a trap: hardware →
//! trap vector (save) → trap handler → panic reporter → halt; the restore
//! path and the privileged return instruction are never reached on this
//! path.

use vstd::prelude::*;
use vstd::string::StringSliceAdditionalSpecFns;
use vstd::string::StrSliceExecFns;
use vstd::utf8::encode_utf8;
use crate::console::DebugConsoleWriter;
use crate::console::console_calls;
use crate::mem::memset;
use crate::sbi::SbiCall;
use crate::textfmt::dec_bytes_of;
use crate::textfmt::hex_bytes_of;
use crate::textfmt::push_dec;
use crate::textfmt::push_hex;
use crate::trap::Registers;
use crate::trap::TRAP_FRAME_BYTES;
use crate::trap::TrapFrame;
use crate::trap::frame_of;
use crate::trap::reg_slot;
use crate::trap::save_registers;

verus! {

/// The trap-cause code the hardware latches for an illegal instruction.
pub const SCAUSE_ILLEGAL_INSTRUCTION: u32 = 2;

/// The hart's execution state. `Halted` is absorbing: no transition leaves
/// it, and no operation of this layer accepts a halted machine.
#[derive(Clone, Copy, PartialEq, Eq, Structural, Debug)]
pub enum ExecState {
    /// Normal instruction stream, traps deliverable.
    Running,
    /// Inside the trap vector, between hardware delivery and handler exit.
    Trapped,
    /// Permanent idle after a fatal report; never left.
    Halted,
}

/// The control and status registers this layer touches: the read-only trap
/// snapshot (`scause`, `stval`, `sepc`), the scratch register that carries
/// the interrupted stack pointer, whether the trap-vector base address has
/// been installed, and whether trap delivery is enabled.
#[derive(Clone, Copy, PartialEq, Eq, Structural, Debug)]
pub struct Csrs {
    pub scause: u32,
    pub stval: u32,
    pub sepc: u32,
    pub sscratch: u32,
    pub stvec_installed: bool,
    pub trap_delivery_enabled: bool,
}

/// A source location for the verbose panic variant.
pub struct SourceLocation {
    pub file: String,
    pub line: u32,
}

/// The whole machine as this layer observes it: the register file, the
/// control and status registers, the static-storage region, the
/// build-resolved top-of-stack address, the debug console, the saved trap
/// frame if a trap has been taken, whether the privileged return
/// instruction has ever executed, and the execution state.
pub struct Machine {
    pub regs: Registers,
    pub csrs: Csrs,
    pub bss: Vec<u8>,
    pub stack_top: u32,
    pub writer: DebugConsoleWriter,
    pub frame: Option<TrapFrame>,
    pub sret_executed: bool,
    pub state: ExecState,
}

/// True when the two machines hold the same register file.
pub open spec fn same_regs(pre: Machine, post: Machine) -> bool {
    post.regs == pre.regs
}

/// True when the two machines hold the same static storage and stack.
pub open spec fn same_memory(pre: Machine, post: Machine) -> bool {
    post.bss@ == pre.bss@ && post.stack_top == pre.stack_top
}

/// True when the second machine's console log is the first's followed by
/// exactly the calls that transmit the given bytes.
pub open spec fn console_extended(pre: Machine, post: Machine, bytes: Seq<u8>) -> bool {
    post.writer.sbi.calls@ == pre.writer.sbi.calls@ + console_calls(bytes)
}

/// True when the two machines hold the same trap bookkeeping: saved frame
/// and privileged-return flag.
pub open spec fn same_trap_record(pre: Machine, post: Machine) -> bool {
    post.frame == pre.frame && post.sret_executed == pre.sret_executed
}

/// The diagnostic the trap handler reports: the three trap-cause registers
/// in lowercase hexadecimal.
pub open spec fn trap_message_bytes(scause: u32, stval: u32, sepc: u32) -> Seq<u8> {
    encode_utf8("unexpected trap scause="@) + hex_bytes_of(scause) + encode_utf8(", stval="@)
        + hex_bytes_of(stval) + encode_utf8(", sepc="@) + hex_bytes_of(sepc)
}

/// The source-location part of a verbose panic line: file, line number,
/// separators.
pub open spec fn location_bytes(loc: SourceLocation) -> Seq<u8> {
    encode_utf8(loc.file@) + encode_utf8(":"@) + dec_bytes_of(loc.line) + encode_utf8(": "@)
}

/// The full diagnostic line the panic reporter writes: the marker, the
/// location when one is known, the message, and a line break.
pub open spec fn panic_line_bytes(location: Option<SourceLocation>, msg: Seq<u8>) -> Seq<u8> {
    encode_utf8("PANIC: "@) + (match location {
        Some(loc) => location_bytes(loc),
        None => encode_utf8("??:??: "@),
    }) + msg + encode_utf8("\n"@)
}

/// The banner line greeting one place, followed by a blank line.
pub open spec fn hello_line_bytes(place: Seq<char>) -> Seq<u8> {
    encode_utf8("Hello "@) + encode_utf8(place) + encode_utf8("!\n\n"@)
}

/// The full startup banner.
pub open spec fn banner_bytes() -> Seq<u8> {
    hello_line_bytes("world"@) + hello_line_bytes("house"@) + hello_line_bytes("friends"@)
}

/// The output of the minimal startup stage, sent byte by byte with no
/// formatting layer.
pub open spec fn greeting_bytes() -> Seq<u8> {
    encode_utf8("\n\nhello world\n"@)
}

/// Appends the UTF-8 bytes of the given text.
pub fn append_str_bytes(out: &mut Vec<u8>, s: &str)
    ensures
        final(out)@ == old(out)@ + s.spec_bytes(),
{
    let mut bytes = s.as_bytes_vec();
    out.append(&mut bytes);
}

/// Appends a copy of the given bytes.
pub fn append_bytes(out: &mut Vec<u8>, bytes: &Vec<u8>)
    ensures
        final(out)@ == old(out)@ + bytes@,
{
    out.extend_from_slice(bytes.as_slice());
}

impl Machine {
    /// The machine as firmware hands it over: architectural state undefined
    /// except for what the caller supplies, no console traffic yet, no trap
    /// taken, trap vector not installed, trap delivery enabled.
    pub fn new(regs: Registers, bss: Vec<u8>, stack_top: u32) -> (m: Machine)
        ensures
            m.regs == regs,
            m.bss@ == bss@,
            m.stack_top == stack_top,
            m.writer.sbi.calls@ == Seq::<SbiCall>::empty(),
            m.frame is None,
            !m.sret_executed,
            m.state is Running,
            m.csrs == (Csrs {
                scause: 0,
                stval: 0,
                sepc: 0,
                sscratch: 0,
                stvec_installed: false,
                trap_delivery_enabled: true,
            }),
    {
        Machine {
            regs,
            csrs: Csrs {
                scause: 0,
                stval: 0,
                sepc: 0,
                sscratch: 0,
                stvec_installed: false,
                trap_delivery_enabled: true,
            },
            bss,
            stack_top,
            writer: DebugConsoleWriter::new(),
            frame: None,
            sret_executed: false,
            state: ExecState::Running,
        }
    }
}

/// The static-storage initializer: writes zero to every byte of the
/// region, whatever it held before. Idempotent; defined for a region of
/// any length, a length of zero being a no-op.
pub fn clear_bss(m: &mut Machine)
    ensures
        final(m).bss@.len() == old(m).bss@.len(),
        forall|i: int| 0 <= i < final(m).bss@.len() ==> final(m).bss@[i] == 0,
        final(m).stack_top == old(m).stack_top,
        same_regs(*old(m), *final(m)),
        same_trap_record(*old(m), *final(m)),
        console_extended(*old(m), *final(m), Seq::<u8>::empty()),
        final(m).csrs == old(m).csrs,
        final(m).state == old(m).state,
{
    let n = m.bss.len();
    memset(&mut m.bss, 0, n);
    proof {
        assert(m.writer.sbi.calls@ =~= old(m).writer.sbi.calls@ + console_calls(
            Seq::<u8>::empty(),
        ));
    }
}

/// Writes one banner greeting and the following blank line.
fn emit_hello(w: &mut DebugConsoleWriter, place: &str)
    ensures
        final(w).sbi.calls@ == old(w).sbi.calls@ + console_calls(hello_line_bytes(place@)),
{
    w.write_str("Hello ");
    w.write_str(place);
    w.write_str("!\n\n");
    proof {
        assert(w.sbi.calls@ =~= old(w).sbi.calls@ + console_calls(hello_line_bytes(place@)));
    }
}

/// Writes the startup banner.
fn emit_banner(w: &mut DebugConsoleWriter)
    ensures
        final(w).sbi.calls@ == old(w).sbi.calls@ + console_calls(banner_bytes()),
{
    emit_hello(w, "world");
    emit_hello(w, "house");
    emit_hello(w, "friends");
    proof {
        assert(w.sbi.calls@ =~= old(w).sbi.calls@ + console_calls(banner_bytes()));
    }
}

/// The panic reporter: writes one diagnostic line through the debug
/// console, disables further trap delivery, and moves the hart to the
/// permanent halt state. Never unwinds, never resumes, never retries.
pub fn panic_report(m: &mut Machine, location: Option<SourceLocation>, msg: &Vec<u8>)
    requires
        !(old(m).state is Halted),
    ensures
        final(m).state is Halted,
        !final(m).csrs.trap_delivery_enabled,
        console_extended(*old(m), *final(m), panic_line_bytes(location, msg@)),
        same_regs(*old(m), *final(m)),
        same_memory(*old(m), *final(m)),
        same_trap_record(*old(m), *final(m)),
        final(m).csrs.scause == old(m).csrs.scause,
        final(m).csrs.stval == old(m).csrs.stval,
        final(m).csrs.sepc == old(m).csrs.sepc,
        final(m).csrs.sscratch == old(m).csrs.sscratch,
        final(m).csrs.stvec_installed == old(m).csrs.stvec_installed,
{
    let mut line: Vec<u8> = Vec::new();
    append_str_bytes(&mut line, "PANIC: ");
    match &location {
        Some(loc) => {
            append_str_bytes(&mut line, loc.file.as_str());
            append_str_bytes(&mut line, ":");
            push_dec(&mut line, loc.line);
            append_str_bytes(&mut line, ": ");
        },
        None => {
            append_str_bytes(&mut line, "??:??: ");
        },
    }
    append_bytes(&mut line, msg);
    append_str_bytes(&mut line, "\n");
    proof {
        assert(line@ =~= panic_line_bytes(location, msg@));
    }
    m.writer.write_bytes(&line);
    m.csrs.trap_delivery_enabled = false;
    m.state = ExecState::Halted;
}

/// The trap handler: reads the three trap-cause registers from the
/// snapshot the hardware latched, and escalates every cause to a fatal
/// diagnostic through the panic reporter. The saved frame is read-only
/// here and left untouched.
pub fn handle_trap(m: &mut Machine, _trap_frame: &TrapFrame)
    requires
        old(m).state is Trapped,
    ensures
        final(m).state is Halted,
        !final(m).csrs.trap_delivery_enabled,
        console_extended(
            *old(m),
            *final(m),
            panic_line_bytes(
                None,
                trap_message_bytes(old(m).csrs.scause, old(m).csrs.stval, old(m).csrs.sepc),
            ),
        ),
        same_regs(*old(m), *final(m)),
        same_memory(*old(m), *final(m)),
        same_trap_record(*old(m), *final(m)),
        final(m).csrs.scause == old(m).csrs.scause,
        final(m).csrs.stval == old(m).csrs.stval,
        final(m).csrs.sepc == old(m).csrs.sepc,
        final(m).csrs.sscratch == old(m).csrs.sscratch,
        final(m).csrs.stvec_installed == old(m).csrs.stvec_installed,
{
    let scause = m.csrs.scause;
    let stval = m.csrs.stval;
    let sepc = m.csrs.sepc;
    let mut msg: Vec<u8> = Vec::new();
    append_str_bytes(&mut msg, "unexpected trap scause=");
    push_hex(&mut msg, scause);
    append_str_bytes(&mut msg, ", stval=");
    push_hex(&mut msg, stval);
    append_str_bytes(&mut msg, ", sepc=");
    push_hex(&mut msg, sepc);
    proof {
        assert(msg@ =~= trap_message_bytes(scause, stval, sepc));
    }
    panic_report(m, None, &msg);
}

/// The trap vector: entered with the hardware's cause snapshot already
/// latched. Stashes the interrupted stack pointer in the scratch register,
/// reserves a frame on the stack, saves every general-purpose register at
/// its fixed word offset, and calls the trap handler with the frame. The
/// handler reports fatally, so the mirrored restore sequence
/// (`restore_registers`) and the privileged return instruction are never
/// reached; the hart leaves this function halted.
pub fn stvec_handler(m: &mut Machine)
    requires
        old(m).state is Trapped,
        old(m).regs.sp >= TRAP_FRAME_BYTES,
    ensures
        final(m).state is Halted,
        !final(m).csrs.trap_delivery_enabled,
        final(m).frame == Some(frame_of(old(m).regs)),
        final(m).sret_executed == old(m).sret_executed,
        console_extended(
            *old(m),
            *final(m),
            panic_line_bytes(
                None,
                trap_message_bytes(old(m).csrs.scause, old(m).csrs.stval, old(m).csrs.sepc),
            ),
        ),
        final(m).regs.sp == old(m).regs.sp - TRAP_FRAME_BYTES,
        forall|i: int| 0 <= i < 30 ==> reg_slot(final(m).regs, i) == reg_slot(old(m).regs, i),
        same_memory(*old(m), *final(m)),
        final(m).csrs.scause == old(m).csrs.scause,
        final(m).csrs.stval == old(m).csrs.stval,
        final(m).csrs.sepc == old(m).csrs.sepc,
        final(m).csrs.sscratch == old(m).regs.sp,
        final(m).csrs.stvec_installed == old(m).csrs.stvec_installed,
{
    m.csrs.sscratch = m.regs.sp;
    let frame = save_registers(&m.regs);
    m.regs.sp = m.regs.sp - TRAP_FRAME_BYTES;
    m.frame = Some(frame);
    handle_trap(m, &frame);
}

/// Hardware trap delivery: on a synchronous exception while the vector is
/// installed and delivery enabled, the hardware latches the cause
/// registers and jumps to the trap vector. Every delivered trap ends with
/// the hart halted, the fatal diagnostic on the console, and the
/// privileged return instruction never executed.
pub fn deliver_trap(m: &mut Machine, scause: u32, stval: u32, sepc: u32)
    requires
        old(m).state is Running,
        old(m).csrs.stvec_installed,
        old(m).csrs.trap_delivery_enabled,
        old(m).regs.sp >= TRAP_FRAME_BYTES,
    ensures
        final(m).state is Halted,
        !final(m).csrs.trap_delivery_enabled,
        final(m).frame == Some(frame_of(old(m).regs)),
        final(m).sret_executed == old(m).sret_executed,
        console_extended(
            *old(m),
            *final(m),
            panic_line_bytes(None, trap_message_bytes(scause, stval, sepc)),
        ),
        final(m).regs.sp == old(m).regs.sp - TRAP_FRAME_BYTES,
        forall|i: int| 0 <= i < 30 ==> reg_slot(final(m).regs, i) == reg_slot(old(m).regs, i),
        same_memory(*old(m), *final(m)),
        final(m).csrs.scause == scause,
        final(m).csrs.stval == stval,
        final(m).csrs.sepc == sepc,
        final(m).csrs.sscratch == old(m).regs.sp,
        final(m).csrs.stvec_installed,
{
    m.csrs.scause = scause;
    m.csrs.stval = stval;
    m.csrs.sepc = sepc;
    m.state = ExecState::Trapped;
    stvec_handler(m);
}

/// Installs the trap vector: writes the vector's entry address to the
/// trap-vector base-address register, once, during startup.
pub fn install_trap_vector(m: &mut Machine)
    ensures
        final(m).csrs.stvec_installed,
        final(m).csrs.scause == old(m).csrs.scause,
        final(m).csrs.stval == old(m).csrs.stval,
        final(m).csrs.sepc == old(m).csrs.sepc,
        final(m).csrs.sscratch == old(m).csrs.sscratch,
        final(m).csrs.trap_delivery_enabled == old(m).csrs.trap_delivery_enabled,
        same_regs(*old(m), *final(m)),
        same_memory(*old(m), *final(m)),
        same_trap_record(*old(m), *final(m)),
        console_extended(*old(m), *final(m), Seq::<u8>::empty()),
        final(m).state == old(m).state,
{
    m.csrs.stvec_installed = true;
    proof {
        assert(m.writer.sbi.calls@ =~= old(m).writer.sbi.calls@ + console_calls(
            Seq::<u8>::empty(),
        ));
    }
}

/// Kernel startup, minimal stage: zeroes static storage, then sends a
/// short greeting byte by byte with no formatting layer, and idles.
pub fn kernel_main_minimal(m: &mut Machine)
    requires
        old(m).state is Running,
    ensures
        final(m).state is Running,
        final(m).bss@.len() == old(m).bss@.len(),
        forall|i: int| 0 <= i < final(m).bss@.len() ==> final(m).bss@[i] == 0,
        final(m).stack_top == old(m).stack_top,
        console_extended(*old(m), *final(m), greeting_bytes()),
        same_regs(*old(m), *final(m)),
        same_trap_record(*old(m), *final(m)),
        final(m).csrs == old(m).csrs,
{
    clear_bss(m);
    m.writer.write_str("\n\nhello world\n");
    proof {
        assert(m.writer.sbi.calls@ =~= old(m).writer.sbi.calls@ + console_calls(greeting_bytes()));
    }
}

/// Kernel startup, banner stage: zeroes static storage, emits the banner
/// through the formatting console writer, and idles without installing the
/// trap vector.
pub fn kernel_main_banner(m: &mut Machine)
    requires
        old(m).state is Running,
    ensures
        final(m).state is Running,
        final(m).bss@.len() == old(m).bss@.len(),
        forall|i: int| 0 <= i < final(m).bss@.len() ==> final(m).bss@[i] == 0,
        final(m).stack_top == old(m).stack_top,
        console_extended(*old(m), *final(m), banner_bytes()),
        same_regs(*old(m), *final(m)),
        same_trap_record(*old(m), *final(m)),
        final(m).csrs == old(m).csrs,
{
    clear_bss(m);
    emit_banner(&mut m.writer);
    proof {
        assert(m.writer.sbi.calls@ =~= old(m).writer.sbi.calls@ + console_calls(banner_bytes()));
    }
}

/// Kernel startup: zeroes static storage before any other code observes a
/// static variable, emits the banner, installs the trap vector, and idles.
/// The next event is whatever trap the hardware delivers.
pub fn kernel_main(m: &mut Machine)
    requires
        old(m).state is Running,
    ensures
        final(m).state is Running,
        final(m).bss@.len() == old(m).bss@.len(),
        forall|i: int| 0 <= i < final(m).bss@.len() ==> final(m).bss@[i] == 0,
        final(m).stack_top == old(m).stack_top,
        console_extended(*old(m), *final(m), banner_bytes()),
        same_regs(*old(m), *final(m)),
        same_trap_record(*old(m), *final(m)),
        final(m).csrs.stvec_installed,
        final(m).csrs.scause == old(m).csrs.scause,
        final(m).csrs.stval == old(m).csrs.stval,
        final(m).csrs.sepc == old(m).csrs.sepc,
        final(m).csrs.sscratch == old(m).csrs.sscratch,
        final(m).csrs.trap_delivery_enabled == old(m).csrs.trap_delivery_enabled,
{
    clear_bss(m);
    emit_banner(&mut m.writer);
    install_trap_vector(m);
    proof {
        assert(m.writer.sbi.calls@ =~= old(m).writer.sbi.calls@ + console_calls(banner_bytes()));
    }
}

/// The boot trampoline's first duty: set the stack pointer to the
/// build-resolved top-of-stack address. Every other register keeps the
/// undefined value the firmware left in it.
pub fn boot_trampoline(m: &mut Machine)
    requires
        old(m).state is Running,
    ensures
        final(m).state is Running,
        final(m).regs.sp == old(m).stack_top,
        forall|i: int| 0 <= i < 30 ==> reg_slot(final(m).regs, i) == reg_slot(old(m).regs, i),
        final(m).bss@ == old(m).bss@,
        final(m).stack_top == old(m).stack_top,
        same_trap_record(*old(m), *final(m)),
        console_extended(*old(m), *final(m), Seq::<u8>::empty()),
        final(m).csrs == old(m).csrs,
{
    m.regs.sp = m.stack_top;
    proof {
        assert(m.writer.sbi.calls@ =~= old(m).writer.sbi.calls@ + console_calls(
            Seq::<u8>::empty(),
        ));
    }
}

/// The boot trampoline: invoked by firmware with architectural state
/// undefined except the program counter. Establishes the stack pointer,
/// then transfers control unconditionally to kernel startup; control never
/// goes back to firmware.
pub fn boot(m: &mut Machine)
    requires
        old(m).state is Running,
    ensures
        final(m).state is Running,
        final(m).regs.sp == old(m).stack_top,
        forall|i: int| 0 <= i < 30 ==> reg_slot(final(m).regs, i) == reg_slot(old(m).regs, i),
        final(m).bss@.len() == old(m).bss@.len(),
        forall|i: int| 0 <= i < final(m).bss@.len() ==> final(m).bss@[i] == 0,
        final(m).stack_top == old(m).stack_top,
        console_extended(*old(m), *final(m), banner_bytes()),
        same_trap_record(*old(m), *final(m)),
        final(m).csrs.stvec_installed,
        final(m).csrs.trap_delivery_enabled == old(m).csrs.trap_delivery_enabled,
{
    boot_trampoline(m);
    kernel_main(m);
    proof {
        assert(m.writer.sbi.calls@ =~= old(m).writer.sbi.calls@ + console_calls(banner_bytes()));
    }
}

} // verus!
