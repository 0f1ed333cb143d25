//! A verified model of the earliest bring-up layer of a single-hart RISC-V
//! supervisor-mode kernel running above an SBI firmware layer: the boot
//! trampoline, the zero-initialization of static storage, the SBI call
//! convention with its debug console, and the trap vector's register
//! save/restore discipline together with the fatal diagnostic handler.
//!
//! The hardware itself (the environment-call instruction, control and status
//! registers, the physical register file) is represented by an explicit
//! machine state, so that every decision this layer makes — which bytes reach
//! the console, which registers are saved at which frame offset, when the
//! hart halts — is stated in a contract and proved.

pub mod console;
pub mod machine;
pub mod mem;
pub mod sbi;
pub mod trap;
pub mod textfmt;
