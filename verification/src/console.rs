//! The debug console writer: a text sink that relays bytes through the SBI
//! call bridge, one firmware call per byte, using the legacy console-output
//! extension (extension id 1, function id 0, byte in the first argument
//! register, the remaining five argument registers zero).
//!
//! Ordering guarantee: bytes are transmitted in exactly the order submitted;
//! no buffering, no batching.

use vstd::prelude::*;
use vstd::string::StrSliceExecFns;
use vstd::string::StringSliceAdditionalSpecFns;
use crate::sbi::SbiBridge;
use crate::sbi::SbiCall;

verus! {

/// Extension id of the legacy console-output firmware service.
pub const CONSOLE_EID: i32 = 1;

/// Function id of the legacy console-output firmware service.
pub const CONSOLE_FID: i32 = 0;

/// The environment call that transmits one byte on the debug console.
pub open spec fn putchar_call(byte: u8) -> SbiCall {
    SbiCall {
        eid: CONSOLE_EID as i32,
        fid: CONSOLE_FID as i32,
        arg0: byte as i32,
        arg1: 0,
        arg2: 0,
        arg3: 0,
        arg4: 0,
        arg5: 0,
    }
}

/// The call sequence that transmits the given bytes in order.
pub open spec fn console_calls(bytes: Seq<u8>) -> Seq<SbiCall> {
    bytes.map_values(|b: u8| putchar_call(b))
}

/// The bytes carried by a call log: the first argument of each call.
pub open spec fn output_bytes(calls: Seq<SbiCall>) -> Seq<u8> {
    calls.map_values(|c: SbiCall| c.arg0 as u8)
}

/// Transmitting bytes issues exactly one call per byte, each with the
/// console extension and function ids and the byte in the first argument
/// register, in submission order.
pub proof fn lemma_console_ordering(bytes: Seq<u8>)
    ensures
        console_calls(bytes).len() == bytes.len(),
        forall|i: int|
            0 <= i < bytes.len() ==> {
                let c = #[trigger] console_calls(bytes)[i];
                c.eid == 1 && c.fid == 0 && c.arg0 == bytes[i] as i32
            },
{
}

/// The debug console writer: relays text to the firmware console through
/// the SBI call bridge it owns.
pub struct DebugConsoleWriter {
    pub sbi: SbiBridge,
}

/// Transmits one byte on the debug console: a single firmware call with the
/// byte in the first argument register.
pub fn putchar(w: &mut DebugConsoleWriter, byte: u8)
    ensures
        final(w).sbi.calls@ == old(w).sbi.calls@.push(putchar_call(byte)),
{
    w.sbi.sbi_call(byte as i32, 0, 0, 0, 0, 0, CONSOLE_FID, CONSOLE_EID);
}

impl DebugConsoleWriter {
    /// A writer whose bridge has issued no calls yet.
    pub fn new() -> (r: DebugConsoleWriter)
        ensures
            r.sbi.calls@ == Seq::<SbiCall>::empty(),
    {
        DebugConsoleWriter { sbi: SbiBridge::new() }
    }

    /// Transmits the given bytes in order, one firmware call per byte.
    pub fn write_bytes(&mut self, bytes: &Vec<u8>)
        ensures
            final(self).sbi.calls@ == old(self).sbi.calls@ + console_calls(bytes@),
    {
        let ghost start = self.sbi.calls@;
        let mut i: usize = 0;
        while i < bytes.len()
            invariant
                i <= bytes@.len(),
                self.sbi.calls@ == start + console_calls(bytes@.take(i as int)),
            decreases bytes@.len() - i,
        {
            putchar(self, bytes[i]);
            proof {
                assert(bytes@.take(i as int + 1) =~= bytes@.take(i as int).push(bytes@[i as int]));
                assert(console_calls(bytes@.take(i as int).push(bytes@[i as int])) =~= console_calls(
                    bytes@.take(i as int),
                ).push(putchar_call(bytes@[i as int])));
            }
            i += 1;
        }
        proof {
            assert(bytes@.take(bytes@.len() as int) =~= bytes@);
        }
    }

    /// Transmits the UTF-8 bytes of the given text in order, one firmware
    /// call per byte.
    pub fn write_str(&mut self, s: &str)
        ensures
            final(self).sbi.calls@ == old(self).sbi.calls@ + console_calls(s.spec_bytes()),
    {
        let bytes = s.as_bytes_vec();
        self.write_bytes(&bytes);
    }

    /// The bytes transmitted so far, in transmission order.
    pub fn output(&self) -> (r: Vec<u8>)
        ensures
            r@ == output_bytes(self.sbi.calls@),
    {
        let mut r: Vec<u8> = Vec::new();
        let mut i: usize = 0;
        while i < self.sbi.calls.len()
            invariant
                i <= self.sbi.calls@.len(),
                r@ == output_bytes(self.sbi.calls@.take(i as int)),
            decreases self.sbi.calls@.len() - i,
        {
            r.push(self.sbi.calls[i].arg0 as u8);
            proof {
                assert(self.sbi.calls@.take(i as int + 1) =~= self.sbi.calls@.take(
                    i as int,
                ).push(self.sbi.calls@[i as int]));
                assert(output_bytes(self.sbi.calls@.take(i as int + 1)) =~= output_bytes(
                    self.sbi.calls@.take(i as int),
                ).push(self.sbi.calls@[i as int].arg0 as u8));
            }
            i += 1;
        }
        proof {
            assert(self.sbi.calls@.take(self.sbi.calls@.len() as int) =~= self.sbi.calls@);
        }
        r
    }
}

} // verus!
