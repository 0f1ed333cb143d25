//! The SBI call bridge: the environment-call convention between the kernel
//! and the firmware below it.
//!
//! An environment call hands the firmware up to six argument words, a
//! function id and an extension id, and blocks until the firmware answers
//! with a two-register result. The bridge records every call it issues, in
//! issue order; that log is the observable behaviour of this whole layer,
//! since the only firmware service used here is the debug console.

use vstd::prelude::*;

verus! {

/// One environment call as handed to the firmware: the extension id, the
/// function id, and the six argument registers.
#[derive(Clone, Copy, PartialEq, Eq, Structural, Debug)]
pub struct SbiCall {
    pub eid: i32,
    pub fid: i32,
    pub arg0: i32,
    pub arg1: i32,
    pub arg2: i32,
    pub arg3: i32,
    pub arg4: i32,
    pub arg5: i32,
}

/// The two-register result of an environment call. An `error` of zero
/// signals success; callers at this layer currently leave it unchecked.
#[derive(Clone, Copy, PartialEq, Eq, Structural, Debug)]
pub struct SbiReturn {
    pub error: i32,
    pub value: i32,
}

/// The SBI call bridge. `calls` is the log of every environment call issued
/// so far, oldest first.
pub struct SbiBridge {
    pub calls: Vec<SbiCall>,
}

impl SbiBridge {
    /// A bridge that has issued no calls yet.
    pub fn new() -> (r: SbiBridge)
        ensures
            r.calls@ == Seq::<SbiCall>::empty(),
    {
        SbiBridge { calls: Vec::new() }
    }

    /// Executes one environment call with the documented register mapping:
    /// arguments in the first six argument registers, function id and
    /// extension id in the next two. Synchronous and blocking: control does
    /// not come back until the firmware completes the call. The firmware is
    /// trusted at this layer; the model has it complete every call and
    /// report success in the two result registers.
    pub fn sbi_call(
        &mut self,
        arg0: i32,
        arg1: i32,
        arg2: i32,
        arg3: i32,
        arg4: i32,
        arg5: i32,
        fid: i32,
        eid: i32,
    ) -> (r: SbiReturn)
        ensures
            final(self).calls@ == old(self).calls@.push(
                (SbiCall { eid, fid, arg0, arg1, arg2, arg3, arg4, arg5 }),
            ),
            r.error == 0,
            r.value == 0,
    {
        self.calls.push(SbiCall { eid, fid, arg0, arg1, arg2, arg3, arg4, arg5 });
        SbiReturn { error: 0, value: 0 }
    }
}

} // verus!
