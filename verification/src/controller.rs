//! The execution controller: resuming a traced process and waiting for its
//! status to change.

use vstd::prelude::*;
use crate::errno::ErrnoCodes;
use crate::trace::classifies;
use crate::trace::classify_trace_response;
use crate::trace::replies;
use crate::trace::trace_reply;
use crate::trace::AttachError;
use crate::trace::ProcessAttachResult;
use crate::trace::TraceCall;
use crate::trace::TraceRequest;
use crate::trace::TracedProcessHandle;

verus! {

/// The status word that a wait reports when the operating system wrote none.
pub const UNCHANGED_STATUS: i32 = 1;

/// The arguments of one call of the wait primitive.
#[derive(Clone, Copy, Debug, PartialEq, Eq, Structural)]
pub struct WaitCall {
    /// The process to wait for.
    pub pid: i32,
    /// The option flags, handed on as they are: blocking unless they say
    /// otherwise.
    pub options: i32,
    /// What the status word holds before the primitive writes it.
    pub status: i32,
}

/// The call of the trace primitive that resumes `pid` at `start_addr`, with
/// the signal or data value for the target.
pub fn continue_call(pid: i32, start_addr: usize, data: i32) -> (call: TraceCall)
    ensures
        call == (TraceCall {
            request: TraceRequest::Continue,
            pid,
            address: Some(start_addr),
            data,
        }),
{
    TraceCall { request: TraceRequest::Continue, pid, address: Some(start_addr), data }
}

/// The call of the wait primitive for `pid` under `options`.
pub fn wait_call(pid: i32, options: i32) -> (call: WaitCall)
    ensures
        call == (WaitCall { pid, options, status: UNCHANGED_STATUS }),
{
    WaitCall { pid, options, status: UNCHANGED_STATUS }
}

/// Classifies what the continue primitive reported for `pid`: `response` is
/// what it returned, `errno` the error code it left, where one could be
/// read, and `codes` the platform's table.
pub fn continue_process(codes: &ErrnoCodes, pid: i32, response: i32, errno: Option<i32>) -> (result:
    Result<TracedProcessHandle, AttachError>)
    ensures
        classifies(result, *codes, TraceRequest::Continue, pid, response, errno),
{
    classify_trace_response(codes, TraceRequest::Continue, pid, response, errno)
}

/// The tagged outcome of resuming `pid`, from what the primitive reported:
/// the handle, or the message of the failure.
pub fn ptrace_continue(codes: &ErrnoCodes, pid: i32, response: i32, errno: Option<i32>) -> (reply:
    ProcessAttachResult)
    ensures
        replies(reply, *codes, TraceRequest::Continue, pid, response, errno),
{
    let result = continue_process(codes, pid, response, errno);
    trace_reply(result, TraceRequest::Continue, pid)
}

} // verus!
