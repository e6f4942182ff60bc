//! The process attacher: starting and stopping the tracing of a process.

use vstd::prelude::*;
use crate::errno::ErrnoCodes;
use crate::trace::classifies;
use crate::trace::classify_trace_response;
use crate::trace::replies;
use crate::trace::trace_reply;
use crate::trace::AttachError;
use crate::trace::ProcessAttachResult;
use crate::trace::TraceCall;
use crate::trace::TraceRequest;
use crate::trace::TracedProcessHandle;

verus! {

/// The call of the trace primitive that starts tracing `pid`.
pub fn attach_call(pid: i32) -> (call: TraceCall)
    ensures
        call == (TraceCall { request: TraceRequest::Attach, pid, address: None, data: 0 }),
{
    TraceCall { request: TraceRequest::Attach, pid, address: None, data: 0 }
}

/// The call of the trace primitive that stops tracing `pid`.
pub fn detach_call(pid: i32) -> (call: TraceCall)
    ensures
        call == (TraceCall { request: TraceRequest::Detach, pid, address: None, data: 0 }),
{
    TraceCall { request: TraceRequest::Detach, pid, address: None, data: 0 }
}

/// Classifies what the attach primitive reported for `pid`: `response` is
/// what it returned, `errno` the error code it left, where one could be
/// read, and `codes` the platform's table.
pub fn attach(codes: &ErrnoCodes, pid: i32, response: i32, errno: Option<i32>) -> (result: Result<
    TracedProcessHandle,
    AttachError,
>)
    ensures
        classifies(result, *codes, TraceRequest::Attach, pid, response, errno),
{
    classify_trace_response(codes, TraceRequest::Attach, pid, response, errno)
}

/// Classifies what the detach primitive reported for `pid`: `response` is
/// what it returned, `errno` the error code it left, where one could be
/// read, and `codes` the platform's table.
pub fn detach(codes: &ErrnoCodes, pid: i32, response: i32, errno: Option<i32>) -> (result: Result<
    TracedProcessHandle,
    AttachError,
>)
    ensures
        classifies(result, *codes, TraceRequest::Detach, pid, response, errno),
{
    classify_trace_response(codes, TraceRequest::Detach, pid, response, errno)
}

/// The tagged outcome of attaching to `pid`, from what the primitive
/// reported: the handle, or the message of the failure.
pub fn ptrace_attach(codes: &ErrnoCodes, pid: i32, response: i32, errno: Option<i32>) -> (reply:
    ProcessAttachResult)
    ensures
        replies(reply, *codes, TraceRequest::Attach, pid, response, errno),
{
    let result = attach(codes, pid, response, errno);
    trace_reply(result, TraceRequest::Attach, pid)
}

/// The tagged outcome of detaching from `pid`, from what the primitive
/// reported: the handle, or the message of the failure.
pub fn ptrace_detach(codes: &ErrnoCodes, pid: i32, response: i32, errno: Option<i32>) -> (reply:
    ProcessAttachResult)
    ensures
        replies(reply, *codes, TraceRequest::Detach, pid, response, errno),
{
    let result = detach(codes, pid, response, errno);
    trace_reply(result, TraceRequest::Detach, pid)
}

} // verus!
