//! The attach probe: one attach together with one task-port lookup on the
//! same process, reported as two lines of text.

use vstd::prelude::*;
use crate::errno::ErrnoCodes;
use crate::text::decimal;
use crate::text::push_decimal;
use crate::trace::TraceCall;
use crate::trace::TraceRequest;

verus! {

/// What the probe reports: what the task-port lookup returned, then what the
/// attach primitive reported.
#[derive(Debug, PartialEq, Eq)]
pub struct AttachReport {
    /// The line on the task-port lookup.
    pub task_line: String,
    /// The line on the attach primitive.
    pub trace_line: String,
}

/// The pid that the primitives are called with: the 32 bits of `pid` read as
/// a signed number.
pub open spec fn target_pid(pid: u32) -> int {
    if pid < 0x8000_0000 {
        pid as int
    } else {
        pid - 0x1_0000_0000
    }
}

/// How an error code is shown: by its symbol where it has one, else as a
/// number.
pub open spec fn errno_text(codes: ErrnoCodes, code: i32) -> Seq<char> {
    if code == codes.no_such_process {
        "ESRCH"@
    } else if code == codes.invalid_argument {
        "EINVAL"@
    } else if code == codes.resource_busy {
        "EBUSY"@
    } else if code == codes.permission_denied {
        "EPERM"@
    } else {
        decimal(code as int)
    }
}

/// The line on the task-port lookup: the kernel's return code.
pub open spec fn task_line(kern_return: i32) -> Seq<char> {
    "task_for_pid: "@ + decimal(kern_return as int)
}

/// The line on the attach primitive: the pid, the response, and the error
/// code where there is one, whatever the response was.
pub open spec fn trace_line(codes: ErrnoCodes, pid: u32, response: i32, errno: Option<i32>) -> Seq<
    char,
> {
    let head = "PTRACE of "@ + decimal(pid as int) + ": response: "@ + decimal(response as int);
    match errno {
        None => head,
        Some(code) => head + ", errno: "@ + errno_text(codes, code),
    }
}

/// The attach call that the probe makes for `pid`.
pub fn probe_call(pid: u32) -> (call: TraceCall)
    ensures
        call.request == TraceRequest::Attach,
        call.pid == target_pid(pid),
        call.address is None,
        call.data == 0,
{
    let target: i32 = if pid < 0x8000_0000 {
        pid as i32
    } else {
        ((pid - 0x8000_0000) as i32) + i32::MIN
    };
    TraceCall { request: TraceRequest::Attach, pid: target, address: None, data: 0 }
}

fn push_errno_text(out: &mut String, codes: &ErrnoCodes, code: i32)
    ensures
        final(out)@ == old(out)@ + errno_text(*codes, code),
{
    if code == codes.no_such_process {
        out.append("ESRCH");
    } else if code == codes.invalid_argument {
        out.append("EINVAL");
    } else if code == codes.resource_busy {
        out.append("EBUSY");
    } else if code == codes.permission_denied {
        out.append("EPERM");
    } else {
        push_decimal(out, code as i64);
    }
}

/// Reports a probe of `pid`, given the platform's error codes: `response`
/// and `errno` are what the attach primitive reported, `kern_return` what
/// the task-port lookup returned.
pub fn attach_report(
    codes: &ErrnoCodes,
    pid: u32,
    response: i32,
    errno: Option<i32>,
    kern_return: i32,
) -> (report: AttachReport)
    ensures
        report.task_line@ == task_line(kern_return),
        report.trace_line@ == trace_line(*codes, pid, response, errno),
{
    let mut task_line = String::from_str("task_for_pid: ");
    push_decimal(&mut task_line, kern_return as i64);
    let mut trace_line = String::from_str("PTRACE of ");
    push_decimal(&mut trace_line, pid as i64);
    trace_line.append(": response: ");
    push_decimal(&mut trace_line, response as i64);
    match errno {
        Some(code) => {
            trace_line.append(", errno: ");
            push_errno_text(&mut trace_line, codes, code);
        },
        None => {},
    }
    AttachReport { task_line, trace_line }
}

} // verus!
