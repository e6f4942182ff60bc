//! Classification of what a trace primitive (attach, detach, continue)
//! reported: its direct response code together with the `errno` it left.

use vstd::prelude::*;
use crate::errno::ErrnoCodes;
use crate::text::decimal;
use crate::text::push_decimal;

verus! {

/// The response with which a trace primitive reports failure.
pub const FAILURE_RESPONSE: i32 = -1;

/// The trace primitive whose response is being classified.
#[derive(Clone, Copy, Debug, PartialEq, Eq, Structural)]
pub enum TraceRequest {
    /// Start tracing a process.
    Attach,
    /// Stop tracing a process.
    Detach,
    /// Resume a traced, stopped process.
    Continue,
}

/// The arguments of one call of the trace primitive.
#[derive(Clone, Copy, Debug, PartialEq, Eq, Structural)]
pub struct TraceCall {
    /// Which operation is asked for.
    pub request: TraceRequest,
    /// The target process.
    pub pid: i32,
    /// The address handed to the primitive: for continue, where the target
    /// resumes. `None` where the primitive takes no address.
    pub address: Option<usize>,
    /// The primitive's data argument: a signal number for continue.
    pub data: i32,
}

/// Why a trace primitive failed.
#[derive(Clone, Copy, Debug, PartialEq, Eq, Structural)]
pub enum AttachError {
    /// The primitive reported failure and no error code was available;
    /// carries the raw response.
    Unspecified(i32),
    /// The target process does not exist.
    NoSuchProcess,
    /// The primitive rejected its arguments.
    InvalidArgument,
    /// The target is busy, for instance already traced.
    ResourceBusy,
    /// The caller may not trace the target.
    PermissionDenied,
    /// The target or platform rejects the continue operation.
    NotSupported,
    /// Any other non-zero error code.
    Other(i32),
    /// A response / error-code combination outside the primitive's protocol.
    UnexpectedResponse(i32, Option<i32>),
}

/// A process under trace control. Only a response of `0` from a trace
/// primitive produces one.
#[derive(Debug, PartialEq, Eq)]
pub struct TracedProcessHandle {
    pid: i32,
}

impl View for TracedProcessHandle {
    type V = int;

    closed spec fn view(&self) -> int {
        self.pid as int
    }
}

impl TracedProcessHandle {
    /// The process this handle stands for.
    pub fn pid(&self) -> (pid: i32)
        ensures
            pid == self@,
    {
        self.pid
    }
}

/// The category of a failure response that came with error code
/// `code`. The named codes are tried in a fixed order, so a table that
/// repeats a number still classifies every code in one way.
pub open spec fn errno_failure(codes: ErrnoCodes, request: TraceRequest, code: i32) -> AttachError {
    if code == codes.no_such_process {
        AttachError::NoSuchProcess
    } else if code == codes.invalid_argument {
        AttachError::InvalidArgument
    } else if code == codes.resource_busy {
        AttachError::ResourceBusy
    } else if request == TraceRequest::Continue && code == codes.not_supported {
        AttachError::NotSupported
    } else if code == codes.permission_denied {
        AttachError::PermissionDenied
    } else if code != 0 {
        AttachError::Other(code)
    } else {
        AttachError::UnexpectedResponse(FAILURE_RESPONSE, Some(code))
    }
}

/// The failure that a response and error code stand for; `None` where the
/// primitive succeeded.
pub open spec fn trace_failure(
    codes: ErrnoCodes,
    request: TraceRequest,
    response: i32,
    errno: Option<i32>,
) -> Option<AttachError> {
    if response == 0 {
        None
    } else if response == FAILURE_RESPONSE {
        match errno {
            None => Some(AttachError::Unspecified(response)),
            Some(code) => Some(errno_failure(codes, request, code)),
        }
    } else {
        Some(AttachError::UnexpectedResponse(response, errno))
    }
}

/// The failure in a classified result; `None` for a handle.
pub open spec fn failure_of(result: Result<TracedProcessHandle, AttachError>) -> Option<
    AttachError,
> {
    match result {
        Ok(_) => None,
        Err(error) => Some(error),
    }
}

/// Whether `result` is the classification of `response` and `errno` for a
/// primitive issued on `pid`: the failure that `trace_failure` names, or
/// else a handle for `pid`.
pub open spec fn classifies(
    result: Result<TracedProcessHandle, AttachError>,
    codes: ErrnoCodes,
    request: TraceRequest,
    pid: i32,
    response: i32,
    errno: Option<i32>,
) -> bool {
    &&& failure_of(result) == trace_failure(codes, request, response, errno)
    &&& result matches Ok(handle) ==> handle@ == pid
}

/// Classifies the response of a trace primitive issued on `pid`, given the
/// platform's error codes.
pub fn classify_trace_response(
    codes: &ErrnoCodes,
    request: TraceRequest,
    pid: i32,
    response: i32,
    errno: Option<i32>,
) -> (result: Result<TracedProcessHandle, AttachError>)
    ensures
        classifies(result, *codes, request, pid, response, errno),
{
    if response == 0 {
        return Ok(TracedProcessHandle { pid });
    }
    if response != FAILURE_RESPONSE {
        return Err(AttachError::UnexpectedResponse(response, errno));
    }
    match errno {
        None => Err(AttachError::Unspecified(response)),
        Some(code) => {
            if code == codes.no_such_process {
                Err(AttachError::NoSuchProcess)
            } else if code == codes.invalid_argument {
                Err(AttachError::InvalidArgument)
            } else if code == codes.resource_busy {
                Err(AttachError::ResourceBusy)
            } else if request == TraceRequest::Continue && code == codes.not_supported {
                Err(AttachError::NotSupported)
            } else if code == codes.permission_denied {
                Err(AttachError::PermissionDenied)
            } else if code != 0 {
                Err(AttachError::Other(code))
            } else {
                Err(AttachError::UnexpectedResponse(response, errno))
            }
        },
    }
}

/// The label under which a primitive's failures are reported. Detach reports
/// under the attach label.
pub open spec fn request_label(request: TraceRequest) -> Seq<char> {
    match request {
        TraceRequest::Attach => "PTRACE_ATTACH"@,
        TraceRequest::Detach => "PTRACE_ATTACH"@,
        TraceRequest::Continue => "PTRACE_CONTINUE"@,
    }
}

/// What a failure message says after the label and the pid. A named error
/// code is shown by its symbol; the missing process is named in words as
/// well.
pub open spec fn failure_detail(error: AttachError) -> Seq<char> {
    match error {
        AttachError::Unspecified(response) => "ptrace response: "@ + decimal(response as int),
        AttachError::NoSuchProcess => "response: -1, errno: ESRCH (NoSuchProcess)"@,
        AttachError::InvalidArgument => "response: -1, errno: EINVAL"@,
        AttachError::ResourceBusy => "response: -1, errno: EBUSY"@,
        AttachError::PermissionDenied => "response: -1, errno: EPERM"@,
        AttachError::NotSupported => "response: -1, errno: ENOTSUP"@,
        AttachError::Other(code) => "response: -1, errno: "@ + decimal(code as int),
        AttachError::UnexpectedResponse(response, Some(code)) => "unexpected response code: "@
            + decimal(response as int) + ", errno: "@ + decimal(code as int),
        AttachError::UnexpectedResponse(response, None) => "unexpected response code: "@
            + decimal(response as int),
    }
}

/// The message for a failure of `request` on `pid`: the request's label, the
/// pid, then the detail of the failure.
pub open spec fn failure_message(request: TraceRequest, pid: i32, error: AttachError) -> Seq<
    char,
> {
    request_label(request) + " of "@ + decimal(pid as int) + ": "@ + failure_detail(error)
}

/// The tagged outcome of a trace operation: a handle, or a message.
#[derive(Debug, PartialEq, Eq)]
pub enum ProcessAttachResult {
    /// The primitive succeeded.
    Success(TracedProcessHandle),
    /// The primitive failed; the message says how.
    Failure(String),
}

/// Whether `reply` reports `result` of `request` on `pid`: the handle as it
/// is, a failure as its message.
pub open spec fn reports(
    reply: ProcessAttachResult,
    result: Result<TracedProcessHandle, AttachError>,
    request: TraceRequest,
    pid: i32,
) -> bool {
    match result {
        Ok(handle) => reply == ProcessAttachResult::Success(handle),
        Err(error) => reply matches ProcessAttachResult::Failure(message) && message@
            == failure_message(request, pid, error),
    }
}

/// Whether `reply` is the tagged outcome of `request` on `pid` for what the
/// primitive reported: a handle for `pid` where it succeeded, else the
/// message of the failure that `trace_failure` names.
pub open spec fn replies(
    reply: ProcessAttachResult,
    codes: ErrnoCodes,
    request: TraceRequest,
    pid: i32,
    response: i32,
    errno: Option<i32>,
) -> bool {
    match trace_failure(codes, request, response, errno) {
        None => reply matches ProcessAttachResult::Success(handle) && handle@ == pid,
        Some(error) => reply matches ProcessAttachResult::Failure(message) && message@
            == failure_message(request, pid, error),
    }
}

fn label_text(request: TraceRequest) -> (label: &'static str)
    ensures
        label@ == request_label(request),
{
    match request {
        TraceRequest::Attach => "PTRACE_ATTACH",
        TraceRequest::Detach => "PTRACE_ATTACH",
        TraceRequest::Continue => "PTRACE_CONTINUE",
    }
}

fn push_failure_detail(out: &mut String, error: AttachError)
    ensures
        final(out)@ == old(out)@ + failure_detail(error),
{
    match error {
        AttachError::Unspecified(response) => {
            out.append("ptrace response: ");
            push_decimal(out, response as i64);
        },
        AttachError::NoSuchProcess => {
            out.append("response: -1, errno: ESRCH (NoSuchProcess)");
        },
        AttachError::InvalidArgument => {
            out.append("response: -1, errno: EINVAL");
        },
        AttachError::ResourceBusy => {
            out.append("response: -1, errno: EBUSY");
        },
        AttachError::PermissionDenied => {
            out.append("response: -1, errno: EPERM");
        },
        AttachError::NotSupported => {
            out.append("response: -1, errno: ENOTSUP");
        },
        AttachError::Other(code) => {
            out.append("response: -1, errno: ");
            push_decimal(out, code as i64);
        },
        AttachError::UnexpectedResponse(response, errno) => {
            out.append("unexpected response code: ");
            push_decimal(out, response as i64);
            match errno {
                Some(code) => {
                    out.append(", errno: ");
                    push_decimal(out, code as i64);
                },
                None => {},
            }
        },
    }
}

/// Renders the message for a failure of `request` on `pid`.
pub fn describe_failure(request: TraceRequest, pid: i32, error: AttachError) -> (message: String)
    ensures
        message@ == failure_message(request, pid, error),
{
    let mut message = String::from_str(label_text(request));
    message.append(" of ");
    push_decimal(&mut message, pid as i64);
    message.append(": ");
    push_failure_detail(&mut message, error);
    message
}

/// Turns a classified result of `request` on `pid` into its tagged outcome.
pub fn trace_reply(
    result: Result<TracedProcessHandle, AttachError>,
    request: TraceRequest,
    pid: i32,
) -> (reply: ProcessAttachResult)
    ensures
        reports(reply, result, request, pid),
{
    match result {
        Ok(handle) => ProcessAttachResult::Success(handle),
        Err(error) => ProcessAttachResult::Failure(describe_failure(request, pid, error)),
    }
}

/// A failure response that carries the platform's no-such-process code is
/// classified as `NoSuchProcess`, never as a success: for every primitive,
/// every pid and every table of codes.
pub proof fn lemma_missing_process_is_no_such_process(
    result: Result<TracedProcessHandle, AttachError>,
    codes: ErrnoCodes,
    request: TraceRequest,
    pid: i32,
)
    requires
        classifies(result, codes, request, pid, FAILURE_RESPONSE, Some(codes.no_such_process)),
    ensures
        result == Err::<TracedProcessHandle, AttachError>(AttachError::NoSuchProcess),
{
}

/// Whether `text` holds `word` somewhere in it.
pub open spec fn mentions(text: Seq<char>, word: Seq<char>) -> bool {
    exists|at: int|
        0 <= at && at + word.len() <= text.len() && #[trigger] text.subrange(
            at,
            at + word.len(),
        ) == word
}

/// The reply to a failure response that carries the platform's
/// no-such-process code is a failure, and its message names `NoSuchProcess`.
pub proof fn lemma_missing_process_reply(
    reply: ProcessAttachResult,
    codes: ErrnoCodes,
    request: TraceRequest,
    pid: i32,
)
    requires
        replies(reply, codes, request, pid, FAILURE_RESPONSE, Some(codes.no_such_process)),
    ensures
        reply is Failure,
        reply->Failure_0@ == failure_message(request, pid, AttachError::NoSuchProcess),
        mentions(reply->Failure_0@, "NoSuchProcess"@),
{
    reveal_strlit("response: -1, errno: ESRCH (NoSuchProcess)");
    reveal_strlit("NoSuchProcess");
    let text = reply->Failure_0@;
    let head = request_label(request) + " of "@ + decimal(pid as int) + ": "@;
    let detail = "response: -1, errno: ESRCH (NoSuchProcess)"@;
    assert(text == head + detail);
    // The word stands 28 characters into the detail and is 13 long.
    let at: int = head.len() as int + 28;
    assert(text.subrange(at, at + 13) =~= "NoSuchProcess"@);
}

/// Where the attach primitive and then the detach primitive both respond
/// `0` for one pid, both classifications are handles for that pid, whatever
/// error code was left over at either call.
pub proof fn lemma_attach_then_detach_succeed(
    attached: Result<TracedProcessHandle, AttachError>,
    detached: Result<TracedProcessHandle, AttachError>,
    codes: ErrnoCodes,
    pid: i32,
    attach_errno: Option<i32>,
    detach_errno: Option<i32>,
)
    requires
        classifies(attached, codes, TraceRequest::Attach, pid, 0, attach_errno),
        classifies(detached, codes, TraceRequest::Detach, pid, 0, detach_errno),
    ensures
        attached matches Ok(handle) && handle@ == pid,
        detached matches Ok(handle) && handle@ == pid,
        attached == detached,
{
}

/// A classification is a handle exactly when the response is `0`: every
/// other response, with or without an error code, is a failure of one of the
/// defined kinds, and its message is `failure_message` of that kind.
pub proof fn lemma_failure_is_defined(
    result: Result<TracedProcessHandle, AttachError>,
    reply: ProcessAttachResult,
    codes: ErrnoCodes,
    request: TraceRequest,
    pid: i32,
    response: i32,
    errno: Option<i32>,
)
    requires
        classifies(result, codes, request, pid, response, errno),
        reports(reply, result, request, pid),
    ensures
        response == 0 <==> result is Ok,
        response == 0 <==> reply is Success,
        replies(reply, codes, request, pid, response, errno),
        response != 0 ==> result == Err::<TracedProcessHandle, AttachError>(
            trace_failure(codes, request, response, errno).unwrap(),
        ),
{
}

/// One response has one classification.
pub proof fn lemma_classification_is_unique(
    first: Result<TracedProcessHandle, AttachError>,
    second: Result<TracedProcessHandle, AttachError>,
    codes: ErrnoCodes,
    request: TraceRequest,
    pid: i32,
    response: i32,
    errno: Option<i32>,
)
    requires
        classifies(first, codes, request, pid, response, errno),
        classifies(second, codes, request, pid, response, errno),
    ensures
        first == second,
{
}

/// `NotSupported` is a category of continue alone. It is the classification
/// exactly of a failed continue whose error code is the platform's
/// not-supported code and none of the codes tried before it; attach and
/// detach file that code under `Other`, where it is not `0` and not one of
/// the other named codes.
pub proof fn lemma_not_supported_is_for_continue(
    codes: ErrnoCodes,
    request: TraceRequest,
    response: i32,
    errno: Option<i32>,
)
    ensures
        trace_failure(codes, request, response, errno) == Some(AttachError::NotSupported) <==> (
        request == TraceRequest::Continue && response == FAILURE_RESPONSE && errno == Some(
            codes.not_supported,
        ) && codes.not_supported != codes.no_such_process && codes.not_supported
            != codes.invalid_argument && codes.not_supported != codes.resource_busy),
        request != TraceRequest::Continue && codes.not_supported != 0 && codes.not_supported
            != codes.no_such_process && codes.not_supported != codes.invalid_argument
            && codes.not_supported != codes.resource_busy && codes.not_supported
            != codes.permission_denied ==> trace_failure(
            codes,
            request,
            FAILURE_RESPONSE,
            Some(codes.not_supported),
        ) == Some(AttachError::Other(codes.not_supported)),
{
}

} // verus!
