use backends_osx::errno::ErrnoCodes;
use backends_osx::probe::attach_report;
use backends_osx::probe::probe_call;
use backends_osx::probe::AttachReport;
use backends_osx::trace::TraceCall;
use backends_osx::trace::TraceRequest;

const DARWIN: ErrnoCodes = ErrnoCodes {
    no_such_process: 3,
    invalid_argument: 22,
    resource_busy: 16,
    not_supported: 45,
    permission_denied: 1,
};

fn report(task_line: &str, trace_line: &str) -> AttachReport {
    AttachReport { task_line: String::from(task_line), trace_line: String::from(trace_line) }
}

#[test]
fn the_probe_attaches_to_the_pid_read_as_a_signed_number() {
    assert_eq!(
        probe_call(4242),
        TraceCall { request: TraceRequest::Attach, pid: 4242, address: None, data: 0 }
    );
    assert_eq!(probe_call(0).pid, 0);
    assert_eq!(probe_call(0x7fff_ffff).pid, i32::MAX);
    assert_eq!(probe_call(0x8000_0000).pid, i32::MIN);
    assert_eq!(probe_call(u32::MAX).pid, -1);
    assert_eq!(probe_call(4_294_963_054).pid, -4242);
}

#[test]
fn the_probe_call_agrees_with_a_cast() {
    let pids: [u32; 7] = [0, 1, 4242, 0x7fff_ffff, 0x8000_0000, 0x8000_0001, u32::MAX];
    for pid in pids.iter() {
        assert_eq!(probe_call(*pid).pid, *pid as i32);
    }
}

#[test]
fn a_probe_without_error_code_reports_the_response_alone() {
    assert_eq!(
        attach_report(&DARWIN, 4242, 0, None, 0),
        report("task_for_pid: 0", "PTRACE of 4242: response: 0")
    );
    assert_eq!(
        attach_report(&DARWIN, 4242, -1, None, 5),
        report("task_for_pid: 5", "PTRACE of 4242: response: -1")
    );
}

#[test]
fn a_probe_shows_named_codes_by_their_symbol() {
    assert_eq!(
        attach_report(&DARWIN, 7, -1, Some(3), 5).trace_line,
        "PTRACE of 7: response: -1, errno: ESRCH"
    );
    assert_eq!(
        attach_report(&DARWIN, 7, -1, Some(22), 5).trace_line,
        "PTRACE of 7: response: -1, errno: EINVAL"
    );
    assert_eq!(
        attach_report(&DARWIN, 7, -1, Some(16), 5).trace_line,
        "PTRACE of 7: response: -1, errno: EBUSY"
    );
    assert_eq!(
        attach_report(&DARWIN, 7, -1, Some(1), 5).trace_line,
        "PTRACE of 7: response: -1, errno: EPERM"
    );
}

#[test]
fn a_probe_shows_other_codes_as_numbers() {
    assert_eq!(
        attach_report(&DARWIN, 7, -1, Some(45), 5).trace_line,
        "PTRACE of 7: response: -1, errno: 45"
    );
    assert_eq!(
        attach_report(&DARWIN, 7, -1, Some(0), 5).trace_line,
        "PTRACE of 7: response: -1, errno: 0"
    );
    assert_eq!(
        attach_report(&DARWIN, 7, -1, Some(-9), 5).trace_line,
        "PTRACE of 7: response: -1, errno: -9"
    );
}

#[test]
fn a_probe_shows_the_error_code_whatever_the_response() {
    assert_eq!(
        attach_report(&DARWIN, 7, 0, Some(3), 0).trace_line,
        "PTRACE of 7: response: 0, errno: ESRCH"
    );
    assert_eq!(
        attach_report(&DARWIN, 7, 12, Some(2), 0).trace_line,
        "PTRACE of 7: response: 12, errno: 2"
    );
}

#[test]
fn a_probe_shows_the_pid_unsigned() {
    assert_eq!(
        attach_report(&DARWIN, u32::MAX, -1, None, i32::MIN),
        report("task_for_pid: -2147483648", "PTRACE of 4294967295: response: -1")
    );
}

#[test]
fn the_report_goes_by_the_codes_of_the_platform() {
    assert_eq!(
        attach_report(&ErrnoCodes::platform(), 4242, -1, Some(libc::ESRCH), 5),
        report("task_for_pid: 5", "PTRACE of 4242: response: -1, errno: ESRCH")
    );
    assert_eq!(
        attach_report(&ErrnoCodes::platform(), 4242, -1, Some(libc::EPERM), 0),
        report("task_for_pid: 0", "PTRACE of 4242: response: -1, errno: EPERM")
    );
    assert_eq!(
        attach_report(&ErrnoCodes::platform(), 4242, -1, Some(libc::EINVAL), 0).trace_line,
        "PTRACE of 4242: response: -1, errno: EINVAL"
    );
    assert_eq!(
        attach_report(&ErrnoCodes::platform(), 4242, -1, Some(libc::EBUSY), 0).trace_line,
        "PTRACE of 4242: response: -1, errno: EBUSY"
    );
    assert_eq!(
        attach_report(&ErrnoCodes::platform(), 4242, -1, Some(libc::ENOTSUP), 0).trace_line,
        format!("PTRACE of 4242: response: -1, errno: {}", libc::ENOTSUP)
    );
    assert_eq!(attach_report(&ErrnoCodes::platform(), 4242, 0, None, 0), report("task_for_pid: 0", "PTRACE of 4242: response: 0"));
}
