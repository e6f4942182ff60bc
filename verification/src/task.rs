//! The task port resolver: the handle that grants access to a process's
//! memory space.

use vstd::prelude::*;
use crate::text::decimal;
use crate::text::push_decimal;

verus! {

/// A kernel-issued reference to the memory space of one process. Only a
/// kernel return code of `0` produces one.
#[derive(Debug, PartialEq, Eq)]
pub struct TaskHandle {
    pid: i32,
    port: u32,
}

impl View for TaskHandle {
    type V = (int, int);

    /// The owning process and the port name.
    closed spec fn view(&self) -> (int, int) {
        (self.pid as int, self.port as int)
    }
}

impl TaskHandle {
    /// The process whose memory space the handle grants access to.
    pub fn pid(&self) -> (pid: i32)
        ensures
            pid == self@.0,
    {
        self.pid
    }

    /// The port name that the kernel issued.
    pub fn port(&self) -> (port: u32)
        ensures
            port == self@.1,
    {
        self.port
    }
}

/// The tagged outcome of a task-port lookup: a handle, or a message.
#[derive(Debug, PartialEq, Eq)]
pub enum TaskResult {
    /// The kernel issued a port.
    Success(TaskHandle),
    /// The kernel refused; the message carries its return code.
    Failure(String),
}

/// The diagnostic for a refused lookup: it carries the raw kernel return
/// code.
pub open spec fn task_failure_message(kern_return: i32) -> Seq<char> {
    "task_for_pid failed: "@ + decimal(kern_return as int)
}

/// Interprets what the task-port lookup for `pid` returned: the kernel's
/// return code, and the port name it wrote. A handle comes back exactly
/// when the return code is `0`; otherwise the port name is dropped.
pub fn resolve_task(pid: i32, kern_return: i32, port: u32) -> (result: Result<TaskHandle, String>)
    ensures
        match result {
            Ok(handle) => kern_return == 0 && handle@ == (pid as int, port as int),
            Err(message) => kern_return != 0 && message@ == task_failure_message(kern_return),
        },
{
    if kern_return == 0 {
        Ok(TaskHandle { pid, port })
    } else {
        let mut message = String::from_str("task_for_pid failed: ");
        push_decimal(&mut message, kern_return as i64);
        Err(message)
    }
}

/// The tagged outcome of the task-port lookup for `pid`.
pub fn task_for_pid(pid: i32, kern_return: i32, port: u32) -> (reply: TaskResult)
    ensures
        match reply {
            TaskResult::Success(handle) => kern_return == 0 && handle@ == (pid as int, port as int),
            TaskResult::Failure(message) => kern_return != 0 && message@ == task_failure_message(
                kern_return,
            ),
        },
{
    match resolve_task(pid, kern_return, port) {
        Ok(handle) => TaskResult::Success(handle),
        Err(message) => TaskResult::Failure(message),
    }
}

} // verus!
