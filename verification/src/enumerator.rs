//! The process enumerator: the list of live processes with their display
//! names.

use vstd::prelude::*;

verus! {

/// One line of the process list.
#[derive(Debug, PartialEq, Eq)]
pub struct ProcessListEntry {
    /// The process.
    pub pid: i32,
    /// Its display name, or the placeholder where none could be resolved.
    pub name: String,
}

impl View for ProcessListEntry {
    type V = (int, Seq<char>);

    open spec fn view(&self) -> (int, Seq<char>) {
        (self.pid as int, self.name@)
    }
}

/// Why the process list could not be had.
#[derive(Debug, PartialEq, Eq)]
pub struct EnumerationError {
    /// What the listing primitive said of its failure.
    pub description: String,
}

/// The tagged outcome of listing the processes: the entries, or a message.
#[derive(Debug, PartialEq, Eq)]
pub enum ListPidResult {
    /// One entry per process, in the order the operating system gave.
    Success(Vec<ProcessListEntry>),
    /// The listing primitive failed; the message says how.
    Failure(String),
}

/// The name shown for a process whose name could not be resolved.
pub open spec fn unknown_name() -> Seq<char> {
    "(Unknown name)"@
}

/// The name an entry shows for what the name lookup gave.
pub open spec fn display_name(resolved: Option<String>) -> Seq<char> {
    match resolved {
        Some(name) => name@,
        None => unknown_name(),
    }
}

/// Whether `entries` lists `lookups`: one entry for each lookup, in the same
/// order, with the lookup's pid and its display name.
pub open spec fn lists(entries: Seq<ProcessListEntry>, lookups: Seq<(i32, Option<String>)>) -> bool {
    &&& entries.len() == lookups.len()
    &&& forall|i: int|
        0 <= i < lookups.len() ==> (#[trigger] entries[i])@ == (
            lookups[i].0 as int,
            display_name(lookups[i].1),
        )
}

/// The message for a failed listing: it carries the primitive's own
/// description.
pub open spec fn listing_failure_message(description: Seq<char>) -> Seq<char> {
    "darwin_libproc::all_pids failed: "@ + description
}

/// The result of a name lookup: the name where one was resolved, else the
/// placeholder as the error.
pub fn get_pid_name(resolved: Option<String>) -> (name: Result<String, String>)
    ensures
        match name {
            Ok(text) => resolved matches Some(given) && text@ == given@,
            Err(text) => resolved is None && text@ == unknown_name(),
        },
{
    match resolved {
        Some(name) => Ok(name),
        None => Err(String::from_str("(Unknown name)")),
    }
}

/// Builds the process list from what the operating system gave: on success
/// the pids in its order, each with what its name lookup gave (`None` where
/// the lookup failed); on failure the description of the failure.
///
/// A failed name lookup never drops an entry: it shows the placeholder. Only
/// a failed listing fails the whole.
pub fn list_processes(listing: Result<Vec<(i32, Option<String>)>, String>) -> (result: Result<
    Vec<ProcessListEntry>,
    EnumerationError,
>)
    ensures
        match result {
            Ok(entries) => listing matches Ok(lookups) && lists(entries@, lookups@),
            Err(error) => listing matches Err(description) && error.description@ == description@,
        },
{
    match listing {
        Ok(lookups) => {
            let mut entries: Vec<ProcessListEntry> = Vec::new();
            let mut i: usize = 0;
            while i < lookups.len()
                invariant
                    i <= lookups.len(),
                    lists(entries@, lookups@.take(i as int)),
                decreases lookups.len() - i,
            {
                let pid: i32 = lookups[i].0;
                let name = match get_pid_name(lookups[i].1.clone()) {
                    Ok(name) => name,
                    Err(unknown) => unknown,
                };
                entries.push(ProcessListEntry { pid, name });
                i += 1;
            }
            Ok(entries)
        },
        Err(description) => Err(EnumerationError { description }),
    }
}

/// The tagged outcome of listing the processes.
pub fn list_pids(listing: Result<Vec<(i32, Option<String>)>, String>) -> (reply: ListPidResult)
    ensures
        match reply {
            ListPidResult::Success(entries) => listing matches Ok(lookups) && lists(
                entries@,
                lookups@,
            ),
            ListPidResult::Failure(message) => listing matches Err(description) && message@
                == listing_failure_message(description@),
        },
{
    match list_processes(listing) {
        Ok(entries) => ListPidResult::Success(entries),
        Err(error) => {
            let mut message = String::from_str("darwin_libproc::all_pids failed: ");
            message.append(error.description.as_str());
            ListPidResult::Failure(message)
        },
    }
}

/// A list of N lookups has N entries, each with its lookup's pid, and a
/// lookup whose name could not be resolved is there under the placeholder
/// name.
pub proof fn lemma_every_process_is_listed(
    entries: Seq<ProcessListEntry>,
    lookups: Seq<(i32, Option<String>)>,
)
    requires
        lists(entries, lookups),
    ensures
        entries.len() == lookups.len(),
        forall|i: int| 0 <= i < lookups.len() ==> (#[trigger] entries[i]).pid == lookups[i].0,
        forall|i: int|
            0 <= i < lookups.len() && lookups[i].1 is None ==> (#[trigger] entries[i]).name@
                == "(Unknown name)"@,
{
    assert forall|i: int| 0 <= i < lookups.len() implies (#[trigger] entries[i]).pid
        == lookups[i].0 by {
        assert(entries[i]@.0 == lookups[i].0);
    }
    assert forall|i: int| 0 <= i < lookups.len() && lookups[i].1 is None implies (
    #[trigger] entries[i]).name@ == "(Unknown name)"@ by {
        assert(entries[i]@.1 == display_name(lookups[i].1));
    }
}

/// The list holds the pids that the operating system gave and no others: a
/// pid that no lookup carries is in no entry.
pub proof fn lemma_only_given_pids_are_listed(
    entries: Seq<ProcessListEntry>,
    lookups: Seq<(i32, Option<String>)>,
    pid: i32,
)
    requires
        lists(entries, lookups),
        forall|i: int| 0 <= i < lookups.len() ==> (#[trigger] lookups[i]).0 != pid,
    ensures
        forall|i: int| 0 <= i < entries.len() ==> (#[trigger] entries[i]).pid != pid,
{
    assert forall|i: int| 0 <= i < entries.len() implies (#[trigger] entries[i]).pid != pid by {
        assert(entries[i]@.0 == lookups[i].0);
    }
}

} // verus!
