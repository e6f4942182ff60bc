use backends_osx::enumerator::get_pid_name;
use backends_osx::enumerator::list_pids;
use backends_osx::enumerator::list_processes;
use backends_osx::enumerator::EnumerationError;
use backends_osx::enumerator::ListPidResult;
use backends_osx::enumerator::ProcessListEntry;

fn entry(pid: i32, name: &str) -> ProcessListEntry {
    ProcessListEntry { pid, name: String::from(name) }
}

fn named(pid: i32, name: &str) -> (i32, Option<String>) {
    (pid, Some(String::from(name)))
}

#[test]
fn a_resolved_name_is_kept() {
    assert_eq!(get_pid_name(Some(String::from("launchd"))), Ok(String::from("launchd")));
    assert_eq!(get_pid_name(Some(String::new())), Ok(String::new()));
}

#[test]
fn an_unresolved_name_is_the_placeholder() {
    assert_eq!(get_pid_name(None), Err(String::from("(Unknown name)")));
}

#[test]
fn every_process_gets_an_entry() {
    let lookups = vec![named(1, "launchd"), (87, None), named(4243, "zsh"), (0, None)];
    let entries = list_processes(Ok(lookups)).expect("the listing succeeded");
    assert_eq!(
        entries,
        vec![
            entry(1, "launchd"),
            entry(87, "(Unknown name)"),
            entry(4243, "zsh"),
            entry(0, "(Unknown name)"),
        ]
    );
}

#[test]
fn n_processes_give_n_entries() {
    for n in 0..40usize {
        let mut lookups: Vec<(i32, Option<String>)> = Vec::new();
        for i in 0..n {
            if i % 3 == 0 {
                lookups.push((i as i32, None));
            } else {
                lookups.push((i as i32, Some(format!("proc{}", i))));
            }
        }
        let entries = list_processes(Ok(lookups)).expect("the listing succeeded");
        assert_eq!(entries.len(), n);
        for (i, listed) in entries.iter().enumerate() {
            assert_eq!(listed.pid, i as i32);
            if i % 3 == 0 {
                assert_eq!(listed.name, "(Unknown name)");
            } else {
                assert_eq!(listed.name, format!("proc{}", i));
            }
        }
    }
}

#[test]
fn the_order_of_the_operating_system_is_kept() {
    let lookups = vec![named(30, "c"), named(10, "a"), named(20, "b"), named(10, "a")];
    let entries = list_processes(Ok(lookups)).expect("the listing succeeded");
    let pids: Vec<i32> = entries.iter().map(|listed| listed.pid).collect();
    assert_eq!(pids, vec![30, 10, 20, 10]);
}

#[test]
fn an_empty_listing_is_an_empty_list() {
    assert_eq!(list_processes(Ok(Vec::new())), Ok(Vec::new()));
    assert_eq!(list_pids(Ok(Vec::new())), ListPidResult::Success(Vec::new()));
}

#[test]
fn a_failed_listing_fails_the_whole() {
    assert_eq!(
        list_processes(Err(String::from("Operation not permitted (os error 1)"))),
        Err(EnumerationError { description: String::from("Operation not permitted (os error 1)") })
    );
}

#[test]
fn the_failure_message_carries_the_description() {
    assert_eq!(
        list_pids(Err(String::from("Operation not permitted (os error 1)"))),
        ListPidResult::Failure(String::from(
            "darwin_libproc::all_pids failed: Operation not permitted (os error 1)"
        ))
    );
    assert_eq!(
        list_pids(Err(String::new())),
        ListPidResult::Failure(String::from("darwin_libproc::all_pids failed: "))
    );
}

#[test]
fn a_pid_that_does_not_exist_is_not_listed() {
    let lookups = vec![named(1, "launchd"), (4241, None), named(4243, "zsh")];
    match list_pids(Ok(lookups)) {
        ListPidResult::Success(entries) => {
            assert_eq!(entries.len(), 3);
            assert!(entries.iter().all(|listed| listed.pid != 4242));
        }
        ListPidResult::Failure(message) => panic!("unexpected failure: {}", message),
    }
}

#[test]
fn a_name_that_looks_like_the_placeholder_is_kept_as_a_name() {
    let lookups = vec![named(5, "(Unknown name)"), (6, None)];
    let entries = list_processes(Ok(lookups)).expect("the listing succeeded");
    assert_eq!(entries, vec![entry(5, "(Unknown name)"), entry(6, "(Unknown name)")]);
}

#[test]
fn names_outside_ascii_are_kept() {
    let lookups = vec![named(5, "Über-Prozeß"), named(6, "プロセス")];
    let entries = list_processes(Ok(lookups)).expect("the listing succeeded");
    assert_eq!(entries, vec![entry(5, "Über-Prozeß"), entry(6, "プロセス")]);
}
