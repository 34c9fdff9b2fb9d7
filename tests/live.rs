use fshc::fds::FdList;
use fshc::query::{run, CliArgs};
use procfs::process::Process;

fn own_pid() -> u32 {
    Process::myself().unwrap().pid as u32
}

#[test]
fn detailed_census_of_this_process() {
    let pid = own_pid();
    let s = FdList::list_by_type(pid).unwrap();
    assert_eq!(s.pid, pid);
    // the standard streams, and the procfs entry held while counting
    assert!(s.total_descriptors >= 3, "total {}", s.total_descriptors);
    let sockets = s.socket_descriptors.unwrap();
    let files = s.file_descriptors.unwrap();
    assert!(sockets + files <= s.total_descriptors);
}

#[test]
fn total_only_census_of_this_process() {
    let pid = own_pid();
    let s = FdList::list_total(pid).unwrap();
    assert_eq!(s.pid, pid);
    assert!(s.total_descriptors >= 3);
    assert!(s.socket_descriptors.is_none());
    assert!(s.file_descriptors.is_none());
}

#[test]
fn run_follows_the_only_total_flag() {
    let pid = own_pid();
    let d = run(&CliArgs { only_total: false, pid }).unwrap();
    assert!(d.socket_descriptors.is_some() && d.file_descriptors.is_some());
    let t = run(&CliArgs { only_total: true, pid }).unwrap();
    assert!(t.socket_descriptors.is_none() && t.file_descriptors.is_none());
}
