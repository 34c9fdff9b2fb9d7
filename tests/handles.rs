use fshc::fds::FdList;
use fshc::handles::{
    decode_snapshot, handles_of, is_file_type_name, snapshot_step, HandleEntry, SnapshotStep,
    INITIAL_SNAPSHOT_LEN, SNAPSHOT_GROWTH, STATUS_INFO_LENGTH_MISMATCH,
};
use fshc::outcome::{FshcError, NO_FILE_HANDLE};

const SELF_PID: u64 = 4242;
const FILE_TAG: u16 = 37;
const EVENT_TAG: u16 = 16;

fn snapshot(records: &[(u64, u16, u64)]) -> Vec<u8> {
    let mut b = Vec::new();
    b.extend_from_slice(&(records.len() as u64).to_le_bytes());
    b.extend_from_slice(&[0u8; 8]);
    for &(pid, tag, handle) in records {
        b.extend_from_slice(&0xffff_8000_1234_0000u64.to_le_bytes());
        b.extend_from_slice(&pid.to_le_bytes());
        b.extend_from_slice(&handle.to_le_bytes());
        b.extend_from_slice(&0x0012_019fu32.to_le_bytes());
        b.extend_from_slice(&0u16.to_le_bytes());
        b.extend_from_slice(&tag.to_le_bytes());
        b.extend_from_slice(&[0u8; 8]);
    }
    b
}

fn utf16(s: &str) -> Vec<u16> {
    s.encode_utf16().collect()
}

// the calling process holds an event and three files; the target holds three
// files and two other objects
fn synthetic_table() -> Vec<u8> {
    snapshot(&[
        (SELF_PID, EVENT_TAG, 4),
        (SELF_PID, FILE_TAG, 8),
        (SELF_PID, FILE_TAG, 12),
        (900, FILE_TAG, 4),
        (900, FILE_TAG, 8),
        (900, FILE_TAG, 12),
        (900, 40, 16),
        (900, 40, 20),
        (77, FILE_TAG, 4),
    ])
}

fn self_names(entries: &Vec<HandleEntry>) -> Vec<Vec<u16>> {
    handles_of(entries, SELF_PID)
        .iter()
        .map(|e| if e.type_tag == FILE_TAG { utf16("File") } else { utf16("Event") })
        .collect()
}

#[test]
fn decode_reads_every_field() {
    let e = decode_snapshot(&snapshot(&[(0x1_0000_0001, 0x1234, 0xabcdef), (5, 7, 9)])).unwrap();
    assert_eq!(e.len(), 2);
    assert_eq!(e[0].owner_pid, 0x1_0000_0001);
    assert_eq!(e[0].type_tag, 0x1234);
    assert_eq!(e[0].handle_value, 0xabcdef);
    assert_eq!(e[1], HandleEntry { owner_pid: 5, type_tag: 7, handle_value: 9 });
}

#[test]
fn decode_rejects_truncated_buffer() {
    let mut b = snapshot(&[(1, 2, 3), (4, 5, 6)]);
    b.pop();
    assert!(decode_snapshot(&b).is_none());
    assert!(decode_snapshot(&vec![0u8; 15]).is_none());
    let mut huge = vec![0u8; 16];
    huge[..8].copy_from_slice(&u64::MAX.to_le_bytes());
    assert!(decode_snapshot(&huge).is_none());
}

#[test]
fn decode_empty_table_and_trailing_room() {
    assert_eq!(decode_snapshot(&snapshot(&[])).unwrap().len(), 0);
    let mut b = snapshot(&[(1, 2, 3)]);
    b.extend_from_slice(&[0xffu8; 100]);
    assert_eq!(decode_snapshot(&b).unwrap().len(), 1);
}

#[test]
fn snapshot_steps() {
    assert!(matches!(snapshot_step(4096, 0), SnapshotStep::Done));
    assert!(matches!(
        snapshot_step(4096, STATUS_INFO_LENGTH_MISMATCH),
        SnapshotStep::Grow(n) if n == 4096 + SNAPSHOT_GROWTH
    ));
    assert!(matches!(snapshot_step(4096, -1073741790), SnapshotStep::Fail(FshcError::Other(_))));
    assert!(matches!(
        snapshot_step(usize::MAX, STATUS_INFO_LENGTH_MISMATCH),
        SnapshotStep::Fail(FshcError::Other(_))
    ));
}

#[test]
fn growth_stops_at_first_large_enough_buffer() {
    for needed in [1usize, INITIAL_SNAPSHOT_LEN, INITIAL_SNAPSHOT_LEN + 1, 1_000_000] {
        let mut len = INITIAL_SNAPSHOT_LEN;
        let mut attempts = 0;
        let mut previous = 0usize;
        loop {
            attempts += 1;
            let status = if len >= needed { 0 } else { STATUS_INFO_LENGTH_MISMATCH };
            match snapshot_step(len, status) {
                SnapshotStep::Done => break,
                SnapshotStep::Grow(n) => {
                    previous = len;
                    len = n;
                }
                SnapshotStep::Fail(_) => panic!("protocol failed"),
            }
        }
        assert!(len >= needed);
        assert!(attempts == 1 || previous < needed);
    }
}

#[test]
fn file_type_name() {
    assert!(is_file_type_name(&utf16("File")));
    assert!(!is_file_type_name(&utf16("file")));
    assert!(!is_file_type_name(&utf16("Files")));
    assert!(!is_file_type_name(&Vec::new()));
}

#[test]
fn synthetic_process_counts() {
    let entries = decode_snapshot(&synthetic_table()).unwrap();
    let names = self_names(&entries);
    let s = FdList::list(900, &entries, SELF_PID, &names).unwrap();
    assert_eq!(s.pid, 900);
    assert_eq!(s.total_descriptors, 5);
    assert_eq!(s.file_descriptors, Some(3));
    assert!(s.socket_descriptors.is_none());
    assert!(s.file_descriptors.unwrap() >= 1);
    assert!(s.total_descriptors >= 3);
}

#[test]
fn nonexistent_pid_returns_success_with_zero_handles() {
    let entries = decode_snapshot(&synthetic_table()).unwrap();
    let names = self_names(&entries);
    let s = FdList::list(99999, &entries, SELF_PID, &names).unwrap();
    assert_eq!(s.pid, 99999);
    assert_eq!(s.total_descriptors, 0);
    assert_eq!(s.file_descriptors, Some(0));
    assert!(s.socket_descriptors.is_none());
}

#[test]
fn no_file_handle_of_own_fails() {
    let entries = decode_snapshot(&snapshot(&[(SELF_PID, EVENT_TAG, 4), (900, FILE_TAG, 4)])).unwrap();
    let names = vec![utf16("Event")];
    let r = FdList::list(900, &entries, SELF_PID, &names);
    match r {
        Err(e) => {
            assert!(matches!(e, FshcError::Other(d) if d == NO_FILE_HANDLE));
            assert_eq!(e.to_string(), "failed to find file handles in the current process");
        }
        Ok(_) => panic!("counted without a file tag"),
    }
    let none = FdList::list(900, &entries, SELF_PID, &Vec::new());
    assert!(matches!(none, Err(FshcError::Other(d)) if d == NO_FILE_HANDLE));
}

#[test]
fn first_file_named_handle_fixes_the_tag() {
    // two own handles named File with different tags: the first one counts
    let entries =
        decode_snapshot(&snapshot(&[(SELF_PID, 3, 4), (SELF_PID, 5, 8), (900, 3, 4), (900, 5, 8), (900, 5, 12)]))
            .unwrap();
    let names = vec![utf16("File"), utf16("File")];
    let s = FdList::list(900, &entries, SELF_PID, &names).unwrap();
    assert_eq!(s.total_descriptors, 3);
    assert_eq!(s.file_descriptors, Some(1));
}

#[test]
fn handles_of_keeps_order() {
    let entries = decode_snapshot(&synthetic_table()).unwrap();
    let own = handles_of(&entries, SELF_PID);
    assert_eq!(own.len(), 3);
    assert_eq!(own[0].handle_value, 4);
    assert_eq!(own[1].handle_value, 8);
    assert_eq!(own[2].handle_value, 12);
    assert!(handles_of(&entries, 1).is_empty());
}

#[test]
fn total_only_over_the_table() {
    let entries = decode_snapshot(&synthetic_table()).unwrap();
    let s = FdList::count_total(900, &entries);
    assert_eq!(s.pid, 900);
    assert_eq!(s.total_descriptors, 5);
    assert!(s.socket_descriptors.is_none() && s.file_descriptors.is_none());
    let z = FdList::count_total(99999, &entries);
    assert_eq!(z.total_descriptors, 0);
}
