//! Census through the system-wide kernel handle table.
//!
//! The kernel hands out the table of every handle in the system as one byte
//! buffer. Its layout is an undocumented contract of the kernel, so every
//! field is read by offset and size, after checking that the record lies
//! inside the buffer. The layout (all integers little-endian):
//!
//! | part    | offset | size | field                                   |
//! |---------|--------|------|-----------------------------------------|
//! | header  | 0      | 8    | number of records                       |
//! | header  | 8      | 8    | reserved                                |
//! | record  | 0      | 8    | object address (unused)                 |
//! | record  | 8      | 8    | id of the owning process                |
//! | record  | 16     | 8    | handle value                            |
//! | record  | 24     | 4    | granted access (unused)                 |
//! | record  | 28     | 2    | creator back-trace index (unused)       |
//! | record  | 30     | 2    | object type tag                         |
//! | record  | 32     | 8    | attributes and reserved (unused)        |
//!
//! Records follow the header back to back, `RECORD_LEN` bytes each.
use crate::fds::FdList;
use crate::outcome::{FshcError, Pid, ProcStats, NO_FILE_HANDLE, UNCLASSIFIED};
use vstd::prelude::*;
use vstd::seq_lib::group_seq_properties;

verus! {

broadcast use group_seq_properties;

pub const HEADER_LEN: usize = 16;

pub const RECORD_LEN: usize = 40;

pub const COUNT_OFFSET: usize = 0;

pub const OWNER_OFFSET: usize = 8;

pub const HANDLE_OFFSET: usize = 16;

pub const TYPE_TAG_OFFSET: usize = 30;

/// `256` to the power `k`.
pub open spec fn pow256(k: nat) -> nat
    decreases k,
{
    if k == 0 {
        1
    } else {
        256 * pow256((k - 1) as nat)
    }
}

/// The unsigned integer that the bytes `b` encode, least significant first.
pub open spec fn le_value(b: Seq<u8>) -> nat
    decreases b.len(),
{
    if b.len() == 0 {
        0
    } else {
        b[0] as nat + 256 * le_value(b.drop_first())
    }
}

/// The little-endian integer of `width` bytes of `b` starting at `at`.
pub open spec fn field(b: Seq<u8>, at: int, width: int) -> nat {
    le_value(b.subrange(at, at + width))
}

proof fn lemma_pow256_monotone(a: nat, b: nat)
    requires
        a <= b,
    ensures
        pow256(a) <= pow256(b),
    decreases b,
{
    if a < b {
        lemma_pow256_monotone(a, (b - 1) as nat);
    }
}

proof fn lemma_le_value_bound(b: Seq<u8>)
    ensures
        le_value(b) < pow256(b.len()),
    decreases b.len(),
{
    if b.len() > 0 {
        lemma_le_value_bound(b.drop_first());
        let rest = le_value(b.drop_first());
        let p = pow256((b.len() - 1) as nat);
        assert(b[0] as nat + 256 * rest < 256 * p) by (nonlinear_arith)
            requires
                rest < p,
                b[0] < 256,
        ;
    }
}

/// Reads the little-endian integer of `width` bytes at `at`.
fn read_le(buf: &Vec<u8>, at: usize, width: usize) -> (r: u64)
    requires
        width <= 8,
        at + width <= buf@.len(),
    ensures
        r as nat == field(buf@, at as int, width as int),
{
    let ghost b = buf@;
    let len = buf.len();
    let mut v: u64 = 0;
    let mut i: usize = width;
    proof {
        reveal_with_fuel(pow256, 9);
        assert(b.subrange(at + width, at + width) =~= Seq::<u8>::empty());
    }
    while i > 0
        invariant
            i <= width,
            width <= 8,
            at + width <= b.len(),
            b == buf@,
            b.len() == len,
            v as nat == le_value(b.subrange(at + i, at + width)),
            pow256(8) == 0x1_0000_0000_0000_0000,
        decreases i,
    {
        let ghost tail = b.subrange(at + i, at + width);
        let ghost longer = b.subrange(at + i - 1, at + width);
        proof {
            assert(longer.drop_first() =~= tail);
            lemma_le_value_bound(tail);
            lemma_pow256_monotone(tail.len() + 1, 8);
            assert((v as nat) * 256 + (buf@[at + i - 1] as nat) < 0x1_0000_0000_0000_0000) by (
            nonlinear_arith)
                requires
                    (v as nat) < pow256(tail.len()),
                    pow256(tail.len()) * 256 == pow256(tail.len() + 1),
                    pow256(tail.len() + 1) <= 0x1_0000_0000_0000_0000,
                    buf@[at + i - 1] < 256,
            ;
        }
        v = v * 256 + buf[at + i - 1] as u64;
        i = i - 1;
    }
    proof {
        assert(b.subrange(at as int, at + width) == b.subrange(at + i, at + width));
    }
    v
}

/// One record of the handle table.
#[derive(Clone, Copy, Debug, PartialEq, Eq, Structural)]
pub struct HandleEntry {
    /// Id of the process that holds the handle.
    pub owner_pid: u64,
    /// Kernel tag of the type of object that the handle refers to.
    pub type_tag: u16,
    /// The handle's value inside its owning process.
    pub handle_value: u64,
}

/// Number of records that the header of `b` declares.
pub open spec fn declared_count(b: Seq<u8>) -> nat {
    field(b, COUNT_OFFSET as int, 8)
}

/// First byte of record `i`.
pub open spec fn record_start(i: int) -> int {
    HEADER_LEN + i * RECORD_LEN
}

/// The buffer holds its header and every record that the header declares.
pub open spec fn snapshot_complete(b: Seq<u8>) -> bool {
    b.len() >= HEADER_LEN && record_start(declared_count(b) as int) <= b.len()
}

/// Record `i` of `b`, read field by field.
pub open spec fn record_at(b: Seq<u8>, i: int) -> HandleEntry {
    let base = record_start(i);
    HandleEntry {
        owner_pid: field(b, base + OWNER_OFFSET, 8) as u64,
        type_tag: field(b, base + TYPE_TAG_OFFSET, 2) as u16,
        handle_value: field(b, base + HANDLE_OFFSET, 8) as u64,
    }
}

/// All records of a complete buffer, in order.
pub open spec fn records_of(b: Seq<u8>) -> Seq<HandleEntry> {
    Seq::new(declared_count(b), |i: int| record_at(b, i))
}

/// Decodes a snapshot of the handle table. A buffer that does not hold every
/// record that its header declares gives `None`: no record of a truncated
/// buffer is ever handed out.
pub fn decode_snapshot(buf: &Vec<u8>) -> (r: Option<Vec<HandleEntry>>)
    ensures
        r.is_some() == snapshot_complete(buf@),
        r matches Some(v) ==> v@ == records_of(buf@),
{
    let ghost b = buf@;
    if buf.len() < HEADER_LEN {
        return None;
    }
    let count = read_le(buf, COUNT_OFFSET, 8);
    let room = (buf.len() - HEADER_LEN) / RECORD_LEN;
    proof {
        let n = count as int;
        let len = buf@.len() as int;
        let q = room as int;
        assert(q * 40 <= len - 16 < q * 40 + 40) by (nonlinear_arith)
            requires
                q == (len - 16) / 40,
                len >= 16,
        ;
        assert(n <= q <==> 16 + n * 40 <= len) by (nonlinear_arith)
            requires
                q * 40 <= len - 16 < q * 40 + 40,
        ;
    }
    if count > room as u64 {
        return None;
    }
    let n = count as usize;
    let len = buf.len();
    let mut out: Vec<HandleEntry> = Vec::new();
    let mut i: usize = 0;
    while i < n
        invariant
            b == buf@,
            b.len() == len,
            n as nat == declared_count(b),
            record_start(n as int) <= b.len(),
            i <= n,
            out@ == Seq::new(i as nat, |k: int| record_at(b, k)),
        decreases n - i,
    {
        proof {
            assert(record_start(i as int) + 40 <= b.len()) by (nonlinear_arith)
                requires
                    i < n,
                    16 + n * 40 <= b.len(),
            ;
        }
        let base = HEADER_LEN + i * RECORD_LEN;
        let owner = read_le(buf, base + OWNER_OFFSET, 8);
        let tag = read_le(buf, base + TYPE_TAG_OFFSET, 2);
        let handle = read_le(buf, base + HANDLE_OFFSET, 8);
        proof {
            lemma_le_value_bound(b.subrange(base + TYPE_TAG_OFFSET, base + TYPE_TAG_OFFSET + 2));
            reveal_with_fuel(pow256, 3);
        }
        out.push(HandleEntry { owner_pid: owner, type_tag: tag as u16, handle_value: handle });
        proof {
            assert(out@ =~= Seq::new((i + 1) as nat, |k: int| record_at(b, k)));
        }
        i = i + 1;
    }
    Some(out)
}


/// Size of the first buffer offered to the kernel for a snapshot.
pub const INITIAL_SNAPSHOT_LEN: usize = 0x10000;

/// Bytes added to the buffer each time the kernel finds it too small.
pub const SNAPSHOT_GROWTH: usize = 0x10000;

/// The kernel's status for a buffer too small to hold the table.
pub const STATUS_INFO_LENGTH_MISMATCH: i32 = -1073741820;

/// What to do after the kernel answered a request for a snapshot.
#[derive(Clone, Debug)]
pub enum SnapshotStep {
    /// The buffer now holds the snapshot.
    Done,
    /// Ask again with a buffer of this many bytes.
    Grow(usize),
    /// Give up with this error.
    Fail(FshcError),
}

/// The step after the kernel answered `status` to a buffer of `len` bytes:
/// a success status ends the protocol, "too small" asks for a buffer
/// `SNAPSHOT_GROWTH` bytes larger, and any other status fails.
pub open spec fn next_snapshot_step(len: usize, status: i32) -> SnapshotStep {
    if status >= 0 {
        SnapshotStep::Done
    } else if status == STATUS_INFO_LENGTH_MISMATCH {
        if len + SNAPSHOT_GROWTH <= usize::MAX {
            SnapshotStep::Grow((len + SNAPSHOT_GROWTH) as usize)
        } else {
            SnapshotStep::Fail(FshcError::Other(UNCLASSIFIED))
        }
    } else {
        SnapshotStep::Fail(FshcError::Other(UNCLASSIFIED))
    }
}

/// Decides the next step of the snapshot protocol.
pub fn snapshot_step(len: usize, status: i32) -> (r: SnapshotStep)
    ensures
        r == next_snapshot_step(len, status),
{
    if status >= 0 {
        SnapshotStep::Done
    } else if status == STATUS_INFO_LENGTH_MISMATCH {
        if len <= usize::MAX - SNAPSHOT_GROWTH {
            SnapshotStep::Grow(len + SNAPSHOT_GROWTH)
        } else {
            SnapshotStep::Fail(FshcError::Other(UNCLASSIFIED))
        }
    } else {
        SnapshotStep::Fail(FshcError::Other(UNCLASSIFIED))
    }
}

/// Length of the buffer offered at attempt `k`, counting from zero.
pub open spec fn attempt_len(k: nat) -> int {
    INITIAL_SNAPSHOT_LEN + k * SNAPSHOT_GROWTH
}

/// A kernel that finds every buffer shorter than `needed` too small.
pub open spec fn stub_status(needed: nat, len: usize) -> i32 {
    if len >= needed {
        0
    } else {
        STATUS_INFO_LENGTH_MISMATCH
    }
}

/// Number of attempts that fall short of `needed` bytes.
pub open spec fn attempts_short_of(needed: nat) -> nat {
    if needed <= INITIAL_SNAPSHOT_LEN {
        0
    } else {
        ((needed - INITIAL_SNAPSHOT_LEN + SNAPSHOT_GROWTH - 1) / (SNAPSHOT_GROWTH as int)) as nat
    }
}

/// Against a kernel that finds every buffer under `needed` bytes too small,
/// the protocol grows the buffer from each attempt to the next while it is
/// short, and stops at the first attempt whose buffer is at least `needed`
/// bytes long.
pub proof fn lemma_growth_stops_at_first_fit(needed: nat)
    requires
        needed + SNAPSHOT_GROWTH <= usize::MAX,
    ensures
        ({
            let k = attempts_short_of(needed);
            &&& attempt_len(k) >= needed
            &&& attempt_len(k) <= usize::MAX
            &&& next_snapshot_step(
                attempt_len(k) as usize,
                stub_status(needed, attempt_len(k) as usize),
            ) == SnapshotStep::Done
            &&& forall|j: nat|
                j < k ==> {
                    &&& #[trigger] attempt_len(j) < needed
                    &&& next_snapshot_step(
                        attempt_len(j) as usize,
                        stub_status(needed, attempt_len(j) as usize),
                    ) == SnapshotStep::Grow(attempt_len(j + 1) as usize)
                }
        }),
{
    let k = attempts_short_of(needed);
    let g = SNAPSHOT_GROWTH as int;
    let i0 = INITIAL_SNAPSHOT_LEN as int;
    if needed > i0 {
        let d = needed - i0;
        assert(k * g >= d && (k - 1) * g < d) by (nonlinear_arith)
            requires
                k == (d + g - 1) / g,
                g > 0,
                d > 0,
        ;
        assert forall|j: nat| j < k implies #[trigger] attempt_len(j) < needed by {
            assert(j * g <= (k - 1) * g) by (nonlinear_arith)
                requires
                    j < k,
                    g > 0,
            ;
        }
    }
    assert forall|j: nat| j < k implies {
        &&& #[trigger] attempt_len(j) < needed
        &&& next_snapshot_step(
            attempt_len(j) as usize,
            stub_status(needed, attempt_len(j) as usize),
        ) == SnapshotStep::Grow(attempt_len(j + 1) as usize)
    } by {
        assert(attempt_len(j + 1) == attempt_len(j) + g);
        assert(attempt_len(j) >= 0);
    }
}

/// The name that the kernel gives to the type of file objects, as UTF-16.
pub open spec fn file_type_name() -> Seq<u16> {
    seq![0x46u16, 0x69u16, 0x6cu16, 0x65u16]
}

/// Whether a type name, as UTF-16, is exactly `File`.
pub fn is_file_type_name(name: &Vec<u16>) -> (r: bool)
    ensures
        r == (name@ == file_type_name()),
{
    let r = name.len() == 4 && name[0] == 0x46 && name[1] == 0x69 && name[2] == 0x6c
        && name[3] == 0x65;
    proof {
        if r {
            assert(name@ =~= file_type_name());
        }
    }
    r
}

/// Selects the records owned by process `pid`.
pub open spec fn owned_by(pid: u64) -> spec_fn(HandleEntry) -> bool {
    |e: HandleEntry| e.owner_pid == pid
}

/// Selects the records owned by process `pid` whose type tag is `tag`.
pub open spec fn owned_with_tag(pid: u64, tag: u16) -> spec_fn(HandleEntry) -> bool {
    |e: HandleEntry| e.owner_pid == pid && e.type_tag == tag
}

/// The records of `entries` that process `pid` owns, in order.
pub fn handles_of(entries: &Vec<HandleEntry>, pid: u64) -> (r: Vec<HandleEntry>)
    ensures
        r@ == entries@.filter(owned_by(pid)),
{
    let mut out: Vec<HandleEntry> = Vec::new();
    let mut i: usize = 0;
    while i < entries.len()
        invariant
            i <= entries@.len(),
            out@ == entries@.take(i as int).filter(owned_by(pid)),
        decreases entries@.len() - i,
    {
        proof {
            assert(entries@.take(i + 1) == entries@.take(i as int).push(entries@[i as int]));
            entries@.take(i as int).lemma_filter_push(entries@[i as int], owned_by(pid));
        }
        if entries[i].owner_pid == pid {
            out.push(entries[i]);
        }
        i = i + 1;
    }
    proof {
        assert(entries@.take(i as int) == entries@);
    }
    out
}

/// The type tag of the first of `owned` from index `i` on whose type name,
/// given at the same index of `names`, is `File`; `None` if none is.
pub open spec fn file_tag_from(owned: Seq<HandleEntry>, names: Seq<Vec<u16>>, i: nat) -> Option<
    u16,
>
    decreases owned.len() - i,
{
    if i >= owned.len() || i >= names.len() {
        None
    } else if names[i as int]@ == file_type_name() {
        Some(owned[i as int].type_tag)
    } else {
        file_tag_from(owned, names, i + 1)
    }
}

/// The type tag of file objects, learnt from the handles of the calling
/// process: `names[i]` is the type name of `owned[i]` (empty where it could
/// not be resolved), and the first handle named `File` gives the tag.
pub fn discover_file_tag(owned: &Vec<HandleEntry>, names: &Vec<Vec<u16>>) -> (r: Result<
    u16,
    FshcError,
>)
    ensures
        r == (match file_tag_from(owned@, names@, 0) {
            Some(t) => Ok::<u16, FshcError>(t),
            None => Err(FshcError::Other(NO_FILE_HANDLE)),
        }),
{
    let mut i: usize = 0;
    while i < owned.len() && i < names.len()
        invariant
            i <= owned@.len(),
            file_tag_from(owned@, names@, 0) == file_tag_from(owned@, names@, i as nat),
        decreases owned@.len() - i,
    {
        if is_file_type_name(&names[i]) {
            return Ok(owned[i].type_tag);
        }
        i = i + 1;
    }
    Err(FshcError::Other(NO_FILE_HANDLE))
}

/// Which handle of the calling process to ask the type name of next, given
/// the names learnt so far for the first of `owned`: the next one, while no
/// name so far is `File` and some handle is left; `None` once the tag is
/// known or every handle has been named.
pub fn next_name_to_query(owned: &Vec<HandleEntry>, names: &Vec<Vec<u16>>) -> (r: Option<usize>)
    ensures
        r == (if names@.len() < owned@.len() && file_tag_from(owned@, names@, 0).is_none() {
            Some(names@.len() as usize)
        } else {
            None::<usize>
        }),
{
    if names.len() < owned.len() {
        match discover_file_tag(owned, names) {
            Ok(_) => None,
            Err(_) => Some(names.len()),
        }
    } else {
        None
    }
}

/// Handles that process `pid` holds, and those of them whose type tag is
/// `tag`, counted over `entries`.
pub fn count_handles(entries: &Vec<HandleEntry>, pid: u64, tag: u16) -> (r: (u32, u32))
    requires
        entries@.len() <= u32::MAX,
    ensures
        r.0 == entries@.filter(owned_by(pid)).len(),
        r.1 == entries@.filter(owned_with_tag(pid, tag)).len(),
        r.1 <= r.0,
{
    let mut total: u32 = 0;
    let mut files: u32 = 0;
    let mut i: usize = 0;
    while i < entries.len()
        invariant
            i <= entries@.len(),
            entries@.len() <= u32::MAX,
            total == entries@.take(i as int).filter(owned_by(pid)).len(),
            files == entries@.take(i as int).filter(owned_with_tag(pid, tag)).len(),
            files <= total <= i,
        decreases entries@.len() - i,
    {
        proof {
            assert(entries@.take(i + 1) == entries@.take(i as int).push(entries@[i as int]));
            entries@.take(i as int).lemma_filter_push(entries@[i as int], owned_by(pid));
            entries@.take(i as int).lemma_filter_push(
                entries@[i as int],
                owned_with_tag(pid, tag),
            );
        }
        let e = entries[i];
        if e.owner_pid == pid {
            total = total + 1;
            if e.type_tag == tag {
                files = files + 1;
            }
        }
        i = i + 1;
    }
    proof {
        assert(entries@.take(i as int) == entries@);
    }
    (total, files)
}

/// The counts that a census of process `pid` over the snapshot `entries`
/// gives, once the type tag of file objects is known to be `tag`.
pub open spec fn table_stats(entries: Seq<HandleEntry>, pid: Pid, tag: u16) -> ProcStats {
    ProcStats {
        pid,
        total_descriptors: entries.filter(owned_by(pid as u64)).len() as u32,
        socket_descriptors: None,
        file_descriptors: Some(entries.filter(owned_with_tag(pid as u64, tag)).len() as u32),
    }
}

/// What a census of process `pid` over the snapshot `entries` gives, with
/// `names` the type names of the handles of the calling process `self_pid`.
pub open spec fn table_census(
    entries: Seq<HandleEntry>,
    pid: Pid,
    self_pid: u64,
    names: Seq<Vec<u16>>,
) -> Result<ProcStats, FshcError> {
    match file_tag_from(entries.filter(owned_by(self_pid)), names, 0) {
        Some(tag) => Ok(table_stats(entries, pid, tag)),
        None => Err(FshcError::Other(NO_FILE_HANDLE)),
    }
}

impl FdList {
    /// Counts the handles of process `pid` in a snapshot of the system's
    /// handle table, in total only: no type tag is needed for that.
    pub fn count_total(pid: Pid, entries: &Vec<HandleEntry>) -> (r: ProcStats)
        requires
            entries@.len() <= u32::MAX,
        ensures
            r.pid == pid,
            r.total_descriptors == entries@.filter(owned_by(pid as u64)).len(),
            r.socket_descriptors.is_none(),
            r.file_descriptors.is_none(),
    {
        let (total, _) = count_handles(entries, pid as u64, 0);
        ProcStats { pid, total_descriptors: total, socket_descriptors: None, file_descriptors: None }
    }

    /// Counts the handles of process `pid` in a snapshot of the system's
    /// handle table. `names[i]` is the type name, as UTF-16, of the `i`-th
    /// handle that the calling process `self_pid` holds in the snapshot (see
    /// `handles_of`); it fixes which type tag marks file objects. Sockets are
    /// not told apart from other objects here, so no socket count is given.
    pub fn list(
        pid: Pid,
        entries: &Vec<HandleEntry>,
        self_pid: u64,
        names: &Vec<Vec<u16>>,
    ) -> (r: Result<ProcStats, FshcError>)
        requires
            entries@.len() <= u32::MAX,
        ensures
            r == table_census(entries@, pid, self_pid, names@),
            r matches Ok(s) ==> s.wf() && s.socket_descriptors.is_none(),
    {
        let own = handles_of(entries, self_pid);
        let tag = match discover_file_tag(&own, names) {
            Ok(t) => t,
            Err(e) => return Err(e),
        };
        let (total, files) = count_handles(entries, pid as u64, tag);
        Ok(
            ProcStats {
                pid,
                total_descriptors: total,
                socket_descriptors: None,
                file_descriptors: Some(files),
            },
        )
    }
}

/// The handles of a type are among the handles of their owner.
proof fn lemma_tagged_within_owned(s: Seq<HandleEntry>, pid: u64, tag: u16)
    ensures
        s.filter(owned_with_tag(pid, tag)).len() <= s.filter(owned_by(pid)).len(),
        s.filter(owned_by(pid)).len() <= s.len(),
    decreases s.len(),
{
    if s.len() > 0 {
        let init = s.drop_last();
        lemma_tagged_within_owned(init, pid, tag);
        assert(s == init.push(s.last()));
        init.lemma_filter_push(s.last(), owned_by(pid));
        init.lemma_filter_push(s.last(), owned_with_tag(pid, tag));
    }
}

/// A process that owns no record of the snapshot owns no handle of any type.
proof fn lemma_unowned_filters_empty(s: Seq<HandleEntry>, pid: u64, tag: u16)
    requires
        forall|i: int| 0 <= i < s.len() ==> (#[trigger] s[i]).owner_pid != pid,
    ensures
        s.filter(owned_by(pid)).len() == 0,
        s.filter(owned_with_tag(pid, tag)).len() == 0,
    decreases s.len(),
{
    if s.len() > 0 {
        let init = s.drop_last();
        assert forall|i: int| 0 <= i < init.len() implies (#[trigger] init[i]).owner_pid != pid by {
            assert(init[i] == s[i]);
        }
        lemma_unowned_filters_empty(init, pid, tag);
        assert(s == init.push(s.last()));
        init.lemma_filter_push(s.last(), owned_by(pid));
        init.lemma_filter_push(s.last(), owned_with_tag(pid, tag));
    }
}

/// The file count of a census over the table never exceeds its total, and no
/// socket count is given.
pub proof fn lemma_table_within_total(entries: Seq<HandleEntry>, pid: Pid, tag: u16)
    requires
        entries.len() <= u32::MAX,
    ensures
        table_stats(entries, pid, tag).wf(),
        table_stats(entries, pid, tag).socket_descriptors.is_none(),
{
    lemma_tagged_within_owned(entries, pid as u64, tag);
}

/// A pid that owns no record of the snapshot, such as one that no process
/// has, is no error here: the census succeeds with every count zero, as long
/// as the type tag of files can be learnt.
pub proof fn lemma_absent_pid_counts_zero(
    entries: Seq<HandleEntry>,
    pid: Pid,
    self_pid: u64,
    names: Seq<Vec<u16>>,
)
    requires
        forall|i: int| 0 <= i < entries.len() ==> (#[trigger] entries[i]).owner_pid != pid as u64,
        file_tag_from(entries.filter(owned_by(self_pid)), names, 0).is_some(),
    ensures
        table_census(entries, pid, self_pid, names) matches Ok(s) && s.total_descriptors == 0
            && s.file_descriptors == Some(0u32),
{
    let tag = file_tag_from(entries.filter(owned_by(self_pid)), names, 0).unwrap();
    lemma_unowned_filters_empty(entries, pid as u64, tag);
}

proof fn lemma_no_file_name_from(owned: Seq<HandleEntry>, names: Seq<Vec<u16>>, i: nat)
    requires
        forall|j: int| 0 <= j < names.len() ==> (#[trigger] names[j])@ != file_type_name(),
    ensures
        file_tag_from(owned, names, i).is_none(),
    decreases owned.len() - i,
{
    if i < owned.len() && i < names.len() {
        lemma_no_file_name_from(owned, names, i + 1);
    }
}

/// When no handle of the calling process has a type named `File`, the
/// census fails as `Other`, saying so, and never counts.
pub proof fn lemma_no_file_handle_fails(
    entries: Seq<HandleEntry>,
    pid: Pid,
    self_pid: u64,
    names: Seq<Vec<u16>>,
)
    requires
        forall|j: int| 0 <= j < names.len() ==> (#[trigger] names[j])@ != file_type_name(),
    ensures
        table_census(entries, pid, self_pid, names) == Err::<ProcStats, FshcError>(
            FshcError::Other(NO_FILE_HANDLE),
        ),
{
    lemma_no_file_name_from(entries.filter(owned_by(self_pid)), names, 0);
}

/// Two censuses over the same snapshot, pid and type names give identical
/// results.
pub proof fn lemma_table_census_idempotent(
    entries: Seq<HandleEntry>,
    pid: Pid,
    self_pid: u64,
    names: Seq<Vec<u16>>,
    first: Result<ProcStats, FshcError>,
    second: Result<ProcStats, FshcError>,
)
    requires
        first == table_census(entries, pid, self_pid, names),
        second == table_census(entries, pid, self_pid, names),
    ensures
        first == second,
{
}

} // verus!
