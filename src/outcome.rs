//! The result of one descriptor census, the errors a census can end in, and
//! the exit status each error stands for.
use vstd::prelude::*;

verus! {

/// Process identifier, as the operating system numbers it.
pub type Pid = u32;

/// Largest process identifier that the library accepts.
pub const PID_LIMIT: u32 = 99_999;

/// A process identifier that a caller may hand to a census.
pub open spec fn pid_in_range(pid: u32) -> bool {
    1 <= pid && pid <= PID_LIMIT
}

/// sysexits::ExitCode, with its variants visible: each error names the
/// status it stands for.
#[verifier::external_type_specification]
pub struct ExExitCode(sysexits::ExitCode);

/// Whether a census counts descriptors by kind or only in total.
#[derive(Clone, Copy, Debug, PartialEq, Eq, Structural)]
pub enum QueryMode {
    TotalOnly,
    Detailed,
}

/// Descriptor counts of one process.
#[derive(Clone, Copy, Debug)]
pub struct ProcStats {
    pub pid: Pid,
    pub total_descriptors: u32,
    pub socket_descriptors: Option<u32>,
    pub file_descriptors: Option<u32>,
}

/// An optional count, with an absent one counting as zero.
pub open spec fn count_or_zero(c: Option<u32>) -> nat {
    match c {
        Some(n) => n as nat,
        None => 0,
    }
}

impl ProcStats {
    /// The breakdown never claims more descriptors than the total.
    pub open spec fn wf(self) -> bool {
        count_or_zero(self.socket_descriptors) + count_or_zero(self.file_descriptors)
            <= self.total_descriptors
    }

    /// Both optional counts are present, or both are absent.
    pub open spec fn paired(self) -> bool {
        self.socket_descriptors.is_some() == self.file_descriptors.is_some()
    }

    /// The shape that a query mode asks for: no breakdown at all for
    /// `TotalOnly`, both counts for `Detailed`.
    pub open spec fn has_shape(self, mode: QueryMode) -> bool {
        match mode {
            QueryMode::TotalOnly => self.socket_descriptors.is_none()
                && self.file_descriptors.is_none(),
            QueryMode::Detailed => self.socket_descriptors.is_some()
                && self.file_descriptors.is_some(),
        }
    }

    /// Counts of `pid` with every count zero, to be filled in by a census.
    pub fn new(pid: Pid) -> (r: ProcStats)
        ensures
            r.pid == pid,
            r.total_descriptors == 0,
            r.socket_descriptors == Some(0u32),
            r.file_descriptors == Some(0u32),
            r.wf(),
            r.paired(),
    {
        ProcStats {
            pid,
            total_descriptors: 0,
            socket_descriptors: Some(0),
            file_descriptors: Some(0),
        }
    }
}

/// What is printed when a query fails: a summary and the error's own text.
pub struct Failure<'a> {
    pub message: &'a str,
    pub details: &'a str,
}

/// Text of an `Other` failure with nothing more to say.
pub const UNCLASSIFIED: &'static str = "failed to fetch file descriptor details for the target process";

/// Text of the failure to learn the type tag of file objects: the calling
/// process holds no handle whose type is named `File`.
pub const NO_FILE_HANDLE: &'static str = "failed to find file handles in the current process";

/// Why a query failed.
#[derive(Clone, Debug)]
pub enum FshcError {
    /// The pid lies outside `1..=PID_LIMIT`.
    PidOutOfRange,
    /// No process has the pid, or it cannot be looked up as one.
    InvalidInput,
    /// The caller may not inspect the process's descriptors.
    PermissionDenied,
    /// Reading what the kernel exposes failed, or what it gave was malformed.
    IoError,
    /// A platform call failed for a reason with no finer class; the text
    /// says what failed.
    Other(&'static str),
    /// A platform call failed; the text is what the platform said.
    Errno(String),
}

/// The text of each error.
pub open spec fn message_of(e: FshcError) -> Seq<char> {
    match e {
        FshcError::PidOutOfRange => "only pid numbers between 1 and 99999 are supported"@,
        FshcError::InvalidInput => "could not locate a process for the given pid"@,
        FshcError::PermissionDenied =>
            "insufficient permission to inspect file descriptors of the target process"@,
        FshcError::IoError => "failed to fetch file descriptor details for the target process"@,
        FshcError::Other(d) => d@,
        FshcError::Errno(s) => s@,
    }
}

impl FshcError {
    /// The error's text.
    pub fn to_string(&self) -> (r: String)
        ensures
            r@ == message_of(*self),
    {
        match self {
            FshcError::PidOutOfRange => String::from_str(
                "only pid numbers between 1 and 99999 are supported",
            ),
            FshcError::InvalidInput => String::from_str("could not locate a process for the given pid"),
            FshcError::PermissionDenied => String::from_str(
                "insufficient permission to inspect file descriptors of the target process",
            ),
            FshcError::IoError => String::from_str(
                "failed to fetch file descriptor details for the target process",
            ),
            FshcError::Other(d) => String::from_str(d),
            FshcError::Errno(s) => s.clone(),
        }
    }
}

/// The exit status that each error stands for.
pub open spec fn exit_code_of(e: FshcError) -> sysexits::ExitCode {
    match e {
        FshcError::PidOutOfRange => sysexits::ExitCode::DataErr,
        FshcError::InvalidInput => sysexits::ExitCode::DataErr,
        FshcError::PermissionDenied => sysexits::ExitCode::NoPerm,
        FshcError::IoError => sysexits::ExitCode::IoErr,
        FshcError::Other(_) => sysexits::ExitCode::OsErr,
        FshcError::Errno(_) => sysexits::ExitCode::OsErr,
    }
}

/// A value that decides the exit status of the program.
pub trait ExitCodeProvider {
    spec fn spec_exit_code(&self) -> sysexits::ExitCode;

    fn exit_code(&self) -> (r: sysexits::ExitCode)
        ensures
            r == self.spec_exit_code(),
    ;
}

impl ExitCodeProvider for FshcError {
    open spec fn spec_exit_code(&self) -> sysexits::ExitCode {
        exit_code_of(*self)
    }

    fn exit_code(&self) -> (r: sysexits::ExitCode) {
        match self {
            FshcError::PidOutOfRange => sysexits::ExitCode::DataErr,
            FshcError::InvalidInput => sysexits::ExitCode::DataErr,
            FshcError::PermissionDenied => sysexits::ExitCode::NoPerm,
            FshcError::IoError => sysexits::ExitCode::IoErr,
            FshcError::Other(_) => sysexits::ExitCode::OsErr,
            FshcError::Errno(_) => sysexits::ExitCode::OsErr,
        }
    }
}

impl From<String> for FshcError {
    fn from(value: String) -> (r: FshcError) {
        FshcError::Errno(value)
    }
}

impl vstd::std_specs::convert::FromSpecImpl<String> for FshcError {
    open spec fn obeys_from_spec() -> bool {
        true
    }

    open spec fn from_spec(v: String) -> FshcError {
        FshcError::Errno(v)
    }
}

/// std::io::Error, carried until its kind is told apart.
#[verifier::external_type_specification]
#[verifier::external_body]
pub struct ExIoError(std::io::Error);

/// The kinds of I/O failure that decide an error or an exit status; every
/// other kind is `Unlisted`.
#[derive(Clone, Copy, Debug, PartialEq, Eq, Structural)]
pub enum IoErrorKind {
    PermissionDenied,
    NotFound,
    InvalidInput,
    BrokenPipe,
    Unlisted,
}

/// The kind of an I/O error, as `IoErrorKind` groups them.
pub uninterp spec fn io_kind_of(e: std::io::Error) -> IoErrorKind;

/// Relies on std::io::Error::kind: tells apart the kinds that `IoErrorKind`
/// names; the kind is a property of the error value alone.
#[verifier::external_body]
fn io_error_kind(e: &std::io::Error) -> (r: IoErrorKind)
    ensures
        r == io_kind_of(*e),
{
    match e.kind() {
        std::io::ErrorKind::PermissionDenied => IoErrorKind::PermissionDenied,
        std::io::ErrorKind::NotFound => IoErrorKind::NotFound,
        std::io::ErrorKind::InvalidInput => IoErrorKind::InvalidInput,
        std::io::ErrorKind::BrokenPipe => IoErrorKind::BrokenPipe,
        _ => IoErrorKind::Unlisted,
    }
}

/// The error that an I/O failure of kind `k` stands for.
pub open spec fn error_of_io(k: IoErrorKind) -> FshcError {
    match k {
        IoErrorKind::PermissionDenied => FshcError::PermissionDenied,
        IoErrorKind::NotFound => FshcError::InvalidInput,
        IoErrorKind::InvalidInput => FshcError::InvalidInput,
        IoErrorKind::BrokenPipe => FshcError::IoError,
        IoErrorKind::Unlisted => FshcError::Other(UNCLASSIFIED),
    }
}

impl From<IoErrorKind> for FshcError {
    fn from(k: IoErrorKind) -> (r: FshcError) {
        match k {
            IoErrorKind::PermissionDenied => FshcError::PermissionDenied,
            IoErrorKind::NotFound => FshcError::InvalidInput,
            IoErrorKind::InvalidInput => FshcError::InvalidInput,
            IoErrorKind::BrokenPipe => FshcError::IoError,
            IoErrorKind::Unlisted => FshcError::Other(UNCLASSIFIED),
        }
    }
}

impl vstd::std_specs::convert::FromSpecImpl<IoErrorKind> for FshcError {
    open spec fn obeys_from_spec() -> bool {
        true
    }

    open spec fn from_spec(k: IoErrorKind) -> FshcError {
        error_of_io(k)
    }
}

impl FshcError {
    /// The error that an I/O failure stands for, by its kind.
    pub fn from_io(e: &std::io::Error) -> (r: FshcError)
        ensures
            r == error_of_io(io_kind_of(*e)),
    {
        FshcError::from(io_error_kind(e))
    }
}

/// The exit status that an I/O failure of kind `k` stands for.
pub open spec fn exit_code_of_io(k: IoErrorKind) -> sysexits::ExitCode {
    match k {
        IoErrorKind::PermissionDenied => sysexits::ExitCode::NoPerm,
        IoErrorKind::NotFound => sysexits::ExitCode::DataErr,
        IoErrorKind::InvalidInput => sysexits::ExitCode::DataErr,
        IoErrorKind::BrokenPipe => sysexits::ExitCode::IoErr,
        IoErrorKind::Unlisted => sysexits::ExitCode::DataErr,
    }
}

impl ExitCodeProvider for IoErrorKind {
    open spec fn spec_exit_code(&self) -> sysexits::ExitCode {
        exit_code_of_io(*self)
    }

    fn exit_code(&self) -> (r: sysexits::ExitCode) {
        match self {
            IoErrorKind::PermissionDenied => sysexits::ExitCode::NoPerm,
            IoErrorKind::NotFound => sysexits::ExitCode::DataErr,
            IoErrorKind::InvalidInput => sysexits::ExitCode::DataErr,
            IoErrorKind::BrokenPipe => sysexits::ExitCode::IoErr,
            IoErrorKind::Unlisted => sysexits::ExitCode::DataErr,
        }
    }
}

/// The outcome of a query.
pub type FshcResult = Result<ProcStats, FshcError>;

} // verus!
