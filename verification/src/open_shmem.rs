//! How shared memory is opened: the system calls that it takes, and what follows from each answer.

use vstd::layout::size_of;
use vstd::pervasive::unreached;
use vstd::prelude::*;

use crate::errno::{CallError, Errno, SysError};
use crate::init::{may_answer, Error, Init};
use crate::shared_memory::{mmap_file, page_ceil, up_to_page_size, Mmap, OpenError, SharedMemory};
use crate::shared_mutex::{RawSharedMutex, SharedMutex};
use crate::text::{
    bytes_of, decimal, first_zero, is_all_digits, is_first_zero, law_decimal_reads_back,
    law_signed_decimal_reads_back, number_read, push_signed_decimal, signed_decimal,
};

verus! {

/// How a file is opened.
#[derive(Clone, Copy, Debug, PartialEq, Eq, Structural)]
pub struct OpenFlags {
    /// For reading and writing.
    pub read_write: bool,
    /// Closed when another program is executed.
    pub close_on_exec: bool,
    /// A new file without a name, in the directory that the path gives.
    pub tmpfile: bool,
}

/// How a file is mapped.
#[derive(Clone, Copy, Debug, PartialEq, Eq, Structural)]
pub struct MapFlags {
    /// The memory can be read.
    pub read: bool,
    /// The memory can be written.
    pub write: bool,
    /// Writes are seen by all who map the file.
    pub shared: bool,
    /// No swap space is set aside.
    pub noreserve: bool,
    /// The pages are brought in at once.
    pub populate: bool,
}

/// A system call that is due.
pub enum Action<'b> {
    /// Ask for the type of the file system that holds the path.
    Statfs { path: &'b [u8] },
    /// Open a file, with an empty mode.
    Open { path: &'b [u8], flags: OpenFlags, mode: u32 },
    /// Set the owner and the permissions of the open file, in the directory that the path gives.
    ApplyOptions { fd: i32, path: &'b [u8] },
    /// Set the length of the open file.
    Truncate { fd: i32, len: i64 },
    /// Map values of the shared type from the open file, starting at an offset.
    Mmap { fd: i32, offset: u64, count: usize, mapping: MapFlags },
    /// Give the file at one path, following symbolic links, another path. Both end in a zero byte.
    Link { from: Vec<u8>, to: Vec<u8>, follow_symlink: bool },
}

/// What a system call came to.
pub enum Answer<'a, T> {
    /// The type of the file system.
    Statfs(Result<i64, CallError>),
    /// The descriptor of the open file.
    Open(Result<i32, CallError>),
    /// The text of the error, if there was one.
    ApplyOptions(Result<(), String>),
    /// Whether the length was set.
    Truncate(Result<(), CallError>),
    /// The mapping, or the text of the error.
    Mmap(Result<Mmap<'a, T>, String>),
    /// Whether the file has its other path.
    Link(Result<(), CallError>),
}

/// Where the operation stands: the system call that comes next, with what it needs.
pub enum State<'a, T> {
    /// Check the file system.
    Statfs,
    /// Open a file that exists.
    OpenExisting,
    /// Map the file that existed.
    MapExisting { fd: i32 },
    /// Create a file without a name.
    OpenTmpfile,
    /// Set up the new file.
    ApplyOptions { fd: i32 },
    /// Make room in the new file.
    Truncate { fd: i32 },
    /// Map the new file.
    MapNew { fd: i32 },
    /// Put the new file in its place.
    Link { fd: i32, mmap: Mmap<'a, T> },
    /// Open the file that somebody else put there first.
    Reopen,
    /// Map the file that somebody else put there first.
    MapReopened { fd: i32 },
}

/// An operation that opens shared memory, between two system calls.
pub struct OpenShmem<'a, T> {
    /// The file to share.
    pub path: Vec<u8>,
    /// Its directory.
    pub dir: Vec<u8>,
    /// Where the operation stands.
    pub state: State<'a, T>,
}

/// What an answer leads to.
pub enum Step<'a, T> {
    /// Another system call.
    Next(OpenShmem<'a, T>),
    /// The end.
    Done(Result<Mmap<'a, T>, OpenError>),
}

/// The number by which a `tmpfs` is known.
pub open spec fn tmpfs_type() -> i64 {
    0x0102_1994
}

/// `nix::sys::statfs::TMPFS_MAGIC`.
///
/// Claimed: it is the number below.
#[verifier::external_body]
fn nix_tmpfs_magic() -> (magic: i64)
    ensures
        magic == tmpfs_type(),
{
    nix::sys::statfs::TMPFS_MAGIC.0 as i64
}

/// The path under which the kernel shows an open file of this process, with a zero byte.
pub open spec fn proc_path(fd: i32) -> Seq<u8> {
    bytes_of("/proc/self/fd/"@) + signed_decimal(fd as int) + seq![0u8]
}

/// The path under which the kernel shows an open file of this process, with a zero byte.
pub fn proc_fd_path(fd: i32) -> (path: Vec<u8>)
    ensures
        path@ == proc_path(fd),
{
    let prefix: &[u8] = "/proc/self/fd/".as_bytes();
    proof {
        reveal_strlit("/proc/self/fd/");
        vstd::string::is_ascii_spec_bytes("/proc/self/fd/");
        assert(prefix@ =~= bytes_of("/proc/self/fd/"@));
    }
    let mut path: Vec<u8> = Vec::new();
    path.extend_from_slice(prefix);
    assert(path@ =~= prefix@);
    push_signed_decimal(&mut path, fd);
    path.push(0);
    assert(path@ =~= proc_path(fd));
    path
}

/// The way in which existing files are opened.
pub open spec fn existing_flags() -> OpenFlags {
    OpenFlags { read_write: true, close_on_exec: true, tmpfile: false }
}

/// The way in which a new file is created.
pub open spec fn tmpfile_flags() -> OpenFlags {
    OpenFlags { read_write: true, close_on_exec: true, tmpfile: true }
}

/// The way in which files are mapped.
pub open spec fn map_flags() -> MapFlags {
    MapFlags { read: true, write: true, shared: true, noreserve: true, populate: true }
}

impl<'a, T> State<'a, T> {
    /// The answer belongs to the system call that comes next.
    pub open spec fn expects(self, answer: Answer<'a, T>) -> bool {
        match self {
            State::Statfs => answer is Statfs,
            State::OpenExisting | State::OpenTmpfile | State::Reopen => answer is Open,
            State::MapExisting { .. } | State::MapNew { .. } | State::MapReopened { .. } =>
                answer is Mmap,
            State::ApplyOptions { .. } => answer is ApplyOptions,
            State::Truncate { .. } => answer is Truncate,
            State::Link { .. } => answer is Link,
        }
    }

    /// The file that has to be open for the system call that comes next.
    pub open spec fn needed_fd(self) -> Option<i32> {
        match self {
            State::MapExisting { fd }
            | State::ApplyOptions { fd }
            | State::Truncate { fd }
            | State::MapNew { fd }
            | State::Link { fd, .. }
            | State::MapReopened { fd } => Some(fd),
            State::Statfs | State::OpenExisting | State::OpenTmpfile | State::Reopen => None,
        }
    }

    /// The number of system calls that may still follow, this one included.
    pub open spec fn calls_left(self) -> nat {
        match self {
            State::Statfs => 9,
            State::OpenExisting => 8,
            State::OpenTmpfile => 7,
            State::ApplyOptions { .. } => 6,
            State::Truncate { .. } => 5,
            State::MapNew { .. } => 4,
            State::Link { .. } => 3,
            State::Reopen => 2,
            State::MapReopened { .. } => 1,
            State::MapExisting { .. } => 1,
        }
    }
}

impl<'a, T: Init> OpenShmem<'a, T> {
    /// The operation for a path in a directory, at its start.
    pub open spec fn starts(
        path: Vec<u8>,
        dir_name: Option<Vec<u8>>,
        on_tmpfs: bool,
        result: Result<OpenShmem<'a, T>, OpenError>,
    ) -> bool {
        match dir_name {
            None => result == Err::<OpenShmem<'a, T>, OpenError>(OpenError::BadPath),
            Some(dir) => result == Ok::<OpenShmem<'a, T>, OpenError>(
                OpenShmem {
                    path,
                    dir,
                    state: if on_tmpfs {
                        State::Statfs
                    } else {
                        State::OpenExisting
                    },
                },
            ),
        }
    }

    /// The operation in another state.
    pub open spec fn at(self, state: State<'a, T>) -> Self {
        OpenShmem { state, ..self }
    }

    /// `action` is the system call that comes next.
    pub open spec fn asks_for(self, action: Action<'_>) -> bool {
        match self.state {
            State::Statfs => action matches Action::Statfs { path } && path@ == self.dir@,
            State::OpenExisting | State::Reopen => action matches Action::Open { path, flags, mode }
                && path@ == self.path@ && flags == existing_flags() && mode == 0,
            State::OpenTmpfile => action matches Action::Open { path, flags, mode }
                && path@ == self.dir@ && flags == tmpfile_flags() && mode == 0,
            State::ApplyOptions { fd: file } => action matches Action::ApplyOptions { fd, path }
                && fd == file && path@ == self.dir@,
            State::Truncate { fd: file } => action matches Action::Truncate { fd, len } && fd
                == file && len == page_ceil(size_of::<T>()) as i64,
            State::MapExisting { fd: file }
            | State::MapNew { fd: file }
            | State::MapReopened { fd: file } => action matches Action::Mmap {
                fd,
                offset,
                count,
                mapping,
            } && fd == file && offset == 0 && count == 1 && mapping == map_flags(),
            State::Link { fd, mmap } => action matches Action::Link { from, to, follow_symlink }
                && from@ == proc_path(fd) && to@ == self.path@.push(0) && follow_symlink,
        }
    }

    /// What mapping a file that existed leads to: the memory is taken as it is, if it has its
    /// type.
    pub open spec fn existing_leads_to(
        mapped: Result<Mmap<'a, T>, String>,
        step: Step<'a, T>,
    ) -> bool {
        match mapped {
            Err(text) => step == Step::<'a, T>::Done(Err(OpenError::Other(text))),
            Ok(mmap) => {
                ||| may_answer(*mmap.region, Ok(())) && step == Step::<'a, T>::Done(Ok(mmap))
                ||| exists|err: Error| #[trigger]
                    may_answer(*mmap.region, Err(err)) && step == Step::<'a, T>::Done(
                        Err(OpenError::WrongTypes(err)),
                    )
            },
        }
    }

    /// What mapping the new file leads to: the memory is initialized, and if it then has its type
    /// the file is ready for its place.
    pub open spec fn new_leads_to(
        self,
        fd: i32,
        mapped: Result<Mmap<'a, T>, String>,
        step: Step<'a, T>,
    ) -> bool {
        match mapped {
            Err(text) => step == Step::<'a, T>::Done(Err(OpenError::Other(text))),
            Ok(before) => match step {
                Step::Next(next) => {
                    &&& next.state is Link
                    &&& next == self.at(State::Link { fd, mmap: next.state->Link_mmap })
                    &&& T::initializes(*before.region, *next.state->Link_mmap.region)
                    &&& may_answer(*next.state->Link_mmap.region, Ok(()))
                    &&& !self.path@.contains(0)
                },
                Step::Done(Err(OpenError::NulInPath(place))) => is_first_zero(self.path@, place)
                    && exists|after: T| #[trigger]
                    T::initializes(*before.region, after) && may_answer(after, Ok(())),
                Step::Done(Err(OpenError::WrongTypes(err))) => exists|after: T| #[trigger]
                    T::initializes(*before.region, after) && may_answer(after, Err(err)),
                _ => false,
            },
        }
    }

    /// `step` is what the answer leads to.
    pub open spec fn leads_to(self, answer: Answer<'a, T>, step: Step<'a, T>) -> bool {
        match (self.state, answer) {
            (State::Statfs, Answer::Statfs(answer)) => step == match answer {
                Ok(fs_type) => if fs_type == tmpfs_type() {
                    Step::Next(self.at(State::OpenExisting))
                } else {
                    Step::Done(Err(OpenError::NotTmpfs))
                },
                Err(err) => Step::Done(Err(OpenError::Sys(SysError::of_call(err)))),
            },
            (State::OpenExisting, Answer::Open(answer)) => step == match answer {
                Ok(fd) => Step::Next(self.at(State::MapExisting { fd })),
                Err(err) => if SysError::of_call(err).is_not_found() {
                    Step::Next(self.at(State::OpenTmpfile))
                } else {
                    Step::Done(Err(OpenError::Open(SysError::of_call(err))))
                },
            },
            (State::MapExisting { .. }, Answer::Mmap(mapped)) => Self::existing_leads_to(
                mapped,
                step,
            ),
            (State::OpenTmpfile, Answer::Open(answer)) => step == match answer {
                Ok(fd) => Step::Next(self.at(State::ApplyOptions { fd })),
                Err(err) => Step::Done(Err(OpenError::OpenTmpfile(SysError::of_call(err)))),
            },
            (State::ApplyOptions { fd }, Answer::ApplyOptions(answer)) => step == match answer {
                Ok(()) => Step::Next(self.at(State::Truncate { fd })),
                Err(text) => Step::Done(Err(OpenError::Other(text))),
            },
            (State::Truncate { fd }, Answer::Truncate(answer)) => step == match answer {
                Ok(()) => Step::Next(self.at(State::MapNew { fd })),
                Err(err) => Step::Done(Err(OpenError::Sys(SysError::of_call(err)))),
            },
            (State::MapNew { fd }, Answer::Mmap(mapped)) => self.new_leads_to(fd, mapped, step),
            (State::Link { mmap, .. }, Answer::Link(answer)) => step == match answer {
                Ok(()) => Step::Done(Ok(mmap)),
                Err(err) => if SysError::of_call(err) == SysError::Errno(Errno::EEXIST) {
                    Step::Next(self.at(State::Reopen))
                } else {
                    Step::Done(Err(OpenError::Sys(SysError::of_call(err))))
                },
            },
            (State::Reopen, Answer::Open(answer)) => step == match answer {
                Ok(fd) => Step::Next(self.at(State::MapReopened { fd })),
                Err(err) => Step::Done(Err(OpenError::Open(SysError::of_call(err)))),
            },
            (State::MapReopened { .. }, Answer::Mmap(mapped)) => Self::existing_leads_to(
                mapped,
                step,
            ),
            _ => false,
        }
    }

    /// The operation for a path in a directory, at its start.
    pub fn new(path: Vec<u8>, dir: Vec<u8>, on_tmpfs: bool) -> (op: Self)
        ensures
            Self::starts(path, Some(dir), on_tmpfs, Ok(op)),
    {
        let state = if on_tmpfs {
            State::Statfs
        } else {
            State::OpenExisting
        };
        OpenShmem { path, dir, state }
    }

    /// The system call that comes next.
    pub fn action(&self) -> (action: Action<'_>)
        ensures
            self.asks_for(action),
    {
        let existing = OpenFlags { read_write: true, close_on_exec: true, tmpfile: false };
        let tmpfile = OpenFlags { read_write: true, close_on_exec: true, tmpfile: true };
        let mapping = MapFlags {
            read: true,
            write: true,
            shared: true,
            noreserve: true,
            populate: true,
        };
        match &self.state {
            State::Statfs => Action::Statfs { path: self.dir.as_slice() },
            State::OpenExisting => Action::Open {
                path: self.path.as_slice(),
                flags: existing,
                mode: 0,
            },
            State::Reopen => Action::Open { path: self.path.as_slice(), flags: existing, mode: 0 },
            State::OpenTmpfile => Action::Open {
                path: self.dir.as_slice(),
                flags: tmpfile,
                mode: 0,
            },
            State::ApplyOptions { fd } => Action::ApplyOptions {
                fd: *fd,
                path: self.dir.as_slice(),
            },
            State::Truncate { fd } => {
                vstd::layout::layout_for_type_is_valid::<T>();
                let size: usize = up_to_page_size(std::mem::size_of::<T>());
                Action::Truncate { fd: *fd, len: size as i64 }
            },
            State::MapExisting { fd } => Action::Mmap {
                fd: *fd,
                offset: 0,
                count: 1,
                mapping,
            },
            State::MapNew { fd } => Action::Mmap { fd: *fd, offset: 0, count: 1, mapping },
            State::MapReopened { fd } => Action::Mmap {
                fd: *fd,
                offset: 0,
                count: 1,
                mapping,
            },
            State::Link { fd, .. } => {
                let mut to: Vec<u8> = Vec::new();
                to.extend_from_slice(self.path.as_slice());
                assert(to@ =~= self.path@);
                to.push(0);
                Action::Link { from: proc_fd_path(*fd), to, follow_symlink: true }
            },
        }
    }

    /// The file that has to stay open for the system call that comes next. A file that was opened
    /// and is no longer named here is closed; so is every file when the operation is done.
    pub fn open_file(&self) -> (fd: Option<i32>)
        ensures
            fd == self.state.needed_fd(),
    {
        match &self.state {
            State::MapExisting { fd } => Some(*fd),
            State::ApplyOptions { fd } => Some(*fd),
            State::Truncate { fd } => Some(*fd),
            State::MapNew { fd } => Some(*fd),
            State::Link { fd, .. } => Some(*fd),
            State::MapReopened { fd } => Some(*fd),
            _ => None,
        }
    }

    /// Goes on with what the system call came to.
    ///
    /// Memory of a file that was there, and of a new file that does not get its place, is left as
    /// it is when it is given up; memory of a new file that is refused keeps what its
    /// initialization left.
    pub fn step(self, answer: Answer<'a, T>) -> (step: Step<'a, T>)
        requires
            self.state.expects(answer),
        ensures
            self.leads_to(answer, step),
            match (self.state, answer, step) {
                (
                    State::MapNew { .. },
                    Answer::Mmap(Ok(before)),
                    Step::Next(next),
                ) => *final(next.state->Link_mmap.region) == *final(before.region),
                (State::MapNew { .. }, Answer::Mmap(Ok(before)), Step::Done(result)) => {
                    &&& T::initializes(*before.region, *final(before.region))
                    &&& match result {
                        Err(OpenError::WrongTypes(err)) => may_answer(
                            *final(before.region),
                            Err(err),
                        ),
                        _ => may_answer(*final(before.region), Ok(())),
                    }
                },
                (
                    State::MapExisting { .. } | State::MapReopened { .. },
                    Answer::Mmap(Ok(before)),
                    Step::Done(Err(_)),
                ) => *final(before.region) == *before.region,
                (State::Link { mmap, .. }, _, Step::Next(_) | Step::Done(Err(_))) =>
                    *final(mmap.region) == *mmap.region,
                _ => true,
            },
    {
        let OpenShmem { path, dir, state } = self;
        match (state, answer) {
            (State::Statfs, Answer::Statfs(Ok(fs_type))) => {
                if fs_type != nix_tmpfs_magic() {
                    Step::Done(Err(OpenError::NotTmpfs))
                } else {
                    Step::Next(OpenShmem { path, dir, state: State::OpenExisting })
                }
            },
            (State::Statfs, Answer::Statfs(Err(err))) => Step::Done(
                Err(OpenError::Sys(SysError::from_call(err))),
            ),
            (State::OpenExisting, Answer::Open(Ok(fd))) => Step::Next(
                OpenShmem { path, dir, state: State::MapExisting { fd } },
            ),
            (State::OpenExisting, Answer::Open(Err(err))) => {
                let err = SysError::from_call(err);
                if err.not_found() {
                    Step::Next(OpenShmem { path, dir, state: State::OpenTmpfile })
                } else {
                    Step::Done(Err(OpenError::Open(err)))
                }
            },
            (State::MapExisting { .. }, Answer::Mmap(mapped)) => Step::Done(
                mmap_file(mapped, false),
            ),
            (State::OpenTmpfile, Answer::Open(Ok(fd))) => Step::Next(
                OpenShmem { path, dir, state: State::ApplyOptions { fd } },
            ),
            (State::OpenTmpfile, Answer::Open(Err(err))) => Step::Done(
                Err(OpenError::OpenTmpfile(SysError::from_call(err))),
            ),
            (State::ApplyOptions { fd }, Answer::ApplyOptions(Ok(()))) => Step::Next(
                OpenShmem { path, dir, state: State::Truncate { fd } },
            ),
            (State::ApplyOptions { .. }, Answer::ApplyOptions(Err(text))) => Step::Done(
                Err(OpenError::Other(text)),
            ),
            (State::Truncate { fd }, Answer::Truncate(Ok(()))) => Step::Next(
                OpenShmem { path, dir, state: State::MapNew { fd } },
            ),
            (State::Truncate { .. }, Answer::Truncate(Err(err))) => Step::Done(
                Err(OpenError::Sys(SysError::from_call(err))),
            ),
            (State::MapNew { fd }, Answer::Mmap(mapped)) => match mmap_file(mapped, true) {
                Err(err) => Step::Done(Err(err)),
                Ok(mmap) => match first_zero(path.as_slice()) {
                    Some(place) => Step::Done(Err(OpenError::NulInPath(place))),
                    None => Step::Next(OpenShmem { path, dir, state: State::Link { fd, mmap } }),
                },
            },
            (State::Link { mmap, .. }, Answer::Link(Ok(()))) => Step::Done(Ok(mmap)),
            (State::Link { .. }, Answer::Link(Err(err))) => {
                let err = SysError::from_call(err);
                match err {
                    SysError::Errno(Errno::EEXIST) => Step::Next(
                        OpenShmem { path, dir, state: State::Reopen },
                    ),
                    _ => Step::Done(Err(OpenError::Sys(err))),
                }
            },
            (State::Reopen, Answer::Open(Ok(fd))) => Step::Next(
                OpenShmem { path, dir, state: State::MapReopened { fd } },
            ),
            (State::Reopen, Answer::Open(Err(err))) => Step::Done(
                Err(OpenError::Open(SysError::from_call(err))),
            ),
            (State::MapReopened { .. }, Answer::Mmap(mapped)) => Step::Done(
                mmap_file(mapped, false),
            ),
            _ => unreached(),
        }
    }
}

/// The operation comes to `result` if its system calls are answered like this, one by one.
pub open spec fn runs_to<'a, T: Init>(
    op: OpenShmem<'a, T>,
    answers: Seq<Answer<'a, T>>,
    result: Result<Mmap<'a, T>, OpenError>,
) -> bool
    decreases answers.len(),
{
    &&& answers.len() > 0
    &&& op.state.expects(answers[0])
    &&& exists|step: Step<'a, T>| #[trigger]
        op.leads_to(answers[0], step) && match step {
            Step::Next(next) => runs_to(next, answers.drop_first(), result),
            Step::Done(end) => answers.len() == 1 && end == result,
        }
}

/// The operation is at its start.
pub open spec fn is_fresh<'a, T>(op: OpenShmem<'a, T>) -> bool {
    op.state is Statfs || op.state is OpenExisting
}

/// The step that a run takes first.
spec fn first_step<'a, T: Init>(
    op: OpenShmem<'a, T>,
    answers: Seq<Answer<'a, T>>,
    result: Result<Mmap<'a, T>, OpenError>,
) -> Step<'a, T> {
    choose|step: Step<'a, T>| #[trigger]
        op.leads_to(answers[0], step) && match step {
            Step::Next(next) => runs_to(next, answers.drop_first(), result),
            Step::Done(end) => answers.len() == 1 && end == result,
        }
}

/// Each system call brings the end nearer.
pub proof fn law_every_step_makes_progress<'a, T: Init>(
    op: OpenShmem<'a, T>,
    answer: Answer<'a, T>,
    next: OpenShmem<'a, T>,
)
    requires
        op.leads_to(answer, Step::Next(next)),
    ensures
        next.state.calls_left() < op.state.calls_left(),
        next.path == op.path,
        next.dir == op.dir,
{
}

/// The file that was opened last is the one that the following system calls are about, until it is
/// mapped or has its place; no other file is opened as long as one is needed.
pub proof fn law_open_file_is_used_until_it_is_done_with<'a, T: Init>(
    op: OpenShmem<'a, T>,
    answer: Answer<'a, T>,
    next: OpenShmem<'a, T>,
)
    requires
        op.leads_to(answer, Step::Next(next)),
    ensures
        answer matches Answer::Open(Ok(fd)) ==> next.state.needed_fd() == Some(fd),
        answer matches Answer::Open(_) ==> op.state.needed_fd() is None,
        op.state.needed_fd() is Some ==> next.state.needed_fd() == op.state.needed_fd()
            || answer is Link && next.state.needed_fd() is None,
{
}

/// Opening shared memory takes nine system calls at most.
pub proof fn law_every_run_ends<'a, T: Init>(
    op: OpenShmem<'a, T>,
    answers: Seq<Answer<'a, T>>,
    result: Result<Mmap<'a, T>, OpenError>,
)
    requires
        runs_to(op, answers, result),
    ensures
        1 <= answers.len() <= op.state.calls_left() <= 9,
    decreases answers.len(),
{
    match first_step(op, answers, result) {
        Step::Next(next) => {
            law_every_step_makes_progress(op, answers[0], next);
            law_every_run_ends(next, answers.drop_first(), result);
        },
        Step::Done(_) => {},
    }
}

/// Where the memory of a run that succeeds comes from: from a file that was there, as it was
/// found, or from a new file, initialized before the file was put in its place.
spec fn has_source<'a, T: Init>(answers: Seq<Answer<'a, T>>, mmap: Mmap<'a, T>) -> bool {
    let n = answers.len() as int;
    ||| n >= 1 && answers[n - 1] == Answer::<'a, T>::Mmap(Ok(mmap))
    ||| n >= 2 && (answers[n - 1] matches Answer::Link(Ok(_))) && (answers[n
        - 2] matches Answer::Mmap(Ok(before)) && T::initializes(before.contents(), mmap.contents()))
}

proof fn lemma_run_has_source<'a, T: Init>(
    op: OpenShmem<'a, T>,
    answers: Seq<Answer<'a, T>>,
    mmap: Mmap<'a, T>,
)
    requires
        runs_to(op, answers, Ok(mmap)),
        !(op.state is Link),
    ensures
        has_source(answers, mmap),
        may_answer(mmap.contents(), Ok(())),
    decreases answers.len(),
{
    match first_step(op, answers, Ok(mmap)) {
        Step::Next(next) => {
            let rest = answers.drop_first();
            if next.state is Link {
                match first_step(next, rest, Ok(mmap)) {
                    Step::Next(reopen) => {
                        lemma_run_has_source(reopen, rest.drop_first(), mmap);
                        assert(answers.last() == rest.drop_first().last());
                        let n = answers.len() as int;
                        if n >= 4 {
                            assert(answers[n - 2] == rest.drop_first()[n - 4]);
                        }
                    },
                    Step::Done(_) => {
                        assert(answers.len() == 2);
                        assert(answers[1] == rest[0]);
                    },
                }
            } else {
                lemma_run_has_source(next, rest, mmap);
                assert(answers.last() == rest.last());
                let n = answers.len() as int;
                if n >= 3 {
                    assert(answers[n - 2] == rest[n - 3]);
                }
            }
        },
        Step::Done(_) => {},
    }
}

/// Memory is only handed out if it passed the check of its type.
pub proof fn law_opened_memory_has_its_type<'a, T: Init>(
    op: OpenShmem<'a, T>,
    answers: Seq<Answer<'a, T>>,
    mmap: Mmap<'a, T>,
)
    requires
        is_fresh(op),
        runs_to(op, answers, Ok(mmap)),
    ensures
        may_answer(mmap.contents(), Ok(())),
{
    lemma_run_has_source(op, answers, mmap);
}

/// Unless it put its own file in place, an operation that succeeds hands out the memory that it
/// mapped last exactly as it was found there.
pub proof fn law_existing_memory_is_left_alone<'a, T: Init>(
    op: OpenShmem<'a, T>,
    answers: Seq<Answer<'a, T>>,
    mmap: Mmap<'a, T>,
)
    requires
        is_fresh(op),
        runs_to(op, answers, Ok(mmap)),
        !(answers.last() is Link),
    ensures
        answers.last() == Answer::<'a, T>::Mmap(Ok(mmap)),
{
    lemma_run_has_source(op, answers, mmap);
}

/// An operation that put its own file in place had mapped and initialized that file just before,
/// and hands out this memory.
pub proof fn law_new_memory_is_initialized_before_it_is_seen<'a, T: Init>(
    op: OpenShmem<'a, T>,
    answers: Seq<Answer<'a, T>>,
    mmap: Mmap<'a, T>,
)
    requires
        is_fresh(op),
        runs_to(op, answers, Ok(mmap)),
        answers.last() is Link,
    ensures
        answers.len() >= 2,
        answers[answers.len() - 1] matches Answer::Link(Ok(_)),
        answers[answers.len() - 2] matches Answer::Mmap(Ok(before)) && T::initializes(
            before.contents(),
            mmap.contents(),
        ),
{
    lemma_run_has_source(op, answers, mmap);
}

/// A new file is only created if the first attempt to open the file says that there is none.
pub proof fn law_file_is_created_only_if_missing<'a, T: Init>(
    op: OpenShmem<'a, T>,
    answers: Seq<Answer<'a, T>>,
    result: Result<Mmap<'a, T>, OpenError>,
)
    requires
        op.state is OpenExisting,
        runs_to(op, answers, result),
        answers.len() > 2,
    ensures
        answers[0] matches Answer::Open(Err(err)) && SysError::of_call(err).is_not_found(),
{
    match first_step(op, answers, result) {
        Step::Next(next) => {
            law_every_run_ends(next, answers.drop_first(), result);
        },
        Step::Done(_) => {},
    }
}

/// Where the directory has to be on a `tmpfs`, nothing is opened unless it is.
pub proof fn law_only_tmpfs_is_used<'a, T: Init>(
    op: OpenShmem<'a, T>,
    answers: Seq<Answer<'a, T>>,
    result: Result<Mmap<'a, T>, OpenError>,
)
    requires
        op.state is Statfs,
        runs_to(op, answers, result),
        answers.len() > 1 || result is Ok,
    ensures
        answers[0] == Answer::<'a, T>::Statfs(Ok(tmpfs_type())),
{
    let step = first_step(op, answers, result);
    assert(op.leads_to(answers[0], step));
}

/// Whoever finds that another process put its file in place first ends up with the memory of that
/// file, or with an error.
pub proof fn law_lost_race_shares_the_winners_memory<'a, T: Init>(
    op: OpenShmem<'a, T>,
    answers: Seq<Answer<'a, T>>,
    mmap: Mmap<'a, T>,
)
    requires
        op.state is Link,
        runs_to(op, answers, Ok(mmap)),
        answers[0] matches Answer::Link(Err(_)),
    ensures
        answers.len() == 3,
        answers[0] matches Answer::Link(Err(err)) && SysError::of_call(err) == SysError::Errno(
            Errno::EEXIST,
        ),
        answers[1] matches Answer::Open(Ok(_)),
        answers[2] == Answer::<'a, T>::Mmap(Ok(mmap)),
{
    match first_step(op, answers, Ok(mmap)) {
        Step::Next(reopen) => {
            let rest = answers.drop_first();
            match first_step(reopen, rest, Ok(mmap)) {
                Step::Next(map) => {
                    lemma_run_has_source(map, rest.drop_first(), mmap);
                    law_every_run_ends(map, rest.drop_first(), Ok(mmap));
                },
                Step::Done(_) => {},
            }
        },
        Step::Done(_) => {},
    }
}

/// A mutex that one process created opens in every other process, whatever its holders did with the
/// lock and the data in the meantime.
pub proof fn law_created_mutex_opens_elsewhere<'a, T: Init>(
    before: SharedMutex<T>,
    created: SharedMutex<T>,
    lock: RawSharedMutex,
    data: T,
    mmap: Mmap<'a, SharedMutex<T>>,
    step: Step<'a, SharedMutex<T>>,
)
    requires
        SharedMutex::<T>::initializes(before, created),
        mmap.contents() == created.with_lock(lock).with_data(data),
        OpenShmem::<'a, SharedMutex<T>>::existing_leads_to(Ok(mmap), step),
    ensures
        step == Step::<'a, SharedMutex<T>>::Done(Ok(mmap)),
{
}

/// Whatever is mapped, a file that was there, a new one or the one of a faster process, is mapped
/// from its start, as one value, for reading and writing, and such that all processes that map it
/// see each other's writes.
pub proof fn law_every_mapping_is_shared<'a, 'b, T: Init>(
    op: &'b OpenShmem<'a, T>,
    action: Action<'b>,
)
    requires
        call_ensures(OpenShmem::<'a, T>::action, (op,), action),
    ensures
        op.state is MapExisting || op.state is MapNew || op.state is MapReopened <==> action is Mmap,
        action matches Action::Mmap { offset, count, mapping, .. } ==> {
            &&& offset == 0
            &&& count == 1
            &&& mapping.read
            &&& mapping.write
            &&& mapping.shared
            &&& mapping.noreserve
            &&& mapping.populate
        },
{
}

/// A new file is made long enough for its value, in whole pages and without a page too many.
pub proof fn law_new_file_has_room_for_its_value<'a, 'b, T: Init>(
    op: &'b OpenShmem<'a, T>,
    action: Action<'b>,
)
    requires
        size_of::<T>() + 4095 <= i64::MAX,
        call_ensures(OpenShmem::<'a, T>::action, (op,), action),
    ensures
        op.state is Truncate <==> action is Truncate,
        action matches Action::Truncate { len, .. } ==> {
            &&& len % 4096 == 0
            &&& size_of::<T>() <= len < size_of::<T>() + 4096
        },
{
}

/// Files are opened for reading and writing and are closed when another program is executed. A new
/// file goes into the directory and has no name; every other file is the one at the path.
pub proof fn law_files_are_opened_at_the_path<'a, 'b, T: Init>(
    op: &'b OpenShmem<'a, T>,
    action: Action<'b>,
)
    requires
        call_ensures(OpenShmem::<'a, T>::action, (op,), action),
    ensures
        op.state is OpenExisting || op.state is OpenTmpfile || op.state is Reopen <==> action is Open,
        action matches Action::Open { path, flags, mode } ==> {
            &&& flags.read_write
            &&& flags.close_on_exec
            &&& mode == 0
            &&& flags.tmpfile <==> op.state is OpenTmpfile
            &&& flags.tmpfile ==> path@ == op.dir@
            &&& !flags.tmpfile ==> path@ == op.path@
        },
{
}

/// The file system is asked about, and a new file is set up, for the directory.
pub proof fn law_directory_is_checked_and_named<'a, 'b, T: Init>(
    op: &'b OpenShmem<'a, T>,
    action: Action<'b>,
)
    requires
        call_ensures(OpenShmem::<'a, T>::action, (op,), action),
    ensures
        op.state is Statfs <==> action is Statfs,
        action matches Action::Statfs { path } ==> path@ == op.dir@,
        op.state is ApplyOptions <==> action is ApplyOptions,
        action matches Action::ApplyOptions { path, .. } ==> path@ == op.dir@,
{
}

/// A new file gets the path itself, by way of the path that the kernel has for its descriptor,
/// which is followed.
pub proof fn law_new_file_gets_the_path<'a, 'b, T: Init>(
    op: &'b OpenShmem<'a, T>,
    action: Action<'b>,
    fd: i32,
    shown: Vec<u8>,
)
    requires
        call_ensures(OpenShmem::<'a, T>::action, (op,), action),
        call_ensures(OpenShmem::<'a, T>::open_file, (op,), Some(fd)),
        call_ensures(proc_fd_path, (fd,), shown),
    ensures
        op.state is Link <==> action is Link,
        action matches Action::Link { from, to, follow_symlink } ==> {
            &&& follow_symlink
            &&& from@ == shown@
            &&& to@.len() == op.path@.len() + 1
            &&& to@.last() == 0
            &&& forall|i: int| 0 <= i < op.path@.len() ==> to@[i] == #[trigger] op.path@[i]
        },
{
}

/// The path that the kernel has for a descriptor is one zero-terminated string: the directory of
/// this process's descriptors, and then the number of the descriptor in decimal.
pub proof fn law_descriptor_path_spells_its_number(fd: i32, path: Vec<u8>)
    requires
        call_ensures(proc_fd_path, (fd,), path),
    ensures
        path@.len() >= 16,
        forall|i: int| 0 <= i < 14 ==> #[trigger] path@[i] == "/proc/self/fd/"@[i] as u8,
        forall|i: int| 0 <= i < path@.len() ==> (#[trigger] path@[i] == 0 <==> i == path@.len() - 1),
        fd >= 0 ==> number_read(path@.subrange(14, path@.len() - 1)) == fd && is_all_digits(
            path@.subrange(14, path@.len() - 1),
        ),
        fd < 0 ==> path@[14] == 45 && number_read(path@.subrange(15, path@.len() - 1)) == -fd
            && is_all_digits(path@.subrange(15, path@.len() - 1)),
{
    reveal_strlit("/proc/self/fd/");
    law_signed_decimal_reads_back(fd as int);
    let digits = signed_decimal(fd as int);
    assert(path@ == bytes_of("/proc/self/fd/"@) + digits + seq![0u8]);
    if fd < 0 {
        law_decimal_reads_back((-fd) as nat);
        assert(path@.subrange(15, path@.len() - 1) =~= decimal((-fd) as nat));
    } else {
        law_decimal_reads_back(fd as nat);
        assert(path@.subrange(14, path@.len() - 1) =~= decimal(fd as nat));
    }
    assert forall|i: int| 0 <= i < path@.len() implies (#[trigger] path@[i] == 0 <==> i == path@.len()
        - 1) by {
        if i < 14 {
            assert(path@[i] == "/proc/self/fd/"@[i] as u8);
        } else if i < path@.len() - 1 {
            assert(path@[i] == digits[i - 14]);
        }
    }
}

/// Every call on a descriptor is about the file that has to stay open, and it is the one that the
/// operation keeps in mind.
pub proof fn law_calls_are_about_the_open_file<'a, 'b, T: Init>(
    op: &'b OpenShmem<'a, T>,
    action: Action<'b>,
    open: Option<i32>,
)
    requires
        call_ensures(OpenShmem::<'a, T>::action, (op,), action),
        call_ensures(OpenShmem::<'a, T>::open_file, (op,), open),
    ensures
        open is None <==> action is Statfs || action is Open,
        action matches Action::ApplyOptions { fd, .. } ==> open == Some(fd),
        action matches Action::Truncate { fd, .. } ==> open == Some(fd),
        action matches Action::Mmap { fd, .. } ==> open == Some(fd),
        op.state matches State::MapExisting { fd } ==> open == Some(fd),
        op.state matches State::ApplyOptions { fd } ==> open == Some(fd),
        op.state matches State::Truncate { fd } ==> open == Some(fd),
        op.state matches State::MapNew { fd } ==> open == Some(fd),
        op.state matches State::Link { fd, .. } ==> open == Some(fd),
        op.state matches State::MapReopened { fd } ==> open == Some(fd),
{
}

/// Each call has the answer of its own kind.
pub proof fn law_answer_is_of_the_kind_of_its_call<'a, 'b, T: Init>(
    op: &'b OpenShmem<'a, T>,
    action: Action<'b>,
    answer: Answer<'a, T>,
)
    requires
        call_ensures(OpenShmem::<'a, T>::action, (op,), action),
    ensures
        op.state.expects(answer) <==> match action {
            Action::Statfs { .. } => answer is Statfs,
            Action::Open { .. } => answer is Open,
            Action::ApplyOptions { .. } => answer is ApplyOptions,
            Action::Truncate { .. } => answer is Truncate,
            Action::Mmap { .. } => answer is Mmap,
            Action::Link { .. } => answer is Link,
        },
{
}

/// A descriptor that a call returned is the one that is kept open from then on, until the file is
/// mapped for good or was given its path; and nothing else of the operation changes on the way.
pub proof fn law_new_descriptor_is_kept<'a, T: Init>(
    op: OpenShmem<'a, T>,
    answer: Answer<'a, T>,
    next: OpenShmem<'a, T>,
    before: Option<i32>,
    after: Option<i32>,
)
    requires
        call_ensures(OpenShmem::<'a, T>::step, (op, answer), Step::Next(next)),
        call_ensures(OpenShmem::<'a, T>::open_file, (&op,), before),
        call_ensures(OpenShmem::<'a, T>::open_file, (&next,), after),
    ensures
        next.path@ == op.path@,
        next.dir@ == op.dir@,
        answer matches Answer::Open(Ok(fd)) ==> after == Some(fd),
        answer matches Answer::Open(Err(_)) ==> after is None,
        answer is ApplyOptions || answer is Truncate || answer is Mmap ==> after == before,
        answer is Statfs || answer is Link ==> after is None,
{
}

/// What a directory on some file system leads to: only the number of a `tmpfs` lets the operation
/// go on, and it then tries the path.
pub proof fn law_file_system_decides<'a, T: Init>(
    op: OpenShmem<'a, T>,
    answer: Result<i64, CallError>,
    step: Step<'a, T>,
)
    requires
        op.state is Statfs,
        call_ensures(OpenShmem::<'a, T>::step, (op, Answer::Statfs(answer)), step),
    ensures
        step is Next <==> answer == Ok::<i64, CallError>(0x0102_1994),
        step matches Step::Next(next) ==> next.state is OpenExisting,
        step matches Step::Done(result) ==> match answer {
            Ok(_) => result matches Err(err) && err is NotTmpfs,
            Err(failed) => result matches Err(OpenError::Sys(err)) && forall|named: SysError|
                #[trigger]
                call_ensures(SysError::from_call, (failed,), named) ==> err == named,
        },
{
}

/// What the attempt to open a file leads to. A file that opens is mapped, and is new exactly if a
/// new one was asked for. That there is none leads to a new file, but only the first time.
pub proof fn law_opened_files_are_mapped<'a, T: Init>(
    op: OpenShmem<'a, T>,
    answer: Result<i32, CallError>,
    step: Step<'a, T>,
)
    requires
        op.state is OpenExisting || op.state is OpenTmpfile || op.state is Reopen,
        call_ensures(OpenShmem::<'a, T>::step, (op, Answer::Open(answer)), step),
    ensures
        step is Next <==> answer is Ok || op.state is OpenExisting && answer
            == Err::<i32, CallError>(CallError::Errno(2)),
        step matches Step::Next(next) ==> match answer {
            Ok(_) => {
                &&& op.state is OpenExisting <==> next.state is MapExisting
                &&& op.state is OpenTmpfile <==> next.state is ApplyOptions
                &&& op.state is Reopen <==> next.state is MapReopened
            },
            Err(_) => next.state is OpenTmpfile,
        },
        step matches Step::Done(result) ==> {
            &&& result is Err
            &&& op.state is OpenTmpfile <==> result->Err_0 is OpenTmpfile
            &&& op.state is OpenTmpfile || result->Err_0 is Open
            &&& forall|named: SysError| #[trigger]
                call_ensures(SysError::from_call, (answer->Err_0,), named) ==> {
                    &&& result->Err_0 matches OpenError::OpenTmpfile(err) ==> err == named
                    &&& result->Err_0 matches OpenError::Open(err) ==> err == named
                }
        },
{
}

/// A new file is set up, then given its length, then mapped; a failure ends the operation with its
/// reason.
pub proof fn law_new_files_are_prepared_in_order<'a, T: Init>(
    op: OpenShmem<'a, T>,
    answer: Answer<'a, T>,
    step: Step<'a, T>,
)
    requires
        op.state is ApplyOptions || op.state is Truncate,
        op.state.expects(answer),
        call_ensures(OpenShmem::<'a, T>::step, (op, answer), step),
    ensures
        match answer {
            Answer::ApplyOptions(Ok(_)) => step matches Step::Next(next) && next.state is Truncate,
            Answer::ApplyOptions(Err(text)) => step matches Step::Done(Err(OpenError::Other(reason)))
                && reason@ == text@,
            Answer::Truncate(Ok(_)) => step matches Step::Next(next) && next.state is MapNew,
            Answer::Truncate(Err(failed)) => step matches Step::Done(Err(OpenError::Sys(err)))
                && forall|named: SysError| #[trigger]
                call_ensures(SysError::from_call, (failed,), named) ==> err == named,
            _ => false,
        },
{
}

/// The memory of a file that was there, at first or by a faster process, ends the operation: it is
/// handed out as it was found if the check of its type says yes. Otherwise the complaint is handed
/// on and the memory stays as it was.
pub proof fn law_found_memory_is_checked_and_handed_out<'a, T: Init>(
    op: OpenShmem<'a, T>,
    mmap: Mmap<'a, T>,
    step: Step<'a, T>,
)
    requires
        op.state is MapExisting || op.state is MapReopened,
        call_ensures(OpenShmem::<'a, T>::step, (op, Answer::Mmap(Ok(mmap))), step),
    ensures
        match step {
            Step::Done(Ok(opened)) => opened == mmap && call_ensures(
                T::check_type_magic,
                (&mmap.contents(),),
                Ok(()),
            ),
            Step::Done(Err(OpenError::WrongTypes(complaint))) => call_ensures(
                T::check_type_magic,
                (&mmap.contents(),),
                Err(complaint),
            ) && *final(mmap.region) == mmap.contents(),
            _ => false,
        },
{
}

/// The memory of a new file is initialized by its type, and the file is ready for its path exactly
/// if the check of the type then says yes and the path holds no zero byte. Otherwise the operation
/// ends with the complaint, or with the place of the first zero byte.
pub proof fn law_new_memory_is_made_ready<'a, T: Init>(
    op: OpenShmem<'a, T>,
    mmap: Mmap<'a, T>,
    step: Step<'a, T>,
)
    requires
        op.state is MapNew,
        call_ensures(OpenShmem::<'a, T>::step, (op, Answer::Mmap(Ok(mmap))), step),
    ensures
        match step {
            Step::Next(next) => {
                &&& next.state is Link
                &&& T::initializes(mmap.contents(), next.state->Link_mmap.contents())
                &&& call_ensures(
                    T::check_type_magic,
                    (&next.state->Link_mmap.contents(),),
                    Ok(()),
                )
                &&& forall|i: int| 0 <= i < op.path@.len() ==> #[trigger] op.path@[i] != 0
                &&& *final(next.state->Link_mmap.region) == *final(mmap.region)
            },
            Step::Done(Err(OpenError::NulInPath(place))) => {
                &&& place < op.path@.len()
                &&& op.path@[place as int] == 0
                &&& forall|i: int| 0 <= i < place ==> #[trigger] op.path@[i] != 0
                &&& T::initializes(mmap.contents(), *final(mmap.region))
                &&& call_ensures(T::check_type_magic, (&*final(mmap.region),), Ok(()))
            },
            Step::Done(Err(OpenError::WrongTypes(complaint))) => {
                &&& T::initializes(mmap.contents(), *final(mmap.region))
                &&& call_ensures(T::check_type_magic, (&*final(mmap.region),), Err(complaint))
            },
            _ => false,
        },
{
    if let Step::Done(Err(OpenError::NulInPath(place))) = step {
        assert forall|i: int| 0 <= i < place implies #[trigger] op.path@[i] != 0 by {
            assert(op.path@.take(place as int)[i] == op.path@[i]);
        }
    }
}

/// If a file cannot be mapped, the reason is handed on, whichever file it is.
pub proof fn law_reason_of_a_failed_mapping_is_handed_on<'a, T: Init>(
    op: OpenShmem<'a, T>,
    text: String,
    step: Step<'a, T>,
)
    requires
        op.state is MapExisting || op.state is MapNew || op.state is MapReopened,
        call_ensures(OpenShmem::<'a, T>::step, (op, Answer::Mmap(Err(text))), step),
    ensures
        step matches Step::Done(Err(OpenError::Other(reason))) && reason@ == text@,
{
}

/// A new file that got its path is handed out with the memory that was made ready. If the path
/// was taken in the meantime, which is what the raw `errno` 17 says and nothing else, the file that
/// took it is opened. In both cases the memory is not touched.
pub proof fn law_path_is_taken_once<'a, T: Init>(
    op: OpenShmem<'a, T>,
    mmap: Mmap<'a, T>,
    answer: Result<(), CallError>,
    step: Step<'a, T>,
)
    requires
        op.state matches State::Link { mmap: ready, .. } && ready == mmap,
        call_ensures(OpenShmem::<'a, T>::step, (op, Answer::Link(answer)), step),
    ensures
        answer is Ok <==> (step matches Step::Done(result) && result is Ok),
        step matches Step::Done(Ok(opened)) ==> opened == mmap,
        step is Next <==> answer == Err::<(), CallError>(CallError::Errno(17)),
        step matches Step::Next(next) ==> next.state is Reopen,
        step matches Step::Done(Err(failure)) ==> {
            &&& failure matches OpenError::Sys(err) && forall|named: SysError| #[trigger]
                call_ensures(SysError::from_call, (answer->Err_0,), named) ==> err == named
        },
        answer is Err ==> *final(mmap.region) == mmap.contents(),
{
}

/// An operation that is made for a path and its directory is the one with which shared memory is
/// opened there.
pub proof fn law_operation_is_the_one_that_opens<'a, T: Init>(
    path: Vec<u8>,
    dir: Vec<u8>,
    on_tmpfs: bool,
    op: OpenShmem<'a, T>,
    result: Result<OpenShmem<'a, T>, OpenError>,
)
    requires
        call_ensures(OpenShmem::<'a, T>::new, (path, dir, on_tmpfs), op),
        call_ensures(SharedMemory::<'a, T>::open_shmem, (path, Some(dir), on_tmpfs), result),
    ensures
        result == Ok::<OpenShmem<'a, T>, OpenError>(op),
{
}

} // verus!
