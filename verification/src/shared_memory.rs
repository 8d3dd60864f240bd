//! Memory that several processes map from one file.

use vstd::layout::size_of;
use vstd::prelude::*;
use vstd::string::StringExecFns;

use crate::errno::SysError;
use crate::init::{may_answer, Error, Init};
use crate::open_shmem::{Action, OpenShmem};
use crate::text::{
    append_decimal, chars_of, decimal, is_all_digits, law_decimal_reads_back, number_read,
};

verus! {

/// The number of bytes in the fewest pages, of 4096 bytes each, that hold `n` bytes.
pub open spec fn page_ceil(n: nat) -> nat {
    (n + 4095) / 4096 * 4096
}

/// Rounds a size up to full pages.
pub fn up_to_page_size(n: usize) -> (size: usize)
    requires
        n + 4095 <= usize::MAX,
    ensures
        size == page_ceil(n as nat),
{
    let padded: usize = n + 4095;
    assert(padded & !4095usize == padded / 4096 * 4096) by (bit_vector);
    padded & !4095
}

/// A mapping of one value of type `T`.
pub struct Mmap<'a, T> {
    /// The mapped memory.
    pub region: &'a mut T,
}

impl<'a, T> Mmap<'a, T> {
    /// What the mapped memory holds.
    pub open spec fn contents(self) -> T {
        *self.region
    }
}

/// Why shared memory could not be opened.
#[derive(Debug)]
pub enum OpenError {
    /// The type does not fill its pages; this is its size.
    DataSize(usize),
    /// The path has no parent directory.
    BadPath,
    /// The directory is not on a `tmpfs`.
    NotTmpfs,
    /// An existing file could not be opened.
    Open(SysError),
    /// The directory did not take a temporary file.
    OpenTmpfile(SysError),
    /// The memory does not hold what its type asks for.
    WrongTypes(Error),
    /// The path holds a zero byte, at this place.
    NulInPath(usize),
    /// Another system call failed.
    Sys(SysError),
    /// Setting the file's owner and permissions, or mapping the file, failed with this text.
    Other(String),
}

impl OpenError {
    /// The text for a reader, given what to show for the path and for its directory.
    pub open spec fn text(self, path: Seq<char>, dir: Seq<char>) -> Seq<char> {
        match self {
            OpenError::DataSize(size) => "SharedMemory::open "@ + path + " failed - data size "@
                + chars_of(decimal(size as nat)) + " is not a multiple of 4096"@,
            OpenError::BadPath => "bad path "@ + path,
            OpenError::NotTmpfs => "path "@ + dir + " is not on tmpfs"@,
            OpenError::Open(err) => "open "@ + path + " failed - "@ + err.text(),
            OpenError::OpenTmpfile(err) => "open tmpfile in "@ + dir + " failed - "@ + err.text(),
            OpenError::WrongTypes(err) => "detected wrong types in mmaped files: "@ + err.text(),
            OpenError::NulInPath(place) => "nul byte found in provided data at position: "@
                + chars_of(decimal(place as nat)),
            OpenError::Sys(err) => err.text(),
            OpenError::Other(text) => text@,
        }
    }

    /// The text for a reader, given what to show for the path and for its directory.
    pub fn message(&self, path: &str, dir: &str) -> (text: String)
        ensures
            text@ == self.text(path@, dir@),
    {
        let mut out = String::new();
        match self {
            OpenError::DataSize(size) => {
                out.append("SharedMemory::open ");
                out.append(path);
                out.append(" failed - data size ");
                append_decimal(&mut out, *size as u64);
                out.append(" is not a multiple of 4096");
            },
            OpenError::BadPath => {
                out.append("bad path ");
                out.append(path);
            },
            OpenError::NotTmpfs => {
                out.append("path ");
                out.append(dir);
                out.append(" is not on tmpfs");
            },
            OpenError::Open(err) => {
                out.append("open ");
                out.append(path);
                out.append(" failed - ");
                out.append(err.message().as_str());
            },
            OpenError::OpenTmpfile(err) => {
                out.append("open tmpfile in ");
                out.append(dir);
                out.append(" failed - ");
                out.append(err.message().as_str());
            },
            OpenError::WrongTypes(err) => {
                out.append("detected wrong types in mmaped files: ");
                out.append(err.message().as_str());
            },
            OpenError::NulInPath(place) => {
                out.append("nul byte found in provided data at position: ");
                append_decimal(&mut out, *place as u64);
            },
            OpenError::Sys(err) => {
                out.append(err.message().as_str());
            },
            OpenError::Other(text) => {
                out.append(text.as_str());
            },
        }
        assert(out@ =~= self.text(path@, dir@));
        out
    }
}

/// Takes over memory that was just mapped: initializes it if it is new, and checks its type.
///
/// `mapped` is what mapping the file came to. On an error the memory keeps what the
/// initialization left in it.
pub fn mmap_file<'a, T: Init>(mapped: Result<Mmap<'a, T>, String>, initialize: bool) -> (result:
    Result<Mmap<'a, T>, OpenError>)
    ensures
        match mapped {
            Err(text) => result == Err::<Mmap<'a, T>, OpenError>(OpenError::Other(text)),
            Ok(before) => match result {
                Ok(after) => {
                    &&& initialize ==> T::initializes(*before.region, *after.region)
                    &&& !initialize ==> after == before
                    &&& may_answer(*after.region, Ok(()))
                    &&& *final(after.region) == *final(before.region)
                },
                Err(err) => {
                    &&& err is WrongTypes
                    &&& may_answer(*final(before.region), Err(err->WrongTypes_0))
                    &&& initialize ==> T::initializes(*before.region, *final(before.region))
                    &&& !initialize ==> *final(before.region) == *before.region
                },
            },
        },
{
    let mmap = match mapped {
        Ok(mmap) => mmap,
        Err(text) => return Err(OpenError::Other(text)),
    };
    if initialize {
        T::initialize(mmap.region);
    }
    let checked = T::check_type_magic(mmap.region);
    match checked {
        Ok(unit) => {
            assert(unit == ());
            Ok(mmap)
        },
        Err(err) => Err(OpenError::WrongTypes(err)),
    }
}

/// A region of memory that several processes map.
///
/// The size of `T` has to be a multiple of the page size. The data should consist of atomic
/// types, or be protected by a [`SharedMutex`](crate::shared_mutex::SharedMutex).
pub struct SharedMemory<'a, T> {
    /// The mapping.
    pub mmap: Mmap<'a, T>,
}

/// Values of type `T` fill their pages.
pub open spec fn fills_pages<T>() -> bool {
    size_of::<T>() % 4096 == 0
}

impl<'a, T: Init> SharedMemory<'a, T> {
    /// Starts to open the shared memory at a path, for a type that fills its pages.
    ///
    /// `dir_name` is the path without its last component, if it has one. `on_tmpfs` asks for the
    /// directory to be on a `tmpfs`. When the operation is done, its mapping makes up the shared
    /// memory: see [`SharedMemory::from_mmap`].
    pub fn open(path: Vec<u8>, dir_name: Option<Vec<u8>>, on_tmpfs: bool) -> (result: Result<
        OpenShmem<'a, T>,
        OpenError,
    >)
        ensures
            !fills_pages::<T>() ==> result == Err::<OpenShmem<'a, T>, OpenError>(
                OpenError::DataSize(size_of::<T>() as usize),
            ),
            fills_pages::<T>() ==> OpenShmem::<'a, T>::starts(path, dir_name, on_tmpfs, result),
    {
        vstd::layout::layout_for_type_is_valid::<T>();
        let size: usize = std::mem::size_of::<T>();
        let up_size: usize = up_to_page_size(size);
        if size != up_size {
            return Err(OpenError::DataSize(size));
        }
        Self::open_shmem(path, dir_name, on_tmpfs)
    }

    /// Starts to open the shared memory at a path, for any type.
    pub fn open_shmem(path: Vec<u8>, dir_name: Option<Vec<u8>>, on_tmpfs: bool) -> (result: Result<
        OpenShmem<'a, T>,
        OpenError,
    >)
        ensures
            OpenShmem::<'a, T>::starts(path, dir_name, on_tmpfs, result),
    {
        match dir_name {
            Some(dir) => Ok(OpenShmem::new(path, dir, on_tmpfs)),
            None => Err(OpenError::BadPath),
        }
    }

    /// The shared memory whose mapping was opened.
    pub fn from_mmap(mmap: Mmap<'a, T>) -> (shared: Self)
        requires
            fills_pages::<T>(),
        ensures
            shared.mmap == mmap,
    {
        SharedMemory { mmap }
    }

    /// The shared data.
    pub fn data(&self) -> (data: &T)
        ensures
            *data == *old(self.mmap.region),
    {
        &*self.mmap.region
    }

    /// The shared data, for writing.
    pub fn data_mut(&mut self) -> (data: &mut T)
        ensures
            *data == *old(self).mmap.region,
            *final(self).mmap.region == *final(data),
            *final(final(self).mmap.region) == *final(old(self).mmap.region),
    {
        &mut *self.mmap.region
    }
}

/// Rounding a size up to pages gives the smallest multiple of the page size that is not below it.
pub proof fn law_page_ceil_is_least(n: nat, m: nat)
    ensures
        page_ceil(n) % 4096 == 0,
        n <= page_ceil(n) < n + 4096,
        m % 4096 == 0 && n <= m ==> page_ceil(n) <= m,
        page_ceil(page_ceil(n)) == page_ceil(n),
        page_ceil(n) == n <==> n % 4096 == 0,
{
}

/// A size is rounded up to a multiple of the page size, by less than a page.
pub proof fn law_rounding_adds_less_than_a_page(n: usize, size: usize)
    requires
        call_ensures(up_to_page_size, (n,), size),
    ensures
        size % 4096 == 0,
        n <= size < n + 4096,
{
}

/// Opening shared memory begins like mapping it, but only for types that fill whole pages; for any
/// other type it fails and tells the size of the type.
pub proof fn law_open_asks_for_whole_pages<'a, T: Init>(
    path: Vec<u8>,
    dir_name: Option<Vec<u8>>,
    on_tmpfs: bool,
    opened: Result<OpenShmem<'a, T>, OpenError>,
    mapped: Result<OpenShmem<'a, T>, OpenError>,
)
    requires
        size_of::<T>() <= usize::MAX,
        call_ensures(SharedMemory::<'a, T>::open, (path, dir_name, on_tmpfs), opened),
        call_ensures(SharedMemory::<'a, T>::open_shmem, (path, dir_name, on_tmpfs), mapped),
    ensures
        size_of::<T>() % 4096 == 0 ==> opened == mapped,
        size_of::<T>() % 4096 != 0 ==> (opened matches Err(OpenError::DataSize(size)) && size
            == size_of::<T>()),
{
}

/// Mapping shared memory begins, for any path with a directory, by asking where that directory is
/// if it has to be on a `tmpfs`, and otherwise by opening the file for reading and writing. A path
/// without a directory is refused.
pub proof fn law_opening_begins_with_the_path<'a, 'b, T: Init>(
    path: Vec<u8>,
    dir_name: Option<Vec<u8>>,
    on_tmpfs: bool,
    op: &'b OpenShmem<'a, T>,
    action: Action<'b>,
    result: Result<OpenShmem<'a, T>, OpenError>,
)
    requires
        call_ensures(SharedMemory::<'a, T>::open_shmem, (path, dir_name, on_tmpfs), result),
        result is Ok ==> *op == result->Ok_0,
        call_ensures(OpenShmem::<'a, T>::action, (op,), action),
    ensures
        result is Ok <==> dir_name is Some,
        result is Err ==> result->Err_0 is BadPath,
        result is Ok ==> op.path@ == path@ && op.dir@ == dir_name->Some_0@,
        result is Ok && on_tmpfs ==> (action matches Action::Statfs { path: asked } && asked@
            == dir_name->Some_0@),
        result is Ok && !on_tmpfs ==> (action matches Action::Open { path: asked, flags, mode }
            && asked@ == path@ && flags.read_write && flags.close_on_exec && !flags.tmpfile && mode
            == 0),
{
}

/// Shared memory is the mapping that it was made of: what is read is what is mapped.
pub proof fn law_shared_memory_is_its_mapping<'a, T: Init>(
    mmap: Mmap<'a, T>,
    shared: SharedMemory<'a, T>,
    data: &T,
)
    requires
        call_ensures(SharedMemory::<'a, T>::from_mmap, (mmap,), shared),
        call_ensures(SharedMemory::<'a, T>::data, (&shared,), data),
    ensures
        *data == mmap.contents(),
{
}

/// What is written to shared memory is what is read from it next, and in the end from the memory
/// that is mapped.
pub proof fn law_shared_memory_gives_back_what_was_written<'a, T: Init>(
    shared: &mut SharedMemory<'a, T>,
    before: &T,
    written: &mut T,
    after: &T,
)
    requires
        call_ensures(SharedMemory::<'a, T>::data, (&*old(shared),), before),
        call_ensures(SharedMemory::<'a, T>::data_mut, (shared,), written),
        call_ensures(SharedMemory::<'a, T>::data, (&*final(shared),), after),
    ensures
        *old(written) == *before,
        *after == *final(written),
{
}

/// Memory of a file that was there is handed out untouched, and only if the check of its type says
/// yes.
pub proof fn law_memory_that_was_there_is_taken_as_it_is<'a, T: Init>(
    before: Mmap<'a, T>,
    result: Result<Mmap<'a, T>, OpenError>,
)
    requires
        call_ensures(mmap_file::<T>, (Ok(before), false), result),
    ensures
        match result {
            Ok(after) => after == before && call_ensures(
                T::check_type_magic,
                (&before.contents(),),
                Ok(()),
            ),
            Err(err) => err matches OpenError::WrongTypes(complaint) && call_ensures(
                T::check_type_magic,
                (&before.contents(),),
                Err(complaint),
            ) && *final(before.region) == before.contents(),
        },
{
}

/// New memory is initialized by its type, and is handed out only if the check of its type then says
/// yes.
pub proof fn law_new_memory_is_initialized_and_checked<'a, T: Init>(
    before: Mmap<'a, T>,
    result: Result<Mmap<'a, T>, OpenError>,
)
    requires
        call_ensures(mmap_file::<T>, (Ok(before), true), result),
    ensures
        match result {
            Ok(after) => T::initializes(before.contents(), after.contents()) && call_ensures(
                T::check_type_magic,
                (&after.contents(),),
                Ok(()),
            ) && *final(after.region) == *final(before.region),
            Err(err) => err matches OpenError::WrongTypes(complaint) && T::initializes(
                before.contents(),
                *final(before.region),
            ) && call_ensures(
                T::check_type_magic,
                (&*final(before.region),),
                Err(complaint),
            ),
        },
{
}

/// If nothing could be mapped, the reason is handed on.
pub proof fn law_failure_to_map_is_handed_on<'a, T: Init>(
    text: String,
    initialize: bool,
    result: Result<Mmap<'a, T>, OpenError>,
)
    requires
        call_ensures(mmap_file::<T>, (Err(text), initialize), result),
    ensures
        result matches Err(OpenError::Other(reason)) && reason@ == text@,
{
}

/// What is said of a failure names what it is about: the path, its directory, the size of the type
/// or the place of a zero byte, and the failure behind it in its own words.
pub proof fn law_failures_say_what_they_are_about(
    err: OpenError,
    path: &str,
    dir: &str,
    text: String,
)
    requires
        call_ensures(OpenError::message, (&err, path, dir), text),
    ensures
        err matches OpenError::DataSize(size) ==> exists|digits: Seq<u8>|
            number_read(digits) == size && #[trigger] is_all_digits(digits) && text@
                == "SharedMemory::open "@ + path@ + " failed - data size "@ + digits.map_values(
                |b: u8| b as char,
            ) + " is not a multiple of 4096"@,
        err is BadPath ==> text@ == "bad path "@ + path@,
        err is NotTmpfs ==> text@ == "path "@ + dir@ + " is not on tmpfs"@,
        err matches OpenError::Open(failure) ==> forall|said: String| #[trigger]
            call_ensures(SysError::message, (failure,), said) ==> text@ == "open "@ + path@
                + " failed - "@ + said@,
        err matches OpenError::OpenTmpfile(failure) ==> forall|said: String| #[trigger]
            call_ensures(SysError::message, (failure,), said) ==> text@ == "open tmpfile in "@
                + dir@ + " failed - "@ + said@,
        err matches OpenError::WrongTypes(failure) ==> forall|said: String| #[trigger]
            call_ensures(Error::message, (&failure,), said) ==> text@
                == "detected wrong types in mmaped files: "@ + said@,
        err matches OpenError::NulInPath(place) ==> exists|digits: Seq<u8>|
            number_read(digits) == place && #[trigger] is_all_digits(digits) && text@
                == "nul byte found in provided data at position: "@ + digits.map_values(
                |b: u8| b as char,
            ),
        err matches OpenError::Sys(failure) ==> forall|said: String| #[trigger]
            call_ensures(SysError::message, (failure,), said) ==> text@ == said@,
        err matches OpenError::Other(reason) ==> text@ == reason@,
{
    match err {
        OpenError::DataSize(n) | OpenError::NulInPath(n) => {
            law_decimal_reads_back(n as nat);
            assert(is_all_digits(decimal(n as nat)));
        },
        _ => {},
    }
}

} // verus!
