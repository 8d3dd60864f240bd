use proxmox::errno::{CallError, Errno, SysError};
use proxmox::init::{check_subtype, initialize_subtype, Error, Init};
use proxmox::open_shmem::{proc_fd_path, Action, Answer, OpenShmem, Step};
use proxmox::shared_memory::{mmap_file, up_to_page_size, Mmap, OpenError, SharedMemory};
use proxmox::shared_mutex::{RawSharedMutex, SharedMutex, PROXMOX_SHARED_MUTEX_MAGIC_1_0};

#[derive(Debug)]
#[allow(dead_code)]
struct TestData {
    count: u64,
    value1: u64,
    value2: u64,
}

impl Init for TestData {
    fn initialize(this: &mut Self) {
        *this = TestData {
            count: 0,
            value1: 0xffff_ffff_ffff_0000,
            value2: 0x0000_ffff_ffff_ffff,
        };
    }
}

const MUTEX_SIZE: usize = std::mem::size_of::<SharedMutex<TestData>>();

struct SingleMutexData {
    data: SharedMutex<TestData>,
    _padding: [u8; 4096 - MUTEX_SIZE],
}

impl Init for SingleMutexData {
    fn initialize(this: &mut Self) {
        initialize_subtype(&mut this.data);
    }

    fn check_type_magic(this: &Self) -> Result<(), Error> {
        check_subtype(&this.data)
    }
}

struct MultiMutexData {
    acount: u64,
    block1: SharedMutex<TestData>,
    block2: SharedMutex<TestData>,
    _padding: [u8; 4096 - 8 - 2 * MUTEX_SIZE],
}

impl Init for MultiMutexData {
    fn initialize(this: &mut Self) {
        initialize_subtype(&mut this.block1);
        initialize_subtype(&mut this.block2);
    }

    fn check_type_magic(this: &Self) -> Result<(), Error> {
        check_subtype(&this.block1)?;
        check_subtype(&this.block2)?;
        Ok(())
    }
}

fn blank_mutex() -> SharedMutex<TestData> {
    SharedMutex {
        magic: [0; 8],
        inner: RawSharedMutex::Uninitialized,
        data: TestData { count: 9, value1: 9, value2: 9 },
    }
}

fn blank_single() -> SingleMutexData {
    SingleMutexData { data: blank_mutex(), _padding: [0; 4096 - MUTEX_SIZE] }
}

fn blank_multi() -> MultiMutexData {
    MultiMutexData {
        acount: 5,
        block1: blank_mutex(),
        block2: blank_mutex(),
        _padding: [0; 4096 - 8 - 2 * MUTEX_SIZE],
    }
}

fn next<'a, T: Init>(op: OpenShmem<'a, T>, answer: Answer<'a, T>) -> OpenShmem<'a, T> {
    match op.step(answer) {
        Step::Next(op) => op,
        Step::Done(_) => panic!("there is more to do"),
    }
}

fn done<'a, T: Init>(op: OpenShmem<'a, T>, answer: Answer<'a, T>) -> Result<Mmap<'a, T>, OpenError> {
    match op.step(answer) {
        Step::Next(_) => panic!("there is nothing more to do"),
        Step::Done(result) => result,
    }
}

fn start<'a, T: Init>() -> OpenShmem<'a, T> {
    SharedMemory::open(b"/run/test/a.shm".to_vec(), Some(b"/run/test".to_vec()), true)
        .unwrap_or_else(|_| panic!("the type fills its pages"))
}

/// The operation up to the point where the new file is mapped.
fn until_new_file_is_mapped<'a, T: Init>() -> OpenShmem<'a, T> {
    let op = next(start(), Answer::Statfs(Ok(0x0102_1994)));
    let op = next(op, Answer::Open(Err(CallError::Errno(2))));
    let op = next(op, Answer::Open(Ok(11)));
    let op = next(op, Answer::ApplyOptions(Ok(())));
    next(op, Answer::Truncate(Ok(())))
}

fn create<T: Init>(memory: &mut T) -> SharedMemory<'_, T> {
    let op = next(until_new_file_is_mapped(), Answer::Mmap(Ok(Mmap { region: memory })));
    match done(op, Answer::Link(Ok(()))) {
        Ok(mmap) => SharedMemory::from_mmap(mmap),
        Err(_) => panic!("the memory is ready"),
    }
}

fn open_existing<T: Init>(memory: &mut T) -> Result<SharedMemory<'_, T>, OpenError> {
    let op = next(start(), Answer::Statfs(Ok(0x0102_1994)));
    let op = next(op, Answer::Open(Ok(4)));
    done(op, Answer::Mmap(Ok(Mmap { region: memory }))).map(SharedMemory::from_mmap)
}

fn count(mutex: &mut SharedMutex<TestData>) -> u64 {
    mutex.lock().deref().count
}

fn increase(mutex: &mut SharedMutex<TestData>, by: u64) {
    let mut guard = mutex.lock();
    guard.deref_mut().count += by;
    SharedMutex::unlock(guard);
}

#[test]
fn test_shared_memory_mutex() {
    let mut memory = blank_single();
    let mut shared = create(&mut memory);
    assert_eq!(shared.data().data.data.value1, 0xffff_ffff_ffff_0000);
    assert_eq!(shared.data().data.data.value2, 0x0000_ffff_ffff_ffff);

    let start = count(&mut shared.data_mut().data);
    for _ in 0..100 {
        increase(&mut shared.data_mut().data, 1);
    }
    let end = count(&mut shared.data_mut().data);

    assert_eq!(end - start, 100);
    assert_eq!(memory.data.data.count, 100);
}

#[test]
fn test_shared_memory_multi_mutex() {
    let mut memory = blank_multi();
    let mut shared = create(&mut memory);

    let start1 = count(&mut shared.data_mut().block1);
    let start2 = count(&mut shared.data_mut().block2);
    for _ in 0..100 {
        let data = shared.data_mut();
        let mut guard = data.block1.lock();
        guard.deref_mut().count += 1;
        let mut guard = data.block2.lock();
        guard.deref_mut().count += 2;
    }

    let end1 = count(&mut shared.data_mut().block1);
    assert_eq!(end1 - start1, 100);

    let end2 = count(&mut shared.data_mut().block2);
    assert_eq!(end2 - start2, 200);
    assert_eq!(shared.data().acount, 5);
}

#[test]
fn created_memory_opens_elsewhere_with_its_data() {
    let mut memory = blank_single();
    let mut shared = create(&mut memory);
    increase(&mut shared.data_mut().data, 42);
    let mut again = match open_existing(&mut memory) {
        Ok(shared) => shared,
        Err(_) => panic!("the memory has its type"),
    };
    assert_eq!(count(&mut again.data_mut().data), 42);
}

#[test]
fn memory_without_magic_is_refused() {
    let mut memory = blank_single();
    assert!(matches!(
        open_existing(&mut memory),
        Err(OpenError::WrongTypes(Error::WrongMagic))
    ));
    let mut memory = blank_multi();
    initialize_subtype(&mut memory.block1);
    assert!(matches!(
        open_existing(&mut memory),
        Err(OpenError::WrongTypes(Error::WrongMagic))
    ));
    assert_eq!(memory.block2.data.count, 9);
}

#[test]
fn one_wrong_byte_spoils_the_magic() {
    for i in 0..8 {
        let mut mutex = blank_mutex();
        initialize_subtype(&mut mutex);
        assert_eq!(mutex.magic, PROXMOX_SHARED_MUTEX_MAGIC_1_0);
        assert!(check_subtype(&mutex).is_ok());
        mutex.magic[i] ^= 1;
        let err = check_subtype(&mutex).unwrap_err();
        assert_eq!(err.message(), "SharedMutex: wrong magic number");
    }
}

#[test]
fn held_mutex_is_not_taken_again() {
    let mut mutex = blank_mutex();
    initialize_subtype(&mut mutex);
    std::mem::forget(mutex.try_lock().unwrap());
    assert_eq!(mutex.inner, RawSharedMutex::Locked);
    assert!(mutex.try_lock().is_none());
    assert_eq!(mutex.inner, RawSharedMutex::Locked);
    mutex.inner.unlock();
    let guard = mutex.try_lock().unwrap();
    SharedMutex::unlock(guard);
    assert_eq!(mutex.inner, RawSharedMutex::Unlocked);
}

#[test]
fn guard_gives_the_lock_back_when_it_goes() {
    let mut mutex = blank_mutex();
    initialize_subtype(&mut mutex);
    {
        let mut guard = mutex.lock();
        guard.deref_mut().count = 3;
        assert_eq!(guard.deref().count, 3);
    }
    assert_eq!(mutex.inner, RawSharedMutex::Unlocked);
    assert_eq!(mutex.data.count, 3);
    drop(mutex.try_lock());
    assert_eq!(mutex.inner, RawSharedMutex::Unlocked);
    assert_eq!(mutex.lock().deref().count, 3);
}

#[test]
fn guards_of_two_mutexes_overlap() {
    let mut memory = blank_multi();
    let mut shared = create(&mut memory);
    let data = shared.data_mut();
    let mut first = data.block1.lock();
    first.deref_mut().count = 1;
    assert_eq!(data.block2.inner, RawSharedMutex::Unlocked);
    let mut second = data.block2.lock();
    second.deref_mut().count = 2;
    assert_eq!((first.deref().count, second.deref().count), (1, 2));
    drop(first);
    assert_eq!(data.block1.inner, RawSharedMutex::Unlocked);
    SharedMutex::unlock(second);
    assert_eq!(data.block2.inner, RawSharedMutex::Unlocked);
}

#[test]
fn refused_memory_of_an_existing_file_keeps_its_bytes() {
    let mut memory = Picky { value: 0 };
    let op = SharedMemory::open_shmem(b"a".to_vec(), Some(b"".to_vec()), false);
    let op = next(op.unwrap_or_else(|_| panic!("the path has a directory")), Answer::Open(Ok(3)));
    let err = error(op, Answer::Mmap(Ok(Mmap { region: &mut memory })));
    assert!(matches!(err, OpenError::WrongTypes(Error::Custom(text)) if text == "value is 0"));
    assert_eq!(memory.value, 0);
}

#[test]
fn refused_memory_of_the_winner_keeps_its_bytes() {
    let mut own = Picky { value: 6 };
    let mut winners = Picky { value: 6 };
    let op = SharedMemory::open_shmem(b"a".to_vec(), Some(b"".to_vec()), false);
    let op = op.unwrap_or_else(|_| panic!("the path has a directory"));
    let op = next(op, Answer::Open(Err(CallError::Errno(2))));
    let op = next(op, Answer::Open(Ok(3)));
    let op = next(op, Answer::ApplyOptions(Ok(())));
    let op = next(op, Answer::Truncate(Ok(())));
    let op = next(op, Answer::Mmap(Ok(Mmap { region: &mut own })));
    let op = next(op, Answer::Link(Err(CallError::Errno(17))));
    let op = next(op, Answer::Open(Ok(4)));
    let err = error(op, Answer::Mmap(Ok(Mmap { region: &mut winners })));
    assert!(matches!(err, OpenError::WrongTypes(Error::Custom(text)) if text == "value is 6"));
    assert_eq!((own.value, winners.value), (7, 6));
}

#[test]
fn two_processes_that_race_share_what_they_write() {
    let mut winners = blank_single();
    let mut losers = blank_single();
    let winner = until_new_file_is_mapped();
    let loser = until_new_file_is_mapped();
    let loser = next(loser, Answer::Mmap(Ok(Mmap { region: &mut losers })));
    let winner = next(winner, Answer::Mmap(Ok(Mmap { region: &mut winners })));
    let mmap = done(winner, Answer::Link(Ok(()))).unwrap_or_else(|_| panic!("it was first"));
    increase(&mut SharedMemory::from_mmap(mmap).data_mut().data, 7);
    let loser = next(loser, Answer::Link(Err(CallError::Errno(17))));
    let loser = next(loser, Answer::Open(Ok(8)));
    let mmap = done(loser, Answer::Mmap(Ok(Mmap { region: &mut winners })));
    let mut shared = match mmap {
        Ok(mmap) => SharedMemory::from_mmap(mmap),
        Err(_) => panic!("the memory has its type"),
    };
    assert_eq!(shared.data().data.data.count, 7);
    increase(&mut shared.data_mut().data, 1);
    assert_eq!(winners.data.data.count, 8);
    assert_eq!(losers.data.data.count, 0);
}

#[test]
fn any_data_has_its_type_by_default() {
    assert!(check_subtype(&TestData { count: 1, value1: 2, value2: 3 }).is_ok());
}

#[test]
fn sizes_are_rounded_up_to_pages() {
    assert_eq!(up_to_page_size(0), 0);
    assert_eq!(up_to_page_size(1), 4096);
    assert_eq!(up_to_page_size(4095), 4096);
    assert_eq!(up_to_page_size(4096), 4096);
    assert_eq!(up_to_page_size(4097), 8192);
}

#[test]
fn type_has_to_fill_its_pages() {
    let result = SharedMemory::<TestData>::open(b"a".to_vec(), Some(b"".to_vec()), true);
    match result {
        Err(err) => {
            assert!(matches!(err, OpenError::DataSize(24)));
            assert_eq!(
                err.message("\"a\"", "\"\""),
                "SharedMemory::open \"a\" failed - data size 24 is not a multiple of 4096"
            );
        }
        Ok(_) => panic!("the type is too small"),
    }
    assert!(SharedMemory::<TestData>::open_shmem(b"a".to_vec(), Some(b"".to_vec()), true).is_ok());
}

#[test]
fn path_needs_a_directory() {
    match SharedMemory::<SingleMutexData>::open(b"/".to_vec(), None, true) {
        Err(err) => {
            assert!(matches!(err, OpenError::BadPath));
            assert_eq!(err.message("\"/\"", ""), "bad path \"/\"");
        }
        Ok(_) => panic!("there is no directory"),
    }
}

#[test]
fn calls_for_a_new_file() {
    let op = start::<SingleMutexData>();
    assert!(matches!(op.action(), Action::Statfs { path } if path == b"/run/test"));
    let op = next(op, Answer::Statfs(Ok(0x0102_1994)));
    match op.action() {
        Action::Open { path, flags, mode } => {
            assert_eq!((path, mode), (&b"/run/test/a.shm"[..], 0));
            assert!(flags.read_write && flags.close_on_exec && !flags.tmpfile);
        }
        _ => panic!("the file is opened"),
    }
    assert_eq!(op.open_file(), None);
    let op = next(op, Answer::Open(Err(CallError::Errno(2))));
    match op.action() {
        Action::Open { path, flags, mode } => {
            assert_eq!((path, mode), (&b"/run/test"[..], 0));
            assert!(flags.read_write && flags.close_on_exec && flags.tmpfile);
        }
        _ => panic!("a new file is created"),
    }
    let op = next(op, Answer::Open(Ok(23)));
    assert_eq!(op.open_file(), Some(23));
    assert!(matches!(op.action(), Action::ApplyOptions { fd: 23, path } if path == b"/run/test"));
    let op = next(op, Answer::ApplyOptions(Ok(())));
    assert!(matches!(op.action(), Action::Truncate { fd: 23, len: 4096 }));
    let op = next(op, Answer::Truncate(Ok(())));
    match op.action() {
        Action::Mmap { fd, offset, count, mapping } => {
            assert_eq!((fd, offset, count), (23, 0, 1));
            assert!(mapping.read && mapping.write && mapping.shared);
            assert!(mapping.noreserve && mapping.populate);
        }
        _ => panic!("the new file is mapped"),
    }
    let mut memory = blank_single();
    let op = next(op, Answer::Mmap(Ok(Mmap { region: &mut memory })));
    assert_eq!(op.open_file(), Some(23));
    match op.action() {
        Action::Link { from, to, follow_symlink } => {
            assert_eq!(from, b"/proc/self/fd/23\0");
            assert_eq!(to, b"/run/test/a.shm\0");
            assert!(follow_symlink);
        }
        _ => panic!("the file gets its place"),
    }
    assert!(done(op, Answer::Link(Ok(()))).is_ok());
    assert_eq!(memory.data.magic, PROXMOX_SHARED_MUTEX_MAGIC_1_0);
}

#[test]
fn small_types_get_a_whole_page() {
    let op = SharedMemory::<TestData>::open_shmem(b"a".to_vec(), Some(b"".to_vec()), false);
    let op = match op {
        Ok(op) => op,
        Err(_) => panic!("the path has a directory"),
    };
    assert!(matches!(op.action(), Action::Open { .. }));
    let op = next(op, Answer::Open(Err(CallError::Errno(2))));
    let op = next(op, Answer::Open(Ok(0)));
    let op = next(op, Answer::ApplyOptions(Ok(())));
    assert!(matches!(op.action(), Action::Truncate { fd: 0, len: 4096 }));
}

#[test]
fn loser_of_the_race_maps_the_winners_file() {
    let mut winner = blank_single();
    let mut shared = create(&mut winner);
    increase(&mut shared.data_mut().data, 3);
    let mut loser = blank_single();
    let op = until_new_file_is_mapped();
    let op = next(op, Answer::Mmap(Ok(Mmap { region: &mut loser })));
    let op = next(op, Answer::Link(Err(CallError::Errno(17))));
    assert_eq!(op.open_file(), None);
    assert!(matches!(op.action(), Action::Open { path, .. } if path == b"/run/test/a.shm"));
    let op = next(op, Answer::Open(Ok(12)));
    assert!(matches!(op.action(), Action::Mmap { fd: 12, .. }));
    let mmap = done(op, Answer::Mmap(Ok(Mmap { region: &mut winner })));
    let mut shared = match mmap {
        Ok(mmap) => SharedMemory::from_mmap(mmap),
        Err(_) => panic!("the memory has its type"),
    };
    assert_eq!(count(&mut shared.data_mut().data), 3);
}

fn message(err: &OpenError) -> String {
    err.message("\"/run/test/a.shm\"", "\"/run/test\"")
}

fn error<'a, T: Init>(op: OpenShmem<'a, T>, answer: Answer<'a, T>) -> OpenError {
    match op.step(answer) {
        Step::Done(Err(err)) => err,
        _ => panic!("the operation fails"),
    }
}

#[test]
fn errors_before_the_file_is_open() {
    let err = error(start::<SingleMutexData>(), Answer::Statfs(Ok(0xef53)));
    assert_eq!(message(&err), "path \"/run/test\" is not on tmpfs");
    let err = error(start::<SingleMutexData>(), Answer::Statfs(Err(CallError::Errno(2))));
    assert!(matches!(err, OpenError::Sys(SysError::Errno(Errno::ENOENT))));
    assert_eq!(message(&err), "ENOENT: No such file or directory");
    let op = next(start::<SingleMutexData>(), Answer::Statfs(Ok(0x0102_1994)));
    let err = error(op, Answer::Open(Err(CallError::Errno(13))));
    assert_eq!(message(&err), "open \"/run/test/a.shm\" failed - EACCES: Permission denied");
    let op = next(start::<SingleMutexData>(), Answer::Statfs(Ok(0x0102_1994)));
    let err = error(op, Answer::Open(Err(CallError::InvalidPath)));
    assert_eq!(message(&err), "open \"/run/test/a.shm\" failed - Invalid path");
    let op = next(start::<SingleMutexData>(), Answer::Statfs(Ok(0x0102_1994)));
    let op = next(op, Answer::Open(Ok(3)));
    let err = error(op, Answer::Mmap(Err("mmap failed".to_string())));
    assert_eq!(message(&err), "mmap failed");
}

#[test]
fn errors_on_the_new_file() {
    let op = next(start::<SingleMutexData>(), Answer::Statfs(Ok(0x0102_1994)));
    let op = next(op, Answer::Open(Err(CallError::Errno(2))));
    let err = error(op, Answer::Open(Err(CallError::Errno(2))));
    assert_eq!(
        message(&err),
        "open tmpfile in \"/run/test\" failed - ENOENT: No such file or directory"
    );
    let op = next(start::<SingleMutexData>(), Answer::Statfs(Ok(0x0102_1994)));
    let op = next(op, Answer::Open(Err(CallError::Errno(2))));
    let op = next(op, Answer::Open(Ok(3)));
    let err = error(op, Answer::ApplyOptions(Err("not owner".to_string())));
    assert_eq!(message(&err), "not owner");
    let op = next(start::<SingleMutexData>(), Answer::Statfs(Ok(0x0102_1994)));
    let op = next(op, Answer::Open(Err(CallError::Errno(2))));
    let op = next(op, Answer::Open(Ok(3)));
    let op = next(op, Answer::ApplyOptions(Ok(())));
    let err = error(op, Answer::Truncate(Err(CallError::Errno(28))));
    assert!(matches!(err, OpenError::Sys(SysError::Errno(Errno::Other(28)))));
    let err = error(until_new_file_is_mapped::<SingleMutexData>(), Answer::Mmap(Err("x".to_string())));
    assert!(matches!(err, OpenError::Other(text) if text == "x"));
}

#[test]
fn errors_at_the_end() {
    let mut memory = blank_single();
    let op = next(until_new_file_is_mapped(), Answer::Mmap(Ok(Mmap { region: &mut memory })));
    assert!(matches!(
        done(op, Answer::Link(Err(CallError::Errno(18)))),
        Err(OpenError::Sys(SysError::Errno(Errno::Other(18))))
    ));
    let mut memory = blank_single();
    let op = next(until_new_file_is_mapped(), Answer::Mmap(Ok(Mmap { region: &mut memory })));
    let op = next(op, Answer::Link(Err(CallError::Errno(17))));
    assert!(matches!(
        done(op, Answer::Open(Err(CallError::Errno(2)))),
        Err(OpenError::Open(SysError::Errno(Errno::ENOENT)))
    ));
}

#[test]
fn path_with_a_zero_byte_gets_no_file() {
    let op = SharedMemory::open(b"/run/a\0b\0".to_vec(), Some(b"/run".to_vec()), false);
    let op = match op {
        Ok(op) => op,
        Err(_) => panic!("the path has a directory"),
    };
    let op = next(op, Answer::Open(Err(CallError::Errno(2))));
    let op = next(op, Answer::Open(Ok(3)));
    let op = next(op, Answer::ApplyOptions(Ok(())));
    let op = next(op, Answer::Truncate(Ok(())));
    let mut memory = blank_single();
    match done(op, Answer::Mmap(Ok(Mmap { region: &mut memory }))) {
        Err(err) => {
            assert!(matches!(err, OpenError::NulInPath(6)));
            assert_eq!(message(&err), "nul byte found in provided data at position: 6");
        }
        Ok(_) => panic!("the path is not valid"),
    }
}

/// Data whose initialization leaves it in a state that it does not accept.
struct Picky {
    value: u64,
}

impl Init for Picky {
    fn initialize(this: &mut Self) {
        this.value += 1;
    }

    fn check_type_magic(this: &Self) -> Result<(), Error> {
        if this.value == 7 {
            Ok(())
        } else {
            Err(Error::Custom(format!("value is {}", this.value)))
        }
    }
}

#[test]
fn own_checks_decide() {
    let mut memory = Picky { value: 6 };
    assert!(mmap_file(Ok(Mmap { region: &mut memory }), true).is_ok());
    assert_eq!(memory.value, 7);
    assert!(mmap_file(Ok(Mmap { region: &mut memory }), false).is_ok());
    assert_eq!(memory.value, 7);
    match mmap_file(Ok(Mmap { region: &mut memory }), true) {
        Err(err) => assert_eq!(
            message(&err),
            "detected wrong types in mmaped files: value is 8"
        ),
        Ok(_) => panic!("the check fails"),
    }
    assert_eq!(memory.value, 8);
}

#[test]
fn open_files_are_found_under_proc() {
    assert_eq!(proc_fd_path(0), b"/proc/self/fd/0\0");
    assert_eq!(proc_fd_path(1024), b"/proc/self/fd/1024\0");
    assert_eq!(proc_fd_path(i32::MAX), b"/proc/self/fd/2147483647\0");
    assert_eq!(proc_fd_path(i32::MIN), b"/proc/self/fd/-2147483648\0");
}
