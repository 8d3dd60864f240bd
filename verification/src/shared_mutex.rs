//! A mutex that lives in shared memory together with the data that it protects.

use vstd::pervasive::unreached;
use vstd::prelude::*;

use crate::init::{may_answer, Error, Init};
use crate::text::bytes_equal;

verus! {

/// The first eight bytes of the SHA-256 digest of `Proxmox SharedMutex v1.0`.
pub const PROXMOX_SHARED_MUTEX_MAGIC_1_0: [u8; 8] = [124, 229, 154, 62, 248, 0, 154, 55];

/// The lock itself: who waits for it, and for how long, is the operating system's business; here
/// it is what the lock can be found in.
#[derive(Clone, Copy, Debug, PartialEq, Eq, Structural)]
pub enum RawSharedMutex {
    /// Not ready for use between processes.
    Uninitialized,
    /// Nobody holds the lock.
    Unlocked,
    /// Somebody holds the lock.
    Locked,
}

impl RawSharedMutex {
    /// A lock that has to be initialized before it is used.
    pub fn uninitialized() -> (raw: Self)
        ensures
            raw == RawSharedMutex::Uninitialized,
    {
        RawSharedMutex::Uninitialized
    }

    /// Makes the lock ready for use.
    pub fn init(&mut self)
        ensures
            *final(self) == RawSharedMutex::Unlocked,
    {
        *self = RawSharedMutex::Unlocked;
    }

    /// Takes the lock. Waiting for a lock that is held does not end in here.
    pub fn lock(&mut self)
        requires
            *old(self) == RawSharedMutex::Unlocked,
        ensures
            *final(self) == RawSharedMutex::Locked,
    {
        *self = RawSharedMutex::Locked;
    }

    /// Takes the lock if nobody holds it, and tells whether it did.
    pub fn try_lock(&mut self) -> (acquired: bool)
        requires
            *old(self) != RawSharedMutex::Uninitialized,
        ensures
            acquired == (*old(self) == RawSharedMutex::Unlocked),
            *final(self) == RawSharedMutex::Locked,
    {
        match *self {
            RawSharedMutex::Unlocked => {
                *self = RawSharedMutex::Locked;
                true
            },
            _ => false,
        }
    }

    /// Gives the lock back.
    pub fn unlock(&mut self)
        requires
            *old(self) == RawSharedMutex::Locked,
        ensures
            *final(self) == RawSharedMutex::Unlocked,
    {
        *self = RawSharedMutex::Unlocked;
    }
}

/// What a user of a mutex does.
pub enum Move<T> {
    /// Takes the lock.
    Lock,
    /// Asks for the lock in vain.
    FailToLock,
    /// Writes the data, while holding the lock.
    Write(T),
    /// Gives the lock back.
    Unlock,
}

/// A mutex with its data, as plain values. Where other processes map the memory, the lock is one
/// of the C library's, and each call below happens at the moment at which that lock is taken or
/// given back.
#[derive(Debug)]
pub struct SharedMutex<T> {
    /// Tells memory that holds a mutex from memory that holds something else.
    pub magic: [u8; 8],
    /// The lock.
    pub inner: RawSharedMutex,
    /// What the lock protects.
    pub data: T,
}

impl<T> SharedMutex<T> {
    /// The mutex starts with its magic number.
    pub open spec fn has_magic(self) -> bool {
        self.magic@ == PROXMOX_SHARED_MUTEX_MAGIC_1_0@
    }

    /// The mutex with its lock in another state, and all else as it is.
    pub open spec fn with_lock(self, inner: RawSharedMutex) -> Self {
        SharedMutex { inner, ..self }
    }

    /// The mutex with other data, and all else as it is.
    pub open spec fn with_data(self, data: T) -> Self {
        SharedMutex { data, ..self }
    }

    /// The move can be made on the mutex, and turns it into `after`.
    pub open spec fn makes(self, step: Move<T>, after: Self) -> bool {
        match step {
            Move::Lock => self.inner == RawSharedMutex::Unlocked && after == self.with_lock(
                RawSharedMutex::Locked,
            ),
            Move::FailToLock => self.inner == RawSharedMutex::Locked && after == self,
            Move::Write(data) => self.inner == RawSharedMutex::Locked && after == self.with_data(
                data,
            ),
            Move::Unlock => self.inner == RawSharedMutex::Locked && after == self.with_lock(
                RawSharedMutex::Unlocked,
            ),
        }
    }

    /// Takes the lock and gives access to the data until the guard is handed to
    /// [`SharedMutex::unlock`] or goes out of scope.
    pub fn lock(&mut self) -> (guard: SharedMutexGuard<'_, T>)
        requires
            old(self).inner == RawSharedMutex::Unlocked,
        ensures
            guard.holds_lock(),
            old(self).makes(Move::Lock, guard.mutex()),
            *final(self) == *final(guard.access()),
    {
        self.inner.lock();
        SharedMutexGuard::new(self)
    }

    /// Takes the lock if nobody holds it. Otherwise there is no guard and nothing changes.
    pub fn try_lock(&mut self) -> (guard: Option<SharedMutexGuard<'_, T>>)
        requires
            old(self).inner != RawSharedMutex::Uninitialized,
        ensures
            guard is Some <==> old(self).inner == RawSharedMutex::Unlocked,
            match guard {
                Some(guard) => {
                    &&& guard.holds_lock()
                    &&& old(self).makes(Move::Lock, guard.mutex())
                    &&& *final(self) == *final(guard.access())
                },
                None => old(self).makes(Move::FailToLock, *final(self)),
            },
    {
        if self.inner.try_lock() {
            Some(SharedMutexGuard::new(self))
        } else {
            None
        }
    }

    /// Gives the lock back. The data stays as the guard left it.
    pub fn unlock(guard: SharedMutexGuard<'_, T>)
        requires
            guard.holds_lock(),
        ensures
            guard.mutex().makes(Move::Unlock, *final(guard.access())),
    {
        let mut guard = guard;
        match guard.lock.take() {
            Some(lock) => lock.inner.unlock(),
            None => unreached(),
        }
    }
}

impl<T: Init> Init for SharedMutex<T> {
    open spec fn initializes(before: Self, after: Self) -> bool {
        &&& after.has_magic()
        &&& after.inner == RawSharedMutex::Unlocked
        &&& T::initializes(before.data, after.data)
    }

    fn initialize(this: &mut Self) {
        this.magic = PROXMOX_SHARED_MUTEX_MAGIC_1_0;
        this.inner = RawSharedMutex::uninitialized();
        this.inner.init();
        T::initialize(&mut this.data);
    }

    fn check_type_magic(this: &Self) -> (result: Result<(), Error>)
        ensures
            result == (if this.has_magic() {
                Ok::<(), Error>(())
            } else {
                Err(Error::WrongMagic)
            }),
    {
        let expected: [u8; 8] = PROXMOX_SHARED_MUTEX_MAGIC_1_0;
        if !bytes_equal(this.magic.as_slice(), expected.as_slice()) {
            return Err(Error::WrongMagic);
        }
        Ok(())
    }
}

/// Access to the data of a locked mutex. A guard that goes out of scope gives the lock back.
#[must_use]
pub struct SharedMutexGuard<'a, T> {
    // none once the lock was given back
    lock: Option<&'a mut SharedMutex<T>>,
}

impl<'a, T> SharedMutexGuard<'a, T> {
    /// The guard has a mutex, and that mutex is locked.
    pub closed spec fn holds_lock(self) -> bool {
        &&& self.lock is Some
        &&& self.lock->0.inner == RawSharedMutex::Locked
    }

    /// The guard's access to the mutex.
    pub closed spec fn access(self) -> &'a mut SharedMutex<T> {
        self.lock->0
    }

    /// The mutex that the guard has locked, as it is now.
    pub open spec fn mutex(self) -> SharedMutex<T> {
        *self.access()
    }

    /// Guards a mutex whose lock was just taken.
    fn new(lock: &'a mut SharedMutex<T>) -> (guard: Self)
        requires
            old(lock).inner == RawSharedMutex::Locked,
        ensures
            guard.holds_lock(),
            guard.mutex() == *old(lock),
            *final(guard.access()) == *final(lock),
    {
        SharedMutexGuard { lock: Some(lock) }
    }

    /// Gives the lock back, unless that was done already. The data stays as it is.
    pub(crate) fn release(&mut self)
        ensures
            old(self).holds_lock() ==> {
                &&& old(self).mutex().makes(Move::Unlock, final(self).mutex())
                &&& *final(final(self).access()) == *final(old(self).access())
            },
        opens_invariants none
        no_unwind
    {
        if let Some(lock) = &mut self.lock {
            lock.inner = RawSharedMutex::Unlocked;
        }
    }

    /// The protected data.
    pub fn deref(&self) -> (data: &T)
        requires
            self.holds_lock(),
        ensures
            *data == self.mutex().data,
    {
        match &self.lock {
            Some(lock) => &lock.data,
            None => unreached(),
        }
    }

    /// The protected data, for writing.
    pub fn deref_mut(&mut self) -> (data: &mut T)
        requires
            old(self).holds_lock(),
        ensures
            *data == old(self).mutex().data,
            final(self).holds_lock(),
            old(self).mutex().makes(Move::Write(*final(data)), final(self).mutex()),
            *final(final(self).access()) == *final(old(self).access()),
    {
        match &mut self.lock {
            Some(lock) => &mut lock.data,
            None => unreached(),
        }
    }
}

impl<'a, T> Drop for SharedMutexGuard<'a, T> {
    /// Gives the lock back, unless that was done already. The data stays as it is.
    fn drop(&mut self)
        ensures
            old(self).holds_lock() ==> {
                &&& old(self).mutex().makes(Move::Unlock, final(self).mutex())
                &&& *final(final(self).access()) == *final(old(self).access())
            },
        opens_invariants none
        no_unwind
    {
        self.release();
    }
}

/// Memory that was initialized as a mutex passes the check for one, whatever it held before and
/// whatever type of data it protects.
pub proof fn law_initialized_mutex_has_its_type<T: Init>(
    before: SharedMutex<T>,
    after: SharedMutex<T>,
    result: Result<(), Error>,
)
    requires
        SharedMutex::<T>::initializes(before, after),
        may_answer(after, result),
    ensures
        result == Ok::<(), Error>(()),
{
}

/// Only the magic number decides whether memory passes the check for a mutex.
pub proof fn law_magic_decides_the_type<T: Init>(mutex: SharedMutex<T>, result: Result<(), Error>)
    requires
        may_answer(mutex, result),
    ensures
        result is Ok <==> mutex.magic@ == PROXMOX_SHARED_MUTEX_MAGIC_1_0@,
        result is Err ==> result == Err::<(), Error>(Error::WrongMagic),
{
}

/// A mutex that is taken, whose data is overwritten and that is given back is as before but for
/// the data, so that the next holder reads what was written.
pub proof fn law_next_holder_reads_what_was_written<T>(
    mutex: SharedMutex<T>,
    data: T,
    held: SharedMutex<T>,
    written: SharedMutex<T>,
    released: SharedMutex<T>,
    held_again: SharedMutex<T>,
)
    requires
        mutex.makes(Move::Lock, held),
        held.makes(Move::Write(data), written),
        written.makes(Move::Unlock, released),
        released.makes(Move::Lock, held_again),
    ensures
        held.data == mutex.data,
        released == mutex.with_data(data),
        held_again.data == data,
{
}

/// Nothing that users of a mutex do takes its type away from it.
pub proof fn law_use_keeps_the_type<T>(mutex: SharedMutex<T>, step: Move<T>, after: SharedMutex<T>)
    requires
        mutex.makes(step, after),
    ensures
        after.has_magic() == mutex.has_magic(),
{
}

/// A lock that was made ready can be taken, but only once before it is given back.
pub proof fn law_ready_lock_is_taken_once(
    made: RawSharedMutex,
    raw: &mut RawSharedMutex,
    first: &mut RawSharedMutex,
    second: &mut RawSharedMutex,
    third: &mut RawSharedMutex,
    fourth: &mut RawSharedMutex,
    a: bool,
    b: bool,
    c: bool,
)
    requires
        call_ensures(RawSharedMutex::uninitialized, (), made),
        call_ensures(RawSharedMutex::init, (raw,), ()),
        *old(first) == *final(raw),
        call_ensures(RawSharedMutex::try_lock, (first,), a),
        *old(second) == *final(first),
        call_ensures(RawSharedMutex::try_lock, (second,), b),
        *old(third) == *final(second),
        call_ensures(RawSharedMutex::unlock, (third,), ()),
        *old(fourth) == *final(third),
        call_ensures(RawSharedMutex::try_lock, (fourth,), c),
    ensures
        made is Uninitialized,
        *final(raw) is Unlocked,
        a && !b && c,
{
}

/// Waiting for a lock ends with the lock taken, so that nobody else gets it.
pub proof fn law_awaited_lock_is_taken(
    raw: &mut RawSharedMutex,
    later: &mut RawSharedMutex,
    acquired: bool,
)
    requires
        call_ensures(RawSharedMutex::lock, (raw,), ()),
        *old(later) == *final(raw),
        call_ensures(RawSharedMutex::try_lock, (later,), acquired),
    ensures
        *final(raw) is Locked,
        !acquired,
        *final(later) is Locked,
{
}

/// A lock is taken exactly if it was free; whether or not it was, it is locked afterwards.
pub proof fn law_free_lock_is_taken(raw: &mut RawSharedMutex, acquired: bool)
    requires
        call_ensures(RawSharedMutex::try_lock, (raw,), acquired),
    ensures
        acquired <==> *old(raw) is Unlocked,
        *final(raw) is Locked,
{
}

/// A lock that is given back, or made ready, is free.
pub proof fn law_given_back_lock_is_free(raw: &mut RawSharedMutex, other: &mut RawSharedMutex)
    requires
        call_ensures(RawSharedMutex::unlock, (raw,), ()),
        call_ensures(RawSharedMutex::init, (other,), ()),
    ensures
        *final(raw) is Unlocked,
        *final(other) is Unlocked,
{
}

/// Initializing a mutex gives it its magic number and a lock that is free, and initializes its data
/// as the type of the data does it, whatever that type is.
pub proof fn law_initialized_mutex_has_initialized_data<T: Init>(
    before: SharedMutex<T>,
    after: SharedMutex<T>,
)
    requires
        SharedMutex::<T>::initializes(before, after),
    ensures
        T::initializes(before.data, after.data),
        after.inner is Unlocked,
        after.magic@ == seq![124u8, 229, 154, 62, 248, 0, 154, 55],
{
    assert(after.magic@ =~= seq![124u8, 229, 154, 62, 248, 0, 154, 55]);
}

/// The same, of a mutex in its place in memory.
pub proof fn law_initializing_a_mutex_initializes_its_data<T: Init>(mutex: &mut SharedMutex<T>)
    requires
        call_ensures(<SharedMutex<T> as Init>::initialize, (mutex,), ()),
    ensures
        T::initializes(old(mutex).data, final(mutex).data),
        final(mutex).inner is Unlocked,
        final(mutex).magic@ == seq![124u8, 229, 154, 62, 248, 0, 154, 55],
{
    law_initialized_mutex_has_initialized_data(*old(mutex), *final(mutex));
}

/// Memory counts as a mutex exactly if it starts with these eight bytes, whatever state the lock
/// and the data are in; anything else is refused for its magic number.
pub proof fn law_mutex_is_known_by_its_first_bytes<T: Init>(
    mutex: SharedMutex<T>,
    result: Result<(), Error>,
)
    requires
        call_ensures(<SharedMutex<T> as Init>::check_type_magic, (&mutex,), result),
    ensures
        result is Ok <==> mutex.magic@ == seq![124u8, 229, 154, 62, 248, 0, 154, 55],
        result is Err ==> result->Err_0 is WrongMagic,
{
    assert(PROXMOX_SHARED_MUTEX_MAGIC_1_0@ =~= seq![124u8, 229, 154, 62, 248, 0, 154, 55]);
}

/// Taking a mutex changes its lock and nothing else, and the guard reads the data that is there.
pub proof fn law_locking_gives_the_data<T>(
    mutex: &mut SharedMutex<T>,
    guard: SharedMutexGuard<'_, T>,
    data: &T,
)
    requires
        call_ensures(SharedMutex::<T>::lock, (mutex,), guard),
        call_ensures(SharedMutexGuard::<'_, T>::deref, (&guard,), data),
    ensures
        guard.holds_lock(),
        guard.mutex().inner is Locked,
        guard.mutex().magic == old(mutex).magic,
        guard.mutex().data == old(mutex).data,
        *data == old(mutex).data,
{
}

/// A mutex is handed out without waiting exactly if it is free. It is then as if it had been waited
/// for; if it is not free, it stays as it is.
pub proof fn law_free_mutex_is_handed_out<T>(
    mutex: &mut SharedMutex<T>,
    guard: Option<SharedMutexGuard<'_, T>>,
)
    requires
        call_ensures(SharedMutex::<T>::try_lock, (mutex,), guard),
    ensures
        guard is Some <==> old(mutex).inner is Unlocked,
        guard is None ==> *final(mutex) == *old(mutex),
        guard is Some ==> guard->0.holds_lock(),
        guard is Some ==> guard->0.mutex().inner is Locked,
        guard is Some ==> guard->0.mutex().magic == old(mutex).magic,
        guard is Some ==> guard->0.mutex().data == old(mutex).data,
{
}

/// A mutex that is taken, written to through its guard and given back is free, has the data that
/// was written and is otherwise as before. The guard reads what it wrote.
pub proof fn law_guarded_write_stays<'a, T>(
    mutex: &'a mut SharedMutex<T>,
    guard: &mut SharedMutexGuard<'a, T>,
    written: &mut T,
    read: &T,
)
    requires
        call_ensures(SharedMutex::<T>::lock, (mutex,), *old(guard)),
        call_ensures(SharedMutexGuard::<'a, T>::deref_mut, (guard,), written),
        call_ensures(SharedMutexGuard::<'a, T>::deref, (&*final(guard),), read),
        call_ensures(SharedMutex::<T>::unlock, (*final(guard),), ()),
    ensures
        *old(written) == old(mutex).data,
        *read == *final(written),
        final(mutex).data == *final(written),
        final(mutex).inner is Unlocked,
        final(mutex).magic == old(mutex).magic,
{
}

/// The same without waiting, and without a write: a mutex that is taken and given back is as it
/// was.
pub proof fn law_taking_and_giving_back_changes_nothing<'a, T>(
    mutex: &'a mut SharedMutex<T>,
    guard: SharedMutexGuard<'a, T>,
)
    requires
        call_ensures(SharedMutex::<T>::try_lock, (mutex,), Some(guard)),
        call_ensures(SharedMutex::<T>::unlock, (guard,), ()),
    ensures
        *final(mutex) == *old(mutex),
{
}

/// A guard that goes out of scope gives its mutex back, with the data as it is.
pub(crate) proof fn law_guard_gives_its_mutex_back<'a, T>(guard: &mut SharedMutexGuard<'a, T>)
    requires
        old(guard).holds_lock(),
        call_ensures(SharedMutexGuard::<'a, T>::release, (guard,), ()),
    ensures
        final(guard).mutex().inner is Unlocked,
        final(guard).mutex().data == old(guard).mutex().data,
        final(guard).mutex().magic == old(guard).mutex().magic,
{
}

/// Of all that users do, taking and giving back changes the lock alone, writing changes the data
/// alone and needs the lock, and failing changes nothing.
pub proof fn law_moves_change_one_thing<T>(
    mutex: SharedMutex<T>,
    step: Move<T>,
    after: SharedMutex<T>,
)
    requires
        mutex.makes(step, after),
    ensures
        after.magic == mutex.magic,
        step is Lock <==> mutex.inner is Unlocked && after.inner is Locked,
        step is Unlock <==> mutex.inner is Locked && after.inner is Unlocked,
        step is FailToLock || step is Write ==> mutex.inner is Locked && after.inner is Locked,
        !(step is Write) ==> after.data == mutex.data,
        step matches Move::Write(data) ==> after.data == data,
{
}

} // verus!
