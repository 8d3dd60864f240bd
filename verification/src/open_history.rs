//! What several processes that open the same path can see of each other, in whatever order their
//! system calls are answered.

use vstd::layout::size_of;
use vstd::prelude::*;

use crate::errno::CallError;
use crate::init::{may_answer, Init};
use crate::open_shmem::{
    is_fresh, proc_path, Action, Answer, OpenFlags, OpenShmem, State, Step,
};
use crate::shared_memory::{page_ceil, Mmap, SharedMemory};
use crate::shared_mutex::{law_initialized_mutex_has_initialized_data, SharedMutex};

verus! {

/// The files around one path, and the processes that use them. Files and processes go by numbers.
pub struct World<'a, T> {
    /// The path.
    pub path: Seq<u8>,
    /// The file that was there at first, if any.
    pub found: Option<int>,
    /// The file that is there now, if any.
    pub place: Option<int>,
    /// What the files hold.
    pub contents: Map<int, T>,
    /// The lengths that were set.
    pub lengths: Map<int, i64>,
    /// The files whose memory was initialized.
    pub initialized: Set<int>,
    /// What files held when they had been initialized and had passed the check of their type.
    pub checked: Map<int, T>,
    /// The processes that are opening the path.
    pub ops: Map<int, OpenShmem<'a, T>>,
    /// The file that each of them opened last.
    pub held: Map<int, int>,
    /// The descriptor that each of them has of that file.
    pub fds: Map<int, i32>,
    /// The processes that mapped their file such that others see their writes.
    pub sharing: Set<int>,
    /// The processes that succeeded, and the file that each of them has mapped.
    pub opened: Map<int, int>,
}

/// What can happen.
pub enum Event<'a, T> {
    /// A process starts to open the path.
    Start { who: int, op: OpenShmem<'a, T> },
    /// A process asks for a system call, gets its answer, and goes on.
    Go { who: int, action: Action<'a>, answer: Answer<'a, T>, step: Step<'a, T> },
    /// A process that succeeded writes to the shared memory.
    Write { who: int, data: T },
}

/// A file of this length is made of whole pages and has room for a value of type `T`. Only types
/// whose size in pages is more than a length can tell are left out.
pub open spec fn has_room<T>(len: i64) -> bool {
    size_of::<T>() + 4095 <= i64::MAX ==> len % 4096 == 0 && size_of::<T>() <= len
}

/// Memory may hold this when it has just been initialized.
pub open spec fn is_initial<T: Init>(data: T) -> bool {
    exists|before: T| #[trigger] T::initializes(before, data)
}

impl<'a, T> State<'a, T> {
    /// The open file is new, and has no other path yet.
    pub open spec fn has_new_file(self) -> bool {
        self is ApplyOptions || self is Truncate || self is MapNew || self is Link
    }
}

impl<'a, T: Init> World<'a, T> {
    /// Nobody has begun.
    pub open spec fn is_start(self) -> bool {
        &&& self.place == self.found
        &&& self.found matches Some(file) ==> self.contents.contains_key(file)
        &&& self.initialized == Set::<int>::empty()
        &&& self.checked == Map::<int, T>::empty()
        &&& self.ops == Map::<int, OpenShmem<'a, T>>::empty()
        &&& self.opened == Map::<int, int>::empty()
        &&& self.sharing == Set::<int>::empty()
    }

    /// No file and no descriptor changed.
    pub open spec fn has_same_files(self, after: Self) -> bool {
        &&& after.place == self.place
        &&& after.contents == self.contents
        &&& after.lengths == self.lengths
        &&& after.held == self.held
        &&& after.fds == self.fds
        &&& after.sharing == self.sharing
    }

    /// What the kernel does to answer a system call of the process. It goes by what it was asked
    /// for; nothing is said of calls for other paths, or on descriptors of other files.
    pub open spec fn kernel_does(
        self,
        who: int,
        action: Action<'a>,
        answer: Answer<'a, T>,
        after: Self,
    ) -> bool {
        let file = self.held[who];
        let fd_of_file = self.fds[who];
        match (action, answer) {
            // a new file without a name
            (Action::Open { flags: OpenFlags { tmpfile: true, .. }, .. }, Answer::Open(Ok(fd))) => {
                let new = after.held[who];
                &&& !self.contents.contains_key(new)
                &&& self.has_same_files(
                    World {
                        held: self.held,
                        fds: self.fds,
                        contents: after.contents.remove(new),
                        ..after
                    },
                )
                &&& after.contents.contains_key(new)
                &&& after.held == self.held.insert(who, new)
                &&& after.fds == self.fds.insert(who, fd)
            },
            // the file at the path
            (Action::Open { path, .. }, Answer::Open(Ok(fd))) => path@ == self.path ==> {
                &&& self.place is Some
                &&& self.has_same_files(World { held: self.held, fds: self.fds, ..after })
                &&& after.held == self.held.insert(who, self.place->Some_0)
                &&& after.fds == self.fds.insert(who, fd)
            },
            (Action::Open { path, flags, .. }, Answer::Open(Err(err))) => {
                &&& path@ == self.path && !flags.tmpfile && err == CallError::Errno(2)
                    ==> self.place is None
                &&& self.has_same_files(after)
            },
            (Action::Truncate { fd, len }, Answer::Truncate(Ok(_))) => fd == fd_of_file ==> {
                &&& self.has_same_files(World { lengths: self.lengths, ..after })
                &&& after.lengths == self.lengths.insert(file, len)
            },
            // the memory is that of the file if it is shared
            (Action::Mmap { fd, offset, count, mapping }, Answer::Mmap(Ok(mmap))) => fd == fd_of_file
                && offset == 0 && count == 1 ==> {
                &&& mapping.read ==> mmap.contents() == self.contents[file]
                &&& after.sharing == if mapping.shared && mapping.write {
                    self.sharing.insert(who)
                } else {
                    self.sharing.remove(who)
                }
                &&& self.has_same_files(
                    World { sharing: self.sharing, contents: self.contents, ..after },
                )
            },
            (Action::Link { from, to, follow_symlink }, Answer::Link(Ok(_))) => from@ == proc_path(
                fd_of_file,
            ) && to@ == self.path.push(0) && follow_symlink ==> {
                &&& self.place is None
                &&& self.has_same_files(World { place: self.place, ..after })
                &&& after.place == Some(file)
            },
            (Action::Link { to, .. }, Answer::Link(Err(err))) => {
                &&& to@ == self.path.push(0) && err == CallError::Errno(17) ==> self.place is Some
                &&& self.has_same_files(after)
            },
            _ => self.has_same_files(after),
        }
    }

    /// The file that the process initializes when it gets this answer.
    pub open spec fn initializes_file(self, event: Event<'a, T>) -> Option<int> {
        match event {
            Event::Go { who, answer: Answer::Mmap(Ok(_)), .. } => if self.ops[who].state is MapNew {
                Some(self.held[who])
            } else {
                None
            },
            _ => None,
        }
    }

    /// What the process does with the answer. What it does to memory that it shares, it does to the
    /// file.
    pub open spec fn process_does(
        self,
        who: int,
        action: Action<'a>,
        answer: Answer<'a, T>,
        step: Step<'a, T>,
        after: Self,
    ) -> bool {
        let op = self.ops[who];
        let file = self.held[who];
        let new = self.initializes_file(Event::Go { who, action, answer, step });
        &&& op.asks_for(action)
        &&& op.state.expects(answer)
        &&& op.leads_to(answer, step)
        &&& match new {
            Some(_) => {
                &&& after.sharing.contains(who) ==> {
                    &&& after.contents == self.contents.insert(file, after.contents[file])
                    &&& T::initializes(self.contents[file], after.contents[file])
                    &&& step matches Step::Next(next) ==> after.contents[file]
                        == next.state->Link_mmap.contents()
                }
                &&& !after.sharing.contains(who) ==> after.contents == self.contents
                &&& after.initialized == self.initialized.insert(file)
                &&& match step {
                    Step::Next(next) => after.checked == self.checked.insert(
                        file,
                        next.state->Link_mmap.contents(),
                    ),
                    Step::Done(_) => after.checked == self.checked,
                }
            },
            None => {
                &&& after.initialized == self.initialized
                &&& after.checked == self.checked
                &&& answer is Mmap ==> after.contents == self.contents
            },
        }
        &&& match step {
            Step::Next(next) => {
                &&& after.ops == self.ops.insert(who, next)
                &&& after.opened == self.opened
            },
            Step::Done(result) => {
                &&& after.ops == self.ops.remove(who)
                &&& after.opened == if result is Ok {
                    self.opened.insert(who, file)
                } else {
                    self.opened
                }
            },
        }
    }

    /// The event can happen, and leaves everything as in `after`. Nothing else writes to the files
    /// or changes what is at the path.
    pub open spec fn can_change(self, event: Event<'a, T>, after: Self) -> bool {
        match event {
            Event::Start { who, op } => {
                &&& !self.ops.contains_key(who)
                &&& !self.opened.contains_key(who)
                &&& is_fresh(op)
                &&& op.path@ == self.path
                &&& after == (World { ops: self.ops.insert(who, op), ..self })
            },
            Event::Go { who, action, answer, step } => {
                &&& self.ops.contains_key(who)
                &&& self.kernel_does(who, action, answer, after)
                &&& self.process_does(who, action, answer, step, after)
                &&& after.path == self.path
                &&& after.found == self.found
            },
            Event::Write { who, data } => {
                &&& self.opened.contains_key(who)
                &&& after == if self.sharing.contains(who) {
                    World { contents: self.contents.insert(self.opened[who], data), ..self }
                } else {
                    self
                }
            },
        }
    }

    /// The file has its full length, was initialized, and then passed the check of its type.
    pub open spec fn is_ready(self, file: int) -> bool {
        &&& self.lengths.contains_pair(file, page_ceil(size_of::<T>()) as i64)
        &&& has_room::<T>(self.lengths[file])
        &&& self.initialized.contains(file)
        &&& self.checked.contains_key(file)
        &&& is_initial(self.checked[file])
        &&& may_answer(self.checked[file], Ok(()))
    }

    /// The shared memory of a process that succeeded, as it is now: that of its file if it shares
    /// it, and otherwise any.
    pub open spec fn is_memory_of(self, who: int, shared: SharedMemory<'a, T>) -> bool {
        &&& self.opened.contains_key(who)
        &&& self.sharing.contains(who) ==> shared.mmap.contents()
            == self.contents[self.opened[who]]
    }

    /// A process that is opening the path has the right file for where it stands.
    spec fn is_op_sound(self, who: int) -> bool {
        let state = self.ops[who].state;
        let file = self.held[who];
        &&& self.ops[who].path@ == self.path
        &&& state.needed_fd() is Some ==> self.held.contains_key(who) && self.contents.contains_key(
            file,
        ) && self.fds[who] == state.needed_fd()->0
        &&& state is MapExisting || state is MapReopened ==> self.place == Some(file)
        &&& state.has_new_file() ==> self.place != Some(file)
        &&& state is ApplyOptions || state is Truncate || state is MapNew
            ==> !self.initialized.contains(file)
        &&& state is MapNew ==> self.lengths.contains_pair(
            file,
            page_ceil(size_of::<T>()) as i64,
        ) && has_room::<T>(self.lengths[file])
        &&& state matches State::Link { mmap, .. } ==> {
            &&& self.is_ready(file)
            &&& self.sharing.contains(who)
            &&& self.contents[file] == mmap.contents()
            &&& self.checked[file] == mmap.contents()
        }
    }

    /// No two processes have the same new file.
    spec fn are_new_files_distinct(self) -> bool {
        forall|a: int, b: int|
            #![trigger self.ops[a], self.ops[b]]
            self.ops.contains_key(a) && self.ops.contains_key(b) && a != b
                && self.ops[a].state.has_new_file() && self.ops[b].state.has_new_file()
                ==> self.held[a] != self.held[b]
    }

    /// What holds at all times.
    spec fn is_sound(self) -> bool {
        &&& self.found is Some ==> self.place == self.found
        &&& self.place matches Some(file) ==> self.contents.contains_key(file)
        &&& self.place matches Some(file) ==> if self.place == self.found {
            !self.initialized.contains(file)
        } else {
            self.is_ready(file)
        }
        &&& forall|file: int| #[trigger]
            self.initialized.contains(file) ==> self.contents.contains_key(file)
        &&& forall|who: int| #[trigger]
            self.opened.contains_key(who) ==> self.place == Some(self.opened[who])
                && self.sharing.contains(who) && !self.ops.contains_key(who)
        &&& forall|who: int| self.ops.contains_key(who) ==> #[trigger] self.is_op_sound(who)
        &&& self.are_new_files_distinct()
    }
}

/// A course of events, and the world before, between and after them.
pub open spec fn is_history<'a, T: Init>(
    worlds: Seq<World<'a, T>>,
    events: Seq<Event<'a, T>>,
) -> bool {
    &&& worlds.len() == events.len() + 1
    &&& worlds[0].is_start()
    &&& forall|i: int|
        #![trigger events[i]]
        0 <= i < events.len() ==> worlds[i].can_change(events[i], worlds[i + 1])
}

proof fn lemma_change_is_sound<'a, T: Init>(
    world: World<'a, T>,
    event: Event<'a, T>,
    after: World<'a, T>,
)
    requires
        world.is_sound(),
        world.can_change(event, after),
    ensures
        after.is_sound(),
        world.place is Some ==> after.place == world.place,
{
    match event {
        Event::Start { who, .. } => {
            assert forall|other: int| after.ops.contains_key(other) implies #[trigger]
            after.is_op_sound(other) by {
                if other != who {
                    assert(world.is_op_sound(other));
                }
            }
        },
        Event::Write { who, .. } => {
            assert forall|other: int| after.ops.contains_key(other) implies #[trigger]
            after.is_op_sound(other) by {
                assert(world.is_op_sound(other));
            }
        },
        Event::Go { who, .. } => {
            assert(world.is_op_sound(who));
            assert forall|other: int| after.ops.contains_key(other) implies #[trigger]
            after.is_op_sound(other) by {
                if other != who {
                    assert(world.is_op_sound(other));
                    assert(world.ops[other].state.has_new_file()
                        && world.ops[who].state.has_new_file() ==> world.held[other]
                        != world.held[who]);
                } else {
                    assert(after.ops[who].state is Link ==> is_initial(
                        after.contents[after.held[who]],
                    ));
                }
            }
            assert(after.are_new_files_distinct()) by {
                assert forall|a: int, b: int|
                    #![trigger after.ops[a], after.ops[b]]
                    after.ops.contains_key(a) && after.ops.contains_key(b) && a != b
                        && after.ops[a].state.has_new_file()
                        && after.ops[b].state.has_new_file() implies after.held[a]
                    != after.held[b] by {
                    assert(world.ops.contains_key(a) ==> world.is_op_sound(a));
                    assert(world.ops.contains_key(b) ==> world.is_op_sound(b));
                }
            }
        },
    }
}

proof fn lemma_history_is_sound<'a, T: Init>(
    worlds: Seq<World<'a, T>>,
    events: Seq<Event<'a, T>>,
    i: int,
)
    requires
        is_history(worlds, events),
        0 <= i < worlds.len(),
    ensures
        worlds[i].is_sound(),
        worlds[i].found == worlds[0].found,
    decreases i,
{
    if i > 0 {
        lemma_history_is_sound(worlds, events, i - 1);
        assert(worlds[i - 1].can_change(events[i - 1], worlds[i - 1 + 1]));
        lemma_change_is_sound(worlds[i - 1], events[i - 1], worlds[i]);
    }
}

/// If there was no file at first, then whenever there is one at the path it already has its full
/// length, was initialized, and then passed the check of its type.
pub proof fn law_visible_file_is_ready<'a, T: Init>(
    worlds: Seq<World<'a, T>>,
    events: Seq<Event<'a, T>>,
    i: int,
    file: int,
)
    requires
        is_history(worlds, events),
        0 <= i < worlds.len(),
        worlds[0].place is None,
        worlds[i].place == Some(file),
    ensures
        worlds[i].is_ready(file),
{
    lemma_history_is_sound(worlds, events, i);
}

/// The file at the path stays there.
pub proof fn law_file_keeps_its_place<'a, T: Init>(
    worlds: Seq<World<'a, T>>,
    events: Seq<Event<'a, T>>,
    i: int,
    j: int,
)
    requires
        is_history(worlds, events),
        0 <= i <= j < worlds.len(),
        worlds[i].place is Some,
    ensures
        worlds[j].place == worlds[i].place,
    decreases j - i,
{
    if i < j {
        lemma_history_is_sound(worlds, events, i);
        assert(worlds[i].can_change(events[i], worlds[i + 1]));
        lemma_change_is_sound(worlds[i], events[i], worlds[i + 1]);
        law_file_keeps_its_place(worlds, events, i + 1, j);
    }
}

/// Once initialized, a file counts as initialized for good.
proof fn lemma_initialized_stays<'a, T: Init>(
    worlds: Seq<World<'a, T>>,
    events: Seq<Event<'a, T>>,
    i: int,
    j: int,
    file: int,
)
    requires
        is_history(worlds, events),
        0 <= i <= j < worlds.len(),
        worlds[i].initialized.contains(file),
    ensures
        worlds[j].initialized.contains(file),
    decreases j - i,
{
    if i < j {
        assert(worlds[i].can_change(events[i], worlds[i + 1]));
        lemma_initialized_stays(worlds, events, i + 1, j, file);
    }
}

/// No file is initialized twice, by whichever processes.
pub proof fn law_files_are_initialized_once<'a, T: Init>(
    worlds: Seq<World<'a, T>>,
    events: Seq<Event<'a, T>>,
    i: int,
    j: int,
    file: int,
)
    requires
        is_history(worlds, events),
        0 <= i < events.len(),
        0 <= j < events.len(),
        worlds[i].initializes_file(events[i]) == Some(file),
        worlds[j].initializes_file(events[j]) == Some(file),
    ensures
        i == j,
{
    let first = if i < j {
        i
    } else {
        j
    };
    let second = if i < j {
        j
    } else {
        i
    };
    assert(worlds[first].can_change(events[first], worlds[first + 1]));
    assert(worlds[second].can_change(events[second], worlds[second + 1]));
    if first < second {
        lemma_initialized_stays(worlds, events, first + 1, second, file);
    }
    lemma_history_is_sound(worlds, events, second);
    let who = events[second]->Go_who;
    assert(worlds[second].is_op_sound(who));
}

/// The file at the path, whether it was there at first or was put there, is never initialized: that
/// happens to new files only, before they get their place.
pub proof fn law_visible_file_is_not_initialized<'a, T: Init>(
    worlds: Seq<World<'a, T>>,
    events: Seq<Event<'a, T>>,
    i: int,
    file: int,
)
    requires
        is_history(worlds, events),
        0 <= i < events.len(),
        worlds[i].initializes_file(events[i]) == Some(file),
    ensures
        worlds[i].place != Some(file),
        worlds[i + 1].place != Some(file),
{
    lemma_history_is_sound(worlds, events, i);
    assert(worlds[i].can_change(events[i], worlds[i + 1]));
    assert(worlds[i].is_op_sound(events[i]->Go_who));
}

/// All processes that succeed have mapped one and the same file, and it is the one that stays at
/// the path.
pub proof fn law_all_share_the_file_at_the_path<'a, T: Init>(
    worlds: Seq<World<'a, T>>,
    events: Seq<Event<'a, T>>,
    i: int,
    j: int,
    a: int,
    b: int,
)
    requires
        is_history(worlds, events),
        0 <= i <= j < worlds.len(),
        worlds[i].opened.contains_key(a),
        worlds[j].opened.contains_key(b),
    ensures
        worlds[i].opened[a] == worlds[j].opened[b],
        worlds[i].place == Some(worlds[i].opened[a]),
        worlds[j].place == worlds[i].place,
{
    lemma_history_is_sound(worlds, events, i);
    lemma_history_is_sound(worlds, events, j);
    law_file_keeps_its_place(worlds, events, i, j);
}

/// Opening leaves the memory of the file at the path alone, whether the process succeeds or not:
/// only writes of processes that succeeded change it.
pub proof fn law_only_writes_change_shared_memory<'a, T: Init>(
    worlds: Seq<World<'a, T>>,
    events: Seq<Event<'a, T>>,
    i: int,
    j: int,
    file: int,
)
    requires
        is_history(worlds, events),
        0 <= i <= j < worlds.len(),
        worlds[i].place == Some(file),
        forall|k: int| i <= k < j ==> !(#[trigger] events[k] is Write),
    ensures
        worlds[j].contents.contains_key(file),
        worlds[j].contents[file] == worlds[i].contents[file],
    decreases j - i,
{
    lemma_history_is_sound(worlds, events, i);
    if i < j {
        assert(worlds[i].can_change(events[i], worlds[i + 1]));
        law_file_keeps_its_place(worlds, events, i, i + 1);
        if let Event::Go { who, .. } = events[i] {
            assert(worlds[i].is_op_sound(who));
        }
        law_only_writes_change_shared_memory(worlds, events, i + 1, j, file);
    }
}

/// What one process writes is what every process that succeeded finds in its shared memory, until
/// somebody writes again.
pub proof fn law_write_is_seen_by_all<'a, T: Init>(
    worlds: Seq<World<'a, T>>,
    events: Seq<Event<'a, T>>,
    i: int,
    j: int,
    writer: int,
    data: T,
    reader: int,
    shared: SharedMemory<'a, T>,
)
    requires
        is_history(worlds, events),
        0 <= i < j < worlds.len(),
        events[i] == (Event::Write { who: writer, data }),
        forall|k: int| i < k < j ==> !(#[trigger] events[k] is Write),
        worlds[j].is_memory_of(reader, shared),
    ensures
        shared.mmap.contents() == data,
{
    lemma_history_is_sound(worlds, events, i);
    lemma_history_is_sound(worlds, events, j);
    assert(worlds[i].can_change(events[i], worlds[i + 1]));
    law_all_share_the_file_at_the_path(worlds, events, i, j, writer, reader);
    law_only_writes_change_shared_memory(worlds, events, i + 1, j, worlds[i].opened[writer]);
}

/// A process that succeeds gets the memory of the file at the path, as it is then, and it has passed
/// the check of its type.
pub proof fn law_success_gives_the_memory_at_the_path<'a, T: Init>(
    worlds: Seq<World<'a, T>>,
    events: Seq<Event<'a, T>>,
    i: int,
    who: int,
    action: Action<'a>,
    answer: Answer<'a, T>,
    mmap: Mmap<'a, T>,
)
    requires
        is_history(worlds, events),
        0 <= i < events.len(),
        events[i] == (Event::Go { who, action, answer, step: Step::Done(Ok(mmap)) }),
    ensures
        worlds[i + 1].is_memory_of(who, SharedMemory { mmap }),
        worlds[i + 1].sharing.contains(who),
        worlds[i + 1].place == Some(worlds[i + 1].opened[who]),
        mmap.contents() == worlds[i + 1].contents[worlds[i + 1].opened[who]],
        may_answer(mmap.contents(), Ok(())),
{
    lemma_history_is_sound(worlds, events, i);
    assert(worlds[i].can_change(events[i], worlds[i + 1]));
    assert(worlds[i].is_op_sound(who));
}

/// A mutex that was put at the path was free then, had its magic number, and held data that its own
/// type had initialized.
pub proof fn law_visible_mutex_held_initialized_data<'a, T: Init>(
    worlds: Seq<World<'a, SharedMutex<T>>>,
    events: Seq<Event<'a, SharedMutex<T>>>,
    i: int,
    file: int,
)
    requires
        is_history(worlds, events),
        0 <= i < worlds.len(),
        worlds[0].place is None,
        worlds[i].place == Some(file),
    ensures
        exists|before: T| #[trigger] T::initializes(before, worlds[i].checked[file].data),
        worlds[i].checked[file].inner is Unlocked,
        worlds[i].checked[file].magic@ == seq![124u8, 229, 154, 62, 248, 0, 154, 55],
{
    law_visible_file_is_ready(worlds, events, i, file);
    let after = worlds[i].checked[file];
    let before = choose|before: SharedMutex<T>| #[trigger]
        SharedMutex::<T>::initializes(before, after);
    law_initialized_mutex_has_initialized_data(before, after);
}

/// Every process that succeeds shares its memory with all the others.
pub proof fn law_success_is_shared<'a, T: Init>(
    worlds: Seq<World<'a, T>>,
    events: Seq<Event<'a, T>>,
    i: int,
    who: int,
)
    requires
        is_history(worlds, events),
        0 <= i < worlds.len(),
        worlds[i].opened.contains_key(who),
    ensures
        worlds[i].sharing.contains(who),
{
    lemma_history_is_sound(worlds, events, i);
}

/// A file that was put at the path had been given a length in whole pages, with room for its value.
pub proof fn law_visible_file_has_room_for_its_value<'a, T: Init>(
    worlds: Seq<World<'a, T>>,
    events: Seq<Event<'a, T>>,
    i: int,
    file: int,
)
    requires
        size_of::<T>() + 4095 <= i64::MAX,
        is_history(worlds, events),
        0 <= i < worlds.len(),
        worlds[0].place is None,
        worlds[i].place == Some(file),
    ensures
        worlds[i].lengths.contains_key(file),
        worlds[i].lengths[file] % 4096 == 0,
        size_of::<T>() <= worlds[i].lengths[file],
{
    law_visible_file_is_ready(worlds, events, i, file);
}

} // verus!
