//! What several users of one mutex can see of each other, in whatever order they come.

use vstd::prelude::*;

use crate::shared_mutex::{Move, RawSharedMutex, SharedMutex};

verus! {

/// The user `who` can make this move on a mutex, given with the user who holds it, if anybody, and
/// leaves the mutex and its holder as in `after`.
pub open spec fn can_move<T>(
    before: (SharedMutex<T>, Option<int>),
    who: int,
    step: Move<T>,
    after: (SharedMutex<T>, Option<int>),
) -> bool {
    &&& before.0.makes(step, after.0)
    &&& match step {
        Move::Lock => after.1 == Some(who),
        Move::FailToLock => after.1 == before.1,
        Move::Write(_) => before.1 == Some(who) && after.1 == before.1,
        Move::Unlock => before.1 == Some(who) && after.1 is None,
    }
}

/// The mutex is locked exactly if somebody holds it.
pub open spec fn is_consistent<T>(state: (SharedMutex<T>, Option<int>)) -> bool {
    &&& state.0.inner != RawSharedMutex::Uninitialized
    &&& state.0.inner == RawSharedMutex::Locked <==> state.1 is Some
}

/// A course of moves, and the mutex with its holder before, between and after them.
pub open spec fn is_history<T>(
    states: Seq<(SharedMutex<T>, Option<int>)>,
    moves: Seq<(int, Move<T>)>,
) -> bool {
    &&& states.len() == moves.len() + 1
    &&& is_consistent(states[0])
    &&& forall|i: int|
        #![trigger moves[i]]
        0 <= i < moves.len() ==> can_move(states[i], moves[i].0, moves[i].1, states[i + 1])
}

/// The lock always tells whether somebody holds it.
pub proof fn law_lock_tells_of_its_holder<T>(
    states: Seq<(SharedMutex<T>, Option<int>)>,
    moves: Seq<(int, Move<T>)>,
    i: int,
)
    requires
        is_history(states, moves),
        0 <= i < states.len(),
    ensures
        is_consistent(states[i]),
    decreases i,
{
    if i > 0 {
        law_lock_tells_of_its_holder(states, moves, i - 1);
        assert(can_move(states[i - 1], moves[i - 1].0, moves[i - 1].1, states[i - 1 + 1]));
    }
}

/// Nobody becomes the holder of a mutex before the one who holds it has given it back.
pub proof fn law_one_holder_at_a_time<T>(
    states: Seq<(SharedMutex<T>, Option<int>)>,
    moves: Seq<(int, Move<T>)>,
    i: int,
    j: int,
    first: int,
    second: int,
)
    requires
        is_history(states, moves),
        0 <= i <= j < states.len(),
        states[i].1 == Some(first),
        states[j].1 == Some(second),
        first != second,
    ensures
        exists|k: int| i <= k < j && #[trigger] moves[k] == (first, Move::<T>::Unlock),
    decreases j - i,
{
    law_lock_tells_of_its_holder(states, moves, i);
    assert(can_move(states[i], moves[i].0, moves[i].1, states[i + 1]));
    if states[i + 1].1 == Some(first) {
        law_one_holder_at_a_time(states, moves, i + 1, j, first, second);
    } else {
        assert(moves[i] == (first, Move::<T>::Unlock));
    }
}

/// As long as the holder of a mutex does nothing, the data stays as it is and so does the holder.
pub proof fn law_data_waits_for_its_holder<T>(
    states: Seq<(SharedMutex<T>, Option<int>)>,
    moves: Seq<(int, Move<T>)>,
    i: int,
    j: int,
    who: int,
)
    requires
        is_history(states, moves),
        0 <= i <= j < states.len(),
        states[i].1 == Some(who),
        forall|k: int| i <= k < j ==> (#[trigger] moves[k]).0 != who,
    ensures
        states[j].1 == Some(who),
        states[j].0 == states[i].0,
    decreases j - i,
{
    if i < j {
        law_lock_tells_of_its_holder(states, moves, i);
        assert(can_move(states[i], moves[i].0, moves[i].1, states[i + 1]));
        law_data_waits_for_its_holder(states, moves, i + 1, j, who);
    }
}

/// The writes among the moves.
pub open spec fn writes_in<T>(moves: Seq<(int, Move<T>)>) -> nat
    decreases moves.len(),
{
    if moves.len() == 0 {
        0
    } else {
        writes_in(moves.drop_last()) + if moves.last().1 is Write {
            1nat
        } else {
            0nat
        }
    }
}

/// Whoever writes at `j` took the lock at `i`, read the data after that, did nothing in between,
/// and writes what was read with its count raised by `amount`.
pub open spec fn raises_count_at<T>(
    states: Seq<(SharedMutex<T>, Option<int>)>,
    moves: Seq<(int, Move<T>)>,
    count: spec_fn(T) -> int,
    amount: int,
    i: int,
    j: int,
) -> bool {
    let who = moves[j].0;
    &&& 0 <= i < j
    &&& moves[i] == (who, Move::<T>::Lock)
    &&& forall|k: int| i < k < j ==> (#[trigger] moves[k]).0 != who
    &&& moves[j].1 matches Move::Write(data) && count(data) == count(states[i + 1].0.data) + amount
}

/// If every write raises a count that was read under the lock, no raise gets lost, in whatever
/// order the users come: the count grows by as much as all the writes together add.
pub proof fn law_no_raise_gets_lost<T>(
    states: Seq<(SharedMutex<T>, Option<int>)>,
    moves: Seq<(int, Move<T>)>,
    count: spec_fn(T) -> int,
    amount: int,
)
    requires
        is_history(states, moves),
        forall|j: int|
            0 <= j < moves.len() && (#[trigger] moves[j]).1 is Write ==> exists|i: int|
                raises_count_at(states, moves, count, amount, i, j),
    ensures
        count(states.last().0.data) == count(states[0].0.data) + amount * writes_in(moves),
{
    lemma_raises_add_up(states, moves, count, amount, moves.len() as int);
    assert(moves.take(moves.len() as int) =~= moves);
}

proof fn lemma_raises_add_up<T>(
    states: Seq<(SharedMutex<T>, Option<int>)>,
    moves: Seq<(int, Move<T>)>,
    count: spec_fn(T) -> int,
    amount: int,
    n: int,
)
    requires
        is_history(states, moves),
        0 <= n <= moves.len(),
        forall|j: int|
            0 <= j < moves.len() && (#[trigger] moves[j]).1 is Write ==> exists|i: int|
                raises_count_at(states, moves, count, amount, i, j),
    ensures
        count(states[n].0.data) == count(states[0].0.data) + amount * writes_in(moves.take(n)),
    decreases n,
{
    if n > 0 {
        let j = n - 1;
        lemma_raises_add_up(states, moves, count, amount, j);
        assert(moves.take(n).drop_last() =~= moves.take(j));
        assert(can_move(states[j], moves[j].0, moves[j].1, states[j + 1]));
        let before = writes_in(moves.take(j)) as int;
        if moves[j].1 is Write {
            let i = choose|i: int| raises_count_at(states, moves, count, amount, i, j);
            let who = moves[j].0;
            assert(can_move(states[i], moves[i].0, moves[i].1, states[i + 1]));
            law_data_waits_for_its_holder(states, moves, i + 1, j, who);
            assert(amount * (before + 1) == amount * before + amount) by (nonlinear_arith);
        }
    } else {
        assert(amount * 0 == 0) by (nonlinear_arith);
    }
}

} // verus!
