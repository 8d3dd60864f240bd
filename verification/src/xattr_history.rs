//! What is set, read and listed of the attributes of one file, if the kernel does its part.

use vstd::prelude::*;

use crate::errno::Errno;
use crate::xattr::{
    is_sound_offer, law_list_gives_its_names_back, list_of, names_in, GetXAttrCall, GetXAttrStep,
    ListXAttr, ListXAttrCall, ListXAttrStep, SetXAttrCall,
};

verus! {

/// What the kernel does with bytes that are asked for: if there is room for all of them they come
/// to stand at the start of the buffer and their number is returned, else the call fails for want
/// of room.
pub open spec fn kernel_fills(
    bytes: Seq<u8>,
    offered: Seq<u8>,
    filled: Seq<u8>,
    returned: isize,
    errno: i32,
) -> bool {
    &&& filled.len() == offered.len()
    &&& if bytes.len() <= offered.len() {
        returned == bytes.len() && filled.take(bytes.len() as int) == bytes
    } else {
        returned < 0 && errno == 34
    }
}

/// What the kernel does with an attribute that is set: it keeps the value unless it says that the
/// call failed.
pub open spec fn kernel_keeps(
    before: Map<Seq<u8>, Seq<u8>>,
    call: SetXAttrCall<'_>,
    returned: i32,
    after: Map<Seq<u8>, Seq<u8>>,
) -> bool {
    after == if returned >= 0 {
        before.insert(call.name@, call.data@)
    } else {
        before
    }
}

/// `filled` is the call after the kernel filled its buffer.
pub open spec fn kernel_reads<'a>(
    value: Seq<u8>,
    call: GetXAttrCall<'a>,
    filled: GetXAttrCall<'a>,
    returned: isize,
    errno: i32,
) -> bool {
    &&& filled.fd == call.fd
    &&& filled.name == call.name
    &&& kernel_fills(value, call.buffer@, filled.buffer@, returned, errno)
}

/// Reading an attribute that has this value comes to `result`, after so many retries at most.
pub open spec fn reads_to<'a>(
    value: Seq<u8>,
    call: GetXAttrCall<'a>,
    retries: nat,
    result: Result<Vec<u8>, Errno>,
) -> bool
    decreases retries,
{
    exists|filled: GetXAttrCall<'a>, returned: isize, errno: i32, step: GetXAttrStep<'a>|
        {
            &&& kernel_reads(value, call, filled, returned, errno)
            &&& #[trigger] filled.leads_to(returned, errno, step)
            &&& match step {
                GetXAttrStep::Retry(next) => retries > 0 && reads_to(
                    value,
                    next,
                    (retries - 1) as nat,
                    result,
                ),
                GetXAttrStep::Done(end) => end == result,
            }
        }
}

/// `filled` is the call after the kernel filled its buffer.
pub open spec fn kernel_lists(
    list: Seq<u8>,
    call: ListXAttrCall,
    filled: ListXAttrCall,
    returned: isize,
    errno: i32,
) -> bool {
    &&& filled.fd == call.fd
    &&& kernel_fills(list, call.buffer@, filled.buffer@, returned, errno)
}

/// Listing the attributes of a file that has this list comes to `result`, after so many retries at
/// most.
pub open spec fn lists_to(
    list: Seq<u8>,
    call: ListXAttrCall,
    retries: nat,
    result: Result<ListXAttr, Errno>,
) -> bool
    decreases retries,
{
    exists|filled: ListXAttrCall, returned: isize, errno: i32, step: ListXAttrStep|
        {
            &&& kernel_lists(list, call, filled, returned, errno)
            &&& #[trigger] filled.leads_to(returned, errno, step)
            &&& match step {
                ListXAttrStep::Retry(next) => retries > 0 && lists_to(
                    list,
                    next,
                    (retries - 1) as nat,
                    result,
                ),
                ListXAttrStep::Done(end) => end == result,
            }
        }
}

/// A call is made again only if it offered too little room; there is then room to double as long
/// as a vector can hold what is asked for twice over.
pub proof fn law_retries_are_needed_and_possible(
    bytes: Seq<u8>,
    offered: Seq<u8>,
    filled: Seq<u8>,
    returned: isize,
    errno: i32,
)
    requires
        kernel_fills(bytes, offered, filled, returned, errno),
        returned < 0,
    ensures
        offered.len() < bytes.len(),
        bytes.len() <= isize::MAX / 2 + 1 ==> is_sound_offer(filled.len()),
{
}

/// Reading gives the whole value and nothing else, however often the room has to grow.
pub proof fn law_get_gives_the_value<'a>(
    value: Seq<u8>,
    call: GetXAttrCall<'a>,
    retries: nat,
    result: Result<Vec<u8>, Errno>,
)
    requires
        value.len() <= isize::MAX,
        reads_to(value, call, retries, result),
    ensures
        result matches Ok(read) && read@ == value,
    decreases retries,
{
    let (filled, returned, errno, step) = choose|
        filled: GetXAttrCall<'a>,
        returned: isize,
        errno: i32,
        step: GetXAttrStep<'a>,
    |
        {
            &&& kernel_reads(value, call, filled, returned, errno)
            &&& #[trigger] filled.leads_to(returned, errno, step)
            &&& match step {
                GetXAttrStep::Retry(next) => retries > 0 && reads_to(
                    value,
                    next,
                    (retries - 1) as nat,
                    result,
                ),
                GetXAttrStep::Done(end) => end == result,
            }
        };
    match step {
        GetXAttrStep::Retry(next) => law_get_gives_the_value(
            value,
            next,
            (retries - 1) as nat,
            result,
        ),
        GetXAttrStep::Done(_) => {},
    }
}

/// What was set is what is read, as long as nobody changed the attribute in between; others may
/// have changed.
pub proof fn law_get_gives_what_was_set<'a, 'b>(
    set: SetXAttrCall<'a>,
    returned: i32,
    errno: i32,
    end: Result<(), Errno>,
    before: Map<Seq<u8>, Seq<u8>>,
    after: Map<Seq<u8>, Seq<u8>>,
    later: Map<Seq<u8>, Seq<u8>>,
    get: GetXAttrCall<'b>,
    retries: nat,
    result: Result<Vec<u8>, Errno>,
)
    requires
        set.data@.len() <= isize::MAX,
        set.ends_in(returned, errno, end),
        end is Ok,
        kernel_keeps(before, set, returned, after),
        later.contains_pair(set.name@, after[set.name@]),
        get.fd == set.fd,
        get.name@ == set.name@,
        reads_to(later[get.name@], get, retries, result),
    ensures
        result matches Ok(read) && read@ == set.data@,
{
    law_get_gives_the_value(later[get.name@], get, retries, result);
}

/// Setting an attribute, or failing to, leaves all others as they are.
pub proof fn law_set_leaves_other_attributes_alone(
    set: SetXAttrCall<'_>,
    returned: i32,
    before: Map<Seq<u8>, Seq<u8>>,
    after: Map<Seq<u8>, Seq<u8>>,
    other: Seq<u8>,
)
    requires
        kernel_keeps(before, set, returned, after),
        other != set.name@ || returned < 0,
    ensures
        before.contains_key(other) == after.contains_key(other),
        before.contains_key(other) ==> after[other] == before[other],
{
}

/// Listing gives all the names of the attributes, in the kernel's order, however often the room
/// has to grow.
pub proof fn law_list_gives_all_names(
    names: Seq<Seq<u8>>,
    call: ListXAttrCall,
    retries: nat,
    result: Result<ListXAttr, Errno>,
)
    requires
        list_of(names).len() <= isize::MAX,
        forall|i: int| 0 <= i < names.len() ==> !(#[trigger] names[i]).contains(0),
        lists_to(list_of(names), call, retries, result),
    ensures
        result matches Ok(list) && list@ == list_of(names) && names_in(list@) == names,
    decreases retries,
{
    law_list_gives_its_names_back(names);
    let (filled, returned, errno, step) = choose|
        filled: ListXAttrCall,
        returned: isize,
        errno: i32,
        step: ListXAttrStep,
    |
        {
            &&& kernel_lists(list_of(names), call, filled, returned, errno)
            &&& #[trigger] filled.leads_to(returned, errno, step)
            &&& match step {
                ListXAttrStep::Retry(next) => retries > 0 && lists_to(
                    list_of(names),
                    next,
                    (retries - 1) as nat,
                    result,
                ),
                ListXAttrStep::Done(end) => end == result,
            }
        };
    match step {
        ListXAttrStep::Retry(next) => law_list_gives_all_names(
            names,
            next,
            (retries - 1) as nat,
            result,
        ),
        ListXAttrStep::Done(_) => {},
    }
}

} // verus!
