//! Extended attributes of files.

use vstd::prelude::*;
use vstd::slice::slice_subrange;

use crate::errno::Errno;
use crate::text::{bytes_equal, bytes_of, bytes_start_with, first_zero};

verus! {

/// The name of an extended attribute: a byte string without zeros, kept with a zero byte behind it
/// as the kernel takes and gives it.
#[derive(Clone, Copy)]
pub struct XAttrName<'a> {
    bytes_with_nul: &'a [u8],
}

/// A byte string that ends in its only zero byte.
pub open spec fn ends_in_only_zero(bytes: Seq<u8>) -> bool {
    &&& bytes.len() > 0
    &&& bytes.last() == 0
    &&& !bytes.drop_last().contains(0)
}

impl<'a> View for XAttrName<'a> {
    type V = Seq<u8>;

    /// The bytes of the name.
    closed spec fn view(&self) -> Seq<u8> {
        self.bytes_with_nul@.drop_last()
    }
}

impl<'a> XAttrName<'a> {
    #[verifier::type_invariant]
    spec fn is_terminated(self) -> bool {
        ends_in_only_zero(self.bytes_with_nul@)
    }

    /// The name that the bytes spell, if they end in their only zero byte.
    pub fn from_bytes_with_nul(bytes: &'a [u8]) -> (name: Option<Self>)
        ensures
            match name {
                Some(name) => ends_in_only_zero(bytes@) && name@ == bytes@.drop_last(),
                None => !ends_in_only_zero(bytes@),
            },
    {
        match first_zero(bytes) {
            None => {
                assert(bytes@.len() > 0 ==> bytes@.contains(bytes@.last()));
                None
            },
            Some(place) => {
                if place == bytes.len() - 1 {
                    assert(bytes@.take(place as int) =~= bytes@.drop_last());
                    Some(XAttrName { bytes_with_nul: bytes })
                } else {
                    assert(bytes@.drop_last()[place as int] == 0);
                    None
                }
            },
        }
    }

    /// The bytes of the name.
    pub fn to_bytes(&self) -> (bytes: &'a [u8])
        ensures
            bytes@ == self@,
            !bytes@.contains(0),
    {
        proof {
            use_type_invariant(self);
        }
        let end: usize = self.bytes_with_nul.len() - 1;
        let bytes: &'a [u8] = slice_subrange(self.bytes_with_nul, 0, end);
        assert(bytes@ =~= self@);
        bytes
    }

    /// The bytes of the name and the zero byte behind it.
    pub fn to_bytes_with_nul(&self) -> (bytes: &'a [u8])
        ensures
            bytes@ == self@.push(0),
            !self@.contains(0),
    {
        proof {
            use_type_invariant(self);
            assert(self.bytes_with_nul@ =~= self@.push(0));
        }
        self.bytes_with_nul
    }

    /// The name that an ASCII text spells, if the text ends in its only zero.
    fn from_text(text: &'static str) -> (name: XAttrName<'static>)
        requires
            text.is_ascii(),
            text@.len() > 0,
            text@.last() == '\0',
            !text@.drop_last().contains('\0'),
        ensures
            name@ == bytes_of(text@.drop_last()),
    {
        let bytes: &'static [u8] = text.as_bytes();
        proof {
            vstd::string::is_ascii_spec_bytes(text);
            assert(bytes@ =~= bytes_of(text@));
            assert(bytes@.drop_last() =~= bytes_of(text@.drop_last()));
            assert forall|i: int| 0 <= i < text@.len() - 1 implies bytes@[i] != 0 by {
                assert(vstd::utf8::is_ascii_chars(text@));
                assert(text@.drop_last()[i] != '\0');
            }
        }
        XAttrName { bytes_with_nul: bytes }
    }
}

/// `"security.capability"`, to avoid typos.
pub fn xattr_name_fcaps() -> (name: XAttrName<'static>)
    ensures
        name@ == bytes_of("security.capability"@),
{
    proof {
        reveal_strlit("security.capability");
        reveal_strlit("security.capability\0");
        assert("security.capability\0"@.drop_last() =~= "security.capability"@);
    }
    XAttrName::from_text("security.capability\0")
}

/// `"system.posix_acl_access"`, to avoid typos.
pub fn xattr_acl_access() -> (name: XAttrName<'static>)
    ensures
        name@ == bytes_of("system.posix_acl_access"@),
{
    proof {
        reveal_strlit("system.posix_acl_access");
        reveal_strlit("system.posix_acl_access\0");
        assert("system.posix_acl_access\0"@.drop_last() =~= "system.posix_acl_access"@);
    }
    XAttrName::from_text("system.posix_acl_access\0")
}

/// `"system.posix_acl_default"`, to avoid typos.
pub fn xattr_acl_default() -> (name: XAttrName<'static>)
    ensures
        name@ == bytes_of("system.posix_acl_default"@),
{
    proof {
        reveal_strlit("system.posix_acl_default");
        reveal_strlit("system.posix_acl_default\0");
        assert("system.posix_acl_default\0"@.drop_last() =~= "system.posix_acl_default"@);
    }
    XAttrName::from_text("system.posix_acl_default\0")
}

/// The bytes of an ASCII text.
fn ascii_bytes(text: &'static str) -> (bytes: &'static [u8])
    requires
        text.is_ascii(),
    ensures
        bytes@ == bytes_of(text@),
{
    proof {
        vstd::string::is_ascii_spec_bytes(text);
    }
    let bytes: &'static [u8] = text.as_bytes();
    assert(bytes@ =~= bytes_of(text@));
    bytes
}

/// The name of the attribute that holds file capabilities.
pub open spec fn is_fcaps_name(name: Seq<u8>) -> bool {
    name == bytes_of("security.capability"@)
}

/// The name of an attribute that holds an access control list.
pub open spec fn is_acl_name(name: Seq<u8>) -> bool {
    name == bytes_of("system.posix_acl_access"@) || name == bytes_of("system.posix_acl_default"@)
}

/// A name in a namespace that is kept, and of a length that the kernel takes.
pub open spec fn is_valid_name(name: Seq<u8>) -> bool {
    &&& 1 <= name.len() <= 255
    &&& {
        ||| bytes_of("user."@).is_prefix_of(name)
        ||| bytes_of("trusted."@).is_prefix_of(name)
        ||| name == bytes_of("security.NTACL"@)
        ||| is_fcaps_name(name)
    }
}

/// Whether the attribute holds file capabilities.
pub fn is_security_capability(name: &XAttrName<'_>) -> (yes: bool)
    ensures
        yes == is_fcaps_name(name@),
{
    bytes_equal(name.to_bytes(), xattr_name_fcaps().to_bytes())
}

/// Whether the attribute holds an access control list.
pub fn is_acl(name: &XAttrName<'_>) -> (yes: bool)
    ensures
        yes == is_acl_name(name@),
{
    bytes_equal(name.to_bytes(), xattr_acl_access().to_bytes()) || bytes_equal(
        name.to_bytes(),
        xattr_acl_default().to_bytes(),
    )
}

/// Checks whether the name starts with a valid namespace prefix and is within the length limit of
/// 255 bytes.
pub fn is_valid_xattr_name(c_name: &XAttrName<'_>) -> (yes: bool)
    ensures
        yes == is_valid_name(c_name@),
{
    let name: &[u8] = c_name.to_bytes();
    if name.len() == 0 || name.len() > 255 {
        return false;
    }
    proof {
        reveal_strlit("user.");
        reveal_strlit("trusted.");
        reveal_strlit("security.NTACL");
    }
    if bytes_start_with(name, ascii_bytes("user.")) || bytes_start_with(
        name,
        ascii_bytes("trusted."),
    ) {
        return true;
    }
    // samba keeps windows ACLs there
    if bytes_equal(name, ascii_bytes("security.NTACL")) {
        return true;
    }
    is_security_capability(c_name)
}

/// The names in a list of attributes: each ends in a zero byte, and what follows the last zero
/// byte is no name.
pub open spec fn names_in(data: Seq<u8>) -> Seq<Seq<u8>>
    decreases data.len(),
{
    if data.contains(0) {
        let end = data.index_of_first(0u8)->0;
        proof {
            data.index_of_first_ensures(0u8);
        }
        seq![data.take(end)] + names_in(data.skip(end + 1))
    } else {
        Seq::empty()
    }
}

/// A list of attributes that holds these names.
pub open spec fn list_of(names: Seq<Seq<u8>>) -> Seq<u8>
    decreases names.len(),
{
    if names.len() == 0 {
        Seq::empty()
    } else {
        names.first().push(0) + list_of(names.drop_first())
    }
}

/// The attributes of a file, as the kernel lists them.
pub struct ListXAttr {
    data: Vec<u8>,
}

impl View for ListXAttr {
    type V = Seq<u8>;

    closed spec fn view(&self) -> Seq<u8> {
        self.data@
    }
}

impl ListXAttr {
    /// The list in the form that the kernel gives it: names that end in a zero byte.
    pub fn new(data: Vec<u8>) -> (list: Self)
        ensures
            list@ == data@,
    {
        ListXAttr { data }
    }

    /// Goes through the names of the list.
    pub fn into_iter(&self) -> (iter: ListXAttrIter<'_>)
        ensures
            iter.left() == self@,
            iter@ == names_in(self@),
    {
        let iter = ListXAttrIter { data: self.data.as_slice(), at: 0 };
        assert(iter.left() =~= self@);
        iter
    }
}

/// A walk through the names of a [`ListXAttr`].
pub struct ListXAttrIter<'a> {
    data: &'a [u8],
    at: usize,
}

impl<'a> View for ListXAttrIter<'a> {
    type V = Seq<Seq<u8>>;

    /// The names that are still to come.
    open spec fn view(&self) -> Seq<Seq<u8>> {
        names_in(self.left())
    }
}

impl<'a> ListXAttrIter<'a> {
    #[verifier::type_invariant]
    spec fn is_inside(self) -> bool {
        self.at <= self.data@.len()
    }

    /// The part of the list that is still to be read.
    pub closed spec fn left(self) -> Seq<u8> {
        self.data@.skip(self.at as int)
    }

    /// The next name, if there is one.
    pub fn next(&mut self) -> (name: Option<XAttrName<'a>>)
        ensures
            match name {
                Some(name) => {
                    &&& old(self)@.len() > 0
                    &&& name@ == old(self)@.first()
                    &&& final(self)@ == old(self)@.drop_first()
                    &&& old(self).left() == name@.push(0) + final(self).left()
                },
                None => old(self)@.len() == 0 && *final(self) == *old(self),
            },
    {
        proof {
            use_type_invariant(&*self);
        }
        let data: &'a [u8] = slice_subrange(self.data, self.at, self.data.len());
        assert(data@ =~= self.left());
        match first_zero(data) {
            None => None,
            Some(end) => {
                let name: &'a [u8] = slice_subrange(data, 0, end + 1);
                assert(name@.drop_last() =~= data@.take(end as int));
                self.at = self.at + end + 1;
                proof {
                    assert(data@[end as int] == 0);
                    data@.index_of_first_ensures(0u8);
                    let first = data@.index_of_first(0u8)->0;
                    if first < end {
                        assert(data@.take(end as int)[first] == 0);
                    }
                    assert(first == end);
                    assert(self.left() =~= data@.skip(end + 1));
                    assert(names_in(data@).drop_first() =~= names_in(self.left()));
                    assert(data@ =~= name@.drop_last().push(0) + self.left());
                }
                Some(XAttrName { bytes_with_nul: name })
            },
        }
    }
}

/// The room that is offered for a list or a value at first. If it does not do, it is doubled until
/// it does.
pub const INITIAL_ROOM: usize = 256;

/// This many zero bytes.
pub open spec fn zeros(n: nat) -> Seq<u8> {
    Seq::new(n, |i: int| 0u8)
}

/// Twice the room of a call that found too little is room that a machine can address.
pub open spec fn can_double(room: nat) -> bool {
    2 * room <= usize::MAX
}

/// An offer of room that can be doubled is one that a vector can grow to.
pub open spec fn is_sound_offer(room: nat) -> bool {
    can_double(room) ==> 2 * room <= isize::MAX
}

/// Offers room for the first time.
fn first_offer() -> (buffer: Vec<u8>)
    ensures
        buffer@ == zeros(INITIAL_ROOM as nat),
{
    let mut buffer: Vec<u8> = Vec::new();
    buffer.resize(INITIAL_ROOM, 0);
    assert(buffer@ =~= zeros(INITIAL_ROOM as nat));
    buffer
}

/// Doubles the room that was offered.
fn next_offer(buffer: Vec<u8>) -> (result: Result<Vec<u8>, Errno>)
    requires
        is_sound_offer(buffer@.len()),
    ensures
        match result {
            Ok(larger) => can_double(buffer@.len()) && larger@ == buffer@ + zeros(buffer@.len()),
            Err(errno) => !can_double(buffer@.len()) && errno == Errno::ENOMEM,
        },
{
    let room: usize = buffer.len();
    match room.checked_mul(2) {
        None => Err(Errno::ENOMEM),
        Some(size) => {
            let mut larger = buffer;
            let ghost before = larger@;
            larger.resize(size, 0);
            proof {
                if size > before.len() {
                    assert forall|i: int| 0 <= i < before.len() implies larger@[i] == before[i] by {
                        assert(larger@.subrange(0, before.len() as int)[i] == before[i]);
                    }
                }
                assert(larger@ =~= before + zeros(before.len()));
            }
            Ok(larger)
        },
    }
}

/// A call that lists the attributes of an open file: the kernel fills the buffer and returns the
/// number of bytes, or a negative number and an `errno`.
pub struct ListXAttrCall {
    /// The open file.
    pub fd: i32,
    /// Room for the list.
    pub buffer: Vec<u8>,
}

/// What listing the attributes comes to.
pub enum ListXAttrStep {
    /// The call has to be made again.
    Retry(ListXAttrCall),
    /// The list, or the error.
    Done(Result<ListXAttr, Errno>),
}

/// Starts to list the extended attributes of an open file.
pub fn flistxattr(fd: i32) -> (call: ListXAttrCall)
    ensures
        call.fd == fd,
        call.buffer@ == zeros(INITIAL_ROOM as nat),
{
    ListXAttrCall { fd, buffer: first_offer() }
}

impl ListXAttrCall {
    /// `step` is what it leads to if the kernel filled the buffer, returned `bytes` and set
    /// `errno`.
    pub open spec fn leads_to(self, bytes: isize, errno: i32, step: ListXAttrStep) -> bool {
        match step {
            ListXAttrStep::Retry(call) => {
                &&& bytes < 0
                &&& Errno::of_raw(errno) == Errno::ERANGE
                &&& can_double(self.buffer@.len())
                &&& call.fd == self.fd
                &&& call.buffer@ == self.buffer@ + zeros(self.buffer@.len())
            },
            ListXAttrStep::Done(Ok(list)) => {
                &&& bytes >= 0
                &&& list@ == if bytes <= self.buffer@.len() {
                    self.buffer@.take(bytes as int)
                } else {
                    self.buffer@
                }
            },
            ListXAttrStep::Done(Err(err)) => {
                &&& bytes < 0
                &&& if Errno::of_raw(errno) == Errno::ERANGE {
                    !can_double(self.buffer@.len()) && err == Errno::ENOMEM
                } else {
                    err == Errno::of_raw(errno)
                }
            },
        }
    }

    /// Goes on with what the call returned, and the `errno` that it set if that is negative.
    pub fn step(self, bytes: isize, errno: i32) -> (step: ListXAttrStep)
        requires
            bytes < 0 && Errno::of_raw(errno) == Errno::ERANGE ==> is_sound_offer(
                self.buffer@.len(),
            ),
        ensures
            self.leads_to(bytes, errno, step),
    {
        if bytes < 0 {
            let err = Errno::from_i32(errno);
            return match err {
                Errno::ERANGE => match next_offer(self.buffer) {
                    Ok(buffer) => ListXAttrStep::Retry(ListXAttrCall { fd: self.fd, buffer }),
                    Err(err) => ListXAttrStep::Done(Err(err)),
                },
                _ => ListXAttrStep::Done(Err(err)),
            };
        }
        let mut buffer = self.buffer;
        buffer.truncate(bytes as usize);
        ListXAttrStep::Done(Ok(ListXAttr::new(buffer)))
    }
}

/// A call that reads an attribute of an open file: the kernel fills the buffer and returns the
/// number of bytes, or a negative number and an `errno`.
pub struct GetXAttrCall<'a> {
    /// The open file.
    pub fd: i32,
    /// The attribute.
    pub name: XAttrName<'a>,
    /// Room for the value.
    pub buffer: Vec<u8>,
}

/// What reading an attribute comes to.
pub enum GetXAttrStep<'a> {
    /// The call has to be made again.
    Retry(GetXAttrCall<'a>),
    /// The value, or the error.
    Done(Result<Vec<u8>, Errno>),
}

/// Starts to read an extended attribute of an open file by its name.
pub fn fgetxattr<'a>(fd: i32, name: XAttrName<'a>) -> (call: GetXAttrCall<'a>)
    ensures
        call.fd == fd,
        call.name == name,
        call.buffer@ == zeros(INITIAL_ROOM as nat),
{
    GetXAttrCall { fd, name, buffer: first_offer() }
}

impl<'a> GetXAttrCall<'a> {
    /// `step` is what it leads to if the kernel filled the buffer, returned `bytes` and set
    /// `errno`.
    pub open spec fn leads_to(self, bytes: isize, errno: i32, step: GetXAttrStep<'a>) -> bool {
        match step {
            GetXAttrStep::Retry(call) => {
                &&& bytes < 0
                &&& Errno::of_raw(errno) == Errno::ERANGE
                &&& can_double(self.buffer@.len())
                &&& call.fd == self.fd
                &&& call.name == self.name
                &&& call.buffer@ == self.buffer@ + zeros(self.buffer@.len())
            },
            GetXAttrStep::Done(Ok(value)) => {
                &&& bytes >= 0
                &&& value@ == if bytes <= self.buffer@.len() {
                    self.buffer@.take(bytes as int)
                } else {
                    self.buffer@ + zeros((bytes - self.buffer@.len()) as nat)
                }
            },
            GetXAttrStep::Done(Err(err)) => {
                &&& bytes < 0
                &&& if Errno::of_raw(errno) == Errno::ERANGE {
                    !can_double(self.buffer@.len()) && err == Errno::ENOMEM
                } else {
                    err == Errno::of_raw(errno)
                }
            },
        }
    }

    /// Goes on with what the call returned, and the `errno` that it set if that is negative.
    pub fn step(self, bytes: isize, errno: i32) -> (step: GetXAttrStep<'a>)
        requires
            bytes < 0 && Errno::of_raw(errno) == Errno::ERANGE ==> is_sound_offer(
                self.buffer@.len(),
            ),
        ensures
            self.leads_to(bytes, errno, step),
    {
        if bytes < 0 {
            let err = Errno::from_i32(errno);
            return match err {
                Errno::ERANGE => match next_offer(self.buffer) {
                    Ok(buffer) => GetXAttrStep::Retry(
                        GetXAttrCall { fd: self.fd, name: self.name, buffer },
                    ),
                    Err(err) => GetXAttrStep::Done(Err(err)),
                },
                _ => GetXAttrStep::Done(Err(err)),
            };
        }
        let mut value = self.buffer;
        let ghost filled = value@;
        value.resize(bytes as usize, 0);
        proof {
            if bytes > filled.len() {
                assert forall|i: int| 0 <= i < filled.len() implies value@[i] == filled[i] by {
                    assert(value@.subrange(0, filled.len() as int)[i] == filled[i]);
                }
                assert(value@ =~= filled + zeros((bytes - filled.len()) as nat));
            }
        }
        GetXAttrStep::Done(Ok(value))
    }
}

/// A call that sets an attribute of an open file: the kernel returns a number that is negative, with
/// an `errno`, if it did not.
pub struct SetXAttrCall<'a> {
    /// The open file.
    pub fd: i32,
    /// The attribute.
    pub name: XAttrName<'a>,
    /// The value.
    pub data: &'a [u8],
    /// Zero: an attribute is created or replaced.
    pub flags: i32,
}

/// Starts to set an extended attribute of an open file.
pub fn fsetxattr<'a>(fd: i32, name: XAttrName<'a>, data: &'a [u8]) -> (call: SetXAttrCall<'a>)
    ensures
        call.fd == fd,
        call.name == name,
        call.data@ == data@,
        call.flags == 0,
{
    SetXAttrCall { fd, name, data, flags: 0 }
}

/// Starts to set the file capabilities of an open file.
pub fn fsetxattr_fcaps<'a>(fd: i32, fcaps: &'a [u8]) -> (call: SetXAttrCall<'a>)
    ensures
        call.fd == fd,
        is_fcaps_name(call.name@),
        call.data@ == fcaps@,
        call.flags == 0,
{
    fsetxattr(fd, xattr_name_fcaps(), fcaps)
}

impl<'a> SetXAttrCall<'a> {
    /// `end` is what the call comes to if the kernel returned `result` and set `errno`.
    pub open spec fn ends_in(self, result: i32, errno: i32, end: Result<(), Errno>) -> bool {
        match end {
            Ok(_) => result >= 0,
            Err(err) => result < 0 && err == Errno::of_raw(errno),
        }
    }

    /// Ends with what the call returned, and the `errno` that it set if that is negative.
    pub fn finish(self, result: i32, errno: i32) -> (end: Result<(), Errno>)
        ensures
            self.ends_in(result, errno, end),
    {
        if result < 0 {
            return Err(Errno::from_i32(errno));
        }
        Ok(())
    }
}

/// The room that is offered after so many calls that found too little.
pub open spec fn room_after(retries: nat) -> nat
    decreases retries,
{
    if retries == 0 {
        INITIAL_ROOM as nat
    } else {
        2 * room_after((retries - 1) as nat)
    }
}

/// The room that is offered doubles with each retry, and cannot be doubled any more after 55 of
/// them, so that no call is made again forever.
pub proof fn law_room_doubles_until_it_cannot(retries: nat)
    ensures
        room_after(retries) == INITIAL_ROOM * vstd::arithmetic::power2::pow2(retries),
        can_double(room_after(retries)) ==> retries < 55,
    decreases retries,
{
    vstd::arithmetic::power2::lemma2_to64();
    if retries == 0 {
    } else {
        let before = (retries - 1) as nat;
        law_room_doubles_until_it_cannot(before);
        vstd::arithmetic::power2::lemma_pow2_unfold(retries);
        assert(room_after(retries) == INITIAL_ROOM * vstd::arithmetic::power2::pow2(retries))
            by (nonlinear_arith)
            requires
                room_after(retries) == 2 * room_after(before),
                room_after(before) == INITIAL_ROOM * vstd::arithmetic::power2::pow2(before),
                vstd::arithmetic::power2::pow2(retries) == 2 * vstd::arithmetic::power2::pow2(
                    before,
                ),
        ;
        if can_double(room_after(retries)) {
            assert(can_double(room_after(before)));
            if retries == 55 {
                reveal_with_fuel(room_after, 56);
                assert(false);
            }
        }
    }
}

/// Every retry offers twice the room of the call before it.
pub proof fn law_retry_offers_the_next_room(buffer: Seq<u8>, retries: nat)
    requires
        buffer.len() == room_after(retries),
    ensures
        (buffer + zeros(buffer.len())).len() == room_after(retries + 1),
{
}

/// The attribute that holds file capabilities has a valid name.
pub proof fn law_fcaps_name_is_valid(name: Seq<u8>)
    requires
        is_fcaps_name(name),
    ensures
        is_valid_name(name),
{
    reveal_strlit("security.capability");
}

/// No access control list has a valid name, and none is the attribute that holds capabilities.
pub proof fn law_acl_name_is_not_valid(name: Seq<u8>)
    requires
        is_acl_name(name),
    ensures
        !is_valid_name(name),
        !is_fcaps_name(name),
{
    reveal_strlit("security.capability");
    reveal_strlit("system.posix_acl_access");
    reveal_strlit("system.posix_acl_default");
    reveal_strlit("security.NTACL");
    reveal_strlit("user.");
    reveal_strlit("trusted.");
    assert(name[0] == 's' as u8);
    assert(name[1] == 'y' as u8);
    assert(bytes_of("security.capability"@)[1] == 'e' as u8);
    assert(bytes_of("security.NTACL"@)[1] == 'e' as u8);
    assert(bytes_of("user."@)[0] == 'u' as u8);
    assert(bytes_of("trusted."@)[0] == 't' as u8);
}

/// No name in a list holds a zero byte.
pub proof fn law_listed_names_have_no_zero(data: Seq<u8>, i: int)
    requires
        0 <= i < names_in(data).len(),
    ensures
        !names_in(data)[i].contains(0),
    decreases data.len(),
{
    if data.contains(0) {
        data.index_of_first_ensures(0u8);
        let end = data.index_of_first(0u8)->0;
        if i > 0 {
            law_listed_names_have_no_zero(data.skip(end + 1), i - 1);
        }
    }
}

/// Putting the names of a list together again gives the list, up to its last zero byte.
pub proof fn law_names_make_up_the_list(data: Seq<u8>)
    ensures
        list_of(names_in(data)).is_prefix_of(data),
        !data.skip(list_of(names_in(data)).len() as int).contains(0),
    decreases data.len(),
{
    if data.contains(0) {
        data.index_of_first_ensures(0u8);
        let end = data.index_of_first(0u8)->0;
        let rest = data.skip(end + 1);
        law_names_make_up_the_list(rest);
        let names = names_in(data);
        assert(names.drop_first() =~= names_in(rest));
        let tail = list_of(names_in(rest));
        assert(list_of(names) =~= data.take(end).push(0) + tail);
        assert(data =~= data.take(end).push(0) + rest);
        assert(data.skip(list_of(names).len() as int) =~= rest.skip(tail.len() as int));
        assert(list_of(names) =~= data.take(list_of(names).len() as int)) by {
            assert(tail =~= rest.take(tail.len() as int));
        }
    } else {
        assert(data.skip(0) =~= data);
    }
}

/// Names that go into a list come out of it again, all of them and in their order.
pub proof fn law_list_gives_its_names_back(names: Seq<Seq<u8>>)
    requires
        forall|i: int| 0 <= i < names.len() ==> !(#[trigger] names[i]).contains(0),
    ensures
        names_in(list_of(names)) == names,
    decreases names.len(),
{
    let data = list_of(names);
    if names.len() > 0 {
        let first = names.first();
        let rest = list_of(names.drop_first());
        law_list_gives_its_names_back(names.drop_first());
        assert(data =~= first.push(0) + rest);
        assert(data[first.len() as int] == 0);
        data.index_of_first_ensures(0u8);
        let end = data.index_of_first(0u8)->0;
        if end < first.len() {
            assert(first[end] == 0);
            assert(names[0].contains(0));
        }
        assert(end == first.len());
        assert(data.take(end) =~= first);
        assert(data.skip(end + 1) =~= rest);
        assert(names_in(data) =~= seq![first] + names.drop_first());
        assert(names_in(data) =~= names);
    } else {
        assert(!data.contains(0));
        assert(names_in(data) =~= names);
    }
}

/// The bytes of a name come with and without the zero byte behind them, and the ones with it make
/// up the same name again.
pub proof fn law_name_is_made_of_its_bytes<'a>(
    name: XAttrName<'a>,
    bytes: &'a [u8],
    terminated: &'a [u8],
    again: Option<XAttrName<'a>>,
)
    requires
        call_ensures(XAttrName::<'a>::to_bytes, (&name,), bytes),
        call_ensures(XAttrName::<'a>::to_bytes_with_nul, (&name,), terminated),
        call_ensures(XAttrName::<'a>::from_bytes_with_nul, (terminated,), again),
    ensures
        forall|i: int| 0 <= i < bytes@.len() ==> #[trigger] bytes@[i] != 0,
        terminated@.len() == bytes@.len() + 1,
        forall|i: int| 0 <= i < bytes@.len() ==> terminated@[i] == #[trigger] bytes@[i],
        terminated@.last() == 0,
        again is Some,
        again->0@ == bytes@,
        name@ == bytes@,
{
    assert(terminated@.drop_last() =~= bytes@);
}

/// Bytes are a name exactly if their last byte is zero and no other is, and the name is then what
/// stands before that byte.
pub proof fn law_name_ends_at_its_only_zero<'a>(bytes: &'a [u8], name: Option<XAttrName<'a>>)
    requires
        call_ensures(XAttrName::<'a>::from_bytes_with_nul, (bytes,), name),
    ensures
        name is Some <==> bytes@.len() > 0 && forall|i: int|
            0 <= i < bytes@.len() ==> (#[trigger] bytes@[i] == 0 <==> i == bytes@.len() - 1),
        name is Some ==> name->0@ == bytes@.take(bytes@.len() - 1),
{
    if ends_in_only_zero(bytes@) {
        assert forall|i: int| 0 <= i < bytes@.len() - 1 implies #[trigger] bytes@[i] != 0 by {
            assert(bytes@.drop_last()[i] == bytes@[i]);
        }
        assert(bytes@.drop_last() =~= bytes@.take(bytes@.len() - 1));
    } else if bytes@.len() > 0 && bytes@.last() == 0 {
        let i = bytes@.drop_last().index_of(0);
        assert(bytes@[i] == 0);
    }
}

/// The well-known names are spelled like this, letter for letter.
pub proof fn law_well_known_names_are_spelled_out(
    fcaps: XAttrName<'static>,
    access: XAttrName<'static>,
    default_acl: XAttrName<'static>,
)
    requires
        call_ensures(xattr_name_fcaps, (), fcaps),
        call_ensures(xattr_acl_access, (), access),
        call_ensures(xattr_acl_default, (), default_acl),
    ensures
        fcaps@ == "security.capability"@.map_values(|c: char| c as u8),
        access@ == "system.posix_acl_access"@.map_values(|c: char| c as u8),
        default_acl@ == "system.posix_acl_default"@.map_values(|c: char| c as u8),
{
}

/// Of all names, only the well-known ones are those of the capabilities and of access control
/// lists: one and two.
pub proof fn law_only_well_known_names_are_special(
    name: XAttrName<'_>,
    fcaps: XAttrName<'static>,
    access: XAttrName<'static>,
    default_acl: XAttrName<'static>,
    is_fcaps: bool,
    is_list: bool,
)
    requires
        call_ensures(xattr_name_fcaps, (), fcaps),
        call_ensures(xattr_acl_access, (), access),
        call_ensures(xattr_acl_default, (), default_acl),
        call_ensures(is_security_capability, (&name,), is_fcaps),
        call_ensures(is_acl, (&name,), is_list),
    ensures
        is_fcaps <==> name@ == fcaps@,
        is_list <==> name@ == access@ || name@ == default_acl@,
{
}

/// A name is that of an access control list exactly if it is spelled in one of these two ways. So
/// none is outside of the system's namespace: all begin with `system.posix_acl_`.
pub proof fn law_access_control_lists_are_in_the_system_namespace(name: XAttrName<'_>, yes: bool)
    requires
        call_ensures(is_acl, (&name,), yes),
    ensures
        yes <==> name@ == "system.posix_acl_access"@.map_values(|c: char| c as u8) || name@
            == "system.posix_acl_default"@.map_values(|c: char| c as u8),
        yes ==> name@.len() == 23 || name@.len() == 24,
        yes ==> forall|i: int|
            0 <= i < 17 ==> #[trigger] name@[i] == "system.posix_acl_"@[i] as u8,
{
    reveal_strlit("system.posix_acl_access");
    reveal_strlit("system.posix_acl_default");
    reveal_strlit("system.posix_acl_");
}

/// A name is that of the file capabilities exactly if it is spelled like this.
pub proof fn law_capabilities_have_one_name(name: XAttrName<'_>, yes: bool)
    requires
        call_ensures(is_security_capability, (&name,), yes),
    ensures
        yes <==> name@ == "security.capability"@.map_values(|c: char| c as u8),
{
}

/// In the namespace `security`, these two names are valid and no others are.
pub proof fn law_two_names_are_valid_in_the_security_namespace(name: XAttrName<'_>, yes: bool)
    requires
        call_ensures(is_valid_xattr_name, (&name,), yes),
        name@.len() >= 9,
        forall|i: int| 0 <= i < 9 ==> #[trigger] name@[i] == "security."@[i] as u8,
    ensures
        yes <==> name@ == "security.NTACL"@.map_values(|c: char| c as u8) || name@
            == "security.capability"@.map_values(|c: char| c as u8),
{
    reveal_strlit("security.");
    reveal_strlit("security.NTACL");
    reveal_strlit("security.capability");
    reveal_strlit("user.");
    reveal_strlit("trusted.");
    assert(name@[0] == "security."@[0] as u8);
    assert(bytes_of("user."@)[0] == 'u' as u8);
    assert(bytes_of("trusted."@)[0] == 't' as u8);
}

/// In the namespaces `user` and `trusted`, all names that are not too long are valid.
pub proof fn law_user_and_trusted_names_are_valid(name: XAttrName<'_>, yes: bool)
    requires
        call_ensures(is_valid_xattr_name, (&name,), yes),
        (name@.len() >= 5 && (forall|i: int|
            0 <= i < 5 ==> #[trigger] name@[i] == "user."@[i] as u8)) || (name@.len() >= 8 && (
        forall|i: int| 0 <= i < 8 ==> #[trigger] name@[i] == "trusted."@[i] as u8)),
    ensures
        yes <==> name@.len() <= 255,
{
    reveal_strlit("user.");
    reveal_strlit("trusted.");
    reveal_strlit("security.NTACL");
    reveal_strlit("security.capability");
    if name@.len() >= 5 && forall|i: int| 0 <= i < 5 ==> #[trigger] name@[i] == "user."@[i] as u8 {
        assert(bytes_of("user."@) =~= name@.take(5));
        assert(bytes_of("user."@).is_prefix_of(name@));
    } else {
        assert(bytes_of("trusted."@) =~= name@.take(8));
        assert(bytes_of("trusted."@).is_prefix_of(name@));
    }
}

/// A name is valid only if its first dot comes after `user`, `trusted` or `security`: no other
/// namespace has valid names, and neither are there any without a namespace.
pub proof fn law_valid_names_have_a_known_namespace(name: XAttrName<'_>, yes: bool, dot: int)
    requires
        call_ensures(is_valid_xattr_name, (&name,), yes),
        yes,
    ensures
        name@.contains('.' as u8),
        0 <= dot < name@.len() && name@[dot] == '.' as u8 && !name@.take(dot).contains('.' as u8)
            ==> {
            ||| name@.take(dot) == "user"@.map_values(|c: char| c as u8)
            ||| name@.take(dot) == "trusted"@.map_values(|c: char| c as u8)
            ||| name@.take(dot) == "security"@.map_values(|c: char| c as u8)
        },
{
    reveal_strlit("user.");
    reveal_strlit("trusted.");
    reveal_strlit("security.NTACL");
    reveal_strlit("security.capability");
    reveal_strlit("user");
    reveal_strlit("trusted");
    reveal_strlit("security");
    let text = if bytes_of("user."@).is_prefix_of(name@) {
        "user"@
    } else if bytes_of("trusted."@).is_prefix_of(name@) {
        "trusted"@
    } else {
        "security"@
    };
    let n = text.len() as int;
    let prefix = if bytes_of("user."@).is_prefix_of(name@) {
        bytes_of("user."@)
    } else if bytes_of("trusted."@).is_prefix_of(name@) {
        bytes_of("trusted."@)
    } else {
        name@
    };
    assert(prefix.is_prefix_of(name@));
    assert forall|i: int| 0 <= i <= n implies name@[i] == (if i < n {
        text[i] as u8
    } else {
        '.' as u8
    }) by {
        assert(prefix[i] == name@[i]);
    }
    assert(name@[n] == '.' as u8);
    if 0 <= dot < name@.len() && name@[dot] == '.' as u8 && !name@.take(dot).contains('.' as u8) {
        if dot > n {
            assert(name@.take(dot)[n] == '.' as u8);
        }
        assert forall|i: int| 0 <= i < n implies name@[i] != '.' as u8 by {}
        assert(dot == n);
        assert(name@.take(dot) =~= text.map_values(|c: char| c as u8));
    }
}

/// Going through a list starts with all of it.
pub proof fn law_walk_starts_with_the_whole_list(
    data: Vec<u8>,
    list: ListXAttr,
    iter: ListXAttrIter<'_>,
)
    requires
        call_ensures(ListXAttr::new, (data,), list),
        call_ensures(ListXAttr::into_iter, (&list,), iter),
    ensures
        iter.left() == data@,
{
}

/// The next name is what stands before the next zero byte, without it; what follows that byte is
/// left for the names after it. If there is no zero byte there is no name, and nothing changes.
pub proof fn law_next_name_ends_at_the_next_zero<'a>(
    iter: &mut ListXAttrIter<'a>,
    name: Option<XAttrName<'a>>,
)
    requires
        call_ensures(ListXAttrIter::<'a>::next, (iter,), name),
    ensures
        name is None <==> !old(iter).left().contains(0),
        name is None ==> final(iter).left() == old(iter).left(),
        name matches Some(name) ==> {
            let n = name@.len() as int;
            &&& n < old(iter).left().len()
            &&& old(iter).left()[n] == 0
            &&& name@ == old(iter).left().take(n)
            &&& !name@.contains(0)
            &&& final(iter).left() == old(iter).left().skip(n + 1)
        },
{
    let left = old(iter).left();
    if left.contains(0) {
        left.index_of_first_ensures(0u8);
        let end = left.index_of_first(0u8)->0;
        assert(names_in(left).first() =~= left.take(end));
        if name is Some {
            let rest = final(iter).left();
            assert(left =~= left.take(end).push(0) + rest);
            assert(rest =~= left.skip(end + 1));
        }
    }
}

/// The first call of a listing or of a read offers 256 bytes, on the file and for the attribute that
/// it was asked for.
pub proof fn law_first_call_offers_256_bytes<'a>(
    fd: i32,
    name: XAttrName<'a>,
    list: ListXAttrCall,
    get: GetXAttrCall<'a>,
)
    requires
        call_ensures(flistxattr, (fd,), list),
        call_ensures(fgetxattr, (fd, name), get),
    ensures
        list.fd == fd,
        list.buffer@.len() == 256,
        get.fd == fd,
        get.name@ == name@,
        get.buffer@.len() == 256,
{
}

/// What a call to list the attributes leads to. It is made again, on the same file and with twice
/// the room, exactly if the kernel said that there was too little and twice the room can be
/// addressed. Any other failure is handed on. A list is the part of the buffer that was filled.
pub proof fn law_listing_goes_on_until_there_is_room(
    call: ListXAttrCall,
    bytes: isize,
    errno: i32,
    step: ListXAttrStep,
)
    requires
        call_ensures(ListXAttrCall::step, (call, bytes, errno), step),
    ensures
        step is Retry <==> bytes < 0 && errno == 34 && 2 * call.buffer@.len() <= usize::MAX,
        step matches ListXAttrStep::Retry(next) ==> {
            &&& next.fd == call.fd
            &&& next.buffer@.len() == 2 * call.buffer@.len()
        },
        bytes >= 0 <==> (step matches ListXAttrStep::Done(result) && result is Ok),
        step matches ListXAttrStep::Done(Ok(list)) ==> {
            &&& list@.len() <= bytes
            &&& list@.len() == bytes || list@.len() == call.buffer@.len()
            &&& list@.len() <= call.buffer@.len()
            &&& forall|i: int| 0 <= i < list@.len() ==> #[trigger] list@[i] == call.buffer@[i]
        },
        step matches ListXAttrStep::Done(Err(err)) ==> {
            &&& errno == 34 ==> err is ENOMEM
            &&& errno != 34 ==> forall|named: Errno| #[trigger]
                call_ensures(Errno::from_i32, (errno,), named) ==> err == named
        },
{
}

/// What a call to read an attribute leads to. It is made again, on the same file, for the same
/// attribute and with twice the room, exactly if the kernel said that there was too little and
/// twice the room can be addressed. Any other failure is handed on. A value has as many bytes as
/// the kernel said: those of the buffer, and zeros if it said more.
pub proof fn law_reading_goes_on_until_there_is_room<'a>(
    call: GetXAttrCall<'a>,
    bytes: isize,
    errno: i32,
    step: GetXAttrStep<'a>,
)
    requires
        call_ensures(GetXAttrCall::<'a>::step, (call, bytes, errno), step),
    ensures
        step is Retry <==> bytes < 0 && errno == 34 && 2 * call.buffer@.len() <= usize::MAX,
        step matches GetXAttrStep::Retry(next) ==> {
            &&& next.fd == call.fd
            &&& next.name@ == call.name@
            &&& next.buffer@.len() == 2 * call.buffer@.len()
        },
        bytes >= 0 <==> (step matches GetXAttrStep::Done(result) && result is Ok),
        step matches GetXAttrStep::Done(Ok(value)) ==> {
            &&& value@.len() == bytes
            &&& forall|i: int|
                0 <= i < value@.len() ==> #[trigger] value@[i] == if i < call.buffer@.len() {
                    call.buffer@[i]
                } else {
                    0
                }
        },
        step matches GetXAttrStep::Done(Err(err)) ==> {
            &&& errno == 34 ==> err is ENOMEM
            &&& errno != 34 ==> forall|named: Errno| #[trigger]
                call_ensures(Errno::from_i32, (errno,), named) ==> err == named
        },
{
}

/// Setting an attribute hands on the file, the name and every byte of the value, and creates or
/// replaces the attribute.
pub proof fn law_setting_hands_on_what_it_is_given<'a>(
    fd: i32,
    name: XAttrName<'a>,
    data: &'a [u8],
    call: SetXAttrCall<'a>,
)
    requires
        call_ensures(fsetxattr, (fd, name, data), call),
    ensures
        call.fd == fd,
        call.name@ == name@,
        call.data@ == data@,
        call.flags == 0,
{
}

/// Setting the file capabilities is setting the attribute with their name.
pub proof fn law_capabilities_are_set_as_an_attribute<'a>(
    fd: i32,
    data: &'a [u8],
    name: XAttrName<'static>,
    caps: SetXAttrCall<'a>,
    plain: SetXAttrCall<'a>,
)
    requires
        call_ensures(xattr_name_fcaps, (), name),
        call_ensures(fsetxattr_fcaps, (fd, data), caps),
        call_ensures(fsetxattr, (fd, name, data), plain),
    ensures
        caps.fd == plain.fd,
        caps.name@ == plain.name@,
        caps.name@ == "security.capability"@.map_values(|c: char| c as u8),
        caps.data@ == plain.data@,
        caps.flags == plain.flags,
{
}

/// Setting an attribute succeeds exactly if the kernel returned no negative number, and otherwise
/// fails with the error of its `errno`.
pub proof fn law_setting_fails_with_the_errno(
    call: SetXAttrCall<'_>,
    result: i32,
    errno: i32,
    end: Result<(), Errno>,
    named: Errno,
)
    requires
        call_ensures(SetXAttrCall::<'_>::finish, (call, result, errno), end),
        call_ensures(Errno::from_i32, (errno,), named),
    ensures
        end is Ok <==> result >= 0,
        end is Err ==> end->Err_0 == named,
{
}

} // verus!
