//! Error numbers of failed system calls.

use vstd::prelude::*;

verus! {

/// A code that `nix` has a name for: the Linux error numbers, of which two are unassigned.
pub open spec fn is_named_errno(code: i32) -> bool {
    1 <= code <= 133 && code != 41 && code != 58
}

/// The code that `nix` keeps for a raw `errno`; every code without a name becomes zero.
pub open spec fn named_errno(code: i32) -> i32 {
    if is_named_errno(code) {
        code
    } else {
        0
    }
}

/// The text that `nix` shows for an error number.
pub uninterp spec fn errno_text(code: i32) -> Seq<char>;

/// `nix::errno::Errno::from_i32`, as the number of the variant that it picks.
///
/// Claimed: on the Linux numbering that x86, Arm, RISC-V and most other targets share, a code with
/// a name keeps its number and any other code turns into `UnknownErrno`, which is number zero.
#[verifier::external_body]
fn nix_errno_from_i32(code: i32) -> (named: i32)
    ensures
        named == named_errno(code),
{
    nix::errno::Errno::from_i32(code) as i32
}

/// The `Display` text of a `nix::errno::Errno`, which is put together from the variant's name and
/// a fixed description.
///
/// Claimed: the text depends on the code alone.
#[verifier::external_body]
fn nix_errno_display(code: i32) -> (text: String)
    ensures
        text@ == errno_text(code),
{
    nix::errno::Errno::from_i32(code).to_string()
}

/// The `Display` text of `nix::Error::InvalidPath`.
///
/// Claimed: it is the fixed text below.
#[verifier::external_body]
fn nix_invalid_path_display() -> (text: String)
    ensures
        text@ == "Invalid path"@,
{
    nix::Error::InvalidPath.to_string()
}

/// The error numbers that the library tells apart, and all the others by their code.
#[derive(Clone, Copy, Debug, PartialEq, Eq, Structural)]
pub enum Errno {
    /// No such file or directory.
    ENOENT,
    /// Out of memory.
    ENOMEM,
    /// The file exists.
    EEXIST,
    /// The result does not fit.
    ERANGE,
    /// Any other error; zero stands for every code that has no name.
    Other(i32),
}

impl Errno {
    /// The error that a raw `errno` stands for.
    pub open spec fn of_raw(code: i32) -> Errno {
        let named = named_errno(code);
        if named == 2 {
            Errno::ENOENT
        } else if named == 12 {
            Errno::ENOMEM
        } else if named == 17 {
            Errno::EEXIST
        } else if named == 34 {
            Errno::ERANGE
        } else {
            Errno::Other(named)
        }
    }

    /// The number of the error.
    pub open spec fn number(self) -> i32 {
        match self {
            Errno::ENOENT => 2,
            Errno::ENOMEM => 12,
            Errno::EEXIST => 17,
            Errno::ERANGE => 34,
            Errno::Other(code) => code,
        }
    }

    /// Names the error that a raw `errno` stands for.
    pub fn from_i32(code: i32) -> (errno: Errno)
        ensures
            errno == Errno::of_raw(code),
    {
        let named: i32 = nix_errno_from_i32(code);
        match named {
            2 => Errno::ENOENT,
            12 => Errno::ENOMEM,
            17 => Errno::EEXIST,
            34 => Errno::ERANGE,
            _ => Errno::Other(named),
        }
    }

    /// The number of the error.
    pub fn code(self) -> (code: i32)
        ensures
            code == self.number(),
    {
        match self {
            Errno::ENOENT => 2,
            Errno::ENOMEM => 12,
            Errno::EEXIST => 17,
            Errno::ERANGE => 34,
            Errno::Other(code) => code,
        }
    }

    /// The text for a reader.
    pub fn message(self) -> (text: String)
        ensures
            text@ == errno_text(self.number()),
    {
        nix_errno_display(self.code())
    }
}

/// How a system call reports that it failed, before its error is named.
#[derive(Clone, Copy, Debug, PartialEq, Eq, Structural)]
pub enum CallError {
    /// The call set this raw `errno`.
    Errno(i32),
    /// The path cannot be handed to the kernel, so that no call was made.
    InvalidPath,
}

/// A failed system call.
#[derive(Clone, Copy, Debug, PartialEq, Eq, Structural)]
pub enum SysError {
    /// The call failed with this error.
    Errno(Errno),
    /// The path cannot be handed to the kernel.
    InvalidPath,
}

impl SysError {
    /// The failure that a call reported.
    pub open spec fn of_call(err: CallError) -> SysError {
        match err {
            CallError::Errno(code) => SysError::Errno(Errno::of_raw(code)),
            CallError::InvalidPath => SysError::InvalidPath,
        }
    }

    /// The failure says that there is no such file.
    pub open spec fn is_not_found(self) -> bool {
        self == SysError::Errno(Errno::ENOENT)
    }

    /// The text for a reader.
    pub open spec fn text(self) -> Seq<char> {
        match self {
            SysError::Errno(errno) => errno_text(errno.number()),
            SysError::InvalidPath => "Invalid path"@,
        }
    }

    /// Names the failure that a call reported.
    pub fn from_call(err: CallError) -> (named: SysError)
        ensures
            named == SysError::of_call(err),
    {
        match err {
            CallError::Errno(code) => SysError::Errno(Errno::from_i32(code)),
            CallError::InvalidPath => SysError::InvalidPath,
        }
    }

    /// Whether the failure says that there is no such file.
    pub fn not_found(self) -> (yes: bool)
        ensures
            yes == self.is_not_found(),
    {
        match self {
            SysError::Errno(Errno::ENOENT) => true,
            _ => false,
        }
    }

    /// The text for a reader.
    pub fn message(self) -> (text: String)
        ensures
            text@ == self.text(),
    {
        match self {
            SysError::Errno(errno) => errno.message(),
            SysError::InvalidPath => nix_invalid_path_display(),
        }
    }
}

/// An error keeps its identity when its number is read again as a raw `errno`.
pub proof fn law_errno_number_names_it_again(code: i32)
    ensures
        Errno::of_raw(Errno::of_raw(code).number()) == Errno::of_raw(code),
{
}

/// Naming an error and asking for its number gives the raw `errno` back. All that gets lost is a
/// number that Linux does not use: from 134 on, below 1, and the unassigned 41 and 58.
pub proof fn law_named_error_keeps_its_number(code: i32, errno: Errno, number: i32)
    requires
        call_ensures(Errno::from_i32, (code,), errno),
        call_ensures(Errno::code, (errno,), number),
    ensures
        1 <= code <= 40 || 42 <= code <= 57 || 59 <= code <= 133 ==> number == code,
        code < 1 || code == 41 || code == 58 || code > 133 ==> number == 0,
{
}

/// The errors that have a name of their own are those with these numbers and no others.
pub proof fn law_own_names_go_with_their_numbers(code: i32, errno: Errno)
    requires
        call_ensures(Errno::from_i32, (code,), errno),
    ensures
        errno == Errno::ENOENT <==> code == 2,
        errno == Errno::ENOMEM <==> code == 12,
        errno == Errno::EEXIST <==> code == 17,
        errno == Errno::ERANGE <==> code == 34,
{
}

/// Any error, however it was made, gives the number that it was made with.
pub proof fn law_error_gives_its_number(errno: Errno, number: i32)
    requires
        call_ensures(Errno::code, (errno,), number),
    ensures
        errno is ENOENT ==> number == 2,
        errno is ENOMEM ==> number == 12,
        errno is EEXIST ==> number == 17,
        errno is ERANGE ==> number == 34,
        errno matches Errno::Other(code) ==> number == code,
{
}

/// Two errors with the same number have the same text, which is the one of that number.
pub proof fn law_text_goes_by_the_number(errno: Errno, number: i32, text: String)
    requires
        call_ensures(Errno::code, (errno,), number),
        call_ensures(Errno::message, (errno,), text),
    ensures
        text@ == errno_text(number),
{
}

/// The failure of a call is the error of its raw `errno`, or that the path was refused.
pub proof fn law_call_failure_is_its_errno(err: CallError, named: SysError)
    requires
        call_ensures(SysError::from_call, (err,), named),
    ensures
        err is InvalidPath <==> named is InvalidPath,
        err matches CallError::Errno(code) ==> forall|errno: Errno| #[trigger]
            call_ensures(Errno::from_i32, (code,), errno) ==> named == SysError::Errno(errno),
{
}

/// Of all failed calls, those with the raw `errno` 2 say that there is no such file.
pub proof fn law_only_two_means_not_found(err: CallError, named: SysError, yes: bool)
    requires
        call_ensures(SysError::from_call, (err,), named),
        call_ensures(SysError::not_found, (named,), yes),
    ensures
        yes <==> err == CallError::Errno(2),
{
}

/// A failure that was not read from a call says so exactly if it has that error.
pub proof fn law_not_found_is_one_error(named: SysError, yes: bool)
    requires
        call_ensures(SysError::not_found, (named,), yes),
    ensures
        yes <==> named == SysError::Errno(Errno::ENOENT),
{
}

/// A failure reads like its error, or tells of the path.
pub proof fn law_failure_reads_like_its_error(named: SysError, text: String)
    requires
        call_ensures(SysError::message, (named,), text),
    ensures
        named matches SysError::Errno(errno) ==> forall|of_errno: String| #[trigger]
            call_ensures(Errno::message, (errno,), of_errno) ==> text@ == of_errno@,
        named is InvalidPath ==> text@ == "Invalid path"@,
{
}

} // verus!
