//! Data that lives in shared memory.

use vstd::prelude::*;

verus! {

/// Why data does not have the format that its type asks for.
#[derive(Debug)]
pub enum Error {
    /// A mutex does not start with its magic number.
    WrongMagic,
    /// What an implementation of [`Init`] reports.
    Custom(String),
}

impl Error {
    /// The text for a reader.
    pub open spec fn text(self) -> Seq<char> {
        match self {
            Error::WrongMagic => "SharedMutex: wrong magic number"@,
            Error::Custom(text) => text@,
        }
    }

    /// The text for a reader.
    pub fn message(&self) -> (text: String)
        ensures
            text@ == self.text(),
    {
        match self {
            Error::WrongMagic => "SharedMutex: wrong magic number".to_owned(),
            Error::Custom(text) => text.clone(),
        }
    }
}

/// Data inside of shared memory has to implement this trait.
///
/// The memory is handed over as a value of the type; whoever maps it answers for its bytes being
/// one. IMPORTANT: the layout has to be the same in every program that maps the memory, so please
/// use `#[repr(C)]` for types that lie there.
pub trait Init: Sized {
    /// What [`Init::initialize`] does: `after` is a value that it may leave where `before` was. A
    /// type that does not say may be left with any value.
    open spec fn initializes(before: Self, after: Self) -> bool {
        true
    }

    /// Makes sure that the data structure is initialized. This is called after the data was mapped
    /// into shared memory, while no other process has access to it.
    fn initialize(this: &mut Self)
        ensures
            Self::initializes(*old(this), *final(this)),
    ;

    /// Checks whether the data has the correct format. By default any data has it.
    fn check_type_magic(_this: &Self) -> (result: Result<(), Error>)
        default_ensures
            result == Ok::<(), Error>(()),
    {
        Ok(())
    }
}

/// `result` is an answer that [`Init::check_type_magic`] may give for `this`.
pub open spec fn may_answer<T: Init>(this: T, result: Result<(), Error>) -> bool {
    call_ensures(T::check_type_magic, (&this,), result)
}

/// Initializes nested data.
pub fn initialize_subtype<T: Init>(this: &mut T)
    ensures
        T::initializes(*old(this), *final(this)),
{
    T::initialize(this);
}

/// Checks the format of nested data.
pub fn check_subtype<T: Init>(this: &T) -> (result: Result<(), Error>)
    ensures
        may_answer(*this, result),
{
    T::check_type_magic(this)
}

/// A type that brings its own complaint is quoted word for word; a mutex has a fixed one.
pub proof fn law_complaints_are_quoted(err: Error, text: String)
    requires
        call_ensures(Error::message, (&err,), text),
    ensures
        err matches Error::Custom(complaint) ==> text@ == complaint@,
        err is WrongMagic ==> text@ == "SharedMutex: wrong magic number"@,
{
}

/// Nested data is initialized and checked as its own type does it.
pub proof fn law_nested_data_goes_by_its_type<T: Init>(
    this: &mut T,
    that: T,
    result: Result<(), Error>,
)
    requires
        call_ensures(initialize_subtype::<T>, (this,), ()),
        call_ensures(check_subtype::<T>, (&that,), result),
    ensures
        T::initializes(*old(this), *final(this)),
        call_ensures(T::check_type_magic, (&that,), result),
{
}

} // verus!
