//! Building blocks for processes that share data through the operating system: typed shared
//! memory with a cross-process mutex, and access to extended file attributes.
//!
//! Everything that is decided or computed lives here, with a contract. System calls are made by
//! the caller: an operation that needs several of them is a value that says which call comes next
//! and that is advanced by the answer.

pub mod errno;
pub mod init;
pub mod mutex_history;
pub mod open_history;
pub mod open_shmem;
pub mod shared_memory;
pub mod shared_mutex;
pub mod text;
pub mod xattr;
pub mod xattr_history;
