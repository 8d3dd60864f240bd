# proxmox

Building blocks for processes that share data through the operating system, verified with Verus:

- `shared_memory`, `open_shmem`: typed memory that several processes map from one file on a `tmpfs`.
  The file is created, initialized and only then put in its place, so that nobody sees memory that
  is not initialized; whoever loses the race for the place maps the winner's file.
- `open_history`: what several processes that open one path at the same time can see of each other.
- `shared_mutex`, `init`: data for such memory, and a mutex with a magic number that protects it.
- `mutex_history`: what several users of one mutex can see of each other.
- `xattr`: names and lists of extended attributes, and the calls that list, read and set them.
- `xattr_history`: what is read and listed of the attributes that were set.
- `errno`, `text`: error numbers of system calls, and small helpers.

`src/` decides and computes, and makes no system calls. An operation that needs several of them is
a value: it says which call comes next, and the answer advances it. `app/` makes the calls, holds
the types whose layout in memory matters, and gives the errors their usual traits. What `src/`
takes from the `nix` crate (error numbers with their texts, the type of a `tmpfs`) it takes through
four functions whose contracts are trusted.
