# rust_proc_fs

A file under `/proc` that lives in memory: it can be read, written, appended to and sought in by
anyone. The library holds what the file and its callbacks decide and compute, with contracts that
Verus proves. The kernel side moves values in and out; by itself it only answers `ENOMEM` where it has
no memory to copy a user buffer into, and `EBUSY` where the module is not in the state that a call needs.

- `src/`: the verified library.
  - `error`: error codes.
  - `uaccess`: user buffers, as bytes.
  - `proc_fs`: seek modes, the open file and its lock, the handler trait, the callbacks of a proc
    entry, and the creation of one.
  - `ram_file`: the file's open, read, write and seek, each with the function it computes.
  - `backing_data`, `module`: storage, loading and unloading.
  - `laws`: what holds across operations, such as that a read gives back what a write wrote.
- `tests/`: tests of the library.
- `app/`: C callbacks, copies from and to user memory, locks, and the modules' entry points.
- `extras/`: the C functions that `app/` needs beside those the kernel exports, and the C entry points
  of the modules.

User memory is copied in before a write and copied out after a read. What the copies brought, whether
they failed, and whether memory could be had are inputs of the library, so its contracts hold for
every outcome.
