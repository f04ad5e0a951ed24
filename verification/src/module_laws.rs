//! What loading and unloading the module do: to its storage, and in what they ask of the kernel.

use vstd::prelude::*;

use crate::backing_data::BackingData;
use crate::error::Error;
use crate::module::RustProcRamFile;
use crate::proc_fs::{proc_create, ProcCreateCall, ProcDirEntry, ProcHandler, ProcOps};
use crate::ram_file::ProcHand;

verus! {

/// The table of an entry's operations has the flags it is given and callbacks for opening, reading,
/// writing and seeking. The file's own has no flags.
pub proof fn law_operations_table<T: ProcHandler>(
    flags: u32,
    p: ProcOps<'_, T>,
    file_ops: ProcOps<'static, ProcHand>,
)
    requires
        call_ensures(ProcOps::<T>::new, (flags,), p),
        call_ensures(RustProcRamFile::pops, (), file_ops),
    ensures
        p.ops.proc_flags == flags,
        p.ops.proc_open && p.ops.proc_read && p.ops.proc_write && p.ops.proc_lseek,
        !p.ops.proc_read_iter && !p.ops.proc_release && !p.ops.proc_poll && !p.ops.proc_ioctl,
        !p.ops.proc_compat_ioctl && !p.ops.proc_mmap && !p.ops.proc_get_unmapped_area,
        flags == 0 ==> file_ops.ops == p.ops,
{
}

/// The kernel is asked for an entry with just the name, the mode, the parent and the operations
/// given; the parent is 0 where none is given.
pub proof fn law_create_asks_for_entry<'a, T: ProcHandler>(
    name: &'static [u8],
    mode: u16,
    parent: Option<&ProcDirEntry<'a>>,
    ops: &'a ProcOps<'a, T>,
    call: ProcCreateCall<'a>,
)
    requires
        call_ensures(proc_create::<T>, (name, mode, parent, ops), call),
    ensures
        call.name@ == name@,
        call.mode == mode,
        parent is None ==> call.parent == 0,
        parent is Some ==> call.parent == parent->0.ptr,
        *call.ops == ops.ops,
{
}

/// The kernel's reply 0 is answered -12, and any other is the address of the entry.
pub proof fn law_create_reply<'a>(
    call: ProcCreateCall<'a>,
    pde: usize,
    r: Result<ProcDirEntry<'a>, Error>,
)
    requires
        call_ensures(ProcCreateCall::finish, (call, pde), r),
    ensures
        pde == 0 ==> r == Err::<ProcDirEntry<'a>, Error>(Error { errno: -12i32 }),
        pde != 0 ==> r is Ok && r->Ok_0.ptr == pde,
{
}

/// Loading, up to the creation of the entry. Where the lock could not be set up, its error is answered
/// and the storage is as it was. Else the storage has an empty file, and the kernel is asked for an
/// entry named `rust-proc-file` at the root, with the mode `0o666` and the operations given.
pub proof fn law_load(
    b0: BackingData,
    b1: BackingData,
    lock_ready: Result<(), Error>,
    pops: &'static ProcOps<'static, ProcHand>,
    r: Result<ProcCreateCall<'static>, Error>,
)
    requires
        exists|b: &mut BackingData|
            {
                &&& #[trigger] call_ensures(RustProcRamFile::init, (b, lock_ready, pops), r)
                &&& *b == b0 && *final(b) == b1
            },
    ensures
        b1.entry == b0.entry,
        lock_ready is Err ==> b1 == b0 && r is Err && r->Err_0 == lock_ready->Err_0,
        lock_ready is Ok ==> {
            &&& b1.data is Some
            &&& b1.data->0@ is Some
            &&& b1.data->0@->0.len() == 0
            &&& r is Ok
            &&& r->Ok_0.name@.len() == "rust-proc-file"@.len()
            &&& forall|i: int|
                0 <= i < "rust-proc-file"@.len() ==> #[trigger] r->Ok_0.name@[i] as char
                    == "rust-proc-file"@[i]
            &&& r->Ok_0.mode == 0o666
            &&& r->Ok_0.parent == 0
            &&& *r->Ok_0.ops == pops.ops
        },
{
    reveal_strlit("rust-proc-file");
}

/// Loading, from the kernel's reply on: the reply 0 is answered -12 and changes nothing; any other
/// is stored as the entry's address, and the file stays.
pub proof fn law_load_stores_entry(
    b0: BackingData,
    b1: BackingData,
    call: ProcCreateCall<'static>,
    pde: usize,
    r: Result<RustProcRamFile, Error>,
)
    requires
        exists|b: &mut BackingData|
            {
                &&& #[trigger] call_ensures(RustProcRamFile::init_created, (b, call, pde), r)
                &&& *b == b0 && *final(b) == b1
            },
    ensures
        b1.data == b0.data,
        pde == 0 ==> b1 == b0 && r is Err && r->Err_0.errno == -12,
        pde != 0 ==> r is Ok && b1.entry is Some && b1.entry->0.ptr == pde,
{
}

/// Unloading, up to the removal of the entry: hands out the entry that was stored, stores none, and
/// leaves the file.
pub proof fn law_unload_hands_out_entry(
    module: RustProcRamFile,
    b0: BackingData,
    b1: BackingData,
    pde: Option<ProcDirEntry<'static>>,
)
    requires
        exists|b: &mut BackingData|
            {
                &&& #[trigger] call_ensures(RustProcRamFile::unload, (&module, b), pde)
                &&& *b == b0 && *final(b) == b1
            },
    ensures
        pde == b0.entry,
        b1.entry is None,
        b1.data == b0.data,
{
}

/// Unloading, from the removal of the entry on: the handler stays for those who still use it, without
/// the bytes.
pub proof fn law_unload_drops_bytes(module: RustProcRamFile, b0: BackingData, b1: BackingData)
    requires
        exists|b: &mut BackingData|
            {
                &&& #[trigger] call_ensures(RustProcRamFile::unload_removed, (module, b), ())
                &&& *b == b0 && *final(b) == b1
            },
    ensures
        b1.data is Some,
        b1.data->0@ is None,
        b1.entry == b0.entry,
{
}

/// The storage starts without a handler and without an entry.
pub proof fn law_storage_starts_empty(b: BackingData)
    requires
        call_ensures(BackingData::new, (), b),
    ensures
        b.data is None,
        b.entry is None,
{
}

/// The storage takes a handler that is ready, and passes the error on where it is not. The entry
/// stays.
pub proof fn law_storage_takes_handler(
    b0: BackingData,
    b1: BackingData,
    ready: Result<ProcHand, Error>,
    r: Result<(), Error>,
)
    requires
        exists|b: &mut BackingData|
            {
                &&& #[trigger] call_ensures(BackingData::init_data, (b, ready), r)
                &&& *b == b0 && *final(b) == b1
            },
    ensures
        b1.entry == b0.entry,
        ready is Ok ==> r is Ok && b1.data == Some(ready->Ok_0),
        ready is Err ==> r == Err::<(), Error>(ready->Err_0) && b1.data == b0.data,
{
}

/// The storage lends out the handler that it has, and has again what became of it. The entry stays.
pub proof fn law_storage_lends_handler(b0: BackingData, b1: BackingData, h0: ProcHand, h1: ProcHand)
    requires
        exists|b: &mut BackingData, h: &mut ProcHand|
            {
                &&& #[trigger] call_ensures(BackingData::get_initialized_data, (b,), h)
                &&& *b == b0 && *final(b) == b1
                &&& *h == h0 && *final(h) == h1
            },
    ensures
        b0.data == Some(h0),
        b1.data == Some(h1),
        b1.entry == b0.entry,
{
}

/// The storage gives back the entry that was put there, whatever entry was there before, and has none
/// then. The handler stays.
pub proof fn law_storage_gives_entry_back(
    b0: BackingData,
    pde: ProcDirEntry<'static>,
    b1: BackingData,
    b2: BackingData,
    taken: Option<ProcDirEntry<'static>>,
)
    requires
        exists|b: &mut BackingData|
            {
                &&& #[trigger] call_ensures(BackingData::set_pde, (b, pde), ())
                &&& *b == b0 && *final(b) == b1
            },
        exists|b: &mut BackingData|
            {
                &&& #[trigger] call_ensures(BackingData::take_pde, (b,), taken)
                &&& *b == b1 && *final(b) == b2
            },
    ensures
        taken == Some(pde),
        b1.entry == Some(pde),
        b1.data == b0.data,
        b2.entry is None,
        b2.data == b0.data,
{
}

/// Taking the entry out of the storage gives what is there, and leaves none. The handler stays.
pub proof fn law_storage_lets_entry_go(
    b0: BackingData,
    b1: BackingData,
    taken: Option<ProcDirEntry<'static>>,
)
    requires
        exists|b: &mut BackingData|
            {
                &&& #[trigger] call_ensures(BackingData::take_pde, (b,), taken)
                &&& *b == b0 && *final(b) == b1
            },
    ensures
        taken == b0.entry,
        b1.entry is None,
        b1.data == b0.data,
{
}

} // verus!
