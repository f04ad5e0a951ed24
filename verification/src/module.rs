//! The module: how the file gets into the proc file system and out of it again.

use vstd::prelude::*;

use crate::backing_data::BackingData;
use crate::error::{Error, ENOMEM};
use crate::proc_fs::{proc_create, ProcCreateCall, ProcDirEntry, ProcOps, ProcOpsTable};
use crate::ram_file::{FileBytes, ProcHand};

verus! {

/// Permission bits of the file: anyone may read and write it.
pub const FILE_MODE: u16 = 0o666;

/// The name of the file, in ASCII.
pub open spec fn file_name() -> Seq<u8> {
    "rust-proc-file"@.map_values(|c: char| c as u8)
}

/// Loading has put an empty file into the storage.
pub open spec fn file_stored(before: BackingData, after: BackingData) -> bool {
    &&& after.initialized()
    &&& after.data->0@ == Some(Seq::<u8>::empty())
    &&& after.entry == before.entry
}

/// Loading has put the entry at address `pde` into the storage.
pub open spec fn entry_stored(before: BackingData, pde: usize, after: BackingData) -> bool {
    &&& after.data == before.data
    &&& after.entry is Some
    &&& after.entry->0.ptr == pde
}

/// Unloading has taken the entry out of the storage.
pub open spec fn entry_taken(
    before: BackingData,
    after: BackingData,
    pde: Option<ProcDirEntry<'static>>,
) -> bool {
    &&& pde == before.entry
    &&& after.entry is None
    &&& after.data == before.data
}

/// Unloading has let go of the file's bytes.
pub open spec fn bytes_dropped(before: BackingData, after: BackingData) -> bool {
    &&& after.initialized()
    &&& after.data->0@ is None
    &&& after.entry == before.entry
}

/// The loaded module.
pub struct RustProcRamFile;

impl RustProcRamFile {
    /// The operations of the file.
    pub fn pops() -> (pops: ProcOps<'static, ProcHand>)
        ensures
            pops.ops == ProcOpsTable::of_handler(0),
    {
        ProcOps::new(0)
    }

    /// Loads the module, up to the creation of the proc entry: stores an empty file, then asks for
    /// the entry. `lock_ready` is how setting up the file's lock went; its error is passed on.
    pub fn init(
        backing: &mut BackingData,
        lock_ready: Result<(), Error>,
        pops: &'static ProcOps<'static, ProcHand>,
    ) -> (r: Result<ProcCreateCall<'static>, Error>)
        requires
            !old(backing).initialized(),
        ensures
            match lock_ready {
                Ok(()) => {
                    &&& file_stored(*old(backing), *final(backing))
                    &&& r is Ok
                    &&& r->Ok_0.name@ == file_name()
                    &&& r->Ok_0.mode == FILE_MODE
                    &&& r->Ok_0.parent == 0
                    &&& *r->Ok_0.ops == pops.ops
                },
                Err(e) => {
                    &&& *final(backing) == *old(backing)
                    &&& r is Err
                    &&& r->Err_0 == e
                },
            },
    {
        let hand = ProcHand { data: Some(FileBytes::new()) };
        let lock = match lock_ready {
            Ok(()) => Ok(hand),
            Err(e) => Err(e),
        };
        backing.init_data(lock)?;
        let name: &'static [u8] = "rust-proc-file".as_bytes();
        proof {
            broadcast use vstd::string::is_ascii_spec_bytes;
            reveal_strlit("rust-proc-file");
            assert("rust-proc-file".is_ascii());
            assert(name@ =~= file_name());
        }
        Ok(proc_create(name, FILE_MODE, None, pops))
    }

    /// Loads the module, from the kernel's reply on: stores the entry; `ENOMEM` where there is none.
    pub fn init_created(
        backing: &mut BackingData,
        call: ProcCreateCall<'static>,
        pde: usize,
    ) -> (r: Result<RustProcRamFile, Error>)
        requires
            old(backing).initialized(),
        ensures
            match r {
                Ok(_) => pde != 0 && entry_stored(*old(backing), pde, *final(backing)),
                Err(e) => {
                    &&& pde == 0
                    &&& e == (Error { errno: ENOMEM })
                    &&& *final(backing) == *old(backing)
                },
            },
    {
        let entry = call.finish(pde)?;
        backing.set_pde(entry);
        Ok(RustProcRamFile)
    }

    /// Unloads the module, up to the removal of the proc entry: hands out the entry to remove.
    pub fn unload(&self, backing: &mut BackingData) -> (pde: Option<ProcDirEntry<'static>>)
        ensures
            entry_taken(*old(backing), *final(backing), pde),
    {
        backing.take_pde()
    }

    /// Unloads the module, from the removal of the entry on: lets go of the bytes. A user who got in
    /// before the removal and is not done yet will find the file busy.
    pub fn unload_removed(self, backing: &mut BackingData)
        requires
            old(backing).initialized(),
            old(backing).entry is None,
        ensures
            bytes_dropped(*old(backing), *final(backing)),
    {
        let _bytes = backing.get_initialized_data().take();
    }
}

} // verus!
