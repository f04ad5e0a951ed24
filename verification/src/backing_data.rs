//! The storage of the loaded module: the file's handler, and the entry under which it is found.

use vstd::prelude::*;

use crate::error::Error;
use crate::proc_fs::ProcDirEntry;
use crate::ram_file::ProcHand;

verus! {

/// The module's storage.
pub struct BackingData {
    /// The file's handler, once initialized.
    pub data: Option<ProcHand>,
    /// The proc entry, while it exists.
    pub entry: Option<ProcDirEntry<'static>>,
}

impl BackingData {
    /// The handler is there, so that users may be let in.
    pub open spec fn initialized(self) -> bool {
        self.data is Some
    }

    /// The storage before the module is loaded.
    pub fn new() -> (b: Self)
        ensures
            b.data is None,
            b.entry is None,
    {
        BackingData { data: None, entry: None }
    }

    /// Initializes the handler, letting new users access it. It is given ready, or with the error
    /// that its lock gave. To be called once in the module's lifetime.
    pub fn init_data(&mut self, lock_ready: Result<ProcHand, Error>) -> (r: Result<(), Error>)
        requires
            !old(self).initialized(),
        ensures
            match lock_ready {
                Ok(hand) => {
                    &&& r is Ok
                    &&& *final(self) == (BackingData { data: Some(hand), ..*old(self) })
                },
                Err(e) => r == Err::<(), Error>(e) && *final(self) == *old(self),
            },
    {
        match lock_ready {
            Ok(hand) => {
                self.data = Some(hand);
                Ok(())
            },
            Err(e) => Err(e),
        }
    }

    /// Stores the proc entry.
    pub fn set_pde(&mut self, pde: ProcDirEntry<'static>)
        ensures
            final(self).data == old(self).data,
            final(self).entry == Some(pde),
    {
        self.entry = Some(pde);
    }

    /// The handler. To be called only after initialization.
    pub fn get_initialized_data(&mut self) -> (hand: &mut ProcHand)
        requires
            old(self).initialized(),
        ensures
            old(self).data == Some(*hand),
            final(self).data == Some(*final(hand)),
            final(self).entry == old(self).entry,
    {
        self.data.as_mut().unwrap()
    }

    /// Removes the proc entry from the storage, if there is one.
    pub fn take_pde(&mut self) -> (pde: Option<ProcDirEntry<'static>>)
        ensures
            pde == old(self).entry,
            final(self).entry is None,
            final(self).data == old(self).data,
    {
        self.entry.take()
    }
}

} // verus!
