//! Proc entries: the open file, the handler of its operations, and the callbacks that the kernel
//! makes.
//!
//! A pointer that the kernel may pass as null is an `Option` here.

use core::marker::PhantomData;

use vstd::prelude::*;
use vstd::std_specs::convert::TryFromSpecImpl;

use crate::error::{Error, EINVAL, ENOMEM};
use crate::uaccess::{UserSliceReader, UserSliceWriter};

verus! {

/// `lseek` mode: from the start of the file.
pub const SEEK_SET: u32 = 0;

/// `lseek` mode: from the current position.
pub const SEEK_CUR: u32 = 1;

/// `lseek` mode: from the end of the file.
pub const SEEK_END: u32 = 2;

/// `lseek` mode: to the next data.
pub const SEEK_DATA: u32 = 3;

/// `lseek` mode: to the next hole.
pub const SEEK_HOLE: u32 = 4;

/// The valid modes of
/// [lseek](https://man7.org/linux/man-pages/man2/lseek.2.html).
#[derive(Copy, Clone, Debug, PartialEq, Eq, Structural)]
pub enum Whence {
    /// Offsets count from the start of the file.
    SeekSet,
    /// Offsets count from the current position.
    SeekCur,
    /// Offsets count from the end of the file.
    SeekEnd,
    /// Seek to the data at or after the offset.
    SeekData,
    /// Seek to the hole at or after the offset.
    SeekHole,
}

impl Whence {
    /// The number by which `lseek` knows this mode.
    pub open spec fn number(self) -> u32 {
        match self {
            Whence::SeekSet => SEEK_SET,
            Whence::SeekCur => SEEK_CUR,
            Whence::SeekEnd => SEEK_END,
            Whence::SeekData => SEEK_DATA,
            Whence::SeekHole => SEEK_HOLE,
        }
    }

    /// The mode that a number names, if any.
    pub open spec fn of_number(n: int) -> Option<Whence> {
        if n == SEEK_SET {
            Some(Whence::SeekSet)
        } else if n == SEEK_CUR {
            Some(Whence::SeekCur)
        } else if n == SEEK_END {
            Some(Whence::SeekEnd)
        } else if n == SEEK_DATA {
            Some(Whence::SeekData)
        } else if n == SEEK_HOLE {
            Some(Whence::SeekHole)
        } else {
            None
        }
    }

    /// The number by which `lseek` knows this mode.
    pub fn as_u32(self) -> (n: u32)
        ensures
            n == self.number(),
    {
        match self {
            Whence::SeekSet => SEEK_SET,
            Whence::SeekCur => SEEK_CUR,
            Whence::SeekEnd => SEEK_END,
            Whence::SeekData => SEEK_DATA,
            Whence::SeekHole => SEEK_HOLE,
        }
    }
}

impl TryFrom<u32> for Whence {
    type Error = Error;

    fn try_from(value: u32) -> (r: Result<Self, Error>) {
        Ok(
            match value {
                SEEK_SET => Whence::SeekSet,
                SEEK_CUR => Whence::SeekCur,
                SEEK_END => Whence::SeekEnd,
                SEEK_DATA => Whence::SeekData,
                SEEK_HOLE => Whence::SeekHole,
                _ => return Err(Error { errno: EINVAL }),
            },
        )
    }
}

impl TryFromSpecImpl<u32> for Whence {
    open spec fn obeys_try_from_spec() -> bool {
        true
    }

    open spec fn try_from_spec(value: u32) -> Result<Self, Error> {
        match Whence::of_number(value as int) {
            Some(whence) => Ok(whence),
            None => Err(Error { errno: EINVAL }),
        }
    }
}

/// An operation on the semaphore at an address. It is handed over, not copied: the functions that
/// make a guard take one lock operation for it, and unlocking the guard gives one unlock operation.
#[derive(Debug, PartialEq, Eq, Structural)]
pub enum SemaphoreOp {
    /// Lock for reading.
    DownRead(usize),
    /// Unlock after reading.
    UpRead(usize),
    /// Lock for writing.
    DownWrite(usize),
    /// Unlock after writing.
    UpWrite(usize),
}

impl SemaphoreOp {
    /// The operation that lets go of what this one took.
    pub open spec fn undone(self) -> Option<SemaphoreOp> {
        match self {
            SemaphoreOp::DownRead(semaphore) => Some(SemaphoreOp::UpRead(semaphore)),
            SemaphoreOp::DownWrite(semaphore) => Some(SemaphoreOp::UpWrite(semaphore)),
            _ => None,
        }
    }
}

/// An open file. It has many fields, each with its own rules of access; handlers see only the offset
/// and the flags, the first modifiably. The semaphore of the file's inode guards them:
/// [`ProcOpFileHandle::read_locked_ref`] and [`ProcOpFileHandle::write_locked_ref`] give a guard for
/// the lock operation, once performed, and the guard gives the unlock operation when done.
#[derive(Copy, Clone, Debug, PartialEq, Eq, Structural)]
pub struct ProcOpFileHandle {
    /// The file's offset.
    pub pos: i64,
    /// The flags that the file was opened with.
    pub flags: u32,
    /// The address of the semaphore of the file's inode.
    pub semaphore: usize,
}

impl ProcOpFileHandle {
    /// The file after differs from the file before in the offset at most.
    pub open spec fn same_but_pos(before: Self, after: Self) -> bool {
        &&& after.flags == before.flags
        &&& after.semaphore == before.semaphore
    }

    /// The operation that locks the file for reading.
    pub fn read_lock(&self) -> (op: SemaphoreOp)
        ensures
            op == SemaphoreOp::DownRead(self.semaphore),
    {
        SemaphoreOp::DownRead(self.semaphore)
    }

    /// The operation that locks the file for writing.
    pub fn write_lock(&self) -> (op: SemaphoreOp)
        ensures
            op == SemaphoreOp::DownWrite(self.semaphore),
    {
        SemaphoreOp::DownWrite(self.semaphore)
    }

    /// A read-locked guard on the file, once `performed` has locked it for reading: it shows the
    /// fields and changes none.
    pub fn read_locked_ref(&mut self, performed: SemaphoreOp) -> (guard: FilePtrReadLocked<'_>)
        requires
            performed == SemaphoreOp::DownRead(old(self).semaphore),
        ensures
            *guard.f_ref == *old(self),
            guard.semaphore == old(self).semaphore,
            *final(self) == *old(self),
    {
        let semaphore: usize = self.semaphore;
        FilePtrReadLocked { f_ref: self, semaphore }
    }

    /// A write-locked guard on the file, once `performed` has locked it for writing: what is done
    /// through it is done to the file.
    pub fn write_locked_ref(&mut self, performed: SemaphoreOp) -> (guard: FilePtrWriteLocked<'_>)
        requires
            performed == SemaphoreOp::DownWrite(old(self).semaphore),
        ensures
            *guard.f_ref == *old(self),
            guard.semaphore == old(self).semaphore,
            *final(self) == *final(guard.f_ref),
    {
        let semaphore: usize = self.semaphore;
        FilePtrWriteLocked { f_ref: self, semaphore }
    }

    /// The flags, read without the lock.
    pub fn get_flags(&self) -> (flags: u32)
        ensures
            flags == self.flags,
    {
        self.flags
    }

    /// The offset, read without the lock.
    pub fn read_pos_unsync(&self) -> (pos: i64)
        ensures
            pos == self.pos,
    {
        self.pos
    }

    /// Sets the offset without the lock.
    pub fn write_pos_unsync(&mut self, pos: i64)
        ensures
            *final(self) == (ProcOpFileHandle { pos, ..*old(self) }),
    {
        self.pos = pos;
    }
}

/// A read-locked guard which exposes a few of a file's fields.
pub struct FilePtrReadLocked<'a> {
    /// The file under the lock.
    pub f_ref: &'a ProcOpFileHandle,
    /// The address of the semaphore that is held.
    pub semaphore: usize,
}

impl<'a> FilePtrReadLocked<'a> {
    /// The file's offset.
    pub fn pos_ref(&self) -> (pos: &i64)
        ensures
            *pos == self.f_ref.pos,
    {
        &self.f_ref.pos
    }

    /// The file's flags.
    pub fn flags_ref(&self) -> (flags: &u32)
        ensures
            *flags == self.f_ref.flags,
    {
        &self.f_ref.flags
    }

    /// The operation that lets go of the lock.
    pub fn unlock(self) -> (op: SemaphoreOp)
        ensures
            op == SemaphoreOp::UpRead(self.semaphore),
    {
        SemaphoreOp::UpRead(self.semaphore)
    }
}

/// A write-locked guard which exposes a few of a file's fields modifiably.
pub struct FilePtrWriteLocked<'a> {
    /// The file under the lock.
    pub f_ref: &'a mut ProcOpFileHandle,
    /// The address of the semaphore that is held.
    pub semaphore: usize,
}

impl<'a> FilePtrWriteLocked<'a> {
    /// The file's offset, for change. The flags stay, and the guard stays on the same file.
    pub fn pos_mut(&mut self) -> (pos: &mut i64)
        ensures
            *pos == old(self).f_ref.pos,
            *final(self).f_ref == (ProcOpFileHandle { pos: *final(pos), ..*old(self).f_ref }),
            *final(final(self).f_ref) == *final(old(self).f_ref),
            final(self).semaphore == old(self).semaphore,
    {
        &mut self.f_ref.pos
    }

    /// The operation that lets go of the lock. The file stays as the guard leaves it.
    pub fn unlock(self) -> (op: SemaphoreOp)
        ensures
            op == SemaphoreOp::UpWrite(self.semaphore),
            *final(self.f_ref) == *old(self.f_ref),
    {
        SemaphoreOp::UpWrite(self.semaphore)
    }
}

/// The handler of a proc file's operations.
///
/// Each operation has a relation, which says what it may do: from the handler and the file before
/// to the handler and the file after, with its answer. Of the file, it may change the offset alone.
pub trait ProcHandler: Sized {
    /// What opening may do.
    spec fn opens(
        before: Self,
        file: ProcOpFileHandle,
        after: Self,
        file_after: ProcOpFileHandle,
        r: Result<i32, Error>,
    ) -> bool;

    /// What reading at `offset` may do; `user_slice_after` holds the bytes read.
    spec fn reads(
        before: Self,
        file: ProcOpFileHandle,
        user_slice: UserSliceWriter,
        offset: i64,
        after: Self,
        file_after: ProcOpFileHandle,
        user_slice_after: UserSliceWriter,
        r: Result<(usize, usize), Error>,
    ) -> bool;

    /// What the end of a read may do, once its bytes were to be copied to user memory and the last
    /// `uncopied` of them did not get there.
    spec fn settles(
        before: Self,
        file: ProcOpFileHandle,
        answer: (usize, usize),
        uncopied: usize,
        after: Self,
        file_after: ProcOpFileHandle,
        r: Result<(usize, usize), Error>,
    ) -> bool;

    /// What writing at `offset` may do.
    spec fn writes(
        before: Self,
        file: ProcOpFileHandle,
        user_slice: UserSliceReader,
        offset: i64,
        after: Self,
        file_after: ProcOpFileHandle,
        r: Result<(usize, usize), Error>,
    ) -> bool;

    /// What seeking may do.
    spec fn seeks(
        before: Self,
        file: ProcOpFileHandle,
        offset: i64,
        whence: Whence,
        after: Self,
        file_after: ProcOpFileHandle,
        r: Result<i64, Error>,
    ) -> bool;

    /// Open handler: answers the status of the open.
    fn open(&mut self, file: &mut ProcOpFileHandle) -> (r: Result<i32, Error>)
        ensures
            Self::opens(*old(self), *old(file), *final(self), *final(file), r),
            ProcOpFileHandle::same_but_pos(*old(file), *final(file)),
            r matches Err(e) ==> e.wf(),
    ;

    /// Read handler: gathers the bytes, and answers their number and the next offset. How the copy
    /// to user memory went is told to `read_done`.
    fn read(
        &mut self,
        file: &mut ProcOpFileHandle,
        user_slice: &mut UserSliceWriter,
        offset: &i64,
    ) -> (r: Result<(usize, usize), Error>)
        requires
            old(user_slice).wf(),
        ensures
            Self::reads(
                *old(self),
                *old(file),
                *old(user_slice),
                *offset,
                *final(self),
                *final(file),
                *final(user_slice),
                r,
            ),
            ProcOpFileHandle::same_but_pos(*old(file), *final(file)),
            final(user_slice).wf(),
            final(user_slice).capacity == old(user_slice).capacity,
            r matches Err(e) ==> e.wf(),
    ;

    /// Ends a read that answered `answer`: told how many of the bytes, the last ones, could not be
    /// copied to user memory, the handler gives the final answer.
    fn read_done(
        &mut self,
        file: &mut ProcOpFileHandle,
        answer: (usize, usize),
        uncopied: usize,
    ) -> (r: Result<(usize, usize), Error>)
        ensures
            Self::settles(
                *old(self),
                *old(file),
                answer,
                uncopied,
                *final(self),
                *final(file),
                r,
            ),
            ProcOpFileHandle::same_but_pos(*old(file), *final(file)),
            r matches Err(e) ==> e.wf(),
    ;

    /// Write handler: answers the number of bytes written and the next offset.
    fn write(
        &mut self,
        file: &mut ProcOpFileHandle,
        user_slice: UserSliceReader,
        offset: &i64,
    ) -> (r: Result<(usize, usize), Error>)
        requires
            user_slice.wf(),
        ensures
            Self::writes(
                *old(self),
                *old(file),
                user_slice,
                *offset,
                *final(self),
                *final(file),
                r,
            ),
            ProcOpFileHandle::same_but_pos(*old(file), *final(file)),
            r matches Err(e) ==> e.wf(),
    ;

    /// Seek handler: answers the new offset.
    fn lseek(&mut self, file: &mut ProcOpFileHandle, offset: i64, whence: Whence) -> (r: Result<
        i64,
        Error,
    >)
        ensures
            Self::seeks(*old(self), *old(file), offset, whence, *final(self), *final(file), r),
            ProcOpFileHandle::same_but_pos(*old(file), *final(file)),
            r matches Err(e) ==> e.wf(),
    ;
}

/// What a read or write callback returns to the kernel, and what it leaves in the kernel's offset.
pub open spec fn transfer_reply(r: Result<(usize, usize), Error>, offset: i64) -> (isize, i64) {
    match r {
        Ok((bytes, next_offset)) => (bytes as isize, next_offset as i64),
        Err(e) => (e.errno as isize, offset),
    }
}

/// What the second half of a read callback may do, with file and offset there: an error of the first
/// half is returned as it is, else the handler settles the answer.
pub open spec fn read_end_possible<T: ProcHandler>(
    before: T,
    file: ProcOpFileHandle,
    answer: Result<(usize, usize), Error>,
    uncopied: usize,
    offset: i64,
    after: T,
    file_after: ProcOpFileHandle,
    status: isize,
    offset_after: i64,
) -> bool {
    match answer {
        Ok(answer) => exists|r: Result<(usize, usize), Error>|
            {
                &&& #[trigger] T::settles(before, file, answer, uncopied, after, file_after, r)
                &&& r matches Err(e) ==> e.wf()
                &&& (status, offset_after) == transfer_reply(r, offset)
            },
        Err(_) => {
            &&& after == before
            &&& file_after == file
            &&& (status, offset_after) == transfer_reply(answer, offset)
        },
    }
}

/// What a write callback may do, with file and offset there.
pub open spec fn write_call_possible<T: ProcHandler>(
    before: T,
    file: ProcOpFileHandle,
    src: UserSliceReader,
    offset: i64,
    after: T,
    file_after: ProcOpFileHandle,
    status: isize,
    offset_after: i64,
) -> bool {
    exists|r: Result<(usize, usize), Error>|
        {
            &&& #[trigger] T::writes(before, file, src, offset, after, file_after, r)
            &&& r matches Err(e) ==> e.wf()
            &&& (status, offset_after) == transfer_reply(r, offset)
        }
}

/// The kernel's table of a proc entry's operations: the flags, and which operations have a callback.
#[derive(Copy, Clone, Debug, PartialEq, Eq, Structural)]
pub struct ProcOpsTable {
    pub proc_flags: u32,
    pub proc_open: bool,
    pub proc_read: bool,
    pub proc_read_iter: bool,
    pub proc_write: bool,
    pub proc_lseek: bool,
    pub proc_release: bool,
    pub proc_poll: bool,
    pub proc_ioctl: bool,
    pub proc_compat_ioctl: bool,
    pub proc_mmap: bool,
    pub proc_get_unmapped_area: bool,
}

impl ProcOpsTable {
    /// The table of an entry that can be opened, read, written and sought in, and nothing else.
    pub open spec fn of_handler(proc_flags: u32) -> Self {
        ProcOpsTable {
            proc_flags,
            proc_open: true,
            proc_read: true,
            proc_read_iter: false,
            proc_write: true,
            proc_lseek: true,
            proc_release: false,
            proc_poll: false,
            proc_ioctl: false,
            proc_compat_ioctl: false,
            proc_mmap: false,
            proc_get_unmapped_area: false,
        }
    }
}

/// The operations of a proc entry that `T` handles, with the callbacks that the kernel makes.
pub struct ProcOps<'a, T> where T: ProcHandler {
    /// The kernel's table.
    pub ops: ProcOpsTable,
    /// The handler's type.
    pub _pd: PhantomData<&'a T>,
}

impl<'a, T> ProcOps<'a, T> where T: ProcHandler {
    /// The operations under the given flags.
    pub fn new(proc_flags: u32) -> (p: Self)
        ensures
            p.ops == ProcOpsTable::of_handler(proc_flags),
    {
        ProcOps {
            ops: ProcOpsTable {
                proc_flags,
                proc_open: true,
                proc_read: true,
                proc_read_iter: false,
                proc_write: true,
                proc_lseek: true,
                proc_release: false,
                proc_poll: false,
                proc_ioctl: false,
                proc_compat_ioctl: false,
                proc_mmap: false,
                proc_get_unmapped_area: false,
            },
            _pd: PhantomData,
        }
    }

    /// Open callback: the handler's status, or its error code; `EINVAL` without a file.
    pub fn proc_open(handler: &mut T, file: Option<&mut ProcOpFileHandle>) -> (status: i32)
        ensures
            file matches Some(f) ==> ProcOpFileHandle::same_but_pos(*f, *final(f)),
            match file {
                Some(f) => exists|r: Result<i32, Error>|
                    {
                        &&& #[trigger] T::opens(*old(handler), *f, *final(handler), *final(f), r)
                        &&& match r {
                            Ok(code) => status == code,
                            Err(e) => e.wf() && status == e.errno,
                        }
                    },
                None => status == EINVAL && *final(handler) == *old(handler),
            },
    {
        let file_ref = match file {
            Some(f) => f,
            None => return Error { errno: EINVAL }.to_errno(),
        };
        match handler.open(file_ref) {
            Ok(code) => code,
            Err(e) => e.to_errno(),
        }
    }

    /// Read callback, up to the copy to user memory: the handler gathers the bytes in `buf_writer`.
    /// `EINVAL` without a file or an offset.
    pub fn proc_read(
        handler: &mut T,
        file: Option<&mut ProcOpFileHandle>,
        buf_writer: &mut UserSliceWriter,
        read_offset: Option<&i64>,
    ) -> (r: Result<(usize, usize), Error>)
        requires
            old(buf_writer).wf(),
        ensures
            final(buf_writer).wf(),
            final(buf_writer).capacity == old(buf_writer).capacity,
            r matches Err(e) ==> e.wf(),
            file matches Some(f) ==> ProcOpFileHandle::same_but_pos(*f, *final(f)),
            match (file, read_offset) {
                (Some(f), Some(offset)) => T::reads(
                    *old(handler),
                    *f,
                    *old(buf_writer),
                    *offset,
                    *final(handler),
                    *final(f),
                    *final(buf_writer),
                    r,
                ),
                (f, _) => {
                    &&& r == Err::<(usize, usize), Error>(Error { errno: EINVAL })
                    &&& *final(handler) == *old(handler)
                    &&& *final(buf_writer) == *old(buf_writer)
                    &&& f matches Some(f) ==> *final(f) == *f
                },
            },
    {
        let file_ref = match file {
            Some(f) => f,
            None => return Err(Error { errno: EINVAL }),
        };
        let offset = match read_offset {
            Some(offset) => offset,
            None => return Err(Error { errno: EINVAL }),
        };
        handler.read(file_ref, buf_writer, offset)
    }

    /// Read callback, from the copy to user memory on: the last `uncopied` bytes did not get there.
    /// The handler settles the answer. On success the kernel's offset moves and the number of bytes
    /// is returned, else the error code. `EINVAL` without a file or an offset.
    pub fn proc_read_done(
        handler: &mut T,
        file: Option<&mut ProcOpFileHandle>,
        answer: Result<(usize, usize), Error>,
        uncopied: usize,
        read_offset: Option<&mut i64>,
    ) -> (status: isize)
        ensures
            file matches Some(f) ==> ProcOpFileHandle::same_but_pos(*f, *final(f)),
            match (file, read_offset) {
                (Some(f), Some(offset)) => read_end_possible(
                    *old(handler),
                    *f,
                    answer,
                    uncopied,
                    *offset,
                    *final(handler),
                    *final(f),
                    status,
                    *final(offset),
                ),
                (f, offset) => {
                    &&& status == EINVAL
                    &&& *final(handler) == *old(handler)
                    &&& f matches Some(f) ==> *final(f) == *f
                    &&& offset matches Some(offset) ==> *final(offset) == *offset
                },
            },
    {
        let file_ref = match file {
            Some(f) => f,
            None => return Error { errno: EINVAL }.to_errno() as isize,
        };
        let offset = match read_offset {
            Some(offset) => offset,
            None => return Error { errno: EINVAL }.to_errno() as isize,
        };
        let answer = match answer {
            Ok(answer) => answer,
            Err(e) => return e.to_errno() as isize,
        };
        match handler.read_done(file_ref, answer, uncopied) {
            Ok((read_bytes, next_offset)) => {
                *offset = next_offset as i64;
                read_bytes as isize
            },
            Err(e) => e.to_errno() as isize,
        }
    }

    /// Write callback: on success the kernel's offset moves and the number of bytes is returned,
    /// else the error code. `EINVAL` without a file or an offset.
    pub fn proc_write(
        handler: &mut T,
        file: Option<&mut ProcOpFileHandle>,
        buf_reader: UserSliceReader,
        write_offset: Option<&mut i64>,
    ) -> (status: isize)
        requires
            buf_reader.wf(),
        ensures
            file matches Some(f) ==> ProcOpFileHandle::same_but_pos(*f, *final(f)),
            match (file, write_offset) {
                (Some(f), Some(offset)) => write_call_possible(
                    *old(handler),
                    *f,
                    buf_reader,
                    *offset,
                    *final(handler),
                    *final(f),
                    status,
                    *final(offset),
                ),
                (f, offset) => {
                    &&& status == EINVAL
                    &&& *final(handler) == *old(handler)
                    &&& f matches Some(f) ==> *final(f) == *f
                    &&& offset matches Some(offset) ==> *final(offset) == *offset
                },
            },
    {
        let file_ref = match file {
            Some(f) => f,
            None => return Error { errno: EINVAL }.to_errno() as isize,
        };
        let offset = match write_offset {
            Some(offset) => offset,
            None => return Error { errno: EINVAL }.to_errno() as isize,
        };
        match handler.write(file_ref, buf_reader, offset) {
            Ok((written_bytes, next_offset)) => {
                *offset = next_offset as i64;
                written_bytes as isize
            },
            Err(e) => e.to_errno() as isize,
        }
    }

    /// Seek callback: the handler's new offset, or its error code. `EINVAL` for a number that names
    /// no seek mode, and without a file.
    pub fn proc_lseek(
        handler: &mut T,
        file: Option<&mut ProcOpFileHandle>,
        offset: i64,
        whence: i32,
    ) -> (status: i64)
        ensures
            file matches Some(f) ==> ProcOpFileHandle::same_but_pos(*f, *final(f)),
            match (file, Whence::of_number(whence as int)) {
                (Some(f), Some(whence)) => exists|r: Result<i64, Error>|
                    {
                        &&& #[trigger] T::seeks(
                            *old(handler),
                            *f,
                            offset,
                            whence,
                            *final(handler),
                            *final(f),
                            r,
                        )
                        &&& match r {
                            Ok(offs) => status == offs,
                            Err(e) => e.wf() && status == e.errno,
                        }
                    },
                (f, _) => {
                    &&& status == EINVAL
                    &&& *final(handler) == *old(handler)
                    &&& f matches Some(f) ==> *final(f) == *f
                },
            },
    {
        let whence_u32: u32 = match u32::try_from(whence) {
            Ok(whence_u32) => whence_u32,
            Err(_) => return i64::from(Error { errno: EINVAL }.to_errno()),
        };
        let whence = match Whence::try_from(whence_u32) {
            Ok(whence) => whence,
            Err(_) => return i64::from(Error { errno: EINVAL }.to_errno()),
        };
        let file_ref = match file {
            Some(f) => f,
            None => return i64::from(Error { errno: EINVAL }.to_errno()),
        };
        match handler.lseek(file_ref, offset, whence) {
            Ok(offs) => offs,
            Err(e) => i64::from(e.to_errno()),
        }
    }
}

/// An entry in the proc file system. Whoever drops it removes the entry.
pub struct ProcDirEntry<'a> {
    /// The kernel's address of the entry.
    pub ptr: usize,
    /// The entry refers to its operations for as long as it lives.
    pub _pd: PhantomData<&'a ()>,
}

impl<'a> ProcDirEntry<'a> {
    /// The address is one.
    pub open spec fn wf(self) -> bool {
        self.ptr != 0
    }
}

/// The arguments with which the kernel is asked to create a proc entry.
pub struct ProcCreateCall<'a> {
    /// The file name of the entry, without the zero byte that ends it in C.
    pub name: &'static [u8],
    /// Its permission bits.
    pub mode: u16,
    /// The address of the directory entry to put it under, 0 for the root of the file system.
    pub parent: usize,
    /// Its operations.
    pub ops: &'a ProcOpsTable,
}

/// The bytes can stand in a C string: none is zero.
pub open spec fn c_string(name: Seq<u8>) -> bool {
    forall|i: int| 0 <= i < name.len() ==> name[i] != 0
}

/// Asks for a proc entry with the file name `name`. The kernel's reply goes to
/// [`ProcCreateCall::finish`].
pub fn proc_create<'a, T>(
    name: &'static [u8],
    mode: u16,
    dir_entry: Option<&ProcDirEntry<'a>>,
    proc_ops: &'a ProcOps<'a, T>,
) -> (call: ProcCreateCall<'a>) where T: ProcHandler
    requires
        c_string(name@),
    ensures
        call.name@ == name@,
        call.mode == mode,
        call.parent == match dir_entry {
            Some(de) => de.ptr,
            None => 0,
        },
        *call.ops == proc_ops.ops,
{
    let parent: usize = match dir_entry {
        Some(de) => de.ptr,
        None => 0,
    };
    ProcCreateCall { name, mode, parent, ops: &proc_ops.ops }
}

impl<'a> ProcCreateCall<'a> {
    /// The entry at the address with which the kernel replied; `ENOMEM` for null.
    pub fn finish(self, pde: usize) -> (r: Result<ProcDirEntry<'a>, Error>)
        ensures
            match r {
                Ok(entry) => pde != 0 && entry.ptr == pde && entry.wf(),
                Err(e) => pde == 0 && e == (Error { errno: ENOMEM }),
            },
    {
        if pde == 0 {
            Err(Error { errno: ENOMEM })
        } else {
            Ok(ProcDirEntry { ptr: pde, _pd: PhantomData })
        }
    }
}

} // verus!
