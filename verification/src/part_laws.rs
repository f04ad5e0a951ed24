//! What the parts do on which the file and its callbacks are built: error codes, seek modes, user
//! buffers, the open file under its lock, the bytes of the file.

use vstd::prelude::*;

use crate::error::{Error, EBUSY, EFAULT, EINVAL, ENOMEM, MAX_ERRNO};
use crate::proc_fs::{
    FilePtrReadLocked, FilePtrWriteLocked, ProcOpFileHandle, SemaphoreOp, Whence, SEEK_CUR, SEEK_DATA,
    SEEK_END, SEEK_HOLE, SEEK_SET,
};
use crate::ram_file::{FileBytes, ProcHand, O_APPEND, O_TRUNC};
use crate::uaccess::{reserve, UserSliceReader, UserSliceWriter};

verus! {

/// The numbers that the kernel gives to errors, open flags and seek modes.
pub proof fn law_kernel_numbers()
    ensures
        MAX_ERRNO == 4095,
        ENOMEM == -12,
        EFAULT == -14,
        EBUSY == -16,
        EINVAL == -22,
        O_TRUNC == 0o1000,
        O_APPEND == 0o2000,
        SEEK_SET == 0,
        SEEK_CUR == 1,
        SEEK_END == 2,
        SEEK_DATA == 3,
        SEEK_HOLE == 4,
{
}

/// Every code from -4095 to -1 makes the error of that code, and any other number that of the code
/// -22. The code of an error is the one it holds, so a code goes in and out unchanged.
pub proof fn law_error_codes(code: i32, e: Error, back: i32)
    requires
        call_ensures(Error::from_errno, (code,), e),
        call_ensures(Error::to_errno, (e,), back),
    ensures
        -4095 <= code <= -1 ==> e.errno == code && back == code,
        !(-4095 <= code <= -1) ==> e.errno == -22 && back == -22,
{
}

/// An error gives the code that it holds.
pub proof fn law_error_code(e: Error, code: i32)
    requires
        call_ensures(Error::to_errno, (e,), code),
    ensures
        code == e.errno,
{
}

/// The numbers 0 to 4 name the seek modes, each its own, and no other number names any.
pub proof fn law_seek_mode_numbers(n: u32, r: Result<Whence, Error>)
    requires
        call_ensures(Whence::try_from, (n,), r),
    ensures
        n == 0 ==> r == Ok::<Whence, Error>(Whence::SeekSet),
        n == 1 ==> r == Ok::<Whence, Error>(Whence::SeekCur),
        n == 2 ==> r == Ok::<Whence, Error>(Whence::SeekEnd),
        n == 3 ==> r == Ok::<Whence, Error>(Whence::SeekData),
        n == 4 ==> r == Ok::<Whence, Error>(Whence::SeekHole),
        n > 4 ==> r == Err::<Whence, Error>(Error { errno: -22i32 }),
{
}

/// A seek mode and its number lead to each other.
pub proof fn law_seek_mode_round_trip(mode: Whence, n: u32, r: Result<Whence, Error>)
    requires
        call_ensures(Whence::as_u32, (mode,), n),
        call_ensures(Whence::try_from, (n,), r),
    ensures
        n <= 4,
        r == Ok::<Whence, Error>(mode),
{
}

/// A reader starts before the first byte of what was copied, all of it readable but the last
/// `uncopied` bytes.
pub proof fn law_reader_starts(bytes: Vec<u8>, uncopied: usize, src: UserSliceReader)
    requires
        uncopied <= bytes@.len(),
        call_ensures(UserSliceReader::new, (bytes, uncopied), src),
    ensures
        src.bytes@ == bytes@,
        src.pos == 0,
        src.readable + uncopied == bytes@.len(),
{
}

/// The length of a reader is how many bytes of its buffer are not consumed, readable or not.
pub proof fn law_reader_length(src: UserSliceReader, n: usize)
    requires
        src.pos <= src.readable <= src.bytes@.len(),
        call_ensures(UserSliceReader::len, (&src,), n),
    ensures
        src.pos + n == src.bytes@.len(),
{
}

/// Filling a slice from a reader. Where the buffer has as many bytes left as the slice is long, the
/// slice holds the next bytes; else it is as it was. The answer is success, and the bytes are
/// consumed, exactly where they all are readable; else it is -14 and none is consumed.
pub proof fn law_reader_fills_slice(
    src: UserSliceReader,
    src1: UserSliceReader,
    out: Seq<u8>,
    out1: Seq<u8>,
    r: Result<(), Error>,
)
    requires
        src.pos <= src.readable <= src.bytes@.len(),
        exists|s: &mut UserSliceReader, o: &mut [u8]|
            {
                &&& #[trigger] call_ensures(UserSliceReader::read_slice, (s, o), r)
                &&& *s == src && *final(s) == src1
                &&& o@ == out && final(o)@ == out1
            },
    ensures
        src1.bytes@ == src.bytes@,
        src1.readable == src.readable,
        out1.len() == out.len(),
        src.pos + out.len() > src.bytes@.len() ==> out1 == out,
        src.pos + out.len() <= src.bytes@.len() ==> forall|i: int|
            0 <= i < out.len() ==> #[trigger] out1[i] == src.bytes@[src.pos + i],
        src.pos + out.len() <= src.readable ==> r == Ok::<(), Error>(()) && src1.pos == src.pos
            + out.len(),
        src.pos + out.len() > src.readable ==> r == Err::<(), Error>(Error { errno: -14i32 })
            && src1.pos == src.pos,
{
}

/// Appending the rest of a reader to a buffer: -12 where there is a rest and no memory for it, then
/// -14 where not all of it is readable, and the buffer is as it was. Else the rest stands behind what
/// the buffer held.
pub proof fn law_reader_appends_rest(
    src: UserSliceReader,
    granted: bool,
    buf: Seq<u8>,
    buf1: Seq<u8>,
    r: Result<(), Error>,
)
    requires
        src.pos <= src.readable <= src.bytes@.len(),
        exists|b: &mut Vec<u8>|
            {
                &&& #[trigger] call_ensures(UserSliceReader::read_all, (src, b, granted), r)
                &&& b@ == buf && final(b)@ == buf1
            },
    ensures
        ({
            let n = src.bytes@.len() - src.pos;
            &&& n > 0 && !granted ==> r == Err::<(), Error>(Error { errno: -12i32 })
            &&& n > 0 && granted && src.readable < src.bytes@.len() ==> r == Err::<(), Error>(
                Error { errno: -14i32 },
            )
            &&& (n > 0 ==> granted) && src.readable == src.bytes@.len() ==> r == Ok::<(), Error>(())
            &&& r is Err ==> buf1 == buf
            &&& r is Ok ==> {
                &&& buf1.len() == buf.len() + n
                &&& forall|i: int| 0 <= i < buf.len() ==> #[trigger] buf1[i] == buf[i]
                &&& forall|i: int|
                    buf.len() <= i < buf.len() + n ==> #[trigger] buf1[i] == src.bytes@[src.pos + (i
                        - buf.len())]
            }
        }),
{
}

/// Making room in a buffer keeps its bytes. Room for nothing is always there, room beyond
/// `isize::MAX` bytes never, and else it is there exactly where the allocator, asked for just that
/// much, does not refuse.
pub proof fn law_room_is_as_granted(buf: Vec<u8>, buf1: Vec<u8>, additional: usize, granted: bool)
    requires
        exists|b: &mut Vec<u8>|
            {
                &&& #[trigger] call_ensures(reserve, (b, additional), granted)
                &&& *b == buf && *final(b) == buf1
            },
    ensures
        buf1@ == buf@,
        additional == 0 ==> granted,
        additional > 0 && buf@.len() + additional > isize::MAX ==> !granted,
        additional > 0 && buf@.len() + additional <= isize::MAX ==> exists|
            b: &mut Vec<u8>,
            res: Result<(), std::collections::TryReserveError>,
        |
            {
                &&& #[trigger] call_ensures(Vec::<u8>::try_reserve, (b, additional), res)
                &&& *b == buf && *final(b) == buf1
                &&& granted <==> res is Ok
            },
{
}

/// A writer starts with nothing gathered, and its length is how many bytes still fit.
pub proof fn law_writer_starts(capacity: usize, dst: UserSliceWriter, n: usize)
    requires
        call_ensures(UserSliceWriter::new, (capacity,), dst),
        call_ensures(UserSliceWriter::len, (&dst,), n),
    ensures
        dst.capacity == capacity,
        dst.staged@.len() == 0,
        n == capacity,
{
}

/// The length of a writer is how many bytes still fit.
pub proof fn law_writer_length(dst: UserSliceWriter, n: usize)
    requires
        dst.staged@.len() <= dst.capacity,
        call_ensures(UserSliceWriter::len, (&dst,), n),
    ensures
        dst.staged@.len() + n == dst.capacity,
{
}

/// Gathering a slice succeeds exactly where it fits; the slice then stands behind what was gathered
/// before. Else the answer is -14 and nothing changes.
pub proof fn law_writer_gathers(
    dst: UserSliceWriter,
    dst1: UserSliceWriter,
    data: &[u8],
    r: Result<(), Error>,
)
    requires
        dst.staged@.len() <= dst.capacity,
        exists|d: &mut UserSliceWriter|
            {
                &&& #[trigger] call_ensures(UserSliceWriter::write_slice, (d, data), r)
                &&& *d == dst && *final(d) == dst1
            },
    ensures
        dst1.capacity == dst.capacity,
        dst.staged@.len() + data@.len() <= dst.capacity ==> {
            &&& r == Ok::<(), Error>(())
            &&& dst1.staged@ == dst.staged@ + data@
        },
        dst.staged@.len() + data@.len() > dst.capacity ==> {
            &&& r == Err::<(), Error>(Error { errno: -14i32 })
            &&& dst1.staged@ == dst.staged@
        },
{
}

/// Reading the open file's fields gives what they hold.
pub proof fn law_open_file_shows_fields(file: ProcOpFileHandle, flags: u32, pos: i64)
    requires
        call_ensures(ProcOpFileHandle::get_flags, (&file,), flags),
        call_ensures(ProcOpFileHandle::read_pos_unsync, (&file,), pos),
    ensures
        flags == file.flags,
        pos == file.pos,
{
}

/// Setting the open file's offset sets that alone.
pub proof fn law_open_file_offset_is_set(
    file: ProcOpFileHandle,
    pos: i64,
    file1: ProcOpFileHandle,
)
    requires
        exists|f: &mut ProcOpFileHandle|
            {
                &&& #[trigger] call_ensures(ProcOpFileHandle::write_pos_unsync, (f, pos), ())
                &&& *f == file && *final(f) == file1
            },
    ensures
        file1.pos == pos,
        file1.flags == file.flags,
        file1.semaphore == file.semaphore,
{
}

/// Under the lock for reading the guard shows the offset and the flags of the file and changes
/// neither; what locks and unlocks is the file's own semaphore, for reading.
pub proof fn law_read_lock(
    file: ProcOpFileHandle,
    down: SemaphoreOp,
    file1: ProcOpFileHandle,
    guard: FilePtrReadLocked<'_>,
    pos: &i64,
    flags: &u32,
    up: SemaphoreOp,
)
    requires
        call_ensures(ProcOpFileHandle::read_lock, (&file,), down),
        exists|f: &mut ProcOpFileHandle|
            {
                &&& #[trigger] call_ensures(ProcOpFileHandle::read_locked_ref, (f, down), guard)
                &&& *f == file && *final(f) == file1
            },
        call_ensures(FilePtrReadLocked::pos_ref, (&guard,), pos),
        call_ensures(FilePtrReadLocked::flags_ref, (&guard,), flags),
        call_ensures(FilePtrReadLocked::unlock, (guard,), up),
    ensures
        down == SemaphoreOp::DownRead(file.semaphore),
        up == SemaphoreOp::UpRead(file.semaphore),
        file1 == file,
        *pos == file.pos,
        *flags == file.flags,
{
}

/// Under the lock for writing the guard shows the offset of the file, and what is put there is the
/// file's offset once the guard is gone; nothing else of the file changes. What locks and unlocks is
/// the file's own semaphore, for writing.
pub proof fn law_write_lock(
    file: ProcOpFileHandle,
    down: SemaphoreOp,
    file1: ProcOpFileHandle,
    pos: i64,
    pos1: i64,
    up: SemaphoreOp,
)
    requires
        call_ensures(ProcOpFileHandle::write_lock, (&file,), down),
        exists|
            f: &mut ProcOpFileHandle,
            guard: FilePtrWriteLocked<'_>,
            g: &mut FilePtrWriteLocked<'_>,
            p: &mut i64,
        |
            {
                &&& #[trigger] call_ensures(ProcOpFileHandle::write_locked_ref, (f, down), guard)
                &&& *f == file && *final(f) == file1
                &&& #[trigger] call_ensures(FilePtrWriteLocked::pos_mut, (g,), p)
                &&& *g == guard
                &&& *p == pos && *final(p) == pos1
                &&& call_ensures(FilePtrWriteLocked::unlock, (*final(g),), up)
            },
    ensures
        down == SemaphoreOp::DownWrite(file.semaphore),
        up == SemaphoreOp::UpWrite(file.semaphore),
        pos == file.pos,
        file1.pos == pos1,
        file1.flags == file.flags,
        file1.semaphore == file.semaphore,
{
}

/// A read-locked guard shows the fields of its file, and gives back the lock on the semaphore that it
/// holds.
pub proof fn law_read_guard(guard: FilePtrReadLocked<'_>, pos: &i64, flags: &u32, up: SemaphoreOp)
    requires
        call_ensures(FilePtrReadLocked::pos_ref, (&guard,), pos),
        call_ensures(FilePtrReadLocked::flags_ref, (&guard,), flags),
        call_ensures(FilePtrReadLocked::unlock, (guard,), up),
    ensures
        *pos == guard.f_ref.pos,
        *flags == guard.f_ref.flags,
        up == SemaphoreOp::UpRead(guard.semaphore),
{
}

/// A write-locked guard lends out the offset of its file. What is put there is the file's offset then,
/// its flags and semaphore stay, and so does the semaphore that the guard holds.
pub proof fn law_write_guard_offset(
    file: ProcOpFileHandle,
    held: usize,
    file1: ProcOpFileHandle,
    held1: usize,
    pos: i64,
    pos1: i64,
)
    requires
        exists|g: &mut FilePtrWriteLocked<'_>, p: &mut i64|
            {
                &&& #[trigger] call_ensures(FilePtrWriteLocked::pos_mut, (g,), p)
                &&& *g.f_ref == file && *final(g).f_ref == file1
                &&& g.semaphore == held && final(g).semaphore == held1
                &&& *p == pos && *final(p) == pos1
            },
    ensures
        pos == file.pos,
        file1.pos == pos1,
        file1.flags == file.flags,
        file1.semaphore == file.semaphore,
        held1 == held,
{
}

/// A write-locked guard gives back the lock on the semaphore that it holds, and leaves its file as it
/// is.
pub proof fn law_write_guard_unlock(
    file: ProcOpFileHandle,
    held: usize,
    file1: ProcOpFileHandle,
    up: SemaphoreOp,
)
    requires
        exists|guard: FilePtrWriteLocked<'_>|
            {
                &&& #[trigger] call_ensures(FilePtrWriteLocked::unlock, (guard,), up)
                &&& guard.semaphore == held
                &&& *guard.f_ref == file && *final(guard.f_ref) == file1
            },
    ensures
        up == SemaphoreOp::UpWrite(held),
        file1 == file,
{
}

/// The bytes of a file start empty, show what they are and how many, and are none once dropped.
pub proof fn law_file_bytes(b: FileBytes, n: usize, shown: &[u8], b1: FileBytes, fresh: FileBytes)
    requires
        call_ensures(FileBytes::new, (), fresh),
        call_ensures(FileBytes::len, (&b,), n),
        call_ensures(FileBytes::as_slice, (&b,), shown),
        exists|m: &mut FileBytes|
            {
                &&& #[trigger] call_ensures(FileBytes::clear, (m,), ())
                &&& *m == b && *final(m) == b1
            },
    ensures
        fresh@.len() == 0,
        n == shown@.len(),
        shown@ == b@,
        n <= isize::MAX,
        b1@.len() == 0,
{
}

/// The handler's view is the bytes that it owns.
pub proof fn law_handler_shows_bytes(h: ProcHand)
    ensures
        h.data is None <==> h@ is None,
        h.data is Some ==> h@ == Some(h.data->0@),
{
}

/// The handler lends out the bytes that it owns, and owns again what became of them.
pub proof fn law_handler_lends_bytes(h0: ProcHand, h1: ProcHand, b0: FileBytes, b1: FileBytes)
    requires
        exists|h: &mut ProcHand, b: &mut FileBytes|
            {
                &&& #[trigger] call_ensures(
                    ProcHand::with_data,
                    (h,),
                    Ok::<&mut FileBytes, Error>(b),
                )
                &&& *h == h0 && *final(h) == h1
                &&& *b == b0 && *final(b) == b1
            },
    ensures
        h0.data == Some(b0),
        h1.data == Some(b1),
{
}

/// The handler has no bytes to lend exactly once they are gone, and answers -16 then.
pub proof fn law_handler_without_bytes(h0: ProcHand, h1: ProcHand, e: Error)
    requires
        exists|h: &mut ProcHand|
            {
                &&& #[trigger] call_ensures(
                    ProcHand::with_data,
                    (h,),
                    Err::<&mut FileBytes, Error>(e),
                )
                &&& *h == h0 && *final(h) == h1
            },
    ensures
        e.errno == -16,
        h0@ is None,
        h1@ is None,
{
}

/// Taking the bytes away hands them out as they were and leaves none.
pub proof fn law_take_leaves_none(h0: ProcHand, h1: ProcHand, taken: Option<FileBytes>)
    requires
        exists|h: &mut ProcHand|
            {
                &&& #[trigger] call_ensures(ProcHand::take, (h,), taken)
                &&& *h == h0 && *final(h) == h1
            },
    ensures
        taken == h0.data,
        h1@ is None,
{
}

} // verus!
