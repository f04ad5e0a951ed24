//! What the callbacks do, in terms of what the kernel passes and gets back: first for any handler,
//! then for the file.

use vstd::prelude::*;

use crate::error::Error;
use crate::file_laws::{
    law_failed_write, law_open, law_read, law_read_end, law_seek, law_write_answers,
    law_write_appends, law_write_at_offset,
};
use crate::proc_fs::{ProcHandler, ProcOpFileHandle, ProcOps, Whence};
use crate::ram_file::ProcHand;
use crate::uaccess::{UserSliceReader, UserSliceWriter};

verus! {

/// The open callback returns what the handler's open answered, or the code of its error.
pub proof fn law_open_callback<T: ProcHandler>(
    h0: T,
    file: ProcOpFileHandle,
    h1: T,
    file1: ProcOpFileHandle,
    status: i32,
) -> (r: Result<i32, Error>)
    requires
        exists|h: &mut T, f: &mut ProcOpFileHandle|
            {
                &&& #[trigger] call_ensures(ProcOps::<T>::proc_open, (h, Some(f)), status)
                &&& *h == h0 && *final(h) == h1
                &&& *f == file && *final(f) == file1
            },
    ensures
        T::opens(h0, file, h1, file1, r),
        r is Ok ==> status == r->Ok_0,
        r is Err ==> status == r->Err_0.errno && -4095 <= status < 0,
        file1.flags == file.flags,
        file1.semaphore == file.semaphore,
{
    choose|r: Result<i32, Error>|
        {
            &&& #[trigger] T::opens(h0, file, h1, file1, r)
            &&& r is Ok ==> status == r->Ok_0
            &&& r is Err ==> status == r->Err_0.errno && -4095 <= status < 0
        }
}

/// The first half of the read callback is the handler's read.
pub proof fn law_read_callback<T: ProcHandler>(
    h0: T,
    file: ProcOpFileHandle,
    buf: UserSliceWriter,
    offset: i64,
    h1: T,
    file1: ProcOpFileHandle,
    buf1: UserSliceWriter,
    r: Result<(usize, usize), Error>,
)
    requires
        exists|h: &mut T, f: &mut ProcOpFileHandle, b: &mut UserSliceWriter|
            {
                &&& #[trigger] call_ensures(ProcOps::<T>::proc_read, (h, Some(f), b, Some(&offset)), r)
                &&& *h == h0 && *final(h) == h1
                &&& *f == file && *final(f) == file1
                &&& *b == buf && *final(b) == buf1
            },
    ensures
        T::reads(h0, file, buf, offset, h1, file1, buf1, r),
        r is Err ==> -4095 <= r->Err_0.errno < 0,
        file1.flags == file.flags,
        file1.semaphore == file.semaphore,
        buf1.capacity == buf.capacity,
        buf1.staged@.len() <= buf1.capacity,
{
}

/// The second half of the read callback returns the code of an error of the first half, and touches
/// nothing. Else the handler ends the read: on success the callback returns the number of bytes and
/// moves the kernel's offset to the next one; on an error it returns the code and the offset stays.
pub proof fn law_read_end_callback<T: ProcHandler>(
    h0: T,
    file: ProcOpFileHandle,
    answer: Result<(usize, usize), Error>,
    uncopied: usize,
    offset: i64,
    h1: T,
    file1: ProcOpFileHandle,
    status: isize,
    offset1: i64,
) -> (r: Result<(usize, usize), Error>)
    requires
        exists|h: &mut T, f: &mut ProcOpFileHandle, o: &mut i64|
            {
                &&& #[trigger] call_ensures(
                    ProcOps::<T>::proc_read_done,
                    (h, Some(f), answer, uncopied, Some(o)),
                    status,
                )
                &&& *h == h0 && *final(h) == h1
                &&& *f == file && *final(f) == file1
                &&& *o == offset && *final(o) == offset1
            },
    ensures
        answer is Ok ==> T::settles(h0, file, answer->Ok_0, uncopied, h1, file1, r),
        answer is Err ==> h1 == h0 && file1 == file && r == answer,
        r is Ok ==> status == r->Ok_0.0 as isize && offset1 == r->Ok_0.1 as i64,
        r is Err ==> status == r->Err_0.errno && offset1 == offset,
        answer is Ok && r is Err ==> -4095 <= status < 0,
        file1.flags == file.flags,
        file1.semaphore == file.semaphore,
{
    if answer is Ok {
        choose|r: Result<(usize, usize), Error>|
            {
                &&& #[trigger] T::settles(h0, file, answer->Ok_0, uncopied, h1, file1, r)
                &&& r is Ok ==> status == r->Ok_0.0 as isize && offset1 == r->Ok_0.1 as i64
                &&& r is Err ==> status == r->Err_0.errno && -4095 <= status < 0 && offset1 == offset
            }
    } else {
        answer
    }
}

/// The write callback returns the number of bytes that the handler's write answered and moves the
/// kernel's offset to the next one; on an error it returns the code and the offset stays.
pub proof fn law_write_callback<T: ProcHandler>(
    h0: T,
    file: ProcOpFileHandle,
    src: UserSliceReader,
    offset: i64,
    h1: T,
    file1: ProcOpFileHandle,
    status: isize,
    offset1: i64,
) -> (r: Result<(usize, usize), Error>)
    requires
        exists|h: &mut T, f: &mut ProcOpFileHandle, o: &mut i64|
            {
                &&& #[trigger] call_ensures(
                    ProcOps::<T>::proc_write,
                    (h, Some(f), src, Some(o)),
                    status,
                )
                &&& *h == h0 && *final(h) == h1
                &&& *f == file && *final(f) == file1
                &&& *o == offset && *final(o) == offset1
            },
    ensures
        T::writes(h0, file, src, offset, h1, file1, r),
        r is Ok ==> status == r->Ok_0.0 as isize && offset1 == r->Ok_0.1 as i64,
        r is Err ==> status == r->Err_0.errno && -4095 <= status < 0 && offset1 == offset,
        file1.flags == file.flags,
        file1.semaphore == file.semaphore,
{
    choose|r: Result<(usize, usize), Error>|
        {
            &&& #[trigger] T::writes(h0, file, src, offset, h1, file1, r)
            &&& r is Ok ==> status == r->Ok_0.0 as isize && offset1 == r->Ok_0.1 as i64
            &&& r is Err ==> status == r->Err_0.errno && -4095 <= status < 0 && offset1 == offset
        }
}

/// The seek callback hands the mode that the number names to the handler's seek, and returns the
/// position it answered or the code of its error. The modes are numbered from the start of the file 0,
/// from the current position 1, from the end 2, data 3 and hole 4.
pub proof fn law_seek_callback<T: ProcHandler>(
    h0: T,
    file: ProcOpFileHandle,
    offset: i64,
    number: i32,
    whence: Whence,
    h1: T,
    file1: ProcOpFileHandle,
    status: i64,
) -> (r: Result<i64, Error>)
    requires
        whence is SeekSet ==> number == 0,
        whence is SeekCur ==> number == 1,
        whence is SeekEnd ==> number == 2,
        whence is SeekData ==> number == 3,
        whence is SeekHole ==> number == 4,
        exists|h: &mut T, f: &mut ProcOpFileHandle|
            {
                &&& #[trigger] call_ensures(
                    ProcOps::<T>::proc_lseek,
                    (h, Some(f), offset, number),
                    status,
                )
                &&& *h == h0 && *final(h) == h1
                &&& *f == file && *final(f) == file1
            },
    ensures
        T::seeks(h0, file, offset, whence, h1, file1, r),
        r is Ok ==> status == r->Ok_0,
        r is Err ==> status == r->Err_0.errno && -4095 <= status < 0,
        file1.flags == file.flags,
        file1.semaphore == file.semaphore,
{
    choose|r: Result<i64, Error>|
        {
            &&& #[trigger] T::seeks(h0, file, offset, whence, h1, file1, r)
            &&& r is Ok ==> status == r->Ok_0
            &&& r is Err ==> status == r->Err_0.errno && -4095 <= status < 0
        }
}

/// Without a file every callback answers -22 and leaves the handler and the kernel's offset as they
/// were. The first half of the read callback has a law of its own.
pub proof fn law_callbacks_want_file<T: ProcHandler>(
    h0: T,
    h1: T,
    offset0: i64,
    offset1: i64,
    status: isize,
)
    requires
        ({
            ||| exists|h: &mut T, s: i32|
                {
                    &&& #[trigger] call_ensures(
                        ProcOps::<T>::proc_open,
                        (h, None::<&mut ProcOpFileHandle>),
                        s,
                    )
                    &&& *h == h0 && *final(h) == h1 && s == status
                    &&& offset1 == offset0
                }
            ||| exists|
                h: &mut T,
                o: &mut i64,
                answer: Result<(usize, usize), Error>,
                uncopied: usize,
            |
                {
                    &&& #[trigger] call_ensures(
                        ProcOps::<T>::proc_read_done,
                        (h, None::<&mut ProcOpFileHandle>, answer, uncopied, Some(o)),
                        status,
                    )
                    &&& *h == h0 && *final(h) == h1
                    &&& *o == offset0 && *final(o) == offset1
                }
            ||| exists|h: &mut T, o: &mut i64, src: UserSliceReader|
                {
                    &&& #[trigger] call_ensures(
                        ProcOps::<T>::proc_write,
                        (h, None::<&mut ProcOpFileHandle>, src, Some(o)),
                        status,
                    )
                    &&& *h == h0 && *final(h) == h1
                    &&& *o == offset0 && *final(o) == offset1
                }
            ||| exists|h: &mut T, offset: i64, number: i32, s: i64|
                {
                    &&& #[trigger] call_ensures(
                        ProcOps::<T>::proc_lseek,
                        (h, None::<&mut ProcOpFileHandle>, offset, number),
                        s,
                    )
                    &&& *h == h0 && *final(h) == h1 && s == status
                    &&& offset1 == offset0
                }
        }),
    ensures
        status == -22,
        h1 == h0,
        offset1 == offset0,
{
}

/// The first half of the read callback answers the error -22 where the file or the offset is missing,
/// and leaves the handler, the file and the user buffer as they were.
pub proof fn law_read_callback_wants_all<T: ProcHandler>(
    h0: T,
    file: ProcOpFileHandle,
    buf: UserSliceWriter,
    h1: T,
    file1: ProcOpFileHandle,
    buf1: UserSliceWriter,
    r: Result<(usize, usize), Error>,
)
    requires
        ({
            ||| exists|h: &mut T, b: &mut UserSliceWriter, o: Option<&i64>|
                {
                    &&& #[trigger] call_ensures(
                        ProcOps::<T>::proc_read,
                        (h, None::<&mut ProcOpFileHandle>, b, o),
                        r,
                    )
                    &&& *h == h0 && *final(h) == h1
                    &&& *b == buf && *final(b) == buf1
                    &&& file1 == file
                }
            ||| exists|h: &mut T, f: &mut ProcOpFileHandle, b: &mut UserSliceWriter|
                {
                    &&& #[trigger] call_ensures(
                        ProcOps::<T>::proc_read,
                        (h, Some(f), b, None::<&i64>),
                        r,
                    )
                    &&& *h == h0 && *final(h) == h1
                    &&& *f == file && *final(f) == file1
                    &&& *b == buf && *final(b) == buf1
                }
        }),
    ensures
        r == Err::<(usize, usize), Error>(Error { errno: -22i32 }),
        h1 == h0,
        file1 == file,
        buf1 == buf,
{
}

/// Without an offset the second half of the read callback and the write callback answer -22, and leave
/// the handler and the file as they were, whether there is a file or not.
pub proof fn law_transfers_want_offset<T: ProcHandler>(
    h0: T,
    file: ProcOpFileHandle,
    h1: T,
    file1: ProcOpFileHandle,
    status: isize,
)
    requires
        ({
            ||| exists|
                h: &mut T,
                f: &mut ProcOpFileHandle,
                answer: Result<(usize, usize), Error>,
                uncopied: usize,
            |
                {
                    &&& #[trigger] call_ensures(
                        ProcOps::<T>::proc_read_done,
                        (h, Some(f), answer, uncopied, None::<&mut i64>),
                        status,
                    )
                    &&& *h == h0 && *final(h) == h1
                    &&& *f == file && *final(f) == file1
                }
            ||| exists|h: &mut T, answer: Result<(usize, usize), Error>, uncopied: usize|
                {
                    &&& #[trigger] call_ensures(
                        ProcOps::<T>::proc_read_done,
                        (h, None::<&mut ProcOpFileHandle>, answer, uncopied, None::<&mut i64>),
                        status,
                    )
                    &&& *h == h0 && *final(h) == h1
                    &&& file1 == file
                }
            ||| exists|h: &mut T, f: &mut ProcOpFileHandle, src: UserSliceReader|
                {
                    &&& #[trigger] call_ensures(
                        ProcOps::<T>::proc_write,
                        (h, Some(f), src, None::<&mut i64>),
                        status,
                    )
                    &&& *h == h0 && *final(h) == h1
                    &&& *f == file && *final(f) == file1
                }
            ||| exists|h: &mut T, src: UserSliceReader|
                {
                    &&& #[trigger] call_ensures(
                        ProcOps::<T>::proc_write,
                        (h, None::<&mut ProcOpFileHandle>, src, None::<&mut i64>),
                        status,
                    )
                    &&& *h == h0 && *final(h) == h1
                    &&& file1 == file
                }
        }),
    ensures
        status == -22,
        h1 == h0,
        file1 == file,
{
}

/// The seek callback answers -22 for a number below 0 or above 4, and leaves the handler and the file
/// as they were.
pub proof fn law_seek_wants_mode<T: ProcHandler>(
    h0: T,
    file: ProcOpFileHandle,
    offset: i64,
    number: i32,
    h1: T,
    file1: ProcOpFileHandle,
    status: i64,
)
    requires
        number < 0 || number > 4,
        exists|h: &mut T, f: &mut ProcOpFileHandle|
            {
                &&& #[trigger] call_ensures(
                    ProcOps::<T>::proc_lseek,
                    (h, Some(f), offset, number),
                    status,
                )
                &&& *h == h0 && *final(h) == h1
                &&& *f == file && *final(f) == file1
            },
    ensures
        status == -22,
        h1 == h0,
        file1 == file,
{
}

/// Opening the file through the kernel: with the bit `0o1000` of the flags it is empty afterwards,
/// without it its bytes are as they were, and the status is 0; it is -16 where the bytes are gone.
pub proof fn law_kernel_opens_file(
    h0: ProcHand,
    file: ProcOpFileHandle,
    h1: ProcHand,
    file1: ProcOpFileHandle,
    status: i32,
)
    requires
        exists|h: &mut ProcHand, f: &mut ProcOpFileHandle|
            {
                &&& #[trigger] call_ensures(ProcOps::<ProcHand>::proc_open, (h, Some(f)), status)
                &&& *h == h0 && *final(h) == h1
                &&& *f == file && *final(f) == file1
            },
    ensures
        file1 == file,
        h0@ is Some ==> status == 0,
        h0@ is Some && file.flags & 0o1000u32 != 0 ==> h1@ == Some(Seq::<u8>::empty()),
        h0@ is Some && file.flags & 0o1000u32 == 0 ==> h1@ == h0@,
        h0@ is None ==> h1@ is None && status == -16,
{
    let r = law_open_callback(h0, file, h1, file1, status);
    law_open(h0, file, h1, file1, r);
}

/// Reading the file through the kernel: the bytes gathered are those of the file from the offset on,
/// as many as there is room for or as there are. Once all of them are copied, the status is their
/// number and the kernel's offset is behind them; it is -14, and the offset stays, where some are not.
/// The status is -22 for an offset that is none and -16 where the bytes are gone.
pub proof fn law_kernel_reads_file(
    h0: ProcHand,
    file: ProcOpFileHandle,
    buf: UserSliceWriter,
    offset: i64,
    h1: ProcHand,
    file1: ProcOpFileHandle,
    buf1: UserSliceWriter,
    answer: Result<(usize, usize), Error>,
    uncopied: usize,
    h2: ProcHand,
    file2: ProcOpFileHandle,
    status: isize,
    offset2: i64,
)
    requires
        buf.staged@.len() <= buf.capacity,
        exists|h: &mut ProcHand, f: &mut ProcOpFileHandle, b: &mut UserSliceWriter|
            {
                &&& #[trigger] call_ensures(
                    ProcOps::<ProcHand>::proc_read,
                    (h, Some(f), b, Some(&offset)),
                    answer,
                )
                &&& *h == h0 && *final(h) == h1
                &&& *f == file && *final(f) == file1
                &&& *b == buf && *final(b) == buf1
            },
        exists|h: &mut ProcHand, f: &mut ProcOpFileHandle, o: &mut i64|
            {
                &&& #[trigger] call_ensures(
                    ProcOps::<ProcHand>::proc_read_done,
                    (h, Some(f), answer, uncopied, Some(o)),
                    status,
                )
                &&& *h == h1 && *final(h) == h2
                &&& *f == file1 && *final(f) == file2
                &&& *o == offset && *final(o) == offset2
            },
    ensures
        h1@ == h0@,
        h2@ == h0@,
        file1 == file,
        file2 == file,
        status < 0 ==> offset2 == offset,
        !(0 <= offset <= usize::MAX) ==> status == -22,
        0 <= offset <= usize::MAX && h0@ is None ==> status == -16,
        0 <= offset <= usize::MAX && h0@ is Some ==> {
            let held = buf.staged@.len() as int;
            let n = buf1.staged@.len() - held;
            let data = h0@->0;
            &&& uncopied == 0 ==> status == n && offset2 == offset + n
            &&& uncopied > 0 ==> status == -14
            &&& 0 <= n <= buf.capacity - held
            &&& n > 0 ==> offset + n <= data.len()
            &&& forall|i: int|
                0 <= i < buf1.staged@.len() ==> #[trigger] buf1.staged@[i] == if i < held {
                    buf.staged@[i]
                } else {
                    data[offset + (i - held)]
                }
            &&& offset + n >= data.len() || held + n == buf.capacity
        },
{
    law_read_callback(h0, file, buf, offset, h1, file1, buf1, answer);
    law_read(h0, file, buf, offset, h1, file1, buf1, answer);
    let r = law_read_end_callback(h1, file1, answer, uncopied, offset, h2, file2, status, offset2);
    if answer is Ok {
        law_read_end(h1, file1, answer->Ok_0, uncopied, h2, file2, r);
    }
}

/// Writing the file through the kernel: the user buffer goes to the end of the file with the bit
/// `0o2000` of the flags, to the offset without it. A status that is not negative is the length of
/// the user buffer; all of it is in the file then, and the kernel's offset is behind it. Where the
/// status is negative the offset stays, the file is no longer or shorter, and only bytes on which the
/// user buffer falls may have changed. It is -22 for an offset that is none or, without the bit, past
/// the end, and -16 where the bytes are gone; nothing has changed then.
pub proof fn law_kernel_writes_file(
    h0: ProcHand,
    file: ProcOpFileHandle,
    src: UserSliceReader,
    offset: i64,
    h1: ProcHand,
    file1: ProcOpFileHandle,
    status: isize,
    offset1: i64,
)
    requires
        src.pos <= src.readable <= src.bytes@.len(),
        exists|h: &mut ProcHand, f: &mut ProcOpFileHandle, o: &mut i64|
            {
                &&& #[trigger] call_ensures(
                    ProcOps::<ProcHand>::proc_write,
                    (h, Some(f), src, Some(o)),
                    status,
                )
                &&& *h == h0 && *final(h) == h1
                &&& *f == file && *final(f) == file1
                &&& *o == offset && *final(o) == offset1
            },
    ensures
        file1 == file,
        h0@ is Some <==> h1@ is Some,
        status < 0 ==> offset1 == offset,
        !(0 <= offset <= usize::MAX) ==> status == -22 && h1@ == h0@,
        0 <= offset <= usize::MAX && h0@ is None ==> status == -16,
        0 <= offset <= usize::MAX && h0@ is Some && file.flags & 0o2000u32 == 0 && offset
            > h0@->0.len() ==> status == -22 && h1@ == h0@,
        0 <= offset <= usize::MAX && h0@ is Some && (file.flags & 0o2000u32 != 0 || offset
            <= h0@->0.len()) ==> {
            let data = h0@->0;
            let start = if file.flags & 0o2000u32 != 0 {
                data.len() as int
            } else {
                offset as int
            };
            let n = src.bytes@.len() - src.pos;
            let all = src.readable == src.bytes@.len();
            &&& status == n || status == -12 || status == -14
            &&& status == -14 ==> !all
            &&& status == -12 ==> start + n > data.len()
            &&& !all ==> status < 0
            &&& status >= 0 ==> offset1 == start + n
            &&& h1@->0.len() == if status >= 0 && start + n > data.len() {
                start + n
            } else {
                data.len() as int
            }
            &&& forall|i: int|
                0 <= i < h1@->0.len() ==> #[trigger] h1@->0[i] == if start <= i < start + n {
                    src.bytes@[src.pos + (i - start)]
                } else {
                    data[i]
                }
        },
{
    let r = law_write_callback(h0, file, src, offset, h1, file1, status, offset1);
    law_write_answers(h0, file, src, offset, h1, file1, r);
    match r {
        Ok((n, next)) => {
            if file.flags & 0o2000u32 != 0 {
                law_write_appends(h0, file, src, offset, h1, file1, n, next);
            } else {
                law_write_at_offset(h0, file, src, offset, h1, file1, n, next);
            }
        },
        Err(e) => {
            if e.errno == -12 || e.errno == -14 {
                law_failed_write(h0, file, src, offset, h1, file1, e);
            }
        },
    }
}

/// Seeking in the file through the kernel: the numbers 0 and 3 ask for the offset itself, 1 for the
/// current position plus the offset, 2 for the end plus the offset and 4 for the end. Where that lies
/// between 0 and the length of the file it is the status, and the open file stands there. Else the
/// status is -22, or -16 where the bytes are gone, and the open file stays where it was.
pub proof fn law_kernel_seeks_in_file(
    h0: ProcHand,
    file: ProcOpFileHandle,
    offset: i64,
    number: i32,
    h1: ProcHand,
    file1: ProcOpFileHandle,
    status: i64,
    to: int,
)
    requires
        0 <= number <= 4,
        number == 0 || number == 3 ==> to == offset,
        number == 1 ==> to == file.pos + offset,
        number == 2 && h0@ is Some ==> to == h0@->0.len() + offset,
        number == 4 && h0@ is Some ==> to == h0@->0.len(),
        exists|h: &mut ProcHand, f: &mut ProcOpFileHandle|
            {
                &&& #[trigger] call_ensures(
                    ProcOps::<ProcHand>::proc_lseek,
                    (h, Some(f), offset, number),
                    status,
                )
                &&& *h == h0 && *final(h) == h1
                &&& *f == file && *final(f) == file1
            },
    ensures
        h1@ == h0@,
        file1.flags == file.flags,
        file1.semaphore == file.semaphore,
        file1.pos == if status < 0 {
            file.pos
        } else {
            status
        },
        h0@ is None ==> status == -16,
        h0@ is Some && 0 <= to <= h0@->0.len() ==> status == to,
        h0@ is Some && !(0 <= to <= h0@->0.len()) ==> status == -22,
{
    let whence = if number == 0 {
        Whence::SeekSet
    } else if number == 1 {
        Whence::SeekCur
    } else if number == 2 {
        Whence::SeekEnd
    } else if number == 3 {
        Whence::SeekData
    } else {
        Whence::SeekHole
    };
    let r = law_seek_callback(h0, file, offset, number, whence, h1, file1, status);
    law_seek(h0, file, offset, whence, h1, file1, r);
}

/// Every callback may be made with whatever the kernel passes: with or without a file and an offset,
/// for any flags, offset and seek number, and with any user buffer.
pub proof fn law_callbacks_take_all<T: ProcHandler>()
    ensures
        forall|h: &mut T, f: Option<&mut ProcOpFileHandle>| #[trigger]
            call_requires(ProcOps::<T>::proc_open, (h, f)),
        forall|
            h: &mut T,
            f: Option<&mut ProcOpFileHandle>,
            b: &mut UserSliceWriter,
            o: Option<&i64>,
        |
            b.staged@.len() <= b.capacity ==> #[trigger] call_requires(
                ProcOps::<T>::proc_read,
                (h, f, b, o),
            ),
        forall|
            h: &mut T,
            f: Option<&mut ProcOpFileHandle>,
            answer: Result<(usize, usize), Error>,
            uncopied: usize,
            o: Option<&mut i64>,
        | #[trigger]
            call_requires(ProcOps::<T>::proc_read_done, (h, f, answer, uncopied, o)),
        forall|
            h: &mut T,
            f: Option<&mut ProcOpFileHandle>,
            src: UserSliceReader,
            o: Option<&mut i64>,
        |
            src.pos <= src.readable <= src.bytes@.len() ==> #[trigger] call_requires(
                ProcOps::<T>::proc_write,
                (h, f, src, o),
            ),
        forall|h: &mut T, f: Option<&mut ProcOpFileHandle>, offset: i64, number: i32| #[trigger]
            call_requires(ProcOps::<T>::proc_lseek, (h, f, offset, number)),
{
}

} // verus!
