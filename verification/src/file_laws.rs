//! What opening, reading, writing and seeking do to the file, in terms of its bytes, the flags and
//! the offset alone. Each law speaks of the handler's own function and of the relation that the
//! callbacks go by.

use vstd::prelude::*;

use crate::error::Error;
use crate::proc_fs::{ProcHandler, ProcOpFileHandle, Whence};
use crate::ram_file::{
    flags_are_append, memory_decided, write_growth, write_outcome, ProcHand,
};
use crate::uaccess::{allocator_answers, UserSliceReader, UserSliceWriter};

verus! {

/// Opening with the bit `0o1000` of the flags set leaves an empty file, and opening without it leaves
/// the bytes as they were, whatever the other bits are. It answers 0, or -16 where the bytes are
/// gone, and does not touch the open file.
pub proof fn law_open(
    h0: ProcHand,
    file: ProcOpFileHandle,
    h1: ProcHand,
    file1: ProcOpFileHandle,
    r: Result<i32, Error>,
)
    requires
        ({
            ||| ProcHand::opens(h0, file, h1, file1, r)
            ||| exists|h: &mut ProcHand, f: &mut ProcOpFileHandle|
                {
                    &&& #[trigger] call_ensures(ProcHand::popen, (h, f), r)
                    &&& *h == h0 && *final(h) == h1
                    &&& *f == file && *final(f) == file1
                }
        }),
    ensures
        file1 == file,
        h0@ is Some ==> r == Ok::<i32, Error>(0),
        h0@ is Some && file.flags & 0o1000u32 != 0 ==> h1@ == Some(Seq::<u8>::empty()),
        h0@ is Some && file.flags & 0o1000u32 == 0 ==> h1@ == h0@,
        h0@ is None ==> h1@ is None && r == Err::<i32, Error>(Error { errno: -16i32 }),
{
}

/// A read yields the bytes of the file from the offset on, as many as there is room for or as there
/// are, behind what the user buffer held before; none where the offset is at or past the end. It
/// answers their number and the offset behind them, -22 for an offset that is none, and -16 where the
/// bytes are gone. Neither the file's bytes nor the open file change.
pub proof fn law_read(
    h0: ProcHand,
    file: ProcOpFileHandle,
    buf: UserSliceWriter,
    offset: i64,
    h1: ProcHand,
    file1: ProcOpFileHandle,
    buf1: UserSliceWriter,
    r: Result<(usize, usize), Error>,
)
    requires
        buf.staged@.len() <= buf.capacity,
        ({
            ||| ProcHand::reads(h0, file, buf, offset, h1, file1, buf1, r)
            ||| exists|h: &mut ProcHand, f: &mut ProcOpFileHandle, b: &mut UserSliceWriter|
                {
                    &&& #[trigger] call_ensures(ProcHand::pread, (h, f, b, offset), r)
                    &&& *h == h0 && *final(h) == h1
                    &&& *f == file && *final(f) == file1
                    &&& *b == buf && *final(b) == buf1
                }
        }),
    ensures
        h1@ == h0@,
        file1 == file,
        buf1.staged@.len() >= buf.staged@.len(),
        forall|i: int| 0 <= i < buf.staged@.len() ==> #[trigger] buf1.staged@[i] == buf.staged@[i],
        ({
            let held = buf.staged@.len() as int;
            let n = buf1.staged@.len() - held;
            let valid = 0 <= offset <= usize::MAX;
            &&& !valid ==> n == 0 && r == Err::<(usize, usize), Error>(Error { errno: -22i32 })
            &&& valid && h0@ is None ==> n == 0 && r == Err::<(usize, usize), Error>(
                Error { errno: -16i32 },
            )
            &&& valid && h0@ is Some ==> {
                let data = h0@->0;
                &&& r is Ok
                &&& r->Ok_0.0 == n
                &&& r->Ok_0.1 == offset + n
                &&& held + n <= buf.capacity
                &&& n > 0 ==> offset + n <= data.len()
                &&& forall|i: int|
                    held <= i < held + n ==> #[trigger] buf1.staged@[i] == data[offset + (i - held)]
                &&& offset + n >= data.len() || held + n == buf.capacity
            }
        }),
{
}

/// A read whose bytes all reached user memory keeps its answer; any other answers -14.
pub proof fn law_read_end(
    h0: ProcHand,
    file: ProcOpFileHandle,
    answer: (usize, usize),
    uncopied: usize,
    h1: ProcHand,
    file1: ProcOpFileHandle,
    r: Result<(usize, usize), Error>,
)
    requires
        ({
            ||| ProcHand::settles(h0, file, answer, uncopied, h1, file1, r)
            ||| {
                &&& call_ensures(ProcHand::pread_done, (&h0, answer, uncopied), r)
                &&& h1 == h0
                &&& file1 == file
            }
        }),
    ensures
        h1@ == h0@,
        file1 == file,
        uncopied == 0 ==> r == Ok::<(usize, usize), Error>(answer),
        uncopied > 0 ==> r == Err::<(usize, usize), Error>(Error { errno: -14i32 }),
{
}

/// A write through a file whose flags lack the bit `0o2000`, whatever the other bits are, that
/// succeeds has written at the offset it was given: it answers the length of the user buffer and the
/// offset behind it, the bytes from the offset on are those of the user buffer, all others are as they
/// were, and the file is just as much longer as the bytes reach past its end.
pub proof fn law_write_at_offset(
    h0: ProcHand,
    file: ProcOpFileHandle,
    src: UserSliceReader,
    offset: i64,
    h1: ProcHand,
    file1: ProcOpFileHandle,
    n: usize,
    next: usize,
)
    requires
        src.pos <= src.readable <= src.bytes@.len(),
        file.flags & 0o2000u32 == 0,
        ({
            ||| ProcHand::writes(h0, file, src, offset, h1, file1, Ok((n, next)))
            ||| exists|h: &mut ProcHand, f: &mut ProcOpFileHandle|
                {
                    &&& #[trigger] call_ensures(
                        ProcHand::pwrite,
                        (h, f, src, offset),
                        Ok::<(usize, usize), Error>((n, next)),
                    )
                    &&& *h == h0 && *final(h) == h1
                    &&& *f == file && *final(f) == file1
                }
        }),
    ensures
        file1 == file,
        h0@ is Some,
        h1@ is Some,
        0 <= offset <= h0@->0.len(),
        n == src.bytes@.len() - src.pos,
        next == offset + n,
        h1@->0.len() == if offset + n > h0@->0.len() {
            offset + n
        } else {
            h0@->0.len() as int
        },
        forall|i: int|
            0 <= i < h1@->0.len() && !(offset <= i < offset + n) ==> #[trigger] h1@->0[i]
                == h0@->0[i],
        forall|i: int|
            offset <= i < offset + n ==> #[trigger] h1@->0[i] == src.bytes@[src.pos + (i - offset)],
{
}

/// A write through a file whose flags have the bit `0o2000`, whatever the other bits are, that
/// succeeds has put the user buffer behind all the bytes that were there, and has answered its length
/// and the new length of the file.
pub proof fn law_write_appends(
    h0: ProcHand,
    file: ProcOpFileHandle,
    src: UserSliceReader,
    offset: i64,
    h1: ProcHand,
    file1: ProcOpFileHandle,
    n: usize,
    next: usize,
)
    requires
        src.pos <= src.readable <= src.bytes@.len(),
        file.flags & 0o2000u32 != 0,
        ({
            ||| ProcHand::writes(h0, file, src, offset, h1, file1, Ok((n, next)))
            ||| exists|h: &mut ProcHand, f: &mut ProcOpFileHandle|
                {
                    &&& #[trigger] call_ensures(
                        ProcHand::pwrite,
                        (h, f, src, offset),
                        Ok::<(usize, usize), Error>((n, next)),
                    )
                    &&& *h == h0 && *final(h) == h1
                    &&& *f == file && *final(f) == file1
                }
        }),
    ensures
        file1 == file,
        h0@ is Some,
        h1@ == Some(h0@->0 + src.bytes@.skip(src.pos as int)),
        n == src.bytes@.len() - src.pos,
        next == h0@->0.len() + n,
{
    assert(h1@->0 =~= h0@->0 + src.bytes@.skip(src.pos as int));
}

/// Which writes are refused, and which are not. An offset that is none is answered -22; then bytes
/// that are gone, -16; then, without the bit `0o2000`, an offset past the end, -22. A refused write
/// changes nothing. Any other write answers neither: with the whole user buffer readable it succeeds,
/// unless the file must grow and memory cannot be had, which is answered -12; else it answers -14, or
/// -12 where memory was asked for first.
pub proof fn law_write_answers(
    h0: ProcHand,
    file: ProcOpFileHandle,
    src: UserSliceReader,
    offset: i64,
    h1: ProcHand,
    file1: ProcOpFileHandle,
    r: Result<(usize, usize), Error>,
)
    requires
        src.pos <= src.readable <= src.bytes@.len(),
        ({
            ||| ProcHand::writes(h0, file, src, offset, h1, file1, r)
            ||| exists|h: &mut ProcHand, f: &mut ProcOpFileHandle|
                {
                    &&& #[trigger] call_ensures(ProcHand::pwrite, (h, f, src, offset), r)
                    &&& *h == h0 && *final(h) == h1
                    &&& *f == file && *final(f) == file1
                }
        }),
    ensures
        file1 == file,
        ({
            let valid = 0 <= offset <= usize::MAX;
            let appending = file.flags & 0o2000u32 != 0;
            &&& !valid ==> h1@ == h0@ && r == Err::<(usize, usize), Error>(Error { errno: -22i32 })
            &&& valid && h0@ is None ==> h1@ == h0@ && r == Err::<(usize, usize), Error>(
                Error { errno: -16i32 },
            )
            &&& valid && h0@ is Some && !appending && offset > h0@->0.len() ==> {
                &&& h1@ == h0@
                &&& r == Err::<(usize, usize), Error>(Error { errno: -22i32 })
            }
            &&& valid && h0@ is Some && (appending || offset <= h0@->0.len()) ==> {
                let len = h0@->0.len() as int;
                let start = if appending {
                    len
                } else {
                    offset as int
                };
                let n = src.bytes@.len() - src.pos;
                let grows = start + n > len;
                let nomem = r == Err::<(usize, usize), Error>(Error { errno: -12i32 });
                let fault = r == Err::<(usize, usize), Error>(Error { errno: -14i32 });
                &&& r is Ok || nomem || fault
                &&& r is Ok ==> src.readable == src.bytes@.len()
                &&& fault ==> src.readable < src.bytes@.len()
                &&& nomem ==> grows
                &&& grows && src.readable - src.pos >= len - start && start + n > isize::MAX ==> nomem
                &&& grows && src.readable - src.pos < len - start ==> fault
            }
        }),
{
}

/// A write that must grow the file, to a length that memory can hold, asks the allocator for just the
/// bytes that reach past the end, once those that do not are copied. It answers -12 exactly where the
/// allocator refuses.
pub proof fn law_write_asks_for_growth(
    h0: ProcHand,
    file: ProcOpFileHandle,
    src: UserSliceReader,
    offset: i64,
    h1: ProcHand,
    file1: ProcOpFileHandle,
    r: Result<(usize, usize), Error>,
    start: int,
    growth: usize,
)
    requires
        src.pos <= src.readable <= src.bytes@.len(),
        h0@ is Some,
        0 <= offset <= usize::MAX,
        file.flags & 0o2000u32 != 0 ==> start == h0@->0.len(),
        file.flags & 0o2000u32 == 0 ==> start == offset,
        start <= h0@->0.len(),
        0 < growth == start + (src.bytes@.len() - src.pos) - h0@->0.len(),
        h0@->0.len() + growth <= isize::MAX,
        src.readable - src.pos >= h0@->0.len() - start,
        ({
            ||| ProcHand::writes(h0, file, src, offset, h1, file1, r)
            ||| exists|h: &mut ProcHand, f: &mut ProcOpFileHandle|
                {
                    &&& #[trigger] call_ensures(ProcHand::pwrite, (h, f, src, offset), r)
                    &&& *h == h0 && *final(h) == h1
                    &&& *f == file && *final(f) == file1
                }
        }),
    ensures
        exists|b: &mut Vec<u8>, res: Result<(), std::collections::TryReserveError>|
            {
                &&& #[trigger] call_ensures(Vec::<u8>::try_reserve, (b, growth), res)
                &&& b@ == h0@->0
                &&& res is Err <==> r == Err::<(usize, usize), Error>(Error { errno: -12i32 })
            },
{
    assert(growth == write_growth(h0@, file.flags, src, offset));
    let granted = choose|granted: bool|
        {
            &&& #[trigger] write_outcome(h0@, file.flags, src, offset, granted) == (h1@, r)
            &&& memory_decided(h0@, growth as int, granted)
        };
    assert(write_outcome(h0@, file.flags, src, offset, granted) == (h1@, r));
    assert(allocator_answers(h0@->0, growth, granted));
}

/// A write that is not refused but fails leaves the length of the file as it was. The bytes of the
/// user buffer that fall on bytes of the file are there, as the copy out of user memory left them;
/// all other bytes are as they were.
pub proof fn law_failed_write(
    h0: ProcHand,
    file: ProcOpFileHandle,
    src: UserSliceReader,
    offset: i64,
    h1: ProcHand,
    file1: ProcOpFileHandle,
    e: Error,
)
    requires
        src.pos <= src.readable <= src.bytes@.len(),
        e.errno == -12 || e.errno == -14,
        ({
            ||| ProcHand::writes(h0, file, src, offset, h1, file1, Err(e))
            ||| exists|h: &mut ProcHand, f: &mut ProcOpFileHandle|
                {
                    &&& #[trigger] call_ensures(
                        ProcHand::pwrite,
                        (h, f, src, offset),
                        Err::<(usize, usize), Error>(e),
                    )
                    &&& *h == h0 && *final(h) == h1
                    &&& *f == file && *final(f) == file1
                }
        }),
    ensures
        h0@ is Some,
        h1@ is Some,
        h1@->0.len() == h0@->0.len(),
        file.flags & 0o2000u32 != 0 ==> h1@ == h0@,
        file.flags & 0o2000u32 == 0 ==> forall|i: int|
            0 <= i < h1@->0.len() ==> #[trigger] h1@->0[i] == if offset <= i < offset
                + src.bytes@.len() - src.pos {
                src.bytes@[src.pos + (i - offset)]
            } else {
                h0@->0[i]
            },
{
    if file.flags & 0o2000u32 != 0 {
        assert(h1@->0 =~= h0@->0);
    }
}

/// A write that is told whether memory was granted: with the whole user buffer readable, a start
/// within the file and memory granted where the file must grow, it succeeds, and without that memory
/// it answers -12. What it does where it succeeds is what any successful write does.
pub proof fn law_granted_write(
    h0: ProcHand,
    file: ProcOpFileHandle,
    src: UserSliceReader,
    offset: i64,
    granted: bool,
    h1: ProcHand,
    file1: ProcOpFileHandle,
    r: Result<(usize, usize), Error>,
)
    requires
        src.pos <= src.readable <= src.bytes@.len(),
        exists|h: &mut ProcHand, f: &mut ProcOpFileHandle|
            {
                &&& #[trigger] call_ensures(ProcHand::pwrite_granted, (h, f, src, offset, granted), r)
                &&& *h == h0 && *final(h) == h1
                &&& *f == file && *final(f) == file1
            },
    ensures
        file1 == file,
        ({
            let valid = 0 <= offset <= usize::MAX;
            let appending = file.flags & 0o2000u32 != 0;
            let n = src.bytes@.len() - src.pos;
            &&& !valid ==> h1@ == h0@ && r == Err::<(usize, usize), Error>(Error { errno: -22i32 })
            &&& valid && h0@ is None ==> h1@ == h0@ && r == Err::<(usize, usize), Error>(
                Error { errno: -16i32 },
            )
            &&& valid && h0@ is Some && !appending && offset > h0@->0.len() ==> {
                &&& h1@ == h0@
                &&& r == Err::<(usize, usize), Error>(Error { errno: -22i32 })
            }
            &&& valid && h0@ is Some && (appending || offset <= h0@->0.len()) ==> {
                let data = h0@->0;
                let start = if appending {
                    data.len() as int
                } else {
                    offset as int
                };
                let grows = start + n > data.len();
                let left = src.readable - src.pos;
                &&& r is Ok <==> left == n && (grows ==> granted)
                &&& r is Ok ==> r->Ok_0.0 == n
                &&& r is Ok ==> r->Ok_0.1 == start + n
                &&& r is Err ==> r->Err_0.errno == if grows && !granted && left >= data.len()
                    - start {
                    -12i32
                } else {
                    -14i32
                }
                &&& h1@ is Some
                &&& h1@->0.len() == if r is Ok && grows {
                    start + n
                } else {
                    data.len() as int
                }
                &&& forall|i: int|
                    0 <= i < h1@->0.len() ==> #[trigger] h1@->0[i] == if start <= i < start + n {
                        src.bytes@[src.pos + (i - start)]
                    } else {
                        data[i]
                    }
            }
        }),
{
}

/// Where a write would start: at the end of the file with the bit `0o2000` of the flags, at the offset
/// without it. -22 for an offset that is none or, without the bit, past the end; -16 where the bytes
/// are gone.
pub proof fn law_write_start(h: ProcHand, flags: u32, offset: i64, r: Result<usize, Error>)
    requires
        call_ensures(ProcHand::pwrite_start, (&h, flags, offset), r),
    ensures
        !(0 <= offset <= usize::MAX) ==> r == Err::<usize, Error>(Error { errno: -22i32 }),
        0 <= offset <= usize::MAX && h@ is None ==> r == Err::<usize, Error>(Error { errno: -16i32 }),
        0 <= offset <= usize::MAX && h@ is Some ==> {
            &&& flags & 0o2000u32 != 0 ==> r is Ok && r->Ok_0 == h@->0.len()
            &&& flags & 0o2000u32 == 0 && offset <= h@->0.len() ==> r is Ok && r->Ok_0 == offset
            &&& flags & 0o2000u32 == 0 && offset > h@->0.len() ==> r == Err::<usize, Error>(
                Error { errno: -22i32 },
            )
        },
{
}

/// A file is opened for appending exactly where its flags have the bit `0o2000`.
pub proof fn law_append_flag(flags: u32, r: bool)
    requires
        call_ensures(flags_are_append, (flags,), r),
    ensures
        r <==> flags & 0o2000u32 != 0,
{
}

/// A seek leads to the offset counted from the start, from the current position or from the end, as
/// the mode says, or to the end of the file for a hole. Where that lies between 0 and the length of
/// the file, the seek answers it and the open file stands there; else it answers -22 and the open file
/// stays where it was, as it does where the bytes are gone, which is answered -16. Nothing else of the
/// open file changes, nor do the bytes.
pub proof fn law_seek(
    h0: ProcHand,
    file: ProcOpFileHandle,
    offset: i64,
    whence: Whence,
    h1: ProcHand,
    file1: ProcOpFileHandle,
    r: Result<i64, Error>,
)
    requires
        ({
            ||| ProcHand::seeks(h0, file, offset, whence, h1, file1, r)
            ||| exists|h: &mut ProcHand, f: &mut ProcOpFileHandle|
                {
                    &&& #[trigger] call_ensures(ProcHand::plseek, (h, f, offset, whence), r)
                    &&& *h == h0 && *final(h) == h1
                    &&& *f == file && *final(f) == file1
                }
        }),
    ensures
        h1@ == h0@,
        file1.flags == file.flags,
        file1.semaphore == file.semaphore,
        r is Err ==> file1.pos == file.pos,
        r is Ok ==> file1.pos == r->Ok_0,
        h0@ is None ==> r == Err::<i64, Error>(Error { errno: -16i32 }),
        h0@ is Some && (whence is SeekSet || whence is SeekData) ==> {
            &&& 0 <= offset <= h0@->0.len() ==> r == Ok::<i64, Error>(offset)
            &&& !(0 <= offset <= h0@->0.len()) ==> r == Err::<i64, Error>(Error { errno: -22i32 })
        },
        h0@ is Some && whence is SeekCur ==> {
            let to = file.pos + offset;
            &&& 0 <= to <= h0@->0.len() ==> r is Ok && r->Ok_0 == to
            &&& !(0 <= to <= h0@->0.len()) ==> r == Err::<i64, Error>(Error { errno: -22i32 })
        },
        h0@ is Some && whence is SeekEnd ==> {
            let to = h0@->0.len() + offset;
            &&& 0 <= to <= h0@->0.len() ==> r is Ok && r->Ok_0 == to
            &&& !(0 <= to <= h0@->0.len()) ==> r == Err::<i64, Error>(Error { errno: -22i32 })
        },
        h0@ is Some && whence is SeekHole ==> r is Ok && r->Ok_0 == h0@->0.len(),
{
}

/// The file may be opened, read, written and sought in whatever its bytes, the flags and the offset
/// are, and whether its bytes are there or not.
pub proof fn law_file_takes_all()
    ensures
        forall|h: &mut ProcHand, f: &mut ProcOpFileHandle| #[trigger]
            call_requires(ProcHand::popen, (h, f)),
        forall|h: &mut ProcHand, f: &mut ProcOpFileHandle, b: &mut UserSliceWriter, offset: i64|
            b.staged@.len() <= b.capacity ==> #[trigger] call_requires(
                ProcHand::pread,
                (h, f, b, offset),
            ),
        forall|h: &ProcHand, answer: (usize, usize), uncopied: usize| #[trigger]
            call_requires(ProcHand::pread_done, (h, answer, uncopied)),
        forall|h: &ProcHand, flags: u32, offset: i64| #[trigger]
            call_requires(ProcHand::pwrite_start, (h, flags, offset)),
        forall|h: &mut ProcHand, f: &mut ProcOpFileHandle, src: UserSliceReader, offset: i64|
            src.pos <= src.readable <= src.bytes@.len() ==> #[trigger] call_requires(
                ProcHand::pwrite,
                (h, f, src, offset),
            ),
        forall|
            h: &mut ProcHand,
            f: &mut ProcOpFileHandle,
            src: UserSliceReader,
            offset: i64,
            granted: bool,
        |
            {
                &&& src.pos <= src.readable <= src.bytes@.len()
                &&& granted && h@ is Some ==> h@->0.len() + src.bytes@.len() <= isize::MAX
            } ==> #[trigger] call_requires(ProcHand::pwrite_granted, (h, f, src, offset, granted)),
        forall|h: &mut ProcHand, f: &mut ProcOpFileHandle, offset: i64, whence: Whence| #[trigger]
            call_requires(ProcHand::plseek, (h, f, offset, whence)),
        forall|h: &mut ProcHand| #[trigger] call_requires(ProcHand::with_data, (h,)),
        forall|h: &mut ProcHand| #[trigger] call_requires(ProcHand::take, (h,)),
        forall|flags: u32| #[trigger] call_requires(flags_are_append, (flags,)),
{
}

} // verus!
