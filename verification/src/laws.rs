//! What holds across several operations.

use vstd::prelude::*;

use crate::backing_data::BackingData;
use crate::error::{Error, EBUSY, EINVAL};
use crate::module::{bytes_dropped, entry_stored, entry_taken, file_stored, FILE_MODE};
use crate::proc_fs::{
    read_end_possible, transfer_reply, write_call_possible, FilePtrReadLocked, FilePtrWriteLocked, ProcDirEntry,
    ProcHandler, ProcOpFileHandle, SemaphoreOp, Whence,
};
use crate::ram_file::{
    appends, busy, fits, indexable, memory_decided, open_outcome, overlay, read_answer, read_bytes, seek_answer,
    section, truncates, write_growth, write_outcome, write_possible, write_start, ProcHand,
};
use crate::uaccess::{UserSliceReader, UserSliceWriter};

verus! {

/// What a write wrote, a read gives back: after a successful write, a read of as many bytes from
/// where the write started yields exactly the bytes written, and ends where the write ended.
pub proof fn law_read_gives_back_write(
    h0: ProcHand,
    file: ProcOpFileHandle,
    src: UserSliceReader,
    offset: i64,
    h1: ProcHand,
    file1: ProcOpFileHandle,
    n: usize,
    next: usize,
    reader: ProcOpFileHandle,
    dst: UserSliceWriter,
    at: i64,
    h2: ProcHand,
    reader2: ProcOpFileHandle,
    dst2: UserSliceWriter,
    r: Result<(usize, usize), Error>,
)
    requires
        src.wf(),
        ProcHand::writes(h0, file, src, offset, h1, file1, Ok((n, next))),
        dst.wf(),
        dst.room() == n,
        at == next - n,
        ProcHand::reads(h1, reader, dst, at, h2, reader2, dst2, r),
    ensures
        n == src.rest().len(),
        r == Ok::<(usize, usize), Error>((n, next)),
        dst2.staged@ == dst.staged@ + src.rest(),
        h2@ == h1@,
{
    law_write_is_overlay(h0@, file.flags, src, offset, h1@, n, next);
    assert(section(h1@->0, at as int, n as int) =~= src.rest());
}

/// A read callback on the file, both halves, with file and offset there.
pub struct ReadCall {
    pub before: ProcHand,
    pub file: ProcOpFileHandle,
    /// The user buffer, empty.
    pub buf: UserSliceWriter,
    pub offset: i64,
    /// Between the halves, with the bytes gathered in `filled`.
    pub between: ProcHand,
    pub file_between: ProcOpFileHandle,
    pub filled: UserSliceWriter,
    pub answer: Result<(usize, usize), Error>,
    /// How many of the bytes did not reach user memory.
    pub uncopied: usize,
    pub after: ProcHand,
    pub file_after: ProcOpFileHandle,
    /// What the callback returns, and the offset it leaves.
    pub status: isize,
    pub offset_after: i64,
}

impl ReadCall {
    /// The call is one that the callback's two halves allow.
    pub open spec fn possible(self) -> bool {
        &&& self.buf.wf()
        &&& self.buf.staged@ == Seq::<u8>::empty()
        &&& ProcHand::reads(
            self.before,
            self.file,
            self.buf,
            self.offset,
            self.between,
            self.file_between,
            self.filled,
            self.answer,
        )
        &&& read_end_possible(
            self.between,
            self.file_between,
            self.answer,
            self.uncopied,
            self.offset,
            self.after,
            self.file_after,
            self.status,
            self.offset_after,
        )
    }

    /// The bytes for the user buffer.
    pub open spec fn bytes(self) -> Seq<u8> {
        self.filled.staged@
    }
}

/// A read callback whose bytes all reach the user, at an offset within the file: it returns the number of bytes, which are those at the offset, moves the
/// offset behind them, and changes nothing else.
pub proof fn law_read_call(call: ReadCall, data: Seq<u8>)
    requires
        call.possible(),
        call.uncopied == 0,
        call.before@ == Some(data),
        0 <= call.offset <= data.len(),
    ensures
        call.bytes() == section(data, call.offset as int, call.buf.capacity as int),
        call.status == call.bytes().len(),
        call.offset_after == call.offset + call.bytes().len(),
        call.after@ == call.before@,
        call.file_after == call.file,
{
    assert(call.bytes() =~= read_bytes(Some(data), call.buf.capacity as int, call.offset));
}

/// What the write callback wrote, the read callback gives back: where a write returned the length of
/// the user's buffer, a read of that length from where the write started returns it too, yields the
/// very bytes, and leaves its offset where the write left its own.
pub proof fn law_callbacks_read_back_write(
    h0: ProcHand,
    file: ProcOpFileHandle,
    src: UserSliceReader,
    p: i64,
    h1: ProcHand,
    file1: ProcOpFileHandle,
    status: isize,
    p_after: i64,
    call: ReadCall,
)
    requires
        src.wf(),
        h0@ is Some,
        write_call_possible(h0, file, src, p, h1, file1, status, p_after),
        status == src.rest().len(),
        call.possible(),
        call.uncopied == 0,
        call.before@ == h1@,
        call.buf.capacity == src.rest().len(),
        call.offset == write_start(h0@->0, file.flags, p),
    ensures
        call.status == src.rest().len(),
        call.bytes() == src.rest(),
        call.offset_after == call.offset + src.rest().len(),
        call.offset_after == p_after,
        call.after@ == h1@,
{
    let r = choose|r: Result<(usize, usize), Error>|
        {
            &&& #[trigger] ProcHand::writes(h0, file, src, p, h1, file1, r)
            &&& r matches Err(e) ==> e.wf()
            &&& (status, p_after) == transfer_reply(r, p)
        };
    let (n, next) = r->Ok_0;
    law_write_is_overlay(h0@, file.flags, src, p, h1@, n, next);
    law_read_call(call, h1@->0);
    assert(call.bytes() =~= src.rest());
}

/// The chunks of a run of calls, one behind the other.
pub open spec fn joined(calls: Seq<ReadCall>) -> Seq<u8>
    decreases calls.len(),
{
    if calls.len() == 0 {
        Seq::empty()
    } else {
        joined(calls.drop_last()) + calls.last().bytes()
    }
}

/// The calls follow one another with nothing in between: each finds the data and the offset that the
/// one before left, has room for at least one byte, and all its bytes reach the user.
pub open spec fn read_run(calls: Seq<ReadCall>, data: Seq<u8>, start: i64) -> bool {
    &&& forall|i: int|
        0 <= i < calls.len() ==> {
            &&& (#[trigger] calls[i]).possible()
            &&& calls[i].uncopied == 0
            &&& calls[i].buf.capacity >= 1
        }
    &&& calls.len() > 0 ==> calls[0].before@ == Some(data) && calls[0].offset == start
    &&& forall|i: int, j: int|
        0 <= i < calls.len() && j == i + 1 && j < calls.len() ==> {
            &&& (#[trigger] calls[j]).before@ == (#[trigger] calls[i]).after@
            &&& calls[j].offset == calls[i].offset_after
        }
}

/// A run of read callbacks yields the data from the start on, with no byte skipped or repeated: as
/// far as the run has come, it has read just the bytes before its offset. Each call returns 0 exactly
/// when its offset is the length of the file, and then leaves it there; else it moves on. So a run
/// that comes to 0 has read all the data from the start on.
pub proof fn law_run_of_reads_yields_file(calls: Seq<ReadCall>, data: Seq<u8>, start: i64)
    requires
        read_run(calls, data, start),
        0 <= start <= data.len(),
    ensures
        forall|i: int|
            0 <= i < calls.len() ==> {
                let call = #[trigger] calls[i];
                &&& start <= call.offset <= data.len()
                &&& call.status >= 0
                &&& call.status == 0 <==> call.offset == data.len()
                &&& call.offset_after == call.offset + call.status
                &&& call.offset_after <= data.len()
                &&& call.after@ == Some(data)
            },
        calls.len() > 0 ==> joined(calls) == data.subrange(
            start as int,
            calls.last().offset_after as int,
        ),
        calls.len() > 0 && calls.last().status == 0 ==> {
            &&& joined(calls) == data.skip(start as int)
            &&& calls.last().offset_after == data.len()
        },
    decreases calls.len(),
{
    if calls.len() > 0 {
        let rest = calls.drop_last();
        let last = calls.last();
        let n = calls.len() as int;
        assert(last == calls[n - 1]);
        assert(read_run(rest, data, start)) by {
            assert forall|i: int| 0 <= i < rest.len() implies rest[i] == calls[i] by {}
        }
        law_run_of_reads_yields_file(rest, data, start);
        if n > 1 {
            assert(rest.last() == calls[n - 2]);
            assert(calls[n - 1].offset == calls[n - 2].offset_after);
        }
        assert(joined(rest) =~= data.subrange(start as int, last.offset as int));
        law_read_call(last, data);
        assert forall|i: int| 0 <= i < calls.len() implies {
            let call = #[trigger] calls[i];
            &&& start <= call.offset <= data.len()
            &&& call.status >= 0
            &&& call.status == 0 <==> call.offset == data.len()
            &&& call.offset_after == call.offset + call.status
            &&& call.offset_after <= data.len()
            &&& call.after@ == Some(data)
        } by {
            if i < n - 1 {
                assert(calls[i] == rest[i]);
            }
        }
        assert(joined(calls) =~= data.subrange(start as int, last.offset_after as int));
    }
}

/// A successful write reports the length of the user buffer and the offset behind the bytes written.
/// It changes those bytes and no others, and lengthens the file just enough to hold them.
pub proof fn law_write_is_overlay(
    data: Option<Seq<u8>>,
    flags: u32,
    src: UserSliceReader,
    offset: i64,
    after: Option<Seq<u8>>,
    n: usize,
    next: usize,
)
    requires
        src.wf(),
        write_possible(data, flags, src, offset, after, Ok((n, next))),
    ensures
        data is Some,
        after is Some,
        n == src.rest().len(),
        next == write_start(data->0, flags, offset) + n,
        next - n <= data->0.len(),
        after->0.len() == if next > data->0.len() {
            next as nat
        } else {
            data->0.len()
        },
        forall|i: int|
            0 <= i < after->0.len() ==> #[trigger] after->0[i] == if next - n <= i < next {
                src.rest()[i - (next - n)]
            } else {
                data->0[i]
            },
{
    let granted = choose|granted: bool|
        {
            &&& #[trigger] write_outcome(data, flags, src, offset, granted) == (
                after,
                Ok::<(usize, usize), Error>((n, next)),
            )
            &&& memory_decided(data, write_growth(data, flags, src, offset), granted)
        };
    assert(src.rest().len() <= src.bytes.len());
}

/// A write that is granted memory succeeds exactly where the bytes are there, its start lies within
/// the file or at its end, and the whole user buffer can be read.
pub proof fn law_granted_write_succeeds(
    data: Option<Seq<u8>>,
    flags: u32,
    src: UserSliceReader,
    offset: i64,
)
    requires
        src.wf(),
    ensures
        write_outcome(data, flags, src, offset, true).1 is Ok <==> {
            &&& indexable(offset)
            &&& data is Some
            &&& write_start(data->0, flags, offset) <= data->0.len()
            &&& src.readable == src.bytes@.len()
        },
{
}

/// A write that fails does not change the length of the file, nor any byte before its start. If it
/// was refused, or started at the end of the file, it changes nothing at all.
pub proof fn law_failed_write_keeps_length(
    data: Option<Seq<u8>>,
    flags: u32,
    src: UserSliceReader,
    offset: i64,
    after: Option<Seq<u8>>,
    e: Error,
)
    requires
        src.wf(),
        write_possible(data, flags, src, offset, after, Err(e)),
    ensures
        data is None <==> after is None,
        e.errno == EINVAL || e.errno == EBUSY ==> after == data,
        data is Some ==> {
            let start = write_start(data->0, flags, offset);
            &&& after->0.len() == data->0.len()
            &&& start == data->0.len() ==> after == data
            &&& forall|i: int| 0 <= i < start && i < data->0.len() ==> #[trigger] after->0[i] == data->0[i]
        },
{
    let granted = choose|granted: bool|
        #[trigger] write_outcome(data, flags, src, offset, granted) == (
            after,
            Err::<(usize, usize), Error>(e),
        );
    if data is Some {
        let start = write_start(data->0, flags, offset);
        if start == data->0.len() {
            assert(overlay(data->0, start, src.rest().take(0)) =~= data->0);
        }
    }
}

/// A write to a file opened for appending puts the bytes at the end, whatever offset it is given.
pub proof fn law_append_goes_to_end(
    data: Option<Seq<u8>>,
    flags: u32,
    src: UserSliceReader,
    offset: i64,
    after: Option<Seq<u8>>,
    n: usize,
    next: usize,
)
    requires
        src.wf(),
        appends(flags),
        write_possible(data, flags, src, offset, after, Ok((n, next))),
    ensures
        data is Some,
        after == Some(data->0 + src.rest()),
        next == data->0.len() + src.rest().len(),
{
    law_write_is_overlay(data, flags, src, offset, after, n, next);
    assert(after->0 =~= data->0 + src.rest());
}

/// Two successful writes, the second from where the first ended, do what one write of all the bytes
/// does.
pub proof fn law_writes_join(
    d0: Option<Seq<u8>>,
    flags: u32,
    first: UserSliceReader,
    offset: i64,
    d1: Option<Seq<u8>>,
    n1: usize,
    next1: usize,
    second: UserSliceReader,
    offset2: i64,
    d2: Option<Seq<u8>>,
    n2: usize,
    next2: usize,
    whole: UserSliceReader,
    d3: Option<Seq<u8>>,
    n3: usize,
    next3: usize,
)
    requires
        first.wf(),
        second.wf(),
        whole.wf(),
        whole.rest() == first.rest() + second.rest(),
        write_possible(d0, flags, first, offset, d1, Ok((n1, next1))),
        offset2 == next1,
        write_possible(d1, flags, second, offset2, d2, Ok((n2, next2))),
        write_possible(d0, flags, whole, offset, d3, Ok((n3, next3))),
    ensures
        d2 == d3,
        n3 == n1 + n2,
        next3 == next2,
{
    law_write_is_overlay(d0, flags, first, offset, d1, n1, next1);
    law_write_is_overlay(d1, flags, second, offset2, d2, n2, next2);
    law_write_is_overlay(d0, flags, whole, offset, d3, n3, next3);
    assert(d2->0 =~= d3->0);
}

/// Two reads, the second from where the first ended, yield what one read with the room of both does.
pub proof fn law_reads_join(
    data: Option<Seq<u8>>,
    room1: int,
    room2: int,
    offset: i64,
    n1: usize,
    next1: usize,
    offset2: i64,
)
    requires
        0 <= room1,
        0 <= room2,
        fits(data),
        read_answer(data, room1, offset) == Ok::<(usize, usize), Error>((n1, next1)),
        offset2 == next1,
    ensures
        read_bytes(data, room1, offset) + read_bytes(data, room2, offset2) == read_bytes(
            data,
            room1 + room2,
            offset,
        ),
        match (read_answer(data, room2, offset2), read_answer(data, room1 + room2, offset)) {
            (Ok((n2, next2)), Ok((n, next))) => n == n1 + n2 && next == next2,
            _ => false,
        },
{
    assert(read_bytes(data, room1, offset) + read_bytes(data, room2, offset2) =~= read_bytes(
        data,
        room1 + room2,
        offset,
    ));
}

/// A read answers with the number of bytes it yields. It yields none exactly where there is no room
/// or the end of the file is reached, and from the start, with room enough, the whole file.
pub proof fn law_read_ends_at_end_of_file(data: Seq<u8>, room: int, offset: i64)
    requires
        0 <= room,
        fits(Some(data)),
        indexable(offset),
    ensures
        ({
            let bytes = read_bytes(Some(data), room, offset);
            &&& read_answer(Some(data), room, offset) == Ok::<(usize, usize), Error>(
                (bytes.len() as usize, (offset + bytes.len()) as usize),
            )
            &&& bytes.len() <= room
            &&& bytes.len() == 0 <==> room == 0 || offset >= data.len()
            &&& offset == 0 && room >= data.len() ==> bytes == data
        }),
{
    if offset == 0 && room >= data.len() {
        assert(read_bytes(Some(data), room, offset) =~= data);
    }
}

/// A seek that succeeds leaves the file where it says, within the file, and there it stays: to seek
/// by nothing from there, or to there from the start, answers the same position. A seek that fails
/// moves nothing, and no seek changes the data.
pub proof fn law_seek_settles(
    h0: ProcHand,
    file: ProcOpFileHandle,
    offset: i64,
    whence: Whence,
    h1: ProcHand,
    file1: ProcOpFileHandle,
    r: Result<i64, Error>,
)
    requires
        ProcHand::seeks(h0, file, offset, whence, h1, file1, r),
    ensures
        h1@ == h0@,
        file1.flags == file.flags,
        r is Err ==> file1 == file,
        r matches Ok(pos) ==> {
            &&& h0@ is Some
            &&& file1.pos == pos
            &&& 0 <= pos <= h0@->0.len()
            &&& seek_answer(h1@, file1.pos, 0, Whence::SeekCur) == Ok::<i64, Error>(pos)
            &&& seek_answer(h1@, file1.pos, pos, Whence::SeekSet) == Ok::<i64, Error>(pos)
        },
{
}

/// Any position within the file, and no other, can be sought from the start; the end of the file is
/// where seeking to the next hole, or by nothing from the end, leads.
pub proof fn law_seek_reaches_whole_file(data: Seq<u8>, pos: i64, target: i64)
    requires
        fits(Some(data)),
    ensures
        seek_answer(Some(data), pos, target, Whence::SeekSet) is Ok <==> 0 <= target
            <= data.len(),
        seek_answer(Some(data), pos, target, Whence::SeekHole) == Ok::<i64, Error>(
            data.len() as i64,
        ),
        seek_answer(Some(data), pos, 0, Whence::SeekEnd) == Ok::<i64, Error>(data.len() as i64),
{
}

/// Where a seek leads, a write is not refused: it may fail for want of memory or because the user
/// buffer cannot be read, but its offset is valid.
pub proof fn law_write_accepts_sought_position(
    data: Option<Seq<u8>>,
    pos: i64,
    offset: i64,
    whence: Whence,
    target: i64,
    flags: u32,
    src: UserSliceReader,
    after: Option<Seq<u8>>,
    r: Result<(usize, usize), Error>,
)
    requires
        seek_answer(data, pos, offset, whence) == Ok::<i64, Error>(target),
        src.wf(),
        write_possible(data, flags, src, target, after, r),
    ensures
        r matches Err(e) ==> e.errno != EINVAL && e.errno != EBUSY,
{
}

/// Opening for truncation empties the file, any other opening leaves it as it is.
pub proof fn law_open_truncates(data: Seq<u8>, flags: u32)
    ensures
        open_outcome(Some(data), flags).1 == Ok::<i32, Error>(0),
        open_outcome(Some(data), flags).0 == Some(
            if truncates(flags) {
                Seq::empty()
            } else {
                data
            },
        ),
{
}

/// Once its bytes are gone, the file is busy: opening, seeking, and reading and writing at a valid
/// offset all answer `EBUSY`.
pub proof fn law_gone_file_is_busy(
    flags: u32,
    pos: i64,
    room: int,
    offset: i64,
    whence: Whence,
    src: UserSliceReader,
    after: Option<Seq<u8>>,
    r: Result<(usize, usize), Error>,
)
    requires
        write_possible(None, flags, src, offset, after, r),
    ensures
        open_outcome(None, flags).1 == Err::<i32, Error>(busy()),
        seek_answer(None, pos, offset, whence) == Err::<i64, Error>(busy()),
        indexable(offset) ==> read_answer(None, room, offset) == Err::<(usize, usize), Error>(
            busy(),
        ),
        indexable(offset) ==> r == Err::<(usize, usize), Error>(busy()),
{
}

/// No operation brings the bytes back once they are gone, and none takes them away.
pub proof fn law_operations_keep_presence(
    h0: ProcHand,
    file: ProcOpFileHandle,
    src: UserSliceReader,
    dst: UserSliceWriter,
    offset: i64,
    whence: Whence,
    h1: ProcHand,
    file1: ProcOpFileHandle,
    dst1: UserSliceWriter,
    opened: Result<i32, Error>,
    answer: (usize, usize),
    uncopied: usize,
    moved: Result<(usize, usize), Error>,
    sought: Result<i64, Error>,
)
    requires
        ({
            ||| ProcHand::opens(h0, file, h1, file1, opened)
            ||| ProcHand::reads(h0, file, dst, offset, h1, file1, dst1, moved)
            ||| ProcHand::settles(h0, file, answer, uncopied, h1, file1, moved)
            ||| ProcHand::writes(h0, file, src, offset, h1, file1, moved)
            ||| ProcHand::seeks(h0, file, offset, whence, h1, file1, sought)
        }),
    ensures
        h1@ is None <==> h0@ is None,
{
}

/// The numbers of the seek modes are distinct: each names its own mode, and a mode its own number.
pub proof fn law_whence_numbers(whence: Whence, n: int)
    ensures
        Whence::of_number(whence.number() as int) == Some(whence),
        Whence::of_number(n) == Some(whence) <==> n == whence.number(),
{
}

/// A transfer callback returns a negative number exactly for an error, which is then the error's
/// code and leaves the kernel's offset alone. It holds of counts that fit the callback's result.
pub proof fn law_negative_reply_is_error(r: Result<(usize, usize), Error>, offset: i64)
    requires
        r matches Ok((bytes, _)) ==> bytes <= isize::MAX,
        r matches Err(e) ==> e.wf(),
    ensures
        ({
            let (status, offset_after) = transfer_reply(r, offset);
            &&& status < 0 <==> r is Err
            &&& status < 0 ==> status == r->Err_0.errno && offset_after == offset
            &&& status >= 0 ==> status == r->Ok_0.0 && offset_after == r->Ok_0.1 as i64
        }),
{
}

/// The counts and offsets that the file answers with fit what the callbacks return and store, so that
/// they reach the kernel as they are: the reply to a read or write is negative exactly for an error.
pub proof fn law_answers_reach_kernel(
    h0: ProcHand,
    file: ProcOpFileHandle,
    src: UserSliceReader,
    dst: UserSliceWriter,
    offset: i64,
    h1: ProcHand,
    file1: ProcOpFileHandle,
    dst1: UserSliceWriter,
    r: Result<(usize, usize), Error>,
)
    requires
        src.wf(),
        dst.wf(),
        ({
            ||| ProcHand::writes(h0, file, src, offset, h1, file1, r)
            ||| ProcHand::reads(h0, file, dst, offset, h1, file1, dst1, r)
        }),
    ensures
        match r {
            Ok((n, next)) => transfer_reply(r, offset) == (n as isize, next as i64) && n
                <= isize::MAX && next <= i64::MAX,
            Err(e) => e.wf() && transfer_reply(r, offset) == (e.errno as isize, offset),
        },
        transfer_reply(r, offset).0 < 0 <==> r is Err,
{
    if ProcHand::writes(h0, file, src, offset, h1, file1, r) {
        if r is Ok {
            let (n, next) = r->Ok_0;
            law_write_is_overlay(h0@, file.flags, src, offset, h1@, n, next);
        }
    }
}

/// A guard lets go of the very lock that was taken for it: the operation that its unlocking gives
/// undoes the one for which it was had, on the same semaphore, for reading and for writing.
pub proof fn law_unlock_undoes_lock(
    file: ProcOpFileHandle,
    read_op: SemaphoreOp,
    file_for_read: &mut ProcOpFileHandle,
    read_guard: FilePtrReadLocked,
    read_up: SemaphoreOp,
    write_op: SemaphoreOp,
    file_for_write: &mut ProcOpFileHandle,
    write_guard: FilePtrWriteLocked,
    write_up: SemaphoreOp,
)
    requires
        call_ensures(ProcOpFileHandle::read_lock, (&file,), read_op),
        *old(file_for_read) == file,
        call_ensures(ProcOpFileHandle::read_locked_ref, (file_for_read, read_op), read_guard),
        call_ensures(FilePtrReadLocked::unlock, (read_guard,), read_up),
        call_ensures(ProcOpFileHandle::write_lock, (&file,), write_op),
        *old(file_for_write) == file,
        call_ensures(ProcOpFileHandle::write_locked_ref, (file_for_write, write_op), write_guard),
        call_ensures(FilePtrWriteLocked::unlock, (write_guard,), write_up),
    ensures
        read_op.undone() == Some(read_up),
        write_op.undone() == Some(write_up),
{
}

/// The entry that the kernel created on loading is the one handed out for removal on unloading,
/// whatever became of the file in between, and it is handed out once. Loading starts with an empty
/// file, and unloading ends with its bytes gone.
pub proof fn law_unload_removes_what_load_created(
    b0: BackingData,
    b1: BackingData,
    pde: usize,
    b2: BackingData,
    used: BackingData,
    b3: BackingData,
    removed: Option<ProcDirEntry<'static>>,
    b4: BackingData,
    b5: BackingData,
    again: Option<ProcDirEntry<'static>>,
)
    requires
        !b0.initialized(),
        file_stored(b0, b1),
        entry_stored(b1, pde, b2),
        used.initialized(),
        used.entry == b2.entry,
        entry_taken(used, b3, removed),
        bytes_dropped(b3, b4),
        entry_taken(b4, b5, again),
    ensures
        b2.data->0@ == Some(Seq::<u8>::empty()),
        removed is Some,
        removed->0.ptr == pde,
        b3.data == used.data,
        b4.data->0@ is None,
        again is None,
{
}

/// Owner, group and others may each read and write the file, and none may execute it.
pub proof fn law_anyone_reads_and_writes()
    ensures
        FILE_MODE & 0o700 == 0o600,
        FILE_MODE & 0o070 == 0o060,
        FILE_MODE & 0o007 == 0o006,
{
    assert(0o666u16 & 0o700 == 0o600) by (bit_vector);
    assert(0o666u16 & 0o070 == 0o060) by (bit_vector);
    assert(0o666u16 & 0o007 == 0o006) by (bit_vector);
}

} // verus!
