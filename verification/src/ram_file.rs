//! A file backed by a buffer in memory. It can be read, written, appended to and sought in.

use vstd::prelude::*;
use vstd::slice::slice_subrange;

use crate::error::{Error, EBUSY, EFAULT, EINVAL, ENOMEM};
use crate::proc_fs::{ProcHandler, ProcOpFileHandle, Whence};
use crate::uaccess::{allocator_answers, reserve, UserSliceReader, UserSliceWriter};

verus! {

/// Open flag: empty the file.
pub const O_TRUNC: u32 = 0o1000;

/// Open flag: every write goes to the end of the file.
pub const O_APPEND: u32 = 0o2000;

/// The flags ask for appending.
pub open spec fn appends(flags: u32) -> bool {
    flags & O_APPEND != 0
}

/// The flags ask for truncation.
pub open spec fn truncates(flags: u32) -> bool {
    flags & O_TRUNC != 0
}

/// `EINVAL`, as an error.
pub open spec fn invalid() -> Error {
    Error { errno: EINVAL }
}

/// `EBUSY`, as an error.
pub open spec fn busy() -> Error {
    Error { errno: EBUSY }
}

/// The bytes, where they are there, are no more than memory can hold.
pub open spec fn fits(data: Option<Seq<u8>>) -> bool {
    data is Some ==> data->0.len() <= isize::MAX
}

/// A file offset that can index memory.
pub open spec fn indexable(offset: i64) -> bool {
    0 <= offset <= usize::MAX
}

/// `data` with `bytes` laid over it from `start` on, longer where they reach past its end.
pub open spec fn overlay(data: Seq<u8>, start: int, bytes: Seq<u8>) -> Seq<u8> {
    Seq::new(
        if start + bytes.len() > data.len() {
            (start + bytes.len()) as nat
        } else {
            data.len()
        },
        |i: int|
            if start <= i < start + bytes.len() {
                bytes[i - start]
            } else {
                data[i]
            },
    )
}

/// The bytes that a read of up to `room` bytes at `offset` yields: none past the end.
pub open spec fn section(data: Seq<u8>, offset: int, room: int) -> Seq<u8> {
    if offset >= data.len() {
        Seq::empty()
    } else if room >= data.len() - offset {
        data.skip(offset)
    } else {
        data.subrange(offset, offset + room)
    }
}

/// What opening makes of the data, and what it answers.
pub open spec fn open_outcome(data: Option<Seq<u8>>, flags: u32) -> (
    Option<Seq<u8>>,
    Result<i32, Error>,
) {
    match data {
        None => (data, Err(busy())),
        Some(_) if truncates(flags) => (Some(Seq::empty()), Ok(0)),
        Some(_) => (data, Ok(0)),
    }
}

/// The bytes that a read gathers.
pub open spec fn read_bytes(data: Option<Seq<u8>>, room: int, offset: i64) -> Seq<u8> {
    match data {
        Some(cur) if indexable(offset) => section(cur, offset as int, room),
        _ => Seq::empty(),
    }
}

/// What a read answers: the number of bytes and the offset behind them.
pub open spec fn read_answer(data: Option<Seq<u8>>, room: int, offset: i64) -> Result<
    (usize, usize),
    Error,
> {
    if !indexable(offset) {
        Err(invalid())
    } else {
        match data {
            None => Err(busy()),
            Some(cur) => {
                let n = section(cur, offset as int, room).len();
                Ok((n as usize, (offset + n) as usize))
            },
        }
    }
}

/// What a read comes to: its answer, if all its bytes reached user memory.
pub open spec fn settled(answer: (usize, usize), uncopied: usize) -> Result<(usize, usize), Error> {
    if uncopied == 0 {
        Ok(answer)
    } else {
        Err(Error { errno: EFAULT })
    }
}

/// Where a write starts: at the end where the file was opened for appending.
pub open spec fn write_start(cur: Seq<u8>, flags: u32, offset: i64) -> int {
    if appends(flags) {
        cur.len() as int
    } else {
        offset as int
    }
}

/// Where a write starts, or why it is refused whatever is in the user buffer.
pub open spec fn write_start_answer(data: Option<Seq<u8>>, flags: u32, offset: i64) -> Result<
    usize,
    Error,
> {
    if !indexable(offset) {
        Err(invalid())
    } else {
        match data {
            None => Err(busy()),
            Some(cur) if write_start(cur, flags, offset) > cur.len() => Err(invalid()),
            Some(cur) => Ok(write_start(cur, flags, offset) as usize),
        }
    }
}

/// How many of `n` bytes written from `start` on land on bytes that are already there.
pub open spec fn landing(cur: Seq<u8>, start: int, n: int) -> int {
    if n <= cur.len() - start {
        n
    } else {
        cur.len() - start
    }
}

/// What a write makes of the data, and what it answers.
///
/// Bytes that land on existing data are copied first, and stay even where the rest of the write
/// fails: for want of memory (`granted` is false) or because the user buffer cannot be read.
pub open spec fn write_outcome(
    data: Option<Seq<u8>>,
    flags: u32,
    src: UserSliceReader,
    offset: i64,
    granted: bool,
) -> (Option<Seq<u8>>, Result<(usize, usize), Error>) {
    if !indexable(offset) {
        (data, Err(invalid()))
    } else {
        match data {
            None => (data, Err(busy())),
            Some(cur) => {
                let start = write_start(cur, flags, offset);
                let n = src.rest().len() as int;
                let inside = landing(cur, start, n);
                let landed = overlay(cur, start, src.rest().take(inside));
                if start > cur.len() {
                    (data, Err(invalid()))
                } else if !src.delivers(inside) {
                    (Some(landed), Err(Error { errno: EFAULT }))
                } else if inside < n && !granted {
                    (Some(landed), Err(Error { errno: ENOMEM }))
                } else if !src.delivers(n) {
                    (Some(landed), Err(Error { errno: EFAULT }))
                } else {
                    (Some(overlay(cur, start, src.rest())), Ok((n as usize, (start + n) as usize)))
                }
            },
        }
    }
}

/// How many bytes a write adds to the length of the file.
pub open spec fn write_growth(
    data: Option<Seq<u8>>,
    flags: u32,
    src: UserSliceReader,
    offset: i64,
) -> int {
    match data {
        Some(cur) if indexable(offset) && write_start(cur, flags, offset) <= cur.len() => {
            let start = write_start(cur, flags, offset);
            src.rest().len() - landing(cur, start, src.rest().len() as int)
        },
        _ => 0,
    }
}

/// `granted` is the answer to the question whether `data` can grow by `growth` bytes: yes where it
/// need not grow, no where the length would pass `isize::MAX`, and else what the allocator said when
/// asked for exactly that many bytes.
pub open spec fn memory_decided(data: Option<Seq<u8>>, growth: int, granted: bool) -> bool {
    &&& growth == 0 ==> granted
    &&& data is Some && 0 < growth ==> {
        &&& granted ==> data->0.len() + growth <= isize::MAX
        &&& data->0.len() + growth <= isize::MAX ==> allocator_answers(
            data->0,
            growth as usize,
            granted,
        )
    }
}

/// A write to a file that memory holds may leave `after` behind and answer `r`: the outcome is that
/// of a write which was granted the memory to grow the file, or of one which was not. A file that need
/// not grow leaves no choice.
pub open spec fn write_possible(
    data: Option<Seq<u8>>,
    flags: u32,
    src: UserSliceReader,
    offset: i64,
    after: Option<Seq<u8>>,
    r: Result<(usize, usize), Error>,
) -> bool {
    let growth = write_growth(data, flags, src, offset);
    &&& fits(data)
    &&& exists|granted: bool|
        {
            &&& #[trigger] write_outcome(data, flags, src, offset, granted) == (after, r)
            &&& memory_decided(data, growth, granted)
        }
}

/// The position that a seek asks for.
pub open spec fn seek_target(len: int, pos: int, offset: int, whence: Whence) -> int {
    match whence {
        Whence::SeekSet => offset,
        Whence::SeekData => offset,
        Whence::SeekCur => pos + offset,
        Whence::SeekEnd => len + offset,
        Whence::SeekHole => len,
    }
}

/// What a seek answers: the position asked for, where it lies within the file.
pub open spec fn seek_answer(
    data: Option<Seq<u8>>,
    pos: i64,
    offset: i64,
    whence: Whence,
) -> Result<i64, Error> {
    match data {
        None => Err(busy()),
        Some(cur) => {
            let target = seek_target(cur.len() as int, pos as int, offset as int, whence);
            if 0 <= target <= cur.len() && target <= i64::MAX {
                Ok(target as i64)
            } else {
                Err(invalid())
            }
        },
    }
}

/// The flags ask for appending.
pub fn flags_are_append(flags: u32) -> (r: bool)
    ensures
        r == appends(flags),
{
    flags & O_APPEND != 0
}

/// The bytes of the file, never more than memory can hold.
pub struct FileBytes {
    bytes: Vec<u8>,
}

impl View for FileBytes {
    type V = Seq<u8>;

    closed spec fn view(&self) -> Seq<u8> {
        self.bytes@
    }
}

impl FileBytes {
    #[verifier::type_invariant]
    spec fn in_memory(self) -> bool {
        self.bytes@.len() <= isize::MAX
    }

    /// No bytes.
    pub fn new() -> (b: Self)
        ensures
            b@ == Seq::<u8>::empty(),
    {
        FileBytes { bytes: Vec::new() }
    }

    /// How many bytes there are.
    pub fn len(&self) -> (n: usize)
        ensures
            n == self@.len(),
            n <= isize::MAX,
    {
        proof {
            use_type_invariant(self);
        }
        self.bytes.len()
    }

    /// The bytes.
    pub fn as_slice(&self) -> (bytes: &[u8])
        ensures
            bytes@ == self@,
    {
        self.bytes.as_slice()
    }

    /// Drops all bytes.
    pub fn clear(&mut self)
        ensures
            final(self)@ == Seq::<u8>::empty(),
    {
        let mut bytes: Vec<u8> = Vec::new();
        core::mem::swap(&mut bytes, &mut self.bytes);
        bytes.clear();
        self.bytes = bytes;
    }

    /// Fills the bytes from `start` to `end` from the user buffer, as
    /// [`UserSliceReader::read_slice`] does.
    fn read_slice(&mut self, start: usize, end: usize, src: &mut UserSliceReader) -> (r: Result<
        (),
        Error,
    >)
        requires
            start <= end <= old(self)@.len(),
            old(src).wf(),
            end - start <= old(src).rest().len(),
        ensures
            final(self)@ == overlay(old(self)@, start as int, old(src).rest().take(end - start)),
            final(src).wf(),
            final(src).bytes@ == old(src).bytes@,
            final(src).readable == old(src).readable,
            r == if old(src).delivers(end - start) {
                Ok(())
            } else {
                Err(Error { errno: EFAULT })
            },
            r is Ok ==> final(src).pos == old(src).pos + (end - start),
    {
        proof {
            use_type_invariant(&*self);
        }
        let mut bytes: Vec<u8> = Vec::new();
        core::mem::swap(&mut bytes, &mut self.bytes);
        let r;
        {
            let (_head, tail) = bytes.as_mut_slice().split_at_mut(start);
            let (wanted, _after) = tail.split_at_mut(end - start);
            r = src.read_slice(wanted);
        }
        assert(bytes@ =~= overlay(old(self)@, start as int, old(src).rest().take(end - start)));
        self.bytes = bytes;
        r
    }

    /// Appends the rest of the user buffer, as [`UserSliceReader::read_all`] does.
    fn read_all(&mut self, src: UserSliceReader, granted: bool) -> (r: Result<(), Error>)
        requires
            src.wf(),
            src.rest().len() > 0 && granted ==> old(self)@.len() + src.rest().len() <= isize::MAX,
        ensures
            r == if src.rest().len() > 0 && !granted {
                Err(Error { errno: ENOMEM })
            } else if !src.delivers(src.rest().len() as int) {
                Err(Error { errno: EFAULT })
            } else {
                Ok(())
            },
            final(self)@ == if r is Ok {
                old(self)@ + src.rest()
            } else {
                old(self)@
            },
    {
        proof {
            use_type_invariant(&*self);
        }
        let mut bytes: Vec<u8> = Vec::new();
        core::mem::swap(&mut bytes, &mut self.bytes);
        let r = src.read_all(&mut bytes, granted);
        self.bytes = bytes;
        r
    }

    /// Makes room for `additional` more bytes, as [`reserve`] does.
    fn reserve(&mut self, additional: usize) -> (granted: bool)
        ensures
            final(self)@ == old(self)@,
            memory_decided(Some(old(self)@), additional as int, granted),
            0 < additional && old(self)@.len() + additional <= isize::MAX ==> exists|
                b: &mut Vec<u8>,
                res: Result<(), std::collections::TryReserveError>,
            |
                {
                    &&& #[trigger] call_ensures(Vec::<u8>::try_reserve, (b, additional), res)
                    &&& *b == old(self).bytes
                    &&& *final(b) == final(self).bytes
                    &&& granted == (res is Ok)
                },
    {
        proof {
            use_type_invariant(&*self);
        }
        let mut bytes: Vec<u8> = Vec::new();
        core::mem::swap(&mut bytes, &mut self.bytes);
        let granted: bool = reserve(&mut bytes, additional);
        self.bytes = bytes;
        granted
    }
}

/// The handler of the file. It owns the bytes until they are taken away when the module unloads.
pub struct ProcHand {
    /// The bytes of the file; `None` once they are gone.
    pub data: Option<FileBytes>,
}

impl View for ProcHand {
    type V = Option<Seq<u8>>;

    open spec fn view(&self) -> Option<Seq<u8>> {
        match self.data {
            Some(b) => Some(b@),
            None => None,
        }
    }
}

impl ProcHand {
    /// The bytes, for use and change; `EBUSY` once they are gone.
    pub fn with_data(&mut self) -> (r: Result<&mut FileBytes, Error>)
        ensures
            fits(old(self)@),
            match r {
                Ok(inner) => {
                    &&& old(self).data == Some(*inner)
                    &&& final(self).data == Some(*final(inner))
                },
                Err(e) => {
                    &&& old(self).data is None
                    &&& final(self).data is None
                    &&& e == busy()
                },
            },
    {
        match &mut self.data {
            Some(inner) => {
                proof {
                    use_type_invariant(&*inner);
                }
                Ok(inner)
            },
            None => Err(Error { errno: EBUSY }),
        }
    }

    /// Open handler: empties the file where it is opened for truncation.
    pub fn popen(&mut self, file: &mut ProcOpFileHandle) -> (r: Result<i32, Error>)
        ensures
            *final(file) == *old(file),
            (final(self)@, r) == open_outcome(old(self)@, old(file).flags),
            fits(old(self)@),
            fits(final(self)@),
    {
        match self.with_data() {
            Ok(d) => {
                let flags: u32 = file.get_flags();
                if flags & O_TRUNC != 0 {
                    d.clear();
                }
                Ok(0)
            },
            Err(e) => Err(e),
        }
    }

    /// Read handler: gathers the bytes from `offset` on, as many as `user_slice` takes.
    pub fn pread(
        &mut self,
        _file: &mut ProcOpFileHandle,
        user_slice: &mut UserSliceWriter,
        offset: i64,
    ) -> (r: Result<(usize, usize), Error>)
        requires
            old(user_slice).wf(),
        ensures
            *final(_file) == *old(_file),
            final(self)@ == old(self)@,
            r == read_answer(old(self)@, old(user_slice).room(), offset),
            final(user_slice).wf(),
            final(user_slice).capacity == old(user_slice).capacity,
            final(user_slice).staged@ == old(user_slice).staged@ + read_bytes(
                old(self)@,
                old(user_slice).room(),
                offset,
            ),
            fits(old(self)@),
            fits(final(self)@),
    {
        let inner = self.with_data();
        let offset: usize = match usize::try_from(offset) {
            Ok(offset) => offset,
            Err(_) => return Err(Error { errno: EINVAL }),
        };
        match inner {
            Ok(inner) => {
                let len: usize = user_slice.len();
                if offset > inner.len() {
                    // End of file.
                    return Ok((0, offset));
                }
                let wanted: usize = inner.len() - offset;
                if len >= wanted {
                    user_slice.write_slice(slice_subrange(inner.as_slice(), offset, inner.len()))?;
                    Ok((wanted, offset + wanted))
                } else {
                    user_slice.write_slice(slice_subrange(inner.as_slice(), offset, offset + len))?;
                    Ok((len, offset + len))
                }
            },
            Err(e) => Err(e),
        }
    }

    /// Ends a read: `EFAULT` where the last `uncopied` bytes did not reach user memory.
    pub fn pread_done(&self, answer: (usize, usize), uncopied: usize) -> (r: Result<
        (usize, usize),
        Error,
    >)
        ensures
            r == settled(answer, uncopied),
    {
        if uncopied == 0 {
            Ok(answer)
        } else {
            Err(Error { errno: EFAULT })
        }
    }

    /// Where a write starts, which may be refused before the user buffer is looked at: `EINVAL` for
    /// an offset that is none or lies behind the end, `EBUSY` once the bytes are gone.
    pub fn pwrite_start(&self, flags: u32, offset: i64) -> (r: Result<usize, Error>)
        ensures
            fits(self@),
            r == write_start_answer(self@, flags, offset),
    {
        let len: Option<usize> = match &self.data {
            Some(cur) => Some(cur.len()),
            None => None,
        };
        let offset: usize = match usize::try_from(offset) {
            Ok(offset) => offset,
            Err(_) => return Err(Error { errno: EINVAL }),
        };
        let len: usize = match len {
            Some(len) => len,
            None => return Err(Error { errno: EBUSY }),
        };
        let start: usize = if flags_are_append(flags) {
            len
        } else {
            offset
        };
        // Illegal start offset.
        if start > len {
            return Err(Error { errno: EINVAL });
        }
        Ok(start)
    }

    /// Write handler, given whether memory to grow the file was granted: copies the user buffer
    /// over the bytes from `offset` on, or to the end of a file opened for appending.
    pub fn pwrite_granted(
        &mut self,
        file: &mut ProcOpFileHandle,
        user_slice_reader: UserSliceReader,
        offset: i64,
        granted: bool,
    ) -> (r: Result<(usize, usize), Error>)
        requires
            user_slice_reader.wf(),
            ({
                let growth = write_growth(
                    old(self)@,
                    old(file).flags,
                    user_slice_reader,
                    offset,
                );
                granted && 0 < growth && old(self)@ is Some ==> old(self)@->0.len() + growth
                    <= isize::MAX
            }),
        ensures
            *final(file) == *old(file),
            (final(self)@, r) == write_outcome(
                old(self)@,
                old(file).flags,
                user_slice_reader,
                offset,
                granted,
            ),
            fits(old(self)@),
            fits(final(self)@),
    {
        let len: usize = user_slice_reader.len();
        let offset: usize = match self.pwrite_start(file.get_flags(), offset) {
            Ok(start) => start,
            Err(e) => return Err(e),
        };
        let cur = match self.with_data() {
            Ok(cur) => cur,
            Err(e) => return Err(e),
        };
        let ghost before = cur@;
        let ghost start = offset as int;
        let ghost rest = user_slice_reader.rest();
        let mut buf = user_slice_reader;
        // Append.
        if offset == cur.len() {
            let done = cur.read_all(buf, granted);
            assert(overlay(before, start, rest.take(0)) =~= before);
            assert(before + rest =~= overlay(before, start, rest));
            return match done {
                Ok(()) => Ok((len, cur.len())),
                Err(e) => Err(e),
            };
        }
        let room: usize = cur.len() - offset;
        if len > room {
            // Needs more space: first write into the space available, then extend.
            let end: usize = cur.len();
            cur.read_slice(offset, end, &mut buf)?;
            let ghost landed = cur@;
            let done = cur.read_all(buf, granted);
            assert(rest.skip(room as int) =~= buf.rest());
            assert(landed + rest.skip(room as int) =~= overlay(before, start, rest));
            match done {
                Ok(()) => Ok((len, cur.len())),
                Err(e) => Err(e),
            }
        } else {
            // Has enough space: overwrite the wanted section.
            assert(rest.take(len as int) =~= rest);
            cur.read_slice(offset, offset + len, &mut buf)?;
            Ok((len, offset + len))
        }
    }

    /// Reserves memory for the bytes by which a write would lengthen the file.
    fn reserve_growth(
        &mut self,
        flags: u32,
        user_slice_reader: &UserSliceReader,
        offset: i64,
    ) -> (granted: bool)
        requires
            user_slice_reader.wf(),
        ensures
            final(self)@ == old(self)@,
            memory_decided(
                old(self)@,
                write_growth(old(self)@, flags, *user_slice_reader, offset),
                granted,
            ),
            ({
                let growth = write_growth(old(self)@, flags, *user_slice_reader, offset);
                0 < growth && old(self)@->0.len() + growth <= isize::MAX ==> exists|
                    b: &mut Vec<u8>,
                    res: Result<(), std::collections::TryReserveError>,
                |
                    {
                        &&& #[trigger] call_ensures(Vec::<u8>::try_reserve, (b, growth as usize), res)
                        &&& *b == old(self).data->0.bytes
                        &&& *final(b) == final(self).data->0.bytes
                        &&& granted == (res is Ok)
                    }
            }),
    {
        let growth: usize = match self.pwrite_start(flags, offset) {
            Ok(start) => {
                let len: usize = user_slice_reader.len();
                match self.with_data() {
                    Ok(cur) if len > cur.len() - start => len - (cur.len() - start),
                    _ => 0,
                }
            },
            Err(_) => 0,
        };
        match self.with_data() {
            Ok(cur) => cur.reserve(growth),
            Err(_) => true,
        }
    }

    /// Write handler: copies the user buffer over the bytes from `offset` on, or to the end of a
    /// file opened for appending.
    pub fn pwrite(
        &mut self,
        file: &mut ProcOpFileHandle,
        user_slice_reader: UserSliceReader,
        offset: i64,
    ) -> (r: Result<(usize, usize), Error>)
        requires
            user_slice_reader.wf(),
        ensures
            *final(file) == *old(file),
            write_possible(
                old(self)@,
                old(file).flags,
                user_slice_reader,
                offset,
                final(self)@,
                r,
            ),
            fits(final(self)@),
    {
        let granted: bool = self.reserve_growth(file.get_flags(), &user_slice_reader, offset);
        self.pwrite_granted(file, user_slice_reader, offset, granted)
    }

    /// Seek handler: moves the file's offset to the position asked for.
    pub fn plseek(&mut self, file: &mut ProcOpFileHandle, offset: i64, whence: Whence) -> (r: Result<
        i64,
        Error,
    >)
        ensures
            final(self)@ == old(self)@,
            r == seek_answer(old(self)@, old(file).pos, offset, whence),
            *final(file) == match r {
                Ok(pos) => ProcOpFileHandle { pos, ..*old(file) },
                Err(_) => *old(file),
            },
            fits(old(self)@),
    {
        let len: usize = match self.with_data() {
            Ok(inner) => inner.len(),
            Err(e) => return Err(e),
        };
        let target: i128 = match whence {
            Whence::SeekSet | Whence::SeekData => offset as i128,
            Whence::SeekCur => file.read_pos_unsync() as i128 + offset as i128,
            Whence::SeekEnd => len as i128 + offset as i128,
            Whence::SeekHole => len as i128,
        };
        if target < 0 || target > len as i128 {
            return Err(Error { errno: EINVAL });
        }
        let output: i64 = match i64::try_from(target) {
            Ok(output) => output,
            Err(_) => return Err(Error { errno: EINVAL }),
        };
        file.write_pos_unsync(output);
        Ok(output)
    }

    /// Takes the bytes away: from now on every operation finds the file busy.
    pub fn take(&mut self) -> (data: Option<FileBytes>)
        ensures
            data == old(self).data,
            final(self).data is None,
    {
        self.data.take()
    }
}

impl ProcHandler for ProcHand {
    open spec fn opens(
        before: Self,
        file: ProcOpFileHandle,
        after: Self,
        file_after: ProcOpFileHandle,
        r: Result<i32, Error>,
    ) -> bool {
        &&& fits(before@)
        &&& fits(after@)
        &&& (after@, r) == open_outcome(before@, file.flags)
        &&& file_after == file
    }

    open spec fn reads(
        before: Self,
        file: ProcOpFileHandle,
        user_slice: UserSliceWriter,
        offset: i64,
        after: Self,
        file_after: ProcOpFileHandle,
        user_slice_after: UserSliceWriter,
        r: Result<(usize, usize), Error>,
    ) -> bool {
        &&& fits(before@)
        &&& fits(after@)
        &&& r == read_answer(before@, user_slice.room(), offset)
        &&& user_slice_after.staged@ == user_slice.staged@ + read_bytes(
            before@,
            user_slice.room(),
            offset,
        )
        &&& after@ == before@
        &&& file_after == file
    }

    open spec fn settles(
        before: Self,
        file: ProcOpFileHandle,
        answer: (usize, usize),
        uncopied: usize,
        after: Self,
        file_after: ProcOpFileHandle,
        r: Result<(usize, usize), Error>,
    ) -> bool {
        &&& r == settled(answer, uncopied)
        &&& after@ == before@
        &&& file_after == file
    }

    open spec fn writes(
        before: Self,
        file: ProcOpFileHandle,
        user_slice: UserSliceReader,
        offset: i64,
        after: Self,
        file_after: ProcOpFileHandle,
        r: Result<(usize, usize), Error>,
    ) -> bool {
        &&& fits(after@)
        &&& write_possible(before@, file.flags, user_slice, offset, after@, r)
        &&& file_after == file
    }

    open spec fn seeks(
        before: Self,
        file: ProcOpFileHandle,
        offset: i64,
        whence: Whence,
        after: Self,
        file_after: ProcOpFileHandle,
        r: Result<i64, Error>,
    ) -> bool {
        &&& fits(before@)
        &&& fits(after@)
        &&& r == seek_answer(before@, file.pos, offset, whence)
        &&& file_after == match r {
            Ok(pos) => ProcOpFileHandle { pos, ..file },
            Err(_) => file,
        }
        &&& after@ == before@
    }

    fn open(&mut self, file: &mut ProcOpFileHandle) -> (r: Result<i32, Error>) {
        self.popen(file)
    }

    fn read(
        &mut self,
        file: &mut ProcOpFileHandle,
        user_slice: &mut UserSliceWriter,
        offset: &i64,
    ) -> (r: Result<(usize, usize), Error>) {
        self.pread(file, user_slice, *offset)
    }

    fn read_done(
        &mut self,
        _file: &mut ProcOpFileHandle,
        answer: (usize, usize),
        uncopied: usize,
    ) -> (r: Result<(usize, usize), Error>) {
        self.pread_done(answer, uncopied)
    }

    fn write(
        &mut self,
        file: &mut ProcOpFileHandle,
        user_slice: UserSliceReader,
        offset: &i64,
    ) -> (r: Result<(usize, usize), Error>) {
        self.pwrite(file, user_slice, *offset)
    }

    fn lseek(&mut self, file: &mut ProcOpFileHandle, offset: i64, whence: Whence) -> (r: Result<
        i64,
        Error,
    >) {
        self.plseek(file, offset, whence)
    }
}

} // verus!
