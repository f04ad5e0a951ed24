//! User buffers.
//!
//! User memory is touched only outside this library. A buffer to read from arrives with the bytes
//! that the copy out of user memory left; a buffer to write to gathers the bytes to copy there.

use vstd::prelude::*;
use vstd::slice::slice_subrange;

use crate::error::{Error, EFAULT, ENOMEM};

verus! {

/// A user buffer to read from, with a cursor.
pub struct UserSliceReader {
    /// One byte per byte of the user buffer, as the copy out of user memory left it.
    pub bytes: Vec<u8>,
    /// How many bytes the copy brought in before it hit memory that could not be read.
    pub readable: usize,
    /// How many bytes have been consumed.
    pub pos: usize,
}

impl UserSliceReader {
    /// Nothing past the readable bytes has been consumed, and these are part of the buffer.
    pub open spec fn wf(self) -> bool {
        self.pos <= self.readable <= self.bytes@.len()
    }

    /// The bytes not yet consumed.
    pub open spec fn rest(self) -> Seq<u8> {
        self.bytes@.skip(self.pos as int)
    }

    /// The next `n` bytes can all be read.
    pub open spec fn delivers(self, n: int) -> bool {
        self.pos + n <= self.readable
    }

    /// The reader over a copied buffer whose last `uncopied` bytes could not be read.
    pub fn new(bytes: Vec<u8>, uncopied: usize) -> (r: Self)
        requires
            uncopied <= bytes@.len(),
        ensures
            r.wf(),
            r.bytes@ == bytes@,
            r.rest() == bytes@,
            r.readable == bytes@.len() - uncopied,
            r.pos == 0,
    {
        let readable: usize = bytes.len() - uncopied;
        UserSliceReader { bytes, readable, pos: 0 }
    }

    /// How many bytes have not been consumed.
    pub fn len(&self) -> (n: usize)
        requires
            self.wf(),
        ensures
            n == self.rest().len(),
    {
        self.bytes.len() - self.pos
    }

    /// Fills `out` with the next bytes.
    ///
    /// Where fewer bytes are left than `out` holds, nothing happens and the answer is `EFAULT`.
    /// Where some of them could not be read, `out` holds what the copy left, the cursor stays and
    /// the answer is `EFAULT`.
    pub fn read_slice(&mut self, out: &mut [u8]) -> (r: Result<(), Error>)
        requires
            old(self).wf(),
        ensures
            final(self).wf(),
            final(self).bytes@ == old(self).bytes@,
            final(self).readable == old(self).readable,
            ({
                let n = old(out)@.len();
                &&& final(out)@ == if n <= old(self).rest().len() {
                    old(self).rest().take(n as int)
                } else {
                    old(out)@
                }
                &&& r == if old(self).delivers(n as int) {
                    Ok(())
                } else {
                    Err(Error { errno: EFAULT })
                }
                &&& final(self).pos == if r is Ok {
                    old(self).pos + n
                } else {
                    old(self).pos as int
                }
            }),
    {
        let n: usize = out.len();
        if n > self.bytes.len() - self.pos {
            return Err(Error { errno: EFAULT });
        }
        let mut i: usize = 0;
        while i < n
            invariant
                i <= n == out@.len() == old(out)@.len(),
                *self == *old(self),
                self.wf(),
                self.pos + n <= self.bytes@.len(),
                self.pos + n <= usize::MAX,
                forall|j: int| 0 <= j < i ==> out@[j] == self.bytes@[self.pos + j],
            decreases n - i,
        {
            out[i] = self.bytes[self.pos + i];
            i += 1;
        }
        assert(out@ =~= self.rest().take(n as int));
        if n > self.readable - self.pos {
            return Err(Error { errno: EFAULT });
        }
        self.pos += n;
        Ok(())
    }

    /// Appends all the bytes not yet consumed to `buf`.
    ///
    /// `granted` says whether memory for them could be reserved. Without it the answer is `ENOMEM`;
    /// where some of the bytes could not be read it is `EFAULT`. Either way `buf` is unchanged.
    pub fn read_all(self, buf: &mut Vec<u8>, granted: bool) -> (r: Result<(), Error>)
        requires
            self.wf(),
            granted ==> old(buf)@.len() + self.rest().len() <= usize::MAX,
        ensures
            r == if self.rest().len() > 0 && !granted {
                Err(Error { errno: ENOMEM })
            } else if !self.delivers(self.rest().len() as int) {
                Err(Error { errno: EFAULT })
            } else {
                Ok(())
            },
            final(buf)@ == if r is Ok {
                old(buf)@ + self.rest()
            } else {
                old(buf)@
            },
    {
        let n: usize = self.bytes.len() - self.pos;
        if n > 0 && !granted {
            return Err(Error { errno: ENOMEM });
        }
        if n > self.readable - self.pos {
            return Err(Error { errno: EFAULT });
        }
        buf.extend_from_slice(slice_subrange(self.bytes.as_slice(), self.pos, self.bytes.len()));
        assert(buf@ =~= old(buf)@ + self.rest());
        Ok(())
    }
}

/// The allocator, asked for room for `additional` more bytes behind `data`, may answer `granted`.
pub open spec fn allocator_answers(data: Seq<u8>, additional: usize, granted: bool) -> bool {
    exists|b: &mut Vec<u8>, res: Result<(), std::collections::TryReserveError>|
        {
            &&& #[trigger] call_ensures(Vec::<u8>::try_reserve, (b, additional), res)
            &&& b@ == data
            &&& granted == (res is Ok)
        }
}

/// Makes room for `additional` more bytes in `buf`, and says whether there is room. The allocator
/// is asked for just that and decides, save that nothing is always granted and a length past
/// `isize::MAX`, which no vector of bytes can have, never.
pub fn reserve(buf: &mut Vec<u8>, additional: usize) -> (granted: bool)
    ensures
        final(buf)@ == old(buf)@,
        additional == 0 ==> granted,
        additional > 0 && granted ==> old(buf)@.len() + additional <= isize::MAX,
        additional > 0 && old(buf)@.len() + additional <= isize::MAX ==> exists|
            b: &mut Vec<u8>,
            res: Result<(), std::collections::TryReserveError>,
        |
            {
                &&& #[trigger] call_ensures(Vec::<u8>::try_reserve, (b, additional), res)
                &&& *b == *old(buf)
                &&& *final(b) == *final(buf)
                &&& granted == (res is Ok)
            },
{
    let limit: usize = isize::MAX as usize;
    if additional == 0 {
        return true;
    }
    if buf.len() > limit || additional > limit - buf.len() {
        return false;
    }
    let res = buf.try_reserve(additional);
    res.is_ok()
}

/// A user buffer to write to, with the bytes gathered for it so far.
pub struct UserSliceWriter {
    /// The length of the user buffer.
    pub capacity: usize,
    /// The bytes to copy to its start.
    pub staged: Vec<u8>,
}

impl UserSliceWriter {
    /// What has been gathered fits.
    pub open spec fn wf(self) -> bool {
        self.staged@.len() <= self.capacity
    }

    /// How many more bytes fit.
    pub open spec fn room(self) -> int {
        self.capacity - self.staged@.len()
    }

    /// The writer over a user buffer of `capacity` bytes.
    pub fn new(capacity: usize) -> (w: Self)
        ensures
            w.wf(),
            w.capacity == capacity,
            w.staged@ == Seq::<u8>::empty(),
    {
        UserSliceWriter { capacity, staged: Vec::new() }
    }

    /// How many more bytes fit.
    pub fn len(&self) -> (n: usize)
        requires
            self.wf(),
        ensures
            n == self.room(),
    {
        self.capacity - self.staged.len()
    }

    /// Gathers `data` behind the bytes already there; `EFAULT`, and no change, where it does not
    /// fit.
    pub fn write_slice(&mut self, data: &[u8]) -> (r: Result<(), Error>)
        requires
            old(self).wf(),
        ensures
            final(self).wf(),
            final(self).capacity == old(self).capacity,
            r == if data@.len() <= old(self).room() {
                Ok(())
            } else {
                Err(Error { errno: EFAULT })
            },
            final(self).staged@ == if r is Ok {
                old(self).staged@ + data@
            } else {
                old(self).staged@
            },
    {
        if data.len() > self.len() {
            return Err(Error { errno: EFAULT });
        }
        self.staged.extend_from_slice(data);
        assert(self.staged@ =~= old(self).staged@ + data@);
        Ok(())
    }
}

} // verus!
