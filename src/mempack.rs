//! Reading values out of a byte buffer, front to back.

use vstd::prelude::*;

verus! {

/// Why a value could not be read from a buffer.
#[derive(Clone, Copy, Debug, PartialEq, Eq, Structural)]
pub enum ReadError {
    /// Fewer bytes were left than needed: (left, needed).
    NotEnoughBytes(usize, usize),
    /// Reading was done but this many bytes were left over.
    UnconsumedData(usize),
}

/// A cursor over a borrowed byte slice.
pub struct ReadBuf<'a> {
    data: &'a [u8],
    offset: usize,
}

impl<'a> ReadBuf<'a> {
    /// The whole buffer.
    pub closed spec fn data(&self) -> Seq<u8> {
        self.data@
    }

    /// How many bytes were consumed so far.
    pub closed spec fn position(&self) -> nat {
        self.offset as nat
    }

    /// The bytes that remain to be read.
    pub open spec fn remaining(&self) -> Seq<u8> {
        self.data().subrange(self.position() as int, self.data().len() as int)
    }

    pub closed spec fn wf(&self) -> bool {
        self.offset <= self.data@.len()
    }

    /// A cursor at the start of `data`.
    pub fn from(data: &'a [u8]) -> (r: ReadBuf<'a>)
        ensures
            r.wf(),
            r.data() == data@,
            r.position() == 0,
    {
        ReadBuf { data, offset: 0 }
    }

    /// Number of bytes left to read.
    pub fn left(&self) -> (r: usize)
        requires
            self.wf(),
        ensures
            r == self.remaining().len(),
    {
        self.data.len() - self.offset
    }

    /// True when every byte was consumed.
    pub fn is_end(&self) -> (r: bool)
        requires
            self.wf(),
        ensures
            r == (self.remaining().len() == 0),
    {
        self.offset == self.data.len()
    }

    /// Succeeds only when every byte was consumed.
    pub fn expect_end(&self) -> (r: Result<(), ReadError>)
        requires
            self.wf(),
        ensures
            self.remaining().len() == 0 ==> r is Ok,
            self.remaining().len() != 0 ==> r == Err::<(), ReadError>(
                ReadError::UnconsumedData(self.remaining().len() as usize),
            ),
    {
        let l = self.left();
        if l == 0 {
            Ok(())
        } else {
            Err(ReadError::UnconsumedData(l))
        }
    }

    /// Takes the next `n` bytes, or fails and leaves the cursor where it was.
    pub fn get_slice(&mut self, n: usize) -> (r: Result<&'a [u8], ReadError>)
        requires
            old(self).wf(),
        ensures
            final(self).wf(),
            final(self).data() == old(self).data(),
            n <= old(self).remaining().len() ==> {
                &&& r is Ok
                &&& r->Ok_0@ == old(self).remaining().take(n as int)
                &&& final(self).position() == old(self).position() + n
            },
            n > old(self).remaining().len() ==> {
                &&& r == Err::<&'a [u8], ReadError>(
                    ReadError::NotEnoughBytes(old(self).remaining().len() as usize, n),
                )
                &&& final(self).position() == old(self).position()
            },
    {
        let left = self.left();
        if n > left {
            return Err(ReadError::NotEnoughBytes(left, n));
        }
        let start = self.offset;
        let end: usize = self.data.len() - (left - n);
        let s = &self.data[start..end];
        self.offset = end;
        assert(s@ =~= old(self).remaining().take(n as int));
        Ok(s)
    }
}

} // verus!
