//! The byte source capability the input reader reads through, and its
//! in-memory implementation.

use vstd::prelude::*;
use crate::error::TermError;

verus! {

/// A stream of input bytes. `remaining` is what the stream will still
/// deliver, in order; `never_fails` says whether reads through it always
/// succeed.
pub trait ByteSource {
    /// The bytes the stream will still deliver, in order.
    spec fn remaining(&self) -> Seq<u8>;

    /// Whether every read through this source succeeds.
    spec fn never_fails(&self) -> bool;

    /// One bounded read of at most 128 bytes. An empty result means the
    /// stream has ended; a nonempty stream never hands back nothing.
    fn read_chunk(&mut self) -> (r: Result<Vec<u8>, TermError>)
        ensures
            final(self).never_fails() == old(self).never_fails(),
            match r {
                Ok(v) => {
                    &&& v@.len() <= 128
                    &&& v@.len() <= old(self).remaining().len()
                    &&& v@ == old(self).remaining().take(v@.len() as int)
                    &&& final(self).remaining() == old(self).remaining().skip(v@.len() as int)
                    &&& (v@.len() == 0 ==> old(self).remaining().len() == 0)
                    &&& (old(self).remaining().len() > 0 ==> v@.len() > 0)
                },
                Err(e) => e == TermError::Io && final(self).remaining() == old(self).remaining(),
            },
            old(self).never_fails() ==> r is Ok,
    ;

    /// Reads exactly one byte; on an ended stream, the end-of-input error.
    fn read_one(&mut self) -> (r: Result<u8, TermError>)
        ensures
            final(self).never_fails() == old(self).never_fails(),
            match r {
                Ok(b) => old(self).remaining().len() > 0 && b == old(self).remaining()[0]
                    && final(self).remaining() == old(self).remaining().skip(1),
                Err(e) => {
                    &&& (e == TermError::Eof || e == TermError::Io)
                    &&& (e == TermError::Eof ==> old(self).remaining().len() == 0 && final(self).remaining() == old(self).remaining())
                },
            },
            old(self).never_fails() && old(self).remaining().len() > 0 ==> r is Ok,
            old(self).never_fails() && old(self).remaining().len() == 0 ==> r == Err::<
                u8,
                TermError,
            >(TermError::Eof),
    ;

    /// Drains the stream: everything it still holds, to its end.
    fn read_rest(&mut self) -> (r: Result<Vec<u8>, TermError>)
        ensures
            final(self).never_fails() == old(self).never_fails(),
            match r {
                Ok(v) => v@ == old(self).remaining() && final(self).remaining().len() == 0,
                Err(e) => e == TermError::Io,
            },
            old(self).never_fails() ==> r is Ok,
    ;
}

/// An in-memory source: a fixed byte buffer read from front to back, which
/// never fails.
pub struct VecSource {
    /// The whole stream.
    pub data: Vec<u8>,
    /// How much of it was already consumed.
    pub pos: usize,
}

impl VecSource {
    /// A source that will deliver exactly `data`.
    pub fn new(data: Vec<u8>) -> (s: VecSource)
        ensures
            s.remaining() == data@,
            s.never_fails(),
    {
        let s = VecSource { data, pos: 0 };
        proof {
            assert(s.data@.skip(0) =~= s.data@);
        }
        s
    }
}

impl ByteSource for VecSource {
    open spec fn remaining(&self) -> Seq<u8> {
        if self.pos <= self.data@.len() {
            self.data@.skip(self.pos as int)
        } else {
            Seq::<u8>::empty()
        }
    }

    open spec fn never_fails(&self) -> bool {
        true
    }

    fn read_chunk(&mut self) -> (r: Result<Vec<u8>, TermError>) {
        let len = self.data.len();
        if self.pos >= len {
            let v: Vec<u8> = Vec::new();
            proof {
                assert(v@ =~= old(self).remaining().take(0));
            }
            return Ok(v);
        }
        let left = len - self.pos;
        let k = if left < 128 {
            left
        } else {
            128
        };
        let mut v: Vec<u8> = Vec::new();
        let mut j: usize = 0;
        while j < k
            invariant
                j <= k,
                self == old(self),
                len == self.data@.len(),
                self.pos + k <= len,
                v@ == self.data@.subrange(self.pos as int, self.pos as int + j as int),
            decreases k - j,
        {
            v.push(self.data[self.pos + j]);
            j = j + 1;
            proof {
                assert(v@ =~= self.data@.subrange(self.pos as int, self.pos as int + j as int));
            }
        }
        self.pos = self.pos + k;
        proof {
            assert(v@ =~= old(self).remaining().take(v@.len() as int));
            assert(self.remaining() =~= old(self).remaining().skip(v@.len() as int));
        }
        Ok(v)
    }

    fn read_one(&mut self) -> (r: Result<u8, TermError>) {
        if self.pos < self.data.len() {
            let b = self.data[self.pos];
            self.pos = self.pos + 1;
            proof {
                assert(self.remaining() =~= old(self).remaining().skip(1));
            }
            Ok(b)
        } else {
            Err(TermError::Eof)
        }
    }

    fn read_rest(&mut self) -> (r: Result<Vec<u8>, TermError>) {
        let len = self.data.len();
        let start = if self.pos > len {
            len
        } else {
            self.pos
        };
        let mut v: Vec<u8> = Vec::new();
        let mut j: usize = start;
        while j < len
            invariant
                start <= j <= len,
                len == self.data@.len(),
                self == old(self),
                v@ == self.data@.subrange(start as int, j as int),
            decreases len - j,
        {
            v.push(self.data[j]);
            j = j + 1;
            proof {
                assert(v@ =~= self.data@.subrange(start as int, j as int));
            }
        }
        self.pos = len;
        proof {
            assert(v@ =~= old(self).remaining());
            assert(self.remaining() =~= Seq::<u8>::empty());
        }
        Ok(v)
    }
}

} // verus!
