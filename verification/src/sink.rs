//! The byte sink capability the renderer writes through, its in-memory
//! implementation, and the write-until-consumed loop.

use vstd::prelude::*;
use vstd::slice::{slice_index_get, slice_subrange};
use crate::error::TermError;

verus! {

/// A destination for rendered bytes. `contents` is every byte the sink has
/// accepted so far, oldest first; `never_fails` says whether writes and
/// flushes through it always succeed.
pub trait ByteSink {
    /// The bytes accepted so far, in order.
    spec fn contents(&self) -> Seq<u8>;

    /// Whether every write and flush through this sink succeeds.
    spec fn never_fails(&self) -> bool;

    /// Writes some prefix of `buf` and says how much was accepted. A short
    /// write is partial progress, not success and not failure.
    fn write_some(&mut self, buf: &[u8]) -> (r: Result<usize, TermError>)
        ensures
            final(self).never_fails() == old(self).never_fails(),
            match r {
                Ok(n) => n <= buf@.len() && final(self).contents() == old(self).contents()
                    + buf@.take(n as int),
                Err(e) => e == TermError::Io && final(self).contents() == old(self).contents(),
            },
            old(self).never_fails() ==> r is Ok,
            old(self).never_fails() && buf@.len() > 0 ==> (r matches Ok(n) && n > 0),
    ;

    /// Pushes whatever the sink buffers on to the underlying destination.
    fn flush(&mut self) -> (r: Result<(), TermError>)
        ensures
            final(self).never_fails() == old(self).never_fails(),
            final(self).contents() == old(self).contents(),
            old(self).never_fails() ==> r is Ok,
            r matches Err(e) ==> e == TermError::Io,
    ;
}

/// Writes all of `buf` to the sink, looping until it is fully consumed. A
/// write that accepts zero bytes of a nonempty buffer is a fatal broken-pipe
/// condition and reported as an error.
pub fn write_all_to<S: ByteSink>(sink: &mut S, buf: &[u8]) -> (r: Result<(), TermError>)
    ensures
        final(sink).never_fails() == old(sink).never_fails(),
        match r {
            Ok(_) => final(sink).contents() == old(sink).contents() + buf@,
            Err(e) => e == TermError::Io && exists|k: int|
                0 <= k <= buf@.len() && final(sink).contents() == old(sink).contents()
                    + buf@.take(k),
        },
        old(sink).never_fails() ==> r is Ok,
{
    let mut offset: usize = 0;
    while offset < buf.len()
        invariant
            offset <= buf@.len(),
            sink.contents() == old(sink).contents() + buf@.take(offset as int),
            sink.never_fails() == old(sink).never_fails(),
        decreases buf@.len() - offset,
    {
        let chunk = slice_subrange(buf, offset, buf.len());
        match sink.write_some(chunk) {
            Ok(n) => {
                if n == 0 {
                    return Err(TermError::Io);
                }
                proof {
                    assert(buf@.take(offset as int) + chunk@.take(n as int) =~= buf@.take(
                        offset as int + n as int,
                    ));
                }
                offset = offset + n;
            },
            Err(e) => {
                return Err(e);
            },
        }
    }
    proof {
        assert(buf@.take(offset as int) =~= buf@);
    }
    Ok(())
}

/// An in-memory sink: a growable buffer that accepts every write. Lets the
/// rendered byte stream be inspected.
pub struct VecSink {
    pub data: Vec<u8>,
}

impl VecSink {
    /// A sink holding nothing yet.
    pub fn new() -> (s: VecSink)
        ensures
            s.data@.len() == 0,
            s.contents() == Seq::<u8>::empty(),
            s.never_fails(),
    {
        let s = VecSink { data: Vec::new() };
        proof {
            assert(s.data@ =~= Seq::<u8>::empty());
        }
        s
    }
}

impl ByteSink for VecSink {
    open spec fn contents(&self) -> Seq<u8> {
        self.data@
    }

    open spec fn never_fails(&self) -> bool {
        true
    }

    fn write_some(&mut self, buf: &[u8]) -> (r: Result<usize, TermError>) {
        let n = buf.len();
        let mut i: usize = 0;
        while i < n
            invariant
                i <= n,
                n == buf@.len(),
                self.data@ == old(self).data@ + buf@.take(i as int),
                self.never_fails() == old(self).never_fails(),
            decreases n - i,
        {
            self.data.push(*slice_index_get(buf, i));
            proof {
                assert(old(self).data@ + buf@.take(i as int) + seq![buf@[i as int]] =~= old(
                    self,
                ).data@ + buf@.take(i as int + 1));
            }
            i = i + 1;
        }
        proof {
            assert(buf@.take(n as int) =~= buf@);
        }
        Ok(n)
    }

    fn flush(&mut self) -> (r: Result<(), TermError>) {
        Ok(())
    }
}

} // verus!
