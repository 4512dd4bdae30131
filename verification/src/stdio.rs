//! The process's standard streams as a byte source and a byte sink. These
//! are the trusted edges of the library: each method makes one call into the
//! standard library and is believed to behave as the sink and source
//! contracts say a stream does.

use vstd::prelude::*;
use crate::error::TermError;
use crate::sink::ByteSink;
use crate::source::ByteSource;

verus! {

#[verifier::external_type_specification]
#[verifier::external_body]
pub struct ExStdin(std::io::Stdin);

#[verifier::external_type_specification]
#[verifier::external_body]
pub struct ExStdout(std::io::Stdout);

/// Relies on std::io::stdin: a handle to the process's standard input.
#[verifier::external_body]
fn stdin_handle() -> std::io::Stdin {
    std::io::stdin()
}

/// Relies on std::io::stdout: a handle to the process's standard output; a
/// second call hands out an independent capability to the same destination.
#[verifier::external_body]
fn stdout_handle() -> std::io::Stdout {
    std::io::stdout()
}

/// Standard input as a byte source. `remaining` stands for whatever the
/// stream will still deliver, which nothing in this process can know ahead
/// of time; reads may always fail, so nothing promises success.
pub struct StdinSource {
    input: std::io::Stdin,
    remaining_bytes: Ghost<Seq<u8>>,
}

impl StdinSource {
    /// A source over standard input; what it will deliver is unknown.
    pub fn new() -> (s: StdinSource) {
        StdinSource { input: stdin_handle(), remaining_bytes: Ghost(Seq::empty()) }
    }

    /// Relies on std::io::Read::read on Stdin: one bounded read that fills a
    /// prefix of the buffer with the next bytes of the stream, and delivers
    /// zero bytes only once the stream has ended.
    #[verifier::external_body]
    fn read_chunk_from_stdin(&mut self) -> (r: Result<Vec<u8>, TermError>)
        ensures
            final(self).never_fails() == old(self).never_fails(),
            match r {
                Ok(v) => {
                    &&& v@.len() <= 128
                    &&& v@.len() <= old(self).remaining().len()
                    &&& v@ == old(self).remaining().take(v@.len() as int)
                    &&& final(self).remaining() == old(self).remaining().skip(v@.len() as int)
                    &&& (v@.len() == 0 ==> old(self).remaining().len() == 0)
                    &&& (old(self).remaining().len() > 0 ==> v@.len() > 0)
                },
                Err(e) => e == TermError::Io && final(self).remaining() == old(self).remaining(),
            },
    {
        let mut buf = [0u8; 128];
        match std::io::Read::read(&mut self.input, &mut buf) {
            Ok(n) => Ok(buf[..n.min(128)].to_vec()),
            Err(_) => Err(TermError::Io),
        }
    }

    /// Relies on std::io::Read::read_exact on Stdin: fills the one-byte
    /// buffer with the next byte, or reports the end of the stream.
    #[verifier::external_body]
    fn read_one_from_stdin(&mut self) -> (r: Result<u8, TermError>)
        ensures
            final(self).never_fails() == old(self).never_fails(),
            match r {
                Ok(b) => old(self).remaining().len() > 0 && b == old(self).remaining()[0]
                    && final(self).remaining() == old(self).remaining().skip(1),
                Err(e) => {
                    &&& (e == TermError::Eof || e == TermError::Io)
                    &&& (e == TermError::Eof ==> old(self).remaining().len() == 0 && final(self).remaining() == old(self).remaining())
                },
            },
    {
        let mut buf = [0u8; 1];
        match std::io::Read::read_exact(&mut self.input, &mut buf) {
            Ok(()) => Ok(buf[0]),
            Err(e) => {
                if e.kind() == std::io::ErrorKind::UnexpectedEof {
                    Err(TermError::Eof)
                } else {
                    Err(TermError::Io)
                }
            },
        }
    }

    /// Relies on std::io::Read::read_to_end on Stdin: everything up to the
    /// end of the stream.
    #[verifier::external_body]
    fn read_rest_from_stdin(&mut self) -> (r: Result<Vec<u8>, TermError>)
        ensures
            final(self).never_fails() == old(self).never_fails(),
            match r {
                Ok(v) => v@ == old(self).remaining() && final(self).remaining().len() == 0,
                Err(e) => e == TermError::Io,
            },
    {
        let mut v: Vec<u8> = Vec::new();
        match std::io::Read::read_to_end(&mut self.input, &mut v) {
            Ok(_) => Ok(v),
            Err(_) => Err(TermError::Io),
        }
    }
}

impl ByteSource for StdinSource {
    closed spec fn remaining(&self) -> Seq<u8> {
        self.remaining_bytes@
    }

    closed spec fn never_fails(&self) -> bool {
        false
    }

    fn read_chunk(&mut self) -> (r: Result<Vec<u8>, TermError>) {
        self.read_chunk_from_stdin()
    }

    fn read_one(&mut self) -> (r: Result<u8, TermError>) {
        self.read_one_from_stdin()
    }

    fn read_rest(&mut self) -> (r: Result<Vec<u8>, TermError>) {
        self.read_rest_from_stdin()
    }
}

/// Standard output as a byte sink. `contents` is the log of bytes handed
/// over so far; writes may always fail, so nothing promises success.
pub struct StdoutSink {
    output: std::io::Stdout,
    written: Ghost<Seq<u8>>,
}

impl StdoutSink {
    /// A sink over standard output, with nothing written through it yet.
    pub fn new() -> (s: StdoutSink)
        ensures
            s.contents() == Seq::<u8>::empty(),
            !s.never_fails(),
    {
        StdoutSink { output: stdout_handle(), written: Ghost(Seq::empty()) }
    }
}

impl StdoutSink {
    /// Relies on std::io::Write::write on Stdout: accepts some prefix of the
    /// buffer and reports how long it was, at most the buffer's length.
    #[verifier::external_body]
    fn write_some_to_stdout(&mut self, buf: &[u8]) -> (r: Result<usize, TermError>)
        ensures
            final(self).never_fails() == old(self).never_fails(),
            match r {
                Ok(n) => n <= buf@.len() && final(self).contents() == old(self).contents()
                    + buf@.take(n as int),
                Err(e) => e == TermError::Io && final(self).contents() == old(self).contents(),
            },
    {
        match std::io::Write::write(&mut self.output, buf) {
            Ok(n) => Ok(n.min(buf.len())),
            Err(_) => Err(TermError::Io),
        }
    }

    /// Relies on std::io::Write::flush on Stdout.
    #[verifier::external_body]
    fn flush_stdout(&mut self) -> (r: Result<(), TermError>)
        ensures
            final(self).never_fails() == old(self).never_fails(),
            final(self).contents() == old(self).contents(),
            r matches Err(e) ==> e == TermError::Io,
    {
        match std::io::Write::flush(&mut self.output) {
            Ok(()) => Ok(()),
            Err(_) => Err(TermError::Io),
        }
    }
}

impl ByteSink for StdoutSink {
    closed spec fn contents(&self) -> Seq<u8> {
        self.written@
    }

    closed spec fn never_fails(&self) -> bool {
        false
    }

    fn write_some(&mut self, buf: &[u8]) -> (r: Result<usize, TermError>) {
        self.write_some_to_stdout(buf)
    }

    fn flush(&mut self) -> (r: Result<(), TermError>) {
        self.flush_stdout()
    }
}

} // verus!
