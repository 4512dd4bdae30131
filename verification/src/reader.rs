//! The input event reader: raw byte reads classified into editing events.

use vstd::prelude::*;
use vstd::utf8::{decode_utf8, valid_utf8};
use crate::error::TermError;
use crate::source::ByteSource;

verus! {

/// What one byte chunk read from the stream looks like once decoded: the
/// characters `String::from_utf8_lossy` yields for it. A function of the
/// bytes alone.
pub uninterp spec fn lossy_decode(b: Seq<u8>) -> Seq<char>;

/// Relies on String::from_utf8_lossy: the result depends on the bytes alone,
/// valid UTF-8 decodes exactly as std documents, and no bytes decode to no
/// characters.
#[verifier::external_body]
fn lossy_string(b: &Vec<u8>) -> (r: String)
    ensures
        r@ == lossy_decode(b@),
        valid_utf8(b@) ==> r@ == decode_utf8(b@),
        b@.len() == 0 ==> r@.len() == 0,
{
    String::from_utf8_lossy(b).into_owned()
}

/// Relies on String::from_utf8: it succeeds exactly on valid UTF-8 and then
/// returns the string those bytes encode, as std documents.
#[verifier::external_body]
fn string_from_utf8(b: Vec<u8>) -> (r: Result<String, TermError>)
    ensures
        r is Ok <==> valid_utf8(b@),
        r matches Ok(s) ==> s@ == decode_utf8(b@),
        r matches Err(e) ==> e == TermError::Io,
{
    match String::from_utf8(b) {
        Ok(s) => Ok(s),
        Err(_) => Err(TermError::Io),
    }
}

/// An editing event handed to the line-editing loop. With no raw-mode key
/// decoding available, anything read is externally injected text.
pub enum Event {
    /// Text that arrived outside the normal render cycle.
    ExternalPrint(String),
}

/// A decoded keystroke. This backend never produces one: decoding keys needs
/// an interactive terminal.
#[derive(Clone, Copy, Debug, PartialEq, Eq, Structural)]
pub struct KeyEvent;

/// An editing command a key could be bound to. This backend has no binding
/// table, so none is ever found.
#[derive(Clone, Copy, Debug, PartialEq, Eq, Structural)]
pub struct Cmd;

/// The input side of the stream backend: blocking reads over a byte source,
/// classified into events.
pub struct StreamReader<R: ByteSource> {
    /// The stream the reader consumes.
    pub input: R,
}

impl<R: ByteSource> StreamReader<R> {
    /// A reader over the given source.
    pub fn with_source(input: R) -> (r: StreamReader<R>)
        ensures
            r.input == input,
    {
        StreamReader { input }
    }

    /// Blocks for one bounded read and reinterprets whatever bytes arrive,
    /// lossily decoded, as externally injected text. A read that delivers
    /// nothing means the stream closed: the end-of-input condition.
    pub fn wait_for_input(&mut self, _single_esc_abort: bool) -> (r: Result<Event, TermError>)
        ensures
            final(self).input.never_fails() == old(self).input.never_fails(),
            match r {
                Ok(ev) => old(self).input.remaining().len() > 0 && exists|k: int|
                    {
                        &&& 1 <= k <= 128
                        &&& k <= old(self).input.remaining().len()
                        &&& (ev matches Event::ExternalPrint(s) && s@ == lossy_decode(
                            old(self).input.remaining().take(k),
                        ))
                        &&& final(self).input.remaining() == old(self).input.remaining().skip(k)
                    },
                Err(e) => {
                    &&& (e == TermError::Eof || e == TermError::Io)
                    &&& (e == TermError::Eof ==> old(self).input.remaining().len() == 0)
                },
            },
            old(self).input.never_fails() ==> (old(self).input.remaining().len() == 0 ==> r
                == Err::<Event, TermError>(TermError::Eof)) && (old(self).input.remaining().len()
                > 0 ==> r is Ok),
    {
        match self.input.read_chunk() {
            Ok(v) => {
                if v.len() == 0 {
                    Err(TermError::Eof)
                } else {
                    let s = lossy_string(&v);
                    let ev = Event::ExternalPrint(s);
                    proof {
                        let kk: int = v@.len() as int;
                        assert((ev matches Event::ExternalPrint(s2) && s2@ == lossy_decode(
                            old(self).input.remaining().take(kk),
                        )));
                        assert(exists|k: int|
                            {
                                &&& 1 <= k <= 128
                                &&& k <= old(self).input.remaining().len()
                                &&& (ev matches Event::ExternalPrint(s2) && s2@ == lossy_decode(
                                    old(self).input.remaining().take(k),
                                ))
                                &&& self.input.remaining() == old(self).input.remaining().skip(k)
                            }) by {
                            assert({
                                &&& 1 <= kk <= 128
                                &&& kk <= old(self).input.remaining().len()
                                &&& (ev matches Event::ExternalPrint(s2) && s2@ == lossy_decode(
                                    old(self).input.remaining().take(kk),
                                ))
                                &&& self.input.remaining() == old(self).input.remaining().skip(kk)
                            });
                        }
                    }
                    Ok(ev)
                }
            },
            Err(e) => Err(e),
        }
    }

    /// Key decoding needs an interactive terminal; this backend declares the
    /// capability missing instead of guessing at keystrokes.
    pub fn next_key(&mut self, _single_esc_abort: bool) -> (r: Result<KeyEvent, TermError>)
        ensures
            r == Err::<KeyEvent, TermError>(TermError::Unsupported),
            *final(self) == *old(self),
    {
        Err(TermError::Unsupported)
    }

    /// Reads exactly one byte and reinterprets it as a character; sound only
    /// for single-byte encodings, multi-byte input is not reassembled here.
    pub fn next_char(&mut self) -> (r: Result<char, TermError>)
        ensures
            final(self).input.never_fails() == old(self).input.never_fails(),
            match r {
                Ok(c) => old(self).input.remaining().len() > 0 && c == old(self).input.remaining()[0] as char && final(self).input.remaining() == old(self).input.remaining().skip(1),
                Err(e) => {
                    &&& (e == TermError::Eof || e == TermError::Io)
                    &&& (e == TermError::Eof ==> old(self).input.remaining().len() == 0)
                },
            },
            old(self).input.never_fails() && old(self).input.remaining().len() > 0 ==> r is Ok,
            old(self).input.never_fails() && old(self).input.remaining().len() == 0 ==> r == Err::<
                char,
                TermError,
            >(TermError::Eof),
    {
        match self.input.read_one() {
            Ok(b) => Ok(b as char),
            Err(e) => Err(e),
        }
    }

    /// Drains the rest of the stream and returns it as one string; a
    /// blocking, stream-exhausting read, only sensible on a finite source.
    /// Bytes that do not decode as text are an error.
    pub fn read_pasted_text(&mut self) -> (r: Result<String, TermError>)
        ensures
            final(self).input.never_fails() == old(self).input.never_fails(),
            match r {
                Ok(s) => {
                    &&& valid_utf8(old(self).input.remaining())
                    &&& s@ == decode_utf8(old(self).input.remaining())
                    &&& final(self).input.remaining().len() == 0
                },
                Err(e) => e == TermError::Io,
            },
            old(self).input.never_fails() && valid_utf8(old(self).input.remaining()) ==> r is Ok,
    {
        match self.input.read_rest() {
            Ok(v) => string_from_utf8(v),
            Err(e) => Err(e),
        }
    }

    /// This backend has no binding table: no key is ever bound.
    pub fn find_binding(&self, _key: &KeyEvent) -> (r: Option<Cmd>)
        ensures
            r is None,
    {
        None
    }

    /// Nothing is buffered ahead of the stream, so nothing can be handed
    /// back.
    pub fn unbuffer(self) -> (r: Option<()>)
        ensures
            r is None,
    {
        None
    }
}

} // verus!
