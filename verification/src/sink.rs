//! Sinks that rendered text flows into, and the adapter that drives a
//! byte-oriented sink through the text-oriented rendering path.
//!
//! A text sink takes a full text payload at a time and answers with a generic
//! success/failure result.  A byte sink takes raw bytes and answers with a
//! rich error.  The adapter bridges the two error domains: it records the
//! byte sink's error in a pending slot and reports the generic text failure,
//! so the original error can be surfaced once the text-oriented call returns.

use vstd::prelude::*;
use vstd::utf8::encode_utf8;

use crate::error::{IoError, RenderError};

verus! {

/// A destination for rendered text.
///
/// The model is the text written so far (`content`), a well-formedness
/// condition every write preserves (`wf`), and a reliability mark
/// (`reliable`): a reliable sink accepts every write and stays reliable.
pub trait TextSink {
    /// The text this sink has accepted so far.
    spec fn content(&self) -> Seq<char>;

    /// Whether every write to this sink succeeds.
    spec fn reliable(&self) -> bool;

    /// Well-formedness of the sink, preserved by every write.
    spec fn wf(&self) -> bool;

    /// Writes a full text payload, appending it to the accepted content, or
    /// fails generically and leaves the accepted content unchanged.
    fn write_text(&mut self, text: &str) -> (r: Result<(), RenderError>)
        requires
            old(self).wf(),
        ensures
            final(self).wf(),
            old(self).reliable() ==> (r is Ok && final(self).reliable()),
            r is Ok ==> final(self).content() == old(self).content() + text@,
            r is Err ==> final(self).content() == old(self).content(),
    ;
}

impl TextSink for String {
    open spec fn content(&self) -> Seq<char> {
        self@
    }

    open spec fn reliable(&self) -> bool {
        true
    }

    open spec fn wf(&self) -> bool {
        true
    }

    fn write_text(&mut self, text: &str) -> (r: Result<(), RenderError>) {
        self.append(text);
        Ok(())
    }
}

/// A destination for raw bytes, with a rich error domain.
///
/// The model is the bytes written so far (`bytes`) and a reliability mark.
/// A failed write may still have appended a prefix of the payload: byte
/// sinks are not transactional.
pub trait ByteSink {
    /// The bytes this sink has accepted so far.
    spec fn bytes(&self) -> Seq<u8>;

    /// Whether every write to this sink succeeds.
    spec fn reliable(&self) -> bool;

    /// Writes a byte payload, appending it to the accepted bytes, or fails
    /// with a rich error after appending some prefix of the payload.
    fn write_bytes(&mut self, data: &[u8]) -> (r: Result<(), IoError>)
        ensures
            old(self).reliable() ==> (r is Ok && final(self).reliable()),
            r is Ok ==> final(self).bytes() == old(self).bytes() + data@,
            r is Err ==> exists|n: int|
                0 <= n <= data@.len() && final(self).bytes() == old(self).bytes()
                    + data@.subrange(0, n),
    ;
}

/// Appends the first `count` bytes of `data` to `vec`.
fn push_prefix(vec: &mut Vec<u8>, data: &[u8], count: usize)
    requires
        count <= data@.len(),
    ensures
        final(vec)@ == old(vec)@ + data@.subrange(0, count as int),
{
    let mut i: usize = 0;
    while i < count
        invariant
            0 <= i <= count <= data@.len(),
            vec@ == old(vec)@ + data@.subrange(0, i as int),
        decreases count - i,
    {
        proof {
            assert(old(vec)@ + data@.subrange(0, i as int) + seq![data@[i as int]] =~= old(vec)@
                + data@.subrange(0, i + 1));
        }
        vec.push(data[i]);
        i += 1;
    }
}

impl ByteSink for Vec<u8> {
    open spec fn bytes(&self) -> Seq<u8> {
        self@
    }

    open spec fn reliable(&self) -> bool {
        true
    }

    fn write_bytes(&mut self, data: &[u8]) -> (r: Result<(), IoError>) {
        push_prefix(self, data, data.len());
        proof {
            assert(data@.subrange(0, data@.len() as int) =~= data@);
        }
        Ok(())
    }
}

/// A byte sink with a fixed capacity: it accepts bytes until the capacity is
/// reached, then fails with its configured system error code, keeping the
/// prefix that still fit.  Such a sink is deliberately unreliable; it stands
/// in for any destination that can run out of room.
pub struct LimitedSink {
    /// The bytes accepted so far.
    pub data: Vec<u8>,
    /// How many bytes this sink accepts in total.
    pub capacity: usize,
    /// The system error code reported when the capacity is exceeded.
    pub code: i32,
}

impl LimitedSink {
    /// Creates an empty sink accepting up to `capacity` bytes.
    pub fn new(capacity: usize, code: i32) -> (r: LimitedSink)
        ensures
            r.bytes() == Seq::<u8>::empty(),
            r.capacity == capacity,
            r.code == code,
    {
        LimitedSink { data: Vec::new(), capacity, code }
    }
}

impl ByteSink for LimitedSink {
    open spec fn bytes(&self) -> Seq<u8> {
        self.data@
    }

    open spec fn reliable(&self) -> bool {
        false
    }

    fn write_bytes(&mut self, data: &[u8]) -> (r: Result<(), IoError>)
        ensures
            old(self).data@.len() + data@.len() <= old(self).capacity ==> r is Ok,
            old(self).data@.len() + data@.len() > old(self).capacity ==> r == Err::<
                (),
                IoError,
            >(IoError::Os(old(self).code)),
            r is Err ==> final(self).data@ == old(self).data@ + data@.subrange(
                0,
                if old(self).data@.len() < old(self).capacity {
                    old(self).capacity - old(self).data@.len()
                } else {
                    0
                },
            ),
            final(self).capacity == old(self).capacity,
            final(self).code == old(self).code,
    {
        let len = self.data.len();
        if data.len() <= self.capacity && len <= self.capacity - data.len() {
            push_prefix(&mut self.data, data, data.len());
            proof {
                assert(data@.subrange(0, data@.len() as int) =~= data@);
            }
            Ok(())
        } else {
            let avail = if len < self.capacity {
                self.capacity - len
            } else {
                0
            };
            let take = if avail < data.len() {
                avail
            } else {
                data.len()
            };
            push_prefix(&mut self.data, data, take);
            Err(IoError::Os(self.code))
        }
    }
}

/// Encoding text to UTF-8 distributes over concatenation.
pub proof fn lemma_encode_utf8_concat(a: Seq<char>, b: Seq<char>)
    ensures
        encode_utf8(a + b) == encode_utf8(a) + encode_utf8(b),
    decreases a.len(),
{
    if a.len() == 0 {
        assert(a + b =~= b);
        assert(encode_utf8(a) + encode_utf8(b) =~= encode_utf8(b));
    } else {
        assert((a + b)[0] == a[0]);
        assert((a + b).drop_first() =~= a.drop_first() + b);
        lemma_encode_utf8_concat(a.drop_first(), b);
        assert(encode_utf8(a + b) =~= encode_utf8(a) + encode_utf8(b));
    }
}

/// Bridges a byte sink into the text-oriented rendering path.
///
/// The adapter writes the UTF-8 bytes of each text payload to the wrapped
/// byte sink.  On failure it records the byte sink's rich error in a pending
/// slot and reports the generic text failure; [`IoAdapter::finish`] then
/// surfaces the recorded error, or synthesizes a generic one when the text
/// path failed without any byte fault.
pub struct IoAdapter<'a, W: ByteSink> {
    sink: &'a mut W,
    err: Option<IoError>,
    base: Ghost<Seq<u8>>,
    written: Ghost<Seq<char>>,
}

impl<'a, W: ByteSink> IoAdapter<'a, W> {
    /// The byte sink error recorded by a failed write, if any.
    pub closed spec fn pending(&self) -> Option<IoError> {
        self.err
    }

    /// Wraps a byte sink.
    pub fn new(sink: &'a mut W) -> (r: IoAdapter<'a, W>)
        ensures
            r.wf(),
            r.content() == Seq::<char>::empty(),
            r.pending() is None,
            r.reliable() == old(sink).reliable(),
    {
        let ghost base = sink.bytes();
        IoAdapter { sink, err: None, base: Ghost(base), written: Ghost(Seq::empty()) }
    }

    /// Concludes the bridged call: reports success when the text-oriented
    /// call succeeded, otherwise surfaces the recorded byte sink error, or a
    /// synthesized generic one when none was recorded.
    pub fn finish(self, rendered_ok: bool) -> (r: Result<(), IoError>)
        ensures
            rendered_ok ==> r is Ok,
            !rendered_ok ==> match self.pending() {
                Some(e) => r == Err::<(), IoError>(e),
                None => r == Err::<(), IoError>(IoError::Other),
            },
    {
        if rendered_ok {
            Ok(())
        } else {
            match self.err {
                Some(e) => Err(e),
                None => Err(IoError::Other),
            }
        }
    }
}

impl<'a, W: ByteSink> TextSink for IoAdapter<'a, W> {
    closed spec fn content(&self) -> Seq<char> {
        self.written@
    }

    closed spec fn reliable(&self) -> bool {
        (*self.sink).reliable() && self.err is None
    }

    closed spec fn wf(&self) -> bool {
        self.err is None ==> (*self.sink).bytes() == self.base@ + encode_utf8(self.written@)
    }

    fn write_text(&mut self, text: &str) -> (r: Result<(), RenderError>)
        ensures
            r is Ok ==> final(self).pending() == old(self).pending(),
            r is Err ==> final(self).pending() is Some,
    {
        match self.sink.write_bytes(text.as_bytes()) {
            Ok(()) => {
                proof {
                    lemma_encode_utf8_concat(self.written@, text@);
                    if self.err is None {
                        assert((*self.sink).bytes() =~= self.base@ + encode_utf8(
                            self.written@ + text@,
                        ));
                    }
                }
                self.written = Ghost(self.written@ + text@);
                Ok(())
            },
            Err(e) => {
                self.err = Some(e);
                Err(RenderError::Fmt)
            },
        }
    }
}

} // verus!
