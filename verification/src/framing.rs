//! Framing: one message per line, each line ended by a line feed.
//!
//! The stream arrives in chunks of any size. A line is handed on only once
//! its line feed has arrived; what follows the last line feed waits for more.

use vstd::prelude::*;
use vstd::utf8::{decode_utf8, valid_utf8};

verus! {

/// The byte that ends a line.
pub const LINE_FEED: u8 = 0x0a;

/// A fault of the byte stream itself. It always ends the session.
#[derive(Clone, Copy, Debug, PartialEq, Eq, Structural)]
pub enum TransportError {
    /// The stream ended in the middle of a line.
    UnterminatedLine,
    /// A line that is not UTF-8 text.
    InvalidUtf8,
    /// A message that holds a line feed cannot be sent as one line.
    EmbeddedLineFeed,
}

/// No byte of `bytes` is a line feed.
pub open spec fn single_line(bytes: Seq<u8>) -> bool {
    forall|i: int| 0 <= i < bytes.len() ==> bytes[i] != LINE_FEED
}

/// What follows the last line feed of `stream`: the line that is not yet
/// complete.
pub open spec fn unfinished(stream: Seq<u8>) -> Seq<u8>
    decreases stream.len(),
{
    if stream.len() == 0 || stream.last() == LINE_FEED {
        Seq::empty()
    } else {
        unfinished(stream.drop_last()).push(stream.last())
    }
}

/// The complete lines of `stream` in their order, each without its line
/// feed.
pub open spec fn complete_lines(stream: Seq<u8>) -> Seq<Seq<u8>>
    decreases stream.len(),
{
    if stream.len() == 0 {
        Seq::empty()
    } else if stream.last() == LINE_FEED {
        complete_lines(stream.drop_last()).push(unfinished(stream.drop_last()))
    } else {
        complete_lines(stream.drop_last())
    }
}

/// The stream that carries `lines`: each followed by a line feed.
pub open spec fn framed(lines: Seq<Seq<u8>>) -> Seq<u8>
    decreases lines.len(),
{
    if lines.len() == 0 {
        Seq::empty()
    } else {
        framed(lines.drop_last()) + lines.last().push(LINE_FEED)
    }
}

/// Bytes without a line feed hold no complete line and are all unfinished.
pub proof fn single_line_is_unfinished(bytes: Seq<u8>)
    requires
        single_line(bytes),
    ensures
        unfinished(bytes) == bytes,
        complete_lines(bytes) == Seq::<Seq<u8>>::empty(),
    decreases bytes.len(),
{
    if bytes.len() > 0 {
        single_line_is_unfinished(bytes.drop_last());
        assert(bytes.drop_last().push(bytes.last()) =~= bytes);
    } else {
        assert(bytes =~= Seq::<u8>::empty());
    }
}

/// The unfinished part of a stream never holds a line feed, and neither does
/// any of its complete lines.
pub proof fn lines_hold_no_line_feed(stream: Seq<u8>)
    ensures
        single_line(unfinished(stream)),
        forall|k: int|
            0 <= k < complete_lines(stream).len() ==> single_line(
                #[trigger] complete_lines(stream)[k],
            ),
    decreases stream.len(),
{
    if stream.len() > 0 {
        let front = stream.drop_last();
        lines_hold_no_line_feed(front);
        assert forall|k: int| 0 <= k < complete_lines(stream).len() implies single_line(
            #[trigger] complete_lines(stream)[k],
        ) by {
            if k < complete_lines(front).len() {
                assert(complete_lines(stream)[k] == complete_lines(front)[k]);
            } else {
                assert(complete_lines(stream)[k] == unfinished(front));
            }
        }
    }
}

/// Appending bytes without a line feed to a stream adds no line and extends
/// what is unfinished.
pub proof fn appending_a_partial_line(stream: Seq<u8>, more: Seq<u8>)
    requires
        single_line(more),
    ensures
        complete_lines(stream + more) == complete_lines(stream),
        unfinished(stream + more) == unfinished(stream) + more,
    decreases more.len(),
{
    if more.len() == 0 {
        assert(stream + more =~= stream);
        assert(unfinished(stream) + more =~= unfinished(stream));
    } else {
        appending_a_partial_line(stream, more.drop_last());
        assert((stream + more).drop_last() =~= stream + more.drop_last());
        assert((stream + more).last() == more.last());
        assert((unfinished(stream) + more.drop_last()).push(more.last()) =~= unfinished(stream)
            + more);
    }
}

/// Reading a framed stream gives back the lines that were framed, and leaves
/// nothing unfinished.
pub proof fn framing_round_trip(lines: Seq<Seq<u8>>)
    requires
        forall|k: int| 0 <= k < lines.len() ==> single_line(#[trigger] lines[k]),
    ensures
        complete_lines(framed(lines)) == lines,
        unfinished(framed(lines)) == Seq::<u8>::empty(),
    decreases lines.len(),
{
    if lines.len() == 0 {
        assert(complete_lines(framed(lines)) =~= lines);
    } else {
        let front = lines.drop_last();
        let last = lines.last();
        framing_round_trip(front);
        appending_a_partial_line(framed(front), last);
        let stream = framed(lines);
        assert(stream.drop_last() =~= framed(front) + last);
        assert(stream.last() == LINE_FEED);
        assert(unfinished(framed(front)) + last =~= last);
        assert(front.push(last) =~= lines);
    }
}

/// Framing the complete lines of a stream and appending what is unfinished
/// gives the stream back: no byte is lost or invented.
pub proof fn framing_loses_nothing(stream: Seq<u8>)
    ensures
        framed(complete_lines(stream)) + unfinished(stream) == stream,
    decreases stream.len(),
{
    if stream.len() == 0 {
        assert(framed(complete_lines(stream)) + unfinished(stream) =~= stream);
    } else {
        let front = stream.drop_last();
        framing_loses_nothing(front);
        if stream.last() == LINE_FEED {
            let lines = complete_lines(stream);
            assert(lines.drop_last() =~= complete_lines(front));
            assert(lines.last() == unfinished(front));
            assert(framed(lines) + unfinished(stream) =~= (framed(complete_lines(front))
                + unfinished(front)).push(LINE_FEED));
            assert(front.push(LINE_FEED) =~= stream);
        } else {
            assert(framed(complete_lines(stream)) + unfinished(stream) =~= (framed(
                complete_lines(front),
            ) + unfinished(front)).push(stream.last()));
            assert(front.push(stream.last()) =~= stream);
        }
    }
}

/// How a stream is cut into chunks does not matter: the lines of two chunks
/// read one after the other are the lines of the whole.
pub proof fn chunking_does_not_matter(first: Seq<u8>, second: Seq<u8>)
    ensures
        complete_lines(first + second) == complete_lines(first) + complete_lines(
            unfinished(first) + second,
        ),
        unfinished(first + second) == unfinished(unfinished(first) + second),
    decreases second.len(),
{
    if second.len() == 0 {
        lines_hold_no_line_feed(first);
        single_line_is_unfinished(unfinished(first));
        assert(first + second =~= first);
        assert(unfinished(first) + second =~= unfinished(first));
        assert(complete_lines(first) + Seq::<Seq<u8>>::empty() =~= complete_lines(first));
    } else {
        let front = second.drop_last();
        chunking_does_not_matter(first, front);
        assert((first + second).drop_last() =~= first + front);
        assert((unfinished(first) + second).drop_last() =~= unfinished(first) + front);
        assert((first + second).last() == second.last());
        assert((unfinished(first) + second).last() == second.last());
        if second.last() == LINE_FEED {
            assert(complete_lines(first + second) =~= complete_lines(first) + complete_lines(
                unfinished(first) + second,
            ));
        }
    }
}

/// The receiving end of a stream: it holds the bytes of the line that is not
/// yet complete.
pub struct LineBuffer {
    pending: Vec<u8>,
}

impl View for LineBuffer {
    type V = Seq<u8>;

    /// The bytes that wait for their line feed.
    closed spec fn view(&self) -> Seq<u8> {
        self.pending@
    }
}

impl LineBuffer {
    #[verifier::type_invariant]
    spec fn holds_no_line_feed(self) -> bool {
        single_line(self.pending@)
    }

    /// A buffer in which nothing waits.
    pub fn new() -> (buffer: LineBuffer)
        ensures
            buffer@ == Seq::<u8>::empty(),
    {
        LineBuffer { pending: Vec::new() }
    }

    /// The number of bytes that wait for their line feed.
    pub fn pending_len(&self) -> (n: usize)
        ensures
            n == self@.len(),
    {
        self.pending.len()
    }

    /// Takes the next chunk of the stream and hands out the lines that it
    /// completes, in their order and without their line feeds. What follows
    /// the chunk's last line feed waits for the next chunk.
    pub fn feed(&mut self, chunk: &[u8]) -> (lines: Vec<Vec<u8>>)
        ensures
            lines.deep_view() == complete_lines(old(self)@ + chunk@),
            final(self)@ == unfinished(old(self)@ + chunk@),
            single_line(final(self)@),
    {
        proof {
            use_type_invariant(&*self);
            single_line_is_unfinished(self.pending@);
            lines_hold_no_line_feed(self.pending@ + chunk@);
        }
        let ghost before = self.pending@;
        let mut lines: Vec<Vec<u8>> = Vec::new();
        let mut current: Vec<u8> = Vec::new();
        let mut i: usize = 0;
        let waiting: usize = self.pending.len();
        while i < waiting
            invariant
                i <= waiting,
                waiting == self.pending.len(),
                self.pending@ == before,
                current@ == before.take(i as int),
            decreases waiting - i,
        {
            current.push(self.pending[i]);
            assert(current@ =~= before.take(i + 1));
            i += 1;
        }
        assert(before.take(waiting as int) =~= before);
        assert(before + chunk@.take(0) =~= before);
        assert(lines.deep_view() =~= Seq::<Seq<u8>>::empty());
        let mut j: usize = 0;
        while j < chunk.len()
            invariant
                j <= chunk.len(),
                lines.deep_view() == complete_lines(before + chunk@.take(j as int)),
                current@ == unfinished(before + chunk@.take(j as int)),
            decreases chunk.len() - j,
        {
            let ghost seen = before + chunk@.take(j as int);
            let ghost shown = lines.deep_view();
            assert((before + chunk@.take(j + 1)).drop_last() =~= seen);
            assert((before + chunk@.take(j + 1)).last() == chunk@[j as int]);
            if chunk[j] == LINE_FEED {
                let ghost line = current;
                lines.push(current);
                current = Vec::new();
                assert(lines@.last() == line);
                assert(line.deep_view() =~= line@);
                assert forall|k: int| 0 <= k < shown.len() implies lines.deep_view()[k]
                    == shown[k] by {
                    assert(lines@[k] == lines@.drop_last()[k]);
                }
                assert(lines.deep_view() =~= shown.push(line@));
                assert(current@ =~= Seq::<u8>::empty());
            } else {
                current.push(chunk[j]);
            }
            j += 1;
        }
        assert(chunk@.take(j as int) =~= chunk@);
        self.pending = current;
        lines
    }

    /// Called when the stream has ended: a line that was begun and never
    /// ended is a transport error.
    pub fn finish(self) -> (end: Result<(), TransportError>)
        ensures
            self@.len() == 0 ==> end is Ok,
            self@.len() > 0 ==> end == Err::<(), TransportError>(TransportError::UnterminatedLine),
    {
        if self.pending.len() == 0 {
            Ok(())
        } else {
            Err(TransportError::UnterminatedLine)
        }
    }
}

/// Executable form of `single_line`.
pub fn is_single_line(bytes: &[u8]) -> (ok: bool)
    ensures
        ok == single_line(bytes@),
{
    let mut i: usize = 0;
    while i < bytes.len()
        invariant
            i <= bytes.len(),
            forall|k: int| 0 <= k < i ==> bytes@[k] != LINE_FEED,
        decreases bytes.len() - i,
    {
        if bytes[i] == LINE_FEED {
            return false;
        }
        i += 1;
    }
    true
}

/// Appends `message` to the outgoing stream as one line. A message that
/// holds a line feed would be read as two lines: it is refused and the stream
/// stays as it was.
pub fn write_line(stream: &mut Vec<u8>, message: &[u8]) -> (sent: Result<(), TransportError>)
    ensures
        single_line(message@) ==> sent is Ok && final(stream)@ == old(stream)@ + message@.push(
            LINE_FEED,
        ),
        !single_line(message@) ==> sent == Err::<(), TransportError>(
            TransportError::EmbeddedLineFeed,
        ) && final(stream)@ == old(stream)@,
{
    if !is_single_line(message) {
        return Err(TransportError::EmbeddedLineFeed);
    }
    let ghost before = stream@;
    let mut i: usize = 0;
    while i < message.len()
        invariant
            i <= message.len(),
            stream@ == before + message@.take(i as int),
        decreases message.len() - i,
    {
        stream.push(message[i]);
        assert(stream@ =~= before + message@.take(i + 1));
        i += 1;
    }
    stream.push(LINE_FEED);
    assert(message@.take(i as int) =~= message@);
    assert(stream@ =~= before + message@.push(LINE_FEED));
    Ok(())
}

/// What `text_of_line` owes for `bytes`: the text that the bytes spell in
/// UTF-8, or the transport error for bytes that spell none.
pub open spec fn line_text(bytes: Seq<u8>) -> Result<Seq<char>, TransportError> {
    if valid_utf8(bytes) {
        Ok(decode_utf8(bytes))
    } else {
        Err(TransportError::InvalidUtf8)
    }
}

/// Whether an executable outcome is the one that `line_text` owes.
pub open spec fn text_matches(
    outcome: Result<String, TransportError>,
    owed: Result<Seq<char>, TransportError>,
) -> bool {
    match outcome {
        Ok(text) => owed == Ok::<Seq<char>, TransportError>(text@),
        Err(e) => owed == Err::<Seq<char>, TransportError>(e),
    }
}

/// Calls `String::from_utf8` of std, which hands out the text exactly when
/// the bytes are well-formed UTF-8, and then the text that they spell.
#[verifier::external_body]
fn utf8_text(bytes: Vec<u8>) -> (text: Option<String>)
    ensures
        valid_utf8(bytes@) == text.is_some(),
        text.is_some() ==> text.unwrap()@ == decode_utf8(bytes@),
{
    String::from_utf8(bytes).ok()
}

/// Reads a line as text. Bytes that are not UTF-8 are a transport error.
pub fn text_of_line(line: Vec<u8>) -> (outcome: Result<String, TransportError>)
    ensures
        text_matches(outcome, line_text(line@)),
{
    match utf8_text(line) {
        Some(text) => Ok(text),
        None => Err(TransportError::InvalidUtf8),
    }
}

} // verus!
