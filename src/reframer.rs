//! Turns the unframed byte stream of a serial link into newline-terminated
//! lines, keeping the unterminated remainder between chunks.

use vstd::prelude::*;

verus! {

/// The line terminator, `\n`.
pub const NEWLINE: u8 = 10;

/// Whether a received byte is text. Bytes outside ASCII are dropped on arrival.
pub open spec fn is_text_byte(b: u8) -> bool {
    b < 128
}

/// The text bytes of a chunk, in order.
pub open spec fn text_of(chunk: Seq<u8>) -> Seq<u8>
    decreases chunk.len(),
{
    if chunk.len() == 0 {
        Seq::empty()
    } else if is_text_byte(chunk.last()) {
        text_of(chunk.drop_last()).push(chunk.last())
    } else {
        text_of(chunk.drop_last())
    }
}

pub open spec fn newline_free(s: Seq<u8>) -> bool {
    forall|i: int| 0 <= i < s.len() ==> #[trigger] s[i] != NEWLINE
}

/// `line` is one complete line: it ends with the terminator and holds no other.
pub open spec fn is_complete_line(line: Seq<u8>) -> bool {
    line.len() > 0 && line.last() == NEWLINE && newline_free(line.drop_last())
}

/// Length of the first complete line of `b`, terminator included (or of all
/// of `b` when it holds no terminator).
pub open spec fn first_line_len(b: Seq<u8>) -> nat
    decreases b.len(),
{
    if b.len() == 0 {
        0
    } else if b[0] == NEWLINE {
        1
    } else {
        1 + first_line_len(b.drop_first())
    }
}

/// A complete line at the front of a buffer is its first line.
pub proof fn lemma_first_line_len(line: Seq<u8>, rest: Seq<u8>)
    requires
        is_complete_line(line),
    ensures
        first_line_len(line + rest) == line.len(),
    decreases line.len(),
{
    let b = line + rest;
    if line.len() > 1 {
        assert(line[0] == line.drop_last()[0]);
        let tail = line.drop_first();
        assert(tail.drop_last() =~= line.drop_last().drop_first());
        assert(b.drop_first() =~= tail + rest);
        lemma_first_line_len(tail, rest);
    }
}

/// The bytes received but not yet handed out as complete lines.
pub struct LineBuffer {
    bytes: Vec<u8>,
}

impl View for LineBuffer {
    type V = Seq<u8>;

    closed spec fn view(&self) -> Seq<u8> {
        self.bytes@
    }
}

impl LineBuffer {
    pub fn new() -> (r: LineBuffer)
        ensures
            r@ == Seq::<u8>::empty(),
    {
        LineBuffer { bytes: Vec::new() }
    }

    /// The held bytes, as a vector.
    pub fn pending(&self) -> (r: Vec<u8>)
        ensures
            r@ == self@,
    {
        self.bytes.clone()
    }

    /// Whether the held bytes contain a complete line.
    pub fn has_line(&self) -> (r: bool)
        ensures
            r == !newline_free(self@),
    {
        let mut i: usize = 0;
        while i < self.bytes.len()
            invariant
                0 <= i <= self@.len(),
                self@ == self.bytes@,
                forall|k: int| 0 <= k < i ==> #[trigger] self@[k] != NEWLINE,
            decreases self@.len() - i,
        {
            if self.bytes[i] == NEWLINE {
                return true;
            }
            i = i + 1;
        }
        false
    }

    /// Appends the text bytes of a chunk just read; other bytes are dropped.
    pub fn push_chunk(&mut self, chunk: &[u8])
        ensures
            final(self)@ == old(self)@ + text_of(chunk@),
    {
        let mut i: usize = 0;
        while i < chunk.len()
            invariant
                0 <= i <= chunk@.len(),
                self@ == old(self)@ + text_of(chunk@.subrange(0, i as int)),
            decreases chunk@.len() - i,
        {
            let b = chunk[i];
            proof {
                assert(chunk@.subrange(0, i + 1).drop_last() =~= chunk@.subrange(0, i as int));
            }
            if b < 128 {
                self.bytes.push(b);
            }
            i = i + 1;
            assert(self@ =~= old(self)@ + text_of(chunk@.subrange(0, i as int)));
        }
        assert(chunk@.subrange(0, chunk@.len() as int) =~= chunk@);
    }

    /// Splits off the first complete line, terminator included, when there is
    /// one; the bytes after it stay held.
    pub fn take_line(&mut self) -> (r: Option<Vec<u8>>)
        ensures
            match r {
                None => newline_free(old(self)@) && final(self)@ == old(self)@,
                Some(line) => is_complete_line(line@) && old(self)@ == line@ + final(self)@,
            },
    {
        let mut i: usize = 0;
        while i < self.bytes.len()
            invariant
                0 <= i <= self@.len(),
                self@ == old(self)@,
                forall|k: int| 0 <= k < i ==> #[trigger] self@[k] != NEWLINE,
            decreases self@.len() - i,
        {
            if self.bytes[i] == NEWLINE {
                let mut rest = self.bytes.split_off(i + 1);
                std::mem::swap(&mut self.bytes, &mut rest);
                let line = rest;
                assert(line@.drop_last() =~= old(self)@.subrange(0, i as int));
                assert(old(self)@ =~= line@ + self@);
                return Some(line);
            }
            i = i + 1;
        }
        None
    }
}

} // verus!
