//! Reassembling text lines out of a chunked byte stream.
//!
//! A streaming HTTP body arrives as byte chunks of unpredictable size; a
//! line may span several chunks and a terminator may itself be cut in two.
//! [`LineSplitter`] buffers the suffix of the input that no terminator has
//! ended yet and emits every completed line, terminator stripped, in wire
//! order.

use vstd::prelude::*;

verus! {

/// The byte that ends a line on the wire.
pub const LINE_FEED: u8 = 0x0a;

/// A carriage return just before the line feed is stripped with it.
pub const CARRIAGE_RETURN: u8 = 0x0d;

/// The views of a vector of byte lines.
pub open spec fn line_views(lines: Seq<Vec<u8>>) -> Seq<Seq<u8>> {
    lines.map_values(|l: Vec<u8>| l@)
}

/// A completed line with a trailing carriage return removed.
pub open spec fn strip_carriage_return(line: Seq<u8>) -> Seq<u8> {
    if line.len() > 0 && line.last() == CARRIAGE_RETURN {
        line.drop_last()
    } else {
        line
    }
}

/// True when no byte of `s` is a line feed.
pub open spec fn no_line_feed(s: Seq<u8>) -> bool {
    forall|i: int| 0 <= i < s.len() ==> s[i] != LINE_FEED
}

/// The splitter, one byte at a time: a line feed completes the buffered
/// line, which is emitted with a trailing carriage return stripped; any
/// other byte is buffered. Returns the lines emitted so far and the bytes
/// still buffered.
pub open spec fn split_step(buf: Seq<u8>, emitted: Seq<Seq<u8>>, input: Seq<u8>) -> (Seq<
    Seq<u8>,
>, Seq<u8>)
    decreases input.len(),
{
    if input.len() == 0 {
        (emitted, buf)
    } else if input.first() == LINE_FEED {
        split_step(Seq::empty(), emitted.push(strip_carriage_return(buf)), input.drop_first())
    } else {
        split_step(buf.push(input.first()), emitted, input.drop_first())
    }
}

/// The lines that feeding `input` to a splitter whose buffer holds `buf`
/// emits.
pub open spec fn lines_of(buf: Seq<u8>, input: Seq<u8>) -> Seq<Seq<u8>> {
    split_step(buf, Seq::empty(), input).0
}

/// The bytes still buffered after feeding `input` to a splitter whose
/// buffer holds `buf`.
pub open spec fn residue_of(buf: Seq<u8>, input: Seq<u8>) -> Seq<u8> {
    split_step(buf, Seq::empty(), input).1
}

/// Consuming one more byte from the right: a line feed empties the buffer
/// and emits it, any other byte is appended to the buffer.
proof fn lemma_split_step_snoc(buf: Seq<u8>, emitted: Seq<Seq<u8>>, input: Seq<u8>, b: u8)
    ensures
        split_step(buf, emitted, input.push(b)) == (if b == LINE_FEED {
            (
                split_step(buf, emitted, input).0.push(
                    strip_carriage_return(split_step(buf, emitted, input).1),
                ),
                Seq::<u8>::empty(),
            )
        } else {
            (split_step(buf, emitted, input).0, split_step(buf, emitted, input).1.push(b))
        }),
    decreases input.len(),
{
    if input.len() == 0 {
        reveal_with_fuel(split_step, 2);
        assert(input.push(b).drop_first() =~= Seq::<u8>::empty());
        assert(input.push(b).first() == b);
    } else {
        assert(input.push(b).first() == input.first());
        assert(input.push(b).drop_first() =~= input.drop_first().push(b));
        if input.first() == LINE_FEED {
            lemma_split_step_snoc(
                Seq::empty(),
                emitted.push(strip_carriage_return(buf)),
                input.drop_first(),
                b,
            );
        } else {
            lemma_split_step_snoc(buf.push(input.first()), emitted, input.drop_first(), b);
        }
    }
}

/// The concatenation of a sequence of byte chunks.
pub open spec fn concat_chunks(chunks: Seq<Seq<u8>>) -> Seq<u8>
    decreases chunks.len(),
{
    if chunks.len() == 0 {
        Seq::empty()
    } else {
        chunks.first() + concat_chunks(chunks.drop_first())
    }
}

/// Feeding the chunks to the splitter one after the other, starting from
/// buffer `buf` with `emitted` lines already out.
pub open spec fn split_chunks(buf: Seq<u8>, emitted: Seq<Seq<u8>>, chunks: Seq<Seq<u8>>) -> (Seq<
    Seq<u8>,
>, Seq<u8>)
    decreases chunks.len(),
{
    if chunks.len() == 0 {
        (emitted, buf)
    } else {
        let fed = split_step(buf, emitted, chunks.first());
        split_chunks(fed.1, fed.0, chunks.drop_first())
    }
}

/// Splitting a concatenation is splitting the pieces in turn: the lines of
/// `a + b` are the lines of `a` followed by the lines of `b` fed to the
/// splitter state that `a` left behind.
proof fn lemma_split_step_append(buf: Seq<u8>, emitted: Seq<Seq<u8>>, a: Seq<u8>, b: Seq<u8>)
    ensures
        split_step(buf, emitted, a + b) == split_step(
            split_step(buf, emitted, a).1,
            split_step(buf, emitted, a).0,
            b,
        ),
    decreases a.len(),
{
    if a.len() == 0 {
        assert(a + b =~= b);
    } else {
        assert((a + b).first() == a.first());
        assert((a + b).drop_first() =~= a.drop_first() + b);
        if a.first() == LINE_FEED {
            lemma_split_step_append(
                Seq::empty(),
                emitted.push(strip_carriage_return(buf)),
                a.drop_first(),
                b,
            );
        } else {
            lemma_split_step_append(buf.push(a.first()), emitted, a.drop_first(), b);
        }
    }
}

/// Chunk-boundary independence: however the wire text is cut into chunks,
/// feeding the chunks one at a time emits exactly the lines of the whole
/// text, and leaves exactly the same bytes buffered.
pub proof fn lemma_chunk_boundary_independence(
    buf: Seq<u8>,
    emitted: Seq<Seq<u8>>,
    chunks: Seq<Seq<u8>>,
)
    ensures
        split_chunks(buf, emitted, chunks) == split_step(buf, emitted, concat_chunks(chunks)),
    decreases chunks.len(),
{
    if chunks.len() == 0 {
        assert(concat_chunks(chunks) =~= Seq::<u8>::empty());
    } else {
        let fed = split_step(buf, emitted, chunks.first());
        lemma_chunk_boundary_independence(fed.1, fed.0, chunks.drop_first());
        lemma_split_step_append(buf, emitted, chunks.first(), concat_chunks(chunks.drop_first()));
    }
}

/// The lines a fresh splitter emits over any chunking are exactly the
/// lines of the concatenated text.
pub proof fn lemma_lines_chunk_independent(chunks: Seq<Seq<u8>>)
    ensures
        split_chunks(Seq::empty(), Seq::empty(), chunks).0 == lines_of(
            Seq::empty(),
            concat_chunks(chunks),
        ),
{
    lemma_chunk_boundary_independence(Seq::empty(), Seq::empty(), chunks);
}

/// Input that holds no terminator emits nothing: it is buffered whole.
proof fn lemma_split_step_quiet(buf: Seq<u8>, emitted: Seq<Seq<u8>>, input: Seq<u8>)
    requires
        no_line_feed(input),
    ensures
        split_step(buf, emitted, input) == (emitted, buf + input),
    decreases input.len(),
{
    if input.len() == 0 {
        assert(buf + input =~= buf);
    } else {
        assert(input[0] != LINE_FEED);
        lemma_split_step_quiet(buf.push(input.first()), emitted, input.drop_first());
        assert(buf.push(input.first()) + input.drop_first() =~= buf + input);
    }
}

/// A terminator split across two chunks is still detected: when the text's
/// only line feed is the first byte of the second chunk, exactly one line
/// is emitted — the first chunk, its trailing carriage return stripped.
pub proof fn lemma_terminator_split_across_chunks(a: Seq<u8>, b: Seq<u8>)
    requires
        no_line_feed(a),
        b.len() > 0,
        b.first() == LINE_FEED,
        no_line_feed(b.drop_first()),
    ensures
        split_chunks(Seq::empty(), Seq::empty(), seq![a, b]).0 == seq![strip_carriage_return(a)],
{
    let chunks = seq![a, b];
    assert(chunks.first() == a);
    assert(chunks.drop_first() =~= seq![b]);
    assert(seq![b].drop_first() =~= Seq::<Seq<u8>>::empty());
    lemma_split_step_quiet(Seq::empty(), Seq::empty(), a);
    assert(Seq::<u8>::empty() + a =~= a);
    let fed = split_step(Seq::empty(), Seq::empty(), a);
    assert(Seq::<Seq<u8>>::empty().push(strip_carriage_return(a)) =~= seq![
        strip_carriage_return(a),
    ]);
    lemma_split_step_quiet(Seq::empty(), seq![strip_carriage_return(a)], b.drop_first());
    let fed2 = split_step(fed.1, fed.0, b);
    assert(fed2.0 =~= seq![strip_carriage_return(a)]);
    reveal_with_fuel(split_chunks, 3);
}

/// Reassembles lines from a stream of byte chunks.
///
/// The buffer holds the bytes read since the last terminator; it never
/// holds a line feed. When the stream ends, whatever the buffer still
/// holds never ended in a terminator; the pipeline discards it.
pub struct LineSplitter {
    buf: Vec<u8>,
}

impl LineSplitter {
    /// The bytes read since the last line terminator.
    pub closed spec fn buffered(self) -> Seq<u8> {
        self.buf@
    }

    /// The buffer never holds a complete line terminator.
    pub open spec fn wf(self) -> bool {
        no_line_feed(self.buffered())
    }

    /// A splitter that has read nothing yet.
    pub fn new() -> (s: Self)
        ensures
            s.buffered() == Seq::<u8>::empty(),
            s.wf(),
    {
        LineSplitter { buf: Vec::new() }
    }

    /// Consumes one chunk and returns every line it completes, in wire
    /// order, terminators stripped; the trailing partial line stays
    /// buffered.
    pub fn push_chunk(&mut self, chunk: &[u8]) -> (lines: Vec<Vec<u8>>)
        requires
            old(self).wf(),
        ensures
            final(self).wf(),
            line_views(lines@) == lines_of(old(self).buffered(), chunk@),
            final(self).buffered() == residue_of(old(self).buffered(), chunk@),
    {
        let ghost buf0 = self.buf@;
        let mut out: Vec<Vec<u8>> = Vec::new();
        let mut i: usize = 0;
        while i < chunk.len()
            invariant
                i <= chunk.len(),
                no_line_feed(self.buf@),
                (line_views(out@), self.buf@) == split_step(
                    buf0,
                    Seq::empty(),
                    chunk@.take(i as int),
                ),
            decreases chunk.len() - i,
        {
            proof {
                assert(chunk@.take(i as int).push(chunk@[i as int]) =~= chunk@.take(i + 1));
                lemma_split_step_snoc(buf0, Seq::empty(), chunk@.take(i as int), chunk@[i as int]);
            }
            let b = chunk[i];
            if b == LINE_FEED {
                if self.buf.len() > 0 && self.buf[self.buf.len() - 1] == CARRIAGE_RETURN {
                    self.buf.pop();
                }
                let mut line: Vec<u8> = Vec::new();
                core::mem::swap(&mut line, &mut self.buf);
                out.push(line);
            } else {
                self.buf.push(b);
            }
            proof {
                assert(line_views(out@) =~= split_step(buf0, Seq::empty(), chunk@.take(i + 1)).0);
            }
            i = i + 1;
        }
        proof {
            assert(chunk@.take(chunk@.len() as int) =~= chunk@);
        }
        out
    }

    /// Ends the stream. The bytes of a final line that no terminator ever
    /// completed are returned so the caller can decide their fate; the
    /// pipeline in this crate discards them.
    pub fn finish(self) -> (residue: Vec<u8>)
        ensures
            residue@ == self.buffered(),
    {
        self.buf
    }
}

} // verus!
