//! Counting newline bytes in file contents, one fixed-size chunk at a time.

use vstd::prelude::*;
use vstd::slice::slice_subrange;

verus! {

/// The byte whose occurrences define a line count.
pub const NEWLINE: u8 = 10;

/// How many times the byte `b` occurs in `s`.
pub open spec fn count_byte(s: Seq<u8>, b: u8) -> nat
    decreases s.len(),
{
    if s.len() == 0 {
        0
    } else {
        count_byte(s.drop_last(), b) + (if s.last() == b {
            1nat
        } else {
            0nat
        })
    }
}

/// How many newline bytes `s` holds: the line count of a file with contents `s`.
pub open spec fn newline_count(s: Seq<u8>) -> nat {
    count_byte(s, NEWLINE)
}

/// Occurrences of a byte never outnumber the bytes themselves.
pub proof fn lemma_count_byte_le_len(s: Seq<u8>, b: u8)
    ensures
        count_byte(s, b) <= s.len(),
    decreases s.len(),
{
    if s.len() > 0 {
        lemma_count_byte_le_len(s.drop_last(), b);
    }
}

/// Counting distributes over concatenation: the count of two pieces read in
/// sequence is the sum of their counts.
pub proof fn lemma_count_byte_concat(a: Seq<u8>, c: Seq<u8>, b: u8)
    ensures
        count_byte(a + c, b) == count_byte(a, b) + count_byte(c, b),
    decreases c.len(),
{
    if c.len() == 0 {
        assert(a + c =~= a);
    } else {
        lemma_count_byte_concat(a, c.drop_last(), b);
        assert((a + c).drop_last() =~= a + c.drop_last());
        assert((a + c).last() == c.last());
    }
}

/// Relies on bytecount::count: the number of occurrences of `b` among the
/// bytes of `haystack`.
#[verifier::external_body]
fn byte_occurrences(haystack: &[u8], b: u8) -> (r: usize)
    ensures
        r == count_byte(haystack@, b),
{
    bytecount::count(haystack, b)
}

/// The newline count of one chunk of a file's contents.
pub fn count_chunk(chunk: &[u8]) -> (r: usize)
    ensures
        r == newline_count(chunk@),
{
    byte_occurrences(chunk, NEWLINE)
}

/// The newline counts of a sequence of chunks, summed.
pub open spec fn chunked_count(chunks: Seq<Seq<u8>>) -> nat
    decreases chunks.len(),
{
    if chunks.len() == 0 {
        0
    } else {
        newline_count(chunks[0]) + chunked_count(chunks.subrange(1, chunks.len() as int))
    }
}

/// Counting a file chunk by chunk returns the newline count of the whole
/// contents, for every way of cutting the contents into chunks: the result
/// does not depend on the chunk size or on where the cuts fall.
pub proof fn lemma_chunked_count(chunks: Seq<Seq<u8>>)
    ensures
        chunked_count(chunks) == newline_count(chunks.flatten()),
    decreases chunks.len(),
{
    if chunks.len() == 0 {
        assert(newline_count(Seq::<u8>::empty()) == 0);
    } else {
        let rest = chunks.subrange(1, chunks.len() as int);
        assert(chunks.drop_first() =~= rest);
        lemma_chunked_count(rest);
        lemma_count_byte_concat(chunks[0], rest.flatten(), NEWLINE);
        assert(chunks.flatten() == chunks.first() + chunks.drop_first().flatten());
        assert(chunks.first() == chunks[0]);
    }
}

/// The Line Counter's running state for one file: the subtotal of newline
/// bytes seen so far and, as ghost state, the bytes already streamed. A file
/// is read in fixed-size chunks; each chunk is handed to `feed_chunk` until
/// the stream ends, and the subtotal then equals the newline count of the
/// whole contents.
pub struct FileCounter {
    subtotal: usize,
    seen: Ghost<Seq<u8>>,
}

impl FileCounter {
    /// The bytes streamed so far.
    pub closed spec fn seen(self) -> Seq<u8> {
        self.seen@
    }

    /// The stored subtotal is exactly the newline count of the streamed bytes.
    pub closed spec fn wf(self) -> bool {
        self.subtotal == newline_count(self.seen@)
    }

    /// A fresh counter: nothing streamed, subtotal zero.
    pub fn new() -> (r: FileCounter)
        ensures
            r.wf(),
            r.seen() == Seq::<u8>::empty(),
    {
        FileCounter { subtotal: 0, seen: Ghost(Seq::empty()) }
    }

    /// Stream one more chunk: the subtotal grows by exactly the chunk's
    /// newline count.
    pub fn feed_chunk(&mut self, chunk: &[u8])
        requires
            old(self).wf(),
            newline_count(old(self).seen()) + newline_count(chunk@) <= usize::MAX,
        ensures
            final(self).wf(),
            final(self).seen() == old(self).seen() + chunk@,
    {
        let n = count_chunk(chunk);
        proof {
            lemma_count_byte_concat(self.seen@, chunk@, NEWLINE);
        }
        self.subtotal = self.subtotal + n;
        self.seen = Ghost(self.seen@ + chunk@);
    }

    /// The newline count of everything streamed so far: after the last chunk,
    /// the file's count.
    pub fn subtotal(&self) -> (r: usize)
        requires
            self.wf(),
        ensures
            r == newline_count(self.seen()),
    {
        self.subtotal
    }
}

/// The Line Counter's single pass over one file's contents: the bytes are
/// streamed through a `FileCounter` in chunks of `chunk_size` bytes, and the
/// result is the newline count of the whole contents — whatever chunk size
/// was used and wherever the cuts fall.
pub fn count_in_chunks(content: &[u8], chunk_size: usize) -> (r: usize)
    requires
        chunk_size >= 1,
    ensures
        r == newline_count(content@),
{
    let len = content.len();
    let mut counter = FileCounter::new();
    let mut start: usize = 0;
    proof {
        assert(counter.seen() =~= content@.subrange(0, 0));
    }
    while start < len
        invariant
            counter.wf(),
            start <= len,
            len == content@.len(),
            chunk_size >= 1,
            counter.seen() == content@.subrange(0, start as int),
        decreases len - start,
    {
        let end = if len - start < chunk_size {
            len
        } else {
            start + chunk_size
        };
        let chunk = slice_subrange(content, start, end);
        proof {
            lemma_count_byte_le_len(counter.seen(), NEWLINE);
            lemma_count_byte_le_len(chunk@, NEWLINE);
        }
        counter.feed_chunk(chunk);
        proof {
            assert(counter.seen() =~= content@.subrange(0, end as int));
        }
        start = end;
    }
    proof {
        assert(content@.subrange(0, len as int) =~= content@);
    }
    counter.subtotal()
}

} // verus!
