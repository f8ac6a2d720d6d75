//! Request framing: turning a raw byte stream, delivered as fixed-size reads,
//! into one discrete request buffer, using a trailing blank-line delimiter and
//! a zero-fill heuristic for short reads.
//!
//! Each read fills a scratch buffer of a fixed size with `n` fresh bytes and
//! leaves the tail zeroed.  A read of zero bytes means the peer closed the
//! stream.  A chunk whose zero-stripped length differs from the scratch-buffer
//! length, or which ends with the delimiter, is the final chunk of the
//! request; everything before its trailing delimiter (if any) is appended and
//! framing stops.  A full chunk without the delimiter is appended whole and
//! framing continues.

use crate::util::append_prefix;
use crate::util::lemma_cloned_byte;
use vstd::prelude::*;

verus! {

/// The delimiter marking the end of a request: a blank line (CRLF CRLF).
pub open spec fn split_request_bytes() -> Seq<u8> {
    seq![13u8, 10u8, 13u8, 10u8]
}

/// `s` with every trailing zero byte removed.
pub open spec fn strip_trailing_zeros(s: Seq<u8>) -> Seq<u8>
    decreases s.len(),
{
    if s.len() == 0 {
        s
    } else if s.last() == 0u8 {
        strip_trailing_zeros(s.drop_last())
    } else {
        s
    }
}

/// Whether `s` ends with the request delimiter.
pub open spec fn ends_with_delimiter(s: Seq<u8>) -> bool {
    s.len() >= 4 && s.skip(s.len() - 4) == split_request_bytes()
}

/// The `n` bytes of a read, as they appear in a zeroed scratch buffer of
/// length `size`: the read bytes followed by zero fill.
pub open spec fn pad_chunk(c: Seq<u8>, size: nat) -> Seq<u8>
    recommends
        c.len() <= size,
{
    c + Seq::<u8>::new((size - c.len()) as nat, |i: int| 0u8)
}

/// Whether a raw scratch buffer holds the final chunk of a request: its
/// zero-stripped contents are shorter than the buffer (a short read), or they
/// end with the delimiter.
pub open spec fn chunk_is_final(raw: Seq<u8>) -> bool {
    strip_trailing_zeros(raw).len() != raw.len() || ends_with_delimiter(
        strip_trailing_zeros(raw),
    )
}

/// The bytes a chunk contributes to the request: its zero-stripped contents,
/// without the trailing delimiter when one is present.
pub open spec fn chunk_payload(raw: Seq<u8>) -> Seq<u8> {
    let s = strip_trailing_zeros(raw);
    if ends_with_delimiter(s) {
        s.take(s.len() - 4)
    } else {
        s
    }
}

/// The request framed out of a sequence of reads (each given as the bytes
/// actually read, at most `size` per read, into a scratch buffer of length
/// `size`): chunks accumulate until a zero-length read, a final chunk, or the
/// end of the sequence.
pub open spec fn framed_request(reads: Seq<Seq<u8>>, size: nat) -> Seq<u8>
    decreases reads.len(),
{
    if reads.len() == 0 {
        Seq::<u8>::empty()
    } else if reads[0].len() == 0 {
        Seq::<u8>::empty()
    } else {
        let raw = pad_chunk(reads[0], size);
        if chunk_is_final(raw) {
            chunk_payload(raw)
        } else {
            chunk_payload(raw) + framed_request(reads.skip(1), size)
        }
    }
}

/// Stripping keeps a prefix of `s`: the length of the longest prefix whose
/// last byte is not zero.
proof fn lemma_strip_is_prefix(s: Seq<u8>)
    ensures
        strip_trailing_zeros(s).len() <= s.len(),
        strip_trailing_zeros(s) == s.take(strip_trailing_zeros(s).len() as int),
    decreases s.len(),
{
    if s.len() == 0 {
    } else if s.last() == 0u8 {
        lemma_strip_is_prefix(s.drop_last());
        assert(s.drop_last().take(strip_trailing_zeros(s).len() as int) =~= s.take(
            strip_trailing_zeros(s).len() as int,
        ));
    } else {
        assert(s.take(s.len() as int) =~= s);
    }
}

/// Zero fill appended to a chunk with a nonzero last byte strips back to the
/// chunk itself.
proof fn lemma_strip_pad(c: Seq<u8>, size: nat)
    requires
        c.len() <= size,
        c.len() > 0,
        c.last() != 0u8,
    ensures
        strip_trailing_zeros(pad_chunk(c, size)) == c,
    decreases size - c.len(),
{
    let p = pad_chunk(c, size);
    if c.len() == size {
        assert(p =~= c);
    } else {
        assert(p.last() == 0u8);
        assert(p.drop_last() =~= pad_chunk(c, (size - 1) as nat));
        lemma_strip_pad(c, (size - 1) as nat);
    }
}

/// Computes the length of `data` once trailing zeros are stripped.
fn stripped_len(data: &Vec<u8>) -> (end: usize)
    ensures
        end <= data@.len(),
        data@.take(end as int) == strip_trailing_zeros(data@),
{
    let mut end: usize = data.len();
    proof {
        assert(data@.take(end as int) =~= data@);
    }
    while end > 0 && data[end - 1] == 0u8
        invariant
            end <= data@.len(),
            strip_trailing_zeros(data@.take(end as int)) == strip_trailing_zeros(data@),
        decreases end,
    {
        proof {
            assert(data@.take(end as int).drop_last() =~= data@.take(end - 1));
        }
        end = end - 1;
    }
    proof {
        lemma_strip_is_prefix(data@);
        assert(strip_trailing_zeros(data@.take(end as int)) == data@.take(end as int));
    }
    end
}

/// Removes trailing zero bytes from a byte vector in place and returns a copy
/// of the stripped vector.
pub fn remove_trailing_zeros(data: &mut Vec<u8>) -> (r: Vec<u8>)
    ensures
        final(data)@ == strip_trailing_zeros(old(data)@),
        r@ == final(data)@,
{
    let end: usize = stripped_len(data);
    data.truncate(end);
    let mut out: Vec<u8> = Vec::new();
    append_prefix(&mut out, data, end);
    proof {
        assert(out@ =~= data@);
    }
    out
}

/// Frames one request out of successive reads.  Feed it the scratch buffer of
/// each read until it reports that framing is done; the accumulated request
/// is then available.
pub struct RequestFramer {
    /// The request bytes accumulated so far.
    buffer: Vec<u8>,
    /// Whether framing has finished.
    done: bool,
}

impl RequestFramer {
    /// The request accumulated so far.
    pub closed spec fn spec_request(self) -> Seq<u8> {
        self.buffer@
    }

    /// Whether framing has finished.
    pub closed spec fn spec_done(self) -> bool {
        self.done
    }

    /// A fresh framer with an empty request.
    pub fn new() -> (r: Self)
        ensures
            r.spec_request() == Seq::<u8>::empty(),
            !r.spec_done(),
    {
        RequestFramer { buffer: Vec::new(), done: false }
    }

    /// Whether framing has finished.
    pub fn is_done(&self) -> (r: bool)
        ensures
            r == self.spec_done(),
    {
        self.done
    }

    /// The request accumulated so far.
    pub fn request(&self) -> (r: &Vec<u8>)
        ensures
            r@ == self.spec_request(),
    {
        &self.buffer
    }

    /// Hands the accumulated request over, consuming the framer.
    pub fn into_request(self) -> (r: Vec<u8>)
        ensures
            r@ == self.spec_request(),
    {
        self.buffer
    }

    /// Processes one read: `chunk` is the whole scratch buffer, `n` the number
    /// of bytes the read placed at its front (the tail is still zeroed).  A
    /// zero-length read closes the request with whatever has accumulated;
    /// otherwise the chunk is stripped and either ends the request or is
    /// appended whole.  Returns whether framing is done.
    pub fn feed(&mut self, chunk: &Vec<u8>, n: usize) -> (done: bool)
        requires
            !old(self).spec_done(),
            n <= chunk@.len(),
            forall|i: int| n <= i < chunk@.len() ==> chunk@[i] == 0u8,
        ensures
            done == final(self).spec_done(),
            n == 0 ==> final(self).spec_done() && final(self).spec_request() == old(self).spec_request(),
            n != 0 ==> final(self).spec_done() == chunk_is_final(chunk@) && final(self).spec_request()
                == old(self).spec_request() + chunk_payload(chunk@),
    {
        if n == 0 {
            self.done = true;
            return true;
        }
        let end: usize = stripped_len(chunk);
        let ghost stripped = strip_trailing_zeros(chunk@);
        let has_delimiter: bool = end >= 4 && chunk[end - 4] == 13u8 && chunk[end - 3] == 10u8
            && chunk[end - 2] == 13u8 && chunk[end - 1] == 10u8;
        proof {
            if end >= 4 {
                assert(stripped.skip(stripped.len() - 4) =~= seq![
                    chunk@[end - 4],
                    chunk@[end - 3],
                    chunk@[end - 2],
                    chunk@[end - 1],
                ]);
            }
            assert(has_delimiter == ends_with_delimiter(stripped));
        }
        if end != chunk.len() || has_delimiter {
            if has_delimiter {
                append_prefix(&mut self.buffer, chunk, end - 4);
                proof {
                    assert(chunk@.take(end - 4) =~= stripped.take(stripped.len() - 4));
                }
            } else {
                append_prefix(&mut self.buffer, chunk, end);
            }
            self.done = true;
            true
        } else {
            append_prefix(&mut self.buffer, chunk, end);
            false
        }
    }
}

/// Frames one request out of a pre-read sequence of chunks, each holding the
/// bytes of one read (at most the scratch-buffer size, which is the given
/// buffer size raised to at least the delimiter length).
pub fn frame_reads(reads: &Vec<Vec<u8>>, buffer_size: usize) -> (r: Vec<u8>)
    requires
        forall|i: int|
            0 <= i < reads@.len() ==> (#[trigger] reads@[i])@.len() <= (if buffer_size >= 4 {
                buffer_size
            } else {
                4
            }),
    ensures
        r@ == framed_request(reads.deep_view(), (if buffer_size >= 4 {
            buffer_size
        } else {
            4
        }) as nat),
{
    let size: usize = if buffer_size >= 4 {
        buffer_size
    } else {
        4
    };
    let ghost all = reads.deep_view();
    proof {
        assert forall|j: int| 0 <= j < all.len() implies all[j] == reads@[j]@ by {
            assert(all[j] =~= reads@[j]@);
        }
    }
    let mut framer = RequestFramer::new();
    let mut i: usize = 0;
    proof {
        assert(all.skip(0) =~= all);
        assert(Seq::<u8>::empty() + framed_request(all, size as nat) =~= framed_request(
            all,
            size as nat,
        ));
    }
    while i < reads.len()
        invariant
            i <= reads@.len(),
            size == (if buffer_size >= 4 {
                buffer_size
            } else {
                4
            }),
            all == reads.deep_view(),
            all.len() == reads@.len(),
            forall|j: int| 0 <= j < all.len() ==> #[trigger] all[j] == reads@[j]@,
            forall|j: int|
                0 <= j < reads@.len() ==> (#[trigger] reads@[j])@.len() <= size,
            !framer.spec_done(),
            framed_request(all, size as nat) == framer.spec_request() + framed_request(
                all.skip(i as int),
                size as nat,
            ),
        decreases reads@.len() - i,
    {
        let read: &Vec<u8> = &reads[i];
        let n: usize = read.len();
        let mut scratch: Vec<u8> = Vec::new();
        append_prefix(&mut scratch, read, n);
        proof {
            assert(scratch@ =~= read@);
        }
        scratch.resize(size, 0u8);
        proof {
            assert forall|j: int| n <= j < scratch@.len() implies scratch@[j] == 0u8 by {
                lemma_cloned_byte(0u8, scratch@[j]);
            }
            assert(scratch@ =~= pad_chunk(read@, size as nat));
            assert(all.skip(i as int)[0] == read@);
        }
        let done: bool = framer.feed(&scratch, n);
        proof {
            assert(all.skip(i as int).skip(1) =~= all.skip(i + 1));
        }
        if done {
            proof {
                if n == 0 {
                    assert(framed_request(all.skip(i as int), size as nat)
                        == Seq::<u8>::empty());
                    assert(framer.spec_request() + Seq::<u8>::empty() =~= framer.spec_request());
                } else {
                    assert(framed_request(all.skip(i as int), size as nat) == chunk_payload(
                        pad_chunk(read@, size as nat),
                    ));
                }
                assert(framer.spec_request() == framed_request(all, size as nat));
            }
            return framer.into_request();
        }
        proof {
            assert(framer.spec_request() + framed_request(all.skip(i + 1), size as nat)
                == framed_request(all, size as nat));
        }
        i = i + 1;
    }
    proof {
        assert(all.skip(i as int) =~= Seq::<Seq<u8>>::empty());
        assert(framer.spec_request() + Seq::<u8>::empty() =~= framer.spec_request());
    }
    framer.into_request()
}

/// A byte stream that ends with the delimiter and fits in the scratch buffer
/// is framed, in a single read, to exactly the bytes preceding the delimiter.
pub proof fn lemma_delimited_stream_framed(msg: Seq<u8>, size: nat)
    requires
        msg.len() + 4 <= size,
    ensures
        framed_request(seq![msg + split_request_bytes()], size) == msg,
{
    let stream = msg + split_request_bytes();
    let raw = pad_chunk(stream, size);
    assert(stream.last() == 10u8);
    lemma_strip_pad(stream, size);
    assert(stream.skip(stream.len() - 4) =~= split_request_bytes());
    assert(ends_with_delimiter(stream));
    assert(chunk_is_final(raw));
    assert(seq![stream][0] == stream);
    assert(chunk_payload(raw) =~= msg);
}

/// Full chunks without the delimiter accumulate across read iterations: when
/// the peer then closes the stream (a zero-length read), the framed request
/// is the whole accumulated content, in order.
pub proof fn lemma_full_chunks_accumulate(reads: Seq<Seq<u8>>, size: nat)
    requires
        size >= 4,
        reads.len() >= 1,
        reads.last().len() == 0,
        forall|i: int|
            0 <= i < reads.len() - 1 ==> (#[trigger] reads[i]).len() == size && reads[i].last()
                != 0u8 && !ends_with_delimiter(reads[i]),
    ensures
        framed_request(reads, size) == reads.take(reads.len() - 1).flatten(),
    decreases reads.len(),
{
    if reads.len() == 1 {
        assert(framed_request(reads, size) == Seq::<u8>::empty());
        assert(reads.take(0) =~= Seq::<Seq<u8>>::empty());
        assert(Seq::<Seq<u8>>::empty().flatten() =~= Seq::<u8>::empty());
    } else {
        let c = reads[0];
        let raw = pad_chunk(c, size);
        assert(raw =~= c);
        lemma_strip_pad(c, size);
        assert(!chunk_is_final(raw));
        assert(chunk_payload(raw) == c);
        lemma_full_chunks_accumulate(reads.skip(1), size);
        let front = reads.take(reads.len() - 1);
        assert(front.len() > 0);
        assert(front.first() == c);
        assert(front.drop_first() =~= reads.skip(1).take(reads.skip(1).len() - 1));
        assert(front.flatten() == c + front.drop_first().flatten());
        assert(framed_request(reads, size) == c + framed_request(reads.skip(1), size));
    }
}

} // verus!
