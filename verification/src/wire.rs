//! From the bytes that a connection delivered to the text of its message.

use vstd::prelude::*;
use vstd::utf8::*;

verus! {

/// Length of the message at the head of `stream`: the number of bytes before
/// the first NUL, or all of them where there is none.
pub open spec fn frame_len(stream: Seq<u8>) -> nat
    decreases stream.len(),
{
    if stream.len() == 0 || stream[0] == 0 {
        0
    } else {
        1 + frame_len(stream.drop_first())
    }
}

/// The message at the head of `stream`: everything before the first NUL.
pub open spec fn framed(stream: Seq<u8>) -> Seq<u8> {
    stream.take(frame_len(stream) as int)
}

/// Whether the first `n` bytes of `stream` are its message: none of them is
/// a NUL, and either a NUL follows them or the stream ends there.
pub open spec fn is_frame_len(stream: Seq<u8>, n: int) -> bool {
    &&& 0 <= n <= stream.len()
    &&& forall|i: int| 0 <= i < n ==> stream[i] != 0
    &&& n < stream.len() ==> stream[n] == 0
}

/// The frame ends within the stream, holds no NUL, and stops either at a NUL
/// or at the end of the stream.
pub proof fn lemma_frame_len(stream: Seq<u8>)
    ensures
        is_frame_len(stream, frame_len(stream) as int),
    decreases stream.len(),
{
    if stream.len() == 0 || stream[0] == 0 {
    } else {
        let rest = stream.drop_first();
        let n = frame_len(stream) as int;
        lemma_frame_len(rest);
        assert forall|i: int| 0 <= i < n implies stream[i] != 0 by {
            if i > 0 {
                assert(stream[i] == rest[i - 1]);
            }
        }
        if n < stream.len() {
            assert(stream[n] == rest[n - 1]);
        }
    }
}

/// No other length than [`frame_len`] cuts the stream at its first NUL.
pub proof fn lemma_frame_len_unique(stream: Seq<u8>, n: int)
    requires
        is_frame_len(stream, n),
    ensures
        n == frame_len(stream),
{
    lemma_frame_len(stream);
    let m = frame_len(stream) as int;
    if n < m {
        assert(stream[n] == 0);
    } else if m < n {
        assert(stream[m] == 0);
    }
}

/// Once a NUL has arrived, nothing that arrives later changes the message:
/// reading may stop there.
pub proof fn lemma_nothing_after_nul_counts(head: Seq<u8>, tail: Seq<u8>)
    requires
        head.contains(0u8),
    ensures
        framed(head + tail) == framed(head),
{
    let whole = head + tail;
    let n = frame_len(head) as int;
    lemma_frame_len(head);
    let at = choose|i: int| 0 <= i < head.len() && head[i] == 0u8;
    assert(n <= at);
    assert forall|i: int| 0 <= i < n implies whole[i] != 0 by {
        assert(whole[i] == head[i]);
    }
    assert(whole[n] == head[n]);
    lemma_frame_len_unique(whole, n);
    assert(whole.take(n) =~= head.take(n));
}

/// Whether `chunk` holds the NUL that ends a message.
pub fn has_terminator(chunk: &[u8]) -> (found: bool)
    ensures
        found == chunk@.contains(0u8),
{
    let mut i: usize = 0;
    while i < chunk.len()
        invariant
            i <= chunk.len(),
            forall|j: int| 0 <= j < i ==> chunk@[j] != 0,
        decreases chunk.len() - i,
    {
        if chunk[i] == 0 {
            return true;
        }
        i = i + 1;
    }
    false
}

/// Cuts `stream` at its first NUL byte.
pub fn frame(stream: &[u8]) -> (message: &[u8])
    ensures
        message@ == framed(stream@),
{
    let mut n: usize = 0;
    while n < stream.len() && stream[n] != 0
        invariant
            n <= stream.len(),
            forall|i: int| 0 <= i < n ==> stream@[i] != 0,
        decreases stream.len() - n,
    {
        n = n + 1;
    }
    proof {
        lemma_frame_len_unique(stream@, n as int);
    }
    vstd::slice::slice_subrange(stream, 0, n)
}

/// `std::str::from_utf8`: the text that `bytes` encode. It succeeds exactly
/// on well-formed UTF-8, and the text it returns is made of the same bytes.
#[verifier::external_body]
pub(crate) fn utf8_text(bytes: &[u8]) -> (text: Option<&str>)
    ensures
        text is Some <==> valid_utf8(bytes@),
        text matches Some(s) ==> encode_utf8(s@) == bytes@,
{
    std::str::from_utf8(bytes).ok()
}

} // verus!
