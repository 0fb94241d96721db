//! The reusable return buffer, and what the host reads from it for each outcome.
use vstd::prelude::*;

use crate::convert::{outcome_view, StrReturn};
use crate::error::{utf8, wire, FFIError};
use crate::error_keys::HEADER;

verus! {

/// No byte of `b` is NUL.
pub open spec fn nul_free(b: Seq<u8>) -> bool {
    forall|i: int| 0 <= i < b.len() ==> #[trigger] b[i] != 0
}

/// The longest prefix of `b` without a NUL byte: what a reader of a NUL-terminated text
/// sees of `b`.
pub open spec fn until_nul(b: Seq<u8>) -> Seq<u8>
    decreases b.len(),
{
    if b.len() == 0 || nul_free(b) {
        b
    } else {
        until_nul(b.drop_last())
    }
}

/// The bytes that stand for an outcome: nothing, the payload, or the wire text of the failure.
pub open spec fn payload_of(r: Result<Option<Seq<u8>>, FFIError>) -> Seq<u8> {
    match r {
        Ok(None) => seq![],
        Ok(Some(b)) => b,
        Err(e) => wire(e),
    }
}

/// The text that the host receives for an outcome, cut at the first NUL byte.
pub open spec fn returned_text(r: Result<Option<Seq<u8>>, FFIError>) -> Seq<u8> {
    until_nul(payload_of(r))
}

/// The bytes at the pointer that the host receives: the text and its terminator.
pub open spec fn host_bytes(r: Result<Option<Seq<u8>>, FFIError>) -> Seq<u8> {
    returned_text(r).push(0)
}

/// A prefix of `b` that is NUL-free and ends at a NUL byte or at the end is `until_nul(b)`.
pub proof fn lemma_until_nul_at(b: Seq<u8>, k: int)
    requires
        0 <= k <= b.len(),
        nul_free(b.subrange(0, k)),
        k == b.len() || b[k] == 0,
    ensures
        until_nul(b) == b.subrange(0, k),
    decreases b.len(),
{
    if b.len() == 0 || nul_free(b) {
        if k < b.len() {
            assert(b[k] != 0);
        }
        assert(b.subrange(0, k) =~= b);
    } else {
        if k == b.len() {
            assert(b.subrange(0, k) =~= b);
        }
        let d = b.drop_last();
        assert(d.subrange(0, k) =~= b.subrange(0, k));
        if k < d.len() {
            assert(d[k] == b[k]);
        }
        lemma_until_nul_at(d, k);
    }
}

/// The length of the longest NUL-free prefix of `b`.
pub fn nul_position(b: &[u8]) -> (k: usize)
    ensures
        k <= b@.len(),
        until_nul(b@) == b@.subrange(0, k as int),
{
    let n = b.len();
    let mut i: usize = 0;
    while i < n && b[i] != 0
        invariant
            i <= n,
            n == b@.len(),
            nul_free(b@.subrange(0, i as int)),
        decreases n - i,
    {
        i = i + 1;
        proof {
            assert forall|j: int| 0 <= j < i implies #[trigger] b@.subrange(0, i as int)[j] != 0 by {
                if j < i - 1 {
                    assert(b@.subrange(0, i - 1)[j] == b@[j]);
                }
            }
        }
    }
    proof {
        lemma_until_nul_at(b@, i as int);
    }
    i
}

/// The buffer whose address the host receives: the last returned text and its NUL
/// terminator. One allocation, overwritten by each return.
pub struct ReturnBuffer {
    bytes: Vec<u8>,
}

impl View for ReturnBuffer {
    type V = Seq<u8>;

    /// The text held, without its terminator.
    closed spec fn view(&self) -> Seq<u8> {
        self.bytes@.drop_last()
    }
}

impl ReturnBuffer {
    /// The text held is NUL-free and followed by one NUL byte.
    pub closed spec fn wf(&self) -> bool {
        &&& self.bytes@.len() >= 1
        &&& self.bytes@.last() == 0
        &&& nul_free(self.bytes@.drop_last())
    }

    /// A buffer that holds the empty text.
    pub fn new() -> (r: Self)
        ensures
            r.wf(),
            r@ == Seq::<u8>::empty(),
    {
        let mut bytes: Vec<u8> = Vec::new();
        bytes.push(0);
        let r = ReturnBuffer { bytes };
        proof {
            assert(r@ =~= Seq::<u8>::empty());
        }
        r
    }

    /// Overwrites the text held with `payload`, cut at its first NUL byte.
    pub fn store(&mut self, payload: &[u8])
        requires
            old(self).wf(),
        ensures
            final(self).wf(),
            final(self)@ == until_nul(payload@),
    {
        self.bytes.clear();
        let n = payload.len();
        let mut i: usize = 0;
        while i < n && payload[i] != 0
            invariant
                i <= n,
                n == payload@.len(),
                self.bytes@ == payload@.subrange(0, i as int),
                nul_free(payload@.subrange(0, i as int)),
            decreases n - i,
        {
            self.bytes.push(payload[i]);
            i = i + 1;
            proof {
                assert(self.bytes@ =~= payload@.subrange(0, i as int));
                assert forall|j: int| 0 <= j < i implies #[trigger] payload@.subrange(0, i as int)[j]
                    != 0 by {
                    if j < i - 1 {
                        assert(payload@.subrange(0, i - 1)[j] == payload@[j]);
                    }
                }
            }
        }
        let ghost text = self.bytes@;
        self.bytes.push(0);
        proof {
            lemma_until_nul_at(payload@, i as int);
            assert(self.bytes@.drop_last() =~= text);
        }
    }

    /// The text held and its terminator, whose address the host receives.
    pub fn as_c_bytes(&self) -> (r: &[u8])
        requires
            self.wf(),
        ensures
            r@ == self@.push(0),
    {
        let r = self.bytes.as_slice();
        proof {
            assert(r@ =~= self@.push(0));
        }
        r
    }
}

/// Which bytes the host is pointed at.
#[derive(Debug, Clone, Copy, PartialEq, Eq)]
pub enum ReturnSlot {
    /// The static empty text, one NUL byte: the buffer is not touched.
    Empty,
    /// The return buffer, which holds the text.
    Buffer,
}

/// Hands an outcome over: an empty text goes out as the static empty text; any other is
/// stored, cut at its first NUL byte, in the buffer. An error goes out as its wire text.
pub fn encode_return(outcome: Result<Option<Vec<u8>>, FFIError>, buffer: &mut ReturnBuffer) -> (slot: ReturnSlot)
    requires
        old(buffer).wf(),
    ensures
        final(buffer).wf(),
        returned_text(outcome_view(outcome)).len() == 0 ==> (slot is Empty && *final(buffer) == *old(buffer)),
        returned_text(outcome_view(outcome)).len() > 0 ==> (slot is Buffer && final(buffer)@
            == returned_text(outcome_view(outcome))),
{
    let bytes: Vec<u8> = match outcome {
        Ok(None) => {
            return ReturnSlot::Empty;
        },
        Ok(Some(b)) => b,
        Err(e) => e.to_wire(),
    };
    let k = nul_position(bytes.as_slice());
    if k == 0 {
        return ReturnSlot::Empty;
    }
    buffer.store(bytes.as_slice());
    ReturnSlot::Buffer
}

/// Returns `value` to the host: its bytes, or the wire text of its failure, as
/// `encode_return` hands them over.
pub fn byond_return<T: StrReturn>(value: T, buffer: &mut ReturnBuffer) -> (slot: ReturnSlot)
    requires
        old(buffer).wf(),
    ensures
        final(buffer).wf(),
        exists|r: Result<Option<Seq<u8>>, FFIError>|
            #![trigger value.returns_as(r)]
            value.returns_as(r) && (returned_text(r).len() == 0 ==> (slot is Empty && *final(buffer)
                == *old(buffer))) && (returned_text(r).len() > 0 ==> (slot is Buffer && final(buffer)@
                == returned_text(r))),
{
    let ghost v = value;
    let outcome = value.to_return();
    proof {
        assert(v.returns_as(outcome_view(outcome)));
    }
    encode_return(outcome, buffer)
}

/// Reading what the host receives for a payload, as a NUL-terminated text, gives the
/// payload up to its first NUL byte; a payload without NUL bytes comes back whole.
pub proof fn lemma_return_round_trip(b: Seq<u8>)
    ensures
        until_nul(host_bytes(Ok(Some(b)))) == until_nul(b),
        nul_free(b) ==> until_nul(host_bytes(Ok(Some(b)))) == b,
{
    let t = until_nul(b);
    lemma_until_nul_len(b);
    lemma_until_nul_at(t.push(0), t.len() as int);
    assert(t.push(0).subrange(0, t.len() as int) =~= t);
    if nul_free(b) {
        assert(until_nul(b) == b);
    }
}

/// `until_nul(b)` is a NUL-free prefix of `b`, ending at a NUL byte or at the end.
pub proof fn lemma_until_nul_len(b: Seq<u8>) -> (k: int)
    ensures
        0 <= k <= b.len(),
        until_nul(b) == b.subrange(0, k),
        nul_free(until_nul(b)),
        k == b.len() || b[k] == 0,
    decreases b.len(),
{
    if b.len() == 0 || nul_free(b) {
        assert(b.subrange(0, b.len() as int) =~= b);
        b.len() as int
    } else {
        let k = lemma_until_nul_len(b.drop_last());
        assert(b.drop_last().subrange(0, k) =~= b.subrange(0, k));
        if k == b.len() - 1 {
            let i = choose|i: int| 0 <= i < b.len() && b[i] == 0;
            if i < k {
                assert(b.subrange(0, k)[i] == b[i]);
            }
        }
        k
    }
}

/// Whatever fails, the host receives a text that starts with the header; a caller tells
/// failure from success by that prefix.
pub proof fn lemma_error_text_has_header(e: FFIError)
    ensures
        returned_text(Err(e)).len() >= utf8(HEADER@).len(),
        returned_text(Err(e)).subrange(0, utf8(HEADER@).len() as int) == utf8(HEADER@),
{
    let h = utf8(HEADER@);
    lemma_header_nul_free();
    let rest = wire(e).subrange(h.len() as int, wire(e).len() as int);
    assert(wire(e) =~= h + rest);
    let k = lemma_until_nul_len(rest);
    let w = h + rest;
    assert(w.subrange(0, h.len() + k) =~= h + rest.subrange(0, k));
    assert forall|i: int| 0 <= i < h.len() + k implies #[trigger] w.subrange(0, h.len() + k)[i] != 0 by {
        if i >= h.len() {
            assert(rest.subrange(0, k)[i - h.len()] == rest[i - h.len()]);
        }
    }
    lemma_until_nul_at(w, h.len() + k);
    assert(w.subrange(0, h.len() + k).subrange(0, h.len() as int) =~= h);
}

proof fn lemma_header_nul_free()
    ensures
        nul_free(utf8(HEADER@)),
{
    reveal_strlit("@@ERR@@");
    assert(vstd::utf8::is_ascii_chars(HEADER@));
    vstd::utf8::is_ascii_chars_encode_utf8(HEADER@);
    assert forall|i: int| 0 <= i < utf8(HEADER@).len() implies #[trigger] utf8(HEADER@)[i] != 0 by {
        assert(HEADER@[i] as u8 == utf8(HEADER@)[i]);
    }
}

/// No value and an empty value both give the host the empty text, which `encode_return`
/// hands over as the static empty text.
pub proof fn lemma_empty_returns_agree()
    ensures
        returned_text(Ok(None)).len() == 0,
        returned_text(Ok(Some(Seq::<u8>::empty()))).len() == 0,
        host_bytes(Ok(None)) == host_bytes(Ok(Some(Seq::<u8>::empty()))),
{
}

} // verus!
