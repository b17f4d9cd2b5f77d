//! Validated identifiers and nanosecond timestamps in their text forms.

use vstd::prelude::*;
use crate::text::{bytes_to_hex, dec_of, hex_of, u64_text};

verus! {

/// Raw identifier bytes are valid when they have exactly `size` bytes and at
/// least one of them is not zero.
pub open spec fn is_valid_id(b: Seq<u8>, size: nat) -> bool {
    b.len() == size && exists|i: int| 0 <= i < b.len() && b[i] != 0
}

/// Whether `bytes` is a valid identifier of `size` bytes.
pub fn is_valid(bytes: &[u8], size: usize) -> (r: bool)
    ensures
        r == is_valid_id(bytes@, size as nat),
{
    if bytes.len() != size {
        return false;
    }
    let mut i: usize = 0;
    while i < bytes.len()
        invariant
            i <= bytes@.len(),
            bytes@.len() == size,
            forall|j: int| 0 <= j < i ==> bytes@[j] == 0,
        decreases bytes@.len() - i,
    {
        if bytes[i] != 0 {
            assert(bytes@[i as int] != 0);
            return true;
        }
        i = i + 1;
    }
    false
}

/// Whether `trace_id` is a valid trace identifier: 16 bytes, not all zero.
pub fn is_valid_trace_id(trace_id: &Vec<u8>) -> (r: bool)
    ensures
        r == is_valid_id(trace_id@, 16),
{
    is_valid(trace_id.as_slice(), 16)
}

/// Whether `span_id` is a valid span identifier: 8 bytes, not all zero.
pub fn is_valid_span_id(span_id: &Vec<u8>) -> (r: bool)
    ensures
        r == is_valid_id(span_id@, 8),
{
    is_valid(span_id.as_slice(), 8)
}

/// A trace identifier: the lowercase hex of 16 bytes that are not all zero.
#[derive(Debug, Clone, PartialEq, Eq)]
pub struct TraceId {
    hex: String,
}

/// A span identifier: the lowercase hex of 8 bytes that are not all zero.
#[derive(Debug, Clone, PartialEq, Eq)]
pub struct SpanId {
    hex: String,
}

impl View for TraceId {
    type V = Seq<char>;

    closed spec fn view(&self) -> Seq<char> {
        self.hex@
    }
}

impl View for SpanId {
    type V = Seq<char>;

    closed spec fn view(&self) -> Seq<char> {
        self.hex@
    }
}

/// The trace identifier that `b` gives, if any.
pub open spec fn trace_id_of(b: Seq<u8>) -> Option<Seq<char>> {
    if is_valid_id(b, 16) {
        Some(hex_of(b))
    } else {
        None
    }
}

/// The span identifier that `b` gives, if any.
pub open spec fn span_id_of(b: Seq<u8>) -> Option<Seq<char>> {
    if is_valid_id(b, 8) {
        Some(hex_of(b))
    } else {
        None
    }
}

/// The view of an optional identifier.
pub open spec fn opt_view<T: View<V = Seq<char>>>(o: Option<T>) -> Option<Seq<char>> {
    match o {
        Some(t) => Some(t@),
        None => None,
    }
}

impl TraceId {
    /// Validates 16 raw bytes; all-zero or wrongly sized input is refused.
    pub fn try_from(value: &Vec<u8>) -> (r: Result<TraceId, &'static str>)
        ensures
            r is Ok <==> is_valid_id(value@, 16),
            r is Ok ==> r->Ok_0@ == hex_of(value@),
    {
        if !is_valid_trace_id(value) {
            return Err("Invalid trace id. Must be 16 bytes long and not all zeros.");
        }
        Ok(TraceId { hex: bytes_to_hex(value) })
    }

    /// The identifier as lowercase hex.
    pub fn as_str(&self) -> (r: &str)
        ensures
            r@ == self@,
    {
        self.hex.as_str()
    }
}

impl SpanId {
    /// Validates 8 raw bytes; all-zero or wrongly sized input is refused.
    pub fn try_from(value: &Vec<u8>) -> (r: Result<SpanId, &'static str>)
        ensures
            r is Ok <==> is_valid_id(value@, 8),
            r is Ok ==> r->Ok_0@ == hex_of(value@),
    {
        if !is_valid_span_id(value) {
            return Err("Invalid span id. Must be 8 bytes long and not all zeros.");
        }
        Ok(SpanId { hex: bytes_to_hex(value) })
    }

    /// The identifier as lowercase hex.
    pub fn as_str(&self) -> (r: &str)
        ensures
            r@ == self@,
    {
        self.hex.as_str()
    }
}

/// The trace identifier of `b`, or none where `b` is not a valid one.
pub fn trace_id_from(b: &Vec<u8>) -> (r: Option<TraceId>)
    ensures
        opt_view(r) == trace_id_of(b@),
{
    match TraceId::try_from(b) {
        Ok(t) => Some(t),
        Err(_) => None,
    }
}

/// The span identifier of `b`, or none where `b` is not a valid one.
pub fn span_id_from(b: &Vec<u8>) -> (r: Option<SpanId>)
    ensures
        opt_view(r) == span_id_of(b@),
{
    match SpanId::try_from(b) {
        Ok(t) => Some(t),
        Err(_) => None,
    }
}

/// A timestamp in nanoseconds, held as decimal text so that no consumer
/// loses precision.
#[derive(Debug, Clone, PartialEq, Eq)]
pub struct Nanoseconds {
    text: String,
}

impl View for Nanoseconds {
    type V = Seq<char>;

    closed spec fn view(&self) -> Seq<char> {
        self.text@
    }
}

impl Nanoseconds {
    /// The decimal text.
    pub fn as_str(&self) -> (r: &str)
        ensures
            r@ == self@,
    {
        self.text.as_str()
    }
}

impl From<u64> for Nanoseconds {
    /// The decimal text of `value`.
    fn from(value: u64) -> (r: Nanoseconds)
        ensures
            r@ == dec_of(value as nat),
    {
        Nanoseconds { text: u64_text(value) }
    }
}

impl vstd::std_specs::convert::FromSpecImpl<u64> for Nanoseconds {
    open spec fn obeys_from_spec() -> bool {
        false
    }

    open spec fn from_spec(v: u64) -> Nanoseconds {
        arbitrary()
    }
}

/// The timestamp `n` as `Nanoseconds`.
pub fn nanos(n: u64) -> (r: Nanoseconds)
    ensures
        r@ == dec_of(n as nat),
{
    Nanoseconds { text: u64_text(n) }
}

} // verus!
