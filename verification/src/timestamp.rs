//! The timestamp codec: the single place where a stream position is turned
//! into its wire form and back.
//!
//! A `Timestamp` is a total-order position within a stream.  On the wire it
//! is exactly eight bytes, big-endian, so that the byte-wise (lexicographic)
//! order of two encodings agrees with the order of the positions themselves.

use vstd::prelude::*;

use crate::error::JournalError;

verus! {

/// A total-order position within a stream's event sequence.
///
/// Values are produced by the server on append or chosen by the caller for
/// read and release requests.  Raw bytes become a `Timestamp` only through
/// [`Timestamp::deserialize`].
#[derive(Clone, Copy, Debug, PartialEq, Eq, Structural, Hash, PartialOrd, Ord)]
pub struct Timestamp {
    pub value: u64,
}

/// The byte at offset `i` of the big-endian encoding of `v`.
pub open spec fn encoded_byte(v: u64, i: int) -> u8 {
    if i == 0 {
        (v >> 56) as u8
    } else if i == 1 {
        (v >> 48) as u8
    } else if i == 2 {
        (v >> 40) as u8
    } else if i == 3 {
        (v >> 32) as u8
    } else if i == 4 {
        (v >> 24) as u8
    } else if i == 5 {
        (v >> 16) as u8
    } else if i == 6 {
        (v >> 8) as u8
    } else {
        v as u8
    }
}

/// The eight-byte big-endian wire encoding of `t`.
pub open spec fn spec_serialize(t: Timestamp) -> Seq<u8> {
    Seq::new(8, |i: int| encoded_byte(t.value, i))
}

/// The position encoded by an eight-byte big-endian sequence.
pub open spec fn decoded(bytes: Seq<u8>) -> u64
    recommends
        bytes.len() == 8,
{
    ((bytes[0] as u64) << 56) | ((bytes[1] as u64) << 48) | ((bytes[2] as u64) << 40) | ((
    bytes[3] as u64) << 32) | ((bytes[4] as u64) << 24) | ((bytes[5] as u64) << 16) | ((
    bytes[6] as u64) << 8) | (bytes[7] as u64)
}

/// What decoding returns on each input: a position for a well-formed
/// encoding, `MalformedTimestamp` for anything of the wrong length.
pub open spec fn spec_deserialize(bytes: Seq<u8>) -> Result<Timestamp, JournalError> {
    if bytes.len() == 8 {
        Ok(Timestamp { value: decoded(bytes) })
    } else {
        Err(JournalError::MalformedTimestamp)
    }
}

/// Strict lexicographic order on byte strings: `a` comes before `b` when they
/// differ at some position and `a` holds the smaller byte there, or when `a`
/// is a proper prefix of `b`.  This is the order the wire form is compared
/// under.
pub open spec fn lex_lt(a: Seq<u8>, b: Seq<u8>) -> bool {
    (exists|k: int|
        0 <= k < a.len() && k < b.len() && a[k] < b[k] && (forall|j: int|
            0 <= j < k ==> a[j] == b[j])) || (a.len() < b.len() && (forall|j: int|
        0 <= j < a.len() ==> a[j] == b[j]))
}

impl Timestamp {
    /// The position `value`.
    pub fn new(value: u64) -> (r: Timestamp)
        ensures
            r == (Timestamp { value }),
    {
        Timestamp { value }
    }

    /// Whether `self` comes at or before `other` in the stream order.
    pub fn le(&self, other: &Timestamp) -> (r: bool)
        ensures
            r == (self.value <= other.value),
    {
        self.value <= other.value
    }

    /// Encode the position as its eight-byte big-endian wire form.
    pub fn serialize(&self) -> (r: Vec<u8>)
        ensures
            r@ == spec_serialize(*self),
    {
        let v = self.value;
        let mut out: Vec<u8> = Vec::new();
        out.push((v >> 56) as u8);
        out.push((v >> 48) as u8);
        out.push((v >> 40) as u8);
        out.push((v >> 32) as u8);
        out.push((v >> 24) as u8);
        out.push((v >> 16) as u8);
        out.push((v >> 8) as u8);
        out.push(v as u8);
        proof {
            assert(out@ =~= spec_serialize(*self));
        }
        out
    }

    /// Decode a wire form.  Exactly the inputs of length eight are accepted;
    /// every other input is structurally invalid and is rejected with
    /// `MalformedTimestamp`.
    pub fn deserialize(bytes: &[u8]) -> (r: Result<Timestamp, JournalError>)
        ensures
            r == spec_deserialize(bytes@),
    {
        if bytes.len() != 8 {
            return Err(JournalError::MalformedTimestamp);
        }
        let value = ((bytes[0] as u64) << 56) | ((bytes[1] as u64) << 48) | ((bytes[2] as u64)
            << 40) | ((bytes[3] as u64) << 32) | ((bytes[4] as u64) << 24) | ((bytes[5] as u64)
            << 16) | ((bytes[6] as u64) << 8) | (bytes[7] as u64);
        Ok(Timestamp { value })
    }
}

/// Recombining the eight big-endian bytes of `v` gives back `v`.
proof fn lemma_decoded_encoded(v: u64)
    ensures
        decoded(spec_serialize(Timestamp { value: v })) == v,
{
    assert((((v >> 56) as u8) as u64) << 56 | (((v >> 48) as u8) as u64) << 48 | (((v
        >> 40) as u8) as u64) << 40 | (((v >> 32) as u8) as u64) << 32 | (((v >> 24) as u8) as u64)
        << 24 | (((v >> 16) as u8) as u64) << 16 | (((v >> 8) as u8) as u64) << 8 | ((
    v as u8) as u64) == v) by (bit_vector);
}

/// Round trip: decoding any encoding the codec produced gives back exactly
/// the timestamp that was encoded.
pub proof fn lemma_codec_round_trip(t: Timestamp)
    ensures
        spec_deserialize(spec_serialize(t)) == Ok::<Timestamp, JournalError>(t),
{
    lemma_decoded_encoded(t.value);
}

/// If the big-endian bytes of `v1` and `v2` agree strictly before offset `k`
/// and the byte of `v1` at `k` is smaller, then `v1 < v2`.
proof fn lemma_byte_order_implies_value_order(v1: u64, v2: u64, k: int)
    requires
        0 <= k < 8,
        forall|j: int| 0 <= j < k ==> encoded_byte(v1, j) == encoded_byte(v2, j),
        encoded_byte(v1, k) < encoded_byte(v2, k),
    ensures
        v1 < v2,
{
    if k >= 1 {
        assert(encoded_byte(v1, 0) == encoded_byte(v2, 0));
    }
    if k >= 2 {
        assert(encoded_byte(v1, 1) == encoded_byte(v2, 1));
    }
    if k >= 3 {
        assert(encoded_byte(v1, 2) == encoded_byte(v2, 2));
    }
    if k >= 4 {
        assert(encoded_byte(v1, 3) == encoded_byte(v2, 3));
    }
    if k >= 5 {
        assert(encoded_byte(v1, 4) == encoded_byte(v2, 4));
    }
    if k >= 6 {
        assert(encoded_byte(v1, 5) == encoded_byte(v2, 5));
    }
    if k >= 7 {
        assert(encoded_byte(v1, 6) == encoded_byte(v2, 6));
    }
    if k == 0 {
        assert(((v1 >> 56) as u8) < ((v2 >> 56) as u8) ==> v1 < v2) by (bit_vector);
    } else if k == 1 {
        assert(((v1 >> 56) as u8) == ((v2 >> 56) as u8) && ((v1 >> 48) as u8) < ((v2 >> 48) as u8) ==> v1 < v2) by (bit_vector);
    } else if k == 2 {
        assert(((v1 >> 56) as u8) == ((v2 >> 56) as u8) && ((v1 >> 48) as u8) == ((v2 >> 48) as u8) && ((v1 >> 40) as u8) < ((v2 >> 40) as u8) ==> v1 < v2) by (bit_vector);
    } else if k == 3 {
        assert(((v1 >> 56) as u8) == ((v2 >> 56) as u8) && ((v1 >> 48) as u8) == ((v2 >> 48) as u8) && ((v1 >> 40) as u8) == ((v2 >> 40) as u8) && ((v1 >> 32) as u8) < ((v2 >> 32) as u8) ==> v1 < v2) by (bit_vector);
    } else if k == 4 {
        assert(((v1 >> 56) as u8) == ((v2 >> 56) as u8) && ((v1 >> 48) as u8) == ((v2 >> 48) as u8) && ((v1 >> 40) as u8) == ((v2 >> 40) as u8) && ((v1 >> 32) as u8) == ((v2 >> 32) as u8) && ((v1 >> 24) as u8) < ((v2 >> 24) as u8) ==> v1 < v2) by (bit_vector);
    } else if k == 5 {
        assert(((v1 >> 56) as u8) == ((v2 >> 56) as u8) && ((v1 >> 48) as u8) == ((v2 >> 48) as u8) && ((v1 >> 40) as u8) == ((v2 >> 40) as u8) && ((v1 >> 32) as u8) == ((v2 >> 32) as u8) && ((v1 >> 24) as u8) == ((v2 >> 24) as u8) && ((v1 >> 16) as u8) < ((v2 >> 16) as u8) ==> v1 < v2) by (bit_vector);
    } else if k == 6 {
        assert(((v1 >> 56) as u8) == ((v2 >> 56) as u8) && ((v1 >> 48) as u8) == ((v2 >> 48) as u8) && ((v1 >> 40) as u8) == ((v2 >> 40) as u8) && ((v1 >> 32) as u8) == ((v2 >> 32) as u8) && ((v1 >> 24) as u8) == ((v2 >> 24) as u8) && ((v1 >> 16) as u8) == ((v2 >> 16) as u8) && ((v1 >> 8) as u8) < ((v2 >> 8) as u8) ==> v1 < v2) by (bit_vector);
    } else {
        assert(((v1 >> 56) as u8) == ((v2 >> 56) as u8) && ((v1 >> 48) as u8) == ((v2 >> 48) as u8) && ((v1 >> 40) as u8) == ((v2 >> 40) as u8) && ((v1 >> 32) as u8) == ((v2 >> 32) as u8) && ((v1 >> 24) as u8) == ((v2 >> 24) as u8) && ((v1 >> 16) as u8) == ((v2 >> 16) as u8) && ((v1 >> 8) as u8) == ((v2 >> 8) as u8) && (v1 as u8) < (v2 as u8) ==> v1 < v2) by (bit_vector);
    }
}

/// The first offset at which the encodings of `v1` and `v2` differ, when they
/// differ at all.
spec fn first_diff(v1: u64, v2: u64) -> int {
    choose|k: int|
        0 <= k < 8 && encoded_byte(v1, k) != encoded_byte(v2, k) && (forall|j: int|
            0 <= j < k ==> encoded_byte(v1, j) == encoded_byte(v2, j))
}

/// Starting from an offset before which the encodings agree, there is a
/// first offset at which they differ.
proof fn lemma_first_diff_from(v1: u64, v2: u64, k: int)
    requires
        0 <= k < 8,
        forall|j: int| 0 <= j < k ==> encoded_byte(v1, j) == encoded_byte(v2, j),
        exists|j: int| k <= j < 8 && encoded_byte(v1, j) != encoded_byte(v2, j),
    ensures
        exists|d: int|
            0 <= d < 8 && encoded_byte(v1, d) != encoded_byte(v2, d) && (forall|j: int|
                0 <= j < d ==> encoded_byte(v1, j) == encoded_byte(v2, j)),
    decreases 8 - k,
{
    if encoded_byte(v1, k) == encoded_byte(v2, k) {
        let w = choose|j: int| k <= j < 8 && encoded_byte(v1, j) != encoded_byte(v2, j);
        assert(k + 1 <= w < 8 && encoded_byte(v1, w) != encoded_byte(v2, w));
        lemma_first_diff_from(v1, v2, k + 1);
    }
}

/// Two distinct positions differ at a first byte of their encodings.
proof fn lemma_first_diff_exists(v1: u64, v2: u64)
    requires
        v1 != v2,
    ensures
        exists|d: int|
            0 <= d < 8 && encoded_byte(v1, d) != encoded_byte(v2, d) && (forall|j: int|
                0 <= j < d ==> encoded_byte(v1, j) == encoded_byte(v2, j)),
{
    if forall|j: int| 0 <= j < 8 ==> encoded_byte(v1, j) == encoded_byte(v2, j) {
        assert(spec_serialize(Timestamp { value: v1 }) =~= spec_serialize(Timestamp { value: v2 }));
        lemma_decoded_encoded(v1);
        lemma_decoded_encoded(v2);
        assert(false);
    } else {
        lemma_first_diff_from(v1, v2, 0);
    }
}

/// Order preservation: the domain order of two timestamps and the
/// lexicographic order of their wire encodings always agree, so comparing
/// encoded forms byte-wise is the same as comparing the positions themselves.
pub proof fn lemma_order_preserved(t1: Timestamp, t2: Timestamp)
    ensures
        (t1.value < t2.value) <==> lex_lt(spec_serialize(t1), spec_serialize(t2)),
{
    let e1 = spec_serialize(t1);
    let e2 = spec_serialize(t2);
    if t1.value < t2.value {
        lemma_first_diff_exists(t1.value, t2.value);
        let k = first_diff(t1.value, t2.value);
        if encoded_byte(t1.value, k) > encoded_byte(t2.value, k) {
            lemma_byte_order_implies_value_order(t2.value, t1.value, k);
            assert(false);
        }
        assert(0 <= k < e1.len() && k < e2.len() && e1[k] < e2[k] && (forall|j: int|
            0 <= j < k ==> e1[j] == e2[j]));
    }
    if lex_lt(e1, e2) {
        assert(e1.len() == 8 && e2.len() == 8);
        let k = choose|k: int|
            0 <= k < e1.len() && k < e2.len() && e1[k] < e2[k] && (forall|j: int|
                0 <= j < k ==> e1[j] == e2[j]);
        assert forall|j: int| 0 <= j < k implies encoded_byte(t1.value, j) == encoded_byte(
            t2.value,
            j,
        ) by {
            assert(e1[j] == e2[j]);
        }
        assert(encoded_byte(t1.value, k) < encoded_byte(t2.value, k)) by {
            assert(e1[k] < e2[k]);
        }
        lemma_byte_order_implies_value_order(t1.value, t2.value, k);
    }
}

} // verus!
