//! What holds of the binary form of every vector.

use vstd::prelude::*;
use crate::vector::{
    be_bytes, be_i64, be_u64, decoded, encoding, unsigned, DecodeError, Vector3D, VECTOR3DSIZE,
};

verus! {

/// Eight bytes write a number that fits in 64 bits, signed and unsigned.
pub proof fn lemma_be_range(bytes: Seq<u8>)
    requires
        bytes.len() == 8,
    ensures
        0 <= be_u64(bytes) < 0x1_0000_0000_0000_0000,
        i64::MIN <= be_i64(bytes) <= i64::MAX,
{
}

/// Reading the eight bytes of a number gives the number back.
pub proof fn lemma_read_written(value: i64)
    ensures
        be_bytes(value).len() == 8,
        be_u64(be_bytes(value)) == unsigned(value),
        be_i64(be_bytes(value)) == value,
{
    let u = unsigned(value);
    let r7 = u % 0x100;
    let q7 = u / 0x100;
    let r6 = q7 % 0x100;
    let q6 = q7 / 0x100;
    let r5 = q6 % 0x100;
    let q5 = q6 / 0x100;
    let r4 = q5 % 0x100;
    let q4 = q5 / 0x100;
    let r3 = q4 % 0x100;
    let q3 = q4 / 0x100;
    let r2 = q3 % 0x100;
    let q2 = q3 / 0x100;
    let r1 = q2 % 0x100;
    let q1 = q2 / 0x100;
    assert(q7 == u / 0x100);
    assert(q6 == u / 0x1_0000);
    assert(q5 == u / 0x100_0000);
    assert(q4 == u / 0x1_0000_0000);
    assert(q3 == u / 0x100_0000_0000);
    assert(q2 == u / 0x1_0000_0000_0000);
    assert(q1 == u / 0x100_0000_0000_0000);
    assert(q1 < 0x100);
    let bytes = be_bytes(value);
    assert(bytes[0] == q1 % 0x100);
    assert(bytes[1] == r1);
    assert(bytes[2] == r2);
    assert(bytes[3] == r3);
    assert(bytes[4] == r4);
    assert(bytes[5] == r5);
    assert(bytes[6] == r6);
    assert(bytes[7] == r7);
}

/// A byte set behind a number, in base 256, comes off again as the remainder.
proof fn lemma_last_byte(head: int, byte: int)
    requires
        0 <= byte < 0x100,
    ensures
        (head * 0x100 + byte) / 0x100 == head,
        (head * 0x100 + byte) % 0x100 == byte,
{
}

/// Writing the number that eight bytes read as gives the bytes back.
pub proof fn lemma_written_read(bytes: Seq<u8>)
    requires
        bytes.len() == 8,
    ensures
        be_bytes(be_i64(bytes) as i64) == bytes,
{
    let value = be_i64(bytes) as i64;
    let u = unsigned(value);
    let h1 = bytes[0] as int;
    let h2 = h1 * 0x100 + bytes[1];
    let h3 = h2 * 0x100 + bytes[2];
    let h4 = h3 * 0x100 + bytes[3];
    let h5 = h4 * 0x100 + bytes[4];
    let h6 = h5 * 0x100 + bytes[5];
    let h7 = h6 * 0x100 + bytes[6];
    let h8 = h7 * 0x100 + bytes[7];
    assert(h8 == be_u64(bytes));
    assert(u == h8);
    lemma_last_byte(h7, bytes[7] as int);
    lemma_last_byte(h6, bytes[6] as int);
    lemma_last_byte(h5, bytes[5] as int);
    lemma_last_byte(h4, bytes[4] as int);
    lemma_last_byte(h3, bytes[3] as int);
    lemma_last_byte(h2, bytes[2] as int);
    lemma_last_byte(h1, bytes[1] as int);
    assert(u / 0x100 == h7);
    assert(u / 0x1_0000 == h6) by {
        assert(u / 0x1_0000 == (u / 0x100) / 0x100);
    }
    assert(u / 0x100_0000 == h5) by {
        assert(u / 0x100_0000 == (u / 0x1_0000) / 0x100);
    }
    assert(u / 0x1_0000_0000 == h4) by {
        assert(u / 0x1_0000_0000 == (u / 0x100_0000) / 0x100);
    }
    assert(u / 0x100_0000_0000 == h3) by {
        assert(u / 0x100_0000_0000 == (u / 0x1_0000_0000) / 0x100);
    }
    assert(u / 0x1_0000_0000_0000 == h2) by {
        assert(u / 0x1_0000_0000_0000 == (u / 0x100_0000_0000) / 0x100);
    }
    assert(u / 0x100_0000_0000_0000 == h1) by {
        assert(u / 0x100_0000_0000_0000 == (u / 0x1_0000_0000_0000) / 0x100);
    }
    assert(be_bytes(value) =~= bytes);
}

/// A body of any size but that of a vector is refused, and the error tells
/// the size that was expected and the size that came.
pub proof fn lemma_wrong_size_refused(body: Seq<u8>)
    requires
        body.len() != 24,
        body.len() <= usize::MAX,
    ensures
        decoded(body) == Err::<Vector3D, DecodeError>(
            DecodeError::MalformedPayload { expected_size: 24, actual_size: body.len() as usize },
        ),
{
}

/// The binary form of a vector has the size of one, and decodes to the vector:
/// every coordinate comes back as it was, for all 64-bit values.
pub proof fn lemma_decode_encoded(vector: Vector3D)
    ensures
        encoding(vector).len() == VECTOR3DSIZE,
        decoded(encoding(vector)) == Ok::<Vector3D, DecodeError>(vector),
{
    lemma_read_written(vector.x);
    lemma_read_written(vector.y);
    lemma_read_written(vector.z);
    let body = encoding(vector);
    assert(body.subrange(0, 8) =~= be_bytes(vector.x));
    assert(body.subrange(8, 16) =~= be_bytes(vector.y));
    assert(body.subrange(16, 24) =~= be_bytes(vector.z));
}

/// A body of the size of a vector decodes to a vector: each coordinate is the
/// number that its eight bytes write, with nothing cut off, and the binary
/// form of the vector is that body, so that no two bodies decode to the same
/// vector.
pub proof fn lemma_encode_decoded(body: Seq<u8>)
    requires
        body.len() == VECTOR3DSIZE,
    ensures
        decoded(body) is Ok,
        decoded(body)->Ok_0.x == be_i64(body.subrange(0, 8)),
        decoded(body)->Ok_0.y == be_i64(body.subrange(8, 16)),
        decoded(body)->Ok_0.z == be_i64(body.subrange(16, 24)),
        encoding(decoded(body)->Ok_0) == body,
{
    lemma_be_range(body.subrange(0, 8));
    lemma_be_range(body.subrange(8, 16));
    lemma_be_range(body.subrange(16, 24));
    lemma_written_read(body.subrange(0, 8));
    lemma_written_read(body.subrange(8, 16));
    lemma_written_read(body.subrange(16, 24));
    assert(body.subrange(0, 8) + body.subrange(8, 16) + body.subrange(16, 24) =~= body);
}

} // verus!
