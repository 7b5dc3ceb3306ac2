//! A vector of three signed 64-bit integers, and its fixed binary form: 24
//! bytes, each coordinate as eight bytes with the most significant first.

use vstd::prelude::*;
use vstd::string::*;
use crate::decimal::{push_decimal, push_signed_decimal, decimal, signed_decimal};
use crate::reply::{ContentType, Reply, ReplyView};

verus! {

/// The number of bytes in the binary form of a vector.
pub const VECTOR3DSIZE: usize = 24;

/// A vector of three coordinates.
#[derive(Clone, Copy, Debug, PartialEq, Eq, Structural)]
pub struct Vector3D {
    pub x: i64,
    pub y: i64,
    pub z: i64,
}

/// Why a body is no vector.
#[derive(Clone, Copy, Debug, PartialEq, Eq, Structural)]
pub enum DecodeError {
    /// The body does not have the one size that a vector has.
    MalformedPayload { expected_size: usize, actual_size: usize },
}

/// The unsigned number that eight bytes write, the most significant byte first.
pub open spec fn be_u64(bytes: Seq<u8>) -> int {
    bytes[0] * 0x100_0000_0000_0000 + bytes[1] * 0x1_0000_0000_0000 + bytes[2] * 0x100_0000_0000
        + bytes[3] * 0x1_0000_0000 + bytes[4] * 0x100_0000 + bytes[5] * 0x1_0000 + bytes[6] * 0x100
        + bytes[7]
}

/// The unsigned number that the first `count` bytes write.
spec fn be_prefix(bytes: Seq<u8>, count: int) -> int
    decreases count,
{
    if count <= 0 {
        0
    } else {
        be_prefix(bytes, count - 1) * 0x100 + bytes[count - 1]
    }
}

/// The number of values that `count` bytes can write, for up to eight bytes.
spec fn span(count: int) -> int {
    if count <= 0 {
        1
    } else if count == 1 {
        0x100
    } else if count == 2 {
        0x1_0000
    } else if count == 3 {
        0x100_0000
    } else if count == 4 {
        0x1_0000_0000
    } else if count == 5 {
        0x100_0000_0000
    } else if count == 6 {
        0x1_0000_0000_0000
    } else if count == 7 {
        0x100_0000_0000_0000
    } else {
        0x1_0000_0000_0000_0000
    }
}

/// The signed number that eight bytes write in two's complement, the most
/// significant byte first.
pub open spec fn be_i64(bytes: Seq<u8>) -> int {
    if be_u64(bytes) >= 0x8000_0000_0000_0000 {
        be_u64(bytes) - 0x1_0000_0000_0000_0000
    } else {
        be_u64(bytes)
    }
}

/// The unsigned number with the same 64 bits as `value`.
pub open spec fn unsigned(value: i64) -> int {
    if value < 0 {
        value + 0x1_0000_0000_0000_0000
    } else {
        value as int
    }
}

/// The eight bytes that write `value` in two's complement, the most
/// significant byte first.
pub open spec fn be_bytes(value: i64) -> Seq<u8> {
    let u = unsigned(value);
    seq![
        (u / 0x100_0000_0000_0000 % 0x100) as u8,
        (u / 0x1_0000_0000_0000 % 0x100) as u8,
        (u / 0x100_0000_0000 % 0x100) as u8,
        (u / 0x1_0000_0000 % 0x100) as u8,
        (u / 0x100_0000 % 0x100) as u8,
        (u / 0x1_0000 % 0x100) as u8,
        (u / 0x100 % 0x100) as u8,
        (u % 0x100) as u8,
    ]
}

/// What a body decodes to: a vector, if it has exactly the size of one, with
/// the coordinates in the order x, y, z; an error that tells both sizes otherwise.
pub open spec fn decoded(body: Seq<u8>) -> Result<Vector3D, DecodeError> {
    if body.len() == VECTOR3DSIZE {
        Ok(
            Vector3D {
                x: be_i64(body.subrange(0, 8)) as i64,
                y: be_i64(body.subrange(8, 16)) as i64,
                z: be_i64(body.subrange(16, 24)) as i64,
            },
        )
    } else {
        Err(
            DecodeError::MalformedPayload {
                expected_size: VECTOR3DSIZE,
                actual_size: body.len() as usize,
            },
        )
    }
}

/// The binary form of a vector.
pub open spec fn encoding(vector: Vector3D) -> Seq<u8> {
    be_bytes(vector.x) + be_bytes(vector.y) + be_bytes(vector.z)
}

/// Taken byte by byte, eight bytes write the number that their places give.
proof fn lemma_be_prefix_whole(bytes: Seq<u8>)
    ensures
        be_prefix(bytes, 8) == be_u64(bytes),
{
    reveal_with_fuel(be_prefix, 9);
}

/// The signed number that eight bytes write, the most significant byte first.
fn join_be_i64(bytes: [u8; 8]) -> (value: i64)
    ensures
        value == be_i64(bytes@),
{
    let mut u: u64 = 0;
    let mut k: usize = 0;
    while k < 8
        invariant
            k <= 8,
            u == be_prefix(bytes@, k as int),
            u < span(k as int),
        decreases 8 - k,
    {
        u = u * 0x100 + bytes[k] as u64;
        k = k + 1;
    }
    proof {
        lemma_be_prefix_whole(bytes@);
    }
    if u >= 0x8000_0000_0000_0000 {
        ((u - 0x8000_0000_0000_0000) as i64) + i64::MIN
    } else {
        u as i64
    }
}

/// Reads the signed number that the eight bytes from `at` on write.
fn read_be_i64(body: &[u8], at: usize) -> (value: i64)
    requires
        at + 8 <= body@.len(),
    ensures
        value == be_i64(body@.subrange(at as int, at + 8)),
{
    let bytes: [u8; 8] = [
        body[at],
        body[at + 1],
        body[at + 2],
        body[at + 3],
        body[at + 4],
        body[at + 5],
        body[at + 6],
        body[at + 7],
    ];
    assert(bytes@ =~= body@.subrange(at as int, at + 8));
    join_be_i64(bytes)
}

/// Appends the eight bytes that write `value`.
fn write_be_i64(out: &mut Vec<u8>, value: i64)
    ensures
        final(out)@ == old(out)@ + be_bytes(value),
{
    let u: u64 = if value < 0 {
        ((value - i64::MIN) as u64) + 0x8000_0000_0000_0000
    } else {
        value as u64
    };
    out.push((u / 0x100_0000_0000_0000 % 0x100) as u8);
    out.push((u / 0x1_0000_0000_0000 % 0x100) as u8);
    out.push((u / 0x100_0000_0000 % 0x100) as u8);
    out.push((u / 0x1_0000_0000 % 0x100) as u8);
    out.push((u / 0x100_0000 % 0x100) as u8);
    out.push((u / 0x1_0000 % 0x100) as u8);
    out.push((u / 0x100 % 0x100) as u8);
    out.push((u % 0x100) as u8);
    assert(out@ =~= old(out)@ + be_bytes(value));
}

/// A type whose values are decoded from the body of a request.
///
/// The body is handed over whole, once all of it has been received, and the
/// decoding fails with an error of the type's own, apart from any error of
/// the transport.
pub trait FromRequest: Sized {
    /// Why a body is refused.
    type Error;

    /// What each body decodes to.
    spec fn decoding(body: Seq<u8>) -> Result<Self, Self::Error>;

    /// Decodes the body of a request.
    fn from_request(body: &[u8]) -> (result: Result<Self, Self::Error>)
        ensures
            result == Self::decoding(body@),
    ;
}

impl FromRequest for Vector3D {
    type Error = DecodeError;

    open spec fn decoding(body: Seq<u8>) -> Result<Vector3D, DecodeError> {
        decoded(body)
    }

    /// Decodes a vector from the body of a request, once all of it has been
    /// received: a body of any other size than that of a vector is refused.
    fn from_request(body: &[u8]) -> (result: Result<Vector3D, DecodeError>)
        ensures
            result == decoded(body@),
    {
        if body.len() != VECTOR3DSIZE {
            return Err(
                DecodeError::MalformedPayload {
                    expected_size: VECTOR3DSIZE,
                    actual_size: body.len(),
                },
            );
        }
        let x = read_be_i64(body, 0);
        let y = read_be_i64(body, 8);
        let z = read_be_i64(body, 16);
        Ok(Vector3D { x, y, z })
    }
}

impl Vector3D {
    /// The binary form of the vector.
    pub fn encode(&self) -> (bytes: Vec<u8>)
        ensures
            bytes@ == encoding(*self),
    {
        let mut bytes: Vec<u8> = Vec::new();
        write_be_i64(&mut bytes, self.x);
        write_be_i64(&mut bytes, self.y);
        write_be_i64(&mut bytes, self.z);
        bytes
    }
}

/// The text of a vector: its coordinates in decimal, set apart by a comma and a space.
pub open spec fn rendering(vector: Vector3D) -> Seq<char> {
    signed_decimal(vector.x as int) + ", "@ + signed_decimal(vector.y as int) + ", "@
        + signed_decimal(vector.z as int)
}

/// The text that tells the client which size was expected and which came.
pub open spec fn size_message(expected_size: nat, actual_size: nat) -> Seq<char> {
    "Invalid payload size: expected "@ + decimal(expected_size) + " bytes, got "@ + decimal(
        actual_size,
    )
}

impl Vector3D {
    /// The text of the vector.
    pub fn render(&self) -> (text: String)
        ensures
            text@ == rendering(*self),
    {
        let mut text = String::new();
        push_signed_decimal(&mut text, self.x);
        text.append(", ");
        push_signed_decimal(&mut text, self.y);
        text.append(", ");
        push_signed_decimal(&mut text, self.z);
        assert(text@ =~= rendering(*self));
        text
    }
}

impl DecodeError {
    /// The text that tells the client what is wrong with the body.
    pub fn message(&self) -> (text: String)
        ensures
            self matches DecodeError::MalformedPayload { expected_size, actual_size } && text@
                == size_message(expected_size as nat, actual_size as nat),
    {
        match self {
            DecodeError::MalformedPayload { expected_size, actual_size } => {
                let mut text = String::from_str("Invalid payload size: expected ");
                push_decimal(&mut text, *expected_size as u64);
                text.append(" bytes, got ");
                push_decimal(&mut text, *actual_size as u64);
                text
            },
        }
    }

    /// The status that reports the error: the request is bad.
    pub fn status_code(&self) -> (status: u16)
        ensures
            status == 400,
    {
        400
    }

    /// The reply for a body that is no vector: the client's fault, with the
    /// message as plain text.
    pub fn reply(&self) -> (reply: Reply)
        ensures
            self matches DecodeError::MalformedPayload { expected_size, actual_size } && reply@ == (
            ReplyView {
                status: 400,
                content_type: Some(ContentType::PlainText),
                body: size_message(expected_size as nat, actual_size as nat),
            }),
    {
        Reply::with_body(self.status_code(), ContentType::PlainText, self.message())
    }
}

/// The text of the vector that lies one further along each axis.
pub fn submit(vector: &Vector3D) -> (text: String)
    requires
        vector.x < i64::MAX,
        vector.y < i64::MAX,
        vector.z < i64::MAX,
    ensures
        text@ == rendering(
            Vector3D {
                x: (vector.x + 1) as i64,
                y: (vector.y + 1) as i64,
                z: (vector.z + 1) as i64,
            },
        ),
{
    let moved = Vector3D { x: vector.x + 1, y: vector.y + 1, z: vector.z + 1 };
    moved.render()
}

} // verus!
