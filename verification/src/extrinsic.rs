//! The frame of a ledger transaction as a relayer reads it: a compact length prefix, a
//! version byte that also says whether the transaction is signed, and the body whose
//! length the prefix announced.

use parity_scale_codec::Decode;
use vstd::prelude::*;

verus! {

/// The transaction format that is understood.
pub const EXTRINSIC_FORMAT_VERSION: u8 = 4;

/// Why a transaction frame was not accepted.
#[derive(Clone, Copy, Debug, PartialEq, Eq, Structural)]
pub enum ExtrinsicError {
    /// The input ends before the length prefix or the version byte is complete, or the
    /// length prefix is not in its shortest form or beyond 32 bits.
    Codec,
    /// The version byte names another format than the one understood.
    InvalidVersion,
    /// The body that was read is not as long as the prefix announced.
    InvalidLengthPrefix,
}

/// The little-endian number that the first `n` bytes of `bytes` write.
pub open spec fn le_value(bytes: Seq<u8>, n: nat) -> nat
    decreases n,
{
    if n == 0 || bytes.len() < n {
        0
    } else {
        le_value(bytes, (n - 1) as nat) + bytes[n - 1] as nat * pow256((n - 1) as nat)
    }
}

/// 256 to the power of `n`.
pub open spec fn pow256(n: nat) -> nat
    decreases n,
{
    if n == 0 {
        1
    } else {
        256 * pow256((n - 1) as nat)
    }
}

/// The number that a compact length prefix at the start of `bytes` writes, and how many
/// bytes it takes.
///
/// The two low bits of the first byte choose the form. Form 0 keeps the number in the
/// six other bits of that byte. Forms 1 and 2 keep it in the upper bits of two and four
/// bytes, little-endian. Form 3, with the six other bits zero, keeps it in the four bytes
/// that follow. A number must be written in the shortest form that holds it; anything
/// else, and input that ends too early, writes no number.
pub open spec fn compact_u32(bytes: Seq<u8>) -> Option<(u32, nat)> {
    if bytes.len() == 0 {
        None
    } else if bytes[0] % 4 == 0 {
        Some(((bytes[0] / 4) as u32, 1))
    } else if bytes[0] % 4 == 1 {
        if bytes.len() < 2 || le_value(bytes, 2) / 4 <= 0x3f {
            None
        } else {
            Some(((le_value(bytes, 2) / 4) as u32, 2))
        }
    } else if bytes[0] % 4 == 2 {
        if bytes.len() < 4 || le_value(bytes, 4) / 4 <= 0x3fff {
            None
        } else {
            Some(((le_value(bytes, 4) / 4) as u32, 4))
        }
    } else {
        if bytes[0] / 4 != 0 || bytes.len() < 5 || le_value(bytes.subrange(1, 5), 4) <= 0x3fff_ffff {
            None
        } else {
            Some((le_value(bytes.subrange(1, 5), 4) as u32, 5))
        }
    }
}

/// Reads a compact length prefix from the start of `input`, with the decoding of
/// `parity_scale_codec::Compact<u32>`. The number comes back with the count of bytes
/// that are left after it.
///
/// Trusted: a number comes back exactly where `compact_u32` has one for the input, it is
/// that number, and what is left is the input less the bytes that `compact_u32` counts.
#[verifier::external_body]
pub(crate) fn read_compact_u32(input: &[u8]) -> (read: Option<(u32, usize)>)
    ensures
        match read {
            Some((value, left)) => left <= input@.len() && compact_u32(input@) == Some(
                (value, (input@.len() - left) as nat),
            ),
            None => compact_u32(input@).is_none(),
        },
{
    let mut rest: &[u8] = input;
    match parity_scale_codec::Compact::<u32>::decode(&mut rest) {
        Ok(value) => Some((value.0, rest.len())),
        Err(_) => None,
    }
}

/// What the start of a transaction says of it.
#[derive(Clone, Copy, Debug, PartialEq, Eq, Structural)]
pub struct ExtrinsicHeader {
    /// The length that the prefix announces for version byte and body together.
    pub expected_length: u32,
    /// Whether a signature stands before the call.
    pub is_signed: bool,
    /// How many bytes of input were left before the version byte.
    pub before_length: usize,
    /// Where the body begins in the input.
    pub body_start: usize,
}

/// The header at the start of `bytes`.
///
/// The length prefix must be a compact number (else `Codec`), a version byte must follow
/// it (else `Codec`), and the low seven bits of that byte must name the format understood
/// (else `InvalidVersion`). The high bit says whether the transaction is signed.
pub open spec fn header_of(bytes: Seq<u8>) -> Result<ExtrinsicHeader, ExtrinsicError> {
    match compact_u32(bytes) {
        None => Err(ExtrinsicError::Codec),
        Some((expected_length, taken)) => {
            if bytes.len() <= taken {
                Err(ExtrinsicError::Codec)
            } else if bytes[taken as int] % 128 != EXTRINSIC_FORMAT_VERSION {
                Err(ExtrinsicError::InvalidVersion)
            } else {
                Ok(
                    ExtrinsicHeader {
                        expected_length,
                        is_signed: bytes[taken as int] >= 128,
                        before_length: (bytes.len() - taken) as usize,
                        body_start: (taken + 1) as usize,
                    },
                )
            }
        },
    }
}

/// Reads the header of a transaction: the first step of decoding one. The body, a
/// signature where the header says so and then the call, begins at `body_start`.
pub fn read_header(input: &[u8]) -> (header: Result<ExtrinsicHeader, ExtrinsicError>)
    ensures
        header == header_of(input@),
{
    let (expected_length, before_length) = match read_compact_u32(input) {
        Some(read) => read,
        None => {
            return Err(ExtrinsicError::Codec);
        },
    };
    if before_length == 0 {
        return Err(ExtrinsicError::Codec);
    }
    let at = input.len() - before_length;
    let version = input[at];
    let is_signed = version & 0b1000_0000 != 0;
    let version = version & 0b0111_1111;
    assert(version == input@[at as int] % 128 && is_signed == (input@[at as int] >= 128)) by {
        let b = input@[at as int];
        assert((b & 0b0111_1111) == b % 128 && ((b & 0b1000_0000 != 0) == (b >= 128)))
            by (bit_vector);
    }
    if version != EXTRINSIC_FORMAT_VERSION {
        return Err(ExtrinsicError::InvalidVersion);
    }
    Ok(ExtrinsicHeader { expected_length, is_signed, before_length, body_start: at + 1 })
}

/// Whether the bytes read since the version byte are as many as the prefix announced:
/// the last step of decoding a transaction. `after_length` is what was left of the input
/// once the body was read.
pub fn check_length(header: &ExtrinsicHeader, after_length: usize) -> (r: Result<
    (),
    ExtrinsicError,
>)
    ensures
        r is Ok <==> read_length(header.before_length, after_length)
            == header.expected_length as usize,
        r is Err ==> r == Err::<(), ExtrinsicError>(ExtrinsicError::InvalidLengthPrefix),
{
    let length = if header.before_length >= after_length {
        header.before_length - after_length
    } else {
        0
    };
    if length != header.expected_length as usize {
        return Err(ExtrinsicError::InvalidLengthPrefix);
    }
    Ok(())
}

/// How many bytes were read between two counts of what was left, none where the counts
/// do not fit.
pub open spec fn read_length(before_length: usize, after_length: usize) -> usize {
    if before_length >= after_length {
        (before_length - after_length) as usize
    } else {
        0
    }
}

} // verus!
