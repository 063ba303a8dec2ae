//! The validity (definition-level) encoder: hands the validity stream to
//! the outside hybrid run-length/bit-packed encoder and lays the result out
//! per the chosen page version.

use vstd::prelude::*;

use crate::model::{hybrid_rle_of, u32_le, validity_block};
use crate::options::{PageError, Version};

verus! {

/// Relies on `parquet2::encoding::hybrid_rle::encode_bool`: it appends to
/// the writer the hybrid run-length/bit-packed encoding of the bits, a
/// function of the bits alone, and nothing else; for no bits it appends a
/// single header byte. It writes one header integer of at most ten bytes
/// and then one byte per eight bits, rounded up, so the appended length is
/// at most `10 + (len + 7) / 8`. Writing into a `Vec<u8>` cannot fail (its
/// `std::io::Write` never errors), so the encoder's `io::Result` is always
/// `Ok`; the slice iterator reports an exact size, which the encoder
/// requires of its input.
#[verifier::external_body]
fn hybrid_rle_encode(buffer: &mut Vec<u8>, bits: &[bool])
    ensures
        final(buffer)@ == old(buffer)@ + hybrid_rle_of(bits@),
        bits@.len() == 0 ==> final(buffer)@.len() == old(buffer)@.len() + 1,
        final(buffer)@.len() <= old(buffer)@.len() + 10 + (bits@.len() + 7) / 8,
{
    parquet2::encoding::hybrid_rle::encode_bool(buffer, bits.iter().copied())
        .expect("writing to a Vec never fails");
}

/// Appends the encoded validity block for `bits` to `buffer`, laid out per
/// `version`: the v1 layout writes the encoded bits' byte length as a
/// little-endian u32 and then the bits, the v2 layout writes the bits
/// bare. Fails, leaving the buffer unchanged, exactly when the v1 length
/// prefix cannot hold the encoded length; nothing else can go wrong.
pub fn encode_bool_iter(buffer: &mut Vec<u8>, bits: &Vec<bool>, version: Version) -> (r: Result<
    (),
    PageError,
>)
    ensures
        r is Ok <==> !(version is V1 && hybrid_rle_of(bits@).len() > u32::MAX),
        r is Ok ==> final(buffer)@ == old(buffer)@ + validity_block(version, bits@),
        r is Err ==> final(buffer)@ == old(buffer)@ && r == Err::<(), PageError>(
            PageError::ValidityEncoding,
        ),
        bits@.len() == 0 ==> hybrid_rle_of(bits@).len() == 1,
        hybrid_rle_of(bits@).len() <= 10 + (bits@.len() + 7) / 8,
{
    match version {
        Version::V2 => {
            hybrid_rle_encode(buffer, bits.as_slice());
            Ok(())
        },
        Version::V1 => {
            let mut encoded: Vec<u8> = Vec::new();
            hybrid_rle_encode(&mut encoded, bits.as_slice());
            if encoded.len() > u32::MAX as usize {
                return Err(PageError::ValidityEncoding);
            }
            let len32: u32 = encoded.len() as u32;
            buffer.push((len32 & 0xff) as u8);
            buffer.push(((len32 >> 8) & 0xff) as u8);
            buffer.push(((len32 >> 16) & 0xff) as u8);
            buffer.push(((len32 >> 24) & 0xff) as u8);
            proof {
                assert(buffer@ =~= old(buffer)@ + u32_le(len32));
            }
            buffer.append(&mut encoded);
            proof {
                assert(buffer@ =~= old(buffer)@ + validity_block(version, bits@));
            }
            Ok(())
        },
    }
}

} // verus!
