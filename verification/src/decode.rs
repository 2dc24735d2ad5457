//! The sample stream decoder: turns the body of a tile file, a flat run of
//! big-endian signed 16-bit integers, into the row-major sample grid.

use vstd::prelude::*;
use byteorder::ByteOrder;

verus! {

use crate::Error;
use crate::Resolution;
use crate::spec_extent;
use crate::total_size;
use vstd::slice::slice_subrange;

/// The signed 16-bit value that a big-endian byte pair encodes: `hi` is the
/// more significant byte, and the 16-bit pattern is read as two's complement.
pub open spec fn spec_be_i16(hi: u8, lo: u8) -> i16 {
    if hi * 256 + lo < 32768 {
        (hi * 256 + lo) as i16
    } else {
        (hi * 256 + lo - 65536) as i16
    }
}

/// The first `n` samples that `bytes` encodes: the `i`-th sample is the
/// big-endian 16-bit value held in bytes `2*i` and `2*i + 1`.
pub open spec fn spec_decoded(bytes: Seq<u8>, n: int) -> Seq<i16> {
    Seq::new(n as nat, |i: int| spec_be_i16(bytes[2 * i], bytes[2 * i + 1]))
}

/// Relies on byteorder's `BigEndian::read_i16`: the first two bytes of the
/// slice, read as one big-endian two's-complement 16-bit integer.
#[verifier::external_body]
fn read_be_i16(b: &[u8]) -> (r: i16)
    requires
        b@.len() >= 2,
    ensures
        r == spec_be_i16(b@[0], b@[1]),
{
    byteorder::BigEndian::read_i16(b)
}

/// Decodes a tile body: reads exactly `extent(res)^2` consecutive big-endian
/// signed 16-bit samples from the front of `bytes`, in row-major order.
/// Fails with `Error::Read` exactly when `bytes` ends before that count is
/// reached; bytes beyond the expected count are never inspected.
pub fn parse(bytes: &[u8], res: Resolution) -> (r: Result<Vec<i16>, Error>)
    ensures
        match r {
            Ok(v) => {
                &&& bytes@.len() >= 2 * spec_extent(res) * spec_extent(res)
                &&& v@ == spec_decoded(bytes@, spec_extent(res) * spec_extent(res))
            },
            Err(e) => {
                &&& e == Error::Read
                &&& bytes@.len() < 2 * spec_extent(res) * spec_extent(res)
            },
        },
{
    let n = total_size(res) as usize;
    if bytes.len() < 2 * n {
        return Err(Error::Read);
    }
    let mut data: Vec<i16> = Vec::new();
    let mut i: usize = 0;
    while i < n
        invariant
            i <= n,
            n == spec_extent(res) * spec_extent(res),
            n <= 3601 * 3601,
            bytes@.len() >= 2 * n,
            data@.len() == i,
            forall|j: int| 0 <= j < i ==> data@[j] == spec_be_i16(bytes@[2 * j], bytes@[2 * j + 1]),
        decreases n - i,
    {
        let pair = slice_subrange(bytes, 2 * i, 2 * i + 2);
        let h = read_be_i16(pair);
        data.push(h);
        i = i + 1;
    }
    proof {
        assert(data@ =~= spec_decoded(bytes@, spec_extent(res) * spec_extent(res)));
    }
    Ok(data)
}

} // verus!
