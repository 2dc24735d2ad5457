//! Decoder for SRTM ".hgt" elevation tiles: a tile's geographic origin is
//! parsed from its file name, its sampling resolution is derived from its
//! byte length, and its body is a flat row-major stream of big-endian
//! signed 16-bit samples.

use vstd::prelude::*;

pub mod coords;
pub mod decode;
pub mod tile;

verus! {

pub use crate::coords::get_lat_long;
pub use crate::decode::parse;
pub use crate::decode::spec_be_i16;
pub use crate::decode::spec_decoded;
pub use crate::tile::Tile;
pub use crate::tile::lemma_round_trip;

/// Sampling density grade of a tile: `SRTM1` is the 3601 x 3601 grid
/// (about 30 m spacing), `SRTM3` the 1201 x 1201 grid (about 90 m spacing).
#[derive(PartialEq, Eq, Structural, Clone, Copy, Debug)]
pub enum Resolution {
    SRTM1,
    SRTM3,
}

/// The three ways constructing a tile can fail.
#[derive(PartialEq, Eq, Structural, Clone, Copy, Debug)]
pub enum Error {
    /// The file name does not follow the coordinate-encoding convention.
    ParseLatLong,
    /// The file's byte length matches neither known resolution.
    Filesize,
    /// The file could not be opened, or held fewer samples than declared.
    Read,
}

/// Side length, in samples, of the square grid at resolution `res`.
pub open spec fn spec_extent(res: Resolution) -> int {
    match res {
        Resolution::SRTM1 => 3601,
        Resolution::SRTM3 => 1201,
    }
}

/// Number of samples in the grid at resolution `res`: the square of its
/// side length.
pub fn total_size(res: Resolution) -> (n: u32)
    ensures
        n == spec_extent(res) * spec_extent(res),
{
    match res {
        Resolution::SRTM1 => 3601 * 3601,
        Resolution::SRTM3 => 1201 * 1201,
    }
}

/// The resolution a file's total byte length encodes, if any: exactly
/// 25934402 bytes (3601 x 3601 samples of 2 bytes) is `SRTM1`, exactly
/// 2884802 bytes (1201 x 1201 samples of 2 bytes) is `SRTM3`, and every
/// other length is unrecognized.
pub open spec fn spec_detect_resolution(byte_length: u64) -> Option<Resolution> {
    if byte_length == 25934402 {
        Some(Resolution::SRTM1)
    } else if byte_length == 2884802 {
        Some(Resolution::SRTM3)
    } else {
        None
    }
}

/// Maps a file's total byte length to the resolution it encodes; any
/// length other than the two the format defines is unrecognized, and the
/// caller must treat it as a file-size error.
pub fn detect_resolution(byte_length: u64) -> (r: Option<Resolution>)
    ensures
        r == spec_detect_resolution(byte_length),
{
    if byte_length == 25934402 {
        Some(Resolution::SRTM1)
    } else if byte_length == 2884802 {
        Some(Resolution::SRTM3)
    } else {
        None
    }
}

} // verus!
