//! The tile itself: geographic origin, resolution and the immutable
//! row-major sample grid, with its lookup and summary queries.

use vstd::prelude::*;

verus! {

use crate::Error;
use crate::Resolution;
use crate::coords::get_lat_long;
use crate::coords::spec_latitude;
use crate::coords::spec_longitude;
use crate::coords::spec_stem;
use crate::coords::valid_stem;
use crate::decode::parse;
use crate::decode::spec_be_i16;
use crate::decode::spec_decoded;
use crate::detect_resolution;
use crate::spec_detect_resolution;
use crate::spec_extent;

/// One square grid of elevation samples covering a 1-degree cell, keyed by
/// the integer latitude and longitude of its southwest corner.
pub struct Tile {
    pub latitude: i32,
    pub longitude: i32,
    pub resolution: Resolution,
    data: Vec<i16>,
}

/// The mathematical content of a tile: its origin, its sampling grade and
/// the row-major sequence of samples (row 0 first, and within each row
/// column 0 first).
pub ghost struct TileView {
    pub latitude: i32,
    pub longitude: i32,
    pub resolution: Resolution,
    pub samples: Seq<i16>,
}

impl View for Tile {
    type V = TileView;

    closed spec fn view(&self) -> TileView {
        TileView {
            latitude: self.latitude,
            longitude: self.longitude,
            resolution: self.resolution,
            samples: self.data@,
        }
    }
}

impl Tile {
    /// A tile is well formed when its grid holds exactly `extent^2`
    /// samples; construction never yields any other state.
    pub open spec fn wf(self) -> bool {
        self@.samples.len() == spec_extent(self@.resolution) * spec_extent(self@.resolution)
    }

    /// Everything tile construction decides before the file body is read:
    /// the coordinates parsed from the file name and the resolution
    /// detected from the byte length, in that order; `byte_length` is
    /// `None` when the length could not be determined. Fails with
    /// `Error::ParseLatLong` exactly when the stem is malformed, and
    /// otherwise with `Error::Filesize` exactly when the length is missing
    /// or matches neither resolution; the body is never inspected here.
    pub fn prepare(name: &str, byte_length: Option<u64>) -> (r: Result<
        (i32, i32, Resolution),
        Error,
    >)
        ensures
            match r {
                Ok(p) => {
                    &&& valid_stem(spec_stem(name@))
                    &&& p.0 == spec_latitude(spec_stem(name@))
                    &&& p.1 == spec_longitude(spec_stem(name@))
                    &&& byte_length is Some
                    &&& spec_detect_resolution(byte_length->0) == Some(p.2)
                },
                Err(e) => match e {
                    Error::ParseLatLong => !valid_stem(spec_stem(name@)),
                    Error::Filesize => valid_stem(spec_stem(name@)) && (byte_length is None
                        || spec_detect_resolution(byte_length->0) is None),
                    Error::Read => false,
                },
            },
    {
        let (lat, lng) = match get_lat_long(name) {
            Ok(c) => c,
            Err(e) => {
                return Err(e);
            },
        };
        let res = match byte_length {
            Some(len) => match detect_resolution(len) {
                Some(res) => res,
                None => {
                    return Err(Error::Filesize);
                },
            },
            None => {
                return Err(Error::Filesize);
            },
        };
        Ok((lat, lng, res))
    }

    /// Assembles a tile from parsed coordinates, a detected resolution and
    /// the file body: the grid is the body decoded as `extent^2` big-endian
    /// signed 16-bit samples. Fails with `Error::Read` exactly when the
    /// body ends before that count is reached.
    pub fn from_data(lat: i32, lng: i32, res: Resolution, bytes: &[u8]) -> (r: Result<Tile, Error>)
        ensures
            match r {
                Ok(t) => {
                    &&& bytes@.len() >= 2 * spec_extent(res) * spec_extent(res)
                    &&& t.wf()
                    &&& t@.latitude == lat
                    &&& t@.longitude == lng
                    &&& t@.resolution == res
                    &&& t@.samples == spec_decoded(bytes@, spec_extent(res) * spec_extent(res))
                },
                Err(e) => {
                    &&& e == Error::Read
                    &&& bytes@.len() < 2 * spec_extent(res) * spec_extent(res)
                },
            },
    {
        let data = match parse(bytes, res) {
            Ok(v) => v,
            Err(e) => {
                return Err(e);
            },
        };
        Ok(Tile { latitude: lat, longitude: lng, resolution: res, data })
    }

    /// Side length of this tile's square grid: 3601 for SRTM1, 1201 for
    /// SRTM3.
    pub fn extent(&self) -> (e: u32)
        ensures
            e == spec_extent(self@.resolution),
    {
        match self.resolution {
            Resolution::SRTM1 => 3601,
            Resolution::SRTM3 => 1201,
        }
    }

    /// The greatest sample value anywhere in the grid.
    pub fn max_height(&self) -> (m: i16)
        requires
            self.wf(),
        ensures
            exists|i: int| 0 <= i < self@.samples.len() && self@.samples[i] == m,
            forall|i: int| 0 <= i < self@.samples.len() ==> self@.samples[i] <= m,
    {
        let mut m = self.data[0];
        let mut i: usize = 1;
        while i < self.data.len()
            invariant
                1 <= i <= self.data@.len(),
                exists|j: int| 0 <= j < i && self.data@[j] == m,
                forall|j: int| 0 <= j < i ==> self.data@[j] <= m,
            decreases self.data@.len() - i,
        {
            let h = self.data[i];
            if h > m {
                m = h;
            }
            i = i + 1;
        }
        m
    }

    /// The sample at column `x`, row `y`, both 0-indexed; the caller owes
    /// `x < extent()` and `y < extent()`.
    pub fn get(&self, x: u32, y: u32) -> (h: i16)
        requires
            self.wf(),
            x < spec_extent(self@.resolution),
            y < spec_extent(self@.resolution),
        ensures
            h == self@.samples[y * spec_extent(self@.resolution) + x],
    {
        let i = self.idx(x, y);
        self.data[i]
    }

    /// Linear offset of column `x`, row `y` in the row-major grid.
    fn idx(&self, x: u32, y: u32) -> (i: usize)
        requires
            x < spec_extent(self@.resolution),
            y < spec_extent(self@.resolution),
        ensures
            i == y * spec_extent(self@.resolution) + x,
            i < spec_extent(self@.resolution) * spec_extent(self@.resolution),
    {
        let e = self.extent();
        proof {
            assert(y * e + x < e * e) by (nonlinear_arith)
                requires
                    x < e,
                    y < e,
            ;
            assert(e * e <= 3601 * 3601);
        }
        (y * e + x) as usize
    }
}

/// Round trip, stated once for every tile decoded from a byte stream: the
/// sample that `get` addresses at column `x`, row `y` is exactly the
/// big-endian 16-bit value stored at byte offset `2*(y*extent + x)` of the
/// stream. In particular (0, 0) reads the first two bytes, (1, 0) the next
/// two, and (0, 1) the pair at offset `extent * 2`.
pub proof fn lemma_round_trip(t: Tile, bytes: Seq<u8>, x: int, y: int)
    requires
        t.wf(),
        t@.samples == spec_decoded(bytes, spec_extent(t@.resolution) * spec_extent(t@.resolution)),
        0 <= x < spec_extent(t@.resolution),
        0 <= y < spec_extent(t@.resolution),
    ensures
        t@.samples[y * spec_extent(t@.resolution) + x] == spec_be_i16(
            bytes[2 * (y * spec_extent(t@.resolution) + x)],
            bytes[2 * (y * spec_extent(t@.resolution) + x) + 1],
        ),
{
    let e = spec_extent(t@.resolution);
    assert(0 <= y * e + x < e * e) by (nonlinear_arith)
        requires
            0 <= x < e,
            0 <= y < e,
    ;
}

} // verus!
