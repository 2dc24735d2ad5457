//! The coordinate parser: reads a tile's signed latitude and longitude out
//! of its file name. The stem (the name without its extension) must be
//! exactly seven characters, `[N|S]DD[E|W]DDD`, as in `N35E138`; the sign
//! convention is lenient, in that any character other than `N` (or `E`)
//! in a hemisphere position means negative.

use vstd::prelude::*;

verus! {

use crate::Error;
use vstd::string::StrSliceExecFns;

/// True of an ASCII decimal digit.
pub open spec fn is_digit(c: char) -> bool {
    '0' as u32 <= c as u32 && c as u32 <= '9' as u32
}

/// The numeric value of an ASCII decimal digit.
pub open spec fn digit_val(c: char) -> int {
    c as u32 - '0' as u32
}

/// Index of the last '.' of `name` that does not stand first, or 0 when
/// there is none: a leading '.' begins a hidden file's name and opens no
/// extension.
pub open spec fn spec_last_dot(name: Seq<char>) -> int
    decreases name.len(),
{
    if name.len() <= 1 {
        0
    } else if name[name.len() - 1] == '.' {
        name.len() - 1
    } else {
        spec_last_dot(name.take(name.len() - 1))
    }
}

/// The stem of a bare file name: what stands before the last '.', unless
/// that dot stands first or there is none, in which case the whole name.
pub open spec fn spec_stem(name: Seq<char>) -> Seq<char> {
    if spec_last_dot(name) >= 1 {
        name.take(spec_last_dot(name))
    } else {
        name
    }
}

/// A stem is well formed when it is exactly seven characters long and its
/// five numeric positions hold ASCII digits. The two hemisphere positions
/// may hold any character: one other than 'N' or 'E' only flips the sign.
pub open spec fn valid_stem(s: Seq<char>) -> bool {
    &&& s.len() == 7
    &&& is_digit(s[1])
    &&& is_digit(s[2])
    &&& is_digit(s[4])
    &&& is_digit(s[5])
    &&& is_digit(s[6])
}

/// The signed latitude a well-formed stem encodes: its two digits, negated
/// unless the first character is 'N'.
pub open spec fn spec_latitude(s: Seq<char>) -> int {
    (if s[0] == 'N' { 1int } else { -1int }) * (digit_val(s[1]) * 10 + digit_val(s[2]))
}

/// The signed longitude a well-formed stem encodes: its three digits,
/// negated unless the fourth character is 'E'.
pub open spec fn spec_longitude(s: Seq<char>) -> int {
    (if s[3] == 'E' { 1int } else { -1int }) * (digit_val(s[4]) * 100 + digit_val(s[5]) * 10
        + digit_val(s[6]))
}

/// Finds the last '.' of `name` that does not stand first, walking from
/// the back.
fn last_dot(name: &str) -> (j: usize)
    ensures
        j == spec_last_dot(name@),
        j == 0 || j < name@.len(),
{
    let len = name.unicode_len();
    proof {
        assert(name@.take(len as int) =~= name@);
    }
    let mut i: usize = len;
    while i > 1
        invariant
            i <= len,
            len == name@.len(),
            spec_last_dot(name@) == spec_last_dot(name@.take(i as int)),
        decreases i,
    {
        if name.get_char(i - 1) == '.' {
            proof {
                assert(name@.take(i as int)[i - 1] == name@[i - 1]);
            }
            return i - 1;
        }
        proof {
            assert(name@.take(i as int)[i - 1] == name@[i - 1]);
            assert(name@.take(i as int).take(i - 1) =~= name@.take(i - 1));
        }
        i = i - 1;
    }
    0
}

/// The value of the ASCII digit at character position `i` of `name`, or
/// `None` when another character stands there.
fn digit(name: &str, i: usize) -> (r: Option<u32>)
    requires
        i < name@.len(),
    ensures
        match r {
            Some(d) => is_digit(name@[i as int]) && d == digit_val(name@[i as int]) && d <= 9,
            None => !is_digit(name@[i as int]),
        },
{
    let c = name.get_char(i);
    let v = c as u32;
    if '0' as u32 <= v && v <= '9' as u32 {
        Some(v - '0' as u32)
    } else {
        None
    }
}

/// Parses the coordinates that a tile file's name encodes: the stem must be
/// exactly seven characters, `[N|S]DD[E|W]DDD`. Returns the signed pair
/// (latitude, longitude), the two-digit latitude negated unless the first
/// character is 'N' and the three-digit longitude negated unless the fourth
/// is 'E'; fails with `Error::ParseLatLong` exactly when the stem is not
/// well formed.
pub fn get_lat_long(name: &str) -> (r: Result<(i32, i32), Error>)
    ensures
        match r {
            Ok(c) => {
                &&& valid_stem(spec_stem(name@))
                &&& c.0 == spec_latitude(spec_stem(name@))
                &&& c.1 == spec_longitude(spec_stem(name@))
            },
            Err(e) => {
                &&& e == Error::ParseLatLong
                &&& !valid_stem(spec_stem(name@))
            },
        },
{
    let len = name.unicode_len();
    let dot = last_dot(name);
    let stem_len = if dot >= 1 { dot } else { len };
    proof {
        if spec_last_dot(name@) < 1 {
            assert(spec_stem(name@) =~= name@);
        }
        assert(spec_stem(name@).len() == stem_len);
    }
    if stem_len != 7 {
        return Err(Error::ParseLatLong);
    }
    proof {
        assert(forall|k: int| 0 <= k < 7 ==> spec_stem(name@)[k] == name@[k]);
    }
    let c0 = name.get_char(0);
    let lat_sign: i32 = if c0 == 'N' {
        1
    } else {
        -1
    };
    let d1 = match digit(name, 1) {
        Some(d) => d,
        None => {
            return Err(Error::ParseLatLong);
        },
    };
    let d2 = match digit(name, 2) {
        Some(d) => d,
        None => {
            return Err(Error::ParseLatLong);
        },
    };
    let c3 = name.get_char(3);
    let lng_sign: i32 = if c3 == 'E' {
        1
    } else {
        -1
    };
    let d4 = match digit(name, 4) {
        Some(d) => d,
        None => {
            return Err(Error::ParseLatLong);
        },
    };
    let d5 = match digit(name, 5) {
        Some(d) => d,
        None => {
            return Err(Error::ParseLatLong);
        },
    };
    let d6 = match digit(name, 6) {
        Some(d) => d,
        None => {
            return Err(Error::ParseLatLong);
        },
    };
    let lat: i32 = lat_sign * ((d1 * 10 + d2) as i32);
    let lng: i32 = lng_sign * ((d4 * 100 + d5 * 10 + d6) as i32);
    Ok((lat, lng))
}

} // verus!
