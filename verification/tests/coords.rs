use srtm::Error;
use srtm::Resolution;
use srtm::get_lat_long;

#[test]
fn parse_latitute_and_longitude() {
    let ne = "N35E138.hgt";
    assert_eq!(get_lat_long(&ne).unwrap(), (35, 138));

    let nw = "N35W138.hgt";
    assert_eq!(get_lat_long(&nw).unwrap(), (35, -138));

    let se = "S35E138.hgt";
    assert_eq!(get_lat_long(&se).unwrap(), (-35, 138));

    let sw = "S35W138.hgt";
    assert_eq!(get_lat_long(&sw).unwrap(), (-35, -138));
}

#[test]
fn parse_accepts_a_bare_stem() {
    assert_eq!(get_lat_long("N35E138").unwrap(), (35, 138));
    assert_eq!(get_lat_long("S01W077").unwrap(), (-1, -77));
}

#[test]
fn parse_is_lenient_about_hemisphere_characters() {
    // any character other than 'N' (or 'E') in a sign position means negative
    assert_eq!(get_lat_long("X35Y138.hgt").unwrap(), (-35, -138));
    assert_eq!(get_lat_long("n35e138.hgt").unwrap(), (-35, -138));
}

#[test]
fn parse_rejects_a_stem_of_the_wrong_length() {
    assert_eq!(get_lat_long("N3E138"), Err(Error::ParseLatLong));
    assert_eq!(get_lat_long("North35East138"), Err(Error::ParseLatLong));
    assert_eq!(get_lat_long(""), Err(Error::ParseLatLong));
    assert_eq!(get_lat_long("N35E138.foo.hgt"), Err(Error::ParseLatLong));
}

#[test]
fn parse_rejects_non_digit_positions() {
    assert_eq!(get_lat_long("NxxE138.hgt"), Err(Error::ParseLatLong));
    assert_eq!(get_lat_long("N35Exx8.hgt"), Err(Error::ParseLatLong));
    assert_eq!(get_lat_long("N35E13x.hgt"), Err(Error::ParseLatLong));
}

#[test]
fn detect_resolution_knows_the_two_sizes() {
    assert_eq!(srtm::detect_resolution(25934402), Some(Resolution::SRTM1));
    assert_eq!(srtm::detect_resolution(2884802), Some(Resolution::SRTM3));
}

#[test]
fn detect_resolution_rejects_every_other_size() {
    assert_eq!(srtm::detect_resolution(0), None);
    assert_eq!(srtm::detect_resolution(100), None);
    assert_eq!(srtm::detect_resolution(25934401), None);
    assert_eq!(srtm::detect_resolution(25934403), None);
    assert_eq!(srtm::detect_resolution(2884803), None);
}

#[test]
fn total_size_is_the_square_of_the_extent() {
    assert_eq!(srtm::total_size(Resolution::SRTM1), 3601 * 3601);
    assert_eq!(srtm::total_size(Resolution::SRTM3), 1201 * 1201);
}
