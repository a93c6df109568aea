use geobot::exif::{extract_location_from_exif, DecodeError};
use geobot::geo::GeoCoordinate;

fn push_u16le(v: &mut Vec<u8>, x: u16) {
    v.push((x & 0xff) as u8);
    v.push((x >> 8) as u8);
}

fn push_u32le(v: &mut Vec<u8>, x: u32) {
    v.push((x & 0xff) as u8);
    v.push(((x >> 8) & 0xff) as u8);
    v.push(((x >> 16) & 0xff) as u8);
    v.push(((x >> 24) & 0xff) as u8);
}

struct GpsEntrySpecLike {
    tag: u16,
    typ: u16,
    count: u32,
    rationals: Option<[(u32, u32); 3]>,
    inline: Option<[u8; 4]>,
}

/// Builds a little-endian TIFF structure whose first IFD points at a GPS
/// IFD holding the given entries. Rational data is laid out behind the
/// entries; 4-byte values sit inline.
fn tiff_with_gps(entries: &[GpsEntrySpecLike]) -> Vec<u8> {
    let mut v: Vec<u8> = Vec::new();
    v.extend_from_slice(&[0x49, 0x49, 0x2a, 0x00]);
    push_u32le(&mut v, 8); // first IFD at offset 8
    // first IFD: one entry, the GPS IFD pointer
    let gps_ifd_off: u32 = 8 + 2 + 12;
    push_u16le(&mut v, 1);
    push_u16le(&mut v, 0x8825);
    push_u16le(&mut v, 4); // LONG
    push_u32le(&mut v, 1);
    push_u32le(&mut v, gps_ifd_off);
    // GPS IFD
    let n = entries.len() as u32;
    push_u16le(&mut v, n as u16);
    let mut data_off: u32 = gps_ifd_off + 2 + 12 * n;
    let mut data: Vec<u8> = Vec::new();
    for e in entries {
        push_u16le(&mut v, e.tag);
        push_u16le(&mut v, e.typ);
        push_u32le(&mut v, e.count);
        if let Some(rats) = &e.rationals {
            push_u32le(&mut v, data_off);
            for (num, den) in rats {
                push_u32le(&mut data, *num);
                push_u32le(&mut data, *den);
            }
            data_off += 24;
        } else if let Some(inline) = &e.inline {
            v.extend_from_slice(inline);
        } else {
            push_u32le(&mut v, 0);
        }
    }
    v.extend_from_slice(&data);
    v
}

fn rational_entry(tag: u16, rats: [(u32, u32); 3]) -> GpsEntrySpecLike {
    GpsEntrySpecLike { tag, typ: 5, count: 3, rationals: Some(rats), inline: None }
}

fn ref_entry(tag: u16, c: u8) -> GpsEntrySpecLike {
    GpsEntrySpecLike { tag, typ: 2, count: 2, rationals: None, inline: Some([c, 0, 0, 0]) }
}

fn degrees(r: &geobot::geo::SignedRational) -> f64 {
    let mag = (r.num as f64) / (r.den as f64);
    if r.negative {
        -mag
    } else {
        mag
    }
}

fn full_container() -> Vec<u8> {
    tiff_with_gps(&[
        ref_entry(1, b'N'),
        rational_entry(2, [(52, 1), (30, 1), (0, 1)]),
        ref_entry(3, b'E'),
        rational_entry(4, [(13, 1), (24, 1), (0, 1)]),
    ])
}

fn coordinate_of(data: &[u8]) -> GeoCoordinate {
    extract_location_from_exif(data).expect("expected a decoded coordinate")
}

#[test]
fn decodes_known_coordinate() {
    let c = coordinate_of(&full_container());
    assert_eq!(degrees(&c.latitude), 52.5);
    assert!((degrees(&c.longitude) - 13.4).abs() < 1e-12);
    assert!(!c.latitude.negative);
    assert!(!c.longitude.negative);
}

#[test]
fn exact_rational_values() {
    let c = coordinate_of(&full_container());
    // 52 + 30/60 + 0/3600 over the common denominator 3600
    assert_eq!(c.latitude.num, 3600 * 52 + 60 * 30);
    assert_eq!(c.latitude.den, 3600);
    // 13 + 24/60 + 0/3600
    assert_eq!(c.longitude.num, 3600 * 13 + 60 * 24);
    assert_eq!(c.longitude.den, 3600);
}

#[test]
fn south_reference_negates_latitude() {
    let data = tiff_with_gps(&[
        ref_entry(1, b'S'),
        rational_entry(2, [(52, 1), (30, 1), (0, 1)]),
        ref_entry(3, b'E'),
        rational_entry(4, [(13, 1), (24, 1), (0, 1)]),
    ]);
    let c = coordinate_of(&data);
    assert_eq!(degrees(&c.latitude), -52.5);
    assert!(c.latitude.negative);
    assert!(!c.longitude.negative);
}

#[test]
fn west_reference_negates_longitude() {
    let data = tiff_with_gps(&[
        rational_entry(2, [(52, 1), (30, 1), (0, 1)]),
        ref_entry(3, b'W'),
        rational_entry(4, [(13, 1), (24, 1), (0, 1)]),
    ]);
    let c = coordinate_of(&data);
    assert!(!c.latitude.negative);
    assert!(c.longitude.negative);
    assert!((degrees(&c.longitude) + 13.4).abs() < 1e-12);
}

#[test]
fn absent_references_default_to_north_and_east() {
    let data = tiff_with_gps(&[
        rational_entry(2, [(52, 1), (30, 1), (0, 1)]),
        rational_entry(4, [(13, 1), (24, 1), (0, 1)]),
    ]);
    let c = coordinate_of(&data);
    assert!(!c.latitude.negative);
    assert!(!c.longitude.negative);
    assert_eq!(degrees(&c.latitude), 52.5);
}

#[test]
fn round_trip_of_encoded_coordinate() {
    // Encode (52.5, 13.4) as sexagesimal rational triples, decode back.
    let lat = encode_degrees(52.5);
    let lon = encode_degrees(13.4);
    let data = tiff_with_gps(&[
        ref_entry(1, b'N'),
        rational_entry(2, lat),
        ref_entry(3, b'E'),
        rational_entry(4, lon),
    ]);
    let c = coordinate_of(&data);
    assert!((degrees(&c.latitude) - 52.5).abs() < 1e-9);
    assert!((degrees(&c.longitude) - 13.4).abs() < 1e-9);
}

/// Splits nonnegative decimal degrees into whole degrees, whole minutes,
/// and seconds in hundredths.
fn encode_degrees(deg: f64) -> [(u32, u32); 3] {
    let d = deg.floor();
    let m = ((deg - d) * 60.0).floor();
    let s = (deg - d - m / 60.0) * 3600.0;
    [(d as u32, 1), (m as u32, 1), ((s * 100.0).round() as u32, 100)]
}

#[test]
fn missing_gps_fields_are_not_found() {
    // A GPS IFD with only a reference entry: no latitude or longitude.
    let data = tiff_with_gps(&[ref_entry(1, b'N')]);
    assert_eq!(extract_location_from_exif(&data), Err(DecodeError::NotFound));
    // No GPS pointer at all: a first IFD with an unrelated entry.
    let mut v: Vec<u8> = Vec::new();
    v.extend_from_slice(&[0x49, 0x49, 0x2a, 0x00]);
    push_u32le(&mut v, 8);
    push_u16le(&mut v, 1);
    push_u16le(&mut v, 0x0100); // image width, not a GPS pointer
    push_u16le(&mut v, 4);
    push_u32le(&mut v, 1);
    push_u32le(&mut v, 640);
    assert_eq!(extract_location_from_exif(&v), Err(DecodeError::NotFound));
}

#[test]
fn wrong_arity_is_invalid_format() {
    let data = tiff_with_gps(&[
        GpsEntrySpecLike { tag: 2, typ: 5, count: 2, rationals: None, inline: None },
        rational_entry(4, [(13, 1), (24, 1), (0, 1)]),
    ]);
    assert_eq!(extract_location_from_exif(&data), Err(DecodeError::InvalidFormat));
}

#[test]
fn wrong_type_is_invalid_format() {
    let data = tiff_with_gps(&[
        rational_entry(2, [(52, 1), (30, 1), (0, 1)]),
        GpsEntrySpecLike { tag: 4, typ: 3, count: 3, rationals: None, inline: None },
    ]);
    assert_eq!(extract_location_from_exif(&data), Err(DecodeError::InvalidFormat));
}

#[test]
fn zero_denominator_is_invalid_format() {
    let data = tiff_with_gps(&[
        rational_entry(2, [(52, 1), (30, 0), (0, 1)]),
        rational_entry(4, [(13, 1), (24, 1), (0, 1)]),
    ]);
    assert_eq!(extract_location_from_exif(&data), Err(DecodeError::InvalidFormat));
}

#[test]
fn unreadable_containers() {
    assert_eq!(extract_location_from_exif(&[]), Err(DecodeError::Unreadable));
    assert_eq!(extract_location_from_exif(b"not an image"), Err(DecodeError::Unreadable));
    // A JPEG without a metadata segment.
    let jpeg = vec![0xff, 0xd8, 0xff, 0xdb, 0x00, 0x04, 0x00, 0x00, 0xff, 0xd9];
    assert_eq!(extract_location_from_exif(&jpeg), Err(DecodeError::Unreadable));
    // A truncated TIFF opening.
    assert_eq!(extract_location_from_exif(&[0x49, 0x49, 0x2a, 0x00]), Err(DecodeError::Unreadable));
}

#[test]
fn jpeg_wrapped_container_decodes() {
    let tiff = full_container();
    let mut jpeg: Vec<u8> = vec![0xff, 0xd8];
    // an unrelated segment first
    jpeg.extend_from_slice(&[0xff, 0xe0, 0x00, 0x04, 0x4a, 0x46]);
    // the metadata segment: marker, big-endian length, signature, body
    jpeg.extend_from_slice(&[0xff, 0xe1]);
    let seglen = (2 + 6 + tiff.len()) as u16;
    jpeg.push((seglen >> 8) as u8);
    jpeg.push((seglen & 0xff) as u8);
    jpeg.extend_from_slice(b"Exif\x00\x00");
    jpeg.extend_from_slice(&tiff);
    jpeg.extend_from_slice(&[0xff, 0xd9]);
    let c = coordinate_of(&jpeg);
    assert_eq!(degrees(&c.latitude), 52.5);
}

#[test]
fn big_endian_container_decodes() {
    // The same structure by hand, big endian: header, pointer IFD, GPS IFD
    // with latitude and longitude triples.
    let mut v: Vec<u8> = Vec::new();
    let u16be = |v: &mut Vec<u8>, x: u16| v.extend_from_slice(&x.to_be_bytes());
    let u32be = |v: &mut Vec<u8>, x: u32| v.extend_from_slice(&x.to_be_bytes());
    v.extend_from_slice(&[0x4d, 0x4d, 0x00, 0x2a]);
    u32be(&mut v, 8);
    u16be(&mut v, 1);
    u16be(&mut v, 0x8825);
    u16be(&mut v, 4);
    u32be(&mut v, 1);
    u32be(&mut v, 22);
    u16be(&mut v, 2);
    let data_off = 22 + 2 + 24;
    u16be(&mut v, 2);
    u16be(&mut v, 5);
    u32be(&mut v, 3);
    u32be(&mut v, data_off);
    u16be(&mut v, 4);
    u16be(&mut v, 5);
    u32be(&mut v, 3);
    u32be(&mut v, data_off + 24);
    for (num, den) in [(52u32, 1u32), (30, 1), (0, 1), (13, 1), (24, 1), (0, 1)] {
        u32be(&mut v, num);
        u32be(&mut v, den);
    }
    let c = coordinate_of(&v);
    assert_eq!(degrees(&c.latitude), 52.5);
    assert!((degrees(&c.longitude) - 13.4).abs() < 1e-12);
}
