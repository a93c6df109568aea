//! GPS coordinate extraction from the metadata container.
//!
//! The first IFD of the TIFF structure may carry a pointer to a GPS IFD,
//! whose entries hold the latitude and longitude as triples of unsigned
//! rationals (degrees, minutes, seconds) and the hemisphere references as
//! single-character fields. Decoding yields a signed decimal position;
//! an absent reference defaults to north or east, so the sign stays
//! positive.

use vstd::prelude::*;

verus! {

use crate::geo::ExifRational;
use crate::geo::GeoCoordinate;
use crate::geo::SignedRational;
use crate::geo::spec_triple_den;
use crate::geo::spec_triple_num;
use crate::geo::triple_to_rational;
use crate::tiff::extract_tiff_body;
use crate::tiff::find_entry;
use crate::tiff::read_u16;
use crate::tiff::read_u32;
use crate::tiff::spec_entry_count;
use crate::tiff::spec_entry_off;
use crate::tiff::spec_entry_type;
use crate::tiff::spec_entry_value;
use crate::tiff::spec_find_entry;
use crate::tiff::spec_header_ok;
use crate::tiff::spec_ifd0_off;
use crate::tiff::spec_ifd_ok;
use crate::tiff::spec_le;
use crate::tiff::spec_tiff_body;
use crate::tiff::spec_u32_at;

/// Why no usable location could be decoded. All three are expected,
/// recoverable outcomes: the image simply carries no usable location.
#[derive(Clone, Copy, PartialEq, Eq, Structural, Debug)]
pub enum DecodeError {
    /// The buffer is not a readable metadata container.
    Unreadable,
    /// The container carries no GPS coordinate field.
    NotFound,
    /// A GPS coordinate field is not a rational triple as the format
    /// demands.
    InvalidFormat,
}

/// Tag numbers of the GPS IFD fields, and of the GPS IFD pointer in the
/// first IFD.
pub const TAG_GPS_IFD_POINTER: u16 = 0x8825;

pub const TAG_LATITUDE_REF: u16 = 1;

pub const TAG_LATITUDE: u16 = 2;

pub const TAG_LONGITUDE_REF: u16 = 3;

pub const TAG_LONGITUDE: u16 = 4;

/// Value type codes of the TIFF structure.
pub const TYPE_ASCII: u16 = 2;

pub const TYPE_LONG: u16 = 4;

pub const TYPE_RATIONAL: u16 = 5;

/// The GPS IFD pointer entry of the first IFD, if any.
pub open spec fn spec_gps_ptr_entry(t: Seq<u8>) -> Option<int> {
    spec_find_entry(t, spec_ifd0_off(t), TAG_GPS_IFD_POINTER as int)
}

/// Offset of the GPS IFD. Meaningful only when the pointer entry exists.
pub open spec fn spec_gps_ifd_off(t: Seq<u8>) -> int {
    spec_entry_value(t, spec_ifd0_off(t), spec_gps_ptr_entry(t)->Some_0)
}

/// The entry with `tag` in the GPS IFD; `None` when the container has no
/// GPS IFD at all, or the GPS IFD has no such entry.
pub open spec fn spec_gps_entry(t: Seq<u8>, tag: int) -> Option<int> {
    match spec_gps_ptr_entry(t) {
        Some(_) => spec_find_entry(t, spec_gps_ifd_off(t), tag),
        None => None,
    }
}

/// The `j`-th rational (numerator, denominator) of the GPS entry with
/// `tag`. Meaningful only for a rational-typed entry with sound bounds.
pub open spec fn spec_gps_rat(t: Seq<u8>, tag: int, j: int) -> (int, int) {
    let g = spec_gps_ifd_off(t);
    let i = spec_gps_entry(t, tag)->Some_0;
    let data = spec_entry_value(t, g, i);
    (spec_u32_at(t, data + 8 * j, spec_le(t)), spec_u32_at(t, data + 8 * j + 4, spec_le(t)))
}

/// First byte of the hemisphere reference with `tag`: present only when
/// the entry exists, is ASCII-typed and nonempty. A short value sits in
/// the entry's value field itself, a longer one behind its offset.
pub open spec fn spec_ref_byte(t: Seq<u8>, tag: int) -> Option<u8> {
    match spec_gps_entry(t, tag) {
        None => None,
        Some(i) => {
            let g = spec_gps_ifd_off(t);
            if spec_entry_type(t, g, i) == TYPE_ASCII as int && spec_entry_count(t, g, i) >= 1 {
                if spec_entry_count(t, g, i) <= 4 {
                    Some(t[spec_entry_off(g, i) + 8])
                } else {
                    Some(t[spec_entry_value(t, g, i)])
                }
            } else {
                None
            }
        },
    }
}

/// The data of a rational triple with `tag` lies in bounds whenever the
/// decoder would read it.
pub open spec fn spec_coord_data_ok(t: Seq<u8>, tag: int) -> bool {
    match spec_gps_entry(t, tag) {
        None => true,
        Some(i) => {
            let g = spec_gps_ifd_off(t);
            (spec_entry_type(t, g, i) == TYPE_RATIONAL as int && spec_entry_count(t, g, i) == 3)
                ==> spec_entry_value(t, g, i) + 24 <= t.len()
        },
    }
}

/// The data of a hemisphere reference with `tag` lies in bounds whenever
/// the decoder would read it behind the entry's offset.
pub open spec fn spec_ref_data_ok(t: Seq<u8>, tag: int) -> bool {
    match spec_gps_entry(t, tag) {
        None => true,
        Some(i) => {
            let g = spec_gps_ifd_off(t);
            (spec_entry_type(t, g, i) == TYPE_ASCII as int && spec_entry_count(t, g, i) > 4)
                ==> spec_entry_value(t, g, i) + spec_entry_count(t, g, i) <= t.len()
        },
    }
}

/// Soundness of everything the decoder touches in the TIFF structure:
/// header and first IFD, and — once a GPS pointer exists — the pointer's
/// shape, the GPS IFD, and the data of the four GPS fields.
pub open spec fn spec_gps_structure_ok(t: Seq<u8>) -> bool {
    &&& spec_header_ok(t)
    &&& spec_ifd_ok(t, spec_ifd0_off(t))
    &&& match spec_gps_ptr_entry(t) {
        None => true,
        Some(i) => {
            &&& spec_entry_type(t, spec_ifd0_off(t), i) == TYPE_LONG as int
            &&& spec_entry_count(t, spec_ifd0_off(t), i) == 1
            &&& spec_ifd_ok(t, spec_gps_ifd_off(t))
            &&& spec_coord_data_ok(t, TAG_LATITUDE as int)
            &&& spec_coord_data_ok(t, TAG_LONGITUDE as int)
            &&& spec_ref_data_ok(t, TAG_LATITUDE_REF as int)
            &&& spec_ref_data_ok(t, TAG_LONGITUDE_REF as int)
        },
    }
}

/// The whole container parses far enough to look the GPS fields up.
pub open spec fn spec_container_ok(b: Seq<u8>) -> bool {
    &&& spec_tiff_body(b) is Some
    &&& spec_gps_structure_ok(spec_tiff_body(b)->Some_0)
}

/// A GPS coordinate field as looked up in the container.
#[derive(Clone, Copy, PartialEq, Eq, Structural, Debug)]
pub enum GpsFieldValue {
    /// A rational-typed field with exactly three components, as stored.
    RationalTriple(ExifRational, ExifRational, ExifRational),
    /// A rational-typed field with this many components instead of three.
    WrongArity(u32),
    /// A field of some other value type.
    OtherType,
}

/// The four GPS fields the decoder reads, each `None` when absent.
#[derive(Clone, Copy, PartialEq, Eq, Structural, Debug)]
pub struct GpsInfo {
    pub latitude: Option<GpsFieldValue>,
    pub longitude: Option<GpsFieldValue>,
    pub latitude_ref: Option<u8>,
    pub longitude_ref: Option<u8>,
}

/// A looked-up coordinate field reports exactly what the container stores
/// under `tag`.
pub open spec fn spec_field_matches(f: Option<GpsFieldValue>, t: Seq<u8>, tag: int) -> bool {
    match f {
        None => spec_gps_entry(t, tag) is None,
        Some(v) => {
            let g = spec_gps_ifd_off(t);
            let i = spec_gps_entry(t, tag)->Some_0;
            &&& spec_gps_entry(t, tag) is Some
            &&& match v {
                GpsFieldValue::OtherType => spec_entry_type(t, g, i) != TYPE_RATIONAL as int,
                GpsFieldValue::WrongArity(c) => {
                    &&& spec_entry_type(t, g, i) == TYPE_RATIONAL as int
                    &&& spec_entry_count(t, g, i) != 3
                    &&& c as int == spec_entry_count(t, g, i)
                },
                GpsFieldValue::RationalTriple(d, m, s) => {
                    &&& spec_entry_type(t, g, i) == TYPE_RATIONAL as int
                    &&& spec_entry_count(t, g, i) == 3
                    &&& (d.num as int, d.den as int) == spec_gps_rat(t, tag, 0)
                    &&& (m.num as int, m.den as int) == spec_gps_rat(t, tag, 1)
                    &&& (s.num as int, s.den as int) == spec_gps_rat(t, tag, 2)
                },
            }
        },
    }
}

/// The looked-up GPS fields report exactly what the container stores.
pub open spec fn spec_gps_info_matches(info: GpsInfo, t: Seq<u8>) -> bool {
    &&& spec_field_matches(info.latitude, t, TAG_LATITUDE as int)
    &&& spec_field_matches(info.longitude, t, TAG_LONGITUDE as int)
    &&& info.latitude_ref == spec_ref_byte(t, TAG_LATITUDE_REF as int)
    &&& info.longitude_ref == spec_ref_byte(t, TAG_LONGITUDE_REF as int)
}

/// Loads the coordinate field with `tag` from the GPS IFD.
fn load_coord_field(t: &[u8], gps_off: usize, tag: u16) -> (r: Result<
    Option<GpsFieldValue>,
    DecodeError,
>)
    requires
        spec_header_ok(t@),
        spec_gps_ptr_entry(t@) is Some,
        gps_off as int == spec_gps_ifd_off(t@),
        spec_ifd_ok(t@, gps_off as int),
    ensures
        match r {
            Ok(f) => spec_field_matches(f, t@, tag as int) && spec_coord_data_ok(t@, tag as int),
            Err(e) => e == DecodeError::Unreadable && !spec_coord_data_ok(t@, tag as int),
        },
{
    let n = t.len();
    let le = t[0] == 0x49;
    match find_entry(t, gps_off, tag) {
        None => Ok(None),
        Some(i) => {
            let entry = gps_off + 2 + 12 * i;
            let typ = read_u16(t, entry + 2, le);
            if typ != TYPE_RATIONAL {
                return Ok(Some(GpsFieldValue::OtherType));
            }
            let count = read_u32(t, entry + 4, le);
            if count != 3 {
                return Ok(Some(GpsFieldValue::WrongArity(count)));
            }
            let data = read_u32(t, entry + 8, le) as usize;
            if data > n || n - data < 24 {
                return Err(DecodeError::Unreadable);
            }
            let d = ExifRational { num: read_u32(t, data, le), den: read_u32(t, data + 4, le) };
            let m = ExifRational {
                num: read_u32(t, data + 8, le),
                den: read_u32(t, data + 12, le),
            };
            let s = ExifRational {
                num: read_u32(t, data + 16, le),
                den: read_u32(t, data + 20, le),
            };
            Ok(Some(GpsFieldValue::RationalTriple(d, m, s)))
        },
    }
}

/// Loads the hemisphere reference with `tag` from the GPS IFD.
fn load_ref_byte(t: &[u8], gps_off: usize, tag: u16) -> (r: Result<Option<u8>, DecodeError>)
    requires
        spec_header_ok(t@),
        spec_gps_ptr_entry(t@) is Some,
        gps_off as int == spec_gps_ifd_off(t@),
        spec_ifd_ok(t@, gps_off as int),
    ensures
        match r {
            Ok(o) => o == spec_ref_byte(t@, tag as int) && spec_ref_data_ok(t@, tag as int),
            Err(e) => e == DecodeError::Unreadable && !spec_ref_data_ok(t@, tag as int),
        },
{
    let n = t.len();
    let le = t[0] == 0x49;
    match find_entry(t, gps_off, tag) {
        None => Ok(None),
        Some(i) => {
            let entry = gps_off + 2 + 12 * i;
            let typ = read_u16(t, entry + 2, le);
            let count = read_u32(t, entry + 4, le);
            if typ != TYPE_ASCII || count == 0 {
                return Ok(None);
            }
            if count <= 4 {
                return Ok(Some(t[entry + 8]));
            }
            let data = read_u32(t, entry + 8, le) as usize;
            if data > n || (count as usize) > n - data {
                return Err(DecodeError::Unreadable);
            }
            Ok(Some(t[data]))
        },
    }
}

/// Looks the four GPS fields up in the container. Fails — always with
/// `Unreadable` — exactly when the container's structure is unsound
/// somewhere the lookup must read.
pub fn parse_gps_info(data: &[u8]) -> (r: Result<GpsInfo, DecodeError>)
    ensures
        match r {
            Ok(info) => spec_container_ok(data@) && spec_gps_info_matches(
                info,
                spec_tiff_body(data@)->Some_0,
            ),
            Err(e) => !spec_container_ok(data@) && e == DecodeError::Unreadable,
        },
{
    let body = match extract_tiff_body(data) {
        Some(v) => v,
        None => {
            return Err(DecodeError::Unreadable);
        },
    };
    let t = body.as_slice();
    let n = t.len();
    if n < 8 {
        return Err(DecodeError::Unreadable);
    }
    let marks = (t[0] == 0x49 && t[1] == 0x49) || (t[0] == 0x4d && t[1] == 0x4d);
    if !marks {
        return Err(DecodeError::Unreadable);
    }
    let le = t[0] == 0x49;
    if read_u16(t, 2, le) != 42 {
        return Err(DecodeError::Unreadable);
    }
    let ifd0 = read_u32(t, 4, le) as usize;
    if ifd0 > n || n - ifd0 < 2 {
        return Err(DecodeError::Unreadable);
    }
    let ifd0_count = read_u16(t, ifd0, le) as usize;
    if 12 * ifd0_count > n - ifd0 - 2 {
        return Err(DecodeError::Unreadable);
    }
    let ptr = match find_entry(t, ifd0, TAG_GPS_IFD_POINTER) {
        None => {
            return Ok(
                GpsInfo { latitude: None, longitude: None, latitude_ref: None, longitude_ref: None },
            );
        },
        Some(i) => i,
    };
    let ptr_entry = ifd0 + 2 + 12 * ptr;
    if read_u16(t, ptr_entry + 2, le) != TYPE_LONG {
        return Err(DecodeError::Unreadable);
    }
    if read_u32(t, ptr_entry + 4, le) != 1 {
        return Err(DecodeError::Unreadable);
    }
    let gps_off = read_u32(t, ptr_entry + 8, le) as usize;
    if gps_off > n || n - gps_off < 2 {
        return Err(DecodeError::Unreadable);
    }
    let gps_count = read_u16(t, gps_off, le) as usize;
    if 12 * gps_count > n - gps_off - 2 {
        return Err(DecodeError::Unreadable);
    }
    let latitude = match load_coord_field(t, gps_off, TAG_LATITUDE) {
        Ok(f) => f,
        Err(e) => {
            return Err(e);
        },
    };
    let longitude = match load_coord_field(t, gps_off, TAG_LONGITUDE) {
        Ok(f) => f,
        Err(e) => {
            return Err(e);
        },
    };
    let latitude_ref = match load_ref_byte(t, gps_off, TAG_LATITUDE_REF) {
        Ok(o) => o,
        Err(e) => {
            return Err(e);
        },
    };
    let longitude_ref = match load_ref_byte(t, gps_off, TAG_LONGITUDE_REF) {
        Ok(o) => o,
        Err(e) => {
            return Err(e);
        },
    };
    Ok(GpsInfo { latitude, longitude, latitude_ref, longitude_ref })
}

/// The four GPS fields a decoder step may name.
#[derive(Clone, Copy, PartialEq, Eq, Structural, Debug)]
pub enum GpsTag {
    Latitude,
    LatitudeRef,
    Longitude,
    LongitudeRef,
}

/// The looked-up coordinate field a tag names; the reference tags name
/// none.
pub open spec fn spec_coord_field(info: GpsInfo, tag: GpsTag) -> Option<GpsFieldValue> {
    match tag {
        GpsTag::Latitude => info.latitude,
        GpsTag::Longitude => info.longitude,
        GpsTag::LatitudeRef => None,
        GpsTag::LongitudeRef => None,
    }
}

/// The looked-up reference field a tag names; the coordinate tags name
/// none.
pub open spec fn spec_ref_field(info: GpsInfo, tag: GpsTag) -> Option<u8> {
    match tag {
        GpsTag::LatitudeRef => info.latitude_ref,
        GpsTag::LongitudeRef => info.longitude_ref,
        GpsTag::Latitude => None,
        GpsTag::Longitude => None,
    }
}

/// An absent latitude reference defaults to north, an absent longitude
/// reference to east.
pub open spec fn spec_default_ref(tag: GpsTag) -> char {
    if tag is LatitudeRef {
        'N'
    } else {
        'E'
    }
}

/// Converts the coordinate field a tag names to decimal degrees, as the
/// exact nonnegative rational `d + m/60 + s/3600`: an absent field is
/// `NotFound`; a field of another value type, of an arity other than
/// three, or with a zero denominator is `InvalidFormat`.
pub fn exif_coord_to_decimal(info: &GpsInfo, tag: GpsTag) -> (r: Result<
    SignedRational,
    DecodeError,
>)
    requires
        tag is Latitude || tag is Longitude,
    ensures
        match spec_coord_field(*info, tag) {
            None => r == Err::<SignedRational, DecodeError>(DecodeError::NotFound),
            Some(GpsFieldValue::OtherType) => r == Err::<SignedRational, DecodeError>(
                DecodeError::InvalidFormat,
            ),
            Some(GpsFieldValue::WrongArity(_)) => r == Err::<SignedRational, DecodeError>(
                DecodeError::InvalidFormat,
            ),
            Some(GpsFieldValue::RationalTriple(d, m, s)) => {
                if d.den == 0 || m.den == 0 || s.den == 0 {
                    r == Err::<SignedRational, DecodeError>(DecodeError::InvalidFormat)
                } else {
                    &&& r is Ok
                    &&& r->Ok_0.wf()
                    &&& !r->Ok_0.negative
                    &&& r->Ok_0.num as int == spec_triple_num(d, m, s)
                    &&& r->Ok_0.den as int == spec_triple_den(d, m, s)
                }
            },
        },
{
    let field = match tag {
        GpsTag::Latitude => &info.latitude,
        GpsTag::Longitude => &info.longitude,
        GpsTag::LatitudeRef => &None,
        GpsTag::LongitudeRef => &None,
    };
    match field {
        None => Err(DecodeError::NotFound),
        Some(GpsFieldValue::OtherType) => Err(DecodeError::InvalidFormat),
        Some(GpsFieldValue::WrongArity(_)) => Err(DecodeError::InvalidFormat),
        Some(GpsFieldValue::RationalTriple(d, m, s)) => {
            if d.den == 0 || m.den == 0 || s.den == 0 {
                Err(DecodeError::InvalidFormat)
            } else {
                Ok(triple_to_rational(*d, *m, *s))
            }
        },
    }
}

/// The hemisphere character of the reference field a tag names: the
/// field's first character when present, otherwise the tag's default —
/// `N` for the latitude reference, `E` for the longitude reference.
pub fn exif_coordref_to_char(info: &GpsInfo, tag: GpsTag) -> (c: char)
    requires
        tag is LatitudeRef || tag is LongitudeRef,
    ensures
        c == match spec_ref_field(*info, tag) {
            Some(b) => b as char,
            None => spec_default_ref(tag),
        },
{
    let field = match tag {
        GpsTag::LatitudeRef => &info.latitude_ref,
        GpsTag::LongitudeRef => &info.longitude_ref,
        GpsTag::Latitude => &None,
        GpsTag::Longitude => &None,
    };
    match field {
        Some(b) => *b as char,
        None => {
            if matches!(tag, GpsTag::LatitudeRef) {
                'N'
            } else {
                'E'
            }
        },
    }
}

/// Decimal value of the coordinate field under `tag`, as the numerator and
/// denominator of the exact sexagesimal sum, or the decode error the field
/// yields.
pub open spec fn spec_coord_outcome(t: Seq<u8>, tag: int) -> Result<(int, int), DecodeError> {
    match spec_gps_entry(t, tag) {
        None => Err(DecodeError::NotFound),
        Some(i) => {
            let g = spec_gps_ifd_off(t);
            if spec_entry_type(t, g, i) != TYPE_RATIONAL as int {
                Err(DecodeError::InvalidFormat)
            } else if spec_entry_count(t, g, i) != 3 {
                Err(DecodeError::InvalidFormat)
            } else {
                let d = spec_gps_rat(t, tag, 0);
                let m = spec_gps_rat(t, tag, 1);
                let s = spec_gps_rat(t, tag, 2);
                if d.1 == 0 || m.1 == 0 || s.1 == 0 {
                    Err(DecodeError::InvalidFormat)
                } else {
                    Ok(
                        (
                            crate::geo::spec_sexagesimal_num(d.0, d.1, m.0, m.1, s.0, s.1),
                            crate::geo::spec_sexagesimal_den(d.1, m.1, s.1),
                        ),
                    )
                }
            }
        },
    }
}

/// What decoding a container yields: a signed latitude and longitude, each
/// as (negated, numerator, denominator) of an exact rational in decimal
/// degrees, or the decode error. The longitude field is read first, so its
/// error wins when both fields are bad; the sign is negative exactly when
/// the stored reference begins with `S` (latitude, code 83) or `W`
/// (longitude, code 87).
pub open spec fn spec_extract_location(b: Seq<u8>) -> Result<
    ((bool, int, int), (bool, int, int)),
    DecodeError,
> {
    if !spec_container_ok(b) {
        Err(DecodeError::Unreadable)
    } else {
        let t = spec_tiff_body(b)->Some_0;
        match spec_coord_outcome(t, TAG_LONGITUDE as int) {
            Err(e) => Err(e),
            Ok(lon) => match spec_coord_outcome(t, TAG_LATITUDE as int) {
                Err(e) => Err(e),
                Ok(lat) => Ok(
                    (
                        (spec_ref_byte(t, TAG_LATITUDE_REF as int) == Some(83u8), lat.0, lat.1),
                        (spec_ref_byte(t, TAG_LONGITUDE_REF as int) == Some(87u8), lon.0, lon.1),
                    ),
                ),
            },
        }
    }
}

/// The executable coordinate holds exactly the decoded values: sign,
/// numerator and denominator of each angle.
pub open spec fn spec_coordinate_matches(
    c: GeoCoordinate,
    s: ((bool, int, int), (bool, int, int)),
) -> bool {
    &&& c.latitude.negative == s.0.0
    &&& c.latitude.num as int == s.0.1
    &&& c.latitude.den as int == s.0.2
    &&& c.longitude.negative == s.1.0
    &&& c.longitude.num as int == s.1.1
    &&& c.longitude.den as int == s.1.2
}

/// Extracts the position embedded in an image's metadata: parses the
/// container, decodes the two coordinate fields to exact decimal degrees,
/// and folds the hemisphere references into the signs. Fails exactly as
/// `spec_extract_location` says: `Unreadable` for a container the lookup
/// cannot read, `NotFound` for an absent coordinate field, and
/// `InvalidFormat` for one that is not a well-formed rational triple.
pub fn extract_location_from_exif(data: &[u8]) -> (r: Result<GeoCoordinate, DecodeError>)
    ensures
        match r {
            Ok(c) => {
                &&& spec_extract_location(data@) is Ok
                &&& c.wf()
                &&& spec_coordinate_matches(c, spec_extract_location(data@)->Ok_0)
            },
            Err(e) => spec_extract_location(data@) == Err::<
                ((bool, int, int), (bool, int, int)),
                DecodeError,
            >(e),
        },
{
    let info = match parse_gps_info(data) {
        Ok(info) => info,
        Err(e) => {
            return Err(e);
        },
    };
    let longitude = match exif_coord_to_decimal(&info, GpsTag::Longitude) {
        Ok(v) => v,
        Err(e) => {
            return Err(e);
        },
    };
    let latitude = match exif_coord_to_decimal(&info, GpsTag::Latitude) {
        Ok(v) => v,
        Err(e) => {
            return Err(e);
        },
    };
    let lat_ref = exif_coordref_to_char(&info, GpsTag::LatitudeRef);
    let lon_ref = exif_coordref_to_char(&info, GpsTag::LongitudeRef);
    let latitude = SignedRational { negative: lat_ref == 'S', ..latitude };
    let longitude = SignedRational { negative: lon_ref == 'W', ..longitude };
    Ok(GeoCoordinate { latitude, longitude })
}

/// Law: an absent latitude reference leaves the latitude's sign positive;
/// a reference stored as `S` (code 83) flips it, and any other stored
/// reference leaves it positive. The longitude behaves the same with `W`
/// (code 87).
pub proof fn lemma_reference_defaulting(b: Seq<u8>)
    requires
        spec_extract_location(b) is Ok,
    ensures
        ({
            let t = spec_tiff_body(b)->Some_0;
            let c = spec_extract_location(b)->Ok_0;
            &&& (spec_ref_byte(t, TAG_LATITUDE_REF as int) is None ==> !c.0.0)
            &&& (spec_ref_byte(t, TAG_LATITUDE_REF as int) == Some(83u8) ==> c.0.0)
            &&& ((spec_ref_byte(t, TAG_LATITUDE_REF as int) is Some && spec_ref_byte(
                t,
                TAG_LATITUDE_REF as int,
            ) != Some(83u8)) ==> !c.0.0)
            &&& (spec_ref_byte(t, TAG_LONGITUDE_REF as int) is None ==> !c.1.0)
            &&& (spec_ref_byte(t, TAG_LONGITUDE_REF as int) == Some(87u8) ==> c.1.0)
            &&& ((spec_ref_byte(t, TAG_LONGITUDE_REF as int) is Some && spec_ref_byte(
                t,
                TAG_LONGITUDE_REF as int,
            ) != Some(87u8)) ==> !c.1.0)
        }),
{
}

/// Law: a container the lookup cannot read decodes to `Unreadable`, and to
/// nothing else.
pub proof fn lemma_unreadable_container(b: Seq<u8>)
    ensures
        spec_extract_location(b) == Err::<((bool, int, int), (bool, int, int)), DecodeError>(
            DecodeError::Unreadable,
        ) <==> !spec_container_ok(b),
{
}

/// Law, the error taxonomy of one coordinate field: an absent field is
/// `NotFound`; a field of another value type, of an arity other than
/// three, or with a zero denominator is `InvalidFormat`; and a sound
/// rational triple decodes to the exact sexagesimal sum.
pub proof fn lemma_coordinate_field_errors(t: Seq<u8>, tag: int)
    ensures
        spec_gps_entry(t, tag) is None ==> spec_coord_outcome(t, tag) == Err::<
            (int, int),
            DecodeError,
        >(DecodeError::NotFound),
        (spec_gps_entry(t, tag) is Some && spec_entry_type(
            t,
            spec_gps_ifd_off(t),
            spec_gps_entry(t, tag)->Some_0,
        ) != TYPE_RATIONAL as int) ==> spec_coord_outcome(t, tag) == Err::<(int, int), DecodeError>(
            DecodeError::InvalidFormat,
        ),
        (spec_gps_entry(t, tag) is Some && spec_entry_type(
            t,
            spec_gps_ifd_off(t),
            spec_gps_entry(t, tag)->Some_0,
        ) == TYPE_RATIONAL as int && spec_entry_count(
            t,
            spec_gps_ifd_off(t),
            spec_gps_entry(t, tag)->Some_0,
        ) != 3) ==> spec_coord_outcome(t, tag) == Err::<(int, int), DecodeError>(
            DecodeError::InvalidFormat,
        ),
{
}

/// Law: in a readable container the longitude field's error surfaces
/// first, then the latitude's; the decode succeeds exactly when both
/// fields decode.
pub proof fn lemma_error_order(b: Seq<u8>)
    requires
        spec_container_ok(b),
    ensures
        ({
            let t = spec_tiff_body(b)->Some_0;
            &&& (spec_coord_outcome(t, TAG_LONGITUDE as int) matches Err(e) ==> spec_extract_location(
                b,
            ) == Err::<((bool, int, int), (bool, int, int)), DecodeError>(e))
            &&& (spec_coord_outcome(t, TAG_LONGITUDE as int) is Ok ==> (spec_coord_outcome(
                t,
                TAG_LATITUDE as int,
            ) matches Err(e) ==> spec_extract_location(b) == Err::<
                ((bool, int, int), (bool, int, int)),
                DecodeError,
            >(e)))
            &&& (spec_extract_location(b) is Ok <==> (spec_coord_outcome(t, TAG_LONGITUDE as int)
                is Ok && spec_coord_outcome(t, TAG_LATITUDE as int) is Ok))
        }),
{
}

} // verus!
