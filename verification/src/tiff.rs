//! Byte-level access to the metadata container.
//!
//! The container is either a bare TIFF structure or a JPEG file whose
//! metadata segment carries one. A TIFF structure opens with a byte-order
//! mark (`II` little endian, `MM` big endian), the magic number 42, and the
//! offset of the first image file directory (IFD). An IFD is a 16-bit entry
//! count followed by 12-byte entries: tag, value type, value count, and a
//! value field that holds the value itself when it fits in four bytes and
//! its offset otherwise. All offsets are relative to the start of the TIFF
//! structure.

use vstd::prelude::*;

verus! {

/// The 16-bit value at `i`, little or big endian.
pub open spec fn spec_u16_at(b: Seq<u8>, i: int, le: bool) -> int {
    if le {
        b[i] + 256 * b[i + 1]
    } else {
        b[i + 1] + 256 * b[i]
    }
}

/// The 32-bit value at `i`, little or big endian.
pub open spec fn spec_u32_at(b: Seq<u8>, i: int, le: bool) -> int {
    if le {
        spec_u16_at(b, i, true) + 0x10000 * spec_u16_at(b, i + 2, true)
    } else {
        spec_u16_at(b, i + 2, false) + 0x10000 * spec_u16_at(b, i, false)
    }
}

pub fn read_u16(b: &[u8], i: usize, le: bool) -> (v: u16)
    requires
        i + 2 <= b@.len(),
    ensures
        v as int == spec_u16_at(b@, i as int, le),
{
    // Anchors the view's length to a usize, so index arithmetic below is
    // known not to overflow.
    let n = b.len();
    let lo: u8 = if le { b[i] } else { b[i + 1] };
    let hi: u8 = if le { b[i + 1] } else { b[i] };
    (lo as u16) + 256 * (hi as u16)
}

pub fn read_u32(b: &[u8], i: usize, le: bool) -> (v: u32)
    requires
        i + 4 <= b@.len(),
    ensures
        v as int == spec_u32_at(b@, i as int, le),
{
    // As in read_u16: anchors the view's length to a usize.
    let n = b.len();
    let lo: u16 = if le { read_u16(b, i, true) } else { read_u16(b, i + 2, false) };
    let hi: u16 = if le { read_u16(b, i + 2, true) } else { read_u16(b, i, false) };
    (lo as u32) + 0x10000 * (hi as u32)
}

/// Whether the TIFF structure is little endian. Meaningful under
/// `spec_header_ok`.
pub open spec fn spec_le(t: Seq<u8>) -> bool {
    t[0] == 0x49
}

/// A sound TIFF opening: byte-order mark and the magic number 42.
pub open spec fn spec_header_ok(t: Seq<u8>) -> bool {
    &&& t.len() >= 8
    &&& ((t[0] == 0x49 && t[1] == 0x49) || (t[0] == 0x4d && t[1] == 0x4d))
    &&& spec_u16_at(t, 2, spec_le(t)) == 42
}

/// Offset of the first IFD.
pub open spec fn spec_ifd0_off(t: Seq<u8>) -> int {
    spec_u32_at(t, 4, spec_le(t))
}

/// Number of entries of the IFD at `off`.
pub open spec fn spec_ifd_count(t: Seq<u8>, off: int) -> int {
    spec_u16_at(t, off, spec_le(t))
}

/// The IFD at `off` lies in bounds: its count field and all its entries.
pub open spec fn spec_ifd_ok(t: Seq<u8>, off: int) -> bool {
    &&& 0 <= off
    &&& off + 2 <= t.len()
    &&& off + 2 + 12 * spec_ifd_count(t, off) <= t.len()
}

/// Offset of entry `i` of the IFD at `off`.
pub open spec fn spec_entry_off(off: int, i: int) -> int {
    off + 2 + 12 * i
}

pub open spec fn spec_entry_tag(t: Seq<u8>, off: int, i: int) -> int {
    spec_u16_at(t, spec_entry_off(off, i), spec_le(t))
}

pub open spec fn spec_entry_type(t: Seq<u8>, off: int, i: int) -> int {
    spec_u16_at(t, spec_entry_off(off, i) + 2, spec_le(t))
}

pub open spec fn spec_entry_count(t: Seq<u8>, off: int, i: int) -> int {
    spec_u32_at(t, spec_entry_off(off, i) + 4, spec_le(t))
}

/// The raw 32-bit value field of entry `i`: the value itself when it fits,
/// otherwise its offset.
pub open spec fn spec_entry_value(t: Seq<u8>, off: int, i: int) -> int {
    spec_u32_at(t, spec_entry_off(off, i) + 8, spec_le(t))
}

/// Index of the first entry of the IFD at `off` that carries `tag`,
/// searching from entry `i` on.
pub open spec fn spec_find_entry_from(t: Seq<u8>, off: int, tag: int, i: int) -> Option<int>
    decreases spec_ifd_count(t, off) - i,
{
    if i < 0 || i >= spec_ifd_count(t, off) {
        None
    } else if spec_entry_tag(t, off, i) == tag {
        Some(i)
    } else {
        spec_find_entry_from(t, off, tag, i + 1)
    }
}

/// Index of the first entry of the IFD at `off` that carries `tag`.
pub open spec fn spec_find_entry(t: Seq<u8>, off: int, tag: int) -> Option<int> {
    spec_find_entry_from(t, off, tag, 0)
}

/// Finds the first entry with `tag` in the IFD at `off`.
pub fn find_entry(t: &[u8], off: usize, tag: u16) -> (r: Option<usize>)
    requires
        spec_header_ok(t@),
        spec_ifd_ok(t@, off as int),
    ensures
        match r {
            Some(i) => spec_find_entry(t@, off as int, tag as int) == Some(i as int) && i
                < spec_ifd_count(t@, off as int),
            None => spec_find_entry(t@, off as int, tag as int) is None,
        },
{
    let n = t.len();
    let le = t[0] == 0x49;
    let count = read_u16(t, off, le);
    let mut i: usize = 0;
    while i < count as usize
        invariant
            spec_header_ok(t@),
            spec_ifd_ok(t@, off as int),
            n == t@.len(),
            le == spec_le(t@),
            count as int == spec_ifd_count(t@, off as int),
            i <= count as usize,
            spec_find_entry(t@, off as int, tag as int) == spec_find_entry_from(
                t@,
                off as int,
                tag as int,
                i as int,
            ),
        decreases count as int - i,
    {
        let entry_tag = read_u16(t, off + 2 + 12 * i, le);
        if entry_tag == tag {
            return Some(i);
        }
        i = i + 1;
    }
    None
}

/// Whether the buffer is a JPEG file.
pub open spec fn spec_is_jpeg(b: Seq<u8>) -> bool {
    b.len() >= 2 && b[0] == 0xff && b[1] == 0xd8
}

/// Markers that stand alone, without a length field.
pub open spec fn spec_standalone_marker(m: u8) -> bool {
    m == 0x01 || (0xd0 <= m && m <= 0xd7)
}

/// The six-byte metadata signature `Exif\0\0` at `i`.
pub open spec fn spec_exif_signature_at(b: Seq<u8>, i: int) -> bool {
    &&& b[i] == 0x45
    &&& b[i + 1] == 0x78
    &&& b[i + 2] == 0x69
    &&& b[i + 3] == 0x66
    &&& b[i + 4] == 0x00
    &&& b[i + 5] == 0x00
}

/// Scans JPEG segments from `off` for the first metadata segment with the
/// `Exif\0\0` signature; yields the TIFF region within the buffer. The scan
/// ends without a find at the picture data, at the end marker, or at any
/// structural fault.
pub open spec fn spec_jpeg_scan(b: Seq<u8>, off: int) -> Option<(int, int)>
    decreases b.len() - off,
{
    if off + 4 > b.len() {
        None
    } else if b[off] != 0xff {
        None
    } else if b[off + 1] == 0xd9 || b[off + 1] == 0xda {
        None
    } else if spec_standalone_marker(b[off + 1]) {
        spec_jpeg_scan(b, off + 2)
    } else {
        let seglen = spec_u16_at(b, off + 2, false);
        if seglen < 2 {
            None
        } else if off + 2 + seglen > b.len() {
            None
        } else if b[off + 1] == 0xe1 && seglen >= 8 && spec_exif_signature_at(b, off + 4) {
            Some((off + 10, off + 2 + seglen))
        } else {
            spec_jpeg_scan(b, off + 2 + seglen)
        }
    }
}

/// The TIFF region of the container: the whole buffer for a bare TIFF
/// structure, or the body of the JPEG metadata segment.
pub open spec fn spec_tiff_region(b: Seq<u8>) -> Option<(int, int)> {
    if spec_header_ok(b) {
        Some((0, b.len() as int))
    } else if spec_is_jpeg(b) {
        spec_jpeg_scan(b, 2)
    } else {
        None
    }
}

/// The bytes of the TIFF structure inside the container.
pub open spec fn spec_tiff_body(b: Seq<u8>) -> Option<Seq<u8>> {
    match spec_tiff_region(b) {
        Some(r) => Some(b.subrange(r.0, r.1)),
        None => None,
    }
}

/// Locates the TIFF region of the container.
fn find_tiff_region(b: &[u8]) -> (r: Option<(usize, usize)>)
    ensures
        match r {
            Some(p) => spec_tiff_region(b@) == Some((p.0 as int, p.1 as int)) && p.0 <= p.1 <= b@.len(),
            None => spec_tiff_region(b@) is None,
        },
{
    let n = b.len();
    if n >= 8 {
        let marks = (b[0] == 0x49 && b[1] == 0x49) || (b[0] == 0x4d && b[1] == 0x4d);
        if marks {
            let le = b[0] == 0x49;
            if read_u16(b, 2, le) == 42 {
                return Some((0, n));
            }
        }
    }
    if n < 2 || b[0] != 0xff || b[1] != 0xd8 {
        return None;
    }
    let mut off: usize = 2;
    loop
        invariant
            2 <= off <= n,
            n == b@.len(),
            spec_jpeg_scan(b@, 2) == spec_jpeg_scan(b@, off as int),
            spec_tiff_region(b@) == spec_jpeg_scan(b@, 2),
        decreases n - off,
    {
        if n - off < 4 {
            return None;
        }
        if b[off] != 0xff {
            return None;
        }
        let marker = b[off + 1];
        if marker == 0xd9 || marker == 0xda {
            return None;
        }
        let ghost prev: int = off as int;
        if marker == 0x01 || (0xd0 <= marker && marker <= 0xd7) {
            off = off + 2;
            proof {
                assert(spec_jpeg_scan(b@, prev) == spec_jpeg_scan(b@, off as int));
            }
        } else {
            let seglen = read_u16(b, off + 2, false) as usize;
            if seglen < 2 {
                return None;
            }
            if seglen > n - (off + 2) {
                return None;
            }
            if marker == 0xe1 && seglen >= 8 && b[off + 4] == 0x45 && b[off + 5] == 0x78 && b[off
                + 6] == 0x69 && b[off + 7] == 0x66 && b[off + 8] == 0x00 && b[off + 9] == 0x00 {
                return Some((off + 10, off + 2 + seglen));
            }
            off = off + 2 + seglen;
            proof {
                assert(spec_jpeg_scan(b@, prev) == spec_jpeg_scan(b@, off as int));
            }
        }
    }
}

/// Copies the TIFF structure out of the container; `None` when the
/// container carries none.
pub fn extract_tiff_body(b: &[u8]) -> (r: Option<Vec<u8>>)
    ensures
        match r {
            Some(v) => spec_tiff_body(b@) == Some(v@),
            None => spec_tiff_body(b@) is None,
        },
{
    match find_tiff_region(b) {
        None => None,
        Some((start, end)) => {
            let mut v: Vec<u8> = Vec::new();
            let mut i: usize = start;
            while i < end
                invariant
                    start <= i <= end <= b@.len(),
                    v@ == b@.subrange(start as int, i as int),
                decreases end - i,
            {
                v.push(b[i]);
                i = i + 1;
                proof {
                    assert(b@.subrange(start as int, i as int) =~= b@.subrange(
                        start as int,
                        i - 1,
                    ).push(b@[i - 1]));
                }
            }
            Some(v)
        },
    }
}

} // verus!
