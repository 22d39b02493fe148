//! Parsing of `.ico` files and of the `RT_GROUP_ICON` directory that Windows keeps
//! inside a PE.
//!
//! The two formats are almost the same, with one difference that matters: an
//! `ICONDIRENTRY` in a file ends with a 4-byte offset into that file, while a
//! `GRPICONDIRENTRY` in a binary ends with a 2-byte `RT_ICON` resource id. Building
//! one from the other is the whole job here.

use vstd::prelude::*;

use crate::Error;

verus! {

pub const FILE_HEADER_LEN: usize = 6;

pub const FILE_ENTRY_LEN: usize = 16;

pub const GROUP_ENTRY_LEN: usize = 14;

/// One image inside an icon file, borrowed from the caller's bytes.
pub struct Image<'a> {
    pub width: u8,
    pub height: u8,
    pub colors: u8,
    pub reserved: u8,
    pub planes: u16,
    pub bpp: u16,
    pub data: &'a [u8],
}

// ---------------------------------------------------------------------------
// Little-endian fields
// ---------------------------------------------------------------------------
/// The little-endian 16-bit value stored at `at`.
pub open spec fn le16(b: Seq<u8>, at: int) -> int {
    b[at] + 256 * b[at + 1]
}

/// The little-endian 32-bit value stored at `at`.
pub open spec fn le32(b: Seq<u8>, at: int) -> int {
    b[at] + 256 * b[at + 1] + 65536 * b[at + 2] + 16777216 * b[at + 3]
}

/// The two bytes that store `v` (taken modulo 2^16) in little-endian order.
pub open spec fn le16_bytes(v: int) -> Seq<u8> {
    seq![(v % 256) as u8, (v / 256 % 256) as u8]
}

/// The four bytes that store `v` (taken modulo 2^32) in little-endian order.
pub open spec fn le32_bytes(v: int) -> Seq<u8> {
    seq![(v % 256) as u8, (v / 256 % 256) as u8, (v / 65536 % 256) as u8, (v / 16777216 % 256) as u8]
}

fn u16(bytes: &[u8], at: usize) -> (r: u16)
    requires
        at + 1 < bytes@.len(),
    ensures
        r == le16(bytes@, at as int),
{
    bytes[at] as u16 + (bytes[at + 1] as u16) * 256
}

fn u32(bytes: &[u8], at: usize) -> (r: u32)
    requires
        at + 3 < bytes@.len(),
    ensures
        r == le32(bytes@, at as int),
{
    bytes[at] as u32 + (bytes[at + 1] as u32) * 256 + (bytes[at + 2] as u32) * 65536 + (
    bytes[at + 3] as u32) * 16777216
}

fn push_le16(out: &mut Vec<u8>, v: u16)
    ensures
        final(out)@ == old(out)@ + le16_bytes(v as int),
{
    out.push((v % 256) as u8);
    out.push((v / 256) as u8);
}

fn push_le32(out: &mut Vec<u8>, v: u32)
    ensures
        final(out)@ == old(out)@ + le32_bytes(v as int),
{
    out.push((v % 256) as u8);
    out.push((v / 256 % 256) as u8);
    out.push((v / 65536 % 256) as u8);
    out.push((v / 16777216) as u8);
}

// ---------------------------------------------------------------------------
// The `.ico` file format
// ---------------------------------------------------------------------------
/// Where the directory entry of image `i` starts in a file.
pub open spec fn file_entry_at(i: int) -> int {
    6 + 16 * i
}

/// The number of images a file header declares.
pub open spec fn declared_count(b: Seq<u8>) -> int {
    le16(b, 4)
}

pub open spec fn image_size(b: Seq<u8>, i: int) -> int {
    le32(b, file_entry_at(i) + 8)
}

pub open spec fn image_offset(b: Seq<u8>, i: int) -> int {
    le32(b, file_entry_at(i) + 12)
}

/// What is wrong with the header and directory of `b`, if anything.
pub open spec fn header_problem(b: Seq<u8>) -> Option<&'static str> {
    if b.len() < 6 {
        Some("shorter than an icon header")
    } else if le16(b, 0) != 0 {
        Some("reserved field is not zero")
    } else if le16(b, 2) != 1 {
        Some("not an icon (type is not 1)")
    } else if declared_count(b) == 0 {
        Some("contains no images")
    } else if b.len() < file_entry_at(declared_count(b)) {
        Some("directory is truncated")
    } else {
        None
    }
}

/// What is wrong with directory entry `i` of `b`, if anything.
pub open spec fn entry_problem(b: Seq<u8>, i: int) -> Option<&'static str> {
    if image_size(b, i) == 0 {
        Some("an image is empty")
    } else if image_offset(b, i) + image_size(b, i) > usize::MAX {
        Some("an image offset overflows")
    } else if image_offset(b, i) + image_size(b, i) > b.len() {
        Some("an image runs past the end of the file")
    } else {
        None
    }
}

/// The problem of the first entry at or after `i` (and before `count`) that has one.
pub open spec fn first_entry_problem(b: Seq<u8>, count: int, i: int) -> Option<&'static str>
    decreases count - i,
{
    if i >= count {
        None
    } else if entry_problem(b, i) is Some {
        entry_problem(b, i)
    } else {
        first_entry_problem(b, count, i + 1)
    }
}

/// Why `b` is not an acceptable icon file, or `None` when it is one.
pub open spec fn icon_problem(b: Seq<u8>) -> Option<&'static str> {
    if header_problem(b) is Some {
        header_problem(b)
    } else {
        first_entry_problem(b, declared_count(b), 0)
    }
}

/// `img` is what directory entry `i` of the file `b` describes.
pub open spec fn image_matches(img: Image, b: Seq<u8>, i: int) -> bool {
    let at = file_entry_at(i);
    &&& img.width == b[at]
    &&& img.height == b[at + 1]
    &&& img.colors == b[at + 2]
    &&& img.reserved == b[at + 3]
    &&& img.planes == le16(b, at + 4)
    &&& img.bpp == le16(b, at + 6)
    &&& img.data@ == b.subrange(image_offset(b, i), image_offset(b, i) + image_size(b, i))
}

/// Parses a complete `.ico`, validating every entry before returning.
///
/// Nothing is written to a binary until this has succeeded, which is what keeps a
/// truncated or malformed icon from leaving half-written resources inside the
/// caller's own executable.
pub fn parse(bytes: &[u8]) -> (r: Result<Vec<Image<'_>>, Error>)
    ensures
        r is Ok <==> icon_problem(bytes@) is None,
        r matches Err(e) ==> e == Error::MalformedIcon(icon_problem(bytes@).unwrap()),
        r matches Ok(images) ==> {
            &&& images@.len() == declared_count(bytes@)
            &&& forall|i: int|
                0 <= i < images@.len() ==> #[trigger] image_matches(images@[i], bytes@, i)
            &&& forall|i: int|
                0 <= i < images@.len() ==> (#[trigger] images@[i]).data@ == bytes@.subrange(
                    bytes@[6 + 16 * i + 12] + 256 * bytes@[6 + 16 * i + 13] + 65536 * bytes@[6
                        + 16 * i + 14] + 16777216 * bytes@[6 + 16 * i + 15],
                    bytes@[6 + 16 * i + 12] + 256 * bytes@[6 + 16 * i + 13] + 65536 * bytes@[6
                        + 16 * i + 14] + 16777216 * bytes@[6 + 16 * i + 15] + bytes@[6 + 16 * i
                        + 8] + 256 * bytes@[6 + 16 * i + 9] + 65536 * bytes@[6 + 16 * i + 10]
                        + 16777216 * bytes@[6 + 16 * i + 11],
                )
        },
{
    if bytes.len() < FILE_HEADER_LEN {
        return Err(Error::MalformedIcon("shorter than an icon header"));
    }
    if u16(bytes, 0) != 0 {
        return Err(Error::MalformedIcon("reserved field is not zero"));
    }
    if u16(bytes, 2) != 1 {
        return Err(Error::MalformedIcon("not an icon (type is not 1)"));
    }
    let count = u16(bytes, 4) as usize;
    if count == 0 {
        return Err(Error::MalformedIcon("contains no images"));
    }
    // At most 65535 entries of 16 bytes: the directory length always fits a usize.
    let directory_end = FILE_HEADER_LEN + count * FILE_ENTRY_LEN;
    if bytes.len() < directory_end {
        return Err(Error::MalformedIcon("directory is truncated"));
    }
    assert(header_problem(bytes@) is None);

    let mut images: Vec<Image<'_>> = Vec::with_capacity(count);
    let mut index: usize = 0;
    while index < count
        invariant
            header_problem(bytes@) is None,
            count == declared_count(bytes@),
            file_entry_at(count as int) <= bytes@.len(),
            index <= count,
            images@.len() == index,
            first_entry_problem(bytes@, count as int, 0) == first_entry_problem(
                bytes@,
                count as int,
                index as int,
            ),
            forall|i: int| 0 <= i < index ==> #[trigger] image_matches(images@[i], bytes@, i),
        decreases count - index,
    {
        let at = FILE_HEADER_LEN + index * FILE_ENTRY_LEN;
        let size = u32(bytes, at + 8) as usize;
        let offset = u32(bytes, at + 12) as usize;
        if size == 0 {
            return Err(Error::MalformedIcon("an image is empty"));
        }
        let end = match offset.checked_add(size) {
            Some(end) => end,
            None => {
                return Err(Error::MalformedIcon("an image offset overflows"));
            },
        };
        if end > bytes.len() {
            return Err(Error::MalformedIcon("an image runs past the end of the file"));
        }
        let image = Image {
            width: bytes[at],
            height: bytes[at + 1],
            colors: bytes[at + 2],
            reserved: bytes[at + 3],
            planes: u16(bytes, at + 4),
            bpp: u16(bytes, at + 6),
            data: vstd::slice::slice_subrange(bytes, offset, end),
        };
        images.push(image);
        index = index + 1;
    }
    proof {
        assert forall|i: int| 0 <= i < images@.len() implies (#[trigger] images@[i]).data@
            == bytes@.subrange(
            bytes@[6 + 16 * i + 12] + 256 * bytes@[6 + 16 * i + 13] + 65536 * bytes@[6 + 16 * i
                + 14] + 16777216 * bytes@[6 + 16 * i + 15],
            bytes@[6 + 16 * i + 12] + 256 * bytes@[6 + 16 * i + 13] + 65536 * bytes@[6 + 16 * i
                + 14] + 16777216 * bytes@[6 + 16 * i + 15] + bytes@[6 + 16 * i + 8] + 256
                * bytes@[6 + 16 * i + 9] + 65536 * bytes@[6 + 16 * i + 10] + 16777216 * bytes@[6
                + 16 * i + 11],
        ) by {
            lemma_image_data_is_its_entrys_bytes(images@[i], bytes@, i);
        }
    }
    Ok(images)
}

/// The bytes of an image are the ones its directory entry points at: the run of
/// `size` bytes (the 32-bit little-endian value in bytes 8..12 of the entry) that
/// starts at `offset` (the 32-bit little-endian value in bytes 12..16), all four
/// bytes of each taken into account.
pub proof fn lemma_image_data_is_its_entrys_bytes(img: Image, b: Seq<u8>, i: int)
    requires
        image_matches(img, b, i),
    ensures
        img.data@ == b.subrange(
            b[6 + 16 * i + 12] + 256 * b[6 + 16 * i + 13] + 65536 * b[6 + 16 * i + 14] + 16777216
                * b[6 + 16 * i + 15],
            b[6 + 16 * i + 12] + 256 * b[6 + 16 * i + 13] + 65536 * b[6 + 16 * i + 14] + 16777216
                * b[6 + 16 * i + 15] + b[6 + 16 * i + 8] + 256 * b[6 + 16 * i + 9] + 65536 * b[6
                + 16 * i + 10] + 16777216 * b[6 + 16 * i + 11],
        ),
{
}

// ---------------------------------------------------------------------------
// The `RT_GROUP_ICON` directory
// ---------------------------------------------------------------------------
/// The `RT_ICON` id given to image `index` of a group whose first image is `first_id`.
/// The index is taken modulo 2^16, as a 16-bit counter would.
pub open spec fn group_icon_id(first_id: u16, index: int) -> int {
    first_id + index % 65536
}

/// The 14-byte `GRPICONDIRENTRY` for `img` stored under `id`.
pub open spec fn group_entry(img: Image, id: int) -> Seq<u8> {
    seq![img.width, img.height, img.colors, img.reserved] + le16_bytes(img.planes as int)
        + le16_bytes(img.bpp as int) + le32_bytes(img.data@.len() as int % 4294967296) + le16_bytes(id)
}

/// The entries of the first `n` images.
pub open spec fn group_entries(images: Seq<Image>, first_id: u16, n: int) -> Seq<u8>
    decreases n,
{
    if n <= 0 {
        seq![]
    } else {
        group_entries(images, first_id, n - 1) + group_entry(
            images[n - 1],
            group_icon_id(first_id, n - 1),
        )
    }
}

/// The whole `RT_GROUP_ICON` payload for `images`: a header whose image count is the
/// number of images modulo 2^16, then one entry per image.
pub open spec fn group_bytes(images: Seq<Image>, first_id: u16) -> Seq<u8> {
    seq![0u8, 0u8, 1u8, 0u8] + le16_bytes(images.len() as int) + group_entries(
        images,
        first_id,
        images.len() as int,
    )
}

fn push_group_entry(out: &mut Vec<u8>, image: &Image<'_>, id: u16)
    ensures
        final(out)@ == old(out)@ + group_entry(*image, id as int),
{
    let ghost start = out@;
    out.push(image.width);
    out.push(image.height);
    out.push(image.colors);
    out.push(image.reserved);
    assert(out@ == start + seq![image.width, image.height, image.colors, image.reserved]);
    let ghost head = out@;
    push_le16(out, image.planes);
    push_le16(out, image.bpp);
    let size = (image.data.len() as u64 % 4294967296) as u32;
    assert(size == image.data@.len() as int % 4294967296);
    push_le32(out, size);
    push_le16(out, id);
    assert(out@ =~= head + le16_bytes(image.planes as int) + le16_bytes(image.bpp as int)
        + le32_bytes(size as int) + le16_bytes(id as int));
}

/// Builds the `RT_GROUP_ICON` payload for `images`, where image `i` will be stored
/// as `RT_ICON` resource `first_id + i`.
#[verifier::rlimit(40)]
pub fn group_directory(images: &[Image<'_>], first_id: u16) -> (out: Vec<u8>)
    requires
        forall|i: int| 0 <= i < images@.len() ==> group_icon_id(first_id, i) <= u16::MAX,
    ensures
        out@ == group_bytes(images@, first_id),
{
    let mut out: Vec<u8> = Vec::new();
    push_le16(&mut out, 0);  // reserved
    push_le16(&mut out, 1);  // type: icon
    let len = images.len();
    let count = (len % 65536) as u16;
    push_le16(&mut out, count);
    assert(out@ == seq![0u8, 0u8, 1u8, 0u8] + le16_bytes(images@.len() as int));

    let mut index: usize = 0;
    while index < len
        invariant
            len == images@.len(),
            index <= len,
            forall|i: int| 0 <= i < images@.len() ==> group_icon_id(first_id, i) <= u16::MAX,
            out@ == seq![0u8, 0u8, 1u8, 0u8] + le16_bytes(images@.len() as int) + group_entries(
                images@,
                first_id,
                index as int,
            ),
        decreases len - index,
    {
        let image = &images[index];
        assert(group_icon_id(first_id, index as int) <= u16::MAX);
        let id = first_id + (index % 65536) as u16;
        push_group_entry(&mut out, image, id);
        assert(group_entries(images@, first_id, index + 1) == group_entries(
            images@,
            first_id,
            index as int,
        ) + group_entry(images@[index as int], group_icon_id(first_id, index as int)));
        index = index + 1;
    }
    out
}

/// The number of entries of `group` that `referenced_ids` reads: the declared count,
/// cut short where the payload ends.
pub open spec fn readable_entries(g: Seq<u8>) -> int {
    if g.len() < 6 {
        0
    } else if 6 + 14 * le16(g, 4) <= g.len() {
        le16(g, 4)
    } else {
        (g.len() - 6) / 14
    }
}

/// The `RT_ICON` ids that the complete entries of a group directory refer to.
pub open spec fn group_ids(g: Seq<u8>) -> Seq<u16> {
    Seq::new(readable_entries(g) as nat, |i: int| le16(g, 6 + 14 * i + 12) as u16)
}

/// Reads back the `RT_ICON` ids a group directory refers to.
///
/// Used before a swap to find which icon resources the binary is currently using, so
/// the ones the new set does not reuse can be deleted instead of accumulating.
pub fn referenced_ids(group: &[u8]) -> (ids: Vec<u16>)
    ensures
        ids@ == group_ids(group@),
{
    if group.len() < FILE_HEADER_LEN {
        return Vec::new();
    }
    let count = u16(group, 4) as usize;
    let mut ids: Vec<u16> = Vec::with_capacity(count);
    let mut index: usize = 0;
    while index < count
        invariant
            group@.len() >= 6,
            count == le16(group@, 4),
            index <= count,
            index <= readable_entries(group@),
            ids@ == group_ids(group@).take(index as int),
        ensures
            ids@ == group_ids(group@),
        decreases count - index,
    {
        let at = FILE_HEADER_LEN + index * GROUP_ENTRY_LEN;
        if at + GROUP_ENTRY_LEN > group.len() {
            break;
        }
        ids.push(u16(group, at + 12));
        index = index + 1;
    }
    ids
}

// ---------------------------------------------------------------------------
// Laws
// ---------------------------------------------------------------------------
proof fn lemma_le16_round_trip(v: int)
    requires
        0 <= v < 65536,
    ensures
        le16(le16_bytes(v), 0) == v,
{
    let b = le16_bytes(v);
    assert(b[0] == v % 256);
    assert(b[1] == v / 256);
}

proof fn lemma_group_entries_layout(images: Seq<Image>, first_id: u16, n: int)
    requires
        0 <= n <= images.len(),
    ensures
        group_entries(images, first_id, n).len() == 14 * n,
        forall|i: int|
            0 <= i < n ==> group_entries(images, first_id, n).subrange(14 * i + 12, 14 * i + 14)
                == le16_bytes(#[trigger] group_icon_id(first_id, i)),
        forall|i: int|
            0 <= i < n ==> group_entries(images, first_id, n).subrange(14 * i, 14 * i + 14)
                == #[trigger] group_entry(images[i], group_icon_id(first_id, i)),
    decreases n,
{
    if n > 0 {
        lemma_group_entries_layout(images, first_id, n - 1);
        let prev = group_entries(images, first_id, n - 1);
        let last = group_entry(images[n - 1], group_icon_id(first_id, n - 1));
        assert(last.len() == 14);
        assert forall|i: int| 0 <= i < n implies group_entries(images, first_id, n).subrange(
            14 * i + 12,
            14 * i + 14,
        ) == le16_bytes(#[trigger] group_icon_id(first_id, i)) by {
            let all = group_entries(images, first_id, n);
            assert(all == prev + last);
            if i < n - 1 {
                assert(all.subrange(14 * i + 12, 14 * i + 14) =~= prev.subrange(
                    14 * i + 12,
                    14 * i + 14,
                ));
            } else {
                assert(all.subrange(14 * i + 12, 14 * i + 14) =~= last.subrange(12, 14));
                assert(last.subrange(12, 14) =~= le16_bytes(group_icon_id(first_id, i)));
            }
        }
        assert forall|i: int| 0 <= i < n implies group_entries(images, first_id, n).subrange(
            14 * i,
            14 * i + 14,
        ) == #[trigger] group_entry(images[i], group_icon_id(first_id, i)) by {
            let all = group_entries(images, first_id, n);
            assert(all == prev + last);
            if i < n - 1 {
                assert(all.subrange(14 * i, 14 * i + 14) =~= prev.subrange(14 * i, 14 * i + 14));
            } else {
                assert(all.subrange(14 * i, 14 * i + 14) =~= last);
            }
        }
    }
}

/// Reading the ids back out of the group directory built for `images` gives
/// `first_id, first_id + 1, ...`, one per image: the directory refers to exactly the
/// `RT_ICON` resources that the images are stored under.
pub proof fn lemma_group_directory_round_trip(images: Seq<Image>, first_id: u16)
    requires
        images.len() < 65536,
        first_id + images.len() <= 65536,
    ensures
        group_ids(group_bytes(images, first_id)) == Seq::new(
            images.len(),
            |i: int| (first_id + i) as u16,
        ),
{
    let n = images.len() as int;
    let g = group_bytes(images, first_id);
    let head = seq![0u8, 0u8, 1u8, 0u8] + le16_bytes(n);
    let body = group_entries(images, first_id, n);
    lemma_group_entries_layout(images, first_id, n);
    assert(g == head + body);
    assert(head.len() == 6);
    assert(g.len() == 6 + 14 * n);
    lemma_le16_round_trip(n);
    assert(g.subrange(4, 6) =~= le16_bytes(n));
    assert(le16(g, 4) == n);
    assert(readable_entries(g) == n);
    assert forall|i: int| 0 <= i < n implies #[trigger] group_ids(g)[i] == (first_id + i) as u16 by {
        assert(group_icon_id(first_id, i) == first_id + i);
        let id = group_icon_id(first_id, i);
        assert(body.subrange(14 * i + 12, 14 * i + 14) == le16_bytes(id));
        assert(g[6 + 14 * i + 12] == body[14 * i + 12]);
        assert(g[6 + 14 * i + 13] == body[14 * i + 13]);
        lemma_le16_round_trip(id);
        assert(le16(g, 6 + 14 * i + 12) == le16(le16_bytes(id), 0));
    }
    assert(group_ids(g) =~= Seq::new(images.len(), |i: int| (first_id + i) as u16));
}

proof fn lemma_le_bytes_of_stored(b: Seq<u8>, k: int)
    requires
        0 <= k,
        k + 4 <= b.len(),
    ensures
        le16_bytes(le16(b, k)) == b.subrange(k, k + 2),
        le32_bytes(le32(b, k)) == b.subrange(k, k + 4),
        0 <= le32(b, k) < 4294967296,
{
    let (b0, b1, b2, b3) = (b[k] as int, b[k + 1] as int, b[k + 2] as int, b[k + 3] as int);
    assert((b0 + 256 * b1) % 256 == b0 && (b0 + 256 * b1) / 256 % 256 == b1) by (nonlinear_arith)
        requires
            0 <= b0 < 256,
            0 <= b1 < 256,
    ;
    let v = b0 + 256 * b1 + 65536 * b2 + 16777216 * b3;
    assert(v % 256 == b0 && v / 256 % 256 == b1 && v / 65536 % 256 == b2 && v / 16777216 % 256
        == b3 && 0 <= v < 4294967296) by (nonlinear_arith)
        requires
            0 <= b0 < 256,
            0 <= b1 < 256,
            0 <= b2 < 256,
            0 <= b3 < 256,
            v == b0 + 256 * b1 + 65536 * b2 + 16777216 * b3,
    ;
    assert(le16_bytes(le16(b, k)) =~= b.subrange(k, k + 2));
    assert(le32_bytes(le32(b, k)) =~= b.subrange(k, k + 4));
}

proof fn lemma_no_entry_problem(b: Seq<u8>, count: int, from: int, i: int)
    requires
        first_entry_problem(b, count, from) is None,
        from <= i < count,
    ensures
        entry_problem(b, i) is None,
    decreases i - from,
{
    if from < i {
        lemma_no_entry_problem(b, count, from + 1, i);
    }
}

proof fn lemma_entry_fields_copied(b: Seq<u8>, img: Image, i: int, id: int)
    requires
        header_problem(b) is None,
        0 <= i < declared_count(b),
        entry_problem(b, i) is None,
        image_matches(img, b, i),
    ensures
        group_entry(img, id).subrange(0, 12) == b.subrange(file_entry_at(i), file_entry_at(i) + 12),
{
    let at = file_entry_at(i);
    assert(le16_bytes(img.planes as int) == b.subrange(at + 4, at + 6)) by {
        lemma_le_bytes_of_stored(b, at + 4);
    }
    assert(le16_bytes(img.bpp as int) == b.subrange(at + 6, at + 8)) by {
        lemma_le_bytes_of_stored(b, at + 6);
    }
    assert(le32_bytes(image_size(b, i)) == b.subrange(at + 8, at + 12) && image_size(b, i)
        < 4294967296) by {
        lemma_le_bytes_of_stored(b, at + 8);
    }
    assert(img.data@.len() == image_size(b, i));
    assert(group_entry(img, id).subrange(0, 12) =~= b.subrange(at, at + 12));
}

/// The directory entry a parsed image gets in the group directory starts with the
/// same 12 bytes as its entry in the icon file (size, colours, planes, bit depth and
/// data length); only the last field differs, the file offset giving way to the
/// resource id.
pub proof fn lemma_group_entry_copies_file_entry(
    b: Seq<u8>,
    images: Seq<Image>,
    first_id: u16,
    i: int,
)
    requires
        icon_problem(b) is None,
        images.len() == declared_count(b),
        forall|j: int| 0 <= j < images.len() ==> #[trigger] image_matches(images[j], b, j),
        0 <= i < images.len(),
    ensures
        group_bytes(images, first_id).subrange(6 + 14 * i, 6 + 14 * i + 12) == b.subrange(
            file_entry_at(i),
            file_entry_at(i) + 12,
        ),
{
    let n = images.len() as int;
    let id = group_icon_id(first_id, i);
    lemma_no_entry_problem(b, n, 0, i);
    assert(image_matches(images[i], b, i));
    lemma_entry_fields_copied(b, images[i], i, id);
    let body = group_entries(images, first_id, n);
    lemma_group_entries_layout(images, first_id, n);
    assert(body.subrange(14 * i, 14 * i + 14) == group_entry(images[i], id));
    let g = group_bytes(images, first_id);
    assert(g == seq![0u8, 0u8, 1u8, 0u8] + le16_bytes(n) + body);
    assert(g.subrange(6 + 14 * i, 6 + 14 * i + 12) =~= group_entry(images[i], id).subrange(0, 12));
}

} // verus!
