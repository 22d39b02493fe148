//! The decisions of a swap: which `RT_ICON` resources a new icon goes into, which old
//! ones have to go, in what order the resources are written, which files in the
//! executable's folder are leftovers of earlier swaps, and which icon the executable
//! currently carries.
//!
//! A running executable cannot be opened for writing, but it *can* be renamed, and a
//! new file can then take its path while the old process keeps running from the
//! renamed one. Doing that, and every other file or resource operation, is left to
//! the caller; what is here says what those operations are.

use vstd::prelude::*;

use crate::ico::{group_ids, Image};
use crate::text::{decimal, push_decimal};
use crate::Error;
use std::path::{Path, PathBuf};
use vstd::utf8::{decode_utf8, valid_utf8};

verus! {

/// `RT_ICON` ids are handed out from here, one per image in the `.ico`.
pub const FIRST_ICON_ID: u16 = 1;

// ---------------------------------------------------------------------------
// Which icon resources go
// ---------------------------------------------------------------------------
/// Whether `id` is one of the ids a new set of `keeping` images is written to:
/// `FIRST_ICON_ID ..= keeping` (`keeping` counted modulo 2^16, as a 16-bit counter
/// would).
pub open spec fn reused(id: u16, keeping: int) -> bool {
    FIRST_ICON_ID <= id && id < FIRST_ICON_ID + keeping % 65536
}

/// The ids of `referenced` that a new set of `keeping` images does not reuse, in
/// their order.
pub open spec fn stale_ids(referenced: Seq<u16>, keeping: int) -> Seq<u16> {
    referenced.filter(|id: u16| !reused(id, keeping))
}

/// The `RT_ICON` ids that the binary's current group directory (`group`, or `None`
/// when it has none) refers to and that a new set of `keeping` images does not reuse.
///
/// Used before a swap, so that every image the new icon does not overwrite is
/// deleted instead of accumulating.
pub fn stale_icon_ids(group: Option<&[u8]>, keeping: usize) -> (stale: Vec<u16>)
    requires
        FIRST_ICON_ID + keeping % 65536 <= u16::MAX,
    ensures
        stale@ == match group {
            Some(g) => stale_ids(group_ids(g@), keeping as int),
            None => Seq::<u16>::empty(),
        },
        forall|id: u16| 1 <= id < 1 + keeping && keeping < 65535 ==> !stale@.contains(id),
{
    proof {
        if let Some(g) = group {
            if keeping < 65535 {
                assert forall|id: u16| 1 <= id < 1 + keeping implies !stale_ids(
                    group_ids(g@),
                    keeping as int,
                ).contains(id) by {
                    lemma_new_images_never_deleted(g@, keeping as int, id);
                }
            }
        }
    }
    let group = match group {
        Some(group) => group,
        None => {
            return Vec::new();
        },
    };
    let first_unused = FIRST_ICON_ID + (keeping % 65536) as u16;
    let referenced = crate::ico::referenced_ids(group);
    let mut stale: Vec<u16> = Vec::new();
    let mut index: usize = 0;
    while index < referenced.len()
        invariant
            index <= referenced@.len(),
            first_unused == FIRST_ICON_ID + keeping % 65536,
            stale@ == referenced@.take(index as int).filter(|id: u16| !reused(id, keeping as int)),
        decreases referenced@.len() - index,
    {
        let id = referenced[index];
        proof {
            let pred = |id: u16| !reused(id, keeping as int);
            assert(referenced@.take(index + 1).drop_last() =~= referenced@.take(index as int));
            reveal_with_fuel(Seq::<u16>::filter, 1);
            assert(referenced@.take(index + 1).filter(pred) == if pred(id) {
                referenced@.take(index as int).filter(pred).push(id)
            } else {
                referenced@.take(index as int).filter(pred)
            });
        }
        if id < FIRST_ICON_ID || id >= first_unused {
            stale.push(id);
        }
        index = index + 1;
    }
    assert(referenced@.take(referenced@.len() as int) =~= referenced@);
    stale
}

/// After a swap to `keeping` images, no image the binary referred to before is left
/// behind: each id of the old group directory is either one of the ids the new images
/// are written to, or one of the ids deleted.
pub proof fn lemma_no_image_left_behind(old_group: Seq<u8>, keeping: int, id: u16)
    requires
        0 <= keeping < 65535,
        group_ids(old_group).contains(id),
    ensures
        reused(id, keeping) || stale_ids(group_ids(old_group), keeping).contains(id),
{
    let pred = |i: u16| !reused(i, keeping);
    if !reused(id, keeping) {
        group_ids(old_group).lemma_filter_contains_rev(pred, id);
    }
}

/// No image a swap writes is deleted by it: with `keeping` new images, written to
/// the ids `1 ..= keeping`, none of those ids is among the stale ones, whatever the
/// old group directory referred to.
pub proof fn lemma_new_images_never_deleted(old_group: Seq<u8>, keeping: int, id: u16)
    requires
        0 <= keeping < 65535,
        1 <= id < 1 + keeping,
    ensures
        !stale_ids(group_ids(old_group), keeping).contains(id),
{
    let pred = |i: u16| !reused(i, keeping);
    if stale_ids(group_ids(old_group), keeping).contains(id) {
        group_ids(old_group).filter_lemma(pred);
        let k = choose|k: int|
            0 <= k < stale_ids(group_ids(old_group), keeping).len() && stale_ids(
                group_ids(old_group),
                keeping,
            )[k] == id;
        assert(pred(stale_ids(group_ids(old_group), keeping)[k]));
    }
}

// ---------------------------------------------------------------------------
// What is written, in order
// ---------------------------------------------------------------------------
/// One change to the resources of the staging copy.
pub enum ResourceWrite<'a> {
    /// Store an image as `RT_ICON` resource `id`.
    IconImage { id: u16, data: &'a [u8] },
    /// Delete `RT_ICON` resource `id`.
    RemoveIconImage { id: u16 },
    /// Store the `RT_GROUP_ICON` directory.
    Group(&'a [u8]),
    /// Record which icon is now active.
    State(&'a str),
}

/// The writes of a swap: every image, in order, under `FIRST_ICON_ID + i`; then every
/// stale id deleted; then the group directory; then the name of the icon.
pub open spec fn swap_writes<'a>(
    images: Seq<Image<'a>>,
    group: &'a [u8],
    stale: Seq<u16>,
    name: &'a str,
) -> Seq<ResourceWrite<'a>> {
    Seq::new(
        images.len(),
        |i: int| ResourceWrite::IconImage { id: (FIRST_ICON_ID + i) as u16, data: images[i].data },
    ) + Seq::new(stale.len(), |i: int| ResourceWrite::RemoveIconImage { id: stale[i] }) + seq![
        ResourceWrite::Group(group),
        ResourceWrite::State(name),
    ]
}

/// The resource writes that put a parsed icon (`images`, with its group directory
/// `group`) into the staging copy, delete the `stale` images and record `name` as
/// the active icon, in the order they are to be applied.
pub fn resource_writes<'a>(
    images: &[Image<'a>],
    group: &'a [u8],
    stale: &[u16],
    name: &'a str,
) -> (writes: Vec<ResourceWrite<'a>>)
    requires
        FIRST_ICON_ID + images@.len() <= u16::MAX + 1,
    ensures
        writes@ == swap_writes(images@, group, stale@, name),
{
    let mut writes: Vec<ResourceWrite<'a>> = Vec::new();
    let mut index: usize = 0;
    while index < images.len()
        invariant
            index <= images@.len(),
            FIRST_ICON_ID + images@.len() <= u16::MAX + 1,
            writes@ == Seq::new(
                index as nat,
                |i: int|
                    ResourceWrite::IconImage { id: (FIRST_ICON_ID + i) as u16, data: images@[i].data },
            ),
        decreases images@.len() - index,
    {
        let id = FIRST_ICON_ID + index as u16;
        writes.push(ResourceWrite::IconImage { id, data: images[index].data });
        index = index + 1;
        assert(writes@ =~= Seq::new(
            index as nat,
            |i: int|
                ResourceWrite::IconImage { id: (FIRST_ICON_ID + i) as u16, data: images@[i].data },
        ));
    }
    let ghost icons = writes@;
    let mut index: usize = 0;
    while index < stale.len()
        invariant
            index <= stale@.len(),
            writes@ == icons + Seq::new(
                index as nat,
                |i: int| ResourceWrite::RemoveIconImage { id: stale@[i] },
            ),
        decreases stale@.len() - index,
    {
        writes.push(ResourceWrite::RemoveIconImage { id: stale[index] });
        index = index + 1;
        assert(writes@ =~= icons + Seq::new(
            index as nat,
            |i: int| ResourceWrite::RemoveIconImage { id: stale@[i] },
        ));
    }
    writes.push(ResourceWrite::Group(group));
    writes.push(ResourceWrite::State(name));
    assert(writes@ =~= swap_writes(images@, group, stale@, name));
    writes
}

/// The group directory a swap writes refers to exactly the `RT_ICON` resources its
/// images are written to: the `i`-th id read back from the directory built with
/// `FIRST_ICON_ID` is the id image `i` is stored under, and there are as many ids as
/// images.
pub proof fn lemma_group_refers_to_written_images(
    images: Seq<Image>,
    group: &[u8],
    stale: Seq<u16>,
    name: &str,
)
    requires
        FIRST_ICON_ID + images.len() <= u16::MAX + 1,
        group@ == crate::ico::group_bytes(images, FIRST_ICON_ID),
    ensures
        group_ids(group@).len() == images.len(),
        forall|i: int|
            0 <= i < images.len() ==> #[trigger] swap_writes(images, group, stale, name)[i]
                == (ResourceWrite::IconImage { id: group_ids(group@)[i], data: images[i].data }),
{
    crate::ico::lemma_group_directory_round_trip(images, FIRST_ICON_ID);
    assert forall|i: int| 0 <= i < images.len() implies #[trigger] swap_writes(
        images,
        group,
        stale,
        name,
    )[i] == (ResourceWrite::IconImage { id: group_ids(group@)[i], data: images[i].data }) by {
        let w = swap_writes(images, group, stale, name);
        assert(w[i] == Seq::new(
            images.len(),
            |j: int| ResourceWrite::IconImage { id: (FIRST_ICON_ID + j) as u16, data: images[j].data },
        )[i]);
    }
}

// ---------------------------------------------------------------------------
// Where the executable lives
// ---------------------------------------------------------------------------
/// Calls `Path::parent`: `path` without its final component, `None` where it ends in
/// a root or a prefix, or is empty. Which of these a path is depends on the
/// platform's path syntax; nothing is stated of it.
#[verifier::external_body]
fn path_parent(path: &Path) -> Option<&Path> {
    path.parent()
}

/// Calls `Path::file_name`, and converts the final component it gives to UTF-8
/// text with `to_str`: `None` where the path ends in `..` or has no final component,
/// or where that component is not valid Unicode. Which it is depends on the
/// platform's path syntax; nothing is stated of it.
#[verifier::external_body]
fn file_name_text(path: &Path) -> Option<String> {
    path.file_name().and_then(|name| name.to_str()).map(|name| name.to_owned())
}

/// Calls `Path::to_path_buf`: an owned copy of `path`, for the error that names it.
#[verifier::external_body]
fn owned_path(path: &Path) -> PathBuf {
    path.to_path_buf()
}

/// The folder of the executable and the name of its file, from what
/// `Path::parent` and `Path::file_name` gave for it. Either missing, the folder
/// counts as one the swap cannot write to, and the error names the executable.
pub fn split_location<'a>(parent: Option<&'a Path>, file_name: Option<String>, exe: PathBuf) -> (r:
    Result<(&'a Path, String), Error>)
    ensures
        r is Ok <==> parent is Some && file_name is Some,
        r matches Ok((dir, stem)) ==> dir == parent->0 && stem@ == file_name->0@,
        r matches Err(e) ==> e == Error::PathNotWritable(exe),
{
    match (parent, file_name) {
        (Some(dir), Some(stem)) => Ok((dir, stem)),
        _ => Err(Error::PathNotWritable(exe)),
    }
}

/// The folder of the executable at `exe`, where the swap puts its files, and the
/// name of the executable's file, which names them.
pub fn location(exe: &Path) -> (r: Result<(&Path, String), Error>)
    ensures
        r matches Err(e) ==> e is PathNotWritable,
{
    split_location(path_parent(exe), file_name_text(exe), owned_path(exe))
}

// ---------------------------------------------------------------------------
// Leftover files
// ---------------------------------------------------------------------------
pub open spec fn is_digit(c: char) -> bool {
    '0' <= c && c <= '9'
}

/// `s` is `<digits>-<digits>`, both parts non-empty.
pub open spec fn is_serial(s: Seq<char>) -> bool {
    exists|k: int|
        0 < k < s.len() - 1 && #[trigger] s[k] == '-' && forall|j: int|
            0 <= j < s.len() && j != k ==> is_digit(s[j])
}

/// `name` is `<stem>.<digits>-<digits>.old` or `<stem>.<digits>-<digits>.new`.
pub open spec fn is_leftover_name(name: Seq<char>, stem: Seq<char>) -> bool {
    let n = name.len();
    &&& n >= stem.len() + 5
    &&& name.subrange(0, stem.len() as int) == stem
    &&& name[stem.len() as int] == '.'
    &&& (name.subrange(n - 4, n as int) == ".old"@ || name.subrange(n - 4, n as int) == ".new"@)
    &&& is_serial(name.subrange(stem.len() + 1int, n - 4))
}

/// The name given to a swap's staging or parked file: `<stem>.<pid>-<serial>.<extension>`.
pub open spec fn unique_name(stem: Seq<char>, pid: nat, serial: nat, extension: Seq<char>) -> Seq<
    char,
> {
    stem + "."@ + decimal(pid) + "-"@ + decimal(serial) + "."@ + extension
}

/// `<stem>.<pid>-<serial>.<extension>`: the name of a file that one swap of process
/// `pid` puts next to the executable. `serial` counts the names a process hands out.
pub fn unique_file_name(stem: &str, pid: u32, serial: u32, extension: &str) -> (name: String)
    ensures
        name@ == unique_name(stem@, pid as nat, serial as nat, extension@),
{
    let mut name = String::from_str(stem);
    name.append(".");
    push_decimal(&mut name, pid as u64);
    name.append("-");
    push_decimal(&mut name, serial as u64);
    name.append(".");
    name.append(extension);
    name
}

fn is_digit_char(c: char) -> (r: bool)
    ensures
        r == is_digit(c),
{
    '0' <= c && c <= '9'
}

/// Whether `s[from..to]` is `<digits>-<digits>`.
fn check_serial(s: &str, from: usize, to: usize) -> (r: bool)
    requires
        from <= to <= s@.len(),
    ensures
        r == is_serial(s@.subrange(from as int, to as int)),
{
    let ghost t = s@.subrange(from as int, to as int);
    // Find the first dash; everything before it must be a digit.
    let mut k = from;
    while k < to && s.get_char(k) != '-'
        invariant
            from <= k <= to,
            to <= s@.len(),
            t == s@.subrange(from as int, to as int),
            forall|j: int| from <= j < k ==> s@[j] != '-',
        decreases to - k,
    {
        k = k + 1;
    }
    if k == to || k == from || k + 1 == to {
        proof {
            if is_serial(t) {
                let d = choose|d: int|
                    0 < d < t.len() - 1 && #[trigger] t[d] == '-' && forall|j: int|
                        0 <= j < t.len() && j != d ==> is_digit(t[j]);
                if k == to {
                    assert(s@[from + d] == '-');
                } else if k == from {
                    assert(t[0] == '-');
                    assert(is_digit(t[0]));
                } else {
                    assert(t[t.len() - 1] == '-');
                    assert(d < t.len() - 1);
                    assert(is_digit(t[t.len() - 1]));
                }
            }
        }
        return false;
    }
    let mut j = from;
    while j < to
        invariant
            from < k < to - 1 || (from < k && k + 1 < to),
            s@[k as int] == '-',
            from <= j <= to,
            to <= s@.len(),
            t == s@.subrange(from as int, to as int),
            forall|i: int| from <= i < k ==> s@[i] != '-',
            forall|i: int| from <= i < j && i != k ==> is_digit(s@[i]),
        decreases to - j,
    {
        if j != k && !is_digit_char(s.get_char(j)) {
            proof {
                if is_serial(t) {
                    let d = choose|d: int|
                        0 < d < t.len() - 1 && #[trigger] t[d] == '-' && forall|i: int|
                            0 <= i < t.len() && i != d ==> is_digit(t[i]);
                    // The only dash is the first one.
                    if d != k - from {
                        assert(t[k - from] == '-');
                        assert(is_digit(t[k - from]));
                    }
                    assert(is_digit(t[j - from]));
                }
            }
            return false;
        }
        j = j + 1;
    }
    assert(t[k - from] == '-');
    assert(forall|i: int| 0 <= i < t.len() && i != k - from ==> is_digit(t[i]));
    true
}

/// Matches the leftovers [`unique_file_name`] produces, without matching the
/// executable itself or anything a user put there.
pub fn is_leftover(name: &str, stem: &str) -> (r: bool)
    ensures
        r == is_leftover_name(name@, stem@),
{
    proof {
        reveal_strlit(".old");
        reveal_strlit(".new");
    }
    let n = name.unicode_len();
    let s = stem.unicode_len();
    if n < s || n - s < 5 {
        return false;
    }
    let mut i: usize = 0;
    while i < s
        invariant
            s == stem@.len(),
            n == name@.len(),
            s <= n,
            i <= s,
            forall|j: int| 0 <= j < i ==> name@[j] == stem@[j],
        decreases s - i,
    {
        if name.get_char(i) != stem.get_char(i) {
            return false;
        }
        i = i + 1;
    }
    assert(name@.subrange(0, s as int) =~= stem@);
    if name.get_char(s) != '.' {
        return false;
    }
    let dot = name.get_char(n - 4);
    let a = name.get_char(n - 3);
    let b = name.get_char(n - 2);
    let c = name.get_char(n - 1);
    let old_suffix = dot == '.' && a == 'o' && b == 'l' && c == 'd';
    let new_suffix = dot == '.' && a == 'n' && b == 'e' && c == 'w';
    assert(old_suffix <==> name@.subrange(n - 4, n as int) == ".old"@) by {
        let tail = name@.subrange(n - 4, n as int);
        if tail == ".old"@ {
            assert(tail[0] == '.' && tail[1] == 'o' && tail[2] == 'l' && tail[3] == 'd');
        }
        if old_suffix {
            assert(name@.subrange(n - 4, n as int) =~= ".old"@);
        }
    }
    assert(new_suffix <==> name@.subrange(n - 4, n as int) == ".new"@) by {
        let tail = name@.subrange(n - 4, n as int);
        if tail == ".new"@ {
            assert(tail[0] == '.' && tail[1] == 'n' && tail[2] == 'e' && tail[3] == 'w');
        }
        if new_suffix {
            assert(name@.subrange(n - 4, n as int) =~= ".new"@);
        }
    }
    if !old_suffix && !new_suffix {
        return false;
    }
    check_serial(name, s + 1, n - 4)
}

/// Every name a swap gives its staging (`new`) or parked (`old`) file is recognised
/// as a leftover of the same executable, and the executable's own name is not.
pub proof fn lemma_leftovers_recognised(
    stem: Seq<char>,
    pid: nat,
    serial: nat,
    extension: Seq<char>,
)
    requires
        extension == "old"@ || extension == "new"@,
    ensures
        is_leftover_name(unique_name(stem, pid, serial, extension), stem),
        !is_leftover_name(stem, stem),
{
    reveal_strlit("old");
    reveal_strlit("new");
    reveal_strlit(".old");
    reveal_strlit(".new");
    reveal_strlit(".");
    reveal_strlit("-");
    crate::text::lemma_decimal_is_digits(pid);
    crate::text::lemma_decimal_is_digits(serial);
    let d1 = decimal(pid);
    let d2 = decimal(serial);
    let name = unique_name(stem, pid, serial, extension);
    let n = name.len();
    let serial_part = d1 + "-"@ + d2;
    assert(name =~= stem + "."@ + serial_part + "."@ + extension);
    assert(name.subrange(0, stem.len() as int) =~= stem);
    assert(name.subrange(stem.len() + 1int, n - 4) =~= serial_part);
    assert(name.subrange(n - 4, n as int) =~= "."@ + extension);
    let k = d1.len() as int;
    assert(serial_part[k] == '-');
    assert forall|j: int| 0 <= j < serial_part.len() && j != k implies is_digit(serial_part[j]) by {
        if j < k {
            assert(serial_part[j] == d1[j]);
        } else {
            assert(serial_part[j] == d2[j - k - 1]);
        }
    }
    assert(is_serial(serial_part));
    assert(name[stem.len() as int] == '.');
    if extension == "old"@ {
        assert("."@ + extension =~= ".old"@);
    } else {
        assert("."@ + extension =~= ".new"@);
    }
    assert(n >= stem.len() + 5);
}

proof fn lemma_digit_injective(x: int, y: int)
    requires
        0 <= x < 10,
        0 <= y < 10,
        crate::text::digit_char(x, false) == crate::text::digit_char(y, false),
    ensures
        x == y,
{
    assert(crate::text::digit_char(x, false) as int == 48 + x);
    assert(crate::text::digit_char(y, false) as int == 48 + y);
}

proof fn lemma_decimal_injective(a: nat, b: nat)
    requires
        decimal(a) == decimal(b),
    ensures
        a == b,
    decreases a,
{
    crate::text::lemma_decimal_is_digits(a / 10);
    crate::text::lemma_decimal_is_digits(b / 10);
    let da = decimal(a);
    let db = decimal(b);
    if a >= 10 && b >= 10 {
        assert(da.drop_last() == decimal(a / 10));
        assert(db.drop_last() == decimal(b / 10));
        lemma_decimal_injective(a / 10, b / 10);
        assert(da.last() == crate::text::digit_char((a % 10) as int, false));
        assert(db.last() == crate::text::digit_char((b % 10) as int, false));
        assert(da.last() == db.last());
        lemma_digit_injective((a % 10) as int, (b % 10) as int);
    } else if a >= 10 {
        assert(da.len() == decimal(a / 10).len() + 1);
        assert(db.len() == 1);
    } else if b >= 10 {
        assert(db.len() == decimal(b / 10).len() + 1);
        assert(da.len() == 1);
    } else {
        assert(da == seq![crate::text::digit_char(a as int, false)]);
        assert(db == seq![crate::text::digit_char(b as int, false)]);
        assert(da[0] == crate::text::digit_char(a as int, false));
        assert(db[0] == crate::text::digit_char(b as int, false));
        lemma_digit_injective(a as int, b as int);
    }
}

proof fn lemma_no_dash_in_decimal(n: nat)
    ensures
        forall|i: int| 0 <= i < decimal(n).len() ==> decimal(n)[i] != '-',
{
    crate::text::lemma_decimal_is_digits(n);
}

/// Different processes, or different calls of one process, get different names: the
/// name a swap gives a file determines the process id and the serial in it.
pub proof fn lemma_unique_names_differ(
    stem: Seq<char>,
    extension: Seq<char>,
    pid1: nat,
    serial1: nat,
    pid2: nat,
    serial2: nat,
)
    requires
        unique_name(stem, pid1, serial1, extension) == unique_name(stem, pid2, serial2, extension),
    ensures
        pid1 == pid2,
        serial1 == serial2,
{
    reveal_strlit(".");
    reveal_strlit("-");
    let a1 = decimal(pid1);
    let b1 = decimal(serial1);
    let a2 = decimal(pid2);
    let b2 = decimal(serial2);
    let m1 = a1 + "-"@ + b1;
    let m2 = a2 + "-"@ + b2;
    let n1 = unique_name(stem, pid1, serial1, extension);
    let n2 = unique_name(stem, pid2, serial2, extension);
    assert(n1 =~= stem + "."@ + m1 + "."@ + extension);
    assert(n2 =~= stem + "."@ + m2 + "."@ + extension);
    assert(m1.len() == m2.len());
    assert(m1 =~= n1.subrange(stem.len() + 1int, stem.len() + 1int + m1.len()));
    assert(m2 =~= n2.subrange(stem.len() + 1int, stem.len() + 1int + m2.len()));
    assert(m1 == m2);
    lemma_no_dash_in_decimal(pid1);
    lemma_no_dash_in_decimal(pid2);
    // The dash sits right after the process id in both.
    if a1.len() < a2.len() {
        assert(m1[a1.len() as int] == '-');
        assert(m2[a1.len() as int] == a2[a1.len() as int]);
    } else if a2.len() < a1.len() {
        assert(m2[a2.len() as int] == '-');
        assert(m1[a2.len() as int] == a1[a2.len() as int]);
    }
    assert(a1 =~= m1.subrange(0, a1.len() as int));
    assert(a2 =~= m2.subrange(0, a2.len() as int));
    assert(b1 =~= m1.subrange(a1.len() + 1int, m1.len() as int));
    assert(b2 =~= m2.subrange(a2.len() + 1int, m2.len() as int));
    lemma_decimal_injective(pid1, pid2);
    lemma_decimal_injective(serial1, serial2);
}

// ---------------------------------------------------------------------------
// The icon currently on the executable
// ---------------------------------------------------------------------------
/// What the process knows of the icon on its executable: once `loaded`, `name` is the
/// icon the file on disk carries (`None` if the crate never put one there).
pub struct IconCache {
    pub loaded: bool,
    pub name: Option<String>,
}

pub open spec fn name_view(name: Option<String>) -> Option<Seq<char>> {
    match name {
        Some(s) => Some(s@),
        None => None,
    }
}

impl View for IconCache {
    type V = (bool, Option<Seq<char>>);

    open spec fn view(&self) -> (bool, Option<Seq<char>>) {
        (self.loaded, name_view(self.name))
    }
}

fn clone_name(name: &Option<String>) -> (r: Option<String>)
    ensures
        name_view(r) == name_view(*name),
{
    match name {
        Some(s) => Some(s.clone()),
        None => None,
    }
}

impl IconCache {
    /// Nothing known yet.
    pub fn new() -> (cache: Self)
        ensures
            cache@ == (false, None::<Seq<char>>),
    {
        IconCache { loaded: false, name: None }
    }

    /// Records that the executable now carries the icon `name`.
    pub fn remember(&mut self, name: &str)
        ensures
            final(self)@ == (true, Some(name@)),
    {
        self.loaded = true;
        self.name = Some(String::from_str(name));
    }
}

/// Calls `String::from_utf8`, with `None` for the error it gives: a `String` exactly
/// when `bytes` are valid UTF-8, holding the characters they encode.
#[verifier::external_body]
fn string_from_utf8(bytes: Vec<u8>) -> (text: Option<String>)
    ensures
        text is Some <==> valid_utf8(bytes@),
        text matches Some(s) ==> s@ == decode_utf8(bytes@),
{
    String::from_utf8(bytes).ok()
}

/// The icon name recorded in the executable's state resource (`resource`, or `None`
/// when there is none): a resource that is not valid UTF-8 reads as no name recorded.
pub fn state_name(resource: Option<Vec<u8>>) -> (name: Option<String>)
    ensures
        match resource {
            None => name is None,
            Some(bytes) => {
                &&& name is Some <==> valid_utf8(bytes@)
                &&& name matches Some(s) ==> s@ == decode_utf8(bytes@)
            },
        },
{
    match resource {
        Some(bytes) => string_from_utf8(bytes),
        None => None,
    }
}

/// The answer the cache gives without reading the executable: `None` until it is
/// loaded, then the name it holds.
pub open spec fn cached_answer(cache: (bool, Option<Seq<char>>)) -> Option<Option<Seq<char>>> {
    if cache.0 {
        Some(cache.1)
    } else {
        None
    }
}

/// The name of the icon currently on the executable, if the crate put one there.
///
/// The first call asks `read_state`, which reads the name from the file on disk
/// (after a swap the running image is still mapped from the pre-swap bytes, so the
/// loaded module would answer with the previous icon); a successful answer is kept in
/// `cache` and every later call answers from there without reading again.
pub fn current_icon<F>(cache: &mut IconCache, read_state: F) -> (r: Result<Option<String>, Error>)
    where
        F: FnOnce() -> Result<Option<String>, Error>,
    requires
        !old(cache).loaded ==> call_requires(read_state, ()),
    ensures
        old(cache).loaded ==> {
            &&& final(cache)@ == old(cache)@
            &&& r matches Ok(name) && cached_answer(old(cache)@) == Some(name_view(name))
        },
        !old(cache).loaded ==> {
            &&& call_ensures(read_state, (), r)
            &&& r matches Ok(name) ==> final(cache)@ == (true, name_view(name))
            &&& r is Err ==> final(cache)@ == old(cache)@
        },
{
    if cache.loaded {
        return Ok(clone_name(&cache.name));
    }
    let read = read_state();
    match read {
        Ok(name) => {
            cache.loaded = true;
            cache.name = clone_name(&name);
            Ok(name)
        },
        Err(error) => Err(error),
    }
}

/// Once a swap has remembered `name`, asking for the current icon answers `name`
/// from the cache, without reading the executable again, whatever the cache held
/// before.
pub proof fn lemma_remembered_icon_is_current(after: IconCache, name: Seq<char>)
    requires
        after@ == (true, Some(name)),
    ensures
        cached_answer(after@) == Some(Some(name)),
{
}

// ---------------------------------------------------------------------------
// The order of a swap
// ---------------------------------------------------------------------------
/// Win32 `ERROR_ACCESS_DENIED`.
pub const ERROR_ACCESS_DENIED: u32 = 5;

/// Win32 `ERROR_SHARING_VIOLATION`.
pub const ERROR_SHARING_VIOLATION: u32 = 32;

/// Where a swap stands.
pub enum SwapState {
    /// Taking the per-executable lock.
    Locking,
    /// Probing that the executable's folder can be written.
    CheckingDirectory,
    /// Parsing the icon and reading which images the executable uses today.
    Preparing,
    /// Copying the executable to the staging file.
    Copying,
    /// Writing the new resources into the staging file.
    Writing,
    /// Replacing the executable by the staging file in one move.
    Replacing,
    /// Renaming the running executable aside.
    Parking,
    /// Moving the staging file to the executable's path.
    MovingIn,
    /// Moving in failed with this error: putting the parked executable back.
    Restoring(Error),
    /// A step after the copy failed with this error: deleting the staging file.
    RemovingStaging(Error),
    /// The swap is over.
    Done,
}

/// What the caller does next.
pub enum SwapAction {
    AcquireLock,
    EnsureWritable,
    /// Parse the icon, build its group directory and find the stale images.
    Prepare,
    CopyToStaging,
    /// Apply [`resource_writes`] to the staging file and commit them.
    WriteResources,
    ReplaceExecutable,
    ParkExecutable,
    MoveStagingIn,
    /// Rename the parked executable back to its path (its result is not used).
    RestoreParked,
    /// Delete the staging file (its result is not used).
    RemoveStaging,
    /// The executable carries the new icon: remember it, tell the shell, return.
    Succeed,
    /// Give up with this error.
    Fail(Error),
    /// The swap is already over: there is nothing more to do.
    Finished,
}

/// A failed replace means the path is still held by the running image (which is the
/// case exactly once per run — the first swap), rather than a real failure.
pub open spec fn path_held_by_running_image(e: Error) -> bool {
    e matches Error::Windows(_, code) && (code == ERROR_SHARING_VIOLATION || code
        == ERROR_ACCESS_DENIED)
}

/// The step after `state` once the action it asked for has given `result`.
pub open spec fn swap_next(state: SwapState, result: Result<(), Error>) -> (SwapState, SwapAction) {
    match state {
        SwapState::Locking => match result {
            Ok(()) => (SwapState::CheckingDirectory, SwapAction::EnsureWritable),
            Err(e) => (SwapState::Done, SwapAction::Fail(e)),
        },
        SwapState::CheckingDirectory => match result {
            Ok(()) => (SwapState::Preparing, SwapAction::Prepare),
            Err(e) => (SwapState::Done, SwapAction::Fail(e)),
        },
        SwapState::Preparing => match result {
            Ok(()) => (SwapState::Copying, SwapAction::CopyToStaging),
            Err(e) => (SwapState::Done, SwapAction::Fail(e)),
        },
        SwapState::Copying => match result {
            Ok(()) => (SwapState::Writing, SwapAction::WriteResources),
            Err(e) => (SwapState::Done, SwapAction::Fail(e)),
        },
        SwapState::Writing => match result {
            Ok(()) => (SwapState::Replacing, SwapAction::ReplaceExecutable),
            Err(e) => (SwapState::RemovingStaging(e), SwapAction::RemoveStaging),
        },
        SwapState::Replacing => match result {
            Ok(()) => (SwapState::Done, SwapAction::Succeed),
            Err(e) => if path_held_by_running_image(e) {
                (SwapState::Parking, SwapAction::ParkExecutable)
            } else {
                (SwapState::RemovingStaging(e), SwapAction::RemoveStaging)
            },
        },
        SwapState::Parking => match result {
            Ok(()) => (SwapState::MovingIn, SwapAction::MoveStagingIn),
            Err(e) => (SwapState::RemovingStaging(e), SwapAction::RemoveStaging),
        },
        SwapState::MovingIn => match result {
            Ok(()) => (SwapState::Done, SwapAction::Succeed),
            Err(e) => (SwapState::Restoring(e), SwapAction::RestoreParked),
        },
        SwapState::Restoring(e) => (SwapState::RemovingStaging(e), SwapAction::RemoveStaging),
        SwapState::RemovingStaging(e) => (SwapState::Done, SwapAction::Fail(e)),
        SwapState::Done => (SwapState::Done, SwapAction::Finished),
    }
}

/// The first step of a swap.
pub fn start_swap() -> (r: (SwapState, SwapAction))
    ensures
        r == (SwapState::Locking, SwapAction::AcquireLock),
{
    (SwapState::Locking, SwapAction::AcquireLock)
}

fn is_path_held(e: &Error) -> (r: bool)
    ensures
        r == path_held_by_running_image(*e),
{
    match e {
        Error::Windows(_, code) => *code == ERROR_SHARING_VIOLATION || *code == ERROR_ACCESS_DENIED,
        _ => false,
    }
}

/// The next step of a swap in `state`, once the action it asked for has given
/// `result`.
pub fn next_swap_step(state: SwapState, result: Result<(), Error>) -> (r: (SwapState, SwapAction))
    ensures
        r == swap_next(state, result),
{
    match state {
        SwapState::Locking => match result {
            Ok(()) => (SwapState::CheckingDirectory, SwapAction::EnsureWritable),
            Err(e) => (SwapState::Done, SwapAction::Fail(e)),
        },
        SwapState::CheckingDirectory => match result {
            Ok(()) => (SwapState::Preparing, SwapAction::Prepare),
            Err(e) => (SwapState::Done, SwapAction::Fail(e)),
        },
        SwapState::Preparing => match result {
            Ok(()) => (SwapState::Copying, SwapAction::CopyToStaging),
            Err(e) => (SwapState::Done, SwapAction::Fail(e)),
        },
        SwapState::Copying => match result {
            Ok(()) => (SwapState::Writing, SwapAction::WriteResources),
            Err(e) => (SwapState::Done, SwapAction::Fail(e)),
        },
        SwapState::Writing => match result {
            Ok(()) => (SwapState::Replacing, SwapAction::ReplaceExecutable),
            Err(e) => (SwapState::RemovingStaging(e), SwapAction::RemoveStaging),
        },
        SwapState::Replacing => match result {
            Ok(()) => (SwapState::Done, SwapAction::Succeed),
            Err(e) => if is_path_held(&e) {
                (SwapState::Parking, SwapAction::ParkExecutable)
            } else {
                (SwapState::RemovingStaging(e), SwapAction::RemoveStaging)
            },
        },
        SwapState::Parking => match result {
            Ok(()) => (SwapState::MovingIn, SwapAction::MoveStagingIn),
            Err(e) => (SwapState::RemovingStaging(e), SwapAction::RemoveStaging),
        },
        SwapState::MovingIn => match result {
            Ok(()) => (SwapState::Done, SwapAction::Succeed),
            Err(e) => (SwapState::Restoring(e), SwapAction::RestoreParked),
        },
        SwapState::Restoring(e) => (SwapState::RemovingStaging(e), SwapAction::RemoveStaging),
        SwapState::RemovingStaging(e) => (SwapState::Done, SwapAction::Fail(e)),
        SwapState::Done => (SwapState::Done, SwapAction::Finished),
    }
}

/// The actions that change a file on disk.
pub open spec fn changes_disk(a: SwapAction) -> bool {
    a is CopyToStaging || a is WriteResources || a is ReplaceExecutable || a is ParkExecutable
        || a is MoveStagingIn || a is RestoreParked || a is RemoveStaging
}

/// The states a swap reaches only once the icon has been parsed.
pub open spec fn past_preparing(s: SwapState) -> bool {
    s is Copying || staging_exists(s)
}

/// The states in which the staging file exists.
pub open spec fn staging_exists(s: SwapState) -> bool {
    s is Writing || s is Replacing || s is Parking || s is MovingIn || s is Restoring
        || s is RemovingStaging
}

/// Nothing on disk changes before the icon has been parsed and validated: a step that
/// changes the disk leads to a state past preparing, and a swap gets past preparing
/// only by a successful preparation. A swap starts before preparing.
pub proof fn lemma_disk_untouched_until_icon_parsed(s: SwapState, r: Result<(), Error>)
    ensures
        changes_disk(swap_next(s, r).1) ==> past_preparing(swap_next(s, r).0),
        past_preparing(swap_next(s, r).0) ==> past_preparing(s) || (s is Preparing && r is Ok),
        !past_preparing(SwapState::Locking),
{
}

/// Once the staging file exists, no failure leaves it behind: a swap gives up only
/// after it has asked for the staging file to be deleted — the only state that gives
/// up is the one entered by that request.
pub proof fn lemma_failures_remove_staging(s: SwapState, r: Result<(), Error>)
    requires
        staging_exists(s),
    ensures
        swap_next(s, r).1 is Fail ==> s is RemovingStaging,
        swap_next(s, r).0 is RemovingStaging ==> swap_next(s, r).1 is RemoveStaging,
{
}

/// The executable's path is never left empty: when the new file cannot be moved in,
/// the parked original is put back.
pub proof fn lemma_original_put_back(r: Result<(), Error>)
    requires
        r is Err,
    ensures
        swap_next(SwapState::MovingIn, r).1 is RestoreParked,
{
}

/// A swap succeeds only when the new file has been put at the executable's path.
pub proof fn lemma_success_only_when_installed(s: SwapState, r: Result<(), Error>)
    ensures
        swap_next(s, r).1 is Succeed ==> (s is Replacing || s is MovingIn) && r is Ok,
{
}

/// A swap that gives up reports the error of the step that failed: the error of the
/// result it was given, or the one it kept while cleaning up.
pub proof fn lemma_failure_reports_first_error(s: SwapState, r: Result<(), Error>)
    ensures
        swap_next(s, r).1 matches SwapAction::Fail(e) ==> r == Err::<(), Error>(e)
            || s == SwapState::RemovingStaging(e),
        swap_next(s, r).0 matches SwapState::RemovingStaging(e) ==> r == Err::<(), Error>(e)
            || s == SwapState::Restoring(e),
        swap_next(s, r).0 matches SwapState::Restoring(e) ==> r == Err::<(), Error>(e),
{
}

} // verus!
