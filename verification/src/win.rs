//! The parts of the Win32 plumbing that compute rather than call: the UTF-16
//! strings handed to the API, the name of the per-executable swap lock, and the
//! buffer growth used to read the executable's path.

use vstd::prelude::*;

use crate::text::{hex_digits, push_hex};
use crate::Error;

verus! {

/// A NUL-terminated UTF-16 buffer, kept alive for as long as the API uses it.
pub struct Wide(Vec<u16>);

impl View for Wide {
    type V = Seq<u16>;

    closed spec fn view(&self) -> Seq<u16> {
        self.0@
    }
}

impl Wide {
    /// The text `units` (UTF-16) followed by a terminating NUL.
    pub fn new(units: Vec<u16>) -> (w: Self)
        ensures
            w@ == units@.push(0),
    {
        let mut buffer = units;
        buffer.push(0);
        Wide(buffer)
    }

    /// The units, terminator included, for handing to the API.
    pub fn as_units(&self) -> (units: &[u16])
        ensures
            units@ == self@,
    {
        self.0.as_slice()
    }
}

// ---------------------------------------------------------------------------
// The swap lock's name
// ---------------------------------------------------------------------------
pub const FNV_OFFSET: u64 = 0xcbf2_9ce4_8422_2325;

pub const FNV_PRIME: u64 = 0x0000_0100_0000_01b3;

/// The Unicode lower-case form of a text, as `str::to_lowercase` gives it.
pub uninterp spec fn lowercase_text(text: Seq<char>) -> Seq<char>;

/// Calls `str::to_lowercase`: the lower-case equivalent of `text` by the Unicode
/// case mapping, which does not depend on the locale. Which forms these are is not
/// stated here.
#[verifier::external_body]
fn to_lowercase(text: &str) -> (lower: String)
    ensures
        lower@ == lowercase_text(text@),
{
    text.to_lowercase()
}

/// The UTF-16 code units of one character.
pub open spec fn char_units(c: char) -> Seq<u16> {
    let v = c as u32 as int;
    if v < 0x10000 {
        seq![v as u16]
    } else {
        seq![(0xD800 + (v - 0x10000) / 1024) as u16, (0xDC00 + (v - 0x10000) % 1024) as u16]
    }
}

/// The UTF-16 encoding of a text.
pub open spec fn utf16(text: Seq<char>) -> Seq<u16>
    decreases text.len(),
{
    if text.len() == 0 {
        seq![]
    } else {
        utf16(text.drop_last()) + char_units(text.last())
    }
}

/// One FNV-1a step: mix in `unit`, then multiply by the prime (modulo 2^64).
pub open spec fn fnv_step(hash: u64, unit: u16) -> u64 {
    vstd::wrapping::u64_specs::wrapping_mul(hash ^ (unit as u64), FNV_PRIME)
}

/// FNV-1a (64-bit) over UTF-16 code units.
pub open spec fn path_fnv(units: Seq<u16>) -> u64
    decreases units.len(),
{
    if units.len() == 0 {
        FNV_OFFSET
    } else {
        fnv_step(path_fnv(units.drop_last()), units.last())
    }
}

/// The hash of a path: FNV-1a over the UTF-16 units of its lower-case form.
pub open spec fn path_key(path: Seq<char>) -> u64 {
    path_fnv(utf16(lowercase_text(path)))
}

fn mix(hash: u64, unit: u16) -> (r: u64)
    ensures
        r == fnv_step(hash, unit),
{
    (hash ^ (unit as u64)).wrapping_mul(FNV_PRIME)
}

/// Case-insensitive FNV-1a over the path: the path is brought to its lower-case form
/// first, so the lock name is stable for a given executable regardless of how the
/// path was capitalised.
pub fn path_hash(path: &str) -> (hash: u64)
    ensures
        hash == path_key(path@),
{
    let lower = to_lowercase(path);
    let text = lower.as_str();
    let ghost t = text@;
    let n = text.unicode_len();
    let mut hash: u64 = FNV_OFFSET;
    let mut i: usize = 0;
    while i < n
        invariant
            t == text@,
            n == t.len(),
            i <= n,
            hash == path_fnv(utf16(t.take(i as int))),
        decreases n - i,
    {
        let c = text.get_char(i);
        let v = c as u32;
        let ghost before = utf16(t.take(i as int));
        assert(t.take(i + 1).drop_last() =~= t.take(i as int));
        assert(utf16(t.take(i + 1)) == before + char_units(c));
        if v < 0x10000 {
            let unit = v as u16;
            hash = mix(hash, unit);
            assert(char_units(c) == seq![unit]);
            assert(before + char_units(c) =~= before.push(unit));
            assert(before.push(unit).drop_last() =~= before);
            assert(path_fnv(before.push(unit)) == fnv_step(path_fnv(before), unit));
        } else {
            let w = v - 0x10000;
            let high = (0xD800 + w / 1024) as u16;
            let low = (0xDC00 + w % 1024) as u16;
            hash = mix(hash, high);
            hash = mix(hash, low);
            assert(char_units(c) == seq![high, low]);
            assert(before + char_units(c) =~= before.push(high).push(low));
            assert(before.push(high).push(low).drop_last() =~= before.push(high));
            assert(before.push(high).drop_last() =~= before);
            assert(path_fnv(before.push(high)) == fnv_step(path_fnv(before), high));
            assert(path_fnv(before.push(high).push(low)) == fnv_step(
                path_fnv(before.push(high)),
                low,
            ));
        }
        i = i + 1;
    }
    assert(t.take(n as int) =~= t);
    hash
}

/// The name of the lock that serialises swaps of the executable at `path`.
pub open spec fn lock_name_text(path: Seq<char>) -> Seq<char> {
    "Local\\alt-icons-"@ + hex_digits(path_key(path) as nat, 16, false)
}

/// `Local\alt-icons-<hash>`, the hash in 16 lower-case hex digits: one name per
/// executable path, so two copies of the same binary in different folders do not
/// block each other.
pub fn lock_name(path: &str) -> (name: String)
    ensures
        name@ == lock_name_text(path@),
{
    let mut name = String::from_str("Local\\alt-icons-");
    push_hex(&mut name, path_hash(path), 16, false);
    name
}

/// Two spellings of a path that differ only in letter case — they have the same
/// lower-case form — get the same swap lock.
pub proof fn lemma_lock_name_ignores_case(a: Seq<char>, b: Seq<char>)
    requires
        lowercase_text(a) == lowercase_text(b),
    ensures
        lock_name_text(a) == lock_name_text(b),
{
}

// ---------------------------------------------------------------------------
// Reading the executable's path
// ---------------------------------------------------------------------------
/// What to do after `GetModuleFileNameW` has written into a buffer.
pub enum ModuleNameStep {
    /// The call failed.
    Failed,
    /// The path fits: it is the first `len` units.
    Done(usize),
    /// The path was cut short: try again with a buffer of this many units.
    Grow(usize),
}

/// The next step once the call has reported `written` units into a buffer of
/// `capacity` units: a result that fills the buffer may have been truncated, so the
/// buffer doubles.
pub fn module_name_step(written: u32, capacity: usize) -> (step: ModuleNameStep)
    requires
        capacity * 2 <= usize::MAX,
    ensures
        written == 0 ==> step is Failed,
        0 < written < capacity ==> (step matches ModuleNameStep::Done(len) && len == written),
        0 < written && written >= capacity ==> (step matches ModuleNameStep::Grow(c) && c == capacity * 2),
{
    if written == 0 {
        return ModuleNameStep::Failed;
    }
    if (written as usize) < capacity {
        return ModuleNameStep::Done(written as usize);
    }
    ModuleNameStep::Grow(capacity * 2)
}

fn copy_units(units: &Vec<u16>) -> (copy: Vec<u16>)
    ensures
        copy@ == units@,
{
    let mut copy: Vec<u16> = Vec::with_capacity(units.len());
    let mut i: usize = 0;
    while i < units.len()
        invariant
            i <= units@.len(),
            copy@ == units@.take(i as int),
        decreases units@.len() - i,
    {
        copy.push(units[i]);
        i = i + 1;
        assert(copy@ =~= units@.take(i as int));
    }
    assert(units@.take(units@.len() as int) =~= units@);
    copy
}

/// The path (UTF-16 units) the executable was launched from. The first call asks
/// `query`, which reads the path of the running module; a successful answer is kept
/// in `cache` and every later call answers from there without asking again. That
/// matters because once the running image has been renamed aside, asking again
/// would give the parked path instead of the launched one.
pub fn launch_path<F>(cache: &mut Option<Vec<u16>>, query: F) -> (r: Result<Vec<u16>, Error>)
    where
        F: FnOnce() -> Result<Vec<u16>, Error>,
    requires
        (*old(cache)) is None ==> call_requires(query, ()),
    ensures
        (*old(cache)) matches Some(p) ==> (r matches Ok(q) && q@ == p@) && *final(cache) == *old(cache),
        (*old(cache)) is None ==> {
            &&& call_ensures(query, (), r)
            &&& r matches Ok(q) ==> ((*final(cache)) matches Some(c) && c@ == q@)
            &&& r is Err ==> (*final(cache)) is None
        },
{
    match cache {
        Some(path) => {
            return Ok(copy_units(path));
        },
        None => {},
    }
    let queried = query();
    match queried {
        Ok(path) => {
            *cache = Some(copy_units(&path));
            Ok(path)
        },
        Err(error) => Err(error),
    }
}

} // verus!
