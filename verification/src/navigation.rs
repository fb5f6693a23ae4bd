//! Recognising the objects of a level that make up the navigation mesh, and finding a point of
//! the mesh near a character: a fixed grid of probes around the character's position is tried
//! in order until one lies on the mesh.
use vstd::prelude::*;

verus! {

/// Whether `pattern` occurs in `text` as a contiguous run of characters.
pub open spec fn has_infix(text: Seq<char>, pattern: Seq<char>) -> bool {
    exists|i: int|
        0 <= i && i + pattern.len() <= text.len() && #[trigger] text.subrange(
            i,
            i + pattern.len(),
        ) == pattern
}

/// The lowercase form of a text, as Rust's `str::to_lowercase` computes it.
pub uninterp spec fn lowercase(text: Seq<char>) -> Seq<char>;

/// Calls `str::to_lowercase`; the contract claims only that the result is `lowercase` of the
/// argument (it depends on nothing else), not what the Unicode case mapping is.
#[verifier::external_body]
fn to_lowercase(text: &str) -> (r: String)
    ensures
        r@ == lowercase(text@),
{
    text.to_lowercase()
}

/// Whether `pattern` occurs in `text` starting at position `start`.
fn matches_at(text: &str, text_len: usize, pattern: &str, pattern_len: usize, start: usize) -> (r:
    bool)
    requires
        text_len == text@.len(),
        pattern_len == pattern@.len(),
        start + pattern_len <= text_len,
    ensures
        r == (text@.subrange(start as int, start + pattern_len) == pattern@),
{
    let mut k: usize = 0;
    while k < pattern_len
        invariant
            k <= pattern_len,
            text_len == text@.len(),
            pattern_len == pattern@.len(),
            start + pattern_len <= text_len,
            forall|m: int| 0 <= m < k ==> text@[start + m] == pattern@[m],
        decreases pattern_len - k,
    {
        if text.get_char(start + k) != pattern.get_char(k) {
            assert(text@.subrange(start as int, start + pattern_len)[k as int] != pattern@[k as int]);
            return false;
        }
        k += 1;
    }
    assert(text@.subrange(start as int, start + pattern_len) =~= pattern@);
    true
}

/// Whether `pattern` occurs in `text`.
fn contains_str(text: &str, pattern: &str) -> (r: bool)
    ensures
        r == has_infix(text@, pattern@),
{
    let text_len = text.unicode_len();
    let pattern_len = pattern.unicode_len();
    if pattern_len > text_len {
        return false;
    }
    let last = text_len - pattern_len;
    let mut start: usize = 0;
    loop
        invariant
            text_len == text@.len(),
            pattern_len == pattern@.len(),
            last == text_len - pattern_len,
            start <= last,
            forall|i: int|
                0 <= i < start ==> #[trigger] text@.subrange(i, i + pattern_len) != pattern@,
        decreases last - start,
    {
        if matches_at(text, text_len, pattern, pattern_len, start) {
            return true;
        }
        if start == last {
            return false;
        }
        start += 1;
    }
}

/// Whether an already lowercased object name carries the navigation-mesh tag `[navmesh]`.
pub fn has_navmesh_tag(lowercase_name: &str) -> (r: bool)
    ensures
        r == has_infix(lowercase_name@, "[navmesh]"@),
{
    contains_str(lowercase_name, "[navmesh]")
}

/// Whether an object whose name carries the tag `[navmesh]`, in any letter case, is part of the
/// navigation mesh.
pub fn read_navmesh(name: &str) -> (r: bool)
    ensures
        r == has_infix(lowercase(name@), "[navmesh]"@),
{
    let lowered = to_lowercase(name);
    has_navmesh_tag(lowered.as_str())
}

/// Number of grid steps along each axis.
pub const PROBE_TRIES: u32 = 10;

/// Whether a probe adds its offset to the position or subtracts it.
#[derive(Debug, Clone, Copy, PartialEq, Eq, Structural)]
pub enum OffsetSign {
    Plus,
    Minus,
}

/// A probe: the position moved by `(x, y)` grid steps, added or subtracted.
#[derive(Debug, Clone, Copy, PartialEq, Eq, Structural)]
pub struct Probe {
    pub x: u32,
    pub y: u32,
    pub sign: OffsetSign,
}

/// The number of probes tried: both signs of every grid offset.
pub open spec fn probe_count() -> int {
    2 * (PROBE_TRIES * PROBE_TRIES) as int
}

/// The probe tried in position `i`: offsets row by row (`x` outer, `y` inner), the added
/// offset before the subtracted one.
pub open spec fn probe_at(i: int) -> Probe {
    Probe {
        x: (i / 20) as u32,
        y: ((i / 2) % 10) as u32,
        sign: if i % 2 == 0 {
            OffsetSign::Plus
        } else {
            OffsetSign::Minus
        },
    }
}

/// The probe order: for every grid offset `(x, y)` with both below ten, the probe at position
/// `20 x + 2 y` adds the offset and the next one subtracts it; so rows go by increasing `x`,
/// and within a row outward by increasing `y`. There are 200 probes.
pub proof fn lemma_probe_order(x: int, y: int)
    requires
        0 <= x < 10,
        0 <= y < 10,
    ensures
        probe_at(20 * x + 2 * y) == (Probe { x: x as u32, y: y as u32, sign: OffsetSign::Plus }),
        probe_at(20 * x + 2 * y + 1) == (Probe {
            x: x as u32,
            y: y as u32,
            sign: OffsetSign::Minus,
        }),
        0 <= 20 * x + 2 * y + 1 < probe_count(),
        probe_count() == 200,
{
    assert((20 * x + 2 * y) / 20 == x);
    assert((20 * x + 2 * y + 1) / 20 == x);
    assert((20 * x + 2 * y) / 2 == 10 * x + y);
    assert((20 * x + 2 * y + 1) / 2 == 10 * x + y);
    assert((10 * x + y) % 10 == y);
}

/// The first probe that `is_in_mesh` accepts, or `None` when it accepts none of them.
pub fn get_closest_vertex<F: Fn(Probe) -> bool>(is_in_mesh: F) -> (r: Option<Probe>)
    requires
        forall|p: Probe| is_in_mesh.requires((p,)),
    ensures
        r matches Some(p) ==> exists|i: int|
            0 <= i < probe_count() && p == probe_at(i) && is_in_mesh.ensures((p,), true)
                && forall|k: int|
                0 <= k < i ==> is_in_mesh.ensures((#[trigger] probe_at(k),), false),
        r is None ==> forall|k: int|
            0 <= k < probe_count() ==> is_in_mesh.ensures((#[trigger] probe_at(k),), false),
{
    let mut x: u32 = 0;
    while x < PROBE_TRIES
        invariant
            x <= PROBE_TRIES,
            forall|p: Probe| is_in_mesh.requires((p,)),
            forall|k: int| 0 <= k < 20 * x ==> is_in_mesh.ensures((#[trigger] probe_at(k),), false),
        decreases PROBE_TRIES - x,
    {
        let mut y: u32 = 0;
        while y < PROBE_TRIES
            invariant
                x < PROBE_TRIES,
                y <= PROBE_TRIES,
                forall|p: Probe| is_in_mesh.requires((p,)),
                forall|k: int|
                    0 <= k < 20 * x + 2 * y ==> is_in_mesh.ensures((#[trigger] probe_at(k), ), false),
            decreases PROBE_TRIES - y,
        {
            let i: Ghost<int> = Ghost(20 * x + 2 * y);
            let plus = Probe { x, y, sign: OffsetSign::Plus };
            assert(probe_at(i@) == plus);
            if is_in_mesh(plus) {
                return Some(plus);
            }
            let minus = Probe { x, y, sign: OffsetSign::Minus };
            assert(probe_at(i@ + 1) == minus);
            if is_in_mesh(minus) {
                return Some(minus);
            }
            y += 1;
        }
        x += 1;
    }
    None
}

} // verus!
