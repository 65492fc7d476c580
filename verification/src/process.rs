//! Matching executable names of running processes against the names a game
//! is known to run under. Names are compared ASCII-case-insensitively: the
//! process name is lowercased, the known names are written in lower case.
use vstd::prelude::*;
use vstd::string::StringSliceAdditionalSpecFns;

verus! {

/// ASCII lowercase of one byte.
pub open spec fn lower_byte(b: u8) -> u8 {
    if 65 <= b <= 90 {
        (b + 32) as u8
    } else {
        b
    }
}

/// `needle` occurs in the lowercased `hay` at position `i`.
pub open spec fn occurs_at(hay: Seq<u8>, needle: Seq<u8>, i: int) -> bool {
    &&& 0 <= i
    &&& i + needle.len() <= hay.len()
    &&& forall|k: int| 0 <= k < needle.len() ==> #[trigger] lower_byte(hay[i + k]) == needle[k]
}

/// `needle` occurs somewhere in the lowercased `hay`.
pub open spec fn contains_lowercased(hay: Seq<u8>, needle: Seq<u8>) -> bool {
    exists|i: int| occurs_at(hay, needle, i)
}

/// The lowercased `hay` is exactly `target`.
pub open spec fn equals_lowercased(hay: Seq<u8>, target: Seq<u8>) -> bool {
    hay.len() == target.len() && occurs_at(hay, target, 0)
}

fn to_lower(b: u8) -> (r: u8)
    ensures
        r == lower_byte(b),
{
    if 65 <= b && b <= 90 {
        b + 32
    } else {
        b
    }
}

fn occurs_at_exec(hay: &[u8], needle: &[u8], i: usize) -> (r: bool)
    requires
        i + needle@.len() <= hay@.len(),
    ensures
        r == occurs_at(hay@, needle@, i as int),
{
    let hay_len = hay.len();
    let mut k: usize = 0;
    while k < needle.len()
        invariant
            k <= needle@.len(),
            i + needle@.len() <= hay@.len(),
            hay_len == hay@.len(),
            forall|j: int| 0 <= j < k ==> #[trigger] lower_byte(hay@[i + j]) == needle@[j],
        decreases needle@.len() - k,
    {
        if to_lower(hay[i + k]) != needle[k] {
            return false;
        }
        k = k + 1;
    }
    true
}

/// Whether `needle` occurs in the ASCII-lowercased `hay`.
pub fn lowercase_contains(hay: &[u8], needle: &[u8]) -> (r: bool)
    ensures
        r == contains_lowercased(hay@, needle@),
{
    if needle.len() > hay.len() {
        assert forall|i: int| !occurs_at(hay@, needle@, i) by {}
        return false;
    }
    let last = hay.len() - needle.len();
    let mut i: usize = 0;
    while i <= last
        invariant
            last + needle@.len() == hay@.len(),
            forall|j: int| 0 <= j < i ==> !#[trigger] occurs_at(hay@, needle@, j),
        decreases last + 1 - i,
    {
        if occurs_at_exec(hay, needle, i) {
            return true;
        }
        if i == last {
            assert forall|j: int| !#[trigger] occurs_at(hay@, needle@, j) by {
                if 0 <= j <= last {
                    assert(j < i + 1);
                }
            }
            return false;
        }
        i = i + 1;
    }
    false
}

/// Whether the ASCII-lowercased `hay` equals `target`.
pub fn lowercase_equals(hay: &[u8], target: &[u8]) -> (r: bool)
    ensures
        r == equals_lowercased(hay@, target@),
{
    if hay.len() != target.len() {
        return false;
    }
    occurs_at_exec(hay, target, 0)
}

/// Some name of `names` occurs in the lowercased process name.
pub open spec fn matches_any_contained(exe_name: Seq<u8>, names: Seq<&str>) -> bool {
    exists|j: int| 0 <= j < names.len() && contains_lowercased(exe_name, #[trigger] names[j].spec_bytes())
}

/// The lowercased process name equals some name of `names`.
pub open spec fn matches_any_exactly(exe_name: Seq<u8>, names: Seq<&str>) -> bool {
    exists|j: int| 0 <= j < names.len() && equals_lowercased(exe_name, #[trigger] names[j].spec_bytes())
}

/// Whether some name of `names` occurs in the lowercased `exe_name`.
pub fn contains_any(exe_name: &[u8], names: &[&str]) -> (r: bool)
    ensures
        r == matches_any_contained(exe_name@, names@),
{
    let mut j: usize = 0;
    while j < names.len()
        invariant
            j <= names@.len(),
            forall|k: int| 0 <= k < j ==> !contains_lowercased(exe_name@, #[trigger] names@[k].spec_bytes()),
        decreases names@.len() - j,
    {
        if lowercase_contains(exe_name, names[j].as_bytes()) {
            return true;
        }
        j = j + 1;
    }
    false
}

/// Whether the lowercased `exe_name` equals some name of `names`.
pub fn equals_any(exe_name: &[u8], names: &[&str]) -> (r: bool)
    ensures
        r == matches_any_exactly(exe_name@, names@),
{
    let mut j: usize = 0;
    while j < names.len()
        invariant
            j <= names@.len(),
            forall|k: int| 0 <= k < j ==> !equals_lowercased(exe_name@, #[trigger] names@[k].spec_bytes()),
        decreases names@.len() - j,
    {
        if lowercase_equals(exe_name, names[j].as_bytes()) {
            return true;
        }
        j = j + 1;
    }
    false
}

} // verus!
