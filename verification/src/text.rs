//! Character-level text handling: whitespace trimming as `str::trim` does
//! it, exact comparison, and the canonical form of channel identifiers.
use vstd::prelude::*;
use vstd::string::StrSliceExecFns;
use vstd::string::StringExecFns;

verus! {

/// The characters with the Unicode `White_Space` property, the set that
/// `char::is_whitespace` and `str::trim` use.
pub open spec fn is_ws(c: char) -> bool {
    let u = c as u32;
    ||| 9 <= u <= 13
    ||| u == 32
    ||| u == 0x85
    ||| u == 0xA0
    ||| u == 0x1680
    ||| 0x2000 <= u <= 0x200A
    ||| u == 0x2028
    ||| u == 0x2029
    ||| u == 0x202F
    ||| u == 0x205F
    ||| u == 0x3000
}

pub fn is_whitespace(c: char) -> (r: bool)
    ensures
        r == is_ws(c),
{
    let u = c as u32;
    (9 <= u && u <= 13) || u == 32 || u == 0x85 || u == 0xA0 || u == 0x1680 || (0x2000 <= u && u <= 0x200A)
        || u == 0x2028 || u == 0x2029 || u == 0x202F || u == 0x205F || u == 0x3000
}

/// Index of the first non-whitespace character at or after `i`.
pub open spec fn lead(s: Seq<char>, i: int) -> int
    decreases s.len() - i,
{
    if 0 <= i < s.len() && is_ws(s[i]) {
        lead(s, i + 1)
    } else {
        i
    }
}

/// End of the text before the whitespace that ends `s[lo..j]`.
pub open spec fn back(s: Seq<char>, lo: int, j: int) -> int
    decreases j - lo,
{
    if lo < j && j <= s.len() && is_ws(s[j - 1]) {
        back(s, lo, j - 1)
    } else {
        j
    }
}

/// `s` without leading and trailing whitespace.
pub open spec fn trimmed(s: Seq<char>) -> Seq<char> {
    s.subrange(lead(s, 0), back(s, lead(s, 0), s.len() as int))
}

/// `s` with leading and trailing whitespace removed (`str::trim`).
pub fn trim_str(s: &str) -> (r: &str)
    ensures
        r@ == trimmed(s@),
{
    let n = s.unicode_len();
    let mut i: usize = 0;
    while i < n && is_whitespace(s.get_char(i))
        invariant
            n == s@.len(),
            0 <= i <= n,
            lead(s@, 0) == lead(s@, i as int),
        decreases n - i,
    {
        i = i + 1;
    }
    let mut j: usize = n;
    while j > i && is_whitespace(s.get_char(j - 1))
        invariant
            n == s@.len(),
            i == lead(s@, 0),
            i <= j <= n,
            back(s@, i as int, n as int) == back(s@, i as int, j as int),
        decreases j - i,
    {
        j = j - 1;
    }
    s.substring_char(i, j)
}

/// `s` without the `'\0'` characters that end it.
pub open spec fn strip_trailing_nul(s: Seq<char>) -> Seq<char>
    decreases s.len(),
{
    if s.len() > 0 && s.last() == '\0' {
        strip_trailing_nul(s.drop_last())
    } else {
        s
    }
}

/// `s` without its trailing `'\0'` characters (`trim_end_matches('\0')`).
pub fn trim_trailing_nul(s: &str) -> (r: &str)
    ensures
        r@ == strip_trailing_nul(s@),
{
    let n = s.unicode_len();
    let mut j: usize = n;
    assert(s@.subrange(0, n as int) =~= s@);
    while j > 0 && s.get_char(j - 1) == '\0'
        invariant
            n == s@.len(),
            j <= n,
            strip_trailing_nul(s@) == strip_trailing_nul(s@.subrange(0, j as int)),
        decreases j,
    {
        assert(s@.subrange(0, j as int).drop_last() =~= s@.subrange(0, j - 1));
        j = j - 1;
    }
    assert(s@.subrange(0, j as int) =~= strip_trailing_nul(s@));
    s.substring_char(0, j)
}

/// Whether two strings hold the same characters.
pub fn str_eq(a: &str, b: &str) -> (r: bool)
    ensures
        r == (a@ == b@),
{
    let n = a.unicode_len();
    if n != b.unicode_len() {
        return false;
    }
    let mut i: usize = 0;
    while i < n
        invariant
            n == a@.len(),
            n == b@.len(),
            0 <= i <= n,
            forall|k: int| 0 <= k < i ==> a@[k] == b@[k],
        decreases n - i,
    {
        if a.get_char(i) != b.get_char(i) {
            return false;
        }
        i = i + 1;
    }
    assert(a@ =~= b@);
    true
}

/// ASCII lowercase of one character.
pub open spec fn lower_char(c: char) -> char {
    if 'A' <= c <= 'Z' {
        ((c as u32) + 32) as char
    } else {
        c
    }
}

/// What one character contributes to a canonical identifier: nothing for a
/// space, hyphen or underscore, its ASCII lowercase otherwise.
pub open spec fn canonical_piece(c: char) -> Seq<char> {
    if c == ' ' || c == '-' || c == '_' {
        Seq::empty()
    } else {
        seq![lower_char(c)]
    }
}

/// ASCII-lowercased `s` without spaces, hyphens and underscores.
pub open spec fn canonical_chars(s: Seq<char>) -> Seq<char>
    decreases s.len(),
{
    if s.len() == 0 {
        Seq::empty()
    } else {
        canonical_chars(s.drop_last()) + canonical_piece(s.last())
    }
}

/// The canonical identifier of a channel or type name: trimmed,
/// ASCII-lowercased, without spaces, hyphens and underscores.
pub open spec fn canonical_id(s: Seq<char>) -> Seq<char> {
    canonical_chars(trimmed(s))
}

/// The one-character string holding the lowercase of the ASCII capital `c`.
fn lowercase_of_capital(c: char) -> (r: &'static str)
    requires
        'A' <= c <= 'Z',
    ensures
        r@ == seq![lower_char(c)],
{
    let alphabet = "abcdefghijklmnopqrstuvwxyz";
    proof {
        reveal_strlit("abcdefghijklmnopqrstuvwxyz");
    }
    let k = (c as u32 - 65) as usize;
    assert(alphabet@.len() == 26);
    let r = alphabet.substring_char(k, k + 1);
    assert(r@ =~= seq![alphabet@[k as int]]);
    assert(alphabet@[k as int] == lower_char(c)) by {
        assert(alphabet@ =~= seq!['a', 'b', 'c', 'd', 'e', 'f', 'g', 'h', 'i', 'j', 'k', 'l', 'm', 'n', 'o', 'p', 'q', 'r', 's', 't', 'u', 'v', 'w', 'x', 'y', 'z']);
    }
    r
}

/// Canonical identifier of a channel or type name.
pub fn canonical_channel_id(raw: &str) -> (r: String)
    ensures
        r@ == canonical_id(raw@),
{
    let t = trim_str(raw);
    let n = t.unicode_len();
    let mut out = String::from_str("");
    proof {
        reveal_strlit("");
    }
    let mut i: usize = 0;
    while i < n
        invariant
            n == t@.len(),
            t@ == trimmed(raw@),
            0 <= i <= n,
            out@ == canonical_chars(t@.subrange(0, i as int)),
        decreases n - i,
    {
        let c = t.get_char(i);
        assert(t@.subrange(0, i + 1).drop_last() =~= t@.subrange(0, i as int));
        assert(t@.subrange(0, i + 1).last() == c);
        if c == ' ' || c == '-' || c == '_' {
            assert(out@ =~= out@ + canonical_piece(c));
        } else if 'A' <= c && c <= 'Z' {
            out.append(lowercase_of_capital(c));
        } else {
            let piece = t.substring_char(i, i + 1);
            assert(piece@ =~= seq![c]);
            out.append(piece);
        }
        i = i + 1;
    }
    assert(t@.subrange(0, n as int) =~= t@);
    out
}

} // verus!
