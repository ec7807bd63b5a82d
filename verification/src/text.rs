//! The std string operations that the rest of the library reads text with.

use vstd::prelude::*;

verus! {

/// `p` occurs in `s` as a run of consecutive characters.
pub open spec fn contains_text(s: Seq<char>, p: Seq<char>) -> bool {
    exists|i: int| 0 <= i && i + p.len() <= s.len() && #[trigger] s.subrange(i, i + p.len()) == p
}

/// What `str::to_lowercase` gives for a text (Unicode lower-case mapping).
pub uninterp spec fn lowercase_of(s: Seq<char>) -> Seq<char>;

/// A text of ASCII characters only.
pub open spec fn is_ascii_text(s: Seq<char>) -> bool {
    forall|i: int| 0 <= i < s.len() ==> (#[trigger] s[i] as int) < 128
}

/// An ASCII character in lower case: 'A'..='Z' become 'a'..='z', every other
/// character stays.
pub open spec fn ascii_lower_char(c: char) -> char {
    if 'A' <= c && c <= 'Z' {
        ((c as int) + 32) as char
    } else {
        c
    }
}

/// A text with its ASCII capitals in lower case.
pub open spec fn ascii_lowercase(s: Seq<char>) -> Seq<char> {
    s.map_values(|c: char| ascii_lower_char(c))
}

/// What `str::trim` gives for a text (leading and trailing Unicode white space
/// taken off).
pub uninterp spec fn trim_of(s: Seq<char>) -> Seq<char>;

/// The characters of a text, in order.
fn chars_of(s: &str) -> (res: Vec<char>)
    ensures
        res@ == s@,
{
    let n = s.unicode_len();
    let mut v: Vec<char> = Vec::new();
    let mut i: usize = 0;
    while i < n
        invariant
            i <= n,
            n == s@.len(),
            v@ == s@.subrange(0, i as int),
        decreases n - i,
    {
        v.push(s.get_char(i));
        assert(v@ =~= s@.subrange(0, i + 1));
        i += 1;
    }
    assert(v@ =~= s@);
    v
}

/// Whether `p` is a prefix of `s`.
pub(crate) fn str_starts_with(s: &str, p: &str) -> (res: bool)
    ensures
        res == p@.is_prefix_of(s@),
{
    let sc = chars_of(s);
    let pc = chars_of(p);
    if pc.len() > sc.len() {
        return false;
    }
    let mut i: usize = 0;
    while i < pc.len()
        invariant
            pc.len() <= sc.len(),
            sc@ == s@,
            pc@ == p@,
            i <= pc.len(),
            forall|j: int| 0 <= j < i ==> pc@[j] == sc@[j],
        decreases pc.len() - i,
    {
        if pc[i] != sc[i] {
            assert(s@.subrange(0, p@.len() as int)[i as int] != p@[i as int]);
            return false;
        }
        i += 1;
    }
    assert(p@ =~= s@.subrange(0, p@.len() as int));
    true
}

/// Whether `p` stands in `sc` at position `i`.
fn matches_at(sc: &Vec<char>, pc: &Vec<char>, i: usize) -> (res: bool)
    requires
        i + pc.len() <= sc.len(),
    ensures
        res == (sc@.subrange(i as int, i + pc@.len()) == pc@),
{
    let mut k: usize = 0;
    while k < pc.len()
        invariant
            i + pc.len() <= sc.len(),
            k <= pc.len(),
            forall|j: int| 0 <= j < k ==> pc@[j] == sc@[i + j],
        decreases pc.len() - k,
    {
        if pc[k] != sc[i + k] {
            assert(sc@.subrange(i as int, i + pc@.len())[k as int] != pc@[k as int]);
            return false;
        }
        k += 1;
    }
    assert(sc@.subrange(i as int, i + pc@.len()) =~= pc@);
    true
}

/// Whether `p` occurs somewhere in `s`.
pub(crate) fn str_contains(s: &str, p: &str) -> (res: bool)
    ensures
        res == contains_text(s@, p@),
{
    let sc = chars_of(s);
    let pc = chars_of(p);
    if pc.len() > sc.len() {
        return false;
    }
    let last = sc.len() - pc.len();
    let mut i: usize = 0;
    loop
        invariant
            sc@ == s@,
            pc@ == p@,
            last == sc.len() - pc.len(),
            i <= last,
            forall|j: int| 0 <= j < i ==> #[trigger] s@.subrange(j, j + p@.len()) != p@,
        ensures
            forall|j: int| 0 <= j <= last ==> #[trigger] s@.subrange(j, j + p@.len()) != p@,
        decreases last - i,
    {
        if matches_at(&sc, &pc, i) {
            assert(s@.subrange(i as int, i + p@.len()) == p@);
            return true;
        }
        if i == last {
            break;
        }
        i += 1;
    }
    assert forall|j: int| 0 <= j && j + p@.len() <= s@.len() implies #[trigger] s@.subrange(
        j,
        j + p@.len(),
    ) != p@ by {
        assert(j <= last);
    }
    false
}

/// `str::to_lowercase`; the mapping is Unicode's and is left unstated beyond
/// its name (`lowercase_of`), but for ASCII text it is the ASCII one: capitals
/// become small letters and nothing else changes.
#[verifier::external_body]
pub(crate) fn str_to_lowercase(s: &str) -> (res: String)
    ensures
        res@ == lowercase_of(s@),
        is_ascii_text(s@) ==> res@ == ascii_lowercase(s@),
{
    s.to_lowercase()
}

/// `str::trim`; which characters count as white space is Unicode's and is left
/// unstated beyond its name: the result is `trim_of` the text.
#[verifier::external_body]
pub(crate) fn str_trim(s: &str) -> (res: &str)
    ensures
        res@ == trim_of(s@),
{
    s.trim()
}

/// Whether two texts are the same characters.
pub(crate) fn str_eq(a: &str, b: &str) -> (res: bool)
    ensures
        res == (a@ == b@),
{
    let x = a.to_owned();
    let y = b.to_owned();
    x == y
}

} // verus!
