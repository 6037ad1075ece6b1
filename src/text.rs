use vstd::prelude::*;
use vstd::string::*;

verus! {

/// The code of a character after ASCII case folding: `A`..`Z` become
/// `a`..`z`, everything else is kept.
pub open spec fn fold_code(c: char) -> u32 {
    let x = c as u32;
    if 65 <= x && x <= 90 {
        (x + 32) as u32
    } else {
        x
    }
}

/// The folded codes of a whole text.
pub open spec fn folded(s: Seq<char>) -> Seq<u32> {
    Seq::new(s.len(), |i: int| fold_code(s[i]))
}

/// `needle` occurs in `hay` starting at position `i`.
pub open spec fn occurs_at(hay: Seq<u32>, needle: Seq<u32>, i: int) -> bool {
    &&& 0 <= i
    &&& i + needle.len() <= hay.len()
    &&& forall|j: int| 0 <= j < needle.len() ==> hay[i + j] == needle[j]
}

/// `needle` occurs somewhere in `hay`.
pub open spec fn occurs(hay: Seq<u32>, needle: Seq<u32>) -> bool {
    exists|i: int| #[trigger] occurs_at(hay, needle, i)
}

/// `needle` is a substring of `hay` once both are ASCII case folded.
pub open spec fn contains_ignoring_case(hay: Seq<char>, needle: Seq<char>) -> bool {
    occurs(folded(hay), folded(needle))
}

/// Whether two texts hold the same characters.
pub fn text_eq(a: &str, b: &str) -> (r: bool)
    ensures
        r == (a@ == b@),
{
    let n = a.unicode_len();
    let m = b.unicode_len();
    if n != m {
        return false;
    }
    let mut i: usize = 0;
    while i < n
        invariant
            n == a@.len(),
            m == b@.len(),
            n == m,
            i <= n,
            forall|j: int| 0 <= j < i ==> a@[j] == b@[j],
        decreases n - i,
    {
        if a.get_char(i) != b.get_char(i) {
            return false;
        }
        i = i + 1;
    }
    assert(a@ =~= b@);
    true
}

fn fold_char(c: char) -> (r: u32)
    ensures
        r == fold_code(c),
{
    let x = c as u32;
    if 65 <= x && x <= 90 {
        x + 32
    } else {
        x
    }
}

/// The folded codes of `s`, one per character.
pub fn fold_text(s: &str) -> (r: Vec<u32>)
    ensures
        r@ == folded(s@),
{
    let n = s.unicode_len();
    let mut out: Vec<u32> = Vec::new();
    let mut i: usize = 0;
    while i < n
        invariant
            n == s@.len(),
            i <= n,
            out@ == folded(s@).subrange(0, i as int),
        decreases n - i,
    {
        out.push(fold_char(s.get_char(i)));
        i = i + 1;
        assert(out@ =~= folded(s@).subrange(0, i as int));
    }
    assert(out@ =~= folded(s@));
    out
}

/// Whether `needle` occurs in `hay`, both given as folded codes.
pub fn contains_folded(hay: &Vec<u32>, needle: &Vec<u32>) -> (r: bool)
    ensures
        r == occurs(hay@, needle@),
{
    let h = hay.len();
    let n = needle.len();
    if n > h {
        assert(!occurs(hay@, needle@)) by {
            assert forall|i: int| !#[trigger] occurs_at(hay@, needle@, i) by {}
        }
        return false;
    }
    let mut i: usize = 0;
    while i <= h - n
        invariant
            h == hay@.len(),
            n == needle@.len(),
            n <= h,
            i <= h - n + 1,
            forall|k: int| 0 <= k < i ==> !#[trigger] occurs_at(hay@, needle@, k),
        decreases h - n + 1 - i,
    {
        let mut j: usize = 0;
        let mut same = true;
        while j < n && same
            invariant
                h == hay@.len(),
                n == needle@.len(),
                i + n <= h,
                j <= n,
                same ==> forall|t: int| 0 <= t < j ==> hay@[i + t] == needle@[t],
                !same ==> !occurs_at(hay@, needle@, i as int),
            decreases n - j,
        {
            if hay[i + j] != needle[j] {
                same = false;
            }
            j = j + 1;
        }
        if same {
            assert(occurs_at(hay@, needle@, i as int));
            return true;
        }
        i = i + 1;
    }
    assert forall|k: int| !#[trigger] occurs_at(hay@, needle@, k) by {
        if 0 <= k < i {
        }
    }
    false
}

/// Whether `needle` is a substring of `hay`, ignoring ASCII case.
pub fn contains_text_ignoring_case(hay: &str, needle: &str) -> (r: bool)
    ensures
        r == contains_ignoring_case(hay@, needle@),
{
    let h = fold_text(hay);
    let n = fold_text(needle);
    contains_folded(&h, &n)
}

} // verus!
