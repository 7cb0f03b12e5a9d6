//! Byte-level text utilities: searching, ASCII-whitespace trimming, and
//! equality, each exec function proved against a spec-level definition.

use vstd::prelude::*;

verus! {

/// ASCII whitespace as trimmed from the ends of section names, keys and values.
pub open spec fn is_space(b: u8) -> bool {
    b == 32 || b == 9 || b == 13 || b == 10
}

/// Index of the first occurrence of `b` in `s` at or after `i`; `s.len()` if absent.
pub open spec fn find_from(s: Seq<u8>, b: u8, i: int) -> int
    decreases s.len() - i,
{
    if i < 0 || i >= s.len() {
        s.len() as int
    } else if s[i] == b {
        i
    } else {
        find_from(s, b, i + 1)
    }
}

/// Index of the first occurrence of `b` in `s`; `s.len()` if absent.
pub open spec fn find_byte(s: Seq<u8>, b: u8) -> int {
    find_from(s, b, 0)
}

pub open spec fn has_byte(s: Seq<u8>, b: u8) -> bool {
    find_byte(s, b) < s.len()
}

pub proof fn lemma_find_from(s: Seq<u8>, b: u8, i: int)
    requires
        0 <= i <= s.len(),
    ensures
        i <= find_from(s, b, i) <= s.len(),
        find_from(s, b, i) < s.len() ==> s[find_from(s, b, i)] == b,
        forall|j: int| i <= j < find_from(s, b, i) ==> s[j] != b,
    decreases s.len() - i,
{
    if i < s.len() && s[i] != b {
        lemma_find_from(s, b, i + 1);
    }
}

/// The first hit from `i` on is exactly `k` when nothing in `[i, k)` is `b`
/// and either `s[k] == b` or `k` is the end.
pub proof fn lemma_find_from_is(s: Seq<u8>, b: u8, i: int, k: int)
    requires
        0 <= i <= k <= s.len(),
        forall|j: int| i <= j < k ==> s[j] != b,
        k < s.len() ==> s[k] == b,
    ensures
        find_from(s, b, i) == k,
    decreases k - i,
{
    if i < k {
        lemma_find_from_is(s, b, i + 1, k);
    }
}

pub proof fn lemma_has_byte(s: Seq<u8>, b: u8)
    ensures
        has_byte(s, b) <==> exists|j: int| 0 <= j < s.len() && s[j] == b,
{
    lemma_find_from(s, b, 0);
    if has_byte(s, b) {
        assert(s[find_byte(s, b)] == b);
    }
}

/// First index at or after `i` holding a byte that is not ASCII whitespace.
pub open spec fn skip_space_from(s: Seq<u8>, i: int) -> int
    decreases s.len() - i,
{
    if i < 0 || i >= s.len() {
        s.len() as int
    } else if is_space(s[i]) {
        skip_space_from(s, i + 1)
    } else {
        i
    }
}

/// Exclusive end of the prefix `s.take(i)` once trailing ASCII whitespace is dropped.
pub open spec fn rtrim_end(s: Seq<u8>, i: int) -> int
    decreases i,
{
    if i <= 0 {
        0
    } else if is_space(s[i - 1]) {
        rtrim_end(s, i - 1)
    } else {
        i
    }
}

/// `s` with leading and trailing ASCII whitespace removed.
pub open spec fn spec_trim(s: Seq<u8>) -> Seq<u8> {
    let a = skip_space_from(s, 0);
    let b = rtrim_end(s, s.len() as int);
    if a < b {
        s.subrange(a, b)
    } else {
        Seq::empty()
    }
}

pub proof fn lemma_skip_space_from(s: Seq<u8>, i: int)
    requires
        0 <= i <= s.len(),
    ensures
        i <= skip_space_from(s, i) <= s.len(),
        skip_space_from(s, i) < s.len() ==> !is_space(s[skip_space_from(s, i)]),
        forall|j: int| i <= j < skip_space_from(s, i) ==> is_space(s[j]),
    decreases s.len() - i,
{
    if i < s.len() && is_space(s[i]) {
        lemma_skip_space_from(s, i + 1);
    }
}

pub proof fn lemma_rtrim_end(s: Seq<u8>, i: int)
    requires
        0 <= i <= s.len(),
    ensures
        0 <= rtrim_end(s, i) <= i,
        rtrim_end(s, i) > 0 ==> !is_space(s[rtrim_end(s, i) - 1]),
        forall|j: int| rtrim_end(s, i) <= j < i ==> is_space(s[j]),
    decreases i,
{
    if i > 0 && is_space(s[i - 1]) {
        lemma_rtrim_end(s, i - 1);
    }
}

pub proof fn lemma_trim_props(s: Seq<u8>)
    ensures
        spec_trim(s).len() <= s.len(),
        spec_trim(s).len() > 0 ==> !is_space(spec_trim(s)[0]),
        spec_trim(s).len() > 0 ==> !is_space(spec_trim(s)[spec_trim(s).len() - 1]),
        forall|j: int|
            0 <= j < spec_trim(s).len() ==> exists|k: int|
                0 <= k < s.len() && s[k] == #[trigger] spec_trim(s)[j],
{
    lemma_skip_space_from(s, 0);
    lemma_rtrim_end(s, s.len() as int);
    let a = skip_space_from(s, 0);
    let b = rtrim_end(s, s.len() as int);
    if a < b {
        assert forall|j: int| 0 <= j < spec_trim(s).len() implies exists|k: int|
            0 <= k < s.len() && s[k] == #[trigger] spec_trim(s)[j] by {
            assert(s[a + j] == spec_trim(s)[j]);
        }
    }
}

/// A byte absent from `s` is absent from its trim.
pub proof fn lemma_trim_keeps_absence(s: Seq<u8>, b: u8)
    requires
        !has_byte(s, b),
    ensures
        !has_byte(spec_trim(s), b),
{
    lemma_has_byte(s, b);
    lemma_has_byte(spec_trim(s), b);
    lemma_trim_props(s);
    if has_byte(spec_trim(s), b) {
        let j = choose|j: int| 0 <= j < spec_trim(s).len() && spec_trim(s)[j] == b;
        assert(exists|k: int| 0 <= k < s.len() && s[k] == spec_trim(s)[j]);
    }
}

/// Trimming a sequence whose ends are already clean changes nothing.
pub proof fn lemma_trim_noop(s: Seq<u8>)
    requires
        s.len() > 0,
        !is_space(s[0]),
        !is_space(s[s.len() - 1]),
    ensures
        spec_trim(s) == s,
{
    assert(skip_space_from(s, 0) == 0);
    assert(rtrim_end(s, s.len() as int) == s.len() as int);
    assert(spec_trim(s) =~= s);
}

pub fn is_space_byte(b: u8) -> (r: bool)
    ensures
        r == is_space(b),
{
    b == 32 || b == 9 || b == 13 || b == 10
}

/// Copy of `v[a..b]`.
pub fn sub_vec(v: &Vec<u8>, a: usize, b: usize) -> (r: Vec<u8>)
    requires
        a <= b <= v@.len(),
    ensures
        r@ == v@.subrange(a as int, b as int),
{
    let mut r: Vec<u8> = Vec::new();
    let mut i: usize = a;
    while i < b
        invariant
            a <= i <= b <= v@.len(),
            r@ == v@.subrange(a as int, i as int),
        decreases b - i,
    {
        r.push(v[i]);
        i = i + 1;
        assert(r@ =~= v@.subrange(a as int, i as int));
    }
    r
}

/// `v` with leading and trailing ASCII whitespace removed.
pub fn trim(v: &Vec<u8>) -> (r: Vec<u8>)
    ensures
        r@ == spec_trim(v@),
{
    let n = v.len();
    let mut a: usize = 0;
    while a < n && is_space_byte(v[a])
        invariant
            0 <= a <= n,
            n == v@.len(),
            skip_space_from(v@, 0) == skip_space_from(v@, a as int),
        decreases n - a,
    {
        a = a + 1;
    }
    proof {
        lemma_skip_space_from(v@, a as int);
        assert(skip_space_from(v@, a as int) == a as int);
    }
    let mut b: usize = n;
    while b > a && is_space_byte(v[b - 1])
        invariant
            a <= b <= n,
            n == v@.len(),
            rtrim_end(v@, n as int) == rtrim_end(v@, b as int),
        decreases b,
    {
        b = b - 1;
    }
    proof {
        lemma_rtrim_end(v@, b as int);
        let sa = skip_space_from(v@, 0);
        let sb = rtrim_end(v@, v@.len() as int);
        if b > a {
            assert(rtrim_end(v@, b as int) == b as int);
            assert(sa < sb);
        } else {
            // b == a: either the whole vector is whitespace or it is empty past a
            assert(sb == rtrim_end(v@, a as int));
            lemma_rtrim_end(v@, a as int);
            assert(sb <= a as int);
        }
    }
    if a < b {
        let r = sub_vec(v, a, b);
        r
    } else {
        let r: Vec<u8> = Vec::new();
        proof {
            assert(spec_trim(v@) =~= Seq::<u8>::empty());
        }
        r
    }
}

/// Byte-for-byte equality of two vectors.
pub fn bytes_eq(a: &Vec<u8>, b: &Vec<u8>) -> (r: bool)
    ensures
        r == (a@ == b@),
{
    if a.len() != b.len() {
        return false;
    }
    let n = a.len();
    let mut i: usize = 0;
    while i < n
        invariant
            0 <= i <= n,
            n == a@.len() == b@.len(),
            forall|j: int| 0 <= j < i ==> a@[j] == b@[j],
        decreases n - i,
    {
        if a[i] != b[i] {
            return false;
        }
        i = i + 1;
    }
    proof {
        assert(a@ =~= b@);
    }
    true
}

/// Index of the first occurrence of `b` in `v`; `v.len()` if absent.
pub fn find_byte_in(v: &Vec<u8>, b: u8) -> (r: usize)
    ensures
        r as int == find_byte(v@, b),
{
    let n = v.len();
    let mut i: usize = 0;
    while i < n
        invariant
            0 <= i <= n,
            n == v@.len(),
            find_byte(v@, b) == find_from(v@, b, i as int),
        decreases n - i,
    {
        if v[i] == b {
            return i;
        }
        i = i + 1;
    }
    n
}

} // verus!
