//! Verified text helpers for pointer paths and diagnostics: splitting on
//! `/`, the segment after and the prefix before the last `/`, substring
//! search, and decimal segments.

use vstd::prelude::*;

verus! {

/// `s` split on `/`: always at least one piece, empty pieces kept.
pub open spec fn spec_split(s: Seq<char>) -> Seq<Seq<char>>
    decreases s.len(),
{
    if s.len() == 0 {
        seq![Seq::<char>::empty()]
    } else if s[s.len() - 1] == '/' {
        spec_split(s.subrange(0, s.len() - 1)).push(Seq::<char>::empty())
    } else {
        let r = spec_split(s.subrange(0, s.len() - 1));
        r.update(r.len() - 1, r[r.len() - 1].push(s[s.len() - 1]))
    }
}

pub broadcast proof fn lemma_split_len(s: Seq<char>)
    ensures
        #[trigger] spec_split(s).len() >= 1,
    decreases s.len(),
{
    if s.len() > 0 {
        lemma_split_len(s.subrange(0, s.len() - 1));
    }
}

/// `p` without a single leading `/`, if it has one.
pub open spec fn strip_leading_slash(p: Seq<char>) -> Seq<char> {
    if p.len() > 0 && p[0] == '/' {
        p.subrange(1, p.len() as int)
    } else {
        p
    }
}

/// The piece of `p` after its last `/`; all of `p` if it has none.
pub open spec fn last_segment(p: Seq<char>) -> Seq<char> {
    spec_split(p).last()
}

/// The prefix of `p` before its last `/`; empty if it has none.
pub open spec fn parent_path(p: Seq<char>) -> Seq<char>
    decreases p.len(),
{
    if p.len() == 0 {
        p
    } else if p[p.len() - 1] == '/' {
        p.subrange(0, p.len() - 1)
    } else {
        parent_path(p.subrange(0, p.len() - 1))
    }
}

/// `p` occurs contiguously inside `s`.
pub open spec fn contains_sub(s: Seq<char>, p: Seq<char>) -> bool {
    exists|i: int| 0 <= i && i + p.len() <= s.len() && #[trigger] s.subrange(i, i + p.len()) == p
}

/// The views of a vector of segments.
pub open spec fn segs_view(v: Seq<String>) -> Seq<Seq<char>> {
    v.map_values(|x: String| x@)
}

pub broadcast proof fn lemma_segs_view_push(v: Seq<String>, x: String)
    ensures
        #[trigger] segs_view(v.push(x)) == segs_view(v).push(x@),
{
    assert(segs_view(v.push(x)) =~= segs_view(v).push(x@));
}

/// Splits `s` on `/`, keeping empty pieces, as [`spec_split`] describes.
#[verifier::loop_isolation(false)]
pub fn split_slash(s: &str) -> (r: Vec<String>)
    ensures
        segs_view(r@) == spec_split(s@),
{
    let n = s.unicode_len();
    let mut segs: Vec<String> = Vec::new();
    let mut cur = String::new();
    let mut i: usize = 0;
    proof {
        assert(s@.subrange(0, 0) =~= Seq::<char>::empty());
        assert(segs_view(segs@).push(cur@) =~= spec_split(s@.subrange(0, 0)));
    }
    while i < n
        invariant
            i <= n,
            segs_view(segs@).push(cur@) == spec_split(s@.subrange(0, i as int)),
        decreases n - i,
    {
        let c = s.get_char(i);
        proof {
            assert(s@.subrange(0, i + 1 as int).subrange(0, i as int) =~= s@.subrange(0, i as int));
            assert(s@.subrange(0, i + 1 as int)[i as int] == s@[i as int]);
        }
        if c == '/' {
            segs.push(cur);
            cur = String::new();
            proof {
                assert(segs_view(segs@).push(cur@) =~= spec_split(s@.subrange(0, i + 1 as int)));
            }
        } else {
            let piece = s.substring_char(i, i + 1);
            cur.append(piece);
            proof {
                let prev = spec_split(s@.subrange(0, i as int));
                assert(piece@ =~= seq![s@[i as int]]);
                assert(cur@ =~= prev[prev.len() - 1].push(s@[i as int]));
                assert(segs_view(segs@).push(cur@) =~= prev.update(
                    prev.len() - 1,
                    prev[prev.len() - 1].push(s@[i as int]),
                ));
            }
        }
        i += 1;
    }
    segs.push(cur);
    proof {
        assert(s@.subrange(0, n as int) =~= s@);
    }
    segs
}

/// Index of the last `/` in `p`, if any.
#[verifier::loop_isolation(false)]
fn rfind_slash(p: &str) -> (r: Option<usize>)
    ensures
        match r {
            Some(k) => k < p@.len() && p@[k as int] == '/' && forall|j: int|
                k < j < p@.len() ==> p@[j] != '/',
            None => forall|j: int| 0 <= j < p@.len() ==> p@[j] != '/',
        },
{
    let n = p.unicode_len();
    let mut i: usize = n;
    while i > 0
        invariant
            i <= n,
            forall|j: int| i <= j < p@.len() ==> p@[j] != '/',
        decreases i,
    {
        i -= 1;
        if p.get_char(i) == '/' {
            return Some(i);
        }
    }
    None
}

pub proof fn lemma_split_no_slash(p: Seq<char>)
    requires
        forall|j: int| 0 <= j < p.len() ==> p[j] != '/',
    ensures
        spec_split(p) == seq![p],
    decreases p.len(),
{
    if p.len() == 0 {
        assert(spec_split(p) =~~= seq![p]);
    } else {
        lemma_split_no_slash(p.subrange(0, p.len() - 1));
        assert(p.subrange(0, p.len() - 1).push(p[p.len() - 1]) =~= p);
        assert(spec_split(p) =~~= seq![p]);
    }
}

proof fn lemma_split_after_slash(p: Seq<char>, k: int)
    requires
        0 <= k < p.len(),
        p[k] == '/',
        forall|j: int| k < j < p.len() ==> p[j] != '/',
    ensures
        spec_split(p).last() == p.subrange(k + 1, p.len() as int),
    decreases p.len(),
{
    broadcast use lemma_split_len;

    if k == p.len() - 1 {
        assert(p.subrange(k + 1, p.len() as int) =~= Seq::<char>::empty());
    } else {
        let shorter = p.subrange(0, p.len() - 1);
        lemma_split_after_slash(shorter, k);
        assert(shorter.subrange(k + 1, shorter.len() as int).push(p[p.len() - 1]) =~= p.subrange(
            k + 1,
            p.len() as int,
        ));
    }
}

proof fn lemma_parent_no_slash(p: Seq<char>)
    requires
        forall|j: int| 0 <= j < p.len() ==> p[j] != '/',
    ensures
        parent_path(p) == Seq::<char>::empty(),
    decreases p.len(),
{
    if p.len() > 0 {
        lemma_parent_no_slash(p.subrange(0, p.len() - 1));
    } else {
        assert(p =~= Seq::<char>::empty());
    }
}

proof fn lemma_parent_after_slash(p: Seq<char>, k: int)
    requires
        0 <= k < p.len(),
        p[k] == '/',
        forall|j: int| k < j < p.len() ==> p[j] != '/',
    ensures
        parent_path(p) == p.subrange(0, k),
    decreases p.len(),
{
    if k == p.len() - 1 {
    } else {
        let shorter = p.subrange(0, p.len() - 1);
        lemma_parent_after_slash(shorter, k);
        assert(shorter.subrange(0, k) =~= p.subrange(0, k));
    }
}

/// The text after the last `/` of `p`; all of `p` if it has none.
pub fn last_segment_of(p: &str) -> (r: String)
    ensures
        r@ == last_segment(p@),
{
    let n = p.unicode_len();
    match rfind_slash(p) {
        Some(k) => {
            let r = p.substring_char(k + 1, n);
            proof {
                lemma_split_after_slash(p@, k as int);
            }
            r.to_owned()
        },
        None => {
            proof {
                lemma_split_no_slash(p@);
            }
            p.to_owned()
        },
    }
}

/// The text before the last `/` of `p`; empty if it has none.
pub fn parent_of(p: &str) -> (r: String)
    ensures
        r@ == parent_path(p@),
{
    match rfind_slash(p) {
        Some(k) => {
            let r = p.substring_char(0, k);
            proof {
                lemma_parent_after_slash(p@, k as int);
            }
            r.to_owned()
        },
        None => {
            proof {
                lemma_parent_no_slash(p@);
            }
            String::new()
        },
    }
}

/// Substring search, as [`contains_sub`] describes.
#[verifier::loop_isolation(false)]
pub fn str_contains(s: &str, pat: &str) -> (r: bool)
    ensures
        r == contains_sub(s@, pat@),
{
    let n = s.unicode_len();
    let m = pat.unicode_len();
    if m > n {
        return false;
    }
    if m == 0 {
        proof {
            assert(s@.subrange(0, 0 + pat@.len() as int) =~= pat@);
        }
        return true;
    }
    let mut i: usize = 0;
    while i <= n - m
        invariant
            m <= n,
            i <= n - m + 1,
            m >= 1,
            forall|a: int| 0 <= a < i ==> #[trigger] s@.subrange(a, a + m) != pat@,
        decreases n - i,
    {
        let mut j: usize = 0;
        let mut mismatch = false;
        while j < m
            invariant
                j <= m,
                i + m <= n,
                !mismatch ==> forall|b: int| 0 <= b < j ==> s@[i + b] == pat@[b],
                mismatch ==> s@.subrange(i as int, i + m) != pat@,
            decreases m - j,
        {
            if s.get_char(i + j) != pat.get_char(j) {
                proof {
                    assert(s@.subrange(i as int, i + m)[j as int] == s@[i + j]);
                }
                mismatch = true;
                break ;
            }
            j += 1;
        }
        if !mismatch {
            proof {
                assert(s@.subrange(i as int, i + m) =~= pat@);
            }
            return true;
        }
        i += 1;
    }
    false
}


/// The two pieces, joined.
pub fn concat2(a: &str, b: &str) -> (r: String)
    ensures
        r@ == a@ + b@,
{
    let mut s = String::new();
    s.append(a);
    s.append(b);
    proof {
        assert(s@ =~= a@ + b@);
    }
    s
}

/// The three pieces, joined.
pub fn concat3(a: &str, b: &str, c: &str) -> (r: String)
    ensures
        r@ == a@ + b@ + c@,
{
    let mut s = String::new();
    s.append(a);
    s.append(b);
    s.append(c);
    proof {
        assert(s@ =~= a@ + b@ + c@);
    }
    s
}

/// The value of `c` as a decimal digit; ten when it is not one.
pub open spec fn digit_val(c: char) -> nat {
    if c == '0' {
        0
    } else if c == '1' {
        1
    } else if c == '2' {
        2
    } else if c == '3' {
        3
    } else if c == '4' {
        4
    } else if c == '5' {
        5
    } else if c == '6' {
        6
    } else if c == '7' {
        7
    } else if c == '8' {
        8
    } else if c == '9' {
        9
    } else {
        10
    }
}

pub open spec fn is_digit(c: char) -> bool {
    digit_val(c) < 10
}

/// A non-empty run of decimal digits.
pub open spec fn is_digits(s: Seq<char>) -> bool {
    s.len() > 0 && forall|i: int| 0 <= i < s.len() ==> is_digit(s[i])
}

/// The number the digit run `s` denotes.
pub open spec fn digits_val(s: Seq<char>) -> nat
    decreases s.len(),
{
    if s.len() == 0 {
        0
    } else {
        digits_val(s.subrange(0, s.len() - 1)) * 10 + digit_val(s[s.len() - 1])
    }
}

fn digit_of(c: char) -> (r: usize)
    ensures
        r == digit_val(c),
{
    match c {
        '0' => 0,
        '1' => 1,
        '2' => 2,
        '3' => 3,
        '4' => 4,
        '5' => 5,
        '6' => 6,
        '7' => 7,
        '8' => 8,
        '9' => 9,
        _ => 10,
    }
}

proof fn lemma_digits_val_prefix_mono(s: Seq<char>, a: int, b: int)
    requires
        0 <= a <= b <= s.len(),
    ensures
        digits_val(s.subrange(0, a)) <= digits_val(s.subrange(0, b)),
    decreases b - a,
{
    if a < b {
        lemma_digits_val_prefix_mono(s, a, b - 1);
        let p = s.subrange(0, b);
        assert(p.subrange(0, p.len() - 1) =~= s.subrange(0, b - 1));
    }
}

/// Reads `seg` as an array index below `len`: the segment must be a
/// non-empty digit run whose value is in range; anything else is `None`.
#[verifier::loop_isolation(false)]
pub fn seg_index(seg: &str, len: usize) -> (r: Option<usize>)
    ensures
        match r {
            Some(k) => is_digits(seg@) && digits_val(seg@) == k && k < len,
            None => !(is_digits(seg@) && digits_val(seg@) < len),
        },
{
    let n = seg.unicode_len();
    if n == 0 {
        return None;
    }
    let mut acc: usize = 0;
    let mut i: usize = 0;
    proof {
        assert(seg@.subrange(0, 0) =~= Seq::<char>::empty());
    }
    while i < n
        invariant
            i <= n,
            acc == digits_val(seg@.subrange(0, i as int)),
            forall|j: int| 0 <= j < i ==> is_digit(seg@[j]),
        decreases n - i,
    {
        let c = seg.get_char(i);
        let d = digit_of(c);
        if d >= 10 {
            return None;
        }
        proof {
            let p = seg@.subrange(0, i + 1 as int);
            assert(p.subrange(0, p.len() - 1) =~= seg@.subrange(0, i as int));
            assert(p[p.len() - 1] == seg@[i as int]);
        }
        let stepped = match acc.checked_mul(10) {
            Some(x) => x.checked_add(d),
            None => None,
        };
        match stepped {
            Some(x) => {
                acc = x;
            },
            None => {
                // The value read so far already exceeds every machine
                // length, so the index cannot be in range.
                proof {
                    lemma_digits_val_prefix_mono(seg@, i + 1, seg@.len() as int);
                    assert(seg@.subrange(0, seg@.len() as int) =~= seg@);
                }
                return None;
            },
        }
        i += 1;
    }
    proof {
        assert(seg@.subrange(0, n as int) =~= seg@);
    }
    if acc < len {
        Some(acc)
    } else {
        None
    }
}

} // verus!
