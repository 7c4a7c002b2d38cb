//! The JSON pointer resolver: walks a `/`-delimited path through a
//! document. Segments are matched literally (no `~0`/`~1` escape
//! decoding, a known limitation kept for compatibility); an array
//! segment must be a run of decimal digits whose value is in range.

use vstd::prelude::*;
use crate::json::{entries_lookup, Json, JsonValue};
use crate::strutil::{
    digits_val, is_digits, seg_index, segs_view, spec_split, split_slash, strip_leading_slash,
};

verus! {

/// Walks the already-split segments, leftmost first.
pub open spec fn resolve_segs(v: Json, segs: Seq<Seq<char>>) -> Option<Json>
    decreases segs.len(),
{
    if segs.len() == 0 {
        Some(v)
    } else {
        match v {
            Json::Obj(entries) => match entries_lookup(entries, segs[0]) {
                Some(w) => resolve_segs(w, segs.subrange(1, segs.len() as int)),
                None => None,
            },
            Json::Arr(items) => if is_digits(segs[0]) && digits_val(segs[0]) < items.len() {
                resolve_segs(items[digits_val(segs[0]) as int], segs.subrange(1, segs.len() as int))
            } else {
                None
            },
            _ => None,
        }
    }
}

/// What resolving `path` against `v` yields: the root itself for an
/// empty or bare-`/` path, else the walk over the path's segments
/// after a single leading `/` is stripped.
pub open spec fn spec_resolve(v: Json, path: Seq<char>) -> Option<Json> {
    if path.len() == 0 || path == seq!['/'] {
        Some(v)
    } else {
        resolve_segs(v, spec_split(strip_leading_slash(path)))
    }
}

proof fn lemma_resolve_segs_step(v: Json, segs: Seq<Seq<char>>, i: int)
    requires
        0 <= i < segs.len(),
    ensures
        resolve_segs(v, segs.subrange(i, segs.len() as int)) == (match v {
            Json::Obj(entries) => match entries_lookup(entries, segs[i]) {
                Some(w) => resolve_segs(w, segs.subrange(i + 1, segs.len() as int)),
                None => None,
            },
            Json::Arr(items) => if is_digits(segs[i]) && digits_val(segs[i]) < items.len() {
                resolve_segs(
                    items[digits_val(segs[i]) as int],
                    segs.subrange(i + 1, segs.len() as int),
                )
            } else {
                None
            },
            _ => None,
        }),
{
    let suffix = segs.subrange(i, segs.len() as int);
    assert(suffix[0] == segs[i]);
    assert(suffix.subrange(1, suffix.len() as int) =~= segs.subrange(i + 1, segs.len() as int));
}

/// The pointer string that names the walk `segs`: one `/` before each
/// segment.
pub open spec fn pointer_of(segs: Seq<Seq<char>>) -> Seq<char>
    decreases segs.len(),
{
    if segs.len() == 0 {
        Seq::empty()
    } else {
        pointer_of(segs.subrange(0, segs.len() - 1)) + seq!['/'] + segs[segs.len() - 1]
    }
}

proof fn lemma_pointer_of_shape(segs: Seq<Seq<char>>)
    requires
        segs.len() >= 1,
    ensures
        pointer_of(segs).len() >= segs.len(),
        pointer_of(segs)[0] == '/',
    decreases segs.len(),
{
    if segs.len() == 1 {
        assert(pointer_of(segs.subrange(0, 0)) =~= Seq::<char>::empty());
        assert(pointer_of(segs)[0] == '/');
    } else {
        let front = segs.subrange(0, segs.len() - 1);
        lemma_pointer_of_shape(front);
        assert(pointer_of(segs)[0] == pointer_of(front)[0]);
    }
}

proof fn lemma_split_append_seg(x: Seq<char>, t: Seq<char>)
    requires
        !t.contains('/'),
    ensures
        spec_split(x + seq!['/'] + t) == spec_split(x).push(t),
    decreases t.len(),
{
    if t.len() == 0 {
        let whole = x + seq!['/'] + t;
        assert(whole =~= x.push('/'));
        assert(whole.subrange(0, whole.len() - 1) =~= x);
        assert(spec_split(whole) =~~= spec_split(x).push(t));
    } else {
        let shorter = t.subrange(0, t.len() - 1);
        assert(!shorter.contains('/')) by {
            if shorter.contains('/') {
                let i = choose|i: int| 0 <= i < shorter.len() && shorter[i] == '/';
                assert(t[i] == '/');
            }
        }
        lemma_split_append_seg(x, shorter);
        let whole = x + seq!['/'] + t;
        assert(t[t.len() - 1] != '/');
        assert(whole[whole.len() - 1] == t[t.len() - 1]);
        assert(whole.subrange(0, whole.len() - 1) =~= x + seq!['/'] + shorter);
        let r = spec_split(x + seq!['/'] + shorter);
        assert(r == spec_split(x).push(shorter));
        assert(r.len() >= 1);
        assert(r[r.len() - 1].push(t[t.len() - 1]) =~= t) by {
            assert(shorter.push(t[t.len() - 1]) =~= t);
        }
        assert(spec_split(whole) =~~= spec_split(x).push(t));
    }
}

proof fn lemma_split_pointer(segs: Seq<Seq<char>>)
    requires
        segs.len() >= 1,
        forall|i: int| 0 <= i < segs.len() ==> !(#[trigger] segs[i]).contains('/'),
    ensures
        spec_split(strip_leading_slash(pointer_of(segs))) == segs,
    decreases segs.len(),
{
    if segs.len() == 1 {
        let s = segs[0];
        let whole = pointer_of(segs);
        assert(pointer_of(segs.subrange(0, 0)) =~= Seq::<char>::empty());
        assert(whole =~= seq!['/'] + s);
        assert(strip_leading_slash(whole) =~= s);
        crate::strutil::lemma_split_no_slash(s);
        assert(spec_split(strip_leading_slash(whole)) =~~= segs);
    } else {
        let front = segs.subrange(0, segs.len() - 1);
        let t = segs[segs.len() - 1];
        lemma_split_pointer(front);
        lemma_pointer_of_shape(front);
        let fp = pointer_of(front);
        let whole = pointer_of(segs);
        assert(whole == fp + seq!['/'] + t);
        assert(whole.len() > 0 && whole[0] == '/');
        let sfp = strip_leading_slash(fp);
        assert(strip_leading_slash(whole) =~= sfp + seq!['/'] + t) by {
            assert(fp[0] == '/');
            assert(whole[0] == '/');
            assert(whole.subrange(1, whole.len() as int) =~= fp.subrange(1, fp.len() as int)
                + seq!['/'] + t);
        }
        lemma_split_append_seg(sfp, t);
        assert(spec_split(strip_leading_slash(whole)) =~~= segs) by {
            assert(spec_split(sfp).push(t) =~~= front.push(t));
            assert(front.push(t) =~~= segs);
        }
    }
}

/// Pointer round trip: a path assembled from any walk's segments — one
/// `/` before each key or index, segments themselves `/`-free — resolves
/// to exactly what walking those segments yields; both fail together.
/// The one path written out of this law is the bare `/` that a single
/// empty segment assembles to, which names the root instead.
pub proof fn lemma_pointer_round_trip(v: Json, segs: Seq<Seq<char>>)
    requires
        forall|i: int| 0 <= i < segs.len() ==> !(#[trigger] segs[i]).contains('/'),
        !(segs.len() == 1 && segs[0].len() == 0),
    ensures
        spec_resolve(v, pointer_of(segs)) == resolve_segs(v, segs),
{
    if segs.len() == 0 {
        assert(pointer_of(segs) =~= Seq::<char>::empty());
    } else {
        lemma_pointer_of_shape(segs);
        let whole = pointer_of(segs);
        assert(whole.len() >= 1);
        assert(whole != seq!['/']) by {
            if segs.len() == 1 {
                assert(pointer_of(segs.subrange(0, 0)) =~= Seq::<char>::empty());
                assert(whole =~= seq!['/'] + segs[0]);
                assert(segs[0].len() >= 1);
                assert(whole.len() >= 2);
            } else {
                assert(whole.len() >= 2);
            }
        }
        lemma_split_pointer(segs);
    }
}

/// Resolves `path` against `value`, returning a copy of the node it
/// points at, or `None` where a key is missing, an index is out of
/// range or not numeric, or the walk descends into a scalar.
#[verifier::loop_isolation(false)]
pub fn get_value_at_path(value: &JsonValue, path: &str) -> (r: Option<JsonValue>)
    ensures
        match r {
            Some(j) => spec_resolve(value@, path@) == Some(j@),
            None => spec_resolve(value@, path@) is None,
        },
{
    let n = path.unicode_len();
    if n == 0 {
        return Some(value.deep_copy());
    }
    let first = path.get_char(0);
    if n == 1 && first == '/' {
        proof {
            assert(path@ =~= seq!['/']);
        }
        return Some(value.deep_copy());
    }
    proof {
        assert(path@ != seq!['/']) by {
            if path@ == seq!['/'] {
                assert(path@.len() == 1 && path@[0] == '/');
            }
        }
    }
    let stripped = if first == '/' {
        path.substring_char(1, n)
    } else {
        path
    };
    proof {
        assert(stripped@ == strip_leading_slash(path@));
    }
    let segs = split_slash(stripped);
    let mut cur: &JsonValue = value;
    let mut i: usize = 0;
    proof {
        assert(segs_view(segs@).subrange(0, segs@.len() as int) =~= segs_view(segs@));
    }
    while i < segs.len()
        invariant
            i <= segs@.len(),
            resolve_segs(cur@, segs_view(segs@).subrange(i as int, segs@.len() as int))
                == resolve_segs(value@, segs_view(segs@)),
        decreases segs@.len() - i,
    {
        let seg = &segs[i];
        proof {
            lemma_resolve_segs_step(cur@, segs_view(segs@), i as int);
            assert(segs_view(segs@)[i as int] == seg@);
        }
        match cur {
            JsonValue::Obj(_) => {
                match cur.get(seg.as_str()) {
                    Some(w) => {
                        cur = w;
                    },
                    None => {
                        return None;
                    },
                }
            },
            JsonValue::Arr(items) => {
                proof {
                    crate::json::lemma_arr_view(items@);
                }
                match seg_index(seg.as_str(), items.len()) {
                    Some(k) => {
                        cur = &items[k];
                    },
                    None => {
                        return None;
                    },
                }
            },
            _ => {
                return None;
            },
        }
        i += 1;
    }
    proof {
        assert(segs_view(segs@).subrange(segs@.len() as int, segs@.len() as int)
            =~= Seq::<Seq<char>>::empty());
    }
    Some(cur.deep_copy())
}

} // verus!
