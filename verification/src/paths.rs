use vstd::prelude::*;

use crate::ascii::{spec_verbatim_prefix, verbatim_prefix};
use crate::util::{spec_starts_with, starts_with};

verus! {

/// The view of each vector in a sequence of byte vectors.
pub open spec fn views_of(s: Seq<Vec<u8>>) -> Seq<Seq<u8>> {
    s.map_values(|v: Vec<u8>| v@)
}

/// The byte of an ASCII slash.
pub open spec fn spec_slash() -> u8 {
    47
}

/// The byte of an ASCII dot.
pub open spec fn spec_dot_byte() -> u8 {
    46
}

/// A single-dot path segment.
pub open spec fn spec_dot() -> Seq<u8> {
    seq![46u8]
}

/// A double-dot path segment.
pub open spec fn spec_dotdot() -> Seq<u8> {
    seq![46u8, 46]
}

/// The segment list contributed by an accumulated partial segment:
/// empty partial segments contribute nothing.
pub open spec fn spec_seg_one(cur: Seq<u8>) -> Seq<Seq<u8>> {
    if cur.len() == 0 {
        seq![]
    } else {
        seq![cur]
    }
}

/// The slash-separated segments of `p[i..]`, with `cur` the partial segment
/// read so far.  Empty segments (repeated, leading or trailing slashes) are
/// dropped.
pub open spec fn spec_segments_from(p: Seq<u8>, i: int, cur: Seq<u8>) -> Seq<Seq<u8>>
    decreases p.len() - i,
{
    if i < 0 || i >= p.len() {
        spec_seg_one(cur)
    } else if p[i] == spec_slash() {
        spec_seg_one(cur) + spec_segments_from(p, i + 1, seq![])
    } else {
        spec_segments_from(p, i + 1, cur.push(p[i]))
    }
}

/// The non-empty slash-separated segments of a path.
pub open spec fn spec_split(p: Seq<u8>) -> Seq<Seq<u8>> {
    spec_segments_from(p, 0, seq![])
}

/// Splits a path into its non-empty slash-separated segments.
pub fn split_segments(p: &Vec<u8>) -> (r: Vec<Vec<u8>>)
    ensures
        views_of(r@) == spec_split(p@),
{
    let mut done: Vec<Vec<u8>> = Vec::new();
    let mut cur: Vec<u8> = Vec::new();
    let mut i: usize = 0;
    proof {
        assert(views_of(done@) =~= Seq::<Seq<u8>>::empty());
    }
    while i < p.len()
        invariant
            i <= p.len(),
            spec_split(p@) == views_of(done@) + spec_segments_from(p@, i as int, cur@),
        decreases p.len() - i,
    {
        if p[i] == 47 {
            if cur.len() > 0 {
                let ghost prev = done@;
                let ghost curv = cur@;
                done.push(cur);
                proof {
                    assert(views_of(prev.push(cur)) =~= views_of(prev).push(curv));
                    assert(views_of(done@) + spec_segments_from(p@, i + 1, seq![])
                        =~= views_of(prev) + (spec_seg_one(curv) + spec_segments_from(
                        p@,
                        i + 1,
                        seq![],
                    )));
                }
                cur = Vec::new();
            } else {
                proof {
                    assert(cur@ =~= Seq::<u8>::empty());
                    assert(views_of(done@) + spec_segments_from(p@, i + 1, seq![]) =~= views_of(
                        done@,
                    ) + (spec_seg_one(cur@) + spec_segments_from(p@, i + 1, seq![])));
                }
            }
        } else {
            cur.push(p[i]);
        }
        i += 1;
    }
    if cur.len() > 0 {
        let ghost prev = done@;
        let ghost curv = cur@;
        done.push(cur);
        proof {
            assert(views_of(prev.push(cur)) =~= views_of(prev).push(curv));
            assert(views_of(done@) =~= views_of(prev) + spec_seg_one(curv));
        }
    } else {
        proof {
            assert(views_of(done@) =~= views_of(done@) + spec_seg_one(cur@));
        }
    }
    done
}

/// Traversal-resolves a segment list from position `i` onto the stack `acc`:
/// single dots are dropped, double dots pop the stack, and popping an empty
/// stack means the path escapes the root.
pub open spec fn spec_norm_from(segs: Seq<Seq<u8>>, i: int, acc: Seq<Seq<u8>>) -> Option<
    Seq<Seq<u8>>,
>
    decreases segs.len() - i,
{
    if i < 0 || i >= segs.len() {
        Some(acc)
    } else if segs[i] == spec_dot() {
        spec_norm_from(segs, i + 1, acc)
    } else if segs[i] == spec_dotdot() {
        if acc.len() == 0 {
            None
        } else {
            spec_norm_from(segs, i + 1, acc.drop_last())
        }
    } else {
        spec_norm_from(segs, i + 1, acc.push(segs[i]))
    }
}

/// The traversal-resolved form of a segment list, or `None` when the list
/// escapes above its starting point.
pub open spec fn spec_normalize(segs: Seq<Seq<u8>>) -> Option<Seq<Seq<u8>>> {
    spec_norm_from(segs, 0, seq![])
}

/// Whether a segment is a single dot.
fn is_dot(seg: &Vec<u8>) -> (r: bool)
    ensures
        r <==> seg@ == spec_dot(),
{
    let r = seg.len() == 1 && seg[0] == 46;
    proof {
        if r {
            assert(seg@ =~= spec_dot());
        }
        if seg@ == spec_dot() {
            assert(seg@.len() == 1 && seg@[0] == 46);
        }
    }
    r
}

/// Whether a segment is a double dot.
fn is_dotdot(seg: &Vec<u8>) -> (r: bool)
    ensures
        r <==> seg@ == spec_dotdot(),
{
    let r = seg.len() == 2 && seg[0] == 46 && seg[1] == 46;
    proof {
        if r {
            assert(seg@ =~= spec_dotdot());
        }
        if seg@ == spec_dotdot() {
            assert(seg@.len() == 2 && seg@[0] == 46 && seg@[1] == 46);
        }
    }
    r
}

/// Traversal-resolves a segment list; `None` means the path escapes the root.
pub fn normalize_segments(segs: Vec<Vec<u8>>) -> (r: Option<Vec<Vec<u8>>>)
    ensures
        match r {
            Some(acc) => spec_normalize(views_of(segs@)) == Some(views_of(acc@)),
            None => spec_normalize(views_of(segs@)) is None,
        },
{
    let mut acc: Vec<Vec<u8>> = Vec::new();
    let mut i: usize = 0;
    proof {
        assert(views_of(acc@) =~= Seq::<Seq<u8>>::empty());
    }
    while i < segs.len()
        invariant
            i <= segs.len(),
            spec_normalize(views_of(segs@)) == spec_norm_from(
                views_of(segs@),
                i as int,
                views_of(acc@),
            ),
        decreases segs.len() - i,
    {
        proof {
            assert(views_of(segs@)[i as int] == segs@[i as int]@);
        }
        if is_dot(&segs[i]) {
        } else if is_dotdot(&segs[i]) {
            if acc.len() == 0 {
                proof {
                    assert(views_of(acc@).len() == 0);
                }
                return None;
            }
            let ghost prev = acc@;
            acc.pop();
            proof {
                assert(acc@ =~= prev.drop_last());
                assert(views_of(prev.drop_last()) =~= views_of(prev).drop_last());
            }
        } else {
            let ghost prev = acc@;
            let seg = clone_bytes(&segs[i]);
            acc.push(seg);
            proof {
                assert(views_of(prev.push(seg)) =~= views_of(prev).push(seg@));
            }
        }
        i += 1;
    }
    Some(acc)
}

/// Copies a byte vector.
pub fn clone_bytes(v: &Vec<u8>) -> (r: Vec<u8>)
    ensures
        r@ == v@,
{
    let mut out: Vec<u8> = Vec::with_capacity(v.len());
    let mut i: usize = 0;
    while i < v.len()
        invariant
            i <= v.len(),
            out@ == v@.subrange(0, i as int),
        decreases v.len() - i,
    {
        out.push(v[i]);
        i += 1;
        proof {
            assert(out@ =~= v@.subrange(0, i as int));
        }
    }
    proof {
        assert(v@.subrange(0, v@.len() as int) =~= v@);
    }
    out
}

/// The path formed by prefixing each segment with a slash, in order.
pub open spec fn spec_join_from(segs: Seq<Seq<u8>>, i: int) -> Seq<u8>
    decreases segs.len() - i,
{
    if i < 0 || i >= segs.len() {
        seq![]
    } else {
        seq![spec_slash()] + segs[i] + spec_join_from(segs, i + 1)
    }
}

/// The resolved target for a request path under a canonical root: the
/// traversal-resolved segments appended to the root, each behind a slash,
/// or `None` when the request escapes the root.
pub open spec fn spec_resolve(root: Seq<u8>, req_path: Seq<u8>) -> Option<Seq<u8>> {
    match spec_normalize(spec_split(req_path)) {
        Some(segs) => Some(root + spec_join_from(segs, 0)),
        None => None,
    }
}

/// Appends each segment behind a slash to a copy of the root.
pub fn join_under_root(root: &Vec<u8>, segs: &Vec<Vec<u8>>) -> (r: Vec<u8>)
    ensures
        r@ == root@ + spec_join_from(views_of(segs@), 0),
{
    let mut out = clone_bytes(root);
    let ghost normv = views_of(segs@);
    let mut i: usize = 0;
    while i < segs.len()
        invariant
            i <= segs.len(),
            normv == views_of(segs@),
            out@ + spec_join_from(normv, i as int) == root@ + spec_join_from(normv, 0),
        decreases segs.len() - i,
    {
        let ghost before = out@;
        out.push(47);
        crate::util::push_all(&segs[i], &mut out);
        proof {
            assert(normv[i as int] == segs@[i as int]@);
            assert(out@ =~= before + (seq![spec_slash()] + normv[i as int]));
            assert(before + (seq![spec_slash()] + normv[i as int]) + spec_join_from(normv, i + 1)
                =~= before + spec_join_from(normv, i as int));
        }
        i += 1;
    }
    proof {
        assert(out@ =~= out@ + spec_join_from(normv, segs@.len() as int));
    }
    out
}

/// Resolves a request path against a canonical root, refusing traversal
/// above the root.
pub fn resolve_under_root(root: &Vec<u8>, req_path: &Vec<u8>) -> (r: Option<Vec<u8>>)
    ensures
        match r {
            Some(t) => spec_resolve(root@, req_path@) == Some(t@),
            None => spec_resolve(root@, req_path@) is None,
        },
{
    let segs = split_segments(req_path);
    match normalize_segments(segs) {
        None => None,
        Some(norm) => Some(join_under_root(root, &norm)),
    }
}

/// The final slash-separated segment of a path, when one exists.
pub open spec fn spec_basename(p: Seq<u8>) -> Option<Seq<u8>> {
    if spec_split(p).len() == 0 {
        None
    } else {
        Some(spec_split(p).last())
    }
}

/// The final slash-separated segment of a path, when one exists.
pub fn basename(p: &Vec<u8>) -> (r: Option<Vec<u8>>)
    ensures
        match r {
            Some(b) => spec_basename(p@) == Some(b@),
            None => spec_basename(p@) is None,
        },
{
    let mut segs = split_segments(p);
    let n = segs.len();
    if n == 0 {
        proof {
            assert(views_of(segs@).len() == 0);
        }
        None
    } else {
        let ghost prev = segs@;
        let last = segs.remove(n - 1);
        proof {
            assert(views_of(prev).last() == prev.last()@);
        }
        Some(last)
    }
}

/// A canonical path with any Windows verbatim prefix removed.
pub open spec fn spec_adjusted(p: Seq<u8>) -> Seq<u8> {
    if spec_starts_with(p, spec_verbatim_prefix()) {
        p.subrange(spec_verbatim_prefix().len() as int, p.len() as int)
    } else {
        p
    }
}

/// Removes a Windows verbatim prefix from a canonical path, if present.
pub fn adjust_canonicalization(p: Vec<u8>) -> (r: Vec<u8>)
    ensures
        r@ == spec_adjusted(p@),
{
    let vp = verbatim_prefix();
    if starts_with(&p, &vp) {
        let mut out: Vec<u8> = Vec::new();
        let mut i: usize = 4;
        while i < p.len()
            invariant
                4 <= i <= p.len(),
                out@ == p@.subrange(4, i as int),
            decreases p.len() - i,
        {
            out.push(p[i]);
            i += 1;
            proof {
                assert(out@ =~= p@.subrange(4, i as int));
            }
        }
        proof {
            assert(spec_verbatim_prefix().len() == 4);
        }
        out
    } else {
        p
    }
}

/// The extension of the final segment of `p`, scanning left from position
/// `i`: the bytes after the rightmost dot of the final segment, or empty
/// when the final segment has no dot.
pub open spec fn spec_ext_from(p: Seq<u8>, i: int) -> Seq<u8>
    decreases i,
{
    if i <= 0 || i > p.len() {
        seq![]
    } else if p[i - 1] == spec_dot_byte() {
        p.subrange(i, p.len() as int)
    } else if p[i - 1] == spec_slash() {
        seq![]
    } else {
        spec_ext_from(p, i - 1)
    }
}

/// The extension of the final segment of a path, empty when there is none.
pub open spec fn spec_ext(p: Seq<u8>) -> Seq<u8> {
    spec_ext_from(p, p.len() as int)
}

/// The extension of the final segment of a path, empty when there is none.
pub fn extension_of(p: &Vec<u8>) -> (r: Vec<u8>)
    ensures
        r@ == spec_ext(p@),
{
    let mut j: usize = p.len();
    while j > 0
        invariant
            j <= p.len(),
            spec_ext(p@) == spec_ext_from(p@, j as int),
        decreases j,
    {
        if p[j - 1] == 46 {
            let mut out: Vec<u8> = Vec::new();
            let mut i: usize = j;
            while i < p.len()
                invariant
                    j <= i <= p.len(),
                    out@ == p@.subrange(j as int, i as int),
                decreases p.len() - i,
            {
                out.push(p[i]);
                i += 1;
                proof {
                    assert(out@ =~= p@.subrange(j as int, i as int));
                }
            }
            return out;
        }
        if p[j - 1] == 47 {
            return Vec::new();
        }
        j -= 1;
    }
    Vec::new()
}

} // verus!
