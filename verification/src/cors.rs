use vstd::prelude::*;

use crate::paths::views_of;
use crate::util::{bytes_eq, copy_range};

verus! {

/// The cross-origin policy built once from the configured origin list.
pub enum CorsPolicy {
    Disabled,
    AllowAny,
    Whitelist(Vec<Vec<u8>>),
}

/// The bytes of a single asterisk.
pub open spec fn spec_star() -> Seq<u8> {
    seq![42u8]
}

/// The comma-separated fields of `s[i..]`, empties kept, with `cur` the
/// partial field read so far.
pub open spec fn spec_fields_from(s: Seq<u8>, i: int, cur: Seq<u8>) -> Seq<Seq<u8>>
    decreases s.len() - i,
{
    if i < 0 || i >= s.len() {
        seq![cur]
    } else if s[i] == 44 {
        seq![cur] + spec_fields_from(s, i + 1, seq![])
    } else {
        spec_fields_from(s, i + 1, cur.push(s[i]))
    }
}

/// The comma-separated fields of `s`.
pub open spec fn spec_fields(s: Seq<u8>) -> Seq<Seq<u8>> {
    spec_fields_from(s, 0, seq![])
}

/// `s` with surrounding ASCII spaces removed.
pub open spec fn spec_trim(s: Seq<u8>) -> Seq<u8>
    decreases s.len(),
{
    if s.len() > 0 && s[0] == 32 {
        spec_trim(s.drop_first())
    } else if s.len() > 0 && s.last() == 32 {
        spec_trim(s.drop_last())
    } else {
        s
    }
}

/// Every field of `s`, trimmed.
pub open spec fn spec_trim_all(fields: Seq<Seq<u8>>) -> Seq<Seq<u8>> {
    fields.map_values(|f: Seq<u8>| spec_trim(f))
}

/// The fields of `items[i..]` not already in `acc`, appended to `acc` in
/// order of first occurrence.
pub open spec fn spec_dedup_from(items: Seq<Seq<u8>>, i: int, acc: Seq<Seq<u8>>) -> Seq<Seq<u8>>
    decreases items.len() - i,
{
    if i < 0 || i >= items.len() {
        acc
    } else if acc.contains(items[i]) {
        spec_dedup_from(items, i + 1, acc)
    } else {
        spec_dedup_from(items, i + 1, acc.push(items[i]))
    }
}

/// The distinct members of a field list, in order of first occurrence.
pub open spec fn spec_dedup(items: Seq<Seq<u8>>) -> Seq<Seq<u8>> {
    spec_dedup_from(items, 0, seq![])
}

/// The whitelist built from a configured origin list: comma-split, trimmed,
/// deduplicated.
pub open spec fn spec_whitelist_of(s: Seq<u8>) -> Seq<Seq<u8>> {
    spec_dedup(spec_trim_all(spec_fields(s)))
}

/// Whether `p` is the policy that the configured origin list calls for:
/// empty means disabled, a single asterisk allows any origin, and anything
/// else is a whitelist.
pub open spec fn spec_policy_matches(s: Seq<u8>, p: CorsPolicy) -> bool {
    if s.len() == 0 {
        p is Disabled
    } else if s == spec_star() {
        p is AllowAny
    } else {
        match p {
            CorsPolicy::Whitelist(w) => views_of(w@) == spec_whitelist_of(s),
            _ => false,
        }
    }
}

/// Trims the spaces around `v[lo..hi]`.
fn trim_range(v: &Vec<u8>, lo: usize, hi: usize) -> (r: Vec<u8>)
    requires
        lo <= hi <= v@.len(),
    ensures
        r@ == spec_trim(v@.subrange(lo as int, hi as int)),
    decreases hi - lo,
{
    if lo < hi && v[lo] == 32 {
        proof {
            assert(v@.subrange(lo as int, hi as int).drop_first() =~= v@.subrange(
                lo + 1,
                hi as int,
            ));
        }
        trim_range(v, lo + 1, hi)
    } else if lo < hi && v[hi - 1] == 32 {
        proof {
            assert(v@.subrange(lo as int, hi as int).drop_last() =~= v@.subrange(
                lo as int,
                hi - 1,
            ));
        }
        trim_range(v, lo, hi - 1)
    } else {
        copy_range(v, lo, hi)
    }
}

/// Whether some member of `list` holds the same bytes as `x`.
pub fn contains_bytes(list: &Vec<Vec<u8>>, x: &Vec<u8>) -> (r: bool)
    ensures
        r <==> views_of(list@).contains(x@),
{
    let mut i: usize = 0;
    while i < list.len()
        invariant
            i <= list.len(),
            forall|j: int| 0 <= j < i ==> views_of(list@)[j] != x@,
        decreases list.len() - i,
    {
        if bytes_eq(&list[i], x) {
            proof {
                assert(views_of(list@)[i as int] == x@);
            }
            return true;
        }
        i += 1;
    }
    false
}

/// Splits the configured origin list into trimmed comma-separated fields.
fn split_trimmed(s: &Vec<u8>) -> (r: Vec<Vec<u8>>)
    ensures
        views_of(r@) == spec_trim_all(spec_fields(s@)),
{
    let mut done: Vec<Vec<u8>> = Vec::new();
    let mut start: usize = 0;
    let mut i: usize = 0;
    proof {
        assert(views_of(done@) =~= Seq::<Seq<u8>>::empty());
        assert(s@.subrange(0, 0) =~= Seq::<u8>::empty());
        assert(views_of(done@) + spec_trim_all(spec_fields_from(s@, 0, s@.subrange(0, 0)))
            =~= spec_trim_all(spec_fields(s@)));
    }
    while i < s.len()
        invariant
            start <= i <= s.len(),
            spec_trim_all(spec_fields(s@)) == views_of(done@) + spec_trim_all(
                spec_fields_from(s@, i as int, s@.subrange(start as int, i as int)),
            ),
        decreases s.len() - i,
    {
        if s[i] == 44 {
            let ghost prev = done@;
            let field = trim_range(s, start, i);
            done.push(field);
            proof {
                let cur = s@.subrange(start as int, i as int);
                assert(spec_fields_from(s@, i as int, cur) == seq![cur] + spec_fields_from(
                    s@,
                    i + 1,
                    seq![],
                ));
                assert(spec_trim_all(seq![cur] + spec_fields_from(s@, i + 1, seq![])) =~= seq![
                    spec_trim(cur),
                ] + spec_trim_all(spec_fields_from(s@, i + 1, seq![])));
                assert(views_of(prev.push(field)) =~= views_of(prev).push(field@));
                assert(s@.subrange(i + 1, i + 1) =~= Seq::<u8>::empty());
            }
            start = i + 1;
        } else {
            proof {
                let cur = s@.subrange(start as int, i as int);
                assert(cur.push(s@[i as int]) =~= s@.subrange(start as int, i + 1));
            }
        }
        i += 1;
    }
    let ghost prev = done@;
    let field = trim_range(s, start, s.len());
    done.push(field);
    proof {
        let cur = s@.subrange(start as int, s@.len() as int);
        assert(spec_fields_from(s@, s@.len() as int, cur) == seq![cur]);
        assert(spec_trim_all(seq![cur]) =~= seq![spec_trim(cur)]);
        assert(views_of(prev.push(field)) =~= views_of(prev).push(field@));
        assert(views_of(done@) =~= views_of(prev) + seq![field@]);
    }
    done
}

/// Drops repeated members of a field list, keeping first occurrences.
fn dedup_fields(items: Vec<Vec<u8>>) -> (r: Vec<Vec<u8>>)
    ensures
        views_of(r@) == spec_dedup(views_of(items@)),
{
    let mut acc: Vec<Vec<u8>> = Vec::new();
    let mut i: usize = 0;
    proof {
        assert(views_of(acc@) =~= Seq::<Seq<u8>>::empty());
    }
    while i < items.len()
        invariant
            i <= items.len(),
            spec_dedup(views_of(items@)) == spec_dedup_from(
                views_of(items@),
                i as int,
                views_of(acc@),
            ),
        decreases items.len() - i,
    {
        proof {
            assert(views_of(items@)[i as int] == items@[i as int]@);
        }
        if contains_bytes(&acc, &items[i]) {
        } else {
            let ghost prev = acc@;
            let item = crate::paths::clone_bytes(&items[i]);
            acc.push(item);
            proof {
                assert(views_of(prev.push(item)) =~= views_of(prev).push(item@));
            }
        }
        i += 1;
    }
    acc
}

/// Builds the cross-origin policy that a configured origin list calls for.
pub fn cors_policy_from(s: &Vec<u8>) -> (r: CorsPolicy)
    ensures
        spec_policy_matches(s@, r),
{
    if s.len() == 0 {
        return CorsPolicy::Disabled;
    }
    if s.len() == 1 && s[0] == 42 {
        proof {
            assert(s@ =~= spec_star());
        }
        return CorsPolicy::AllowAny;
    }
    proof {
        if s@ == spec_star() {
            assert(s@.len() == 1 && s@[0] == 42);
        }
    }
    let fields = split_trimmed(s);
    let w = dedup_fields(fields);
    CorsPolicy::Whitelist(w)
}

/// The view of an optional byte vector.
pub open spec fn opt_view(o: Option<Vec<u8>>) -> Option<Seq<u8>> {
    match o {
        Some(v) => Some(v@),
        None => None,
    }
}

/// The `Access-Control-Allow-Origin` value owed to a request: the asterisk
/// under the allow-any policy, the request's own origin when the whitelist
/// holds it, and nothing otherwise.
pub open spec fn spec_cors_header(p: CorsPolicy, origin: Option<Seq<u8>>) -> Option<Seq<u8>> {
    match p {
        CorsPolicy::Disabled => None,
        CorsPolicy::AllowAny => Some(spec_star()),
        CorsPolicy::Whitelist(w) => match origin {
            Some(o) => if views_of(w@).contains(o) {
                Some(o)
            } else {
                None
            },
            None => None,
        },
    }
}

/// Computes the `Access-Control-Allow-Origin` value owed to a request.
pub fn cors_header_for(p: &CorsPolicy, origin: &Option<Vec<u8>>) -> (r: Option<Vec<u8>>)
    ensures
        opt_view(r) == spec_cors_header(*p, opt_view(*origin)),
{
    match p {
        CorsPolicy::Disabled => None,
        CorsPolicy::AllowAny => {
            let mut v: Vec<u8> = Vec::with_capacity(1);
            v.push(42);
            proof {
                assert(v@ =~= spec_star());
            }
            Some(v)
        },
        CorsPolicy::Whitelist(w) => match origin {
            Some(o) => {
                if contains_bytes(w, o) {
                    Some(crate::paths::clone_bytes(o))
                } else {
                    None
                }
            },
            None => None,
        },
    }
}

} // verus!
