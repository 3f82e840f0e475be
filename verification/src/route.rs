use vstd::prelude::*;

use crate::params::Params;
use crate::path::{spec_split, split_path, views_of};

verus! {

/// A pattern segment of the shape `{name}` binds one path component to the
/// parameter `name`; any other segment is static and must match literally.
pub open spec fn seg_is_param(seg: Seq<char>) -> bool {
    seg.len() >= 2 && seg[0] == '{' && seg[seg.len() - 1] == '}'
}

/// The parameter name inside a `{name}` segment.
pub open spec fn seg_param_name(seg: Seq<char>) -> Seq<char> {
    seg.subrange(1, seg.len() - 1)
}

/// Segment lists match positionally: equal length, and at every position
/// the pattern segment is either a parameter or equal to the path segment.
pub open spec fn segs_match(pat: Seq<Seq<char>>, path: Seq<Seq<char>>) -> bool {
    &&& pat.len() == path.len()
    &&& forall|i: int| 0 <= i < pat.len() ==> seg_is_param(pat[i]) || pat[i] == path[i]
}

/// Whether the registered pattern accepts the concrete path.
pub open spec fn spec_pattern_matches(pat: Seq<char>, path: Seq<char>) -> bool {
    segs_match(spec_split(pat), spec_split(path))
}

/// The bindings a successful match produces, one per parameter segment, in
/// segment order.
pub open spec fn spec_bindings(pat: Seq<Seq<char>>, path: Seq<Seq<char>>) -> Seq<
    (Seq<char>, Seq<char>),
>
    decreases pat.len(),
{
    if pat.len() == 0 || path.len() == 0 {
        Seq::empty()
    } else {
        let init = spec_bindings(pat.drop_last(), path.drop_last());
        if seg_is_param(pat.last()) {
            init.push((seg_param_name(pat.last()), path.last()))
        } else {
            init
        }
    }
}

/// The bindings of a pattern against a path, both given as strings.
pub open spec fn spec_path_bindings(pat: Seq<char>, path: Seq<char>) -> Seq<
    (Seq<char>, Seq<char>),
> {
    spec_bindings(spec_split(pat), spec_split(path))
}

/// A pattern, read as a concrete path, always matches itself: every static
/// segment equals itself and every parameter segment accepts anything.
pub proof fn lemma_pattern_matches_itself(pat: Seq<char>)
    ensures
        spec_pattern_matches(pat, pat),
{
}

fn is_param_seg(seg: &String) -> (r: bool)
    ensures
        r == seg_is_param(seg@),
{
    let n = seg.as_str().unicode_len();
    if n < 2 {
        return false;
    }
    seg.as_str().get_char(0) == '{' && seg.as_str().get_char(n - 1) == '}'
}

fn param_name_of(seg: &String) -> (r: String)
    requires
        seg_is_param(seg@),
    ensures
        r@ == seg_param_name(seg@),
{
    let n = seg.as_str().unicode_len();
    seg.as_str().substring_char(1, n - 1).to_owned()
}

/// Match a registered pattern against a concrete path. Returns the bound
/// parameters exactly when the pattern accepts the path.
pub fn match_pattern(pattern: &str, path: &str) -> (r: Option<Params>)
    ensures
        r is Some <==> spec_pattern_matches(pattern@, path@),
        match r {
            Some(params) => params@ == spec_path_bindings(pattern@, path@),
            None => true,
        },
{
    let pat = split_path(pattern);
    let segs = split_path(path);
    let ghost pv = views_of(pat@);
    let ghost sv = views_of(segs@);
    if pat.len() != segs.len() {
        return None;
    }
    let n = pat.len();
    let mut params = Params::new();
    let mut i: usize = 0;
    proof {
        assert(pv.take(0) =~= Seq::<Seq<char>>::empty());
        assert(sv.take(0) =~= Seq::<Seq<char>>::empty());
    }
    while i < n
        invariant
            pv == views_of(pat@),
            sv == views_of(segs@),
            pv == spec_split(pattern@),
            sv == spec_split(path@),
            n == pv.len() == sv.len(),
            i <= n,
            forall|j: int| 0 <= j < i ==> seg_is_param(pv[j]) || pv[j] == sv[j],
            params@ == spec_bindings(pv.take(i as int), sv.take(i as int)),
        decreases n - i,
    {
        let ghost before = params@;
        if is_param_seg(&pat[i]) {
            let name = param_name_of(&pat[i]);
            let value = segs[i].clone();
            params.push(name, value);
        } else if !(pat[i] == segs[i]) {
            proof {
                assert(!(seg_is_param(pv[i as int]) || pv[i as int] == sv[i as int]));
                assert(!segs_match(pv, sv));
            }
            return None;
        }
        proof {
            assert(pv.take(i + 1).drop_last() =~= pv.take(i as int));
            assert(sv.take(i + 1).drop_last() =~= sv.take(i as int));
            assert(pv.take(i + 1).last() == pv[i as int]);
            assert(sv.take(i + 1).last() == sv[i as int]);
            if seg_is_param(pv[i as int]) {
                assert(params@ =~~= before.push((seg_param_name(pv[i as int]), sv[i as int])));
            }
            assert(params@ == spec_bindings(pv.take(i + 1), sv.take(i + 1)));
        }
        i += 1;
    }
    proof {
        assert(pv.take(n as int) =~= pv);
        assert(sv.take(n as int) =~= sv);
        assert(segs_match(pv, sv));
    }
    Some(params)
}

} // verus!
