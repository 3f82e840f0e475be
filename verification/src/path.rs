use vstd::prelude::*;

verus! {

/// The segments of a path, split on `'/'`. Every string has at least one
/// segment: `""` has one empty segment, `"/a"` has an empty segment followed
/// by `"a"`, `"a/b"` has two.
pub open spec fn spec_split(s: Seq<char>) -> Seq<Seq<char>>
    decreases s.len(),
{
    if s.len() == 0 {
        seq![Seq::<char>::empty()]
    } else if s[0] == '/' {
        seq![Seq::<char>::empty()] + spec_split(s.drop_first())
    } else {
        let rest = spec_split(s.drop_first());
        seq![seq![s[0]] + rest[0]] + rest.drop_first()
    }
}

/// The views of a vector of owned strings.
pub open spec fn views_of(v: Seq<String>) -> Seq<Seq<char>> {
    v.map_values(|t: String| t@)
}

pub proof fn lemma_split_len(s: Seq<char>)
    ensures
        spec_split(s).len() >= 1,
    decreases s.len(),
{
    if s.len() == 0 {
    } else {
        lemma_split_len(s.drop_first());
    }
}

/// A string without a separator is a single segment.
pub proof fn lemma_split_no_slash(s: Seq<char>)
    requires
        forall|k: int| 0 <= k < s.len() ==> s[k] != '/',
    ensures
        spec_split(s) == seq![s],
    decreases s.len(),
{
    if s.len() == 0 {
        assert(spec_split(s) =~~= seq![s]);
    } else {
        assert(forall|k: int| 0 <= k < s.drop_first().len() ==> s.drop_first()[k] != '/');
        lemma_split_no_slash(s.drop_first());
        lemma_split_len(s.drop_first());
        let rest = spec_split(s.drop_first());
        assert(rest == seq![s.drop_first()]);
        assert(seq![s[0]] + rest[0] =~= s);
        assert(rest.drop_first() =~= Seq::<Seq<char>>::empty());
        assert(spec_split(s) =~~= seq![s]);
    }
}

/// Splitting peels off everything before the first separator as the first
/// segment.
pub proof fn lemma_split_at_slash(s: Seq<char>, k: int)
    requires
        0 <= k < s.len(),
        s[k] == '/',
        forall|j: int| 0 <= j < k ==> s[j] != '/',
    ensures
        spec_split(s) == seq![s.subrange(0, k)] + spec_split(s.subrange(k + 1, s.len() as int)),
    decreases k,
{
    if k == 0 {
        assert(s.subrange(0, 0) =~= Seq::<char>::empty());
        assert(s.subrange(1, s.len() as int) =~= s.drop_first());
        assert(spec_split(s) =~~= seq![s.subrange(0, 0)] + spec_split(
            s.subrange(1, s.len() as int),
        ));
    } else {
        let t = s.drop_first();
        assert(t[k - 1] == '/');
        assert(forall|j: int| 0 <= j < k - 1 ==> t[j] != '/');
        lemma_split_at_slash(t, k - 1);
        lemma_split_len(t);
        let rest = spec_split(t);
        assert(t.subrange(0, k - 1) =~= s.subrange(1, k));
        assert(t.subrange(k, t.len() as int) =~= s.subrange(k + 1, s.len() as int));
        assert(rest[0] == s.subrange(1, k));
        assert(seq![s[0]] + s.subrange(1, k) =~= s.subrange(0, k));
        assert(rest.drop_first() =~= spec_split(s.subrange(k + 1, s.len() as int)));
        assert(spec_split(s) =~~= seq![s.subrange(0, k)] + spec_split(
            s.subrange(k + 1, s.len() as int),
        ));
    }
}

/// Split a path into its `'/'`-separated segments.
pub fn split_path(s: &str) -> (segs: Vec<String>)
    ensures
        views_of(segs@) == spec_split(s@),
        segs@.len() >= 1,
{
    let n = s.unicode_len();
    let mut acc: Vec<String> = Vec::new();
    let mut start: usize = 0;
    let mut i: usize = 0;
    proof {
        assert(s@.subrange(0, n as int) =~= s@);
        assert(views_of(acc@) + spec_split(s@) =~~= spec_split(s@));
    }
    while i < n
        invariant
            n == s@.len(),
            start <= i <= n,
            spec_split(s@) == views_of(acc@) + spec_split(s@.subrange(start as int, n as int)),
            forall|k: int| start <= k < i ==> s@[k] != '/',
        decreases n - i,
    {
        let c = s.get_char(i);
        if c == '/' {
            let ghost t = s@.subrange(start as int, n as int);
            let seg = s.substring_char(start, i).to_owned();
            proof {
                assert(t[i - start] == '/');
                assert(forall|j: int| 0 <= j < i - start ==> t[j] != '/');
                lemma_split_at_slash(t, i - start);
                assert(t.subrange(0, i - start) =~= s@.subrange(start as int, i as int));
                assert(t.subrange(i - start + 1, t.len() as int) =~= s@.subrange(
                    i + 1,
                    n as int,
                ));
            }
            acc.push(seg);
            proof {
                assert(views_of(acc@) =~~= views_of(acc@.drop_last()) + seq![
                    s@.subrange(start as int, i as int),
                ]);
                assert(spec_split(s@) =~~= views_of(acc@) + spec_split(
                    s@.subrange(i + 1, n as int),
                ));
            }
            start = i + 1;
        }
        i += 1;
    }
    let ghost t = s@.subrange(start as int, n as int);
    let last = s.substring_char(start, n).to_owned();
    proof {
        assert(forall|j: int| 0 <= j < t.len() ==> t[j] != '/');
        lemma_split_no_slash(t);
    }
    acc.push(last);
    proof {
        assert(views_of(acc@) =~~= views_of(acc@.drop_last()) + seq![t]);
        assert(spec_split(s@) =~~= views_of(acc@));
    }
    acc
}

} // verus!
