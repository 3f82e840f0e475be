use vstd::prelude::*;

verus! {

/// Parameters bound during a route match: an ordered list of
/// (name, value) pairs with first-match string lookup.
pub struct Params {
    pairs: Vec<(String, String)>,
}

/// The value bound to `name`: the first pair with that key, if any.
pub open spec fn spec_lookup(m: Seq<(Seq<char>, Seq<char>)>, name: Seq<char>) -> Option<
    Seq<char>,
>
    decreases m.len(),
{
    if m.len() == 0 {
        None
    } else if m[0].0 == name {
        Some(m[0].1)
    } else {
        spec_lookup(m.drop_first(), name)
    }
}

impl View for Params {
    type V = Seq<(Seq<char>, Seq<char>)>;

    closed spec fn view(&self) -> Seq<(Seq<char>, Seq<char>)> {
        self.pairs@.map_values(|p: (String, String)| (p.0@, p.1@))
    }
}

impl Params {
    /// An empty parameter map.
    pub fn new() -> (p: Params)
        ensures
            p@ == Seq::<(Seq<char>, Seq<char>)>::empty(),
    {
        let p = Params { pairs: Vec::new() };
        proof {
            assert(p@ =~= Seq::<(Seq<char>, Seq<char>)>::empty());
        }
        p
    }

    /// Append a binding behind the existing ones.
    pub fn push(&mut self, name: String, value: String)
        ensures
            final(self)@ == old(self)@.push((name@, value@)),
    {
        let ghost before = self@;
        let ghost pair = (name@, value@);
        self.pairs.push((name, value));
        proof {
            assert(self@ =~~= before.push(pair));
        }
    }

    /// How many bindings are held.
    pub fn len(&self) -> (n: usize)
        ensures
            n == self@.len(),
    {
        self.pairs.len()
    }

    /// The binding at a position, for walking the map in order.
    pub fn index(&self, i: usize) -> (pair: (&String, &String))
        requires
            i < self@.len(),
        ensures
            (pair.0@, pair.1@) == self@[i as int],
    {
        let p = &self.pairs[i];
        (&p.0, &p.1)
    }

    /// Look `name` up; the first binding with that key wins.
    pub fn get(&self, name: &str) -> (r: Option<&String>)
        ensures
            match r {
                Some(v) => spec_lookup(self@, name@) == Some(v@),
                None => spec_lookup(self@, name@) is None,
            },
    {
        let key = name.to_owned();
        let n = self.pairs.len();
        let mut i: usize = 0;
        proof {
            assert(self@.skip(0) =~= self@);
        }
        while i < n
            invariant
                n == self@.len(),
                i <= n,
                key@ == name@,
                spec_lookup(self@, name@) == spec_lookup(self@.skip(i as int), name@),
            decreases n - i,
        {
            proof {
                assert(self@[i as int] == (self.pairs@[i as int].0@, self.pairs@[i as int].1@));
                assert(self@.skip(i as int)[0] == self@[i as int]);
                assert(self@.skip(i as int).drop_first() =~= self@.skip(i + 1));
            }
            if self.pairs[i].0 == key {
                return Some(&self.pairs[i].1);
            }
            i += 1;
        }
        proof {
            assert(self@.skip(n as int).len() == 0);
        }
        None
    }

    /// A copy holding equal bindings.
    pub fn duplicate(&self) -> (p: Params)
        ensures
            p@ == self@,
    {
        let n = self.pairs.len();
        let mut pairs: Vec<(String, String)> = Vec::new();
        let mut i: usize = 0;
        while i < n
            invariant
                n == self.pairs@.len(),
                i <= n,
                pairs@.len() == i,
                forall|j: int|
                    0 <= j < i ==> (pairs@[j].0@, pairs@[j].1@) == (
                        self.pairs@[j].0@,
                        self.pairs@[j].1@,
                    ),
            decreases n - i,
        {
            let name = self.pairs[i].0.clone();
            let value = self.pairs[i].1.clone();
            pairs.push((name, value));
            i += 1;
        }
        let p = Params { pairs };
        proof {
            assert(p@ =~~= self@);
        }
        p
    }
}

} // verus!
