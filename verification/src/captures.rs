use vstd::prelude::*;
use vstd::string::*;

verus! {

/// The named path parameters extracted by one successful match: a mapping
/// from capture name to the matched segment's raw text, in pattern order.
/// A fresh value is produced per match and discarded after the handler runs.
pub struct Captures {
    pairs: Vec<(String, String)>,
}

impl View for Captures {
    type V = Seq<(Seq<char>, Seq<char>)>;

    closed spec fn view(&self) -> Seq<(Seq<char>, Seq<char>)> {
        self.pairs.deep_view()
    }
}

/// The value bound to `name`: the first pair whose key equals it, if any.
pub open spec fn spec_lookup(cs: Seq<(Seq<char>, Seq<char>)>, name: Seq<char>) -> Option<
    Seq<char>,
>
    decreases cs.len(),
{
    if cs.len() == 0 {
        None
    } else if cs[0].0 == name {
        Some(cs[0].1)
    } else {
        spec_lookup(cs.drop_first(), name)
    }
}

/// No two pairs bind the same name.
pub open spec fn unique_keys(cs: Seq<(Seq<char>, Seq<char>)>) -> bool {
    forall|i: int, j: int| 0 <= i < j < cs.len() ==> cs[i].0 != cs[j].0
}

impl Captures {
    /// A captures map with no bindings.
    pub fn empty() -> (c: Captures)
        ensures
            c@ == Seq::<(Seq<char>, Seq<char>)>::empty(),
    {
        let c = Captures { pairs: Vec::new() };
        proof {
            assert(c@ =~= Seq::<(Seq<char>, Seq<char>)>::empty());
        }
        c
    }

    /// Appends a binding; the matcher calls this as it walks the segments.
    pub(crate) fn push_pair(&mut self, name: String, value: String)
        ensures
            final(self)@ == old(self)@.push((name@, value@)),
    {
        let ghost n = name@;
        let ghost v = value@;
        let ghost before = self@;
        self.pairs.push((name, value));
        proof {
            assert(self@ =~= before.push((n, v)));
        }
    }

    /// How many captures were extracted.
    pub fn len(&self) -> (n: usize)
        ensures
            n == self@.len(),
    {
        self.pairs.len()
    }

    /// Whether no captures were extracted.
    pub fn is_empty(&self) -> (b: bool)
        ensures
            b == (self@.len() == 0),
    {
        self.pairs.len() == 0
    }

    /// Looks a capture up by name.
    pub fn get(&self, name: &str) -> (r: Option<&String>)
        ensures
            match r {
                Some(v) => spec_lookup(self@, name@) == Some(v@),
                None => spec_lookup(self@, name@) is None,
            },
    {
        let key = String::from_str(name);
        proof {
            assert(self@.skip(0) =~= self@);
        }
        let mut i: usize = 0;
        while i < self.pairs.len()
            invariant
                i <= self.pairs.len(),
                key@ == name@,
                spec_lookup(self@, name@) == spec_lookup(self@.skip(i as int), name@),
            decreases self.pairs.len() - i,
        {
            let p = &self.pairs[i];
            proof {
                assert(self@.skip(i as int)[0] == self@[i as int]);
                assert(self@[i as int] == (p.0@, p.1@));
            }
            if p.0 == key {
                return Some(&p.1);
            }
            proof {
                assert(self@.skip(i as int).drop_first() =~= self@.skip(i as int + 1));
            }
            i += 1;
        }
        proof {
            assert(self@.skip(i as int).len() == 0);
        }
        None
    }
}

} // verus!
