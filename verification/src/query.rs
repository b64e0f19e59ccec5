//! The query parameters of a captured request: a mapping from name to value in
//! which every name occurs once and the last value given for a name stands.

use vstd::prelude::*;

verus! {

/// The mapping that a list of `(name, value)` pairs denotes when it is read
/// front to back and a later pair replaces an earlier one of the same name.
pub open spec fn pairs_map(pairs: Seq<(Seq<char>, Seq<char>)>) -> Map<Seq<char>, Seq<char>>
    decreases pairs.len(),
{
    if pairs.len() == 0 {
        Map::empty()
    } else {
        pairs_map(pairs.drop_last()).insert(pairs.last().0, pairs.last().1)
    }
}

/// No name occurs twice in `pairs`.
pub open spec fn distinct_names(pairs: Seq<(Seq<char>, Seq<char>)>) -> bool {
    forall|i: int, j: int| 0 <= i < j < pairs.len() ==> pairs[i].0 != pairs[j].0
}

/// A name is mapped exactly if some pair carries it.
pub proof fn lemma_pairs_map_dom(pairs: Seq<(Seq<char>, Seq<char>)>, name: Seq<char>)
    ensures
        pairs_map(pairs).contains_key(name) <==> exists|i: int|
            0 <= i < pairs.len() && (#[trigger] pairs[i]).0 == name,
    decreases pairs.len(),
{
    if pairs.len() > 0 {
        let front = pairs.drop_last();
        lemma_pairs_map_dom(front, name);
        if pairs_map(pairs).contains_key(name) {
            if pairs.last().0 == name {
                assert(pairs[pairs.len() - 1].0 == name);
            } else {
                let i = choose|i: int| 0 <= i < front.len() && (#[trigger] front[i]).0 == name;
                assert(pairs[i].0 == name);
            }
        }
        if exists|i: int| 0 <= i < pairs.len() && (#[trigger] pairs[i]).0 == name {
            let i = choose|i: int| 0 <= i < pairs.len() && (#[trigger] pairs[i]).0 == name;
            if i < pairs.len() - 1 {
                assert(front[i].0 == name);
            }
        }
    }
}

/// Where no name occurs twice, each pair's value is the one its name maps to.
pub proof fn lemma_pairs_map_value(pairs: Seq<(Seq<char>, Seq<char>)>, at: int)
    requires
        distinct_names(pairs),
        0 <= at < pairs.len(),
    ensures
        pairs_map(pairs).contains_key(pairs[at].0),
        pairs_map(pairs)[pairs[at].0] == pairs[at].1,
    decreases pairs.len(),
{
    let front = pairs.drop_last();
    if at < pairs.len() - 1 {
        assert(distinct_names(front)) by {
            assert forall|i: int, j: int| 0 <= i < j < front.len() implies front[i].0
                != front[j].0 by {
                assert(pairs[i].0 != pairs[j].0);
            }
        }
        lemma_pairs_map_value(front, at);
        assert(front[at] == pairs[at]);
        assert(pairs[at].0 != pairs[pairs.len() - 1].0);
    }
}

/// Where no name occurs twice, the mapping has as many entries as the list.
pub proof fn lemma_pairs_map_len(pairs: Seq<(Seq<char>, Seq<char>)>)
    requires
        distinct_names(pairs),
    ensures
        pairs_map(pairs).dom().finite(),
        pairs_map(pairs).len() == pairs.len(),
    decreases pairs.len(),
{
    if pairs.len() > 0 {
        let front = pairs.drop_last();
        assert(distinct_names(front)) by {
            assert forall|i: int, j: int| 0 <= i < j < front.len() implies front[i].0
                != front[j].0 by {
                assert(pairs[i].0 != pairs[j].0);
            }
        }
        lemma_pairs_map_len(front);
        lemma_pairs_map_dom(front, pairs.last().0);
        if pairs_map(front).contains_key(pairs.last().0) {
            let i = choose|i: int| 0 <= i < front.len() && (#[trigger] front[i]).0 == pairs.last().0;
            assert(pairs[i].0 != pairs[pairs.len() - 1].0);
        }
    }
}

/// Replacing the value of the pair at `at` maps its name to the new value and
/// leaves every other name as it was.
pub proof fn lemma_pairs_map_update(
    pairs: Seq<(Seq<char>, Seq<char>)>,
    at: int,
    value: Seq<char>,
)
    requires
        distinct_names(pairs),
        0 <= at < pairs.len(),
    ensures
        distinct_names(pairs.update(at, (pairs[at].0, value))),
        pairs_map(pairs.update(at, (pairs[at].0, value))) == pairs_map(pairs).insert(
            pairs[at].0,
            value,
        ),
    decreases pairs.len(),
{
    let name = pairs[at].0;
    let changed = pairs.update(at, (name, value));
    let front = pairs.drop_last();
    assert(distinct_names(changed)) by {
        assert forall|i: int, j: int| 0 <= i < j < changed.len() implies changed[i].0
            != changed[j].0 by {
            assert(pairs[i].0 != pairs[j].0);
        }
    }
    if at == pairs.len() - 1 {
        assert(changed.drop_last() =~= front);
        assert(pairs_map(changed) =~= pairs_map(pairs).insert(name, value));
    } else {
        assert(distinct_names(front)) by {
            assert forall|i: int, j: int| 0 <= i < j < front.len() implies front[i].0
                != front[j].0 by {
                assert(pairs[i].0 != pairs[j].0);
            }
        }
        lemma_pairs_map_update(front, at, value);
        assert(changed.drop_last() =~= front.update(at, (name, value)));
        assert(changed.last() == pairs.last());
        assert(pairs[at].0 != pairs[pairs.len() - 1].0);
        assert(pairs_map(changed) =~= pairs_map(pairs).insert(name, value));
    }
}

/// Query parameters by name. Every name occurs once.
#[derive(Debug)]
pub struct Query {
    params: Vec<(String, String)>,
}

impl View for Query {
    type V = Map<Seq<char>, Seq<char>>;

    closed spec fn view(&self) -> Map<Seq<char>, Seq<char>> {
        pairs_map(self.params.deep_view())
    }
}

impl Query {
    #[verifier::type_invariant]
    spec fn names_occur_once(&self) -> bool {
        distinct_names(self.params.deep_view())
    }

    /// No parameters.
    pub fn new() -> (q: Query)
        ensures
            q@ == Map::<Seq<char>, Seq<char>>::empty(),
    {
        let q = Query { params: Vec::new() };
        assert(q.params.deep_view() =~= Seq::empty());
        q
    }

    /// The number of parameters.
    pub fn len(&self) -> (n: usize)
        ensures
            self@.dom().finite(),
            n == self@.len(),
    {
        proof {
            use_type_invariant(self);
            lemma_pairs_map_len(self.params.deep_view());
        }
        self.params.len()
    }

    /// Whether there is no parameter.
    pub fn is_empty(&self) -> (b: bool)
        ensures
            b == (self@ == Map::<Seq<char>, Seq<char>>::empty()),
    {
        proof {
            use_type_invariant(self);
            lemma_pairs_map_len(self.params.deep_view());
            if self.params.len() == 0 {
                assert(self@ =~= Map::empty());
            }
        }
        self.params.len() == 0
    }

    fn position(&self, name: &String) -> (at: Option<usize>)
        ensures
            match at {
                Some(i) => i < self.params.len() && self.params.deep_view()[i as int].0 == name@,
                None => !self@.contains_key(name@),
            },
    {
        let mut i: usize = 0;
        while i < self.params.len()
            invariant
                i <= self.params.len(),
                forall|k: int| 0 <= k < i ==> (#[trigger] self.params.deep_view()[k]).0 != name@,
            decreases self.params.len() - i,
        {
            if self.params[i].0 == *name {
                assert(self.params.deep_view()[i as int].0 == name@);
                return Some(i);
            }
            i = i + 1;
        }
        proof {
            lemma_pairs_map_dom(self.params.deep_view(), name@);
        }
        None
    }

    /// The value of the parameter `name`, if there is one.
    pub fn get(&self, name: &String) -> (value: Option<&String>)
        ensures
            match value {
                Some(v) => self@.contains_key(name@) && self@[name@] == v@,
                None => !self@.contains_key(name@),
            },
    {
        match self.position(name) {
            Some(i) => {
                proof {
                    use_type_invariant(self);
                    lemma_pairs_map_value(self.params.deep_view(), i as int);
                }
                Some(&self.params[i].1)
            },
            None => None,
        }
    }

    /// Sets the parameter `name` to `value`, replacing any earlier value.
    pub fn insert(&mut self, name: String, value: String)
        ensures
            final(self)@ == old(self)@.insert(name@, value@),
    {
        proof {
            use_type_invariant(&*self);
        }
        let ghost before = self.params.deep_view();
        let found = self.position(&name);
        // The list is taken out while it changes and put back afterwards.
        let mut params: Vec<(String, String)> = Vec::new();
        assert(params.deep_view() =~= Seq::empty());
        core::mem::swap(&mut self.params, &mut params);
        match found {
            Some(i) => {
                proof {
                    lemma_pairs_map_update(before, i as int, value@);
                }
                params[i] = (name, value);
                assert(params.deep_view() =~= before.update(i as int, (name@, value@)));
            },
            None => {
                proof {
                    lemma_pairs_map_dom(before, name@);
                }
                params.push((name, value));
                assert(params.deep_view() =~= before.push((name@, value@)));
                assert(params.deep_view().drop_last() =~= before);
            },
        }
        core::mem::swap(&mut self.params, &mut params);
    }

    /// Reads a list of pairs front to back: a later pair replaces an earlier
    /// one of the same name.
    pub fn from_pairs(pairs: Vec<(String, String)>) -> (q: Query)
        ensures
            q@ == pairs_map(pairs.deep_view()),
    {
        let ghost whole = pairs.deep_view();
        let ghost items = pairs@;
        let mut q = Query::new();
        assert(whole.take(0) =~= Seq::empty());
        for pair in it: pairs
            invariant
                it.seq() == items,
                whole.len() == items.len(),
                forall|i: int| 0 <= i < items.len() ==> whole[i] == (#[trigger] items[i]).deep_view(),
                q@ == pairs_map(whole.take(it.index() as int)),
        {
            proof {
                let done = it.index() as int;
                assert(whole.take(done + 1).drop_last() =~= whole.take(done));
            }
            q.insert(pair.0, pair.1);
        }
        assert(whole.take(whole.len() as int) =~= whole);
        q
    }

    /// The parameters as a list in which no name occurs twice.
    pub fn to_pairs(&self) -> (pairs: Vec<(String, String)>)
        ensures
            distinct_names(pairs.deep_view()),
            pairs_map(pairs.deep_view()) == self@,
    {
        proof {
            use_type_invariant(self);
        }
        let mut pairs: Vec<(String, String)> = Vec::new();
        let mut i: usize = 0;
        while i < self.params.len()
            invariant
                i <= self.params.len(),
                pairs.deep_view() =~= self.params.deep_view().take(i as int),
            decreases self.params.len() - i,
        {
            let ghost copied = pairs.deep_view();
            let name = self.params[i].0.clone();
            let value = self.params[i].1.clone();
            pairs.push((name, value));
            assert(pairs.deep_view() =~= copied.push((name@, value@)));
            assert(self.params.deep_view()[i as int] == (name@, value@));
            i = i + 1;
        }
        assert(self.params.deep_view().take(i as int) =~= self.params.deep_view());
        pairs
    }
}

} // verus!
