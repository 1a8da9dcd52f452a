//! A set of identifiers.

use vstd::prelude::*;
use vstd::string::*;
use crate::command::messages::texts;

verus! {

/// A finite set of identifiers, compared by their text. It is kept as a
/// list: what the standard hash set holds can be stated of keys whose
/// hashing is known to follow their value, and that is not known of text.
#[derive(Debug, Clone, PartialEq, Eq)]
pub struct IdSet {
    ids: Vec<String>,
}

impl View for IdSet {
    type V = Set<Seq<char>>;

    closed spec fn view(&self) -> Set<Seq<char>> {
        Set::new(|id: Seq<char>| texts(self.ids@).contains(id))
    }
}

/// `id` followed by `count` zeros.
pub open spec fn padded(id: Seq<char>, count: nat) -> Seq<char> {
    id + Seq::new(count, |i: int| '0')
}

/// The length of the longest of the texts.
spec fn longest(list: Seq<Seq<char>>) -> nat
    decreases list.len(),
{
    if list.len() == 0 {
        0
    } else if list.last().len() > longest(list.drop_last()) {
        list.last().len()
    } else {
        longest(list.drop_last())
    }
}

proof fn lemma_longest(list: Seq<Seq<char>>, i: int)
    requires
        0 <= i < list.len(),
    ensures
        list[i].len() <= longest(list),
    decreases list.len(),
{
    if i < list.len() - 1 {
        assert(list.drop_last()[i] == list[i]);
        lemma_longest(list.drop_last(), i);
    }
}

impl IdSet {
    /// An identifier that is not in the set: `drawn` itself where the set
    /// does not hold it, else `drawn` followed by zeros, as few as make an
    /// identifier that the set does not hold.
    pub fn distinct(&self, drawn: String) -> (id: String)
        ensures
            !self@.contains(id@),
            exists|count: nat|
                id@ == padded(drawn@, count) && forall|fewer: nat|
                    fewer < count ==> self@.contains(#[trigger] padded(drawn@, fewer)),
    {
        let mut candidate = drawn;
        let ghost mut count: nat = 0;
        assert(candidate@ =~= padded(drawn@, count));
        let mut taken = self.contains(&candidate);
        while taken
            invariant
                taken == self@.contains(candidate@),
                candidate@ == padded(drawn@, count),
                forall|fewer: nat| fewer < count ==> self@.contains(#[trigger] padded(drawn@, fewer)),
            decreases longest(texts(self.ids@)) + 1 - candidate@.len(),
        {
            proof {
                let at = choose|at: int|
                    0 <= at < texts(self.ids@).len() && texts(self.ids@)[at] == candidate@;
                lemma_longest(texts(self.ids@), at);
                reveal_strlit("0");
            }
            candidate.append("0");
            proof {
                count = count + 1;
                assert(candidate@ =~= padded(drawn@, count));
            }
            taken = self.contains(&candidate);
        }
        candidate
    }

    /// The empty set.
    pub fn new() -> (res: IdSet)
        ensures
            res@ == Set::<Seq<char>>::empty(),
    {
        let res = IdSet { ids: Vec::new() };
        assert(res@ =~= Set::<Seq<char>>::empty());
        res
    }

    /// Whether the set holds `id`.
    pub fn contains(&self, id: &String) -> (res: bool)
        ensures
            res == self@.contains(id@),
    {
        let mut i: usize = 0;
        while i < self.ids.len()
            invariant
                i <= self.ids.len(),
                forall|k: int| 0 <= k < i ==> texts(self.ids@)[k] != id@,
            decreases self.ids.len() - i,
        {
            if self.ids[i] == *id {
                assert(texts(self.ids@)[i as int] == id@);
                return true;
            }
            i += 1;
        }
        false
    }

    /// Whether the set holds nothing.
    pub fn is_empty(&self) -> (res: bool)
        ensures
            res == (self@ == Set::<Seq<char>>::empty()),
    {
        let res = self.ids.len() == 0;
        proof {
            if res {
                assert(self@ =~= Set::<Seq<char>>::empty());
            } else {
                assert(texts(self.ids@)[0] == self.ids@[0]@);
                assert(self@.contains(self.ids@[0]@));
            }
        }
        res
    }

    /// Adds `id` to the set.
    pub fn insert(&mut self, id: String)
        ensures
            final(self)@ == old(self)@.insert(id@),
    {
        if !self.contains(&id) {
            let ghost before = self.ids@;
            self.ids.push(id);
            assert(texts(self.ids@) =~= texts(before).push(id@));
            assert forall|t: Seq<char>| self@.contains(t) <==> old(self)@.insert(id@).contains(t) by {
                if texts(self.ids@).contains(t) {
                    let k = choose|k: int| 0 <= k < texts(self.ids@).len() && texts(self.ids@)[k] == t;
                    if k < before.len() {
                        assert(texts(before)[k] == t);
                    }
                }
                if texts(before).contains(t) {
                    let k = choose|k: int| 0 <= k < texts(before).len() && texts(before)[k] == t;
                    assert(texts(self.ids@)[k] == t);
                }
                if t == id@ {
                    assert(texts(self.ids@)[before.len() as int] == t);
                }
            }
        }
        assert(self@ =~= old(self)@.insert(id@));
    }

    /// Takes `id` out of the set, and says whether it was in it.
    pub fn remove(&mut self, id: &String) -> (res: bool)
        ensures
            res == old(self)@.contains(id@),
            final(self)@ == old(self)@.remove(id@),
    {
        let mut kept: Vec<String> = Vec::new();
        let mut found = false;
        let mut i: usize = 0;
        while i < self.ids.len()
            invariant
                i <= self.ids.len(),
                self.ids@ == old(self).ids@,
                found == texts(self.ids@.take(i as int)).contains(id@),
                forall|t: Seq<char>|
                    texts(kept@).contains(t) <==> (t != id@ && texts(self.ids@.take(i as int)).contains(t)),
            decreases self.ids.len() - i,
        {
            let ghost seen = self.ids@.take(i as int);
            let ghost next = self.ids@.take(i + 1);
            let ghost kept_before = kept@;
            let ghost current = self.ids@[i as int]@;
            assert(texts(next) =~= texts(seen).push(current));
            if self.ids[i] == *id {
                found = true;
                assert(texts(next)[i as int] == id@);
            } else {
                kept.push(self.ids[i].clone());
                assert(texts(kept@) =~= texts(kept_before).push(current));
            }
            assert(found == texts(next).contains(id@)) by {
                if texts(next).contains(id@) {
                    let k = choose|k: int| 0 <= k < texts(next).len() && texts(next)[k] == id@;
                    if k < i {
                        assert(texts(seen)[k] == id@);
                    }
                }
                if texts(seen).contains(id@) {
                    let k = choose|k: int| 0 <= k < texts(seen).len() && texts(seen)[k] == id@;
                    assert(texts(next)[k] == id@);
                }
            }
            assert forall|t: Seq<char>|
                texts(kept@).contains(t) <==> (t != id@ && texts(next).contains(t)) by {
                if texts(kept@).contains(t) {
                    let k = choose|k: int| 0 <= k < texts(kept@).len() && texts(kept@)[k] == t;
                    if k < kept_before.len() {
                        assert(texts(kept_before)[k] == t);
                        assert(texts(kept_before).contains(t));
                        let j = choose|j: int| 0 <= j < texts(seen).len() && texts(seen)[j] == t;
                        assert(texts(next)[j] == t);
                    } else {
                        assert(texts(next)[i as int] == t);
                    }
                }
                if t != id@ && texts(next).contains(t) {
                    let k = choose|k: int| 0 <= k < texts(next).len() && texts(next)[k] == t;
                    if k < i {
                        assert(texts(seen)[k] == t);
                        assert(texts(seen).contains(t));
                        assert(texts(kept_before).contains(t));
                        let j = choose|j: int| 0 <= j < texts(kept_before).len() && texts(kept_before)[j] == t;
                        assert(kept@[j] == kept_before[j]);
                        assert(texts(kept@)[j] == t);
                    } else {
                        assert(texts(kept@)[kept_before.len() as int] == t);
                    }
                }
            }
            i += 1;
        }
        assert(self.ids@.take(self.ids.len() as int) =~= self.ids@);
        self.ids = kept;
        assert(self@ =~= old(self)@.remove(id@));
        found
    }
}

} // verus!
