//! A set of topic ids.

use vstd::prelude::*;
use crate::text::same_text;

verus! {

/// A set of topics, each held once.
pub struct TopicSet {
    names: Vec<String>,
}

spec fn holds(names: Seq<String>, k: int, topic: Seq<char>) -> bool {
    0 <= k < names.len() && names[k]@ == topic
}

spec fn names_set(names: Seq<String>) -> Set<Seq<char>> {
    Set::new(|topic: Seq<char>| exists|k: int| holds(names, k, topic))
}

impl View for TopicSet {
    type V = Set<Seq<char>>;

    closed spec fn view(&self) -> Set<Seq<char>> {
        names_set(self.names@)
    }
}

impl TopicSet {
    /// The empty set.
    pub fn new() -> (set: TopicSet)
        ensures
            set@ == Set::<Seq<char>>::empty(),
    {
        let set = TopicSet { names: Vec::new() };
        assert(set@ =~= Set::<Seq<char>>::empty());
        set
    }

    /// Whether `topic` is in the set.
    pub fn contains(&self, topic: &str) -> (found: bool)
        ensures
            found == self@.contains(topic@),
    {
        let mut k: usize = 0;
        while k < self.names.len()
            invariant
                k <= self.names@.len(),
                forall|j: int| 0 <= j < k ==> !holds(self.names@, j, topic@),
            decreases self.names@.len() - k,
        {
            if same_text(self.names[k].as_str(), topic) {
                assert(holds(self.names@, k as int, topic@));
                return true;
            }
            k = k + 1;
        }
        false
    }

    /// Puts `topic` into the set. The answer is whether it was not there
    /// before.
    pub fn insert(&mut self, topic: String) -> (fresh: bool)
        ensures
            fresh == !old(self)@.contains(topic@),
            final(self)@ == old(self)@.insert(topic@),
    {
        if self.contains(topic.as_str()) {
            assert(self@.insert(topic@) =~= self@);
            return false;
        }
        let ghost before = self.names@;
        self.names.push(topic);
        proof {
            let after = self.names@;
            assert(names_set(after) =~= names_set(before).insert(topic@)) by {
                assert forall|t: Seq<char>| names_set(after).contains(t) <==> names_set(
                    before,
                ).insert(topic@).contains(t) by {
                    if names_set(after).contains(t) {
                        let j = choose|j: int| holds(after, j, t);
                        if j < before.len() {
                            assert(holds(before, j, t));
                        }
                    }
                    if names_set(before).contains(t) {
                        let j = choose|j: int| holds(before, j, t);
                        assert(holds(after, j, t));
                    }
                    if t == topic@ {
                        assert(holds(after, before.len() as int, t));
                    }
                }
            }
        }
        true
    }

    /// Takes `topic` out of the set.
    pub fn remove(&mut self, topic: &str)
        ensures
            final(self)@ == old(self)@.remove(topic@),
    {
        let ghost before = self.names@;
        let mut kept: Vec<String> = Vec::new();
        let mut k: usize = 0;
        while k < self.names.len()
            invariant
                k <= self.names@.len(),
                self.names@ == before,
                forall|j: int| 0 <= j < kept@.len() ==> (#[trigger] kept@[j])@ != topic@,
                forall|j: int|
                    0 <= j < kept@.len() ==> exists|i: int|
                        0 <= i < k && before[i]@ == (#[trigger] kept@[j])@,
                forall|i: int|
                    0 <= i < k && (#[trigger] before[i])@ != topic@ ==> exists|j: int|
                        holds(kept@, j, before[i]@),
            decreases self.names@.len() - k,
        {
            if !same_text(self.names[k].as_str(), topic) {
                let ghost shorter = kept@;
                kept.push(self.names[k].clone());
                proof {
                    assert forall|i: int|
                        0 <= i < k + 1 && (#[trigger] before[i])@ != topic@ implies exists|j: int|
                        holds(kept@, j, before[i]@) by {
                        if i < k {
                            let j = choose|j: int| holds(shorter, j, before[i]@);
                            assert(holds(kept@, j, before[i]@));
                        } else {
                            assert(holds(kept@, shorter.len() as int, before[i]@));
                        }
                    }
                }
            }
            k = k + 1;
        }
        proof {
            assert(names_set(kept@) =~= names_set(before).remove(topic@)) by {
                assert forall|t: Seq<char>| names_set(kept@).contains(t) <==> names_set(
                    before,
                ).remove(topic@).contains(t) by {
                    if names_set(kept@).contains(t) {
                        let j = choose|j: int| holds(kept@, j, t);
                        let i = choose|i: int| 0 <= i < k && before[i]@ == kept@[j]@;
                        assert(holds(before, i, t));
                    }
                    if names_set(before).remove(topic@).contains(t) {
                        let i = choose|i: int| holds(before, i, t);
                        assert(before[i]@ != topic@);
                    }
                }
            }
        }
        self.names = kept;
    }
}

/// Taking a topic out and putting it back in leaves what putting it in
/// alone leaves.
pub proof fn lemma_remove_then_insert(set: Set<Seq<char>>, topic: Seq<char>)
    ensures
        set.remove(topic).insert(topic) == set.insert(topic),
{
    assert(set.remove(topic).insert(topic) =~= set.insert(topic));
}

} // verus!
