use crate::launchd::message::strings_view;
use vstd::hash_set::StringHashSet;
use vstd::prelude::*;

verus! {

/// A set of service labels. The view of a set is the set of the labels it
/// holds.
pub struct LabelSet {
    seen: StringHashSet,
    labels: Vec<String>,
}

impl View for LabelSet {
    type V = Set<Seq<char>>;

    closed spec fn view(&self) -> Set<Seq<char>> {
        self.seen@
    }
}

impl LabelSet {
    /// The list holds each label of the set once, and no other.
    #[verifier::type_invariant]
    pub closed spec fn wf(self) -> bool {
        &&& strings_view(self.labels@).to_set() == self.seen@
        &&& strings_view(self.labels@).no_duplicates()
    }

    /// The set without a label.
    pub fn new() -> (r: LabelSet)
        ensures
            r@ == Set::<Seq<char>>::empty(),
    {
        let seen = StringHashSet::new();
        let labels: Vec<String> = Vec::new();
        assert(strings_view(labels@).to_set() =~= Set::<Seq<char>>::empty());
        LabelSet { seen, labels }
    }

    /// Adds a label; tells whether the set did not hold it before.
    pub fn insert(&mut self, label: String) -> (added: bool)
        ensures
            final(self)@ == old(self)@.insert(label@),
            added == !old(self)@.contains(label@),
    {
        let mut taken = LabelSet::new();
        core::mem::swap(self, &mut taken);
        proof {
            use_type_invariant(&taken);
        }
        let LabelSet { mut seen, mut labels } = taken;
        let ghost before = strings_view(labels@);
        let added = !seen.contains(label.as_str());
        if added {
            seen.insert(label.clone());
            labels.push(label);
            proof {
                let after = strings_view(labels@);
                assert(after =~= before.push(label@));
                assert(!before.contains(label@));
                assert(after.to_set() =~= before.to_set().insert(label@)) by {
                    assert forall|l: Seq<char>| after.to_set().contains(l) implies before.to_set().insert(
                        label@,
                    ).contains(l) by {
                        let i = choose|i: int| 0 <= i < after.len() && after[i] == l;
                        if i < before.len() {
                            assert(before[i] == l);
                        }
                    }
                    assert forall|l: Seq<char>|
                        before.to_set().insert(label@).contains(l) implies after.to_set().contains(
                        l,
                    ) by {
                        if l == label@ {
                            assert(after[before.len() as int] == l);
                        } else {
                            let i = choose|i: int| 0 <= i < before.len() && before[i] == l;
                            assert(after[i] == l);
                        }
                    }
                }
            }
        } else {
            assert(seen@.insert(label@) =~= seen@);
        }
        *self = LabelSet { seen, labels };
        added
    }

    /// Whether the set holds the label.
    pub fn contains(&self, label: &str) -> (r: bool)
        ensures
            r == self@.contains(label@),
    {
        self.seen.contains(label)
    }

    /// The number of labels in the set.
    pub fn len(&self) -> (r: usize)
        ensures
            r == self@.len(),
    {
        self.seen.len()
    }

    /// Whether the set holds no label.
    pub fn is_empty(&self) -> (r: bool)
        ensures
            r == self@.is_empty(),
    {
        self.seen.is_empty()
    }

    /// The labels of the set, each once.
    pub fn labels(&self) -> (r: &Vec<String>)
        ensures
            strings_view(r@).to_set() == self@,
            strings_view(r@).no_duplicates(),
    {
        proof {
            use_type_invariant(self);
        }
        &self.labels
    }
}

} // verus!
