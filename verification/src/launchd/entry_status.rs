use vstd::hash_map::StringHashMap;
use vstd::prelude::*;

verus! {

/// The last known status of each service, by label.
///
/// A request that can change whether a service is loaded removes the entry
/// of that service before it is sent, so that the next reader has to ask
/// the service manager again. The view of a cache is the map from the labels
/// it knows to their statuses.
#[verifier::reject_recursive_types(S)]
pub struct StatusCache<S> {
    entries: StringHashMap<S>,
}

impl<S> View for StatusCache<S> {
    type V = Map<Seq<char>, S>;

    closed spec fn view(&self) -> Map<Seq<char>, S> {
        self.entries@
    }
}

impl<S> StatusCache<S> {
    /// A cache that knows no service.
    pub fn new() -> (r: Self)
        ensures
            r@ == Map::<Seq<char>, S>::empty(),
    {
        StatusCache { entries: StringHashMap::new() }
    }

    /// Remembers `status` as the status of `label`, in place of what was
    /// known of it.
    pub fn store(&mut self, label: String, status: S)
        ensures
            final(self)@ == old(self)@.insert(label@, status),
    {
        self.entries.insert(label, status);
    }

    /// The status known of `label`, if any.
    pub fn lookup(&self, label: &str) -> (r: Option<&S>)
        ensures
            r is Some <==> self@.contains_key(label@),
            r is Some ==> *r->0 == self@[label@],
    {
        self.entries.get(label)
    }

    /// Whether a status is known of `label`.
    pub fn contains(&self, label: &str) -> (r: bool)
        ensures
            r == self@.contains_key(label@),
    {
        self.entries.contains_key(label)
    }

    /// The number of services of which a status is known.
    pub fn len(&self) -> (r: usize)
        ensures
            r == self@.len(),
    {
        self.entries.len()
    }

    /// Forgets what is known of `label`. Nothing changes if nothing was
    /// known of it.
    pub fn invalidate(&mut self, label: &str)
        ensures
            final(self)@ == old(self)@.remove(label@),
    {
        self.entries.remove(label);
    }
}

/// Invalidating a label a second time changes nothing, and invalidating a
/// label that the cache does not know changes nothing at all.
pub proof fn invalidate_is_idempotent<S>(cache: StatusCache<S>, label: Seq<char>)
    ensures
        cache@.remove(label).remove(label) == cache@.remove(label),
        !cache@.contains_key(label) ==> cache@.remove(label) == cache@,
        !cache@.remove(label).contains_key(label),
{
    assert(cache@.remove(label).remove(label) =~= cache@.remove(label));
    if !cache@.contains_key(label) {
        assert(cache@.remove(label) =~= cache@);
    }
}

} // verus!
