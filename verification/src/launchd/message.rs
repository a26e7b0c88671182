use crate::launchd::enums::{DomainType, SessionType};
use vstd::prelude::*;
use vstd::string::StringExecFns;

verus! {

/// The kind of a request. Each kind has a fixed set of base parameters, its
/// template, which the transport holds; a request names its kind and carries
/// only what the call adds to the template.
#[derive(Clone, Copy, Debug, PartialEq, Eq, Hash, Structural)]
pub enum Routine {
    ListServices,
    LoadPaths,
    UnloadPaths,
    EnableNames,
    DisableNames,
    DumpState,
    DumpJpCategory,
    ProcInfo,
}

/// A parameter of a request.
#[derive(Clone, Debug, PartialEq, Eq)]
pub enum Value {
    /// An unsigned integer.
    UInt(u64),
    /// A signed integer.
    Int(i64),
    /// A string.
    Str(String),
    /// A list of strings.
    StrList(Vec<String>),
    /// A file descriptor.
    Fd(i32),
    /// A shared memory region of this many bytes, which the transport
    /// allocates in the current task and attaches to the request.
    Shmem(u64),
}

/// What a parameter holds.
pub enum ValueView {
    UInt(u64),
    Int(i64),
    Str(Seq<char>),
    StrList(Seq<Seq<char>>),
    Fd(i32),
    Shmem(u64),
}

/// What a list of strings holds.
pub open spec fn strings_view(v: Seq<String>) -> Seq<Seq<char>> {
    Seq::new(v.len(), |i: int| v[i]@)
}

impl View for Value {
    type V = ValueView;

    open spec fn view(&self) -> ValueView {
        match self {
            Value::UInt(n) => ValueView::UInt(*n),
            Value::Int(n) => ValueView::Int(*n),
            Value::Str(s) => ValueView::Str(s@),
            Value::StrList(v) => ValueView::StrList(strings_view(v@)),
            Value::Fd(fd) => ValueView::Fd(*fd),
            Value::Shmem(size) => ValueView::Shmem(*size),
        }
    }
}

/// A key with the parameter set under it.
#[derive(Clone, Debug, PartialEq, Eq)]
pub struct Entry {
    pub key: String,
    pub value: Value,
}

/// The parameters that a sequence of entries leaves set, each key with the
/// value of the last entry that names it.
pub open spec fn overlay(entries: Seq<Entry>) -> Map<Seq<char>, ValueView>
    decreases entries.len(),
{
    if entries.len() == 0 {
        Map::empty()
    } else {
        overlay(entries.drop_last()).insert(entries.last().key@, entries.last().value@)
    }
}

/// A key is set by a sequence of entries exactly when some entry names it,
/// and then to the value of the last such entry.
pub proof fn lemma_overlay_lookup(entries: Seq<Entry>, key: Seq<char>)
    ensures
        overlay(entries).contains_key(key) <==> exists|i: int|
            0 <= i < entries.len() && (#[trigger] entries[i]).key@ == key,
        forall|i: int|
            0 <= i < entries.len() && (#[trigger] entries[i]).key@ == key && (forall|j: int|
                i < j < entries.len() ==> (#[trigger] entries[j]).key@ != key) ==> overlay(
                entries,
            )[key] == entries[i].value@,
    decreases entries.len(),
{
    if entries.len() > 0 {
        let front = entries.drop_last();
        let last = entries.last();
        lemma_overlay_lookup(front, key);
        if last.key@ == key {
            assert(entries[entries.len() - 1].key@ == key);
        } else {
            if overlay(entries).contains_key(key) {
                let i = choose|i: int| 0 <= i < front.len() && (#[trigger] front[i]).key@ == key;
                assert(entries[i].key@ == key);
            }
            if exists|i: int| 0 <= i < entries.len() && (#[trigger] entries[i]).key@ == key {
                let i = choose|i: int|
                    0 <= i < entries.len() && (#[trigger] entries[i]).key@ == key;
                assert(front[i].key@ == key);
            }
            assert forall|i: int|
                0 <= i < entries.len() && (#[trigger] entries[i]).key@ == key && (forall|j: int|
                    i < j < entries.len() ==> (#[trigger] entries[j]).key@ != key) implies overlay(
                entries,
            )[key] == entries[i].value@ by {
                assert(front[i].key@ == key);
                assert forall|j: int| i < j < front.len() implies (#[trigger] front[j]).key@
                    != key by {
                    assert(entries[j].key@ != key);
                }
            }
        }
    }
}

/// A request: the kind of the call and the parameters that the call adds
/// to the template of that kind.
///
/// The entries are kept in the order in which they were added. An entry
/// replaces an earlier one with the same key, and one of the template with
/// that key. The view of a request is the set of parameters that its
/// entries leave set.
#[derive(Clone, Debug, PartialEq, Eq)]
pub struct Request {
    pub routine: Routine,
    pub entries: Vec<Entry>,
}

impl View for Request {
    type V = Map<Seq<char>, ValueView>;

    open spec fn view(&self) -> Map<Seq<char>, ValueView> {
        overlay(self.entries@)
    }
}

impl Request {
    /// A request of the given kind that adds nothing to the template.
    pub fn new(routine: Routine) -> (r: Request)
        ensures
            r.routine == routine,
            r@ == Map::<Seq<char>, ValueView>::empty(),
    {
        Request { routine, entries: Vec::new() }
    }

    /// Sets the parameter `key` to `value`.
    pub fn entry(self, key: &str, value: Value) -> (r: Request)
        ensures
            r.routine == self.routine,
            r@ == self@.insert(key@, value@),
    {
        let ghost before = self.entries@;
        let mut entries = self.entries;
        entries.push(Entry { key: String::from_str(key), value });
        assert(entries@.drop_last() == before);
        Request { routine: self.routine, entries }
    }

    /// Sets the parameter `key` if a value is given; leaves the request as it
    /// is otherwise.
    pub fn entry_if_present(self, key: &str, value: Option<Value>) -> (r: Request)
        ensures
            r.routine == self.routine,
            r@ == match value {
                Some(v) => self@.insert(key@, v@),
                None => self@,
            },
    {
        match value {
            Some(v) => self.entry(key, v),
            None => self,
        }
    }

    /// Sets the session under the key `session`: the name of the given
    /// session, or of `Aqua` if none is given.
    pub fn with_session_type_or_default(self, session: Option<SessionType>) -> (r: Request)
        ensures
            r.routine == self.routine,
            r@ == self@.insert("session"@, ValueView::Str(spec_session_or_default(session).spec_name())),
    {
        let session = match session {
            Some(s) => s,
            None => SessionType::Aqua,
        };
        self.entry("session", Value::Str(session.name()))
    }

    /// Sets the handle under the key `handle`: the given one, or 0 if none is
    /// given.
    pub fn with_handle_or_default(self, handle: Option<u64>) -> (r: Request)
        ensures
            r.routine == self.routine,
            r@ == self@.insert("handle"@, ValueView::UInt(spec_handle_or_default(handle))),
    {
        let handle = match handle {
            Some(h) => h,
            None => 0,
        };
        self.entry("handle", Value::UInt(handle))
    }

    /// Sets the domain under the key `type`: the code of the given domain,
    /// or of the requestor's domain if none is given.
    pub fn with_domain_type_or_default(self, domain_type: Option<DomainType>) -> (r: Request)
        ensures
            r.routine == self.routine,
            r@ == self@.insert(
                "type"@,
                ValueView::UInt(spec_domain_or_default(domain_type).spec_code()),
            ),
    {
        let domain_type = match domain_type {
            Some(t) => t,
            None => DomainType::RequestorDomain,
        };
        self.entry("type", Value::UInt(domain_type.code()))
    }

    /// The value to which the request sets the parameter `key`, if it sets
    /// it.
    pub fn get(&self, key: &str) -> (r: Option<&Value>)
        ensures
            r is Some <==> self@.contains_key(key@),
            r is Some ==> r->0@ == self@[key@],
    {
        let wanted = String::from_str(key);
        let mut i = self.entries.len();
        while i > 0
            invariant
                i <= self.entries@.len(),
                wanted@ == key@,
                forall|j: int| i <= j < self.entries@.len() ==> (#[trigger] self.entries@[j]).key@ != key@,
            decreases i,
        {
            i -= 1;
            if self.entries[i].key == wanted {
                proof {
                    lemma_overlay_lookup(self.entries@, key@);
                    assert(self.entries@[i as int].key@ == key@);
                }
                return Some(&self.entries[i].value);
            }
        }
        proof {
            lemma_overlay_lookup(self.entries@, key@);
        }
        None
    }
}

/// The session that a request names when the caller gives `session`.
pub open spec fn spec_session_or_default(session: Option<SessionType>) -> SessionType {
    match session {
        Some(s) => s,
        None => SessionType::Aqua,
    }
}

/// The handle that a request names when the caller gives `handle`.
pub open spec fn spec_handle_or_default(handle: Option<u64>) -> u64 {
    match handle {
        Some(h) => h,
        None => 0,
    }
}

/// The domain that a request names when the caller gives `domain_type`.
pub open spec fn spec_domain_or_default(domain_type: Option<DomainType>) -> DomainType {
    match domain_type {
        Some(t) => t,
        None => DomainType::RequestorDomain,
    }
}

} // verus!
