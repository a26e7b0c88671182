use crate::launchd::entry_status::StatusCache;
use crate::launchd::enums::{DomainType, SessionType};
use crate::launchd::error::QueryError;
use crate::launchd::label_set::LabelSet;
use crate::launchd::message::{
    spec_domain_or_default, spec_handle_or_default, spec_session_or_default, strings_view,
    Request, Routine, Value, ValueView,
};
use vstd::prelude::*;
use vstd::string::StringExecFns;

verus! {

/// Size in bytes of the shared memory region that a state dump is written
/// to.
pub const DUMPSTATE_SHMEM_SIZE: u64 = 0x1400000;

/// The parameters of a request that lists the services of a domain, or one
/// service of it.
pub open spec fn list_parameters(domain_type: DomainType, name: Option<Seq<char>>) -> Map<
    Seq<char>,
    ValueView,
> {
    let base = Map::<Seq<char>, ValueView>::empty().insert(
        "type"@,
        ValueView::UInt(domain_type.spec_code()),
    );
    match name {
        Some(n) => base.insert("name"@, ValueView::Str(n)),
        None => base,
    }
}

/// The parameters of a request that loads or unloads the service described
/// by the file at `plist_path`.
pub open spec fn paths_parameters(
    plist_path: Seq<char>,
    domain_type: Option<DomainType>,
    session: Option<SessionType>,
    handle: Option<u64>,
) -> Map<Seq<char>, ValueView> {
    Map::<Seq<char>, ValueView>::empty().insert(
        "type"@,
        ValueView::UInt(spec_domain_or_default(domain_type).spec_code()),
    ).insert("session"@, ValueView::Str(spec_session_or_default(session).spec_name())).insert(
        "handle"@,
        ValueView::UInt(spec_handle_or_default(handle)),
    ).insert("paths"@, ValueView::StrList(seq![plist_path]))
}

/// The parameters of a request that enables or disables the service
/// `label` in a domain.
pub open spec fn names_parameters(label: Seq<char>, domain_type: DomainType) -> Map<
    Seq<char>,
    ValueView,
> {
    Map::<Seq<char>, ValueView>::empty().insert(
        "type"@,
        ValueView::UInt(domain_type.spec_code()),
    ).insert("name"@, ValueView::Str(label)).insert(
        "names"@,
        ValueView::StrList(seq![label]),
    ).insert("handle"@, ValueView::UInt(0))
}

/// A list of one string.
fn single(s: &str) -> (r: Value)
    ensures
        r@ == ValueView::StrList(seq![s@]),
{
    let list = vec![String::from_str(s)];
    let r = Value::StrList(list);
    assert(r@->StrList_0 =~= seq![s@]);
    r
}

/// Query for jobs in a domain. With a name the request asks for that
/// service alone, without one for every service of the domain.
pub fn list(domain_type: DomainType, name: Option<String>) -> (r: Request)
    ensures
        r.routine == Routine::ListServices,
        r@ == list_parameters(
            domain_type,
            match name {
                Some(n) => Some(n@),
                None => None,
            },
        ),
{
    let name = match name {
        Some(n) => Some(Value::Str(n)),
        None => None,
    };
    Request::new(Routine::ListServices).with_domain_type_or_default(
        Some(domain_type),
    ).entry_if_present("name", name)
}

/// The request that loads the service `label` from the file at
/// `plist_path`.
///
/// What the cache knows of `label` is forgotten before the request is
/// handed out, so no stale status outlives the attempt, whether the request
/// then succeeds, fails or is never sent. A domain, session or handle that
/// is not given takes its default.
pub fn load<S>(
    cache: &mut StatusCache<S>,
    label: &str,
    plist_path: &str,
    domain_type: Option<DomainType>,
    session: Option<SessionType>,
    handle: Option<u64>,
) -> (r: Request)
    ensures
        final(cache)@ == old(cache)@.remove(label@),
        !final(cache)@.contains_key(label@),
        r.routine == Routine::LoadPaths,
        r@ == paths_parameters(plist_path@, domain_type, session, handle),
{
    cache.invalidate(label);
    Request::new(Routine::LoadPaths).with_domain_type_or_default(
        domain_type,
    ).with_session_type_or_default(session).with_handle_or_default(handle).entry(
        "paths",
        single(plist_path),
    )
}

/// The request that unloads the service `label` described by the file at
/// `plist_path`.
///
/// As with `load`, what the cache knows of `label` is forgotten before the
/// request is handed out.
pub fn unload<S>(
    cache: &mut StatusCache<S>,
    label: &str,
    plist_path: &str,
    domain_type: Option<DomainType>,
    session: Option<SessionType>,
    handle: Option<u64>,
) -> (r: Request)
    ensures
        final(cache)@ == old(cache)@.remove(label@),
        !final(cache)@.contains_key(label@),
        r.routine == Routine::UnloadPaths,
        r@ == paths_parameters(plist_path@, domain_type, session, handle),
{
    cache.invalidate(label);
    Request::new(Routine::UnloadPaths).with_domain_type_or_default(
        domain_type,
    ).with_session_type_or_default(session).with_handle_or_default(handle).entry(
        "paths",
        single(plist_path),
    )
}

/// The request that enables the service `label` in a domain. The status
/// cache is left alone: it tracks whether a service is loaded, not whether
/// it is enabled.
pub fn enable(label: &str, domain_type: DomainType) -> (r: Request)
    ensures
        r.routine == Routine::EnableNames,
        r@ == names_parameters(label@, domain_type),
{
    Request::new(Routine::EnableNames).with_domain_type_or_default(Some(domain_type)).entry(
        "name",
        Value::Str(String::from_str(label)),
    ).entry("names", single(label)).with_handle_or_default(None)
}

/// The request that disables the service `label` in a domain. The status
/// cache is left alone.
pub fn disable(label: &str, domain_type: DomainType) -> (r: Request)
    ensures
        r.routine == Routine::DisableNames,
        r@ == names_parameters(label@, domain_type),
{
    Request::new(Routine::DisableNames).with_domain_type_or_default(Some(domain_type)).entry(
        "name",
        Value::Str(String::from_str(label)),
    ).entry("names", single(label)).with_handle_or_default(None)
}

/// The request that has the service manager write its state into a shared
/// memory region of `DUMPSTATE_SHMEM_SIZE` bytes.
pub fn dumpstate() -> (r: Request)
    ensures
        r.routine == Routine::DumpState,
        r@ == Map::<Seq<char>, ValueView>::empty().insert(
            "shmem"@,
            ValueView::Shmem(DUMPSTATE_SHMEM_SIZE),
        ),
{
    Request::new(Routine::DumpState).entry("shmem", Value::Shmem(DUMPSTATE_SHMEM_SIZE))
}

/// The request that has the service manager write its job categories to
/// the file descriptor `fd`.
pub fn dumpjpcategory(fd: i32) -> (r: Request)
    ensures
        r.routine == Routine::DumpJpCategory,
        r@ == Map::<Seq<char>, ValueView>::empty().insert("fd"@, ValueView::Fd(fd)),
{
    Request::new(Routine::DumpJpCategory).entry("fd", Value::Fd(fd))
}

/// The request that has the service manager write what it knows of the
/// process `pid` to the file descriptor `fd`.
pub fn procinfo(pid: i64, fd: i32) -> (r: Request)
    ensures
        r.routine == Routine::ProcInfo,
        r@ == Map::<Seq<char>, ValueView>::empty().insert("fd"@, ValueView::Fd(fd)).insert(
            "pid"@,
            ValueView::Int(pid),
        ),
{
    Request::new(Routine::ProcInfo).entry("fd", Value::Fd(fd)).entry("pid", Value::Int(pid))
}

/// Code of the first domain that a search probes: that of `System`.
pub const PROBE_FIRST: u64 = 1;

/// Code at which a search gives up: that of `RequestorDomain`, which is a
/// bound and is not probed itself.
pub const PROBE_BOUND: u64 = 7;

/// The parameters of the request that asks one domain for the service
/// `label`.
pub open spec fn probe_parameters(code: u64, label: Seq<char>) -> Map<Seq<char>, ValueView> {
    Map::<Seq<char>, ValueView>::empty().insert("type"@, ValueView::UInt(code)).insert(
        "name"@,
        ValueView::Str(label),
    )
}

/// A search for a service across the domains, at the point where one
/// domain is about to be asked.
///
/// The search asks the domains in the order of their codes, from
/// `PROBE_FIRST` up to, and not including, `PROBE_BOUND`. The caller sends
/// `request()` and hands the reply to `advance`, which tells how the search
/// goes on.
#[derive(Debug, PartialEq, Eq)]
pub struct DomainProbe {
    label: String,
    code: u64,
}

/// How a search goes on after a reply.
#[derive(Debug, PartialEq)]
pub enum ProbeStep<R> {
    /// The domain knows the service: the search ends with the domain and
    /// its reply.
    Found(DomainType, R),
    /// The domain does not know the service: the next one is to be asked.
    Retry(DomainProbe),
    /// No domain is left to ask.
    NotFound,
}

impl DomainProbe {
    /// The domain to ask lies between the first one and the bound.
    #[verifier::type_invariant]
    pub closed spec fn wf(self) -> bool {
        PROBE_FIRST <= self.code < PROBE_BOUND
    }

    /// The label that is searched for.
    pub closed spec fn label(self) -> Seq<char> {
        self.label@
    }

    /// The code of the domain that is about to be asked.
    pub closed spec fn code(self) -> u64 {
        self.code
    }

    /// The domain that is about to be asked.
    pub open spec fn domain(self) -> DomainType {
        DomainType::spec_from_code(self.code())
    }

    /// The search after the domain at hand has failed: at the next domain,
    /// or nowhere if that would be the bound.
    pub closed spec fn after_failure(self) -> Option<DomainProbe> {
        if self.code + 1 < PROBE_BOUND {
            Some(DomainProbe { label: self.label, code: (self.code + 1) as u64 })
        } else {
            None
        }
    }

    /// The search after the domain at hand and the `n - 1` that follow it
    /// have failed.
    pub open spec fn after_failures(self, n: nat) -> Option<DomainProbe>
        decreases n,
    {
        if n == 0 {
            Some(self)
        } else {
            match self.after_failures((n - 1) as nat) {
                Some(probe) => probe.after_failure(),
                None => None,
            }
        }
    }

    /// The domain that a search from here ends with, where `replies` tells
    /// of each request from here on whether it succeeds: that of the first
    /// request that does, if the search gets that far.
    pub open spec fn search_result(self, replies: Seq<bool>) -> Option<DomainType>
        decreases replies.len(),
    {
        if replies.len() == 0 {
            None
        } else if replies[0] {
            Some(self.domain())
        } else {
            match self.after_failure() {
                Some(next) => next.search_result(replies.drop_first()),
                None => None,
            }
        }
    }

    /// The domain that is about to be asked.
    pub fn domain_type(&self) -> (r: DomainType)
        ensures
            r == self.domain(),
            PROBE_FIRST <= self.code() < PROBE_BOUND,
    {
        proof {
            use_type_invariant(self);
        }
        DomainType::from_code(self.code)
    }

    /// The request that asks the domain at hand for the service.
    pub fn request(&self) -> (r: Request)
        ensures
            r.routine == Routine::ListServices,
            r@ == probe_parameters(self.code(), self.label()),
    {
        Request::new(Routine::ListServices).entry("type", Value::UInt(self.code)).entry(
            "name",
            Value::Str(self.label.clone()),
        )
    }

    /// Takes the reply of the domain at hand. The first domain that
    /// answers wins: its reply ends the search. After a failure the search
    /// moves to the next domain, and ends without a result when none is
    /// left.
    pub fn advance<R>(self, reply: Result<R, QueryError>) -> (step: ProbeStep<R>)
        ensures
            match reply {
                Ok(response) => step == ProbeStep::Found(self.domain(), response),
                Err(_) => if self.code() + 1 < PROBE_BOUND {
                    &&& step is Retry
                    &&& step->Retry_0.code() == self.code() + 1
                    &&& step->Retry_0.label() == self.label()
                    &&& self.after_failure() == Some(step->Retry_0)
                } else {
                    &&& step is NotFound
                    &&& self.after_failure() is None
                },
            },
    {
        proof {
            use_type_invariant(&self);
        }
        match reply {
            Ok(response) => ProbeStep::Found(DomainType::from_code(self.code), response),
            Err(_) => {
                if self.code + 1 < PROBE_BOUND {
                    ProbeStep::Retry(DomainProbe { label: self.label, code: self.code + 1 })
                } else {
                    ProbeStep::NotFound
                }
            },
        }
    }
}

/// Starts the search for the service `label` across the domains, at
/// `System`.
pub fn find_in_all(label: &str) -> (probe: DomainProbe)
    ensures
        probe.label() == label@,
        probe.code() == PROBE_FIRST,
        probe.domain() == DomainType::System,
{
    DomainProbe { label: String::from_str(label), code: PROBE_FIRST }
}

/// A search that has seen `n` failures since it started stands at the
/// domain with code `1 + n`, still for the same label, as long as that is
/// below the bound; after that it has ended. So a search asks `System`,
/// `User`, `UserLogin`, `Session`, `PID` and `RequestorUserDomain`, in this
/// order, and never `RequestorDomain`.
pub proof fn search_asks_domains_in_order(probe: DomainProbe, n: nat)
    requires
        probe.wf(),
        probe.code() == PROBE_FIRST,
    ensures
        PROBE_FIRST + n < PROBE_BOUND ==> {
            &&& probe.after_failures(n) is Some
            &&& probe.after_failures(n)->0.wf()
            &&& probe.after_failures(n)->0.code() == PROBE_FIRST + n
            &&& probe.after_failures(n)->0.label() == probe.label()
            &&& probe.after_failures(n)->0.domain() != DomainType::RequestorDomain
            &&& probe.after_failures(n)->0.domain() != DomainType::Unknown
        },
        PROBE_FIRST + n >= PROBE_BOUND ==> probe.after_failures(n) is None,
    decreases n,
{
    if n > 0 {
        search_asks_domains_in_order(probe, (n - 1) as nat);
    }
}

/// The position of the first success among the first `limit` replies.
pub open spec fn first_success(replies: Seq<bool>, limit: int) -> Option<int>
    decreases replies.len(),
{
    if limit <= 0 || replies.len() == 0 {
        None
    } else if replies[0] {
        Some(0)
    } else {
        match first_success(replies.drop_first(), limit - 1) {
            Some(k) => Some(k + 1),
            None => None,
        }
    }
}

/// The first success wins. A search ends with the domain of the first
/// request that succeeds, counted from the domain at hand in the order of
/// the codes, and finds nothing if no request succeeds before the bound is
/// reached.
pub proof fn search_finds_first_success(probe: DomainProbe, replies: Seq<bool>)
    requires
        probe.wf(),
    ensures
        probe.search_result(replies) == match first_success(
            replies,
            PROBE_BOUND - probe.code(),
        ) {
            Some(k) => Some(DomainType::spec_from_code((probe.code() + k) as u64)),
            None => None,
        },
    decreases replies.len(),
{
    if replies.len() > 0 && !replies[0] {
        match probe.after_failure() {
            Some(next) => {
                search_finds_first_success(next, replies.drop_first());
            },
            None => {
                assert(first_success(replies.drop_first(), PROBE_BOUND - probe.code() - 1) is None);
            },
        }
    }
}

/// A field of a reply, as far as the size of a dump is read from it.
#[derive(Clone, Copy, Debug, PartialEq, Eq, Structural)]
pub enum Field {
    /// The reply has no such field.
    Absent,
    /// An unsigned integer.
    UInt(u64),
    /// A signed integer.
    Int(i64),
    /// A value that is no integer.
    Other,
}

/// The size that a field stands for: that of an integer which is not
/// negative and fits a `usize`.
pub open spec fn spec_bytes_written(field: Field) -> Result<usize, QueryError> {
    match field {
        Field::Absent => Err(QueryError::MalformedResponse),
        Field::Other => Err(QueryError::MalformedResponse),
        Field::UInt(n) => if n <= usize::MAX {
            Ok(n as usize)
        } else {
            Err(QueryError::ConversionFailure)
        },
        Field::Int(n) => if 0 <= n <= usize::MAX {
            Ok(n as usize)
        } else {
            Err(QueryError::ConversionFailure)
        },
    }
}

/// Reads the reply to a state dump: the number of bytes that were written
/// to the shared memory, with the region itself, which is the caller's from
/// then on. `bytes_written` is the field `bytes-written` of the reply.
///
/// The reply is malformed if the field is missing or no integer. An
/// integer that is negative or does not fit a `usize` cannot be converted.
pub fn dumpstate_reply<H>(shmem: H, bytes_written: Field) -> (r: Result<(usize, H), QueryError>)
    ensures
        r == match spec_bytes_written(bytes_written) {
            Ok(n) => Ok::<(usize, H), QueryError>((n, shmem)),
            Err(e) => Err::<(usize, H), QueryError>(e),
        },
{
    match bytes_written {
        Field::Absent => Err(QueryError::MalformedResponse),
        Field::Other => Err(QueryError::MalformedResponse),
        Field::UInt(n) => {
            if n <= usize::MAX as u64 {
                Ok((n as usize, shmem))
            } else {
                Err(QueryError::ConversionFailure)
            }
        },
        Field::Int(n) => {
            if n >= 0 && n as u64 <= usize::MAX as u64 {
                Ok((n as usize, shmem))
            } else {
                Err(QueryError::ConversionFailure)
            }
        },
    }
}

/// The domains whose services `list_all` gathers, for a caller with the
/// given effective user id.
pub open spec fn spec_list_all_domains(euid: u32) -> Seq<DomainType> {
    let everything = seq![
        DomainType::System,
        DomainType::RequestorUserDomain,
        DomainType::RequestorDomain,
    ];
    if euid == 0 {
        everything.push(DomainType::User)
    } else {
        everything
    }
}

/// The domains whose services `list_all` gathers: the system's, the
/// requestor's user's and the requestor's, and for the superuser the
/// user's as well.
pub fn list_all_domains(euid: u32) -> (r: Vec<DomainType>)
    ensures
        r@ == spec_list_all_domains(euid),
{
    let mut everything = vec![
        DomainType::System,
        DomainType::RequestorUserDomain,
        DomainType::RequestorDomain,
    ];
    if euid == 0 {
        everything.push(DomainType::User);
    }
    assert(everything@ =~= spec_list_all_domains(euid));
    everything
}

/// The labels that the reply of one domain adds: those it lists, or none
/// if the request failed.
pub open spec fn reply_labels(reply: Result<Vec<String>, QueryError>) -> Set<Seq<char>> {
    match reply {
        Ok(labels) => strings_view(labels@).to_set(),
        Err(_) => Set::empty(),
    }
}

/// The labels that the replies of several domains add up to.
pub open spec fn all_labels(replies: Seq<Result<Vec<String>, QueryError>>) -> Set<Seq<char>>
    decreases replies.len(),
{
    if replies.len() == 0 {
        Set::empty()
    } else {
        all_labels(replies.drop_last()).union(reply_labels(replies.last()))
    }
}

/// Gathers the services of all domains. Each reply is what one domain
/// listed, or the error with which its request failed.
///
/// A domain whose request failed adds nothing and fails nothing: the result
/// is the union of what the other domains listed, each label once.
pub fn list_all(replies: &Vec<Result<Vec<String>, QueryError>>) -> (r: LabelSet)
    ensures
        r@ == all_labels(replies@),
{
    let mut everything = LabelSet::new();
    let mut i: usize = 0;
    while i < replies.len()
        invariant
            i <= replies@.len(),
            everything@ == all_labels(replies@.take(i as int)),
        decreases replies@.len() - i,
    {
        let ghost gathered = everything@;
        match &replies[i] {
            Ok(labels) => {
                let mut j: usize = 0;
                while j < labels.len()
                    invariant
                        j <= labels@.len(),
                        everything@ == gathered.union(
                            strings_view(labels@).take(j as int).to_set(),
                        ),
                    decreases labels@.len() - j,
                {
                    let ghost listed = strings_view(labels@);
                    everything.insert(labels[j].clone());
                    proof {
                        assert(listed.take(j + 1) =~= listed.take(j as int).push(listed[j as int]));
                        lemma_to_set_push(listed.take(j as int), listed[j as int]);
                        assert(everything@ =~= gathered.union(listed.take(j + 1).to_set()));
                    }
                    j += 1;
                }
                assert(strings_view(labels@).take(j as int) =~= strings_view(labels@));
            },
            Err(_) => {
                assert(everything@ =~= gathered.union(Set::empty()));
            },
        }
        proof {
            assert(replies@.take(i + 1).drop_last() =~= replies@.take(i as int));
            assert(replies@.take(i + 1).last() == replies@[i as int]);
        }
        i += 1;
    }
    assert(replies@.take(i as int) =~= replies@);
    everything
}

/// A label is gathered exactly when some domain listed it. A domain whose
/// request failed lists nothing, so it neither adds a label nor takes one
/// away.
pub proof fn all_labels_are_those_listed(
    replies: Seq<Result<Vec<String>, QueryError>>,
    label: Seq<char>,
)
    ensures
        all_labels(replies).contains(label) <==> exists|i: int|
            0 <= i < replies.len() && #[trigger] reply_labels(replies[i]).contains(label),
    decreases replies.len(),
{
    if replies.len() > 0 {
        let front = replies.drop_last();
        all_labels_are_those_listed(front, label);
        if all_labels(replies).contains(label) {
            if reply_labels(replies.last()).contains(label) {
                assert(reply_labels(replies[replies.len() - 1]).contains(label));
            } else {
                let i = choose|i: int|
                    0 <= i < front.len() && #[trigger] reply_labels(front[i]).contains(label);
                assert(reply_labels(replies[i]).contains(label));
            }
        }
        if exists|i: int|
            0 <= i < replies.len() && #[trigger] reply_labels(replies[i]).contains(label) {
            let i = choose|i: int|
                0 <= i < replies.len() && #[trigger] reply_labels(replies[i]).contains(label);
            if i < front.len() {
                assert(reply_labels(front[i]).contains(label));
            }
        }
    }
}

/// The set of a sequence with one more element is the set of the sequence
/// with that element added.
proof fn lemma_to_set_push(s: Seq<Seq<char>>, x: Seq<char>)
    ensures
        s.push(x).to_set() == s.to_set().insert(x),
{
    assert forall|l: Seq<char>| s.push(x).to_set().contains(l) implies s.to_set().insert(
        x,
    ).contains(l) by {
        let i = choose|i: int| 0 <= i < s.push(x).len() && s.push(x)[i] == l;
        if i < s.len() {
            assert(s[i] == l);
        }
    }
    assert forall|l: Seq<char>| s.to_set().insert(x).contains(l) implies s.push(x).to_set().contains(
        l,
    ) by {
        if l == x {
            assert(s.push(x)[s.len() as int] == l);
        } else {
            let i = choose|i: int| 0 <= i < s.len() && s[i] == l;
            assert(s.push(x)[i] == l);
        }
    }
    assert(s.push(x).to_set() =~= s.to_set().insert(x));
}

} // verus!
