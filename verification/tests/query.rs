use launchk::launchd::entry_status::StatusCache;
use launchk::launchd::enums::{DomainType, SessionType};
use launchk::launchd::error::QueryError;
use launchk::launchd::label_set::LabelSet;
use launchk::launchd::message::{Request, Routine, Value};
use launchk::launchd::query::{
    disable, dumpjpcategory, dumpstate, dumpstate_reply, enable, find_in_all, list, list_all,
    list_all_domains, load, procinfo, unload, Field, ProbeStep, DUMPSTATE_SHMEM_SIZE,
    PROBE_BOUND, PROBE_FIRST,
};

/// Runs a search against a transport that answers a request for the domain
/// with the given code. Returns the result and the codes that were asked.
fn search(
    label: &str,
    transport: fn(u64) -> Result<String, QueryError>,
) -> (Result<(DomainType, String), QueryError>, Vec<u64>) {
    let mut asked = Vec::new();
    let mut probe = find_in_all(label);
    loop {
        let request = probe.request();
        assert_eq!(request.routine, Routine::ListServices);
        assert_eq!(request.get("name"), Some(&Value::Str(label.to_string())));
        let code = match request.get("type") {
            Some(Value::UInt(code)) => *code,
            other => panic!("no domain in the request: {:?}", other),
        };
        assert_eq!(code, probe.domain_type().code());
        asked.push(code);
        match probe.advance(transport(code)) {
            ProbeStep::Found(domain, response) => return (Ok((domain, response)), asked),
            ProbeStep::Retry(next) => probe = next,
            ProbeStep::NotFound => return (Err(QueryError::NotFound), asked),
        }
    }
}

fn labels(names: &[&str]) -> Vec<String> {
    names.iter().map(|n| n.to_string()).collect()
}

fn sorted(set: &LabelSet) -> Vec<String> {
    let mut all = set.labels().clone();
    all.sort();
    all
}

#[test]
fn list_of_a_domain() {
    let request = list(DomainType::System, None);
    assert_eq!(request.routine, Routine::ListServices);
    assert_eq!(request.get("type"), Some(&Value::UInt(1)));
    assert_eq!(request.get("name"), None);
    assert_eq!(request.entries.len(), 1);
}

#[test]
fn list_of_one_service() {
    let request = list(DomainType::RequestorUserDomain, Some("com.example.svc".to_string()));
    assert_eq!(request.routine, Routine::ListServices);
    assert_eq!(request.get("type"), Some(&Value::UInt(6)));
    assert_eq!(request.get("name"), Some(&Value::Str("com.example.svc".to_string())));
    assert_eq!(request.entries.len(), 2);
}

#[test]
fn load_with_defaults() {
    let mut cache: StatusCache<u32> = StatusCache::new();
    let request = load(&mut cache, "X", "/Library/LaunchDaemons/X.plist", None, None, None);
    assert_eq!(request.routine, Routine::LoadPaths);
    assert_eq!(request.get("type"), Some(&Value::UInt(7)));
    assert_eq!(request.get("session"), Some(&Value::Str("Aqua".to_string())));
    assert_eq!(request.get("handle"), Some(&Value::UInt(0)));
    assert_eq!(
        request.get("paths"),
        Some(&Value::StrList(vec!["/Library/LaunchDaemons/X.plist".to_string()]))
    );
    assert_eq!(request.get("name"), None);
    assert_eq!(request.entries.len(), 4);
}

#[test]
fn load_with_given_target() {
    let mut cache: StatusCache<u32> = StatusCache::new();
    let request = load(
        &mut cache,
        "X",
        "/tmp/X.plist",
        Some(DomainType::User),
        Some(SessionType::Background),
        Some(501),
    );
    assert_eq!(request.routine, Routine::LoadPaths);
    assert_eq!(request.get("type"), Some(&Value::UInt(2)));
    assert_eq!(request.get("session"), Some(&Value::Str("Background".to_string())));
    assert_eq!(request.get("handle"), Some(&Value::UInt(501)));
    assert_eq!(request.get("paths"), Some(&Value::StrList(vec!["/tmp/X.plist".to_string()])));
}

#[test]
fn load_invalidates_before_the_request_is_sent() {
    let mut cache = StatusCache::new();
    cache.store("X".to_string(), 1u32);
    cache.store("Y".to_string(), 2u32);
    let _request = load(&mut cache, "X", "/tmp/X.plist", None, None, None);
    assert!(!cache.contains("X"));
    assert_eq!(cache.lookup("Y"), Some(&2));
    assert_eq!(cache.len(), 1);
}

#[test]
fn failed_load_still_leaves_the_label_invalidated() {
    let mut cache = StatusCache::new();
    cache.store("X".to_string(), 1u32);
    let request = load(&mut cache, "X", "/tmp/X.plist", None, None, None);
    let reply: Result<String, QueryError> = match request.routine {
        Routine::LoadPaths => Err(QueryError::TransportFailure),
        _ => Ok("sent".to_string()),
    };
    assert_eq!(reply, Err(QueryError::TransportFailure));
    assert!(!cache.contains("X"));
    assert_eq!(cache.lookup("X"), None);
    assert_eq!(cache.len(), 0);
}

#[test]
fn load_of_unknown_label_leaves_the_cache_alone() {
    let mut cache = StatusCache::new();
    cache.store("Y".to_string(), 2u32);
    let _request = load(&mut cache, "X", "/tmp/X.plist", None, None, None);
    assert_eq!(cache.len(), 1);
    assert_eq!(cache.lookup("Y"), Some(&2));
}

#[test]
fn unload_with_defaults() {
    let mut cache: StatusCache<u32> = StatusCache::new();
    let request = unload(&mut cache, "X", "/tmp/X.plist", None, None, None);
    assert_eq!(request.routine, Routine::UnloadPaths);
    assert_eq!(request.get("type"), Some(&Value::UInt(7)));
    assert_eq!(request.get("session"), Some(&Value::Str("Aqua".to_string())));
    assert_eq!(request.get("handle"), Some(&Value::UInt(0)));
    assert_eq!(request.get("paths"), Some(&Value::StrList(vec!["/tmp/X.plist".to_string()])));
    assert_eq!(request.entries.len(), 4);
}

#[test]
fn unload_invalidates_before_the_request_is_sent() {
    let mut cache = StatusCache::new();
    cache.store("X".to_string(), 1u32);
    cache.store("Y".to_string(), 2u32);
    let request = unload(
        &mut cache,
        "X",
        "/tmp/X.plist",
        Some(DomainType::System),
        Some(SessionType::System),
        Some(0),
    );
    assert_eq!(request.get("type"), Some(&Value::UInt(1)));
    assert_eq!(request.get("session"), Some(&Value::Str("System".to_string())));
    assert!(!cache.contains("X"));
    assert_eq!(cache.lookup("Y"), Some(&2));
}

#[test]
fn load_and_unload_differ_in_kind_only() {
    let mut cache: StatusCache<u32> = StatusCache::new();
    let loaded = load(&mut cache, "X", "/tmp/X.plist", Some(DomainType::User), None, Some(3));
    let unloaded = unload(&mut cache, "X", "/tmp/X.plist", Some(DomainType::User), None, Some(3));
    assert_ne!(loaded.routine, unloaded.routine);
    assert_eq!(loaded.entries, unloaded.entries);
}

#[test]
fn enable_names_the_label_twice() {
    let request = enable("com.example.svc", DomainType::User);
    assert_eq!(request.routine, Routine::EnableNames);
    assert_eq!(request.get("type"), Some(&Value::UInt(2)));
    assert_eq!(request.get("name"), Some(&Value::Str("com.example.svc".to_string())));
    assert_eq!(
        request.get("names"),
        Some(&Value::StrList(vec!["com.example.svc".to_string()]))
    );
    assert_eq!(request.get("handle"), Some(&Value::UInt(0)));
    assert_eq!(request.get("session"), None);
    assert_eq!(request.entries.len(), 4);
}

#[test]
fn disable_names_the_label_twice() {
    let request = disable("com.example.svc", DomainType::System);
    assert_eq!(request.routine, Routine::DisableNames);
    assert_eq!(request.get("type"), Some(&Value::UInt(1)));
    assert_eq!(request.get("name"), Some(&Value::Str("com.example.svc".to_string())));
    assert_eq!(
        request.get("names"),
        Some(&Value::StrList(vec!["com.example.svc".to_string()]))
    );
    assert_eq!(request.get("handle"), Some(&Value::UInt(0)));
    assert_eq!(request.entries.len(), 4);
}

#[test]
fn enable_and_disable_differ_in_kind_only() {
    let enabled = enable("svc", DomainType::User);
    let disabled = disable("svc", DomainType::User);
    assert_ne!(enabled.routine, disabled.routine);
    assert_eq!(enabled.entries, disabled.entries);
}

#[test]
fn dumpstate_asks_for_a_fixed_region() {
    let request = dumpstate();
    assert_eq!(DUMPSTATE_SHMEM_SIZE, 20 * 1024 * 1024);
    assert_eq!(DUMPSTATE_SHMEM_SIZE, 0x1400000);
    assert_eq!(request.routine, Routine::DumpState);
    assert_eq!(request.get("shmem"), Some(&Value::Shmem(20971520)));
    assert_eq!(request.entries.len(), 1);
}

#[test]
fn dumpstate_reply_with_size() {
    assert_eq!(dumpstate_reply("region", Field::UInt(4096)), Ok((4096, "region")));
    assert_eq!(dumpstate_reply("region", Field::UInt(0)), Ok((0, "region")));
    assert_eq!(dumpstate_reply(17u8, Field::Int(4096)), Ok((4096, 17u8)));
    assert_eq!(dumpstate_reply(17u8, Field::Int(0)), Ok((0, 17u8)));
}

#[test]
fn dumpstate_reply_without_size() {
    assert_eq!(dumpstate_reply("region", Field::Absent), Err(QueryError::MalformedResponse));
}

#[test]
fn dumpstate_reply_with_a_size_that_is_no_integer() {
    assert_eq!(dumpstate_reply("region", Field::Other), Err(QueryError::MalformedResponse));
}

#[test]
fn dumpstate_reply_with_negative_size() {
    assert_eq!(dumpstate_reply("region", Field::Int(-1)), Err(QueryError::ConversionFailure));
    assert_eq!(
        dumpstate_reply("region", Field::Int(i64::MIN)),
        Err(QueryError::ConversionFailure)
    );
}

#[test]
fn dumpstate_reply_with_the_largest_size() {
    let largest = usize::MAX as u64;
    assert_eq!(dumpstate_reply((), Field::UInt(largest)), Ok((usize::MAX, ())));
    if (usize::MAX as u64) < u64::MAX {
        assert_eq!(
            dumpstate_reply((), Field::UInt(u64::MAX)),
            Err(QueryError::ConversionFailure)
        );
    }
    assert_eq!(dumpstate_reply((), Field::Int(i64::MAX)).is_ok(), i64::MAX as u64 <= largest);
}

#[test]
fn dumpjpcategory_carries_the_descriptor() {
    let request = dumpjpcategory(5);
    assert_eq!(request.routine, Routine::DumpJpCategory);
    assert_eq!(request.get("fd"), Some(&Value::Fd(5)));
    assert_eq!(request.entries.len(), 1);
}

#[test]
fn procinfo_carries_descriptor_and_pid() {
    let request = procinfo(4242, 5);
    assert_eq!(request.routine, Routine::ProcInfo);
    assert_eq!(request.get("fd"), Some(&Value::Fd(5)));
    assert_eq!(request.get("pid"), Some(&Value::Int(4242)));
    assert_eq!(request.entries.len(), 2);
    let request = procinfo(-1, -1);
    assert_eq!(request.get("fd"), Some(&Value::Fd(-1)));
    assert_eq!(request.get("pid"), Some(&Value::Int(-1)));
}

#[test]
fn search_starts_at_system() {
    let probe = find_in_all("svc");
    assert_eq!(probe.domain_type(), DomainType::System);
    let request: Request = probe.request();
    assert_eq!(request.routine, Routine::ListServices);
    assert_eq!(request.get("type"), Some(&Value::UInt(1)));
    assert_eq!(request.get("name"), Some(&Value::Str("svc".to_string())));
    assert_eq!(request.entries.len(), 2);
    assert_eq!(PROBE_FIRST, DomainType::System.code());
    assert_eq!(PROBE_BOUND, DomainType::RequestorDomain.code());
}

#[test]
fn search_ends_at_the_first_domain_that_answers() {
    let (found, asked) = search("svc", |code| {
        if code >= 3 {
            Ok(format!("reply of {}", code))
        } else {
            Err(QueryError::TransportFailure)
        }
    });
    assert_eq!(found, Ok((DomainType::UserLogin, "reply of 3".to_string())));
    assert_eq!(asked, vec![1, 2, 3]);
}

#[test]
fn search_that_succeeds_at_once() {
    let (found, asked) = search("svc", |code| Ok(format!("reply of {}", code)));
    assert_eq!(found, Ok((DomainType::System, "reply of 1".to_string())));
    assert_eq!(asked, vec![1]);
}

#[test]
fn search_that_finds_the_service_in_the_last_probed_domain() {
    let (found, asked) = search("svc", |code| {
        if code == DomainType::RequestorUserDomain.code() {
            Ok("response".to_string())
        } else {
            Err(QueryError::TransportFailure)
        }
    });
    assert_eq!(found, Ok((DomainType::RequestorUserDomain, "response".to_string())));
    assert_eq!(asked, vec![1, 2, 3, 4, 5, 6]);
}

#[test]
fn search_against_a_transport_that_always_fails() {
    let (found, asked) = search("svc", |_| Err(QueryError::TransportFailure));
    assert_eq!(found, Err(QueryError::NotFound));
    assert_eq!(asked, vec![1, 2, 3, 4, 5, 6]);
}

#[test]
fn search_does_not_ask_the_bound() {
    let (found, asked) = search("svc", |code| {
        if code == DomainType::RequestorDomain.code() {
            Ok("response".to_string())
        } else {
            Err(QueryError::TransportFailure)
        }
    });
    assert_eq!(found, Err(QueryError::NotFound));
    assert!(!asked.contains(&DomainType::RequestorDomain.code()));
    assert_eq!(asked.len(), 6);
}

#[test]
fn search_reports_not_found_whatever_the_errors_were() {
    let (found, _) = search("svc", |code| {
        if code % 2 == 0 {
            Err(QueryError::MalformedResponse)
        } else {
            Err(QueryError::NotFound)
        }
    });
    assert_eq!(found, Err(QueryError::NotFound));
}

#[test]
fn advance_after_each_failure() {
    let mut probe = find_in_all("svc");
    let order = [
        DomainType::System,
        DomainType::User,
        DomainType::UserLogin,
        DomainType::Session,
        DomainType::PID,
        DomainType::RequestorUserDomain,
    ];
    for (i, domain) in order.iter().enumerate() {
        assert_eq!(probe.domain_type(), *domain);
        let step: ProbeStep<()> = probe.advance(Err(QueryError::TransportFailure));
        if i + 1 < order.len() {
            probe = match step {
                ProbeStep::Retry(next) => next,
                other => panic!("the search ended early: {:?}", other),
            };
        } else {
            assert_eq!(step, ProbeStep::NotFound);
            return;
        }
    }
    unreachable!();
}

#[test]
fn domains_of_an_ordinary_user() {
    assert_eq!(
        list_all_domains(501),
        vec![DomainType::System, DomainType::RequestorUserDomain, DomainType::RequestorDomain]
    );
    assert_eq!(list_all_domains(1).len(), 3);
    assert_eq!(list_all_domains(u32::MAX).len(), 3);
}

#[test]
fn domains_of_the_superuser() {
    assert_eq!(
        list_all_domains(0),
        vec![
            DomainType::System,
            DomainType::RequestorUserDomain,
            DomainType::RequestorDomain,
            DomainType::User,
        ]
    );
}

#[test]
fn list_all_is_the_union_of_the_domains() {
    let replies = vec![
        Ok(labels(&["com.example.a", "com.example.b"])),
        Ok(labels(&["com.example.c"])),
        Ok(labels(&[])),
    ];
    let all = list_all(&replies);
    assert_eq!(all.len(), 3);
    assert_eq!(sorted(&all), labels(&["com.example.a", "com.example.b", "com.example.c"]));
    assert!(all.contains("com.example.a"));
    assert!(!all.contains("com.example.d"));
}

#[test]
fn list_all_drops_a_failed_domain() {
    let replies = vec![
        Ok(labels(&["com.example.a", "com.example.b"])),
        Err(QueryError::TransportFailure),
        Ok(labels(&["com.example.c"])),
    ];
    let all = list_all(&replies);
    assert_eq!(sorted(&all), labels(&["com.example.a", "com.example.b", "com.example.c"]));
    let without = vec![
        Ok(labels(&["com.example.a", "com.example.b"])),
        Ok(labels(&["com.example.c"])),
    ];
    assert_eq!(sorted(&list_all(&without)), sorted(&all));
}

#[test]
fn list_all_coalesces_duplicates() {
    let replies = vec![
        Ok(labels(&["com.example.a", "com.example.b", "com.example.a"])),
        Ok(labels(&["com.example.b", "com.example.c"])),
    ];
    let all = list_all(&replies);
    assert_eq!(all.len(), 3);
    assert_eq!(all.labels().len(), 3);
    assert_eq!(sorted(&all), labels(&["com.example.a", "com.example.b", "com.example.c"]));
}

#[test]
fn list_all_of_failures_only_is_empty() {
    let replies = vec![
        Err(QueryError::TransportFailure),
        Err(QueryError::MalformedResponse),
        Err(QueryError::NotFound),
    ];
    let all = list_all(&replies);
    assert!(all.is_empty());
    assert_eq!(all.len(), 0);
    assert!(all.labels().is_empty());
}

#[test]
fn list_all_of_no_domain_is_empty() {
    let all = list_all(&Vec::new());
    assert!(all.is_empty());
}

#[test]
fn label_set_holds_each_label_once() {
    let mut set = LabelSet::new();
    assert!(set.is_empty());
    assert!(set.insert("b".to_string()));
    assert!(set.insert("a".to_string()));
    assert!(!set.insert("b".to_string()));
    assert_eq!(set.len(), 2);
    assert!(set.contains("a"));
    assert!(set.contains("b"));
    assert!(!set.contains("c"));
    assert_eq!(sorted(&set), labels(&["a", "b"]));
}
