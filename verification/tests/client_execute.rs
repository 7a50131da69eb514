//! The execution engine: cache validity, refresh, failover and fallback.

use std::cell::RefCell;
use std::rc::Rc;

use srv_rs::cache::Cache;
use srv_rs::endpoint::{Endpoint, Scheme};
use srv_rs::host::Host;
use srv_rs::policy::Affinity;
use srv_rs::record::SrvRecord;
use srv_rs::resolver::SrvResolver;
use srv_rs::{Error, SrvClient};

fn https(host: &str) -> Endpoint {
    Endpoint::new(Scheme::Https, Host::domain(host), 443, "/".to_owned())
}

fn fallback() -> Endpoint {
    https("fallback.example.com")
}

/// A scripted resolver: answers with fixed records or a fixed error, and
/// counts how often it was asked.
struct ScriptedResolver {
    targets: Vec<&'static str>,
    valid_until: u64,
    fail: bool,
    lookups: Rc<RefCell<u32>>,
}

impl SrvResolver for ScriptedResolver {
    type Error = String;

    fn get_srv_records(&mut self, _srv: &str) -> Result<(Vec<SrvRecord>, u64), String> {
        *self.lookups.borrow_mut() += 1;
        if self.fail {
            return Err("lookup failed".to_owned());
        }
        let records = self
            .targets
            .iter()
            .map(|t| SrvRecord::new((*t).to_owned(), 443, 1, 1))
            .collect();
        Ok((records, self.valid_until))
    }
}

fn client_with(
    targets: Vec<&'static str>,
    valid_until: u64,
    fail: bool,
) -> (SrvClient<ScriptedResolver, Affinity>, Rc<RefCell<u32>>) {
    let lookups = Rc::new(RefCell::new(0));
    let resolver = ScriptedResolver { targets, valid_until, fail, lookups: lookups.clone() };
    let client = SrvClient::new_with_resolver(
        "_svc._tcp.example.com".to_owned(),
        fallback(),
        None,
        resolver,
    );
    (client, lookups)
}

/// An operation that fails on every endpoint among `failing` and records
/// each attempt; success and failure both carry the endpoint attempted.
fn scripted_op(
    failing: Vec<Endpoint>,
    attempts: Rc<RefCell<Vec<Endpoint>>>,
) -> impl Fn(&Endpoint) -> Result<Endpoint, Endpoint> {
    move |e: &Endpoint| {
        attempts.borrow_mut().push(e.clone());
        if failing.iter().any(|f| f == e) {
            Err(e.clone())
        } else {
            Ok(e.clone())
        }
    }
}

#[test]
fn execute_returns_first_success_without_fallback() {
    // Three targets; the first two attempts fail, the third succeeds.
    let (mut client, _) = client_with(vec!["t1.example.com", "t2.example.com", "t3.example.com"], 100, false);
    let attempts = Rc::new(RefCell::new(Vec::new()));
    let op = scripted_op(vec![https("t1.example.com"), https("t2.example.com")], attempts.clone());

    let outcome = client.execute(0, op);
    assert_eq!(outcome, Ok(https("t3.example.com")));
    let tried = attempts.borrow();
    assert_eq!(
        *tried,
        vec![https("t1.example.com"), https("t2.example.com"), https("t3.example.com")]
    );
    assert!(!tried.contains(&fallback()));
}

#[test]
fn execute_falls_back_exactly_once_when_all_targets_fail() {
    let targets = vec!["t1.example.com", "t2.example.com", "t3.example.com"];
    let (mut client, _) = client_with(targets.clone(), 100, false);
    let attempts = Rc::new(RefCell::new(Vec::new()));
    let failing: Vec<Endpoint> = targets.iter().map(|t| https(t)).collect();
    let op = scripted_op(failing, attempts.clone());

    // Every target fails, the fallback succeeds: its outcome is returned.
    let outcome = client.execute(0, op);
    assert_eq!(outcome, Ok(fallback()));
    let tried = attempts.borrow().clone();
    assert_eq!(tried.len(), 4);
    assert_eq!(tried[3], fallback());
    assert_eq!(tried.iter().filter(|e| **e == fallback()).count(), 1);

    // Every target and the fallback fail: the fallback's error is returned.
    let (mut client, _) = client_with(targets.clone(), 100, false);
    let attempts = Rc::new(RefCell::new(Vec::new()));
    let mut failing: Vec<Endpoint> = targets.iter().map(|t| https(t)).collect();
    failing.push(fallback());
    let op = scripted_op(failing, attempts.clone());
    let outcome = client.execute(0, op);
    assert_eq!(outcome, Err(fallback()));
    let tried = attempts.borrow();
    assert_eq!(tried.len(), 4);
    assert_eq!(tried.iter().filter(|e| **e == fallback()).count(), 1);
}

#[test]
fn execute_on_lookup_error_attempts_only_the_fallback() {
    let (mut client, lookups) = client_with(vec!["t1.example.com"], 100, true);
    let attempts = Rc::new(RefCell::new(Vec::new()));
    let op = scripted_op(Vec::new(), attempts.clone());

    let outcome = client.execute(0, op);
    assert!(outcome.is_ok());
    assert_eq!(*attempts.borrow(), vec![fallback()]);
    assert_eq!(*lookups.borrow(), 1);
}

#[test]
fn execute_refreshes_at_most_once_and_only_when_invalid() {
    let (mut client, lookups) = client_with(vec!["t1.example.com"], 100, false);
    let attempts = Rc::new(RefCell::new(Vec::new()));

    // The cache starts out expired: the first call refreshes once.
    let _ = client.execute(0, scripted_op(Vec::new(), attempts.clone()));
    assert_eq!(*lookups.borrow(), 1);

    // Still valid at instant 50: no refresh.
    let _ = client.execute(50, scripted_op(Vec::new(), attempts.clone()));
    assert_eq!(*lookups.borrow(), 1);

    // Expired at instant 100 (validity is strict): exactly one more refresh.
    let _ = client.execute(100, scripted_op(Vec::new(), attempts.clone()));
    assert_eq!(*lookups.borrow(), 2);
}

#[test]
fn execute_prefers_the_last_successful_endpoint() {
    let targets = vec!["t1.example.com", "t2.example.com", "t3.example.com"];
    let (mut client, _) = client_with(targets, 100, false);

    // First call: the first two targets fail, the third succeeds.
    let attempts = Rc::new(RefCell::new(Vec::new()));
    let op = scripted_op(vec![https("t1.example.com"), https("t2.example.com")], attempts.clone());
    assert!(client.execute(0, op).is_ok());

    // Second call: the affinity policy now tries the third target first.
    let attempts = Rc::new(RefCell::new(Vec::new()));
    let op = scripted_op(Vec::new(), attempts.clone());
    assert!(client.execute(0, op).is_ok());
    assert_eq!(*attempts.borrow(), vec![https("t3.example.com")]);
}

#[test]
fn empty_record_set_degrades_to_the_fallback() {
    let (mut client, _) = client_with(Vec::new(), 100, false);
    let attempts = Rc::new(RefCell::new(Vec::new()));
    let outcome = client.execute(0, scripted_op(Vec::new(), attempts.clone()));
    assert!(outcome.is_ok());
    assert_eq!(*attempts.borrow(), vec![fallback()]);
}

#[test]
fn cache_is_valid_strictly_before_its_expiry() {
    let cache: Cache<Endpoint> = Cache::new(vec![https("t1.example.com")], 100);
    assert!(cache.valid(0));
    assert!(cache.valid(99));
    assert!(!cache.valid(100));
    assert!(!cache.valid(101));
    assert_eq!(cache.items().len(), 1);

    let empty: Cache<Endpoint> = Cache::default();
    assert!(!empty.valid(0));
    assert!(empty.items().is_empty());
}

#[test]
fn get_fresh_uri_candidates_does_not_touch_the_cache() {
    let (mut client, lookups) = client_with(vec!["t1.example.com", "t2.example.com"], 100, false);
    let (uris, valid_until) = client.get_fresh_uri_candidates().unwrap();
    assert_eq!(uris, vec![https("t1.example.com"), https("t2.example.com")]);
    assert_eq!(valid_until, 100);
    assert_eq!(*lookups.borrow(), 1);

    // The cache slot was not filled: the next execute still has to refresh.
    let attempts = Rc::new(RefCell::new(Vec::new()));
    let _ = client.execute(0, scripted_op(Vec::new(), attempts.clone()));
    assert_eq!(*lookups.borrow(), 2);
}

#[test]
fn lookup_errors_surface_only_from_candidate_discovery() {
    let (mut client, _) = client_with(vec!["t1.example.com"], 100, true);
    match client.get_fresh_uri_candidates() {
        Err(Error::Lookup(e)) => assert_eq!(e, "lookup failed"),
        other => panic!("expected a lookup error, got {:?}", other),
    }
}

#[test]
fn builders_shape_the_constructed_endpoints() {
    let lookups = Rc::new(RefCell::new(0));
    let resolver = ScriptedResolver {
        targets: vec!["t1.example.com"],
        valid_until: 100,
        fail: false,
        lookups: lookups.clone(),
    };
    let client: SrvClient<(), Affinity> =
        SrvClient::new("_svc._tcp.other.example".to_owned(), fallback(), None);
    let mut client = client
        .srv_name("_svc._tcp.example.com".to_owned())
        .http_scheme(Scheme::Http)
        .path_prefix("/api".to_owned())
        .resolver(resolver);
    let (uris, _) = client.get_fresh_uri_candidates().unwrap();
    assert_eq!(
        uris,
        vec![Endpoint::new(Scheme::Http, Host::domain("t1.example.com"), 443, "/api".to_owned())]
    );
}

#[test]
fn error_values_carry_their_variant() {
    let lookup: Error<String> = Error::Lookup("no answer".to_owned());
    assert!(matches!(lookup, Error::Lookup(_)));
    let parsing: Error<String> = Error::RecordParsing("[bad".to_owned());
    assert!(matches!(parsing, Error::RecordParsing(_)));
    let none: Error<String> = Error::NoTargets;
    assert!(matches!(none, Error::NoTargets));
}

#[test]
fn example_fallback_is_the_example_service_root() {
    let e = srv_rs::example_fallback();
    assert_eq!(e.scheme, Scheme::Https);
    assert_eq!(e.host, Host::domain("install.determinate.systems."));
    assert_eq!(e.port, 443);
    assert_eq!(e.path, "/".to_owned());
    assert!(srv_rs::EXAMPLE_SRV.contains("_tcp"));
}
