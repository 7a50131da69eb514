//! Ordering behavior of the two selection policies.

use srv_rs::endpoint::{Endpoint, Scheme};
use srv_rs::host::Host;
use srv_rs::policy::{Affinity, ParsedRecord, Policy, Rfc2782};

fn https(host: &str) -> Endpoint {
    Endpoint::new(Scheme::Https, Host::domain(host), 443, "/".to_owned())
}

#[test]
fn affinity_uris_iter_order() {
    let google = https("google.com");
    let amazon = https("amazon.com");
    let desco = https("deshaw.com");
    let cache = vec![google.clone(), amazon.clone(), desco.clone()];
    let order = |preferred: Option<&Endpoint>| {
        Affinity::uris_preferring(&cache, preferred)
            .into_vec()
            .into_iter()
            .map(|idx| &cache[idx])
            .collect::<Vec<_>>()
    };
    assert_eq!(order(None), vec![&google, &amazon, &desco]);
    assert_eq!(order(Some(&google)), vec![&google, &amazon, &desco]);
    assert_eq!(order(Some(&amazon)), vec![&amazon, &google, &desco]);
    assert_eq!(order(Some(&desco)), vec![&desco, &google, &amazon]);
}

#[test]
fn balance_uris_iter_order() {
    let priorities: Vec<(Endpoint, u16)> = vec![
        (https("google.com"), 2),
        (https("cloudflare.com"), 2),
        (https("amazon.com"), 1),
        (https("deshaw.com"), 1),
    ];

    let cache = priorities
        .iter()
        .map(|(uri, priority)| ParsedRecord {
            uri: uri.clone(),
            priority: *priority,
            weight: rand::random::<u8>() as u16,
        })
        .collect::<Vec<_>>();

    let priority_of = |e: &Endpoint| {
        priorities
            .iter()
            .find(|(uri, _)| uri == e)
            .map(|(_, p)| *p)
            .unwrap()
    };

    let ordered = |indices: Vec<usize>| {
        let mut last: Option<&Endpoint> = None;
        for item in indices.into_iter().map(|idx| &cache[idx]) {
            if let Some(last) = last {
                assert!(priority_of(last) <= priority_of(&item.uri));
            }
            last = Some(&item.uri);
        }
    };

    for _ in 0..5 {
        ordered(Rfc2782.order(&cache));
    }
}

#[test]
fn affinity_order_over_empty_cache_is_empty() {
    let cache: Vec<Endpoint> = Vec::new();
    let order = Affinity::uris_preferring(&cache, None).into_vec();
    assert!(order.is_empty());
    let preferred = https("google.com");
    let order = Affinity::uris_preferring(&cache, Some(&preferred)).into_vec();
    assert!(order.is_empty());
}

#[test]
fn affinity_order_without_preferred_is_identity() {
    let cache = vec![https("a.example"), https("b.example"), https("c.example"), https("d.example")];
    let order = Affinity::uris_preferring(&cache, None).into_vec();
    assert_eq!(order, vec![0, 1, 2, 3]);
}

#[test]
fn affinity_order_with_preferred_at_k_rotates_front() {
    let cache = vec![https("a.example"), https("b.example"), https("c.example"), https("d.example")];
    let preferred = https("c.example");
    let order = Affinity::uris_preferring(&cache, Some(&preferred)).into_vec();
    assert_eq!(order, vec![2, 0, 1, 3]);
}

#[test]
fn affinity_order_with_absent_preferred_is_identity() {
    let cache = vec![https("a.example"), https("b.example"), https("c.example")];
    let preferred = https("elsewhere.example");
    let order = Affinity::uris_preferring(&cache, Some(&preferred)).into_vec();
    assert_eq!(order, vec![0, 1, 2]);
}

#[test]
fn affinity_iter_yields_then_stays_exhausted() {
    let cache = vec![https("a.example"), https("b.example"), https("c.example"), https("d.example")];
    let preferred = https("c.example");
    let mut iter = Affinity::uris_preferring(&cache, Some(&preferred));
    assert_eq!(iter.next(), Some(2));
    assert_eq!(iter.next(), Some(0));
    assert_eq!(iter.next(), Some(1));
    assert_eq!(iter.next(), Some(3));
    assert_eq!(iter.next(), None);
    assert_eq!(iter.next(), None);
}

#[test]
fn affinity_policy_remembers_last_success_only() {
    let cache = vec![https("a.example"), https("b.example"), https("c.example")];
    let mut policy = Affinity::default();
    assert_eq!(policy.order(&cache), vec![0, 1, 2]);

    policy.note_success(&cache[1]);
    assert_eq!(policy.order(&cache), vec![1, 0, 2]);

    // A failure does not clear the remembered endpoint.
    policy.note_failure(&cache[1]);
    assert_eq!(policy.order(&cache), vec![1, 0, 2]);

    // A newer success overwrites it.
    policy.note_success(&cache[2]);
    assert_eq!(policy.order(&cache), vec![2, 0, 1]);
}

#[test]
fn weighted_order_is_always_a_permutation() {
    let cache: Vec<ParsedRecord> = (0u16..7)
        .map(|i| ParsedRecord {
            uri: https(&format!("t{}.example.com", i)),
            priority: i % 3,
            weight: 10 * i,
        })
        .collect();
    for _ in 0..20 {
        let mut order = Rfc2782.order(&cache);
        order.sort();
        assert_eq!(order, (0..7).collect::<Vec<usize>>());
    }
}

#[test]
fn weighted_order_groups_by_priority_and_mixes_within_a_tier() {
    // SRV-style records with priorities [1, 2, 2] and weights [100, 50, 50].
    let cache = vec![
        ParsedRecord { uri: https("first.example.com"), priority: 1, weight: 100 },
        ParsedRecord { uri: https("second.example.com"), priority: 2, weight: 50 },
        ParsedRecord { uri: https("third.example.com"), priority: 2, weight: 50 },
    ];
    let mut saw_one_two = false;
    let mut saw_two_one = false;
    for _ in 0..300 {
        let order = Rfc2782.order(&cache);
        // The priority-1 record always comes first.
        assert_eq!(order[0], 0);
        match (order[1], order[2]) {
            (1, 2) => saw_one_two = true,
            (2, 1) => saw_two_one = true,
            other => panic!("not a permutation of the priority-2 tier: {:?}", other),
        }
    }
    // The equal-priority pair appears in both relative orders over repeated
    // calls: the order is drawn fresh each time.
    assert!(saw_one_two && saw_two_one);
}

#[test]
fn weighted_order_redraws_on_every_call() {
    let cache: Vec<ParsedRecord> = (0u16..6)
        .map(|i| ParsedRecord {
            uri: https(&format!("t{}.example.com", i)),
            priority: 1,
            weight: 50,
        })
        .collect();
    let first = Rfc2782.order(&cache);
    let mut varied = false;
    for _ in 0..100 {
        if Rfc2782.order(&cache) != first {
            varied = true;
            break;
        }
    }
    assert!(varied);
}
