use kaze_backend::cache::{
    confirm, persists_on_removal, record_signature, should_generate, AgreedAndSignedExpiry,
    AgreementProposalKey, AgreementProposalValue, CacheEntry, ProposalStore, RemovalCause,
    SavedChallengeCache, CACHE_SAVE_LOCATION_DEFAULT,
};

fn v(tc: bool, lc: bool, ts: bool, ls: bool) -> AgreementProposalValue {
    AgreementProposalValue { tenant_confirmed: tc, landlord_confirmed: lc, tenant_signed: ts, landlord_signed: ls }
}

#[test]
fn expiry_only_when_agreed_and_signed() {
    let e = AgreedAndSignedExpiry;
    assert_eq!(e.expire_after_update(&v(true, true, true, true)), Some(0));
    assert_eq!(e.expire_after_update(&v(true, true, true, false)), None);
    assert_eq!(e.expire_after_update(&v(false, true, true, true)), None);
    assert_eq!(e.expire_after_update(&AgreementProposalValue::default()), None);
}

#[test]
fn confirmations() {
    let t = confirm(None, "tenant", "tenant");
    assert_eq!(t, v(true, false, false, false));
    assert!(!should_generate(&None, &t));
    let both = confirm(Some(t), "landlord", "tenant");
    assert_eq!(both, v(true, true, false, false));
    assert!(should_generate(&Some(t), &both));
    let l_first = confirm(Some(confirm(None, "landlord", "tenant")), "tenant", "tenant");
    assert_eq!(l_first, both);
    assert_eq!(confirm(Some(both), "tenant", "tenant"), both);
}

#[test]
fn signatures() {
    let base = v(true, true, false, false);
    assert_eq!(record_signature(Some(base), "t", "t", "l"), v(true, true, true, false));
    assert_eq!(record_signature(Some(base), "l", "t", "l"), v(true, true, false, true));
    assert_eq!(record_signature(Some(base), "x", "x", "x"), v(true, true, true, true));
    assert_eq!(record_signature(None, "x", "x", "x"), v(false, false, true, false));
    assert_eq!(record_signature(None, "l", "t", "l"), v(false, false, false, true));
    let done = record_signature(Some(record_signature(Some(base), "t", "t", "l")), "l", "t", "l");
    assert_eq!(AgreedAndSignedExpiry.expire_after_update(&done), Some(0));
}

#[test]
fn only_expired_proposals_are_recorded() {
    assert!(persists_on_removal(RemovalCause::Expired));
    assert!(!persists_on_removal(RemovalCause::Explicit));
    assert!(!persists_on_removal(RemovalCause::Replaced));
    assert!(!persists_on_removal(RemovalCause::Size));
    assert_eq!(CACHE_SAVE_LOCATION_DEFAULT, "checkpoint/cache.json");
}

fn key(t: &str, l: &str, h: &str) -> AgreementProposalKey {
    AgreementProposalKey { tenant_id: t.to_string(), landlord_id: l.to_string(), housing_id: h.to_string() }
}

#[test]
fn store_keeps_proposals_until_an_update_completes_them() {
    let mut store = ProposalStore::new();
    assert!(store.put(key("t", "l", "h"), v(true, false, false, false)).is_none());
    assert!(store.put(key("t", "l", "h2"), v(false, true, false, false)).is_none());
    assert_eq!(store.len(), 2);
    assert!(store.put(key("t", "l", "h"), v(true, true, false, false)).is_none());
    assert_eq!(store.len(), 2);
    assert_eq!(store.get(&key("t", "l", "h")), Some(v(true, true, false, false)));
    let expired = store.put(key("t", "l", "h"), v(true, true, true, true)).unwrap();
    assert_eq!(expired.key, key("t", "l", "h"));
    assert_eq!(expired.value, v(true, true, true, true));
    assert_eq!(store.get(&key("t", "l", "h")), None);
    assert_eq!(store.len(), 1);
    assert!(store.put(key("x", "y", "z"), v(true, true, true, true)).is_none());
    assert_eq!(store.len(), 2);
    assert_eq!(store.get(&key("x", "y", "z")), Some(v(true, true, true, true)));
    assert!(store.put(key("x", "y", "z"), v(true, true, true, true)).is_some());
    assert_eq!(store.len(), 1);
    store.invalidate(&key("t", "l", "h2"));
    store.invalidate(&key("no", "such", "key"));
    assert_eq!(store.len(), 0);
}

#[test]
fn store_is_saved_and_restored() {
    let mut store = ProposalStore::new();
    store.put(key("a", "b", "c"), v(false, false, true, false));
    store.put(key("d", "e", "f"), v(true, true, true, true));
    let saved = store.saved();
    assert_eq!(saved.cache.len(), 2);
    let (again, none) = ProposalStore::restore(&saved);
    assert!(none.is_empty());
    assert_eq!(again.len(), 2);
    assert_eq!(again.get(&key("a", "b", "c")), Some(v(false, false, true, false)));
    assert_eq!(again.get(&key("d", "e", "f")), Some(v(true, true, true, true)));
    let file = SavedChallengeCache {
        cache: vec![
            CacheEntry { key: key("a", "b", "c"), value: v(true, false, false, false) },
            CacheEntry { key: key("d", "e", "f"), value: v(true, true, true, true) },
            CacheEntry { key: key("a", "b", "c"), value: v(true, true, false, false) },
            CacheEntry { key: key("a", "b", "c"), value: v(true, true, true, true) },
        ],
    };
    let (restored, expired) = ProposalStore::restore(&file);
    assert_eq!(restored.len(), 1);
    assert_eq!(restored.get(&key("d", "e", "f")), Some(v(true, true, true, true)));
    assert_eq!(expired.len(), 1);
    assert_eq!(expired[0].key, key("a", "b", "c"));
}
