//! The agreement proposals kept while tenant and landlord confirm and sign.
//! A proposal is keyed by tenant, landlord and housing; it expires (and the
//! agreement is then recorded) as soon as an update gives it both
//! confirmations and both signatures.
use vstd::prelude::*;
use crate::text::str_eq;

verus! {

/// Where the proposals are saved on shutdown.
pub const CACHE_SAVE_LOCATION_DEFAULT: &'static str = "checkpoint/cache.json";

/// The parties and the housing of a proposal.
#[derive(Debug, Clone, PartialEq, Eq, Hash)]
pub struct AgreementProposalKey {
    pub tenant_id: String,
    pub landlord_id: String,
    pub housing_id: String,
}

/// What each party has done so far.
#[derive(Debug, Clone, Copy, PartialEq, Eq, Structural)]
pub struct AgreementProposalValue {
    pub tenant_confirmed: bool,
    pub landlord_confirmed: bool,
    pub tenant_signed: bool,
    pub landlord_signed: bool,
}

impl Default for AgreementProposalValue {
    /// A proposal on which nobody has acted.
    fn default() -> (r: Self)
        ensures
            r == fresh_proposal(),
    {
        AgreementProposalValue {
            tenant_confirmed: false,
            landlord_confirmed: false,
            tenant_signed: false,
            landlord_signed: false,
        }
    }
}

/// A proposal on which nobody has acted.
pub open spec fn fresh_proposal() -> AgreementProposalValue {
    AgreementProposalValue {
        tenant_confirmed: false,
        landlord_confirmed: false,
        tenant_signed: false,
        landlord_signed: false,
    }
}

/// A saved proposal.
pub struct CacheEntry {
    pub key: AgreementProposalKey,
    pub value: AgreementProposalValue,
}

/// All saved proposals.
pub struct SavedChallengeCache {
    pub cache: Vec<CacheEntry>,
}

/// Both parties confirmed and both signed.
pub open spec fn agreed_and_signed(v: AgreementProposalValue) -> bool {
    v.landlord_confirmed && v.landlord_signed && v.tenant_confirmed && v.tenant_signed
}

/// The expiry policy of the proposals.
pub struct AgreedAndSignedExpiry;

impl AgreedAndSignedExpiry {
    /// The time to live, in seconds, that a proposal gets when it is updated:
    /// none at all (it expires at once) when both parties confirmed and
    /// signed, otherwise no limit (`None`).
    pub fn expire_after_update(&self, value: &AgreementProposalValue) -> (r: Option<u64>)
        ensures
            r == (if agreed_and_signed(*value) {
                Some(0u64)
            } else {
                None
            }),
    {
        if value.landlord_confirmed && value.landlord_signed && value.tenant_confirmed
            && value.tenant_signed {
            Some(0)
        } else {
            None
        }
    }
}

/// The proposal after the user `uid` confirmed it: the tenant's confirmation
/// when `uid` is the tenant, else the landlord's; a missing proposal starts
/// fresh.
pub open spec fn confirmed_by(
    entry: Option<AgreementProposalValue>,
    uid: Seq<char>,
    tenant_id: Seq<char>,
) -> AgreementProposalValue {
    let v = match entry {
        Some(e) => e,
        None => fresh_proposal(),
    };
    if uid == tenant_id {
        AgreementProposalValue { tenant_confirmed: true, ..v }
    } else {
        AgreementProposalValue { landlord_confirmed: true, ..v }
    }
}

/// Records the confirmation of the user `uid` (who is the tenant or the landlord).
pub fn confirm(entry: Option<AgreementProposalValue>, uid: &str, tenant_id: &str) -> (r: AgreementProposalValue)
    ensures
        r == confirmed_by(entry, uid@, tenant_id@),
{
    let v = match entry {
        Some(e) => e,
        None => AgreementProposalValue::default(),
    };
    if str_eq(uid, tenant_id) {
        AgreementProposalValue { tenant_confirmed: true, ..v }
    } else {
        AgreementProposalValue { landlord_confirmed: true, ..v }
    }
}

/// After a confirmation, the document is generated when a proposal already
/// existed and now both parties have confirmed it.
pub open spec fn generation_due(entry: Option<AgreementProposalValue>, updated: AgreementProposalValue) -> bool {
    entry is Some && updated.tenant_confirmed && updated.landlord_confirmed
}

/// Whether the agreement document is to be generated after a confirmation.
pub fn should_generate(entry: &Option<AgreementProposalValue>, updated: &AgreementProposalValue) -> (r: bool)
    ensures
        r == generation_due(*entry, *updated),
{
    entry.is_some() && updated.tenant_confirmed && updated.landlord_confirmed
}

/// The proposal after a signature by `signed_by`. An existing proposal takes
/// the tenant's signature when the signer is the tenant (both signatures when
/// the signer is also the landlord), else the landlord's; a missing proposal
/// starts fresh and takes the tenant's signature when the signer is the
/// tenant, else the landlord's.
pub open spec fn signed_by_party(
    entry: Option<AgreementProposalValue>,
    signed_by: Seq<char>,
    tenant_id: Seq<char>,
    landlord_id: Seq<char>,
) -> AgreementProposalValue {
    match entry {
        Some(e) => if signed_by == tenant_id && signed_by == landlord_id {
            AgreementProposalValue { tenant_signed: true, landlord_signed: true, ..e }
        } else if signed_by == tenant_id {
            AgreementProposalValue { tenant_signed: true, ..e }
        } else {
            AgreementProposalValue { landlord_signed: true, ..e }
        },
        None => if signed_by == tenant_id {
            AgreementProposalValue { tenant_signed: true, ..fresh_proposal() }
        } else {
            AgreementProposalValue { landlord_signed: true, ..fresh_proposal() }
        },
    }
}

/// Records a signature of the agreement.
pub fn record_signature(
    entry: Option<AgreementProposalValue>,
    signed_by: &str,
    tenant_id: &str,
    landlord_id: &str,
) -> (r: AgreementProposalValue)
    ensures
        r == signed_by_party(entry, signed_by@, tenant_id@, landlord_id@),
{
    match entry {
        Some(e) => {
            if str_eq(signed_by, tenant_id) && str_eq(signed_by, landlord_id) {
                AgreementProposalValue { tenant_signed: true, landlord_signed: true, ..e }
            } else if str_eq(signed_by, tenant_id) {
                AgreementProposalValue { tenant_signed: true, ..e }
            } else {
                AgreementProposalValue { landlord_signed: true, ..e }
            }
        },
        None => {
            if str_eq(signed_by, tenant_id) {
                AgreementProposalValue { tenant_signed: true, ..AgreementProposalValue::default() }
            } else {
                AgreementProposalValue { landlord_signed: true, ..AgreementProposalValue::default() }
            }
        },
    }
}

/// Why a proposal left the store.
#[derive(Debug, Clone, Copy, PartialEq, Eq, Structural)]
pub enum RemovalCause {
    Expired,
    Explicit,
    Replaced,
    Size,
}

/// Only a proposal that expired (both parties confirmed and signed) is
/// recorded as an agreement when it leaves the store.
pub fn persists_on_removal(cause: RemovalCause) -> (r: bool)
    ensures
        r == (cause == RemovalCause::Expired),
{
    match cause {
        RemovalCause::Expired => true,
        _ => false,
    }
}

/// Every flag set in `a` is set in `b`.
pub open spec fn flags_kept(a: AgreementProposalValue, b: AgreementProposalValue) -> bool {
    &&& a.tenant_confirmed ==> b.tenant_confirmed
    &&& a.landlord_confirmed ==> b.landlord_confirmed
    &&& a.tenant_signed ==> b.tenant_signed
    &&& a.landlord_signed ==> b.landlord_signed
}

/// Nothing is undone: a confirmation or a signature only sets flags, and it
/// sets the flag of the party who acted.
pub proof fn law_progress_is_monotone(
    v: AgreementProposalValue,
    uid: Seq<char>,
    signer: Seq<char>,
    tenant_id: Seq<char>,
    landlord_id: Seq<char>,
)
    ensures
        flags_kept(v, confirmed_by(Some(v), uid, tenant_id)),
        flags_kept(v, signed_by_party(Some(v), signer, tenant_id, landlord_id)),
        uid == tenant_id ==> confirmed_by(Some(v), uid, tenant_id).tenant_confirmed,
        uid != tenant_id ==> confirmed_by(Some(v), uid, tenant_id).landlord_confirmed,
        signer == tenant_id ==> signed_by_party(Some(v), signer, tenant_id, landlord_id).tenant_signed,
        signer != tenant_id ==> signed_by_party(
            Some(v),
            signer,
            tenant_id,
            landlord_id,
        ).landlord_signed,
{
}

/// Confirming twice is confirming once.
pub proof fn law_confirmation_idempotent(
    entry: Option<AgreementProposalValue>,
    uid: Seq<char>,
    tenant_id: Seq<char>,
)
    ensures
        confirmed_by(Some(confirmed_by(entry, uid, tenant_id)), uid, tenant_id) == confirmed_by(
            entry,
            uid,
            tenant_id,
        ),
{
}

/// When tenant and landlord are different users, the order of their
/// confirmations does not matter.
pub proof fn law_confirmations_commute(
    entry: Option<AgreementProposalValue>,
    tenant_id: Seq<char>,
    landlord_id: Seq<char>,
)
    requires
        tenant_id != landlord_id,
    ensures
        confirmed_by(Some(confirmed_by(entry, tenant_id, tenant_id)), landlord_id, tenant_id)
            == confirmed_by(Some(confirmed_by(entry, landlord_id, tenant_id)), tenant_id, tenant_id),
{
}

/// A first confirmation never triggers the generation; the second party's
/// confirmation of an existing proposal does, in either order.
pub proof fn law_second_confirmation_generates(
    uid: Seq<char>,
    tenant_id: Seq<char>,
    landlord_id: Seq<char>,
)
    requires
        tenant_id != landlord_id,
    ensures
        !generation_due(None, confirmed_by(None, uid, tenant_id)),
        generation_due(
            Some(confirmed_by(None, tenant_id, tenant_id)),
            confirmed_by(Some(confirmed_by(None, tenant_id, tenant_id)), landlord_id, tenant_id),
        ),
        generation_due(
            Some(confirmed_by(None, landlord_id, tenant_id)),
            confirmed_by(Some(confirmed_by(None, landlord_id, tenant_id)), tenant_id, tenant_id),
        ),
{
}

/// A proposal never expires before both parties confirmed and both signed;
/// once the two confirmations and the two signatures are recorded on an
/// existing proposal, in any order, it expires at once.
pub proof fn law_expiry_needs_full_agreement(
    v: AgreementProposalValue,
    tenant_id: Seq<char>,
    landlord_id: Seq<char>,
)
    requires
        tenant_id != landlord_id,
    ensures
        !v.tenant_confirmed || !v.landlord_confirmed || !v.tenant_signed || !v.landlord_signed
            ==> !agreed_and_signed(v),
        ({
            let c = confirmed_by(Some(confirmed_by(Some(v), tenant_id, tenant_id)), landlord_id, tenant_id);
            let s1 = signed_by_party(Some(c), tenant_id, tenant_id, landlord_id);
            agreed_and_signed(signed_by_party(Some(s1), landlord_id, tenant_id, landlord_id))
        }),
        ({
            let s1 = signed_by_party(Some(v), landlord_id, tenant_id, landlord_id);
            let s2 = signed_by_party(Some(s1), tenant_id, tenant_id, landlord_id);
            let c1 = confirmed_by(Some(s2), landlord_id, tenant_id);
            agreed_and_signed(confirmed_by(Some(c1), tenant_id, tenant_id))
        }),
{
}

/// A proposal's key as text: tenant, landlord and housing.
pub open spec fn key_view(k: AgreementProposalKey) -> (Seq<char>, Seq<char>, Seq<char>) {
    (k.tenant_id@, k.landlord_id@, k.housing_id@)
}

/// No two entries have the same key.
pub open spec fn keys_distinct(es: Seq<CacheEntry>) -> bool {
    forall|i: int, j: int|
        0 <= i < es.len() && 0 <= j < es.len() && i != j ==> key_view(#[trigger] es[i].key) != key_view(
            #[trigger] es[j].key,
        )
}

/// The entries as a map from keys to proposals.
pub open spec fn entries_map(es: Seq<CacheEntry>) -> Map<
    (Seq<char>, Seq<char>, Seq<char>),
    AgreementProposalValue,
> {
    Map::new(
        |k: (Seq<char>, Seq<char>, Seq<char>)| exists|i: int| 0 <= i < es.len() && key_view(es[i].key) == k,
        |k: (Seq<char>, Seq<char>, Seq<char>)|
            es[choose|i: int| 0 <= i < es.len() && key_view(es[i].key) == k].value,
    )
}

/// The entry at `i` is what the map holds under its key.
pub proof fn lemma_entries_map_at(es: Seq<CacheEntry>, i: int)
    requires
        keys_distinct(es),
        0 <= i < es.len(),
    ensures
        entries_map(es).dom().contains(key_view(es[i].key)),
        entries_map(es)[key_view(es[i].key)] == es[i].value,
{
    let k = key_view(es[i].key);
    assert(0 <= i < es.len() && key_view(es[i].key) == k);
    let j = choose|j: int| 0 <= j < es.len() && key_view(es[j].key) == k;
    assert(key_view(es[j].key) == k);
    assert(j == i);
}

/// The entries whose write expired them, in the order they were written:
/// updates, under a key already held, to a completed proposal.
pub open spec fn completed_entries(es: Seq<CacheEntry>) -> Seq<CacheEntry>
    decreases es.len(),
{
    if es.len() == 0 {
        Seq::empty()
    } else if replayed(es.drop_last()).dom().contains(key_view(es.last().key)) && agreed_and_signed(
        es.last().value,
    ) {
        completed_entries(es.drop_last()).push(es.last())
    } else {
        completed_entries(es.drop_last())
    }
}

/// The store after a write of `v` under `k`. The expiry policy is asked only
/// on an update: an update to a completed proposal makes it expire at once,
/// and it leaves the store; a first write, or any other update, makes `k`
/// hold `v`.
pub open spec fn written(
    m: Map<(Seq<char>, Seq<char>, Seq<char>), AgreementProposalValue>,
    k: (Seq<char>, Seq<char>, Seq<char>),
    v: AgreementProposalValue,
) -> Map<(Seq<char>, Seq<char>, Seq<char>), AgreementProposalValue> {
    if m.dom().contains(k) && agreed_and_signed(v) {
        m.remove(k)
    } else {
        m.insert(k, v)
    }
}

/// The store after the entries are written one after the other.
pub open spec fn replayed(es: Seq<CacheEntry>) -> Map<(Seq<char>, Seq<char>, Seq<char>), AgreementProposalValue>
    decreases es.len(),
{
    if es.len() == 0 {
        Map::empty()
    } else {
        written(replayed(es.drop_last()), key_view(es.last().key), es.last().value)
    }
}

/// Two entries with the same key text and the same proposal.
pub open spec fn same_entry(a: CacheEntry, b: CacheEntry) -> bool {
    key_view(a.key) == key_view(b.key) && a.value == b.value
}

proof fn lemma_same_entries_map(a: Seq<CacheEntry>, b: Seq<CacheEntry>)
    requires
        a.len() == b.len(),
        forall|l: int| 0 <= l < a.len() ==> same_entry(#[trigger] a[l], b[l]),
        keys_distinct(b),
    ensures
        keys_distinct(a),
        entries_map(a) == entries_map(b),
{
    assert forall|x: int, y: int|
        0 <= x < a.len() && 0 <= y < a.len() && x != y implies key_view(#[trigger] a[x].key) != key_view(
        #[trigger] a[y].key,
    ) by {
        assert(same_entry(a[x], b[x]) && same_entry(a[y], b[y]));
    }
    assert forall|k| #[trigger] entries_map(a).dom().contains(k) == entries_map(b).dom().contains(k) by {
        if entries_map(a).dom().contains(k) {
            let i = choose|i: int| 0 <= i < a.len() && key_view(a[i].key) == k;
            assert(same_entry(a[i], b[i]));
        }
        if entries_map(b).dom().contains(k) {
            let i = choose|i: int| 0 <= i < b.len() && key_view(b[i].key) == k;
            assert(same_entry(a[i], b[i]));
        }
    }
    assert forall|k| #[trigger] entries_map(a).dom().contains(k) implies entries_map(a)[k] == entries_map(b)[k] by {
        let i = choose|i: int| 0 <= i < a.len() && key_view(a[i].key) == k;
        assert(same_entry(a[i], b[i]));
        lemma_entries_map_at(a, i);
        lemma_entries_map_at(b, i);
    }
    assert(entries_map(a) =~= entries_map(b));
}

/// Taking out the entry at `j` takes its key out of the map and leaves the
/// rest as it was.
proof fn lemma_remove_entry(old_es: Seq<CacheEntry>, j: int)
    requires
        keys_distinct(old_es),
        0 <= j < old_es.len(),
    ensures
        keys_distinct(old_es.remove(j)),
        entries_map(old_es.remove(j)) == entries_map(old_es).remove(key_view(old_es[j].key)),
{
    let es = old_es.remove(j);
    let kv = key_view(old_es[j].key);
    old_es.remove_ensures(j);
    assert forall|a: int, b: int|
        0 <= a < es.len() && 0 <= b < es.len() && a != b implies key_view(#[trigger] es[a].key) != key_view(
        #[trigger] es[b].key,
    ) by {
        let oa = if a < j { a } else { a + 1 };
        let ob = if b < j { b } else { b + 1 };
        assert(es[a] == old_es[oa] && es[b] == old_es[ob]);
    }
    assert forall|k| #[trigger] entries_map(es).dom().contains(k) == entries_map(old_es).remove(kv).dom().contains(k) by {
        if entries_map(es).dom().contains(k) {
            let i = choose|i: int| 0 <= i < es.len() && key_view(es[i].key) == k;
            let oi = if i < j { i } else { i + 1 };
            assert(es[i] == old_es[oi]);
            assert(0 <= oi < old_es.len() && key_view(old_es[oi].key) == k);
        }
        if entries_map(old_es).remove(kv).dom().contains(k) {
            let oi = choose|oi: int| 0 <= oi < old_es.len() && key_view(old_es[oi].key) == k;
            assert(oi != j);
            let i = if oi < j { oi } else { oi - 1 };
            assert(es[i] == old_es[oi]);
            assert(0 <= i < es.len() && key_view(es[i].key) == k);
        }
    }
    assert forall|k| #[trigger] entries_map(es).dom().contains(k) implies entries_map(es)[k] == entries_map(old_es)[k] by {
        let i = choose|i: int| 0 <= i < es.len() && key_view(es[i].key) == k;
        let oi = if i < j { i } else { i + 1 };
        assert(es[i] == old_es[oi]);
        lemma_entries_map_at(es, i);
        lemma_entries_map_at(old_es, oi);
    }
    assert(entries_map(es) =~= entries_map(old_es).remove(kv));
}

/// The agreement proposals in store, keyed by tenant, landlord and housing.
/// A proposal expires when an update gives it both confirmations and both
/// signatures: it then leaves the store and is handed back, to be recorded
/// as an agreement. The store stands in for the expiring cache of the
/// service, whose interface is asynchronous.
pub struct ProposalStore {
    entries: Vec<CacheEntry>,
}

fn key_eq(a: &AgreementProposalKey, b: &AgreementProposalKey) -> (r: bool)
    ensures
        r == (key_view(*a) == key_view(*b)),
{
    str_eq(a.tenant_id.as_str(), b.tenant_id.as_str()) && str_eq(a.landlord_id.as_str(), b.landlord_id.as_str())
        && str_eq(a.housing_id.as_str(), b.housing_id.as_str())
}

fn copy_key(k: &AgreementProposalKey) -> (r: AgreementProposalKey)
    ensures
        key_view(r) == key_view(*k),
{
    AgreementProposalKey {
        tenant_id: k.tenant_id.clone(),
        landlord_id: k.landlord_id.clone(),
        housing_id: k.housing_id.clone(),
    }
}

impl View for ProposalStore {
    type V = Map<(Seq<char>, Seq<char>, Seq<char>), AgreementProposalValue>;

    closed spec fn view(&self) -> Self::V {
        entries_map(self.entries@)
    }
}

impl ProposalStore {
    /// No two entries have the same key.
    pub closed spec fn wf(&self) -> bool {
        keys_distinct(self.entries@)
    }

    /// An empty store.
    pub fn new() -> (s: Self)
        ensures
            s.wf(),
            s@ == Map::<(Seq<char>, Seq<char>, Seq<char>), AgreementProposalValue>::empty(),
    {
        let s = ProposalStore { entries: Vec::new() };
        assert(s@ =~= Map::<(Seq<char>, Seq<char>, Seq<char>), AgreementProposalValue>::empty());
        s
    }

    fn find(&self, key: &AgreementProposalKey) -> (r: Option<usize>)
        ensures
            r matches Some(j) ==> j < self.entries@.len() && key_view(self.entries@[j as int].key) == key_view(*key),
            r is None ==> forall|i: int| 0 <= i < self.entries@.len() ==> key_view(#[trigger] self.entries@[i].key) != key_view(*key),
    {
        let mut i: usize = 0;
        while i < self.entries.len()
            invariant
                i <= self.entries@.len(),
                forall|l: int| 0 <= l < i ==> key_view(#[trigger] self.entries@[l].key) != key_view(*key),
            decreases self.entries@.len() - i,
        {
            if key_eq(&self.entries[i].key, key) {
                return Some(i);
            }
            i = i + 1;
        }
        None
    }

    /// The number of proposals held.
    pub fn len(&self) -> (r: usize)
        requires
            self.wf(),
        ensures
            r == self@.len(),
    {
        proof { self.lemma_len(); }
        self.entries.len()
    }

    proof fn lemma_len(&self)
        requires
            self.wf(),
        ensures
            self@.len() == self.entries@.len(),
            self@.dom().finite(),
        decreases self.entries@.len(),
    {
        let es = self.entries@;
        let ks = Seq::new(es.len(), |i: int| key_view(es[i].key));
        assert(ks.no_duplicates());
        ks.unique_seq_to_set();
        assert(self@.dom() =~= ks.to_set()) by {
            assert forall|k| self@.dom().contains(k) implies ks.to_set().contains(k) by {
                let i = choose|i: int| 0 <= i < es.len() && key_view(es[i].key) == k;
                assert(ks[i] == k);
            }
            assert forall|k| ks.to_set().contains(k) implies self@.dom().contains(k) by {
                let i = choose|i: int| 0 <= i < ks.len() && ks[i] == k;
                assert(0 <= i < es.len() && key_view(es[i].key) == k);
            }
        }
    }

    /// The proposal held under a key, if any.
    pub fn get(&self, key: &AgreementProposalKey) -> (r: Option<AgreementProposalValue>)
        requires
            self.wf(),
        ensures
            r == (if self@.dom().contains(key_view(*key)) {
                Some(self@[key_view(*key)])
            } else {
                None::<AgreementProposalValue>
            }),
    {
        match self.find(key) {
            Some(j) => {
                proof { lemma_entries_map_at(self.entries@, j as int); }
                Some(self.entries[j].value)
            },
            None => None,
        }
    }

    /// Writes a proposal. An update that completes the proposal held under
    /// the key (both parties confirmed and signed) makes it expire at once: it
    /// leaves the store and is handed back, to be recorded as an agreement.
    /// Any other write, and the first write under a key, makes the key hold
    /// the proposal.
    pub fn put(&mut self, key: AgreementProposalKey, value: AgreementProposalValue) -> (expired: Option<CacheEntry>)
        requires
            old(self).wf(),
        ensures
            final(self).wf(),
            final(self)@ == written(old(self)@, key_view(key), value),
            expired is Some <==> old(self)@.dom().contains(key_view(key)) && agreed_and_signed(value),
            expired matches Some(e) ==> key_view(e.key) == key_view(key) && e.value == value,
    {
        let ghost old_es = self.entries@;
        let ghost kv = key_view(key);
        let found = self.find(&key);
        let completes = value.landlord_confirmed && value.landlord_signed && value.tenant_confirmed
            && value.tenant_signed;
        match found {
            Some(j) => {
                proof {
                    lemma_entries_map_at(old_es, j as int);
                }
                if completes {
                    self.entries.remove(j);
                    proof {
                        lemma_remove_entry(old_es, j as int);
                    }
                    return Some(CacheEntry { key, value });
                }
                self.entries.set(j, CacheEntry { key, value });
                proof {
                    let es = self.entries@;
                    assert(es =~= old_es.update(j as int, CacheEntry { key, value }));
                    assert forall|a: int, b: int|
                        0 <= a < es.len() && 0 <= b < es.len() && a != b implies key_view(#[trigger] es[a].key)
                        != key_view(#[trigger] es[b].key) by {
                        assert(key_view(es[a].key) == key_view(old_es[a].key));
                        assert(key_view(es[b].key) == key_view(old_es[b].key));
                    }
                    assert forall|k| #[trigger] entries_map(es).dom().contains(k) == entries_map(old_es).insert(kv, value).dom().contains(k) by {
                        if entries_map(es).dom().contains(k) {
                            let i = choose|i: int| 0 <= i < es.len() && key_view(es[i].key) == k;
                            assert(key_view(old_es[i].key) == k);
                        }
                        if entries_map(old_es).dom().contains(k) {
                            let i = choose|i: int| 0 <= i < old_es.len() && key_view(old_es[i].key) == k;
                            assert(key_view(es[i].key) == k);
                        }
                        if k == kv {
                            assert(key_view(es[j as int].key) == k);
                        }
                    }
                    assert forall|k| #[trigger] entries_map(es).dom().contains(k) implies entries_map(es)[k]
                        == entries_map(old_es).insert(kv, value)[k] by {
                        let i = choose|i: int| 0 <= i < es.len() && key_view(es[i].key) == k;
                        lemma_entries_map_at(es, i);
                        if i != j {
                            lemma_entries_map_at(old_es, i);
                        }
                    }
                    assert(entries_map(es) =~= entries_map(old_es).insert(kv, value));
                }
                None
            },
            None => {
                proof {
                    assert(!entries_map(old_es).dom().contains(kv));
                }
                self.entries.push(CacheEntry { key, value });
                proof {
                    let es = self.entries@;
                    let n = old_es.len() as int;
                    assert(es =~= old_es.push(CacheEntry { key, value }));
                    assert forall|a: int, b: int|
                        0 <= a < es.len() && 0 <= b < es.len() && a != b implies key_view(#[trigger] es[a].key)
                        != key_view(#[trigger] es[b].key) by {
                        if a < n && b < n {
                            assert(es[a] == old_es[a] && es[b] == old_es[b]);
                        } else if a < n {
                            assert(es[a] == old_es[a]);
                        } else {
                            assert(es[b] == old_es[b]);
                        }
                    }
                    assert forall|k| #[trigger] entries_map(es).dom().contains(k) == entries_map(old_es).insert(kv, value).dom().contains(k) by {
                        if entries_map(es).dom().contains(k) {
                            let i = choose|i: int| 0 <= i < es.len() && key_view(es[i].key) == k;
                            if i < n {
                                assert(es[i] == old_es[i]);
                            }
                        }
                        if entries_map(old_es).dom().contains(k) {
                            let i = choose|i: int| 0 <= i < old_es.len() && key_view(old_es[i].key) == k;
                            assert(es[i] == old_es[i]);
                        }
                        if k == kv {
                            assert(key_view(es[n].key) == k);
                        }
                    }
                    assert forall|k| #[trigger] entries_map(es).dom().contains(k) implies entries_map(es)[k]
                        == entries_map(old_es).insert(kv, value)[k] by {
                        let i = choose|i: int| 0 <= i < es.len() && key_view(es[i].key) == k;
                        lemma_entries_map_at(es, i);
                        if i < n {
                            assert(es[i] == old_es[i]);
                            lemma_entries_map_at(old_es, i);
                        }
                    }
                    assert(entries_map(es) =~= entries_map(old_es).insert(kv, value));
                }
                None
            },
        }
    }

    /// Takes the proposal under a key out of the store, without recording it.
    pub fn invalidate(&mut self, key: &AgreementProposalKey)
        requires
            old(self).wf(),
        ensures
            final(self).wf(),
            final(self)@ == old(self)@.remove(key_view(*key)),
    {
        let ghost old_es = self.entries@;
        match self.find(key) {
            Some(j) => {
                self.entries.remove(j);
                proof {
                    lemma_remove_entry(old_es, j as int);
                }
            },
            None => {
                proof {
                    assert(entries_map(old_es) =~= entries_map(old_es).remove(key_view(*key)));
                }
            },
        }
    }

    /// The proposals held, as saved on shutdown.
    pub fn saved(&self) -> (r: SavedChallengeCache)
        requires
            self.wf(),
        ensures
            keys_distinct(r.cache@),
            entries_map(r.cache@) == self@,
    {
        let mut out: Vec<CacheEntry> = Vec::new();
        let mut i: usize = 0;
        while i < self.entries.len()
            invariant
                i <= self.entries@.len(),
                out@.len() == i,
                forall|l: int| 0 <= l < i ==> same_entry(#[trigger] out@[l], self.entries@[l]),
            decreases self.entries@.len() - i,
        {
            let e = &self.entries[i];
            out.push(CacheEntry { key: copy_key(&e.key), value: e.value });
            i = i + 1;
        }
        proof {
            let es = self.entries@;
            let os = out@;
            assert(same_entry(os[0], es[0]) || os.len() == 0);
            lemma_same_entries_map(os, es);
        }
        SavedChallengeCache { cache: out }
    }

    /// A store filled with saved proposals, written one after the other, and
    /// the completed ones among them, which expire at once.
    pub fn restore(saved: &SavedChallengeCache) -> (r: (ProposalStore, Vec<CacheEntry>))
        ensures
            r.0.wf(),
            r.0@ == replayed(saved.cache@),
            r.1@.len() == completed_entries(saved.cache@).len(),
            forall|l: int| 0 <= l < r.1@.len() ==> same_entry(#[trigger] r.1@[l], completed_entries(saved.cache@)[l]),
    {
        let mut store = ProposalStore::new();
        let mut expired: Vec<CacheEntry> = Vec::new();
        let mut i: usize = 0;
        proof {
            assert(saved.cache@.take(0) =~= Seq::<CacheEntry>::empty());
            assert(store@ =~= replayed(saved.cache@.take(0)));
        }
        while i < saved.cache.len()
            invariant
                i <= saved.cache@.len(),
                store.wf(),
                store@ == replayed(saved.cache@.take(i as int)),
                expired@.len() == completed_entries(saved.cache@.take(i as int)).len(),
                forall|l: int| 0 <= l < expired@.len() ==> same_entry(#[trigger] expired@[l], completed_entries(saved.cache@.take(i as int))[l]),
            decreases saved.cache@.len() - i,
        {
            let e = &saved.cache[i];
            let ghost before = saved.cache@.take(i as int);
            let ghost after = saved.cache@.take(i + 1);
            assert(after.drop_last() =~= before);
            assert(after.last() == saved.cache@[i as int]);
            let ghost old_expired = expired@;
            match store.put(copy_key(&e.key), e.value) {
                Some(x) => {
                    expired.push(x);
                    assert forall|l: int| 0 <= l < expired@.len() implies same_entry(#[trigger] expired@[l], completed_entries(after)[l]) by {
                        if l < old_expired.len() {
                            assert(expired@[l] == old_expired[l]);
                        }
                    }
                },
                None => {},
            }
            i = i + 1;
        }
        assert(saved.cache@.take(i as int) =~= saved.cache@);
        (store, expired)
    }
}

/// An update that completes a held proposal takes its key out of the store;
/// a first write, or an update that does not complete the proposal, makes
/// the key hold it; other keys are left as they were.
pub proof fn law_completed_update_expires(
    m: Map<(Seq<char>, Seq<char>, Seq<char>), AgreementProposalValue>,
    k: (Seq<char>, Seq<char>, Seq<char>),
    v: AgreementProposalValue,
)
    ensures
        m.dom().contains(k) && agreed_and_signed(v) ==> !written(m, k, v).dom().contains(k),
        !(m.dom().contains(k) && agreed_and_signed(v)) ==> written(m, k, v).dom().contains(k) && written(m, k, v)[k] == v,
        forall|o| o != k ==> (#[trigger] written(m, k, v).dom().contains(o) == m.dom().contains(o)),
        forall|o| o != k && m.dom().contains(o) ==> #[trigger] written(m, k, v)[o] == m[o],
{
}

/// Restoring a saved store gives back the same proposals, and none of them
/// expires on the way. `saved` gives entries with distinct keys whose map is
/// the store, `restore` fills the store that `replayed` states and hands
/// back `completed_entries`; with each key once, every entry is a first
/// write.
pub proof fn law_restore_of_saved(es: Seq<CacheEntry>)
    requires
        keys_distinct(es),
    ensures
        replayed(es) == entries_map(es),
        completed_entries(es).len() == 0,
    decreases es.len(),
{
    if es.len() > 0 {
        let init = es.drop_last();
        let n = init.len() as int;
        assert(keys_distinct(init)) by {
            assert forall|a: int, b: int|
                0 <= a < init.len() && 0 <= b < init.len() && a != b implies key_view(#[trigger] init[a].key)
                != key_view(#[trigger] init[b].key) by {
                assert(init[a] == es[a] && init[b] == es[b]);
            }
        }
        law_restore_of_saved(init);
        let kv = key_view(es.last().key);
        assert(!entries_map(init).dom().contains(kv)) by {
            if entries_map(init).dom().contains(kv) {
                let i = choose|i: int| 0 <= i < init.len() && key_view(init[i].key) == kv;
                assert(init[i] == es[i]);
                assert(key_view(es[i].key) != key_view(es[n].key));
            }
        }
        assert forall|k| #[trigger] entries_map(es).dom().contains(k) == entries_map(init).insert(kv, es.last().value).dom().contains(k) by {
            if entries_map(es).dom().contains(k) {
                let i = choose|i: int| 0 <= i < es.len() && key_view(es[i].key) == k;
                if i < n {
                    assert(init[i] == es[i]);
                }
            }
            if entries_map(init).dom().contains(k) {
                let i = choose|i: int| 0 <= i < init.len() && key_view(init[i].key) == k;
                assert(init[i] == es[i]);
            }
            if k == kv {
                assert(key_view(es[n].key) == k);
            }
        }
        assert forall|k| #[trigger] entries_map(es).dom().contains(k) implies entries_map(es)[k]
            == entries_map(init).insert(kv, es.last().value)[k] by {
            let i = choose|i: int| 0 <= i < es.len() && key_view(es[i].key) == k;
            lemma_entries_map_at(es, i);
            if i < n {
                assert(init[i] == es[i]);
                lemma_entries_map_at(init, i);
            }
        }
        assert(entries_map(es) =~= entries_map(init).insert(kv, es.last().value));
    }
}

/// The agreement is generated after a confirmation only when the proposal
/// already existed and now carries both the tenant's and the landlord's
/// confirmation; it always is then.
pub proof fn law_generation_needs_both_confirmations(
    entry: Option<AgreementProposalValue>,
    updated: AgreementProposalValue,
)
    ensures
        generation_due(entry, updated) ==> updated.tenant_confirmed && updated.landlord_confirmed,
        generation_due(entry, updated) ==> entry is Some,
        entry is Some && updated.tenant_confirmed && updated.landlord_confirmed ==> generation_due(
            entry,
            updated,
        ),
{
}

/// A confirmation sets only the confirming party's flag: the tenant's when
/// the user is the tenant, the landlord's otherwise; every other flag is that
/// of the proposal (of a fresh one when there was none).
pub proof fn law_confirmation_sets_only_the_confirmer(
    entry: Option<AgreementProposalValue>,
    uid: Seq<char>,
    tenant_id: Seq<char>,
)
    ensures
        ({
            let before = match entry {
                Some(e) => e,
                None => AgreementProposalValue {
                    tenant_confirmed: false,
                    landlord_confirmed: false,
                    tenant_signed: false,
                    landlord_signed: false,
                },
            };
            let after = confirmed_by(entry, uid, tenant_id);
            &&& after.tenant_signed == before.tenant_signed
            &&& after.landlord_signed == before.landlord_signed
            &&& uid == tenant_id ==> after.tenant_confirmed && after.landlord_confirmed
                == before.landlord_confirmed
            &&& uid != tenant_id ==> after.landlord_confirmed && after.tenant_confirmed
                == before.tenant_confirmed
        }),
{
}

/// A signature sets only the signer's flag when tenant and landlord differ:
/// the tenant's signature leaves the landlord's flag as it was, and the
/// landlord's leaves the tenant's; confirmations are never touched. A first
/// signature starts from a proposal on which nobody has acted.
pub proof fn law_signature_sets_only_the_signer(
    entry: Option<AgreementProposalValue>,
    signer: Seq<char>,
    tenant_id: Seq<char>,
    landlord_id: Seq<char>,
)
    requires
        tenant_id != landlord_id,
    ensures
        ({
            let before = match entry {
                Some(e) => e,
                None => AgreementProposalValue {
                    tenant_confirmed: false,
                    landlord_confirmed: false,
                    tenant_signed: false,
                    landlord_signed: false,
                },
            };
            let after = signed_by_party(entry, signer, tenant_id, landlord_id);
            &&& after.tenant_confirmed == before.tenant_confirmed
            &&& after.landlord_confirmed == before.landlord_confirmed
            &&& signer == tenant_id ==> after.tenant_signed && after.landlord_signed
                == before.landlord_signed
            &&& signer != tenant_id ==> after.landlord_signed && after.tenant_signed
                == before.tenant_signed
        }),
{
}

/// When the tenant is also the landlord, that user's signature of an
/// existing proposal sets both signatures and leaves the confirmations.
pub proof fn law_self_signature_signs_both(e: AgreementProposalValue, user: Seq<char>)
    ensures
        ({
            let after = signed_by_party(Some(e), user, user, user);
            &&& after.tenant_signed && after.landlord_signed
            &&& after.tenant_confirmed == e.tenant_confirmed
            &&& after.landlord_confirmed == e.landlord_confirmed
        }),
{
}

/// A proposal expires exactly when all four flags are set.
pub proof fn law_expiry_needs_all_four_flags(v: AgreementProposalValue)
    ensures
        agreed_and_signed(v) <==> (v.tenant_confirmed && v.landlord_confirmed && v.tenant_signed
            && v.landlord_signed),
{
}

} // verus!
