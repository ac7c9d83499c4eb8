//! The key cache: verification keys for bearer tokens, keyed by key
//! identifier, populated lazily from the identity provider's published key
//! set.
//!
//! The cache itself is pure state. The upstream fetch is network I/O and is
//! performed by the caller; `get_key_after_fetch` consumes its outcome, so
//! the slow path of the cache is verified for every possible fetch result.

use vstd::prelude::*;
use crate::bykey::{lemma_map_by_dom, lemma_map_by_pairs, spec_map_by};
use crate::models::clone_opt_string;
use crate::strutil::str_eq;

verus! {

/// One entry of the provider's published key set, as decoded from the certs
/// endpoint's JSON body. Optional members may be absent in the document.
#[derive(Debug)]
pub struct JwkEntry {
    pub kid: String,
    pub kty: String,
    pub alg: Option<String>,
    pub n: Option<String>,
    pub e: Option<String>,
    pub key_use: Option<String>,
}

/// A verification-ready public signing key: an RSA key with both of its
/// components present.
#[derive(Debug)]
pub struct SigningKey {
    pub kid: String,
    pub kty: String,
    pub n: String,
    pub e: String,
    pub alg: Option<String>,
}

impl Clone for SigningKey {
    fn clone(&self) -> (r: Self)
        ensures
            r == *self,
    {
        SigningKey {
            kid: self.kid.clone(),
            kty: self.kty.clone(),
            n: self.n.clone(),
            e: self.e.clone(),
            alg: clone_opt_string(&self.alg),
        }
    }
}

/// An entry is usable when it is an RSA key supplying both modulus and
/// exponent components.
pub open spec fn spec_usable(e: JwkEntry) -> bool {
    e.kty@ == "RSA"@ && e.n is Some && e.e is Some
}

/// The signing key built from a usable entry.
pub open spec fn spec_key_of(e: JwkEntry) -> SigningKey {
    SigningKey { kid: e.kid, kty: e.kty, n: e.n->Some_0, e: e.e->Some_0, alg: e.alg }
}

/// The parse of one entry: a key for usable entries, nothing otherwise.
pub open spec fn spec_parse_one(e: JwkEntry) -> Option<SigningKey> {
    if spec_usable(e) {
        Some(spec_key_of(e))
    } else {
        None
    }
}

/// The keys parsed out of a fetched key set, in document order.
pub open spec fn spec_parse_key_set(s: Seq<JwkEntry>) -> Seq<SigningKey> {
    s.filter_map(|e: JwkEntry| spec_parse_one(e))
}

/// Parses a fetched key set: keeps every RSA entry that supplies both
/// modulus and exponent, in document order, and drops the rest.
pub fn parse_key_set(entries: &Vec<JwkEntry>) -> (r: Vec<SigningKey>)
    ensures
        r@ == spec_parse_key_set(entries@),
{
    let mut out: Vec<SigningKey> = Vec::new();
    let mut i: usize = 0;
    while i < entries.len()
        invariant
            i <= entries.len(),
            out@ == spec_parse_key_set(entries@.take(i as int)),
        decreases entries.len() - i,
    {
        let e = &entries[i];
        if str_eq(e.kty.as_str(), "RSA") {
            match (&e.n, &e.e) {
                (Some(nv), Some(ev)) => {
                    out.push(
                        SigningKey {
                            kid: e.kid.clone(),
                            kty: e.kty.clone(),
                            n: nv.clone(),
                            e: ev.clone(),
                            alg: clone_opt_string(&e.alg),
                        },
                    );
                },
                _ => {},
            }
        }
        proof {
            entries@.lemma_filter_map_take_succ(|en: JwkEntry| spec_parse_one(en), i as int);
        }
        i += 1;
    }
    proof {
        assert(entries@.take(entries@.len() as int) =~= entries@);
    }
    out
}

/// The key of a signing key in the cache: its key identifier.
pub open spec fn key_id() -> spec_fn(SigningKey) -> Seq<char> {
    |k: SigningKey| k.kid@
}

/// The map after merging a list of fetched keys into a cache map: each
/// fetched key is added unless its identifier is already present.
pub open spec fn spec_merged(m: Map<Seq<char>, SigningKey>, ks: Seq<SigningKey>) -> Map<
    Seq<char>,
    SigningKey,
>
    decreases ks.len(),
{
    if ks.len() == 0 {
        m
    } else {
        let prev = spec_merged(m, ks.drop_last());
        let k = ks.last();
        if prev.dom().contains(k.kid@) {
            prev
        } else {
            prev.insert(k.kid@, k)
        }
    }
}

/// After a merge, an identifier is present exactly when it was cached
/// before or occurs in the merged list.
pub proof fn lemma_merged_dom(m: Map<Seq<char>, SigningKey>, ks: Seq<SigningKey>)
    ensures
        forall|kid: Seq<char>| #[trigger]
            spec_merged(m, ks).dom().contains(kid) <==> (m.dom().contains(kid) || exists|i: int|
                0 <= i < ks.len() && #[trigger] ks[i].kid@ == kid),
    decreases ks.len(),
{
    if ks.len() > 0 {
        lemma_merged_dom(m, ks.drop_last());
        assert forall|kid: Seq<char>| #[trigger]
            spec_merged(m, ks).dom().contains(kid) implies (m.dom().contains(kid) || exists|i: int|
            0 <= i < ks.len() && #[trigger] ks[i].kid@ == kid) by {
            if !m.dom().contains(kid) {
                if spec_merged(m, ks.drop_last()).dom().contains(kid) {
                    let i = choose|i: int|
                        0 <= i < ks.drop_last().len() && #[trigger] ks.drop_last()[i].kid@ == kid;
                    assert(ks[i].kid@ == kid);
                } else {
                    assert(ks[ks.len() - 1].kid@ == kid);
                }
            }
        }
        assert forall|kid: Seq<char>|
            (m.dom().contains(kid) || exists|i: int|
                0 <= i < ks.len() && #[trigger] ks[i].kid@ == kid) implies #[trigger] spec_merged(
            m,
            ks,
        ).dom().contains(kid) by {
            if !m.dom().contains(kid) {
                let i = choose|i: int| 0 <= i < ks.len() && #[trigger] ks[i].kid@ == kid;
                if i < ks.len() - 1 {
                    assert(ks.drop_last()[i].kid@ == kid);
                    assert(spec_merged(m, ks.drop_last()).dom().contains(kid));
                } else {
                    assert(ks.last().kid@ == kid);
                }
            } else {
                assert(spec_merged(m, ks.drop_last()).dom().contains(kid));
            }
        }
    }
}

/// Keys are immutable once cached: a merge never changes the key an already
/// cached identifier maps to.
pub proof fn lemma_merge_keeps_cached_keys(m: Map<Seq<char>, SigningKey>, ks: Seq<SigningKey>)
    ensures
        forall|kid: Seq<char>|
            m.dom().contains(kid) ==> #[trigger] spec_merged(m, ks).dom().contains(kid)
                && spec_merged(m, ks)[kid] == m[kid],
    decreases ks.len(),
{
    if ks.len() > 0 {
        lemma_merge_keeps_cached_keys(m, ks.drop_last());
        assert forall|kid: Seq<char>|
            m.dom().contains(kid) implies #[trigger] spec_merged(m, ks).dom().contains(kid)
            && spec_merged(m, ks)[kid] == m[kid] by {
            assert(spec_merged(m, ks.drop_last()).dom().contains(kid));
            assert(spec_merged(m, ks.drop_last())[kid] == m[kid]);
        }
    }
}

/// Every key an identifier gains from a merge comes from the merged list.
pub proof fn lemma_merged_new_keys_from_list(m: Map<Seq<char>, SigningKey>, ks: Seq<SigningKey>)
    ensures
        forall|kid: Seq<char>|
            !m.dom().contains(kid) && #[trigger] spec_merged(m, ks).dom().contains(kid)
                ==> exists|i: int|
                0 <= i < ks.len() && #[trigger] ks[i].kid@ == kid && spec_merged(m, ks)[kid]
                    == ks[i],
    decreases ks.len(),
{
    if ks.len() > 0 {
        lemma_merged_new_keys_from_list(m, ks.drop_last());
        assert forall|kid: Seq<char>|
            !m.dom().contains(kid) && #[trigger] spec_merged(m, ks).dom().contains(
                kid,
            ) implies exists|i: int|
            0 <= i < ks.len() && #[trigger] ks[i].kid@ == kid && spec_merged(m, ks)[kid]
                == ks[i] by {
            let prev = spec_merged(m, ks.drop_last());
            if prev.dom().contains(kid) {
                let i = choose|i: int|
                    0 <= i < ks.drop_last().len() && #[trigger] ks.drop_last()[i].kid@ == kid
                        && prev[kid] == ks.drop_last()[i];
                assert(ks[i].kid@ == kid && spec_merged(m, ks)[kid] == ks[i]);
            } else {
                assert(ks[ks.len() - 1].kid@ == kid && spec_merged(m, ks)[kid] == ks[ks.len() - 1]);
            }
        }
    }
}

/// Errors of the key cache: the identifier is not in the provider's key set
/// even after a fetch, or the fetch itself failed (transport, status or
/// body-parse failure, rendered as text).
#[derive(Debug)]
pub enum KeyError {
    KeyNotFound,
    KeyFetchFailed(String),
}

/// Process-wide cache of verified public signing keys, keyed by key
/// identifier. Initialized empty; populated by merging fetched key sets;
/// never evicts.
pub struct KeyCache {
    keys: Vec<SigningKey>,
}

impl KeyCache {
    /// Key identifiers in the cache are unique.
    pub closed spec fn wf(self) -> bool {
        forall|i: int, j: int|
            0 <= i < j < self.keys@.len() ==> key_id()(self.keys@[i]) != key_id()(self.keys@[j])
    }

    /// The mapping from key identifier to cached key.
    pub closed spec fn key_map(self) -> Map<Seq<char>, SigningKey> {
        spec_map_by(self.keys@, key_id())
    }

    /// A new cache holds no keys.
    pub fn new() -> (r: KeyCache)
        ensures
            r.wf(),
            r.key_map() == Map::<Seq<char>, SigningKey>::empty(),
    {
        KeyCache { keys: Vec::new() }
    }

    /// Whether the cache holds a key for this identifier.
    pub fn contains_kid(&self, kid: &str) -> (r: bool)
        requires
            self.wf(),
        ensures
            r == self.key_map().dom().contains(kid@),
    {
        let mut i: usize = 0;
        while i < self.keys.len()
            invariant
                i <= self.keys.len(),
                forall|j: int| 0 <= j < i ==> self.keys@[j].kid@ != kid@,
            decreases self.keys.len() - i,
        {
            if str_eq(self.keys[i].kid.as_str(), kid) {
                proof {
                    lemma_map_by_dom(self.keys@, key_id());
                    assert(key_id()(self.keys@[i as int]) == kid@);
                    assert(spec_map_by(self.keys@, key_id()).dom().contains(kid@));
                }
                return true;
            }
            i += 1;
        }
        proof {
            lemma_map_by_dom(self.keys@, key_id());
        }
        false
    }

    /// The fast path of key retrieval: the cached key for an identifier, or
    /// nothing, without I/O.
    pub fn lookup(&self, kid: &str) -> (r: Option<SigningKey>)
        requires
            self.wf(),
        ensures
            match r {
                Some(k) => self.key_map().contains_pair(kid@, k),
                None => !self.key_map().dom().contains(kid@),
            },
    {
        let mut i: usize = 0;
        while i < self.keys.len()
            invariant
                i <= self.keys.len(),
                forall|j: int| 0 <= j < i ==> self.keys@[j].kid@ != kid@,
                self.wf(),
            decreases self.keys.len() - i,
        {
            if str_eq(self.keys[i].kid.as_str(), kid) {
                proof {
                    lemma_map_by_pairs(self.keys@, key_id());
                    assert(spec_map_by(self.keys@, key_id()).contains_pair(
                        key_id()(self.keys@[i as int]),
                        self.keys@[i as int],
                    ));
                    assert(key_id()(self.keys@[i as int]) == kid@);
                }
                return Some(self.keys[i].clone());
            }
            i += 1;
        }
        proof {
            lemma_map_by_dom(self.keys@, key_id());
        }
        None
    }

    /// Merges a list of keys into the cache. Every identifier already cached
    /// keeps its key; identifiers seen for the first time gain theirs.
    pub fn merge(&mut self, new_keys: Vec<SigningKey>)
        requires
            old(self).wf(),
        ensures
            final(self).wf(),
            final(self).key_map() == spec_merged(old(self).key_map(), new_keys@),
    {
        let mut i: usize = 0;
        while i < new_keys.len()
            invariant
                i <= new_keys.len(),
                self.wf(),
                self.key_map() == spec_merged(old(self).key_map(), new_keys@.take(i as int)),
            decreases new_keys.len() - i,
        {
            proof {
                assert(new_keys@.take(i as int + 1).drop_last() =~= new_keys@.take(i as int));
                assert(new_keys@.take(i as int + 1).last() == new_keys@[i as int]);
            }
            let k = &new_keys[i];
            if !self.contains_kid(k.kid.as_str()) {
                proof {
                    lemma_map_by_dom(self.keys@, key_id());
                    assert(self.keys@.push(new_keys@[i as int]).drop_last() =~= self.keys@);
                }
                self.keys.push(k.clone());
            }
            i += 1;
        }
        proof {
            assert(new_keys@.take(new_keys@.len() as int) =~= new_keys@);
        }
    }

    /// The slow path of key retrieval, entered when the identifier was not
    /// cached: consumes the outcome of the upstream fetch of the provider's
    /// key set. On a fetch failure nothing is cached and the failure is
    /// reported; on success the parsed keys are merged and the identifier is
    /// looked up again — a key exactly when the merged cache now has one,
    /// `KeyNotFound` otherwise.
    pub fn get_key_after_fetch(&mut self, kid: &str, fetched: Result<Vec<JwkEntry>, String>) -> (r:
        Result<SigningKey, KeyError>)
        requires
            old(self).wf(),
        ensures
            final(self).wf(),
            match fetched {
                Err(d) => *final(self) == *old(self) && (r matches Err(ke) && ke matches
                    KeyError::KeyFetchFailed(dd) && dd == d),
                Ok(entries) => {
                    &&& final(self).key_map() == spec_merged(
                        old(self).key_map(),
                        spec_parse_key_set(entries@),
                    )
                    &&& match r {
                        Ok(k) => final(self).key_map().contains_pair(kid@, k),
                        Err(ke) => ke == KeyError::KeyNotFound
                            && !(final(self).key_map().dom().contains(kid@)),
                    }
                },
            },
    {
        match fetched {
            Err(detail) => Err(KeyError::KeyFetchFailed(detail)),
            Ok(entries) => {
                let parsed = parse_key_set(&entries);
                self.merge(parsed);
                match self.lookup(kid) {
                    Some(k) => Ok(k),
                    None => Err(KeyError::KeyNotFound),
                }
            },
        }
    }
}

/// Every parsed key keeps the identifier of the usable entry it came from.
pub proof fn lemma_parsed_keys_from_entries(entries: Seq<JwkEntry>)
    ensures
        forall|j: int|
            0 <= j < spec_parse_key_set(entries).len() ==> exists|i: int|
                0 <= i < entries.len() && spec_usable(#[trigger] entries[i]) && #[trigger]
                    spec_parse_key_set(entries)[j] == spec_key_of(entries[i]),
    decreases entries.len(),
{
    if entries.len() > 0 {
        let rest = entries.drop_last();
        lemma_parsed_keys_from_entries(rest);
        let parsed = spec_parse_key_set(entries);
        let prev = spec_parse_key_set(rest);
        assert forall|j: int| 0 <= j < parsed.len() implies exists|i: int|
            0 <= i < entries.len() && spec_usable(#[trigger] entries[i]) && #[trigger] parsed[j]
                == spec_key_of(entries[i]) by {
            if j < prev.len() {
                let i = choose|i: int|
                    0 <= i < rest.len() && spec_usable(#[trigger] rest[i]) && prev[j] == spec_key_of(
                        rest[i],
                    );
                assert(parsed[j] == spec_key_of(entries[i]) && spec_usable(entries[i]));
            } else {
                assert(spec_usable(entries[entries.len() - 1]));
                assert(parsed[j] == spec_key_of(entries[entries.len() - 1]));
            }
        }
    }
}

/// A usable entry's key is among the parsed keys.
pub proof fn lemma_usable_entry_is_parsed(entries: Seq<JwkEntry>, i: int)
    requires
        0 <= i < entries.len(),
        spec_usable(entries[i]),
    ensures
        exists|j: int|
            0 <= j < spec_parse_key_set(entries).len() && #[trigger] spec_parse_key_set(entries)[j]
                == spec_key_of(entries[i]),
    decreases entries.len(),
{
    let rest = entries.drop_last();
    let parsed = spec_parse_key_set(entries);
    let prev = spec_parse_key_set(rest);
    if i == entries.len() - 1 {
        assert(parsed[parsed.len() - 1] == spec_key_of(entries[i]));
    } else {
        lemma_usable_entry_is_parsed(rest, i);
        let j = choose|j: int| 0 <= j < prev.len() && #[trigger] prev[j] == spec_key_of(rest[i]);
        assert(parsed[j] == spec_key_of(entries[i]));
    }
}

/// A key identifier absent from the cache but carried by a usable entry of
/// the fetched key set is available after one fetch-and-merge.
pub proof fn lemma_missing_key_found_after_fetch(
    m: Map<Seq<char>, SigningKey>,
    entries: Seq<JwkEntry>,
    kid: Seq<char>,
)
    requires
        exists|i: int|
            0 <= i < entries.len() && spec_usable(#[trigger] entries[i]) && entries[i].kid@ == kid,
    ensures
        spec_merged(m, spec_parse_key_set(entries)).dom().contains(kid),
{
    let i = choose|i: int|
        0 <= i < entries.len() && spec_usable(#[trigger] entries[i]) && entries[i].kid@ == kid;
    lemma_usable_entry_is_parsed(entries, i);
    let parsed = spec_parse_key_set(entries);
    let j = choose|j: int| 0 <= j < parsed.len() && #[trigger] parsed[j] == spec_key_of(entries[i]);
    lemma_merged_dom(m, parsed);
    assert(parsed[j].kid@ == kid);
}

/// A key identifier absent from the cache and not carried by any usable
/// entry of the fetched key set is still absent after the merge: the cache
/// never invents a key.
pub proof fn lemma_absent_key_stays_absent(
    m: Map<Seq<char>, SigningKey>,
    entries: Seq<JwkEntry>,
    kid: Seq<char>,
)
    requires
        !m.dom().contains(kid),
        forall|i: int|
            0 <= i < entries.len() ==> !(spec_usable(#[trigger] entries[i]) && entries[i].kid@
                == kid),
    ensures
        !spec_merged(m, spec_parse_key_set(entries)).dom().contains(kid),
{
    let parsed = spec_parse_key_set(entries);
    lemma_parsed_keys_from_entries(entries);
    lemma_merged_dom(m, parsed);
    assert forall|j: int| 0 <= j < parsed.len() implies #[trigger] parsed[j].kid@ != kid by {
        let i = choose|i: int|
            0 <= i < entries.len() && spec_usable(#[trigger] entries[i]) && parsed[j] == spec_key_of(
                entries[i],
            );
        assert(parsed[j].kid@ == entries[i].kid@);
    }
}

} // verus!
