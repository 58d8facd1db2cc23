//! What the registry takes from the Soroban host: the ledger clock and the
//! host-side map that holds the records. Nothing in this file is proved;
//! each contract restates what the SDK's source shows.

use vstd::prelude::*;
use crate::certificate::{texts_fit, Certificate, CertificateView};

verus! {

/// `soroban_sdk::Env`, the handle to the host. Carried through, never read.
#[verifier::external_type_specification]
#[verifier::external_body]
pub struct ExEnv(soroban_sdk::Env);

/// `soroban_sdk::String`, a text held by the host. Records hold their three
/// texts in this form; the registry itself handles bytes.
#[verifier::external_type_specification]
#[verifier::external_body]
pub struct ExString(soroban_sdk::String);

/// `soroban_sdk::Map`, a map held by the host. What one holds is spoken of
/// through `ledger_entries` and `ledger_typed`.
#[verifier::external_type_specification]
#[verifier::external_body]
#[verifier::reject_recursive_types(K)]
#[verifier::reject_recursive_types(V)]
pub struct ExMap<K, V>(soroban_sdk::Map<K, V>);

/// A certificate as the host map stores it: the six fields in declaration
/// order, the texts as host strings.
pub type HostRecord = (u64, soroban_sdk::String, soroban_sdk::String, soroban_sdk::String, u64, bool);

/// The host map in which the registry keeps its records.
pub type RecordMap = soroban_sdk::Map<u64, HostRecord>;

/// Whether every pair of the host map is what the type says: a `u64` key
/// and a six-field record. The SDK does not promise this of a map that was
/// read from storage.
pub uninterp spec fn ledger_typed(m: RecordMap) -> bool;

/// The pairs of a host map whose pairs are all typed, each text read as its bytes.
pub uninterp spec fn ledger_entries(m: RecordMap) -> Map<u64, CertificateView>;

/// A set with exactly `n` members.
pub open spec fn counts(keys: Set<u64>, n: nat) -> bool {
    keys.finite() && keys.len() == n
}

/// Whether the map can take a value under `k`: the host replaces a value
/// under a key it holds, and refuses a new key once it holds `u32::MAX` pairs.
pub open spec fn has_room_for(m: RecordMap, k: u64) -> bool {
    ledger_entries(m).contains_key(k) || (ledger_entries(m).dom().finite() && ledger_entries(
        m,
    ).dom().len() < u32::MAX)
}

/// `soroban_sdk::ledger::Ledger::timestamp`: the close time of the current
/// ledger. Nothing is claimed of the value; it is whatever the host reports.
#[verifier::external_body]
pub(crate) fn ledger_timestamp(env: &soroban_sdk::Env) -> (now: u64)
{
    env.ledger().timestamp()
}

/// `soroban_sdk::Map::new`: a fresh map that holds no pair.
#[verifier::external_body]
pub(crate) fn ledger_map_new(env: &soroban_sdk::Env) -> (m: RecordMap)
    ensures
        ledger_typed(m),
        forall|k: u64| !ledger_entries(m).contains_key(k),
{
    soroban_sdk::Map::new(env)
}

/// `soroban_sdk::Map::try_iter`: walks the pairs and converts each key and
/// value to the map's types. The answer is whether every conversion succeeds.
#[verifier::external_body]
pub(crate) fn ledger_map_is_typed(m: &RecordMap) -> (ok: bool)
    ensures
        ok == ledger_typed(*m),
{
    m.try_iter().all(|pair| pair.is_ok())
}

/// `soroban_sdk::Map::get` on a typed map: the record stored under `k`, its
/// texts copied out as bytes, or `None` where the map holds no such key. A
/// host string holds at most `u32::MAX` bytes, so the texts that come out
/// are no longer.
#[verifier::external_body]
pub(crate) fn ledger_map_get(m: &RecordMap, k: u64) -> (r: Option<Certificate>)
    requires
        ledger_typed(*m),
    ensures
        r is Some <==> ledger_entries(*m).contains_key(k),
        r is Some ==> r->Some_0@ == ledger_entries(*m)[k],
        r is Some ==> texts_fit(r->Some_0@),
{
    match m.get(k) {
        Some(t) => Some(Certificate {
            cert_id: t.0,
            recipient: t.1.to_bytes().iter().collect(),
            issuer: t.2.to_bytes().iter().collect(),
            course: t.3.to_bytes().iter().collect(),
            issue_date: t.4,
            valid: t.5,
        }),
        None => None,
    }
}

/// `soroban_sdk::Map::set` on a typed map with room for `k`: stores the
/// record under `k`, replacing what was there, and touches no other key.
/// The texts become host strings of the map's own environment, through
/// `soroban_sdk::String::from_bytes`, which takes at most `u32::MAX` bytes.
#[verifier::external_body]
pub(crate) fn ledger_map_set(m: &mut RecordMap, k: u64, c: Certificate)
    requires
        ledger_typed(*old(m)),
        has_room_for(*old(m), k),
        texts_fit(c@),
    ensures
        ledger_typed(*final(m)),
        ledger_entries(*final(m)) == ledger_entries(*old(m)).insert(k, c@),
{
    let env = m.env().clone();
    let recipient = soroban_sdk::String::from_bytes(&env, &c.recipient);
    let issuer = soroban_sdk::String::from_bytes(&env, &c.issuer);
    let course = soroban_sdk::String::from_bytes(&env, &c.course);
    m.set(k, (c.cert_id, recipient, issuer, course, c.issue_date, c.valid))
}

/// `soroban_sdk::Map::len` on a typed map: the number of pairs, which is the
/// number of keys.
#[verifier::external_body]
pub(crate) fn ledger_map_len(m: &RecordMap) -> (n: u32)
    requires
        ledger_typed(*m),
    ensures
        counts(ledger_entries(*m).dom(), n as nat),
{
    m.len()
}

} // verus!
