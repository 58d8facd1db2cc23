//! Properties of the registry that span several operations, stated over
//! the transitions of `RegistryState`.

use vstd::prelude::*;
use crate::certificate::RegistryError;
use crate::model::{
    fresh_certificate, id_range, lemma_id_range_len, lemma_issue_wf, lemma_revoke_wf,
    lemma_revoked_upto_bound, RegistryState,
};

verus! {

/// What one call of `issue` is given: the three texts and the ledger time.
pub struct IssueRequest {
    pub recipient: Seq<u8>,
    pub issuer: Seq<u8>,
    pub course: Seq<u8>,
    pub now: u64,
}

/// The registry after the requests were issued one after the other.
pub open spec fn issue_all(s: RegistryState, reqs: Seq<IssueRequest>) -> RegistryState
    decreases reqs.len(),
{
    if reqs.len() == 0 {
        s
    } else {
        let q = reqs.last();
        issue_all(s, reqs.drop_last()).issue(q.recipient, q.issuer, q.course, q.now)
    }
}

/// Any run of issuances advances the counter and `total_issued` by the
/// number of calls, keeps the invariant, and leaves `total_revoked` alone.
pub proof fn law_issue_run(s: RegistryState, reqs: Seq<IssueRequest>)
    requires
        s.wf(),
        s.counter + reqs.len() <= u64::MAX,
    ensures
        issue_all(s, reqs).wf(),
        issue_all(s, reqs).counter == s.counter + reqs.len(),
        issue_all(s, reqs).status.total_issued == s.status.total_issued + reqs.len(),
        issue_all(s, reqs).status.total_revoked == s.status.total_revoked,
    decreases reqs.len(),
{
    if reqs.len() > 0 {
        let q = reqs.last();
        law_issue_run(s, reqs.drop_last());
        lemma_issue_wf(issue_all(s, reqs.drop_last()), q.recipient, q.issuer, q.course, q.now);
    }
}

/// Starting from the empty registry, the calls of `issue` return
/// `1, 2, 3, ...` in call order: the call that follows `k` earlier ones
/// returns `k + 1`. After all of them `total_issued` is the number of calls.
pub proof fn law_issue_numbers_from_one(reqs: Seq<IssueRequest>)
    requires
        reqs.len() <= u64::MAX,
    ensures
        issue_all(RegistryState::empty(), reqs).status.total_issued == reqs.len(),
        issue_all(RegistryState::empty(), reqs).counter == reqs.len(),
        forall|k: int|
            0 <= k < reqs.len() ==> #[trigger] issue_all(
                RegistryState::empty(),
                reqs.take(k),
            ).next_id() == k + 1,
{
    let start = RegistryState::empty();
    assert(start.wf());
    law_issue_run(start, reqs);
    assert forall|k: int| 0 <= k < reqs.len() implies #[trigger] issue_all(
        start,
        reqs.take(k),
    ).next_id() == k + 1 by {
        law_issue_run(start, reqs.take(k));
    }
}

/// `total_revoked` never exceeds `total_issued`.
pub proof fn law_revoked_at_most_issued(s: RegistryState)
    requires
        s.wf(),
    ensures
        s.status.total_revoked <= s.status.total_issued,
{
    lemma_revoked_upto_bound(s.certs, s.counter as nat);
}

/// The registry holds as many certificates as the counter says, and
/// `total_issued` says the same.
pub proof fn law_entry_count(s: RegistryState)
    requires
        s.wf(),
    ensures
        s.certs.dom().finite(),
        s.certs.dom().len() == s.counter,
        s.certs.dom().len() == s.status.total_issued,
{
    lemma_id_range_len(s.counter);
    assert(s.certs.dom() =~= id_range(s.counter));
}

/// An issuance adds exactly one entry, under the returned identifier; a
/// revocation adds and removes none.
pub proof fn law_entries_only_grow(s: RegistryState, q: IssueRequest, id: u64)
    requires
        s.wf(),
    ensures
        s.counter < u64::MAX ==> s.issue(q.recipient, q.issuer, q.course, q.now).certs.dom()
            == s.certs.dom().insert(s.next_id() as u64),
        s.counter < u64::MAX ==> !s.certs.contains_key(s.next_id() as u64),
        s.revoke(id).certs.dom() == s.certs.dom(),
{
    assert(s.revoke(id).certs.dom() =~= s.certs.dom());
    if s.counter < u64::MAX {
        assert(s.issue(q.recipient, q.issuer, q.course, q.now).certs.dom() =~= s.certs.dom().insert(
            s.next_id() as u64,
        ));
    }
}

/// Nothing but the `valid` flag of a stored certificate ever changes, and
/// that flag only from `true` to `false`.
pub proof fn law_record_is_immutable(s: RegistryState, k: u64, q: IssueRequest, id: u64)
    requires
        s.wf(),
        s.certs.contains_key(k),
    ensures
        s.counter < u64::MAX ==> s.issue(q.recipient, q.issuer, q.course, q.now).certs[k]
            == s.certs[k],
        ({
            let before = s.certs[k];
            let after = s.revoke(id).certs[k];
            &&& s.revoke(id).certs.contains_key(k)
            &&& after.cert_id == before.cert_id
            &&& after.recipient == before.recipient
            &&& after.issuer == before.issuer
            &&& after.course == before.course
            &&& after.issue_date == before.issue_date
            &&& after.valid ==> before.valid
            &&& after.valid == (before.valid && !(id == k))
        }),
{
}

/// Every operation keeps the invariant.
pub proof fn law_invariant_kept(s: RegistryState, q: IssueRequest, id: u64)
    requires
        s.wf(),
    ensures
        RegistryState::empty().wf(),
        s.counter < u64::MAX ==> s.issue(q.recipient, q.issuer, q.course, q.now).wf(),
        s.revoke(id).wf(),
{
    if s.counter < u64::MAX {
        lemma_issue_wf(s, q.recipient, q.issuer, q.course, q.now);
    }
    lemma_revoke_wf(s, id);
}

/// A certificate just issued can be looked up under the returned
/// identifier: it carries the texts and the time it was issued with, and
/// it is valid.
pub proof fn law_issue_then_view(s: RegistryState, q: IssueRequest)
    requires
        s.wf(),
        s.counter < u64::MAX,
    ensures
        ({
            let id = s.next_id() as u64;
            let after = s.issue(q.recipient, q.issuer, q.course, q.now);
            &&& after.lookup(id) == Ok::<_, RegistryError>(
                fresh_certificate(id, q.recipient, q.issuer, q.course, q.now),
            )
            &&& after.verify(id) == Ok::<_, RegistryError>(true)
        }),
{
}

/// Revoking a valid certificate is accepted; afterwards `verify` answers
/// `false`, a second `revoke` is refused with `AlreadyRevoked`, and
/// `total_revoked` has grown by one.
pub proof fn law_revoke_once(s: RegistryState, id: u64)
    requires
        s.wf(),
        s.verify(id) == Ok::<_, RegistryError>(true),
    ensures
        s.revoke_outcome(id) == Ok::<_, RegistryError>(()),
        s.revoke(id).verify(id) == Ok::<_, RegistryError>(false),
        s.revoke(id).revoke_outcome(id) == Err::<(), _>(RegistryError::AlreadyRevoked(id)),
        s.revoke(id).revoke(id) == s.revoke(id),
        s.revoke(id).status.total_revoked == s.status.total_revoked + 1,
        s.revoke(id).status.total_issued == s.status.total_issued,
{
    lemma_revoke_wf(s, id);
}

/// A certificate just issued can be revoked exactly once.
pub proof fn law_issue_then_revoke(s: RegistryState, q: IssueRequest)
    requires
        s.wf(),
        s.counter < u64::MAX,
    ensures
        ({
            let id = s.next_id() as u64;
            let issued = s.issue(q.recipient, q.issuer, q.course, q.now);
            &&& issued.revoke_outcome(id) == Ok::<_, RegistryError>(())
            &&& issued.revoke(id).verify(id) == Ok::<_, RegistryError>(false)
            &&& issued.revoke(id).revoke_outcome(id) == Err::<(), _>(
                RegistryError::AlreadyRevoked(id),
            )
        }),
{
    let issued = s.issue(q.recipient, q.issuer, q.course, q.now);
    lemma_issue_wf(s, q.recipient, q.issuer, q.course, q.now);
    law_revoke_once(issued, s.next_id() as u64);
}

/// An identifier that was never handed out is unknown to every operation.
pub proof fn law_never_issued_not_found(s: RegistryState, id: u64)
    requires
        s.wf(),
        id == 0 || id > s.counter,
    ensures
        s.revoke_outcome(id) == Err::<(), _>(RegistryError::NotFound(id)),
        s.revoke(id) == s,
        s.verify(id) == Err::<bool, _>(RegistryError::NotFound(id)),
        s.lookup(id) is Err,
        s.lookup(id)->Err_0 == RegistryError::NotFound(id),
{
}

/// No operation touches a certificate other than the one it is about:
/// after an issuance, or the revocation of another certificate, `verify`
/// and `view_certificate` answer for `id` what they answered before. In
/// particular a revoked certificate stays revoked.
pub proof fn law_other_operations_leave_certificate(
    s: RegistryState,
    id: u64,
    q: IssueRequest,
    other: u64,
)
    requires
        s.wf(),
        s.certs.contains_key(id),
        other != id,
    ensures
        s.revoke(other).verify(id) == s.verify(id),
        s.revoke(other).lookup(id) == s.lookup(id),
        s.counter < u64::MAX ==> s.issue(q.recipient, q.issuer, q.course, q.now).verify(id)
            == s.verify(id),
        s.counter < u64::MAX ==> s.issue(q.recipient, q.issuer, q.course, q.now).lookup(id)
            == s.lookup(id),
{
}

/// Revocation is final: once `verify` answers `false` for a certificate,
/// it answers `false` after any further operation.
pub proof fn law_revoked_is_terminal(s: RegistryState, id: u64, q: IssueRequest, any: u64)
    requires
        s.wf(),
        s.verify(id) == Ok::<_, RegistryError>(false),
    ensures
        s.revoke(any).verify(id) == Ok::<_, RegistryError>(false),
        s.counter < u64::MAX ==> s.issue(q.recipient, q.issuer, q.course, q.now).verify(id)
            == Ok::<_, RegistryError>(false),
{
}

/// `verify` is a function of the registry's state alone, and of the one
/// certificate it asks for: two registries that hold the same certificate
/// under `id` give the same answer, whatever their totals.
pub proof fn law_verify_repeatable(a: RegistryState, b: RegistryState, id: u64)
    requires
        a.certs.contains_key(id) == b.certs.contains_key(id),
        a.certs.contains_key(id) ==> a.certs[id] == b.certs[id],
    ensures
        a.verify(id) == b.verify(id),
{
}

} // verus!
