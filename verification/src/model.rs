//! The registry as a mathematical value, and its transitions.

use vstd::prelude::*;
use crate::certificate::{CertificateStatus, CertificateView, RegistryError};

verus! {

/// Everything the registry holds: the last identifier handed out, the
/// running totals, and the certificates by identifier.
pub struct RegistryState {
    pub counter: u64,
    pub status: CertificateStatus,
    pub certs: Map<u64, CertificateView>,
}

/// How many of the identifiers `1 ..= n` belong to a revoked certificate.
pub open spec fn revoked_upto(certs: Map<u64, CertificateView>, n: nat) -> nat
    decreases n,
{
    if n == 0 {
        0
    } else {
        revoked_upto(certs, (n - 1) as nat) + if certs.contains_key(n as u64) && !certs[n as u64].valid {
            1nat
        } else {
            0nat
        }
    }
}

/// The identifiers `1 ..= n`.
pub open spec fn id_range(n: u64) -> Set<u64> {
    Set::new(|id: u64| 1 <= id <= n)
}

/// There are `n` identifiers in `1 ..= n`.
pub proof fn lemma_id_range_len(n: u64)
    ensures
        id_range(n).finite(),
        id_range(n).len() == n,
    decreases n,
{
    if n == 0 {
        assert(id_range(0) =~= Set::<u64>::empty());
    } else {
        let m = (n - 1) as u64;
        lemma_id_range_len(m);
        assert(id_range(n) =~= id_range(m).insert(n));
    }
}

/// A set of `n` identifiers that holds all of `1 ..= n` holds nothing else.
pub proof fn lemma_id_range_fills(ids: Set<u64>, n: u64)
    requires
        ids.finite(),
        ids.len() == n,
        id_range(n).subset_of(ids),
    ensures
        ids =~= id_range(n),
{
    lemma_id_range_len(n);
    vstd::set_lib::lemma_subset_equality(id_range(n), ids);
}

/// The certificate that `issue` creates.
pub open spec fn fresh_certificate(
    id: u64,
    recipient: Seq<u8>,
    issuer: Seq<u8>,
    course: Seq<u8>,
    now: u64,
) -> CertificateView {
    CertificateView { cert_id: id, recipient, issuer, course, issue_date: now, valid: true }
}

/// A certificate after revocation: the same record, no longer valid.
pub open spec fn revoked_copy(c: CertificateView) -> CertificateView {
    CertificateView { valid: false, ..c }
}

impl RegistryState {
    /// The registry before any certificate was issued.
    pub open spec fn empty() -> RegistryState {
        RegistryState {
            counter: 0,
            status: CertificateStatus { total_issued: 0, total_revoked: 0 },
            certs: Map::empty(),
        }
    }

    /// The registry's invariant: the identifiers in use are exactly
    /// `1 ..= counter`, each certificate is stored under its own identifier,
    /// `total_issued` equals the counter, and `total_revoked` counts the
    /// revoked certificates.
    pub open spec fn wf(self) -> bool {
        &&& self.status.total_issued == self.counter
        &&& forall|id: u64| #[trigger] self.certs.contains_key(id) <==> 1 <= id <= self.counter
        &&& forall|id: u64| #[trigger]
            self.certs.contains_key(id) ==> self.certs[id].cert_id == id
        &&& self.status.total_revoked == revoked_upto(self.certs, self.counter as nat)
    }

    /// The identifier that the next issuance hands out.
    pub open spec fn next_id(self) -> int {
        self.counter + 1
    }

    /// The registry after issuing one certificate at time `now`.
    pub open spec fn issue(
        self,
        recipient: Seq<u8>,
        issuer: Seq<u8>,
        course: Seq<u8>,
        now: u64,
    ) -> RegistryState
        recommends
            self.counter < u64::MAX,
            self.status.total_issued < u64::MAX,
    {
        let id = (self.counter + 1) as u64;
        RegistryState {
            counter: id,
            status: CertificateStatus {
                total_issued: (self.status.total_issued + 1) as u64,
                total_revoked: self.status.total_revoked,
            },
            certs: self.certs.insert(id, fresh_certificate(id, recipient, issuer, course, now)),
        }
    }

    /// Whether `revoke(id)` is accepted, and the refusal if it is not.
    pub open spec fn revoke_outcome(self, id: u64) -> Result<(), RegistryError> {
        if !self.certs.contains_key(id) {
            Err(RegistryError::NotFound(id))
        } else if !self.certs[id].valid {
            Err(RegistryError::AlreadyRevoked(id))
        } else {
            Ok(())
        }
    }

    /// The registry after `revoke(id)`: unchanged where the call is refused.
    pub open spec fn revoke(self, id: u64) -> RegistryState {
        if self.revoke_outcome(id) is Ok {
            RegistryState {
                counter: self.counter,
                status: CertificateStatus {
                    total_issued: self.status.total_issued,
                    total_revoked: (self.status.total_revoked + 1) as u64,
                },
                certs: self.certs.insert(id, revoked_copy(self.certs[id])),
            }
        } else {
            self
        }
    }

    /// What `verify(id)` answers.
    pub open spec fn verify(self, id: u64) -> Result<bool, RegistryError> {
        if self.certs.contains_key(id) {
            Ok(self.certs[id].valid)
        } else {
            Err(RegistryError::NotFound(id))
        }
    }

    /// What `view_certificate(id)` answers.
    pub open spec fn lookup(self, id: u64) -> Result<CertificateView, RegistryError> {
        if self.certs.contains_key(id) {
            Ok(self.certs[id])
        } else {
            Err(RegistryError::NotFound(id))
        }
    }
}

/// The count of revoked certificates among `1 ..= n` is at most `n`.
pub proof fn lemma_revoked_upto_bound(certs: Map<u64, CertificateView>, n: nat)
    ensures
        revoked_upto(certs, n) <= n,
    decreases n,
{
    if n > 0 {
        lemma_revoked_upto_bound(certs, (n - 1) as nat);
    }
}

/// Two maps that agree on `1 ..= n` in which certificates are revoked have
/// the same count there.
pub proof fn lemma_revoked_upto_agree(a: Map<u64, CertificateView>, b: Map<u64, CertificateView>, n: nat)
    requires
        n <= u64::MAX,
        forall|id: u64|
            1 <= id <= n ==> ((#[trigger] a.contains_key(id) && !a[id].valid) <==> (b.contains_key(id)
                && !b[id].valid)),
    ensures
        revoked_upto(a, n) == revoked_upto(b, n),
    decreases n,
{
    if n > 0 {
        lemma_revoked_upto_agree(a, b, (n - 1) as nat);
        assert(a.contains_key(n as u64) && !a[n as u64].valid <==> b.contains_key(n as u64)
            && !b[n as u64].valid);
    }
}

/// Marking one valid certificate among `1 ..= n` as revoked raises the count
/// by one.
pub proof fn lemma_revoked_upto_flip(certs: Map<u64, CertificateView>, id: u64, n: nat)
    requires
        n <= u64::MAX,
        1 <= id <= n,
        certs.contains_key(id),
        certs[id].valid,
    ensures
        revoked_upto(certs.insert(id, revoked_copy(certs[id])), n) == revoked_upto(certs, n) + 1,
    decreases n,
{
    let after = certs.insert(id, revoked_copy(certs[id]));
    if n == id {
        lemma_revoked_upto_agree(certs, after, (n - 1) as nat);
    } else {
        lemma_revoked_upto_flip(certs, id, (n - 1) as nat);
    }
}

/// Issuing keeps the invariant, as long as the counter has room.
pub proof fn lemma_issue_wf(
    s: RegistryState,
    recipient: Seq<u8>,
    issuer: Seq<u8>,
    course: Seq<u8>,
    now: u64,
)
    requires
        s.wf(),
        s.counter < u64::MAX,
    ensures
        s.issue(recipient, issuer, course, now).wf(),
{
    let after = s.issue(recipient, issuer, course, now);
    lemma_revoked_upto_agree(s.certs, after.certs, s.counter as nat);
}

/// Revoking keeps the invariant; where the call is accepted, fewer
/// certificates were revoked before it than were issued.
pub proof fn lemma_revoke_wf(s: RegistryState, id: u64)
    requires
        s.wf(),
    ensures
        s.revoke(id).wf(),
        s.revoke_outcome(id) is Ok ==> s.status.total_revoked < s.status.total_issued,
{
    if s.revoke_outcome(id) is Ok {
        assert(s.certs.contains_key(id));
        let flipped = s.certs.insert(id, revoked_copy(s.certs[id]));
        lemma_revoked_upto_flip(s.certs, id, s.counter as nat);
        lemma_revoked_upto_bound(flipped, s.counter as nat);
    }
}

} // verus!
