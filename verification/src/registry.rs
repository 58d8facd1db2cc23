//! The registry itself: the five operations over the ledger map, and the
//! way in and out of what it persists.

use vstd::prelude::*;
use crate::certificate::{
    status_or_zero, text_fits, Certificate, CertificateStatus, CertificateView, RegistryError,
};
use crate::host::{
    ledger_entries, ledger_map_get, ledger_map_is_typed, ledger_map_len, ledger_map_new,
    ledger_map_set, ledger_timestamp, ledger_typed, RecordMap,
};
use crate::model::{
    id_range, lemma_id_range_fills, lemma_id_range_len, lemma_issue_wf, lemma_revoke_wf,
    revoked_upto, RegistryState,
};

verus! {

/// The registry that three stored values stand for. A value that was never
/// stored reads as zero, as `{0, 0}`, or as the empty map.
pub open spec fn stored_state(
    counter: Option<u64>,
    status: Option<CertificateStatus>,
    certs: Option<RecordMap>,
) -> RegistryState {
    RegistryState {
        counter: match counter {
            Some(c) => c,
            None => 0,
        },
        status: status_or_zero(status),
        certs: match certs {
            Some(m) => ledger_entries(m),
            None => Map::empty(),
        },
    }
}

/// The certificate registry: counter, totals and the map of records.
pub struct CertificateContract {
    counter: u64,
    status: CertificateStatus,
    certs: RecordMap,
}

impl View for CertificateContract {
    type V = RegistryState;

    closed spec fn view(&self) -> RegistryState {
        RegistryState {
            counter: self.counter,
            status: self.status,
            certs: ledger_entries(self.certs),
        }
    }
}

impl CertificateContract {
    /// Whether every pair of the underlying host map is a record.
    pub closed spec fn typed(&self) -> bool {
        ledger_typed(self.certs)
    }

    /// What every registry satisfies: its state meets the invariant of
    /// `RegistryState`, and its host map holds records only.
    pub open spec fn inv(&self) -> bool {
        self@.wf() && self.typed()
    }

    /// A registry that has issued nothing yet.
    pub fn new(env: &soroban_sdk::Env) -> (reg: CertificateContract)
        ensures
            reg@ == RegistryState::empty(),
            reg.inv(),
    {
        let reg = CertificateContract {
            counter: 0,
            status: CertificateStatus { total_issued: 0, total_revoked: 0 },
            certs: ledger_map_new(env),
        };
        assert(reg@.certs =~= Map::<u64, CertificateView>::empty());
        reg
    }

    /// Rebuilds a registry from what may have been stored under its three
    /// keys. A value that was never stored reads as in `stored_state`; the
    /// values are accepted exactly where `restore` accepts them.
    pub fn from_stored(
        counter: Option<u64>,
        status: Option<CertificateStatus>,
        certs: Option<RecordMap>,
        env: &soroban_sdk::Env,
    ) -> (reg: Option<CertificateContract>)
        ensures
            reg is Some <==> stored_state(counter, status, certs).wf() && (certs is Some
                ==> ledger_typed(certs->Some_0)),
            reg is Some ==> reg->Some_0@ == stored_state(counter, status, certs)
                && reg->Some_0.inv(),
    {
        let counter_value: u64 = match counter {
            Some(c) => c,
            None => 0,
        };
        let status_value = CertificateStatus::from_stored(status);
        let map = match certs {
            Some(m) => m,
            None => {
                let fresh = ledger_map_new(env);
                assert(ledger_entries(fresh) =~= Map::<u64, CertificateView>::empty());
                fresh
            },
        };
        CertificateContract::restore(counter_value, status_value, map)
    }

    /// Rebuilds a registry from the three values it persists. The values are
    /// accepted exactly where the map holds records only and the three
    /// satisfy the registry's invariant, which takes one read of every
    /// record to decide.
    pub fn restore(
        counter: u64,
        status: CertificateStatus,
        certs: RecordMap,
    ) -> (reg: Option<CertificateContract>)
        ensures
            reg is Some <==> ledger_typed(certs) && (RegistryState {
                counter,
                status,
                certs: ledger_entries(certs),
            }).wf(),
            reg is Some ==> reg->Some_0@ == (RegistryState {
                counter,
                status,
                certs: ledger_entries(certs),
            }) && reg->Some_0.inv(),
    {
        let ghost given = RegistryState { counter, status, certs: ledger_entries(certs) };
        proof {
            lemma_id_range_len(counter);
            if given.wf() {
                assert(given.certs.dom() =~= id_range(counter));
            }
        }
        if !ledger_map_is_typed(&certs) {
            return None;
        }
        if status.total_issued != counter {
            return None;
        }
        let pairs: u32 = ledger_map_len(&certs);
        if pairs as u64 != counter {
            return None;
        }
        let mut revoked: u64 = 0;
        let mut id: u64 = 0;
        while id < counter
            invariant
                id <= counter,
                revoked <= id,
                revoked == revoked_upto(given.certs, id as nat),
                ledger_typed(certs),
                given == (RegistryState { counter, status, certs: ledger_entries(certs) }),
                forall|k: u64|
                    1 <= k <= id ==> #[trigger] given.certs.contains_key(k) && given.certs[k].cert_id
                        == k,
            decreases counter - id,
        {
            id = id + 1;
            match ledger_map_get(&certs, id) {
                None => {
                    return None;
                },
                Some(cert) => {
                    assert(given.certs.contains_key(id) && given.certs[id] == cert@);
                    if cert.cert_id != id {
                        return None;
                    }
                    if !cert.valid {
                        revoked = revoked + 1;
                    }
                    assert(given.certs[id].cert_id == id);
                },
            }
        }
        if revoked != status.total_revoked {
            return None;
        }
        proof {
            assert(id_range(counter).subset_of(given.certs.dom()));
            lemma_id_range_fills(given.certs.dom(), counter);
        }
        Some(CertificateContract { counter, status, certs })
    }

    /// Takes the registry apart into the three values it persists: the
    /// counter, the totals and the map of records.
    pub fn into_parts(self) -> (parts: (u64, CertificateStatus, RecordMap))
        ensures
            self@ == (RegistryState {
                counter: parts.0,
                status: parts.1,
                certs: ledger_entries(parts.2),
            }),
            self.typed() == ledger_typed(parts.2),
    {
        (self.counter, self.status, self.certs)
    }

    /// Issues a certificate dated by the ledger's clock and returns its
    /// identifier. The date is whatever the host reports; everything else is
    /// fixed by the arguments. The host map holds at most `u32::MAX`
    /// records and a host string at most `u32::MAX` bytes, so the counter
    /// must leave room for one more and the texts must fit.
    pub fn issue_certificate(
        &mut self,
        env: &soroban_sdk::Env,
        recipient: Vec<u8>,
        issuer: Vec<u8>,
        course: Vec<u8>,
    ) -> (id: u64)
        requires
            old(self).inv(),
            old(self)@.counter < u32::MAX,
            text_fits(recipient@),
            text_fits(issuer@),
            text_fits(course@),
        ensures
            id == old(self)@.next_id(),
            final(self)@ == old(self)@.issue(
                recipient@,
                issuer@,
                course@,
                final(self)@.certs[id].issue_date,
            ),
            final(self).inv(),
    {
        let now = ledger_timestamp(env);
        self.issue_at(recipient, issuer, course, now)
    }

    /// Issues a certificate dated `now` and returns its identifier, the
    /// successor of the last one handed out.
    pub fn issue_at(
        &mut self,
        recipient: Vec<u8>,
        issuer: Vec<u8>,
        course: Vec<u8>,
        now: u64,
    ) -> (id: u64)
        requires
            old(self).inv(),
            old(self)@.counter < u32::MAX,
            text_fits(recipient@),
            text_fits(issuer@),
            text_fits(course@),
        ensures
            id == old(self)@.next_id(),
            final(self)@ == old(self)@.issue(recipient@, issuer@, course@, now),
            final(self).inv(),
    {
        let id: u64 = self.counter + 1;
        let cert = Certificate {
            cert_id: id,
            recipient,
            issuer,
            course,
            issue_date: now,
            valid: true,
        };
        proof {
            lemma_id_range_len(self.counter);
            assert(self@.certs.dom() =~= id_range(self.counter));
        }
        ledger_map_set(&mut self.certs, id, cert);

        let mut status = self.view_cert_status();
        status.total_issued = status.total_issued + 1;
        self.status = status;
        self.counter = id;

        proof {
            lemma_issue_wf(old(self)@, recipient@, issuer@, course@, now);
            assert(self@.certs =~= old(self)@.issue(recipient@, issuer@, course@, now).certs);
        }
        id
    }

    /// Revokes the certificate `cert_id`. Refused with `NotFound` where no
    /// such certificate exists and with `AlreadyRevoked` where it was revoked
    /// before; a refused call changes nothing.
    pub fn revoke_certificate(&mut self, cert_id: u64) -> (outcome: Result<(), RegistryError>)
        requires
            old(self).inv(),
        ensures
            outcome == old(self)@.revoke_outcome(cert_id),
            final(self)@ == old(self)@.revoke(cert_id),
            final(self).inv(),
    {
        match ledger_map_get(&self.certs, cert_id) {
            None => Err(RegistryError::NotFound(cert_id)),
            Some(found) => {
                let mut cert = found;
                if !cert.valid {
                    return Err(RegistryError::AlreadyRevoked(cert_id));
                }
                cert.valid = false;
                proof {
                    lemma_revoke_wf(old(self)@, cert_id);
                }
                ledger_map_set(&mut self.certs, cert_id, cert);

                let mut status = self.view_cert_status();
                status.total_revoked = status.total_revoked + 1;
                self.status = status;

                proof {
                    assert(self@.certs =~= old(self)@.revoke(cert_id).certs);
                }
                Ok(())
            },
        }
    }

    /// The running totals. Never fails; `{0, 0}` before the first issuance.
    pub fn view_cert_status(&self) -> (status: CertificateStatus)
        ensures
            status == self@.status,
    {
        self.status
    }

    /// A copy of the certificate `cert_id`, or `NotFound`.
    pub fn view_certificate(&self, cert_id: u64) -> (found: Result<Certificate, RegistryError>)
        requires
            self.inv(),
        ensures
            found is Ok <==> self@.lookup(cert_id) is Ok,
            found is Ok ==> found->Ok_0@ == self@.lookup(cert_id)->Ok_0,
            found is Err ==> found->Err_0 == RegistryError::NotFound(cert_id),
    {
        match ledger_map_get(&self.certs, cert_id) {
            Some(cert) => Ok(cert),
            None => Err(RegistryError::NotFound(cert_id)),
        }
    }

    /// Whether the certificate `cert_id` is still valid, or `NotFound`.
    /// The registry is left as it was.
    pub fn verify_certificate(&self, cert_id: u64) -> (answer: Result<bool, RegistryError>)
        requires
            self.inv(),
        ensures
            answer == self@.verify(cert_id),
    {
        match ledger_map_get(&self.certs, cert_id) {
            Some(cert) => Ok(cert.valid),
            None => Err(RegistryError::NotFound(cert_id)),
        }
    }
}

} // verus!
