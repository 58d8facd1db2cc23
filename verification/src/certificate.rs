//! The data held by the registry: certificates, totals and errors.

use vstd::prelude::*;

verus! {

/// One issued certificate. Only `valid` ever changes after issuance. The
/// three texts are plain bytes; the registry never looks inside them.
#[derive(Clone, Debug)]
pub struct Certificate {
    /// Unique identifier, assigned from 1 upwards.
    pub cert_id: u64,
    /// Recipient's name.
    pub recipient: Vec<u8>,
    /// Issuer's name.
    pub issuer: Vec<u8>,
    /// Course or title.
    pub course: Vec<u8>,
    /// Ledger time at issuance.
    pub issue_date: u64,
    /// `true` until the certificate is revoked.
    pub valid: bool,
}

/// A certificate as a mathematical value.
pub struct CertificateView {
    pub cert_id: u64,
    pub recipient: Seq<u8>,
    pub issuer: Seq<u8>,
    pub course: Seq<u8>,
    pub issue_date: u64,
    pub valid: bool,
}

impl View for Certificate {
    type V = CertificateView;

    open spec fn view(&self) -> CertificateView {
        CertificateView {
            cert_id: self.cert_id,
            recipient: self.recipient@,
            issuer: self.issuer@,
            course: self.course@,
            issue_date: self.issue_date,
            valid: self.valid,
        }
    }
}

/// Whether a text is short enough for a host string, which holds at most
/// `u32::MAX` bytes.
pub open spec fn text_fits(text: Seq<u8>) -> bool {
    text.len() <= u32::MAX
}

/// Whether the three texts of a certificate fit into host strings.
pub open spec fn texts_fit(c: CertificateView) -> bool {
    text_fits(c.recipient) && text_fits(c.issuer) && text_fits(c.course)
}

/// Running totals of issuances and revocations.
#[derive(Clone, Copy, Debug, PartialEq, Eq, Structural)]
pub struct CertificateStatus {
    /// Number of certificates ever issued.
    pub total_issued: u64,
    /// Number of successful revocations.
    pub total_revoked: u64,
}

/// The totals that a stored value stands for: nothing stored means that
/// nothing was issued yet.
pub open spec fn status_or_zero(stored: Option<CertificateStatus>) -> CertificateStatus {
    match stored {
        Some(s) => s,
        None => CertificateStatus { total_issued: 0, total_revoked: 0 },
    }
}

impl CertificateStatus {
    /// Reads a stored value of the totals, `{0, 0}` where none was stored.
    pub fn from_stored(stored: Option<CertificateStatus>) -> (status: CertificateStatus)
        ensures
            status == status_or_zero(stored),
    {
        match stored {
            Some(s) => s,
            None => CertificateStatus { total_issued: 0, total_revoked: 0 },
        }
    }
}

/// Why an operation on a certificate was refused. Each kind carries the
/// identifier that was asked for.
#[derive(Clone, Copy, Debug, PartialEq, Eq, Structural)]
pub enum RegistryError {
    /// No certificate has this identifier.
    NotFound(u64),
    /// The certificate was revoked before.
    AlreadyRevoked(u64),
}

impl RegistryError {
    /// The identifier that the refused operation asked for.
    pub fn cert_id(&self) -> (id: u64)
        ensures
            id == match *self {
                RegistryError::NotFound(i) => i,
                RegistryError::AlreadyRevoked(i) => i,
            },
    {
        match *self {
            RegistryError::NotFound(i) => i,
            RegistryError::AlreadyRevoked(i) => i,
        }
    }

    /// A fixed message for each kind of refusal.
    pub fn message(&self) -> (m: &'static str)
        ensures
            (*self is NotFound) ==> m@ == "Certificate ID not found"@,
            (*self is AlreadyRevoked) ==> m@ == "Certificate already revoked!"@,
    {
        match *self {
            RegistryError::NotFound(_) => "Certificate ID not found",
            RegistryError::AlreadyRevoked(_) => "Certificate already revoked!",
        }
    }
}

} // verus!
