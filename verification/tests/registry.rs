use cert_registry::{
    Certificate, CertificateContract, CertificateStatus, HostRecord, RecordMap, RegistryError,
};
use soroban_sdk::testutils::{EnvTestConfig, Ledger};
use soroban_sdk::{Env, String, TryFromVal};

fn quiet_env() -> Env {
    Env::new_with_config(EnvTestConfig { capture_snapshot_at_drop: false })
}

fn text(_env: &Env, s: &str) -> Vec<u8> {
    s.as_bytes().to_vec()
}

fn issue(reg: &mut CertificateContract, env: &Env, r: &str, i: &str, c: &str) -> u64 {
    reg.issue_certificate(env, text(env, r), text(env, i), text(env, c))
}

#[test]
fn issue_returns_consecutive_ids_from_one() {
    let env = quiet_env();
    let mut reg = CertificateContract::new(&env);
    for expected in 1u64..=25 {
        let id = issue(&mut reg, &env, "Ada", "Uni", "Logic");
        assert_eq!(id, expected);
        assert_eq!(reg.view_cert_status().total_issued, expected);
        assert_eq!(reg.view_cert_status().total_revoked, 0);
    }
}

#[test]
fn issued_certificate_can_be_viewed() {
    let env = quiet_env();
    env.ledger().set_timestamp(1_700_000_123);
    let mut reg = CertificateContract::new(&env);
    let id = issue(&mut reg, &env, "A", "B", "C");
    assert_eq!(id, 1);
    let cert: Certificate = reg.view_certificate(id).unwrap();
    assert_eq!(cert.cert_id, 1);
    assert_eq!(cert.recipient, text(&env, "A"));
    assert_eq!(cert.issuer, text(&env, "B"));
    assert_eq!(cert.course, text(&env, "C"));
    assert_eq!(cert.issue_date, 1_700_000_123);
    assert!(cert.valid);
}

#[test]
fn issue_date_follows_the_ledger_clock() {
    let env = quiet_env();
    let mut reg = CertificateContract::new(&env);
    env.ledger().set_timestamp(10);
    let first = issue(&mut reg, &env, "A", "B", "C");
    env.ledger().set_timestamp(99);
    let second = issue(&mut reg, &env, "D", "E", "F");
    assert_eq!(reg.view_certificate(first).unwrap().issue_date, 10);
    assert_eq!(reg.view_certificate(second).unwrap().issue_date, 99);
    env.ledger().set_timestamp(500);
    assert_eq!(reg.view_certificate(first).unwrap().issue_date, 10);
}

#[test]
fn issue_at_uses_the_given_time() {
    let env = quiet_env();
    env.ledger().set_timestamp(5);
    let mut reg = CertificateContract::new(&env);
    let id = reg.issue_at(text(&env, "R"), text(&env, "I"), text(&env, "K"), 42);
    assert_eq!(id, 1);
    let cert = reg.view_certificate(1).unwrap();
    assert_eq!(cert.issue_date, 42);
    assert_eq!(cert.recipient, text(&env, "R"));
    assert_eq!(cert.issuer, text(&env, "I"));
    assert_eq!(cert.course, text(&env, "K"));
}

#[test]
fn empty_texts_are_accepted() {
    let env = quiet_env();
    let mut reg = CertificateContract::new(&env);
    let id = issue(&mut reg, &env, "", "", "");
    let cert = reg.view_certificate(id).unwrap();
    assert_eq!(cert.recipient, text(&env, ""));
    assert!(cert.valid);
}

#[test]
fn revoke_then_verify_then_revoke_again() {
    let env = quiet_env();
    let mut reg = CertificateContract::new(&env);
    let id = issue(&mut reg, &env, "A", "B", "C");
    assert_eq!(reg.verify_certificate(id), Ok(true));
    assert_eq!(reg.revoke_certificate(id), Ok(()));
    assert_eq!(reg.verify_certificate(id), Ok(false));
    assert_eq!(reg.revoke_certificate(id), Err(RegistryError::AlreadyRevoked(id)));
    assert_eq!(reg.verify_certificate(id), Ok(false));
    assert_eq!(
        reg.view_cert_status(),
        CertificateStatus { total_issued: 1, total_revoked: 1 }
    );
}

#[test]
fn revoke_keeps_the_rest_of_the_record() {
    let env = quiet_env();
    env.ledger().set_timestamp(77);
    let mut reg = CertificateContract::new(&env);
    let id = issue(&mut reg, &env, "A", "B", "C");
    reg.revoke_certificate(id).unwrap();
    let cert = reg.view_certificate(id).unwrap();
    assert_eq!(cert.cert_id, id);
    assert_eq!(cert.recipient, text(&env, "A"));
    assert_eq!(cert.issuer, text(&env, "B"));
    assert_eq!(cert.course, text(&env, "C"));
    assert_eq!(cert.issue_date, 77);
    assert!(!cert.valid);
}

#[test]
fn unknown_id_is_not_found() {
    let env = quiet_env();
    let mut reg = CertificateContract::new(&env);
    issue(&mut reg, &env, "A", "B", "C");
    assert_eq!(reg.revoke_certificate(999), Err(RegistryError::NotFound(999)));
    assert_eq!(reg.verify_certificate(999), Err(RegistryError::NotFound(999)));
    assert!(matches!(reg.view_certificate(999), Err(RegistryError::NotFound(999))));
    assert_eq!(reg.revoke_certificate(0), Err(RegistryError::NotFound(0)));
    assert_eq!(
        reg.view_cert_status(),
        CertificateStatus { total_issued: 1, total_revoked: 0 }
    );
}

#[test]
fn unknown_id_on_empty_registry() {
    let env = quiet_env();
    let mut reg = CertificateContract::new(&env);
    assert_eq!(reg.revoke_certificate(1), Err(RegistryError::NotFound(1)));
    assert_eq!(reg.verify_certificate(1), Err(RegistryError::NotFound(1)));
    assert!(matches!(reg.view_certificate(1), Err(RegistryError::NotFound(1))));
}

#[test]
fn status_after_three_issued_one_revoked() {
    let env = quiet_env();
    let mut reg = CertificateContract::new(&env);
    issue(&mut reg, &env, "A", "B", "C");
    let second = issue(&mut reg, &env, "D", "E", "F");
    issue(&mut reg, &env, "G", "H", "I");
    reg.revoke_certificate(second).unwrap();
    assert_eq!(
        reg.view_cert_status(),
        CertificateStatus { total_issued: 3, total_revoked: 1 }
    );
    assert_eq!(reg.verify_certificate(1), Ok(true));
    assert_eq!(reg.verify_certificate(2), Ok(false));
    assert_eq!(reg.verify_certificate(3), Ok(true));
}

#[test]
fn status_of_new_registry_is_zero() {
    let env = quiet_env();
    let reg = CertificateContract::new(&env);
    assert_eq!(
        reg.view_cert_status(),
        CertificateStatus { total_issued: 0, total_revoked: 0 }
    );
}

#[test]
fn verify_is_repeatable_and_changes_nothing() {
    let env = quiet_env();
    let mut reg = CertificateContract::new(&env);
    let kept = issue(&mut reg, &env, "A", "B", "C");
    let gone = issue(&mut reg, &env, "D", "E", "F");
    reg.revoke_certificate(gone).unwrap();
    let before = reg.view_cert_status();
    for _ in 0..10 {
        assert_eq!(reg.verify_certificate(kept), Ok(true));
        assert_eq!(reg.verify_certificate(gone), Ok(false));
        assert_eq!(reg.view_cert_status(), before);
    }
    assert_eq!(before, CertificateStatus { total_issued: 2, total_revoked: 1 });
}

#[test]
fn failed_revoke_changes_nothing() {
    let env = quiet_env();
    let mut reg = CertificateContract::new(&env);
    let id = issue(&mut reg, &env, "A", "B", "C");
    reg.revoke_certificate(id).unwrap();
    let before = reg.view_cert_status();
    assert!(reg.revoke_certificate(id).is_err());
    assert!(reg.revoke_certificate(id + 1).is_err());
    assert_eq!(reg.view_cert_status(), before);
    assert_eq!(reg.verify_certificate(id), Ok(false));
}

#[test]
fn revoking_one_leaves_the_others_valid() {
    let env = quiet_env();
    let mut reg = CertificateContract::new(&env);
    for _ in 0..5 {
        issue(&mut reg, &env, "A", "B", "C");
    }
    reg.revoke_certificate(3).unwrap();
    let next = issue(&mut reg, &env, "X", "Y", "Z");
    assert_eq!(next, 6);
    for id in 1u64..=6 {
        assert_eq!(reg.verify_certificate(id), Ok(id != 3));
        assert_eq!(reg.view_certificate(id).unwrap().cert_id, id);
    }
    assert_eq!(
        reg.view_cert_status(),
        CertificateStatus { total_issued: 6, total_revoked: 1 }
    );
}

#[test]
fn total_revoked_never_exceeds_total_issued() {
    let env = quiet_env();
    let mut reg = CertificateContract::new(&env);
    for round in 1u64..=4 {
        let id = issue(&mut reg, &env, "A", "B", "C");
        if round % 2 == 0 {
            reg.revoke_certificate(id).unwrap();
            let _ = reg.revoke_certificate(id);
        }
        let st = reg.view_cert_status();
        assert!(st.total_revoked <= st.total_issued);
    }
    assert_eq!(
        reg.view_cert_status(),
        CertificateStatus { total_issued: 4, total_revoked: 2 }
    );
}

#[test]
fn error_messages_and_ids() {
    assert_eq!(RegistryError::NotFound(4).message(), "Certificate ID not found");
    assert_eq!(RegistryError::AlreadyRevoked(5).message(), "Certificate already revoked!");
    assert_eq!(RegistryError::NotFound(4).cert_id(), 4);
    assert_eq!(RegistryError::AlreadyRevoked(5).cert_id(), 5);
}

#[test]
fn parts_round_trip() {
    let env = quiet_env();
    let mut reg = CertificateContract::new(&env);
    issue(&mut reg, &env, "A", "B", "C");
    issue(&mut reg, &env, "D", "E", "F");
    reg.revoke_certificate(2).unwrap();
    let (counter, status, records) = reg.into_parts();
    assert_eq!(counter, 2);
    assert_eq!(status, CertificateStatus { total_issued: 2, total_revoked: 1 });
    assert_eq!(records.len(), 2);
    let mut back = CertificateContract::restore(counter, status, records).unwrap();
    assert_eq!(back.verify_certificate(1), Ok(true));
    assert_eq!(back.verify_certificate(2), Ok(false));
    assert_eq!(back.view_certificate(1).unwrap().recipient, text(&env, "A"));
    assert_eq!(issue(&mut back, &env, "G", "H", "I"), 3);
}

#[test]
fn restore_accepts_the_empty_registry() {
    let env = quiet_env();
    let records: RecordMap = soroban_sdk::Map::new(&env);
    let reg = CertificateContract::restore(
        0,
        CertificateStatus { total_issued: 0, total_revoked: 0 },
        records,
    );
    assert!(reg.is_some());
    assert_eq!(reg.unwrap().verify_certificate(1), Err(RegistryError::NotFound(1)));
}

fn record(env: &Env, id: u64, valid: bool) -> HostRecord {
    (
        id,
        String::from_str(env, "A"),
        String::from_str(env, "B"),
        String::from_str(env, "C"),
        7,
        valid,
    )
}

#[test]
fn restore_refuses_a_wrong_counter() {
    let env = quiet_env();
    let mut records: RecordMap = soroban_sdk::Map::new(&env);
    records.set(1, record(&env, 1, true));
    let status = CertificateStatus { total_issued: 2, total_revoked: 0 };
    assert!(CertificateContract::restore(2, status, records.clone()).is_none());
    let status = CertificateStatus { total_issued: 1, total_revoked: 0 };
    assert!(CertificateContract::restore(2, status, records.clone()).is_none());
    assert!(CertificateContract::restore(0, status, records.clone()).is_none());
    assert!(CertificateContract::restore(1, status, records).is_some());
}

#[test]
fn restore_refuses_a_gap_in_the_identifiers() {
    let env = quiet_env();
    let mut records: RecordMap = soroban_sdk::Map::new(&env);
    records.set(1, record(&env, 1, true));
    records.set(3, record(&env, 3, true));
    let status = CertificateStatus { total_issued: 2, total_revoked: 0 };
    assert!(CertificateContract::restore(2, status, records).is_none());
}

#[test]
fn restore_refuses_a_record_under_another_identifier() {
    let env = quiet_env();
    let mut records: RecordMap = soroban_sdk::Map::new(&env);
    records.set(1, record(&env, 1, true));
    records.set(2, record(&env, 5, true));
    let status = CertificateStatus { total_issued: 2, total_revoked: 0 };
    assert!(CertificateContract::restore(2, status, records).is_none());
}

#[test]
fn restore_refuses_a_wrong_revocation_total() {
    let env = quiet_env();
    let mut records: RecordMap = soroban_sdk::Map::new(&env);
    records.set(1, record(&env, 1, false));
    records.set(2, record(&env, 2, true));
    let zero = CertificateStatus { total_issued: 2, total_revoked: 0 };
    let two = CertificateStatus { total_issued: 2, total_revoked: 2 };
    let one = CertificateStatus { total_issued: 2, total_revoked: 1 };
    assert!(CertificateContract::restore(2, zero, records.clone()).is_none());
    assert!(CertificateContract::restore(2, two, records.clone()).is_none());
    let reg = CertificateContract::restore(2, one, records).unwrap();
    assert_eq!(reg.view_cert_status(), one);
    assert_eq!(reg.verify_certificate(1), Ok(false));
    assert_eq!(reg.verify_certificate(2), Ok(true));
}

#[test]
fn restore_refuses_records_beyond_the_counter() {
    let env = quiet_env();
    let mut records: RecordMap = soroban_sdk::Map::new(&env);
    records.set(1, record(&env, 1, true));
    records.set(2, record(&env, 2, true));
    let status = CertificateStatus { total_issued: 1, total_revoked: 0 };
    assert!(CertificateContract::restore(1, status, records.clone()).is_none());
    records.set(0, record(&env, 0, true));
    let status = CertificateStatus { total_issued: 2, total_revoked: 0 };
    assert!(CertificateContract::restore(2, status, records).is_none());
}

#[test]
fn restored_records_give_their_texts_back() {
    let env = quiet_env();
    let mut records: RecordMap = soroban_sdk::Map::new(&env);
    records.set(1, record(&env, 1, true));
    let status = CertificateStatus { total_issued: 1, total_revoked: 0 };
    let reg = CertificateContract::restore(1, status, records).unwrap();
    let cert: Certificate = reg.view_certificate(1).unwrap();
    assert_eq!(cert.recipient, b"A".to_vec());
    assert_eq!(cert.issuer, b"B".to_vec());
    assert_eq!(cert.course, b"C".to_vec());
    assert_eq!(cert.issue_date, 7);
}

#[test]
fn stored_texts_are_host_strings() {
    let env = quiet_env();
    let mut reg = CertificateContract::new(&env);
    reg.issue_at(vec![0xff, 0x00, 0x41], b"Uni".to_vec(), Vec::new(), 3);
    let (_, _, records) = reg.into_parts();
    let stored = records.get(1).unwrap();
    assert_eq!(stored.0, 1);
    assert_eq!(stored.1, String::from_bytes(&env, &[0xff, 0x00, 0x41]));
    assert_eq!(stored.2, String::from_str(&env, "Uni"));
    assert_eq!(stored.3, String::from_str(&env, ""));
    assert_eq!(stored.4, 3);
    assert!(stored.5);
}

#[test]
fn texts_need_not_be_utf8() {
    let env = quiet_env();
    let mut reg = CertificateContract::new(&env);
    let id = reg.issue_at(vec![0xff, 0xfe], vec![0x00], vec![0x80, 0x41], 1);
    let cert = reg.view_certificate(id).unwrap();
    assert_eq!(cert.recipient, vec![0xff, 0xfe]);
    assert_eq!(cert.issuer, vec![0x00]);
    assert_eq!(cert.course, vec![0x80, 0x41]);
}

#[test]
fn restore_refuses_values_that_are_not_records() {
    let env = quiet_env();
    let mut raw: soroban_sdk::Map<u64, u32> = soroban_sdk::Map::new(&env);
    raw.set(1, 5);
    let records = RecordMap::try_from_val(&env, &raw.to_val()).unwrap();
    let status = CertificateStatus { total_issued: 1, total_revoked: 0 };
    assert!(CertificateContract::restore(1, status, records).is_none());
}

#[test]
fn restore_refuses_keys_that_are_not_identifiers() {
    let env = quiet_env();
    let mut raw: soroban_sdk::Map<u32, HostRecord> = soroban_sdk::Map::new(&env);
    raw.set(1, record(&env, 1, true));
    let records = RecordMap::try_from_val(&env, &raw.to_val()).unwrap();
    let status = CertificateStatus { total_issued: 1, total_revoked: 0 };
    assert!(CertificateContract::restore(1, status, records.clone()).is_none());
    let zero = CertificateStatus { total_issued: 0, total_revoked: 0 };
    assert!(CertificateContract::restore(0, zero, records).is_none());
}

#[test]
fn from_stored_reads_missing_values_as_empty() {
    let env = quiet_env();
    let mut reg = CertificateContract::from_stored(None, None, None, &env).unwrap();
    assert_eq!(
        reg.view_cert_status(),
        CertificateStatus { total_issued: 0, total_revoked: 0 }
    );
    assert_eq!(reg.verify_certificate(1), Err(RegistryError::NotFound(1)));
    assert_eq!(issue(&mut reg, &env, "A", "B", "C"), 1);
}

#[test]
fn from_stored_takes_what_was_stored() {
    let env = quiet_env();
    let mut reg = CertificateContract::new(&env);
    issue(&mut reg, &env, "A", "B", "C");
    issue(&mut reg, &env, "D", "E", "F");
    reg.revoke_certificate(1).unwrap();
    let (counter, status, records) = reg.into_parts();
    let back =
        CertificateContract::from_stored(Some(counter), Some(status), Some(records.clone()), &env)
            .unwrap();
    assert_eq!(back.view_cert_status(), CertificateStatus { total_issued: 2, total_revoked: 1 });
    assert_eq!(back.verify_certificate(1), Ok(false));
    assert_eq!(back.verify_certificate(2), Ok(true));
    assert!(CertificateContract::from_stored(None, Some(status), Some(records.clone()), &env)
        .is_none());
    assert!(CertificateContract::from_stored(Some(counter), None, Some(records), &env).is_none());
    assert!(CertificateContract::from_stored(Some(counter), Some(status), None, &env).is_none());
}

#[test]
fn missing_totals_read_as_zero() {
    let zero = CertificateStatus { total_issued: 0, total_revoked: 0 };
    let some = CertificateStatus { total_issued: 4, total_revoked: 2 };
    assert_eq!(CertificateStatus::from_stored(None), zero);
    assert_eq!(CertificateStatus::from_stored(Some(some)), some);
}

#[test]
fn certificate_clone_is_equal() {
    let env = quiet_env();
    let mut reg = CertificateContract::new(&env);
    let id = issue(&mut reg, &env, "A", "B", "C");
    let cert = reg.view_certificate(id).unwrap();
    let copy = cert.clone();
    assert_eq!(copy.cert_id, cert.cert_id);
    assert_eq!(copy.recipient, cert.recipient);
    assert_eq!(copy.issuer, cert.issuer);
    assert_eq!(copy.course, cert.course);
    assert_eq!(copy.issue_date, cert.issue_date);
    assert_eq!(copy.valid, cert.valid);
}
