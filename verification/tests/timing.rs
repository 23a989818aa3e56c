//! The P3 clock, the pending-response deadline, session records, and the
//! bus lease.

use bmw_diag::lease::{BusLease, LeaseError};
use bmw_diag::session::{
    extended_response_deadline, LinkTimer, ProtocolVariant, SessionManager, SessionRecord,
};

#[test]
fn test_p3_wait_spacing() {
    let mut timer = LinkTimer::new(55, 0);
    assert_eq!(timer.wait_before_send(1000), 0);
    timer.note_response(false, 1000);
    // 10 ms after the response, 45 ms remain of the 55 ms quiet time.
    assert_eq!(timer.wait_before_send(1010), 45);
    assert_eq!(timer.wait_before_send(1055), 0);
    assert_eq!(timer.wait_before_send(2000), 0);
}

#[test]
fn test_p3_wait_with_host_tolerance() {
    let mut timer = LinkTimer::new(55, 3);
    timer.note_response(false, 1000);
    // The host may wake 3 ms early.
    assert_eq!(timer.wait_before_send(1010), 42);
}

#[test]
fn test_pending_response_does_not_stamp_p3() {
    let mut timer = LinkTimer::new(55, 0);
    timer.note_response(false, 1000);
    // NRC 0x78 at 1020 must not move the quiet-time origin.
    timer.note_response(true, 1020);
    assert_eq!(timer.wait_before_send(1030), 25);
}

#[test]
fn test_pending_deadline_capped_by_ceiling() {
    // Each pending response extends the window, never past the ceiling.
    assert_eq!(extended_response_deadline(1000, 500, 6000), 1500);
    assert_eq!(extended_response_deadline(5800, 500, 6000), 6000);
}

#[test]
fn test_session_record_lifecycle() {
    let mut record = SessionRecord::new(ProtocolVariant::FastInit, [0xEA, 0x8F], 100);
    assert_eq!(record.session_type, 0x01);
    assert_eq!(record.security_level, 0);
    assert_eq!(record.key_bytes, [0xEA, 0x8F]);
    assert!(!record.lost);

    assert!(record.needs_session_change(0x03));
    record.on_session_accepted(0x03);
    assert!(!record.needs_session_change(0x03));

    assert!(record.needs_unlock(1));
    record.on_unlocked(1);
    assert!(!record.needs_unlock(1));
    assert!(record.needs_unlock(3));
}

#[test]
fn test_keepalive_due_after_half_p3max() {
    let record = SessionRecord::new(ProtocolVariant::SlowInit, [0, 0], 1000);
    assert!(!record.keepalive_due(1500, 2000));
    assert!(record.keepalive_due(2000, 2000));
    assert!(record.keepalive_due(3000, 2000));
}

#[test]
fn test_session_lost_after_two_keepalive_failures() {
    let mut record = SessionRecord::new(ProtocolVariant::FastInit, [0, 0], 0);
    record.on_keepalive_failure();
    assert!(!record.lost);
    record.on_keepalive_failure();
    assert!(record.lost);
    // A successful exchange revives the record.
    record.on_exchange_success(500);
    assert!(!record.lost);
    assert_eq!(record.failed_keepalives, 0);
    assert_eq!(record.last_exchange_ms, 500);
}

#[test]
fn test_session_table() {
    let mut manager = SessionManager::new();
    assert!(manager.needs_init(0x12));
    assert!(manager.lookup(0x12).is_none());

    let record = SessionRecord::new(ProtocolVariant::FastInit, [0xEA, 0x8F], 100);
    manager.upsert(0x12, record);
    assert!(!manager.needs_init(0x12));
    assert_eq!(manager.lookup(0x12).unwrap().key_bytes, [0xEA, 0x8F]);
    assert!(manager.needs_init(0x32));

    // A lost session forces re-initialization.
    let mut lost = record;
    lost.on_keepalive_failure();
    lost.on_keepalive_failure();
    manager.upsert(0x12, lost);
    assert!(manager.needs_init(0x12));

    manager.remove(0x12);
    assert!(manager.lookup(0x12).is_none());
}

#[test]
fn test_keepalive_targets_in_table_order() {
    let mut manager = SessionManager::new();
    manager.upsert(0x12, SessionRecord::new(ProtocolVariant::FastInit, [0, 0], 0));
    manager.upsert(0x32, SessionRecord::new(ProtocolVariant::FastInit, [0, 0], 1500));
    manager.upsert(0x44, SessionRecord::new(ProtocolVariant::SlowInit, [0, 0], 500));
    // At 2000 ms with P3max of 2000 ms, the sessions idle for at least
    // 1000 ms are due.
    assert_eq!(manager.keepalive_targets(2000, 2000), vec![0x12, 0x44]);
    assert_eq!(manager.keepalive_targets(1400, 2000), vec![0x12]);
}

#[test]
fn test_lease_is_exclusive() {
    let mut lease = BusLease::new();
    // No lease while the transport is closed.
    assert_eq!(lease.acquire(), Err(LeaseError::NotConnected));
    lease.connect();
    assert_eq!(lease.acquire(), Ok(()));
    // The one lease is out; a second request is refused.
    assert_eq!(lease.acquire(), Err(LeaseError::Busy));
    lease.release();
    assert_eq!(lease.acquire(), Ok(()));
    lease.release();
    lease.disconnect();
    assert_eq!(lease.acquire(), Err(LeaseError::NotConnected));
}
