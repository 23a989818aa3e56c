//! Session bookkeeping and the KWP2000 timing discipline.
//!
//! The link layer must leave at least P3min between the end of one exchange
//! and the start of the next request to the same ECU; on hosts with coarse
//! timers a small tolerance is subtracted.  A pending negative response
//! (NRC 0x78) keeps the exchange open and must not stamp the P3 clock.
//! Sessions kept alive by TesterPresent are marked lost after two
//! consecutive keep-alive failures.

use vstd::prelude::*;

verus! {

/// How the session was brought up.
#[derive(Debug, Clone, Copy, PartialEq, Eq, Structural)]
pub enum ProtocolVariant {
    /// 5-baud slow initialization (ISO 9141-2).
    SlowInit,
    /// Break-signal fast initialization (ISO 14230).
    FastInit,
    /// ISO-TP over the CAN transport.
    DCan,
}

/// The clock that enforces P3min between exchanges on one transport.
#[derive(Debug, Clone, Copy)]
pub struct LinkTimer {
    /// When the last exchange completed, if any exchange has.
    pub last_end_ms: Option<u64>,
    /// Minimum quiet time between exchanges, in milliseconds.
    pub p3_min_ms: u64,
    /// How early the host's timer may wake the sender, in milliseconds.
    pub tolerance_ms: u64,
}

impl LinkTimer {
    /// P3min reduced by the host tolerance.
    pub open spec fn effective_p3(self) -> int {
        if self.tolerance_ms <= self.p3_min_ms {
            self.p3_min_ms - self.tolerance_ms
        } else {
            0
        }
    }

    /// The earliest instant the next request may go out.
    pub open spec fn send_deadline(self) -> int {
        match self.last_end_ms {
            Some(e) => e + self.effective_p3(),
            None => 0,
        }
    }

    /// The wait the sender owes at instant `now_ms`.
    pub open spec fn wait_spec(self, now_ms: u64) -> int {
        if now_ms >= self.send_deadline() {
            0
        } else {
            self.send_deadline() - now_ms
        }
    }

    /// A fresh timer with the given P3min and host tolerance.
    pub fn new(p3_min_ms: u64, tolerance_ms: u64) -> (r: Self)
        ensures
            r.last_end_ms is None,
            r.p3_min_ms == p3_min_ms,
            r.tolerance_ms == tolerance_ms,
    {
        Self { last_end_ms: None, p3_min_ms, tolerance_ms }
    }

    /// How long to wait before dispatching the next request at `now_ms`.
    pub fn wait_before_send(&self, now_ms: u64) -> (r: u64)
        requires
            self.last_end_ms matches Some(e) ==> e + self.p3_min_ms <= u64::MAX,
        ensures
            r == self.wait_spec(now_ms),
    {
        let effective: u64 = if self.tolerance_ms <= self.p3_min_ms {
            self.p3_min_ms - self.tolerance_ms
        } else {
            0
        };
        match self.last_end_ms {
            Some(e) => {
                let deadline = e + effective;
                if now_ms >= deadline {
                    0
                } else {
                    deadline - now_ms
                }
            },
            None => 0,
        }
    }

    /// Records the end of an exchange.  A pending response keeps the
    /// exchange open, so it leaves the clock untouched.
    pub fn note_response(&mut self, pending: bool, now_ms: u64)
        ensures
            pending ==> *final(self) == *old(self),
            !pending ==> *final(self) == (LinkTimer {
                last_end_ms: Some(now_ms),
                ..*old(self)
            }),
    {
        if !pending {
            self.last_end_ms = Some(now_ms);
        }
    }
}

/// Two successive exchanges are spaced by at least P3min minus the host
/// tolerance: if the first ended at `e` and the sender, ready at `now_ms`,
/// waits the computed time, the second starts no earlier than
/// `e + p3_min - tolerance`.
pub proof fn lemma_p3_spacing(t: LinkTimer, now_ms: u64, e: u64)
    requires
        t.last_end_ms == Some(e),
        t.tolerance_ms <= t.p3_min_ms,
    ensures
        now_ms + t.wait_spec(now_ms) - e >= t.p3_min_ms - t.tolerance_ms,
{
}

/// The response deadline after a "response pending" negative answer at
/// `now_ms`: the response window restarts, but never reaches past the
/// ceiling fixed when the request went out.
pub fn extended_response_deadline(now_ms: u64, window_ms: u64, ceiling_end_ms: u64) -> (r: u64)
    requires
        now_ms + window_ms <= u64::MAX,
    ensures
        r == (if now_ms + window_ms <= ceiling_end_ms {
            now_ms + window_ms
        } else {
            ceiling_end_ms as int
        }),
        r <= ceiling_end_ms,
{
    let extended = now_ms + window_ms;
    if extended <= ceiling_end_ms {
        extended
    } else {
        ceiling_end_ms
    }
}

/// Per-ECU diagnostic session state.
#[derive(Debug, Clone, Copy)]
pub struct SessionRecord {
    /// The active diagnostic session type (0x01 is the default session).
    pub session_type: u8,
    /// The most recently accepted security level; 0 means locked.
    pub security_level: u8,
    /// When the last successful exchange with this ECU completed.
    pub last_exchange_ms: u64,
    /// The key bytes the ECU returned at initialization, kept for records.
    pub key_bytes: [u8; 2],
    /// How the session was established.
    pub variant: ProtocolVariant,
    /// Consecutive TesterPresent failures.
    pub failed_keepalives: u8,
    /// Set after two consecutive keep-alive failures; the next request must
    /// re-initialize.
    pub lost: bool,
}

impl SessionRecord {
    /// A record for a session just established.
    pub fn new(variant: ProtocolVariant, key_bytes: [u8; 2], now_ms: u64) -> (r: Self)
        ensures
            r.session_type == 0x01,
            r.security_level == 0,
            r.last_exchange_ms == now_ms,
            r.key_bytes == key_bytes,
            r.variant == variant,
            r.failed_keepalives == 0,
            !r.lost,
    {
        Self {
            session_type: 0x01,
            security_level: 0,
            last_exchange_ms: now_ms,
            key_bytes,
            variant,
            failed_keepalives: 0,
            lost: false,
        }
    }

    /// Whether a DiagnosticSessionControl must be issued to reach the
    /// required session type.
    pub fn needs_session_change(&self, required: u8) -> (r: bool)
        ensures
            r == (self.session_type != required),
    {
        self.session_type != required
    }

    /// Whether a SecurityAccess cycle must be run to reach the required
    /// level.
    pub fn needs_unlock(&self, required_level: u8) -> (r: bool)
        ensures
            r == (self.security_level < required_level),
    {
        self.security_level < required_level
    }

    /// Whether the keep-alive task should issue TesterPresent now: the
    /// session is older than half of P3max.
    pub fn keepalive_due(&self, now_ms: u64, p3_max_ms: u64) -> (r: bool)
        ensures
            r == self.keepalive_due_spec(now_ms, p3_max_ms),
    {
        now_ms >= self.last_exchange_ms && now_ms - self.last_exchange_ms >= p3_max_ms / 2
    }

    /// Records a successful exchange: the session is alive and fresh.
    pub fn on_exchange_success(&mut self, now_ms: u64)
        ensures
            *final(self) == (SessionRecord {
                last_exchange_ms: now_ms,
                failed_keepalives: 0,
                lost: false,
                ..*old(self)
            }),
    {
        self.last_exchange_ms = now_ms;
        self.failed_keepalives = 0;
        self.lost = false;
    }

    /// Records an accepted DiagnosticSessionControl.
    pub fn on_session_accepted(&mut self, session_type: u8)
        ensures
            *final(self) == (SessionRecord { session_type, ..*old(self) }),
    {
        self.session_type = session_type;
    }

    /// Records an accepted SecurityAccess at the given level.
    pub fn on_unlocked(&mut self, level: u8)
        ensures
            *final(self) == (SessionRecord { security_level: level, ..*old(self) }),
    {
        self.security_level = level;
    }

    /// Whether the keep-alive task owes this session a TesterPresent at
    /// `now_ms`: it is older than half of P3max.
    pub open spec fn keepalive_due_spec(self, now_ms: u64, p3_max_ms: u64) -> bool {
        now_ms >= self.last_exchange_ms && now_ms - self.last_exchange_ms >= p3_max_ms as int / 2
    }

    /// Records a failed TesterPresent.  After two consecutive failures the
    /// session is lost and the next request must re-initialize.
    pub fn on_keepalive_failure(&mut self)
        ensures
            final(self).failed_keepalives == (if old(self).failed_keepalives < 255 {
                old(self).failed_keepalives + 1
            } else {
                255int
            }),
            final(self).lost == (final(self).failed_keepalives >= 2),
            final(self).session_type == old(self).session_type,
            final(self).security_level == old(self).security_level,
            final(self).last_exchange_ms == old(self).last_exchange_ms,
            final(self).key_bytes == old(self).key_bytes,
            final(self).variant == old(self).variant,
    {
        if self.failed_keepalives < 255 {
            self.failed_keepalives = self.failed_keepalives + 1;
        }
        self.lost = self.failed_keepalives >= 2;
    }
}

/// The addresses of the records due a TesterPresent at `now_ms`, in table
/// order: those whose last exchange is at least half of P3max ago.
pub open spec fn due_targets(records: Seq<(u8, SessionRecord)>, now_ms: u64, p3_max_ms: u64) -> Seq<
    u8,
>
    decreases records.len(),
{
    if records.len() == 0 {
        Seq::empty()
    } else {
        let rest = due_targets(records.drop_last(), now_ms, p3_max_ms);
        if records.last().1.keepalive_due_spec(now_ms, p3_max_ms) {
            rest.push(records.last().0)
        } else {
            rest
        }
    }
}

/// The per-transport session table: at most one record per ECU address.
/// Created entries live until the session is dropped or lost.
#[derive(Debug, Clone)]
pub struct SessionManager {
    pub records: Vec<(u8, SessionRecord)>,
}

impl SessionManager {
    /// No ECU address occurs twice in the table.
    pub open spec fn wf(self) -> bool {
        forall|i: int, j: int|
            0 <= i < j < self.records@.len() ==> (#[trigger] self.records@[i]).0 != (
            #[trigger] self.records@[j]).0
    }

    /// Whether the table holds a record for this ECU.
    pub open spec fn has_record(self, ecu: u8) -> bool {
        exists|i: int| 0 <= i < self.records@.len() && (#[trigger] self.records@[i]).0 == ecu
    }

    /// Whether the table holds this exact record for this ECU.
    pub open spec fn holds(self, ecu: u8, record: SessionRecord) -> bool {
        exists|i: int|
            0 <= i < self.records@.len() && #[trigger] self.records@[i] == (ecu, record)
    }

    /// An empty table.
    pub fn new() -> (r: Self)
        ensures
            r.records@.len() == 0,
            r.wf(),
    {
        Self { records: Vec::new() }
    }

    fn find(&self, ecu: u8) -> (r: Option<usize>)
        ensures
            match r {
                Some(i) => i < self.records@.len() && self.records@[i as int].0 == ecu,
                None => !self.has_record(ecu),
            },
    {
        let mut i: usize = 0;
        while i < self.records.len()
            invariant
                0 <= i <= self.records@.len(),
                forall|j: int| 0 <= j < i ==> (#[trigger] self.records@[j]).0 != ecu,
            decreases self.records@.len() - i,
        {
            if self.records[i].0 == ecu {
                return Some(i);
            }
            i = i + 1;
        }
        None
    }

    /// The record of an ECU, if one exists.
    pub fn lookup(&self, ecu: u8) -> (r: Option<SessionRecord>)
        ensures
            r is Some <==> self.has_record(ecu),
            (r matches Some(rec) ==> self.holds(ecu, rec)),
    {
        match self.find(ecu) {
            Some(i) => Some(self.records[i].1),
            None => None,
        }
    }

    /// Stores a record, replacing any previous one for the same ECU.  The
    /// records of every other ECU are untouched.
    pub fn upsert(&mut self, ecu: u8, record: SessionRecord)
        requires
            old(self).wf(),
        ensures
            final(self).wf(),
            final(self).holds(ecu, record),
            forall|e: u8, rec: SessionRecord|
                e != ecu ==> (final(self).holds(e, rec) <==> old(self).holds(e, rec)),
    {
        let ghost prev = self.records@;
        match self.find(ecu) {
            Some(i) => {
                self.records[i] = (ecu, record);
                proof {
                    assert(self.records@ == prev.update(i as int, (ecu, record)));
                    assert(self.records@[i as int] == (ecu, record));
                    assert forall|e: u8, rec: SessionRecord| e != ecu implies (final(self).holds(
                        e,
                        rec,
                    ) <==> old(self).holds(e, rec)) by {
                        if old(self).holds(e, rec) {
                            let j = choose|j: int|
                                0 <= j < prev.len() && #[trigger] prev[j] == (e, rec);
                            assert(j != i);
                            assert(self.records@[j] == (e, rec));
                        }
                        if final(self).holds(e, rec) {
                            let j = choose|j: int|
                                0 <= j < self.records@.len() && #[trigger] self.records@[j] == (
                                e,
                                rec,
                                );
                            assert(j != i);
                            assert(prev[j] == (e, rec));
                        }
                    }
                }
            },
            None => {
                self.records.push((ecu, record));
                proof {
                    assert(self.records@ == prev.push((ecu, record)));
                    assert(self.records@[prev.len() as int] == (ecu, record));
                    assert forall|e: u8, rec: SessionRecord| e != ecu implies (final(self).holds(
                        e,
                        rec,
                    ) <==> old(self).holds(e, rec)) by {
                        if old(self).holds(e, rec) {
                            let j = choose|j: int|
                                0 <= j < prev.len() && #[trigger] prev[j] == (e, rec);
                            assert(self.records@[j] == (e, rec));
                        }
                        if final(self).holds(e, rec) {
                            let j = choose|j: int|
                                0 <= j < self.records@.len() && #[trigger] self.records@[j] == (
                                e,
                                rec,
                                );
                            assert(j != prev.len());
                            assert(prev[j] == (e, rec));
                        }
                    }
                }
            },
        }
    }

    /// Forgets an ECU's record: the explicit disconnect of its session.
    /// The records of every other ECU are untouched.
    pub fn remove(&mut self, ecu: u8)
        requires
            old(self).wf(),
        ensures
            final(self).wf(),
            !final(self).has_record(ecu),
            forall|e: u8, rec: SessionRecord|
                e != ecu ==> (final(self).holds(e, rec) <==> old(self).holds(e, rec)),
    {
        let ghost prev = self.records@;
        match self.find(ecu) {
            Some(i) => {
                self.records.remove(i);
                proof {
                    assert(self.records@ == prev.remove(i as int));
                    assert forall|j: int| 0 <= j < self.records@.len() implies self.records@[j]
                        == (if j < i {
                        prev[j]
                    } else {
                        prev[j + 1]
                    }) by {}
                    assert forall|j: int|
                        0 <= j < self.records@.len() implies (#[trigger] self.records@[j]).0
                        != ecu by {
                        if j < i {
                            assert(self.records@[j] == prev[j]);
                        } else {
                            assert(self.records@[j] == prev[j + 1]);
                        }
                    }
                    assert forall|e: u8, rec: SessionRecord| e != ecu implies (final(self).holds(
                        e,
                        rec,
                    ) <==> old(self).holds(e, rec)) by {
                        if old(self).holds(e, rec) {
                            let j = choose|j: int|
                                0 <= j < prev.len() && #[trigger] prev[j] == (e, rec);
                            assert(j != i);
                            if j < i {
                                assert(self.records@[j] == (e, rec));
                            } else {
                                assert(self.records@[j - 1] == (e, rec));
                            }
                        }
                        if final(self).holds(e, rec) {
                            let j = choose|j: int|
                                0 <= j < self.records@.len() && #[trigger] self.records@[j] == (
                                e,
                                rec,
                                );
                            if j < i {
                                assert(prev[j] == (e, rec));
                            } else {
                                assert(prev[j + 1] == (e, rec));
                            }
                        }
                    }
                }
            },
            None => {},
        }
    }

    /// Whether a request to this ECU must re-initialize first: no session
    /// record exists, or the one that does was lost.
    pub fn needs_init(&self, ecu: u8) -> (r: bool)
        requires
            self.wf(),
        ensures
            r == !(exists|i: int|
                0 <= i < self.records@.len() && (#[trigger] self.records@[i]).0 == ecu
                    && !self.records@[i].1.lost),
    {
        match self.find(ecu) {
            Some(i) => {
                let lost = self.records[i].1.lost;
                proof {
                    if !lost {
                        assert(self.records@[i as int].0 == ecu && !self.records@[i as int].1.lost);
                    } else {
                        assert forall|j: int|
                            0 <= j < self.records@.len() && (#[trigger] self.records@[j]).0 == ecu
                                implies self.records@[j].1.lost by {
                            assert(j == i);
                        }
                    }
                }
                lost
            },
            None => true,
        }
    }

    /// The ECUs whose sessions are due a TesterPresent at `now_ms`: every
    /// record older than half of P3max, in table order.
    pub fn keepalive_targets(&self, now_ms: u64, p3_max_ms: u64) -> (r: Vec<u8>)
        ensures
            r@ == due_targets(self.records@, now_ms, p3_max_ms),
    {
        let mut out: Vec<u8> = Vec::new();
        let mut i: usize = 0;
        while i < self.records.len()
            invariant
                0 <= i <= self.records@.len(),
                out@ == due_targets(self.records@.take(i as int), now_ms, p3_max_ms),
            decreases self.records@.len() - i,
        {
            proof {
                assert(self.records@.take(i as int + 1).drop_last() =~= self.records@.take(
                    i as int,
                ));
                assert(self.records@.take(i as int + 1).last() == self.records@[i as int]);
            }
            if self.records[i].1.keepalive_due(now_ms, p3_max_ms) {
                out.push(self.records[i].0);
            }
            i = i + 1;
        }
        proof {
            assert(self.records@.take(self.records@.len() as int) =~= self.records@);
        }
        out
    }
}

} // verus!
