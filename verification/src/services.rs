//! Diagnostic service encoding, decoding, and the negative-response
//! taxonomy.
//!
//! The request builders produce the exact byte layouts of the KWP2000 and
//! UDS services used on this gateway; the parsers classify responses and
//! extract their payloads.  A negative response (first byte 0x7F) carries
//! the rejected service and a negative response code, which maps to a
//! category that tells the caller how to proceed.

use vstd::prelude::*;
use crate::dtc::{Dtc, dtc_code_chars, status_from_byte};
use crate::kwp::KwpResponse;

verus! {

/// What a negative response code means for the caller.
#[derive(Debug, Clone, Copy, PartialEq, Eq, Structural)]
pub enum NrcCategory {
    /// The request itself is wrong; do not retry.
    Fatal,
    /// The ECU is busy; the same request may be retried at once.
    RetryNow,
    /// The request was understood but cannot be carried out now.
    FatalSemantic,
    /// The session sequence broke; re-initialize and retry once.
    ResetSession,
    /// SecurityAccess is needed first.
    NeedsUnlock,
    /// Too many failed unlock attempts; the ECU locked itself.
    LockedOut,
    /// A mandated delay has not elapsed; back off.
    Backoff,
    /// The real response is still coming; keep reading.
    ContinueWaiting,
    /// The service is not available in the active session.
    WrongSession,
    /// An NRC outside the taxonomy.
    FatalUnknown,
}

/// The taxonomy of negative response codes.
pub open spec fn nrc_category_spec(nrc: u8) -> NrcCategory {
    if nrc == 0x10 || nrc == 0x11 || nrc == 0x12 || nrc == 0x13 {
        NrcCategory::Fatal
    } else if nrc == 0x21 {
        NrcCategory::RetryNow
    } else if nrc == 0x22 || nrc == 0x31 {
        NrcCategory::FatalSemantic
    } else if nrc == 0x24 {
        NrcCategory::ResetSession
    } else if nrc == 0x33 || nrc == 0x35 {
        NrcCategory::NeedsUnlock
    } else if nrc == 0x36 {
        NrcCategory::LockedOut
    } else if nrc == 0x37 {
        NrcCategory::Backoff
    } else if nrc == 0x78 {
        NrcCategory::ContinueWaiting
    } else if nrc == 0x7F {
        NrcCategory::WrongSession
    } else {
        NrcCategory::FatalUnknown
    }
}

/// Classifies a negative response code.
pub fn classify_nrc(nrc: u8) -> (r: NrcCategory)
    ensures
        r == nrc_category_spec(nrc),
{
    if nrc == 0x10 || nrc == 0x11 || nrc == 0x12 || nrc == 0x13 {
        NrcCategory::Fatal
    } else if nrc == 0x21 {
        NrcCategory::RetryNow
    } else if nrc == 0x22 || nrc == 0x31 {
        NrcCategory::FatalSemantic
    } else if nrc == 0x24 {
        NrcCategory::ResetSession
    } else if nrc == 0x33 || nrc == 0x35 {
        NrcCategory::NeedsUnlock
    } else if nrc == 0x36 {
        NrcCategory::LockedOut
    } else if nrc == 0x37 {
        NrcCategory::Backoff
    } else if nrc == 0x78 {
        NrcCategory::ContinueWaiting
    } else if nrc == 0x7F {
        NrcCategory::WrongSession
    } else {
        NrcCategory::FatalUnknown
    }
}

/// The text for each negative response code.
pub open spec fn nrc_description_view(code: u8) -> Seq<char> {
    if code == 0x10 {
        "General reject"@
    } else if code == 0x11 {
        "Service not supported"@
    } else if code == 0x12 {
        "Sub-function not supported"@
    } else if code == 0x13 {
        "Incorrect message length or invalid format"@
    } else if code == 0x21 {
        "Busy - repeat request"@
    } else if code == 0x22 {
        "Conditions not correct"@
    } else if code == 0x24 {
        "Request sequence error"@
    } else if code == 0x31 {
        "Request out of range"@
    } else if code == 0x33 {
        "Security access denied"@
    } else if code == 0x35 {
        "Invalid key"@
    } else if code == 0x36 {
        "Exceeded number of attempts"@
    } else if code == 0x37 {
        "Required time delay not expired"@
    } else if code == 0x70 {
        "Upload/download not accepted"@
    } else if code == 0x71 {
        "Transfer data suspended"@
    } else if code == 0x72 {
        "General programming failure"@
    } else if code == 0x78 {
        "Request correctly received, response pending"@
    } else if code == 0x7F {
        "Service not supported in active session"@
    } else {
        "Unknown error"@
    }
}

/// The human-readable text of a negative response code.
pub fn description(code: u8) -> (r: &'static str)
    ensures
        r@ == nrc_description_view(code),
{
    if code == 0x10 {
        "General reject"
    } else if code == 0x11 {
        "Service not supported"
    } else if code == 0x12 {
        "Sub-function not supported"
    } else if code == 0x13 {
        "Incorrect message length or invalid format"
    } else if code == 0x21 {
        "Busy - repeat request"
    } else if code == 0x22 {
        "Conditions not correct"
    } else if code == 0x24 {
        "Request sequence error"
    } else if code == 0x31 {
        "Request out of range"
    } else if code == 0x33 {
        "Security access denied"
    } else if code == 0x35 {
        "Invalid key"
    } else if code == 0x36 {
        "Exceeded number of attempts"
    } else if code == 0x37 {
        "Required time delay not expired"
    } else if code == 0x70 {
        "Upload/download not accepted"
    } else if code == 0x71 {
        "Transfer data suspended"
    } else if code == 0x72 {
        "General programming failure"
    } else if code == 0x78 {
        "Request correctly received, response pending"
    } else if code == 0x7F {
        "Service not supported in active session"
    } else {
        "Unknown error"
    }
}

/// How a decoded response relates to the request that is in flight.
#[derive(Debug, Clone, Copy, PartialEq, Eq, Structural)]
pub enum Disposition {
    /// The positive response to the request; its payload is the answer.
    Positive,
    /// A terminal negative response with this code.
    Negative(u8),
    /// NRC 0x78: the ECU is still working; extend the response deadline and
    /// keep reading.  The P3 clock is not stamped.
    Pending,
    /// A service identifier that belongs to neither case.
    Mismatch,
}

/// How a response's disposition is decided: the positive service identifier
/// is the request's plus 0x40; 0x7F opens a negative response whose second
/// payload byte is the code, with 0x78 meaning "still working".
pub open spec fn disposition_spec(request_service: u8, service: u8, data: Seq<u8>) -> Disposition {
    if service == request_service + 0x40 {
        Disposition::Positive
    } else if service == 0x7F {
        if data.len() >= 2 {
            if data[1] == 0x78 {
                Disposition::Pending
            } else {
                Disposition::Negative(data[1])
            }
        } else {
            Disposition::Mismatch
        }
    } else {
        Disposition::Mismatch
    }
}

/// Classifies a decoded response against the service that was requested.
pub fn classify_response(request_service: u8, resp: &KwpResponse) -> (r: Disposition)
    requires
        request_service <= 0xBF,
    ensures
        r == disposition_spec(request_service, resp.service, resp.data@),
{
    if resp.service == request_service + 0x40 {
        Disposition::Positive
    } else if resp.service == 0x7F {
        if resp.data.len() >= 2 {
            let nrc = resp.data[1];
            if nrc == 0x78 {
                Disposition::Pending
            } else {
                Disposition::Negative(nrc)
            }
        } else {
            Disposition::Mismatch
        }
    } else {
        Disposition::Mismatch
    }
}

// ------------------------------------------------------------------------
// Request builders
// ------------------------------------------------------------------------

/// UDS ReadDTCInformation, sub-function reportDTCByStatusMask.
pub fn build_read_dtc_request(status_mask: u8) -> (r: Vec<u8>)
    ensures
        r@ == seq![0x19u8, 0x02u8, status_mask],
{
    let r = vec![0x19, 0x02, status_mask];
    proof {
        assert(r@ =~= seq![0x19u8, 0x02u8, status_mask]);
    }
    r
}

/// KWP2000 ReadDTCByStatus with a status mask.
pub fn build_kwp_read_dtc_request(status_mask: u8) -> (r: Vec<u8>)
    ensures
        r@ == seq![0x18u8, 0x00u8, status_mask, 0x00u8],
{
    let r = vec![0x18, 0x00, status_mask, 0x00];
    proof {
        assert(r@ =~= seq![0x18u8, 0x00u8, status_mask, 0x00u8]);
    }
    r
}

/// UDS ClearDiagnosticInformation for every DTC group.
pub fn build_clear_dtc_request() -> (r: Vec<u8>)
    ensures
        r@ == seq![0x14u8, 0xFFu8, 0xFFu8, 0xFFu8],
{
    let r = vec![0x14, 0xFF, 0xFF, 0xFF];
    proof {
        assert(r@ =~= seq![0x14u8, 0xFFu8, 0xFFu8, 0xFFu8]);
    }
    r
}

/// UDS ReadDataByIdentifier.
pub fn build_read_did_request(did: u16) -> (r: Vec<u8>)
    ensures
        r@ == seq![0x22u8, (did / 256) as u8, (did % 256) as u8],
{
    let r = vec![0x22, (did / 256) as u8, (did % 256) as u8];
    proof {
        assert(r@ =~= seq![0x22u8, (did / 256) as u8, (did % 256) as u8]);
    }
    r
}

/// OBD-II mode 01 current data for one parameter.
pub fn build_read_pid_request(pid: u8) -> (r: Vec<u8>)
    ensures
        r@ == seq![0x01u8, pid],
{
    let r = vec![0x01, pid];
    proof {
        assert(r@ =~= seq![0x01u8, pid]);
    }
    r
}

/// UDS DiagnosticSessionControl.
pub fn build_session_request(session_type: u8) -> (r: Vec<u8>)
    ensures
        r@ == seq![0x10u8, session_type],
{
    let r = vec![0x10, session_type];
    proof {
        assert(r@ =~= seq![0x10u8, session_type]);
    }
    r
}

/// TesterPresent with response suppression.
pub fn build_tester_present_request() -> (r: Vec<u8>)
    ensures
        r@ == seq![0x3Eu8, 0x00u8],
{
    let r = vec![0x3E, 0x00];
    proof {
        assert(r@ =~= seq![0x3Eu8, 0x00u8]);
    }
    r
}

/// SecurityAccess requestSeed at an (odd) level.
pub fn build_security_seed_request(level: u8) -> (r: Vec<u8>)
    ensures
        r@ == seq![0x27u8, level],
{
    let r = vec![0x27, level];
    proof {
        assert(r@ =~= seq![0x27u8, level]);
    }
    r
}

/// UDS RoutineControl with a sub-function, a routine identifier, and
/// optional extra data.
pub fn build_routine_request(routine_id: u16, sub_function: u8, data: &[u8]) -> (r: Vec<u8>)
    ensures
        r@ == seq![0x31u8, sub_function, (routine_id / 256) as u8, (routine_id % 256) as u8]
            + data@,
{
    let mut r = vec![0x31, sub_function, (routine_id / 256) as u8, (routine_id % 256) as u8];
    proof {
        assert(r@ =~= seq![
            0x31u8,
            sub_function,
            (routine_id / 256) as u8,
            (routine_id % 256) as u8,
        ]);
    }
    r.extend_from_slice(data);
    r
}

// ------------------------------------------------------------------------
// Security access
// ------------------------------------------------------------------------

/// The placeholder key derivation: each seed byte XORed with 0xCA.  Real
/// ECUs use proprietary algorithms; this is the integrator hook's default.
pub open spec fn xor_key(seed: Seq<u8>) -> Seq<u8> {
    seed.map_values(|b: u8| b ^ 0xCA)
}

/// Derives the key for a seed with the placeholder algorithm.
pub fn calculate_key_simple(seed: &[u8]) -> (r: Vec<u8>)
    ensures
        r@ == xor_key(seed@),
{
    let mut out: Vec<u8> = Vec::new();
    let mut i: usize = 0;
    while i < seed.len()
        invariant
            0 <= i <= seed@.len(),
            out@.len() == i,
            forall|j: int| 0 <= j < i ==> out@[j] == (seed@[j] ^ 0xCA),
        decreases seed@.len() - i,
    {
        out.push(seed[i] ^ 0xCA);
        i = i + 1;
    }
    proof {
        assert(out@ =~= xor_key(seed@));
    }
    out
}

/// Whether every byte of a seed is zero, which means the ECU is already
/// unlocked.
pub open spec fn all_zero(s: Seq<u8>) -> bool {
    forall|i: int| 0 <= i < s.len() ==> s[i] == 0
}

/// What to do after the seed arrived: an all-zero seed means the ECU is
/// already unlocked and no key is transmitted; otherwise the key goes out
/// at the next (even) sub-function level.
#[derive(Debug, Clone, PartialEq, Eq)]
pub enum SecurityStep {
    /// Every seed byte was zero: record the level as unlocked, send nothing.
    AlreadyUnlocked,
    /// Send this SecurityAccess sendKey request.
    SendKey(Vec<u8>),
}

/// Decides the step after a seed response at the given (odd) level.
pub fn security_step(level: u8, seed: &[u8]) -> (r: SecurityStep)
    requires
        level < 255,
    ensures
        all_zero(seed@) ==> r == SecurityStep::AlreadyUnlocked,
        !all_zero(seed@) ==> (r matches SecurityStep::SendKey(req) && req@ == seq![
            0x27u8,
            (level + 1) as u8,
        ] + xor_key(seed@)),
{
    let mut i: usize = 0;
    let mut zero = true;
    while i < seed.len()
        invariant
            0 <= i <= seed@.len(),
            zero == all_zero(seed@.take(i as int)),
        decreases seed@.len() - i,
    {
        if seed[i] != 0 {
            zero = false;
        }
        proof {
            assert(all_zero(seed@.take(i as int + 1)) == (all_zero(seed@.take(i as int))
                && seed@[i as int] == 0)) by {
                assert(forall|j: int| 0 <= j < i ==> seed@.take(i as int + 1)[j] == seed@.take(
                    i as int,
                )[j]);
                assert(seed@.take(i as int + 1)[i as int] == seed@[i as int]);
            }
        }
        i = i + 1;
    }
    proof {
        assert(seed@.take(seed@.len() as int) =~= seed@);
    }
    if zero {
        SecurityStep::AlreadyUnlocked
    } else {
        let key = calculate_key_simple(seed);
        let mut req = vec![0x27, level + 1];
        proof {
            assert(req@ =~= seq![0x27u8, (level + 1) as u8]);
        }
        req.extend_from_slice(key.as_slice());
        SecurityStep::SendKey(req)
    }
}

// ------------------------------------------------------------------------
// Response parsers
// ------------------------------------------------------------------------

/// Errors of the service-response parsers.
#[derive(Debug, Clone, Copy, PartialEq, Eq, Structural)]
pub enum ServiceError {
    /// A negative response with this code.
    Negative(u8),
    /// The first byte was no known service identifier for this exchange.
    UnexpectedResponse,
    /// A ReadDataByIdentifier response echoed a different identifier.
    IdentifierMismatch,
}

/// One decoded DTC matches the three raw bytes at triple `i` of a response
/// body.
pub open spec fn dtc_matches_at(d: Dtc, body: Seq<u8>, i: int) -> bool {
    &&& d.code@ == dtc_code_chars(body[3 * i], body[3 * i + 1])
    &&& d.status == status_from_byte(body[3 * i + 2])
    &&& d.description is None
    &&& d.raw_bytes@ == body.subrange(3 * i, 3 * i + 3)
}

/// Every complete three-byte triple of the body became one DTC, in order.
pub open spec fn dtcs_match_body(r: Seq<Dtc>, body: Seq<u8>) -> bool {
    &&& r.len() == body.len() / 3
    &&& forall|i: int| 0 <= i < r.len() ==> dtc_matches_at(#[trigger] r[i], body, i)
}

fn parse_dtc_triples(response: &[u8], start: usize) -> (r: Vec<Dtc>)
    requires
        start <= response@.len(),
    ensures
        dtcs_match_body(r@, response@.skip(start as int)),
{
    let mut out: Vec<Dtc> = Vec::new();
    let mut i: usize = start;
    while i < response.len() && response.len() - i >= 3
        invariant
            start <= i <= response@.len() || (i == start && start <= response@.len()),
            (i - start) % 3 == 0,
            out@.len() == (i - start) / 3,
            forall|j: int|
                0 <= j < out@.len() ==> dtc_matches_at(
                    #[trigger] out@[j],
                    response@.skip(start as int),
                    j,
                ),
        decreases response@.len() - i,
    {
        let chunk = vstd::slice::slice_subrange(response, i, i + 3);
        let ghost j = (i - start) as int / 3;
        let d = match Dtc::from_bytes(chunk) {
            Some(d) => d,
            None => {
                proof {
                    assert(false);
                }
                vstd::pervasive::unreached()
            },
        };
        proof {
            vstd::arithmetic::div_mod::lemma_fundamental_div_mod((i - start) as int, 3);
            let body = response@.skip(start as int);
            assert(3 * j == i - start);
            assert(chunk@[0] == body[3 * j]);
            assert(chunk@[1] == body[3 * j + 1]);
            assert(chunk@[2] == body[3 * j + 2]);
            assert(chunk@.take(3) =~= body.subrange(3 * j, 3 * j + 3));
            assert(dtc_matches_at(d, body, j));
        }
        out.push(d);
        i = i + 3;
    }
    proof {
        let body = response@.skip(start as int);
        assert(body.len() == response@.len() - start);
        assert(body.len() / 3 == (i - start) as int / 3) by (nonlinear_arith)
            requires
                (i - start) % 3 == 0,
                i - start <= body.len() < i - start + 3,
                i >= start,
                body.len() == response@.len() - start,
        ;
    }
    out
}

/// Parses the DTC list of a UDS ReadDTCInformation positive response
/// (`59 02 AV [HI LO ST]*`): every complete triple after the three header
/// bytes becomes one DTC, in order.
pub fn parse_uds_dtc_response(response: &[u8]) -> (r: Vec<Dtc>)
    ensures
        response@.len() >= 3 ==> dtcs_match_body(r@, response@.skip(3)),
        response@.len() < 3 ==> r@.len() == 0,
{
    if response.len() < 3 {
        return Vec::new();
    }
    parse_dtc_triples(response, 3)
}

/// Parses the DTC list of a KWP2000 ReadDTCByStatus positive response
/// (`58 N [HI LO ST]*`).  The byte after the service identifier is not
/// trusted as a count: every complete triple after it becomes one DTC.
pub fn parse_kwp_dtc_response(response: &[u8]) -> (r: Vec<Dtc>)
    ensures
        response@.len() >= 2 ==> dtcs_match_body(r@, response@.skip(2)),
        response@.len() < 2 ==> r@.len() == 0,
{
    if response.len() < 2 {
        return Vec::new();
    }
    parse_dtc_triples(response, 2)
}

/// What a ReadDataByIdentifier response yields: the data bytes when the
/// response is positive and echoes the requested identifier, otherwise the
/// error.
pub open spec fn read_did_spec(did: u16, resp: Seq<u8>) -> Result<Seq<u8>, ServiceError> {
    if resp.len() >= 1 && resp[0] == 0x62 {
        if resp.len() >= 3 && resp[1] == did / 256 && resp[2] == did % 256 {
            Ok(resp.skip(3))
        } else {
            Err(ServiceError::IdentifierMismatch)
        }
    } else if resp.len() >= 1 && resp[0] == 0x7F {
        Err(ServiceError::Negative(if resp.len() >= 3 {
            resp[2]
        } else {
            0
        }))
    } else {
        Err(ServiceError::UnexpectedResponse)
    }
}

/// Checks and unwraps a ReadDataByIdentifier response.
pub fn parse_read_did_response(did: u16, response: &[u8]) -> (r: Result<Vec<u8>, ServiceError>)
    ensures
        match r {
            Ok(v) => read_did_spec(did, response@) == Ok::<Seq<u8>, ServiceError>(v@),
            Err(e) => read_did_spec(did, response@) == Err::<Seq<u8>, ServiceError>(e),
        },
{
    if response.len() >= 1 && response[0] == 0x62 {
        if response.len() >= 3 && response[1] == (did / 256) as u8 && response[2] == (did % 256) as u8 {
            Ok(vstd::slice::slice_to_vec(vstd::slice::slice_subrange(response, 3, response.len())))
        } else {
            Err(ServiceError::IdentifierMismatch)
        }
    } else if response.len() >= 1 && response[0] == 0x7F {
        let nrc: u8 = if response.len() >= 3 {
            response[2]
        } else {
            0
        };
        Err(ServiceError::Negative(nrc))
    } else {
        Err(ServiceError::UnexpectedResponse)
    }
}

/// What a RoutineControl response yields: the routine's result data after
/// the service identifier, sub-function and routine identifier.
pub open spec fn routine_result_spec(resp: Seq<u8>) -> Result<Seq<u8>, ServiceError> {
    if resp.len() >= 1 && resp[0] == 0x71 {
        if resp.len() >= 4 {
            Ok(resp.skip(4))
        } else {
            Ok(Seq::empty())
        }
    } else if resp.len() >= 1 && resp[0] == 0x7F {
        Err(ServiceError::Negative(if resp.len() >= 3 {
            resp[2]
        } else {
            0
        }))
    } else {
        Err(ServiceError::UnexpectedResponse)
    }
}

/// Checks and unwraps a RoutineControl response.
pub fn parse_routine_response(response: &[u8]) -> (r: Result<Vec<u8>, ServiceError>)
    ensures
        match r {
            Ok(v) => routine_result_spec(response@) == Ok::<Seq<u8>, ServiceError>(v@),
            Err(e) => routine_result_spec(response@) == Err::<Seq<u8>, ServiceError>(e),
        },
{
    if response.len() >= 1 && response[0] == 0x71 {
        if response.len() >= 4 {
            Ok(vstd::slice::slice_to_vec(vstd::slice::slice_subrange(response, 4, response.len())))
        } else {
            let empty: Vec<u8> = Vec::new();
            proof {
                assert(empty@ =~= Seq::<u8>::empty());
            }
            Ok(empty)
        }
    } else if response.len() >= 1 && response[0] == 0x7F {
        let nrc: u8 = if response.len() >= 3 {
            response[2]
        } else {
            0
        };
        Err(ServiceError::Negative(nrc))
    } else {
        Err(ServiceError::UnexpectedResponse)
    }
}

fn parse_simple_positive(positive: u8, response: &[u8]) -> (r: Result<(), ServiceError>)
    ensures
        response@.len() >= 1 && response@[0] == positive ==> r == Ok::<(), ServiceError>(()),
        response@.len() >= 1 && response@[0] == 0x7F && positive != 0x7F ==> r == Err::<
            (),
            ServiceError,
        >(ServiceError::Negative(if response@.len() >= 3 {
            response@[2]
        } else {
            0u8
        })),
        response@.len() == 0 || (response@[0] != positive && response@[0] != 0x7F) ==> r == Err::<
            (),
            ServiceError,
        >(ServiceError::UnexpectedResponse),
{
    if response.len() >= 1 && response[0] == positive {
        Ok(())
    } else if response.len() >= 1 && response[0] == 0x7F {
        let nrc: u8 = if response.len() >= 3 {
            response[2]
        } else {
            0
        };
        Err(ServiceError::Negative(nrc))
    } else {
        Err(ServiceError::UnexpectedResponse)
    }
}

/// Checks a DiagnosticSessionControl response (positive 0x50).
pub fn parse_session_response(response: &[u8]) -> (r: Result<(), ServiceError>)
    ensures
        response@.len() >= 1 && response@[0] == 0x50 ==> r == Ok::<(), ServiceError>(()),
        response@.len() >= 1 && response@[0] == 0x7F ==> r == Err::<(), ServiceError>(
            ServiceError::Negative(if response@.len() >= 3 {
                response@[2]
            } else {
                0u8
            }),
        ),
        response@.len() == 0 || (response@[0] != 0x50 && response@[0] != 0x7F) ==> r == Err::<
            (),
            ServiceError,
        >(ServiceError::UnexpectedResponse),
{
    parse_simple_positive(0x50, response)
}

/// Checks a ClearDiagnosticInformation response (positive 0x54).
pub fn parse_clear_response(response: &[u8]) -> (r: Result<(), ServiceError>)
    ensures
        response@.len() >= 1 && response@[0] == 0x54 ==> r == Ok::<(), ServiceError>(()),
        response@.len() >= 1 && response@[0] == 0x7F ==> r == Err::<(), ServiceError>(
            ServiceError::Negative(if response@.len() >= 3 {
                response@[2]
            } else {
                0u8
            }),
        ),
        response@.len() == 0 || (response@[0] != 0x54 && response@[0] != 0x7F) ==> r == Err::<
            (),
            ServiceError,
        >(ServiceError::UnexpectedResponse),
{
    parse_simple_positive(0x54, response)
}

/// Checks a TesterPresent response: 0x7E is the positive answer, a negative
/// response carries its code, and anything else counts as suppressed and
/// therefore as success.
pub fn parse_tester_present_response(response: &[u8]) -> (r: Result<(), ServiceError>)
    ensures
        response@.len() >= 1 && response@[0] == 0x7F ==> r == Err::<(), ServiceError>(
            ServiceError::Negative(if response@.len() >= 3 {
                response@[2]
            } else {
                0u8
            }),
        ),
        response@.len() == 0 || response@[0] != 0x7F ==> r == Ok::<(), ServiceError>(()),
{
    if response.len() >= 1 && response[0] == 0x7F {
        let nrc: u8 = if response.len() >= 3 {
            response[2]
        } else {
            0
        };
        Err(ServiceError::Negative(nrc))
    } else {
        Ok(())
    }
}

// ------------------------------------------------------------------------
// Result records handed to the client boundary
// ------------------------------------------------------------------------

/// Outcome of an initialization attempt, for the client.
#[derive(Debug, Clone)]
pub struct BmwInitResult {
    pub success: bool,
    pub protocol: String,
    pub message: String,
}

/// Outcome of a DTC read, for the client.
#[derive(Debug, Clone)]
pub struct DtcReadResult {
    pub success: bool,
    pub dtcs: Vec<Dtc>,
    pub count: usize,
    pub message: String,
}

/// Outcome of a DiagnosticSessionControl, for the client.
#[derive(Debug, Clone)]
pub struct SessionResult {
    pub success: bool,
    pub session_type: u8,
    pub message: String,
}

/// Outcome of a SecurityAccess cycle, for the client.
#[derive(Debug, Clone)]
pub struct SecurityResult {
    pub success: bool,
    pub level: u8,
    pub message: String,
}

/// Outcome of a routine, for the client.
#[derive(Debug, Clone)]
pub struct DpfRoutineResult {
    pub success: bool,
    pub routine_id: u16,
    pub status: String,
    pub data: Vec<u8>,
}

/// Service-interval data read from the instrument cluster.
#[derive(Debug, Clone, Copy)]
pub struct ServiceInfo {
    pub oil_service_km: Option<i32>,
    pub oil_service_days: Option<i32>,
    pub inspection_km: Option<i32>,
    pub inspection_days: Option<i32>,
    pub brake_fluid_months: Option<i32>,
}

/// Lamp condition bits reported by the footwell module.
#[derive(Debug, Clone, Copy)]
pub struct LampStatus {
    pub front_left_low: bool,
    pub front_right_low: bool,
    pub front_left_high: bool,
    pub front_right_high: bool,
    pub rear_left: bool,
    pub rear_right: bool,
    pub brake_left: bool,
    pub brake_right: bool,
    pub brake_center: bool,
    pub turn_front_left: bool,
    pub turn_front_right: bool,
    pub turn_rear_left: bool,
    pub turn_rear_right: bool,
    pub fog_front_left: bool,
    pub fog_front_right: bool,
    pub fog_rear: bool,
    pub reverse_left: bool,
    pub reverse_right: bool,
}

/// The lamp bits carried by the four status bytes of the footwell module's
/// lamp-status record.
pub open spec fn lamp_status_from_bytes(front: u8, rear: u8, turn: u8, misc: u8) -> LampStatus {
    LampStatus {
        front_left_low: front & 0x01 != 0,
        front_right_low: front & 0x02 != 0,
        front_left_high: front & 0x04 != 0,
        front_right_high: front & 0x08 != 0,
        fog_front_left: front & 0x10 != 0,
        fog_front_right: front & 0x20 != 0,
        rear_left: rear & 0x01 != 0,
        rear_right: rear & 0x02 != 0,
        brake_left: rear & 0x04 != 0,
        brake_right: rear & 0x08 != 0,
        brake_center: rear & 0x10 != 0,
        fog_rear: rear & 0x20 != 0,
        turn_front_left: turn & 0x01 != 0,
        turn_front_right: turn & 0x02 != 0,
        turn_rear_left: turn & 0x04 != 0,
        turn_rear_right: turn & 0x08 != 0,
        reverse_left: misc & 0x01 != 0,
        reverse_right: misc & 0x02 != 0,
    }
}

impl LampStatus {
    /// Decodes the four status bytes of the lamp-status record.
    pub fn from_bytes(front: u8, rear: u8, turn: u8, misc: u8) -> (r: Self)
        ensures
            r == lamp_status_from_bytes(front, rear, turn, misc),
    {
        Self {
            front_left_low: front & 0x01 != 0,
            front_right_low: front & 0x02 != 0,
            front_left_high: front & 0x04 != 0,
            front_right_high: front & 0x08 != 0,
            fog_front_left: front & 0x10 != 0,
            fog_front_right: front & 0x20 != 0,
            rear_left: rear & 0x01 != 0,
            rear_right: rear & 0x02 != 0,
            brake_left: rear & 0x04 != 0,
            brake_right: rear & 0x08 != 0,
            brake_center: rear & 0x10 != 0,
            fog_rear: rear & 0x20 != 0,
            turn_front_left: turn & 0x01 != 0,
            turn_front_right: turn & 0x02 != 0,
            turn_rear_left: turn & 0x04 != 0,
            turn_rear_right: turn & 0x08 != 0,
            reverse_left: misc & 0x01 != 0,
            reverse_right: misc & 0x02 != 0,
        }
    }
}

} // verus!
