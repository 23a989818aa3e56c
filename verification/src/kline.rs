//! The K-Line link layer: framing, initialization, echo suppression.
//!
//! The K-Line is a single half-duplex wire at 10 400 baud.  A session is
//! brought up either by the 5-baud slow initialization — the functional
//! address 0x33 bit-banged at 200 ms per bit, answered by a sync byte and
//! two key bytes — or by the break-signal fast initialization answered by a
//! positive StartCommunication response.  Every transmitted byte echoes
//! back and is consumed before the response is read.

use vstd::prelude::*;
use crate::kwp::{KwpResponse, checksum_of, kwp_header, kwp_encoding};

verus! {

/// The K-Line protocol variants.
#[derive(Debug, Clone, Copy, PartialEq, Eq, Structural)]
pub enum KLineProtocol {
    /// ISO 9141-2 with 5-baud initialization.
    ISO9141,
    /// ISO 14230 KWP2000 with fast initialization.
    KWP2000Fast,
    /// ISO 14230 KWP2000 with 5-baud initialization.
    KWP2000Slow,
}

/// What an initialization attempt produced, for the client.
#[derive(Debug, Clone)]
pub struct KLineInitResult {
    pub success: bool,
    pub protocol: Option<String>,
    pub key_bytes: Vec<u8>,
    pub error: Option<String>,
}

/// Outcome of an initialization, with the timing defaults recorded.
#[derive(Debug, Clone, Copy)]
pub struct InitResult {
    pub success: bool,
    pub key_bytes: Option<[u8; 2]>,
    pub timing_p2_max: Option<u16>,
    pub timing_p3_min: Option<u16>,
}

/// A K-Line frame held as its fields; the checksum is kept explicit.
#[derive(Debug, Clone)]
pub struct KLineMessage {
    pub format: u8,
    pub target: u8,
    pub source: u8,
    pub data: Vec<u8>,
    pub checksum: u8,
}

/// The bytes of a frame before its checksum: the header (with the separate
/// length byte when the format byte carries none) and the payload.
pub open spec fn kline_frame_body(m: KLineMessage) -> Seq<u8> {
    if m.format >= 0xC0 {
        seq![m.format, m.target, m.source, m.data@.len() as u8] + m.data@
    } else {
        seq![m.format, m.target, m.source] + m.data@
    }
}

/// What decoding a byte stream yields: format, target, source, payload and
/// checksum.  Mirrors the encoding: a format byte below 0x80 is headerless
/// and rejected; 0xC0 and above carries a separate length byte.
pub open spec fn kline_parse(bytes: Seq<u8>) -> Option<(u8, u8, u8, Seq<u8>, u8)> {
    if bytes.len() < 4 {
        None
    } else if bytes[0] < 0x80 {
        None
    } else if bytes[0] >= 0xC0 && bytes.len() < 5 {
        None
    } else {
        let data_len: int = if bytes[0] >= 0xC0 {
            bytes[3] as int
        } else {
            bytes[0] - 0x80
        };
        let data_start: int = if bytes[0] >= 0xC0 {
            4
        } else {
            3
        };
        let total = data_start + data_len + 1;
        if bytes.len() < total {
            None
        } else if checksum_of(bytes.take(total - 1)) != bytes[total - 1] {
            None
        } else {
            Some(
                (
                    bytes[0],
                    bytes[1],
                    bytes[2],
                    bytes.subrange(data_start, data_start + data_len),
                    bytes[total - 1],
                ),
            )
        }
    }
}

impl KLineMessage {
    /// A message built by `new`: canonical format byte and a checksum that
    /// covers every other emitted byte.
    pub open spec fn wf(self) -> bool {
        &&& self.data@.len() <= 255
        &&& self.format == (if self.data@.len() <= 63 {
            (0x80 + self.data@.len()) as u8
        } else {
            0xC0u8
        })
        &&& self.checksum == checksum_of(kline_frame_body(self))
    }

    /// Builds a frame for a payload of at most 255 bytes; the checksum is
    /// filled in.
    pub fn new(target: u8, source: u8, data: Vec<u8>) -> (r: Self)
        requires
            data@.len() <= 255,
        ensures
            r.target == target,
            r.source == source,
            r.data == data,
            r.wf(),
    {
        let format: u8 = if data.len() <= 63 {
            0x80 + data.len() as u8
        } else {
            0xC0
        };
        let mut msg = Self { format, target, source, data, checksum: 0 };
        let ck = msg.calculate_checksum();
        msg.checksum = ck;
        msg
    }

    /// The modulo-256 checksum over every emitted byte but the checksum.
    pub fn calculate_checksum(&self) -> (r: u8)
        ensures
            r == checksum_of(kline_frame_body(*self)),
    {
        let mut body: Vec<u8> = Vec::new();
        body.push(self.format);
        body.push(self.target);
        body.push(self.source);
        if self.format >= 0xC0 {
            body.push(self.data.len() as u8);
        }
        body.extend_from_slice(self.data.as_slice());
        proof {
            assert(body@ =~= kline_frame_body(*self));
        }
        crate::kwp::compute_checksum(body.as_slice())
    }

    /// Serializes the frame: header, payload, checksum.
    pub fn to_bytes(&self) -> (r: Vec<u8>)
        requires
            self.wf(),
        ensures
            r@ == kwp_encoding(self.target, self.source, self.data@),
    {
        let mut bytes: Vec<u8> = Vec::new();
        bytes.push(self.format);
        bytes.push(self.target);
        bytes.push(self.source);
        if self.format >= 0xC0 {
            bytes.push(self.data.len() as u8);
        }
        bytes.extend_from_slice(self.data.as_slice());
        proof {
            assert(bytes@ =~= kwp_header(self.target, self.source, self.data@.len())
                + self.data@);
            assert(kline_frame_body(*self) =~= bytes@);
        }
        bytes.push(self.checksum);
        proof {
            assert(bytes@ =~= kwp_encoding(self.target, self.source, self.data@));
        }
        bytes
    }

    /// Parses a frame and verifies its checksum.
    pub fn from_bytes(bytes: &[u8]) -> (r: Result<Self, String>)
        ensures
            match r {
                Ok(m) => kline_parse(bytes@) == Some(
                    (m.format, m.target, m.source, m.data@, m.checksum),
                ),
                Err(_) => kline_parse(bytes@) is None,
            },
    {
        if bytes.len() < 4 {
            return Err("Message too short".to_owned());
        }
        let format = bytes[0];
        let target = bytes[1];
        let source = bytes[2];
        if format < 0x80 {
            return Err("Headerless frame".to_owned());
        }
        if format >= 0xC0 && bytes.len() < 5 {
            return Err("Message too short for extended length".to_owned());
        }
        let data_len: usize = if format >= 0xC0 {
            bytes[3] as usize
        } else {
            (format - 0x80) as usize
        };
        let data_start: usize = if format >= 0xC0 {
            4
        } else {
            3
        };
        let total = data_start + data_len + 1;
        if bytes.len() < total {
            return Err("Message incomplete".to_owned());
        }
        let body = vstd::slice::slice_subrange(bytes, 0, total - 1);
        let calc = crate::kwp::compute_checksum(body);
        let checksum = bytes[total - 1];
        if calc != checksum {
            return Err("Invalid checksum".to_owned());
        }
        let data = vstd::slice::slice_to_vec(
            vstd::slice::slice_subrange(bytes, data_start, data_start + data_len),
        );
        Ok(Self { format, target, source, data, checksum })
    }
}

/// Round trip: a frame of at most 255 payload bytes decodes to exactly the
/// fields it was encoded from, checksum included.
pub proof fn lemma_kline_round_trip(target: u8, source: u8, data: Seq<u8>)
    requires
        data.len() <= 255,
    ensures
        kline_parse(kwp_encoding(target, source, data)) == Some(
            (
                if data.len() <= 63 {
                    (0x80 + data.len()) as u8
                } else {
                    0xC0u8
                },
                target,
                source,
                data,
                checksum_of(kwp_header(target, source, data.len()) + data),
            ),
        ),
{
    let hdr = kwp_header(target, source, data.len());
    let body = hdr + data;
    let bytes = kwp_encoding(target, source, data);
    assert(bytes == body.push(checksum_of(body)));
    let hl: int = if data.len() <= 63 {
        3
    } else {
        4
    };
    assert(hdr.len() == hl);
    assert(bytes.len() == hl + data.len() + 1);
    assert(bytes[0] == hdr[0]);
    if data.len() <= 63 {
        assert(bytes[0] == 0x80 + data.len());
        assert(0x80 <= bytes[0] < 0xC0);
    } else {
        assert(bytes[0] == 0xC0);
        assert(bytes[3] == hdr[3]);
        assert(hdr[3] == data.len() as u8);
    }
    let data_len: int = if bytes[0] >= 0xC0 {
        bytes[3] as int
    } else {
        bytes[0] - 0x80
    };
    assert(data_len == data.len());
    let data_start: int = if bytes[0] >= 0xC0 {
        4
    } else {
        3
    };
    assert(data_start == hl);
    let total = data_start + data_len + 1;
    assert(bytes.len() == total);
    assert(bytes.take(total - 1) =~= body);
    assert(bytes[total - 1] == checksum_of(body));
    assert(bytes.subrange(data_start, data_start + data_len) =~= data);
}

/// The K-Line handler's addressing and pacing configuration.
#[derive(Debug, Clone, Copy)]
pub struct KLineHandler {
    /// Target ECU address; 0x12 is the engine controller.
    pub target_address: u8,
    /// Tester address, 0xF1 by standard.
    pub source_address: u8,
    /// The protocol a successful initialization selected.
    pub protocol: Option<KLineProtocol>,
    /// Inter-byte pacing of transmitted requests (P4), in milliseconds.
    pub p4_timing: u64,
}

impl KLineHandler {
    /// The default configuration: engine controller, standard tester
    /// address, P4 of five milliseconds.
    pub fn new() -> (r: Self)
        ensures
            r.target_address == 0x12,
            r.source_address == 0xF1,
            r.protocol is None,
            r.p4_timing == 5,
    {
        Self { target_address: 0x12, source_address: 0xF1, protocol: None, p4_timing: 5 }
    }
}

impl Default for KLineHandler {
    /// The same configuration `new` gives.
    fn default() -> (r: Self)
        ensures
            r.target_address == 0x12,
            r.source_address == 0xF1,
            r.protocol is None,
            r.p4_timing == 5,
    {
        Self::new()
    }
}

// ------------------------------------------------------------------------
// 5-baud slow initialization
// ------------------------------------------------------------------------

/// The functional initialization address always placed on the bus by the
/// slow initialization, whatever the physical target (ISO 14230-2).
pub const SLOW_INIT_ADDRESS: u8 = 0x33;

/// Bit `i` of a byte, as 0 or 1.
pub open spec fn bit_of(a: u8, i: u8) -> u8 {
    (a >> i) & 1
}

/// The number of one bits among the seven data bits.
pub open spec fn ones_prefix(a: u8, n: int) -> int
    decreases n,
{
    if n <= 0 {
        0
    } else {
        ones_prefix(a, n - 1) + bit_of(a, (n - 1) as u8)
    }
}

/// The odd parity bit over the seven data bits: 1 when their one count is
/// even, so that the nine payload bits carry an odd number of ones.
pub open spec fn odd_parity_bit(a: u8) -> u8 {
    if ones_prefix(a, 7) % 2 == 0 {
        1
    } else {
        0
    }
}

/// The ten line levels of one 5-baud address transmission, each held for
/// 200 ms: start bit low, seven data bits least-significant first, odd
/// parity, stop bit high.
pub open spec fn five_baud_bits_view(a: u8) -> Seq<u8> {
    seq![
        0u8,
        bit_of(a, 0),
        bit_of(a, 1),
        bit_of(a, 2),
        bit_of(a, 3),
        bit_of(a, 4),
        bit_of(a, 5),
        bit_of(a, 6),
        odd_parity_bit(a),
        1u8,
    ]
}

/// Computes the ten line levels bit-banged for a 5-baud address byte.
pub fn five_baud_bits(address: u8) -> (r: Vec<u8>)
    ensures
        r@ == five_baud_bits_view(address),
{
    let mut out: Vec<u8> = Vec::new();
    out.push(0);
    let mut ones: u8 = 0;
    let mut i: u8 = 0;
    while i < 7
        invariant
            0 <= i <= 7,
            out@.len() == i + 1,
            out@[0] == 0u8,
            forall|j: u8| j < i ==> out@[j as int + 1] == #[trigger] bit_of(address, j),
            ones == ones_prefix(address, i as int),
            ones <= i,
        decreases 7 - i,
    {
        let b = (address >> i) & 1;
        proof {
            assert((address >> i) & 1 == 0 || (address >> i) & 1 == 1) by (bit_vector);
        }
        out.push(b);
        ones = ones + b;
        i = i + 1;
    }
    let parity: u8 = if ones % 2 == 0 {
        1
    } else {
        0
    };
    out.push(parity);
    out.push(1);
    proof {
        assert(out@ =~= five_baud_bits_view(address));
    }
    out
}

/// Why an initialization failed.
#[derive(Debug, Clone, Copy, PartialEq, Eq, Structural)]
pub enum InitError {
    /// A deadline passed without the expected byte.
    InitTimeout,
    /// An unexpected byte arrived where the inverted address was due.
    InitProtocolError,
}

/// The states of the slow-initialization exchange, after the address byte
/// went out at 5 baud and the line is back at 10 400 baud.
#[derive(Debug, Clone, Copy, PartialEq, Eq, Structural)]
pub enum SlowInitState {
    /// Waiting for the synchronization byte 0x55.
    AwaitSync,
    /// Waiting for the first key byte.
    AwaitKb1,
    /// Waiting for the second key byte.
    AwaitKb2(u8),
    /// Inverted KB2 went out; waiting for the inverted address 0xCC.
    AwaitInvertedAddress(u8, u8),
    /// The session is up, with these key bytes.
    Ready(u8, u8),
    /// The initialization failed.
    Failed(InitError),
}

/// What the slow-initialization machine observes.
#[derive(Debug, Clone, Copy, PartialEq, Eq, Structural)]
pub enum SlowInitEvent {
    /// One byte arrived on the line.
    ByteReceived(u8),
    /// The state's deadline passed.
    TimedOut,
}

/// What the machine asks the transport to do next.
#[derive(Debug, Clone, Copy, PartialEq, Eq, Structural)]
pub enum SlowInitAction {
    /// Nothing to transmit.
    Quiet,
    /// Transmit this byte (after the W4 pause): the inverted second key
    /// byte as acknowledgment.
    SendByte(u8),
}

/// The bitwise inverse of a byte.
pub open spec fn inverted(b: u8) -> u8 {
    (0xFF - b) as u8
}

/// One step of the slow-initialization machine.
pub open spec fn slow_init_step_spec(state: SlowInitState, event: SlowInitEvent) -> (
    SlowInitState,
    SlowInitAction,
) {
    match state {
        SlowInitState::AwaitSync => match event {
            SlowInitEvent::ByteReceived(b) => if b == 0x55 {
                (SlowInitState::AwaitKb1, SlowInitAction::Quiet)
            } else {
                (SlowInitState::AwaitSync, SlowInitAction::Quiet)
            },
            SlowInitEvent::TimedOut => (
                SlowInitState::Failed(InitError::InitTimeout),
                SlowInitAction::Quiet,
            ),
        },
        SlowInitState::AwaitKb1 => match event {
            SlowInitEvent::ByteReceived(b) => (SlowInitState::AwaitKb2(b), SlowInitAction::Quiet),
            SlowInitEvent::TimedOut => (
                SlowInitState::Failed(InitError::InitTimeout),
                SlowInitAction::Quiet,
            ),
        },
        SlowInitState::AwaitKb2(kb1) => match event {
            SlowInitEvent::ByteReceived(b) => (
                SlowInitState::AwaitInvertedAddress(kb1, b),
                SlowInitAction::SendByte(inverted(b)),
            ),
            SlowInitEvent::TimedOut => (
                SlowInitState::Failed(InitError::InitTimeout),
                SlowInitAction::Quiet,
            ),
        },
        SlowInitState::AwaitInvertedAddress(kb1, kb2) => match event {
            SlowInitEvent::ByteReceived(b) => if b == inverted(SLOW_INIT_ADDRESS) {
                (SlowInitState::Ready(kb1, kb2), SlowInitAction::Quiet)
            } else {
                (SlowInitState::Failed(InitError::InitProtocolError), SlowInitAction::Quiet)
            },
            SlowInitEvent::TimedOut => (
                SlowInitState::Failed(InitError::InitTimeout),
                SlowInitAction::Quiet,
            ),
        },
        SlowInitState::Ready(kb1, kb2) => (SlowInitState::Ready(kb1, kb2), SlowInitAction::Quiet),
        SlowInitState::Failed(e) => (SlowInitState::Failed(e), SlowInitAction::Quiet),
    }
}

/// Advances the slow-initialization machine by one event.
pub fn slow_init_step(state: SlowInitState, event: SlowInitEvent) -> (r: (
    SlowInitState,
    SlowInitAction,
))
    ensures
        r == slow_init_step_spec(state, event),
{
    match state {
        SlowInitState::AwaitSync => match event {
            SlowInitEvent::ByteReceived(b) => if b == 0x55 {
                (SlowInitState::AwaitKb1, SlowInitAction::Quiet)
            } else {
                (SlowInitState::AwaitSync, SlowInitAction::Quiet)
            },
            SlowInitEvent::TimedOut => (
                SlowInitState::Failed(InitError::InitTimeout),
                SlowInitAction::Quiet,
            ),
        },
        SlowInitState::AwaitKb1 => match event {
            SlowInitEvent::ByteReceived(b) => (SlowInitState::AwaitKb2(b), SlowInitAction::Quiet),
            SlowInitEvent::TimedOut => (
                SlowInitState::Failed(InitError::InitTimeout),
                SlowInitAction::Quiet,
            ),
        },
        SlowInitState::AwaitKb2(kb1) => match event {
            SlowInitEvent::ByteReceived(b) => (
                SlowInitState::AwaitInvertedAddress(kb1, b),
                SlowInitAction::SendByte(0xFF - b),
            ),
            SlowInitEvent::TimedOut => (
                SlowInitState::Failed(InitError::InitTimeout),
                SlowInitAction::Quiet,
            ),
        },
        SlowInitState::AwaitInvertedAddress(kb1, kb2) => match event {
            SlowInitEvent::ByteReceived(b) => if b == 0xFF - SLOW_INIT_ADDRESS {
                (SlowInitState::Ready(kb1, kb2), SlowInitAction::Quiet)
            } else {
                (SlowInitState::Failed(InitError::InitProtocolError), SlowInitAction::Quiet)
            },
            SlowInitEvent::TimedOut => (
                SlowInitState::Failed(InitError::InitTimeout),
                SlowInitAction::Quiet,
            ),
        },
        SlowInitState::Ready(kb1, kb2) => (SlowInitState::Ready(kb1, kb2), SlowInitAction::Quiet),
        SlowInitState::Failed(e) => (SlowInitState::Failed(e), SlowInitAction::Quiet),
    }
}

// ------------------------------------------------------------------------
// Fast initialization
// ------------------------------------------------------------------------

/// What the StartCommunication response means.
#[derive(Debug, Clone, Copy, PartialEq, Eq, Structural)]
pub enum FastInitOutcome {
    /// Positive response 0xC1: session up, these key bytes recorded.
    Ready(u8, u8),
    /// A negative response with this code.
    NegativeResponse(u8),
    /// Anything else: the initialization failed.
    Failed,
}

/// The key bytes assumed when a positive response carries none.
pub const DEFAULT_KEY_BYTES: [u8; 2] = [0x8F, 0xEA];

/// Classifies the response to the fast-initialization StartCommunication
/// request: 0xC1 with its key bytes means the session is up (the defaults
/// stand in when the response carries fewer than two bytes); 0x7F is a
/// negative response with its code; anything else is a failure.
pub fn classify_fast_init_response(resp: &KwpResponse) -> (r: FastInitOutcome)
    ensures
        resp.service == 0xC1 && resp.data@.len() >= 2 ==> r == FastInitOutcome::Ready(
            resp.data@[0],
            resp.data@[1],
        ),
        resp.service == 0xC1 && resp.data@.len() < 2 ==> r == FastInitOutcome::Ready(0x8F, 0xEA),
        resp.service == 0x7F && resp.data@.len() >= 2 ==> r == FastInitOutcome::NegativeResponse(
            resp.data@[1],
        ),
        resp.service == 0x7F && resp.data@.len() < 2 ==> r == FastInitOutcome::NegativeResponse(0),
        resp.service != 0xC1 && resp.service != 0x7F ==> r == FastInitOutcome::Failed,
{
    if resp.service == 0xC1 {
        if resp.data.len() >= 2 {
            FastInitOutcome::Ready(resp.data[0], resp.data[1])
        } else {
            FastInitOutcome::Ready(0x8F, 0xEA)
        }
    } else if resp.service == 0x7F {
        if resp.data.len() >= 2 {
            FastInitOutcome::NegativeResponse(resp.data[1])
        } else {
            FastInitOutcome::NegativeResponse(0)
        }
    } else {
        FastInitOutcome::Failed
    }
}

impl InitResult {
    /// The record of a fast-initialization attempt: on success the key
    /// bytes are kept and the default timing parameters (P2max 50 ms,
    /// P3min 55 ms) are recorded, since none were negotiated.
    pub fn from_fast_init(outcome: FastInitOutcome) -> (r: Self)
        ensures
            match outcome {
                FastInitOutcome::Ready(kb1, kb2) => r.success && r.key_bytes == Some([kb1, kb2])
                    && r.timing_p2_max == Some(50u16) && r.timing_p3_min == Some(55u16),
                FastInitOutcome::NegativeResponse(_) => !r.success && r.key_bytes is None
                    && r.timing_p2_max is None && r.timing_p3_min is None,
                FastInitOutcome::Failed => !r.success && r.key_bytes is None && r.timing_p2_max
                    is None && r.timing_p3_min is None,
            },
    {
        match outcome {
            FastInitOutcome::Ready(kb1, kb2) => Self {
                success: true,
                key_bytes: Some([kb1, kb2]),
                timing_p2_max: Some(50),
                timing_p3_min: Some(55),
            },
            FastInitOutcome::NegativeResponse(_) => Self {
                success: false,
                key_bytes: None,
                timing_p2_max: None,
                timing_p3_min: None,
            },
            FastInitOutcome::Failed => Self {
                success: false,
                key_bytes: None,
                timing_p2_max: None,
                timing_p3_min: None,
            },
        }
    }

    /// The record of a slow-initialization attempt: success with the key
    /// bytes and the default timing when the machine reached its ready
    /// state, failure otherwise (key bytes kept if both had arrived).
    pub fn from_slow_init(state: SlowInitState) -> (r: Self)
        ensures
            match state {
                SlowInitState::Ready(kb1, kb2) => r.success && r.key_bytes == Some([kb1, kb2])
                    && r.timing_p2_max == Some(50u16) && r.timing_p3_min == Some(55u16),
                SlowInitState::AwaitInvertedAddress(kb1, kb2) => !r.success && r.key_bytes == Some(
                    [kb1, kb2],
                ),
                _ => !r.success && r.key_bytes is None,
            },
    {
        match state {
            SlowInitState::Ready(kb1, kb2) => Self {
                success: true,
                key_bytes: Some([kb1, kb2]),
                timing_p2_max: Some(50),
                timing_p3_min: Some(55),
            },
            SlowInitState::AwaitInvertedAddress(kb1, kb2) => Self {
                success: false,
                key_bytes: Some([kb1, kb2]),
                timing_p2_max: None,
                timing_p3_min: None,
            },
            _ => Self {
                success: false,
                key_bytes: None,
                timing_p2_max: None,
                timing_p3_min: None,
            },
        }
    }
}

// ------------------------------------------------------------------------
// Echo suppression
// ------------------------------------------------------------------------

/// Compares the echo read back from the half-duplex line with what was
/// written.  A mismatch is reported to the caller, who logs it and goes on:
/// if the echo really corrupted state, the response parse fails by itself.
pub fn echo_matches(sent: &[u8], received: &[u8]) -> (r: bool)
    ensures
        r == (sent@ == received@),
{
    if sent.len() != received.len() {
        proof {
            assert(sent@ != received@);
        }
        return false;
    }
    let mut i: usize = 0;
    while i < sent.len()
        invariant
            sent@.len() == received@.len(),
            0 <= i <= sent@.len(),
            forall|j: int| 0 <= j < i ==> sent@[j] == received@[j],
        decreases sent@.len() - i,
    {
        if sent[i] != received[i] {
            proof {
                assert(sent@ != received@);
            }
            return false;
        }
        i = i + 1;
    }
    proof {
        assert(sent@ =~= received@);
    }
    true
}

// ------------------------------------------------------------------------
// ECU addresses and DTC status of the direct-adapter variant
// ------------------------------------------------------------------------

/// The ECUs reachable over the K-Line, by name.
#[derive(Debug, Clone, Copy, PartialEq, Eq, Structural)]
pub enum EcuAddress {
    /// Engine (digital motor electronics).
    DME,
    /// Transmission.
    EGS,
    /// Stability control.
    DSC,
    /// Instrument cluster.
    KOMBI,
    /// Climate control.
    IHKA,
}

impl EcuAddress {
    /// The physical K-Line address of the ECU.
    pub fn address(self) -> (r: u8)
        ensures
            self == EcuAddress::DME ==> r == 0x12,
            self == EcuAddress::EGS ==> r == 0x18,
            self == EcuAddress::DSC ==> r == 0x44,
            self == EcuAddress::KOMBI ==> r == 0x60,
            self == EcuAddress::IHKA ==> r == 0x5B,
    {
        match self {
            EcuAddress::DME => 0x12,
            EcuAddress::EGS => 0x18,
            EcuAddress::DSC => 0x44,
            EcuAddress::KOMBI => 0x60,
            EcuAddress::IHKA => 0x5B,
        }
    }
}

/// DTC status flags without the raw byte, as the direct-adapter variant
/// reports them.
#[derive(Debug, Clone, Copy)]
pub struct DtcStatus {
    pub test_failed: bool,
    pub test_failed_this_cycle: bool,
    pub pending: bool,
    pub confirmed: bool,
    pub test_not_completed_since_clear: bool,
    pub test_failed_since_clear: bool,
    pub test_not_completed_this_cycle: bool,
    pub warning_indicator: bool,
}

/// The decoding of a status byte into these flags.
pub open spec fn kline_status_from_byte(status: u8) -> DtcStatus {
    DtcStatus {
        test_failed: status & 0x01 != 0,
        test_failed_this_cycle: status & 0x02 != 0,
        pending: status & 0x04 != 0,
        confirmed: status & 0x08 != 0,
        test_not_completed_since_clear: status & 0x10 != 0,
        test_failed_since_clear: status & 0x20 != 0,
        test_not_completed_this_cycle: status & 0x40 != 0,
        warning_indicator: status & 0x80 != 0,
    }
}

impl From<u8> for DtcStatus {
    /// Decodes the status byte bit-wise.
    fn from(status: u8) -> (r: Self)
        ensures
            r == kline_status_from_byte(status),
    {
        Self {
            test_failed: (status & 0x01) != 0,
            test_failed_this_cycle: (status & 0x02) != 0,
            pending: (status & 0x04) != 0,
            confirmed: (status & 0x08) != 0,
            test_not_completed_since_clear: (status & 0x10) != 0,
            test_failed_since_clear: (status & 0x20) != 0,
            test_not_completed_this_cycle: (status & 0x40) != 0,
            warning_indicator: (status & 0x80) != 0,
        }
    }
}

impl vstd::std_specs::convert::FromSpecImpl<u8> for DtcStatus {
    open spec fn obeys_from_spec() -> bool {
        true
    }

    open spec fn from_spec(status: u8) -> Self {
        kline_status_from_byte(status)
    }
}

} // verus!
