//! KWP2000 (ISO 14230) message framing.
//!
//! A frame on the wire is `FMT TGT SRC [LEN] DATA... CHK`: a format byte
//! whose low six bits carry the payload length when it fits, the target and
//! source addresses, an optional separate length byte when the format byte's
//! length field is zero, the service payload, and a modulo-256 checksum over
//! every preceding byte.

use vstd::prelude::*;
use vstd::arithmetic::div_mod::lemma_add_mod_noop;

verus! {

/// Sum of a byte sequence as an unbounded integer.
pub open spec fn byte_sum(s: Seq<u8>) -> int
    decreases s.len(),
{
    if s.len() == 0 {
        0
    } else {
        byte_sum(s.drop_last()) + s.last()
    }
}

/// Modulo-256 checksum: the low byte of the sum of all bytes.
pub open spec fn checksum_of(s: Seq<u8>) -> u8 {
    (byte_sum(s) % 256) as u8
}

proof fn lemma_byte_sum_nonneg(s: Seq<u8>)
    ensures
        byte_sum(s) >= 0,
    decreases s.len(),
{
    if s.len() > 0 {
        lemma_byte_sum_nonneg(s.drop_last());
    }
}

proof fn lemma_byte_sum_push(s: Seq<u8>, b: u8)
    ensures
        byte_sum(s.push(b)) == byte_sum(s) + b,
{
    assert(s.push(b).drop_last() =~= s);
}

/// Computes the modulo-256 checksum of a byte slice.
pub fn compute_checksum(bytes: &[u8]) -> (r: u8)
    ensures
        r == checksum_of(bytes@),
{
    let mut sum: u8 = 0;
    let mut i: usize = 0;
    while i < bytes.len()
        invariant
            0 <= i <= bytes@.len(),
            sum == byte_sum(bytes@.take(i as int)) % 256,
        decreases bytes@.len() - i,
    {
        proof {
            let pre = bytes@.take(i as int);
            lemma_byte_sum_nonneg(pre);
            lemma_byte_sum_push(pre, bytes@[i as int]);
            assert(pre.push(bytes@[i as int]) =~= bytes@.take(i as int + 1));
            lemma_add_mod_noop(byte_sum(pre), bytes@[i as int] as int, 256);
        }
        sum = ((sum as u16 + bytes[i] as u16) % 256) as u8;
        i = i + 1;
    }
    proof {
        assert(bytes@.take(bytes@.len() as int) =~= bytes@);
        lemma_byte_sum_nonneg(bytes@);
    }
    sum
}

/// Errors of the KWP2000 encoder.
#[derive(Debug, Clone, Copy, PartialEq, Eq)]
pub enum KwpError {
    /// The payload does not fit in a single KWP2000 frame (more than 255
    /// bytes).
    MessageTooLong,
}

/// The header of a frame: short form with the length folded into the format
/// byte, or long form with a separate length byte.
pub open spec fn kwp_header(target: u8, source: u8, len: nat) -> Seq<u8> {
    if len <= 63 {
        seq![(0x80 + len) as u8, target, source]
    } else {
        seq![0xC0u8, target, source, len as u8]
    }
}

/// The full wire encoding of a frame: header, payload, checksum.
pub open spec fn kwp_encoding(target: u8, source: u8, data: Seq<u8>) -> Seq<u8> {
    let body = kwp_header(target, source, data.len()) + data;
    body.push(checksum_of(body))
}

/// What decoding a byte stream yields: source, target, service identifier
/// (the first payload byte), and the rest of the payload.
pub open spec fn kwp_parse(bytes: Seq<u8>) -> Option<(u8, u8, u8, Seq<u8>)> {
    if bytes.len() < 4 {
        None
    } else if bytes[0] < 0x80 {
        // Headerless frames are not used on this bus.
        None
    } else if bytes[0] >= 0xC0 && bytes.len() < 5 {
        None
    } else {
        let data_len: int = if bytes[0] >= 0xC0 {
            bytes[3] as int
        } else {
            bytes[0] - 0x80
        };
        let data_start: int = if bytes[0] >= 0xC0 {
            4
        } else {
            3
        };
        let total = data_start + data_len + 1;
        if bytes.len() < total {
            None
        } else if checksum_of(bytes.take(total - 1)) != bytes[total - 1] {
            None
        } else if data_len == 0 {
            None
        } else {
            let payload = bytes.subrange(data_start, data_start + data_len);
            Some((bytes[2], bytes[1], payload[0], payload.drop_first()))
        }
    }
}

/// A KWP2000 request before encoding.
#[derive(Debug, Clone)]
pub struct KwpMessage {
    pub source: u8,
    pub target: u8,
    pub data: Vec<u8>,
}

/// A decoded KWP2000 response: addresses, service identifier, payload after
/// the service byte.
#[derive(Debug, Clone)]
pub struct KwpResponse {
    pub source: u8,
    pub target: u8,
    pub service: u8,
    pub data: Vec<u8>,
}

impl KwpMessage {
    /// Creates a message from addresses and service payload.
    pub fn new(source: u8, target: u8, data: Vec<u8>) -> (r: Self)
        ensures
            r.source == source,
            r.target == target,
            r.data == data,
    {
        Self { source, target, data }
    }

    /// Encodes the message for transmission.  A payload longer than 255
    /// bytes cannot be carried by a single KWP2000 frame and is rejected.
    pub fn to_bytes(&self) -> (r: Result<Vec<u8>, KwpError>)
        ensures
            self.data@.len() <= 255 ==> (r matches Ok(b) && b@ == kwp_encoding(
                self.target,
                self.source,
                self.data@,
            )),
            self.data@.len() > 255 ==> r === Err(KwpError::MessageTooLong),
    {
        let len = self.data.len();
        if len > 255 {
            return Err(KwpError::MessageTooLong);
        }
        let mut bytes: Vec<u8> = Vec::new();
        if len <= 63 {
            bytes.push(0x80 + len as u8);
            bytes.push(self.target);
            bytes.push(self.source);
        } else {
            bytes.push(0xC0);
            bytes.push(self.target);
            bytes.push(self.source);
            bytes.push(len as u8);
        }
        proof {
            assert(bytes@ =~= kwp_header(self.target, self.source, self.data@.len()));
        }
        bytes.extend_from_slice(self.data.as_slice());
        proof {
            assert(bytes@ =~= kwp_header(self.target, self.source, self.data@.len())
                + self.data@);
        }
        let ck = compute_checksum(bytes.as_slice());
        bytes.push(ck);
        proof {
            assert(bytes@ =~= kwp_encoding(self.target, self.source, self.data@));
        }
        Ok(bytes)
    }

    /// StartCommunication request (service 0x81).
    pub fn start_communication(source: u8, target: u8) -> (r: Self)
        ensures
            r.source == source,
            r.target == target,
            r.data@ == seq![0x81u8],
    {
        let r = Self::new(source, target, vec![0x81]);
        proof {
            assert(r.data@ =~= seq![0x81u8]);
        }
        r
    }

    /// StopCommunication request (service 0x82).
    pub fn stop_communication(source: u8, target: u8) -> (r: Self)
        ensures
            r.source == source,
            r.target == target,
            r.data@ == seq![0x82u8],
    {
        let r = Self::new(source, target, vec![0x82]);
        proof {
            assert(r.data@ =~= seq![0x82u8]);
        }
        r
    }

    /// TesterPresent request (service 0x3E).
    pub fn tester_present(source: u8, target: u8) -> (r: Self)
        ensures
            r.source == source,
            r.target == target,
            r.data@ == seq![0x3Eu8],
    {
        let r = Self::new(source, target, vec![0x3E]);
        proof {
            assert(r.data@ =~= seq![0x3Eu8]);
        }
        r
    }

    /// ReadDTCByStatus request (service 0x18) with a status mask.
    pub fn read_dtc(source: u8, target: u8, status_mask: u8) -> (r: Self)
        ensures
            r.source == source,
            r.target == target,
            r.data@ == seq![0x18u8, 0x00u8, status_mask],
    {
        let r = Self::new(source, target, vec![0x18, 0x00, status_mask]);
        proof {
            assert(r.data@ =~= seq![0x18u8, 0x00u8, status_mask]);
        }
        r
    }

    /// ClearDiagnosticInformation request (service 0x14) for all groups.
    pub fn clear_dtc(source: u8, target: u8) -> (r: Self)
        ensures
            r.source == source,
            r.target == target,
            r.data@ == seq![0x14u8, 0xFFu8, 0x00u8],
    {
        let r = Self::new(source, target, vec![0x14, 0xFF, 0x00]);
        proof {
            assert(r.data@ =~= seq![0x14u8, 0xFFu8, 0x00u8]);
        }
        r
    }

    /// ReadDataByLocalIdentifier request (service 0x21).
    pub fn read_data_local(source: u8, target: u8, pid: u8) -> (r: Self)
        ensures
            r.source == source,
            r.target == target,
            r.data@ == seq![0x21u8, pid],
    {
        let r = Self::new(source, target, vec![0x21, pid]);
        proof {
            assert(r.data@ =~= seq![0x21u8, pid]);
        }
        r
    }
}

impl KwpResponse {
    /// Decodes a frame from raw received bytes.  Returns `None` on a short,
    /// headerless, incomplete, checksum-mismatched or payload-less frame.
    /// Bytes beyond the frame's own length are ignored.
    pub fn parse(data: &[u8]) -> (r: Option<Self>)
        ensures
            match r {
                Some(resp) => kwp_parse(data@) == Some(
                    (resp.source, resp.target, resp.service, resp.data@),
                ),
                None => kwp_parse(data@) is None,
            },
    {
        if data.len() < 4 {
            return None;
        }
        let fmt = data[0];
        let target = data[1];
        let source = data[2];
        if fmt < 0x80 {
            return None;
        }
        if fmt >= 0xC0 && data.len() < 5 {
            return None;
        }
        let data_len: usize = if fmt >= 0xC0 {
            data[3] as usize
        } else {
            (fmt - 0x80) as usize
        };
        let data_start: usize = if fmt >= 0xC0 {
            4
        } else {
            3
        };
        let total = data_start + data_len + 1;
        if data.len() < total {
            return None;
        }
        let body = vstd::slice::slice_subrange(data, 0, total - 1);
        let calc = compute_checksum(body);
        if calc != data[total - 1] {
            return None;
        }
        if data_len == 0 {
            return None;
        }
        let service = data[data_start];
        let payload = vstd::slice::slice_subrange(data, data_start + 1, data_start + data_len);
        let rest = vstd::slice::slice_to_vec(payload);
        proof {
            let spec_payload = data@.subrange(data_start as int, data_start as int + data_len as int);
            assert(spec_payload[0] == data@[data_start as int]);
            assert(rest@ =~= spec_payload.drop_first());
        }
        Some(Self { source, target, service, data: rest })
    }

    /// A positive response: the service identifier carries the +0x40 offset
    /// and is not the negative-response marker.
    pub fn is_positive(&self) -> (r: bool)
        ensures
            r == (self.service >= 0x40 && self.service != 0x7F),
    {
        self.service >= 0x40 && self.service != 0x7F
    }

    /// A negative response: service identifier 0x7F.
    pub fn is_negative(&self) -> (r: bool)
        ensures
            r == (self.service == 0x7F),
    {
        self.service == 0x7F
    }

    /// The text of the negative response code, present exactly when
    /// `error_code` is.
    pub fn error_description(&self) -> (r: Option<&'static str>)
        ensures
            self.service == 0x7F && self.data@.len() >= 2 ==> (r matches Some(s) && s@
                == kwp_error_description_view(self.data@[1])),
            !(self.service == 0x7F && self.data@.len() >= 2) ==> r is None,
    {
        match self.error_code() {
            Some(code) => Some(kwp_error_description(code)),
            None => None,
        }
    }

    /// The negative response code, present when this is a negative response
    /// that carries the rejected service and the code.
    pub fn error_code(&self) -> (r: Option<u8>)
        ensures
            self.service == 0x7F && self.data@.len() >= 2 ==> r == Some(self.data@[1]),
            !(self.service == 0x7F && self.data@.len() >= 2) ==> r is None,
    {
        if self.service == 0x7F && self.data.len() >= 2 {
            Some(self.data[1])
        } else {
            None
        }
    }
}

/// The text for each KWP2000 negative response code.
pub open spec fn kwp_error_description_view(code: u8) -> Seq<char> {
    if code == 0x10 {
        "General reject"@
    } else if code == 0x11 {
        "Service not supported"@
    } else if code == 0x12 {
        "Sub-function not supported"@
    } else if code == 0x13 {
        "Message length incorrect"@
    } else if code == 0x14 {
        "Response too long"@
    } else if code == 0x21 {
        "Busy - repeat request"@
    } else if code == 0x22 {
        "Conditions not correct"@
    } else if code == 0x23 {
        "Routine not complete"@
    } else if code == 0x24 {
        "Request sequence error"@
    } else if code == 0x25 {
        "No response from subnet"@
    } else if code == 0x26 {
        "Failure prevents execution"@
    } else if code == 0x31 {
        "Request out of range"@
    } else if code == 0x33 {
        "Security access denied"@
    } else if code == 0x35 {
        "Invalid key"@
    } else if code == 0x36 {
        "Exceed number of attempts"@
    } else if code == 0x37 {
        "Required time delay not expired"@
    } else if code == 0x40 {
        "Download not accepted"@
    } else if code == 0x41 {
        "Improper download type"@
    } else if code == 0x42 {
        "Can not download to specified address"@
    } else if code == 0x43 {
        "Can not download number of bytes requested"@
    } else if code == 0x50 {
        "Upload not accepted"@
    } else if code == 0x51 {
        "Improper upload type"@
    } else if code == 0x52 {
        "Can not upload from specified address"@
    } else if code == 0x53 {
        "Can not upload number of bytes requested"@
    } else if code == 0x71 {
        "Transfer suspended"@
    } else if code == 0x72 {
        "Transfer aborted"@
    } else if code == 0x74 {
        "Illegal address in block transfer"@
    } else if code == 0x75 {
        "Illegal byte count in block transfer"@
    } else if code == 0x76 {
        "Illegal block transfer type"@
    } else if code == 0x77 {
        "Block transfer data checksum error"@
    } else if code == 0x78 {
        "Request correctly received, response pending"@
    } else if code == 0x79 {
        "Incorrect byte count during block transfer"@
    } else if code == 0x80 {
        "Service not supported in active diagnostic session"@
    } else {
        "Unknown error"@
    }
}

/// The human-readable text of a KWP2000 negative response code.
pub fn kwp_error_description(code: u8) -> (r: &'static str)
    ensures
        r@ == kwp_error_description_view(code),
{
    if code == 0x10 {
        "General reject"
    } else if code == 0x11 {
        "Service not supported"
    } else if code == 0x12 {
        "Sub-function not supported"
    } else if code == 0x13 {
        "Message length incorrect"
    } else if code == 0x14 {
        "Response too long"
    } else if code == 0x21 {
        "Busy - repeat request"
    } else if code == 0x22 {
        "Conditions not correct"
    } else if code == 0x23 {
        "Routine not complete"
    } else if code == 0x24 {
        "Request sequence error"
    } else if code == 0x25 {
        "No response from subnet"
    } else if code == 0x26 {
        "Failure prevents execution"
    } else if code == 0x31 {
        "Request out of range"
    } else if code == 0x33 {
        "Security access denied"
    } else if code == 0x35 {
        "Invalid key"
    } else if code == 0x36 {
        "Exceed number of attempts"
    } else if code == 0x37 {
        "Required time delay not expired"
    } else if code == 0x40 {
        "Download not accepted"
    } else if code == 0x41 {
        "Improper download type"
    } else if code == 0x42 {
        "Can not download to specified address"
    } else if code == 0x43 {
        "Can not download number of bytes requested"
    } else if code == 0x50 {
        "Upload not accepted"
    } else if code == 0x51 {
        "Improper upload type"
    } else if code == 0x52 {
        "Can not upload from specified address"
    } else if code == 0x53 {
        "Can not upload number of bytes requested"
    } else if code == 0x71 {
        "Transfer suspended"
    } else if code == 0x72 {
        "Transfer aborted"
    } else if code == 0x74 {
        "Illegal address in block transfer"
    } else if code == 0x75 {
        "Illegal byte count in block transfer"
    } else if code == 0x76 {
        "Illegal block transfer type"
    } else if code == 0x77 {
        "Block transfer data checksum error"
    } else if code == 0x78 {
        "Request correctly received, response pending"
    } else if code == 0x79 {
        "Incorrect byte count during block transfer"
    } else if code == 0x80 {
        "Service not supported in active diagnostic session"
    } else {
        "Unknown error"
    }
}

/// Round trip: a frame of 1 to 255 payload bytes decodes to exactly the
/// addresses, service identifier and payload it was encoded from.
pub proof fn lemma_kwp_round_trip(source: u8, target: u8, data: Seq<u8>)
    requires
        1 <= data.len() <= 255,
    ensures
        kwp_parse(kwp_encoding(target, source, data)) == Some(
            (source, target, data[0], data.drop_first()),
        ),
{
    let hdr = kwp_header(target, source, data.len());
    let body = hdr + data;
    let bytes = kwp_encoding(target, source, data);
    assert(bytes == body.push(checksum_of(body)));
    let hl: int = if data.len() <= 63 { 3 } else { 4 };
    assert(hdr.len() == hl);
    assert(bytes.len() == hl + data.len() + 1);
    assert(bytes[0] == hdr[0]);
    if data.len() <= 63 {
        assert(bytes[0] == 0x80 + data.len());
        assert(0x80 <= bytes[0] < 0xC0);
    } else {
        assert(bytes[0] == 0xC0);
        assert(bytes[3] == data[3 - hdr.len()] || bytes[3] == hdr[3]);
        assert(bytes[3] == hdr[3]);
        assert(hdr[3] == data.len() as u8);
    }
    let data_len: int = if bytes[0] >= 0xC0 { bytes[3] as int } else { bytes[0] - 0x80 };
    assert(data_len == data.len());
    let data_start: int = if bytes[0] >= 0xC0 { 4 } else { 3 };
    assert(data_start == hl);
    let total = data_start + data_len + 1;
    assert(bytes.len() == total);
    assert(bytes.take(total - 1) =~= body);
    assert(bytes[total - 1] == checksum_of(body));
    let payload = bytes.subrange(data_start, data_start + data_len);
    assert(payload =~= data);
    assert(payload[0] == data[0]);
}

} // verus!
