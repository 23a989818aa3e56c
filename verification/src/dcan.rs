//! The D-CAN side: addressing and the adapter's wire framing.
//!
//! Diagnostics over CAN use 11-bit identifiers: the tester transmits on
//! 0x6F1 (or a physical identifier), and each ECU answers on its own
//! identifier, usually its request identifier plus eight.  The K+DCAN
//! adapter carries a CAN frame over the serial pipe as a length byte, two
//! identifier bytes, and the eight data bytes.

use vstd::prelude::*;
use vstd::string::StringSliceAdditionalSpecFns;
use crate::bytes::{ascii_upper, bytes_eq, to_ascii_upper};

verus! {

/// Addressing and flow-control parameters of one D-CAN conversation.
#[derive(Debug, Clone, Copy)]
pub struct DCanHandler {
    /// Identifier of tester-to-ECU frames.
    pub tx_id: u32,
    /// Identifier of ECU-to-tester frames.
    pub rx_id: u32,
    /// Block size granted in transmitted Flow Control frames; 0 means
    /// unlimited.
    pub block_size: u8,
    /// Separation time granted in transmitted Flow Control frames.
    pub separation_time: u8,
}

impl DCanHandler {
    /// The default conversation: functional tester identifier, engine
    /// controller response identifier.
    pub fn new() -> (r: Self)
        ensures
            r.tx_id == 0x6F1,
            r.rx_id == 0x612,
            r.block_size == 0,
            r.separation_time == 0,
    {
        Self { tx_id: 0x6F1, rx_id: 0x612, block_size: 0, separation_time: 0 }
    }

    /// A conversation with the ECU at the given physical address: requests
    /// on the functional identifier, responses on 0x600 plus the address
    /// plus eight.
    pub fn for_ecu(ecu_id: u8) -> (r: Self)
        ensures
            r.tx_id == 0x6F1,
            r.rx_id == 0x600 + ecu_id + 8,
            r.block_size == 0,
            r.separation_time == 0,
    {
        Self {
            tx_id: 0x6F1,
            rx_id: 0x600 + (ecu_id as u32) + 8,
            block_size: 0,
            separation_time: 0,
        }
    }
}

impl Default for DCanHandler {
    /// The same conversation `new` gives.
    fn default() -> (r: Self)
        ensures
            r.tx_id == 0x6F1,
            r.rx_id == 0x612,
            r.block_size == 0,
            r.separation_time == 0,
    {
        Self::new()
    }
}

/// The serial bytes that carry one CAN frame through the adapter: a length
/// byte of twelve, the identifier high and low bytes, the eight data bytes.
pub open spec fn can_wire_bytes(can_id: u32, data: Seq<u8>) -> Seq<u8>
    recommends
        data.len() == 8,
{
    seq![12u8, ((can_id / 256) % 256) as u8, (can_id % 256) as u8] + data
}

/// Frames one CAN frame for the adapter's serial pipe.
pub fn encode_can_frame(can_id: u32, data: &[u8; 8]) -> (r: Vec<u8>)
    ensures
        r@ == can_wire_bytes(can_id, data@),
{
    let mut out: Vec<u8> = Vec::new();
    out.push(12);
    out.push(((can_id / 256) % 256) as u8);
    out.push((can_id % 256) as u8);
    out.extend_from_slice(data.as_slice());
    proof {
        assert(out@ =~= can_wire_bytes(can_id, data@));
    }
    out
}

/// Takes one CAN frame off the adapter's serial pipe: the identifier and
/// the eight data bytes.  Needs at least eleven bytes.
pub fn decode_can_frame(bytes: &[u8]) -> (r: Option<(u32, [u8; 8])>)
    ensures
        bytes@.len() >= 11 ==> (r matches Some(f) && f.0 == bytes@[1] * 256 + bytes@[2] && f.1@
            == bytes@.subrange(3, 11)),
        bytes@.len() < 11 ==> r is None,
{
    if bytes.len() < 11 {
        return None;
    }
    let id: u32 = (bytes[1] as u32) * 256 + bytes[2] as u32;
    let mut data: [u8; 8] = [0u8; 8];
    let mut i: usize = 0;
    while i < 8
        invariant
            bytes@.len() >= 11,
            0 <= i <= 8,
            data@.len() == 8,
            forall|j: int| 0 <= j < i ==> data@[j] == bytes@[j + 3],
        decreases 8 - i,
    {
        data[i] = bytes[i + 3];
        i = i + 1;
    }
    proof {
        assert(data@ =~= bytes@.subrange(3, 11));
    }
    Some((id, data))
}

// ------------------------------------------------------------------------
// Identifier tables
// ------------------------------------------------------------------------

/// The bytes of the `i`-th known ECU name, upper case.
pub open spec fn ecu_name_view(i: int) -> Seq<u8> {
    if i == 0 {
        seq!['D' as u8, 'D' as u8, 'E' as u8]
    } else if i == 1 {
        seq!['D' as u8, 'M' as u8, 'E' as u8]
    } else if i == 2 {
        seq!['E' as u8, 'G' as u8, 'S' as u8]
    } else if i == 3 {
        seq!['D' as u8, 'S' as u8, 'C' as u8]
    } else if i == 4 {
        seq!['K' as u8, 'O' as u8, 'M' as u8, 'B' as u8, 'I' as u8]
    } else if i == 5 {
        seq!['C' as u8, 'A' as u8, 'S' as u8]
    } else if i == 6 {
        seq!['F' as u8, 'R' as u8, 'M' as u8]
    } else if i == 7 {
        seq!['A' as u8, 'C' as u8, 'S' as u8, 'M' as u8]
    } else if i == 8 {
        seq!['C' as u8, 'C' as u8, 'C' as u8]
    } else {
        seq!['C' as u8, 'I' as u8, 'C' as u8]
    }
}

fn ecu_name_bytes(i: usize) -> (r: Vec<u8>)
    requires
        i < 10,
    ensures
        r@ == ecu_name_view(i as int),
{
    let r: Vec<u8> = if i == 0 {
        vec![0x44, 0x44, 0x45]
    } else if i == 1 {
        vec![0x44, 0x4D, 0x45]
    } else if i == 2 {
        vec![0x45, 0x47, 0x53]
    } else if i == 3 {
        vec![0x44, 0x53, 0x43]
    } else if i == 4 {
        vec![0x4B, 0x4F, 0x4D, 0x42, 0x49]
    } else if i == 5 {
        vec![0x43, 0x41, 0x53]
    } else if i == 6 {
        vec![0x46, 0x52, 0x4D]
    } else if i == 7 {
        vec![0x41, 0x43, 0x53, 0x4D]
    } else if i == 8 {
        vec![0x43, 0x43, 0x43]
    } else {
        vec![0x43, 0x49, 0x43]
    };
    proof {
        assert(r@ =~= ecu_name_view(i as int));
    }
    r
}

/// The CAN identifier pair (tester-to-ECU, ECU-to-tester) of the `i`-th
/// known ECU name.  The head unit answers on a functional pairing of its
/// own.
pub open spec fn can_ids_view(i: int) -> (u32, u32) {
    if i == 0 || i == 1 {
        (0x612, 0x61A)
    } else if i == 2 {
        (0x618, 0x620)
    } else if i == 3 {
        (0x6D8, 0x6E0)
    } else if i == 4 {
        (0x660, 0x668)
    } else if i == 5 {
        (0x640, 0x648)
    } else if i == 6 {
        (0x668, 0x670)
    } else if i == 7 {
        (0x6C0, 0x6C8)
    } else {
        (0x6F1, 0x63F)
    }
}

fn can_ids_value(i: usize) -> (r: (u32, u32))
    requires
        i < 10,
    ensures
        r == can_ids_view(i as int),
{
    if i == 0 || i == 1 {
        (0x612, 0x61A)
    } else if i == 2 {
        (0x618, 0x620)
    } else if i == 3 {
        (0x6D8, 0x6E0)
    } else if i == 4 {
        (0x660, 0x668)
    } else if i == 5 {
        (0x640, 0x648)
    } else if i == 6 {
        (0x668, 0x670)
    } else if i == 7 {
        (0x6C0, 0x6C8)
    } else {
        (0x6F1, 0x63F)
    }
}

/// The CAN identifier pair of a named ECU, matched without regard to ASCII
/// case.
pub fn for_ecu(ecu_name: &str) -> (r: Option<(u32, u32)>)
    ensures
        (r matches Some(ids) ==> exists|i: int|
            0 <= i < 10 && ascii_upper(ecu_name.spec_bytes()) == ecu_name_view(i) && ids
                == can_ids_view(i)),
        (r is None ==> forall|i: int|
            0 <= i < 10 ==> ascii_upper(ecu_name.spec_bytes()) != ecu_name_view(i)),
{
    let upper = to_ascii_upper(ecu_name.as_bytes());
    let mut i: usize = 0;
    while i < 10
        invariant
            0 <= i <= 10,
            upper@ == ascii_upper(ecu_name.spec_bytes()),
            forall|j: int| 0 <= j < i ==> upper@ != ecu_name_view(j),
        decreases 10 - i,
    {
        let cand = ecu_name_bytes(i);
        if bytes_eq(upper.as_slice(), cand.as_slice()) {
            return Some(can_ids_value(i));
        }
        i = i + 1;
    }
    None
}

/// The K-Line physical address of the `i`-th known ECU name, where it has
/// one; the head unit is CAN-only.
pub open spec fn kline_address_view(i: int) -> Option<u8> {
    if i == 0 || i == 1 {
        Some(0x12u8)
    } else if i == 2 {
        Some(0x32u8)
    } else if i == 3 {
        Some(0x44u8)
    } else if i == 4 {
        Some(0x60u8)
    } else if i == 5 {
        Some(0x40u8)
    } else if i == 6 {
        Some(0x68u8)
    } else if i == 7 {
        Some(0x6Cu8)
    } else {
        None
    }
}

/// The K-Line physical address of a named ECU, matched without regard to
/// ASCII case.
pub fn kline_address_for(ecu_name: &str) -> (r: Option<u8>)
    ensures
        (r matches Some(addr) ==> exists|i: int|
            0 <= i < 10 && ascii_upper(ecu_name.spec_bytes()) == ecu_name_view(i)
                && Some(addr) == kline_address_view(i)),
        (r is None ==> forall|i: int|
            0 <= i < 10 ==> ascii_upper(ecu_name.spec_bytes()) != ecu_name_view(i)
                || kline_address_view(i) is None),
{
    let upper = to_ascii_upper(ecu_name.as_bytes());
    let mut i: usize = 0;
    while i < 10
        invariant
            0 <= i <= 10,
            upper@ == ascii_upper(ecu_name.spec_bytes()),
            forall|j: int|
                0 <= j < i ==> upper@ != ecu_name_view(j) || kline_address_view(j) is None,
        decreases 10 - i,
    {
        let cand = ecu_name_bytes(i);
        if bytes_eq(upper.as_slice(), cand.as_slice()) {
            let addr: Option<u8> = if i == 0 || i == 1 {
                Some(0x12)
            } else if i == 2 {
                Some(0x32)
            } else if i == 3 {
                Some(0x44)
            } else if i == 4 {
                Some(0x60)
            } else if i == 5 {
                Some(0x40)
            } else if i == 6 {
                Some(0x68)
            } else if i == 7 {
                Some(0x6C)
            } else {
                None
            };
            if addr.is_some() {
                return addr;
            }
        }
        i = i + 1;
    }
    None
}

} // verus!
