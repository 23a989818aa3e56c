//! K-Line physical addresses of the ECUs this gateway talks to.

use vstd::prelude::*;

verus! {

/// Diagnostic tester address (ISO 14230).
pub const TESTER: u8 = 0xF1;

/// Default target ECU: the engine controller.
pub const DEFAULT_ECU: u8 = 0x12;

/// Digital Motor / Diesel Electronics (engine).
pub const DME_DDE: u8 = 0x12;

/// Electronic gearbox control (transmission).
pub const EGS: u8 = 0x32;

/// Dynamic stability control.
pub const DSC: u8 = 0x44;

/// Airbag (multiple restraint system).
pub const AIRBAG: u8 = 0x4A;

/// Integrated automatic heating and air conditioning.
pub const IHKA: u8 = 0x5B;

/// Instrument cluster.
pub const KOMBI: u8 = 0x60;

/// Car access system (immobilizer).
pub const CAS: u8 = 0x40;

/// Footwell module (lighting).
pub const FRM: u8 = 0x68;

/// Park distance control.
pub const PDC: u8 = 0x66;

/// Active cruise control.
pub const ACC: u8 = 0x34;

/// The addresses a client may target.
pub open spec fn valid_ecus_view() -> Seq<u8> {
    seq![DME_DDE, EGS, DSC, AIRBAG, IHKA, KOMBI, CAS, FRM, PDC, ACC]
}

/// Whether an address belongs to a known ECU.
pub open spec fn is_valid_ecu_spec(addr: u8) -> bool {
    valid_ecus_view().contains(addr)
}

/// The list of addresses a client may target.
pub fn valid_ecus() -> (r: Vec<u8>)
    ensures
        r@ == valid_ecus_view(),
{
    let r = vec![DME_DDE, EGS, DSC, AIRBAG, IHKA, KOMBI, CAS, FRM, PDC, ACC];
    proof {
        assert(r@ =~= valid_ecus_view());
    }
    r
}

/// Whether an address belongs to a known ECU.
pub fn is_valid_ecu(addr: u8) -> (r: bool)
    ensures
        r == is_valid_ecu_spec(addr),
{
    let r = addr == DME_DDE || addr == EGS || addr == DSC || addr == AIRBAG || addr == IHKA
        || addr == KOMBI || addr == CAS || addr == FRM || addr == PDC || addr == ACC;
    proof {
        if r {
            if addr == DME_DDE {
                assert(valid_ecus_view()[0] == addr);
            } else if addr == EGS {
                assert(valid_ecus_view()[1] == addr);
            } else if addr == DSC {
                assert(valid_ecus_view()[2] == addr);
            } else if addr == AIRBAG {
                assert(valid_ecus_view()[3] == addr);
            } else if addr == IHKA {
                assert(valid_ecus_view()[4] == addr);
            } else if addr == KOMBI {
                assert(valid_ecus_view()[5] == addr);
            } else if addr == CAS {
                assert(valid_ecus_view()[6] == addr);
            } else if addr == FRM {
                assert(valid_ecus_view()[7] == addr);
            } else if addr == PDC {
                assert(valid_ecus_view()[8] == addr);
            } else {
                assert(valid_ecus_view()[9] == addr);
            }
        }
    }
    r
}

} // verus!
