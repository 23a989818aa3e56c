//! RoutineControl identifiers of the diesel particulate filter routines.

use vstd::prelude::*;

verus! {

/// Resets the calculated soot loading.
pub const RESET_SOOT_LOADING: u16 = 0xA090;

/// Resets the ash accumulation counter after a DPF cleaning.
pub const RESET_ASH_LOADING: u16 = 0xA091;

/// Resets the DPF model adaptation values.
pub const RESET_LEARNED_VALUES: u16 = 0xA092;

/// Registers a newly installed DPF.
pub const NEW_DPF_INSTALLED: u16 = 0xA093;

/// Starts a forced regeneration; the vehicle must be stationary with the
/// engine running.
pub const START_REGENERATION: u16 = 0xA094;

/// Stops a forced regeneration.
pub const STOP_REGENERATION: u16 = 0xA095;

/// Alternative identifier some engine controllers use to reset ash.
pub const ALT_RESET_ASH: u16 = 0x0061;

/// Alternative identifier to reset adaptation values.
pub const ALT_RESET_ADAPTATION: u16 = 0x0062;

/// Alternative identifier to register a new DPF.
pub const ALT_NEW_DPF: u16 = 0x0063;

/// Alternative identifier for forced regeneration.
pub const ALT_REGENERATION: u16 = 0x0064;

/// The routine identifiers a client may start.
pub open spec fn valid_routines_view() -> Seq<u16> {
    seq![
        RESET_ASH_LOADING,
        RESET_LEARNED_VALUES,
        NEW_DPF_INSTALLED,
        START_REGENERATION,
        ALT_RESET_ASH,
        ALT_RESET_ADAPTATION,
        ALT_NEW_DPF,
        ALT_REGENERATION,
    ]
}

/// Whether a routine identifier is on the allowed list.
pub open spec fn is_valid_routine_spec(routine_id: u16) -> bool {
    valid_routines_view().contains(routine_id)
}

/// The routine identifiers a client may start.
pub fn valid_routines() -> (r: Vec<u16>)
    ensures
        r@ == valid_routines_view(),
{
    let r = vec![
        RESET_ASH_LOADING,
        RESET_LEARNED_VALUES,
        NEW_DPF_INSTALLED,
        START_REGENERATION,
        ALT_RESET_ASH,
        ALT_RESET_ADAPTATION,
        ALT_NEW_DPF,
        ALT_REGENERATION,
    ];
    proof {
        assert(r@ =~= valid_routines_view());
    }
    r
}

/// Whether a routine identifier is on the allowed list.
pub fn is_valid_routine(routine_id: u16) -> (r: bool)
    ensures
        r == is_valid_routine_spec(routine_id),
{
    let r = routine_id == RESET_ASH_LOADING || routine_id == RESET_LEARNED_VALUES || routine_id
        == NEW_DPF_INSTALLED || routine_id == START_REGENERATION || routine_id == ALT_RESET_ASH
        || routine_id == ALT_RESET_ADAPTATION || routine_id == ALT_NEW_DPF || routine_id
        == ALT_REGENERATION;
    proof {
        if r {
            if routine_id == RESET_ASH_LOADING {
                assert(valid_routines_view()[0] == routine_id);
            } else if routine_id == RESET_LEARNED_VALUES {
                assert(valid_routines_view()[1] == routine_id);
            } else if routine_id == NEW_DPF_INSTALLED {
                assert(valid_routines_view()[2] == routine_id);
            } else if routine_id == START_REGENERATION {
                assert(valid_routines_view()[3] == routine_id);
            } else if routine_id == ALT_RESET_ASH {
                assert(valid_routines_view()[4] == routine_id);
            } else if routine_id == ALT_RESET_ADAPTATION {
                assert(valid_routines_view()[5] == routine_id);
            } else if routine_id == ALT_NEW_DPF {
                assert(valid_routines_view()[6] == routine_id);
            } else {
                assert(valid_routines_view()[7] == routine_id);
            }
        }
    }
    r
}

} // verus!
