use vstd::prelude::*;
use crate::hashing::{hash40_of, hash40_str};
use crate::state::{PlayerEvolutionState, ShadowballTracking};

verus! {

/// Neutral special statuses of the fighter.
pub const PURIN_SPECIAL_N_HOLD: i32 = 0x1E1;
pub const PURIN_SPECIAL_N_HOLD_MAX: i32 = 0x1E2;
pub const PURIN_SPECIAL_N_ROLL: i32 = 0x1E3;
pub const PURIN_SPECIAL_N_ROLL_AIR: i32 = 0x1E4;
pub const PURIN_SPECIAL_N_TURN: i32 = 0x1E5;
pub const PURIN_SPECIAL_N_END: i32 = 0x1E6;
pub const PURIN_SPECIAL_N_HIT_END: i32 = 0x1E7;

/// Charge frames after which the shadow ball mesh replaces the model, on the
/// ground and in the air.
pub const SHADOWBALL_MESH_DELAY_FRAMES_GROUND: i32 = 14;
pub const SHADOWBALL_MESH_DELAY_FRAMES_AIR: i32 = 21;
/// Air charge frames below which an air charge still shows the model.
pub const AIR_CHARGE_MINIMUM: i32 = 28;

/// Where the neutral special stands.
#[derive(Debug, Clone, Copy, PartialEq, Eq, Structural)]
pub enum ShadowballState {
    NotActive,
    ChargingBelowThreshold,
    ActiveFrameBased,
    ActiveWithHitbox,
    RegularRollout,
    ChargedRollout,
    AirToGroundRollout,
    TransitionKeepModel,
    RegularRolloutWithHitbox,
    ChargedRolloutWithHitbox,
    AirToGroundRolloutWithHitbox,
}

/// What the game reports about the neutral special this frame (the charge
/// count in thousandths of a frame).
#[derive(Debug, Clone, Copy, PartialEq, Eq, Structural)]
pub struct ShadowballInput {
    pub status: i32,
    pub motion: u64,
    pub charge_count_milli: i32,
    pub is_max_charge: bool,
    pub hold_frames: i32,
    pub hold_max_frames: i32,
    /// Some attack of the rollout has an active hitbox.
    pub has_active_hitbox: bool,
}

/// `motion` is the air charge animation (held or at full charge).
pub open spec fn is_air_hold_motion(motion: u64) -> bool {
    motion == hash40_of("special_air_n_hold"@) || motion == hash40_of("special_air_n_hold_max"@)
}

/// Whether `motion` is the air charge animation.
pub fn air_hold_motion(motion: u64) -> (r: bool)
    ensures
        r == is_air_hold_motion(motion),
{
    motion == hash40_str("special_air_n_hold") || motion == hash40_str("special_air_n_hold_max")
}

/// The charge frames after which the shadow ball mesh shows, for `motion`.
pub open spec fn frame_threshold(motion: u64) -> i32 {
    if is_air_hold_motion(motion) { SHADOWBALL_MESH_DELAY_FRAMES_AIR } else { SHADOWBALL_MESH_DELAY_FRAMES_GROUND }
}

/// The charge frames after which the shadow ball mesh shows: 21 in the air,
/// 14 on the ground.
pub fn get_shadowball_frame_threshold(motion: u64) -> (t: i32)
    ensures
        t == frame_threshold(motion),
{
    if air_hold_motion(motion) { SHADOWBALL_MESH_DELAY_FRAMES_AIR } else { SHADOWBALL_MESH_DELAY_FRAMES_GROUND }
}

/// `status` is one of the rollout statuses (roll, air roll, turn).
pub open spec fn spec_is_in_rollout_status(status: i32) -> bool {
    status == PURIN_SPECIAL_N_ROLL || status == PURIN_SPECIAL_N_ROLL_AIR || status == PURIN_SPECIAL_N_TURN
}

/// Whether `status` is one of the rollout statuses.
pub fn is_in_rollout_status(status: i32) -> (r: bool)
    ensures
        r == spec_is_in_rollout_status(status),
{
    status == PURIN_SPECIAL_N_ROLL || status == PURIN_SPECIAL_N_ROLL_AIR || status == PURIN_SPECIAL_N_TURN
}

/// The charge tracking after a frame in charge status `status`: a new
/// sequence starts at one frame, the same status (or the step to full
/// charge) counts on, any other status starts over remembering the previous one.
pub open spec fn frame_tracked(sb: ShadowballTracking, status: i32) -> ShadowballTracking {
    if !sb.is_in_shadowball_status {
        ShadowballTracking {
            is_in_shadowball_status: true,
            shadowball_status_frames: 1,
            last_shadowball_status: status,
            shadowball_previous_status: -1i32,
            ..sb
        }
    } else if (sb.last_shadowball_status == PURIN_SPECIAL_N_HOLD && status == PURIN_SPECIAL_N_HOLD_MAX)
        || sb.last_shadowball_status == status {
        ShadowballTracking {
            shadowball_status_frames: (sb.shadowball_status_frames + 1) as i32,
            last_shadowball_status: status,
            shadowball_previous_status: if sb.last_shadowball_status != status { sb.last_shadowball_status } else { sb.shadowball_previous_status },
            ..sb
        }
    } else {
        ShadowballTracking {
            shadowball_previous_status: sb.last_shadowball_status,
            shadowball_status_frames: 1,
            last_shadowball_status: status,
            ..sb
        }
    }
}

/// Counts one frame of a charge in status `status` (see `frame_tracked`).
pub fn update_shadowball_frame_tracking(player_state: &mut PlayerEvolutionState, current_status: i32)
    requires
        old(player_state).shadowball.shadowball_status_frames < i32::MAX,
    ensures
        *final(player_state) == (PlayerEvolutionState {
            shadowball: frame_tracked(old(player_state).shadowball, current_status),
            ..*old(player_state)
        }),
{
    let sb = &mut player_state.shadowball;
    if sb.is_in_shadowball_status && sb.last_shadowball_status != current_status {
        sb.shadowball_previous_status = sb.last_shadowball_status;
    }
    if !sb.is_in_shadowball_status {
        sb.is_in_shadowball_status = true;
        sb.shadowball_status_frames = 1;
        sb.last_shadowball_status = current_status;
        sb.shadowball_previous_status = -1;
    } else {
        let valid = (sb.last_shadowball_status == PURIN_SPECIAL_N_HOLD && current_status == PURIN_SPECIAL_N_HOLD_MAX)
            || sb.last_shadowball_status == current_status;
        if valid {
            sb.shadowball_status_frames = sb.shadowball_status_frames + 1;
            sb.last_shadowball_status = current_status;
        } else {
            sb.shadowball_previous_status = sb.last_shadowball_status;
            sb.shadowball_status_frames = 1;
            sb.last_shadowball_status = current_status;
        }
    }
}

/// The charge tracking with the sequence's outcome forgotten.
pub open spec fn charge_forgotten(sb: ShadowballTracking) -> ShadowballTracking {
    ShadowballTracking {
        shadowball_was_sufficiently_charged: false,
        shadowball_air_charge_count: 0,
        shadowball_previous_status: -1i32,
        ..sb
    }
}

/// The neutral special state for `inp` and the charge tracking after it: the
/// end status forgets the charge; a charge counts its frames and becomes
/// active once past the threshold by any measure (an air charge needs 28
/// frames or full charge); a roll shows the model unless a hitbox is active;
/// a turn always shows it; anything else forgets the charge.
pub open spec fn shadowball_step(sb: ShadowballTracking, inp: ShadowballInput) -> (ShadowballTracking, ShadowballState) {
    let st = inp.status;
    if st == PURIN_SPECIAL_N_END {
        (charge_forgotten(sb), ShadowballState::NotActive)
    } else if st == PURIN_SPECIAL_N_HOLD || st == PURIN_SPECIAL_N_HOLD_MAX {
        let sb1 = frame_tracked(sb, st);
        let air = is_air_hold_motion(inp.motion);
        let sb2 = if air { ShadowballTracking { shadowball_air_charge_count: sb1.shadowball_status_frames, ..sb1 } } else { sb1 };
        let thr = frame_threshold(inp.motion);
        let met = sb2.shadowball_status_frames > thr || inp.charge_count_milli > thr * 1000
            || inp.hold_frames > thr || inp.hold_max_frames > 0 || inp.is_max_charge;
        let sb3 = if met { ShadowballTracking { shadowball_was_sufficiently_charged: true, ..sb2 } } else { sb2 };
        let state = if air && sb3.shadowball_air_charge_count < AIR_CHARGE_MINIMUM
            && inp.charge_count_milli < AIR_CHARGE_MINIMUM * 1000 && !inp.is_max_charge {
            ShadowballState::ChargingBelowThreshold
        } else if met {
            ShadowballState::ActiveFrameBased
        } else {
            ShadowballState::ChargingBelowThreshold
        };
        (sb3, state)
    } else if st == PURIN_SPECIAL_N_ROLL || st == PURIN_SPECIAL_N_ROLL_AIR {
        (sb, if inp.has_active_hitbox { ShadowballState::RegularRolloutWithHitbox } else { ShadowballState::RegularRollout })
    } else if st == PURIN_SPECIAL_N_TURN {
        (sb, ShadowballState::RegularRollout)
    } else {
        (charge_forgotten(sb), ShadowballState::NotActive)
    }
}

/// Classifies the neutral special this frame (see `shadowball_step`),
/// counting the charge in the fighter's tracking.
pub fn detect_shadowball_hitbox_state(player_state: &mut PlayerEvolutionState, inp: ShadowballInput) -> (state: ShadowballState)
    requires
        old(player_state).shadowball.shadowball_status_frames < i32::MAX,
    ensures
        (final(player_state).shadowball, state) == shadowball_step(old(player_state).shadowball, inp),
        *final(player_state) == (PlayerEvolutionState { shadowball: final(player_state).shadowball, ..*old(player_state) }),
{
    let st = inp.status;
    if st == PURIN_SPECIAL_N_END {
        player_state.shadowball.shadowball_was_sufficiently_charged = false;
        player_state.shadowball.shadowball_air_charge_count = 0;
        player_state.shadowball.shadowball_previous_status = -1;
        return ShadowballState::NotActive;
    }
    if st == PURIN_SPECIAL_N_HOLD || st == PURIN_SPECIAL_N_HOLD_MAX {
        update_shadowball_frame_tracking(player_state, st);
        let air = air_hold_motion(inp.motion);
        if air {
            player_state.shadowball.shadowball_air_charge_count = player_state.shadowball.shadowball_status_frames;
        }
        let thr = get_shadowball_frame_threshold(inp.motion);
        let met = player_state.shadowball.shadowball_status_frames > thr
            || inp.charge_count_milli as i64 > thr as i64 * 1000
            || inp.hold_frames > thr || inp.hold_max_frames > 0 || inp.is_max_charge;
        if met {
            player_state.shadowball.shadowball_was_sufficiently_charged = true;
        }
        if air && player_state.shadowball.shadowball_air_charge_count < AIR_CHARGE_MINIMUM
            && (inp.charge_count_milli as i64) < AIR_CHARGE_MINIMUM as i64 * 1000 && !inp.is_max_charge {
            return ShadowballState::ChargingBelowThreshold;
        }
        if met {
            return ShadowballState::ActiveFrameBased;
        }
        return ShadowballState::ChargingBelowThreshold;
    }
    if st == PURIN_SPECIAL_N_ROLL || st == PURIN_SPECIAL_N_ROLL_AIR {
        return if inp.has_active_hitbox { ShadowballState::RegularRolloutWithHitbox } else { ShadowballState::RegularRollout };
    }
    if st == PURIN_SPECIAL_N_TURN {
        return ShadowballState::RegularRollout;
    }
    player_state.shadowball.shadowball_was_sufficiently_charged = false;
    player_state.shadowball.shadowball_air_charge_count = 0;
    player_state.shadowball.shadowball_previous_status = -1;
    ShadowballState::NotActive
}

/// Law: a ground charge shows the shadow ball once it has lasted more than
/// 14 frames, whatever the game's own counters say.
pub proof fn lemma_ground_charge_activates(sb: ShadowballTracking, inp: ShadowballInput)
    requires
        inp.status == PURIN_SPECIAL_N_HOLD || inp.status == PURIN_SPECIAL_N_HOLD_MAX,
        !is_air_hold_motion(inp.motion),
        frame_tracked(sb, inp.status).shadowball_status_frames > SHADOWBALL_MESH_DELAY_FRAMES_GROUND,
    ensures
        shadowball_step(sb, inp).1 == ShadowballState::ActiveFrameBased,
        shadowball_step(sb, inp).0.shadowball_was_sufficiently_charged,
{
}

} // verus!
