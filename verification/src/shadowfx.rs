use vstd::prelude::*;
use crate::state::{PlayerEvolutionState, ShadowballTracking};
use crate::shadowball::{
    ShadowballState, PURIN_SPECIAL_N_HOLD, PURIN_SPECIAL_N_HOLD_MAX, PURIN_SPECIAL_N_ROLL,
    PURIN_SPECIAL_N_ROLL_AIR, PURIN_SPECIAL_N_HIT_END,
};

verus! {

/// Frames between two full-charge signs.
pub const MAX_SIGN_INTERVAL: i32 = 15;
/// Frames between two speed trails during a charged rollout.
pub const SPEEDBOOSTER_INTERVAL: i32 = 8;

/// The shadow ball effects kept alive for a fighter.
#[derive(Debug, Clone, Copy, PartialEq, Eq, Structural)]
pub enum ShadowballPart {
    Main,
    Tail,
    Hold,
}

/// One shadow ball effect operation, performed in order.
#[derive(Debug, Clone, Copy, PartialEq, Eq, Structural)]
pub enum ShadowballEffect {
    /// Remove the game's own down taunt effect.
    KillAppealEffect,
    /// Keep the part alive (starting it if missing), shown at once if
    /// `immediate`.
    Keep { part: ShadowballPart, immediate: bool },
    /// The full-charge sign.
    MaxSign,
    /// Remove the game's own effects of the invisible fighter.
    SuppressVanillaEffects,
    /// Remove every shadow ball effect of this fighter.
    ClearShadowballEffects,
    /// A purple speed trail.
    SpeedBooster,
    KillSpeedBooster,
    /// The explosion on hitting: the game's hit sounds are muted and a fire
    /// sound plays.
    Bomb,
}

/// What the shadow ball effects remember between frames.
#[derive(Debug, Clone, Copy, PartialEq, Eq, Structural)]
pub struct ShadowballFxTracker {
    pub last_max_sign_frame: i32,
    pub last_speedbooster_frame: i32,
    pub last_status_for_bomb: i32,
}

impl ShadowballFxTracker {
    pub open spec fn initial() -> Self {
        ShadowballFxTracker { last_max_sign_frame: -15i32, last_speedbooster_frame: -10i32, last_status_for_bomb: -1i32 }
    }

    /// Nothing shown yet.
    pub fn new() -> (t: Self)
        ensures
            t == Self::initial(),
    {
        ShadowballFxTracker { last_max_sign_frame: -15, last_speedbooster_frame: -10, last_status_for_bomb: -1 }
    }
}

/// What the game reports that the shadow ball effects follow.
#[derive(Debug, Clone, Copy, PartialEq, Eq, Structural)]
pub struct ShadowballFxInput {
    pub status: i32,
    /// The game's full-charge flag.
    pub is_max_charge: bool,
    /// Frames spent at full charge.
    pub hold_max_frames: i32,
}

pub open spec fn sfx(b: bool, s: Seq<ShadowballEffect>) -> Seq<ShadowballEffect> {
    if b { s } else { Seq::<ShadowballEffect>::empty() }
}

/// A rollout with an active hitbox (the fighter is invisible).
pub open spec fn rollout_with_hitbox(sbs: ShadowballState) -> bool {
    sbs == ShadowballState::ChargedRolloutWithHitbox || sbs == ShadowballState::RegularRolloutWithHitbox
        || sbs == ShadowballState::AirToGroundRolloutWithHitbox
}

/// The shadow ball and its tail, kept shown at once.
pub open spec fn ball_and_tail() -> Seq<ShadowballEffect> {
    seq![ShadowballEffect::Keep { part: ShadowballPart::Main, immediate: true },
        ShadowballEffect::Keep { part: ShadowballPart::Tail, immediate: true }]
}

/// The charge tracking forgotten (neither charged nor counting air frames).
pub open spec fn charge_reset(sb: ShadowballTracking) -> ShadowballTracking {
    ShadowballTracking { shadowball_was_sufficiently_charged: false, shadowball_air_charge_count: 0, ..sb }
}

/// The effects for the shadow ball state: ball and tail during a rollout
/// with a hitbox; ball, tail, hold effect (and a full-charge sign every 15
/// frames at full charge) while a charge shows the ball; nothing in a
/// transition; otherwise every shadow ball effect goes, and with no neutral
/// special at all the charge is forgotten.
pub open spec fn state_part(sb: ShadowballTracking, t: ShadowballFxTracker, sbs: ShadowballState,
    status: i32, frame: i32) -> (ShadowballTracking, ShadowballFxTracker, Seq<ShadowballEffect>)
{
    if rollout_with_hitbox(sbs) {
        (sb, t, ball_and_tail() + seq![ShadowballEffect::SuppressVanillaEffects])
    } else if sbs == ShadowballState::ActiveFrameBased || sbs == ShadowballState::ActiveWithHitbox {
        if status == PURIN_SPECIAL_N_HOLD || status == PURIN_SPECIAL_N_HOLD_MAX {
            let sign = status == PURIN_SPECIAL_N_HOLD_MAX && frame - t.last_max_sign_frame >= MAX_SIGN_INTERVAL;
            (sb, if sign { ShadowballFxTracker { last_max_sign_frame: frame, ..t } } else { t },
                ball_and_tail() + seq![ShadowballEffect::Keep { part: ShadowballPart::Hold, immediate: false }]
                + sfx(sign, seq![ShadowballEffect::MaxSign]) + seq![ShadowballEffect::SuppressVanillaEffects])
        } else {
            (sb, t, Seq::<ShadowballEffect>::empty())
        }
    } else if sbs == ShadowballState::TransitionKeepModel {
        (sb, t, Seq::<ShadowballEffect>::empty())
    } else {
        (if sbs == ShadowballState::NotActive { charge_reset(sb) } else { sb }, t,
            seq![ShadowballEffect::ClearShadowballEffects])
    }
}

/// The speed trail during a rollout: every 8 frames while invisible after
/// reaching full charge, else it goes.
pub open spec fn speed_part(sb: ShadowballTracking, t: ShadowballFxTracker, sbs: ShadowballState,
    inp: ShadowballFxInput, frame: i32) -> (ShadowballFxTracker, Seq<ShadowballEffect>)
{
    let is_rollout = inp.status == PURIN_SPECIAL_N_ROLL || inp.status == PURIN_SPECIAL_N_ROLL_AIR;
    let reached = inp.is_max_charge || inp.hold_max_frames > 0 || sb.shadowball_previous_status == PURIN_SPECIAL_N_HOLD_MAX;
    if !is_rollout {
        (t, Seq::<ShadowballEffect>::empty())
    } else if reached && rollout_with_hitbox(sbs) {
        if frame - t.last_speedbooster_frame >= SPEEDBOOSTER_INTERVAL {
            (ShadowballFxTracker { last_speedbooster_frame: frame, ..t }, seq![ShadowballEffect::SpeedBooster])
        } else {
            (t, Seq::<ShadowballEffect>::empty())
        }
    } else {
        (t, seq![ShadowballEffect::KillSpeedBooster])
    }
}

/// A status of the neutral special.
pub open spec fn any_shadowball_status(status: i32) -> bool {
    PURIN_SPECIAL_N_HOLD <= status <= PURIN_SPECIAL_N_HIT_END
}

/// One frame of shadow ball effects: the game's down taunt effect always
/// goes, then the state, speed trail and explosion (on entering the hit end
/// status) parts; out of the neutral special the charge is forgotten.
pub open spec fn shadowball_effects(sb: ShadowballTracking, t: ShadowballFxTracker, sbs: ShadowballState,
    inp: ShadowballFxInput, frame: i32) -> (ShadowballTracking, ShadowballFxTracker, Seq<ShadowballEffect>)
{
    let (sb1, t1, s1) = state_part(sb, t, sbs, inp.status, frame);
    let (t2, s2) = speed_part(sb1, t1, sbs, inp, frame);
    let bomb = inp.status == PURIN_SPECIAL_N_HIT_END && t2.last_status_for_bomb != inp.status;
    let t3 = ShadowballFxTracker { last_status_for_bomb: inp.status, ..t2 };
    let sb2 = if any_shadowball_status(inp.status) { sb1 } else { charge_reset(sb1) };
    (sb2, t3, seq![ShadowballEffect::KillAppealEffect] + s1 + s2 + sfx(bomb, seq![ShadowballEffect::Bomb]))
}

/// Law: the explosion closes the effects of the frame that enters the hit
/// end status, and only of that frame: while the status stays, the next
/// frame brings none.
pub proof fn lemma_bomb_on_entering_hit_end(sb: ShadowballTracking, t: ShadowballFxTracker, sbs: ShadowballState,
    inp: ShadowballFxInput, frame: i32, sb2: ShadowballTracking, sbs2: ShadowballState, inp2: ShadowballFxInput,
    frame2: i32)
    requires
        inp2.status == inp.status,
    ensures
        ({
            let (_s1, t1, e1) = shadowball_effects(sb, t, sbs, inp, frame);
            let (_s2, _t2, e2) = shadowball_effects(sb2, t1, sbs2, inp2, frame2);
            &&& (e1.last() == ShadowballEffect::Bomb)
                <==> (inp.status == PURIN_SPECIAL_N_HIT_END && t.last_status_for_bomb != inp.status)
            &&& e2.last() != ShadowballEffect::Bomb
        }),
{
    let (sb1, t1, s1) = state_part(sb, t, sbs, inp.status, frame);
    let (t2, s2) = speed_part(sb1, t1, sbs, inp, frame);
    assert(!(s1 + s2).contains(ShadowballEffect::Bomb));
    let (_s1, t1b, _e1) = shadowball_effects(sb, t, sbs, inp, frame);
    let (sc, tc, c1) = state_part(sb2, t1b, sbs2, inp2.status, frame2);
    let (td, c2) = speed_part(sc, tc, sbs2, inp2, frame2);
    assert(!(c1 + c2).contains(ShadowballEffect::Bomb));
}

fn state_step(sb: ShadowballTracking, t: ShadowballFxTracker, sbs: ShadowballState, status: i32, frame: i32)
    -> (r: (ShadowballTracking, ShadowballFxTracker, Vec<ShadowballEffect>))
    ensures
        (r.0, r.1, r.2@) == state_part(sb, t, sbs, status, frame),
{
    let mut out: Vec<ShadowballEffect> = Vec::new();
    let mut sb1 = sb;
    let mut t1 = t;
    let with_hitbox = sbs == ShadowballState::ChargedRolloutWithHitbox || sbs == ShadowballState::RegularRolloutWithHitbox
        || sbs == ShadowballState::AirToGroundRolloutWithHitbox;
    if with_hitbox {
        out.push(ShadowballEffect::Keep { part: ShadowballPart::Main, immediate: true });
        out.push(ShadowballEffect::Keep { part: ShadowballPart::Tail, immediate: true });
        out.push(ShadowballEffect::SuppressVanillaEffects);
    } else if sbs == ShadowballState::ActiveFrameBased || sbs == ShadowballState::ActiveWithHitbox {
        if status == PURIN_SPECIAL_N_HOLD || status == PURIN_SPECIAL_N_HOLD_MAX {
            out.push(ShadowballEffect::Keep { part: ShadowballPart::Main, immediate: true });
            out.push(ShadowballEffect::Keep { part: ShadowballPart::Tail, immediate: true });
            out.push(ShadowballEffect::Keep { part: ShadowballPart::Hold, immediate: false });
            if status == PURIN_SPECIAL_N_HOLD_MAX && (frame as i64) - (t.last_max_sign_frame as i64) >= MAX_SIGN_INTERVAL as i64 {
                out.push(ShadowballEffect::MaxSign);
                t1.last_max_sign_frame = frame;
            }
            out.push(ShadowballEffect::SuppressVanillaEffects);
        }
    } else if sbs == ShadowballState::TransitionKeepModel {
    } else {
        out.push(ShadowballEffect::ClearShadowballEffects);
        if sbs == ShadowballState::NotActive {
            sb1.shadowball_was_sufficiently_charged = false;
            sb1.shadowball_air_charge_count = 0;
        }
    }
    proof {
        assert(out@ =~= state_part(sb, t, sbs, status, frame).2);
    }
    (sb1, t1, out)
}

fn speed_step(sb: ShadowballTracking, t: ShadowballFxTracker, sbs: ShadowballState, inp: ShadowballFxInput, frame: i32)
    -> (r: (ShadowballFxTracker, Vec<ShadowballEffect>))
    ensures
        (r.0, r.1@) == speed_part(sb, t, sbs, inp, frame),
{
    let mut out: Vec<ShadowballEffect> = Vec::new();
    let mut t1 = t;
    let is_rollout = inp.status == PURIN_SPECIAL_N_ROLL || inp.status == PURIN_SPECIAL_N_ROLL_AIR;
    if is_rollout {
        let reached = inp.is_max_charge || inp.hold_max_frames > 0 || sb.shadowball_previous_status == PURIN_SPECIAL_N_HOLD_MAX;
        let invisible = sbs == ShadowballState::ChargedRolloutWithHitbox || sbs == ShadowballState::RegularRolloutWithHitbox
            || sbs == ShadowballState::AirToGroundRolloutWithHitbox;
        if reached && invisible {
            if (frame as i64) - (t.last_speedbooster_frame as i64) >= SPEEDBOOSTER_INTERVAL as i64 {
                out.push(ShadowballEffect::SpeedBooster);
                t1.last_speedbooster_frame = frame;
            }
        } else {
            out.push(ShadowballEffect::KillSpeedBooster);
        }
    }
    proof {
        assert(out@ =~= speed_part(sb, t, sbs, inp, frame).1);
    }
    (t1, out)
}

/// The shadow ball effects of one frame, for the shadow ball state `sbs`
/// found this frame. Returns the effects to perform, in order.
pub fn handle_shadowball_effects(player_state: &mut PlayerEvolutionState, tracker: &mut ShadowballFxTracker,
    sbs: ShadowballState, inp: ShadowballFxInput) -> (effects: Vec<ShadowballEffect>)
    ensures
        (final(player_state).shadowball, *final(tracker), effects@)
            == shadowball_effects(old(player_state).shadowball, *old(tracker), sbs, inp, old(player_state).current_frame),
        *final(player_state) == (PlayerEvolutionState { shadowball: final(player_state).shadowball, ..*old(player_state) }),
{
    let frame = player_state.current_frame;
    let (sb1, t1, mut s1) = state_step(player_state.shadowball, *tracker, sbs, inp.status, frame);
    let (t2, mut s2) = speed_step(sb1, t1, sbs, inp, frame);
    let bomb = inp.status == PURIN_SPECIAL_N_HIT_END && t2.last_status_for_bomb != inp.status;
    let mut t3 = t2;
    t3.last_status_for_bomb = inp.status;
    let mut sb2 = sb1;
    if !(PURIN_SPECIAL_N_HOLD <= inp.status && inp.status <= PURIN_SPECIAL_N_HIT_END) {
        sb2.shadowball_was_sufficiently_charged = false;
        sb2.shadowball_air_charge_count = 0;
    }
    let mut out: Vec<ShadowballEffect> = Vec::new();
    out.push(ShadowballEffect::KillAppealEffect);
    let ghost (v1, v2) = (s1@, s2@);
    out.append(&mut s1);
    out.append(&mut s2);
    if bomb {
        out.push(ShadowballEffect::Bomb);
    }
    proof {
        assert(out@ =~= seq![ShadowballEffect::KillAppealEffect] + v1 + v2 + sfx(bomb, seq![ShadowballEffect::Bomb]));
    }
    player_state.shadowball = sb2;
    *tracker = t3;
    out
}

} // verus!
