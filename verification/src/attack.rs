use vstd::prelude::*;
use crate::hashing::hash40_of;
use crate::stage::{EvolutionStage, ExpressionType, HitboxDetectionMethod, Mesh, spec_mesh_name, mesh_hash};
use crate::state::{PlayerEvolutionState, AttackModuleTracking, ExpressionTracking};
use crate::model::{expression_at, expression_at_index, game_state_expression, detect_expression_from_game_state,
    EyeOverride, ModelInput, ModelScene, WeakenedAction, WeakenedTracker, win_3_blink, down_special_blink, model_step,
    handle_win_3_blink, handle_down_special_blink, set_active_eye_mesh};
use crate::shadowball::ShadowballInput;
use crate::stage::{BLINK_OPEN_MIN, BLINK_OPEN_MAX};
use crate::shadowball::{PURIN_SPECIAL_N_ROLL, PURIN_SPECIAL_N_ROLL_AIR, PURIN_SPECIAL_N_TURN};

verus! {

/// What the attack module reports this frame: the infliction status, an
/// attack that occurred, and whether attacks 0, 1 and 2 are active.
#[derive(Debug, Clone, Copy, PartialEq, Eq, Structural)]
pub struct AttackReport {
    pub infliction: bool,
    pub occur: bool,
    pub attack0: bool,
    pub attack1: bool,
    pub attack2: bool,
}

/// The attack module tracking after a check on `frame`: the first signal
/// found (infliction, occurrence, then attacks 0 to 2) is recorded and
/// counted; with none, a running count ends.
pub open spec fn attack_checked(a: AttackModuleTracking, frame: i32, r: AttackReport) -> AttackModuleTracking {
    let found = if r.infliction { Some(HitboxDetectionMethod::AttackModuleInfliction) }
        else if r.occur { Some(HitboxDetectionMethod::AttackModuleOccur) }
        else if r.attack0 { Some(HitboxDetectionMethod::AttackModuleSpecificId(0)) }
        else if r.attack1 { Some(HitboxDetectionMethod::AttackModuleSpecificId(1)) }
        else if r.attack2 { Some(HitboxDetectionMethod::AttackModuleSpecificId(2)) }
        else { None };
    match found {
        Some(m) => AttackModuleTracking {
            last_attackmodule_check_frame: frame,
            attackmodule_hitbox_detected_this_frame: true,
            last_hitbox_detection_method: m,
            attackmodule_consecutive_detections: (a.attackmodule_consecutive_detections + 1) as i32,
        },
        None => if a.attackmodule_consecutive_detections > 0 {
            AttackModuleTracking {
                last_attackmodule_check_frame: frame,
                attackmodule_hitbox_detected_this_frame: false,
                attackmodule_consecutive_detections: 0,
                last_hitbox_detection_method: HitboxDetectionMethod::NotDetected,
            }
        } else {
            AttackModuleTracking { last_attackmodule_check_frame: frame, attackmodule_hitbox_detected_this_frame: false, ..a }
        },
    }
}

/// Records this frame's attack module report (see `attack_checked`).
pub fn update_attackmodule_detection_state(player_state: &mut PlayerEvolutionState, r: AttackReport)
    requires
        old(player_state).attack.attackmodule_consecutive_detections < i32::MAX,
    ensures
        *final(player_state) == (PlayerEvolutionState {
            attack: attack_checked(old(player_state).attack, old(player_state).current_frame, r),
            ..*old(player_state)
        }),
{
    let frame = player_state.current_frame;
    let mut a = player_state.attack;
    a.last_attackmodule_check_frame = frame;
    a.attackmodule_hitbox_detected_this_frame = false;
    let found = if r.infliction { Some(HitboxDetectionMethod::AttackModuleInfliction) }
        else if r.occur { Some(HitboxDetectionMethod::AttackModuleOccur) }
        else if r.attack0 { Some(HitboxDetectionMethod::AttackModuleSpecificId(0)) }
        else if r.attack1 { Some(HitboxDetectionMethod::AttackModuleSpecificId(1)) }
        else if r.attack2 { Some(HitboxDetectionMethod::AttackModuleSpecificId(2)) }
        else { None };
    match found {
        Some(m) => {
            a.attackmodule_hitbox_detected_this_frame = true;
            a.last_hitbox_detection_method = m;
            a.attackmodule_consecutive_detections = a.attackmodule_consecutive_detections + 1;
        },
        None => {
            if a.attackmodule_consecutive_detections > 0 {
                a.attackmodule_consecutive_detections = 0;
                a.last_hitbox_detection_method = HitboxDetectionMethod::NotDetected;
            }
        },
    }
    player_state.attack = a;
}

/// With expression tracking on, the attack module is checked every frame
/// and a found hitbox shows the stage's attack eye.
pub fn detect_vanilla_expression_with_attackmodule(player_state: &mut PlayerEvolutionState, r: AttackReport)
    -> (eye: Option<Mesh>)
    requires
        old(player_state).attack.attackmodule_consecutive_detections < i32::MAX,
    ensures
        !old(player_state).expression.vanilla_expression_tracking ==> eye.is_none() && *final(player_state) == *old(player_state),
        old(player_state).expression.vanilla_expression_tracking ==> ({
            let a = attack_checked(old(player_state).attack, old(player_state).current_frame, r);
            &&& *final(player_state) == (PlayerEvolutionState { attack: a, ..*old(player_state) })
            &&& eye == (if a.attackmodule_hitbox_detected_this_frame {
                    Some(Mesh::Eye(old(player_state).stage, ExpressionType::Attack)) } else { None })
        }),
{
    if !player_state.expression.vanilla_expression_tracking {
        return None;
    }
    update_attackmodule_detection_state(player_state, r);
    if player_state.attack.attackmodule_hitbox_detected_this_frame {
        Some(Mesh::Eye(player_state.stage, ExpressionType::Attack))
    } else {
        None
    }
}

/// The attack module found a hitbox on this very frame.
pub fn is_attackmodule_detecting_hitbox(player_state: &PlayerEvolutionState) -> (r: bool)
    ensures
        r == (player_state.attack.attackmodule_hitbox_detected_this_frame
            && player_state.attack.last_attackmodule_check_frame == player_state.current_frame),
{
    player_state.attack.attackmodule_hitbox_detected_this_frame
        && player_state.attack.last_attackmodule_check_frame == player_state.current_frame
}

/// The count of consecutive detections, this frame's detection and the last
/// detection method.
pub fn get_attackmodule_performance_metrics(player_state: &PlayerEvolutionState) -> (r: (i32, bool, HitboxDetectionMethod))
    ensures
        r == (player_state.attack.attackmodule_consecutive_detections,
            player_state.attack.attackmodule_hitbox_detected_this_frame,
            player_state.attack.last_hitbox_detection_method),
{
    (player_state.attack.attackmodule_consecutive_detections,
        player_state.attack.attackmodule_hitbox_detected_this_frame,
        player_state.attack.last_hitbox_detection_method)
}

/// In a rollout (roll, air roll or turn), any attack module signal.
pub fn is_shadowball_hitting_enemy(status: i32, r: AttackReport) -> (hit: bool)
    ensures
        hit == ((status == PURIN_SPECIAL_N_ROLL || status == PURIN_SPECIAL_N_ROLL_AIR || status == PURIN_SPECIAL_N_TURN)
            && (r.infliction || r.occur || r.attack0 || r.attack1 || r.attack2)),
{
    (status == PURIN_SPECIAL_N_ROLL || status == PURIN_SPECIAL_N_ROLL_AIR || status == PURIN_SPECIAL_N_TURN)
        && (r.infliction || r.occur || r.attack0 || r.attack1 || r.attack2)
}

/// The first visible vanilla eye (from position `i`) whose mesh hash is not
/// zero, by position.
pub open spec fn first_visible(visible: Seq<bool>, i: int) -> Option<int>
    decreases 8 - i,
{
    if i >= 8 || i < 0 {
        None
    } else if visible[i] && hash40_of(spec_mesh_name(Mesh::VanillaEye(expression_at(i)))) != 0 {
        Some(i)
    } else {
        first_visible(visible, i + 1)
    }
}

/// The vanilla eye check (every other frame): the first visible vanilla eye
/// gives the stage's eye of its expression, remembered (as changed when it
/// differs from the last one).
pub open spec fn mesh_visibility_checked(e: ExpressionTracking, frame: i32, stage: EvolutionStage, visible: Seq<bool>)
    -> (ExpressionTracking, Option<Mesh>)
{
    if frame % 2 != 0 {
        (e, None)
    } else {
        match first_visible(visible, 0) {
            Some(i) => {
                let c = Mesh::Eye(stage, expression_at(i));
                if e.last_vanilla_expression != Some(c) {
                    (ExpressionTracking { last_vanilla_expression: Some(c), vanilla_expression_changed: true, ..e }, Some(c))
                } else {
                    (e, Some(c))
                }
            },
            None => (e, None),
        }
    }
}

/// Checks which vanilla eye the game shows (see `mesh_visibility_checked`);
/// `visible` lists the eight vanilla eyes in expression order.
pub fn check_vanilla_mesh_visibility(player_state: &mut PlayerEvolutionState, visible: [bool; 8]) -> (eye: Option<Mesh>)
    ensures
        (final(player_state).expression, eye) == mesh_visibility_checked(old(player_state).expression,
            old(player_state).current_frame, old(player_state).stage, visible@),
        *final(player_state) == (PlayerEvolutionState { expression: final(player_state).expression, ..*old(player_state) }),
{
    if player_state.current_frame % 2 != 0 {
        return None;
    }
    let mut i: usize = 0;
    while i < 8
        invariant
            i <= 8,
            player_state.current_frame % 2 == 0,
            *player_state == *old(player_state),
            first_visible(visible@, 0) == first_visible(visible@, i as int),
        decreases 8 - i,
    {
        let e = expression_at_index(i);
        if visible[i] && mesh_hash(Mesh::VanillaEye(e)) != 0 {
            let c = Mesh::Eye(player_state.stage, e);
            if player_state.expression.last_vanilla_expression != Some(c) {
                player_state.expression.last_vanilla_expression = Some(c);
                player_state.expression.vanilla_expression_changed = true;
            }
            return Some(c);
        }
        i = i + 1;
    }
    None
}

/// The first vanilla eye (from position `i`) whose mesh hash is
/// `vanilla_eye`, by position.
pub open spec fn vanilla_eye_position(vanilla_eye: u64, i: int) -> Option<int>
    decreases 8 - i,
{
    if i >= 8 || i < 0 {
        None
    } else if hash40_of(spec_mesh_name(Mesh::VanillaEye(expression_at(i)))) == vanilla_eye {
        Some(i)
    } else {
        vanilla_eye_position(vanilla_eye, i + 1)
    }
}

/// The stage's eye of the expression whose vanilla eye mesh hash is
/// `vanilla_eye` (the first in expression order), if it is one of the eight.
pub fn map_vanilla_to_custom_expression(player_state: &PlayerEvolutionState, vanilla_eye: u64) -> (eye: Option<Mesh>)
    ensures
        eye == match vanilla_eye_position(vanilla_eye, 0) {
            Some(i) => Some(Mesh::Eye(player_state.stage, expression_at(i))),
            None => None,
        },
{
    let mut i: usize = 0;
    while i < 8
        invariant
            i <= 8,
            vanilla_eye_position(vanilla_eye, 0) == vanilla_eye_position(vanilla_eye, i as int),
        decreases 8 - i,
    {
        let e = expression_at_index(i);
        if mesh_hash(Mesh::VanillaEye(e)) == vanilla_eye {
            return Some(Mesh::Eye(player_state.stage, e));
        }
        i = i + 1;
    }
    None
}

/// The state and the eye of `detect_vanilla_expression` (see there).
pub open spec fn vanilla_expression_step(s: PlayerEvolutionState, r: AttackReport, is_special_lw: bool,
    motion_frame_milli: i32, in_attack_status: bool, visible: Seq<bool>) -> (PlayerEvolutionState, Option<Mesh>)
{
    if !s.expression.vanilla_expression_tracking {
        (s, None)
    } else {
        let a = attack_checked(s.attack, s.current_frame, r);
        let (e1, g) = game_state_expression(s.expression, s.current_frame, s.stage, is_special_lw,
            motion_frame_milli, in_attack_status, visible);
        let (e2, v) = mesh_visibility_checked(e1, s.current_frame, s.stage, visible);
        if a.attackmodule_hitbox_detected_this_frame {
            (PlayerEvolutionState { attack: a, ..s }, Some(Mesh::Eye(s.stage, ExpressionType::Attack)))
        } else if g is Some {
            (PlayerEvolutionState { attack: a, expression: e1, ..s }, g)
        } else {
            (PlayerEvolutionState { attack: a, expression: e2, ..s }, v)
        }
    }
}

/// The eye the vanilla model suggests: none without tracking; else an
/// attack eye from the attack module; else the eye from the game state;
/// else the vanilla eye check.
pub fn detect_vanilla_expression(player_state: &mut PlayerEvolutionState, r: AttackReport, is_special_lw: bool,
    motion_frame_milli: i32, in_attack_status: bool, visible: [bool; 8]) -> (eye: Option<Mesh>)
    requires
        old(player_state).attack.attackmodule_consecutive_detections < i32::MAX,
    ensures
        (*final(player_state), eye) == vanilla_expression_step(*old(player_state), r, is_special_lw, motion_frame_milli,
            in_attack_status, visible@),
        !old(player_state).expression.vanilla_expression_tracking ==> eye.is_none() && *final(player_state) == *old(player_state),
        old(player_state).expression.vanilla_expression_tracking ==> ({
            let s = *old(player_state);
            let a = attack_checked(s.attack, s.current_frame, r);
            let (e1, g) = game_state_expression(s.expression, s.current_frame, s.stage, is_special_lw,
                motion_frame_milli, in_attack_status, visible@);
            let (e2, v) = mesh_visibility_checked(e1, s.current_frame, s.stage, visible@);
            if a.attackmodule_hitbox_detected_this_frame {
                &&& eye == Some(Mesh::Eye(s.stage, ExpressionType::Attack))
                &&& *final(player_state) == (PlayerEvolutionState { attack: a, ..s })
            } else if g is Some {
                &&& eye == g
                &&& *final(player_state) == (PlayerEvolutionState { attack: a, expression: e1, ..s })
            } else {
                &&& eye == v
                &&& *final(player_state) == (PlayerEvolutionState { attack: a, expression: e2, ..s })
            }
        }),
{
    if !player_state.expression.vanilla_expression_tracking {
        return None;
    }
    let am = detect_vanilla_expression_with_attackmodule(player_state, r);
    if am.is_some() {
        return am;
    }
    let g = detect_expression_from_game_state(player_state, is_special_lw, motion_frame_milli, in_attack_status, visible);
    if g.is_some() {
        return g;
    }
    check_vanilla_mesh_visibility(player_state, visible)
}

/// Thousandths of a unit within which a recently hit enemy is looked for
/// (10 units).
pub const HIT_ENEMY_RANGE: i64 = 10000;
/// The largest coordinate magnitude handled (thousandths of a unit).
pub const COORD_LIMIT: i64 = 0x100_0000_0000;

/// A fighter slot seen when looking for the enemy just hit: its entry, whether
/// it holds a fighter, and its hip position (thousandths of a unit).
#[derive(Debug, Clone, Copy, PartialEq, Eq, Structural)]
pub struct EnemyCandidate {
    pub entry_id: u32,
    pub is_fighter: bool,
    pub x: i64,
    pub y: i64,
    pub z: i64,
}

/// A point (thousandths of a unit).
#[derive(Debug, Clone, Copy, PartialEq, Eq, Structural)]
pub struct Point3 {
    pub x: i64,
    pub y: i64,
    pub z: i64,
}

pub open spec fn coord_ok(v: i64) -> bool {
    -COORD_LIMIT < v < COORD_LIMIT
}

pub open spec fn dist2(c: EnemyCandidate, p: Point3) -> int {
    (c.x - p.x) * (c.x - p.x) + (c.y - p.y) * (c.y - p.y) + (c.z - p.z) * (c.z - p.z)
}

/// A candidate that counts: another fighter within 10 units.
pub open spec fn eligible(c: EnemyCandidate, me: u32, p: Point3) -> bool {
    c.entry_id != me && c.is_fighter && dist2(c, p) <= HIT_ENEMY_RANGE * HIT_ENEMY_RANGE
}

/// The squared distance of a candidate from a point.
fn dist2_of(c: &EnemyCandidate, p: &Point3) -> (d: i128)
    requires
        coord_ok(c.x), coord_ok(c.y), coord_ok(c.z), coord_ok(p.x), coord_ok(p.y), coord_ok(p.z),
    ensures
        d == dist2(*c, *p),
{
    let dx = c.x as i128 - p.x as i128;
    let dy = c.y as i128 - p.y as i128;
    let dz = c.z as i128 - p.z as i128;
    assert(dx * dx <= 0x4_0000_0000_0000_0000_0000i128) by (nonlinear_arith)
        requires -0x200_0000_0000i128 < dx < 0x200_0000_0000i128;
    assert(dy * dy <= 0x4_0000_0000_0000_0000_0000i128) by (nonlinear_arith)
        requires -0x200_0000_0000i128 < dy < 0x200_0000_0000i128;
    assert(dz * dz <= 0x4_0000_0000_0000_0000_0000i128) by (nonlinear_arith)
        requires -0x200_0000_0000i128 < dz < 0x200_0000_0000i128;
    assert(dx * dx >= 0 && dy * dy >= 0 && dz * dz >= 0) by (nonlinear_arith);
    dx * dx + dy * dy + dz * dz
}

/// The enemy just hit: among the candidates, the closest other fighter
/// within 10 units of the attacker's position `me_pos` (the earliest on a
/// tie); returns its entry and position.
pub fn find_recently_hit_enemy(candidates: &Vec<EnemyCandidate>, me: u32, me_pos: Point3) -> (r: Option<(u32, Point3)>)
    requires
        forall|i: int| 0 <= i < candidates@.len() ==> coord_ok(#[trigger] candidates@[i].x)
            && coord_ok(candidates@[i].y) && coord_ok(candidates@[i].z),
        coord_ok(me_pos.x), coord_ok(me_pos.y), coord_ok(me_pos.z),
    ensures
        r is None ==> forall|i: int| 0 <= i < candidates@.len() ==> !eligible(#[trigger] candidates@[i], me, me_pos),
        r is Some ==> exists|k: int| #![trigger candidates@[k]] 0 <= k < candidates@.len() && {
            let c = candidates@[k];
            &&& eligible(c, me, me_pos)
            &&& r == Some((c.entry_id, Point3 { x: c.x, y: c.y, z: c.z }))
            &&& forall|i: int| 0 <= i < candidates@.len() && eligible(#[trigger] candidates@[i], me, me_pos)
                    ==> dist2(c, me_pos) <= dist2(candidates@[i], me_pos)
            &&& forall|i: int| 0 <= i < k && eligible(#[trigger] candidates@[i], me, me_pos)
                    ==> dist2(c, me_pos) < dist2(candidates@[i], me_pos)
        },
{
    let mut best: Option<usize> = None;
    let mut best_d: i128 = 0;
    let mut i: usize = 0;
    while i < candidates.len()
        invariant
            i <= candidates@.len(),
            forall|j: int| 0 <= j < candidates@.len() ==> coord_ok(#[trigger] candidates@[j].x)
                && coord_ok(candidates@[j].y) && coord_ok(candidates@[j].z),
            coord_ok(me_pos.x), coord_ok(me_pos.y), coord_ok(me_pos.z),
            best is None ==> forall|j: int| 0 <= j < i ==> !eligible(#[trigger] candidates@[j], me, me_pos),
            best is Some ==> ({
                let k = best.unwrap() as int;
                &&& 0 <= k < i
                &&& eligible(candidates@[k], me, me_pos)
                &&& best_d == dist2(candidates@[k], me_pos)
                &&& forall|j: int| 0 <= j < i && eligible(#[trigger] candidates@[j], me, me_pos)
                        ==> best_d <= dist2(candidates@[j], me_pos)
                &&& forall|j: int| 0 <= j < k && eligible(#[trigger] candidates@[j], me, me_pos)
                        ==> best_d < dist2(candidates@[j], me_pos)
            }),
        decreases candidates@.len() - i,
    {
        let c = &candidates[i];
        if c.entry_id != me && c.is_fighter {
            let d = dist2_of(c, &me_pos);
            if d <= (HIT_ENEMY_RANGE as i128) * (HIT_ENEMY_RANGE as i128) {
                match best {
                    None => {
                        best = Some(i);
                        best_d = d;
                    },
                    Some(_) => {
                        if d < best_d {
                            best = Some(i);
                            best_d = d;
                        }
                    },
                }
            }
        }
        i = i + 1;
    }
    match best {
        None => None,
        Some(k) => {
            let c = candidates[k];
            Some((c.entry_id, Point3 { x: c.x, y: c.y, z: c.z }))
        },
    }
}

/// What the eyes and model of a fighter see in a frame.
#[derive(Debug, Clone, Copy)]
pub struct ExpressionInput {
    pub motion: u64,
    /// The motion frame, in thousandths.
    pub motion_frame_milli: i32,
    /// The fighter's final smash flag.
    pub final_flag: bool,
    /// The fighter is in its down special status.
    pub is_special_lw: bool,
    pub report: AttackReport,
    /// The fighter is in one of its attack statuses.
    pub in_attack_status: bool,
    /// Which of the eight vanilla eyes the game shows, in expression order.
    pub visible: [bool; 8],
    pub shadowball: ShadowballInput,
    pub damage: i32,
    pub entry_id: u32,
}

/// What the caller shows for the eyes and model this frame.
#[derive(Debug, Clone, Copy, PartialEq, Eq, Structural)]
pub enum ExpressionFrame {
    /// Evolving or in the final smash form: the eyes are handled elsewhere.
    Skipped,
    /// A forced eye (third victory pose, else down special blink) over the stage's body.
    Override(EyeOverride),
    /// The model scene, and what happens to the weakened look.
    Scene(ModelScene, WeakenedAction),
}

/// The eyes and model of a frame: nothing while evolving or in the final
/// smash form; else the third victory pose's eye, else the down special
/// blink; else the eye the vanilla model suggests, the blink ticking only
/// when it suggests none (reopened eyes stay open for `open_frames`), and
/// the model scene for that eye.
pub open spec fn expression_frame(s: PlayerEvolutionState, w: WeakenedTracker, inp: ExpressionInput, open_frames: i32)
    -> (PlayerEvolutionState, WeakenedTracker, ExpressionFrame)
{
    if s.evolution.is_evolving || s.items.is_in_final_smash_form {
        (s, w, ExpressionFrame::Skipped)
    } else {
        match win_3_blink(s, inp.motion, inp.motion_frame_milli, inp.final_flag) {
            Some(o) => (s, w, ExpressionFrame::Override(o)),
            None => match down_special_blink(s, inp.is_special_lw, inp.motion_frame_milli, inp.final_flag) {
                Some(o) => (s, w, ExpressionFrame::Override(o)),
                None => {
                    let (s1, eye) = vanilla_expression_step(s, inp.report, inp.is_special_lw, inp.motion_frame_milli,
                        inp.in_attack_status, inp.visible@);
                    let s2 = if eye is None {
                        PlayerEvolutionState { blink: PlayerEvolutionState::blink_ticked(s1.blink, open_frames), ..s1 }
                    } else {
                        s1
                    };
                    let (s3, w3, scene, act) = model_step(s2, w, ModelInput {
                        shadowball: inp.shadowball,
                        motion_frame_milli: inp.motion_frame_milli,
                        final_flag: inp.final_flag,
                        damage: inp.damage,
                        entry_id: inp.entry_id,
                        expression_override: eye,
                    });
                    (s3, w3, ExpressionFrame::Scene(scene, act))
                },
            },
        }
    }
}

/// The eyes and model of a frame (see `expression_frame`).
pub fn handle_expression_frame(player_state: &mut PlayerEvolutionState, weakened: &mut WeakenedTracker,
    inp: ExpressionInput, next_open_timer: i32) -> (f: ExpressionFrame)
    requires
        old(player_state).attack.attackmodule_consecutive_detections < i32::MAX,
        old(player_state).blink.blink_timer > i32::MIN,
        old(player_state).shadowball.shadowball_status_frames < i32::MAX,
        BLINK_OPEN_MIN <= next_open_timer <= BLINK_OPEN_MAX,
    ensures
        (*final(player_state), *final(weakened), f) == expression_frame(*old(player_state), *old(weakened), inp, next_open_timer),
{
    if player_state.evolution.is_evolving || player_state.items.is_in_final_smash_form {
        return ExpressionFrame::Skipped;
    }
    if let Some(o) = handle_win_3_blink(player_state, inp.motion, inp.motion_frame_milli, inp.final_flag) {
        return ExpressionFrame::Override(o);
    }
    if let Some(o) = handle_down_special_blink(player_state, inp.is_special_lw, inp.motion_frame_milli, inp.final_flag) {
        return ExpressionFrame::Override(o);
    }
    let eye = detect_vanilla_expression(player_state, inp.report, inp.is_special_lw, inp.motion_frame_milli,
        inp.in_attack_status, inp.visible);
    if eye.is_none() {
        player_state.tick_blink(next_open_timer);
    }
    let (scene, act) = set_active_eye_mesh(player_state, weakened, ModelInput {
        shadowball: inp.shadowball,
        motion_frame_milli: inp.motion_frame_milli,
        final_flag: inp.final_flag,
        damage: inp.damage,
        entry_id: inp.entry_id,
        expression_override: eye,
    });
    ExpressionFrame::Scene(scene, act)
}

} // verus!
