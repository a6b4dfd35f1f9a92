use vstd::prelude::*;
use crate::hashing::{hash40_of, hash40_str};
use crate::stage::{EvolutionStage, BlinkPhase, ExpressionType, Mesh};
use crate::state::{PlayerEvolutionState, ShadowballTracking, ExpressionTracking};
use crate::shadowball::{
    ShadowballState, ShadowballInput, shadowball_step, detect_shadowball_hitbox_state,
    PURIN_SPECIAL_N_HOLD, PURIN_SPECIAL_N_HOLD_MAX, PURIN_SPECIAL_N_ROLL, PURIN_SPECIAL_N_ROLL_AIR,
    PURIN_SPECIAL_N_TURN, PURIN_SPECIAL_N_END, is_in_rollout_status, spec_is_in_rollout_status,
};

verus! {

/// Damage (150%, in thousandths) from which the fighter looks weakened.
pub const WEAKENED_DAMAGE: i32 = 150000;

/// `motion` is the animation called `name`.
pub open spec fn motion_is(motion: u64, name: Seq<char>) -> bool {
    motion == hash40_of(name)
}

/// Whether `motion` is the animation called `name`.
fn motion_named(motion: u64, name: &str) -> (r: bool)
    ensures
        r == motion_is(motion, name@),
{
    motion == hash40_str(name)
}

/// The animation frame (thousandths) lies in frames 7 to 49.
pub open spec fn tongue_frames(frame_milli: i32) -> bool {
    7000 <= frame_milli <= 49000
}

/// The final smash animations.
pub open spec fn is_final_motion(m: u64) -> bool {
    motion_is(m, "final"@) || motion_is(m, "final_air"@) || motion_is(m, "final_start_r"@) || motion_is(m, "final_end_r"@)
}

/// The animations in which Gengar shows its normal tongue.
pub open spec fn is_tongue_normal_motion(m: u64) -> bool {
    ||| motion_is(m, "final"@) ||| motion_is(m, "final_air"@) ||| motion_is(m, "special_hi"@)
    ||| motion_is(m, "special_air_hi"@) ||| motion_is(m, "special_air_s"@) ||| motion_is(m, "attack_dash"@)
    ||| motion_is(m, "attack_s3_hi"@) ||| motion_is(m, "attack_s3_lw"@) ||| motion_is(m, "attack_s3_s"@)
    ||| motion_is(m, "attack_s4_s"@) ||| motion_is(m, "attack_hi4"@) ||| motion_is(m, "attack_lw4"@)
    ||| motion_is(m, "attack_air_hi"@) ||| motion_is(m, "attack_air_f"@) ||| motion_is(m, "attack_air_n"@)
    ||| motion_is(m, "dash"@) ||| motion_is(m, "turn_dash"@) ||| motion_is(m, "attack_hi3"@)
    ||| motion_is(m, "attack_lw3"@) ||| motion_is(m, "attack_lw4_hold"@) ||| motion_is(m, "special_s"@)
    ||| motion_is(m, "damage_hi_1"@) ||| motion_is(m, "damage_hi_2"@) ||| motion_is(m, "damage_hi_3"@)
    ||| motion_is(m, "damage_lw_1"@) ||| motion_is(m, "damage_lw_2"@) ||| motion_is(m, "damage_lw_3"@)
    ||| motion_is(m, "damage_n_1"@) ||| motion_is(m, "damage_n_2"@) ||| motion_is(m, "damage_n_3"@)
    ||| motion_is(m, "damage_fly_hi"@) ||| motion_is(m, "damage_fly_lw"@) ||| motion_is(m, "damage_fly_n"@)
}

/// Whether `m` is a final smash animation.
fn final_motion(m: u64) -> (r: bool)
    ensures
        r == is_final_motion(m),
{
    motion_named(m, "final") || motion_named(m, "final_air") || motion_named(m, "final_start_r") || motion_named(m, "final_end_r")
}

/// Whether Gengar shows its normal tongue in animation `m`.
fn tongue_normal_motion(m: u64) -> (r: bool)
    ensures
        r == is_tongue_normal_motion(m),
{
    motion_named(m, "final") || motion_named(m, "final_air") || motion_named(m, "special_hi")
    || motion_named(m, "special_air_hi") || motion_named(m, "special_air_s") || motion_named(m, "attack_dash")
    || motion_named(m, "attack_s3_hi") || motion_named(m, "attack_s3_lw") || motion_named(m, "attack_s3_s")
    || motion_named(m, "attack_s4_s") || motion_named(m, "attack_hi4") || motion_named(m, "attack_lw4")
    || motion_named(m, "attack_air_hi") || motion_named(m, "attack_air_f") || motion_named(m, "attack_air_n")
    || motion_named(m, "dash") || motion_named(m, "turn_dash") || motion_named(m, "attack_hi3")
    || motion_named(m, "attack_lw3") || motion_named(m, "attack_lw4_hold") || motion_named(m, "special_s")
    || motion_named(m, "damage_hi_1") || motion_named(m, "damage_hi_2") || motion_named(m, "damage_hi_3")
    || motion_named(m, "damage_lw_1") || motion_named(m, "damage_lw_2") || motion_named(m, "damage_lw_3")
    || motion_named(m, "damage_n_1") || motion_named(m, "damage_n_2") || motion_named(m, "damage_n_3")
    || motion_named(m, "damage_fly_hi") || motion_named(m, "damage_fly_lw") || motion_named(m, "damage_fly_n")
}

/// What the model shows this frame; the caller hides what the scene does
/// not name.
#[derive(Debug, Clone, Copy, PartialEq, Eq, Structural)]
pub enum ModelScene {
    /// The shadow ball mesh alone (a charged neutral special).
    ShadowballHold(Mesh),
    /// Nothing (a rollout with an active hitbox).
    Hidden,
    /// The evolving model alone, with every eye hidden (a turn while evolving).
    EvolvingTurn(Mesh),
    /// The evolving model: a main mesh and an extra one (tongue or floor shadow).
    Evolving { main: Option<Mesh>, extra: Option<Mesh> },
    /// An animation-specific mesh in place of the body.
    Special(Mesh),
    /// The stage's body with a tongue (if any) and an eye; the Gastly body
    /// is forced hidden during a final smash.
    Normal { hide_gastly_body: bool, tongue: Option<Mesh>, eye: Mesh },
}

/// What the game reports that decides the model (the animation frame in
/// thousandths; the damage in thousandths of a percent).
#[derive(Debug, Clone, Copy, PartialEq, Eq, Structural)]
pub struct ModelInput {
    pub shadowball: ShadowballInput,
    pub motion_frame_milli: i32,
    /// The final smash flag of the fighter.
    pub final_flag: bool,
    pub damage: i32,
    pub entry_id: u32,
    /// The eye chosen from the game state, if any.
    pub expression_override: Option<Mesh>,
}

/// The main, floor shadow and tongue meshes of the evolving model, for an
/// evolution from `stage` to `target` (Haunter has no evolving tongue: its
/// slot holds a mesh that is never shown).
pub open spec fn evolving_meshes(stage: EvolutionStage, target: EvolutionStage) -> Option<(Mesh, Mesh, Mesh)> {
    if stage == EvolutionStage::Gastly && target == EvolutionStage::Haunter {
        Some((Mesh::GastlyEvolving, Mesh::GastlyEvolvingFloorShadow, Mesh::GastlyEvolvingTongue))
    } else if stage == EvolutionStage::Haunter && target == EvolutionStage::Gengar {
        Some((Mesh::HaunterEvolving, Mesh::HaunterEvolvingFloorShadow, Mesh::GastlyTongue))
    } else {
        None
    }
}

/// The shadow ball mesh of `s` (the evolving one during an evolution).
pub open spec fn shadowball_mesh(s: PlayerEvolutionState) -> Mesh {
    if s.evolution.is_evolving && s.stage == EvolutionStage::Gastly && s.evolution.evolution_target_stage == EvolutionStage::Haunter {
        Mesh::GastlyEvolvingShadowball
    } else if s.evolution.is_evolving && s.stage == EvolutionStage::Haunter && s.evolution.evolution_target_stage == EvolutionStage::Gengar {
        Mesh::HaunterEvolvingShadowball
    } else {
        Mesh::Shadowball(s.stage)
    }
}

/// The evolving scene for motion `m` at frame `f`, or none (rolls and
/// charges are left to the shadow ball logic).
pub open spec fn evolving_scene(s: PlayerEvolutionState, status: i32, m: u64, f: i32) -> Option<ModelScene> {
    match evolving_meshes(s.stage, s.evolution.evolution_target_stage) {
        None => None,
        Some((main, floor, tongue)) => {
            if !s.evolution.is_evolving || status == PURIN_SPECIAL_N_ROLL || status == PURIN_SPECIAL_N_ROLL_AIR
                || status == PURIN_SPECIAL_N_HOLD || status == PURIN_SPECIAL_N_HOLD_MAX {
                None
            } else if motion_is(m, "squat_wait"@) {
                Some(ModelScene::Evolving { main: None, extra: Some(floor) })
            } else if s.stage == EvolutionStage::Gastly
                && ((motion_is(m, "attack_air_lw"@) && tongue_frames(f)) || motion_is(m, "catch_attack"@) || motion_is(m, "catch_wait"@)) {
                Some(ModelScene::Evolving { main: Some(main), extra: Some(tongue) })
            } else {
                Some(ModelScene::Evolving { main: Some(main), extra: None })
            }
        },
    }
}

/// The animation-specific mesh for motion `m`, if any: a floor shadow while
/// crouching, the ghost in the down taunt, Gengar's run.
pub open spec fn special_mesh(stage: EvolutionStage, m: u64) -> Option<Mesh> {
    if motion_is(m, "squat_wait"@) {
        Some(Mesh::FloorShadow(stage))
    } else if motion_is(m, "appeal_lw_l"@) || motion_is(m, "appeal_lw_r"@) {
        Some(Mesh::TauntGhost)
    } else if motion_is(m, "run"@) && stage == EvolutionStage::Gengar {
        Some(Mesh::GengarRun)
    } else {
        None
    }
}

/// The tongue shown with the normal model in motion `m` at frame `f`.
pub open spec fn tongue_mesh(s: PlayerEvolutionState, m: u64, f: i32) -> Option<Mesh> {
    if s.stage == EvolutionStage::Gengar && !s.items.giga_gengar_form_active && !s.items.mega_gengar_form_active
        && is_tongue_normal_motion(m) {
        Some(Mesh::GengarTongueNormal)
    } else if motion_is(m, "attack_air_lw"@) && tongue_frames(f) {
        match s.stage {
            EvolutionStage::Gastly => Some(Mesh::GastlyTongue),
            EvolutionStage::Gengar => Some(Mesh::GengarTongueNormal),
            EvolutionStage::Haunter => None,
        }
    } else if motion_is(m, "catch_attack"@) || motion_is(m, "catch_wait"@) {
        match s.stage {
            EvolutionStage::Gastly => Some(Mesh::GastlyTongue),
            EvolutionStage::Gengar => Some(Mesh::GengarTongueLong),
            EvolutionStage::Haunter => None,
        }
    } else {
        None
    }
}

/// The Gastly body is forced hidden: a Haunter or Gengar in a final smash.
pub open spec fn gastly_body_forced_hidden(s: PlayerEvolutionState, final_flag: bool, m: u64) -> bool {
    (s.stage == EvolutionStage::Haunter || s.stage == EvolutionStage::Gengar)
        && (final_flag || s.items.is_in_final_smash_form || is_final_motion(m))
}

/// The eye of the blink phase (or the override).
pub open spec fn base_eye(s: PlayerEvolutionState, over: Option<Mesh>) -> Mesh {
    match over {
        Some(e) => e,
        None => match s.blink.blink_phase {
            BlinkPhase::Open => Mesh::Eye(s.stage, ExpressionType::Normal),
            BlinkPhase::HalfClose => Mesh::Eye(s.stage, ExpressionType::HalfBlink),
            BlinkPhase::HalfOpen => Mesh::Eye(s.stage, ExpressionType::HalfBlink),
            BlinkPhase::FullClose => Mesh::Eye(s.stage, ExpressionType::Blink),
        },
    }
}

/// Per-entry memory of the weakened look.
#[derive(Debug, Clone, Copy, PartialEq, Eq, Structural)]
pub struct WeakenedTracker {
    /// The weakened effect is alive.
    pub spawned: bool,
    /// Damage last seen (thousandths of a percent).
    pub last_damage: i32,
}

impl WeakenedTracker {
    pub open spec fn initial() -> Self {
        WeakenedTracker { spawned: false, last_damage: 0 }
    }

    /// Nothing seen yet.
    pub fn new() -> (t: Self)
        ensures
            t == Self::initial(),
    {
        WeakenedTracker { spawned: false, last_damage: 0 }
    }

    /// Records that the weakened effect spawned.
    pub fn record_spawned(&mut self)
        ensures
            *final(self) == (WeakenedTracker { spawned: true, ..*old(self) }),
    {
        self.spawned = true;
    }

    /// Forgets the weakened look, as after an emergency cleanup (returns
    /// whether the effect has to be killed).
    pub fn emergency_cleanup_weakened(&mut self) -> (kill: bool)
        ensures
            kill == old(self).spawned,
            *final(self) == if old(self).spawned { WeakenedTracker::initial() } else { *old(self) },
    {
        if self.spawned {
            self.spawned = false;
            self.last_damage = 0;
            true
        } else {
            false
        }
    }
}

/// What happens to the weakened effect this frame.
#[derive(Debug, Clone, Copy, PartialEq, Eq, Structural)]
pub enum WeakenedAction {
    Nothing,
    /// Spawn the effect (record it once it spawned).
    Spawn,
    Kill,
}

/// At 150% or more the fighter looks weakened, except while crouching, in
/// the neutral special or in a final smash.
pub open spec fn should_be_weakened(s: PlayerEvolutionState, inp: ModelInput) -> bool {
    let st = inp.shadowball.status;
    inp.damage >= WEAKENED_DAMAGE
        && !motion_is(inp.shadowball.motion, "squat_wait"@)
        && !(PURIN_SPECIAL_N_HOLD <= st <= PURIN_SPECIAL_N_END)
        && !inp.final_flag && !s.items.is_in_final_smash_form
}

/// The weakened look for eye `eye`: the tracker, the effect action and the
/// eye shown (a weakened fighter's open eye is half closed). Entries from 8
/// up are left alone.
pub open spec fn weakened_step(w: WeakenedTracker, s: PlayerEvolutionState, inp: ModelInput, eye: Mesh)
    -> (WeakenedTracker, WeakenedAction, Mesh)
{
    if inp.entry_id >= 8 {
        (w, WeakenedAction::Nothing, eye)
    } else {
        let weak = should_be_weakened(s, inp);
        let dropped = w.last_damage >= WEAKENED_DAMAGE && inp.damage < WEAKENED_DAMAGE;
        let died = inp.damage <= 5000 && w.last_damage >= 50000;
        let (sp, act) = if dropped && w.spawned {
            (false, WeakenedAction::Kill)
        } else if weak && !w.spawned {
            (false, WeakenedAction::Spawn)
        } else if !weak && w.spawned {
            (false, WeakenedAction::Kill)
        } else if died && w.spawned {
            (false, WeakenedAction::Kill)
        } else {
            (w.spawned, WeakenedAction::Nothing)
        };
        (WeakenedTracker { spawned: sp, last_damage: inp.damage },
            act,
            if weak && eye == Mesh::Eye(s.stage, ExpressionType::Normal) { Mesh::Eye(s.stage, ExpressionType::HalfBlink) } else { eye })
    }
}

/// The weakened look (see `weakened_step`); returns the effect action and the eye to show.
pub fn handle_weakened_state_isolated(w: &mut WeakenedTracker, player_state: &PlayerEvolutionState, inp: ModelInput, eye: Mesh)
    -> (r: (WeakenedAction, Mesh))
    ensures
        (*final(w), r.0, r.1) == weakened_step(*old(w), *player_state, inp, eye),
{
    if inp.entry_id >= 8 {
        return (WeakenedAction::Nothing, eye);
    }
    let st = inp.shadowball.status;
    let weak = inp.damage >= WEAKENED_DAMAGE
        && !motion_named(inp.shadowball.motion, "squat_wait")
        && !(PURIN_SPECIAL_N_HOLD <= st && st <= PURIN_SPECIAL_N_END)
        && !inp.final_flag && !player_state.items.is_in_final_smash_form;
    let dropped = w.last_damage >= WEAKENED_DAMAGE && inp.damage < WEAKENED_DAMAGE;
    let died = inp.damage <= 5000 && w.last_damage >= 50000;
    let act = if dropped && w.spawned {
        w.spawned = false;
        WeakenedAction::Kill
    } else if weak && !w.spawned {
        WeakenedAction::Spawn
    } else if !weak && w.spawned {
        w.spawned = false;
        WeakenedAction::Kill
    } else if died && w.spawned {
        w.spawned = false;
        WeakenedAction::Kill
    } else {
        WeakenedAction::Nothing
    };
    w.last_damage = inp.damage;
    let shown = if weak && eye == Mesh::Eye(player_state.stage, ExpressionType::Normal) {
        Mesh::Eye(player_state.stage, ExpressionType::HalfBlink)
    } else {
        eye
    };
    (act, shown)
}

/// The model for a frame once the shadow ball state `sbs` is known, before
/// the weakened look: `None` means the normal model (and the shadow ball
/// tracking is `sb`).
pub open spec fn scene_before_normal(s: PlayerEvolutionState, sbs: ShadowballState, inp: ModelInput) -> (ShadowballTracking, Option<ModelScene>) {
    let st = inp.shadowball.status;
    let m = inp.shadowball.motion;
    let f = inp.motion_frame_milli;
    let sb = s.shadowball;
    let active = sbs == ShadowballState::ActiveWithHitbox || sbs == ShadowballState::ActiveFrameBased;
    let hidden = sbs == ShadowballState::ChargedRolloutWithHitbox || sbs == ShadowballState::RegularRolloutWithHitbox
        || sbs == ShadowballState::AirToGroundRolloutWithHitbox;
    let rollout = sbs == ShadowballState::ChargedRollout || sbs == ShadowballState::RegularRollout
        || sbs == ShadowballState::AirToGroundRollout;
    if active && (st == PURIN_SPECIAL_N_HOLD || st == PURIN_SPECIAL_N_HOLD_MAX) {
        (sb, Some(ModelScene::ShadowballHold(shadowball_mesh(s))))
    } else if hidden {
        (sb, Some(ModelScene::Hidden))
    } else if rollout {
        if st == PURIN_SPECIAL_N_TURN && s.evolution.is_evolving {
            match evolving_meshes(s.stage, s.evolution.evolution_target_stage) {
                Some((main, _, _)) => (sb, Some(ModelScene::EvolvingTurn(main))),
                None => (sb, None),
            }
        } else {
            (sb, None)
        }
    } else {
        let sb1 = if sbs == ShadowballState::NotActive && (sb.is_in_shadowball_status || sb.shadowball_status_frames > 0) {
            ShadowballTracking {
                is_in_shadowball_status: false,
                shadowball_status_frames: 0,
                last_shadowball_status: -1i32,
                shadowball_previous_status: -1i32,
                shadowball_air_charge_count: 0,
                ..sb
            }
        } else {
            sb
        };
        match evolving_scene(s, st, m, f) {
            Some(sc) => (sb1, Some(sc)),
            None => match special_mesh(s.stage, m) {
                Some(mesh) => (sb1, Some(ModelScene::Special(mesh))),
                None => (sb1, None),
            },
        }
    }
}

/// One frame of the model: the shadow ball first (a charge shows the
/// shadow ball, a rollout with a hitbox hides everything, a turn while
/// evolving shows the evolving model), then the evolving model, then an
/// animation-specific mesh, else the normal model with its tongue and eye
/// (the eye half closed when weakened). Also the new charge and weakened
/// trackers and the weakened effect action.
pub open spec fn model_step(s: PlayerEvolutionState, w: WeakenedTracker, inp: ModelInput)
    -> (PlayerEvolutionState, WeakenedTracker, ModelScene, WeakenedAction)
{
    let (sb1, sbs) = shadowball_step(s.shadowball, inp.shadowball);
    let s1 = PlayerEvolutionState { shadowball: sb1, ..s };
    let (sb2, sc) = scene_before_normal(s1, sbs, inp);
    let s2 = PlayerEvolutionState { shadowball: sb2, ..s1 };
    match sc {
        Some(scene) => (s2, w, scene, WeakenedAction::Nothing),
        None => {
            let (w1, act, eye) = weakened_step(w, s2, inp, base_eye(s2, inp.expression_override));
            (s2, w1, ModelScene::Normal {
                hide_gastly_body: gastly_body_forced_hidden(s2, inp.final_flag, inp.shadowball.motion),
                tongue: tongue_mesh(s2, inp.shadowball.motion, inp.motion_frame_milli),
                eye: eye,
            }, act)
        },
    }
}


/// The evolving meshes of an evolution from `stage` to `target`.
fn evolving_meshes_of(stage: EvolutionStage, target: EvolutionStage) -> (r: Option<(Mesh, Mesh, Mesh)>)
    ensures
        r == evolving_meshes(stage, target),
{
    if stage == EvolutionStage::Gastly && target == EvolutionStage::Haunter {
        Some((Mesh::GastlyEvolving, Mesh::GastlyEvolvingFloorShadow, Mesh::GastlyEvolvingTongue))
    } else if stage == EvolutionStage::Haunter && target == EvolutionStage::Gengar {
        Some((Mesh::HaunterEvolving, Mesh::HaunterEvolvingFloorShadow, Mesh::GastlyTongue))
    } else {
        None
    }
}

/// The shadow ball mesh of the fighter.
fn shadowball_mesh_of(s: &PlayerEvolutionState) -> (m: Mesh)
    ensures
        m == shadowball_mesh(*s),
{
    if s.evolution.is_evolving && s.stage == EvolutionStage::Gastly && s.evolution.evolution_target_stage == EvolutionStage::Haunter {
        Mesh::GastlyEvolvingShadowball
    } else if s.evolution.is_evolving && s.stage == EvolutionStage::Haunter && s.evolution.evolution_target_stage == EvolutionStage::Gengar {
        Mesh::HaunterEvolvingShadowball
    } else {
        Mesh::Shadowball(s.stage)
    }
}

/// The evolving scene, if any (see `evolving_scene`).
fn evolving_scene_of(s: &PlayerEvolutionState, status: i32, m: u64, f: i32) -> (r: Option<ModelScene>)
    ensures
        r == evolving_scene(*s, status, m, f),
{
    match evolving_meshes_of(s.stage, s.evolution.evolution_target_stage) {
        None => None,
        Some((main, floor, tongue)) => {
            if !s.evolution.is_evolving || status == PURIN_SPECIAL_N_ROLL || status == PURIN_SPECIAL_N_ROLL_AIR
                || status == PURIN_SPECIAL_N_HOLD || status == PURIN_SPECIAL_N_HOLD_MAX {
                None
            } else if motion_named(m, "squat_wait") {
                Some(ModelScene::Evolving { main: None, extra: Some(floor) })
            } else if s.stage == EvolutionStage::Gastly
                && ((motion_named(m, "attack_air_lw") && 7000 <= f && f <= 49000)
                    || motion_named(m, "catch_attack") || motion_named(m, "catch_wait")) {
                Some(ModelScene::Evolving { main: Some(main), extra: Some(tongue) })
            } else {
                Some(ModelScene::Evolving { main: Some(main), extra: None })
            }
        },
    }
}

/// The animation-specific mesh for motion `m`, if any.
fn special_mesh_of(stage: EvolutionStage, m: u64) -> (r: Option<Mesh>)
    ensures
        r == special_mesh(stage, m),
{
    if motion_named(m, "squat_wait") {
        Some(Mesh::FloorShadow(stage))
    } else if motion_named(m, "appeal_lw_l") || motion_named(m, "appeal_lw_r") {
        Some(Mesh::TauntGhost)
    } else if motion_named(m, "run") && stage == EvolutionStage::Gengar {
        Some(Mesh::GengarRun)
    } else {
        None
    }
}

/// The tongue shown with the normal model.
fn tongue_mesh_of(s: &PlayerEvolutionState, m: u64, f: i32) -> (r: Option<Mesh>)
    ensures
        r == tongue_mesh(*s, m, f),
{
    if s.stage == EvolutionStage::Gengar && !s.items.giga_gengar_form_active && !s.items.mega_gengar_form_active
        && tongue_normal_motion(m) {
        Some(Mesh::GengarTongueNormal)
    } else if motion_named(m, "attack_air_lw") && 7000 <= f && f <= 49000 {
        match s.stage {
            EvolutionStage::Gastly => Some(Mesh::GastlyTongue),
            EvolutionStage::Gengar => Some(Mesh::GengarTongueNormal),
            EvolutionStage::Haunter => None,
        }
    } else if motion_named(m, "catch_attack") || motion_named(m, "catch_wait") {
        match s.stage {
            EvolutionStage::Gastly => Some(Mesh::GastlyTongue),
            EvolutionStage::Gengar => Some(Mesh::GengarTongueLong),
            EvolutionStage::Haunter => None,
        }
    } else {
        None
    }
}

/// The eye of the blink phase (or the override).
fn base_eye_of(s: &PlayerEvolutionState, over: Option<Mesh>) -> (e: Mesh)
    ensures
        e == base_eye(*s, over),
{
    match over {
        Some(e) => e,
        None => match s.blink.blink_phase {
            BlinkPhase::Open => Mesh::Eye(s.stage, ExpressionType::Normal),
            BlinkPhase::HalfClose => Mesh::Eye(s.stage, ExpressionType::HalfBlink),
            BlinkPhase::HalfOpen => Mesh::Eye(s.stage, ExpressionType::HalfBlink),
            BlinkPhase::FullClose => Mesh::Eye(s.stage, ExpressionType::Blink),
        },
    }
}

/// Applies `scene_before_normal`, updating the fighter's charge tracking.
fn choose_scene(ps: &mut PlayerEvolutionState, sbs: ShadowballState, inp: ModelInput) -> (sc: Option<ModelScene>)
    ensures
        (final(ps).shadowball, sc) == scene_before_normal(*old(ps), sbs, inp),
        *final(ps) == (PlayerEvolutionState { shadowball: final(ps).shadowball, ..*old(ps) }),
{
    let st = inp.shadowball.status;
    let m = inp.shadowball.motion;
    let f = inp.motion_frame_milli;
    let active = sbs == ShadowballState::ActiveWithHitbox || sbs == ShadowballState::ActiveFrameBased;
    let hidden = sbs == ShadowballState::ChargedRolloutWithHitbox || sbs == ShadowballState::RegularRolloutWithHitbox
        || sbs == ShadowballState::AirToGroundRolloutWithHitbox;
    let rollout = sbs == ShadowballState::ChargedRollout || sbs == ShadowballState::RegularRollout
        || sbs == ShadowballState::AirToGroundRollout;
    if active && (st == PURIN_SPECIAL_N_HOLD || st == PURIN_SPECIAL_N_HOLD_MAX) {
        return Some(ModelScene::ShadowballHold(shadowball_mesh_of(ps)));
    }
    if hidden {
        return Some(ModelScene::Hidden);
    }
    if rollout {
        if st == PURIN_SPECIAL_N_TURN && ps.evolution.is_evolving {
            return match evolving_meshes_of(ps.stage, ps.evolution.evolution_target_stage) {
                Some((main, _, _)) => Some(ModelScene::EvolvingTurn(main)),
                None => None,
            };
        }
        return None;
    }
    if sbs == ShadowballState::NotActive && (ps.shadowball.is_in_shadowball_status || ps.shadowball.shadowball_status_frames > 0) {
        ps.shadowball.is_in_shadowball_status = false;
        ps.shadowball.shadowball_status_frames = 0;
        ps.shadowball.last_shadowball_status = -1;
        ps.shadowball.shadowball_previous_status = -1;
        ps.shadowball.shadowball_air_charge_count = 0;
    }
    match evolving_scene_of(ps, st, m, f) {
        Some(sc) => Some(sc),
        None => match special_mesh_of(ps.stage, m) {
            Some(mesh) => Some(ModelScene::Special(mesh)),
            None => None,
        },
    }
}

/// One frame of the model (see `model_step`): returns the scene to show and
/// what to do with the weakened effect.
pub fn set_active_eye_mesh(player_state: &mut PlayerEvolutionState, weakened: &mut WeakenedTracker, inp: ModelInput)
    -> (r: (ModelScene, WeakenedAction))
    requires
        old(player_state).shadowball.shadowball_status_frames < i32::MAX,
    ensures
        (*final(player_state), *final(weakened), r.0, r.1) == model_step(*old(player_state), *old(weakened), inp),
{
    let sbs = detect_shadowball_hitbox_state(player_state, inp.shadowball);
    let sc = choose_scene(player_state, sbs, inp);
    match sc {
        Some(scene) => (scene, WeakenedAction::Nothing),
        None => {
            let eye0 = base_eye_of(player_state, inp.expression_override);
            let (act, eye) = handle_weakened_state_isolated(weakened, player_state, inp, eye0);
            let hide = (player_state.stage == EvolutionStage::Haunter || player_state.stage == EvolutionStage::Gengar)
                && (inp.final_flag || player_state.items.is_in_final_smash_form || final_motion(inp.shadowball.motion));
            let tongue = tongue_mesh_of(player_state, inp.shadowball.motion, inp.motion_frame_milli);
            (ModelScene::Normal { hide_gastly_body: hide, tongue: tongue, eye: eye }, act)
        },
    }
}

/// Law: the weakened look only ever half closes the open eye of the
/// fighter's own stage, and only at 150% damage or more.
pub proof fn lemma_weakened_only_half_closes(w: WeakenedTracker, s: PlayerEvolutionState, inp: ModelInput, eye: Mesh)
    ensures
        weakened_step(w, s, inp, eye).2 == eye
            || (eye == Mesh::Eye(s.stage, ExpressionType::Normal)
                && weakened_step(w, s, inp, eye).2 == Mesh::Eye(s.stage, ExpressionType::HalfBlink)
                && inp.damage >= WEAKENED_DAMAGE),
{
}


/// The expression in position `i` of the vanilla eye list.
pub open spec fn expression_at(i: int) -> ExpressionType {
    if i == 0 { ExpressionType::Normal }
    else if i == 1 { ExpressionType::Blink }
    else if i == 2 { ExpressionType::HalfBlink }
    else if i == 3 { ExpressionType::Attack }
    else if i == 4 { ExpressionType::Capture }
    else if i == 5 { ExpressionType::Ouch }
    else if i == 6 { ExpressionType::Down }
    else { ExpressionType::HeavyAttack }
}

/// The expression in position `i` of the vanilla eye list.
pub(crate) fn expression_at_index(i: usize) -> (e: ExpressionType)
    requires
        i < 8,
    ensures
        e == expression_at(i as int),
{
    if i == 0 { ExpressionType::Normal }
    else if i == 1 { ExpressionType::Blink }
    else if i == 2 { ExpressionType::HalfBlink }
    else if i == 3 { ExpressionType::Attack }
    else if i == 4 { ExpressionType::Capture }
    else if i == 5 { ExpressionType::Ouch }
    else if i == 6 { ExpressionType::Down }
    else { ExpressionType::HeavyAttack }
}

/// The vanilla expression whose eye mesh has hash `h`, the first in list order.
pub open spec fn vanilla_expression_of(h: u64) -> Option<ExpressionType> {
    if h == hash40_of(crate::stage::vanilla_eye_name(ExpressionType::Normal)) { Some(ExpressionType::Normal) }
    else if h == hash40_of(crate::stage::vanilla_eye_name(ExpressionType::Blink)) { Some(ExpressionType::Blink) }
    else if h == hash40_of(crate::stage::vanilla_eye_name(ExpressionType::HalfBlink)) { Some(ExpressionType::HalfBlink) }
    else if h == hash40_of(crate::stage::vanilla_eye_name(ExpressionType::Attack)) { Some(ExpressionType::Attack) }
    else if h == hash40_of(crate::stage::vanilla_eye_name(ExpressionType::Capture)) { Some(ExpressionType::Capture) }
    else if h == hash40_of(crate::stage::vanilla_eye_name(ExpressionType::Ouch)) { Some(ExpressionType::Ouch) }
    else if h == hash40_of(crate::stage::vanilla_eye_name(ExpressionType::Down)) { Some(ExpressionType::Down) }
    else if h == hash40_of(crate::stage::vanilla_eye_name(ExpressionType::HeavyAttack)) { Some(ExpressionType::HeavyAttack) }
    else { None }
}

/// The eye of `stage` for the vanilla eye mesh with hash `h`.
pub open spec fn custom_expression(h: u64, stage: EvolutionStage) -> Option<Mesh> {
    match vanilla_expression_of(h) {
        Some(e) => Some(Mesh::Eye(stage, e)),
        None => None,
    }
}

/// Maps the vanilla eye mesh with hash `vanilla_mesh` to the same
/// expression's eye of `stage` (none for any other mesh).
pub fn map_vanilla_to_custom_expression_direct(vanilla_mesh: u64, stage: EvolutionStage) -> (r: Option<Mesh>)
    ensures
        r == custom_expression(vanilla_mesh, stage),
{
    let h = |e: ExpressionType| -> (r: u64)
        ensures
            r == hash40_of(crate::stage::vanilla_eye_name(e)),
        { crate::stage::mesh_hash(Mesh::VanillaEye(e)) };
    let e = if vanilla_mesh == h(ExpressionType::Normal) { ExpressionType::Normal }
        else if vanilla_mesh == h(ExpressionType::Blink) { ExpressionType::Blink }
        else if vanilla_mesh == h(ExpressionType::HalfBlink) { ExpressionType::HalfBlink }
        else if vanilla_mesh == h(ExpressionType::Attack) { ExpressionType::Attack }
        else if vanilla_mesh == h(ExpressionType::Capture) { ExpressionType::Capture }
        else if vanilla_mesh == h(ExpressionType::Ouch) { ExpressionType::Ouch }
        else if vanilla_mesh == h(ExpressionType::Down) { ExpressionType::Down }
        else if vanilla_mesh == h(ExpressionType::HeavyAttack) { ExpressionType::HeavyAttack }
        else { return None; };
    Some(Mesh::Eye(stage, e))
}


/// The eye chosen from the animation: closed eyes in frames 10 to 60 of the
/// down special (rest), the attack eye in any attack status.
pub open spec fn motion_expression(stage: EvolutionStage, is_special_lw: bool, frame_milli: i32, in_attack_status: bool) -> Option<Mesh> {
    if is_special_lw && 10000 <= frame_milli <= 60000 {
        Some(Mesh::Eye(stage, ExpressionType::Blink))
    } else if in_attack_status {
        Some(Mesh::Eye(stage, ExpressionType::Attack))
    } else {
        None
    }
}

/// The eye chosen from the animation (see `motion_expression`).
pub fn detect_motion_based_expression(stage: EvolutionStage, is_special_lw: bool, motion_frame_milli: i32, in_attack_status: bool) -> (r: Option<Mesh>)
    ensures
        r == motion_expression(stage, is_special_lw, motion_frame_milli, in_attack_status),
{
    if is_special_lw && 10000 <= motion_frame_milli && motion_frame_milli <= 60000 {
        Some(Mesh::Eye(stage, ExpressionType::Blink))
    } else if in_attack_status {
        Some(Mesh::Eye(stage, ExpressionType::Attack))
    } else {
        None
    }
}

/// The first visible vanilla eye, from position `i` of the list on, whose
/// stage eye differs from `last`.
pub open spec fn first_new_vanilla(visible: Seq<bool>, stage: EvolutionStage, last: Option<Mesh>, i: int) -> Option<Mesh>
    decreases 8 - i,
{
    if i >= 8 || i < 0 {
        None
    } else {
        let c = custom_expression(hash40_of(crate::stage::vanilla_eye_name(expression_at(i))), stage);
        if visible[i] && c is Some && last != c {
            c
        } else {
            first_new_vanilla(visible, stage, last, i + 1)
        }
    }
}

/// The expression tracking after polling the vanilla eyes (every other
/// frame): the first visible one whose stage eye differs from the last seen
/// becomes the last seen, marked as changed.
pub open spec fn vanilla_polled(e: ExpressionTracking, frame: i32, stage: EvolutionStage, visible: Seq<bool>) -> ExpressionTracking {
    if frame % 2 != 0 {
        e
    } else {
        match first_new_vanilla(visible, stage, e.last_vanilla_expression, 0) {
            Some(c) => ExpressionTracking { last_vanilla_expression: Some(c), vanilla_expression_changed: true, ..e },
            None => e,
        }
    }
}

/// Polls the vanilla eyes (see `vanilla_polled`); `visible` tells which of
/// the eight vanilla eye meshes the game shows, in expression order.
pub fn detect_vanilla_expression_change(player_state: &mut PlayerEvolutionState, visible: [bool; 8])
    ensures
        *final(player_state) == (PlayerEvolutionState {
            expression: vanilla_polled(old(player_state).expression, old(player_state).current_frame, old(player_state).stage, visible@),
            ..*old(player_state)
        }),
{
    if player_state.current_frame % 2 != 0 {
        assert(player_state.current_frame % 2 != 0);
        return;
    }
    assert(player_state.current_frame % 2 == 0);
    let last = player_state.expression.last_vanilla_expression;
    let stage = player_state.stage;
    let found = first_new_vanilla_eye(&visible, stage, last);
    if found.is_some() {
        player_state.expression.last_vanilla_expression = found;
        player_state.expression.vanilla_expression_changed = true;
    }
}

/// The first visible vanilla eye whose stage eye differs from `last` (see `first_new_vanilla`).
fn first_new_vanilla_eye(visible: &[bool; 8], stage: EvolutionStage, last: Option<Mesh>) -> (r: Option<Mesh>)
    ensures
        r == first_new_vanilla(visible@, stage, last, 0),
{
    let mut i: usize = 0;
    while i < 8
        invariant
            i <= 8,
            first_new_vanilla(visible@, stage, last, 0) == first_new_vanilla(visible@, stage, last, i as int),
        decreases 8 - i,
    {
        let e = expression_at_index(i);
        if visible[i] {
            let c = map_vanilla_to_custom_expression_direct(crate::stage::mesh_hash(Mesh::VanillaEye(e)), stage);
            if c.is_some() && last != c {
                return c;
            }
        }
        i = i + 1;
    }
    None
}

/// The eye chosen from the game state and the expression tracking after it:
/// none without tracking; else the animation's eye; else a changed vanilla
/// eye (clearing the change); else the last vanilla eye after polling.
pub open spec fn game_state_expression(
    e: ExpressionTracking, frame: i32, stage: EvolutionStage, is_special_lw: bool, frame_milli: i32,
    in_attack_status: bool, visible: Seq<bool>,
) -> (ExpressionTracking, Option<Mesh>) {
    if !e.vanilla_expression_tracking {
        (e, None)
    } else if motion_expression(stage, is_special_lw, frame_milli, in_attack_status) is Some {
        (e, motion_expression(stage, is_special_lw, frame_milli, in_attack_status))
    } else if e.vanilla_expression_changed {
        (ExpressionTracking { vanilla_expression_changed: false, ..e }, e.last_vanilla_expression)
    } else {
        let e1 = vanilla_polled(e, frame, stage, visible);
        (e1, e1.last_vanilla_expression)
    }
}

/// The eye chosen from the game state (see `game_state_expression`).
pub fn detect_expression_from_game_state(
    player_state: &mut PlayerEvolutionState,
    is_special_lw: bool,
    motion_frame_milli: i32,
    in_attack_status: bool,
    visible: [bool; 8],
) -> (r: Option<Mesh>)
    ensures
        (final(player_state).expression, r) == game_state_expression(old(player_state).expression,
            old(player_state).current_frame, old(player_state).stage, is_special_lw, motion_frame_milli,
            in_attack_status, visible@),
        *final(player_state) == (PlayerEvolutionState { expression: final(player_state).expression, ..*old(player_state) }),
{
    if !player_state.expression.vanilla_expression_tracking {
        return None;
    }
    let m = detect_motion_based_expression(player_state.stage, is_special_lw, motion_frame_milli, in_attack_status);
    if m.is_some() {
        return m;
    }
    if player_state.expression.vanilla_expression_changed {
        player_state.expression.vanilla_expression_changed = false;
        return player_state.expression.last_vanilla_expression;
    }
    detect_vanilla_expression_change(player_state, visible);
    player_state.expression.last_vanilla_expression
}


/// An eye forced by an animation, with whether the Gastly body is hidden
/// (a Haunter or Gengar in a final smash).
#[derive(Debug, Clone, Copy, PartialEq, Eq, Structural)]
pub struct EyeOverride {
    pub eye: Mesh,
    pub hide_gastly_body: bool,
}

/// The override showing `e` for the fighter.
pub open spec fn eye_override(s: PlayerEvolutionState, e: ExpressionType, final_flag: bool) -> EyeOverride {
    EyeOverride {
        eye: Mesh::Eye(s.stage, e),
        hide_gastly_body: (s.stage == EvolutionStage::Haunter || s.stage == EvolutionStage::Gengar)
            && (s.items.is_in_final_smash_form || final_flag),
    }
}

fn make_override(s: &PlayerEvolutionState, e: ExpressionType, final_flag: bool) -> (r: EyeOverride)
    ensures
        r == eye_override(*s, e, final_flag),
{
    EyeOverride {
        eye: Mesh::Eye(s.stage, e),
        hide_gastly_body: (s.stage == EvolutionStage::Haunter || s.stage == EvolutionStage::Gengar)
            && (s.items.is_in_final_smash_form || final_flag),
    }
}

/// During frames 35 to 185 of the down special (rest) the eyes are closed.
pub open spec fn down_special_blink(s: PlayerEvolutionState, is_special_lw: bool, frame_milli: i32, final_flag: bool) -> Option<EyeOverride> {
    if is_special_lw && 35000 <= frame_milli <= 185000 { Some(eye_override(s, ExpressionType::Blink, final_flag)) } else { None }
}

/// The eye forced by the down special (see `down_special_blink`); the frame in thousandths.
pub fn handle_down_special_blink(player_state: &PlayerEvolutionState, is_special_lw: bool, motion_frame_milli: i32, final_flag: bool)
    -> (r: Option<EyeOverride>)
    ensures
        r == down_special_blink(*player_state, is_special_lw, motion_frame_milli, final_flag),
{
    if is_special_lw && 35000 <= motion_frame_milli && motion_frame_milli <= 185000 {
        Some(make_override(player_state, ExpressionType::Blink, final_flag))
    } else {
        None
    }
}

/// The eyes of the third victory pose: closed for frames 1 to 113, open to
/// 155, then half closed; in its loop half closed for frames 1 to 52, closed
/// to 207, open to 251.
pub open spec fn win_3_blink(s: PlayerEvolutionState, motion: u64, f: i32, final_flag: bool) -> Option<EyeOverride> {
    let e: Option<ExpressionType> = if motion_is(motion, "win_3"@) {
        if 1000 <= f <= 113000 { Some(ExpressionType::Blink) }
        else if 114000 <= f <= 155000 { Some(ExpressionType::Normal) }
        else if f >= 156000 { Some(ExpressionType::HalfBlink) }
        else { None }
    } else if motion_is(motion, "win_3_wait"@) {
        if 1000 <= f <= 52000 { Some(ExpressionType::HalfBlink) }
        else if 53000 <= f <= 207000 { Some(ExpressionType::Blink) }
        else if 208000 <= f <= 251000 { Some(ExpressionType::Normal) }
        else { None }
    } else {
        None
    };
    match e {
        Some(x) => Some(eye_override(s, x, final_flag)),
        None => None,
    }
}

/// The eye forced by the third victory pose (see `win_3_blink`); the frame in thousandths.
pub fn handle_win_3_blink(player_state: &PlayerEvolutionState, motion: u64, motion_frame_milli: i32, final_flag: bool)
    -> (r: Option<EyeOverride>)
    ensures
        r == win_3_blink(*player_state, motion, motion_frame_milli, final_flag),
{
    let f = motion_frame_milli;
    let e: Option<ExpressionType> = if motion_named(motion, "win_3") {
        if 1000 <= f && f <= 113000 { Some(ExpressionType::Blink) }
        else if 114000 <= f && f <= 155000 { Some(ExpressionType::Normal) }
        else if f >= 156000 { Some(ExpressionType::HalfBlink) }
        else { None }
    } else if motion_named(motion, "win_3_wait") {
        if 1000 <= f && f <= 52000 { Some(ExpressionType::HalfBlink) }
        else if 53000 <= f && f <= 207000 { Some(ExpressionType::Blink) }
        else if 208000 <= f && f <= 251000 { Some(ExpressionType::Normal) }
        else { None }
    } else {
        None
    };
    match e {
        Some(x) => Some(make_override(player_state, x, final_flag)),
        None => None,
    }
}

/// How the body meshes change this frame.
#[derive(Debug, Clone, Copy, PartialEq, Eq, Structural)]
pub enum BodyUpdate {
    /// Hide every mesh (a rollout).
    HideAll,
    /// Leave the meshes as the shadow ball logic set them.
    Leave,
    /// Hide every body, eye and animation-specific mesh, then show the
    /// stage's body parts (`stage_body_meshes`).
    ShowStage(EvolutionStage),
    /// Hide the evolving meshes; the evolving model is chosen later.
    HideEvolving,
}

/// The body parts a stage shows: Gastly's body; Haunter's body, hands and
/// iris; Gengar's body and iris.
pub open spec fn stage_body(stage: EvolutionStage) -> Seq<Mesh> {
    match stage {
        EvolutionStage::Gastly => seq![Mesh::GastlyBody],
        EvolutionStage::Haunter => seq![Mesh::HaunterBody, Mesh::HaunterHands, Mesh::HaunterIris],
        EvolutionStage::Gengar => seq![Mesh::GengarBody, Mesh::GengarIris],
    }
}

/// The body parts `stage` shows.
pub fn stage_body_meshes(stage: EvolutionStage) -> (v: Vec<Mesh>)
    ensures
        v@ == stage_body(stage),
{
    let mut v: Vec<Mesh> = Vec::new();
    match stage {
        EvolutionStage::Gastly => {
            v.push(Mesh::GastlyBody);
        },
        EvolutionStage::Haunter => {
            v.push(Mesh::HaunterBody);
            v.push(Mesh::HaunterHands);
            v.push(Mesh::HaunterIris);
        },
        EvolutionStage::Gengar => {
            v.push(Mesh::GengarBody);
            v.push(Mesh::GengarIris);
        },
    }
    proof {
        assert(v@ =~= stage_body(stage));
    }
    v
}

pub open spec fn body_update(stage: EvolutionStage, status: i32) -> BodyUpdate {
    if spec_is_in_rollout_status(status) {
        BodyUpdate::HideAll
    } else if status == PURIN_SPECIAL_N_HOLD || status == PURIN_SPECIAL_N_HOLD_MAX {
        BodyUpdate::Leave
    } else {
        BodyUpdate::ShowStage(stage)
    }
}

/// The body of `active_stage`: everything hides in a rollout, a charge is
/// left to the shadow ball logic, otherwise only the stage's body parts show.
pub fn update_body_and_unique_parts_visibility(active_stage: EvolutionStage, status: i32) -> (u: BodyUpdate)
    ensures
        u == body_update(active_stage, status),
{
    if is_in_rollout_status(status) {
        BodyUpdate::HideAll
    } else if status == PURIN_SPECIAL_N_HOLD || status == PURIN_SPECIAL_N_HOLD_MAX {
        BodyUpdate::Leave
    } else {
        BodyUpdate::ShowStage(active_stage)
    }
}

/// The body update of a fighter: while evolving only the evolving meshes
/// hide; otherwise the stage's body update, after which the Gastly body is
/// forced hidden (the `bool`) for a later stage in a final smash.
pub fn update_body_and_unique_parts_visibility_with_enforcement(player_state: &PlayerEvolutionState, status: i32,
    final_flag: bool, motion: u64) -> (r: (BodyUpdate, bool))
    ensures
        player_state.evolution.is_evolving ==> r == (BodyUpdate::HideEvolving, false),
        !player_state.evolution.is_evolving ==> r == (body_update(player_state.stage, status),
            gastly_body_forced_hidden(*player_state, final_flag, motion)),
{
    if player_state.evolution.is_evolving {
        return (BodyUpdate::HideEvolving, false);
    }
    let u = update_body_and_unique_parts_visibility(player_state.stage, status);
    let hide = (player_state.stage == EvolutionStage::Haunter || player_state.stage == EvolutionStage::Gengar)
        && (final_flag || player_state.items.is_in_final_smash_form || final_motion(motion));
    (u, hide)
}

} // verus!
