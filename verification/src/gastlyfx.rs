use vstd::prelude::*;
use crate::hashing::{hash40_of, hash40_str};
use crate::stage::EvolutionStage;
use crate::state::PlayerEvolutionState;
use crate::shadowball::{
    ShadowballInput, frame_threshold, get_shadowball_frame_threshold, PURIN_SPECIAL_N_HOLD,
    PURIN_SPECIAL_N_HOLD_MAX, PURIN_SPECIAL_N_ROLL, PURIN_SPECIAL_N_ROLL_AIR,
};

verus! {

/// The final smash statuses (start, wait, end).
pub const FINAL_STATUS: i32 = 0x1E0;
pub const FINAL_WAIT_STATUS: i32 = 0x1E8;
pub const FINAL_END_STATUS: i32 = 0x1E9;
/// Frames between two final-wait cries.
pub const FINAL_CRY_INTERVAL: i32 = 60;
/// Motion frame of the second down taunt effect.
pub const DOWN_TAUNT_SECOND_FRAME: i32 = 90;

/// What the game reports that decides whether the first-stage aura hides.
#[derive(Debug, Clone, Copy, PartialEq, Eq, Structural)]
pub struct AuraStatus {
    pub status: i32,
    pub motion: u64,
    pub is_rebirth: bool,
    pub is_win_or_lose: bool,
    pub is_entry: bool,
    /// Some attack of the rollout has an active hitbox.
    pub has_active_hitbox: bool,
}

/// Crouching or swimming.
pub open spec fn spec_is_hiding_motion(m: u64) -> bool {
    ||| m == hash40_of("squat_wait"@)
    ||| m == hash40_of("swim_rise"@)
    ||| m == hash40_of("swim_up"@)
    ||| m == hash40_of("swim_up_damage"@)
    ||| m == hash40_of("swim"@)
    ||| m == hash40_of("swim_f"@)
    ||| m == hash40_of("swim_b"@)
    ||| m == hash40_of("swim_end"@)
    ||| m == hash40_of("swim_turn"@)
    ||| m == hash40_of("swim_drown"@)
    ||| m == hash40_of("swim_drown_out"@)
}

/// Whether `m` is a crouching or swimming motion.
pub fn is_hiding_motion(m: u64) -> (r: bool)
    ensures
        r == spec_is_hiding_motion(m),
{
    m == hash40_str("squat_wait") || m == hash40_str("swim_rise") || m == hash40_str("swim_up")
        || m == hash40_str("swim_up_damage") || m == hash40_str("swim") || m == hash40_str("swim_f")
        || m == hash40_str("swim_b") || m == hash40_str("swim_end") || m == hash40_str("swim_turn")
        || m == hash40_str("swim_drown") || m == hash40_str("swim_drown_out")
}

/// The aura hides while crouching or swimming and during a rollout with an
/// active hitbox, never on the respawn platform, in a win or loss pose, an
/// entrance, or the results screen.
pub open spec fn spec_should_suppress_gastly_aura(a: AuraStatus) -> bool {
    let results_motion = a.motion == 0x7fb997a80u64 || a.motion == 0x42af5a458u64;
    if a.is_rebirth || a.is_win_or_lose || a.is_entry || results_motion || (0x190 <= a.status <= 0x1A0) {
        false
    } else if spec_is_hiding_motion(a.motion) {
        true
    } else {
        (a.status == PURIN_SPECIAL_N_ROLL || a.status == PURIN_SPECIAL_N_ROLL_AIR) && a.has_active_hitbox
    }
}

/// Whether the first-stage aura hides this frame.
pub fn should_suppress_gastly_aura(a: AuraStatus) -> (r: bool)
    ensures
        r == spec_should_suppress_gastly_aura(a),
{
    let results_motion = a.motion == 0x7fb997a80u64 || a.motion == 0x42af5a458u64;
    if a.is_rebirth || a.is_win_or_lose || a.is_entry || results_motion || (0x190 <= a.status && a.status <= 0x1A0) {
        return false;
    }
    if is_hiding_motion(a.motion) {
        return true;
    }
    (a.status == PURIN_SPECIAL_N_ROLL || a.status == PURIN_SPECIAL_N_ROLL_AIR) && a.has_active_hitbox
}

/// The colour of the first-stage aura.
#[derive(Debug, Clone, Copy, PartialEq, Eq, Structural)]
pub enum AuraColor {
    /// Bright white while evolving into the second stage.
    EvolutionWhite,
    /// Blue for a shiny costume.
    ShinyBlue,
    /// The usual purple.
    NormalPurple,
}

pub open spec fn aura_color_of(s: PlayerEvolutionState, shiny_costume: bool) -> AuraColor {
    if s.evolution.is_evolving && s.stage == EvolutionStage::Gastly
        && s.evolution.evolution_target_stage == EvolutionStage::Haunter {
        AuraColor::EvolutionWhite
    } else if shiny_costume {
        AuraColor::ShinyBlue
    } else {
        AuraColor::NormalPurple
    }
}

/// The aura colour: white while evolving from the first to the second
/// stage, else blue for a shiny costume, else purple.
pub fn check_and_apply_evolution_aura_rgb(player_state: &PlayerEvolutionState, shiny_costume: bool) -> (c: AuraColor)
    ensures
        c == aura_color_of(*player_state, shiny_costume),
{
    if player_state.evolution.is_evolving && player_state.stage == EvolutionStage::Gastly
        && player_state.evolution.evolution_target_stage == EvolutionStage::Haunter {
        AuraColor::EvolutionWhite
    } else if shiny_costume {
        AuraColor::ShinyBlue
    } else {
        AuraColor::NormalPurple
    }
}

/// What to do with the aura that follows the body.
#[derive(Debug, Clone, Copy, PartialEq, Eq, Structural)]
pub enum BodyAuraAction {
    /// Remove every aura (body and shadow ball).
    CleanupAll,
    /// Hide the body aura if it exists.
    Hide,
    /// Start a new body aura, first clearing the forced-spawn flag if asked.
    Spawn { clear_force_flag: bool },
    /// Show the existing body aura in the colour.
    Show(AuraColor),
}

pub open spec fn body_aura_action(s: PlayerEvolutionState, suppress: bool, body_alive: bool, force_spawn: bool,
    shiny_costume: bool) -> BodyAuraAction
{
    if s.stage != EvolutionStage::Gastly {
        BodyAuraAction::CleanupAll
    } else if suppress {
        BodyAuraAction::Hide
    } else if !body_alive || force_spawn {
        BodyAuraAction::Spawn { clear_force_flag: force_spawn }
    } else {
        BodyAuraAction::Show(aura_color_of(s, shiny_costume))
    }
}

/// The body aura of the first stage: none in other stages; hidden while
/// suppressed; started when missing or forced; else shown in its colour.
pub fn handle_gastly_aura(player_state: &PlayerEvolutionState, suppress: bool, body_alive: bool, force_spawn: bool,
    shiny_costume: bool) -> (a: BodyAuraAction)
    ensures
        a == body_aura_action(*player_state, suppress, body_alive, force_spawn, shiny_costume),
{
    if player_state.stage != EvolutionStage::Gastly {
        BodyAuraAction::CleanupAll
    } else if suppress {
        BodyAuraAction::Hide
    } else if !body_alive || force_spawn {
        BodyAuraAction::Spawn { clear_force_flag: force_spawn }
    } else {
        BodyAuraAction::Show(check_and_apply_evolution_aura_rgb(player_state, shiny_costume))
    }
}

/// What to do with the final smash aura.
#[derive(Debug, Clone, Copy, PartialEq, Eq, Structural)]
pub enum FinalAuraAction {
    /// The final smash started: remove the custom aura.
    KillForFinal,
    /// Remove the game's final smash auras and keep a purple custom aura.
    ReplaceDefault,
    /// Remove the custom aura, if any.
    Drop,
}

pub open spec fn final_aura_of(s: PlayerEvolutionState, status: i32, fs_flag: bool) -> FinalAuraAction {
    if status == FINAL_STATUS {
        FinalAuraAction::KillForFinal
    } else if fs_flag && status != FINAL_WAIT_STATUS && status != FINAL_END_STATUS
        && s.stage == EvolutionStage::Gengar && (s.items.mega_gengar_form_active || s.items.giga_gengar_form_active) {
        FinalAuraAction::ReplaceDefault
    } else {
        FinalAuraAction::Drop
    }
}

/// The final smash aura: a third-stage fighter holding a smash ball with a
/// mega or giga form chosen shows a purple aura in place of the game's,
/// until the final smash starts.
pub fn final_aura_action(player_state: &PlayerEvolutionState, status: i32, fs_flag: bool) -> (a: FinalAuraAction)
    ensures
        a == final_aura_of(*player_state, status, fs_flag),
{
    if status == FINAL_STATUS {
        FinalAuraAction::KillForFinal
    } else if fs_flag && status != FINAL_WAIT_STATUS && status != FINAL_END_STATUS
        && player_state.stage == EvolutionStage::Gengar
        && (player_state.items.mega_gengar_form_active || player_state.items.giga_gengar_form_active) {
        FinalAuraAction::ReplaceDefault
    } else {
        FinalAuraAction::Drop
    }
}

/// Which aura the first stage wears.
#[derive(Debug, Clone, Copy, PartialEq, Eq, Structural)]
pub enum AuraMode {
    /// On the shadow ball bone (the body aura goes), in the colour.
    ShadowballBone(AuraColor),
    /// On the body (the shadow ball aura goes).
    Body,
    /// No aura at all (later stages).
    Cleanup,
}

/// A charge has gone on long enough for the shadow ball to show.
pub open spec fn shadowball_mesh_visible(s: PlayerEvolutionState, inp: ShadowballInput) -> bool {
    let thr = frame_threshold(inp.motion);
    (inp.status == PURIN_SPECIAL_N_HOLD || inp.status == PURIN_SPECIAL_N_HOLD_MAX)
        && (s.shadowball.shadowball_status_frames > thr || inp.charge_count_milli > thr * 1000
            || inp.hold_frames > thr || inp.is_max_charge)
}

pub open spec fn aura_mode_of(s: PlayerEvolutionState, inp: ShadowballInput, shiny_costume: bool) -> AuraMode {
    if s.stage != EvolutionStage::Gastly {
        AuraMode::Cleanup
    } else if shadowball_mesh_visible(s, inp) {
        AuraMode::ShadowballBone(aura_color_of(s, shiny_costume))
    } else {
        AuraMode::Body
    }
}

/// Which aura the fighter wears this frame.
pub fn aura_mode(player_state: &PlayerEvolutionState, inp: ShadowballInput, shiny_costume: bool) -> (m: AuraMode)
    ensures
        m == aura_mode_of(*player_state, inp, shiny_costume),
{
    if player_state.stage != EvolutionStage::Gastly {
        return AuraMode::Cleanup;
    }
    let hold = inp.status == PURIN_SPECIAL_N_HOLD || inp.status == PURIN_SPECIAL_N_HOLD_MAX;
    let thr = get_shadowball_frame_threshold(inp.motion);
    let visible = hold && (player_state.shadowball.shadowball_status_frames > thr
        || inp.charge_count_milli as i64 > thr as i64 * 1000 || inp.hold_frames > thr || inp.is_max_charge);
    if visible {
        AuraMode::ShadowballBone(check_and_apply_evolution_aura_rgb(player_state, shiny_costume))
    } else {
        AuraMode::Body
    }
}

/// Whether the fighter died recently (effects wait for a calm status).
#[derive(Debug, Clone, Copy, PartialEq, Eq, Structural)]
pub struct DeathPause {
    pub recent_death: bool,
}

/// The effect pause: effects stop (remembering the death) while dead or
/// respawning; after a death they wait for a calm status (wait, walk, dash, run)
/// to run again.
pub open spec fn pause_step(g: DeathPause, dead_or_rebirth: bool, calm: bool) -> (DeathPause, bool) {
    if dead_or_rebirth {
        (DeathPause { recent_death: true }, false)
    } else if g.recent_death {
        if calm { (DeathPause { recent_death: false }, true) } else { (g, false) }
    } else {
        (g, true)
    }
}

/// What the effects do this frame, when they run.
#[derive(Debug, Clone, Copy, PartialEq, Eq, Structural)]
pub struct GastlyEffectsPlan {
    pub final_aura: FinalAuraAction,
    pub aura: AuraMode,
}

/// What the game reports that the effects of a frame follow.
#[derive(Debug, Clone, Copy, PartialEq, Eq, Structural)]
pub struct GastlyFxInput {
    pub shadowball: ShadowballInput,
    pub dead_or_rebirth: bool,
    /// Waiting, walking, dashing or running.
    pub calm: bool,
    pub fs_flag: bool,
    pub shiny_costume: bool,
}

/// The effects of one frame for a marked costume: `None` (nothing to do)
/// for another costume or while effects pause; else the final smash aura
/// and the aura mode. The evolution, down taunt, charge and shadow ball
/// effects follow it.
pub fn handle_gastly_effects(player_state: &PlayerEvolutionState, pause: &mut DeathPause, marked: bool,
    inp: GastlyFxInput) -> (plan: Option<GastlyEffectsPlan>)
    ensures
        !marked ==> plan.is_none() && *final(pause) == *old(pause),
        marked ==> ({
            let (g, open) = pause_step(*old(pause), inp.dead_or_rebirth, inp.calm);
            &&& *final(pause) == g
            &&& open == plan.is_some()
            &&& open ==> plan.unwrap() == (GastlyEffectsPlan {
                    final_aura: final_aura_of(*player_state, inp.shadowball.status, inp.fs_flag),
                    aura: aura_mode_of(*player_state, inp.shadowball, inp.shiny_costume),
                })
        }),
{
    if !marked {
        return None;
    }
    if inp.dead_or_rebirth {
        pause.recent_death = true;
        return None;
    }
    if pause.recent_death {
        if inp.calm {
            pause.recent_death = false;
        } else {
            return None;
        }
    }
    let final_aura = final_aura_action(player_state, inp.shadowball.status, inp.fs_flag);
    let aura = aura_mode(player_state, inp.shadowball, inp.shiny_costume);
    Some(GastlyEffectsPlan { final_aura, aura })
}

/// What the down taunt effects remember between frames.
#[derive(Debug, Clone, Copy, PartialEq, Eq, Structural)]
pub struct DownTauntFxTracker {
    pub last_motion: u64,
    pub first_spawned: bool,
    pub second_spawned: bool,
}

impl DownTauntFxTracker {
    /// Nothing shown yet.
    pub fn new() -> (t: Self)
        ensures
            t == (DownTauntFxTracker { last_motion: 0, first_spawned: false, second_spawned: false }),
    {
        DownTauntFxTracker { last_motion: 0, first_spawned: false, second_spawned: false }
    }
}

pub open spec fn spec_is_down_taunt_motion(m: u64) -> bool {
    m == hash40_of("appeal_lw_l"@) || m == hash40_of("appeal_lw_r"@)
}

/// The down taunt effects: a new down taunt motion forgets what was shown;
/// from motion frame 1 and from frame 90 a bat effect starts once each
/// (the two `bool`s ask for them; `record_down_taunt_spawn` notes success);
/// outside a down taunt everything is forgotten.
pub open spec fn down_taunt_step(t: DownTauntFxTracker, motion: u64, motion_frame: i32) -> (DownTauntFxTracker, bool, bool) {
    if spec_is_down_taunt_motion(motion) {
        let t1 = if t.last_motion != motion {
            DownTauntFxTracker { last_motion: motion, first_spawned: false, second_spawned: false }
        } else {
            t
        };
        (t1, motion_frame >= 1 && !t1.first_spawned, motion_frame >= DOWN_TAUNT_SECOND_FRAME && !t1.second_spawned)
    } else if t.last_motion != 0 {
        (DownTauntFxTracker { last_motion: 0, first_spawned: false, second_spawned: false }, false, false)
    } else {
        (t, false, false)
    }
}

/// One frame of down taunt effects; returns which of the two effects to start.
pub fn handle_down_taunt_effects(tracker: &mut DownTauntFxTracker, motion: u64, motion_frame: i32) -> (r: (bool, bool))
    ensures
        (*final(tracker), r.0, r.1) == down_taunt_step(*old(tracker), motion, motion_frame),
{
    let taunt = motion == hash40_str("appeal_lw_l") || motion == hash40_str("appeal_lw_r");
    if taunt {
        if tracker.last_motion != motion {
            tracker.first_spawned = false;
            tracker.second_spawned = false;
            tracker.last_motion = motion;
        }
        (motion_frame >= 1 && !tracker.first_spawned, motion_frame >= DOWN_TAUNT_SECOND_FRAME && !tracker.second_spawned)
    } else {
        if tracker.last_motion != 0 {
            tracker.first_spawned = false;
            tracker.second_spawned = false;
            tracker.last_motion = 0;
        }
        (false, false)
    }
}

/// Notes that a down taunt effect (the second one if `second`) started,
/// when `ok`.
pub fn record_down_taunt_spawn(tracker: &mut DownTauntFxTracker, second: bool, ok: bool)
    ensures
        *final(tracker) == (if !ok { *old(tracker) } else if second {
            DownTauntFxTracker { second_spawned: true, ..*old(tracker) }
        } else {
            DownTauntFxTracker { first_spawned: true, ..*old(tracker) }
        }),
{
    if ok {
        if second {
            tracker.second_spawned = true;
        } else {
            tracker.first_spawned = true;
        }
    }
}

/// What the full-charge effect remembers between frames.
#[derive(Debug, Clone, Copy, PartialEq, Eq, Structural)]
pub struct ChargeMaxFxTracker {
    pub last_status: i32,
    pub spawned: bool,
}

impl ChargeMaxFxTracker {
    /// Nothing shown yet.
    pub fn new() -> (t: Self)
        ensures
            t == (ChargeMaxFxTracker { last_status: -1i32, spawned: false }),
    {
        ChargeMaxFxTracker { last_status: -1, spawned: false }
    }
}

/// The full-charge light: entering full charge forgets it, and it starts
/// (the `bool`; `record_charge_max_spawn` notes success) while not yet
/// shown; outside full charge it is forgotten.
pub open spec fn charge_max_step(t: ChargeMaxFxTracker, status: i32) -> (ChargeMaxFxTracker, bool) {
    if status == PURIN_SPECIAL_N_HOLD_MAX {
        let t1 = if t.last_status != status { ChargeMaxFxTracker { last_status: status, spawned: false } } else { t };
        (t1, !t1.spawned)
    } else if t.last_status != -1 {
        (ChargeMaxFxTracker { last_status: -1i32, spawned: false }, false)
    } else {
        (t, false)
    }
}

/// One frame of the full-charge light; returns whether to start it.
pub fn handle_special_n_charge_max_effects(tracker: &mut ChargeMaxFxTracker, status: i32) -> (spawn: bool)
    ensures
        (*final(tracker), spawn) == charge_max_step(*old(tracker), status),
{
    if status == PURIN_SPECIAL_N_HOLD_MAX {
        if tracker.last_status != status {
            tracker.spawned = false;
            tracker.last_status = status;
        }
        !tracker.spawned
    } else {
        if tracker.last_status != -1 {
            tracker.spawned = false;
            tracker.last_status = -1;
        }
        false
    }
}

/// Notes that the full-charge light started, when `ok`.
pub fn record_charge_max_spawn(tracker: &mut ChargeMaxFxTracker, ok: bool)
    ensures
        *final(tracker) == (if ok { ChargeMaxFxTracker { spawned: true, ..*old(tracker) } } else { *old(tracker) }),
{
    if ok {
        tracker.spawned = true;
    }
}

/// One final smash effect operation.
#[derive(Debug, Clone, Copy, PartialEq, Eq, Structural)]
pub enum FinalSmashFx {
    /// The mega symbol above the fighter.
    MegaSymbol,
    /// Try to start the final-wait cry (`record_final_cry` notes success).
    FinalCry,
    KillFinalCry,
    /// The vanishing burst of a mega or giga form at the end.
    Disappear,
}

/// What the final smash effects remember between frames.
#[derive(Debug, Clone, Copy, PartialEq, Eq, Structural)]
pub struct FinalSmashFxTracker {
    pub last_fs_flag: bool,
    pub last_mega_mode: bool,
    pub last_fs_status: i32,
    pub last_cry_spawn: i32,
}

impl FinalSmashFxTracker {
    /// Nothing seen yet.
    pub fn new() -> (t: Self)
        ensures
            t == (FinalSmashFxTracker { last_fs_flag: false, last_mega_mode: false, last_fs_status: -1i32, last_cry_spawn: -60i32 }),
    {
        FinalSmashFxTracker { last_fs_flag: false, last_mega_mode: false, last_fs_status: -1, last_cry_spawn: -60 }
    }
}

pub open spec fn ffx(b: bool, s: Seq<FinalSmashFx>) -> Seq<FinalSmashFx> {
    if b { s } else { Seq::<FinalSmashFx>::empty() }
}

/// The final smash effects: a third-stage fighter in mega form shows the
/// mega symbol when the smash ball or the mega form arrives while the other
/// is there; with the smash ball, the final wait tries the cry every 60
/// frames, the final end removes it and (on entering) shows the vanishing
/// burst of a mega or giga form, and any other non-final status removes
/// the cry.
pub open spec fn final_smash_fx(s: PlayerEvolutionState, t: FinalSmashFxTracker, status: i32, fs_flag: bool, frame: i32)
    -> (FinalSmashFxTracker, Seq<FinalSmashFx>)
{
    let gained = !t.last_fs_flag && fs_flag;
    let mega = s.items.mega_gengar_form_active;
    let mega_new = !t.last_mega_mode && mega;
    let changed = t.last_fs_status != status;
    let symbol = s.stage == EvolutionStage::Gengar && fs_flag && mega && (gained || mega_new);
    let form = s.stage == EvolutionStage::Gengar && (mega || s.items.giga_gengar_form_active);
    let cry = fs_flag && status == FINAL_WAIT_STATUS && frame - t.last_cry_spawn >= FINAL_CRY_INTERVAL;
    let end_kill = fs_flag && status == FINAL_END_STATUS && changed;
    let other_kill = fs_flag && status != FINAL_STATUS && status != FINAL_WAIT_STATUS && status != FINAL_END_STATUS;
    (FinalSmashFxTracker { last_fs_flag: fs_flag, last_mega_mode: mega, last_fs_status: status, ..t },
        ffx(symbol, seq![FinalSmashFx::MegaSymbol]) + ffx(cry, seq![FinalSmashFx::FinalCry])
        + ffx(end_kill, seq![FinalSmashFx::KillFinalCry]) + ffx(end_kill && form, seq![FinalSmashFx::Disappear])
        + ffx(other_kill, seq![FinalSmashFx::KillFinalCry]))
}

/// One frame of final smash effects.
pub fn handle_final_smash_special_effects(player_state: &PlayerEvolutionState, tracker: &mut FinalSmashFxTracker,
    status: i32, fs_flag: bool) -> (effects: Vec<FinalSmashFx>)
    ensures
        (*final(tracker), effects@) == final_smash_fx(*player_state, *old(tracker), status, fs_flag, player_state.current_frame),
{
    let t = *tracker;
    let frame = player_state.current_frame;
    let gained = !t.last_fs_flag && fs_flag;
    let mega = player_state.items.mega_gengar_form_active;
    let mega_new = !t.last_mega_mode && mega;
    let changed = t.last_fs_status != status;
    let gengar = player_state.stage == EvolutionStage::Gengar;
    let form = gengar && (mega || player_state.items.giga_gengar_form_active);
    let mut out: Vec<FinalSmashFx> = Vec::new();
    if gengar && fs_flag && mega && (gained || mega_new) {
        out.push(FinalSmashFx::MegaSymbol);
    }
    if fs_flag {
        if status == FINAL_WAIT_STATUS {
            if (frame as i64) - (t.last_cry_spawn as i64) >= FINAL_CRY_INTERVAL as i64 {
                out.push(FinalSmashFx::FinalCry);
            }
        } else if status == FINAL_END_STATUS {
            if changed {
                out.push(FinalSmashFx::KillFinalCry);
                if form {
                    out.push(FinalSmashFx::Disappear);
                }
            }
        } else if status != FINAL_STATUS {
            out.push(FinalSmashFx::KillFinalCry);
        }
    }
    tracker.last_fs_flag = fs_flag;
    tracker.last_mega_mode = mega;
    tracker.last_fs_status = status;
    proof {
        assert(out@ =~= final_smash_fx(*player_state, t, status, fs_flag, frame).1);
    }
    out
}

/// Notes that the final-wait cry started on `frame`, when `ok`.
pub fn record_final_cry(tracker: &mut FinalSmashFxTracker, frame: i32, ok: bool)
    ensures
        *final(tracker) == (if ok { FinalSmashFxTracker { last_cry_spawn: frame, ..*old(tracker) } } else { *old(tracker) }),
{
    if ok {
        tracker.last_cry_spawn = frame;
    }
}

/// What the aura kept up on the respawn platform and the results screen
/// remembers.
#[derive(Debug, Clone, Copy, PartialEq, Eq, Structural)]
pub struct SpecialAuraTracker {
    pub spawned: bool,
    pub last_status: i32,
    pub last_motion: u64,
}

impl SpecialAuraTracker {
    /// Nothing shown yet.
    pub fn new() -> (t: Self)
        ensures
            t == (SpecialAuraTracker { spawned: false, last_status: -1i32, last_motion: 0 }),
    {
        SpecialAuraTracker { spawned: false, last_status: -1, last_motion: 0 }
    }
}

/// What the game reports that decides the special aura.
#[derive(Debug, Clone, Copy, PartialEq, Eq, Structural)]
pub struct SpecialAuraInput {
    pub status: i32,
    pub motion: u64,
    pub is_rebirth: bool,
    pub is_win_or_lose: bool,
    pub is_entry: bool,
}

/// What to do with the special aura.
#[derive(Debug, Clone, Copy, PartialEq, Eq, Structural)]
pub enum SpecialAuraAction {
    /// Not the first stage: nothing.
    Nothing,
    /// Keep the special aura shown; when `respawn`, replace every aura by a
    /// new special one (`record_special_aura` notes success).
    Maintain { respawn: bool },
    /// Outside those moments: give the aura back to the usual logic.
    Release,
}

pub open spec fn spec_is_result_motion(m: u64) -> bool {
    m == 0x7fb997a80u64 || m == hash40_of("result"@) || m == hash40_of("result_normal"@) || m == hash40_of("result_pose"@)
}

/// The moments the first stage keeps its aura regardless: the respawn
/// platform, a win or loss pose, an entrance, the result statuses, or a
/// result animation (not the no-contest one).
pub open spec fn needs_special_aura(inp: SpecialAuraInput) -> bool {
    let forced = inp.is_rebirth || inp.is_win_or_lose || inp.is_entry || (0x190 <= inp.status <= 0x1A0)
        || (0x1D9 <= inp.status <= 0x1DC);
    forced || (spec_is_result_motion(inp.motion) && inp.motion != 0x42af5a458u64)
}

pub open spec fn special_aura_step(t: SpecialAuraTracker, stage: EvolutionStage, inp: SpecialAuraInput)
    -> (SpecialAuraTracker, SpecialAuraAction)
{
    if stage != EvolutionStage::Gastly {
        (t, SpecialAuraAction::Nothing)
    } else if needs_special_aura(inp) {
        let t1 = if t.last_status != inp.status || t.last_motion != inp.motion {
            SpecialAuraTracker { spawned: false, last_status: inp.status, last_motion: inp.motion }
        } else {
            t
        };
        (t1, SpecialAuraAction::Maintain { respawn: !t1.spawned })
    } else {
        (t, SpecialAuraAction::Release)
    }
}

/// The special aura of the first stage this frame (see `special_aura_step`):
/// a new status or animation asks for a fresh aura.
pub fn handle_special_aura(tracker: &mut SpecialAuraTracker, stage: EvolutionStage, inp: SpecialAuraInput)
    -> (a: SpecialAuraAction)
    ensures
        (*final(tracker), a) == special_aura_step(*old(tracker), stage, inp),
{
    if stage != EvolutionStage::Gastly {
        return SpecialAuraAction::Nothing;
    }
    let forced = inp.is_rebirth || inp.is_win_or_lose || inp.is_entry || (0x190 <= inp.status && inp.status <= 0x1A0)
        || (0x1D9 <= inp.status && inp.status <= 0x1DC);
    let m = inp.motion;
    let result_motion = m == 0x7fb997a80u64 || m == hash40_str("result") || m == hash40_str("result_normal")
        || m == hash40_str("result_pose");
    if forced || (result_motion && m != 0x42af5a458u64) {
        if tracker.last_status != inp.status || tracker.last_motion != inp.motion {
            tracker.spawned = false;
            tracker.last_status = inp.status;
            tracker.last_motion = inp.motion;
        }
        SpecialAuraAction::Maintain { respawn: !tracker.spawned }
    } else {
        SpecialAuraAction::Release
    }
}

/// Notes that the special aura started, when `ok`.
pub fn record_special_aura(tracker: &mut SpecialAuraTracker, ok: bool)
    ensures
        *final(tracker) == (if ok { SpecialAuraTracker { spawned: true, ..*old(tracker) } } else { *old(tracker) }),
{
    if ok {
        tracker.spawned = true;
    }
}

} // verus!
