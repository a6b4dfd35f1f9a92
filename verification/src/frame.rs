use vstd::prelude::*;
use crate::stage::{EvolutionStage, BlinkPhase, ExpressionType, Mesh};
use crate::state::{PlayerEvolutionState, EvolutionProgress, ReadinessIcons, ExpressionTracking, InputTracking, ItemState};
use crate::model::{motion_is, base_eye};
use crate::hashing::hash40_str;
use crate::tracking::ZERO_DAMAGE;
use crate::evolution::evolution_cancelled;

verus! {

/// What the frame bookkeeping remembers about one fighter.
#[derive(Debug, Clone, Copy, PartialEq, Eq, Structural)]
pub struct HitResetTracker {
    pub last_training_damage: i32,
    pub last_hit_reset_frame: i32,
}

impl HitResetTracker {
    pub open spec fn initial() -> Self {
        HitResetTracker { last_training_damage: 0, last_hit_reset_frame: 0 }
    }

    /// Nothing seen yet.
    pub fn new() -> (t: Self)
        ensures
            t == Self::initial(),
    {
        HitResetTracker { last_training_damage: 0, last_hit_reset_frame: 0 }
    }
}

/// The stage's damage after seeing total damage `damage` (thousandths of a
/// percent): an increase since the baseline counts toward the stage; a drop
/// below half the baseline (a training reset) starts the count over.
pub open spec fn damage_counted(p: EvolutionProgress, damage: i32) -> EvolutionProgress {
    if damage - p.previous_total_damage > 0 {
        EvolutionProgress {
            damage_received_this_stage: (p.damage_received_this_stage + (damage - p.previous_total_damage)) as i32,
            previous_total_damage: damage,
            ..p
        }
    } else if 2 * damage < p.previous_total_damage {
        EvolutionProgress { damage_received_this_stage: 0, previous_total_damage: damage, ..p }
    } else {
        p
    }
}

/// The state and tracker after the bookkeeping at the start of a frame.
pub open spec fn frame_begun(s: PlayerEvolutionState, t: HitResetTracker, is_new_state: bool, entry_id: u32, damage: i32)
    -> (PlayerEvolutionState, HitResetTracker)
{
    let s0 = if is_new_state {
        PlayerEvolutionState { expression: ExpressionTracking { vanilla_expression_tracking: true, ..s.expression }, ..s }
    } else {
        s
    };
    let frame = (s0.current_frame + 1) as i32;
    let s1 = PlayerEvolutionState {
        current_frame: frame,
        inputs: InputTracking {
            manual_linking_cord_evo_attempted_this_frame: false,
            linking_cord_consumed_everstone_this_frame: false,
            ..s0.inputs
        },
        ..s0
    };
    if entry_id < 8 {
        let p1 = if !s1.evolution.is_evolving { damage_counted(s1.progress, damage) } else { s1.progress };
        let t1 = HitResetTracker { last_training_damage: damage, ..t };
        let damage_reset = damage <= 1000 && t1.last_training_damage > 5000;
        let frame_reset = frame < t1.last_hit_reset_frame - 50;
        let reset = (damage_reset || frame_reset) && p1.hits_landed_this_stage > 0;
        let p2 = if reset { EvolutionProgress { hits_landed_this_stage: 0, ..p1 } } else { p1 };
        let t2 = if reset { HitResetTracker { last_hit_reset_frame: frame, ..t1 } } else { t1 };
        (PlayerEvolutionState { progress: EvolutionProgress { previous_total_damage: damage, ..p2 }, ..s1 }, t2)
    } else {
        (PlayerEvolutionState { progress: EvolutionProgress { previous_total_damage: damage, ..s1.progress }, ..s1 }, t)
    }
}

/// The bookkeeping at the start of a fighter's frame (see `frame_begun`):
/// counts the frame, clears the per-frame input flags, counts new damage
/// toward the stage (outside an evolution), forgets landed hits when the
/// frame counter jumps back, and takes `current_total_damage` as the new
/// damage baseline.
#[verifier::spinoff_prover]
#[verifier::rlimit(30)]
pub fn begin_frame(
    player_state: &mut PlayerEvolutionState,
    tracker: &mut HitResetTracker,
    is_new_state: bool,
    entry_id: u32,
    current_total_damage: i32,
)
    requires
        old(player_state).current_frame < i32::MAX,
        0 <= current_total_damage <= 1_000_000,
        0 <= old(player_state).progress.previous_total_damage <= 1_000_000,
        0 <= old(player_state).progress.damage_received_this_stage <= i32::MAX - 1_000_000,
    ensures
        (*final(player_state), *final(tracker)) == frame_begun(*old(player_state), *old(tracker), is_new_state, entry_id, current_total_damage),
{
    if is_new_state {
        player_state.set_vanilla_expression_tracking(true);
    }
    player_state.current_frame = player_state.current_frame + 1;
    player_state.inputs.manual_linking_cord_evo_attempted_this_frame = false;
    player_state.inputs.linking_cord_consumed_everstone_this_frame = false;
    let damage = current_total_damage;
    if entry_id < 8 {
        if !player_state.evolution.is_evolving {
            let delta = damage - player_state.progress.previous_total_damage;
            if delta > 0 {
                player_state.progress.damage_received_this_stage = player_state.progress.damage_received_this_stage + delta;
                player_state.progress.previous_total_damage = damage;
            } else if 2 * (damage as i64) < player_state.progress.previous_total_damage as i64 {
                player_state.progress.damage_received_this_stage = 0;
                player_state.progress.previous_total_damage = damage;
            }
        }
        tracker.last_training_damage = damage;
        let frame = player_state.current_frame;
        let damage_reset = damage <= 1000 && tracker.last_training_damage > 5000;
        let frame_reset = (frame as i64) < tracker.last_hit_reset_frame as i64 - 50;
        if (damage_reset || frame_reset) && player_state.progress.hits_landed_this_stage > 0 {
            player_state.progress.hits_landed_this_stage = 0;
            tracker.last_hit_reset_frame = frame;
        }
    }
    player_state.progress.previous_total_damage = damage;
}

/// Law: outside an evolution and without a large drop, a frame adds to the
/// stage's damage exactly the increase over the baseline, and the baseline
/// becomes the current damage.
pub proof fn lemma_damage_accumulates(s: PlayerEvolutionState, t: HitResetTracker, entry_id: u32, damage: i32)
    requires
        entry_id < 8,
        !s.evolution.is_evolving,
        0 <= s.progress.previous_total_damage <= damage,
        0 <= s.progress.damage_received_this_stage + (damage - s.progress.previous_total_damage) <= i32::MAX,
    ensures
        frame_begun(s, t, false, entry_id, damage).0.progress.damage_received_this_stage
            == s.progress.damage_received_this_stage + (damage - s.progress.previous_total_damage),
        frame_begun(s, t, false, entry_id, damage).0.progress.previous_total_damage == damage,
{
}

/// What the match-start detection remembers about one fighter.
#[derive(Debug, Clone, Copy, PartialEq, Eq, Structural)]
pub struct MatchResetTracker {
    pub last_reset_damage: i32,
    pub last_reset_frame: i32,
}

impl MatchResetTracker {
    pub open spec fn initial() -> Self {
        MatchResetTracker { last_reset_damage: -1000i32, last_reset_frame: -1i32 }
    }

    /// Nothing seen yet.
    pub fn new() -> (t: Self)
        ensures
            t == Self::initial(),
    {
        MatchResetTracker { last_reset_damage: -1000, last_reset_frame: -1 }
    }
}

/// A new match or training session starts: on standby, entering or
/// respawning; status 0 early in the session with damage reset or freshly
/// set; the frame counter back under 60 after 300; or damage back to none
/// from over 20%.
pub open spec fn match_starts(t: MatchResetTracker, status_resets: bool, status_is_zero: bool, frame: i32, damage: i32) -> bool {
    status_resets
        || (status_is_zero && frame < 100
            && ((damage <= ZERO_DAMAGE && t.last_reset_damage > 10000) || (damage >= 30000 && t.last_reset_damage <= 5000)))
        || (frame < 60 && t.last_reset_frame > 300)
        || (damage <= ZERO_DAMAGE && t.last_reset_damage > 20000)
}

/// The state after a match start: no evolution running and no progress,
/// penalties or readiness icons; the current damage is the baseline.
pub open spec fn match_reset_state(s: PlayerEvolutionState, damage: i32) -> PlayerEvolutionState {
    let s1 = if s.evolution.is_evolving {
        PlayerEvolutionState {
            evolution: crate::state::EvolutionRun { is_evolving: false, linking_cord_active: false, evolution_timer: 0, ..s.evolution },
            icons: crate::state::ItemIcons {
                linking_cord_evo_attempt_icon_timer: 0,
                linking_cord_evo_attempt_icon_is_pos_sensitive: false,
                ..s.icons
            },
            ..s
        }
    } else {
        s
    };
    PlayerEvolutionState {
        progress: EvolutionProgress {
            damage_received_this_stage: 0,
            hits_landed_this_stage: 0,
            evo_attempt_delay_damage_taken_penalty: 0,
            evo_attempt_delay_hits_penalty: 0,
            previous_total_damage: damage,
            last_evolution_confirmation_frame: -1i32,
        },
        readiness: ReadinessIcons::cleared(),
        ..s1
    }
}

/// Detects a match start for entries 0 to 7 (see `match_starts`) and wipes
/// the evolution progress (see `match_reset_state`); returns whether it did.
/// `status_resets`: standby, entry or respawn; `status_is_zero`: status 0.
pub fn reset_evolution_progress_on_match_start(
    player_state: &mut PlayerEvolutionState,
    tracker: &mut MatchResetTracker,
    entry_id: u32,
    status_resets: bool,
    status_is_zero: bool,
    current_damage: i32,
) -> (reset: bool)
    ensures
        entry_id >= 8 ==> !reset && *final(player_state) == *old(player_state) && *final(tracker) == *old(tracker),
        entry_id < 8 ==> reset == match_starts(*old(tracker), status_resets, status_is_zero, old(player_state).current_frame, current_damage)
            && *final(player_state) == if reset { match_reset_state(*old(player_state), current_damage) } else { *old(player_state) }
            && *final(tracker) == (MatchResetTracker { last_reset_damage: current_damage, last_reset_frame: old(player_state).current_frame }),
{
    if entry_id >= 8 {
        return false;
    }
    let frame = player_state.current_frame;
    let damage = current_damage;
    let reset = status_resets
        || (status_is_zero && frame < 100
            && ((damage <= ZERO_DAMAGE && tracker.last_reset_damage > 10000) || (damage >= 30000 && tracker.last_reset_damage <= 5000)))
        || (frame < 60 && tracker.last_reset_frame > 300)
        || (damage <= ZERO_DAMAGE && tracker.last_reset_damage > 20000);
    if reset {
        if player_state.evolution.is_evolving {
            player_state.evolution.is_evolving = false;
            player_state.evolution.linking_cord_active = false;
            player_state.evolution.evolution_timer = 0;
            player_state.icons.linking_cord_evo_attempt_icon_timer = 0;
            player_state.icons.linking_cord_evo_attempt_icon_is_pos_sensitive = false;
        }
        player_state.progress.damage_received_this_stage = 0;
        player_state.progress.hits_landed_this_stage = 0;
        player_state.progress.evo_attempt_delay_damage_taken_penalty = 0;
        player_state.progress.evo_attempt_delay_hits_penalty = 0;
        player_state.progress.previous_total_damage = damage;
        player_state.reset_evo_readiness_icons();
        player_state.progress.last_evolution_confirmation_frame = -1;
    }
    tracker.last_reset_damage = damage;
    tracker.last_reset_frame = frame;
    reset
}

/// The match start check (see `reset_evolution_progress_on_match_start`)
/// followed, when it stopped a running evolution, by that evolution's
/// cancellation, whose penalty then counts from the wiped progress. Returns
/// whether the progress was wiped and whether an evolution was cancelled.
pub fn reset_on_match_start_cancelling_evolution(
    player_state: &mut PlayerEvolutionState,
    tracker: &mut MatchResetTracker,
    entry_id: u32,
    status_resets: bool,
    status_is_zero: bool,
    current_damage: i32,
) -> (r: (bool, bool))
    ensures
        r.1 == (r.0 && old(player_state).evolution.is_evolving),
        r.0 == (entry_id < 8 && match_starts(*old(tracker), status_resets, status_is_zero, old(player_state).current_frame,
            current_damage)),
        *final(player_state) == if r.0 {
            let m = match_reset_state(*old(player_state), current_damage);
            if old(player_state).evolution.is_evolving { evolution_cancelled(m) } else { m }
        } else {
            *old(player_state)
        },
        *final(tracker) == if entry_id < 8 {
            MatchResetTracker { last_reset_damage: current_damage, last_reset_frame: old(player_state).current_frame }
        } else {
            *old(tracker)
        },
{
    let was_evolving = player_state.evolution.is_evolving;
    let reset = reset_evolution_progress_on_match_start(player_state, tracker, entry_id, status_resets, status_is_zero,
        current_damage);
    let cancelled = was_evolving && !player_state.evolution.is_evolving;
    if cancelled {
        player_state.cancel_evolution();
    }
    (reset, cancelled)
}

/// What the Pokémon Center jingle remembers about one fighter.
#[derive(Debug, Clone, Copy, PartialEq, Eq, Structural)]
pub struct PokecenterTracker {
    pub highest_damage: i32,
    pub played: bool,
    pub last_status_rebirth: bool,
    pub reset_delay_timer: i32,
}

impl PokecenterTracker {
    pub open spec fn initial() -> Self {
        PokecenterTracker { highest_damage: 0, played: false, last_status_rebirth: false, reset_delay_timer: 0 }
    }

    /// Nothing seen yet.
    pub fn new() -> (t: Self)
        ensures
            t == Self::initial(),
    {
        PokecenterTracker { highest_damage: 0, played: false, last_status_rebirth: false, reset_delay_timer: 0 }
    }
}

/// The jingle's tracker after a frame, whether the match tracking resets,
/// and whether the jingle plays: on standby, entry or at no damage (off the
/// respawn platform) everything starts over; the highest damage is kept;
/// 300 frames at (nearly) no damage after a jingle from 100% allow another
/// (frames counted across such spells); stepping onto the respawn platform after reaching 100% plays it
/// once.
pub open spec fn pokecenter_step(t: PokecenterTracker, standby_or_entry: bool, is_rebirth: bool, damage: i32)
    -> (PokecenterTracker, bool, bool)
{
    let reset = standby_or_entry || (damage <= ZERO_DAMAGE && !is_rebirth);
    let t1 = if reset { PokecenterTracker { highest_damage: 0, played: false, last_status_rebirth: false, ..t } } else { t };
    let t2 = if damage > t1.highest_damage { PokecenterTracker { highest_damage: damage, ..t1 } } else { t1 };
    let t3 = if damage <= 5000 && t2.highest_damage >= 100000 && t2.played {
        let n = (t2.reset_delay_timer + 1) as i32;
        if n >= 300 { PokecenterTracker { played: false, reset_delay_timer: 0, ..t2 } } else { PokecenterTracker { reset_delay_timer: n, ..t2 } }
    } else {
        t2
    };
    let play = is_rebirth && !t3.last_status_rebirth && t3.highest_damage >= 100000 && !t3.played;
    (PokecenterTracker { played: t3.played || play, last_status_rebirth: is_rebirth, ..t3 }, reset, play)
}

/// One frame of the Pokémon Center jingle (see `pokecenter_step`); returns
/// whether the match tracking resets and whether the jingle plays.
pub fn handle_pokecenter(t: &mut PokecenterTracker, standby_or_entry: bool, is_rebirth: bool, damage: i32) -> (r: (bool, bool))
    requires
        old(t).reset_delay_timer < i32::MAX,
    ensures
        (*final(t), r.0, r.1) == pokecenter_step(*old(t), standby_or_entry, is_rebirth, damage),
{
    let reset = standby_or_entry || (damage <= ZERO_DAMAGE && !is_rebirth);
    if reset {
        t.highest_damage = 0;
        t.played = false;
        t.last_status_rebirth = false;
    }
    if damage > t.highest_damage {
        t.highest_damage = damage;
    }
    if damage <= 5000 && t.highest_damage >= 100000 && t.played {
        t.reset_delay_timer = t.reset_delay_timer + 1;
        if t.reset_delay_timer >= 300 {
            t.played = false;
            t.reset_delay_timer = 0;
        }
    }
    let play = is_rebirth && !t.last_status_rebirth && t.highest_damage >= 100000 && !t.played;
    if play {
        t.played = true;
    }
    t.last_status_rebirth = is_rebirth;
    (reset, play)
}

/// Law: the jingle never plays twice on one respawn platform visit, and only
/// once the fighter has reached 100% since the last reset.
pub proof fn lemma_pokecenter_once(t: PokecenterTracker, standby_or_entry: bool, is_rebirth: bool, damage: i32)
    requires
        t.reset_delay_timer < i32::MAX,
        !(standby_or_entry && is_rebirth),
    ensures
        pokecenter_step(t, standby_or_entry, is_rebirth, damage).2 ==> is_rebirth && !t.last_status_rebirth
            && pokecenter_step(t, standby_or_entry, is_rebirth, damage).0.highest_damage >= 100000,
        pokecenter_step(t, standby_or_entry, is_rebirth, damage).2 ==> pokecenter_step(t, standby_or_entry, is_rebirth, damage).0.played,
{
}

/// The grab effect goes once the status changes away from holding, or from
/// pulling to anything but holding (`catch_wait`, `catch_pull`: the game's
/// codes of those statuses).
pub open spec fn grab_effect_cleared(last_status: i32, status: i32, catch_wait: i32, catch_pull: i32) -> bool {
    last_status != status && (last_status == catch_wait || (last_status == catch_pull && status != catch_wait))
}

/// Whether the grab effect is to be killed (see `grab_effect_cleared`); the
/// last status becomes `status`.
pub fn handle_grab_effect_cleanup(last_status: &mut i32, status: i32, catch_wait: i32, catch_pull: i32) -> (kill: bool)
    ensures
        kill == grab_effect_cleared(*old(last_status), status, catch_wait, catch_pull),
        *final(last_status) == status,
{
    let kill = *last_status != status && (*last_status == catch_wait || (*last_status == catch_pull && status != catch_wait));
    *last_status = status;
    kill
}

/// Whether the shield break effects start: on the first frame of the shield
/// break flight (`shield_break_fly`, the game's code of that status) of one
/// of the eight player entries. The last status becomes `status` for those
/// entries and stays otherwise.
pub fn handle_shield_break_effects(last_status: &mut i32, status: i32, entry: u32, shield_break_fly: i32) -> (start: bool)
    ensures
        start == (entry < 8 && status == shield_break_fly && *old(last_status) != status),
        *final(last_status) == if entry < 8 { status } else { *old(last_status) },
{
    if entry >= 8 {
        return false;
    }
    let start = status == shield_break_fly && *last_status != status;
    *last_status = status;
    start
}

/// What the final smash model swap remembers per entry.
#[derive(Debug, Clone, Copy, PartialEq, Eq, Structural)]
pub struct FinalSmashTracker {
    pub last_fs_state: bool,
    pub last_motion: u64,
    pub last_fs_form: bool,
}

/// What the caller does after the final smash model swap.
#[derive(Debug, Clone, Copy, PartialEq, Eq, Structural)]
pub struct FinalSmashSwap {
    /// The form was dropped early (the animation changed): restore the stage's
    /// body and open eye.
    pub early_cleanup: bool,
    /// Kill the final smash aura.
    pub kill_final_aura: bool,
    /// Entering the final smash as Gengar: hide the animation meshes and, if
    /// a form was chosen, swap in its body.
    pub enter_form: Option<Option<Mesh>>,
    /// Leaving the form: hide everything, restore the stage's body and show this eye.
    pub exit_eye: Option<Mesh>,
}

/// The final smash animations during which the aura is killed.
pub open spec fn is_fs_aura_motion(m: u64) -> bool {
    motion_is(m, "final_start_r"@) || motion_is(m, "final"@) || motion_is(m, "final_end_r"@)
        || motion_is(m, "final_air_start_r"@) || motion_is(m, "final_air"@) || motion_is(m, "final_air_end_r"@)
}

/// The swap between Gengar and its chosen final smash form: entering the
/// attack animation with the final smash flag swaps in the Mega or Gigantamax
/// body; leaving the animation or losing the flag restores the stage.
pub open spec fn fs_swap_step(s: PlayerEvolutionState, t: FinalSmashTracker, entry_id: u32, flag: bool, motion: u64)
    -> (PlayerEvolutionState, FinalSmashTracker, FinalSmashSwap)
{
    let attack = motion_is(motion, "final"@) || motion_is(motion, "final_start_r"@);
    let changed = t.last_fs_state != flag || t.last_motion != motion || t.last_fs_form != s.items.is_in_final_smash_form;
    let early = entry_id < 8 && changed && s.items.is_in_final_smash_form && !attack && t.last_motion != motion;
    let s1 = if early { PlayerEvolutionState { items: ItemState { is_in_final_smash_form: false, ..s.items }, ..s } } else { s };
    let t1 = if entry_id < 8 && changed {
        FinalSmashTracker { last_fs_state: flag, last_motion: motion, last_fs_form: s1.items.is_in_final_smash_form }
    } else {
        t
    };
    let aura = is_fs_aura_motion(motion);
    if flag && attack && !s1.items.is_in_final_smash_form {
        if s1.stage == EvolutionStage::Gengar {
            let form = if s1.items.mega_gengar_form_active { Some(Mesh::MegaGengarBody) }
                else if s1.items.giga_gengar_form_active { Some(Mesh::GigaGengarBody) } else { None };
            (PlayerEvolutionState { items: ItemState { is_in_final_smash_form: form is Some, ..s1.items }, ..s1 }, t1,
                FinalSmashSwap { early_cleanup: early, kill_final_aura: aura, enter_form: Some(form), exit_eye: None })
        } else {
            (s1, t1, FinalSmashSwap { early_cleanup: early, kill_final_aura: aura, enter_form: None, exit_eye: None })
        }
    } else if s1.items.is_in_final_smash_form && (!attack || !flag) {
        (PlayerEvolutionState { items: ItemState { is_in_final_smash_form: false, ..s1.items }, ..s1 }, t1,
            FinalSmashSwap { early_cleanup: early, kill_final_aura: aura, enter_form: None, exit_eye: Some(base_eye(s1, None)) })
    } else {
        (s1, t1, FinalSmashSwap { early_cleanup: early, kill_final_aura: aura, enter_form: None, exit_eye: None })
    }
}

fn motion_named(motion: u64, name: &str) -> (r: bool)
    ensures
        r == motion_is(motion, name@),
{
    motion == hash40_str(name)
}

/// The final smash model swap (see `fs_swap_step`).
pub fn handle_final_smash_model_swap(
    player_state: &mut PlayerEvolutionState,
    tracker: &mut FinalSmashTracker,
    entry_id: u32,
    final_flag: bool,
    motion: u64,
) -> (r: FinalSmashSwap)
    ensures
        (*final(player_state), *final(tracker), r) == fs_swap_step(*old(player_state), *old(tracker), entry_id, final_flag, motion),
{
    let attack = motion_named(motion, "final") || motion_named(motion, "final_start_r");
    let changed = tracker.last_fs_state != final_flag || tracker.last_motion != motion
        || tracker.last_fs_form != player_state.items.is_in_final_smash_form;
    let early = entry_id < 8 && changed && player_state.items.is_in_final_smash_form && !attack && tracker.last_motion != motion;
    if early {
        player_state.items.is_in_final_smash_form = false;
    }
    if entry_id < 8 && changed {
        tracker.last_fs_state = final_flag;
        tracker.last_motion = motion;
        tracker.last_fs_form = player_state.items.is_in_final_smash_form;
    }
    let aura = motion_named(motion, "final_start_r") || motion_named(motion, "final") || motion_named(motion, "final_end_r")
        || motion_named(motion, "final_air_start_r") || motion_named(motion, "final_air") || motion_named(motion, "final_air_end_r");
    if final_flag && attack && !player_state.items.is_in_final_smash_form {
        if player_state.stage == EvolutionStage::Gengar {
            let form = if player_state.items.mega_gengar_form_active { Some(Mesh::MegaGengarBody) }
                else if player_state.items.giga_gengar_form_active { Some(Mesh::GigaGengarBody) } else { None };
            player_state.items.is_in_final_smash_form = form.is_some();
            FinalSmashSwap { early_cleanup: early, kill_final_aura: aura, enter_form: Some(form), exit_eye: None }
        } else {
            FinalSmashSwap { early_cleanup: early, kill_final_aura: aura, enter_form: None, exit_eye: None }
        }
    } else if player_state.items.is_in_final_smash_form && (!attack || !final_flag) {
        player_state.items.is_in_final_smash_form = false;
        let eye = match player_state.blink.blink_phase {
            BlinkPhase::Open => Mesh::Eye(player_state.stage, ExpressionType::Normal),
            BlinkPhase::HalfClose => Mesh::Eye(player_state.stage, ExpressionType::HalfBlink),
            BlinkPhase::HalfOpen => Mesh::Eye(player_state.stage, ExpressionType::HalfBlink),
            BlinkPhase::FullClose => Mesh::Eye(player_state.stage, ExpressionType::Blink),
        };
        FinalSmashSwap { early_cleanup: early, kill_final_aura: aura, enter_form: None, exit_eye: Some(eye) }
    } else {
        FinalSmashSwap { early_cleanup: early, kill_final_aura: aura, enter_form: None, exit_eye: None }
    }
}

/// Law: only a Gengar that chose a form ever enters a final smash form.
pub proof fn lemma_only_gengar_transforms(s: PlayerEvolutionState, t: FinalSmashTracker, entry_id: u32, flag: bool, motion: u64)
    requires
        !s.items.is_in_final_smash_form,
    ensures
        fs_swap_step(s, t, entry_id, flag, motion).0.items.is_in_final_smash_form ==>
            s.stage == EvolutionStage::Gengar && (s.items.mega_gengar_form_active || s.items.giga_gengar_form_active) && flag,
{
}

/// What the aggressive final smash fixes do this frame.
#[derive(Debug, Clone, Copy, PartialEq, Eq, Structural)]
pub struct FinalSmashFixes {
    /// Kill the game's final smash auras.
    pub kill_final_auras: bool,
    /// Kill the game's final smash background (not while a background is
    /// being set by the start animations).
    pub kill_default_background: bool,
    /// The form body swapped in at the start of the final smash (normal
    /// Gengar and the Gastly body hidden).
    pub enter_form: Option<Mesh>,
    /// At the end of the final smash: hide the Gastly body and keep this form
    /// shown (the other form hidden).
    pub end_keep_form: Option<Option<Mesh>>,
    /// Kill the grab effect (a Gastly not holding anyone).
    pub kill_catch_effect: bool,
    /// The smash ball is gone while in a form: hide the forms and the Gastly
    /// body and show normal Gengar with open eyes.
    pub restore_gengar: bool,
}

/// The chosen form's body, if any.
pub open spec fn form_mesh(s: PlayerEvolutionState) -> Option<Mesh> {
    if s.items.mega_gengar_form_active { Some(Mesh::MegaGengarBody) }
    else if s.items.giga_gengar_form_active { Some(Mesh::GigaGengarBody) }
    else { None }
}

/// The final smash starts as a Gengar with a chosen form: it becomes that
/// form; at the end the form stays; once the smash ball is gone the form
/// ends. The auras are killed during the final smash statuses and in a form.
pub open spec fn fs_fixes_step(s: PlayerEvolutionState, status: i32, fs_flag: bool, setting_background: bool, holding: bool)
    -> (PlayerEvolutionState, FinalSmashFixes)
{
    let fs_status = status == 0x1E0 || status == 0x1E8 || status == 0x1E9;
    let activate = status == 0x1E0 && fs_flag && !s.items.is_in_final_smash_form
        && s.stage == EvolutionStage::Gengar && form_mesh(s) is Some;
    let in_form = s.items.is_in_final_smash_form || activate;
    let restore = !fs_flag && in_form;
    (PlayerEvolutionState { items: ItemState { is_in_final_smash_form: in_form && !restore, ..s.items }, ..s },
        FinalSmashFixes {
            kill_final_auras: fs_status || in_form,
            kill_default_background: fs_status && !setting_background,
            enter_form: if activate { form_mesh(s) } else { None },
            end_keep_form: if status == 0x1E9 { Some(if in_form { form_mesh(s) } else { None }) } else { None },
            kill_catch_effect: !holding && s.stage == EvolutionStage::Gastly,
            restore_gengar: restore,
        })
}

/// The start animations that set a final smash background.
pub open spec fn is_background_motion(m: u64) -> bool {
    motion_is(m, "final_start_r"@) || motion_is(m, "final_start_l"@)
        || motion_is(m, "final_air_start_r"@) || motion_is(m, "final_air_start_l"@)
}

/// The aggressive final smash fixes of a frame (see `fs_fixes_step`);
/// `holding`: in a catch pull or catch wait status.
pub fn handle_final_smash_aggressive_fixes(player_state: &mut PlayerEvolutionState, status: i32, fs_flag: bool,
    motion: u64, holding: bool) -> (r: FinalSmashFixes)
    ensures
        (*final(player_state), r) == fs_fixes_step(*old(player_state), status, fs_flag, is_background_motion(motion), holding),
{
    let bg = motion_named(motion, "final_start_r") || motion_named(motion, "final_start_l")
        || motion_named(motion, "final_air_start_r") || motion_named(motion, "final_air_start_l");
    let fs_status = status == 0x1E0 || status == 0x1E8 || status == 0x1E9;
    let form = if player_state.items.mega_gengar_form_active { Some(Mesh::MegaGengarBody) }
        else if player_state.items.giga_gengar_form_active { Some(Mesh::GigaGengarBody) }
        else { None };
    let activate = status == 0x1E0 && fs_flag && !player_state.items.is_in_final_smash_form
        && player_state.stage == EvolutionStage::Gengar && form.is_some();
    let in_form = player_state.items.is_in_final_smash_form || activate;
    let restore = !fs_flag && in_form;
    player_state.items.is_in_final_smash_form = in_form && !restore;
    FinalSmashFixes {
        kill_final_auras: fs_status || in_form,
        kill_default_background: fs_status && !bg,
        enter_form: if activate { form } else { None },
        end_keep_form: if status == 0x1E9 { Some(if in_form { form } else { None }) } else { None },
        kill_catch_effect: !holding && player_state.stage == EvolutionStage::Gastly,
        restore_gengar: restore,
    }
}

/// The final smash model swap of a frame outside an evolution and outside
/// the final smash form (see `handle_final_smash_model_swap`); `None`, with
/// nothing changed, otherwise.
pub fn handle_final_smash_swap_when_idle(
    player_state: &mut PlayerEvolutionState,
    tracker: &mut FinalSmashTracker,
    entry_id: u32,
    final_flag: bool,
    motion: u64,
) -> (r: Option<FinalSmashSwap>)
    ensures
        (old(player_state).evolution.is_evolving || old(player_state).items.is_in_final_smash_form) ==>
            r is None && *final(player_state) == *old(player_state) && *final(tracker) == *old(tracker),
        !(old(player_state).evolution.is_evolving || old(player_state).items.is_in_final_smash_form) ==> ({
            let (s1, t1, w) = fs_swap_step(*old(player_state), *old(tracker), entry_id, final_flag, motion);
            *final(player_state) == s1 && *final(tracker) == t1 && r == Some(w)
        }),
{
    if player_state.evolution.is_evolving || player_state.items.is_in_final_smash_form {
        return None;
    }
    Some(handle_final_smash_model_swap(player_state, tracker, entry_id, final_flag, motion))
}

} // verus!
