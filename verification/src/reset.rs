use vstd::prelude::*;
use crate::stage::{EvolutionStage, BLINK_OPEN_MIN, BLINK_OPEN_MAX};
use crate::state::{PlayerEvolutionState, EvolutionProgress, EvolutionRun, ItemIcons, ItemState, InputTracking, ReadinessIcons};
use crate::icons::{with_flag, others_down, deactivate_all_pos_sensitive_icons};
use crate::looping::{LoopFlags, LoopSound, SoundCommand};
use crate::model::{WeakenedTracker, BodyUpdate, body_update, gastly_body_forced_hidden,
    update_body_and_unique_parts_visibility_with_enforcement};
use crate::frame::{FinalSmashTracker, FinalSmashSwap, HitResetTracker, fs_swap_step, handle_final_smash_model_swap};
use crate::ui::{UiTracker, reset_ui_state_on_death, ui_death_reset};

verus! {

/// `s` back to Gastly with no evolution, final smash form or form choice.
pub open spec fn gastly_forced(s: PlayerEvolutionState) -> PlayerEvolutionState {
    PlayerEvolutionState {
        stage: EvolutionStage::Gastly,
        evolution: EvolutionRun { evolution_target_stage: EvolutionStage::Gastly, is_evolving: false, evolution_timer: 0, ..s.evolution },
        items: ItemState { is_in_final_smash_form: false, mega_gengar_form_active: false, giga_gengar_form_active: false, ..s.items },
        ..s
    }
}

/// Forces a Gastly on a fighter (see `gastly_forced`).
fn force_gastly(ps: &mut PlayerEvolutionState)
    ensures
        *final(ps) == gastly_forced(*old(ps)),
{
    ps.stage = EvolutionStage::Gastly;
    ps.evolution.evolution_target_stage = EvolutionStage::Gastly;
    ps.evolution.is_evolving = false;
    ps.evolution.evolution_timer = 0;
    ps.items.is_in_final_smash_form = false;
    ps.items.mega_gengar_form_active = false;
    ps.items.giga_gengar_form_active = false;
}

/// A marked costume starts over as a Gastly (a respawn reset with reopened
/// eyes for `blink_timer` frames, then forced to Gastly); others are left.
pub fn force_gastly_reset_for_marked_costume(player_state: &mut PlayerEvolutionState, is_marked: bool, blink_timer: i32)
    requires
        BLINK_OPEN_MIN <= blink_timer <= BLINK_OPEN_MAX,
    ensures
        !is_marked ==> *final(player_state) == *old(player_state),
        is_marked ==> *final(player_state) == gastly_forced(old(player_state).respawn_reset(blink_timer, *final(player_state))),
        is_marked ==> final(player_state).buffers_empty(),
{
    if is_marked {
        player_state.full_reset_on_respawn(blink_timer);
        force_gastly(player_state);
    }
}

/// The state after the agent reset at the start of a life (see
/// `agent_reset_gastly_evolution`), buffers taken from `b`.
pub open spec fn agent_reset(s: PlayerEvolutionState, is_marked: bool, blink_a: i32, blink_b: i32, b: PlayerEvolutionState) -> PlayerEvolutionState {
    let s1 = PlayerEvolutionState { icons: with_flag(others_down(s.icons, None)), ..s };
    let s2 = s1.respawn_reset(blink_a, b);
    let s3 = PlayerEvolutionState {
        progress: EvolutionProgress {
            damage_received_this_stage: 0,
            hits_landed_this_stage: 0,
            previous_total_damage: 0,
            evo_attempt_delay_damage_taken_penalty: 0,
            evo_attempt_delay_hits_penalty: 0,
            ..s2.progress
        },
        readiness: ReadinessIcons::cleared(),
        ..s2
    };
    if is_marked { gastly_forced(s3.respawn_reset(blink_b, b)) } else { s3 }
}

/// The reset at the start of each life of the fighter: icons down, a
/// respawn reset (eyes open for `blink_a` frames), no progress, and for a
/// marked costume a second reset into Gastly (eyes open for `blink_b`).
pub fn agent_reset_gastly_evolution(player_state: &mut PlayerEvolutionState, is_marked: bool, blink_a: i32, blink_b: i32)
    requires
        BLINK_OPEN_MIN <= blink_a <= BLINK_OPEN_MAX,
        BLINK_OPEN_MIN <= blink_b <= BLINK_OPEN_MAX,
    ensures
        *final(player_state) == agent_reset(*old(player_state), is_marked, blink_a, blink_b, *final(player_state)),
        final(player_state).buffers_empty(),
        final(player_state).stage == EvolutionStage::Gastly,
{
    deactivate_all_pos_sensitive_icons(player_state);
    player_state.full_reset_on_respawn(blink_a);
    player_state.progress.damage_received_this_stage = 0;
    player_state.progress.hits_landed_this_stage = 0;
    player_state.progress.previous_total_damage = 0;
    player_state.progress.evo_attempt_delay_damage_taken_penalty = 0;
    player_state.progress.evo_attempt_delay_hits_penalty = 0;
    player_state.reset_evo_readiness_icons();
    force_gastly_reset_for_marked_costume(player_state, is_marked, blink_b);
}

/// The state after an evolution is dropped by a training reset (no penalty).
pub open spec fn dropped_evolution(s: PlayerEvolutionState) -> PlayerEvolutionState {
    PlayerEvolutionState {
        evolution: EvolutionRun {
            is_evolving: false,
            linking_cord_active: false,
            evolution_timer: 0,
            evolution_just_cancelled_this_frame: true,
            ..s.evolution
        },
        icons: ItemIcons { linking_cord_evo_attempt_icon_timer: 0, linking_cord_evo_attempt_icon_is_pos_sensitive: false, ..s.icons },
        inputs: InputTracking { down_taunt_cancel_press_count: 0, ..s.inputs },
        progress: EvolutionProgress { last_evolution_confirmation_frame: -1i32, ..s.progress },
        readiness: ReadinessIcons::cleared(),
        ..s
    }
}

/// Drops a running evolution without a penalty (the caller stops the
/// evolving and evolve SS sounds).
pub fn cancel_evolution_for_entry(player_state: &mut PlayerEvolutionState)
    ensures
        *final(player_state) == dropped_evolution(*old(player_state)),
{
    player_state.evolution.is_evolving = false;
    player_state.evolution.linking_cord_active = false;
    player_state.icons.linking_cord_evo_attempt_icon_timer = 0;
    player_state.icons.linking_cord_evo_attempt_icon_is_pos_sensitive = false;
    player_state.evolution.evolution_timer = 0;
    player_state.inputs.down_taunt_cancel_press_count = 0;
    player_state.progress.last_evolution_confirmation_frame = -1;
    player_state.reset_evo_readiness_icons();
    player_state.evolution.evolution_just_cancelled_this_frame = true;
}

/// The state of a marked fighter after a training reset: a running
/// evolution dropped, no progress or penalties, and back to Gastly.
pub open spec fn training_reset(s: PlayerEvolutionState) -> PlayerEvolutionState {
    let s1 = if s.evolution.is_evolving { dropped_evolution(s) } else { s };
    let s2 = PlayerEvolutionState {
        progress: EvolutionProgress {
            hits_landed_this_stage: 0,
            damage_received_this_stage: 0,
            previous_total_damage: 0,
            evo_attempt_delay_damage_taken_penalty: 0,
            evo_attempt_delay_hits_penalty: 0,
            ..s1.progress
        },
        ..s1
    };
    if s2.stage != EvolutionStage::Gastly { gastly_forced(s2) } else { s2 }
}

/// A training reset for a marked fighter (see `training_reset`); returns
/// whether it was turned back into a Gastly (the caller then redraws the
/// model) and whether an evolution was dropped (the caller then stops its
/// sounds). The caller skips it while a fighter shows the results screen.
pub fn training_mode_reset_handler(player_state: &mut PlayerEvolutionState) -> (r: (bool, bool))
    ensures
        *final(player_state) == training_reset(*old(player_state)),
        r.0 == (old(player_state).stage != EvolutionStage::Gastly),
        r.1 == old(player_state).evolution.is_evolving,
{
    let was_evolving = player_state.evolution.is_evolving;
    if player_state.evolution.is_evolving {
        cancel_evolution_for_entry(player_state);
    }
    player_state.progress.hits_landed_this_stage = 0;
    player_state.progress.damage_received_this_stage = 0;
    player_state.progress.previous_total_damage = 0;
    player_state.progress.evo_attempt_delay_damage_taken_penalty = 0;
    player_state.progress.evo_attempt_delay_hits_penalty = 0;
    if player_state.stage != EvolutionStage::Gastly {
        force_gastly(player_state);
        (true, was_evolving)
    } else {
        (false, was_evolving)
    }
}

/// Law: after a training reset a marked fighter is a Gastly with no
/// evolution running and no progress toward the next one.
pub proof fn lemma_training_reset_restarts(s: PlayerEvolutionState)
    ensures
        training_reset(s).stage == EvolutionStage::Gastly,
        !training_reset(s).evolution.is_evolving,
        training_reset(s).progress.damage_received_this_stage == 0,
        training_reset(s).progress.hits_landed_this_stage == 0,
{
}

/// What the early frame checks remember about one fighter.
#[derive(Debug, Clone, Copy, PartialEq, Eq, Structural)]
pub struct EarlyFrameTracker {
    pub last_seen_frame: i32,
    pub first_frame_processed: bool,
}

impl EarlyFrameTracker {
    /// Nothing seen yet.
    pub fn new() -> (t: Self)
        ensures
            t == (EarlyFrameTracker { last_seen_frame: -1i32, first_frame_processed: false }),
    {
        EarlyFrameTracker { last_seen_frame: -1, first_frame_processed: false }
    }
}

/// The respawn reset into a Gastly aiming at no evolution, with the shiny
/// flag of the costume.
pub open spec fn early_reset(s: PlayerEvolutionState, blink: i32, shiny: bool, b: PlayerEvolutionState) -> PlayerEvolutionState {
    let r = s.respawn_reset(blink, b);
    PlayerEvolutionState {
        evolution: EvolutionRun { evolution_target_stage: EvolutionStage::Gastly, ..r.evolution },
        shiny: crate::state::ShinyState { is_shiny: shiny, ..r.shiny },
        ..r
    }
}

/// A new session seen early in the frame: the frame counter jumped back by
/// more than 100 frames since last seen, or an entrance or standby in the
/// first 30 frames.
pub open spec fn new_session_seen(t: EarlyFrameTracker, frame: i32, entry_or_standby: bool) -> bool {
    (t.last_seen_frame != -1 && frame < t.last_seen_frame - 100) || (frame < 30 && entry_or_standby)
}

/// The early session check of a marked costume in entries 0 to 7 (the
/// fighter's state, when `has_state`, is `player_state`): on a new session a
/// fighter past the first stage starts over as a Gastly (eyes open for
/// `blink_timer` frames, shiny as its costume) and the caller resets its
/// model and interface (the result). The frame is remembered.
pub fn early_session_reset(tracker: &mut EarlyFrameTracker, player_state: &mut PlayerEvolutionState, has_state: bool,
    marked: bool, entry_id: u32, entry_or_standby: bool, shiny_costume: bool, blink_timer: i32) -> (reset: bool)
    requires
        BLINK_OPEN_MIN <= blink_timer <= BLINK_OPEN_MAX,
    ensures
        ({
            let applies = marked && entry_id < 8;
            let frame: i32 = if has_state { old(player_state).current_frame } else { 0i32 };
            let due = applies && has_state && old(player_state).stage != EvolutionStage::Gastly
                && new_session_seen(*old(tracker), frame, entry_or_standby);
            &&& reset == due
            &&& due ==> *final(player_state) == early_reset(*old(player_state), blink_timer, shiny_costume, *final(player_state))
                && final(player_state).buffers_empty()
            &&& !due ==> *final(player_state) == *old(player_state)
            &&& *final(tracker) == (if applies { EarlyFrameTracker { last_seen_frame: frame, ..*old(tracker) } } else { *old(tracker) })
        }),
{
    if !(marked && entry_id < 8) {
        return false;
    }
    let frame: i32 = if has_state { player_state.current_frame } else { 0 };
    let jumped = tracker.last_seen_frame != -1 && (frame as i64) < (tracker.last_seen_frame as i64) - 100;
    let early = frame < 30 && entry_or_standby;
    let mut reset = false;
    if (jumped || early) && has_state && player_state.stage != EvolutionStage::Gastly {
        player_state.full_reset_on_respawn(blink_timer);
        player_state.stage = EvolutionStage::Gastly;
        player_state.evolution.evolution_target_stage = EvolutionStage::Gastly;
        player_state.shiny.is_shiny = shiny_costume;
        reset = true;
    }
    tracker.last_seen_frame = frame;
    reset
}

/// The first frame of a marked costume's life resets its state (when it has
/// one) as on a respawn, eyes open for `blink_timer` frames; a death or
/// standby makes the next frame a first frame again. Returns whether it reset.
pub fn first_frame_reset(tracker: &mut EarlyFrameTracker, player_state: &mut PlayerEvolutionState, has_state: bool,
    marked: bool, dead_or_standby: bool, blink_timer: i32) -> (reset: bool)
    requires
        BLINK_OPEN_MIN <= blink_timer <= BLINK_OPEN_MAX,
    ensures
        reset == (!old(tracker).first_frame_processed && marked && has_state),
        reset ==> *final(player_state) == old(player_state).respawn_reset(blink_timer, *final(player_state))
            && final(player_state).buffers_empty(),
        !reset ==> *final(player_state) == *old(player_state),
        *final(tracker) == (EarlyFrameTracker { first_frame_processed: !dead_or_standby, ..*old(tracker) }),
{
    let mut reset = false;
    if !tracker.first_frame_processed {
        tracker.first_frame_processed = true;
        if marked && has_state {
            player_state.full_reset_on_respawn(blink_timer);
            player_state.stage = EvolutionStage::Gastly;
            reset = true;
        }
    }
    if dead_or_standby {
        tracker.first_frame_processed = false;
    }
    reset
}

/// The sounds that stop, by name, when the fighter dies or respawns: the
/// evolution, charge, dizzy, grab, mega symbol and heal sounds.
pub open spec fn death_silenced() -> Seq<SoundCommand> {
    seq![SoundCommand::Stop(LoopSound::Evolving), SoundCommand::Stop(LoopSound::EvolveSs),
        SoundCommand::Stop(LoopSound::ShadowballCharge), SoundCommand::Stop(LoopSound::Furafura),
        SoundCommand::Stop(LoopSound::GrabBurn), SoundCommand::Stop(LoopSound::Megasymbol),
        SoundCommand::Stop(LoopSound::Potion), SoundCommand::Stop(LoopSound::Restore)]
}

/// `f` with every looping sound flag down.
pub open spec fn flags_silenced(f: LoopFlags) -> LoopFlags {
    LoopFlags {
        evolving_active: false,
        evolve_ss_active: false,
        shadowball_charge_active: false,
        grab_burn_active: false,
        megasymbol_active: false,
        potion_active: false,
        restore_active: false,
        ..f
    }
}

/// Silences the fighter on death or respawn: every looping sound stops by
/// name and its flag drops (the shiny sparkle runs out on its own).
pub fn cleanup_all_evolution_sounds_on_death(flags: &mut LoopFlags) -> (cmds: Vec<SoundCommand>)
    ensures
        cmds@ == death_silenced(),
        *final(flags) == flags_silenced(*old(flags)),
{
    let mut cmds: Vec<SoundCommand> = Vec::new();
    cmds.push(SoundCommand::Stop(LoopSound::Evolving));
    cmds.push(SoundCommand::Stop(LoopSound::EvolveSs));
    cmds.push(SoundCommand::Stop(LoopSound::ShadowballCharge));
    cmds.push(SoundCommand::Stop(LoopSound::Furafura));
    cmds.push(SoundCommand::Stop(LoopSound::GrabBurn));
    cmds.push(SoundCommand::Stop(LoopSound::Megasymbol));
    cmds.push(SoundCommand::Stop(LoopSound::Potion));
    cmds.push(SoundCommand::Stop(LoopSound::Restore));
    flags.evolving_active = false;
    flags.evolve_ss_active = false;
    flags.shadowball_charge_active = false;
    flags.grab_burn_active = false;
    flags.megasymbol_active = false;
    flags.potion_active = false;
    flags.restore_active = false;
    proof {
        assert(cmds@ =~= death_silenced());
    }
    cmds
}

/// `s` cleared for a respawn by hand: icons down, the first stage with no
/// evolution, progress, penalties or damage baseline, readiness icons hidden.
pub open spec fn death_cleared(s: PlayerEvolutionState) -> PlayerEvolutionState {
    let s1 = PlayerEvolutionState { icons: with_flag(others_down(s.icons, None)), ..s };
    PlayerEvolutionState {
        stage: EvolutionStage::Gastly,
        evolution: EvolutionRun {
            evolution_target_stage: EvolutionStage::Gastly,
            is_evolving: false,
            evolution_timer: 0,
            ..s1.evolution
        },
        progress: EvolutionProgress {
            damage_received_this_stage: 0,
            hits_landed_this_stage: 0,
            evo_attempt_delay_damage_taken_penalty: 0,
            evo_attempt_delay_hits_penalty: 0,
            previous_total_damage: 0,
            ..s1.progress
        },
        readiness: ReadinessIcons::cleared(),
        ..s1
    }
}

/// The reset on death or respawn: icons down, back to a Gastly with no
/// evolution, progress or penalties, then a respawn reset (eyes open for
/// `blink_timer` frames).
pub fn death_reset(player_state: &mut PlayerEvolutionState, blink_timer: i32)
    requires
        BLINK_OPEN_MIN <= blink_timer <= BLINK_OPEN_MAX,
    ensures
        *final(player_state) == death_cleared(*old(player_state)).respawn_reset(blink_timer, *final(player_state)),
        final(player_state).buffers_empty(),
        final(player_state).stage == EvolutionStage::Gastly,
        final(player_state).progress.evo_attempt_delay_damage_taken_penalty == 0,
        final(player_state).progress.evo_attempt_delay_hits_penalty == 0,
{
    deactivate_all_pos_sensitive_icons(player_state);
    player_state.stage = EvolutionStage::Gastly;
    player_state.evolution.evolution_target_stage = EvolutionStage::Gastly;
    player_state.evolution.is_evolving = false;
    player_state.evolution.evolution_timer = 0;
    player_state.progress.damage_received_this_stage = 0;
    player_state.progress.hits_landed_this_stage = 0;
    player_state.progress.evo_attempt_delay_damage_taken_penalty = 0;
    player_state.progress.evo_attempt_delay_hits_penalty = 0;
    player_state.progress.previous_total_damage = 0;
    player_state.reset_evo_readiness_icons();
    player_state.full_reset_on_respawn(blink_timer);
    player_state.progress.evo_attempt_delay_hits_penalty = 0;
    player_state.progress.evo_attempt_delay_damage_taken_penalty = 0;
}

/// The trackers besides the fighter's state that a death frame resets.
#[derive(Debug, Clone, Copy, PartialEq, Eq, Structural)]
pub struct DeathTrackers {
    pub flags: LoopFlags,
    pub weakened: WeakenedTracker,
    pub fs_swap: FinalSmashTracker,
    pub hit_reset: HitResetTracker,
    pub ui: UiTracker,
}

/// What the caller does on a death or respawn frame.
pub struct DeathCleanup {
    /// The looping sounds to stop.
    pub sounds: Vec<SoundCommand>,
    /// Kill the weakened look's effect.
    pub kill_weakened: bool,
    /// Back to the normal color (the fighter died while evolving).
    pub restore_color: bool,
    /// The final smash model swap of a fighter that died in its final smash form.
    pub final_form_swap: Option<FinalSmashSwap>,
    /// The body update after the reset, and whether the Gastly body is forced hidden.
    pub body: (BodyUpdate, bool),
}

/// The fighter in `s` after the final smash swap of a death frame (only in
/// the final smash form), with the swap's tracker and actions.
pub open spec fn death_swap(s: PlayerEvolutionState, t: FinalSmashTracker, entry_id: u32, final_flag: bool, motion: u64)
    -> (PlayerEvolutionState, FinalSmashTracker, Option<FinalSmashSwap>)
{
    if s.items.is_in_final_smash_form {
        let (s1, t1, w) = fs_swap_step(s, t, entry_id, final_flag, motion);
        (s1, t1, Some(w))
    } else {
        (s, t, None)
    }
}

/// A death or respawn frame (`dead_or_rebirth`); nothing happens on other
/// frames. The looping sounds stop, the weakened look goes (entries 0 to 7),
/// a fighter that died evolving gets its color back, one in its final smash
/// form swaps back, the fighter resets to a Gastly (eyes open for
/// `blink_timer` frames), the hit reset frame becomes the fighter's frame,
/// the portrait state resets, and the body is updated for `status`.
pub fn handle_death_frame(
    player_state: &mut PlayerEvolutionState,
    t: &mut DeathTrackers,
    dead_or_rebirth: bool,
    entry_id: u32,
    final_flag: bool,
    motion: u64,
    status: i32,
    blink_timer: i32,
) -> (c: Option<DeathCleanup>)
    requires
        BLINK_OPEN_MIN <= blink_timer <= BLINK_OPEN_MAX,
    ensures
        !dead_or_rebirth ==> c is None && *final(player_state) == *old(player_state) && *final(t) == *old(t),
        dead_or_rebirth ==> c is Some && ({
            let s0 = *old(player_state);
            let t0 = *old(t);
            let (s1, fs1, swap) = death_swap(s0, t0.fs_swap, entry_id, final_flag, motion);
            let weak = entry_id < 8 && t0.weakened.spawned;
            let f = *final(player_state);
            let cu = c->0;
            &&& f == death_cleared(s1).respawn_reset(blink_timer, f)
            &&& f.buffers_empty()
            &&& cu.sounds@ == death_silenced()
            &&& cu.kill_weakened == weak
            &&& cu.restore_color == s0.evolution.is_evolving
            &&& cu.final_form_swap == swap
            &&& cu.body == (body_update(f.stage, status), gastly_body_forced_hidden(f, final_flag, motion))
            &&& *final(t) == (DeathTrackers {
                flags: flags_silenced(t0.flags),
                weakened: if weak { WeakenedTracker::initial() } else { t0.weakened },
                fs_swap: fs1,
                hit_reset: HitResetTracker { last_hit_reset_frame: f.current_frame, ..t0.hit_reset },
                ui: ui_death_reset(t0.ui),
            })
        }),
{
    if !dead_or_rebirth {
        return None;
    }
    let sounds = cleanup_all_evolution_sounds_on_death(&mut t.flags);
    let kill_weakened = if entry_id < 8 { t.weakened.emergency_cleanup_weakened() } else { false };
    let restore_color = player_state.evolution.is_evolving;
    let final_form_swap = if player_state.items.is_in_final_smash_form {
        Some(handle_final_smash_model_swap(player_state, &mut t.fs_swap, entry_id, final_flag, motion))
    } else {
        None
    };
    death_reset(player_state, blink_timer);
    t.hit_reset.last_hit_reset_frame = player_state.current_frame;
    reset_ui_state_on_death(&mut t.ui);
    let body = update_body_and_unique_parts_visibility_with_enforcement(player_state, status, final_flag, motion);
    Some(DeathCleanup { sounds, kill_weakened, restore_color, final_form_swap, body })
}

} // verus!
