use vstd::prelude::*;
use crate::stage::{
    EvolutionStage, spec_next_stage, next_stage, base_damage_threshold, base_hits_threshold,
    GASTLY_EVO_DMG_RECEIVED_THRESHOLD, HAUNTER_EVO_DMG_RECEIVED_THRESHOLD,
    GASTLY_EVO_HITS_THRESHOLD, HAUNTER_EVO_HITS_THRESHOLD, EVO_CANCEL_DAMAGE_PENALTY,
    MANUAL_EVO_HAUNTER_ICON_DURATION, BLINK_OPEN_MIN, BLINK_OPEN_MAX,
    EVO_CANCEL_DOWN_TAUNT_WINDOW, EVOLUTION_ANIMATION_TOTAL_FRAMES, EVOLUTION_TRANSFORM_EFFECT_FRAME,
};
use crate::state::{
    PlayerEvolutionState, EvolutionRun, EvolutionProgress, ItemIcons, ReadinessIcons, InputTracking,
    ItemState, BlinkState,
};
use crate::gastlyfx::FINAL_STATUS;
use crate::icons::{Icon, enforce_icon_exclusivity, exclusive_icons, update_is_any_pos_sensitive_icon_active_flag, with_flag};

verus! {

/// The damage (thousandths of a percent) a player must have taken this stage
/// to evolve automatically, penalties included; none for Gengar.
pub open spec fn required_damage(s: PlayerEvolutionState) -> Option<int> {
    match base_damage_threshold(s.stage) {
        Some(b) => Some(b + s.progress.evo_attempt_delay_damage_taken_penalty),
        None => None,
    }
}

/// The hits a player must have landed this stage to evolve automatically,
/// penalties included; none for Gengar.
pub open spec fn required_hits(s: PlayerEvolutionState) -> Option<int> {
    match base_hits_threshold(s.stage) {
        Some(b) => Some(b + s.progress.evo_attempt_delay_hits_penalty),
        None => None,
    }
}

/// Both conditions for an automatic evolution hold.
pub open spec fn evolution_conditions_met(s: PlayerEvolutionState) -> bool {
    match (required_damage(s), required_hits(s)) {
        (Some(d), Some(h)) => s.progress.damage_received_this_stage >= d && s.progress.hits_landed_this_stage >= h,
        _ => false,
    }
}

/// A request to evolve into `target` is honoured.
pub open spec fn evolution_may_start(s: PlayerEvolutionState, target: EvolutionStage, is_manual: bool) -> bool {
    &&& !s.evolution.is_evolving
    &&& s.stage != target
    &&& (is_manual || (!s.items.everstone_effect_active && evolution_conditions_met(s)))
}

/// The state once an evolution into `target` has started.
pub open spec fn evolution_started(s: PlayerEvolutionState, target: EvolutionStage, is_manual: bool) -> PlayerEvolutionState {
    let running = PlayerEvolutionState {
        evolution: EvolutionRun {
            linking_cord_active: true,
            is_evolving: true,
            evolution_target_stage: target,
            evolution_timer: 0,
            ..s.evolution
        },
        ..s
    };
    if is_manual && s.stage == EvolutionStage::Haunter && target == EvolutionStage::Gengar {
        PlayerEvolutionState {
            icons: ItemIcons {
                linking_cord_evo_attempt_icon_timer: MANUAL_EVO_HAUNTER_ICON_DURATION,
                linking_cord_evo_attempt_icon_is_pos_sensitive: true,
                ..exclusive_icons(running.icons, Some(Icon::LinkingCord))
            },
            ..running
        }
    } else {
        running
    }
}

/// The state after a confirmed evolution, with the current damage
/// `total_damage` as the new baseline (buffers taken from `b`).
pub open spec fn evolution_confirmed(s: PlayerEvolutionState, total_damage: i32, blink_timer: i32, b: PlayerEvolutionState) -> PlayerEvolutionState {
    let r = s.stage_reset(s.evolution.evolution_target_stage, blink_timer, b);
    PlayerEvolutionState {
        progress: EvolutionProgress {
            previous_total_damage: total_damage,
            last_evolution_confirmation_frame: s.current_frame,
            ..r.progress
        },
        icons: with_flag(r.icons),
        evolution: EvolutionRun { evolution_just_completed_this_frame: true, ..r.evolution },
        ..r
    }
}

/// The state after a cancelled evolution.
pub open spec fn evolution_cancelled(s: PlayerEvolutionState) -> PlayerEvolutionState {
    PlayerEvolutionState {
        evolution: EvolutionRun {
            is_evolving: false,
            linking_cord_active: false,
            evolution_timer: 0,
            evolution_just_cancelled_this_frame: true,
            ..s.evolution
        },
        icons: with_flag(ItemIcons {
            linking_cord_evo_attempt_icon_timer: 0,
            linking_cord_evo_attempt_icon_is_pos_sensitive: false,
            ..s.icons
        }),
        progress: EvolutionProgress {
            evo_attempt_delay_damage_taken_penalty:
                (s.progress.evo_attempt_delay_damage_taken_penalty + EVO_CANCEL_DAMAGE_PENALTY) as i32,
            last_evolution_confirmation_frame: -1i32,
            damage_received_this_stage: 0,
            hits_landed_this_stage: 0,
            ..s.progress
        },
        inputs: InputTracking { down_taunt_cancel_press_count: 0, ..s.inputs },
        readiness: ReadinessIcons::cleared(),
        ..s
    }
}

impl PlayerEvolutionState {
    /// Whether the conditions for an automatic evolution hold, with their
    /// penalties (false for Gengar).
    pub fn evolution_conditions_met(&self) -> (r: bool)
        ensures
            r == evolution_conditions_met(*self),
    {
        let (base_dmg, base_hits): (i64, i64) = match self.stage {
            EvolutionStage::Gastly => (GASTLY_EVO_DMG_RECEIVED_THRESHOLD as i64, GASTLY_EVO_HITS_THRESHOLD as i64),
            EvolutionStage::Haunter => (HAUNTER_EVO_DMG_RECEIVED_THRESHOLD as i64, HAUNTER_EVO_HITS_THRESHOLD as i64),
            EvolutionStage::Gengar => { return false; },
        };
        let required_dmg: i64 = base_dmg + self.progress.evo_attempt_delay_damage_taken_penalty as i64;
        let required_hits: i64 = base_hits + self.progress.evo_attempt_delay_hits_penalty as i64;
        self.progress.damage_received_this_stage as i64 >= required_dmg
            && self.progress.hits_landed_this_stage as i64 >= required_hits
    }

    /// Starts an evolution into `target_stage`. A manual request (the linking
    /// cord) skips the damage and hit conditions and the everstone; an
    /// automatic one needs both conditions and no everstone. Nothing happens
    /// while already evolving or when already at the target.
    pub fn start_evolution_process(&mut self, target_stage: EvolutionStage, is_manual_trigger: bool)
        ensures
            *final(self) == if evolution_may_start(*old(self), target_stage, is_manual_trigger) {
                evolution_started(*old(self), target_stage, is_manual_trigger)
            } else {
                *old(self)
            },
    {
        if self.evolution.is_evolving {
            return;
        }
        if self.stage == target_stage {
            return;
        }
        if !is_manual_trigger && self.items.everstone_effect_active {
            return;
        }
        if !is_manual_trigger && !self.evolution_conditions_met() {
            return;
        }
        self.evolution.linking_cord_active = true;
        self.evolution.is_evolving = true;
        self.evolution.evolution_target_stage = target_stage;
        self.evolution.evolution_timer = 0;
        if is_manual_trigger && self.stage == EvolutionStage::Haunter && target_stage == EvolutionStage::Gengar {
            enforce_icon_exclusivity(self, Some(Icon::LinkingCord));
            self.icons.linking_cord_evo_attempt_icon_timer = MANUAL_EVO_HAUNTER_ICON_DURATION;
            self.icons.linking_cord_evo_attempt_icon_is_pos_sensitive = true;
        }
    }

    /// Completes the running evolution: the target stage starts from scratch,
    /// with `current_total_damage` (thousandths of a percent) as the damage
    /// baseline and the eyes open for `next_blink_timer` frames.
    pub fn confirm_evolution(&mut self, current_total_damage: i32, next_blink_timer: i32)
        requires
            BLINK_OPEN_MIN <= next_blink_timer <= BLINK_OPEN_MAX,
        ensures
            *final(self) == evolution_confirmed(*old(self), current_total_damage, next_blink_timer, *final(self)),
            final(self).buffers_empty(),
    {
        let target_stage = self.evolution.evolution_target_stage;
        self.evolution.is_evolving = false;
        self.evolution.linking_cord_active = false;
        self.icons.linking_cord_evo_attempt_icon_timer = 0;
        self.icons.linking_cord_evo_attempt_icon_is_pos_sensitive = false;
        self.reset_for_new_stage(target_stage, next_blink_timer);
        self.progress.previous_total_damage = current_total_damage;
        self.progress.last_evolution_confirmation_frame = self.current_frame;
        update_is_any_pos_sensitive_icon_active_flag(self);
        self.evolution.evolution_just_completed_this_frame = true;
    }

    /// Abandons the running evolution: the stage stays, its progress starts
    /// over, and the damage requirement grows by 15%.
    pub fn cancel_evolution(&mut self)
        requires
            old(self).progress.evo_attempt_delay_damage_taken_penalty + EVO_CANCEL_DAMAGE_PENALTY <= i32::MAX,
        ensures
            *final(self) == evolution_cancelled(*old(self)),
    {
        self.evolution.is_evolving = false;
        self.evolution.linking_cord_active = false;
        self.icons.linking_cord_evo_attempt_icon_timer = 0;
        self.icons.linking_cord_evo_attempt_icon_is_pos_sensitive = false;
        self.evolution.evolution_timer = 0;
        self.progress.evo_attempt_delay_damage_taken_penalty =
            self.progress.evo_attempt_delay_damage_taken_penalty + EVO_CANCEL_DAMAGE_PENALTY;
        self.inputs.down_taunt_cancel_press_count = 0;
        self.progress.last_evolution_confirmation_frame = -1;
        self.progress.damage_received_this_stage = 0;
        self.progress.hits_landed_this_stage = 0;
        self.reset_evo_readiness_icons();
        self.evolution.evolution_just_cancelled_this_frame = true;
        update_is_any_pos_sensitive_icon_active_flag(self);
    }
}

impl PlayerEvolutionState {
    /// Using the final smash (entering the final status) while evolving
    /// cancels the evolution; returns whether it did.
    pub fn cancel_evolution_on_final_smash(&mut self, status: i32) -> (cancelled: bool)
        requires
            old(self).progress.evo_attempt_delay_damage_taken_penalty + EVO_CANCEL_DAMAGE_PENALTY <= i32::MAX,
        ensures
            cancelled == (old(self).evolution.is_evolving && status == FINAL_STATUS),
            *final(self) == if cancelled { evolution_cancelled(*old(self)) } else { *old(self) },
    {
        if self.evolution.is_evolving && status == FINAL_STATUS {
            self.cancel_evolution();
            true
        } else {
            false
        }
    }
}

/// The state after the down-taunt cancel check of a frame spent evolving,
/// and whether the evolution was cancelled by it.
pub open spec fn cancel_check(s: PlayerEvolutionState, down_taunt_pressed: bool, on_ground: bool, in_air: bool, is_guard_status: bool) -> (PlayerEvolutionState, bool) {
    let counts = down_taunt_pressed && ((on_ground && is_guard_status) || in_air);
    let count = s.inputs.down_taunt_cancel_press_count;
    let last = s.inputs.last_down_taunt_cancel_input_frame;
    let count1: u8 = if counts {
        if s.current_frame - last <= EVO_CANCEL_DOWN_TAUNT_WINDOW { (count + 1) as u8 } else { 1u8 }
    } else {
        count
    };
    let last1 = if counts { s.current_frame } else { last };
    let cancelled = counts && count1 >= 2;
    let count2: u8 = if count1 == 1 && s.current_frame - last1 > EVO_CANCEL_DOWN_TAUNT_WINDOW { 0u8 } else { count1 };
    let s1 = PlayerEvolutionState {
        inputs: InputTracking {
            down_taunt_cancel_press_count: count2,
            last_down_taunt_cancel_input_frame: last1,
            ..s.inputs
        },
        ..s
    };
    if cancelled { (evolution_cancelled(s1), true) } else { (s1, false) }
}

/// `s` after a start request (no change when it is refused).
pub open spec fn after_start(s: PlayerEvolutionState, target: EvolutionStage, is_manual: bool) -> PlayerEvolutionState {
    if evolution_may_start(s, target, is_manual) { evolution_started(s, target, is_manual) } else { s }
}

/// The state after the manual (linking cord) evolution check of a frame.
pub open spec fn manual_check(s: PlayerEvolutionState, on_ground: bool, is_guard_status: bool) -> PlayerEvolutionState {
    if s.stage == EvolutionStage::Haunter && on_ground && is_guard_status
        && s.inputs.manual_linking_cord_evo_attempted_this_frame {
        let s1 = if s.items.everstone_effect_active {
            PlayerEvolutionState {
                items: ItemState { everstone_effect_active: false, ..s.items },
                inputs: InputTracking { linking_cord_consumed_everstone_this_frame: true, ..s.inputs },
                ..s
            }
        } else {
            s
        };
        if !s1.evolution.is_evolving && !s1.evolution.linking_cord_active {
            after_start(s1, EvolutionStage::Gengar, true)
        } else {
            s1
        }
    } else {
        s
    }
}

/// Some evolution readiness icon is on screen.
pub open spec fn readiness_icons_showing(r: ReadinessIcons) -> bool {
    r.dmg_t_icon_display_timer > 0 || r.dmg_d_icon_display_timer > 0
        || r.dmg_ss_icon_display_timer > 0 || r.dmg_se_icon_display_timer > 0
}

/// The state after one frame of `handle_evolution_process`, and whether the
/// evolution was cancelled by input.
pub open spec fn evolution_process_step(s: PlayerEvolutionState, down_taunt_pressed: bool, on_ground: bool, in_air: bool, is_guard_status: bool) -> (PlayerEvolutionState, bool) {
    if s.evolution.is_evolving {
        cancel_check(s, down_taunt_pressed, on_ground, in_air, is_guard_status)
    } else {
        let s1 = manual_check(s, on_ground, is_guard_status);
        if s1.evolution.is_evolving || s1.items.everstone_effect_active || readiness_icons_showing(s1.readiness) {
            (s1, false)
        } else {
            match spec_next_stage(s1.stage) {
                Some(t) => (after_start(s1, t, false), false),
                None => (s1, false),
            }
        }
    }
}

/// One frame of the evolution triggers: while evolving, two down taunts
/// (on the ground while guarding, or in the air) within 60 frames cancel the
/// evolution; otherwise a Haunter that asked for the linking cord while
/// guarding on the ground evolves (consuming an active everstone), and a stage
/// that meets its conditions evolves on its own, unless an everstone is active
/// or a readiness icon is still showing. Returns whether the evolution was
/// cancelled this frame (the caller then plays the cancel sound and restores
/// the model).
pub fn handle_evolution_process(
    player_state: &mut PlayerEvolutionState,
    down_taunt_pressed: bool,
    on_ground: bool,
    in_air: bool,
    is_guard_status: bool,
) -> (cancelled: bool)
    requires
        old(player_state).inputs.down_taunt_cancel_press_count < 255,
        old(player_state).progress.evo_attempt_delay_damage_taken_penalty + EVO_CANCEL_DAMAGE_PENALTY <= i32::MAX,
    ensures
        (*final(player_state), cancelled) == evolution_process_step(*old(player_state), down_taunt_pressed, on_ground, in_air, is_guard_status),
{
    if player_state.evolution.is_evolving {
        let mut cancelled_by_input = false;
        if down_taunt_pressed && ((on_ground && is_guard_status) || in_air) {
            let since: i64 = player_state.current_frame as i64 - player_state.inputs.last_down_taunt_cancel_input_frame as i64;
            if since <= EVO_CANCEL_DOWN_TAUNT_WINDOW as i64 {
                player_state.inputs.down_taunt_cancel_press_count = player_state.inputs.down_taunt_cancel_press_count + 1;
            } else {
                player_state.inputs.down_taunt_cancel_press_count = 1;
            }
            player_state.inputs.last_down_taunt_cancel_input_frame = player_state.current_frame;
            if player_state.inputs.down_taunt_cancel_press_count >= 2 {
                cancelled_by_input = true;
            }
        }
        let since: i64 = player_state.current_frame as i64 - player_state.inputs.last_down_taunt_cancel_input_frame as i64;
        if player_state.inputs.down_taunt_cancel_press_count == 1 && since > EVO_CANCEL_DOWN_TAUNT_WINDOW as i64 {
            player_state.inputs.down_taunt_cancel_press_count = 0;
        }
        if cancelled_by_input {
            player_state.cancel_evolution();
        }
        return cancelled_by_input;
    }
    if player_state.stage == EvolutionStage::Haunter && on_ground && is_guard_status {
        if player_state.inputs.manual_linking_cord_evo_attempted_this_frame {
            if player_state.items.everstone_effect_active {
                player_state.items.everstone_effect_active = false;
                player_state.inputs.linking_cord_consumed_everstone_this_frame = true;
            }
            if !player_state.items.everstone_effect_active {
                if !player_state.evolution.is_evolving && !player_state.evolution.linking_cord_active {
                    player_state.start_evolution_process(EvolutionStage::Gengar, true);
                }
            }
        }
    }
    if player_state.evolution.is_evolving || player_state.items.everstone_effect_active {
        return false;
    }
    let r = &player_state.readiness;
    if r.dmg_t_icon_display_timer > 0 || r.dmg_d_icon_display_timer > 0
        || r.dmg_ss_icon_display_timer > 0 || r.dmg_se_icon_display_timer > 0 {
        return false;
    }
    match next_stage(player_state.stage) {
        Some(target_stage) => player_state.start_evolution_process(target_stage, false),
        None => {},
    }
    false
}

/// What the caller has to do after one frame of the evolution animation.
#[derive(Debug, Clone, Copy, PartialEq, Eq, Structural)]
pub struct EvolutionAnimationStep {
    /// First frame of the animation: clear any leftover flash.
    pub first_frame: bool,
    /// Spawn the transform effect (three quarters through).
    pub spawn_transform_effect: bool,
    /// Show (`Some(true)`) or hide (`Some(false)`) the linking cord icon; `None`: leave it.
    pub linking_cord_icon_visible: Option<bool>,
    /// The animation is over and the evolution was confirmed.
    pub completed: bool,
}

/// `|a - b| > 0.5` units, in thousandths.
pub open spec fn moved_away(a: int, b: int) -> bool {
    a - b > 500 || b - a > 500
}

/// The state after counting one animation frame at (`pos_x`, `pos_y`) in
/// status `status` and ticking the blink (reopened eyes stay open for `blink_a`).
pub open spec fn animation_tick(s: PlayerEvolutionState, pos_x: i32, pos_y: i32, status: i32, blink_a: i32) -> PlayerEvolutionState {
    let t = (s.evolution.evolution_timer + 1) as i32;
    let ev1 = if t == 1 {
        EvolutionRun { evolution_timer: t, evolution_start_pos_x: pos_x, evolution_start_pos_y: pos_y, last_status_during_evolution: status, ..s.evolution }
    } else {
        EvolutionRun { evolution_timer: t, ..s.evolution }
    };
    PlayerEvolutionState { evolution: ev1, blink: PlayerEvolutionState::blink_ticked(s.blink, blink_a), ..s }
}

/// Whether the linking cord icon shows after a tick into `s2` at (`pos_x`,
/// `pos_y`): `None` when it has run out, else whether the fighter stayed
/// within half a unit of where the animation began.
pub open spec fn linking_cord_visibility(s2: PlayerEvolutionState, pos_x: i32, pos_y: i32) -> Option<bool> {
    let moving = moved_away(pos_x as int, s2.evolution.evolution_start_pos_x as int)
        || moved_away(pos_y as int, s2.evolution.evolution_start_pos_y as int);
    if s2.icons.linking_cord_evo_attempt_icon_timer > 0 { Some(!moving) } else { None }
}

/// The state and actions after one frame of the evolution animation at
/// position (`pos_x`, `pos_y`) in status `status`.
pub open spec fn animation_step(
    s: PlayerEvolutionState, pos_x: i32, pos_y: i32, status: i32, total_damage: i32,
    blink_a: i32, blink_b: i32, b: PlayerEvolutionState,
) -> (PlayerEvolutionState, EvolutionAnimationStep) {
    let s2 = animation_tick(s, pos_x, pos_y, status, blink_a);
    let t = s2.evolution.evolution_timer;
    let completed = t >= EVOLUTION_ANIMATION_TOTAL_FRAMES;
    let s3 = if completed { evolution_confirmed(s2, total_damage, blink_b, b) } else { s2 };
    (s3, EvolutionAnimationStep {
        first_frame: t == 1,
        spawn_transform_effect: t == EVOLUTION_TRANSFORM_EFFECT_FRAME,
        linking_cord_icon_visible: linking_cord_visibility(s2, pos_x, pos_y),
        completed: completed,
    })
}

impl PlayerEvolutionState {
    /// Counts one animation frame (remembering, on the first, where the
    /// fighter stood and in which status) and ticks the blink.
    fn tick_evolution_animation(&mut self, pos_x: i32, pos_y: i32, status: i32, next_open_timer: i32)
        requires
            old(self).evolution.evolution_timer < i32::MAX,
            old(self).blink.blink_timer > i32::MIN,
            BLINK_OPEN_MIN <= next_open_timer <= BLINK_OPEN_MAX,
        ensures
            *final(self) == animation_tick(*old(self), pos_x, pos_y, status, next_open_timer),
    {
        self.evolution.evolution_timer = self.evolution.evolution_timer + 1;
        if self.evolution.evolution_timer == 1 {
            self.evolution.evolution_start_pos_x = pos_x;
            self.evolution.evolution_start_pos_y = pos_y;
            self.evolution.last_status_during_evolution = status;
        }
        self.tick_blink(next_open_timer);
    }

    /// Whether the linking cord icon shows at (`pos_x`, `pos_y`).
    fn linking_cord_visibility(&self, pos_x: i32, pos_y: i32) -> (r: Option<bool>)
        ensures
            r == linking_cord_visibility(*self, pos_x, pos_y),
    {
        let dx: i64 = pos_x as i64 - self.evolution.evolution_start_pos_x as i64;
        let dy: i64 = pos_y as i64 - self.evolution.evolution_start_pos_y as i64;
        let moving = dx > 500 || dx < -500 || dy > 500 || dy < -500;
        if self.icons.linking_cord_evo_attempt_icon_timer > 0 { Some(!moving) } else { None }
    }
}

/// One frame of the evolution animation: counts the frame, remembers where
/// the fighter stood on the first one, keeps blinking, shows the linking cord
/// icon unless the fighter moved more than half a unit, and confirms the
/// evolution after 240 frames. `next_open_timer` is used if the eyes reopen,
/// `confirm_blink_timer` if the evolution completes (both drawn by the caller).
pub fn advance_evolution_animation(
    player_state: &mut PlayerEvolutionState,
    pos_x: i32,
    pos_y: i32,
    status: i32,
    current_total_damage: i32,
    next_open_timer: i32,
    confirm_blink_timer: i32,
) -> (step: EvolutionAnimationStep)
    requires
        old(player_state).evolution.evolution_timer < i32::MAX,
        old(player_state).blink.blink_timer > i32::MIN,
        BLINK_OPEN_MIN <= next_open_timer <= BLINK_OPEN_MAX,
        BLINK_OPEN_MIN <= confirm_blink_timer <= BLINK_OPEN_MAX,
    ensures
        (*final(player_state), step) == animation_step(*old(player_state), pos_x, pos_y, status,
            current_total_damage, next_open_timer, confirm_blink_timer, *final(player_state)),
        step.completed ==> final(player_state).buffers_empty(),
{
    player_state.tick_evolution_animation(pos_x, pos_y, status, next_open_timer);
    let t = player_state.evolution.evolution_timer;
    let lc_visible = player_state.linking_cord_visibility(pos_x, pos_y);
    let completed = t >= EVOLUTION_ANIMATION_TOTAL_FRAMES;
    if completed {
        player_state.confirm_evolution(current_total_damage, confirm_blink_timer);
    }
    EvolutionAnimationStep {
        first_frame: t == 1,
        spawn_transform_effect: t == EVOLUTION_TRANSFORM_EFFECT_FRAME,
        linking_cord_icon_visible: lc_visible,
        completed: completed,
    }
}


/// Law: a cancelled evolution keeps the stage, starts its progress over,
/// stops the evolution, and raises the damage requirement by exactly 15%.
pub proof fn lemma_cancel_penalty(s: PlayerEvolutionState)
    requires
        s.progress.evo_attempt_delay_damage_taken_penalty + EVO_CANCEL_DAMAGE_PENALTY <= i32::MAX,
        s.stage != EvolutionStage::Gengar,
        s.progress.evo_attempt_delay_hits_penalty >= 0,
    ensures
        evolution_cancelled(s).stage == s.stage,
        !evolution_cancelled(s).evolution.is_evolving,
        evolution_cancelled(s).progress.damage_received_this_stage == 0,
        evolution_cancelled(s).progress.hits_landed_this_stage == 0,
        required_damage(evolution_cancelled(s)) == Some(required_damage(s).unwrap() + EVO_CANCEL_DAMAGE_PENALTY),
        required_hits(evolution_cancelled(s)) == required_hits(s),
        !evolution_conditions_met(evolution_cancelled(s)),
{
}

/// Law: a confirmed evolution lands on the stage it targeted, with no
/// progress, no penalties, no evolution running and no everstone.
pub proof fn lemma_confirm_reaches_target(s: PlayerEvolutionState, total_damage: i32, blink_timer: i32, b: PlayerEvolutionState)
    ensures
        evolution_confirmed(s, total_damage, blink_timer, b).stage == s.evolution.evolution_target_stage,
        !evolution_confirmed(s, total_damage, blink_timer, b).evolution.is_evolving,
        evolution_confirmed(s, total_damage, blink_timer, b).progress.damage_received_this_stage == 0,
        evolution_confirmed(s, total_damage, blink_timer, b).progress.hits_landed_this_stage == 0,
        evolution_confirmed(s, total_damage, blink_timer, b).progress.evo_attempt_delay_damage_taken_penalty == 0,
        evolution_confirmed(s, total_damage, blink_timer, b).progress.evo_attempt_delay_hits_penalty == 0,
        evolution_confirmed(s, total_damage, blink_timer, b).progress.previous_total_damage == total_damage,
        !evolution_confirmed(s, total_damage, blink_timer, b).items.everstone_effect_active,
{
}

/// Law: a Gastly only starts evolving on its own, when it has taken enough
/// damage and landed enough hits and no everstone is active; the evolution
/// it starts is into Haunter.
pub proof fn lemma_gastly_evolves_only_when_ready(
    s: PlayerEvolutionState, down_taunt_pressed: bool, on_ground: bool, in_air: bool, is_guard_status: bool,
)
    requires
        s.stage == EvolutionStage::Gastly,
        !s.evolution.is_evolving,
        evolution_process_step(s, down_taunt_pressed, on_ground, in_air, is_guard_status).0.evolution.is_evolving,
    ensures
        evolution_conditions_met(s),
        !s.items.everstone_effect_active,
        evolution_process_step(s, down_taunt_pressed, on_ground, in_air, is_guard_status).0.evolution.evolution_target_stage
            == EvolutionStage::Haunter,
{
}

/// Law: a Haunter starts evolving only into Gengar, and only on its own
/// (conditions met, no everstone, no readiness icon showing) or in a frame
/// in which it asked for the linking cord while guarding on the ground.
pub proof fn lemma_haunter_evolves_by_rule(
    s: PlayerEvolutionState, down_taunt_pressed: bool, on_ground: bool, in_air: bool, is_guard_status: bool,
)
    requires
        s.stage == EvolutionStage::Haunter,
        !s.evolution.is_evolving,
        evolution_process_step(s, down_taunt_pressed, on_ground, in_air, is_guard_status).0.evolution.is_evolving,
    ensures
        evolution_process_step(s, down_taunt_pressed, on_ground, in_air, is_guard_status).0.evolution.evolution_target_stage
            == EvolutionStage::Gengar,
        (on_ground && is_guard_status && s.inputs.manual_linking_cord_evo_attempted_this_frame)
            || (evolution_conditions_met(s) && !s.items.everstone_effect_active && !readiness_icons_showing(s.readiness)),
{
}

/// Law: Gengar never starts evolving.
pub proof fn lemma_gengar_is_final(
    s: PlayerEvolutionState, down_taunt_pressed: bool, on_ground: bool, in_air: bool, is_guard_status: bool,
)
    requires
        s.stage == EvolutionStage::Gengar,
        !s.evolution.is_evolving,
    ensures
        !evolution_process_step(s, down_taunt_pressed, on_ground, in_air, is_guard_status).0.evolution.is_evolving,
        evolution_process_step(s, down_taunt_pressed, on_ground, in_air, is_guard_status).0.stage == EvolutionStage::Gengar,
{
}

/// Law: the frame that brings the animation timer to 240 completes the
/// evolution on the target stage; earlier frames keep it running.
pub proof fn lemma_animation_completes_at_240(
    s: PlayerEvolutionState, pos_x: i32, pos_y: i32, status: i32, total_damage: i32,
    blink_a: i32, blink_b: i32, b: PlayerEvolutionState,
)
    requires
        0 <= s.evolution.evolution_timer < EVOLUTION_ANIMATION_TOTAL_FRAMES,
        s.evolution.is_evolving,
    ensures
        animation_step(s, pos_x, pos_y, status, total_damage, blink_a, blink_b, b).1.completed
            <==> s.evolution.evolution_timer == EVOLUTION_ANIMATION_TOTAL_FRAMES - 1,
        s.evolution.evolution_timer == EVOLUTION_ANIMATION_TOTAL_FRAMES - 1 ==>
            animation_step(s, pos_x, pos_y, status, total_damage, blink_a, blink_b, b).0.stage == s.evolution.evolution_target_stage,
        s.evolution.evolution_timer < EVOLUTION_ANIMATION_TOTAL_FRAMES - 1 ==>
            animation_step(s, pos_x, pos_y, status, total_damage, blink_a, blink_b, b).0.evolution.is_evolving
            && animation_step(s, pos_x, pos_y, status, total_damage, blink_a, blink_b, b).0.stage == s.stage,
{
}

/// The state after `n` animation frames that do not complete the evolution,
/// frame `i` (from 1) at (`xs[i - 1]`, `ys[i - 1]`) in status
/// `statuses[i - 1]` with blink draw `blinks[i - 1]`.
pub open spec fn animation_after(s: PlayerEvolutionState, xs: Seq<i32>, ys: Seq<i32>, statuses: Seq<i32>,
    blinks: Seq<i32>, n: nat) -> PlayerEvolutionState
    decreases n,
{
    if n == 0 {
        s
    } else {
        let p = animation_after(s, xs, ys, statuses, blinks, (n - 1) as nat);
        animation_tick(p, xs[n - 1], ys[n - 1], statuses[n - 1], blinks[n - 1])
    }
}

proof fn lemma_animation_after(s: PlayerEvolutionState, xs: Seq<i32>, ys: Seq<i32>, statuses: Seq<i32>,
    blinks: Seq<i32>, n: nat)
    requires
        s.evolution.evolution_timer == 0,
        n < EVOLUTION_ANIMATION_TOTAL_FRAMES,
    ensures
        ({
            let a = animation_after(s, xs, ys, statuses, blinks, n);
            &&& a.evolution.evolution_timer == n
            &&& a.evolution.is_evolving == s.evolution.is_evolving
            &&& a.evolution.evolution_target_stage == s.evolution.evolution_target_stage
            &&& a.stage == s.stage
        }),
    decreases n,
{
    if n > 0 {
        lemma_animation_after(s, xs, ys, statuses, blinks, (n - 1) as nat);
    }
}

/// Law: an evolution animation started with its timer at 0 runs exactly 240
/// frames, whatever the positions, statuses and blink draws: each of frames
/// 1 to 239 leaves the fighter evolving on its stage with the timer at the
/// frame's number, and frame 240 completes the evolution on the target stage.
pub proof fn lemma_animation_runs_240_frames(
    s: PlayerEvolutionState, xs: Seq<i32>, ys: Seq<i32>, statuses: Seq<i32>, blinks: Seq<i32>,
    n: nat, total_damage: i32, blink_b: i32, b: PlayerEvolutionState,
)
    requires
        s.evolution.is_evolving,
        s.evolution.evolution_timer == 0,
        1 <= n <= EVOLUTION_ANIMATION_TOTAL_FRAMES,
    ensures
        ({
            let before = animation_after(s, xs, ys, statuses, blinks, (n - 1) as nat);
            let (after, step) = animation_step(before, xs[n - 1], ys[n - 1], statuses[n - 1], total_damage,
                blinks[n - 1], blink_b, b);
            &&& n < EVOLUTION_ANIMATION_TOTAL_FRAMES ==> {
                &&& !step.completed
                &&& after == animation_after(s, xs, ys, statuses, blinks, n)
                &&& after.evolution.is_evolving
                &&& after.evolution.evolution_timer == n
                &&& after.stage == s.stage
            }
            &&& n == EVOLUTION_ANIMATION_TOTAL_FRAMES ==> {
                &&& step.completed
                &&& !after.evolution.is_evolving
                &&& after.evolution.evolution_just_completed_this_frame
                &&& after.stage == s.evolution.evolution_target_stage
            }
        }),
{
    lemma_animation_after(s, xs, ys, statuses, blinks, (n - 1) as nat);
    if n < EVOLUTION_ANIMATION_TOTAL_FRAMES {
        lemma_animation_after(s, xs, ys, statuses, blinks, n);
    }
}

/// Law: while evolving, a frame on the ground without guarding (and not in
/// the air) never cancels: the down taunt is not counted (its frame stays),
/// the evolution keeps running with the same stage and progress, and only a
/// lone press older than the window is forgotten.
pub proof fn lemma_unguarded_ground_taunt_never_cancels(
    s: PlayerEvolutionState, down_taunt_pressed: bool, on_ground: bool, in_air: bool, is_guard_status: bool,
)
    requires
        s.evolution.is_evolving,
        !in_air,
        !(on_ground && is_guard_status),
    ensures
        ({
            let (s1, cancelled) = evolution_process_step(s, down_taunt_pressed, on_ground, in_air, is_guard_status);
            let c = s.inputs.down_taunt_cancel_press_count;
            &&& !cancelled
            &&& s1.evolution == s.evolution
            &&& s1.stage == s.stage
            &&& s1.progress == s.progress
            &&& s1.inputs.last_down_taunt_cancel_input_frame == s.inputs.last_down_taunt_cancel_input_frame
            &&& s1.inputs.down_taunt_cancel_press_count == if c == 1
                && s.current_frame - s.inputs.last_down_taunt_cancel_input_frame > EVO_CANCEL_DOWN_TAUNT_WINDOW { 0u8 } else { c }
        }),
{
}

/// Law: while evolving, a down taunt in the air or while guarding on the
/// ground that follows a first one within the window cancels the
/// evolution, with the cancel penalty.
pub proof fn lemma_second_counted_taunt_cancels(
    s: PlayerEvolutionState, on_ground: bool, in_air: bool, is_guard_status: bool,
)
    requires
        s.evolution.is_evolving,
        in_air || (on_ground && is_guard_status),
        s.inputs.down_taunt_cancel_press_count == 1,
        s.current_frame - s.inputs.last_down_taunt_cancel_input_frame <= EVO_CANCEL_DOWN_TAUNT_WINDOW,
        s.progress.evo_attempt_delay_damage_taken_penalty + EVO_CANCEL_DAMAGE_PENALTY <= i32::MAX,
    ensures
        ({
            let (s1, cancelled) = evolution_process_step(s, true, on_ground, in_air, is_guard_status);
            &&& cancelled
            &&& !s1.evolution.is_evolving
            &&& s1.stage == s.stage
            &&& s1.progress.evo_attempt_delay_damage_taken_penalty
                == s.progress.evo_attempt_delay_damage_taken_penalty + EVO_CANCEL_DAMAGE_PENALTY
        }),
{
}

} // verus!
