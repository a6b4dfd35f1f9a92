use vstd::prelude::*;
use crate::stage::{
    EvolutionStage, BlinkPhase, HitboxDetectionMethod, Mesh, BLINK_OPEN_MIN, BLINK_OPEN_MAX,
};

verus! {

/// The eye blink cycle.
#[derive(Debug, Clone, Copy, PartialEq, Eq, Structural)]
pub struct BlinkState {
    pub blink_timer: i32,
    pub blink_phase: BlinkPhase,
}

/// Progress toward the next evolution (damage in thousandths of a percent).
#[derive(Debug, Clone, Copy, PartialEq, Eq, Structural)]
pub struct EvolutionProgress {
    pub damage_received_this_stage: i32,
    pub hits_landed_this_stage: i32,
    pub previous_total_damage: i32,
    pub evo_attempt_delay_damage_taken_penalty: i32,
    pub evo_attempt_delay_hits_penalty: i32,
    pub last_evolution_confirmation_frame: i32,
}

/// Neutral special (shadow ball) charge tracking.
#[derive(Debug, Clone, Copy, PartialEq, Eq, Structural)]
pub struct ShadowballTracking {
    pub shadowball_status_frames: i32,
    pub is_in_shadowball_status: bool,
    pub last_shadowball_status: i32,
    pub shadowball_was_sufficiently_charged: bool,
    pub shadowball_air_charge_count: i32,
    pub shadowball_previous_status: i32,
}

/// Which eye expression the unmodified model last showed.
#[derive(Debug, Clone, Copy, PartialEq, Eq, Structural)]
pub struct ExpressionTracking {
    pub vanilla_expression_tracking: bool,
    pub last_vanilla_expression: Option<Mesh>,
    pub vanilla_expression_changed: bool,
    pub was_attacking_last_frame: bool,
}

/// What the attack module last reported about active hitboxes.
#[derive(Debug, Clone, Copy, PartialEq, Eq, Structural)]
pub struct AttackModuleTracking {
    pub last_attackmodule_check_frame: i32,
    pub attackmodule_hitbox_detected_this_frame: bool,
    pub attackmodule_consecutive_detections: i32,
    pub last_hitbox_detection_method: HitboxDetectionMethod,
}

/// A running (or just finished) evolution (positions in thousandths of a unit).
#[derive(Debug, Clone, Copy, PartialEq, Eq, Structural)]
pub struct EvolutionRun {
    pub is_evolving: bool,
    pub evolution_timer: i32,
    pub evolution_target_stage: EvolutionStage,
    pub linking_cord_active: bool,
    pub evolution_start_pos_x: i32,
    pub evolution_start_pos_y: i32,
    pub last_status_during_evolution: i32,
    pub evolution_just_completed_this_frame: bool,
    pub frames_since_level_up_effect: i32,
    pub evolution_just_cancelled_this_frame: bool,
    pub evolution_cancel_fade_timer: i32,
}

/// Held items and chosen final smash form.
#[derive(Debug, Clone, Copy, PartialEq, Eq, Structural)]
pub struct ItemState {
    pub everstone_effect_active: bool,
    pub mega_gengar_form_active: bool,
    pub giga_gengar_form_active: bool,
    pub is_in_final_smash_form: bool,
}

/// The item icons shown above the fighter (positions in thousandths of a unit).
#[derive(Debug, Clone, Copy, PartialEq, Eq, Structural)]
pub struct ItemIcons {
    pub linking_cord_visual_icon_active: bool,
    pub linking_cord_visual_icon_timer: i32,
    pub linking_cord_evo_attempt_icon_timer: i32,
    pub linking_cord_evo_attempt_icon_is_pos_sensitive: bool,
    pub everstone_icon_active: bool,
    pub everstone_icon_timer: i32,
    pub everstone_x_icon_active: bool,
    pub everstone_x_icon_timer: i32,
    pub gengarite_icon_display_active: bool,
    pub gengarite_icon_display_timer: i32,
    pub dynamax_icon_display_active: bool,
    pub dynamax_icon_display_timer: i32,
    pub icon_start_pos_x: i32,
    pub icon_start_pos_y: i32,
    pub is_any_pos_sensitive_icon_active: bool,
}

/// Button sequences in progress.
#[derive(Debug, Clone)]
pub struct InputTracking {
    pub up_taunt_press_count_linking_cord: u8,
    pub last_up_taunt_input_frame_linking_cord: i32,
    pub manual_linking_cord_evo_attempted_this_frame: bool,
    pub linking_cord_consumed_everstone_this_frame: bool,
    pub special_press_count_everstone: u8,
    pub last_special_press_frame_everstone: i32,
    pub down_taunt_cancel_press_count: u8,
    pub last_down_taunt_cancel_input_frame: i32,
    pub gengarite_input_sequence: Vec<i32>,
    pub last_gengarite_input_frame: i32,
    /// Side taunt presses counted toward a final smash form (all on one side).
    pub s_taunt_r_press_count_dynamax: u8,
    pub last_s_taunt_r_input_frame_dynamax: i32,
    /// The side of the counted side taunt presses (`true`: left).
    pub s_taunt_pending_left: bool,
    pub last_debug_taunt_frame: i32,
}

/// The four evolution readiness icons.
#[derive(Debug, Clone, Copy, PartialEq, Eq, Structural)]
pub struct ReadinessIcons {
    pub dmg_t_icon_display_timer: i32,
    pub dmg_t_icon_is_locked_out: bool,
    pub dmg_d_icon_display_timer: i32,
    pub dmg_d_icon_is_locked_out: bool,
    pub dmg_ss_icon_display_timer: i32,
    pub dmg_ss_icon_is_locked_out: bool,
    pub dmg_se_icon_display_timer: i32,
    pub dmg_se_icon_is_locked_out: bool,
}

/// Shadow ball effect bookkeeping.
#[derive(Debug, Clone, Copy, PartialEq, Eq, Structural)]
pub struct MewtwoShadowballTracking {
    pub mewtwo_shadowball_hold_spawn_frame: i32,
    pub mewtwo_shadowball_spawned_this_rollout: bool,
    pub mewtwo_shadowball_hold_last_spawn_frame: i32,
    pub mewtwo_shadowball_hold_spawned_this_hold: bool,
    pub mewtwo_shadowball_growing_handle: Option<u32>,
    pub mewtwo_shadowball_growth_start_frame: i32,
    pub last_rollout_status: i32,
    pub last_hold_status: i32,
}

/// Shiny costume effects and the delayed cry.
#[derive(Debug, Clone)]
pub struct ShinyState {
    pub is_shiny: bool,
    pub shiny_effect_pending: bool,
    pub shiny_effect_delay_timer: i32,
    pub evolution_completion_frame: i32,
    pub delayed_cry_sound: String,
    pub delayed_cry_timer: i32,
}

/// Everything the evolution logic remembers about one player.
#[derive(Debug, Clone)]
pub struct PlayerEvolutionState {
    pub stage: EvolutionStage,
    pub current_frame: i32,
    pub blink: BlinkState,
    pub progress: EvolutionProgress,
    pub shadowball: ShadowballTracking,
    pub expression: ExpressionTracking,
    pub attack: AttackModuleTracking,
    pub evolution: EvolutionRun,
    pub items: ItemState,
    pub icons: ItemIcons,
    pub inputs: InputTracking,
    pub readiness: ReadinessIcons,
    pub mewtwo: MewtwoShadowballTracking,
    pub shiny: ShinyState,
}

impl ShadowballTracking {
    pub open spec fn cleared() -> Self {
        Self {
            shadowball_status_frames: 0,
            is_in_shadowball_status: false,
            last_shadowball_status: -1i32,
            shadowball_was_sufficiently_charged: false,
            shadowball_air_charge_count: 0,
            shadowball_previous_status: -1i32,
        }
    }

    /// No shadow ball in progress.
    pub fn new() -> (r: Self)
        ensures
            r == Self::cleared(),
    {
        Self {
            shadowball_status_frames: 0,
            is_in_shadowball_status: false,
            last_shadowball_status: -1,
            shadowball_was_sufficiently_charged: false,
            shadowball_air_charge_count: 0,
            shadowball_previous_status: -1,
        }
    }
}

impl AttackModuleTracking {
    pub open spec fn cleared() -> Self {
        Self {
            last_attackmodule_check_frame: -1i32,
            attackmodule_hitbox_detected_this_frame: false,
            attackmodule_consecutive_detections: 0,
            last_hitbox_detection_method: HitboxDetectionMethod::NotDetected,
        }
    }

    /// Nothing reported yet.
    pub fn new() -> (r: Self)
        ensures
            r == Self::cleared(),
    {
        Self {
            last_attackmodule_check_frame: -1,
            attackmodule_hitbox_detected_this_frame: false,
            attackmodule_consecutive_detections: 0,
            last_hitbox_detection_method: HitboxDetectionMethod::NotDetected,
        }
    }
}

impl EvolutionRun {
    /// No evolution running; `target` is the remembered target stage.
    pub open spec fn idle(target: EvolutionStage) -> Self {
        Self {
            is_evolving: false,
            evolution_timer: 0,
            evolution_target_stage: target,
            linking_cord_active: false,
            evolution_start_pos_x: 0,
            evolution_start_pos_y: 0,
            last_status_during_evolution: -1i32,
            evolution_just_completed_this_frame: false,
            frames_since_level_up_effect: -1i32,
            evolution_just_cancelled_this_frame: false,
            evolution_cancel_fade_timer: -1i32,
        }
    }

    /// No evolution running.
    pub fn new(target: EvolutionStage) -> (r: Self)
        ensures
            r == Self::idle(target),
    {
        Self {
            is_evolving: false,
            evolution_timer: 0,
            evolution_target_stage: target,
            linking_cord_active: false,
            evolution_start_pos_x: 0,
            evolution_start_pos_y: 0,
            last_status_during_evolution: -1,
            evolution_just_completed_this_frame: false,
            frames_since_level_up_effect: -1,
            evolution_just_cancelled_this_frame: false,
            evolution_cancel_fade_timer: -1,
        }
    }
}

impl ItemIcons {
    pub open spec fn cleared() -> Self {
        Self {
            linking_cord_visual_icon_active: false,
            linking_cord_visual_icon_timer: 0,
            linking_cord_evo_attempt_icon_timer: 0,
            linking_cord_evo_attempt_icon_is_pos_sensitive: false,
            everstone_icon_active: false,
            everstone_icon_timer: 0,
            everstone_x_icon_active: false,
            everstone_x_icon_timer: 0,
            gengarite_icon_display_active: false,
            gengarite_icon_display_timer: 0,
            dynamax_icon_display_active: false,
            dynamax_icon_display_timer: 0,
            icon_start_pos_x: 0,
            icon_start_pos_y: 0,
            is_any_pos_sensitive_icon_active: false,
        }
    }

    /// No icon shown.
    pub fn new() -> (r: Self)
        ensures
            r == Self::cleared(),
    {
        Self {
            linking_cord_visual_icon_active: false,
            linking_cord_visual_icon_timer: 0,
            linking_cord_evo_attempt_icon_timer: 0,
            linking_cord_evo_attempt_icon_is_pos_sensitive: false,
            everstone_icon_active: false,
            everstone_icon_timer: 0,
            everstone_x_icon_active: false,
            everstone_x_icon_timer: 0,
            gengarite_icon_display_active: false,
            gengarite_icon_display_timer: 0,
            dynamax_icon_display_active: false,
            dynamax_icon_display_timer: 0,
            icon_start_pos_x: 0,
            icon_start_pos_y: 0,
            is_any_pos_sensitive_icon_active: false,
        }
    }
}

impl InputTracking {
    /// No button sequence in progress (the gengarite buffer aside, which the
    /// `seq_empty` predicate speaks of).
    pub open spec fn cleared(buffer_from: Self) -> Self {
        Self {
            up_taunt_press_count_linking_cord: 0,
            last_up_taunt_input_frame_linking_cord: 0,
            manual_linking_cord_evo_attempted_this_frame: false,
            linking_cord_consumed_everstone_this_frame: false,
            special_press_count_everstone: 0,
            last_special_press_frame_everstone: 0,
            down_taunt_cancel_press_count: 0,
            last_down_taunt_cancel_input_frame: 0,
            gengarite_input_sequence: buffer_from.gengarite_input_sequence,
            last_gengarite_input_frame: 0,
            s_taunt_r_press_count_dynamax: 0,
            last_s_taunt_r_input_frame_dynamax: 0,
            s_taunt_pending_left: false,
            last_debug_taunt_frame: -31i32,
        }
    }

    pub open spec fn seq_empty(self) -> bool {
        self.gengarite_input_sequence@ == Seq::<i32>::empty()
    }

    /// No button sequence in progress.
    pub fn new() -> (r: Self)
        ensures
            r == Self::cleared(r),
            r.seq_empty(),
    {
        Self {
            up_taunt_press_count_linking_cord: 0,
            last_up_taunt_input_frame_linking_cord: 0,
            manual_linking_cord_evo_attempted_this_frame: false,
            linking_cord_consumed_everstone_this_frame: false,
            special_press_count_everstone: 0,
            last_special_press_frame_everstone: 0,
            down_taunt_cancel_press_count: 0,
            last_down_taunt_cancel_input_frame: 0,
            gengarite_input_sequence: Vec::new(),
            last_gengarite_input_frame: 0,
            s_taunt_r_press_count_dynamax: 0,
            last_s_taunt_r_input_frame_dynamax: 0,
            s_taunt_pending_left: false,
            last_debug_taunt_frame: -31,
        }
    }
}

impl ReadinessIcons {
    pub open spec fn cleared() -> Self {
        Self {
            dmg_t_icon_display_timer: 0,
            dmg_t_icon_is_locked_out: false,
            dmg_d_icon_display_timer: 0,
            dmg_d_icon_is_locked_out: false,
            dmg_ss_icon_display_timer: 0,
            dmg_ss_icon_is_locked_out: false,
            dmg_se_icon_display_timer: 0,
            dmg_se_icon_is_locked_out: false,
        }
    }

    /// All four icons hidden and unlocked.
    pub fn new() -> (r: Self)
        ensures
            r == Self::cleared(),
    {
        Self {
            dmg_t_icon_display_timer: 0,
            dmg_t_icon_is_locked_out: false,
            dmg_d_icon_display_timer: 0,
            dmg_d_icon_is_locked_out: false,
            dmg_ss_icon_display_timer: 0,
            dmg_ss_icon_is_locked_out: false,
            dmg_se_icon_display_timer: 0,
            dmg_se_icon_is_locked_out: false,
        }
    }
}

impl MewtwoShadowballTracking {
    pub open spec fn cleared() -> Self {
        Self {
            mewtwo_shadowball_hold_spawn_frame: 0,
            mewtwo_shadowball_spawned_this_rollout: false,
            mewtwo_shadowball_hold_last_spawn_frame: 0,
            mewtwo_shadowball_hold_spawned_this_hold: false,
            mewtwo_shadowball_growing_handle: None,
            mewtwo_shadowball_growth_start_frame: 0,
            last_rollout_status: -1i32,
            last_hold_status: -1i32,
        }
    }

    /// No shadow ball effect alive.
    pub fn new() -> (r: Self)
        ensures
            r == Self::cleared(),
    {
        Self {
            mewtwo_shadowball_hold_spawn_frame: 0,
            mewtwo_shadowball_spawned_this_rollout: false,
            mewtwo_shadowball_hold_last_spawn_frame: 0,
            mewtwo_shadowball_hold_spawned_this_hold: false,
            mewtwo_shadowball_growing_handle: None,
            mewtwo_shadowball_growth_start_frame: 0,
            last_rollout_status: -1,
            last_hold_status: -1,
        }
    }
}

impl ShinyState {
    /// Nothing pending, with the shiny flag `is_shiny` (the cry name aside,
    /// which `cry_empty` speaks of).
    pub open spec fn cleared(is_shiny: bool, buffer_from: Self) -> Self {
        Self {
            is_shiny: is_shiny,
            shiny_effect_pending: false,
            shiny_effect_delay_timer: -1i32,
            evolution_completion_frame: -1i32,
            delayed_cry_sound: buffer_from.delayed_cry_sound,
            delayed_cry_timer: -1i32,
        }
    }

    pub open spec fn cry_empty(self) -> bool {
        self.delayed_cry_sound@ == Seq::<char>::empty()
    }

    /// Nothing pending.
    pub fn new(is_shiny: bool) -> (r: Self)
        ensures
            r == Self::cleared(is_shiny, r),
            r.cry_empty(),
    {
        Self {
            is_shiny: is_shiny,
            shiny_effect_pending: false,
            shiny_effect_delay_timer: -1,
            evolution_completion_frame: -1,
            delayed_cry_sound: String::new(),
            delayed_cry_timer: -1,
        }
    }
}

impl PlayerEvolutionState {
    /// Both growable buffers (gengarite inputs, delayed cry) are empty.
    pub open spec fn buffers_empty(self) -> bool {
        self.inputs.seq_empty() && self.shiny.cry_empty()
    }

    /// A player who has just appeared, eyes open for `blink_timer` frames
    /// (buffers taken from `b`).
    pub open spec fn fresh(blink_timer: i32, b: Self) -> Self {
        Self {
            stage: EvolutionStage::Gastly,
            current_frame: 0,
            blink: BlinkState { blink_timer: blink_timer, blink_phase: BlinkPhase::Open },
            progress: EvolutionProgress {
                damage_received_this_stage: 0,
                hits_landed_this_stage: 0,
                previous_total_damage: 0,
                evo_attempt_delay_damage_taken_penalty: 0,
                evo_attempt_delay_hits_penalty: 0,
                last_evolution_confirmation_frame: -1i32,
            },
            shadowball: ShadowballTracking::cleared(),
            expression: ExpressionTracking {
                vanilla_expression_tracking: true,
                last_vanilla_expression: None,
                vanilla_expression_changed: false,
                was_attacking_last_frame: false,
            },
            attack: AttackModuleTracking::cleared(),
            evolution: EvolutionRun::idle(EvolutionStage::Gastly),
            items: ItemState {
                everstone_effect_active: false,
                mega_gengar_form_active: false,
                giga_gengar_form_active: false,
                is_in_final_smash_form: false,
            },
            icons: ItemIcons::cleared(),
            inputs: InputTracking::cleared(b.inputs),
            readiness: ReadinessIcons::cleared(),
            mewtwo: MewtwoShadowballTracking::cleared(),
            shiny: ShinyState::cleared(false, b.shiny),
        }
    }

    /// A new player: Gastly with no progress, eyes open for
    /// `initial_blink_timer` frames (drawn by the caller from the game's
    /// random source).
    pub fn new(initial_blink_timer: i32) -> (s: Self)
        requires
            BLINK_OPEN_MIN <= initial_blink_timer <= BLINK_OPEN_MAX,
        ensures
            s == Self::fresh(initial_blink_timer, s),
            s.buffers_empty(),
    {
        Self {
            stage: EvolutionStage::Gastly,
            current_frame: 0,
            blink: BlinkState { blink_timer: initial_blink_timer, blink_phase: BlinkPhase::Open },
            progress: EvolutionProgress {
                damage_received_this_stage: 0,
                hits_landed_this_stage: 0,
                previous_total_damage: 0,
                evo_attempt_delay_damage_taken_penalty: 0,
                evo_attempt_delay_hits_penalty: 0,
                last_evolution_confirmation_frame: -1,
            },
            shadowball: ShadowballTracking::new(),
            expression: ExpressionTracking {
                vanilla_expression_tracking: true,
                last_vanilla_expression: None,
                vanilla_expression_changed: false,
                was_attacking_last_frame: false,
            },
            attack: AttackModuleTracking::new(),
            evolution: EvolutionRun::new(EvolutionStage::Gastly),
            items: ItemState {
                everstone_effect_active: false,
                mega_gengar_form_active: false,
                giga_gengar_form_active: false,
                is_in_final_smash_form: false,
            },
            icons: ItemIcons::new(),
            inputs: InputTracking::new(),
            readiness: ReadinessIcons::new(),
            mewtwo: MewtwoShadowballTracking::new(),
            shiny: ShinyState::new(false),
        }
    }

    /// Hides and unlocks the four evolution readiness icons.
    pub fn reset_evo_readiness_icons(&mut self)
        ensures
            *final(self) == (Self { readiness: ReadinessIcons::cleared(), ..*old(self) }),
    {
        self.readiness = ReadinessIcons::new();
    }

    /// The blink phase that follows `p`, and how long it lasts; a reopened eye
    /// stays open for `open_frames`.
    pub open spec fn next_blink(p: BlinkPhase, open_frames: i32) -> BlinkState {
        match p {
            BlinkPhase::Open => BlinkState { blink_phase: BlinkPhase::HalfClose, blink_timer: 3 },
            BlinkPhase::HalfClose => BlinkState { blink_phase: BlinkPhase::FullClose, blink_timer: 5 },
            BlinkPhase::FullClose => BlinkState { blink_phase: BlinkPhase::HalfOpen, blink_timer: 3 },
            BlinkPhase::HalfOpen => BlinkState { blink_phase: BlinkPhase::Open, blink_timer: open_frames },
        }
    }

    /// Law: a blink closes the eyes halfway for 3 frames, fully for 5, opens
    /// them halfway for 3, and then reopens them for the drawn time; four
    /// phase changes bring open eyes back to open.
    pub proof fn lemma_blink_cycle(a: i32, b: i32, c: i32, d: i32)
        ensures
            Self::next_blink(BlinkPhase::Open, a) == (BlinkState { blink_phase: BlinkPhase::HalfClose, blink_timer: 3 }),
            Self::next_blink(BlinkPhase::HalfClose, b) == (BlinkState { blink_phase: BlinkPhase::FullClose, blink_timer: 5 }),
            Self::next_blink(BlinkPhase::FullClose, c) == (BlinkState { blink_phase: BlinkPhase::HalfOpen, blink_timer: 3 }),
            Self::next_blink(Self::next_blink(Self::next_blink(Self::next_blink(BlinkPhase::Open, a).blink_phase, b).blink_phase, c).blink_phase, d)
                == (BlinkState { blink_phase: BlinkPhase::Open, blink_timer: d }),
    {
    }

    /// Moves the eyes to the next blink phase; reopened eyes stay open for
    /// `next_open_timer` frames (drawn by the caller from the game's random source).
    pub fn advance_blink_phase(&mut self, next_open_timer: i32)
        requires
            BLINK_OPEN_MIN <= next_open_timer <= BLINK_OPEN_MAX,
        ensures
            *final(self) == (Self {
                blink: Self::next_blink(old(self).blink.blink_phase, next_open_timer),
                ..*old(self)
            }),
    {
        self.blink = match self.blink.blink_phase {
            BlinkPhase::Open => BlinkState { blink_phase: BlinkPhase::HalfClose, blink_timer: 3 },
            BlinkPhase::HalfClose => BlinkState { blink_phase: BlinkPhase::FullClose, blink_timer: 5 },
            BlinkPhase::FullClose => BlinkState { blink_phase: BlinkPhase::HalfOpen, blink_timer: 3 },
            BlinkPhase::HalfOpen => BlinkState { blink_phase: BlinkPhase::Open, blink_timer: next_open_timer },
        };
    }

    /// The blink after one frame: the timer counts down, and on reaching
    /// zero the eyes move to the next phase (reopened eyes stay open for
    /// `open_frames`).
    pub open spec fn blink_ticked(b: BlinkState, open_frames: i32) -> BlinkState {
        let t = (b.blink_timer - 1) as i32;
        if t <= 0 { Self::next_blink(b.blink_phase, open_frames) } else { BlinkState { blink_timer: t, ..b } }
    }

    /// One frame of blinking (see `blink_ticked`); reopened eyes stay open
    /// for `next_open_timer` frames (drawn by the caller from the game's
    /// random source).
    pub fn tick_blink(&mut self, next_open_timer: i32)
        requires
            old(self).blink.blink_timer > i32::MIN,
            BLINK_OPEN_MIN <= next_open_timer <= BLINK_OPEN_MAX,
        ensures
            *final(self) == (Self { blink: Self::blink_ticked(old(self).blink, next_open_timer), ..*old(self) }),
    {
        self.blink.blink_timer = self.blink.blink_timer - 1;
        if self.blink.blink_timer <= 0 {
            self.advance_blink_phase(next_open_timer);
        }
    }

    /// Forgets what the attack module reported.
    pub fn reset_attackmodule_state(&mut self)
        ensures
            *final(self) == (Self { attack: AttackModuleTracking::cleared(), ..*old(self) }),
    {
        self.attack = AttackModuleTracking::new();
    }

    /// The expression tracking with the last vanilla expression forgotten.
    pub open spec fn vanilla_cleared(e: ExpressionTracking) -> ExpressionTracking {
        ExpressionTracking { last_vanilla_expression: None, vanilla_expression_changed: false, ..e }
    }

    /// Forgets the last vanilla expression seen.
    pub fn reset_vanilla_expression_state(&mut self)
        ensures
            *final(self) == (Self { expression: Self::vanilla_cleared(old(self).expression), ..*old(self) }),
    {
        self.expression.last_vanilla_expression = None;
        self.expression.vanilla_expression_changed = false;
    }

    /// Turns vanilla expression tracking on or off; turning it off forgets the
    /// last expression seen.
    pub fn set_vanilla_expression_tracking(&mut self, enabled: bool)
        ensures
            final(self).expression.vanilla_expression_tracking == enabled,
            !enabled ==> final(self).expression.last_vanilla_expression is None,
            !enabled ==> !final(self).expression.vanilla_expression_changed,
            enabled ==> final(self).expression.last_vanilla_expression == old(self).expression.last_vanilla_expression,
            enabled ==> final(self).expression.vanilla_expression_changed == old(self).expression.vanilla_expression_changed,
            final(self).expression.was_attacking_last_frame == old(self).expression.was_attacking_last_frame,
            *final(self) == (Self { expression: final(self).expression, ..*old(self) }),
    {
        self.expression.vanilla_expression_tracking = enabled;
        if !enabled {
            self.expression.last_vanilla_expression = None;
            self.expression.vanilla_expression_changed = false;
        }
    }

    /// The state after `reset_for_new_stage(new_stage, blink_timer)`, buffers
    /// taken from `b`.
    pub open spec fn stage_reset(self, new_stage: EvolutionStage, blink_timer: i32, b: Self) -> Self {
        Self {
            stage: new_stage,
            current_frame: self.current_frame,
            blink: BlinkState { blink_timer: blink_timer, blink_phase: BlinkPhase::Open },
            progress: EvolutionProgress {
                damage_received_this_stage: 0,
                hits_landed_this_stage: 0,
                evo_attempt_delay_damage_taken_penalty: 0,
                evo_attempt_delay_hits_penalty: 0,
                ..self.progress
            },
            shadowball: ShadowballTracking::cleared(),
            expression: Self::vanilla_cleared(self.expression),
            attack: AttackModuleTracking::cleared(),
            evolution: EvolutionRun {
                last_status_during_evolution: self.evolution.last_status_during_evolution,
                ..EvolutionRun::idle(self.evolution.evolution_target_stage)
            },
            items: ItemState { everstone_effect_active: false, is_in_final_smash_form: false, ..self.items },
            icons: ItemIcons {
                icon_start_pos_x: self.icons.icon_start_pos_x,
                icon_start_pos_y: self.icons.icon_start_pos_y,
                ..ItemIcons::cleared()
            },
            inputs: InputTracking {
                last_debug_taunt_frame: self.inputs.last_debug_taunt_frame,
                ..InputTracking::cleared(b.inputs)
            },
            readiness: ReadinessIcons::cleared(),
            mewtwo: MewtwoShadowballTracking::cleared(),
            shiny: ShinyState::cleared(self.shiny.is_shiny, b.shiny),
        }
    }

    /// Starts `new_stage` from scratch: no progress, no penalties, no item
    /// icons, no button sequence, no pending effect; the eyes reopen for
    /// `next_blink_timer` frames. The damage baseline, the chosen final smash
    /// form and the shiny flag are kept.
    pub fn reset_for_new_stage(&mut self, new_stage: EvolutionStage, next_blink_timer: i32)
        requires
            BLINK_OPEN_MIN <= next_blink_timer <= BLINK_OPEN_MAX,
        ensures
            *final(self) == old(self).stage_reset(new_stage, next_blink_timer, *final(self)),
            final(self).buffers_empty(),
    {
        self.stage = new_stage;
        self.progress.damage_received_this_stage = 0;
        self.progress.hits_landed_this_stage = 0;
        self.progress.evo_attempt_delay_damage_taken_penalty = 0;
        self.progress.evo_attempt_delay_hits_penalty = 0;
        self.shadowball = ShadowballTracking::new();
        self.reset_vanilla_expression_state();
        self.reset_attackmodule_state();
        let last_status = self.evolution.last_status_during_evolution;
        let target = self.evolution.evolution_target_stage;
        self.evolution = EvolutionRun::new(target);
        self.evolution.last_status_during_evolution = last_status;
        self.blink = BlinkState { blink_timer: next_blink_timer, blink_phase: BlinkPhase::Open };
        self.items.everstone_effect_active = false;
        self.items.is_in_final_smash_form = false;
        let pos_x = self.icons.icon_start_pos_x;
        let pos_y = self.icons.icon_start_pos_y;
        self.icons = ItemIcons::new();
        self.icons.icon_start_pos_x = pos_x;
        self.icons.icon_start_pos_y = pos_y;
        let debug_frame = self.inputs.last_debug_taunt_frame;
        self.inputs.up_taunt_press_count_linking_cord = 0;
        self.inputs.last_up_taunt_input_frame_linking_cord = 0;
        self.inputs.manual_linking_cord_evo_attempted_this_frame = false;
        self.inputs.linking_cord_consumed_everstone_this_frame = false;
        self.inputs.special_press_count_everstone = 0;
        self.inputs.last_special_press_frame_everstone = 0;
        self.inputs.down_taunt_cancel_press_count = 0;
        self.inputs.last_down_taunt_cancel_input_frame = 0;
        self.inputs.gengarite_input_sequence.clear();
        self.inputs.last_gengarite_input_frame = 0;
        self.inputs.s_taunt_r_press_count_dynamax = 0;
        self.inputs.last_s_taunt_r_input_frame_dynamax = 0;
        self.inputs.s_taunt_pending_left = false;
        self.inputs.last_debug_taunt_frame = debug_frame;
        self.mewtwo = MewtwoShadowballTracking::new();
        self.shiny.shiny_effect_pending = false;
        self.shiny.shiny_effect_delay_timer = -1;
        self.shiny.evolution_completion_frame = -1;
        self.shiny.delayed_cry_sound = String::new();
        self.shiny.delayed_cry_timer = -1;
        self.reset_evo_readiness_icons();
    }

    /// The state after `full_reset_on_respawn(blink_timer)`, buffers taken from `b`.
    pub open spec fn respawn_reset(self, blink_timer: i32, b: Self) -> Self {
        let r = self.stage_reset(EvolutionStage::Gastly, blink_timer, b);
        Self {
            items: ItemState { mega_gengar_form_active: false, giga_gengar_form_active: false, ..r.items },
            progress: EvolutionProgress {
                previous_total_damage: 0,
                last_evolution_confirmation_frame: -1i32,
                ..r.progress
            },
            ..r
        }
    }

    /// Back to a Gastly with no progress, no final smash form chosen and no
    /// damage baseline, as after a death.
    pub fn full_reset_on_respawn(&mut self, next_blink_timer: i32)
        requires
            BLINK_OPEN_MIN <= next_blink_timer <= BLINK_OPEN_MAX,
        ensures
            *final(self) == old(self).respawn_reset(next_blink_timer, *final(self)),
            final(self).buffers_empty(),
    {
        self.reset_for_new_stage(EvolutionStage::Gastly, next_blink_timer);
        self.items.mega_gengar_form_active = false;
        self.items.giga_gengar_form_active = false;
        self.progress.previous_total_damage = 0;
        self.progress.damage_received_this_stage = 0;
        self.progress.hits_landed_this_stage = 0;
        self.progress.evo_attempt_delay_damage_taken_penalty = 0;
        self.progress.evo_attempt_delay_hits_penalty = 0;
        self.progress.last_evolution_confirmation_frame = -1;
        self.mewtwo = MewtwoShadowballTracking::new();
        self.shiny.shiny_effect_pending = false;
        self.shiny.shiny_effect_delay_timer = -1;
        self.shiny.evolution_completion_frame = -1;
    }
}

} // verus!
