use gastly::stage::{EvolutionStage, BlinkPhase, ExpressionType, Mesh};
use gastly::state::PlayerEvolutionState;
use gastly::icons::{Icon, enforce_icon_exclusivity, deactivate_all_pos_sensitive_icons};
use gastly::readiness::{ReadinessTracker, handle_evolution_readiness_icons};
use gastly::toggles::{ToggleButton, ToggleInput, handle_icon_toggles_and_effects};
use gastly::shadowball::{ShadowballInput, ShadowballState, detect_shadowball_hitbox_state};
use gastly::model::{ModelInput, ModelScene, WeakenedAction, WeakenedTracker, set_active_eye_mesh};
use gastly::looping::{LoopFlags, LoopInput, LoopSound, LoopTracker, LoopingSoundState, SoundCommand,
    handle_persistent_looping_sounds};
use gastly::tracking::HealTracker;
use gastly::frame::{FinalSmashTracker, handle_final_smash_model_swap, handle_final_smash_aggressive_fixes};
use gastly::sounds::{CueSound, cue_sound, icon_cue};

fn fresh() -> PlayerEvolutionState {
    PlayerEvolutionState::new(200)
}

fn idle_input(status: i32) -> ShadowballInput {
    ShadowballInput {
        status,
        motion: 0,
        charge_count_milli: 0,
        is_max_charge: false,
        hold_frames: 0,
        hold_max_frames: 0,
        has_active_hitbox: false,
    }
}

#[test]
fn blink_cycles_through_four_phases() {
    let mut s = fresh();
    s.advance_blink_phase(250);
    assert_eq!((s.blink.blink_phase, s.blink.blink_timer), (BlinkPhase::HalfClose, 3));
    s.advance_blink_phase(250);
    assert_eq!((s.blink.blink_phase, s.blink.blink_timer), (BlinkPhase::FullClose, 5));
    s.advance_blink_phase(250);
    assert_eq!((s.blink.blink_phase, s.blink.blink_timer), (BlinkPhase::HalfOpen, 3));
    s.advance_blink_phase(250);
    assert_eq!((s.blink.blink_phase, s.blink.blink_timer), (BlinkPhase::Open, 250));
}

#[test]
fn raising_an_icon_takes_the_others_down() {
    let mut s = fresh();
    s.icons.linking_cord_visual_icon_active = true;
    s.icons.linking_cord_visual_icon_timer = 100;
    s.icons.gengarite_icon_display_active = true;
    s.icons.gengarite_icon_display_timer = 50;
    enforce_icon_exclusivity(&mut s, Some(Icon::Everstone));
    assert!(!s.icons.linking_cord_visual_icon_active);
    assert!(!s.icons.gengarite_icon_display_active);
    s.icons.everstone_icon_active = true;
    s.icons.is_any_pos_sensitive_icon_active = true;
    deactivate_all_pos_sensitive_icons(&mut s);
    assert!(!s.icons.everstone_icon_active);
    assert!(!s.icons.is_any_pos_sensitive_icon_active);
}

#[test]
fn both_conditions_show_only_the_ready_icon() {
    let mut s = fresh();
    s.progress.damage_received_this_stage = 40_000;
    s.progress.hits_landed_this_stage = 12;
    let mut t = ReadinessTracker::new();
    let f = handle_evolution_readiness_icons(&mut s, &mut t, false);
    assert!(f.ss_icon_visible);
    assert!(!f.t_icon_visible);
    assert!(!f.d_icon_visible);
}

#[test]
fn damage_condition_alone_shows_its_icon() {
    let mut s = fresh();
    s.progress.damage_received_this_stage = 40_000;
    s.progress.hits_landed_this_stage = 2;
    let mut t = ReadinessTracker::new();
    let f = handle_evolution_readiness_icons(&mut s, &mut t, false);
    assert!(f.t_icon_visible);
    assert!(!f.d_icon_visible);
    assert!(!f.ss_icon_visible);
}

#[test]
fn readiness_icons_hidden_while_evolving() {
    let mut s = fresh();
    s.progress.damage_received_this_stage = 40_000;
    s.progress.hits_landed_this_stage = 12;
    s.start_evolution_process(EvolutionStage::Haunter, false);
    let mut t = ReadinessTracker::new();
    let f = handle_evolution_readiness_icons(&mut s, &mut t, false);
    assert!(!f.t_icon_visible && !f.d_icon_visible && !f.ss_icon_visible && !f.se_icon_visible);
}

#[test]
fn double_special_toggles_the_everstone() {
    let mut s = fresh();
    let press = ToggleInput { button: Some(ToggleButton::Special), is_guard_status: true, on_ground: true,
        in_damage_status: false, pos_x: 0, pos_y: 0 };
    s.current_frame = 100;
    let first = handle_icon_toggles_and_effects(&mut s, press);
    assert_eq!(first.cue, None);
    assert!(!s.items.everstone_effect_active);
    s.current_frame = 110;
    let second = handle_icon_toggles_and_effects(&mut s, press);
    assert_eq!(second.cue, Some(Icon::Everstone));
    assert!(s.items.everstone_effect_active);
    assert!(second.everstone_visible);
    assert!(!second.linking_cord_visible && !second.gengarite_visible && !second.dynamax_visible);
    assert_eq!(icon_cue(Icon::Everstone), CueSound::Everstone);
    assert_eq!(cue_sound(CueSound::Everstone), ("everstone", 130));
}

#[test]
fn double_side_taunt_picks_the_gengar_form() {
    let mut s = fresh();
    s.stage = EvolutionStage::Gengar;
    let right = ToggleInput { button: Some(ToggleButton::AppealSideR), is_guard_status: true, on_ground: true,
        in_damage_status: false, pos_x: 0, pos_y: 0 };
    s.current_frame = 200;
    handle_icon_toggles_and_effects(&mut s, right);
    s.current_frame = 205;
    let f = handle_icon_toggles_and_effects(&mut s, right);
    assert_eq!(f.cue, Some(Icon::Dynamax));
    assert!(s.items.giga_gengar_form_active);
    assert!(!s.items.mega_gengar_form_active);
}

#[test]
fn double_left_side_taunt_picks_the_mega_form() {
    let mut s = fresh();
    s.stage = EvolutionStage::Gengar;
    let left = ToggleInput { button: Some(ToggleButton::AppealSideL), is_guard_status: true, on_ground: true,
        in_damage_status: false, pos_x: 0, pos_y: 0 };
    s.current_frame = 200;
    handle_icon_toggles_and_effects(&mut s, left);
    s.current_frame = 205;
    let f = handle_icon_toggles_and_effects(&mut s, left);
    assert_eq!(f.cue, Some(Icon::Gengarite));
    assert!(s.items.mega_gengar_form_active);
    assert!(!s.items.giga_gengar_form_active);
}

#[test]
fn mixed_side_taunts_pick_no_form() {
    let mut s = fresh();
    s.stage = EvolutionStage::Gengar;
    let left = ToggleInput { button: Some(ToggleButton::AppealSideL), is_guard_status: true, on_ground: true,
        in_damage_status: false, pos_x: 0, pos_y: 0 };
    let right = ToggleInput { button: Some(ToggleButton::AppealSideR), ..left };
    s.current_frame = 200;
    handle_icon_toggles_and_effects(&mut s, left);
    s.current_frame = 205;
    let f = handle_icon_toggles_and_effects(&mut s, right);
    assert_eq!(f.cue, None);
    assert!(!s.items.giga_gengar_form_active);
    assert!(!s.items.mega_gengar_form_active);
    assert!(!f.dynamax_visible);
    assert_eq!(s.inputs.s_taunt_r_press_count_dynamax, 1);
    s.current_frame = 210;
    let f = handle_icon_toggles_and_effects(&mut s, left);
    assert_eq!(f.cue, None);
    assert_eq!(s.inputs.s_taunt_r_press_count_dynamax, 1);
    s.current_frame = 215;
    let f = handle_icon_toggles_and_effects(&mut s, left);
    assert_eq!(f.cue, Some(Icon::Gengarite));
}

#[test]
fn ground_charge_shows_shadowball_after_14_frames() {
    let mut s = fresh();
    let hold = idle_input(0x1E1);
    let mut last = ShadowballState::NotActive;
    for _ in 0..15 {
        last = detect_shadowball_hitbox_state(&mut s, hold);
    }
    assert_eq!(s.shadowball.shadowball_status_frames, 15);
    assert_eq!(last, ShadowballState::ActiveFrameBased);
    assert!(s.shadowball.shadowball_was_sufficiently_charged);
}

#[test]
fn weakened_fighter_half_closes_its_eyes() {
    let mut s = fresh();
    let mut w = WeakenedTracker::new();
    let inp = ModelInput { shadowball: idle_input(0), motion_frame_milli: 0, final_flag: false, damage: 160_000,
        entry_id: 0, expression_override: None };
    let (scene, act) = set_active_eye_mesh(&mut s, &mut w, inp);
    assert_eq!(scene, ModelScene::Normal { hide_gastly_body: false, tongue: None,
        eye: Mesh::Eye(EvolutionStage::Gastly, ExpressionType::HalfBlink) });
    assert_eq!(act, WeakenedAction::Spawn);
    let calm = ModelInput { damage: 20_000, ..inp };
    let (scene2, _) = set_active_eye_mesh(&mut s, &mut w, calm);
    assert_eq!(scene2, ModelScene::Normal { hide_gastly_body: false, tongue: None,
        eye: Mesh::Eye(EvolutionStage::Gastly, ExpressionType::Normal) });
}

#[test]
fn fresh_full_restore_plays_restore_not_potion() {
    let mut s = fresh();
    s.current_frame = 1000;
    let mut sounds = LoopingSoundState {
        flags: LoopFlags { evolving_active: false, evolving_timer: 0, evolve_ss_active: false, evolve_ss_timer: 0,
            shadowball_charge_active: false, shadowball_active: false, restore_active: false, restore_timer: 0,
            potion_active: false, potion_timer: 0, grab_burn_active: false, megasymbol_active: false, megasymbol_timer: 0 },
        tracker: LoopTracker::new(),
    };
    let mut heal = HealTracker::new();
    heal.heal_amount = -60_000;
    heal.heal_frame = 1000;
    let inp = LoopInput { shadowball: idle_input(0), heal_excluded_status: false, entry_id: 0, is_bind: false,
        is_furafura: false, is_catch_status: false, final_flag: false };
    let cmds = handle_persistent_looping_sounds(&mut s, &mut sounds, &mut heal, inp);
    assert!(cmds.contains(&SoundCommand::Play { sound: LoopSound::Restore, looped: true, volume_pct: 150 }));
    assert!(!cmds.iter().any(|c| matches!(c, SoundCommand::Play { sound: LoopSound::Potion, .. })));
    assert!(sounds.flags.restore_active);
    assert!(!sounds.flags.potion_active);
    assert_eq!(heal.heal_amount, 0);
}

#[test]
fn only_gengar_with_a_form_transforms() {
    let final_motion = hash40::hash40("final").0;
    let mut s = fresh();
    s.stage = EvolutionStage::Gengar;
    s.items.mega_gengar_form_active = true;
    let mut t = FinalSmashTracker { last_fs_state: false, last_motion: 0, last_fs_form: false };
    let swap = handle_final_smash_model_swap(&mut s, &mut t, 0, true, final_motion);
    assert_eq!(swap.enter_form, Some(Some(Mesh::MegaGengarBody)));
    assert!(s.items.is_in_final_smash_form);
    let mut h = fresh();
    h.stage = EvolutionStage::Haunter;
    h.items.mega_gengar_form_active = true;
    let mut t2 = FinalSmashTracker { last_fs_state: false, last_motion: 0, last_fs_form: false };
    let swap2 = handle_final_smash_model_swap(&mut h, &mut t2, 0, true, final_motion);
    assert_eq!(swap2.enter_form, None);
    assert!(!h.items.is_in_final_smash_form);
}

#[test]
fn final_smash_start_becomes_the_form_and_ends_without_ball() {
    let mut s = fresh();
    s.stage = EvolutionStage::Gengar;
    s.items.giga_gengar_form_active = true;
    let f = handle_final_smash_aggressive_fixes(&mut s, 0x1E0, true, 0, false);
    assert_eq!(f.enter_form, Some(Mesh::GigaGengarBody));
    assert!(f.kill_final_auras && f.kill_default_background);
    assert!(s.items.is_in_final_smash_form);
    let end = handle_final_smash_aggressive_fixes(&mut s, 0x1E9, true, 0, false);
    assert_eq!(end.end_keep_form, Some(Some(Mesh::GigaGengarBody)));
    let gone = handle_final_smash_aggressive_fixes(&mut s, 5, false, 0, false);
    assert!(gone.restore_gengar);
    assert!(!s.items.is_in_final_smash_form);
    let mut g = fresh();
    let catch = handle_final_smash_aggressive_fixes(&mut g, 5, false, 0, false);
    assert!(catch.kill_catch_effect);
    assert!(!handle_final_smash_aggressive_fixes(&mut g, 5, false, 0, true).kill_catch_effect);
}
