use gastly::stage::{BlinkPhase, EvolutionStage, ExpressionType, Mesh, mesh_hash};
use gastly::frame::{MatchResetTracker, handle_shield_break_effects, reset_on_match_start_cancelling_evolution};
use gastly::attack::map_vanilla_to_custom_expression;
use gastly::state::PlayerEvolutionState;
use gastly::toggles::{ToggleInput, handle_icon_toggles_and_effects};
use gastly::ui::{CutinInput, UiTracker, cutins_when_enabled, handle_cutin_effects, track_cry_sound_playback};

fn h(name: &str) -> u64 {
    hash40::hash40(name).0
}

fn quiet() -> CutinInput {
    CutinInput { final_flag: false, status: 0, haunter_ready: false, gengar_ready: false }
}

#[test]
fn cutins_switched_off_only_clear_the_ready_flags() {
    let mut ui = UiTracker::new();
    let s = PlayerEvolutionState::new(200);
    let input = CutinInput { final_flag: true, status: 0x1E0, haunter_ready: true, gengar_ready: true };
    let plan = handle_cutin_effects(&mut ui, &s, input);
    assert!(plan.clear_haunter_ready);
    assert!(plan.clear_gengar_ready);
    assert!(plan.cutins.is_empty());
    assert_eq!(ui, UiTracker::new());
}

#[test]
fn haunter_cutin_follows_a_recent_cry_once() {
    let mut s = PlayerEvolutionState::new(200);
    s.stage = EvolutionStage::Haunter;
    s.current_frame = 100;
    s.evolution.evolution_just_completed_this_frame = true;
    let mut ui = UiTracker::new();
    track_cry_sound_playback(&mut ui, h("cry_haunter"), 80);
    assert_eq!(ui.last_cry_haunter_frame, 80);
    let (u1, cutins) = cutins_when_enabled(ui, &s, quiet());
    assert_eq!(cutins, vec![h("ui_chara_haunter_00")]);
    assert!(u1.cutin_played_this_evolution);
    let (_, again) = cutins_when_enabled(u1, &s, quiet());
    assert!(again.is_empty());
}

#[test]
fn an_old_cry_brings_no_cutin() {
    let mut s = PlayerEvolutionState::new(200);
    s.stage = EvolutionStage::Gengar;
    s.current_frame = 100;
    s.evolution.evolution_just_completed_this_frame = true;
    let mut ui = UiTracker::new();
    ui.last_cry_gengar_frame = 69;
    let (u1, cutins) = cutins_when_enabled(ui, &s, quiet());
    assert!(cutins.is_empty());
    assert!(!u1.cutin_played_this_evolution);
    ui.last_cry_gengar_frame = 70;
    let (_, cutins) = cutins_when_enabled(ui, &s, quiet());
    assert_eq!(cutins, vec![h("ui_chara_gengar_00")]);
}

#[test]
fn mega_cutin_shows_once_per_final_smash() {
    let mut s = PlayerEvolutionState::new(200);
    s.items.mega_gengar_form_active = true;
    s.items.is_in_final_smash_form = true;
    let input = CutinInput { final_flag: true, status: 0x1E0, haunter_ready: false, gengar_ready: false };
    let (u1, cutins) = cutins_when_enabled(UiTracker::new(), &s, input);
    assert_eq!(cutins, vec![h("ui_chara_mega_gengar_00")]);
    assert!(u1.cutin_played_mega);
    let (u2, again) = cutins_when_enabled(u1, &s, input);
    assert!(again.is_empty());
    let (u3, _) = cutins_when_enabled(u2, &s, quiet());
    assert!(!u3.cutin_played_mega);
    let (_, next) = cutins_when_enabled(u3, &s, input);
    assert_eq!(next, vec![h("ui_chara_mega_gengar_00")]);
}

#[test]
fn ready_flags_bring_their_cutins_last() {
    let mut s = PlayerEvolutionState::new(200);
    s.items.giga_gengar_form_active = true;
    s.items.is_in_final_smash_form = true;
    let input = CutinInput { final_flag: true, status: 0x1E0, haunter_ready: true, gengar_ready: true };
    let (_, cutins) = cutins_when_enabled(UiTracker::new(), &s, input);
    assert_eq!(cutins, vec![h("ui_chara_giga_gengar_00"), h("ui_chara_haunter_00"), h("ui_chara_gengar_00")]);
}

#[test]
fn vanilla_eyes_map_to_the_stage_eye() {
    let mut s = PlayerEvolutionState::new(200);
    s.stage = EvolutionStage::Haunter;
    let blink = mesh_hash(Mesh::VanillaEye(ExpressionType::Blink));
    assert_eq!(map_vanilla_to_custom_expression(&s, blink), Some(Mesh::Eye(EvolutionStage::Haunter, ExpressionType::Blink)));
    let down = mesh_hash(Mesh::VanillaEye(ExpressionType::Down));
    assert_eq!(map_vanilla_to_custom_expression(&s, down), Some(Mesh::Eye(EvolutionStage::Haunter, ExpressionType::Down)));
    assert_eq!(map_vanilla_to_custom_expression(&s, h("not_an_eye")), None);
}

#[test]
fn shield_break_effects_start_once_per_flight() {
    let mut last = -1;
    assert!(handle_shield_break_effects(&mut last, 0x4A, 2, 0x4A));
    assert_eq!(last, 0x4A);
    assert!(!handle_shield_break_effects(&mut last, 0x4A, 2, 0x4A));
    assert!(!handle_shield_break_effects(&mut last, 0, 2, 0x4A));
    assert_eq!(last, 0);
    assert!(handle_shield_break_effects(&mut last, 0x4A, 2, 0x4A));
    let mut other = -1;
    assert!(!handle_shield_break_effects(&mut other, 0x4A, 8, 0x4A));
    assert_eq!(other, -1);
}

#[test]
fn blinking_counts_down_then_closes_halfway() {
    let mut s = PlayerEvolutionState::new(200);
    s.blink.blink_timer = 2;
    s.tick_blink(200);
    assert_eq!(s.blink.blink_timer, 1);
    assert_eq!(s.blink.blink_phase, BlinkPhase::Open);
    s.tick_blink(200);
    assert_eq!(s.blink.blink_phase, BlinkPhase::HalfClose);
    assert_eq!(s.blink.blink_timer, 3);
}

#[test]
fn final_smash_cancels_a_running_evolution() {
    let mut s = PlayerEvolutionState::new(200);
    assert!(!s.cancel_evolution_on_final_smash(0x1E0));
    s.start_evolution_process(EvolutionStage::Haunter, true);
    assert!(s.evolution.is_evolving);
    assert!(!s.cancel_evolution_on_final_smash(0));
    assert!(s.evolution.is_evolving);
    assert!(s.cancel_evolution_on_final_smash(0x1E0));
    assert!(!s.evolution.is_evolving);
    assert!(s.evolution.evolution_just_cancelled_this_frame);
    assert_eq!(s.progress.evo_attempt_delay_damage_taken_penalty, 15_000);
}

#[test]
fn match_start_stops_an_evolution_with_a_fresh_penalty() {
    let mut s = PlayerEvolutionState::new(200);
    s.progress.damage_received_this_stage = 20_000;
    s.progress.evo_attempt_delay_damage_taken_penalty = 30_000;
    s.start_evolution_process(EvolutionStage::Haunter, true);
    let mut t = MatchResetTracker::new();
    assert_eq!(reset_on_match_start_cancelling_evolution(&mut s, &mut t, 0, true, false, 0), (true, true));
    assert!(!s.evolution.is_evolving);
    assert_eq!(s.progress.damage_received_this_stage, 0);
    assert_eq!(s.progress.evo_attempt_delay_damage_taken_penalty, 15_000);
    assert_eq!(t.last_reset_damage, 0);
    let mut quiet = PlayerEvolutionState::new(200);
    quiet.progress.damage_received_this_stage = 20_000;
    assert_eq!(reset_on_match_start_cancelling_evolution(&mut quiet, &mut t, 9, true, false, 0), (false, false));
    assert_eq!(quiet.progress.damage_received_this_stage, 20_000);
}

#[test]
fn a_stale_gengarite_sequence_is_dropped() {
    let mut s = PlayerEvolutionState::new(200);
    s.inputs.gengarite_input_sequence = vec![7];
    s.inputs.last_gengarite_input_frame = 10;
    s.current_frame = 40;
    let input = ToggleInput { button: None, is_guard_status: false, on_ground: true, in_damage_status: false, pos_x: 0, pos_y: 0 };
    handle_icon_toggles_and_effects(&mut s, input);
    assert_eq!(s.inputs.gengarite_input_sequence, vec![7]);
    s.current_frame = 41;
    handle_icon_toggles_and_effects(&mut s, input);
    assert!(s.inputs.gengarite_input_sequence.is_empty());
}
