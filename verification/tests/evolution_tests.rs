use gastly::stage::{EvolutionStage, BlinkPhase, Mesh, next_stage, mesh_hash};
use gastly::state::PlayerEvolutionState;
use gastly::evolution::{handle_evolution_process, advance_evolution_animation};
use gastly::tracking::{get_instance_key, register_hit};
use gastly::reset::{training_mode_reset_handler, force_gastly_reset_for_marked_costume, cancel_evolution_for_entry};

fn fresh() -> PlayerEvolutionState {
    PlayerEvolutionState::new(200)
}

#[test]
fn new_player_is_gastly_without_progress() {
    let s = fresh();
    assert_eq!(s.stage, EvolutionStage::Gastly);
    assert_eq!(s.current_frame, 0);
    assert_eq!(s.blink.blink_timer, 200);
    assert_eq!(s.blink.blink_phase, BlinkPhase::Open);
    assert_eq!(s.progress.damage_received_this_stage, 0);
    assert_eq!(s.progress.hits_landed_this_stage, 0);
    assert!(!s.evolution.is_evolving);
    assert!(s.expression.vanilla_expression_tracking);
}

#[test]
fn gastly_needs_35_percent_and_10_hits() {
    let mut s = fresh();
    s.progress.damage_received_this_stage = 35_000;
    s.progress.hits_landed_this_stage = 9;
    assert!(!s.evolution_conditions_met());
    s.progress.hits_landed_this_stage = 10;
    assert!(s.evolution_conditions_met());
    s.progress.damage_received_this_stage = 34_999;
    assert!(!s.evolution_conditions_met());
}

#[test]
fn haunter_needs_50_percent_and_15_hits() {
    let mut s = fresh();
    s.stage = EvolutionStage::Haunter;
    s.progress.damage_received_this_stage = 50_000;
    s.progress.hits_landed_this_stage = 14;
    assert!(!s.evolution_conditions_met());
    s.progress.hits_landed_this_stage = 15;
    assert!(s.evolution_conditions_met());
}

#[test]
fn gengar_never_evolves() {
    let mut s = fresh();
    s.stage = EvolutionStage::Gengar;
    s.progress.damage_received_this_stage = 500_000;
    s.progress.hits_landed_this_stage = 500;
    assert!(!s.evolution_conditions_met());
    assert_eq!(next_stage(EvolutionStage::Gengar), None);
    assert_eq!(next_stage(EvolutionStage::Gastly), Some(EvolutionStage::Haunter));
    assert_eq!(next_stage(EvolutionStage::Haunter), Some(EvolutionStage::Gengar));
}

#[test]
fn ready_gastly_starts_evolving_into_haunter() {
    let mut s = fresh();
    s.progress.damage_received_this_stage = 40_000;
    s.progress.hits_landed_this_stage = 12;
    let cancelled = handle_evolution_process(&mut s, false, true, false, false);
    assert!(!cancelled);
    assert!(s.evolution.is_evolving);
    assert_eq!(s.evolution.evolution_target_stage, EvolutionStage::Haunter);
    assert_eq!(s.evolution.evolution_timer, 0);
}

#[test]
fn everstone_blocks_automatic_evolution() {
    let mut s = fresh();
    s.progress.damage_received_this_stage = 40_000;
    s.progress.hits_landed_this_stage = 12;
    s.items.everstone_effect_active = true;
    handle_evolution_process(&mut s, false, true, false, false);
    assert!(!s.evolution.is_evolving);
    s.start_evolution_process(EvolutionStage::Haunter, false);
    assert!(!s.evolution.is_evolving);
    s.start_evolution_process(EvolutionStage::Haunter, true);
    assert!(s.evolution.is_evolving);
}

#[test]
fn two_down_taunts_cancel_with_penalty() {
    let mut s = fresh();
    s.progress.damage_received_this_stage = 40_000;
    s.progress.hits_landed_this_stage = 12;
    s.start_evolution_process(EvolutionStage::Haunter, false);
    assert!(s.evolution.is_evolving);
    s.current_frame = 100;
    assert!(!handle_evolution_process(&mut s, true, false, true, false));
    assert_eq!(s.inputs.down_taunt_cancel_press_count, 1);
    s.current_frame = 130;
    assert!(handle_evolution_process(&mut s, true, false, true, false));
    assert!(!s.evolution.is_evolving);
    assert!(s.evolution.evolution_just_cancelled_this_frame);
    assert_eq!(s.progress.evo_attempt_delay_damage_taken_penalty, 15_000);
    assert_eq!(s.progress.damage_received_this_stage, 0);
    assert_eq!(s.progress.hits_landed_this_stage, 0);
    assert_eq!(s.stage, EvolutionStage::Gastly);
}

#[test]
fn cancelled_gastly_then_needs_50_percent() {
    let mut s = fresh();
    s.progress.damage_received_this_stage = 40_000;
    s.progress.hits_landed_this_stage = 12;
    s.start_evolution_process(EvolutionStage::Haunter, false);
    s.cancel_evolution();
    s.progress.damage_received_this_stage = 49_999;
    s.progress.hits_landed_this_stage = 10;
    assert!(!s.evolution_conditions_met());
    s.progress.damage_received_this_stage = 50_000;
    assert!(s.evolution_conditions_met());
}

#[test]
fn down_taunts_far_apart_do_not_cancel() {
    let mut s = fresh();
    s.start_evolution_process(EvolutionStage::Haunter, true);
    s.current_frame = 100;
    assert!(!handle_evolution_process(&mut s, true, false, true, false));
    s.current_frame = 161;
    assert!(!handle_evolution_process(&mut s, true, false, true, false));
    assert!(s.evolution.is_evolving);
}

#[test]
fn confirm_evolution_enters_target_from_scratch() {
    let mut s = fresh();
    s.progress.damage_received_this_stage = 40_000;
    s.progress.hits_landed_this_stage = 12;
    s.current_frame = 500;
    s.start_evolution_process(EvolutionStage::Haunter, false);
    s.confirm_evolution(42_000, 150);
    assert_eq!(s.stage, EvolutionStage::Haunter);
    assert!(!s.evolution.is_evolving);
    assert!(s.evolution.evolution_just_completed_this_frame);
    assert_eq!(s.progress.previous_total_damage, 42_000);
    assert_eq!(s.progress.last_evolution_confirmation_frame, 500);
    assert_eq!(s.progress.damage_received_this_stage, 0);
    assert_eq!(s.progress.hits_landed_this_stage, 0);
    assert_eq!(s.blink.blink_timer, 150);
}

#[test]
fn evolution_animation_completes_at_240_frames() {
    let mut s = fresh();
    s.start_evolution_process(EvolutionStage::Haunter, true);
    let first = advance_evolution_animation(&mut s, 0, 0, 0, 10_000, 150, 150);
    assert!(first.first_frame);
    assert!(!first.completed);
    s.evolution.evolution_timer = 179;
    let fx = advance_evolution_animation(&mut s, 0, 0, 0, 10_000, 150, 150);
    assert!(fx.spawn_transform_effect);
    s.evolution.evolution_timer = 239;
    let last = advance_evolution_animation(&mut s, 0, 0, 0, 10_000, 150, 150);
    assert!(last.completed);
    assert_eq!(s.stage, EvolutionStage::Haunter);
    assert!(!s.evolution.is_evolving);
    assert_eq!(s.progress.previous_total_damage, 10_000);
}

#[test]
fn landed_hits_count_only_outside_evolution() {
    let mut s = fresh();
    register_hit(&mut s);
    register_hit(&mut s);
    assert_eq!(s.progress.hits_landed_this_stage, 2);
    s.start_evolution_process(EvolutionStage::Haunter, true);
    register_hit(&mut s);
    assert_eq!(s.progress.hits_landed_this_stage, 2);
}

#[test]
fn instance_keys_per_entry_and_costume() {
    assert_eq!(get_instance_key(0, 0), 0);
    assert_eq!(get_instance_key(1, 3), 35);
    assert_eq!(get_instance_key(7, 31), 255);
    assert_eq!(get_instance_key(9, 2), 2);
    assert_eq!(get_instance_key(2, 40), 72);
}

#[test]
fn training_reset_returns_to_gastly() {
    let mut s = fresh();
    s.stage = EvolutionStage::Gengar;
    s.items.mega_gengar_form_active = true;
    let _ = training_mode_reset_handler(&mut s);
    assert_eq!(s.stage, EvolutionStage::Gastly);
}

#[test]
fn marked_costume_forced_back_to_gastly() {
    let mut s = fresh();
    s.stage = EvolutionStage::Haunter;
    s.items.giga_gengar_form_active = true;
    force_gastly_reset_for_marked_costume(&mut s, false, 150);
    assert_eq!(s.stage, EvolutionStage::Haunter);
    force_gastly_reset_for_marked_costume(&mut s, true, 150);
    assert_eq!(s.stage, EvolutionStage::Gastly);
    assert_eq!(s.evolution.evolution_target_stage, EvolutionStage::Gastly);
    assert!(!s.items.giga_gengar_form_active);
    assert_eq!(s.blink.blink_timer, 150);
}

#[test]
fn training_drop_of_evolution_has_no_penalty() {
    let mut s = fresh();
    s.start_evolution_process(EvolutionStage::Haunter, true);
    cancel_evolution_for_entry(&mut s);
    assert!(!s.evolution.is_evolving);
    assert_eq!(s.progress.evo_attempt_delay_damage_taken_penalty, 0);
}

#[test]
fn mesh_hash_is_the_hash40_of_the_mesh_name() {
    assert_eq!(mesh_hash(Mesh::LinkingCordIcon), hash40::hash40("linking_cord").0);
    assert_eq!(mesh_hash(Mesh::GastlyBody), hash40::hash40("gastly_body").0);
    assert_ne!(mesh_hash(Mesh::GastlyBody), mesh_hash(Mesh::HaunterBody));
}
