use gastly::stage::{EvolutionStage, ExpressionType, HitboxDetectionMethod, Mesh};
use gastly::state::PlayerEvolutionState;
use gastly::tracking::{HealTracker, LifeStatus, detect_healing_events, is_results_screen};
use gastly::frame::{HitResetTracker, PokecenterTracker, begin_frame, handle_pokecenter, handle_grab_effect_cleanup};
use gastly::ui::{UiTracker, update_battle_portrait_ui};
use gastly::mods::{mods_mounted, check_deps, online_ui_chara_hashes};
use gastly::attack::{
    AttackReport, EnemyCandidate, Point3, detect_vanilla_expression_with_attackmodule, is_attackmodule_detecting_hitbox,
    get_attackmodule_performance_metrics, is_shadowball_hitting_enemy, check_vanilla_mesh_visibility,
    find_recently_hit_enemy,
};
use gastly::model::{BodyUpdate, update_body_and_unique_parts_visibility, stage_body_meshes,
    update_body_and_unique_parts_visibility_with_enforcement};
use gastly::reset::{EarlyFrameTracker, early_session_reset, first_frame_reset, cleanup_all_evolution_sounds_on_death};
use gastly::looping::{LoopFlags, LoopSound, SoundCommand};
use gastly::sounds::{get_attack_voice_correct, should_mute_steps, rand_range_i32};

fn fresh() -> PlayerEvolutionState {
    PlayerEvolutionState::new(200)
}

#[test]
fn damage_taken_counts_toward_the_stage() {
    let mut s = fresh();
    let mut t = HitResetTracker::new();
    begin_frame(&mut s, &mut t, true, 0, 12_000);
    assert_eq!(s.current_frame, 1);
    assert_eq!(s.progress.damage_received_this_stage, 12_000);
    begin_frame(&mut s, &mut t, false, 0, 30_000);
    assert_eq!(s.progress.damage_received_this_stage, 30_000);
    assert_eq!(s.progress.previous_total_damage, 30_000);
    begin_frame(&mut s, &mut t, false, 0, 10_000);
    assert_eq!(s.progress.damage_received_this_stage, 0);
}

#[test]
fn potion_heal_is_detected() {
    let mut h = HealTracker::new();
    detect_healing_events(&mut h, LifeStatus::Other, 1000, 40_000);
    detect_healing_events(&mut h, LifeStatus::Other, 1001, 20_000);
    assert_eq!(h.heal_amount, 20_000);
    assert_eq!(h.heal_frame, 1001);
}

#[test]
fn full_restore_is_detected_as_negative_amount() {
    let mut h = HealTracker::new();
    detect_healing_events(&mut h, LifeStatus::Other, 1000, 60_000);
    detect_healing_events(&mut h, LifeStatus::Other, 1001, 0);
    assert_eq!(h.heal_amount, -60_000);
}

#[test]
fn small_heal_is_ignored() {
    let mut h = HealTracker::new();
    detect_healing_events(&mut h, LifeStatus::Other, 1000, 40_000);
    detect_healing_events(&mut h, LifeStatus::Other, 1001, 30_000);
    assert_eq!(h.heal_amount, 0);
}

#[test]
fn results_screen_statuses() {
    assert!(is_results_screen(0x107, false));
    assert!(is_results_screen(0x1A0, false));
    assert!(is_results_screen(3, true));
    assert!(!is_results_screen(3, false));
}

#[test]
fn pokecenter_plays_once_after_100_percent() {
    let mut t = PokecenterTracker::new();
    assert_eq!(handle_pokecenter(&mut t, false, false, 120_000), (false, false));
    assert_eq!(handle_pokecenter(&mut t, false, true, 120_000), (false, true));
    assert_eq!(handle_pokecenter(&mut t, false, true, 120_000), (false, false));
    assert_eq!(handle_pokecenter(&mut t, false, false, 120_000), (false, false));
    assert_eq!(handle_pokecenter(&mut t, false, true, 120_000), (false, false));
    assert_eq!(handle_pokecenter(&mut t, true, false, 0), (true, false));
    assert!(!t.played);
}

#[test]
fn grab_effect_goes_after_catch() {
    let mut last = 10;
    assert!(handle_grab_effect_cleanup(&mut last, 3, 10, 11));
    assert_eq!(last, 3);
    let mut pull = 11;
    assert!(!handle_grab_effect_cleanup(&mut pull, 10, 10, 11));
    assert!(handle_grab_effect_cleanup(&mut pull, 3, 10, 11));
}

#[test]
fn portrait_follows_the_stage() {
    let purin = hash40::hash40("ui_chara_purin").0;
    let haunter = hash40::hash40("ui_chara_haunter").0;
    let evolving = hash40::hash40("ui_chara_evolving").0;
    let mut ui = UiTracker::new();
    let mut s = fresh();
    assert_eq!(update_battle_portrait_ui(&mut ui, &s, true, 0, purin), None);
    s.start_evolution_process(EvolutionStage::Haunter, true);
    assert_eq!(update_battle_portrait_ui(&mut ui, &s, true, 0, purin), Some(evolving));
    s.confirm_evolution(0, 150);
    assert_eq!(update_battle_portrait_ui(&mut ui, &s, true, 0, evolving), Some(haunter));
    assert_eq!(ui.last_stage, 1);
    assert_eq!(update_battle_portrait_ui(&mut ui, &s, false, 77, haunter), Some(77));
    assert_eq!(update_battle_portrait_ui(&mut ui, &s, false, 77, 77), None);
}

#[test]
fn marker_scan_finds_the_marked_run() {
    let mut marked = vec![false; 256];
    assert_eq!(mods_mounted(&marked), None);
    marked[8] = true;
    marked[9] = true;
    marked[10] = true;
    marked[12] = true;
    let r = mods_mounted(&marked).unwrap();
    assert_eq!(r.lowest_color, 8);
    assert_eq!(r.color_num, 3);
    marked[255] = true;
    marked[8] = false;
    marked[9] = false;
    marked[10] = false;
    marked[12] = false;
    let last = mods_mounted(&marked).unwrap();
    assert_eq!((last.lowest_color, last.color_num), (255, 1));
}

#[test]
fn dependency_check() {
    assert!(check_deps(&vec![true, true, true, true, true]));
    assert!(!check_deps(&vec![true, false, true, true, true]));
}

#[test]
fn online_hashes_are_hash40_of_the_entries() {
    let v = online_ui_chara_hashes();
    assert_eq!(v.len(), 9);
    assert_eq!(v[0], hash40::hash40("ui_chara_evolving").0);
    assert_eq!(v[8], hash40::hash40("ui_chara_giga_gengar_00").0);
}

#[test]
fn attack_module_hit_shows_attack_eye() {
    let mut s = fresh();
    s.current_frame = 50;
    let none = AttackReport { infliction: false, occur: false, attack0: false, attack1: false, attack2: false };
    assert_eq!(detect_vanilla_expression_with_attackmodule(&mut s, none), None);
    let hit = AttackReport { attack1: true, ..none };
    assert_eq!(detect_vanilla_expression_with_attackmodule(&mut s, hit),
        Some(Mesh::Eye(EvolutionStage::Gastly, ExpressionType::Attack)));
    assert!(is_attackmodule_detecting_hitbox(&s));
    assert_eq!(get_attackmodule_performance_metrics(&s), (1, true, HitboxDetectionMethod::AttackModuleSpecificId(1)));
    detect_vanilla_expression_with_attackmodule(&mut s, AttackReport { infliction: true, ..none });
    assert_eq!(get_attackmodule_performance_metrics(&s), (2, true, HitboxDetectionMethod::AttackModuleInfliction));
    detect_vanilla_expression_with_attackmodule(&mut s, none);
    assert_eq!(get_attackmodule_performance_metrics(&s), (0, false, HitboxDetectionMethod::NotDetected));
    s.set_vanilla_expression_tracking(false);
    assert_eq!(detect_vanilla_expression_with_attackmodule(&mut s, hit), None);
}

#[test]
fn rollout_hit_detection() {
    let none = AttackReport { infliction: false, occur: false, attack0: false, attack1: false, attack2: false };
    assert!(is_shadowball_hitting_enemy(0x1E3, AttackReport { occur: true, ..none }));
    assert!(!is_shadowball_hitting_enemy(0x1E3, none));
    assert!(!is_shadowball_hitting_enemy(0x1E1, AttackReport { occur: true, ..none }));
}

#[test]
fn vanilla_eye_check_every_other_frame() {
    let mut s = fresh();
    s.stage = EvolutionStage::Haunter;
    s.current_frame = 3;
    let mut visible = [false; 8];
    visible[5] = true;
    assert_eq!(check_vanilla_mesh_visibility(&mut s, visible), None);
    s.current_frame = 4;
    assert_eq!(check_vanilla_mesh_visibility(&mut s, visible), Some(Mesh::Eye(EvolutionStage::Haunter, ExpressionType::Ouch)));
    assert!(s.expression.vanilla_expression_changed);
    assert_eq!(s.expression.last_vanilla_expression, Some(Mesh::Eye(EvolutionStage::Haunter, ExpressionType::Ouch)));
}

#[test]
fn closest_hit_enemy_within_ten_units() {
    let me = Point3 { x: 0, y: 0, z: 0 };
    let c = |entry_id: u32, is_fighter: bool, x: i64| EnemyCandidate { entry_id, is_fighter, x, y: 0, z: 0 };
    let cands = vec![c(0, true, 100), c(1, true, 6000), c(2, false, 10), c(3, true, -4000), c(4, true, 11000)];
    assert_eq!(find_recently_hit_enemy(&cands, 0, me), Some((3, Point3 { x: -4000, y: 0, z: 0 })));
    let far = vec![c(1, true, 10001)];
    assert_eq!(find_recently_hit_enemy(&far, 0, me), None);
    let tie = vec![c(1, true, 5000), c(2, true, -5000)];
    assert_eq!(find_recently_hit_enemy(&tie, 0, me).unwrap().0, 1);
}

#[test]
fn body_meshes_per_stage() {
    assert_eq!(stage_body_meshes(EvolutionStage::Gastly), vec![Mesh::GastlyBody]);
    assert_eq!(stage_body_meshes(EvolutionStage::Haunter), vec![Mesh::HaunterBody, Mesh::HaunterHands, Mesh::HaunterIris]);
    assert_eq!(stage_body_meshes(EvolutionStage::Gengar), vec![Mesh::GengarBody, Mesh::GengarIris]);
    assert_eq!(update_body_and_unique_parts_visibility(EvolutionStage::Gengar, 0x1E3), BodyUpdate::HideAll);
    assert_eq!(update_body_and_unique_parts_visibility(EvolutionStage::Gengar, 0x1E1), BodyUpdate::Leave);
    assert_eq!(update_body_and_unique_parts_visibility(EvolutionStage::Gengar, 4), BodyUpdate::ShowStage(EvolutionStage::Gengar));
    let mut s = fresh();
    s.stage = EvolutionStage::Gengar;
    assert_eq!(update_body_and_unique_parts_visibility_with_enforcement(&s, 4, true, 0),
        (BodyUpdate::ShowStage(EvolutionStage::Gengar), true));
    s.start_evolution_process(EvolutionStage::Haunter, true);
    assert_eq!(update_body_and_unique_parts_visibility_with_enforcement(&s, 4, true, 0), (BodyUpdate::HideEvolving, false));
}

#[test]
fn early_reset_on_frame_jump() {
    let mut s = fresh();
    s.stage = EvolutionStage::Gengar;
    s.current_frame = 900;
    let mut t = EarlyFrameTracker::new();
    assert!(!early_session_reset(&mut t, &mut s, true, true, 0, false, true, 150));
    assert_eq!(t.last_seen_frame, 900);
    s.current_frame = 700;
    assert!(early_session_reset(&mut t, &mut s, true, true, 0, false, true, 150));
    assert_eq!(s.stage, EvolutionStage::Gastly);
    assert!(s.shiny.is_shiny);
    assert_eq!(t.last_seen_frame, 700);
    let mut t2 = EarlyFrameTracker::new();
    s.stage = EvolutionStage::Haunter;
    assert!(!early_session_reset(&mut t2, &mut s, true, true, 8, false, false, 150));
    assert_eq!(t2.last_seen_frame, -1);
}

#[test]
fn first_frame_resets_marked_costume_once_per_life() {
    let mut s = fresh();
    s.stage = EvolutionStage::Haunter;
    let mut t = EarlyFrameTracker::new();
    assert!(first_frame_reset(&mut t, &mut s, true, true, false, 150));
    assert_eq!(s.stage, EvolutionStage::Gastly);
    s.stage = EvolutionStage::Haunter;
    assert!(!first_frame_reset(&mut t, &mut s, true, true, true, 150));
    assert_eq!(s.stage, EvolutionStage::Haunter);
    assert!(first_frame_reset(&mut t, &mut s, true, true, false, 150));
}

#[test]
fn death_silences_every_looping_sound() {
    let mut f = LoopFlags {
        evolving_active: true, evolving_timer: 5, evolve_ss_active: true, evolve_ss_timer: 2,
        shadowball_charge_active: true, shadowball_active: true, restore_active: true, restore_timer: 1,
        potion_active: true, potion_timer: 1, grab_burn_active: true, megasymbol_active: true, megasymbol_timer: 3,
    };
    let cmds = cleanup_all_evolution_sounds_on_death(&mut f);
    assert_eq!(cmds.len(), 8);
    assert_eq!(cmds[0], SoundCommand::Stop(LoopSound::Evolving));
    assert_eq!(cmds[7], SoundCommand::Stop(LoopSound::Restore));
    assert!(!f.evolving_active && !f.evolve_ss_active && !f.shadowball_charge_active);
    assert!(!f.restore_active && !f.potion_active && !f.grab_burn_active && !f.megasymbol_active);
    assert!(f.shadowball_active);
    assert_eq!(f.evolving_timer, 5);
}

#[test]
fn voices_and_steps_by_stage() {
    assert_eq!(get_attack_voice_correct(Some(EvolutionStage::Haunter), 3), "hau_attack03");
    assert_eq!(get_attack_voice_correct(Some(EvolutionStage::Gengar), 1), "gen_attack01");
    assert_eq!(get_attack_voice_correct(None, 4), "gas_attack01");
    assert!(should_mute_steps(None));
    assert!(should_mute_steps(Some(EvolutionStage::Haunter)));
    assert!(!should_mute_steps(Some(EvolutionStage::Gengar)));
    assert_eq!(rand_range_i32(3, 7, 2), 5);
    assert_eq!(rand_range_i32(7, 7, 0), 7);
}
