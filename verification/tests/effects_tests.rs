use gastly::stage::EvolutionStage;
use gastly::state::PlayerEvolutionState;
use gastly::evofx::{
    EvolutionEffect, ShinyTracker, handle_evolution_effects, handle_shiny_effects, tick_delayed_cry,
    tick_shiny_timer, cry_name_string,
};
use gastly::shadowball::{ShadowballState, ShadowballInput};
use gastly::shadowfx::{ShadowballEffect, ShadowballPart, ShadowballFxTracker, ShadowballFxInput, handle_shadowball_effects};
use gastly::gastlyfx::{
    AuraColor, AuraMode, AuraStatus, BodyAuraAction, DeathPause, FinalAuraAction, FinalSmashFx, GastlyFxInput,
    DownTauntFxTracker, ChargeMaxFxTracker, FinalSmashFxTracker, should_suppress_gastly_aura, handle_gastly_aura,
    handle_gastly_effects, handle_down_taunt_effects, record_down_taunt_spawn, handle_special_n_charge_max_effects,
    record_charge_max_spawn, handle_final_smash_special_effects, record_final_cry, check_and_apply_evolution_aura_rgb,
};
use gastly::darkfx::{
    DarkWorld, DarkEffectData, DarkInput, DarkMove, FlashCommand, VictimEffect, MoveStatus, gastly_dark_effects_handler,
    check_for_dark_move, DARK_MOVE_DOWN_SPECIAL, DARK_MOVE_DOWN_TILT, DARK_MOVE_PUMMEL, DARK_MOVE_DOWN_AIR,
    DARK_MOVE_NEUTRAL_SPECIAL_ROLLOUT,
};

fn fresh() -> PlayerEvolutionState {
    PlayerEvolutionState::new(200)
}

fn no_charge(status: i32) -> ShadowballInput {
    ShadowballInput {
        status,
        motion: 0,
        charge_count_milli: 0,
        is_max_charge: false,
        hold_frames: 0,
        hold_max_frames: 0,
        has_active_hitbox: false,
    }
}

#[test]
fn evolving_spawns_the_sparkle_once() {
    let mut s = fresh();
    s.start_evolution_process(EvolutionStage::Haunter, true);
    assert_eq!(handle_evolution_effects(&mut s, false), vec![EvolutionEffect::SpawnSparkle]);
    assert_eq!(handle_evolution_effects(&mut s, true), vec![]);
}

#[test]
fn completion_runs_the_level_up_sequence_and_cry() {
    let mut s = fresh();
    s.start_evolution_process(EvolutionStage::Haunter, true);
    s.confirm_evolution(0, 150);
    let first = handle_evolution_effects(&mut s, true);
    assert_eq!(first, vec![EvolutionEffect::KillSparkle, EvolutionEffect::NormalColor, EvolutionEffect::CompletionFlash]);
    assert_eq!(s.evolution.frames_since_level_up_effect, 1);
    let mut seen: Vec<(i32, EvolutionEffect)> = Vec::new();
    for frame in 1..80 {
        for e in handle_evolution_effects(&mut s, false) {
            if e != EvolutionEffect::NormalColor {
                seen.push((frame, e));
            }
        }
    }
    assert_eq!(seen, vec![
        (20, EvolutionEffect::LevelUpSparkle),
        (30, EvolutionEffect::PokemonOut),
        (55, EvolutionEffect::EdgeLight),
        (70, EvolutionEffect::Cry(EvolutionStage::Haunter)),
    ]);
    assert_eq!(s.evolution.frames_since_level_up_effect, -1);
}

#[test]
fn shiny_evolution_holds_the_cry_and_schedules_sparkle() {
    let mut s = fresh();
    s.shiny.is_shiny = true;
    s.current_frame = 400;
    s.start_evolution_process(EvolutionStage::Haunter, true);
    s.confirm_evolution(0, 150);
    handle_evolution_effects(&mut s, false);
    assert!(s.shiny.shiny_effect_pending);
    assert_eq!(s.shiny.shiny_effect_delay_timer, 75);
    assert_eq!(s.shiny.evolution_completion_frame, 400);
    for _ in 1..70 {
        handle_evolution_effects(&mut s, false);
    }
    let at70 = handle_evolution_effects(&mut s, false);
    assert!(!at70.contains(&EvolutionEffect::Cry(EvolutionStage::Haunter)));
    assert_eq!(s.shiny.delayed_cry_timer, 60);
    assert_eq!(s.shiny.delayed_cry_sound, "cry_haunter");
    let mut played: Option<String> = None;
    for _ in 0..60 {
        if let Some(c) = tick_delayed_cry(&mut s) {
            played = Some(c);
        }
    }
    assert_eq!(played, Some(String::from("cry_haunter")));
    assert_eq!(s.shiny.delayed_cry_sound, "");
}

#[test]
fn cancel_flash_fades_over_45_frames() {
    let mut s = fresh();
    s.start_evolution_process(EvolutionStage::Haunter, true);
    s.cancel_evolution();
    let first = handle_evolution_effects(&mut s, false);
    assert_eq!(first, vec![
        EvolutionEffect::NormalColor,
        EvolutionEffect::CancelFlash,
        EvolutionEffect::RedFlash { alpha_thousandths: 488 },
    ]);
    for _ in 2..45 {
        handle_evolution_effects(&mut s, false);
    }
    let last = handle_evolution_effects(&mut s, false);
    assert_eq!(last, vec![EvolutionEffect::NormalColor, EvolutionEffect::RedFlash { alpha_thousandths: 0 }]);
    let after = handle_evolution_effects(&mut s, false);
    assert_eq!(after, vec![EvolutionEffect::NormalColor, EvolutionEffect::NormalColor]);
    assert_eq!(s.evolution.evolution_cancel_fade_timer, -1);
}

#[test]
fn cry_names() {
    assert_eq!(cry_name_string(EvolutionStage::Haunter), "cry_haunter");
    assert_eq!(cry_name_string(EvolutionStage::Gengar), "cry_gengar");
    assert_eq!(cry_name_string(EvolutionStage::Gastly), "");
}

#[test]
fn shiny_entry_and_delayed_sparkles() {
    let mut s = fresh();
    let mut t = ShinyTracker::new();
    assert_eq!(handle_shiny_effects(&mut s, &mut t, 5, true), 0);
    s.shiny.is_shiny = true;
    assert_eq!(handle_shiny_effects(&mut s, &mut t, 5, true), 1);
    assert_eq!(handle_shiny_effects(&mut s, &mut t, 5, true), 0);
    s.stage = EvolutionStage::Haunter;
    s.shiny.shiny_effect_pending = true;
    s.shiny.shiny_effect_delay_timer = 1;
    assert_eq!(handle_shiny_effects(&mut s, &mut t, 9, false), 0);
    assert_eq!(s.shiny.shiny_effect_delay_timer, 0);
    assert_eq!(handle_shiny_effects(&mut s, &mut t, 9, false), 1);
    assert!(!s.shiny.shiny_effect_pending);
    assert_eq!(s.shiny.shiny_effect_delay_timer, -1);
}

#[test]
fn shiny_timer_ends_at_its_length() {
    assert_eq!(tick_shiny_timer(true, 88, 90), (true, 89, false));
    assert_eq!(tick_shiny_timer(true, 89, 90), (false, 90, true));
    assert_eq!(tick_shiny_timer(false, 3, 90), (false, 3, false));
}

#[test]
fn shadowball_rollout_with_hitbox_keeps_ball_and_trail() {
    let mut s = fresh();
    s.current_frame = 100;
    let mut t = ShadowballFxTracker::new();
    let inp = ShadowballFxInput { status: 0x1E3, is_max_charge: true, hold_max_frames: 0 };
    let fx = handle_shadowball_effects(&mut s, &mut t, ShadowballState::ChargedRolloutWithHitbox, inp);
    assert_eq!(fx, vec![
        ShadowballEffect::KillAppealEffect,
        ShadowballEffect::Keep { part: ShadowballPart::Main, immediate: true },
        ShadowballEffect::Keep { part: ShadowballPart::Tail, immediate: true },
        ShadowballEffect::SuppressVanillaEffects,
        ShadowballEffect::SpeedBooster,
    ]);
    assert_eq!(t.last_speedbooster_frame, 100);
    s.current_frame = 104;
    let fx2 = handle_shadowball_effects(&mut s, &mut t, ShadowballState::ChargedRolloutWithHitbox, inp);
    assert!(!fx2.contains(&ShadowballEffect::SpeedBooster));
    s.current_frame = 108;
    let fx3 = handle_shadowball_effects(&mut s, &mut t, ShadowballState::ChargedRolloutWithHitbox, inp);
    assert!(fx3.contains(&ShadowballEffect::SpeedBooster));
}

#[test]
fn shadowball_hit_end_explodes_once() {
    let mut s = fresh();
    let mut t = ShadowballFxTracker::new();
    let inp = ShadowballFxInput { status: 0x1E7, is_max_charge: false, hold_max_frames: 0 };
    let fx = handle_shadowball_effects(&mut s, &mut t, ShadowballState::NotActive, inp);
    assert_eq!(fx, vec![
        ShadowballEffect::KillAppealEffect,
        ShadowballEffect::ClearShadowballEffects,
        ShadowballEffect::Bomb,
    ]);
    let fx2 = handle_shadowball_effects(&mut s, &mut t, ShadowballState::NotActive, inp);
    assert!(!fx2.contains(&ShadowballEffect::Bomb));
}

#[test]
fn shadowball_full_charge_sign_every_15_frames() {
    let mut s = fresh();
    s.current_frame = 10;
    let mut t = ShadowballFxTracker::new();
    let inp = ShadowballFxInput { status: 0x1E2, is_max_charge: true, hold_max_frames: 3 };
    let fx = handle_shadowball_effects(&mut s, &mut t, ShadowballState::ActiveFrameBased, inp);
    assert_eq!(fx, vec![
        ShadowballEffect::KillAppealEffect,
        ShadowballEffect::Keep { part: ShadowballPart::Main, immediate: true },
        ShadowballEffect::Keep { part: ShadowballPart::Tail, immediate: true },
        ShadowballEffect::Keep { part: ShadowballPart::Hold, immediate: false },
        ShadowballEffect::MaxSign,
        ShadowballEffect::SuppressVanillaEffects,
    ]);
    s.current_frame = 24;
    assert!(!handle_shadowball_effects(&mut s, &mut t, ShadowballState::ActiveFrameBased, inp).contains(&ShadowballEffect::MaxSign));
    s.current_frame = 25;
    assert!(handle_shadowball_effects(&mut s, &mut t, ShadowballState::ActiveFrameBased, inp).contains(&ShadowballEffect::MaxSign));
}

#[test]
fn leaving_neutral_special_forgets_charge() {
    let mut s = fresh();
    s.shadowball.shadowball_was_sufficiently_charged = true;
    s.shadowball.shadowball_air_charge_count = 30;
    let mut t = ShadowballFxTracker::new();
    let inp = ShadowballFxInput { status: 3, is_max_charge: false, hold_max_frames: 0 };
    handle_shadowball_effects(&mut s, &mut t, ShadowballState::TransitionKeepModel, inp);
    assert!(!s.shadowball.shadowball_was_sufficiently_charged);
    assert_eq!(s.shadowball.shadowball_air_charge_count, 0);
}

#[test]
fn aura_hides_when_swimming_but_not_on_results() {
    let swim = hash40::hash40("swim").0;
    let a = AuraStatus { status: 5, motion: swim, is_rebirth: false, is_win_or_lose: false, is_entry: false, has_active_hitbox: false };
    assert!(should_suppress_gastly_aura(a));
    assert!(!should_suppress_gastly_aura(AuraStatus { is_rebirth: true, ..a }));
    assert!(!should_suppress_gastly_aura(AuraStatus { status: 0x195, ..a }));
    let roll = AuraStatus { status: 0x1E3, motion: 1, has_active_hitbox: true, ..a };
    assert!(should_suppress_gastly_aura(roll));
    assert!(!should_suppress_gastly_aura(AuraStatus { has_active_hitbox: false, ..roll }));
}

#[test]
fn body_aura_actions() {
    let mut s = fresh();
    assert_eq!(handle_gastly_aura(&s, true, true, false, false), BodyAuraAction::Hide);
    assert_eq!(handle_gastly_aura(&s, false, false, false, false), BodyAuraAction::Spawn { clear_force_flag: false });
    assert_eq!(handle_gastly_aura(&s, false, true, true, false), BodyAuraAction::Spawn { clear_force_flag: true });
    assert_eq!(handle_gastly_aura(&s, false, true, false, true), BodyAuraAction::Show(AuraColor::ShinyBlue));
    s.start_evolution_process(EvolutionStage::Haunter, true);
    assert_eq!(check_and_apply_evolution_aura_rgb(&s, true), AuraColor::EvolutionWhite);
    s.stage = EvolutionStage::Gengar;
    assert_eq!(handle_gastly_aura(&s, false, true, false, false), BodyAuraAction::CleanupAll);
}

#[test]
fn effects_pause_waits_for_calm_after_death() {
    let mut s = fresh();
    s.stage = EvolutionStage::Gengar;
    s.items.mega_gengar_form_active = true;
    let mut g = DeathPause { recent_death: false };
    let base = GastlyFxInput { shadowball: no_charge(0), dead_or_rebirth: false, calm: false, fs_flag: true, shiny_costume: false };
    assert_eq!(handle_gastly_effects(&s, &mut g, false, base), None);
    let plan = handle_gastly_effects(&s, &mut g, true, base).unwrap();
    assert_eq!(plan.final_aura, FinalAuraAction::ReplaceDefault);
    assert_eq!(plan.aura, AuraMode::Cleanup);
    assert_eq!(handle_gastly_effects(&s, &mut g, true, GastlyFxInput { dead_or_rebirth: true, ..base }), None);
    assert_eq!(handle_gastly_effects(&s, &mut g, true, base), None);
    assert!(handle_gastly_effects(&s, &mut g, true, GastlyFxInput { calm: true, ..base }).is_some());
    assert!(!g.recent_death);
    let started = handle_gastly_effects(&s, &mut g, true, GastlyFxInput { shadowball: no_charge(0x1E0), ..base }).unwrap();
    assert_eq!(started.final_aura, FinalAuraAction::KillForFinal);
}

#[test]
fn gastly_wears_bone_aura_while_charged() {
    let s = fresh();
    let mut g = DeathPause { recent_death: false };
    let hold = ShadowballInput { hold_frames: 15, ..no_charge(0x1E1) };
    let inp = GastlyFxInput { shadowball: hold, dead_or_rebirth: false, calm: true, fs_flag: false, shiny_costume: false };
    let plan = handle_gastly_effects(&s, &mut g, true, inp).unwrap();
    assert_eq!(plan.aura, AuraMode::ShadowballBone(AuraColor::NormalPurple));
    assert_eq!(plan.final_aura, FinalAuraAction::Drop);
    let short = GastlyFxInput { shadowball: ShadowballInput { hold_frames: 14, ..hold }, ..inp };
    assert_eq!(handle_gastly_effects(&s, &mut g, true, short).unwrap().aura, AuraMode::Body);
}

#[test]
fn down_taunt_effects_at_frames_1_and_90() {
    let taunt = hash40::hash40("appeal_lw_l").0;
    let mut t = DownTauntFxTracker::new();
    assert_eq!(handle_down_taunt_effects(&mut t, taunt, 0), (false, false));
    assert_eq!(handle_down_taunt_effects(&mut t, taunt, 1), (true, false));
    record_down_taunt_spawn(&mut t, false, true);
    assert_eq!(handle_down_taunt_effects(&mut t, taunt, 50), (false, false));
    assert_eq!(handle_down_taunt_effects(&mut t, taunt, 90), (false, true));
    record_down_taunt_spawn(&mut t, true, false);
    assert_eq!(handle_down_taunt_effects(&mut t, taunt, 91), (false, true));
    assert_eq!(handle_down_taunt_effects(&mut t, 7, 1), (false, false));
    assert_eq!(t.last_motion, 0);
    assert!(!t.first_spawned);
}

#[test]
fn charge_max_light_once_per_full_charge() {
    let mut t = ChargeMaxFxTracker::new();
    assert!(handle_special_n_charge_max_effects(&mut t, 0x1E2));
    record_charge_max_spawn(&mut t, true);
    assert!(!handle_special_n_charge_max_effects(&mut t, 0x1E2));
    assert!(!handle_special_n_charge_max_effects(&mut t, 0x1E3));
    assert!(handle_special_n_charge_max_effects(&mut t, 0x1E2));
}

#[test]
fn mega_symbol_and_final_cry() {
    let mut s = fresh();
    s.stage = EvolutionStage::Gengar;
    s.items.mega_gengar_form_active = true;
    s.current_frame = 100;
    let mut t = FinalSmashFxTracker::new();
    assert_eq!(handle_final_smash_special_effects(&s, &mut t, 0, true), vec![FinalSmashFx::MegaSymbol, FinalSmashFx::KillFinalCry]);
    assert_eq!(handle_final_smash_special_effects(&s, &mut t, 0x1E8, true), vec![FinalSmashFx::FinalCry]);
    record_final_cry(&mut t, 100, true);
    s.current_frame = 120;
    assert_eq!(handle_final_smash_special_effects(&s, &mut t, 0x1E8, true), vec![]);
    s.current_frame = 160;
    assert_eq!(handle_final_smash_special_effects(&s, &mut t, 0x1E8, true), vec![FinalSmashFx::FinalCry]);
    assert_eq!(handle_final_smash_special_effects(&s, &mut t, 0x1E9, true),
        vec![FinalSmashFx::KillFinalCry, FinalSmashFx::Disappear]);
    assert_eq!(handle_final_smash_special_effects(&s, &mut t, 0x1E9, true), vec![]);
}

fn dark_input(entry_id: u32) -> DarkInput {
    DarkInput { entry_id, dead_or_rebirth: false, dark_move: None, hitting: false, taking_damage: false, status: 0 }
}

#[test]
fn down_special_victim_gets_poison_and_long_flash() {
    let mut w = DarkWorld::new();
    let mut attacker = DarkEffectData::default();
    let mut victim = DarkEffectData::default();
    let a = DarkInput { dark_move: Some(DarkMove { move_type: DARK_MOVE_DOWN_SPECIAL, evolution_stage: 2 }), hitting: true, ..dark_input(0) };
    for _ in 0..40 {
        gastly_dark_effects_handler(&mut w, &mut attacker, a);
    }
    assert_eq!(w.frame, 40);
    assert_eq!(w.attackers.len(), 1);
    let out = gastly_dark_effects_handler(&mut w, &mut victim, DarkInput { taking_damage: true, ..dark_input(1) });
    assert_eq!(out.victim, Some(VictimEffect::Poison));
    assert_eq!(out.flash, FlashCommand::Flash(800));
    assert_eq!(victim.flash_total_planned_duration, 120);
    assert_eq!(victim.last_effect_frame, 40);
    let again = gastly_dark_effects_handler(&mut w, &mut victim, DarkInput { taking_damage: true, ..dark_input(1) });
    assert_eq!(again.victim, None);
}

#[test]
fn dark_move_priority_and_death_cleanup() {
    let mut w = DarkWorld::new();
    let mut d = DarkEffectData::default();
    let pummel = DarkInput { dark_move: Some(DarkMove { move_type: DARK_MOVE_PUMMEL, evolution_stage: 0 }), hitting: true, ..dark_input(0) };
    for _ in 0..31 {
        gastly_dark_effects_handler(&mut w, &mut d, pummel);
    }
    let tilt = DarkInput { dark_move: Some(DarkMove { move_type: DARK_MOVE_DOWN_TILT, evolution_stage: 0 }), hitting: true, ..dark_input(2) };
    gastly_dark_effects_handler(&mut w, &mut d, tilt);
    let missed = DarkInput { dark_move: Some(DarkMove { move_type: DARK_MOVE_DOWN_AIR, evolution_stage: 0 }), hitting: false, ..dark_input(3) };
    gastly_dark_effects_handler(&mut w, &mut d, missed);
    assert_eq!(w.attackers.len(), 2);
    let mut v = DarkEffectData::default();
    let out = gastly_dark_effects_handler(&mut w, &mut v, DarkInput { taking_damage: true, ..dark_input(4) });
    assert_eq!(out.victim, Some(VictimEffect::SweatPummel));
    assert_eq!(out.flash, FlashCommand::Nothing);
    let dead = gastly_dark_effects_handler(&mut w, &mut v, DarkInput { dead_or_rebirth: true, ..dark_input(4) });
    assert_eq!(dead.flash, FlashCommand::Normal);
    assert_eq!(v.flash_stage, 0);
}

#[test]
fn dark_moves_of_a_marked_costume() {
    assert_eq!(check_for_dark_move(true, true, 1, MoveStatus::SpecialLw, 0), Some((DARK_MOVE_DOWN_SPECIAL, 1)));
    assert_eq!(check_for_dark_move(true, false, 1, MoveStatus::SpecialLw, 0), None);
    assert_eq!(check_for_dark_move(true, true, 2, MoveStatus::Other(0x1E7), 0), Some((DARK_MOVE_NEUTRAL_SPECIAL_ROLLOUT, 2)));
    let dair = hash40::hash40("attack_air_lw").0;
    assert_eq!(check_for_dark_move(true, true, 0, MoveStatus::AttackAir, dair), Some((DARK_MOVE_DOWN_AIR, 0)));
    assert_eq!(check_for_dark_move(true, true, 2, MoveStatus::AttackAir, dair), None);
}
