use gastly::evofx::{EvolutionEffect, handle_evolution_effects};
use gastly::shadowfx::{ShadowballEffect, ShadowballFxInput, ShadowballFxTracker, handle_shadowball_effects};
use gastly::shadowball::ShadowballState;
use gastly::evofx::update_shiny_flag;
use gastly::readiness::readiness_icons_suppressed;
use gastly::sounds::lingering_step_sounds;
use gastly::stage::{EvolutionStage, ExpressionType, Mesh};
use gastly::state::PlayerEvolutionState;
use gastly::darkfx::{DarkEffectData, FlashCommand, begin_purple_flash, update_purple_flash_effects_with_status_detection};
use gastly::attack::{AttackReport, ExpressionFrame, ExpressionInput, handle_expression_frame};
use gastly::shadowball::ShadowballInput;
use gastly::model::{WeakenedTracker, BodyUpdate};
use gastly::frame::{FinalSmashTracker, HitResetTracker, handle_final_smash_swap_when_idle};
use gastly::looping::LoopFlags;
use gastly::ui::UiTracker;
use gastly::reset::{DeathTrackers, handle_death_frame};
use gastly::evolution::advance_evolution_animation;

fn h(name: &str) -> u64 {
    hash40::hash40(name).0
}

fn quiet_input() -> ExpressionInput {
    ExpressionInput {
        motion: 0,
        motion_frame_milli: 0,
        final_flag: false,
        is_special_lw: false,
        report: AttackReport { infliction: false, occur: false, attack0: false, attack1: false, attack2: false },
        in_attack_status: false,
        visible: [false; 8],
        shadowball: ShadowballInput {
            status: 0, motion: 0, charge_count_milli: 0, is_max_charge: false, hold_frames: 0, hold_max_frames: 0,
            has_active_hitbox: false,
        },
        damage: 0,
        entry_id: 0,
    }
}

fn flags() -> LoopFlags {
    LoopFlags {
        evolving_active: true, evolving_timer: 0, evolve_ss_active: true, evolve_ss_timer: 0,
        shadowball_charge_active: true, shadowball_active: false, restore_active: true, restore_timer: 0,
        potion_active: true, potion_timer: 0, grab_burn_active: true, megasymbol_active: true, megasymbol_timer: 0,
    }
}

#[test]
fn short_flash_runs_66_frames() {
    let mut d = DarkEffectData::default();
    begin_purple_flash(&mut d);
    for n in 1..=66 {
        let cmd = update_purple_flash_effects_with_status_detection(&mut d, n * 7);
        let expected = if n <= 8 || (15..=22).contains(&n) || (29..=36).contains(&n) {
            FlashCommand::Flash(800)
        } else if n <= 14 || (23..=28).contains(&n) {
            FlashCommand::Normal
        } else if n <= 65 {
            FlashCommand::Flash((800 * (66 - n) / 30) as u32)
        } else {
            FlashCommand::Normal
        };
        assert_eq!(cmd, expected, "frame {}", n);
        assert_eq!(d.flash_stage != 0, n <= 65, "frame {}", n);
    }
}

#[test]
fn evolution_animation_takes_exactly_240_calls() {
    let mut s = PlayerEvolutionState::new(200);
    s.start_evolution_process(EvolutionStage::Haunter, true);
    for n in 1..240 {
        let step = advance_evolution_animation(&mut s, 0, 0, 0, 10_000, 150, 150);
        assert!(!step.completed);
        assert_eq!(s.evolution.evolution_timer, n);
        assert!(s.evolution.is_evolving);
    }
    let step = advance_evolution_animation(&mut s, 0, 0, 0, 10_000, 150, 150);
    assert!(step.completed);
    assert_eq!(s.stage, EvolutionStage::Haunter);
}

#[test]
fn eyes_are_left_alone_while_evolving() {
    let mut s = PlayerEvolutionState::new(200);
    s.start_evolution_process(EvolutionStage::Haunter, true);
    let mut w = WeakenedTracker::new();
    let before = s.blink.blink_timer;
    assert_eq!(handle_expression_frame(&mut s, &mut w, quiet_input(), 200), ExpressionFrame::Skipped);
    assert_eq!(s.blink.blink_timer, before);
}

#[test]
fn victory_pose_eye_comes_before_the_down_special_blink() {
    let mut s = PlayerEvolutionState::new(200);
    let mut w = WeakenedTracker::new();
    let mut input = quiet_input();
    input.motion = h("win_3");
    input.motion_frame_milli = 50_000;
    input.is_special_lw = true;
    match handle_expression_frame(&mut s, &mut w, input, 200) {
        ExpressionFrame::Override(o) => assert_eq!(o.eye, Mesh::Eye(EvolutionStage::Gastly, ExpressionType::Blink)),
        other => panic!("unexpected {:?}", other),
    }
    input.motion = 0;
    match handle_expression_frame(&mut s, &mut w, input, 200) {
        ExpressionFrame::Override(o) => assert_eq!(o.eye, Mesh::Eye(EvolutionStage::Gastly, ExpressionType::Blink)),
        other => panic!("unexpected {:?}", other),
    }
}

#[test]
fn blink_ticks_when_no_eye_is_suggested() {
    let mut s = PlayerEvolutionState::new(200);
    s.expression.vanilla_expression_tracking = false;
    let mut w = WeakenedTracker::new();
    match handle_expression_frame(&mut s, &mut w, quiet_input(), 200) {
        ExpressionFrame::Scene(_, _) => {}
        other => panic!("unexpected {:?}", other),
    }
    assert_eq!(s.blink.blink_timer, 199);
}

#[test]
fn no_final_smash_swap_while_evolving() {
    let mut s = PlayerEvolutionState::new(200);
    s.start_evolution_process(EvolutionStage::Haunter, true);
    let mut t = FinalSmashTracker { last_fs_state: false, last_motion: 0, last_fs_form: false };
    assert!(handle_final_smash_swap_when_idle(&mut s, &mut t, 0, true, h("final")).is_none());
    let mut idle = PlayerEvolutionState::new(200);
    assert!(handle_final_smash_swap_when_idle(&mut idle, &mut t, 0, false, 0).is_some());
}

#[test]
fn death_frame_resets_the_fighter_and_its_trackers() {
    let mut s = PlayerEvolutionState::new(200);
    s.stage = EvolutionStage::Gengar;
    s.current_frame = 500;
    let mut ui = UiTracker::new();
    ui.last_stage = 2;
    let mut w = WeakenedTracker::new();
    w.record_spawned();
    let mut t = DeathTrackers {
        flags: flags(), weakened: w, fs_swap: FinalSmashTracker { last_fs_state: false, last_motion: 0, last_fs_form: false },
        hit_reset: HitResetTracker::new(), ui,
    };
    let before = t;
    assert!(handle_death_frame(&mut s, &mut t, false, 0, false, 0, 0, 200).is_none());
    assert_eq!(t, before);
    let c = handle_death_frame(&mut s, &mut t, true, 0, false, 0, 0, 200).unwrap();
    assert_eq!(s.stage, EvolutionStage::Gastly);
    assert_eq!(c.sounds.len(), 8);
    assert!(c.kill_weakened);
    assert!(!c.restore_color);
    assert!(c.final_form_swap.is_none());
    assert_eq!(c.body.0, BodyUpdate::ShowStage(EvolutionStage::Gastly));
    assert!(!t.flags.evolving_active && !t.flags.potion_active && !t.flags.megasymbol_active);
    assert!(!t.weakened.spawned);
    assert_eq!(t.ui.last_stage, 255);
    assert_eq!(t.hit_reset.last_hit_reset_frame, s.current_frame);
}

#[test]
fn completion_effects_follow_their_timeline() {
    let mut s = PlayerEvolutionState::new(200);
    s.start_evolution_process(EvolutionStage::Haunter, true);
    s.confirm_evolution(0, 150);
    s.shadowball.shadowball_status_frames = 9;
    for n in 1..=90 {
        let e = handle_evolution_effects(&mut s, false);
        assert_eq!(e.contains(&EvolutionEffect::CompletionFlash), n == 1, "frame {}", n);
        assert_eq!(e.contains(&EvolutionEffect::LevelUpSparkle), n == 21, "frame {}", n);
        assert_eq!(e.contains(&EvolutionEffect::PokemonOut), n == 31, "frame {}", n);
        assert_eq!(e.contains(&EvolutionEffect::EdgeLight), n == 56, "frame {}", n);
        assert_eq!(e.contains(&EvolutionEffect::Cry(EvolutionStage::Haunter)), n == 71, "frame {}", n);
    }
    assert_eq!(s.shadowball.shadowball_status_frames, 9);
}

#[test]
fn explosion_only_on_entering_hit_end() {
    let mut s = PlayerEvolutionState::new(200);
    let mut t = ShadowballFxTracker::new();
    let inp = ShadowballFxInput { status: 0x1E7, is_max_charge: false, hold_max_frames: 0 };
    let e = handle_shadowball_effects(&mut s, &mut t, ShadowballState::NotActive, inp);
    assert_eq!(e.last(), Some(&ShadowballEffect::Bomb));
    let e = handle_shadowball_effects(&mut s, &mut t, ShadowballState::NotActive, inp);
    assert!(!e.contains(&ShadowballEffect::Bomb));
}

#[test]
fn small_frame_decisions() {
    let mut s = PlayerEvolutionState::new(200);
    update_shiny_flag(&mut s, false, true);
    assert!(s.shiny.is_shiny);
    update_shiny_flag(&mut s, false, false);
    assert!(s.shiny.is_shiny);
    update_shiny_flag(&mut s, true, false);
    assert!(!s.shiny.is_shiny);
    assert!(!readiness_icons_suppressed(&s));
    s.icons.everstone_x_icon_active = true;
    assert!(readiness_icons_suppressed(&s));
    assert!(lingering_step_sounds(3, 3, 4).is_empty());
    assert_eq!(lingering_step_sounds(0, 3, 4).len(), 8);
    assert_eq!(lingering_step_sounds(0, 3, 4)[0], "g_walkslow");
}
