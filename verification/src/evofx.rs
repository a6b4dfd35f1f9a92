use vstd::prelude::*;
use crate::stage::EvolutionStage;
use crate::state::{EvolutionRun, PlayerEvolutionState};

verus! {

/// Frames after a completed evolution at which the level-up effects appear.
pub const LEVEL_UP_FRAME: i32 = 20;
pub const POKEMON_OUT_FRAME: i32 = 30;
pub const EDGE_LIGHT_FRAME: i32 = 55;
/// Frame after a completed evolution at which the new form cries.
pub const CRY_FRAME: i32 = 70;
/// Frames a shiny fighter waits after an evolution before its sparkle.
pub const SHINY_EFFECT_DELAY_FRAMES: i32 = 75;
/// Frames a shiny fighter's cry is held back.
pub const SHINY_CRY_DELAY_FRAMES: i32 = 60;
/// Frames the red flash after a cancelled evolution fades over.
pub const CANCEL_FADE_FRAMES: i32 = 45;
/// Frames the shiny sparkle effect and sound last.
pub const SHINY_EFFECT_FRAMES: i32 = 90;
pub const SHINY_SPARKLE_SOUND_FRAMES: i32 = 102;

/// One visual or sound effect of an evolution, performed in order.
#[derive(Debug, Clone, Copy, PartialEq, Eq, Structural)]
pub enum EvolutionEffect {
    /// Start the sparkle that follows the body while evolving.
    SpawnSparkle,
    /// Remove the evolving sparkle, if it still exists, and forget it.
    KillSparkle,
    /// Restore the fighter's normal colours.
    NormalColor,
    /// The burst when an evolution completes.
    CompletionFlash,
    LevelUpSparkle,
    PokemonOut,
    EdgeLight,
    /// The cry of the given stage.
    Cry(EvolutionStage),
    /// The flash when an evolution is cancelled.
    CancelFlash,
    /// A red tint with opacity in thousandths.
    RedFlash { alpha_thousandths: i32 },
}

pub open spec fn fx(b: bool, s: Seq<EvolutionEffect>) -> Seq<EvolutionEffect> {
    if b { s } else { Seq::<EvolutionEffect>::empty() }
}

/// A stage reached by evolving.
pub open spec fn evolved(stage: EvolutionStage) -> bool {
    stage == EvolutionStage::Haunter || stage == EvolutionStage::Gengar
}

/// The cry sound name of a stage (none for the first stage).
pub open spec fn cry_name(stage: EvolutionStage) -> Seq<char> {
    match stage {
        EvolutionStage::Haunter => "cry_haunter"@,
        EvolutionStage::Gengar => "cry_gengar"@,
        EvolutionStage::Gastly => Seq::<char>::empty(),
    }
}

/// The completion burst: it restarts the level-up sequence, and a shiny
/// fighter that reached an evolved stage gets its sparkle scheduled
/// (the `bool`).
pub open spec fn completion_part(run: EvolutionRun, stage: EvolutionStage, shiny: bool)
    -> (EvolutionRun, bool, Seq<EvolutionEffect>)
{
    if run.evolution_just_completed_this_frame {
        (EvolutionRun { evolution_just_completed_this_frame: false, frames_since_level_up_effect: 0, ..run },
            shiny && evolved(stage), seq![EvolutionEffect::CompletionFlash])
    } else {
        (run, false, Seq::<EvolutionEffect>::empty())
    }
}

/// The level-up sequence: effects at frames 20, 30 and 55, the cry at frame
/// 70 (held back for a shiny fighter, the `bool`), after which the sequence
/// ends; the counter advances while the sequence runs.
pub open spec fn sequence_part(run: EvolutionRun, stage: EvolutionStage, shiny: bool)
    -> (EvolutionRun, bool, Seq<EvolutionEffect>)
{
    let f = run.frames_since_level_up_effect;
    let cry = f == CRY_FRAME && evolved(stage);
    let f1: i32 = if f == CRY_FRAME { -1i32 } else { f };
    let f2: i32 = if f1 >= 0 { (f1 + 1) as i32 } else { f1 };
    (EvolutionRun { frames_since_level_up_effect: f2, ..run }, cry && shiny,
        fx(f == LEVEL_UP_FRAME, seq![EvolutionEffect::LevelUpSparkle])
        + fx(f == POKEMON_OUT_FRAME, seq![EvolutionEffect::PokemonOut])
        + fx(f == EDGE_LIGHT_FRAME, seq![EvolutionEffect::EdgeLight])
        + fx(cry && !shiny, seq![EvolutionEffect::Cry(stage)]))
}

/// The red flash opacity `t` frames into the fade, in thousandths: half
/// opacity fading linearly to none over 45 frames.
pub open spec fn fade_alpha(t: int) -> int {
    500 * (CANCEL_FADE_FRAMES - t) / (CANCEL_FADE_FRAMES as int)
}

/// The cancellation feedback: a flash, then a red tint that fades over 45
/// frames, after which normal colours return.
pub open spec fn cancel_part(run: EvolutionRun) -> (EvolutionRun, Seq<EvolutionEffect>) {
    let c = run.evolution_just_cancelled_this_frame;
    let t0: i32 = if c { 0i32 } else { run.evolution_cancel_fade_timer };
    let t1: i32 = (t0 + 1) as i32;
    let r = EvolutionRun { evolution_just_cancelled_this_frame: false, evolution_cancel_fade_timer: t0, ..run };
    if t0 >= 0 {
        if t1 <= CANCEL_FADE_FRAMES {
            (EvolutionRun { evolution_cancel_fade_timer: t1, ..r },
                fx(c, seq![EvolutionEffect::CancelFlash])
                + seq![EvolutionEffect::RedFlash { alpha_thousandths: fade_alpha(t1 as int) as i32 }])
        } else {
            (EvolutionRun { evolution_cancel_fade_timer: -1i32, ..r },
                fx(c, seq![EvolutionEffect::CancelFlash]) + seq![EvolutionEffect::NormalColor])
        }
    } else {
        (r, fx(c, seq![EvolutionEffect::CancelFlash]))
    }
}

/// What one frame of evolution effects does: while evolving only the sparkle
/// starts (once); otherwise the sparkle goes, colours return to normal, and
/// the completion, level-up and cancellation parts follow. The two `bool`s
/// say whether a shiny sparkle is scheduled and whether a cry is held back.
pub open spec fn evolution_effects(run: EvolutionRun, stage: EvolutionStage, shiny: bool, sparkle_spawned: bool)
    -> (EvolutionRun, bool, bool, Seq<EvolutionEffect>)
{
    if run.is_evolving {
        (run, false, false, fx(!sparkle_spawned, seq![EvolutionEffect::SpawnSparkle]))
    } else {
        let (r1, sched, s1) = completion_part(run, stage, shiny);
        let (r2, held, s2) = sequence_part(r1, stage, shiny);
        let (r3, s3) = cancel_part(r2);
        (r3, sched, held,
            fx(sparkle_spawned, seq![EvolutionEffect::KillSparkle]) + seq![EvolutionEffect::NormalColor]
            + s1 + s2 + s3)
    }
}

/// The counters of a finished evolution stay below their limits.
pub open spec fn counters_bounded(run: EvolutionRun) -> bool {
    run.frames_since_level_up_effect < i32::MAX && run.evolution_cancel_fade_timer < i32::MAX
}

fn completion_step(run: EvolutionRun, stage: EvolutionStage, shiny: bool)
    -> (r: (EvolutionRun, bool, Vec<EvolutionEffect>))
    ensures
        (r.0, r.1, r.2@) == completion_part(run, stage, shiny),
{
    let mut out: Vec<EvolutionEffect> = Vec::new();
    let mut r = run;
    let mut sched = false;
    if r.evolution_just_completed_this_frame {
        out.push(EvolutionEffect::CompletionFlash);
        r.evolution_just_completed_this_frame = false;
        r.frames_since_level_up_effect = 0;
        sched = shiny && (stage == EvolutionStage::Haunter || stage == EvolutionStage::Gengar);
    }
    proof {
        assert(out@ =~= completion_part(run, stage, shiny).2);
    }
    (r, sched, out)
}

fn sequence_step(run: EvolutionRun, stage: EvolutionStage, shiny: bool)
    -> (r: (EvolutionRun, bool, Vec<EvolutionEffect>))
    requires
        run.frames_since_level_up_effect < i32::MAX,
    ensures
        (r.0, r.1, r.2@) == sequence_part(run, stage, shiny),
{
    let mut out: Vec<EvolutionEffect> = Vec::new();
    let mut r = run;
    let f = r.frames_since_level_up_effect;
    if f == LEVEL_UP_FRAME {
        out.push(EvolutionEffect::LevelUpSparkle);
    }
    if f == POKEMON_OUT_FRAME {
        out.push(EvolutionEffect::PokemonOut);
    }
    if f == EDGE_LIGHT_FRAME {
        out.push(EvolutionEffect::EdgeLight);
    }
    let cry = f == CRY_FRAME && (stage == EvolutionStage::Haunter || stage == EvolutionStage::Gengar);
    if cry && !shiny {
        out.push(EvolutionEffect::Cry(stage));
    }
    if f == CRY_FRAME {
        r.frames_since_level_up_effect = -1;
    }
    if r.frames_since_level_up_effect >= 0 {
        r.frames_since_level_up_effect = r.frames_since_level_up_effect + 1;
    }
    proof {
        assert(out@ =~= sequence_part(run, stage, shiny).2);
    }
    (r, cry && shiny, out)
}

fn cancel_step(run: EvolutionRun) -> (r: (EvolutionRun, Vec<EvolutionEffect>))
    requires
        run.evolution_cancel_fade_timer < i32::MAX,
    ensures
        (r.0, r.1@) == cancel_part(run),
{
    let mut out: Vec<EvolutionEffect> = Vec::new();
    let mut r = run;
    let c = r.evolution_just_cancelled_this_frame;
    if c {
        out.push(EvolutionEffect::CancelFlash);
        r.evolution_cancel_fade_timer = 0;
        r.evolution_just_cancelled_this_frame = false;
    }
    if r.evolution_cancel_fade_timer >= 0 {
        let t1 = r.evolution_cancel_fade_timer + 1;
        r.evolution_cancel_fade_timer = t1;
        if t1 <= CANCEL_FADE_FRAMES {
            let alpha = 500 * (CANCEL_FADE_FRAMES - t1) / CANCEL_FADE_FRAMES;
            out.push(EvolutionEffect::RedFlash { alpha_thousandths: alpha });
        } else {
            r.evolution_cancel_fade_timer = -1;
            out.push(EvolutionEffect::NormalColor);
        }
    }
    proof {
        assert(out@ =~= cancel_part(run).1);
    }
    (r, out)
}

fn evolution_effects_step(run: EvolutionRun, stage: EvolutionStage, shiny: bool, sparkle_spawned: bool)
    -> (r: (EvolutionRun, bool, bool, Vec<EvolutionEffect>))
    requires
        counters_bounded(run),
    ensures
        (r.0, r.1, r.2, r.3@) == evolution_effects(run, stage, shiny, sparkle_spawned),
{
    let mut out: Vec<EvolutionEffect> = Vec::new();
    if run.is_evolving {
        if !sparkle_spawned {
            out.push(EvolutionEffect::SpawnSparkle);
        }
        proof {
            assert(out@ =~= fx(!sparkle_spawned, seq![EvolutionEffect::SpawnSparkle]));
        }
        return (run, false, false, out);
    }
    if sparkle_spawned {
        out.push(EvolutionEffect::KillSparkle);
    }
    out.push(EvolutionEffect::NormalColor);
    let ghost base = out@;
    let (r1, sched, mut s1) = completion_step(run, stage, shiny);
    let (r2, held, mut s2) = sequence_step(r1, stage, shiny);
    let (r3, mut s3) = cancel_step(r2);
    let ghost (v1, v2, v3) = (s1@, s2@, s3@);
    out.append(&mut s1);
    out.append(&mut s2);
    out.append(&mut s3);
    proof {
        assert(base =~= fx(sparkle_spawned, seq![EvolutionEffect::KillSparkle]) + seq![EvolutionEffect::NormalColor]);
        assert(out@ =~= base + v1 + v2 + v3);
    }
    (r3, sched, held, out)
}

impl PlayerEvolutionState {
    /// The state after one frame of evolution effects: the evolution counters
    /// advance as `evolution_effects` says; a scheduled shiny sparkle waits
    /// 75 frames from this frame; a held-back cry names the stage's cry and
    /// waits 60 frames.
    pub open spec fn after_evolution_effects(self, sparkle_spawned: bool) -> Self {
        let (run, sched, held, _s) = evolution_effects(self.evolution, self.stage, self.shiny.is_shiny, sparkle_spawned);
        let sh1 = if sched {
            crate::state::ShinyState {
                shiny_effect_pending: true,
                shiny_effect_delay_timer: SHINY_EFFECT_DELAY_FRAMES,
                evolution_completion_frame: self.current_frame,
                ..self.shiny
            }
        } else {
            self.shiny
        };
        let sh2 = if held {
            crate::state::ShinyState { delayed_cry_timer: SHINY_CRY_DELAY_FRAMES, ..sh1 }
        } else {
            sh1
        };
        PlayerEvolutionState { evolution: run, shiny: sh2, ..self }
    }
}

/// The evolution effects of one frame. `sparkle_spawned` says whether the
/// evolving sparkle is alive. Returns the effects to perform, in order.
pub fn handle_evolution_effects(player_state: &mut PlayerEvolutionState, sparkle_spawned: bool)
    -> (effects: Vec<EvolutionEffect>)
    requires
        counters_bounded(old(player_state).evolution),
    ensures
        effects@ == evolution_effects(old(player_state).evolution, old(player_state).stage,
            old(player_state).shiny.is_shiny, sparkle_spawned).3,
        final(player_state).stage == old(player_state).stage,
        final(player_state).evolution == old(player_state).after_evolution_effects(sparkle_spawned).evolution,
        final(player_state).current_frame == old(player_state).current_frame,
        ({
            let a = old(player_state).after_evolution_effects(sparkle_spawned);
            let (_r, _s, held, _e) = evolution_effects(old(player_state).evolution, old(player_state).stage,
                old(player_state).shiny.is_shiny, sparkle_spawned);
            &&& final(player_state).shiny.is_shiny == a.shiny.is_shiny
            &&& final(player_state).shiny.shiny_effect_pending == a.shiny.shiny_effect_pending
            &&& final(player_state).shiny.shiny_effect_delay_timer == a.shiny.shiny_effect_delay_timer
            &&& final(player_state).shiny.evolution_completion_frame == a.shiny.evolution_completion_frame
            &&& final(player_state).shiny.delayed_cry_timer == a.shiny.delayed_cry_timer
            &&& final(player_state).shiny.delayed_cry_sound@ == (if held { cry_name(old(player_state).stage) }
                else { old(player_state).shiny.delayed_cry_sound@ })
        }),
        final(player_state).blink == old(player_state).blink,
        final(player_state).progress == old(player_state).progress,
        final(player_state).items == old(player_state).items,
        final(player_state).icons == old(player_state).icons,
        final(player_state).readiness == old(player_state).readiness,
        final(player_state).shadowball == old(player_state).shadowball,
        final(player_state).expression == old(player_state).expression,
        final(player_state).attack == old(player_state).attack,
        final(player_state).inputs == old(player_state).inputs,
        final(player_state).mewtwo == old(player_state).mewtwo,
{
    let (run, sched, held, out) = evolution_effects_step(player_state.evolution, player_state.stage,
        player_state.shiny.is_shiny, sparkle_spawned);
    player_state.evolution = run;
    if sched {
        player_state.shiny.shiny_effect_pending = true;
        player_state.shiny.shiny_effect_delay_timer = SHINY_EFFECT_DELAY_FRAMES;
        player_state.shiny.evolution_completion_frame = player_state.current_frame;
    }
    if held {
        let name = cry_name_string(player_state.stage);
        player_state.shiny.delayed_cry_sound = name;
        player_state.shiny.delayed_cry_timer = SHINY_CRY_DELAY_FRAMES;
    }
    out
}

/// The cry sound name of a stage, as an owned string.
pub fn cry_name_string(stage: EvolutionStage) -> (s: String)
    ensures
        s@ == cry_name(stage),
{
    match stage {
        EvolutionStage::Haunter => {
            proof { reveal_strlit("cry_haunter"); }
            "cry_haunter".to_owned()
        },
        EvolutionStage::Gengar => {
            proof { reveal_strlit("cry_gengar"); }
            "cry_gengar".to_owned()
        },
        EvolutionStage::Gastly => String::new(),
    }
}

/// What the shiny sparkle remembers between frames.
#[derive(Debug, Clone, Copy, PartialEq, Eq, Structural)]
pub struct ShinyTracker {
    /// The status seen on the last frame in the first stage.
    pub last_gastly_status: i32,
}

impl ShinyTracker {
    /// Nothing seen yet.
    pub fn new() -> (t: Self)
        ensures
            t.last_gastly_status == -1,
    {
        ShinyTracker { last_gastly_status: -1 }
    }
}

/// The shiny sparkle triggers of one frame, for a shiny fighter: making an
/// entrance in the first stage (once per status change), and a scheduled
/// sparkle whose delay has run out (the delay counts down first). Returns the
/// new tracker, the pending flag and delay, and how many sparkles start.
pub open spec fn shiny_triggers(t: ShinyTracker, stage: EvolutionStage, status: i32, is_entry: bool,
    pending: bool, delay: i32) -> (ShinyTracker, bool, i32, nat)
{
    let first = stage == EvolutionStage::Gastly;
    let entry_spawn = first && is_entry && t.last_gastly_status != status;
    let t1 = if first { ShinyTracker { last_gastly_status: status } } else { t };
    let (p1, d1, due) = if pending {
        if delay > 0 { (true, (delay - 1) as i32, false) }
        else if delay == 0 { (false, -1i32, true) }
        else { (true, delay, false) }
    } else {
        (false, delay, false)
    };
    (t1, p1, d1, (if entry_spawn { 1nat } else { 0nat }) + (if due { 1nat } else { 0nat }))
}

/// The shiny sparkle triggers of one frame (nothing for a fighter that is not
/// shiny). `is_entry` says whether the fighter is making its entrance.
/// Returns how many sparkles to start.
pub fn handle_shiny_effects(player_state: &mut PlayerEvolutionState, tracker: &mut ShinyTracker,
    status: i32, is_entry: bool) -> (spawns: u8)
    ensures
        ({
            let (t, p, d, n) = shiny_triggers(*old(tracker), old(player_state).stage, status, is_entry,
                old(player_state).shiny.shiny_effect_pending, old(player_state).shiny.shiny_effect_delay_timer);
            if old(player_state).shiny.is_shiny {
                &&& *final(tracker) == t
                &&& final(player_state).shiny.shiny_effect_pending == p
                &&& final(player_state).shiny.shiny_effect_delay_timer == d
                &&& spawns == n
            } else {
                &&& *final(tracker) == *old(tracker)
                &&& final(player_state).shiny.shiny_effect_pending == old(player_state).shiny.shiny_effect_pending
                &&& final(player_state).shiny.shiny_effect_delay_timer == old(player_state).shiny.shiny_effect_delay_timer
                &&& spawns == 0
            }
        }),
        final(player_state).shiny.is_shiny == old(player_state).shiny.is_shiny,
        final(player_state).shiny.evolution_completion_frame == old(player_state).shiny.evolution_completion_frame,
        final(player_state).shiny.delayed_cry_timer == old(player_state).shiny.delayed_cry_timer,
        final(player_state).shiny.delayed_cry_sound@ == old(player_state).shiny.delayed_cry_sound@,
        final(player_state).stage == old(player_state).stage,
        final(player_state).evolution == old(player_state).evolution,
        final(player_state).current_frame == old(player_state).current_frame,
        final(player_state).blink == old(player_state).blink,
        final(player_state).progress == old(player_state).progress,
        final(player_state).items == old(player_state).items,
        final(player_state).icons == old(player_state).icons,
        final(player_state).readiness == old(player_state).readiness,
        final(player_state).shadowball == old(player_state).shadowball,
        final(player_state).expression == old(player_state).expression,
        final(player_state).attack == old(player_state).attack,
        final(player_state).inputs == old(player_state).inputs,
        final(player_state).mewtwo == old(player_state).mewtwo,
{
    if !player_state.shiny.is_shiny {
        return 0;
    }
    let mut spawns: u8 = 0;
    if player_state.stage == EvolutionStage::Gastly {
        if is_entry && tracker.last_gastly_status != status {
            spawns = spawns + 1;
        }
        tracker.last_gastly_status = status;
    }
    if player_state.shiny.shiny_effect_pending {
        if player_state.shiny.shiny_effect_delay_timer > 0 {
            player_state.shiny.shiny_effect_delay_timer = player_state.shiny.shiny_effect_delay_timer - 1;
        } else if player_state.shiny.shiny_effect_delay_timer == 0 {
            spawns = spawns + 1;
            player_state.shiny.shiny_effect_pending = false;
            player_state.shiny.shiny_effect_delay_timer = -1;
        }
    }
    spawns
}

/// A running effect timer in frames: it advances, and the effect ends (the
/// `bool`) once it reaches `frames`.
pub open spec fn effect_timer_tick(active: bool, timer: i32, frames: i32) -> (bool, i32, bool) {
    if active {
        let n = timer + 1;
        (n < frames, n as i32, n >= frames)
    } else {
        (false, timer, false)
    }
}

/// One frame of the shiny sparkle effect (90 frames) or sound (102 frames):
/// returns whether it still runs, its new timer, and whether to end it now.
pub fn tick_shiny_timer(active: bool, timer: i32, frames: i32) -> (r: (bool, i32, bool))
    requires
        timer < i32::MAX,
    ensures
        r == effect_timer_tick(active, timer, frames),
{
    if active {
        let n = timer + 1;
        (n < frames, n, n >= frames)
    } else {
        (false, timer, false)
    }
}

/// One frame of a held-back cry: the delay counts down and, on reaching zero
/// with a cry named, the cry is returned to play and forgotten.
pub fn tick_delayed_cry(player_state: &mut PlayerEvolutionState) -> (cry: Option<String>)
    ensures
        ({
            let t = old(player_state).shiny.delayed_cry_timer;
            let due = t > 0 && t - 1 == 0 && old(player_state).shiny.delayed_cry_sound@.len() > 0;
            &&& final(player_state).shiny.delayed_cry_timer == (if t > 0 { (t - 1) as i32 } else { t })
            &&& (due ==> cry.is_some() && cry.unwrap()@ == old(player_state).shiny.delayed_cry_sound@
                    && final(player_state).shiny.delayed_cry_sound@ == Seq::<char>::empty())
            &&& (!due ==> cry.is_none()
                    && final(player_state).shiny.delayed_cry_sound@ == old(player_state).shiny.delayed_cry_sound@)
        }),
        final(player_state).shiny.is_shiny == old(player_state).shiny.is_shiny,
        final(player_state).shiny.shiny_effect_pending == old(player_state).shiny.shiny_effect_pending,
        final(player_state).shiny.shiny_effect_delay_timer == old(player_state).shiny.shiny_effect_delay_timer,
        final(player_state).shiny.evolution_completion_frame == old(player_state).shiny.evolution_completion_frame,
        final(player_state).stage == old(player_state).stage,
        final(player_state).evolution == old(player_state).evolution,
        final(player_state).current_frame == old(player_state).current_frame,
        final(player_state).blink == old(player_state).blink,
        final(player_state).progress == old(player_state).progress,
        final(player_state).items == old(player_state).items,
        final(player_state).icons == old(player_state).icons,
        final(player_state).readiness == old(player_state).readiness,
        final(player_state).shadowball == old(player_state).shadowball,
        final(player_state).expression == old(player_state).expression,
        final(player_state).attack == old(player_state).attack,
        final(player_state).inputs == old(player_state).inputs,
        final(player_state).mewtwo == old(player_state).mewtwo,
{
    if player_state.shiny.delayed_cry_timer > 0 {
        player_state.shiny.delayed_cry_timer = player_state.shiny.delayed_cry_timer - 1;
        if player_state.shiny.delayed_cry_timer == 0 && !player_state.shiny.delayed_cry_sound.as_str().is_empty() {
            let name = player_state.shiny.delayed_cry_sound.clone();
            player_state.shiny.delayed_cry_sound = String::new();
            return Some(name);
        }
    }
    None
}

/// Records whether the fighter wears a shiny costume: a new fighter takes
/// `shiny_costume`, and so does one not yet known as shiny; a shiny fighter
/// stays shiny.
pub fn update_shiny_flag(player_state: &mut PlayerEvolutionState, is_new_state: bool, shiny_costume: bool)
    ensures
        *final(player_state) == (PlayerEvolutionState {
            shiny: crate::state::ShinyState {
                is_shiny: if is_new_state || !old(player_state).shiny.is_shiny { shiny_costume } else { true },
                ..old(player_state).shiny
            },
            ..*old(player_state)
        }),
{
    if is_new_state || !player_state.shiny.is_shiny {
        player_state.shiny.is_shiny = shiny_costume;
    }
}

/// The evolution run after `n` frames of evolution effects from `run`,
/// frame `i` (from 1) with the sparkle alive as `sparkles[i - 1]` says.
pub open spec fn effects_run_after(run: EvolutionRun, stage: EvolutionStage, shiny: bool, sparkles: Seq<bool>, n: nat)
    -> EvolutionRun
    decreases n,
{
    if n == 0 {
        run
    } else {
        evolution_effects(effects_run_after(run, stage, shiny, sparkles, (n - 1) as nat), stage, shiny, sparkles[n - 1]).0
    }
}

/// The evolution effects of frame `n` (from 1) from `run`: the effects, and
/// whether a shiny sparkle is scheduled and a cry held back.
pub open spec fn effects_at(run: EvolutionRun, stage: EvolutionStage, shiny: bool, sparkles: Seq<bool>, n: nat)
    -> (bool, bool, Seq<EvolutionEffect>)
{
    let r = evolution_effects(effects_run_after(run, stage, shiny, sparkles, (n - 1) as nat), stage, shiny, sparkles[n - 1]);
    (r.1, r.2, r.3)
}

proof fn lemma_effects_run(run: EvolutionRun, stage: EvolutionStage, shiny: bool, sparkles: Seq<bool>, n: nat)
    requires
        !run.is_evolving,
        run.evolution_just_completed_this_frame,
        !run.evolution_just_cancelled_this_frame,
        run.evolution_cancel_fade_timer == -1,
        n >= 1,
    ensures
        ({
            let r = effects_run_after(run, stage, shiny, sparkles, n);
            &&& !r.is_evolving
            &&& !r.evolution_just_completed_this_frame
            &&& !r.evolution_just_cancelled_this_frame
            &&& r.evolution_cancel_fade_timer == -1
            &&& r.frames_since_level_up_effect == if n <= 70 { n as int } else { -1 }
        }),
    decreases n,
{
    if n > 1 {
        lemma_effects_run(run, stage, shiny, sparkles, (n - 1) as nat);
    } else {
        assert(effects_run_after(run, stage, shiny, sparkles, 0) == run);
    }
}

/// Law: after an evolution completes (and no cancel fade runs), frame 1
/// shows the completion burst, frame 21 the level-up sparkle, frame 31 the
/// Pokemon-out effect, frame 56 the edge light and frame 71 the new form's
/// cry (held back instead for a shiny fighter, whose sparkle is scheduled on
/// frame 1); every frame restores the normal colours after removing a live
/// evolving sparkle, and no other effect comes.
pub proof fn lemma_completion_effects_timeline(run: EvolutionRun, stage: EvolutionStage, shiny: bool,
    sparkles: Seq<bool>, n: nat)
    requires
        !run.is_evolving,
        run.evolution_just_completed_this_frame,
        !run.evolution_just_cancelled_this_frame,
        run.evolution_cancel_fade_timer == -1,
        evolved(stage),
        n >= 1,
    ensures
        ({
            let (sched, held, e) = effects_at(run, stage, shiny, sparkles, n);
            &&& sched == (n == 1 && shiny)
            &&& held == (n == 71 && shiny)
            &&& e == fx(sparkles[n - 1], seq![EvolutionEffect::KillSparkle]) + seq![EvolutionEffect::NormalColor]
                + fx(n == 1, seq![EvolutionEffect::CompletionFlash])
                + fx(n == 21, seq![EvolutionEffect::LevelUpSparkle])
                + fx(n == 31, seq![EvolutionEffect::PokemonOut])
                + fx(n == 56, seq![EvolutionEffect::EdgeLight])
                + fx(n == 71 && !shiny, seq![EvolutionEffect::Cry(stage)])
        }),
{
    if n > 1 {
        lemma_effects_run(run, stage, shiny, sparkles, (n - 1) as nat);
    }
    let (sched, held, e) = effects_at(run, stage, shiny, sparkles, n);
    assert(e =~= fx(sparkles[n - 1], seq![EvolutionEffect::KillSparkle]) + seq![EvolutionEffect::NormalColor]
        + fx(n == 1, seq![EvolutionEffect::CompletionFlash])
        + fx(n == 21, seq![EvolutionEffect::LevelUpSparkle])
        + fx(n == 31, seq![EvolutionEffect::PokemonOut])
        + fx(n == 56, seq![EvolutionEffect::EdgeLight])
        + fx(n == 71 && !shiny, seq![EvolutionEffect::Cry(stage)]));
}

} // verus!
