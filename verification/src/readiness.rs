use vstd::prelude::*;
use crate::stage::{
    EvolutionStage, READINESS_ICON_DURATION, GASTLY_EVO_DMG_RECEIVED_THRESHOLD,
    HAUNTER_EVO_DMG_RECEIVED_THRESHOLD, GASTLY_EVO_HITS_THRESHOLD, HAUNTER_EVO_HITS_THRESHOLD,
};
use crate::state::{PlayerEvolutionState, EvolutionProgress, ReadinessIcons};
use crate::icons::lc_attempt_up;

verus! {

/// Frames after an evolution before the readiness lockouts are lifted.
pub const EVOLUTION_LOCKOUT_RESET_DURATION: i32 = 300;
/// Frames between two charge bullet hold effects under the SS or SE icon.
pub const CHARGEBULLET_RESPAWN_INTERVAL: i32 = 30;
/// A damage penalty above this (50%) is taken for a bookkeeping error and dropped.
pub const MAX_DAMAGE_PENALTY: i32 = 50000;
/// Hits above the base requirement by more than this are taken for a
/// bookkeeping error: the stage's progress starts over.
pub const HITS_SLACK: i32 = 10;

/// What the readiness icons remember about one fighter between frames,
/// besides the icons themselves.
#[derive(Debug, Clone, Copy, PartialEq, Eq, Structural)]
pub struct ReadinessTracker {
    /// The eyes already flashed for a readiness icon.
    pub flash_occurred: bool,
    /// Frame of the last charge bullet hold effect under the SS icon.
    pub last_ss_chargebullet_frame: i32,
    /// The charge bullet start effect of the SE icon is alive.
    pub se_chargebullet_start_spawned: bool,
    /// Frame of the last charge bullet hold effect under the SE icon.
    pub last_se_chargebullet_frame: i32,
    /// The damage condition held on the previous frame.
    pub prev_damage_met: bool,
    /// The hits condition held on the previous frame.
    pub prev_hits_met: bool,
    /// The first condition sound has played.
    pub first_condition_played: bool,
}

impl ReadinessTracker {
    pub open spec fn initial() -> Self {
        ReadinessTracker {
            flash_occurred: false,
            last_ss_chargebullet_frame: -30i32,
            se_chargebullet_start_spawned: false,
            last_se_chargebullet_frame: -30i32,
            prev_damage_met: false,
            prev_hits_met: false,
            first_condition_played: false,
        }
    }

    /// Nothing seen yet.
    pub fn new() -> (r: Self)
        ensures
            r == Self::initial(),
    {
        ReadinessTracker {
            flash_occurred: false,
            last_ss_chargebullet_frame: -30,
            se_chargebullet_start_spawned: false,
            last_se_chargebullet_frame: -30,
            prev_damage_met: false,
            prev_hits_met: false,
            first_condition_played: false,
        }
    }

    /// Records that the SS icon's hold effect spawned on `frame`.
    pub fn record_ss_hold_spawned(&mut self, frame: i32)
        ensures
            *final(self) == (ReadinessTracker { last_ss_chargebullet_frame: frame, ..*old(self) }),
    {
        self.last_ss_chargebullet_frame = frame;
    }

    /// Records that the SE icon's start effect spawned.
    pub fn record_se_start_spawned(&mut self)
        ensures
            *final(self) == (ReadinessTracker { se_chargebullet_start_spawned: true, ..*old(self) }),
    {
        self.se_chargebullet_start_spawned = true;
    }

    /// Records that the SE icon's hold effect spawned on `frame`.
    pub fn record_se_hold_spawned(&mut self, frame: i32)
        ensures
            *final(self) == (ReadinessTracker { last_se_chargebullet_frame: frame, ..*old(self) }),
    {
        self.last_se_chargebullet_frame = frame;
    }
}

/// What the caller does after one frame of the readiness icons. The effect
/// operations are performed in field order.
#[derive(Debug, Clone, Copy, PartialEq, Eq, Structural)]
pub struct ReadinessFrame {
    pub t_icon_visible: bool,
    pub d_icon_visible: bool,
    pub ss_icon_visible: bool,
    pub se_icon_visible: bool,
    /// Flash the eyes.
    pub flash_eye: bool,
    /// Spawn the counter flash effect (the SS icon appeared).
    pub counter_flash: bool,
    /// Spawn a charge bullet hold effect for the SS icon.
    pub spawn_ss_hold: bool,
    /// Kill every charge bullet hold effect.
    pub kill_hold_after_ss: bool,
    /// Play the SE sound and spawn the charge bullet start effect.
    pub spawn_se_start: bool,
    /// Spawn a charge bullet hold effect for the SE icon.
    pub spawn_se_hold: bool,
    /// Kill every charge bullet hold effect.
    pub kill_hold_after_se: bool,
    /// Kill every charge bullet start effect.
    pub kill_start_after_se: bool,
    /// Play the sound of the first condition met.
    pub first_condition_sound: bool,
    /// Play the sound of both conditions met.
    pub second_condition_sound: bool,
}

/// A frame with nothing to do and every icon hidden.
pub open spec fn quiet_frame() -> ReadinessFrame {
    ReadinessFrame {
        t_icon_visible: false,
        d_icon_visible: false,
        ss_icon_visible: false,
        se_icon_visible: false,
        flash_eye: false,
        counter_flash: false,
        spawn_ss_hold: false,
        kill_hold_after_ss: false,
        spawn_se_start: false,
        spawn_se_hold: false,
        kill_hold_after_se: false,
        kill_start_after_se: false,
        first_condition_sound: false,
        second_condition_sound: false,
    }
}

/// The readiness icons are kept down: during an evolution, under the
/// everstone, as Gengar, or while the linking cord evolution icon is up.
pub open spec fn readiness_suppressed(s: PlayerEvolutionState) -> bool {
    s.evolution.is_evolving || s.items.everstone_effect_active || s.stage == EvolutionStage::Gengar
        || lc_attempt_up(s.icons)
}

/// Integer halving rounded toward zero, as machine division does it.
pub open spec fn half_toward_zero(x: int) -> int {
    if x >= 0 { x / 2 } else { -((-x) / 2) }
}

/// The stage's progress with implausible bookkeeping dropped: a hits penalty
/// above the base requirement, a damage penalty above 50%, and (all of it)
/// when more than ten hits above the base requirement were counted.
#[verifier::opaque]
pub open spec fn sanitized(p: EvolutionProgress, base_hits: int) -> EvolutionProgress {
    if p.hits_landed_this_stage > base_hits + HITS_SLACK {
        EvolutionProgress {
            hits_landed_this_stage: 0,
            damage_received_this_stage: 0,
            evo_attempt_delay_hits_penalty: 0,
            evo_attempt_delay_damage_taken_penalty: 0,
            ..p
        }
    } else {
        EvolutionProgress {
            evo_attempt_delay_hits_penalty:
                if p.evo_attempt_delay_hits_penalty > base_hits { 0i32 } else { p.evo_attempt_delay_hits_penalty },
            evo_attempt_delay_damage_taken_penalty:
                if p.evo_attempt_delay_damage_taken_penalty > MAX_DAMAGE_PENALTY { 0i32 } else { p.evo_attempt_delay_damage_taken_penalty },
            ..p
        }
    }
}

/// The lockouts after the evolution timeout, the unlocking of conditions no
/// longer met, and the flash reset (after the timeout or a large drop in
/// progress); also the new last-confirmation frame.
#[verifier::opaque]
pub open spec fn locks_updated(
    r: ReadinessIcons, t: ReadinessTracker, last_conf: i32, frame: i32, dmet: bool, hmet: bool, drop: bool,
) -> (ReadinessIcons, ReadinessTracker, i32) {
    let timed_out = last_conf != -1 && frame - last_conf >= EVOLUTION_LOCKOUT_RESET_DURATION;
    let r1 = if timed_out { ReadinessIcons::cleared() } else { r };
    let r2 = ReadinessIcons {
        dmg_t_icon_is_locked_out: r1.dmg_t_icon_is_locked_out && dmet,
        dmg_d_icon_is_locked_out: r1.dmg_d_icon_is_locked_out && hmet,
        dmg_ss_icon_is_locked_out: r1.dmg_ss_icon_is_locked_out && dmet && hmet,
        dmg_se_icon_is_locked_out: r1.dmg_se_icon_is_locked_out && dmet && hmet,
        ..r1
    };
    (r2, ReadinessTracker { flash_occurred: t.flash_occurred && !timed_out && !drop, ..t },
        if timed_out { -1i32 } else { last_conf })
}

/// The icons after this frame's triggers: both conditions start the SS icon
/// (taking the T and D icons down and locking them), else the damage
/// condition starts the T icon, else the hits condition the D icon. Also the
/// new flash memory, whether the eyes flash, and whether the SS icon started.
#[verifier::opaque]
pub open spec fn triggered(r: ReadinessIcons, flashed: bool, dmet: bool, hmet: bool, can_flash: bool)
    -> (ReadinessIcons, bool, bool, bool)
{
    let ss_go = dmet && hmet && r.dmg_ss_icon_display_timer == 0 && !r.dmg_ss_icon_is_locked_out
        && r.dmg_se_icon_display_timer == 0 && !r.dmg_se_icon_is_locked_out;
    let r1 = if ss_go {
        ReadinessIcons {
            dmg_ss_icon_display_timer: READINESS_ICON_DURATION,
            dmg_t_icon_display_timer: 0,
            dmg_t_icon_is_locked_out: true,
            dmg_d_icon_display_timer: 0,
            dmg_d_icon_is_locked_out: true,
            ..r
        }
    } else {
        r
    };
    let busy = ss_go || r1.dmg_ss_icon_display_timer > 0 || r1.dmg_se_icon_display_timer > 0;
    let t_go = !busy && dmet && r1.dmg_t_icon_display_timer == 0 && !r1.dmg_t_icon_is_locked_out;
    let r2 = if t_go { ReadinessIcons { dmg_t_icon_display_timer: READINESS_ICON_DURATION, ..r1 } } else { r1 };
    let d_go = !busy && !t_go && hmet && r2.dmg_d_icon_display_timer == 0 && !r2.dmg_d_icon_is_locked_out;
    let r3 = if d_go { ReadinessIcons { dmg_d_icon_display_timer: READINESS_ICON_DURATION, ..r2 } } else { r2 };
    let flash = (ss_go || t_go || d_go) && can_flash && !flashed;
    (r3, flashed || flash, flash, ss_go)
}

/// The T and D icons after their countdown (an icon that runs out locks),
/// with whether each was shown.
#[verifier::opaque]
pub open spec fn small_icons_ticked(r: ReadinessIcons) -> (ReadinessIcons, bool, bool) {
    let t_vis = r.dmg_t_icon_display_timer > 0;
    let nt = if t_vis { (r.dmg_t_icon_display_timer - 1) as i32 } else { r.dmg_t_icon_display_timer };
    let d_vis = r.dmg_d_icon_display_timer > 0;
    let nd = if d_vis { (r.dmg_d_icon_display_timer - 1) as i32 } else { r.dmg_d_icon_display_timer };
    (ReadinessIcons {
        dmg_t_icon_display_timer: nt,
        dmg_t_icon_is_locked_out: if t_vis && nt == 0 { true } else { r.dmg_t_icon_is_locked_out },
        dmg_d_icon_display_timer: nd,
        dmg_d_icon_is_locked_out: if d_vis && nd == 0 { true } else { r.dmg_d_icon_is_locked_out },
        ..r
    }, t_vis, d_vis)
}

/// The SS icon's countdown: whether it shows, whether a hold effect spawns,
/// whether the hold effects are killed; when it runs out it locks and, if
/// both conditions still hold, the SE icon starts (flashing the eyes). Also
/// the new flash memory and whether the eyes flash.
#[verifier::opaque]
pub open spec fn ss_ticked(r: ReadinessIcons, t: ReadinessTracker, frame: i32, both: bool, can_flash: bool, flashed: bool)
    -> (ReadinessIcons, ReadinessFrame, bool)
{
    if r.dmg_ss_icon_display_timer > 0 {
        let spawn = frame - t.last_ss_chargebullet_frame >= CHARGEBULLET_RESPAWN_INTERVAL;
        let n = (r.dmg_ss_icon_display_timer - 1) as i32;
        if n == 0 {
            let se_go = both && r.dmg_se_icon_display_timer == 0 && !r.dmg_se_icon_is_locked_out;
            let r1 = ReadinessIcons { dmg_ss_icon_display_timer: 0, dmg_ss_icon_is_locked_out: true, ..r };
            let r2 = if se_go {
                ReadinessIcons { dmg_se_icon_display_timer: READINESS_ICON_DURATION, dmg_se_icon_is_locked_out: false, ..r1 }
            } else {
                r1
            };
            let flash = se_go && can_flash && !flashed;
            (r2, ReadinessFrame { ss_icon_visible: true, spawn_ss_hold: spawn, kill_hold_after_ss: true, flash_eye: flash, ..quiet_frame() },
                flashed || flash)
        } else {
            (ReadinessIcons { dmg_ss_icon_display_timer: n, ..r },
                ReadinessFrame { ss_icon_visible: true, spawn_ss_hold: spawn, ..quiet_frame() }, flashed)
        }
    } else {
        (r, ReadinessFrame { kill_hold_after_ss: r.dmg_se_icon_display_timer == 0, ..quiet_frame() }, flashed)
    }
}

/// The SE icon's countdown: whether it shows, whether its start effect
/// (with the SE sound) and a hold effect spawn, and which effects are killed.
#[verifier::opaque]
pub open spec fn se_ticked(r: ReadinessIcons, t: ReadinessTracker, frame: i32)
    -> (ReadinessIcons, ReadinessTracker, ReadinessFrame)
{
    if r.dmg_se_icon_display_timer > 0 {
        let start = r.dmg_se_icon_display_timer == READINESS_ICON_DURATION && !t.se_chargebullet_start_spawned;
        let hold = frame - t.last_se_chargebullet_frame >= CHARGEBULLET_RESPAWN_INTERVAL;
        let n = (r.dmg_se_icon_display_timer - 1) as i32;
        if n == 0 {
            (ReadinessIcons { dmg_se_icon_display_timer: 0, dmg_se_icon_is_locked_out: true, ..r },
                ReadinessTracker { se_chargebullet_start_spawned: false, ..t },
                ReadinessFrame { se_icon_visible: true, spawn_se_start: start, spawn_se_hold: hold,
                    kill_hold_after_se: true, kill_start_after_se: true, ..quiet_frame() })
        } else {
            (ReadinessIcons { dmg_se_icon_display_timer: n, ..r }, t,
                ReadinessFrame { se_icon_visible: true, spawn_se_start: start, spawn_se_hold: hold, ..quiet_frame() })
        }
    } else {
        (r, ReadinessTracker { se_chargebullet_start_spawned: false, ..t },
            ReadinessFrame { kill_hold_after_se: r.dmg_ss_icon_display_timer == 0, kill_start_after_se: true, ..quiet_frame() })
    }
}

/// The condition sounds: the first when one condition newly holds (once until
/// neither holds), the second when both newly hold after the first played.
#[verifier::opaque]
pub open spec fn condition_sounds(t: ReadinessTracker, dmet: bool, hmet: bool) -> (ReadinessTracker, bool, bool) {
    let first = !(t.prev_damage_met || t.prev_hits_met) && (dmet || hmet) && !t.first_condition_played;
    let played = t.first_condition_played || first;
    let second = !(t.prev_damage_met && t.prev_hits_met) && dmet && hmet && played;
    (ReadinessTracker {
        first_condition_played: if !dmet && !hmet { false } else { played },
        prev_damage_met: dmet,
        prev_hits_met: hmet,
        ..t
    }, first, second)
}

/// The two conditions on sanitized progress `p`, against requirements `rd`
/// and `rh`, and whether progress dropped below half of them.
#[verifier::opaque]
pub open spec fn conditions(p: EvolutionProgress, rd: int, rh: int) -> (bool, bool, bool) {
    (p.damage_received_this_stage >= rd, p.hits_landed_this_stage >= rh,
        2 * p.damage_received_this_stage < rd || p.hits_landed_this_stage < half_toward_zero(rh))
}

/// One frame of the readiness icons on a fighter's progress `p0` and icons
/// `r0` on frame `frame`, with requirements `rd` (damage) and `rh` (hits)
/// taken before sanitizing and base hit requirement `bh`. `can_flash`: the
/// fighter is neither on standby nor making its entrance.
pub open spec fn readiness_core(
    p0: EvolutionProgress, r0: ReadinessIcons, t: ReadinessTracker, frame: i32,
    rd: int, rh: int, bh: int, can_flash: bool,
) -> (EvolutionProgress, ReadinessIcons, ReadinessTracker, ReadinessFrame) {
    let p = sanitized(p0, bh);
    let (dmet, hmet, drop) = conditions(p, rd, rh);
    let (r1, t1, lc) = locks_updated(r0, t, p.last_evolution_confirmation_frame, frame, dmet, hmet, drop);
    let (r2, fl2, flash_a, counter) = triggered(r1, t1.flash_occurred, dmet, hmet, can_flash);
    let (r3, t_vis, d_vis) = small_icons_ticked(r2);
    let (r4, fss, fl4) = ss_ticked(r3, t1, frame, dmet && hmet, can_flash, fl2);
    let (r5, t5, fse) = se_ticked(r4, t1, frame);
    let (t6, snd1, snd2) = condition_sounds(ReadinessTracker { flash_occurred: fl4, ..t5 }, dmet, hmet);
    (EvolutionProgress { last_evolution_confirmation_frame: lc, ..p }, r5, t6, ReadinessFrame {
        t_icon_visible: t_vis,
        d_icon_visible: d_vis,
        ss_icon_visible: fss.ss_icon_visible,
        se_icon_visible: fse.se_icon_visible,
        flash_eye: flash_a || fss.flash_eye,
        counter_flash: counter,
        spawn_ss_hold: fss.spawn_ss_hold,
        kill_hold_after_ss: fss.kill_hold_after_ss,
        spawn_se_start: fse.spawn_se_start,
        spawn_se_hold: fse.spawn_se_hold,
        kill_hold_after_se: fse.kill_hold_after_se,
        kill_start_after_se: fse.kill_start_after_se,
        first_condition_sound: snd1,
        second_condition_sound: snd2,
    })
}

/// One frame of the readiness icons (see `handle_evolution_readiness_icons`).
pub open spec fn readiness_step(s: PlayerEvolutionState, t: ReadinessTracker, can_flash: bool)
    -> (PlayerEvolutionState, ReadinessTracker, ReadinessFrame)
{
    if readiness_suppressed(s) {
        (PlayerEvolutionState { readiness: ReadinessIcons::cleared(), ..s }, t,
            ReadinessFrame { kill_hold_after_se: true, kill_start_after_se: true, ..quiet_frame() })
    } else {
        let (bd, bh): (int, int) = if s.stage == EvolutionStage::Gastly {
            (GASTLY_EVO_DMG_RECEIVED_THRESHOLD as int, GASTLY_EVO_HITS_THRESHOLD as int)
        } else {
            (HAUNTER_EVO_DMG_RECEIVED_THRESHOLD as int, HAUNTER_EVO_HITS_THRESHOLD as int)
        };
        let (p, r, t1, f) = readiness_core(s.progress, s.readiness, t, s.current_frame,
            bd + s.progress.evo_attempt_delay_damage_taken_penalty,
            bh + s.progress.evo_attempt_delay_hits_penalty, bh, can_flash);
        (PlayerEvolutionState { progress: p, readiness: r, ..s }, t1, f)
    }
}



/// The SS and SE icons never show together, nor beside the T or D icon.
pub open spec fn readiness_exclusive(r: ReadinessIcons) -> bool {
    &&& (r.dmg_ss_icon_display_timer > 0 || r.dmg_se_icon_display_timer > 0)
        ==> r.dmg_t_icon_display_timer == 0 && r.dmg_d_icon_display_timer == 0
    &&& !(r.dmg_ss_icon_display_timer > 0 && r.dmg_se_icon_display_timer > 0)
}

/// Law: a frame of the readiness icons keeps the SS/SE icons apart from each
/// other and from the T/D icons, and never shows the T or D icon in a frame
/// that shows the SS or SE icon.
pub proof fn lemma_readiness_exclusive(s: PlayerEvolutionState, t: ReadinessTracker, can_flash: bool)
    requires
        readiness_exclusive(s.readiness),
    ensures
        readiness_exclusive(readiness_step(s, t, can_flash).0.readiness),
        readiness_step(s, t, can_flash).2.ss_icon_visible || readiness_step(s, t, can_flash).2.se_icon_visible
            ==> !readiness_step(s, t, can_flash).2.t_icon_visible && !readiness_step(s, t, can_flash).2.d_icon_visible,
{
    reveal(sanitized);
    reveal(conditions);
    reveal(locks_updated);
    reveal(triggered);
    reveal(small_icons_ticked);
    reveal(ss_ticked);
    reveal(se_ticked);
    reveal(condition_sounds);
}

/// Law: while evolving, with the everstone on, as Gengar, or while the
/// linking cord attempt icon shows, no readiness icon shows, all four are
/// cleared, no effect starts, and the running ones are removed.
pub proof fn lemma_readiness_quiet_when_suppressed(s: PlayerEvolutionState, t: ReadinessTracker, can_flash: bool)
    requires
        s.evolution.is_evolving || s.items.everstone_effect_active || s.stage == EvolutionStage::Gengar
            || lc_attempt_up(s.icons),
    ensures
        ({
            let (s1, t1, f) = readiness_step(s, t, can_flash);
            &&& s1.readiness == ReadinessIcons::cleared()
            &&& t1 == t
            &&& !f.t_icon_visible && !f.d_icon_visible && !f.ss_icon_visible && !f.se_icon_visible
            &&& !f.flash_eye && !f.counter_flash
            &&& !f.spawn_ss_hold && !f.spawn_se_start && !f.spawn_se_hold
            &&& !f.first_condition_sound && !f.second_condition_sound
            &&& f.kill_hold_after_se && f.kill_start_after_se
        }),
{
}

/// Law: the hits condition stands on its own. For a Gastly or Haunter
/// whose readiness icons are neither suppressed, showing nor locked, that has
/// landed its required hits (penalty included, within the plausible range)
/// but taken less than its base damage requirement, the frame shows the hits
/// (D) icon and starts its countdown, not the damage (T) icon; the eyes
/// flash unless they already did (or the fighter is on standby or entering),
/// and the first condition sound plays unless a condition held before.
pub proof fn lemma_hits_alone_show_the_hits_icon(s: PlayerEvolutionState, t: ReadinessTracker, can_flash: bool)
    requires
        !readiness_suppressed(s),
        s.readiness == ReadinessIcons::cleared(),
        ({
            let (bd, bh): (int, int) = if s.stage == EvolutionStage::Gastly {
                (GASTLY_EVO_DMG_RECEIVED_THRESHOLD as int, GASTLY_EVO_HITS_THRESHOLD as int)
            } else {
                (HAUNTER_EVO_DMG_RECEIVED_THRESHOLD as int, HAUNTER_EVO_HITS_THRESHOLD as int)
            };
            &&& bh + s.progress.evo_attempt_delay_hits_penalty <= s.progress.hits_landed_this_stage <= bh + HITS_SLACK
            &&& s.progress.damage_received_this_stage < bd
            &&& s.progress.evo_attempt_delay_damage_taken_penalty >= 0
        }),
    ensures
        ({
            let (s1, t1, f) = readiness_step(s, t, can_flash);
            &&& f.d_icon_visible
            &&& !f.t_icon_visible
            &&& !f.ss_icon_visible && !f.se_icon_visible
            &&& s1.readiness.dmg_d_icon_display_timer == READINESS_ICON_DURATION - 1
            &&& (can_flash && !t.flash_occurred ==> f.flash_eye)
            &&& (!t.prev_damage_met && !t.prev_hits_met && !t.first_condition_played ==> f.first_condition_sound)
        }),
{
    reveal(sanitized);
    reveal(conditions);
    reveal(locks_updated);
    reveal(triggered);
    reveal(small_icons_ticked);
    reveal(ss_ticked);
    reveal(se_ticked);
    reveal(condition_sounds);
}

/// Law: the damage condition stands on its own. For a Gastly or Haunter
/// whose readiness icons are neither suppressed, showing nor locked, that has
/// taken its required damage (penalty included) but landed fewer than its
/// base required hits, the frame shows the damage (T) icon and starts its
/// countdown, not the hits (D) icon.
pub proof fn lemma_damage_alone_shows_the_damage_icon(s: PlayerEvolutionState, t: ReadinessTracker, can_flash: bool)
    requires
        !readiness_suppressed(s),
        s.readiness == ReadinessIcons::cleared(),
        ({
            let (bd, bh): (int, int) = if s.stage == EvolutionStage::Gastly {
                (GASTLY_EVO_DMG_RECEIVED_THRESHOLD as int, GASTLY_EVO_HITS_THRESHOLD as int)
            } else {
                (HAUNTER_EVO_DMG_RECEIVED_THRESHOLD as int, HAUNTER_EVO_HITS_THRESHOLD as int)
            };
            &&& s.progress.damage_received_this_stage >= bd + s.progress.evo_attempt_delay_damage_taken_penalty
            &&& s.progress.damage_received_this_stage >= bd
            &&& s.progress.hits_landed_this_stage < bh
            &&& s.progress.evo_attempt_delay_hits_penalty >= 0
        }),
    ensures
        ({
            let (s1, t1, f) = readiness_step(s, t, can_flash);
            &&& f.t_icon_visible
            &&& !f.d_icon_visible
            &&& !f.ss_icon_visible && !f.se_icon_visible
            &&& s1.readiness.dmg_t_icon_display_timer == READINESS_ICON_DURATION - 1
            &&& (can_flash && !t.flash_occurred ==> f.flash_eye)
            &&& (!t.prev_damage_met && !t.prev_hits_met && !t.first_condition_played ==> f.first_condition_sound)
        }),
{
    reveal(sanitized);
    reveal(conditions);
    reveal(locks_updated);
    reveal(triggered);
    reveal(small_icons_ticked);
    reveal(ss_ticked);
    reveal(se_ticked);
    reveal(condition_sounds);
}

/// Law: with both conditions met (required damage and hits, penalties
/// included, within the plausible range) and no readiness icon suppressed,
/// showing or locked, the frame shows the evolve-ready (SS) icon alone.
pub proof fn lemma_both_conditions_show_the_ready_icon(s: PlayerEvolutionState, t: ReadinessTracker, can_flash: bool)
    requires
        !readiness_suppressed(s),
        s.readiness == ReadinessIcons::cleared(),
        ({
            let (bd, bh): (int, int) = if s.stage == EvolutionStage::Gastly {
                (GASTLY_EVO_DMG_RECEIVED_THRESHOLD as int, GASTLY_EVO_HITS_THRESHOLD as int)
            } else {
                (HAUNTER_EVO_DMG_RECEIVED_THRESHOLD as int, HAUNTER_EVO_HITS_THRESHOLD as int)
            };
            &&& s.progress.damage_received_this_stage >= bd + s.progress.evo_attempt_delay_damage_taken_penalty
            &&& s.progress.damage_received_this_stage >= bd
            &&& bh + s.progress.evo_attempt_delay_hits_penalty <= s.progress.hits_landed_this_stage <= bh + HITS_SLACK
            &&& s.progress.hits_landed_this_stage >= bh
        }),
    ensures
        ({
            let (s1, t1, f) = readiness_step(s, t, can_flash);
            &&& f.ss_icon_visible
            &&& !f.t_icon_visible && !f.d_icon_visible && !f.se_icon_visible
            &&& (can_flash && !t.flash_occurred ==> f.flash_eye)
        }),
{
    reveal(sanitized);
    reveal(conditions);
    reveal(locks_updated);
    reveal(triggered);
    reveal(small_icons_ticked);
    reveal(ss_ticked);
    reveal(se_ticked);
    reveal(condition_sounds);
}

/// Drops implausible bookkeeping from the stage's progress (see `sanitized`).
fn sanitize_progress(p0: EvolutionProgress, base_hits: i32) -> (p: EvolutionProgress)
    requires
        0 <= base_hits <= 100,
    ensures
        p == sanitized(p0, base_hits as int),
{
    proof { reveal(sanitized); }
    let mut p = p0;
    if p.hits_landed_this_stage as i64 > base_hits as i64 + HITS_SLACK as i64 {
        p.hits_landed_this_stage = 0;
        p.damage_received_this_stage = 0;
        p.evo_attempt_delay_hits_penalty = 0;
        p.evo_attempt_delay_damage_taken_penalty = 0;
    } else {
        if p.evo_attempt_delay_hits_penalty > base_hits {
            p.evo_attempt_delay_hits_penalty = 0;
        }
        if p.evo_attempt_delay_damage_taken_penalty > MAX_DAMAGE_PENALTY {
            p.evo_attempt_delay_damage_taken_penalty = 0;
        }
    }
    p
}

/// The two conditions and the large-drop test (see `conditions`).
fn check_conditions(p: EvolutionProgress, rd: i64, rh: i64) -> (r: (bool, bool, bool))
    requires
        -0x1_0000_0000 <= rd <= 0x1_0000_0000,
        -0x1_0000_0000 <= rh <= 0x1_0000_0000,
    ensures
        r == conditions(p, rd as int, rh as int),
{
    proof { reveal(conditions); }
    let dmg = p.damage_received_this_stage as i64;
    let hits = p.hits_landed_this_stage as i64;
    let half_rh: i64 = if rh >= 0 { rh / 2 } else { -((-rh) / 2) };
    (dmg >= rd, hits >= rh, 2 * dmg < rd || hits < half_rh)
}

/// Applies `locks_updated`.
fn update_locks(r0: ReadinessIcons, t0: ReadinessTracker, last_conf: i32, frame: i32, dmet: bool, hmet: bool, drop: bool)
    -> (res: (ReadinessIcons, ReadinessTracker, i32))
    ensures
        res == locks_updated(r0, t0, last_conf, frame, dmet, hmet, drop),
{
    proof { reveal(locks_updated); }
    let mut r = r0;
    let mut t = t0;
    let mut lc = last_conf;
    let timed_out = last_conf != -1 && frame as i64 - last_conf as i64 >= EVOLUTION_LOCKOUT_RESET_DURATION as i64;
    if timed_out {
        r = ReadinessIcons::new();
        lc = -1;
        t.flash_occurred = false;
    }
    if !dmet {
        r.dmg_t_icon_is_locked_out = false;
    }
    if !hmet {
        r.dmg_d_icon_is_locked_out = false;
    }
    if !dmet || !hmet {
        r.dmg_ss_icon_is_locked_out = false;
        r.dmg_se_icon_is_locked_out = false;
    }
    if drop {
        t.flash_occurred = false;
    }
    (r, t, lc)
}

/// Applies `triggered`.
fn fire_triggers(r0: ReadinessIcons, flashed: bool, dmet: bool, hmet: bool, can_flash: bool)
    -> (res: (ReadinessIcons, bool, bool, bool))
    ensures
        res == triggered(r0, flashed, dmet, hmet, can_flash),
{
    proof { reveal(triggered); }
    let mut r = r0;
    let mut fired = false;
    let mut ss_go = false;
    if dmet && hmet && r.dmg_ss_icon_display_timer == 0 && !r.dmg_ss_icon_is_locked_out
        && r.dmg_se_icon_display_timer == 0 && !r.dmg_se_icon_is_locked_out {
        r.dmg_ss_icon_display_timer = READINESS_ICON_DURATION;
        ss_go = true;
        fired = true;
        r.dmg_t_icon_display_timer = 0;
        r.dmg_t_icon_is_locked_out = true;
        r.dmg_d_icon_display_timer = 0;
        r.dmg_d_icon_is_locked_out = true;
    }
    let busy = ss_go || r.dmg_ss_icon_display_timer > 0 || r.dmg_se_icon_display_timer > 0;
    let mut t_go = false;
    if !busy && dmet && r.dmg_t_icon_display_timer == 0 && !r.dmg_t_icon_is_locked_out {
        r.dmg_t_icon_display_timer = READINESS_ICON_DURATION;
        t_go = true;
        fired = true;
    }
    if !busy && !t_go && hmet && r.dmg_d_icon_display_timer == 0 && !r.dmg_d_icon_is_locked_out {
        r.dmg_d_icon_display_timer = READINESS_ICON_DURATION;
        fired = true;
    }
    let flash = fired && can_flash && !flashed;
    (r, flashed || flash, flash, ss_go)
}

/// Applies `small_icons_ticked`.
fn tick_small_icons(r0: ReadinessIcons) -> (res: (ReadinessIcons, bool, bool))
    ensures
        res == small_icons_ticked(r0),
{
    proof { reveal(small_icons_ticked); }
    let mut r = r0;
    let t_vis = r.dmg_t_icon_display_timer > 0;
    if t_vis {
        r.dmg_t_icon_display_timer = r.dmg_t_icon_display_timer - 1;
        if r.dmg_t_icon_display_timer == 0 {
            r.dmg_t_icon_is_locked_out = true;
        }
    }
    let d_vis = r.dmg_d_icon_display_timer > 0;
    if d_vis {
        r.dmg_d_icon_display_timer = r.dmg_d_icon_display_timer - 1;
        if r.dmg_d_icon_display_timer == 0 {
            r.dmg_d_icon_is_locked_out = true;
        }
    }
    (r, t_vis, d_vis)
}

/// A frame with nothing to do and every icon hidden.
fn quiet() -> (f: ReadinessFrame)
    ensures
        f == quiet_frame(),
{
    ReadinessFrame {
        t_icon_visible: false,
        d_icon_visible: false,
        ss_icon_visible: false,
        se_icon_visible: false,
        flash_eye: false,
        counter_flash: false,
        spawn_ss_hold: false,
        kill_hold_after_ss: false,
        spawn_se_start: false,
        spawn_se_hold: false,
        kill_hold_after_se: false,
        kill_start_after_se: false,
        first_condition_sound: false,
        second_condition_sound: false,
    }
}

/// Applies `ss_ticked`.
fn tick_ss_icon(r0: ReadinessIcons, t: ReadinessTracker, frame: i32, both: bool, can_flash: bool, flashed0: bool)
    -> (res: (ReadinessIcons, ReadinessFrame, bool))
    ensures
        res == ss_ticked(r0, t, frame, both, can_flash, flashed0),
{
    proof { reveal(ss_ticked); }
    let mut r = r0;
    let mut flashed = flashed0;
    let mut f = quiet();
    if r.dmg_ss_icon_display_timer > 0 {
        f.ss_icon_visible = true;
        f.spawn_ss_hold = frame as i64 - t.last_ss_chargebullet_frame as i64 >= CHARGEBULLET_RESPAWN_INTERVAL as i64;
        r.dmg_ss_icon_display_timer = r.dmg_ss_icon_display_timer - 1;
        if r.dmg_ss_icon_display_timer == 0 {
            r.dmg_ss_icon_is_locked_out = true;
            f.kill_hold_after_ss = true;
            if both && r.dmg_se_icon_display_timer == 0 && !r.dmg_se_icon_is_locked_out {
                r.dmg_se_icon_display_timer = READINESS_ICON_DURATION;
                r.dmg_se_icon_is_locked_out = false;
                if can_flash && !flashed {
                    f.flash_eye = true;
                    flashed = true;
                }
            }
        }
    } else {
        f.kill_hold_after_ss = r.dmg_se_icon_display_timer == 0;
    }
    (r, f, flashed)
}

/// Applies `se_ticked`.
fn tick_se_icon(r0: ReadinessIcons, t0: ReadinessTracker, frame: i32) -> (res: (ReadinessIcons, ReadinessTracker, ReadinessFrame))
    ensures
        res == se_ticked(r0, t0, frame),
{
    proof { reveal(se_ticked); }
    let mut r = r0;
    let mut t = t0;
    let mut f = quiet();
    if r.dmg_se_icon_display_timer > 0 {
        f.se_icon_visible = true;
        f.spawn_se_start = r.dmg_se_icon_display_timer == READINESS_ICON_DURATION && !t.se_chargebullet_start_spawned;
        f.spawn_se_hold = frame as i64 - t.last_se_chargebullet_frame as i64 >= CHARGEBULLET_RESPAWN_INTERVAL as i64;
        r.dmg_se_icon_display_timer = r.dmg_se_icon_display_timer - 1;
        if r.dmg_se_icon_display_timer == 0 {
            r.dmg_se_icon_is_locked_out = true;
            f.kill_hold_after_se = true;
            f.kill_start_after_se = true;
            t.se_chargebullet_start_spawned = false;
        }
    } else {
        f.kill_hold_after_se = r.dmg_ss_icon_display_timer == 0;
        f.kill_start_after_se = true;
        t.se_chargebullet_start_spawned = false;
    }
    (r, t, f)
}

/// Applies `condition_sounds`.
fn play_condition_sounds(t0: ReadinessTracker, dmet: bool, hmet: bool) -> (res: (ReadinessTracker, bool, bool))
    ensures
        res == condition_sounds(t0, dmet, hmet),
{
    proof { reveal(condition_sounds); }
    let mut t = t0;
    let prev_any = t.prev_damage_met || t.prev_hits_met;
    let prev_both = t.prev_damage_met && t.prev_hits_met;
    let first = !prev_any && (dmet || hmet) && !t.first_condition_played;
    if first {
        t.first_condition_played = true;
    }
    let second = !prev_both && dmet && hmet && t.first_condition_played;
    if !dmet && !hmet {
        t.first_condition_played = false;
    }
    t.prev_damage_met = dmet;
    t.prev_hits_met = hmet;
    (t, first, second)
}

/// One frame of the evolution readiness icons. While suppressed (evolving,
/// under the everstone, as Gengar, or with the linking cord evolution icon
/// up) every icon is hidden and reset. Otherwise: both conditions met show
/// the SS icon and then the SE icon, else the damage condition shows the T
/// icon and the hits condition the D icon; each shows for 70 frames and then
/// locks until its condition stops holding (or 300 frames after an
/// evolution). The eyes flash once for the first icon, and a sound marks the
/// first and the second condition met. `in_standby_or_entry`: the fighter
/// is on standby or making its entrance (no flash then).
pub fn handle_evolution_readiness_icons(
    player_state: &mut PlayerEvolutionState,
    tracker: &mut ReadinessTracker,
    in_standby_or_entry: bool,
) -> (frame: ReadinessFrame)
    ensures
        (*final(player_state), *final(tracker), frame) == readiness_step(*old(player_state), *old(tracker), !in_standby_or_entry),
        readiness_suppressed(*old(player_state)) ==> final(player_state).readiness == ReadinessIcons::cleared()
            && !frame.t_icon_visible && !frame.d_icon_visible && !frame.ss_icon_visible && !frame.se_icon_visible,
{
    let can_flash = !in_standby_or_entry;
    let suppressed = player_state.evolution.is_evolving || player_state.items.everstone_effect_active
        || player_state.stage == EvolutionStage::Gengar
        || (player_state.icons.linking_cord_evo_attempt_icon_is_pos_sensitive
            && player_state.icons.linking_cord_evo_attempt_icon_timer > 0);
    if suppressed {
        player_state.reset_evo_readiness_icons();
        return ReadinessFrame {
            t_icon_visible: false,
            d_icon_visible: false,
            ss_icon_visible: false,
            se_icon_visible: false,
            flash_eye: false,
            counter_flash: false,
            spawn_ss_hold: false,
            kill_hold_after_ss: false,
            spawn_se_start: false,
            spawn_se_hold: false,
            kill_hold_after_se: true,
            kill_start_after_se: true,
            first_condition_sound: false,
            second_condition_sound: false,
        };
    }
    let (bd, bh): (i32, i32) = if player_state.stage == EvolutionStage::Gastly {
        (GASTLY_EVO_DMG_RECEIVED_THRESHOLD, GASTLY_EVO_HITS_THRESHOLD)
    } else {
        (HAUNTER_EVO_DMG_RECEIVED_THRESHOLD, HAUNTER_EVO_HITS_THRESHOLD)
    };
    let rd: i64 = bd as i64 + player_state.progress.evo_attempt_delay_damage_taken_penalty as i64;
    let rh: i64 = bh as i64 + player_state.progress.evo_attempt_delay_hits_penalty as i64;
    let (p, r, t, f) = run_readiness(player_state.progress, player_state.readiness, *tracker,
        player_state.current_frame, rd, rh, bh, can_flash);
    player_state.progress = p;
    player_state.readiness = r;
    *tracker = t;
    f
}

/// Applies `readiness_core`.
fn run_readiness(
    p0: EvolutionProgress, r0: ReadinessIcons, t0: ReadinessTracker, frame_no: i32,
    rd: i64, rh: i64, bh: i32, can_flash: bool,
) -> (res: (EvolutionProgress, ReadinessIcons, ReadinessTracker, ReadinessFrame))
    requires
        0 <= bh <= 100,
        -0x1_0000_0000 <= rd <= 0x1_0000_0000,
        -0x1_0000_0000 <= rh <= 0x1_0000_0000,
    ensures
        res == readiness_core(p0, r0, t0, frame_no, rd as int, rh as int, bh as int, can_flash),
{
    let p = sanitize_progress(p0, bh);
    let (dmet, hmet, drop) = check_conditions(p, rd, rh);
    let (r1, t1, lc) = update_locks(r0, t0, p.last_evolution_confirmation_frame, frame_no, dmet, hmet, drop);
    let (r2, fl2, flash_a, counter) = fire_triggers(r1, t1.flash_occurred, dmet, hmet, can_flash);
    let (r3, t_vis, d_vis) = tick_small_icons(r2);
    let (r4, fss, fl4) = tick_ss_icon(r3, t1, frame_no, dmet && hmet, can_flash, fl2);
    let (r5, t5, fse) = tick_se_icon(r4, t1, frame_no);
    let (t6, snd1, snd2) = play_condition_sounds(ReadinessTracker { flash_occurred: fl4, ..t5 }, dmet, hmet);
    (EvolutionProgress { last_evolution_confirmation_frame: lc, ..p }, r5, t6, ReadinessFrame {
        t_icon_visible: t_vis,
        d_icon_visible: d_vis,
        ss_icon_visible: fss.ss_icon_visible,
        se_icon_visible: fse.se_icon_visible,
        flash_eye: flash_a || fss.flash_eye,
        counter_flash: counter,
        spawn_ss_hold: fss.spawn_ss_hold,
        kill_hold_after_ss: fss.kill_hold_after_ss,
        spawn_se_start: fse.spawn_se_start,
        spawn_se_hold: fse.spawn_se_hold,
        kill_hold_after_se: fse.kill_hold_after_se,
        kill_start_after_se: fse.kill_start_after_se,
        first_condition_sound: snd1,
        second_condition_sound: snd2,
    })
}

/// While the everstone or everstone X icon shows, the readiness icons are
/// kept hidden.
pub fn readiness_icons_suppressed(player_state: &PlayerEvolutionState) -> (hidden: bool)
    ensures
        hidden == (player_state.icons.everstone_icon_active || player_state.icons.everstone_x_icon_active),
{
    player_state.icons.everstone_icon_active || player_state.icons.everstone_x_icon_active
}

} // verus!
