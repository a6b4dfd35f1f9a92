use vstd::prelude::*;
use crate::stage::{EvolutionStage, BLINK_OPEN_MIN, BLINK_OPEN_MAX};
use crate::state::{PlayerEvolutionState, EvolutionProgress, ReadinessIcons, EvolutionRun};

verus! {

/// Number of per-fighter tracking slots.
pub const INSTANCE_SLOTS: u32 = 256;
/// Damage at or below this (0.1%) counts as none, in thousandths of a percent.
pub const ZERO_DAMAGE: i32 = 100;
/// Smallest heal that counts (15%).
pub const MIN_HEAL: i32 = 15000;
/// Damage from which a heal to zero counts as a full restore (35%).
pub const RESTORE_FROM: i32 = 35000;
/// Largest heal that counts (200%).
pub const MAX_HEAL: i32 = 200000;

/// The tracking slot of a fighter: entry 0 to 7 (any other counts as 0)
/// times 32, plus the costume modulo 32; distinct for every entry and
/// costume a match can hold.
pub open spec fn spec_instance_key(entry_id: u32, color_id: u32) -> u32 {
    ((if entry_id < 8 { entry_id } else { 0 }) * 32 + color_id % 32) as u32
}

/// The tracking slot of the fighter in entry `entry_id` wearing costume `color_id`.
pub fn get_instance_key(entry_id: u32, color_id: u32) -> (key: u32)
    ensures
        key == spec_instance_key(entry_id, color_id),
        key < INSTANCE_SLOTS,
{
    let safe_entry_id: u32 = if entry_id < 8 { entry_id } else { 0 };
    let safe_color_id: u32 = color_id & 0xFF;
    assert(safe_color_id % 32 == color_id % 32) by (bit_vector)
        requires safe_color_id == color_id & 0xFF;
    let result: u32 = safe_entry_id * 32 + safe_color_id % 32;
    if result < INSTANCE_SLOTS { result } else { 0 }
}

/// Law: two fighters with different entries (0 to 7) or different costumes
/// (0 to 31) get different slots, and every slot is below 256.
pub proof fn lemma_instance_key_injective(e1: u32, c1: u32, e2: u32, c2: u32)
    requires
        e1 < 8, e2 < 8, c1 < 32, c2 < 32,
        spec_instance_key(e1, c1) == spec_instance_key(e2, c2),
    ensures
        e1 == e2,
        c1 == c2,
{
}

/// A landed hit counts toward the stage's progress unless an evolution is
/// running.
pub fn register_hit(player_state: &mut PlayerEvolutionState)
    requires
        old(player_state).progress.hits_landed_this_stage < i32::MAX,
    ensures
        *final(player_state) == if old(player_state).evolution.is_evolving {
            *old(player_state)
        } else {
            PlayerEvolutionState {
                progress: EvolutionProgress {
                    hits_landed_this_stage: (old(player_state).progress.hits_landed_this_stage + 1) as i32,
                    ..old(player_state).progress
                },
                ..*old(player_state)
            }
        },
{
    if !player_state.evolution.is_evolving {
        player_state.progress.hits_landed_this_stage = player_state.progress.hits_landed_this_stage + 1;
    }
}

/// What the fighter's status means to the heal detection.
#[derive(Debug, Clone, Copy, PartialEq, Eq, Structural)]
pub enum LifeStatus {
    /// On standby or making its entrance.
    StandbyOrEntry,
    /// Respawning on the platform.
    Rebirth,
    Other,
}

/// Per-fighter memory of the heal detection (damage in thousandths of a percent).
#[derive(Debug, Clone, Copy, PartialEq, Eq, Structural)]
pub struct HealTracker {
    /// Damage and frame when last seen.
    pub last_damage: i32,
    pub last_frame: i32,
    /// The last heal detected: positive for a potion, negative for a full
    /// restore (the damage it took away), zero for none; and its frame.
    pub heal_amount: i32,
    pub heal_frame: i32,
    pub last_death_frame: i32,
    /// The previous status seen was the respawn platform.
    pub last_status_rebirth: bool,
    pub last_rebirth_exit_frame: i32,
    /// Damage on the previous call, kept apart for full restores.
    pub last_callback_damage: i32,
}

impl HealTracker {
    pub open spec fn initial() -> Self {
        HealTracker {
            last_damage: 0,
            last_frame: -200i32,
            heal_amount: 0,
            heal_frame: -200i32,
            last_death_frame: -300i32,
            last_status_rebirth: false,
            last_rebirth_exit_frame: -300i32,
            last_callback_damage: 0,
        }
    }

    /// Nothing seen yet.
    pub fn new() -> (t: Self)
        ensures
            t == Self::initial(),
    {
        HealTracker {
            last_damage: 0,
            last_frame: -200,
            heal_amount: 0,
            heal_frame: -200,
            last_death_frame: -300,
            last_status_rebirth: false,
            last_rebirth_exit_frame: -300,
            last_callback_damage: 0,
        }
    }
}

/// `t` with the damage last seen forgotten.
pub open spec fn damage_forgotten(t: HealTracker) -> HealTracker {
    HealTracker { last_damage: 0, last_frame: -200i32, ..t }
}

/// `t` with no heal pending.
pub open spec fn heal_forgotten(t: HealTracker) -> HealTracker {
    HealTracker { heal_amount: 0, heal_frame: -200i32, ..t }
}

/// `t` having seen `damage` on `frame`.
pub open spec fn seen(t: HealTracker, damage: i32, frame: i32) -> HealTracker {
    HealTracker { last_damage: damage, last_frame: frame, ..t }
}

/// Forgets the damage last seen.
pub fn reset_damage_tracker_for_entry(t: &mut HealTracker)
    ensures
        *final(t) == damage_forgotten(*old(t)),
{
    t.last_damage = 0;
    t.last_frame = -200;
}

/// Forgets the pending heal and the death and respawn history.
pub fn reset_heal_tracker_for_entry(t: &mut HealTracker)
    ensures
        *final(t) == (HealTracker {
            heal_amount: 0,
            heal_frame: -200i32,
            last_death_frame: -300i32,
            last_status_rebirth: false,
            last_rebirth_exit_frame: -300i32,
            ..*old(t)
        }),
{
    t.heal_amount = 0;
    t.heal_frame = -200;
    t.last_death_frame = -300;
    t.last_status_rebirth = false;
    t.last_rebirth_exit_frame = -300;
}

/// `frame` lies within `window` frames after `since`.
pub open spec fn within(frame: int, since: int, window: int) -> bool {
    0 <= frame - since <= window
}

/// The heal detection after seeing `damage` on `frame` in status `status`.
pub open spec fn heal_step(t: HealTracker, status: LifeStatus, frame: i32, damage: i32) -> HealTracker {
    if damage <= ZERO_DAMAGE && t.last_callback_damage >= RESTORE_FROM {
        HealTracker { heal_amount: (-t.last_callback_damage) as i32, heal_frame: frame, last_callback_damage: damage, ..t }
    } else {
        let t1 = HealTracker { last_callback_damage: damage, ..t };
        let quiet = seen(heal_forgotten(t1), damage, frame);
        if status == LifeStatus::StandbyOrEntry {
            quiet
        } else if within(frame as int, t1.last_death_frame as int, 360) && !(damage <= ZERO_DAMAGE && frame <= 10) {
            quiet
        } else {
            let t2 = HealTracker { last_status_rebirth: status == LifeStatus::Rebirth, ..t1 };
            if t1.last_status_rebirth && status != LifeStatus::Rebirth {
                seen(heal_forgotten(HealTracker { last_rebirth_exit_frame: frame, ..t2 }), damage, frame)
            } else if within(frame as int, t2.last_rebirth_exit_frame as int, 180) {
                seen(heal_forgotten(t2), damage, frame)
            } else {
                let ld = t2.last_damage;
                let lf = t2.last_frame;
                let major = damage <= ZERO_DAMAGE && ld > MIN_HEAL;
                let training = frame <= 5 && damage <= ZERO_DAMAGE && lf < 0;
                let check = (frame != lf && lf >= 0 && ld >= 0) || major || training;
                let change = damage - ld;
                let reasonable = change <= -MIN_HEAL && change >= -MAX_HEAL && frame - lf < 600;
                let restore = damage <= ZERO_DAMAGE && ld >= RESTORE_FROM;
                if !check || (!reasonable && !restore)
                    || (within(frame as int, t2.last_death_frame as int, 360) && !restore) {
                    seen(t2, damage, frame)
                } else if restore {
                    seen(HealTracker { heal_amount: (-ld) as i32, heal_frame: frame, ..t2 }, damage, frame)
                } else {
                    seen(HealTracker { heal_amount: (-change) as i32, heal_frame: frame, ..t2 }, damage, frame)
                }
            }
        }
    }
}

/// One frame of the heal detection: notices a potion (a drop of 15% to 200%
/// within 600 frames) or a full restore (a drop to zero from 35% or more),
/// but none on standby or entry, within 360 frames of a death or within 180
/// frames of leaving the respawn platform (a full restore excepted where the
/// original does). Damage in thousandths of a percent.
pub fn detect_healing_events(t: &mut HealTracker, status: LifeStatus, current_frame: i32, current_damage: i32)
    requires
        0 <= current_damage <= 1_000_000,
        0 <= old(t).last_damage <= 1_000_000,
        0 <= old(t).last_callback_damage <= 1_000_000,
    ensures
        *final(t) == heal_step(*old(t), status, current_frame, current_damage),
{
    let frame = current_frame as i64;
    let damage = current_damage;
    if damage <= ZERO_DAMAGE && t.last_callback_damage >= RESTORE_FROM {
        t.heal_amount = -t.last_callback_damage;
        t.heal_frame = current_frame;
        t.last_callback_damage = damage;
        return;
    }
    t.last_callback_damage = damage;
    let since_death = frame - t.last_death_frame as i64;
    let quiet = status == LifeStatus::StandbyOrEntry
        || (0 <= since_death && since_death <= 360 && !(damage <= ZERO_DAMAGE && current_frame <= 10));
    if quiet {
        t.heal_amount = 0;
        t.heal_frame = -200;
        t.last_damage = damage;
        t.last_frame = current_frame;
        return;
    }
    let was_rebirth = t.last_status_rebirth;
    t.last_status_rebirth = status == LifeStatus::Rebirth;
    if was_rebirth && status != LifeStatus::Rebirth {
        t.last_rebirth_exit_frame = current_frame;
        t.heal_amount = 0;
        t.heal_frame = -200;
        t.last_damage = damage;
        t.last_frame = current_frame;
        return;
    }
    let since_rebirth = frame - t.last_rebirth_exit_frame as i64;
    if 0 <= since_rebirth && since_rebirth <= 180 {
        t.heal_amount = 0;
        t.heal_frame = -200;
        t.last_damage = damage;
        t.last_frame = current_frame;
        return;
    }
    let ld = t.last_damage;
    let lf = t.last_frame;
    let major = damage <= ZERO_DAMAGE && ld > MIN_HEAL;
    let training = current_frame <= 5 && damage <= ZERO_DAMAGE && lf < 0;
    let check = (current_frame != lf && lf >= 0 && ld >= 0) || major || training;
    let change = damage - ld;
    let reasonable = change <= -MIN_HEAL && change >= -MAX_HEAL && frame - (lf as i64) < 600;
    let restore = damage <= ZERO_DAMAGE && ld >= RESTORE_FROM;
    if check && (reasonable || restore) && !(0 <= since_death && since_death <= 360 && !restore) {
        if restore {
            t.heal_amount = -ld;
        } else {
            t.heal_amount = -change;
        }
        t.heal_frame = current_frame;
    }
    t.last_damage = damage;
    t.last_frame = current_frame;
}

/// The heal tracking after a match (re)start on `frame`: a heal already
/// pending stays; otherwise damage of 15% or more that was last seen counts
/// as healed away (a restore from 35%, else a potion), unless the fighter
/// left the respawn platform within the last 10 frames.
pub open spec fn match_reset(t: HealTracker, frame: i32) -> HealTracker {
    if t.heal_amount != 0 && t.heal_frame > 0 {
        damage_forgotten(t)
    } else if t.last_damage >= MIN_HEAL {
        if within(frame as int, t.last_rebirth_exit_frame as int, 10) {
            heal_forgotten(damage_forgotten(t))
        } else {
            damage_forgotten(HealTracker {
                heal_amount: if t.last_damage >= RESTORE_FROM { (-t.last_damage) as i32 } else { t.last_damage },
                heal_frame: frame,
                ..t
            })
        }
    } else {
        heal_forgotten(damage_forgotten(t))
    }
}

/// Resets the heal tracking when a match (re)starts (see `match_reset`).
pub fn reset_all_match_tracking_by_instance_key(t: &mut HealTracker, current_frame: i32)
    requires
        old(t).last_damage > i32::MIN,
    ensures
        *final(t) == match_reset(*old(t), current_frame),
{
    if t.heal_amount != 0 && t.heal_frame > 0 {
        t.last_damage = 0;
        t.last_frame = -200;
        return;
    }
    if t.last_damage >= MIN_HEAL {
        let since = current_frame as i64 - t.last_rebirth_exit_frame as i64;
        if 0 <= since && since <= 10 {
            t.last_damage = 0;
            t.last_frame = -200;
            t.heal_amount = 0;
            t.heal_frame = -200;
            return;
        }
        t.heal_amount = if t.last_damage >= RESTORE_FROM { -t.last_damage } else { t.last_damage };
        t.heal_frame = current_frame;
        t.last_damage = 0;
        t.last_frame = -200;
        return;
    }
    t.last_damage = 0;
    t.last_frame = -200;
    t.heal_amount = 0;
    t.heal_frame = -200;
}


/// Per-fighter memory of the training session detection for marked costumes.
#[derive(Debug, Clone, Copy, PartialEq, Eq, Structural)]
pub struct SessionTracker {
    pub last_session_damage: i32,
    pub last_session_frame: i32,
    pub session_reset_cooldown: i32,
}

impl SessionTracker {
    pub open spec fn initial() -> Self {
        SessionTracker { last_session_damage: 0, last_session_frame: 0, session_reset_cooldown: 0 }
    }

    /// Nothing seen yet.
    pub fn new() -> (t: Self)
        ensures
            t == Self::initial(),
    {
        SessionTracker { last_session_damage: 0, last_session_frame: 0, session_reset_cooldown: 0 }
    }
}

/// Frames during which no second session reset is detected.
pub const SESSION_RESET_COOLDOWN: i32 = 300;

/// The results screen: a win or loss status, or one of the result statuses.
pub open spec fn spec_is_results_screen(status: i32, is_win_or_lose: bool) -> bool {
    is_win_or_lose || status == 0x107 || (0x190 <= status <= 0x1DC)
}

/// Whether `status` (with `is_win_or_lose` from the caller) belongs to the results screen.
pub fn is_results_screen(status: i32, is_win_or_lose: bool) -> (r: bool)
    ensures
        r == spec_is_results_screen(status, is_win_or_lose),
{
    is_win_or_lose || status == 0x107 || (0x190 <= status && status <= 0x1DC)
}

/// `s` with the stage's progress, penalties, damage baseline and readiness
/// icons wiped.
pub open spec fn progress_wiped(s: PlayerEvolutionState) -> PlayerEvolutionState {
    PlayerEvolutionState {
        progress: EvolutionProgress {
            damage_received_this_stage: 0,
            hits_landed_this_stage: 0,
            evo_attempt_delay_damage_taken_penalty: 0,
            evo_attempt_delay_hits_penalty: 0,
            previous_total_damage: 0,
            ..s.progress
        },
        readiness: ReadinessIcons::cleared(),
        ..s
    }
}

/// The training session detection for a marked costume in entry `entry_id`
/// seeing `damage` (buffers of a reset taken from `b`): a damage reset (from
/// over 5% to none) or a frame counter that jumped back starts a new session
/// outside the results screen, wiping progress and turning a Haunter or
/// Gengar back into a Gastly (then no detection for 300 frames).
pub open spec fn session_step(
    s: PlayerEvolutionState, st: SessionTracker, is_marked: bool, entry_id: u32, damage: i32,
    results: bool, blink_timer: i32, b: PlayerEvolutionState,
) -> (PlayerEvolutionState, SessionTracker, bool) {
    if !is_marked || entry_id >= 8 {
        (s, st, false)
    } else if st.session_reset_cooldown > 0 {
        (s, SessionTracker { session_reset_cooldown: (st.session_reset_cooldown - 1) as i32, ..st }, false)
    } else {
        let frame = s.current_frame;
        let damage_reset = damage <= ZERO_DAMAGE && st.last_session_damage > 5000;
        let frame_reset = frame < st.last_session_frame - 100 || (frame < 30 && st.last_session_frame > 100);
        let seen_now = SessionTracker { last_session_damage: damage, last_session_frame: frame, ..st };
        if (damage_reset || frame_reset) && !results {
            let w = progress_wiped(s);
            if s.stage != EvolutionStage::Gastly {
                let r = w.respawn_reset(blink_timer, b);
                (PlayerEvolutionState {
                    evolution: EvolutionRun { evolution_target_stage: EvolutionStage::Gastly, ..r.evolution },
                    ..r
                }, SessionTracker { session_reset_cooldown: SESSION_RESET_COOLDOWN, ..seen_now }, true)
            } else {
                (w, seen_now, false)
            }
        } else {
            (s, seen_now, false)
        }
    }
}

/// Detects a new training session for a marked costume (see `session_step`);
/// returns whether the fighter was turned back into a Gastly.
/// `next_blink_timer` is used if it was (drawn by the caller).
pub fn detect_new_training_session_for_marked_costumes(
    player_state: &mut PlayerEvolutionState,
    tracker: &mut SessionTracker,
    is_marked_costume: bool,
    entry_id: u32,
    current_damage: i32,
    results_screen: bool,
    next_blink_timer: i32,
) -> (reset: bool)
    requires
        BLINK_OPEN_MIN <= next_blink_timer <= BLINK_OPEN_MAX,
    ensures
        (*final(player_state), *final(tracker), reset) == session_step(*old(player_state), *old(tracker),
            is_marked_costume, entry_id, current_damage, results_screen, next_blink_timer, *final(player_state)),
{
    if !is_marked_costume || entry_id >= 8 {
        return false;
    }
    if tracker.session_reset_cooldown > 0 {
        tracker.session_reset_cooldown = tracker.session_reset_cooldown - 1;
        return false;
    }
    let frame = player_state.current_frame;
    let damage_reset = current_damage <= ZERO_DAMAGE && tracker.last_session_damage > 5000;
    let frame_reset = (frame as i64) < tracker.last_session_frame as i64 - 100
        || (frame < 30 && tracker.last_session_frame > 100);
    if (damage_reset || frame_reset) && !results_screen {
        player_state.progress.damage_received_this_stage = 0;
        player_state.progress.hits_landed_this_stage = 0;
        player_state.progress.evo_attempt_delay_damage_taken_penalty = 0;
        player_state.progress.evo_attempt_delay_hits_penalty = 0;
        player_state.progress.previous_total_damage = 0;
        player_state.reset_evo_readiness_icons();
        if player_state.stage != EvolutionStage::Gastly {
            player_state.full_reset_on_respawn(next_blink_timer);
            player_state.stage = EvolutionStage::Gastly;
            player_state.evolution.evolution_target_stage = EvolutionStage::Gastly;
            tracker.session_reset_cooldown = SESSION_RESET_COOLDOWN;
            tracker.last_session_damage = current_damage;
            tracker.last_session_frame = frame;
            return true;
        }
    }
    tracker.last_session_damage = current_damage;
    tracker.last_session_frame = frame;
    false
}

/// What the first-access check of a marked costume remembers.
#[derive(Debug, Clone, Copy, PartialEq, Eq, Structural)]
pub struct FirstAccessTracker {
    /// The state was already rebuilt this session.
    pub done: bool,
    /// The last damage over none seen (thousandths of a percent).
    pub last_damage_seen: i32,
}

impl FirstAccessTracker {
    /// Nothing seen yet.
    pub fn new() -> (t: Self)
        ensures
            t == (FirstAccessTracker { done: false, last_damage_seen: -1000i32 }),
    {
        FirstAccessTracker { done: false, last_damage_seen: -1000 }
    }
}

/// The first access of a marked costume in a session rebuilds its state as a
/// fresh Gastly (the `bool`); a damage reset from over 20% to none outside
/// the results screen starts a new session.
pub open spec fn first_access_step(t: FirstAccessTracker, damage: i32, results_screen: bool) -> (FirstAccessTracker, bool) {
    let reset = t.last_damage_seen > 20000 && damage <= ZERO_DAMAGE && !results_screen;
    let done = if reset { false } else { t.done };
    (FirstAccessTracker { done: true, last_damage_seen: if damage > ZERO_DAMAGE { damage } else { t.last_damage_seen } }, !done)
}

/// The first-access check of one frame (see `first_access_step`); returns
/// whether to rebuild the state.
pub fn first_access_check(t: &mut FirstAccessTracker, damage: i32, results_screen: bool) -> (rebuild: bool)
    ensures
        (*final(t), rebuild) == first_access_step(*old(t), damage, results_screen),
{
    let reset = t.last_damage_seen > 20000 && damage <= ZERO_DAMAGE && !results_screen;
    if reset {
        t.done = false;
    }
    let rebuild = !t.done;
    t.done = true;
    if damage > ZERO_DAMAGE {
        t.last_damage_seen = damage;
    }
    rebuild
}

/// Law: a frame with damage above zero either keeps or forgets the pending
/// heal, or records a potion heal on this frame whose amount is the damage
/// drop, at least 15%; a heal recorded as negative (a full restore) only
/// comes with damage back at zero and is then at least 35%.
pub proof fn lemma_heal_sign(t: HealTracker, status: LifeStatus, frame: i32, damage: i32)
    ensures
        ({
            let t1 = heal_step(t, status, frame, damage);
            &&& damage > ZERO_DAMAGE ==> {
                ||| (t1.heal_amount == t.heal_amount && t1.heal_frame == t.heal_frame)
                ||| (t1.heal_amount == 0 && t1.heal_frame == -200)
                ||| (t1.heal_frame == frame && t1.heal_amount == t.last_damage - damage && t1.heal_amount >= MIN_HEAL)
            }
            &&& (t1.heal_amount < 0 && (t1.heal_amount != t.heal_amount || t1.heal_frame != t.heal_frame)) ==> {
                &&& damage <= ZERO_DAMAGE
                &&& t1.heal_amount <= -RESTORE_FROM
                &&& t1.heal_frame == frame
            }
        }),
{
}

} // verus!
