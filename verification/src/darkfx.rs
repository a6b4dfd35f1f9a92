use vstd::prelude::*;
use crate::stage::EvolutionStage;
use crate::model::motion_is;
use crate::hashing::hash40_str;
use crate::shadowball::PURIN_SPECIAL_N_HIT_END;

verus! {

/// Kinds of dark moves.
pub const DARK_MOVE_DOWN_TILT: u32 = 2;
pub const DARK_MOVE_DOWN_SMASH: u32 = 7;
pub const DARK_MOVE_NEUTRAL_AIR: u32 = 8;
pub const DARK_MOVE_FORWARD_AIR: u32 = 9;
pub const DARK_MOVE_DOWN_AIR: u32 = 10;
pub const DARK_MOVE_DOWN_SPECIAL: u32 = 12;
pub const DARK_MOVE_NEUTRAL_SPECIAL_ROLLOUT: u32 = 13;
pub const DARK_MOVE_FORWARD_SPECIAL: u32 = 14;
pub const DARK_MOVE_PUMMEL: u32 = 16;
/// Frames between two dark effects on one victim.
pub const DARK_EFFECT_COOLDOWN_FRAMES: u32 = 30;

/// The stage number used by the dark effects (0 Gastly, 1 Haunter, 2 Gengar;
/// 0 when the fighter's state is unknown).
pub open spec fn spec_evolution_stage(stage: Option<EvolutionStage>) -> u32 {
    match stage {
        Some(EvolutionStage::Haunter) => 1,
        Some(EvolutionStage::Gengar) => 2,
        _ => 0,
    }
}

/// The stage number of a fighter whose state (if found) has stage `stage`.
pub fn get_evolution_stage(stage: Option<EvolutionStage>) -> (n: u32)
    ensures
        n == spec_evolution_stage(stage),
{
    match stage {
        Some(EvolutionStage::Haunter) => 1,
        Some(EvolutionStage::Gengar) => 2,
        _ => 0,
    }
}

/// The fighter's status, as far as dark moves care.
#[derive(Debug, Clone, Copy, PartialEq, Eq, Structural)]
pub enum MoveStatus {
    AttackLw3,
    AttackLw4,
    AttackAir,
    SpecialS,
    SpecialLw,
    CatchAttack,
    /// Any other status, by its code.
    Other(i32),
}

/// The dark move a fighter performs, with its stage number: only a marked
/// costume of this character, in down tilt, down smash, neutral or forward
/// air, down air (Gastly and Haunter), side special, down special, the end of
/// a neutral special hit, or a pummel.
pub open spec fn dark_move(is_purin: bool, is_marked: bool, stage_no: u32, status: MoveStatus, motion: u64) -> Option<(u32, u32)> {
    if !is_purin || !is_marked {
        None
    } else {
        let mt: Option<u32> = match status {
            MoveStatus::AttackLw3 => Some(DARK_MOVE_DOWN_TILT),
            MoveStatus::AttackLw4 => Some(DARK_MOVE_DOWN_SMASH),
            MoveStatus::AttackAir => {
                if motion_is(motion, "attack_air_n"@) { Some(DARK_MOVE_NEUTRAL_AIR) }
                else if motion_is(motion, "attack_air_f"@) { Some(DARK_MOVE_FORWARD_AIR) }
                else if motion_is(motion, "attack_air_lw"@) { if stage_no == 0 || stage_no == 1 { Some(DARK_MOVE_DOWN_AIR) } else { None } }
                else { None }
            },
            MoveStatus::SpecialS => Some(DARK_MOVE_FORWARD_SPECIAL),
            MoveStatus::SpecialLw => Some(DARK_MOVE_DOWN_SPECIAL),
            MoveStatus::CatchAttack => Some(DARK_MOVE_PUMMEL),
            MoveStatus::Other(c) => if c == PURIN_SPECIAL_N_HIT_END { Some(DARK_MOVE_NEUTRAL_SPECIAL_ROLLOUT) } else { None },
        };
        match mt {
            Some(m) => Some((m, stage_no)),
            None => None,
        }
    }
}

/// The dark move a fighter performs (see `dark_move`).
pub fn check_for_dark_move(is_purin: bool, is_marked: bool, stage_no: u32, status: MoveStatus, motion: u64) -> (r: Option<(u32, u32)>)
    ensures
        r == dark_move(is_purin, is_marked, stage_no, status, motion),
{
    if !is_purin || !is_marked {
        return None;
    }
    let mt: Option<u32> = match status {
        MoveStatus::AttackLw3 => Some(DARK_MOVE_DOWN_TILT),
        MoveStatus::AttackLw4 => Some(DARK_MOVE_DOWN_SMASH),
        MoveStatus::AttackAir => {
            if motion == hash40_str("attack_air_n") { Some(DARK_MOVE_NEUTRAL_AIR) }
            else if motion == hash40_str("attack_air_f") { Some(DARK_MOVE_FORWARD_AIR) }
            else if motion == hash40_str("attack_air_lw") { if stage_no == 0 || stage_no == 1 { Some(DARK_MOVE_DOWN_AIR) } else { None } }
            else { None }
        },
        MoveStatus::SpecialS => Some(DARK_MOVE_FORWARD_SPECIAL),
        MoveStatus::SpecialLw => Some(DARK_MOVE_DOWN_SPECIAL),
        MoveStatus::CatchAttack => Some(DARK_MOVE_PUMMEL),
        MoveStatus::Other(c) => if c == PURIN_SPECIAL_N_HIT_END { Some(DARK_MOVE_NEUTRAL_SPECIAL_ROLLOUT) } else { None },
    };
    match mt {
        Some(m) => Some((m, stage_no)),
        None => None,
    }
}

/// A fighter performing a dark move this frame.
#[derive(Debug, Clone, Copy, PartialEq, Eq, Structural)]
pub struct AttackerInfo {
    pub entry_id: u32,
    pub move_type: u32,
    pub evolution_stage: u32,
}

/// No two attackers of the list share an entry.
pub open spec fn attackers_distinct(a: Seq<AttackerInfo>) -> bool {
    forall|i: int, j: int| 0 <= i < j < a.len() ==> a[i].entry_id != a[j].entry_id
}

/// Adds an attacker to this frame's list unless its entry is already there;
/// returns whether it was added.
pub fn add_attacker(attackers: &mut Vec<AttackerInfo>, info: AttackerInfo) -> (added: bool)
    ensures
        added == (forall|i: int| 0 <= i < old(attackers)@.len() ==> old(attackers)@[i].entry_id != info.entry_id),
        final(attackers)@ == if added { old(attackers)@.push(info) } else { old(attackers)@ },
        attackers_distinct(old(attackers)@) ==> attackers_distinct(final(attackers)@),
{
    let mut i: usize = 0;
    while i < attackers.len()
        invariant
            i <= attackers@.len(),
            forall|k: int| 0 <= k < i ==> attackers@[k].entry_id != info.entry_id,
            *attackers == *old(attackers),
        decreases attackers@.len() - i,
    {
        if attackers[i].entry_id == info.entry_id {
            return false;
        }
        i = i + 1;
    }
    attackers.push(info);
    true
}

/// The effect a victim of dark moves gets.
#[derive(Debug, Clone, Copy, PartialEq, Eq, Structural)]
pub enum VictimEffect {
    /// Poison effect and the long flash (down special).
    Poison,
    /// Sweat effect, no flash (down air).
    SweatDownAir,
    /// Dark effect and the purple flash (neutral special rollout).
    DarkRollout,
    /// Sweat effect, no flash (pummel).
    SweatPummel,
    /// Dark effect and the purple flash (other dark moves).
    Dark,
}

/// The effect for a victim of `attackers`, by priority: down special, down
/// air, rollout, pummel, other dark moves.
pub open spec fn victim_effect(attackers: Seq<AttackerInfo>) -> Option<VictimEffect> {
    let has = |m: u32| exists|i: int| 0 <= i < attackers.len() && attackers[i].move_type == m;
    if has(DARK_MOVE_DOWN_SPECIAL) { Some(VictimEffect::Poison) }
    else if has(DARK_MOVE_DOWN_AIR) { Some(VictimEffect::SweatDownAir) }
    else if has(DARK_MOVE_NEUTRAL_SPECIAL_ROLLOUT) { Some(VictimEffect::DarkRollout) }
    else if has(DARK_MOVE_PUMMEL) { Some(VictimEffect::SweatPummel) }
    else if has(DARK_MOVE_DOWN_TILT) || has(DARK_MOVE_DOWN_SMASH) || has(DARK_MOVE_NEUTRAL_AIR)
        || has(DARK_MOVE_FORWARD_AIR) || has(DARK_MOVE_FORWARD_SPECIAL) { Some(VictimEffect::Dark) }
    else { None }
}

/// Whether some attacker in `a` performs move `m`.
fn has_move(a: &Vec<AttackerInfo>, m: u32) -> (r: bool)
    ensures
        r == exists|i: int| 0 <= i < a@.len() && a@[i].move_type == m,
{
    let mut i: usize = 0;
    while i < a.len()
        invariant
            i <= a@.len(),
            forall|k: int| 0 <= k < i ==> a@[k].move_type != m,
        decreases a@.len() - i,
    {
        if a[i].move_type == m {
            return true;
        }
        i = i + 1;
    }
    false
}

/// The effect for a victim of this frame's attackers (see `victim_effect`).
pub fn choose_victim_effect(attackers: &Vec<AttackerInfo>) -> (e: Option<VictimEffect>)
    ensures
        e == victim_effect(attackers@),
{
    if has_move(attackers, DARK_MOVE_DOWN_SPECIAL) { Some(VictimEffect::Poison) }
    else if has_move(attackers, DARK_MOVE_DOWN_AIR) { Some(VictimEffect::SweatDownAir) }
    else if has_move(attackers, DARK_MOVE_NEUTRAL_SPECIAL_ROLLOUT) { Some(VictimEffect::DarkRollout) }
    else if has_move(attackers, DARK_MOVE_PUMMEL) { Some(VictimEffect::SweatPummel) }
    else if has_move(attackers, DARK_MOVE_DOWN_TILT) || has_move(attackers, DARK_MOVE_DOWN_SMASH)
        || has_move(attackers, DARK_MOVE_NEUTRAL_AIR) || has_move(attackers, DARK_MOVE_FORWARD_AIR)
        || has_move(attackers, DARK_MOVE_FORWARD_SPECIAL) { Some(VictimEffect::Dark) }
    else { None }
}

/// The flash and cooldown state of one fighter.
#[derive(Debug, Clone, Copy, PartialEq, Eq, Structural)]
pub struct DarkEffectData {
    pub last_effect_frame: u32,
    pub flash_stage: u8,
    pub flash_timer: i32,
    pub flash_total_planned_duration: i32,
    pub flash_elapsed_duration: i32,
    pub flash_last_status: i32,
}

impl DarkEffectData {
    pub open spec fn initial() -> Self {
        DarkEffectData {
            last_effect_frame: 0,
            flash_stage: 0,
            flash_timer: 0,
            flash_total_planned_duration: 0,
            flash_elapsed_duration: 0,
            flash_last_status: -1i32,
        }
    }

    /// No flash, no effect yet.
    pub fn default() -> (d: Self)
        ensures
            d == Self::initial(),
    {
        DarkEffectData {
            last_effect_frame: 0,
            flash_stage: 0,
            flash_timer: 0,
            flash_total_planned_duration: 0,
            flash_elapsed_duration: 0,
            flash_last_status: -1,
        }
    }
}

/// Starts the long flash lasting `total_duration` frames (restarted on status changes).
pub fn begin_enhanced_purple_flash(d: &mut DarkEffectData, total_duration: i32)
    ensures
        *final(d) == (DarkEffectData {
            flash_stage: 1,
            flash_timer: 8,
            flash_total_planned_duration: total_duration,
            flash_elapsed_duration: 0,
            flash_last_status: -1i32,
            ..*old(d)
        }),
{
    d.flash_stage = 1;
    d.flash_timer = 8;
    d.flash_total_planned_duration = total_duration;
    d.flash_elapsed_duration = 0;
    d.flash_last_status = -1;
}

/// Starts the purple flash unless one is running.
pub fn begin_purple_flash(d: &mut DarkEffectData)
    ensures
        *final(d) == if old(d).flash_stage == 0 {
            DarkEffectData { flash_stage: 1, flash_timer: 8, ..*old(d) }
        } else {
            *old(d)
        },
{
    if d.flash_stage == 0 {
        d.flash_stage = 1;
        d.flash_timer = 8;
    }
}

/// Stops any flash, as on a death.
pub fn cleanup_flash_effects_on_death(d: &mut DarkEffectData)
    ensures
        *final(d) == (DarkEffectData {
            flash_stage: 0,
            flash_timer: 0,
            flash_total_planned_duration: 0,
            flash_elapsed_duration: 0,
            flash_last_status: -1i32,
            ..*old(d)
        }),
{
    d.flash_stage = 0;
    d.flash_timer = 0;
    d.flash_total_planned_duration = 0;
    d.flash_elapsed_duration = 0;
    d.flash_last_status = -1;
}

/// Whether a victim's cooldown allows a dark effect on pseudo-global frame
/// `frame` (a wrapping counter); if it does, the effect frame is recorded.
pub fn dark_effect_ready(d: &mut DarkEffectData, frame: u32) -> (ready: bool)
    ensures
        ready == (frame >= ((old(d).last_effect_frame + DARK_EFFECT_COOLDOWN_FRAMES) % 0x1_0000_0000) as u32),
        *final(d) == if ready { DarkEffectData { last_effect_frame: frame, ..*old(d) } } else { *old(d) },
{
    let due = d.last_effect_frame.wrapping_add(DARK_EFFECT_COOLDOWN_FRAMES);
    if frame >= due {
        d.last_effect_frame = frame;
        true
    } else {
        false
    }
}

/// The color the fighter shows this frame.
#[derive(Debug, Clone, Copy, PartialEq, Eq, Structural)]
pub enum FlashCommand {
    /// Leave the color alone.
    Nothing,
    /// The purple flash at this opacity (thousandths).
    Flash(u32),
    /// Back to the normal color.
    Normal,
}

/// The purple flash after its timer ticks in stage `stage` (of three blinks,
/// with gaps, then a 30-frame fade that restarts the blinks while a planned
/// long flash has time left).
pub open spec fn flash_tick(d: DarkEffectData) -> (DarkEffectData, FlashCommand) {
    let t = (d.flash_timer - 1) as i32;
    let d1 = DarkEffectData { flash_timer: t, ..d };
    let done = t <= 0;
    if d.flash_stage == 1 || d.flash_stage == 3 || d.flash_stage == 5 {
        (if done {
            DarkEffectData { flash_stage: (d.flash_stage + 1) as u8, flash_timer: if d.flash_stage == 5 { 30i32 } else { 6i32 }, ..d1 }
        } else { d1 }, FlashCommand::Flash(800))
    } else if d.flash_stage == 2 || d.flash_stage == 4 {
        (if done { DarkEffectData { flash_stage: (d.flash_stage + 1) as u8, flash_timer: 8, ..d1 } } else { d1 }, FlashCommand::Normal)
    } else if d.flash_stage == 6 {
        let cmd = if t > 0 { FlashCommand::Flash((800 * t / 30) as u32) } else { FlashCommand::Normal };
        if done {
            if d.flash_total_planned_duration == 0 || d.flash_elapsed_duration >= d.flash_total_planned_duration {
                (DarkEffectData { flash_stage: 0, flash_total_planned_duration: 0, flash_elapsed_duration: 0, ..d1 }, FlashCommand::Normal)
            } else {
                (DarkEffectData { flash_stage: 1, flash_timer: 8, ..d1 }, cmd)
            }
        } else {
            (d1, cmd)
        }
    } else {
        (DarkEffectData { flash_stage: 0, flash_total_planned_duration: 0, flash_elapsed_duration: 0, ..d1 }, FlashCommand::Normal)
    }
}

/// One frame of the purple flash in status `status` (see `flash_tick`): a
/// planned long flash restarts on a status change while it has time left and
/// ends once its duration has passed.
pub open spec fn flash_step(d: DarkEffectData, status: i32) -> (DarkEffectData, FlashCommand) {
    let d1 = if d.flash_total_planned_duration > 0 {
        let d0 = if d.flash_last_status == -1 {
            DarkEffectData { flash_last_status: status, ..d }
        } else if d.flash_last_status != status && d.flash_elapsed_duration < d.flash_total_planned_duration {
            DarkEffectData { flash_stage: 1, flash_timer: 8, flash_last_status: status, ..d }
        } else {
            d
        };
        DarkEffectData { flash_elapsed_duration: (d0.flash_elapsed_duration + 1) as i32, ..d0 }
    } else {
        d
    };
    if d.flash_total_planned_duration > 0 && d1.flash_elapsed_duration >= d1.flash_total_planned_duration {
        (DarkEffectData { flash_stage: 0, flash_total_planned_duration: 0, flash_elapsed_duration: 0, ..d1 }, FlashCommand::Normal)
    } else if d1.flash_stage > 0 {
        flash_tick(d1)
    } else {
        (d1, FlashCommand::Nothing)
    }
}

/// One frame of the purple flash (see `flash_step`); returns the color to show.
pub fn update_purple_flash_effects_with_status_detection(d: &mut DarkEffectData, current_status: i32) -> (cmd: FlashCommand)
    requires
        old(d).flash_elapsed_duration < i32::MAX,
        old(d).flash_timer > i32::MIN,
    ensures
        (*final(d), cmd) == flash_step(*old(d), current_status),
{
    if d.flash_total_planned_duration > 0 {
        if d.flash_last_status == -1 {
            d.flash_last_status = current_status;
        } else if d.flash_last_status != current_status {
            if d.flash_elapsed_duration < d.flash_total_planned_duration {
                d.flash_stage = 1;
                d.flash_timer = 8;
                d.flash_last_status = current_status;
            }
        }
        d.flash_elapsed_duration = d.flash_elapsed_duration + 1;
        if d.flash_elapsed_duration >= d.flash_total_planned_duration {
            d.flash_stage = 0;
            d.flash_total_planned_duration = 0;
            d.flash_elapsed_duration = 0;
            return FlashCommand::Normal;
        }
    }
    if d.flash_stage == 0 {
        return FlashCommand::Nothing;
    }
    d.flash_timer = d.flash_timer - 1;
    let t = d.flash_timer;
    let done = t <= 0;
    if d.flash_stage == 1 || d.flash_stage == 3 || d.flash_stage == 5 {
        if done {
            let next_timer = if d.flash_stage == 5 { 30 } else { 6 };
            d.flash_stage = d.flash_stage + 1;
            d.flash_timer = next_timer;
        }
        FlashCommand::Flash(800)
    } else if d.flash_stage == 2 || d.flash_stage == 4 {
        if done {
            d.flash_stage = d.flash_stage + 1;
            d.flash_timer = 8;
        }
        FlashCommand::Normal
    } else if d.flash_stage == 6 {
        let cmd = if t > 0 {
            let tt: i64 = t as i64;
            FlashCommand::Flash((800 * tt / 30) as u32)
        } else {
            FlashCommand::Normal
        };
        if done {
            if d.flash_total_planned_duration == 0 || d.flash_elapsed_duration >= d.flash_total_planned_duration {
                d.flash_stage = 0;
                d.flash_total_planned_duration = 0;
                d.flash_elapsed_duration = 0;
                FlashCommand::Normal
            } else {
                d.flash_stage = 1;
                d.flash_timer = 8;
                cmd
            }
        } else {
            cmd
        }
    } else {
        d.flash_stage = 0;
        d.flash_total_planned_duration = 0;
        d.flash_elapsed_duration = 0;
        FlashCommand::Normal
    }
}

/// Law: the purple flash, once started, blinks three times (8 frames on,
/// 6 off) before its fade: from stage 1 with timer 8 and no planned
/// duration, the first frame shows the flash and keeps the stage.
pub proof fn lemma_flash_starts_with_blink(d: DarkEffectData, status: i32)
    requires
        d.flash_stage == 1,
        d.flash_timer == 8,
        d.flash_total_planned_duration == 0,
    ensures
        flash_step(d, status).1 == FlashCommand::Flash(800),
        flash_step(d, status).0.flash_stage == 1,
        flash_step(d, status).0.flash_timer == 7,
{
}

/// The flash state after `n` frames of `flash_step` from `d`, frame `i`
/// (from 1) in status `statuses[i - 1]`.
pub open spec fn flash_after(d: DarkEffectData, statuses: Seq<i32>, n: nat) -> DarkEffectData
    decreases n,
{
    if n == 0 {
        d
    } else {
        flash_step(flash_after(d, statuses, (n - 1) as nat), statuses[n - 1]).0
    }
}

/// The color command of frame `n` (from 1) of the flash started at `d`.
pub open spec fn flash_command_at(d: DarkEffectData, statuses: Seq<i32>, n: nat) -> FlashCommand {
    flash_step(flash_after(d, statuses, (n - 1) as nat), statuses[n - 1]).1
}

/// The stage of a flash started at stage 1 with timer 8, `n` frames on.
pub open spec fn flash_stage_at(n: int) -> u8 {
    if n < 8 { 1u8 } else if n < 14 { 2u8 } else if n < 22 { 3u8 } else if n < 28 { 4u8 }
    else if n < 36 { 5u8 } else if n < 66 { 6u8 } else { 0u8 }
}

/// The timer of a flash started at stage 1 with timer 8, `n` frames on
/// (before its end).
pub open spec fn flash_timer_at(n: int) -> i32 {
    if n < 8 { (8 - n) as i32 } else if n < 14 { (14 - n) as i32 } else if n < 22 { (22 - n) as i32 }
    else if n < 28 { (28 - n) as i32 } else if n < 36 { (36 - n) as i32 } else { (66 - n) as i32 }
}

/// The color of frame `n` (from 1) of a short flash: on for frames 1-8,
/// 15-22 and 29-36, normal for 9-14 and 23-28, fading over 37-65 (opacity
/// 800 * (66 - n) / 30 thousandths), normal again on frame 66.
pub open spec fn expected_flash_command(n: int) -> FlashCommand {
    if n <= 8 || (15 <= n <= 22) || (29 <= n <= 36) {
        FlashCommand::Flash(800)
    } else if n <= 14 || (23 <= n <= 28) {
        FlashCommand::Normal
    } else if n <= 65 {
        FlashCommand::Flash((800 * (66 - n) / 30) as u32)
    } else {
        FlashCommand::Normal
    }
}

proof fn lemma_flash_state(d: DarkEffectData, statuses: Seq<i32>, n: nat)
    requires
        d.flash_stage == 1,
        d.flash_timer == 8,
        d.flash_total_planned_duration == 0,
        n <= 65,
    ensures
        flash_after(d, statuses, n) == (DarkEffectData {
            flash_stage: flash_stage_at(n as int),
            flash_timer: flash_timer_at(n as int),
            ..d
        }),
    decreases n,
{
    if n > 0 {
        lemma_flash_state(d, statuses, (n - 1) as nat);
    }
}

/// Law: a short flash (no planned duration) started at stage 1 with timer 8
/// runs for 66 frames whatever the statuses: the flash shows on frames 1-8,
/// 15-22 and 29-36, the normal color on 9-14 and 23-28, a fading flash on
/// 37-65, and frame 66 ends it with the normal color.
pub proof fn lemma_flash_sequence(d: DarkEffectData, statuses: Seq<i32>, n: nat)
    requires
        d.flash_stage == 1,
        d.flash_timer == 8,
        d.flash_total_planned_duration == 0,
        1 <= n <= 66,
    ensures
        flash_command_at(d, statuses, n) == expected_flash_command(n as int),
        n <= 65 ==> flash_after(d, statuses, n).flash_stage != 0,
        n == 66 ==> flash_after(d, statuses, n).flash_stage == 0,
{
    lemma_flash_state(d, statuses, (n - 1) as nat);
    if n <= 65 {
        lemma_flash_state(d, statuses, n);
    }
}

/// The long flash of a down special victim, in frames.
pub const ENHANCED_FLASH_FRAMES: i32 = 120;

/// The dark effect bookkeeping shared by all fighters: a frame counter that
/// the first entry advances, and the dark move attackers of this frame.
pub struct DarkWorld {
    pub frame: u32,
    pub attackers: Vec<AttackerInfo>,
}

impl DarkWorld {
    /// No frame counted, no attacker.
    pub fn new() -> (w: Self)
        ensures
            w.frame == 0,
            w.attackers@ == Seq::<AttackerInfo>::empty(),
    {
        DarkWorld { frame: 0, attackers: Vec::new() }
    }
}

/// A dark move kind with the performer's stage number.
#[derive(Debug, Clone, Copy, PartialEq, Eq, Structural)]
pub struct DarkMove {
    pub move_type: u32,
    pub evolution_stage: u32,
}

/// What the game reports about one fighter for the dark effects.
#[derive(Debug, Clone, Copy, PartialEq, Eq, Structural)]
pub struct DarkInput {
    pub entry_id: u32,
    pub dead_or_rebirth: bool,
    /// The fighter's dark move and stage number, if any (`check_for_dark_move`).
    pub dark_move: Option<DarkMove>,
    /// The fighter's attack connects this frame.
    pub hitting: bool,
    /// The fighter is in hit stop from taking damage.
    pub taking_damage: bool,
    pub status: i32,
}

/// What the dark effects do to one fighter this frame.
#[derive(Debug, Clone, Copy, PartialEq, Eq, Structural)]
pub struct DarkOutcome {
    /// The effect spawned on this fighter as a victim.
    pub victim: Option<VictimEffect>,
    /// The colour the fighter shows.
    pub flash: FlashCommand,
}

pub open spec fn enhanced_flash(d: DarkEffectData, total: i32) -> DarkEffectData {
    DarkEffectData { flash_stage: 1, flash_timer: 8, flash_total_planned_duration: total,
        flash_elapsed_duration: 0, flash_last_status: -1i32, ..d }
}

pub open spec fn purple_flash(d: DarkEffectData) -> DarkEffectData {
    if d.flash_stage == 0 { DarkEffectData { flash_stage: 1, flash_timer: 8, ..d } } else { d }
}

/// The attacker list after a fighter reports its dark move: a rollout hit
/// end always counts, another dark move only when it connects; an entry
/// appears once.
pub open spec fn attackers_after(a: Seq<AttackerInfo>, inp: DarkInput) -> Seq<AttackerInfo> {
    match inp.dark_move {
        Some(dm) => {
            let m = dm.move_type;
            let info = AttackerInfo { entry_id: inp.entry_id, move_type: m, evolution_stage: dm.evolution_stage };
            if (m == DARK_MOVE_NEUTRAL_SPECIAL_ROLLOUT || inp.hitting)
                && (forall|i: int| 0 <= i < a.len() ==> a[i].entry_id != inp.entry_id) {
                a.push(info)
            } else {
                a
            }
        },
        None => a,
    }
}

/// A fighter taking damage while some fighter lands a dark move gets, past
/// its 30-frame cooldown, the victim effect with its flash: the long flash
/// for a down special, the purple flash for a rollout or another dark move.
pub open spec fn victim_part(d: DarkEffectData, frame: u32, a: Seq<AttackerInfo>, taking_damage: bool)
    -> (DarkEffectData, Option<VictimEffect>)
{
    if taking_damage && a.len() > 0
        && frame >= ((d.last_effect_frame + DARK_EFFECT_COOLDOWN_FRAMES) % 0x1_0000_0000) as u32 {
        let d1 = DarkEffectData { last_effect_frame: frame, ..d };
        let e = victim_effect(a);
        let d2 = match e {
            Some(VictimEffect::Poison) => enhanced_flash(d1, ENHANCED_FLASH_FRAMES),
            Some(VictimEffect::DarkRollout) => purple_flash(d1),
            Some(VictimEffect::Dark) => purple_flash(d1),
            _ => d1,
        };
        (d2, e)
    } else {
        (d, None)
    }
}

/// The flash counters stay in range.
pub open spec fn flash_bounded(d: DarkEffectData) -> bool {
    d.flash_elapsed_duration < i32::MAX && d.flash_timer > i32::MIN
}

/// One frame of dark effects for one fighter: a dead or respawning fighter
/// loses its flash and shows normal colours; otherwise the first entry
/// advances the shared frame and starts a new attacker list, the fighter's
/// dark move joins the list, a victim gets its effect, and the flash runs.
pub fn gastly_dark_effects_handler(world: &mut DarkWorld, data: &mut DarkEffectData, inp: DarkInput)
    -> (out: DarkOutcome)
    requires
        flash_bounded(*old(data)),
        attackers_distinct(old(world).attackers@),
    ensures
        attackers_distinct(final(world).attackers@),
        inp.dead_or_rebirth ==> ({
            &&& out == (DarkOutcome { victim: None, flash: FlashCommand::Normal })
            &&& *final(data) == (DarkEffectData { flash_stage: 0, flash_timer: 0, flash_total_planned_duration: 0,
                    flash_elapsed_duration: 0, flash_last_status: -1i32, ..*old(data) })
            &&& final(world).frame == old(world).frame
            &&& final(world).attackers@ == old(world).attackers@
        }),
        !inp.dead_or_rebirth ==> ({
            let first = inp.entry_id == 0;
            let frame: u32 = if first { ((old(world).frame + 1) % 0x1_0000_0000) as u32 } else { old(world).frame };
            let a0 = if first { Seq::<AttackerInfo>::empty() } else { old(world).attackers@ };
            let a1 = attackers_after(a0, inp);
            let (d1, e) = victim_part(*old(data), frame, a1, inp.taking_damage);
            let (d2, f) = flash_step(d1, inp.status);
            &&& final(world).frame == frame
            &&& final(world).attackers@ == a1
            &&& *final(data) == d2
            &&& out == (DarkOutcome { victim: e, flash: f })
        }),
{
    if inp.dead_or_rebirth {
        cleanup_flash_effects_on_death(data);
        return DarkOutcome { victim: None, flash: FlashCommand::Normal };
    }
    if inp.entry_id == 0 {
        world.frame = world.frame.wrapping_add(1);
        world.attackers.clear();
    }
    match inp.dark_move {
        Some(dm) => {
            if dm.move_type == DARK_MOVE_NEUTRAL_SPECIAL_ROLLOUT || inp.hitting {
                let info = AttackerInfo { entry_id: inp.entry_id, move_type: dm.move_type, evolution_stage: dm.evolution_stage };
                let _added = add_attacker(&mut world.attackers, info);
            }
        },
        None => {},
    }
    let mut victim: Option<VictimEffect> = None;
    if inp.taking_damage && world.attackers.len() > 0 {
        if dark_effect_ready(data, world.frame) {
            let e = choose_victim_effect(&world.attackers);
            match e {
                Some(VictimEffect::Poison) => begin_enhanced_purple_flash(data, ENHANCED_FLASH_FRAMES),
                Some(VictimEffect::DarkRollout) => begin_purple_flash(data),
                Some(VictimEffect::Dark) => begin_purple_flash(data),
                _ => {},
            }
            victim = e;
        }
    }
    let flash = update_purple_flash_effects_with_status_detection(data, inp.status);
    DarkOutcome { victim, flash }
}

} // verus!
