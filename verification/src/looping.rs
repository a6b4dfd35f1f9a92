use vstd::prelude::*;
use crate::state::PlayerEvolutionState;
use crate::shadowball::{
    ShadowballState, ShadowballInput, shadowball_step, detect_shadowball_hitbox_state,
    PURIN_SPECIAL_N_HOLD, PURIN_SPECIAL_N_HOLD_MAX, PURIN_SPECIAL_N_ROLL, PURIN_SPECIAL_N_ROLL_AIR,
    PURIN_SPECIAL_N_TURN, PURIN_SPECIAL_N_END,
};
use crate::tracking::{HealTracker, heal_forgotten, within, RESTORE_FROM, MIN_HEAL};

verus! {

/// Frames after which the evolving sound stops.
pub const EVOLVING_SOUND_FRAMES: i32 = 459;
/// Frames the restore and potion sounds last.
pub const RESTORE_SOUND_FRAMES: i32 = 105;
pub const POTION_SOUND_FRAMES: i32 = 50;
/// Frames a heal stays fresh enough to be announced.
pub const HEAL_FRESH_FRAMES: i32 = 120;
/// Frames the dizzy sound lasts while bound.
pub const BIND_SOUND_FRAMES: i32 = 102;
/// Frames the mega symbol sound lasts.
pub const MEGASYMBOL_SOUND_FRAMES: i32 = 84;

/// The sounds this system starts and stops.
#[derive(Debug, Clone, Copy, PartialEq, Eq, Structural)]
pub enum LoopSound {
    Evolving,
    EvolveSs,
    ShadowballCharge,
    Shadowball,
    SpecialNChargeMax,
    SpecialNChargeMaxRelease,
    SpecialNRegularRelease,
    Restore,
    Potion,
    /// The game's own heal sound.
    VanillaLifeup,
    Furafura,
    /// The game's own dizzy sounds.
    VanillaDizzyAdd,
    VanillaDizzyLoop,
    GrabBurn,
    Megasymbol,
}

/// One sound operation, performed in order.
#[derive(Debug, Clone, Copy, PartialEq, Eq, Structural)]
pub enum SoundCommand {
    /// Play a sound (looped or once) at a volume in hundredths; the handle
    /// of a looped evolving, evolve SS, charge, grab burn or mega symbol
    /// sound is kept for `StopHandle`.
    Play { sound: LoopSound, looped: bool, volume_pct: u32 },
    /// Stop the kept handle of a sound, if any, and forget it.
    StopHandle(LoopSound),
    /// Stop every instance of a sound.
    Stop(LoopSound),
}

/// The sound flags and timers the fighter carries in its work area
/// (timers in frames).
#[derive(Debug, Clone, Copy, PartialEq, Eq, Structural)]
pub struct LoopFlags {
    pub evolving_active: bool,
    pub evolving_timer: i32,
    pub evolve_ss_active: bool,
    pub evolve_ss_timer: i32,
    pub shadowball_charge_active: bool,
    pub shadowball_active: bool,
    pub restore_active: bool,
    pub restore_timer: i32,
    pub potion_active: bool,
    pub potion_timer: i32,
    pub grab_burn_active: bool,
    pub megasymbol_active: bool,
    pub megasymbol_timer: i32,
}

/// What the looping sounds remember about one fighter between frames.
#[derive(Debug, Clone, Copy, PartialEq, Eq, Structural)]
pub struct LoopTracker {
    pub last_evolution_state: bool,
    pub last_special_n_status: i32,
    pub reached_hold_max: bool,
    pub had_turn_status: bool,
    pub furafura_sound_active: bool,
    pub furafura_start_frame: i32,
    pub last_furafura_status: i32,
    pub last_vanilla_mute_frame: i32,
    pub megasymbol_played_this_fs: bool,
    pub last_fs_flag: bool,
}

impl LoopTracker {
    pub open spec fn initial() -> Self {
        LoopTracker {
            last_evolution_state: false,
            last_special_n_status: -1i32,
            reached_hold_max: false,
            had_turn_status: false,
            furafura_sound_active: false,
            furafura_start_frame: -1i32,
            last_furafura_status: -1i32,
            last_vanilla_mute_frame: -10i32,
            megasymbol_played_this_fs: false,
            last_fs_flag: false,
        }
    }

    /// Nothing seen yet.
    pub fn new() -> (t: Self)
        ensures
            t == Self::initial(),
    {
        LoopTracker {
            last_evolution_state: false,
            last_special_n_status: -1,
            reached_hold_max: false,
            had_turn_status: false,
            furafura_sound_active: false,
            furafura_start_frame: -1,
            last_furafura_status: -1,
            last_vanilla_mute_frame: -10,
            megasymbol_played_this_fs: false,
            last_fs_flag: false,
        }
    }
}

/// What the game reports that the looping sounds follow.
#[derive(Debug, Clone, Copy, PartialEq, Eq, Structural)]
pub struct LoopInput {
    pub shadowball: ShadowballInput,
    /// Dead, respawning, on standby or making an entrance.
    pub heal_excluded_status: bool,
    pub entry_id: u32,
    pub is_bind: bool,
    /// Dizzy (standing or not).
    pub is_furafura: bool,
    /// Holding or pulling a grabbed opponent.
    pub is_catch_status: bool,
    pub final_flag: bool,
}

/// A looped play command.
pub open spec fn looped(s: LoopSound, v: u32) -> SoundCommand {
    SoundCommand::Play { sound: s, looped: true, volume_pct: v }
}

/// A one-shot play command.
pub open spec fn once(s: LoopSound, v: u32) -> SoundCommand {
    SoundCommand::Play { sound: s, looped: false, volume_pct: v }
}

/// Stopping a kept sound: its handle, then every instance.
pub open spec fn stop_kept(s: LoopSound) -> Seq<SoundCommand> {
    seq![SoundCommand::StopHandle(s), SoundCommand::Stop(s)]
}

/// `s` if `b`, else nothing.
pub open spec fn opt(b: bool, s: Seq<SoundCommand>) -> Seq<SoundCommand> {
    if b { s } else { Seq::<SoundCommand>::empty() }
}

/// The evolving flags after the timer tick (459 frames stop the sound).
pub open spec fn evolving_ticked(f: LoopFlags) -> LoopFlags {
    if f.evolving_active {
        let n = (f.evolving_timer + 1) as i32;
        LoopFlags { evolving_timer: n, evolving_active: n < EVOLVING_SOUND_FRAMES, ..f }
    } else {
        f
    }
}

/// The evolving sound: it starts once per evolution (stopping the evolve SS
/// sound when the evolution has just started), stops after 459 frames, and
/// stops early when an evolution is cancelled.
#[verifier::opaque]
pub open spec fn evolving_section(f: LoopFlags, t: LoopTracker, is_evolving: bool, just_cancelled: bool)
    -> (LoopFlags, LoopTracker, Seq<SoundCommand>)
{
    let just_started = !t.last_evolution_state && is_evolving;
    let f1 = evolving_ticked(f);
    let stop_timer = f.evolving_active && !f1.evolving_active;
    let start = is_evolving && !f1.evolving_active;
    let stop_ss = start && just_started;
    let stop_cancel = !is_evolving && f1.evolving_active && just_cancelled;
    let f2 = if start {
        LoopFlags { evolving_active: true, evolving_timer: 0, evolve_ss_active: if stop_ss { false } else { f1.evolve_ss_active }, ..f1 }
    } else if stop_cancel {
        LoopFlags { evolving_active: false, ..f1 }
    } else {
        f1
    };
    (f2, LoopTracker { last_evolution_state: is_evolving, ..t },
        opt(stop_timer, stop_kept(LoopSound::Evolving)) + opt(stop_ss, stop_kept(LoopSound::EvolveSs))
            + opt(start, seq![looped(LoopSound::Evolving, 150)]) + opt(stop_cancel, stop_kept(LoopSound::Evolving)))
}

/// The evolve SS sound plays while the SS or SE readiness icon shows,
/// outside an evolution.
#[verifier::opaque]
pub open spec fn evolve_ss_section(f: LoopFlags, should: bool) -> (LoopFlags, Seq<SoundCommand>) {
    let start = should && !f.evolve_ss_active;
    let stop = !should && f.evolve_ss_active;
    let f1 = if should {
        LoopFlags { evolve_ss_active: true, evolve_ss_timer: ((if start { 0 } else { f.evolve_ss_timer }) + 1) as i32, ..f }
    } else {
        LoopFlags { evolve_ss_active: false, ..f }
    };
    (f1, opt(start, seq![looped(LoopSound::EvolveSs, 180)]) + opt(stop, stop_kept(LoopSound::EvolveSs)))
}

/// The shadow ball state shows the shadow ball or has an active rollout hitbox.
pub open spec fn shadowball_audible(sbs: ShadowballState) -> bool {
    sbs == ShadowballState::ActiveFrameBased || sbs == ShadowballState::ActiveWithHitbox
        || sbs == ShadowballState::ChargedRolloutWithHitbox || sbs == ShadowballState::RegularRolloutWithHitbox
        || sbs == ShadowballState::AirToGroundRolloutWithHitbox
}

/// The charge and shadow ball sounds: the charge sound while charging, the
/// shadow ball sound while the shadow ball shows or a rollout hitbox is active.
#[verifier::opaque]
pub open spec fn charge_section(f: LoopFlags, charging: bool, sbs: ShadowballState) -> (LoopFlags, Seq<SoundCommand>) {
    let audible = shadowball_audible(sbs);
    let start_c = charging && !f.shadowball_charge_active;
    let stop_c = !charging && f.shadowball_charge_active;
    let start_s = audible && !f.shadowball_active;
    let stop_s = !audible && f.shadowball_active;
    (LoopFlags { shadowball_charge_active: charging, shadowball_active: audible, ..f },
        opt(start_c, seq![looped(LoopSound::ShadowballCharge, 100)]) + opt(stop_c, stop_kept(LoopSound::ShadowballCharge))
            + opt(start_s, seq![looped(LoopSound::Shadowball, 250)]) + opt(stop_s, seq![SoundCommand::Stop(LoopSound::Shadowball)]))
}

/// The neutral special one-shots: the full-charge sound on reaching full
/// charge, and a release sound on entering a roll (unless after a turn, a
/// roll-to-roll change, or with no shadow ball), loud after a full charge.
#[verifier::opaque]
pub open spec fn special_n_section(t: LoopTracker, status: i32, sbs: ShadowballState, charged: bool)
    -> (LoopTracker, Seq<SoundCommand>)
{
    let changed = t.last_special_n_status != status;
    let had_turn = t.had_turn_status || status == PURIN_SPECIAL_N_TURN;
    let max_sound = status == PURIN_SPECIAL_N_HOLD_MAX && changed;
    let reached = t.reached_hold_max || max_sound;
    let is_roll = status == PURIN_SPECIAL_N_ROLL || status == PURIN_SPECIAL_N_ROLL_AIR;
    let r2r = (status == PURIN_SPECIAL_N_ROLL && t.last_special_n_status == PURIN_SPECIAL_N_ROLL_AIR)
        || (status == PURIN_SPECIAL_N_ROLL_AIR && t.last_special_n_status == PURIN_SPECIAL_N_ROLL);
    let effect = sbs == ShadowballState::ChargedRolloutWithHitbox || sbs == ShadowballState::RegularRolloutWithHitbox
        || sbs == ShadowballState::AirToGroundRolloutWithHitbox
        || (sbs == ShadowballState::ChargedRollout && status == PURIN_SPECIAL_N_ROLL_AIR)
        || (status == PURIN_SPECIAL_N_ROLL_AIR && charged);
    let release = is_roll && changed && !had_turn && !r2r && effect;
    let any = PURIN_SPECIAL_N_HOLD <= status <= PURIN_SPECIAL_N_END;
    (LoopTracker {
        last_special_n_status: status,
        reached_hold_max: if !any { false } else { reached },
        had_turn_status: if !any { false } else { had_turn },
        ..t
    }, opt(max_sound, seq![once(LoopSound::SpecialNChargeMax, 70)])
        + opt(release && reached, seq![once(LoopSound::SpecialNChargeMaxRelease, 60)])
        + opt(release && !reached, seq![once(LoopSound::SpecialNRegularRelease, 30)]))
}

/// Whether the heal sounds are held off this frame (skipping the sections
/// after them): an excluded status, 180 frames after leaving the respawn
/// platform, or a heal from before it.
pub open spec fn heal_held_off(h: HealTracker, frame: i32, excluded: bool) -> bool {
    excluded || within(frame as int, h.last_rebirth_exit_frame as int, 180) || h.heal_frame <= h.last_rebirth_exit_frame
}

/// The heal sounds: none (and no pending heal) while held off, the excluded
/// statuses also stopping both sounds; a fresh full restore (35% or more)
/// plays the restore sound (stopping the potion sound), else a fresh potion
/// (15% or more) the potion sound, each muting the game's own heal sound;
/// the restore sound lasts 105 frames, the potion sound 50; a heal older
/// than 120 frames is forgotten.
#[verifier::opaque]
pub open spec fn heal_section(f: LoopFlags, h: HealTracker, frame: i32, excluded: bool)
    -> (LoopFlags, HealTracker, Seq<SoundCommand>)
{
    if heal_held_off(h, frame, excluded) {
        if excluded {
            (LoopFlags { restore_active: false, potion_active: false, ..f }, heal_forgotten(h),
                opt(f.restore_active, seq![SoundCommand::Stop(LoopSound::Restore)])
                    + opt(f.potion_active, seq![SoundCommand::Stop(LoopSound::Potion)]))
        } else {
            (f, heal_forgotten(h), Seq::<SoundCommand>::empty())
        }
    } else {
        let since = frame - h.heal_frame;
        let fresh = 0 <= since <= HEAL_FRESH_FRAMES;
        let restore = h.heal_amount < 0 && -h.heal_amount >= RESTORE_FROM && fresh;
        let potion = h.heal_amount >= MIN_HEAL && fresh;
        let stop_potion = restore && f.potion_active;
        let start_restore = restore && !f.restore_active;
        let start_potion = !restore && potion && !f.restore_active && !f.potion_active;
        let r_active = f.restore_active || start_restore;
        let r_timer = (if start_restore { 0 } else { f.restore_timer }) + 1;
        let r_on = r_active;
        let r_end = r_active && r_timer >= RESTORE_SOUND_FRAMES;
        let p_active = (f.potion_active && !stop_potion) || start_potion;
        let p_timer = (if start_potion { 0 } else { f.potion_timer }) + 1;
        let p_end = p_active && p_timer >= POTION_SOUND_FRAMES;
        let h1 = if start_restore || start_potion || since > HEAL_FRESH_FRAMES { heal_forgotten(h) } else { h };
        (LoopFlags {
            restore_active: r_active && !r_end,
            restore_timer: if r_active { r_timer as i32 } else { f.restore_timer },
            potion_active: p_active && !p_end,
            potion_timer: if p_active { p_timer as i32 } else { f.potion_timer },
            ..f
        }, h1,
            opt(stop_potion, seq![SoundCommand::Stop(LoopSound::Potion)])
            + opt(start_restore, seq![SoundCommand::Stop(LoopSound::VanillaLifeup), looped(LoopSound::Restore, 150)])
            + opt(start_potion, seq![SoundCommand::Stop(LoopSound::VanillaLifeup), looped(LoopSound::Potion, 150)])
            + opt(r_on, seq![SoundCommand::Stop(LoopSound::VanillaLifeup)])
            + opt(r_end, seq![SoundCommand::Stop(LoopSound::Restore)])
            + opt(p_active, seq![SoundCommand::Stop(LoopSound::VanillaLifeup)])
            + opt(p_end, seq![SoundCommand::Stop(LoopSound::Potion)]))
    }
}

/// The dizzy sound (entries 0 to 7): while bound it plays looped for 102
/// frames, while dizzy once per status; it stops outside those statuses;
/// the game's own dizzy sounds are muted every 10 frames in them.
#[verifier::opaque]
pub open spec fn furafura_section(t: LoopTracker, inp: LoopInput, frame: i32) -> (LoopTracker, Seq<SoundCommand>) {
    if inp.entry_id >= 8 {
        (t, Seq::<SoundCommand>::empty())
    } else {
        let status = inp.shadowball.status;
        let dizzy = inp.is_bind || inp.is_furafura;
        let restart = dizzy && (!t.furafura_sound_active || t.last_furafura_status != status);
        let stop_old = restart && t.furafura_sound_active;
        let active1 = t.furafura_sound_active || restart;
        let start1 = if restart { frame } else { t.furafura_start_frame };
        let bind_end = inp.is_bind && active1 && frame - start1 >= BIND_SOUND_FRAMES;
        let stop_out = !dizzy && t.furafura_sound_active;
        let mute = dizzy && frame - t.last_vanilla_mute_frame >= 10;
        (LoopTracker {
            furafura_sound_active: if dizzy { active1 && !bind_end } else { false },
            furafura_start_frame: start1,
            last_vanilla_mute_frame: if mute { frame } else { t.last_vanilla_mute_frame },
            last_furafura_status: status,
            ..t
        }, opt(stop_old, seq![SoundCommand::Stop(LoopSound::Furafura)])
            + opt(restart, seq![SoundCommand::Play { sound: LoopSound::Furafura, looped: inp.is_bind, volume_pct: 150 }])
            + opt(bind_end || stop_out, seq![SoundCommand::Stop(LoopSound::Furafura)])
            + opt(mute, seq![SoundCommand::Stop(LoopSound::VanillaDizzyAdd), SoundCommand::Stop(LoopSound::VanillaDizzyLoop)]))
    }
}

/// The grab burn sound plays while holding or pulling an opponent.
#[verifier::opaque]
pub open spec fn grab_section(f: LoopFlags, catching: bool) -> (LoopFlags, Seq<SoundCommand>) {
    (LoopFlags { grab_burn_active: catching, ..f },
        opt(catching && !f.grab_burn_active, seq![looped(LoopSound::GrabBurn, 180)])
            + opt(!catching && f.grab_burn_active, stop_kept(LoopSound::GrabBurn)))
}

/// The mega symbol sound plays once per final smash, for 84 frames at most,
/// and stops when the final smash ends.
#[verifier::opaque]
pub open spec fn megasymbol_section(f: LoopFlags, t: LoopTracker, fs: bool) -> (LoopFlags, LoopTracker, Seq<SoundCommand>) {
    let played = if fs != t.last_fs_flag { false } else { t.megasymbol_played_this_fs };
    let start = fs && !played && !f.megasymbol_active;
    let active = f.megasymbol_active || start;
    let timer = (if start { 0 } else { f.megasymbol_timer }) + 1;
    let end = active && timer >= MEGASYMBOL_SOUND_FRAMES;
    let cut = active && !end && !fs;
    (LoopFlags {
        megasymbol_active: active && !end && fs,
        megasymbol_timer: if active { timer as i32 } else { f.megasymbol_timer },
        ..f
    }, LoopTracker { megasymbol_played_this_fs: played || start, last_fs_flag: fs, ..t },
        opt(start, seq![looped(LoopSound::Megasymbol, 200)]) + opt(end, stop_kept(LoopSound::Megasymbol))
            + opt(cut, stop_kept(LoopSound::Megasymbol)))
}

/// The timers and counters stay below the top of their range.
pub open spec fn loop_counters_in_range(ps: PlayerEvolutionState, f: LoopFlags) -> bool {
    &&& f.evolving_timer < i32::MAX
    &&& f.evolve_ss_timer < i32::MAX
    &&& f.restore_timer < i32::MAX
    &&& f.potion_timer < i32::MAX
    &&& f.megasymbol_timer < i32::MAX
    &&& ps.shadowball.shadowball_status_frames < i32::MAX - 1
}

/// One frame of the looping sounds, section by section (held-off heal
/// sounds skip the dizzy, grab and mega symbol sections).
pub open spec fn looping_step(ps: PlayerEvolutionState, f: LoopFlags, t: LoopTracker, h: HealTracker, inp: LoopInput)
    -> (PlayerEvolutionState, LoopFlags, LoopTracker, HealTracker, Seq<SoundCommand>)
{
    let (f1, t1, c1) = evolving_section(f, t, ps.evolution.is_evolving, ps.evolution.evolution_just_cancelled_this_frame);
    let should_ss = (ps.readiness.dmg_ss_icon_display_timer > 0 || ps.readiness.dmg_se_icon_display_timer > 0)
        && !ps.evolution.is_evolving;
    let (f2, c2) = evolve_ss_section(f1, should_ss);
    let st = inp.shadowball.status;
    let (sb1, sbs1) = shadowball_step(ps.shadowball, inp.shadowball);
    let (f3, c3) = charge_section(f2, st == PURIN_SPECIAL_N_HOLD || st == PURIN_SPECIAL_N_HOLD_MAX, sbs1);
    let (sb2, sbs2) = shadowball_step(sb1, inp.shadowball);
    let (t2, c4) = special_n_section(t1, st, sbs2, sb2.shadowball_was_sufficiently_charged);
    let ps1 = PlayerEvolutionState { shadowball: sb2, ..ps };
    let (f4, h1, c5) = heal_section(f3, h, ps.current_frame, inp.heal_excluded_status);
    let pre = c1 + c2 + c3 + c4 + c5;
    if heal_held_off(h, ps.current_frame, inp.heal_excluded_status) {
        (ps1, f4, t2, h1, pre)
    } else {
        let (t3, c6) = furafura_section(t2, inp, ps.current_frame);
        let (f5, c7) = grab_section(f4, inp.is_catch_status);
        let (f6, t4, c8) = megasymbol_section(f5, t3, inp.final_flag);
        (ps1, f6, t4, h1, pre + c6 + c7 + c8)
    }
}


/// Law: a fresh full restore takes precedence: after the frame the potion
/// sound is off and the restore sound is on (or has just run its course).
pub proof fn lemma_restore_over_potion(f: LoopFlags, h: HealTracker, frame: i32)
    requires
        !heal_held_off(h, frame, false),
        h.heal_amount <= -RESTORE_FROM,
        0 <= frame - h.heal_frame <= HEAL_FRESH_FRAMES,
        f.restore_timer < i32::MAX,
    ensures
        !heal_section(f, h, frame, false).0.potion_active,
        heal_section(f, h, frame, false).0.restore_active || heal_section(f, h, frame, false).0.restore_timer >= RESTORE_SOUND_FRAMES,
{
    reveal(heal_section);
}

fn play(cmds: &mut Vec<SoundCommand>, sound: LoopSound, looped: bool, volume_pct: u32)
    ensures
        final(cmds)@ == old(cmds)@.push(SoundCommand::Play { sound: sound, looped: looped, volume_pct: volume_pct }),
{
    cmds.push(SoundCommand::Play { sound: sound, looped: looped, volume_pct: volume_pct });
}

fn stop(cmds: &mut Vec<SoundCommand>, sound: LoopSound)
    ensures
        final(cmds)@ == old(cmds)@.push(SoundCommand::Stop(sound)),
{
    cmds.push(SoundCommand::Stop(sound));
}

fn stop_kept_sound(cmds: &mut Vec<SoundCommand>, sound: LoopSound)
    ensures
        final(cmds)@ == old(cmds)@ + stop_kept(sound),
{
    cmds.push(SoundCommand::StopHandle(sound));
    cmds.push(SoundCommand::Stop(sound));
    assert(cmds@ =~= old(cmds)@ + stop_kept(sound));
}

fn evolving_flags(f0: LoopFlags, t0: LoopTracker, is_evolving: bool, just_cancelled: bool) -> (r: LoopFlags)
    requires
        f0.evolving_timer < i32::MAX,
    ensures
        r == evolving_section(f0, t0, is_evolving, just_cancelled).0,
        r.evolve_ss_timer == f0.evolve_ss_timer,
        r.restore_timer == f0.restore_timer,
        r.potion_timer == f0.potion_timer,
        r.megasymbol_timer == f0.megasymbol_timer,
{
    proof { reveal(evolving_section); }
    let just_started = !t0.last_evolution_state && is_evolving;
    let mut f1 = f0;
    if f0.evolving_active {
        f1.evolving_timer = f0.evolving_timer + 1;
        f1.evolving_active = f1.evolving_timer < EVOLVING_SOUND_FRAMES;
    }
    let start = is_evolving && !f1.evolving_active;
    let stop_cancel = !is_evolving && f1.evolving_active && just_cancelled;
    let mut f2 = f1;
    if start {
        f2.evolving_active = true;
        f2.evolving_timer = 0;
        if just_started {
            f2.evolve_ss_active = false;
        }
    } else if stop_cancel {
        f2.evolving_active = false;
    }
    f2
}

fn run_evolving(f0: LoopFlags, t0: LoopTracker, is_evolving: bool, just_cancelled: bool, cmds: &mut Vec<SoundCommand>)
    -> (r: (LoopFlags, LoopTracker))
    requires
        f0.evolving_timer < i32::MAX,
    ensures
        r.0 == evolving_section(f0, t0, is_evolving, just_cancelled).0,
        r.1 == evolving_section(f0, t0, is_evolving, just_cancelled).1,
        final(cmds)@ == old(cmds)@ + evolving_section(f0, t0, is_evolving, just_cancelled).2,
        r.0.evolve_ss_timer == f0.evolve_ss_timer,
        r.0.restore_timer == f0.restore_timer,
        r.0.potion_timer == f0.potion_timer,
        r.0.megasymbol_timer == f0.megasymbol_timer,
{
    let just_started = !t0.last_evolution_state && is_evolving;
    let ticked_active = f0.evolving_active && f0.evolving_timer + 1 < EVOLVING_SOUND_FRAMES;
    let stop_timer = f0.evolving_active && !ticked_active;
    let start = is_evolving && !ticked_active;
    let stop_ss = start && just_started;
    let stop_cancel = !is_evolving && ticked_active && just_cancelled;
    let ghost c0 = cmds@;
    if stop_timer { stop_kept_sound(cmds, LoopSound::Evolving); }
    if stop_ss { stop_kept_sound(cmds, LoopSound::EvolveSs); }
    if start { play(cmds, LoopSound::Evolving, true, 150); }
    if stop_cancel { stop_kept_sound(cmds, LoopSound::Evolving); }
    assert(cmds@ =~= c0 + evolving_section(f0, t0, is_evolving, just_cancelled).2) by {
        reveal(evolving_section);
    }
    let mut t = t0;
    t.last_evolution_state = is_evolving;
    assert(t == evolving_section(f0, t0, is_evolving, just_cancelled).1) by {
        reveal(evolving_section);
    }
    (evolving_flags(f0, t0, is_evolving, just_cancelled), t)
}

fn run_evolve_ss(f0: LoopFlags, should: bool, cmds: &mut Vec<SoundCommand>) -> (r: LoopFlags)
    requires
        f0.evolve_ss_timer < i32::MAX,
    ensures
        r == evolve_ss_section(f0, should).0,
        final(cmds)@ == old(cmds)@ + evolve_ss_section(f0, should).1,
        r.restore_timer == f0.restore_timer,
        r.potion_timer == f0.potion_timer,
        r.megasymbol_timer == f0.megasymbol_timer,
{
    proof { reveal(evolve_ss_section); }
    let start = should && !f0.evolve_ss_active;
    let stop_now = !should && f0.evolve_ss_active;
    let mut f = f0;
    if should {
        f.evolve_ss_active = true;
        f.evolve_ss_timer = (if start { 0 } else { f0.evolve_ss_timer }) + 1;
    } else {
        f.evolve_ss_active = false;
    }
    let ghost c0 = cmds@;
    if start { play(cmds, LoopSound::EvolveSs, true, 180); }
    if stop_now { stop_kept_sound(cmds, LoopSound::EvolveSs); }
    assert(cmds@ =~= c0 + evolve_ss_section(f0, should).1);
    f
}

fn audible(sbs: ShadowballState) -> (r: bool)
    ensures
        r == shadowball_audible(sbs),
{
    sbs == ShadowballState::ActiveFrameBased || sbs == ShadowballState::ActiveWithHitbox
        || sbs == ShadowballState::ChargedRolloutWithHitbox || sbs == ShadowballState::RegularRolloutWithHitbox
        || sbs == ShadowballState::AirToGroundRolloutWithHitbox
}

fn run_charge(f0: LoopFlags, charging: bool, sbs: ShadowballState, cmds: &mut Vec<SoundCommand>) -> (r: LoopFlags)
    ensures
        r == charge_section(f0, charging, sbs).0,
        final(cmds)@ == old(cmds)@ + charge_section(f0, charging, sbs).1,
        r.restore_timer == f0.restore_timer,
        r.potion_timer == f0.potion_timer,
        r.megasymbol_timer == f0.megasymbol_timer,
{
    proof { reveal(charge_section); }
    let aud = audible(sbs);
    let ghost c0 = cmds@;
    if charging && !f0.shadowball_charge_active { play(cmds, LoopSound::ShadowballCharge, true, 100); }
    if !charging && f0.shadowball_charge_active { stop_kept_sound(cmds, LoopSound::ShadowballCharge); }
    if aud && !f0.shadowball_active { play(cmds, LoopSound::Shadowball, true, 250); }
    if !aud && f0.shadowball_active { stop(cmds, LoopSound::Shadowball); }
    assert(cmds@ =~= c0 + charge_section(f0, charging, sbs).1);
    let mut f = f0;
    f.shadowball_charge_active = charging;
    f.shadowball_active = aud;
    f
}

fn run_special_n(t0: LoopTracker, status: i32, sbs: ShadowballState, charged: bool, cmds: &mut Vec<SoundCommand>) -> (r: LoopTracker)
    ensures
        r == special_n_section(t0, status, sbs, charged).0,
        final(cmds)@ == old(cmds)@ + special_n_section(t0, status, sbs, charged).1,
{
    proof { reveal(special_n_section); }
    let changed = t0.last_special_n_status != status;
    let had_turn = t0.had_turn_status || status == PURIN_SPECIAL_N_TURN;
    let max_sound = status == PURIN_SPECIAL_N_HOLD_MAX && changed;
    let reached = t0.reached_hold_max || max_sound;
    let is_roll = status == PURIN_SPECIAL_N_ROLL || status == PURIN_SPECIAL_N_ROLL_AIR;
    let r2r = (status == PURIN_SPECIAL_N_ROLL && t0.last_special_n_status == PURIN_SPECIAL_N_ROLL_AIR)
        || (status == PURIN_SPECIAL_N_ROLL_AIR && t0.last_special_n_status == PURIN_SPECIAL_N_ROLL);
    let effect = sbs == ShadowballState::ChargedRolloutWithHitbox || sbs == ShadowballState::RegularRolloutWithHitbox
        || sbs == ShadowballState::AirToGroundRolloutWithHitbox
        || (sbs == ShadowballState::ChargedRollout && status == PURIN_SPECIAL_N_ROLL_AIR)
        || (status == PURIN_SPECIAL_N_ROLL_AIR && charged);
    let release = is_roll && changed && !had_turn && !r2r && effect;
    let any = PURIN_SPECIAL_N_HOLD <= status && status <= PURIN_SPECIAL_N_END;
    let ghost c0 = cmds@;
    if max_sound { play(cmds, LoopSound::SpecialNChargeMax, false, 70); }
    if release && reached { play(cmds, LoopSound::SpecialNChargeMaxRelease, false, 60); }
    if release && !reached { play(cmds, LoopSound::SpecialNRegularRelease, false, 30); }
    assert(cmds@ =~= c0 + special_n_section(t0, status, sbs, charged).1);
    let mut t = t0;
    t.last_special_n_status = status;
    t.reached_hold_max = if !any { false } else { reached };
    t.had_turn_status = if !any { false } else { had_turn };
    t
}

fn heal_is_held_off(h: &HealTracker, frame: i32, excluded: bool) -> (r: bool)
    ensures
        r == heal_held_off(*h, frame, excluded),
{
    let since = frame as i64 - h.last_rebirth_exit_frame as i64;
    excluded || (0 <= since && since <= 180) || h.heal_frame <= h.last_rebirth_exit_frame
}

fn heal_flags(f0: LoopFlags, h: &HealTracker, frame: i32, excluded: bool) -> (r: (LoopFlags, HealTracker))
    requires
        f0.restore_timer < i32::MAX,
        f0.potion_timer < i32::MAX,
    ensures
        r.0 == heal_section(f0, *h, frame, excluded).0,
        r.1 == heal_section(f0, *h, frame, excluded).1,
        r.0.megasymbol_timer == f0.megasymbol_timer,
{
    proof { reveal(heal_section); }
    let mut h1 = *h;
    if heal_is_held_off(h, frame, excluded) {
        h1.heal_amount = 0;
        h1.heal_frame = -200;
        let mut f = f0;
        if excluded {
            f.restore_active = false;
            f.potion_active = false;
        }
        return (f, h1);
    }
    let since = frame as i64 - h.heal_frame as i64;
    let fresh = 0 <= since && since <= HEAL_FRESH_FRAMES as i64;
    let restore = h.heal_amount < 0 && -(h.heal_amount as i64) >= RESTORE_FROM as i64 && fresh;
    let potion = h.heal_amount >= MIN_HEAL && fresh;
    let stop_potion = restore && f0.potion_active;
    let start_restore = restore && !f0.restore_active;
    let start_potion = !restore && potion && !f0.restore_active && !f0.potion_active;
    let r_active = f0.restore_active || start_restore;
    let r_timer = (if start_restore { 0 } else { f0.restore_timer }) + 1;
    let r_end = r_active && r_timer >= RESTORE_SOUND_FRAMES;
    let p_active = (f0.potion_active && !stop_potion) || start_potion;
    let p_timer = (if start_potion { 0 } else { f0.potion_timer }) + 1;
    let p_end = p_active && p_timer >= POTION_SOUND_FRAMES;
    if start_restore || start_potion || since > HEAL_FRESH_FRAMES as i64 {
        h1.heal_amount = 0;
        h1.heal_frame = -200;
    }
    let mut f = f0;
    f.restore_active = r_active && !r_end;
    if r_active { f.restore_timer = r_timer; }
    f.potion_active = p_active && !p_end;
    if p_active { f.potion_timer = p_timer; }
    (f, h1)
}

fn run_heal(f0: LoopFlags, h: &HealTracker, frame: i32, excluded: bool, cmds: &mut Vec<SoundCommand>)
    -> (r: (LoopFlags, HealTracker))
    requires
        f0.restore_timer < i32::MAX,
        f0.potion_timer < i32::MAX,
    ensures
        r.0 == heal_section(f0, *h, frame, excluded).0,
        r.1 == heal_section(f0, *h, frame, excluded).1,
        final(cmds)@ == old(cmds)@ + heal_section(f0, *h, frame, excluded).2,
        r.0.megasymbol_timer == f0.megasymbol_timer,
{
    proof { reveal(heal_section); }
    let ghost c0 = cmds@;
    if heal_is_held_off(h, frame, excluded) {
        if excluded {
            if f0.restore_active { stop(cmds, LoopSound::Restore); }
            if f0.potion_active { stop(cmds, LoopSound::Potion); }
        }
        assert(cmds@ =~= c0 + heal_section(f0, *h, frame, excluded).2);
        return heal_flags(f0, h, frame, excluded);
    }
    let since = frame as i64 - h.heal_frame as i64;
    let fresh = 0 <= since && since <= HEAL_FRESH_FRAMES as i64;
    let restore = h.heal_amount < 0 && -(h.heal_amount as i64) >= RESTORE_FROM as i64 && fresh;
    let potion = h.heal_amount >= MIN_HEAL && fresh;
    let stop_potion = restore && f0.potion_active;
    let start_restore = restore && !f0.restore_active;
    let start_potion = !restore && potion && !f0.restore_active && !f0.potion_active;
    let r_active = f0.restore_active || start_restore;
    let r_timer = (if start_restore { 0 } else { f0.restore_timer }) + 1;
    let r_end = r_active && r_timer >= RESTORE_SOUND_FRAMES;
    let p_active = (f0.potion_active && !stop_potion) || start_potion;
    let p_timer = (if start_potion { 0 } else { f0.potion_timer }) + 1;
    let p_end = p_active && p_timer >= POTION_SOUND_FRAMES;
    if stop_potion { stop(cmds, LoopSound::Potion); }
    if start_restore {
        stop(cmds, LoopSound::VanillaLifeup);
        play(cmds, LoopSound::Restore, true, 150);
    }
    if start_potion {
        stop(cmds, LoopSound::VanillaLifeup);
        play(cmds, LoopSound::Potion, true, 150);
    }
    if r_active { stop(cmds, LoopSound::VanillaLifeup); }
    if r_end { stop(cmds, LoopSound::Restore); }
    if p_active { stop(cmds, LoopSound::VanillaLifeup); }
    if p_end { stop(cmds, LoopSound::Potion); }
    assert(cmds@ =~= c0 + heal_section(f0, *h, frame, excluded).2);
    heal_flags(f0, h, frame, excluded)
}

fn run_furafura(t0: LoopTracker, inp: LoopInput, frame: i32, cmds: &mut Vec<SoundCommand>) -> (r: LoopTracker)
    ensures
        r == furafura_section(t0, inp, frame).0,
        final(cmds)@ == old(cmds)@ + furafura_section(t0, inp, frame).1,
{
    proof { reveal(furafura_section); }
    if inp.entry_id >= 8 {
        assert(cmds@ =~= old(cmds)@ + furafura_section(t0, inp, frame).1);
        return t0;
    }
    let status = inp.shadowball.status;
    let dizzy = inp.is_bind || inp.is_furafura;
    let restart = dizzy && (!t0.furafura_sound_active || t0.last_furafura_status != status);
    let stop_old = restart && t0.furafura_sound_active;
    let active1 = t0.furafura_sound_active || restart;
    let start1 = if restart { frame } else { t0.furafura_start_frame };
    let bind_end = inp.is_bind && active1 && frame as i64 - start1 as i64 >= BIND_SOUND_FRAMES as i64;
    let stop_out = !dizzy && t0.furafura_sound_active;
    let mute = dizzy && frame as i64 - t0.last_vanilla_mute_frame as i64 >= 10;
    let ghost c0 = cmds@;
    if stop_old { stop(cmds, LoopSound::Furafura); }
    if restart { play(cmds, LoopSound::Furafura, inp.is_bind, 150); }
    if bind_end || stop_out { stop(cmds, LoopSound::Furafura); }
    if mute {
        stop(cmds, LoopSound::VanillaDizzyAdd);
        stop(cmds, LoopSound::VanillaDizzyLoop);
    }
    assert(cmds@ =~= c0 + furafura_section(t0, inp, frame).1);
    let mut t = t0;
    t.furafura_sound_active = if dizzy { active1 && !bind_end } else { false };
    t.furafura_start_frame = start1;
    if mute { t.last_vanilla_mute_frame = frame; }
    t.last_furafura_status = status;
    t
}

fn run_grab(f0: LoopFlags, catching: bool, cmds: &mut Vec<SoundCommand>) -> (r: LoopFlags)
    ensures
        r == grab_section(f0, catching).0,
        final(cmds)@ == old(cmds)@ + grab_section(f0, catching).1,
        r.megasymbol_timer == f0.megasymbol_timer,
{
    proof { reveal(grab_section); }
    let ghost c0 = cmds@;
    if catching && !f0.grab_burn_active { play(cmds, LoopSound::GrabBurn, true, 180); }
    if !catching && f0.grab_burn_active { stop_kept_sound(cmds, LoopSound::GrabBurn); }
    assert(cmds@ =~= c0 + grab_section(f0, catching).1);
    let mut f = f0;
    f.grab_burn_active = catching;
    f
}

fn run_megasymbol(f0: LoopFlags, t0: LoopTracker, fs: bool, cmds: &mut Vec<SoundCommand>) -> (r: (LoopFlags, LoopTracker))
    requires
        f0.megasymbol_timer < i32::MAX,
    ensures
        r.0 == megasymbol_section(f0, t0, fs).0,
        r.1 == megasymbol_section(f0, t0, fs).1,
        final(cmds)@ == old(cmds)@ + megasymbol_section(f0, t0, fs).2,
{
    proof { reveal(megasymbol_section); }
    let played = if fs != t0.last_fs_flag { false } else { t0.megasymbol_played_this_fs };
    let start = fs && !played && !f0.megasymbol_active;
    let active = f0.megasymbol_active || start;
    let timer = (if start { 0 } else { f0.megasymbol_timer }) + 1;
    let end = active && timer >= MEGASYMBOL_SOUND_FRAMES;
    let cut = active && !end && !fs;
    let ghost c0 = cmds@;
    if start { play(cmds, LoopSound::Megasymbol, true, 200); }
    if end { stop_kept_sound(cmds, LoopSound::Megasymbol); }
    if cut { stop_kept_sound(cmds, LoopSound::Megasymbol); }
    assert(cmds@ =~= c0 + megasymbol_section(f0, t0, fs).2);
    let mut f = f0;
    f.megasymbol_active = active && !end && fs;
    if active { f.megasymbol_timer = timer; }
    let mut t = t0;
    t.megasymbol_played_this_fs = played || start;
    t.last_fs_flag = fs;
    (f, t)
}

/// The sound state the looping sounds carry between frames.
#[derive(Debug, Clone, Copy, PartialEq, Eq, Structural)]
pub struct LoopingSoundState {
    pub flags: LoopFlags,
    pub tracker: LoopTracker,
}

/// One frame of the looping sounds (see `looping_step`): the evolving, evolve
/// SS, charge, shadow ball, neutral special, heal, dizzy, grab burn and mega
/// symbol sounds. Returns the sound operations to perform in order.
pub fn handle_persistent_looping_sounds(
    player_state: &mut PlayerEvolutionState,
    sounds: &mut LoopingSoundState,
    heal: &mut HealTracker,
    inp: LoopInput,
) -> (cmds: Vec<SoundCommand>)
    requires
        loop_counters_in_range(*old(player_state), old(sounds).flags),
    ensures
        ({
            let r = looping_step(*old(player_state), old(sounds).flags, old(sounds).tracker, *old(heal), inp);
            &&& *final(player_state) == r.0
            &&& final(sounds).flags == r.1
            &&& final(sounds).tracker == r.2
            &&& *final(heal) == r.3
            &&& cmds@ == r.4
        }),
{
    let mut cmds: Vec<SoundCommand> = Vec::new();
    let f0 = sounds.flags;
    let t0 = sounds.tracker;
    let h0 = *heal;
    let (f1, t1) = run_evolving(f0, t0, player_state.evolution.is_evolving,
        player_state.evolution.evolution_just_cancelled_this_frame, &mut cmds);
    let should_ss = (player_state.readiness.dmg_ss_icon_display_timer > 0 || player_state.readiness.dmg_se_icon_display_timer > 0)
        && !player_state.evolution.is_evolving;
    let f2 = run_evolve_ss(f1, should_ss, &mut cmds);
    let st = inp.shadowball.status;
    let sbs1 = detect_shadowball_hitbox_state(player_state, inp.shadowball);
    let f3 = run_charge(f2, st == PURIN_SPECIAL_N_HOLD || st == PURIN_SPECIAL_N_HOLD_MAX, sbs1, &mut cmds);
    let sbs2 = detect_shadowball_hitbox_state(player_state, inp.shadowball);
    let t2 = run_special_n(t1, st, sbs2, player_state.shadowball.shadowball_was_sufficiently_charged, &mut cmds);
    let (f4, h1) = run_heal(f3, &h0, player_state.current_frame, inp.heal_excluded_status, &mut cmds);
    *heal = h1;
    if heal_is_held_off(&h0, player_state.current_frame, inp.heal_excluded_status) {
        sounds.flags = f4;
        sounds.tracker = t2;
        return cmds;
    }
    let t3 = run_furafura(t2, inp, player_state.current_frame, &mut cmds);
    let f5 = run_grab(f4, inp.is_catch_status, &mut cmds);
    let (f6, t4) = run_megasymbol(f5, t3, inp.final_flag, &mut cmds);
    sounds.flags = f6;
    sounds.tracker = t4;
    cmds
}

} // verus!
