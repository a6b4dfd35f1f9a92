use vstd::prelude::*;
use crate::hashing::{hash40_of, hash40_str};
use crate::stage::EvolutionStage;
use crate::state::PlayerEvolutionState;
use crate::gastlyfx::FINAL_STATUS;

verus! {

/// Whether evolution and final smash cutins are shown.
pub const ENABLE_EVOLUTION_CUTINS: bool = false;
/// Frames after a cry within which an evolution cutin may follow it.
pub const CRY_CUTIN_WINDOW: i32 = 30;
/// Frames between two portrait updates outside an evolution.
pub const UI_UPDATE_INTERVAL: i32 = 10;

/// What the battle portrait remembers about one fighter.
#[derive(Debug, Clone, Copy, PartialEq, Eq, Structural)]
pub struct UiTracker {
    /// The portrait to return to as Gastly (0: none stored).
    pub original_ui_hash: u64,
    /// The stage last shown (0 Gastly, 1 Haunter, 2 Gengar, 255 none).
    pub last_stage: u8,
    pub cutin_restore_timer: i32,
    pub cutin_played_this_evolution: bool,
    pub cutin_played_mega: bool,
    pub cutin_played_giga: bool,
    pub last_cry_haunter_frame: i32,
    pub last_cry_gengar_frame: i32,
    pub last_ui_update_frame: i32,
}

impl UiTracker {
    pub open spec fn initial() -> Self {
        UiTracker {
            original_ui_hash: 0,
            last_stage: 0,
            cutin_restore_timer: 0,
            cutin_played_this_evolution: false,
            cutin_played_mega: false,
            cutin_played_giga: false,
            last_cry_haunter_frame: -300i32,
            last_cry_gengar_frame: -300i32,
            last_ui_update_frame: -10i32,
        }
    }

    /// Nothing shown yet.
    pub fn new() -> (t: Self)
        ensures
            t == Self::initial(),
    {
        UiTracker {
            original_ui_hash: 0,
            last_stage: 0,
            cutin_restore_timer: 0,
            cutin_played_this_evolution: false,
            cutin_played_mega: false,
            cutin_played_giga: false,
            last_cry_haunter_frame: -300,
            last_cry_gengar_frame: -300,
            last_ui_update_frame: -10,
        }
    }
}

/// The number of a stage on the portrait tracker.
pub open spec fn stage_number(s: EvolutionStage) -> u8 {
    match s {
        EvolutionStage::Gastly => 0u8,
        EvolutionStage::Haunter => 1u8,
        EvolutionStage::Gengar => 2u8,
    }
}

/// The portrait of a stage (Gastly keeps the original fighter's portrait).
pub open spec fn stage_portrait(s: EvolutionStage) -> u64 {
    match s {
        EvolutionStage::Gastly => hash40_of("ui_chara_purin"@),
        EvolutionStage::Haunter => hash40_of("ui_chara_haunter"@),
        EvolutionStage::Gengar => hash40_of("ui_chara_gengar"@),
    }
}

/// The portrait the fighter should show: the mystery portrait while
/// evolving, else its stage's.
pub open spec fn target_portrait(s: PlayerEvolutionState) -> u64 {
    if s.evolution.is_evolving { hash40_of("ui_chara_evolving"@) } else { stage_portrait(s.stage) }
}

/// The portrait tracker after a frame and the portrait to switch to, if
/// any: nothing while a cutin shows; a fighter no longer playing this
/// character gets `restore_ui` back once; a stage change switches to the
/// stage's portrait; otherwise the target portrait replaces `current_ui`
/// when they differ.
pub open spec fn portrait_step(u: UiTracker, s: PlayerEvolutionState, is_purin: bool, restore_ui: u64, current_ui: u64)
    -> (UiTracker, Option<u64>)
{
    if u.cutin_restore_timer > 0 {
        (UiTracker { cutin_restore_timer: (u.cutin_restore_timer - 1) as i32, ..u }, None)
    } else if !is_purin {
        if u.original_ui_hash != 0 { (UiTracker { original_ui_hash: 0, ..u }, Some(restore_ui)) } else { (u, None) }
    } else {
        let u1 = UiTracker { original_ui_hash: hash40_of("ui_chara_purin"@), ..u };
        if u.last_stage != stage_number(s.stage) {
            let t = stage_portrait(s.stage);
            (UiTracker { last_stage: stage_number(s.stage), ..u1 }, if current_ui != t { Some(t) } else { None })
        } else {
            let t = target_portrait(s);
            (u1, if current_ui != t { Some(t) } else { None })
        }
    }
}

/// Updates the battle portrait (see `portrait_step`); `current_ui` is the
/// portrait the game shows now, `restore_ui` the one of the character the
/// fighter switched to. Returns the portrait to switch to, if any.
pub fn update_battle_portrait_ui(ui: &mut UiTracker, player_state: &PlayerEvolutionState, is_purin: bool, restore_ui: u64, current_ui: u64)
    -> (change: Option<u64>)
    ensures
        (*final(ui), change) == portrait_step(*old(ui), *player_state, is_purin, restore_ui, current_ui),
{
    if ui.cutin_restore_timer > 0 {
        ui.cutin_restore_timer = ui.cutin_restore_timer - 1;
        return None;
    }
    if !is_purin {
        if ui.original_ui_hash != 0 {
            ui.original_ui_hash = 0;
            return Some(restore_ui);
        }
        return None;
    }
    let purin = hash40_str("ui_chara_purin");
    if ui.original_ui_hash == 0 {
        ui.original_ui_hash = purin;
    }
    if ui.original_ui_hash != 0 && ui.original_ui_hash != purin {
        ui.original_ui_hash = purin;
    }
    let stage_no: u8 = match player_state.stage {
        EvolutionStage::Gastly => 0,
        EvolutionStage::Haunter => 1,
        EvolutionStage::Gengar => 2,
    };
    if ui.last_stage != stage_no {
        ui.last_stage = stage_no;
        let t = match player_state.stage {
            EvolutionStage::Gastly => if ui.original_ui_hash != 0 { ui.original_ui_hash } else { purin },
            EvolutionStage::Haunter => hash40_str("ui_chara_haunter"),
            EvolutionStage::Gengar => hash40_str("ui_chara_gengar"),
        };
        return if current_ui != t { Some(t) } else { None };
    }
    let target = if player_state.evolution.is_evolving {
        hash40_str("ui_chara_evolving")
    } else {
        match player_state.stage {
            EvolutionStage::Gastly => {
                let o = ui.original_ui_hash;
                if o != 0 && o != hash40_str("ui_chara_evolving") && o != hash40_str("ui_chara_haunter")
                    && o != hash40_str("ui_chara_gengar") {
                    o
                } else {
                    ui.original_ui_hash = purin;
                    purin
                }
            },
            EvolutionStage::Haunter => hash40_str("ui_chara_haunter"),
            EvolutionStage::Gengar => hash40_str("ui_chara_gengar"),
        }
    };
    if current_ui != target { Some(target) } else { None }
}

/// `u` with the portrait and cutin state forgotten.
pub open spec fn ui_death_reset(u: UiTracker) -> UiTracker {
    UiTracker {
        cutin_played_this_evolution: false,
        cutin_played_mega: false,
        cutin_played_giga: false,
        last_cry_haunter_frame: -300i32,
        last_cry_gengar_frame: -300i32,
        last_stage: 255u8,
        original_ui_hash: 0,
        ..u
    }
}

/// Forgets the portrait and cutin state, as after a death.
pub fn reset_ui_state_on_death(ui: &mut UiTracker)
    ensures
        *final(ui) == ui_death_reset(*old(ui)),
{
    ui.cutin_played_this_evolution = false;
    ui.cutin_played_mega = false;
    ui.cutin_played_giga = false;
    ui.last_cry_haunter_frame = -300;
    ui.last_cry_gengar_frame = -300;
    ui.last_stage = 255;
    ui.original_ui_hash = 0;
}

/// Remembers when the Haunter or Gengar cry (by sound hash) played.
pub fn track_cry_sound_playback(ui: &mut UiTracker, sound_hash: u64, current_frame: i32)
    ensures
        *final(ui) == if sound_hash == hash40_of("cry_haunter"@) {
            UiTracker { last_cry_haunter_frame: current_frame, ..*old(ui) }
        } else if sound_hash == hash40_of("cry_gengar"@) {
            UiTracker { last_cry_gengar_frame: current_frame, ..*old(ui) }
        } else {
            *old(ui)
        },
{
    if sound_hash == hash40_str("cry_haunter") {
        ui.last_cry_haunter_frame = current_frame;
    } else if sound_hash == hash40_str("cry_gengar") {
        ui.last_cry_gengar_frame = current_frame;
    }
}

/// Whether the portrait is updated this frame: while evolving, on the frame
/// an evolution completes, or 10 frames after the last update (which is then
/// recorded).
pub fn handle_ui_management(ui: &mut UiTracker, player_state: &PlayerEvolutionState) -> (update: bool)
    ensures
        update == (player_state.evolution.is_evolving || player_state.evolution.evolution_just_completed_this_frame
            || player_state.current_frame - old(ui).last_ui_update_frame >= UI_UPDATE_INTERVAL),
        *final(ui) == if update { UiTracker { last_ui_update_frame: player_state.current_frame, ..*old(ui) } } else { *old(ui) },
{
    let since = player_state.current_frame as i64 - ui.last_ui_update_frame as i64;
    let update = player_state.evolution.is_evolving || player_state.evolution.evolution_just_completed_this_frame
        || since >= UI_UPDATE_INTERVAL as i64;
    if update {
        ui.last_ui_update_frame = player_state.current_frame;
    }
    update
}

/// What a fighter reports for its cutins in a frame.
#[derive(Debug, Clone, Copy, PartialEq, Eq, Structural)]
pub struct CutinInput {
    /// The fighter's final smash flag.
    pub final_flag: bool,
    pub status: i32,
    /// The fighter's Haunter and Gengar cutin-ready flags.
    pub haunter_ready: bool,
    pub gengar_ready: bool,
}

/// What the caller does for cutins this frame.
pub struct CutinFrame {
    /// Clear the fighter's Haunter (Gengar) cutin-ready flag.
    pub clear_haunter_ready: bool,
    pub clear_gengar_ready: bool,
    /// The cutin portraits, in order: for each, switch the fighter's
    /// portrait to it and start a cutin.
    pub cutins: Vec<u64>,
}

/// The cry played at `cry` is recent at frame `now`.
pub open spec fn cry_recent(now: i32, cry: i32) -> bool {
    0 <= now - cry <= CRY_CUTIN_WINDOW
}

/// The evolution cutin of a frame: on the frame an evolution to Haunter
/// (Gengar) completes, after a Haunter (Gengar) cry within the window and
/// when none played for this evolution yet; the played mark clears while
/// evolving.
pub open spec fn cry_cutin_step(u: UiTracker, s: PlayerEvolutionState) -> (UiTracker, Seq<u64>) {
    let done = s.evolution.evolution_just_completed_this_frame && !u.cutin_played_this_evolution;
    let (u1, c) = if done && s.stage == EvolutionStage::Haunter && cry_recent(s.current_frame, u.last_cry_haunter_frame) {
        (UiTracker { cutin_played_this_evolution: true, ..u }, seq![hash40_of("ui_chara_haunter_00"@)])
    } else if done && s.stage == EvolutionStage::Gengar && cry_recent(s.current_frame, u.last_cry_gengar_frame) {
        (UiTracker { cutin_played_this_evolution: true, ..u }, seq![hash40_of("ui_chara_gengar_00"@)])
    } else {
        (u, Seq::empty())
    };
    if s.evolution.is_evolving {
        (UiTracker { cutin_played_this_evolution: false, ..u1 }, c)
    } else {
        (u1, c)
    }
}

/// The fighter is in the final status of its final smash form, final flag set.
pub open spec fn in_final_form(s: PlayerEvolutionState, inp: CutinInput) -> bool {
    inp.final_flag && s.items.is_in_final_smash_form && inp.status == FINAL_STATUS
}

/// The Mega Gengar cutin shows this frame.
pub open spec fn mega_cutin_due(u: UiTracker, s: PlayerEvolutionState, inp: CutinInput) -> bool {
    in_final_form(s, inp) && s.items.mega_gengar_form_active && !u.cutin_played_mega
}

/// The Gigantamax Gengar cutin shows this frame.
pub open spec fn giga_cutin_due(u: UiTracker, s: PlayerEvolutionState, inp: CutinInput) -> bool {
    in_final_form(s, inp) && s.items.giga_gengar_form_active && !u.cutin_played_giga
}

/// The final smash cutins of a frame: the Mega, then the Gigantamax Gengar
/// one, once per final smash, while that form is active, the fighter is in
/// its final smash form and in the final status with the final flag set;
/// both marks clear once the flag is down.
pub open spec fn final_cutin_step(u: UiTracker, s: PlayerEvolutionState, inp: CutinInput) -> (UiTracker, Seq<u64>) {
    let mega = mega_cutin_due(u, s, inp);
    let giga = giga_cutin_due(u, s, inp);
    let c = (if mega { seq![hash40_of("ui_chara_mega_gengar_00"@)] } else { Seq::empty() })
        + (if giga { seq![hash40_of("ui_chara_giga_gengar_00"@)] } else { Seq::empty() });
    if inp.final_flag {
        (UiTracker { cutin_played_mega: u.cutin_played_mega || mega, cutin_played_giga: u.cutin_played_giga || giga, ..u }, c)
    } else {
        (UiTracker { cutin_played_mega: false, cutin_played_giga: false, ..u }, c)
    }
}

/// The cutins asked for by the ready flags: Haunter's, then Gengar's.
pub open spec fn ready_cutins(inp: CutinInput) -> Seq<u64> {
    (if inp.haunter_ready { seq![hash40_of("ui_chara_haunter_00"@)] } else { Seq::empty() })
        + (if inp.gengar_ready { seq![hash40_of("ui_chara_gengar_00"@)] } else { Seq::empty() })
}

/// The cutins of a frame with cutins switched on: the evolution cutin, the
/// final smash cutins, then those of the ready flags, which are cleared.
/// Returns the tracker, the two flags to clear and the cutins.
pub open spec fn enabled_cutin_plan(u: UiTracker, s: PlayerEvolutionState, inp: CutinInput)
    -> (UiTracker, bool, bool, Seq<u64>)
{
    let (u1, c1) = cry_cutin_step(u, s);
    let (u2, c2) = final_cutin_step(u1, s, inp);
    (u2, inp.haunter_ready, inp.gengar_ready, c1 + c2 + ready_cutins(inp))
}

/// The cutins of a frame: with cutins switched off none shows and both
/// ready flags are cleared; otherwise see `enabled_cutin_plan`.
pub open spec fn cutin_plan(u: UiTracker, s: PlayerEvolutionState, inp: CutinInput)
    -> (UiTracker, bool, bool, Seq<u64>)
{
    if !ENABLE_EVOLUTION_CUTINS {
        (u, true, true, Seq::empty())
    } else {
        enabled_cutin_plan(u, s, inp)
    }
}

fn cry_cutins(u: UiTracker, s: &PlayerEvolutionState) -> (r: (UiTracker, Vec<u64>))
    ensures
        r.0 == cry_cutin_step(u, *s).0,
        r.1@ == cry_cutin_step(u, *s).1,
{
    let done = s.evolution.evolution_just_completed_this_frame && !u.cutin_played_this_evolution;
    let since_haunter = s.current_frame as i64 - u.last_cry_haunter_frame as i64;
    let since_gengar = s.current_frame as i64 - u.last_cry_gengar_frame as i64;
    let mut u1 = u;
    let mut v: Vec<u64> = Vec::new();
    if done && matches!(s.stage, EvolutionStage::Haunter) && 0 <= since_haunter && since_haunter <= CRY_CUTIN_WINDOW as i64 {
        u1.cutin_played_this_evolution = true;
        v.push(hash40_str("ui_chara_haunter_00"));
    } else if done && matches!(s.stage, EvolutionStage::Gengar) && 0 <= since_gengar
        && since_gengar <= CRY_CUTIN_WINDOW as i64 {
        u1.cutin_played_this_evolution = true;
        v.push(hash40_str("ui_chara_gengar_00"));
    }
    if s.evolution.is_evolving {
        u1.cutin_played_this_evolution = false;
    }
    proof {
        assert(v@ =~= cry_cutin_step(u, *s).1);
    }
    (u1, v)
}

fn final_cutins(u: UiTracker, s: &PlayerEvolutionState, inp: CutinInput) -> (r: (UiTracker, Vec<u64>))
    ensures
        r.0 == final_cutin_step(u, *s, inp).0,
        r.1@ == final_cutin_step(u, *s, inp).1,
{
    let fs = inp.final_flag && s.items.is_in_final_smash_form && inp.status == FINAL_STATUS;
    let mega = fs && s.items.mega_gengar_form_active && !u.cutin_played_mega;
    let giga = fs && s.items.giga_gengar_form_active && !u.cutin_played_giga;
    let mut u1 = u;
    let mut v: Vec<u64> = Vec::new();
    if mega {
        v.push(hash40_str("ui_chara_mega_gengar_00"));
        u1.cutin_played_mega = true;
    }
    if giga {
        v.push(hash40_str("ui_chara_giga_gengar_00"));
        u1.cutin_played_giga = true;
    }
    if !inp.final_flag {
        u1.cutin_played_mega = false;
        u1.cutin_played_giga = false;
    }
    proof {
        assert(v@ =~= final_cutin_step(u, *s, inp).1);
    }
    (u1, v)
}

/// The cutins of a frame with cutins switched on (see `enabled_cutin_plan`),
/// with the tracker after it.
pub fn cutins_when_enabled(u: UiTracker, s: &PlayerEvolutionState, inp: CutinInput) -> (r: (UiTracker, Vec<u64>))
    ensures
        r.0 == enabled_cutin_plan(u, *s, inp).0,
        r.1@ == enabled_cutin_plan(u, *s, inp).3,
{
    let (u1, mut v) = cry_cutins(u, s);
    let (u2, mut v2) = final_cutins(u1, s, inp);
    v.append(&mut v2);
    if inp.haunter_ready {
        v.push(hash40_str("ui_chara_haunter_00"));
    }
    if inp.gengar_ready {
        v.push(hash40_str("ui_chara_gengar_00"));
    }
    proof {
        assert(v@ =~= enabled_cutin_plan(u, *s, inp).3);
    }
    (u2, v)
}

/// The cutins of a frame (see `cutin_plan`).
pub fn handle_cutin_effects(ui: &mut UiTracker, player_state: &PlayerEvolutionState, inp: CutinInput) -> (f: CutinFrame)
    ensures
        *final(ui) == cutin_plan(*old(ui), *player_state, inp).0,
        f.clear_haunter_ready == cutin_plan(*old(ui), *player_state, inp).1,
        f.clear_gengar_ready == cutin_plan(*old(ui), *player_state, inp).2,
        f.cutins@ == cutin_plan(*old(ui), *player_state, inp).3,
{
    if !ENABLE_EVOLUTION_CUTINS {
        return CutinFrame { clear_haunter_ready: true, clear_gengar_ready: true, cutins: Vec::new() };
    }
    let (u, cutins) = cutins_when_enabled(*ui, player_state, inp);
    *ui = u;
    CutinFrame { clear_haunter_ready: inp.haunter_ready, clear_gengar_ready: inp.gengar_ready, cutins }
}

/// Law: while the final flag stays up, neither final smash cutin shows on
/// two frames in a row, and a cutin once shown stays marked.
pub proof fn lemma_final_cutin_once(u: UiTracker, s: PlayerEvolutionState, inp: CutinInput,
    s2: PlayerEvolutionState, inp2: CutinInput)
    requires
        inp.final_flag,
        inp2.final_flag,
    ensures
        ({
            let u1 = final_cutin_step(u, s, inp).0;
            &&& !(mega_cutin_due(u, s, inp) && mega_cutin_due(u1, s2, inp2))
            &&& !(giga_cutin_due(u, s, inp) && giga_cutin_due(u1, s2, inp2))
            &&& (u.cutin_played_mega ==> u1.cutin_played_mega)
            &&& (u.cutin_played_giga ==> u1.cutin_played_giga)
        }),
{
}

/// Law: an evolving fighter that keeps playing the character and has no
/// cutin showing ends the frame on the mystery portrait (whatever it showed
/// before), unless the frame is the one of a stage change.
pub proof fn lemma_evolving_portrait(u: UiTracker, s: PlayerEvolutionState, restore_ui: u64, current_ui: u64)
    requires
        u.cutin_restore_timer <= 0,
        s.evolution.is_evolving,
        u.last_stage == stage_number(s.stage),
    ensures
        ({
            let (u1, c) = portrait_step(u, s, true, restore_ui, current_ui);
            match c {
                Some(h) => h == hash40_of("ui_chara_evolving"@),
                None => current_ui == hash40_of("ui_chara_evolving"@),
            }
        }),
{
}

/// Law: a fighter playing the character that is not evolving and has no
/// cutin showing ends the frame on its stage's portrait: Gastly on
/// `ui_chara_purin`, Haunter on `ui_chara_haunter`, Gengar on
/// `ui_chara_gengar` (switching to it unless it shows already).
pub proof fn lemma_stage_portrait(u: UiTracker, s: PlayerEvolutionState, restore_ui: u64, current_ui: u64)
    requires
        u.cutin_restore_timer <= 0,
        !s.evolution.is_evolving,
    ensures
        ({
            let (u1, c) = portrait_step(u, s, true, restore_ui, current_ui);
            let p = match s.stage {
                EvolutionStage::Gastly => hash40_of("ui_chara_purin"@),
                EvolutionStage::Haunter => hash40_of("ui_chara_haunter"@),
                EvolutionStage::Gengar => hash40_of("ui_chara_gengar"@),
            };
            &&& c == if current_ui == p { None } else { Some(p) }
        }),
{
}

} // verus!
