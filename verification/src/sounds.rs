use vstd::prelude::*;
use crate::stage::EvolutionStage;
use crate::icons::Icon;

verus! {

/// The attack voice of a stage for the roll `roll` (1 to 4) of the game's
/// random source; a fighter whose state is unknown speaks as Gastly.
pub open spec fn attack_voice(stage: Option<EvolutionStage>, roll: i32) -> Seq<char> {
    match stage {
        Some(EvolutionStage::Haunter) => {
            if roll == 2 { "hau_attack02_07"@ } else if roll == 3 { "hau_attack03"@ } else if roll == 4 { "hau_attack06"@ } else { "hau_attack01"@ }
        },
        Some(EvolutionStage::Gengar) => {
            if roll == 2 { "gen_attack02_07"@ } else if roll == 3 { "gen_attack03"@ } else if roll == 4 { "gen_attack06"@ } else { "gen_attack01"@ }
        },
        Some(EvolutionStage::Gastly) => {
            if roll == 2 { "gas_attack02_07"@ } else if roll == 3 { "gas_attack03"@ } else if roll == 4 { "gas_attack06"@ } else { "gas_attack01"@ }
        },
        None => "gas_attack01"@,
    }
}

/// The attack voice for a fighter whose state (if found) has stage `stage`;
/// `roll` is the game's random draw from 1 to 4.
pub fn get_attack_voice_correct(stage: Option<EvolutionStage>, roll: i32) -> (r: &'static str)
    ensures
        r@ == attack_voice(stage, roll),
{
    match stage {
        Some(EvolutionStage::Haunter) => {
            if roll == 2 { "hau_attack02_07" } else if roll == 3 { "hau_attack03" } else if roll == 4 { "hau_attack06" } else { "hau_attack01" }
        },
        Some(EvolutionStage::Gengar) => {
            if roll == 2 { "gen_attack02_07" } else if roll == 3 { "gen_attack03" } else if roll == 4 { "gen_attack06" } else { "gen_attack01" }
        },
        Some(EvolutionStage::Gastly) => {
            if roll == 2 { "gas_attack02_07" } else if roll == 3 { "gas_attack03" } else if roll == 4 { "gas_attack06" } else { "gas_attack01" }
        },
        None => "gas_attack01",
    }
}

/// Gastly and Haunter float: they land with their own sound; Gengar keeps
/// `fallback`; an unknown fighter counts as Gastly.
pub fn get_landing_sound(stage: Option<EvolutionStage>, fallback: &'static str) -> (r: &'static str)
    ensures
        r@ == match stage {
            Some(EvolutionStage::Gengar) => fallback@,
            _ => "gas_hau_landing"@,
        },
{
    match stage {
        Some(EvolutionStage::Gengar) => fallback,
        _ => "gas_hau_landing",
    }
}

/// Gastly and Haunter float: their steps are silent; an unknown fighter
/// counts as Gastly.
pub fn should_mute_steps(stage: Option<EvolutionStage>) -> (r: bool)
    ensures
        r == (stage != Some(EvolutionStage::Gengar)),
{
    match stage {
        Some(EvolutionStage::Gengar) => false,
        _ => true,
    }
}

/// The sound of the first or second evolution condition met.
pub fn play_condition_sound(condition_number: i32) -> (r: Option<&'static str>)
    ensures
        condition_number == 1 ==> r is Some && r->0@ == "evolve_condition_1"@,
        condition_number == 2 ==> r is Some && r->0@ == "evolve_condition_2"@,
        condition_number != 1 && condition_number != 2 ==> r is None,
{
    if condition_number == 1 {
        Some("evolve_condition_1")
    } else if condition_number == 2 {
        Some("evolve_condition_2")
    } else {
        None
    }
}

/// A number from `min` to `max` (inclusive) for the game's random draw
/// `draw`, which the game takes uniformly below `max - min + 1`; `min` when
/// the range is empty.
pub fn rand_range_i32(min: i32, max: i32, draw: i32) -> (r: i32)
    requires
        min < max ==> 0 <= draw < max - min + 1,
    ensures
        min >= max ==> r == min,
        min < max ==> r == min + draw && min <= r <= max,
{
    if min >= max {
        return min;
    }
    min + draw
}

/// The size of the range a draw for `rand_range_i32(min, max)` is taken
/// from (the draw is taken from zero up to this size, exclusive); none when
/// the range is empty.
pub fn rand_range_size(min: i32, max: i32) -> (r: Option<i32>)
    requires
        max as int - min as int + 1 <= i32::MAX,
    ensures
        min >= max ==> r is None,
        min < max ==> r == Some((max - min + 1) as i32),
{
    if min >= max { None } else { Some(max - min + 1) }
}

/// The one-shot cue sounds of the evolution system.
#[derive(Debug, Clone, Copy, PartialEq, Eq, Structural)]
pub enum CueSound {
    EvolveSe,
    EvolveSs,
    Everstone,
    EverstoneX,
    LinkingCord,
    Dynamax,
    Gengarite,
    CancelEvolve,
}

/// The sound name and volume (hundredths) of a cue.
pub open spec fn cue(c: CueSound) -> (Seq<char>, u32) {
    match c {
        CueSound::EvolveSe => ("evolve_se"@, 140u32),
        CueSound::EvolveSs => ("evolve_ss"@, 100u32),
        CueSound::Everstone => ("everstone"@, 130u32),
        CueSound::EverstoneX => ("everstone_x"@, 180u32),
        CueSound::LinkingCord => ("linking_cord"@, 150u32),
        CueSound::Dynamax => ("dynamax"@, 130u32),
        CueSound::Gengarite => ("gengarite"@, 170u32),
        CueSound::CancelEvolve => ("cancel_evolve"@, 100u32),
    }
}

/// The sound name and volume (hundredths) to play for a cue.
pub fn cue_sound(c: CueSound) -> (r: (&'static str, u32))
    ensures
        (r.0@, r.1) == cue(c),
{
    match c {
        CueSound::EvolveSe => ("evolve_se", 140),
        CueSound::EvolveSs => ("evolve_ss", 100),
        CueSound::Everstone => ("everstone", 130),
        CueSound::EverstoneX => ("everstone_x", 180),
        CueSound::LinkingCord => ("linking_cord", 150),
        CueSound::Dynamax => ("dynamax", 130),
        CueSound::Gengarite => ("gengarite", 170),
        CueSound::CancelEvolve => ("cancel_evolve", 100),
    }
}

/// The cue of an item icon raised by a button.
pub fn icon_cue(i: Icon) -> (c: CueSound)
    ensures
        c == match i {
            Icon::LinkingCord => CueSound::LinkingCord,
            Icon::Everstone => CueSound::Everstone,
            Icon::EverstoneX => CueSound::EverstoneX,
            Icon::Gengarite => CueSound::Gengarite,
            Icon::Dynamax => CueSound::Dynamax,
        },
{
    match i {
        Icon::LinkingCord => CueSound::LinkingCord,
        Icon::Everstone => CueSound::Everstone,
        Icon::EverstoneX => CueSound::EverstoneX,
        Icon::Gengarite => CueSound::Gengarite,
        Icon::Dynamax => CueSound::Dynamax,
    }
}

/// The walking and running sounds that linger outside the walk and run
/// statuses (`walk` and `run` are the game's codes of those statuses), to be
/// stopped; none while walking or running.
pub fn lingering_step_sounds(status: i32, walk: i32, run: i32) -> (names: Vec<&'static str>)
    ensures
        names@ == if status == walk || status == run {
            Seq::<&'static str>::empty()
        } else {
            seq!["g_walkslow", "g_walkmiddle", "g_walkfast", "g_run", "se_purin_step_right_s",
                "se_purin_step_left_s", "se_purin_step_right_m", "se_purin_step_left_m"]
        },
{
    let mut names: Vec<&'static str> = Vec::new();
    if status == walk || status == run {
        return names;
    }
    names.push("g_walkslow");
    names.push("g_walkmiddle");
    names.push("g_walkfast");
    names.push("g_run");
    names.push("se_purin_step_right_s");
    names.push("se_purin_step_left_s");
    names.push("se_purin_step_right_m");
    names.push("se_purin_step_left_m");
    proof {
        assert(names@ =~= seq!["g_walkslow", "g_walkmiddle", "g_walkfast", "g_run", "se_purin_step_right_s",
            "se_purin_step_left_s", "se_purin_step_right_m", "se_purin_step_left_m"]);
    }
    names
}

/// The first four characters of a stage's voice lines.
pub open spec fn voice_prefix(stage: EvolutionStage) -> Seq<char> {
    match stage {
        EvolutionStage::Gastly => "gas_"@,
        EvolutionStage::Haunter => "hau_"@,
        EvolutionStage::Gengar => "gen_"@,
    }
}

/// Law: whatever the roll, a known stage attacks with one of its own voice
/// lines (they begin with its prefix), and the rolls 1 to 4 pick four
/// different lines.
pub proof fn lemma_attack_voice_of_own_stage(stage: EvolutionStage, roll: i32)
    ensures
        attack_voice(Some(stage), roll).len() >= 4,
        attack_voice(Some(stage), roll).subrange(0, 4) == voice_prefix(stage),
        attack_voice(Some(stage), 1) != attack_voice(Some(stage), 2),
        attack_voice(Some(stage), 1) != attack_voice(Some(stage), 3),
        attack_voice(Some(stage), 1) != attack_voice(Some(stage), 4),
        attack_voice(Some(stage), 2) != attack_voice(Some(stage), 3),
        attack_voice(Some(stage), 2) != attack_voice(Some(stage), 4),
        attack_voice(Some(stage), 3) != attack_voice(Some(stage), 4),
{
    reveal_strlit("gas_");
    reveal_strlit("hau_");
    reveal_strlit("gen_");
    reveal_strlit("gas_attack01");
    reveal_strlit("gas_attack02_07");
    reveal_strlit("gas_attack03");
    reveal_strlit("gas_attack06");
    reveal_strlit("hau_attack01");
    reveal_strlit("hau_attack02_07");
    reveal_strlit("hau_attack03");
    reveal_strlit("hau_attack06");
    reveal_strlit("gen_attack01");
    reveal_strlit("gen_attack02_07");
    reveal_strlit("gen_attack03");
    reveal_strlit("gen_attack06");
    let v = attack_voice(Some(stage), roll);
    assert(v.subrange(0, 4) =~= voice_prefix(stage));
    let a = attack_voice(Some(stage), 1);
    let b = attack_voice(Some(stage), 2);
    let c = attack_voice(Some(stage), 3);
    let d = attack_voice(Some(stage), 4);
    assert(a.len() != b.len());
    assert(a[11] != c[11]);
    assert(a[11] != d[11]);
    assert(b.len() != c.len());
    assert(b.len() != d.len());
    assert(c[11] != d[11]);
}

} // verus!
