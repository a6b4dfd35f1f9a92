use vstd::prelude::*;
use crate::hashing::{hash40_of, hash40_str};

verus! {

/// Costume slots a character can have.
pub const COLOR_SLOTS: usize = 256;

/// The marked costume slots found when the mod files are mounted: the
/// lowest marked slot and how many marked slots follow from it without a gap.
#[derive(Debug, Clone, Copy, PartialEq, Eq, Structural)]
pub struct MarkedRange {
    pub lowest_color: i32,
    pub color_num: i32,
}

/// The slots from `lo` (inclusive) to `hi` (exclusive) are all marked.
pub open spec fn all_marked(m: Seq<bool>, lo: int, hi: int) -> bool {
    forall|i: int| lo <= i < hi ==> m[i]
}

/// The first marked slot of `marked`, searching from `from`.
fn first_marked(marked: &Vec<bool>, from: usize) -> (r: Option<usize>)
    requires
        from <= marked@.len(),
    ensures
        match r {
            Some(i) => from <= i < marked@.len() && marked@[i as int]
                && forall|j: int| from <= j < i ==> !marked@[j],
            None => forall|j: int| from <= j < marked@.len() ==> !marked@[j],
        },
{
    let mut i = from;
    while i < marked.len()
        invariant
            from <= i <= marked@.len(),
            forall|j: int| from <= j < i ==> !marked@[j],
        decreases marked@.len() - i,
    {
        if marked[i] {
            return Some(i);
        }
        i = i + 1;
    }
    None
}

/// The marker scan once the mod files are mounted: `marked[x]` says whether
/// slot `x` carries the evolution marker. Returns `None` when no slot does
/// (nothing is registered); otherwise the lowest marked slot and the number
/// of consecutive marked slots from it.
pub fn mods_mounted(marked: &Vec<bool>) -> (r: Option<MarkedRange>)
    requires
        marked@.len() <= COLOR_SLOTS,
    ensures
        match r {
            None => forall|i: int| 0 <= i < marked@.len() ==> !marked@[i],
            Some(mr) => {
                &&& 0 <= mr.lowest_color < marked@.len()
                &&& marked@[mr.lowest_color as int]
                &&& forall|j: int| 0 <= j < mr.lowest_color ==> !marked@[j]
                &&& mr.color_num >= 1
                &&& mr.lowest_color + mr.color_num <= marked@.len()
                &&& all_marked(marked@, mr.lowest_color as int, mr.lowest_color + mr.color_num)
                &&& (mr.lowest_color + mr.color_num == marked@.len()
                    || !marked@[mr.lowest_color + mr.color_num])
            },
        },
{
    let lowest = match first_marked(marked, 0) {
        Some(i) => i,
        None => { return None; },
    };
    let mut index = lowest;
    while index < marked.len() && marked[index]
        invariant
            lowest <= index <= marked@.len(),
            all_marked(marked@, lowest as int, index as int),
        decreases marked@.len() - index,
    {
        index = index + 1;
    }
    Some(MarkedRange { lowest_color: lowest as i32, color_num: (index - lowest) as i32 })
}

/// Whether every required plugin is installed (`present[k]` for each).
pub fn check_deps(present: &Vec<bool>) -> (passed: bool)
    ensures
        passed == forall|k: int| 0 <= k < present@.len() ==> present@[k],
{
    let mut passed = true;
    let mut k: usize = 0;
    while k < present.len()
        invariant
            k <= present@.len(),
            passed == forall|j: int| 0 <= j < k ==> present@[j],
        decreases present@.len() - k,
    {
        if !present[k] {
            passed = false;
        }
        k = k + 1;
    }
    passed
}

/// The character interface entries allowed in online play, in registration
/// order: the three stage portraits and the two final forms, then the four
/// cut-in entries.
pub open spec fn online_ui_names() -> Seq<Seq<char>> {
    seq!["ui_chara_evolving"@, "ui_chara_haunter"@, "ui_chara_gengar"@, "ui_chara_mega_gengar"@,
        "ui_chara_giga_gengar"@, "ui_chara_haunter_00"@, "ui_chara_gengar_00"@, "ui_chara_mega_gengar_00"@,
        "ui_chara_giga_gengar_00"@]
}

/// The hashes of the interface entries allowed online (see `online_ui_names`).
pub fn online_ui_chara_hashes() -> (v: Vec<u64>)
    ensures
        v@.len() == online_ui_names().len(),
        forall|k: int| 0 <= k < v@.len() ==> v@[k] == hash40_of(#[trigger] online_ui_names()[k]),
{
    let mut v: Vec<u64> = Vec::new();
    v.push(hash40_str("ui_chara_evolving"));
    v.push(hash40_str("ui_chara_haunter"));
    v.push(hash40_str("ui_chara_gengar"));
    v.push(hash40_str("ui_chara_mega_gengar"));
    v.push(hash40_str("ui_chara_giga_gengar"));
    v.push(hash40_str("ui_chara_haunter_00"));
    v.push(hash40_str("ui_chara_gengar_00"));
    v.push(hash40_str("ui_chara_mega_gengar_00"));
    v.push(hash40_str("ui_chara_giga_gengar_00"));
    proof {
        assert(v@ =~= online_ui_names().map_values(|n: Seq<char>| hash40_of(n)));
    }
    v
}

} // verus!
