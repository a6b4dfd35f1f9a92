use vstd::prelude::*;
use crate::stage::{
    EvolutionStage, DOUBLE_PRESS_WINDOW, LINKING_CORD_VISUAL_ICON_DURATION, EVERSTONE_ICON_DURATION,
    EVERSTONE_X_ICON_DURATION, FS_MODE_ICON_DURATION,
};
use crate::state::{PlayerEvolutionState, ItemIcons, ItemState, InputTracking};
use crate::icons::{
    Icon, exclusive_icons, readiness_timers_cleared, with_flag, others_down, lc_attempt_up,
    enforce_icon_exclusivity, activate_pos_sensitive_icon, deactivate_all_pos_sensitive_icons,
    update_is_any_pos_sensitive_icon_active_flag,
};

verus! {

/// Position-sensitive icons vanish once the fighter has moved more than this
/// (0.01 units, in thousandths of a unit).
pub const ICON_MOVE_TOLERANCE: i32 = 10;

/// The buttons the item toggles listen to (at most one per frame, taken in
/// this order of precedence).
#[derive(Debug, Clone, Copy, PartialEq, Eq, Structural)]
pub enum ToggleButton {
    AppealSideL,
    AppealSideR,
    AppealHi,
    Special,
}

/// What the fighter is doing this frame, as far as the item toggles care.
#[derive(Debug, Clone, Copy, PartialEq, Eq, Structural)]
pub struct ToggleInput {
    pub button: Option<ToggleButton>,
    pub is_guard_status: bool,
    pub on_ground: bool,
    pub in_damage_status: bool,
    /// Position in thousandths of a unit.
    pub pos_x: i32,
    pub pos_y: i32,
}

/// What the caller does after one frame of the item toggles: flash the eyes
/// and play the icon's sound for each cue (the consumed-everstone cue first),
/// then show or hide the five item icons.
#[derive(Debug, Clone, Copy, PartialEq, Eq, Structural)]
pub struct ToggleFrame {
    /// The linking cord consumed the everstone: cue the everstone X icon.
    pub consumed_everstone_cue: bool,
    /// An icon raised by a button this frame.
    pub cue: Option<Icon>,
    pub linking_cord_visible: bool,
    pub everstone_visible: bool,
    pub everstone_x_visible: bool,
    pub gengarite_visible: bool,
    pub dynamax_visible: bool,
}

/// The new count of a double press whose previous press came at `last`.
pub open spec fn press_count(count: u8, last: i32, frame: i32) -> u8 {
    if frame - last <= DOUBLE_PRESS_WINDOW { (count + 1) as u8 } else { 1u8 }
}

/// `s` with icon `i` raised at (`x`, `y`): the others taken down, its flag
/// and timer set, its position remembered.
pub open spec fn raised(s: PlayerEvolutionState, i: Icon, x: i32, y: i32) -> PlayerEvolutionState {
    let ic = exclusive_icons(s.icons, Some(i));
    let ic2 = match i {
        Icon::LinkingCord => ItemIcons { linking_cord_visual_icon_active: true, linking_cord_visual_icon_timer: LINKING_CORD_VISUAL_ICON_DURATION, ..ic },
        Icon::Everstone => ItemIcons { everstone_icon_active: true, everstone_icon_timer: EVERSTONE_ICON_DURATION, ..ic },
        Icon::EverstoneX => ItemIcons { everstone_x_icon_active: true, everstone_x_icon_timer: EVERSTONE_X_ICON_DURATION, ..ic },
        Icon::Gengarite => ItemIcons { gengarite_icon_display_active: true, gengarite_icon_display_timer: FS_MODE_ICON_DURATION, ..ic },
        Icon::Dynamax => ItemIcons { dynamax_icon_display_active: true, dynamax_icon_display_timer: FS_MODE_ICON_DURATION, ..ic },
    };
    PlayerEvolutionState {
        icons: with_flag(ItemIcons { icon_start_pos_x: x, icon_start_pos_y: y, ..ic2 }),
        readiness: if i == Icon::Everstone || i == Icon::EverstoneX { readiness_timers_cleared(s.readiness) } else { s.readiness },
        ..s
    }
}

/// `s` with the everstone X icon raised in place of the everstone icon.
pub open spec fn raised_x(s: PlayerEvolutionState, x: i32, y: i32) -> PlayerEvolutionState {
    let r = raised(s, Icon::EverstoneX, x, y);
    PlayerEvolutionState {
        icons: ItemIcons { everstone_icon_active: false, everstone_icon_timer: 0, ..r.icons },
        ..r
    }
}

/// Step 1: moving away (more than 0.01 units) or taking damage takes every
/// position-sensitive icon down.
#[verifier::opaque]
pub open spec fn moved_check(s: PlayerEvolutionState, inp: ToggleInput) -> PlayerEvolutionState {
    let moved = inp.pos_x - s.icons.icon_start_pos_x > ICON_MOVE_TOLERANCE
        || s.icons.icon_start_pos_x - inp.pos_x > ICON_MOVE_TOLERANCE
        || inp.pos_y - s.icons.icon_start_pos_y > ICON_MOVE_TOLERANCE
        || s.icons.icon_start_pos_y - inp.pos_y > ICON_MOVE_TOLERANCE;
    if s.icons.is_any_pos_sensitive_icon_active && (inp.in_damage_status || moved) {
        PlayerEvolutionState { icons: with_flag(others_down(s.icons, None)), ..s }
    } else {
        s
    }
}

/// Step 2: an everstone consumed by the linking cord shows the everstone X icon.
#[verifier::opaque]
pub open spec fn consumed_check(s: PlayerEvolutionState, inp: ToggleInput) -> (PlayerEvolutionState, bool) {
    if s.inputs.linking_cord_consumed_everstone_this_frame {
        (raised_x(s, inp.pos_x, inp.pos_y), true)
    } else {
        (s, false)
    }
}

/// Step 3: a Haunter guarding on the ground that presses up taunt twice
/// within 30 frames asks for the linking cord (the first press shows its icon).
#[verifier::opaque]
pub open spec fn linking_cord_check(s: PlayerEvolutionState, inp: ToggleInput) -> (PlayerEvolutionState, Option<Icon>) {
    if inp.is_guard_status && inp.on_ground && s.stage == EvolutionStage::Haunter
        && !s.evolution.is_evolving && !s.evolution.linking_cord_active
        && inp.button == Some(ToggleButton::AppealHi) {
        let c = press_count(s.inputs.up_taunt_press_count_linking_cord, s.inputs.last_up_taunt_input_frame_linking_cord, s.current_frame);
        let s1 = PlayerEvolutionState {
            inputs: InputTracking {
                up_taunt_press_count_linking_cord: c,
                last_up_taunt_input_frame_linking_cord: s.current_frame,
                ..s.inputs
            },
            ..s
        };
        if c >= 2 {
            let s2 = PlayerEvolutionState {
                inputs: InputTracking { manual_linking_cord_evo_attempted_this_frame: true, up_taunt_press_count_linking_cord: 0, ..s1.inputs },
                ..s1
            };
            if s2.icons.linking_cord_visual_icon_active {
                (PlayerEvolutionState {
                    icons: with_flag(ItemIcons { linking_cord_visual_icon_active: false, linking_cord_visual_icon_timer: 0, ..s2.icons }),
                    ..s2
                }, None)
            } else {
                (s2, None)
            }
        } else if c == 1 && !s1.icons.linking_cord_visual_icon_active && !lc_attempt_up(s1.icons) {
            (raised(s1, Icon::LinkingCord, inp.pos_x, inp.pos_y), Some(Icon::LinkingCord))
        } else {
            (s1, None)
        }
    } else {
        (s, None)
    }
}

/// Step 4: a lone up taunt expires after 30 frames, taking its icon down.
#[verifier::opaque]
pub open spec fn linking_cord_expiry(s: PlayerEvolutionState) -> PlayerEvolutionState {
    if s.inputs.up_taunt_press_count_linking_cord == 1
        && s.current_frame - s.inputs.last_up_taunt_input_frame_linking_cord > DOUBLE_PRESS_WINDOW {
        let s1 = PlayerEvolutionState {
            inputs: InputTracking { up_taunt_press_count_linking_cord: 0, ..s.inputs },
            ..s
        };
        if s1.icons.linking_cord_visual_icon_active {
            PlayerEvolutionState {
                icons: with_flag(ItemIcons { linking_cord_visual_icon_active: false, linking_cord_visual_icon_timer: 0, ..s1.icons }),
                ..s1
            }
        } else {
            s1
        }
    } else {
        s
    }
}

/// Step 5: a Gastly or Haunter guarding on the ground that presses special
/// twice within 30 frames toggles the everstone (showing the everstone or
/// everstone X icon); during an evolution one press shows the everstone X icon.
#[verifier::opaque]
pub open spec fn everstone_check(s: PlayerEvolutionState, inp: ToggleInput) -> (PlayerEvolutionState, Option<Icon>) {
    if inp.is_guard_status && inp.on_ground
        && (s.stage == EvolutionStage::Gastly || s.stage == EvolutionStage::Haunter)
        && inp.button == Some(ToggleButton::Special) {
        if s.evolution.is_evolving || s.evolution.linking_cord_active {
            if !s.icons.everstone_x_icon_active {
                (raised(s, Icon::EverstoneX, inp.pos_x, inp.pos_y), Some(Icon::EverstoneX))
            } else {
                (s, None)
            }
        } else {
            let c = press_count(s.inputs.special_press_count_everstone, s.inputs.last_special_press_frame_everstone, s.current_frame);
            let s1 = PlayerEvolutionState {
                inputs: InputTracking { special_press_count_everstone: c, last_special_press_frame_everstone: s.current_frame, ..s.inputs },
                ..s
            };
            if c >= 2 {
                let on = !s1.items.everstone_effect_active;
                let s2 = PlayerEvolutionState {
                    items: ItemState { everstone_effect_active: on, ..s1.items },
                    inputs: InputTracking { special_press_count_everstone: 0, ..s1.inputs },
                    ..s1
                };
                if on {
                    (raised(s2, Icon::Everstone, inp.pos_x, inp.pos_y), Some(Icon::Everstone))
                } else {
                    (raised_x(s2, inp.pos_x, inp.pos_y), Some(Icon::EverstoneX))
                }
            } else {
                (s1, None)
            }
        }
    } else {
        (s, None)
    }
}

/// Step 6: a lone special press expires after 30 frames.
#[verifier::opaque]
pub open spec fn everstone_expiry(s: PlayerEvolutionState) -> PlayerEvolutionState {
    if s.inputs.special_press_count_everstone == 1
        && s.current_frame - s.inputs.last_special_press_frame_everstone > DOUBLE_PRESS_WINDOW {
        PlayerEvolutionState { inputs: InputTracking { special_press_count_everstone: 0, ..s.inputs }, ..s }
    } else {
        s
    }
}

/// The side taunt presses counted with a press on the left (`left`) or
/// right side: a press on the other side than the pending ones starts the
/// count over.
pub open spec fn side_press_count(s: PlayerEvolutionState, left: bool) -> u8 {
    let prev: u8 = if s.inputs.s_taunt_pending_left == left { s.inputs.s_taunt_r_press_count_dynamax } else { 0u8 };
    press_count(prev, s.inputs.last_s_taunt_r_input_frame_dynamax, s.current_frame)
}

/// Step 7: a Gengar guarding on the ground that presses side taunt twice on
/// the same side within 30 frames picks its final smash form: left twice for
/// the Mega form (gengarite), right twice for the Gigantamax form (dynamax);
/// a press on the other side counts as a first press.
#[verifier::opaque]
pub open spec fn form_check(s: PlayerEvolutionState, inp: ToggleInput) -> (PlayerEvolutionState, Option<Icon>) {
    if s.stage == EvolutionStage::Gengar && inp.on_ground && inp.is_guard_status
        && (inp.button == Some(ToggleButton::AppealSideL) || inp.button == Some(ToggleButton::AppealSideR)) {
        let mega = inp.button == Some(ToggleButton::AppealSideL);
        let c = side_press_count(s, mega);
        let s1 = PlayerEvolutionState {
            inputs: InputTracking {
                s_taunt_r_press_count_dynamax: c,
                last_s_taunt_r_input_frame_dynamax: s.current_frame,
                s_taunt_pending_left: mega,
                ..s.inputs
            },
            ..s
        };
        if c >= 2 {
            let i = if mega { Icon::Gengarite } else { Icon::Dynamax };
            let s2 = raised(s1, i, inp.pos_x, inp.pos_y);
            (PlayerEvolutionState {
                items: ItemState { mega_gengar_form_active: mega, giga_gengar_form_active: !mega, ..s2.items },
                inputs: InputTracking { s_taunt_r_press_count_dynamax: 0, ..s2.inputs },
                ..s2
            }, Some(i))
        } else {
            (s1, None)
        }
    } else {
        (s, None)
    }
}

/// Step 8: a lone side taunt expires after 30 frames.
#[verifier::opaque]
pub open spec fn form_expiry(s: PlayerEvolutionState) -> PlayerEvolutionState {
    if s.inputs.s_taunt_r_press_count_dynamax == 1
        && s.current_frame - s.inputs.last_s_taunt_r_input_frame_dynamax > DOUBLE_PRESS_WINDOW {
        PlayerEvolutionState { inputs: InputTracking { s_taunt_r_press_count_dynamax: 0, ..s.inputs }, ..s }
    } else {
        s
    }
}

/// One icon's countdown: an active icon with time left counts down and goes
/// away at zero (returns the new flag and timer).
pub open spec fn countdown(active: bool, timer: i32) -> (bool, i32) {
    if active && timer > 0 {
        let n = (timer - 1) as i32;
        (n != 0, n)
    } else {
        (active, timer)
    }
}

/// Step 10: every item icon counts down; the linking cord evolution icon
/// counts down whether or not it is position-sensitive.
#[verifier::opaque]
pub open spec fn icons_ticked(ic: ItemIcons) -> ItemIcons {
    let (lcv, lcv_t) = countdown(ic.linking_cord_visual_icon_active, ic.linking_cord_visual_icon_timer);
    let (lca_ps, lca_t) = if ic.linking_cord_evo_attempt_icon_timer > 0 {
        let n = (ic.linking_cord_evo_attempt_icon_timer - 1) as i32;
        (ic.linking_cord_evo_attempt_icon_is_pos_sensitive && n != 0, n)
    } else {
        (ic.linking_cord_evo_attempt_icon_is_pos_sensitive, ic.linking_cord_evo_attempt_icon_timer)
    };
    let (ev, ev_t) = countdown(ic.everstone_icon_active, ic.everstone_icon_timer);
    let (evx, evx_t) = countdown(ic.everstone_x_icon_active, ic.everstone_x_icon_timer);
    let (gen, gen_t) = countdown(ic.gengarite_icon_display_active, ic.gengarite_icon_display_timer);
    let (dyn_, dyn_t) = countdown(ic.dynamax_icon_display_active, ic.dynamax_icon_display_timer);
    let ic2 = ItemIcons {
        linking_cord_visual_icon_active: lcv,
        linking_cord_visual_icon_timer: lcv_t,
        linking_cord_evo_attempt_icon_is_pos_sensitive: lca_ps,
        linking_cord_evo_attempt_icon_timer: lca_t,
        everstone_icon_active: ev,
        everstone_icon_timer: ev_t,
        everstone_x_icon_active: evx,
        everstone_x_icon_timer: evx_t,
        gengarite_icon_display_active: gen,
        gengarite_icon_display_timer: gen_t,
        dynamax_icon_display_active: dyn_,
        dynamax_icon_display_timer: dyn_t,
        ..ic
    };
    let expired = (ic.linking_cord_visual_icon_active && ic.linking_cord_visual_icon_timer == 1)
        || (ic.linking_cord_evo_attempt_icon_is_pos_sensitive && ic.linking_cord_evo_attempt_icon_timer == 1)
        || (ic.everstone_icon_active && ic.everstone_icon_timer == 1)
        || (ic.everstone_x_icon_active && ic.everstone_x_icon_timer == 1)
        || (ic.gengarite_icon_display_active && ic.gengarite_icon_display_timer == 1)
        || (ic.dynamax_icon_display_active && ic.dynamax_icon_display_timer == 1);
    if expired { with_flag(ic2) } else { ic2 }
}

/// Steps 1 to 4: movement, the consumed everstone, and the linking cord;
/// with the consumed-everstone cue and the linking cord cue.
#[verifier::opaque]
pub open spec fn linking_cord_phase(s: PlayerEvolutionState, inp: ToggleInput) -> (PlayerEvolutionState, bool, Option<Icon>) {
    let s1 = moved_check(s, inp);
    let (s2, consumed) = consumed_check(s1, inp);
    let (s3, c3) = linking_cord_check(s2, inp);
    (linking_cord_expiry(s3), consumed, c3)
}

/// Steps 5 to 8: the everstone and the final smash form, with their cue.
#[verifier::opaque]
pub open spec fn item_phase(s: PlayerEvolutionState, inp: ToggleInput) -> (PlayerEvolutionState, Option<Icon>) {
    let (s5, c5) = everstone_check(s, inp);
    let s6 = everstone_expiry(s5);
    let (s7, c7) = form_check(s6, inp);
    (form_expiry(s7), if c5 is Some { c5 } else { c7 })
}

/// A gengarite sequence is pending and its last input is more than 30
/// frames old.
pub open spec fn gengarite_sequence_expires(s: PlayerEvolutionState) -> bool {
    s.inputs.gengarite_input_sequence@.len() > 0
        && s.current_frame - s.inputs.last_gengarite_input_frame > DOUBLE_PRESS_WINDOW
}

/// Step 9: a gengarite sequence expires 30 frames after its last input (the
/// emptied buffer taken from `b`).
pub open spec fn sequence_expired(s: PlayerEvolutionState, b: PlayerEvolutionState) -> PlayerEvolutionState {
    if gengarite_sequence_expires(s) {
        PlayerEvolutionState {
            inputs: InputTracking { gengarite_input_sequence: b.inputs.gengarite_input_sequence, ..s.inputs },
            ..s
        }
    } else {
        s
    }
}

/// The state and actions after one frame of the item toggles (the gengarite
/// buffer, when cleared, taken from `b`).
pub open spec fn toggle_step(s: PlayerEvolutionState, inp: ToggleInput, b: PlayerEvolutionState)
    -> (PlayerEvolutionState, ToggleFrame)
{
    let (s4, consumed, c3) = linking_cord_phase(s, inp);
    let (s8, c8) = item_phase(s4, inp);
    let s9 = sequence_expired(s8, b);
    let ic = icons_ticked(s9.icons);
    (PlayerEvolutionState { icons: ic, ..s9 }, ToggleFrame {
        consumed_everstone_cue: consumed,
        cue: if c3 is Some { c3 } else { c8 },
        linking_cord_visible: ic.linking_cord_visual_icon_active || ic.linking_cord_evo_attempt_icon_timer > 0,
        everstone_visible: ic.everstone_icon_active && s9.items.everstone_effect_active,
        everstone_x_visible: ic.everstone_x_icon_active,
        gengarite_visible: ic.gengarite_icon_display_active,
        dynamax_visible: ic.dynamax_icon_display_active,
    })
}


/// At most one item icon is up (the linking cord counting both of its forms).
pub open spec fn one_icon_at_most(ic: ItemIcons) -> bool {
    let lc = ic.linking_cord_visual_icon_active || lc_attempt_up(ic);
    let ev = ic.everstone_icon_active;
    let evx = ic.everstone_x_icon_active;
    let gen = ic.gengarite_icon_display_active;
    let dyn_ = ic.dynamax_icon_display_active;
    &&& !(lc && ev) &&& !(lc && evx) &&& !(lc && gen) &&& !(lc && dyn_)
    &&& !(ev && evx) &&& !(ev && gen) &&& !(ev && dyn_)
    &&& !(evx && gen) &&& !(evx && dyn_)
    &&& !(gen && dyn_)
}

/// The double-press counters are idle or one press in.
pub open spec fn presses_pending_at_most_one(inp: InputTracking) -> bool {
    inp.up_taunt_press_count_linking_cord <= 1 && inp.special_press_count_everstone <= 1
        && inp.s_taunt_r_press_count_dynamax <= 1
}

/// Both parts of the law hold of `s`.
pub open spec fn toggles_tidy(s: PlayerEvolutionState) -> bool {
    one_icon_at_most(s.icons) && presses_pending_at_most_one(s.inputs)
}

proof fn lemma_raised_tidy(s: PlayerEvolutionState, i: Icon, x: i32, y: i32)
    ensures
        one_icon_at_most(raised(s, i, x, y).icons),
        one_icon_at_most(raised_x(s, x, y).icons),
        raised(s, i, x, y).inputs == s.inputs,
        raised_x(s, x, y).inputs == s.inputs,
{
}

proof fn lemma_linking_cord_phase_tidy(s: PlayerEvolutionState, inp: ToggleInput)
    requires
        toggles_tidy(s),
    ensures
        toggles_tidy(linking_cord_phase(s, inp).0),
{
    reveal(linking_cord_phase);
    reveal(moved_check);
    reveal(consumed_check);
    reveal(linking_cord_check);
    reveal(linking_cord_expiry);
    let s1 = moved_check(s, inp);
    lemma_raised_tidy(s1, Icon::EverstoneX, inp.pos_x, inp.pos_y);
    let s2 = consumed_check(s1, inp).0;
    lemma_raised_tidy(s2, Icon::LinkingCord, inp.pos_x, inp.pos_y);
}

proof fn lemma_item_phase_tidy(s: PlayerEvolutionState, inp: ToggleInput)
    requires
        toggles_tidy(s),
    ensures
        toggles_tidy(item_phase(s, inp).0),
{
    reveal(item_phase);
    reveal(everstone_check);
    reveal(everstone_expiry);
    reveal(form_check);
    reveal(form_expiry);
    lemma_raised_tidy(s, Icon::EverstoneX, inp.pos_x, inp.pos_y);
    let c = press_count(s.inputs.special_press_count_everstone, s.inputs.last_special_press_frame_everstone, s.current_frame);
    let s1 = PlayerEvolutionState {
        inputs: InputTracking { special_press_count_everstone: c, last_special_press_frame_everstone: s.current_frame, ..s.inputs },
        ..s
    };
    let s2 = PlayerEvolutionState {
        items: ItemState { everstone_effect_active: !s1.items.everstone_effect_active, ..s1.items },
        inputs: InputTracking { special_press_count_everstone: 0, ..s1.inputs },
        ..s1
    };
    lemma_raised_tidy(s2, Icon::Everstone, inp.pos_x, inp.pos_y);
    let s6 = everstone_expiry(everstone_check(s, inp).0);
    let c7 = press_count(s6.inputs.s_taunt_r_press_count_dynamax, s6.inputs.last_s_taunt_r_input_frame_dynamax, s6.current_frame);
    let s7 = PlayerEvolutionState {
        inputs: InputTracking { s_taunt_r_press_count_dynamax: c7, last_s_taunt_r_input_frame_dynamax: s6.current_frame, ..s6.inputs },
        ..s6
    };
    lemma_raised_tidy(s7, Icon::Gengarite, inp.pos_x, inp.pos_y);
    lemma_raised_tidy(s7, Icon::Dynamax, inp.pos_x, inp.pos_y);
}

proof fn lemma_icons_ticked_tidy(ic: ItemIcons)
    requires
        one_icon_at_most(ic),
    ensures
        one_icon_at_most(icons_ticked(ic)),
{
    reveal(icons_ticked);
}

/// Law: a Gengar guarding on the ground picks its final smash form only with
/// two side taunts on the same side within 30 frames (left, left: Mega;
/// right, right: Gigantamax); a press on the other side than the pending one
/// picks nothing and counts as a first press.
pub proof fn lemma_form_needs_same_side(s: PlayerEvolutionState, inp: ToggleInput)
    requires
        s.stage == EvolutionStage::Gengar,
        inp.on_ground,
        inp.is_guard_status,
        inp.button == Some(ToggleButton::AppealSideL) || inp.button == Some(ToggleButton::AppealSideR),
        s.inputs.s_taunt_r_press_count_dynamax < 255,
    ensures
        ({
            let left = inp.button == Some(ToggleButton::AppealSideL);
            let (s1, cue) = form_check(s, inp);
            &&& s.inputs.s_taunt_pending_left != left ==> {
                &&& cue is None
                &&& s1.inputs.s_taunt_r_press_count_dynamax == 1
                &&& s1.inputs.s_taunt_pending_left == left
                &&& s1.items == s.items
            }
            &&& (s.inputs.s_taunt_pending_left == left && s.inputs.s_taunt_r_press_count_dynamax == 1
                && s.current_frame - s.inputs.last_s_taunt_r_input_frame_dynamax <= DOUBLE_PRESS_WINDOW) ==> {
                &&& cue == Some(if left { Icon::Gengarite } else { Icon::Dynamax })
                &&& s1.items.mega_gengar_form_active == left
                &&& s1.items.giga_gengar_form_active == !left
                &&& s1.inputs.s_taunt_r_press_count_dynamax == 0
            }
        }),
{
    reveal(form_check);
}

/// Law: a Gastly or Haunter that is not evolving (and has no linking cord
/// running), guarding on the ground, toggles its everstone with a second
/// special press within 30 frames: switching it on cues the everstone icon,
/// switching it off the everstone X icon.
pub proof fn lemma_double_special_toggles_everstone(s: PlayerEvolutionState, inp: ToggleInput, b: PlayerEvolutionState)
    requires
        s.stage == EvolutionStage::Gastly || s.stage == EvolutionStage::Haunter,
        !s.evolution.is_evolving,
        !s.evolution.linking_cord_active,
        inp.is_guard_status,
        inp.on_ground,
        inp.button == Some(ToggleButton::Special),
        s.inputs.special_press_count_everstone == 1,
        s.current_frame - s.inputs.last_special_press_frame_everstone <= DOUBLE_PRESS_WINDOW,
    ensures
        ({
            let (s1, f) = toggle_step(s, inp, b);
            &&& s1.items.everstone_effect_active == !s.items.everstone_effect_active
            &&& f.cue == Some(if s.items.everstone_effect_active { Icon::EverstoneX } else { Icon::Everstone })
            &&& s1.inputs.special_press_count_everstone == 0
        }),
{
    reveal(linking_cord_phase);
    reveal(item_phase);
    reveal(moved_check);
    reveal(consumed_check);
    reveal(linking_cord_check);
    reveal(linking_cord_expiry);
    reveal(everstone_check);
    reveal(everstone_expiry);
    reveal(form_check);
    reveal(form_expiry);
}

/// Law: a Haunter that is not evolving (and has no linking cord running),
/// guarding on the ground, asks for the linking cord evolution with a second
/// up taunt within 30 frames.
pub proof fn lemma_double_up_taunt_asks_for_linking_cord(s: PlayerEvolutionState, inp: ToggleInput, b: PlayerEvolutionState)
    requires
        s.stage == EvolutionStage::Haunter,
        !s.evolution.is_evolving,
        !s.evolution.linking_cord_active,
        inp.is_guard_status,
        inp.on_ground,
        inp.button == Some(ToggleButton::AppealHi),
        s.inputs.up_taunt_press_count_linking_cord == 1,
        s.current_frame - s.inputs.last_up_taunt_input_frame_linking_cord <= DOUBLE_PRESS_WINDOW,
    ensures
        toggle_step(s, inp, b).0.inputs.manual_linking_cord_evo_attempted_this_frame,
        toggle_step(s, inp, b).0.inputs.up_taunt_press_count_linking_cord == 0,
{
    reveal(linking_cord_phase);
    reveal(item_phase);
    reveal(moved_check);
    reveal(consumed_check);
    reveal(linking_cord_check);
    reveal(linking_cord_expiry);
    reveal(everstone_check);
    reveal(everstone_expiry);
    reveal(form_check);
    reveal(form_expiry);
}

/// Law: a frame of the item toggles never leaves two item icons up, and
/// leaves every double-press counter idle or one press in.
pub proof fn lemma_toggles_keep_icons_exclusive(s: PlayerEvolutionState, inp: ToggleInput, b: PlayerEvolutionState)
    requires
        one_icon_at_most(s.icons),
        presses_pending_at_most_one(s.inputs),
    ensures
        one_icon_at_most(toggle_step(s, inp, b).0.icons),
        presses_pending_at_most_one(toggle_step(s, inp, b).0.inputs),
{
    lemma_linking_cord_phase_tidy(s, inp);
    let s4 = linking_cord_phase(s, inp).0;
    lemma_item_phase_tidy(s4, inp);
    let s8 = item_phase(s4, inp).0;
    lemma_icons_ticked_tidy(sequence_expired(s8, b).icons);
}

/// Counts a press of a double-press sequence whose previous press came at `last`.
fn count_press(count: u8, last: i32, frame: i32) -> (c: u8)
    requires
        count < 255,
    ensures
        c == press_count(count, last, frame),
{
    if frame as i64 - last as i64 <= DOUBLE_PRESS_WINDOW as i64 { count + 1 } else { 1 }
}

/// Raises icon `i` at (`x`, `y`) (see `raised`).
fn raise_icon(ps: &mut PlayerEvolutionState, i: Icon, x: i32, y: i32)
    ensures
        *final(ps) == raised(*old(ps), i, x, y),
{
    enforce_icon_exclusivity(ps, Some(i));
    match i {
        Icon::LinkingCord => {
            ps.icons.linking_cord_visual_icon_active = true;
            ps.icons.linking_cord_visual_icon_timer = LINKING_CORD_VISUAL_ICON_DURATION;
        },
        Icon::Everstone => {
            ps.icons.everstone_icon_active = true;
            ps.icons.everstone_icon_timer = EVERSTONE_ICON_DURATION;
        },
        Icon::EverstoneX => {
            ps.icons.everstone_x_icon_active = true;
            ps.icons.everstone_x_icon_timer = EVERSTONE_X_ICON_DURATION;
        },
        Icon::Gengarite => {
            ps.icons.gengarite_icon_display_active = true;
            ps.icons.gengarite_icon_display_timer = FS_MODE_ICON_DURATION;
        },
        Icon::Dynamax => {
            ps.icons.dynamax_icon_display_active = true;
            ps.icons.dynamax_icon_display_timer = FS_MODE_ICON_DURATION;
        },
    }
    activate_pos_sensitive_icon(ps, x, y);
}

/// Raises the everstone X icon in place of the everstone icon (see `raised_x`).
fn raise_everstone_x(ps: &mut PlayerEvolutionState, x: i32, y: i32)
    ensures
        *final(ps) == raised_x(*old(ps), x, y),
{
    raise_icon(ps, Icon::EverstoneX, x, y);
    ps.icons.everstone_icon_active = false;
    ps.icons.everstone_icon_timer = 0;
}

/// Applies `moved_check`.
fn apply_moved_check(ps: &mut PlayerEvolutionState, inp: ToggleInput)
    ensures
        *final(ps) == moved_check(*old(ps), inp),
        final(ps).inputs == old(ps).inputs,
{
    proof { reveal(moved_check); }
    let dx: i64 = inp.pos_x as i64 - ps.icons.icon_start_pos_x as i64;
    let dy: i64 = inp.pos_y as i64 - ps.icons.icon_start_pos_y as i64;
    let tol = ICON_MOVE_TOLERANCE as i64;
    let moved = dx > tol || -dx > tol || dy > tol || -dy > tol;
    if ps.icons.is_any_pos_sensitive_icon_active && (inp.in_damage_status || moved) {
        deactivate_all_pos_sensitive_icons(ps);
    }
}

/// Applies `consumed_check`; returns whether the everstone X icon was cued.
fn apply_consumed_check(ps: &mut PlayerEvolutionState, inp: ToggleInput) -> (cue: bool)
    ensures
        (*final(ps), cue) == consumed_check(*old(ps), inp),
        final(ps).inputs == old(ps).inputs,
{
    proof { reveal(consumed_check); }
    if ps.inputs.linking_cord_consumed_everstone_this_frame {
        raise_everstone_x(ps, inp.pos_x, inp.pos_y);
        true
    } else {
        false
    }
}

/// Applies `linking_cord_check`.
fn apply_linking_cord_check(ps: &mut PlayerEvolutionState, inp: ToggleInput) -> (cue: Option<Icon>)
    requires
        old(ps).inputs.up_taunt_press_count_linking_cord < 255,
    ensures
        (*final(ps), cue) == linking_cord_check(*old(ps), inp),
        final(ps).inputs.gengarite_input_sequence@ == old(ps).inputs.gengarite_input_sequence@,
        final(ps).inputs.special_press_count_everstone == old(ps).inputs.special_press_count_everstone,
        final(ps).inputs.s_taunt_r_press_count_dynamax == old(ps).inputs.s_taunt_r_press_count_dynamax,
{
    proof { reveal(linking_cord_check); }
    if inp.is_guard_status && inp.on_ground && ps.stage == EvolutionStage::Haunter
        && !ps.evolution.is_evolving && !ps.evolution.linking_cord_active
        && inp.button == Some(ToggleButton::AppealHi) {
        let c = count_press(ps.inputs.up_taunt_press_count_linking_cord, ps.inputs.last_up_taunt_input_frame_linking_cord, ps.current_frame);
        ps.inputs.up_taunt_press_count_linking_cord = c;
        ps.inputs.last_up_taunt_input_frame_linking_cord = ps.current_frame;
        if c >= 2 {
            ps.inputs.manual_linking_cord_evo_attempted_this_frame = true;
            ps.inputs.up_taunt_press_count_linking_cord = 0;
            if ps.icons.linking_cord_visual_icon_active {
                ps.icons.linking_cord_visual_icon_active = false;
                ps.icons.linking_cord_visual_icon_timer = 0;
                update_is_any_pos_sensitive_icon_active_flag(ps);
            }
            None
        } else if c == 1 && !ps.icons.linking_cord_visual_icon_active
            && !(ps.icons.linking_cord_evo_attempt_icon_is_pos_sensitive && ps.icons.linking_cord_evo_attempt_icon_timer > 0) {
            raise_icon(ps, Icon::LinkingCord, inp.pos_x, inp.pos_y);
            Some(Icon::LinkingCord)
        } else {
            None
        }
    } else {
        None
    }
}

/// Applies `linking_cord_expiry`.
fn apply_linking_cord_expiry(ps: &mut PlayerEvolutionState)
    ensures
        *final(ps) == linking_cord_expiry(*old(ps)),
        final(ps).inputs.gengarite_input_sequence@ == old(ps).inputs.gengarite_input_sequence@,
        final(ps).inputs.special_press_count_everstone == old(ps).inputs.special_press_count_everstone,
        final(ps).inputs.s_taunt_r_press_count_dynamax == old(ps).inputs.s_taunt_r_press_count_dynamax,
{
    proof { reveal(linking_cord_expiry); }
    if ps.inputs.up_taunt_press_count_linking_cord == 1
        && ps.current_frame as i64 - ps.inputs.last_up_taunt_input_frame_linking_cord as i64 > DOUBLE_PRESS_WINDOW as i64 {
        ps.inputs.up_taunt_press_count_linking_cord = 0;
        if ps.icons.linking_cord_visual_icon_active {
            ps.icons.linking_cord_visual_icon_active = false;
            ps.icons.linking_cord_visual_icon_timer = 0;
            update_is_any_pos_sensitive_icon_active_flag(ps);
        }
    }
}

/// Applies `everstone_check`.
fn apply_everstone_check(ps: &mut PlayerEvolutionState, inp: ToggleInput) -> (cue: Option<Icon>)
    requires
        old(ps).inputs.special_press_count_everstone < 255,
    ensures
        (*final(ps), cue) == everstone_check(*old(ps), inp),
        final(ps).inputs.gengarite_input_sequence@ == old(ps).inputs.gengarite_input_sequence@,
        final(ps).inputs.s_taunt_r_press_count_dynamax == old(ps).inputs.s_taunt_r_press_count_dynamax,
{
    proof { reveal(everstone_check); }
    if inp.is_guard_status && inp.on_ground
        && (ps.stage == EvolutionStage::Gastly || ps.stage == EvolutionStage::Haunter)
        && inp.button == Some(ToggleButton::Special) {
        if ps.evolution.is_evolving || ps.evolution.linking_cord_active {
            if !ps.icons.everstone_x_icon_active {
                raise_icon(ps, Icon::EverstoneX, inp.pos_x, inp.pos_y);
                Some(Icon::EverstoneX)
            } else {
                None
            }
        } else {
            let c = count_press(ps.inputs.special_press_count_everstone, ps.inputs.last_special_press_frame_everstone, ps.current_frame);
            ps.inputs.special_press_count_everstone = c;
            ps.inputs.last_special_press_frame_everstone = ps.current_frame;
            if c >= 2 {
                ps.items.everstone_effect_active = !ps.items.everstone_effect_active;
                ps.inputs.special_press_count_everstone = 0;
                if ps.items.everstone_effect_active {
                    raise_icon(ps, Icon::Everstone, inp.pos_x, inp.pos_y);
                    Some(Icon::Everstone)
                } else {
                    raise_everstone_x(ps, inp.pos_x, inp.pos_y);
                    Some(Icon::EverstoneX)
                }
            } else {
                None
            }
        }
    } else {
        None
    }
}

/// Applies `everstone_expiry`.
fn apply_everstone_expiry(ps: &mut PlayerEvolutionState)
    ensures
        *final(ps) == everstone_expiry(*old(ps)),
        final(ps).inputs.gengarite_input_sequence@ == old(ps).inputs.gengarite_input_sequence@,
        final(ps).inputs.s_taunt_r_press_count_dynamax == old(ps).inputs.s_taunt_r_press_count_dynamax,
{
    proof { reveal(everstone_expiry); }
    if ps.inputs.special_press_count_everstone == 1
        && ps.current_frame as i64 - ps.inputs.last_special_press_frame_everstone as i64 > DOUBLE_PRESS_WINDOW as i64 {
        ps.inputs.special_press_count_everstone = 0;
    }
}

/// Applies `form_check`.
fn apply_form_check(ps: &mut PlayerEvolutionState, inp: ToggleInput) -> (cue: Option<Icon>)
    requires
        old(ps).inputs.s_taunt_r_press_count_dynamax < 255,
    ensures
        (*final(ps), cue) == form_check(*old(ps), inp),
        final(ps).inputs.gengarite_input_sequence@ == old(ps).inputs.gengarite_input_sequence@,
{
    proof { reveal(form_check); }
    if ps.stage == EvolutionStage::Gengar && inp.on_ground && inp.is_guard_status
        && (inp.button == Some(ToggleButton::AppealSideL) || inp.button == Some(ToggleButton::AppealSideR)) {
        let mega = inp.button == Some(ToggleButton::AppealSideL);
        let prev: u8 = if ps.inputs.s_taunt_pending_left == mega { ps.inputs.s_taunt_r_press_count_dynamax } else { 0 };
        let c = count_press(prev, ps.inputs.last_s_taunt_r_input_frame_dynamax, ps.current_frame);
        ps.inputs.s_taunt_r_press_count_dynamax = c;
        ps.inputs.last_s_taunt_r_input_frame_dynamax = ps.current_frame;
        ps.inputs.s_taunt_pending_left = mega;
        if c >= 2 {
            let i = if mega { Icon::Gengarite } else { Icon::Dynamax };
            raise_icon(ps, i, inp.pos_x, inp.pos_y);
            ps.items.mega_gengar_form_active = mega;
            ps.items.giga_gengar_form_active = !mega;
            ps.inputs.s_taunt_r_press_count_dynamax = 0;
            Some(i)
        } else {
            None
        }
    } else {
        None
    }
}

/// Applies `form_expiry`.
fn apply_form_expiry(ps: &mut PlayerEvolutionState)
    ensures
        *final(ps) == form_expiry(*old(ps)),
        final(ps).inputs.gengarite_input_sequence@ == old(ps).inputs.gengarite_input_sequence@,
{
    proof { reveal(form_expiry); }
    if ps.inputs.s_taunt_r_press_count_dynamax == 1
        && ps.current_frame as i64 - ps.inputs.last_s_taunt_r_input_frame_dynamax as i64 > DOUBLE_PRESS_WINDOW as i64 {
        ps.inputs.s_taunt_r_press_count_dynamax = 0;
    }
}

/// Counts one icon down (see `countdown`).
fn count_down(active: bool, timer: i32) -> (r: (bool, i32))
    ensures
        r == countdown(active, timer),
{
    if active && timer > 0 { (timer - 1 != 0, timer - 1) } else { (active, timer) }
}

/// Applies `icons_ticked`.
fn tick_icons(ic0: ItemIcons) -> (ic: ItemIcons)
    ensures
        ic == icons_ticked(ic0),
{
    proof { reveal(icons_ticked); }
    let mut ic = ic0;
    let expired = (ic0.linking_cord_visual_icon_active && ic0.linking_cord_visual_icon_timer == 1)
        || (ic0.linking_cord_evo_attempt_icon_is_pos_sensitive && ic0.linking_cord_evo_attempt_icon_timer == 1)
        || (ic0.everstone_icon_active && ic0.everstone_icon_timer == 1)
        || (ic0.everstone_x_icon_active && ic0.everstone_x_icon_timer == 1)
        || (ic0.gengarite_icon_display_active && ic0.gengarite_icon_display_timer == 1)
        || (ic0.dynamax_icon_display_active && ic0.dynamax_icon_display_timer == 1);
    let (a, t) = count_down(ic0.linking_cord_visual_icon_active, ic0.linking_cord_visual_icon_timer);
    ic.linking_cord_visual_icon_active = a;
    ic.linking_cord_visual_icon_timer = t;
    if ic0.linking_cord_evo_attempt_icon_timer > 0 {
        let n = ic0.linking_cord_evo_attempt_icon_timer - 1;
        ic.linking_cord_evo_attempt_icon_timer = n;
        ic.linking_cord_evo_attempt_icon_is_pos_sensitive = ic0.linking_cord_evo_attempt_icon_is_pos_sensitive && n != 0;
    }
    let (a, t) = count_down(ic0.everstone_icon_active, ic0.everstone_icon_timer);
    ic.everstone_icon_active = a;
    ic.everstone_icon_timer = t;
    let (a, t) = count_down(ic0.everstone_x_icon_active, ic0.everstone_x_icon_timer);
    ic.everstone_x_icon_active = a;
    ic.everstone_x_icon_timer = t;
    let (a, t) = count_down(ic0.gengarite_icon_display_active, ic0.gengarite_icon_display_timer);
    ic.gengarite_icon_display_active = a;
    ic.gengarite_icon_display_timer = t;
    let (a, t) = count_down(ic0.dynamax_icon_display_active, ic0.dynamax_icon_display_timer);
    ic.dynamax_icon_display_active = a;
    ic.dynamax_icon_display_timer = t;
    if expired {
        ic.is_any_pos_sensitive_icon_active = ic.linking_cord_visual_icon_active
            || (ic.linking_cord_evo_attempt_icon_is_pos_sensitive && ic.linking_cord_evo_attempt_icon_timer > 0)
            || ic.everstone_icon_active
            || ic.everstone_x_icon_active
            || ic.gengarite_icon_display_active
            || ic.dynamax_icon_display_active;
    }
    ic
}

/// Applies `linking_cord_phase`.
fn run_linking_cord_phase(ps: &mut PlayerEvolutionState, input: ToggleInput) -> (r: (bool, Option<Icon>))
    requires
        old(ps).inputs.up_taunt_press_count_linking_cord < 255,
    ensures
        (*final(ps), r.0, r.1) == linking_cord_phase(*old(ps), input),
        final(ps).inputs.special_press_count_everstone == old(ps).inputs.special_press_count_everstone,
        final(ps).inputs.s_taunt_r_press_count_dynamax == old(ps).inputs.s_taunt_r_press_count_dynamax,
        final(ps).inputs.gengarite_input_sequence@ == old(ps).inputs.gengarite_input_sequence@,
{
    proof { reveal(linking_cord_phase); }
    apply_moved_check(ps, input);
    let consumed = apply_consumed_check(ps, input);
    let c3 = apply_linking_cord_check(ps, input);
    apply_linking_cord_expiry(ps);
    (consumed, c3)
}

/// Applies `item_phase`.
fn run_item_phase(ps: &mut PlayerEvolutionState, input: ToggleInput) -> (c: Option<Icon>)
    requires
        old(ps).inputs.special_press_count_everstone < 255,
        old(ps).inputs.s_taunt_r_press_count_dynamax < 255,
    ensures
        (*final(ps), c) == item_phase(*old(ps), input),
        final(ps).inputs.gengarite_input_sequence@ == old(ps).inputs.gengarite_input_sequence@,
{
    proof { reveal(item_phase); }
    let c5 = apply_everstone_check(ps, input);
    apply_everstone_expiry(ps);
    let c7 = apply_form_check(ps, input);
    apply_form_expiry(ps);
    if c5.is_some() { c5 } else { c7 }
}

/// Applies `sequence_expired`.
fn expire_sequence(ps: &mut PlayerEvolutionState)
    ensures
        *final(ps) == sequence_expired(*old(ps), *final(ps)),
        final(ps).inputs.gengarite_input_sequence@ == if gengarite_sequence_expires(*old(ps)) {
            Seq::<i32>::empty()
        } else {
            old(ps).inputs.gengarite_input_sequence@
        },
{
    if ps.inputs.gengarite_input_sequence.len() > 0
        && ps.current_frame as i64 - ps.inputs.last_gengarite_input_frame as i64 > DOUBLE_PRESS_WINDOW as i64 {
        ps.inputs.gengarite_input_sequence.clear();
    }
}

/// Counts every item icon down (see `icons_ticked`).
fn tick_item_icons(ps: &mut PlayerEvolutionState)
    ensures
        *final(ps) == (PlayerEvolutionState { icons: icons_ticked(old(ps).icons), ..*old(ps) }),
{
    ps.icons = tick_icons(ps.icons);
}

/// One frame of the item toggles: icons vanish when the fighter moves or is
/// hit; an everstone consumed by the linking cord shows the everstone X icon;
/// double presses while guarding on the ground ask for the linking cord (up
/// taunt, Haunter), toggle the everstone (special, Gastly or Haunter) or pick
/// the final smash form (side taunt, Gengar); a lone press expires after 30
/// frames; every icon counts down. Returns the cues to play and which icons
/// show.
#[verifier::spinoff_prover]
pub fn handle_icon_toggles_and_effects(player_state: &mut PlayerEvolutionState, input: ToggleInput) -> (frame: ToggleFrame)
    requires
        old(player_state).inputs.up_taunt_press_count_linking_cord < 255,
        old(player_state).inputs.special_press_count_everstone < 255,
        old(player_state).inputs.s_taunt_r_press_count_dynamax < 255,
    ensures
        (*final(player_state), frame) == toggle_step(*old(player_state), input, *final(player_state)),
        final(player_state).inputs.gengarite_input_sequence@
            == if gengarite_sequence_expires(item_phase(linking_cord_phase(*old(player_state), input).0, input).0) {
            Seq::<i32>::empty()
        } else {
            old(player_state).inputs.gengarite_input_sequence@
        },
{
    let (consumed, c3) = run_linking_cord_phase(player_state, input);
    let c8 = run_item_phase(player_state, input);
    expire_sequence(player_state);
    tick_item_icons(player_state);
    let ic = &player_state.icons;
    let cue = if c3.is_some() { c3 } else { c8 };
    ToggleFrame {
        consumed_everstone_cue: consumed,
        cue: cue,
        linking_cord_visible: ic.linking_cord_visual_icon_active || ic.linking_cord_evo_attempt_icon_timer > 0,
        everstone_visible: ic.everstone_icon_active && player_state.items.everstone_effect_active,
        everstone_x_visible: ic.everstone_x_icon_active,
        gengarite_visible: ic.gengarite_icon_display_active,
        dynamax_visible: ic.dynamax_icon_display_active,
    }
}

} // verus!
