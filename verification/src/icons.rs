use vstd::prelude::*;
use crate::state::{PlayerEvolutionState, ItemIcons, ReadinessIcons};

verus! {

/// The item icons that can appear above the fighter.
#[derive(Debug, Clone, Copy, PartialEq, Eq, Structural)]
pub enum Icon {
    LinkingCord,
    Everstone,
    EverstoneX,
    Gengarite,
    Dynamax,
}

/// Some icon that disappears when the fighter moves is up.
pub open spec fn pos_sensitive_any(ic: ItemIcons) -> bool {
    ||| ic.linking_cord_visual_icon_active
    ||| (ic.linking_cord_evo_attempt_icon_is_pos_sensitive && ic.linking_cord_evo_attempt_icon_timer > 0)
    ||| ic.everstone_icon_active
    ||| ic.everstone_x_icon_active
    ||| ic.gengarite_icon_display_active
    ||| ic.dynamax_icon_display_active
}

/// The summary flag agrees with the icons.
pub open spec fn icons_consistent(ic: ItemIcons) -> bool {
    ic.is_any_pos_sensitive_icon_active == pos_sensitive_any(ic)
}

/// `ic` with the summary flag recomputed.
pub open spec fn with_flag(ic: ItemIcons) -> ItemIcons {
    ItemIcons { is_any_pos_sensitive_icon_active: pos_sensitive_any(ic), ..ic }
}

/// Recomputes whether some position-sensitive icon is up.
pub fn update_is_any_pos_sensitive_icon_active_flag(player_state: &mut PlayerEvolutionState)
    ensures
        *final(player_state) == (PlayerEvolutionState {
            icons: with_flag(old(player_state).icons),
            ..*old(player_state)
        }),
{
    let ic = &player_state.icons;
    let any = ic.linking_cord_visual_icon_active
        || (ic.linking_cord_evo_attempt_icon_is_pos_sensitive && ic.linking_cord_evo_attempt_icon_timer > 0)
        || ic.everstone_icon_active
        || ic.everstone_x_icon_active
        || ic.gengarite_icon_display_active
        || ic.dynamax_icon_display_active;
    player_state.icons.is_any_pos_sensitive_icon_active = any;
}

/// Hides the readiness icons (their lockouts stay), as the everstone does.
pub fn deactivate_readiness_icons_for_everstone(player_state: &mut PlayerEvolutionState)
    ensures
        *final(player_state) == (PlayerEvolutionState {
            readiness: readiness_timers_cleared(old(player_state).readiness),
            ..*old(player_state)
        }),
{
    player_state.readiness.dmg_t_icon_display_timer = 0;
    player_state.readiness.dmg_d_icon_display_timer = 0;
    player_state.readiness.dmg_ss_icon_display_timer = 0;
    player_state.readiness.dmg_se_icon_display_timer = 0;
}

/// The readiness icons with all four display timers at zero.
pub open spec fn readiness_timers_cleared(r: ReadinessIcons) -> ReadinessIcons {
    ReadinessIcons {
        dmg_t_icon_display_timer: 0,
        dmg_d_icon_display_timer: 0,
        dmg_ss_icon_display_timer: 0,
        dmg_se_icon_display_timer: 0,
        ..r
    }
}

/// `new` names icon `i`.
pub open spec fn is_icon(new: Option<Icon>, i: Icon) -> bool {
    new == Some(i)
}

/// The position-sensitive linking cord evolution icon is counting down.
pub open spec fn lc_attempt_up(ic: ItemIcons) -> bool {
    ic.linking_cord_evo_attempt_icon_is_pos_sensitive && ic.linking_cord_evo_attempt_icon_timer > 0
}

/// The icons with every icon other than `new` taken down (flag untouched).
pub open spec fn others_down(ic: ItemIcons, new: Option<Icon>) -> ItemIcons {
    let lc = is_icon(new, Icon::LinkingCord);
    let lcv = ic.linking_cord_visual_icon_active && !lc;
    let lca = lc_attempt_up(ic) && !lc;
    let ev = ic.everstone_icon_active && !is_icon(new, Icon::Everstone);
    let evx = ic.everstone_x_icon_active && !is_icon(new, Icon::EverstoneX);
    let gen = ic.gengarite_icon_display_active && !is_icon(new, Icon::Gengarite);
    let dyn_ = ic.dynamax_icon_display_active && !is_icon(new, Icon::Dynamax);
    ItemIcons {
        linking_cord_visual_icon_active: if lcv { false } else { ic.linking_cord_visual_icon_active },
        linking_cord_visual_icon_timer: if lcv { 0 } else { ic.linking_cord_visual_icon_timer },
        linking_cord_evo_attempt_icon_timer: if lca { 0 } else { ic.linking_cord_evo_attempt_icon_timer },
        linking_cord_evo_attempt_icon_is_pos_sensitive: if lca { false } else { ic.linking_cord_evo_attempt_icon_is_pos_sensitive },
        everstone_icon_active: if ev { false } else { ic.everstone_icon_active },
        everstone_icon_timer: if ev { 0 } else { ic.everstone_icon_timer },
        everstone_x_icon_active: if evx { false } else { ic.everstone_x_icon_active },
        everstone_x_icon_timer: if evx { 0 } else { ic.everstone_x_icon_timer },
        gengarite_icon_display_active: if gen { false } else { ic.gengarite_icon_display_active },
        gengarite_icon_display_timer: if gen { 0 } else { ic.gengarite_icon_display_timer },
        dynamax_icon_display_active: if dyn_ { false } else { ic.dynamax_icon_display_active },
        dynamax_icon_display_timer: if dyn_ { 0 } else { ic.dynamax_icon_display_timer },
        ..ic
    }
}

/// Some icon other than `new` is up and would be taken down.
pub open spec fn some_other_up(ic: ItemIcons, new: Option<Icon>) -> bool {
    ||| (ic.linking_cord_visual_icon_active && !is_icon(new, Icon::LinkingCord))
    ||| (lc_attempt_up(ic) && !is_icon(new, Icon::LinkingCord))
    ||| (ic.everstone_icon_active && !is_icon(new, Icon::Everstone))
    ||| (ic.everstone_x_icon_active && !is_icon(new, Icon::EverstoneX))
    ||| (ic.gengarite_icon_display_active && !is_icon(new, Icon::Gengarite))
    ||| (ic.dynamax_icon_display_active && !is_icon(new, Icon::Dynamax))
}

/// The icons after `enforce_icon_exclusivity(new)`.
pub open spec fn exclusive_icons(ic: ItemIcons, new: Option<Icon>) -> ItemIcons {
    if some_other_up(ic, new) { with_flag(others_down(ic, new)) } else { ic }
}

/// Makes room for icon `new` (or for none): every other item icon goes down,
/// and an everstone icon also hides the readiness icons.
pub fn enforce_icon_exclusivity(player_state: &mut PlayerEvolutionState, new_icon: Option<Icon>)
    ensures
        *final(player_state) == (PlayerEvolutionState {
            icons: exclusive_icons(old(player_state).icons, new_icon),
            readiness: if is_icon(new_icon, Icon::Everstone) || is_icon(new_icon, Icon::EverstoneX) {
                readiness_timers_cleared(old(player_state).readiness)
            } else {
                old(player_state).readiness
            },
            ..*old(player_state)
        }),
{
    let mut deactivated_something = false;
    let is_lc = match new_icon { Some(Icon::LinkingCord) => true, _ => false };
    let is_everstone = match new_icon {
        Some(Icon::Everstone) => true,
        Some(Icon::EverstoneX) => true,
        _ => false,
    };
    if is_everstone {
        deactivate_readiness_icons_for_everstone(player_state);
    }
    if player_state.icons.linking_cord_visual_icon_active && !is_lc {
        player_state.icons.linking_cord_visual_icon_active = false;
        player_state.icons.linking_cord_visual_icon_timer = 0;
        deactivated_something = true;
    }
    if player_state.icons.linking_cord_evo_attempt_icon_is_pos_sensitive
        && player_state.icons.linking_cord_evo_attempt_icon_timer > 0 && !is_lc {
        player_state.icons.linking_cord_evo_attempt_icon_timer = 0;
        player_state.icons.linking_cord_evo_attempt_icon_is_pos_sensitive = false;
        deactivated_something = true;
    }
    if player_state.icons.everstone_icon_active
        && !matches!(new_icon, Some(Icon::Everstone)) {
        player_state.icons.everstone_icon_active = false;
        player_state.icons.everstone_icon_timer = 0;
        deactivated_something = true;
    }
    if player_state.icons.everstone_x_icon_active
        && !matches!(new_icon, Some(Icon::EverstoneX)) {
        player_state.icons.everstone_x_icon_active = false;
        player_state.icons.everstone_x_icon_timer = 0;
        deactivated_something = true;
    }
    if player_state.icons.gengarite_icon_display_active
        && !matches!(new_icon, Some(Icon::Gengarite)) {
        player_state.icons.gengarite_icon_display_active = false;
        player_state.icons.gengarite_icon_display_timer = 0;
        deactivated_something = true;
    }
    if player_state.icons.dynamax_icon_display_active
        && !matches!(new_icon, Some(Icon::Dynamax)) {
        player_state.icons.dynamax_icon_display_active = false;
        player_state.icons.dynamax_icon_display_timer = 0;
        deactivated_something = true;
    }
    if deactivated_something {
        update_is_any_pos_sensitive_icon_active_flag(player_state);
    }
}

/// Remembers where the fighter stood when a position-sensitive icon appeared
/// (thousandths of a unit) and recomputes the summary flag.
pub fn activate_pos_sensitive_icon(player_state: &mut PlayerEvolutionState, current_player_pos_x: i32, current_player_pos_y: i32)
    ensures
        *final(player_state) == (PlayerEvolutionState {
            icons: with_flag(ItemIcons {
                icon_start_pos_x: current_player_pos_x,
                icon_start_pos_y: current_player_pos_y,
                ..old(player_state).icons
            }),
            ..*old(player_state)
        }),
{
    player_state.icons.icon_start_pos_x = current_player_pos_x;
    player_state.icons.icon_start_pos_y = current_player_pos_y;
    update_is_any_pos_sensitive_icon_active_flag(player_state);
}

/// Takes every position-sensitive icon down.
pub fn deactivate_all_pos_sensitive_icons(player_state: &mut PlayerEvolutionState)
    ensures
        *final(player_state) == (PlayerEvolutionState {
            icons: with_flag(others_down(old(player_state).icons, None)),
            ..*old(player_state)
        }),
{
    if player_state.icons.linking_cord_visual_icon_active {
        player_state.icons.linking_cord_visual_icon_active = false;
        player_state.icons.linking_cord_visual_icon_timer = 0;
    }
    if player_state.icons.linking_cord_evo_attempt_icon_is_pos_sensitive
        && player_state.icons.linking_cord_evo_attempt_icon_timer > 0 {
        player_state.icons.linking_cord_evo_attempt_icon_timer = 0;
        player_state.icons.linking_cord_evo_attempt_icon_is_pos_sensitive = false;
    }
    if player_state.icons.everstone_icon_active {
        player_state.icons.everstone_icon_active = false;
        player_state.icons.everstone_icon_timer = 0;
    }
    if player_state.icons.everstone_x_icon_active {
        player_state.icons.everstone_x_icon_active = false;
        player_state.icons.everstone_x_icon_timer = 0;
    }
    if player_state.icons.gengarite_icon_display_active {
        player_state.icons.gengarite_icon_display_active = false;
        player_state.icons.gengarite_icon_display_timer = 0;
    }
    if player_state.icons.dynamax_icon_display_active {
        player_state.icons.dynamax_icon_display_active = false;
        player_state.icons.dynamax_icon_display_timer = 0;
    }
    update_is_any_pos_sensitive_icon_active_flag(player_state);
}

/// Law: making room for an icon leaves no other item icon up, and keeps the
/// summary flag in agreement with the icons.
pub proof fn lemma_icon_exclusivity(ic: ItemIcons, new: Option<Icon>)
    requires
        icons_consistent(ic),
    ensures
        icons_consistent(exclusive_icons(ic, new)),
        !is_icon(new, Icon::LinkingCord) ==> !exclusive_icons(ic, new).linking_cord_visual_icon_active
            && !lc_attempt_up(exclusive_icons(ic, new)),
        !is_icon(new, Icon::Everstone) ==> !exclusive_icons(ic, new).everstone_icon_active,
        !is_icon(new, Icon::EverstoneX) ==> !exclusive_icons(ic, new).everstone_x_icon_active,
        !is_icon(new, Icon::Gengarite) ==> !exclusive_icons(ic, new).gengarite_icon_display_active,
        !is_icon(new, Icon::Dynamax) ==> !exclusive_icons(ic, new).dynamax_icon_display_active,
{
}

/// Law: taking all position-sensitive icons down leaves none up.
pub proof fn lemma_deactivate_all_clears(ic: ItemIcons)
    ensures
        !pos_sensitive_any(with_flag(others_down(ic, None))),
        !with_flag(others_down(ic, None)).is_any_pos_sensitive_icon_active,
{
}

} // verus!
