//! Equipment over the turns: cursed items acting, properties granted and
//! taken as items are put on and off, and artifacts worn.

use vstd::prelude::*;
use crate::magic::artifacts::{
    ArtifactAbility, ability_description, apply_artifact_effects, artifact_applied, effects_of, effects_table,
    get_artifact_effects, get_artifact_warning, remove_artifact_effects, should_warn_of_monster, warning_tail,
    warns_of,
};
use crate::magic::cursed_items::{CursedEffect, check_fumble, magnitude_sum, not_of_item, of_effect};
use crate::magic::property_binding::{
    apply_all_equipment_properties, intrinsics_now, remove_all_equipment_properties, table_contents,
    with_item_intrinsics,
};
use crate::player::You;
use crate::rng::{GameRng, rn2_at, step};
use crate::text::{contains_text, push_text, push_string, str_contains, views};

verus! {

/// Every running total of the curses of effect `e` stays within `i32`.
pub open spec fn curse_sums_fit(p: You, e: CursedEffect) -> bool {
    forall|k: int| 0 <= k <= p.cursed_item_tracker.active_curses@.len() ==> i32::MIN <= #[trigger] magnitude_sum(
        p.cursed_item_tracker.active_curses@.take(k), of_effect(e)) <= i32::MAX
}

/// The total fumbling chance of the hero's cursed items.
pub open spec fn fumble_total(p: You) -> int {
    magnitude_sum(p.cursed_item_tracker.active_curses@, of_effect(CursedEffect::Fumbling))
}

/// The total armor class penalty of the hero's cursed items.
pub open spec fn armor_penalty_total(p: You) -> int {
    magnitude_sum(p.cursed_item_tracker.active_curses@, of_effect(CursedEffect::ArmorPenalty))
}

/// Cursed items act for a turn: with their total fumbling chance the hands
/// fumble, and their total armor penalty worsens armor class (the sum taken
/// into the armor class's width).
pub fn apply_cursed_item_effects(player: &mut You, rng: &mut GameRng) -> (messages: Vec<String>)
    requires
        curse_sums_fit(*old(player), CursedEffect::Fumbling),
        curse_sums_fit(*old(player), CursedEffect::ArmorPenalty),
        old(player).armor_class + armor_penalty_total(*old(player)) <= i32::MAX,
    ensures
        ({
            let f = fumble_total(*old(player));
            let pen = armor_penalty_total(*old(player));
            let fumbled = f > 0 && rn2_at(old(rng)@, 100) < f as u32;
            &&& final(rng)@ == (if f > 0 { step(old(rng)@) } else { old(rng)@ })
            &&& views(messages@) == (if fumbled { seq!["Your hands fumble!"@] } else { Seq::empty() })
            &&& *final(player) == (You { armor_class: if pen > 0 { (old(player).armor_class + pen) as i8 } else {
                old(player).armor_class }, ..*old(player) })
        }),
{
    let mut messages: Vec<String> = Vec::new();
    let total_fumble = player.cursed_item_tracker.total_fumble_chance();
    if total_fumble > 0 && check_fumble(total_fumble, rng) {
        push_text(&mut messages, "Your hands fumble!");
        assert(views(messages@) =~= seq!["Your hands fumble!"@]);
    } else {
        assert(views(messages@) =~= Seq::<Seq<char>>::empty());
    }
    let ac_penalty = player.cursed_item_tracker.total_armor_penalty();
    if ac_penalty > 0 {
        player.armor_class = (player.armor_class as i32 + ac_penalty) as i8;
    }
    messages
}

/// A copy of a list of item identities.
fn copy_ids(v: &Vec<u32>) -> (c: Vec<u32>)
    ensures
        c@ == v@,
{
    let mut c: Vec<u32> = Vec::new();
    let mut i: usize = 0;
    while i < v.len()
        invariant
            i <= v@.len(),
            c@ == v@.take(i as int),
        decreases v@.len() - i,
    {
        c.push(v[i]);
        proof {
            assert(c@ =~= v@.take(i as int + 1));
        }
        i = i + 1;
    }
    proof {
        assert(v@.take(v@.len() as int) =~= v@);
    }
    c
}

/// Take away the properties of every equipped item.
pub fn reset_equipment_properties(player: &mut You)
    requires
        old(player).wf(),
    ensures
        intrinsics_now(*old(player), *final(player), with_item_intrinsics(old(player).properties.intrinsic@,
            table_contents(old(player).property_binding.item_properties), old(player).equipped_items@, false)),
{
    let property_binding = player.property_binding.clone();
    let equipped_items = copy_ids(&player.equipped_items);
    remove_all_equipment_properties(player, &property_binding, equipped_items.as_slice());
}

/// Grant again the properties of every equipped item.
pub fn reapply_equipment_properties(player: &mut You)
    requires
        old(player).wf(),
    ensures
        intrinsics_now(*old(player), *final(player), with_item_intrinsics(old(player).properties.intrinsic@,
            table_contents(old(player).property_binding.item_properties), old(player).equipped_items@, true)),
{
    let property_binding = player.property_binding.clone();
    let equipped_items = copy_ids(&player.equipped_items);
    apply_all_equipment_properties(player, &property_binding, equipped_items.as_slice());
}

/// Whether `id` is one of the hero's equipped items.
fn is_equipped(player: &You, id: u32) -> (r: bool)
    ensures
        r == player.equipped_items@.contains(id),
{
    let mut i: usize = 0;
    while i < player.equipped_items.len()
        invariant
            i <= player.equipped_items@.len(),
            forall|j: int| 0 <= j < i ==> player.equipped_items@[j] != id,
        decreases player.equipped_items@.len() - i,
    {
        if player.equipped_items[i] == id {
            assert(player.equipped_items@[i as int] == id);
            return true;
        }
        i = i + 1;
    }
    false
}

/// Equip an item: it joins the equipped items unless already there, and the
/// properties bound to it become intrinsic. No curse comes with it here.
pub fn equip_item_with_effects(player: &mut You, object_id: u32, rng: &mut GameRng) -> (messages: Vec<String>)
    requires
        old(player).wf(),
    ensures
        messages@.len() == 0,
        final(rng)@ == old(rng)@,
        final(player).equipped_items@ == (if old(player).equipped_items@.contains(object_id) {
            old(player).equipped_items@
        } else {
            old(player).equipped_items@.push(object_id)
        }),
        intrinsics_now(
            You { equipped_items: final(player).equipped_items, ..*old(player) },
            *final(player),
            with_item_intrinsics(old(player).properties.intrinsic@, table_contents(
                old(player).property_binding.item_properties), seq![object_id], true),
        ),
{
    let messages: Vec<String> = Vec::new();
    if !is_equipped(player, object_id) {
        player.equipped_items.push(object_id);
    }
    let property_binding = player.property_binding.clone();
    property_binding.apply_item_properties(player, object_id);
    messages
}

/// The item identities of `s` other than `id`, in order.
pub open spec fn without_id(s: Seq<u32>, id: u32) -> Seq<u32>
    decreases s.len(),
{
    if s.len() == 0 {
        s
    } else if s.last() == id {
        without_id(s.drop_last(), id)
    } else {
        without_id(s.drop_last(), id).push(s.last())
    }
}

/// The equipped items without `id`.
fn unequip_id(v: &mut Vec<u32>, id: u32)
    ensures
        final(v)@ == without_id(old(v)@, id),
{
    let ghost s = v@;
    let mut kept: Vec<u32> = Vec::new();
    let mut i: usize = 0;
    while i < v.len()
        invariant
            s == v@,
            i <= s.len(),
            kept@ == without_id(s.take(i as int), id),
        decreases s.len() - i,
    {
        proof {
            assert(s.take(i as int + 1).drop_last() =~= s.take(i as int));
        }
        if v[i] != id {
            kept.push(v[i]);
        }
        i = i + 1;
    }
    proof {
        assert(s.take(s.len() as int) =~= s);
    }
    *v = kept;
}

/// Unequip an item: it leaves the equipped items, its curses are lifted, and
/// the properties bound to it are taken away.
pub fn unequip_item_with_effects(player: &mut You, object_id: u32) -> (messages: Vec<String>)
    requires
        old(player).wf(),
    ensures
        messages@.len() == 0,
        final(player).equipped_items@ == without_id(old(player).equipped_items@, object_id),
        final(player).cursed_item_tracker.active_curses@ == old(player).cursed_item_tracker.active_curses@.filter(
            not_of_item(object_id)),
        intrinsics_now(
            You {
                equipped_items: final(player).equipped_items,
                cursed_item_tracker: final(player).cursed_item_tracker,
                ..*old(player)
            },
            *final(player),
            with_item_intrinsics(old(player).properties.intrinsic@, table_contents(
                old(player).property_binding.item_properties), seq![object_id], false),
        ),
{
    let messages: Vec<String> = Vec::new();
    unequip_id(&mut player.equipped_items, object_id);
    player.cursed_item_tracker.remove_item_curses(object_id);
    let property_binding = player.property_binding.clone();
    property_binding.remove_item_properties(player, object_id);
    messages
}

/// Put on an artifact: its effects act on the hero, and its warning, if it
/// has one, is told.
pub fn apply_artifact_to_player(player: &mut You, artifact_id: u8) -> (messages: Vec<String>)
    requires
        old(player).wf(),
    ensures
        exists|e| #[trigger] effects_of(e, artifact_id) && artifact_applied(*old(player), *final(player), e, true),
        views(messages@) == (match warning_tail(artifact_id) {
            Some(t) => seq!["artifact"@ + t],
            None => Seq::empty(),
        }),
{
    let mut messages: Vec<String> = Vec::new();
    let effects = get_artifact_effects(artifact_id);
    apply_artifact_effects(player, &effects);
    if let Some(warning) = get_artifact_warning(artifact_id, "artifact") {
        push_string(&mut messages, warning);
    }
    proof {
        assert(effects_of(effects, artifact_id));
        assert(views(messages@) =~= (match warning_tail(artifact_id) {
            Some(t) => seq!["artifact"@ + t],
            None => Seq::<Seq<char>>::empty(),
        }));
    }
    messages
}

/// Take off an artifact: its effects are taken away from the hero.
pub fn remove_artifact_from_player(player: &mut You, artifact_id: u8)
    requires
        old(player).wf(),
    ensures
        exists|e| #[trigger] effects_of(e, artifact_id) && artifact_applied(*old(player), *final(player), e, false),
{
    let effects = get_artifact_effects(artifact_id);
    remove_artifact_effects(player, &effects);
    assert(effects_of(effects, artifact_id));
}

/// Whether an artifact's ability warns: its description speaks of warning.
pub open spec fn ability_warns(a: ArtifactAbility) -> bool {
    contains_text(ability_description(a), "warns"@)
}

/// Whether an artifact warns of one of the monsters `nearby` (by their
/// symbols).
pub open spec fn threat_near(artifact_id: u8, nearby: Seq<(char, String)>) -> bool {
    ability_warns(effects_table(artifact_id).2) && exists|i: int| 0 <= i < nearby.len() && warns_of(
        artifact_id,
        (#[trigger] nearby[i]).0,
    )
}

/// A warning when an artifact that warns senses one of the monsters nearby.
pub fn check_artifact_warning(player: &You, artifact_id: u8, nearby_monsters: &[(char, String)]) -> (r: Option<
    String,
>)
    ensures
        threat_near(artifact_id, nearby_monsters@) ==> (r matches Some(s) && s@ == "You sense a nearby threat!"@),
        !threat_near(artifact_id, nearby_monsters@) ==> r is None,
{
    let mut i: usize = 0;
    while i < nearby_monsters.len()
        invariant
            i <= nearby_monsters@.len(),
            forall|j: int| 0 <= j < i ==> !(warns_of(artifact_id, (#[trigger] nearby_monsters@[j]).0)
                && ability_warns(effects_table(artifact_id).2)),
        decreases nearby_monsters@.len() - i,
    {
        let symbol = nearby_monsters[i].0;
        if should_warn_of_monster(artifact_id, symbol) {
            let effects = get_artifact_effects(artifact_id);
            if str_contains(effects.ability.description(), "warns") {
                assert(warns_of(artifact_id, nearby_monsters@[i as int].0));
                return Some(String::from_str("You sense a nearby threat!"));
            }
        }
        i = i + 1;
    }
    None
}

} // verus!
