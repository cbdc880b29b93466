//! Which worn items grant which properties, and granting or taking those
//! properties as items are put on and taken off.

use vstd::prelude::*;
use crate::object::{BucStatus, Object, ObjectClass};
use crate::player::{Property, PropertySet, You, prop_index};

verus! {

/// A hash map from item identities to the properties each grants.
#[derive(Debug)]
#[verifier::external_body]
pub struct ItemPropertyTable {
    map: hashbrown::HashMap<u32, Vec<Property>>,
}

/// What an item table holds: each bound item's properties.
pub uninterp spec fn table_contents(t: ItemPropertyTable) -> Map<u32, Seq<Property>>;

/// The contents of a table without entries.
pub open spec fn no_bindings() -> Map<u32, Seq<Property>> {
    Map::empty()
}

/// `hashbrown::HashMap::new`: an empty table.
#[verifier::external_body]
fn table_new() -> (table: ItemPropertyTable)
    ensures
        table_contents(table) == no_bindings(),
{
    ItemPropertyTable { map: hashbrown::HashMap::new() }
}

/// `hashbrown::HashMap::clone`: a table with the same entries.
#[verifier::external_body]
fn table_clone(t: &ItemPropertyTable) -> (c: ItemPropertyTable)
    ensures
        table_contents(c) == table_contents(*t),
{
    ItemPropertyTable { map: t.map.clone() }
}

/// `hashbrown::HashMap::insert`: the entry for `k` becomes `v`, replacing
/// any earlier one.
#[verifier::external_body]
fn table_insert(t: &mut ItemPropertyTable, k: u32, v: Vec<Property>)
    ensures
        table_contents(*final(t)) == table_contents(*old(t)).insert(k, v@),
{
    t.map.insert(k, v);
}

/// `hashbrown::HashMap::get`: the entry for `k`, if there is one.
#[verifier::external_body]
fn table_get(t: &ItemPropertyTable, k: u32) -> (r: Option<&Vec<Property>>)
    ensures
        r is Some <==> table_contents(*t).dom().contains(k),
        r matches Some(v) ==> v@ == table_contents(*t)[k],
{
    t.map.get(&k)
}

/// `hashbrown::HashMap::remove`: the entry for `k` is gone.
#[verifier::external_body]
fn table_remove(t: &mut ItemPropertyTable, k: u32)
    ensures
        table_contents(*final(t)) == table_contents(*old(t)).remove(k),
{
    t.map.remove(&k);
}

/// `hashbrown::HashMap::len`: the number of entries.
#[verifier::external_body]
fn table_len(t: &ItemPropertyTable) -> (n: usize)
    ensures
        n == table_contents(*t).len(),
{
    t.map.len()
}

/// `hashbrown::HashMap::contains_key`: whether `k` has an entry.
#[verifier::external_body]
fn table_contains(t: &ItemPropertyTable, k: u32) -> (r: bool)
    ensures
        r == table_contents(*t).dom().contains(k),
{
    t.map.contains_key(&k)
}

/// Which items grant which properties.
#[derive(Debug)]
pub struct PropertyBinding {
    pub item_properties: ItemPropertyTable,
}

impl Clone for PropertyBinding {
    /// The same bindings.
    fn clone(&self) -> (c: Self)
        ensures
            table_contents(c.item_properties) == table_contents(self.item_properties),
    {
        PropertyBinding { item_properties: table_clone(&self.item_properties) }
    }
}

impl Default for PropertyBinding {
    /// No bindings.
    fn default() -> (b: Self)
        ensures
            table_contents(b.item_properties) == no_bindings(),
    {
        Self::new()
    }
}

/// The intrinsic table `t` with each of the properties `ps` set to `v`.
pub open spec fn with_intrinsics(t: Seq<bool>, ps: Seq<Property>, v: bool) -> Seq<bool>
    decreases ps.len(),
{
    if ps.len() == 0 {
        t
    } else {
        with_intrinsics(t, ps.drop_last(), v).update(prop_index(ps.last()), v)
    }
}

/// The intrinsic table `t` with the properties of each of the items `ids`
/// bound in `m` set to `v`, item by item.
pub open spec fn with_item_intrinsics(t: Seq<bool>, m: Map<u32, Seq<Property>>, ids: Seq<u32>, v: bool) -> Seq<
    bool,
>
    decreases ids.len(),
{
    if ids.len() == 0 {
        t
    } else {
        let before = with_item_intrinsics(t, m, ids.drop_last(), v);
        if m.dom().contains(ids.last()) {
            with_intrinsics(before, m[ids.last()], v)
        } else {
            before
        }
    }
}

/// Setting the properties of one more item continues from the items before.
proof fn lemma_item_step(t: Seq<bool>, m: Map<u32, Seq<Property>>, ids: Seq<u32>, id: u32, v: bool)
    ensures
        with_item_intrinsics(t, m, ids.push(id), v) == with_item_intrinsics(with_item_intrinsics(t, m, ids, v), m, seq![
            id], v),
{
    let t2 = with_item_intrinsics(t, m, ids, v);
    assert(ids.push(id).drop_last() =~= ids);
    assert(seq![id].drop_last() =~= Seq::<u32>::empty());
    assert(with_item_intrinsics(t2, m, Seq::<u32>::empty(), v) == t2);
}

/// `new` is `old` with only the intrinsic table changed, to `t`.
pub open spec fn intrinsics_now(old: You, new: You, t: Seq<bool>) -> bool {
    &&& new == (You { properties: new.properties, ..old })
    &&& new.properties.wf()
    &&& new.properties.intrinsic@ == t
    &&& new.properties.timeout@ == old.properties.timeout@
}

/// Set each of the properties `ps` to `v` in the hero's intrinsic table.
fn set_intrinsics(player: &mut You, ps: &Vec<Property>, v: bool)
    requires
        old(player).wf(),
    ensures
        intrinsics_now(*old(player), *final(player), with_intrinsics(old(player).properties.intrinsic@, ps@, v)),
{
    let mut i: usize = 0;
    while i < ps.len()
        invariant
            i <= ps@.len(),
            intrinsics_now(*old(player), *player, with_intrinsics(old(player).properties.intrinsic@, ps@.take(
                i as int), v)),
        decreases ps@.len() - i,
    {
        proof {
            assert(ps@.take(i as int + 1).drop_last() =~= ps@.take(i as int));
        }
        if v {
            player.properties.grant_intrinsic(ps[i]);
        } else {
            player.properties.revoke_intrinsic(ps[i]);
        }
        i = i + 1;
    }
    proof {
        assert(ps@.take(ps@.len() as int) =~= ps@);
    }
}

impl PropertyBinding {
    /// No bindings.
    pub fn new() -> (b: Self)
        ensures
            table_contents(b.item_properties) == no_bindings(),
    {
        PropertyBinding { item_properties: table_new() }
    }

    /// Bind the properties an item grants, replacing any earlier binding.
    pub fn bind_item_properties(&mut self, object_id: u32, properties: Vec<Property>)
        ensures
            table_contents(final(self).item_properties) == table_contents(old(self).item_properties).insert(
                object_id,
                properties@,
            ),
    {
        table_insert(&mut self.item_properties, object_id, properties);
    }

    /// Make the properties bound to an item intrinsic.
    pub fn apply_item_properties(&self, player: &mut You, object_id: u32)
        requires
            old(player).wf(),
        ensures
            intrinsics_now(*old(player), *final(player), with_item_intrinsics(old(player).properties.intrinsic@,
                table_contents(self.item_properties), seq![object_id], true)),
    {
        self.set_item_properties(player, object_id, true);
    }

    /// Take away the properties bound to an item.
    pub fn remove_item_properties(&self, player: &mut You, object_id: u32)
        requires
            old(player).wf(),
        ensures
            intrinsics_now(*old(player), *final(player), with_item_intrinsics(old(player).properties.intrinsic@,
                table_contents(self.item_properties), seq![object_id], false)),
    {
        self.set_item_properties(player, object_id, false);
    }

    /// Set the properties bound to an item to `v`.
    fn set_item_properties(&self, player: &mut You, object_id: u32, v: bool)
        requires
            old(player).wf(),
        ensures
            intrinsics_now(*old(player), *final(player), with_item_intrinsics(old(player).properties.intrinsic@,
                table_contents(self.item_properties), seq![object_id], v)),
    {
        let ghost m = table_contents(self.item_properties);
        proof {
            let t = old(player).properties.intrinsic@;
            assert(seq![object_id].drop_last() =~= Seq::<u32>::empty());
            assert(with_item_intrinsics(t, m, Seq::<u32>::empty(), v) == t);
            assert(with_item_intrinsics(t, m, seq![object_id], v) == (if m.dom().contains(object_id) {
                with_intrinsics(t, m[object_id], v)
            } else {
                t
            }));
        }
        match table_get(&self.item_properties, object_id) {
            Some(properties) => set_intrinsics(player, properties, v),
            None => {},
        }
    }

    /// The properties bound to an item, if it is bound.
    pub fn get_item_properties(&self, object_id: u32) -> (r: Option<&Vec<Property>>)
        ensures
            r is Some <==> table_contents(self.item_properties).dom().contains(object_id),
            r matches Some(v) ==> v@ == table_contents(self.item_properties)[object_id],
    {
        table_get(&self.item_properties, object_id)
    }

    /// Forget an item's binding.
    pub fn unbind_item(&mut self, object_id: u32)
        ensures
            table_contents(final(self).item_properties) == table_contents(old(self).item_properties).remove(
                object_id,
            ),
    {
        table_remove(&mut self.item_properties, object_id);
    }

    /// How many items are bound.
    pub fn count_bound_items(&self) -> (n: usize)
        ensures
            n == table_contents(self.item_properties).len(),
    {
        table_len(&self.item_properties)
    }

    /// Whether an item is bound.
    pub fn is_bound(&self, object_id: u32) -> (r: bool)
        ensures
            r == table_contents(self.item_properties).dom().contains(object_id),
    {
        table_contains(&self.item_properties, object_id)
    }
}

/// The properties an item grants by itself: an amulet with positive
/// enchantment protects, and so does blessed armor.
pub open spec fn item_properties_of(obj: Object) -> Seq<Property> {
    (if obj.class == ObjectClass::Amulet && obj.enchantment > 0 { seq![Property::Protection] } else {
        Seq::empty() }) + (if obj.buc == BucStatus::Blessed && obj.class == ObjectClass::Armor {
        seq![Property::Protection]
    } else {
        Seq::empty()
    })
}

/// The properties an item grants by itself.
pub fn determine_item_properties(obj: &Object) -> (v: Vec<Property>)
    ensures
        v@ == item_properties_of(*obj),
{
    let mut properties: Vec<Property> = Vec::new();
    if matches!(obj.class, ObjectClass::Amulet) {
        if obj.enchantment > 0 {
            properties.push(Property::Protection);
        }
    }
    if obj.is_blessed() {
        match obj.class {
            ObjectClass::Armor => {
                properties.push(Property::Protection);
            },
            _ => {},
        }
    }
    assert(properties@ =~= item_properties_of(*obj));
    properties
}

/// Set the properties bound to each of the items to `v`, item by item.
fn set_all_item_properties(player: &mut You, bindings: &PropertyBinding, equipped_items: &[u32], v: bool)
    requires
        old(player).wf(),
    ensures
        intrinsics_now(*old(player), *final(player), with_item_intrinsics(old(player).properties.intrinsic@,
            table_contents(bindings.item_properties), equipped_items@, v)),
{
    let ghost m = table_contents(bindings.item_properties);
    let mut i: usize = 0;
    while i < equipped_items.len()
        invariant
            i <= equipped_items@.len(),
            m == table_contents(bindings.item_properties),
            intrinsics_now(*old(player), *player, with_item_intrinsics(old(player).properties.intrinsic@, m,
                equipped_items@.take(i as int), v)),
        decreases equipped_items@.len() - i,
    {
        let id = equipped_items[i];
        proof {
            assert(equipped_items@.take(i as int + 1) =~= equipped_items@.take(i as int).push(id));
            lemma_item_step(old(player).properties.intrinsic@, m, equipped_items@.take(i as int), id, v);
        }
        bindings.set_item_properties(player, id, v);
        i = i + 1;
    }
    proof {
        assert(equipped_items@.take(equipped_items@.len() as int) =~= equipped_items@);
    }
}

/// Make the properties of every equipped item intrinsic.
pub fn apply_all_equipment_properties(player: &mut You, bindings: &PropertyBinding, equipped_items: &[u32])
    requires
        old(player).wf(),
    ensures
        intrinsics_now(*old(player), *final(player), with_item_intrinsics(old(player).properties.intrinsic@,
            table_contents(bindings.item_properties), equipped_items@, true)),
{
    set_all_item_properties(player, bindings, equipped_items, true);
}

/// Take away the properties of every equipped item.
pub fn remove_all_equipment_properties(player: &mut You, bindings: &PropertyBinding, equipped_items: &[u32])
    requires
        old(player).wf(),
    ensures
        intrinsics_now(*old(player), *final(player), with_item_intrinsics(old(player).properties.intrinsic@,
            table_contents(bindings.item_properties), equipped_items@, false)),
{
    set_all_item_properties(player, bindings, equipped_items, false);
}

/// The items of `a` that are not in `b`, in order.
pub open spec fn not_in(a: Seq<u32>, b: Seq<u32>) -> Seq<u32>
    decreases a.len(),
{
    if a.len() == 0 {
        a
    } else if b.contains(a.last()) {
        not_in(a.drop_last(), b)
    } else {
        not_in(a.drop_last(), b).push(a.last())
    }
}

/// Whether `id` is one of `ids`.
fn slice_contains(ids: &[u32], id: u32) -> (r: bool)
    ensures
        r == ids@.contains(id),
{
    let mut i: usize = 0;
    while i < ids.len()
        invariant
            i <= ids@.len(),
            forall|j: int| 0 <= j < i ==> ids@[j] != id,
        decreases ids@.len() - i,
    {
        if ids[i] == id {
            assert(ids@[i as int] == id);
            return true;
        }
        i = i + 1;
    }
    false
}

/// Set the properties bound to each item of `ids` not in `others` to `v`.
fn set_changed_item_properties(player: &mut You, bindings: &PropertyBinding, ids: &[u32], others: &[u32], v: bool)
    requires
        old(player).wf(),
    ensures
        intrinsics_now(*old(player), *final(player), with_item_intrinsics(old(player).properties.intrinsic@,
            table_contents(bindings.item_properties), not_in(ids@, others@), v)),
{
    let ghost m = table_contents(bindings.item_properties);
    let mut i: usize = 0;
    while i < ids.len()
        invariant
            i <= ids@.len(),
            m == table_contents(bindings.item_properties),
            intrinsics_now(*old(player), *player, with_item_intrinsics(old(player).properties.intrinsic@, m, not_in(
                ids@.take(i as int), others@), v)),
        decreases ids@.len() - i,
    {
        let id = ids[i];
        let ghost done = not_in(ids@.take(i as int), others@);
        proof {
            assert(ids@.take(i as int + 1).drop_last() =~= ids@.take(i as int));
        }
        if !slice_contains(others, id) {
            proof {
                lemma_item_step(old(player).properties.intrinsic@, m, done, id, v);
            }
            bindings.set_item_properties(player, id, v);
        }
        i = i + 1;
    }
    proof {
        assert(ids@.take(ids@.len() as int) =~= ids@);
    }
}

/// Change equipment: take away the properties of items no longer equipped,
/// then grant those of items newly equipped.
pub fn refresh_all_properties(player: &mut You, bindings: &PropertyBinding, old_equipped: &[u32], new_equipped: &[u32])
    requires
        old(player).wf(),
    ensures
        intrinsics_now(*old(player), *final(player), with_item_intrinsics(with_item_intrinsics(
            old(player).properties.intrinsic@,
            table_contents(bindings.item_properties),
            not_in(old_equipped@, new_equipped@),
            false,
        ), table_contents(bindings.item_properties), not_in(new_equipped@, old_equipped@), true)),
{
    set_changed_item_properties(player, bindings, old_equipped, new_equipped, false);
    set_changed_item_properties(player, bindings, new_equipped, old_equipped, true);
}

/// Whether a property granted again takes effect: invisibility and
/// levitation do not stack with an intrinsic one; the others do.
pub open spec fn applies_again(p: PropertySet, q: Property) -> bool {
    if q == Property::Invisibility || q == Property::Levitation { !p.is_intrinsic(q) } else { true }
}

/// Whether granting a property takes effect.
pub fn should_apply_property(player: &You, property: Property) -> (r: bool)
    requires
        player.wf(),
    ensures
        r == applies_again(player.properties, property),
{
    match property {
        Property::Invisibility => !player.properties.has_intrinsic(Property::Invisibility),
        Property::Levitation => !player.properties.has_intrinsic(Property::Levitation),
        _ => true,
    }
}

/// The number of the items `ids` whose bound properties include `q`.
pub open spec fn granting_count(m: Map<u32, Seq<Property>>, q: Property, ids: Seq<u32>) -> nat
    decreases ids.len(),
{
    if ids.len() == 0 {
        0
    } else {
        granting_count(m, q, ids.drop_last()) + (if m.dom().contains(ids.last()) && m[ids.last()].contains(q) {
            1nat
        } else {
            0
        })
    }
}

/// Whether `q` is one of `ps`.
fn has_property(ps: &Vec<Property>, q: Property) -> (r: bool)
    ensures
        r == ps@.contains(q),
{
    let mut i: usize = 0;
    while i < ps.len()
        invariant
            i <= ps@.len(),
            forall|j: int| 0 <= j < i ==> ps@[j] != q,
        decreases ps@.len() - i,
    {
        if ps[i] == q {
            assert(ps@[i as int] == q);
            return true;
        }
        i = i + 1;
    }
    false
}

/// How many equipped items grant a property.
pub fn calculate_property_bonus(bindings: &PropertyBinding, property: Property, equipped_items: &[u32]) -> (n: i32)
    requires
        equipped_items@.len() <= i32::MAX,
    ensures
        n == granting_count(table_contents(bindings.item_properties), property, equipped_items@),
{
    let ghost m = table_contents(bindings.item_properties);
    let mut count: i32 = 0;
    let mut i: usize = 0;
    while i < equipped_items.len()
        invariant
            i <= equipped_items@.len(),
            equipped_items@.len() <= i32::MAX,
            m == table_contents(bindings.item_properties),
            count == granting_count(m, property, equipped_items@.take(i as int)),
            count <= i,
        decreases equipped_items@.len() - i,
    {
        proof {
            assert(equipped_items@.take(i as int + 1).drop_last() =~= equipped_items@.take(i as int));
        }
        if let Some(properties) = bindings.get_item_properties(equipped_items[i]) {
            if has_property(properties, property) {
                count = count + 1;
            }
        }
        i = i + 1;
    }
    proof {
        assert(equipped_items@.take(equipped_items@.len() as int) =~= equipped_items@);
    }
    count
}

/// Whether the source of a property is tracked: the resistances to fire,
/// cold and poison, protection, regeneration and levitation.
pub open spec fn tracked_source(q: Property) -> bool {
    q == Property::FireResistance || q == Property::ColdResistance || q == Property::PoisonResistance || q
        == Property::Protection || q == Property::Regeneration || q == Property::Levitation
}

/// Whether the source of a property is tracked.
pub fn should_track_property_source(property: Property) -> (r: bool)
    ensures
        r == tracked_source(property),
{
    matches!(property, Property::FireResistance | Property::ColdResistance | Property::PoisonResistance
        | Property::Protection | Property::Regeneration | Property::Levitation)
}

/// Reading an item's binding right after binding it gives back the
/// properties bound; after unbinding, the item is no longer bound, and the
/// other items keep their bindings.
pub proof fn lemma_bind_then_lookup(m: Map<u32, Seq<Property>>, id: u32, ps: Seq<Property>, other: u32)
    requires
        other != id,
    ensures
        m.insert(id, ps).dom().contains(id),
        m.insert(id, ps)[id] == ps,
        !m.insert(id, ps).remove(id).dom().contains(id),
        m.insert(id, ps).remove(id).dom().contains(other) == m.dom().contains(other),
        m.dom().contains(other) ==> m.insert(id, ps).remove(id)[other] == m[other],
{
}

/// Whether one of the properties `ps` sits at index `k` of the table.
pub open spec fn names_index(ps: Seq<Property>, k: int) -> bool {
    exists|j: int| 0 <= j < ps.len() && prop_index(#[trigger] ps[j]) == k
}

/// Setting properties `ps` to `v` sets exactly their entries and keeps the
/// table's length.
proof fn lemma_with_intrinsics_at(t: Seq<bool>, ps: Seq<Property>, v: bool)
    requires
        t.len() == crate::player::NPROPS,
    ensures
        with_intrinsics(t, ps, v).len() == t.len(),
        forall|k: int| 0 <= k < t.len() ==> #[trigger] with_intrinsics(t, ps, v)[k] == (if names_index(ps, k) {
            v
        } else {
            t[k]
        }),
    decreases ps.len(),
{
    if ps.len() > 0 {
        let rest = ps.drop_last();
        let q = ps.last();
        lemma_with_intrinsics_at(t, rest, v);
        assert(0 <= prop_index(q) < crate::player::NPROPS);
        assert forall|k: int| 0 <= k < t.len() implies #[trigger] with_intrinsics(t, ps, v)[k] == (if names_index(ps,
            k) {
            v
        } else {
            t[k]
        }) by {
            if names_index(rest, k) {
                let j = choose|j: int| 0 <= j < rest.len() && prop_index(#[trigger] rest[j]) == k;
                assert(ps[j] == rest[j]);
            }
            if names_index(ps, k) && !names_index(rest, k) {
                let j = choose|j: int| 0 <= j < ps.len() && prop_index(#[trigger] ps[j]) == k;
                if j < ps.len() - 1 {
                    assert(rest[j] == ps[j]);
                }
            }
            if prop_index(q) == k {
                assert(prop_index(ps[ps.len() - 1]) == k);
            }
        }
    }
}

/// Taking away the properties `ps` after granting them is the same as
/// taking them away alone: each ends not intrinsic, and every other entry
/// is as before.
pub proof fn lemma_remove_after_apply(t: Seq<bool>, ps: Seq<Property>)
    requires
        t.len() == crate::player::NPROPS,
    ensures
        with_intrinsics(with_intrinsics(t, ps, true), ps, false) == with_intrinsics(t, ps, false),
{
    let granted = with_intrinsics(t, ps, true);
    lemma_with_intrinsics_at(t, ps, true);
    lemma_with_intrinsics_at(granted, ps, false);
    lemma_with_intrinsics_at(t, ps, false);
    assert(with_intrinsics(granted, ps, false) =~= with_intrinsics(t, ps, false));
}

} // verus!
