//! Spell components: the material reagents that some spells consume, an
//! inventory of them, and the check and consumption made when casting.

use vstd::prelude::*;
use vstd::string::*;
use crate::text::{str_eq, int_str, push_int};

verus! {

/// Spell component types.
#[derive(Debug, Clone, Copy, PartialEq, Eq, Hash, Structural)]
pub enum ComponentType {
    PhilotreesLeaf,
    ToadStool,
    PowderedCorpse,
    DiamondDust,
    FlamingCoal,
    FrozenWater,
    SilverDust,
    HerbOfHealing,
    MoonStonePowder,
    SulfurousDust,
}

/// Display name of a component.
pub open spec fn component_name(c: ComponentType) -> Seq<char> {
    match c {
        ComponentType::PhilotreesLeaf => "leaf of philotrees"@,
        ComponentType::ToadStool => "powdered toadstool"@,
        ComponentType::PowderedCorpse => "powdered corpse"@,
        ComponentType::DiamondDust => "diamond dust"@,
        ComponentType::FlamingCoal => "flaming coal"@,
        ComponentType::FrozenWater => "frozen water"@,
        ComponentType::SilverDust => "silver dust"@,
        ComponentType::HerbOfHealing => "herb of healing"@,
        ComponentType::MoonStonePowder => "moonstone powder"@,
        ComponentType::SulfurousDust => "sulfurous dust"@,
    }
}

/// Units of a component used up per casting.
pub open spec fn component_cost(c: ComponentType) -> int {
    match c {
        ComponentType::DiamondDust | ComponentType::MoonStonePowder => 2,
        _ => 1,
    }
}

impl ComponentType {
    /// Get the component's name.
    pub fn name(&self) -> (s: &'static str)
        ensures
            s@ == component_name(*self),
    {
        match self {
            ComponentType::PhilotreesLeaf => "leaf of philotrees",
            ComponentType::ToadStool => "powdered toadstool",
            ComponentType::PowderedCorpse => "powdered corpse",
            ComponentType::DiamondDust => "diamond dust",
            ComponentType::FlamingCoal => "flaming coal",
            ComponentType::FrozenWater => "frozen water",
            ComponentType::SilverDust => "silver dust",
            ComponentType::HerbOfHealing => "herb of healing",
            ComponentType::MoonStonePowder => "moonstone powder",
            ComponentType::SulfurousDust => "sulfurous dust",
        }
    }

    /// Get the component's cost per use.
    pub fn cost(&self) -> (c: i32)
        ensures
            c == component_cost(*self),
    {
        match self {
            ComponentType::DiamondDust => 2,
            ComponentType::MoonStonePowder => 2,
            _ => 1,
        }
    }
}

/// The map that a list of `(component, count)` entries stands for.
pub open spec fn map_of(s: Seq<(ComponentType, i32)>) -> Map<ComponentType, i32>
    decreases s.len(),
{
    if s.len() == 0 {
        Map::empty()
    } else {
        map_of(s.drop_last()).insert(s.last().0, s.last().1)
    }
}

/// No component appears in two entries.
pub open spec fn distinct_keys(s: Seq<(ComponentType, i32)>) -> bool {
    forall|i: int, j: int| 0 <= i < j < s.len() ==> s[i].0 != s[j].0
}

/// How many of component `t` a map records (0 when absent).
pub open spec fn count_of(m: Map<ComponentType, i32>, t: ComponentType) -> int {
    if m.contains_key(t) { m[t] as int } else { 0 }
}

proof fn lemma_map_of_index(s: Seq<(ComponentType, i32)>, i: int)
    requires
        distinct_keys(s),
        0 <= i < s.len(),
    ensures
        map_of(s).contains_key(s[i].0),
        map_of(s)[s[i].0] == s[i].1,
    decreases s.len(),
{
    if i < s.len() - 1 {
        lemma_map_of_index(s.drop_last(), i);
    }
}

proof fn lemma_map_of_absent(s: Seq<(ComponentType, i32)>, t: ComponentType)
    requires
        forall|i: int| 0 <= i < s.len() ==> s[i].0 != t,
    ensures
        !map_of(s).contains_key(t),
    decreases s.len(),
{
    if s.len() > 0 {
        lemma_map_of_absent(s.drop_last(), t);
    }
}

proof fn lemma_map_of_update(s: Seq<(ComponentType, i32)>, i: int, v: i32)
    requires
        distinct_keys(s),
        0 <= i < s.len(),
    ensures
        map_of(s.update(i, (s[i].0, v))) == map_of(s).insert(s[i].0, v),
    decreases s.len(),
{
    let u = s.update(i, (s[i].0, v));
    if i == s.len() - 1 {
        assert(u.drop_last() =~= s.drop_last());
        assert(map_of(u) =~= map_of(s).insert(s[i].0, v));
    } else {
        assert(u.drop_last() =~= s.drop_last().update(i, (s[i].0, v)));
        lemma_map_of_update(s.drop_last(), i, v);
        assert(map_of(u) =~= map_of(s).insert(s[i].0, v));
    }
}

/// Inventory of spell components, one entry per component held.
#[derive(Debug, Clone)]
pub struct ComponentInventory {
    /// `(component, count)` entries in the order the components were first added.
    pub components: Vec<(ComponentType, i32)>,
}

impl View for ComponentInventory {
    type V = Map<ComponentType, i32>;

    open spec fn view(&self) -> Map<ComponentType, i32> {
        map_of(self.components@)
    }
}

impl ComponentInventory {
    /// No component has two entries.
    pub open spec fn wf(&self) -> bool {
        distinct_keys(self.components@)
    }

    /// How many of component `t` are held.
    pub open spec fn count(&self, t: ComponentType) -> int {
        count_of(self@, t)
    }

    /// An empty inventory.
    pub fn new() -> (inv: Self)
        ensures
            inv.wf(),
            inv@ == Map::<ComponentType, i32>::empty(),
            inv.components@.len() == 0,
    {
        ComponentInventory { components: Vec::new() }
    }

    /// Position of the entry for `t`.
    fn find(&self, t: ComponentType) -> (r: Option<usize>)
        requires
            self.wf(),
        ensures
            r matches Some(i) ==> i < self.components@.len() && self.components@[i as int].0 == t,
            r is None ==> forall|i: int| 0 <= i < self.components@.len() ==> self.components@[i].0 != t,
    {
        let mut i: usize = 0;
        while i < self.components.len()
            invariant
                i <= self.components@.len(),
                forall|j: int| 0 <= j < i ==> self.components@[j].0 != t,
            decreases self.components@.len() - i,
        {
            if self.components[i].0 == t {
                return Some(i);
            }
            i = i + 1;
        }
        None
    }

    /// Check that at least the given amount of each listed component is held.
    pub fn has_components(&self, required: &[(ComponentType, i32)]) -> (r: bool)
        requires
            self.wf(),
        ensures
            r == forall|i: int| 0 <= i < required@.len() ==> self.count(#[trigger] required@[i].0) >= required@[i].1,
    {
        let mut i: usize = 0;
        while i < required.len()
            invariant
                self.wf(),
                i <= required@.len(),
                forall|j: int| 0 <= j < i ==> self.count(#[trigger] required@[j].0) >= required@[j].1,
            decreases required@.len() - i,
        {
            let (t, amount) = required[i];
            if self.get_component_count(t) < amount {
                return false;
            }
            i = i + 1;
        }
        true
    }

    /// How many of a component are held.
    pub fn get_component_count(&self, comp_type: ComponentType) -> (n: i32)
        requires
            self.wf(),
        ensures
            n == self.count(comp_type),
    {
        match self.find(comp_type) {
            Some(i) => {
                proof {
                    lemma_map_of_index(self.components@, i as int);
                }
                self.components[i].1
            },
            None => {
                proof {
                    lemma_map_of_absent(self.components@, comp_type);
                }
                0
            },
        }
    }

    /// Set the count of `t`, adding an entry for it if it has none.
    fn set_count(&mut self, t: ComponentType, n: i32)
        requires
            old(self).wf(),
        ensures
            final(self).wf(),
            final(self)@ == old(self)@.insert(t, n),
            old(self)@.contains_key(t) ==> final(self).components@.len() == old(self).components@.len(),
            !old(self)@.contains_key(t) ==> final(self).components@ == old(self).components@.push((t, n)),
    {
        match self.find(t) {
            Some(i) => {
                proof {
                    lemma_map_of_index(self.components@, i as int);
                    lemma_map_of_update(self.components@, i as int, n);
                }
                self.components.set(i, (t, n));
            },
            None => {
                proof {
                    lemma_map_of_absent(self.components@, t);
                }
                self.components.push((t, n));
                proof {
                    assert(self.components@.drop_last() =~= old(self).components@);
                }
            },
        }
    }

    /// Add `amount` of a component.
    pub fn add_component(&mut self, comp_type: ComponentType, amount: i32)
        requires
            old(self).wf(),
            i32::MIN <= old(self).count(comp_type) + amount <= i32::MAX,
        ensures
            final(self).wf(),
            final(self)@ == old(self)@.insert(comp_type, (old(self).count(comp_type) + amount) as i32),
    {
        let current = self.get_component_count(comp_type);
        self.set_count(comp_type, current + amount);
    }

    /// Remove `amount` of a component if at least that many are held; report
    /// whether it was done.
    pub fn remove_components(&mut self, comp_type: ComponentType, amount: i32) -> (r: bool)
        requires
            old(self).wf(),
            old(self).count(comp_type) >= amount ==> old(self).count(comp_type) - amount <= i32::MAX,
        ensures
            final(self).wf(),
            r == (old(self).count(comp_type) >= amount),
            r ==> final(self)@ == old(self)@.insert(comp_type, (old(self).count(comp_type) - amount) as i32),
            !r ==> *final(self) == *old(self),
    {
        let current = self.get_component_count(comp_type);
        if current >= amount {
            self.set_count(comp_type, current - amount);
            true
        } else {
            false
        }
    }

    /// The components held, with their counts.
    pub fn list_available(&self) -> (v: Vec<(ComponentType, i32)>)
        requires
            self.wf(),
        ensures
            v@ == self.components@,
            map_of(v@) == self@,
            v@.len() == self@.dom().len(),
    {
        proof {
            lemma_map_of_len(self.components@);
        }
        let mut v: Vec<(ComponentType, i32)> = Vec::new();
        let mut i: usize = 0;
        while i < self.components.len()
            invariant
                i <= self.components@.len(),
                v@ == self.components@.take(i as int),
            decreases self.components@.len() - i,
        {
            v.push(self.components[i]);
            proof {
                assert(self.components@.take(i + 1) =~= self.components@.take(i as int).push(self.components@[i as int]));
            }
            i = i + 1;
        }
        proof {
            assert(self.components@.take(self.components@.len() as int) =~= self.components@);
        }
        v
    }
}

proof fn lemma_map_of_len(s: Seq<(ComponentType, i32)>)
    requires
        distinct_keys(s),
    ensures
        map_of(s).dom().finite(),
        map_of(s).dom().len() == s.len(),
    decreases s.len(),
{
    if s.len() > 0 {
        lemma_map_of_len(s.drop_last());
        lemma_map_of_absent(s.drop_last(), s.last().0);
    }
}

impl Default for ComponentInventory {
    fn default() -> (inv: Self)
        ensures
            inv.wf(),
            inv@ == Map::<ComponentType, i32>::empty(),
    {
        Self::new()
    }
}

/// One component a spell needs.
#[derive(Debug, Clone, Copy)]
pub struct SpellRequirement {
    pub component_type: ComponentType,
    pub amount: i32,
    /// Whether the component is used up by the casting.
    pub consumed: bool,
}

/// A requirement of one unit of `c`, used up by the casting.
pub open spec fn one_of(c: ComponentType) -> SpellRequirement {
    SpellRequirement { component_type: c, amount: 1, consumed: true }
}

/// The components a spell needs, by the spell's name.
pub open spec fn spell_requirements(name: Seq<char>) -> Seq<SpellRequirement> {
    if name == "force_bolt"@ {
        seq![one_of(ComponentType::SulfurousDust)]
    } else if name == "fireball"@ {
        seq![one_of(ComponentType::FlamingCoal), one_of(ComponentType::SulfurousDust)]
    } else if name == "cone_of_cold"@ {
        seq![one_of(ComponentType::FrozenWater)]
    } else if name == "healing"@ {
        seq![one_of(ComponentType::HerbOfHealing)]
    } else if name == "invisibility"@ {
        seq![one_of(ComponentType::PhilotreesLeaf)]
    } else if name == "levitation"@ {
        seq![one_of(ComponentType::MoonStonePowder)]
    } else if name == "teleport_away"@ {
        seq![one_of(ComponentType::DiamondDust)]
    } else if name == "turn_undead"@ {
        seq![one_of(ComponentType::SilverDust)]
    } else {
        seq![]
    }
}

fn one_requirement(c: ComponentType) -> (v: Vec<SpellRequirement>)
    ensures
        v@ == seq![one_of(c)],
{
    let mut v = Vec::new();
    v.push(SpellRequirement { component_type: c, amount: 1, consumed: true });
    assert(v@ =~= seq![one_of(c)]);
    v
}

/// Get the components required for a spell (none for a spell not listed).
pub fn get_spell_components(spell_name: &str) -> (v: Vec<SpellRequirement>)
    ensures
        v@ == spell_requirements(spell_name@),
{
    if str_eq(spell_name, "force_bolt") {
        one_requirement(ComponentType::SulfurousDust)
    } else if str_eq(spell_name, "fireball") {
        let mut v = one_requirement(ComponentType::FlamingCoal);
        v.push(SpellRequirement { component_type: ComponentType::SulfurousDust, amount: 1, consumed: true });
        assert(v@ =~= seq![one_of(ComponentType::FlamingCoal), one_of(ComponentType::SulfurousDust)]);
        v
    } else if str_eq(spell_name, "cone_of_cold") {
        one_requirement(ComponentType::FrozenWater)
    } else if str_eq(spell_name, "healing") {
        one_requirement(ComponentType::HerbOfHealing)
    } else if str_eq(spell_name, "invisibility") {
        one_requirement(ComponentType::PhilotreesLeaf)
    } else if str_eq(spell_name, "levitation") {
        one_requirement(ComponentType::MoonStonePowder)
    } else if str_eq(spell_name, "teleport_away") {
        one_requirement(ComponentType::DiamondDust)
    } else if str_eq(spell_name, "turn_undead") {
        one_requirement(ComponentType::SilverDust)
    } else {
        let v: Vec<SpellRequirement> = Vec::new();
        assert(v@ =~= seq![]);
        v
    }
}

/// The `(component, amount)` pairs of a list of requirements.
pub open spec fn needed_pairs(reqs: Seq<SpellRequirement>) -> Seq<(ComponentType, i32)> {
    reqs.map_values(|r: SpellRequirement| (r.component_type, r.amount))
}

/// Check whether a spell can be cast with the components held; also returns
/// what the spell needs.
pub fn can_cast_with_components(inventory: &ComponentInventory, spell_name: &str)
    -> (r: (bool, Vec<(ComponentType, i32)>))
    requires
        inventory.wf(),
    ensures
        r.1@ == needed_pairs(spell_requirements(spell_name@)),
        r.0 == forall|i: int| 0 <= i < r.1@.len() ==> inventory.count(#[trigger] r.1@[i].0) >= r.1@[i].1,
{
    let requirements = get_spell_components(spell_name);
    let mut needed: Vec<(ComponentType, i32)> = Vec::new();
    let mut i: usize = 0;
    while i < requirements.len()
        invariant
            i <= requirements@.len(),
            needed@ == needed_pairs(requirements@.take(i as int)),
        decreases requirements@.len() - i,
    {
        let r = requirements[i];
        needed.push((r.component_type, r.amount));
        proof {
            assert(requirements@.take(i + 1) =~= requirements@.take(i as int).push(r));
            assert(needed@ =~= needed_pairs(requirements@.take(i + 1)));
        }
        i = i + 1;
    }
    proof {
        assert(requirements@.take(requirements@.len() as int) =~= requirements@);
    }
    let sl = needed.as_slice();
    let can_cast = inventory.has_components(sl);
    proof {
        assert(sl@ == needed@);
        if !can_cast {
            let k = choose|k: int| 0 <= k < sl@.len() && !(inventory.count(#[trigger] sl@[k].0) >= sl@[k].1);
            assert(!(inventory.count(needed@[k].0) >= needed@[k].1));
        }
    }
    (can_cast, needed)
}

/// Outcome of using up the requirements in order from the inventory `m`:
/// whether all were available, and the inventory afterwards. A requirement
/// that is missing stops the consumption; what was used up before stays used.
pub open spec fn consume_steps(m: Map<ComponentType, i32>, reqs: Seq<SpellRequirement>)
    -> (bool, Map<ComponentType, i32>)
    decreases reqs.len(),
{
    if reqs.len() == 0 {
        (true, m)
    } else {
        let r = reqs[0];
        if !r.consumed {
            consume_steps(m, reqs.drop_first())
        } else if count_of(m, r.component_type) >= r.amount {
            consume_steps(m.insert(r.component_type, (count_of(m, r.component_type) - r.amount) as i32),
                reqs.drop_first())
        } else {
            (false, m)
        }
    }
}

/// Use up the components a spell consumes; false when one is missing.
pub fn consume_spell_components(inventory: &mut ComponentInventory, spell_name: &str) -> (r: bool)
    requires
        old(inventory).wf(),
    ensures
        final(inventory).wf(),
        (r, final(inventory)@) == consume_steps(old(inventory)@, spell_requirements(spell_name@)),
{
    let requirements = get_spell_components(spell_name);
    let ghost reqs = requirements@;
    assert forall|k: int| 0 <= k < reqs.len() implies #[trigger] reqs[k].amount == 1 by {}
    assert(reqs.skip(0) =~= reqs);
    let mut i: usize = 0;
    while i < requirements.len()
        invariant
            inventory.wf(),
            reqs == requirements@,
            reqs == spell_requirements(spell_name@),
            forall|k: int| 0 <= k < reqs.len() ==> #[trigger] reqs[k].amount == 1,
            i <= reqs.len(),
            consume_steps(old(inventory)@, reqs) == consume_steps(inventory@, reqs.skip(i as int)),
        decreases reqs.len() - i,
    {
        let req = requirements[i];
        proof {
            assert(reqs.skip(i as int)[0] == req);
            assert(reqs.skip(i as int).drop_first() =~= reqs.skip(i + 1));
        }
        if req.consumed {
            let ghost before = inventory@;
            if !inventory.remove_components(req.component_type, req.amount) {
                proof {
                    assert(consume_steps(before, reqs.skip(i as int)) == (false, before));
                }
                return false;
            }
        }
        i = i + 1;
    }
    proof {
        assert(reqs.skip(reqs.len() as int) =~= Seq::<SpellRequirement>::empty());
    }
    true
}

/// `amount name` for one needed component.
pub open spec fn needed_item(e: (ComponentType, i32)) -> Seq<char> {
    int_str(e.1 as int) + " "@ + component_name(e.0)
}

/// The needed components, separated by commas.
pub open spec fn needed_list(s: Seq<(ComponentType, i32)>) -> Seq<char>
    decreases s.len(),
{
    if s.len() == 0 {
        Seq::empty()
    } else if s.len() == 1 {
        needed_item(s[0])
    } else {
        needed_list(s.drop_last()) + ", "@ + needed_item(s.last())
    }
}

/// The message telling which components a spell still needs.
pub open spec fn missing_message(needed: Seq<(ComponentType, i32)>) -> Seq<char> {
    if needed.len() == 0 {
        "You lack the necessary components for this spell."@
    } else {
        "You need: "@ + needed_list(needed)
    }
}

/// Get the message for missing components.
pub fn missing_component_message(needed: &[(ComponentType, i32)]) -> (s: String)
    ensures
        s@ == missing_message(needed@),
{
    if needed.len() == 0 {
        return String::from_str("You lack the necessary components for this spell.");
    }
    let mut s = String::from_str("You need: ");
    let mut i: usize = 0;
    while i < needed.len()
        invariant
            needed@.len() > 0,
            i <= needed@.len(),
            s@ == "You need: "@ + needed_list(needed@.take(i as int)),
        decreases needed@.len() - i,
    {
        let (t, amount) = needed[i];
        let ghost before = s@;
        if i > 0 {
            s.append(", ");
        }
        push_int(&mut s, amount as i64);
        s.append(" ");
        s.append(t.name());
        proof {
            let p = needed@.take(i + 1);
            assert(p.drop_last() =~= needed@.take(i as int));
            assert(p.last() == (t, amount));
            if i == 0 {
                assert(needed@.take(0) =~= Seq::<(ComponentType, i32)>::empty());
                assert(s@ =~= "You need: "@ + needed_list(p));
            } else {
                assert(s@ =~= "You need: "@ + needed_list(p));
            }
        }
        i = i + 1;
    }
    proof {
        assert(needed@.take(needed@.len() as int) =~= needed@);
    }
    s
}

/// Adding some of a component and then removing as many gives back the
/// counts held before, of that component and of every other.
pub proof fn lemma_add_then_remove(m: Map<ComponentType, i32>, t: ComponentType, amount: i32)
    requires
        count_of(m, t) >= 0,
        i32::MIN <= count_of(m, t) + amount <= i32::MAX,
    ensures
        ({
            let added = m.insert(t, (count_of(m, t) + amount) as i32);
            &&& count_of(added, t) >= amount
            &&& forall|u: ComponentType| #[trigger] count_of(added.insert(t, (count_of(added, t) - amount) as i32), u)
                == count_of(m, u)
        }),
{
}

} // verus!
