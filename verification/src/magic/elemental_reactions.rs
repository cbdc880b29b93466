//! Elemental reactions: elements meeting on the same spot amplify, cancel,
//! transform or explode, and hazards they leave behind.

use vstd::prelude::*;

verus! {

/// Elements.
#[derive(Debug, Clone, Copy, PartialEq, Eq, Hash, Structural)]
pub enum ElementType {
    Fire,
    Cold,
    Lightning,
    Acid,
    Poison,
    Force,
    Necrotic,
    Radiant,
    Water,
}

/// Every element, in order.
pub open spec fn all_elements() -> Seq<ElementType> {
    seq![
        ElementType::Fire,
        ElementType::Cold,
        ElementType::Lightning,
        ElementType::Acid,
        ElementType::Poison,
        ElementType::Force,
        ElementType::Necrotic,
        ElementType::Radiant,
        ElementType::Water,
    ]
}

/// The name of an element.
pub open spec fn element_name(e: ElementType) -> Seq<char> {
    match e {
        ElementType::Fire => "fire"@,
        ElementType::Cold => "cold"@,
        ElementType::Lightning => "lightning"@,
        ElementType::Acid => "acid"@,
        ElementType::Poison => "poison"@,
        ElementType::Force => "force"@,
        ElementType::Necrotic => "necrotic"@,
        ElementType::Radiant => "radiant"@,
        ElementType::Water => "water"@,
    }
}

impl ElementType {
    /// Every element, in order.
    pub fn all() -> (v: Vec<ElementType>)
        ensures
            v@ == all_elements(),
    {
        let v = vec![
            ElementType::Fire,
            ElementType::Cold,
            ElementType::Lightning,
            ElementType::Acid,
            ElementType::Poison,
            ElementType::Force,
            ElementType::Necrotic,
            ElementType::Radiant,
            ElementType::Water,
        ];
        assert(v@ =~= all_elements());
        v
    }

    /// The element's name.
    pub fn name(&self) -> (s: &'static str)
        ensures
            s@ == element_name(*self),
    {
        match self {
            ElementType::Fire => "fire",
            ElementType::Cold => "cold",
            ElementType::Lightning => "lightning",
            ElementType::Acid => "acid",
            ElementType::Poison => "poison",
            ElementType::Force => "force",
            ElementType::Necrotic => "necrotic",
            ElementType::Radiant => "radiant",
            ElementType::Water => "water",
        }
    }
}

/// Kinds of reactions.
#[derive(Debug, Clone, Copy, PartialEq, Eq, Structural)]
pub enum ReactionType {
    Amplification,
    Cancellation,
    Transformation,
    Explosion,
    ChainReaction,
}

/// The name of a kind of reaction.
pub open spec fn reaction_name(r: ReactionType) -> Seq<char> {
    match r {
        ReactionType::Amplification => "amplification"@,
        ReactionType::Cancellation => "cancellation"@,
        ReactionType::Transformation => "transformation"@,
        ReactionType::Explosion => "explosion"@,
        ReactionType::ChainReaction => "chain reaction"@,
    }
}

impl ReactionType {
    /// The name of the kind.
    pub fn name(&self) -> (s: &'static str)
        ensures
            s@ == reaction_name(*self),
    {
        match self {
            ReactionType::Amplification => "amplification",
            ReactionType::Cancellation => "cancellation",
            ReactionType::Transformation => "transformation",
            ReactionType::Explosion => "explosion",
            ReactionType::ChainReaction => "chain reaction",
        }
    }
}

/// A reaction between two elements, with its effect on damage and area in
/// percent (100 leaves them as they were).
#[derive(Debug, Clone, Copy, PartialEq, Eq, Structural)]
pub struct ElementalReaction {
    pub element1: ElementType,
    pub element2: ElementType,
    pub reaction: ReactionType,
    pub damage_percent: i32,
    pub area_percent: i32,
}

/// The known reactions, in order.
pub open spec fn reaction_table() -> Seq<ElementalReaction> {
    seq![
        ElementalReaction { element1: ElementType::Fire, element2: ElementType::Fire,
            reaction: ReactionType::Amplification, damage_percent: 150, area_percent: 125 },
        ElementalReaction { element1: ElementType::Lightning, element2: ElementType::Fire,
            reaction: ReactionType::Amplification, damage_percent: 130, area_percent: 120 },
        ElementalReaction { element1: ElementType::Fire, element2: ElementType::Cold,
            reaction: ReactionType::Cancellation, damage_percent: 0, area_percent: 50 },
        ElementalReaction { element1: ElementType::Fire, element2: ElementType::Acid,
            reaction: ReactionType::Cancellation, damage_percent: 50, area_percent: 70 },
        ElementalReaction { element1: ElementType::Lightning, element2: ElementType::Water,
            reaction: ReactionType::Transformation, damage_percent: 200, area_percent: 100 },
        ElementalReaction { element1: ElementType::Acid, element2: ElementType::Force,
            reaction: ReactionType::Explosion, damage_percent: 250, area_percent: 200 },
        ElementalReaction { element1: ElementType::Lightning, element2: ElementType::Lightning,
            reaction: ReactionType::Explosion, damage_percent: 180, area_percent: 150 },
    ]
}

/// Whether reaction `r` is between elements `a` and `b`, in either order.
pub open spec fn reacts(r: ElementalReaction, a: ElementType, b: ElementType) -> bool {
    (r.element1 == a && r.element2 == b) || (r.element1 == b && r.element2 == a)
}

/// The first reaction of `s` between `a` and `b`, if any.
pub open spec fn first_reaction(s: Seq<ElementalReaction>, a: ElementType, b: ElementType) -> Option<
    ElementalReaction,
>
    decreases s.len(),
{
    if s.len() == 0 {
        None
    } else if reacts(s[0], a, b) {
        Some(s[0])
    } else {
        first_reaction(s.drop_first(), a, b)
    }
}

impl ElementalReaction {
    /// The known reactions, in order.
    pub fn all_reactions() -> (v: Vec<ElementalReaction>)
        ensures
            v@ == reaction_table(),
    {
        let v = vec![
            ElementalReaction { element1: ElementType::Fire, element2: ElementType::Fire,
                reaction: ReactionType::Amplification, damage_percent: 150, area_percent: 125 },
            ElementalReaction { element1: ElementType::Lightning, element2: ElementType::Fire,
                reaction: ReactionType::Amplification, damage_percent: 130, area_percent: 120 },
            ElementalReaction { element1: ElementType::Fire, element2: ElementType::Cold,
                reaction: ReactionType::Cancellation, damage_percent: 0, area_percent: 50 },
            ElementalReaction { element1: ElementType::Fire, element2: ElementType::Acid,
                reaction: ReactionType::Cancellation, damage_percent: 50, area_percent: 70 },
            ElementalReaction { element1: ElementType::Lightning, element2: ElementType::Water,
                reaction: ReactionType::Transformation, damage_percent: 200, area_percent: 100 },
            ElementalReaction { element1: ElementType::Acid, element2: ElementType::Force,
                reaction: ReactionType::Explosion, damage_percent: 250, area_percent: 200 },
            ElementalReaction { element1: ElementType::Lightning, element2: ElementType::Lightning,
                reaction: ReactionType::Explosion, damage_percent: 180, area_percent: 150 },
        ];
        assert(v@ =~= reaction_table());
        v
    }

    /// The reaction between two elements, in either order, if they react.
    pub fn check_reaction(elem1: ElementType, elem2: ElementType) -> (r: Option<ElementalReaction>)
        ensures
            r == first_reaction(reaction_table(), elem1, elem2),
    {
        let table = Self::all_reactions();
        let ghost s = table@;
        let mut i: usize = 0;
        assert(s.skip(0) =~= s);
        while i < table.len()
            invariant
                s == table@,
                s == reaction_table(),
                i <= s.len(),
                first_reaction(s, elem1, elem2) == first_reaction(s.skip(i as int), elem1, elem2),
            decreases s.len() - i,
        {
            let reaction = table[i];
            proof {
                assert(s.skip(i as int).drop_first() =~= s.skip(i as int + 1));
            }
            if (reaction.element1 == elem1 && reaction.element2 == elem2) || (reaction.element1 == elem2
                && reaction.element2 == elem1) {
                return Some(reaction);
            }
            i = i + 1;
        }
        None
    }
}

/// A hash map from positions to the elements that struck there, each with
/// the turn it struck.
#[verifier::external_body]
pub struct ElementPositions {
    map: hashbrown::HashMap<(i8, i8), Vec<(ElementType, u32)>>,
}

/// What a position table holds.
pub uninterp spec fn positions_of(t: ElementPositions) -> Map<(i8, i8), Seq<(ElementType, u32)>>;

/// The contents of a table without entries.
pub open spec fn no_positions() -> Map<(i8, i8), Seq<(ElementType, u32)>> {
    Map::empty()
}

/// `hashbrown::HashMap::new`: an empty table.
#[verifier::external_body]
fn positions_new() -> (table: ElementPositions)
    ensures
        positions_of(table) == no_positions(),
{
    ElementPositions { map: hashbrown::HashMap::new() }
}

/// `hashbrown::HashMap::get`, the entry copied: the elements recorded at
/// `k`, if any are.
#[verifier::external_body]
fn positions_get(t: &ElementPositions, k: (i8, i8)) -> (r: Option<Vec<(ElementType, u32)>>)
    ensures
        r is Some <==> positions_of(*t).dom().contains(k),
        r matches Some(v) ==> v@ == positions_of(*t)[k],
{
    t.map.get(&k).cloned()
}

/// `hashbrown::HashMap::insert`: the entry for `k` becomes `v`.
#[verifier::external_body]
fn positions_insert(t: &mut ElementPositions, k: (i8, i8), v: Vec<(ElementType, u32)>)
    ensures
        positions_of(*final(t)) == positions_of(*old(t)).insert(k, v@),
{
    t.map.insert(k, v);
}

/// `hashbrown::HashMap::keys`, collected: every position with an entry,
/// each once, in an order the table chooses.
#[verifier::external_body]
fn positions_keys(t: &ElementPositions) -> (v: Vec<(i8, i8)>)
    ensures
        v@.no_duplicates(),
        v@.to_set() == positions_of(*t).dom(),
{
    t.map.keys().copied().collect()
}

/// `hashbrown::HashMap::clear`: no entries.
#[verifier::external_body]
fn positions_clear(t: &mut ElementPositions)
    ensures
        positions_of(*final(t)) == no_positions(),
{
    t.map.clear();
}

/// `hashbrown::HashMap::len`: the number of entries.
#[verifier::external_body]
fn positions_len(t: &ElementPositions) -> (n: usize)
    ensures
        n == positions_of(*t).len(),
{
    t.map.len()
}

impl ElementPositions {
    /// Whether no position has an entry.
    pub fn is_empty(&self) -> (r: bool)
        ensures
            r == (positions_of(*self).len() == 0),
    {
        positions_len(self) == 0
    }
}

/// The elements that struck each position lately, and the turn count.
pub struct ElementalReactionTracker {
    pub recent_elements: ElementPositions,
    pub current_turn: u32,
}

/// `a - b`, held at 0.
pub open spec fn sat_sub(a: u32, b: u32) -> int {
    if a >= b { a - b } else { 0 }
}

/// The elements of `s` that struck within `last_turns` turns of `now`, in order.
pub open spec fn recent(s: Seq<(ElementType, u32)>, now: u32, last_turns: u32) -> Seq<ElementType>
    decreases s.len(),
{
    if s.len() == 0 {
        Seq::empty()
    } else {
        recent(s.drop_last(), now, last_turns) + (if sat_sub(now, s.last().1) <= last_turns { seq![s.last().0] } else {
            Seq::empty() })
    }
}

/// The entries of `s` that struck within ten turns of `now`, in order.
pub open spec fn fresh(s: Seq<(ElementType, u32)>, now: u32) -> Seq<(ElementType, u32)>
    decreases s.len(),
{
    if s.len() == 0 {
        s
    } else {
        fresh(s.drop_last(), now) + (if sat_sub(now, s.last().1) <= 10 { seq![s.last()] } else { Seq::empty() })
    }
}

/// The reactions among the elements `e`: for each pair `i < j`, in order of
/// `i` then `j`, the reaction of `e[i]` with `e[j]`, if any.
pub open spec fn pair_reactions(e: Seq<ElementType>) -> Seq<ElementalReaction>
    decreases e.len(),
{
    if e.len() == 0 {
        Seq::empty()
    } else {
        reactions_with(e[0], e.drop_first()) + pair_reactions(e.drop_first())
    }
}

/// The reactions of `a` with each of `rest`, in order.
pub open spec fn reactions_with(a: ElementType, rest: Seq<ElementType>) -> Seq<ElementalReaction>
    decreases rest.len(),
{
    if rest.len() == 0 {
        Seq::empty()
    } else {
        (match first_reaction(reaction_table(), a, rest[0]) {
            Some(r) => seq![r],
            None => Seq::empty(),
        }) + reactions_with(a, rest.drop_first())
    }
}

impl Default for ElementalReactionTracker {
    /// Nothing recorded, at turn 0.
    fn default() -> (t: Self)
        ensures
            positions_of(t.recent_elements) == no_positions(),
            t.current_turn == 0,
    {
        ElementalReactionTracker::new()
    }
}

impl ElementalReactionTracker {
    /// Nothing recorded, at turn 0.
    pub fn new() -> (t: Self)
        ensures
            positions_of(t.recent_elements) == no_positions(),
            t.current_turn == 0,
    {
        ElementalReactionTracker { recent_elements: positions_new(), current_turn: 0 }
    }

    /// Record an element striking a position this turn; each position keeps
    /// its last ten.
    pub fn record_element(&mut self, x: i8, y: i8, element: ElementType)
        ensures
            final(self).current_turn == old(self).current_turn,
            ({
                let m = positions_of(old(self).recent_elements);
                let before = if m.dom().contains((x, y)) { m[(x, y)] } else { Seq::empty() };
                let after = before.push((element, old(self).current_turn));
                positions_of(final(self).recent_elements) == m.insert((x, y), if after.len() > 10 {
                    after.drop_first()
                } else {
                    after
                })
            }),
    {
        let mut entry = match positions_get(&self.recent_elements, (x, y)) {
            Some(v) => v,
            None => Vec::new(),
        };
        entry.push((element, self.current_turn));
        if entry.len() > 10 {
            let ghost e = entry@;
            entry.remove(0);
            assert(entry@ =~= e.drop_first());
        }
        positions_insert(&mut self.recent_elements, (x, y), entry);
    }

    /// The elements that struck a position within the last `last_turns`
    /// turns, in the order they struck.
    pub fn get_recent_elements(&self, x: i8, y: i8, last_turns: u32) -> (v: Vec<ElementType>)
        ensures
            ({
                let m = positions_of(self.recent_elements);
                v@ == (if m.dom().contains((x, y)) { recent(m[(x, y)], self.current_turn, last_turns) } else {
                    Seq::empty()
                })
            }),
    {
        let mut out: Vec<ElementType> = Vec::new();
        match positions_get(&self.recent_elements, (x, y)) {
            Some(effects) => {
                let ghost s = effects@;
                let mut i: usize = 0;
                while i < effects.len()
                    invariant
                        s == effects@,
                        i <= s.len(),
                        out@ == recent(s.take(i as int), self.current_turn, last_turns),
                    decreases s.len() - i,
                {
                    let (elem, turn) = effects[i];
                    proof {
                        assert(s.take(i as int + 1).drop_last() =~= s.take(i as int));
                    }
                    let age: u32 = self.current_turn.saturating_sub(turn);
                    if age <= last_turns {
                        out.push(elem);
                    }
                    proof {
                        assert(out@ =~= recent(s.take(i as int + 1), self.current_turn, last_turns));
                    }
                    i = i + 1;
                }
                proof {
                    assert(s.take(s.len() as int) =~= s);
                }
            },
            None => {},
        }
        out
    }

    /// The reactions among the elements that struck a position in the last
    /// two turns: each pair once, the earlier element first.
    pub fn check_position_reactions(&self, x: i8, y: i8) -> (v: Vec<ElementalReaction>)
        ensures
            ({
                let m = positions_of(self.recent_elements);
                v@ == pair_reactions(if m.dom().contains((x, y)) { recent(m[(x, y)], self.current_turn, 2) } else {
                    Seq::empty()
                })
            }),
    {
        let recent_elems = self.get_recent_elements(x, y, 2);
        let ghost e = recent_elems@;
        let mut reactions: Vec<ElementalReaction> = Vec::new();
        let mut i: usize = 0;
        proof {
            assert(e.skip(0) =~= e);
            assert(reactions@ + pair_reactions(e.skip(0)) =~= pair_reactions(e));
        }
        while i < recent_elems.len()
            invariant
                e == recent_elems@,
                i <= e.len(),
                reactions@ + pair_reactions(e.skip(i as int)) == pair_reactions(e),
            decreases e.len() - i,
        {
            let ghost before = reactions@;
            proof {
                assert(e.skip(i as int).drop_first() =~= e.skip(i as int + 1));
                assert(e.skip(i as int)[0] == e[i as int]);
            }
            let mut j: usize = i + 1;
            proof {
                assert(e.skip(i as int + 1).skip(0) =~= e.skip(i as int + 1));
            }
            while j < recent_elems.len()
                invariant
                    e == recent_elems@,
                    i < e.len(),
                    i + 1 <= j <= e.len(),
                    reactions@ + reactions_with(e[i as int], e.skip(j as int)) == before + reactions_with(e[i as int],
                        e.skip(i as int + 1)),
                decreases e.len() - j,
            {
                proof {
                    assert(e.skip(j as int).drop_first() =~= e.skip(j as int + 1));
                    assert(e.skip(j as int)[0] == e[j as int]);
                }
                let ghost mid = reactions@;
                if let Some(reaction) = ElementalReaction::check_reaction(recent_elems[i], recent_elems[j]) {
                    reactions.push(reaction);
                    proof {
                        assert(reactions@ + reactions_with(e[i as int], e.skip(j as int + 1)) =~= mid + reactions_with(
                            e[i as int], e.skip(j as int)));
                    }
                } else {
                    proof {
                        assert(reactions@ + reactions_with(e[i as int], e.skip(j as int + 1)) =~= mid + reactions_with(
                            e[i as int], e.skip(j as int)));
                    }
                }
                j = j + 1;
            }
            proof {
                assert(e.skip(j as int) =~= Seq::<ElementType>::empty());
                assert(reactions@ =~= before + reactions_with(e[i as int], e.skip(i as int + 1)));
                assert(reactions@ + pair_reactions(e.skip(i as int + 1)) =~= before + pair_reactions(e.skip(i as int)));
            }
            i = i + 1;
        }
        proof {
            assert(e.skip(e.len() as int) =~= Seq::<ElementType>::empty());
            assert(reactions@ =~= reactions@ + pair_reactions(e.skip(i as int)));
        }
        reactions
    }

    /// A turn passes: the count goes on, and each position forgets the
    /// elements older than ten turns.
    pub fn next_turn(&mut self)
        requires
            old(self).current_turn < u32::MAX,
        ensures
            final(self).current_turn == old(self).current_turn + 1,
            ({
                let m = positions_of(old(self).recent_elements);
                &&& positions_of(final(self).recent_elements).dom() == m.dom()
                &&& forall|k: (i8, i8)| #[trigger] m.dom().contains(k) ==> positions_of(
                    final(self).recent_elements)[k] == fresh(m[k], final(self).current_turn)
            }),
    {
        self.current_turn = self.current_turn + 1;
        let keys = positions_keys(&self.recent_elements);
        let ghost m = positions_of(self.recent_elements);
        let mut i: usize = 0;
        while i < keys.len()
            invariant
                self.current_turn == old(self).current_turn + 1,
                keys@.no_duplicates(),
                keys@.to_set() == m.dom(),
                i <= keys@.len(),
                positions_of(self.recent_elements).dom() == m.dom(),
                forall|k: (i8, i8)| #[trigger] m.dom().contains(k) ==> positions_of(self.recent_elements)[k] == (if exists|
                    j: int,
                | 0 <= j < i && keys@[j] == k {
                    fresh(m[k], self.current_turn)
                } else {
                    m[k]
                }),
            decreases keys@.len() - i,
        {
            let k = keys[i];
            proof {
                assert(keys@.to_set().contains(k));
                assert(!exists|j: int| 0 <= j < i && keys@[j] == k) by {
                    if exists|j: int| 0 <= j < i && keys@[j] == k {
                        let j = choose|j: int| 0 <= j < i && keys@[j] == k;
                        assert(keys@[j] == keys@[i as int]);
                    }
                }
            }
            let ghost before = positions_of(self.recent_elements);
            match positions_get(&self.recent_elements, k) {
                Some(effects) => {
                    let ghost s = effects@;
                    assert(s == m[k]);
                    let mut kept: Vec<(ElementType, u32)> = Vec::new();
                    let mut n: usize = 0;
                    while n < effects.len()
                        invariant
                            s == effects@,
                            n <= s.len(),
                            kept@ == fresh(s.take(n as int), self.current_turn),
                        decreases s.len() - n,
                    {
                        let entry = effects[n];
                        proof {
                            assert(s.take(n as int + 1).drop_last() =~= s.take(n as int));
                        }
                        if self.current_turn.saturating_sub(entry.1) <= 10 {
                            kept.push(entry);
                        }
                        proof {
                            assert(kept@ =~= fresh(s.take(n as int + 1), self.current_turn));
                        }
                        n = n + 1;
                    }
                    proof {
                        assert(s.take(s.len() as int) =~= s);
                    }
                    positions_insert(&mut self.recent_elements, k, kept);
                },
                None => {},
            }
            proof {
                assert forall|q: (i8, i8)| #[trigger] m.dom().contains(q) implies positions_of(self.recent_elements)[q]
                    == (if exists|j: int| 0 <= j < i + 1 && keys@[j] == q {
                    fresh(m[q], self.current_turn)
                } else {
                    m[q]
                }) by {
                    if q == k {
                        assert(keys@[i as int] == q);
                    } else {
                        if exists|j: int| 0 <= j < i + 1 && keys@[j] == q {
                            let j = choose|j: int| 0 <= j < i + 1 && keys@[j] == q;
                            assert(j < i);
                        }
                    }
                }
                assert(positions_of(self.recent_elements).dom() =~= m.dom());
            }
            i = i + 1;
        }
        proof {
            assert forall|k: (i8, i8)| #[trigger] m.dom().contains(k) implies exists|j: int|
                0 <= j < keys@.len() && keys@[j] == k by {
                assert(keys@.to_set().contains(k));
            }
        }
    }

    /// Forget everything, back to turn 0.
    pub fn clear(&mut self)
        ensures
            positions_of(final(self).recent_elements) == no_positions(),
            final(self).current_turn == 0,
    {
        positions_clear(&mut self.recent_elements);
        self.current_turn = 0;
    }
}

/// A lingering hazard left by a reaction.
#[derive(Debug, Clone)]
pub struct EnvironmentalHazard {
    pub x: i8,
    pub y: i8,
    pub element: ElementType,
    pub damage_per_turn: i32,
    pub remaining_turns: u32,
}

impl EnvironmentalHazard {
    /// A hazard at `(x, y)` dealing `damage` a turn for `duration` turns.
    pub fn new(x: i8, y: i8, element: ElementType, damage: i32, duration: u32) -> (h: Self)
        ensures
            h.x == x && h.y == y && h.element == element,
            h.damage_per_turn == damage && h.remaining_turns == duration,
    {
        EnvironmentalHazard { x, y, element, damage_per_turn: damage, remaining_turns: duration }
    }

    /// A turn passes: one turn less, not below 0.
    pub fn tick(&mut self)
        ensures
            final(self).remaining_turns == (if old(self).remaining_turns > 0 { old(self).remaining_turns - 1 } else {
                0 }),
            final(self).x == old(self).x && final(self).y == old(self).y && final(self).element == old(self).element,
            final(self).damage_per_turn == old(self).damage_per_turn,
    {
        if self.remaining_turns > 0 {
            self.remaining_turns = self.remaining_turns - 1;
        }
    }

    /// Whether the hazard still lasts.
    pub fn is_active(&self) -> (r: bool)
        ensures
            r == (self.remaining_turns > 0),
    {
        self.remaining_turns > 0
    }
}

/// A hazard left by a reaction.
pub fn create_environmental_hazard(element: ElementType, damage: i32, x: i8, y: i8, duration: u32) -> (h:
    EnvironmentalHazard)
    ensures
        h.x == x && h.y == y && h.element == element,
        h.damage_per_turn == damage && h.remaining_turns == duration,
{
    EnvironmentalHazard::new(x, y, element, damage, duration)
}

/// The message of a reaction.
pub open spec fn reaction_message(r: ElementalReaction) -> Seq<char> {
    let a = element_name(r.element1);
    let b = element_name(r.element2);
    match r.reaction {
        ReactionType::Amplification => "The "@ + a + " and "@ + b + " magics amplify each other!"@,
        ReactionType::Cancellation => "The "@ + a + " and "@ + b + " effects cancel out!"@,
        ReactionType::Transformation => "The "@ + a + " transforms into "@ + b + "!"@,
        ReactionType::Explosion => "The "@ + a + " and "@ + b + " create a violent explosion!"@,
        ReactionType::ChainReaction => "A chain reaction of "@ + a + " and "@ + b + " magic!"@,
    }
}

/// The message of a reaction.
pub fn get_reaction_message(reaction: ElementalReaction) -> (s: String)
    ensures
        s@ == reaction_message(reaction),
{
    let (head, middle, tail): (&str, &str, &str) = match reaction.reaction {
        ReactionType::Amplification => ("The ", " and ", " magics amplify each other!"),
        ReactionType::Cancellation => ("The ", " and ", " effects cancel out!"),
        ReactionType::Transformation => ("The ", " transforms into ", "!"),
        ReactionType::Explosion => ("The ", " and ", " create a violent explosion!"),
        ReactionType::ChainReaction => ("A chain reaction of ", " and ", " magic!"),
    };
    let mut s = String::from_str(head);
    s.append(reaction.element1.name());
    s.append(middle);
    s.append(reaction.element2.name());
    s.append(tail);
    s
}

/// Two elements react, if at all, the same way in either order.
pub proof fn lemma_reaction_symmetric(s: Seq<ElementalReaction>, a: ElementType, b: ElementType)
    ensures
        first_reaction(s, a, b) == first_reaction(s, b, a),
    decreases s.len(),
{
    if s.len() > 0 {
        lemma_reaction_symmetric(s.drop_first(), a, b);
    }
}

} // verus!
