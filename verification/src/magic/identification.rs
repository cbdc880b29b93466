//! Item identification: what the hero has learned about each kind of item,
//! through use, testing, scrolls and research.

use vstd::prelude::*;
use vstd::string::*;
use crate::text::{int_str, push_int, views};
use std::collections::HashMap;

verus! {

broadcast use vstd::std_specs::hash::group_hash_axioms;

/// How much is known about an item kind.
#[derive(Debug, Clone, Copy, PartialEq, Eq, Structural)]
pub enum IdentificationLevel {
    /// The name is unknown.
    Unknown,
    /// The name was worked out through use.
    Discovered,
    /// The name was confirmed by identification.
    Identified,
    /// Every property is known.
    FullyMapped,
}

/// Knowledge about one item kind.
#[derive(Debug, Clone)]
pub struct ItemKnowledge {
    pub object_type: i16,
    pub identification_level: IdentificationLevel,
    pub times_used: i32,
    pub times_tested: i32,
    pub discovered_benefits: Vec<String>,
    pub discovered_hazards: Vec<String>,
}

/// Knowledge of a kind never met before.
pub open spec fn fresh_knowledge(k: ItemKnowledge, object_type: i16) -> bool {
    &&& k.object_type == object_type
    &&& k.identification_level == IdentificationLevel::Unknown
    &&& k.times_used == 0
    &&& k.times_tested == 0
    &&& k.discovered_benefits@.len() == 0
    &&& k.discovered_hazards@.len() == 0
    &&& views(k.discovered_benefits@) == Seq::<Seq<char>>::empty()
    &&& views(k.discovered_hazards@) == Seq::<Seq<char>>::empty()
}

impl ItemKnowledge {
    /// Knowledge of a kind never met before.
    pub fn new(object_type: i16) -> (k: Self)
        ensures
            fresh_knowledge(k, object_type),
    {
        let k = ItemKnowledge {
            object_type,
            identification_level: IdentificationLevel::Unknown,
            times_used: 0,
            times_tested: 0,
            discovered_benefits: Vec::new(),
            discovered_hazards: Vec::new(),
        };
        assert(views(k.discovered_benefits@) =~= Seq::<Seq<char>>::empty());
        assert(views(k.discovered_hazards@) =~= Seq::<Seq<char>>::empty());
        k
    }

    /// Whether the item can be identified from experience: used three
    /// times or tested twice.
    pub fn can_auto_identify(&self) -> (r: bool)
        ensures
            r == (self.times_used >= 3 || self.times_tested >= 2),
    {
        self.times_used >= 3 || self.times_tested >= 2
    }
}

/// Number of kinds in `s` that `m` records as past `Unknown`.
pub open spec fn count_known_in(m: Map<i16, ItemKnowledge>, s: Seq<i16>) -> nat
    decreases s.len(),
{
    if s.len() == 0 {
        0
    } else {
        count_known_in(m, s.drop_last())
            + if m[s.last()].identification_level != IdentificationLevel::Unknown { 1nat } else { 0nat }
    }
}

/// The kinds that `m` records as past `Unknown`.
pub open spec fn known_kinds(m: Map<i16, ItemKnowledge>) -> Set<i16> {
    m.dom().filter(|t: i16| m[t].identification_level != IdentificationLevel::Unknown)
}

proof fn lemma_count_known_in(m: Map<i16, ItemKnowledge>, s: Seq<i16>)
    requires
        s.no_duplicates(),
    ensures
        count_known_in(m, s) == s.to_set().filter(
            |t: i16| m[t].identification_level != IdentificationLevel::Unknown,
        ).len(),
    decreases s.len(),
{
    let p = |t: i16| m[t].identification_level != IdentificationLevel::Unknown;
    if s.len() == 0 {
        assert(s.to_set().filter(p) =~= Set::<i16>::empty());
    } else {
        let r = s.drop_last();
        let x = s.last();
        assert(r.no_duplicates()) by {
            assert forall|i: int, j: int| 0 <= i < r.len() && 0 <= j < r.len() && i != j implies r[i] != r[j] by {
                assert(r[i] == s[i] && r[j] == s[j]);
            }
        }
        lemma_count_known_in(m, r);
        assert(!r.to_set().contains(x)) by {
            if r.to_set().contains(x) {
                let i = choose|i: int| 0 <= i < r.len() && r[i] == x;
                assert(s[i] == s[s.len() - 1]);
            }
        }
        assert(s =~= r.push(x));
        assert(s.to_set() =~= r.to_set().insert(x)) by {
            assert forall|t: i16| s.to_set().contains(t) == r.to_set().insert(x).contains(t) by {
                if s.to_set().contains(t) {
                    let i = choose|i: int| 0 <= i < s.len() && s[i] == t;
                    if i < r.len() {
                        assert(r[i] == t);
                    }
                }
                if r.to_set().contains(t) {
                    let i = choose|i: int| 0 <= i < r.len() && r[i] == t;
                    assert(s[i] == t);
                }
                if t == x {
                    assert(s[s.len() - 1] == t);
                }
            }
        }
        vstd::seq_lib::seq_to_set_is_finite(r);
        let fr = r.to_set().filter(p);
        assert(fr.finite());
        assert(!fr.contains(x));
        if p(x) {
            assert(s.to_set().filter(p) =~= fr.insert(x));
        } else {
            assert(s.to_set().filter(p) =~= fr);
        }
    }
}

/// The hero's knowledge of item kinds.
#[derive(Debug, Clone)]
pub struct IdentificationKnowledge {
    /// One entry per item kind met, keyed by the kind.
    pub known_items: HashMap<i16, ItemKnowledge>,
}

impl View for IdentificationKnowledge {
    type V = Map<i16, ItemKnowledge>;

    open spec fn view(&self) -> Map<i16, ItemKnowledge> {
        self.known_items@
    }
}


/// What was known of kind `t` before: its uses, tests, level and lists
/// (all nothing for a kind never met).
pub open spec fn used_before(m: Map<i16, ItemKnowledge>, t: i16) -> int {
    if m.contains_key(t) { m[t].times_used as int } else { 0 }
}

pub open spec fn tested_before(m: Map<i16, ItemKnowledge>, t: i16) -> int {
    if m.contains_key(t) { m[t].times_tested as int } else { 0 }
}

pub open spec fn level_before(m: Map<i16, ItemKnowledge>, t: i16) -> IdentificationLevel {
    if m.contains_key(t) { m[t].identification_level } else { IdentificationLevel::Unknown }
}

pub open spec fn benefits_before(m: Map<i16, ItemKnowledge>, t: i16) -> Seq<Seq<char>> {
    if m.contains_key(t) { views(m[t].discovered_benefits@) } else { seq![] }
}

pub open spec fn hazards_before(m: Map<i16, ItemKnowledge>, t: i16) -> Seq<Seq<char>> {
    if m.contains_key(t) { views(m[t].discovered_hazards@) } else { seq![] }
}

/// Only the entry of kind `t` changed (or was added), and it now has the
/// given counts, level and lists.
pub open spec fn entry_now(old: Map<i16, ItemKnowledge>, new: Map<i16, ItemKnowledge>, t: i16,
    used: int, tested: int, level: IdentificationLevel, benefits: Seq<Seq<char>>, hazards: Seq<Seq<char>>) -> bool {
    &&& new.contains_key(t)
    &&& new == old.insert(t, new[t])
    &&& new[t].object_type == t
    &&& new[t].times_used == used
    &&& new[t].times_tested == tested
    &&& new[t].identification_level == level
    &&& views(new[t].discovered_benefits@) == benefits
    &&& views(new[t].discovered_hazards@) == hazards
}

impl IdentificationKnowledge {
    /// Each entry is filed under its own kind.
    pub open spec fn wf(&self) -> bool {
        forall|t: i16| #[trigger] self@.contains_key(t) ==> self@[t].object_type == t
    }

    /// No knowledge yet.
    pub fn new() -> (kb: Self)
        ensures
            kb.wf(),
            kb@ == Map::<i16, ItemKnowledge>::empty(),
    {
        IdentificationKnowledge { known_items: HashMap::new() }
    }

    /// Get the knowledge about an item kind.
    pub fn get_knowledge(&self, object_type: i16) -> (r: Option<&ItemKnowledge>)
        ensures
            r is Some <==> self@.contains_key(object_type),
            r matches Some(k) ==> *k == self@[object_type],
    {
        self.known_items.get(&object_type)
    }

    /// Get the knowledge about an item kind, starting fresh knowledge when
    /// there is none.
    pub fn get_or_create(&mut self, object_type: i16) -> (k: &mut ItemKnowledge)
        requires
            old(self).wf(),
        ensures
            old(self)@.contains_key(object_type) ==> *k == old(self)@[object_type],
            !old(self)@.contains_key(object_type) ==> fresh_knowledge(*k, object_type),
            final(self)@ == old(self)@.insert(object_type, *final(k)),
            final(k).object_type == object_type ==> final(self).wf(),
    {
        let fresh = ItemKnowledge::new(object_type);
        self.known_items.entry(object_type).or_insert(fresh)
    }
}

/// Whether a list of texts holds `s`.
fn has_text(v: &Vec<String>, s: &String) -> (r: bool)
    ensures
        r == views(v@).contains(s@),
{
    let mut i: usize = 0;
    while i < v.len()
        invariant
            i <= v@.len(),
            forall|j: int| 0 <= j < i ==> v@[j]@ != s@,
        decreases v@.len() - i,
    {
        if v[i].eq(s) {
            assert(views(v@)[i as int] == s@);
            return true;
        }
        i = i + 1;
    }
    proof {
        if views(v@).contains(s@) {
            let j = choose|j: int| 0 <= j < views(v@).len() && views(v@)[j] == s@;
            assert(v@[j]@ == s@);
        }
    }
    false
}

/// `v` with `s` added at the end unless it is already there.
pub open spec fn add_once(v: Seq<Seq<char>>, s: Seq<char>) -> Seq<Seq<char>> {
    if v.contains(s) { v } else { v.push(s) }
}

impl IdentificationKnowledge {
    /// Record a use of the kind; it becomes discovered once it can be
    /// identified from experience (three uses or two tests).
    pub fn mark_used(&mut self, object_type: i16)
        requires
            old(self).wf(),
            used_before(old(self)@, object_type) < i32::MAX,
        ensures
            final(self).wf(),
            entry_now(old(self)@, final(self)@, object_type,
                used_before(old(self)@, object_type) + 1,
                tested_before(old(self)@, object_type),
                if (used_before(old(self)@, object_type) + 1 >= 3 || tested_before(old(self)@, object_type) >= 2)
                    && level_before(old(self)@, object_type) == IdentificationLevel::Unknown {
                    IdentificationLevel::Discovered
                } else {
                    level_before(old(self)@, object_type)
                },
                benefits_before(old(self)@, object_type),
                hazards_before(old(self)@, object_type)),
    {
        let knowledge = self.get_or_create(object_type);
        knowledge.times_used = knowledge.times_used + 1;
        if knowledge.can_auto_identify() && knowledge.identification_level == IdentificationLevel::Unknown {
            knowledge.identification_level = IdentificationLevel::Discovered;
        }
    }

    /// Record a test of the kind.
    pub fn mark_tested(&mut self, object_type: i16)
        requires
            old(self).wf(),
            tested_before(old(self)@, object_type) < i32::MAX,
        ensures
            final(self).wf(),
            entry_now(old(self)@, final(self)@, object_type,
                used_before(old(self)@, object_type),
                tested_before(old(self)@, object_type) + 1,
                level_before(old(self)@, object_type),
                benefits_before(old(self)@, object_type),
                hazards_before(old(self)@, object_type)),
    {
        let knowledge = self.get_or_create(object_type);
        knowledge.times_tested = knowledge.times_tested + 1;
    }

    /// Identify the kind.
    pub fn identify_item(&mut self, object_type: i16)
        requires
            old(self).wf(),
        ensures
            final(self).wf(),
            entry_now(old(self)@, final(self)@, object_type,
                used_before(old(self)@, object_type),
                tested_before(old(self)@, object_type),
                IdentificationLevel::Identified,
                benefits_before(old(self)@, object_type),
                hazards_before(old(self)@, object_type)),
    {
        let knowledge = self.get_or_create(object_type);
        knowledge.identification_level = IdentificationLevel::Identified;
    }

    /// Record a benefit of the kind, unless already recorded.
    pub fn add_benefit(&mut self, object_type: i16, benefit: String)
        requires
            old(self).wf(),
        ensures
            final(self).wf(),
            entry_now(old(self)@, final(self)@, object_type,
                used_before(old(self)@, object_type),
                tested_before(old(self)@, object_type),
                level_before(old(self)@, object_type),
                add_once(benefits_before(old(self)@, object_type), benefit@),
                hazards_before(old(self)@, object_type)),
    {
        let knowledge = self.get_or_create(object_type);
        if !has_text(&knowledge.discovered_benefits, &benefit) {
            let ghost b = benefit@;
            let ghost before = knowledge.discovered_benefits@;
            knowledge.discovered_benefits.push(benefit);
            proof {
                assert(views(knowledge.discovered_benefits@) =~= views(before).push(b));
            }
        }
    }

    /// Record a hazard of the kind, unless already recorded.
    pub fn add_hazard(&mut self, object_type: i16, hazard: String)
        requires
            old(self).wf(),
        ensures
            final(self).wf(),
            entry_now(old(self)@, final(self)@, object_type,
                used_before(old(self)@, object_type),
                tested_before(old(self)@, object_type),
                level_before(old(self)@, object_type),
                benefits_before(old(self)@, object_type),
                add_once(hazards_before(old(self)@, object_type), hazard@)),
    {
        let knowledge = self.get_or_create(object_type);
        if !has_text(&knowledge.discovered_hazards, &hazard) {
            let ghost h = hazard@;
            let ghost before = knowledge.discovered_hazards@;
            knowledge.discovered_hazards.push(hazard);
            proof {
                assert(views(knowledge.discovered_hazards@) =~= views(before).push(h));
            }
        }
    }

    /// Whether the kind is known by name.
    pub fn is_known(&self, object_type: i16) -> (r: bool)
        requires
            self.wf(),
        ensures
            r == (self@.contains_key(object_type)
                && self@[object_type].identification_level != IdentificationLevel::Unknown),
    {
        match self.get_knowledge(object_type) {
            Some(k) => k.identification_level != IdentificationLevel::Unknown,
            None => false,
        }
    }

    /// Count the kinds known by name.
    pub fn count_identified(&self) -> (n: usize)
        ensures
            n == known_kinds(self@).len(),
    {
        let ghost m = self@;
        let ghost mut seen: Seq<i16> = Seq::empty();
        let mut n: usize = 0;
        // The number of entries bounds the running count.
        let total = self.known_items.len();
        for t in it: self.known_items.keys()
            invariant
                m == self@,
                total == m.len(),
                it.seq().len() == m.dom().len(),
                it.seq().unref().no_duplicates(),
                it.seq().unref().to_set() == m.dom(),
                seen == it.seq().unref().take(it.index() as int),
                n == count_known_in(m, seen),
                n <= it.index(),
                it.seq().unref().take(it.seq().len() as int) == it.seq().unref(),
        {
            proof {
                seen = seen.push(*t);
            }
            proof {
                let s = it.seq().unref();
                let i = it.index() as int;
                assert(s.take(i + 1).drop_last() =~= s.take(i));
                assert(s[i] == *t);
                assert(s.to_set().contains(s[i]));
                assert(seen =~= s.take(i + 1));
            }
            match self.known_items.get(t) {
                Some(k) => {
                    if k.identification_level != IdentificationLevel::Unknown {
                        n = n + 1;
                    }
                },
                None => {},
            }
        }
        proof {
            assert(seen.no_duplicates() && seen.to_set() == m.dom());
            lemma_count_known_in(m, seen);
            assert(seen.to_set().filter(|t: i16| m[t].identification_level != IdentificationLevel::Unknown)
                =~= known_kinds(m));
        }
        n
    }
}

impl Default for IdentificationKnowledge {
    fn default() -> (kb: Self)
        ensures
            kb.wf(),
            kb@ == Map::<i16, ItemKnowledge>::empty(),
    {
        Self::new()
    }
}

/// The outcome of an identification attempt.
#[derive(Debug, Clone)]
pub struct IdentificationResult {
    pub messages: Vec<String>,
    pub identified: bool,
    pub new_knowledge: bool,
}

impl IdentificationResult {
    /// No messages, nothing learned.
    pub fn new() -> (r: Self)
        ensures
            r.messages@.len() == 0,
            !r.identified,
            !r.new_knowledge,
    {
        IdentificationResult { messages: Vec::new(), identified: false, new_knowledge: false }
    }

    /// The result with a message added.
    pub fn with_message(self, msg: &str) -> (r: Self)
        ensures
            views(r.messages@) == views(self.messages@).push(msg@),
            r.identified == self.identified,
            r.new_knowledge == self.new_knowledge,
    {
        let mut r = self;
        let ghost before = r.messages@;
        r.messages.push(String::from_str(msg));
        proof {
            assert(views(r.messages@) =~= views(before).push(msg@));
        }
        r
    }
}

impl Default for IdentificationResult {
    fn default() -> (r: Self)
        ensures
            r.messages@.len() == 0,
            !r.identified,
            !r.new_knowledge,
    {
        Self::new()
    }
}

/// Identify a kind by scroll or spell: an unknown or merely discovered kind
/// becomes identified.
pub fn identify_from_scroll(knowledge: &mut IdentificationKnowledge, object_type: i16) -> (r: IdentificationResult)
    requires
        old(knowledge).wf(),
    ensures
        final(knowledge).wf(),
        ({
            let lvl = level_before(old(knowledge)@, object_type);
            let learn = lvl == IdentificationLevel::Unknown || lvl == IdentificationLevel::Discovered;
            &&& entry_now(old(knowledge)@, final(knowledge)@, object_type,
                used_before(old(knowledge)@, object_type),
                tested_before(old(knowledge)@, object_type),
                if learn { IdentificationLevel::Identified } else { lvl },
                benefits_before(old(knowledge)@, object_type),
                hazards_before(old(knowledge)@, object_type))
            &&& r.identified == learn
            &&& r.new_knowledge == (lvl == IdentificationLevel::Unknown)
            &&& views(r.messages@) == seq![match lvl {
                IdentificationLevel::Unknown => "The scroll reveals the item's true nature!"@,
                IdentificationLevel::Discovered => "You confirm what you suspected about this item."@,
                IdentificationLevel::Identified => "You already know what this item is."@,
                IdentificationLevel::FullyMapped => "You already know everything about this item."@,
            }]
        }),
{
    let mut result = IdentificationResult::new();
    let item_knowledge = knowledge.get_or_create(object_type);
    let msg: &str = match item_knowledge.identification_level {
        IdentificationLevel::Unknown => {
            item_knowledge.identification_level = IdentificationLevel::Identified;
            result.identified = true;
            result.new_knowledge = true;
            "The scroll reveals the item's true nature!"
        },
        IdentificationLevel::Discovered => {
            item_knowledge.identification_level = IdentificationLevel::Identified;
            result.identified = true;
            "You confirm what you suspected about this item."
        },
        IdentificationLevel::Identified => "You already know what this item is.",
        IdentificationLevel::FullyMapped => "You already know everything about this item.",
    };
    result = result.with_message(msg);
    proof {
        assert(views(result.messages@) =~= seq![msg@]);
    }
    result
}

/// Identify a kind through experience: the use is counted, and an unknown
/// kind used three times is discovered.
pub fn identify_from_use(knowledge: &mut IdentificationKnowledge, object_type: i16) -> (r: IdentificationResult)
    requires
        old(knowledge).wf(),
        -2_000_000_000 <= used_before(old(knowledge)@, object_type) < i32::MAX,
    ensures
        final(knowledge).wf(),
        ({
            let lvl = level_before(old(knowledge)@, object_type);
            let used = used_before(old(knowledge)@, object_type) + 1;
            let learn = lvl == IdentificationLevel::Unknown && used >= 3;
            &&& entry_now(old(knowledge)@, final(knowledge)@, object_type,
                used,
                tested_before(old(knowledge)@, object_type),
                if learn { IdentificationLevel::Discovered } else { lvl },
                benefits_before(old(knowledge)@, object_type),
                hazards_before(old(knowledge)@, object_type))
            &&& r.identified == learn
            &&& r.new_knowledge == learn
            &&& views(r.messages@) == if learn {
                seq!["You've learned what this item does!"@]
            } else if lvl == IdentificationLevel::Unknown {
                seq!["You're getting a sense of what this item does... ("@ + int_str(3 - used)
                    + " more uses to discover)"@]
            } else {
                seq![]
            }
        }),
{
    let mut result = IdentificationResult::new();
    let item_knowledge = knowledge.get_or_create(object_type);
    item_knowledge.times_used = item_knowledge.times_used + 1;
    if item_knowledge.identification_level == IdentificationLevel::Unknown && item_knowledge.times_used >= 3 {
        item_knowledge.identification_level = IdentificationLevel::Discovered;
        result.identified = true;
        result.new_knowledge = true;
        result = result.with_message("You've learned what this item does!");
        proof {
            assert(views(result.messages@) =~= seq!["You've learned what this item does!"@]);
        }
    } else if item_knowledge.identification_level == IdentificationLevel::Unknown {
        let mut s = String::from_str("You're getting a sense of what this item does... (");
        push_int(&mut s, (3 - item_knowledge.times_used) as i64);
        s.append(" more uses to discover)");
        let ghost sv = s@;
        result.messages.push(s);
        proof {
            assert(views(result.messages@) =~= seq![sv]);
        }
    } else {
        proof {
            assert(views(result.messages@) =~= Seq::<Seq<char>>::empty());
        }
    }
    result
}

/// How an item kind is described at its level of identification.
pub open spec fn described(m: Map<i16, ItemKnowledge>, t: i16, base: Seq<char>) -> Seq<char> {
    match level_before(m, t) {
        IdentificationLevel::Unknown => "unidentified "@ + base,
        IdentificationLevel::Discovered => base + " (probably)"@,
        IdentificationLevel::Identified => base,
        IdentificationLevel::FullyMapped => base + " (fully known)"@,
    }
}

/// Describe an item kind as far as it is identified.
pub fn get_identified_description(knowledge: &IdentificationKnowledge, object_type: i16, base_name: &str)
    -> (s: String)
    requires
        knowledge.wf(),
    ensures
        s@ == described(knowledge@, object_type, base_name@),
{
    let level = match knowledge.get_knowledge(object_type) {
        None => IdentificationLevel::Unknown,
        Some(k) => k.identification_level,
    };
    match level {
        IdentificationLevel::Unknown => {
            let mut s = String::from_str("unidentified ");
            s.append(base_name);
            s
        },
        IdentificationLevel::Discovered => {
            let mut s = String::from_str(base_name);
            s.append(" (probably)");
            s
        },
        IdentificationLevel::Identified => String::from_str(base_name),
        IdentificationLevel::FullyMapped => {
            let mut s = String::from_str(base_name);
            s.append(" (fully known)");
            s
        },
    }
}

/// Identification progress of a level, in percent.
pub open spec fn level_progress(l: IdentificationLevel) -> i32 {
    match l {
        IdentificationLevel::Unknown => 0,
        IdentificationLevel::Discovered => 50,
        IdentificationLevel::Identified => 75,
        IdentificationLevel::FullyMapped => 100,
    }
}

/// Get the identification progress of an item kind, in percent.
pub fn get_identification_progress(knowledge: &IdentificationKnowledge, object_type: i16) -> (p: i32)
    requires
        knowledge.wf(),
    ensures
        p == level_progress(level_before(knowledge@, object_type)),
{
    match knowledge.get_knowledge(object_type) {
        None => 0,
        Some(k) => match k.identification_level {
            IdentificationLevel::Unknown => 0,
            IdentificationLevel::Discovered => 50,
            IdentificationLevel::Identified => 75,
            IdentificationLevel::FullyMapped => 100,
        },
    }
}

} // verus!
