//! Metamagic: the techniques that modify spells, and the caster's knowledge
//! and mastery of them.

use vstd::prelude::*;

verus! {

/// Metamagic techniques.
#[derive(Debug, Clone, Copy, PartialEq, Eq, Hash, Structural)]
pub enum MetamagicType {
    Quicken,
    Empower,
    Maximize,
    Silent,
    Still,
    Extend,
    Widen,
    Twin,
    Careful,
    Subtle,
}

/// The name of a technique.
pub open spec fn metamagic_name(m: MetamagicType) -> Seq<char> {
    match m {
        MetamagicType::Quicken => "Quicken"@,
        MetamagicType::Empower => "Empower"@,
        MetamagicType::Maximize => "Maximize"@,
        MetamagicType::Silent => "Silent"@,
        MetamagicType::Still => "Still"@,
        MetamagicType::Extend => "Extend"@,
        MetamagicType::Widen => "Widen"@,
        MetamagicType::Twin => "Twin"@,
        MetamagicType::Careful => "Careful"@,
        MetamagicType::Subtle => "Subtle"@,
    }
}

/// The mana a technique costs before mastery.
pub open spec fn metamagic_cost(m: MetamagicType) -> int {
    match m {
        MetamagicType::Quicken => 50,
        MetamagicType::Empower => 20,
        MetamagicType::Maximize => 30,
        MetamagicType::Silent => 15,
        MetamagicType::Still => 15,
        MetamagicType::Extend => 25,
        MetamagicType::Widen => 25,
        MetamagicType::Twin => 40,
        MetamagicType::Careful => 20,
        MetamagicType::Subtle => 10,
    }
}

/// Every technique, in order.
pub open spec fn all_metamagics() -> Seq<MetamagicType> {
    seq![
        MetamagicType::Quicken,
        MetamagicType::Empower,
        MetamagicType::Maximize,
        MetamagicType::Silent,
        MetamagicType::Still,
        MetamagicType::Extend,
        MetamagicType::Widen,
        MetamagicType::Twin,
        MetamagicType::Careful,
        MetamagicType::Subtle,
    ]
}

impl MetamagicType {
    /// The technique's name.
    pub fn name(&self) -> (s: &'static str)
        ensures
            s@ == metamagic_name(*self),
    {
        match self {
            MetamagicType::Quicken => "Quicken",
            MetamagicType::Empower => "Empower",
            MetamagicType::Maximize => "Maximize",
            MetamagicType::Silent => "Silent",
            MetamagicType::Still => "Still",
            MetamagicType::Extend => "Extend",
            MetamagicType::Widen => "Widen",
            MetamagicType::Twin => "Twin",
            MetamagicType::Careful => "Careful",
            MetamagicType::Subtle => "Subtle",
        }
    }

    /// The mana the technique costs before mastery.
    pub fn base_cost(&self) -> (c: i32)
        ensures
            c == metamagic_cost(*self),
    {
        match self {
            MetamagicType::Quicken => 50,
            MetamagicType::Empower => 20,
            MetamagicType::Maximize => 30,
            MetamagicType::Silent => 15,
            MetamagicType::Still => 15,
            MetamagicType::Extend => 25,
            MetamagicType::Widen => 25,
            MetamagicType::Twin => 40,
            MetamagicType::Careful => 20,
            MetamagicType::Subtle => 10,
        }
    }

    /// Every technique, in order.
    pub fn all() -> (v: Vec<MetamagicType>)
        ensures
            v@ == all_metamagics(),
    {
        let v = vec![
            MetamagicType::Quicken,
            MetamagicType::Empower,
            MetamagicType::Maximize,
            MetamagicType::Silent,
            MetamagicType::Still,
            MetamagicType::Extend,
            MetamagicType::Widen,
            MetamagicType::Twin,
            MetamagicType::Careful,
            MetamagicType::Subtle,
        ];
        assert(v@ =~= all_metamagics());
        v
    }
}

/// The mastery each technique of a list of `(technique, mastery)` entries
/// stands for.
pub open spec fn mastery_map(s: Seq<(MetamagicType, u8)>) -> Map<MetamagicType, u8>
    decreases s.len(),
{
    if s.len() == 0 {
        Map::empty()
    } else {
        mastery_map(s.drop_last()).insert(s.last().0, s.last().1)
    }
}

/// No technique appears in two entries.
pub open spec fn distinct_techniques(s: Seq<(MetamagicType, u8)>) -> bool {
    forall|i: int, j: int| 0 <= i < j < s.len() ==> s[i].0 != s[j].0
}

proof fn lemma_mastery_index(s: Seq<(MetamagicType, u8)>, i: int)
    requires
        distinct_techniques(s),
        0 <= i < s.len(),
    ensures
        mastery_map(s).contains_key(s[i].0),
        mastery_map(s)[s[i].0] == s[i].1,
    decreases s.len(),
{
    if i < s.len() - 1 {
        lemma_mastery_index(s.drop_last(), i);
    }
}

proof fn lemma_mastery_absent(s: Seq<(MetamagicType, u8)>, t: MetamagicType)
    requires
        forall|i: int| 0 <= i < s.len() ==> s[i].0 != t,
    ensures
        !mastery_map(s).contains_key(t),
    decreases s.len(),
{
    if s.len() > 0 {
        lemma_mastery_absent(s.drop_last(), t);
    }
}

proof fn lemma_mastery_update(s: Seq<(MetamagicType, u8)>, i: int, v: u8)
    requires
        distinct_techniques(s),
        0 <= i < s.len(),
    ensures
        mastery_map(s.update(i, (s[i].0, v))) == mastery_map(s).insert(s[i].0, v),
    decreases s.len(),
{
    let u = s.update(i, (s[i].0, v));
    if i == s.len() - 1 {
        assert(u.drop_last() =~= s.drop_last());
        assert(mastery_map(u) =~= mastery_map(s).insert(s[i].0, v));
    } else {
        assert(u.drop_last() =~= s.drop_last().update(i, (s[i].0, v)));
        lemma_mastery_update(s.drop_last(), i, v);
        assert(mastery_map(u) =~= mastery_map(s).insert(s[i].0, v));
    }
}

/// The techniques a caster knows, with mastery from 0 to 100.
#[derive(Debug, Clone)]
pub struct MetamagicKnowledge {
    /// `(technique, mastery)` entries in the order learnt.
    pub known: Vec<(MetamagicType, u8)>,
    /// Experience earned with techniques.
    pub total_xp: u32,
    /// Points to spend on new techniques.
    pub points_available: u32,
}

impl View for MetamagicKnowledge {
    type V = Map<MetamagicType, u8>;

    open spec fn view(&self) -> Map<MetamagicType, u8> {
        mastery_map(self.known@)
    }
}

/// The mastery of technique `t` in `m`, 0 when unknown.
pub open spec fn mastery_of(m: Map<MetamagicType, u8>, t: MetamagicType) -> u8 {
    if m.contains_key(t) { m[t] } else { 0 }
}

impl Default for MetamagicKnowledge {
    /// Nothing known, no experience, no points.
    fn default() -> (k: Self)
        ensures
            k.wf(),
            k@ == Map::<MetamagicType, u8>::empty(),
            k.total_xp == 0 && k.points_available == 0,
    {
        MetamagicKnowledge::new()
    }
}

impl MetamagicKnowledge {
    /// No technique has two entries.
    pub open spec fn wf(&self) -> bool {
        distinct_techniques(self.known@)
    }

    /// Nothing known, no experience, no points.
    pub fn new() -> (k: Self)
        ensures
            k.wf(),
            k@ == Map::<MetamagicType, u8>::empty(),
            k.total_xp == 0 && k.points_available == 0,
    {
        MetamagicKnowledge { known: Vec::new(), total_xp: 0, points_available: 0 }
    }

    /// Position of the entry for `t`.
    /// Whether no technique has two entries (what `wf` asks of a value
    /// built field by field).
    pub fn techniques_distinct(&self) -> (r: bool)
        ensures
            r == self.wf(),
    {
        let n = self.known.len();
        let mut i: usize = 0;
        while i < n
            invariant
                n == self.known@.len(),
                i <= n,
                forall|a: int, b: int| 0 <= a < b < n && a < i ==> self.known@[a].0 != self.known@[b].0,
            decreases n - i,
        {
            let mut j: usize = i + 1;
            while j < n
                invariant
                    n == self.known@.len(),
                    i < n,
                    i + 1 <= j <= n,
                    forall|a: int, b: int| 0 <= a < b < n && a < i ==> self.known@[a].0 != self.known@[b].0,
                    forall|b: int| i < b < j ==> self.known@[i as int].0 != self.known@[b].0,
                decreases n - j,
            {
                if self.known[i].0 == self.known[j].0 {
                    return false;
                }
                j = j + 1;
            }
            i = i + 1;
        }
        true
    }

    fn find(&self, t: MetamagicType) -> (r: Option<usize>)
        requires
            self.wf(),
        ensures
            r matches Some(i) ==> i < self.known@.len() && self.known@[i as int].0 == t,
            r is None ==> !self@.contains_key(t),
    {
        let mut i: usize = 0;
        while i < self.known.len()
            invariant
                i <= self.known@.len(),
                forall|j: int| 0 <= j < i ==> self.known@[j].0 != t,
            decreases self.known@.len() - i,
        {
            if self.known[i].0 == t {
                return Some(i);
            }
            i = i + 1;
        }
        proof {
            lemma_mastery_absent(self.known@, t);
        }
        None
    }

    /// Learn a technique at mastery 1; refused if already known.
    pub fn learn(&mut self, metamagic: MetamagicType) -> (r: bool)
        requires
            old(self).wf(),
        ensures
            final(self).wf(),
            r == !old(self)@.contains_key(metamagic),
            r ==> final(self)@ == old(self)@.insert(metamagic, 1),
            !r ==> final(self)@ == old(self)@,
            final(self).total_xp == old(self).total_xp,
            final(self).points_available == old(self).points_available,
    {
        match self.find(metamagic) {
            Some(i) => {
                proof {
                    lemma_mastery_index(self.known@, i as int);
                }
                false
            },
            None => {
                proof {
                    lemma_mastery_absent_all(self.known@, metamagic);
                }
                self.known.push((metamagic, 1));
                proof {
                    assert(self.known@.drop_last() =~= old(self).known@);
                }
                true
            },
        }
    }

    /// Whether a technique is known.
    pub fn knows(&self, metamagic: MetamagicType) -> (r: bool)
        requires
            self.wf(),
        ensures
            r == self@.contains_key(metamagic),
    {
        match self.find(metamagic) {
            Some(i) => {
                proof {
                    lemma_mastery_index(self.known@, i as int);
                }
                true
            },
            None => false,
        }
    }

    /// The mastery of a technique, 0 when unknown.
    pub fn mastery_level(&self, metamagic: MetamagicType) -> (l: u8)
        requires
            self.wf(),
        ensures
            l == mastery_of(self@, metamagic),
    {
        match self.find(metamagic) {
            Some(i) => {
                proof {
                    lemma_mastery_index(self.known@, i as int);
                }
                self.known[i].1
            },
            None => 0,
        }
    }

    /// Using a known technique earns a point of experience (held at the
    /// largest `u32`) and a point of mastery below 100.
    pub fn record_use(&mut self, metamagic: MetamagicType)
        requires
            old(self).wf(),
        ensures
            final(self).wf(),
            final(self).points_available == old(self).points_available,
            !old(self)@.contains_key(metamagic) ==> *final(self) == *old(self),
            old(self)@.contains_key(metamagic) ==> {
                &&& final(self).total_xp == (if old(self).total_xp == u32::MAX { u32::MAX } else { (
                    old(self).total_xp + 1) as u32 })
                &&& final(self)@ == old(self)@.insert(metamagic, (if old(self)@[metamagic] < 100 {
                    old(self)@[metamagic] + 1
                } else {
                    old(self)@[metamagic] as int
                }) as u8)
            },
    {
        match self.find(metamagic) {
            Some(i) => {
                proof {
                    lemma_mastery_index(self.known@, i as int);
                }
                self.total_xp = self.total_xp.saturating_add(1);
                let level = self.known[i].1;
                let next: u8 = if level < 100 { level + 1 } else { level };
                proof {
                    lemma_mastery_update(self.known@, i as int, next);
                }
                self.known.set(i, (metamagic, next));
            },
            None => {},
        }
    }

    /// The failure chance a technique's mastery takes off: a tenth of the
    /// mastery, at most 30.
    pub fn get_difficulty_reduction(&self, metamagic: MetamagicType) -> (r: i32)
        requires
            self.wf(),
        ensures
            r == (if mastery_of(self@, metamagic) / 10 < 30 { mastery_of(self@, metamagic) / 10 } else { 30 }),
    {
        let mastery = self.mastery_level(metamagic) as i32;
        if mastery / 10 < 30 { mastery / 10 } else { 30 }
    }
}

proof fn lemma_mastery_absent_all(s: Seq<(MetamagicType, u8)>, t: MetamagicType)
    requires
        distinct_techniques(s),
        !mastery_map(s).contains_key(t),
    ensures
        distinct_techniques(s.push((t, 1))),
        mastery_map(s.push((t, 1))) == mastery_map(s).insert(t, 1),
{
    assert forall|i: int| 0 <= i < s.len() implies s[i].0 != t by {
        lemma_mastery_index(s, i);
    }
    assert(s.push((t, 1)).drop_last() =~= s);
}

/// Whether every technique of `ms` is known.
pub open spec fn all_known(k: Map<MetamagicType, u8>, ms: Seq<MetamagicType>) -> bool {
    forall|i: int| 0 <= i < ms.len() ==> k.contains_key(#[trigger] ms[i])
}

/// Whether techniques can be applied to a cast: at least one is chosen, and
/// the caster knows each of them.
pub fn metamagic_applicable(knowledge: &MetamagicKnowledge, metamagics: &[MetamagicType]) -> (r: bool)
    requires
        knowledge.wf(),
    ensures
        r == (metamagics@.len() > 0 && all_known(knowledge@, metamagics@)),
{
    if metamagics.len() == 0 {
        return false;
    }
    all_techniques_known(knowledge, metamagics)
}

fn all_techniques_known(knowledge: &MetamagicKnowledge, metamagics: &[MetamagicType]) -> (r: bool)
    requires
        knowledge.wf(),
    ensures
        r == all_known(knowledge@, metamagics@),
{
    let mut i: usize = 0;
    while i < metamagics.len()
        invariant
            knowledge.wf(),
            i <= metamagics@.len(),
            all_known(knowledge@, metamagics@.take(i as int)),
        decreases metamagics@.len() - i,
    {
        if !knowledge.knows(metamagics[i]) {
            proof {
                assert(!knowledge@.contains_key(metamagics@[i as int]));
            }
            return false;
        }
        proof {
            assert forall|j: int| 0 <= j < i + 1 implies knowledge@.contains_key(#[trigger] metamagics@.take(
                i as int + 1,
            )[j]) by {
                if j < i {
                    assert(metamagics@.take(i as int + 1)[j] == metamagics@.take(i as int)[j]);
                }
            }
        }
        i = i + 1;
    }
    proof {
        assert(metamagics@.take(metamagics@.len() as int) =~= metamagics@);
    }
    true
}

/// How the mana cost of a cast with techniques is made up.
#[derive(Debug, Clone)]
pub enum MetamagicCostPlan {
    /// No technique chosen: the cost is the spell's base cost.
    Base,
    /// Some chosen technique is unknown: the cast cannot be made so.
    UnknownTechnique,
    /// For each chosen technique, in order, its base cost and the caster's
    /// mastery of it, by which that cost is reduced.
    Reduced(Vec<(i32, u8)>),
}

/// The make-up of the mana cost of a cast with the techniques `metamagics`.
pub fn metamagic_cost_plan(knowledge: &MetamagicKnowledge, metamagics: &[MetamagicType]) -> (p: MetamagicCostPlan)
    requires
        knowledge.wf(),
    ensures
        metamagics@.len() == 0 ==> p is Base,
        metamagics@.len() > 0 && !all_known(knowledge@, metamagics@) ==> p is UnknownTechnique,
        metamagics@.len() > 0 && all_known(knowledge@, metamagics@) ==> (p matches MetamagicCostPlan::Reduced(v)
            && v@.len() == metamagics@.len() && forall|i: int| 0 <= i < v@.len() ==> #[trigger] v@[i] == (
            metamagic_cost(metamagics@[i]) as i32,
            mastery_of(knowledge@, metamagics@[i]),
        )),
{
    if metamagics.len() == 0 {
        return MetamagicCostPlan::Base;
    }
    if !all_techniques_known(knowledge, metamagics) {
        return MetamagicCostPlan::UnknownTechnique;
    }
    let mut v: Vec<(i32, u8)> = Vec::new();
    let mut i: usize = 0;
    while i < metamagics.len()
        invariant
            knowledge.wf(),
            i <= metamagics@.len(),
            v@.len() == i,
            forall|j: int| 0 <= j < i ==> #[trigger] v@[j] == (metamagic_cost(metamagics@[j]) as i32, mastery_of(
                knowledge@,
                metamagics@[j],
            )),
        decreases metamagics@.len() - i,
    {
        let m = metamagics[i];
        v.push((m.base_cost(), knowledge.mastery_level(m)));
        i = i + 1;
    }
    MetamagicCostPlan::Reduced(v)
}

/// Learning a technique and then using it raises its mastery from 1 to 2.
pub proof fn lemma_learn_then_use(m: Map<MetamagicType, u8>, t: MetamagicType)
    requires
        !m.contains_key(t),
    ensures
        mastery_of(m.insert(t, 1).insert(t, (if m.insert(t, 1)[t] < 100 { m.insert(t, 1)[t] + 1 } else {
            m.insert(t, 1)[t] as int
        }) as u8), t) == 2,
{
}

/// What techniques do to a cast besides scaling it: the failure chance they
/// add, the flags they set and the targets they allow.
#[derive(Debug, Clone, Copy, PartialEq, Eq, Structural)]
pub struct MetamagicTraits {
    /// Percentage points added to the failure chance.
    pub difficulty_increase: i32,
    pub ignores_resistance: bool,
    pub maximized: bool,
    pub target_count: u8,
    pub requires_verbal: bool,
    pub requires_somatic: bool,
}

/// A plain cast: nothing added, one target, both components needed.
pub open spec fn plain_traits() -> MetamagicTraits {
    MetamagicTraits {
        difficulty_increase: 0,
        ignores_resistance: false,
        maximized: false,
        target_count: 1,
        requires_verbal: true,
        requires_somatic: true,
    }
}

/// The traits of a technique.
pub open spec fn technique_traits(m: MetamagicType) -> MetamagicTraits {
    match m {
        MetamagicType::Quicken => MetamagicTraits { difficulty_increase: 10, ..plain_traits() },
        MetamagicType::Empower => MetamagicTraits { difficulty_increase: 5, ..plain_traits() },
        MetamagicType::Maximize => MetamagicTraits { maximized: true, difficulty_increase: 10, ..plain_traits() },
        MetamagicType::Silent => MetamagicTraits { requires_verbal: false, difficulty_increase: 5, ..plain_traits() },
        MetamagicType::Still => MetamagicTraits { requires_somatic: false, difficulty_increase: 5, ..plain_traits() },
        MetamagicType::Extend => MetamagicTraits { difficulty_increase: 5, ..plain_traits() },
        MetamagicType::Widen => MetamagicTraits { difficulty_increase: 5, ..plain_traits() },
        MetamagicType::Twin => MetamagicTraits { target_count: 2, difficulty_increase: 10, ..plain_traits() },
        MetamagicType::Careful => MetamagicTraits { ignores_resistance: true, ..plain_traits() },
        MetamagicType::Subtle => plain_traits(),
    }
}

/// The difficulty the traits of `s` add up to.
pub open spec fn difficulty_sum(s: Seq<MetamagicTraits>) -> int
    decreases s.len(),
{
    if s.len() == 0 {
        0
    } else {
        difficulty_sum(s.drop_last()) + s.last().difficulty_increase
    }
}

/// The traits of `s` stacked on a plain cast, before the difficulty cap: the
/// difficulties add up, a flag set by one is set, the most targets any
/// allows are allowed, and a component is needed only if all need it.
pub open spec fn stacked(s: Seq<MetamagicTraits>) -> MetamagicTraits
    decreases s.len(),
{
    if s.len() == 0 {
        plain_traits()
    } else {
        let r = stacked(s.drop_last());
        let m = s.last();
        MetamagicTraits {
            difficulty_increase: (r.difficulty_increase + m.difficulty_increase) as i32,
            ignores_resistance: r.ignores_resistance || m.ignores_resistance,
            maximized: r.maximized || m.maximized,
            target_count: if m.target_count > r.target_count { m.target_count } else { r.target_count },
            requires_verbal: r.requires_verbal && m.requires_verbal,
            requires_somatic: r.requires_somatic && m.requires_somatic,
        }
    }
}

/// The traits of `s` stacked, with the difficulty added held at 90.
pub open spec fn combined_traits(s: Seq<MetamagicTraits>) -> MetamagicTraits {
    let r = stacked(s);
    MetamagicTraits { difficulty_increase: if r.difficulty_increase < 90 { r.difficulty_increase } else { 90 }, ..r }
}

impl MetamagicTraits {
    /// A plain cast.
    pub fn plain() -> (t: Self)
        ensures
            t == plain_traits(),
    {
        MetamagicTraits {
            difficulty_increase: 0,
            ignores_resistance: false,
            maximized: false,
            target_count: 1,
            requires_verbal: true,
            requires_somatic: true,
        }
    }

    /// The traits of a technique.
    pub fn for_metamagic(metamagic: MetamagicType) -> (t: Self)
        ensures
            t == technique_traits(metamagic),
    {
        let p = MetamagicTraits::plain();
        match metamagic {
            MetamagicType::Quicken => MetamagicTraits { difficulty_increase: 10, ..p },
            MetamagicType::Empower => MetamagicTraits { difficulty_increase: 5, ..p },
            MetamagicType::Maximize => MetamagicTraits { maximized: true, difficulty_increase: 10, ..p },
            MetamagicType::Silent => MetamagicTraits { requires_verbal: false, difficulty_increase: 5, ..p },
            MetamagicType::Still => MetamagicTraits { requires_somatic: false, difficulty_increase: 5, ..p },
            MetamagicType::Extend => MetamagicTraits { difficulty_increase: 5, ..p },
            MetamagicType::Widen => MetamagicTraits { difficulty_increase: 5, ..p },
            MetamagicType::Twin => MetamagicTraits { target_count: 2, difficulty_increase: 10, ..p },
            MetamagicType::Careful => MetamagicTraits { ignores_resistance: true, ..p },
            MetamagicType::Subtle => p,
        }
    }

    /// Stack the traits of several techniques; the difficulty added is at
    /// most 90.
    pub fn combine(traits: &[MetamagicTraits]) -> (t: Self)
        requires
            forall|k: int| 0 <= k <= traits@.len() ==> i32::MIN <= #[trigger] difficulty_sum(traits@.take(k))
                <= i32::MAX,
        ensures
            t == combined_traits(traits@),
    {
        let mut r = MetamagicTraits::plain();
        let mut i: usize = 0;
        while i < traits.len()
            invariant
                i <= traits@.len(),
                forall|k: int| 0 <= k <= traits@.len() ==> i32::MIN <= #[trigger] difficulty_sum(traits@.take(k))
                    <= i32::MAX,
                r == stacked(traits@.take(i as int)),
                r.difficulty_increase == difficulty_sum(traits@.take(i as int)),
            decreases traits@.len() - i,
        {
            proof {
                assert(traits@.take(i as int + 1).drop_last() =~= traits@.take(i as int));
                assert(i32::MIN <= difficulty_sum(traits@.take(i as int + 1)) <= i32::MAX);
            }
            let m = traits[i];
            r = MetamagicTraits {
                difficulty_increase: r.difficulty_increase + m.difficulty_increase,
                ignores_resistance: r.ignores_resistance || m.ignores_resistance,
                maximized: r.maximized || m.maximized,
                target_count: if m.target_count > r.target_count { m.target_count } else { r.target_count },
                requires_verbal: r.requires_verbal && m.requires_verbal,
                requires_somatic: r.requires_somatic && m.requires_somatic,
            };
            i = i + 1;
        }
        proof {
            assert(traits@.take(traits@.len() as int) =~= traits@);
        }
        if r.difficulty_increase > 90 {
            r = MetamagicTraits { difficulty_increase: 90, ..r };
        }
        r
    }
}

/// Stacked techniques need a component only if each of them does, set a
/// flag when any of them does, and allow at least one target and as many as
/// any of them allows.
pub proof fn lemma_stacked_flags(s: Seq<MetamagicTraits>)
    ensures
        combined_traits(s).requires_verbal <==> forall|i: int| 0 <= i < s.len() ==> #[trigger] s[i].requires_verbal,
        combined_traits(s).requires_somatic <==> forall|i: int| 0 <= i < s.len() ==> #[trigger] s[i].requires_somatic,
        combined_traits(s).ignores_resistance <==> exists|i: int| 0 <= i < s.len() && #[trigger] s[i].ignores_resistance,
        combined_traits(s).maximized <==> exists|i: int| 0 <= i < s.len() && #[trigger] s[i].maximized,
        combined_traits(s).target_count >= 1,
        forall|i: int| 0 <= i < s.len() ==> combined_traits(s).target_count >= #[trigger] s[i].target_count,
        combined_traits(s).difficulty_increase <= 90,
    decreases s.len(),
{
    if s.len() > 0 {
        let d = s.drop_last();
        lemma_stacked_flags(d);
        assert forall|i: int| 0 <= i < d.len() implies #[trigger] d[i] == s[i] by {}
        if combined_traits(s).requires_verbal {
            assert forall|i: int| 0 <= i < s.len() implies #[trigger] s[i].requires_verbal by {
                if i < d.len() {
                    assert(d[i].requires_verbal);
                }
            }
        }
        if forall|i: int| 0 <= i < s.len() ==> #[trigger] s[i].requires_verbal {
            assert forall|i: int| 0 <= i < d.len() implies #[trigger] d[i].requires_verbal by {
                assert(s[i].requires_verbal);
            }
            assert(s[s.len() - 1].requires_verbal);
        }
        if combined_traits(s).requires_somatic {
            assert forall|i: int| 0 <= i < s.len() implies #[trigger] s[i].requires_somatic by {
                if i < d.len() {
                    assert(d[i].requires_somatic);
                }
            }
        }
        if forall|i: int| 0 <= i < s.len() ==> #[trigger] s[i].requires_somatic {
            assert forall|i: int| 0 <= i < d.len() implies #[trigger] d[i].requires_somatic by {
                assert(s[i].requires_somatic);
            }
            assert(s[s.len() - 1].requires_somatic);
        }
        if combined_traits(s).ignores_resistance {
            if !s.last().ignores_resistance {
                let i = choose|i: int| 0 <= i < d.len() && #[trigger] d[i].ignores_resistance;
                assert(s[i].ignores_resistance);
            } else {
                assert(s[s.len() - 1].ignores_resistance);
            }
        }
        if exists|i: int| 0 <= i < s.len() && #[trigger] s[i].ignores_resistance {
            let i = choose|i: int| 0 <= i < s.len() && #[trigger] s[i].ignores_resistance;
            if i < d.len() {
                assert(d[i].ignores_resistance);
            }
        }
        if combined_traits(s).maximized {
            if !s.last().maximized {
                let i = choose|i: int| 0 <= i < d.len() && #[trigger] d[i].maximized;
                assert(s[i].maximized);
            } else {
                assert(s[s.len() - 1].maximized);
            }
        }
        if exists|i: int| 0 <= i < s.len() && #[trigger] s[i].maximized {
            let i = choose|i: int| 0 <= i < s.len() && #[trigger] s[i].maximized;
            if i < d.len() {
                assert(d[i].maximized);
            }
        }
        assert forall|i: int| 0 <= i < s.len() implies combined_traits(s).target_count >= #[trigger] s[i].target_count by {
            if i < d.len() {
                assert(combined_traits(d).target_count >= d[i].target_count);
            }
        }
    }
}

} // verus!
