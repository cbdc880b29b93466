//! Progress toward mastering spells: every cast counts, mastery grows with
//! practice, and milestones are announced once each.

use vstd::prelude::*;
use crate::magic::spell::{SpellMastery, SpellType, mastery_rank};

verus! {

/// A milestone on the way to mastering a spell.
#[derive(Debug, Clone, Copy, PartialEq, Eq, Structural)]
pub enum MasteryMilestone {
    ReachedNovice,
    ReachedAdept,
    ReachedExpert,
    ReachedMaster,
    ReachedArchmage,
}

/// The casts a milestone stands for.
pub open spec fn milestone_requirement(m: MasteryMilestone) -> int {
    match m {
        MasteryMilestone::ReachedNovice => 1,
        MasteryMilestone::ReachedAdept => 50,
        MasteryMilestone::ReachedExpert => 200,
        MasteryMilestone::ReachedMaster => 500,
        MasteryMilestone::ReachedArchmage => 1000,
    }
}

/// The announcement of a milestone.
pub open spec fn milestone_message(m: MasteryMilestone) -> Seq<char> {
    match m {
        MasteryMilestone::ReachedNovice => "You have reached Novice mastery!"@,
        MasteryMilestone::ReachedAdept => "You have reached Adept mastery!"@,
        MasteryMilestone::ReachedExpert => "You have reached Expert mastery!"@,
        MasteryMilestone::ReachedMaster => "You have reached Master mastery!"@,
        MasteryMilestone::ReachedArchmage => "You have reached Archmage mastery!"@,
    }
}

/// The bonus a milestone grants.
pub open spec fn milestone_bonus(m: MasteryMilestone) -> int {
    match m {
        MasteryMilestone::ReachedNovice => 5,
        MasteryMilestone::ReachedAdept => 10,
        MasteryMilestone::ReachedExpert => 20,
        MasteryMilestone::ReachedMaster => 30,
        MasteryMilestone::ReachedArchmage => 50,
    }
}

/// The milestone reached at exactly `times` casts, if any.
pub open spec fn milestone_at(times: int) -> Option<MasteryMilestone> {
    if times == 1 {
        Some(MasteryMilestone::ReachedNovice)
    } else if times == 50 {
        Some(MasteryMilestone::ReachedAdept)
    } else if times == 200 {
        Some(MasteryMilestone::ReachedExpert)
    } else if times == 500 {
        Some(MasteryMilestone::ReachedMaster)
    } else if times == 1000 {
        Some(MasteryMilestone::ReachedArchmage)
    } else {
        None
    }
}

impl MasteryMilestone {
    /// The casts the milestone stands for.
    pub fn requirement(&self) -> (r: i32)
        ensures
            r == milestone_requirement(*self),
    {
        match self {
            MasteryMilestone::ReachedNovice => 1,
            MasteryMilestone::ReachedAdept => 50,
            MasteryMilestone::ReachedExpert => 200,
            MasteryMilestone::ReachedMaster => 500,
            MasteryMilestone::ReachedArchmage => 1000,
        }
    }

    /// The milestone's announcement.
    pub fn message(&self) -> (s: &'static str)
        ensures
            s@ == milestone_message(*self),
    {
        match self {
            MasteryMilestone::ReachedNovice => "You have reached Novice mastery!",
            MasteryMilestone::ReachedAdept => "You have reached Adept mastery!",
            MasteryMilestone::ReachedExpert => "You have reached Expert mastery!",
            MasteryMilestone::ReachedMaster => "You have reached Master mastery!",
            MasteryMilestone::ReachedArchmage => "You have reached Archmage mastery!",
        }
    }

    /// The bonus the milestone grants.
    pub fn bonus(&self) -> (r: i32)
        ensures
            r == milestone_bonus(*self),
    {
        match self {
            MasteryMilestone::ReachedNovice => 5,
            MasteryMilestone::ReachedAdept => 10,
            MasteryMilestone::ReachedExpert => 20,
            MasteryMilestone::ReachedMaster => 30,
            MasteryMilestone::ReachedArchmage => 50,
        }
    }
}

/// A caster's practice with one spell.
#[derive(Debug, Clone)]
pub struct SpellMasteryProgress {
    pub spell_type: SpellType,
    pub mastery: SpellMastery,
    pub times_cast: i32,
    pub times_succeeded: i32,
    pub times_failed: i32,
    /// Casts that went beyond the expected effect.
    pub critical_hits: i32,
    pub milestones_reached: Vec<MasteryMilestone>,
}

/// The mastery after a cast that brings the count to `times`: a mastery
/// advances one step when the count reaches its threshold.
pub open spec fn advanced(m: SpellMastery, times: int) -> SpellMastery {
    match m {
        SpellMastery::Unknown => if times >= 5 { SpellMastery::Novice } else { m },
        SpellMastery::Novice => if times >= 50 { SpellMastery::Adept } else { m },
        SpellMastery::Adept => if times >= 200 { SpellMastery::Expert } else { m },
        SpellMastery::Expert => if times >= 500 { SpellMastery::Master } else { m },
        SpellMastery::Master => m,
    }
}

/// `p` after one more cast, successful or not.
pub open spec fn after_spell_cast(p: SpellMasteryProgress, succeeded: bool) -> SpellMasteryProgress {
    SpellMasteryProgress {
        times_cast: (p.times_cast + 1) as i32,
        times_succeeded: if succeeded { (p.times_succeeded + 1) as i32 } else { p.times_succeeded },
        times_failed: if succeeded { p.times_failed } else { (p.times_failed + 1) as i32 },
        mastery: advanced(p.mastery, p.times_cast + 1),
        ..p
    }
}

/// `p` after one more critical hit.
pub open spec fn after_critical(p: SpellMasteryProgress) -> SpellMasteryProgress {
    SpellMasteryProgress { critical_hits: (p.critical_hits + 1) as i32, ..p }
}

/// Whether `p` is the progress of spell `t` after its first cast.
pub open spec fn first_cast(p: SpellMasteryProgress, t: SpellType, succeeded: bool) -> bool {
    &&& p.spell_type == t
    &&& p.mastery == SpellMastery::Unknown
    &&& p.times_cast == 1
    &&& p.times_succeeded == (if succeeded { 1int } else { 0int })
    &&& p.times_failed == (if succeeded { 0int } else { 1int })
    &&& p.critical_hits == 0
    &&& p.milestones_reached@ == Seq::<MasteryMilestone>::empty()
}

/// Whether a spell at mastery `m`, cast `times` times with success rate
/// `rate` percent, is ready for its next mastery.
pub open spec fn ready_for_advancement(m: SpellMastery, times: int, rate: int) -> bool {
    match m {
        SpellMastery::Unknown => times >= 5 && rate >= 50,
        SpellMastery::Novice => times >= 50 && rate >= 60,
        SpellMastery::Adept => times >= 200 && rate >= 70,
        SpellMastery::Expert => times >= 500 && rate >= 80,
        SpellMastery::Master => false,
    }
}

impl SpellMasteryProgress {
    /// A spell never cast.
    pub fn new(spell_type: SpellType) -> (p: Self)
        ensures
            p.spell_type == spell_type,
            p.mastery == SpellMastery::Unknown,
            p.times_cast == 0 && p.times_succeeded == 0 && p.times_failed == 0 && p.critical_hits == 0,
            p.milestones_reached@ == Seq::<MasteryMilestone>::empty(),
    {
        SpellMasteryProgress {
            spell_type,
            mastery: SpellMastery::Unknown,
            times_cast: 0,
            times_succeeded: 0,
            times_failed: 0,
            critical_hits: 0,
            milestones_reached: Vec::new(),
        }
    }

    /// Record a cast, then advance the mastery if its threshold is reached.
    pub fn cast_spell(&mut self, succeeded: bool)
        requires
            old(self).times_cast < i32::MAX,
            succeeded ==> old(self).times_succeeded < i32::MAX,
            !succeeded ==> old(self).times_failed < i32::MAX,
        ensures
            *final(self) == after_spell_cast(*old(self), succeeded),
    {
        self.times_cast = self.times_cast + 1;
        if succeeded {
            self.times_succeeded = self.times_succeeded + 1;
        } else {
            self.times_failed = self.times_failed + 1;
        }
        self.check_advancement();
    }

    /// Advance the mastery one step if the casts reach its threshold.
    fn check_advancement(&mut self)
        ensures
            *final(self) == (SpellMasteryProgress {
                mastery: advanced(old(self).mastery, old(self).times_cast as int),
                ..*old(self)
            }),
    {
        let next_level = match self.mastery {
            SpellMastery::Unknown => if self.times_cast >= 5 { SpellMastery::Novice } else { self.mastery },
            SpellMastery::Novice => if self.times_cast >= 50 { SpellMastery::Adept } else { self.mastery },
            SpellMastery::Adept => if self.times_cast >= 200 { SpellMastery::Expert } else { self.mastery },
            SpellMastery::Expert => if self.times_cast >= 500 { SpellMastery::Master } else { self.mastery },
            SpellMastery::Master => self.mastery,
        };
        if next_level != self.mastery {
            self.mastery = next_level;
        }
    }

    /// Record a critical hit.
    pub fn critical_hit(&mut self)
        requires
            old(self).critical_hits < i32::MAX,
        ensures
            *final(self) == after_critical(*old(self)),
    {
        self.critical_hits = self.critical_hits + 1;
    }
}

/// Whether a spell is ready for its next mastery, given its success rate in
/// percent.
pub fn ready_for_advancement_at(progress: &SpellMasteryProgress, success_rate: i32) -> (r: bool)
    ensures
        r == ready_for_advancement(progress.mastery, progress.times_cast as int, success_rate as int),
{
    match progress.mastery {
        SpellMastery::Unknown => progress.times_cast >= 5 && success_rate >= 50,
        SpellMastery::Novice => progress.times_cast >= 50 && success_rate >= 60,
        SpellMastery::Adept => progress.times_cast >= 200 && success_rate >= 70,
        SpellMastery::Expert => progress.times_cast >= 500 && success_rate >= 80,
        SpellMastery::Master => false,
    }
}

/// One cast never lowers a mastery and raises it by at most one step.
pub proof fn lemma_cast_advances_at_most_one(p: SpellMasteryProgress, succeeded: bool)
    ensures
        mastery_rank(p.mastery) <= mastery_rank(after_spell_cast(p, succeeded).mastery) <= mastery_rank(p.mastery)
            + 1,
        mastery_rank(after_spell_cast(p, succeeded).mastery) <= 4,
{
}

/// The position of spell `t` in a list of progress records, the last one
/// if several; -1 when absent.
pub open spec fn spell_index(s: Seq<SpellMasteryProgress>, t: SpellType) -> int
    decreases s.len(),
{
    if s.len() == 0 {
        -1
    } else if s.last().spell_type == t {
        s.len() - 1
    } else {
        spell_index(s.drop_last(), t)
    }
}

/// No spell has two records.
pub open spec fn distinct_spells(s: Seq<SpellMasteryProgress>) -> bool {
    forall|i: int, j: int| 0 <= i < j < s.len() ==> s[i].spell_type != s[j].spell_type
}

/// The mastery of spell `t`, unknown when never cast.
pub open spec fn mastery_in(s: Seq<SpellMasteryProgress>, t: SpellType) -> SpellMastery {
    let i = spell_index(s, t);
    if i >= 0 { s[i].mastery } else { SpellMastery::Unknown }
}

/// The highest mastery rank over the records, 0 when there is none.
pub open spec fn highest_mastery_rank(s: Seq<SpellMasteryProgress>) -> int
    decreases s.len(),
{
    if s.len() == 0 {
        0
    } else {
        let r = highest_mastery_rank(s.drop_last());
        let here = mastery_rank(s.last().mastery);
        if here > r { here } else { r }
    }
}

/// The number of records at mastery `m`.
pub open spec fn count_mastery(s: Seq<SpellMasteryProgress>, m: SpellMastery) -> nat
    decreases s.len(),
{
    if s.len() == 0 {
        0
    } else {
        count_mastery(s.drop_last(), m) + (if s.last().mastery == m { 1nat } else { 0nat })
    }
}

/// `x` put into a list ordered by decreasing count, after every entry with
/// a count at least as high.
pub open spec fn insert_by_usage(sorted: Seq<(SpellType, i32)>, x: (SpellType, i32)) -> Seq<(SpellType, i32)>
    decreases sorted.len(),
{
    if sorted.len() == 0 {
        seq![x]
    } else if sorted.last().1 >= x.1 {
        sorted.push(x)
    } else {
        insert_by_usage(sorted.drop_last(), x).push(sorted.last())
    }
}

/// The spells with their cast counts, most cast first; spells cast as
/// often keep the order of the records.
pub open spec fn by_usage(s: Seq<SpellMasteryProgress>) -> Seq<(SpellType, i32)>
    decreases s.len(),
{
    if s.len() == 0 {
        Seq::empty()
    } else {
        insert_by_usage(by_usage(s.drop_last()), (s.last().spell_type, s.last().times_cast))
    }
}

/// Whether a list is ordered by decreasing count.
pub open spec fn usage_sorted(v: Seq<(SpellType, i32)>) -> bool {
    forall|i: int, j: int| 0 <= i < j < v.len() ==> v[i].1 >= v[j].1
}

/// The milestone a check of spell `t` announces: the one its cast count
/// stands at, unless already announced.
pub open spec fn milestone_due(s: Seq<SpellMasteryProgress>, t: SpellType) -> Option<MasteryMilestone> {
    let i = spell_index(s, t);
    if i < 0 {
        None
    } else {
        match milestone_at(s[i].times_cast as int) {
            Some(m) => if s[i].milestones_reached@.contains(m) { None } else { Some(m) },
            None => None,
        }
    }
}

/// `s2` is `s` with milestone `m` recorded for spell `t`, all else kept.
pub open spec fn milestone_recorded(
    s: Seq<SpellMasteryProgress>,
    s2: Seq<SpellMasteryProgress>,
    t: SpellType,
    m: MasteryMilestone,
) -> bool {
    let i = spell_index(s, t);
    &&& 0 <= i < s.len()
    &&& s2.len() == s.len()
    &&& forall|j: int| 0 <= j < s.len() && j != i ==> s2[j] == s[j]
    &&& s2[i].spell_type == s[i].spell_type
    &&& s2[i].mastery == s[i].mastery
    &&& s2[i].times_cast == s[i].times_cast
    &&& s2[i].times_succeeded == s[i].times_succeeded
    &&& s2[i].times_failed == s[i].times_failed
    &&& s2[i].critical_hits == s[i].critical_hits
    &&& s2[i].milestones_reached@ == s[i].milestones_reached@.push(m)
}

proof fn lemma_spell_index_found(s: Seq<SpellMasteryProgress>, i: int)
    requires
        distinct_spells(s),
        0 <= i < s.len(),
    ensures
        spell_index(s, s[i].spell_type) == i,
    decreases s.len(),
{
    if i < s.len() - 1 {
        lemma_spell_index_found(s.drop_last(), i);
    }
}

proof fn lemma_spell_index_absent(s: Seq<SpellMasteryProgress>, t: SpellType)
    requires
        forall|j: int| 0 <= j < s.len() ==> s[j].spell_type != t,
    ensures
        spell_index(s, t) == -1,
    decreases s.len(),
{
    if s.len() > 0 {
        lemma_spell_index_absent(s.drop_last(), t);
    }
}

proof fn lemma_spell_index_range(s: Seq<SpellMasteryProgress>, t: SpellType)
    ensures
        -1 <= spell_index(s, t) < s.len(),
        spell_index(s, t) >= 0 ==> s[spell_index(s, t)].spell_type == t,
    decreases s.len(),
{
    if s.len() > 0 {
        lemma_spell_index_range(s.drop_last(), t);
    }
}

proof fn lemma_insert_by_usage_at(sorted: Seq<(SpellType, i32)>, x: (SpellType, i32), j: int)
    requires
        0 <= j <= sorted.len(),
        forall|k: int| j <= k < sorted.len() ==> sorted[k].1 < x.1,
        j > 0 ==> sorted[j - 1].1 >= x.1,
    ensures
        insert_by_usage(sorted, x) == sorted.insert(j, x),
    decreases sorted.len(),
{
    if sorted.len() == 0 {
        assert(sorted.insert(j, x) =~= seq![x]);
    } else if j == sorted.len() {
        assert(sorted.insert(j, x) =~= sorted.push(x));
    } else {
        lemma_insert_by_usage_at(sorted.drop_last(), x, j);
        assert(sorted.drop_last().insert(j, x).push(sorted.last()) =~= sorted.insert(j, x));
    }
}

proof fn lemma_insert_by_usage_sorted(sorted: Seq<(SpellType, i32)>, x: (SpellType, i32))
    requires
        usage_sorted(sorted),
    ensures
        usage_sorted(insert_by_usage(sorted, x)),
        insert_by_usage(sorted, x).len() == sorted.len() + 1,
        forall|k: int| 0 <= k < insert_by_usage(sorted, x).len() ==> #[trigger] insert_by_usage(sorted, x)[k].1 >= x.1
            || (exists|l: int| 0 <= l < sorted.len() && insert_by_usage(sorted, x)[k] == sorted[l]),
    decreases sorted.len(),
{
    if sorted.len() == 0 {
    } else if sorted.last().1 >= x.1 {
        let r = sorted.push(x);
        assert forall|k: int| 0 <= k < r.len() implies #[trigger] r[k].1 >= x.1 || (exists|l: int|
            0 <= l < sorted.len() && r[k] == sorted[l]) by {
            if k < sorted.len() {
                assert(r[k] == sorted[k]);
            }
        }
    } else {
        let d = sorted.drop_last();
        lemma_insert_by_usage_sorted(d, x);
        let inner = insert_by_usage(d, x);
        let r = inner.push(sorted.last());
        assert forall|a: int, b: int| 0 <= a < b < r.len() implies r[a].1 >= r[b].1 by {
            if b == r.len() - 1 {
                if inner[a].1 >= x.1 {
                } else {
                    let l = choose|l: int| 0 <= l < d.len() && inner[a] == d[l];
                    assert(sorted[l] == d[l]);
                }
            }
        }
        assert forall|k: int| 0 <= k < r.len() implies #[trigger] r[k].1 >= x.1 || (exists|l: int|
            0 <= l < sorted.len() && r[k] == sorted[l]) by {
            if k < inner.len() {
                assert(r[k] == inner[k]);
                if inner[k].1 < x.1 {
                    let l = choose|l: int| 0 <= l < d.len() && inner[k] == d[l];
                    assert(sorted[l] == d[l]);
                }
            } else {
                assert(r[k] == sorted[sorted.len() - 1]);
            }
        }
    }
}

/// Spells listed by usage come most cast first.
pub proof fn lemma_by_usage_sorted(s: Seq<SpellMasteryProgress>)
    ensures
        usage_sorted(by_usage(s)),
        by_usage(s).len() == s.len(),
    decreases s.len(),
{
    if s.len() > 0 {
        lemma_by_usage_sorted(s.drop_last());
        lemma_insert_by_usage_sorted(by_usage(s.drop_last()), (s.last().spell_type, s.last().times_cast));
    }
}

/// Once a milestone is announced for a spell, checking the spell again
/// announces nothing until it is cast again.
pub proof fn lemma_milestone_announced_once(
    s: Seq<SpellMasteryProgress>,
    s2: Seq<SpellMasteryProgress>,
    t: SpellType,
    m: MasteryMilestone,
)
    requires
        distinct_spells(s),
        milestone_due(s, t) == Some(m),
        milestone_recorded(s, s2, t, m),
    ensures
        milestone_due(s2, t) is None,
{
    let i = spell_index(s, t);
    lemma_spell_index_range(s, t);
    assert(distinct_spells(s2)) by {
        assert forall|a: int, b: int| 0 <= a < b < s2.len() implies s2[a].spell_type != s2[b].spell_type by {
            assert(s2[a].spell_type == s[a].spell_type);
            assert(s2[b].spell_type == s[b].spell_type);
        }
    }
    lemma_spell_index_found(s2, i);
    assert(s2[i].milestones_reached@[s[i].milestones_reached@.len() as int] == m);
}

/// Checking a spell twice with no cast in between announces at most once:
/// whichever way the first check went (a milestone recorded, or nothing
/// due and nothing changed), no milestone is due afterwards, so the second
/// check returns `None`.
pub proof fn lemma_second_check_announces_nothing(
    s: Seq<SpellMasteryProgress>,
    s2: Seq<SpellMasteryProgress>,
    t: SpellType,
    first: Option<MasteryMilestone>,
)
    requires
        distinct_spells(s),
        first matches Some(m) ==> milestone_due(s, t) == Some(m) && milestone_recorded(s, s2, t, m),
        first is None ==> milestone_due(s, t) is None && s2 == s,
    ensures
        milestone_due(s2, t) is None,
{
    if let Some(m) = first {
        lemma_milestone_announced_once(s, s2, t, m);
    }
}

/// A caster's practice with every spell cast so far.
#[derive(Debug, Clone)]
pub struct MasteryAdvancementTracker {
    /// One record per spell, in the order first cast.
    pub spells: Vec<SpellMasteryProgress>,
    pub total_spells_cast: i32,
    pub total_successes: i32,
}

impl Default for MasteryAdvancementTracker {
    /// No spell cast.
    fn default() -> (t: Self)
        ensures
            t.wf(),
            t.spells@ == Seq::<SpellMasteryProgress>::empty(),
            t.total_spells_cast == 0 && t.total_successes == 0,
    {
        MasteryAdvancementTracker::new()
    }
}

impl MasteryAdvancementTracker {
    /// No spell has two records.
    pub open spec fn wf(&self) -> bool {
        distinct_spells(self.spells@)
    }

    /// No spell cast.
    pub fn new() -> (t: Self)
        ensures
            t.wf(),
            t.spells@ == Seq::<SpellMasteryProgress>::empty(),
            t.total_spells_cast == 0 && t.total_successes == 0,
    {
        MasteryAdvancementTracker { spells: Vec::new(), total_spells_cast: 0, total_successes: 0 }
    }

    /// The position of the record of spell `t`.
    fn find(&self, t: SpellType) -> (r: Option<usize>)
        requires
            self.wf(),
        ensures
            r matches Some(i) ==> i == spell_index(self.spells@, t) && i < self.spells@.len(),
            r is None ==> spell_index(self.spells@, t) == -1,
    {
        let mut i: usize = 0;
        while i < self.spells.len()
            invariant
                distinct_spells(self.spells@),
                i <= self.spells@.len(),
                forall|j: int| 0 <= j < i ==> self.spells@[j].spell_type != t,
            decreases self.spells@.len() - i,
        {
            if self.spells[i].spell_type == t {
                proof {
                    lemma_spell_index_found(self.spells@, i as int);
                }
                return Some(i);
            }
            i = i + 1;
        }
        proof {
            lemma_spell_index_absent(self.spells@, t);
        }
        None
    }

    /// Record a cast of a spell, starting its record on the first cast.
    pub fn record_spell_cast(&mut self, spell_type: SpellType, succeeded: bool)
        requires
            old(self).wf(),
            old(self).total_spells_cast < i32::MAX,
            succeeded ==> old(self).total_successes < i32::MAX,
            spell_index(old(self).spells@, spell_type) >= 0 ==> {
                let p = old(self).spells@[spell_index(old(self).spells@, spell_type)];
                &&& p.times_cast < i32::MAX
                &&& succeeded ==> p.times_succeeded < i32::MAX
                &&& !succeeded ==> p.times_failed < i32::MAX
            },
        ensures
            final(self).wf(),
            final(self).total_spells_cast == old(self).total_spells_cast + 1,
            final(self).total_successes == old(self).total_successes + (if succeeded { 1int } else { 0int }),
            ({
                let i = spell_index(old(self).spells@, spell_type);
                if i >= 0 {
                    final(self).spells@ == old(self).spells@.update(i, after_spell_cast(old(self).spells@[i], succeeded))
                } else {
                    &&& final(self).spells@.len() == old(self).spells@.len() + 1
                    &&& final(self).spells@.drop_last() == old(self).spells@
                    &&& first_cast(final(self).spells@.last(), spell_type, succeeded)
                }
            }),
    {
        match self.find(spell_type) {
            Some(i) => {
                let ghost s0 = self.spells@;
                let mut p = self.spells.remove(i);
                p.cast_spell(succeeded);
                self.spells.insert(i, p);
                proof {
                    assert(self.spells@ =~= s0.update(i as int, after_spell_cast(s0[i as int], succeeded)));
                    assert forall|a: int, b: int| 0 <= a < b < self.spells@.len() implies self.spells@[a].spell_type
                        != self.spells@[b].spell_type by {
                        assert(self.spells@[a].spell_type == s0[a].spell_type);
                        assert(self.spells@[b].spell_type == s0[b].spell_type);
                    }
                }
            },
            None => {
                let ghost s0 = self.spells@;
                let mut p = SpellMasteryProgress::new(spell_type);
                p.cast_spell(succeeded);
                self.spells.push(p);
                proof {
                    assert(self.spells@.drop_last() =~= s0);
                    lemma_spell_index_range(s0, spell_type);
                    assert forall|j: int| 0 <= j < s0.len() implies s0[j].spell_type != spell_type by {
                        if s0[j].spell_type == spell_type {
                            lemma_spell_index_found(s0, j);
                        }
                    }
                }
            },
        }
        self.total_spells_cast = self.total_spells_cast + 1;
        if succeeded {
            self.total_successes = self.total_successes + 1;
        }
    }

    /// Record a critical hit with a spell already cast.
    pub fn record_critical_hit(&mut self, spell_type: SpellType)
        requires
            old(self).wf(),
            spell_index(old(self).spells@, spell_type) >= 0 ==> old(self).spells@[spell_index(
                old(self).spells@,
                spell_type,
            )].critical_hits < i32::MAX,
        ensures
            final(self).wf(),
            final(self).total_spells_cast == old(self).total_spells_cast,
            final(self).total_successes == old(self).total_successes,
            ({
                let i = spell_index(old(self).spells@, spell_type);
                if i >= 0 {
                    final(self).spells@ == old(self).spells@.update(i, after_critical(old(self).spells@[i]))
                } else {
                    final(self).spells@ == old(self).spells@
                }
            }),
    {
        match self.find(spell_type) {
            Some(i) => {
                let ghost s0 = self.spells@;
                let mut p = self.spells.remove(i);
                p.critical_hit();
                self.spells.insert(i, p);
                proof {
                    assert(self.spells@ =~= s0.update(i as int, after_critical(s0[i as int])));
                    assert forall|a: int, b: int| 0 <= a < b < self.spells@.len() implies self.spells@[a].spell_type
                        != self.spells@[b].spell_type by {
                        assert(self.spells@[a].spell_type == s0[a].spell_type);
                        assert(self.spells@[b].spell_type == s0[b].spell_type);
                    }
                }
            },
            None => {},
        }
    }

    /// The mastery of a spell, unknown when never cast.
    pub fn get_mastery(&self, spell_type: SpellType) -> (m: SpellMastery)
        requires
            self.wf(),
        ensures
            m == mastery_in(self.spells@, spell_type),
    {
        match self.find(spell_type) {
            Some(i) => self.spells[i].mastery,
            None => SpellMastery::Unknown,
        }
    }

    /// The highest mastery over all spells; unknown when none was cast.
    pub fn highest_mastery(&self) -> (m: SpellMastery)
        ensures
            mastery_rank(m) == highest_mastery_rank(self.spells@),
    {
        let mut best = SpellMastery::Unknown;
        let mut i: usize = 0;
        while i < self.spells.len()
            invariant
                i <= self.spells@.len(),
                mastery_rank(best) == highest_mastery_rank(self.spells@.take(i as int)),
            decreases self.spells@.len() - i,
        {
            proof {
                assert(self.spells@.take(i as int + 1).drop_last() =~= self.spells@.take(i as int));
            }
            let m = self.spells[i].mastery;
            if m.rank() > best.rank() {
                best = m;
            }
            i = i + 1;
        }
        proof {
            assert(self.spells@.take(self.spells@.len() as int) =~= self.spells@);
        }
        best
    }

    /// How many spells are at a mastery.
    pub fn spells_at_mastery(&self, mastery: SpellMastery) -> (n: usize)
        ensures
            n == count_mastery(self.spells@, mastery),
    {
        let mut n: usize = 0;
        let mut i: usize = 0;
        while i < self.spells.len()
            invariant
                i <= self.spells@.len(),
                n == count_mastery(self.spells@.take(i as int), mastery),
                n <= i,
            decreases self.spells@.len() - i,
        {
            proof {
                assert(self.spells@.take(i as int + 1).drop_last() =~= self.spells@.take(i as int));
            }
            if self.spells[i].mastery == mastery {
                n = n + 1;
            }
            i = i + 1;
        }
        proof {
            assert(self.spells@.take(self.spells@.len() as int) =~= self.spells@);
        }
        n
    }

    /// The spells with their cast counts, most cast first.
    pub fn spells_by_usage(&self) -> (v: Vec<(SpellType, i32)>)
        ensures
            v@ == by_usage(self.spells@),
    {
        let mut out: Vec<(SpellType, i32)> = Vec::new();
        let mut i: usize = 0;
        while i < self.spells.len()
            invariant
                i <= self.spells@.len(),
                out@ == by_usage(self.spells@.take(i as int)),
            decreases self.spells@.len() - i,
        {
            proof {
                assert(self.spells@.take(i as int + 1).drop_last() =~= self.spells@.take(i as int));
            }
            let x = (self.spells[i].spell_type, self.spells[i].times_cast);
            let mut j: usize = out.len();
            while j > 0 && out[j - 1].1 < x.1
                invariant
                    j <= out@.len(),
                    forall|k: int| j <= k < out@.len() ==> out@[k].1 < x.1,
                decreases j,
            {
                j = j - 1;
            }
            proof {
                lemma_insert_by_usage_at(out@, x, j as int);
            }
            out.insert(j, x);
            i = i + 1;
        }
        proof {
            assert(self.spells@.take(self.spells@.len() as int) =~= self.spells@);
        }
        out
    }

    /// Announce the milestone a spell's cast count stands at, once.
    pub fn check_milestone(&mut self, spell_type: SpellType) -> (r: Option<(MasteryMilestone, String)>)
        requires
            old(self).wf(),
        ensures
            final(self).wf(),
            final(self).total_spells_cast == old(self).total_spells_cast,
            final(self).total_successes == old(self).total_successes,
            r matches Some(p) ==> milestone_due(old(self).spells@, spell_type) == Some(p.0) && p.1@
                == milestone_message(p.0) && milestone_recorded(old(self).spells@, final(self).spells@, spell_type, p.0),
            r is None ==> milestone_due(old(self).spells@, spell_type) is None && final(self).spells@ == old(
                self,
            ).spells@,
            r is None ==> *final(self) == *old(self),
            milestone_due(final(self).spells@, spell_type) is None,
    {
        match self.find(spell_type) {
            Some(i) => {
                let times = self.spells[i].times_cast;
                let next: Option<MasteryMilestone> = if times == 1 {
                    Some(MasteryMilestone::ReachedNovice)
                } else if times == 50 {
                    Some(MasteryMilestone::ReachedAdept)
                } else if times == 200 {
                    Some(MasteryMilestone::ReachedExpert)
                } else if times == 500 {
                    Some(MasteryMilestone::ReachedMaster)
                } else if times == 1000 {
                    Some(MasteryMilestone::ReachedArchmage)
                } else {
                    None
                };
                match next {
                    Some(milestone) => {
                        let mut seen = false;
                        let mut k: usize = 0;
                        while k < self.spells[i].milestones_reached.len()
                            invariant
                                i < self.spells@.len(),
                                k <= self.spells@[i as int].milestones_reached@.len(),
                                seen <==> exists|q: int| 0 <= q < k && self.spells@[i as int].milestones_reached@[q]
                                    == milestone,
                            decreases self.spells@[i as int].milestones_reached@.len() - k,
                        {
                            if self.spells[i].milestones_reached[k] == milestone {
                                seen = true;
                            }
                            k = k + 1;
                        }
                        if seen {
                            None
                        } else {
                            let ghost s0 = self.spells@;
                            let mut p = self.spells.remove(i);
                            p.milestones_reached.push(milestone);
                            self.spells.insert(i, p);
                            proof {
                                assert forall|a: int, b: int| 0 <= a < b < self.spells@.len() implies self.spells@[
                                    a].spell_type != self.spells@[b].spell_type by {
                                    assert(self.spells@[a].spell_type == s0[a].spell_type);
                                    assert(self.spells@[b].spell_type == s0[b].spell_type);
                                }
                                assert forall|j: int| 0 <= j < s0.len() && j != i implies self.spells@[j] == s0[j] by {
                                }
                            }
                            proof {
                                lemma_milestone_announced_once(s0, self.spells@, spell_type, milestone);
                            }
                            Some((milestone, String::from_str(milestone.message())))
                        }
                    },
                    None => None,
                }
            },
            None => None,
        }
    }
}

} // verus!
