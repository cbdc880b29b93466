//! Specialization in the schools of spells, growing with practice.

use vstd::prelude::*;
use crate::magic::spell::{SpellSchool, all_schools};

verus! {

/// How far a caster has specialized in a school.
#[derive(Debug, Clone, Copy, PartialEq, Eq, Structural)]
pub enum SpecializationLevel {
    Unspecialized,
    Novice,
    Adept,
    Specialist,
    Master,
    Archmage,
}

/// The rank of a level, from 0 for none to 5 for archmage.
pub open spec fn level_rank(l: SpecializationLevel) -> int {
    match l {
        SpecializationLevel::Unspecialized => 0,
        SpecializationLevel::Novice => 1,
        SpecializationLevel::Adept => 2,
        SpecializationLevel::Specialist => 3,
        SpecializationLevel::Master => 4,
        SpecializationLevel::Archmage => 5,
    }
}

/// The level of a rank.
pub open spec fn level_of_rank(r: int) -> SpecializationLevel {
    if r <= 0 {
        SpecializationLevel::Unspecialized
    } else if r == 1 {
        SpecializationLevel::Novice
    } else if r == 2 {
        SpecializationLevel::Adept
    } else if r == 3 {
        SpecializationLevel::Specialist
    } else if r == 4 {
        SpecializationLevel::Master
    } else {
        SpecializationLevel::Archmage
    }
}

/// Mana cost reduction of a level, in percent.
pub open spec fn level_mana_reduction(l: SpecializationLevel) -> int {
    match l {
        SpecializationLevel::Unspecialized => 0,
        SpecializationLevel::Novice => 5,
        SpecializationLevel::Adept => 10,
        SpecializationLevel::Specialist => 15,
        SpecializationLevel::Master => 20,
        SpecializationLevel::Archmage => 25,
    }
}

/// Failure chance reduction of a level, in percent.
pub open spec fn level_failure_reduction(l: SpecializationLevel) -> int {
    match l {
        SpecializationLevel::Unspecialized => 0,
        SpecializationLevel::Novice => 5,
        SpecializationLevel::Adept => 10,
        SpecializationLevel::Specialist => 15,
        SpecializationLevel::Master => 20,
        SpecializationLevel::Archmage => 30,
    }
}

/// The name of a level.
pub open spec fn level_name(l: SpecializationLevel) -> Seq<char> {
    match l {
        SpecializationLevel::Unspecialized => "unspecialized"@,
        SpecializationLevel::Novice => "novice"@,
        SpecializationLevel::Adept => "adept"@,
        SpecializationLevel::Specialist => "specialist"@,
        SpecializationLevel::Master => "master"@,
        SpecializationLevel::Archmage => "archmage"@,
    }
}

/// Experience needed to leave a level (none past archmage).
pub open spec fn xp_to_advance(l: SpecializationLevel) -> int {
    match l {
        SpecializationLevel::Unspecialized => 100,
        SpecializationLevel::Novice => 200,
        SpecializationLevel::Adept => 400,
        SpecializationLevel::Specialist => 800,
        SpecializationLevel::Master => 1600,
        SpecializationLevel::Archmage => i32::MAX as int,
    }
}

impl SpecializationLevel {
    /// Experience needed to leave this level (`i32::MAX` for archmage,
    /// which has no next level).
    pub fn experience_to_advance(&self) -> (r: i32)
        ensures
            r == xp_to_advance(*self),
    {
        match self {
            SpecializationLevel::Unspecialized => 100,
            SpecializationLevel::Novice => 200,
            SpecializationLevel::Adept => 400,
            SpecializationLevel::Specialist => 800,
            SpecializationLevel::Master => 1600,
            SpecializationLevel::Archmage => i32::MAX,
        }
    }

    /// Mana cost reduction, in percent.
    pub fn mana_reduction(&self) -> (r: i32)
        ensures
            r == level_mana_reduction(*self),
    {
        match self {
            SpecializationLevel::Unspecialized => 0,
            SpecializationLevel::Novice => 5,
            SpecializationLevel::Adept => 10,
            SpecializationLevel::Specialist => 15,
            SpecializationLevel::Master => 20,
            SpecializationLevel::Archmage => 25,
        }
    }

    /// Failure chance reduction, in percent.
    pub fn failure_reduction(&self) -> (r: i32)
        ensures
            r == level_failure_reduction(*self),
    {
        match self {
            SpecializationLevel::Unspecialized => 0,
            SpecializationLevel::Novice => 5,
            SpecializationLevel::Adept => 10,
            SpecializationLevel::Specialist => 15,
            SpecializationLevel::Master => 20,
            SpecializationLevel::Archmage => 30,
        }
    }

    /// Whether the level unlocks the school's special ability: only archmage.
    pub fn has_special_ability(&self) -> (r: bool)
        ensures
            r == (*self == SpecializationLevel::Archmage),
    {
        matches!(self, SpecializationLevel::Archmage)
    }

    /// The next level; archmage stays.
    pub fn advance(&self) -> (l: SpecializationLevel)
        ensures
            l == level_of_rank(if level_rank(*self) < 5 { level_rank(*self) + 1 } else { 5 }),
    {
        match self {
            SpecializationLevel::Unspecialized => SpecializationLevel::Novice,
            SpecializationLevel::Novice => SpecializationLevel::Adept,
            SpecializationLevel::Adept => SpecializationLevel::Specialist,
            SpecializationLevel::Specialist => SpecializationLevel::Master,
            SpecializationLevel::Master => SpecializationLevel::Archmage,
            SpecializationLevel::Archmage => SpecializationLevel::Archmage,
        }
    }

    /// The level's name.
    pub fn name(&self) -> (s: &'static str)
        ensures
            s@ == level_name(*self),
    {
        match self {
            SpecializationLevel::Unspecialized => "unspecialized",
            SpecializationLevel::Novice => "novice",
            SpecializationLevel::Adept => "adept",
            SpecializationLevel::Specialist => "specialist",
            SpecializationLevel::Master => "master",
            SpecializationLevel::Archmage => "archmage",
        }
    }

    /// The level's rank.
    fn rank(&self) -> (r: u8)
        ensures
            r == level_rank(*self),
    {
        match self {
            SpecializationLevel::Unspecialized => 0,
            SpecializationLevel::Novice => 1,
            SpecializationLevel::Adept => 2,
            SpecializationLevel::Specialist => 3,
            SpecializationLevel::Master => 4,
            SpecializationLevel::Archmage => 5,
        }
    }
}

/// A caster's specialization in one school.
#[derive(Debug, Clone, Copy)]
pub struct SchoolSpecialization {
    pub school: SpellSchool,
    pub level: SpecializationLevel,
    /// Experience toward the next level.
    pub experience: i32,
    /// Spells cast in the school.
    pub spells_cast: i32,
}

/// `s` after gaining `amount` experience: past the amount its level needs,
/// it advances one level and keeps the rest.
pub open spec fn gained(s: SchoolSpecialization, amount: int) -> SchoolSpecialization {
    let e = s.experience + amount;
    let need = xp_to_advance(s.level);
    if e >= need {
        SchoolSpecialization {
            experience: (e - need) as i32,
            level: level_of_rank(if level_rank(s.level) < 5 { level_rank(s.level) + 1 } else { 5 }),
            ..s
        }
    } else {
        SchoolSpecialization { experience: e as i32, ..s }
    }
}

/// `s` after one more spell cast: one more spell, ten more experience.
pub open spec fn after_cast(s: SchoolSpecialization) -> SchoolSpecialization {
    gained(SchoolSpecialization { spells_cast: (s.spells_cast + 1) as i32, ..s }, 10)
}

impl SchoolSpecialization {
    /// No specialization yet in a school.
    pub fn new(school: SpellSchool) -> (s: Self)
        ensures
            s == (SchoolSpecialization { school, level: SpecializationLevel::Unspecialized, experience: 0, spells_cast: 0 }),
    {
        SchoolSpecialization { school, level: SpecializationLevel::Unspecialized, experience: 0, spells_cast: 0 }
    }

    /// Gain experience; past the amount the level needs, advance one level.
    pub fn add_experience(&mut self, amount: i32)
        requires
            i32::MIN <= old(self).experience + amount <= i32::MAX,
        ensures
            *final(self) == gained(*old(self), amount as int),
    {
        self.experience = self.experience + amount;
        let xp_needed: i32 = self.level.experience_to_advance();
        if self.experience >= xp_needed {
            self.experience = self.experience - xp_needed;
            self.level = self.level.advance();
        }
    }

    /// Record a spell cast in the school: ten experience.
    pub fn spell_cast(&mut self)
        requires
            old(self).spells_cast < i32::MAX,
            old(self).experience + 10 <= i32::MAX,
        ensures
            *final(self) == after_cast(*old(self)),
    {
        self.spells_cast = self.spells_cast + 1;
        self.add_experience(10);
    }
}

/// A hash map from schools to the caster's specialization in each.
#[verifier::external_body]
pub struct SchoolTable {
    map: hashbrown::HashMap<SpellSchool, SchoolSpecialization>,
}

/// What a school table holds.
pub uninterp spec fn schools_of(t: SchoolTable) -> Map<SpellSchool, SchoolSpecialization>;

/// The contents of a table without entries.
pub open spec fn no_schools() -> Map<SpellSchool, SchoolSpecialization> {
    Map::empty()
}

/// `hashbrown::HashMap::new`: an empty table.
#[verifier::external_body]
fn schools_new() -> (table: SchoolTable)
    ensures
        schools_of(table) == no_schools(),
{
    SchoolTable { map: hashbrown::HashMap::new() }
}

/// `hashbrown::HashMap::get`: the entry of `k`, if it has one.
#[verifier::external_body]
fn schools_get(t: &SchoolTable, k: SpellSchool) -> (r: Option<&SchoolSpecialization>)
    ensures
        r is Some <==> schools_of(*t).dom().contains(k),
        r matches Some(v) ==> *v == schools_of(*t)[k],
{
    t.map.get(&k)
}

/// `hashbrown::HashMap::get_mut`: the entry of `k`, if it has one, to
/// change in place.
#[verifier::external_body]
fn schools_get_mut(t: &mut SchoolTable, k: SpellSchool) -> (r: Option<&mut SchoolSpecialization>)
    ensures
        r is Some <==> schools_of(*old(t)).dom().contains(k),
        r is None ==> schools_of(*final(t)) == schools_of(*old(t)),
        r matches Some(v) ==> *v == schools_of(*old(t))[k] && schools_of(*final(t)) == schools_of(*old(t)).insert(
            k,
            *final(v),
        ),
{
    t.map.get_mut(&k)
}

/// `hashbrown::HashMap::insert`: the entry of `k` becomes `v`.
#[verifier::external_body]
fn schools_insert(t: &mut SchoolTable, k: SpellSchool, v: SchoolSpecialization)
    ensures
        schools_of(*final(t)) == schools_of(*old(t)).insert(k, v),
{
    t.map.insert(k, v);
}

/// `hashbrown::HashMap::len`: the number of entries.
#[verifier::external_body]
fn schools_len(t: &SchoolTable) -> (n: usize)
    ensures
        n == schools_of(*t).len(),
{
    t.map.len()
}

impl SchoolTable {
    /// Whether no school has an entry.
    pub fn is_empty(&self) -> (r: bool)
        ensures
            r == (schools_of(*self).len() == 0),
    {
        schools_len(self) == 0
    }

    /// The number of schools with an entry.
    pub fn len(&self) -> (n: usize)
        ensures
            n == schools_of(*self).len(),
    {
        schools_len(self)
    }
}

/// A caster's specialization in every school practised.
pub struct SpecializationTracker {
    pub schools: SchoolTable,
}

/// The spells cast in school `s`, 0 when not practised.
pub open spec fn cast_in(m: Map<SpellSchool, SchoolSpecialization>, s: SpellSchool) -> int {
    if m.dom().contains(s) { m[s].spells_cast as int } else { 0 }
}

/// The spells cast in the schools of `ss`.
pub open spec fn cast_total(m: Map<SpellSchool, SchoolSpecialization>, ss: Seq<SpellSchool>) -> int
    decreases ss.len(),
{
    if ss.len() == 0 {
        0
    } else {
        cast_total(m, ss.drop_last()) + cast_in(m, ss.last())
    }
}

/// The highest rank among the schools of `ss` practised, 0 when none is.
pub open spec fn highest_rank(m: Map<SpellSchool, SchoolSpecialization>, ss: Seq<SpellSchool>) -> int
    decreases ss.len(),
{
    if ss.len() == 0 {
        0
    } else {
        let r = highest_rank(m, ss.drop_last());
        let here = if m.dom().contains(ss.last()) { level_rank(m[ss.last()].level) } else { 0 };
        if here > r { here } else { r }
    }
}

/// The number of the schools of `ss` practised at level `l`.
pub open spec fn count_level(m: Map<SpellSchool, SchoolSpecialization>, ss: Seq<SpellSchool>, l: SpecializationLevel) -> nat
    decreases ss.len(),
{
    if ss.len() == 0 {
        0
    } else {
        count_level(m, ss.drop_last(), l) + (if m.dom().contains(ss.last()) && m[ss.last()].level == l { 1nat } else {
            0 })
    }
}

/// The practised schools of `ss` at rank `r`, with their level, in order.
pub open spec fn at_rank(m: Map<SpellSchool, SchoolSpecialization>, ss: Seq<SpellSchool>, r: int) -> Seq<
    (SpellSchool, SpecializationLevel),
>
    decreases ss.len(),
{
    if ss.len() == 0 {
        Seq::empty()
    } else {
        at_rank(m, ss.drop_last(), r) + (if m.dom().contains(ss.last()) && level_rank(m[ss.last()].level) == r {
            seq![(ss.last(), m[ss.last()].level)]
        } else {
            Seq::empty()
        })
    }
}

/// The practised schools with their level, highest level first; schools of
/// one level in the order of `all_schools`.
pub open spec fn by_level(m: Map<SpellSchool, SchoolSpecialization>, from_rank: int) -> Seq<(SpellSchool, SpecializationLevel)>
    decreases from_rank + 1,
{
    if from_rank < 0 {
        Seq::empty()
    } else {
        at_rank(m, all_schools(), from_rank) + by_level(m, from_rank - 1)
    }
}

/// Gaining experience never lowers a level and raises it by at most one.
pub proof fn lemma_gain_advances_at_most_one(s: SchoolSpecialization, amount: int)
    ensures
        level_rank(s.level) <= level_rank(gained(s, amount).level) <= level_rank(s.level) + 1,
        level_rank(gained(s, amount).level) <= 5,
{
}

/// Over a list of distinct schools, bumping the count of one school by one
/// bumps the sum by one when the list holds that school.
proof fn lemma_cast_total_bump(
    m: Map<SpellSchool, SchoolSpecialization>,
    m2: Map<SpellSchool, SchoolSpecialization>,
    school: SpellSchool,
    ss: Seq<SpellSchool>,
)
    requires
        ss.no_duplicates(),
        cast_in(m2, school) == cast_in(m, school) + 1,
        forall|t: SpellSchool| t != school ==> #[trigger] cast_in(m2, t) == cast_in(m, t),
    ensures
        cast_total(m2, ss) == cast_total(m, ss) + (if ss.contains(school) { 1int } else { 0int }),
    decreases ss.len(),
{
    if ss.len() > 0 {
        let rest = ss.drop_last();
        assert(rest.no_duplicates()) by {
            assert forall|i: int, j: int| 0 <= i < rest.len() && 0 <= j < rest.len() && i != j implies rest[i]
                != rest[j] by {
                assert(rest[i] == ss[i] && rest[j] == ss[j]);
            }
        }
        lemma_cast_total_bump(m, m2, school, rest);
        if ss.last() == school {
            assert(!rest.contains(school)) by {
                if rest.contains(school) {
                    let i = choose|i: int| 0 <= i < rest.len() && rest[i] == school;
                    assert(ss[i] == ss[ss.len() - 1]);
                }
            }
            assert(ss.contains(school)) by {
                assert(ss[ss.len() - 1] == school);
            }
        } else {
            assert(ss.contains(school) == rest.contains(school)) by {
                if ss.contains(school) {
                    let i = choose|i: int| 0 <= i < ss.len() && ss[i] == school;
                    assert(i != ss.len() - 1);
                    assert(rest[i] == school);
                }
                if rest.contains(school) {
                    let i = choose|i: int| 0 <= i < rest.len() && rest[i] == school;
                    assert(ss[i] == school);
                }
            }
        }
    }
}

/// Recording a cast in a school raises the spells cast over all schools by
/// exactly one.
pub proof fn lemma_cast_adds_one_to_total(m: Map<SpellSchool, SchoolSpecialization>, school: SpellSchool)
    requires
        ({
            let s = if m.dom().contains(school) { m[school] } else { SchoolSpecialization::new_spec(school) };
            s.spells_cast < i32::MAX
        }),
    ensures
        ({
            let s = if m.dom().contains(school) { m[school] } else { SchoolSpecialization::new_spec(school) };
            cast_total(m.insert(school, after_cast(s)), all_schools()) == cast_total(m, all_schools()) + 1
        }),
{
    let s = if m.dom().contains(school) { m[school] } else { SchoolSpecialization::new_spec(school) };
    let m2 = m.insert(school, after_cast(s));
    assert(all_schools().no_duplicates()) by {
        let a = all_schools();
        assert forall|i: int, j: int| 0 <= i < a.len() && 0 <= j < a.len() && i != j implies a[i] != a[j] by {
        }
    }
    assert(all_schools().contains(school)) by {
        let a = all_schools();
        match school {
            SpellSchool::Attack => assert(a[0] == school),
            SpellSchool::Healing => assert(a[1] == school),
            SpellSchool::Divination => assert(a[2] == school),
            SpellSchool::Enchantment => assert(a[3] == school),
            SpellSchool::Clerical => assert(a[4] == school),
            SpellSchool::Escape => assert(a[5] == school),
            SpellSchool::Matter => assert(a[6] == school),
        }
    }
    assert forall|t: SpellSchool| t != school implies #[trigger] cast_in(m2, t) == cast_in(m, t) by {
    }
    lemma_cast_total_bump(m, m2, school, all_schools());
}

impl Default for SpecializationTracker {
    /// No school practised.
    fn default() -> (t: Self)
        ensures
            schools_of(t.schools) == no_schools(),
    {
        SpecializationTracker::new()
    }
}

impl SpecializationTracker {
    /// No school practised.
    pub fn new() -> (t: Self)
        ensures
            schools_of(t.schools) == no_schools(),
    {
        SpecializationTracker { schools: schools_new() }
    }

    /// Start every school afresh.
    pub fn initialize_all_schools(&mut self)
        ensures
            schools_of(final(self).schools).dom() == schools_of(old(self).schools).dom().union(all_schools().to_set()),
            forall|s: SpellSchool| #[trigger] all_schools().contains(s) ==> schools_of(final(self).schools)[s]
                == SchoolSpecialization::new_spec(s),
            forall|s: SpellSchool| !all_schools().contains(s) && schools_of(old(self).schools).dom().contains(s)
                ==> #[trigger] schools_of(final(self).schools)[s] == schools_of(old(self).schools)[s],
    {
        let all = SpellSchool::all();
        let ghost m0 = schools_of(self.schools);
        let mut i: usize = 0;
        while i < all.len()
            invariant
                all@ == all_schools(),
                i <= all@.len(),
                schools_of(self.schools).dom() == m0.dom().union(all@.take(i as int).to_set()),
                forall|s: SpellSchool| #[trigger] all@.take(i as int).contains(s) ==> schools_of(self.schools)[s]
                    == SchoolSpecialization::new_spec(s),
                forall|s: SpellSchool| !all@.take(i as int).contains(s) && m0.dom().contains(s)
                    ==> #[trigger] schools_of(self.schools)[s] == m0[s],
            decreases all@.len() - i,
        {
            let school = all[i];
            proof {
                assert forall|s: SpellSchool| all@.take(i as int + 1).contains(s) <==> (all@.take(i as int).contains(s)
                    || s == school) by {
                    if all@.take(i as int + 1).contains(s) {
                        let j = choose|j: int| 0 <= j < i + 1 && #[trigger] all@.take(i as int + 1)[j] == s;
                        if j < i {
                            assert(all@.take(i as int)[j] == s);
                        }
                    }
                    if all@.take(i as int).contains(s) {
                        let j = choose|j: int| 0 <= j < i && #[trigger] all@.take(i as int)[j] == s;
                        assert(all@.take(i as int + 1)[j] == s);
                    }
                    if s == school {
                        assert(all@.take(i as int + 1)[i as int] == s);
                    }
                }
            }
            let ghost before = schools_of(self.schools);
            schools_insert(&mut self.schools, school, SchoolSpecialization::new(school));
            proof {
                assert(schools_of(self.schools).dom() =~= m0.dom().union(all@.take(i as int + 1).to_set()));
                assert forall|s: SpellSchool| #[trigger] all@.take(i as int + 1).contains(s) implies schools_of(
                    self.schools,
                )[s] == SchoolSpecialization::new_spec(s) by {
                    if s != school {
                        assert(all@.take(i as int).contains(s));
                        assert(before[s] == SchoolSpecialization::new_spec(s));
                    }
                }
            }
            i = i + 1;
        }
        proof {
            assert(all@.take(all@.len() as int) =~= all@);
        }
    }

    /// The specialization in a school, if practised.
    pub fn get(&self, school: SpellSchool) -> (r: Option<&SchoolSpecialization>)
        ensures
            r is Some <==> schools_of(self.schools).dom().contains(school),
            r matches Some(v) ==> *v == schools_of(self.schools)[school],
    {
        schools_get(&self.schools, school)
    }

    /// The specialization in a school, if practised, to change in place.
    pub fn get_mut(&mut self, school: SpellSchool) -> (r: Option<&mut SchoolSpecialization>)
        ensures
            r is Some <==> schools_of(old(self).schools).dom().contains(school),
            r is None ==> schools_of(final(self).schools) == schools_of(old(self).schools),
            r matches Some(v) ==> *v == schools_of(old(self).schools)[school] && schools_of(final(self).schools)
                == schools_of(old(self).schools).insert(school, *final(v)),
    {
        schools_get_mut(&mut self.schools, school)
    }

    /// Record a spell cast in a school, starting the school afresh if it was
    /// not practised.
    pub fn spell_cast_in_school(&mut self, school: SpellSchool)
        requires
            ({
                let m = schools_of(old(self).schools);
                let s = if m.dom().contains(school) { m[school] } else { SchoolSpecialization::new_spec(school) };
                s.spells_cast < i32::MAX && s.experience + 10 <= i32::MAX
            }),
        ensures
            ({
                let m = schools_of(old(self).schools);
                let s = if m.dom().contains(school) { m[school] } else { SchoolSpecialization::new_spec(school) };
                schools_of(final(self).schools) == m.insert(school, after_cast(s))
            }),
    {
        let mut spec = match schools_get(&self.schools, school) {
            Some(s) => *s,
            None => SchoolSpecialization::new(school),
        };
        spec.spell_cast();
        schools_insert(&mut self.schools, school, spec);
    }

    /// Record a spell cast in a school, as `spell_cast_in_school` does, when
    /// the school's counts leave room for it; otherwise change nothing and
    /// return false.
    pub fn spell_cast_in_school_checked(&mut self, school: SpellSchool) -> (r: bool)
        ensures
            ({
                let m = schools_of(old(self).schools);
                let s = if m.dom().contains(school) { m[school] } else { SchoolSpecialization::new_spec(school) };
                &&& r == (s.spells_cast < i32::MAX && s.experience + 10 <= i32::MAX)
                &&& r ==> schools_of(final(self).schools) == m.insert(school, after_cast(s))
                &&& !r ==> schools_of(final(self).schools) == m
            }),
    {
        let fits = match self.get(school) {
            Some(s) => s.spells_cast < i32::MAX && s.experience <= i32::MAX - 10,
            None => true,
        };
        if fits {
            self.spell_cast_in_school(school);
        }
        fits
    }

    /// The spells cast over all schools, when every running total over the
    /// schools in order fits an `i32`; none otherwise.
    pub fn total_spells_cast_checked(&self) -> (r: Option<i32>)
        ensures
            r is Some <==> forall|k: int| 0 <= k <= 7 ==> i32::MIN <= #[trigger] cast_total(schools_of(self.schools),
                all_schools().take(k)) <= i32::MAX,
            r matches Some(n) ==> n == cast_total(schools_of(self.schools), all_schools()),
    {
        let all = SpellSchool::all();
        let ghost m = schools_of(self.schools);
        let mut total: i64 = 0;
        let mut i: usize = 0;
        proof {
            assert(all_schools().take(0) =~= Seq::<SpellSchool>::empty());
        }
        while i < all.len()
            invariant
                all@ == all_schools(),
                m == schools_of(self.schools),
                i <= all@.len(),
                total == cast_total(m, all@.take(i as int)),
                forall|k: int| 0 <= k <= i ==> i32::MIN <= #[trigger] cast_total(m, all_schools().take(k)) <= i32::MAX,
            decreases all@.len() - i,
        {
            proof {
                assert(all@.take(i as int + 1).drop_last() =~= all@.take(i as int));
            }
            if let Some(s) = schools_get(&self.schools, all[i]) {
                total = total + s.spells_cast as i64;
            }
            if total < i32::MIN as i64 || total > i32::MAX as i64 {
                proof {
                    assert(!(i32::MIN <= cast_total(m, all_schools().take(i as int + 1)) <= i32::MAX));
                }
                return None;
            }
            i = i + 1;
        }
        proof {
            assert(all@.len() == 7);
        }
        Some(self.total_spells_cast())
    }

    /// The spells cast over all schools.
    pub fn total_spells_cast(&self) -> (n: i32)
        requires
            forall|k: int| 0 <= k <= 7 ==> i32::MIN <= #[trigger] cast_total(schools_of(self.schools),
                all_schools().take(k)) <= i32::MAX,
        ensures
            n == cast_total(schools_of(self.schools), all_schools()),
    {
        let all = SpellSchool::all();
        let ghost m = schools_of(self.schools);
        let mut total: i32 = 0;
        let mut i: usize = 0;
        while i < all.len()
            invariant
                all@ == all_schools(),
                m == schools_of(self.schools),
                i <= all@.len(),
                forall|k: int| 0 <= k <= 7 ==> i32::MIN <= #[trigger] cast_total(m, all_schools().take(k)) <= i32::MAX,
                total == cast_total(m, all@.take(i as int)),
            decreases all@.len() - i,
        {
            proof {
                assert(all@.take(i as int + 1).drop_last() =~= all@.take(i as int));
                assert(i32::MIN <= cast_total(m, all_schools().take(i as int + 1)) <= i32::MAX);
            }
            if let Some(s) = schools_get(&self.schools, all[i]) {
                total = total + s.spells_cast;
            }
            i = i + 1;
        }
        proof {
            assert(all@.take(all@.len() as int) =~= all@);
        }
        total
    }

    /// The highest level over the schools practised; none when none is.
    pub fn highest_level(&self) -> (l: SpecializationLevel)
        ensures
            l == level_of_rank(highest_rank(schools_of(self.schools), all_schools())),
    {
        let all = SpellSchool::all();
        let ghost m = schools_of(self.schools);
        let mut best: SpecializationLevel = SpecializationLevel::Unspecialized;
        let mut i: usize = 0;
        while i < all.len()
            invariant
                all@ == all_schools(),
                m == schools_of(self.schools),
                i <= all@.len(),
                level_rank(best) == highest_rank(m, all@.take(i as int)),
                0 <= highest_rank(m, all@.take(i as int)) <= 5,
            decreases all@.len() - i,
        {
            proof {
                assert(all@.take(i as int + 1).drop_last() =~= all@.take(i as int));
            }
            if let Some(s) = schools_get(&self.schools, all[i]) {
                if s.level.rank() > best.rank() {
                    best = s.level;
                }
            }
            i = i + 1;
        }
        proof {
            assert(all@.take(all@.len() as int) =~= all@);
        }
        best
    }

    /// How many practised schools are at a level.
    pub fn count_at_level(&self, level: SpecializationLevel) -> (n: usize)
        ensures
            n == count_level(schools_of(self.schools), all_schools(), level),
    {
        let all = SpellSchool::all();
        let ghost m = schools_of(self.schools);
        let mut n: usize = 0;
        let mut i: usize = 0;
        while i < all.len()
            invariant
                all@ == all_schools(),
                m == schools_of(self.schools),
                i <= all@.len(),
                n == count_level(m, all@.take(i as int), level),
                n <= i,
            decreases all@.len() - i,
        {
            proof {
                assert(all@.take(i as int + 1).drop_last() =~= all@.take(i as int));
            }
            if let Some(s) = schools_get(&self.schools, all[i]) {
                if s.level == level {
                    n = n + 1;
                }
            }
            i = i + 1;
        }
        proof {
            assert(all@.take(all@.len() as int) =~= all@);
        }
        n
    }

    /// Whether some practised school is beyond no specialization.
    pub fn is_specialized(&self) -> (r: bool)
        ensures
            r == (highest_rank(schools_of(self.schools), all_schools()) > 0),
    {
        let best = self.highest_level();
        best.rank() > 0
    }

    /// The practised schools with their level, highest level first; schools
    /// of one level in a fixed order of schools.
    pub fn schools_by_level(&self) -> (v: Vec<(SpellSchool, SpecializationLevel)>)
        ensures
            v@ == by_level(schools_of(self.schools), 5),
    {
        let all = SpellSchool::all();
        let ghost m = schools_of(self.schools);
        let mut out: Vec<(SpellSchool, SpecializationLevel)> = Vec::new();
        let mut rank: u8 = 6;
        proof {
            assert(by_level(m, 5) == by_level(m, 5));
        }
        while rank > 0
            invariant
                all@ == all_schools(),
                m == schools_of(self.schools),
                rank <= 6,
                out@ + by_level(m, rank as int - 1) == by_level(m, 5),
            decreases rank,
        {
            let r = rank - 1;
            let ghost before = out@;
            let mut i: usize = 0;
            while i < all.len()
                invariant
                    all@ == all_schools(),
                    m == schools_of(self.schools),
                    i <= all@.len(),
                    out@ == before + at_rank(m, all@.take(i as int), r as int),
                decreases all@.len() - i,
            {
                proof {
                    assert(all@.take(i as int + 1).drop_last() =~= all@.take(i as int));
                }
                if let Some(s) = schools_get(&self.schools, all[i]) {
                    if s.level.rank() == r {
                        out.push((all[i], s.level));
                    }
                }
                proof {
                    assert(out@ =~= before + at_rank(m, all@.take(i as int + 1), r as int));
                }
                i = i + 1;
            }
            proof {
                assert(all@.take(all@.len() as int) =~= all@);
                assert(by_level(m, r as int) == at_rank(m, all_schools(), r as int) + by_level(m, r as int - 1));
                assert(out@ + by_level(m, r as int - 1) =~= before + by_level(m, r as int));
            }
            rank = r;
        }
        proof {
            assert(by_level(m, -1) == Seq::<(SpellSchool, SpecializationLevel)>::empty());
            assert(out@ =~= by_level(m, 5));
        }
        out
    }
}

impl SchoolSpecialization {
    /// No specialization yet in a school.
    pub open spec fn new_spec(school: SpellSchool) -> SchoolSpecialization {
        SchoolSpecialization { school, level: SpecializationLevel::Unspecialized, experience: 0, spells_cast: 0 }
    }
}

/// The failure chance reduction of a school's specialization; none when not
/// practised.
pub fn get_specialization_failure_reduction(tracker: &SpecializationTracker, school: SpellSchool) -> (r: i32)
    ensures
        r == (if schools_of(tracker.schools).dom().contains(school) {
            level_failure_reduction(schools_of(tracker.schools)[school].level)
        } else {
            0
        }),
{
    match tracker.get(school) {
        Some(spec) => spec.level.failure_reduction(),
        None => 0,
    }
}

/// Whether a school's special ability is unlocked: only at archmage.
pub fn can_use_school_ability(tracker: &SpecializationTracker, school: SpellSchool) -> (r: bool)
    ensures
        r == (schools_of(tracker.schools).dom().contains(school) && schools_of(tracker.schools)[school].level
            == SpecializationLevel::Archmage),
{
    match tracker.get(school) {
        Some(spec) => spec.level.has_special_ability(),
        None => false,
    }
}

} // verus!
