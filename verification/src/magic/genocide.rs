//! Genocide: which monster species are wiped out, and the result reported
//! when a species is.

use vstd::prelude::*;
use crate::dungeon::level::Level;
use crate::monster::Monster;
use crate::text::{views, push_string};

verus! {

/// Genocide status of a species.
#[derive(Debug, Clone, Copy, PartialEq, Eq, Structural)]
pub struct GenocideFlags {
    /// The species has been genocided.
    pub genocided: bool,
    /// No corpses of the species are left.
    pub no_corpse: bool,
}

impl Default for GenocideFlags {
    /// Not genocided.
    fn default() -> (f: Self)
        ensures
            f == (GenocideFlags { genocided: false, no_corpse: false }),
    {
        GenocideFlags { genocided: false, no_corpse: false }
    }
}

/// A hash map from species to their genocide status.
#[derive(Debug)]
#[verifier::external_body]
pub struct SpeciesTable {
    map: hashbrown::HashMap<i16, GenocideFlags>,
}

/// What a species table holds.
pub uninterp spec fn species_flags(t: SpeciesTable) -> Map<i16, GenocideFlags>;

/// The contents of a table without entries.
pub open spec fn no_species() -> Map<i16, GenocideFlags> {
    Map::empty()
}

/// `hashbrown::HashMap::new`: an empty table.
#[verifier::external_body]
fn species_new() -> (table: SpeciesTable)
    ensures
        species_flags(table) == no_species(),
{
    SpeciesTable { map: hashbrown::HashMap::new() }
}

/// `hashbrown::HashMap::clone`: a table with the same entries.
#[verifier::external_body]
fn species_clone(t: &SpeciesTable) -> (c: SpeciesTable)
    ensures
        species_flags(c) == species_flags(*t),
{
    SpeciesTable { map: t.map.clone() }
}

/// `hashbrown::HashMap::get`, the entry copied: the status of `k`, if it has
/// an entry.
#[verifier::external_body]
fn species_get(t: &SpeciesTable, k: i16) -> (r: Option<GenocideFlags>)
    ensures
        r is Some <==> species_flags(*t).dom().contains(k),
        r matches Some(f) ==> f == species_flags(*t)[k],
{
    t.map.get(&k).copied()
}

/// `hashbrown::HashMap::insert`: the entry for `k` becomes `f`.
#[verifier::external_body]
fn species_insert(t: &mut SpeciesTable, k: i16, f: GenocideFlags)
    ensures
        species_flags(*final(t)) == species_flags(*old(t)).insert(k, f),
{
    t.map.insert(k, f);
}

/// `hashbrown::HashMap::clear`: no entries.
#[verifier::external_body]
fn species_clear(t: &mut SpeciesTable)
    ensures
        species_flags(*final(t)) == no_species(),
{
    t.map.clear();
}

/// `hashbrown::HashMap::keys`, collected: every species with an entry, each
/// once, in an order the table chooses.
#[verifier::external_body]
fn species_keys(t: &SpeciesTable) -> (v: Vec<i16>)
    ensures
        v@.no_duplicates(),
        v@.to_set() == species_flags(*t).dom(),
{
    t.map.keys().copied().collect()
}

/// Which species are genocided.
#[derive(Debug)]
pub struct MonsterVitals {
    flags: SpeciesTable,
}

impl Clone for MonsterVitals {
    /// The same statuses.
    fn clone(&self) -> (c: Self)
        ensures
            c@ == self@,
    {
        MonsterVitals { flags: species_clone(&self.flags) }
    }
}

impl View for MonsterVitals {
    type V = Map<i16, GenocideFlags>;

    closed spec fn view(&self) -> Map<i16, GenocideFlags> {
        species_flags(self.flags)
    }
}

/// Whether species `t` is genocided in `m`.
pub open spec fn genocided_in(m: Map<i16, GenocideFlags>, t: i16) -> bool {
    m.dom().contains(t) && m[t].genocided
}

/// The genocided species of `m`.
pub open spec fn genocided_set(m: Map<i16, GenocideFlags>) -> Set<i16> {
    m.dom().filter(|t: i16| m[t].genocided)
}

impl Default for MonsterVitals {
    /// No species genocided.
    fn default() -> (v: Self)
        ensures
            v@ == no_species(),
    {
        MonsterVitals::new()
    }
}

impl MonsterVitals {
    /// No species genocided.
    pub fn new() -> (v: Self)
        ensures
            v@ == no_species(),
    {
        MonsterVitals { flags: species_new() }
    }

    /// Forget every species' status.
    pub fn clear(&mut self)
        ensures
            final(self)@ == no_species(),
    {
        species_clear(&mut self.flags);
    }

    /// Whether a species is genocided.
    pub fn is_genocided(&self, monster_type: i16) -> (r: bool)
        ensures
            r == genocided_in(self@, monster_type),
    {
        match species_get(&self.flags, monster_type) {
            Some(f) => f.genocided,
            None => false,
        }
    }

    /// Mark a species genocided, leaving no corpses.
    pub fn mark_genocided(&mut self, monster_type: i16)
        ensures
            final(self)@ == old(self)@.insert(monster_type, GenocideFlags { genocided: true, no_corpse: true }),
    {
        species_insert(&mut self.flags, monster_type, GenocideFlags { genocided: true, no_corpse: true });
    }

    /// The status of a species; not genocided when it has no entry.
    pub fn get_flags(&self, monster_type: i16) -> (f: GenocideFlags)
        ensures
            f == (if self@.dom().contains(monster_type) { self@[monster_type] } else {
                GenocideFlags { genocided: false, no_corpse: false }
            }),
    {
        match species_get(&self.flags, monster_type) {
            Some(f) => f,
            None => GenocideFlags::default(),
        }
    }

    /// The genocided species, each once, in an order the table chooses.
    fn genocided_list(&self) -> (v: Vec<i16>)
        ensures
            v@.no_duplicates(),
            v@.to_set() == genocided_set(self@),
    {
        let keys = species_keys(&self.flags);
        let ghost m = self@;
        let mut out: Vec<i16> = Vec::new();
        let mut i: usize = 0;
        while i < keys.len()
            invariant
                m == self@,
                keys@.no_duplicates(),
                keys@.to_set() == m.dom(),
                i <= keys@.len(),
                out@.no_duplicates(),
                forall|t: i16| out@.contains(t) <==> (keys@.take(i as int).contains(t) && m[t].genocided),
            decreases keys@.len() - i,
        {
            let k = keys[i];
            proof {
                assert(keys@.to_set().contains(k));
                assert forall|t: i16| keys@.take(i as int + 1).contains(t) <==> (keys@.take(i as int).contains(t)
                    || t == k) by {
                    if keys@.take(i as int + 1).contains(t) {
                        let j = choose|j: int| 0 <= j < i + 1 && #[trigger] keys@.take(i as int + 1)[j] == t;
                        if j < i {
                            assert(keys@.take(i as int)[j] == t);
                        }
                    }
                    if keys@.take(i as int).contains(t) {
                        let j = choose|j: int| 0 <= j < i && #[trigger] keys@.take(i as int)[j] == t;
                        assert(keys@.take(i as int + 1)[j] == t);
                    }
                    if t == k {
                        assert(keys@.take(i as int + 1)[i as int] == t);
                    }
                }
                assert(!keys@.take(i as int).contains(k)) by {
                    if keys@.take(i as int).contains(k) {
                        let j = choose|j: int| 0 <= j < i && #[trigger] keys@.take(i as int)[j] == k;
                        assert(keys@[j] == keys@[i as int]);
                    }
                }
            }
            let g = match species_get(&self.flags, k) {
                Some(f) => f.genocided,
                None => false,
            };
            assert(g == m[k].genocided);
            let ghost before = out@;
            if g {
                out.push(k);
                proof {
                    assert forall|t: i16| out@.contains(t) <==> (before.contains(t) || t == k) by {
                        if out@.contains(t) {
                            let j = choose|j: int| 0 <= j < out@.len() && #[trigger] out@[j] == t;
                            if j < before.len() {
                                assert(before[j] == t);
                            }
                        }
                        if before.contains(t) {
                            let j = choose|j: int| 0 <= j < before.len() && #[trigger] before[j] == t;
                            assert(out@[j] == t);
                        }
                        if t == k {
                            assert(out@[before.len() as int] == t);
                        }
                    }
                    assert forall|a: int, b: int| 0 <= a < out@.len() && 0 <= b < out@.len() && a != b implies out@[a]
                        != out@[b] by {
                        if a < before.len() && b < before.len() {
                        } else if a == before.len() {
                            assert(before.contains(out@[b]));
                        } else {
                            assert(before.contains(out@[a]));
                        }
                    }
                }
            }
            proof {
                assert(m.dom().contains(k));
                assert forall|t: i16| out@.contains(t) <==> (keys@.take(i as int + 1).contains(t) && m[t].genocided)
                    by {
                    assert(keys@.take(i as int + 1).contains(t) <==> (keys@.take(i as int).contains(t) || t == k));
                    assert(before.contains(t) <==> (keys@.take(i as int).contains(t) && m[t].genocided));
                    if g {
                        assert(out@.contains(t) <==> (before.contains(t) || t == k));
                    } else {
                        assert(out@ == before);
                    }
                }
            }
            i = i + 1;
        }
        proof {
            assert(keys@.take(keys@.len() as int) =~= keys@);
            assert forall|t: i16| #[trigger] out@.to_set().contains(t) == genocided_set(m).contains(t) by {
                assert(out@.to_set().contains(t) == out@.contains(t));
                assert(keys@.to_set().contains(t) == keys@.contains(t));
            }
            assert(out@.to_set() =~= genocided_set(m));
        }
        out
    }

    /// How many species are genocided.
    pub fn num_genocides(&self) -> (n: u32)
        requires
            genocided_set(self@).len() <= u32::MAX,
        ensures
            n == genocided_set(self@).len(),
    {
        let v = self.genocided_list();
        proof {
            v@.unique_seq_to_set();
        }
        v.len() as u32
    }
}

/// What a genocide did.
#[derive(Debug, Clone)]
pub struct GenocideResult {
    pub messages: Vec<String>,
    /// Number of monsters killed.
    pub killed_count: u32,
    /// Whether the hero died of it.
    pub player_died: bool,
    /// Change of alignment.
    pub alignment_shift: i8,
}

impl Default for GenocideResult {
    /// Nothing happened.
    fn default() -> (r: Self)
        ensures
            r.messages@.len() == 0 && r.killed_count == 0 && !r.player_died && r.alignment_shift == 0,
    {
        GenocideResult::new()
    }
}

impl GenocideResult {
    /// Nothing happened.
    pub fn new() -> (r: Self)
        ensures
            r.messages@.len() == 0 && r.killed_count == 0 && !r.player_died && r.alignment_shift == 0,
    {
        GenocideResult { messages: Vec::new(), killed_count: 0, player_died: false, alignment_shift: 0 }
    }

    /// The result with a message added.
    pub fn with_message(self, msg: &str) -> (r: Self)
        ensures
            crate::text::views(r.messages@) == crate::text::views(self.messages@).push(msg@),
            r.killed_count == self.killed_count && r.player_died == self.player_died,
            r.alignment_shift == self.alignment_shift,
    {
        let mut r = self;
        crate::text::push_text(&mut r.messages, msg);
        r
    }

    /// The result with `count` monsters killed.
    pub fn with_killed(self, count: u32) -> (r: Self)
        ensures
            r.messages@ == self.messages@ && r.killed_count == count,
            r.player_died == self.player_died && r.alignment_shift == self.alignment_shift,
    {
        let mut r = self;
        r.killed_count = count;
        r
    }

    /// The result with an alignment shift.
    pub fn with_alignment_shift(self, shift: i8) -> (r: Self)
        ensures
            r.messages@ == self.messages@ && r.killed_count == self.killed_count,
            r.player_died == self.player_died && r.alignment_shift == shift,
    {
        let mut r = self;
        r.alignment_shift = shift;
        r
    }

    /// The result with the hero dead.
    pub fn with_player_death(self) -> (r: Self)
        ensures
            r.messages@ == self.messages@ && r.killed_count == self.killed_count,
            r.player_died && r.alignment_shift == self.alignment_shift,
    {
        let mut r = self;
        r.player_died = true;
        r
    }
}

/// Whether generation flags mark a species that cannot be genocided: unique
/// (`0x1000`) or never generated (`0x0200`).
pub open spec fn unique_or_nogen(gen_flags: u16) -> bool {
    (gen_flags & 0x1000u16) != 0 || (gen_flags & 0x0200u16) != 0
}

/// Whether a species is exempt from genocide by its generation flags.
pub fn is_unique_npc(monster_type: i16, gen_flags: u16) -> (r: bool)
    ensures
        r == unique_or_nogen(gen_flags),
{
    let is_unique = (gen_flags & 0x1000u16) != 0;
    let is_nogen = (gen_flags & 0x0200u16) != 0;
    is_unique || is_nogen
}

/// The genocided species, each once, in an order the table chooses.
pub fn list_genocided(vitals: &MonsterVitals) -> (v: Vec<i16>)
    ensures
        v@.no_duplicates(),
        v@.to_set() == genocided_set(vitals@),
{
    vitals.genocided_list()
}

/// How many species are extinct.
pub fn num_extinct(vitals: &MonsterVitals) -> (n: u32)
    requires
        genocided_set(vitals@).len() <= u32::MAX,
    ensures
        n == genocided_set(vitals@).len(),
{
    vitals.num_genocides()
}

/// Whether a species is extinct.
pub fn dead_species(monster_type: i16, vitals: &MonsterVitals) -> (r: bool)
    ensures
        r == genocided_in(vitals@, monster_type),
{
    vitals.is_genocided(monster_type)
}

/// After a species is marked genocided it is extinct, and the other
/// species keep their status.
pub proof fn lemma_mark_then_dead(m: Map<i16, GenocideFlags>, t: i16, u: i16)
    requires
        u != t,
    ensures
        genocided_in(m.insert(t, GenocideFlags { genocided: true, no_corpse: true }), t),
        genocided_in(m.insert(t, GenocideFlags { genocided: true, no_corpse: true }), u) == genocided_in(m, u),
{
}

/// The monsters of `s` that survive a genocide of the species for which
/// `hit` holds, in order.
pub open spec fn survivors(s: Seq<Monster>, hit: spec_fn(i16) -> bool) -> Seq<Monster>
    decreases s.len(),
{
    if s.len() == 0 {
        s
    } else {
        (if hit(s[0].monster_type) { Seq::empty() } else { seq![s[0]] }) + survivors(s.drop_first(), hit)
    }
}

/// The message of a monster annihilated.
pub open spec fn annihilated(m: Monster) -> Seq<char> {
    "A "@ + m.name@ + " is annihilated!"@
}

/// The messages of the monsters of `s` a genocide of the species for which
/// `hit` holds annihilates, from the last monster to the first.
pub open spec fn kill_messages(s: Seq<Monster>, hit: spec_fn(i16) -> bool) -> Seq<Seq<char>>
    decreases s.len(),
{
    if s.len() == 0 {
        Seq::empty()
    } else {
        kill_messages(s.drop_first(), hit) + (if hit(s[0].monster_type) { seq![annihilated(s[0])] } else {
            Seq::empty() })
    }
}

/// Whether a species is `t`.
pub open spec fn is_species(t: i16) -> spec_fn(i16) -> bool {
    |u: i16| u == t
}

/// Whether a species is one of `ts`.
pub open spec fn among(ts: Seq<i16>) -> spec_fn(i16) -> bool {
    |u: i16| ts.contains(u)
}

/// `A <name> is annihilated!`
fn annihilated_message(m: &Monster) -> (s: String)
    ensures
        s@ == annihilated(*m),
{
    let mut s = String::from_str("A ");
    s.append(m.name.as_str());
    s.append(" is annihilated!");
    s
}

/// Whether `t` is one of `ts`.
fn contains_species(ts: &[i16], t: i16) -> (r: bool)
    ensures
        r == ts@.contains(t),
{
    let mut i: usize = 0;
    while i < ts.len()
        invariant
            i <= ts@.len(),
            forall|j: int| 0 <= j < i ==> ts@[j] != t,
        decreases ts@.len() - i,
    {
        if ts[i] == t {
            assert(ts@[i as int] == t);
            return true;
        }
        i = i + 1;
    }
    false
}

/// Remove from the level the monsters of the species for which `hit` holds,
/// the last first, reporting each.
fn kill_where(level: &mut Level, hit_types: &[i16], single: Option<i16>, Ghost(hit): Ghost<spec_fn(i16) -> bool>) -> (r: (
    u32,
    Vec<String>,
))
    requires
        old(level).monsters@.len() <= u32::MAX,
        single matches Some(t) ==> hit == is_species(t),
        single is None ==> hit == among(hit_types@),
    ensures
        final(level).monsters@ == survivors(old(level).monsters@, hit),
        views(r.1@) == kill_messages(old(level).monsters@, hit),
        r.0 == r.1@.len(),
        *final(level) == (Level { monsters: final(level).monsters, ..*old(level) }),
{
    let ghost ms = level.monsters@;
    let mut messages: Vec<String> = Vec::new();
    let mut count: u32 = 0;
    let mut j: usize = level.monsters.len();
    assert(ms.skip(ms.len() as int) =~= Seq::<Monster>::empty());
    assert(ms.take(ms.len() as int) =~= ms);
    while j > 0
        invariant
            j <= ms.len(),
            ms.len() <= u32::MAX,
            single matches Some(t) ==> hit == is_species(t),
            single is None ==> hit == among(hit_types@),
            level.monsters@ == ms.take(j as int) + survivors(ms.skip(j as int), hit),
            views(messages@) == kill_messages(ms.skip(j as int), hit),
            count == messages@.len(),
            count <= ms.len() - j,
            *level == (Level { monsters: level.monsters, ..*old(level) }),
        decreases j,
    {
        let k = j - 1;
        let m_type = level.monsters[k].monster_type;
        let hit_now = match single {
            Some(t) => m_type == t,
            None => contains_species(hit_types, m_type),
        };
        proof {
            assert(ms.take(j as int)[k as int] == ms[k as int]);
            assert(level.monsters@[k as int] == ms[k as int]);
            assert(hit_now == hit(ms[k as int].monster_type));
            assert(ms.skip(k as int).drop_first() =~= ms.skip(j as int));
            assert(ms.skip(k as int)[0] == ms[k as int]);
        }
        if hit_now {
            let msg = annihilated_message(&level.monsters[k]);
            push_string(&mut messages, msg);
            count = count + 1;
            assert(views(messages@).len() == messages@.len());
            level.monsters.remove(k);
            proof {
                assert(level.monsters@ =~= ms.take(k as int) + survivors(ms.skip(k as int), hit));
            }
        } else {
            proof {
                assert(level.monsters@ =~= ms.take(k as int) + survivors(ms.skip(k as int), hit));
            }
        }
        j = k;
    }
    proof {
        assert(ms.skip(0) =~= ms);
        assert(ms.take(0) =~= Seq::<Monster>::empty());
        assert(level.monsters@ =~= survivors(ms, hit));
    }
    (count, messages)
}

/// Annihilate every monster of a species on a level, the last first:
/// how many, and a message for each.
pub fn kill_genocided_monsters(level: &mut Level, monster_type: i16) -> (r: (u32, Vec<String>))
    requires
        old(level).monsters@.len() <= u32::MAX,
    ensures
        final(level).monsters@ == survivors(old(level).monsters@, is_species(monster_type)),
        views(r.1@) == kill_messages(old(level).monsters@, is_species(monster_type)),
        r.0 == r.1@.len(),
        *final(level) == (Level { monsters: final(level).monsters, ..*old(level) }),
{
    kill_where(level, &[], Some(monster_type), Ghost(is_species(monster_type)))
}

/// Annihilate every monster of any of the species `monster_types` on a
/// level, the last first: how many, and a message for each.
pub fn kill_genocided_monsters_by_type(level: &mut Level, monster_types: &[i16]) -> (r: (u32, Vec<String>))
    requires
        old(level).monsters@.len() <= u32::MAX,
    ensures
        final(level).monsters@ == survivors(old(level).monsters@, among(monster_types@)),
        views(r.1@) == kill_messages(old(level).monsters@, among(monster_types@)),
        r.0 == r.1@.len(),
        *final(level) == (Level { monsters: final(level).monsters, ..*old(level) }),
{
    kill_where(level, monster_types, None, Ghost(among(monster_types@)))
}

} // verus!
