//! Detection and mapping: magic mapping, clairvoyance, object, gold, food,
//! monster and trap detection, crystal balls and the search command.
//!
//! Detection works on the level's seen-flags and on the `seen` flags of
//! traps, and wakes or reveals monsters directly.

use vstd::prelude::*;
use vstd::string::*;
use crate::dungeon::level::{Cell, CellType, Level, Trap, TrapType, COLNO, ROWNO, NCELLS, cell_index};
use crate::object::{Object, ObjectClass, class_noun};
use crate::player::You;
use crate::rng::{GameRng, rn2_at, step};
use crate::text::views;

verus! {

/// Result of a detection.
#[derive(Debug, Clone)]
pub struct DetectResult {
    pub messages: Vec<String>,
    /// Number of things detected.
    pub count: usize,
    /// Whether anything was detected.
    pub found_something: bool,
}

/// `r` reports `msg` alone, with `count` and `found`.
pub open spec fn reports(r: DetectResult, msg: Seq<char>, count: int, found: bool) -> bool {
    &&& views(r.messages@) == seq![msg]
    &&& r.count == count
    &&& r.found_something == found
}

impl DetectResult {
    /// Nothing detected, with a message.
    pub fn nothing(msg: &str) -> (r: Self)
        ensures
            reports(r, msg@, 0, false),
    {
        let r = DetectResult { messages: vec![String::from_str(msg)], count: 0, found_something: false };
        assert(views(r.messages@) =~= seq![msg@]);
        r
    }

    /// `count` things detected, with a message.
    pub fn found(msg: &str, count: usize) -> (r: Self)
        ensures
            reports(r, msg@, count as int, true),
    {
        let r = DetectResult { messages: vec![String::from_str(msg)], count, found_something: true };
        assert(views(r.messages@) =~= seq![msg@]);
        r
    }

    /// The result with a message added.
    pub fn with_message(self, msg: &str) -> (r: Self)
        ensures
            views(r.messages@) == views(self.messages@).push(msg@),
            r.count == self.count,
            r.found_something == self.found_something,
    {
        let mut r = self;
        let ghost before = r.messages@;
        r.messages.push(String::from_str(msg));
        assert(views(r.messages@) =~= views(before).push(msg@));
        r
    }
}

/// Found (when `count > 0`) or nothing (otherwise), with the matching message.
fn found_or_nothing(count: usize, yes: &str, no: &str) -> (r: DetectResult)
    ensures
        count > 0 ==> reports(r, yes@, count as int, true),
        count == 0 ==> reports(r, no@, 0, false),
{
    if count > 0 { DetectResult::found(yes, count) } else { DetectResult::nothing(no) }
}

/// Terrain after secret doors and corridors are found out.
pub open spec fn unsecret(t: CellType) -> CellType {
    if t == CellType::SecretDoor { CellType::Door } else if t == CellType::SecretCorridor { CellType::Corridor } else { t }
}

/// Whether a terrain is a secret door or corridor.
pub open spec fn is_secret(t: CellType) -> bool {
    t == CellType::SecretDoor || t == CellType::SecretCorridor
}

/// What magic mapping counts for one cell: a found secret, and a non-stone cell.
pub open spec fn mapping_points(t: CellType) -> nat {
    (if is_secret(t) { 1nat } else { 0nat }) + (if unsecret(t) != CellType::Stone { 1nat } else { 0nat })
}

/// Sum of `mapping_points` over the cells `cells[0..k]`.
pub open spec fn mapping_count(cells: Seq<Cell>, k: int) -> nat
    decreases k,
{
    if k <= 0 { 0 } else { mapping_count(cells, k - 1) + mapping_points(cells[k - 1].typ) }
}

/// Number of unseen traps in `traps[0..k]`.
pub open spec fn unseen_count(traps: Seq<Trap>, k: int) -> nat
    decreases k,
{
    if k <= 0 { 0 } else { unseen_count(traps, k - 1) + if !traps[k - 1].seen { 1nat } else { 0nat } }
}

proof fn lemma_mapping_count_bound(cells: Seq<Cell>, k: int)
    requires
        0 <= k,
    ensures
        mapping_count(cells, k) <= 2 * k,
    decreases k,
{
    if k > 0 {
        lemma_mapping_count_bound(cells, k - 1);
    }
}

proof fn lemma_unseen_count_bound(traps: Seq<Trap>, k: int)
    requires
        0 <= k,
    ensures
        unseen_count(traps, k) <= k,
    decreases k,
{
    if k > 0 {
        lemma_unseen_count_bound(traps, k - 1);
    }
}

/// Reveal the whole level (magic mapping): secret doors and corridors
/// become doors and corridors, every non-stone cell is seen, and every trap
/// is seen. The count adds one per secret found, per non-stone cell and per
/// trap newly seen.
pub fn do_mapping(level: &mut Level) -> (r: DetectResult)
    requires
        old(level).wf(),
        old(level).traps@.len() <= usize::MAX - 2 * NCELLS,
    ensures
        final(level).wf(),
        final(level).dlevel == old(level).dlevel,
        final(level).monsters@ == old(level).monsters@,
        final(level).objects@ == old(level).objects@,
        final(level).stairs@ == old(level).stairs@,
        final(level).flags == old(level).flags,
        forall|i: int| 0 <= i < NCELLS ==> #[trigger] final(level).cells@[i] == (Cell {
            typ: unsecret(old(level).cells@[i].typ), ..old(level).cells@[i] }),
        forall|i: int| 0 <= i < NCELLS ==> #[trigger] final(level).explored@[i] == (old(level).explored@[i]
            || unsecret(old(level).cells@[i].typ) != CellType::Stone),
        final(level).traps@.len() == old(level).traps@.len(),
        forall|i: int| 0 <= i < old(level).traps@.len() ==> #[trigger] final(level).traps@[i] == (Trap {
            seen: true, ..old(level).traps@[i] }),
        reports(r, "A map coalesces in your mind!"@,
            (mapping_count(old(level).cells@, NCELLS as int) + unseen_count(old(level).traps@,
                old(level).traps@.len() as int)) as int, true),
{
    let mut count: usize = 0;
    let mut i: usize = 0;
    while i < NCELLS
        invariant
            i <= NCELLS,
            level.wf(),
            level.dlevel == old(level).dlevel,
            level.traps@ == old(level).traps@,
            level.monsters@ == old(level).monsters@,
            level.objects@ == old(level).objects@,
            level.stairs@ == old(level).stairs@,
            level.flags == old(level).flags,
            count == mapping_count(old(level).cells@, i as int),
            count <= 2 * i,
            forall|j: int| 0 <= j < NCELLS ==> #[trigger] level.cells@[j] == if j < i {
                Cell { typ: unsecret(old(level).cells@[j].typ), ..old(level).cells@[j] }
            } else {
                old(level).cells@[j]
            },
            forall|j: int| 0 <= j < NCELLS ==> #[trigger] level.explored@[j] == if j < i {
                old(level).explored@[j] || unsecret(old(level).cells@[j].typ) != CellType::Stone
            } else {
                old(level).explored@[j]
            },
        decreases NCELLS - i,
    {
        let mut c = level.cells[i];
        if c.typ == CellType::SecretDoor {
            c.typ = CellType::Door;
            count = count + 1;
        }
        if c.typ == CellType::SecretCorridor {
            c.typ = CellType::Corridor;
            count = count + 1;
        }
        level.cells.set(i, c);
        if c.typ != CellType::Stone {
            level.explored.set(i, true);
            count = count + 1;
        }
        i = i + 1;
    }
    let mut k: usize = 0;
    while k < level.traps.len()
        invariant
            k <= level.traps@.len(),
            level.wf(),
            level.dlevel == old(level).dlevel,
            level.monsters@ == old(level).monsters@,
            level.objects@ == old(level).objects@,
            level.stairs@ == old(level).stairs@,
            level.flags == old(level).flags,
            forall|j: int| 0 <= j < NCELLS ==> #[trigger] level.cells@[j] == (Cell {
                typ: unsecret(old(level).cells@[j].typ), ..old(level).cells@[j] }),
            forall|j: int| 0 <= j < NCELLS ==> #[trigger] level.explored@[j] == (old(level).explored@[j]
                || unsecret(old(level).cells@[j].typ) != CellType::Stone),
            level.traps@.len() == old(level).traps@.len(),
            old(level).traps@.len() <= usize::MAX - 2 * NCELLS,
            count == mapping_count(old(level).cells@, NCELLS as int) + unseen_count(old(level).traps@, k as int),
            count <= 2 * NCELLS + k,
            forall|j: int| 0 <= j < level.traps@.len() ==> #[trigger] level.traps@[j] == if j < k {
                Trap { seen: true, ..old(level).traps@[j] }
            } else {
                old(level).traps@[j]
            },
        decreases level.traps@.len() - k,
    {
        let mut t = level.traps[k];
        if !t.seen {
            t.seen = true;
            count = count + 1;
        }
        level.traps.set(k, t);
        k = k + 1;
    }
    DetectResult::found("A map coalesces in your mind!", count)
}

/// Whether an object of class `c` is picked by a detection for `class`
/// (any class when `None`), with rings counting too when `also_ring`.
pub open spec fn picks_class(c: ObjectClass, class: Option<ObjectClass>, also_ring: bool) -> bool {
    (match class { None => true, Some(k) => c == k }) || (also_ring && c == ObjectClass::Ring)
}

/// Whether `(x, y)` lies on the map.
pub open spec fn on_map(x: int, y: int) -> bool {
    0 <= x < COLNO && 0 <= y < ROWNO
}

/// Whether a detection marks the position of object `o`.
pub open spec fn obj_hit(o: Object, class: Option<ObjectClass>, also_ring: bool) -> bool {
    picks_class(o.class, class, also_ring) && on_map(o.x as int, o.y as int)
}

/// Number of objects in `objs[0..k]` a detection marks.
pub open spec fn hit_count(objs: Seq<Object>, k: int, class: Option<ObjectClass>, also_ring: bool) -> nat
    decreases k,
{
    if k <= 0 { 0 } else { hit_count(objs, k - 1, class, also_ring) + if obj_hit(objs[k - 1], class, also_ring) {
        1nat } else { 0nat } }
}

/// Whether some object in `objs[0..k]` marked by a detection lies at cell index `i`.
pub open spec fn marks_cell(objs: Seq<Object>, k: int, class: Option<ObjectClass>, also_ring: bool, i: int) -> bool {
    exists|j: int| 0 <= j < k && obj_hit(objs[j], class, also_ring) && cell_index(objs[j].x as int, objs[j].y as int) == i
}

proof fn lemma_hit_count_bound(objs: Seq<Object>, k: int, class: Option<ObjectClass>, also_ring: bool)
    requires
        0 <= k,
    ensures
        hit_count(objs, k, class, also_ring) <= k,
    decreases k,
{
    if k > 0 {
        lemma_hit_count_bound(objs, k - 1, class, also_ring);
    }
}

/// Only the seen-flags of the level changed.
pub open spec fn only_seen_changed(old: Level, new: Level) -> bool {
    &&& new.wf()
    &&& new.dlevel == old.dlevel
    &&& new.cells@ == old.cells@
    &&& new.traps@ == old.traps@
    &&& new.monsters@ == old.monsters@
    &&& new.objects@ == old.objects@
    &&& new.stairs@ == old.stairs@
    &&& new.flags == old.flags
}

/// Mark the positions of the objects a detection picks as seen; returns how
/// many were marked.
fn explore_objects(level: &mut Level, class: Option<ObjectClass>, also_ring: bool) -> (n: usize)
    requires
        old(level).wf(),
    ensures
        only_seen_changed(*old(level), *final(level)),
        n == hit_count(old(level).objects@, old(level).objects@.len() as int, class, also_ring),
        forall|i: int| 0 <= i < NCELLS ==> #[trigger] final(level).explored@[i] == (old(level).explored@[i]
            || marks_cell(old(level).objects@, old(level).objects@.len() as int, class, also_ring, i)),
{
    let mut n: usize = 0;
    let mut j: usize = 0;
    while j < level.objects.len()
        invariant
            j <= level.objects@.len(),
            only_seen_changed(*old(level), *level),
            n == hit_count(old(level).objects@, j as int, class, also_ring),
            n <= j,
            forall|i: int| 0 <= i < NCELLS ==> #[trigger] level.explored@[i] == (old(level).explored@[i]
                || marks_cell(old(level).objects@, j as int, class, also_ring, i)),
        decreases level.objects@.len() - j,
    {
        let o = level.objects[j];
        let pick = match class {
            None => true,
            Some(k) => o.class == k,
        } || (also_ring && o.class == ObjectClass::Ring);
        let ghost before = level.explored@;
        if pick && o.x >= 0 && (o.x as usize) < COLNO && o.y >= 0 && (o.y as usize) < ROWNO {
            let x = o.x as usize;
            let y = o.y as usize;
            level.mark_explored(x, y);
            n = n + 1;
        }
        proof {
            assert forall|i: int| 0 <= i < NCELLS implies #[trigger] level.explored@[i] == (old(level).explored@[i]
                || marks_cell(old(level).objects@, j + 1, class, also_ring, i)) by {
                if marks_cell(old(level).objects@, j + 1, class, also_ring, i) && !marks_cell(old(level).objects@,
                    j as int, class, also_ring, i) {
                    let w = choose|w: int| 0 <= w < j + 1 && obj_hit(old(level).objects@[w], class, also_ring)
                        && cell_index(old(level).objects@[w].x as int, old(level).objects@[w].y as int) == i;
                    assert(w == j);
                }
                if marks_cell(old(level).objects@, j as int, class, also_ring, i) {
                    let w = choose|w: int| 0 <= w < j && obj_hit(old(level).objects@[w], class, also_ring)
                        && cell_index(old(level).objects@[w].x as int, old(level).objects@[w].y as int) == i;
                    assert(0 <= w < j + 1);
                }
            }
        }
        j = j + 1;
    }
    n
}

/// The level after the positions of the objects (of `class`, when given) were seen.
pub open spec fn objects_detected(old: Level, new: Level, class: Option<ObjectClass>) -> bool {
    &&& only_seen_changed(old, new)
    &&& forall|i: int| 0 <= i < NCELLS ==> #[trigger] new.explored@[i] == (old.explored@[i]
        || marks_cell(old.objects@, old.objects@.len() as int, class, false, i))
}

/// Detect objects (of one class, when given): their positions are seen.
/// A cursed detection gives only a vague feeling.
pub fn object_detect(level: &mut Level, class: Option<ObjectClass>, cursed: bool) -> (r: DetectResult)
    requires
        old(level).wf(),
    ensures
        cursed ==> *final(level) == *old(level)
            && reports(r, "You sense the presence of objects, but the feeling is vague."@, 0, false),
        !cursed ==> objects_detected(*old(level), *final(level), class) && ({
            let n = hit_count(old(level).objects@, old(level).objects@.len() as int, class, false);
            if n > 0 { reports(r, "You sense the presence of objects."@, n as int, true) }
            else { reports(r, "You sense no objects."@, 0, false) }
        }),
{
    if cursed {
        return DetectResult::nothing("You sense the presence of objects, but the feeling is vague.");
    }
    let n = explore_objects(level, class, false);
    found_or_nothing(n, "You sense the presence of objects.", "You sense no objects.")
}

/// Detect gold: coins (and, when blessed, rings as gold objects) are seen.
/// A cursed detection finds nothing.
pub fn gold_detect(level: &mut Level, blessed: bool, cursed: bool) -> (r: DetectResult)
    requires
        old(level).wf(),
    ensures
        cursed ==> *final(level) == *old(level)
            && reports(r, "You feel very greedy, but can't find anything."@, 0, false),
        !cursed ==> ({
            let c = Some(ObjectClass::Coin);
            let n = hit_count(old(level).objects@, old(level).objects@.len() as int, c, blessed);
            &&& only_seen_changed(*old(level), *final(level))
            &&& forall|i: int| 0 <= i < NCELLS ==> #[trigger] final(level).explored@[i] == (old(level).explored@[i]
                || marks_cell(old(level).objects@, old(level).objects@.len() as int, c, blessed, i))
            &&& if n > 0 { reports(r, "You sense the presence of gold."@, n as int, true) }
                else { reports(r, "You feel materially poor."@, 0, false) }
        }),
{
    if cursed {
        return DetectResult::nothing("You feel very greedy, but can't find anything.");
    }
    let n = explore_objects(level, Some(ObjectClass::Coin), blessed);
    found_or_nothing(n, "You sense the presence of gold.", "You feel materially poor.")
}

/// Detect food (potions instead, when cursed).
pub fn food_detect(level: &mut Level, blessed: bool, cursed: bool) -> (r: DetectResult)
    requires
        old(level).wf(),
    ensures
        ({
            let c = Some(if cursed { ObjectClass::Potion } else { ObjectClass::Food });
            let n = hit_count(old(level).objects@, old(level).objects@.len() as int, c, false);
            &&& only_seen_changed(*old(level), *final(level))
            &&& forall|i: int| 0 <= i < NCELLS ==> #[trigger] final(level).explored@[i] == (old(level).explored@[i]
                || marks_cell(old(level).objects@, old(level).objects@.len() as int, c, false, i))
            &&& if n > 0 {
                reports(r, if cursed { "You sense the presence of potions."@ } else if blessed {
                    "You sense the presence of food, and can tell what is safe to eat."@
                } else { "You sense the presence of food."@ }, n as int, true)
            } else {
                reports(r, if cursed { "You sense no potions."@ } else { "You sense no food."@ }, 0, false)
            }
        }),
{
    let target_class = if cursed { ObjectClass::Potion } else { ObjectClass::Food };
    let n = explore_objects(level, Some(target_class), false);
    let yes = if cursed {
        "You sense the presence of potions."
    } else if blessed {
        "You sense the presence of food, and can tell what is safe to eat."
    } else {
        "You sense the presence of food."
    };
    let no = if cursed { "You sense no potions." } else { "You sense no food." };
    found_or_nothing(n, yes, no)
}

/// Number of trapped objects in `objs[0..k]`.
pub open spec fn trapped_count(objs: Seq<Object>, k: int) -> nat
    decreases k,
{
    if k <= 0 { 0 } else { trapped_count(objs, k - 1) + if objs[k - 1].trapped { 1nat } else { 0nat } }
}

proof fn lemma_trapped_count_bound(objs: Seq<Object>, k: int)
    requires
        0 <= k,
    ensures
        trapped_count(objs, k) <= k,
    decreases k,
{
    if k > 0 {
        lemma_trapped_count_bound(objs, k - 1);
    }
}

/// Whether some trap in `traps[0..k]` on the map lies at cell index `i`.
pub open spec fn trap_at_cell(traps: Seq<Trap>, k: int, i: int) -> bool {
    exists|j: int| 0 <= j < k && on_map(traps[j].x as int, traps[j].y as int)
        && cell_index(traps[j].x as int, traps[j].y as int) == i
}

/// The level after every trap and trap position was seen.
pub open spec fn traps_detected(old: Level, new: Level) -> bool {
    &&& new.wf()
    &&& new.dlevel == old.dlevel
    &&& new.cells@ == old.cells@
    &&& new.monsters@ == old.monsters@
    &&& new.objects@ == old.objects@
    &&& new.stairs@ == old.stairs@
    &&& new.flags == old.flags
    &&& new.traps@.len() == old.traps@.len()
    &&& forall|j: int| 0 <= j < old.traps@.len() ==> #[trigger] new.traps@[j] == (Trap { seen: true, ..old.traps@[j] })
    &&& forall|i: int| 0 <= i < NCELLS ==> #[trigger] new.explored@[i] == (old.explored@[i]
        || trap_at_cell(old.traps@, old.traps@.len() as int, i))
}

/// Detect traps: every trap is seen and its position too; trapped objects
/// are counted as well. A cursed detection only makes the hero anxious.
pub fn trap_detect(level: &mut Level, cursed: bool) -> (r: DetectResult)
    requires
        old(level).wf(),
        old(level).traps@.len() + old(level).objects@.len() <= usize::MAX,
    ensures
        cursed ==> *final(level) == *old(level)
            && reports(r, "You feel very anxious, but see nothing unusual."@, 0, false),
        !cursed ==> traps_detected(*old(level), *final(level)) && ({
            let n = unseen_count(old(level).traps@, old(level).traps@.len() as int)
                + trapped_count(old(level).objects@, old(level).objects@.len() as int);
            if n > 0 { reports(r, "You sense the presence of traps."@, n as int, true) }
            else { reports(r, "You sense no traps."@, 0, false) }
        }),
{
    if cursed {
        return DetectResult::nothing("You feel very anxious, but see nothing unusual.");
    }
    let mut count: usize = 0;
    let mut k: usize = 0;
    while k < level.traps.len()
        invariant
            k <= level.traps@.len(),
            level.wf(),
            level.dlevel == old(level).dlevel,
            level.cells@ == old(level).cells@,
            level.monsters@ == old(level).monsters@,
            level.objects@ == old(level).objects@,
            level.stairs@ == old(level).stairs@,
            level.flags == old(level).flags,
            level.traps@.len() == old(level).traps@.len(),
            old(level).traps@.len() + old(level).objects@.len() <= usize::MAX,
            count == unseen_count(old(level).traps@, k as int),
            count <= k,
            forall|j: int| 0 <= j < level.traps@.len() ==> #[trigger] level.traps@[j] == if j < k {
                Trap { seen: true, ..old(level).traps@[j] }
            } else {
                old(level).traps@[j]
            },
            forall|i: int| 0 <= i < NCELLS ==> #[trigger] level.explored@[i] == (old(level).explored@[i]
                || trap_at_cell(old(level).traps@, k as int, i)),
        decreases level.traps@.len() - k,
    {
        let mut t = level.traps[k];
        if !t.seen {
            t.seen = true;
            count = count + 1;
        }
        level.traps.set(k, t);
        let ghost before = level.explored@;
        if t.x >= 0 && (t.x as usize) < COLNO && t.y >= 0 && (t.y as usize) < ROWNO {
            level.mark_explored(t.x as usize, t.y as usize);
        }
        proof {
            assert forall|i: int| 0 <= i < NCELLS implies #[trigger] level.explored@[i] == (old(level).explored@[i]
                || trap_at_cell(old(level).traps@, k + 1, i)) by {
                if trap_at_cell(old(level).traps@, k + 1, i) && !trap_at_cell(old(level).traps@, k as int, i) {
                    let w = choose|w: int| 0 <= w < k + 1 && on_map(old(level).traps@[w].x as int,
                        old(level).traps@[w].y as int) && cell_index(old(level).traps@[w].x as int,
                        old(level).traps@[w].y as int) == i;
                    assert(w == k);
                }
                if trap_at_cell(old(level).traps@, k as int, i) {
                    let w = choose|w: int| 0 <= w < k && on_map(old(level).traps@[w].x as int,
                        old(level).traps@[w].y as int) && cell_index(old(level).traps@[w].x as int,
                        old(level).traps@[w].y as int) == i;
                    assert(0 <= w < k + 1);
                }
            }
        }
        k = k + 1;
    }
    let mut j: usize = 0;
    let mut trapped: usize = 0;
    while j < level.objects.len()
        invariant
            j <= level.objects@.len(),
            level.objects@ == old(level).objects@,
            trapped == trapped_count(old(level).objects@, j as int),
            trapped <= j,
        decreases level.objects@.len() - j,
    {
        if level.objects[j].trapped {
            trapped = trapped + 1;
        }
        j = j + 1;
    }
    proof {
        lemma_unseen_count_bound(old(level).traps@, old(level).traps@.len() as int);
    }
    count = count + trapped;
    found_or_nothing(count, "You sense the presence of traps.", "You sense no traps.")
}

/// The name of a trap kind.
pub open spec fn trap_kind_name(t: TrapType) -> Seq<char> {
    match t {
        TrapType::Arrow => "arrow trap"@,
        TrapType::Dart => "dart trap"@,
        TrapType::RockFall => "falling rock trap"@,
        TrapType::Squeaky => "squeaky board"@,
        TrapType::BearTrap => "bear trap"@,
        TrapType::LandMine => "land mine"@,
        TrapType::RollingBoulder => "rolling boulder trap"@,
        TrapType::SleepingGas => "sleeping gas trap"@,
        TrapType::RustTrap => "rust trap"@,
        TrapType::FireTrap => "fire trap"@,
        TrapType::Pit => "pit"@,
        TrapType::SpikedPit => "spiked pit"@,
        TrapType::Hole => "hole"@,
        TrapType::TrapDoor => "trap door"@,
        TrapType::Teleport => "teleportation trap"@,
        TrapType::LevelTeleport => "level teleporter"@,
        TrapType::MagicPortal => "magic portal"@,
        TrapType::Web => "web"@,
        TrapType::Statue => "statue trap"@,
        TrapType::MagicTrap => "magic trap"@,
        TrapType::AntiMagic => "anti-magic field"@,
        TrapType::Polymorph => "polymorph trap"@,
    }
}

/// Get the name of a trap kind.
pub fn trap_name(trap_type: TrapType) -> (s: &'static str)
    ensures
        s@ == trap_kind_name(trap_type),
{
    match trap_type {
        TrapType::Arrow => "arrow trap",
        TrapType::Dart => "dart trap",
        TrapType::RockFall => "falling rock trap",
        TrapType::Squeaky => "squeaky board",
        TrapType::BearTrap => "bear trap",
        TrapType::LandMine => "land mine",
        TrapType::RollingBoulder => "rolling boulder trap",
        TrapType::SleepingGas => "sleeping gas trap",
        TrapType::RustTrap => "rust trap",
        TrapType::FireTrap => "fire trap",
        TrapType::Pit => "pit",
        TrapType::SpikedPit => "spiked pit",
        TrapType::Hole => "hole",
        TrapType::TrapDoor => "trap door",
        TrapType::Teleport => "teleportation trap",
        TrapType::LevelTeleport => "level teleporter",
        TrapType::MagicPortal => "magic portal",
        TrapType::Web => "web",
        TrapType::Statue => "statue trap",
        TrapType::MagicTrap => "magic trap",
        TrapType::AntiMagic => "anti-magic field",
        TrapType::Polymorph => "polymorph trap",
    }
}

/// A trap kind named with its article.
pub open spec fn trap_sense_name(t: TrapType) -> Seq<char> {
    match t {
        TrapType::AntiMagic => "an "@ + trap_kind_name(t),
        TrapType::Arrow => "an "@ + trap_kind_name(t),
        _ => "a "@ + trap_kind_name(t),
    }
}

/// Identify the kind of a detected trap, with its article.
pub fn sense_trap(trap_type: TrapType) -> (s: &'static str)
    ensures
        s@ == trap_sense_name(trap_type),
{
    proof {
        reveal_strlit("a ");
        reveal_strlit("an ");
    }
    match trap_type {
        TrapType::Arrow => { proof { reveal_strlit("an arrow trap"); reveal_strlit("arrow trap"); } "an arrow trap" },
        TrapType::Dart => { proof { reveal_strlit("a dart trap"); reveal_strlit("dart trap"); } "a dart trap" },
        TrapType::RockFall => { proof { reveal_strlit("a falling rock trap"); reveal_strlit("falling rock trap"); } "a falling rock trap" },
        TrapType::Squeaky => { proof { reveal_strlit("a squeaky board"); reveal_strlit("squeaky board"); } "a squeaky board" },
        TrapType::BearTrap => { proof { reveal_strlit("a bear trap"); reveal_strlit("bear trap"); } "a bear trap" },
        TrapType::LandMine => { proof { reveal_strlit("a land mine"); reveal_strlit("land mine"); } "a land mine" },
        TrapType::RollingBoulder => { proof { reveal_strlit("a rolling boulder trap"); reveal_strlit("rolling boulder trap"); } "a rolling boulder trap" },
        TrapType::SleepingGas => { proof { reveal_strlit("a sleeping gas trap"); reveal_strlit("sleeping gas trap"); } "a sleeping gas trap" },
        TrapType::RustTrap => { proof { reveal_strlit("a rust trap"); reveal_strlit("rust trap"); } "a rust trap" },
        TrapType::FireTrap => { proof { reveal_strlit("a fire trap"); reveal_strlit("fire trap"); } "a fire trap" },
        TrapType::Pit => { proof { reveal_strlit("a pit"); reveal_strlit("pit"); } "a pit" },
        TrapType::SpikedPit => { proof { reveal_strlit("a spiked pit"); reveal_strlit("spiked pit"); } "a spiked pit" },
        TrapType::Hole => { proof { reveal_strlit("a hole"); reveal_strlit("hole"); } "a hole" },
        TrapType::TrapDoor => { proof { reveal_strlit("a trap door"); reveal_strlit("trap door"); } "a trap door" },
        TrapType::Teleport => { proof { reveal_strlit("a teleportation trap"); reveal_strlit("teleportation trap"); } "a teleportation trap" },
        TrapType::LevelTeleport => { proof { reveal_strlit("a level teleporter"); reveal_strlit("level teleporter"); } "a level teleporter" },
        TrapType::MagicPortal => { proof { reveal_strlit("a magic portal"); reveal_strlit("magic portal"); } "a magic portal" },
        TrapType::Web => { proof { reveal_strlit("a web"); reveal_strlit("web"); } "a web" },
        TrapType::Statue => { proof { reveal_strlit("a statue trap"); reveal_strlit("statue trap"); } "a statue trap" },
        TrapType::MagicTrap => { proof { reveal_strlit("a magic trap"); reveal_strlit("magic trap"); } "a magic trap" },
        TrapType::AntiMagic => { proof { reveal_strlit("an anti-magic field"); reveal_strlit("anti-magic field"); } "an anti-magic field" },
        TrapType::Polymorph => { proof { reveal_strlit("a polymorph trap"); reveal_strlit("polymorph trap"); } "a polymorph trap" },
    }
}

/// Whether an object is a trapped container.
pub open spec fn trapped_container(o: Object) -> bool {
    o.container && o.trapped
}

/// Count the trapped containers among objects, with a message for each when
/// the traps are known.
pub fn detect_obj_traps(objects: &[Object], known: bool) -> (r: (usize, Vec<String>))
    ensures
        r.0 == objects@.filter(|o: Object| trapped_container(o)).len(),
        views(r.1@) == if known {
            objects@.filter(|o: Object| trapped_container(o)).map_values(
                |o: Object| "the "@ + class_noun(o.class) + " is trapped!"@)
        } else {
            Seq::<Seq<char>>::empty()
        },
{
    let ghost keep = |o: Object| trapped_container(o);
    let ghost say = |o: Object| "the "@ + class_noun(o.class) + " is trapped!"@;
    let mut count: usize = 0;
    let mut messages: Vec<String> = Vec::new();
    let mut i: usize = 0;
    while i < objects.len()
        invariant
            i <= objects@.len(),
            keep == (|o: Object| trapped_container(o)),
            say == (|o: Object| "the "@ + class_noun(o.class) + " is trapped!"@),
            count == objects@.take(i as int).filter(keep).len(),
            count <= i,
            views(messages@) == if known { objects@.take(i as int).filter(keep).map_values(say) }
                else { Seq::<Seq<char>>::empty() },
        decreases objects@.len() - i,
    {
        let o = objects[i];
        proof {
            assert(objects@.take(i + 1).drop_last() =~= objects@.take(i as int));
            reveal(Seq::filter);
            objects@.take(i as int).filter_lemma(keep);
        }
        if o.container && o.trapped {
            count = count + 1;
            if known {
                let mut m = o.display_name();
                m.append(" is trapped!");
                let ghost mv = m@;
                let ghost before = views(messages@);
                messages.push(m);
                proof {
                    assert(views(messages@) =~= before.push(mv));
                    assert(objects@.take(i + 1).filter(keep) == objects@.take(i as int).filter(keep).push(o));
                    assert(objects@.take(i + 1).filter(keep).map_values(say) =~= objects@.take(i as int).filter(
                        keep).map_values(say).push(say(o)));
                }
            }
        }
        i = i + 1;
    }
    proof {
        assert(objects@.take(objects@.len() as int) =~= objects@);
    }
    (count, messages)
}

/// Whether some object is a trapped container.
pub fn trapped_chest_at(objects: &[Object]) -> (r: bool)
    ensures
        r == exists|i: int| 0 <= i < objects@.len() && trapped_container(objects@[i]),
{
    let mut i: usize = 0;
    while i < objects.len()
        invariant
            i <= objects@.len(),
            forall|j: int| 0 <= j < i ==> !trapped_container(objects@[j]),
        decreases objects@.len() - i,
    {
        if objects[i].container && objects[i].trapped {
            assert(trapped_container(objects@[i as int]));
            return true;
        }
        i = i + 1;
    }
    false
}

/// The state of the level's generator after the cursed-detection wake
/// rolls for `ms[0..k]` starting from `s`: a roll for each sleeping monster.
pub open spec fn wake_rng(ms: Seq<crate::monster::Monster>, s: u64, k: int) -> u64
    decreases k,
{
    if k <= 0 { s } else if ms[k - 1].state.sleeping { step(wake_rng(ms, s, k - 1)) } else { wake_rng(ms, s, k - 1) }
}

/// Whether monster `j` is woken by a cursed detection: it sleeps and its roll is 0.
pub open spec fn woken(ms: Seq<crate::monster::Monster>, s: u64, j: int) -> bool {
    ms[j].state.sleeping && rn2_at(wake_rng(ms, s, j), 2) == 0
}

/// Number of monsters in `ms[0..k]` woken.
pub open spec fn woken_count(ms: Seq<crate::monster::Monster>, s: u64, k: int) -> nat
    decreases k,
{
    if k <= 0 { 0 } else { woken_count(ms, s, k - 1) + if woken(ms, s, k - 1) { 1nat } else { 0nat } }
}

/// A monster after being woken.
pub open spec fn awake(m: crate::monster::Monster) -> crate::monster::Monster {
    crate::monster::Monster { state: crate::monster::MonsterState { sleeping: false, ..m.state }, sleep_timeout: 0, ..m }
}

/// Whether some monster in `ms[0..k]` on the map stands at cell index `i`.
pub open spec fn monster_at_cell(ms: Seq<crate::monster::Monster>, k: int, i: int) -> bool {
    exists|j: int| 0 <= j < k && on_map(ms[j].x as int, ms[j].y as int) && cell_index(ms[j].x as int, ms[j].y as int) == i
}

/// Number of monsters in `ms[0..k]` on the map.
pub open spec fn on_map_count(ms: Seq<crate::monster::Monster>, k: int) -> nat
    decreases k,
{
    if k <= 0 { 0 } else { on_map_count(ms, k - 1) + if on_map(ms[k - 1].x as int, ms[k - 1].y as int) { 1nat }
        else { 0nat } }
}

/// The level after the positions of all monsters on the map were seen.
pub open spec fn monsters_detected(old: Level, new: Level) -> bool {
    &&& only_seen_changed(old, new)
    &&& forall|i: int| 0 <= i < NCELLS ==> #[trigger] new.explored@[i] == (old.explored@[i]
        || monster_at_cell(old.monsters@, old.monsters@.len() as int, i))
}

/// Detect monsters: their positions are seen (the class symbol is not
/// checked). A cursed detection instead wakes each sleeping monster half of
/// the time.
pub fn monster_detect(level: &mut Level, class_char: Option<char>, cursed: bool, rng: &mut GameRng) -> (r: DetectResult)
    requires
        old(level).wf(),
    ensures
        cursed ==> ({
            let ms = old(level).monsters@;
            let n = woken_count(ms, old(rng)@, ms.len() as int);
            &&& final(level).wf()
            &&& final(level).dlevel == old(level).dlevel
            &&& final(level).cells@ == old(level).cells@
            &&& final(level).explored@ == old(level).explored@
            &&& final(level).traps@ == old(level).traps@
            &&& final(level).objects@ == old(level).objects@
            &&& final(level).stairs@ == old(level).stairs@
            &&& final(level).flags == old(level).flags
            &&& final(level).monsters@.len() == ms.len()
            &&& forall|j: int| 0 <= j < ms.len() ==> #[trigger] final(level).monsters@[j]
                == if woken(ms, old(rng)@, j) { awake(ms[j]) } else { ms[j] }
            &&& final(rng)@ == wake_rng(ms, old(rng)@, ms.len() as int)
            &&& if n > 0 { reports(r, "You hear some stirring in the distance."@, n as int, true) }
                else { reports(r, "You sense no hostile creatures nearby."@, 0, false) }
        }),
        !cursed ==> monsters_detected(*old(level), *final(level)) && final(rng)@ == old(rng)@ && ({
            let n = on_map_count(old(level).monsters@, old(level).monsters@.len() as int);
            if n > 0 { reports(r, "You sense the presence of monsters."@, n as int, true) }
            else { reports(r, "You sense no monsters."@, 0, false) }
        }),
{
    let ghost ms = level.monsters@;
    let ghost s0 = rng@;
    if cursed {
        let mut woken_n: usize = 0;
        let mut j: usize = 0;
        while j < level.monsters.len()
            invariant
                j <= level.monsters@.len(),
                level.monsters@.len() == ms.len(),
                ms == old(level).monsters@,
                s0 == old(rng)@,
                level.wf(),
                level.dlevel == old(level).dlevel,
                level.cells@ == old(level).cells@,
                level.explored@ == old(level).explored@,
                level.traps@ == old(level).traps@,
                level.objects@ == old(level).objects@,
                level.stairs@ == old(level).stairs@,
                level.flags == old(level).flags,
                rng@ == wake_rng(ms, s0, j as int),
                woken_n == woken_count(ms, s0, j as int),
                woken_n <= j,
                forall|k: int| 0 <= k < ms.len() ==> #[trigger] level.monsters@[k] == if k < j {
                    if woken(ms, s0, k) { awake(ms[k]) } else { ms[k] }
                } else {
                    ms[k]
                },
            decreases ms.len() - j,
        {
            if level.monsters[j].state.sleeping && rng.one_in(2) {
                let m = &mut level.monsters[j];
                m.state.sleeping = false;
                m.sleep_timeout = 0;
                woken_n = woken_n + 1;
            }
            j = j + 1;
        }
        return found_or_nothing(woken_n, "You hear some stirring in the distance.",
            "You sense no hostile creatures nearby.");
    }
    let mut count: usize = 0;
    let mut j: usize = 0;
    while j < level.monsters.len()
        invariant
            j <= level.monsters@.len(),
            ms == old(level).monsters@,
            only_seen_changed(*old(level), *level),
            count == on_map_count(ms, j as int),
            count <= j,
            forall|i: int| 0 <= i < NCELLS ==> #[trigger] level.explored@[i] == (old(level).explored@[i]
                || monster_at_cell(ms, j as int, i)),
        decreases level.monsters@.len() - j,
    {
        let mx = level.monsters[j].x;
        let my = level.monsters[j].y;
        if mx >= 0 && (mx as usize) < COLNO && my >= 0 && (my as usize) < ROWNO {
            level.mark_explored(mx as usize, my as usize);
            count = count + 1;
        }
        proof {
            assert forall|i: int| 0 <= i < NCELLS implies #[trigger] level.explored@[i] == (old(level).explored@[i]
                || monster_at_cell(ms, j + 1, i)) by {
                if monster_at_cell(ms, j + 1, i) && !monster_at_cell(ms, j as int, i) {
                    let w = choose|w: int| 0 <= w < j + 1 && on_map(ms[w].x as int, ms[w].y as int)
                        && cell_index(ms[w].x as int, ms[w].y as int) == i;
                    assert(w == j);
                }
                if monster_at_cell(ms, j as int, i) {
                    let w = choose|w: int| 0 <= w < j && on_map(ms[w].x as int, ms[w].y as int)
                        && cell_index(ms[w].x as int, ms[w].y as int) == i;
                    assert(0 <= w < j + 1);
                }
            }
        }
        j = j + 1;
    }
    found_or_nothing(count, "You sense the presence of monsters.", "You sense no monsters.")
}

/// The cell after `reveal_terrain`: marked explored when `full` or not stone.
pub open spec fn revealed(c: Cell, full: bool) -> Cell {
    if full || c.typ != CellType::Stone { Cell { explored: true, ..c } } else { c }
}

/// Number of cells among `cells[ROWNO..k]` that `reveal_terrain` marks.
pub open spec fn reveal_count(cells: Seq<Cell>, full: bool, k: int) -> nat
    decreases k,
{
    if k <= ROWNO { 0 } else { reveal_count(cells, full, k - 1) + if full || cells[k - 1].typ != CellType::Stone {
        1nat } else { 0nat } }
}

proof fn lemma_reveal_count_bound(cells: Seq<Cell>, full: bool, k: int)
    ensures
        reveal_count(cells, full, k) <= if k > ROWNO { k - ROWNO } else { 0 },
    decreases k,
{
    if k > ROWNO {
        lemma_reveal_count_bound(cells, full, k - 1);
    }
}

/// Reveal the terrain of the map (column 0 excepted): every non-stone cell
/// (every cell, when `full`) is marked explored.
pub fn reveal_terrain(level: &mut Level, full: bool) -> (r: DetectResult)
    requires
        old(level).wf(),
    ensures
        final(level).wf(),
        final(level).dlevel == old(level).dlevel,
        final(level).explored@ == old(level).explored@,
        final(level).traps@ == old(level).traps@,
        final(level).monsters@ == old(level).monsters@,
        final(level).objects@ == old(level).objects@,
        final(level).stairs@ == old(level).stairs@,
        final(level).flags == old(level).flags,
        forall|i: int| 0 <= i < NCELLS ==> #[trigger] final(level).cells@[i] == if i >= ROWNO {
            revealed(old(level).cells@[i], full)
        } else {
            old(level).cells@[i]
        },
        ({
            let n = reveal_count(old(level).cells@, full, NCELLS as int);
            if n > 0 { reports(r, "The terrain is revealed."@, n as int, true) }
            else { reports(r, "You don't learn anything new about the terrain."@, 0, false) }
        }),
{
    let mut count: usize = 0;
    let mut i: usize = ROWNO;
    while i < NCELLS
        invariant
            ROWNO <= i <= NCELLS,
            level.wf(),
            level.dlevel == old(level).dlevel,
            level.explored@ == old(level).explored@,
            level.traps@ == old(level).traps@,
            level.monsters@ == old(level).monsters@,
            level.objects@ == old(level).objects@,
            level.stairs@ == old(level).stairs@,
            level.flags == old(level).flags,
            count == reveal_count(old(level).cells@, full, i as int),
            count <= i,
            forall|j: int| 0 <= j < NCELLS ==> #[trigger] level.cells@[j] == if ROWNO <= j < i {
                revealed(old(level).cells@[j], full)
            } else {
                old(level).cells@[j]
            },
        decreases NCELLS - i,
    {
        let mut c = level.cells[i];
        if full || c.typ != CellType::Stone {
            c.explored = true;
            level.cells.set(i, c);
            count = count + 1;
        }
        i = i + 1;
    }
    found_or_nothing(count, "The terrain is revealed.", "You don't learn anything new about the terrain.")
}

/// Whether `(a, b)` lies in the box `x0..=x1` by `y0..=y1`.
pub open spec fn in_box(a: int, b: int, x0: int, x1: int, y0: int, y1: int) -> bool {
    x0 <= a <= x1 && y0 <= b <= y1
}

/// Number of cells of column `x`, rows `y0..y`, that are not stone once secrets are found.
pub open spec fn col_count(l: Level, x: int, y0: int, y: int) -> nat
    decreases y - y0,
{
    if y <= y0 { 0 } else { col_count(l, x, y0, y - 1) + if unsecret(l.cell(x, y - 1).typ) != CellType::Stone {
        1nat } else { 0nat } }
}

/// Number of cells of columns `x0..x`, rows `y0..=y1`, that are not stone once secrets are found.
pub open spec fn box_count(l: Level, x0: int, x: int, y0: int, y1: int) -> nat
    decreases x - x0,
{
    if x <= x0 { 0 } else { box_count(l, x0, x - 1, y0, y1) + col_count(l, x - 1, y0, y1 + 1) }
}

proof fn lemma_col_count_bound(l: Level, x: int, y0: int, y: int)
    ensures
        col_count(l, x, y0, y) <= if y > y0 { y - y0 } else { 0 },
    decreases y - y0,
{
    if y > y0 {
        lemma_col_count_bound(l, x, y0, y - 1);
    }
}

proof fn lemma_box_count_bound(l: Level, x0: int, x: int, y0: int, y1: int)
    requires
        y0 <= y1 + 1,
    ensures
        box_count(l, x0, x, y0, y1) <= (if x > x0 { x - x0 } else { 0 }) * (y1 + 1 - y0),
    decreases x - x0,
{
    if x > x0 {
        lemma_box_count_bound(l, x0, x - 1, y0, y1);
        lemma_col_count_bound(l, x - 1, y0, y1 + 1);
        assert((x - 1 - x0) * (y1 + 1 - y0) + (y1 + 1 - y0) == (x - x0) * (y1 + 1 - y0)) by (nonlinear_arith);
    }
}

/// Number of unseen traps in `traps[0..k]` inside the box.
pub open spec fn box_unseen(traps: Seq<Trap>, k: int, x0: int, x1: int, y0: int, y1: int) -> nat
    decreases k,
{
    if k <= 0 { 0 } else { box_unseen(traps, k - 1, x0, x1, y0, y1) + if !traps[k - 1].seen
        && in_box(traps[k - 1].x as int, traps[k - 1].y as int, x0, x1, y0, y1) { 1nat } else { 0nat } }
}

/// Number of monsters in `ms[0..k]` inside the box.
pub open spec fn box_monsters(ms: Seq<crate::monster::Monster>, k: int, x0: int, x1: int, y0: int, y1: int) -> nat
    decreases k,
{
    if k <= 0 { 0 } else { box_monsters(ms, k - 1, x0, x1, y0, y1) + if in_box(ms[k - 1].x as int, ms[k - 1].y as int,
        x0, x1, y0, y1) { 1nat } else { 0nat } }
}

proof fn lemma_box_unseen_bound(traps: Seq<Trap>, k: int, x0: int, x1: int, y0: int, y1: int)
    requires
        0 <= k,
    ensures
        box_unseen(traps, k, x0, x1, y0, y1) <= k,
    decreases k,
{
    if k > 0 {
        lemma_box_unseen_bound(traps, k - 1, x0, x1, y0, y1);
    }
}

proof fn lemma_box_monsters_bound(ms: Seq<crate::monster::Monster>, k: int, x0: int, x1: int, y0: int, y1: int)
    requires
        0 <= k,
    ensures
        box_monsters(ms, k, x0, x1, y0, y1) <= k,
    decreases k,
{
    if k > 0 {
        lemma_box_monsters_bound(ms, k - 1, x0, x1, y0, y1);
    }
}

/// Whether some monster in `ms[0..k]` inside the box stands at cell index `i`.
pub open spec fn box_monster_at(ms: Seq<crate::monster::Monster>, k: int, x0: int, x1: int, y0: int, y1: int, i: int)
    -> bool {
    exists|j: int| 0 <= j < k && in_box(ms[j].x as int, ms[j].y as int, x0, x1, y0, y1)
        && cell_index(ms[j].x as int, ms[j].y as int) == i
}

/// `max(v, lo)`.
pub open spec fn max_int(v: int, lo: int) -> int {
    if v > lo { v } else { lo }
}

/// `min(v, hi)`.
pub open spec fn min_int(v: int, hi: int) -> int {
    if v < hi { v } else { hi }
}

proof fn lemma_index_unique(x1: int, y1: int, x2: int, y2: int)
    requires
        0 <= y1 < ROWNO,
        0 <= y2 < ROWNO,
        cell_index(x1, y1) == cell_index(x2, y2),
    ensures
        x1 == x2 && y1 == y2,
{
}

/// Find secrets in and see the non-stone cells of the box `x0..=x1` by
/// `y0..=y1`; returns how many cells were seen.
fn vicinity_cells(level: &mut Level, x_min: usize, x_max: usize, y_min: usize, y_max: usize) -> (n: usize)
    requires
        old(level).wf(),
        x_max < COLNO,
        y_max < ROWNO,
        x_min <= x_max ==> x_max - x_min <= 10,
        y_min <= y_max ==> y_max - y_min <= 10,
    ensures
        final(level).wf(),
        final(level).dlevel == old(level).dlevel,
        final(level).traps@ == old(level).traps@,
        final(level).monsters@ == old(level).monsters@,
        final(level).objects@ == old(level).objects@,
        final(level).stairs@ == old(level).stairs@,
        final(level).flags == old(level).flags,
        n == box_count(*old(level), x_min as int, x_max + 1, y_min as int, y_max as int),
        n <= 121,
        forall|a: int, b: int| on_map(a, b) ==> #[trigger] final(level).cell(a, b) == if in_box(a, b, x_min as int,
            x_max as int, y_min as int, y_max as int) {
            Cell { typ: unsecret(old(level).cell(a, b).typ), ..old(level).cell(a, b) }
        } else {
            old(level).cell(a, b)
        },
        forall|a: int, b: int| on_map(a, b) ==> #[trigger] final(level).seen(a, b) == (old(level).seen(a, b)
            || (in_box(a, b, x_min as int, x_max as int, y_min as int, y_max as int)
                && unsecret(old(level).cell(a, b).typ) != CellType::Stone)),
{
    let ghost x0 = x_min as int;
    let ghost x1 = x_max as int;
    let ghost y0 = y_min as int;
    let ghost y1 = y_max as int;
    let ghost ol = *old(level);
    let mut count: usize = 0;
    let mut x = x_min;
    while x <= x_max
        invariant
            x0 == x_min && x1 == x_max && y0 == y_min && y1 == y_max,
            x_max < COLNO,
            y_max < ROWNO,
            x_min <= x_max ==> x_max - x_min <= 10,
            y_min <= y_max ==> y_max - y_min <= 10,
            x_min <= x,
            x <= x_max + 1 || x == x_min,
            ol == *old(level),
            level.wf(),
            level.dlevel == ol.dlevel,
            level.traps@ == ol.traps@,
            level.monsters@ == ol.monsters@,
            level.objects@ == ol.objects@,
            level.stairs@ == ol.stairs@,
            level.flags == ol.flags,
            count == box_count(ol, x0, x as int, y0, y1),
            count <= (x - x0) * 11,
            forall|a: int, b: int| on_map(a, b) ==> #[trigger] level.cell(a, b) == if in_box(a, b, x0, x1, y0, y1) && a < x {
                Cell { typ: unsecret(ol.cell(a, b).typ), ..ol.cell(a, b) }
            } else {
                ol.cell(a, b)
            },
            forall|a: int, b: int| on_map(a, b) ==> #[trigger] level.seen(a, b) == (ol.seen(a, b)
                || (in_box(a, b, x0, x1, y0, y1) && a < x && unsecret(ol.cell(a, b).typ) != CellType::Stone)),
        decreases x_max + 1 - x,
    {
        let mut y = y_min;
        let ghost count_x = count;
        while y <= y_max
            invariant
                x0 == x_min && x1 == x_max && y0 == y_min && y1 == y_max,
                x_max < COLNO,
                y_max < ROWNO,
                y_min <= y_max ==> y_max - y_min <= 10,
                x_min <= x <= x_max,
                y_min <= y,
                y <= y_max + 1 || y == y_min,
                ol == *old(level),
                level.wf(),
                level.dlevel == ol.dlevel,
                level.traps@ == ol.traps@,
                level.monsters@ == ol.monsters@,
                level.objects@ == ol.objects@,
                level.stairs@ == ol.stairs@,
                level.flags == ol.flags,
                count_x == box_count(ol, x0, x as int, y0, y1),
                count_x <= (x - x0) * 11,
                count == count_x + col_count(ol, x as int, y0, y as int),
                count <= count_x + (y - y0),
                forall|a: int, b: int| on_map(a, b) ==> #[trigger] level.cell(a, b) == if in_box(a, b, x0, x1, y0, y1)
                    && (a < x || (a == x && b < y)) {
                    Cell { typ: unsecret(ol.cell(a, b).typ), ..ol.cell(a, b) }
                } else {
                    ol.cell(a, b)
                },
                forall|a: int, b: int| on_map(a, b) ==> #[trigger] level.seen(a, b) == (ol.seen(a, b)
                    || (in_box(a, b, x0, x1, y0, y1) && (a < x || (a == x && b < y))
                        && unsecret(ol.cell(a, b).typ) != CellType::Stone)),
            decreases y_max + 1 - y,
        {
            let ghost before = *level;
            let mut c = level.get_cell(x, y);
            if c.typ == CellType::SecretDoor {
                c.typ = CellType::Door;
            }
            if c.typ == CellType::SecretCorridor {
                c.typ = CellType::Corridor;
            }
            level.set_cell(x, y, c);
            if c.typ != CellType::Stone {
                level.mark_explored(x, y);
                count = count + 1;
            }
            proof {
                assert forall|a: int, b: int| on_map(a, b) implies #[trigger] level.cell(a, b) == if in_box(a, b, x0, x1,
                    y0, y1) && (a < x || (a == x && b < y + 1)) {
                    Cell { typ: unsecret(ol.cell(a, b).typ), ..ol.cell(a, b) }
                } else {
                    ol.cell(a, b)
                } by {
                    if cell_index(a, b) == cell_index(x as int, y as int) {
                        lemma_index_unique(a, b, x as int, y as int);
                    } else {
                        assert(level.cell(a, b) == before.cell(a, b));
                    }
                }
                assert forall|a: int, b: int| on_map(a, b) implies #[trigger] level.seen(a, b) == (ol.seen(a, b)
                    || (in_box(a, b, x0, x1, y0, y1) && (a < x || (a == x && b < y + 1))
                        && unsecret(ol.cell(a, b).typ) != CellType::Stone)) by {
                    if cell_index(a, b) == cell_index(x as int, y as int) {
                        lemma_index_unique(a, b, x as int, y as int);
                    } else {
                        assert(level.seen(a, b) == before.seen(a, b));
                    }
                }
            }
            y = y + 1;
        }
        proof {
            assert(col_count(ol, x as int, y0, y as int) == col_count(ol, x as int, y0, y1 + 1));
            assert(box_count(ol, x0, x + 1, y0, y1) == box_count(ol, x0, x as int, y0, y1) + col_count(ol, x as int, y0,
                y1 + 1));
        }
        x = x + 1;
    }
    proof {
        assert(box_count(ol, x0, x as int, y0, y1) == box_count(ol, x0, x1 + 1, y0, y1));
    }
    count
}

/// See the unseen traps inside the box; returns how many.
fn vicinity_traps(level: &mut Level, x_min: usize, x_max: usize, y_min: usize, y_max: usize) -> (n: usize)
    requires
        old(level).wf(),
    ensures
        final(level).wf(),
        final(level).dlevel == old(level).dlevel,
        final(level).cells@ == old(level).cells@,
        final(level).explored@ == old(level).explored@,
        final(level).monsters@ == old(level).monsters@,
        final(level).objects@ == old(level).objects@,
        final(level).stairs@ == old(level).stairs@,
        final(level).flags == old(level).flags,
        final(level).traps@.len() == old(level).traps@.len(),
        forall|j: int| 0 <= j < old(level).traps@.len() ==> #[trigger] final(level).traps@[j] == if !old(level).traps@[j].seen
            && in_box(old(level).traps@[j].x as int, old(level).traps@[j].y as int, x_min as int, x_max as int,
                y_min as int, y_max as int) {
            Trap { seen: true, ..old(level).traps@[j] }
        } else {
            old(level).traps@[j]
        },
        n == box_unseen(old(level).traps@, old(level).traps@.len() as int, x_min as int, x_max as int, y_min as int,
            y_max as int),
        n <= old(level).traps@.len(),
{
    let ghost ts = old(level).traps@;
    let ghost x0 = x_min as int;
    let ghost x1 = x_max as int;
    let ghost y0 = y_min as int;
    let ghost y1 = y_max as int;
    let mut count: usize = 0;
    let mut k: usize = 0;
    while k < level.traps.len()
        invariant
            x0 == x_min && x1 == x_max && y0 == y_min && y1 == y_max,
            ts == old(level).traps@,
            k <= level.traps@.len(),
            level.traps@.len() == ts.len(),
            level.wf(),
            level.dlevel == old(level).dlevel,
            level.cells@ == old(level).cells@,
            level.explored@ == old(level).explored@,
            level.monsters@ == old(level).monsters@,
            level.objects@ == old(level).objects@,
            level.stairs@ == old(level).stairs@,
            level.flags == old(level).flags,
            count == box_unseen(ts, k as int, x0, x1, y0, y1),
            count <= k,
            forall|j: int| 0 <= j < ts.len() ==> #[trigger] level.traps@[j] == if j < k && !ts[j].seen
                && in_box(ts[j].x as int, ts[j].y as int, x0, x1, y0, y1) { Trap { seen: true, ..ts[j] } } else { ts[j] },
        decreases ts.len() - k,
    {
        let mut t = level.traps[k];
        let tx = t.x;
        let ty = t.y;
        if tx >= 0 && (tx as usize) >= x_min && (tx as usize) <= x_max && ty >= 0 && (ty as usize) >= y_min
            && (ty as usize) <= y_max && !t.seen {
            t.seen = true;
            level.traps.set(k, t);
            count = count + 1;
        }
        k = k + 1;
    }
    count
}

/// See the positions of the monsters inside the box; returns how many.
fn vicinity_monsters(level: &mut Level, x_min: usize, x_max: usize, y_min: usize, y_max: usize) -> (n: usize)
    requires
        old(level).wf(),
        x_max < COLNO,
        y_max < ROWNO,
    ensures
        only_seen_changed(*old(level), *final(level)),
        forall|i: int| 0 <= i < NCELLS ==> #[trigger] final(level).explored@[i] == (old(level).explored@[i]
            || box_monster_at(old(level).monsters@, old(level).monsters@.len() as int, x_min as int, x_max as int,
                y_min as int, y_max as int, i)),
        n == box_monsters(old(level).monsters@, old(level).monsters@.len() as int, x_min as int, x_max as int,
            y_min as int, y_max as int),
        n <= old(level).monsters@.len(),
{
    let ghost ms = old(level).monsters@;
    let ghost x0 = x_min as int;
    let ghost x1 = x_max as int;
    let ghost y0 = y_min as int;
    let ghost y1 = y_max as int;
    let mut count: usize = 0;
    let mut j: usize = 0;
    while j < level.monsters.len()
        invariant
            x0 == x_min && x1 == x_max && y0 == y_min && y1 == y_max,
            x_max < COLNO,
            y_max < ROWNO,
            ms == old(level).monsters@,
            j <= ms.len(),
            only_seen_changed(*old(level), *level),
            count == box_monsters(ms, j as int, x0, x1, y0, y1),
            count <= j,
            forall|i: int| 0 <= i < NCELLS ==> #[trigger] level.explored@[i] == (old(level).explored@[i]
                || box_monster_at(ms, j as int, x0, x1, y0, y1, i)),
        decreases ms.len() - j,
    {
        let mx = level.monsters[j].x;
        let my = level.monsters[j].y;
        if mx >= 0 && (mx as usize) >= x_min && (mx as usize) <= x_max && my >= 0 && (my as usize) >= y_min
            && (my as usize) <= y_max {
            level.mark_explored(mx as usize, my as usize);
            count = count + 1;
        }
        proof {
            assert forall|i: int| 0 <= i < NCELLS implies #[trigger] level.explored@[i] == (old(level).explored@[i]
                || box_monster_at(ms, j + 1, x0, x1, y0, y1, i)) by {
                if box_monster_at(ms, j + 1, x0, x1, y0, y1, i) && !box_monster_at(ms, j as int, x0, x1, y0, y1, i) {
                    let w = choose|w: int| 0 <= w < j + 1 && in_box(ms[w].x as int, ms[w].y as int, x0, x1, y0, y1)
                        && cell_index(ms[w].x as int, ms[w].y as int) == i;
                    assert(w == j);
                }
                if box_monster_at(ms, j as int, x0, x1, y0, y1, i) {
                    let w = choose|w: int| 0 <= w < j && in_box(ms[w].x as int, ms[w].y as int, x0, x1, y0, y1)
                        && cell_index(ms[w].x as int, ms[w].y as int) == i;
                    assert(0 <= w < j + 1);
                }
            }
        }
        j = j + 1;
    }
    count
}

/// The level after clairvoyance over the box `x0..=x1` by `y0..=y1`: secrets
/// there are found, non-stone cells there and (blessed) monster positions
/// there are seen, and unseen traps there are seen; `n` is the count.
pub open spec fn vicinity_mapped(old: Level, new: Level, blessed: bool, x0: int, x1: int, y0: int, y1: int, n: int)
    -> bool {
    let ms = old.monsters@;
    let ts = old.traps@;
    &&& n == box_count(old, x0, x1 + 1, y0, y1) + box_unseen(ts, ts.len() as int, x0, x1, y0, y1)
        + if blessed { box_monsters(ms, ms.len() as int, x0, x1, y0, y1) } else { 0 }
    &&& new.wf()
    &&& new.dlevel == old.dlevel
    &&& new.monsters@ == ms
    &&& new.objects@ == old.objects@
    &&& new.stairs@ == old.stairs@
    &&& new.flags == old.flags
    &&& forall|a: int, b: int| on_map(a, b) ==> #[trigger] new.cell(a, b) == if in_box(a, b, x0, x1, y0, y1) {
        Cell { typ: unsecret(old.cell(a, b).typ), ..old.cell(a, b) }
    } else {
        old.cell(a, b)
    }
    &&& forall|a: int, b: int| on_map(a, b) ==> #[trigger] new.seen(a, b) == (old.seen(a, b)
        || (in_box(a, b, x0, x1, y0, y1) && unsecret(old.cell(a, b).typ) != CellType::Stone)
        || (blessed && box_monster_at(ms, ms.len() as int, x0, x1, y0, y1, cell_index(a, b))))
    &&& new.traps@.len() == ts.len()
    &&& forall|j: int| 0 <= j < ts.len() ==> #[trigger] new.traps@[j] == if !ts[j].seen
        && in_box(ts[j].x as int, ts[j].y as int, x0, x1, y0, y1) { Trap { seen: true, ..ts[j] } } else { ts[j] }
}

proof fn lemma_vicinity_compose(ol: Level, c: Level, t: Level, f: Level, blessed: bool, x0: int, x1: int, y0: int,
    y1: int, n1: int, n2: int, n3: int)
    requires
        c.wf(),
        c.dlevel == ol.dlevel,
        c.traps@ == ol.traps@,
        c.monsters@ == ol.monsters@,
        c.objects@ == ol.objects@,
        c.stairs@ == ol.stairs@,
        c.flags == ol.flags,
        n1 == box_count(ol, x0, x1 + 1, y0, y1),
        forall|a: int, b: int| on_map(a, b) ==> #[trigger] c.cell(a, b) == if in_box(a, b, x0, x1, y0, y1) {
            Cell { typ: unsecret(ol.cell(a, b).typ), ..ol.cell(a, b) }
        } else {
            ol.cell(a, b)
        },
        forall|a: int, b: int| on_map(a, b) ==> #[trigger] c.seen(a, b) == (ol.seen(a, b)
            || (in_box(a, b, x0, x1, y0, y1) && unsecret(ol.cell(a, b).typ) != CellType::Stone)),
        t.wf(),
        t.dlevel == c.dlevel,
        t.cells@ == c.cells@,
        t.explored@ == c.explored@,
        t.monsters@ == c.monsters@,
        t.objects@ == c.objects@,
        t.stairs@ == c.stairs@,
        t.flags == c.flags,
        t.traps@.len() == c.traps@.len(),
        forall|j: int| 0 <= j < c.traps@.len() ==> #[trigger] t.traps@[j] == if !c.traps@[j].seen
            && in_box(c.traps@[j].x as int, c.traps@[j].y as int, x0, x1, y0, y1) {
            Trap { seen: true, ..c.traps@[j] }
        } else {
            c.traps@[j]
        },
        n2 == box_unseen(c.traps@, c.traps@.len() as int, x0, x1, y0, y1),
        blessed ==> only_seen_changed(t, f) && n3 == box_monsters(t.monsters@, t.monsters@.len() as int, x0, x1, y0, y1)
            && forall|i: int| 0 <= i < NCELLS ==> #[trigger] f.explored@[i] == (t.explored@[i]
                || box_monster_at(t.monsters@, t.monsters@.len() as int, x0, x1, y0, y1, i)),
        !blessed ==> f == t && n3 == 0,
    ensures
        vicinity_mapped(ol, f, blessed, x0, x1, y0, y1, n1 + n2 + n3),
{
    assert forall|a: int, b: int| on_map(a, b) implies #[trigger] f.cell(a, b) == if in_box(a, b, x0, x1, y0, y1) {
        Cell { typ: unsecret(ol.cell(a, b).typ), ..ol.cell(a, b) }
    } else {
        ol.cell(a, b)
    } by {
        assert(f.cell(a, b) == c.cell(a, b));
    }
    assert forall|a: int, b: int| on_map(a, b) implies #[trigger] f.seen(a, b) == (ol.seen(a, b)
        || (in_box(a, b, x0, x1, y0, y1) && unsecret(ol.cell(a, b).typ) != CellType::Stone)
        || (blessed && box_monster_at(ol.monsters@, ol.monsters@.len() as int, x0, x1, y0, y1, cell_index(a, b)))) by {
        assert(t.seen(a, b) == c.seen(a, b));
        if blessed {
            assert(f.seen(a, b) == f.explored@[cell_index(a, b)]);
        }
    }
}

/// Clairvoyance: in the box of 11 by 11 cells around the hero (cut to the
/// map), secret doors and corridors are found, non-stone cells and unseen
/// traps are seen, and, when blessed, monster positions too. The count adds
/// one per non-stone cell, per trap newly seen and (blessed) per monster there.
pub fn do_vicinity_map(level: &mut Level, player: &You, blessed: bool) -> (r: DetectResult)
    requires
        old(level).wf(),
        player.pos.x >= -5,
        player.pos.y >= -5,
        old(level).traps@.len() + old(level).monsters@.len() <= usize::MAX - 121,
    ensures
        ({
            let n = r.count as int;
            &&& vicinity_mapped(*old(level), *final(level), blessed, max_int(player.pos.x - 5, 0),
                min_int(player.pos.x + 5, COLNO - 1), max_int(player.pos.y - 5, 0), min_int(player.pos.y + 5, ROWNO - 1),
                if r.found_something { n } else { 0 })
            &&& if r.found_something { reports(r, "You have a vision of nearby terrain."@, n, true) }
                else { reports(r, "Your vision is cloudy."@, 0, false) }
        }),
{
    let px = player.pos.x as i32;
    let py = player.pos.y as i32;
    let x_min: usize = (if px - 5 > 0 { px - 5 } else { 0 }) as usize;
    let x_max: usize = (if px + 5 < 79 { px + 5 } else { 79 }) as usize;
    let y_min: usize = (if py - 5 > 0 { py - 5 } else { 0 }) as usize;
    let y_max: usize = (if py + 5 < 20 { py + 5 } else { 20 }) as usize;
    let ghost ol = *old(level);
    let n1 = vicinity_cells(level, x_min, x_max, y_min, y_max);
    let ghost after_cells = *level;
    let n2 = vicinity_traps(level, x_min, x_max, y_min, y_max);
    let ghost after_traps = *level;
    let n3 = if blessed { vicinity_monsters(level, x_min, x_max, y_min, y_max) } else { 0 };
    proof {
        lemma_vicinity_compose(ol, after_cells, after_traps, *level, blessed, x_min as int, x_max as int, y_min as int,
            y_max as int, n1 as int, n2 as int, n3 as int);
    }
    let count = n1 + n2 + n3;
    found_or_nothing(count, "You have a vision of nearby terrain.", "Your vision is cloudy.")
}

/// What a search has done so far: the cells, seen-flags and traps of the
/// level, the generator's state, the messages and the count of finds.
pub type SearchState = (Seq<Cell>, Seq<bool>, Seq<Trap>, u64, Seq<Seq<char>>, nat);

/// Offset of the `k`-th neighbour searched: row by row from the upper left.
pub open spec fn neighbour_offset(k: int) -> (int, int) {
    if k == 0 { (-1, -1) } else if k == 1 { (0, -1) } else if k == 2 { (1, -1) } else if k == 3 { (-1, 0) }
    else if k == 4 { (1, 0) } else if k == 5 { (-1, 1) } else if k == 6 { (0, 1) } else { (1, 1) }
}

/// Whether `(x, y)` is a valid map position (column 0 is never used).
pub open spec fn valid_pos(x: int, y: int) -> bool {
    1 <= x < COLNO && 0 <= y < ROWNO
}

/// Searching cell `(x, y)` for a secret of kind `from`: one roll of
/// `rn2(thr)`, a find (turning it into `to`, seen, with `msg`) when it is 0.
pub open spec fn secret_step(st: SearchState, x: int, y: int, from: CellType, to: CellType, thr: u32, msg: Seq<char>)
    -> SearchState {
    let i = cell_index(x, y);
    if st.0[i].typ == from {
        if rn2_at(st.3, thr) == 0 {
            (st.0.update(i, Cell { typ: to, ..st.0[i] }), st.1.update(i, true), st.2, step(st.3), st.4.push(msg), st.5 + 1)
        } else {
            (st.0, st.1, st.2, step(st.3), st.4, st.5)
        }
    } else {
        st
    }
}

/// Searching the traps `0..j` for one hidden at `(x, y)`: one roll of
/// `rn2(8)` per unseen trap there, found when it is 0.
pub open spec fn trap_search(st: SearchState, x: int, y: int, j: int) -> SearchState
    decreases j,
{
    if j <= 0 {
        st
    } else {
        let p = trap_search(st, x, y, j - 1);
        let t = p.2[j - 1];
        if t.x == x && t.y == y && !t.seen {
            if rn2_at(p.3, 8) == 0 {
                (p.0, p.1.update(cell_index(x, y), true), p.2.update(j - 1, Trap { seen: true, ..t }), step(p.3),
                    p.4.push("You find a "@ + trap_kind_name(t.trap_type) + "!"@), p.5 + 1)
            } else {
                (p.0, p.1, p.2, step(p.3), p.4, p.5)
            }
        } else {
            p
        }
    }
}

/// Searching one neighbour: a secret door, then a secret corridor, then
/// (unless it is an automatic search) hidden traps.
pub open spec fn search_cell(st: SearchState, x: int, y: int, thr: u32, auto: bool) -> SearchState {
    if !valid_pos(x, y) {
        st
    } else {
        let a = secret_step(st, x, y, CellType::SecretDoor, CellType::Door, thr, "You find a hidden door!"@);
        let b = secret_step(a, x, y, CellType::SecretCorridor, CellType::Corridor, thr, "You find a hidden passage!"@);
        if auto { b } else { trap_search(b, x, y, b.2.len() as int) }
    }
}

/// Searching the first `k` neighbours of `(px, py)`.
pub open spec fn search_around(st: SearchState, px: int, py: int, thr: u32, auto: bool, k: int) -> SearchState
    decreases k,
{
    if k <= 0 {
        st
    } else {
        let p = search_around(st, px, py, thr, auto, k - 1);
        search_cell(p, px + neighbour_offset(k - 1).0, py + neighbour_offset(k - 1).1, thr, auto)
    }
}

/// The roll bound of a search with the given bonus: `max(7 - min(bonus, 5), 1)`.
pub open spec fn search_threshold(bonus: int) -> u32 {
    let fund = if bonus < 5 { bonus } else { 5 };
    (if 7 - fund > 1 { 7 - fund } else { 1 }) as u32
}

/// The search state of a level, a generator, messages and a count.
pub open spec fn state_of(l: Level, s: u64, msgs: Seq<String>, count: usize) -> SearchState {
    (l.cells@, l.explored@, l.traps@, s, views(msgs), count as nat)
}

/// Look for a secret of kind `from` at `(x, y)`.
fn search_secret(level: &mut Level, x: usize, y: usize, from: CellType, to: CellType, thr: u32, msg: &str,
    rng: &mut GameRng, messages: &mut Vec<String>, count: &mut usize)
    requires
        old(level).wf(),
        x < COLNO,
        y < ROWNO,
        thr > 0,
        *old(count) < usize::MAX,
    ensures
        final(level).wf(),
        final(level).dlevel == old(level).dlevel,
        final(level).monsters@ == old(level).monsters@,
        final(level).objects@ == old(level).objects@,
        final(level).stairs@ == old(level).stairs@,
        final(level).flags == old(level).flags,
        state_of(*final(level), final(rng)@, final(messages)@, *final(count)) == secret_step(
            state_of(*old(level), old(rng)@, old(messages)@, *old(count)), x as int, y as int, from, to, thr, msg@),
        *final(count) <= *old(count) + 1,
{
    if level.cell_type(x, y) == from {
        if rng.rn2(thr) == 0 {
            level.set_cell_type(x, y, to);
            level.mark_explored(x, y);
            let ghost before = views(messages@);
            messages.push(String::from_str(msg));
            assert(views(messages@) =~= before.push(msg@));
            *count = *count + 1;
        }
    }
}

/// Look among the traps for unseen ones at `(x, y)`.
fn search_traps(level: &mut Level, x: i8, y: i8, rng: &mut GameRng, messages: &mut Vec<String>, count: &mut usize)
    requires
        old(level).wf(),
        valid_pos(x as int, y as int),
        *old(count) + old(level).traps@.len() <= usize::MAX,
    ensures
        final(level).wf(),
        final(level).dlevel == old(level).dlevel,
        final(level).monsters@ == old(level).monsters@,
        final(level).objects@ == old(level).objects@,
        final(level).stairs@ == old(level).stairs@,
        final(level).flags == old(level).flags,
        final(level).cells@ == old(level).cells@,
        final(level).traps@.len() == old(level).traps@.len(),
        state_of(*final(level), final(rng)@, final(messages)@, *final(count)) == trap_search(
            state_of(*old(level), old(rng)@, old(messages)@, *old(count)), x as int, y as int,
            old(level).traps@.len() as int),
        *final(count) <= *old(count) + old(level).traps@.len(),
{
    let ghost st0 = state_of(*level, rng@, messages@, *count);
    let ghost c0 = *count;
    let mut j: usize = 0;
    while j < level.traps.len()
        invariant
            j <= level.traps@.len(),
            level.traps@.len() == old(level).traps@.len(),
            level.wf(),
            level.dlevel == old(level).dlevel,
            level.monsters@ == old(level).monsters@,
            level.objects@ == old(level).objects@,
            level.stairs@ == old(level).stairs@,
            level.flags == old(level).flags,
            level.cells@ == old(level).cells@,
            valid_pos(x as int, y as int),
            c0 == *old(count),
            c0 + old(level).traps@.len() <= usize::MAX,
            *count <= c0 + j,
            st0 == state_of(*old(level), old(rng)@, old(messages)@, *old(count)),
            state_of(*level, rng@, messages@, *count) == trap_search(st0, x as int, y as int, j as int),
            forall|k: int| j <= k < level.traps@.len() ==> #[trigger] level.traps@[k] == old(level).traps@[k],
        decreases level.traps@.len() - j,
    {
        let t = level.traps[j];
        proof {
            let p = trap_search(st0, x as int, y as int, j as int);
            assert(p.2[j as int] == t);
        }
        if t.x == x && t.y == y && !t.seen {
            if rng.rn2(8) == 0 {
                let mut t2 = t;
                t2.seen = true;
                level.traps.set(j, t2);
                level.mark_explored(x as usize, y as usize);
                let mut m = String::from_str("You find a ");
                m.append(trap_name(t.trap_type));
                m.append("!");
                let ghost mv = m@;
                let ghost before = views(messages@);
                messages.push(m);
                assert(views(messages@) =~= before.push(mv));
                *count = *count + 1;
            }
        }
        j = j + 1;
    }
}

/// Search the eight squares around the hero: each secret door or corridor
/// there is found on a roll of `rn2(max(7 - min(bonus, 5), 1)) == 0`, and
/// (unless the search is automatic) each hidden trap there on a roll of
/// `rn2(8) == 0`; found things are seen, with a message each, or one saying
/// nothing was found.
pub fn dosearch0(level: &mut Level, player: &You, search_bonus: i32, autosearch: bool, rng: &mut GameRng)
    -> (r: DetectResult)
    requires
        old(level).wf(),
        -127 <= player.pos.x <= 126,
        -127 <= player.pos.y <= 126,
        search_bonus > i32::MIN + 7,
        old(level).traps@.len() <= 0x0fff_ffff,
    ensures
        ({
            let st = search_around(state_of(*old(level), old(rng)@, Seq::empty(), 0), player.pos.x as int,
                player.pos.y as int, search_threshold(search_bonus as int), autosearch, 8);
            &&& final(level).wf()
            &&& final(level).dlevel == old(level).dlevel
            &&& final(level).monsters@ == old(level).monsters@
            &&& final(level).objects@ == old(level).objects@
            &&& final(level).stairs@ == old(level).stairs@
            &&& final(level).flags == old(level).flags
            &&& final(level).cells@ == st.0
            &&& final(level).explored@ == st.1
            &&& final(level).traps@ == st.2
            &&& final(rng)@ == st.3
            &&& r.count == st.5
            &&& r.found_something == (st.5 > 0)
            &&& views(r.messages@) == if st.5 == 0 { st.4.push("You search but find nothing."@) } else { st.4 }
        }),
{
    let px = player.pos.x;
    let py = player.pos.y;
    let fund: i32 = if search_bonus < 5 { search_bonus } else { 5 };
    let thr: u32 = (if 7 - fund > 1 { 7 - fund } else { 1 }) as u32;
    let mut count: usize = 0;
    let mut messages: Vec<String> = Vec::new();
    let ghost st0 = state_of(*level, rng@, messages@, count);
    proof {
        assert(views(messages@) =~= Seq::<Seq<char>>::empty());
    }
    let mut k: usize = 0;
    while k < 8
        invariant
            k <= 8,
            -127 <= px <= 126,
            -127 <= py <= 126,
            px == player.pos.x && py == player.pos.y,
            thr == search_threshold(search_bonus as int),
            thr > 0,
            level.wf(),
            level.traps@.len() == old(level).traps@.len(),
            old(level).traps@.len() <= 0x0fff_ffff,
            level.dlevel == old(level).dlevel,
            level.monsters@ == old(level).monsters@,
            level.objects@ == old(level).objects@,
            level.stairs@ == old(level).stairs@,
            level.flags == old(level).flags,
            count <= k * (2 + old(level).traps@.len()),
            st0 == state_of(*old(level), old(rng)@, Seq::empty(), 0),
            state_of(*level, rng@, messages@, count) == search_around(st0, px as int, py as int, thr, autosearch,
                k as int),
        decreases 8 - k,
    {
        let (dx, dy): (i8, i8) = if k == 0 { (-1, -1) } else if k == 1 { (0, -1) } else if k == 2 { (1, -1) }
            else if k == 3 { (-1, 0) } else if k == 4 { (1, 0) } else if k == 5 { (-1, 1) } else if k == 6 { (0, 1) }
            else { (1, 1) };
        let x = px + dx;
        let y = py + dy;
        let ghost nt = old(level).traps@.len() as int;
        assert(count + 2 + nt <= usize::MAX) by (nonlinear_arith)
            requires
                count <= k * (2 + nt),
                k < 8,
                0 <= nt <= 0x0fff_ffff;
        if level.is_valid_pos(x, y) {
            let ux = x as usize;
            let uy = y as usize;
            search_secret(level, ux, uy, CellType::SecretDoor, CellType::Door, thr, "You find a hidden door!", rng,
                &mut messages, &mut count);
            search_secret(level, ux, uy, CellType::SecretCorridor, CellType::Corridor, thr,
                "You find a hidden passage!", rng, &mut messages, &mut count);
            if !autosearch {
                search_traps(level, x, y, rng, &mut messages, &mut count);
            }
        }
        assert(count <= (k + 1) * (2 + nt)) by (nonlinear_arith)
            requires
                count <= k * (2 + nt) + 2 + nt;
        k = k + 1;
    }
    let found = count > 0;
    if count == 0 {
        let ghost before = views(messages@);
        messages.push(String::from_str("You search but find nothing."));
        assert(views(messages@) =~= before.push("You search but find nothing."@));
    }
    DetectResult { messages, count, found_something: found }
}

/// The player's search command: a search with no bonus that also looks for traps.
pub fn dosearch(level: &mut Level, player: &You, rng: &mut GameRng) -> (r: DetectResult)
    requires
        old(level).wf(),
        -127 <= player.pos.x <= 126,
        -127 <= player.pos.y <= 126,
        old(level).traps@.len() <= 0x0fff_ffff,
    ensures
        ({
            let st = search_around(state_of(*old(level), old(rng)@, Seq::empty(), 0), player.pos.x as int,
                player.pos.y as int, search_threshold(0), false, 8);
            &&& final(level).wf()
            &&& final(level).dlevel == old(level).dlevel
            &&& final(level).monsters@ == old(level).monsters@
            &&& final(level).objects@ == old(level).objects@
            &&& final(level).stairs@ == old(level).stairs@
            &&& final(level).flags == old(level).flags
            &&& final(level).cells@ == st.0
            &&& final(level).explored@ == st.1
            &&& final(level).traps@ == st.2
            &&& final(rng)@ == st.3
            &&& r.count == st.5
            &&& r.found_something == (st.5 > 0)
            &&& views(r.messages@) == if st.5 == 0 { st.4.push("You search but find nothing."@) } else { st.4 }
        }),
{
    dosearch0(level, player, 0, false, rng)
}

/// Outcome of using a crystal ball.
#[derive(Debug, Clone)]
pub struct CrystalBallResult {
    pub messages: Vec<String>,
    /// Whether the ball broke.
    pub ball_broken: bool,
    /// Whether a charge was used.
    pub charge_used: bool,
    /// Whether the hero was hurt.
    pub player_harmed: bool,
    /// Damage done to the hero.
    pub damage: i32,
}

impl CrystalBallResult {
    fn new() -> (r: Self)
        ensures
            r.messages@.len() == 0,
            !r.ball_broken && !r.charge_used && !r.player_harmed && r.damage == 0,
    {
        CrystalBallResult { messages: Vec::new(), ball_broken: false, charge_used: false, player_harmed: false, damage: 0 }
    }
}

/// The object class shown by a map symbol.
pub open spec fn class_of_symbol(c: char) -> Option<ObjectClass> {
    if c == ')' { Some(ObjectClass::Weapon) }
    else if c == '[' { Some(ObjectClass::Armor) }
    else if c == '=' { Some(ObjectClass::Ring) }
    else if c == '"' { Some(ObjectClass::Amulet) }
    else if c == '(' { Some(ObjectClass::Tool) }
    else if c == '%' { Some(ObjectClass::Food) }
    else if c == '!' { Some(ObjectClass::Potion) }
    else if c == '?' { Some(ObjectClass::Scroll) }
    else if c == '+' { Some(ObjectClass::Spellbook) }
    else if c == '/' { Some(ObjectClass::Wand) }
    else if c == '*' { Some(ObjectClass::Gem) }
    else if c == '`' { Some(ObjectClass::Rock) }
    else if c == '$' { Some(ObjectClass::Coin) }
    else { None }
}

/// Map a display symbol to an object class.
pub fn object_class_from_symbol(symbol: char) -> (r: Option<ObjectClass>)
    ensures
        r == class_of_symbol(symbol),
{
    match symbol {
        ')' => Some(ObjectClass::Weapon),
        '[' => Some(ObjectClass::Armor),
        '=' => Some(ObjectClass::Ring),
        '"' => Some(ObjectClass::Amulet),
        '(' => Some(ObjectClass::Tool),
        '%' => Some(ObjectClass::Food),
        '!' => Some(ObjectClass::Potion),
        '?' => Some(ObjectClass::Scroll),
        '+' => Some(ObjectClass::Spellbook),
        '/' => Some(ObjectClass::Wand),
        '*' => Some(ObjectClass::Gem),
        '`' => Some(ObjectClass::Rock),
        '$' => Some(ObjectClass::Coin),
        _ => None,
    }
}

/// A crystal-ball vision when no monster is on the level, for a roll of `0..4`.
pub open spec fn cryptic_vision(roll: int) -> Seq<char> {
    if roll == 0 { "You see a swirling mist in the crystal ball."@ }
    else if roll == 1 { "The crystal ball shows a dark, distant place."@ }
    else if roll == 2 { "You see a vision of great danger ahead."@ }
    else { "The crystal ball clouds over."@ }
}

/// Use a crystal ball: a ball without charges stays dark; a cursed ball
/// explodes one time in five for `3d6` damage; otherwise a charge is used
/// and the ball detects traps (`^`), objects of the class shown by an object
/// symbol, monsters (when there are any), or shows a cryptic vision.
pub fn use_crystal_ball(level: &mut Level, _player: &You, ball: &Object, symbol: char, rng: &mut GameRng)
    -> (r: CrystalBallResult)
    requires
        old(level).wf(),
        old(level).traps@.len() + old(level).objects@.len() <= usize::MAX,
    ensures
        ball.enchantment <= 0 ==> *final(level) == *old(level) && final(rng)@ == old(rng)@
            && views(r.messages@) == seq!["The crystal ball is dark."@]
            && !r.ball_broken && !r.charge_used && !r.player_harmed && r.damage == 0,
        ball.enchantment > 0 && ball.buc == crate::object::BucStatus::Cursed && rn2_at(old(rng)@, 5) == 0 ==>
            *final(level) == *old(level) && final(rng)@ == crate::rng::steps(step(old(rng)@), 3)
            && views(r.messages@) == seq!["The crystal ball explodes!"@]
            && r.ball_broken && !r.charge_used && r.player_harmed
            && r.damage == crate::rng::dice_at(step(old(rng)@), 3, 6),
        ball.enchantment > 0 && !(ball.buc == crate::object::BucStatus::Cursed && rn2_at(old(rng)@, 5) == 0) ==> ({
            let s = if ball.buc == crate::object::BucStatus::Cursed { step(old(rng)@) } else { old(rng)@ };
            let ol = *old(level);
            &&& r.charge_used && !r.ball_broken && !r.player_harmed && r.damage == 0
            &&& if symbol == '^' {
                let n = unseen_count(ol.traps@, ol.traps@.len() as int) + trapped_count(ol.objects@, ol.objects@.len() as int);
                &&& traps_detected(ol, *final(level))
                &&& final(rng)@ == s
                &&& views(r.messages@) == seq![if n > 0 { "You sense the presence of traps."@ } else { "You sense no traps."@ }]
            } else if class_of_symbol(symbol) is Some {
                let n = hit_count(ol.objects@, ol.objects@.len() as int, class_of_symbol(symbol), false);
                &&& objects_detected(ol, *final(level), class_of_symbol(symbol))
                &&& final(rng)@ == s
                &&& views(r.messages@) == seq![if n > 0 { "You sense the presence of objects."@ } else { "You sense no objects."@ }]
            } else if ol.monsters@.len() > 0 {
                let n = on_map_count(ol.monsters@, ol.monsters@.len() as int);
                &&& monsters_detected(ol, *final(level))
                &&& final(rng)@ == s
                &&& views(r.messages@) == seq![if n > 0 { "You sense the presence of monsters."@ } else { "You sense no monsters."@ }]
            } else {
                &&& *final(level) == ol
                &&& final(rng)@ == step(s)
                &&& views(r.messages@) == seq![cryptic_vision(rn2_at(s, 4) as int)]
            }
        }),
{
    let mut result = CrystalBallResult::new();
    if ball.enchantment <= 0 {
        result.messages.push(String::from_str("The crystal ball is dark."));
        assert(views(result.messages@) =~= seq!["The crystal ball is dark."@]);
        return result;
    }
    if ball.is_cursed() && rng.one_in(5) {
        result.messages.push(String::from_str("The crystal ball explodes!"));
        assert(views(result.messages@) =~= seq!["The crystal ball explodes!"@]);
        result.ball_broken = true;
        result.player_harmed = true;
        result.damage = rng.dice(3, 6) as i32;
        return result;
    }
    result.charge_used = true;
    let class = object_class_from_symbol(symbol);
    if symbol == '^' {
        let d = trap_detect(level, false);
        result.messages = d.messages;
    } else if class.is_some() {
        let d = object_detect(level, class, false);
        result.messages = d.messages;
    } else if level.monsters.len() > 0 {
        let d = monster_detect(level, Some(symbol), false, rng);
        result.messages = d.messages;
    } else {
        let roll = rng.rn2(4);
        let msg = if roll == 0 {
            "You see a swirling mist in the crystal ball."
        } else if roll == 1 {
            "The crystal ball shows a dark, distant place."
        } else if roll == 2 {
            "You see a vision of great danger ahead."
        } else {
            "The crystal ball clouds over."
        };
        result.messages.push(String::from_str(msg));
        assert(views(result.messages@) =~= seq![msg@]);
    }
    result
}

} // verus!
