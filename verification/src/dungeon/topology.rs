//! Dungeon topology: the dungeons of the game, the branches that join them,
//! and the placement of stairs, portals and arrival regions on a level.

use vstd::prelude::*;
use vstd::string::*;
use crate::rng::{GameRng, rn2_at, step, steps, lemma_steps_succ};
use crate::text::{int_str, push_int};
use crate::dungeon::level::{DLevel, Level, CellType, TrapType, Trap, Stairway, COLNO, ROWNO,
    cell_index};

verus! {

/// Dungeon flags.
#[derive(Debug, Clone, Copy, PartialEq, Eq, Structural)]
pub struct DungeonFlags {
    pub town: bool,
    pub hellish: bool,
    pub maze_like: bool,
    pub rogue_like: bool,
    pub alignment: i8,
}

impl Default for DungeonFlags {
    fn default() -> (r: Self)
        ensures
            r == (DungeonFlags { town: false, hellish: false, maze_like: false, rogue_like: false,
                alignment: 0 }),
    {
        DungeonFlags { town: false, hellish: false, maze_like: false, rogue_like: false, alignment: 0 }
    }
}

/// The flags of an ordinary dungeon.
pub open spec fn plain_flags() -> DungeonFlags {
    DungeonFlags { town: false, hellish: false, maze_like: false, rogue_like: false, alignment: 0 }
}

/// Dungeon definition.
#[derive(Debug, Clone)]
pub struct Dungeon {
    /// Dungeon name (e.g., "The Dungeons of Doom")
    pub name: String,
    /// Prototype file name
    pub prototype: String,
    /// Character for bones files
    pub bones_char: char,
    /// Dungeon flags
    pub flags: DungeonFlags,
    /// Entry level
    pub entry_level: i8,
    /// Number of levels
    pub num_levels: i8,
    /// Deepest level reached by player
    pub deepest_reached: i8,
    /// Ledger start (for level numbering)
    pub ledger_start: i32,
    /// Depth start (for difficulty)
    pub depth_start: i32,
}

/// `d` is the dungeon described by the given values, never yet visited.
pub open spec fn dungeon_is(d: Dungeon, name: Seq<char>, proto: Seq<char>, bones: char,
    flags: DungeonFlags, entry: i8, num: i8, ledger: i32, depth: i32) -> bool {
    &&& d.name@ == name
    &&& d.prototype@ == proto
    &&& d.bones_char == bones
    &&& d.flags == flags
    &&& d.entry_level == entry
    &&& d.num_levels == num
    &&& d.deepest_reached == 0
    &&& d.ledger_start == ledger
    &&& d.depth_start == depth
}

fn make_dungeon(name: &str, proto: &str, bones: char, flags: DungeonFlags, entry: i8, num: i8,
    ledger: i32, depth: i32) -> (d: Dungeon)
    ensures
        dungeon_is(d, name@, proto@, bones, flags, entry, num, ledger, depth),
{
    Dungeon {
        name: String::from_str(name),
        prototype: String::from_str(proto),
        bones_char: bones,
        flags,
        entry_level: entry,
        num_levels: num,
        deepest_reached: 0,
        ledger_start: ledger,
        depth_start: depth,
    }
}

/// The dungeon numbered `id` in the standard game.
pub open spec fn standard_dungeon(d: Dungeon, id: int) -> bool {
    if id == 0 {
        dungeon_is(d, "The Dungeons of Doom"@, "dungeon"@, 'D', plain_flags(), 1, 29, 0, 1)
    } else if id == 1 {
        dungeon_is(d, "Gehennom"@, "gehennom"@, 'G', DungeonFlags { hellish: true, ..plain_flags() },
            1, 20, 29, 30)
    } else if id == 2 {
        dungeon_is(d, "The Gnomish Mines"@, "mines"@, 'M', plain_flags(), 2, 8, 50, 2)
    } else if id == 3 {
        dungeon_is(d, "Sokoban"@, "sokoban"@, 'S', plain_flags(), 4, 4, 60, 6)
    } else if id == 4 {
        dungeon_is(d, "The Quest"@, "quest"@, 'Q', plain_flags(), 1, 5, 70, 16)
    } else if id == 5 {
        dungeon_is(d, "Fort Ludios"@, "knox"@, 'K', plain_flags(), 1, 1, 80, 18)
    } else if id == 6 {
        dungeon_is(d, "Vlad's Tower"@, "tower"@, 'T', plain_flags(), 1, 3, 85, 37)
    } else {
        dungeon_is(d, "The Planes"@, "endgame"@, 'E', DungeonFlags { maze_like: true, ..plain_flags() },
            1, 5, 90, 50)
    }
}

impl Dungeon {
    /// Create the main dungeon.
    pub fn main_dungeon() -> (d: Self)
        ensures
            standard_dungeon(d, 0),
    {
        make_dungeon("The Dungeons of Doom", "dungeon", 'D', DungeonFlags::default(), 1, 29, 0, 1)
    }

    /// Create Gehennom (Hell).
    pub fn gehennom() -> (d: Self)
        ensures
            standard_dungeon(d, 1),
    {
        let flags = DungeonFlags { hellish: true, ..DungeonFlags::default() };
        make_dungeon("Gehennom", "gehennom", 'G', flags, 1, 20, 29, 30)
    }

    /// Create the Gnomish Mines.
    pub fn mines() -> (d: Self)
        ensures
            standard_dungeon(d, 2),
    {
        make_dungeon("The Gnomish Mines", "mines", 'M', DungeonFlags::default(), 2, 8, 50, 2)
    }

    /// Create Sokoban.
    pub fn sokoban() -> (d: Self)
        ensures
            standard_dungeon(d, 3),
    {
        make_dungeon("Sokoban", "sokoban", 'S', DungeonFlags::default(), 4, 4, 60, 6)
    }

    /// Check if a level is in this dungeon.
    pub fn contains_level(&self, level: i8) -> (r: bool)
        ensures
            r == (1 <= level <= self.num_levels),
    {
        level >= 1 && level <= self.num_levels
    }

    /// Create the Quest dungeon.
    pub fn quest() -> (d: Self)
        ensures
            standard_dungeon(d, 4),
    {
        make_dungeon("The Quest", "quest", 'Q', DungeonFlags::default(), 1, 5, 70, 16)
    }

    /// Create Fort Ludios.
    pub fn fort_ludios() -> (d: Self)
        ensures
            standard_dungeon(d, 5),
    {
        make_dungeon("Fort Ludios", "knox", 'K', DungeonFlags::default(), 1, 1, 80, 18)
    }

    /// Create Vlad's Tower.
    pub fn vlads_tower() -> (d: Self)
        ensures
            standard_dungeon(d, 6),
    {
        make_dungeon("Vlad's Tower", "tower", 'T', DungeonFlags::default(), 1, 3, 85, 37)
    }

    /// Create the Endgame (Elemental Planes and Astral).
    pub fn endgame() -> (d: Self)
        ensures
            standard_dungeon(d, 7),
    {
        let flags = DungeonFlags { maze_like: true, ..DungeonFlags::default() };
        make_dungeon("The Planes", "endgame", 'E', flags, 1, 5, 90, 50)
    }
}

/// Branch connection types.
#[derive(Debug, Clone, Copy, PartialEq, Eq, Structural)]
pub enum BranchType {
    Stairs,
    NoEnd1,
    NoEnd2,
    Portal,
}

impl Default for BranchType {
    fn default() -> (r: Self)
        ensures
            r == BranchType::Stairs,
    {
        BranchType::Stairs
    }
}

/// Branch between dungeons.
#[derive(Debug, Clone, Copy, PartialEq, Eq, Structural)]
pub struct Branch {
    /// Branch identifier
    pub id: i32,
    /// Branch type
    pub branch_type: BranchType,
    /// First endpoint
    pub end1: DLevel,
    /// Second endpoint
    pub end2: DLevel,
    /// Is end1 going up?
    pub end1_up: bool,
}

impl Branch {
    /// Create a stairs branch.
    pub fn stairs(id: i32, from: DLevel, to: DLevel, going_up: bool) -> (b: Self)
        ensures
            b == (Branch { id: id, branch_type: BranchType::Stairs, end1: from, end2: to, end1_up: going_up }),
    {
        Branch { id, branch_type: BranchType::Stairs, end1: from, end2: to, end1_up: going_up }
    }

    /// Create a portal branch.
    pub fn portal(id: i32, from: DLevel, to: DLevel) -> (b: Self)
        ensures
            b == (Branch { id: id, branch_type: BranchType::Portal, end1: from, end2: to, end1_up: false }),
    {
        Branch { id, branch_type: BranchType::Portal, end1: from, end2: to, end1_up: false }
    }
}

/// Dungeon branch identifiers.
#[derive(Debug, Clone, Copy, PartialEq, Eq, Structural)]
pub enum DungeonId {
    MainDungeon,
    Gehennom,
    Mines,
    Sokoban,
    Quest,
    FortLudios,
    VladsTower,
    EndGame,
}

/// The number of a dungeon identifier.
pub open spec fn dungeon_number(id: DungeonId) -> i8 {
    match id {
        DungeonId::MainDungeon => 0,
        DungeonId::Gehennom => 1,
        DungeonId::Mines => 2,
        DungeonId::Sokoban => 3,
        DungeonId::Quest => 4,
        DungeonId::FortLudios => 5,
        DungeonId::VladsTower => 6,
        DungeonId::EndGame => 7,
    }
}

impl DungeonId {
    /// Get the dungeon definition for this identifier.
    pub fn definition(&self) -> (d: Dungeon)
        ensures
            standard_dungeon(d, dungeon_number(*self) as int),
    {
        match self {
            DungeonId::MainDungeon => Dungeon::main_dungeon(),
            DungeonId::Gehennom => Dungeon::gehennom(),
            DungeonId::Mines => Dungeon::mines(),
            DungeonId::Sokoban => Dungeon::sokoban(),
            DungeonId::Quest => Dungeon::quest(),
            DungeonId::FortLudios => Dungeon::fort_ludios(),
            DungeonId::VladsTower => Dungeon::vlads_tower(),
            DungeonId::EndGame => Dungeon::endgame(),
        }
    }

    /// Get the dungeon number.
    pub fn number(&self) -> (n: i8)
        ensures
            n == dungeon_number(*self),
    {
        match self {
            DungeonId::MainDungeon => 0,
            DungeonId::Gehennom => 1,
            DungeonId::Mines => 2,
            DungeonId::Sokoban => 3,
            DungeonId::Quest => 4,
            DungeonId::FortLudios => 5,
            DungeonId::VladsTower => 6,
            DungeonId::EndGame => 7,
        }
    }

    /// Get the dungeon identifier from its number.
    pub fn from_number(num: i8) -> (r: Option<Self>)
        ensures
            r matches Some(id) ==> dungeon_number(id) == num,
            r is None <==> !(0 <= num <= 7),
    {
        match num {
            0 => Some(DungeonId::MainDungeon),
            1 => Some(DungeonId::Gehennom),
            2 => Some(DungeonId::Mines),
            3 => Some(DungeonId::Sokoban),
            4 => Some(DungeonId::Quest),
            5 => Some(DungeonId::FortLudios),
            6 => Some(DungeonId::VladsTower),
            7 => Some(DungeonId::EndGame),
            _ => None,
        }
    }
}

/// Complete dungeon system managing all branches.
#[derive(Debug, Clone)]
pub struct DungeonSystem {
    /// All dungeon definitions
    pub dungeons: Vec<Dungeon>,
    /// Branch connections between dungeons
    pub branches: Vec<Branch>,
}

/// The branches of the standard game, in order.
pub open spec fn standard_branches() -> Seq<Branch> {
    seq![
        Branch { id: 0, branch_type: BranchType::Stairs, end1: DLevel { dungeon_num: 0, level_num: 3 },
            end2: DLevel { dungeon_num: 2, level_num: 1 }, end1_up: false },
        Branch { id: 1, branch_type: BranchType::Stairs, end1: DLevel { dungeon_num: 0, level_num: 7 },
            end2: DLevel { dungeon_num: 3, level_num: 1 }, end1_up: true },
        Branch { id: 2, branch_type: BranchType::Stairs, end1: DLevel { dungeon_num: 0, level_num: 25 },
            end2: DLevel { dungeon_num: 1, level_num: 1 }, end1_up: false },
        Branch { id: 3, branch_type: BranchType::Portal, end1: DLevel { dungeon_num: 0, level_num: 14 },
            end2: DLevel { dungeon_num: 4, level_num: 1 }, end1_up: false },
        Branch { id: 4, branch_type: BranchType::Portal, end1: DLevel { dungeon_num: 0, level_num: 12 },
            end2: DLevel { dungeon_num: 5, level_num: 1 }, end1_up: false },
        Branch { id: 5, branch_type: BranchType::Stairs, end1: DLevel { dungeon_num: 1, level_num: 10 },
            end2: DLevel { dungeon_num: 6, level_num: 1 }, end1_up: true },
        Branch { id: 6, branch_type: BranchType::Portal, end1: DLevel { dungeon_num: 1, level_num: 20 },
            end2: DLevel { dungeon_num: 7, level_num: 1 }, end1_up: false },
    ]
}

/// `s` is the standard dungeon system: the eight dungeons in order and the
/// seven standard branches.
pub open spec fn is_standard_system(s: DungeonSystem) -> bool {
    &&& s.dungeons@.len() == 8
    &&& forall|i: int| 0 <= i < 8 ==> standard_dungeon(#[trigger] s.dungeons@[i], i)
    &&& s.branches@ == standard_branches()
}

impl Default for DungeonSystem {
    fn default() -> (r: Self)
        ensures
            is_standard_system(r),
    {
        DungeonSystem::new()
    }
}

/// Index of the first branch in `bs` whose first end is `d`.
pub open spec fn first_from(bs: Seq<Branch>, d: DLevel, i: int) -> bool {
    &&& 0 <= i < bs.len()
    &&& bs[i].end1 == d
    &&& forall|j: int| 0 <= j < i ==> bs[j].end1 != d
}

/// Index of the first branch in `bs` whose second end is `d`.
pub open spec fn first_to(bs: Seq<Branch>, d: DLevel, i: int) -> bool {
    &&& 0 <= i < bs.len()
    &&& bs[i].end2 == d
    &&& forall|j: int| 0 <= j < i ==> bs[j].end2 != d
}

/// Whether some branch in `bs` starts at `d`.
pub open spec fn any_from(bs: Seq<Branch>, d: DLevel) -> bool {
    exists|i: int| 0 <= i < bs.len() && bs[i].end1 == d
}

/// Whether some branch in `bs` ends at `d`.
pub open spec fn any_to(bs: Seq<Branch>, d: DLevel) -> bool {
    exists|i: int| 0 <= i < bs.len() && bs[i].end2 == d
}

fn find_from(bs: &Vec<Branch>, d: &DLevel) -> (r: Option<usize>)
    ensures
        r matches Some(i) ==> first_from(bs@, *d, i as int),
        r is None <==> !any_from(bs@, *d),
{
    let mut i: usize = 0;
    while i < bs.len()
        invariant
            i <= bs@.len(),
            forall|j: int| 0 <= j < i ==> bs@[j].end1 != *d,
        decreases bs@.len() - i,
    {
        if bs[i].end1 == *d {
            return Some(i);
        }
        i = i + 1;
    }
    None
}

fn find_to(bs: &Vec<Branch>, d: &DLevel) -> (r: Option<usize>)
    ensures
        r matches Some(i) ==> first_to(bs@, *d, i as int),
        r is None <==> !any_to(bs@, *d),
{
    let mut i: usize = 0;
    while i < bs.len()
        invariant
            i <= bs@.len(),
            forall|j: int| 0 <= j < i ==> bs@[j].end2 != *d,
        decreases bs@.len() - i,
    {
        if bs[i].end2 == *d {
            return Some(i);
        }
        i = i + 1;
    }
    None
}

/// The dungeon numbered `n` in `s`, when there is one.
pub open spec fn dungeon_no(s: DungeonSystem, n: int) -> Option<Dungeon> {
    if 0 <= n < s.dungeons@.len() { Some(s.dungeons@[n]) } else { None }
}

impl DungeonSystem {
    /// Create the standard dungeon system with all dungeons and branches.
    pub fn new() -> (s: Self)
        ensures
            is_standard_system(s),
    {
        let mut dungeons: Vec<Dungeon> = Vec::new();
        dungeons.push(Dungeon::main_dungeon());
        dungeons.push(Dungeon::gehennom());
        dungeons.push(Dungeon::mines());
        dungeons.push(Dungeon::sokoban());
        dungeons.push(Dungeon::quest());
        dungeons.push(Dungeon::fort_ludios());
        dungeons.push(Dungeon::vlads_tower());
        dungeons.push(Dungeon::endgame());
        let mut branches: Vec<Branch> = Vec::new();
        branches.push(Branch::stairs(0, DLevel::new(0, 3), DLevel::new(2, 1), false));
        branches.push(Branch::stairs(1, DLevel::new(0, 7), DLevel::new(3, 1), true));
        branches.push(Branch::stairs(2, DLevel::new(0, 25), DLevel::new(1, 1), false));
        branches.push(Branch::portal(3, DLevel::new(0, 14), DLevel::new(4, 1)));
        branches.push(Branch::portal(4, DLevel::new(0, 12), DLevel::new(5, 1)));
        branches.push(Branch::stairs(5, DLevel::new(1, 10), DLevel::new(6, 1), true));
        branches.push(Branch::portal(6, DLevel::new(1, 20), DLevel::new(7, 1)));
        let s = DungeonSystem { dungeons, branches };
        proof {
            assert(s.branches@ =~= standard_branches());
            assert forall|i: int| 0 <= i < 8 implies standard_dungeon(#[trigger] s.dungeons@[i], i) by {
            }
        }
        s
    }

    /// Get a dungeon by identifier.
    pub fn get_dungeon(&self, id: DungeonId) -> (r: Option<&Dungeon>)
        ensures
            r matches Some(d) ==> dungeon_no(*self, dungeon_number(id) as int) == Some(*d),
            r is None <==> dungeon_no(*self, dungeon_number(id) as int) is None,
    {
        let n = id.number() as usize;
        if n < self.dungeons.len() {
            Some(&self.dungeons[n])
        } else {
            None
        }
    }

    /// Get the first branch leaving from a level.
    pub fn get_branch_from(&self, dlevel: &DLevel) -> (r: Option<&Branch>)
        ensures
            r matches Some(b) ==> exists|i: int| first_from(self.branches@, *dlevel, i)
                && self.branches@[i] == *b,
            r is None <==> !any_from(self.branches@, *dlevel),
    {
        match find_from(&self.branches, dlevel) {
            Some(i) => Some(&self.branches[i]),
            None => None,
        }
    }

    /// Get the first branch arriving at a level.
    pub fn get_branch_to(&self, dlevel: &DLevel) -> (r: Option<&Branch>)
        ensures
            r matches Some(b) ==> exists|i: int| first_to(self.branches@, *dlevel, i)
                && self.branches@[i] == *b,
            r is None <==> !any_to(self.branches@, *dlevel),
    {
        match find_to(&self.branches, dlevel) {
            Some(i) => Some(&self.branches[i]),
            None => None,
        }
    }

    /// Check if a level has a branch entrance.
    pub fn has_branch_entrance(&self, dlevel: &DLevel) -> (r: bool)
        ensures
            r == any_from(self.branches@, *dlevel),
    {
        self.get_branch_from(dlevel).is_some()
    }

    /// Get the destination of the first branch leaving from this level.
    pub fn branch_destination(&self, dlevel: &DLevel) -> (r: Option<DLevel>)
        ensures
            r matches Some(dest) ==> exists|i: int| first_from(self.branches@, *dlevel, i)
                && self.branches@[i].end2 == dest,
            r is None <==> !any_from(self.branches@, *dlevel),
    {
        match self.get_branch_from(dlevel) {
            Some(b) => Some(b.end2),
            None => None,
        }
    }

    /// Check if a level is in a maze-like or hellish dungeon.
    pub fn is_maze_dungeon(&self, dlevel: &DLevel) -> (r: bool)
        ensures
            r == (dungeon_no(*self, dlevel.dungeon_num as usize as int) matches Some(d)
                && (d.flags.maze_like || d.flags.hellish)),
    {
        let n = dlevel.dungeon_num as usize;
        if n < self.dungeons.len() {
            self.dungeons[n].flags.maze_like || self.dungeons[n].flags.hellish
        } else {
            false
        }
    }

    /// Get the dungeon name for a level ("Unknown" when there is no such dungeon).
    pub fn dungeon_name(&self, dlevel: &DLevel) -> (r: &str)
        ensures
            r@ == match dungeon_no(*self, dlevel.dungeon_num as usize as int) {
                Some(d) => d.name@,
                None => "Unknown"@,
            },
    {
        let n = dlevel.dungeon_num as usize;
        if n < self.dungeons.len() {
            self.dungeons[n].name.as_str()
        } else {
            "Unknown"
        }
    }
}

// ============================================================================
// Free functions (C-style API equivalents)
// ============================================================================

/// Initialize the dungeon system.
pub fn init_dungeons() -> (s: DungeonSystem)
    ensures
        is_standard_system(s),
{
    DungeonSystem::new()
}

/// Check if a dungeon number is the main dungeon.
pub fn is_main_dungeon(dnum: i8) -> (r: bool)
    ensures
        r == (dnum == 0),
{
    dnum == 0
}

/// Check if a level is in the main dungeon.
pub fn is_in_main_dungeon(dlevel: &DLevel) -> (r: bool)
    ensures
        r == (dlevel.dungeon_num == 0),
{
    dlevel.is_main_dungeon()
}

/// Text of a branch type.
pub open spec fn branch_type_text(t: BranchType) -> Seq<char> {
    match t {
        BranchType::Stairs => "stairs"@,
        BranchType::NoEnd1 => "no-connection-1"@,
        BranchType::NoEnd2 => "no-connection-2"@,
        BranchType::Portal => "portal"@,
    }
}

/// Get a branch type as a string.
pub fn br_string(branch_type: BranchType) -> (s: &'static str)
    ensures
        s@ == branch_type_text(branch_type),
{
    match branch_type {
        BranchType::Stairs => "stairs",
        BranchType::NoEnd1 => "no-connection-1",
        BranchType::NoEnd2 => "no-connection-2",
        BranchType::Portal => "portal",
    }
}

/// Longer description of a branch, with the direction of stairs.
pub open spec fn branch_text(b: Branch) -> Seq<char> {
    match b.branch_type {
        BranchType::Stairs => "stairs ("@ + (if b.end1_up { "up"@ } else { "down"@ }) + ")"@,
        BranchType::NoEnd1 => "blocked at start"@,
        BranchType::NoEnd2 => "blocked at end"@,
        BranchType::Portal => "magic portal"@,
    }
}

/// Get a branch description including direction.
pub fn br_string2(branch: &Branch) -> (s: String)
    ensures
        s@ == branch_text(*branch),
{
    let direction = if branch.end1_up { "up" } else { "down" };
    match branch.branch_type {
        BranchType::Stairs => {
            let mut s = String::from_str("stairs (");
            s.append(direction);
            s.append(")");
            s
        },
        BranchType::NoEnd1 => String::from_str("blocked at start"),
        BranchType::NoEnd2 => String::from_str("blocked at end"),
        BranchType::Portal => String::from_str("magic portal"),
    }
}

/// Check if a dungeon is hellish (false for an unknown dungeon).
pub fn is_hellish(system: &DungeonSystem, dnum: i8) -> (r: bool)
    ensures
        r == (dungeon_no(*system, dnum as usize as int) matches Some(d) && d.flags.hellish),
{
    let n = dnum as usize;
    if n < system.dungeons.len() {
        system.dungeons[n].flags.hellish
    } else {
        false
    }
}

/// Check if a level is in a hellish dungeon.
pub fn level_in_hellish_dungeon(system: &DungeonSystem, dlevel: &DLevel) -> (r: bool)
    ensures
        r == (dungeon_no(*system, dlevel.dungeon_num as usize as int) matches Some(d) && d.flags.hellish),
{
    system.is_maze_dungeon(dlevel) && is_hellish(system, dlevel.dungeon_num)
}

/// Check if a dungeon is maze-like (false for an unknown dungeon).
pub fn is_maze_like(system: &DungeonSystem, dnum: i8) -> (r: bool)
    ensures
        r == (dungeon_no(*system, dnum as usize as int) matches Some(d) && d.flags.maze_like),
{
    let n = dnum as usize;
    if n < system.dungeons.len() {
        system.dungeons[n].flags.maze_like
    } else {
        false
    }
}

/// Check if a dungeon is a town (false for an unknown dungeon).
pub fn is_town(system: &DungeonSystem, dnum: i8) -> (r: bool)
    ensures
        r == (dungeon_no(*system, dnum as usize as int) matches Some(d) && d.flags.town),
{
    let n = dnum as usize;
    if n < system.dungeons.len() {
        system.dungeons[n].flags.town
    } else {
        false
    }
}

/// Number of dungeons.
pub fn numdungeons(system: &DungeonSystem) -> (n: usize)
    ensures
        n == system.dungeons@.len(),
{
    system.dungeons.len()
}

/// Total number of branches.
pub fn num_branches(system: &DungeonSystem) -> (n: usize)
    ensures
        n == system.branches@.len(),
{
    system.branches.len()
}

/// Get the first branch with identifier `id`.
pub fn get_branch_by_id(system: &DungeonSystem, id: i32) -> (r: Option<&Branch>)
    ensures
        r matches Some(b) ==> exists|i: int| 0 <= i < system.branches@.len()
            && system.branches@[i] == *b && b.id == id
            && forall|j: int| 0 <= j < i ==> system.branches@[j].id != id,
        r is None <==> forall|i: int| 0 <= i < system.branches@.len() ==> system.branches@[i].id != id,
{
    let mut i: usize = 0;
    while i < system.branches.len()
        invariant
            i <= system.branches@.len(),
            forall|j: int| 0 <= j < i ==> system.branches@[j].id != id,
        decreases system.branches@.len() - i,
    {
        if system.branches[i].id == id {
            return Some(&system.branches[i]);
        }
        i = i + 1;
    }
    None
}

/// Whether branch `b` joins `a` and `c`, in either direction.
pub open spec fn joins(b: Branch, a: DLevel, c: DLevel) -> bool {
    (b.end1 == a && b.end2 == c) || (b.end1 == c && b.end2 == a)
}

/// Find if two levels are connected by a branch, in either direction.
pub fn levels_connected(system: &DungeonSystem, from: &DLevel, to: &DLevel) -> (r: bool)
    ensures
        r == exists|i: int| 0 <= i < system.branches@.len() && joins(system.branches@[i], *from, *to),
{
    let mut i: usize = 0;
    while i < system.branches.len()
        invariant
            i <= system.branches@.len(),
            forall|j: int| 0 <= j < i ==> !joins(system.branches@[j], *from, *to),
        decreases system.branches@.len() - i,
    {
        let b = system.branches[i];
        if (b.end1 == *from && b.end2 == *to) || (b.end1 == *to && b.end2 == *from) {
            assert(joins(system.branches@[i as int], *from, *to));
            return true;
        }
        i = i + 1;
    }
    false
}

/// Index of the first portal branch leaving from `d`.
pub open spec fn first_portal_from(bs: Seq<Branch>, d: DLevel, i: int) -> bool {
    &&& 0 <= i < bs.len()
    &&& bs[i].end1 == d && bs[i].branch_type == BranchType::Portal
    &&& forall|j: int| 0 <= j < i ==> !(bs[j].end1 == d && bs[j].branch_type == BranchType::Portal)
}

/// Get the destination of the first portal leaving from a level.
pub fn mkportal(system: &DungeonSystem, dlevel: &DLevel) -> (r: Option<DLevel>)
    ensures
        r matches Some(dest) ==> exists|i: int| first_portal_from(system.branches@, *dlevel, i)
            && system.branches@[i].end2 == dest,
        r is None <==> forall|i: int| 0 <= i < system.branches@.len() ==> !(
            system.branches@[i].end1 == *dlevel && system.branches@[i].branch_type == BranchType::Portal),
{
    let mut i: usize = 0;
    while i < system.branches.len()
        invariant
            i <= system.branches@.len(),
            forall|j: int| 0 <= j < i ==> !(system.branches@[j].end1 == *dlevel
                && system.branches@[j].branch_type == BranchType::Portal),
        decreases system.branches@.len() - i,
    {
        let b = system.branches[i];
        if b.end1 == *dlevel && b.branch_type == BranchType::Portal {
            assert(first_portal_from(system.branches@, *dlevel, i as int));
            return Some(b.end2);
        }
        i = i + 1;
    }
    None
}

/// Get the next portal destination (for chained portals): the same as `mkportal`.
pub fn next_portal(system: &DungeonSystem, dlevel: &DLevel) -> (r: Option<DLevel>)
    ensures
        r matches Some(dest) ==> exists|i: int| first_portal_from(system.branches@, *dlevel, i)
            && system.branches@[i].end2 == dest,
        r is None <==> forall|i: int| 0 <= i < system.branches@.len() ==> !(
            system.branches@[i].end1 == *dlevel && system.branches@[i].branch_type == BranchType::Portal),
{
    mkportal(system, dlevel)
}

/// Get the Fort Ludios portal: the first branch with identifier 4.
pub fn mk_knox_portal(system: &DungeonSystem) -> (r: Option<Branch>)
    ensures
        r matches Some(b) ==> exists|i: int| 0 <= i < system.branches@.len()
            && system.branches@[i] == b && b.id == 4
            && forall|j: int| 0 <= j < i ==> system.branches@[j].id != 4,
        r is None <==> forall|i: int| 0 <= i < system.branches@.len() ==> system.branches@[i].id != 4,
{
    match get_branch_by_id(system, 4) {
        Some(b) => Some(*b),
        None => None,
    }
}

/// Get the level a branch arriving at `dlevel` comes from.
pub fn parent_level(system: &DungeonSystem, dlevel: &DLevel) -> (r: Option<DLevel>)
    ensures
        r matches Some(p) ==> exists|i: int| first_to(system.branches@, *dlevel, i)
            && system.branches@[i].end1 == p,
        r is None <==> !any_to(system.branches@, *dlevel),
{
    match find_to(&system.branches, dlevel) {
        Some(i) => Some(system.branches[i].end1),
        None => None,
    }
}

/// Check if a level has any branch leaving from it.
pub fn has_branch_from_level(system: &DungeonSystem, dlevel: &DLevel) -> (r: bool)
    ensures
        r == any_from(system.branches@, *dlevel),
{
    system.has_branch_entrance(dlevel)
}

/// Get the index of a dungeon by number (only the eight standard numbers).
pub fn dungeon_index(dnum: i8) -> (r: Option<usize>)
    ensures
        r == (if 0 <= dnum < 8 { Some(dnum as usize) } else { None::<usize> }),
{
    if dnum >= 0 && dnum < 8 {
        Some(dnum as usize)
    } else {
        None
    }
}

/// Alignment of a dungeon (0 for an unknown dungeon).
pub fn dungeon_alignment(system: &DungeonSystem, dnum: i8) -> (r: i8)
    ensures
        r == match dungeon_no(*system, dnum as usize as int) {
            Some(d) => d.flags.alignment,
            None => 0,
        },
{
    let n = dnum as usize;
    if n < system.dungeons.len() {
        system.dungeons[n].flags.alignment
    } else {
        0
    }
}

// ============================================================================
// Level region types (from C's sp_lev.h)
// ============================================================================

/// Level region types for placing stairs, portals, and teleport destinations.
#[derive(Debug, Clone, Copy, PartialEq, Eq, Structural)]
pub enum LRegionType {
    /// Upstairs
    Upstair,
    /// Downstairs
    Downstair,
    /// Level teleport destination
    Tele,
    /// Up level teleport
    UpTele,
    /// Down level teleport
    DownTele,
    /// Magic portal
    Portal,
    /// Branch entrance
    Branch,
}

/// Level region area for constraining placement: columns `x1..=x2`, rows `y1..=y2`.
#[derive(Debug, Clone, Copy, PartialEq, Eq, Structural)]
pub struct LRegionArea {
    pub x1: u8,
    pub y1: u8,
    pub x2: u8,
    pub y2: u8,
}

impl Default for LRegionArea {
    fn default() -> (r: Self)
        ensures
            r == (LRegionArea { x1: 0, y1: 0, x2: 0, y2: 0 }),
    {
        LRegionArea { x1: 0, y1: 0, x2: 0, y2: 0 }
    }
}

/// Whether `(x, y)` lies in area `a`.
pub open spec fn area_contains(a: LRegionArea, x: int, y: int) -> bool {
    a.x1 <= x <= a.x2 && a.y1 <= y <= a.y2
}

/// Whether area `a` is the all-zero "no area".
pub open spec fn area_empty(a: LRegionArea) -> bool {
    a.x1 == 0 && a.y1 == 0 && a.x2 == 0 && a.y2 == 0
}

impl LRegionArea {
    /// The area with the given corners.
    pub fn new(x1: u8, y1: u8, x2: u8, y2: u8) -> (r: Self)
        ensures
            r == (LRegionArea { x1: x1, y1: y1, x2: x2, y2: y2 }),
    {
        LRegionArea { x1, y1, x2, y2 }
    }

    /// Check if a point is within this area.
    pub fn contains(&self, x: u8, y: u8) -> (r: bool)
        ensures
            r == area_contains(*self, x as int, y as int),
    {
        x >= self.x1 && x <= self.x2 && y >= self.y1 && y <= self.y2
    }

    /// Check if this area is empty (all zeros).
    pub fn is_empty(&self) -> (r: bool)
        ensures
            r == area_empty(*self),
    {
        self.x1 == 0 && self.y1 == 0 && self.x2 == 0 && self.y2 == 0
    }
}

/// Level region for special placements.
#[derive(Debug, Clone, Copy, PartialEq, Eq, Structural)]
pub struct LRegion {
    /// Area to place within
    pub inarea: LRegionArea,
    /// Area to exclude
    pub delarea: LRegionArea,
    /// Region type
    pub rtype: LRegionType,
    /// Padding/flags
    pub padding: u8,
    /// Destination dungeon number
    pub rname_dnum: i8,
    /// Destination level number
    pub rname_dlevel: i8,
}

impl Default for LRegion {
    fn default() -> (r: Self)
        ensures
            r == (LRegion { inarea: LRegionArea { x1: 0, y1: 0, x2: 0, y2: 0 },
                delarea: LRegionArea { x1: 0, y1: 0, x2: 0, y2: 0 }, rtype: LRegionType::Tele,
                padding: 0, rname_dnum: 0, rname_dlevel: 0 }),
    {
        LRegion {
            inarea: LRegionArea::default(),
            delarea: LRegionArea::default(),
            rtype: LRegionType::Tele,
            padding: 0,
            rname_dnum: 0,
            rname_dlevel: 0,
        }
    }
}

// ============================================================================
// Dungeon display functions (for debugging)
// ============================================================================

/// `words` joined with `sep` between consecutive words.
pub open spec fn join_words(words: Seq<Seq<char>>, sep: Seq<char>) -> Seq<char>
    decreases words.len(),
{
    if words.len() == 0 {
        Seq::empty()
    } else if words.len() == 1 {
        words[0]
    } else {
        join_words(words.drop_last(), sep) + sep + words.last()
    }
}

/// Names of the flags that are set, in display order.
pub open spec fn flag_words(f: DungeonFlags) -> Seq<Seq<char>> {
    let a = if f.hellish { seq!["hellish"@] } else { Seq::<Seq<char>>::empty() };
    let b = if f.maze_like { a.push("maze-like"@) } else { a };
    let c = if f.rogue_like { b.push("rogue-like"@) } else { b };
    if f.town { c.push("town"@) } else { c }
}

/// The bracketed list of a dungeon's flags, empty when none is set.
pub open spec fn flags_text(f: DungeonFlags) -> Seq<char> {
    if flag_words(f).len() == 0 {
        Seq::empty()
    } else {
        " ["@ + join_words(flag_words(f), ", "@) + "]"@
    }
}

/// The depth range of a dungeon.
pub open spec fn depth_text(d: Dungeon) -> Seq<char> {
    if d.num_levels > 1 {
        int_str(d.depth_start as int) + " to "@ + int_str(d.depth_start + d.num_levels - 1)
    } else {
        int_str(d.depth_start as int)
    }
}

/// Where a dungeon is entered, when not from its first level.
pub open spec fn entrance_text(d: Dungeon) -> Seq<char> {
    if d.entry_level != 1 {
        if d.entry_level == d.num_levels {
            ", entrance from below"@
        } else {
            ", entrance on level "@ + int_str(d.depth_start + d.entry_level - 1)
        }
    } else {
        Seq::empty()
    }
}

/// The summary line of a dungeon.
pub open spec fn dungeon_line(d: Dungeon) -> Seq<char> {
    d.name@ + ": levels "@ + depth_text(d) + entrance_text(d) + flags_text(d.flags) + "\n"@
}

/// Name of the dungeon numbered `n`, or "Unknown".
pub open spec fn dungeon_name_of(s: DungeonSystem, n: i8) -> Seq<char> {
    match dungeon_no(s, n as usize as int) {
        Some(d) => d.name@,
        None => "Unknown"@,
    }
}

/// The display line of a branch.
pub open spec fn branch_line(s: DungeonSystem, b: Branch) -> Seq<char> {
    "  "@ + branch_text(b) + " at level "@ + int_str(b.end1.level_num as int) + " -> "@
        + dungeon_name_of(s, b.end2.dungeon_num) + " level "@ + int_str(b.end2.level_num as int) + "\n"@
}

/// Lines of the first `k` branches that leave from dungeon `i`.
pub open spec fn branch_lines(s: DungeonSystem, i: int, k: int) -> Seq<char>
    decreases k,
{
    if k <= 0 {
        Seq::empty()
    } else {
        branch_lines(s, i, k - 1) + if s.branches@[k - 1].end1.dungeon_num == (i as i8) {
            branch_line(s, s.branches@[k - 1])
        } else {
            Seq::empty()
        }
    }
}

/// The lines printed for the first `n` dungeons.
pub open spec fn dungeon_blocks(s: DungeonSystem, n: int, show: bool) -> Seq<char>
    decreases n,
{
    if n <= 0 {
        Seq::empty()
    } else {
        dungeon_blocks(s, n - 1, show) + dungeon_line(s.dungeons@[n - 1])
            + if show { branch_lines(s, n - 1, s.branches@.len() as int) } else { Seq::empty() }
    }
}

/// The whole topology listing.
pub open spec fn topology_text(s: DungeonSystem, show: bool) -> Seq<char> {
    "=== Dungeon Topology ===\n\n"@ + dungeon_blocks(s, s.dungeons@.len() as int, show)
}

fn push_flags(out: &mut String, f: &DungeonFlags)
    ensures
        final(out)@ == old(out)@ + flags_text(*f),
{
    let mut words: Vec<&str> = Vec::new();
    if f.hellish {
        words.push("hellish");
    }
    if f.maze_like {
        words.push("maze-like");
    }
    if f.rogue_like {
        words.push("rogue-like");
    }
    if f.town {
        words.push("town");
    }
    let ghost fw = flag_words(*f);
    assert(words@.map_values(|w: &str| w@) =~= fw);
    if words.len() == 0 {
        assert(old(out)@ + flags_text(*f) =~= old(out)@);
        return;
    }
    out.append(" [");
    let mut i: usize = 0;
    while i < words.len()
        invariant
            0 <= i <= words@.len(),
            words@.len() >= 1,
            words@.map_values(|w: &str| w@) == fw,
            i == 0 ==> out@ == old(out)@ + " ["@,
            i > 0 ==> out@ == old(out)@ + " ["@ + join_words(fw.subrange(0, i as int), ", "@),
        decreases words@.len() - i,
    {
        if i > 0 {
            out.append(", ");
        }
        out.append(words[i]);
        proof {
            let sub = fw.subrange(0, i + 1);
            assert(sub.drop_last() =~= fw.subrange(0, i as int));
            assert(sub.last() == words@[i as int]@);
            if i == 0 {
                assert(join_words(sub, ", "@) == sub[0]);
            }
        }
        i = i + 1;
    }
    out.append("]");
    proof {
        assert(fw.subrange(0, words@.len() as int) =~= fw);
    }
}

#[verifier::spinoff_prover]
#[verifier::rlimit(40)]
fn push_dungeon_line(out: &mut String, d: &Dungeon)
    ensures
        final(out)@ == old(out)@ + dungeon_line(*d),
{
    out.append(d.name.as_str());
    out.append(": levels ");
    if d.num_levels > 1 {
        push_int(out, d.depth_start as i64);
        out.append(" to ");
        push_int(out, d.depth_start as i64 + d.num_levels as i64 - 1);
    } else {
        push_int(out, d.depth_start as i64);
    }
    if d.entry_level != 1 {
        if d.entry_level == d.num_levels {
            out.append(", entrance from below");
        } else {
            out.append(", entrance on level ");
            push_int(out, d.depth_start as i64 + d.entry_level as i64 - 1);
        }
    }
    push_flags(out, &d.flags);
    out.append("\n");
    proof {
        assert(out@ =~= old(out)@ + dungeon_line(*d));
    }
}

fn push_branch_line(out: &mut String, s: &DungeonSystem, b: &Branch)
    ensures
        final(out)@ == old(out)@ + branch_line(*s, *b),
{
    let n = b.end2.dungeon_num as usize;
    let dest: &str = if n < s.dungeons.len() { s.dungeons[n].name.as_str() } else { "Unknown" };
    out.append("  ");
    let bs = br_string2(b);
    out.append(bs.as_str());
    out.append(" at level ");
    push_int(out, b.end1.level_num as i64);
    out.append(" -> ");
    out.append(dest);
    out.append(" level ");
    push_int(out, b.end2.level_num as i64);
    out.append("\n");
    proof {
        assert(out@ =~= old(out)@ + branch_line(*s, *b));
    }
}

/// Format the dungeon topology for display:
/// a header, then for each dungeon its depth range, entrance and flags, and
/// when asked the branches leaving from it.
pub fn print_dungeon(system: &DungeonSystem, show_branches: bool) -> (out: String)
    ensures
        out@ == topology_text(*system, show_branches),
{
    let mut output = String::from_str("=== Dungeon Topology ===\n\n");
    let mut i: usize = 0;
    while i < system.dungeons.len()
        invariant
            i <= system.dungeons@.len(),
            output@ == "=== Dungeon Topology ===\n\n"@ + dungeon_blocks(*system, i as int, show_branches),
        decreases system.dungeons@.len() - i,
    {
        let ghost before = output@;
        push_dungeon_line(&mut output, &system.dungeons[i]);
        let ghost mid = output@;
        if show_branches {
            let mut k: usize = 0;
            while k < system.branches.len()
                invariant
                    k <= system.branches@.len(),
                    i < system.dungeons@.len(),
                    output@ == mid + branch_lines(*system, i as int, k as int),
                decreases system.branches@.len() - k,
            {
                let b = &system.branches[k];
                if b.end1.dungeon_num == i as i8 {
                    push_branch_line(&mut output, system, b);
                }
                proof {
                    assert(output@ =~= mid + branch_lines(*system, i as int, k + 1));
                }
                k = k + 1;
            }
        }
        proof {
            assert(output@ =~= "=== Dungeon Topology ===\n\n"@ + dungeon_blocks(*system, i + 1, show_branches));
        }
        i = i + 1;
    }
    output
}

/// One-line description of a dungeon.
pub open spec fn dungeon_info_text(d: Dungeon) -> Seq<char> {
    d.name@ + " ("@ + int_str(d.num_levels as int) + " levels, depth "@ + int_str(d.depth_start as int)
        + "+)"@ + (if d.flags.hellish { " [Hellish]"@ } else { Seq::empty() })
        + (if d.flags.maze_like { " [Maze]"@ } else { Seq::empty() })
}

/// Format a single dungeon's information.
pub fn format_dungeon_info(dungeon: &Dungeon) -> (s: String)
    ensures
        s@ == dungeon_info_text(*dungeon),
{
    let mut info = String::from_str(dungeon.name.as_str());
    info.append(" (");
    push_int(&mut info, dungeon.num_levels as i64);
    info.append(" levels, depth ");
    push_int(&mut info, dungeon.depth_start as i64);
    info.append("+)");
    if dungeon.flags.hellish {
        info.append(" [Hellish]");
    }
    if dungeon.flags.maze_like {
        info.append(" [Maze]");
    }
    proof {
        assert(info@ =~= dungeon_info_text(*dungeon));
    }
    info
}

/// Description of branch `b` under the identifier `id`.
pub open spec fn branch_info_text(s: DungeonSystem, id: int, b: Branch) -> Seq<char> {
    "Branch "@ + int_str(id) + ": "@ + dungeon_name_of(s, b.end1.dungeon_num) + " level "@
        + int_str(b.end1.level_num as int) + " -> "@ + dungeon_name_of(s, b.end2.dungeon_num)
        + " level "@ + int_str(b.end2.level_num as int) + " ("@ + branch_text(b) + ")"@
}

/// Describe the first branch with identifier `branch_id`; None when there is none.
pub fn print_branch_info(system: &DungeonSystem, branch_id: i32) -> (r: Option<String>)
    ensures
        r matches Some(text) ==> exists|i: int| 0 <= i < system.branches@.len()
            && system.branches@[i].id == branch_id
            && (forall|j: int| 0 <= j < i ==> system.branches@[j].id != branch_id)
            && text@ == branch_info_text(*system, branch_id as int, system.branches@[i]),
        r is None <==> forall|i: int| 0 <= i < system.branches@.len() ==> system.branches@[i].id != branch_id,
{
    let branch = match get_branch_by_id(system, branch_id) {
        Some(b) => b,
        None => return None,
    };
    let n1 = branch.end1.dungeon_num as usize;
    let from_name: &str = if n1 < system.dungeons.len() { system.dungeons[n1].name.as_str() } else { "Unknown" };
    let n2 = branch.end2.dungeon_num as usize;
    let to_name: &str = if n2 < system.dungeons.len() { system.dungeons[n2].name.as_str() } else { "Unknown" };
    let mut s = String::from_str("Branch ");
    push_int(&mut s, branch_id as i64);
    s.append(": ");
    s.append(from_name);
    s.append(" level ");
    push_int(&mut s, branch.end1.level_num as i64);
    s.append(" -> ");
    s.append(to_name);
    s.append(" level ");
    push_int(&mut s, branch.end2.level_num as i64);
    s.append(" (");
    let bs = br_string2(branch);
    s.append(bs.as_str());
    s.append(")");
    proof {
        assert(s@ =~= branch_info_text(*system, branch_id as int, *branch));
    }
    Some(s)
}

// ============================================================================
// Level region placement (place_lregion, put_lregion_here equivalents)
// ============================================================================

/// Terrain on which no region feature may be placed.
pub open spec fn blocking_terrain(t: CellType) -> bool {
    matches!(t, CellType::Stone | CellType::VWall | CellType::HWall | CellType::TLCorner
        | CellType::TRCorner | CellType::BLCorner | CellType::BRCorner | CellType::Stairs
        | CellType::Ladder | CellType::Lava | CellType::Water | CellType::Pool | CellType::IronBars
        | CellType::Tree)
}

/// Whether `(x, y)` is a bad spot for a region feature: inside a non-empty
/// exclusion area, or on blocking terrain.
pub open spec fn bad_spot(level: Level, x: int, y: int, exclude: LRegionArea) -> bool {
    (!area_empty(exclude) && area_contains(exclude, x, y)) || blocking_terrain(level.cell(x, y).typ)
}

fn bad_location(level: &Level, x: u8, y: u8, exclude: &LRegionArea) -> (r: bool)
    requires
        level.wf(),
        (x as int) < COLNO,
        (y as int) < ROWNO,
    ensures
        r == bad_spot(*level, x as int, y as int, *exclude),
{
    if !exclude.is_empty() && exclude.contains(x, y) {
        return true;
    }
    let t = level.cell_type(x as usize, y as usize);
    matches!(t, CellType::Stone | CellType::VWall | CellType::HWall | CellType::TLCorner
        | CellType::TRCorner | CellType::BLCorner | CellType::BRCorner | CellType::Stairs
        | CellType::Ladder | CellType::Lava | CellType::Water | CellType::Pool | CellType::IronBars
        | CellType::Tree)
}

/// What placing a region of kind `rtype` at `(x, y)` with destination `dest`
/// does to a level on a good spot.
pub open spec fn placed(old_level: Level, new_level: Level, x: int, y: int, rtype: LRegionType,
    dest: Option<DLevel>) -> bool {
    placed_on(old_level, old_level.traps@, new_level, x, y, rtype, dest)
}

/// The same, with `traps` standing for the traps of `old_level`.
pub open spec fn placed_on(old_level: Level, traps: Seq<Trap>, new_level: Level, x: int, y: int, rtype: LRegionType,
    dest: Option<DLevel>) -> bool {
    &&& new_level.wf()
    &&& new_level.dlevel == old_level.dlevel
    &&& new_level.explored@ == old_level.explored@
    &&& new_level.monsters@ == old_level.monsters@
    &&& new_level.objects@ == old_level.objects@
    &&& match rtype {
        LRegionType::Tele | LRegionType::UpTele | LRegionType::DownTele =>
            new_level.cells@ == old_level.cells@.update(cell_index(x, y),
                crate::dungeon::level::Cell { typ: CellType::Room, ..old_level.cell(x, y) })
            && new_level.traps@ == traps && new_level.stairs@ == old_level.stairs@
            && new_level.flags == old_level.flags,
        LRegionType::Portal => new_level.cells@ == old_level.cells@ && new_level.flags == old_level.flags
            && match dest {
                Some(d) => new_level.traps@ == traps.push(Trap { x: x as i8, y: y as i8,
                    trap_type: TrapType::MagicPortal, activated: false, seen: false, once: false,
                    madeby_u: false, launch_oid: None })
                    && new_level.stairs@ == old_level.stairs@.push(Stairway { x: x as i8, y: y as i8,
                        destination: d, up: false }),
                None => new_level.traps@ == traps && new_level.stairs@ == old_level.stairs@,
            },
        LRegionType::Downstair | LRegionType::Upstair =>
            new_level.cells@ == old_level.cells@.update(cell_index(x, y),
                crate::dungeon::level::Cell { typ: CellType::Stairs, ..old_level.cell(x, y) })
            && new_level.traps@ == traps && new_level.flags == old_level.flags
            && match dest {
                Some(d) => new_level.stairs@ == old_level.stairs@.push(Stairway { x: x as i8, y: y as i8,
                    destination: d, up: rtype == LRegionType::Upstair }),
                None => new_level.stairs@ == old_level.stairs@,
            },
        LRegionType::Branch =>
            new_level.cells@ == old_level.cells@.update(cell_index(x, y),
                crate::dungeon::level::Cell { typ: CellType::Stairs, ..old_level.cell(x, y) })
            && new_level.traps@ == traps && new_level.stairs@ == old_level.stairs@
            && new_level.flags == (crate::dungeon::level::LevelFlags { has_branch: true, ..old_level.flags }),
    }
}

/// Index of the first trap at `(x, y)`.
pub open spec fn first_trap_at(traps: Seq<Trap>, x: int, y: int, i: int) -> bool {
    &&& 0 <= i < traps.len()
    &&& traps[i].x == x && traps[i].y == y
    &&& forall|j: int| 0 <= j < i ==> !(traps[j].x == x && traps[j].y == y)
}

/// The index of the first trap at `(x, y)` from index `j` on, or -1.
pub open spec fn trap_index_from(traps: Seq<Trap>, x: int, y: int, j: int) -> int
    decreases traps.len() - j,
{
    if j < 0 || j >= traps.len() {
        -1
    } else if traps[j].x == x && traps[j].y == y {
        j
    } else {
        trap_index_from(traps, x, y, j + 1)
    }
}

/// The traps after a one-shot placement failed at `(x, y)`: the first trap
/// there is gone unless it is a magic portal.
pub open spec fn cleared_trap(traps: Seq<Trap>, x: int, y: int) -> Seq<Trap> {
    let i = trap_index_from(traps, x, y, 0);
    if i >= 0 && traps[i].trap_type != TrapType::MagicPortal {
        traps.remove(i)
    } else {
        traps
    }
}

/// `n` failed one-shot placements at `(x, y)`.
pub open spec fn cleared_n(traps: Seq<Trap>, x: int, y: int, n: nat) -> Seq<Trap>
    decreases n,
{
    if n == 0 {
        traps
    } else {
        cleared_trap(cleared_n(traps, x, y, (n - 1) as nat), x, y)
    }
}

proof fn lemma_trap_index_from(traps: Seq<Trap>, x: int, y: int, j: int)
    requires
        0 <= j <= traps.len(),
    ensures
        ({
            let i = trap_index_from(traps, x, y, j);
            ||| (i == -1 && forall|k: int| j <= k < traps.len() ==> !(traps[k].x == x && traps[k].y == y))
            ||| (j <= i < traps.len() && traps[i].x == x && traps[i].y == y && forall|k: int| j <= k < i ==> !(
                traps[k].x == x && traps[k].y == y))
        }),
    decreases traps.len() - j,
{
    if j < traps.len() && !(traps[j].x == x && traps[j].y == y) {
        lemma_trap_index_from(traps, x, y, j + 1);
    }
}

/// The first trap at `(x, y)` is the one `trap_index_from` finds.
proof fn lemma_first_trap_index(traps: Seq<Trap>, x: int, y: int)
    ensures
        forall|i: int| first_trap_at(traps, x, y, i) ==> trap_index_from(traps, x, y, 0) == i,
        (forall|i: int| 0 <= i < traps.len() ==> !(traps[i].x == x && traps[i].y == y)) ==> trap_index_from(
            traps,
            x,
            y,
            0,
        ) == -1,
{
    lemma_trap_index_from(traps, x, y, 0);
}

fn find_trap_at(traps: &Vec<Trap>, x: i8, y: i8) -> (r: Option<usize>)
    ensures
        r matches Some(i) ==> first_trap_at(traps@, x as int, y as int, i as int),
        r is None ==> forall|i: int| 0 <= i < traps@.len() ==> !(traps@[i].x == x && traps@[i].y == y),
{
    let mut i: usize = 0;
    while i < traps.len()
        invariant
            i <= traps@.len(),
            forall|j: int| 0 <= j < i ==> !(traps@[j].x == x && traps@[j].y == y),
        decreases traps@.len() - i,
    {
        if traps[i].x == x && traps[i].y == y {
            return Some(i);
        }
        i = i + 1;
    }
    None
}

/// Whether `(x, y)` lies in the exclusion area.
pub open spec fn spot_excluded(exclude: LRegionArea, x: int, y: int) -> bool {
    !area_empty(exclude) && area_contains(exclude, x, y)
}

/// The traps a placement at `(x, y)` builds on: on a bad spot, a one-shot
/// placement first takes away the first trap there unless it is a magic
/// portal.
pub open spec fn put_traps(l: Level, traps: Seq<Trap>, exclude: LRegionArea, x: int, y: int) -> Seq<Trap> {
    if bad_spot(l, x, y, exclude) { cleared_trap(traps, x, y) } else { traps }
}

/// Place a level region feature at `(x, y)`.
///
/// On a good spot the feature of kind `rtype` is placed and the result is
/// true. On a bad spot nothing is placed unless `oneshot` is set: a one-shot
/// placement must happen there, so the first trap at the spot is removed
/// (a magic portal stays) and the feature is placed all the same; only a
/// spot inside the exclusion area still refuses it.
pub fn put_lregion_here(
    level: &mut Level,
    x: u8,
    y: u8,
    exclude: &LRegionArea,
    rtype: LRegionType,
    oneshot: bool,
    dest: Option<DLevel>,
) -> (r: bool)
    requires
        old(level).wf(),
        (x as int) < COLNO,
        (y as int) < ROWNO,
    ensures
        final(level).wf(),
        r == (!bad_spot(*old(level), x as int, y as int, *exclude) || (oneshot && !spot_excluded(
            *exclude,
            x as int,
            y as int,
        ))),
        r ==> placed_on(*old(level), put_traps(*old(level), old(level).traps@, *exclude, x as int, y as int),
            *final(level), x as int, y as int, rtype, dest),
        !r ==> final(level).cells@ == old(level).cells@ && final(level).stairs@ == old(level).stairs@
            && final(level).flags == old(level).flags && final(level).monsters@ == old(level).monsters@
            && final(level).objects@ == old(level).objects@ && final(level).dlevel == old(level).dlevel
            && final(level).explored@ == old(level).explored@,
        !r && !oneshot ==> final(level).traps@ == old(level).traps@,
        !r && oneshot ==> final(level).traps@ == cleared_trap(old(level).traps@, x as int, y as int),
{
    let ghost l0 = *level;
    if bad_location(level, x, y, exclude) {
        if !oneshot {
            return false;
        }
        proof {
            lemma_first_trap_index(level.traps@, x as int, y as int);
        }
        match find_trap_at(&level.traps, x as i8, y as i8) {
            Some(idx) => {
                if level.traps[idx].trap_type != TrapType::MagicPortal {
                    level.traps.remove(idx);
                }
            },
            None => {},
        }
        if !exclude.is_empty() && exclude.contains(x, y) {
            return false;
        }
    }
    proof {
        assert(level.cells@ == l0.cells@);
        assert(level.traps@ == put_traps(l0, l0.traps@, *exclude, x as int, y as int));
    }
    match rtype {
        LRegionType::Tele | LRegionType::UpTele | LRegionType::DownTele => {
            level.set_cell_type(x as usize, y as usize, CellType::Room);
            true
        },
        LRegionType::Portal => {
            if let Some(destination) = dest {
                level.add_trap(x as i8, y as i8, TrapType::MagicPortal);
                level.stairs.push(Stairway { x: x as i8, y: y as i8, destination, up: false });
            }
            true
        },
        LRegionType::Downstair => {
            level.set_cell_type(x as usize, y as usize, CellType::Stairs);
            if let Some(destination) = dest {
                level.stairs.push(Stairway { x: x as i8, y: y as i8, destination, up: false });
            }
            true
        },
        LRegionType::Upstair => {
            level.set_cell_type(x as usize, y as usize, CellType::Stairs);
            if let Some(destination) = dest {
                level.stairs.push(Stairway { x: x as i8, y: y as i8, destination, up: true });
            }
            true
        },
        LRegionType::Branch => {
            level.set_cell_type(x as usize, y as usize, CellType::Stairs);
            level.flags.has_branch = true;
            true
        },
    }
}

/// The search rectangle of `place_lregion`: the whole map for the empty area.
pub open spec fn search_box(area: LRegionArea) -> (int, int, int, int) {
    if area_empty(area) {
        (1, 0, COLNO - 1, ROWNO - 1)
    } else {
        (area.x1 as int, area.y1 as int, area.x2 as int, area.y2 as int)
    }
}

/// The spot the `k`-th random try of `place_lregion` draws from state `s`.
pub open spec fn lregion_try(area: LRegionArea, s: u64, k: nat) -> (int, int) {
    let b = search_box(area);
    let st = steps(s, 2 * k);
    (b.0 + rn2_at(st, (b.2 - b.0 + 1) as u32), b.1 + rn2_at(step(st), (b.3 - b.1 + 1) as u32))
}

/// Whether the search area is a single cell: its tries are one-shot.
pub open spec fn single_cell(area: LRegionArea) -> bool {
    search_box(area).0 == search_box(area).2 && search_box(area).1 == search_box(area).3
}

/// Whether a random try at `(x, y)` places the feature: on a good spot, or,
/// for a one-cell area, on any spot outside the exclusion area.
pub open spec fn try_places(l: Level, area: LRegionArea, exclude: LRegionArea, x: int, y: int) -> bool {
    !bad_spot(l, x, y, exclude) || (single_cell(area) && !spot_excluded(exclude, x, y))
}

/// The first of the random tries `k..200` that places the feature, or 200
/// when none does.
pub open spec fn first_good_try(l: Level, area: LRegionArea, exclude: LRegionArea, s: u64, k: nat) -> nat
    decreases 200 - k,
{
    if k >= 200 {
        200
    } else if try_places(l, area, exclude, lregion_try(area, s, k).0, lregion_try(area, s, k).1) {
        k
    } else {
        first_good_try(l, area, exclude, s, k + 1)
    }
}

/// The first good try is never before the one the search starts from.
proof fn lemma_first_good_try_ge(l: Level, area: LRegionArea, exclude: LRegionArea, s: u64, k: nat)
    requires
        k <= 200,
    ensures
        first_good_try(l, area, exclude, s, k) >= k,
    decreases 200 - k,
{
    if k < 200 {
        lemma_first_good_try_ge(l, area, exclude, s, k + 1);
    }
}

/// Every random try on a one-cell area lands on that cell.
proof fn lemma_oneshot_tries_bad(l: Level, area: LRegionArea, exclude: LRegionArea, s: u64, k: nat)
    requires
        single_cell(area),
        !try_places(l, area, exclude, search_box(area).0, search_box(area).1),
    ensures
        first_good_try(l, area, exclude, s, k) == 200,
    decreases 200 - k,
{
    if k < 200 {
        let st = steps(s, 2 * k);
        assert(rn2_at(st, 1) == 0);
        assert(rn2_at(step(st), 1) == 0);
        lemma_oneshot_tries_bad(l, area, exclude, s, k + 1);
    }
}

/// The ordered search of column `x` from row `y` to `hy`, whose placements
/// are one-shot: the traps after the failed placements on the excluded cells
/// passed, and the first cell outside the exclusion area, if any.
pub open spec fn scan_column(l: Level, traps: Seq<Trap>, exclude: LRegionArea, x: int, y: int, hy: int) -> (
    Seq<Trap>,
    Option<(int, int)>,
)
    decreases hy + 1 - y,
{
    if y > hy {
        (traps, None)
    } else if !spot_excluded(exclude, x, y) {
        (traps, Some((x, y)))
    } else {
        scan_column(l, cleared_trap(traps, x, y), exclude, x, y + 1, hy)
    }
}

/// The ordered search of columns `x..=hx`, rows `ly..=hy`, column by column.
pub open spec fn scan_area(l: Level, traps: Seq<Trap>, exclude: LRegionArea, x: int, hx: int, ly: int, hy: int) -> (
    Seq<Trap>,
    Option<(int, int)>,
)
    decreases hx + 1 - x,
{
    if x > hx {
        (traps, None)
    } else {
        let c = scan_column(l, traps, exclude, x, ly, hy);
        if c.1 is Some {
            c
        } else {
            scan_area(l, c.0, exclude, x + 1, hx, ly, hy)
        }
    }
}

/// The ordered search from cell `(x, y)` on.
pub open spec fn scan_from(l: Level, traps: Seq<Trap>, exclude: LRegionArea, x: int, y: int, hx: int, ly: int, hy: int) -> (
    Seq<Trap>,
    Option<(int, int)>,
) {
    let c = scan_column(l, traps, exclude, x, y, hy);
    if c.1 is Some {
        c
    } else {
        scan_area(l, c.0, exclude, x + 1, hx, ly, hy)
    }
}

/// The traps when the ordered search starts: on a one-cell area each of the
/// 200 failed random tries was a failed one-shot placement.
pub open spec fn traps_before_scan(l: Level, area: LRegionArea) -> Seq<Trap> {
    let b = search_box(area);
    if b.0 == b.2 && b.1 == b.3 {
        cleared_n(l.traps@, b.0, b.1, 200)
    } else {
        l.traps@
    }
}

/// Place a level region in an area.
///
/// Up to 200 random spots of the area are tried (one-shot placements when
/// the area is a single cell), then every spot in order with a one-shot
/// placement, which places the feature on the first spot outside the
/// exclusion area; the result is false only when the whole area is excluded.
pub fn place_lregion(
    level: &mut Level,
    area: &LRegionArea,
    exclude: &LRegionArea,
    rtype: LRegionType,
    dest: Option<DLevel>,
    rng: &mut GameRng,
) -> (r: bool)
    requires
        old(level).wf(),
        area_empty(*area) || (area.x1 <= area.x2 && area.y1 <= area.y2 && (area.x2 as int) < COLNO
            && (area.y2 as int) < ROWNO),
    ensures
        final(level).wf(),
        final(level).dlevel == old(level).dlevel,
        !r ==> final(level).cells@ == old(level).cells@,
        r == exists|x: int, y: int| search_box(*area).0 <= x <= search_box(*area).2 && search_box(*area).1 <= y
            <= search_box(*area).3 && !spot_excluded(*exclude, x, y),
        ({
            let k = first_good_try(*old(level), *area, *exclude, old(rng)@, 0);
            let t = lregion_try(*area, old(rng)@, k);
            &&& k < 200 ==> r && placed_on(*old(level), put_traps(*old(level), old(level).traps@, *exclude, t.0, t.1),
                *final(level), t.0, t.1, rtype, dest) && final(rng)@ == steps(old(rng)@, 2 * k + 2)
            &&& k >= 200 ==> final(rng)@ == steps(old(rng)@, 400)
        }),
        ({
            let b = search_box(*area);
            let sc = scan_area(*old(level), traps_before_scan(*old(level), *area), *exclude, b.0, b.2, b.1, b.3);
            first_good_try(*old(level), *area, *exclude, old(rng)@, 0) >= 200 ==> match sc.1 {
                Some(p) => r && placed_on(*old(level), put_traps(*old(level), sc.0, *exclude, p.0, p.1), *final(level),
                    p.0, p.1, rtype, dest),
                None => !r && final(level).traps@ == sc.0 && final(level).stairs@ == old(level).stairs@
                    && final(level).flags == old(level).flags && final(level).monsters@ == old(level).monsters@
                    && final(level).objects@ == old(level).objects@ && final(level).explored@ == old(level).explored@,
            }
        }),
{
    let (lx, ly, hx, hy): (u8, u8, u8, u8) = if area.is_empty() {
        (1u8, 0u8, (COLNO - 1) as u8, (ROWNO - 1) as u8)
    } else {
        (area.x1, area.y1, area.x2, area.y2)
    };
    let oneshot = lx == hx && ly == hy;
    let ghost s0 = old(rng)@;
    let ghost k0 = first_good_try(*old(level), *area, *exclude, s0, 0);
    let mut tries: u32 = 0;
    while tries < 200
        invariant
            level.wf(),
            level.dlevel == old(level).dlevel,
            lx <= hx,
            ly <= hy,
            (hx as int) < COLNO,
            (hy as int) < ROWNO,
            lx == search_box(*area).0 && ly == search_box(*area).1,
            hx == search_box(*area).2 && hy == search_box(*area).3,
            oneshot == (lx == hx && ly == hy),
            oneshot == single_cell(*area),
            s0 == old(rng)@,
            k0 == first_good_try(*old(level), *area, *exclude, s0, 0),
            tries <= 200,
            tries <= k0,
            k0 == first_good_try(*old(level), *area, *exclude, s0, tries as nat),
            rng@ == steps(s0, (2 * tries) as nat),
            level.cells@ == old(level).cells@,
            oneshot && tries > 0 ==> k0 == 200,
            level.traps@ == (if oneshot { cleared_n(old(level).traps@, lx as int, ly as int, tries as nat) } else {
                old(level).traps@
            }),
            level.stairs@ == old(level).stairs@ && level.flags == old(level).flags,
            level.monsters@ == old(level).monsters@ && level.objects@ == old(level).objects@,
            level.explored@ == old(level).explored@,
        decreases 200 - tries,
    {
        let ghost st = rng@;
        let x = (rng.rn2((hx - lx + 1) as u32) + lx as u32) as u8;
        let y = (rng.rn2((hy - ly + 1) as u32) + ly as u32) as u8;
        proof {
            assert(lregion_try(*area, s0, tries as nat) == (x as int, y as int));
            lemma_steps_succ(s0, (2 * tries) as nat);
            lemma_steps_succ(s0, (2 * tries + 1) as nat);
            if oneshot {
                assert(x == lx && y == ly);
            }
        }
        let ghost before = *level;
        if put_lregion_here(level, x, y, exclude, rtype, oneshot, dest) {
            proof {
                assert(bad_spot(before, x as int, y as int, *exclude) == bad_spot(*old(level), x as int, y as int,
                    *exclude));
                assert(search_box(*area).0 <= x <= search_box(*area).2 && search_box(*area).1 <= y
                    <= search_box(*area).3 && !spot_excluded(*exclude, x as int, y as int));
                assert(before.traps@ == old(level).traps@);
            }
            return true;
        }
        proof {
            assert(bad_spot(before, x as int, y as int, *exclude) == bad_spot(*old(level), x as int, y as int,
                *exclude));
            assert(first_good_try(*old(level), *area, *exclude, s0, tries as nat) == first_good_try(*old(level),
                *area, *exclude, s0, (tries + 1) as nat));
            lemma_first_good_try_ge(*old(level), *area, *exclude, s0, (tries + 1) as nat);
            if oneshot {
                lemma_oneshot_tries_bad(*old(level), *area, *exclude, s0, 0);
            }
        }
        tries = tries + 1;
    }
    let ghost sc = scan_area(*old(level), traps_before_scan(*old(level), *area), *exclude, lx as int, hx as int,
        ly as int, hy as int);
    proof {
        assert(level.traps@ == traps_before_scan(*old(level), *area));
    }
    let mut x: u8 = lx;
    while x <= hx
        invariant
            sc == scan_area(*old(level), level.traps@, *exclude, x as int, hx as int, ly as int, hy as int),
            sc == scan_area(*old(level), traps_before_scan(*old(level), *area), *exclude, search_box(*area).0,
                search_box(*area).2, search_box(*area).1, search_box(*area).3),
            level.stairs@ == old(level).stairs@ && level.flags == old(level).flags,
            level.monsters@ == old(level).monsters@ && level.objects@ == old(level).objects@,
            level.explored@ == old(level).explored@,
            level.wf(),
            level.dlevel == old(level).dlevel,
            lx <= x,
            x <= hx + 1,
            lx <= hx,
            ly <= hy,
            (hx as int) < COLNO,
            (hy as int) < ROWNO,
            lx == search_box(*area).0 && ly == search_box(*area).1,
            hx == search_box(*area).2 && hy == search_box(*area).3,
            forall|xx: int, yy: int| lx <= xx < x && ly <= yy <= hy ==> #[trigger] spot_excluded(*exclude, xx, yy),
            k0 == 200,
            s0 == old(rng)@,
            k0 == first_good_try(*old(level), *area, *exclude, s0, 0),
            rng@ == steps(s0, 400),
            level.cells@ == old(level).cells@,
        decreases hx + 1 - x,
    {
        proof {
            assert(scan_from(*old(level), level.traps@, *exclude, x as int, ly as int, hx as int, ly as int, hy as int)
                == scan_area(*old(level), level.traps@, *exclude, x as int, hx as int, ly as int, hy as int));
        }
        let mut y: u8 = ly;
        while y <= hy
            invariant
                sc == scan_from(*old(level), level.traps@, *exclude, x as int, y as int, hx as int, ly as int,
                    hy as int),
                sc == scan_area(*old(level), traps_before_scan(*old(level), *area), *exclude, search_box(*area).0,
                    search_box(*area).2, search_box(*area).1, search_box(*area).3),
                level.stairs@ == old(level).stairs@ && level.flags == old(level).flags,
                level.monsters@ == old(level).monsters@ && level.objects@ == old(level).objects@,
                level.explored@ == old(level).explored@,
                level.wf(),
                level.dlevel == old(level).dlevel,
                lx <= x <= hx,
                ly <= y,
                y <= hy + 1,
                ly <= hy,
                (hx as int) < COLNO,
                (hy as int) < ROWNO,
                lx == search_box(*area).0 && ly == search_box(*area).1,
                hx == search_box(*area).2 && hy == search_box(*area).3,
                forall|xx: int, yy: int| lx <= xx < x && ly <= yy <= hy ==> #[trigger] spot_excluded(*exclude, xx, yy),
                forall|yy: int| ly <= yy < y ==> #[trigger] spot_excluded(*exclude, x as int, yy),
                k0 == 200,
                s0 == old(rng)@,
                k0 == first_good_try(*old(level), *area, *exclude, s0, 0),
                rng@ == steps(s0, 400),
                level.cells@ == old(level).cells@,
            decreases hy + 1 - y,
        {
            let ghost before = *level;
            if put_lregion_here(level, x, y, exclude, rtype, true, dest) {
                proof {
                    assert(before.cell(x as int, y as int) == old(level).cell(x as int, y as int));
                    assert(scan_column(*old(level), before.traps@, *exclude, x as int, y as int, hy as int) == (
                        before.traps@,
                        Some((x as int, y as int)),
                    ));
                    assert(search_box(*area).0 <= x <= search_box(*area).2 && search_box(*area).1 <= y
                        <= search_box(*area).3 && !spot_excluded(*exclude, x as int, y as int));
                }
                return true;
            }
            proof {
                assert(before.cell(x as int, y as int) == old(level).cell(x as int, y as int));
                assert(scan_column(*old(level), before.traps@, *exclude, x as int, y as int, hy as int)
                    == scan_column(*old(level), level.traps@, *exclude, x as int, y as int + 1, hy as int));
            }
            y = y + 1;
        }
        proof {
            assert(scan_column(*old(level), level.traps@, *exclude, x as int, y as int, hy as int) == (
                level.traps@,
                None::<(int, int)>,
            ));
        }
        x = x + 1;
    }
    proof {
        assert(scan_area(*old(level), level.traps@, *exclude, x as int, hx as int, ly as int, hy as int) == (
            level.traps@,
            None::<(int, int)>,
        ));
        assert forall|xx: int, yy: int| search_box(*area).0 <= xx <= search_box(*area).2 && search_box(*area).1 <= yy
            <= search_box(*area).3 implies spot_excluded(*exclude, xx, yy) by {
            assert(spot_excluded(*exclude, xx, yy));
        }
    }
    false
}

} // verus!
