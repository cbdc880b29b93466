//! The map of one dungeon level: terrain cells, traps, monsters, objects and
//! stairs, with the level's identity in the dungeon.

use vstd::prelude::*;
use crate::rng::{GameRng, rn2_at, step};
use crate::monster::Monster;
use crate::object::Object;

verus! {

/// Number of map columns.
pub const COLNO: usize = 80;

/// Number of map rows.
pub const ROWNO: usize = 21;

/// Number of cells of a level map.
pub const NCELLS: usize = 1680;

/// A level's identity: which dungeon and which level in it.
#[derive(Debug, Clone, Copy, PartialEq, Eq, Structural)]
pub struct DLevel {
    pub dungeon_num: i8,
    pub level_num: i8,
}

impl DLevel {
    /// Level `level_num` of dungeon `dungeon_num`.
    pub fn new(dungeon_num: i8, level_num: i8) -> (d: DLevel)
        ensures
            d.dungeon_num == dungeon_num,
            d.level_num == level_num,
    {
        DLevel { dungeon_num, level_num }
    }

    /// The difficulty depth of the level.
    pub fn depth(&self) -> (r: i32)
        ensures
            r == self.level_num,
    {
        self.level_num as i32
    }

    /// Whether the level belongs to the main dungeon.
    pub fn is_main_dungeon(&self) -> (r: bool)
        ensures
            r == (self.dungeon_num == 0),
    {
        self.dungeon_num == 0
    }
}

impl Default for DLevel {
    /// The first level of the main dungeon.
    fn default() -> (d: DLevel)
        ensures
            d.dungeon_num == 0,
            d.level_num == 1,
    {
        DLevel { dungeon_num: 0, level_num: 1 }
    }
}

/// Kinds of traps.
#[derive(Debug, Clone, Copy, PartialEq, Eq, Structural)]
pub enum TrapType {
    Arrow,
    Dart,
    RockFall,
    Squeaky,
    BearTrap,
    LandMine,
    RollingBoulder,
    SleepingGas,
    RustTrap,
    FireTrap,
    Pit,
    SpikedPit,
    Hole,
    TrapDoor,
    Teleport,
    LevelTeleport,
    MagicPortal,
    Web,
    Statue,
    MagicTrap,
    AntiMagic,
    Polymorph,
}

/// A trap placed on a level.
#[derive(Debug, Clone, Copy, PartialEq, Eq, Structural)]
pub struct Trap {
    pub x: i8,
    pub y: i8,
    pub trap_type: TrapType,
    pub activated: bool,
    pub seen: bool,
    pub once: bool,
    pub madeby_u: bool,
    pub launch_oid: Option<u32>,
}

/// Terrain of a map cell.
#[derive(Debug, Clone, Copy, PartialEq, Eq, Structural)]
pub enum CellType {
    Stone,
    VWall,
    HWall,
    TLCorner,
    TRCorner,
    BLCorner,
    BRCorner,
    CrossWall,
    TUWall,
    TDWall,
    TLWall,
    TRWall,
    DBWall,
    Tree,
    SecretDoor,
    SecretCorridor,
    Pool,
    Moat,
    Water,
    DrawbridgeUp,
    Lava,
    IronBars,
    Door,
    Corridor,
    Room,
    Stairs,
    Ladder,
    Fountain,
    Throne,
    Sink,
    Grave,
    Altar,
    Ice,
    DrawbridgeDown,
    Air,
    Cloud,
}

/// Whether a terrain kind is a wall.
pub open spec fn is_wall_type(t: CellType) -> bool {
    matches!(t, CellType::VWall | CellType::HWall | CellType::TLCorner | CellType::TRCorner
        | CellType::BLCorner | CellType::BRCorner | CellType::CrossWall | CellType::TUWall
        | CellType::TDWall | CellType::TLWall | CellType::TRWall | CellType::DBWall)
}

impl CellType {
    /// Whether this terrain is a wall.
    pub fn is_wall(&self) -> (r: bool)
        ensures
            r == is_wall_type(*self),
    {
        matches!(self, CellType::VWall | CellType::HWall | CellType::TLCorner | CellType::TRCorner
            | CellType::BLCorner | CellType::BRCorner | CellType::CrossWall | CellType::TUWall
            | CellType::TDWall | CellType::TLWall | CellType::TRWall | CellType::DBWall)
    }
}

/// One map cell.
#[derive(Debug, Clone, Copy, PartialEq, Eq, Structural)]
pub struct Cell {
    pub typ: CellType,
    pub lit: bool,
    pub flags: u8,
    pub explored: bool,
}

/// Stairs or portal leading to another level.
#[derive(Debug, Clone, Copy, PartialEq, Eq, Structural)]
pub struct Stairway {
    pub x: i8,
    pub y: i8,
    pub destination: DLevel,
    pub up: bool,
}

/// Level-wide flags.
#[derive(Debug, Clone, Copy, PartialEq, Eq, Structural)]
pub struct LevelFlags {
    pub no_teleport: bool,
    pub has_branch: bool,
}

/// Index of cell `(x, y)` in a level's cell vector.
pub open spec fn cell_index(x: int, y: int) -> int {
    x * (ROWNO as int) + y
}

/// A whole level map.
#[derive(Debug, Clone)]
pub struct Level {
    pub dlevel: DLevel,
    /// Cells in column-major order: cell `(x, y)` is at `x * ROWNO + y`.
    pub cells: Vec<Cell>,
    /// Whether the hero has seen cell `(x, y)`, in the same order.
    pub explored: Vec<bool>,
    pub traps: Vec<Trap>,
    pub monsters: Vec<Monster>,
    pub objects: Vec<Object>,
    pub stairs: Vec<Stairway>,
    pub flags: LevelFlags,
}

impl Level {
    /// The map holds one cell and one seen-flag for each position.
    pub open spec fn wf(&self) -> bool {
        &&& self.cells@.len() == NCELLS
        &&& self.explored@.len() == NCELLS
    }

    /// Cell `(x, y)`.
    pub open spec fn cell(&self, x: int, y: int) -> Cell {
        self.cells@[cell_index(x, y)]
    }

    /// Whether cell `(x, y)` has been seen.
    pub open spec fn seen(&self, x: int, y: int) -> bool {
        self.explored@[cell_index(x, y)]
    }

    /// An empty level: all stone, unlit, unseen, with nothing on it.
    pub fn new(dlevel: DLevel) -> (l: Level)
        ensures
            l.wf(),
            l.dlevel == dlevel,
            forall|i: int| 0 <= i < NCELLS ==> l.cells@[i] == (Cell {
                typ: CellType::Stone, lit: false, flags: 0, explored: false }),
            forall|i: int| 0 <= i < NCELLS ==> !l.explored@[i],
            l.traps@.len() == 0,
            l.monsters@.len() == 0,
            l.objects@.len() == 0,
            l.stairs@.len() == 0,
            !l.flags.no_teleport && !l.flags.has_branch,
    {
        let mut cells: Vec<Cell> = Vec::new();
        let mut explored: Vec<bool> = Vec::new();
        let mut i: usize = 0;
        while i < NCELLS
            invariant
                i <= NCELLS,
                cells@.len() == i,
                explored@.len() == i,
                forall|j: int| 0 <= j < i ==> cells@[j] == (Cell {
                    typ: CellType::Stone, lit: false, flags: 0, explored: false }),
                forall|j: int| 0 <= j < i ==> !explored@[j],
            decreases NCELLS - i,
        {
            cells.push(Cell { typ: CellType::Stone, lit: false, flags: 0, explored: false });
            explored.push(false);
            i = i + 1;
        }
        Level {
            dlevel,
            cells,
            explored,
            traps: Vec::new(),
            monsters: Vec::new(),
            objects: Vec::new(),
            stairs: Vec::new(),
            flags: LevelFlags { no_teleport: false, has_branch: false },
        }
    }

    /// Cell `(x, y)`.
    pub fn get_cell(&self, x: usize, y: usize) -> (c: Cell)
        requires
            self.wf(),
            x < COLNO,
            y < ROWNO,
        ensures
            c == self.cell(x as int, y as int),
    {
        self.cells[x * ROWNO + y]
    }

    /// Terrain of cell `(x, y)`.
    pub fn cell_type(&self, x: usize, y: usize) -> (t: CellType)
        requires
            self.wf(),
            x < COLNO,
            y < ROWNO,
        ensures
            t == self.cell(x as int, y as int).typ,
    {
        self.cells[x * ROWNO + y].typ
    }

    /// Replace cell `(x, y)`.
    pub fn set_cell(&mut self, x: usize, y: usize, c: Cell)
        requires
            old(self).wf(),
            x < COLNO,
            y < ROWNO,
        ensures
            final(self).wf(),
            final(self).cells@ == old(self).cells@.update(cell_index(x as int, y as int), c),
            final(self).explored@ == old(self).explored@,
            final(self).dlevel == old(self).dlevel,
            final(self).traps@ == old(self).traps@,
            final(self).monsters@ == old(self).monsters@,
            final(self).objects@ == old(self).objects@,
            final(self).stairs@ == old(self).stairs@,
            final(self).flags == old(self).flags,
    {
        self.cells.set(x * ROWNO + y, c);
    }

    /// Set the terrain of cell `(x, y)`, keeping its other attributes.
    pub fn set_cell_type(&mut self, x: usize, y: usize, t: CellType)
        requires
            old(self).wf(),
            x < COLNO,
            y < ROWNO,
        ensures
            final(self).wf(),
            final(self).cells@ == old(self).cells@.update(cell_index(x as int, y as int),
                Cell { typ: t, ..old(self).cell(x as int, y as int) }),
            final(self).explored@ == old(self).explored@,
            final(self).dlevel == old(self).dlevel,
            final(self).traps@ == old(self).traps@,
            final(self).monsters@ == old(self).monsters@,
            final(self).objects@ == old(self).objects@,
            final(self).stairs@ == old(self).stairs@,
            final(self).flags == old(self).flags,
    {
        let mut c = self.cells[x * ROWNO + y];
        c.typ = t;
        self.cells.set(x * ROWNO + y, c);
    }

    /// Set whether cell `(x, y)` is lit.
    pub fn set_lit(&mut self, x: usize, y: usize, lit: bool)
        requires
            old(self).wf(),
            x < COLNO,
            y < ROWNO,
        ensures
            final(self).wf(),
            final(self).cells@ == old(self).cells@.update(cell_index(x as int, y as int),
                Cell { lit: lit, ..old(self).cell(x as int, y as int) }),
            final(self).explored@ == old(self).explored@,
            final(self).dlevel == old(self).dlevel,
            final(self).traps@ == old(self).traps@,
            final(self).monsters@ == old(self).monsters@,
            final(self).objects@ == old(self).objects@,
            final(self).stairs@ == old(self).stairs@,
            final(self).flags == old(self).flags,
    {
        let mut c = self.cells[x * ROWNO + y];
        c.lit = lit;
        self.cells.set(x * ROWNO + y, c);
    }

    /// Whether cell `(x, y)` has been seen.
    pub fn is_explored(&self, x: usize, y: usize) -> (r: bool)
        requires
            self.wf(),
            x < COLNO,
            y < ROWNO,
        ensures
            r == self.seen(x as int, y as int),
    {
        self.explored[x * ROWNO + y]
    }

    /// Mark cell `(x, y)` as seen.
    pub fn mark_explored(&mut self, x: usize, y: usize)
        requires
            old(self).wf(),
            x < COLNO,
            y < ROWNO,
        ensures
            final(self).wf(),
            final(self).explored@ == old(self).explored@.update(cell_index(x as int, y as int), true),
            final(self).cells@ == old(self).cells@,
            final(self).dlevel == old(self).dlevel,
            final(self).traps@ == old(self).traps@,
            final(self).monsters@ == old(self).monsters@,
            final(self).objects@ == old(self).objects@,
            final(self).stairs@ == old(self).stairs@,
            final(self).flags == old(self).flags,
    {
        self.explored.set(x * ROWNO + y, true);
    }

    /// Whether `(x, y)` lies on the map (column 0 is never used).
    pub fn is_valid_pos(&self, x: i8, y: i8) -> (r: bool)
        ensures
            r == (1 <= x < COLNO && 0 <= y < ROWNO),
    {
        x >= 1 && (x as usize) < COLNO && y >= 0 && (y as usize) < ROWNO
    }

    /// Index of the first monster standing at `(x, y)`.
    pub fn monster_at(&self, x: i8, y: i8) -> (r: Option<usize>)
        ensures
            r matches Some(i) ==> i < self.monsters@.len() && self.monsters@[i as int].x == x
                && self.monsters@[i as int].y == y,
            r is None <==> forall|i: int| 0 <= i < self.monsters@.len() ==> !(
                self.monsters@[i].x == x && self.monsters@[i].y == y),
    {
        let mut i: usize = 0;
        while i < self.monsters.len()
            invariant
                i <= self.monsters@.len(),
                forall|j: int| 0 <= j < i ==> !(self.monsters@[j].x == x && self.monsters@[j].y == y),
            decreases self.monsters@.len() - i,
        {
            if self.monsters[i].x == x && self.monsters[i].y == y {
                return Some(i);
            }
            i = i + 1;
        }
        None
    }

    /// Put a monster on the level.
    pub fn add_monster(&mut self, m: Monster)
        ensures
            final(self).monsters@ == old(self).monsters@.push(m),
            final(self).cells@ == old(self).cells@,
            final(self).explored@ == old(self).explored@,
            final(self).dlevel == old(self).dlevel,
            final(self).traps@ == old(self).traps@,
            final(self).objects@ == old(self).objects@,
            final(self).stairs@ == old(self).stairs@,
            final(self).flags == old(self).flags,
    {
        self.monsters.push(m);
    }

    /// Put an object on the level at `(x, y)`.
    pub fn add_object(&mut self, o: Object, x: i8, y: i8)
        ensures
            final(self).objects@ == old(self).objects@.push(Object { x: x, y: y, ..o }),
            final(self).cells@ == old(self).cells@,
            final(self).explored@ == old(self).explored@,
            final(self).dlevel == old(self).dlevel,
            final(self).traps@ == old(self).traps@,
            final(self).monsters@ == old(self).monsters@,
            final(self).stairs@ == old(self).stairs@,
            final(self).flags == old(self).flags,
    {
        let mut o = o;
        o.x = x;
        o.y = y;
        self.objects.push(o);
    }

    /// Place a new, unseen trap of kind `t` at `(x, y)`.
    pub fn add_trap(&mut self, x: i8, y: i8, t: TrapType)
        ensures
            final(self).traps@ == old(self).traps@.push(Trap {
                x: x, y: y, trap_type: t, activated: false, seen: false,
                once: t == TrapType::LandMine, madeby_u: false, launch_oid: None }),
            final(self).cells@ == old(self).cells@,
            final(self).explored@ == old(self).explored@,
            final(self).dlevel == old(self).dlevel,
            final(self).monsters@ == old(self).monsters@,
            final(self).objects@ == old(self).objects@,
            final(self).stairs@ == old(self).stairs@,
            final(self).flags == old(self).flags,
    {
        let once = matches!(t, TrapType::LandMine);
        self.traps.push(Trap {
            x, y, trap_type: t, activated: false, seen: false, once, madeby_u: false, launch_oid: None });
    }
}

/// Kinds of rooms.
#[derive(Debug, Clone, Copy, PartialEq, Eq, Structural)]
pub enum RoomType {
    Ordinary,
    Court,
    Swamp,
    Vault,
    Beehive,
    Morgue,
    Barracks,
    Zoo,
    Delphi,
    Temple,
    LeprechaunHall,
    CockatriceNest,
    Anthole,
    GeneralShop,
    ArmorShop,
    ScrollShop,
    PotionShop,
    WeaponShop,
    FoodShop,
    RingShop,
    WandShop,
    ToolShop,
    BookShop,
    HealthFoodShop,
    CandleShop,
}

/// A rectangular room: columns `x..x+width`, rows `y..y+height`.
#[derive(Debug, Clone, Copy, PartialEq, Eq, Structural)]
pub struct Room {
    pub x: usize,
    pub y: usize,
    pub width: usize,
    pub height: usize,
    pub room_type: RoomType,
    pub lit: bool,
}

impl Room {
    /// The room lies inside the map with room for its walls around it.
    pub open spec fn fits(&self) -> bool {
        &&& 1 <= self.x
        &&& 1 <= self.y
        &&& 1 <= self.width
        &&& 1 <= self.height
        &&& self.x + self.width < COLNO
        &&& self.y + self.height < ROWNO
    }

    /// A lit room of kind `room_type`.
    pub fn with_type(x: usize, y: usize, width: usize, height: usize, room_type: RoomType) -> (r: Room)
        ensures
            r == (Room { x: x, y: y, width: width, height: height, room_type: room_type, lit: true }),
    {
        Room { x, y, width, height, room_type, lit: true }
    }

    /// The middle cell of the room (rounded down).
    pub fn center(&self) -> (c: (usize, usize))
        requires
            self.fits(),
        ensures
            c.0 == self.x + self.width / 2,
            c.1 == self.y + self.height / 2,
    {
        (self.x + self.width / 2, self.y + self.height / 2)
    }

    /// A cell of the room drawn at random, column first.
    pub fn random_point(&self, rng: &mut GameRng) -> (p: (usize, usize))
        requires
            self.fits(),
        ensures
            p.0 == self.x + rn2_at(old(rng)@, self.width as u32),
            p.1 == self.y + rn2_at(step(old(rng)@), self.height as u32),
            final(rng)@ == step(step(old(rng)@)),
    {
        let dx = rng.rn2(self.width as u32) as usize;
        let dy = rng.rn2(self.height as u32) as usize;
        (self.x + dx, self.y + dy)
    }
}

} // verus!
