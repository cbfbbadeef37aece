//! The dungeon map model: a fixed 80 x 50 row-major tile grid, a parallel
//! blocked-tile array, a parallel per-tile occupant index, and the room list
//! produced by generation.

use vstd::prelude::*;
use crate::rng::Rng;
use vstd::math::{max, min};

verus! {

/// Width of the tile grid, in tiles.
pub const MAP_WIDTH: usize = 80;
/// Height of the tile grid, in tiles.
pub const MAP_HEIGHT: usize = 50;
/// Total number of tiles in the grid.
pub const MAP_TILE_COUNT: usize = 4000;

#[derive(Clone, Copy, PartialEq, Eq, Structural, Debug)]
pub enum TileType {
    Wall,
    Floor,
}

/// Row-major index of the tile at `(x, y)`.
pub open spec fn spec_xy_idx(x: int, y: int) -> int {
    y * 80 + x
}

/// Converts grid coordinates to the row-major tile index.  Out-of-range
/// coordinates are a programming error, so the range is a checked contract.
pub fn xy_idx(x: i32, y: i32) -> (idx: usize)
    requires
        0 <= x < 80,
        0 <= y < 50,
    ensures
        idx == spec_xy_idx(x as int, y as int),
        idx < 4000,
{
    (y as usize) * 80 + (x as usize)
}

/// An axis-aligned room: the closed box `x1..=x2` by `y1..=y2`.
#[derive(Clone, Copy, PartialEq, Eq, Structural, Debug)]
pub struct Rect {
    pub x1: i32,
    pub y1: i32,
    pub x2: i32,
    pub y2: i32,
}

impl Rect {
    pub open spec fn spec_intersect(self, other: Rect) -> bool {
        self.x1 <= other.x2 && self.x2 >= other.x1 && self.y1 <= other.y2 && self.y2 >= other.y1
    }

    /// The rectangle lies inside the map and has positive extent.
    pub open spec fn in_bounds(self) -> bool {
        0 <= self.x1 <= self.x2 < 80 && 0 <= self.y1 <= self.y2 < 50
    }

    pub fn new(x: i32, y: i32, w: i32, h: i32) -> (r: Rect)
        requires
            0 <= x,
            0 <= y,
            0 <= w,
            0 <= h,
            x + w < 0x1000,
            y + h < 0x1000,
        ensures
            r.x1 == x,
            r.y1 == y,
            r.x2 == x + w,
            r.y2 == y + h,
    {
        Rect { x1: x, y1: y, x2: x + w, y2: y + h }
    }

    /// True when the two rectangles overlap or touch.
    pub fn intersect(&self, other: &Rect) -> (r: bool)
        ensures
            r == self.spec_intersect(*other),
    {
        self.x1 <= other.x2 && self.x2 >= other.x1 && self.y1 <= other.y2 && self.y2 >= other.y1
    }

    /// Centre of the rectangle, rounded toward the origin.
    pub fn center(&self) -> (c: (i32, i32))
        requires
            0 <= self.x1 <= self.x2 < 0x1000,
            0 <= self.y1 <= self.y2 < 0x1000,
        ensures
            c.0 == (self.x1 + self.x2) / 2,
            c.1 == (self.y1 + self.y2) / 2,
    {
        ((self.x1 + self.x2) / 2, (self.y1 + self.y2) / 2)
    }
}

/// The dungeon map.  `tiles`, `blocked`, `tile_content`, `revealed_tiles` and
/// `visible_tiles` are parallel arrays over the row-major tile index.
pub struct GameMap {
    pub tiles: Vec<TileType>,
    pub rooms: Vec<Rect>,
    pub width: i32,
    pub height: i32,
    /// True where movement is refused: walls, plus tiles occupied by a
    /// blocking entity (rebuilt each turn by the map indexer).
    pub blocked: Vec<bool>,
    /// The entities standing on each tile (rebuilt each turn by the map
    /// indexer).
    pub tile_content: Vec<Vec<usize>>,
    /// Tiles the player has ever seen.
    pub revealed_tiles: Vec<bool>,
    /// Tiles the player currently sees.
    pub visible_tiles: Vec<bool>,
}

impl GameMap {
    /// Shape invariant: all parallel arrays cover the fixed 80 x 50 grid.
    pub open spec fn wf(self) -> bool {
        &&& self.width == 80
        &&& self.height == 50
        &&& self.tiles@.len() == 4000
        &&& self.blocked@.len() == 4000
        &&& self.tile_content@.len() == 4000
        &&& self.revealed_tiles@.len() == 4000
        &&& self.visible_tiles@.len() == 4000
    }

    pub open spec fn spec_is_wall(self, idx: int) -> bool {
        self.tiles@[idx] == TileType::Wall
    }

    /// Row-major index of `(x, y)`; the coordinate range is a checked
    /// contract, as out-of-range queries are a programming error.
    pub fn xy_idx(&self, x: i32, y: i32) -> (idx: usize)
        requires
            0 <= x < 80,
            0 <= y < 50,
        ensures
            idx == spec_xy_idx(x as int, y as int),
            idx < 4000,
    {
        (y as usize) * 80 + (x as usize)
    }

    /// A fresh all-wall map with no rooms, no occupants and nothing seen.
    pub fn new() -> (m: GameMap)
        ensures
            m.wf(),
            forall|i: int| 0 <= i < 4000 ==> m.tiles@[i] == TileType::Wall,
            forall|i: int| 0 <= i < 4000 ==> !m.blocked@[i],
            forall|i: int| 0 <= i < 4000 ==> m.tile_content@[i]@ == Seq::<usize>::empty(),
            forall|i: int| 0 <= i < 4000 ==> !m.revealed_tiles@[i],
            forall|i: int| 0 <= i < 4000 ==> !m.visible_tiles@[i],
            m.rooms@ == Seq::<Rect>::empty(),
    {
        let mut tiles: Vec<TileType> = Vec::new();
        let mut blocked: Vec<bool> = Vec::new();
        let mut tile_content: Vec<Vec<usize>> = Vec::new();
        let mut revealed: Vec<bool> = Vec::new();
        let mut visible: Vec<bool> = Vec::new();
        let mut i: usize = 0;
        while i < 4000
            invariant
                i <= 4000,
                tiles@.len() == i,
                blocked@.len() == i,
                tile_content@.len() == i,
                revealed@.len() == i,
                visible@.len() == i,
                forall|j: int| 0 <= j < i ==> tiles@[j] == TileType::Wall,
                forall|j: int| 0 <= j < i ==> !blocked@[j],
                forall|j: int| 0 <= j < i ==> tile_content@[j]@ == Seq::<usize>::empty(),
                forall|j: int| 0 <= j < i ==> !revealed@[j],
                forall|j: int| 0 <= j < i ==> !visible@[j],
            decreases 4000 - i,
        {
            tiles.push(TileType::Wall);
            blocked.push(false);
            let fresh: Vec<usize> = Vec::new();
            assert(fresh@ == Seq::<usize>::empty());
            tile_content.push(fresh);
            revealed.push(false);
            visible.push(false);
            i = i + 1;
        }
        let rooms: Vec<Rect> = Vec::new();
        assert(rooms@ == Seq::<Rect>::empty());
        GameMap { tiles, rooms, width: 80, height: 50, blocked, tile_content, revealed_tiles: revealed, visible_tiles: visible }
    }

    /// Resets the blocked array to exactly "wall implies blocked".
    pub fn populate_blocked(&mut self)
        requires
            old(self).wf(),
        ensures
            final(self).wf(),
            forall|i: int| 0 <= i < 4000 ==> final(self).blocked@[i] == old(self).spec_is_wall(i),
            final(self).tiles == old(self).tiles,
            final(self).rooms == old(self).rooms,
            final(self).tile_content == old(self).tile_content,
            final(self).revealed_tiles == old(self).revealed_tiles,
            final(self).visible_tiles == old(self).visible_tiles,
            final(self).width == old(self).width,
            final(self).height == old(self).height,
    {
        let mut i: usize = 0;
        while i < 4000
            invariant
                old(self).wf(),
                self.wf(),
                i <= 4000,
                forall|j: int| 0 <= j < i ==> self.blocked@[j] == old(self).spec_is_wall(j),
                forall|j: int| i <= j < 4000 ==> self.blocked@[j] == old(self).blocked@[j],
                self.tiles == old(self).tiles,
                self.rooms == old(self).rooms,
                self.tile_content == old(self).tile_content,
                self.revealed_tiles == old(self).revealed_tiles,
                self.visible_tiles == old(self).visible_tiles,
                self.width == old(self).width,
                self.height == old(self).height,
            decreases 4000 - i,
        {
            let wall = match self.tiles[i] {
                TileType::Wall => true,
                TileType::Floor => false,
            };
            self.blocked.set(i, wall);
            i = i + 1;
        }
    }

    /// Empties every tile's occupant list.
    pub fn clear_content_index(&mut self)
        requires
            old(self).wf(),
        ensures
            final(self).wf(),
            forall|i: int| 0 <= i < 4000 ==> final(self).tile_content@[i]@ == Seq::<usize>::empty(),
            final(self).tiles == old(self).tiles,
            final(self).rooms == old(self).rooms,
            final(self).blocked == old(self).blocked,
            final(self).revealed_tiles == old(self).revealed_tiles,
            final(self).visible_tiles == old(self).visible_tiles,
            final(self).width == old(self).width,
            final(self).height == old(self).height,
    {
        let mut i: usize = 0;
        while i < 4000
            invariant
                old(self).wf(),
                self.wf(),
                i <= 4000,
                forall|j: int| 0 <= j < i ==> self.tile_content@[j]@ == Seq::<usize>::empty(),
                self.tiles == old(self).tiles,
                self.rooms == old(self).rooms,
                self.blocked == old(self).blocked,
                self.revealed_tiles == old(self).revealed_tiles,
                self.visible_tiles == old(self).visible_tiles,
                self.width == old(self).width,
                self.height == old(self).height,
            decreases 4000 - i,
        {
            let fresh: Vec<usize> = Vec::new();
            assert(fresh@ == Seq::<usize>::empty());
            self.tile_content.set(i, fresh);
            i = i + 1;
        }
    }
}

/// True when `(x, y)` lies inside the closed box of `room`.
pub open spec fn room_interior(room: Rect, x: int, y: int) -> bool {
    room.x1 <= x <= room.x2 && room.y1 <= y <= room.y2
}

/// Carves the whole closed box of `room` to floor.
pub fn apply_room_to_map(room: &Rect, map: &mut Vec<TileType>)
    requires
        room.in_bounds(),
        old(map)@.len() == 4000,
    ensures
        final(map)@.len() == 4000,
        forall|x: int, y: int| #![trigger spec_xy_idx(x, y)] 0 <= x < 80 && 0 <= y < 50
            ==> final(map)@[spec_xy_idx(x, y)] == (if room_interior(*room, x, y) {
                TileType::Floor
            } else {
                old(map)@[spec_xy_idx(x, y)]
            }),
{
    let ghost orig = old(map)@;
    let mut x = room.x1;
    while x <= room.x2
        invariant
            room.in_bounds(),
            room.x1 <= x <= room.x2 + 1,
            map@.len() == 4000,
            forall|xx: int, yy: int| #![trigger spec_xy_idx(xx, yy)] 0 <= xx < 80 && 0 <= yy < 50
                ==> map@[spec_xy_idx(xx, yy)] == (if room_interior(*room, xx, yy) && xx < x {
                    TileType::Floor
                } else {
                    orig[spec_xy_idx(xx, yy)]
                }),
        decreases room.x2 + 1 - x,
    {
        let mut y = room.y1;
        while y <= room.y2
            invariant
                room.in_bounds(),
                room.x1 <= x <= room.x2,
                room.y1 <= y <= room.y2 + 1,
                map@.len() == 4000,
                forall|xx: int, yy: int| #![trigger spec_xy_idx(xx, yy)] 0 <= xx < 80 && 0 <= yy < 50
                    ==> map@[spec_xy_idx(xx, yy)] == (if room_interior(*room, xx, yy) && (xx < x
                        || (xx == x && yy < y)) {
                        TileType::Floor
                    } else {
                        orig[spec_xy_idx(xx, yy)]
                    }),
            decreases room.y2 + 1 - y,
        {
            let idx = xy_idx(x, y);
            map.set(idx, TileType::Floor);
            y = y + 1;
        }
        x = x + 1;
    }
}

/// Carves a one-tile-high corridor between columns `x1` and `x2` at row `y`.
pub fn apply_horizontal_corridor(map: &mut Vec<TileType>, x1: i32, x2: i32, y: i32)
    requires
        0 <= x1 < 80,
        0 <= x2 < 80,
        0 <= y < 50,
        old(map)@.len() == 4000,
    ensures
        final(map)@.len() == 4000,
        forall|xx: int, yy: int| #![trigger spec_xy_idx(xx, yy)] 0 <= xx < 80 && 0 <= yy < 50
            ==> final(map)@[spec_xy_idx(xx, yy)] == (if yy == y && min(x1 as int, x2 as int) <= xx
                <= max(x1 as int, x2 as int) {
                TileType::Floor
            } else {
                old(map)@[spec_xy_idx(xx, yy)]
            }),
{
    let lo = if x1 < x2 { x1 } else { x2 };
    let hi = if x1 < x2 { x2 } else { x1 };
    let mut x = lo;
    while x <= hi
        invariant
            0 <= lo <= x <= hi + 1,
            hi < 80,
            lo == min(x1 as int, x2 as int),
            hi == max(x1 as int, x2 as int),
            0 <= y < 50,
            map@.len() == 4000,
            forall|xx: int, yy: int| #![trigger spec_xy_idx(xx, yy)] 0 <= xx < 80 && 0 <= yy < 50
                ==> map@[spec_xy_idx(xx, yy)] == (if yy == y && lo <= xx < x {
                    TileType::Floor
                } else {
                    old(map)@[spec_xy_idx(xx, yy)]
                }),
        decreases hi + 1 - x,
    {
        let idx = xy_idx(x, y);
        map.set(idx, TileType::Floor);
        x = x + 1;
    }
}

/// Carves a one-tile-wide corridor between rows `y1` and `y2` at column `x`.
pub fn apply_vertical_corridor(map: &mut Vec<TileType>, y1: i32, y2: i32, x: i32)
    requires
        0 <= y1 < 50,
        0 <= y2 < 50,
        0 <= x < 80,
        old(map)@.len() == 4000,
    ensures
        final(map)@.len() == 4000,
        forall|xx: int, yy: int| #![trigger spec_xy_idx(xx, yy)] 0 <= xx < 80 && 0 <= yy < 50
            ==> final(map)@[spec_xy_idx(xx, yy)] == (if xx == x && min(y1 as int, y2 as int) <= yy
                <= max(y1 as int, y2 as int) {
                TileType::Floor
            } else {
                old(map)@[spec_xy_idx(xx, yy)]
            }),
{
    let lo = if y1 < y2 { y1 } else { y2 };
    let hi = if y1 < y2 { y2 } else { y1 };
    let mut y = lo;
    while y <= hi
        invariant
            0 <= lo <= y <= hi + 1,
            hi < 50,
            lo == min(y1 as int, y2 as int),
            hi == max(y1 as int, y2 as int),
            0 <= x < 80,
            map@.len() == 4000,
            forall|xx: int, yy: int| #![trigger spec_xy_idx(xx, yy)] 0 <= xx < 80 && 0 <= yy < 50
                ==> map@[spec_xy_idx(xx, yy)] == (if xx == x && lo <= yy < y {
                    TileType::Floor
                } else {
                    old(map)@[spec_xy_idx(xx, yy)]
                }),
        decreases hi + 1 - y,
    {
        let idx = xy_idx(x, y);
        map.set(idx, TileType::Floor);
        y = y + 1;
    }
}

/// A solid-boundary test map with a random smattering of walls; the centre
/// tile is always kept walkable.
pub fn new_map_test(rng: &mut Rng) -> (map: Vec<TileType>)
    ensures
        map@.len() == 4000,
        forall|x: int, y: int|
            0 <= x < 80 && 0 <= y < 50 && (x == 0 || x == 79 || y == 0 || y == 49)
                ==> map@[spec_xy_idx(x, y)] == TileType::Wall,
        map@[spec_xy_idx(40, 25)] == TileType::Floor,
{
    let mut map: Vec<TileType> = Vec::new();
    let mut i: usize = 0;
    while i < 4000
        invariant
            i <= 4000,
            map@.len() == i,
            forall|j: int| 0 <= j < i ==> map@[j] == TileType::Floor,
        decreases 4000 - i,
    {
        map.push(TileType::Floor);
        i = i + 1;
    }
    let mut x: i32 = 0;
    while x < 80
        invariant
            0 <= x <= 80,
            map@.len() == 4000,
            forall|xx: int, yy: int|
                0 <= xx < 80 && 0 <= yy < 50 && (yy == 0 || yy == 49) && xx < x
                    ==> map@[spec_xy_idx(xx, yy)] == TileType::Wall,
            forall|xx: int, yy: int|
                0 <= xx < 80 && 0 < yy < 49 ==> map@[spec_xy_idx(xx, yy)] == TileType::Floor,
        decreases 80 - x,
    {
        let top = xy_idx(x, 0);
        map.set(top, TileType::Wall);
        let bottom = xy_idx(x, 49);
        map.set(bottom, TileType::Wall);
        x = x + 1;
    }
    let mut y: i32 = 0;
    while y < 50
        invariant
            0 <= y <= 50,
            map@.len() == 4000,
            forall|xx: int, yy: int|
                0 <= xx < 80 && 0 <= yy < 50 && (yy == 0 || yy == 49)
                    ==> map@[spec_xy_idx(xx, yy)] == TileType::Wall,
            forall|xx: int, yy: int|
                0 <= xx < 80 && 0 <= yy < 50 && (xx == 0 || xx == 79) && yy < y
                    ==> map@[spec_xy_idx(xx, yy)] == TileType::Wall,
            forall|xx: int, yy: int|
                0 < xx < 79 && 0 < yy < 49 ==> map@[spec_xy_idx(xx, yy)] == TileType::Floor,
        decreases 50 - y,
    {
        let left = xy_idx(0, y);
        map.set(left, TileType::Wall);
        let right = xy_idx(79, y);
        map.set(right, TileType::Wall);
        y = y + 1;
    }
    let mut roll: usize = 0;
    while roll < 400
        invariant
            roll <= 400,
            map@.len() == 4000,
            forall|xx: int, yy: int|
                0 <= xx < 80 && 0 <= yy < 50 && (xx == 0 || xx == 79 || yy == 0 || yy == 49)
                    ==> map@[spec_xy_idx(xx, yy)] == TileType::Wall,
            map@[spec_xy_idx(40, 25)] == TileType::Floor,
        decreases 400 - roll,
    {
        let wx = rng.roll_dice(1, 79);
        let wy = rng.roll_dice(1, 49);
        let idx = xy_idx(wx, wy);
        let centre = xy_idx(40, 25);
        if idx != centre {
            map.set(idx, TileType::Wall);
        }
        roll = roll + 1;
    }
    map
}

/// Generates the dungeon: up to 30 non-overlapping rooms joined by
/// corridors, carved out of a solid rock map.  Every room interior is
/// walkable in the result, and at least one room always exists.
pub fn new_map_rooms_and_corridors(rng: &mut Rng) -> (m: GameMap)
    ensures
        m.wf(),
        1 <= m.rooms@.len() <= 30,
        forall|i: int| 0 <= i < m.rooms@.len() ==> (#[trigger] m.rooms@[i]).in_bounds(),
        forall|i: int, j: int| 0 <= i < j < m.rooms@.len()
            ==> !(#[trigger] m.rooms@[i]).spec_intersect(#[trigger] m.rooms@[j]),
        forall|i: int, x: int, y: int|
            0 <= i < m.rooms@.len() && #[trigger] room_interior(m.rooms@[i], x, y)
                ==> m.tiles@[spec_xy_idx(x, y)] == TileType::Floor,
        forall|t: int| 0 <= t < 4000 ==> !m.blocked@[t],
        forall|t: int| 0 <= t < 4000 ==> m.tile_content@[t]@ == Seq::<usize>::empty(),
        forall|t: int| 0 <= t < 4000 ==> !m.revealed_tiles@[t],
        forall|t: int| 0 <= t < 4000 ==> !m.visible_tiles@[t],
{
    let mut m = GameMap::new();
    let mut rooms: Vec<Rect> = Vec::new();
    let mut tries: usize = 0;
    while tries < 30
        invariant
            tries <= 30,
            m.wf(),
            rooms@.len() <= tries,
            forall|i: int| 0 <= i < rooms@.len() ==> (#[trigger] rooms@[i]).in_bounds(),
            forall|i: int, j: int| 0 <= i < j < rooms@.len()
                ==> !(#[trigger] rooms@[i]).spec_intersect(#[trigger] rooms@[j]),
            forall|i: int, x: int, y: int|
                0 <= i < rooms@.len() && #[trigger] room_interior(rooms@[i], x, y)
                    ==> m.tiles@[spec_xy_idx(x, y)] == TileType::Floor,
            forall|t: int| 0 <= t < 4000 ==> !m.blocked@[t],
            forall|t: int| 0 <= t < 4000 ==> m.tile_content@[t]@ == Seq::<usize>::empty(),
            forall|t: int| 0 <= t < 4000 ==> !m.revealed_tiles@[t],
            forall|t: int| 0 <= t < 4000 ==> !m.visible_tiles@[t],
            m.rooms@ == Seq::<Rect>::empty(),
            tries > 0 ==> rooms@.len() >= 1,
        decreases 30 - tries,
    {
        let w = rng.range(6, 10);
        let h = rng.range(6, 10);
        let rx = rng.roll_dice(1, 79 - w);
        let ry = rng.roll_dice(1, 49 - h);
        let new_room = Rect::new(rx, ry, w, h);
        let mut ok = true;
        let mut ri: usize = 0;
        while ri < rooms.len()
            invariant
                ri <= rooms@.len(),
                ok <==> forall|j: int|
                    0 <= j < ri ==> !new_room.spec_intersect(#[trigger] rooms@[j]),
            decreases rooms@.len() - ri,
        {
            if new_room.intersect(&rooms[ri]) {
                ok = false;
            }
            ri = ri + 1;
        }
        if ok {
            apply_room_to_map(&new_room, &mut m.tiles);
            if rooms.len() > 0 {
                let (new_x, new_y) = new_room.center();
                let prev = rooms[rooms.len() - 1];
                let (prev_x, prev_y) = prev.center();
                assert(0 <= new_x < 80 && 0 <= new_y < 50);
                assert(0 <= prev_x < 80 && 0 <= prev_y < 50);
                if rng.range(0, 2) == 1 {
                    apply_horizontal_corridor(&mut m.tiles, prev_x, new_x, prev_y);
                    apply_vertical_corridor(&mut m.tiles, prev_y, new_y, new_x);
                } else {
                    apply_vertical_corridor(&mut m.tiles, prev_y, new_y, prev_x);
                    apply_horizontal_corridor(&mut m.tiles, prev_x, new_x, new_y);
                }
            }
            let ghost pre_rooms = rooms@;
            rooms.push(new_room);
            proof {
                assert forall|i: int, j: int| 0 <= i < j < rooms@.len() implies !(
                #[trigger] rooms@[i]).spec_intersect(#[trigger] rooms@[j]) by {
                    if j == pre_rooms.len() as int {
                        assert(!new_room.spec_intersect(pre_rooms[i]));
                    }
                }
            }
        }
        tries = tries + 1;
    }
    m.rooms = rooms;
    m
}

} // verus!
