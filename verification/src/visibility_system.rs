//! The visibility resolver: recomputes each dirty viewshed as the set of
//! tiles within sight range whose line of sight is not occluded by a wall,
//! and mirrors the player's viewshed into the map's visible/revealed
//! overlay.  The line walk always starts from the lexicographically smaller
//! endpoint, which makes visibility symmetric between equal-ranged actors.

use vstd::prelude::*;
use vstd::math::abs;
use crate::components::{Position, Viewshed};
use crate::map::{spec_xy_idx, GameMap, TileType};
use crate::world::World;

verus! {

/// One step of the digital line: each coordinate moves one tile toward the
/// destination.
pub open spec fn sgn(d: int) -> int {
    if d > 0 {
        1
    } else if d < 0 {
        -1
    } else {
        0
    }
}

/// The walk from `(cx, cy)` to `(bx, by)` meets no wall strictly between
/// the endpoints.
pub open spec fn walk_clear(m: GameMap, cx: int, cy: int, bx: int, by: int) -> bool
    decreases abs(bx - cx) + abs(by - cy),
{
    if cx == bx && cy == by {
        true
    } else {
        let nx = cx + sgn(bx - cx);
        let ny = cy + sgn(by - cy);
        ((nx == bx && ny == by) || m.tiles@[spec_xy_idx(nx, ny)] != TileType::Wall) && walk_clear(
            m,
            nx,
            ny,
            bx,
            by,
        )
    }
}

/// Lexicographic order on grid points; it fixes the walk direction so that
/// line of sight between two points is one question, not two.
pub open spec fn lex_le(ax: int, ay: int, bx: int, by: int) -> bool {
    ax < bx || (ax == bx && ay <= by)
}

/// Line of sight between two points, walked from the lexicographically
/// smaller endpoint; symmetric by construction.
pub open spec fn los_clear(m: GameMap, ax: int, ay: int, bx: int, by: int) -> bool {
    if lex_le(ax, ay, bx, by) {
        walk_clear(m, ax, ay, bx, by)
    } else {
        walk_clear(m, bx, by, ax, ay)
    }
}

/// Tile `(tx, ty)` is visible from `(px, py)` at the given sight range:
/// inside the map, within Euclidean range, and in line of sight.
pub open spec fn tile_visible(m: GameMap, px: int, py: int, range: int, tx: int, ty: int) -> bool {
    &&& 0 <= tx < 80
    &&& 0 <= ty < 50
    &&& (tx - px) * (tx - px) + (ty - py) * (ty - py) <= range * range
    &&& los_clear(m, px, py, tx, ty)
}

/// Entity `e` gets its viewshed recomputed this pass: it owns a dirty
/// viewshed and stands on the map.
pub open spec fn vis_computed(w: World, e: int) -> bool {
    &&& 0 <= e < w.n()
    &&& w.viewsheds@[e].is_some()
    &&& w.positions@[e].is_some()
    &&& w.viewsheds@[e].unwrap().dirty
}

/// The recomputed viewshed of `e` holds exactly the visible tiles.
pub open spec fn viewshed_exact(w0: World, vs: Viewshed, e: int) -> bool {
    let p = w0.positions@[e].unwrap();
    let r = w0.viewsheds@[e].unwrap().range;
    &&& vs.range == r
    &&& !vs.dirty
    &&& forall|t: Position| #[trigger] vs.visible_tiles@.contains(t) <==> tile_visible(
        w0.map,
        p.x as int,
        p.y as int,
        r as int,
        t.x as int,
        t.y as int,
    )
}

/// The exact effect of one visibility pass: dirty viewsheds are recomputed
/// and cleaned, the player's recomputation also rewrites the map overlay,
/// and nothing else moves.
pub open spec fn vis_rel(w0: World, w1: World) -> bool {
    &&& forall|e: int| 0 <= e < w0.n() && vis_computed(w0, e)
        ==> (#[trigger] w1.viewsheds@[e]).is_some() && viewshed_exact(
        w0,
        w1.viewsheds@[e].unwrap(),
        e,
    )
    &&& forall|e: int| 0 <= e < w0.n() && !vis_computed(w0, e)
        ==> #[trigger] w1.viewsheds@[e] == w0.viewsheds@[e]
    &&& (if vis_computed(w0, w0.player_entity as int) {
        forall|x: int, y: int| #![trigger spec_xy_idx(x, y)] 0 <= x < 80 && 0 <= y < 50 ==> {
            &&& w1.map.visible_tiles@[spec_xy_idx(x, y)] == tile_visible(
                w0.map,
                w0.player_pos.x as int,
                w0.player_pos.y as int,
                w0.viewsheds@[w0.player_entity as int].unwrap().range as int,
                x,
                y,
            )
            &&& w1.map.revealed_tiles@[spec_xy_idx(x, y)] == (w0.map.revealed_tiles@[spec_xy_idx(
                x,
                y,
            )] || w1.map.visible_tiles@[spec_xy_idx(x, y)])
        }
    } else {
        w1.map.visible_tiles == w0.map.visible_tiles && w1.map.revealed_tiles
            == w0.map.revealed_tiles
    })
    &&& w1.map.tiles == w0.map.tiles
    &&& w1.map.rooms == w0.map.rooms
    &&& w1.map.blocked == w0.map.blocked
    &&& w1.map.tile_content == w0.map.tile_content
    &&& w1.map.width == w0.map.width
    &&& w1.map.height == w0.map.height
    &&& w1.alive == w0.alive
    &&& w1.positions == w0.positions
    &&& w1.renderables == w0.renderables
    &&& w1.players == w0.players
    &&& w1.monsters == w0.monsters
    &&& w1.names == w0.names
    &&& w1.blocks_tile == w0.blocks_tile
    &&& w1.combat_stats == w0.combat_stats
    &&& w1.items == w0.items
    &&& w1.potions == w0.potions
    &&& w1.in_backpack == w0.in_backpack
    &&& w1.wants_melee == w0.wants_melee
    &&& w1.wants_pickup == w0.wants_pickup
    &&& w1.wants_drop == w0.wants_drop
    &&& w1.wants_drink == w0.wants_drink
    &&& w1.suffer_damage == w0.suffer_damage
    &&& w1.to_delete == w0.to_delete
    &&& w1.player_entity == w0.player_entity
    &&& w1.player_pos == w0.player_pos
    &&& w1.run_state == w0.run_state
    &&& w1.log == w0.log
}

/// The walk consults only the tile grid: two maps with equal tiles agree.
pub proof fn lemma_walk_tiles_only(m0: GameMap, m1: GameMap, cx: int, cy: int, bx: int, by: int)
    requires
        m1.tiles@ == m0.tiles@,
    ensures
        walk_clear(m1, cx, cy, bx, by) == walk_clear(m0, cx, cy, bx, by),
    decreases abs(bx - cx) + abs(by - cy),
{
    if !(cx == bx && cy == by) {
        lemma_walk_tiles_only(m0, m1, cx + sgn(bx - cx), cy + sgn(by - cy), bx, by);
    }
}

/// Visibility consults only the tile grid: two maps with equal tiles agree.
pub proof fn lemma_visible_tiles_only(
    m0: GameMap,
    m1: GameMap,
    px: int,
    py: int,
    range: int,
    tx: int,
    ty: int,
)
    requires
        m1.tiles@ == m0.tiles@,
    ensures
        tile_visible(m1, px, py, range, tx, ty) == tile_visible(m0, px, py, range, tx, ty),
{
    if lex_le(px, py, tx, ty) {
        lemma_walk_tiles_only(m0, m1, px, py, tx, ty);
    } else {
        lemma_walk_tiles_only(m0, m1, tx, ty, px, py);
    }
}

/// Visibility is reciprocal: two in-map points see each other or not,
/// identically, at equal sight ranges, because the line walk runs from the
/// lexicographically smaller endpoint whichever way it is asked.
pub proof fn law_visibility_symmetric(
    m: GameMap,
    ax: int,
    ay: int,
    bx: int,
    by: int,
    range: int,
)
    requires
        0 <= ax < 80,
        0 <= ay < 50,
        0 <= bx < 80,
        0 <= by < 50,
    ensures
        tile_visible(m, ax, ay, range, bx, by) == tile_visible(m, bx, by, range, ax, ay),
{
    assert((bx - ax) * (bx - ax) == (ax - bx) * (ax - bx)) by (nonlinear_arith);
    assert((by - ay) * (by - ay) == (ay - by) * (ay - by)) by (nonlinear_arith);
}

/// Executable mirror of `walk_clear`.
fn los_walk(m: &GameMap, cx: i32, cy: i32, bx: i32, by: i32) -> (r: bool)
    requires
        m.wf(),
        0 <= cx < 80,
        0 <= cy < 50,
        0 <= bx < 80,
        0 <= by < 50,
    ensures
        r == walk_clear(*m, cx as int, cy as int, bx as int, by as int),
    decreases abs(bx as int - cx as int) + abs(by as int - cy as int),
{
    if cx == bx && cy == by {
        return true;
    }
    let sx: i32 = if bx > cx { 1 } else if bx < cx { -1 } else { 0 };
    let sy: i32 = if by > cy { 1 } else if by < cy { -1 } else { 0 };
    let nx = cx + sx;
    let ny = cy + sy;
    if !(nx == bx && ny == by) {
        let idx = m.xy_idx(nx, ny);
        let wall = match m.tiles[idx] {
            TileType::Wall => true,
            TileType::Floor => false,
        };
        if wall {
            return false;
        }
    }
    los_walk(m, nx, ny, bx, by)
}

/// Executable mirror of `tile_visible`.
fn is_visible(m: &GameMap, px: i32, py: i32, range: i32, tx: i32, ty: i32) -> (r: bool)
    requires
        m.wf(),
        0 <= px < 80,
        0 <= py < 50,
        0 <= tx < 80,
        0 <= ty < 50,
        0 <= range <= 0x7FFF,
    ensures
        r == tile_visible(*m, px as int, py as int, range as int, tx as int, ty as int),
{
    let dx = (tx - px) as i64;
    let dy = (ty - py) as i64;
    proof {
        assert(0 <= dx * dx <= 6400 && 0 <= dy * dy <= 6400) by (nonlinear_arith)
            requires
                -80 <= dx <= 80,
                -80 <= dy <= 80,
        ;
        assert(0 <= (range as i64) * (range as i64) <= 0x3FFF_0001) by (nonlinear_arith)
            requires
                0 <= range <= 0x7FFF,
        ;
    }
    let d2 = dx * dx + dy * dy;
    let r2 = (range as i64) * (range as i64);
    if d2 > r2 {
        return false;
    }
    if px < tx || (px == tx && py <= ty) {
        los_walk(m, px, py, tx, ty)
    } else {
        los_walk(m, tx, ty, px, py)
    }
}

/// Computes the list of tiles visible from `(px, py)` at `range`.
fn field_of_view(m: &GameMap, px: i32, py: i32, range: i32) -> (tiles: Vec<Position>)
    requires
        m.wf(),
        0 <= px < 80,
        0 <= py < 50,
        0 <= range <= 0x7FFF,
    ensures
        forall|t: Position| #[trigger] tiles@.contains(t) <==> tile_visible(
            *m,
            px as int,
            py as int,
            range as int,
            t.x as int,
            t.y as int,
        ),
{
    let mut tiles: Vec<Position> = Vec::new();
    let mut x: i32 = 0;
    while x < 80
        invariant
            m.wf(),
            0 <= px < 80,
            0 <= py < 50,
            0 <= range <= 0x7FFF,
            0 <= x <= 80,
            forall|t: Position| #[trigger] tiles@.contains(t) <==> (tile_visible(
                *m,
                px as int,
                py as int,
                range as int,
                t.x as int,
                t.y as int,
            ) && t.x < x),
        decreases 80 - x,
    {
        let mut y: i32 = 0;
        while y < 50
            invariant
                m.wf(),
                0 <= px < 80,
                0 <= py < 50,
                0 <= range <= 0x7FFF,
                0 <= x < 80,
                0 <= y <= 50,
                forall|t: Position| #[trigger] tiles@.contains(t) <==> (tile_visible(
                    *m,
                    px as int,
                    py as int,
                    range as int,
                    t.x as int,
                    t.y as int,
                ) && (t.x < x || (t.x == x && t.y < y))),
            decreases 50 - y,
        {
            if is_visible(m, px, py, range, x, y) {
                let ghost pre = tiles@;
                tiles.push(Position { x, y });
                proof {
                    assert forall|t: Position| #[trigger] tiles@.contains(t) <==> (pre.contains(t)
                        || t == (Position { x, y })) by {
                        crate::world::lemma_push_contains(pre, Position { x, y }, t);
                    }
                }
            }
            y = y + 1;
        }
        x = x + 1;
    }
    tiles
}

pub struct VisibilitySystem {}

impl VisibilitySystem {
    /// Recomputes every dirty viewshed and clears its dirty flag; the
    /// player's recomputation also rewrites the map's visible overlay and
    /// extends the revealed overlay.
    pub fn run(ecs: &mut World)
        requires
            old(ecs).wf(),
        ensures
            final(ecs).wf(),
            vis_rel(*old(ecs), *final(ecs)),
    {
        let n = ecs.alive.len();
        let player_entity = ecs.player_entity;
        let mut e: usize = 0;
        while e < n
            invariant
                old(ecs).wf(),
                ecs.wf(),
                n as int == old(ecs).n(),
                e <= n,
                player_entity == old(ecs).player_entity,
                forall|i: int| 0 <= i < e && vis_computed(*old(ecs), i)
                    ==> (#[trigger] ecs.viewsheds@[i]).is_some() && viewshed_exact(
                    *old(ecs),
                    ecs.viewsheds@[i].unwrap(),
                    i,
                ),
                forall|i: int| 0 <= i < old(ecs).n() && !(0 <= i < e && vis_computed(*old(ecs), i))
                    ==> #[trigger] ecs.viewsheds@[i] == old(ecs).viewsheds@[i],
                (if (player_entity as int) < e && vis_computed(*old(ecs), player_entity as int) {
                    forall|x: int, y: int| #![trigger spec_xy_idx(x, y)] 0 <= x < 80 && 0 <= y < 50
                        ==> {
                        &&& ecs.map.visible_tiles@[spec_xy_idx(x, y)] == tile_visible(
                            old(ecs).map,
                            old(ecs).player_pos.x as int,
                            old(ecs).player_pos.y as int,
                            old(ecs).viewsheds@[player_entity as int].unwrap().range as int,
                            x,
                            y,
                        )
                        &&& ecs.map.revealed_tiles@[spec_xy_idx(x, y)] == (old(
                            ecs,
                        ).map.revealed_tiles@[spec_xy_idx(x, y)]
                            || ecs.map.visible_tiles@[spec_xy_idx(x, y)])
                    }
                } else {
                    ecs.map.visible_tiles == old(ecs).map.visible_tiles && ecs.map.revealed_tiles
                        == old(ecs).map.revealed_tiles
                }),
                ecs.map.tiles == old(ecs).map.tiles,
                ecs.map.rooms == old(ecs).map.rooms,
                ecs.map.blocked == old(ecs).map.blocked,
                ecs.map.tile_content == old(ecs).map.tile_content,
                ecs.map.width == old(ecs).map.width,
                ecs.map.height == old(ecs).map.height,
                ecs.alive == old(ecs).alive,
                ecs.positions == old(ecs).positions,
                ecs.renderables == old(ecs).renderables,
                ecs.players == old(ecs).players,
                ecs.monsters == old(ecs).monsters,
                ecs.names == old(ecs).names,
                ecs.blocks_tile == old(ecs).blocks_tile,
                ecs.combat_stats == old(ecs).combat_stats,
                ecs.items == old(ecs).items,
                ecs.potions == old(ecs).potions,
                ecs.in_backpack == old(ecs).in_backpack,
                ecs.wants_melee == old(ecs).wants_melee,
                ecs.wants_pickup == old(ecs).wants_pickup,
                ecs.wants_drop == old(ecs).wants_drop,
                ecs.wants_drink == old(ecs).wants_drink,
                ecs.suffer_damage == old(ecs).suffer_damage,
                ecs.to_delete == old(ecs).to_delete,
                ecs.player_entity == old(ecs).player_entity,
                ecs.player_pos == old(ecs).player_pos,
                ecs.run_state == old(ecs).run_state,
                ecs.log == old(ecs).log,
            decreases n - e,
        {
            let dirty_pos: Option<(Position, i32)> = match (&ecs.viewsheds[e], &ecs.positions[e]) {
                (Some(vs), Some(p)) => {
                    if vs.dirty {
                        Some((*p, vs.range))
                    } else {
                        None
                    }
                },
                _ => None,
            };
            match dirty_pos {
                Some((p, range)) => {
                    assert(vis_computed(*old(ecs), e as int));
                    let ghost call_map = ecs.map;
                    let tiles = field_of_view(&ecs.map, p.x, p.y, range);
                    proof {
                        assert forall|t: Position| #[trigger] tiles@.contains(t)
                            <==> tile_visible(
                            old(ecs).map,
                            p.x as int,
                            p.y as int,
                            range as int,
                            t.x as int,
                            t.y as int,
                        ) by {
                            lemma_visible_tiles_only(
                                old(ecs).map,
                                call_map,
                                p.x as int,
                                p.y as int,
                                range as int,
                                t.x as int,
                                t.y as int,
                            );
                        }
                    }
                    ecs.viewsheds.set(
                        e,
                        Some(Viewshed { visible_tiles: tiles, range, dirty: false }),
                    );
                    if e == player_entity {
                        let mut x: i32 = 0;
                        while x < 80
                            invariant
                                old(ecs).wf(),
                                ecs.wf(),
                                e == player_entity,
                                player_entity == old(ecs).player_entity,
                                (e as int) < old(ecs).n(),
                                vis_computed(*old(ecs), e as int),
                                p == old(ecs).positions@[e as int].unwrap(),
                                p == old(ecs).player_pos,
                                range == old(ecs).viewsheds@[e as int].unwrap().range,
                                0 <= x <= 80,
                                forall|xx: int, yy: int| #![trigger spec_xy_idx(xx, yy)]
                                    0 <= xx < 80 && 0 <= yy < 50 && xx < x ==> {
                                    &&& ecs.map.visible_tiles@[spec_xy_idx(xx, yy)]
                                        == tile_visible(
                                        old(ecs).map,
                                        p.x as int,
                                        p.y as int,
                                        range as int,
                                        xx,
                                        yy,
                                    )
                                    &&& ecs.map.revealed_tiles@[spec_xy_idx(xx, yy)] == (old(
                                        ecs,
                                    ).map.revealed_tiles@[spec_xy_idx(xx, yy)]
                                        || ecs.map.visible_tiles@[spec_xy_idx(xx, yy)])
                                },
                                forall|xx: int, yy: int| #![trigger spec_xy_idx(xx, yy)]
                                    0 <= xx < 80 && 0 <= yy < 50 && xx >= x ==> {
                                    &&& ecs.map.visible_tiles@[spec_xy_idx(xx, yy)] == old(
                                        ecs,
                                    ).map.visible_tiles@[spec_xy_idx(xx, yy)]
                                    &&& ecs.map.revealed_tiles@[spec_xy_idx(xx, yy)] == old(
                                        ecs,
                                    ).map.revealed_tiles@[spec_xy_idx(xx, yy)]
                                },
                                ecs.map.tiles == old(ecs).map.tiles,
                                ecs.map.rooms == old(ecs).map.rooms,
                                ecs.map.blocked == old(ecs).map.blocked,
                                ecs.map.tile_content == old(ecs).map.tile_content,
                                ecs.map.width == old(ecs).map.width,
                                ecs.map.height == old(ecs).map.height,
                                ecs.alive == old(ecs).alive,
                                ecs.positions == old(ecs).positions,
                                ecs.renderables == old(ecs).renderables,
                                ecs.players == old(ecs).players,
                                ecs.monsters == old(ecs).monsters,
                                ecs.names == old(ecs).names,
                                ecs.viewsheds@.len() == old(ecs).n(),
                                forall|i: int| 0 <= i <= e && vis_computed(*old(ecs), i)
                                    ==> (#[trigger] ecs.viewsheds@[i]).is_some()
                                    && viewshed_exact(*old(ecs), ecs.viewsheds@[i].unwrap(), i),
                                forall|i: int|
                                    0 <= i < old(ecs).n() && !(0 <= i <= e && vis_computed(
                                    *old(ecs),
                                    i,
                                )) ==> #[trigger] ecs.viewsheds@[i] == old(ecs).viewsheds@[i],

                                ecs.blocks_tile == old(ecs).blocks_tile,
                                ecs.combat_stats == old(ecs).combat_stats,
                                ecs.items == old(ecs).items,
                                ecs.potions == old(ecs).potions,
                                ecs.in_backpack == old(ecs).in_backpack,
                                ecs.wants_melee == old(ecs).wants_melee,
                                ecs.wants_pickup == old(ecs).wants_pickup,
                                ecs.wants_drop == old(ecs).wants_drop,
                                ecs.wants_drink == old(ecs).wants_drink,
                                ecs.suffer_damage == old(ecs).suffer_damage,
                                ecs.to_delete == old(ecs).to_delete,
                                ecs.player_entity == old(ecs).player_entity,
                                ecs.player_pos == old(ecs).player_pos,
                                ecs.run_state == old(ecs).run_state,
                                ecs.log == old(ecs).log,
                            decreases 80 - x,
                        {
                            let mut y: i32 = 0;
                            while y < 50
                                invariant
                                    old(ecs).wf(),
                                    ecs.wf(),
                                    e == player_entity,
                                    player_entity == old(ecs).player_entity,
                                    (e as int) < old(ecs).n(),
                                    vis_computed(*old(ecs), e as int),
                                    p == old(ecs).positions@[e as int].unwrap(),
                                    p == old(ecs).player_pos,
                                    range == old(ecs).viewsheds@[e as int].unwrap().range,
                                    0 <= x < 80,
                                    0 <= y <= 50,
                                    forall|xx: int, yy: int| #![trigger spec_xy_idx(xx, yy)]
                                        0 <= xx < 80 && 0 <= yy < 50 && (xx < x || (xx == x && yy
                                        < y)) ==> {
                                        &&& ecs.map.visible_tiles@[spec_xy_idx(xx, yy)]
                                            == tile_visible(
                                            old(ecs).map,
                                            p.x as int,
                                            p.y as int,
                                            range as int,
                                            xx,
                                            yy,
                                        )
                                        &&& ecs.map.revealed_tiles@[spec_xy_idx(xx, yy)] == (old(
                                            ecs,
                                        ).map.revealed_tiles@[spec_xy_idx(xx, yy)]
                                            || ecs.map.visible_tiles@[spec_xy_idx(xx, yy)])
                                    },
                                    forall|xx: int, yy: int| #![trigger spec_xy_idx(xx, yy)]
                                        0 <= xx < 80 && 0 <= yy < 50 && !(xx < x || (xx == x && yy
                                        < y)) ==> {
                                        &&& ecs.map.visible_tiles@[spec_xy_idx(xx, yy)] == old(
                                            ecs,
                                        ).map.visible_tiles@[spec_xy_idx(xx, yy)]
                                        &&& ecs.map.revealed_tiles@[spec_xy_idx(xx, yy)] == old(
                                            ecs,
                                        ).map.revealed_tiles@[spec_xy_idx(xx, yy)]
                                    },
                                    ecs.map.tiles == old(ecs).map.tiles,
                                    ecs.map.rooms == old(ecs).map.rooms,
                                    ecs.map.blocked == old(ecs).map.blocked,
                                    ecs.map.tile_content == old(ecs).map.tile_content,
                                    ecs.map.width == old(ecs).map.width,
                                    ecs.map.height == old(ecs).map.height,
                                    ecs.alive == old(ecs).alive,
                                    ecs.positions == old(ecs).positions,
                                    ecs.renderables == old(ecs).renderables,
                                    ecs.players == old(ecs).players,
                                    ecs.monsters == old(ecs).monsters,
                                    ecs.names == old(ecs).names,
                                    ecs.viewsheds@.len() == old(ecs).n(),
                                    forall|i: int| 0 <= i <= e && vis_computed(*old(ecs), i)
                                        ==> (#[trigger] ecs.viewsheds@[i]).is_some()
                                        && viewshed_exact(
                                        *old(ecs),
                                        ecs.viewsheds@[i].unwrap(),
                                        i,
                                    ),
                                    forall|i: int|
                                        0 <= i < old(ecs).n() && !(0 <= i <= e && vis_computed(
                                        *old(ecs),
                                        i,
                                    )) ==> #[trigger] ecs.viewsheds@[i] == old(ecs).viewsheds@[i],

                                    ecs.blocks_tile == old(ecs).blocks_tile,
                                    ecs.combat_stats == old(ecs).combat_stats,
                                    ecs.items == old(ecs).items,
                                    ecs.potions == old(ecs).potions,
                                    ecs.in_backpack == old(ecs).in_backpack,
                                    ecs.wants_melee == old(ecs).wants_melee,
                                    ecs.wants_pickup == old(ecs).wants_pickup,
                                    ecs.wants_drop == old(ecs).wants_drop,
                                    ecs.wants_drink == old(ecs).wants_drink,
                                    ecs.suffer_damage == old(ecs).suffer_damage,
                                    ecs.to_delete == old(ecs).to_delete,
                                    ecs.player_entity == old(ecs).player_entity,
                                    ecs.player_pos == old(ecs).player_pos,
                                    ecs.run_state == old(ecs).run_state,
                                    ecs.log == old(ecs).log,
                                decreases 50 - y,
                            {
                                let ghost overlay_map = ecs.map;
                                let vis = is_visible(&ecs.map, p.x, p.y, range, x, y);
                                proof {
                                    lemma_visible_tiles_only(
                                        old(ecs).map,
                                        overlay_map,
                                        p.x as int,
                                        p.y as int,
                                        range as int,
                                        x as int,
                                        y as int,
                                    );
                                }
                                let idx = ecs.map.xy_idx(x, y);
                                ecs.map.visible_tiles.set(idx, vis);
                                let already = ecs.map.revealed_tiles[idx];
                                ecs.map.revealed_tiles.set(idx, already || vis);
                                y = y + 1;
                            }
                            x = x + 1;
                        }
                    }
                },
                None => {
                    assert(!vis_computed(*old(ecs), e as int));
                },
            }
            e = e + 1;
        }
    }
}

} // verus!
