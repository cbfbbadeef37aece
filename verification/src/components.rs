//! The component types that can be attached to an entity.  A component's
//! presence in the world store is what gives an entity its meaning.

use vstd::prelude::*;

verus! {

/// Grid coordinates of an entity standing on the map.
#[derive(Clone, Copy, PartialEq, Eq, Structural, Debug)]
pub struct Position {
    pub x: i32,
    pub y: i32,
}

/// Presentation data: a glyph, packed 0xRRGGBB colours, and a stacking order
/// (lower orders are drawn on top when entities share a tile).
#[derive(Clone, Copy, PartialEq, Eq, Structural, Debug)]
pub struct Renderable {
    pub glyph: u32,
    pub fg: u32,
    pub bg: u32,
    pub render_order: i32,
}

/// The set of tiles an entity currently sees, its sight range, and a dirty
/// flag that forces recomputation after the entity moves.
#[derive(Clone, PartialEq, Eq, Debug)]
pub struct Viewshed {
    pub visible_tiles: Vec<Position>,
    pub range: i32,
    pub dirty: bool,
}

/// Combat statistics.  `hp` may drop below zero transiently under damage;
/// the mortality sweep treats `hp < 1` as dead.
#[derive(Clone, Copy, PartialEq, Eq, Structural, Debug)]
pub struct CombatStats {
    pub max_hp: i32,
    pub hp: i32,
    pub defense: i32,
    pub power: i32,
}

impl CombatStats {
    /// Validity of one entity's statistics.  The caps keep every damage and
    /// healing computation inside `i32` even when every entity in a full
    /// world attacks one target in a single pass.
    pub open spec fn valid(self) -> bool {
        &&& 0 <= self.max_hp <= 0x7FFF
        &&& -0x3FFF_FFFF <= self.hp <= self.max_hp
        &&& 0 <= self.defense <= 0x7FFF
        &&& 0 <= self.power <= 0x7FFF
    }
}

/// Heal amount granted when the owning item is drunk.
#[derive(Clone, Copy, PartialEq, Eq, Structural, Debug)]
pub struct Potion {
    pub amount: i32,
}

/// Stacking layers for the renderer: the player is drawn above monsters,
/// monsters above items.
#[derive(Clone, Copy, PartialEq, Eq, Structural, Debug)]
pub enum RenderOrder {
    Player,
    Monster,
    Item,
}

impl RenderOrder {
    /// Numeric stacking order stored in `Renderable::render_order`.
    pub fn as_i32(&self) -> (r: i32)
        ensures
            r == (match *self {
                RenderOrder::Player => 0int,
                RenderOrder::Monster => 1int,
                RenderOrder::Item => 2int,
            }),
    {
        match *self {
            RenderOrder::Player => 0,
            RenderOrder::Monster => 1,
            RenderOrder::Item => 2,
        }
    }
}

} // verus!
