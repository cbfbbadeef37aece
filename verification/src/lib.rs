//! Turn-resolution core of a grid-based dungeon crawler.
//!
//! Given the positions and intents of all actors, the library advances the
//! world by exactly one coherent step: visibility, monster decisions, tile
//! indexing, melee resolution, damage application, mortality, and inventory
//! actions, sequenced by a run-state machine.  Every function that mutates the
//! world carries a contract describing the new world in terms of the old one.

pub mod components;
pub mod damage_system;
pub mod game_log;
pub mod inventory_system;
pub mod map;
pub mod map_indexing_system;
pub mod melee_combat_system;
pub mod menu;
pub mod monster_ai_system;
pub mod player;
pub mod rng;
pub mod spawner;
pub mod state;
pub mod visibility_system;
pub mod world;
