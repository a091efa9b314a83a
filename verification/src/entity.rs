//! Mobile actors: the two clans' unit kinds and their positions.
//!
//! Entities live outside the grid in an unordered list owned by the game
//! state; their positions are continuous pixel coordinates, not grid
//! aligned. Entities are created by a successful spawn action and removed
//! only through the explicit removal capability.

use vstd::prelude::*;

verus! {

/// Unit kinds of the illager clan; the evoker and vex carry a progress
/// counter.
#[derive(Clone, Copy, PartialEq, Eq, Structural, Debug)]
pub enum IllagerClan {
    Vindicator,
    Pillager,
    Evoker(u8),
    Vex(u8),
}

/// Behavioural state of an illager unit.
#[derive(Clone, Copy, PartialEq, Eq, Structural, Debug)]
pub enum IllagerState {
    Idle,
    Action,
}

/// Behavioural state of a golem.
#[derive(Clone, Copy, PartialEq, Eq, Structural, Debug)]
pub enum GolemState {
    Attack,
    Broken,
    Idle,
}

/// Unit kinds of the villager clan; the smith and golem carry a progress
/// counter.
#[derive(Clone, Copy, PartialEq, Eq, Structural, Debug)]
pub enum VillagerClan {
    Villager,
    Farmer,
    Smith(u8),
    Golem(u8, GolemState),
}

/// Clan and kind of a mobile actor.
#[derive(Clone, Copy, PartialEq, Eq, Structural, Debug)]
pub enum EntityType {
    IllagerClan(IllagerClan, IllagerState),
    VillagerClan(VillagerClan),
}

/// A mobile actor: its kind and its pixel position on the board.
#[derive(Clone, Copy, PartialEq, Eq, Structural, Debug)]
pub struct Entity {
    pub entity_type: EntityType,
    pub position_x: u16,
    pub position_y: u16,
}

} // verus!
