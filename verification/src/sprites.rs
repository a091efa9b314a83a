//! Sprite-sheet blit computation.
//!
//! The host owns the packed sprite sheet and a blit primitive; the core
//! only computes which sub-rectangle of the sheet goes where. Every draw
//! function here returns blit commands instead of touching a framebuffer.

use vstd::prelude::*;
use crate::entity::{GolemState, IllagerClan, IllagerState, VillagerClan};
use crate::grid::CELL_SIZE;

verus! {

/// A packed sprite sheet: header metadata and the packed pixel bytes.
pub struct Sprite {
    pub bytes: Vec<u8>,
    pub width: u32,
    pub height: u32,
    pub flags: u32,
}

/// The four palette colours and transparency.
#[derive(Clone, Copy, PartialEq, Eq, Structural, Debug)]
pub enum Color {
    Lightest,
    Lighter,
    Darker,
    Darkest,
    Transparent,
}

/// Raw draw-colour index of a palette colour.
pub open spec fn spec_color_raw(c: Color) -> u8 {
    match c {
        Color::Lightest => 1,
        Color::Lighter => 2,
        Color::Darker => 3,
        Color::Darkest => 4,
        Color::Transparent => 0,
    }
}

impl Color {
    /// Raw draw-colour index of this palette colour.
    pub fn to_raw(self) -> (r: u8)
        ensures
            r == spec_color_raw(self),
    {
        match self {
            Color::Lightest => 1,
            Color::Lighter => 2,
            Color::Darker => 3,
            Color::Darkest => 4,
            Color::Transparent => 0,
        }
    }
}

/// One blit of a sub-rectangle of the sprite sheet to a destination
/// pixel position, with optional extra blit flags.
#[derive(Clone, Copy, PartialEq, Eq, Structural, Debug)]
pub struct BlitCommand {
    pub x: i32,
    pub y: i32,
    pub width: u32,
    pub height: u32,
    pub src_x: u32,
    pub src_y: u32,
    pub flags_extra: u32,
}

/// Blit command for a sheet sub-rectangle without extra flags.
pub open spec fn spec_blit(x: int, y: int, width: u32, height: u32, src_x: u32, src_y: u32) -> BlitCommand {
    BlitCommand {
        x: x as i32,
        y: y as i32,
        width,
        height,
        src_x,
        src_y,
        flags_extra: 0,
    }
}

/// Compute the blit of a general sheet sub-rectangle.
pub fn draw_sprite(x: i32, y: i32, width: u32, height: u32, src_x: u32, src_y: u32) -> (r:
    BlitCommand)
    ensures
        r == spec_blit(x as int, y as int, width, height, src_x, src_y),
{
    BlitCommand { x, y, width, height, src_x, src_y, flags_extra: 0 }
}

/// Compute the blit of a sheet sub-rectangle with extra blit flags.
pub fn draw_sprite_with_extra_flags(
    x: i32,
    y: i32,
    width: u32,
    height: u32,
    src_x: u32,
    src_y: u32,
    flags: u32,
) -> (r: BlitCommand)
    ensures
        r == (BlitCommand { flags_extra: flags, ..spec_blit(x as int, y as int, width, height, src_x, src_y) }),
{
    BlitCommand { x, y, width, height, src_x, src_y, flags_extra: flags }
}

/// Compute the blit of one full grid cell.
pub fn draw_grid_sprite(src_x: u32, src_y: u32, dst_x: i32, dst_y: i32) -> (r: BlitCommand)
    ensures
        r == spec_blit(dst_x as int, dst_y as int, CELL_SIZE as u32, CELL_SIZE as u32, src_x, src_y),
{
    draw_sprite(dst_x, dst_y, CELL_SIZE as u32, CELL_SIZE as u32, src_x, src_y)
}

/// Compute the blit of one subcell of a multi-cell sprite: the subcell
/// index selects the matching cell-sized sub-rectangle of the sheet.
pub fn draw_multi_grid_sprite(
    index: u8,
    mega_width: u8,
    src_x: u32,
    src_y: u32,
    dst_x: i32,
    dst_y: i32,
) -> (r: BlitCommand)
    requires
        mega_width >= 1,
        src_x + (index as int % mega_width as int) * CELL_SIZE as int <= u32::MAX,
        src_y + (index as int / mega_width as int) * CELL_SIZE as int <= u32::MAX,
    ensures
        r == spec_blit(
            dst_x as int,
            dst_y as int,
            CELL_SIZE as u32,
            CELL_SIZE as u32,
            (src_x + (index as int % mega_width as int) * CELL_SIZE as int) as u32,
            (src_y + (index as int / mega_width as int) * CELL_SIZE as int) as u32,
        ),
{
    let x_offset = (index % mega_width) as u32;
    let y_offset = (index / mega_width) as u32;
    draw_grid_sprite(
        x_offset * (CELL_SIZE as u32) + src_x,
        y_offset * (CELL_SIZE as u32) + src_y,
        dst_x,
        dst_y,
    )
}

/// Blit command of a sub-rectangle that sits `(ox, oy)` inside both the
/// destination cell and its source rectangle on the sheet.
pub open spec fn spec_sublice(
    dst_x: int,
    dst_y: int,
    width: u32,
    height: u32,
    src_x: u32,
    src_y: u32,
    ox: u32,
    oy: u32,
) -> BlitCommand {
    spec_blit(dst_x + ox, dst_y + oy, width, height, (src_x + ox) as u32, (src_y + oy) as u32)
}

/// Compute the blit of a rectangular slice of an entity sprite, offset
/// equally in the destination and in the sheet.
fn custom_rectangular_sublice(
    dst_x: i32,
    dst_y: i32,
    width: u32,
    height: u32,
    src_x: u32,
    src_y: u32,
    inside_rect_offset_x: u32,
    inside_rect_offset_y: u32,
) -> (r: BlitCommand)
    requires
        inside_rect_offset_x <= i32::MAX,
        inside_rect_offset_y <= i32::MAX,
        dst_x + inside_rect_offset_x <= i32::MAX,
        dst_y + inside_rect_offset_y <= i32::MAX,
        src_x + inside_rect_offset_x <= u32::MAX,
        src_y + inside_rect_offset_y <= u32::MAX,
    ensures
        r == spec_sublice(
            dst_x as int,
            dst_y as int,
            width,
            height,
            src_x,
            src_y,
            inside_rect_offset_x,
            inside_rect_offset_y,
        ),
{
    draw_sprite(
        dst_x + inside_rect_offset_x as i32,
        dst_y + inside_rect_offset_y as i32,
        width,
        height,
        src_x + inside_rect_offset_x,
        src_y + inside_rect_offset_y,
    )
}

/// The blit commands composing a villager-clan unit sprite.
pub open spec fn spec_villager_entity_sprites(dst_x: int, dst_y: int, t: VillagerClan) -> Seq<
    BlitCommand,
> {
    match t {
        VillagerClan::Villager => seq![
            spec_sublice(dst_x, dst_y, 6, 8, 40, 0, 2, 0),
            spec_sublice(dst_x, dst_y, 4, 2, 40, 0, 3, 8),
        ],
        VillagerClan::Smith(_) => seq![
            spec_sublice(dst_x, dst_y, 6, 8, 60, 0, 2, 0),
            spec_sublice(dst_x, dst_y, 4, 2, 60, 0, 3, 8),
        ],
        VillagerClan::Farmer => seq![
            spec_sublice(dst_x, dst_y, 6, 1, 50, 0, 2, 0),
            spec_sublice(dst_x, dst_y, 10, 1, 50, 0, 0, 1),
            spec_sublice(dst_x, dst_y, 6, 6, 50, 0, 2, 2),
            spec_sublice(dst_x, dst_y, 4, 2, 50, 0, 3, 8),
        ],
        VillagerClan::Golem(_, GolemState::Idle) => seq![
            spec_sublice(dst_x, dst_y, 2, 3, 70, 0, 0, 6),
            spec_sublice(dst_x, dst_y, 2, 10, 70, 0, 2, 0),
            spec_sublice(dst_x, dst_y, 2, 9, 70, 0, 4, 0),
            spec_sublice(dst_x, dst_y, 2, 10, 70, 0, 6, 0),
            spec_sublice(dst_x, dst_y, 2, 3, 70, 0, 8, 6),
        ],
        VillagerClan::Golem(_, GolemState::Attack) => seq![
            spec_sublice(dst_x, dst_y, 2, 3, 60, 10, 0, 4),
            spec_sublice(dst_x, dst_y, 2, 10, 60, 10, 2, 0),
            spec_sublice(dst_x, dst_y, 2, 9, 60, 10, 4, 0),
            spec_sublice(dst_x, dst_y, 2, 10, 60, 10, 6, 0),
            spec_sublice(dst_x, dst_y, 2, 3, 60, 10, 8, 4),
        ],
        VillagerClan::Golem(_, GolemState::Broken) => seq![
            spec_sublice(dst_x, dst_y, 2, 3, 70, 10, 0, 6),
            spec_sublice(dst_x, dst_y, 2, 10, 70, 10, 2, 0),
            spec_sublice(dst_x, dst_y, 2, 9, 70, 10, 4, 0),
            spec_sublice(dst_x, dst_y, 2, 10, 70, 10, 6, 0),
            spec_sublice(dst_x, dst_y, 2, 3, 70, 10, 8, 6),
        ],
    }
}

/// Compute the blits of a villager-clan unit, assembled from rectangular
/// slices of its sheet sprite.
pub fn draw_villager_entity(dst_x: i32, dst_y: i32, t: &VillagerClan) -> (r: Vec<BlitCommand>)
    requires
        dst_x + 8 <= i32::MAX,
        dst_y + 8 <= i32::MAX,
    ensures
        r@ == spec_villager_entity_sprites(dst_x as int, dst_y as int, *t),
{
    let mut r: Vec<BlitCommand> = Vec::new();
    match t {
        VillagerClan::Villager => {
            r.push(custom_rectangular_sublice(dst_x, dst_y, 6, 8, 40, 0, 2, 0));
            r.push(custom_rectangular_sublice(dst_x, dst_y, 4, 2, 40, 0, 3, 8));
        },
        VillagerClan::Smith(_) => {
            r.push(custom_rectangular_sublice(dst_x, dst_y, 6, 8, 60, 0, 2, 0));
            r.push(custom_rectangular_sublice(dst_x, dst_y, 4, 2, 60, 0, 3, 8));
        },
        VillagerClan::Farmer => {
            r.push(custom_rectangular_sublice(dst_x, dst_y, 6, 1, 50, 0, 2, 0));
            r.push(custom_rectangular_sublice(dst_x, dst_y, 10, 1, 50, 0, 0, 1));
            r.push(custom_rectangular_sublice(dst_x, dst_y, 6, 6, 50, 0, 2, 2));
            r.push(custom_rectangular_sublice(dst_x, dst_y, 4, 2, 50, 0, 3, 8));
        },
        VillagerClan::Golem(_, GolemState::Idle) => {
            r.push(custom_rectangular_sublice(dst_x, dst_y, 2, 3, 70, 0, 0, 6));
            r.push(custom_rectangular_sublice(dst_x, dst_y, 2, 10, 70, 0, 2, 0));
            r.push(custom_rectangular_sublice(dst_x, dst_y, 2, 9, 70, 0, 4, 0));
            r.push(custom_rectangular_sublice(dst_x, dst_y, 2, 10, 70, 0, 6, 0));
            r.push(custom_rectangular_sublice(dst_x, dst_y, 2, 3, 70, 0, 8, 6));
        },
        VillagerClan::Golem(_, GolemState::Attack) => {
            r.push(custom_rectangular_sublice(dst_x, dst_y, 2, 3, 60, 10, 0, 4));
            r.push(custom_rectangular_sublice(dst_x, dst_y, 2, 10, 60, 10, 2, 0));
            r.push(custom_rectangular_sublice(dst_x, dst_y, 2, 9, 60, 10, 4, 0));
            r.push(custom_rectangular_sublice(dst_x, dst_y, 2, 10, 60, 10, 6, 0));
            r.push(custom_rectangular_sublice(dst_x, dst_y, 2, 3, 60, 10, 8, 4));
        },
        VillagerClan::Golem(_, GolemState::Broken) => {
            r.push(custom_rectangular_sublice(dst_x, dst_y, 2, 3, 70, 10, 0, 6));
            r.push(custom_rectangular_sublice(dst_x, dst_y, 2, 10, 70, 10, 2, 0));
            r.push(custom_rectangular_sublice(dst_x, dst_y, 2, 9, 70, 10, 4, 0));
            r.push(custom_rectangular_sublice(dst_x, dst_y, 2, 10, 70, 10, 6, 0));
            r.push(custom_rectangular_sublice(dst_x, dst_y, 2, 3, 70, 10, 8, 6));
        },
    }
    proof {
        assert(r@ =~= spec_villager_entity_sprites(dst_x as int, dst_y as int, *t));
    }
    r
}

/// Sheet column of an illager-clan unit sprite.
pub open spec fn spec_illager_src_x(t: IllagerClan) -> u32 {
    match t {
        IllagerClan::Vindicator => 0,
        IllagerClan::Pillager => 10,
        IllagerClan::Evoker(_) => 20,
        IllagerClan::Vex(_) => 30,
    }
}

/// Sheet row of an illager unit's behavioural state.
pub open spec fn spec_illager_src_y(state: IllagerState) -> u32 {
    match state {
        IllagerState::Idle => 0,
        IllagerState::Action => 10,
    }
}

/// Compute the blit of an illager-clan unit: the sheet column is chosen
/// by the unit kind and the row by its behavioural state.
pub fn draw_illager_entity(dst_x: i32, dst_y: i32, t: &IllagerClan, state: &IllagerState) -> (r:
    BlitCommand)
    ensures
        r == spec_blit(
            dst_x as int,
            dst_y as int,
            CELL_SIZE as u32,
            CELL_SIZE as u32,
            spec_illager_src_x(*t),
            spec_illager_src_y(*state),
        ),
{
    let src_x: u32 = match t {
        IllagerClan::Vindicator => 0,
        IllagerClan::Pillager => 10,
        IllagerClan::Evoker(_) => 20,
        IllagerClan::Vex(_) => 30,
    };
    let src_y: u32 = match state {
        IllagerState::Idle => 0,
        IllagerState::Action => 10,
    };
    draw_grid_sprite(src_x, src_y, dst_x, dst_y)
}

} // verus!
