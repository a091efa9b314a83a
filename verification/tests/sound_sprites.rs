use village_siege::entity::{GolemState, IllagerClan, IllagerState, VillagerClan};
use village_siege::sound::{play_me_some_tones______boy, Noise, TONE_MODE1, TONE_NOISE, TONE_TRIANGLE};
use village_siege::sprites::{
    draw_grid_sprite, draw_illager_entity, draw_multi_grid_sprite, draw_sprite,
    draw_sprite_with_extra_flags, draw_villager_entity, Color,
};

#[test]
fn cues_expand_to_their_tone_commands() {
    let ting = play_me_some_tones______boy(Noise::Ting);
    assert_eq!(ting.len(), 1);
    assert_eq!(
        (ting[0].frequency, ting[0].duration, ting[0].volume, ting[0].flags),
        (300, 3, 5, TONE_MODE1)
    );

    let kaboom = play_me_some_tones______boy(Noise::KaboomNoise);
    assert_eq!(kaboom.len(), 3);
    assert_eq!(
        (kaboom[0].frequency, kaboom[0].duration, kaboom[0].volume, kaboom[0].flags),
        (300, 60, 15, TONE_NOISE)
    );
    assert_eq!(kaboom[1].flags, TONE_TRIANGLE);
    assert_eq!(kaboom[2].duration, 25);

    let burn = play_me_some_tones______boy(Noise::Burn);
    assert_eq!(burn.len(), 1);
    assert_eq!(burn[0].flags, TONE_NOISE);

    let deny = play_me_some_tones______boy(Noise::SixSeven);
    assert_eq!(deny[0].frequency, 100);

    let cycle = play_me_some_tones______boy(Noise::TungTungTungSahour);
    assert_eq!(cycle[0].frequency, 600);
}

#[test]
fn color_raw_indices() {
    assert_eq!(Color::Lightest.to_raw(), 1);
    assert_eq!(Color::Lighter.to_raw(), 2);
    assert_eq!(Color::Darker.to_raw(), 3);
    assert_eq!(Color::Darkest.to_raw(), 4);
    assert_eq!(Color::Transparent.to_raw(), 0);
}

#[test]
fn plain_blits_carry_their_arguments() {
    let b = draw_sprite(3, -4, 17, 27, 51, 120);
    assert_eq!((b.x, b.y, b.width, b.height, b.src_x, b.src_y, b.flags_extra), (3, -4, 17, 27, 51, 120, 0));

    let b = draw_sprite_with_extra_flags(0, 0, 10, 10, 60, 110, 2);
    assert_eq!(b.flags_extra, 2);

    let b = draw_grid_sprite(30, 40, 50, 60);
    assert_eq!((b.x, b.y, b.width, b.height, b.src_x, b.src_y), (50, 60, 10, 10, 30, 40));
}

#[test]
fn multi_grid_sprite_selects_the_subcell_rectangle() {
    // Subcell 3 of a 2-wide sprite: one cell right, one cell down.
    let b = draw_multi_grid_sprite(3, 2, 0, 20, 70, 80);
    assert_eq!((b.src_x, b.src_y), (10, 30));
    assert_eq!((b.x, b.y, b.width, b.height), (70, 80, 10, 10));

    // Subcell 4 of the 2x3 church: root column, two cells down.
    let b = draw_multi_grid_sprite(4, 2, 0, 80, 0, 0);
    assert_eq!((b.src_x, b.src_y), (0, 100));

    // A 1-wide lamppost: subcell 1 is one cell down.
    let b = draw_multi_grid_sprite(1, 1, 20, 40, 0, 0);
    assert_eq!((b.src_x, b.src_y), (20, 50));
}

#[test]
fn villager_sprites_are_sliced_from_the_sheet() {
    let v = draw_villager_entity(100, 50, &VillagerClan::Villager);
    assert_eq!(v.len(), 2);
    assert_eq!((v[0].x, v[0].y, v[0].width, v[0].height), (102, 50, 6, 8));
    assert_eq!((v[0].src_x, v[0].src_y), (42, 0));
    assert_eq!((v[1].x, v[1].y, v[1].width, v[1].height), (103, 58, 4, 2));

    let f = draw_villager_entity(0, 0, &VillagerClan::Farmer);
    assert_eq!(f.len(), 4);
    assert_eq!((f[1].width, f[1].height), (10, 1));

    let g = draw_villager_entity(0, 0, &VillagerClan::Golem(0, GolemState::Idle));
    assert_eq!(g.len(), 5);
    assert_eq!((g[0].src_x, g[0].src_y), (70, 6));

    let s = draw_villager_entity(0, 0, &VillagerClan::Smith(0));
    assert_eq!((s[0].src_x, s[0].src_y), (62, 0));
}

#[test]
fn illager_sprites_come_from_kind_column_and_state_row() {
    let b = draw_illager_entity(5, 6, &IllagerClan::Vindicator, &IllagerState::Idle);
    assert_eq!((b.src_x, b.src_y, b.x, b.y), (0, 0, 5, 6));
    let b = draw_illager_entity(0, 0, &IllagerClan::Pillager, &IllagerState::Action);
    assert_eq!((b.src_x, b.src_y), (10, 10));
    let b = draw_illager_entity(0, 0, &IllagerClan::Evoker(0), &IllagerState::Idle);
    assert_eq!(b.src_x, 20);
    let b = draw_illager_entity(0, 0, &IllagerClan::Vex(0), &IllagerState::Action);
    assert_eq!((b.src_x, b.src_y), (30, 10));
}
