use gameboy_emulator::machine::GameBoy;
use gameboy_emulator::power::fallback_boot_rom;

const WHITE: u32 = 0xFFFF_FFFF;
const SHADES: [u32; 4] = [0x00EAEAEA, 0x009C9C9C, 0x004E4E4E, 0x00000000];

fn screen() -> GameBoy {
    GameBoy::power_on(
        fallback_boot_rom(),
        vec![0; 0x2000],
        vec![0; 0x2000],
        vec![0; 0xA0],
        vec![0; 0x7F],
    )
    .unwrap()
}

fn solid_tile(g: &mut GameBoy, tile: u16, color: u8) {
    for row in 0..8u16 {
        g.store_byte_to_memory(0x8000 + tile * 16 + row * 2, if color & 1 != 0 { 0xFF } else { 0 });
        g.store_byte_to_memory(0x8000 + tile * 16 + row * 2 + 1, if color & 2 != 0 { 0xFF } else { 0 });
    }
}

fn dots(g: &mut GameBoy, count: usize) {
    for _ in 0..count {
        g.run_ppu_cycle();
    }
}

fn draw_frame(g: &mut GameBoy) {
    dots(g, 4560 + 154 * 456);
}

fn pixel(g: &GameBoy, x: usize, y: usize) -> u32 {
    g.framebuffer()[x + y * 160]
}

#[test]
fn solid_tile_renders_as_block_without_bleed() {
    for color in 1..=3u8 {
        let mut g = screen();
        solid_tile(&mut g, 1, color);
        g.store_byte_to_memory(0x9800 + 32 * 2 + 3, 1);
        g.store_byte_to_memory(0xFF47, 0xE4);
        g.store_byte_to_memory(0xFF42, 0);
        g.store_byte_to_memory(0xFF43, 0);
        g.store_byte_to_memory(0xFF40, 0x91);
        draw_frame(&mut g);
        for y in 0..144 {
            for x in 0..160 {
                let inside = (24..32).contains(&x) && (16..24).contains(&y);
                let expect = if inside { SHADES[color as usize] } else { SHADES[0] };
                assert_eq!(pixel(&g, x, y), expect, "color {} at ({}, {})", color, x, y);
            }
        }
    }
}

#[test]
fn palette_maps_color_indices() {
    let mut g = screen();
    solid_tile(&mut g, 0, 1);
    g.store_byte_to_memory(0xFF47, 0b00_00_11_00);
    g.store_byte_to_memory(0xFF40, 0x91);
    draw_frame(&mut g);
    assert_eq!(pixel(&g, 0, 0), SHADES[3]);
    assert_eq!(pixel(&g, 159, 143), SHADES[3]);
}

#[test]
fn scroll_moves_the_background() {
    let mut g = screen();
    solid_tile(&mut g, 1, 3);
    g.store_byte_to_memory(0x9800 + 32 + 1, 1);
    g.store_byte_to_memory(0xFF47, 0xE4);
    g.store_byte_to_memory(0xFF43, 3);
    g.store_byte_to_memory(0xFF42, 5);
    g.store_byte_to_memory(0xFF40, 0x91);
    draw_frame(&mut g);
    for y in 0..16 {
        for x in 0..16 {
            let inside = (5..13).contains(&x) && (3..11).contains(&y);
            assert_eq!(pixel(&g, x, y), if inside { SHADES[3] } else { SHADES[0] });
        }
    }
}

#[test]
fn signed_tile_addressing() {
    let mut g = screen();
    solid_tile(&mut g, 256, 2);
    g.store_byte_to_memory(0xFF47, 0xE4);
    g.store_byte_to_memory(0xFF40, 0x81);
    draw_frame(&mut g);
    assert_eq!(pixel(&g, 0, 0), SHADES[2]);
    let mut g = screen();
    solid_tile(&mut g, 256, 2);
    g.store_byte_to_memory(0xFF47, 0xE4);
    g.store_byte_to_memory(0xFF40, 0x91);
    draw_frame(&mut g);
    assert_eq!(pixel(&g, 0, 0), SHADES[0]);
}

#[test]
fn second_tile_map_is_selected_by_control_bit() {
    let mut g = screen();
    solid_tile(&mut g, 1, 3);
    g.store_byte_to_memory(0x9C00, 1);
    g.store_byte_to_memory(0xFF47, 0xE4);
    g.store_byte_to_memory(0xFF40, 0x99);
    draw_frame(&mut g);
    assert_eq!(pixel(&g, 0, 0), SHADES[3]);
    assert_eq!(pixel(&g, 8, 0), SHADES[0]);
}

#[test]
fn background_off_draws_light_gray() {
    let mut g = screen();
    solid_tile(&mut g, 0, 3);
    g.store_byte_to_memory(0xFF47, 0xE4);
    g.store_byte_to_memory(0xFF40, 0x90);
    draw_frame(&mut g);
    assert_eq!(pixel(&g, 10, 10), 0xFFEAEAEA);
}

#[test]
fn display_off_blanks_the_picture_and_rests() {
    let mut g = screen();
    g.store_byte_to_memory(0xFF40, 0x91);
    draw_frame(&mut g);
    assert_eq!(pixel(&g, 0, 0), SHADES[0]);
    g.store_byte_to_memory(0xFF40, 0x11);
    g.run_ppu_cycle();
    for i in 0..(160 * 144) {
        assert_eq!(g.framebuffer()[i], WHITE);
    }
    let ppu = g.ppu_state();
    assert_eq!((ppu.mode, ppu.ly, ppu.lx), (0, 0, 0));
    assert!(ppu.blanked);
    dots(&mut g, 1000);
    assert_eq!(g.ppu_state().ly, 0);
    assert_eq!(g.ppu_state().mode, 0);
    assert_eq!(g.read_memory(0xFF44), 0);
    assert_eq!(g.read_memory(0xFF41) & 0x03, 0);
}

#[test]
fn frame_has_154_lines_of_456_dots() {
    let mut g = screen();
    g.store_byte_to_memory(0xFF40, 0x91);
    dots(&mut g, 4560);
    let start = g.ppu_state();
    assert_eq!((start.mode, start.ly, start.dots_into_curr_mode), (2, 0, 0));
    for line in 0..144u8 {
        assert_eq!(g.ppu_state().ly, line);
        assert_eq!(g.ppu_state().mode, 2);
        dots(&mut g, 79);
        assert_eq!(g.ppu_state().mode, 2);
        dots(&mut g, 1);
        assert_eq!(g.ppu_state().mode, 3);
        dots(&mut g, 171);
        assert_eq!(g.ppu_state().mode, 3);
        dots(&mut g, 1);
        assert_eq!(g.ppu_state().mode, 0);
        dots(&mut g, 456 - 80 - 172 - 1);
        assert_eq!(g.ppu_state().mode, 0);
        assert_eq!(g.ppu_state().ly, line);
        dots(&mut g, 1);
    }
    assert_eq!(g.ppu_state().mode, 1);
    assert_eq!(g.ppu_state().ly, 144);
    for line in 144..154u16 {
        assert_eq!(g.ppu_state().mode, 1);
        dots(&mut g, 455);
        assert_eq!(g.ppu_state().ly as u16, line);
        dots(&mut g, 1);
    }
    let end = g.ppu_state();
    assert_eq!((end.mode, end.ly, end.dots_into_curr_mode), (2, 0, 0));
}

#[test]
fn fine_scroll_lengthens_pixel_transfer() {
    let mut g = screen();
    g.store_byte_to_memory(0xFF43, 5);
    g.store_byte_to_memory(0xFF40, 0x91);
    dots(&mut g, 4560 + 80);
    assert_eq!(g.ppu_state().mode, 3);
    dots(&mut g, 12 + 160 + 5 - 1);
    assert_eq!(g.ppu_state().mode, 3);
    dots(&mut g, 1);
    assert_eq!(g.ppu_state().mode, 0);
}

#[test]
fn vblank_interrupt_is_requested_once_per_frame() {
    let mut g = screen();
    g.store_byte_to_memory(0xFF40, 0x91);
    g.store_byte_to_memory(0xFF41, 0x00);
    dots(&mut g, 4560);
    g.store_byte_to_memory(0xFF0F, 0x00);
    let mut requests = 0;
    for _ in 0..(154 * 456) {
        g.run_ppu_cycle();
        if g.read_memory(0xFF0F) & 0x01 != 0 {
            requests += 1;
            assert_eq!(g.ppu_state().ly, 144);
            assert_eq!(g.read_memory(0xFF0F), 0x01);
            g.store_byte_to_memory(0xFF0F, 0x00);
        }
    }
    assert_eq!(requests, 1);
}

#[test]
fn status_interrupts_follow_their_enable_bits() {
    let mut g = screen();
    g.store_byte_to_memory(0xFF40, 0x91);
    g.store_byte_to_memory(0xFF41, 0x08);
    dots(&mut g, 4560);
    g.store_byte_to_memory(0xFF0F, 0x00);
    dots(&mut g, 80 + 171);
    assert_eq!(g.read_memory(0xFF0F), 0x00);
    dots(&mut g, 1);
    assert_eq!(g.read_memory(0xFF0F), 0x02);
    let mut g = screen();
    g.store_byte_to_memory(0xFF40, 0x91);
    g.store_byte_to_memory(0xFF41, 0x20);
    dots(&mut g, 4560);
    g.store_byte_to_memory(0xFF0F, 0x00);
    dots(&mut g, 1);
    assert_eq!(g.read_memory(0xFF0F), 0x02);
}

#[test]
fn coincidence_sets_flag_and_requests_on_line_change() {
    let mut g = screen();
    g.store_byte_to_memory(0xFF40, 0x91);
    g.store_byte_to_memory(0xFF41, 0x40);
    g.store_byte_to_memory(0xFF45, 5);
    dots(&mut g, 4560);
    g.store_byte_to_memory(0xFF0F, 0x00);
    dots(&mut g, 5 * 456 - 1);
    assert_eq!(g.read_memory(0xFF44), 4);
    assert_eq!(g.read_memory(0xFF41) & 0x04, 0);
    assert_eq!(g.read_memory(0xFF0F), 0x00);
    dots(&mut g, 1);
    assert_eq!(g.read_memory(0xFF44), 5);
    assert_eq!(g.read_memory(0xFF41) & 0x04, 0x04);
    assert_eq!(g.read_memory(0xFF0F), 0x02);
    g.store_byte_to_memory(0xFF0F, 0x00);
    dots(&mut g, 100);
    assert_eq!(g.read_memory(0xFF0F), 0x00);
    assert_eq!(g.read_memory(0xFF41) & 0x04, 0x04);
}

#[test]
fn status_register_shows_mode() {
    let mut g = screen();
    g.store_byte_to_memory(0xFF40, 0x91);
    dots(&mut g, 4560);
    assert_eq!(g.read_memory(0xFF41) & 0x03, 2);
    dots(&mut g, 80);
    assert_eq!(g.read_memory(0xFF41) & 0x03, 3);
    dots(&mut g, 172);
    assert_eq!(g.read_memory(0xFF41) & 0x03, 0);
}

#[test]
fn video_memory_is_closed_during_pixel_transfer() {
    let mut g = screen();
    g.store_byte_to_memory(0x8000, 0x12);
    g.store_byte_to_memory(0xFE00, 0x34);
    g.store_byte_to_memory(0xFF40, 0x91);
    dots(&mut g, 4560);
    assert_eq!(g.ppu_state().mode, 2);
    assert_eq!(g.read_memory(0x8000), 0x12);
    assert_eq!(g.read_memory(0xFE00), 0xFF);
    g.store_byte_to_memory(0xFE00, 0x99);
    dots(&mut g, 80);
    assert_eq!(g.ppu_state().mode, 3);
    assert_eq!(g.read_memory(0x8000), 0xFF);
    g.store_byte_to_memory(0x8000, 0x77);
    assert_eq!(g.read_memory(0xFE00), 0xFF);
    dots(&mut g, 172);
    assert_eq!(g.ppu_state().mode, 0);
    assert_eq!(g.read_memory(0x8000), 0x12);
    assert_eq!(g.read_memory(0xFE00), 0x34);
}

fn sprite(g: &mut GameBoy, index: u16, y: u8, x: u8, tile: u8, attr: u8) {
    g.store_byte_to_memory(0xFE00 + index * 4, y);
    g.store_byte_to_memory(0xFE00 + index * 4 + 1, x);
    g.store_byte_to_memory(0xFE00 + index * 4 + 2, tile);
    g.store_byte_to_memory(0xFE00 + index * 4 + 3, attr);
}

#[test]
fn sprite_is_drawn_over_background_color_zero() {
    let mut g = screen();
    solid_tile(&mut g, 2, 3);
    sprite(&mut g, 0, 16 + 10, 8 + 20, 2, 0x00);
    g.store_byte_to_memory(0xFF47, 0xE4);
    g.store_byte_to_memory(0xFF48, 0xE4);
    g.store_byte_to_memory(0xFF40, 0x93);
    draw_frame(&mut g);
    for y in 0..30 {
        for x in 0..40 {
            let inside = (20..28).contains(&x) && (10..18).contains(&y);
            assert_eq!(pixel(&g, x, y), if inside { SHADES[3] } else { SHADES[0] });
        }
    }
}

#[test]
fn sprite_uses_its_palette() {
    let mut g = screen();
    solid_tile(&mut g, 2, 1);
    sprite(&mut g, 0, 16, 8, 2, 0x10);
    g.store_byte_to_memory(0xFF47, 0xE4);
    g.store_byte_to_memory(0xFF48, 0xE4);
    g.store_byte_to_memory(0xFF49, 0b00_00_10_00);
    g.store_byte_to_memory(0xFF40, 0x93);
    draw_frame(&mut g);
    assert_eq!(pixel(&g, 0, 0), SHADES[2]);
    assert_eq!(pixel(&g, 8, 0), SHADES[0]);
}

#[test]
fn sprite_behind_background_shows_through_color_zero_only() {
    let mut g = screen();
    solid_tile(&mut g, 1, 1);
    solid_tile(&mut g, 2, 3);
    g.store_byte_to_memory(0x9800, 1);
    sprite(&mut g, 0, 16, 8 + 4, 2, 0x80);
    g.store_byte_to_memory(0xFF47, 0xE4);
    g.store_byte_to_memory(0xFF48, 0xE4);
    g.store_byte_to_memory(0xFF40, 0x93);
    draw_frame(&mut g);
    assert_eq!(pixel(&g, 4, 0), SHADES[1]);
    assert_eq!(pixel(&g, 7, 0), SHADES[1]);
    assert_eq!(pixel(&g, 8, 0), SHADES[3]);
    assert_eq!(pixel(&g, 11, 0), SHADES[3]);
    assert_eq!(pixel(&g, 12, 0), SHADES[0]);
}

#[test]
fn earlier_sprite_wins() {
    let mut g = screen();
    solid_tile(&mut g, 2, 3);
    solid_tile(&mut g, 3, 1);
    sprite(&mut g, 0, 16, 8, 2, 0x00);
    sprite(&mut g, 1, 16, 8, 3, 0x00);
    g.store_byte_to_memory(0xFF47, 0xE4);
    g.store_byte_to_memory(0xFF48, 0xE4);
    g.store_byte_to_memory(0xFF40, 0x93);
    draw_frame(&mut g);
    assert_eq!(pixel(&g, 0, 0), SHADES[3]);
}

#[test]
fn sprite_flips() {
    let mut g = screen();
    g.store_byte_to_memory(0x8020, 0x80);
    g.store_byte_to_memory(0x8021, 0x80);
    sprite(&mut g, 0, 16, 8, 2, 0x00);
    sprite(&mut g, 1, 16, 8 + 16, 2, 0x20);
    sprite(&mut g, 2, 16, 8 + 32, 2, 0x40);
    g.store_byte_to_memory(0xFF47, 0xE4);
    g.store_byte_to_memory(0xFF48, 0xE4);
    g.store_byte_to_memory(0xFF40, 0x93);
    draw_frame(&mut g);
    assert_eq!(pixel(&g, 0, 0), SHADES[3]);
    assert_eq!(pixel(&g, 1, 0), SHADES[0]);
    assert_eq!(pixel(&g, 16 + 7, 0), SHADES[3]);
    assert_eq!(pixel(&g, 16, 0), SHADES[0]);
    assert_eq!(pixel(&g, 32, 7), SHADES[3]);
    assert_eq!(pixel(&g, 32, 0), SHADES[0]);
}

#[test]
fn sprite_left_of_screen_is_clipped() {
    let mut g = screen();
    g.store_byte_to_memory(0x8020, 0x0F);
    g.store_byte_to_memory(0x8021, 0x0F);
    sprite(&mut g, 0, 16, 4, 2, 0x00);
    g.store_byte_to_memory(0xFF47, 0xE4);
    g.store_byte_to_memory(0xFF48, 0xE4);
    g.store_byte_to_memory(0xFF40, 0x93);
    draw_frame(&mut g);
    for x in 0..4 {
        assert_eq!(pixel(&g, x, 0), SHADES[3]);
    }
    assert_eq!(pixel(&g, 4, 0), SHADES[0]);
}

#[test]
fn tall_sprites_cover_sixteen_lines() {
    let mut g = screen();
    solid_tile(&mut g, 2, 3);
    solid_tile(&mut g, 3, 1);
    sprite(&mut g, 0, 16, 8, 2, 0x00);
    g.store_byte_to_memory(0xFF47, 0xE4);
    g.store_byte_to_memory(0xFF48, 0xE4);
    g.store_byte_to_memory(0xFF40, 0x97);
    draw_frame(&mut g);
    assert_eq!(pixel(&g, 0, 0), SHADES[3]);
    assert_eq!(pixel(&g, 0, 7), SHADES[3]);
    assert_eq!(pixel(&g, 0, 8), SHADES[1]);
    assert_eq!(pixel(&g, 0, 15), SHADES[1]);
    assert_eq!(pixel(&g, 0, 16), SHADES[0]);
}

#[test]
fn at_most_ten_sprites_per_line_in_table_order() {
    let mut g = screen();
    solid_tile(&mut g, 2, 3);
    for i in 0..12u16 {
        sprite(&mut g, i, 16, 8 + (i as u8) * 8, 2, 0x00);
    }
    g.store_byte_to_memory(0xFF47, 0xE4);
    g.store_byte_to_memory(0xFF48, 0xE4);
    g.store_byte_to_memory(0xFF40, 0x93);
    draw_frame(&mut g);
    for i in 0..10 {
        assert_eq!(pixel(&g, i * 8, 0), SHADES[3]);
    }
    assert_eq!(pixel(&g, 80, 0), SHADES[0]);
    assert_eq!(pixel(&g, 88, 0), SHADES[0]);
}

#[test]
fn sprites_off_are_not_drawn() {
    let mut g = screen();
    solid_tile(&mut g, 2, 3);
    sprite(&mut g, 0, 16, 8, 2, 0x00);
    g.store_byte_to_memory(0xFF47, 0xE4);
    g.store_byte_to_memory(0xFF48, 0xE4);
    g.store_byte_to_memory(0xFF40, 0x91);
    draw_frame(&mut g);
    assert_eq!(pixel(&g, 0, 0), SHADES[0]);
}

#[test]
fn window_covers_background_from_its_origin() {
    let mut g = screen();
    solid_tile(&mut g, 1, 3);
    for i in 0..0x400u16 {
        g.store_byte_to_memory(0x9C00 + i, 1);
    }
    g.store_byte_to_memory(0xFF47, 0xE4);
    g.store_byte_to_memory(0xFF4A, 40);
    g.store_byte_to_memory(0xFF4B, 7 + 80);
    g.store_byte_to_memory(0xFF40, 0xF1);
    draw_frame(&mut g);
    assert_eq!(pixel(&g, 79, 40), SHADES[0]);
    assert_eq!(pixel(&g, 80, 40), SHADES[3]);
    assert_eq!(pixel(&g, 159, 143), SHADES[3]);
    assert_eq!(pixel(&g, 80, 39), SHADES[0]);
    assert_eq!(pixel(&g, 0, 143), SHADES[0]);
}

#[test]
fn solid_tile_next_to_solid_neighbors_does_not_bleed() {
    for (c, d) in [(1u8, 2u8), (2, 3), (3, 1), (0, 3)] {
        let mut g = screen();
        solid_tile(&mut g, 1, c);
        solid_tile(&mut g, 2, d);
        g.store_byte_to_memory(0x9800, 1);
        g.store_byte_to_memory(0x9801, 2);
        g.store_byte_to_memory(0x9820, 2);
        g.store_byte_to_memory(0x9821, 2);
        g.store_byte_to_memory(0xFF47, 0xE4);
        g.store_byte_to_memory(0xFF40, 0x91);
        dots(&mut g, 4560 + 16 * 456);
        assert_eq!(g.ppu_state().ly, 16);
        assert_eq!(g.framebuffer().len(), 160 * 144);
        for y in 0..16 {
            for x in 0..16 {
                let expect = if x < 8 && y < 8 { c } else { d };
                assert_eq!(pixel(&g, x, y), ((expect ^ 3) as u32 * 78) * 0x00010101);
            }
        }
    }
}
