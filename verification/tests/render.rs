use gameboy_emulator::machine::GameBoy;
use gameboy_emulator::power::fallback_boot_rom;
use gameboy_emulator::render::{draw_blocks, draw_line_border, draw_rectangle};

#[test]
fn rectangle_fills_inclusive_ranges_only() {
    let mut buffer = vec![0u32; 8 * 6];
    draw_rectangle(&mut buffer, 7, 2, 4, 1, 3, 8);
    for y in 0..6 {
        for x in 0..8 {
            let inside = (2..=4).contains(&x) && (1..=3).contains(&y);
            assert_eq!(buffer[x + y * 8], if inside { 7 } else { 0 });
        }
    }
}

#[test]
fn rectangle_of_one_pixel() {
    let mut buffer = vec![1u32; 9];
    draw_rectangle(&mut buffer, 5, 1, 1, 1, 1, 3);
    assert_eq!(buffer, vec![1, 1, 1, 1, 5, 1, 1, 1, 1]);
}

#[test]
fn border_is_drawn_one_pixel_outside() {
    let mut buffer = vec![0u32; 8 * 8];
    draw_line_border(&mut buffer, 2, 4, 3, 5, 8);
    for y in 0..8usize {
        for x in 0..8usize {
            let in_outer = (1..=5).contains(&x) && (2..=6).contains(&y);
            let in_inner = (2..=4).contains(&x) && (3..=5).contains(&y);
            let expect = if in_outer && !in_inner { 0xFFFF00FF } else { 0 };
            assert_eq!(buffer[x + y * 8], expect);
        }
    }
}

fn machine() -> GameBoy {
    GameBoy::power_on(
        fallback_boot_rom(),
        vec![0; 0x2000],
        vec![0; 0x2000],
        vec![0; 0xA0],
        vec![0; 0x7F],
    )
    .unwrap()
}

#[test]
fn blocks_scale_a_picture() {
    let colors = vec![1u32, 2, 3, 4, 5, 6];
    let mut buffer = vec![0u32; 10 * 8];
    draw_blocks(&mut buffer, &colors, 3, 2, 1, 2, 2, 10);
    for y in 0..8usize {
        for x in 0..10usize {
            let inside = (1..7).contains(&x) && (2..6).contains(&y);
            let expect = if inside { colors[(x - 1) / 2 + ((y - 2) / 2) * 3] } else { 0 };
            assert_eq!(buffer[x + y * 10], expect);
        }
    }
}

#[test]
fn screen_is_drawn_scaled_inside_an_outline() {
    let mut g = machine();
    g.store_byte_to_memory(0xFF47, 0xE4);
    g.store_byte_to_memory(0x8000, 0x80);
    g.store_byte_to_memory(0x8001, 0x80);
    g.store_byte_to_memory(0xFF40, 0x91);
    for _ in 0..(4560 + 154 * 456) {
        g.run_ppu_cycle();
    }
    let width = 340;
    let mut buffer = vec![7u32; width * 300];
    g.render_screen(&mut buffer, 3, 2, 2, width);
    assert_eq!(buffer[4 + 3 * width], 0x00000000);
    assert_eq!(buffer[5 + 4 * width], 0x00000000);
    assert_eq!(buffer[6 + 3 * width], 0x00EAEAEA);
    assert_eq!(buffer[4 + 5 * width], 0x00EAEAEA);
    assert_eq!(buffer[323 + 290 * width], 0x00EAEAEA);
    assert_eq!(buffer[3 + 3 * width], 7);
    assert_eq!(buffer[2 + 1 * width], 0xFFFF00FF);
    assert_eq!(buffer[324 + 1 * width], 0xFFFF00FF);
    assert_eq!(buffer[2 + 291 * width], 0xFFFF00FF);
    assert_eq!(buffer[324 + 291 * width], 0xFFFF00FF);
    assert_eq!(buffer[325 + 291 * width], 7);
    assert_eq!(buffer[1 + 1 * width], 7);
    let mut outline = vec![7u32; width * 300];
    g.render_screen(&mut outline, 3, 2, 0, width);
    assert_eq!(outline[2 + 1 * width], 0xFFFF00FF);
    assert_eq!(outline[4 + 3 * width], 0xFFFF00FF);
    assert_eq!(outline[3 + 2 * width], 7);
}

#[test]
fn palettes_are_drawn_as_outlined_squares() {
    let mut g = machine();
    g.store_byte_to_memory(0xFF47, 0xE4);
    g.store_byte_to_memory(0xFF48, 0x00);
    g.store_byte_to_memory(0xFF49, 0xFF);
    let width = 64;
    let mut buffer = vec![7u32; width * 48];
    g.render_palettes(&mut buffer, 4, 5, 10, width);
    let shades = [0x00EAEAEAu32, 0x009C9C9C, 0x004E4E4E, 0x00000000];
    for column in 0..4 {
        assert_eq!(buffer[(4 + 10 * column + 5) + (5 + 5) * width], shades[column]);
        assert_eq!(buffer[(4 + 10 * column + 5) + (15 + 5) * width], shades[0]);
        assert_eq!(buffer[(4 + 10 * column + 5) + (25 + 5) * width], shades[3]);
    }
    assert_eq!(buffer[3 + 4 * width], 0xFFFF00FF);
    assert_eq!(buffer[45 + 36 * width], 0xFFFF00FF);
    assert_eq!(buffer[13 + 10 * width], 0xFFFF00FF);
    assert_eq!(buffer[2 + 4 * width], 7);
    assert_eq!(buffer[46 + 36 * width], 7);
}

#[test]
fn tile_view_decodes_tiles() {
    let mut g = machine();
    g.store_byte_to_memory(0xC000, 0x80);
    g.store_byte_to_memory(0xC001, 0x00);
    g.store_byte_to_memory(0xC012, 0x01);
    g.store_byte_to_memory(0xC013, 0x01);
    g.store_byte_to_memory(0xC020 + 14, 0x00);
    g.store_byte_to_memory(0xC020 + 15, 0xFF);
    let picture = g.tile_picture(0xC000, 2, 2);
    assert_eq!(picture.len(), 16 * 16);
    assert_eq!(picture[0], 0xFF555555);
    assert_eq!(picture[1], 0xFF000000);
    assert_eq!(picture[(8 + 7) + 1 * 16], 0xFFFFFFFF);
    assert_eq!(picture[(8 + 6) + 1 * 16], 0xFF000000);
    for x in 0..8 {
        assert_eq!(picture[x + 15 * 16], 0xFFAAAAAA);
    }
    assert_eq!(picture[8 + 15 * 16], 0xFF000000);
}

#[test]
fn memory_view_is_drawn_scaled_inside_an_outline() {
    let mut g = machine();
    g.store_byte_to_memory(0xC000, 0x80);
    g.store_byte_to_memory(0xC001, 0x80);
    let cycles = g.registers().cycles_to_wait;
    let width = 64;
    let mut buffer = vec![7u32; width * 64];
    g.render_memory(&mut buffer, 0xC000, 2, 1, 2, 3, 3, width);
    assert_eq!(g.registers().cycles_to_wait, cycles);
    for y in 0..3 {
        for x in 0..3 {
            assert_eq!(buffer[(2 + x) + (3 + y) * width], 0xFFFFFFFF);
        }
    }
    assert_eq!(buffer[5 + 3 * width], 0xFF000000);
    assert_eq!(buffer[2 + 6 * width], 0xFF000000);
    assert_eq!(buffer[(2 + 47) + (3 + 23) * width], 0xFF000000);
    assert_eq!(buffer[1 + 2 * width], 0xFFFF00FF);
    assert_eq!(buffer[(2 + 48 + 1) + (3 + 24 + 1) * width], 0xFFFF00FF);
    assert_eq!(buffer[(2 + 48) + (3 + 24) * width], 7);
    assert_eq!(buffer[0], 7);
}

#[test]
fn screen_without_room_for_an_outline_is_drawn_bare() {
    let mut g = machine();
    g.store_byte_to_memory(0xFF47, 0xE4);
    g.store_byte_to_memory(0x8000, 0x80);
    g.store_byte_to_memory(0x8001, 0x80);
    g.store_byte_to_memory(0xFF40, 0x91);
    for _ in 0..(4560 + 154 * 456) {
        g.run_ppu_cycle();
    }
    let width = 161;
    let mut buffer = vec![7u32; width * 145];
    g.render_screen(&mut buffer, 0, 0, 1, width);
    assert_eq!(buffer[0], 7);
    assert_eq!(buffer[width], 7);
    assert_eq!(buffer[1 + width], 0x00000000);
    assert_eq!(buffer[2 + width], 0x00EAEAEA);
    assert_eq!(buffer[160 + 144 * width], 0x00EAEAEA);
    for x in 0..width {
        assert_eq!(buffer[x], 7);
    }
}

#[test]
fn screen_wraps_around_narrow_rows_in_writing_order() {
    let mut g = machine();
    g.store_byte_to_memory(0xFF47, 0xE4);
    for row in 0..8u16 {
        g.store_byte_to_memory(0x8000 + row * 2, 0xFF);
        g.store_byte_to_memory(0x8000 + row * 2 + 1, 0xFF);
    }
    g.store_byte_to_memory(0xFF40, 0x91);
    for _ in 0..(4560 + 154 * 456) {
        g.run_ppu_cycle();
    }
    let width = 10;
    let mut buffer = vec![7u32; 161 + 145 * 10];
    g.render_screen(&mut buffer, 0, 0, 1, width);
    let picture = g.framebuffer();
    let mut expect = vec![7u32; 161 + 145 * 10];
    for y in 0..144 {
        for x in 0..160 {
            expect[(x + 1) + (y + 1) * width] = picture[x + y * 160];
        }
    }
    assert_eq!(buffer, expect);
}

#[test]
fn outline_edges_are_drawn_where_their_range_exists() {
    let mut buffer = vec![0u32; 8 * 8];
    draw_line_border(&mut buffer, 5, 1, 2, 3, 8);
    for y in 0..8usize {
        for x in 0..8usize {
            let on_edge = (x == 4 || x == 2) && (1..=4).contains(&y);
            assert_eq!(buffer[x + y * 8], if on_edge { 0xFFFF00FF } else { 0 });
        }
    }
    let mut buffer = vec![0u32; 8 * 8];
    draw_line_border(&mut buffer, 0, 3, 0, 3, 8);
    assert!(buffer.iter().all(|p| *p == 0));
    let mut buffer = vec![0u32; 8 * 8];
    draw_line_border(&mut buffer, 2, 3, 6, 1, 8);
    for y in 0..8usize {
        for x in 0..8usize {
            let on_edge = (y == 5 || y == 2) && (1..=4).contains(&x);
            assert_eq!(buffer[x + y * 8], if on_edge { 0xFFFF00FF } else { 0 });
        }
    }
}
