use msx_emulator::components::vdp::TMS9918;
use msx_emulator::renderer::Renderer;

fn text_vdp() -> TMS9918 {
    let mut vdp = TMS9918::new();
    vdp.registers[2] = 2;
    // Character 'A' (0x41): pattern bytes at 0x0800 + 0x41 * 8.
    let pattern = [0x20u8, 0x50, 0x88, 0x88, 0xF8, 0x88, 0x88, 0x03];
    for (line, byte) in pattern.iter().enumerate() {
        vdp.vram[0x0800 + 0x41 * 8 + line] = *byte;
    }
    // All ones for character 1.
    for line in 0..8 {
        vdp.vram[0x0800 + 8 + line] = 0xFF;
    }
    // Row 0: "A" in column 0, character 1 in column 39. Row 1: "A" in column 2.
    vdp.vram[0] = 0x41;
    vdp.vram[39] = 0x01;
    vdp.vram[40 + 2] = 0x41;
    vdp
}

#[test]
fn scanline_writes_240_pixels_of_its_row() {
    let mut vdp = text_vdp();
    for pixel in vdp.screen_buffer.iter_mut() {
        *pixel = 9;
    }
    vdp.render_scanline(1);
    let row = &vdp.screen_buffer[256..512];
    // Pattern 0x50 = 0101 0000: pixels 1 and 3 of the first cell are lit.
    assert_eq!(&row[0..6], &[1, 15, 1, 15, 1, 1]);
    assert_eq!(&row[6..12], &[1, 1, 1, 1, 1, 1]);
    assert_eq!(&row[234..240], &[15, 15, 15, 15, 15, 15]);
    assert!(row[0..240].iter().all(|pixel| *pixel == 1 || *pixel == 15));
    // The last 16 pixels of the row and every other row are untouched.
    assert!(row[240..256].iter().all(|pixel| *pixel == 9));
    assert!(vdp.screen_buffer[0..256].iter().all(|pixel| *pixel == 9));
    assert!(vdp.screen_buffer[512..].iter().all(|pixel| *pixel == 9));
}

#[test]
fn bits_0_and_1_of_a_pattern_are_not_shown() {
    let mut vdp = text_vdp();
    vdp.render_scanline(7);
    assert_eq!(&vdp.screen_buffer[7 * 256..7 * 256 + 6], &[1, 1, 1, 1, 1, 1]);
}

#[test]
fn second_text_row_uses_the_next_40_names() {
    let mut vdp = text_vdp();
    vdp.render_scanline(8);
    let row = &vdp.screen_buffer[8 * 256..9 * 256];
    assert_eq!(&row[0..6], &[1, 1, 1, 1, 1, 1]);
    // Pattern 0x20 = 0010 0000 in column 2.
    assert_eq!(&row[12..18], &[1, 1, 15, 1, 1, 1]);
}

#[test]
fn scanline_out_of_range_gives_no_output() {
    let mut vdp = text_vdp();
    vdp.render_scanline(192);
    vdp.render_scanline(100_000);
    assert!(vdp.screen_buffer.iter().all(|pixel| *pixel == 0));
}

#[test]
fn last_scanline_is_in_range() {
    let mut vdp = text_vdp();
    vdp.vram[23 * 40] = 0x01;
    vdp.render_scanline(191);
    assert_eq!(&vdp.screen_buffer[191 * 256..191 * 256 + 7], &[15, 15, 15, 15, 15, 15, 1]);
    assert_eq!(vdp.screen_buffer[191 * 256 + 239], 1);
    assert_eq!(vdp.screen_buffer[191 * 256 + 240], 0);
}

#[test]
fn pattern_address_beyond_vram_wraps() {
    let mut vdp = TMS9918::new();
    vdp.registers[2] = 16;
    vdp.vram[0] = 0x00;
    // Base 0x4000 wraps to 0: character 0, line 0 is VRAM[0], which is the name byte itself.
    vdp.vram[0] = 0x80;
    vdp.vram[(0x80 * 8) % 0x4000] = 0xFC;
    vdp.render_scanline(0);
    assert_eq!(&vdp.screen_buffer[0..6], &[15, 15, 15, 15, 15, 15]);
}

#[test]
fn renderer_draws_into_its_own_buffer() {
    let vdp = text_vdp();
    let mut renderer = Renderer::new(&vdp);
    renderer.render_text1(1, 7, 2);
    assert_eq!(&renderer.screen_buffer[256..262], &[2, 7, 2, 7, 2, 2]);
    assert!(renderer.screen_buffer[0..256].iter().all(|pixel| *pixel == 0));
    renderer.render_text1(500, 7, 2);
    assert!(renderer.screen_buffer[512..].iter().all(|pixel| *pixel == 0));
    assert!(vdp.screen_buffer.iter().all(|pixel| *pixel == 0));
}

#[test]
fn draw_renders_a_range_of_scanlines() {
    let vdp = text_vdp();
    let mut renderer = Renderer::new(&vdp);
    renderer.draw(0, 0, 256, 192);
    assert_eq!(&renderer.screen_buffer[0..6], &[1, 1, 15, 1, 1, 1]);
    assert_eq!(&renderer.screen_buffer[4 * 256..4 * 256 + 6], &[15, 15, 15, 15, 15, 1]);
    assert_eq!(renderer.screen_buffer[191 * 256], 1);
    assert_eq!(renderer.screen_buffer[191 * 256 + 240], 0);

    let mut renderer = Renderer::new(&vdp);
    // From scanline 2 up to, not including, 10 - 2 = 8.
    renderer.draw(0, 2, 256, 10);
    assert!(renderer.screen_buffer[0..2 * 256].iter().all(|pixel| *pixel == 0));
    assert_eq!(renderer.screen_buffer[2 * 256], 15);
    assert_eq!(renderer.screen_buffer[7 * 256], 1);
    assert!(renderer.screen_buffer[8 * 256..].iter().all(|pixel| *pixel == 0));
}
