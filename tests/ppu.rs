use nes_core::memory::Memory;
use nes_core::ppu::{Mirroring, NesPPU};

#[test]
fn test_ppu_vram_writes() {
    let mut ppu = NesPPU::new_empty_rom();
    ppu.write_to_ppu_addr(0x23);
    ppu.write_to_ppu_addr(0x05);
    ppu.write_to_data(0x66);

    assert_eq!(ppu.vram[0x0305], 0x66);
}

#[test]
fn test_ppu_vram_reads() {
    let mut ppu = NesPPU::new_empty_rom();
    ppu.write_to_ctrl(0);
    ppu.vram[0x0305] = 0x66;

    ppu.write_to_ppu_addr(0x23);
    ppu.write_to_ppu_addr(0x05);

    ppu.read_data();
    assert_eq!(ppu.addr.read(), 0x2306);
    assert_eq!(ppu.read_data(), 0x66);
}

#[test]
fn test_ppu_vram_reads_cross_page() {
    let mut ppu = NesPPU::new_empty_rom();
    ppu.write_to_ctrl(0);
    ppu.vram[0x01ff] = 0x66;
    ppu.vram[0x0200] = 0x77;

    ppu.write_to_ppu_addr(0x21);
    ppu.write_to_ppu_addr(0xff);

    ppu.read_data();
    assert_eq!(ppu.read_data(), 0x66);
    assert_eq!(ppu.read_data(), 0x77);
}

#[test]
fn test_ppu_vram_reads_step_32() {
    let mut ppu = NesPPU::new_empty_rom();
    ppu.write_to_ctrl(0b100);
    ppu.vram[0x01ff] = 0x66;
    ppu.vram[0x01ff + 32] = 0x77;
    ppu.vram[0x01ff + 64] = 0x88;

    ppu.write_to_ppu_addr(0x21);
    ppu.write_to_ppu_addr(0xff);

    ppu.read_data();
    assert_eq!(ppu.read_data(), 0x66);
    assert_eq!(ppu.read_data(), 0x77);
    assert_eq!(ppu.read_data(), 0x88);
}

#[test]
fn test_vram_horizontal_mirror() {
    let mut ppu = NesPPU::new_empty_rom();
    ppu.write_to_ppu_addr(0x24);
    ppu.write_to_ppu_addr(0x05);

    ppu.write_to_data(0x66);

    ppu.write_to_ppu_addr(0x28);
    ppu.write_to_ppu_addr(0x05);

    ppu.write_to_data(0x77);

    ppu.write_to_ppu_addr(0x20);
    ppu.write_to_ppu_addr(0x05);

    ppu.read_data();
    assert_eq!(ppu.read_data(), 0x66);

    ppu.write_to_ppu_addr(0x2C);
    ppu.write_to_ppu_addr(0x05);

    ppu.read_data();
    assert_eq!(ppu.read_data(), 0x77);
}

#[test]
fn test_vram_vertical_mirror() {
    let mut ppu = NesPPU::new(vec![0; 2048], Mirroring::Vertical);

    ppu.write_to_ppu_addr(0x20);
    ppu.write_to_ppu_addr(0x05);

    ppu.write_to_data(0x66);

    ppu.write_to_ppu_addr(0x2C);
    ppu.write_to_ppu_addr(0x05);

    ppu.write_to_data(0x77);

    ppu.write_to_ppu_addr(0x28);
    ppu.write_to_ppu_addr(0x05);

    ppu.read_data();
    assert_eq!(ppu.read_data(), 0x66);

    ppu.write_to_ppu_addr(0x24);
    ppu.write_to_ppu_addr(0x05);

    ppu.read_data();
    assert_eq!(ppu.read_data(), 0x77);
}

#[test]
fn test_read_status_resets_latch() {
    let mut ppu = NesPPU::new_empty_rom();
    ppu.vram[0x0305] = 0x66;

    ppu.write_to_ppu_addr(0x21);
    ppu.write_to_ppu_addr(0x23);
    ppu.write_to_ppu_addr(0x05);

    ppu.read_data();
    assert_ne!(ppu.read_data(), 0x66);

    ppu.read_status();

    ppu.write_to_ppu_addr(0x23);
    ppu.write_to_ppu_addr(0x05);

    ppu.read_data();
    assert_eq!(ppu.read_data(), 0x66);
}

#[test]
fn test_ppu_vram_mirroring() {
    let mut ppu = NesPPU::new_empty_rom();
    ppu.write_to_ctrl(0);
    ppu.vram[0x0305] = 0x66;

    ppu.write_to_ppu_addr(0x63);
    ppu.write_to_ppu_addr(0x05);

    ppu.read_data();
    assert_eq!(ppu.read_data(), 0x66);
}

#[test]
fn test_read_status_resets_vblank() {
    let mut ppu = NesPPU::new_empty_rom();
    ppu.status.set_vblank_status(true);

    let status = ppu.read_status();

    assert_eq!(status >> 7, 1);
    assert_eq!(ppu.status.snapshot() >> 7, 0);
}

#[test]
fn test_oam_read_write() {
    let mut ppu = NesPPU::new_empty_rom();
    ppu.write_to_oam_addr(0x10);
    ppu.write_to_oam_data(0x66);
    ppu.write_to_oam_data(0x77);

    ppu.write_to_oam_addr(0x10);
    assert_eq!(ppu.read_oam_data(), 0x66);

    ppu.write_to_oam_addr(0x11);
    assert_eq!(ppu.read_oam_data(), 0x77);
}

#[test]
fn test_oam_dma() {
    let mut ppu = NesPPU::new_empty_rom();

    let mut data = [0x66; 256];
    data[0] = 0x77;
    data[255] = 0x88;

    ppu.write_to_oam_addr(0x10);
    ppu.write_oam_dma(&data);

    ppu.write_to_oam_addr(0xf);
    assert_eq!(ppu.read_oam_data(), 0x88);

    ppu.write_to_oam_addr(0x10);
    ppu.write_to_oam_addr(0x77);
    ppu.write_to_oam_addr(0x11);
    ppu.write_to_oam_addr(0x66);
}

#[test]
fn vram_write_and_buffered_read_back() {
    let mut ppu = NesPPU::new_empty_rom();
    ppu.write_to_ppu_addr(0x23);
    ppu.write_to_ppu_addr(0x05);
    ppu.write_to_data(0x66);
    assert_eq!(ppu.vram[0x0305], 0x66);
    ppu.write_to_ppu_addr(0x23);
    ppu.write_to_ppu_addr(0x05);
    ppu.read_data();
    assert_eq!(ppu.read_data(), 0x66);
}

#[test]
fn horizontal_write_2400_read_2000() {
    let mut ppu = NesPPU::new_empty_rom();
    ppu.write_to_ppu_addr(0x24);
    ppu.write_to_ppu_addr(0x00);
    ppu.write_to_data(0x66);
    ppu.write_to_ppu_addr(0x20);
    ppu.write_to_ppu_addr(0x00);
    ppu.read_data();
    assert_eq!(ppu.read_data(), 0x66);
}

#[test]
fn status_read_clears_vblank_and_latch() {
    let mut ppu = NesPPU::new_empty_rom();
    ppu.status.set_vblank_status(true);
    ppu.write_to_ppu_addr(0x3F);
    assert_eq!(ppu.read_status() & 0x80, 0x80);
    assert_eq!(ppu.read_status() & 0x80, 0);
    ppu.write_to_ppu_addr(0x21);
    ppu.write_to_ppu_addr(0x08);
    assert_eq!(ppu.addr.read(), 0x2108);
}

#[test]
fn scroll_shares_latch_with_addr() {
    let mut ppu = NesPPU::new_empty_rom();
    ppu.write_to_scroll(0x11);
    ppu.write_to_ppu_addr(0x22);
    assert_eq!(ppu.scroll.scroll_x, 0x11);
    assert_eq!(ppu.addr.read() & 0xFF, 0x22);
    ppu.read_status();
    ppu.write_to_scroll(0x33);
    assert_eq!(ppu.scroll.scroll_x, 0x33);
}

#[test]
fn palette_backdrop_mirrors() {
    let mut ppu = NesPPU::new_empty_rom();
    ppu.write_to_ppu_addr(0x3F);
    ppu.write_to_ppu_addr(0x10);
    ppu.write_to_data(0x2A);
    ppu.write_to_ppu_addr(0x3F);
    ppu.write_to_ppu_addr(0x00);
    assert_eq!(ppu.read_data(), 0x2A);
    ppu.write_to_ppu_addr(0x3F);
    ppu.write_to_ppu_addr(0x0C);
    ppu.write_to_data(0x15);
    ppu.write_to_ppu_addr(0x3F);
    ppu.write_to_ppu_addr(0x3C);
    assert_eq!(ppu.read_data(), 0x15);
    assert_eq!(ppu.palette_table[0x0C], 0x15);
}

#[test]
fn mirror_table_values() {
    let h = NesPPU::new(vec![], Mirroring::Horizontal);
    let v = NesPPU::new(vec![], Mirroring::Vertical);
    assert_eq!(h.mirror_vram_addr(0x2000), 0x000);
    assert_eq!(h.mirror_vram_addr(0x2400), 0x000);
    assert_eq!(h.mirror_vram_addr(0x2800), 0x400);
    assert_eq!(h.mirror_vram_addr(0x2C10), 0x410);
    assert_eq!(v.mirror_vram_addr(0x2400), 0x400);
    assert_eq!(v.mirror_vram_addr(0x2800), 0x000);
    assert_eq!(v.mirror_vram_addr(0x3C01), 0x401);
}

#[test]
fn vblank_and_nmi_at_line_241() {
    let mut ppu = NesPPU::new_empty_rom();
    ppu.write_to_ctrl(0x80);
    let mut frame = false;
    for _ in 0..241 {
        frame |= ppu.tick(341);
    }
    assert!(!frame);
    assert_eq!(ppu.line, 241);
    assert_eq!(ppu.cycles, 0);
    assert!(!ppu.status.is_in_vblank());
    ppu.tick(1);
    assert!(ppu.status.is_in_vblank());
    assert_eq!(ppu.poll_nmi_interrupt(), Some(1));
    assert_eq!(ppu.poll_nmi_interrupt(), None);
}

#[test]
fn nmi_enable_during_vblank_latches() {
    let mut ppu = NesPPU::new_empty_rom();
    ppu.status.set_vblank_status(true);
    ppu.write_to_ctrl(0x80);
    assert_eq!(ppu.poll_nmi_interrupt(), Some(1));
}

#[test]
fn frame_completes_every_89342_dots() {
    let mut ppu = NesPPU::new_empty_rom();
    let mut frames = 0;
    let mut dots: u32 = 0;
    while dots < 2 * 89342 {
        if ppu.tick(1) {
            frames += 1;
            assert_eq!(dots + 1, frames * 89342);
        }
        dots += 1;
    }
    assert_eq!(frames, 2);
    assert!(!ppu.status.is_in_vblank());
}

#[test]
fn bus_tick_is_three_dots_per_cycle() {
    let mut mem = Memory::new();
    assert!(!mem.tick(100));
    assert_eq!(mem.ppu.cycles, 300);
    assert_eq!(mem.ppu.line, 0);
    assert!(!mem.tick(20));
    assert_eq!(mem.ppu.line, 1);
    assert_eq!(mem.ppu.cycles, 19);
}

#[test]
fn sprite_zero_hit_when_box_covers_dot() {
    let mut ppu = NesPPU::new_empty_rom();
    ppu.oam_data[0] = 2;
    ppu.oam_data[3] = 10;
    ppu.write_to_mask(0b0001_1000);
    ppu.tick(341 * 2 + 9);
    assert!(!ppu.status.is_sprite_zero_hit());
    ppu.tick(1);
    assert!(ppu.status.is_sprite_zero_hit());
    for _ in 0..259 {
        ppu.tick(341);
    }
    assert!(!ppu.status.is_sprite_zero_hit());
}
