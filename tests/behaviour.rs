use nes_ppu::cartridge::Mirroring;
use nes_ppu::instructions::{cpu_opcodes, find_opcode, AddressingMode, OpCode};
use nes_ppu::ppu::{NESPPU, PPU};

#[test]
fn mirror_folds_upper_window_onto_name_tables() {
    for mirroring in [Mirroring::Horizontal, Mirroring::Vertical] {
        let ppu = NESPPU::new(vec![0; 2048], mirroring);
        for a in 0x2000u16..=0x2EFF {
            assert_eq!(ppu.mirror_vram_addr(a + 0x1000), ppu.mirror_vram_addr(a));
            assert!(ppu.mirror_vram_addr(a) < 2048);
        }
    }
}

#[test]
fn mirror_horizontal_offsets() {
    let ppu = NESPPU::new(vec![0; 2048], Mirroring::Horizontal);
    assert_eq!(ppu.mirror_vram_addr(0x2005), 0x005);
    assert_eq!(ppu.mirror_vram_addr(0x2405), 0x005);
    assert_eq!(ppu.mirror_vram_addr(0x2805), 0x405);
    assert_eq!(ppu.mirror_vram_addr(0x2C05), 0x405);
    assert_eq!(ppu.mirror_vram_addr(0x3C05), 0x405);
}

#[test]
fn mirror_vertical_offsets() {
    let ppu = NESPPU::new(vec![0; 2048], Mirroring::Vertical);
    assert_eq!(ppu.mirror_vram_addr(0x2005), 0x005);
    assert_eq!(ppu.mirror_vram_addr(0x2405), 0x405);
    assert_eq!(ppu.mirror_vram_addr(0x2805), 0x005);
    assert_eq!(ppu.mirror_vram_addr(0x2C05), 0x405);
}

#[test]
fn address_bytes_form_masked_pointer() {
    let mut ppu = NESPPU::new_empty_rom();
    ppu.write_addr(0xFF);
    ppu.write_addr(0xFF);
    assert_eq!(ppu.addr.get(), 0x3FFF);
    ppu.write_addr(0x2A);
    ppu.write_addr(0x10);
    ppu.write_data(0x5A);
    assert_eq!(ppu.vram[0x0610], 0x5A);
}

#[test]
fn data_write_advances_by_one_or_thirty_two() {
    let mut ppu = NESPPU::new_empty_rom();
    ppu.write_addr(0x24);
    ppu.write_addr(0x05);
    ppu.write_data(1);
    assert_eq!(ppu.addr.get(), 0x2406);
    ppu.write_ctrl(0b100);
    ppu.write_data(2);
    assert_eq!(ppu.addr.get(), 0x2426);
}

#[test]
fn last_palette_entry_then_step_32() {
    let mut ppu = NESPPU::new_empty_rom();
    ppu.write_addr(0x3F);
    ppu.write_addr(0x1F);
    ppu.write_ctrl(0b100);
    ppu.write_data(9);
    assert_eq!(ppu.addr.get(), 0x3F3F);
    assert_eq!(ppu.palette_table[0x1F], 9);
}

#[test]
fn pointer_wraps_past_top_of_bus() {
    let mut ppu = NESPPU::new_empty_rom();
    ppu.write_addr(0x3F);
    ppu.write_addr(0xF0);
    ppu.addr.increment(32);
    assert_eq!(ppu.addr.get(), 0x0010);
}

#[test]
fn first_read_of_fresh_unit_returns_zero() {
    let mut ppu = NESPPU::new_empty_rom();
    ppu.vram[0x0010] = 0x42;
    ppu.write_addr(0x20);
    ppu.write_addr(0x10);
    assert_eq!(ppu.read_data(), 0);
    assert_eq!(ppu.read_data(), 0x42);
}

#[test]
fn pattern_memory_reads_are_buffered() {
    let mut rom = vec![0; 2048];
    rom[0x100] = 0x11;
    rom[0x101] = 0x22;
    let mut ppu = NESPPU::new(rom, Mirroring::Horizontal);
    ppu.write_addr(0x01);
    ppu.write_addr(0x00);
    assert_eq!(ppu.read_data(), 0);
    assert_eq!(ppu.read_data(), 0x11);
    assert_eq!(ppu.read_data(), 0x22);
}

#[test]
fn pattern_memory_write_is_dropped() {
    let mut ppu = NESPPU::new_empty_rom();
    ppu.write_addr(0x00);
    ppu.write_addr(0x10);
    ppu.write_data(0x99);
    assert!(ppu.chr_rom.iter().all(|b| *b == 0));
    assert!(ppu.vram.iter().all(|b| *b == 0));
    assert_eq!(ppu.addr.get(), 0x0011);
}

#[test]
fn palette_mirrors_alias_and_reads_are_direct() {
    let mut ppu = NESPPU::new_empty_rom();
    ppu.write_addr(0x3F);
    ppu.write_addr(0x10);
    ppu.write_data(0x2C);
    assert_eq!(ppu.palette_table[0x00], 0x2C);
    assert_eq!(ppu.palette_table[0x10], 0);
    ppu.write_addr(0x3F);
    ppu.write_addr(0x1C);
    ppu.write_data(0x0D);
    assert_eq!(ppu.palette_table[0x0C], 0x0D);
    ppu.write_addr(0x3F);
    ppu.write_addr(0x11);
    ppu.write_data(0x07);
    assert_eq!(ppu.palette_table[0x11], 0x07);

    ppu.write_addr(0x3F);
    ppu.write_addr(0x00);
    assert_eq!(ppu.read_data(), 0x2C);
    assert_eq!(ppu.buf, 0);

    ppu.write_addr(0x3F);
    ppu.write_addr(0x10);
    assert_eq!(ppu.read_data(), 0x2C);
    ppu.write_addr(0x3F);
    ppu.write_addr(0x0C);
    assert_eq!(ppu.read_data(), 0x0D);
    ppu.write_addr(0x3F);
    ppu.write_addr(0x1C);
    assert_eq!(ppu.read_data(), 0x0D);
    ppu.write_addr(0x3F);
    ppu.write_addr(0x11);
    assert_eq!(ppu.read_data(), 0x07);
    assert_eq!(ppu.buf, 0);
}

#[test]
fn palette_range_repeats_every_32_bytes() {
    let mut ppu = NESPPU::new_empty_rom();
    ppu.write_addr(0x3F);
    ppu.write_addr(0x25);
    ppu.write_data(0x31);
    assert_eq!(ppu.palette_table[0x05], 0x31);
    ppu.write_addr(0x3F);
    ppu.write_addr(0xF0);
    ppu.write_data(0x12);
    assert_eq!(ppu.palette_table[0x00], 0x12);
    ppu.write_addr(0x3F);
    ppu.write_addr(0xE5);
    assert_eq!(ppu.read_data(), 0x31);
    ppu.write_addr(0x3F);
    ppu.write_addr(0x30);
    assert_eq!(ppu.read_data(), 0x12);
}

#[test]
fn data_write_at_top_of_bus_wraps_pointer() {
    let mut ppu = NESPPU::new_empty_rom();
    ppu.write_ctrl(0b100);
    ppu.write_addr(0x3F);
    ppu.write_addr(0xFF);
    ppu.write_data(0x21);
    assert_eq!(ppu.palette_table[0x1F], 0x21);
    assert_eq!(ppu.addr.get(), 0x001F);
}

#[test]
fn status_read_resets_scroll_latch() {
    let mut ppu = NESPPU::new_empty_rom();
    ppu.write_scroll(0x10);
    ppu.read_status();
    ppu.write_scroll(0x20);
    assert_eq!(ppu.scroll.scroll_x, 0x20);
    ppu.write_scroll(0x30);
    assert_eq!(ppu.scroll.scroll_y, 0x30);
}

#[test]
fn status_read_keeps_other_bits() {
    let mut ppu = NESPPU::new_empty_rom();
    ppu.status.bits = 0xE0;
    assert_eq!(ppu.read_status(), 0xE0);
    assert_eq!(ppu.status.snapshot(), 0x60);
}

#[test]
fn tick_raises_vblank_and_completes_frame() {
    let mut ppu = NESPPU::new_empty_rom();
    ppu.write_ctrl(0x80);
    ppu.status.set_sprite_zero_hit(true);
    let mut total: usize = 0;
    let mut frames = 0;
    while total < 341 * 262 {
        let frame = ppu.tick(1);
        total += 1;
        if total < 341 * 241 {
            assert!(!ppu.status.is_in_vblank());
            assert_eq!(ppu.nmi_interrupt, None);
        }
        if total == 341 * 241 {
            assert!(ppu.status.is_in_vblank());
            assert_eq!(ppu.status.snapshot() & 0x40, 0);
            assert_eq!(ppu.nmi_interrupt, Some(true));
            assert_eq!(ppu.scanline, 241);
        }
        if frame {
            frames += 1;
            assert_eq!(total, 341 * 262);
        }
    }
    assert_eq!(frames, 1);
    assert_eq!(ppu.scanline, 0);
    assert_eq!(ppu.cycles, 0);
    assert!(!ppu.status.is_in_vblank());
    assert_eq!(ppu.nmi_interrupt, None);
}

#[test]
fn tick_with_large_steps_counts_cycles() {
    let mut ppu = NESPPU::new_empty_rom();
    assert!(!ppu.tick(200));
    assert_eq!(ppu.cycles, 200);
    assert!(!ppu.tick(200));
    assert_eq!(ppu.cycles, 59);
    assert_eq!(ppu.scanline, 1);
}

#[test]
fn vblank_without_interrupt_enable_raises_none() {
    let mut ppu = NESPPU::new_empty_rom();
    for _ in 0..241 {
        ppu.tick(200);
        ppu.tick(141);
    }
    assert_eq!(ppu.scanline, 241);
    assert!(ppu.status.is_in_vblank());
    assert_eq!(ppu.nmi_interrupt, None);
}

#[test]
fn enabling_interrupt_during_vblank_raises_it() {
    let mut ppu = NESPPU::new_empty_rom();
    ppu.write_ctrl(0x80);
    assert_eq!(ppu.nmi_interrupt, None);
    ppu.write_ctrl(0);
    ppu.status.set_vblank_status(true);
    ppu.write_ctrl(0x80);
    assert_eq!(ppu.nmi_interrupt, Some(true));
}

#[test]
fn oam_data_pointer_wraps() {
    let mut ppu = NESPPU::new_empty_rom();
    ppu.write_oam_addr(0xFF);
    ppu.write_oam_data(0x12);
    assert_eq!(ppu.oam_addr, 0);
    ppu.write_oam_data(0x34);
    assert_eq!(ppu.oam_data[0xFF], 0x12);
    assert_eq!(ppu.oam_data[0x00], 0x34);
    assert_eq!(ppu.read_oam_data(), 0);
    assert_eq!(ppu.oam_addr, 1);
}

#[test]
fn oam_dma_keeps_pointer() {
    let mut ppu = NESPPU::new_empty_rom();
    let mut data = [0u8; 256];
    for (i, b) in data.iter_mut().enumerate() {
        *b = i as u8;
    }
    ppu.write_oam_addr(0x80);
    ppu.write_oam_dma(&data);
    assert_eq!(ppu.oam_addr, 0x80);
    assert_eq!(ppu.oam_data[0x80], 0);
    assert_eq!(ppu.oam_data[0x7F], 0xFF);
    assert_eq!(ppu.oam_data[0x00], 0x80);
}

#[test]
fn opcode_table_lookup() {
    let table = cpu_opcodes();
    assert_eq!(table.len(), 73);
    let i = find_opcode(&table, 0xA9).unwrap();
    let op: OpCode = table[i];
    assert_eq!(op.code, 0xA9);
    assert_eq!(op.mnemonic, "LDA");
    assert_eq!(op.len, 2);
    assert_eq!(op.cycles, 2);
    assert_eq!(op.mode, AddressingMode::Immediate);
    let j = find_opcode(&table, 0x1E).unwrap();
    assert_eq!(table[j].mnemonic, "ASL");
    assert_eq!(table[j].cycles, 7);
    assert_eq!(table[j].mode, AddressingMode::AbsoluteX);
    assert_eq!(find_opcode(&table, 0x02), None);
}

#[test]
fn opcode_codes_are_unique() {
    let table = cpu_opcodes();
    for (i, a) in table.iter().enumerate() {
        assert_eq!(find_opcode(&table, a.code), Some(i));
    }
}

#[test]
fn frames_completed_match_total_cycles() {
    let mut ppu = NESPPU::new_empty_rom();
    let steps: [u8; 5] = [255, 7, 113, 2, 200];
    let mut total: usize = 0;
    let mut frames: usize = 0;
    for i in 0..2000 {
        let c = steps[i % steps.len()];
        if ppu.tick(c) {
            frames += 1;
        }
        total += c as usize;
        assert_eq!(ppu.scanline as usize * 341 + ppu.cycles, total % (341 * 262));
        assert_eq!(frames, total / (341 * 262));
    }
    assert_eq!(frames, 2);
}
