use gb_core::mmu::{HdmaType, Mmu};
use gb_core::mode::EmulationMode;

fn dmg() -> Mmu {
    Mmu::new(vec![0u8; 0x8000], EmulationMode::Dmg)
}

fn cgb() -> Mmu {
    Mmu::new(vec![0u8; 0x8000], EmulationMode::Cgb)
}

#[test]
fn hram_round_trip_all_values() {
    let mut m = dmg();
    for v in 0..=0xFFu8 {
        for addr in [0xFF80u16, 0xFFC0, 0xFFFE] {
            m.set_byte(addr, v);
            assert_eq!(m.get_byte(addr), v);
        }
    }
}

#[test]
fn echo_ram_mirrors_work_ram() {
    let mut m = dmg();
    m.set_byte(0xE123, 0x5A);
    assert_eq!(m.get_byte(0xC123), 0x5A);
    assert_eq!(m.get_byte(0xE123), 0x5A);
    m.set_byte(0xDDFF, 0xA5);
    assert_eq!(m.get_byte(0xFDFF), 0xA5);
    for addr in [0xE000u16, 0xF000, 0xFDFF] {
        assert_eq!(m.get_byte(addr), m.get_byte(addr - 0x2000));
    }
}

#[test]
fn prohibited_region_reads_ff_and_ignores_writes() {
    let mut m = dmg();
    m.set_byte(0xFE9F, 0x12);
    for addr in 0xFEA0..=0xFEFFu16 {
        m.set_byte(addr, 0x00);
        assert_eq!(m.get_byte(addr), 0xFF);
    }
    assert_eq!(m.get_byte(0xFE9F), 0x12);
}

#[test]
fn cgb_registers_read_ff_on_dmg() {
    let mut m = dmg();
    let mut addrs = vec![0xFF4Du16, 0xFF4F, 0xFF70];
    addrs.extend(0xFF51..=0xFF55u16);
    addrs.extend(0xFF68..=0xFF6Bu16);
    for &a in &addrs {
        m.set_byte(a, 0x01);
        assert_eq!(m.get_byte(a), 0xFF);
    }
    assert_eq!(m.hdma.blocks, 0);
    assert_eq!(m.wram.bank, 0);
}

#[test]
fn interrupt_flag_round_trip_all_values() {
    let mut m = dmg();
    for v in 0..=0xFFu8 {
        m.set_byte(0xFF0F, v);
        assert_eq!(m.get_byte(0xFF0F), (v & 0x1F) | 0xE0);
    }
}

#[test]
fn interrupt_flag_reaches_latches() {
    let mut m = dmg();
    m.set_byte(0xFF0F, 0x05);
    assert!(m.gpu.request_vblank_int);
    assert!(!m.gpu.request_lcd_int);
    assert!(m.timer.request_timer_int);
    assert!(!m.request_serial_int);
    assert!(!m.joypad.request_joypad_int);
}

#[test]
fn oam_dma_duration() {
    let mut m = dmg();
    m.set_byte(0xFF46, 0xC0);
    assert!(m.oam_dma.just_launched);
    m.oam_dma_tick(4);
    assert!(m.oam_dma.active);
    assert!(m.gpu.oam_dma_active);
    assert_eq!(m.oam_dma.i, 0);
    m.oam_dma_tick(640);
    assert_eq!(m.oam_dma.i, 160);
    m.oam_dma_tick(4);
    assert!(!m.oam_dma.active);
    assert!(!m.gpu.oam_dma_active);
}

#[test]
fn oam_masked_during_dma() {
    let mut m = dmg();
    m.set_byte(0xC050, 0x77);
    m.set_byte(0xFF46, 0xC0);
    assert_eq!(m.get_byte(0xFF46), 0xC0);
    m.oam_dma_tick(4);
    assert_eq!(m.get_byte(0xFE50), 0xFF);
    m.set_byte(0xFE50, 0x11);
    m.oam_dma_tick(640);
    assert_eq!(m.get_byte(0xFE50), 0xFF);
    m.oam_dma_tick(4);
    assert_eq!(m.get_byte(0xFE50), 0x77);
}

#[test]
fn oam_dma_from_echo_reads_work_ram() {
    let mut m = dmg();
    m.set_byte(0xC003, 0x3C);
    m.set_byte(0xFF46, 0xE0);
    m.oam_dma_tick(4 + 640);
    m.oam_dma_tick(4);
    assert_eq!(m.get_byte(0xFE03), 0x3C);
}

#[test]
fn oam_dma_restart_hides_oam() {
    let mut m = dmg();
    m.set_byte(0xFF46, 0xC0);
    m.oam_dma_tick(6);
    assert_eq!(m.oam_dma_cycles, 2);
    m.set_byte(0xFF46, 0xC1);
    assert!(m.oam_dma.restarting);
    assert_eq!(m.oam_dma_cycles, 0);
    assert_eq!(m.get_byte(0xFE00), 0xFF);
    assert_eq!(m.get_byte(0xFF46), 0xC1);
}

#[test]
fn bootrom_disable() {
    let mut rom = vec![0u8; 0x8000];
    rom[0] = 0x31;
    let mut m = Mmu::new(rom, EmulationMode::Dmg);
    m.bootrom.data[0] = 0xAF;
    assert_eq!(m.get_byte(0x0000), 0xAF);
    m.set_byte(0xFF50, 0x01);
    assert_eq!(m.get_byte(0x0000), 0x31);
    m.set_byte(0xFF50, 0x00);
    m.set_byte(0xFF50, 0x01);
    assert!(!m.bootrom.is_active);
    assert_eq!(m.get_byte(0x0000), 0x31);
}

#[test]
fn bootrom_stays_on_for_other_values() {
    let mut m = dmg();
    m.bootrom.data[1] = 0xFE;
    m.set_byte(0xFF50, 0x02);
    assert!(m.bootrom.is_active);
    assert_eq!(m.get_byte(0x0001), 0xFE);
}

#[test]
fn hdma5_idle_read() {
    let mut m = cgb();
    assert_eq!(m.get_byte(0xFF55), 0x80);
    m.simulate_bootrom();
    assert_eq!(m.get_byte(0xFF55), 0x80);
}

#[test]
fn hdma_arming() {
    let mut rom = vec![0u8; 0x8000];
    for (i, b) in rom.iter_mut().enumerate().take(0x100) {
        *b = (i as u8) ^ 0x5A;
    }
    let mut m = Mmu::new(rom, EmulationMode::Cgb);
    m.set_byte(0xFF50, 0x01);
    m.set_byte(0xFF51, 0x00);
    m.set_byte(0xFF52, 0x00);
    m.set_byte(0xFF53, 0x80);
    m.set_byte(0xFF54, 0x00);
    m.set_byte(0xFF55, 0x0F);
    assert_eq!(m.hdma.blocks, 15);
    assert_eq!(m.hdma.hdma_type, HdmaType::GPDma);
    assert_eq!(m.hdma.src, 0x0000);
    assert_eq!(0x8000 | (m.hdma.dst & 0x1FFF), 0x8000);
    assert_eq!(m.get_byte(0xFF55), 15);
    for _ in 0..16 {
        m.gdma_tick();
    }
    assert_eq!(m.hdma.hdma_type, HdmaType::NoHdma);
    assert_eq!(m.hdma.blocks, 0);
    for a in 0x8000..=0x80FFu16 {
        assert_eq!(m.get_byte(a), m.get_byte(a - 0x8000));
    }
    assert_ne!(m.get_byte(0x80FF), 0);
    assert_eq!(m.get_byte(0xFF55), 0x80);
    m.gdma_tick();
    assert_eq!(m.hdma.src, 0x0100);
}

#[test]
fn hblank_dma_one_block_per_call() {
    let mut m = cgb();
    m.set_byte(0xC000, 0x99);
    m.set_byte(0xFF51, 0xC0);
    m.set_byte(0xFF52, 0x0F);
    m.set_byte(0xFF53, 0x01);
    m.set_byte(0xFF54, 0x2F);
    assert_eq!(m.hdma.src, 0xC000);
    assert_eq!(m.hdma.dst, 0x0120);
    m.set_byte(0xFF55, 0x82);
    assert!(m.hdma.new_hdma);
    assert_eq!(m.hdma.hdma_type, HdmaType::HBlankDma);
    m.gpu.hdma_flag = true;
    m.hdma_tick();
    assert!(!m.gpu.hdma_flag);
    assert_eq!(m.hdma.blocks, 1);
    assert_eq!(m.get_byte(0xFF55), 1);
    assert_eq!(m.get_byte(0x8120), 0x99);
    m.hdma_tick();
    assert_eq!(m.hdma.blocks, 0);
    assert_eq!(m.hdma.hdma_type, HdmaType::HBlankDma);
    m.hdma_tick();
    assert_eq!(m.hdma.hdma_type, HdmaType::NoHdma);
    assert_eq!(m.hdma.src, 0xC030);
}

#[test]
fn hblank_dma_terminated_by_bit7_clear() {
    let mut m = cgb();
    m.set_byte(0xFF55, 0x85);
    m.hdma_tick();
    assert_eq!(m.hdma.blocks, 4);
    m.set_byte(0xFF55, 0x00);
    assert_eq!(m.hdma.hdma_type, HdmaType::NoHdma);
    assert_eq!(m.hdma.blocks, 4);
    assert_eq!(m.get_byte(0xFF55), 0x84);
    let src = m.hdma.src;
    m.hdma_tick();
    assert_eq!(m.hdma.src, src);
}

#[test]
fn hdma_block_from_vram_source_sees_earlier_writes() {
    let mut m = cgb();
    m.set_byte(0x8000, 0x11);
    m.set_byte(0xFF51, 0x80);
    m.set_byte(0xFF52, 0x00);
    m.set_byte(0xFF53, 0x00);
    m.set_byte(0xFF54, 0x00);
    m.set_byte(0xFF55, 0x00);
    m.gdma_tick();
    assert_eq!(m.get_byte(0x8000), 0x11);
    assert_eq!(m.hdma.hdma_type, HdmaType::NoHdma);
}

#[test]
fn timer_overflow_cycle_accurate() {
    let mut m = dmg();
    m.set_byte(0xFF04, 0);
    m.set_byte(0xFF07, 0x05);
    m.set_byte(0xFF05, 0xFF);
    m.set_byte(0xFF06, 0x42);
    m.timer_tick(16);
    assert_eq!(m.get_byte(0xFF05), 0x00);
    assert!(!m.timer.request_timer_int);
    m.timer_tick(4);
    assert_eq!(m.timer.acc, 0x42);
    assert!(m.timer.request_timer_int);
    assert_eq!(m.get_byte(0xFF05), 0x42);
    assert_eq!(m.get_byte(0xFF0F) & 0x04, 0x04);
}

#[test]
fn simulated_boot_registers() {
    let mut m = dmg();
    m.simulate_bootrom();
    assert_eq!(m.get_byte(0xFF00), 0xCF);
    assert_eq!(m.get_byte(0xFF0F), 0xE1);
    assert_eq!(m.get_byte(0xFFFF), 0x00);
    let mut c = cgb();
    c.simulate_bootrom();
    assert_eq!(c.get_byte(0xFF70), 0xF8);
    assert_eq!(c.get_byte(0xFF4F), 0xFE);
}

#[test]
fn fixed_io_reads() {
    let mut m = dmg();
    assert_eq!(m.get_byte(0xFF02), 0x7E);
    assert_eq!(m.get_byte(0xFF03), 0xFF);
    m.set_byte(0xFF01, 0x41);
    assert_eq!(m.get_byte(0xFF01), 0x41);
    m.set_byte(0xFFFF, 0x1F);
    assert_eq!(m.get_byte(0xFFFF), 0x1F);
}

#[test]
fn cgb_work_ram_banks() {
    let mut m = cgb();
    m.set_byte(0xD000, 1);
    m.set_byte(0xFF70, 2);
    assert_eq!(m.get_byte(0xFF70), 0xFA);
    assert_eq!(m.get_byte(0xD000), 0);
    m.set_byte(0xD000, 2);
    m.set_byte(0xFF70, 0);
    assert_eq!(m.get_byte(0xD000), 1);
    assert_eq!(m.get_byte(0xF000), 1);
}

#[test]
fn ticks_forward_to_devices() {
    let mut m = dmg();
    m.gpu_tick(10);
    m.apu_tick(7);
    assert_eq!(m.gpu.cycles, 10);
    assert_eq!(m.apu.cycles, 7);
    m.timer_tick(256);
    assert_eq!(m.timer.divider.counter, 0xABCC + 256);
    assert_eq!(m.get_byte(0xFF04), 0xAC);
    assert_eq!(m.screen().len(), 160 * 144 * 3);
}

#[test]
fn cartridge_rom_and_external_ram() {
    let mut m = Mmu::new(vec![0x10, 0x20, 0x30], EmulationMode::Dmg);
    m.set_byte(0xFF50, 0x01);
    assert_eq!(m.get_byte(0x0002), 0x30);
    assert_eq!(m.get_byte(0x0003), 0xFF);
    assert_eq!(m.get_byte(0x4000), 0xFF);
    m.set_byte(0x0002, 0x99);
    assert_eq!(m.get_byte(0x0002), 0x30);
    m.set_byte(0xA010, 0x42);
    assert_eq!(m.get_byte(0xA010), 0x42);
}

#[test]
fn key1_on_cgb() {
    let mut m = cgb();
    assert_eq!(m.get_byte(0xFF4D), 0x7E);
    m.set_byte(0xFF4D, 0x01);
    assert_eq!(m.cgb_mode.prepare_speed_switch, 1);
    assert_eq!(m.get_byte(0xFF4D), 0x7F);
}

#[test]
fn vram_banks_on_cgb() {
    let mut m = cgb();
    m.set_byte(0x8000, 0xAA);
    m.set_byte(0xFF4F, 0x01);
    assert_eq!(m.get_byte(0xFF4F), 0xFF);
    assert_eq!(m.get_byte(0x8000), 0x00);
    m.set_byte(0x8000, 0xBB);
    m.set_byte(0xFF4F, 0x00);
    assert_eq!(m.get_byte(0x8000), 0xAA);
}

#[test]
fn oam_writable_when_no_dma() {
    let mut m = dmg();
    m.oam_dma.i = 160;
    m.oam_dma_tick(4);
    m.set_byte(0xFE10, 0x21);
    assert_eq!(m.get_byte(0xFE10), 0x21);
}
