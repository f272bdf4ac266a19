use vstd::prelude::*;

verus! {

/// The 256-byte boot program overlaid on the start of the address space.
pub struct Bootrom {
    pub data: Vec<u8>,
    pub is_active: bool,
}

impl Bootrom {
    pub open spec fn wf(self) -> bool {
        self.data@.len() == 256
    }

    pub fn new() -> (r: Self)
        ensures
            r.wf(),
            r.is_active,
            forall|i: int| 0 <= i < 256 ==> r.data@[i] == 0,
    {
        Bootrom { data: vec![0u8; 256], is_active: true }
    }

    pub fn get_byte(&self, addr: usize) -> (r: u8)
        requires
            self.wf(),
            addr < 256,
        ensures
            r == self.data@[addr as int],
    {
        self.data[addr]
    }

    pub fn deactivate(&mut self)
        ensures
            final(self).data == old(self).data,
            !final(self).is_active,
    {
        self.is_active = false;
    }
}

/// A cartridge without a bank controller: ROM at `0x0000..=0x7FFF`, 8 KiB of
/// external RAM at `0xA000..=0xBFFF`.
pub struct Cartridge {
    pub rom: Vec<u8>,
    pub ram: Vec<u8>,
}

impl Cartridge {
    pub open spec fn wf(self) -> bool {
        self.ram@.len() == 0x2000
    }

    pub open spec fn read(self, addr: u16) -> u8 {
        if addr <= 0x7FFF {
            if (addr as int) < self.rom@.len() {
                self.rom@[addr as int]
            } else {
                0xFF
            }
        } else if 0xA000 <= addr <= 0xBFFF {
            self.ram@[addr - 0xA000]
        } else {
            0xFF
        }
    }

    /// `new` is this cartridge after `value` is written at `addr`.
    pub open spec fn written_to(self, new: Cartridge, addr: u16, value: u8) -> bool {
        &&& new.rom == self.rom
        &&& 0xA000 <= addr <= 0xBFFF ==> new.ram@ == self.ram@.update(addr - 0xA000, value)
        &&& !(0xA000 <= addr <= 0xBFFF) ==> new.ram == self.ram
    }

    pub fn new(data: Vec<u8>) -> (r: Self)
        ensures
            r.wf(),
            r.rom@ == data@,
            forall|i: int| 0 <= i < 0x2000 ==> r.ram@[i] == 0,
    {
        Cartridge { rom: data, ram: vec![0u8; 0x2000] }
    }

    pub fn get_byte(&self, addr: u16) -> (r: u8)
        requires
            self.wf(),
        ensures
            r == self.read(addr),
    {
        if addr <= 0x7FFF {
            if (addr as usize) < self.rom.len() {
                self.rom[addr as usize]
            } else {
                0xFF
            }
        } else if 0xA000 <= addr && addr <= 0xBFFF {
            self.ram[(addr - 0xA000) as usize]
        } else {
            0xFF
        }
    }

    /// Writes reach the external RAM; ROM is read-only.
    pub fn set_byte(&mut self, addr: u16, value: u8)
        requires
            old(self).wf(),
        ensures
            final(self).wf(),
            old(self).written_to(*final(self), addr, value),
    {
        if 0xA000 <= addr && addr <= 0xBFFF {
            self.ram.set((addr - 0xA000) as usize, value);
        }
    }
}

/// Video memory, sprite memory, LCD and palette registers, and the flags that
/// the bus and the DMA engines share with the video unit.
pub struct Gpu {
    /// Two 8 KiB banks.
    pub vram: Vec<u8>,
    /// VRAM bank select (bit 0).
    pub vbk: u8,
    /// 160 bytes of sprite attributes.
    pub oam: Vec<u8>,
    /// Registers `0xFF40..=0xFF6F`.
    pub regs: Vec<u8>,
    pub oam_dma_active: bool,
    pub hdma_flag: bool,
    pub request_vblank_int: bool,
    pub request_lcd_int: bool,
    /// T-cycles elapsed, modulo the word size.
    pub cycles: usize,
    pub frame: Vec<u8>,
}

impl Gpu {
    pub open spec fn wf(self) -> bool {
        &&& self.vram@.len() == 0x4000
        &&& self.oam@.len() == 160
        &&& self.regs@.len() == 0x30
    }

    pub open spec fn vram_index(self, addr: u16) -> int {
        (self.vbk & 1) as int * 0x2000 + (addr - 0x8000)
    }

    pub open spec fn read(self, addr: u16) -> u8 {
        if 0x8000 <= addr <= 0x9FFF {
            self.vram@[self.vram_index(addr)]
        } else if 0xFE00 <= addr <= 0xFE9F {
            self.oam@[addr - 0xFE00]
        } else if addr == 0xFF4F {
            0xFE | self.vbk
        } else if 0xFF40 <= addr <= 0xFF6F {
            self.regs@[addr - 0xFF40]
        } else {
            0xFF
        }
    }

    /// `new` is this unit after `value` is written at `addr`.
    pub open spec fn written_to(self, new: Gpu, addr: u16, value: u8) -> bool {
        if 0x8000 <= addr <= 0x9FFF {
            new == (Gpu { vram: new.vram, ..self }) && new.vram@ == self.vram@.update(
                self.vram_index(addr),
                value,
            )
        } else if 0xFE00 <= addr <= 0xFE9F {
            new == (Gpu { oam: new.oam, ..self }) && new.oam@ == self.oam@.update(
                addr - 0xFE00,
                value,
            )
        } else if addr == 0xFF4F {
            new == (Gpu { vbk: value & 1, ..self })
        } else if 0xFF40 <= addr <= 0xFF6F {
            new == (Gpu { regs: new.regs, ..self }) && new.regs@ == self.regs@.update(
                addr - 0xFF40,
                value,
            )
        } else {
            new == self
        }
    }

    pub fn new() -> (r: Self)
        ensures
            r.wf(),
            !r.oam_dma_active,
            !r.hdma_flag,
            !r.request_vblank_int,
            !r.request_lcd_int,
            r.vbk == 0,
            r.cycles == 0,
            forall|i: int| 0 <= i < 0x4000 ==> r.vram@[i] == 0,
            forall|i: int| 0 <= i < 160 ==> r.oam@[i] == 0,
            forall|i: int| 0 <= i < 0x30 ==> r.regs@[i] == 0,
            r.frame@.len() == 160 * 144 * 3,
    {
        Gpu {
            vram: vec![0u8; 0x4000],
            vbk: 0,
            oam: vec![0u8; 160],
            regs: vec![0u8; 0x30],
            oam_dma_active: false,
            hdma_flag: false,
            request_vblank_int: false,
            request_lcd_int: false,
            cycles: 0,
            frame: vec![0u8; 160 * 144 * 3],
        }
    }

    pub fn tick(&mut self, cycles: usize)
        ensures
            *final(self) == (Gpu { cycles: old(self).cycles.wrapping_add(cycles), ..*old(self) }),
    {
        self.cycles = self.cycles.wrapping_add(cycles);
    }

    pub fn screen(&self) -> (r: &[u8])
        ensures
            r@ == self.frame@,
    {
        self.frame.as_slice()
    }

    pub fn get_byte(&self, addr: u16) -> (r: u8)
        requires
            self.wf(),
        ensures
            r == self.read(addr),
    {
        let b = self.vbk;
        assert(b & 1 <= 1) by (bit_vector);
        if 0x8000 <= addr && addr <= 0x9FFF {
            self.vram[(self.vbk & 1) as usize * 0x2000 + (addr - 0x8000) as usize]
        } else if 0xFE00 <= addr && addr <= 0xFE9F {
            self.oam[(addr - 0xFE00) as usize]
        } else if addr == 0xFF4F {
            0xFE | self.vbk
        } else if 0xFF40 <= addr && addr <= 0xFF6F {
            self.regs[(addr - 0xFF40) as usize]
        } else {
            0xFF
        }
    }

    pub fn set_byte(&mut self, addr: u16, value: u8)
        requires
            old(self).wf(),
        ensures
            final(self).wf(),
            old(self).written_to(*final(self), addr, value),
    {
        let b = self.vbk;
        assert(b & 1 <= 1) by (bit_vector);
        if 0x8000 <= addr && addr <= 0x9FFF {
            let i = (self.vbk & 1) as usize * 0x2000 + (addr - 0x8000) as usize;
            self.vram.set(i, value);
        } else if 0xFE00 <= addr && addr <= 0xFE9F {
            self.oam.set((addr - 0xFE00) as usize, value);
        } else if addr == 0xFF4F {
            self.vbk = value & 1;
        } else if 0xFF40 <= addr && addr <= 0xFF6F {
            self.regs.set((addr - 0xFF40) as usize, value);
        }
    }
}

/// Sound registers and wave RAM, `0xFF10..=0xFF3F`.
pub struct Apu {
    pub regs: Vec<u8>,
    pub cycles: usize,
}

impl Apu {
    pub open spec fn wf(self) -> bool {
        self.regs@.len() == 0x30
    }

    pub open spec fn read(self, addr: u16) -> u8 {
        if 0xFF10 <= addr <= 0xFF3F {
            self.regs@[addr - 0xFF10]
        } else {
            0xFF
        }
    }

    /// `new` is this unit after `value` is written at `addr`.
    pub open spec fn written_to(self, new: Apu, addr: u16, value: u8) -> bool {
        &&& new.cycles == self.cycles
        &&& 0xFF10 <= addr <= 0xFF3F ==> new.regs@ == self.regs@.update(addr - 0xFF10, value)
        &&& !(0xFF10 <= addr <= 0xFF3F) ==> new.regs == self.regs
    }

    pub fn new() -> (r: Self)
        ensures
            r.wf(),
            r.cycles == 0,
            forall|i: int| 0 <= i < 0x30 ==> r.regs@[i] == 0,
    {
        Apu { regs: vec![0u8; 0x30], cycles: 0 }
    }

    pub fn tick(&mut self, cycles: usize)
        ensures
            *final(self) == (Apu { cycles: old(self).cycles.wrapping_add(cycles), ..*old(self) }),
    {
        self.cycles = self.cycles.wrapping_add(cycles);
    }

    pub fn get_byte(&self, addr: u16) -> (r: u8)
        requires
            self.wf(),
        ensures
            r == self.read(addr),
    {
        if 0xFF10 <= addr && addr <= 0xFF3F {
            self.regs[(addr - 0xFF10) as usize]
        } else {
            0xFF
        }
    }

    pub fn set_byte(&mut self, addr: u16, value: u8)
        requires
            old(self).wf(),
        ensures
            final(self).wf(),
            old(self).written_to(*final(self), addr, value),
    {
        if 0xFF10 <= addr && addr <= 0xFF3F {
            self.regs.set((addr - 0xFF10) as usize, value);
        }
    }
}

/// The joypad register (`0xFF00`) with no button held, and its interrupt latch.
pub struct Joypad {
    /// Selected button group, bits 4 and 5.
    pub select: u8,
    pub request_joypad_int: bool,
}

impl Joypad {
    pub open spec fn read(self) -> u8 {
        0xCF | self.select
    }

    pub fn new() -> (r: Self)
        ensures
            r.select == 0x30,
            !r.request_joypad_int,
    {
        Joypad { select: 0x30, request_joypad_int: false }
    }

    pub fn get_byte(&self) -> (r: u8)
        ensures
            r == self.read(),
    {
        0xCF | self.select
    }

    pub fn set_byte(&mut self, value: u8)
        ensures
            *final(self) == (Joypad { select: value & 0x30, ..*old(self) }),
    {
        self.select = value & 0x30;
    }
}

/// Work RAM: eight 4 KiB banks; bank 0 at `0xC000`, the selected one at `0xD000`.
pub struct Wram {
    pub data: Vec<u8>,
    /// SVBK, bits 0 to 2; 0 selects bank 1.
    pub bank: u8,
}

impl Wram {
    pub open spec fn wf(self) -> bool {
        &&& self.data@.len() == 0x8000
        &&& self.bank < 8
    }

    /// Where a work-RAM address `0xC000..=0xDFFF` lands in the store.
    pub open spec fn index(self, addr: u16) -> int {
        if addr < 0xD000 {
            addr - 0xC000
        } else if self.bank == 0 {
            0x1000 + (addr - 0xD000)
        } else {
            self.bank as int * 0x1000 + (addr - 0xD000)
        }
    }

    pub open spec fn read(self, addr: u16) -> u8 {
        if 0xC000 <= addr <= 0xDFFF {
            self.data@[self.index(addr)]
        } else if addr == 0xFF70 {
            0xF8 | self.bank
        } else {
            0xFF
        }
    }

    /// `new` is this store after `value` is written at `addr`.
    pub open spec fn written_to(self, new: Wram, addr: u16, value: u8) -> bool {
        if 0xC000 <= addr <= 0xDFFF {
            new.bank == self.bank && new.data@ == self.data@.update(self.index(addr), value)
        } else if addr == 0xFF70 {
            new.data == self.data && new.bank == value & 7
        } else {
            new == self
        }
    }

    pub fn new() -> (r: Self)
        ensures
            r.wf(),
            r.bank == 0,
            forall|i: int| 0 <= i < 0x8000 ==> r.data@[i] == 0,
    {
        Wram { data: vec![0u8; 0x8000], bank: 0 }
    }

    fn slot(&self, addr: u16) -> (r: usize)
        requires
            self.wf(),
            0xC000 <= addr <= 0xDFFF,
        ensures
            r == self.index(addr),
            r < 0x8000,
    {
        if addr < 0xD000 {
            (addr - 0xC000) as usize
        } else if self.bank == 0 {
            0x1000 + (addr - 0xD000) as usize
        } else {
            self.bank as usize * 0x1000 + (addr - 0xD000) as usize
        }
    }

    pub fn get_byte(&self, addr: u16) -> (r: u8)
        requires
            self.wf(),
        ensures
            r == self.read(addr),
    {
        if 0xC000 <= addr && addr <= 0xDFFF {
            self.data[self.slot(addr)]
        } else if addr == 0xFF70 {
            0xF8 | self.bank
        } else {
            0xFF
        }
    }

    pub fn set_byte(&mut self, addr: u16, value: u8)
        requires
            old(self).wf(),
        ensures
            final(self).wf(),
            old(self).written_to(*final(self), addr, value),
    {
        if 0xC000 <= addr && addr <= 0xDFFF {
            let i = self.slot(addr);
            self.data.set(i, value);
        } else if addr == 0xFF70 {
            self.bank = value & 7;
            assert(value & 7 < 8) by (bit_vector);
        }
    }
}

/// CGB double-speed state (KEY1).
pub struct CgbMode {
    pub prepare_speed_switch: u8,
}

impl CgbMode {
    pub fn new() -> (r: Self)
        ensures
            r.prepare_speed_switch == 0,
    {
        CgbMode { prepare_speed_switch: 0 }
    }

    pub open spec fn read(self) -> u8 {
        0x7E | self.prepare_speed_switch
    }

    pub fn to_byte(&self) -> (r: u8)
        ensures
            r == self.read(),
    {
        0x7E | self.prepare_speed_switch
    }
}

} // verus!
