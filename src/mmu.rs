use vstd::prelude::*;

use crate::devices::{Apu, Bootrom, Cartridge, CgbMode, Gpu, Joypad, Wram};
use crate::mode::EmulationMode;
use crate::timer::Timer;

verus! {

/// Bus that a memory access goes over.
#[derive(Clone, Copy, Debug, PartialEq, Eq, Structural)]
pub enum AddrBus {
    Main,
    Vram,
    Ram,
    Internal,
}

/// Sprite-DMA engine: copies 160 bytes into OAM, one every four T-cycles.
#[derive(Clone, Copy, Debug, PartialEq, Eq, Structural)]
pub struct OamDma {
    pub active: bool,
    pub src_addr: u16,
    pub i: u16,
    pub just_launched: bool,
    pub restarting: bool,
}

impl Default for OamDma {
    fn default() -> (r: Self)
        ensures
            r == (OamDma {
                active: false,
                src_addr: 0,
                i: 0,
                just_launched: false,
                restarting: false,
            }),
    {
        Self { active: false, src_addr: 0, i: 0, just_launched: false, restarting: false }
    }
}

/// Kind of VRAM transfer armed through HDMA5.
#[derive(Clone, Copy, Debug, PartialEq, Eq, Structural)]
pub enum HdmaType {
    NoHdma,
    HBlankDma,
    GPDma,
}

/// CGB VRAM DMA engine: 16-byte blocks from `src` to VRAM at `dst`.
#[derive(Clone, Copy, Debug, PartialEq, Eq, Structural)]
pub struct Hdma {
    pub hdma_type: HdmaType,
    pub new_hdma: bool,
    pub src: u16,
    pub dst: u16,
    pub blocks: u8,
}

impl Default for Hdma {
    fn default() -> (r: Self)
        ensures
            r == (Hdma { hdma_type: HdmaType::NoHdma, new_hdma: false, src: 0, dst: 0, blocks: 0 }),
    {
        Self { hdma_type: HdmaType::NoHdma, new_hdma: false, src: 0, dst: 0, blocks: 0 }
    }
}

/// Where the sprite DMA fetches a source address: the echo region reads work RAM.
pub open spec fn dma_source(addr: u16) -> u16 {
    if addr < 0xE000 {
        addr
    } else {
        addr & !0x2000u16
    }
}

pub proof fn lemma_dma_source_low(addr: u16)
    ensures
        dma_source(addr) < 0xE000,
        addr >= 0xE000 ==> dma_source(addr) == addr - 0x2000,
{
    if addr >= 0xE000 {
        assert(addr >= 0xE000 ==> addr & !0x2000u16 < 0xE000 && addr & !0x2000u16 == addr - 0x2000)
            by (bit_vector);
    }
}

pub open spec fn flag_bit(b: bool, bit: u8) -> u8 {
    if b {
        bit
    } else {
        0
    }
}

/// The memory-mapped bus and the devices behind it.
pub struct Mmu {
    pub bootrom: Bootrom,
    pub cartridge: Cartridge,
    pub gpu: Gpu,
    pub joypad: Joypad,
    pub apu: Apu,
    pub ie: u8,
    pub hdma: Hdma,
    pub oam_dma: OamDma,
    pub timer: Timer,
    pub wram: Wram,
    /// 127 bytes at `0xFF80..=0xFFFE`.
    pub hram: Vec<u8>,
    pub serial_out: u8,
    pub emu_mode: EmulationMode,
    pub cgb_mode: CgbMode,
    pub request_serial_int: bool,
    pub oam_dma_cycles: usize,
}

/// Reads below the echo region see only the boot ROM, the cartridge, VRAM and
/// work RAM.
pub proof fn lemma_low_read_stable(m1: Mmu, m2: Mmu, addr: u16)
    requires
        addr < 0xE000,
        m1.bootrom == m2.bootrom,
        m1.cartridge == m2.cartridge,
        m1.wram == m2.wram,
        m1.gpu.vram == m2.gpu.vram,
        m1.gpu.vbk == m2.gpu.vbk,
    ensures
        m1.read(addr) == m2.read(addr),
{
}

/// Reads outside VRAM do not see VRAM contents or the HDMA pointers.
pub proof fn lemma_read_outside_vram(m1: Mmu, m2: Mmu, addr: u16)
    requires
        !(0x8000 <= addr <= 0x9FFF),
        m1 == (Mmu {
            gpu: Gpu { vram: m1.gpu.vram, ..m2.gpu },
            hdma: Hdma { src: m1.hdma.src, dst: m1.hdma.dst, ..m2.hdma },
            ..m2
        }),
    ensures
        m1.read(addr) == m2.read(addr),
{
}

impl Mmu {
    pub open spec fn wf(self) -> bool {
        &&& self.bootrom.wf()
        &&& self.cartridge.wf()
        &&& self.gpu.wf()
        &&& self.apu.wf()
        &&& self.wram.wf()
        &&& self.timer.wf()
        &&& self.hram@.len() == 127
        &&& self.oam_dma.i <= 160
        &&& self.oam_dma.src_addr as int + (160 - self.oam_dma.i) <= 0xFFFF
    }

    pub open spec fn is_cgb(self) -> bool {
        self.emu_mode == EmulationMode::Cgb
    }

    /// OAM is hidden from the CPU while a sprite DMA runs or restarts.
    pub open spec fn oam_blocked(self) -> bool {
        self.gpu.oam_dma_active || self.oam_dma.restarting
    }

    /// The IF register: five request latches under three bits that read as 1.
    pub open spec fn interrupt_flags(self) -> u8 {
        0xE0 | flag_bit(self.joypad.request_joypad_int, 0x10) | flag_bit(
            self.request_serial_int,
            0x08,
        ) | flag_bit(self.timer.request_timer_int, 0x04) | flag_bit(self.gpu.request_lcd_int, 0x02)
            | flag_bit(self.gpu.request_vblank_int, 0x01)
    }

    pub open spec fn is_apu_addr(addr: u16) -> bool {
        (0xFF10 <= addr <= 0xFF1E) || (0xFF20 <= addr <= 0xFF26) || (0xFF30 <= addr <= 0xFF3F)
    }

    /// What the CPU reads at `addr`.
    pub open spec fn read(self, addr: u16) -> u8 {
        if addr <= 0x00FF {
            if self.bootrom.is_active {
                self.bootrom.data@[addr as int]
            } else {
                self.cartridge.read(addr)
            }
        } else if addr <= 0x7FFF {
            self.cartridge.read(addr)
        } else if addr <= 0x9FFF {
            self.gpu.read(addr)
        } else if addr <= 0xBFFF {
            self.cartridge.read(addr)
        } else if addr <= 0xDFFF {
            self.wram.read(addr)
        } else if addr <= 0xFDFF {
            self.wram.read((addr - 0x2000) as u16)
        } else if addr <= 0xFE9F {
            if self.oam_blocked() {
                0xFF
            } else {
                self.gpu.read(addr)
            }
        } else if addr <= 0xFEFF {
            0xFF
        } else if addr == 0xFF00 {
            self.joypad.read()
        } else if addr == 0xFF01 {
            self.serial_out
        } else if addr == 0xFF02 {
            0x7E
        } else if 0xFF04 <= addr <= 0xFF07 {
            self.timer.read(addr)
        } else if addr == 0xFF0F {
            self.interrupt_flags()
        } else if Self::is_apu_addr(addr) {
            self.apu.read(addr)
        } else if addr <= 0xFF3F {
            0xFF
        } else if addr == 0xFF46 {
            (self.oam_dma.src_addr / 256) as u8
        } else if addr <= 0xFF4B {
            self.gpu.read(addr)
        } else if addr == 0xFF4D {
            if self.is_cgb() {
                self.cgb_mode.read()
            } else {
                0xFF
            }
        } else if addr == 0xFF4F || (0xFF68 <= addr <= 0xFF6B) {
            if self.is_cgb() {
                self.gpu.read(addr)
            } else {
                0xFF
            }
        } else if addr == 0xFF55 {
            if !self.is_cgb() {
                0xFF
            } else if self.hdma.hdma_type == HdmaType::NoHdma {
                0x80 | self.hdma.blocks
            } else {
                self.hdma.blocks
            }
        } else if addr == 0xFF70 {
            if self.is_cgb() {
                self.wram.read(addr)
            } else {
                0xFF
            }
        } else if addr <= 0xFF7F {
            0xFF
        } else if addr <= 0xFFFE {
            self.hram@[addr - 0xFF80]
        } else {
            self.ie
        }
    }

    /// The sprite-DMA state right after a write of `value` to `0xFF46`.
    pub open spec fn dma_launched(self, value: u8) -> Mmu {
        Mmu {
            oam_dma: OamDma {
                active: true,
                src_addr: (value as u16 * 256) as u16,
                i: 0,
                just_launched: if self.oam_dma_cycles > 0 {
                    self.oam_dma.just_launched
                } else {
                    true
                },
                restarting: if self.oam_dma_cycles > 0 {
                    true
                } else {
                    self.oam_dma.restarting
                },
            },
            oam_dma_cycles: 0,
            ..self
        }
    }

    /// `new` is this bus after the CPU writes `value` at `addr`.
    pub open spec fn written_to(self, new: Mmu, addr: u16, value: u8) -> bool {
        if addr <= 0x7FFF || (0xA000 <= addr <= 0xBFFF) {
            new == (Mmu { cartridge: new.cartridge, ..self }) && self.cartridge.written_to(
                new.cartridge,
                addr,
                value,
            )
        } else if addr <= 0x9FFF || (0xFF40 <= addr <= 0xFF4B && addr != 0xFF46) || ((addr
            == 0xFF4F || (0xFF68 <= addr <= 0xFF6B)) && self.is_cgb()) || (0xFE00 <= addr
            <= 0xFE9F && !self.oam_blocked()) {
            new == (Mmu { gpu: new.gpu, ..self }) && self.gpu.written_to(new.gpu, addr, value)
        } else if addr <= 0xDFFF || (addr == 0xFF70 && self.is_cgb()) {
            new == (Mmu { wram: new.wram, ..self }) && self.wram.written_to(new.wram, addr, value)
        } else if addr <= 0xFDFF {
            new == (Mmu { wram: new.wram, ..self }) && self.wram.written_to(
                new.wram,
                (addr - 0x2000) as u16,
                value,
            )
        } else if addr == 0xFF00 {
            new == (Mmu { joypad: Joypad { select: value & 0x30, ..self.joypad }, ..self })
        } else if addr == 0xFF01 {
            new == (Mmu { serial_out: value, ..self })
        } else if 0xFF04 <= addr <= 0xFF07 {
            new == (Mmu { timer: self.timer.written(addr, value), ..self })
        } else if addr == 0xFF0F {
            new == (Mmu {
                gpu: Gpu {
                    request_vblank_int: value & 0x01 != 0,
                    request_lcd_int: value & 0x02 != 0,
                    ..self.gpu
                },
                timer: Timer { request_timer_int: value & 0x04 != 0, ..self.timer },
                request_serial_int: value & 0x08 != 0,
                joypad: Joypad { request_joypad_int: value & 0x10 != 0, ..self.joypad },
                ..self
            })
        } else if Self::is_apu_addr(addr) {
            new == (Mmu { apu: new.apu, ..self }) && self.apu.written_to(new.apu, addr, value)
        } else if addr == 0xFF46 {
            new == self.dma_launched(value)
        } else if addr == 0xFF4D && self.is_cgb() {
            new == (Mmu { cgb_mode: CgbMode { prepare_speed_switch: value & 1 }, ..self })
        } else if addr == 0xFF50 && self.bootrom.is_active && value == 1 {
            new == (Mmu { bootrom: new.bootrom, ..self }) && new.bootrom.data
                == self.bootrom.data && !new.bootrom.is_active
        } else if 0xFF51 <= addr <= 0xFF55 && self.is_cgb() {
            new == (Mmu { hdma: self.hdma_written(addr, value), ..self })
        } else if 0xFF80 <= addr <= 0xFFFE {
            new == (Mmu { hram: new.hram, ..self }) && new.hram@ == self.hram@.update(
                addr - 0xFF80,
                value,
            )
        } else if addr == 0xFFFF {
            new == (Mmu { ie: value, ..self })
        } else {
            new == self
        }
    }

    /// The HDMA registers after a write of `value` to `addr` in `0xFF51..=0xFF55`.
    pub open spec fn hdma_written(self, addr: u16, value: u8) -> Hdma {
        let h = self.hdma;
        if addr == 0xFF51 {
            Hdma { src: (h.src & 0xF0) | ((value as u16) << 8u16), ..h }
        } else if addr == 0xFF52 {
            Hdma { src: (h.src & 0xFF00) | (value as u16 & 0xF0), ..h }
        } else if addr == 0xFF53 {
            Hdma { dst: (h.dst & 0xF0) | ((value as u16) << 8u16), ..h }
        } else if addr == 0xFF54 {
            Hdma { dst: (h.dst & 0x1F00) | (value as u16 & 0xF0), ..h }
        } else if value & 0x80 == 0 && h.hdma_type == HdmaType::HBlankDma {
            Hdma { hdma_type: HdmaType::NoHdma, ..h }
        } else if value & 0x80 == 0 {
            Hdma { hdma_type: HdmaType::GPDma, blocks: value & 0x7F, ..h }
        } else {
            Hdma { hdma_type: HdmaType::HBlankDma, new_hdma: true, blocks: value & 0x7F, ..h }
        }
    }

    /// The bus with the sprite DMA torn down.
    pub open spec fn dma_stopped(self) -> Mmu {
        Mmu {
            oam_dma: OamDma {
                active: false,
                just_launched: false,
                restarting: false,
                ..self.oam_dma
            },
            gpu: Gpu { oam_dma_active: false, ..self.gpu },
            ..self
        }
    }

    /// T-cycles the sprite DMA holds after `cycles` more are added.
    pub open spec fn dma_total(self, cycles: usize) -> int {
        self.oam_dma_cycles + cycles
    }

    /// Whether the four-cycle startup window closes during this tick.
    pub open spec fn dma_starting(self, cycles: usize) -> bool {
        (self.oam_dma.restarting || self.oam_dma.just_launched) && self.dma_total(cycles) >= 4
    }

    /// T-cycles left for copying once the startup window is paid.
    pub open spec fn dma_budget(self, cycles: usize) -> int {
        if self.dma_starting(cycles) {
            self.dma_total(cycles) - 4
        } else {
            self.dma_total(cycles)
        }
    }

    /// Bytes the sprite DMA copies during this tick.
    pub open spec fn dma_copied(self, cycles: usize) -> int {
        let by_time = self.dma_budget(cycles) / 4;
        let left = 160 - self.oam_dma.i;
        if by_time < left {
            by_time
        } else {
            left
        }
    }

    /// `new` is this bus after a sprite-DMA tick of `cycles` T-cycles, when the
    /// copy has not yet reached its end.
    pub open spec fn dma_progressed(self, new: Mmu, cycles: usize) -> bool {
        let d = self.oam_dma;
        let n = self.dma_copied(cycles);
        let total = self.dma_total(cycles);
        &&& new == (Mmu {
            oam_dma: new.oam_dma,
            oam_dma_cycles: new.oam_dma_cycles,
            gpu: new.gpu,
            ..self
        })
        &&& new.oam_dma == (OamDma {
            i: (d.i + n) as u16,
            src_addr: (d.src_addr + n) as u16,
            restarting: d.restarting && total < 4,
            just_launched: if d.restarting {
                d.just_launched
            } else {
                d.just_launched && total < 4
            },
            ..d
        })
        &&& new.oam_dma_cycles == self.dma_budget(cycles) - 4 * n
        &&& new.gpu == (Gpu {
            oam: new.gpu.oam,
            oam_dma_active: self.gpu.oam_dma_active || self.dma_starting(cycles),
            ..self.gpu
        })
        &&& new.gpu.oam@.len() == 160
        &&& forall|k: int|
            0 <= k < 160 ==> #[trigger] new.gpu.oam@[k] == if d.i <= k < d.i + n {
                self.read(dma_source((d.src_addr + (k - d.i)) as u16))
            } else {
                self.gpu.oam@[k]
            }
    }

    /// VRAM address that the `k`-th byte of the current HDMA block goes to.
    pub open spec fn hdma_target(self, k: int) -> u16 {
        (0x8000 + (self.hdma.dst + k) % 0x2000) as u16
    }

    /// Source address of the `k`-th byte of the current HDMA block.
    pub open spec fn hdma_source(self, k: int) -> u16 {
        ((self.hdma.src + k) % 0x10000) as u16
    }

    /// What the `k`-th read of an HDMA block returns while VRAM holds `vram`.
    pub open spec fn hdma_byte(self, vram: Seq<u8>, k: int) -> u8 {
        let a = self.hdma_source(k);
        if 0x8000 <= a <= 0x9FFF {
            vram[self.gpu.vram_index(a)]
        } else {
            self.read(a)
        }
    }

    /// VRAM once the first `n` bytes of the current HDMA block are copied, each
    /// read after the bytes before it were written.
    pub open spec fn hdma_vram_after(self, n: nat) -> Seq<u8>
        decreases n,
    {
        if n == 0 {
            self.gpu.vram@
        } else {
            let v = self.hdma_vram_after((n - 1) as nat);
            v.update(
                self.gpu.vram_index(self.hdma_target(n - 1)),
                self.hdma_byte(v, n - 1),
            )
        }
    }

    /// `new` is this bus after one HDMA block is copied: sixteen bytes read from
    /// the source over the bus, one after the other, and written into the
    /// selected VRAM bank. `blocks` counts the blocks left after the current
    /// one, so the block copied at zero ends the transfer.
    pub open spec fn hdma_block_copied(self, new: Mmu) -> bool {
        &&& new == (Mmu {
            gpu: Gpu { vram: new.gpu.vram, ..self.gpu },
            hdma: Hdma {
                src: ((self.hdma.src + 16) % 0x10000) as u16,
                dst: ((self.hdma.dst + 16) % 0x10000) as u16,
                blocks: if self.hdma.blocks == 0 {
                    0
                } else {
                    (self.hdma.blocks - 1) as u8
                },
                hdma_type: if self.hdma.blocks == 0 {
                    HdmaType::NoHdma
                } else {
                    self.hdma.hdma_type
                },
                ..self.hdma
            },
            ..self
        })
        &&& new.gpu.vram@ == self.hdma_vram_after(16)
    }

    /// The `k`-th byte of an HDMA block lands in the selected bank, at the
    /// destination offset plus `k` modulo the bank size.
    pub proof fn lemma_hdma_index(self, k: int)
        requires
            self.wf(),
            0 <= k < 16,
        ensures
            self.gpu.vram_index(self.hdma_target(k)) == (self.gpu.vbk & 1) as int * 0x2000 + (
            self.hdma.dst + k) % 0x2000,
            0 <= self.gpu.vram_index(self.hdma_target(k)) < 0x4000,
            0x8000 <= self.hdma_target(k) <= 0x9FFF,
    {
        let b = self.gpu.vbk;
        assert(b & 1 <= 1) by (bit_vector);
    }

    pub fn new(data: Vec<u8>, emu_mode: EmulationMode) -> (r: Self)
        ensures
            r.wf(),
            r.emu_mode == emu_mode,
            r.bootrom.is_active,
            r.cartridge.rom@ == data@,
            r.ie == 0,
            r.oam_dma == (OamDma {
                active: false,
                src_addr: 0,
                i: 0,
                just_launched: false,
                restarting: false,
            }),
            r.hdma == (Hdma {
                hdma_type: HdmaType::NoHdma,
                new_hdma: false,
                src: 0,
                dst: 0,
                blocks: 0,
            }),
            r.timer == Timer::initial(emu_mode),
            r.serial_out == 0,
            !r.request_serial_int,
            r.oam_dma_cycles == 0,
            forall|i: int| 0 <= i < 127 ==> r.hram@[i] == 0,
            forall|i: int| 0 <= i < 256 ==> r.bootrom.data@[i] == 0,
            forall|i: int| 0 <= i < 0x2000 ==> r.cartridge.ram@[i] == 0,
            r.joypad == (Joypad { select: 0x30, request_joypad_int: false }),
            r.cgb_mode == (CgbMode { prepare_speed_switch: 0 }),
            r.wram.bank == 0,
            forall|i: int| 0 <= i < 0x8000 ==> r.wram.data@[i] == 0,
            r.apu.cycles == 0,
            forall|i: int| 0 <= i < 0x30 ==> r.apu.regs@[i] == 0,
            r.gpu.vbk == 0,
            r.gpu.cycles == 0,
            !r.gpu.oam_dma_active,
            !r.gpu.hdma_flag,
            !r.gpu.request_vblank_int,
            !r.gpu.request_lcd_int,
            forall|i: int| 0 <= i < 0x4000 ==> r.gpu.vram@[i] == 0,
            forall|i: int| 0 <= i < 160 ==> r.gpu.oam@[i] == 0,
            forall|i: int| 0 <= i < 0x30 ==> r.gpu.regs@[i] == 0,
            r.gpu.frame@.len() == 160 * 144 * 3,
    {
        Mmu {
            bootrom: Bootrom::new(),
            cartridge: Cartridge::new(data),
            gpu: Gpu::new(),
            joypad: Joypad::new(),
            apu: Apu::new(),
            ie: 0,
            hdma: Hdma::default(),
            oam_dma: OamDma::default(),
            timer: Timer::new(emu_mode),
            wram: Wram::new(),
            hram: vec![0u8; 127],
            serial_out: 0,
            emu_mode,
            cgb_mode: CgbMode::new(),
            request_serial_int: false,
            oam_dma_cycles: 0,
        }
    }

    pub fn get_byte(&self, addr: u16) -> (r: u8)
        requires
            self.wf(),
        ensures
            r == self.read(addr),
    {
        match addr {
            0x0000..=0x00FF => {
                if self.bootrom.is_active {
                    self.bootrom.get_byte(addr as usize)
                } else {
                    self.cartridge.get_byte(addr)
                }
            },
            0x0100..=0x7FFF => self.cartridge.get_byte(addr),
            0x8000..=0x9FFF => self.gpu.get_byte(addr),
            0xA000..=0xBFFF => self.cartridge.get_byte(addr),
            0xC000..=0xDFFF => self.wram.get_byte(addr),
            0xE000..=0xFDFF => self.wram.get_byte(addr - 0x2000),
            0xFE00..=0xFE9F => {
                if self.gpu.oam_dma_active || self.oam_dma.restarting {
                    0xFF
                } else {
                    self.gpu.get_byte(addr)
                }
            },
            0xFEA0..=0xFEFF => 0xFF,
            0xFF00..=0xFF3F => match addr {
                0xFF00 => self.joypad.get_byte(),
                0xFF01 => self.serial_out,
                0xFF02 => 0x7E,
                0xFF04..=0xFF07 => self.timer.get_byte(addr),
                0xFF0F => self.interrupt_flag_byte(),
                0xFF10..=0xFF1E => self.apu.get_byte(addr),
                0xFF20..=0xFF26 => self.apu.get_byte(addr),
                0xFF30..=0xFF3F => self.apu.get_byte(addr),
                _ => 0xFF,
            },
            0xFF40..=0xFF45 => self.gpu.get_byte(addr),
            0xFF46 => {
                let src = self.oam_dma.src_addr;
                assert((src >> 8u16) as u8 == (src / 256) as u8) by (bit_vector);
                (src >> 8) as u8
            },
            0xFF47..=0xFF4B => self.gpu.get_byte(addr),
            0xFF4C..=0xFF7F => {
                let cgb = self.emu_mode == EmulationMode::Cgb;
                match addr {
                    0xFF4D => if cgb {
                        self.cgb_mode.to_byte()
                    } else {
                        0xFF
                    },
                    0xFF4F => if cgb {
                        self.gpu.get_byte(addr)
                    } else {
                        0xFF
                    },
                    0xFF55 => if !cgb {
                        0xFF
                    } else {
                        match self.hdma.hdma_type {
                            HdmaType::GPDma => self.hdma.blocks,
                            HdmaType::HBlankDma => self.hdma.blocks,
                            HdmaType::NoHdma => 0x80 | self.hdma.blocks,
                        }
                    },
                    0xFF68..=0xFF6B => if cgb {
                        self.gpu.get_byte(addr)
                    } else {
                        0xFF
                    },
                    0xFF70 => if cgb {
                        self.wram.get_byte(addr)
                    } else {
                        0xFF
                    },
                    _ => 0xFF,
                }
            },
            0xFF80..=0xFFFE => self.hram[(addr - 0xFF80) as usize],
            0xFFFF => self.ie,
        }
    }

    fn interrupt_flag_byte(&self) -> (r: u8)
        ensures
            r == self.interrupt_flags(),
    {
        0xE0 | Self::flag(self.joypad.request_joypad_int, 0x10) | Self::flag(
            self.request_serial_int,
            0x08,
        ) | Self::flag(self.timer.request_timer_int, 0x04) | Self::flag(
            self.gpu.request_lcd_int,
            0x02,
        ) | Self::flag(self.gpu.request_vblank_int, 0x01)
    }

    fn flag(b: bool, bit: u8) -> (r: u8)
        ensures
            r == flag_bit(b, bit),
    {
        if b {
            bit
        } else {
            0
        }
    }

    pub fn set_byte(&mut self, addr: u16, value: u8)
        requires
            old(self).wf(),
        ensures
            final(self).wf(),
            old(self).written_to(*final(self), addr, value),
    {
        let cgb = self.emu_mode == EmulationMode::Cgb;
        match addr {
            0x0000..=0x7FFF => self.cartridge.set_byte(addr, value),
            0x8000..=0x9FFF => self.gpu.set_byte(addr, value),
            0xA000..=0xBFFF => self.cartridge.set_byte(addr, value),
            0xC000..=0xDFFF => self.wram.set_byte(addr, value),
            0xE000..=0xFDFF => self.wram.set_byte(addr - 0x2000, value),
            0xFE00..=0xFE9F => {
                if !(self.gpu.oam_dma_active || self.oam_dma.restarting) {
                    self.gpu.set_byte(addr, value);
                }
            },
            0xFEA0..=0xFEFF => {},
            0xFF00..=0xFF3F => match addr {
                0xFF00 => self.joypad.set_byte(value),
                0xFF01 => {
                    self.serial_out = value;
                },
                0xFF04..=0xFF07 => self.timer.set_byte(addr, value),
                0xFF0F => {
                    self.gpu.request_vblank_int = (value & 0x01) != 0;
                    self.gpu.request_lcd_int = (value & 0x02) != 0;
                    self.timer.request_timer_int = (value & 0x04) != 0;
                    self.request_serial_int = (value & 0x08) != 0;
                    self.joypad.request_joypad_int = (value & 0x10) != 0;
                },
                0xFF10..=0xFF1E => self.apu.set_byte(addr, value),
                0xFF20..=0xFF26 => self.apu.set_byte(addr, value),
                0xFF30..=0xFF3F => self.apu.set_byte(addr, value),
                _ => {},
            },
            0xFF40..=0xFF45 => self.gpu.set_byte(addr, value),
            0xFF46 => self.activate_oam_dma(value),
            0xFF47..=0xFF4B => self.gpu.set_byte(addr, value),
            0xFF4D => {
                if cgb {
                    self.cgb_mode.prepare_speed_switch = value & 0x1;
                }
            },
            0xFF4F => {
                if cgb {
                    self.gpu.set_byte(addr, value);
                }
            },
            0xFF50 => {
                if self.bootrom.is_active && value == 1 {
                    self.bootrom.deactivate();
                }
            },
            0xFF51 => {
                if cgb {
                    self.hdma.src = (self.hdma.src & 0xF0) | ((value as u16) << 8);
                }
            },
            0xFF52 => {
                if cgb {
                    self.hdma.src = (self.hdma.src & 0xFF00) | (value as u16 & 0xF0);
                }
            },
            0xFF53 => {
                if cgb {
                    self.hdma.dst = (self.hdma.dst & 0xF0) | ((value as u16) << 8);
                }
            },
            0xFF54 => {
                if cgb {
                    self.hdma.dst = (self.hdma.dst & 0x1F00) | (value as u16 & 0xF0);
                }
            },
            0xFF55 => {
                if cgb {
                    if value & 0x80 == 0 && self.hdma.hdma_type == HdmaType::HBlankDma {
                        self.hdma.hdma_type = HdmaType::NoHdma;
                    } else {
                        if value & 0x80 == 0 {
                            self.hdma.hdma_type = HdmaType::GPDma;
                        } else {
                            self.hdma.new_hdma = true;
                            self.hdma.hdma_type = HdmaType::HBlankDma;
                        }
                        self.hdma.blocks = value & 0x7F;
                    }
                }
            },
            0xFF68..=0xFF6B => {
                if cgb {
                    self.gpu.set_byte(addr, value);
                }
            },
            0xFF70 => {
                if cgb {
                    self.wram.set_byte(addr, value);
                }
            },
            0xFF4C..=0xFF7F => {},
            0xFF80..=0xFFFE => {
                self.hram.set((addr - 0xFF80) as usize, value);
            },
            0xFFFF => {
                self.ie = value;
            },
        }
    }

    /// Puts the registers in the state the boot program leaves them in.
    pub fn simulate_bootrom(&mut self)
        requires
            old(self).wf(),
        ensures
            final(self).wf(),
            final(self).read(0xFF00) == 0xCF,
            final(self).read(0xFF0F) == 0xE1,
            final(self).read(0xFFFF) == 0,
            final(self).is_cgb() ==> final(self).read(0xFF70) == 0xF8 && final(self).read(0xFF4F)
                == 0xFE,
            !final(self).is_cgb() ==> final(self).wram == old(self).wram && final(self).gpu.vbk
                == old(self).gpu.vbk,
            final(self).emu_mode == old(self).emu_mode,
            final(self).bootrom == old(self).bootrom,
            final(self).cartridge == old(self).cartridge,
            final(self).hram == old(self).hram,
            final(self).oam_dma == old(self).oam_dma,
            final(self).hdma == old(self).hdma,
            final(self).gpu.vram == old(self).gpu.vram,
            final(self).gpu.oam == old(self).gpu.oam,
            final(self).wram.data == old(self).wram.data,
            final(self).timer == (Timer { request_timer_int: false, ..old(self).timer }),
    {
        match self.emu_mode {
            EmulationMode::Dmg => {
                self.set_byte(0xFF70, 0xFF);
                self.set_byte(0xFF4F, 0xFF);
            },
            EmulationMode::Cgb => {
                self.set_byte(0xFF70, 0xF8);
                self.set_byte(0xFF4F, 0xFE);
                self.set_byte(0xFF6C, 0xFE);
                self.set_byte(0xFF75, 0x8F);
            },
        }
        self.set_byte(0xFF00, 0xCF);
        self.set_byte(0xFF0F, 0xE1);
        self.set_byte(0xFFFF, 0);
        assert(0xCFu8 & 0x30 == 0 && 0xE1u8 & 0x01 != 0 && 0xE1u8 & 0x02 == 0 && 0xE1u8 & 0x04 == 0
            && 0xE1u8 & 0x08 == 0 && 0xE1u8 & 0x10 == 0 && 0xF8u8 & 7 == 0 && 0xFEu8 & 1 == 0
            && 0xF8u8 | 0 == 0xF8 && 0xFEu8 | 0 == 0xFE && 0xCFu8 | 0 == 0xCF && 0xE0u8 | 0 | 0 | 0
            | 0 | 1 == 0xE1) by (bit_vector);
    }

    /// General-purpose DMA: one block per call; the transfer ends with the last one.
    pub fn gdma_tick(&mut self)
        requires
            old(self).wf(),
        ensures
            final(self).wf(),
            old(self).hdma.hdma_type == HdmaType::NoHdma ==> *final(self) == *old(self),
            old(self).hdma.hdma_type != HdmaType::NoHdma ==> old(self).hdma_block_copied(
                *final(self),
            ),
    {
        self.hdma_transfer_block();
    }

    /// H-Blank DMA: one block per H-Blank; the video unit's request is acknowledged.
    pub fn hdma_tick(&mut self)
        requires
            old(self).wf(),
        ensures
            final(self).wf(),
            old(self).hdma.hdma_type == HdmaType::NoHdma ==> *final(self) == (Mmu {
                gpu: Gpu { hdma_flag: false, ..old(self).gpu },
                ..*old(self)
            }),
            old(self).hdma.hdma_type != HdmaType::NoHdma ==> exists|m: Mmu|
                old(self).hdma_block_copied(m) && *final(self) == (Mmu {
                    gpu: Gpu { hdma_flag: false, ..m.gpu },
                    ..m
                }),
    {
        self.hdma_transfer_block();
        self.gpu.hdma_flag = false;
    }

    #[verifier::rlimit(50)]
    fn hdma_transfer_block(&mut self)
        requires
            old(self).wf(),
        ensures
            final(self).wf(),
            old(self).hdma.hdma_type == HdmaType::NoHdma ==> *final(self) == *old(self),
            old(self).hdma.hdma_type != HdmaType::NoHdma ==> old(self).hdma_block_copied(
                *final(self),
            ),
    {
        if self.hdma.hdma_type == HdmaType::NoHdma {
            return;
        }
        let ghost start = *self;
        let mut n: u16 = 0;
        while n < 16
            invariant
                n <= 16,
                self.wf(),
                start.wf(),
                start.hdma.hdma_type != HdmaType::NoHdma,
                *self == (Mmu {
                    gpu: Gpu { vram: self.gpu.vram, ..start.gpu },
                    hdma: Hdma {
                        src: ((start.hdma.src + n) % 0x10000) as u16,
                        dst: ((start.hdma.dst + n) % 0x10000) as u16,
                        ..start.hdma
                    },
                    ..start
                }),
                self.gpu.vram@ == start.hdma_vram_after(n as nat),
            decreases 16 - n,
        {
            let src = self.hdma.src;
            let dst = self.hdma.dst;
            proof {
                if !(0x8000 <= src <= 0x9FFF) {
                    lemma_read_outside_vram(*self, start, src);
                }
            }
            let value = self.get_byte(src);
            let target = 0x8000 | (dst & 0x1FFF);
            assert(0x8000u16 | (dst & 0x1FFFu16) == 0x8000 + dst % 0x2000) by (bit_vector);
            assert(target == start.hdma_target(n as int));
            proof {
                start.lemma_hdma_index(n as int);
                let b = start.gpu.vbk;
                assert(b & 1 <= 1) by (bit_vector);
                assert(value == start.hdma_byte(self.gpu.vram@, n as int));
            }
            self.gpu.set_byte(target, value);
            self.hdma.src = self.hdma.src.wrapping_add(1);
            self.hdma.dst = self.hdma.dst.wrapping_add(1);
            n += 1;
        }
        if self.hdma.blocks == 0 {
            self.hdma.hdma_type = HdmaType::NoHdma;
        } else {
            self.hdma.blocks -= 1;
        }
    }

    pub fn apu_tick(&mut self, cycles: usize)
        ensures
            *final(self) == (Mmu {
                apu: Apu { cycles: old(self).apu.cycles.wrapping_add(cycles), ..old(self).apu },
                ..*old(self)
            }),
    {
        self.apu.tick(cycles);
    }

    pub fn gpu_tick(&mut self, cycles: usize)
        ensures
            *final(self) == (Mmu {
                gpu: Gpu { cycles: old(self).gpu.cycles.wrapping_add(cycles), ..old(self).gpu },
                ..*old(self)
            }),
    {
        self.gpu.tick(cycles);
    }

    pub fn timer_tick(&mut self, cycles: usize)
        requires
            old(self).wf(),
        ensures
            final(self).wf(),
            *final(self) == (Mmu { timer: old(self).timer.after(cycles as nat), ..*old(self) }),
    {
        self.timer.tick(cycles);
    }

    pub fn screen(&self) -> (r: &[u8])
        ensures
            r@ == self.gpu.frame@,
    {
        self.gpu.screen()
    }

    pub fn oam_dma_tick(&mut self, cycles: usize)
        requires
            old(self).wf(),
            old(self).oam_dma_cycles + cycles <= usize::MAX,
        ensures
            final(self).wf(),
            old(self).oam_dma.i == 160 ==> *final(self) == old(self).dma_stopped(),
            old(self).oam_dma.i != 160 ==> old(self).dma_progressed(*final(self), cycles),
    {
        if self.oam_dma.i == 160 {
            self.deactivate_oam_dma();
            return;
        }
        let ghost start = *self;
        self.oam_dma_cycles += cycles;
        if self.oam_dma.restarting && self.oam_dma_cycles >= 4 {
            self.oam_dma_cycles -= 4;
            self.gpu.oam_dma_active = true;
            self.oam_dma.restarting = false;
        } else if self.oam_dma.just_launched && self.oam_dma_cycles >= 4 {
            self.oam_dma_cycles -= 4;
            self.gpu.oam_dma_active = true;
            self.oam_dma.just_launched = false;
        }
        let ghost mid = *self;
        while self.oam_dma_cycles >= 4 && self.oam_dma.i < 160
            invariant
                self.wf(),
                start.wf(),
                *self == (Mmu {
                    oam_dma: self.oam_dma,
                    oam_dma_cycles: self.oam_dma_cycles,
                    gpu: self.gpu,
                    ..mid
                }),
                self.gpu == (Gpu { oam: self.gpu.oam, ..mid.gpu }),
                self.oam_dma == (OamDma {
                    i: self.oam_dma.i,
                    src_addr: self.oam_dma.src_addr,
                    ..mid.oam_dma
                }),
                mid.oam_dma.i <= self.oam_dma.i <= 160,
                self.oam_dma.src_addr == mid.oam_dma.src_addr + (self.oam_dma.i - mid.oam_dma.i),
                self.oam_dma_cycles + 4 * (self.oam_dma.i - mid.oam_dma.i) == mid.oam_dma_cycles,
                mid.oam_dma.src_addr == start.oam_dma.src_addr,
                mid.oam_dma.i == start.oam_dma.i,
                mid.bootrom == start.bootrom,
                mid.cartridge == start.cartridge,
                mid.wram == start.wram,
                mid.gpu.vram == start.gpu.vram,
                mid.gpu.vbk == start.gpu.vbk,
                mid.gpu.oam == start.gpu.oam,
                forall|k: int|
                    0 <= k < 160 ==> #[trigger] self.gpu.oam@[k] == if mid.oam_dma.i <= k
                        < self.oam_dma.i {
                        start.read(
                            dma_source(
                                (mid.oam_dma.src_addr + (k - mid.oam_dma.i)) as u16,
                            ),
                        )
                    } else {
                        start.gpu.oam@[k]
                    },
            decreases 160 - self.oam_dma.i,
        {
            self.oam_dma_cycles -= 4;
            let s = self.oam_dma.src_addr;
            let src = if s < 0xE000 {
                s
            } else {
                s & !0x2000
            };
            proof {
                lemma_dma_source_low(s);
                lemma_low_read_stable(*self, start, src);
            }
            let b = self.get_byte(src);
            let ghost k0 = self.oam_dma.i as int;
            self.gpu.oam.set(self.oam_dma.i as usize, b);
            self.oam_dma.i += 1;
            self.oam_dma.src_addr += 1;
            assert(s == (mid.oam_dma.src_addr + (k0 - mid.oam_dma.i)) as u16);
        }
        proof {
            let n = self.oam_dma.i - mid.oam_dma.i;
            let budget = start.dma_budget(cycles);
            assert(mid.oam_dma_cycles == budget);
            if self.oam_dma_cycles < 4 {
                assert(n == budget / 4) by (nonlinear_arith)
                    requires
                        budget == self.oam_dma_cycles + 4 * n,
                        0 <= self.oam_dma_cycles < 4,
                ;
            } else {
                assert(n <= budget / 4) by (nonlinear_arith)
                    requires
                        budget == self.oam_dma_cycles + 4 * n,
                        0 <= self.oam_dma_cycles,
                ;
            }
            assert(n == start.dma_copied(cycles));
        }
    }

    fn deactivate_oam_dma(&mut self)
        ensures
            *final(self) == old(self).dma_stopped(),
    {
        self.oam_dma.active = false;
        self.gpu.oam_dma_active = false;
        self.oam_dma.just_launched = false;
        self.oam_dma.restarting = false;
    }

    fn activate_oam_dma(&mut self, value: u8)
        requires
            old(self).wf(),
        ensures
            final(self).wf(),
            *final(self) == old(self).dma_launched(value),
    {
        if self.oam_dma_cycles > 0 {
            self.oam_dma.restarting = true;
        } else {
            self.oam_dma.just_launched = true;
        }
        self.oam_dma_cycles = 0;
        self.oam_dma.active = true;
        self.oam_dma.src_addr = (value as u16) << 8;
        assert((value as u16) << 8u16 == value as u16 * 256) by (bit_vector);
        self.oam_dma.i = 0;
    }
}

} // verus!
