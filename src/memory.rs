//! The memory bus: address decoding, work and high RAM, the timer, OAM DMA
//! and the interrupt registers.
use vstd::prelude::*;
use crate::gpu::{Gpu, GpuModel, gpu_wf, compare_lyc, power_up_gpu, OAM_SIZE};
use crate::joypad::Joypad;
use crate::mbc::{Cartridge, CartModel, Mbc, cart_read, cart_write, cart_model_wf};

verus! {

pub const WRAM_SIZE: usize = 0x2000;

pub const HRAM_SIZE: usize = 0x7F;

/// Interrupt bits of IE and IF.
pub const INT_VBLANK: u8 = 0x01;

pub const INT_STAT: u8 = 0x02;

pub const INT_TIMER: u8 = 0x04;

pub const INT_SERIAL: u8 = 0x08;

pub const INT_JOYPAD: u8 = 0x10;

/// Everything the bus holds, as mathematical values.
pub struct BusModel {
    pub cart: CartModel,
    pub wram: Seq<u8>,
    pub hram: Seq<u8>,
    pub gpu: GpuModel,
    pub joypad: Joypad,
    pub ie: u8,
    pub iflag: u8,
    pub div: u16,
    pub tima: u8,
    pub tma: u8,
    pub tac: u8,
}

/// The bus owns the cartridge, the PPU, the joypad, work and high RAM, the
/// timer and the interrupt registers.
pub struct Bus {
    pub cartridge: Cartridge,
    pub wram: Vec<u8>,
    pub hram: Vec<u8>,
    pub gpu: Gpu,
    pub joypad: Joypad,
    /// IE (0xFFFF).
    pub interrupt_enable: u8,
    /// IF (0xFF0F): bit 0 VBlank, 1 STAT, 2 timer, 3 serial, 4 joypad.
    pub interrupt_flag: u8,
    /// The 16-bit internal divider; DIV is its high byte.
    pub div: u16,
    pub tima: u8,
    pub tma: u8,
    pub tac: u8,
}

impl View for Bus {
    type V = BusModel;

    open spec fn view(&self) -> BusModel {
        BusModel {
            cart: self.cartridge.model(),
            wram: self.wram@,
            hram: self.hram@,
            gpu: self.gpu@,
            joypad: self.joypad,
            ie: self.interrupt_enable,
            iflag: self.interrupt_flag,
            div: self.div,
            tima: self.tima,
            tma: self.tma,
            tac: self.tac,
        }
    }
}

/// The invariant of the bus model: memory sizes and the PPU's invariant.
pub open spec fn bus_wf(m: BusModel) -> bool {
    &&& cart_model_wf(m.cart)
    &&& m.wram.len() == WRAM_SIZE
    &&& m.hram.len() == HRAM_SIZE
    &&& gpu_wf(m.gpu)
}

/// A read of an LCD register (0xFF40..=0xFF4B).
pub open spec fn gpu_reg_read(g: GpuModel, addr: u16) -> u8 {
    if addr == 0xFF40 {
        g.lcdc
    } else if addr == 0xFF41 {
        g.stat
    } else if addr == 0xFF42 {
        g.scy
    } else if addr == 0xFF43 {
        g.scx
    } else if addr == 0xFF44 {
        g.ly
    } else if addr == 0xFF45 {
        g.lyc
    } else if addr == 0xFF47 {
        g.bgp
    } else if addr == 0xFF48 {
        g.obp0
    } else if addr == 0xFF49 {
        g.obp1
    } else if addr == 0xFF4A {
        g.wy
    } else if addr == 0xFF4B {
        g.wx
    } else {
        0xFF
    }
}

/// A write of an LCD register (0xFF40..=0xFF4B but for 0xFF46): any write
/// to LY resets it to 0 and compares it with LYC, STAT keeps its three
/// read-only bits, and turning the LCD off resets LY and the mode.
pub open spec fn gpu_reg_write(g: GpuModel, addr: u16, val: u8) -> GpuModel {
    if addr == 0xFF40 {
        if val & 0x80 == 0 {
            GpuModel { lcdc: val, ly: 0, stat: g.stat & 0xFC, ..g }
        } else {
            GpuModel { lcdc: val, ..g }
        }
    } else if addr == 0xFF41 {
        GpuModel { stat: (g.stat & 0x07) | (val & 0xF8), ..g }
    } else if addr == 0xFF42 {
        GpuModel { scy: val, ..g }
    } else if addr == 0xFF43 {
        GpuModel { scx: val, ..g }
    } else if addr == 0xFF44 {
        compare_lyc(GpuModel { ly: 0, ..g })
    } else if addr == 0xFF45 {
        GpuModel { lyc: val, ..g }
    } else if addr == 0xFF47 {
        GpuModel { bgp: val, ..g }
    } else if addr == 0xFF48 {
        GpuModel { obp0: val, ..g }
    } else if addr == 0xFF49 {
        GpuModel { obp1: val, ..g }
    } else if addr == 0xFF4A {
        GpuModel { wy: val, ..g }
    } else if addr == 0xFF4B {
        GpuModel { wx: val, ..g }
    } else {
        g
    }
}

/// What the CPU reads at `addr`.
pub open spec fn bus_read(m: BusModel, addr: u16) -> u8 {
    if addr <= 0x7FFF {
        cart_read(m.cart, addr)
    } else if addr <= 0x9FFF {
        m.gpu.vram[addr - 0x8000]
    } else if addr <= 0xBFFF {
        cart_read(m.cart, addr)
    } else if addr <= 0xDFFF {
        m.wram[addr - 0xC000]
    } else if addr <= 0xFDFF {
        m.wram[addr - 0xE000]
    } else if addr <= 0xFE9F {
        m.gpu.oam[addr - 0xFE00]
    } else if addr == 0xFF00 {
        m.joypad.p1_value()
    } else if addr == 0xFF04 {
        (m.div >> 8) as u8
    } else if addr == 0xFF05 {
        m.tima
    } else if addr == 0xFF06 {
        m.tma
    } else if addr == 0xFF07 {
        m.tac
    } else if addr == 0xFF0F {
        m.iflag | (if m.joypad.interrupt_request { INT_JOYPAD } else { 0 }) | 0xE0
    } else if 0xFF40 <= addr && addr <= 0xFF4B {
        gpu_reg_read(m.gpu, addr)
    } else if 0xFF80 <= addr && addr <= 0xFFFE {
        m.hram[addr - 0xFF80]
    } else if addr == 0xFFFF {
        m.ie
    } else {
        0xFF
    }
}

/// OAM DMA from page `source_high`: OAM byte `i` becomes the byte read at
/// `source_high * 0x100 + i`.
pub open spec fn dma(m: BusModel, source_high: u8) -> BusModel {
    BusModel {
        gpu: GpuModel {
            oam: Seq::new(OAM_SIZE as nat, |i: int| bus_read(m, (source_high * 0x100 + i) as u16)),
            ..m.gpu
        },
        ..m
    }
}

/// The state after the CPU writes `val` at `addr`.
pub open spec fn bus_write(m: BusModel, addr: u16, val: u8) -> BusModel {
    if addr <= 0x7FFF {
        BusModel { cart: cart_write(m.cart, addr, val), ..m }
    } else if addr <= 0x9FFF {
        BusModel { gpu: GpuModel { vram: m.gpu.vram.update(addr - 0x8000, val), ..m.gpu }, ..m }
    } else if addr <= 0xBFFF {
        BusModel { cart: cart_write(m.cart, addr, val), ..m }
    } else if addr <= 0xDFFF {
        BusModel { wram: m.wram.update(addr - 0xC000, val), ..m }
    } else if addr <= 0xFDFF {
        BusModel { wram: m.wram.update(addr - 0xE000, val), ..m }
    } else if addr <= 0xFE9F {
        BusModel { gpu: GpuModel { oam: m.gpu.oam.update(addr - 0xFE00, val), ..m.gpu }, ..m }
    } else if addr == 0xFF00 {
        BusModel { joypad: Joypad { selection: val & 0x30, ..m.joypad }, ..m }
    } else if addr == 0xFF04 {
        BusModel { div: 0, ..m }
    } else if addr == 0xFF05 {
        BusModel { tima: val, ..m }
    } else if addr == 0xFF06 {
        BusModel { tma: val, ..m }
    } else if addr == 0xFF07 {
        BusModel { tac: val, ..m }
    } else if addr == 0xFF0F {
        BusModel { iflag: val, ..m }
    } else if addr == 0xFF46 {
        dma(m, val)
    } else if 0xFF40 <= addr && addr <= 0xFF4B {
        BusModel { gpu: gpu_reg_write(m.gpu, addr, val), ..m }
    } else if 0xFF80 <= addr && addr <= 0xFFFE {
        BusModel { hram: m.hram.update(addr - 0xFF80, val), ..m }
    } else if addr == 0xFFFF {
        BusModel { ie: val, ..m }
    } else {
        m
    }
}

/// The period, in T-cycles, of the divider bit that clocks TIMA under `tac`.
pub open spec fn timer_period(tac: u8) -> int {
    let sel = tac & 0x03;
    if sel == 0 {
        1024
    } else if sel == 1 {
        16
    } else if sel == 2 {
        64
    } else {
        256
    }
}

/// Falling edges of the selected divider bit while the counter runs from
/// `old` through `inc` more T-cycles.
pub open spec fn falling_edges(old: u16, inc: int, tac: u8) -> int {
    (old + inc) / timer_period(tac) - (old as int) / timer_period(tac)
}

/// `n` TIMA increments: on an overflow TIMA is reloaded from TMA and the timer
/// interrupt is requested. The result is (TIMA, IF).
pub open spec fn timer_ticks(tima: u8, tma: u8, iflag: u8, n: nat) -> (u8, u8)
    decreases n,
{
    if n == 0 {
        (tima, iflag)
    } else {
        let (t, f) = timer_ticks(tima, tma, iflag, (n - 1) as nat);
        if t == 255 {
            (tma, f | INT_TIMER)
        } else {
            ((t + 1) as u8, f)
        }
    }
}

/// The timer after `m_cycles` machine cycles.
pub open spec fn timer_step(m: BusModel, m_cycles: u32) -> BusModel {
    let inc = m_cycles * 4;
    let div = ((m.div + inc) % 0x10000) as u16;
    if m.tac & 0x04 != 0 {
        let (tima, iflag) = timer_ticks(m.tima, m.tma, m.iflag, falling_edges(m.div, inc, m.tac) as nat);
        BusModel { div, tima, iflag, ..m }
    } else {
        BusModel { div, ..m }
    }
}

/// STAT writes and LCD-off keep the mode bits as the PPU's invariant needs them.
proof fn lemma_stat_bits()
    ensures
        forall|s: u8, v: u8| #[trigger] ((s & 0x07) | (v & 0xF8)) & 0x03 == s & 0x03,
        forall|s: u8| #[trigger] (s & 0xFC) & 0x03 == 0,
{
    assert forall|s: u8, v: u8| #[trigger] ((s & 0x07) | (v & 0xF8)) & 0x03 == s & 0x03 by {
        assert(((s & 0x07) | (v & 0xF8)) & 0x03 == s & 0x03) by (bit_vector);
    }
    assert forall|s: u8| #[trigger] (s & 0xFC) & 0x03 == 0 by {
        assert((s & 0xFC) & 0x03 == 0) by (bit_vector);
    }
}

/// A byte written to VRAM, work RAM (or its echo), OAM or high RAM reads back.
pub proof fn lemma_read_after_write(m: BusModel, addr: u16, val: u8)
    requires
        bus_wf(m),
        (0x8000 <= addr <= 0x9FFF) || (0xC000 <= addr <= 0xFDFF) || (0xFE00 <= addr <= 0xFE9F) || (0xFF80
            <= addr <= 0xFFFE),
    ensures
        bus_read(bus_write(m, addr, val), addr) == val,
{
}

/// A write to plain memory leaves every other plain-memory address as it was.
pub proof fn lemma_write_other(m: BusModel, addr: u16, val: u8, other: u16)
    requires
        bus_wf(m),
        (0x8000 <= addr <= 0x9FFF) || (0xC000 <= addr <= 0xFDFF) || (0xFE00 <= addr <= 0xFE9F) || (0xFF80
            <= addr <= 0xFFFE),
        (0x8000 <= other <= 0x9FFF) || (0xC000 <= other <= 0xFDFF) || (0xFE00 <= other <= 0xFE9F) || (0xFF80
            <= other <= 0xFFFE),
        other != addr,
        other != addr + 0x2000 && addr != other + 0x2000,
    ensures
        bus_read(bus_write(m, addr, val), other) == bus_read(m, other),
{
}

/// Writes keep the bus model well formed.
pub proof fn lemma_write_keeps_wf(m: BusModel, addr: u16, val: u8)
    requires
        bus_wf(m),
        (0x8000 <= addr <= 0x9FFF) || (0xC000 <= addr <= 0xFDFF) || (0xFE00 <= addr <= 0xFE9F) || (0xFF80
            <= addr <= 0xFFFE),
    ensures
        bus_wf(bus_write(m, addr, val)),
{
}

/// Echo RAM: 0xE000..=0xFDFF reads as work RAM 0x2000 lower.
pub proof fn lemma_echo_ram(m: BusModel, addr: u16)
    requires
        0xC000 <= addr < 0xDE00,
    ensures
        bus_read(m, addr) == bus_read(m, (addr + 0x2000) as u16),
{
}

/// A write to STAT keeps its three read-only bits (mode and coincidence).
pub proof fn lemma_stat_write_keeps_low_bits(m: BusModel, val: u8)
    ensures
        bus_write(m, 0xFF41, val).gpu.stat & 0x07 == m.gpu.stat & 0x07,
{
    let s = m.gpu.stat;
    assert(((s & 0x07) | (val & 0xF8)) & 0x07 == s & 0x07) by (bit_vector);
}

/// From TIMA = 0, fewer than 256 increments count up without an overflow;
/// the 256th reloads TIMA from TMA and requests the timer interrupt.
pub proof fn lemma_timer_overflows_once(tma: u8, iflag: u8, n: nat)
    ensures
        n < 256 ==> timer_ticks(0, tma, iflag, n) == (n as u8, iflag),
        n == 256 ==> timer_ticks(0, tma, iflag, n) == (tma, iflag | INT_TIMER),
    decreases n,
{
    if n > 0 {
        lemma_timer_overflows_once(tma, iflag, (n - 1) as nat);
    }
}

/// With TAC = 0x05 (timer on, divider bit 3), 1024 machine cycles give 256
/// falling edges: from TIMA = 0 the timer overflows once, reloading TMA and
/// raising IF bit 2.
pub proof fn lemma_timer_step_overflow(m: BusModel)
    requires
        m.tac == 0x05,
        m.tima == 0,
    ensures
        timer_step(m, 1024).tima == m.tma,
        timer_step(m, 1024).iflag == m.iflag | INT_TIMER,
{
    assert(0x05u8 & 0x04u8 != 0u8 && 0x05u8 & 0x03u8 == 1u8) by (bit_vector);
    assert(falling_edges(m.div, 4096, m.tac) == 256);
    lemma_timer_overflows_once(m.tma, m.iflag, 256);
}

impl Bus {
    /// The bus invariant.
    pub open spec fn wf(&self) -> bool {
        self.cartridge.wf() && bus_wf(self@)
    }

    /// Assembles a bus around `cartridge`: zeroed RAM, a fresh PPU and joypad,
    /// interrupts off and the divider at 0xABCC.
    pub fn new(cartridge: Cartridge) -> (r: Bus)
        requires
            cartridge.wf(),
        ensures
            r.wf(),
            r@.cart == cartridge.model(),
            r@.wram == Seq::new(WRAM_SIZE as nat, |i: int| 0u8),
            r@.hram == Seq::new(HRAM_SIZE as nat, |i: int| 0u8),
            r@.gpu == power_up_gpu(),
            r@.joypad == Joypad::idle(),
            r@.ie == 0 && r@.iflag == 0,
            r@.div == 0xABCC && r@.tima == 0 && r@.tma == 0 && r@.tac == 0,
    {
        let gpu = Gpu::new();
        let joypad = Joypad::new();
        Bus {
            cartridge,
            wram: crate::zeroed(WRAM_SIZE),
            hram: crate::zeroed(HRAM_SIZE),
            gpu,
            joypad,
            interrupt_enable: 0,
            interrupt_flag: 0,
            div: 0xABCC,
            tima: 0,
            tma: 0,
            tac: 0,
        }
    }

    fn read_gpu_register(&self, addr: u16) -> (r: u8)
        ensures
            r == gpu_reg_read(self.gpu@, addr),
    {
        if addr == 0xFF40 {
            self.gpu.lcdc
        } else if addr == 0xFF41 {
            self.gpu.stat
        } else if addr == 0xFF42 {
            self.gpu.scy
        } else if addr == 0xFF43 {
            self.gpu.scx
        } else if addr == 0xFF44 {
            self.gpu.ly
        } else if addr == 0xFF45 {
            self.gpu.lyc
        } else if addr == 0xFF47 {
            self.gpu.bgp
        } else if addr == 0xFF48 {
            self.gpu.obp0
        } else if addr == 0xFF49 {
            self.gpu.obp1
        } else if addr == 0xFF4A {
            self.gpu.wy
        } else if addr == 0xFF4B {
            self.gpu.wx
        } else {
            0xFF
        }
    }

    fn write_gpu_register(&mut self, addr: u16, val: u8)
        requires
            gpu_wf(old(self).gpu@),
        ensures
            gpu_wf(final(self).gpu@),
            final(self)@ == (BusModel { gpu: gpu_reg_write(old(self).gpu@, addr, val), ..old(self)@ }),
            final(self).cartridge == old(self).cartridge,
    {
        proof {
            lemma_stat_bits();
            crate::gpu::lemma_mode_bits_stat();
        }
        if addr == 0xFF40 {
            self.gpu.lcdc = val;
            if (val & 0x80) == 0 {
                self.gpu.ly = 0;
                self.gpu.stat = self.gpu.stat & 0xFC;
            }
        } else if addr == 0xFF41 {
            self.gpu.stat = (self.gpu.stat & 0x07) | (val & 0xF8);
        } else if addr == 0xFF42 {
            self.gpu.scy = val;
        } else if addr == 0xFF43 {
            self.gpu.scx = val;
        } else if addr == 0xFF44 {
            self.gpu.ly = 0;
            self.gpu.check_lyc();
        } else if addr == 0xFF45 {
            self.gpu.lyc = val;
        } else if addr == 0xFF47 {
            self.gpu.bgp = val;
        } else if addr == 0xFF48 {
            self.gpu.obp0 = val;
        } else if addr == 0xFF49 {
            self.gpu.obp1 = val;
        } else if addr == 0xFF4A {
            self.gpu.wy = val;
        } else if addr == 0xFF4B {
            self.gpu.wx = val;
        }
    }

    /// OAM DMA: copies the 160 bytes at `source_high * 0x100` into OAM.
    fn perform_dma(&mut self, source_high: u8)
        requires
            old(self).wf(),
        ensures
            final(self).wf(),
            final(self)@ == dma(old(self)@, source_high),
    {
        let ghost m0 = self@;
        let base_addr = (source_high as u16) << 8u16;
        assert(base_addr == source_high * 0x100) by (bit_vector)
            requires
                base_addr == (source_high as u16) << 8u16,
        ;
        let mut i: u16 = 0;
        assert(self@.gpu.oam =~= Seq::new(
            OAM_SIZE as nat,
            |j: int| if j < 0 { bus_read(m0, (base_addr + j) as u16) } else { m0.gpu.oam[j] },
        ));
        while i < 0xA0
            invariant
                i <= 0xA0,
                base_addr == source_high * 0x100,
                self.wf(),
                self.cartridge == old(self).cartridge,
                m0 == old(self)@,
                self@ == (BusModel {
                    gpu: GpuModel {
                        oam: Seq::new(
                            OAM_SIZE as nat,
                            |j: int| if j < i { bus_read(m0, (base_addr + j) as u16) } else { m0.gpu.oam[j] },
                        ),
                        ..m0.gpu
                    },
                    ..m0
                }),
            decreases 0xA0 - i,
        {
            let addr = base_addr + i;
            let byte = self.read(addr);
            assert(byte == bus_read(m0, addr));
            let ghost before = self@.gpu.oam;
            self.gpu.oam.set(i as usize, byte);
            assert(self@.gpu.oam =~= Seq::new(
                OAM_SIZE as nat,
                |j: int| if j < i + 1 { bus_read(m0, (base_addr + j) as u16) } else { m0.gpu.oam[j] },
            ));
            i = i + 1;
        }
        assert(self@.gpu.oam =~= dma(m0, source_high).gpu.oam);
    }

    /// Writes `val` at `addr` through the address map.
    pub fn write(&mut self, addr: u16, val: u8)
        requires
            old(self).wf(),
        ensures
            final(self).wf(),
            final(self)@ == bus_write(old(self)@, addr, val),
    {
        if addr <= 0x7FFF {
            self.cartridge.write(addr, val);
        } else if addr <= 0x9FFF {
            self.gpu.write_vram(addr - 0x8000, val);
        } else if addr <= 0xBFFF {
            self.cartridge.write(addr, val);
        } else if addr <= 0xDFFF {
            self.wram.set((addr - 0xC000) as usize, val);
        } else if addr <= 0xFDFF {
            self.wram.set((addr - 0xE000) as usize, val);
        } else if addr <= 0xFE9F {
            self.gpu.oam.set((addr - 0xFE00) as usize, val);
        } else if addr == 0xFF00 {
            self.joypad.write(val);
        } else if addr == 0xFF04 {
            self.div = 0;
        } else if addr == 0xFF05 {
            self.tima = val;
        } else if addr == 0xFF06 {
            self.tma = val;
        } else if addr == 0xFF07 {
            self.tac = val;
        } else if addr == 0xFF0F {
            self.interrupt_flag = val;
        } else if addr == 0xFF46 {
            self.perform_dma(val);
        } else if 0xFF40 <= addr && addr <= 0xFF4B {
            self.write_gpu_register(addr, val);
        } else if 0xFF80 <= addr && addr <= 0xFFFE {
            self.hram.set((addr - 0xFF80) as usize, val);
        } else if addr == 0xFFFF {
            self.interrupt_enable = val;
        }
    }

    /// Advances the divider by `cycles` machine cycles (four T-cycles each)
    /// and, when TAC enables the timer, counts TIMA once per falling edge of
    /// the divider bit that TAC selects.
    pub fn step_timer(&mut self, cycles: u32)
        requires
            old(self).wf(),
        ensures
            final(self).wf(),
            final(self)@ == timer_step(old(self)@, cycles),
    {
        let ghost m0 = self@;
        let old_div = self.div;
        let inc: u64 = cycles as u64 * 4;
        self.div = ((old_div as u64 + inc) % 0x10000) as u16;
        if (self.tac & 0x04) != 0 {
            let sel = self.tac & 0x03;
            let period: u64 = if sel == 0 {
                1024
            } else if sel == 1 {
                16
            } else if sel == 2 {
                64
            } else {
                256
            };
            proof {
                vstd::arithmetic::div_mod::lemma_div_is_ordered(
                    old_div as int,
                    old_div as int + inc as int,
                    period as int,
                );
            }
            let edges: u64 = (old_div as u64 + inc) / period - old_div as u64 / period;
            assert(edges as int == falling_edges(m0.div, cycles * 4, m0.tac));
            let mut k: u64 = 0;
            while k < edges
                invariant
                    k <= edges,
                    self.wf(),
                    self@ == (BusModel {
                        div: ((m0.div + inc) % 0x10000) as u16,
                        tima: timer_ticks(m0.tima, m0.tma, m0.iflag, k as nat).0,
                        iflag: timer_ticks(m0.tima, m0.tma, m0.iflag, k as nat).1,
                        ..m0
                    }),
                decreases edges - k,
            {
                if self.tima == 255 {
                    self.tima = self.tma;
                    self.interrupt_flag = self.interrupt_flag | INT_TIMER;
                } else {
                    self.tima = self.tima + 1;
                }
                k = k + 1;
            }
        }
    }

    /// Reads the byte at `addr` through the address map.
    pub fn read(&self, addr: u16) -> (r: u8)
        requires
            self.wf(),
        ensures
            r == bus_read(self@, addr),
    {
        if addr <= 0x7FFF {
            self.cartridge.read(addr)
        } else if addr <= 0x9FFF {
            self.gpu.read_vram(addr - 0x8000)
        } else if addr <= 0xBFFF {
            self.cartridge.read(addr)
        } else if addr <= 0xDFFF {
            self.wram[(addr - 0xC000) as usize]
        } else if addr <= 0xFDFF {
            self.wram[(addr - 0xE000) as usize]
        } else if addr <= 0xFE9F {
            self.gpu.oam[(addr - 0xFE00) as usize]
        } else if addr == 0xFF00 {
            self.joypad.read()
        } else if addr == 0xFF04 {
            (self.div >> 8) as u8
        } else if addr == 0xFF05 {
            self.tima
        } else if addr == 0xFF06 {
            self.tma
        } else if addr == 0xFF07 {
            self.tac
        } else if addr == 0xFF0F {
            self.interrupt_flag | (if self.joypad.interrupt_request { INT_JOYPAD } else { 0 }) | 0xE0
        } else if 0xFF40 <= addr && addr <= 0xFF4B {
            self.read_gpu_register(addr)
        } else if 0xFF80 <= addr && addr <= 0xFFFE {
            self.hram[(addr - 0xFF80) as usize]
        } else if addr == 0xFFFF {
            self.interrupt_enable
        } else {
            0xFF
        }
    }
}

} // verus!
