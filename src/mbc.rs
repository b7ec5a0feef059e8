//! Cartridge mappers: ROM-only cartridges and the MBC1 bank controller.
use vstd::prelude::*;

verus! {

/// Size of one switchable ROM bank.
pub const ROM_BANK_SIZE: usize = 0x4000;

/// Size of one external RAM bank.
pub const RAM_BANK_SIZE: usize = 0x2000;

/// Size of the external RAM that an MBC1 cartridge carries.
pub const EXTERNAL_RAM_SIZE: usize = 0x8000;

/// What a cartridge holds, as the CPU address space sees it.
pub enum CartModel {
    RomOnly { rom: Seq<u8> },
    Mbc1 {
        rom: Seq<u8>,
        ram: Seq<u8>,
        rom_bank: u8,
        ram_bank: u8,
        ram_enabled: bool,
        banking_mode: u8,
    },
}

/// The byte at `index` of `s`, taken modulo its length (0xFF for an empty buffer).
pub open spec fn wrapped_byte(s: Seq<u8>, index: int) -> u8 {
    if s.len() == 0 { 0xFF } else { s[index % (s.len() as int)] }
}

/// Index into external RAM that `addr` (in 0xA000..=0xBFFF) selects with `ram_bank`.
pub open spec fn ram_index(ram_bank: u8, addr: u16) -> int {
    (ram_bank * 0x2000 + (addr - 0xA000)) % (EXTERNAL_RAM_SIZE as int)
}

/// The low five bits that a write to 0x2000..=0x3FFF selects: zero becomes one.
pub open spec fn low_bank_bits(val: u8) -> u8 {
    if val & 0x1F == 0 { 1 } else { val & 0x1F }
}

/// A cartridge read at `addr`.
pub open spec fn cart_read(m: CartModel, addr: u16) -> u8 {
    match m {
        CartModel::RomOnly { rom } => if (addr as int) < rom.len() { rom[addr as int] } else { 0xFF },
        CartModel::Mbc1 { rom, ram, rom_bank, ram_bank, ram_enabled, banking_mode } => {
            if addr <= 0x3FFF {
                wrapped_byte(rom, addr as int)
            } else if addr <= 0x7FFF {
                wrapped_byte(rom, rom_bank * 0x4000 + (addr - 0x4000))
            } else if 0xA000 <= addr && addr <= 0xBFFF {
                if ram_enabled { ram[ram_index(ram_bank, addr)] } else { 0xFF }
            } else {
                0xFF
            }
        },
    }
}

/// A cartridge write of `val` at `addr`: banking registers or external RAM.
pub open spec fn cart_write(m: CartModel, addr: u16, val: u8) -> CartModel {
    match m {
        CartModel::RomOnly { .. } => m,
        CartModel::Mbc1 { rom, ram, rom_bank, ram_bank, ram_enabled, banking_mode } => {
            if addr <= 0x1FFF {
                CartModel::Mbc1 { rom, ram, rom_bank, ram_bank, ram_enabled: val & 0x0F == 0x0A, banking_mode }
            } else if addr <= 0x3FFF {
                CartModel::Mbc1 {
                    rom,
                    ram,
                    rom_bank: (rom_bank & 0x60) | low_bank_bits(val),
                    ram_bank,
                    ram_enabled,
                    banking_mode,
                }
            } else if addr <= 0x5FFF {
                if banking_mode == 0 {
                    CartModel::Mbc1 {
                        rom,
                        ram,
                        rom_bank: (rom_bank & 0x1F) | ((val & 0x03) << 5u8),
                        ram_bank,
                        ram_enabled,
                        banking_mode,
                    }
                } else {
                    CartModel::Mbc1 { rom, ram, rom_bank, ram_bank: val & 0x03, ram_enabled, banking_mode }
                }
            } else if addr <= 0x7FFF {
                CartModel::Mbc1 { rom, ram, rom_bank, ram_bank, ram_enabled, banking_mode: val & 0x01 }
            } else if 0xA000 <= addr && addr <= 0xBFFF && ram_enabled {
                CartModel::Mbc1 {
                    rom,
                    ram: ram.update(ram_index(ram_bank, addr), val),
                    rom_bank,
                    ram_bank,
                    ram_enabled,
                    banking_mode,
                }
            } else {
                m
            }
        },
    }
}

/// Well-formedness of a cartridge model: MBC1 external RAM has its full size.
pub open spec fn cart_model_wf(m: CartModel) -> bool {
    match m {
        CartModel::RomOnly { .. } => true,
        CartModel::Mbc1 { ram, .. } => ram.len() == EXTERNAL_RAM_SIZE,
    }
}

/// On MBC1, writing 0 to 0x2100 selects bank 1 in the low five bank bits;
/// with the two high bank bits clear, 0x4000..=0x7FFF then reads bank 1.
pub proof fn lemma_mbc1_bank_zero_is_one(m: CartModel, offset: u16)
    requires
        m is Mbc1,
        offset < 0x4000,
    ensures
        cart_write(m, 0x2100, 0)->Mbc1_rom_bank & 0x1F == 1,
        m->Mbc1_rom_bank & 0x60 == 0 ==> cart_read(cart_write(m, 0x2100, 0), (0x4000 + offset) as u16)
            == wrapped_byte(m->Mbc1_rom, 0x4000 + offset),
{
    let b = m->Mbc1_rom_bank;
    assert(0u8 & 0x1Fu8 == 0u8 && ((b & 0x60) | 1) & 0x1F == 1) by (bit_vector);
    assert(b & 0x60 == 0 ==> (b & 0x60) | 1 == 1) by (bit_vector);
}

/// The behaviour shared by every cartridge type: a read and a write against
/// CPU addresses 0x0000..=0x7FFF and 0xA000..=0xBFFF.
pub trait Mbc {
    /// What the cartridge holds.
    spec fn model(&self) -> CartModel;

    /// The cartridge's internal invariant.
    spec fn wf(&self) -> bool;

    fn read(&self, addr: u16) -> (r: u8)
        requires
            self.wf(),
        ensures
            r == cart_read(self.model(), addr),
    ;

    fn write(&mut self, addr: u16, val: u8)
        requires
            old(self).wf(),
        ensures
            final(self).wf(),
            final(self).model() == cart_write(old(self).model(), addr, val),
    ;
}

/// A cartridge without a mapper: 32 KiB of ROM seen directly.
pub struct RomOnly {
    pub rom: Vec<u8>,
}

impl Mbc for RomOnly {
    open spec fn model(&self) -> CartModel {
        CartModel::RomOnly { rom: self.rom@ }
    }

    open spec fn wf(&self) -> bool {
        true
    }

    fn read(&self, addr: u16) -> (r: u8) {
        if (addr as usize) < self.rom.len() {
            self.rom[addr as usize]
        } else {
            0xFF
        }
    }

    fn write(&mut self, addr: u16, val: u8) {
    }
}

/// An MBC1 cartridge: up to 2 MiB of banked ROM and 32 KiB of banked RAM.
pub struct Mbc1 {
    pub rom: Vec<u8>,
    pub ram: Vec<u8>,
    /// Selected bank for 0x4000..=0x7FFF: five low bits and two high bits.
    pub rom_bank: u8,
    /// Selected external RAM bank (0..=3).
    pub ram_bank: u8,
    pub ram_enabled: bool,
    /// 0: the 0x4000 register selects ROM bank bits; 1: it selects the RAM bank.
    pub banking_mode: u8,
}

impl Mbc1 {
    /// A controller over `rom` with zeroed RAM, bank 1 selected, RAM locked.
    pub fn new(rom: Vec<u8>) -> (r: Mbc1)
        ensures
            r.wf(),
            r.model() == (CartModel::Mbc1 {
                rom: rom@,
                ram: Seq::new(EXTERNAL_RAM_SIZE as nat, |i: int| 0u8),
                rom_bank: 1,
                ram_bank: 0,
                ram_enabled: false,
                banking_mode: 0,
            }),
    {
        let ram = crate::zeroed(EXTERNAL_RAM_SIZE);
        Mbc1 { rom, ram, rom_bank: 1, ram_bank: 0, ram_enabled: false, banking_mode: 0 }
    }

    /// The byte of ROM at `index`, modulo the ROM's length.
    fn rom_byte(&self, index: usize) -> (r: u8)
        ensures
            r == wrapped_byte(self.rom@, index as int),
    {
        let len = self.rom.len();
        if len == 0 {
            0xFF
        } else {
            self.rom[index % len]
        }
    }

    /// The external RAM index for `addr` in 0xA000..=0xBFFF.
    fn ram_offset(&self, addr: u16) -> (r: usize)
        requires
            0xA000 <= addr <= 0xBFFF,
        ensures
            r as int == ram_index(self.ram_bank, addr),
            r < EXTERNAL_RAM_SIZE,
    {
        (self.ram_bank as usize * RAM_BANK_SIZE + (addr as usize - 0xA000)) % EXTERNAL_RAM_SIZE
    }
}

impl Mbc for Mbc1 {
    open spec fn model(&self) -> CartModel {
        CartModel::Mbc1 {
            rom: self.rom@,
            ram: self.ram@,
            rom_bank: self.rom_bank,
            ram_bank: self.ram_bank,
            ram_enabled: self.ram_enabled,
            banking_mode: self.banking_mode,
        }
    }

    open spec fn wf(&self) -> bool {
        self.ram@.len() == EXTERNAL_RAM_SIZE
    }

    fn read(&self, addr: u16) -> (r: u8) {
        if addr <= 0x3FFF {
            self.rom_byte(addr as usize)
        } else if addr <= 0x7FFF {
            self.rom_byte(self.rom_bank as usize * ROM_BANK_SIZE + (addr as usize - 0x4000))
        } else if 0xA000 <= addr && addr <= 0xBFFF {
            if self.ram_enabled {
                self.ram[self.ram_offset(addr)]
            } else {
                0xFF
            }
        } else {
            0xFF
        }
    }

    fn write(&mut self, addr: u16, val: u8) {
        if addr <= 0x1FFF {
            self.ram_enabled = (val & 0x0F) == 0x0A;
        } else if addr <= 0x3FFF {
            let mut bank = val & 0x1F;
            if bank == 0 {
                bank = 1;
            }
            self.rom_bank = (self.rom_bank & 0x60) | bank;
        } else if addr <= 0x5FFF {
            let bits = val & 0x03;
            if self.banking_mode == 0 {
                self.rom_bank = (self.rom_bank & 0x1F) | (bits << 5u8);
            } else {
                self.ram_bank = bits;
            }
        } else if addr <= 0x7FFF {
            self.banking_mode = val & 0x01;
        } else if 0xA000 <= addr && addr <= 0xBFFF {
            if self.ram_enabled {
                let offset = self.ram_offset(addr);
                self.ram.set(offset, val);
            }
        }
    }
}

/// A cartridge of either supported kind.
pub enum Cartridge {
    RomOnly(RomOnly),
    Mbc1(Mbc1),
}

impl Mbc for Cartridge {
    open spec fn model(&self) -> CartModel {
        match self {
            Cartridge::RomOnly(c) => c.model(),
            Cartridge::Mbc1(c) => c.model(),
        }
    }

    open spec fn wf(&self) -> bool {
        match self {
            Cartridge::RomOnly(c) => c.wf(),
            Cartridge::Mbc1(c) => c.wf(),
        }
    }

    fn read(&self, addr: u16) -> (r: u8) {
        match self {
            Cartridge::RomOnly(c) => c.read(addr),
            Cartridge::Mbc1(c) => c.read(addr),
        }
    }

    fn write(&mut self, addr: u16, val: u8) {
        match self {
            Cartridge::RomOnly(c) => c.write(addr, val),
            Cartridge::Mbc1(c) => c.write(addr, val),
        }
    }
}

/// The header byte that names the cartridge type.
pub const CARTRIDGE_TYPE_ADDR: usize = 0x0147;

/// The cartridge type named by the header (0 where the image is too short).
pub open spec fn header_type(data: Seq<u8>) -> u8 {
    if CARTRIDGE_TYPE_ADDR < data.len() { data[CARTRIDGE_TYPE_ADDR as int] } else { 0 }
}

/// Builds the cartridge that the header byte 0x0147 selects: type 0 is
/// ROM-only, every other type is driven as MBC1.
pub fn new_cartridge(data: Vec<u8>) -> (r: Cartridge)
    ensures
        r.wf(),
        header_type(data@) == 0 ==> r.model() == (CartModel::RomOnly { rom: data@ }),
        header_type(data@) != 0 ==> r.model() == (CartModel::Mbc1 {
            rom: data@,
            ram: Seq::new(EXTERNAL_RAM_SIZE as nat, |i: int| 0u8),
            rom_bank: 1,
            ram_bank: 0,
            ram_enabled: false,
            banking_mode: 0,
        }),
{
    let cartridge_type: u8 = if CARTRIDGE_TYPE_ADDR < data.len() {
        data[CARTRIDGE_TYPE_ADDR]
    } else {
        0
    };
    if cartridge_type == 0 {
        Cartridge::RomOnly(RomOnly { rom: data })
    } else {
        Cartridge::Mbc1(Mbc1::new(data))
    }
}

} // verus!
