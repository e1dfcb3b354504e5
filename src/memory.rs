//! The memory bus: routes every address of the 16-bit space to the
//! cartridge or to one of the console's own memories.
use vstd::prelude::*;
use crate::cartridge::{Cartridge, CartridgeView};
use crate::error::EmuError;
use crate::registers::{high_byte, low_byte, pair_value};

verus! {

pub const TILE_RAM_SIZE: usize = 0x2000;

pub const WORKING_RAM_SIZE: usize = 0x2000;

pub const OAM_SIZE: usize = 0xA0;

pub const IO_REGISTERS_SIZE: usize = 0x80;

pub const HIGH_RAM_SIZE: usize = 0x7F;

/// Size of the placeholder ROM that a bus built without a cartridge holds.
pub const PLACEHOLDER_ROM_SIZE: usize = 0x7a1200;

/// What the bus holds, as plain values.
pub struct BusView {
    pub cartridge: CartridgeView,
    pub tile_ram: Seq<u8>,
    pub working_ram: Seq<u8>,
    pub object_attribute_memory: Seq<u8>,
    pub io_registers: Seq<u8>,
    pub high_ram: Seq<u8>,
    pub interrupt_enable_register: u8,
}

impl BusView {
    pub open spec fn wf(self) -> bool {
        &&& self.cartridge.wf()
        &&& self.tile_ram.len() == TILE_RAM_SIZE
        &&& self.working_ram.len() == WORKING_RAM_SIZE
        &&& self.object_attribute_memory.len() == OAM_SIZE
        &&& self.io_registers.len() == IO_REGISTERS_SIZE
        &&& self.high_ram.len() == HIGH_RAM_SIZE
    }

    /// The power-on bus around `cartridge`: every memory zero.
    pub open spec fn powered_on(cartridge: CartridgeView) -> BusView {
        BusView {
            cartridge,
            tile_ram: Seq::new(TILE_RAM_SIZE as nat, |i: int| 0u8),
            working_ram: Seq::new(WORKING_RAM_SIZE as nat, |i: int| 0u8),
            object_attribute_memory: Seq::new(OAM_SIZE as nat, |i: int| 0u8),
            io_registers: Seq::new(IO_REGISTERS_SIZE as nat, |i: int| 0u8),
            high_ram: Seq::new(HIGH_RAM_SIZE as nat, |i: int| 0u8),
            interrupt_enable_register: 0,
        }
    }

    /// The byte read at `addr`.
    pub open spec fn read(self, addr: u16) -> u8 {
        if addr < 0x8000 {
            self.cartridge.read(addr)
        } else if addr < 0xA000 {
            self.tile_ram[addr - 0x8000]
        } else if addr < 0xC000 {
            self.cartridge.read(addr)
        } else if addr < 0xE000 {
            self.working_ram[addr - 0xC000]
        } else if addr < 0xFE00 {
            self.working_ram[addr - 0xE000]
        } else if addr < 0xFEA0 {
            self.object_attribute_memory[addr - 0xFE00]
        } else if addr < 0xFF00 {
            0
        } else if addr < 0xFF80 {
            self.io_registers[addr - 0xFF00]
        } else if addr < 0xFFFF {
            self.high_ram[addr - 0xFF80]
        } else {
            self.interrupt_enable_register
        }
    }

    /// The bus after writing `val` at `addr`, or the fatal condition that the
    /// cartridge raises.
    pub open spec fn write(self, addr: u16, val: u8) -> Result<BusView, EmuError> {
        if addr < 0x8000 || (0xA000 <= addr < 0xC000) {
            match self.cartridge.write(addr, val) {
                Ok(c) => Ok(BusView { cartridge: c, ..self }),
                Err(e) => Err(e),
            }
        } else if addr < 0xA000 {
            Ok(BusView { tile_ram: self.tile_ram.update(addr - 0x8000, val), ..self })
        } else if addr < 0xE000 {
            Ok(BusView { working_ram: self.working_ram.update(addr - 0xC000, val), ..self })
        } else if addr < 0xFE00 {
            Ok(BusView { working_ram: self.working_ram.update(addr - 0xE000, val), ..self })
        } else if addr < 0xFEA0 {
            Ok(
                BusView {
                    object_attribute_memory: self.object_attribute_memory.update(
                        addr - 0xFE00,
                        val,
                    ),
                    ..self
                },
            )
        } else if addr < 0xFF00 {
            Ok(self)
        } else if addr < 0xFF80 {
            Ok(BusView { io_registers: self.io_registers.update(addr - 0xFF00, val), ..self })
        } else if addr < 0xFFFF {
            Ok(BusView { high_ram: self.high_ram.update(addr - 0xFF80, val), ..self })
        } else {
            Ok(BusView { interrupt_enable_register: val, ..self })
        }
    }
}

impl BusView {
    /// The little-endian word at `addr`: low byte at `addr`, high byte at
    /// the next address (wrapping).
    pub open spec fn read_word(self, addr: u16) -> u16 {
        pair_value(self.read(((addr + 1) % 0x10000) as u16), self.read(addr))
    }

    /// The bus after writing `w` little-endian at `addr`.
    #[verifier::opaque]
    pub open spec fn write_word(self, addr: u16, w: u16) -> Result<BusView, EmuError> {
        match self.write(addr, low_byte(w)) {
            Ok(b) => b.write(((addr + 1) % 0x10000) as u16, high_byte(w)),
            Err(e) => Err(e),
        }
    }
}

/// The memory bus: the cartridge and the console's own memories.
pub struct MemoryBus {
    cartridge: Cartridge,
    tile_ram: Vec<u8>,
    working_ram: Vec<u8>,
    object_attribute_memory: Vec<u8>,
    io_registers: Vec<u8>,
    high_ram: Vec<u8>,
    interrupt_enable_register: u8,
}

impl View for MemoryBus {
    type V = BusView;

    closed spec fn view(&self) -> BusView {
        BusView {
            cartridge: self.cartridge@,
            tile_ram: self.tile_ram@,
            working_ram: self.working_ram@,
            object_attribute_memory: self.object_attribute_memory@,
            io_registers: self.io_registers@,
            high_ram: self.high_ram@,
            interrupt_enable_register: self.interrupt_enable_register,
        }
    }
}

impl MemoryBus {
    /// A power-on bus holding a blank placeholder ROM of the largest size.
    pub fn new() -> (m: MemoryBus)
        ensures
            m@ == BusView::powered_on(CartridgeView::loaded(Seq::new(PLACEHOLDER_ROM_SIZE as nat, |i: int| 0u8))),
            m@.wf(),
    {
        let dummy_rom: Vec<u8> = vec![0u8; PLACEHOLDER_ROM_SIZE];
        proof {
            assert(dummy_rom@ =~= Seq::new(PLACEHOLDER_ROM_SIZE as nat, |i: int| 0u8));
        }
        MemoryBus::with_cartridge(Cartridge::new(dummy_rom))
    }

    /// A power-on bus around `cartridge`.
    pub fn with_cartridge(cartridge: Cartridge) -> (m: MemoryBus)
        requires
            cartridge@.wf(),
        ensures
            m@ == BusView::powered_on(cartridge@),
            m@.wf(),
    {
        let m = MemoryBus {
            cartridge,
            tile_ram: vec![0u8; TILE_RAM_SIZE],
            working_ram: vec![0u8; WORKING_RAM_SIZE],
            object_attribute_memory: vec![0u8; OAM_SIZE],
            io_registers: vec![0u8; IO_REGISTERS_SIZE],
            high_ram: vec![0u8; HIGH_RAM_SIZE],
            interrupt_enable_register: 0,
        };
        let ghost p = BusView::powered_on(cartridge@);
        assert(m@.tile_ram =~= p.tile_ram);
        assert(m@.working_ram =~= p.working_ram);
        assert(m@.object_attribute_memory =~= p.object_attribute_memory);
        assert(m@.io_registers =~= p.io_registers);
        assert(m@.high_ram =~= p.high_ram);
        m
    }

    pub fn read_byte(&self, addr: u16) -> (r: u8)
        requires
            self@.wf(),
        ensures
            r == self@.read(addr),
    {
        if addr < 0x8000 {
            self.cartridge.read_byte(addr)
        } else if addr < 0xA000 {
            self.tile_ram[(addr - 0x8000) as usize]
        } else if addr < 0xC000 {
            self.cartridge.read_byte(addr)
        } else if addr < 0xE000 {
            self.working_ram[(addr - 0xC000) as usize]
        } else if addr < 0xFE00 {
            self.working_ram[(addr - 0xE000) as usize]
        } else if addr < 0xFEA0 {
            self.object_attribute_memory[(addr - 0xFE00) as usize]
        } else if addr < 0xFF00 {
            0
        } else if addr < 0xFF80 {
            self.io_registers[(addr - 0xFF00) as usize]
        } else if addr < 0xFFFF {
            self.high_ram[(addr - 0xFF80) as usize]
        } else {
            self.interrupt_enable_register
        }
    }

    /// Writes `val` at `addr`. Only a cartridge write can fail; the bus is
    /// then left in an unspecified state.
    pub fn write_byte(&mut self, addr: u16, val: u8) -> (r: Result<(), EmuError>)
        requires
            old(self)@.wf(),
        ensures
            final(self)@.wf(),
            match r {
                Ok(()) => old(self)@.write(addr, val) == Ok::<BusView, EmuError>(final(self)@),
                Err(e) => old(self)@.write(addr, val) == Err::<BusView, EmuError>(e),
            },
    {
        if addr < 0x8000 || (0xA000 <= addr && addr < 0xC000) {
            self.cartridge.write_byte(addr, val)
        } else if addr < 0xA000 {
            self.tile_ram.set((addr - 0x8000) as usize, val);
            Ok(())
        } else if addr < 0xE000 {
            self.working_ram.set((addr - 0xC000) as usize, val);
            Ok(())
        } else if addr < 0xFE00 {
            self.working_ram.set((addr - 0xE000) as usize, val);
            Ok(())
        } else if addr < 0xFEA0 {
            self.object_attribute_memory.set((addr - 0xFE00) as usize, val);
            Ok(())
        } else if addr < 0xFF00 {
            Ok(())
        } else if addr < 0xFF80 {
            self.io_registers.set((addr - 0xFF00) as usize, val);
            Ok(())
        } else if addr < 0xFFFF {
            self.high_ram.set((addr - 0xFF80) as usize, val);
            Ok(())
        } else {
            self.interrupt_enable_register = val;
            Ok(())
        }
    }

    pub fn read_word(&self, addr: u16) -> (r: u16)
        requires
            self@.wf(),
        ensures
            r == self@.read_word(addr),
    {
        let lo = self.read_byte(addr);
        let hi = self.read_byte(addr.wrapping_add(1));
        (hi as u16) * 256 + lo as u16
    }

    /// Writes `w` little-endian at `addr`; on an error the bus is left in an
    /// unspecified state.
    pub fn write_word(&mut self, addr: u16, w: u16) -> (r: Result<(), EmuError>)
        requires
            old(self)@.wf(),
        ensures
            final(self)@.wf(),
            match r {
                Ok(()) => old(self)@.write_word(addr, w) == Ok::<BusView, EmuError>(final(self)@),
                Err(e) => old(self)@.write_word(addr, w) == Err::<BusView, EmuError>(e),
            },
    {
        proof {
            reveal(BusView::write_word);
        }
        let r1 = self.write_byte(addr, (w % 256) as u8);
        match r1 {
            Ok(()) => self.write_byte(addr.wrapping_add(1), (w / 256) as u8),
            Err(e) => Err(e),
        }
    }
}

} // verus!
