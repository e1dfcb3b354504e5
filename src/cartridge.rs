//! The cartridge: ROM image, external RAM and the bank controller that maps
//! them into the address space.
use vstd::prelude::*;
use crate::error::EmuError;

verus! {

/// Size of one switchable ROM bank.
pub const ROM_BANK_SIZE: usize = 0x4000;

/// Size of one external RAM bank.
pub const RAM_BANK_SIZE: usize = 0x2000;

/// Number of external RAM banks the cartridge carries.
pub const RAM_BANKS: usize = 16;

/// Byte offset of the header byte that names the bank controller.
pub const CONTROLLER_HEADER: usize = 0x0147;

/// Value read where nothing drives the bus.
pub const OPEN_BUS: u8 = 0xFF;

/// The bank controller named by the cartridge header. Only MBC5 keeps state
/// of its own: the 9-bit ROM bank number that two separate writes build.
#[derive(Clone, Copy, Debug, PartialEq, Eq, Structural)]
pub enum BankController {
    NoController,
    Mbc1,
    Mbc2,
    Mbc3,
    Mbc5(u16),
}

/// The controller that header byte `kind` names.
pub open spec fn controller_for(kind: u8) -> BankController {
    if kind == 0x01 || kind == 0x02 || kind == 0x03 {
        BankController::Mbc1
    } else if kind == 0x05 || kind == 0x06 {
        BankController::Mbc2
    } else if 0x0F <= kind <= 0x13 {
        BankController::Mbc3
    } else if 0x19 <= kind <= 0x1E {
        BankController::Mbc5(0)
    } else {
        BankController::NoController
    }
}

/// Byte `i` of a ROM image, or the open-bus value past its end.
pub open spec fn rom_byte(rom: Seq<u8>, i: int) -> u8 {
    if 0 <= i < rom.len() {
        rom[i]
    } else {
        OPEN_BUS
    }
}

/// Whether the cartridge answers reads at `addr`.
pub open spec fn is_cartridge_addr(addr: u16) -> bool {
    addr < 0x8000 || (0xA000 <= addr < 0xC000)
}

/// What a cartridge holds, as plain values.
pub struct CartridgeView {
    pub rom: Seq<u8>,
    /// Offset in `rom` of the bank mapped at 0x4000.
    pub rom_offset: int,
    pub ram: Seq<u8>,
    pub ram_bank: int,
    pub ram_enabled: bool,
    pub controller: BankController,
}

impl CartridgeView {
    /// RAM holds every bank, the selected RAM bank exists, and the ROM
    /// offset is that of a 16-bit bank number.
    pub open spec fn wf(self) -> bool {
        &&& self.ram.len() == RAM_BANKS * RAM_BANK_SIZE
        &&& 0 <= self.ram_bank < RAM_BANKS
        &&& 0 <= self.rom_offset <= 0xFFFF * ROM_BANK_SIZE
    }

    /// The cartridge built from `rom`: controller from the header, bank 1
    /// mapped at 0x4000, RAM cleared and disabled.
    pub open spec fn loaded(rom: Seq<u8>) -> CartridgeView {
        CartridgeView {
            rom,
            rom_offset: ROM_BANK_SIZE as int,
            ram: Seq::new((RAM_BANKS * RAM_BANK_SIZE) as nat, |i: int| 0u8),
            ram_bank: 0,
            ram_enabled: false,
            controller: controller_for(rom_byte(rom, CONTROLLER_HEADER as int)),
        }
    }

    /// Index in `ram` of window address `addr` (0xA000 to 0xBFFF).
    pub open spec fn ram_index(self, addr: u16) -> int {
        self.ram_bank * RAM_BANK_SIZE + (addr - 0xA000)
    }

    /// The byte read at `addr`.
    pub open spec fn read(self, addr: u16) -> u8 {
        if addr < 0x4000 {
            rom_byte(self.rom, addr as int)
        } else if addr < 0x8000 {
            rom_byte(self.rom, self.rom_offset + (addr - 0x4000))
        } else if self.ram_enabled {
            self.ram[self.ram_index(addr)]
        } else {
            OPEN_BUS
        }
    }

    /// The cartridge with ROM bank `bank` mapped at 0x4000, or the error if
    /// the bank lies past the end of the image.
    pub open spec fn select_rom(self, bank: u16) -> Result<CartridgeView, EmuError> {
        let offset = bank * ROM_BANK_SIZE;
        if offset + ROM_BANK_SIZE > self.rom.len() {
            Err(EmuError::RomBankOutOfRange { offset: offset as usize })
        } else {
            Ok(CartridgeView { rom_offset: offset, ..self })
        }
    }

    /// The cartridge with the RAM bank that `val` names selected: its low
    /// four bits, one of the sixteen banks.
    pub open spec fn select_ram(self, val: u8) -> CartridgeView {
        CartridgeView { ram_bank: val as int % 16, ..self }
    }

    /// The cartridge after writing `val` at `addr`, or the fatal condition
    /// that the write raises. Without a controller, and with MBC1, whose
    /// banking has no handler here, every write is fatal. With MBC2, MBC3 or
    /// MBC5, 0xA000 to 0xBFFF writes the selected RAM bank (nothing while RAM
    /// is disabled), and below 0x8000 each controller has its own windows.
    pub open spec fn write(self, addr: u16, val: u8) -> Result<CartridgeView, EmuError> {
        let enable = val % 16 == 0x0A;
        match self.controller {
            BankController::NoController => Err(EmuError::NoBankController { addr, val }),
            BankController::Mbc1 => Err(EmuError::NoBankController { addr, val }),
            _ if 0xA000 <= addr < 0xC000 => Ok(
                if self.ram_enabled {
                    CartridgeView { ram: self.ram.update(self.ram_index(addr), val), ..self }
                } else {
                    self
                },
            ),
            BankController::Mbc2 => {
                if addr < 0x2000 {
                    Ok(CartridgeView { ram_enabled: addr & 0x100 == 0, ..self })
                } else if addr < 0x4000 && addr & 0x100 != 0 {
                    self.select_rom((val % 16) as u16)
                } else {
                    Err(EmuError::ReadOnlyWrite { addr, val })
                }
            },
            BankController::Mbc3 => {
                if addr < 0x2000 {
                    Ok(CartridgeView { ram_enabled: enable, ..self })
                } else if addr < 0x4000 {
                    self.select_rom(if val % 128 == 0 { 1 } else { (val % 128) as u16 })
                } else if addr < 0x8000 {
                    Ok(self.select_ram(val))
                } else {
                    Err(EmuError::ReadOnlyWrite { addr, val })
                }
            },
            BankController::Mbc5(bank) => {
                if addr < 0x2000 {
                    Ok(CartridgeView { ram_enabled: enable, ..self })
                } else if addr < 0x3000 {
                    let nb = (bank / 256 * 256 + val) as u16;
                    CartridgeView { controller: BankController::Mbc5(nb), ..self }.select_rom(nb)
                } else if addr < 0x4000 {
                    let nb = (bank % 256 + (val % 2) * 256) as u16;
                    CartridgeView { controller: BankController::Mbc5(nb), ..self }.select_rom(nb)
                } else if addr < 0x6000 {
                    Ok(self.select_ram(val))
                } else {
                    Err(EmuError::ReadOnlyWrite { addr, val })
                }
            },
        }
    }
}

/// A write never maps a ROM bank that runs past the end of the image: if the
/// mapped bank lies inside the image before a successful write, it does after.
pub proof fn lemma_mapped_bank_in_image(c: CartridgeView, addr: u16, val: u8)
    requires
        c.rom_offset + ROM_BANK_SIZE <= c.rom.len(),
    ensures
        c.write(addr, val) is Ok ==> c.write(addr, val)->Ok_0.rom_offset + ROM_BANK_SIZE
            <= c.write(addr, val)->Ok_0.rom.len(),
{
}

/// A cartridge: the ROM image, its external RAM and the bank controller's
/// state.
pub struct Cartridge {
    cartridge_buffer: Vec<u8>,
    swap_rom_offset: usize,
    swap_ram: Vec<u8>,
    ram_bank: usize,
    ram_active: bool,
    memory_bank_type: BankController,
}

impl View for Cartridge {
    type V = CartridgeView;

    closed spec fn view(&self) -> CartridgeView {
        CartridgeView {
            rom: self.cartridge_buffer@,
            rom_offset: self.swap_rom_offset as int,
            ram: self.swap_ram@,
            ram_bank: self.ram_bank as int,
            ram_enabled: self.ram_active,
            controller: self.memory_bank_type,
        }
    }
}

impl Cartridge {
    /// Loads a ROM image; header byte 0x0147 names the bank controller. The
    /// image is not checked: bytes past its end, the header byte included,
    /// read as open bus, and only a bank selection is held to its length.
    pub fn new(cartridge_buffer: Vec<u8>) -> (c: Cartridge)
        ensures
            c@ == CartridgeView::loaded(cartridge_buffer@),
            c@.wf(),
    {
        let kind = if CONTROLLER_HEADER < cartridge_buffer.len() {
            cartridge_buffer[CONTROLLER_HEADER]
        } else {
            OPEN_BUS
        };
        let memory_bank_type = match kind {
            0x01 | 0x02 | 0x03 => BankController::Mbc1,
            0x05 | 0x06 => BankController::Mbc2,
            0x0F | 0x10 | 0x11 | 0x12 | 0x13 => BankController::Mbc3,
            0x19 | 0x1A | 0x1B | 0x1C | 0x1D | 0x1E => BankController::Mbc5(0),
            _ => BankController::NoController,
        };
        let swap_ram: Vec<u8> = vec![0u8; RAM_BANKS * RAM_BANK_SIZE];
        let c = Cartridge {
            cartridge_buffer,
            swap_rom_offset: ROM_BANK_SIZE,
            swap_ram,
            ram_bank: 0,
            ram_active: false,
            memory_bank_type,
        };
        assert(c@.ram =~= CartridgeView::loaded(c@.rom).ram);
        c
    }

    fn rom_at(&self, i: usize) -> (r: u8)
        requires
            self@.wf(),
        ensures
            r == rom_byte(self@.rom, i as int),
    {
        if i < self.cartridge_buffer.len() {
            self.cartridge_buffer[i]
        } else {
            OPEN_BUS
        }
    }

    /// Reads ROM (bank 0 at 0x0000, the selected bank at 0x4000) or the
    /// selected external RAM bank (0xA000), open bus while RAM is disabled.
    pub fn read_byte(&self, addr: u16) -> (r: u8)
        requires
            self@.wf(),
            is_cartridge_addr(addr),
        ensures
            r == self@.read(addr),
    {
        if addr < 0x4000 {
            self.rom_at(addr as usize)
        } else if addr < 0x8000 {
            self.rom_at((addr - 0x4000) as usize + self.swap_rom_offset)
        } else if self.ram_active {
            self.swap_ram[self.ram_bank * RAM_BANK_SIZE + (addr - 0xA000) as usize]
        } else {
            OPEN_BUS
        }
    }

    /// Writes `val` at `addr`: external RAM in 0xA000 to 0xBFFF (ignored
    /// while disabled), bank selection in the controller's windows below
    /// 0x8000. On an error the cartridge is left in an unspecified state.
    pub fn write_byte(&mut self, addr: u16, val: u8) -> (r: Result<(), EmuError>)
        requires
            old(self)@.wf(),
        ensures
            final(self)@.wf(),
            match r {
                Ok(()) => old(self)@.write(addr, val) == Ok::<CartridgeView, EmuError>(final(self)@),
                Err(e) => old(self)@.write(addr, val) == Err::<CartridgeView, EmuError>(e),
            },
    {
        let enable = val % 16 == 0x0A;
        match self.memory_bank_type {
            BankController::NoController | BankController::Mbc1 => {
                return Err(EmuError::NoBankController { addr, val });
            },
            _ => {},
        }
        if 0xA000 <= addr && addr < 0xC000 {
            if self.ram_active {
                let i = self.ram_bank * RAM_BANK_SIZE + (addr - 0xA000) as usize;
                self.swap_ram.set(i, val);
            }
            return Ok(());
        }
        match self.memory_bank_type {
            BankController::Mbc2 => {
                if addr < 0x2000 {
                    self.ram_active = addr & 0x100 == 0;
                    Ok(())
                } else if addr < 0x4000 && addr & 0x100 != 0 {
                    self.select_rom_bank((val % 16) as u16)
                } else {
                    Err(EmuError::ReadOnlyWrite { addr, val })
                }
            },
            BankController::Mbc3 => {
                if addr < 0x2000 {
                    self.ram_active = enable;
                    Ok(())
                } else if addr < 0x4000 {
                    let bank = val % 128;
                    if bank == 0 {
                        self.select_rom_bank(1)
                    } else {
                        self.select_rom_bank(bank as u16)
                    }
                } else if addr < 0x8000 {
                    self.select_ram_bank(val);
                    Ok(())
                } else {
                    Err(EmuError::ReadOnlyWrite { addr, val })
                }
            },
            BankController::Mbc5(addr_cache) => {
                if addr < 0x2000 {
                    self.ram_active = enable;
                    Ok(())
                } else if addr < 0x3000 {
                    let rom_bank = addr_cache / 256 * 256 + val as u16;
                    self.memory_bank_type = BankController::Mbc5(rom_bank);
                    self.select_rom_bank(rom_bank)
                } else if addr < 0x4000 {
                    let rom_bank = addr_cache % 256 + ((val % 2) as u16) * 256;
                    self.memory_bank_type = BankController::Mbc5(rom_bank);
                    self.select_rom_bank(rom_bank)
                } else if addr < 0x6000 {
                    self.select_ram_bank(val);
                    Ok(())
                } else {
                    Err(EmuError::ReadOnlyWrite { addr, val })
                }
            },
            _ => Err(EmuError::NoBankController { addr, val }),
        }
    }

    /// Maps ROM bank `bank_id` at 0x4000, or reports the bank's offset if it
    /// lies past the end of the image (the cartridge is then unchanged).
    fn select_rom_bank(&mut self, bank_id: u16) -> (r: Result<(), EmuError>)
        requires
            old(self)@.wf(),
        ensures
            final(self)@.wf(),
            match r {
                Ok(()) => old(self)@.select_rom(bank_id) == Ok::<CartridgeView, EmuError>(final(self)@),
                Err(e) => old(self)@.select_rom(bank_id) == Err::<CartridgeView, EmuError>(e),
            },
    {
        let offset = (bank_id as usize) * ROM_BANK_SIZE;
        if self.cartridge_buffer.len() < ROM_BANK_SIZE || offset > self.cartridge_buffer.len() - ROM_BANK_SIZE {
            return Err(EmuError::RomBankOutOfRange { offset });
        }
        self.swap_rom_offset = offset;
        Ok(())
    }

    /// Selects the external RAM bank named by the low four bits of `val`.
    fn select_ram_bank(&mut self, val: u8)
        requires
            old(self)@.wf(),
        ensures
            final(self)@ == old(self)@.select_ram(val),
            final(self)@.wf(),
    {
        self.ram_bank = (val % 16) as usize;
    }
}

} // verus!
