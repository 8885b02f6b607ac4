//! The memory bus: decodes a 16-bit address into one of the hardware-defined
//! regions and performs the read or write there. Decoding is total — every
//! address in 0x0000–0xFFFF resolves to exactly one region. Regions without
//! backing logic (external RAM, the unusable range, I/O ports) read as 0xFF
//! and discard writes, matching open-bus behaviour; the echo region mirrors
//! WRAM at `address - 0x2000`. The switchable ROM, VRAM and WRAM ranges honor
//! a per-region current-bank selector meant to be driven by cartridge or
//! CGB-mode logic.

use vstd::prelude::*;

use crate::CpuError;

verus! {

/// Capacity of the ROM region: 512 banks of 16 KiB, 8 MiB in all.
pub const MAX_ROM_SIZE: usize = 0x800000;

/// Capacity of VRAM: two switchable 8 KiB banks.
pub const MAX_VRAM_SIZE: usize = 0x4000;

/// Capacity of WRAM: eight 4 KiB banks.
pub const MAX_WRAM_SIZE: usize = 0x8000;

/// Capacity of the sprite attribute table.
pub const OAM_SIZE: usize = 0xA0;

/// Capacity of high RAM.
pub const HRAM_SIZE: usize = 0x7F;

/// Bytes of one switchable ROM bank, mapped at 0x4000–0x7FFF.
pub const ROM_BANK_SIZE: usize = 0x4000;

/// Bytes of one VRAM bank, mapped at 0x8000–0x9FFF.
pub const VRAM_BANK_SIZE: usize = 0x2000;

/// Bytes of one WRAM bank; bank 0 is mapped at 0xC000–0xCFFF, the selected
/// bank at 0xD000–0xDFFF.
pub const WRAM_BANK_SIZE: usize = 0x1000;

/// Number of ROM banks.
pub const NUM_ROM_BANKS: usize = 0x200;

/// Number of VRAM banks.
pub const NUM_VRAM_BANKS: usize = 2;

/// Number of WRAM banks.
pub const NUM_WRAM_BANKS: usize = 8;

/// The regions of the 16-bit address space, in address order.
#[derive(Clone, Copy, Debug, PartialEq, Eq, Structural)]
pub enum Region {
    /// 0x0000–0x3FFF: fixed ROM bank 0.
    RomBank0,
    /// 0x4000–0x7FFF: the currently selected ROM bank.
    RomBankN,
    /// 0x8000–0x9FFF: the currently selected VRAM bank.
    Vram,
    /// 0xA000–0xBFFF: cartridge RAM; absent here, so open bus.
    ExternalRam,
    /// 0xC000–0xCFFF: fixed WRAM bank 0.
    WramBank0,
    /// 0xD000–0xDFFF: the currently selected WRAM bank.
    WramBankN,
    /// 0xE000–0xFDFF: mirror of 0xC000–0xDDFF.
    Echo,
    /// 0xFE00–0xFE9F: sprite attribute table.
    Oam,
    /// 0xFEA0–0xFEFF: reserved, open bus.
    Unusable,
    /// 0xFF00–0xFF7F: peripheral registers; no peripheral is wired in, so
    /// open bus.
    IoPorts,
    /// 0xFF80–0xFFFE: high RAM.
    Hram,
    /// 0xFFFF: the interrupt-enable register.
    InterruptEnable,
}

/// The region that `addr` decodes to; total over the whole address space.
pub open spec fn spec_region_of(addr: u16) -> Region {
    if addr < 0x4000 {
        Region::RomBank0
    } else if addr < 0x8000 {
        Region::RomBankN
    } else if addr < 0xA000 {
        Region::Vram
    } else if addr < 0xC000 {
        Region::ExternalRam
    } else if addr < 0xD000 {
        Region::WramBank0
    } else if addr < 0xE000 {
        Region::WramBankN
    } else if addr < 0xFE00 {
        Region::Echo
    } else if addr < 0xFEA0 {
        Region::Oam
    } else if addr < 0xFF00 {
        Region::Unusable
    } else if addr < 0xFF80 {
        Region::IoPorts
    } else if addr < 0xFFFF {
        Region::Hram
    } else {
        Region::InterruptEnable
    }
}

/// Decodes `addr` into its region.
pub fn region_of(addr: u16) -> (r: Region)
    ensures
        r == spec_region_of(addr),
{
    if addr < 0x4000 {
        Region::RomBank0
    } else if addr < 0x8000 {
        Region::RomBankN
    } else if addr < 0xA000 {
        Region::Vram
    } else if addr < 0xC000 {
        Region::ExternalRam
    } else if addr < 0xD000 {
        Region::WramBank0
    } else if addr < 0xE000 {
        Region::WramBankN
    } else if addr < 0xFE00 {
        Region::Echo
    } else if addr < 0xFEA0 {
        Region::Oam
    } else if addr < 0xFF00 {
        Region::Unusable
    } else if addr < 0xFF80 {
        Region::IoPorts
    } else if addr < 0xFFFF {
        Region::Hram
    } else {
        Region::InterruptEnable
    }
}

/// The mathematical model of the bus: each backing store as a sequence of
/// bytes, plus the interrupt-enable byte and the three bank selectors.
#[verifier::ext_equal]
pub ghost struct BusView {
    pub rom: Seq<u8>,
    pub vram: Seq<u8>,
    pub wram: Seq<u8>,
    pub oam: Seq<u8>,
    pub hram: Seq<u8>,
    pub interrupt_enable: u8,
    pub rom_bank: int,
    pub vram_bank: int,
    pub wram_bank: int,
}

impl BusView {
    /// Well-formedness: every store has its hardware capacity and every bank
    /// selector is in range (WRAM banks 1–7, as bank 0 is fixed-mapped).
    pub open spec fn wf(self) -> bool {
        &&& self.rom.len() == MAX_ROM_SIZE
        &&& self.vram.len() == MAX_VRAM_SIZE
        &&& self.wram.len() == MAX_WRAM_SIZE
        &&& self.oam.len() == OAM_SIZE
        &&& self.hram.len() == HRAM_SIZE
        &&& 0 <= self.rom_bank < NUM_ROM_BANKS
        &&& 0 <= self.vram_bank < NUM_VRAM_BANKS
        &&& 1 <= self.wram_bank < NUM_WRAM_BANKS
    }

    /// The view of a freshly constructed bus: every store zeroed, and the
    /// hardware's initial bank selection — ROM bank 1, VRAM bank 0, WRAM
    /// bank 1.
    pub open spec fn spec_init() -> BusView {
        BusView {
            rom: Seq::new(MAX_ROM_SIZE as nat, |i: int| 0u8),
            vram: Seq::new(MAX_VRAM_SIZE as nat, |i: int| 0u8),
            wram: Seq::new(MAX_WRAM_SIZE as nat, |i: int| 0u8),
            oam: Seq::new(OAM_SIZE as nat, |i: int| 0u8),
            hram: Seq::new(HRAM_SIZE as nat, |i: int| 0u8),
            interrupt_enable: 0,
            rom_bank: 1,
            vram_bank: 0,
            wram_bank: 1,
        }
    }

    /// The byte a read of `addr` observes: the backing store's byte for a
    /// backed region, 0xFF (open bus) for an unbacked one, and for the echo
    /// region whatever `addr - 0x2000` observes.
    pub open spec fn spec_read(self, addr: u16) -> u8
        decreases addr,
    {
        match spec_region_of(addr) {
            Region::RomBank0 => self.rom[addr as int],
            Region::RomBankN => self.rom[self.rom_bank * ROM_BANK_SIZE + (addr - 0x4000)],
            Region::Vram => self.vram[self.vram_bank * VRAM_BANK_SIZE + (addr - 0x8000)],
            Region::ExternalRam => 0xFF,
            Region::WramBank0 => self.wram[addr - 0xC000],
            Region::WramBankN => self.wram[self.wram_bank * WRAM_BANK_SIZE + (addr - 0xD000)],
            Region::Echo => self.spec_read((addr - 0x2000) as u16),
            Region::Oam => self.oam[addr - 0xFE00],
            Region::Unusable => 0xFF,
            Region::IoPorts => 0xFF,
            Region::Hram => self.hram[addr - 0xFF80],
            Region::InterruptEnable => self.interrupt_enable,
        }
    }

    /// The bus after a write of `v` to `addr`: the backing store updated for
    /// a writable region, unchanged for ROM and the unbacked regions, and
    /// for the echo region the effect of writing at `addr - 0x2000`.
    pub open spec fn spec_write(self, addr: u16, v: u8) -> BusView
        decreases addr,
    {
        match spec_region_of(addr) {
            Region::RomBank0 => self,
            Region::RomBankN => self,
            Region::Vram => BusView {
                vram: self.vram.update(self.vram_bank * VRAM_BANK_SIZE + (addr - 0x8000), v),
                ..self
            },
            Region::ExternalRam => self,
            Region::WramBank0 => BusView { wram: self.wram.update(addr - 0xC000, v), ..self },
            Region::WramBankN => BusView {
                wram: self.wram.update(self.wram_bank * WRAM_BANK_SIZE + (addr - 0xD000), v),
                ..self
            },
            Region::Echo => self.spec_write((addr - 0x2000) as u16, v),
            Region::Oam => BusView { oam: self.oam.update(addr - 0xFE00, v), ..self },
            Region::Unusable => self,
            Region::IoPorts => self,
            Region::Hram => BusView { hram: self.hram.update(addr - 0xFF80, v), ..self },
            Region::InterruptEnable => BusView { interrupt_enable: v, ..self },
        }
    }
}

/// The memory bus: backing stores for each backed region and the current
/// bank selector of each switchable range.
pub struct MemoryBus {
    rom: Vec<u8>,
    vram: Vec<u8>,
    wram: Vec<u8>,
    oam: Vec<u8>,
    hram: Vec<u8>,
    interrupt_enable: u8,
    rom_bank: usize,
    vram_bank: usize,
    wram_bank: usize,
}

impl View for MemoryBus {
    type V = BusView;

    closed spec fn view(&self) -> BusView {
        BusView {
            rom: self.rom@,
            vram: self.vram@,
            wram: self.wram@,
            oam: self.oam@,
            hram: self.hram@,
            interrupt_enable: self.interrupt_enable,
            rom_bank: self.rom_bank as int,
            vram_bank: self.vram_bank as int,
            wram_bank: self.wram_bank as int,
        }
    }
}

/// A vector of `n` zero bytes.
fn zeroed(n: usize) -> (v: Vec<u8>)
    ensures
        v@ == Seq::new(n as nat, |i: int| 0u8),
{
    let mut v: Vec<u8> = Vec::new();
    let mut k: usize = 0;
    while k < n
        invariant
            k <= n,
            v@.len() == k,
            forall|i: int| 0 <= i < k ==> v@[i] == 0u8,
        decreases n - k,
    {
        v.push(0);
        k = k + 1;
    }
    proof {
        assert(v@ =~= Seq::new(n as nat, |i: int| 0u8));
    }
    v
}

impl MemoryBus {
    /// Well-formedness of the backing stores and bank selectors.
    pub open spec fn wf(self) -> bool {
        self@.wf()
    }

    /// A bus with every region zeroed and the hardware's initial bank
    /// selection: ROM bank 1, VRAM bank 0, WRAM bank 1.
    pub fn new() -> (r: MemoryBus)
        ensures
            r.wf(),
            r@ == BusView::spec_init(),
    {
        let r = MemoryBus {
            rom: zeroed(MAX_ROM_SIZE),
            vram: zeroed(MAX_VRAM_SIZE),
            wram: zeroed(MAX_WRAM_SIZE),
            oam: zeroed(OAM_SIZE),
            hram: zeroed(HRAM_SIZE),
            interrupt_enable: 0,
            rom_bank: 1,
            vram_bank: 0,
            wram_bank: 1,
        };
        proof {
            assert(r@ =~= BusView::spec_init());
        }
        r
    }

    /// Copies `data` over the start of the ROM region; ROM bytes past the
    /// image keep their previous values. An image longer than the ROM
    /// capacity is rejected as `RomTooLarge` before anything changes.
    pub fn load_rom(&mut self, data: &[u8]) -> (r: Result<(), CpuError>)
        requires
            old(self).wf(),
        ensures
            final(self).wf(),
            data@.len() <= MAX_ROM_SIZE ==> r == Ok::<(), CpuError>(()) && final(self)@ == (BusView {
                rom: data@ + old(self)@.rom.skip(data@.len() as int),
                ..old(self)@
            }),
            data@.len() > MAX_ROM_SIZE ==> r == Err::<(), CpuError>(CpuError::RomTooLarge)
                && *final(self) == *old(self),
    {
        if data.len() > MAX_ROM_SIZE {
            return Err(CpuError::RomTooLarge);
        }
        let mut k: usize = 0;
        while k < data.len()
            invariant
                k <= data@.len() <= MAX_ROM_SIZE,
                self.rom@.len() == MAX_ROM_SIZE,
                forall|i: int| 0 <= i < k ==> self.rom@[i] == data@[i],
                forall|i: int| k <= i < MAX_ROM_SIZE ==> self.rom@[i] == old(self).rom@[i],
                self.vram == old(self).vram,
                self.wram == old(self).wram,
                self.oam == old(self).oam,
                self.hram == old(self).hram,
                self.interrupt_enable == old(self).interrupt_enable,
                self.rom_bank == old(self).rom_bank,
                self.vram_bank == old(self).vram_bank,
                self.wram_bank == old(self).wram_bank,
            decreases data@.len() - k,
        {
            self.rom.set(k, data[k]);
            k = k + 1;
        }
        proof {
            assert(self.rom@ =~= data@ + old(self)@.rom.skip(data@.len() as int));
            assert(self@ =~= (BusView {
                rom: data@ + old(self)@.rom.skip(data@.len() as int),
                ..old(self)@
            }));
        }
        Ok(())
    }

    /// Reads the byte at `addr`. Decoding is total: every address yields a
    /// value, unbacked regions reading as 0xFF.
    pub fn read(&self, addr: u16) -> (r: u8)
        requires
            self.wf(),
        ensures
            r == self@.spec_read(addr),
        decreases addr,
    {
        match region_of(addr) {
            Region::RomBank0 => self.rom[addr as usize],
            Region::RomBankN => self.rom[self.rom_bank * ROM_BANK_SIZE + (addr as usize - 0x4000)],
            Region::Vram => self.vram[self.vram_bank * VRAM_BANK_SIZE + (addr as usize - 0x8000)],
            Region::ExternalRam => 0xFF,
            Region::WramBank0 => self.wram[addr as usize - 0xC000],
            Region::WramBankN => self.wram[self.wram_bank * WRAM_BANK_SIZE + (addr as usize
                - 0xD000)],
            Region::Echo => self.read(addr - 0x2000),
            Region::Oam => self.oam[addr as usize - 0xFE00],
            Region::Unusable => 0xFF,
            Region::IoPorts => 0xFF,
            Region::Hram => self.hram[addr as usize - 0xFF80],
            Region::InterruptEnable => self.interrupt_enable,
        }
    }

    /// Writes `v` at `addr`. Writes to ROM and to unbacked regions are
    /// discarded; echo writes land in WRAM at `addr - 0x2000`.
    pub fn write(&mut self, addr: u16, v: u8)
        requires
            old(self).wf(),
        ensures
            final(self).wf(),
            final(self)@ == old(self)@.spec_write(addr, v),
        decreases addr,
    {
        match region_of(addr) {
            Region::RomBank0 => {
            },
            Region::RomBankN => {
            },
            Region::Vram => {
                self.vram.set(self.vram_bank * VRAM_BANK_SIZE + (addr as usize - 0x8000), v);
            },
            Region::ExternalRam => {
            },
            Region::WramBank0 => {
                self.wram.set(addr as usize - 0xC000, v);
            },
            Region::WramBankN => {
                self.wram.set(self.wram_bank * WRAM_BANK_SIZE + (addr as usize - 0xD000), v);
            },
            Region::Echo => {
                self.write(addr - 0x2000, v);
            },
            Region::Oam => {
                self.oam.set(addr as usize - 0xFE00, v);
            },
            Region::Unusable => {
            },
            Region::IoPorts => {
            },
            Region::Hram => {
                self.hram.set(addr as usize - 0xFF80, v);
            },
            Region::InterruptEnable => {
                self.interrupt_enable = v;
            },
        }
    }

    /// Selects the ROM bank mapped at 0x4000–0x7FFF. An index outside the
    /// ROM's 512 banks changes nothing and returns false.
    pub fn set_rom_bank(&mut self, bank: usize) -> (ok: bool)
        requires
            old(self).wf(),
        ensures
            final(self).wf(),
            ok == (bank < NUM_ROM_BANKS),
            ok ==> final(self)@ == (BusView { rom_bank: bank as int, ..old(self)@ }),
            !ok ==> final(self)@ == old(self)@,
    {
        if bank < NUM_ROM_BANKS {
            self.rom_bank = bank;
            true
        } else {
            false
        }
    }

    /// Selects the VRAM bank mapped at 0x8000–0x9FFF. An index other than 0
    /// or 1 changes nothing and returns false.
    pub fn set_vram_bank(&mut self, bank: usize) -> (ok: bool)
        requires
            old(self).wf(),
        ensures
            final(self).wf(),
            ok == (bank < NUM_VRAM_BANKS),
            ok ==> final(self)@ == (BusView { vram_bank: bank as int, ..old(self)@ }),
            !ok ==> final(self)@ == old(self)@,
    {
        if bank < NUM_VRAM_BANKS {
            self.vram_bank = bank;
            true
        } else {
            false
        }
    }

    /// Selects the WRAM bank mapped at 0xD000–0xDFFF. Only banks 1–7 can be
    /// selected (bank 0 is fixed at 0xC000–0xCFFF); any other index changes
    /// nothing and returns false.
    pub fn set_wram_bank(&mut self, bank: usize) -> (ok: bool)
        requires
            old(self).wf(),
        ensures
            final(self).wf(),
            ok == (1 <= bank < NUM_WRAM_BANKS),
            ok ==> final(self)@ == (BusView { wram_bank: bank as int, ..old(self)@ }),
            !ok ==> final(self)@ == old(self)@,
    {
        if 1 <= bank && bank < NUM_WRAM_BANKS {
            self.wram_bank = bank;
            true
        } else {
            false
        }
    }
}

/// Law: address decoding is total and respects the memory map — every
/// address falls in exactly the region whose documented range contains it,
/// so no address is left undecoded.
pub proof fn lemma_region_total(addr: u16)
    ensures
        (spec_region_of(addr) == Region::RomBank0 <==> addr < 0x4000),
        (spec_region_of(addr) == Region::RomBankN <==> 0x4000 <= addr < 0x8000),
        (spec_region_of(addr) == Region::Vram <==> 0x8000 <= addr < 0xA000),
        (spec_region_of(addr) == Region::ExternalRam <==> 0xA000 <= addr < 0xC000),
        (spec_region_of(addr) == Region::WramBank0 <==> 0xC000 <= addr < 0xD000),
        (spec_region_of(addr) == Region::WramBankN <==> 0xD000 <= addr < 0xE000),
        (spec_region_of(addr) == Region::Echo <==> 0xE000 <= addr < 0xFE00),
        (spec_region_of(addr) == Region::Oam <==> 0xFE00 <= addr < 0xFEA0),
        (spec_region_of(addr) == Region::Unusable <==> 0xFEA0 <= addr < 0xFF00),
        (spec_region_of(addr) == Region::IoPorts <==> 0xFF00 <= addr < 0xFF80),
        (spec_region_of(addr) == Region::Hram <==> 0xFF80 <= addr < 0xFFFF),
        (spec_region_of(addr) == Region::InterruptEnable <==> addr == 0xFFFF),
{
}

/// Law: the echo region aliases WRAM. For every address `a` in
/// 0xE000–0xFDFF, a write at `a` is read back at `a - 0x2000`, and a write
/// at `a - 0x2000` is read back at `a`.
pub proof fn lemma_echo_alias(bus: BusView, a: u16, v: u8)
    requires
        bus.wf(),
        0xE000 <= a <= 0xFDFF,
    ensures
        bus.spec_write(a, v).spec_read((a - 0x2000) as u16) == v,
        bus.spec_write((a - 0x2000) as u16, v).spec_read(a) == v,
{
    let b = (a - 0x2000) as u16;
    let w = bus.spec_write(b, v);
    assert(spec_region_of(a) == Region::Echo);
    assert(bus.spec_write(a, v) == w);
    if b < 0xD000 {
        let i = b - 0xC000;
        assert(w.wram == bus.wram.update(i, v));
        assert(w.spec_read(b) == w.wram[i]);
        assert(w.wram[i] == v);
    } else {
        let i = bus.wram_bank * (WRAM_BANK_SIZE as int) + (b - 0xD000);
        assert(0 <= i < MAX_WRAM_SIZE);
        assert(w.wram == bus.wram.update(i, v));
        assert(w.spec_read(b) == w.wram[i]);
        assert(w.wram[i] == v);
    }
    assert(w.spec_read(a) == w.spec_read(b));
}

} // verus!
