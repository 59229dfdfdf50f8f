//! The memory bus: routes a 16-bit address to boot ROM, the two
//! cartridge ROM banks, video RAM, external RAM, working RAM (with its
//! echo region), object-attribute memory, the I/O registers, fast RAM,
//! or the interrupt-enable byte.
//!
//! The divider, interval counter, reload and control registers of the
//! timer are routed explicitly to the timer component, and the
//! boot-disable register permanently unmaps the boot ROM on its first
//! write.

use vstd::prelude::*;
use crate::gpu::GPU;
use crate::interrupt_flag::InterruptFlag;
use crate::interrupt_flag::spec_if_from_byte;
use crate::interrupt_flag::spec_if_new;
use crate::interrupt_flag::spec_if_to_byte;
use crate::timer::Timer;
use crate::timer::spec_timer_new;
use crate::timer::spec_write_tima;
use crate::timer::spec_write_tma;

verus! {

pub const BOOT_ROM_BEGIN: usize = 0x00;

pub const BOOT_ROM_END: usize = 0xFF;

pub const BOOT_ROM_SIZE: usize = 0x100;

pub const ROM_BANK_0_BEGIN: usize = 0x0000;

pub const ROM_BANK_0_END: usize = 0x3FFF;

pub const ROM_BANK_0_SIZE: usize = 0x4000;

pub const ROM_BANK_N_BEGIN: usize = 0x4000;

pub const ROM_BANK_N_END: usize = 0x7FFF;

pub const ROM_BANK_N_SIZE: usize = 0x4000;

pub const VRAM_BEGIN: usize = 0x8000;

pub const VRAM_END: usize = 0x9FFF;

pub const VRAM_SIZE: usize = 0x2000;

pub const EXTERNAL_RAM_BEGIN: usize = 0xA000;

pub const EXTERNAL_RAM_END: usize = 0xBFFF;

pub const EXTERNAL_RAM_SIZE: usize = 0x2000;

pub const WORKING_RAM_BEGIN: usize = 0xC000;

pub const WORKING_RAM_END: usize = 0xDFFF;

pub const WORKING_RAM_SIZE: usize = 0x2000;

pub const ECHO_RAM_BEGIN: usize = 0xE000;

pub const ECHO_RAM_END: usize = 0xFDFF;

pub const OAM_BEGIN: usize = 0xFE00;

pub const OAM_END: usize = 0xFE9F;

pub const OAM_SIZE: usize = 0xA0;

pub const UNUSED_BEGIN: usize = 0xFEA0;

pub const UNUSED_END: usize = 0xFEFF;

pub const IO_REGISTERS_BEGIN: usize = 0xFF00;

pub const IO_REGISTERS_END: usize = 0xFF7F;

pub const IO_REGISTERS_SIZE: usize = 0x80;

pub const ZERO_PAGE_BEGIN: usize = 0xFF80;

pub const ZERO_PAGE_END: usize = 0xFFFE;

pub const ZERO_PAGE_SIZE: usize = 0x7F;

pub const INTERRUPT_ENABLE_REGISTER: usize = 0xFFFF;

/// The abstract state of the bus: each region as a byte sequence,
/// plus the boot mapping bit and the two peripheral components.
#[verifier::ext_equal]
pub struct BusState {
    pub is_boot_rom_mapped: bool,
    pub boot_rom: Seq<u8>,
    pub rom_bank_0: Seq<u8>,
    pub rom_bank_n: Seq<u8>,
    pub vram: Seq<u8>,
    pub external_ram: Seq<u8>,
    pub working_ram: Seq<u8>,
    pub oam: Seq<u8>,
    pub io: Seq<u8>,
    pub zero_page: Seq<u8>,
    pub interrupt_flag: InterruptFlag,
    pub interrupt_enable: InterruptFlag,
    pub timer: Timer,
}

/// Every region has its fixed size.
pub open spec fn bus_inv(s: BusState) -> bool {
    &&& s.boot_rom.len() == BOOT_ROM_SIZE
    &&& s.rom_bank_0.len() == ROM_BANK_0_SIZE
    &&& s.rom_bank_n.len() == ROM_BANK_N_SIZE
    &&& s.vram.len() == VRAM_SIZE
    &&& s.external_ram.len() == EXTERNAL_RAM_SIZE
    &&& s.working_ram.len() == WORKING_RAM_SIZE
    &&& s.oam.len() == OAM_SIZE
    &&& s.io.len() == IO_REGISTERS_SIZE
    &&& s.zero_page.len() == ZERO_PAGE_SIZE
}

/// The byte an I/O register address reads: the four timer registers
/// and the pending-interrupt byte are routed to their components;
/// every other I/O address reads the flat register array.
pub open spec fn spec_read_io(s: BusState, address: int) -> u8 {
    if address == 0xFF04 {
        (s.timer.div >> 8) as u8
    } else if address == 0xFF05 {
        s.timer.tima
    } else if address == 0xFF06 {
        s.timer.tma
    } else if address == 0xFF07 {
        s.timer.tac
    } else if address == 0xFF0F {
        spec_if_to_byte(s.interrupt_flag)
    } else {
        s.io[address - IO_REGISTERS_BEGIN]
    }
}

/// The byte a bus read returns for each address, by region. The low
/// 256 bytes read the boot ROM while it is mapped and cartridge ROM
/// bank 0 afterwards; the echo region mirrors working RAM; the unused
/// region reads zero.
#[verifier::opaque]
pub open spec fn spec_read(s: BusState, address: u16) -> u8 {
    let a = address as int;
    if a <= BOOT_ROM_END {
        if s.is_boot_rom_mapped {
            s.boot_rom[a]
        } else {
            s.rom_bank_0[a]
        }
    } else if a <= ROM_BANK_0_END {
        s.rom_bank_0[a]
    } else if a <= ROM_BANK_N_END {
        s.rom_bank_n[a - ROM_BANK_N_BEGIN]
    } else if a <= VRAM_END {
        s.vram[a - VRAM_BEGIN]
    } else if a <= EXTERNAL_RAM_END {
        s.external_ram[a - EXTERNAL_RAM_BEGIN]
    } else if a <= WORKING_RAM_END {
        s.working_ram[a - WORKING_RAM_BEGIN]
    } else if a <= ECHO_RAM_END {
        s.working_ram[a - ECHO_RAM_BEGIN]
    } else if a <= OAM_END {
        s.oam[a - OAM_BEGIN]
    } else if a <= UNUSED_END {
        0
    } else if a <= IO_REGISTERS_END {
        spec_read_io(s, a)
    } else if a <= ZERO_PAGE_END {
        s.zero_page[a - ZERO_PAGE_BEGIN]
    } else {
        spec_if_to_byte(s.interrupt_enable)
    }
}

/// The effect of a write to an I/O register address. The joypad and
/// serial stubs discard the byte; the timer registers are routed to
/// the timer; the boot-disable register unmaps the boot ROM for good;
/// the rest land in the flat register array.
pub open spec fn spec_write_io(s: BusState, address: int, byte: u8) -> BusState {
    if address == 0xFF00 || address == 0xFF01 || address == 0xFF02 || address == 0xFF7F {
        s
    } else if address == 0xFF04 {
        BusState { timer: Timer { div: 0, ..s.timer }, ..s }
    } else if address == 0xFF05 {
        BusState { timer: spec_write_tima(s.timer, byte), ..s }
    } else if address == 0xFF06 {
        BusState { timer: spec_write_tma(s.timer, byte), ..s }
    } else if address == 0xFF07 {
        BusState { timer: Timer { tac: byte, ..s.timer }, ..s }
    } else if address == 0xFF0F {
        BusState { interrupt_flag: spec_if_from_byte(byte), ..s }
    } else if address == 0xFF50 {
        BusState { is_boot_rom_mapped: false, ..s }
    } else {
        BusState { io: s.io.update(address - IO_REGISTERS_BEGIN, byte), ..s }
    }
}

/// The effect of a bus write for each address, by region. ROM bank
/// bytes are plainly stored (the emulated cartridge has no banking
/// logic); the echo region writes through to working RAM; writes to
/// the unused region are discarded.
#[verifier::opaque]
pub open spec fn spec_write(s: BusState, address: u16, byte: u8) -> BusState {
    let a = address as int;
    if a <= ROM_BANK_0_END {
        BusState { rom_bank_0: s.rom_bank_0.update(a, byte), ..s }
    } else if a <= ROM_BANK_N_END {
        BusState { rom_bank_n: s.rom_bank_n.update(a - ROM_BANK_N_BEGIN, byte), ..s }
    } else if a <= VRAM_END {
        BusState { vram: s.vram.update(a - VRAM_BEGIN, byte), ..s }
    } else if a <= EXTERNAL_RAM_END {
        BusState { external_ram: s.external_ram.update(a - EXTERNAL_RAM_BEGIN, byte), ..s }
    } else if a <= WORKING_RAM_END {
        BusState { working_ram: s.working_ram.update(a - WORKING_RAM_BEGIN, byte), ..s }
    } else if a <= ECHO_RAM_END {
        BusState { working_ram: s.working_ram.update(a - ECHO_RAM_BEGIN, byte), ..s }
    } else if a <= OAM_END {
        BusState { oam: s.oam.update(a - OAM_BEGIN, byte), ..s }
    } else if a <= UNUSED_END {
        s
    } else if a <= IO_REGISTERS_END {
        spec_write_io(s, a, byte)
    } else if a <= ZERO_PAGE_END {
        BusState { zero_page: s.zero_page.update(a - ZERO_PAGE_BEGIN, byte), ..s }
    } else {
        BusState { interrupt_enable: spec_if_from_byte(byte), ..s }
    }
}

/// Whether any interrupt source is both enabled and pending,
/// irrespective of the master enable flag.
pub open spec fn spec_interrupted(s: BusState) -> bool {
    ||| s.interrupt_enable.vblank && s.interrupt_flag.vblank
    ||| s.interrupt_enable.stat && s.interrupt_flag.stat
    ||| s.interrupt_enable.timer && s.interrupt_flag.timer
    ||| s.interrupt_enable.serial && s.interrupt_flag.serial
    ||| s.interrupt_enable.joypad && s.interrupt_flag.joypad
}

/// The memory bus, owning every addressable region, the interrupt
/// flag pair, and the timer.
pub struct MemoryBus {
    pub is_boot_rom_mapped: bool,
    pub boot_rom: Vec<u8>,
    pub rom_bank_0: Vec<u8>,
    pub rom_bank_n: Vec<u8>,
    pub external_ram: Vec<u8>,
    pub working_ram: Vec<u8>,
    pub zero_page: Vec<u8>,
    pub io_temp: Vec<u8>,
    pub oam_temp: Vec<u8>,
    pub interrupt_flag: InterruptFlag,
    pub interrupt_enable: InterruptFlag,
    pub gpu: GPU,
    pub timer: Timer,
}

impl View for MemoryBus {
    type V = BusState;

    open spec fn view(&self) -> BusState {
        BusState {
            is_boot_rom_mapped: self.is_boot_rom_mapped,
            boot_rom: self.boot_rom@,
            rom_bank_0: self.rom_bank_0@,
            rom_bank_n: self.rom_bank_n@,
            vram: self.gpu.vram@,
            external_ram: self.external_ram@,
            working_ram: self.working_ram@,
            oam: self.oam_temp@,
            io: self.io_temp@,
            zero_page: self.zero_page@,
            interrupt_flag: self.interrupt_flag,
            interrupt_enable: self.interrupt_enable,
            timer: self.timer,
        }
    }
}

/// A vector of `n` zero bytes.
fn zero_bytes(n: usize) -> (r: Vec<u8>)
    ensures
        r@.len() == n,
        forall|i: int| 0 <= i < n ==> (#[trigger] r@[i]) == 0,
{
    let mut v: Vec<u8> = Vec::new();
    let mut i: usize = 0;
    while i < n
        invariant
            i <= n,
            v@.len() == i,
            forall|k: int| 0 <= k < i ==> (#[trigger] v@[k]) == 0,
        decreases n - i,
    {
        v.push(0);
        i += 1;
    }
    v
}

impl MemoryBus {
    /// Structural well-formedness: every region vector has its fixed
    /// size.
    pub closed spec fn wf(&self) -> bool {
        &&& bus_inv(self@)
        &&& self.gpu.wf()
    }

    /// Build the bus from a boot image of exactly the boot-region size
    /// and a cartridge image of arbitrary length. The cartridge image
    /// is split at the bank boundary: bytes beyond its end read as
    /// zero.
    pub fn new(boot_rom_buffer: Vec<u8>, game_rom: Vec<u8>) -> (r: MemoryBus)
        requires
            boot_rom_buffer@.len() == BOOT_ROM_SIZE,
        ensures
            r.wf(),
            r@.is_boot_rom_mapped,
            r@.boot_rom == boot_rom_buffer@,
            forall|i: int|
                0 <= i < ROM_BANK_0_SIZE ==> (#[trigger] r@.rom_bank_0[i]) == (if i
                    < game_rom@.len() {
                    game_rom@[i]
                } else {
                    0
                }),
            forall|i: int|
                0 <= i < ROM_BANK_N_SIZE ==> (#[trigger] r@.rom_bank_n[i]) == (if ROM_BANK_0_SIZE
                    + i < game_rom@.len() {
                    game_rom@[ROM_BANK_0_SIZE + i]
                } else {
                    0
                }),
            forall|i: int|
                0 <= i < IO_REGISTERS_SIZE ==> (#[trigger] r@.io[i]) == (if i == 0x44 {
                    0x90u8
                } else {
                    0u8
                }),
            r@.interrupt_flag == spec_if_new(),
            r@.interrupt_enable == spec_if_new(),
            r@.timer == spec_timer_new(),
            forall|i: int| 0 <= i < VRAM_SIZE ==> (#[trigger] r@.vram[i]) == 0,
            forall|i: int| 0 <= i < EXTERNAL_RAM_SIZE ==> (#[trigger] r@.external_ram[i]) == 0,
            forall|i: int| 0 <= i < WORKING_RAM_SIZE ==> (#[trigger] r@.working_ram[i]) == 0,
            forall|i: int| 0 <= i < OAM_SIZE ==> (#[trigger] r@.oam[i]) == 0,
            forall|i: int| 0 <= i < ZERO_PAGE_SIZE ==> (#[trigger] r@.zero_page[i]) == 0,
    {
        let mut rom_bank_0 = zero_bytes(ROM_BANK_0_SIZE);
        let mut i: usize = 0;
        while i < ROM_BANK_0_SIZE
            invariant
                i <= ROM_BANK_0_SIZE,
                rom_bank_0@.len() == ROM_BANK_0_SIZE,
                forall|k: int|
                    0 <= k < i ==> (#[trigger] rom_bank_0@[k]) == (if k < game_rom@.len() {
                        game_rom@[k]
                    } else {
                        0
                    }),
                forall|k: int| i <= k < ROM_BANK_0_SIZE ==> (#[trigger] rom_bank_0@[k]) == 0,
            decreases ROM_BANK_0_SIZE - i,
        {
            if i < game_rom.len() {
                let b = game_rom[i];
                rom_bank_0[i] = b;
            }
            i += 1;
        }

        let mut rom_bank_n = zero_bytes(ROM_BANK_N_SIZE);
        let mut j: usize = 0;
        while j < ROM_BANK_N_SIZE
            invariant
                j <= ROM_BANK_N_SIZE,
                rom_bank_n@.len() == ROM_BANK_N_SIZE,
                forall|k: int|
                    0 <= k < j ==> (#[trigger] rom_bank_n@[k]) == (if ROM_BANK_0_SIZE + k
                        < game_rom@.len() {
                        game_rom@[ROM_BANK_0_SIZE + k]
                    } else {
                        0
                    }),
                forall|k: int| j <= k < ROM_BANK_N_SIZE ==> (#[trigger] rom_bank_n@[k]) == 0,
            decreases ROM_BANK_N_SIZE - j,
        {
            if ROM_BANK_0_SIZE + j < game_rom.len() {
                let b = game_rom[ROM_BANK_0_SIZE + j];
                rom_bank_n[j] = b;
            }
            j += 1;
        }

        let mut io_temp = zero_bytes(IO_REGISTERS_SIZE);
        io_temp[0x44] = 0x90;

        MemoryBus {
            is_boot_rom_mapped: true,
            boot_rom: boot_rom_buffer,
            rom_bank_0,
            rom_bank_n,
            external_ram: zero_bytes(EXTERNAL_RAM_SIZE),
            working_ram: zero_bytes(WORKING_RAM_SIZE),
            zero_page: zero_bytes(ZERO_PAGE_SIZE),
            io_temp,
            oam_temp: zero_bytes(OAM_SIZE),
            interrupt_flag: InterruptFlag::new(),
            interrupt_enable: InterruptFlag::new(),
            gpu: GPU::new(),
            timer: Timer::new(),
        }
    }

    /// Advance peripherals by the given cycle count. The peripherals
    /// this bus carries advance per hardware tick elsewhere, so this is
    /// a no-op.
    pub fn step(&mut self, cycles: u8)
        ensures
            *final(self) == *old(self),
    {
        let _ = cycles;
    }

    /// Whether any interrupt source is both enabled and pending,
    /// irrespective of the master enable flag.
    pub fn interrupted(&self) -> (r: bool)
        ensures
            r == spec_interrupted(self@),
    {
        (self.interrupt_enable.vblank && self.interrupt_flag.vblank)
            || (self.interrupt_enable.stat && self.interrupt_flag.stat)
            || (self.interrupt_enable.timer && self.interrupt_flag.timer)
            || (self.interrupt_enable.serial && self.interrupt_flag.serial)
            || (self.interrupt_enable.joypad && self.interrupt_flag.joypad)
    }

    /// Mark the timer interrupt pending.
    pub fn request_timer_interrupt(&mut self)
        ensures
            final(self).interrupt_flag == (InterruptFlag {
                timer: true,
                ..old(self).interrupt_flag
            }),
            final(self).is_boot_rom_mapped == old(self).is_boot_rom_mapped,
            final(self).boot_rom == old(self).boot_rom,
            final(self).rom_bank_0 == old(self).rom_bank_0,
            final(self).rom_bank_n == old(self).rom_bank_n,
            final(self).external_ram == old(self).external_ram,
            final(self).working_ram == old(self).working_ram,
            final(self).zero_page == old(self).zero_page,
            final(self).io_temp == old(self).io_temp,
            final(self).oam_temp == old(self).oam_temp,
            final(self).interrupt_enable == old(self).interrupt_enable,
            final(self).gpu == old(self).gpu,
            final(self).timer == old(self).timer,
    {
        self.interrupt_flag.timer = true;
    }

    /// Read the byte at an address, as `spec_read` dispatches it.
    pub fn read_byte(&self, address: u16) -> (r: u8)
        requires
            self.wf(),
        ensures
            r == spec_read(self@, address),
    {
        proof {
            reveal(spec_read);
        }
        let address = address as usize;
        if address <= BOOT_ROM_END {
            if self.is_boot_rom_mapped {
                self.boot_rom[address]
            } else {
                self.rom_bank_0[address]
            }
        } else if address <= ROM_BANK_0_END {
            self.rom_bank_0[address]
        } else if address <= ROM_BANK_N_END {
            self.rom_bank_n[address - ROM_BANK_N_BEGIN]
        } else if address <= VRAM_END {
            self.gpu.read_vram(address - VRAM_BEGIN)
        } else if address <= EXTERNAL_RAM_END {
            self.external_ram[address - EXTERNAL_RAM_BEGIN]
        } else if address <= WORKING_RAM_END {
            self.working_ram[address - WORKING_RAM_BEGIN]
        } else if address <= ECHO_RAM_END {
            self.working_ram[address - ECHO_RAM_BEGIN]
        } else if address <= OAM_END {
            self.oam_temp[address - OAM_BEGIN]
        } else if address <= UNUSED_END {
            0
        } else if address <= IO_REGISTERS_END {
            self.read_io(address)
        } else if address <= ZERO_PAGE_END {
            self.zero_page[address - ZERO_PAGE_BEGIN]
        } else {
            self.interrupt_enable.to_byte()
        }
    }

    /// Write the byte at an address, as `spec_write` dispatches it.
    pub fn write_byte(&mut self, address: u16, byte: u8)
        requires
            old(self).wf(),
        ensures
            final(self).wf(),
            final(self)@ == spec_write(old(self)@, address, byte),
    {
        let address = address as usize;
        if address <= ROM_BANK_0_END {
            self.rom_bank_0[address] = byte;
        } else if address <= ROM_BANK_N_END {
            self.rom_bank_n[address - ROM_BANK_N_BEGIN] = byte;
        } else if address <= VRAM_END {
            self.gpu.write_vram(address - VRAM_BEGIN, byte);
        } else if address <= EXTERNAL_RAM_END {
            self.external_ram[address - EXTERNAL_RAM_BEGIN] = byte;
        } else if address <= WORKING_RAM_END {
            self.working_ram[address - WORKING_RAM_BEGIN] = byte;
        } else if address <= ECHO_RAM_END {
            self.working_ram[address - ECHO_RAM_BEGIN] = byte;
        } else if address <= OAM_END {
            self.oam_temp[address - OAM_BEGIN] = byte;
        } else if address <= UNUSED_END {
        } else if address <= IO_REGISTERS_END {
            self.write_io(address, byte);
        } else if address <= ZERO_PAGE_END {
            self.zero_page[address - ZERO_PAGE_BEGIN] = byte;
        } else {
            self.interrupt_enable.from_byte(byte);
        }
        proof {
            reveal(spec_write);
            assert(self@ =~= spec_write(old(self)@, address as u16, byte));
        }
    }

    /// Read an I/O register, as `spec_read_io` dispatches it.
    fn read_io(&self, address: usize) -> (r: u8)
        requires
            self.wf(),
            IO_REGISTERS_BEGIN <= address <= IO_REGISTERS_END,
        ensures
            r == spec_read_io(self@, address as int),
    {
        if address == 0xFF04 {
            self.timer.read_div()
        } else if address == 0xFF05 {
            self.timer.tima
        } else if address == 0xFF06 {
            self.timer.tma
        } else if address == 0xFF07 {
            self.timer.tac
        } else if address == 0xFF0F {
            self.interrupt_flag.to_byte()
        } else {
            self.io_temp[address - IO_REGISTERS_BEGIN]
        }
    }

    /// Write an I/O register, as `spec_write_io` dispatches it. The
    /// joypad and serial stubs are side-effect-free here.
    fn write_io(&mut self, address: usize, byte: u8)
        requires
            old(self).wf(),
            IO_REGISTERS_BEGIN <= address <= IO_REGISTERS_END,
        ensures
            final(self).wf(),
            final(self)@ == spec_write_io(old(self)@, address as int, byte),
    {
        if address == 0xFF00 || address == 0xFF01 || address == 0xFF02 || address == 0xFF7F {
        } else if address == 0xFF04 {
            self.timer.write_div(byte);
        } else if address == 0xFF05 {
            self.timer.write_tima(byte);
        } else if address == 0xFF06 {
            self.timer.write_tma(byte);
        } else if address == 0xFF07 {
            self.timer.tac = byte;
        } else if address == 0xFF0F {
            self.interrupt_flag.from_byte(byte);
        } else if address == 0xFF50 {
            self.is_boot_rom_mapped = false;
        } else {
            self.io_temp[address - IO_REGISTERS_BEGIN] = byte;
        }
        proof {
            assert(self@ =~= spec_write_io(old(self)@, address as int, byte));
        }
    }
}

/// Changes that touch no memory region preserve well-formedness: a
/// bus whose regions and video memory are those of a well-formed bus
/// (however its interrupt flags, timer or boot mapping moved) is well
/// formed.
pub proof fn lemma_wf_preserved(a: &MemoryBus, b: &MemoryBus)
    requires
        a.wf(),
        b.boot_rom == a.boot_rom,
        b.rom_bank_0 == a.rom_bank_0,
        b.rom_bank_n == a.rom_bank_n,
        b.external_ram == a.external_ram,
        b.working_ram == a.working_ram,
        b.zero_page == a.zero_page,
        b.io_temp == a.io_temp,
        b.oam_temp == a.oam_temp,
        b.gpu == a.gpu,
    ensures
        b.wf(),
{
}

/// A well-formed bus satisfies the region-size invariant of its
/// abstract state, which the public proof functions over `BusState`
/// require.
pub proof fn lemma_wf_gives_inv(m: &MemoryBus)
    requires
        m.wf(),
    ensures
        bus_inv(m@),
{
}

/// Boot-disable, before: while the boot ROM is mapped, a read in the
/// low 256 bytes returns the boot image's byte.
pub proof fn lemma_boot_mapped_read(s: BusState, address: u16)
    requires
        bus_inv(s),
        s.is_boot_rom_mapped,
        address <= BOOT_ROM_END,
    ensures
        spec_read(s, address) == s.boot_rom[address as int],
{
    reveal(spec_read);
}

/// Boot-disable, after: a write of any byte to the boot-disable
/// register unmaps the boot ROM, so the same read afterwards returns
/// cartridge ROM bank 0's byte, permanently (no write maps it back).
pub proof fn lemma_boot_disable(s: BusState, byte: u8, address: u16)
    requires
        bus_inv(s),
        address <= BOOT_ROM_END,
    ensures
        !spec_write(s, 0xFF50, byte).is_boot_rom_mapped,
        spec_read(spec_write(s, 0xFF50, byte), address) == s.rom_bank_0[address as int],
        forall|a: u16, b: u8|
            !(#[trigger] spec_write(spec_write(s, 0xFF50, byte), a, b)).is_boot_rom_mapped,
{
    reveal(spec_read);
    reveal(spec_write);
}

} // verus!
