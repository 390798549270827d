//! The bus: every byte that the processor reads or writes goes through here,
//! is billed one machine cycle and is handed to whoever answers the address.
//!
//! `MmuModel` says what the bus does. Its larger functions are opaque, so
//! that proofs about the processor need not look into the bus: a proof that
//! does need what one of them says reveals it.

use vstd::prelude::*;
use crate::address::Address;
use crate::cartridge::{Cartridge, CartridgeModel};
use crate::fault::Fault;
use crate::joypad::Joypad;
use crate::serial::{Serial, SerialModel};
use crate::timer::Timer;
use crate::utils::{get_bit, set_bit_mut, spec_get_bit, spec_set_bit};
use crate::video::{Video, VideoModel, OAM_SIZE, OAM_START};

verus! {

pub const BOOT_ROM_SIZE: usize = 0x100;

pub const WORK_RAM_START: u16 = 0xC000;

/// Twelve KiB are fitted, of which the bus shows the first eight.
pub const WORK_RAM_SIZE: usize = 0x3000;

pub const HIGH_RAM_START: u16 = 0xFF80;

pub const HIGH_RAM_SIZE: usize = 0x7F;

pub const AUDIO_START: u16 = 0xFF10;

pub const AUDIO_SIZE: usize = 0x30;

pub const INTERRUPT_FLAGS: u16 = 0xFF0F;

pub const INTERRUPT_ENABLE: u16 = 0xFFFF;

pub const DMA_REGISTER: u16 = 0xFF46;

pub const BOOT_ROM_DISABLE: u16 = 0xFF50;

/// The program that runs before the cartridge's.
pub const BOOT_ROM: [u8; 256] = [
    0x31, 0xFE, 0xFF, 0xAF, 0x21, 0xFF, 0x9F, 0x32, 0xCB, 0x7C, 0x20, 0xFB, 0x21, 0x26, 0xFF, 0x0E,
    0x11, 0x3E, 0x80, 0x32, 0xE2, 0x0C, 0x3E, 0xF3, 0xE2, 0x32, 0x3E, 0x77, 0x77, 0x3E, 0xFC, 0xE0,
    0x47, 0x11, 0x04, 0x01, 0x21, 0x10, 0x80, 0x1A, 0xCD, 0x95, 0x00, 0xCD, 0x96, 0x00, 0x13, 0x7B,
    0xFE, 0x34, 0x20, 0xF3, 0x11, 0xD8, 0x00, 0x06, 0x08, 0x1A, 0x13, 0x22, 0x23, 0x05, 0x20, 0xF9,
    0x3E, 0x19, 0xEA, 0x10, 0x99, 0x21, 0x2F, 0x99, 0x0E, 0x0C, 0x3D, 0x28, 0x08, 0x32, 0x0D, 0x20,
    0xF9, 0x2E, 0x0F, 0x18, 0xF3, 0x67, 0x3E, 0x64, 0x57, 0xE0, 0x42, 0x3E, 0x91, 0xE0, 0x40, 0x04,
    0x1E, 0x02, 0x0E, 0x0C, 0xF0, 0x44, 0xFE, 0x90, 0x20, 0xFA, 0x0D, 0x20, 0xF7, 0x1D, 0x20, 0xF2,
    0x0E, 0x13, 0x24, 0x7C, 0x1E, 0x83, 0xFE, 0x62, 0x28, 0x06, 0x1E, 0xC1, 0xFE, 0x64, 0x20, 0x06,
    0x7B, 0xE2, 0x0C, 0x3E, 0x87, 0xE2, 0xF0, 0x42, 0x90, 0xE0, 0x42, 0x15, 0x20, 0xD2, 0x05, 0x20,
    0x4F, 0x16, 0x20, 0x18, 0xCB, 0x4F, 0x06, 0x04, 0xC5, 0xCB, 0x11, 0x17, 0xC1, 0xCB, 0x11, 0x17,
    0x05, 0x20, 0xF5, 0x22, 0x23, 0x22, 0x23, 0xC9, 0xCE, 0xED, 0x66, 0x66, 0xCC, 0x0D, 0x00, 0x0B,
    0x03, 0x73, 0x00, 0x83, 0x00, 0x0C, 0x00, 0x0D, 0x00, 0x08, 0x11, 0x1F, 0x88, 0x89, 0x00, 0x0E,
    0xDC, 0xCC, 0x6E, 0xE6, 0xDD, 0xDD, 0xD9, 0x99, 0xBB, 0xBB, 0x67, 0x63, 0x6E, 0x0E, 0xEC, 0xCC,
    0xDD, 0xDC, 0x99, 0x9F, 0xBB, 0xB9, 0x33, 0x3E, 0x3C, 0x42, 0xB9, 0xA5, 0xB9, 0xA5, 0x42, 0x3C,
    0x21, 0x04, 0x01, 0x11, 0xA8, 0x00, 0x1A, 0x13, 0xBE, 0x00, 0x00, 0x23, 0x7D, 0xFE, 0x34, 0x20,
    0xF5, 0x06, 0x19, 0x78, 0x86, 0x23, 0x05, 0x20, 0xFB, 0x86, 0x00, 0x00, 0x3E, 0x01, 0xE0, 0x50,
];

/// Two bytes as the processor moves them: the low one first.
#[derive(Debug, Clone, Copy, PartialEq, Eq, Structural)]
pub struct Word {
    pub value: u16,
}

impl Word {
    #[verifier::rlimit(30)]
    pub fn new(value: u16) -> (r: Self)
        ensures
            r.value == value,
    {
        Self { value }
    }

    pub fn compose_new(high: u8, low: u8) -> (r: Self)
        ensures
            r.value == high * 256 + low,
    {
        Self { value: (high as u16) * 256 + low as u16 }
    }

    pub fn low(&self) -> (r: u8)
        ensures
            r == self.value % 256,
    {
        (self.value % 256) as u8
    }

    pub fn high(&self) -> (r: u8)
        ensures
            r == self.value / 256,
    {
        (self.value / 256) as u8
    }
}

/// The five interrupt sources, the most urgent first.
#[derive(Debug, Copy, Clone, PartialEq, Eq, Structural)]
pub enum InterruptSource {
    VBlank,
    Lcd,
    Timer,
    Serial,
    Joypad,
}

impl InterruptSource {
    /// The source's bit in the flag and enable bytes, which is also its
    /// rank.
    pub open spec fn spec_index(self) -> u8 {
        match self {
            InterruptSource::VBlank => 0,
            InterruptSource::Lcd => 1,
            InterruptSource::Timer => 2,
            InterruptSource::Serial => 3,
            InterruptSource::Joypad => 4,
        }
    }

    pub fn index(self) -> (r: u8)
        ensures
            r == self.spec_index(),
            r < 5,
    {
        match self {
            InterruptSource::VBlank => 0,
            InterruptSource::Lcd => 1,
            InterruptSource::Timer => 2,
            InterruptSource::Serial => 3,
            InterruptSource::Joypad => 4,
        }
    }
}

/// Where the handler of each source starts: eight bytes apart, from `0x40`.
pub open spec fn spec_interrupt_vector(interrupt: InterruptSource) -> u8 {
    (0x40 + 8 * interrupt.spec_index()) as u8
}

pub fn interrupt_vector(interrupt: InterruptSource) -> (r: u8)
    ensures
        r == spec_interrupt_vector(interrupt),
{
    match interrupt {
        InterruptSource::VBlank => 0x40,
        InterruptSource::Lcd => 0x48,
        InterruptSource::Timer => 0x50,
        InterruptSource::Serial => 0x58,
        InterruptSource::Joypad => 0x60,
    }
}

/// Something out of the ordinary that the bus let pass, for the host to
/// report: none of these stops the machine.
#[derive(Debug, Copy, Clone, PartialEq, Eq, Structural)]
pub enum Notice {
    /// A write to a cartridge that keeps nothing of it.
    RomWrite { address: u16, value: u8 },
    /// A write into the unused area above the object memory.
    ProhibitedWrite { address: u16, value: u8 },
    /// A read of a register that only the colour model has.
    ColorRegisterRead { address: u16 },
    /// A write to a register that this model does not have.
    UnusedRegisterWrite { address: u16, value: u8 },
}

/// The register of the colour model that programs for this one read and
/// write all the same.
pub const COLOR_SPEED_REGISTER: u16 = 0xFF4D;

/// A register that no document names and programs write all the same.
pub const UNDOCUMENTED_REGISTER: u16 = 0xFF7F;

/// The small devices behind the input-output page.
pub struct IoModel {
    pub joypad_input: Joypad,
    pub serial: SerialModel,
    pub timer: Timer,
    /// The sound registers, `0xFF10` to `0xFF3F`: stored, and no more.
    pub audio: Seq<u8>,
    /// Zero while the start-up program is mapped in.
    pub boot_rom_disabled: u8,
}

impl IoModel {
    pub open spec fn inv(self) -> bool {
        &&& self.timer.inv()
        &&& self.audio.len() == AUDIO_SIZE
    }

    pub open spec fn fresh(print_serial: bool) -> IoModel {
        IoModel {
            joypad_input: Joypad::spec_new(),
            serial: SerialModel::fresh(print_serial),
            timer: Timer::spec_new(),
            audio: Seq::new(AUDIO_SIZE as nat, |i: int| 0u8),
            boot_rom_disabled: 0,
        }
    }
}

pub struct IO {
    joypad_input: Joypad,
    serial: Serial,
    timer: Timer,
    audio: Vec<u8>,
    boot_rom_disabled: u8,
}

impl View for IO {
    type V = IoModel;

    closed spec fn view(&self) -> IoModel {
        IoModel {
            joypad_input: self.joypad_input,
            serial: self.serial@,
            timer: self.timer,
            audio: self.audio@,
            boot_rom_disabled: self.boot_rom_disabled,
        }
    }
}

fn byte_vec_for_range(range_inclusive_start: u16, range_inclusive_end: u16) -> (r: Vec<u8>)
    requires
        range_inclusive_start <= range_inclusive_end,
    ensures
        r@ == Seq::new(
            (range_inclusive_end - range_inclusive_start + 1) as nat,
            |i: int| 0u8,
        ),
{
    let size = (range_inclusive_end - range_inclusive_start) as usize + 1;
    let r = vec![0x00u8; size];
    assert(r@ =~= Seq::new(
        (range_inclusive_end - range_inclusive_start + 1) as nat,
        |i: int| 0u8,
    ));
    r
}

impl IO {
    pub fn new(print_serial: bool) -> (r: Self)
        ensures
            r@ == IoModel::fresh(print_serial),
            r@.inv(),
    {
        Self {
            joypad_input: Joypad::new(),
            serial: Serial::new(print_serial),
            timer: Timer::new(),
            audio: byte_vec_for_range(0xFF10, 0xFF3F),
            boot_rom_disabled: 0x00,
        }
    }
}

/// The state of everything that hangs on the bus.
pub struct MmuModel {
    pub cartridge: CartridgeModel,
    pub video: VideoModel,
    pub internal_ram: Seq<u8>,
    pub io: IoModel,
    pub high_ram: Seq<u8>,
    pub interrupt_enable: u8,
    pub interrupt_flags: u8,
    /// The machine cycles billed for bus accesses since they were last
    /// taken, counted round 256.
    pub consumed_read_write_cycles: u8,
    /// What the bus let pass and the host has not yet taken, oldest first.
    pub notices: Seq<Notice>,
}

/// How a transfer into the object memory ends: with the bytes to store, or
/// with the fault of the first source byte that cannot be read.
pub open spec fn spec_dma_bytes(m: MmuModel, page: u8, upto: int) -> Result<Seq<u8>, Fault>
    decreases upto,
{
    if upto <= 0 {
        Ok(Seq::empty())
    } else {
        match spec_dma_bytes(m, page, upto - 1) {
            Err(e) => Err(e),
            Ok(bytes) => match m.peek((page * 0x100 + upto - 1) as u16) {
                Err(e) => Err(e),
                Ok(b) => Ok(bytes.push(b)),
            },
        }
    }
}

impl MmuModel {
    pub open spec fn inv(self) -> bool {
        &&& self.cartridge.inv()
        &&& self.video.inv()
        &&& self.io.inv()
        &&& self.internal_ram.len() == WORK_RAM_SIZE
        &&& self.high_ram.len() == HIGH_RAM_SIZE
    }

    pub open spec fn fresh(cartridge: CartridgeModel, print_serial: bool) -> MmuModel {
        MmuModel {
            cartridge,
            video: VideoModel::fresh(),
            internal_ram: Seq::new(WORK_RAM_SIZE as nat, |i: int| 0u8),
            io: IoModel::fresh(print_serial),
            high_ram: Seq::new(HIGH_RAM_SIZE as nat, |i: int| 0u8),
            interrupt_enable: 0,
            interrupt_flags: 0,
            consumed_read_write_cycles: 0,
            notices: Seq::empty(),
        }
    }

    pub open spec fn is_interrupt_enabled(self, interrupt: InterruptSource) -> bool {
        spec_get_bit(self.interrupt_enable, interrupt.spec_index())
    }

    pub open spec fn has_interrupt_flag(self, interrupt: InterruptSource) -> bool {
        spec_get_bit(self.interrupt_flags, interrupt.spec_index())
    }

    pub open spec fn set_interrupt_flag(self, interrupt: InterruptSource, enabled: bool) -> MmuModel {
        MmuModel {
            interrupt_flags: spec_set_bit(self.interrupt_flags, interrupt.spec_index(), enabled),
            ..self
        }
    }

    pub open spec fn boot_rom_disabled(self) -> bool {
        self.io.boot_rom_disabled != 0
    }

    pub open spec fn disable_boot_rom(self) -> MmuModel {
        MmuModel { io: IoModel { boot_rom_disabled: 1, ..self.io }, ..self }
    }

    pub open spec fn with_timer(self, timer: Timer) -> MmuModel {
        MmuModel { io: IoModel { timer, ..self.io }, ..self }
    }

    /// The state after the timer has run for `elapsed_cycles` machine
    /// cycles: where it ran over, the timer interrupt is flagged.
    #[verifier::opaque]
    pub open spec fn maybe_tick_timers(self, elapsed_cycles: u8) -> MmuModel {
        let (timer, fired) = self.io.timer.spec_maybe_tick_cycles(elapsed_cycles);
        if fired {
            self.with_timer(timer).set_interrupt_flag(InterruptSource::Timer, true)
        } else {
            self.with_timer(timer)
        }
    }

    /// The state after one bus access is billed: the count goes up by one,
    /// and the timer runs for that cycle.
    #[verifier::opaque]
    pub open spec fn billed(self) -> MmuModel {
        (MmuModel {
            consumed_read_write_cycles: ((self.consumed_read_write_cycles + 1) % 256) as u8,
            ..self
        }).maybe_tick_timers(1)
    }

    pub open spec fn take_consumed_cycles(self) -> (MmuModel, u8) {
        (MmuModel { consumed_read_write_cycles: 0, ..self }, self.consumed_read_write_cycles)
    }

    /// What the input-output page answers at `addr`.
    #[verifier::opaque]
    pub open spec fn read_io(self, addr: u16) -> Result<u8, Fault> {
        if addr == 0xFF00 {
            Ok(self.io.joypad_input.spec_read())
        } else if 0xFF01 <= addr <= 0xFF02 {
            self.io.serial.read(addr)
        } else if 0xFF04 <= addr <= 0xFF07 {
            Ok(self.io.timer.spec_read(addr))
        } else if AUDIO_START <= addr < AUDIO_START + AUDIO_SIZE {
            Ok(self.io.audio[addr - AUDIO_START])
        } else if 0xFF40 <= addr <= 0xFF4B {
            self.video.read_register(addr)
        } else if addr == 0xFF4D {
            // A register of the colour model that programs for this one
            // read all the same.
            Ok(0x00)
        } else if addr == BOOT_ROM_DISABLE {
            Ok(self.io.boot_rom_disabled)
        } else {
            Err(Fault::UnmappedRead(addr))
        }
    }

    /// The byte that the bus shows at `addr`, or the fault where nothing
    /// answers. Billing aside, a read changes nothing.
    #[verifier::opaque]
    pub open spec fn peek(self, addr: u16) -> Result<u8, Fault> {
        if addr == INTERRUPT_FLAGS {
            Ok(self.interrupt_flags)
        } else if addr < 0x8000 {
            if addr < BOOT_ROM_SIZE && self.io.boot_rom_disabled == 0 {
                Ok(BOOT_ROM[addr as int])
            } else {
                self.cartridge.read(addr)
            }
        } else if addr < 0xA000 {
            Ok(self.video.read_vram(addr))
        } else if addr < 0xC000 {
            self.cartridge.read(addr)
        } else if addr < 0xE000 {
            Ok(self.internal_ram[addr - WORK_RAM_START])
        } else if addr < 0xFE00 {
            Err(Fault::UnmappedRead(addr))
        } else if addr < 0xFEA0 {
            Ok(self.video.read_oam(addr))
        } else if addr < 0xFF00 {
            Err(Fault::UnmappedRead(addr))
        } else if addr < 0xFF80 {
            self.read_io(addr)
        } else if addr < 0xFFFF {
            Ok(self.high_ram[addr - HIGH_RAM_START])
        } else {
            Ok(self.interrupt_enable)
        }
    }

    /// The state after a transfer from page `page`: the object memory holds
    /// the first 160 bytes of the page as the bus shows them. Nothing is
    /// billed for the transfer.
    #[verifier::opaque]
    pub open spec fn dma(self, page: u8) -> Result<MmuModel, Fault> {
        match spec_dma_bytes(self, page, OAM_SIZE as int) {
            Err(e) => Err(e),
            Ok(bytes) => Ok(MmuModel { video: VideoModel { oam: bytes, ..self.video }, ..self }),
        }
    }

    #[verifier::opaque]
    pub open spec fn write_io(self, addr: u16, value: u8) -> Result<MmuModel, Fault> {
        if addr == 0xFF00 {
            Ok(
                MmuModel {
                    io: IoModel { joypad_input: self.io.joypad_input.spec_write(value), ..self.io },
                    ..self
                },
            )
        } else if 0xFF01 <= addr <= 0xFF02 {
            Ok(MmuModel { io: IoModel { serial: self.io.serial.write(addr, value), ..self.io }, ..self })
        } else if 0xFF04 <= addr <= 0xFF07 {
            Ok(self.with_timer(self.io.timer.spec_write(addr, value)))
        } else if AUDIO_START <= addr < AUDIO_START + AUDIO_SIZE {
            Ok(
                MmuModel {
                    io: IoModel {
                        audio: self.io.audio.update(addr - AUDIO_START, value),
                        ..self.io
                    },
                    ..self
                },
            )
        } else if addr == DMA_REGISTER {
            self.dma(value)
        } else if 0xFF40 <= addr <= 0xFF4B {
            match self.video.write_register(addr, value) {
                Ok(video) => Ok(MmuModel { video, ..self }),
                Err(e) => Err(e),
            }
        } else if addr == 0xFF4D || addr == 0xFF7F {
            Ok(self)
        } else if addr == BOOT_ROM_DISABLE {
            Ok(MmuModel { io: IoModel { boot_rom_disabled: value, ..self.io }, ..self })
        } else {
            Err(Fault::UnmappedWrite(addr))
        }
    }

    /// The state after `value` is stored at `addr`, or the fault where the
    /// address takes no write. The gap above the object memory swallows
    /// writes.
    #[verifier::opaque]
    pub open spec fn poke(self, addr: u16, value: u8) -> Result<MmuModel, Fault> {
        if addr == INTERRUPT_FLAGS {
            Ok(MmuModel { interrupt_flags: value, ..self })
        } else if addr < 0x8000 || 0xA000 <= addr < 0xC000 {
            match self.cartridge.write(addr, value) {
                Ok(cartridge) => Ok(MmuModel { cartridge, ..self }),
                Err(e) => Err(e),
            }
        } else if addr < 0xA000 {
            Ok(MmuModel { video: self.video.write_vram(addr, value), ..self })
        } else if addr < 0xE000 {
            Ok(
                MmuModel {
                    internal_ram: self.internal_ram.update(addr - WORK_RAM_START, value),
                    ..self
                },
            )
        } else if addr < 0xFE00 {
            Err(Fault::UnmappedWrite(addr))
        } else if addr < 0xFEA0 {
            Ok(MmuModel { video: self.video.write_oam(addr, value), ..self })
        } else if addr < 0xFF00 {
            Ok(self)
        } else if addr < 0xFF80 {
            self.write_io(addr, value)
        } else if addr < 0xFFFF {
            Ok(MmuModel { high_ram: self.high_ram.update(addr - HIGH_RAM_START, value), ..self })
        } else {
            Ok(MmuModel { interrupt_enable: value, ..self })
        }
    }

    /// What a read of `addr` leaves for the host to report.
    pub open spec fn read_notice(addr: u16) -> Option<Notice> {
        if addr == COLOR_SPEED_REGISTER {
            Some(Notice::ColorRegisterRead { address: addr })
        } else {
            None
        }
    }

    /// What a write of `value` to `addr` leaves for the host to report, if
    /// the write goes well: that a cartridge without registers was written
    /// to, that the unused area above the object memory was, or a register
    /// that this model does not have.
    pub open spec fn write_notice(self, addr: u16, value: u8) -> Option<Notice> {
        if (addr < 0x8000 || 0xA000 <= addr < 0xC000) && self.cartridge.ignores_writes() {
            Some(Notice::RomWrite { address: addr, value })
        } else if 0xFEA0 <= addr < 0xFF00 {
            Some(Notice::ProhibitedWrite { address: addr, value })
        } else if addr == COLOR_SPEED_REGISTER || addr == UNDOCUMENTED_REGISTER {
            Some(Notice::UnusedRegisterWrite { address: addr, value })
        } else {
            None
        }
    }

    /// The state with `notice`, if there is one, added to what the host has
    /// to take.
    pub open spec fn noticed(self, notice: Option<Notice>) -> MmuModel {
        match notice {
            Some(notice) => MmuModel { notices: self.notices.push(notice), ..self },
            None => self,
        }
    }

    pub open spec fn take_notices(self) -> (MmuModel, Seq<Notice>) {
        (MmuModel { notices: Seq::empty(), ..self }, self.notices)
    }

    /// A billed read: the state after it, and the byte or the fault.
    #[verifier::opaque]
    pub open spec fn read(self, addr: u16) -> (MmuModel, Result<u8, Fault>) {
        (self.billed().noticed(MmuModel::read_notice(addr)), self.billed().peek(addr))
    }

    /// A billed write: the state after it, which on a fault is that after
    /// the billing alone.
    #[verifier::opaque]
    pub open spec fn write(self, addr: u16, value: u8) -> (MmuModel, Result<(), Fault>) {
        match self.billed().poke(addr, value) {
            Ok(m) => (m.noticed(self.write_notice(addr, value)), Ok(())),
            Err(e) => (self.billed(), Err(e)),
        }
    }

    /// Two billed reads, the low byte first.
    #[verifier::opaque]
    pub open spec fn read_word(self, addr: u16) -> (MmuModel, Result<u16, Fault>) {
        let (m1, low) = self.read(addr);
        match low {
            Err(e) => (m1, Err(e)),
            Ok(low) => {
                let (m2, high) = m1.read(((addr + 1) % 0x1_0000) as u16);
                match high {
                    Err(e) => (m2, Err(e)),
                    Ok(high) => (m2, Ok((high * 256 + low) as u16)),
                }
            },
        }
    }

    /// Two billed writes, the low byte first.
    #[verifier::opaque]
    pub open spec fn write_word(self, addr: u16, value: u16) -> (MmuModel, Result<(), Fault>) {
        let (m1, first) = self.write(addr, (value % 256) as u8);
        match first {
            Err(e) => (m1, Err(e)),
            Ok(_) => m1.write(((addr + 1) % 0x1_0000) as u16, (value / 256) as u8),
        }
    }
}

pub struct MMU {
    cartridge: Cartridge,
    video: Video,
    internal_ram: Vec<u8>,
    io: IO,
    high_ram: Vec<u8>,
    interrupt_enable: u8,
    interrupt_flags: u8,
    consumed_read_write_cycles: u8,
    notices: Vec<Notice>,
}

impl View for MMU {
    type V = MmuModel;

    closed spec fn view(&self) -> MmuModel {
        MmuModel {
            cartridge: self.cartridge@,
            video: self.video@,
            internal_ram: self.internal_ram@,
            io: self.io@,
            high_ram: self.high_ram@,
            interrupt_enable: self.interrupt_enable,
            interrupt_flags: self.interrupt_flags,
            consumed_read_write_cycles: self.consumed_read_write_cycles,
            notices: self.notices@,
        }
    }
}

impl MMU {
    pub open spec fn wf(&self) -> bool {
        self@.inv()
    }

    pub fn new(cartridge: Cartridge, print_serial: bool) -> (r: MMU)
        requires
            cartridge.wf(),
        ensures
            r.wf(),
            r@ == MmuModel::fresh(cartridge@, print_serial),
    {
        let r = MMU {
            cartridge,
            video: Video::new(),
            internal_ram: vec![0x00u8; 0x3000],
            io: IO::new(print_serial),
            high_ram: vec![0x00u8; 0x7F],
            interrupt_enable: 0x00,
            interrupt_flags: 0x00,
            consumed_read_write_cycles: 0x00,
            notices: Vec::new(),
        };
        assert(r@.internal_ram =~= Seq::new(WORK_RAM_SIZE as nat, |i: int| 0u8));
        assert(r@.high_ram =~= Seq::new(HIGH_RAM_SIZE as nat, |i: int| 0u8));
        r
    }

    /// Gives the cycles billed since the last call and starts the count
    /// anew.
    pub fn take_consumed_cycles(&mut self) -> (r: u8)
        ensures
            (final(self)@, r) == old(self)@.take_consumed_cycles(),
    {
        let ret = self.consumed_read_write_cycles;
        self.consumed_read_write_cycles = 0;
        ret
    }

    pub fn video(&mut self) -> (r: &mut Video)
        ensures
            r@ == old(self)@.video,
            final(self)@ == (MmuModel { video: final(r)@, ..old(self)@ }),
    {
        &mut self.video
    }

    pub fn joypad(&mut self) -> (r: &mut Joypad)
        ensures
            *r == old(self)@.io.joypad_input,
            final(self)@ == (MmuModel {
                io: IoModel { joypad_input: *final(r), ..old(self)@.io },
                ..old(self)@
            }),
    {
        &mut self.io.joypad_input
    }

    /// Hands the host the bytes that the program sent over the serial port
    /// since the last call.
    pub fn take_serial_output(&mut self) -> (r: Vec<u8>)
        ensures
            r@ == old(self)@.io.serial.sent,
            final(self)@ == (MmuModel {
                io: IoModel {
                    serial: SerialModel { sent: Seq::empty(), ..old(self)@.io.serial },
                    ..old(self)@.io
                },
                ..old(self)@
            }),
    {
        self.io.serial.take_sent()
    }

    pub fn read(&mut self, address: Address) -> (r: Result<u8, Fault>)
        requires
            old(self).wf(),
        ensures
            final(self).wf(),
            (final(self)@, r) == old(self)@.read(address.addr),
    {
        proof {
            reveal(MmuModel::read);
        }
        self.consume_cycle();
        let value = self.read_no_consume_cycles(address);
        if address.value() == COLOR_SPEED_REGISTER {
            self.notices.push(Notice::ColorRegisterRead { address: address.value() });
        }
        value
    }

    /// Hands the host what the bus let pass since the last call, oldest
    /// first.
    pub fn take_notices(&mut self) -> (r: Vec<Notice>)
        ensures
            r@ == old(self)@.notices,
            final(self)@ == old(self)@.take_notices().0,
    {
        let mut out: Vec<Notice> = Vec::new();
        out.append(&mut self.notices);
        assert(self.notices@ =~= Seq::empty());
        assert(out@ =~= old(self).notices@);
        out
    }

    /// What a write of `value` to `address` leaves for the host to report.
    fn write_notice(&self, address: Address, value: u8) -> (r: Option<Notice>)
        ensures
            r == self@.write_notice(address.addr, value),
    {
        let addr = address.value();
        if (addr < 0x8000 || (0xA000 <= addr && addr < 0xC000)) && self.cartridge.ignores_writes() {
            Some(Notice::RomWrite { address: addr, value })
        } else if 0xFEA0 <= addr && addr < 0xFF00 {
            Some(Notice::ProhibitedWrite { address: addr, value })
        } else if addr == COLOR_SPEED_REGISTER || addr == UNDOCUMENTED_REGISTER {
            Some(Notice::UnusedRegisterWrite { address: addr, value })
        } else {
            None
        }
    }

    /// Looks at the byte at `address` without billing: what a read would
    /// give if it took no time.
    pub fn peek(&self, address: Address) -> (r: Result<u8, Fault>)
        requires
            self.wf(),
        ensures
            r == self@.peek(address.addr),
    {
        self.read_no_consume_cycles(address)
    }

    #[verifier::rlimit(30)]
    fn read_no_consume_cycles(&self, address: Address) -> (r: Result<u8, Fault>)
        requires
            self.wf(),
        ensures
            r == self@.peek(address.addr),
    {
        proof {
            reveal(MmuModel::peek);
        }
        let addr = address.value();
        if addr == INTERRUPT_FLAGS {
            return Ok(self.interrupt_flags);
        }
        if addr < 0x8000 {
            if addr <= 0xFF && self.io.boot_rom_disabled == 0x00 {
                Ok(BOOT_ROM[address.index_value()])
            } else {
                self.cartridge.read(address)
            }
        } else if addr < 0xA000 {
            Ok(self.video.read_vram(address))
        } else if addr < 0xC000 {
            self.cartridge.read(address)
        } else if addr < 0xE000 {
            Ok(self.internal_ram[address.index_value() - 0xC000])
        } else if addr < 0xFE00 {
            Err(Fault::UnmappedRead(addr))
        } else if addr < 0xFEA0 {
            Ok(self.video.read_oam(address))
        } else if addr < 0xFF00 {
            Err(Fault::UnmappedRead(addr))
        } else if addr < 0xFF80 {
            self.read_io(address)
        } else if addr < 0xFFFF {
            Ok(self.high_ram[address.index_value() - 0xFF80])
        } else {
            Ok(self.interrupt_enable)
        }
    }

    #[verifier::rlimit(30)]
    pub fn read_word(&mut self, address: Address) -> (r: Result<Word, Fault>)
        requires
            old(self).wf(),
        ensures
            final(self).wf(),
            final(self)@ == old(self)@.read_word(address.addr).0,
            match old(self)@.read_word(address.addr).1 {
                Ok(value) => r == Ok::<Word, Fault>(Word { value }),
                Err(e) => r == Err::<Word, Fault>(e),
            },
    {
        proof {
            reveal(MmuModel::read_word);
        }
        let low = self.read(address)?;
        let high = self.read(address.next())?;

        Ok(Word::compose_new(high, low))
    }

    pub fn write(&mut self, address: Address, value: u8) -> (r: Result<(), Fault>)
        requires
            old(self).wf(),
        ensures
            final(self).wf(),
            (final(self)@, r) == old(self)@.write(address.addr, value),
    {
        proof {
            reveal(MmuModel::write);
        }
        let notice = self.write_notice(address, value);
        self.consume_cycle();
        proof {
            reveal(MmuModel::billed);
            reveal(MmuModel::maybe_tick_timers);
        }
        self.write_no_consume_cycles(address, value)?;
        if let Some(notice) = notice {
            self.notices.push(notice);
        }
        Ok(())
    }

    #[verifier::rlimit(30)]
    fn write_no_consume_cycles(&mut self, address: Address, value: u8) -> (r: Result<(), Fault>)
        requires
            old(self).wf(),
        ensures
            final(self).wf(),
            match old(self)@.poke(address.addr, value) {
                Ok(m) => r == Ok::<(), Fault>(()) && final(self)@ == m,
                Err(e) => r == Err::<(), Fault>(e) && final(self)@ == old(self)@,
            },
    {
        proof {
            reveal(MmuModel::poke);
        }
        let addr = address.value();
        if addr == INTERRUPT_FLAGS {
            self.interrupt_flags = value;
            return Ok(());
        }
        if addr < 0x8000 {
            self.cartridge.write(address, value)
        } else if addr < 0xA000 {
            self.video.write_vram(address, value);
            Ok(())
        } else if addr < 0xC000 {
            self.cartridge.write(address, value)
        } else if addr < 0xE000 {
            self.internal_ram.set(address.index_value() - 0xC000, value);
            Ok(())
        } else if addr < 0xFE00 {
            Err(Fault::UnmappedWrite(addr))
        } else if addr < 0xFEA0 {
            self.video.write_oam(address, value);
            Ok(())
        } else if addr < 0xFF00 {
            Ok(())
        } else if addr < 0xFF80 {
            self.write_io(address, value)
        } else if addr < 0xFFFF {
            self.high_ram.set(address.index_value() - 0xFF80, value);
            Ok(())
        } else {
            self.interrupt_enable = value;
            Ok(())
        }
    }

    #[verifier::rlimit(30)]
    pub fn write_word(&mut self, address: Address, value: Word) -> (r: Result<(), Fault>)
        requires
            old(self).wf(),
        ensures
            final(self).wf(),
            (final(self)@, r) == old(self)@.write_word(address.addr, value.value),
    {
        proof {
            reveal(MmuModel::write_word);
        }
        self.write(address, value.low())?;
        self.write(address.next(), value.high())
    }

    pub fn is_interrupt_enabled(&self, interrupt: InterruptSource) -> (r: bool)
        ensures
            r == self@.is_interrupt_enabled(interrupt),
    {
        get_bit(self.interrupt_enable, interrupt.index())
    }

    pub fn has_interrupt_flag(&self, interrupt: InterruptSource) -> (r: bool)
        ensures
            r == self@.has_interrupt_flag(interrupt),
    {
        get_bit(self.interrupt_flags, interrupt.index())
    }

    pub fn set_interrupt_flag(&mut self, interrupt: InterruptSource, enabled: bool)
        ensures
            final(self)@ == old(self)@.set_interrupt_flag(interrupt, enabled),
    {
        set_bit_mut(&mut self.interrupt_flags, interrupt.index(), enabled);
    }

    pub fn maybe_tick_timers(&mut self, elapsed_cycles: u8)
        requires
            old(self).wf(),
        ensures
            final(self).wf(),
            final(self)@ == old(self)@.maybe_tick_timers(elapsed_cycles),
    {
        proof {
            reveal(MmuModel::maybe_tick_timers);
        }
        if self.io.timer.maybe_tick_cycles(elapsed_cycles) {
            self.set_interrupt_flag(InterruptSource::Timer, true);
        }
    }

    pub fn disable_boot_rom(&mut self)
        ensures
            final(self)@ == old(self)@.disable_boot_rom(),
    {
        self.io.boot_rom_disabled = 1
    }

    pub fn boot_rom_disabled(&self) -> (r: bool)
        ensures
            r == self@.boot_rom_disabled(),
    {
        self.io.boot_rom_disabled != 0
    }

    #[verifier::rlimit(30)]
    fn read_io(&self, address: Address) -> (r: Result<u8, Fault>)
        requires
            self.wf(),
            0xFF00 <= address.addr < 0xFF80,
        ensures
            r == self@.read_io(address.addr),
    {
        proof {
            reveal(MmuModel::read_io);
        }
        let addr = address.value();
        if addr == 0xFF00 {
            Ok(self.io.joypad_input.read())
        } else if 0xFF01 <= addr && addr <= 0xFF02 {
            self.io.serial.read(address)
        } else if 0xFF04 <= addr && addr <= 0xFF07 {
            Ok(self.io.timer.read(address))
        } else if 0xFF10 <= addr && addr <= 0xFF3F {
            Ok(self.io.audio[address.index_value() - 0xFF10])
        } else if 0xFF40 <= addr && addr <= 0xFF4B {
            self.video.read_register(address)
        } else if addr == 0xFF4D {
            Ok(0x00)
        } else if addr == BOOT_ROM_DISABLE {
            Ok(self.io.boot_rom_disabled)
        } else {
            Err(Fault::UnmappedRead(addr))
        }
    }

    #[verifier::rlimit(60)]
    fn write_io(&mut self, address: Address, value: u8) -> (r: Result<(), Fault>)
        requires
            old(self).wf(),
            0xFF00 <= address.addr < 0xFF80,
        ensures
            final(self).wf(),
            match old(self)@.write_io(address.addr, value) {
                Ok(m) => r == Ok::<(), Fault>(()) && final(self)@ == m,
                Err(e) => r == Err::<(), Fault>(e) && final(self)@ == old(self)@,
            },
    {
        proof {
            reveal(MmuModel::write_io);
        }
        let addr = address.value();
        if addr == 0xFF00 {
            self.io.joypad_input.write(value);
            Ok(())
        } else if 0xFF01 <= addr && addr <= 0xFF02 {
            self.io.serial.write(address, value);
            Ok(())
        } else if 0xFF04 <= addr && addr <= 0xFF07 {
            self.io.timer.write(address, value);
            Ok(())
        } else if 0xFF10 <= addr && addr <= 0xFF3F {
            self.io.audio.set(address.index_value() - 0xFF10, value);
            Ok(())
        } else if addr == DMA_REGISTER {
            self.do_dma_transfer(value)
        } else if 0xFF40 <= addr && addr <= 0xFF4B {
            self.video.write_register(address, value)
        } else if addr == 0xFF4D || addr == 0xFF7F {
            Ok(())
        } else if addr == BOOT_ROM_DISABLE {
            self.io.boot_rom_disabled = value;
            Ok(())
        } else {
            Err(Fault::UnmappedWrite(addr))
        }
    }

    /// Copies the first 160 bytes of page `dma_target` into the object
    /// memory.
    #[verifier::rlimit(30)]
    fn do_dma_transfer(&mut self, dma_target: u8) -> (r: Result<(), Fault>)
        requires
            old(self).wf(),
        ensures
            final(self).wf(),
            match old(self)@.dma(dma_target) {
                Ok(m) => r == Ok::<(), Fault>(()) && final(self)@ == m,
                Err(e) => r == Err::<(), Fault>(e) && final(self)@ == old(self)@,
            },
    {
        proof {
            reveal(MmuModel::dma);
        }
        let mut bytes: Vec<u8> = Vec::new();
        let mut src_addr = Address::new((dma_target as u16) * 0x0100);
        let mut count: usize = 0;
        while count < OAM_SIZE
            invariant
                count <= OAM_SIZE,
                bytes@.len() == count,
                self.wf(),
                self@ == old(self)@,
                src_addr.addr == dma_target * 0x100 + count,
                spec_dma_bytes(self@, dma_target, count as int) == Ok::<Seq<u8>, Fault>(bytes@),
            decreases OAM_SIZE - count,
        {
            let value = match self.read_no_consume_cycles(src_addr) {
                Ok(value) => value,
                Err(e) => {
                    proof {
                        reveal(MmuModel::dma);
                        lemma_dma_fault_stays(self@, dma_target, count as int + 1, OAM_SIZE as int);
                    }
                    return Err(e);
                },
            };
            bytes.push(value);
            src_addr = src_addr.next();
            count += 1;
        }
        let ghost start = self@;
        let mut dst_addr = Address::new(OAM_START);
        let mut done: usize = 0;
        while done < OAM_SIZE
            invariant
                done <= OAM_SIZE,
                bytes@.len() == OAM_SIZE,
                self.wf(),
                dst_addr.addr == OAM_START + done,
                self@ == (MmuModel { video: self@.video, ..start }),
                self@.video == (VideoModel { oam: self@.video.oam, ..start.video }),
                self@.video.oam.len() == OAM_SIZE,
                forall|i: int| 0 <= i < done ==> self@.video.oam[i] == bytes@[i],
            decreases OAM_SIZE - done,
        {
            self.video.write_oam(dst_addr, bytes[done]);
            dst_addr = dst_addr.next();
            done += 1;
        }
        assert(self@.video.oam =~= bytes@);
        proof {
            reveal(MmuModel::dma);
        }
        Ok(())
    }

    fn consume_cycle(&mut self)
        requires
            old(self).wf(),
        ensures
            final(self).wf(),
            final(self)@ == old(self)@.billed(),
    {
        proof {
            reveal(MmuModel::billed);
        }
        self.consumed_read_write_cycles = self.consumed_read_write_cycles.wrapping_add(1);
        self.maybe_tick_timers(1);
    }
}

/// Once a source byte cannot be read, the transfer ends with that fault
/// however far it was meant to go.
proof fn lemma_dma_fault_stays(m: MmuModel, page: u8, at: int, upto: int)
    requires
        0 < at <= upto,
        spec_dma_bytes(m, page, at) is Err,
    ensures
        spec_dma_bytes(m, page, upto) == spec_dma_bytes(m, page, at),
    decreases upto - at,
{
    if at < upto {
        lemma_dma_fault_stays(m, page, at, upto - 1);
    }
}

/// While the boot latch is zero the first page of the bus shows the boot
/// program; once it is set, the cartridge, as the rest of the ROM area does
/// at all times.
pub proof fn lemma_boot_rom_latch(m: MmuModel, addr: u16)
    requires
        addr < 0x8000,
    ensures
        m.boot_rom_disabled() || addr >= BOOT_ROM_SIZE ==> m.peek(addr) == m.cartridge.read(addr),
        !m.boot_rom_disabled() && addr < BOOT_ROM_SIZE ==> m.peek(addr) == Ok::<u8, Fault>(
            BOOT_ROM[addr as int],
        ),
        m.disable_boot_rom().peek(addr) == m.cartridge.read(addr),
        m.poke(BOOT_ROM_DISABLE, 0x01) matches Ok(after) && after.peek(addr) == m.cartridge.read(
            addr,
        ),
{
    reveal(MmuModel::peek);
    reveal(MmuModel::poke);
    reveal(MmuModel::write_io);
}

/// Whether `addr` lies in one of the plain memories of the bus: video
/// memory, work RAM, object memory or high RAM.
pub open spec fn spec_is_plain_memory(addr: u16) -> bool {
    0x8000 <= addr < 0xA000 || 0xC000 <= addr < 0xE000 || 0xFE00 <= addr < 0xFEA0 || 0xFF80
        <= addr < 0xFFFF
}

/// A byte stored in plain memory reads back, and the other bytes of plain
/// memory stay as they were.
pub proof fn lemma_plain_memory_reads_back(m: MmuModel, addr: u16, value: u8, other: u16)
    requires
        m.inv(),
        spec_is_plain_memory(addr),
        spec_is_plain_memory(other),
    ensures
        m.poke(addr, value) matches Ok(after) && after.inv() && after.peek(addr) == Ok::<u8, Fault>(
            value,
        ) && (other != addr ==> after.peek(other) == m.peek(other)),
{
    reveal(MmuModel::peek);
    reveal(MmuModel::poke);
}

proof fn lemma_dma_bytes(m: MmuModel, page: u8, upto: int)
    requires
        0 <= upto <= OAM_SIZE,
    ensures
        spec_dma_bytes(m, page, upto) matches Ok(bytes) ==> bytes.len() == upto && forall|i: int|
            0 <= i < upto ==> m.peek((page * 0x100 + i) as u16) == Ok::<u8, Fault>(
                #[trigger] bytes[i],
            ),
        spec_dma_bytes(m, page, upto) is Err ==> exists|i: int|
            0 <= i < upto && #[trigger] m.peek((page * 0x100 + i) as u16) is Err,
    decreases upto,
{
    if upto > 0 {
        lemma_dma_bytes(m, page, upto - 1);
    }
}

/// A transfer puts into the object memory the 160 bytes that the bus shows
/// from the start of the page, and changes nothing else; it fails, and
/// changes nothing, exactly when one of those bytes cannot be read.
pub proof fn lemma_dma_copies_page(m: MmuModel, page: u8)
    ensures
        match m.dma(page) {
            Ok(after) => {
                &&& after == (MmuModel {
                    video: VideoModel { oam: after.video.oam, ..m.video },
                    ..m
                })
                &&& after.video.oam.len() == OAM_SIZE
                &&& forall|i: int|
                    0 <= i < OAM_SIZE ==> m.peek((page * 0x100 + i) as u16) == Ok::<u8, Fault>(
                        #[trigger] after.video.oam[i],
                    )
            },
            Err(_) => exists|i: int|
                0 <= i < OAM_SIZE && #[trigger] m.peek((page * 0x100 + i) as u16) is Err,
        },
{
    reveal(MmuModel::dma);
    lemma_dma_bytes(m, page, OAM_SIZE as int);
}

/// Billing an access changes neither the plain memories nor the validity
/// of the state.
pub proof fn lemma_billing_keeps_plain_memory(m: MmuModel, addr: u16)
    requires
        m.inv(),
        spec_is_plain_memory(addr),
    ensures
        m.billed().inv(),
        m.billed().peek(addr) == m.peek(addr),
{
    reveal(MmuModel::peek);
    reveal(MmuModel::billed);
    reveal(MmuModel::maybe_tick_timers);
    crate::timer::lemma_ticks_keep_inv(m.io.timer, 4);
}

/// A word written to plain memory reads back from there, both accesses
/// going well.
pub proof fn lemma_word_reads_back(m: MmuModel, addr: u16, value: u16)
    requires
        m.inv(),
        spec_is_plain_memory(addr),
        addr < 0xFFFF,
        spec_is_plain_memory((addr + 1) as u16),
    ensures
        m.write_word(addr, value).1 is Ok,
        m.write_word(addr, value).0.inv(),
        m.write_word(addr, value).0.read_word(addr).1 == Ok::<u16, Fault>(value),
{
    reveal(MmuModel::read);
    reveal(MmuModel::write);
    reveal(MmuModel::read_word);
    reveal(MmuModel::write_word);
    let low = (value % 256) as u8;
    let high = (value / 256) as u8;
    let next = (addr + 1) as u16;
    lemma_billing_keeps_plain_memory(m, addr);
    let m1 = m.billed();
    lemma_plain_memory_reads_back(m1, addr, low, next);
    let m2 = m1.poke(addr, low).unwrap();
    lemma_billing_keeps_plain_memory(m2, addr);
    lemma_billing_keeps_plain_memory(m2, next);
    let m3 = m2.billed();
    lemma_plain_memory_reads_back(m3, next, high, addr);
    let m4 = m3.poke(next, high).unwrap();
    assert(m.write_word(addr, value) == (m4, Ok::<(), Fault>(())));
    lemma_billing_keeps_plain_memory(m4, addr);
    lemma_billing_keeps_plain_memory(m4, next);
    let m5 = m4.billed();
    lemma_billing_keeps_plain_memory(m5, addr);
    lemma_billing_keeps_plain_memory(m5, next);
}

} // verus!
