//! The whole machine, stepped one instruction at a time.

use vstd::prelude::*;
use crate::cartridge::{create_for_cartridge_type, CartridgeModel};
use crate::cpu::{CpuModel, TraceMode, CPU};
use crate::billing::{lemma_step_bills_at_most_its_cost, spec_billed};
use crate::frame_latch::lemma_step_keeps_latch;
use crate::fault::Fault;
use crate::framebuffer::{FrameBuffer, FrameModel};
use crate::header::{
    spec_cartridge_type, spec_cgb_flag, spec_header_error, spec_sgb_flag, CartridgeType, FlagCGB,
    FlagSGB, Header, HeaderError,
};
use crate::joypad_events::{JoypadButton, JoypadEvent};
use crate::mmu::{InterruptSource, IoModel, MmuModel, Notice};
use crate::reference::ReferenceMetadata;
use crate::serial::SerialModel;
use crate::video::{lemma_frame_takes_70224_dots, VideoInterrupt};

verus! {

/// Why a cartridge image cannot be run.
#[derive(Debug, Clone, Copy, PartialEq, Eq, Structural)]
pub enum SetupError {
    /// The image has no well-formed header.
    Header(HeaderError),
    /// The cartridge needs the colour model.
    RequiresCgb,
    /// The cartridge asks for the functions of the television adapter.
    SgbUnsupported,
    /// The cartridge holds a controller that this core does not have.
    UnsupportedCartridge(CartridgeType),
}

/// Why the image `rom` cannot be run, if it cannot: the first of the checks
/// that fails.
pub open spec fn spec_setup_error(rom: Seq<u8>) -> Option<SetupError> {
    match spec_header_error(rom) {
        Some(e) => Some(SetupError::Header(e)),
        None => {
            let cartridge_type = spec_cartridge_type(rom[0x0147]).unwrap();
            if spec_cgb_flag(rom[0x0143]) != FlagCGB::WorksWithOld {
                Some(SetupError::RequiresCgb)
            } else if spec_sgb_flag(rom[0x0146]) != Some(FlagSGB::NoSGB) {
                Some(SetupError::SgbUnsupported)
            } else if CartridgeModel::fresh(cartridge_type, rom) is None {
                Some(SetupError::UnsupportedCartridge(cartridge_type))
            } else {
                None
            }
        },
    }
}

pub open spec fn spec_interrupt_of(interrupt: VideoInterrupt) -> InterruptSource {
    match interrupt {
        VideoInterrupt::Stat => InterruptSource::Lcd,
        VideoInterrupt::VBlank => InterruptSource::VBlank,
    }
}

/// The bus after the first `upto` of `interrupts` are flagged.
pub open spec fn spec_flag_video_interrupts(
    mmu: MmuModel,
    interrupts: Seq<VideoInterrupt>,
    upto: int,
) -> MmuModel
    decreases upto,
{
    if upto <= 0 {
        mmu
    } else {
        spec_flag_video_interrupts(mmu, interrupts, upto - 1).set_interrupt_flag(
            spec_interrupt_of(interrupts[upto - 1]),
            true,
        )
    }
}

/// The bus after the pixel processor has run for one dot and its interrupts
/// are flagged.
pub open spec fn spec_video_dot(mmu: MmuModel) -> MmuModel {
    let interrupts = mmu.video.tick_interrupts();
    spec_flag_video_interrupts(
        MmuModel { video: mmu.video.tick(), ..mmu },
        interrupts,
        interrupts.len() as int,
    )
}

/// The bus after the pixel processor has run for `dots` dots.
pub open spec fn spec_video_dots(mmu: MmuModel, dots: nat) -> MmuModel
    decreases dots,
{
    if dots == 0 {
        mmu
    } else {
        spec_video_dots(spec_video_dot(mmu), (dots - 1) as nat)
    }
}

/// The state of the machine and of the run.
pub struct GameboyModel {
    pub cpu: CpuModel,
    /// The steps taken so far.
    pub index: usize,
    /// The reference run to hold this one against, if there is one.
    pub reference: Option<Seq<ReferenceMetadata>>,
}

impl GameboyModel {
    /// Between two steps the machine is well-formed, holds no frame back
    /// and has no billed cycle left to settle: every step hands out the
    /// frame that it completes and settles what it billed.
    pub open spec fn inv(self) -> bool {
        &&& self.cpu.inv()
        &&& !self.cpu.mmu.video.is_frame_ready
        &&& self.cpu.mmu.consumed_read_write_cycles == 0
    }

    /// The machine before its first step, the image `rom` in its slot. With
    /// `skip_boot_rom` it starts where the start-up program would have left
    /// it, the start-up program unmapped.
    pub open spec fn fresh(
        rom: Seq<u8>,
        reference: Option<Seq<ReferenceMetadata>>,
        trace_mode: TraceMode,
        skip_boot_rom: bool,
    ) -> GameboyModel {
        let cartridge = CartridgeModel::fresh(spec_cartridge_type(rom[0x0147]).unwrap(), rom).unwrap();
        GameboyModel {
            cpu: if skip_boot_rom {
                let cpu = CpuModel::fresh_without_boot_rom(cartridge, trace_mode);
                CpuModel { mmu: cpu.mmu.disable_boot_rom(), ..cpu }
            } else {
                CpuModel::fresh(cartridge, trace_mode)
            },
            index: 0,
            reference,
        }
    }

    /// The entry of the reference run for the step about to be taken.
    pub open spec fn expected(self) -> Result<Option<u16>, Fault> {
        match self.reference {
            None => Ok(None),
            Some(reference) => if self.index >= reference.len() {
                Err(Fault::ReferenceExhausted { tick: self.index })
            } else {
                Ok(Some(reference[self.index as int].pc))
            },
        }
    }

    /// The bus after a step of `cycles` machine cycles: the pixel processor
    /// runs for as many dots, and the timer for the cycles that bus accesses
    /// have not already driven it for.
    pub open spec fn settle(mmu: MmuModel, cycles: u8) -> MmuModel {
        let after_video = spec_video_dots(mmu, cycles as nat);
        let (taken, consumed) = after_video.take_consumed_cycles();
        taken.maybe_tick_timers(
            if cycles >= consumed {
                (cycles - consumed) as u8
            } else {
                0
            },
        )
    }

    /// How many frames the pixel processor completes while it catches up
    /// with the next step of the processor: one or none.
    pub open spec fn frames_completed_by_step(self) -> nat {
        match self.expected() {
            Err(_) => 0,
            Ok(expected) => {
                let (cpu, r) = self.cpu.tick(expected, self.index);
                match r {
                    Err(_) => 0,
                    Ok(cycles) => cpu.mmu.video.frames_completed(cycles as nat),
                }
            },
        }
    }

    /// One step of the machine: a step of the processor, then the rest of
    /// the machine catches up. The result is the frame that the pixel
    /// processor holds ready after that, which the step takes from it. Where
    /// the processor's step ends in a fault, nothing catches up, and the
    /// cycles billed are dropped.
    pub open spec fn tick(self) -> (GameboyModel, Result<Option<FrameModel>, Fault>) {
        match self.expected() {
            Err(e) => (self, Err(e)),
            Ok(expected) => {
                let (cpu, r) = self.cpu.tick(expected, self.index);
                match r {
                    Err(e) => (
                        GameboyModel {
                            cpu: CpuModel { mmu: cpu.mmu.take_consumed_cycles().0, ..cpu },
                            ..self
                        },
                        Err(e),
                    ),
                    Ok(cycles) => {
                        let settled = GameboyModel::settle(cpu.mmu, cycles);
                        let (video, frame) = settled.video.try_take_frame();
                        (
                            GameboyModel {
                                cpu: CpuModel { mmu: MmuModel { video, ..settled }, ..cpu },
                                index: if self.index < usize::MAX {
                                    (self.index + 1) as usize
                                } else {
                                    self.index
                                },
                                ..self
                            },
                            Ok(frame),
                        )
                    },
                }
            },
        }
    }

    /// The machine after the host has reported that `button` went down
    /// (`pressed`) or came up.
    pub open spec fn joypad_event(self, button: JoypadButton, pressed: bool) -> GameboyModel {
        let event = JoypadEvent { is_down: pressed, button };
        GameboyModel {
            cpu: CpuModel {
                mmu: MmuModel {
                    io: IoModel {
                        joypad_input: self.cpu.mmu.io.joypad_input.spec_consume_platform_event(
                            event,
                        ),
                        ..self.cpu.mmu.io
                    },
                    ..self.cpu.mmu
                },
                ..self.cpu
            },
            ..self
        }
    }
}

pub struct Gameboy {
    cpu: CPU,
    index: usize,
    maybe_reference_metadata: Option<Vec<ReferenceMetadata>>,
}

impl View for Gameboy {
    type V = GameboyModel;

    closed spec fn view(&self) -> GameboyModel {
        GameboyModel {
            cpu: self.cpu@,
            index: self.index,
            reference: match self.maybe_reference_metadata {
                Some(reference) => Some(reference@),
                None => None,
            },
        }
    }
}

pub open spec fn spec_reference(reference: Option<Vec<ReferenceMetadata>>) -> Option<
    Seq<ReferenceMetadata>,
> {
    match reference {
        Some(reference) => Some(reference@),
        None => None,
    }
}

impl Gameboy {
    pub open spec fn wf(&self) -> bool {
        self@.inv()
    }

    /// Puts the cartridge image `rom_data` into a machine. The image is
    /// turned down if its header is not well-formed, if it needs the colour
    /// model or the television adapter, or if it holds a controller other
    /// than none and the first.
    #[verifier::rlimit(30)]
    pub fn new(
        rom_data: Vec<u8>,
        reference_metadata: Option<Vec<ReferenceMetadata>>,
        trace_mode: TraceMode,
        skip_boot_rom: bool,
    ) -> (r: Result<Self, SetupError>)
        ensures
            match r {
                Ok(gameboy) => {
                    &&& spec_setup_error(rom_data@) is None
                    &&& gameboy.wf()
                    &&& gameboy@ == GameboyModel::fresh(
                        rom_data@,
                        spec_reference(reference_metadata),
                        trace_mode,
                        skip_boot_rom,
                    )
                },
                Err(e) => spec_setup_error(rom_data@) == Some(e),
            },
    {
        let header = match Header::read_from_rom(&rom_data) {
            Ok(header) => header,
            Err(e) => {
                return Err(SetupError::Header(e));
            },
        };
        match header.cgb_flag {
            FlagCGB::WorksWithOld => {},
            FlagCGB::RequiresNew => {
                return Err(SetupError::RequiresCgb);
            },
        }
        match header.sgb_flag {
            FlagSGB::NoSGB => {},
            FlagSGB::SGB => {
                return Err(SetupError::SgbUnsupported);
            },
        }
        let cartridge = match create_for_cartridge_type(header.cartridge_type, rom_data) {
            Some(cartridge) => cartridge,
            None => {
                return Err(SetupError::UnsupportedCartridge(header.cartridge_type));
            },
        };
        Ok(
            Self {
                cpu: if skip_boot_rom {
                    let mut tmp = CPU::new_without_boot_rom(cartridge, trace_mode);
                    tmp.mmu().disable_boot_rom();
                    tmp
                } else {
                    CPU::new(cartridge, trace_mode)
                },
                index: 0,
                maybe_reference_metadata: reference_metadata,
            },
        )
    }

    /// Runs one step of the machine. A frame is handed out exactly when the
    /// step completed one.
    #[verifier::rlimit(60)]
    pub fn tick(&mut self) -> (r: Result<Option<&FrameBuffer>, Fault>)
        requires
            old(self).wf(),
        ensures
            final(self).wf(),
            final(self)@ == old(self)@.tick().0,
            match old(self)@.tick().1 {
                Ok(Some(frame)) => r matches Ok(Some(buffer)) && buffer@ == frame && buffer.wf(),
                Ok(None) => r matches Ok(None),
                Err(e) => r matches Err(fault) && fault == e,
            },
            r matches Ok(frame) ==> (frame is Some <==> old(self)@.frames_completed_by_step() > 0),
    {
        proof {
            match self@.expected() {
                Ok(expected) => {
                    lemma_step_keeps_latch(self@.cpu, expected, self.index);
                    lemma_step_bills_at_most_its_cost(self@.cpu, expected, self.index);
                },
                Err(_) => {},
            }
        }
        let stepped = match &self.maybe_reference_metadata {
            Some(reference_metadata) => {
                if self.index >= reference_metadata.len() {
                    return Err(Fault::ReferenceExhausted { tick: self.index });
                }
                self.cpu.tick(Some(&reference_metadata[self.index]), self.index)
            },
            None => self.cpu.tick(None, self.index),
        };
        let cycles = match stepped {
            Ok(cycles) => cycles,
            Err(fault) => {
                self.cpu.mmu().take_consumed_cycles();
                return Err(fault);
            },
        };
        proof {
            lemma_catch_up(self@.cpu.mmu, cycles);
            assert(spec_billed(old(self)@.cpu.mmu, self@.cpu.mmu)
                == self@.cpu.mmu.consumed_read_write_cycles);
            assert(self@.cpu.mmu.consumed_read_write_cycles <= cycles);
        }
        self.advance_video(cycles);
        let consumed_memory_cycles = self.cpu.mmu().take_consumed_cycles();
        // The step billed no more cycles than it took: the timer is owed
        // the rest.
        self.cpu.mmu().maybe_tick_timers(cycles - consumed_memory_cycles);

        if self.index < usize::MAX {
            self.index += 1;
        }
        Ok(self.cpu.mmu().video().try_take_frame())
    }

    /// Runs the pixel processor for `cycles` dots and flags the interrupts
    /// that it raises.
    #[verifier::rlimit(30)]
    fn advance_video(&mut self, cycles: u8)
        requires
            old(self)@.cpu.inv(),
        ensures
            final(self)@.cpu.inv(),
            final(self)@ == (GameboyModel {
                cpu: CpuModel {
                    mmu: spec_video_dots(old(self)@.cpu.mmu, cycles as nat),
                    ..old(self)@.cpu
                },
                ..old(self)@
            }),
    {
        let mut dot: u8 = 0;
        while dot < cycles
            invariant
                dot <= cycles,
                self@.cpu.inv(),
                self@ == (GameboyModel {
                    cpu: CpuModel { mmu: self@.cpu.mmu, ..old(self)@.cpu },
                    ..old(self)@
                }),
                spec_video_dots(old(self)@.cpu.mmu, cycles as nat) == spec_video_dots(
                    self@.cpu.mmu,
                    (cycles - dot) as nat,
                ),
            decreases cycles - dot,
        {
            let video_interrupts = self.cpu.mmu().video().tick();
            self.flag_video_interrupts(&video_interrupts);
            dot += 1;
        }
    }

    #[verifier::rlimit(30)]
    fn flag_video_interrupts(&mut self, video_interrupts: &Vec<VideoInterrupt>)
        requires
            old(self)@.cpu.inv(),
        ensures
            final(self)@.cpu.inv(),
            final(self)@ == (GameboyModel {
                cpu: CpuModel {
                    mmu: spec_flag_video_interrupts(
                        old(self)@.cpu.mmu,
                        video_interrupts@,
                        video_interrupts@.len() as int,
                    ),
                    ..old(self)@.cpu
                },
                ..old(self)@
            }),
    {
        let mut k: usize = 0;
        while k < video_interrupts.len()
            invariant
                k <= video_interrupts.len(),
                self@.cpu.inv(),
                self@ == (GameboyModel {
                    cpu: CpuModel {
                        mmu: spec_flag_video_interrupts(
                            old(self)@.cpu.mmu,
                            video_interrupts@,
                            k as int,
                        ),
                        ..old(self)@.cpu
                    },
                    ..old(self)@
                }),
            decreases video_interrupts.len() - k,
        {
            let interrupt_flag = match video_interrupts[k] {
                VideoInterrupt::Stat => InterruptSource::Lcd,
                VideoInterrupt::VBlank => InterruptSource::VBlank,
            };
            self.cpu.mmu().set_interrupt_flag(interrupt_flag, true);
            k += 1;
        }
    }

    /// The processor, for a host that wants to look into the machine.
    pub fn cpu(&mut self) -> (r: &mut CPU)
        ensures
            r@ == old(self)@.cpu,
            final(self)@ == (GameboyModel { cpu: final(r)@, ..old(self)@ }),
    {
        &mut self.cpu
    }

    /// Takes in a button change from the host.
    pub fn joypad_event(&mut self, button: JoypadButton, pressed: bool)
        requires
            old(self).wf(),
        ensures
            final(self).wf(),
            final(self)@ == old(self)@.joypad_event(button, pressed),
    {
        let event = if pressed {
            JoypadEvent::new_down(button)
        } else {
            JoypadEvent::new_up(button)
        };
        self.cpu.mmu().joypad().consume_platform_event(event);
    }

    /// Hands the host what the bus let pass since the last call and did not
    /// stop for, oldest first.
    pub fn take_notices(&mut self) -> (r: Vec<Notice>)
        requires
            old(self).wf(),
        ensures
            final(self).wf(),
            r@ == old(self)@.cpu.mmu.notices,
            final(self)@ == (GameboyModel {
                cpu: CpuModel { mmu: old(self)@.cpu.mmu.take_notices().0, ..old(self)@.cpu },
                ..old(self)@
            }),
    {
        self.cpu.mmu().take_notices()
    }

    /// Hands the host the bytes that the program sent over the serial port
    /// since the last call.
    pub fn take_serial_output(&mut self) -> (r: Vec<u8>)
        requires
            old(self).wf(),
        ensures
            final(self).wf(),
            r@ == old(self)@.cpu.mmu.io.serial.sent,
            final(self)@ == (GameboyModel {
                cpu: CpuModel {
                    mmu: MmuModel {
                        io: IoModel {
                            serial: SerialModel {
                                sent: Seq::empty(),
                                ..old(self)@.cpu.mmu.io.serial
                            },
                            ..old(self)@.cpu.mmu.io
                        },
                        ..old(self)@.cpu.mmu
                    },
                    ..old(self)@.cpu
                },
                ..old(self)@
            }),
    {
        self.cpu.mmu().take_serial_output()
    }
}

/// Flagging interrupts changes the flag byte and nothing else.
pub proof fn lemma_flagging_keeps_the_rest(
    mmu: MmuModel,
    interrupts: Seq<VideoInterrupt>,
    upto: int,
)
    ensures
        spec_flag_video_interrupts(mmu, interrupts, upto) == (MmuModel {
            interrupt_flags: spec_flag_video_interrupts(mmu, interrupts, upto).interrupt_flags,
            ..mmu
        }),
    decreases upto,
{
    if upto > 0 {
        lemma_flagging_keeps_the_rest(mmu, interrupts, upto - 1);
    }
}

/// While the machine catches up with a step of the processor, the pixel
/// processor runs for exactly as many dots as the step took cycles, and
/// nothing on the bus changes but the pixel processor and the flag byte.
pub proof fn lemma_video_runs_for_the_cycles(mmu: MmuModel, dots: nat)
    ensures
        spec_video_dots(mmu, dots) == (MmuModel {
            video: mmu.video.ticks(dots),
            interrupt_flags: spec_video_dots(mmu, dots).interrupt_flags,
            ..mmu
        }),
    decreases dots,
{
    if dots > 0 {
        let interrupts = mmu.video.tick_interrupts();
        lemma_flagging_keeps_the_rest(
            MmuModel { video: mmu.video.tick(), ..mmu },
            interrupts,
            interrupts.len() as int,
        );
        lemma_video_runs_for_the_cycles(spec_video_dot(mmu), (dots - 1) as nat);
    }
}

/// What catching up with a step of `cycles` cycles comes to, from a bus that
/// is well-formed and holds no frame back: the pixel processor has run for
/// `cycles` dots, a frame is ready exactly if one of those dots completed
/// one, and the count of billed cycles stands at zero.
pub proof fn lemma_catch_up(mmu: MmuModel, cycles: u8)
    requires
        mmu.inv(),
        !mmu.video.is_frame_ready,
    ensures
        ({
            let settled = GameboyModel::settle(mmu, cycles);
            &&& settled.video == mmu.video.ticks(cycles as nat)
            &&& settled.video.is_frame_ready == (mmu.video.frames_completed(cycles as nat) > 0)
            &&& settled.consumed_read_write_cycles == 0
            &&& mmu.video.frames_completed(cycles as nat) <= 1
            &&& spec_video_dots(mmu, cycles as nat).consumed_read_write_cycles
                == mmu.consumed_read_write_cycles
            &&& settled.io.timer == mmu.io.timer.spec_maybe_tick_cycles(
                if cycles >= mmu.consumed_read_write_cycles {
                    (cycles - mmu.consumed_read_write_cycles) as u8
                } else {
                    0
                },
            ).0
        }),
{
    reveal(MmuModel::maybe_tick_timers);
    lemma_video_runs_for_the_cycles(mmu, cycles as nat);
    lemma_frame_takes_70224_dots(mmu.video, cycles as nat);
}

/// The timer is owed what a step took less what the bus already billed,
/// and that is never less than nothing: from a machine between two steps,
/// the processor's step bills no more cycles than it reports.
pub proof fn lemma_timer_is_owed_the_rest(g: GameboyModel)
    requires
        g.inv(),
    ensures
        g.expected() matches Ok(expected) ==> ({
            let (cpu, r) = g.cpu.tick(expected, g.index);
            r matches Ok(cycles) ==> cpu.mmu.consumed_read_write_cycles <= cycles
        }),
{
    match g.expected() {
        Ok(expected) => {
            lemma_step_bills_at_most_its_cost(g.cpu, expected, g.index);
            let after = g.cpu.tick(expected, g.index).0;
            assert(spec_billed(g.cpu.mmu, after.mmu) == after.mmu.consumed_read_write_cycles);
        },
        Err(_) => {},
    }
}

} // verus!
