//! The whole machine: the processor, the pixel pipeline and the bus that
//! they share, run frame by frame.

use vstd::prelude::*;
use crate::cartridge::Cartridge;
use crate::cpu::{Cpu, CpuState};
use crate::debug::{DebugCtx, DebugFlags, DebugView};
use crate::errors::{CpuError, CpuErrorView, EmulatorError};
use crate::frame_buffer::FrameBuffer;
use crate::lcd::{lcd_address, LCDRegister};
use crate::memory::{Bus, DMGBus, DmgState, RawBus, DIV};
use crate::ppu::{initial_state, Palette, Ppu, PpuState};
use crate::test_data::{StateView, TestData};

verus! {

/// The clock cycles of the processor in a second.
pub const CPU_FREQ: usize = 4_194_304;

/// The steps of the divider register in a second.
pub const DIV_FREQ: usize = 16_384;

/// The clock cycles of a frame: 154 scanlines of 456 cycles.
pub const MAX_CYCLES_PER_FRAME: usize = 70_224;

/// The clock cycles between two steps of the divider register: 256.
pub const DIV_UPDATE_FREQ: usize = CPU_FREQ / DIV_FREQ;

/// The frames that are counted before the count starts again.
pub const FRAMES_PER_SECOND: usize = 60;

/// The shades of grey that the emulator starts with.
pub const GRAY_PALETTE: Palette = (0xFFFFFF, 0xa9a9a9, 0x545454, 0x000000);

/// The state of the machine.
pub struct SystemState<M> {
    pub cpu: CpuState,
    pub ppu: PpuState,
    pub mem: M,
    pub debug: DebugView,
    /// The clock cycles since the last step of the divider register.
    pub timer_cycles: usize,
    /// The frames since the count of frames last started again.
    pub frames: usize,
    pub running: bool,
}

/// The memory after the given cells were written, one after the other.
pub open spec fn written<B: Bus>(mem: B::V, cells: Seq<(u16, u8)>) -> B::V
    decreases cells.len(),
{
    if cells.len() == 0 {
        mem
    } else {
        B::poke(written::<B>(mem, cells.drop_last()), cells.last().0, cells.last().1)
    }
}

/// Whether the registers, the stack pointer and the program counter are
/// the recorded ones.
pub open spec fn registers_match(cpu: CpuState, expected: StateView) -> bool {
    CpuState { ime: false, ..cpu } == expected.cpu()
}

/// Whether every recorded cell holds its recorded byte. The divider
/// register is not looked at.
pub open spec fn memory_matches<B: Bus>(mem: B::V, cells: Seq<(u16, u8)>) -> bool {
    forall|i: int|
        0 <= i < cells.len() && (#[trigger] cells[i]).0 != DIV ==> B::peek(mem, cells[i].0)
            == cells[i].1
}

/// The timer after `cycles` clock cycles: once 256 cycles have gathered,
/// the divider register goes up by one, and the gathering starts again.
pub open spec fn timed<B: Bus>(timer_cycles: usize, mem: B::V, cycles: usize) -> (usize, B::V) {
    if timer_cycles + cycles >= DIV_UPDATE_FREQ {
        (0, B::divider_stepped(mem))
    } else {
        ((timer_cycles + cycles) as usize, mem)
    }
}

/// One instruction of the machine and what it returns. The instruction
/// is logged, if its opcode byte is one; then the processor runs it; then
/// the timer and then the pixel pipeline run for the cycles that it
/// cost. A failure of the processor changes nothing but the log.
#[verifier::opaque]
pub open spec fn system_stepped<B: Bus>(system: SystemState<B::V>) -> (
    Result<usize, CpuErrorView>,
    SystemState<B::V>,
) {
    let (code, _) = system.cpu.next_code::<B>(system.mem);
    let logged = SystemState {
        debug: match system.cpu.next_entry::<B>(system.mem) {
            Some(opcode) => system.debug.logged(system.cpu.pc, code, opcode.mnemonic),
            None => system.debug,
        },
        ..system
    };
    let (result, cpu, mem) = system.cpu.stepped::<B>(system.mem);
    match result {
        Ok(cycles) => {
            let (timer_cycles, mem) = timed::<B>(system.timer_cycles, mem, cycles);
            let (ppu, mem) = system.ppu.updated::<B>(mem, cycles as nat);
            (result, SystemState { cpu, ppu, mem, timer_cycles, ..logged })
        },
        Err(_) => (result, logged),
    }
}

/// The rest of a frame of which `used` clock cycles have passed:
/// instructions run until the cycles of a frame have passed or one of
/// them fails.
pub open spec fn frame_ran<B: Bus>(system: SystemState<B::V>, used: nat) -> (
    Result<(), CpuErrorView>,
    SystemState<B::V>,
)
    decreases
            (if used < MAX_CYCLES_PER_FRAME {
                MAX_CYCLES_PER_FRAME - used
            } else {
                0
            }),
{
    if used >= MAX_CYCLES_PER_FRAME {
        (Ok(()), system)
    } else {
        match system_stepped::<B>(system) {
            (Ok(cycles), next) => if cycles > 0 {
                frame_ran::<B>(next, used + cycles as nat)
            } else {
                (Ok(()), next)
            },
            (Err(e), next) => (Err(e), next),
        }
    }
}

/// One frame: the frame is counted, the count starting again after 60,
/// and instructions run for the cycles of a frame.
pub open spec fn system_ticked<B: Bus>(system: SystemState<B::V>) -> (
    Result<(), CpuErrorView>,
    SystemState<B::V>,
) {
    frame_ran::<B>(
        SystemState {
            frames: if system.frames + 1 >= FRAMES_PER_SECOND {
                0
            } else {
                (system.frames + 1) as usize
            },
            ..system
        },
        0,
    )
}

/// The state before a recorded test: the recorded registers, and the
/// cleared memory with the recorded cells written in their order.
pub open spec fn test_loaded<B: Bus>(system: SystemState<B::V>, initial: StateView) -> SystemState<
    B::V,
> {
    SystemState {
        cpu: CpuState { ime: system.cpu.ime, ..initial.cpu() },
        mem: written::<B>(B::cleared(system.mem), initial.ram),
        ..system
    }
}

/// A recorded test: the state before it is loaded and one instruction
/// runs on the processor alone. The test passes where the registers and
/// the recorded cells are then the recorded ones.
pub open spec fn test_ran<B: Bus>(
    system: SystemState<B::V>,
    initial: StateView,
    expected: StateView,
) -> (Result<bool, CpuErrorView>, SystemState<B::V>) {
    let loaded = test_loaded::<B>(system, initial);
    let (result, cpu, mem) = loaded.cpu.stepped::<B>(loaded.mem);
    (
        match result {
            Ok(_) => Ok(registers_match(cpu, expected) && memory_matches::<B>(mem, expected.ram)),
            Err(e) => Err(e),
        },
        SystemState { cpu, mem, ..loaded },
    )
}

/// The machine.
pub struct Emulator<B: Bus> {
    cpu: Cpu,
    ppu: Ppu,
    memory: B,
    pub debug_ctx: DebugCtx,
    timer_cycles: usize,
    frames: usize,
    running: bool,
}

impl<B: Bus> View for Emulator<B> {
    type V = SystemState<B::V>;

    closed spec fn view(&self) -> SystemState<B::V> {
        SystemState {
            cpu: self.cpu@,
            ppu: self.ppu@,
            mem: self.memory@,
            debug: self.debug_ctx@,
            timer_cycles: self.timer_cycles,
            frames: self.frames,
            running: self.running,
        }
    }
}

/// The state of a machine that has not run yet.
pub open spec fn initial_system<M>(mem: M) -> SystemState<M> {
    SystemState {
        cpu: CpuState { reg: crate::registers::Registers::zeroed(), sp: 0, pc: 0, ime: false },
        ppu: initial_state(GRAY_PALETTE),
        mem,
        debug: DebugView {
            active: false,
            flags: Seq::empty(),
            palette: GRAY_PALETTE,
            call_log: Seq::empty(),
        },
        timer_cycles: 0,
        frames: 0,
        running: false,
    }
}

impl Emulator<DMGBus> {
    /// A machine on the console's bus with the given boot ROM, without a
    /// cartridge. Scanline 0 is written to LY.
    pub fn new(boot_rom: Vec<u8>) -> (emulator: Emulator<DMGBus>)
        ensures
            emulator.wf(),
            emulator@ == initial_system(
                DmgState::fresh(boot_rom@).write(lcd_address(LCDRegister::Ly), 0),
            ),
    {
        let mut memory_bus = DMGBus::new(boot_rom);
        let palette: Palette = GRAY_PALETTE;
        let ppu = Ppu::new(&mut memory_bus, palette);
        Emulator {
            cpu: Cpu::new(),
            ppu,
            memory: memory_bus,
            debug_ctx: DebugCtx::new(Vec::new(), palette),
            timer_cycles: 0,
            frames: 0,
            running: false,
        }
    }
}

impl Emulator<RawBus> {
    /// A machine on a flat bus that holds 0 everywhere, LY included.
    pub fn new() -> (emulator: Emulator<RawBus>)
        ensures
            emulator.wf(),
            emulator@ == initial_system(crate::memory::flat(0)),
    {
        let mut memory_bus = RawBus::new();
        let palette: Palette = GRAY_PALETTE;
        let ppu = Ppu::new(&mut memory_bus, palette);
        assert(memory_bus@ =~= crate::memory::flat(0));
        Emulator {
            cpu: Cpu::new(),
            ppu,
            memory: memory_bus,
            debug_ctx: DebugCtx::new(Vec::new(), palette),
            timer_cycles: 0,
            frames: 0,
            running: false,
        }
    }
}

impl<B: Bus> Emulator<B> {
    /// The pixel pipeline is well-formed, the timer has gathered fewer
    /// cycles than a step of the divider takes, and fewer than 60 frames
    /// are counted.
    pub closed spec fn wf(&self) -> bool {
        &&& self.ppu.wf()
        &&& self.timer_cycles < DIV_UPDATE_FREQ
        &&& self.frames < FRAMES_PER_SECOND
    }

    pub fn with_debug_flags(self, debug_flags: Vec<DebugFlags>) -> (emulator: Emulator<B>)
        ensures
            emulator@ == (SystemState {
                debug: DebugView { flags: debug_flags@, ..self@.debug },
                ..self@
            }),
            self.wf() ==> emulator.wf(),
    {
        let mut emulator = self;
        emulator.debug_ctx.set_flags(debug_flags);
        emulator
    }

    pub fn with_palette(self, palette: Palette) -> (emulator: Emulator<B>)
        ensures
            emulator@ == (SystemState {
                debug: DebugView { palette, ..self@.debug },
                ppu: PpuState { palette, ..self@.ppu },
                ..self@
            }),
            self.wf() ==> emulator.wf(),
    {
        let mut emulator = self;
        emulator.debug_ctx.set_palette(palette);
        emulator.ppu.set_palette(palette);
        emulator
    }

    /// Inserts a cartridge, unless it is made for another console.
    pub fn load_rom(&mut self, rom: Cartridge) -> (result: Result<(), EmulatorError>)
        ensures
            old(self).wf() ==> final(self).wf(),
            rom@.gb_compatible ==> result is Ok && final(self)@ == (SystemState {
                mem: B::with_cartridge(old(self)@.mem, rom@),
                ..old(self)@
            }),
            !rom@.gb_compatible ==> result == Err::<(), EmulatorError>(
                EmulatorError::IncompatibleRom,
            ) && final(self)@ == old(self)@,
    {
        if rom.gb_compatible() {
            self.memory.load_cartridge(rom);
            Ok(())
        } else {
            Err(EmulatorError::IncompatibleRom)
        }
    }

    pub fn with_rom(self, rom: Cartridge) -> (result: Result<Emulator<B>, EmulatorError>)
        ensures
            match result {
                Ok(emulator) => {
                    &&& rom@.gb_compatible
                    &&& emulator@ == (SystemState {
                        mem: B::with_cartridge(self@.mem, rom@),
                        ..self@
                    })
                    &&& self.wf() ==> emulator.wf()
                },
                Err(e) => !rom@.gb_compatible && e == EmulatorError::IncompatibleRom,
            },
    {
        let mut emulator = self;
        match emulator.load_rom(rom) {
            Ok(()) => Ok(emulator),
            Err(e) => Err(e),
        }
    }

    /// Lets the timer run for the cycles of an instruction.
    pub fn update_timers(&mut self, cycles: usize)
        requires
            old(self).wf(),
            cycles <= usize::MAX - DIV_UPDATE_FREQ,
        ensures
            final(self).wf(),
            final(self)@ == ({
                let (timer_cycles, mem) = timed::<B>(
                    old(self)@.timer_cycles,
                    old(self)@.mem,
                    cycles,
                );
                SystemState { timer_cycles, mem, ..old(self)@ }
            }),
    {
        self.timer_cycles += cycles;
        if self.timer_cycles >= DIV_UPDATE_FREQ {
            self.memory.step_divider();
            self.timer_cycles = 0;
        }
    }

    /// Runs one instruction, and the timer and the pixel pipeline for the
    /// cycles that it cost.
    #[verifier::rlimit(60)]
    pub fn step(&mut self) -> (result: Result<usize, CpuError>)
        requires
            old(self).wf(),
        ensures
            final(self).wf(),
            (crate::cpu::step::step_result_view(result), final(self)@) == system_stepped::<B>(
                old(self)@,
            ),
            result matches Ok(cycles) ==> 4 <= cycles <= 24,
            result matches Err(e) ==> !(e is OpcodeError),
    {
        reveal(system_stepped);
        let pc = self.cpu.state().pc;
        let (code, _, entry) = self.cpu.next_opcode(&self.memory);
        match entry {
            Some(opcode) => self.debug_ctx.push_call_log(pc, code, opcode.mnemonic.as_str()),
            None => (),
        }
        let cycles = self.cpu.execute_next_opcode(&mut self.memory)?;
        self.update_timers(cycles);
        self.ppu.update_graphics(&mut self.memory, cycles);
        Ok(cycles)
    }

    /// Runs the machine for one frame and hands out the frame that the
    /// pixel pipeline has drawn. A failure of the processor ends the
    /// frame at once.
    #[verifier::rlimit(60)]
    pub fn tick(&mut self) -> (result: Result<&FrameBuffer, CpuError>)
        requires
            old(self).wf(),
        ensures
            final(self).wf(),
            (match result {
                Ok(_) => Ok(()),
                Err(e) => Err(e@),
            }, final(self)@) == system_ticked::<B>(old(self)@),
            result matches Ok(frame) ==> frame@.pixels == final(self)@.ppu.frame,
            result matches Err(e) ==> !(e is OpcodeError),
    {
        self.frames += 1;
        if self.frames >= FRAMES_PER_SECOND {
            self.frames = 0;
        }
        let mut cycles_this_frame: usize = 0;
        while cycles_this_frame < MAX_CYCLES_PER_FRAME
            invariant
                self.wf(),
                frame_ran::<B>(self@, cycles_this_frame as nat) == system_ticked::<B>(old(self)@),
            decreases
                    (if cycles_this_frame < MAX_CYCLES_PER_FRAME {
                        MAX_CYCLES_PER_FRAME - cycles_this_frame
                    } else {
                        0
                    }),
        {
            let cycles = self.step()?;
            cycles_this_frame += cycles;
        }
        Ok(self.ppu.get_frame())
    }

    /// Puts the machine into the state before a recorded test: the
    /// registers are set, the memory is cleared and the recorded cells
    /// are written in their order.
    #[verifier::rlimit(60)]
    pub fn load_state(&mut self, test: &TestData)
        ensures
            old(self).wf() ==> final(self).wf(),
            final(self)@ == test_loaded::<B>(old(self)@, test.initial@),
    {
        self.cpu.load_state(&test.initial);
        self.memory.clear();
        let ghost cleared = self.memory@;
        let mut i: usize = 0;
        while i < test.initial.ram.len()
            invariant
                i <= test.initial.ram@.len(),
                self.memory@ == written::<B>(cleared, test.initial.ram@.subrange(0, i as int)),
                self.ppu == old(self).ppu,
                self.debug_ctx == old(self).debug_ctx,
                self.timer_cycles == old(self).timer_cycles,
                self.frames == old(self).frames,
                self.running == old(self).running,
                self.cpu@ == (CpuState { ime: old(self)@.cpu.ime, ..test.initial@.cpu() }),
            decreases test.initial.ram@.len() - i,
        {
            let (addr, value) = test.initial.ram[i];
            self.memory.write_u8(addr, value);
            i = i + 1;
            assert(test.initial.ram@.subrange(0, i as int).drop_last()
                =~= test.initial.ram@.subrange(0, i - 1));
        }
        assert(test.initial.ram@.subrange(0, i as int) =~= test.initial.ram@);
    }

    /// Whether the machine is in the state after a recorded test.
    #[verifier::rlimit(60)]
    pub fn check_state(&self, test: &TestData) -> (equal: bool)
        ensures
            equal == (registers_match(self@.cpu, test.final_name@) && memory_matches::<B>(
                self@.mem,
                test.final_name@.ram,
            )),
    {
        let (a, b, c, d, e, f, h, l, sp, pc) = self.cpu.get_state();
        let equal = a == test.final_name.a && b == test.final_name.b && c == test.final_name.c && d
            == test.final_name.d && e == test.final_name.e && f == test.final_name.f && h
            == test.final_name.h && l == test.final_name.l && sp == test.final_name.sp && pc
            == test.final_name.pc;
        let mut i: usize = 0;
        while i < test.final_name.ram.len()
            invariant
                i <= test.final_name.ram@.len(),
                memory_matches::<B>(self.memory@, test.final_name.ram@.subrange(0, i as int)),
            decreases test.final_name.ram@.len() - i,
        {
            let (addr, correct_value) = test.final_name.ram[i];
            let mem_value = self.memory.read_u8(addr);
            if mem_value != correct_value && addr != DIV {
                assert(test.final_name.ram@[i as int].0 != DIV);
                return false;
            }
            i = i + 1;
            assert forall|k: int|
                0 <= k < i && (#[trigger] test.final_name.ram@.subrange(0, i as int)[k]).0
                    != DIV implies B::peek(
                self.memory@,
                test.final_name.ram@.subrange(0, i as int)[k].0,
            ) == test.final_name.ram@.subrange(0, i as int)[k].1 by {
                if k < i - 1 {
                    assert(test.final_name.ram@.subrange(0, i - 1)[k]
                        == test.final_name.ram@.subrange(0, i as int)[k]);
                }
            }
        }
        assert(test.final_name.ram@.subrange(0, i as int) =~= test.final_name.ram@);
        equal
    }

    /// Runs a recorded test: the state before it is loaded, one
    /// instruction runs, and the state is held against the state after
    /// it. A failure of the processor is handed on.
    pub fn run_test(&mut self, test: &TestData) -> (result: Result<bool, CpuError>)
        ensures
            old(self).wf() ==> final(self).wf(),
            (match result {
                Ok(passed) => Ok(passed),
                Err(e) => Err(e@),
            }, final(self)@) == test_ran::<B>(old(self)@, test.initial@, test.final_name@),
            result matches Err(e) ==> !(e is OpcodeError),
    {
        self.load_state(test);
        self.cpu.execute_next_opcode(&mut self.memory)?;
        Ok(self.check_state(test))
    }

    /// The processor state.
    pub fn cpu_state(&self) -> (state: CpuState)
        ensures
            state == self@.cpu,
    {
        self.cpu.state()
    }

    /// The bus.
    pub fn memory(&self) -> (memory: &B)
        ensures
            memory@ == self@.mem,
    {
        &self.memory
    }

    /// The frame as it stands.
    pub fn get_frame(&self) -> (frame: &FrameBuffer)
        ensures
            frame@.pixels == self@.ppu.frame,
    {
        self.ppu.get_frame()
    }
}

} // verus!
