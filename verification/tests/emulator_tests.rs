use gb_emulator::cartridge::Cartridge;
use gb_emulator::cpu::{Cpu, CpuState};
use gb_emulator::debug::{DebugCtx, DebugFlags};
use gb_emulator::emulator::Emulator;
use gb_emulator::errors::{CpuError, EmulatorError};
use gb_emulator::lcd::LCDRegister;
use gb_emulator::memory::{Bus, DMGBus, RawBus};
use gb_emulator::registers::Registers;
use gb_emulator::test_data::{State, TestData};

fn state(a: u8, f: u8, pc: u16, sp: u16, ram: Vec<(u16, u8)>) -> State {
    State { a, b: 0, c: 0, d: 0, e: 0, f, h: 0, l: 0, pc, sp, ram }
}

fn image(color_flag: u8) -> Vec<u8> {
    let mut raw = vec![0u8; 0x8000];
    raw[0x143] = color_flag;
    raw
}

#[test]
fn boot_rom_sets_up_the_stack_and_clears_the_accumulator() {
    let mut boot = vec![0u8; 256];
    boot[..7].copy_from_slice(&[0x31, 0xFE, 0xFF, 0xAF, 0x21, 0xFF, 0x9F]);
    let mut emulator = Emulator::<DMGBus>::new(boot);
    assert_eq!(
        emulator.cpu_state(),
        CpuState { reg: Registers::new(), sp: 0, pc: 0, ime: false }
    );
    assert_eq!(emulator.step(), Ok(12));
    assert_eq!(emulator.cpu_state().sp, 0xFFFE);
    assert_eq!(emulator.cpu_state().pc, 3);
    assert_eq!(emulator.step(), Ok(4));
    assert_eq!(emulator.cpu_state().reg.a, 0x00);
    assert_eq!(emulator.cpu_state().reg.f, 0x80);
    assert_eq!(emulator.cpu_state().pc, 4);
    assert_eq!(emulator.step(), Ok(12));
    assert_eq!(emulator.cpu_state().reg.hl(), 0x9FFF);
    assert_eq!(emulator.cpu_state().sp, 0xFFFE);
    assert_eq!(emulator.cpu_state().reg.a, 0x00);
    assert_eq!(emulator.cpu_state().pc, 7);
}

#[test]
fn a_frame_of_nops_runs_for_the_cycles_of_a_frame() {
    let mut emulator = Emulator::<RawBus>::new();
    assert!(emulator.tick().is_ok());
    assert_eq!(emulator.cpu_state().pc, (70224 / 4) as u16);
    assert_eq!(emulator.memory().read_u8(0xFF04), ((70224 / 256) % 256) as u8);
    assert_eq!(emulator.memory().read_u8(0xFF44), 0);
}

#[test]
fn a_frame_with_the_display_on_draws_every_scanline() {
    let mut emulator = Emulator::<RawBus>::new();
    let test = TestData {
        name: "display on".to_string(),
        initial: state(0, 0, 0, 0, vec![(0xFF40, 0x91), (0x8000, 0xFF), (0x8001, 0xFF)]),
        final_name: state(0, 0, 0, 0, vec![]),
    };
    emulator.load_state(&test);
    let white = 0xFFFFFFu32;
    let black = 0x000000u32;
    {
        let frame = emulator.tick().unwrap();
        assert_eq!(frame.pixels().len(), 160 * 144);
        for y in 0..144 {
            for x in 0..160 {
                let expected = if y % 8 == 0 { black } else { white };
                assert_eq!(frame.pixels()[y * 160 + x], expected);
            }
        }
    }
    assert_eq!(emulator.memory().read_u8(0xFF44), 0);
    assert_eq!(emulator.get_frame().pixels()[0], black);
}

#[test]
fn a_failing_instruction_ends_the_frame() {
    let mut emulator = Emulator::<RawBus>::new();
    let test = TestData {
        name: "bad".to_string(),
        initial: state(1, 0, 0x0100, 0xFFFE, vec![(0x0102, 0xDD)]),
        final_name: state(0, 0, 0, 0, vec![]),
    };
    emulator.load_state(&test);
    assert_eq!(emulator.tick().err(), Some(CpuError::UnrecognizedOpcode(0xDD, false)));
    assert_eq!(emulator.cpu_state().pc, 0x0102);
    assert_eq!(emulator.step(), Err(CpuError::UnrecognizedOpcode(0xDD, false)));
    assert_eq!(emulator.cpu_state().pc, 0x0102);
}

#[test]
fn the_divider_steps_every_256_cycles() {
    let mut emulator = Emulator::<RawBus>::new();
    for _ in 0..63 {
        emulator.update_timers(4);
    }
    assert_eq!(emulator.memory().read_u8(0xFF04), 0);
    emulator.update_timers(4);
    assert_eq!(emulator.memory().read_u8(0xFF04), 1);
    for _ in 0..64 {
        emulator.update_timers(4);
    }
    assert_eq!(emulator.memory().read_u8(0xFF04), 2);
}

#[test]
fn the_divider_counts_on_the_console_bus() {
    let mut emulator = Emulator::<DMGBus>::new(Vec::new());
    assert_eq!(emulator.memory().read_u8(0xFF04), 0xFF);
    for _ in 0..64 {
        emulator.update_timers(4);
    }
    assert_eq!(emulator.memory().read_u8(0xFF04), 0x00);
    for _ in 0..128 {
        emulator.update_timers(4);
    }
    assert_eq!(emulator.memory().read_u8(0xFF04), 0x02);
    let mut bus = DMGBus::new(Vec::new());
    bus.write_u8(0xFF04, 0x55);
    assert_eq!(bus.read_u8(0xFF04), 0x00);
    bus.step_divider();
    bus.step_divider();
    assert_eq!(bus.read_u8(0xFF04), 0x02);
    bus.write_u8(0xFF04, 0x55);
    assert_eq!(bus.read_u8(0xFF04), 0x00);
    let mut flat = RawBus::new();
    flat.write_u8(0xFF04, 0xFF);
    flat.step_divider();
    assert_eq!(flat.read_u8(0xFF04), 0x00);
}

#[test]
fn recorded_tests_are_loaded_run_and_checked() {
    let mut emulator = Emulator::<RawBus>::new();
    let passing = TestData {
        name: "3c".to_string(),
        initial: state(0x0F, 0x10, 0x0200, 0x1000, vec![(0x0200, 0x3C), (0x4000, 0x12)]),
        final_name: state(0x10, 0x30, 0x0201, 0x1000, vec![(0x0200, 0x3C), (0x4000, 0x12)]),
    };
    assert_eq!(emulator.run_test(&passing), Ok(true));
    assert!(emulator.check_state(&passing));
    assert_eq!(emulator.memory().read_u8(0x4000), 0x12);
    let wrong_register = TestData {
        name: "3c".to_string(),
        initial: state(0x0F, 0x10, 0x0200, 0x1000, vec![(0x0200, 0x3C)]),
        final_name: state(0x11, 0x30, 0x0201, 0x1000, vec![(0x0200, 0x3C)]),
    };
    assert_eq!(emulator.run_test(&wrong_register), Ok(false));
    assert_eq!(emulator.memory().read_u8(0x4000), 0x00);
    let wrong_memory = TestData {
        name: "3c".to_string(),
        initial: state(0x0F, 0x10, 0x0200, 0x1000, vec![(0x0200, 0x3C)]),
        final_name: state(0x10, 0x30, 0x0201, 0x1000, vec![(0x0200, 0x3C), (0x5000, 0x01)]),
    };
    assert_eq!(emulator.run_test(&wrong_memory), Ok(false));
    let divider_ignored = TestData {
        name: "3c".to_string(),
        initial: state(0x0F, 0x10, 0x0200, 0x1000, vec![(0x0200, 0x3C)]),
        final_name: state(0x10, 0x30, 0x0201, 0x1000, vec![(0xFF04, 0x55)]),
    };
    assert_eq!(emulator.run_test(&divider_ignored), Ok(true));
    let unrecognized = TestData {
        name: "fc".to_string(),
        initial: state(0, 0, 0x0200, 0, vec![(0x0200, 0xFC)]),
        final_name: state(0, 0, 0x0200, 0, vec![]),
    };
    assert_eq!(emulator.run_test(&unrecognized), Err(CpuError::UnrecognizedOpcode(0xFC, false)));
}

#[test]
fn the_last_cell_written_wins_when_a_test_is_loaded() {
    let mut emulator = Emulator::<RawBus>::new();
    let test = TestData {
        name: "twice".to_string(),
        initial: state(0, 0, 0, 0, vec![(0x1000, 1), (0x1000, 2)]),
        final_name: state(0, 0, 0, 0, vec![]),
    };
    emulator.load_state(&test);
    assert_eq!(emulator.memory().read_u8(0x1000), 2);
}

#[test]
fn a_cartridge_for_another_console_is_refused() {
    let emulator = Emulator::<DMGBus>::new(Vec::new());
    let foreign = Cartridge::from(image(0xC0)).unwrap();
    assert_eq!(emulator.with_rom(foreign).err(), Some(EmulatorError::IncompatibleRom));
    let mut emulator = Emulator::<DMGBus>::new(Vec::new());
    let foreign = Cartridge::from(image(0xC0)).unwrap();
    assert_eq!(emulator.load_rom(foreign), Err(EmulatorError::IncompatibleRom));
    assert_eq!(emulator.memory().read_u8(0x0100), 0xFF);
    let mut raw = image(0x80);
    raw[0x0100] = 0x3C;
    let emulator = emulator.with_rom(Cartridge::from(raw).unwrap()).unwrap();
    assert_eq!(emulator.memory().read_u8(0x0100), 0x3C);
}

#[test]
fn the_call_log_keeps_the_last_ten_instructions() {
    let mut emulator = Emulator::<RawBus>::new().with_debug_flags(vec![DebugFlags::DumpCallLog]);
    assert_eq!(emulator.debug_ctx.create_call_log_dump(), None);
    emulator.debug_ctx.activate();
    assert_eq!(
        emulator.debug_ctx.create_call_log_dump(),
        Some("CALL LOG\n------------------------------------\n".to_string())
    );
    let test = TestData {
        name: "log".to_string(),
        initial: state(0, 0, 0x00FE, 0, vec![(0x00FE, 0x3C), (0x00FF, 0xCB), (0x0100, 0x7C), (0x0101, 0xD3)]),
        final_name: state(0, 0, 0, 0, vec![]),
    };
    emulator.load_state(&test);
    assert_eq!(emulator.step(), Ok(4));
    assert_eq!(emulator.step(), Ok(8));
    assert!(emulator.step().is_err());
    assert_eq!(
        emulator.debug_ctx.create_call_log_dump(),
        Some(
            "CALL LOG\n------------------------------------\n\
             pc:0x00ff -> 'BIT 7, H' (0x7c)\n\
             pc:0x00fe -> 'INC A' (0x3c)\n"
                .to_string()
        )
    );
    emulator.debug_ctx.deactivate();
    assert_eq!(emulator.debug_ctx.create_call_log_dump(), None);
    let mut ctx = DebugCtx::new(vec![DebugFlags::ShowRegisters], (0, 1, 2, 3));
    for pc in 0..12u16 {
        ctx.push_call_log(pc, 0xAB, "NOP");
    }
    let dump = ctx.create_call_log_dump().unwrap();
    assert_eq!(dump.lines().count(), 12);
    assert_eq!(dump.lines().nth(2), Some("pc:0x000b -> 'NOP' (0xab)"));
    assert_eq!(dump.lines().nth(11), Some("pc:0x0002 -> 'NOP' (0xab)"));
    let mut quiet = DebugCtx::new(vec![DebugFlags::DumpMem], (0, 1, 2, 3));
    quiet.push_call_log(0, 0, "NOP");
    assert_eq!(quiet.create_call_log_dump(), None);
}

#[test]
fn display_registers_have_their_addresses() {
    let addresses: Vec<u16> = [
        LCDRegister::Lcdc,
        LCDRegister::Stat,
        LCDRegister::Scy,
        LCDRegister::Scx,
        LCDRegister::Ly,
        LCDRegister::Lyc,
        LCDRegister::Dma,
        LCDRegister::Bgp,
        LCDRegister::Obp0,
        LCDRegister::Obp1,
    ]
    .into_iter()
    .map(u16::from)
    .collect();
    assert_eq!(
        addresses,
        vec![0xFF40, 0xFF41, 0xFF42, 0xFF43, 0xFF44, 0xFF45, 0xFF46, 0xFF47, 0xFF48, 0xFF49]
    );
}

#[test]
fn stack_round_trip() {
    for (sp, value) in [(0xFFFEu16, 0x1234u16), (0x0000, 0xFFFF), (0x0001, 0x00FF), (0xC000, 0x0000), (0x8002, 0xABCD)] {
        let mut bus = RawBus::new();
        let mut cpu = Cpu::new();
        cpu.set_state(&CpuState { reg: Registers::new(), sp, pc: 0, ime: false });
        cpu.push_stack(&mut bus, value);
        assert_eq!(cpu.state().sp, sp.wrapping_sub(2));
        assert_eq!(bus.read_u8(sp.wrapping_sub(1)), (value >> 8) as u8);
        assert_eq!(bus.read_u8(sp.wrapping_sub(2)), value as u8);
        assert_eq!(cpu.pop_stack(&bus), value);
        assert_eq!(cpu.state().sp, sp);
    }
}

#[test]
fn a_push_into_rom_does_not_come_back() {
    let mut bus = DMGBus::new(Vec::new());
    bus.load_cartridge(Cartridge::from(image(0x00)).unwrap());
    let mut cpu = Cpu::new();
    cpu.set_state(&CpuState { reg: Registers::new(), sp: 0x0002, pc: 0, ime: false });
    cpu.push_stack(&mut bus, 0x1234);
    assert_eq!(cpu.pop_stack(&bus), 0x0000);
    assert_eq!(cpu.state().sp, 0x0002);
}

/// Recorded single steps: the state before an instruction and the state
/// after it.
fn recorded(
    name: &str,
    before: (u8, u8, u8, u8, u8, u8, u8, u8, u16, u16),
    ram_before: &[(u16, u8)],
    after: (u8, u8, u8, u8, u8, u8, u8, u8, u16, u16),
    ram_after: &[(u16, u8)],
) -> TestData {
    let make = |r: (u8, u8, u8, u8, u8, u8, u8, u8, u16, u16), ram: &[(u16, u8)]| State {
        a: r.0,
        b: r.1,
        c: r.2,
        d: r.3,
        e: r.4,
        f: r.5,
        h: r.6,
        l: r.7,
        pc: r.8,
        sp: r.9,
        ram: ram.to_vec(),
    };
    TestData {
        name: name.to_string(),
        initial: make(before, ram_before),
        final_name: make(after, ram_after),
    }
}

#[test]
fn test_opcodes() {
    let tests = vec![
        recorded(
            "00",
            (0x12, 0x34, 0x56, 0x78, 0x9A, 0xB0, 0xCD, 0xEF, 0x1000, 0x2000),
            &[(0x1000, 0x00)],
            (0x12, 0x34, 0x56, 0x78, 0x9A, 0xB0, 0xCD, 0xEF, 0x1001, 0x2000),
            &[(0x1000, 0x00)],
        ),
        recorded(
            "01",
            (0, 0, 0, 0, 0, 0, 0, 0, 0x0100, 0),
            &[(0x0100, 0x01), (0x0101, 0xCD), (0x0102, 0xAB)],
            (0, 0xAB, 0xCD, 0, 0, 0, 0, 0, 0x0103, 0),
            &[(0x0100, 0x01), (0x0101, 0xCD), (0x0102, 0xAB)],
        ),
        recorded(
            "04",
            (0, 0xFF, 0, 0, 0, 0x10, 0, 0, 0x0100, 0),
            &[(0x0100, 0x04)],
            (0, 0x00, 0, 0, 0, 0xB0, 0, 0, 0x0101, 0),
            &[],
        ),
        recorded(
            "12",
            (0x5A, 0, 0, 0xC0, 0x01, 0, 0, 0, 0x0100, 0),
            &[(0x0100, 0x12)],
            (0x5A, 0, 0, 0xC0, 0x01, 0, 0, 0, 0x0101, 0),
            &[(0xC001, 0x5A)],
        ),
        recorded(
            "18",
            (0, 0, 0, 0, 0, 0, 0, 0, 0x0100, 0),
            &[(0x0100, 0x18), (0x0101, 0x80)],
            (0, 0, 0, 0, 0, 0, 0, 0, 0x0082, 0),
            &[],
        ),
        recorded(
            "27",
            (0x3C, 0, 0, 0, 0, 0x00, 0, 0, 0x0100, 0),
            &[(0x0100, 0x27)],
            (0x42, 0, 0, 0, 0, 0x00, 0, 0, 0x0101, 0),
            &[],
        ),
        recorded(
            "36",
            (0, 0, 0, 0, 0, 0, 0xD0, 0x00, 0x0100, 0),
            &[(0x0100, 0x36), (0x0101, 0x77)],
            (0, 0, 0, 0, 0, 0, 0xD0, 0x00, 0x0102, 0),
            &[(0xD000, 0x77)],
        ),
        recorded(
            "8e",
            (0x10, 0, 0, 0, 0, 0x10, 0xD0, 0x00, 0x0100, 0),
            &[(0x0100, 0x8E), (0xD000, 0xEF)],
            (0x00, 0, 0, 0, 0, 0xB0, 0xD0, 0x00, 0x0101, 0),
            &[(0xD000, 0xEF)],
        ),
        recorded(
            "b8",
            (0x10, 0x20, 0, 0, 0, 0x00, 0, 0, 0x0100, 0),
            &[(0x0100, 0xB8)],
            (0x10, 0x20, 0, 0, 0, 0x50, 0, 0, 0x0101, 0),
            &[],
        ),
        recorded(
            "c5",
            (0, 0xBE, 0xEF, 0, 0, 0, 0, 0, 0x0100, 0x0000),
            &[(0x0100, 0xC5)],
            (0, 0xBE, 0xEF, 0, 0, 0, 0, 0, 0x0101, 0xFFFE),
            &[(0xFFFF, 0xBE), (0xFFFE, 0xEF)],
        ),
        recorded(
            "cd",
            (0, 0, 0, 0, 0, 0, 0, 0, 0xFFFD, 0x8000),
            &[(0xFFFD, 0xCD), (0xFFFE, 0x00), (0xFFFF, 0x40)],
            (0, 0, 0, 0, 0, 0, 0, 0, 0x4000, 0x7FFE),
            &[(0x7FFF, 0x00), (0x7FFE, 0x00)],
        ),
        recorded(
            "f1",
            (0, 0, 0, 0, 0, 0, 0, 0, 0x0100, 0xC000),
            &[(0x0100, 0xF1), (0xC000, 0xFF), (0xC001, 0x12)],
            (0x12, 0, 0, 0, 0, 0xF0, 0, 0, 0x0101, 0xC002),
            &[],
        ),
        recorded(
            "cb 06",
            (0, 0, 0, 0, 0, 0x00, 0xC0, 0x00, 0x0100, 0),
            &[(0x0100, 0xCB), (0x0101, 0x06), (0xC000, 0x80)],
            (0, 0, 0, 0, 0, 0x10, 0xC0, 0x00, 0x0102, 0),
            &[(0xC000, 0x01)],
        ),
        recorded(
            "cb 1e",
            (0, 0, 0, 0, 0, 0x10, 0xC0, 0x00, 0x0100, 0),
            &[(0x0100, 0xCB), (0x0101, 0x1E), (0xC000, 0x01)],
            (0, 0, 0, 0, 0, 0x10, 0xC0, 0x00, 0x0102, 0),
            &[(0xC000, 0x80)],
        ),
        recorded(
            "cb 40",
            (0, 0xFE, 0, 0, 0, 0x50, 0, 0, 0x0100, 0),
            &[(0x0100, 0xCB), (0x0101, 0x40)],
            (0, 0xFE, 0, 0, 0, 0xB0, 0, 0, 0x0102, 0),
            &[],
        ),
    ];
    let mut emulator = Emulator::<RawBus>::new();
    for test in &tests {
        assert_eq!(emulator.run_test(test), Ok(true), "{}", test.name);
    }
}
