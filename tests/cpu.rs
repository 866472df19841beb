use nes_core::cpu::{CpuError, CPU, STACK};
use nes_core::flags::{CARRY, NEGATIV, OVERFLOW, ZERO};
use nes_core::memory::Memory;
use nes_core::opcodes::AddressingMode;
use nes_core::ppu::Mirroring;

#[test]
fn test_transform() {
    assert_eq!(CPU::transform("a9 8d"), [169, 141]);
}

#[test]
fn test_0xa9_load_into_register_a() {
    let mut cpu = CPU::new();
    cpu.interpret(CPU::transform("a9 8d")).unwrap();
    assert_eq!(cpu.register_a, 0x8d);
    assert_eq!(cpu.program_counter, 2);
}

#[test]
fn test_larger_program() {
    let mut cpu = CPU::new();
    cpu.interpret(CPU::transform("a9 01 8d 00 02 a9 05 8d 01 02 a9 08 8d 02 02")).unwrap();
    assert_eq!(cpu.memory.read(0x0200), 01);
    assert_eq!(cpu.memory.read(0x0201), 05);
    assert_eq!(cpu.memory.read(0x0202), 08);
    assert_eq!(cpu.program_counter, 15);
}

#[test]
fn test_0x48_pha() {
    let mut cpu = CPU::new();
    cpu.register_a = 100;
    cpu.interpret(CPU::transform("48")).unwrap();
    assert_eq!(cpu.stack_pointer, 0xFE);
    assert_eq!(cpu.memory.read(STACK + 0xFF), 100);
    assert_eq!(cpu.program_counter, 1);
}

#[test]
fn test_0x68_pla() {
    let mut cpu = CPU::new();
    cpu.interpret(CPU::transform("a9 ff 48 a9 00 68")).unwrap();
    assert_eq!(cpu.stack_pointer, 0xFF);
    assert_eq!(cpu.register_a, 0xff);
    assert_eq!(cpu.program_counter, 6);
}

#[test]
fn test_0x48_pla_flags() {
    let mut cpu = CPU::new();
    cpu.interpret(CPU::transform("a9 00 48 a9 01 68")).unwrap();
    assert!(cpu.flags.contains(ZERO));
}

#[test]
fn test_stack_overflowing() {
    let mut cpu = CPU::new();
    cpu.interpret(CPU::transform("68")).unwrap();
}

#[test]
fn test_0x18_clc() {
    let mut cpu = CPU::new();
    cpu.flags.insert(CARRY);
    assert!(cpu.flags.contains(CARRY));
    cpu.interpret(CPU::transform("18")).unwrap();
    assert!(!cpu.flags.contains(CARRY));
    assert_eq!(cpu.program_counter, 1);
}

#[test]
fn test_0x38_sec() {
    let mut cpu = CPU::new();
    assert!(!cpu.flags.contains(CARRY));
    cpu.interpret(CPU::transform("38")).unwrap();
    assert!(cpu.flags.contains(CARRY));
    assert_eq!(cpu.program_counter, 1);
}

#[test]
fn test_0x85_sta() {
    let mut cpu = CPU::new();
    cpu.register_a = 101;
    cpu.interpret(CPU::transform("85 10")).unwrap();
    assert_eq!(cpu.memory.read(0x10), 101);
    assert_eq!(cpu.program_counter, 2);
}

#[test]
fn test_0x95_sta() {
    let mut cpu = CPU::new();
    cpu.register_a = 101;
    cpu.register_x = 0x50;
    cpu.interpret(CPU::transform("95 10")).unwrap();
    assert_eq!(cpu.memory.read(0x60), 101);
    assert_eq!(cpu.program_counter, 2);
}

#[test]
fn test_0x8d_sta() {
    let mut cpu = CPU::new();
    cpu.register_a = 100;
    cpu.interpret(CPU::transform("8d 00 02")).unwrap();
    assert_eq!(cpu.memory.read(0x0200), 100);
    assert_eq!(cpu.program_counter, 3);
}

#[test]
fn test_0x9d_sta() {
    let mut cpu = CPU::new();
    cpu.register_a = 101;
    cpu.register_x = 0x50;
    cpu.interpret(CPU::transform("9d 00 11")).unwrap();
    assert_eq!(cpu.memory.read(0x1150), 101);
    assert_eq!(cpu.program_counter, 3);
}

#[test]
fn test_0x99_sta() {
    let mut cpu = CPU::new();
    cpu.register_a = 101;
    cpu.register_y = 0x66;
    cpu.interpret(CPU::transform("99 00 11")).unwrap();
    assert_eq!(cpu.memory.read(0x1166), 101);
    assert_eq!(cpu.program_counter, 3);
}

#[test]
fn test_0x81_sta() {
    let mut cpu = CPU::new();
    cpu.register_x = 2;
    cpu.memory.write(0x2, 0x05);
    cpu.memory.write(0x3, 0x07);

    cpu.register_a = 0x66;

    cpu.interpret(CPU::transform("81 00")).unwrap();
    assert_eq!(cpu.memory.read(0x0705), 0x66);
    assert_eq!(cpu.program_counter, 2);
}

#[test]
fn test_091_sta() {
    let mut cpu = CPU::new();
    cpu.register_y = 0x10;
    cpu.memory.write(0x2, 0x05);
    cpu.memory.write(0x3, 0x07);

    cpu.register_a = 0x66;

    cpu.interpret(CPU::transform("91 02")).unwrap();
    assert_eq!(cpu.memory.read(0x0705 + 0x10), 0x66);
    assert_eq!(cpu.program_counter, 2);
}

fn run_one(program: &str) -> (CPU, Result<u16, CpuError>) {
    let mut cpu = CPU::new();
    let bytes = CPU::transform(program);
    for (i, b) in bytes.iter().enumerate() {
        cpu.memory.write(i as u16, *b);
    }
    let r = cpu.step();
    (cpu, r)
}

#[test]
fn lda_immediate_sets_value_flags_pc_and_cycles() {
    let (cpu, r) = run_one("a9 05");
    assert_eq!(cpu.register_a, 0x05);
    assert!(!cpu.flags.contains(ZERO));
    assert!(!cpu.flags.contains(NEGATIV));
    assert_eq!(cpu.program_counter, 2);
    assert_eq!(r, Ok(2));
}

#[test]
fn pha_pla_restores_negative_byte() {
    let mut cpu = CPU::new();
    let sp = cpu.stack_pointer;
    cpu.interpret(CPU::transform("a9 ff 48 a9 00 68")).unwrap();
    assert_eq!(cpu.register_a, 0xFF);
    assert_eq!(cpu.stack_pointer, sp);
    assert!(!cpu.flags.contains(ZERO));
    assert!(cpu.flags.contains(NEGATIV));
}

#[test]
fn push_from_empty_stack_pointer_wraps() {
    let mut cpu = CPU::new();
    cpu.stack_pointer = 0x00;
    cpu.register_a = 0x42;
    cpu.interpret(CPU::transform("48")).unwrap();
    assert_eq!(cpu.stack_pointer, 0xFF);
    assert_eq!(cpu.memory.read(0x0100), 0x42);
}

#[test]
fn php_pushes_bit5_and_break() {
    let mut cpu = CPU::new();
    cpu.flags.remove(0xFF);
    cpu.interpret(CPU::transform("08")).unwrap();
    assert_eq!(cpu.memory.read(0x01FF), 0b0011_0000);
}

#[test]
fn adc_sets_carry_and_overflow() {
    let mut cpu = CPU::new();
    cpu.register_a = 0x50;
    cpu.interpret(CPU::transform("69 50")).unwrap();
    assert_eq!(cpu.register_a, 0xA0);
    assert!(cpu.flags.contains(OVERFLOW));
    assert!(!cpu.flags.contains(CARRY));
    let mut cpu = CPU::new();
    cpu.register_a = 0xFF;
    cpu.interpret(CPU::transform("38 69 01")).unwrap();
    assert_eq!(cpu.register_a, 0x01);
    assert!(cpu.flags.contains(CARRY));
    assert!(!cpu.flags.contains(OVERFLOW));
}

#[test]
fn sbc_borrow_and_overflow() {
    let mut cpu = CPU::new();
    cpu.register_a = 0x50;
    cpu.interpret(CPU::transform("38 e9 b0")).unwrap();
    assert_eq!(cpu.register_a, 0xA0);
    assert!(cpu.flags.contains(OVERFLOW));
    assert!(!cpu.flags.contains(CARRY));
    let mut cpu = CPU::new();
    cpu.register_a = 0x05;
    cpu.interpret(CPU::transform("38 e9 03")).unwrap();
    assert_eq!(cpu.register_a, 0x02);
    assert!(cpu.flags.contains(CARRY));
    assert!(!cpu.flags.contains(OVERFLOW));
}

#[test]
fn compare_and_transfers() {
    let mut cpu = CPU::new();
    cpu.interpret(CPU::transform("a2 10 e0 10 8a a8 c8 98")).unwrap();
    assert!(cpu.flags.contains(CARRY));
    assert_eq!(cpu.register_x, 0x10);
    assert_eq!(cpu.register_y, 0x11);
    assert_eq!(cpu.register_a, 0x11);
}

#[test]
fn page_cross_costs_a_cycle() {
    let mut cpu = CPU::new();
    cpu.register_x = 0x01;
    for (i, b) in [0xBDu8, 0xFF, 0x02].iter().enumerate() {
        cpu.memory.write(i as u16, *b);
    }
    assert_eq!(cpu.step(), Ok(5));
    let (_, r) = run_one("bd 00 02");
    assert_eq!(r, Ok(4));
}

#[test]
fn unknown_opcode_is_reported() {
    let (cpu, r) = run_one("02");
    assert_eq!(r, Err(CpuError::UnknownOpcode { pc: 0, opcode: 0x02 }));
    assert_eq!(cpu.program_counter, 0);
}

#[test]
fn program_from_reset_vector() {
    let mut prg = vec![0u8; 0x8000];
    let program = CPU::transform("a9 01 8d 00 02 a9 05 8d 01 02 a9 08 8d 02 02");
    prg[..program.len()].copy_from_slice(&program);
    prg[0x7FFC] = 0x00;
    prg[0x7FFD] = 0x80;
    let mut cpu = CPU::with_memory(Memory::from_cartridge(prg, vec![0; 0x2000], Mirroring::Horizontal));
    cpu.reset();
    assert_eq!(cpu.program_counter, 0x8000);
    assert_eq!(cpu.stack_pointer, 0xFD);
    for _ in 0..6 {
        assert!(cpu.step().is_ok());
    }
    assert_eq!(cpu.memory.read(0x0200), 0x01);
    assert_eq!(cpu.memory.read(0x0201), 0x05);
    assert_eq!(cpu.memory.read(0x0202), 0x08);
    assert_eq!(cpu.program_counter, 0x800F);
}

#[test]
fn sixteen_k_rom_is_mirrored() {
    let mut prg = vec![0u8; 0x4000];
    prg[0x10] = 0x77;
    let mut mem = Memory::from_cartridge(prg, vec![0; 0x2000], Mirroring::Vertical);
    assert_eq!(mem.read(0x8010), 0x77);
    assert_eq!(mem.read(0xC010), 0x77);
    assert_eq!(mem.read_u16(0x800F), 0x7700);
}

#[test]
fn nmi_is_serviced_by_clock() {
    let mut prg = vec![0xEAu8; 0x8000];
    prg[0x7FFA] = 0x34;
    prg[0x7FFB] = 0x92;
    prg[0x7FFC] = 0x00;
    prg[0x7FFD] = 0x80;
    let mut cpu = CPU::with_memory(Memory::from_cartridge(prg, vec![0; 0x2000], Mirroring::Horizontal));
    cpu.reset();
    cpu.memory.ppu.nmi_interrupt = Some(1);
    let r = cpu.clock();
    assert_eq!(r, Ok((9, false)));
    assert_eq!(cpu.program_counter, 0x9235);
    assert_eq!(cpu.stack_pointer, 0xFA);
    assert_eq!(cpu.memory.read(0x01FD), 0x80);
    assert_eq!(cpu.memory.read(0x01FC), 0x00);
    assert_eq!(cpu.memory.read(0x01FB) & 0b0011_0000, 0b0010_0000);
    assert_eq!(cpu.memory.ppu.cycles, 27);
}

#[test]
fn oam_dma_through_bus_stalls() {
    let mut cpu = CPU::new();
    for i in 0..256u16 {
        cpu.memory.write(0x0300 + i, i as u8);
    }
    cpu.interpret(CPU::transform("a9 03 8d 14 40")).unwrap();
    assert_eq!(cpu.memory.ppu.oam_data[5], 5);
    assert_eq!(cpu.memory.ppu.oam_data[255], 255);
    let mut cpu = CPU::new();
    for (i, b) in [0xA9u8, 0x03, 0x8D, 0x14, 0x40].iter().enumerate() {
        cpu.memory.write(i as u16, *b);
    }
    cpu.step().unwrap();
    assert_eq!(cpu.step(), Ok(4 + 513));
}

#[test]
fn jmp_indirect_page_bug() {
    let mut cpu = CPU::new();
    for (i, b) in [0x6Cu8, 0xFF, 0x02].iter().enumerate() {
        cpu.memory.write(i as u16, *b);
    }
    cpu.memory.write(0x02FF, 0x34);
    cpu.memory.write(0x0300, 0x99);
    cpu.memory.write(0x0200, 0x12);
    assert_eq!(cpu.step(), Ok(5));
    assert_eq!(cpu.program_counter, 0x1234);
}

#[test]
fn jsr_then_rts_returns_after_call() {
    let mut cpu = CPU::new();
    let code = CPU::transform("20 10 00");
    for (i, b) in code.iter().enumerate() {
        cpu.memory.write(i as u16, *b);
    }
    cpu.memory.write(0x0010, 0x60);
    assert_eq!(cpu.step(), Ok(6));
    assert_eq!(cpu.program_counter, 0x0010);
    assert_eq!(cpu.stack_pointer, 0xFD);
    assert_eq!(cpu.memory.read(0x01FF), 0x00);
    assert_eq!(cpu.memory.read(0x01FE), 0x02);
    assert_eq!(cpu.step(), Ok(6));
    assert_eq!(cpu.program_counter, 0x0003);
    assert_eq!(cpu.stack_pointer, 0xFF);
}

#[test]
fn branch_cycles_and_targets() {
    let (cpu, r) = run_one("d0 05");
    assert_eq!(r, Ok(3));
    assert_eq!(cpu.program_counter, 0x0007);
    let (cpu, r) = run_one("f0 05");
    assert_eq!(r, Ok(2));
    assert_eq!(cpu.program_counter, 0x0002);
    let (cpu, r) = run_one("d0 fc");
    assert_eq!(r, Ok(4));
    assert_eq!(cpu.program_counter, 0xFFFE);
}

#[test]
fn countdown_loop_runs_to_end() {
    let mut cpu = CPU::new();
    cpu.interpret(CPU::transform("a2 05 ca d0 fd e6 20")).unwrap();
    assert_eq!(cpu.register_x, 0);
    assert!(!cpu.flags.contains(ZERO));
    assert_eq!(cpu.memory.read(0x20), 1);
    assert_eq!(cpu.program_counter, 7);
}

#[test]
fn memory_shifts_and_decrement() {
    let mut cpu = CPU::new();
    cpu.memory.write(0x40, 0x81);
    cpu.interpret(CPU::transform("06 40 c6 40")).unwrap();
    assert_eq!(cpu.memory.read(0x40), 0x01);
    assert!(cpu.flags.contains(CARRY));
    assert!(!cpu.flags.contains(ZERO));
}

#[test]
fn brk_pushes_and_vectors() {
    let mut prg = vec![0u8; 0x8000];
    prg[0x7FFE] = 0x00;
    prg[0x7FFF] = 0x90;
    let mut cpu = CPU::with_memory(Memory::from_cartridge(prg, vec![0; 0x2000], Mirroring::Horizontal));
    cpu.memory.write(0x0000, 0x00);
    assert_eq!(cpu.step(), Ok(7));
    assert_eq!(cpu.program_counter, 0x9000);
    assert_eq!(cpu.memory.read(0x01FF), 0x00);
    assert_eq!(cpu.memory.read(0x01FE), 0x02);
    assert_eq!(cpu.memory.read(0x01FD), 0b0011_0000 | 0b0010_0000);
    assert!(cpu.flags.contains(0b0000_0100));
}

#[test]
fn rti_restores_flags_and_pc() {
    let mut cpu = CPU::new();
    cpu.stack_pointer = 0xFC;
    cpu.memory.write(0x01FD, 0b1101_0011);
    cpu.memory.write(0x01FE, 0x34);
    cpu.memory.write(0x01FF, 0x12);
    cpu.memory.write(0x0000, 0x40);
    assert_eq!(cpu.step(), Ok(6));
    assert_eq!(cpu.program_counter, 0x1234);
    assert_eq!(cpu.flags.bits, 0b1110_0011);
    assert_eq!(cpu.stack_pointer, 0xFF);
}

#[test]
fn load_and_run_from_8000() {
    let mut cpu = CPU::new();
    let r = cpu.load_and_run(CPU::transform("a9 01 8d 00 02 a9 05 8d 01 02 a9 08 8d 02 02"));
    assert_eq!(r, Ok(()));
    assert_eq!(cpu.memory.read(0x0200), 0x01);
    assert_eq!(cpu.memory.read(0x0201), 0x05);
    assert_eq!(cpu.memory.read(0x0202), 0x08);
    assert_eq!(cpu.program_counter, 0x800F);
}

#[test]
fn interpret_reports_unknown_opcode() {
    let mut cpu = CPU::new();
    let r = cpu.interpret(CPU::transform("a9 01 02 a9 03"));
    assert_eq!(r, Err(CpuError::UnknownOpcode { pc: 2, opcode: 0x02 }));
    assert_eq!(cpu.register_a, 0x01);
    assert_eq!(cpu.program_counter, 2);
}

#[test]
fn interpret_serves_pending_nmi() {
    let mut cpu = CPU::new();
    cpu.memory.ppu.nmi_interrupt = Some(1);
    cpu.interpret(CPU::transform("ea ea")).unwrap();
    assert_eq!(cpu.memory.ppu.nmi_interrupt, None);
    assert_eq!(cpu.stack_pointer, 0xFC);
    assert!(cpu.flags.contains(0b0000_0100));
    assert_eq!(cpu.memory.read(0x01FF), 0x00);
    assert_eq!(cpu.memory.read(0x01FE), 0x00);
    assert_eq!(cpu.memory.read(0x01FD), 0b0010_0000);
    assert_eq!(cpu.program_counter, 2);
    assert_eq!(cpu.memory.ppu.cycles, 3 * (7 + 2 + 2));
}

#[test]
fn indirect_mode_resolves_with_page_bug() {
    let mut cpu = CPU::new();
    for (i, b) in [0x6Cu8, 0xFF, 0x03].iter().enumerate() {
        cpu.memory.write(i as u16, *b);
    }
    cpu.memory.write(0x03FF, 0x40);
    cpu.memory.write(0x0300, 0x01);
    cpu.memory.write(0x0400, 0x07);
    assert_eq!(cpu.resolve_operand(AddressingMode::Indirect), (0x0140, false));
    cpu.memory.write(0x0140, 0x5A);
    assert_eq!(AddressingMode::Indirect.read_u8(&mut cpu), 0x5A);
}
