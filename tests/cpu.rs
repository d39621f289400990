use gameboy_emulator_lib::bus::Bus;
use gameboy_emulator_lib::cartridge::Cartridge;
use gameboy_emulator_lib::cpu::registers::Reg16;
use gameboy_emulator_lib::cpu::{DecodeError, CPU};
use gameboy_emulator_lib::emu::EmuContext;
use gameboy_emulator_lib::utils::Opts;

fn rom_with(program: &[u8]) -> Vec<u8> {
    let mut rom = vec![0u8; 0x8000];
    rom[0x100..0x100 + program.len()].copy_from_slice(program);
    rom
}

fn cpu_with(program: &[u8]) -> CPU {
    CPU::new(Bus::new(Cartridge::new(rom_with(program))))
}

#[test]
fn nop_from_reset() {
    let mut cpu = cpu_with(&[0x00]);
    assert_eq!(cpu.registers.pc, 0x0100);
    assert_eq!(cpu.step(), Ok(4));
    assert_eq!(cpu.registers.pc, 0x0101);
    assert_eq!(cpu.cycles, 4);
}

#[test]
fn ld_a_then_add_overflows_to_zero() {
    let mut cpu = cpu_with(&[0x3E, 0x80, 0xC6, 0x80]);
    assert_eq!(cpu.step(), Ok(8));
    assert_eq!(cpu.registers.a, 0x80);
    assert_eq!(cpu.step(), Ok(8));
    assert_eq!(cpu.registers.a, 0x00);
    let f = cpu.registers.f;
    assert!(f.zero && !f.sub && !f.half_carry && f.carry);
}

#[test]
fn illegal_opcode_is_a_decode_error() {
    let mut cpu = cpu_with(&[0xD3]);
    assert_eq!(cpu.step(), Err(DecodeError { opcode: 0xD3, prefixed: false }));
}

#[test]
fn call_and_ret_round_trip() {
    // CALL 0x0200 ; at 0x0200: RET
    let mut rom = rom_with(&[0xCD, 0x00, 0x02]);
    rom[0x200] = 0xC9;
    let mut cpu = CPU::new(Bus::new(Cartridge::new(rom)));
    assert_eq!(cpu.step(), Ok(24));
    assert_eq!(cpu.registers.pc, 0x0200);
    assert_eq!(cpu.registers.sp, 0xFFFC);
    assert_eq!(cpu.step(), Ok(16));
    assert_eq!(cpu.registers.pc, 0x0103);
    assert_eq!(cpu.registers.sp, 0xFFFE);
}

#[test]
fn conditional_jump_cycles() {
    // XOR A (Z=1); JR NZ,+5 (not taken); JR Z,+0 (taken)
    let mut cpu = cpu_with(&[0xAF, 0x20, 0x05, 0x28, 0x00]);
    assert_eq!(cpu.step(), Ok(4));
    assert_eq!(cpu.step(), Ok(8));
    assert_eq!(cpu.registers.pc, 0x0103);
    assert_eq!(cpu.step(), Ok(12));
    assert_eq!(cpu.registers.pc, 0x0105);
}

#[test]
fn push_pop_and_memory_ops() {
    // LD HL,0xC000; LD (HL),0x42; INC (HL); LD A,(HL+); PUSH HL; POP BC
    let mut cpu = cpu_with(&[0x21, 0x00, 0xC0, 0x36, 0x42, 0x34, 0x2A, 0xE5, 0xC1]);
    assert_eq!(cpu.step(), Ok(12));
    assert_eq!(cpu.step(), Ok(12));
    assert_eq!(cpu.bus.read(0xC000), 0x42);
    assert_eq!(cpu.step(), Ok(12));
    assert_eq!(cpu.bus.read(0xC000), 0x43);
    assert_eq!(cpu.step(), Ok(8));
    assert_eq!(cpu.registers.a, 0x43);
    assert_eq!(cpu.registers.get_reg_pair(Reg16::HL), 0xC001);
    assert_eq!(cpu.step(), Ok(16));
    assert_eq!(cpu.step(), Ok(12));
    assert_eq!(cpu.registers.get_reg_pair(Reg16::BC), 0xC001);
}

#[test]
fn cb_swap_and_bit() {
    // LD A,0xF1; SWAP A; BIT 7,A
    let mut cpu = cpu_with(&[0x3E, 0xF1, 0xCB, 0x37, 0xCB, 0x7F]);
    cpu.step().unwrap();
    assert_eq!(cpu.step(), Ok(8));
    assert_eq!(cpu.registers.a, 0x1F);
    assert_eq!(cpu.step(), Ok(8));
    assert!(cpu.registers.f.zero);
}

#[test]
fn interrupt_dispatch() {
    // EI; NOP; the VBLANK interrupt is then served.
    let mut cpu = cpu_with(&[0xFB, 0x00, 0x00]);
    cpu.bus.interrupts.enable = 0x01;
    cpu.bus.interrupts.flag = 0xE1;
    assert_eq!(cpu.step(), Ok(4));
    assert!(!cpu.ime);
    assert_eq!(cpu.step(), Ok(4));
    assert!(cpu.ime);
    assert_eq!(cpu.step(), Ok(20));
    assert_eq!(cpu.registers.pc, 0x0040);
    assert!(!cpu.ime);
    assert_eq!(cpu.bus.interrupts.flag & 0x01, 0);
    assert_eq!(cpu.bus.read(0xFFFD), 0x01);
    assert_eq!(cpu.bus.read(0xFFFC), 0x02);
}

#[test]
fn halt_waits_for_interrupt() {
    let mut cpu = cpu_with(&[0x76, 0x00]);
    cpu.step().unwrap();
    assert!(cpu.halted);
    assert_eq!(cpu.step(), Ok(4));
    assert_eq!(cpu.registers.pc, 0x0101);
    cpu.bus.interrupts.enable = 0x04;
    cpu.bus.interrupts.flag = 0x04;
    assert_eq!(cpu.step(), Ok(4));
    assert!(!cpu.halted);
    assert_eq!(cpu.registers.pc, 0x0102);
}

#[test]
fn emu_context_runs_a_frame() {
    // JR -2: a tight loop.
    let rom = rom_with(&[0x18, 0xFE]);
    let mut ctx = EmuContext::new(Cartridge::new(rom), Opts::new(false, false));
    let spent = ctx.run_frame().unwrap();
    assert!(spent > 70224 && spent <= 70224 + 32);
    assert_eq!(ctx.cpu.registers.pc, 0x0100);
}

#[test]
fn serial_bytes_are_collected() {
    // LD A,'A'; LDH (01),A; LD A,0x81; LDH (02),A
    let mut cpu = cpu_with(&[0x3E, 0x41, 0xE0, 0x01, 0x3E, 0x81, 0xE0, 0x02]);
    for _ in 0..4 {
        cpu.step().unwrap();
    }
    assert_eq!(cpu.bus.serial.take_output(), vec![0x41]);
    assert_eq!(cpu.bus.read(0xFF02), 0x00);
}
