use nes_core::access::IllegalAccess;
use nes_core::cpu::bus::Bus;
use nes_core::cpu::cpu::{nmi, AddressingMode, Cpu, Memory};
use nes_core::cpu::flags::{
    CpuFlags, BREAK, BREAK2, CARRY, DECIMAL_MODE, INTERRUPT_DISABLE, NEGATIV, OVERFLOW, ZERO,
};
use nes_core::cpu::model::Outcome;
use nes_core::cpu::opcodes::{lookup, Operation};
use nes_core::rom::header::Header;
use nes_core::rom::rom::{Mirroring, Rom};

fn machine(program: &[u8]) -> Cpu {
    let mut data = vec![0u8; 0x8000];
    data[..program.len()].copy_from_slice(program);
    data[0x7FFC] = 0x00;
    data[0x7FFD] = 0x80;
    data[0x7FFA] = 0x00;
    data[0x7FFB] = 0x90;
    let rom = Rom {
        header: Header { nes_header_const: [78, 69, 83, 26], program_size: 0x8000, char_size: 0 },
        program_data: data,
        char_data: vec![],
        mapper: 0,
        screen_mirroring: Mirroring::VERTICAL,
    };
    let mut cpu = Cpu::new(Bus::new(rom));
    cpu.reset();
    cpu
}

fn run_to_halt(program: &[u8]) -> Cpu {
    let mut cpu = machine(program);
    assert_eq!(cpu.run(10_000), Outcome::Halted);
    cpu
}

#[test]
fn every_opcode_has_an_entry() {
    for code in 0..=255u8 {
        let entry = lookup(code);
        assert_eq!(entry.code, code);
        assert!(entry.len >= 1 && entry.len <= 3);
        assert!(entry.cycles >= 1 && entry.cycles <= 8);
        match entry.mode {
            AddressingMode::Absolute | AddressingMode::Absolute_X | AddressingMode::Absolute_Y => {
                assert_eq!(entry.len, 3)
            }
            AddressingMode::NoneAddressing => {}
            _ => assert_eq!(entry.len, 2),
        }
    }
}

#[test]
fn table_entries_of_known_opcodes() {
    let lda = lookup(0xA9);
    assert_eq!(lda.operation, Operation::Lda);
    assert_eq!(lda.mode, AddressingMode::Immediate);
    assert_eq!((lda.len, lda.cycles), (2, 2));
    let sta = lookup(0x9D);
    assert_eq!(sta.operation, Operation::Sta);
    assert_eq!(sta.mode, AddressingMode::Absolute_X);
    assert_eq!((sta.len, sta.cycles), (3, 5));
    let brk = lookup(0x00);
    assert_eq!(brk.operation, Operation::Brk);
    assert_eq!((brk.len, brk.cycles), (1, 7));
    let dcp = lookup(0xC3);
    assert_eq!(dcp.operation, Operation::Dcp);
    assert_eq!(dcp.mode, AddressingMode::Indirect_X);
    assert_eq!((dcp.len, dcp.cycles), (2, 8));
    let jmp = lookup(0x6C);
    assert_eq!(jmp.operation, Operation::JmpIndirect);
    assert_eq!((jmp.len, jmp.cycles), (3, 5));
}

#[test]
fn new_and_reset() {
    let mut cpu = machine(&[]);
    assert_eq!(cpu.reg_pc, 0x8000);
    assert_eq!(cpu.reg_sp, 0xFD);
    assert_eq!(cpu.status.bits(), 0b0010_0100);
    cpu.reg_a = 1;
    cpu.reg_x = 2;
    cpu.reg_y = 3;
    cpu.reg_sp = 4;
    cpu.reg_pc = 5;
    cpu.status = CpuFlags::from_bits_truncate(0xFF);
    cpu.mem_write(0x0010, 0x77);
    cpu.reset();
    assert_eq!((cpu.reg_a, cpu.reg_x, cpu.reg_y, cpu.reg_sp), (0, 0, 0, 0xFD));
    assert_eq!(cpu.status.bits(), 0b0010_0100);
    assert_eq!(cpu.reg_pc, 0x8000);
    assert_eq!(cpu.mem_read(0x0010), 0x77);
}

#[test]
fn addition_overflows_into_the_sign() {
    let mut cpu = machine(&[]);
    cpu.reg_a = 0x50;
    cpu.status.remove(CARRY);
    cpu.add_to_reg_a(0x50);
    assert_eq!(cpu.reg_a, 0xA0);
    assert!(!cpu.status.contains(CARRY));
    assert!(cpu.status.contains(OVERFLOW));
    assert!(cpu.status.contains(NEGATIV));
    assert!(!cpu.status.contains(ZERO));
}

#[test]
fn addition_carries_out() {
    let mut cpu = machine(&[]);
    cpu.reg_a = 0xFF;
    cpu.status.remove(CARRY);
    cpu.add_to_reg_a(0x01);
    assert_eq!(cpu.reg_a, 0x00);
    assert!(cpu.status.contains(CARRY));
    assert!(cpu.status.contains(ZERO));
    assert!(!cpu.status.contains(NEGATIV));
    assert!(!cpu.status.contains(OVERFLOW));
}

#[test]
fn addition_takes_the_carry_in() {
    let mut cpu = machine(&[]);
    cpu.reg_a = 0x7F;
    cpu.status.insert(CARRY);
    cpu.add_to_reg_a(0x00);
    assert_eq!(cpu.reg_a, 0x80);
    assert!(!cpu.status.contains(CARRY));
    assert!(cpu.status.contains(OVERFLOW));
    cpu.reg_a = 0x80;
    cpu.status.remove(CARRY);
    cpu.add_to_reg_a(0xFF);
    assert_eq!(cpu.reg_a, 0x7F);
    assert!(cpu.status.contains(CARRY));
    assert!(cpu.status.contains(OVERFLOW));
}

#[test]
fn subtraction_is_addition_of_the_complement() {
    let mut cpu = machine(&[]);
    cpu.reg_a = 0x50;
    cpu.status.insert(CARRY);
    cpu.sub_from_reg_a(0xF0);
    assert_eq!(cpu.reg_a, 0x60);
    assert!(!cpu.status.contains(CARRY));
    assert!(!cpu.status.contains(OVERFLOW));
    cpu.reg_a = 0x50;
    cpu.status.insert(CARRY);
    cpu.sub_from_reg_a(0xB0);
    assert_eq!(cpu.reg_a, 0xA0);
    assert!(!cpu.status.contains(CARRY));
    assert!(cpu.status.contains(OVERFLOW));
    cpu.reg_a = 0x05;
    cpu.status.remove(CARRY);
    cpu.sub_from_reg_a(0x02);
    assert_eq!(cpu.reg_a, 0x02);
    assert!(cpu.status.contains(CARRY));
}

#[test]
fn compare_equal_sets_carry_and_zero() {
    let mut cpu = machine(&[]);
    cpu.mem_write(0x0000, 0x10);
    cpu.reg_pc = 0x0000;
    cpu.status.remove(CARRY);
    cpu.compare(&AddressingMode::Immediate, 0x10);
    assert!(cpu.status.contains(CARRY));
    assert!(cpu.status.contains(ZERO));
    assert!(!cpu.status.contains(NEGATIV));
}

#[test]
fn compare_orders_operand_and_register() {
    let mut cpu = machine(&[]);
    cpu.mem_write(0x0000, 0x20);
    cpu.reg_pc = 0x0000;
    cpu.compare(&AddressingMode::Immediate, 0x10);
    assert!(!cpu.status.contains(CARRY));
    assert!(!cpu.status.contains(ZERO));
    assert!(cpu.status.contains(NEGATIV));
    cpu.compare(&AddressingMode::Immediate, 0x30);
    assert!(cpu.status.contains(CARRY));
    assert!(!cpu.status.contains(ZERO));
    assert!(!cpu.status.contains(NEGATIV));
}

#[test]
fn load_transfer_increment_halt() {
    let cpu = run_to_halt(&[0xA9, 0x05, 0xAA, 0xE8, 0x00]);
    assert_eq!(cpu.reg_a, 0x05);
    assert_eq!(cpu.reg_x, 0x06);
    assert!(!cpu.status.contains(ZERO));
    assert!(!cpu.status.contains(NEGATIV));
    assert_eq!(cpu.reg_pc, 0x8005);
    assert_eq!(cpu.bus.cycles, 6);
}

#[test]
fn flag_rule_on_loads() {
    let zero = run_to_halt(&[0xA9, 0x00, 0x00]);
    assert!(zero.status.contains(ZERO));
    assert!(!zero.status.contains(NEGATIV));
    let negative = run_to_halt(&[0xA2, 0x80, 0x00]);
    assert_eq!(negative.reg_x, 0x80);
    assert!(!negative.status.contains(ZERO));
    assert!(negative.status.contains(NEGATIV));
}

#[test]
fn inx_wraps() {
    let cpu = run_to_halt(&[0xA2, 0xFF, 0xE8, 0xE8, 0x00]);
    assert_eq!(cpu.reg_x, 1);
    let down = run_to_halt(&[0xA0, 0x00, 0x88, 0x00]);
    assert_eq!(down.reg_y, 0xFF);
    assert!(down.status.contains(NEGATIV));
}

#[test]
fn addressing_modes() {
    let mut cpu = machine(&[]);
    cpu.mem_write(0x0010, 0x34);
    cpu.mem_write(0x0011, 0x12);
    cpu.mem_write(0x00FF, 0x78);
    cpu.mem_write(0x0000, 0x56);
    cpu.reg_pc = 0x0010;
    cpu.reg_x = 0xEF;
    cpu.reg_y = 0x02;
    assert_eq!(cpu.get_operand_address(&AddressingMode::Immediate), 0x0010);
    assert_eq!(cpu.get_operand_address(&AddressingMode::ZeroPage), 0x0034);
    assert_eq!(cpu.get_operand_address(&AddressingMode::ZeroPage_X), 0x0023);
    assert_eq!(cpu.get_operand_address(&AddressingMode::ZeroPage_Y), 0x0036);
    assert_eq!(cpu.get_operand_address(&AddressingMode::Absolute), 0x1234);
    assert_eq!(cpu.get_operand_address(&AddressingMode::Absolute_X), 0x1323);
    assert_eq!(cpu.get_operand_address(&AddressingMode::Absolute_Y), 0x1236);
    cpu.reg_x = 0xCB;
    assert_eq!(cpu.get_operand_address(&AddressingMode::Indirect_X), 0x5678);
    cpu.mem_write(0x0034, 0xFF);
    cpu.mem_write(0x0035, 0xFF);
    assert_eq!(cpu.get_operand_address(&AddressingMode::Indirect_Y), 0x0001);
}

#[test]
fn stack_push_and_pop() {
    let mut cpu = machine(&[]);
    cpu.stack_push(0x11);
    assert_eq!(cpu.reg_sp, 0xFC);
    assert_eq!(cpu.mem_read(0x01FD), 0x11);
    cpu.stack_push_u16(0xABCD);
    assert_eq!(cpu.reg_sp, 0xFA);
    assert_eq!(cpu.mem_read(0x01FC), 0xAB);
    assert_eq!(cpu.mem_read(0x01FB), 0xCD);
    assert_eq!(cpu.stack_pop_u16(), 0xABCD);
    assert_eq!(cpu.stack_pop(), 0x11);
    assert_eq!(cpu.reg_sp, 0xFD);
    cpu.reg_sp = 0x00;
    cpu.stack_push(0x22);
    assert_eq!(cpu.reg_sp, 0xFF);
    assert_eq!(cpu.mem_read(0x0100), 0x22);
    assert_eq!(cpu.stack_pop(), 0x22);
    assert_eq!(cpu.reg_sp, 0x00);
}

#[test]
fn status_push_and_pull() {
    let mut cpu = machine(&[]);
    cpu.status = CpuFlags::from_bits_truncate(0b1000_0001);
    cpu.php();
    assert_eq!(cpu.mem_read(0x01FD), 0b1011_0001);
    cpu.stack_push(0b1101_1111);
    cpu.plp();
    assert_eq!(cpu.status.bits(), 0b1110_1111);
    assert!(!cpu.status.contains(BREAK));
    assert!(cpu.status.contains(BREAK2));
    assert!(cpu.status.contains(DECIMAL_MODE));
}

#[test]
fn shifts_and_rotates() {
    let mut cpu = machine(&[]);
    cpu.reg_a = 0b1000_0001;
    cpu.asl_accumulator();
    assert_eq!(cpu.reg_a, 0b0000_0010);
    assert!(cpu.status.contains(CARRY));
    cpu.rol_accumulator();
    assert_eq!(cpu.reg_a, 0b0000_0101);
    assert!(!cpu.status.contains(CARRY));
    cpu.lsr_accumulator();
    assert_eq!(cpu.reg_a, 0b0000_0010);
    assert!(cpu.status.contains(CARRY));
    cpu.ror_accumulator();
    assert_eq!(cpu.reg_a, 0b1000_0001);
    assert!(!cpu.status.contains(CARRY));
    assert!(cpu.status.contains(NEGATIV));
    cpu.mem_write(0x0000, 0x20);
    cpu.mem_write(0x0020, 0b1000_0000);
    cpu.reg_pc = 0;
    cpu.status.remove(ZERO);
    assert_eq!(cpu.rol(&AddressingMode::ZeroPage), 0);
    assert_eq!(cpu.mem_read(0x0020), 0);
    assert!(cpu.status.contains(CARRY));
    assert!(!cpu.status.contains(ZERO));
    assert_eq!(cpu.ror(&AddressingMode::ZeroPage), 0x80);
    assert_eq!(cpu.asl(&AddressingMode::ZeroPage), 0);
    assert!(cpu.status.contains(ZERO));
    cpu.mem_write(0x0020, 3);
    assert_eq!(cpu.lsr(&AddressingMode::ZeroPage), 1);
    assert!(cpu.status.contains(CARRY));
}

#[test]
fn branch_displacement_is_signed() {
    let cpu = run_to_halt(&[0xA2, 0x03, 0xCA, 0xD0, 0xFD, 0x00]);
    assert_eq!(cpu.reg_x, 0);
    assert_eq!(cpu.reg_pc, 0x8006);
    let forward = run_to_halt(&[0x18, 0x90, 0x02, 0xA9, 0x01, 0x00]);
    assert_eq!(forward.reg_a, 0);
    assert_eq!(forward.reg_pc, 0x8006);
    let not_taken = run_to_halt(&[0x38, 0x90, 0x02, 0xA9, 0x01, 0x00]);
    assert_eq!(not_taken.reg_a, 1);
}

#[test]
fn call_and_return() {
    let cpu = run_to_halt(&[0x20, 0x05, 0x80, 0xE8, 0x00, 0xA9, 0x07, 0x60]);
    assert_eq!(cpu.reg_a, 7);
    assert_eq!(cpu.reg_x, 1);
    assert_eq!(cpu.reg_sp, 0xFD);
    assert_eq!(cpu.reg_pc, 0x8005);
}

#[test]
fn call_pushes_the_address_of_its_last_byte() {
    let mut cpu = machine(&[0x20, 0x05, 0x80]);
    assert_eq!(cpu.step(), Outcome::Running);
    assert_eq!(cpu.reg_pc, 0x8005);
    assert_eq!(cpu.mem_read(0x01FD), 0x80);
    assert_eq!(cpu.mem_read(0x01FC), 0x02);
}

#[test]
fn jumps() {
    let cpu = run_to_halt(&[0x4C, 0x05, 0x80, 0xE8, 0x00, 0xC8, 0x00]);
    assert_eq!((cpu.reg_x, cpu.reg_y), (0, 1));
    let mut indirect = machine(&[0x6C, 0xFF, 0x02]);
    indirect.mem_write(0x02FF, 0x34);
    indirect.mem_write(0x0200, 0x12);
    indirect.mem_write(0x0300, 0x56);
    indirect.step();
    assert_eq!(indirect.reg_pc, 0x1234);
    let mut plain = machine(&[0x6C, 0x10, 0x02]);
    plain.mem_write(0x0210, 0x34);
    plain.mem_write(0x0211, 0x56);
    plain.step();
    assert_eq!(plain.reg_pc, 0x5634);
}

#[test]
fn program_counter_moves_past_operands() {
    let mut cpu = machine(&[0xAD, 0x00, 0x02, 0xA5, 0x10, 0xEA]);
    cpu.step();
    assert_eq!(cpu.reg_pc, 0x8003);
    cpu.step();
    assert_eq!(cpu.reg_pc, 0x8005);
    cpu.step();
    assert_eq!(cpu.reg_pc, 0x8006);
    assert_eq!(cpu.bus.cycles, 4 + 3 + 2);
}

#[test]
fn store_and_memory_increment() {
    let mut cpu = machine(&[0xA9, 0x7F, 0x85, 0x10, 0xE6, 0x10, 0xC6, 0x11, 0x00]);
    assert_eq!(cpu.run(100), Outcome::Halted);
    assert_eq!(cpu.mem_read(0x0010), 0x80);
    assert_eq!(cpu.mem_read(0x0011), 0xFF);
    assert!(cpu.status.contains(NEGATIV));
}

#[test]
fn bit_test() {
    let mut cpu = machine(&[0xA9, 0x0F, 0x24, 0x10, 0x00]);
    cpu.mem_write(0x0010, 0xC0);
    cpu.run(100);
    assert!(cpu.status.contains(ZERO));
    assert!(cpu.status.contains(NEGATIV));
    assert!(cpu.status.contains(OVERFLOW));
}

#[test]
fn logic_operations() {
    let cpu = run_to_halt(&[0xA9, 0xF0, 0x29, 0x3C, 0x49, 0xFF, 0x09, 0x01, 0x00]);
    assert_eq!(cpu.reg_a, 0xCF);
}

#[test]
fn flag_instructions() {
    let cpu = run_to_halt(&[0x38, 0xF8, 0x58, 0x00]);
    assert!(cpu.status.contains(CARRY));
    assert!(cpu.status.contains(DECIMAL_MODE));
    assert!(!cpu.status.contains(INTERRUPT_DISABLE));
    let cleared = run_to_halt(&[0x38, 0x18, 0xF8, 0xD8, 0x78, 0x00]);
    assert!(!cleared.status.contains(CARRY));
    assert!(!cleared.status.contains(DECIMAL_MODE));
    assert!(cleared.status.contains(INTERRUPT_DISABLE));
}

#[test]
fn undocumented_operations() {
    let mut lax = machine(&[0xA7, 0x10, 0x00]);
    lax.mem_write(0x0010, 0x99);
    lax.run(10);
    assert_eq!((lax.reg_a, lax.reg_x), (0x99, 0x99));
    let mut sax = machine(&[0xA9, 0xF0, 0xA2, 0x3C, 0x87, 0x10, 0x00]);
    sax.run(10);
    assert_eq!(sax.mem_read(0x0010), 0x30);
    let mut dcp = machine(&[0xA9, 0x05, 0xC7, 0x10, 0x00]);
    dcp.mem_write(0x0010, 0x06);
    dcp.run(10);
    assert_eq!(dcp.mem_read(0x0010), 0x05);
    assert!(dcp.status.contains(CARRY));
    assert!(dcp.status.contains(ZERO));
    let mut isb = machine(&[0xA9, 0x10, 0x38, 0xE7, 0x10, 0x00]);
    isb.mem_write(0x0010, 0x01);
    isb.run(10);
    assert_eq!(isb.mem_read(0x0010), 0x02);
    assert_eq!(isb.reg_a, 0x0E);
    let mut slo = machine(&[0xA9, 0x01, 0x07, 0x10, 0x00]);
    slo.mem_write(0x0010, 0x81);
    slo.run(10);
    assert_eq!(slo.mem_read(0x0010), 0x02);
    assert_eq!(slo.reg_a, 0x03);
    assert!(slo.status.contains(CARRY));
    let skb = run_to_halt(&[0x80, 0xFF, 0xE8, 0x00]);
    assert_eq!(skb.reg_x, 1);
    assert_eq!(skb.reg_pc, 0x8004);
    let anc = run_to_halt(&[0xA9, 0xFF, 0x0B, 0x80, 0x00]);
    assert_eq!(anc.reg_a, 0x80);
    assert!(anc.status.contains(CARRY));
    let axs = run_to_halt(&[0xA9, 0x0F, 0xA2, 0x3C, 0xCB, 0x02, 0x00]);
    assert_eq!(axs.reg_x, 0x0A);
    assert!(axs.status.contains(CARRY));
}

#[test]
fn interrupt_service() {
    let mut cpu = machine(&[]);
    cpu.reg_pc = 0x8123;
    cpu.status = CpuFlags::from_bits_truncate(0b1001_0001);
    let frame = cpu.interrupt(nmi());
    assert!(!frame);
    assert_eq!(cpu.reg_pc, 0x9000);
    assert_eq!(cpu.reg_sp, 0xFA);
    assert_eq!(cpu.mem_read(0x01FD), 0x81);
    assert_eq!(cpu.mem_read(0x01FC), 0x23);
    assert_eq!(cpu.mem_read(0x01FB), 0b1010_0001);
    assert!(cpu.status.contains(INTERRUPT_DISABLE));
    assert_eq!(cpu.bus.cycles, 2);
}

#[test]
fn pending_interrupt_is_taken_before_the_fetch() {
    let mut cpu = machine(&[0xEA, 0xEA]);
    cpu.bus.ppu.nmi_interrupt = Some(1);
    assert_eq!(cpu.step(), Outcome::Halted);
    assert_eq!(cpu.reg_pc, 0x9001);
    assert_eq!(cpu.bus.ppu.nmi_interrupt, None);
    assert_eq!(cpu.mem_read(0x01FD), 0x80);
    assert_eq!(cpu.mem_read(0x01FC), 0x00);
}

#[test]
fn return_from_interrupt() {
    let mut cpu = machine(&[0x40]);
    cpu.stack_push_u16(0x8456);
    cpu.stack_push(0b1101_0011);
    cpu.step();
    assert_eq!(cpu.reg_pc, 0x8456);
    assert_eq!(cpu.status.bits(), 0b1110_0011);
}

#[test]
fn run_stops_when_a_frame_ends() {
    let mut cpu = machine(&[0x4C, 0x00, 0x80]);
    assert_eq!(cpu.run(1_000_000), Outcome::FrameComplete);
    assert_eq!(cpu.bus.cycles, 29781);
    assert_eq!(cpu.bus.ppu.scanline, 0);
    assert_eq!(cpu.run(1_000_000), Outcome::FrameComplete);
}

#[test]
fn run_stops_when_the_budget_is_spent() {
    let mut cpu = machine(&[0xE8, 0xE8, 0xE8, 0xE8, 0x00]);
    assert_eq!(cpu.run(0), Outcome::Running);
    assert_eq!(cpu.reg_x, 0);
    assert_eq!(cpu.run(3), Outcome::Running);
    assert_eq!(cpu.reg_x, 3);
    assert_eq!(cpu.run(3), Outcome::Halted);
    assert_eq!(cpu.reg_x, 4);
}

#[test]
fn program_write_stops_the_run() {
    let mut cpu = machine(&[0xA9, 0x01, 0x8D, 0x00, 0x80, 0xE8, 0x00]);
    assert_eq!(cpu.run(100), Outcome::Illegal(IllegalAccess::ProgramWrite(0x8000)));
    assert_eq!(cpu.reg_pc, 0x8005);
    assert_eq!(cpu.mem_read(0x8000), 0xA9);
    assert_eq!(cpu.run(100), Outcome::Halted);
    assert_eq!(cpu.reg_x, 1);
}

#[test]
fn vblank_interrupt_reaches_the_handler() {
    let mut program = vec![0u8; 0x2000];
    program[..8].copy_from_slice(&[0xA9, 0x80, 0x8D, 0x00, 0x20, 0x4C, 0x05, 0x80]);
    program[0x1000] = 0xE8;
    program[0x1001] = 0x00;
    let mut cpu = machine(&program);
    assert_eq!(cpu.run(1_000_000), Outcome::Halted);
    assert_eq!(cpu.reg_x, 1);
    assert_eq!(cpu.bus.ppu.scanline, 241);
    assert!(cpu.status.contains(INTERRUPT_DISABLE));
}

#[test]
fn observer_sees_each_instruction_twice() {
    let mut cpu = machine(&[0xA9, 0x05, 0xAA, 0xE8, 0x00]);
    let calls = std::cell::Cell::new(0u32);
    let seen = std::cell::RefCell::new(Vec::new());
    let outcome = cpu.run_with_callback(100, |c: &Cpu| {
        calls.set(calls.get() + 1);
        seen.borrow_mut().push((c.reg_pc, c.reg_a, c.reg_x));
    });
    assert_eq!(outcome, Outcome::Halted);
    assert_eq!(calls.get(), 7);
    assert_eq!(
        *seen.borrow(),
        vec![
            (0x8000, 0, 0),
            (0x8002, 5, 0),
            (0x8002, 5, 0),
            (0x8003, 5, 5),
            (0x8003, 5, 5),
            (0x8004, 5, 6),
            (0x8004, 5, 6),
        ]
    );
    assert_eq!((cpu.reg_a, cpu.reg_x), (5, 6));
}

#[test]
fn observer_runs_after_the_interrupt_is_serviced() {
    let mut cpu = machine(&[0xEA]);
    cpu.bus.ppu.nmi_interrupt = Some(1);
    let first = std::cell::Cell::new(0u16);
    let outcome = cpu.run_with_callback(1, |c: &Cpu| {
        if first.get() == 0 {
            first.set(c.reg_pc);
        }
    });
    assert_eq!(outcome, Outcome::Halted);
    assert_eq!(first.get(), 0x9000);
}

#[test]
fn run_with_callback_matches_run() {
    let program = [0xA2, 0x10, 0xCA, 0xD0, 0xFD, 0xA9, 0x33, 0x8D, 0x00, 0x02, 0x00];
    let mut plain = machine(&program);
    let mut observed = machine(&program);
    assert_eq!(plain.run(1000), observed.run_with_callback(1000, |_c: &Cpu| {}));
    assert_eq!(plain.reg_pc, observed.reg_pc);
    assert_eq!(plain.bus.cycles, observed.bus.cycles);
    assert_eq!(plain.bus.cpu_vram[0x200], 0x33);
    assert_eq!(observed.bus.cpu_vram[0x200], 0x33);
}

#[test]
fn step_is_poll_then_fetch() {
    let mut whole = machine(&[0xE8, 0x00]);
    let mut parts = machine(&[0xE8, 0x00]);
    let outcome = whole.step();
    let frame = parts.poll_interrupt();
    assert!(!frame);
    assert_eq!(parts.fetch_execute(frame), outcome);
    assert_eq!(whole.reg_x, parts.reg_x);
    assert_eq!(whole.reg_pc, parts.reg_pc);
    assert_eq!(parts.fetch_execute(true), Outcome::Halted);
    let mut framed = machine(&[0xEA]);
    assert_eq!(framed.fetch_execute(true), Outcome::FrameComplete);
}

#[test]
fn flags_keep_their_bit_positions() {
    assert_eq!(
        [CARRY, ZERO, INTERRUPT_DISABLE, DECIMAL_MODE, BREAK, BREAK2, OVERFLOW, NEGATIV],
        [1, 2, 4, 8, 16, 32, 64, 128]
    );
    let mut flags = CpuFlags::from_bits_truncate(0);
    flags.insert(NEGATIV);
    flags.set(CARRY, true);
    assert_eq!(flags.bits(), 0x81);
    flags.set(NEGATIV, false);
    flags.remove(ZERO);
    assert_eq!(flags.bits(), 0x01);
    assert!(flags.contains(CARRY));
    assert!(!flags.contains(ZERO));
}

#[test]
fn execute_carries_out_one_operation() {
    let mut cpu = machine(&[]);
    cpu.reg_a = 0x41;
    cpu.execute(Operation::Tax, &AddressingMode::NoneAddressing);
    assert_eq!(cpu.reg_x, 0x41);
    cpu.mem_write(0x0000, 0x0F);
    cpu.reg_pc = 0;
    cpu.execute(Operation::And, &AddressingMode::Immediate);
    assert_eq!(cpu.reg_a, 0x01);
    assert!(cpu.execute_register(Operation::Inx, &AddressingMode::NoneAddressing));
    assert_eq!(cpu.reg_x, 0x42);
    assert!(!cpu.execute_flow(Operation::Inx, &AddressingMode::NoneAddressing));
    assert_eq!(cpu.reg_x, 0x42);
}

#[test]
fn frame_end_is_reported_before_an_illegal_access() {
    let mut cpu = machine(&[0x8D, 0x00, 0x80, 0xEA, 0x00]);
    assert_eq!(cpu.fetch_execute(true), Outcome::FrameComplete);
    assert_eq!(cpu.bus.illegal, Some(IllegalAccess::ProgramWrite(0x8000)));
    assert_eq!(cpu.step(), Outcome::Illegal(IllegalAccess::ProgramWrite(0x8000)));
    assert_eq!(cpu.reg_pc, 0x8004);
    assert_eq!(cpu.bus.illegal, None);
    assert_eq!(cpu.step(), Outcome::Halted);
}

#[test]
fn subtraction_through_the_instruction() {
    let cpu = run_to_halt(&[0xA9, 0x50, 0x38, 0xE9, 0x10, 0x00]);
    assert_eq!(cpu.reg_a, 0x40);
    assert!(cpu.status.contains(CARRY));
    assert!(!cpu.status.contains(OVERFLOW));
    let borrow = run_to_halt(&[0xA9, 0x10, 0x38, 0xEB, 0x20, 0x00]);
    assert_eq!(borrow.reg_a, 0xF0);
    assert!(!borrow.status.contains(CARRY));
    assert!(borrow.status.contains(NEGATIV));
}

#[test]
fn program_counter_wraps_at_the_end_of_memory() {
    let mut program = vec![0xEAu8; 0x8000];
    program[0x7FFF] = 0xE8;
    let mut cpu = machine(&program);
    cpu.reg_pc = 0xFFFF;
    assert_eq!(cpu.step(), Outcome::Running);
    assert_eq!(cpu.reg_x, 1);
    assert_eq!(cpu.reg_pc, 0x0000);
}
