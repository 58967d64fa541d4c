use vstd::prelude::*;
use crate::cpu::bus::{Bus, make_word};
use crate::cpu::flags::{
    CpuFlags, CARRY, ZERO, INTERRUPT_DISABLE, DECIMAL_MODE, BREAK, BREAK2, OVERFLOW, NEGATIV,
};
use crate::cpu::model::{CpuModel, add8, sub8};

verus! {

/// How an instruction finds its operand in the bytes that follow its opcode.
#[allow(non_camel_case_types)]
#[derive(Debug, Clone, Copy, PartialEq, Eq)]
pub enum AddressingMode {
    Immediate,
    ZeroPage,
    ZeroPage_X,
    ZeroPage_Y,
    Absolute,
    Absolute_X,
    Absolute_Y,
    Indirect_X,
    Indirect_Y,
    /// The instruction has no operand in memory. Never dereferenced.
    NoneAddressing,
}

/// Byte and word access to a 16-bit address space. Reads take `&mut self`
/// because reading a device register may change the device.
pub trait Memory {
    fn mem_read(&mut self, addr: u16) -> u8;

    fn mem_write(&mut self, addr: u16, data: u8);

    /// Reads a little-endian word: the low byte at `pos`, the high byte at
    /// the address after it.
    fn mem_read_u16(&mut self, pos: u16) -> u16;

    /// Writes a little-endian word: the low byte at `pos`, the high byte at
    /// the address after it.
    fn mem_write_u16(&mut self, pos: u16, data: u16);
}

/// First address of the stack page.
pub const STACK: u16 = 0x0100;

/// The stack pointer after a reset.
pub const STACK_RESET: u8 = 0xFD;

/// The status byte after a reset: interrupts disabled, Break2 raised.
pub const STATUS_RESET: u8 = 0b0010_0100;

/// Address of the word that a reset loads the program counter from.
pub const RESET_VECTOR: u16 = 0xFFFC;

/// The kinds of interrupt that the processor services.
#[derive(Debug, Clone, Copy, PartialEq, Eq)]
pub enum InterruptType {
    NMI,
}

/// What servicing an interrupt takes: where the handler's address lies,
/// how Break and Break2 are pushed, and what it costs.
#[derive(Debug, Clone, Copy)]
pub struct Interrupt {
    pub itype: InterruptType,
    pub vector_addr: u16,
    pub b_flag_mask: u8,
    pub cpu_cycles: u8,
}

/// The non-maskable interrupt, which the picture unit requests when
/// vertical blank begins.
pub fn nmi() -> (r: Interrupt)
    ensures
        r.itype is NMI,
        r.vector_addr == 0xFFFA,
        r.b_flag_mask == 0b0010_0000,
        r.cpu_cycles == 2,
{
    Interrupt {
        itype: InterruptType::NMI,
        vector_addr: 0xFFFA,
        b_flag_mask: 0b0010_0000,
        cpu_cycles: 2,
    }
}

/// The overflow test on bits is the overflow test on signs: both operands
/// have one sign and the result has the other.
proof fn lemma_overflow_bits(a: u8, data: u8, result: u8)
    ensures
        ((data ^ result) & (result ^ a) & 0x80 != 0) == ((a >= 128) == (data >= 128) && (result
            >= 128) != (a >= 128)),
{
    assert(((data ^ result) & (result ^ a) & 0x80 != 0) == ((a >= 128) == (data >= 128) && (result
        >= 128) != (a >= 128))) by (bit_vector);
}

/// The processor: three registers, stack pointer, status and program
/// counter, and the bus that it owns.
#[derive(Debug)]
pub struct Cpu {
    pub reg_a: u8,
    pub reg_x: u8,
    pub reg_y: u8,
    pub reg_sp: u8,
    pub status: CpuFlags,
    pub reg_pc: u16,
    pub bus: Bus,
}

impl View for Cpu {
    type V = CpuModel;

    open spec fn view(&self) -> CpuModel {
        CpuModel {
            a: self.reg_a,
            x: self.reg_x,
            y: self.reg_y,
            sp: self.reg_sp,
            p: self.status.bits,
            pc: self.reg_pc,
            bus: self.bus@,
        }
    }
}

impl Memory for Cpu {
    fn mem_read(&mut self, addr: u16) -> (r: u8)
        ensures
            final(self)@ == old(self)@.read(addr).0,
            r == old(self)@.read(addr).1,
            old(self)@.wf() ==> final(self)@.wf(),
    {
        self.bus.mem_read(addr)
    }

    fn mem_write(&mut self, addr: u16, data: u8)
        ensures
            final(self)@ == old(self)@.write(addr, data),
            old(self)@.wf() ==> final(self)@.wf(),
    {
        self.bus.mem_write(addr, data)
    }

    fn mem_read_u16(&mut self, pos: u16) -> (r: u16)
        ensures
            final(self)@ == old(self)@.read_u16(pos).0,
            r == old(self)@.read_u16(pos).1,
            old(self)@.wf() ==> final(self)@.wf(),
    {
        self.bus.mem_read_u16(pos)
    }

    fn mem_write_u16(&mut self, pos: u16, data: u16)
        ensures
            final(self)@ == old(self)@.write_u16(pos, data),
            old(self)@.wf() ==> final(self)@.wf(),
    {
        self.bus.mem_write_u16(pos, data)
    }
}

impl Cpu {
    /// A processor on `bus`, with the registers of a reset and the program
    /// counter at 0.
    pub fn new(bus: Bus) -> (r: Cpu)
        ensures
            r@ == (CpuModel { a: 0, x: 0, y: 0, sp: 0xFD, p: 0b0010_0100, pc: 0, bus: bus@ }),
            bus@.wf() ==> r@.wf(),
    {
        Cpu {
            reg_a: 0,
            reg_x: 0,
            reg_y: 0,
            reg_sp: STACK_RESET,
            reg_pc: 0,
            status: CpuFlags::from_bits_truncate(STATUS_RESET),
            bus,
        }
    }

    /// Puts the registers back to their reset values and loads the program
    /// counter from the reset vector. Memory stays as it is.
    pub fn reset(&mut self)
        ensures
            final(self)@ == old(self)@.reset(),
            old(self)@.wf() ==> final(self)@.wf(),
    {
        reveal(CpuModel::reset);
        self.reg_a = 0;
        self.reg_x = 0;
        self.reg_y = 0;
        self.reg_sp = STACK_RESET;
        self.status = CpuFlags::from_bits_truncate(STATUS_RESET);
        self.reg_pc = self.mem_read_u16(RESET_VECTOR);
    }

    /// The address of the operand of the instruction whose operand bytes
    /// begin at the program counter.
    pub fn get_operand_address(&mut self, mode: &AddressingMode) -> (addr: u16)
        requires
            !(*mode is NoneAddressing),
        ensures
            final(self)@ == old(self)@.operand_address(*mode).0,
            addr == old(self)@.operand_address(*mode).1,
            old(self)@.wf() ==> final(self)@.wf(),
    {
        reveal(CpuModel::operand_address);
        match *mode {
            AddressingMode::Immediate => self.reg_pc,
            AddressingMode::ZeroPage => self.mem_read(self.reg_pc) as u16,
            AddressingMode::Absolute => self.mem_read_u16(self.reg_pc),
            AddressingMode::ZeroPage_X => {
                let pos: u8 = self.mem_read(self.reg_pc);
                pos.wrapping_add(self.reg_x) as u16
            },
            AddressingMode::ZeroPage_Y => {
                let pos: u8 = self.mem_read(self.reg_pc);
                pos.wrapping_add(self.reg_y) as u16
            },
            AddressingMode::Absolute_X => {
                let base: u16 = self.mem_read_u16(self.reg_pc);
                base.wrapping_add(self.reg_x as u16)
            },
            AddressingMode::Absolute_Y => {
                let base: u16 = self.mem_read_u16(self.reg_pc);
                base.wrapping_add(self.reg_y as u16)
            },
            AddressingMode::Indirect_X => {
                let base: u8 = self.mem_read(self.reg_pc);
                let ptr: u8 = base.wrapping_add(self.reg_x);
                let lo: u8 = self.mem_read(ptr as u16);
                let hi: u8 = self.mem_read(ptr.wrapping_add(1) as u16);
                make_word(lo, hi)
            },
            AddressingMode::Indirect_Y => {
                let base: u8 = self.mem_read(self.reg_pc);
                let lo: u8 = self.mem_read(base as u16);
                let hi: u8 = self.mem_read(base.wrapping_add(1) as u16);
                let deref_base: u16 = make_word(lo, hi);
                deref_base.wrapping_add(self.reg_y as u16)
            },
            AddressingMode::NoneAddressing => 0,
        }
    }

    /// Reads the operand that the addressing mode finds.
    pub fn read_operand(&mut self, mode: &AddressingMode) -> (r: (u16, u8))
        requires
            !(*mode is NoneAddressing),
        ensures
            final(self)@ == old(self)@.operand(*mode).0,
            r.0 == old(self)@.operand(*mode).1,
            r.1 == old(self)@.operand(*mode).2,
            old(self)@.wf() ==> final(self)@.wf(),
    {
        reveal(CpuModel::operand);
        let addr: u16 = self.get_operand_address(mode);
        let data: u8 = self.mem_read(addr);
        (addr, data)
    }

    pub fn ldy(&mut self, mode: &AddressingMode)
        requires
            !(*mode is NoneAddressing),
        ensures
            final(self)@ == old(self)@.ldy(*mode),
            old(self)@.wf() ==> final(self)@.wf(),
    {
        reveal(CpuModel::ldy);
        let (_addr, data) = self.read_operand(mode);
        self.reg_y = data;
        self.update_zero_and_negative_flags(data);
    }

    pub fn ldx(&mut self, mode: &AddressingMode)
        requires
            !(*mode is NoneAddressing),
        ensures
            final(self)@ == old(self)@.ldx(*mode),
            old(self)@.wf() ==> final(self)@.wf(),
    {
        reveal(CpuModel::ldx);
        let (_addr, data) = self.read_operand(mode);
        self.reg_x = data;
        self.update_zero_and_negative_flags(data);
    }

    pub fn lda(&mut self, mode: &AddressingMode)
        requires
            !(*mode is NoneAddressing),
        ensures
            final(self)@ == old(self)@.lda(*mode),
            old(self)@.wf() ==> final(self)@.wf(),
    {
        reveal(CpuModel::lda);
        let (_addr, data) = self.read_operand(mode);
        self.set_reg_a(data);
    }

    /// Stores `value` at the operand's address.
    pub fn store(&mut self, mode: &AddressingMode, value: u8)
        requires
            !(*mode is NoneAddressing),
        ensures
            final(self)@ == old(self)@.store(*mode, value),
            old(self)@.wf() ==> final(self)@.wf(),
    {
        reveal(CpuModel::store);
        let addr: u16 = self.get_operand_address(mode);
        self.mem_write(addr, value);
    }

    pub fn sta(&mut self, mode: &AddressingMode)
        requires
            !(*mode is NoneAddressing),
        ensures
            final(self)@ == old(self)@.store(*mode, old(self)@.a),
            old(self)@.wf() ==> final(self)@.wf(),
    {
        reveal(CpuModel::store);
        let value: u8 = self.reg_a;
        self.store(mode, value);
    }

    pub fn set_reg_a(&mut self, value: u8)
        ensures
            final(self)@ == old(self)@.set_a(value),
            old(self)@.wf() ==> final(self)@.wf(),
    {
        self.reg_a = value;
        self.update_zero_and_negative_flags(value);
    }

    pub fn set_reg_x(&mut self, value: u8)
        ensures
            final(self)@ == old(self)@.set_x(value),
            old(self)@.wf() ==> final(self)@.wf(),
    {
        self.reg_x = value;
        self.update_zero_and_negative_flags(value);
    }

    pub fn set_reg_y(&mut self, value: u8)
        ensures
            final(self)@ == old(self)@.set_y(value),
            old(self)@.wf() ==> final(self)@.wf(),
    {
        self.reg_y = value;
        self.update_zero_and_negative_flags(value);
    }

    pub fn and(&mut self, mode: &AddressingMode)
        requires
            !(*mode is NoneAddressing),
        ensures
            final(self)@ == old(self)@.and(*mode),
            old(self)@.wf() ==> final(self)@.wf(),
    {
        reveal(CpuModel::and);
        let (_addr, data) = self.read_operand(mode);
        self.and_with_reg_a(data);
    }

    pub fn eor(&mut self, mode: &AddressingMode)
        requires
            !(*mode is NoneAddressing),
        ensures
            final(self)@ == old(self)@.eor(*mode),
            old(self)@.wf() ==> final(self)@.wf(),
    {
        reveal(CpuModel::eor);
        let (_addr, data) = self.read_operand(mode);
        self.xor_with_reg_a(data);
    }

    pub fn ora(&mut self, mode: &AddressingMode)
        requires
            !(*mode is NoneAddressing),
        ensures
            final(self)@ == old(self)@.ora(*mode),
            old(self)@.wf() ==> final(self)@.wf(),
    {
        reveal(CpuModel::ora);
        let (_addr, data) = self.read_operand(mode);
        self.or_with_reg_a(data);
    }

    pub fn tax(&mut self)
        ensures
            final(self)@ == old(self)@.set_x(old(self)@.a),
            old(self)@.wf() ==> final(self)@.wf(),
    {
        self.set_reg_x(self.reg_a);
    }

    /// Zero is set iff `result` is 0, Negative iff its high bit is 1.
    pub fn update_zero_and_negative_flags(&mut self, result: u8)
        ensures
            final(self)@ == old(self)@.set_zn(result),
            old(self)@.wf() ==> final(self)@.wf(),
    {
        self.status.set(ZERO, result == 0);
        self.status.set(NEGATIV, result >= 128);
    }

    /// Negative is set iff the high bit of `result` is 1.
    pub fn update_negative_flags(&mut self, result: u8)
        ensures
            final(self)@ == old(self)@.set_n(result),
            old(self)@.wf() ==> final(self)@.wf(),
    {
        self.status.set(NEGATIV, result >= 128);
    }

    pub fn inx(&mut self)
        ensures
            final(self)@ == old(self)@.set_x(add8(old(self)@.x, 1)),
            old(self)@.wf() ==> final(self)@.wf(),
    {
        self.set_reg_x(self.reg_x.wrapping_add(1));
    }

    pub fn iny(&mut self)
        ensures
            final(self)@ == old(self)@.set_y(add8(old(self)@.y, 1)),
            old(self)@.wf() ==> final(self)@.wf(),
    {
        self.set_reg_y(self.reg_y.wrapping_add(1));
    }

    pub fn dex(&mut self)
        ensures
            final(self)@ == old(self)@.set_x(sub8(old(self)@.x, 1)),
            old(self)@.wf() ==> final(self)@.wf(),
    {
        self.set_reg_x(self.reg_x.wrapping_sub(1));
    }

    pub fn dey(&mut self)
        ensures
            final(self)@ == old(self)@.set_y(sub8(old(self)@.y, 1)),
            old(self)@.wf() ==> final(self)@.wf(),
    {
        self.set_reg_y(self.reg_y.wrapping_sub(1));
    }

    pub fn set_carry_flag(&mut self)
        ensures
            final(self)@ == old(self)@.set_flag(CARRY, true),
            old(self)@.wf() ==> final(self)@.wf(),
    {
        self.status.insert(CARRY)
    }

    pub fn clear_carry_flag(&mut self)
        ensures
            final(self)@ == old(self)@.set_flag(CARRY, false),
            old(self)@.wf() ==> final(self)@.wf(),
    {
        self.status.remove(CARRY)
    }

    /// Adds `data` and Carry to the accumulator, setting Carry, Overflow,
    /// Zero and Negative.
    pub fn add_to_reg_a(&mut self, data: u8)
        ensures
            final(self)@ == old(self)@.add_to_a(data),
            old(self)@.wf() ==> final(self)@.wf(),
    {
        reveal(CpuModel::add_to_a);
        let carry_in: u16 = if self.status.contains(CARRY) { 1 } else { 0 };
        let sum: u16 = self.reg_a as u16 + data as u16 + carry_in;
        self.status.set(CARRY, sum > 0xff);
        let result: u8 = (sum % 256) as u8;
        proof {
            lemma_overflow_bits(self.reg_a, data, result);
        }
        self.status.set(OVERFLOW, (data ^ result) & (result ^ self.reg_a) & 0x80 != 0);
        self.set_reg_a(result);
    }

    /// Subtracts `data` and the borrow from the accumulator.
    pub fn sub_from_reg_a(&mut self, data: u8)
        ensures
            final(self)@ == old(self)@.sub_from_a(data),
            old(self)@.wf() ==> final(self)@.wf(),
    {
        self.add_to_reg_a(255 - data);
    }

    pub fn and_with_reg_a(&mut self, data: u8)
        ensures
            final(self)@ == old(self)@.set_a(data & old(self)@.a),
            old(self)@.wf() ==> final(self)@.wf(),
    {
        self.set_reg_a(data & self.reg_a);
    }

    pub fn xor_with_reg_a(&mut self, data: u8)
        ensures
            final(self)@ == old(self)@.set_a(data ^ old(self)@.a),
            old(self)@.wf() ==> final(self)@.wf(),
    {
        self.set_reg_a(data ^ self.reg_a);
    }

    pub fn or_with_reg_a(&mut self, data: u8)
        ensures
            final(self)@ == old(self)@.set_a(data | old(self)@.a),
            old(self)@.wf() ==> final(self)@.wf(),
    {
        self.set_reg_a(data | self.reg_a);
    }

    pub fn sbc(&mut self, mode: &AddressingMode)
        requires
            !(*mode is NoneAddressing),
        ensures
            final(self)@ == old(self)@.sbc(*mode),
            old(self)@.wf() ==> final(self)@.wf(),
    {
        reveal(CpuModel::sbc);
        let (_addr, data) = self.read_operand(mode);
        self.sub_from_reg_a(data);
    }

    pub fn adc(&mut self, mode: &AddressingMode)
        requires
            !(*mode is NoneAddressing),
        ensures
            final(self)@ == old(self)@.adc(*mode),
            old(self)@.wf() ==> final(self)@.wf(),
    {
        reveal(CpuModel::adc);
        let (_addr, data) = self.read_operand(mode);
        self.add_to_reg_a(data);
    }

    pub fn stack_pop(&mut self) -> (r: u8)
        ensures
            final(self)@ == old(self)@.pop().0,
            r == old(self)@.pop().1,
            old(self)@.wf() ==> final(self)@.wf(),
    {
        reveal(CpuModel::pop);
        self.reg_sp = self.reg_sp.wrapping_add(1);
        self.mem_read(STACK + self.reg_sp as u16)
    }

    pub fn stack_push(&mut self, data: u8)
        ensures
            final(self)@ == old(self)@.push(data),
            old(self)@.wf() ==> final(self)@.wf(),
    {
        reveal(CpuModel::push);
        self.mem_write(STACK + self.reg_sp as u16, data);
        self.reg_sp = self.reg_sp.wrapping_sub(1)
    }

    pub fn stack_push_u16(&mut self, data: u16)
        ensures
            final(self)@ == old(self)@.push_u16(data),
            old(self)@.wf() ==> final(self)@.wf(),
    {
        reveal(CpuModel::push_u16);
        let hi: u8 = (data / 256) as u8;
        let lo: u8 = (data % 256) as u8;
        self.stack_push(hi);
        self.stack_push(lo);
    }

    pub fn stack_pop_u16(&mut self) -> (r: u16)
        ensures
            final(self)@ == old(self)@.pop_u16().0,
            r == old(self)@.pop_u16().1,
            old(self)@.wf() ==> final(self)@.wf(),
    {
        reveal(CpuModel::pop_u16);
        let lo: u8 = self.stack_pop();
        let hi: u8 = self.stack_pop();
        make_word(lo, hi)
    }

    pub fn asl_accumulator(&mut self)
        ensures
            final(self)@ == old(self)@.asl_accumulator(),
            old(self)@.wf() ==> final(self)@.wf(),
    {
        reveal(CpuModel::asl_accumulator);
        let data: u8 = self.reg_a;
        self.status.set(CARRY, data >= 128);
        self.set_reg_a((data % 128) * 2)
    }

    pub fn asl(&mut self, mode: &AddressingMode) -> (r: u8)
        requires
            !(*mode is NoneAddressing),
        ensures
            final(self)@ == old(self)@.asl(*mode).0,
            r == old(self)@.asl(*mode).1,
            old(self)@.wf() ==> final(self)@.wf(),
    {
        reveal(CpuModel::asl);
        let (addr, data) = self.read_operand(mode);
        self.status.set(CARRY, data >= 128);
        let result: u8 = (data % 128) * 2;
        self.mem_write(addr, result);
        self.update_zero_and_negative_flags(result);
        result
    }

    pub fn lsr_accumulator(&mut self)
        ensures
            final(self)@ == old(self)@.lsr_accumulator(),
            old(self)@.wf() ==> final(self)@.wf(),
    {
        reveal(CpuModel::lsr_accumulator);
        let data: u8 = self.reg_a;
        self.status.set(CARRY, data % 2 == 1);
        self.set_reg_a(data / 2)
    }

    pub fn lsr(&mut self, mode: &AddressingMode) -> (r: u8)
        requires
            !(*mode is NoneAddressing),
        ensures
            final(self)@ == old(self)@.lsr(*mode).0,
            r == old(self)@.lsr(*mode).1,
            old(self)@.wf() ==> final(self)@.wf(),
    {
        reveal(CpuModel::lsr);
        let (addr, data) = self.read_operand(mode);
        self.status.set(CARRY, data % 2 == 1);
        let result: u8 = data / 2;
        self.mem_write(addr, result);
        self.update_zero_and_negative_flags(result);
        result
    }

    pub fn rol(&mut self, mode: &AddressingMode) -> (r: u8)
        requires
            !(*mode is NoneAddressing),
        ensures
            final(self)@ == old(self)@.rol(*mode).0,
            r == old(self)@.rol(*mode).1,
            old(self)@.wf() ==> final(self)@.wf(),
    {
        reveal(CpuModel::rol);
        let (addr, data) = self.read_operand(mode);
        let old_carry: bool = self.status.contains(CARRY);
        self.status.set(CARRY, data >= 128);
        let result: u8 = (data % 128) * 2 + if old_carry { 1 } else { 0 };
        self.mem_write(addr, result);
        self.update_negative_flags(result);
        result
    }

    pub fn rol_accumulator(&mut self)
        ensures
            final(self)@ == old(self)@.rol_accumulator(),
            old(self)@.wf() ==> final(self)@.wf(),
    {
        reveal(CpuModel::rol_accumulator);
        let data: u8 = self.reg_a;
        let old_carry: bool = self.status.contains(CARRY);
        self.status.set(CARRY, data >= 128);
        self.set_reg_a((data % 128) * 2 + if old_carry { 1 } else { 0 });
    }

    pub fn ror(&mut self, mode: &AddressingMode) -> (r: u8)
        requires
            !(*mode is NoneAddressing),
        ensures
            final(self)@ == old(self)@.ror(*mode).0,
            r == old(self)@.ror(*mode).1,
            old(self)@.wf() ==> final(self)@.wf(),
    {
        reveal(CpuModel::ror);
        let (addr, data) = self.read_operand(mode);
        let old_carry: bool = self.status.contains(CARRY);
        self.status.set(CARRY, data % 2 == 1);
        let result: u8 = data / 2 + if old_carry { 128 } else { 0 };
        self.mem_write(addr, result);
        self.update_negative_flags(result);
        result
    }

    pub fn ror_accumulator(&mut self)
        ensures
            final(self)@ == old(self)@.ror_accumulator(),
            old(self)@.wf() ==> final(self)@.wf(),
    {
        reveal(CpuModel::ror_accumulator);
        let data: u8 = self.reg_a;
        let old_carry: bool = self.status.contains(CARRY);
        self.status.set(CARRY, data % 2 == 1);
        self.set_reg_a(data / 2 + if old_carry { 128 } else { 0 });
    }

    pub fn inc(&mut self, mode: &AddressingMode) -> (r: u8)
        requires
            !(*mode is NoneAddressing),
        ensures
            final(self)@ == old(self)@.inc(*mode).0,
            r == old(self)@.inc(*mode).1,
            old(self)@.wf() ==> final(self)@.wf(),
    {
        reveal(CpuModel::inc);
        let (addr, data) = self.read_operand(mode);
        let result: u8 = data.wrapping_add(1);
        self.mem_write(addr, result);
        self.update_zero_and_negative_flags(result);
        result
    }

    pub fn dec(&mut self, mode: &AddressingMode) -> (r: u8)
        requires
            !(*mode is NoneAddressing),
        ensures
            final(self)@ == old(self)@.dec(*mode).0,
            r == old(self)@.dec(*mode).1,
            old(self)@.wf() ==> final(self)@.wf(),
    {
        reveal(CpuModel::dec);
        let (addr, data) = self.read_operand(mode);
        let result: u8 = data.wrapping_sub(1);
        self.mem_write(addr, result);
        self.update_zero_and_negative_flags(result);
        result
    }

    pub fn pla(&mut self)
        ensures
            final(self)@ == old(self)@.pla(),
            old(self)@.wf() ==> final(self)@.wf(),
    {
        reveal(CpuModel::pla);
        let data: u8 = self.stack_pop();
        self.set_reg_a(data);
    }

    pub fn plp(&mut self)
        ensures
            final(self)@ == old(self)@.plp(),
            old(self)@.wf() ==> final(self)@.wf(),
    {
        reveal(CpuModel::plp);
        let data: u8 = self.stack_pop();
        self.status = CpuFlags::from_bits_truncate(data);
        self.status.remove(BREAK);
        self.status.insert(BREAK2);
    }

    pub fn php(&mut self)
        ensures
            final(self)@ == old(self)@.php(),
            old(self)@.wf() ==> final(self)@.wf(),
    {
        reveal(CpuModel::php);
        let mut flags: CpuFlags = self.status;
        flags.insert(BREAK);
        flags.insert(BREAK2);
        self.stack_push(flags.bits());
    }

    pub fn bit(&mut self, mode: &AddressingMode)
        requires
            !(*mode is NoneAddressing),
        ensures
            final(self)@ == old(self)@.bit(*mode),
            old(self)@.wf() ==> final(self)@.wf(),
    {
        reveal(CpuModel::bit);
        let (_addr, data) = self.read_operand(mode);
        self.status.set(ZERO, self.reg_a & data == 0);
        self.status.set(NEGATIV, data >= 128);
        self.status.set(OVERFLOW, data & 0b0100_0000 != 0);
    }

    /// Compares the operand with `compare_with`: Carry is set iff the
    /// operand is at most `compare_with`.
    pub fn compare(&mut self, mode: &AddressingMode, compare_with: u8)
        requires
            !(*mode is NoneAddressing),
        ensures
            final(self)@ == old(self)@.compare(*mode, compare_with),
            old(self)@.wf() ==> final(self)@.wf(),
    {
        reveal(CpuModel::compare);
        let (_addr, data) = self.read_operand(mode);
        self.status.set(CARRY, data <= compare_with);
        self.update_zero_and_negative_flags(compare_with.wrapping_sub(data));
    }

    pub fn branch(&mut self, condition: bool)
        ensures
            final(self)@ == old(self)@.branch(condition),
            old(self)@.wf() ==> final(self)@.wf(),
    {
        reveal(CpuModel::branch);
        if condition {
            let jump: u8 = self.mem_read(self.reg_pc);
            let extended: u16 = if jump >= 128 { 0xFF00 + jump as u16 } else { jump as u16 };
            self.reg_pc = self.reg_pc.wrapping_add(1).wrapping_add(extended);
        }
    }

    /// Services an interrupt and says whether a frame ended while the bus
    /// ran for its cycles.
    pub fn interrupt(&mut self, interrupt: Interrupt) -> (frame: bool)
        requires
            interrupt.cpu_cycles <= 85,
        ensures
            final(self)@ == old(self)@.service(
                interrupt.vector_addr,
                interrupt.b_flag_mask,
                interrupt.cpu_cycles,
            ).0,
            frame == old(self)@.service(
                interrupt.vector_addr,
                interrupt.b_flag_mask,
                interrupt.cpu_cycles,
            ).1,
            old(self)@.wf() ==> final(self)@.wf(),
    {
        reveal(CpuModel::service);
        self.stack_push_u16(self.reg_pc);
        let mut flag: CpuFlags = self.status;
        flag.set(BREAK, interrupt.b_flag_mask & BREAK == BREAK);
        flag.set(BREAK2, interrupt.b_flag_mask & BREAK2 == BREAK2);
        self.stack_push(flag.bits());
        self.status.insert(INTERRUPT_DISABLE);
        let frame: bool = self.bus.tick(interrupt.cpu_cycles);
        self.reg_pc = self.mem_read_u16(interrupt.vector_addr);
        frame
    }

    pub fn jmp_absolute(&mut self)
        ensures
            final(self)@ == old(self)@.jmp_absolute(),
            old(self)@.wf() ==> final(self)@.wf(),
    {
        reveal(CpuModel::jmp_absolute);
        self.reg_pc = self.mem_read_u16(self.reg_pc);
    }

    pub fn jmp_indirect(&mut self)
        ensures
            final(self)@ == old(self)@.jmp_indirect(),
            old(self)@.wf() ==> final(self)@.wf(),
    {
        reveal(CpuModel::jmp_indirect);
        let mem_address: u16 = self.mem_read_u16(self.reg_pc);
        let indirect_ref: u16 = if mem_address % 256 == 255 {
            let lo: u8 = self.mem_read(mem_address);
            let hi: u8 = self.mem_read(mem_address - 255);
            make_word(lo, hi)
        } else {
            self.mem_read_u16(mem_address)
        };
        self.reg_pc = indirect_ref;
    }

    pub fn jsr(&mut self)
        ensures
            final(self)@ == old(self)@.jsr(),
            old(self)@.wf() ==> final(self)@.wf(),
    {
        reveal(CpuModel::jsr);
        self.stack_push_u16(self.reg_pc.wrapping_add(1));
        self.reg_pc = self.mem_read_u16(self.reg_pc);
    }

    pub fn rts(&mut self)
        ensures
            final(self)@ == old(self)@.rts(),
            old(self)@.wf() ==> final(self)@.wf(),
    {
        reveal(CpuModel::rts);
        let addr: u16 = self.stack_pop_u16();
        self.reg_pc = addr.wrapping_add(1);
    }

    pub fn rti(&mut self)
        ensures
            final(self)@ == old(self)@.rti(),
            old(self)@.wf() ==> final(self)@.wf(),
    {
        reveal(CpuModel::rti);
        self.plp();
        self.reg_pc = self.stack_pop_u16();
    }

    pub fn dcp(&mut self, mode: &AddressingMode)
        requires
            !(*mode is NoneAddressing),
        ensures
            final(self)@ == old(self)@.dcp(*mode),
            old(self)@.wf() ==> final(self)@.wf(),
    {
        reveal(CpuModel::dcp);
        let (addr, data) = self.read_operand(mode);
        let result: u8 = data.wrapping_sub(1);
        self.mem_write(addr, result);
        if result <= self.reg_a {
            self.status.insert(CARRY);
        }
        self.update_zero_and_negative_flags(self.reg_a.wrapping_sub(result));
    }

    pub fn rla(&mut self, mode: &AddressingMode)
        requires
            !(*mode is NoneAddressing),
        ensures
            final(self)@ == old(self)@.rla(*mode),
            old(self)@.wf() ==> final(self)@.wf(),
    {
        reveal(CpuModel::rla);
        let data: u8 = self.rol(mode);
        self.and_with_reg_a(data);
    }

    pub fn slo(&mut self, mode: &AddressingMode)
        requires
            !(*mode is NoneAddressing),
        ensures
            final(self)@ == old(self)@.slo(*mode),
            old(self)@.wf() ==> final(self)@.wf(),
    {
        reveal(CpuModel::slo);
        let data: u8 = self.asl(mode);
        self.or_with_reg_a(data);
    }

    pub fn sre(&mut self, mode: &AddressingMode)
        requires
            !(*mode is NoneAddressing),
        ensures
            final(self)@ == old(self)@.sre(*mode),
            old(self)@.wf() ==> final(self)@.wf(),
    {
        reveal(CpuModel::sre);
        let data: u8 = self.lsr(mode);
        self.xor_with_reg_a(data);
    }

    pub fn rra(&mut self, mode: &AddressingMode)
        requires
            !(*mode is NoneAddressing),
        ensures
            final(self)@ == old(self)@.rra(*mode),
            old(self)@.wf() ==> final(self)@.wf(),
    {
        reveal(CpuModel::rra);
        let data: u8 = self.ror(mode);
        self.add_to_reg_a(data);
    }

    pub fn isb(&mut self, mode: &AddressingMode)
        requires
            !(*mode is NoneAddressing),
        ensures
            final(self)@ == old(self)@.isb(*mode),
            old(self)@.wf() ==> final(self)@.wf(),
    {
        reveal(CpuModel::isb);
        let data: u8 = self.inc(mode);
        self.sub_from_reg_a(data);
    }

    pub fn axs(&mut self, mode: &AddressingMode)
        requires
            !(*mode is NoneAddressing),
        ensures
            final(self)@ == old(self)@.axs(*mode),
            old(self)@.wf() ==> final(self)@.wf(),
    {
        reveal(CpuModel::axs);
        let (_addr, data) = self.read_operand(mode);
        let x_and_a: u8 = self.reg_x & self.reg_a;
        if data <= x_and_a {
            self.status.insert(CARRY);
        }
        self.set_reg_x(x_and_a.wrapping_sub(data));
    }

    pub fn arr(&mut self, mode: &AddressingMode)
        requires
            !(*mode is NoneAddressing),
        ensures
            final(self)@ == old(self)@.arr(*mode),
            old(self)@.wf() ==> final(self)@.wf(),
    {
        reveal(CpuModel::arr);
        let (_addr, data) = self.read_operand(mode);
        self.and_with_reg_a(data);
        self.ror_accumulator();
        let result: u8 = self.reg_a;
        let bit_5: bool = (result / 32) % 2 == 1;
        let bit_6: bool = (result / 64) % 2 == 1;
        self.status.set(CARRY, bit_6);
        self.status.set(OVERFLOW, bit_5 != bit_6);
        self.update_zero_and_negative_flags(result);
    }

    pub fn anc(&mut self, mode: &AddressingMode)
        requires
            !(*mode is NoneAddressing),
        ensures
            final(self)@ == old(self)@.anc(*mode),
            old(self)@.wf() ==> final(self)@.wf(),
    {
        reveal(CpuModel::anc);
        let (_addr, data) = self.read_operand(mode);
        self.and_with_reg_a(data);
        let negative: bool = self.status.contains(NEGATIV);
        self.status.set(CARRY, negative);
    }

    pub fn alr(&mut self, mode: &AddressingMode)
        requires
            !(*mode is NoneAddressing),
        ensures
            final(self)@ == old(self)@.alr(*mode),
            old(self)@.wf() ==> final(self)@.wf(),
    {
        reveal(CpuModel::alr);
        let (_addr, data) = self.read_operand(mode);
        self.and_with_reg_a(data);
        self.lsr_accumulator();
    }

    pub fn lax(&mut self, mode: &AddressingMode)
        requires
            !(*mode is NoneAddressing),
        ensures
            final(self)@ == old(self)@.lax(*mode),
            old(self)@.wf() ==> final(self)@.wf(),
    {
        reveal(CpuModel::lax);
        self.lda(mode);
        self.reg_x = self.reg_a;
    }

    pub fn lxa(&mut self, mode: &AddressingMode)
        requires
            !(*mode is NoneAddressing),
        ensures
            final(self)@ == old(self)@.lxa(*mode),
            old(self)@.wf() ==> final(self)@.wf(),
    {
        reveal(CpuModel::lxa);
        self.lda(mode);
        self.tax();
    }

    pub fn xaa(&mut self, mode: &AddressingMode)
        requires
            !(*mode is NoneAddressing),
        ensures
            final(self)@ == old(self)@.xaa(*mode),
            old(self)@.wf() ==> final(self)@.wf(),
    {
        reveal(CpuModel::xaa);
        self.set_reg_a(self.reg_x);
        let (_addr, data) = self.read_operand(mode);
        self.and_with_reg_a(data);
    }

    pub fn las(&mut self, mode: &AddressingMode)
        requires
            !(*mode is NoneAddressing),
        ensures
            final(self)@ == old(self)@.las(*mode),
            old(self)@.wf() ==> final(self)@.wf(),
    {
        reveal(CpuModel::las);
        let (_addr, data) = self.read_operand(mode);
        let value: u8 = data & self.reg_sp;
        self.reg_a = value;
        self.reg_x = value;
        self.reg_sp = value;
        self.update_zero_and_negative_flags(value);
    }

    /// The absolute operand indexed by `index`.
    pub fn indexed_absolute(&mut self, index: u8) -> (addr: u16)
        ensures
            final(self)@ == old(self)@.indexed_absolute(index).0,
            addr == old(self)@.indexed_absolute(index).1,
            old(self)@.wf() ==> final(self)@.wf(),
    {
        reveal(CpuModel::indexed_absolute);
        let base: u16 = self.mem_read_u16(self.reg_pc);
        base.wrapping_add(index as u16)
    }

    pub fn tas(&mut self)
        ensures
            final(self)@ == old(self)@.tas(),
            old(self)@.wf() ==> final(self)@.wf(),
    {
        reveal(CpuModel::tas);
        self.reg_sp = self.reg_a & self.reg_x;
        let mem_address: u16 = self.indexed_absolute(self.reg_y);
        let high: u8 = (mem_address / 256) as u8;
        let data: u8 = high.wrapping_add(1) & self.reg_sp;
        self.mem_write(mem_address, data)
    }

    pub fn ahx_indirect_y(&mut self)
        ensures
            final(self)@ == old(self)@.ahx_indirect_y(),
            old(self)@.wf() ==> final(self)@.wf(),
    {
        reveal(CpuModel::ahx_indirect_y);
        let pos: u8 = self.mem_read(self.reg_pc);
        let base: u16 = self.mem_read_u16(pos as u16);
        let mem_address: u16 = base.wrapping_add(self.reg_y as u16);
        let data: u8 = self.reg_a & self.reg_x & (mem_address / 256) as u8;
        self.mem_write(mem_address, data)
    }

    pub fn ahx_absolute_y(&mut self)
        ensures
            final(self)@ == old(self)@.ahx_absolute_y(),
            old(self)@.wf() ==> final(self)@.wf(),
    {
        reveal(CpuModel::ahx_absolute_y);
        let mem_address: u16 = self.indexed_absolute(self.reg_y);
        let data: u8 = self.reg_a & self.reg_x & (mem_address / 256) as u8;
        self.mem_write(mem_address, data)
    }

    pub fn shx(&mut self)
        ensures
            final(self)@ == old(self)@.shx(),
            old(self)@.wf() ==> final(self)@.wf(),
    {
        reveal(CpuModel::shx);
        let mem_address: u16 = self.indexed_absolute(self.reg_y);
        let high: u8 = (mem_address / 256) as u8;
        let data: u8 = self.reg_x & high.wrapping_add(1);
        self.mem_write(mem_address, data)
    }

    pub fn shy(&mut self)
        ensures
            final(self)@ == old(self)@.shy(),
            old(self)@.wf() ==> final(self)@.wf(),
    {
        reveal(CpuModel::shy);
        let mem_address: u16 = self.indexed_absolute(self.reg_x);
        let high: u8 = (mem_address / 256) as u8;
        let data: u8 = self.reg_y & high.wrapping_add(1);
        self.mem_write(mem_address, data)
    }
}

} // verus!
