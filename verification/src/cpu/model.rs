use vstd::prelude::*;
use crate::access::IllegalAccess;
use crate::cpu::bus::{BusModel, word, low_byte, high_byte, next_addr};
use crate::cpu::cpu::AddressingMode;
use crate::cpu::flags::{flag, with_flag, lemma_flag_written};
use crate::cpu::opcodes::{Operation, entry};

verus! {

/// Sum of two bytes, wrapping at 256.
pub open spec fn add8(a: u8, b: u8) -> u8 {
    if a + b > 255 {
        (a + b - 256) as u8
    } else {
        (a + b) as u8
    }
}

/// Difference of two bytes, wrapping at 256.
pub open spec fn sub8(a: u8, b: u8) -> u8 {
    if a < b {
        (a - b + 256) as u8
    } else {
        (a - b) as u8
    }
}

/// Sum of two addresses, wrapping at the end of the address space.
pub open spec fn add16(a: u16, b: u16) -> u16 {
    if a + b > 0xFFFF {
        (a + b - 0x10000) as u16
    } else {
        (a + b) as u16
    }
}

/// The byte read as a two's-complement number.
pub open spec fn signed(b: u8) -> int {
    if b >= 128 {
        b - 256
    } else {
        b as int
    }
}

/// Where a taken branch goes: the displacement is signed and counts from
/// the address after the displacement byte, which is at `pc`.
pub open spec fn branch_target(pc: u16, displacement: u8) -> u16 {
    ((pc + 1 + signed(displacement)) % 0x10000) as u16
}

/// Address of the stack slot that the stack pointer names. The stack is
/// page one.
pub open spec fn stack_addr(sp: u8) -> u16 {
    (0x0100 + sp) as u16
}

/// Why the machine handed control back to its host.
#[derive(Debug, Clone, Copy, PartialEq, Eq, Structural)]
pub enum Outcome {
    /// Nothing to report: the machine can go on.
    Running,
    /// A frame ended: the host presents the picture.
    FrameComplete,
    /// The halt opcode was decoded.
    Halted,
    /// The program made an illegal access, which was treated as a no-op.
    /// This is the earliest one since the last report.
    Illegal(IllegalAccess),
}

/// The processor and everything behind its bus, as mathematical values.
pub ghost struct CpuModel {
    pub a: u8,
    pub x: u8,
    pub y: u8,
    pub sp: u8,
    pub p: u8,
    pub pc: u16,
    pub bus: BusModel,
}

impl CpuModel {
    /// The bus behind the processor is well-formed. The registers take
    /// every value.
    pub open spec fn wf(self) -> bool {
        self.bus.wf()
    }

    pub open spec fn read(self, addr: u16) -> (CpuModel, u8) {
        (CpuModel { bus: self.bus.read(addr).0, ..self }, self.bus.read(addr).1)
    }

    pub open spec fn write(self, addr: u16, data: u8) -> CpuModel {
        CpuModel { bus: self.bus.write(addr, data), ..self }
    }

    pub open spec fn read_u16(self, pos: u16) -> (CpuModel, u16) {
        (CpuModel { bus: self.bus.read_u16(pos).0, ..self }, self.bus.read_u16(pos).1)
    }

    pub open spec fn write_u16(self, pos: u16, data: u16) -> CpuModel {
        CpuModel { bus: self.bus.write_u16(pos, data), ..self }
    }

    /// The registers as they are after a reset, with the program counter
    /// loaded from the reset vector. Memory is as it was.
    #[verifier::opaque]
    pub open spec fn reset(self) -> CpuModel {
        let (m, target) = self.read_u16(0xFFFC);
        CpuModel { a: 0, x: 0, y: 0, sp: 0xFD, p: 0b0010_0100, pc: target, bus: m.bus }
    }

    /// The address of the operand of an instruction whose operand bytes
    /// begin at the program counter.
    ///
    /// Zero-page indexing wraps inside page zero. The pointer of the
    /// indexed-indirect mode is indexed, wrapping inside page zero, before
    /// it is followed; that of the indirect-indexed mode is followed first
    /// and the index added to the 16-bit result. Both pointers are read
    /// from page zero, their second byte wrapping inside it too.
    #[verifier::opaque]
    pub open spec fn operand_address(self, mode: AddressingMode) -> (CpuModel, u16)
        recommends
            !(mode is NoneAddressing),
    {
        match mode {
            AddressingMode::Immediate => (self, self.pc),
            AddressingMode::ZeroPage => {
                let (m, pos) = self.read(self.pc);
                (m, pos as u16)
            },
            AddressingMode::Absolute => self.read_u16(self.pc),
            AddressingMode::ZeroPage_X => {
                let (m, pos) = self.read(self.pc);
                (m, add8(pos, self.x) as u16)
            },
            AddressingMode::ZeroPage_Y => {
                let (m, pos) = self.read(self.pc);
                (m, add8(pos, self.y) as u16)
            },
            AddressingMode::Absolute_X => {
                let (m, base) = self.read_u16(self.pc);
                (m, add16(base, self.x as u16))
            },
            AddressingMode::Absolute_Y => {
                let (m, base) = self.read_u16(self.pc);
                (m, add16(base, self.y as u16))
            },
            AddressingMode::Indirect_X => {
                let (m, base) = self.read(self.pc);
                let ptr = add8(base, self.x);
                let (m1, lo) = m.read(ptr as u16);
                let (m2, hi) = m1.read(add8(ptr, 1) as u16);
                (m2, word(lo, hi))
            },
            AddressingMode::Indirect_Y => {
                let (m, base) = self.read(self.pc);
                let (m1, lo) = m.read(base as u16);
                let (m2, hi) = m1.read(add8(base, 1) as u16);
                (m2, add16(word(lo, hi), self.y as u16))
            },
            AddressingMode::NoneAddressing => (self, 0u16),
        }
    }

    /// The operand's address and the operand itself.
    #[verifier::opaque]
    pub open spec fn operand(self, mode: AddressingMode) -> (CpuModel, u16, u8) {
        let (m, addr) = self.operand_address(mode);
        let (m1, data) = m.read(addr);
        (m1, addr, data)
    }

    pub open spec fn set_flag(self, mask: u8, on: bool) -> CpuModel {
        CpuModel { p: with_flag(self.p, mask, on), ..self }
    }

    pub open spec fn carry(self) -> bool {
        flag(self.p, 0b0000_0001)
    }

    /// Negative follows the high bit of `result`.
    pub open spec fn set_n(self, result: u8) -> CpuModel {
        self.set_flag(0b1000_0000, result >= 128)
    }

    /// The flag rule: Zero is set iff `result` is 0, Negative iff its high
    /// bit is 1.
    pub open spec fn set_zn(self, result: u8) -> CpuModel {
        self.set_flag(0b0000_0010, result == 0).set_n(result)
    }

    pub open spec fn set_a(self, value: u8) -> CpuModel {
        CpuModel { a: value, ..self }.set_zn(value)
    }

    pub open spec fn set_x(self, value: u8) -> CpuModel {
        CpuModel { x: value, ..self }.set_zn(value)
    }

    pub open spec fn set_y(self, value: u8) -> CpuModel {
        CpuModel { y: value, ..self }.set_zn(value)
    }

    /// Addition with carry. The sum of accumulator, operand and incoming
    /// carry has nine bits: the low eight go to the accumulator and the
    /// ninth to Carry. Overflow is set iff the sum of the two read as
    /// signed numbers, plus the carry, does not fit a signed byte.
    #[verifier::opaque]
    pub open spec fn add_to_a(self, data: u8) -> CpuModel {
        let carry_in: int = if self.carry() { 1 } else { 0 };
        let sum = self.a + data + carry_in;
        let signed_sum = signed(self.a) + signed(data) + carry_in;
        self.set_flag(0b0000_0001, sum > 255).set_flag(
            0b0100_0000,
            signed_sum < -128 || signed_sum > 127,
        ).set_a((sum % 256) as u8)
    }

    /// Subtraction with borrow: addition of the operand's one's
    /// complement.
    pub open spec fn sub_from_a(self, data: u8) -> CpuModel {
        self.add_to_a((255 - data) as u8)
    }

    /// Push stores at the stack pointer, then moves it down.
    #[verifier::opaque]
    pub open spec fn push(self, data: u8) -> CpuModel {
        let m = self.write(stack_addr(self.sp), data);
        CpuModel { sp: sub8(self.sp, 1), ..m }
    }

    /// Pop moves the stack pointer up, then loads from it.
    #[verifier::opaque]
    pub open spec fn pop(self) -> (CpuModel, u8) {
        let sp = add8(self.sp, 1);
        CpuModel { sp, ..self }.read(stack_addr(sp))
    }

    /// A word is pushed high byte first.
    #[verifier::opaque]
    pub open spec fn push_u16(self, data: u16) -> CpuModel {
        self.push(high_byte(data)).push(low_byte(data))
    }

    /// A word is popped low byte first.
    #[verifier::opaque]
    pub open spec fn pop_u16(self) -> (CpuModel, u16) {
        let (m, lo) = self.pop();
        let (m1, hi) = m.pop();
        (m1, word(lo, hi))
    }

    #[verifier::opaque]
    pub open spec fn lda(self, mode: AddressingMode) -> CpuModel {
        let (m, addr, data) = self.operand(mode);
        m.set_a(data)
    }

    #[verifier::opaque]
    pub open spec fn ldx(self, mode: AddressingMode) -> CpuModel {
        let (m, addr, data) = self.operand(mode);
        m.set_x(data)
    }

    #[verifier::opaque]
    pub open spec fn ldy(self, mode: AddressingMode) -> CpuModel {
        let (m, addr, data) = self.operand(mode);
        m.set_y(data)
    }

    /// Stores `value` at the operand's address.
    #[verifier::opaque]
    pub open spec fn store(self, mode: AddressingMode, value: u8) -> CpuModel {
        let (m, addr) = self.operand_address(mode);
        m.write(addr, value)
    }

    #[verifier::opaque]
    pub open spec fn and(self, mode: AddressingMode) -> CpuModel {
        let (m, addr, data) = self.operand(mode);
        m.set_a(data & m.a)
    }

    #[verifier::opaque]
    pub open spec fn eor(self, mode: AddressingMode) -> CpuModel {
        let (m, addr, data) = self.operand(mode);
        m.set_a(data ^ m.a)
    }

    #[verifier::opaque]
    pub open spec fn ora(self, mode: AddressingMode) -> CpuModel {
        let (m, addr, data) = self.operand(mode);
        m.set_a(data | m.a)
    }

    #[verifier::opaque]
    pub open spec fn adc(self, mode: AddressingMode) -> CpuModel {
        let (m, addr, data) = self.operand(mode);
        m.add_to_a(data)
    }

    #[verifier::opaque]
    pub open spec fn sbc(self, mode: AddressingMode) -> CpuModel {
        let (m, addr, data) = self.operand(mode);
        m.sub_from_a(data)
    }

    /// Shift left: the high bit goes to Carry.
    #[verifier::opaque]
    pub open spec fn asl_accumulator(self) -> CpuModel {
        self.set_flag(0b0000_0001, self.a >= 128).set_a(shifted_left(self.a, false))
    }

    #[verifier::opaque]
    pub open spec fn asl(self, mode: AddressingMode) -> (CpuModel, u8) {
        let (m, addr, data) = self.operand(mode);
        let result = shifted_left(data, false);
        (m.set_flag(0b0000_0001, data >= 128).write(addr, result).set_zn(result), result)
    }

    /// Shift right: the low bit goes to Carry.
    #[verifier::opaque]
    pub open spec fn lsr_accumulator(self) -> CpuModel {
        self.set_flag(0b0000_0001, self.a % 2 == 1).set_a(shifted_right(self.a, false))
    }

    #[verifier::opaque]
    pub open spec fn lsr(self, mode: AddressingMode) -> (CpuModel, u8) {
        let (m, addr, data) = self.operand(mode);
        let result = shifted_right(data, false);
        (m.set_flag(0b0000_0001, data % 2 == 1).write(addr, result).set_zn(result), result)
    }

    /// Rotate left through Carry.
    #[verifier::opaque]
    pub open spec fn rol_accumulator(self) -> CpuModel {
        self.set_flag(0b0000_0001, self.a >= 128).set_a(shifted_left(self.a, self.carry()))
    }

    /// Rotate left in memory. Only Negative follows the result; Zero is
    /// left as it was.
    #[verifier::opaque]
    pub open spec fn rol(self, mode: AddressingMode) -> (CpuModel, u8) {
        let (m, addr, data) = self.operand(mode);
        let result = shifted_left(data, m.carry());
        (m.set_flag(0b0000_0001, data >= 128).write(addr, result).set_n(result), result)
    }

    /// Rotate right through Carry.
    #[verifier::opaque]
    pub open spec fn ror_accumulator(self) -> CpuModel {
        self.set_flag(0b0000_0001, self.a % 2 == 1).set_a(shifted_right(self.a, self.carry()))
    }

    /// Rotate right in memory. Only Negative follows the result; Zero is
    /// left as it was.
    #[verifier::opaque]
    pub open spec fn ror(self, mode: AddressingMode) -> (CpuModel, u8) {
        let (m, addr, data) = self.operand(mode);
        let result = shifted_right(data, m.carry());
        (m.set_flag(0b0000_0001, data % 2 == 1).write(addr, result).set_n(result), result)
    }

    #[verifier::opaque]
    pub open spec fn inc(self, mode: AddressingMode) -> (CpuModel, u8) {
        let (m, addr, data) = self.operand(mode);
        let result = add8(data, 1);
        (m.write(addr, result).set_zn(result), result)
    }

    #[verifier::opaque]
    pub open spec fn dec(self, mode: AddressingMode) -> (CpuModel, u8) {
        let (m, addr, data) = self.operand(mode);
        let result = sub8(data, 1);
        (m.write(addr, result).set_zn(result), result)
    }

    #[verifier::opaque]
    pub open spec fn pla(self) -> CpuModel {
        let (m, data) = self.pop();
        m.set_a(data)
    }

    /// Status is popped with Break lowered and Break2 raised.
    #[verifier::opaque]
    pub open spec fn plp(self) -> CpuModel {
        let (m, data) = self.pop();
        CpuModel { p: data, ..m }.set_flag(0b0001_0000, false).set_flag(0b0010_0000, true)
    }

    /// Status is pushed with Break and Break2 raised.
    #[verifier::opaque]
    pub open spec fn php(self) -> CpuModel {
        self.push(with_flag(with_flag(self.p, 0b0001_0000, true), 0b0010_0000, true))
    }

    /// Bit test: Zero tells whether accumulator and operand share no bit;
    /// Negative and Overflow copy bits 7 and 6 of the operand.
    #[verifier::opaque]
    pub open spec fn bit(self, mode: AddressingMode) -> CpuModel {
        let (m, addr, data) = self.operand(mode);
        m.set_flag(0b0000_0010, m.a & data == 0).set_flag(0b1000_0000, data >= 128).set_flag(
            0b0100_0000,
            data & 0b0100_0000 != 0,
        )
    }

    /// Compare: Carry is set iff the operand is at most the register;
    /// Zero and Negative follow the register minus the operand.
    #[verifier::opaque]
    pub open spec fn compare(self, mode: AddressingMode, compare_with: u8) -> CpuModel {
        let (m, addr, data) = self.operand(mode);
        m.set_flag(0b0000_0001, data <= compare_with).set_zn(sub8(compare_with, data))
    }

    /// A branch whose condition holds reads its displacement and goes to
    /// its target; one whose condition fails does nothing.
    #[verifier::opaque]
    pub open spec fn branch(self, condition: bool) -> CpuModel {
        if condition {
            let (m, displacement) = self.read(self.pc);
            CpuModel { pc: branch_target(self.pc, displacement), ..m }
        } else {
            self
        }
    }

    /// Interrupt service: the program counter is pushed, then the status
    /// with Break and Break2 as the mask's bits 4 and 5 say; interrupts are
    /// disabled, the bus runs for `cycles`, and the program counter is
    /// loaded from `vector`. Also says whether a frame ended meanwhile.
    #[verifier::opaque]
    pub open spec fn service(self, vector: u16, mask: u8, cycles: u8) -> (CpuModel, bool) {
        let m = self.push_u16(self.pc);
        let pushed = with_flag(
            with_flag(m.p, 0b0001_0000, flag(mask, 0b0001_0000)),
            0b0010_0000,
            flag(mask, 0b0010_0000),
        );
        let m1 = m.push(pushed).set_flag(0b0000_0100, true);
        let m2 = CpuModel { bus: m1.bus.tick(cycles).0, ..m1 };
        let (m3, target) = m2.read_u16(vector);
        (CpuModel { pc: target, ..m3 }, m1.bus.tick(cycles).1)
    }

    #[verifier::opaque]
    pub open spec fn jmp_absolute(self) -> CpuModel {
        let (m, target) = self.read_u16(self.pc);
        CpuModel { pc: target, ..m }
    }

    /// Indirect jump. A pointer in the last byte of a page takes its high
    /// byte from the start of the same page, as the hardware does.
    #[verifier::opaque]
    pub open spec fn jmp_indirect(self) -> CpuModel {
        let (m, ptr) = self.read_u16(self.pc);
        if ptr % 256 == 255 {
            let (m1, lo) = m.read(ptr);
            let (m2, hi) = m1.read((ptr - 255) as u16);
            CpuModel { pc: word(lo, hi), ..m2 }
        } else {
            let (m1, target) = m.read_u16(ptr);
            CpuModel { pc: target, ..m1 }
        }
    }

    /// Call: the address of the instruction's last byte is pushed.
    #[verifier::opaque]
    pub open spec fn jsr(self) -> CpuModel {
        let m = self.push_u16(add16(self.pc, 1));
        let (m1, target) = m.read_u16(m.pc);
        CpuModel { pc: target, ..m1 }
    }

    /// Return: to the address after the one popped.
    #[verifier::opaque]
    pub open spec fn rts(self) -> CpuModel {
        let (m, addr) = self.pop_u16();
        CpuModel { pc: add16(addr, 1), ..m }
    }

    #[verifier::opaque]
    pub open spec fn rti(self) -> CpuModel {
        let (m, addr) = self.plp().pop_u16();
        CpuModel { pc: addr, ..m }
    }

    /// Decrement memory, then compare with the accumulator. Carry is
    /// raised when the operand is at most the accumulator and otherwise
    /// left as it was.
    #[verifier::opaque]
    pub open spec fn dcp(self, mode: AddressingMode) -> CpuModel {
        let (m, addr, data) = self.operand(mode);
        let result = sub8(data, 1);
        let m1 = m.write(addr, result);
        let m2 = if result <= m1.a {
            m1.set_flag(0b0000_0001, true)
        } else {
            m1
        };
        m2.set_zn(sub8(m2.a, result))
    }

    #[verifier::opaque]
    pub open spec fn rla(self, mode: AddressingMode) -> CpuModel {
        let (m, data) = self.rol(mode);
        m.set_a(data & m.a)
    }

    #[verifier::opaque]
    pub open spec fn slo(self, mode: AddressingMode) -> CpuModel {
        let (m, data) = self.asl(mode);
        m.set_a(data | m.a)
    }

    #[verifier::opaque]
    pub open spec fn sre(self, mode: AddressingMode) -> CpuModel {
        let (m, data) = self.lsr(mode);
        m.set_a(data ^ m.a)
    }

    #[verifier::opaque]
    pub open spec fn rra(self, mode: AddressingMode) -> CpuModel {
        let (m, data) = self.ror(mode);
        m.add_to_a(data)
    }

    #[verifier::opaque]
    pub open spec fn isb(self, mode: AddressingMode) -> CpuModel {
        let (m, data) = self.inc(mode);
        m.sub_from_a(data)
    }

    /// X becomes (A and X) minus the operand. Carry is raised when the
    /// operand is at most (A and X) and otherwise left as it was.
    #[verifier::opaque]
    pub open spec fn axs(self, mode: AddressingMode) -> CpuModel {
        let (m, addr, data) = self.operand(mode);
        let both = m.x & m.a;
        let m1 = if data <= both {
            m.set_flag(0b0000_0001, true)
        } else {
            m
        };
        m1.set_x(sub8(both, data))
    }

    /// And, then rotate the accumulator right; Carry then copies bit 6 of
    /// the result and Overflow tells whether bits 5 and 6 differ.
    #[verifier::opaque]
    pub open spec fn arr(self, mode: AddressingMode) -> CpuModel {
        let (m, addr, data) = self.operand(mode);
        let m1 = m.set_a(data & m.a).ror_accumulator();
        let bit_5 = (m1.a / 32) % 2 == 1;
        let bit_6 = (m1.a / 64) % 2 == 1;
        m1.set_flag(0b0000_0001, bit_6).set_flag(0b0100_0000, bit_5 != bit_6).set_zn(m1.a)
    }

    /// And; Carry then copies Negative.
    #[verifier::opaque]
    pub open spec fn anc(self, mode: AddressingMode) -> CpuModel {
        let (m, addr, data) = self.operand(mode);
        let m1 = m.set_a(data & m.a);
        m1.set_flag(0b0000_0001, flag(m1.p, 0b1000_0000))
    }

    #[verifier::opaque]
    pub open spec fn alr(self, mode: AddressingMode) -> CpuModel {
        let (m, addr, data) = self.operand(mode);
        m.set_a(data & m.a).lsr_accumulator()
    }

    pub open spec fn nop_read(self, mode: AddressingMode) -> CpuModel {
        self.operand(mode).0
    }

    /// Loads the accumulator, with the flag rule, and copies it to X.
    #[verifier::opaque]
    pub open spec fn lax(self, mode: AddressingMode) -> CpuModel {
        let m = self.lda(mode);
        CpuModel { x: m.a, ..m }
    }

    #[verifier::opaque]
    pub open spec fn lxa(self, mode: AddressingMode) -> CpuModel {
        let m = self.lda(mode);
        m.set_x(m.a)
    }

    #[verifier::opaque]
    pub open spec fn xaa(self, mode: AddressingMode) -> CpuModel {
        let (m, addr, data) = self.set_a(self.x).operand(mode);
        m.set_a(data & m.a)
    }

    /// Operand and stack pointer, anded, go to A, X and the stack pointer.
    #[verifier::opaque]
    pub open spec fn las(self, mode: AddressingMode) -> CpuModel {
        let (m, addr, data) = self.operand(mode);
        let value = data & m.sp;
        CpuModel { a: value, x: value, sp: value, ..m }.set_zn(value)
    }

    /// The absolute operand indexed by `index`, read without the table's
    /// addressing mode.
    #[verifier::opaque]
    pub open spec fn indexed_absolute(self, index: u8) -> (CpuModel, u16) {
        let (m, base) = self.read_u16(self.pc);
        (m, add16(base, index as u16))
    }

    #[verifier::opaque]
    pub open spec fn tas(self) -> CpuModel {
        let (m, addr) = CpuModel { sp: self.a & self.x, ..self }.indexed_absolute(self.y);
        m.write(addr, add8(high_byte(addr), 1) & m.sp)
    }

    #[verifier::opaque]
    pub open spec fn ahx_indirect_y(self) -> CpuModel {
        let (m, pos) = self.read(self.pc);
        let (m1, base) = m.read_u16(pos as u16);
        let addr = add16(base, self.y as u16);
        m1.write(addr, self.a & self.x & high_byte(addr))
    }

    #[verifier::opaque]
    pub open spec fn ahx_absolute_y(self) -> CpuModel {
        let (m, addr) = self.indexed_absolute(self.y);
        m.write(addr, m.a & m.x & high_byte(addr))
    }

    #[verifier::opaque]
    pub open spec fn shx(self) -> CpuModel {
        let (m, addr) = self.indexed_absolute(self.y);
        m.write(addr, m.x & add8(high_byte(addr), 1))
    }

    #[verifier::opaque]
    pub open spec fn shy(self) -> CpuModel {
        let (m, addr) = self.indexed_absolute(self.x);
        m.write(addr, m.y & add8(high_byte(addr), 1))
    }

    /// What an operation does to the machine, the program counter standing
    /// at the instruction's first operand byte. The halt operation does
    /// nothing here: the machine stops before it gets this far.
    pub open spec fn apply(self, operation: Operation, mode: AddressingMode) -> CpuModel {
        match operation {
            Operation::Brk => self,
            Operation::Nop => self,
            Operation::Skb => self,
            Operation::NopRead => self.nop_read(mode),
            Operation::Lda => self.lda(mode),
            Operation::Ldx => self.ldx(mode),
            Operation::Ldy => self.ldy(mode),
            Operation::Sta => self.store(mode, self.a),
            Operation::Stx => self.store(mode, self.x),
            Operation::Sty => self.store(mode, self.y),
            Operation::Tax => self.set_x(self.a),
            Operation::Tay => self.set_y(self.a),
            Operation::Tsx => self.set_x(self.sp),
            Operation::Txa => self.set_a(self.x),
            Operation::Txs => CpuModel { sp: self.x, ..self },
            Operation::Tya => self.set_a(self.y),
            Operation::Inx => self.set_x(add8(self.x, 1)),
            Operation::Iny => self.set_y(add8(self.y, 1)),
            Operation::Dex => self.set_x(sub8(self.x, 1)),
            Operation::Dey => self.set_y(sub8(self.y, 1)),
            Operation::Cld => self.set_flag(0b0000_1000, false),
            Operation::Cli => self.set_flag(0b0000_0100, false),
            Operation::Clv => self.set_flag(0b0100_0000, false),
            Operation::Clc => self.set_flag(0b0000_0001, false),
            Operation::Sec => self.set_flag(0b0000_0001, true),
            Operation::Sei => self.set_flag(0b0000_0100, true),
            Operation::Sed => self.set_flag(0b0000_1000, true),
            Operation::Pha => self.push(self.a),
            Operation::Pla => self.pla(),
            Operation::Php => self.php(),
            Operation::Plp => self.plp(),
            Operation::Adc => self.adc(mode),
            Operation::Sbc => self.sbc(mode),
            Operation::And => self.and(mode),
            Operation::Eor => self.eor(mode),
            Operation::Ora => self.ora(mode),
            Operation::LsrAccumulator => self.lsr_accumulator(),
            Operation::Lsr => self.lsr(mode).0,
            Operation::AslAccumulator => self.asl_accumulator(),
            Operation::Asl => self.asl(mode).0,
            Operation::RolAccumulator => self.rol_accumulator(),
            Operation::Rol => self.rol(mode).0,
            Operation::RorAccumulator => self.ror_accumulator(),
            Operation::Ror => self.ror(mode).0,
            Operation::Inc => self.inc(mode).0,
            Operation::Dec => self.dec(mode).0,
            Operation::Compare => self.compare(mode, self.a),
            Operation::Cpx => self.compare(mode, self.x),
            Operation::Cpy => self.compare(mode, self.y),
            Operation::JmpAbsolute => self.jmp_absolute(),
            Operation::JmpIndirect => self.jmp_indirect(),
            Operation::Jsr => self.jsr(),
            Operation::Rts => self.rts(),
            Operation::Rti => self.rti(),
            Operation::Bne => self.branch(!flag(self.p, 0b0000_0010)),
            Operation::Beq => self.branch(flag(self.p, 0b0000_0010)),
            Operation::Bvs => self.branch(flag(self.p, 0b0100_0000)),
            Operation::Bvc => self.branch(!flag(self.p, 0b0100_0000)),
            Operation::Bpl => self.branch(!flag(self.p, 0b1000_0000)),
            Operation::Bmi => self.branch(flag(self.p, 0b1000_0000)),
            Operation::Bcs => self.branch(flag(self.p, 0b0000_0001)),
            Operation::Bcc => self.branch(!flag(self.p, 0b0000_0001)),
            Operation::Bit => self.bit(mode),
            Operation::Dcp => self.dcp(mode),
            Operation::Rla => self.rla(mode),
            Operation::Slo => self.slo(mode),
            Operation::Sre => self.sre(mode),
            Operation::Rra => self.rra(mode),
            Operation::Isb => self.isb(mode),
            Operation::Axs => self.axs(mode),
            Operation::Arr => self.arr(mode),
            Operation::Anc => self.anc(mode),
            Operation::Alr => self.alr(mode),
            Operation::Lax => self.lax(mode),
            Operation::Sax => self.store(mode, self.a & self.x),
            Operation::Lxa => self.lxa(mode),
            Operation::Xaa => self.xaa(mode),
            Operation::Las => self.las(mode),
            Operation::Tas => self.tas(),
            Operation::AhxIndirectY => self.ahx_indirect_y(),
            Operation::AhxAbsoluteY => self.ahx_absolute_y(),
            Operation::Shx => self.shx(),
            Operation::Shy => self.shy(),
        }
    }

    /// An instruction boundary: a pending interrupt is taken and serviced.
    /// Also says whether a frame ended while it was.
    pub open spec fn poll_interrupt(self) -> (CpuModel, bool) {
        let polled = CpuModel { bus: self.bus.take_nmi().0, ..self };
        if self.bus.take_nmi().1 is Some {
            polled.service(0xFFFA, 0b0010_0000, 2)
        } else {
            (polled, false)
        }
    }

    /// One instruction. The opcode is fetched; the halt opcode stops
    /// here. Otherwise the operation is applied, the bus runs for the
    /// entry's cycles, and the program counter moves past the operand bytes
    /// unless the operation moved it. `frame_before` says that a frame
    /// ended at the boundary before this instruction. The end of a frame is
    /// reported first, so that the host misses none; the record of illegal
    /// accesses is then left for the next instruction to report.
    #[verifier::opaque]
    pub open spec fn fetch_execute(self, frame_before: bool) -> (CpuModel, Outcome) {
        let (read, code) = self.read(self.pc);
        let at = add16(self.pc, 1);
        let fetched = CpuModel { pc: at, ..read };
        let e = entry(code);
        if e.operation is Brk {
            (fetched, Outcome::Halted)
        } else {
            let done = fetched.apply(e.operation, e.mode);
            let ticked = done.bus.tick(e.cycles);
            let pc = if done.pc == at {
                add16(at, (e.len - 1) as u16)
            } else {
                done.pc
            };
            if frame_before || ticked.1 {
                (CpuModel { pc, bus: ticked.0, ..done }, Outcome::FrameComplete)
            } else {
                let illegal = ticked.0.take_illegal();
                (
                    CpuModel { pc, bus: illegal.0, ..done },
                    if illegal.1 is Some {
                        Outcome::Illegal(illegal.1->Some_0)
                    } else {
                        Outcome::Running
                    },
                )
            }
        }
    }

    /// One instruction boundary and the instruction after it.
    pub open spec fn step(self) -> (CpuModel, Outcome) {
        self.poll_interrupt().0.fetch_execute(self.poll_interrupt().1)
    }

    /// Steps until an outcome other than `Running`, for at most `budget`
    /// instructions.
    pub open spec fn run(self, budget: nat) -> (CpuModel, Outcome)
        decreases budget,
    {
        if budget == 0 {
            (self, Outcome::Running)
        } else {
            let (next, outcome) = self.step();
            if outcome is Running {
                next.run((budget - 1) as nat)
            } else {
                (next, outcome)
            }
        }
    }
}

/// A byte moved one bit up, with `carry_in` entering at bit 0.
pub open spec fn shifted_left(value: u8, carry_in: bool) -> u8 {
    ((value % 128) * 2 + if carry_in { 1int } else { 0int }) as u8
}

/// A byte moved one bit down, with `carry_in` entering at bit 7.
pub open spec fn shifted_right(value: u8, carry_in: bool) -> u8 {
    (value / 2 + if carry_in { 128int } else { 0int }) as u8
}

/// The flag rule: after it, Zero says whether the result is 0 and Negative
/// whether its high bit is 1; Carry and Overflow are as they were.
pub proof fn lemma_flag_rule(m: CpuModel, result: u8)
    ensures
        flag(m.set_zn(result).p, 0b0000_0010) == (result == 0),
        flag(m.set_zn(result).p, 0b1000_0000) == (result >= 128),
        flag(m.set_zn(result).p, 0b0000_0001) == flag(m.p, 0b0000_0001),
        flag(m.set_zn(result).p, 0b0100_0000) == flag(m.p, 0b0100_0000),
{
    let z = with_flag(m.p, 0b0000_0010, result == 0);
    lemma_flag_written(m.p, 0b0000_0010, 0b0000_0001, result == 0);
    lemma_flag_written(m.p, 0b0000_0010, 0b0100_0000, result == 0);
    lemma_flag_written(z, 0b1000_0000, 0b0000_0010, result >= 128);
    lemma_flag_written(z, 0b1000_0000, 0b0000_0001, result >= 128);
    lemma_flag_written(z, 0b1000_0000, 0b0100_0000, result >= 128);
}

/// Addition: the accumulator receives the low eight bits of the nine-bit
/// sum of accumulator, operand and incoming carry; Carry says whether the
/// sum exceeds 255, Overflow whether the signed sum leaves the range of a
/// signed byte, and Zero and Negative follow the new accumulator.
pub proof fn lemma_addition(m: CpuModel, data: u8)
    ensures
        m.add_to_a(data).a == (m.a + data + if m.carry() { 1int } else { 0int }) % 256,
        flag(m.add_to_a(data).p, 0b0000_0001) == (m.a + data + if m.carry() { 1int } else { 0int }
            > 255),
        flag(m.add_to_a(data).p, 0b0100_0000) == ((m.a >= 128) == (data >= 128) && (m.add_to_a(
            data,
        ).a >= 128) != (m.a >= 128)),
        flag(m.add_to_a(data).p, 0b0000_0010) == (m.add_to_a(data).a == 0),
        flag(m.add_to_a(data).p, 0b1000_0000) == (m.add_to_a(data).a >= 128),
        m.sub_from_a(data) == m.add_to_a((255 - data) as u8),
{
    reveal(CpuModel::add_to_a);
    let carry_in: int = if m.carry() { 1 } else { 0 };
    let sum = m.a + data + carry_in;
    let signed_sum = signed(m.a) + signed(data) + carry_in;
    let c = m.set_flag(0b0000_0001, sum > 255);
    let v = c.set_flag(0b0100_0000, signed_sum < -128 || signed_sum > 127);
    let after = CpuModel { a: (sum % 256) as u8, ..v };
    lemma_flag_written(m.p, 0b0000_0001, 0b0100_0000, sum > 255);
    lemma_flag_written(c.p, 0b0100_0000, 0b0000_0001, signed_sum < -128 || signed_sum > 127);
    lemma_flag_rule(after, (sum % 256) as u8);
}

/// Compare: Carry says whether the operand is at most the register, Zero
/// whether the two are equal.
pub proof fn lemma_compare(m: CpuModel, mode: AddressingMode, compare_with: u8)
    ensures
        flag(m.compare(mode, compare_with).p, 0b0000_0001) == (m.operand(mode).2 <= compare_with),
        flag(m.compare(mode, compare_with).p, 0b0000_0010) == (m.operand(mode).2 == compare_with),
        m.compare(mode, compare_with).a == m.operand(mode).0.a,
{
    reveal(CpuModel::compare);
    let (after, addr, data) = m.operand(mode);
    let c = after.set_flag(0b0000_0001, data <= compare_with);
    lemma_flag_written(after.p, 0b0000_0001, 0b0000_0010, data <= compare_with);
    lemma_flag_rule(c, sub8(compare_with, data));
}

/// The stack: what is pushed is popped again, and the stack pointer is
/// back where it was, provided the slot is in work RAM as the fixed
/// stack page always is.
pub proof fn lemma_push_pop(m: CpuModel, data: u8)
    requires
        m.bus.wf(),
    ensures
        m.push(data).pop().1 == data,
        m.push(data).pop().0.sp == m.sp,
        m.push(data).sp == sub8(m.sp, 1),
{
    reveal(CpuModel::push);
    reveal(CpuModel::pop);
    reveal(BusModel::read);
    reveal(BusModel::write);
}

/// A reset puts the registers back and loads the program counter from the
/// word at 0xFFFC; everything behind the bus stays as it was.
pub proof fn lemma_reset(m: CpuModel)
    ensures
        m.reset().bus == m.bus,
        m.reset().a == 0 && m.reset().x == 0 && m.reset().y == 0,
        m.reset().sp == 0xFD,
        m.reset().p == 0b0010_0100,
        m.reset().pc == word(m.bus.read(0xFFFC).1, m.bus.read(0xFFFD).1),
{
    reveal(CpuModel::reset);
    reveal(BusModel::read);
}

} // verus!
