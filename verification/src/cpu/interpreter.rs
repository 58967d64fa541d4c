use vstd::prelude::*;
use crate::cpu::cpu::{AddressingMode, Cpu, Memory, nmi};
use crate::cpu::flags::{CARRY, ZERO, INTERRUPT_DISABLE, DECIMAL_MODE, OVERFLOW, NEGATIV};
use crate::cpu::model::{CpuModel, Outcome};
use crate::cpu::opcodes::{Operation, lookup, lemma_table_exhaustive};

verus! {

/// An operation on registers, flags or the stack alone.
pub open spec fn is_register(operation: Operation) -> bool {
    match operation {
        Operation::Brk
        | Operation::Nop
        | Operation::Skb
        | Operation::Tax
        | Operation::Tay
        | Operation::Tsx
        | Operation::Txa
        | Operation::Txs
        | Operation::Tya
        | Operation::Inx
        | Operation::Iny
        | Operation::Dex
        | Operation::Dey
        | Operation::Cld
        | Operation::Cli
        | Operation::Clv
        | Operation::Clc
        | Operation::Sec
        | Operation::Sei
        | Operation::Sed
        | Operation::Pha
        | Operation::Pla
        | Operation::Php
        | Operation::Plp
        | Operation::AslAccumulator
        | Operation::LsrAccumulator
        | Operation::RolAccumulator
        | Operation::RorAccumulator => true,
        _ => false,
    }
}

/// A load, store, compare or bit test on an operand in memory.
pub open spec fn is_transfer(operation: Operation) -> bool {
    match operation {
        Operation::NopRead
        | Operation::Lda
        | Operation::Ldx
        | Operation::Ldy
        | Operation::Sta
        | Operation::Stx
        | Operation::Sty
        | Operation::Compare
        | Operation::Cpx
        | Operation::Cpy
        | Operation::Bit => true,
        _ => false,
    }
}

/// A documented arithmetic, logic or shift operation on an operand in
/// memory.
pub open spec fn is_arithmetic(operation: Operation) -> bool {
    match operation {
        Operation::Adc
        | Operation::Sbc
        | Operation::And
        | Operation::Eor
        | Operation::Ora
        | Operation::Lsr
        | Operation::Asl
        | Operation::Rol
        | Operation::Ror
        | Operation::Inc
        | Operation::Dec => true,
        _ => false,
    }
}

/// A jump, call, return or branch.
pub open spec fn is_flow(operation: Operation) -> bool {
    match operation {
        Operation::JmpAbsolute
        | Operation::JmpIndirect
        | Operation::Jsr
        | Operation::Rts
        | Operation::Rti
        | Operation::Bne
        | Operation::Beq
        | Operation::Bvs
        | Operation::Bvc
        | Operation::Bpl
        | Operation::Bmi
        | Operation::Bcs
        | Operation::Bcc => true,
        _ => false,
    }
}

/// An undocumented operation that joins two documented ones.
pub open spec fn is_combined(operation: Operation) -> bool {
    match operation {
        Operation::Dcp
        | Operation::Rla
        | Operation::Slo
        | Operation::Sre
        | Operation::Rra
        | Operation::Isb
        | Operation::Axs
        | Operation::Arr
        | Operation::Anc
        | Operation::Alr => true,
        _ => false,
    }
}

/// One of the remaining undocumented operations.
pub open spec fn is_unstable(operation: Operation) -> bool {
    match operation {
        Operation::Lax
        | Operation::Sax
        | Operation::Lxa
        | Operation::Xaa
        | Operation::Las
        | Operation::Tas
        | Operation::AhxIndirectY
        | Operation::AhxAbsoluteY
        | Operation::Shx
        | Operation::Shy => true,
        _ => false,
    }
}

impl Cpu {
    /// Carries out an operation on registers, flags or the stack, if
    /// `operation` is one. Says whether it was.
    pub fn execute_register(&mut self, operation: Operation, mode: &AddressingMode) -> (done: bool)
        requires
            operation.uses_mode() ==> !(*mode is NoneAddressing),
        ensures
            done == is_register(operation),
            done ==> final(self)@ == old(self)@.apply(operation, *mode),
            !done ==> final(self)@ == old(self)@,
            old(self)@.wf() ==> final(self)@.wf(),
    {
        match operation {
            Operation::Brk => {},
            Operation::Nop => {},
            Operation::Skb => {},
            Operation::Tax => {
                self.tax();
            },
            Operation::Tay => {
                self.set_reg_y(self.reg_a);
            },
            Operation::Tsx => {
                self.set_reg_x(self.reg_sp);
            },
            Operation::Txa => {
                self.set_reg_a(self.reg_x);
            },
            Operation::Txs => {
                self.reg_sp = self.reg_x;
            },
            Operation::Tya => {
                self.set_reg_a(self.reg_y);
            },
            Operation::Inx => {
                self.inx();
            },
            Operation::Iny => {
                self.iny();
            },
            Operation::Dex => {
                self.dex();
            },
            Operation::Dey => {
                self.dey();
            },
            Operation::Cld => {
                self.status.remove(DECIMAL_MODE);
            },
            Operation::Cli => {
                self.status.remove(INTERRUPT_DISABLE);
            },
            Operation::Clv => {
                self.status.remove(OVERFLOW);
            },
            Operation::Clc => {
                self.clear_carry_flag();
            },
            Operation::Sec => {
                self.set_carry_flag();
            },
            Operation::Sei => {
                self.status.insert(INTERRUPT_DISABLE);
            },
            Operation::Sed => {
                self.status.insert(DECIMAL_MODE);
            },
            Operation::Pha => {
                self.stack_push(self.reg_a);
            },
            Operation::Pla => {
                self.pla();
            },
            Operation::Php => {
                self.php();
            },
            Operation::Plp => {
                self.plp();
            },
            Operation::AslAccumulator => {
                self.asl_accumulator();
            },
            Operation::LsrAccumulator => {
                self.lsr_accumulator();
            },
            Operation::RolAccumulator => {
                self.rol_accumulator();
            },
            Operation::RorAccumulator => {
                self.ror_accumulator();
            },
            _ => {
                return false;
            },
        }
        true
    }

    /// Carries out a load, store, compare or bit test, if `operation` is
    /// one. Says whether it was.
    pub fn execute_transfer(&mut self, operation: Operation, mode: &AddressingMode) -> (done: bool)
        requires
            operation.uses_mode() ==> !(*mode is NoneAddressing),
        ensures
            done == is_transfer(operation),
            done ==> final(self)@ == old(self)@.apply(operation, *mode),
            !done ==> final(self)@ == old(self)@,
            old(self)@.wf() ==> final(self)@.wf(),
    {
        match operation {
            Operation::NopRead => {
                let _ = self.read_operand(mode);
            },
            Operation::Lda => {
                self.lda(mode);
            },
            Operation::Ldx => {
                self.ldx(mode);
            },
            Operation::Ldy => {
                self.ldy(mode);
            },
            Operation::Sta => {
                self.sta(mode);
            },
            Operation::Stx => {
                self.store(mode, self.reg_x);
            },
            Operation::Sty => {
                self.store(mode, self.reg_y);
            },
            Operation::Compare => {
                self.compare(mode, self.reg_a);
            },
            Operation::Cpx => {
                self.compare(mode, self.reg_x);
            },
            Operation::Cpy => {
                self.compare(mode, self.reg_y);
            },
            Operation::Bit => {
                self.bit(mode);
            },
            _ => {
                return false;
            },
        }
        true
    }

    /// Carries out a documented arithmetic, logic or shift operation on
    /// an operand in memory, if `operation` is one. Says whether it was.
    pub fn execute_arithmetic(&mut self, operation: Operation, mode: &AddressingMode) -> (done: bool)
        requires
            operation.uses_mode() ==> !(*mode is NoneAddressing),
        ensures
            done == is_arithmetic(operation),
            done ==> final(self)@ == old(self)@.apply(operation, *mode),
            !done ==> final(self)@ == old(self)@,
            old(self)@.wf() ==> final(self)@.wf(),
    {
        match operation {
            Operation::Adc => {
                self.adc(mode);
            },
            Operation::Sbc => {
                self.sbc(mode);
            },
            Operation::And => {
                self.and(mode);
            },
            Operation::Eor => {
                self.eor(mode);
            },
            Operation::Ora => {
                self.ora(mode);
            },
            Operation::Lsr => {
                self.lsr(mode);
            },
            Operation::Asl => {
                self.asl(mode);
            },
            Operation::Rol => {
                self.rol(mode);
            },
            Operation::Ror => {
                self.ror(mode);
            },
            Operation::Inc => {
                self.inc(mode);
            },
            Operation::Dec => {
                self.dec(mode);
            },
            _ => {
                return false;
            },
        }
        true
    }

    /// Carries out a jump, call, return or branch, if `operation` is one.
    /// Says whether it was.
    pub fn execute_flow(&mut self, operation: Operation, mode: &AddressingMode) -> (done: bool)
        requires
            operation.uses_mode() ==> !(*mode is NoneAddressing),
        ensures
            done == is_flow(operation),
            done ==> final(self)@ == old(self)@.apply(operation, *mode),
            !done ==> final(self)@ == old(self)@,
            old(self)@.wf() ==> final(self)@.wf(),
    {
        match operation {
            Operation::JmpAbsolute => {
                self.jmp_absolute();
            },
            Operation::JmpIndirect => {
                self.jmp_indirect();
            },
            Operation::Jsr => {
                self.jsr();
            },
            Operation::Rts => {
                self.rts();
            },
            Operation::Rti => {
                self.rti();
            },
            Operation::Bne => {
                self.branch(!self.status.contains(ZERO));
            },
            Operation::Beq => {
                self.branch(self.status.contains(ZERO));
            },
            Operation::Bvs => {
                self.branch(self.status.contains(OVERFLOW));
            },
            Operation::Bvc => {
                self.branch(!self.status.contains(OVERFLOW));
            },
            Operation::Bpl => {
                self.branch(!self.status.contains(NEGATIV));
            },
            Operation::Bmi => {
                self.branch(self.status.contains(NEGATIV));
            },
            Operation::Bcs => {
                self.branch(self.status.contains(CARRY));
            },
            Operation::Bcc => {
                self.branch(!self.status.contains(CARRY));
            },
            _ => {
                return false;
            },
        }
        true
    }

    /// Carries out an undocumented operation that joins two documented
    /// ones, if `operation` is one. Says whether it was.
    pub fn execute_combined(&mut self, operation: Operation, mode: &AddressingMode) -> (done: bool)
        requires
            operation.uses_mode() ==> !(*mode is NoneAddressing),
        ensures
            done == is_combined(operation),
            done ==> final(self)@ == old(self)@.apply(operation, *mode),
            !done ==> final(self)@ == old(self)@,
            old(self)@.wf() ==> final(self)@.wf(),
    {
        match operation {
            Operation::Dcp => {
                self.dcp(mode);
            },
            Operation::Rla => {
                self.rla(mode);
            },
            Operation::Slo => {
                self.slo(mode);
            },
            Operation::Sre => {
                self.sre(mode);
            },
            Operation::Rra => {
                self.rra(mode);
            },
            Operation::Isb => {
                self.isb(mode);
            },
            Operation::Axs => {
                self.axs(mode);
            },
            Operation::Arr => {
                self.arr(mode);
            },
            Operation::Anc => {
                self.anc(mode);
            },
            Operation::Alr => {
                self.alr(mode);
            },
            _ => {
                return false;
            },
        }
        true
    }

    /// Carries out one of the remaining undocumented operations, if
    /// `operation` is one. Says whether it was.
    pub fn execute_unstable(&mut self, operation: Operation, mode: &AddressingMode) -> (done: bool)
        requires
            operation.uses_mode() ==> !(*mode is NoneAddressing),
        ensures
            done == is_unstable(operation),
            done ==> final(self)@ == old(self)@.apply(operation, *mode),
            !done ==> final(self)@ == old(self)@,
            old(self)@.wf() ==> final(self)@.wf(),
    {
        match operation {
            Operation::Lax => {
                self.lax(mode);
            },
            Operation::Sax => {
                self.store(mode, self.reg_a & self.reg_x);
            },
            Operation::Lxa => {
                self.lxa(mode);
            },
            Operation::Xaa => {
                self.xaa(mode);
            },
            Operation::Las => {
                self.las(mode);
            },
            Operation::Tas => {
                self.tas();
            },
            Operation::AhxIndirectY => {
                self.ahx_indirect_y();
            },
            Operation::AhxAbsoluteY => {
                self.ahx_absolute_y();
            },
            Operation::Shx => {
                self.shx();
            },
            Operation::Shy => {
                self.shy();
            },
            _ => {
                return false;
            },
        }
        true
    }

    /// Carries out one operation, the program counter standing at the
    /// instruction's first operand byte.
    pub fn execute(&mut self, operation: Operation, mode: &AddressingMode)
        requires
            operation.uses_mode() ==> !(*mode is NoneAddressing),
        ensures
            final(self)@ == old(self)@.apply(operation, *mode),
            old(self)@.wf() ==> final(self)@.wf(),
    {
        let done: bool = self.execute_register(operation, mode) || self.execute_transfer(
            operation,
            mode,
        ) || self.execute_arithmetic(operation, mode) || self.execute_flow(operation, mode)
            || self.execute_combined(operation, mode) || self.execute_unstable(operation, mode);
        assert(done);
    }

    /// Takes the pending interrupt, if there is one, and services it. Says
    /// whether a frame ended meanwhile.
    pub fn poll_interrupt(&mut self) -> (frame: bool)
        ensures
            final(self)@ == old(self)@.poll_interrupt().0,
            frame == old(self)@.poll_interrupt().1,
            old(self)@.wf() ==> final(self)@.wf(),
    {
        if self.bus.poll_nmi_status().is_some() {
            self.interrupt(nmi())
        } else {
            false
        }
    }

    /// Fetches and carries out one instruction. Says what the host has to
    /// attend to, if anything; `frame_before` is what `poll_interrupt` said
    /// at the boundary before this instruction.
    pub fn fetch_execute(&mut self, frame_before: bool) -> (r: Outcome)
        ensures
            final(self)@ == old(self)@.fetch_execute(frame_before).0,
            r == old(self)@.fetch_execute(frame_before).1,
            old(self)@.wf() ==> final(self)@.wf(),
    {
        reveal(CpuModel::fetch_execute);
        let code: u8 = self.mem_read(self.reg_pc);
        self.reg_pc = self.reg_pc.wrapping_add(1);
        let program_counter_state: u16 = self.reg_pc;
        let opcode = lookup(code);
        proof {
            lemma_table_exhaustive(code);
        }
        if let Operation::Brk = opcode.operation {
            return Outcome::Halted;
        }
        self.execute(opcode.operation, &opcode.mode);
        let frame_after: bool = self.bus.tick(opcode.cycles);
        if program_counter_state == self.reg_pc {
            self.reg_pc = self.reg_pc.wrapping_add((opcode.len - 1) as u16);
        }
        if frame_before || frame_after {
            return Outcome::FrameComplete;
        }
        match self.bus.take_illegal_access() {
            Some(access) => Outcome::Illegal(access),
            None => Outcome::Running,
        }
    }

    /// Takes a pending interrupt, then fetches and carries out one
    /// instruction. Says what the host has to attend to, if anything.
    pub fn step(&mut self) -> (r: Outcome)
        ensures
            final(self)@ == old(self)@.step().0,
            r == old(self)@.step().1,
            old(self)@.wf() ==> final(self)@.wf(),
    {
        let frame: bool = self.poll_interrupt();
        self.fetch_execute(frame)
    }

    /// Runs instructions until the halt opcode is decoded, a frame ends or
    /// an illegal access is recorded, and for at most `budget`
    /// instructions. Returns `Running` when the budget is spent first.
    pub fn run(&mut self, budget: u64) -> (r: Outcome)
        ensures
            final(self)@ == old(self)@.run(budget as nat).0,
            r == old(self)@.run(budget as nat).1,
            old(self)@.wf() ==> final(self)@.wf(),
    {
        let ghost start = self@;
        let mut left: u64 = budget;
        while left > 0
            invariant
                start == old(self)@,
                start.wf() ==> self@.wf(),
                self@.run(left as nat) == start.run(budget as nat),
            decreases left,
        {
            let ghost before = self@;
            let outcome = self.step();
            if let Outcome::Running = outcome {
            } else {
                assert(before.run(left as nat) == (self@, outcome));
                return outcome;
            }
            left = left - 1;
            assert(before.run((left + 1) as nat) == self@.run(left as nat));
        }
        Outcome::Running
    }

    /// Runs like `run`, and shows the machine to `callback` twice for each
    /// instruction: at the boundary before it, after a pending interrupt
    /// was serviced, and once the instruction is done. The halt opcode
    /// ends the run before the second showing.
    pub fn run_with_callback<F: Fn(&Cpu)>(&mut self, budget: u64, callback: F) -> (r: Outcome)
        requires
            forall|cpu: &Cpu| callback.requires((cpu,)),
        ensures
            final(self)@ == old(self)@.run(budget as nat).0,
            r == old(self)@.run(budget as nat).1,
            old(self)@.wf() ==> final(self)@.wf(),
    {
        let ghost start = self@;
        let mut left: u64 = budget;
        while left > 0
            invariant
                start == old(self)@,
                start.wf() ==> self@.wf(),
                forall|cpu: &Cpu| callback.requires((cpu,)),
                self@.run(left as nat) == start.run(budget as nat),
            decreases left,
        {
            let ghost before = self@;
            let frame: bool = self.poll_interrupt();
            callback(&*self);
            let outcome = self.fetch_execute(frame);
            if let Outcome::Halted = outcome {
                assert(before.run(left as nat) == (self@, outcome));
                return outcome;
            }
            callback(&*self);
            if let Outcome::Running = outcome {
            } else {
                assert(before.run(left as nat) == (self@, outcome));
                return outcome;
            }
            left = left - 1;
            assert(before.run((left + 1) as nat) == self@.run(left as nat));
        }
        Outcome::Running
    }
}

} // verus!
