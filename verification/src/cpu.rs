//! The executable processor. Every operation is proved to compute the
//! transition that `machine` gives for it.

use vstd::prelude::*;
use crate::alu::{
    add_with_carry, compare, invert, overflow_bit, rotate_left, rotate_right, shift_left,
    shift_right, sign_bit,
};
use crate::bus::{make_word, split_word, Bus, Mem};
use crate::laws::lemma_brk;
use crate::machine::{
    load_bytes, CpuState, LOAD_BASE, MAX_PROGRAM, RESET_VECTOR, STACK, STACK_RESET,
};
use crate::opcodes::{lemma_decode_consistent, lookup, Group, Mnemonic, OpCode};
pub use crate::opcodes::AddressingMode;
pub use crate::status::Flag;

verus! {

/// The processor together with the bus that it drives.
pub struct CPU {
    /// Accumulator.
    pub register_a: u8,
    /// Index register X.
    pub register_x: u8,
    /// Index register Y.
    pub register_y: u8,
    /// Address of the next byte to fetch.
    pub program_counter: u16,
    /// Low byte of the address of the next free stack cell.
    pub stack_pointer: u8,
    /// The eight flags, packed as `Flag::mask` lays them out.
    pub status: u8,
    /// The memory that the processor reads and writes.
    pub bus: Bus,
}

impl View for CPU {
    type V = CpuState;

    /// The state of the machine: the registers as they stand and the RAM
    /// behind the bus.
    open spec fn view(&self) -> CpuState {
        CpuState {
            a: self.register_a,
            x: self.register_x,
            y: self.register_y,
            pc: self.program_counter,
            sp: self.stack_pointer,
            p: self.status,
            ram: self.bus@,
        }
    }
}

impl Mem for CPU {
    open spec fn ram(&self) -> Seq<u8> {
        self.bus@
    }

    fn mem_read(&self, addr: u16) -> (data: u8)
        ensures
            data == self@.read(addr),
    {
        self.bus.mem_read(addr)
    }

    fn mem_write(&mut self, addr: u16, data: u8)
        ensures
            final(self)@ == old(self)@.write(addr, data),
    {
        self.bus.mem_write(addr, data)
    }

    fn mem_read_u16(&self, pos: u16) -> (data: u16)
        ensures
            data == self@.read_u16(pos),
    {
        self.bus.mem_read_u16(pos)
    }

    fn mem_write_u16(&mut self, pos: u16, data: u16)
        ensures
            final(self)@ == old(self)@.write_u16(pos, data),
    {
        self.bus.mem_write_u16(pos, data)
    }
}

/// Calls `callback` on the processor and reports the state in which it
/// leaves it.
pub fn call_hook<F: FnMut(&mut CPU)>(callback: &mut F, cpu: &mut CPU) -> (seen: Ghost<CpuState>)
    requires
        forall|r: &mut CPU| *r == *old(cpu) ==> call_requires(*old(callback), (r,)),
    ensures
        exists|r: &mut CPU|
            *r == *old(cpu) && *final(r) == *final(cpu) && #[trigger] call_ensures(
                *old(callback),
                (r,),
                (),
            ),
        seen@ == final(cpu)@,
        *final(callback) == *old(callback),
{
    broadcast use vstd::function::group_function_axioms;

    callback(cpu);
    Ghost(cpu@)
}

/// Whether `hook`, called on a processor in the state `before`, may leave it
/// in the state `after`: a call of `call_hook` with it may report `after`.
/// What follows from that is what the `ensures` of the hook says of the
/// processor before and after a call.
pub open spec fn hook_step<F: FnMut(&mut CPU)>(hook: F, before: CpuState, after: CpuState) -> bool {
    exists|f: &mut F, cpu: &mut CPU|
        *f == hook && (*cpu)@ == before && #[trigger] call_ensures(
            call_hook::<F>,
            (f, cpu),
            Ghost(after),
        )
}

/// Whether `rank` is a reason why a run with `hook` ends. Where `rank` is
/// defined, the hook may be called; it then leaves a state in which the
/// machine can make its step; and unless that step is the fetch of a BRK,
/// it leads to a state on which `rank` is defined and lower.
pub open spec fn hook_ranked<F: FnMut(&mut CPU)>(
    hook: F,
    rank: spec_fn(CpuState) -> Option<nat>,
) -> bool {
    &&& forall|cpu: &mut CPU| (#[trigger] rank((*cpu)@)) is Some ==> call_requires(hook, (cpu,))
    &&& forall|before: CpuState, after: CpuState|
        rank(before) is Some && #[trigger] hook_step(hook, before, after) ==> {
            &&& after.step() is Some
            &&& !after.at_break() ==> rank(after.step().unwrap()) is Some && rank(
                after.step().unwrap(),
            ).unwrap() < rank(before).unwrap()
        }
}

/// Whether the set `closed` holds, with a state in which `hook` is called,
/// the state after the instruction that follows the call, unless that
/// instruction is a BRK.
pub open spec fn hook_closed<F: FnMut(&mut CPU)>(
    hook: F,
    closed: spec_fn(CpuState) -> bool,
) -> bool {
    forall|before: CpuState, after: CpuState|
        closed(before) && #[trigger] hook_step(hook, before, after) && after.step() is Some
            && !after.at_break() ==> closed(after.step().unwrap())
}

/// Whether a run with `hook` may end in the state `end`: `hook` was called
/// in a state of `closed` and left the machine at a BRK, and `end` is the
/// state after the fetch of that BRK.
pub open spec fn hook_ends<F: FnMut(&mut CPU)>(
    hook: F,
    closed: spec_fn(CpuState) -> bool,
    end: CpuState,
) -> bool {
    exists|before: CpuState, after: CpuState|
        closed(before) && #[trigger] hook_step(hook, before, after) && after.at_break()
            && after.step() == Some(end)
}

/// The halting time of the states from which the machine halts, and nothing
/// for the others.
spec fn time_to_halt() -> spec_fn(CpuState) -> Option<nat> {
    |s: CpuState|
        if s.halts() {
            Some(s.halting_time())
        } else {
            None
        }
}

/// The set of states from which the machine halts, and halts where it halts
/// from `start`.
spec fn ends_like(start: CpuState) -> spec_fn(CpuState) -> bool {
    |s: CpuState| s.halts() && s.run() == start.run()
}

impl CPU {
    /// A processor on `bus` with every register zero.
    pub fn new(bus: Bus) -> (cpu: CPU)
        ensures
            cpu@ == (CpuState { a: 0, x: 0, y: 0, pc: 0, sp: 0, p: 0, ram: bus@ }),
            cpu.bus == bus,
    {
        CPU {
            register_a: 0,
            register_x: 0,
            register_y: 0,
            program_counter: 0,
            stack_pointer: 0,
            status: 0,
            bus: bus,
        }
    }

    /// The model of a processor is well formed.
    pub proof fn lemma_view_wf(&self)
        ensures
            self@.wf(),
    {
        self.bus.lemma_ram_size();
    }

    /// Resets the registers and takes the program counter from the reset
    /// vector.
    pub fn reset(&mut self)
        ensures
            final(self)@ == old(self)@.reset(),
    {
        self.register_a = 0;
        self.register_x = 0;
        self.register_y = 0;
        self.status = 0;
        self.stack_pointer = STACK_RESET;
        self.program_counter = self.mem_read_u16(RESET_VECTOR);
    }

    /// Sets or clears one flag.
    pub fn set_flag(&mut self, flag: Flag, enabled: bool)
        ensures
            final(self)@ == old(self)@.set_flag(flag, enabled),
    {
        if enabled {
            self.status |= flag.mask();
        } else {
            self.status &= !flag.mask();
        }
    }

    /// Reads one flag.
    pub fn get_flag(&self, flag: Flag) -> (on: bool)
        ensures
            on == self@.flag(flag),
    {
        self.status & flag.mask() != 0
    }

    /// Sets Zero and Negative from the byte `param`.
    fn set_zero_and_negative_flag(&mut self, param: u8)
        ensures
            final(self)@ == old(self)@.set_zn(param),
    {
        self.set_flag(Flag::Zero, param == 0);
        self.set_flag(Flag::Negative, sign_bit(param));
    }

    /// Pushes a byte: stores it where the stack pointer points and moves the
    /// stack pointer down.
    fn push_stack(&mut self, data: u8)
        ensures
            final(self)@ == old(self)@.push_stack(data),
    {
        self.mem_write(STACK + self.stack_pointer as u16, data);
        self.stack_pointer = self.stack_pointer.wrapping_sub(1);
    }

    /// Pushes a word, high byte first.
    fn push_stack_u16(&mut self, data: u16)
        ensures
            final(self)@ == old(self)@.push_stack_u16(data),
    {
        let (lo, hi) = split_word(data);
        self.push_stack(hi);
        self.push_stack(lo);
    }

    /// Pulls a byte: moves the stack pointer up and reads where it points.
    fn pop_stack(&mut self) -> (data: u8)
        ensures
            final(self)@ == old(self)@.pulled(),
            data == old(self)@.top(),
    {
        self.stack_pointer = self.stack_pointer.wrapping_add(1);
        self.mem_read(STACK + self.stack_pointer as u16)
    }

    /// Pulls a word, low byte first.
    fn pop_stack_u16(&mut self) -> (data: u16)
        ensures
            final(self)@ == old(self)@.pulled().pulled(),
            data == old(self)@.top_u16(),
    {
        let lo = self.pop_stack();
        let hi = self.pop_stack();
        make_word(lo, hi)
    }

    /// Computes the effective address for `mode`, the program counter
    /// standing at the first operand byte. The program counter stays.
    fn fetch(&self, mode: &AddressingMode) -> (addr: u16)
        requires
            self@.fetch(*mode) is Some,
        ensures
            Some(addr) == self@.fetch(*mode),
    {
        reveal(CpuState::fetch);
        match mode {
            AddressingMode::Immediate => self.program_counter,
            AddressingMode::ZeroPage => self.mem_read(self.program_counter) as u16,
            AddressingMode::ZeroPage_X => {
                let pos = self.mem_read(self.program_counter);
                pos.wrapping_add(self.register_x) as u16
            },
            AddressingMode::ZeroPage_Y => {
                let pos = self.mem_read(self.program_counter);
                pos.wrapping_add(self.register_y) as u16
            },
            AddressingMode::Absolute => self.mem_read_u16(self.program_counter),
            AddressingMode::Absolute_X => {
                let base = self.mem_read_u16(self.program_counter);
                base.wrapping_add(self.register_x as u16)
            },
            AddressingMode::Absolute_Y => {
                let base = self.mem_read_u16(self.program_counter);
                base.wrapping_add(self.register_y as u16)
            },
            AddressingMode::Indirect => {
                let pos = self.mem_read(self.program_counter);
                self.mem_read_u16(pos as u16)
            },
            AddressingMode::Indirect_X => {
                let base = self.mem_read(self.program_counter);
                let ptr: u8 = base.wrapping_add(self.register_x);
                self.mem_read_u16(ptr as u16)
            },
            AddressingMode::Indirect_Y => {
                let base = self.mem_read(self.program_counter);
                let ptr: u8 = base.wrapping_add(self.register_y);
                self.mem_read_u16(ptr as u16)
            },
            AddressingMode::Accumulator | AddressingMode::NoneAddressing => {
                vstd::pervasive::unreached()
            },
        }
    }

    // ----- load and store -----

    /// LDA: loads the accumulator.
    fn lda(&mut self, mode: &AddressingMode)
        requires
            old(self)@.lda(*mode) is Some,
        ensures
            Some(final(self)@) == old(self)@.lda(*mode),
    {
        let addr = self.fetch(mode);
        self.register_a = self.mem_read(addr);
        self.set_zero_and_negative_flag(self.register_a);
    }

    /// LDX: loads X.
    fn ldx(&mut self, mode: &AddressingMode)
        requires
            old(self)@.ldx(*mode) is Some,
        ensures
            Some(final(self)@) == old(self)@.ldx(*mode),
    {
        let addr = self.fetch(mode);
        self.register_x = self.mem_read(addr);
        self.set_zero_and_negative_flag(self.register_x);
    }

    /// LDY: loads Y.
    fn ldy(&mut self, mode: &AddressingMode)
        requires
            old(self)@.ldy(*mode) is Some,
        ensures
            Some(final(self)@) == old(self)@.ldy(*mode),
    {
        let addr = self.fetch(mode);
        self.register_y = self.mem_read(addr);
        self.set_zero_and_negative_flag(self.register_y);
    }

    /// STA: stores the accumulator.
    fn sta(&mut self, mode: &AddressingMode)
        requires
            old(self)@.sta(*mode) is Some,
        ensures
            Some(final(self)@) == old(self)@.sta(*mode),
    {
        let addr = self.fetch(mode);
        self.mem_write(addr, self.register_a);
    }

    /// STX: stores X.
    fn stx(&mut self, mode: &AddressingMode)
        requires
            old(self)@.stx(*mode) is Some,
        ensures
            Some(final(self)@) == old(self)@.stx(*mode),
    {
        let addr = self.fetch(mode);
        self.mem_write(addr, self.register_x);
    }

    /// STY: stores Y.
    fn sty(&mut self, mode: &AddressingMode)
        requires
            old(self)@.sty(*mode) is Some,
        ensures
            Some(final(self)@) == old(self)@.sty(*mode),
    {
        let addr = self.fetch(mode);
        self.mem_write(addr, self.register_y);
    }

    // ----- register transfers -----

    /// TAX: copies the accumulator to X.
    fn tax(&mut self)
        ensures
            final(self)@ == old(self)@.tax(),
    {
        self.register_x = self.register_a;
        self.set_zero_and_negative_flag(self.register_x);
    }

    /// TAY: copies the accumulator to Y.
    fn tay(&mut self)
        ensures
            final(self)@ == old(self)@.tay(),
    {
        self.register_y = self.register_a;
        self.set_zero_and_negative_flag(self.register_y);
    }

    /// TXA: copies X to the accumulator.
    fn txa(&mut self)
        ensures
            final(self)@ == old(self)@.txa(),
    {
        self.register_a = self.register_x;
        self.set_zero_and_negative_flag(self.register_a);
    }

    /// TYA: copies Y to the accumulator.
    fn tya(&mut self)
        ensures
            final(self)@ == old(self)@.tya(),
    {
        self.register_a = self.register_y;
        self.set_zero_and_negative_flag(self.register_a);
    }

    /// TSX: copies the stack pointer to X.
    fn tsx(&mut self)
        ensures
            final(self)@ == old(self)@.tsx(),
    {
        self.register_x = self.stack_pointer;
        self.set_zero_and_negative_flag(self.register_x);
    }

    /// TXS: copies X to the stack pointer.
    fn txs(&mut self)
        ensures
            final(self)@ == old(self)@.txs(),
    {
        self.stack_pointer = self.register_x;
        self.set_zero_and_negative_flag(self.stack_pointer);
    }

    // ----- stack instructions -----

    /// PHA: pushes the accumulator.
    fn pha(&mut self)
        ensures
            final(self)@ == old(self)@.pha(),
    {
        let accumulator = self.register_a;
        self.push_stack(accumulator);
    }

    /// PHP: pushes the status byte with Break and Break2 set in the pushed
    /// copy.
    fn php(&mut self)
        ensures
            final(self)@ == old(self)@.php(),
    {
        let status = self.status | Flag::Break.mask() | Flag::Break2.mask();
        self.push_stack(status);
    }

    /// PLA: pulls the accumulator.
    fn pla(&mut self)
        ensures
            final(self)@ == old(self)@.pla(),
    {
        self.register_a = self.pop_stack();
        self.set_zero_and_negative_flag(self.register_a);
    }

    /// PLP: pulls the status byte, then clears Break and sets Break2.
    fn plp(&mut self)
        ensures
            final(self)@ == old(self)@.plp(),
    {
        self.status = self.pop_stack();
        self.set_flag(Flag::Break, false);
        self.set_flag(Flag::Break2, true);
    }

    // ----- logic -----

    /// AND: bitwise and of the accumulator and the operand.
    fn and(&mut self, mode: &AddressingMode)
        requires
            old(self)@.and(*mode) is Some,
        ensures
            Some(final(self)@) == old(self)@.and(*mode),
    {
        let addr = self.fetch(mode);
        let m = self.mem_read(addr);
        self.register_a &= m;
        self.set_zero_and_negative_flag(self.register_a);
    }

    /// EOR: bitwise exclusive or of the accumulator and the operand.
    fn eor(&mut self, mode: &AddressingMode)
        requires
            old(self)@.eor(*mode) is Some,
        ensures
            Some(final(self)@) == old(self)@.eor(*mode),
    {
        let addr = self.fetch(mode);
        let m = self.mem_read(addr);
        self.register_a ^= m;
        self.set_zero_and_negative_flag(self.register_a);
    }

    /// ORA: bitwise or of the accumulator and the operand.
    fn ora(&mut self, mode: &AddressingMode)
        requires
            old(self)@.ora(*mode) is Some,
        ensures
            Some(final(self)@) == old(self)@.ora(*mode),
    {
        let addr = self.fetch(mode);
        let m = self.mem_read(addr);
        self.register_a |= m;
        self.set_zero_and_negative_flag(self.register_a);
    }

    /// BIT: tests the operand against the accumulator.
    fn bit(&mut self, mode: &AddressingMode)
        requires
            old(self)@.bit(*mode) is Some,
        ensures
            Some(final(self)@) == old(self)@.bit(*mode),
    {
        let addr = self.fetch(mode);
        let data = self.mem_read(addr);
        let and = self.register_a & data;
        self.set_flag(Flag::Zero, and == 0);
        self.set_flag(Flag::Negative, sign_bit(data));
        self.set_flag(Flag::Overflow, overflow_bit(data));
    }

    // ----- arithmetic -----

    /// Adds `m` and the carry flag to the accumulator.
    fn add_to_register_a(&mut self, m: u8)
        ensures
            final(self)@ == old(self)@.add_operand(m),
    {
        let sum = add_with_carry(self.register_a, m, self.get_flag(Flag::Carry));
        self.register_a = sum.value;
        self.set_zero_and_negative_flag(sum.value);
        self.set_flag(Flag::Carry, sum.carry);
        self.set_flag(Flag::Overflow, sum.overflow);
    }

    /// ADC: adds the operand and the carry flag to the accumulator.
    fn adc(&mut self, mode: &AddressingMode)
        requires
            old(self)@.adc(*mode) is Some,
        ensures
            Some(final(self)@) == old(self)@.adc(*mode),
    {
        let addr = self.fetch(mode);
        let m = self.mem_read(addr);
        self.add_to_register_a(m);
    }

    /// SBC: adds the inverted operand and the carry flag to the accumulator.
    fn sbc(&mut self, mode: &AddressingMode)
        requires
            old(self)@.sbc(*mode) is Some,
        ensures
            Some(final(self)@) == old(self)@.sbc(*mode),
    {
        let addr = self.fetch(mode);
        let m = invert(self.mem_read(addr));
        self.add_to_register_a(m);
    }

    /// Compares the register value `reg` with the operand.
    fn compare_register(&mut self, mode: &AddressingMode, reg: u8)
        requires
            old(self)@.compare(*mode, reg) is Some,
        ensures
            Some(final(self)@) == old(self)@.compare(*mode, reg),
    {
        let addr = self.fetch(mode);
        let m = self.mem_read(addr);
        let c = compare(reg, m);
        self.set_flag(Flag::Zero, c.zero);
        self.set_flag(Flag::Carry, c.carry);
        self.set_flag(Flag::Negative, c.negative);
    }

    /// CMP: compares the accumulator with the operand.
    fn cmp(&mut self, mode: &AddressingMode)
        requires
            old(self)@.cmp(*mode) is Some,
        ensures
            Some(final(self)@) == old(self)@.cmp(*mode),
    {
        self.compare_register(mode, self.register_a);
    }

    /// CPX: compares X with the operand.
    fn cpx(&mut self, mode: &AddressingMode)
        requires
            old(self)@.cpx(*mode) is Some,
        ensures
            Some(final(self)@) == old(self)@.cpx(*mode),
    {
        self.compare_register(mode, self.register_x);
    }

    /// CPY: compares Y with the operand.
    fn cpy(&mut self, mode: &AddressingMode)
        requires
            old(self)@.cpy(*mode) is Some,
        ensures
            Some(final(self)@) == old(self)@.cpy(*mode),
    {
        self.compare_register(mode, self.register_y);
    }

    // ----- increments and decrements -----

    /// INC: adds one to the operand in memory.
    fn inc(&mut self, mode: &AddressingMode)
        requires
            old(self)@.inc(*mode) is Some,
        ensures
            Some(final(self)@) == old(self)@.inc(*mode),
    {
        let addr = self.fetch(mode);
        let mut m = self.mem_read(addr);
        m = m.wrapping_add(1);
        self.mem_write(addr, m);
        self.set_zero_and_negative_flag(m);
    }

    /// DEC: subtracts one from the operand in memory.
    fn dec(&mut self, mode: &AddressingMode)
        requires
            old(self)@.dec(*mode) is Some,
        ensures
            Some(final(self)@) == old(self)@.dec(*mode),
    {
        let addr = self.fetch(mode);
        let mut m = self.mem_read(addr);
        m = m.wrapping_sub(1);
        self.mem_write(addr, m);
        self.set_zero_and_negative_flag(m);
    }

    /// INX: adds one to X.
    fn inx(&mut self)
        ensures
            final(self)@ == old(self)@.inx(),
    {
        self.register_x = self.register_x.wrapping_add(1);
        self.set_zero_and_negative_flag(self.register_x);
    }

    /// INY: adds one to Y.
    fn iny(&mut self)
        ensures
            final(self)@ == old(self)@.iny(),
    {
        self.register_y = self.register_y.wrapping_add(1);
        self.set_zero_and_negative_flag(self.register_y);
    }

    /// DEX: subtracts one from X.
    fn dex(&mut self)
        ensures
            final(self)@ == old(self)@.dex(),
    {
        self.register_x = self.register_x.wrapping_sub(1);
        self.set_zero_and_negative_flag(self.register_x);
    }

    /// DEY: subtracts one from Y.
    fn dey(&mut self)
        ensures
            final(self)@ == old(self)@.dey(),
    {
        self.register_y = self.register_y.wrapping_sub(1);
        self.set_zero_and_negative_flag(self.register_y);
    }

    // ----- shifts and rotates -----

    /// ASL: shifts the operand in memory to the left.
    fn asl(&mut self, mode: &AddressingMode)
        requires
            old(self)@.asl(*mode) is Some,
        ensures
            Some(final(self)@) == old(self)@.asl(*mode),
    {
        let addr = self.fetch(mode);
        let s = shift_left(self.mem_read(addr));
        self.set_flag(Flag::Carry, s.carry);
        self.mem_write(addr, s.value);
        self.set_zero_and_negative_flag(s.value);
    }

    /// ASL: shifts the accumulator to the left.
    fn asl_a(&mut self)
        ensures
            final(self)@ == old(self)@.asl_a(),
    {
        let s = shift_left(self.register_a);
        self.set_flag(Flag::Carry, s.carry);
        self.register_a = s.value;
        self.set_zero_and_negative_flag(self.register_a);
    }

    /// LSR: shifts the operand in memory to the right.
    fn lsr(&mut self, mode: &AddressingMode)
        requires
            old(self)@.lsr(*mode) is Some,
        ensures
            Some(final(self)@) == old(self)@.lsr(*mode),
    {
        let addr = self.fetch(mode);
        let s = shift_right(self.mem_read(addr));
        self.set_flag(Flag::Carry, s.carry);
        self.mem_write(addr, s.value);
        self.set_zero_and_negative_flag(s.value);
    }

    /// LSR: shifts the accumulator to the right.
    fn lsr_a(&mut self)
        ensures
            final(self)@ == old(self)@.lsr_a(),
    {
        let s = shift_right(self.register_a);
        self.set_flag(Flag::Carry, s.carry);
        self.register_a = s.value;
        self.set_zero_and_negative_flag(self.register_a);
    }

    /// ROL: rotates the operand in memory to the left through the carry.
    fn rol(&mut self, mode: &AddressingMode)
        requires
            old(self)@.rol(*mode) is Some,
        ensures
            Some(final(self)@) == old(self)@.rol(*mode),
    {
        let addr = self.fetch(mode);
        let s = rotate_left(self.mem_read(addr), self.get_flag(Flag::Carry));
        self.set_flag(Flag::Carry, s.carry);
        self.mem_write(addr, s.value);
        self.set_zero_and_negative_flag(s.value);
    }

    /// ROL: rotates the accumulator to the left through the carry.
    fn rol_a(&mut self)
        ensures
            final(self)@ == old(self)@.rol_a(),
    {
        let s = rotate_left(self.register_a, self.get_flag(Flag::Carry));
        self.set_flag(Flag::Carry, s.carry);
        self.register_a = s.value;
        self.set_zero_and_negative_flag(self.register_a);
    }

    /// ROR: rotates the operand in memory to the right through the carry.
    fn ror(&mut self, mode: &AddressingMode)
        requires
            old(self)@.ror(*mode) is Some,
        ensures
            Some(final(self)@) == old(self)@.ror(*mode),
    {
        let addr = self.fetch(mode);
        let s = rotate_right(self.mem_read(addr), self.get_flag(Flag::Carry));
        self.set_flag(Flag::Carry, s.carry);
        self.mem_write(addr, s.value);
        self.set_zero_and_negative_flag(s.value);
    }

    /// ROR: rotates the accumulator to the right through the carry.
    fn ror_a(&mut self)
        ensures
            final(self)@ == old(self)@.ror_a(),
    {
        let s = rotate_right(self.register_a, self.get_flag(Flag::Carry));
        self.set_flag(Flag::Carry, s.carry);
        self.register_a = s.value;
        self.set_zero_and_negative_flag(self.register_a);
    }

    // ----- jumps, calls and branches -----

    /// JMP: jumps to the effective address.
    fn jmp(&mut self, mode: &AddressingMode)
        requires
            old(self)@.jmp(*mode) is Some,
        ensures
            Some(final(self)@) == old(self)@.jmp(*mode),
    {
        self.program_counter = self.fetch(mode);
    }

    /// JSR: pushes the address of the next instruction and jumps.
    fn jsr(&mut self, mode: &AddressingMode)
        requires
            old(self)@.jsr(*mode) is Some,
        ensures
            Some(final(self)@) == old(self)@.jsr(*mode),
    {
        let jump_addr = self.fetch(mode);
        let pc = self.program_counter;
        self.program_counter = jump_addr;
        self.push_stack_u16(pc.wrapping_add(2));
    }

    /// RTS: jumps to the address that it pulls.
    fn rts(&mut self)
        ensures
            final(self)@ == old(self)@.rts(),
    {
        self.program_counter = self.pop_stack_u16();
    }

    /// Branches, if `condition` holds, by the signed offset at the program
    /// counter.
    fn branch(&mut self, condition: bool)
        requires
            old(self)@.branch(condition) is Some,
        ensures
            Some(final(self)@) == old(self)@.branch(condition),
    {
        if condition {
            let offset = self.mem_read(self.program_counter);
            let jump: u16 = if offset < 0x80 {
                offset as u16
            } else {
                0xff00 + offset as u16
            };
            self.program_counter = self.program_counter.wrapping_add(1).wrapping_add(jump);
        }
    }

    // ----- flags -----

    /// SEC: sets Carry.
    fn sec(&mut self)
        ensures
            final(self)@ == old(self)@.set_flag(Flag::Carry, true),
    {
        self.set_flag(Flag::Carry, true);
    }

    /// CLC: clears Carry.
    fn clc(&mut self)
        ensures
            final(self)@ == old(self)@.set_flag(Flag::Carry, false),
    {
        self.set_flag(Flag::Carry, false);
    }

    /// SED: sets Decimal.
    fn sed(&mut self)
        ensures
            final(self)@ == old(self)@.set_flag(Flag::Decimal, true),
    {
        self.set_flag(Flag::Decimal, true);
    }

    /// CLD: clears Decimal.
    fn cld(&mut self)
        ensures
            final(self)@ == old(self)@.set_flag(Flag::Decimal, false),
    {
        self.set_flag(Flag::Decimal, false);
    }

    /// SEI: sets Interrupt.
    fn sei(&mut self)
        ensures
            final(self)@ == old(self)@.set_flag(Flag::Interrupt, true),
    {
        self.set_flag(Flag::Interrupt, true);
    }

    /// CLI: clears Interrupt.
    fn cli(&mut self)
        ensures
            final(self)@ == old(self)@.set_flag(Flag::Interrupt, false),
    {
        self.set_flag(Flag::Interrupt, false);
    }

    /// CLV: clears Overflow.
    fn clv(&mut self)
        ensures
            final(self)@ == old(self)@.set_flag(Flag::Overflow, false),
    {
        self.set_flag(Flag::Overflow, false);
    }

    // ----- system -----

    /// NOP: does nothing.
    fn nop(&mut self)
        ensures
            final(self)@ == old(self)@,
    {
    }

    /// RTI: does nothing on this machine.
    fn rti(&mut self)
        ensures
            final(self)@ == old(self)@,
    {
    }

    /// BRK: changes nothing; the interpreter stops behind it.
    fn brk(&mut self)
        ensures
            final(self)@ == old(self)@,
    {
    }

    // ----- the interpreter -----

    /// Steps over the operand bytes of an instruction of `len` bytes.
    fn skip_operands(&mut self, len: u8)
        requires
            1 <= len,
        ensures
            final(self)@ == old(self)@.advance(len),
    {
        self.program_counter = self.program_counter.wrapping_add((len - 1) as u16);
    }

    /// Carries out a load, a store or a register transfer.
    fn move_data(&mut self, opcode: &OpCode)
        requires
            opcode.mnemonic.group_spec() == Group::Move,
            old(self)@.execute(*opcode) is Some,
        ensures
            Some(final(self)@) == old(self)@.execute(*opcode),
    {
        match opcode.mnemonic {
            Mnemonic::LDA => self.lda(&opcode.mode),
            Mnemonic::LDX => self.ldx(&opcode.mode),
            Mnemonic::LDY => self.ldy(&opcode.mode),
            Mnemonic::STA => self.sta(&opcode.mode),
            Mnemonic::STX => self.stx(&opcode.mode),
            Mnemonic::STY => self.sty(&opcode.mode),
            Mnemonic::TAX => self.tax(),
            Mnemonic::TAY => self.tay(),
            Mnemonic::TXA => self.txa(),
            Mnemonic::TYA => self.tya(),
            Mnemonic::TSX => self.tsx(),
            Mnemonic::TXS => self.txs(),
            _ => vstd::pervasive::unreached(),
        }
    }

    /// Carries out a stack instruction, a logic instruction, an addition, a
    /// subtraction or a comparison.
    fn calculate(&mut self, opcode: &OpCode)
        requires
            opcode.mnemonic.group_spec() == Group::Arithmetic,
            old(self)@.execute(*opcode) is Some,
        ensures
            Some(final(self)@) == old(self)@.execute(*opcode),
    {
        match opcode.mnemonic {
            Mnemonic::PHA => self.pha(),
            Mnemonic::PHP => self.php(),
            Mnemonic::PLA => self.pla(),
            Mnemonic::PLP => self.plp(),
            Mnemonic::AND => self.and(&opcode.mode),
            Mnemonic::EOR => self.eor(&opcode.mode),
            Mnemonic::ORA => self.ora(&opcode.mode),
            Mnemonic::BIT => self.bit(&opcode.mode),
            Mnemonic::ADC => self.adc(&opcode.mode),
            Mnemonic::SBC => self.sbc(&opcode.mode),
            Mnemonic::CMP => self.cmp(&opcode.mode),
            Mnemonic::CPX => self.cpx(&opcode.mode),
            Mnemonic::CPY => self.cpy(&opcode.mode),
            _ => vstd::pervasive::unreached(),
        }
    }

    /// Carries out an increment, a decrement, a shift or a rotate.
    fn shift(&mut self, opcode: &OpCode)
        requires
            opcode.mnemonic.group_spec() == Group::Shift,
            old(self)@.execute(*opcode) is Some,
        ensures
            Some(final(self)@) == old(self)@.execute(*opcode),
    {
        match opcode.mnemonic {
            Mnemonic::INC => self.inc(&opcode.mode),
            Mnemonic::DEC => self.dec(&opcode.mode),
            Mnemonic::INX => self.inx(),
            Mnemonic::INY => self.iny(),
            Mnemonic::DEX => self.dex(),
            Mnemonic::DEY => self.dey(),
            Mnemonic::ASL => match opcode.mode {
                AddressingMode::Accumulator => self.asl_a(),
                _ => self.asl(&opcode.mode),
            },
            Mnemonic::LSR => match opcode.mode {
                AddressingMode::Accumulator => self.lsr_a(),
                _ => self.lsr(&opcode.mode),
            },
            Mnemonic::ROL => match opcode.mode {
                AddressingMode::Accumulator => self.rol_a(),
                _ => self.rol(&opcode.mode),
            },
            Mnemonic::ROR => match opcode.mode {
                AddressingMode::Accumulator => self.ror_a(),
                _ => self.ror(&opcode.mode),
            },
            _ => vstd::pervasive::unreached(),
        }
    }

    /// Carries out a jump, a call, a return or a branch. Returns whether the
    /// operation set the program counter.
    fn transfer_control(&mut self, opcode: &OpCode) -> (jumped: bool)
        requires
            opcode.mnemonic.group_spec() == Group::Control,
            old(self)@.execute(*opcode) is Some,
        ensures
            Some(final(self)@) == old(self)@.execute(*opcode),
            jumped == old(self)@.sets_pc(opcode.mnemonic),
    {
        match opcode.mnemonic {
            Mnemonic::JMP => {
                self.jmp(&opcode.mode);
                true
            },
            Mnemonic::JSR => {
                self.jsr(&opcode.mode);
                true
            },
            Mnemonic::RTS => {
                self.rts();
                true
            },
            _ => {
                let condition = self.condition(opcode.mnemonic);
                self.branch(condition);
                condition
            },
        }
    }

    /// Whether the condition of the branch `mnemonic` holds.
    fn condition(&self, mnemonic: Mnemonic) -> (holds: bool)
        ensures
            holds == self@.condition(mnemonic),
    {
        match mnemonic {
            Mnemonic::BPL => !self.get_flag(Flag::Negative),
            Mnemonic::BMI => self.get_flag(Flag::Negative),
            Mnemonic::BVC => !self.get_flag(Flag::Overflow),
            Mnemonic::BVS => self.get_flag(Flag::Overflow),
            Mnemonic::BCC => !self.get_flag(Flag::Carry),
            Mnemonic::BCS => self.get_flag(Flag::Carry),
            Mnemonic::BNE => !self.get_flag(Flag::Zero),
            Mnemonic::BEQ => self.get_flag(Flag::Zero),
            _ => false,
        }
    }

    /// Carries out a flag instruction, NOP, RTI or BRK.
    fn change_status(&mut self, opcode: &OpCode)
        requires
            opcode.mnemonic.group_spec() == Group::System,
            old(self)@.execute(*opcode) is Some,
        ensures
            Some(final(self)@) == old(self)@.execute(*opcode),
    {
        match opcode.mnemonic {
            Mnemonic::CLC => self.clc(),
            Mnemonic::SEC => self.sec(),
            Mnemonic::CLI => self.cli(),
            Mnemonic::SEI => self.sei(),
            Mnemonic::CLD => self.cld(),
            Mnemonic::SED => self.sed(),
            Mnemonic::CLV => self.clv(),
            Mnemonic::NOP => self.nop(),
            Mnemonic::RTI => self.rti(),
            Mnemonic::BRK => self.brk(),
            _ => vstd::pervasive::unreached(),
        }
    }

    /// Carries out the instruction that `opcode` describes, the program
    /// counter standing behind the opcode byte. Returns whether the
    /// operation set the program counter.
    fn dispatch(&mut self, opcode: &OpCode) -> (jumped: bool)
        requires
            old(self)@.execute(*opcode) is Some,
        ensures
            Some(final(self)@) == old(self)@.execute(*opcode),
            jumped == old(self)@.sets_pc(opcode.mnemonic),
    {
        match opcode.mnemonic.group() {
            Group::Move => {
                self.move_data(opcode);
                false
            },
            Group::Arithmetic => {
                self.calculate(opcode);
                false
            },
            Group::Shift => {
                self.shift(opcode);
                false
            },
            Group::Control => self.transfer_control(opcode),
            Group::System => {
                self.change_status(opcode);
                false
            },
        }
    }

    /// Fetches and carries out one instruction. Returns whether the machine
    /// goes on: `false` says that the instruction was BRK.
    pub fn step(&mut self) -> (running: bool)
        requires
            old(self)@.step() is Some,
        ensures
            Some(final(self)@) == old(self)@.step(),
            running == !old(self)@.at_break(),
    {
        reveal(CpuState::step);
        let code = self.mem_read(self.program_counter);
        self.program_counter = self.program_counter.wrapping_add(1);
        proof {
            lemma_decode_consistent(code);
        }
        let opcode = match lookup(code) {
            Some(opcode) => opcode,
            None => vstd::pervasive::unreached(),
        };
        let jumped = self.dispatch(&opcode);
        if !jumped {
            self.skip_operands(opcode.len);
        }
        code != 0x00
    }

    /// Runs the machine until it has fetched a BRK, calling `callback` on
    /// the processor before each fetch.
    ///
    /// What the callback does to the processor is its own affair, and the
    /// run may depend on it to end. So there is to be a reason why the run
    /// ends: a `rank` as `hook_ranked` describes it, defined on the start.
    /// A program that halts by itself has one with every callback that only
    /// watches; a program that loops for ever has one with a callback that
    /// moves the program counter to a BRK in time.
    ///
    /// The run ends behind a BRK at which the callback left the machine, as
    /// `hook_ends` says: the state in which the callback was called that
    /// last time lies in every set of states that holds the start and is
    /// closed under a call of the callback and the instruction that follows
    /// it.
    pub fn run_with_callback<F>(&mut self, callback: F) where F: FnMut(&mut CPU)
        requires
            exists|rank: spec_fn(CpuState) -> Option<nat>|
                (#[trigger] rank(old(self)@)) is Some && hook_ranked(callback, rank),
        ensures
            final(self)@.behind_break(),
            forall|closed: spec_fn(CpuState) -> bool|
                #[trigger] closed(old(self)@) && hook_closed(callback, closed) ==> hook_ends(
                    callback,
                    closed,
                    final(self)@,
                ),
    {
        let ghost rank = choose|rank: spec_fn(CpuState) -> Option<nat>|
            (#[trigger] rank(self@)) is Some && hook_ranked(callback, rank);
        self.run_ranked(callback, Ghost(rank));
    }

    /// Runs the machine as `run_with_callback` does, for a caller that names
    /// the `rank` by which the run ends.
    pub fn run_ranked<F>(
        &mut self,
        mut callback: F,
        Ghost(rank): Ghost<spec_fn(CpuState) -> Option<nat>>,
    ) where F: FnMut(&mut CPU)
        requires
            rank(old(self)@) is Some,
            hook_ranked(callback, rank),
        ensures
            final(self)@.behind_break(),
            forall|closed: spec_fn(CpuState) -> bool|
                #[trigger] closed(old(self)@) && hook_closed(callback, closed) ==> hook_ends(
                    callback,
                    closed,
                    final(self)@,
                ),
    {
        let ghost start = self@;
        let ghost hook = callback;
        loop
            invariant_except_break
                rank(self@) is Some,
                forall|closed: spec_fn(CpuState) -> bool|
                    #[trigger] closed(start) && hook_closed(hook, closed) ==> closed(self@),
            invariant
                callback == hook,
                hook_ranked(hook, rank),
            ensures
                self@.behind_break(),
                forall|closed: spec_fn(CpuState) -> bool|
                    #[trigger] closed(start) && hook_closed(hook, closed) ==> hook_ends(
                        hook,
                        closed,
                        self@,
                    ),
            decreases rank(self@).unwrap(),
        {
            let ghost before = self@;
            let seen = call_hook(&mut callback, self);
            proof {
                assert(hook_step(hook, before, seen@));
                if seen@.at_break() {
                    lemma_brk(seen@);
                }
            }
            let running = self.step();
            if !running {
                break ;
            }
        }
    }

    /// Runs the machine until it has fetched a BRK.
    pub fn run(&mut self)
        requires
            old(self)@.halts(),
        ensures
            final(self)@ == old(self)@.run(),
            final(self)@.behind_break(),
    {
        let ghost start = self@;
        let ghost closed = ends_like(start);
        let ghost rank = time_to_halt();
        let idle = |cpu: &mut CPU|
            ensures
                *final(cpu) == *old(cpu),
            {
            };
        proof {
            assert(rank(start) is Some);
            assert(closed(start));
            assert forall|before: CpuState, after: CpuState| #[trigger]
                hook_step(idle, before, after) implies after == before by {}
            assert forall|s: CpuState| s.halts() implies #[trigger] s.step() is Some && (
            !s.at_break() ==> ends_like(start)(s) ==> ends_like(start)(s.step().unwrap())) && (
            !s.at_break() ==> rank(s.step().unwrap()) is Some && rank(
                s.step().unwrap(),
            ).unwrap() < rank(s).unwrap()) by {
                s.lemma_run_unfold();
            }
        }
        self.run_with_callback(idle);
        proof {
            let (before, after) = choose|before: CpuState, after: CpuState|
                closed(before) && #[trigger] hook_step(idle, before, after) && after.at_break()
                    && after.step() == Some(self@);
            before.lemma_run_unfold();
        }
    }

    /// Writes `program` into memory from the load address upwards, writes
    /// the load address to the reset vector and sets the program counter to
    /// it.
    pub fn load(&mut self, program: Vec<u8>)
        requires
            program@.len() <= MAX_PROGRAM,
        ensures
            final(self)@ == old(self)@.load(program@),
    {
        let ghost start = self@;
        let n = program.len();
        let mut i: usize = 0;
        while i < n
            invariant
                i <= n,
                n == program@.len(),
                n <= MAX_PROGRAM,
                self@ == (CpuState {
                    ram: load_bytes(start.ram, program@.take(i as int)),
                    ..start
                }),
            decreases n - i,
        {
            proof {
                assert(program@.take(i + 1).drop_last() =~= program@.take(i as int));
            }
            self.mem_write(LOAD_BASE + i as u16, program[i]);
            i += 1;
        }
        proof {
            assert(program@.take(n as int) =~= program@);
        }
        self.mem_write_u16(RESET_VECTOR, LOAD_BASE);
        self.program_counter = LOAD_BASE;
    }

    /// Loads `program` and runs it until it has fetched a BRK.
    pub fn load_and_run(&mut self, program: Vec<u8>)
        requires
            program@.len() <= MAX_PROGRAM,
            old(self)@.load(program@).halts(),
        ensures
            final(self)@ == old(self)@.load(program@).run(),
            final(self)@.behind_break(),
    {
        self.load(program);
        self.run();
    }
}

} // verus!
