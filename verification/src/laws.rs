//! Laws of the machine: what holds of every state, proved from the model.

use vstd::prelude::*;
use crate::alu::{
    add_with_carry_spec, lemma_add_with_carry_bits, rotate_left_spec, rotate_right_spec,
    shift_left_spec, signed,
};
use crate::bus::{
    bus_read, bus_read_u16, bus_write, bus_write_u16, high_byte, in_ppu, in_ram, low_byte, mirror,
    succ, RAM_SIZE,
};
use crate::machine::{
    load_addr, load_bytes, stack_addr, CpuState, LOAD_BASE, MAX_PROGRAM, RESET_VECTOR,
};
use crate::opcodes::{decode, lemma_decode_consistent, AddressingMode, Mnemonic, OpCode};
use crate::status::{has_flag, lemma_with_flag, lemma_with_zn, with_flag, with_zn, Flag};

verus! {

/// A write and the reads that follow it. Inside the RAM window the byte is
/// read back at the address written and at each of its mirrors, and every
/// other cell reads as before. Outside the window the write changes
/// nothing.
pub proof fn lemma_write_read(ram: Seq<u8>, addr: u16, data: u8, other: u16)
    requires
        ram.len() == RAM_SIZE,
    ensures
        bus_write(ram, addr, data).len() == RAM_SIZE,
        !in_ram(addr) ==> bus_write(ram, addr, data) == ram,
        in_ram(addr) && in_ram(other) && mirror(other) == mirror(addr) ==> bus_read(
            bus_write(ram, addr, data),
            other,
        ) == data,
        !(in_ram(addr) && in_ram(other) && mirror(other) == mirror(addr)) ==> bus_read(
            bus_write(ram, addr, data),
            other,
        ) == bus_read(ram, other),
{
}

/// A word that is written inside the RAM window is the word that is read
/// back at the same address.
pub proof fn lemma_write_read_u16(ram: Seq<u8>, pos: u16, data: u16)
    requires
        ram.len() == RAM_SIZE,
        in_ram(pos),
        in_ram(succ(pos)),
    ensures
        bus_read_u16(bus_write_u16(ram, pos, data), pos) == data,
{
    lemma_write_read(ram, pos, low_byte(data), pos);
    let low = bus_write(ram, pos, low_byte(data));
    lemma_write_read(low, succ(pos), high_byte(data), pos);
    lemma_write_read(low, succ(pos), high_byte(data), succ(pos));
}

/// A push. The byte goes to the cell `0x0100 + SP`, which lies in the stack
/// page `0x0100..=0x01FF` whatever the stack pointer is, and every other
/// cell of the RAM reads as before. The stack pointer then moves down by
/// one, from `0x00` to `0xFF`. The registers, the program counter and the
/// status stay.
pub proof fn lemma_push_stack(s: CpuState, data: u8, other: u16)
    requires
        s.wf(),
    ensures
        stack_addr(s.sp) == 0x0100 + s.sp,
        0x0100 <= stack_addr(s.sp) <= 0x01ff,
        s.push_stack(data).read(stack_addr(s.sp)) == data,
        !(in_ram(other) && mirror(other) == mirror(stack_addr(s.sp))) ==> s.push_stack(data).read(
            other,
        ) == s.read(other),
        s.push_stack(data).sp == if s.sp == 0 {
            0xff
        } else {
            s.sp - 1
        },
        s.push_stack(data).a == s.a,
        s.push_stack(data).x == s.x,
        s.push_stack(data).y == s.y,
        s.push_stack(data).pc == s.pc,
        s.push_stack(data).p == s.p,
        s.push_stack(data).wf(),
{
}

/// A pull. The stack pointer moves up by one, from `0xFF` to `0x00`, and the
/// byte is read at the cell `0x0100 + SP` that it then designates, in the
/// stack page. Nothing else changes.
pub proof fn lemma_pop_stack(s: CpuState)
    ensures
        s.pulled().sp == if s.sp == 0xff {
            0
        } else {
            s.sp + 1
        },
        s.top() == s.read((0x0100 + s.pulled().sp) as u16),
        s.pulled() == (CpuState { sp: s.pulled().sp, ..s }),
{
}

/// A byte that is pushed is the byte that the next pull yields, and the
/// pull puts the stack pointer back.
pub proof fn lemma_push_pull(s: CpuState, data: u8)
    requires
        s.wf(),
    ensures
        s.push_stack(data).top() == data,
        s.push_stack(data).pulled().sp == s.sp,
        s.push_stack(data).wf(),
{
}

/// PHA followed by PLA restores the accumulator and the stack pointer, and
/// leaves Zero and Negative describing the accumulator.
pub proof fn lemma_pha_pla(s: CpuState)
    requires
        s.wf(),
    ensures
        s.pha().pla().a == s.a,
        s.pha().pla().sp == s.sp,
        s.pha().pla().x == s.x,
        s.pha().pla().y == s.y,
        s.pha().pla().pc == s.pc,
        s.pha().pla().flag(Flag::Zero) == (s.a == 0),
        s.pha().pla().flag(Flag::Negative) == (s.a >= 0x80),
{
    lemma_push_pull(s, s.a);
    lemma_with_zn(s.p, s.a, Flag::Carry);
}

/// PHP puts the status byte with Break and Break2 set, `P | 0x30`, into the
/// cell `0x0100 + SP` and moves the stack pointer down by one. The status
/// register, the registers and the program counter stay.
pub proof fn lemma_php(s: CpuState)
    requires
        s.wf(),
    ensures
        s.php().read(stack_addr(s.sp)) == s.p | 0x30,
        s.php().sp == s.sp.wrapping_sub(1),
        s.php().p == s.p,
        s.php().a == s.a,
        s.php().x == s.x,
        s.php().y == s.y,
        s.php().pc == s.pc,
{
    let p = s.p;
    assert((p | 0x10) | 0x20 == p | 0x30) by (bit_vector);
    lemma_push_stack(s, p | 0x30, 0);
}

/// PHP followed by PLP restores every flag but Break and Break2: Break is
/// clear and Break2 is set. The stack pointer and the registers are as
/// before.
pub proof fn lemma_php_plp(s: CpuState, flag: Flag)
    requires
        s.wf(),
    ensures
        flag != Flag::Break && flag != Flag::Break2 ==> s.php().plp().flag(flag) == s.flag(flag),
        !s.php().plp().flag(Flag::Break),
        s.php().plp().flag(Flag::Break2),
        s.php().plp().sp == s.sp,
        s.php().plp().a == s.a,
        s.php().plp().x == s.x,
        s.php().plp().y == s.y,
        s.php().plp().pc == s.pc,
{
    let set = with_flag(s.p, Flag::Break, true);
    let pushed = with_flag(set, Flag::Break2, true);
    lemma_push_pull(s, pushed);
    assert(s.php().top() == pushed);
    lemma_with_flag(s.p, Flag::Break, true, flag);
    lemma_with_flag(set, Flag::Break2, true, flag);
    let cleared = with_flag(pushed, Flag::Break, false);
    lemma_with_flag(pushed, Flag::Break, false, flag);
    lemma_with_flag(pushed, Flag::Break, false, Flag::Break2);
    lemma_with_flag(cleared, Flag::Break2, true, flag);
    lemma_with_flag(cleared, Flag::Break2, true, Flag::Break);
}

/// A word that is pushed is the word that the next two pulls yield, and
/// they put the stack pointer back.
pub proof fn lemma_push_pull_u16(s: CpuState, data: u16)
    requires
        s.wf(),
    ensures
        s.push_stack_u16(data).top_u16() == data,
        s.push_stack_u16(data).pulled().pulled().sp == s.sp,
        s.push_stack_u16(data).wf(),
{
    let high = s.push_stack(high_byte(data));
    lemma_push_pull(s, high_byte(data));
    lemma_push_pull(high, low_byte(data));
    assert(high.push_stack(low_byte(data)).pulled().top() == high_byte(data));
}

/// JSR followed by RTS comes back to the instruction behind the JSR, two
/// past its first operand byte, with the stack pointer and the registers as
/// before.
pub proof fn lemma_jsr_rts(s: CpuState, mode: AddressingMode)
    requires
        s.wf(),
        s.jsr(mode) is Some,
    ensures
        ({
            let back = s.jsr(mode).unwrap().rts();
            &&& back.pc == s.pc.wrapping_add(2)
            &&& back.sp == s.sp
            &&& back.a == s.a && back.x == s.x && back.y == s.y && back.p == s.p
        }),
{
    let target = s.fetch(mode).unwrap();
    lemma_push_pull_u16(CpuState { pc: target, ..s }, s.pc.wrapping_add(2));
}

/// A rotate to the left followed by a rotate to the right, the carry of the
/// first going into the second, gives back the byte and the carry.
pub proof fn lemma_rotate_left_right(v: u8, carry: bool)
    ensures
        ({
            let left = rotate_left_spec(v, carry);
            let right = rotate_right_spec(left.value, left.carry);
            right.value == v && right.carry == carry
        }),
{
}

/// A shift to the left followed by a rotate to the right gives back the low
/// seven bits of the byte whatever the carry, and the whole byte where the
/// carry that goes into the rotate is the one that the shift produced.
pub proof fn lemma_shift_left_rotate_right(v: u8, carry: bool)
    ensures
        ({
            let left = shift_left_spec(v);
            let right = rotate_right_spec(left.value, carry);
            &&& right.value % 128 == v % 128
            &&& carry == left.carry ==> right.value == v
            &&& !right.carry
        }),
{
}

/// ROL followed by ROR on the accumulator restores the accumulator and the
/// carry flag.
pub proof fn lemma_rol_ror(s: CpuState)
    ensures
        s.rol_a().ror_a().a == s.a,
        s.rol_a().ror_a().flag(Flag::Carry) == s.flag(Flag::Carry),
{
    let left = rotate_left_spec(s.a, s.flag(Flag::Carry));
    let t = s.rol_a();
    lemma_with_flag(s.p, Flag::Carry, left.carry, Flag::Carry);
    lemma_with_zn(with_flag(s.p, Flag::Carry, left.carry), left.value, Flag::Carry);
    assert(t.flag(Flag::Carry) == left.carry);
    lemma_rotate_left_right(s.a, s.flag(Flag::Carry));
    let right = rotate_right_spec(t.a, t.flag(Flag::Carry));
    lemma_with_flag(t.p, Flag::Carry, right.carry, Flag::Carry);
    lemma_with_zn(with_flag(t.p, Flag::Carry, right.carry), right.value, Flag::Carry);
}

/// ASL followed by ROR on the accumulator restores the accumulator: the
/// shift leaves in the carry what the rotate puts back.
pub proof fn lemma_asl_ror(s: CpuState)
    ensures
        s.asl_a().ror_a().a == s.a,
{
    let left = shift_left_spec(s.a);
    let t = s.asl_a();
    lemma_with_flag(s.p, Flag::Carry, left.carry, Flag::Carry);
    lemma_with_zn(with_flag(s.p, Flag::Carry, left.carry), left.value, Flag::Carry);
    lemma_shift_left_rotate_right(s.a, left.carry);
}

/// The addition that ADC performs, bit for bit: with `t` the sixteen-bit sum
/// of the accumulator, the operand and the carry flag, the accumulator takes
/// `t & 0xFF`, Carry is bit 8 of `t`, Zero says that `t & 0xFF` is zero,
/// Negative is bit 7 of `t`, and Overflow is bit 7 of
/// `(A ^ t) & !(A ^ M)`. The other flags and registers stay.
pub proof fn lemma_adc_bits(s: CpuState, m: u8, other: Flag)
    ensures
        ({
            let c: u16 = if s.flag(Flag::Carry) { 1 } else { 0 };
            let t: u16 = (s.a as u16 + m as u16 + c) as u16;
            let after = s.add_operand(m);
            &&& after.a == (t & 0x00ff) as u8
            &&& after.flag(Flag::Carry) == (t & 0x0100 != 0)
            &&& after.flag(Flag::Zero) == (t & 0x00ff == 0)
            &&& after.flag(Flag::Negative) == (t & 0x0080 != 0)
            &&& after.flag(Flag::Overflow) == ((s.a as u16 ^ t) & !(s.a as u16 ^ m as u16) & 0x0080
                != 0)
            &&& other != Flag::Carry && other != Flag::Zero && other != Flag::Negative && other
                != Flag::Overflow ==> after.flag(other) == s.flag(other)
            &&& after.x == s.x && after.y == s.y && after.sp == s.sp && after.pc == s.pc
                && after.ram == s.ram
        }),
{
    let sum = add_with_carry_spec(s.a, m, s.flag(Flag::Carry));
    lemma_add_with_carry_bits(s.a, m, s.flag(Flag::Carry));
    lemma_flags_after_add(s.p, sum.value, sum.carry, sum.overflow, other);
}

/// The flags after Zero and Negative are set from `v`, Carry to `carry` and
/// Overflow to `overflow`, in that order.
proof fn lemma_flags_after_add(p: u8, v: u8, carry: bool, overflow: bool, other: Flag)
    ensures
        ({
            let q = with_flag(
                with_flag(with_zn(p, v), Flag::Carry, carry),
                Flag::Overflow,
                overflow,
            );
            &&& has_flag(q, Flag::Zero) == (v == 0)
            &&& has_flag(q, Flag::Negative) == (v >= 0x80)
            &&& has_flag(q, Flag::Carry) == carry
            &&& has_flag(q, Flag::Overflow) == overflow
            &&& other != Flag::Carry && other != Flag::Zero && other != Flag::Negative && other
                != Flag::Overflow ==> has_flag(q, other) == has_flag(p, other)
        }),
{
    let described = with_zn(p, v);
    let carried = with_flag(described, Flag::Carry, carry);
    lemma_with_zn(p, v, other);
    lemma_with_zn(p, v, Flag::Carry);
    lemma_with_zn(p, v, Flag::Overflow);
    lemma_with_flag(described, Flag::Carry, carry, Flag::Zero);
    lemma_with_flag(described, Flag::Carry, carry, Flag::Negative);
    lemma_with_flag(described, Flag::Carry, carry, Flag::Overflow);
    lemma_with_flag(described, Flag::Carry, carry, other);
    lemma_with_flag(carried, Flag::Overflow, overflow, Flag::Zero);
    lemma_with_flag(carried, Flag::Overflow, overflow, Flag::Negative);
    lemma_with_flag(carried, Flag::Overflow, overflow, Flag::Carry);
    lemma_with_flag(carried, Flag::Overflow, overflow, other);
}

/// LDA with an immediate operand `v`: the accumulator takes `v`, Zero is set
/// exactly when `v` is zero and Negative exactly when `v` is at least
/// `0x80`; the other flags and registers stay, and the program counter moves
/// past the two bytes of the instruction.
pub proof fn lemma_lda_immediate(s: CpuState, v: u8, other: Flag)
    requires
        !in_ppu(s.pc),
        !in_ppu(succ(s.pc)),
        s.read(s.pc) == 0xa9,
        s.read(succ(s.pc)) == v,
    ensures
        s.step() is Some,
        ({
            let after = s.step().unwrap();
            &&& after.a == v
            &&& after.flag(Flag::Zero) == (v == 0)
            &&& after.flag(Flag::Negative) == (v >= 0x80)
            &&& other != Flag::Zero && other != Flag::Negative ==> after.flag(other) == s.flag(
                other,
            )
            &&& after.pc == s.pc.wrapping_add(2)
            &&& after.x == s.x && after.y == s.y && after.sp == s.sp && after.ram == s.ram
        }),
{
    reveal(CpuState::step);
    reveal(CpuState::fetch);
    reveal(decode);
    lemma_with_zn(s.p, v, other);
}

/// A branch. Where the condition does not hold, the program counter moves
/// past the two bytes of the instruction. Where it holds, the program
/// counter takes the address behind the instruction moved by the offset
/// byte read as a signed number, modulo 65536, whatever the offset.
/// Nothing else changes.
pub proof fn lemma_branch(s: CpuState)
    requires
        s.opcode() is Some,
        s.opcode().unwrap().mnemonic.is_branch(),
        s.condition(s.opcode().unwrap().mnemonic) ==> !in_ppu(succ(s.pc)),
    ensures
        s.step() is Some,
        ({
            let after = s.step().unwrap();
            let offset = s.read(succ(s.pc));
            let taken = s.condition(s.opcode().unwrap().mnemonic);
            &&& !taken ==> after.pc == s.pc.wrapping_add(2)
            &&& taken ==> after.pc == (s.pc + 2 + signed(offset)) % 0x1_0000
            &&& after == (CpuState { pc: after.pc, ..s })
        }),
{
    reveal(CpuState::step);
    lemma_decode_consistent(s.read(s.pc));
}

/// The eight branch opcodes and their conditions: BPL `0x10` and BMI `0x30`
/// ask for Negative clear and set, BVC `0x50` and BVS `0x70` for Overflow,
/// BCC `0x90` and BCS `0xB0` for Carry, BNE `0xD0` and BEQ `0xF0` for Zero.
pub proof fn lemma_branch_opcodes(s: CpuState, code: u8)
    requires
        code == 0x10 || code == 0x30 || code == 0x50 || code == 0x70 || code == 0x90 || code
            == 0xb0 || code == 0xd0 || code == 0xf0,
    ensures
        decode(code) is Some,
        decode(code).unwrap().mnemonic.is_branch(),
        s.condition(decode(code).unwrap().mnemonic) == if code == 0x10 {
            !s.flag(Flag::Negative)
        } else if code == 0x30 {
            s.flag(Flag::Negative)
        } else if code == 0x50 {
            !s.flag(Flag::Overflow)
        } else if code == 0x70 {
            s.flag(Flag::Overflow)
        } else if code == 0x90 {
            !s.flag(Flag::Carry)
        } else if code == 0xb0 {
            s.flag(Flag::Carry)
        } else if code == 0xd0 {
            !s.flag(Flag::Zero)
        } else {
            s.flag(Flag::Zero)
        },
{
    reveal(decode);
}

/// JMP, JSR and RTS leave the program counter where they put it, also where
/// that is the address behind the opcode byte: the operand bytes are not
/// stepped over after them.
pub proof fn lemma_jump_stays(s: CpuState)
    requires
        s.step() is Some,
        s.opcode().unwrap().mnemonic == Mnemonic::JMP || s.opcode().unwrap().mnemonic
            == Mnemonic::JSR || s.opcode().unwrap().mnemonic == Mnemonic::RTS,
    ensures
        Some(s.step().unwrap()) == s.past_opcode().execute(s.opcode().unwrap()),
{
    reveal(CpuState::step);
}

/// An operation that does not set the program counter leaves it behind the
/// whole instruction.
pub proof fn lemma_next_instruction(s: CpuState)
    requires
        s.step() is Some,
        !s.sets_pc(s.opcode().unwrap().mnemonic),
    ensures
        s.step().unwrap().pc == (s.pc + s.opcode().unwrap().len) % 0x1_0000,
{
    reveal(CpuState::step);
    lemma_decode_consistent(s.read(s.pc));
    lemma_execute_keeps_pc(s.past_opcode(), s.opcode().unwrap());
}

/// An operation that does not set the program counter does not change it.
pub proof fn lemma_execute_keeps_pc(s: CpuState, op: OpCode)
    requires
        s.execute(op) is Some,
        !s.sets_pc(op.mnemonic),
    ensures
        s.execute(op).unwrap().pc == s.pc,
{
}

/// An instruction keeps the machine well formed: the RAM keeps its size.
/// The registers, the stack pointer and the status are bytes and the program
/// counter is a sixteen-bit word before and after.
pub proof fn lemma_execute_wf(s: CpuState, op: OpCode)
    requires
        s.wf(),
        s.execute(op) is Some,
    ensures
        s.execute(op).unwrap().wf(),
{
}

/// One step keeps the machine well formed, with every register in its
/// range.
pub proof fn lemma_step_wf(s: CpuState)
    requires
        s.wf(),
        s.step() is Some,
    ensures
        ({
            let after = s.step().unwrap();
            &&& after.wf()
            &&& 0 <= after.a <= 0xff
            &&& 0 <= after.x <= 0xff
            &&& 0 <= after.y <= 0xff
            &&& 0 <= after.sp <= 0xff
            &&& 0 <= after.p <= 0xff
            &&& 0 <= after.pc <= 0xffff
        }),
{
    reveal(CpuState::step);
    lemma_execute_wf(s.past_opcode(), s.opcode().unwrap());
}

/// A run keeps the machine well formed, with every register in its range.
pub proof fn lemma_run_wf(s: CpuState, fuel: nat)
    requires
        s.wf(),
        s.run_for(fuel) is Some,
    ensures
        ({
            let after = s.run_for(fuel).unwrap();
            &&& after.wf()
            &&& 0 <= after.a <= 0xff
            &&& 0 <= after.x <= 0xff
            &&& 0 <= after.y <= 0xff
            &&& 0 <= after.sp <= 0xff
            &&& 0 <= after.p <= 0xff
            &&& 0 <= after.pc <= 0xffff
        }),
    decreases fuel,
{
    lemma_step_wf(s);
    if !s.at_break() {
        lemma_run_wf(s.step().unwrap(), (fuel - 1) as nat);
    }
}

/// What loading leaves in the RAM. The RAM keeps its size. A cell that no
/// byte of the program is written to keeps what it held. A program of at
/// most `RAM_SIZE` bytes does not overwrite itself: each of its bytes is
/// read back at the address to which it was loaded.
pub proof fn lemma_load_bytes(ram: Seq<u8>, program: Seq<u8>)
    requires
        ram.len() == RAM_SIZE,
        program.len() <= MAX_PROGRAM,
    ensures
        load_bytes(ram, program).len() == RAM_SIZE,
        forall|cell: int|
            0 <= cell < RAM_SIZE && (forall|i: int|
                0 <= i < program.len() ==> mirror(#[trigger] load_addr(i)) != cell)
                ==> #[trigger] load_bytes(ram, program)[cell] == ram[cell],
        program.len() <= RAM_SIZE ==> forall|i: int|
            0 <= i < program.len() ==> bus_read(load_bytes(ram, program), #[trigger] load_addr(i))
                == program[i],
    decreases program.len(),
{
    if program.len() > 0 {
        let front = program.drop_last();
        lemma_load_bytes(ram, front);
        let last = (program.len() - 1) as int;
        assert forall|cell: int|
            0 <= cell < RAM_SIZE && (forall|i: int|
                0 <= i < program.len() ==> mirror(#[trigger] load_addr(i))
                    != cell) implies #[trigger] load_bytes(ram, program)[cell] == ram[cell] by {
            assert(mirror(load_addr(last)) != cell);
        }
        if program.len() <= RAM_SIZE {
            assert forall|i: int| 0 <= i < program.len() implies bus_read(
                load_bytes(ram, program),
                #[trigger] load_addr(i),
            ) == program[i] by {
                if i < last {
                    assert(front[i] == program[i]);
                    assert(mirror(load_addr(i)) != mirror(load_addr(last)));
                }
            }
        }
    }
}

/// Loading leaves the registers, the stack pointer and the status as they
/// were and sets the program counter to the load address. The load address
/// that it writes to the reset vector falls outside the RAM window and is
/// dropped: the reset vector reads as zero afterwards, as it did before.
pub proof fn lemma_load(s: CpuState, program: Seq<u8>)
    requires
        s.wf(),
        program.len() <= MAX_PROGRAM,
    ensures
        s.load(program) == (CpuState { pc: LOAD_BASE, ram: load_bytes(s.ram, program), ..s }),
        s.load(program).wf(),
        s.load(program).read_u16(RESET_VECTOR) == 0,
        s.load(program).reset().pc == 0,
{
    lemma_load_bytes(s.ram, program);
}

/// At a BRK the machine makes one last step, which changes nothing but the
/// program counter: it ends behind the opcode byte. So the machine halts
/// there, after no instruction, in that state.
pub proof fn lemma_brk(s: CpuState)
    requires
        s.at_break(),
    ensures
        s.step() == Some(s.past_opcode()),
        s.halts(),
        s.run() == s.past_opcode(),
        s.halting_time() == 0,
{
    reveal(CpuState::step);
    reveal(decode);
    assert(s.run_for(0) == Some(s.past_opcode()));
    s.lemma_run_is(0);
}

/// Whether an operation may change `flag`. Loads, transfers, PLA, the logic
/// operations, increments and decrements set Zero and Negative; additions
/// and subtractions set Carry and Overflow as well; comparisons, shifts and
/// rotates set Carry, Zero and Negative; BIT sets Zero, Negative and
/// Overflow; PLP replaces the whole status; a flag instruction sets its own
/// flag. No other operation changes a flag: PHP sets Break and Break2 in
/// the byte that it pushes, not in the status.
pub open spec fn may_change(mnemonic: Mnemonic, flag: Flag) -> bool {
    match mnemonic {
        Mnemonic::LDA
        | Mnemonic::LDX
        | Mnemonic::LDY
        | Mnemonic::TAX
        | Mnemonic::TAY
        | Mnemonic::TXA
        | Mnemonic::TYA
        | Mnemonic::TSX
        | Mnemonic::TXS
        | Mnemonic::PLA
        | Mnemonic::AND
        | Mnemonic::EOR
        | Mnemonic::ORA
        | Mnemonic::INC
        | Mnemonic::DEC
        | Mnemonic::INX
        | Mnemonic::INY
        | Mnemonic::DEX
        | Mnemonic::DEY => flag == Flag::Zero || flag == Flag::Negative,
        Mnemonic::ADC | Mnemonic::SBC => flag == Flag::Zero || flag == Flag::Negative || flag
            == Flag::Carry || flag == Flag::Overflow,
        Mnemonic::CMP
        | Mnemonic::CPX
        | Mnemonic::CPY
        | Mnemonic::ASL
        | Mnemonic::LSR
        | Mnemonic::ROL
        | Mnemonic::ROR => flag == Flag::Zero || flag == Flag::Negative || flag == Flag::Carry,
        Mnemonic::BIT => flag == Flag::Zero || flag == Flag::Negative || flag == Flag::Overflow,
        Mnemonic::PLP => true,
        Mnemonic::CLC | Mnemonic::SEC => flag == Flag::Carry,
        Mnemonic::CLI | Mnemonic::SEI => flag == Flag::Interrupt,
        Mnemonic::CLD | Mnemonic::SED => flag == Flag::Decimal,
        Mnemonic::CLV => flag == Flag::Overflow,
        _ => false,
    }
}

/// An instruction leaves every flag as it was that its operation does not
/// set.
#[verifier::rlimit(40)]
pub proof fn lemma_unrelated_flags(s: CpuState, op: OpCode, flag: Flag)
    requires
        s.execute(op) is Some,
        !may_change(op.mnemonic, flag),
    ensures
        s.execute(op).unwrap().flag(flag) == s.flag(flag),
{
    assert forall|p: u8, f: Flag, on: bool| f != flag implies has_flag(
        #[trigger] with_flag(p, f, on),
        flag,
    ) == has_flag(p, flag) by {
        lemma_with_flag(p, f, on, flag);
    }
}

/// One step leaves every flag as it was that the operation at the program
/// counter does not set.
pub proof fn lemma_step_unrelated_flags(s: CpuState, flag: Flag)
    requires
        s.step() is Some,
        !may_change(s.opcode().unwrap().mnemonic, flag),
    ensures
        s.step().unwrap().flag(flag) == s.flag(flag),
{
    reveal(CpuState::step);
    lemma_unrelated_flags(s.past_opcode(), s.opcode().unwrap(), flag);
}

} // verus!
