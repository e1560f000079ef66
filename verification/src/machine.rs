//! The machine as mathematics: the programmer-visible state of the
//! processor together with its RAM, and the transition that one instruction
//! makes on it.
//!
//! A transition that the machine cannot make is `None`: the opcode byte is
//! not in the table, or the instruction touches the window of the picture
//! processor, to which nothing is attached.

use vstd::prelude::*;
use crate::alu::{
    add_with_carry_spec, bit6, compare_spec, complement, rotate_left_spec, rotate_right_spec,
    shift_left_spec, shift_right_spec, signed,
};
use crate::bus::{
    bus_read, bus_read_u16, bus_write, bus_write_u16, high_byte, in_ppu, low_byte, succ, word,
    RAM_SIZE,
};
use crate::opcodes::{decode, AddressingMode, Mnemonic, OpCode};
use crate::status::{has_flag, with_flag, with_zn, Flag};

verus! {

/// First address of the stack page.
pub const STACK: u16 = 0x0100;

/// Value of the stack pointer after a reset.
pub const STACK_RESET: u8 = 0xfd;

/// Address at which programs are loaded.
pub const LOAD_BASE: u16 = 0x0600;

/// Address of the reset vector.
pub const RESET_VECTOR: u16 = 0xfffc;

/// Longest program that fits between the load address and the end of the
/// RAM window.
pub const MAX_PROGRAM: usize = 0x1a00;

/// State of the machine: registers, status byte and RAM.
pub struct CpuState {
    /// Accumulator.
    pub a: u8,
    /// Index register X.
    pub x: u8,
    /// Index register Y.
    pub y: u8,
    /// Program counter.
    pub pc: u16,
    /// Stack pointer.
    pub sp: u8,
    /// Status byte.
    pub p: u8,
    /// Contents of the work RAM.
    pub ram: Seq<u8>,
}

/// Address of the stack cell that the stack pointer `sp` designates.
pub open spec fn stack_addr(sp: u8) -> u16 {
    (STACK + sp) as u16
}

/// Target of a taken branch whose offset byte `offset` stands at `pc`: the
/// address after the offset byte, moved by the offset read as a signed
/// number, modulo 65536.
pub open spec fn branch_target(pc: u16, offset: u8) -> u16 {
    ((pc + 1 + signed(offset)) % 0x1_0000) as u16
}

/// Address to which byte `i` of a program is loaded.
pub open spec fn load_addr(i: int) -> u16 {
    (LOAD_BASE + i) as u16
}

/// RAM after the bytes of `program` are written one by one from `LOAD_BASE`
/// upwards.
pub open spec fn load_bytes(ram: Seq<u8>, program: Seq<u8>) -> Seq<u8>
    decreases program.len(),
{
    if program.len() == 0 {
        ram
    } else {
        bus_write(
            load_bytes(ram, program.drop_last()),
            load_addr(program.len() - 1),
            program.last(),
        )
    }
}

impl CpuState {
    /// The RAM has its full size.
    pub open spec fn wf(self) -> bool {
        self.ram.len() == RAM_SIZE
    }

    // ----- memory -----

    /// Byte read at `addr`.
    pub open spec fn read(self, addr: u16) -> u8 {
        bus_read(self.ram, addr)
    }

    /// Little-endian word read at `addr`.
    pub open spec fn read_u16(self, addr: u16) -> u16 {
        bus_read_u16(self.ram, addr)
    }

    /// State after `data` is written to `addr`.
    pub open spec fn write(self, addr: u16, data: u8) -> CpuState {
        CpuState { ram: bus_write(self.ram, addr, data), ..self }
    }

    /// State after the word `data` is written at `addr`.
    pub open spec fn write_u16(self, addr: u16, data: u16) -> CpuState {
        CpuState { ram: bus_write_u16(self.ram, addr, data), ..self }
    }

    // ----- status -----

    /// Whether `flag` is set.
    pub open spec fn flag(self, flag: Flag) -> bool {
        has_flag(self.p, flag)
    }

    /// State after `flag` is set to `on`.
    pub open spec fn set_flag(self, flag: Flag, on: bool) -> CpuState {
        CpuState { p: with_flag(self.p, flag, on), ..self }
    }

    /// State after Zero and Negative are set from the byte `v`.
    pub open spec fn set_zn(self, v: u8) -> CpuState {
        CpuState { p: with_zn(self.p, v), ..self }
    }

    // ----- stack -----

    /// State after `data` is pushed: it is stored where the stack pointer
    /// points, and the stack pointer then moves down by one, wrapping.
    pub open spec fn push_stack(self, data: u8) -> CpuState {
        CpuState {
            ram: bus_write(self.ram, stack_addr(self.sp), data),
            sp: self.sp.wrapping_sub(1),
            ..self
        }
    }

    /// State after a word is pushed, high byte first.
    pub open spec fn push_stack_u16(self, data: u16) -> CpuState {
        self.push_stack(high_byte(data)).push_stack(low_byte(data))
    }

    /// The byte that a pull yields: the one above the stack pointer.
    pub open spec fn top(self) -> u8 {
        self.read(stack_addr(self.sp.wrapping_add(1)))
    }

    /// State after a byte is pulled: the stack pointer moves up by one,
    /// wrapping.
    pub open spec fn pulled(self) -> CpuState {
        CpuState { sp: self.sp.wrapping_add(1), ..self }
    }

    /// The word that two pulls yield, low byte first.
    pub open spec fn top_u16(self) -> u16 {
        word(self.top(), self.pulled().top())
    }

    // ----- operands -----

    /// The byte at the program counter, unless that address faults.
    pub open spec fn operand_byte(self) -> Option<u8> {
        if in_ppu(self.pc) {
            None
        } else {
            Some(self.read(self.pc))
        }
    }

    /// The word at the program counter, unless one of its two addresses
    /// faults.
    pub open spec fn operand_word(self) -> Option<u16> {
        if in_ppu(self.pc) || in_ppu(succ(self.pc)) {
            None
        } else {
            Some(self.read_u16(self.pc))
        }
    }

    /// Effective address of an instruction with addressing mode `mode`, the
    /// program counter standing at the first operand byte. `None` where the
    /// mode designates no address or an operand byte cannot be read.
    ///
    /// The indirect mode takes its pointer from a single operand byte, and
    /// the indirect-indexed mode adds Y to that byte before it reads the
    /// pointer, as the indexed-indirect mode does with X.
    #[verifier::opaque]
    pub open spec fn fetch(self, mode: AddressingMode) -> Option<u16> {
        match mode {
            AddressingMode::Immediate => Some(self.pc),
            AddressingMode::ZeroPage => match self.operand_byte() {
                Some(b) => Some(b as u16),
                None => None,
            },
            AddressingMode::ZeroPage_X => match self.operand_byte() {
                Some(b) => Some(b.wrapping_add(self.x) as u16),
                None => None,
            },
            AddressingMode::ZeroPage_Y => match self.operand_byte() {
                Some(b) => Some(b.wrapping_add(self.y) as u16),
                None => None,
            },
            AddressingMode::Absolute => self.operand_word(),
            AddressingMode::Absolute_X => match self.operand_word() {
                Some(w) => Some(w.wrapping_add(self.x as u16)),
                None => None,
            },
            AddressingMode::Absolute_Y => match self.operand_word() {
                Some(w) => Some(w.wrapping_add(self.y as u16)),
                None => None,
            },
            AddressingMode::Indirect => match self.operand_byte() {
                Some(b) => Some(self.read_u16(b as u16)),
                None => None,
            },
            AddressingMode::Indirect_X => match self.operand_byte() {
                Some(b) => Some(self.read_u16(b.wrapping_add(self.x) as u16)),
                None => None,
            },
            AddressingMode::Indirect_Y => match self.operand_byte() {
                Some(b) => Some(self.read_u16(b.wrapping_add(self.y) as u16)),
                None => None,
            },
            AddressingMode::Accumulator | AddressingMode::NoneAddressing => None,
        }
    }

    /// Effective address of an instruction that reads or writes its operand:
    /// as `fetch`, and `None` also where the address itself faults.
    pub open spec fn target(self, mode: AddressingMode) -> Option<u16> {
        match self.fetch(mode) {
            Some(addr) => if in_ppu(addr) {
                None
            } else {
                Some(addr)
            },
            None => None,
        }
    }

    /// The byte that an instruction with mode `mode` reads as its operand.
    pub open spec fn operand(self, mode: AddressingMode) -> Option<u8> {
        match self.target(mode) {
            Some(addr) => Some(self.read(addr)),
            None => None,
        }
    }

    // ----- load and store -----

    /// LDA: the operand goes to A; Zero and Negative follow it.
    pub open spec fn lda(self, mode: AddressingMode) -> Option<CpuState> {
        match self.operand(mode) {
            Some(m) => Some(CpuState { a: m, ..self }.set_zn(m)),
            None => None,
        }
    }

    /// LDX: the operand goes to X; Zero and Negative follow it.
    pub open spec fn ldx(self, mode: AddressingMode) -> Option<CpuState> {
        match self.operand(mode) {
            Some(m) => Some(CpuState { x: m, ..self }.set_zn(m)),
            None => None,
        }
    }

    /// LDY: the operand goes to Y; Zero and Negative follow it.
    pub open spec fn ldy(self, mode: AddressingMode) -> Option<CpuState> {
        match self.operand(mode) {
            Some(m) => Some(CpuState { y: m, ..self }.set_zn(m)),
            None => None,
        }
    }

    /// A store of the byte `data`: it is written to the effective address,
    /// and no flag changes.
    pub open spec fn store(self, mode: AddressingMode, data: u8) -> Option<CpuState> {
        match self.target(mode) {
            Some(addr) => Some(self.write(addr, data)),
            None => None,
        }
    }

    // ----- register transfers -----

    /// TAX.
    pub open spec fn tax(self) -> CpuState {
        CpuState { x: self.a, ..self }.set_zn(self.a)
    }

    /// TAY.
    pub open spec fn tay(self) -> CpuState {
        CpuState { y: self.a, ..self }.set_zn(self.a)
    }

    /// TXA.
    pub open spec fn txa(self) -> CpuState {
        CpuState { a: self.x, ..self }.set_zn(self.x)
    }

    /// TYA.
    pub open spec fn tya(self) -> CpuState {
        CpuState { a: self.y, ..self }.set_zn(self.y)
    }

    /// TSX.
    pub open spec fn tsx(self) -> CpuState {
        CpuState { x: self.sp, ..self }.set_zn(self.sp)
    }

    /// TXS. Unlike the hardware, this machine sets Zero and Negative from
    /// the new stack pointer, as it does for the other transfers.
    pub open spec fn txs(self) -> CpuState {
        CpuState { sp: self.x, ..self }.set_zn(self.x)
    }

    // ----- stack instructions -----

    /// PHA: A is pushed.
    pub open spec fn pha(self) -> CpuState {
        self.push_stack(self.a)
    }

    /// PHP: the status byte is pushed with Break and Break2 set in the copy
    /// that goes to the stack. The status register itself stays as it is.
    pub open spec fn php(self) -> CpuState {
        self.push_stack(with_flag(with_flag(self.p, Flag::Break, true), Flag::Break2, true))
    }

    /// PLA: A is pulled; Zero and Negative follow it.
    pub open spec fn pla(self) -> CpuState {
        CpuState { a: self.top(), ..self.pulled() }.set_zn(self.top())
    }

    /// PLP: the status byte is pulled, with Break cleared and Break2 set.
    pub open spec fn plp(self) -> CpuState {
        CpuState { p: self.top(), ..self.pulled() }.set_flag(Flag::Break, false).set_flag(
            Flag::Break2,
            true,
        )
    }

    // ----- logic -----

    /// AND: A becomes `A & M`; Zero and Negative follow it.
    pub open spec fn and(self, mode: AddressingMode) -> Option<CpuState> {
        match self.operand(mode) {
            Some(m) => Some(CpuState { a: self.a & m, ..self }.set_zn(self.a & m)),
            None => None,
        }
    }

    /// EOR: A becomes `A ^ M`; Zero and Negative follow it.
    pub open spec fn eor(self, mode: AddressingMode) -> Option<CpuState> {
        match self.operand(mode) {
            Some(m) => Some(CpuState { a: self.a ^ m, ..self }.set_zn(self.a ^ m)),
            None => None,
        }
    }

    /// ORA: A becomes `A | M`; Zero and Negative follow it.
    pub open spec fn ora(self, mode: AddressingMode) -> Option<CpuState> {
        match self.operand(mode) {
            Some(m) => Some(CpuState { a: self.a | m, ..self }.set_zn(self.a | m)),
            None => None,
        }
    }

    /// BIT: Zero says whether `A & M` is zero, Negative is bit 7 of M and
    /// Overflow is bit 6 of M. No register changes.
    pub open spec fn bit(self, mode: AddressingMode) -> Option<CpuState> {
        match self.operand(mode) {
            Some(m) => Some(
                self.set_flag(Flag::Zero, self.a & m == 0).set_flag(
                    Flag::Negative,
                    m >= 0x80,
                ).set_flag(Flag::Overflow, bit6(m)),
            ),
            None => None,
        }
    }

    // ----- arithmetic -----

    /// State after `m` and the carry are added to A: A takes the low byte of
    /// the sum, and Zero, Negative, Carry and Overflow describe the sum.
    pub open spec fn add_operand(self, m: u8) -> CpuState {
        let sum = add_with_carry_spec(self.a, m, self.flag(Flag::Carry));
        CpuState { a: sum.value, ..self }.set_zn(sum.value).set_flag(
            Flag::Carry,
            sum.carry,
        ).set_flag(Flag::Overflow, sum.overflow)
    }

    /// ADC: the operand and the carry are added to A.
    pub open spec fn adc(self, mode: AddressingMode) -> Option<CpuState> {
        match self.operand(mode) {
            Some(m) => Some(self.add_operand(m)),
            None => None,
        }
    }

    /// SBC: the complement of the operand and the carry are added to A.
    pub open spec fn sbc(self, mode: AddressingMode) -> Option<CpuState> {
        match self.operand(mode) {
            Some(m) => Some(self.add_operand(complement(m))),
            None => None,
        }
    }

    /// Comparison of the register value `reg` with the operand: Zero says
    /// that they are equal, Carry that the register is not less, Negative
    /// that it is less. No register changes.
    pub open spec fn compare(self, mode: AddressingMode, reg: u8) -> Option<CpuState> {
        match self.operand(mode) {
            Some(m) => {
                let c = compare_spec(reg, m);
                Some(
                    self.set_flag(Flag::Zero, c.zero).set_flag(Flag::Carry, c.carry).set_flag(
                        Flag::Negative,
                        c.negative,
                    ),
                )
            },
            None => None,
        }
    }

    /// CMP: the accumulator is compared with the operand.
    pub open spec fn cmp(self, mode: AddressingMode) -> Option<CpuState> {
        self.compare(mode, self.a)
    }

    /// CPX: X is compared with the operand.
    pub open spec fn cpx(self, mode: AddressingMode) -> Option<CpuState> {
        self.compare(mode, self.x)
    }

    /// CPY: Y is compared with the operand.
    pub open spec fn cpy(self, mode: AddressingMode) -> Option<CpuState> {
        self.compare(mode, self.y)
    }

    /// STA: the accumulator is stored.
    pub open spec fn sta(self, mode: AddressingMode) -> Option<CpuState> {
        self.store(mode, self.a)
    }

    /// STX: X is stored.
    pub open spec fn stx(self, mode: AddressingMode) -> Option<CpuState> {
        self.store(mode, self.x)
    }

    /// STY: Y is stored.
    pub open spec fn sty(self, mode: AddressingMode) -> Option<CpuState> {
        self.store(mode, self.y)
    }

    // ----- increments and decrements -----

    /// State after the byte `v` replaces the operand at `addr` and Zero and
    /// Negative are set from it.
    pub open spec fn put(self, addr: u16, v: u8) -> CpuState {
        self.write(addr, v).set_zn(v)
    }

    /// INC: the operand in memory grows by one, wrapping.
    pub open spec fn inc(self, mode: AddressingMode) -> Option<CpuState> {
        match self.target(mode) {
            Some(addr) => Some(self.put(addr, self.read(addr).wrapping_add(1))),
            None => None,
        }
    }

    /// DEC: the operand in memory shrinks by one, wrapping.
    pub open spec fn dec(self, mode: AddressingMode) -> Option<CpuState> {
        match self.target(mode) {
            Some(addr) => Some(self.put(addr, self.read(addr).wrapping_sub(1))),
            None => None,
        }
    }

    /// INX.
    pub open spec fn inx(self) -> CpuState {
        CpuState { x: self.x.wrapping_add(1), ..self }.set_zn(self.x.wrapping_add(1))
    }

    /// INY.
    pub open spec fn iny(self) -> CpuState {
        CpuState { y: self.y.wrapping_add(1), ..self }.set_zn(self.y.wrapping_add(1))
    }

    /// DEX.
    pub open spec fn dex(self) -> CpuState {
        CpuState { x: self.x.wrapping_sub(1), ..self }.set_zn(self.x.wrapping_sub(1))
    }

    /// DEY.
    pub open spec fn dey(self) -> CpuState {
        CpuState { y: self.y.wrapping_sub(1), ..self }.set_zn(self.y.wrapping_sub(1))
    }

    // ----- shifts and rotates -----

    /// ASL on memory.
    pub open spec fn asl(self, mode: AddressingMode) -> Option<CpuState> {
        match self.target(mode) {
            Some(addr) => {
                let s = shift_left_spec(self.read(addr));
                Some(self.set_flag(Flag::Carry, s.carry).put(addr, s.value))
            },
            None => None,
        }
    }

    /// ASL on the accumulator.
    pub open spec fn asl_a(self) -> CpuState {
        let s = shift_left_spec(self.a);
        CpuState { a: s.value, ..self }.set_flag(Flag::Carry, s.carry).set_zn(s.value)
    }

    /// LSR on memory.
    pub open spec fn lsr(self, mode: AddressingMode) -> Option<CpuState> {
        match self.target(mode) {
            Some(addr) => {
                let s = shift_right_spec(self.read(addr));
                Some(self.set_flag(Flag::Carry, s.carry).put(addr, s.value))
            },
            None => None,
        }
    }

    /// LSR on the accumulator.
    pub open spec fn lsr_a(self) -> CpuState {
        let s = shift_right_spec(self.a);
        CpuState { a: s.value, ..self }.set_flag(Flag::Carry, s.carry).set_zn(s.value)
    }

    /// ROL on memory.
    pub open spec fn rol(self, mode: AddressingMode) -> Option<CpuState> {
        match self.target(mode) {
            Some(addr) => {
                let s = rotate_left_spec(self.read(addr), self.flag(Flag::Carry));
                Some(self.set_flag(Flag::Carry, s.carry).put(addr, s.value))
            },
            None => None,
        }
    }

    /// ROL on the accumulator.
    pub open spec fn rol_a(self) -> CpuState {
        let s = rotate_left_spec(self.a, self.flag(Flag::Carry));
        CpuState { a: s.value, ..self }.set_flag(Flag::Carry, s.carry).set_zn(s.value)
    }

    /// ROR on memory.
    pub open spec fn ror(self, mode: AddressingMode) -> Option<CpuState> {
        match self.target(mode) {
            Some(addr) => {
                let s = rotate_right_spec(self.read(addr), self.flag(Flag::Carry));
                Some(self.set_flag(Flag::Carry, s.carry).put(addr, s.value))
            },
            None => None,
        }
    }

    /// ROR on the accumulator.
    pub open spec fn ror_a(self) -> CpuState {
        let s = rotate_right_spec(self.a, self.flag(Flag::Carry));
        CpuState { a: s.value, ..self }.set_flag(Flag::Carry, s.carry).set_zn(s.value)
    }

    // ----- jumps, calls and branches -----

    /// JMP: the program counter takes the effective address, which is not
    /// itself accessed.
    pub open spec fn jmp(self, mode: AddressingMode) -> Option<CpuState> {
        match self.fetch(mode) {
            Some(addr) => Some(CpuState { pc: addr, ..self }),
            None => None,
        }
    }

    /// JSR: the address of the instruction that follows, two past the first
    /// operand byte, is pushed, and the program counter takes the effective
    /// address.
    pub open spec fn jsr(self, mode: AddressingMode) -> Option<CpuState> {
        match self.fetch(mode) {
            Some(addr) => Some(
                CpuState { pc: addr, ..self }.push_stack_u16(self.pc.wrapping_add(2)),
            ),
            None => None,
        }
    }

    /// RTS: the program counter takes the word that is pulled.
    pub open spec fn rts(self) -> CpuState {
        CpuState { pc: self.top_u16(), ..self.pulled().pulled() }
    }

    /// A branch whose condition evaluates to `condition`: if it holds, the
    /// program counter takes the branch target; if not, nothing changes and
    /// the offset byte is not read.
    pub open spec fn branch(self, condition: bool) -> Option<CpuState> {
        if condition {
            match self.operand_byte() {
                Some(offset) => Some(CpuState { pc: branch_target(self.pc, offset), ..self }),
                None => None,
            }
        } else {
            Some(self)
        }
    }

    /// Whether the condition of a branch holds: BPL and BMI ask for Negative
    /// clear and set, BVC and BVS for Overflow, BCC and BCS for Carry, BNE
    /// and BEQ for Zero. No other operation has a condition that holds.
    pub open spec fn condition(self, mnemonic: Mnemonic) -> bool {
        match mnemonic {
            Mnemonic::BPL => !self.flag(Flag::Negative),
            Mnemonic::BMI => self.flag(Flag::Negative),
            Mnemonic::BVC => !self.flag(Flag::Overflow),
            Mnemonic::BVS => self.flag(Flag::Overflow),
            Mnemonic::BCC => !self.flag(Flag::Carry),
            Mnemonic::BCS => self.flag(Flag::Carry),
            Mnemonic::BNE => !self.flag(Flag::Zero),
            Mnemonic::BEQ => self.flag(Flag::Zero),
            _ => false,
        }
    }

    /// Whether the operation sets the program counter itself: JMP, JSR and
    /// RTS do, and so does a branch whose condition holds.
    pub open spec fn sets_pc(self, mnemonic: Mnemonic) -> bool {
        match mnemonic {
            Mnemonic::JMP | Mnemonic::JSR | Mnemonic::RTS => true,
            _ => self.condition(mnemonic),
        }
    }

    // ----- one instruction -----

    /// State after the instruction described by `op` is carried out, the
    /// program counter standing behind the opcode byte. The operand bytes
    /// are not yet stepped over.
    pub open spec fn execute(self, op: OpCode) -> Option<CpuState> {
        match op.mnemonic {
            Mnemonic::LDA => self.lda(op.mode),
            Mnemonic::LDX => self.ldx(op.mode),
            Mnemonic::LDY => self.ldy(op.mode),
            Mnemonic::STA => self.sta(op.mode),
            Mnemonic::STX => self.stx(op.mode),
            Mnemonic::STY => self.sty(op.mode),
            Mnemonic::TAX => Some(self.tax()),
            Mnemonic::TAY => Some(self.tay()),
            Mnemonic::TXA => Some(self.txa()),
            Mnemonic::TYA => Some(self.tya()),
            Mnemonic::TSX => Some(self.tsx()),
            Mnemonic::TXS => Some(self.txs()),
            Mnemonic::PHA => Some(self.pha()),
            Mnemonic::PHP => Some(self.php()),
            Mnemonic::PLA => Some(self.pla()),
            Mnemonic::PLP => Some(self.plp()),
            Mnemonic::AND => self.and(op.mode),
            Mnemonic::EOR => self.eor(op.mode),
            Mnemonic::ORA => self.ora(op.mode),
            Mnemonic::BIT => self.bit(op.mode),
            Mnemonic::ADC => self.adc(op.mode),
            Mnemonic::SBC => self.sbc(op.mode),
            Mnemonic::CMP => self.cmp(op.mode),
            Mnemonic::CPX => self.cpx(op.mode),
            Mnemonic::CPY => self.cpy(op.mode),
            Mnemonic::INC => self.inc(op.mode),
            Mnemonic::DEC => self.dec(op.mode),
            Mnemonic::INX => Some(self.inx()),
            Mnemonic::INY => Some(self.iny()),
            Mnemonic::DEX => Some(self.dex()),
            Mnemonic::DEY => Some(self.dey()),
            Mnemonic::ASL => if op.mode == AddressingMode::Accumulator {
                Some(self.asl_a())
            } else {
                self.asl(op.mode)
            },
            Mnemonic::LSR => if op.mode == AddressingMode::Accumulator {
                Some(self.lsr_a())
            } else {
                self.lsr(op.mode)
            },
            Mnemonic::ROL => if op.mode == AddressingMode::Accumulator {
                Some(self.rol_a())
            } else {
                self.rol(op.mode)
            },
            Mnemonic::ROR => if op.mode == AddressingMode::Accumulator {
                Some(self.ror_a())
            } else {
                self.ror(op.mode)
            },
            Mnemonic::JMP => self.jmp(op.mode),
            Mnemonic::JSR => self.jsr(op.mode),
            Mnemonic::RTS => Some(self.rts()),
            Mnemonic::BCC
            | Mnemonic::BCS
            | Mnemonic::BNE
            | Mnemonic::BEQ
            | Mnemonic::BPL
            | Mnemonic::BMI
            | Mnemonic::BVC
            | Mnemonic::BVS => self.branch(self.condition(op.mnemonic)),
            Mnemonic::CLC => Some(self.set_flag(Flag::Carry, false)),
            Mnemonic::SEC => Some(self.set_flag(Flag::Carry, true)),
            Mnemonic::CLI => Some(self.set_flag(Flag::Interrupt, false)),
            Mnemonic::SEI => Some(self.set_flag(Flag::Interrupt, true)),
            Mnemonic::CLD => Some(self.set_flag(Flag::Decimal, false)),
            Mnemonic::SED => Some(self.set_flag(Flag::Decimal, true)),
            Mnemonic::CLV => Some(self.set_flag(Flag::Overflow, false)),
            Mnemonic::NOP | Mnemonic::RTI | Mnemonic::BRK => Some(self),
        }
    }

    /// State after the operand bytes of an instruction of `len` bytes are
    /// stepped over: the program counter moves on by the length less one.
    pub open spec fn advance(self, len: u8) -> CpuState {
        CpuState { pc: self.pc.wrapping_add((len - 1) as u16), ..self }
    }

    /// State after the opcode byte is fetched: the program counter moves on
    /// by one, wrapping.
    pub open spec fn past_opcode(self) -> CpuState {
        CpuState { pc: self.pc.wrapping_add(1), ..self }
    }

    /// The descriptor of the instruction at the program counter, unless the
    /// fetch faults or the byte is no opcode.
    pub open spec fn opcode(self) -> Option<OpCode> {
        if in_ppu(self.pc) {
            None
        } else {
            decode(self.read(self.pc))
        }
    }

    /// Whether the instruction at the program counter is BRK, on which the
    /// machine halts.
    pub open spec fn at_break(self) -> bool {
        !in_ppu(self.pc) && self.read(self.pc) == 0x00
    }

    /// State after one instruction: fetch, decode, execute, and, unless the
    /// operation set the program counter itself, step over the operand
    /// bytes. `None` where the machine faults.
    #[verifier::opaque]
    pub open spec fn step(self) -> Option<CpuState> {
        match self.opcode() {
            Some(op) => match self.past_opcode().execute(op) {
                Some(done) => Some(
                    if self.sets_pc(op.mnemonic) {
                        done
                    } else {
                        done.advance(op.len)
                    },
                ),
                None => None,
            },
            None => None,
        }
    }

    /// Whether the byte behind which the program counter stands is a BRK
    /// that could be fetched: the machine stands like this after it has
    /// halted.
    pub open spec fn behind_break(self) -> bool {
        !in_ppu(self.pc.wrapping_sub(1)) && self.read(self.pc.wrapping_sub(1)) == 0x00
    }

    // ----- runs -----

    /// State in which the machine halts, if it reaches a BRK without a fault
    /// after at most `fuel` instructions before it. The BRK itself is
    /// fetched, so the program counter ends behind it.
    pub open spec fn run_for(self, fuel: nat) -> Option<CpuState>
        decreases fuel,
    {
        match self.step() {
            Some(next) => if self.at_break() {
                Some(next)
            } else if fuel == 0 {
                None
            } else {
                next.run_for((fuel - 1) as nat)
            },
            None => None,
        }
    }

    /// Whether the machine, started in this state, reaches a BRK without a
    /// fault.
    pub open spec fn halts(self) -> bool {
        exists|fuel: nat| (#[trigger] self.run_for(fuel)) is Some
    }

    /// State in which the machine halts. Meaningful where it does halt.
    pub open spec fn run(self) -> CpuState
        recommends
            self.halts(),
    {
        self.run_for(choose|fuel: nat| (#[trigger] self.run_for(fuel)) is Some).unwrap()
    }

    /// Number of instructions that the machine carries out before the BRK
    /// on which it halts, counted with `fuel` at hand.
    pub open spec fn steps_for(self, fuel: nat) -> nat
        decreases fuel,
    {
        if self.at_break() || fuel == 0 || self.step() is None {
            0
        } else {
            1 + self.step().unwrap().steps_for((fuel - 1) as nat)
        }
    }

    /// Number of instructions that the machine carries out before the BRK
    /// on which it halts. Meaningful where it does halt.
    pub open spec fn halting_time(self) -> nat
        recommends
            self.halts(),
    {
        self.steps_for(choose|fuel: nat| (#[trigger] self.run_for(fuel)) is Some)
    }

    /// Fuel beyond what a run needs changes neither where it ends nor how
    /// long it takes.
    pub proof fn lemma_run_for_more(self, fuel: nat, more: nat)
        requires
            self.run_for(fuel) is Some,
            fuel <= more,
        ensures
            self.run_for(more) == self.run_for(fuel),
            self.steps_for(more) == self.steps_for(fuel),
            self.steps_for(fuel) <= fuel,
        decreases fuel,
    {
        if !self.at_break() {
            self.step().unwrap().lemma_run_for_more((fuel - 1) as nat, (more - 1) as nat);
        }
    }

    /// A run that ends with some fuel is the run of the machine.
    pub proof fn lemma_run_is(self, fuel: nat)
        requires
            self.run_for(fuel) is Some,
        ensures
            self.halts(),
            self.run() == self.run_for(fuel).unwrap(),
            self.halting_time() == self.steps_for(fuel),
    {
        let chosen = choose|f: nat| (#[trigger] self.run_for(f)) is Some;
        if chosen <= fuel {
            self.lemma_run_for_more(chosen, fuel);
        } else {
            self.lemma_run_for_more(fuel, chosen);
        }
    }

    /// A machine that halts can make its next step. At a BRK that step ends
    /// the run; elsewhere the run goes on from the next state, ends where it
    /// ends from there, and takes one instruction more.
    pub proof fn lemma_run_unfold(self)
        requires
            self.halts(),
        ensures
            self.step() is Some,
            self.at_break() ==> self.run() == self.step().unwrap() && self.halting_time() == 0,
            !self.at_break() ==> {
                let next = self.step().unwrap();
                &&& next.halts()
                &&& next.run() == self.run()
                &&& self.halting_time() == next.halting_time() + 1
            },
    {
        let fuel = choose|f: nat| (#[trigger] self.run_for(f)) is Some;
        if !self.at_break() {
            self.step().unwrap().lemma_run_is((fuel - 1) as nat);
        }
    }

    /// A machine that is not at a BRK and halts from its next state halts:
    /// where it halts from there, after one instruction more.
    pub proof fn lemma_run_extend(self)
        requires
            !self.at_break(),
            self.step() is Some,
            self.step().unwrap().halts(),
        ensures
            self.halts(),
            self.run() == self.step().unwrap().run(),
            self.halting_time() == self.step().unwrap().halting_time() + 1,
    {
        let next = self.step().unwrap();
        let fuel = choose|f: nat| (#[trigger] next.run_for(f)) is Some;
        next.lemma_run_is(fuel);
        assert(self.run_for(fuel + 1) == next.run_for(fuel));
        self.lemma_run_is(fuel + 1);
    }

    // ----- reset and load -----

    /// State after a reset: registers and status zero, the stack pointer at
    /// its reset value, the program counter taken from the reset vector.
    pub open spec fn reset(self) -> CpuState {
        CpuState {
            a: 0,
            x: 0,
            y: 0,
            p: 0,
            sp: STACK_RESET,
            pc: self.read_u16(RESET_VECTOR),
            ram: self.ram,
        }
    }

    /// State after `program` is loaded: its bytes are written from
    /// `LOAD_BASE` upwards, the load address is written to the reset vector,
    /// low byte first, and the program counter is set to the load address.
    pub open spec fn load(self, program: Seq<u8>) -> CpuState {
        CpuState {
            ram: bus_write_u16(load_bytes(self.ram, program), RESET_VECTOR, LOAD_BASE),
            pc: LOAD_BASE,
            ..self
        }
    }
}

} // verus!
