//! The 6502 interpreter: registers, addressing modes, instruction semantics,
//! stack and interrupts.
use vstd::prelude::*;
use vstd::string::StringSliceAdditionalSpecFns;
use crate::arith::{add_with_carry, signed, spec_adc, spec_sbc, subtract_with_carry};
use crate::flags::{
    with_zn, CpuFlags, BREAK, BREAK2, CARRY, DECIMAL_MODE, INTERRUPT_DISABLE, NEGATIV, OVERFLOW,
    ZERO,
};
use crate::memory::{Memory, OAM_DMA};
use crate::ppu::{frame_position, lemma_run_dots_position, on_raster, NesPPU, DOTS_PER_FRAME};
use crate::opcodes::{is_memory_mode, lemma_table_lengths, lookup, spec_lookup, AddressingMode, Mnemonic, OpCode};
use crate::registers::with_flag;

verus! {

/// Base of the stack page.
pub const STACK: u16 = 0x0100;
pub const STACK_RESET: u8 = 0xFD;
pub const NMI_VECTOR: u16 = 0xFFFA;
pub const RESET_VECTOR: u16 = 0xFFFC;
pub const IRQ_VECTOR: u16 = 0xFFFE;
/// CPU cycles that an OAM DMA stalls for.
pub const DMA_CYCLES: u16 = 513;
pub const NMI_CYCLES: u16 = 7;
/// Most instructions that `interpret` runs in one call.
pub const STEP_LIMIT: u32 = 0x0100_0000;

#[derive(Clone, Copy, Debug, PartialEq, Eq, Structural)]
pub enum CpuError {
    /// An opcode that the table does not hold, with where it was found.
    UnknownOpcode { pc: u16, opcode: u8 },
}

/// The registers as values.
pub struct Registers {
    pub a: u8,
    pub x: u8,
    pub y: u8,
    pub sp: u8,
    pub p: u8,
}

pub open spec fn wrap8(v: int) -> u8 {
    (v % 256) as u8
}

pub open spec fn wrap16(v: int) -> u16 {
    (v % 0x10000) as u16
}

/// `p` after comparing `reg` with `m`: as a subtraction whose result is dropped.
pub open spec fn compare_flags(p: u8, reg: u8, m: u8) -> u8 {
    with_zn(with_flag(p, CARRY, reg >= m), wrap8(reg - m))
}

/// The registers after one instruction. `v` is the operand for instructions
/// that read one and the pulled byte for `PLA` and `PLP`.
pub open spec fn next_registers(r: Registers, mn: Mnemonic, v: u8) -> Registers {
    if reads_operand(mn) {
        data_registers(r, mn, v)
    } else if is_transfer(mn) {
        transfer_registers(r, mn)
    } else if is_flag_op(mn) {
        flag_registers(r, mn)
    } else if is_shift(mn) {
        shift_registers(r, mn)
    } else {
        stack_registers(r, mn, v)
    }
}

pub open spec fn is_transfer(mn: Mnemonic) -> bool {
    match mn {
        Mnemonic::TAX | Mnemonic::TXA | Mnemonic::TAY | Mnemonic::TYA | Mnemonic::TSX
        | Mnemonic::TXS | Mnemonic::INX | Mnemonic::INY | Mnemonic::DEX | Mnemonic::DEY => true,
        _ => false,
    }
}

pub open spec fn is_flag_op(mn: Mnemonic) -> bool {
    match mn {
        Mnemonic::CLC | Mnemonic::SEC | Mnemonic::CLI | Mnemonic::SEI | Mnemonic::CLV
        | Mnemonic::CLD | Mnemonic::SED => true,
        _ => false,
    }
}

pub open spec fn is_shift(mn: Mnemonic) -> bool {
    match mn {
        Mnemonic::ASL | Mnemonic::LSR | Mnemonic::ROL | Mnemonic::ROR => true,
        _ => false,
    }
}

/// Loads, arithmetic, logic, compares and `BIT`, on operand `v`.
#[verifier::opaque]
pub open spec fn data_registers(r: Registers, mn: Mnemonic, v: u8) -> Registers {
    let carry = r.p & CARRY == CARRY;
    let c: int = if carry { 1 } else { 0 };
    match mn {
        Mnemonic::LDA => Registers { a: v, p: with_zn(r.p, v), ..r },
        Mnemonic::LDX => Registers { x: v, p: with_zn(r.p, v), ..r },
        Mnemonic::LDY => Registers { y: v, p: with_zn(r.p, v), ..r },
        Mnemonic::ADC => {
            let (s, co, o) = spec_adc(r.a, v, carry);
            Registers { a: s, p: with_zn(with_flag(with_flag(r.p, CARRY, co), OVERFLOW, o), s), ..r }
        },
        Mnemonic::SBC => {
            let (s, co, o) = spec_sbc(r.a, v, carry);
            Registers { a: s, p: with_zn(with_flag(with_flag(r.p, CARRY, co), OVERFLOW, o), s), ..r }
        },
        Mnemonic::AND => Registers { a: r.a & v, p: with_zn(r.p, r.a & v), ..r },
        Mnemonic::ORA => Registers { a: r.a | v, p: with_zn(r.p, r.a | v), ..r },
        Mnemonic::EOR => Registers { a: r.a ^ v, p: with_zn(r.p, r.a ^ v), ..r },
        Mnemonic::CMP => Registers { p: compare_flags(r.p, r.a, v), ..r },
        Mnemonic::CPX => Registers { p: compare_flags(r.p, r.x, v), ..r },
        Mnemonic::CPY => Registers { p: compare_flags(r.p, r.y, v), ..r },
        Mnemonic::BIT => Registers {
            p: with_flag(
                with_flag(with_flag(r.p, ZERO, r.a & v == 0), OVERFLOW, v & 0x40 != 0),
                NEGATIV,
                v & 0x80 != 0,
            ),
            ..r
        },
        _ => r,
    }
}

/// Register transfers, increments and decrements.
#[verifier::opaque]
pub open spec fn transfer_registers(r: Registers, mn: Mnemonic) -> Registers {
    match mn {
        Mnemonic::TAX => Registers { x: r.a, p: with_zn(r.p, r.a), ..r },
        Mnemonic::TXA => Registers { a: r.x, p: with_zn(r.p, r.x), ..r },
        Mnemonic::TAY => Registers { y: r.a, p: with_zn(r.p, r.a), ..r },
        Mnemonic::TYA => Registers { a: r.y, p: with_zn(r.p, r.y), ..r },
        Mnemonic::TSX => Registers { x: r.sp, p: with_zn(r.p, r.sp), ..r },
        Mnemonic::TXS => Registers { sp: r.x, ..r },
        Mnemonic::INX => Registers { x: wrap8(r.x + 1), p: with_zn(r.p, wrap8(r.x + 1)), ..r },
        Mnemonic::INY => Registers { y: wrap8(r.y + 1), p: with_zn(r.p, wrap8(r.y + 1)), ..r },
        Mnemonic::DEX => Registers { x: wrap8(r.x - 1), p: with_zn(r.p, wrap8(r.x - 1)), ..r },
        Mnemonic::DEY => Registers { y: wrap8(r.y - 1), p: with_zn(r.p, wrap8(r.y - 1)), ..r },
        _ => r,
    }
}

/// Flag set and clear instructions.
#[verifier::opaque]
pub open spec fn flag_registers(r: Registers, mn: Mnemonic) -> Registers {
    match mn {
        Mnemonic::CLC => Registers { p: with_flag(r.p, CARRY, false), ..r },
        Mnemonic::SEC => Registers { p: with_flag(r.p, CARRY, true), ..r },
        Mnemonic::CLI => Registers { p: with_flag(r.p, INTERRUPT_DISABLE, false), ..r },
        Mnemonic::SEI => Registers { p: with_flag(r.p, INTERRUPT_DISABLE, true), ..r },
        Mnemonic::CLV => Registers { p: with_flag(r.p, OVERFLOW, false), ..r },
        Mnemonic::CLD => Registers { p: with_flag(r.p, DECIMAL_MODE, false), ..r },
        Mnemonic::SED => Registers { p: with_flag(r.p, DECIMAL_MODE, true), ..r },
        _ => r,
    }
}

/// Shifts and rotates of the accumulator.
#[verifier::opaque]
pub open spec fn shift_registers(r: Registers, mn: Mnemonic) -> Registers {
    let carry = r.p & CARRY == CARRY;
    let c: int = if carry { 1 } else { 0 };
    match mn {
        Mnemonic::ASL => {
            let s = wrap8(r.a * 2);
            Registers { a: s, p: with_zn(with_flag(r.p, CARRY, r.a >= 128), s), ..r }
        },
        Mnemonic::LSR => {
            let s = (r.a / 2) as u8;
            Registers { a: s, p: with_zn(with_flag(r.p, CARRY, r.a % 2 == 1), s), ..r }
        },
        Mnemonic::ROL => {
            let s = wrap8(r.a * 2 + c);
            Registers { a: s, p: with_zn(with_flag(r.p, CARRY, r.a >= 128), s), ..r }
        },
        Mnemonic::ROR => {
            let s = (r.a / 2 + c * 128) as u8;
            Registers { a: s, p: with_zn(with_flag(r.p, CARRY, r.a % 2 == 1), s), ..r }
        },
        _ => r,
    }
}

/// Pushes and pulls; `v` is the pulled byte.
#[verifier::opaque]
pub open spec fn stack_registers(r: Registers, mn: Mnemonic, v: u8) -> Registers {
    match mn {
        Mnemonic::PHA | Mnemonic::PHP => Registers { sp: wrap8(r.sp - 1), ..r },
        Mnemonic::PLA => Registers { sp: wrap8(r.sp + 1), a: v, p: with_zn(r.p, v), ..r },
        Mnemonic::PLP => Registers { sp: wrap8(r.sp + 1), p: (v & !BREAK) | BREAK2, ..r },
        _ => r,
    }
}

/// Instructions that read an operand from memory or from the instruction.
pub open spec fn reads_operand(mn: Mnemonic) -> bool {
    match mn {
        Mnemonic::LDA | Mnemonic::LDX | Mnemonic::LDY | Mnemonic::ADC | Mnemonic::SBC
        | Mnemonic::AND | Mnemonic::ORA | Mnemonic::EOR | Mnemonic::CMP | Mnemonic::CPX
        | Mnemonic::CPY | Mnemonic::BIT => true,
        _ => false,
    }
}

/// Value of an ASCII hex digit, either case.
pub open spec fn hex_digit(c: u8) -> Option<u8> {
    if 0x30 <= c <= 0x39 {
        Some((c - 0x30) as u8)
    } else if 0x61 <= c <= 0x66 {
        Some((c - 0x61 + 10) as u8)
    } else if 0x41 <= c <= 0x46 {
        Some((c - 0x41 + 10) as u8)
    } else {
        None
    }
}

/// An even number of hex digits and nothing else.
pub open spec fn is_hex(s: Seq<u8>) -> bool {
    &&& s.len() % 2 == 0
    &&& forall|i: int| 0 <= i < s.len() ==> (#[trigger] hex_digit(s[i])) is Some
}

/// The bytes that pairs of hex digits spell, high digit first.
pub open spec fn hex_bytes(s: Seq<u8>) -> Seq<u8> {
    Seq::new(
        s.len() / 2,
        |i: int| (hex_digit(s[2 * i])->Some_0 * 16 + hex_digit(s[2 * i + 1])->Some_0) as u8,
    )
}

/// `s` with its spaces taken out.
pub open spec fn without_spaces(s: Seq<u8>) -> Seq<u8>
    decreases s.len(),
{
    if s.len() == 0 {
        s
    } else if s.last() == 0x20 {
        without_spaces(s.drop_last())
    } else {
        without_spaces(s.drop_last()).push(s.last())
    }
}

/// Relies on `hex::decode`: it succeeds exactly on an even number of hex
/// digits of either case, and each pair gives one byte, high digit first.
#[verifier::external_body]
fn decode_hex(s: &[u8]) -> (r: Option<Vec<u8>>)
    ensures
        r is Some <==> is_hex(s@),
        (r matches Some(v) ==> v@ == hex_bytes(s@)),
{
    hex::decode(s).ok()
}

/// `base` plus `index`, wrapping, and whether the sum is on another page.
fn index_address(base: u16, index: u8) -> (r: (u16, bool))
    ensures
        r.0 == wrap16(base + index),
        r.1 == (base as int / 256 != r.0 as int / 256),
{
    let addr = base.wrapping_add(index as u16);
    (addr, base / 256 != addr / 256)
}

fn reads(mn: Mnemonic) -> (r: bool)
    ensures
        r == reads_operand(mn),
{
    match mn {
        Mnemonic::LDA | Mnemonic::LDX | Mnemonic::LDY | Mnemonic::ADC | Mnemonic::SBC
        | Mnemonic::AND | Mnemonic::ORA | Mnemonic::EOR | Mnemonic::CMP | Mnemonic::CPX
        | Mnemonic::CPY | Mnemonic::BIT => true,
        _ => false,
    }
}

/// Jumps, calls, returns, `BRK` and branches: they set the program counter themselves.
pub open spec fn is_control(mn: Mnemonic) -> bool {
    match mn {
        Mnemonic::JMP | Mnemonic::JSR | Mnemonic::RTS | Mnemonic::RTI | Mnemonic::BRK => true,
        _ => is_branch(mn),
    }
}

pub open spec fn is_branch(mn: Mnemonic) -> bool {
    match mn {
        Mnemonic::BPL | Mnemonic::BMI | Mnemonic::BVC | Mnemonic::BVS | Mnemonic::BCC
        | Mnemonic::BCS | Mnemonic::BNE | Mnemonic::BEQ => true,
        _ => false,
    }
}

/// Whether the branch `mn` is taken with status `p`.
pub open spec fn branch_taken(mn: Mnemonic, p: u8) -> bool {
    match mn {
        Mnemonic::BPL => p & NEGATIV == 0,
        Mnemonic::BMI => p & NEGATIV != 0,
        Mnemonic::BVC => p & OVERFLOW == 0,
        Mnemonic::BVS => p & OVERFLOW != 0,
        Mnemonic::BCC => p & CARRY == 0,
        Mnemonic::BCS => p & CARRY != 0,
        Mnemonic::BNE => p & ZERO == 0,
        _ => p & ZERO != 0,
    }
}

/// Instructions that read a memory byte and write back a changed one.
pub open spec fn modifies_memory(op: OpCode) -> bool {
    match op.mnemonic {
        Mnemonic::INC | Mnemonic::DEC => true,
        Mnemonic::ASL | Mnemonic::LSR | Mnemonic::ROL | Mnemonic::ROR => op.mode
            != AddressingMode::Accumulator,
        _ => false,
    }
}

/// The byte written back and the new status of a read-modify-write of `v`.
pub open spec fn rmw_result(mn: Mnemonic, v: u8, p: u8) -> (u8, u8) {
    let c: int = if p & CARRY == CARRY { 1 } else { 0 };
    match mn {
        Mnemonic::INC => (wrap8(v + 1), with_zn(p, wrap8(v + 1))),
        Mnemonic::DEC => (wrap8(v - 1), with_zn(p, wrap8(v - 1))),
        Mnemonic::ASL => (wrap8(v * 2), with_zn(with_flag(p, CARRY, v >= 128), wrap8(v * 2))),
        Mnemonic::LSR => ((v / 2) as u8, with_zn(with_flag(p, CARRY, v % 2 == 1), (v / 2) as u8)),
        Mnemonic::ROL => (
            wrap8(v * 2 + c),
            with_zn(with_flag(p, CARRY, v >= 128), wrap8(v * 2 + c)),
        ),
        _ => (
            (v / 2 + c * 128) as u8,
            with_zn(with_flag(p, CARRY, v % 2 == 1), (v / 2 + c * 128) as u8),
        ),
    }
}

/// From a dot on the raster, the PPU moved on by exactly `dots`, and `frame`
/// tells whether it passed the end of a frame.
pub open spec fn advanced_dots(old: &NesPPU, new: &NesPPU, dots: int, frame: bool) -> bool {
    on_raster(old.dot_state()) ==> {
        &&& frame_position(new.dot_state()) == (frame_position(old.dot_state()) + dots)
            % DOTS_PER_FRAME as int
        &&& frame == (frame_position(old.dot_state()) + dots >= DOTS_PER_FRAME)
    }
}

fn control(mn: Mnemonic) -> (r: bool)
    ensures
        r == is_control(mn),
{
    match mn {
        Mnemonic::JMP | Mnemonic::JSR | Mnemonic::RTS | Mnemonic::RTI | Mnemonic::BRK
        | Mnemonic::BPL | Mnemonic::BMI | Mnemonic::BVC | Mnemonic::BVS | Mnemonic::BCC
        | Mnemonic::BCS | Mnemonic::BNE | Mnemonic::BEQ => true,
        _ => false,
    }
}

fn modifies(op: OpCode) -> (r: bool)
    ensures
        r == modifies_memory(op),
{
    match op.mnemonic {
        Mnemonic::INC | Mnemonic::DEC => true,
        Mnemonic::ASL | Mnemonic::LSR | Mnemonic::ROL | Mnemonic::ROR => op.mode
            != AddressingMode::Accumulator,
        _ => false,
    }
}

/// The byte written back and the new status of a read-modify-write.
#[verifier::rlimit(50)]
fn rmw(mn: Mnemonic, v: u8, p: u8) -> (r: (u8, u8))
    ensures
        r == rmw_result(mn, v, p),
{
    let mut f = CpuFlags::from_bits_truncate(p);
    let carry = f.contains(CARRY);
    let res = match mn {
        Mnemonic::INC => v.wrapping_add(1),
        Mnemonic::DEC => v.wrapping_sub(1),
        Mnemonic::ASL => {
            f.set(CARRY, v >= 128);
            (((v as u16) * 2) % 256) as u8
        },
        Mnemonic::LSR => {
            f.set(CARRY, v % 2 == 1);
            v / 2
        },
        Mnemonic::ROL => {
            f.set(CARRY, v >= 128);
            (((v as u16) * 2 + if carry { 1 } else { 0 }) % 256) as u8
        },
        _ => {
            f.set(CARRY, v % 2 == 1);
            v / 2 + if carry { 128 } else { 0 }
        },
    };
    f.update_zero_and_negative(res);
    (res, f.bits)
}

impl AddressingMode {
    /// Whether the operand is in memory.
    pub open spec fn is_memory(&self) -> bool {
        is_memory_mode(*self)
    }

    /// Reads the operand of the instruction at `cpu`'s program counter: the byte
    /// after the opcode in immediate mode, else the byte at the operand address.
    pub fn read_u8(&self, cpu: &mut CPU) -> (r: u8)
        requires
            *self == AddressingMode::Immediate || self.is_memory(),
        ensures
            *self == AddressingMode::Immediate ==> r == old(cpu).memory.spec_peek(old(cpu).operand_pc())
                && final(cpu).memory == old(cpu).memory,
            self.is_memory() ==> r == old(cpu).memory.spec_read(old(cpu).operand_address(*self))
                && Memory::read_post(&old(cpu).memory, &final(cpu).memory, old(cpu).operand_address(*self)),
            final(cpu).registers() == old(cpu).registers(),
            final(cpu).program_counter == old(cpu).program_counter,
    {
        let (addr, _) = cpu.resolve_operand(*self);
        if *self == AddressingMode::Immediate {
            cpu.memory.peek(addr)
        } else {
            cpu.memory.read(addr)
        }
    }

    /// Stores `data` at the operand address of the instruction at `cpu`'s program counter.
    pub fn write_u8(&self, cpu: &mut CPU, data: u8)
        requires
            self.is_memory(),
        ensures
            Memory::write_post(&old(cpu).memory, &final(cpu).memory, old(cpu).operand_address(*self), data),
            final(cpu).registers() == old(cpu).registers(),
            final(cpu).program_counter == old(cpu).program_counter,
    {
        let (addr, _) = cpu.resolve_operand(*self);
        cpu.memory.write(addr, data);
    }
}

pub struct CPU {
    pub register_a: u8,
    pub register_x: u8,
    pub register_y: u8,
    pub stack_pointer: u8,
    pub program_counter: u16,
    pub flags: CpuFlags,
    pub memory: Memory,
}

impl CPU {
    pub open spec fn registers(&self) -> Registers {
        Registers {
            a: self.register_a,
            x: self.register_x,
            y: self.register_y,
            sp: self.stack_pointer,
            p: self.flags.bits,
        }
    }

    /// Address of the byte after the opcode.
    pub open spec fn operand_pc(&self) -> u16 {
        wrap16(self.program_counter + 1)
    }

    /// Little-endian word in the zero page at `p`, the high byte wrapping within the page.
    pub open spec fn zero_page_word(&self, p: int) -> int {
        self.memory.spec_peek((p % 256) as u16) as int + 256 * self.memory.spec_peek(
            ((p + 1) % 256) as u16,
        ) as int
    }

    /// The address before indexing, for the indexed modes.
    pub open spec fn base_address(&self, mode: AddressingMode) -> int {
        let pc = self.operand_pc();
        match mode {
            AddressingMode::AbsoluteX | AddressingMode::AbsoluteY => self.memory.spec_peek_u16(
                pc,
            ) as int,
            AddressingMode::IndirectY => self.zero_page_word(self.memory.spec_peek(pc) as int),
            _ => 0,
        }
    }

    /// The effective operand address of an instruction in `mode` at the program counter.
    pub open spec fn operand_address(&self, mode: AddressingMode) -> u16 {
        let pc = self.operand_pc();
        let b = self.memory.spec_peek(pc) as int;
        match mode {
            AddressingMode::ZeroPage => b as u16,
            AddressingMode::ZeroPageX => wrap8(b + self.register_x) as u16,
            AddressingMode::ZeroPageY => wrap8(b + self.register_y) as u16,
            AddressingMode::Absolute => self.memory.spec_peek_u16(pc),
            AddressingMode::AbsoluteX => wrap16(self.base_address(mode) + self.register_x),
            AddressingMode::AbsoluteY => wrap16(self.base_address(mode) + self.register_y),
            AddressingMode::IndirectX => self.zero_page_word(b + self.register_x) as u16,
            AddressingMode::IndirectY => wrap16(self.base_address(mode) + self.register_y),
            AddressingMode::Indirect => self.indirect_target(),
            _ => pc,
        }
    }

    /// Whether indexing moved the operand address to another page.
    pub open spec fn page_crossed(&self, mode: AddressingMode) -> bool {
        match mode {
            AddressingMode::AbsoluteX | AddressingMode::AbsoluteY | AddressingMode::IndirectY => {
                self.base_address(mode) / 256 != self.operand_address(mode) as int / 256
            },
            _ => false,
        }
    }

    /// The stack address that the next push writes.
    pub open spec fn stack_top(&self) -> u16 {
        (STACK + self.stack_pointer) as u16
    }

    /// The byte that the next pull reads.
    pub open spec fn stack_next(&self) -> u8 {
        self.memory.ram@[STACK + wrap8(self.stack_pointer + 1)]
    }

    /// The byte that an instruction reads or pulls, or 0 where it takes none.
    pub open spec fn operand_value(&self, op: OpCode) -> u8 {
        if reads_operand(op.mnemonic) {
            if op.mode == AddressingMode::Immediate {
                self.memory.spec_peek(self.operand_pc())
            } else {
                self.memory.spec_read(self.operand_address(op.mode))
            }
        } else if op.mnemonic == Mnemonic::PLA || op.mnemonic == Mnemonic::PLP {
            self.stack_next()
        } else {
            0
        }
    }

    /// The byte that a store or a push writes.
    pub open spec fn stored_value(&self, mn: Mnemonic) -> u8 {
        match mn {
            Mnemonic::STA | Mnemonic::PHA => self.register_a,
            Mnemonic::STX => self.register_x,
            Mnemonic::STY => self.register_y,
            _ => self.flags.bits | BREAK | BREAK2,
        }
    }

    /// Cycles taken by `op` here: the table's count, one more for a page crossed
    /// on an indexed read, and the DMA stall for a store to the DMA port.
    pub open spec fn op_cycles(&self, op: OpCode) -> int {
        op.cycles as int + (if op.page_cross_penalty && self.page_crossed(op.mode) {
            1int
        } else {
            0int
        }) + (if (op.mnemonic == Mnemonic::STA || op.mnemonic == Mnemonic::STX || op.mnemonic
            == Mnemonic::STY) && self.operand_address(op.mode) == OAM_DMA {
            DMA_CYCLES as int
        } else {
            0int
        }) + self.branch_cycles(op.mnemonic)
    }

    /// What memory undergoes when `op` runs here.
    pub open spec fn memory_effect(&self, new: &Memory, op: OpCode) -> bool {
        let mn = op.mnemonic;
        if reads_operand(mn) && op.mode != AddressingMode::Immediate {
            Memory::read_post(&self.memory, new, self.operand_address(op.mode))
        } else if mn == Mnemonic::STA || mn == Mnemonic::STX || mn == Mnemonic::STY {
            Memory::write_post(&self.memory, new, self.operand_address(op.mode), self.stored_value(mn))
        } else if mn == Mnemonic::PHA || mn == Mnemonic::PHP {
            Memory::write_post(&self.memory, new, self.stack_top(), self.stored_value(mn))
        } else {
            *new == self.memory
        }
    }

    /// The target of `JMP` through a pointer. Where the pointer's low byte is
    /// `0xFF`, the high byte of the target is read from the start of the same
    /// page, as the 6502 does.
    pub open spec fn indirect_target(&self) -> u16 {
        let ptr = self.memory.spec_peek_u16(self.operand_pc());
        let hi_at = (ptr as int / 256) * 256 + (ptr as int + 1) % 256;
        (self.memory.spec_peek(ptr) as int + 256 * self.memory.spec_peek(hi_at as u16) as int) as u16
    }

    /// Where a branch goes when taken: a signed offset from the next instruction.
    pub open spec fn branch_target(&self) -> u16 {
        wrap16(self.program_counter + 2 + signed(self.memory.spec_peek(self.operand_pc())))
    }

    /// The stack byte `k` above the stack pointer.
    pub open spec fn stack_at(&self, k: int) -> u8 {
        self.memory.ram@[STACK + wrap8(self.stack_pointer + k)]
    }

    /// `new`'s memory is `self`'s with `hi` and `lo` pushed, then `third` if given.
    pub open spec fn pushed(&self, new: &CPU, hi: u8, lo: u8, third: Option<u8>) -> bool {
        let sp = self.stack_pointer as int;
        let two = self.memory.ram@.update(STACK + sp, hi).update(STACK + wrap8(sp - 1), lo);
        &&& new.memory.ram@ == match third {
            Some(b) => two.update(STACK + wrap8(sp - 2), b),
            None => two,
        }
        &&& new.memory.same_cartridge(&self.memory)
        &&& new.memory.ppu == self.memory.ppu
    }

    /// The effect of a jump, call, return, `BRK` or branch.
    pub open spec fn control_post(old: &CPU, new: &CPU, op: OpCode) -> bool {
        let pc = old.program_counter as int;
        let sp = old.stack_pointer as int;
        let ret = wrap16(pc + 2);
        let r = old.registers();
        match op.mnemonic {
            Mnemonic::JMP => new.program_counter == old.operand_address(op.mode) && new.registers() == r
                && new.memory == old.memory,
            Mnemonic::JSR => {
                &&& new.program_counter == old.operand_address(op.mode)
                &&& new.registers() == Registers { sp: wrap8(sp - 2), ..r }
                &&& old.pushed(new, (ret / 256) as u8, (ret % 256) as u8, None)
            },
            Mnemonic::RTS => {
                &&& new.program_counter == wrap16(old.stack_at(2) * 256 + old.stack_at(1) + 1)
                &&& new.registers() == Registers { sp: wrap8(sp + 2), ..r }
                &&& new.memory == old.memory
            },
            Mnemonic::RTI => {
                &&& new.program_counter == (old.stack_at(3) * 256 + old.stack_at(2)) as u16
                &&& new.registers() == Registers {
                    sp: wrap8(sp + 3),
                    p: (old.stack_at(1) & !BREAK) | BREAK2,
                    ..r
                }
                &&& new.memory == old.memory
            },
            Mnemonic::BRK => {
                &&& new.program_counter == old.memory.spec_peek_u16(IRQ_VECTOR)
                &&& new.registers() == Registers {
                    sp: wrap8(sp - 3),
                    p: with_flag(r.p, INTERRUPT_DISABLE, true),
                    ..r
                }
                &&& old.pushed(new, (ret / 256) as u8, (ret % 256) as u8, Some(r.p | BREAK | BREAK2))
            },
            _ => {
                &&& new.program_counter == if branch_taken(op.mnemonic, r.p) {
                    old.branch_target()
                } else {
                    ret
                }
                &&& new.registers() == r
                &&& new.memory == old.memory
            },
        }
    }

    /// The effect of `INC`, `DEC` or a shift on memory: the byte is read, then
    /// the changed byte written back.
    pub open spec fn rmw_post(old: &CPU, new: &CPU, op: OpCode) -> bool {
        let ea = old.operand_address(op.mode);
        let v = old.memory.spec_read(ea);
        let (res, p) = rmw_result(op.mnemonic, v, old.flags.bits);
        &&& new.program_counter == wrap16(old.program_counter + op.len)
        &&& new.registers() == Registers { p, ..old.registers() }
        &&& exists|mid: Memory|
            #![trigger Memory::read_post(&old.memory, &mid, ea)]
            Memory::read_post(&old.memory, &mid, ea) && Memory::write_post(&mid, &new.memory, ea, res)
    }

    /// Cycles a branch adds: one when taken, one more when it lands on another page.
    pub open spec fn branch_cycles(&self, mn: Mnemonic) -> int {
        if is_branch(mn) && branch_taken(mn, self.flags.bits) {
            if wrap16(self.program_counter + 2) as int / 256 != self.branch_target() as int / 256 {
                2
            } else {
                1
            }
        } else {
            0
        }
    }

    /// One instruction, as `step` runs it: the opcode at the program counter is
    /// looked up, its operand resolved, its effect applied, and the program
    /// counter moved past it.
    #[verifier::opaque]
    pub open spec fn step_post(old: &CPU, new: &CPU, r: Result<u16, CpuError>) -> bool {
        let pc = old.program_counter;
        let code = old.memory.spec_peek(pc);
        match spec_lookup(code) {
            None => r == Err::<u16, CpuError>(CpuError::UnknownOpcode { pc, opcode: code })
                && new.registers() == old.registers() && new.program_counter == pc
                && new.memory == old.memory,
            Some(op) => {
                &&& r == Ok::<u16, CpuError>(old.op_cycles(op) as u16)
                &&& if is_control(op.mnemonic) {
                    Self::control_post(old, new, op)
                } else if modifies_memory(op) {
                    Self::rmw_post(old, new, op)
                } else {
                    &&& new.program_counter == wrap16(pc + op.len)
                    &&& new.registers() == next_registers(
                        old.registers(),
                        op.mnemonic,
                        old.operand_value(op),
                    )
                    &&& old.memory_effect(&new.memory, op)
                }
            },
        }
    }

    /// A CPU on an empty bus: registers zero, `SP = 0xFF`, only bit 5 of `P` set.
    pub fn new() -> (r: Self)
        ensures
            r.register_a == 0 && r.register_x == 0 && r.register_y == 0,
            r.stack_pointer == 0xFF,
            r.program_counter == 0,
            r.flags.bits == BREAK2,
            r.memory.ram@ == Seq::new(2048, |i: int| 0u8),
            r.memory.prg_rom@.len() == 0,
            r.memory.ppu.fresh(),
    {
        CPU::with_memory(Memory::new())
    }

    /// A CPU on the given bus, before reset.
    pub fn with_memory(memory: Memory) -> (r: Self)
        ensures
            r.register_a == 0 && r.register_x == 0 && r.register_y == 0,
            r.stack_pointer == 0xFF,
            r.program_counter == 0,
            r.flags.bits == BREAK2,
            r.memory == memory,
    {
        CPU {
            register_a: 0,
            register_x: 0,
            register_y: 0,
            stack_pointer: 0xFF,
            program_counter: 0,
            flags: CpuFlags::from_bits_truncate(BREAK2),
            memory,
        }
    }

    /// Reset: registers cleared, `SP = 0xFD`, interrupts disabled, the program
    /// counter loaded from the reset vector, and the PPU's counters cleared.
    pub fn reset(&mut self)
        ensures
            final(self).register_a == 0 && final(self).register_x == 0 && final(self).register_y == 0,
            final(self).stack_pointer == STACK_RESET,
            final(self).flags.bits == INTERRUPT_DISABLE | BREAK2,
            final(self).program_counter == old(self).memory.spec_peek_u16(RESET_VECTOR),
            final(self).memory.ram == old(self).memory.ram,
            final(self).memory.same_cartridge(&old(self).memory),
            final(self).memory.ppu.line == 0 && final(self).memory.ppu.cycles == 0,
            final(self).memory.ppu.status.bits == 0,
            final(self).memory.ppu.nmi_interrupt is None,
            final(self).memory.ppu.same_memory(&old(self).memory.ppu),
            final(self).memory.ppu.same_regs(&old(self).memory.ppu),
    {
        self.register_a = 0;
        self.register_x = 0;
        self.register_y = 0;
        self.stack_pointer = STACK_RESET;
        self.flags = CpuFlags::from_bits_truncate(INTERRUPT_DISABLE | BREAK2);
        self.program_counter = self.memory.read_u16(RESET_VECTOR);
        self.memory.ppu.reset();
    }

    /// Word in the zero page at `p`, with the high byte read from `p + 1` within the page.
    fn read_zero_page_u16(&self, p: u8) -> (r: u16)
        ensures
            r as int == self.zero_page_word(p as int),
    {
        let lo = self.memory.peek(p as u16);
        let hi = self.memory.peek(p.wrapping_add(1) as u16);
        (lo as u16) + (hi as u16) * 256
    }

    /// The address that `JMP` through a pointer goes to; see `indirect_target`.
    fn resolve_indirect(&self) -> (r: u16)
        ensures
            r == self.indirect_target(),
    {
        let ptr = self.memory.read_u16(self.program_counter.wrapping_add(1));
        let lo = self.memory.peek(ptr);
        let hi_at = if ptr % 256 == 255 { ptr - 255 } else { ptr + 1 };
        let hi = self.memory.peek(hi_at);
        lo as u16 + hi as u16 * 256
    }

    /// Resolves the operand address of `mode`, and whether indexing crossed a page.
    pub fn resolve_operand(&self, mode: AddressingMode) -> (r: (u16, bool))
        ensures
            r.0 == self.operand_address(mode),
            r.1 == self.page_crossed(mode),
    {
        let pc = self.program_counter.wrapping_add(1);
        match mode {
            AddressingMode::ZeroPage => (self.memory.peek(pc) as u16, false),
            AddressingMode::ZeroPageX => (self.memory.peek(pc).wrapping_add(self.register_x) as u16, false),
            AddressingMode::ZeroPageY => (self.memory.peek(pc).wrapping_add(self.register_y) as u16, false),
            AddressingMode::Absolute => (self.memory.read_u16(pc), false),
            AddressingMode::AbsoluteX => {
                let base = self.memory.read_u16(pc);
                index_address(base, self.register_x)
            },
            AddressingMode::AbsoluteY => {
                let base = self.memory.read_u16(pc);
                index_address(base, self.register_y)
            },
            AddressingMode::IndirectX => {
                let ptr = self.memory.peek(pc).wrapping_add(self.register_x);
                (self.read_zero_page_u16(ptr), false)
            },
            AddressingMode::IndirectY => {
                let base = self.read_zero_page_u16(self.memory.peek(pc));
                index_address(base, self.register_y)
            },
            AddressingMode::Indirect => (self.resolve_indirect(), false),
            _ => (pc, false),
        }
    }

    /// Applies the register effect of `mn`, with operand or pulled byte `v`.
    pub fn apply(&mut self, mn: Mnemonic, v: u8)
        ensures
            final(self).registers() == next_registers(old(self).registers(), mn, v),
            final(self).program_counter == old(self).program_counter,
            final(self).memory == old(self).memory,
    {
        if reads(mn) {
            self.apply_read(mn, v);
        } else {
            self.apply_other(mn, v);
        }
    }

    /// The register effect of an instruction that reads an operand.
    #[verifier::rlimit(50)]
    fn apply_read(&mut self, mn: Mnemonic, v: u8)
        requires
            reads_operand(mn),
        ensures
            final(self).registers() == next_registers(old(self).registers(), mn, v),
            final(self).program_counter == old(self).program_counter,
            final(self).memory == old(self).memory,
    {
        reveal(data_registers);
        let carry = self.flags.contains(CARRY);
        match mn {
            Mnemonic::LDA => self.set_register_a(v),
            Mnemonic::LDX => self.set_register_x(v),
            Mnemonic::LDY => self.set_register_y(v),
            Mnemonic::ADC => {
                let (s, c, o) = add_with_carry(self.register_a, v, carry);
                self.flags.set(CARRY, c);
                self.flags.set(OVERFLOW, o);
                self.set_register_a(s);
            },
            Mnemonic::SBC => {
                let (s, c, o) = subtract_with_carry(self.register_a, v, carry);
                self.flags.set(CARRY, c);
                self.flags.set(OVERFLOW, o);
                self.set_register_a(s);
            },
            Mnemonic::AND => self.set_register_a(self.register_a & v),
            Mnemonic::ORA => self.set_register_a(self.register_a | v),
            Mnemonic::EOR => self.set_register_a(self.register_a ^ v),
            Mnemonic::CMP => self.compare(self.register_a, v),
            Mnemonic::CPX => self.compare(self.register_x, v),
            Mnemonic::CPY => self.compare(self.register_y, v),
            Mnemonic::BIT => {
                self.flags.set(ZERO, self.register_a & v == 0);
                self.flags.set(OVERFLOW, v & 0x40 != 0);
                self.flags.set(NEGATIV, v & 0x80 != 0);
            },
            _ => {},
        }
    }

    /// The register effect of an instruction that reads no operand.
    #[verifier::rlimit(50)]
    fn apply_other(&mut self, mn: Mnemonic, v: u8)
        requires
            !reads_operand(mn),
        ensures
            final(self).registers() == next_registers(old(self).registers(), mn, v),
            final(self).program_counter == old(self).program_counter,
            final(self).memory == old(self).memory,
    {
        reveal(stack_registers);
        match mn {
            Mnemonic::TAX | Mnemonic::TXA | Mnemonic::TAY | Mnemonic::TYA | Mnemonic::TSX
            | Mnemonic::TXS | Mnemonic::INX | Mnemonic::INY | Mnemonic::DEX | Mnemonic::DEY => self.transfer(mn),
            Mnemonic::CLC | Mnemonic::SEC | Mnemonic::CLI | Mnemonic::SEI | Mnemonic::CLV
            | Mnemonic::CLD | Mnemonic::SED => self.flag_op(mn),
            Mnemonic::ASL | Mnemonic::LSR | Mnemonic::ROL | Mnemonic::ROR => self.shift(mn),
            Mnemonic::PHA | Mnemonic::PHP => self.stack_pointer = self.stack_pointer.wrapping_sub(1),
            Mnemonic::PLA => {
                self.stack_pointer = self.stack_pointer.wrapping_add(1);
                self.set_register_a(v);
            },
            Mnemonic::PLP => {
                self.stack_pointer = self.stack_pointer.wrapping_add(1);
                self.flags = CpuFlags::from_bits_truncate((v & !BREAK) | BREAK2);
            },
            _ => {},
        }
    }

    /// Register transfers, increments and decrements.
    #[verifier::rlimit(50)]
    fn transfer(&mut self, mn: Mnemonic)
        requires
            mn == Mnemonic::TAX || mn == Mnemonic::TXA || mn == Mnemonic::TAY || mn == Mnemonic::TYA
                || mn == Mnemonic::TSX || mn == Mnemonic::TXS || mn == Mnemonic::INX || mn == Mnemonic::INY
                || mn == Mnemonic::DEX || mn == Mnemonic::DEY,
        ensures
            final(self).registers() == next_registers(old(self).registers(), mn, 0),
            final(self).program_counter == old(self).program_counter,
            final(self).memory == old(self).memory,
    {
        reveal(transfer_registers);
        match mn {
            Mnemonic::TAX => self.set_register_x(self.register_a),
            Mnemonic::TXA => self.set_register_a(self.register_x),
            Mnemonic::TAY => self.set_register_y(self.register_a),
            Mnemonic::TYA => self.set_register_a(self.register_y),
            Mnemonic::TSX => self.set_register_x(self.stack_pointer),
            Mnemonic::TXS => self.stack_pointer = self.register_x,
            Mnemonic::INX => self.set_register_x(self.register_x.wrapping_add(1)),
            Mnemonic::INY => self.set_register_y(self.register_y.wrapping_add(1)),
            Mnemonic::DEX => self.set_register_x(self.register_x.wrapping_sub(1)),
            Mnemonic::DEY => self.set_register_y(self.register_y.wrapping_sub(1)),
            _ => {},
        }
    }

    /// Flag set and clear instructions.
    #[verifier::rlimit(50)]
    fn flag_op(&mut self, mn: Mnemonic)
        requires
            mn == Mnemonic::CLC || mn == Mnemonic::SEC || mn == Mnemonic::CLI || mn == Mnemonic::SEI
                || mn == Mnemonic::CLV || mn == Mnemonic::CLD || mn == Mnemonic::SED,
        ensures
            final(self).registers() == next_registers(old(self).registers(), mn, 0),
            final(self).program_counter == old(self).program_counter,
            final(self).memory == old(self).memory,
    {
        reveal(flag_registers);
        match mn {
            Mnemonic::CLC => self.clear_carry_flag(),
            Mnemonic::SEC => self.set_carry_flag(),
            Mnemonic::CLI => self.flags.remove(INTERRUPT_DISABLE),
            Mnemonic::SEI => self.flags.insert(INTERRUPT_DISABLE),
            Mnemonic::CLV => self.flags.remove(OVERFLOW),
            Mnemonic::CLD => self.flags.remove(DECIMAL_MODE),
            Mnemonic::SED => self.flags.insert(DECIMAL_MODE),
            _ => {},
        }
    }

    /// `ASL`, `LSR`, `ROL`, `ROR` on the accumulator.
    #[verifier::rlimit(50)]
    fn shift(&mut self, mn: Mnemonic)
        requires
            mn == Mnemonic::ASL || mn == Mnemonic::LSR || mn == Mnemonic::ROL || mn == Mnemonic::ROR,
        ensures
            final(self).registers() == next_registers(old(self).registers(), mn, 0),
            final(self).program_counter == old(self).program_counter,
            final(self).memory == old(self).memory,
    {
        reveal(shift_registers);
        let carry = self.flags.contains(CARRY);
        match mn {
            Mnemonic::ASL => {
                let a = self.register_a;
                self.flags.set(CARRY, a >= 128);
                self.set_register_a((((a as u16) * 2) % 256) as u8);
            },
            Mnemonic::LSR => {
                let a = self.register_a;
                self.flags.set(CARRY, a % 2 == 1);
                self.set_register_a(a / 2);
            },
            Mnemonic::ROL => {
                let a = self.register_a;
                let c: u8 = if carry { 1 } else { 0 };
                self.flags.set(CARRY, a >= 128);
                self.set_register_a((((a as u16) * 2 + c as u16) % 256) as u8);
            },
            Mnemonic::ROR => {
                let a = self.register_a;
                let c: u8 = if carry { 128 } else { 0 };
                self.flags.set(CARRY, a % 2 == 1);
                self.set_register_a(a / 2 + c);
            },
            _ => {},
        }
    }

    /// Loads `A` and sets `Z` and `N` from it.
    pub fn set_register_a(&mut self, data: u8)
        ensures
            final(self).register_a == data,
            final(self).flags.bits == with_zn(old(self).flags.bits, data),
            final(self).register_x == old(self).register_x,
            final(self).register_y == old(self).register_y,
            final(self).stack_pointer == old(self).stack_pointer,
            final(self).program_counter == old(self).program_counter,
            final(self).memory == old(self).memory,
    {
        self.register_a = data;
        self.flags.update_zero_and_negative(data);
    }

    pub fn set_register_x(&mut self, data: u8)
        ensures
            final(self).register_x == data,
            final(self).flags.bits == with_zn(old(self).flags.bits, data),
            final(self).register_a == old(self).register_a,
            final(self).register_y == old(self).register_y,
            final(self).stack_pointer == old(self).stack_pointer,
            final(self).program_counter == old(self).program_counter,
            final(self).memory == old(self).memory,
    {
        self.register_x = data;
        self.flags.update_zero_and_negative(data);
    }

    pub fn set_register_y(&mut self, data: u8)
        ensures
            final(self).register_y == data,
            final(self).flags.bits == with_zn(old(self).flags.bits, data),
            final(self).register_a == old(self).register_a,
            final(self).register_x == old(self).register_x,
            final(self).stack_pointer == old(self).stack_pointer,
            final(self).program_counter == old(self).program_counter,
            final(self).memory == old(self).memory,
    {
        self.register_y = data;
        self.flags.update_zero_and_negative(data);
    }

    /// Flags of `reg - m`, the difference dropped.
    fn compare(&mut self, reg: u8, m: u8)
        ensures
            final(self).flags.bits == compare_flags(old(self).flags.bits, reg, m),
            final(self).register_a == old(self).register_a,
            final(self).register_x == old(self).register_x,
            final(self).register_y == old(self).register_y,
            final(self).stack_pointer == old(self).stack_pointer,
            final(self).program_counter == old(self).program_counter,
            final(self).memory == old(self).memory,
    {
        self.flags.set(CARRY, reg >= m);
        self.flags.update_zero_and_negative(reg.wrapping_sub(m));
    }

    pub fn set_carry_flag(&mut self)
        ensures
            final(self).flags.bits == with_flag(old(self).flags.bits, CARRY, true),
            final(self).register_a == old(self).register_a,
            final(self).register_x == old(self).register_x,
            final(self).register_y == old(self).register_y,
            final(self).stack_pointer == old(self).stack_pointer,
            final(self).program_counter == old(self).program_counter,
            final(self).memory == old(self).memory,
    {
        self.flags.insert(CARRY)
    }

    pub fn clear_carry_flag(&mut self)
        ensures
            final(self).flags.bits == with_flag(old(self).flags.bits, CARRY, false),
            final(self).register_a == old(self).register_a,
            final(self).register_x == old(self).register_x,
            final(self).register_y == old(self).register_y,
            final(self).stack_pointer == old(self).stack_pointer,
            final(self).program_counter == old(self).program_counter,
            final(self).memory == old(self).memory,
    {
        self.flags.remove(CARRY)
    }

    /// Writes `data` at `$0100 + SP`, then decrements `SP` with wrap.
    pub fn stack_push(&mut self, data: u8)
        ensures
            Memory::write_post(&old(self).memory, &final(self).memory, old(self).stack_top(), data),
            final(self).stack_pointer == wrap8(old(self).stack_pointer - 1),
            final(self).register_a == old(self).register_a,
            final(self).register_x == old(self).register_x,
            final(self).register_y == old(self).register_y,
            final(self).flags == old(self).flags,
            final(self).program_counter == old(self).program_counter,
    {
        self.memory.write(STACK + self.stack_pointer as u16, data);
        self.stack_pointer = self.stack_pointer.wrapping_sub(1);
    }

    /// Increments `SP` with wrap, then reads `$0100 + SP`.
    pub fn stack_pop(&mut self) -> (r: u8)
        ensures
            r == old(self).stack_next(),
            final(self).stack_pointer == wrap8(old(self).stack_pointer + 1),
            final(self).register_a == old(self).register_a,
            final(self).register_x == old(self).register_x,
            final(self).register_y == old(self).register_y,
            final(self).flags == old(self).flags,
            final(self).program_counter == old(self).program_counter,
            final(self).memory == old(self).memory,
    {
        self.stack_pointer = self.stack_pointer.wrapping_add(1);
        self.memory.peek(STACK + self.stack_pointer as u16)
    }

    /// Runs an instruction that neither jumps nor modifies memory in place.
    #[verifier::rlimit(50)]
    fn exec_plain(&mut self, op: OpCode) -> (r: u16)
        requires
            spec_lookup(old(self).memory.spec_peek(old(self).program_counter)) == Some(op),
            !is_control(op.mnemonic),
            !modifies_memory(op),
        ensures
            r == old(self).op_cycles(op),
            final(self).program_counter == wrap16(old(self).program_counter + op.len),
            final(self).registers() == next_registers(
                old(self).registers(),
                op.mnemonic,
                old(self).operand_value(op),
            ),
            old(self).memory_effect(&final(self).memory, op),
    {
        let pc = self.program_counter;
        let (addr, crossed) = self.resolve_operand(op.mode);
        let mn = op.mnemonic;
        let is_store = mn == Mnemonic::STA || mn == Mnemonic::STX || mn == Mnemonic::STY;
        let mut value: u8 = 0;
        if reads(mn) {
            value = op.mode.read_u8(self);
        } else if is_store {
            let data = if mn == Mnemonic::STA {
                self.register_a
            } else if mn == Mnemonic::STX {
                self.register_x
            } else {
                self.register_y
            };
            op.mode.write_u8(self, data);
        } else if mn == Mnemonic::PHA {
            self.memory.write(STACK + self.stack_pointer as u16, self.register_a);
        } else if mn == Mnemonic::PHP {
            self.memory.write(STACK + self.stack_pointer as u16, self.flags.bits | BREAK | BREAK2);
        } else if mn == Mnemonic::PLA || mn == Mnemonic::PLP {
            value = self.memory.peek(STACK + self.stack_pointer.wrapping_add(1) as u16);
        }
        self.apply(mn, value);
        self.program_counter = pc.wrapping_add(op.len as u16);
        let mut cycles: u16 = op.cycles as u16;
        if op.page_cross_penalty && crossed {
            cycles = cycles + 1;
        }
        if is_store && addr == OAM_DMA {
            cycles = cycles + DMA_CYCLES;
        }
        cycles
    }

    /// Runs the instruction at the program counter and returns the cycles it took,
    /// or the unknown opcode found there, leaving the CPU as it was.
    #[verifier::rlimit(50)]
    pub fn step(&mut self) -> (r: Result<u16, CpuError>)
        ensures
            Self::step_post(old(self), final(self), r),
    {
        reveal(CPU::step_post);
        let pc = self.program_counter;
        let code = self.memory.peek(pc);
        let op = match lookup(code) {
            Some(op) => op,
            None => {
                return Err(CpuError::UnknownOpcode { pc, opcode: code });
            },
        };
        proof {
            lemma_table_lengths(code);
        }
        if control(op.mnemonic) {
            let extra = self.exec_control(op);
            Ok(op.cycles as u16 + extra)
        } else if modifies(op) {
            self.exec_rmw(op);
            Ok(op.cycles as u16)
        } else {
            let c = self.exec_plain(op);
            Ok(c)
        }
    }

    fn taken(&self, mn: Mnemonic) -> (r: bool)
        ensures
            r == branch_taken(mn, self.flags.bits),
    {
        let p = self.flags.bits;
        match mn {
            Mnemonic::BPL => p & NEGATIV == 0,
            Mnemonic::BMI => p & NEGATIV != 0,
            Mnemonic::BVC => p & OVERFLOW == 0,
            Mnemonic::BVS => p & OVERFLOW != 0,
            Mnemonic::BCC => p & CARRY == 0,
            Mnemonic::BCS => p & CARRY != 0,
            Mnemonic::BNE => p & ZERO == 0,
            _ => p & ZERO != 0,
        }
    }

    /// Runs a jump, call, return, `BRK` or branch; returns the cycles that a
    /// taken branch adds.
    #[verifier::rlimit(50)]
    fn exec_control(&mut self, op: OpCode) -> (r: u16)
        requires
            is_control(op.mnemonic),
        ensures
            Self::control_post(old(self), final(self), op),
            r == old(self).branch_cycles(op.mnemonic),
    {
        match op.mnemonic {
            Mnemonic::JMP => {
                self.program_counter = self.resolve_operand(op.mode).0;
                0
            },
            Mnemonic::JSR => {
                self.exec_jsr(op);
                0
            },
            Mnemonic::RTS => {
                self.exec_rts(op);
                0
            },
            Mnemonic::RTI => {
                self.exec_rti(op);
                0
            },
            Mnemonic::BRK => {
                self.exec_brk(op);
                0
            },
            _ => self.exec_branch(op),
        }
    }

    #[verifier::rlimit(50)]
    fn exec_jsr(&mut self, op: OpCode)
        requires
            op.mnemonic == Mnemonic::JSR,
        ensures
            Self::control_post(old(self), final(self), op),
    {
        reveal(Memory::write_post);
        let ret = self.program_counter.wrapping_add(2);
        assert((ret >> 8) as u8 == (ret as int / 256) as u8) by (bit_vector);
        assert((ret & 0xff) as u8 == (ret as int % 256) as u8) by (bit_vector);
        let target = self.resolve_operand(op.mode).0;
        self.stack_push((ret >> 8) as u8);
        self.stack_push((ret & 0xff) as u8);
        self.program_counter = target;
    }

    fn exec_rts(&mut self, op: OpCode)
        requires
            op.mnemonic == Mnemonic::RTS,
        ensures
            Self::control_post(old(self), final(self), op),
    {
        let lo = self.stack_pop();
        let hi = self.stack_pop();
        self.program_counter = (hi as u16 * 256 + lo as u16).wrapping_add(1);
    }

    fn exec_rti(&mut self, op: OpCode)
        requires
            op.mnemonic == Mnemonic::RTI,
        ensures
            Self::control_post(old(self), final(self), op),
    {
        let p = self.stack_pop();
        let lo = self.stack_pop();
        let hi = self.stack_pop();
        self.flags = CpuFlags::from_bits_truncate((p & !BREAK) | BREAK2);
        self.program_counter = hi as u16 * 256 + lo as u16;
    }

    fn exec_brk(&mut self, op: OpCode)
        requires
            op.mnemonic == Mnemonic::BRK,
        ensures
            Self::control_post(old(self), final(self), op),
    {
        let ret = self.program_counter.wrapping_add(2);
        let p = self.flags.bits | BREAK | BREAK2;
        self.interrupt(ret, p, IRQ_VECTOR);
    }

    /// Runs one of the eight branches; returns the cycles that taking it adds.
    #[verifier::rlimit(100)]
    fn exec_branch(&mut self, op: OpCode) -> (r: u16)
        requires
            is_branch(op.mnemonic),
        ensures
            Self::control_post(old(self), final(self), op),
            r == old(self).branch_cycles(op.mnemonic),
    {
        let pc = self.program_counter;
        let ret = pc.wrapping_add(2);
        let offset = self.memory.peek(pc.wrapping_add(1));
        let target = if offset < 128 {
            ret.wrapping_add(offset as u16)
        } else {
            ret.wrapping_sub(256 - offset as u16)
        };
        if self.taken(op.mnemonic) {
            self.program_counter = target;
            if ret / 256 != target / 256 {
                2
            } else {
                1
            }
        } else {
            self.program_counter = ret;
            0
        }
    }

    /// Runs `INC`, `DEC` or a shift on memory.
    #[verifier::rlimit(50)]
    fn exec_rmw(&mut self, op: OpCode)
        requires
            modifies_memory(op),
        ensures
            Self::rmw_post(old(self), final(self), op),
    {
        let (addr, _) = self.resolve_operand(op.mode);
        let v = self.memory.read(addr);
        let ghost mid = self.memory;
        let (res, p) = rmw(op.mnemonic, v, self.flags.bits);
        self.memory.write(addr, res);
        self.flags = CpuFlags::from_bits_truncate(p);
        self.program_counter = self.program_counter.wrapping_add(op.len as u16);
        assert(Memory::read_post(&old(self).memory, &mid, addr));
    }

    /// `b` is `a` after one instruction that ran, as `step` runs it.
    pub open spec fn steps_one(a: &CPU, b: &CPU) -> bool {
        exists|c: u16| #[trigger] Self::step_post(a, b, Ok(c))
    }

    /// `b` is `a` after one turn of the clock arbiter that ran an instruction.
    pub open spec fn runs_one(a: &CPU, b: &CPU) -> bool {
        exists|c: u16, frame: bool| #[trigger] Self::clock_post(a, b, Ok((c, frame)))
    }

    /// `new` is what running `old` through the clock arbiter gives, while its
    /// program counter is below `end`, for at most `STEP_LIMIT` turns, stopping
    /// early on an unknown opcode. `trace` holds the state before each turn.
    pub open spec fn ran_with(
        trace: Seq<CPU>,
        old: &CPU,
        new: &CPU,
        end: int,
        r: Result<(), CpuError>,
    ) -> bool {
        &&& 1 <= trace.len() <= STEP_LIMIT + 1
        &&& trace[0] == *old
        &&& forall|i: int|
            0 <= i < trace.len() - 1 ==> (#[trigger] trace[i]).program_counter < end
                && Self::runs_one(&trace[i], &trace[i + 1])
        &&& match r {
            Ok(()) => trace.last() == *new && (new.program_counter >= end || trace.len()
                == STEP_LIMIT + 1),
            Err(e) => trace.last().program_counter < end && Self::clock_post(
                &trace.last(),
                new,
                Err(e),
            ),
        }
    }

    pub open spec fn ran(old: &CPU, new: &CPU, end: int, r: Result<(), CpuError>) -> bool {
        exists|trace: Seq<CPU>| #[trigger] Self::ran_with(trace, old, new, end, r)
    }

    /// A step that fails leaves the CPU as it was, on an opcode that the table
    /// does not hold.
    pub proof fn lemma_step_error(a: &CPU, b: &CPU, e: CpuError)
        requires
            Self::step_post(a, b, Err(e)),
        ensures
            *b == *a,
            Self::stopped_at_unknown(b, e),
    {
        reveal(CPU::step_post);
    }

    /// `b` is `a` with `program` copied into RAM from the program counter on.
    pub open spec fn loaded(a: &CPU, b: &CPU, program: Seq<u8>) -> bool {
        &&& b.registers() == a.registers()
        &&& b.program_counter == a.program_counter
        &&& b.memory.ram@ == Seq::new(
            2048,
            |i: int|
                if a.program_counter <= i < a.program_counter + program.len() {
                    program[i - a.program_counter]
                } else {
                    a.memory.ram@[i]
                },
        )
        &&& b.memory.same_cartridge(&a.memory)
        &&& b.memory.ppu == a.memory.ppu
    }

    /// Copies `program` into RAM at the program counter and runs it through
    /// the clock arbiter until the program counter leaves it, an unknown opcode
    /// stops it (the error names both), or `STEP_LIMIT` turns have run.
    #[verifier::rlimit(50)]
    pub fn interpret(&mut self, program: Vec<u8>) -> (r: Result<(), CpuError>)
        requires
            old(self).program_counter + program@.len() <= 0x800,
        ensures
            (exists|l: CPU|
                #[trigger] Self::loaded(old(self), &l, program@) && Self::ran(
                    &l,
                    final(self),
                    old(self).program_counter + program@.len(),
                    r,
                )),
            (r matches Err(e) ==> Self::stopped_at_unknown(final(self), e)),
    {
        let start = self.program_counter;
        let end = start + program.len() as u16;
        let mut i: usize = 0;
        while i < program.len()
            invariant
                0 <= i <= program@.len(),
                start == old(self).program_counter,
                start + program@.len() <= 0x800,
                self.registers() == old(self).registers(),
                self.program_counter == start,
                self.memory.same_cartridge(&old(self).memory),
                self.memory.ppu == old(self).memory.ppu,
                forall|j: int|
                    0 <= j < 2048 ==> self.memory.ram@[j] == if start <= j < start + i {
                        program@[j - start]
                    } else {
                        old(self).memory.ram@[j]
                    },
            decreases program@.len() - i,
        {
            self.memory.ram[start as usize + i] = program[i];
            i = i + 1;
        }
        proof {
            let ghost l = *self;
            assert(l.memory.ram@ =~= Seq::new(
                2048,
                |k: int|
                    if start <= k < start + program@.len() {
                        program@[k - start]
                    } else {
                        old(self).memory.ram@[k]
                    },
            ));
        }
        let ghost loaded_state = *self;
        assert(Self::loaded(old(self), &loaded_state, program@));
        self.run_until(end)
    }

    /// A 32 KiB program ROM holding `program` at its start (`$8000`) and a
    /// reset vector pointing there.
    pub open spec fn rom_image(program: Seq<u8>) -> Seq<u8> {
        Seq::new(
            0x8000,
            |i: int|
                if i < program.len() {
                    program[i]
                } else if i == 0x7FFD {
                    0x80u8
                } else {
                    0u8
                },
        )
    }

    /// `b` is `a` with `program` installed as program ROM, then reset.
    pub open spec fn rom_loaded(a: &CPU, b: &CPU, program: Seq<u8>) -> bool {
        &&& b.memory.prg_rom@ == Self::rom_image(program)
        &&& b.memory.ram == a.memory.ram
        &&& b.memory.sram == a.memory.sram
        &&& b.program_counter == 0x8000
        &&& b.register_a == 0 && b.register_x == 0 && b.register_y == 0
        &&& b.stack_pointer == STACK_RESET
        &&& b.flags.bits == INTERRUPT_DISABLE | BREAK2
        &&& b.memory.ppu.line == 0 && b.memory.ppu.cycles == 0
        &&& b.memory.ppu.status.bits == 0
        &&& b.memory.ppu.nmi_interrupt is None
        &&& b.memory.ppu.same_memory(&a.memory.ppu)
        &&& b.memory.ppu.same_regs(&a.memory.ppu)
    }

    /// Installs `program` as program ROM at `$8000` with the reset vector
    /// pointing at it, resets, and runs it through the clock arbiter until the
    /// program counter leaves it, an unknown opcode stops it, or `STEP_LIMIT`
    /// turns have run.
    #[verifier::rlimit(50)]
    pub fn load_and_run(&mut self, program: Vec<u8>) -> (r: Result<(), CpuError>)
        requires
            program@.len() <= 0x7FFA,
        ensures
            (exists|l: CPU|
                #[trigger] Self::rom_loaded(old(self), &l, program@) && Self::ran(
                    &l,
                    final(self),
                    0x8000 + program@.len() as int,
                    r,
                )),
            (r matches Err(e) ==> Self::stopped_at_unknown(final(self), e)),
    {
        let mut rom: Vec<u8> = Vec::new();
        let mut i: usize = 0;
        while i < 0x8000
            invariant
                0 <= i <= 0x8000,
                program@.len() <= 0x7FFA,
                rom@ =~= Seq::new(
                    i as nat,
                    |j: int|
                        if j < program@.len() {
                            program@[j]
                        } else if j == 0x7FFD {
                            0x80u8
                        } else {
                            0u8
                        },
                ),
            decreases 0x8000 - i,
        {
            if i < program.len() {
                rom.push(program[i]);
            } else if i == 0x7FFD {
                rom.push(0x80);
            } else {
                rom.push(0);
            }
            i = i + 1;
        }
        self.memory.prg_rom = rom;
        assert(self.memory.spec_peek(RESET_VECTOR) == 0);
        assert(self.memory.spec_peek(0xFFFD) == 0x80);
        self.reset();
        let ghost l = *self;
        assert(Self::rom_loaded(old(self), &l, program@));
        self.run_until(0x8000 + program.len() as u16)
    }

    /// Runs the clock arbiter while the program counter is below `end`, at
    /// most `STEP_LIMIT` times, stopping on an unknown opcode.
    #[verifier::rlimit(50)]
    pub fn run_until(&mut self, end: u16) -> (r: Result<(), CpuError>)
        ensures
            Self::ran(old(self), final(self), end as int, r),
            (r matches Err(e) ==> Self::stopped_at_unknown(final(self), e)),
    {
        let ghost mut trace: Seq<CPU> = seq![*self];
        let mut steps: u32 = 0;
        while self.program_counter < end && steps < STEP_LIMIT
            invariant
                steps <= STEP_LIMIT,
                trace.len() == steps + 1,
                trace[0] == *old(self),
                trace.last() == *self,
                forall|k: int|
                    0 <= k < trace.len() - 1 ==> (#[trigger] trace[k]).program_counter < end
                        && Self::runs_one(&trace[k], &trace[k + 1]),
            ensures
                self.program_counter >= end || steps == STEP_LIMIT,
                trace.len() == steps + 1,
                trace[0] == *old(self),
                trace.last() == *self,
                forall|k: int|
                    0 <= k < trace.len() - 1 ==> (#[trigger] trace[k]).program_counter < end
                        && Self::runs_one(&trace[k], &trace[k + 1]),
            decreases STEP_LIMIT - steps,
        {
            let ghost before = *self;
            match self.clock() {
                Ok((c, frame)) => {
                    proof {
                        assert(Self::clock_post(&before, self, Ok((c, frame))));
                        trace = trace.push(*self);
                        assert(trace[trace.len() - 2] == before);
                    }
                },
                Err(e) => {
                    proof {
                        assert(Self::ran_with(trace, old(self), self, end as int, Err(e)));
                    }
                    return Err(e);
                },
            }
            steps = steps + 1;
        }
        proof {
            assert(Self::ran_with(trace, old(self), self, end as int, Ok(())));
        }
        Ok(())
    }

    /// Pushes `ret` (high byte first) and `p`, disables interrupts, and jumps
    /// through `vector`.
    fn interrupt(&mut self, ret: u16, p: u8, vector: u16)
        requires
            vector >= 0x8000,
        ensures
            old(self).pushed(final(self), (ret as int / 256) as u8, (ret as int % 256) as u8, Some(p)),
            final(self).stack_pointer == wrap8(old(self).stack_pointer - 3),
            final(self).flags.bits == with_flag(old(self).flags.bits, INTERRUPT_DISABLE, true),
            final(self).program_counter == old(self).memory.spec_peek_u16(vector),
            final(self).register_a == old(self).register_a,
            final(self).register_x == old(self).register_x,
            final(self).register_y == old(self).register_y,
    {
        reveal(Memory::write_post);
        self.stack_push((ret >> 8) as u8);
        self.stack_push((ret & 0xff) as u8);
        self.stack_push(p);
        self.flags.insert(INTERRUPT_DISABLE);
        self.program_counter = self.memory.read_u16(vector);
        assert((ret >> 8) as u8 == (ret as int / 256) as u8) by (bit_vector);
        assert((ret & 0xff) as u8 == (ret as int % 256) as u8) by (bit_vector);
    }

    /// Services a non-maskable interrupt: pushes the program counter and `P`
    /// with `B` clear and bit 5 set, disables interrupts, and jumps through the
    /// NMI vector.
    pub fn interrupt_nmi(&mut self)
        ensures
            old(self).pushed(
                final(self),
                (old(self).program_counter as int / 256) as u8,
                (old(self).program_counter as int % 256) as u8,
                Some((old(self).flags.bits & !BREAK) | BREAK2),
            ),
            final(self).stack_pointer == wrap8(old(self).stack_pointer - 3),
            final(self).flags.bits == with_flag(old(self).flags.bits, INTERRUPT_DISABLE, true),
            final(self).program_counter == old(self).memory.spec_peek_u16(NMI_VECTOR),
            final(self).register_a == old(self).register_a,
            final(self).register_x == old(self).register_x,
            final(self).register_y == old(self).register_y,
    {
        let p = (self.flags.bits & !BREAK) | BREAK2;
        self.interrupt(self.program_counter, p, NMI_VECTOR);
    }

    /// The CPU stopped on an opcode that the table does not hold, and says where.
    pub open spec fn stopped_at_unknown(c: &CPU, e: CpuError) -> bool {
        let opcode = c.memory.spec_peek(c.program_counter);
        &&& e == CpuError::UnknownOpcode { pc: c.program_counter, opcode }
        &&& spec_lookup(opcode) is None
    }

    /// No CPU-side access moves the PPU's dot counters.
    pub proof fn lemma_step_keeps_raster(a: &CPU, b: &CPU, r: Result<u16, CpuError>)
        requires
            Self::step_post(a, b, r),
        ensures
            b.memory.ppu.line == a.memory.ppu.line,
            b.memory.ppu.cycles == a.memory.ppu.cycles,
            r matches Ok(c) ==> c <= 7 + 1 + DMA_CYCLES + 2,
    {
        let code = a.memory.spec_peek(a.program_counter);
        if spec_lookup(code) is Some {
            lemma_table_lengths(code);
        }
        reveal(CPU::step_post);
        reveal(Memory::read_post);
        reveal(Memory::write_post);
    }

    /// Whether an NMI is waiting to be served.
    pub open spec fn nmi_pending(&self) -> bool {
        self.memory.ppu.nmi_interrupt is Some
    }

    /// `mid` is `old` after the NMI poll: a pending NMI is taken from the PPU
    /// and served as `interrupt_nmi` does; with none pending nothing changes.
    pub open spec fn nmi_polled(old: &CPU, mid: &CPU) -> bool {
        if old.nmi_pending() {
            let sp = old.stack_pointer as int;
            let pc = old.program_counter as int;
            &&& mid.memory.ram@ == old.memory.ram@.update(STACK + sp, (pc / 256) as u8).update(
                STACK + wrap8(sp - 1),
                (pc % 256) as u8,
            ).update(STACK + wrap8(sp - 2), (old.flags.bits & !BREAK) | BREAK2)
            &&& mid.memory.same_cartridge(&old.memory)
            &&& mid.memory.ppu.nmi_interrupt is None
            &&& mid.memory.ppu.line == old.memory.ppu.line
            &&& mid.memory.ppu.cycles == old.memory.ppu.cycles
            &&& mid.memory.ppu.status == old.memory.ppu.status
            &&& mid.memory.ppu.same_memory(&old.memory.ppu)
            &&& mid.memory.ppu.same_regs(&old.memory.ppu)
            &&& mid.memory.ppu.same_latches(&old.memory.ppu)
            &&& mid.stack_pointer == wrap8(sp - 3)
            &&& mid.flags.bits == with_flag(old.flags.bits, INTERRUPT_DISABLE, true)
            &&& mid.program_counter == old.memory.spec_peek_u16(NMI_VECTOR)
            &&& mid.register_a == old.register_a
            &&& mid.register_x == old.register_x
            &&& mid.register_y == old.register_y
        } else {
            *mid == *old
        }
    }

    /// `new` is `old` with the PPU advanced by three dots per CPU cycle for
    /// `c` cycles, the tick having returned `frame`.
    pub open spec fn ticked_after(old: &CPU, new: &CPU, c: u16, frame: bool) -> bool {
        &&& new.registers() == old.registers()
        &&& new.program_counter == old.program_counter
        &&& new.memory.ram == old.memory.ram
        &&& new.memory.same_cartridge(&old.memory)
        &&& NesPPU::ticked(&old.memory.ppu, &new.memory.ppu, 3 * c as nat, frame)
    }

    /// One turn of the clock arbiter, as `clock` runs it: the NMI poll gives
    /// `mid`; the instruction at `mid`'s program counter runs as `step` states;
    /// on success the PPU advances by three dots for each of the `k` cycles of
    /// the instruction and the 7 of a served NMI.
    #[verifier::opaque]
    pub open spec fn clock_post(old: &CPU, new: &CPU, r: Result<(u16, bool), CpuError>) -> bool {
        match r {
            Err(e) => exists|mid: CPU|
                #[trigger] Self::nmi_polled(old, &mid) && Self::step_post(&mid, new, Err(e)),
            Ok((c, frame)) => exists|mid: CPU, after: CPU, k: u16|
                #[trigger] Self::step_post(&mid, &after, Ok(k)) && Self::nmi_polled(old, &mid) && c
                    == k + (if old.nmi_pending() { NMI_CYCLES } else { 0 }) && Self::ticked_after(
                    &after,
                    new,
                    c,
                    frame,
                ),
        }
    }

    /// One turn of the clock arbiter: serves a pending NMI, runs one
    /// instruction, and advances the PPU by three dots per CPU cycle taken.
    /// Returns the cycles and whether the PPU completed a frame, or the unknown
    /// opcode that stopped it.
    #[verifier::rlimit(50)]
    pub fn clock(&mut self) -> (r: Result<(u16, bool), CpuError>)
        ensures
            Self::clock_post(old(self), final(self), r),
            (r matches Err(e) ==> Self::stopped_at_unknown(final(self), e)),
            (r matches Ok((c, frame)) ==> advanced_dots(&old(self).memory.ppu, &final(self).memory.ppu, 3 * c, frame)),
    {
        reveal(CPU::clock_post);
        let mut cycles: u16 = 0;
        if let Some(_) = self.memory.ppu.nmi_interrupt {
            self.memory.ppu.poll_nmi_interrupt();
            self.interrupt_nmi();
            cycles = NMI_CYCLES;
        }
        let ghost mid = *self;
        assert(Self::nmi_polled(old(self), &mid));
        let c = match self.step() {
            Ok(c) => c,
            Err(e) => {
                proof {
                    Self::lemma_step_error(&mid, self, e);
                }
                return Err(e);
            },
        };
        let ghost after = *self;
        proof {
            Self::lemma_step_keeps_raster(&mid, self, Ok(c));
        }
        let total = cycles + c;
        let frame = self.memory.tick(total);
        proof {
            assert(Self::step_post(&mid, &after, Ok(c)));
            assert(Self::ticked_after(&after, self, total, frame));
            if on_raster(old(self).memory.ppu.dot_state()) {
                lemma_run_dots_position(
                    after.memory.ppu.dot_state(),
                    3 * total as nat,
                    after.memory.ppu.ctrl,
                    after.memory.ppu.mask,
                    after.memory.ppu.oam_data@,
                );
            }
        }
        Ok((total, frame))
    }

    /// The bytes that a string of hex digits spells; spaces between them are ignored.
    pub fn transform(s: &str) -> (r: Vec<u8>)
        requires
            is_hex(without_spaces(s.spec_bytes())),
        ensures
            r@ == hex_bytes(without_spaces(s.spec_bytes())),
    {
        let bytes = s.as_bytes();
        let mut digits: Vec<u8> = Vec::new();
        let mut i: usize = 0;
        while i < bytes.len()
            invariant
                0 <= i <= bytes@.len(),
                bytes@ == s.spec_bytes(),
                digits@ == without_spaces(bytes@.subrange(0, i as int)),
            decreases bytes@.len() - i,
        {
            assert(bytes@.subrange(0, i + 1).drop_last() =~= bytes@.subrange(0, i as int));
            if bytes[i] != 0x20 {
                digits.push(bytes[i]);
            }
            i = i + 1;
        }
        assert(bytes@.subrange(0, bytes@.len() as int) =~= bytes@);
        match decode_hex(digits.as_slice()) {
            Some(v) => v,
            None => Vec::new(),
        }
    }

    /// A turn of the clock arbiter with no NMI pending is one `step`, whose
    /// registers, program counter and RAM it keeps, followed by a PPU tick.
    pub proof fn lemma_turn_is_step(a: &CPU, b: &CPU) -> (s: CPU)
        requires
            Self::runs_one(a, b),
            !a.nmi_pending(),
        ensures
            Self::steps_one(a, &s),
            b.registers() == s.registers(),
            b.program_counter == s.program_counter,
            b.memory.ram == s.memory.ram,
    {
        reveal(CPU::clock_post);
        let (c, f) = choose|c: u16, f: bool| #[trigger] Self::clock_post(a, b, Ok((c, f)));
        let (mid, after, k) = choose|mid: CPU, after: CPU, k: u16|
            #[trigger] Self::step_post(&mid, &after, Ok(k)) && Self::nmi_polled(a, &mid) && c == k + (
            if a.nmi_pending() {
                NMI_CYCLES
            } else {
                0
            }) && Self::ticked_after(&after, b, c, f);
        assert(Self::step_post(a, &after, Ok(k)));
        after
    }

    /// Through the clock arbiter too: two turns that run `PHA` then `PLA`, with
    /// no NMI pending, give back the byte that was in `A`, with `Z` and `N`
    /// describing it and `SP` where it started.
    pub proof fn lemma_turns_push_pull(s0: &CPU, s1: &CPU, s2: &CPU)
        requires
            s0.memory.spec_peek(s0.program_counter) == 0x48,
            s1.memory.spec_peek(s1.program_counter) == 0x68,
            !s0.nmi_pending(),
            !s1.nmi_pending(),
            Self::runs_one(s0, s1),
            Self::runs_one(s1, s2),
        ensures
            s2.register_a == s0.register_a,
            s2.stack_pointer == s0.stack_pointer,
            s2.flags.bits == with_zn(s0.flags.bits, s0.register_a),
    {
        let t1 = Self::lemma_turn_is_step(s0, s1);
        let t2 = Self::lemma_turn_is_step(s1, s2);
        reveal(CPU::step_post);
        assert(t1.stack_pointer == wrap8(s0.stack_pointer - 1) && t1.register_a == s0.register_a
            && t1.flags.bits == s0.flags.bits) by {
            reveal(stack_registers);
        }
        assert(t1.memory.ram@[STACK + s0.stack_pointer] == s0.register_a) by {
            reveal(Memory::write_post);
        }
        let v = s1.stack_next();
        assert(v == s0.register_a);
        assert(t2.register_a == v && t2.stack_pointer == wrap8(s1.stack_pointer + 1)
            && t2.flags.bits == with_zn(s1.flags.bits, v)) by {
            reveal(stack_registers);
        }
    }

    /// `PHA` then `PLA` gives back the byte that was in `A`, with `Z` and `N`
    /// describing it and `SP` where it started.
    #[verifier::rlimit(50)]
    pub proof fn lemma_push_pull_round_trip(s0: &CPU, s1: &CPU, s2: &CPU)
        requires
            s0.memory.spec_peek(s0.program_counter) == 0x48,
            s1.memory.spec_peek(s1.program_counter) == 0x68,
            Self::steps_one(s0, s1),
            Self::steps_one(s1, s2),
        ensures
            s2.register_a == s0.register_a,
            s2.stack_pointer == s0.stack_pointer,
            s2.flags.bits == with_zn(s0.flags.bits, s0.register_a),
    {
        reveal(CPU::step_post);
        let sp = s0.stack_pointer;
        let op0 = spec_lookup(0x48)->Some_0;
        let op1 = spec_lookup(0x68)->Some_0;
        assert(op0.mnemonic == Mnemonic::PHA);
        assert(op1.mnemonic == Mnemonic::PLA);
        assert(s1.registers() == next_registers(s0.registers(), Mnemonic::PHA, 0));
        assert(s1.stack_pointer == wrap8(sp - 1) && s1.register_a == s0.register_a
            && s1.flags.bits == s0.flags.bits) by {
            reveal(stack_registers);
        }
        assert(s1.memory.ram@[STACK + sp] == s0.register_a) by {
            reveal(Memory::write_post);
        }
        let v = s1.stack_next();
        assert(v == s0.register_a);
        assert(s2.registers() == next_registers(s1.registers(), Mnemonic::PLA, v));
        assert(s2.register_a == v && s2.stack_pointer == wrap8(s1.stack_pointer + 1)
            && s2.flags.bits == with_zn(s1.flags.bits, v)) by {
            reveal(stack_registers);
        }
    }

    /// A push from `SP = 0` writes `$0100` and leaves `SP = 0xFF`.
    pub proof fn lemma_push_wraps_stack(s0: &CPU, s1: &CPU)
        requires
            s0.memory.spec_peek(s0.program_counter) == 0x48,
            s0.stack_pointer == 0,
            Self::steps_one(s0, s1),
        ensures
            s1.stack_pointer == 0xFF,
            s1.memory.ram@[0x100] == s0.register_a,
    {
        reveal(CPU::step_post);
        reveal(stack_registers);
        reveal(Memory::write_post);
    }

    /// The byte that `PHP` pushes has bit 5 and `B` set, and the other flags as they were.
    pub proof fn lemma_php_sets_bit5(s0: &CPU, s1: &CPU)
        requires
            s0.memory.spec_peek(s0.program_counter) == 0x08,
            Self::steps_one(s0, s1),
        ensures
            s1.memory.ram@[STACK + s0.stack_pointer] == s0.flags.bits | BREAK | BREAK2,
            s1.memory.ram@[STACK + s0.stack_pointer] & BREAK2 == BREAK2,
    {
        reveal(CPU::step_post);
        reveal(Memory::write_post);
        let p = s0.flags.bits;
        assert((p | BREAK | BREAK2) & BREAK2 == BREAK2) by (bit_vector);
    }
}

} // verus!
