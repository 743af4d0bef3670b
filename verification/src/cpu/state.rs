//! The machine as a mathematical value, and what one step does to it.

use super::alu::AluOp;
use super::fault::Fault;
use super::instructions::{prefixed_entry, primary_entry, Instruction, PREFIX_BYTE};
use super::registers::{compose, Registers};
use vstd::prelude::*;

verus! {

/// The number of bytes on the bus: one for each 16-bit address.
pub const MEMORY_SIZE: usize = 0x10000;

/// The machine as a mathematical value: the register file, the program
/// counter and the 65536 bytes of memory.
pub struct CpuState {
    pub registers: Registers,
    pub pc: u16,
    pub memory: Seq<u8>,
}

/// Where an execution ended: the state it left, and the fault if it
/// stopped at one.
pub struct Outcome {
    pub state: CpuState,
    pub result: Result<(), Fault>,
}

/// The address after `address`; the one after 0xFFFF is 0.
pub open spec fn next_address(address: u16) -> u16 {
    if address == 0xFFFF {
        0
    } else {
        (address + 1) as u16
    }
}

/// `memory` with `image` laid over it from address `base` on.
pub open spec fn with_image(memory: Seq<u8>, base: int, image: Seq<u8>) -> Seq<u8> {
    Seq::new(
        memory.len(),
        |i: int|
            if base <= i < base + image.len() {
                image[i - base]
            } else {
                memory[i]
            },
    )
}

/// Memory with every byte at zero.
pub open spec fn zeroed_memory() -> Seq<u8> {
    Seq::new(MEMORY_SIZE as nat, |i: int| 0u8)
}

impl CpuState {
    /// Memory covers the whole address space and the flags are well formed.
    pub open spec fn wf(self) -> bool {
        &&& self.memory.len() == MEMORY_SIZE
        &&& self.registers.wf()
    }

    /// The state at power-on: every register, the program counter and every
    /// byte of memory at zero.
    pub open spec fn initial() -> CpuState {
        CpuState {
            registers: Registers::zeroed(),
            pc: 0,
            memory: zeroed_memory(),
        }
    }

    /// The byte that the next fetch returns: the one at the program counter.
    pub open spec fn next_byte(self) -> u8 {
        self.memory[self.pc as int]
    }

    /// This state with the program counter moved past one byte.
    pub open spec fn advance(self) -> CpuState {
        CpuState { pc: next_address(self.pc), ..self }
    }

    /// The 16-bit value that the next two fetches assemble: the low byte
    /// comes first, the high byte second.
    pub open spec fn next_word(self) -> u16 {
        compose(self.advance().next_byte(), self.next_byte())
    }

    /// This state with `value` stored at `address`.
    pub open spec fn store(self, address: u16, value: u8) -> CpuState {
        CpuState { memory: self.memory.update(address as int, value), ..self }
    }

    /// The 8-bit operand that `register` selects: B, C, D, E, H, L, the
    /// byte in memory at the address held in HL, or A.
    pub open spec fn read_r8(self, register: u8) -> u8
        recommends
            register < 8,
    {
        if register == 0 {
            self.registers.b
        } else if register == 1 {
            self.registers.c
        } else if register == 2 {
            self.registers.d
        } else if register == 3 {
            self.registers.e
        } else if register == 4 {
            self.registers.h
        } else if register == 5 {
            self.registers.l
        } else if register == 6 {
            self.memory[self.registers.hl() as int]
        } else {
            self.registers.a
        }
    }

    /// This state with `value` written to the 8-bit operand that
    /// `register` selects.
    pub open spec fn write_r8(self, register: u8, value: u8) -> CpuState
        recommends
            register < 8,
    {
        if register == 0 {
            CpuState { registers: Registers { b: value, ..self.registers }, ..self }
        } else if register == 1 {
            CpuState { registers: Registers { c: value, ..self.registers }, ..self }
        } else if register == 2 {
            CpuState { registers: Registers { d: value, ..self.registers }, ..self }
        } else if register == 3 {
            CpuState { registers: Registers { e: value, ..self.registers }, ..self }
        } else if register == 4 {
            CpuState { registers: Registers { h: value, ..self.registers }, ..self }
        } else if register == 5 {
            CpuState { registers: Registers { l: value, ..self.registers }, ..self }
        } else if register == 6 {
            self.store(self.registers.hl(), value)
        } else {
            CpuState { registers: Registers { a: value, ..self.registers }, ..self }
        }
    }

    /// The 16-bit register that `register` selects: BC, DE, HL or SP.
    pub open spec fn read_r16(self, register: u8) -> u16
        recommends
            register < 4,
    {
        if register == 0 {
            self.registers.bc()
        } else if register == 1 {
            self.registers.de()
        } else if register == 2 {
            self.registers.hl()
        } else {
            self.registers.sp
        }
    }

    /// This state with `value` written to the 16-bit register that
    /// `register` selects.
    pub open spec fn write_r16(self, register: u8, value: u16) -> CpuState
        recommends
            register < 4,
    {
        if register == 0 {
            CpuState { registers: self.registers.with_bc(value), ..self }
        } else if register == 1 {
            CpuState { registers: self.registers.with_de(value), ..self }
        } else if register == 2 {
            CpuState { registers: self.registers.with_hl(value), ..self }
        } else {
            CpuState { registers: Registers { sp: value, ..self.registers }, ..self }
        }
    }

    /// This state after the ALU operation `op` on A and `value`. The
    /// operation sees A and the carry flag as they stand in this state.
    pub open spec fn alu(self, op: AluOp, value: u8) -> CpuState {
        CpuState {
            registers: self.registers.after_alu(
                op.apply(self.registers.a, value, self.registers.f.carry()),
            ),
            ..self
        }
    }

    /// This state after `instruction`, whose opcode has been fetched
    /// already. An instruction without a handler changes nothing.
    pub open spec fn perform(self, instruction: Instruction) -> CpuState {
        match instruction {
            Instruction::Nop => self,
            Instruction::LoadBcImm16 => CpuState {
                registers: self.registers.with_bc(self.next_word()),
                ..self.advance().advance()
            },
            Instruction::StoreAAtBc => self.store(self.registers.bc(), self.registers.a),
            Instruction::Alu { op, source } => self.alu(op, self.read_r8(source)),
            Instruction::Unimplemented => self,
        }
    }

    /// What `instruction`, found under `opcode`, leaves: the state after
    /// it, or this state and a fault if it has no handler.
    pub open spec fn dispatch(self, instruction: Instruction, opcode: u8, prefixed: bool)
        -> Outcome {
        Outcome {
            state: self.perform(instruction),
            result: if instruction is Unimplemented {
                Err(Fault::UnimplementedOpcode { opcode, prefixed })
            } else {
                Ok(())
            },
        }
    }

    /// Decodes `opcode` through the primary table and executes it.
    pub open spec fn execute(self, opcode: u8) -> Outcome {
        self.dispatch(primary_entry(opcode), opcode, false)
    }

    /// Decodes `opcode` through the table behind the prefix byte and
    /// executes it.
    pub open spec fn execute_prefixed(self, opcode: u8) -> Outcome {
        self.dispatch(prefixed_entry(opcode), opcode, true)
    }

    /// One instruction: fetch the opcode; if it is the prefix byte, fetch
    /// the byte after it and go through the second table; execute.
    pub open spec fn step(self) -> Outcome {
        if self.next_byte() == PREFIX_BYTE {
            self.advance().advance().execute_prefixed(self.advance().next_byte())
        } else {
            self.advance().execute(self.next_byte())
        }
    }

    /// Up to `steps` instructions in program order, stopping at the first
    /// fault.
    pub open spec fn run(self, steps: nat) -> Outcome
        decreases steps,
    {
        if steps == 0 {
            Outcome { state: self, result: Ok(()) }
        } else {
            let first = self.step();
            if first.result is Err {
                first
            } else {
                first.state.run((steps - 1) as nat)
            }
        }
    }
}

/// An ALU operation gives A and the four flags the values that the
/// operation computes from A, the operand and the carry flag, and keeps
/// everything else: the reserved bits of the flags, the other registers,
/// the program counter and memory.
pub proof fn lemma_alu_effect(state: CpuState, op: AluOp, value: u8)
    ensures
        ({
            let result = op.apply(state.registers.a, value, state.registers.f.carry());
            let after = state.alu(op, value);
            &&& after.registers.a == result.value
            &&& after.registers.f.zero() == result.zero
            &&& after.registers.f.subtract() == result.subtract
            &&& after.registers.f.half_carry() == result.half_carry
            &&& after.registers.f.carry() == result.carry
            &&& after.registers.f.reserved_bits() == state.registers.f.reserved_bits()
            &&& after.registers == (Registers {
                a: after.registers.a,
                f: after.registers.f,
                ..state.registers
            })
            &&& after.pc == state.pc
            &&& after.memory == state.memory
        }),
{
    let result = op.apply(state.registers.a, value, state.registers.f.carry());
    state.registers.f.lemma_with_flags(
        result.zero,
        result.subtract,
        result.half_carry,
        result.carry,
    );
}

/// Two operands that hold the same value give the same result: an ALU
/// instruction on the byte in memory at the address in HL does what it does
/// on a register that holds that byte.
pub proof fn lemma_alu_operand_by_value(state: CpuState, op: AluOp, first: u8, second: u8)
    requires
        first < 8,
        second < 8,
        state.read_r8(first) == state.read_r8(second),
    ensures
        state.perform(Instruction::Alu { op, source: first }) == state.perform(
            Instruction::Alu { op, source: second },
        ),
        state.perform(Instruction::Alu { op, source: 6 }) == state.alu(
            op,
            state.memory[state.registers.hl() as int],
        ),
{
}

/// A no-operation moves the program counter past its one byte and changes
/// nothing else: no register, no flag, no byte of memory.
pub proof fn lemma_nop_step(state: CpuState)
    requires
        state.next_byte() == 0x00,
    ensures
        state.step().result is Ok,
        state.step().state == state.advance(),
        state.step().state.registers == state.registers,
        state.step().state.memory == state.memory,
        state.step().state.pc == next_address(state.pc),
{
}

/// A step fails exactly when the opcode it decodes has no handler, and the
/// fault then names that opcode and its table. The program counter stands
/// behind the opcode, one byte on for the primary table and two for the
/// table behind the prefix byte; nothing else has changed.
pub proof fn lemma_step_fault(state: CpuState)
    ensures
        state.next_byte() != PREFIX_BYTE ==> (state.step().result is Err <==> primary_entry(
            state.next_byte(),
        ) is Unimplemented),
        state.next_byte() != PREFIX_BYTE && primary_entry(state.next_byte()) is Unimplemented
            ==> state.step() == (Outcome {
            state: state.advance(),
            result: Err(Fault::UnimplementedOpcode { opcode: state.next_byte(), prefixed: false }),
        }),
        state.next_byte() == PREFIX_BYTE ==> state.step() == (Outcome {
            state: state.advance().advance(),
            result: Err(
                Fault::UnimplementedOpcode { opcode: state.advance().next_byte(), prefixed: true },
            ),
        }),
{
}

/// A step of a well-formed state leaves a well-formed state: memory still
/// covers the address space and the reserved bits of the flags are still
/// zero.
pub proof fn lemma_step_preserves_wf(state: CpuState)
    requires
        state.wf(),
    ensures
        state.step().state.wf(),
{
    let opcode = state.next_byte();
    if opcode != PREFIX_BYTE {
        let fetched = state.advance();
        match primary_entry(opcode) {
            Instruction::Alu { op, source } => {
                lemma_alu_effect(fetched, op, fetched.read_r8(source));
            },
            _ => {},
        }
    }
}

/// A run of a well-formed state leaves a well-formed state.
pub proof fn lemma_run_preserves_wf(state: CpuState, steps: nat)
    requires
        state.wf(),
    ensures
        state.run(steps).state.wf(),
    decreases steps,
{
    if steps > 0 {
        lemma_step_preserves_wf(state);
        if state.step().result is Ok {
            lemma_run_preserves_wf(state.step().state, (steps - 1) as nat);
        }
    }
}

/// A run of `first + second` steps is a run of `first` steps followed,
/// unless that one stopped at a fault, by a run of `second` steps.
pub proof fn lemma_run_splits(state: CpuState, first: nat, second: nat)
    ensures
        state.run(first + second) == if state.run(first).result is Err {
            state.run(first)
        } else {
            state.run(first).state.run(second)
        },
    decreases first,
{
    if first > 0 {
        if state.step().result is Ok {
            lemma_run_splits(state.step().state, (first - 1) as nat, second);
            assert(first + second - 1 == (first - 1) as nat + second);
        }
    }
}

} // verus!
