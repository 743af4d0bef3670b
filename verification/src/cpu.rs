//! The processor and its memory bus: fetch, decode and execute.

use self::alu::{alu_add, alu_sub, carry_value, AluOp};
use self::fault::Fault;
use self::instructions::{primary_entry, Instruction, PREFIX_BYTE};
use self::registers::{compose_bytes, Registers};
use self::state::{
    lemma_alu_effect, lemma_run_preserves_wf, lemma_step_fault, lemma_step_preserves_wf,
    with_image, zeroed_memory, CpuState, MEMORY_SIZE,
};
use vstd::prelude::*;

pub mod alu;
pub mod fault;
pub mod flags;
pub mod instructions;
pub mod registers;
pub mod state;

verus! {

/// The flat 64 KiB address space: one byte for each 16-bit address.
///
/// Every address can be read and written; an address out of range cannot
/// be written down, because an address is a `u16`.
#[derive(Debug)]
pub struct MemoryBus {
    pub memory: [u8; 0x10000],
}

impl View for MemoryBus {
    type V = Seq<u8>;

    open spec fn view(&self) -> Seq<u8> {
        self.memory@
    }
}

impl MemoryBus {
    /// A bus with every byte at zero.
    pub fn new() -> (bus: MemoryBus)
        ensures
            bus@ == zeroed_memory(),
    {
        MemoryBus { memory: [0;0x10000] }
    }

    pub fn read_byte(&self, address: u16) -> (value: u8)
        ensures
            value == self@[address as int],
    {
        self.memory[address as usize]
    }

    pub fn write_byte(&mut self, address: u16, value: u8)
        ensures
            final(self)@ == old(self)@.update(address as int, value),
    {
        self.memory[address as usize] = value;
    }

    /// Copies `image` into memory from address `base` on.
    ///
    /// An image that does not fit between `base` and the end of the
    /// address space is refused before any byte is copied.
    pub fn load(&mut self, base: u16, image: &[u8]) -> (result: Result<(), Fault>)
        ensures
            base + image@.len() <= MEMORY_SIZE ==> result is Ok && final(self)@ == with_image(
                old(self)@,
                base as int,
                image@,
            ),
            base + image@.len() > MEMORY_SIZE ==> result == Err::<(), Fault>(
                Fault::ImageOutOfRange { base, len: image.len() },
            ) && final(self)@ == old(self)@,
    {
        let len: usize = image.len();
        if len > MEMORY_SIZE - base as usize {
            return Err(Fault::ImageOutOfRange { base, len });
        }
        let mut i: usize = 0;
        while i < len
            invariant
                i <= len,
                len == image@.len(),
                base + len <= MEMORY_SIZE,
                self@ == with_image(old(self)@, base as int, image@.take(i as int)),
            decreases len - i,
        {
            self.memory[base as usize + i] = image[i];
            i += 1;
        }
        Ok(())
    }
}

/// The processor: the register file, the program counter and the bus.
///
/// The program counter points at the next byte that has not been consumed.
/// Only a fetch moves it.
#[derive(Debug)]
pub struct CPU {
    pub registers: Registers,
    pub pc: u16,
    pub bus: MemoryBus,
}

impl View for CPU {
    type V = CpuState;

    open spec fn view(&self) -> CpuState {
        CpuState { registers: self.registers, pc: self.pc, memory: self.bus@ }
    }
}

impl CPU {
    /// A processor at power-on: every register, the program counter and
    /// every byte of memory at zero.
    pub fn new() -> (cpu: CPU)
        ensures
            cpu@ == CpuState::initial(),
            cpu@.wf(),
    {
        CPU { registers: Registers::default(), pc: 0, bus: MemoryBus::new() }
    }

    /// Loads a program image at address 0.
    ///
    /// An image of more than 65536 bytes is refused, and nothing of it is
    /// loaded.
    pub fn with_rom(self, rom: &[u8]) -> (result: Result<CPU, Fault>)
        ensures
            rom@.len() <= MEMORY_SIZE ==> result is Ok && result->Ok_0@ == (CpuState {
                memory: with_image(self@.memory, 0, rom@),
                ..self@
            }),
            rom@.len() > MEMORY_SIZE ==> result == Err::<CPU, Fault>(
                Fault::ImageOutOfRange { base: 0, len: rom.len() },
            ),
    {
        let mut cpu = self;
        match cpu.bus.load(0, rom) {
            Ok(()) => Ok(cpu),
            Err(fault) => Err(fault),
        }
    }

    /// Executes up to `max_steps` instructions and stops at the first
    /// fault.
    pub fn run(&mut self, max_steps: u64) -> (result: Result<(), Fault>)
        ensures
            final(self)@ == old(self)@.run(max_steps as nat).state,
            result == old(self)@.run(max_steps as nat).result,
            old(self)@.wf() ==> final(self)@.wf(),
    {
        proof {
            if self@.wf() {
                lemma_run_preserves_wf(self@, max_steps as nat);
            }
        }
        let mut remaining: u64 = max_steps;
        while remaining > 0
            invariant
                self@.run(remaining as nat) == old(self)@.run(max_steps as nat),
                old(self)@.wf() ==> old(self)@.run(max_steps as nat).state.wf(),
            decreases remaining,
        {
            if let Err(fault) = self.step() {
                return Err(fault);
            }
            remaining -= 1;
        }
        Ok(())
    }

    /// Executes one instruction: fetches the opcode, fetches a second byte
    /// if the first is the prefix byte, looks the handler up and runs it.
    ///
    /// An opcode without a handler is a fault. The fault names the opcode
    /// and its table; the program counter stands behind the opcode, and
    /// nothing else has changed.
    pub fn step(&mut self) -> (result: Result<(), Fault>)
        ensures
            final(self)@ == old(self)@.step().state,
            result == old(self)@.step().result,
            result is Ok <==> old(self)@.next_byte() != PREFIX_BYTE && !(primary_entry(
                old(self)@.next_byte(),
            ) is Unimplemented),
            old(self)@.next_byte() != PREFIX_BYTE && result is Err ==> result == Err::<(), Fault>(
                Fault::UnimplementedOpcode { opcode: old(self)@.next_byte(), prefixed: false },
            ) && final(self)@ == old(self)@.advance(),
            old(self)@.next_byte() == PREFIX_BYTE ==> result == Err::<(), Fault>(
                Fault::UnimplementedOpcode {
                    opcode: old(self)@.advance().next_byte(),
                    prefixed: true,
                },
            ) && final(self)@ == old(self)@.advance().advance(),
            old(self)@.wf() ==> final(self)@.wf(),
    {
        proof {
            lemma_step_fault(self@);
            if self@.wf() {
                lemma_step_preserves_wf(self@);
            }
        }
        let opcode: u8 = self.fetch();
        if opcode == PREFIX_BYTE {
            let opcode: u8 = self.fetch();
            self.execute_prefixed(opcode)
        } else {
            self.execute(opcode)
        }
    }

    /// Reads the byte at the program counter and moves the program counter
    /// past it, from 0xFFFF on to 0.
    pub fn fetch(&mut self) -> (byte: u8)
        ensures
            byte == old(self)@.next_byte(),
            final(self)@ == old(self)@.advance(),
    {
        let byte: u8 = self.bus.read_byte(self.pc);
        self.pc = self.pc.wrapping_add(1);
        byte
    }

    /// Runs the handler that the primary table holds for `opcode`, which
    /// has been fetched already.
    pub fn execute(&mut self, opcode: u8) -> (result: Result<(), Fault>)
        ensures
            final(self)@ == old(self)@.execute(opcode).state,
            result == old(self)@.execute(opcode).result,
            result == if primary_entry(opcode) is Unimplemented {
                Err::<(), Fault>(Fault::UnimplementedOpcode { opcode, prefixed: false })
            } else {
                Ok(())
            },
            result is Err ==> final(self)@ == old(self)@,
    {
        let instruction = Instruction::decode(opcode);
        self.dispatch(instruction, opcode, false)
    }

    /// Runs the handler that the table behind the prefix byte holds for
    /// `opcode`, which has been fetched already.
    pub fn execute_prefixed(&mut self, opcode: u8) -> (result: Result<(), Fault>)
        ensures
            final(self)@ == old(self)@.execute_prefixed(opcode).state,
            result == old(self)@.execute_prefixed(opcode).result,
            result == Err::<(), Fault>(Fault::UnimplementedOpcode { opcode, prefixed: true }),
            final(self)@ == old(self)@,
    {
        let instruction = Instruction::decode_prefixed(opcode);
        self.dispatch(instruction, opcode, true)
    }

    /// Runs the handler of `instruction`, which was found under `opcode`.
    pub fn dispatch(&mut self, instruction: Instruction, opcode: u8, prefixed: bool) -> (result:
        Result<(), Fault>)
        requires
            instruction.wf(),
        ensures
            final(self)@ == old(self)@.dispatch(instruction, opcode, prefixed).state,
            result == old(self)@.dispatch(instruction, opcode, prefixed).result,
    {
        match instruction {
            Instruction::Nop => {
                self.nop();
                Ok(())
            },
            Instruction::LoadBcImm16 => {
                let value: u16 = self.fetch_imm16();
                self.registers.write_bc(value);
                Ok(())
            },
            Instruction::StoreAAtBc => {
                let value: u8 = self.registers.a;
                self.bus.write_byte(self.registers.read_bc(), value);
                Ok(())
            },
            Instruction::Alu { op, source } => {
                let value: u8 = self.read_r8(source);
                match op {
                    AluOp::Add => self.add_a(value),
                    AluOp::Adc => self.adc_a(value),
                    AluOp::Sub => self.sub_a(value),
                    AluOp::Sbc => self.sbc_a(value),
                    AluOp::And => self.and_a(value),
                    AluOp::Xor => self.xor_a(value),
                    AluOp::Or => self.or_a(value),
                    AluOp::Cp => self.cp_a(value),
                }
                Ok(())
            },
            Instruction::Unimplemented => Err(Fault::UnimplementedOpcode { opcode, prefixed }),
        }
    }

    /// Reads the 8-bit operand that `register` selects: 0 to 5 are B, C,
    /// D, E, H and L, 6 is the byte in memory at the address in HL, 7 is A.
    pub fn read_r8(&self, register: u8) -> (value: u8)
        requires
            register < 8,
        ensures
            value == self@.read_r8(register),
    {
        match register {
            0 => self.registers.b,
            1 => self.registers.c,
            2 => self.registers.d,
            3 => self.registers.e,
            4 => self.registers.h,
            5 => self.registers.l,
            6 => self.bus.read_byte(self.registers.read_hl()),
            _ => self.registers.a,
        }
    }

    /// Writes the 8-bit operand that `register` selects: 0 to 5 are B, C,
    /// D, E, H and L, 6 is the byte in memory at the address in HL, 7 is A.
    pub fn write_r8(&mut self, register: u8, value: u8)
        requires
            register < 8,
        ensures
            final(self)@ == old(self)@.write_r8(register, value),
    {
        match register {
            0 => self.registers.b = value,
            1 => self.registers.c = value,
            2 => self.registers.d = value,
            3 => self.registers.e = value,
            4 => self.registers.h = value,
            5 => self.registers.l = value,
            6 => self.bus.write_byte(self.registers.read_hl(), value),
            _ => self.registers.a = value,
        }
    }

    /// Reads the 16-bit register that `register` selects: BC, DE, HL, SP.
    pub fn read_r16(&self, register: u8) -> (value: u16)
        requires
            register < 4,
        ensures
            value == self@.read_r16(register),
    {
        match register {
            0 => self.registers.read_bc(),
            1 => self.registers.read_de(),
            2 => self.registers.read_hl(),
            _ => self.registers.sp,
        }
    }

    /// Writes the 16-bit register that `register` selects: BC, DE, HL, SP.
    pub fn write_r16(&mut self, register: u8, value: u16)
        requires
            register < 4,
        ensures
            final(self)@ == old(self)@.write_r16(register, value),
    {
        match register {
            0 => self.registers.write_bc(value),
            1 => self.registers.write_de(value),
            2 => self.registers.write_hl(value),
            _ => self.registers.sp = value,
        }
    }

    /// Fetches an 8-bit immediate.
    pub fn fetch_imm8(&mut self) -> (value: u8)
        ensures
            value == old(self)@.next_byte(),
            final(self)@ == old(self)@.advance(),
    {
        self.fetch()
    }

    /// Fetches a 16-bit immediate: the low byte first, the high byte
    /// second.
    pub fn fetch_imm16(&mut self) -> (value: u16)
        ensures
            value == old(self)@.next_word(),
            final(self)@ == old(self)@.advance().advance(),
    {
        let lo: u8 = self.fetch();
        let hi: u8 = self.fetch();
        compose_bytes(hi, lo)
    }

    /// NOP: changes nothing.
    pub fn nop(&mut self)
        ensures
            *final(self) == *old(self),
    {
    }

    /// ADD A,r: adds `value` to A.
    ///
    /// A becomes `(A + value) mod 256`. Zero is set iff the result is 0,
    /// subtract is cleared, carry is set iff `A + value > 255`, half-carry
    /// iff `(A & 0xF) + (value & 0xF) > 0xF`.
    pub fn add_a(&mut self, value: u8)
        ensures
            final(self)@ == old(self)@.alu(AluOp::Add, value),
            final(self).registers.a == (old(self).registers.a + value) % 256,
            final(self).registers.f.zero() <==> (old(self).registers.a + value) % 256 == 0,
            !final(self).registers.f.subtract(),
            final(self).registers.f.half_carry() <==> (old(self).registers.a & 0xF) + (value & 0xF)
                > 0xF,
            final(self).registers.f.carry() <==> old(self).registers.a + value > 255,
    {
        proof {
            lemma_alu_effect(self@, AluOp::Add, value);
        }
        self.add_with_carry(value, false);
    }

    /// ADC A,r: adds `value` and the carry flag to A.
    ///
    /// Carry and half-carry are those of the whole sum of three: a carry
    /// out of either addition counts.
    pub fn adc_a(&mut self, value: u8)
        ensures
            final(self)@ == old(self)@.alu(AluOp::Adc, value),
            final(self).registers.a == (old(self).registers.a + value + carry_value(
                old(self).registers.f.carry(),
            )) % 256,
            final(self).registers.f.zero() <==> final(self).registers.a == 0,
            !final(self).registers.f.subtract(),
            final(self).registers.f.half_carry() <==> (old(self).registers.a & 0xF) + (value & 0xF)
                + carry_value(old(self).registers.f.carry()) > 0xF,
            final(self).registers.f.carry() <==> old(self).registers.a + value + carry_value(
                old(self).registers.f.carry(),
            ) > 255,
    {
        proof {
            lemma_alu_effect(self@, AluOp::Adc, value);
        }
        let carry: bool = self.registers.f.get_carry_flag();
        self.add_with_carry(value, carry);
    }

    /// SUB r: subtracts `value` from A.
    ///
    /// A becomes `(A - value) mod 256`. Zero is set iff the result is 0,
    /// subtract is set, carry is set iff `A < value`, half-carry iff
    /// `(A & 0xF) < (value & 0xF)`.
    pub fn sub_a(&mut self, value: u8)
        ensures
            final(self)@ == old(self)@.alu(AluOp::Sub, value),
            final(self).registers.a == (old(self).registers.a - value) % 256,
            final(self).registers.f.zero() <==> old(self).registers.a == value,
            final(self).registers.f.subtract(),
            final(self).registers.f.half_carry() <==> (old(self).registers.a & 0xF) < (value
                & 0xF),
            final(self).registers.f.carry() <==> old(self).registers.a < value,
    {
        proof {
            lemma_alu_effect(self@, AluOp::Sub, value);
        }
        let result: u8 = self.subtract_with_borrow(value, false);
        self.registers.a = result;
    }

    /// SBC A,r: subtracts `value` and the carry flag from A.
    pub fn sbc_a(&mut self, value: u8)
        ensures
            final(self)@ == old(self)@.alu(AluOp::Sbc, value),
            final(self).registers.a == (old(self).registers.a - value - carry_value(
                old(self).registers.f.carry(),
            )) % 256,
            final(self).registers.f.zero() <==> final(self).registers.a == 0,
            final(self).registers.f.subtract(),
            final(self).registers.f.half_carry() <==> (old(self).registers.a & 0xF) < (value & 0xF)
                + carry_value(old(self).registers.f.carry()),
            final(self).registers.f.carry() <==> old(self).registers.a < value + carry_value(
                old(self).registers.f.carry(),
            ),
    {
        proof {
            lemma_alu_effect(self@, AluOp::Sbc, value);
        }
        let borrow: bool = self.registers.f.get_carry_flag();
        let result: u8 = self.subtract_with_borrow(value, borrow);
        self.registers.a = result;
    }

    /// AND r: A becomes `A & value`. Half-carry is set, carry and subtract
    /// are cleared, zero is set iff the result is 0.
    pub fn and_a(&mut self, value: u8)
        ensures
            final(self)@ == old(self)@.alu(AluOp::And, value),
            final(self).registers.a == old(self).registers.a & value,
            final(self).registers.f.zero() <==> final(self).registers.a == 0,
            !final(self).registers.f.subtract(),
            final(self).registers.f.half_carry(),
            !final(self).registers.f.carry(),
    {
        proof {
            lemma_alu_effect(self@, AluOp::And, value);
        }
        let result: u8 = self.registers.a & value;
        self.set_flags(result == 0, false, true, false);
        self.registers.a = result;
    }

    /// XOR r: A becomes `A ^ value`. Half-carry, carry and subtract are
    /// cleared, zero is set iff the result is 0.
    pub fn xor_a(&mut self, value: u8)
        ensures
            final(self)@ == old(self)@.alu(AluOp::Xor, value),
            final(self).registers.a == old(self).registers.a ^ value,
            final(self).registers.f.zero() <==> final(self).registers.a == 0,
            !final(self).registers.f.subtract(),
            !final(self).registers.f.half_carry(),
            !final(self).registers.f.carry(),
    {
        proof {
            lemma_alu_effect(self@, AluOp::Xor, value);
        }
        let result: u8 = self.registers.a ^ value;
        self.set_flags(result == 0, false, false, false);
        self.registers.a = result;
    }

    /// OR r: A becomes `A | value`. Half-carry, carry and subtract are
    /// cleared, zero is set iff the result is 0.
    pub fn or_a(&mut self, value: u8)
        ensures
            final(self)@ == old(self)@.alu(AluOp::Or, value),
            final(self).registers.a == old(self).registers.a | value,
            final(self).registers.f.zero() <==> final(self).registers.a == 0,
            !final(self).registers.f.subtract(),
            !final(self).registers.f.half_carry(),
            !final(self).registers.f.carry(),
    {
        proof {
            lemma_alu_effect(self@, AluOp::Or, value);
        }
        let result: u8 = self.registers.a | value;
        self.set_flags(result == 0, false, false, false);
        self.registers.a = result;
    }

    /// CP r: sets the flags as SUB does and leaves A as it was.
    pub fn cp_a(&mut self, value: u8)
        ensures
            final(self)@ == old(self)@.alu(AluOp::Cp, value),
            final(self).registers.a == old(self).registers.a,
            final(self).registers.f.zero() <==> old(self).registers.a == value,
            final(self).registers.f.subtract(),
            final(self).registers.f.half_carry() <==> (old(self).registers.a & 0xF) < (value
                & 0xF),
            final(self).registers.f.carry() <==> old(self).registers.a < value,
    {
        proof {
            lemma_alu_effect(self@, AluOp::Cp, value);
        }
        let _ = self.subtract_with_borrow(value, false);
    }

    /// Adds `value` and `carry_in` to A and sets the flags from operands
    /// read before A is written.
    fn add_with_carry(&mut self, value: u8, carry_in: bool)
        ensures
            final(self)@ == (CpuState {
                registers: old(self)@.registers.after_alu(
                    alu_add(old(self)@.registers.a, value, carry_in),
                ),
                ..old(self)@
            }),
    {
        let a: u8 = self.registers.a;
        let cy: u8 = if carry_in { 1 } else { 0 };
        let total: u16 = a as u16 + value as u16 + cy as u16;
        let result: u8 = (total % 256) as u8;
        assert((a & 0xF) <= 0xF && (value & 0xF) <= 0xF) by (bit_vector);
        let half_carry: bool = (a & 0xF) + (value & 0xF) + cy > 0xF;
        self.set_flags(result == 0, false, half_carry, total > 0xFF);
        self.registers.a = result;
    }

    /// Sets the flags of `A - value - borrow_in` and returns the
    /// difference, which the caller stores or drops.
    fn subtract_with_borrow(&mut self, value: u8, borrow_in: bool) -> (result: u8)
        ensures
            result == alu_sub(old(self)@.registers.a, value, borrow_in).value,
            final(self)@ == (CpuState {
                registers: Registers {
                    a: old(self)@.registers.a,
                    ..old(self)@.registers.after_alu(
                        alu_sub(old(self)@.registers.a, value, borrow_in),
                    )
                },
                ..old(self)@
            }),
    {
        let a: u8 = self.registers.a;
        let cy: u8 = if borrow_in { 1 } else { 0 };
        let result: u8 = a.wrapping_sub(value).wrapping_sub(cy);
        assert((a & 0xF) <= 0xF && (value & 0xF) <= 0xF) by (bit_vector);
        let half_carry: bool = (a & 0xF) < (value & 0xF) + cy;
        let carry: bool = (a as u16) < value as u16 + cy as u16;
        self.set_flags(result == 0, true, half_carry, carry);
        result
    }

    /// Replaces the four flags and keeps the reserved bits.
    fn set_flags(&mut self, zero: bool, subtract: bool, half_carry: bool, carry: bool)
        ensures
            final(self)@ == (CpuState {
                registers: Registers {
                    f: old(self)@.registers.f.with_flags(zero, subtract, half_carry, carry),
                    ..old(self)@.registers
                },
                ..old(self)@
            }),
    {
        self.registers.f.set_zero_flag(zero);
        self.registers.f.set_subtract_flag(subtract);
        self.registers.f.set_carry_flag(carry);
        self.registers.f.set_half_carry_flag(half_carry);
        proof {
            old(self).registers.f.lemma_flags_replaced(
                self.registers.f,
                zero,
                subtract,
                half_carry,
                carry,
            );
        }
    }
}

} // verus!
