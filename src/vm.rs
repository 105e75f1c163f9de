//! The executable machine, verified against the model in `machine`.
use vstd::prelude::*;

use crate::image::{image_fits, image_origin, image_words, place, word_from_be_bytes, LoadError};
use crate::condition_flags::{flag_for, flag_of, is_flag_bits, ConditionFlag};
use crate::machine::{
    add_spec, and_spec, awaits_key, br_spec, emit, execute_spec, high_byte, initial_state, jmp_spec,
    jsr_spec, ld_spec, ldi_spec, ldr_spec, lea_spec, lemma_opcode_of, load, low_byte, not_spec,
    opcode_of, packed_string, plain_outcome, poll, polls_empty, read_key_spec, run_spec, sext, st_spec,
    step_spec, sti_spec, stopped, store, str_spec, trap_spec, valid, wadd, with_reg, word_string,
    MachineState, Outcome, COND_SLOT, LINK_SLOT, MEMORY_SIZE, PC_SLOT, PC_START, STRING_LIMIT,
};
use crate::memory_mapped_registers::{KBDDR, KBSR};
use crate::opcodes::OpCode;
use crate::registers::Register;
use crate::trap_codes::TrapCode;

verus! {

/// The register field of `instr` that starts at bit `shift`.
fn reg_field(instr: u16, shift: u16) -> (r: usize)
    requires
        shift <= 9,
    ensures
        r == (instr >> shift) & 7,
        shift == 0 ==> r == instr & 7,
        r < 8,
{
    assert((instr >> shift) & 7 < 8) by (bit_vector);
    assert(shift == 0 ==> (instr >> shift) & 7 == instr & 7) by (bit_vector);
    ((instr >> shift) & 7) as usize
}

/// 16-bit addition, modulo 2^16.
fn add16(a: u16, b: u16) -> (r: u16)
    ensures
        r == wadd(a, b),
{
    a.wrapping_add(b)
}

/// The low byte of `w`.
fn low_byte_of(w: u16) -> (r: u8)
    ensures
        r == low_byte(w),
{
    assert(w & 0xFF == w % 256) by (bit_vector);
    (w & 0xFF) as u8
}

/// The high byte of `w`.
fn high_byte_of(w: u16) -> (r: u8)
    ensures
        r == high_byte(w),
{
    assert(w >> 8u16 == w / 256) by (bit_vector);
    (w >> 8u16) as u8
}

/// A machine: memory, register file and running flag, together with the
/// character the input source has handed over and the output not yet taken.
pub struct VM {
    memory: Vec<u16>,
    registers: Vec<u16>,
    running: bool,
    key: Option<u16>,
    output: Vec<u8>,
}

impl View for VM {
    type V = MachineState;

    closed spec fn view(&self) -> MachineState {
        MachineState {
            regs: self.registers@,
            mem: self.memory@,
            running: self.running,
            key: self.key,
            out: self.output@,
        }
    }
}

impl VM {
    /// A machine with zero-filled memory, PC at the start address, the
    /// condition register at Zero, running.
    pub fn new() -> (vm: VM)
        ensures
            vm@ == initial_state(),
            valid(vm@),
    {
        let mut registers: Vec<u16> = vec![0u16; 11];
        registers.set(COND_SLOT, ConditionFlag::Zro.bits());
        registers.set(PC_SLOT, PC_START);
        let vm = VM {
            memory: vec![0u16; MEMORY_SIZE],
            registers,
            running: true,
            key: None,
            output: Vec::new(),
        };
        assert(vm@.regs =~= initial_state().regs);
        assert(vm@.mem =~= initial_state().mem);
        assert(vm@.out =~= initial_state().out);
        vm
    }

    /// The value of register `r`.
    pub fn reg(&self, r: Register) -> (v: u16)
        requires
            valid(self@),
        ensures
            v == self@.regs[r.spec_index() as int],
    {
        self.registers[r.index()]
    }

    /// Sets register `r` to `v`. The condition register accepts only the
    /// three flag patterns: for any other value nothing changes and the
    /// result is false.
    pub fn set_reg(&mut self, r: Register, v: u16) -> (accepted: bool)
        requires
            valid(old(self)@),
        ensures
            valid(final(self)@),
            accepted == (r != Register::Cond || is_flag_bits(v)),
            accepted ==> final(self)@ == with_reg(old(self)@, r.spec_index() as int, v),
            !accepted ==> final(self)@ == old(self)@,
    {
        if r == Register::Cond && !(v == 1 || v == 2 || v == 4) {
            return false;
        }
        self.registers.set(r.index(), v);
        true
    }

    /// Sets the condition register to `f`.
    pub fn set_cond(&mut self, f: ConditionFlag)
        requires
            valid(old(self)@),
        ensures
            valid(final(self)@),
            final(self)@ == with_reg(old(self)@, COND_SLOT as int, f.spec_bits()),
    {
        self.registers.set(COND_SLOT, f.bits());
    }

    /// Whether the machine has not halted.
    pub fn is_running(&self) -> (r: bool)
        ensures
            r == self@.running,
    {
        self.running
    }

    /// The word at `address`, read without any side effect.
    pub fn memory_at(&self, address: u16) -> (v: u16)
        requires
            valid(self@),
        ensures
            v == self@.mem[address as int],
    {
        self.memory[address as usize]
    }

    /// Stores `value` at `address`; no address is special on a write.
    pub fn mem_write(&mut self, address: u16, value: u16)
        requires
            valid(old(self)@),
        ensures
            valid(final(self)@),
            final(self)@ == store(old(self)@, address, value),
    {
        self.memory.set(address as usize, value);
    }

    /// Hands over the next input character; it replaces one not yet consumed.
    pub fn supply_key(&mut self, c: u16)
        ensures
            final(self)@ == (MachineState { key: Some(c), ..old(self)@ }),
    {
        self.key = Some(c);
    }

    /// Takes the bytes written so far by output routines.
    pub fn take_output(&mut self) -> (bytes: Vec<u8>)
        ensures
            bytes@ == old(self)@.out,
            final(self)@ == (MachineState { out: seq![], ..old(self)@ }),
    {
        let mut bytes: Vec<u8> = Vec::new();
        std::mem::swap(&mut bytes, &mut self.output);
        assert(self@.out =~= seq![]);
        bytes
    }

    /// Polls the keyboard into the status and data registers.
    fn poll_keyboard(&mut self)
        requires
            valid(old(self)@),
        ensures
            valid(final(self)@),
            final(self)@ == poll(old(self)@),
    {
        match self.key {
            Some(c) => {
                self.memory.set(KBDDR as usize, c);
                self.memory.set(KBSR as usize, 0x8000);
                self.key = None;
            },
            None => {
                self.memory.set(KBSR as usize, 0);
            },
        }
    }

    /// A load from `address`, and whether it found the status register with
    /// no character at hand.
    fn load_word(&mut self, address: u16) -> (r: (u16, bool))
        requires
            valid(old(self)@),
        ensures
            valid(final(self)@),
            (final(self)@, r.0) == load(old(self)@, address),
            r.1 == polls_empty(old(self)@, address),
    {
        let empty = address == KBSR && self.key.is_none();
        if address == KBSR {
            self.poll_keyboard();
        }
        (self.memory[address as usize], empty)
    }

    /// A load from `address`: reading the status register polls the keyboard
    /// first, and every other address is plain storage.
    pub fn mem_read(&mut self, address: u16) -> (v: u16)
        requires
            valid(old(self)@),
        ensures
            valid(final(self)@),
            (final(self)@, v) == load(old(self)@, address),
    {
        self.load_word(address).0
    }

    /// Widens the low `bit_count` bits of `x` as a two's-complement number.
    pub fn sign_extend(x: u16, bit_count: u16) -> (r: u16)
        requires
            1 <= bit_count <= 16,
        ensures
            r == sext(x, bit_count),
    {
        if bit_count < 16 && (x >> (bit_count - 1)) & 1 == 1 {
            x | (0xFFFFu16 << bit_count)
        } else {
            x
        }
    }

    /// Sets the condition register from the value of register slot `r`.
    fn update_flags(&mut self, r: usize)
        requires
            valid(old(self)@),
            r < 11,
        ensures
            valid(final(self)@),
            final(self)@ == with_reg(
                old(self)@,
                COND_SLOT as int,
                flag_of(old(self)@.regs[r as int]).spec_bits(),
            ),
    {
        let f = flag_for(self.registers[r]);
        self.registers.set(COND_SLOT, f.bits());
    }

    /// ADD: DR = SR1 + (SR2 or imm5), modulo 2^16; sets the flags.
    pub fn add(&mut self, instr: u16)
        requires
            valid(old(self)@),
        ensures
            valid(final(self)@),
            final(self)@ == add_spec(old(self)@, instr),
    {
        let dr = reg_field(instr, 9);
        let sr1 = reg_field(instr, 6);
        let b = if (instr >> 5) & 1 == 1 {
            Self::sign_extend(instr & 0x1F, 5)
        } else {
            self.registers[reg_field(instr, 0)]
        };
        let v = add16(self.registers[sr1], b);
        self.registers.set(dr, v);
        self.update_flags(dr);
    }

    /// AND: DR = SR1 & (SR2 or imm5); the flags are left as they are.
    pub fn and(&mut self, instr: u16)
        requires
            valid(old(self)@),
        ensures
            valid(final(self)@),
            final(self)@ == and_spec(old(self)@, instr),
    {
        let dr = reg_field(instr, 9);
        let sr1 = reg_field(instr, 6);
        let b = if (instr >> 5) & 1 == 1 {
            Self::sign_extend(instr & 0x1F, 5)
        } else {
            self.registers[reg_field(instr, 0)]
        };
        let v = self.registers[sr1] & b;
        self.registers.set(dr, v);
    }

    /// NOT: DR = the bitwise complement of SR; sets the flags.
    pub fn not(&mut self, instr: u16)
        requires
            valid(old(self)@),
        ensures
            valid(final(self)@),
            final(self)@ == not_spec(old(self)@, instr),
    {
        let dr = reg_field(instr, 9);
        let sr = reg_field(instr, 6);
        let v = !self.registers[sr];
        self.registers.set(dr, v);
        self.update_flags(dr);
    }

    /// BR: PC += offset9 when one of the flags that bits 11, 10, 9 select
    /// (Negative, Zero, Positive) is the current one.
    pub fn br(&mut self, instr: u16)
        requires
            valid(old(self)@),
        ensures
            valid(final(self)@),
            final(self)@ == br_spec(old(self)@, instr),
    {
        let cond = self.registers[COND_SLOT];
        if ((instr >> 11) & 1 == 1 && cond == ConditionFlag::Neg.bits())
            || ((instr >> 10) & 1 == 1 && cond == ConditionFlag::Zro.bits())
            || ((instr >> 9) & 1 == 1 && cond == ConditionFlag::Pos.bits())
        {
            let offset = Self::sign_extend(instr & 0x1FF, 9);
            let target = add16(self.registers[PC_SLOT], offset);
            self.registers.set(PC_SLOT, target);
        }
    }

    /// JMP, and RET when the base register is R7: PC = BaseR.
    pub fn jmp(&mut self, instr: u16)
        requires
            valid(old(self)@),
        ensures
            valid(final(self)@),
            final(self)@ == jmp_spec(old(self)@, instr),
    {
        let base = reg_field(instr, 6);
        let target = self.registers[base];
        self.registers.set(PC_SLOT, target);
    }

    /// JSR and JSRR: R7 = PC (already advanced past this instruction); then
    /// PC = PC + offset11 (bit 11 set) or PC = BaseR (bit 11 clear).
    pub fn jsr(&mut self, instr: u16)
        requires
            valid(old(self)@),
        ensures
            valid(final(self)@),
            final(self)@ == jsr_spec(old(self)@, instr),
    {
        let pc = self.registers[PC_SLOT];
        self.registers.set(LINK_SLOT, pc);
        if (instr >> 11) & 1 == 1 {
            let offset = Self::sign_extend(instr & 0x7FF, 11);
            self.registers.set(PC_SLOT, add16(pc, offset));
        } else {
            let base = reg_field(instr, 6);
            let target = self.registers[base];
            self.registers.set(PC_SLOT, target);
        }
    }

    /// LD: DR = Memory[PC + offset9]; sets the flags. Reports `Polled` when
    /// the load found the status register with no character at hand.
    pub fn ld(&mut self, instr: u16) -> (r: Outcome)
        requires
            valid(old(self)@),
        ensures
            valid(final(self)@),
            final(self)@ == ld_spec(old(self)@, instr),
            r == plain_outcome(old(self)@, OpCode::Ld, instr),
    {
        let dr = reg_field(instr, 9);
        let offset = Self::sign_extend(instr & 0x1FF, 9);
        let (v, empty) = self.load_word(add16(self.registers[PC_SLOT], offset));
        self.registers.set(dr, v);
        self.update_flags(dr);
        if empty { Outcome::Polled } else { Outcome::Executed }
    }

    /// LDI: DR = Memory[Memory[PC + offset9]]; sets the flags. Reports
    /// `Polled` when a load found the status register with no character at
    /// hand.
    pub fn ldi(&mut self, instr: u16) -> (r: Outcome)
        requires
            valid(old(self)@),
        ensures
            valid(final(self)@),
            final(self)@ == ldi_spec(old(self)@, instr),
            r == plain_outcome(old(self)@, OpCode::Ldi, instr),
    {
        let dr = reg_field(instr, 9);
        let offset = Self::sign_extend(instr & 0x1FF, 9);
        let (address, empty1) = self.load_word(add16(self.registers[PC_SLOT], offset));
        let (v, empty2) = self.load_word(address);
        self.registers.set(dr, v);
        self.update_flags(dr);
        if empty1 || empty2 { Outcome::Polled } else { Outcome::Executed }
    }

    /// LDR: DR = Memory[BaseR + offset6]; sets the flags. Reports `Polled`
    /// when the load found the status register with no character at hand.
    pub fn ldr(&mut self, instr: u16) -> (r: Outcome)
        requires
            valid(old(self)@),
        ensures
            valid(final(self)@),
            final(self)@ == ldr_spec(old(self)@, instr),
            r == plain_outcome(old(self)@, OpCode::Ldr, instr),
    {
        let dr = reg_field(instr, 9);
        let base = reg_field(instr, 6);
        let offset = Self::sign_extend(instr & 0x3F, 6);
        let (v, empty) = self.load_word(add16(self.registers[base], offset));
        self.registers.set(dr, v);
        self.update_flags(dr);
        if empty { Outcome::Polled } else { Outcome::Executed }
    }

    /// LEA: DR = PC + offset9, with no memory access; sets the flags.
    pub fn lea(&mut self, instr: u16)
        requires
            valid(old(self)@),
        ensures
            valid(final(self)@),
            final(self)@ == lea_spec(old(self)@, instr),
    {
        let dr = reg_field(instr, 9);
        let offset = Self::sign_extend(instr & 0x1FF, 9);
        let v = add16(self.registers[PC_SLOT], offset);
        self.registers.set(dr, v);
        self.update_flags(dr);
    }

    /// ST: Memory[PC + offset9] = SR.
    pub fn st(&mut self, instr: u16)
        requires
            valid(old(self)@),
        ensures
            valid(final(self)@),
            final(self)@ == st_spec(old(self)@, instr),
    {
        let sr = reg_field(instr, 9);
        let offset = Self::sign_extend(instr & 0x1FF, 9);
        let address = add16(self.registers[PC_SLOT], offset);
        let v = self.registers[sr];
        self.memory.set(address as usize, v);
    }

    /// STI: Memory[Memory[PC + offset9]] = SR. Reports `Polled` when the
    /// pointer load found the status register with no character at hand.
    pub fn sti(&mut self, instr: u16) -> (r: Outcome)
        requires
            valid(old(self)@),
        ensures
            valid(final(self)@),
            final(self)@ == sti_spec(old(self)@, instr),
            r == plain_outcome(old(self)@, OpCode::Sti, instr),
    {
        let sr = reg_field(instr, 9);
        let offset = Self::sign_extend(instr & 0x1FF, 9);
        let (address, empty) = self.load_word(add16(self.registers[PC_SLOT], offset));
        let v = self.registers[sr];
        self.memory.set(address as usize, v);
        if empty { Outcome::Polled } else { Outcome::Executed }
    }

    /// STR: Memory[BaseR + offset6] = SR.
    pub fn str(&mut self, instr: u16)
        requires
            valid(old(self)@),
        ensures
            valid(final(self)@),
            final(self)@ == str_spec(old(self)@, instr),
    {
        let sr = reg_field(instr, 9);
        let base = reg_field(instr, 6);
        let offset = Self::sign_extend(instr & 0x3F, 6);
        let address = add16(self.registers[base], offset);
        let v = self.registers[sr];
        self.memory.set(address as usize, v);
    }

    /// Reads the character at hand into R0 and sets the flags; with none at
    /// hand nothing changes and the outcome asks for one.
    fn read_key(&mut self, prompt: bool) -> (r: Outcome)
        requires
            valid(old(self)@),
        ensures
            valid(final(self)@),
            (final(self)@, r) == read_key_spec(old(self)@, prompt),
    {
        match self.key {
            Some(c) => {
                self.key = None;
                self.registers.set(0, c);
                self.update_flags(0);
                Outcome::Executed
            },
            None => Outcome::NeedsKey { prompt },
        }
    }

    /// GETC: R0 = the character at hand, which is consumed; sets the flags.
    pub fn trap_getc(&mut self) -> (r: Outcome)
        requires
            valid(old(self)@),
        ensures
            valid(final(self)@),
            (final(self)@, r) == read_key_spec(old(self)@, false),
    {
        self.read_key(false)
    }

    /// IN: as GETC; when no character is at hand the outcome also asks for
    /// the prompt, and the terminal echoes what is typed.
    pub fn trap_in(&mut self) -> (r: Outcome)
        requires
            valid(old(self)@),
        ensures
            valid(final(self)@),
            (final(self)@, r) == read_key_spec(old(self)@, true),
    {
        self.read_key(true)
    }

    /// OUT: writes the low byte of R0.
    pub fn trap_out(&mut self)
        requires
            valid(old(self)@),
        ensures
            valid(final(self)@),
            final(self)@ == emit(old(self)@, seq![low_byte(old(self)@.regs[0])]),
    {
        let c = low_byte_of(self.registers[0]);
        self.output.push(c);
    }

    /// PUTS: writes the zero-terminated string at R0, one character (the low
    /// byte) per word, reading at most one pass over memory.
    pub fn trap_puts(&mut self)
        requires
            valid(old(self)@),
        ensures
            valid(final(self)@),
            final(self)@ == emit(
                old(self)@,
                word_string(old(self)@.mem, old(self)@.regs[0], STRING_LIMIT as nat),
            ),
    {
        let ghost s0 = self@;
        let ghost text = word_string(s0.mem, s0.regs[0], STRING_LIMIT as nat);
        let mut address = self.registers[0];
        let mut n: usize = 0;
        while n < STRING_LIMIT && self.memory[address as usize] != 0
            invariant
                valid(self@),
                n <= STRING_LIMIT,
                self@ == (MachineState { out: self@.out, ..s0 }),
                s0.out + text == self@.out + word_string(
                    s0.mem,
                    address,
                    (STRING_LIMIT - n) as nat,
                ),
            decreases STRING_LIMIT - n,
        {
            let w = self.memory[address as usize];
            let ghost before = self@.out;
            let ghost rest = word_string(s0.mem, wadd(address, 1), (STRING_LIMIT - n - 1) as nat);
            self.output.push(low_byte_of(w));
            assert(before + (seq![low_byte(w)] + rest) =~= self@.out + rest);
            address = add16(address, 1);
            n = n + 1;
        }
        assert(self@.out + word_string(s0.mem, address, (STRING_LIMIT - n) as nat) =~= self@.out);
        assert(self@.out =~= s0.out + text);
    }

    /// PUTSP: writes the packed string at R0, two characters per word, low
    /// byte first, up to the first zero byte; at most one pass over memory.
    pub fn trap_puts_p(&mut self)
        requires
            valid(old(self)@),
        ensures
            valid(final(self)@),
            final(self)@ == emit(
                old(self)@,
                packed_string(old(self)@.mem, old(self)@.regs[0], STRING_LIMIT as nat),
            ),
    {
        let ghost s0 = self@;
        let ghost text = packed_string(s0.mem, s0.regs[0], STRING_LIMIT as nat);
        let mut address = self.registers[0];
        let mut n: usize = 0;
        let mut done = false;
        while n < STRING_LIMIT && !done
            invariant
                valid(self@),
                n <= STRING_LIMIT,
                self@ == (MachineState { out: self@.out, ..s0 }),
                done ==> s0.out + text == self@.out,
                !done ==> s0.out + text == self@.out + packed_string(
                    s0.mem,
                    address,
                    (STRING_LIMIT - n) as nat,
                ),
            decreases STRING_LIMIT - n,
        {
            let w = self.memory[address as usize];
            let lo = low_byte_of(w);
            let hi = high_byte_of(w);
            let ghost before = self@.out;
            let ghost rest = packed_string(s0.mem, wadd(address, 1), (STRING_LIMIT - n - 1) as nat);
            if lo == 0 {
                assert(before + seq![] =~= before);
                done = true;
            } else if hi == 0 {
                self.output.push(lo);
                assert(before + seq![lo] =~= self@.out);
                done = true;
            } else {
                self.output.push(lo);
                self.output.push(hi);
                assert(before + (seq![lo, hi] + rest) =~= self@.out + rest);
                address = add16(address, 1);
            }
            n = n + 1;
        }
        if !done {
            assert(self@.out + packed_string(s0.mem, address, 0) =~= self@.out);
        }
        assert(self@.out =~= s0.out + text);
    }

    /// HALT: stops the machine.
    pub fn trap_halt(&mut self)
        requires
            valid(old(self)@),
        ensures
            valid(final(self)@),
            final(self)@ == stopped(old(self)@),
    {
        self.running = false;
    }

    /// Stops the machine on an instruction it does not implement.
    pub fn abort(&mut self)
        requires
            valid(old(self)@),
        ensures
            valid(final(self)@),
            final(self)@ == stopped(old(self)@),
    {
        self.running = false;
    }

    /// TRAP: runs the routine that the low eight bits select; an unknown
    /// vector stops the machine.
    pub fn trap(&mut self, instr: u16) -> (r: Outcome)
        requires
            valid(old(self)@),
        ensures
            valid(final(self)@),
            (final(self)@, r) == trap_spec(old(self)@, instr),
    {
        match TrapCode::from_u16(instr & 0xFF) {
            Some(TrapCode::Getc) => self.trap_getc(),
            Some(TrapCode::Out) => {
                self.trap_out();
                Outcome::Executed
            },
            Some(TrapCode::Puts) => {
                self.trap_puts();
                Outcome::Executed
            },
            Some(TrapCode::In) => self.trap_in(),
            Some(TrapCode::Putsp) => {
                self.trap_puts_p();
                Outcome::Executed
            },
            Some(TrapCode::Halt) => {
                self.trap_halt();
                Outcome::Halted
            },
            None => {
                self.abort();
                Outcome::Aborted
            },
        }
    }

    /// The opcode of `instr`: its top four bits.
    pub fn decode(instr: u16) -> (op: OpCode)
        ensures
            op == opcode_of(instr),
    {
        proof {
            lemma_opcode_of(instr);
        }
        match OpCode::from_u16(instr >> 12) {
            Some(op) => op,
            None => OpCode::Trap,
        }
    }

    /// Loads the word at PC, and whether that load found the status register
    /// with no character at hand.
    fn fetch(&mut self) -> (r: (u16, bool))
        requires
            valid(old(self)@),
        ensures
            valid(final(self)@),
            (final(self)@, r.0) == load(old(self)@, old(self)@.regs[PC_SLOT as int]),
            r.1 == polls_empty(old(self)@, old(self)@.regs[PC_SLOT as int]),
    {
        let pc = self.registers[PC_SLOT];
        self.load_word(pc)
    }

    /// Executes `instr` as the operation `op`.
    pub fn execute(&mut self, op: OpCode, instr: u16) -> (r: Outcome)
        requires
            valid(old(self)@),
        ensures
            valid(final(self)@),
            (final(self)@, r) == execute_spec(old(self)@, op, instr),
    {
        match op {
            OpCode::Add => {
                self.add(instr);
                Outcome::Executed
            },
            OpCode::And => {
                self.and(instr);
                Outcome::Executed
            },
            OpCode::Not => {
                self.not(instr);
                Outcome::Executed
            },
            OpCode::Br => {
                self.br(instr);
                Outcome::Executed
            },
            OpCode::Jmp => {
                self.jmp(instr);
                Outcome::Executed
            },
            OpCode::Jsr => {
                self.jsr(instr);
                Outcome::Executed
            },
            OpCode::Ld => self.ld(instr),
            OpCode::Ldi => self.ldi(instr),
            OpCode::Ldr => self.ldr(instr),
            OpCode::Lea => {
                self.lea(instr);
                Outcome::Executed
            },
            OpCode::St => {
                self.st(instr);
                Outcome::Executed
            },
            OpCode::Sti => self.sti(instr),
            OpCode::Str => {
                self.str(instr);
                Outcome::Executed
            },
            OpCode::Trap => self.trap(instr),
            OpCode::Rti | OpCode::Res => {
                self.abort();
                Outcome::Aborted
            },
        }
    }

    /// One cycle: fetch the word at PC, advance PC by one, execute the word.
    /// A stopped machine, or one whose next instruction reads a character
    /// while none is at hand, is left as it is.
    pub fn step(&mut self) -> (r: Outcome)
        requires
            valid(old(self)@),
        ensures
            valid(final(self)@),
            (final(self)@, r) == step_spec(old(self)@),
    {
        if !self.running {
            return Outcome::NotRunning;
        }
        let pc = self.registers[PC_SLOT];
        if self.key.is_none() && pc != KBSR {
            let w = self.memory[pc as usize];
            proof {
                lemma_opcode_of(w);
            }
            if w >> 12 == 15 {
                let vector = w & 0xFF;
                if vector == TrapCode::Getc.vector() || vector == TrapCode::In.vector() {
                    return Outcome::NeedsKey { prompt: vector == TrapCode::In.vector() };
                }
            }
        }
        let (instr, empty) = self.fetch();
        self.registers.set(PC_SLOT, add16(pc, 1));
        let op = Self::decode(instr);
        let o = self.execute(op, instr);
        if empty && o == Outcome::Executed {
            Outcome::Polled
        } else {
            o
        }
    }

    /// Runs up to `budget` cycles. It returns early with the outcome of the
    /// first cycle that is not `Executed` (the machine stopped, waits for a
    /// character, or polled an empty keyboard), or with `Executed` after a
    /// cycle that left output for the host to take.
    pub fn run(&mut self, budget: u64) -> (r: Outcome)
        requires
            valid(old(self)@),
        ensures
            valid(final(self)@),
            (final(self)@, r) == run_spec(old(self)@, budget as nat),
    {
        let mut left = budget;
        while left > 0
            invariant
                valid(self@),
                run_spec(old(self)@, budget as nat) == run_spec(self@, left as nat),
            decreases left,
        {
            let o = self.step();
            left = left - 1;
            if o != Outcome::Executed || self.output.len() > 0 {
                return o;
            }
        }
        Outcome::Executed
    }

    /// Loads an image: the first two bytes give the origin address and the
    /// following pairs of bytes the words written from there on, big-endian.
    /// Fails, leaving memory unchanged, when the image has no origin or its
    /// words would run past the end of memory.
    pub fn load_image(&mut self, image: &[u8]) -> (r: Result<(), LoadError>)
        requires
            valid(old(self)@),
        ensures
            valid(final(self)@),
            r is Ok <==> image_fits(image@),
            r == Err::<(), LoadError>(LoadError::MissingOrigin) <==> image@.len() < 2,
            r is Ok ==> final(self)@ == (MachineState {
                mem: place(old(self)@.mem, image_origin(image@) as int, image_words(image@)),
                ..old(self)@
            }),
            r is Err ==> final(self)@ == old(self)@,
    {
        if image.len() < 2 {
            return Err(LoadError::MissingOrigin);
        }
        let origin = word_from_be_bytes(image[0], image[1]) as usize;
        let count = (image.len() - 2) / 2;
        if count > MEMORY_SIZE - origin {
            return Err(LoadError::Overflow);
        }
        let ghost s0 = self@;
        let ghost words = image_words(image@);
        let mut i: usize = 0;
        while i < count
            invariant
                valid(self@),
                i <= count,
                words == image_words(image@),
                count == words.len(),
                count == (image@.len() - 2) / 2,
                2 * count + 2 <= image@.len(),
                origin == image_origin(image@),
                origin + count <= MEMORY_SIZE,
                s0.mem.len() == MEMORY_SIZE,
                self@ == (MachineState { mem: self@.mem, ..s0 }),
                forall|a: int|
                    0 <= a < MEMORY_SIZE ==> #[trigger] self@.mem[a] == if origin <= a < origin + i {
                        words[a - origin]
                    } else {
                        s0.mem[a]
                    },
            decreases count - i,
        {
            let hi = image[2 + 2 * i];
            let lo = image[3 + 2 * i];
            let w = word_from_be_bytes(hi, lo);
            assert(w == words[i as int]);
            self.memory.set(origin + i, w);
            i = i + 1;
        }
        assert(self@.mem =~= place(s0.mem, origin as int, words));
        Ok(())
    }
}

} // verus!
