//! The mathematical model of the machine: its state, the fields of an
//! instruction word, and the effect of every instruction on the state.
use vstd::prelude::*;

use crate::condition_flags::{flag_of, is_flag_bits};
use crate::memory_mapped_registers::{KBDDR, KBSR};
use crate::opcodes::OpCode;
use crate::trap_codes::TrapCode;

verus! {

/// Number of words in the address space.
pub const MEMORY_SIZE: usize = 65536;

/// The address at which execution starts.
pub const PC_START: u16 = 0x3000;

/// Slot of the program counter in the register file.
pub const PC_SLOT: usize = 8;

/// Slot of the condition register in the register file.
pub const COND_SLOT: usize = 9;

/// Slot of the link register R7, which JSR and JSRR write.
pub const LINK_SLOT: usize = 7;

/// Upper bound, in words, on how far PUTS and PUTSP read: one pass over the
/// whole address space.
pub const STRING_LIMIT: usize = 65536;

/// What the machine is, at one moment, as mathematics.
#[verifier::ext_equal]
pub struct MachineState {
    /// The register file, indexed by `Register::spec_index`.
    pub regs: Seq<u16>,
    /// The memory, indexed by address.
    pub mem: Seq<u16>,
    /// False once the machine has halted or aborted.
    pub running: bool,
    /// A character that the input source has handed over and that no
    /// instruction has consumed yet.
    pub key: Option<u16>,
    /// The bytes written by output routines and not yet taken by the host.
    pub out: Seq<u8>,
}

/// What an attempt to execute one instruction came to.
#[derive(Debug, Clone, Copy, PartialEq, Eq, Structural)]
pub enum Outcome {
    /// The instruction was executed; the machine may go on.
    Executed,
    /// The next instruction reads a character and none is at hand: nothing
    /// was changed. `prompt` is set for the routine that prompts first.
    NeedsKey { prompt: bool },
    /// The status register was read while no character was at hand, so it
    /// read as "not ready".
    Polled,
    /// A HALT trap stopped the machine.
    Halted,
    /// An unimplemented opcode or an unknown trap vector stopped the machine.
    Aborted,
    /// The machine had already stopped: nothing was changed.
    NotRunning,
}

/// The shape that every state of the machine has: eleven registers, the full
/// address space, and exactly one flag pattern in the condition register.
pub open spec fn valid(s: MachineState) -> bool {
    &&& s.regs.len() == 11
    &&& s.mem.len() == MEMORY_SIZE
    &&& is_flag_bits(s.regs[COND_SLOT as int])
}

/// 16-bit addition, modulo 2^16.
pub open spec fn wadd(a: u16, b: u16) -> u16 {
    ((a + b) % 0x10000) as u16
}

/// Two's-complement widening of the low `k` bits of `x` to 16 bits: when bit
/// `k - 1` is set, every bit from `k` upward is set too.
pub open spec fn sext(x: u16, k: u16) -> u16 {
    if k < 16 && (x >> ((k - 1) as u16)) & 1 == 1 {
        x | (0xFFFFu16 << k)
    } else {
        x
    }
}

/// The low byte of a word.
pub open spec fn low_byte(w: u16) -> u8 {
    (w % 256) as u8
}

/// The high byte of a word.
pub open spec fn high_byte(w: u16) -> u8 {
    (w / 256) as u8
}

/// Bits 11..9: the destination (or, for stores, the source) register.
pub open spec fn field_dr(i: u16) -> int {
    ((i >> 9u16) & 7) as int
}

/// Bits 8..6: the first source register, or the base register.
pub open spec fn field_sr1(i: u16) -> int {
    ((i >> 6u16) & 7) as int
}

/// Bits 2..0: the second source register.
pub open spec fn field_sr2(i: u16) -> int {
    (i & 7) as int
}

/// Bit 5: whether ADD and AND take an immediate operand.
pub open spec fn imm_mode(i: u16) -> bool {
    (i >> 5u16) & 1 == 1
}

/// Bit 11: whether JSR takes a PC offset (set) or a base register (clear).
pub open spec fn long_mode(i: u16) -> bool {
    (i >> 11u16) & 1 == 1
}

/// The sign-extended five-bit immediate.
pub open spec fn imm5(i: u16) -> u16 {
    sext(i & 0x1F, 5)
}

/// The sign-extended six-bit offset.
pub open spec fn offset6(i: u16) -> u16 {
    sext(i & 0x3F, 6)
}

/// The sign-extended nine-bit PC offset.
pub open spec fn offset9(i: u16) -> u16 {
    sext(i & 0x1FF, 9)
}

/// The sign-extended eleven-bit PC offset.
pub open spec fn offset11(i: u16) -> u16 {
    sext(i & 0x7FF, 11)
}

/// The trap vector: the low eight bits.
pub open spec fn trap_vector(i: u16) -> u16 {
    i & 0xFF
}

/// The opcode of an instruction word: its top four bits.
pub open spec fn opcode_of(i: u16) -> OpCode {
    let c = i >> 12u16;
    if c == 0 { OpCode::Br }
    else if c == 1 { OpCode::Add }
    else if c == 2 { OpCode::Ld }
    else if c == 3 { OpCode::St }
    else if c == 4 { OpCode::Jsr }
    else if c == 5 { OpCode::And }
    else if c == 6 { OpCode::Ldr }
    else if c == 7 { OpCode::Str }
    else if c == 8 { OpCode::Rti }
    else if c == 9 { OpCode::Not }
    else if c == 10 { OpCode::Ldi }
    else if c == 11 { OpCode::Sti }
    else if c == 12 { OpCode::Jmp }
    else if c == 13 { OpCode::Res }
    else if c == 14 { OpCode::Lea }
    else { OpCode::Trap }
}

/// The program counter.
pub open spec fn pc(s: MachineState) -> u16 {
    s.regs[PC_SLOT as int]
}

/// `s` with register slot `r` set to `v`.
pub open spec fn with_reg(s: MachineState, r: int, v: u16) -> MachineState {
    MachineState { regs: s.regs.update(r, v), ..s }
}

/// `s` with register `r` set to `v` and the condition register set to the
/// flag that `v` determines.
pub open spec fn with_result(s: MachineState, r: int, v: u16) -> MachineState {
    with_reg(with_reg(s, r, v), COND_SLOT as int, flag_of(v).spec_bits())
}

/// `s` with the word at `addr` set to `v`.
pub open spec fn store(s: MachineState, addr: u16, v: u16) -> MachineState {
    MachineState { mem: s.mem.update(addr as int, v), ..s }
}

/// `s` after the keyboard has been polled: with a character at hand, the data
/// register takes it and the status register reads ready (bit 15); without
/// one, the status register reads 0.
pub open spec fn poll(s: MachineState) -> MachineState {
    match s.key {
        Some(c) => MachineState {
            mem: s.mem.update(KBDDR as int, c).update(KBSR as int, 0x8000),
            key: None,
            ..s
        },
        None => MachineState { mem: s.mem.update(KBSR as int, 0), ..s },
    }
}

/// A load: reading the status register polls the keyboard first; every other
/// address is plain storage.
pub open spec fn load(s: MachineState, addr: u16) -> (MachineState, u16) {
    let s1 = if addr == KBSR { poll(s) } else { s };
    (s1, s1.mem[addr as int])
}

/// Whether a load from `addr` finds the status register with no character at
/// hand.
pub open spec fn polls_empty(s: MachineState, addr: u16) -> bool {
    addr == KBSR && s.key is None
}

/// The characters of the zero-terminated string of one character per word
/// (its low byte) at `addr`, reading at most `n` words.
pub open spec fn word_string(mem: Seq<u16>, addr: u16, n: nat) -> Seq<u8>
    decreases n,
{
    if n == 0 || mem[addr as int] == 0 {
        seq![]
    } else {
        seq![low_byte(mem[addr as int])] + word_string(mem, wadd(addr, 1), (n - 1) as nat)
    }
}

/// The characters of the packed string at `addr`: two per word, low byte
/// first, ending at the first zero byte; at most `n` words are read.
pub open spec fn packed_string(mem: Seq<u16>, addr: u16, n: nat) -> Seq<u8>
    decreases n,
{
    if n == 0 {
        seq![]
    } else {
        let w = mem[addr as int];
        if low_byte(w) == 0 {
            seq![]
        } else if high_byte(w) == 0 {
            seq![low_byte(w)]
        } else {
            seq![low_byte(w), high_byte(w)] + packed_string(mem, wadd(addr, 1), (n - 1) as nat)
        }
    }
}

/// ADD: DR = SR1 + (SR2 or imm5), modulo 2^16; sets the flags.
pub open spec fn add_spec(s: MachineState, i: u16) -> MachineState {
    let a = s.regs[field_sr1(i)];
    let b = if imm_mode(i) { imm5(i) } else { s.regs[field_sr2(i)] };
    with_result(s, field_dr(i), wadd(a, b))
}

/// AND: DR = SR1 & (SR2 or imm5); the flags are left as they are.
pub open spec fn and_spec(s: MachineState, i: u16) -> MachineState {
    let a = s.regs[field_sr1(i)];
    let b = if imm_mode(i) { imm5(i) } else { s.regs[field_sr2(i)] };
    with_reg(s, field_dr(i), a & b)
}

/// NOT: DR = the bitwise complement of SR; sets the flags.
pub open spec fn not_spec(s: MachineState, i: u16) -> MachineState {
    with_result(s, field_dr(i), !s.regs[field_sr1(i)])
}

/// Whether BR's n, z and p bits (11, 10, 9) select the flag in `cond`.
pub open spec fn branch_taken(i: u16, cond: u16) -> bool {
    ||| (i >> 11u16) & 1 == 1 && cond == 4
    ||| (i >> 10u16) & 1 == 1 && cond == 2
    ||| (i >> 9u16) & 1 == 1 && cond == 1
}

/// BR: PC += offset9 when a selected flag is the current one.
pub open spec fn br_spec(s: MachineState, i: u16) -> MachineState {
    if branch_taken(i, s.regs[COND_SLOT as int]) {
        with_reg(s, PC_SLOT as int, wadd(pc(s), offset9(i)))
    } else {
        s
    }
}

/// JMP (and RET, with base R7): PC = BaseR.
pub open spec fn jmp_spec(s: MachineState, i: u16) -> MachineState {
    with_reg(s, PC_SLOT as int, s.regs[field_sr1(i)])
}

/// JSR / JSRR: R7 = PC; then PC = PC + offset11, or PC = BaseR as it reads
/// after R7 was written.
pub open spec fn jsr_spec(s: MachineState, i: u16) -> MachineState {
    let linked = with_reg(s, LINK_SLOT as int, pc(s));
    if long_mode(i) {
        with_reg(linked, PC_SLOT as int, wadd(pc(s), offset11(i)))
    } else {
        with_reg(linked, PC_SLOT as int, linked.regs[field_sr1(i)])
    }
}

/// LD: DR = Memory[PC + offset9]; sets the flags.
pub open spec fn ld_spec(s: MachineState, i: u16) -> MachineState {
    let (s1, v) = load(s, wadd(pc(s), offset9(i)));
    with_result(s1, field_dr(i), v)
}

/// LDI: DR = Memory[Memory[PC + offset9]]; sets the flags.
pub open spec fn ldi_spec(s: MachineState, i: u16) -> MachineState {
    let (s1, a) = load(s, wadd(pc(s), offset9(i)));
    let (s2, v) = load(s1, a);
    with_result(s2, field_dr(i), v)
}

/// LDR: DR = Memory[BaseR + offset6]; sets the flags.
pub open spec fn ldr_spec(s: MachineState, i: u16) -> MachineState {
    let (s1, v) = load(s, wadd(s.regs[field_sr1(i)], offset6(i)));
    with_result(s1, field_dr(i), v)
}

/// LEA: DR = PC + offset9, with no memory access; sets the flags.
pub open spec fn lea_spec(s: MachineState, i: u16) -> MachineState {
    with_result(s, field_dr(i), wadd(pc(s), offset9(i)))
}

/// ST: Memory[PC + offset9] = SR.
pub open spec fn st_spec(s: MachineState, i: u16) -> MachineState {
    store(s, wadd(pc(s), offset9(i)), s.regs[field_dr(i)])
}

/// STI: Memory[Memory[PC + offset9]] = SR.
pub open spec fn sti_spec(s: MachineState, i: u16) -> MachineState {
    let (s1, a) = load(s, wadd(pc(s), offset9(i)));
    store(s1, a, s1.regs[field_dr(i)])
}

/// STR: Memory[BaseR + offset6] = SR.
pub open spec fn str_spec(s: MachineState, i: u16) -> MachineState {
    store(s, wadd(s.regs[field_sr1(i)], offset6(i)), s.regs[field_dr(i)])
}

/// `s` stopped.
pub open spec fn stopped(s: MachineState) -> MachineState {
    MachineState { running: false, ..s }
}

/// `s` with `bytes` written to the output.
pub open spec fn emit(s: MachineState, bytes: Seq<u8>) -> MachineState {
    MachineState { out: s.out + bytes, ..s }
}

/// GETC and IN: R0 takes the character at hand, which is consumed, and the
/// flags are set; with none at hand nothing changes.
pub open spec fn read_key_spec(s: MachineState, prompt: bool) -> (MachineState, Outcome) {
    match s.key {
        Some(c) => (with_result(MachineState { key: None, ..s }, 0, c), Outcome::Executed),
        None => (s, Outcome::NeedsKey { prompt }),
    }
}

/// TRAP: the routine that the trap vector selects; an unknown vector stops
/// the machine as an illegal instruction does.
pub open spec fn trap_spec(s: MachineState, i: u16) -> (MachineState, Outcome) {
    let v = trap_vector(i);
    if v == TrapCode::Getc.spec_vector() {
        read_key_spec(s, false)
    } else if v == TrapCode::Out.spec_vector() {
        (emit(s, seq![low_byte(s.regs[0])]), Outcome::Executed)
    } else if v == TrapCode::Puts.spec_vector() {
        (emit(s, word_string(s.mem, s.regs[0], STRING_LIMIT as nat)), Outcome::Executed)
    } else if v == TrapCode::In.spec_vector() {
        read_key_spec(s, true)
    } else if v == TrapCode::Putsp.spec_vector() {
        (emit(s, packed_string(s.mem, s.regs[0], STRING_LIMIT as nat)), Outcome::Executed)
    } else if v == TrapCode::Halt.spec_vector() {
        (stopped(s), Outcome::Halted)
    } else {
        (stopped(s), Outcome::Aborted)
    }
}

/// Whether executing `op` would load from the status register with no
/// character at hand.
pub open spec fn execute_polls(s: MachineState, op: OpCode, i: u16) -> bool {
    match op {
        OpCode::Ld => polls_empty(s, wadd(pc(s), offset9(i))),
        OpCode::Ldr => polls_empty(s, wadd(s.regs[field_sr1(i)], offset6(i))),
        OpCode::Sti => polls_empty(s, wadd(pc(s), offset9(i))),
        OpCode::Ldi => {
            let a = wadd(pc(s), offset9(i));
            polls_empty(s, a) || polls_empty(load(s, a).0, load(s, a).1)
        },
        _ => false,
    }
}

/// The outcome reported for an instruction that needs no character and does
/// not stop the machine.
pub open spec fn plain_outcome(s: MachineState, op: OpCode, i: u16) -> Outcome {
    if execute_polls(s, op, i) { Outcome::Polled } else { Outcome::Executed }
}

/// The effect of executing instruction `i`, decoded as `op`.
pub open spec fn execute_spec(s: MachineState, op: OpCode, i: u16) -> (MachineState, Outcome) {
    let o = plain_outcome(s, op, i);
    match op {
        OpCode::Add => (add_spec(s, i), o),
        OpCode::And => (and_spec(s, i), o),
        OpCode::Not => (not_spec(s, i), o),
        OpCode::Br => (br_spec(s, i), o),
        OpCode::Jmp => (jmp_spec(s, i), o),
        OpCode::Jsr => (jsr_spec(s, i), o),
        OpCode::Ld => (ld_spec(s, i), o),
        OpCode::Ldi => (ldi_spec(s, i), o),
        OpCode::Ldr => (ldr_spec(s, i), o),
        OpCode::Lea => (lea_spec(s, i), o),
        OpCode::St => (st_spec(s, i), o),
        OpCode::Sti => (sti_spec(s, i), o),
        OpCode::Str => (str_spec(s, i), o),
        OpCode::Trap => trap_spec(s, i),
        OpCode::Rti | OpCode::Res => (stopped(s), Outcome::Aborted),
    }
}

/// Whether the instruction at PC is GETC or IN while no character is at hand.
pub open spec fn awaits_key(s: MachineState) -> bool {
    let w = s.mem[pc(s) as int];
    &&& s.key is None
    &&& pc(s) != KBSR
    &&& opcode_of(w) == OpCode::Trap
    &&& (trap_vector(w) == TrapCode::Getc.spec_vector() || trap_vector(w)
        == TrapCode::In.spec_vector())
}

/// One cycle: fetch the word at PC, advance PC by one, then execute the word.
/// A stopped machine, or one whose next instruction waits for a character,
/// is left unchanged.
pub open spec fn step_spec(s: MachineState) -> (MachineState, Outcome) {
    if !s.running {
        (s, Outcome::NotRunning)
    } else if awaits_key(s) {
        (s, Outcome::NeedsKey { prompt: trap_vector(s.mem[pc(s) as int]) == TrapCode::In.spec_vector() })
    } else {
        let (s1, w) = load(s, pc(s));
        let s2 = with_reg(s1, PC_SLOT as int, wadd(pc(s), 1));
        let (s3, o) = execute_spec(s2, opcode_of(w), w);
        if polls_empty(s, pc(s)) && o == Outcome::Executed {
            (s3, Outcome::Polled)
        } else {
            (s3, o)
        }
    }
}

/// Up to `n` cycles, stopping after the first one whose outcome is not
/// `Executed` or that leaves output for the host to take.
pub open spec fn run_spec(s: MachineState, n: nat) -> (MachineState, Outcome)
    decreases n,
{
    if n == 0 {
        (s, Outcome::Executed)
    } else {
        let (s1, o) = step_spec(s);
        if o != Outcome::Executed || s1.out.len() > 0 {
            (s1, o)
        } else {
            run_spec(s1, (n - 1) as nat)
        }
    }
}

/// The state of a newly built machine: memory zero-filled, every register 0
/// but PC at the start address and the condition register at Zero, running,
/// with no character at hand and no output.
pub open spec fn initial_state() -> MachineState {
    MachineState {
        regs: Seq::new(11, |r: int| if r == PC_SLOT as int { PC_START } else if r == COND_SLOT as int { 2u16 } else { 0u16 }),
        mem: Seq::new(MEMORY_SIZE as nat, |a: int| 0u16),
        running: true,
        key: None,
        out: seq![],
    }
}

} // verus!

verus! {

/// The opcode of `i` is the one whose code is the top four bits of `i`.
pub proof fn lemma_opcode_of(i: u16)
    ensures
        opcode_of(i).spec_code() == i >> 12u16,
        i >> 12u16 < 16,
{
    assert(i >> 12u16 < 16) by (bit_vector);
}

} // verus!
