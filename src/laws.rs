//! Properties of the machine that relate several instructions, calls or
//! states, each proved over the model that the executable code is verified
//! against.
use vstd::prelude::*;

use crate::condition_flags::{flag_of, is_flag_bits};
use crate::image::{encode_image, image_fits, image_origin, image_words, place};
use crate::machine::{
    add_spec, execute_spec, field_dr, field_sr1, field_sr2, imm_mode, ldi_spec, load, offset9, read_key_spec,
    opcode_of, pc, sext, step_spec, valid, wadd, MachineState, COND_SLOT, LINK_SLOT, MEMORY_SIZE,
};
use crate::memory_mapped_registers::KBSR;
use crate::opcodes::OpCode;

verus! {

/// The register fields of an instruction name one of R0..R7.
pub proof fn lemma_fields_in_range(i: u16)
    ensures
        0 <= field_dr(i) < 8,
        0 <= field_sr1(i) < 8,
        0 <= field_sr2(i) < 8,
{
    assert((i >> 9u16) & 7 < 8) by (bit_vector);
    assert((i >> 6u16) & 7 < 8) by (bit_vector);
    assert(i & 7 < 8) by (bit_vector);
}

/// ADD writes the sum of its operands modulo 2^16: SR1 + SR2 in register
/// mode, SR1 + the sign-extended five-bit immediate in immediate mode.
pub proof fn law_add_wraps(s: MachineState, i: u16)
    requires
        valid(s),
    ensures
        !imm_mode(i) ==> add_spec(s, i).regs[field_dr(i)] == (s.regs[field_sr1(i)]
            + s.regs[field_sr2(i)]) % 65536,
        imm_mode(i) ==> add_spec(s, i).regs[field_dr(i)] == (s.regs[field_sr1(i)] + sext(
            i & 0x1F,
            5,
        )) % 65536,
{
    lemma_fields_in_range(i);
}

/// Sign extension is idempotent, and widening all sixteen bits changes
/// nothing.
pub proof fn law_sign_extend_idempotent(x: u16, k: u16)
    requires
        1 <= k <= 16,
    ensures
        sext(sext(x, k), k) == sext(x, k),
        sext(x, 16) == x,
{
    assert(k < 16 && (x >> ((k - 1) as u16)) & 1 == 1 ==> ((x | (0xFFFFu16 << k)) >> ((k
        - 1) as u16)) & 1 == 1 && ((x | (0xFFFFu16 << k)) | (0xFFFFu16 << k)) == (x | (0xFFFFu16
        << k))) by (bit_vector)
        requires
            1 <= k <= 16,
    ;
}

/// After every instruction that sets the flags, the condition register holds
/// exactly one flag, the one that the destination register's new value
/// determines: Zero for 0, Negative when bit 15 is set, Positive otherwise.
pub proof fn law_flags_follow_result(s: MachineState, op: OpCode, i: u16)
    requires
        valid(s),
        op == OpCode::Add || op == OpCode::Not || op == OpCode::Ld || op == OpCode::Ldi || op
            == OpCode::Ldr || op == OpCode::Lea,
    ensures
        ({
            let t = execute_spec(s, op, i).0;
            &&& t.regs[COND_SLOT as int] == flag_of(t.regs[field_dr(i)]).spec_bits()
            &&& is_flag_bits(t.regs[COND_SLOT as int])
        }),
{
    lemma_fields_in_range(i);
}

/// GETC and IN, when they consume a character, set the flags from the value
/// they leave in R0.
pub proof fn law_key_read_sets_flags(s: MachineState, prompt: bool)
    requires
        valid(s),
        s.key is Some,
    ensures
        ({
            let t = read_key_spec(s, prompt).0;
            &&& t.regs[COND_SLOT as int] == flag_of(t.regs[0]).spec_bits()
            &&& is_flag_bits(t.regs[COND_SLOT as int])
        }),
{
}

/// Every cycle keeps the machine's shape, and so keeps exactly one flag in
/// the condition register.
pub proof fn law_step_keeps_one_flag(s: MachineState)
    requires
        valid(s),
    ensures
        valid(step_spec(s).0),
{
    let w = load(s, pc(s)).1;
    lemma_fields_in_range(w);
}

/// LDI loads twice in a chain: the value it writes is what a load finds at
/// the address that a load at PC + offset9 returned; away from the keyboard
/// registers that is Memory[Memory[PC + offset9]].
pub proof fn law_ldi_is_two_loads(s: MachineState, i: u16)
    requires
        valid(s),
    ensures
        ({
            let a = wadd(pc(s), offset9(i));
            let first = load(s, a);
            let second = load(first.0, first.1);
            &&& ldi_spec(s, i).regs[field_dr(i)] == second.1
            &&& ldi_spec(s, i).mem == second.0.mem
            &&& (a != KBSR && s.mem[a as int] != KBSR) ==> ldi_spec(s, i).regs[field_dr(i)]
                == s.mem[s.mem[a as int] as int]
        }),
{
    lemma_fields_in_range(i);
}

/// A cycle that executes JSR or JSRR leaves in R7 the address after the
/// instruction, the PC as the fetch advanced it, whatever the jump target.
pub proof fn law_jsr_links_next_pc(s: MachineState)
    requires
        valid(s),
        s.running,
        opcode_of(load(s, pc(s)).1) == OpCode::Jsr,
    ensures
        step_spec(s).0.regs[LINK_SLOT as int] == wadd(pc(s), 1),
{
    let w = load(s, pc(s)).1;
    lemma_fields_in_range(w);
}

/// An image made of an origin and words loads back as those words at that
/// origin, whenever they fit in memory.
pub proof fn law_image_round_trip(origin: u16, words: Seq<u16>, mem: Seq<u16>)
    requires
        origin + words.len() <= MEMORY_SIZE,
        mem.len() == MEMORY_SIZE,
    ensures
        image_fits(encode_image(origin, words)),
        image_origin(encode_image(origin, words)) == origin,
        image_words(encode_image(origin, words)) == words,
        forall|i: int|
            0 <= i < words.len() ==> #[trigger] place(
                mem,
                image_origin(encode_image(origin, words)) as int,
                image_words(encode_image(origin, words)),
            )[origin + i] == words[i],
{
    let b = encode_image(origin, words);
    assert(image_words(b) =~= words) by {
        assert forall|i: int| 0 <= i < words.len() implies #[trigger] image_words(b)[i]
            == words[i] by {
            assert((2 + 2 * i - 2) % 2 == 0 && (2 + 2 * i - 2) / 2 == i);
            assert((3 + 2 * i - 2) % 2 == 1 && (3 + 2 * i - 2) / 2 == i);
        }
    }
}

} // verus!
