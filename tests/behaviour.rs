use lc3_vm::condition_flags::{flag_for, ConditionFlag};
use lc3_vm::image::{word_from_be_bytes, LoadError};
use lc3_vm::machine::{Outcome, PC_START};
use lc3_vm::memory_mapped_registers::{MemoryMappedRegister, KBDDR, KBSR};
use lc3_vm::opcodes::OpCode;
use lc3_vm::registers::Register;
use lc3_vm::trap_codes::TrapCode;
use lc3_vm::vm::VM;

fn general_registers(vm: &VM) -> Vec<u16> {
    [
        Register::R0,
        Register::R1,
        Register::R2,
        Register::R3,
        Register::R4,
        Register::R5,
        Register::R6,
        Register::R7,
        Register::PC,
        Register::Cond,
    ]
    .iter()
    .map(|r| vm.reg(*r))
    .collect()
}

fn machine_with_program(words: &[u16]) -> VM {
    let mut vm = VM::new();
    for (i, w) in words.iter().enumerate() {
        vm.mem_write(PC_START + i as u16, *w);
    }
    vm
}

#[test]
fn new_machine_starts_at_origin_with_zero_flag() {
    let vm = VM::new();
    assert_eq!(vm.reg(Register::PC), 0x3000);
    assert_eq!(vm.reg(Register::Cond), 2);
    assert_eq!(vm.reg(Register::R0), 0);
    assert_eq!(vm.memory_at(0xFFFF), 0);
    assert!(vm.is_running());
}

#[test]
fn sign_extend_widens_negative_values() {
    assert_eq!(VM::sign_extend(0b1_1111, 5), 0xFFFF);
    assert_eq!(VM::sign_extend(0b1_0000, 5), 0xFFF0);
    assert_eq!(VM::sign_extend(0b0_1010, 5), 0b0_1010);
    assert_eq!(VM::sign_extend(0x1FE, 9), 0xFFFE);
    assert_eq!(VM::sign_extend(0x400, 11), 0xFC00);
    assert_eq!(VM::sign_extend(0x8000, 16), 0x8000);
}

#[test]
fn sign_extend_is_idempotent_on_samples() {
    for k in 1..=16u16 {
        for x in [0u16, 1, 0x10, 0x1F, 0x100, 0x1FF, 0x7FF, 0x8000, 0xFFFF] {
            let once = VM::sign_extend(x, k);
            assert_eq!(VM::sign_extend(once, k), once);
        }
        assert_eq!(VM::sign_extend(0xABCD, 16), 0xABCD);
    }
}

#[test]
fn add_wraps_around_sixteen_bits() {
    let mut vm = VM::new();
    vm.set_reg(Register::R1, 0xFFFF);
    vm.set_reg(Register::R2, 2);
    vm.add(0b0001_0000_0100_0010);
    assert_eq!(vm.reg(Register::R0), 1);
    assert_eq!(vm.reg(Register::Cond), ConditionFlag::Pos.bits());
}

#[test]
fn add_negative_immediate() {
    let mut vm = VM::new();
    vm.set_reg(Register::R1, 5);
    // imm5 = 0b11110 = -2
    vm.add(0b0001_0000_0111_1110);
    assert_eq!(vm.reg(Register::R0), 3);
    vm.set_reg(Register::R1, 1);
    vm.add(0b0001_0000_0111_1110);
    assert_eq!(vm.reg(Register::R0), 0xFFFF);
    assert_eq!(vm.reg(Register::Cond), ConditionFlag::Neg.bits());
}

#[test]
fn flags_follow_the_result() {
    let mut vm = VM::new();
    vm.set_reg(Register::R1, 0);
    vm.add(0b0001_0000_0110_0000);
    assert_eq!(vm.reg(Register::Cond), 2);
    vm.set_reg(Register::R1, 0x7FFF);
    vm.not(0b1001_0110_0111_1111);
    assert_eq!(vm.reg(Register::R3), 0x8000);
    assert_eq!(vm.reg(Register::Cond), 4);
    vm.lea(0b1110_0100_0000_0001);
    assert_eq!(vm.reg(Register::R2), 0x3001);
    assert_eq!(vm.reg(Register::Cond), 1);
    assert_eq!(flag_for(0), ConditionFlag::Zro);
    assert_eq!(flag_for(0x8001), ConditionFlag::Neg);
    assert_eq!(flag_for(0x7FFF), ConditionFlag::Pos);
}

#[test]
fn and_leaves_flags_alone() {
    let mut vm = VM::new();
    vm.set_reg(Register::R1, 0b1010);
    vm.set_reg(Register::R2, 0b0101);
    vm.and(0b0101_0000_0100_0010);
    assert_eq!(vm.reg(Register::R0), 0);
    assert_eq!(vm.reg(Register::Cond), 2);
    vm.set_cond(ConditionFlag::Neg);
    vm.and(0b0101_0000_0100_0010);
    assert_eq!(vm.reg(Register::Cond), 4);
}

#[test]
fn branch_not_taken_keeps_pc() {
    let mut vm = VM::new();
    vm.set_cond(ConditionFlag::Pos);
    vm.br(0b0000_1100_0000_0010);
    assert_eq!(vm.reg(Register::PC), 0x3000);
    vm.br(0b0000_0011_1111_1110);
    assert_eq!(vm.reg(Register::PC), 0x2FFE);
}

#[test]
fn jsrr_through_r7_keeps_the_link() {
    let mut vm = VM::new();
    vm.set_reg(Register::R7, 0x5000);
    vm.jsr(0b0100_0001_1100_0000);
    assert_eq!(vm.reg(Register::R7), 0x3000);
    assert_eq!(vm.reg(Register::PC), 0x3000);
}

#[test]
fn step_executes_add_scenario() {
    let mut vm = machine_with_program(&[0b0001_0000_0100_0010]);
    vm.set_reg(Register::R1, 5);
    vm.set_reg(Register::R2, 10);
    assert_eq!(vm.step(), Outcome::Executed);
    assert_eq!(vm.reg(Register::R0), 15);
    assert_eq!(vm.reg(Register::PC), 0x3001);
}

#[test]
fn step_executes_ldi_scenario() {
    let mut vm = machine_with_program(&[0b1010_0000_0000_0010]);
    // PC is 0x3001 once the instruction is fetched, so the pointer sits at 0x3003.
    vm.mem_write(0x3003, 0x3050);
    vm.mem_write(0x3050, 20);
    assert_eq!(vm.step(), Outcome::Executed);
    assert_eq!(vm.reg(Register::R0), 20);
}

#[test]
fn ldi_equals_two_loads() {
    let mut vm = VM::new();
    vm.mem_write(0x3002, 0x4000);
    vm.mem_write(0x4000, 0x8001);
    let mut other = VM::new();
    other.mem_write(0x3002, 0x4000);
    other.mem_write(0x4000, 0x8001);
    vm.ldi(0b1010_0000_0000_0010);
    other.ld(0b0010_0010_0000_0010);
    let pointer = other.reg(Register::R1);
    assert_eq!(vm.reg(Register::R0), other.mem_read(pointer));
    assert_eq!(vm.reg(Register::Cond), 4);
}

#[test]
fn jsr_links_the_incremented_pc() {
    let mut vm = machine_with_program(&[0b0100_1000_0001_0000]);
    assert_eq!(vm.step(), Outcome::Executed);
    assert_eq!(vm.reg(Register::R7), 0x3001);
    assert_eq!(vm.reg(Register::PC), 0x3011);
}

#[test]
fn illegal_opcodes_stop_without_changes() {
    for word in [0x8000u16, 0xD123] {
        let mut vm = machine_with_program(&[word]);
        vm.set_reg(Register::R3, 7);
        let before = general_registers(&vm);
        assert_eq!(vm.step(), Outcome::Aborted);
        assert!(!vm.is_running());
        let mut after = general_registers(&vm);
        // only the fetch moved the PC
        after[8] -= 1;
        assert_eq!(after, before);
        assert_eq!(vm.memory_at(0x3000), word);
        assert_eq!(vm.step(), Outcome::NotRunning);
    }
}

#[test]
fn execute_rti_changes_no_register() {
    let mut vm = VM::new();
    let before = general_registers(&vm);
    assert_eq!(vm.execute(OpCode::Rti, 0x8000), Outcome::Aborted);
    assert_eq!(general_registers(&vm), before);
}

#[test]
fn halt_trap_stops_and_keeps_registers() {
    let mut vm = VM::new();
    vm.set_reg(Register::R0, 9);
    let before = general_registers(&vm);
    assert_eq!(vm.trap(0xF025), Outcome::Halted);
    assert!(!vm.is_running());
    assert_eq!(general_registers(&vm), before);
}

#[test]
fn unknown_trap_vector_aborts() {
    let mut vm = VM::new();
    assert_eq!(vm.trap(0xF0FF), Outcome::Aborted);
    assert!(!vm.is_running());
}

#[test]
fn getc_waits_for_a_key_then_consumes_it() {
    let mut vm = machine_with_program(&[0xF020, 0xF025]);
    assert_eq!(vm.step(), Outcome::NeedsKey { prompt: false });
    assert_eq!(vm.reg(Register::PC), 0x3000);
    vm.supply_key('x' as u16);
    assert_eq!(vm.step(), Outcome::Executed);
    assert_eq!(vm.reg(Register::R0), 'x' as u16);
    assert_eq!(vm.reg(Register::Cond), 1);
    assert_eq!(vm.step(), Outcome::Halted);
}

#[test]
fn in_asks_for_a_prompt() {
    let mut vm = machine_with_program(&[0xF023]);
    assert_eq!(vm.step(), Outcome::NeedsKey { prompt: true });
    vm.supply_key(0);
    assert_eq!(vm.trap_in(), Outcome::Executed);
    assert_eq!(vm.reg(Register::R0), 0);
    assert_eq!(vm.reg(Register::Cond), 2);
    assert_eq!(vm.trap_getc(), Outcome::NeedsKey { prompt: false });
}

#[test]
fn status_register_polls_the_keyboard() {
    let mut vm = VM::new();
    vm.mem_write(KBSR, 0x1234);
    assert_eq!(vm.mem_read(KBSR), 0);
    vm.supply_key('q' as u16);
    assert_eq!(vm.mem_read(KBSR), 0x8000);
    assert_eq!(vm.mem_read(KBDDR), 'q' as u16);
    assert_eq!(vm.mem_read(KBSR), 0);
}

#[test]
fn loading_the_status_register_reports_an_empty_poll() {
    // LD R0, 0 at 0xFDFF: PC is 0xFE00 once the instruction is fetched
    let mut vm = VM::new();
    vm.set_reg(Register::PC, 0xFDFF);
    vm.mem_write(0xFDFF, 0b0010_0000_0000_0000);
    assert_eq!(vm.step(), Outcome::Polled);
    assert_eq!(vm.reg(Register::R0), 0);
    vm.set_reg(Register::PC, 0xFDFF);
    vm.supply_key('k' as u16);
    assert_eq!(vm.step(), Outcome::Executed);
    assert_eq!(vm.reg(Register::R0), 0x8000);
    assert_eq!(vm.memory_at(KBDDR), 'k' as u16);
}

#[test]
fn puts_stops_at_zero_word() {
    let mut vm = VM::new();
    vm.set_reg(Register::R0, 0x4000);
    vm.mem_write(0x4000, 0x0141);
    vm.mem_write(0x4001, 'b' as u16);
    vm.mem_write(0x4002, 0);
    vm.mem_write(0x4003, 'c' as u16);
    vm.trap_puts();
    assert_eq!(vm.take_output(), b"Ab".to_vec());
    assert_eq!(vm.take_output(), Vec::<u8>::new());
}

#[test]
fn puts_p_stops_at_zero_byte() {
    let mut vm = VM::new();
    vm.set_reg(Register::R0, 0x4000);
    vm.mem_write(0x4000, 0x6261);
    vm.mem_write(0x4001, 0x0063);
    vm.mem_write(0x4002, 0x6565);
    vm.trap_puts_p();
    assert_eq!(vm.take_output(), b"abc".to_vec());
    vm.mem_write(0x4000, 0x6100);
    vm.trap_puts_p();
    assert_eq!(vm.take_output(), Vec::<u8>::new());
}

#[test]
fn out_writes_low_byte() {
    let mut vm = VM::new();
    vm.set_reg(Register::R0, 0x1241);
    vm.trap_out();
    assert_eq!(vm.take_output(), vec![0x41]);
}

#[test]
fn run_stops_at_output_then_halt() {
    // LEA R0, 2; PUTS; HALT; "hi"
    let mut vm = machine_with_program(&[0xE002, 0xF022, 0xF025, 'h' as u16, 'i' as u16, 0]);
    assert_eq!(vm.run(100), Outcome::Executed);
    assert_eq!(vm.take_output(), b"hi".to_vec());
    assert_eq!(vm.run(100), Outcome::Halted);
    assert!(!vm.is_running());
    assert_eq!(vm.run(100), Outcome::NotRunning);
}

#[test]
fn run_respects_its_budget() {
    // BRnzp -1: a tight loop
    let mut vm = machine_with_program(&[0x0FFF]);
    assert_eq!(vm.run(1000), Outcome::Executed);
    assert_eq!(vm.reg(Register::PC), 0x3000);
    assert!(vm.is_running());
    assert_eq!(vm.run(0), Outcome::Executed);
}

#[test]
fn image_round_trip() {
    let mut vm = VM::new();
    let image = [0x30, 0x00, 0x12, 0x34, 0x56, 0x78];
    assert_eq!(vm.load_image(&image), Ok(()));
    assert_eq!(vm.memory_at(0x3000), 0x1234);
    assert_eq!(vm.memory_at(0x3001), 0x5678);
    assert_eq!(vm.memory_at(0x3002), 0);
}

#[test]
fn image_odd_trailing_byte_is_dropped() {
    let mut vm = VM::new();
    assert_eq!(vm.load_image(&[0x40, 0x00, 0xAB, 0xCD, 0xEF]), Ok(()));
    assert_eq!(vm.memory_at(0x4000), 0xABCD);
    assert_eq!(vm.memory_at(0x4001), 0);
}

#[test]
fn image_errors() {
    let mut vm = VM::new();
    assert_eq!(vm.load_image(&[]), Err(LoadError::MissingOrigin));
    assert_eq!(vm.load_image(&[0x30]), Err(LoadError::MissingOrigin));
    assert_eq!(vm.load_image(&[0xFF, 0xFF, 0, 1, 0, 2]), Err(LoadError::Overflow));
    assert_eq!(vm.memory_at(0xFFFF), 0);
    assert_eq!(vm.load_image(&[0xFF, 0xFF, 0, 1]), Ok(()));
    assert_eq!(vm.memory_at(0xFFFF), 1);
}

#[test]
fn later_images_overwrite_earlier_ones() {
    let mut vm = VM::new();
    assert_eq!(vm.load_image(&[0x30, 0x00, 0, 1, 0, 2]), Ok(()));
    assert_eq!(vm.load_image(&[0x30, 0x01, 0, 9]), Ok(()));
    assert_eq!(vm.memory_at(0x3000), 1);
    assert_eq!(vm.memory_at(0x3001), 9);
    assert_eq!(word_from_be_bytes(0x12, 0x34), 0x1234);
}

#[test]
fn codes_round_trip() {
    for v in 0..16u16 {
        let op = OpCode::from_u16(v).unwrap();
        assert_eq!(op.to_u16(), v);
        assert_eq!(VM::decode(v << 12 | 0x0ABC), op);
    }
    assert_eq!(OpCode::from_u16(16), None);
    assert_eq!(Register::from_u16(8), Some(Register::PC));
    assert_eq!(Register::from_u16(11), None);
    assert_eq!(Register::Count.index(), 10);
    assert_eq!(ConditionFlag::from_u16(4), Some(ConditionFlag::Neg));
    assert_eq!(ConditionFlag::from_u16(3), None);
    assert_eq!(TrapCode::from_u16(0x25), Some(TrapCode::Halt));
    assert_eq!(TrapCode::from_u16(0x26), None);
    assert_eq!(TrapCode::Putsp.vector(), 0x24);
    assert_eq!(MemoryMappedRegister::from_u16(0xFE02), Some(MemoryMappedRegister::Kbddr));
    assert_eq!(MemoryMappedRegister::Kbsr.address(), 0xFE00);
    assert_eq!(MemoryMappedRegister::from_u16(0xFE01), None);
}

#[test]
fn condition_register_rejects_other_patterns() {
    let mut vm = VM::new();
    assert!(!vm.set_reg(Register::Cond, 3));
    assert_eq!(vm.reg(Register::Cond), 2);
    assert!(vm.set_reg(Register::Cond, 4));
    assert_eq!(vm.reg(Register::Cond), 4);
}
