use spu_emu::ram::Ram;
use spu_emu::rom::Rom;
use spu_emu::spu::{Opcode, SPU};

fn machine(program: Vec<u16>) -> SPU {
    let mut rom: Rom = Rom::new();
    rom.load(program);
    SPU::new(rom, Ram::new())
}

#[test]
fn new_engine_starts_cleared() {
    let spu = machine(vec![0x6123]);
    assert_eq!(0, spu.get_program_counter());
    assert_eq!(0, spu.get_register_x());
    assert_eq!(0, spu.get_register_y());
    assert_eq!(0, spu.get_register_p());
    assert!(!spu.is_carry_flag());
    assert!(!spu.is_zero_flag());
}

#[test]
fn add_of_zeros_sets_zero_flag() {
    let mut spu = machine(vec![0x6000, 0x7000, 0x0000, 0xD000]);
    assert_eq!(5, spu.execute(None));
    assert_eq!(0, spu.get_register_x());
    assert!(spu.is_zero_flag());
    assert!(!spu.is_carry_flag());
}

#[test]
fn add_overflow_wraps_and_sets_carry() {
    // NOT of 0 gives 0xFFFF; adding 1 wraps to 0.
    let mut spu = machine(vec![0x6000, 0x5000, 0x7001, 0x0000, 0xD000]);
    assert_eq!(7, spu.execute(None));
    assert_eq!(0, spu.get_register_x());
    assert!(spu.is_carry_flag());
    assert!(spu.is_zero_flag());
}

#[test]
fn sub_underflow_wraps_and_sets_carry() {
    let mut spu = machine(vec![0x6000, 0x7001, 0x1000, 0xD000]);
    spu.execute(None);
    assert_eq!(0xFFFF, spu.get_register_x());
    assert!(spu.is_carry_flag());
    assert!(!spu.is_zero_flag());
}

#[test]
fn not_clears_zero_flag_on_nonzero_result() {
    let mut spu = machine(vec![0x6001, 0x5000, 0xD000]);
    spu.execute(None);
    assert_eq!(0xFFFE, spu.get_register_x());
    assert!(!spu.is_zero_flag());
}

#[test]
fn zero_flag_ignores_register_y() {
    // X AND Y is zero while Y is not.
    let mut spu = machine(vec![0x6001, 0x7002, 0x2000, 0xD000]);
    spu.execute(None);
    assert_eq!(0, spu.get_register_x());
    assert_eq!(2, spu.get_register_y());
    assert!(spu.is_zero_flag());
}

#[test]
fn jmp_ignores_flags() {
    // Carry and zero both set before the jump.
    let mut spu = machine(vec![0x6000, 0x5000, 0x7001, 0x0000, 0xA0AB]);
    assert_eq!(8, spu.execute(Some(7)));
    assert!(spu.is_carry_flag());
    assert!(spu.is_zero_flag());
    assert_eq!(0x00AB, spu.get_program_counter());
}

#[test]
fn jic_not_taken_falls_through_at_same_cost() {
    let mut spu = machine(vec![0x6001, 0x7001, 0x0000, 0xBFF0]);
    assert_eq!(6, spu.execute(Some(5)));
    assert!(!spu.is_carry_flag());
    assert_eq!(4, spu.get_program_counter());
}

#[test]
fn jiz_not_taken_falls_through_at_same_cost() {
    let mut spu = machine(vec![0x6001, 0x7001, 0x0000, 0xCFF0]);
    assert_eq!(6, spu.execute(Some(5)));
    assert!(!spu.is_zero_flag());
    assert_eq!(4, spu.get_program_counter());
}

#[test]
fn jiz_taken_costs_two_cycles() {
    let mut spu = machine(vec![0x6FFF, 0x7FFF, 0x1000, 0xCFF0]);
    assert_eq!(6, spu.execute(Some(5)));
    assert_eq!(0x0FF0, spu.get_program_counter());
}

#[test]
fn memory_instructions_set_register_p() {
    let mut spu = machine(vec![0x6007, 0x8005, 0xD000]);
    assert_eq!(7, spu.execute(None));
    assert_eq!(5, spu.get_register_p());
    assert_eq!(7, spu.get_ram().get(5));
    let mut spu = machine(vec![0x7009, 0x9003, 0xF003, 0xE0C0, 0xD000]);
    spu.execute(None);
    assert_eq!(0x00C0, spu.get_register_p());
    assert_eq!(9, spu.get_register_y());
    assert_eq!(0, spu.get_register_x());
}

#[test]
fn hlt_counts_every_cost_up_to_its_fetch() {
    // LDX_I 1 + STX 5 + JMP 2 + HLT 1.
    let mut spu = machine(vec![0x6001, 0x8000, 0xA004, 0x0000, 0xD000]);
    assert_eq!(9, spu.execute(None));
    assert_eq!(5, spu.get_program_counter());
    assert_eq!(1, spu.get_register_x());
}

#[test]
fn hlt_stops_before_budget() {
    let mut spu = machine(vec![0xD000, 0x6005]);
    assert_eq!(1, spu.execute(Some(100)));
    assert_eq!(1, spu.get_program_counter());
    assert_eq!(0, spu.get_register_x());
}

#[test]
fn zero_budget_runs_until_halt() {
    let mut spu = machine(vec![0x6003, 0x7004, 0x0000, 0xD000]);
    assert_eq!(5, spu.execute(Some(0)));
    assert_eq!(7, spu.get_register_x());
}

#[test]
fn budget_checked_before_each_fetch() {
    let mut spu = machine(vec![0x6003, 0x8010, 0x6001]);
    assert_eq!(6, spu.execute(Some(2)));
    assert_eq!(2, spu.get_program_counter());
    assert_eq!(3, spu.get_ram().get(0x10));
}

#[test]
fn execute_resumes_from_program_counter() {
    let mut spu = machine(vec![0x6001, 0x7002, 0x0000, 0xD000]);
    assert_eq!(1, spu.execute(Some(1)));
    assert_eq!(1, spu.get_program_counter());
    assert_eq!(4, spu.execute(None));
    assert_eq!(3, spu.get_register_x());
}

#[test]
fn store_past_ram_is_discarded() {
    let mut spu = machine(vec![0x6055, 0x80C0, 0x8FFF, 0xE0C0, 0xD000]);
    spu.execute(None);
    assert_eq!(0x00C0, spu.get_register_p());
    assert_eq!(0, spu.get_register_x());
    for i in 0..192u16 {
        assert_eq!(0, spu.get_ram().get(i));
    }
}

#[test]
fn ram_out_of_range() {
    let mut ram = Ram::new();
    ram.set(42, 191);
    ram.set(7, 192);
    ram.set(9, 0xFFFF);
    assert_eq!(42, ram.get(191));
    assert_eq!(0, ram.get(192));
    assert_eq!(0, ram.get(0xFFFF));
    assert_eq!(0, ram.get(0));
}

#[test]
fn reset_keeps_memories_and_register_p() {
    let mut spu = machine(vec![0x6003, 0x8004, 0x7001, 0x0000, 0xD000]);
    assert_eq!(10, spu.execute(None));
    spu.reset();
    assert_eq!(0, spu.get_program_counter());
    assert_eq!(0, spu.get_register_x());
    assert_eq!(0, spu.get_register_y());
    assert!(!spu.is_carry_flag());
    assert!(!spu.is_zero_flag());
    assert_eq!(4, spu.get_register_p());
    assert_eq!(3, spu.get_ram().get(4));
    // The program is still there: running again gives the same result.
    assert_eq!(10, spu.execute(None));
    assert_eq!(4, spu.get_register_x());
}

#[test]
fn rom_load_pads_and_truncates() {
    let mut rom = Rom::new();
    rom.load(vec![1, 2, 3]);
    assert_eq!(1, rom.get(0));
    assert_eq!(3, rom.get(2));
    assert_eq!(0, rom.get(3));
    assert_eq!(0, rom.get(191));
    assert_eq!(0, rom.get(192));
    let long: Vec<u16> = (0..300u16).map(|i| i + 1).collect();
    rom.load(long);
    assert_eq!(192, rom.get(191));
    assert_eq!(0, rom.get(192));
    rom.load(vec![5]);
    assert_eq!(5, rom.get(0));
    assert_eq!(0, rom.get(1));
}

#[test]
fn rom_set_writes_in_range_only() {
    let mut rom = Rom::new();
    rom._set(0xD000, 3);
    rom._set(0x1234, 500);
    assert_eq!(0xD000, rom.get(3));
    assert_eq!(0, rom.get(500));
}

#[test]
fn rom_loads_bytes_low_byte_first() {
    let mut rom = Rom::new();
    rom.load_from_bytes(&vec![0x02, 0x60, 0x34, 0x12, 0xFF]);
    assert_eq!(0x6002, rom.get(0));
    assert_eq!(0x1234, rom.get(1));
    assert_eq!(0, rom.get(2));
}

#[test]
fn opcode_from_nibble() {
    assert_eq!(Opcode::Add, Opcode::from_nibble(0));
    assert_eq!(Opcode::Jic, Opcode::from_nibble(11));
    assert_eq!(Opcode::Hlt, Opcode::from_nibble(13));
    assert_eq!(Opcode::LdyA, Opcode::from_nibble(15));
}
