use mos6502::device::Ram;
use mos6502::processor::Processor;
use mos6502::registers::Status;

fn machine(program: Vec<u8>) -> Processor<Ram> {
    let processor: Processor<Ram> = Processor::with_load_address(program, 0x0000);
    assert_eq!(processor.get_registers().pc, 0x0000);
    assert_eq!(processor.get_registers().status.bits(), 0x20);
    processor
}

fn flag(processor: &Processor<Ram>, mask: u8) -> bool {
    processor.get_registers().status.contains(mask)
}

#[test]
fn immediate_load_of_zero_sets_zero_flag() {
    let mut processor = machine(vec![0xA9, 0x00]);
    processor.step().unwrap();
    assert_eq!(processor.get_registers().acc, 0x00);
    assert!(flag(&processor, Status::ZERO));
    assert!(!flag(&processor, Status::NEGATIVE));
    assert_eq!(processor.get_registers().pc, 0x0002);
}

#[test]
fn immediate_load_of_high_bit_sets_negative_flag() {
    let mut processor = machine(vec![0xA9, 0x80]);
    processor.step().unwrap();
    assert_eq!(processor.get_registers().acc, 0x80);
    assert!(!flag(&processor, Status::ZERO));
    assert!(flag(&processor, Status::NEGATIVE));
}

#[test]
fn immediate_load_of_plain_value_clears_both_flags() {
    let mut processor = machine(vec![0xA9, 0x42]);
    processor.step().unwrap();
    assert_eq!(processor.get_registers().acc, 0x42);
    assert!(!flag(&processor, Status::ZERO));
    assert!(!flag(&processor, Status::NEGATIVE));
    // nothing but the two flags is touched
    assert_eq!(processor.get_registers().status.bits(), 0x20);
}

#[test]
fn zero_page_store_then_load_round_trip() {
    let mut processor = machine(vec![0xA9, 0x42, 0x85, 0x10, 0xA5, 0x10]);
    processor.step().unwrap();
    processor.step().unwrap();
    assert_eq!(processor.get_mem(0x10).unwrap(), 0x42);
    processor.set_register().acc = 0x00;
    processor.step().unwrap();
    assert_eq!(processor.get_registers().acc, 0x42);
    assert_eq!(processor.get_mem(0x10).unwrap(), 0x42);
    assert_eq!(processor.get_registers().pc, 0x0006);
}

#[test]
fn zero_page_x_wraps_within_page_zero() {
    let mut processor = machine(vec![0xB5, 0x02]);
    processor.set_register().x = 0xFF;
    // (0x02 + 0xFF) mod 256 = 0x01, which holds the operand byte 0x02
    processor.set_mem(0x0101, 0x77).unwrap();
    processor.step().unwrap();
    assert_eq!(processor.get_registers().acc, 0x02);

    // the same with the program out of the way
    let mut processor: Processor<Ram> = Processor::with_load_address(vec![0xB5, 0x02], 0x0800);
    processor.set_register().x = 0xFF;
    processor.set_mem(0x0001, 0x5A).unwrap();
    processor.set_mem(0x0101, 0x77).unwrap();
    processor.step().unwrap();
    assert_eq!(processor.get_registers().acc, 0x5A);
}

#[test]
fn zero_page_y_wraps_within_page_zero() {
    let mut processor = machine(vec![0xB6, 0x80]);
    processor.set_register().y = 0x90;
    processor.set_mem(0x0010, 0x33).unwrap();
    processor.set_mem(0x0110, 0x44).unwrap();
    processor.step().unwrap();
    assert_eq!(processor.get_registers().x, 0x33);
}

#[test]
fn adc_signed_overflow_without_carry() {
    let mut processor = machine(vec![0x69, 0x50]);
    processor.set_register().acc = 0x50;
    processor.step().unwrap();
    assert_eq!(processor.get_registers().acc, 0xA0);
    assert!(!flag(&processor, Status::CARRY));
    assert!(flag(&processor, Status::OVERFLOW));
    assert!(flag(&processor, Status::NEGATIVE));
    assert!(!flag(&processor, Status::ZERO));
}

#[test]
fn adc_signed_overflow_with_carry_out() {
    let mut processor = machine(vec![0x69, 0x90]);
    processor.set_register().acc = 0xD0;
    processor.step().unwrap();
    assert_eq!(processor.get_registers().acc, 0x60);
    assert!(flag(&processor, Status::CARRY));
    assert!(flag(&processor, Status::OVERFLOW));
    assert!(!flag(&processor, Status::NEGATIVE));
    assert!(!flag(&processor, Status::ZERO));
}

#[test]
fn adc_adds_the_carry_in() {
    let mut processor = machine(vec![0x69, 0x00, 0x69, 0x01]);
    processor.set_register().acc = 0xFF;
    processor.set_register().status.insert(Status::CARRY);
    processor.step().unwrap();
    // 0xFF + 0x00 + 1 = 0x100
    assert_eq!(processor.get_registers().acc, 0x00);
    assert!(flag(&processor, Status::CARRY));
    assert!(flag(&processor, Status::ZERO));
    assert!(!flag(&processor, Status::OVERFLOW));
    assert!(!flag(&processor, Status::NEGATIVE));
    processor.step().unwrap();
    // 0x00 + 0x01 + 1 = 0x02
    assert_eq!(processor.get_registers().acc, 0x02);
    assert!(!flag(&processor, Status::CARRY));
    assert!(!flag(&processor, Status::ZERO));
}

#[test]
fn bit_takes_negative_and_overflow_from_operand() {
    let mut processor = machine(vec![0x24, 0x10]);
    processor.set_mem(0x10, 0xC0).unwrap();
    processor.set_register().acc = 0x00;
    processor.step().unwrap();
    assert!(flag(&processor, Status::ZERO));
    assert!(flag(&processor, Status::NEGATIVE));
    assert!(flag(&processor, Status::OVERFLOW));
    assert_eq!(processor.get_registers().acc, 0x00);
    assert_eq!(processor.get_mem(0x10).unwrap(), 0xC0);
}

#[test]
fn bit_leaves_accumulator_and_clears_flags() {
    let mut processor = machine(vec![0x2C, 0x00, 0x03]);
    processor.set_mem(0x0300, 0x01).unwrap();
    processor.set_register().acc = 0xFF;
    processor.set_register().status = Status::from_bits_truncate(0xFF);
    processor.step().unwrap();
    assert_eq!(processor.get_registers().acc, 0xFF);
    // Z, N and V cleared, everything else kept
    assert_eq!(processor.get_registers().status.bits(), 0xFF & !0x02 & !0x80 & !0x40);
}

#[test]
fn stack_holds_pushes_in_order() {
    let mut processor = machine(vec![0xA9, 0x11, 0x48, 0xA9, 0x22, 0x48, 0x68]);
    processor.set_register().sp = 0xFF;
    for _ in 0..4 {
        processor.step().unwrap();
    }
    assert_eq!(processor.get_registers().sp, 0xFD);
    processor.set_register().acc = 0x00;
    processor.step().unwrap();
    assert_eq!(processor.get_registers().acc, 0x22);
    assert_eq!(processor.get_registers().sp, 0xFE);
    assert_eq!(processor.get_mem(0x01FF).unwrap(), 0x11);
    assert_eq!(processor.get_mem(0x01FE).unwrap(), 0x22);
}

#[test]
fn indirect_x_pointer_wraps_within_page_zero() {
    // LDX #$FF; LDA ($02,X): the pointer lies at 0x01 and 0x02
    // there the program itself lies: 0xFF at 0x01 and 0xA1 at 0x02
    let mut processor = machine(vec![0xA2, 0xFF, 0xA1, 0x02]);
    processor.set_mem(0xA1FF, 0x99).unwrap();
    processor.set_mem(0x0101, 0x55).unwrap();
    processor.set_mem(0x0102, 0x55).unwrap();
    processor.set_mem(0x5555, 0x11).unwrap();
    processor.step().unwrap();
    processor.step().unwrap();
    assert_eq!(processor.get_registers().acc, 0x99);

    // the same with the program out of the way
    let mut processor: Processor<Ram> =
        Processor::with_load_address(vec![0xA2, 0xFF, 0xA1, 0x02], 0x0800);
    processor.set_mem(0x0001, 0x34).unwrap();
    processor.set_mem(0x0002, 0x12).unwrap();
    processor.set_mem(0x1234, 0x98).unwrap();
    processor.set_mem(0x0101, 0x55).unwrap();
    processor.set_mem(0x0102, 0x55).unwrap();
    processor.set_mem(0x5555, 0x11).unwrap();
    processor.step().unwrap();
    processor.step().unwrap();
    assert_eq!(processor.get_registers().acc, 0x98);
}

#[test]
fn indirect_x_pointer_at_end_of_page_takes_high_byte_from_start() {
    // pointer place 0xFF: low byte at 0x00FF, high byte at 0x0000
    let mut processor: Processor<Ram> = Processor::with_load_address(vec![0xA1, 0xF0], 0x0800);
    processor.set_register().x = 0x0F;
    processor.set_mem(0x00FF, 0x78).unwrap();
    processor.set_mem(0x0000, 0x56).unwrap();
    processor.set_mem(0x0100, 0x01).unwrap();
    processor.set_mem(0x5678, 0xAB).unwrap();
    processor.step().unwrap();
    assert_eq!(processor.get_registers().acc, 0xAB);
}

#[test]
fn indirect_y_pointer_at_end_of_page_takes_high_byte_from_start() {
    let mut processor: Processor<Ram> = Processor::with_load_address(vec![0xB1, 0xFF], 0x0800);
    processor.set_register().y = 0x02;
    processor.set_mem(0x00FF, 0xFF).unwrap();
    processor.set_mem(0x0000, 0x20).unwrap();
    processor.set_mem(0x0100, 0x30).unwrap();
    // base 0x20FF + 2 = 0x2101
    processor.set_mem(0x2101, 0xCD).unwrap();
    processor.step().unwrap();
    assert_eq!(processor.get_registers().acc, 0xCD);
}

#[test]
fn absolute_indexed_wraps_within_address_space() {
    // LDA $FFFF,X with X = 2 reads 0x0001
    let mut processor: Processor<Ram> =
        Processor::with_load_address(vec![0xBD, 0xFF, 0xFF], 0x0800);
    processor.set_register().x = 0x02;
    processor.set_mem(0x0001, 0x6E).unwrap();
    processor.step().unwrap();
    assert_eq!(processor.get_registers().acc, 0x6E);

    // LDA $FFFF,Y with Y = 1 reads 0x0000
    let mut processor: Processor<Ram> =
        Processor::with_load_address(vec![0xB9, 0xFF, 0xFF], 0x0800);
    processor.set_register().y = 0x01;
    processor.set_mem(0x0000, 0x6F).unwrap();
    processor.step().unwrap();
    assert_eq!(processor.get_registers().acc, 0x6F);
}

#[test]
fn absolute_operand_is_low_byte_first() {
    let mut processor = machine(vec![0xAD, 0x34, 0x12]);
    processor.set_mem(0x1234, 0x5A).unwrap();
    processor.set_mem(0x3412, 0xA5).unwrap();
    processor.step().unwrap();
    assert_eq!(processor.get_registers().acc, 0x5A);
    assert_eq!(processor.get_registers().pc, 0x0003);
}
