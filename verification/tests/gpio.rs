use embassy_drivers::gpio::{
    AnyPin, Bank, Flex, GpioRegister, GpioWrite, LedGreen, LedRed, Level, Output, Pin,
};

fn word_after(word: u32, w: &GpioWrite) -> u32 {
    match w.register {
        GpioRegister::Dir => w.bits,
        GpioRegister::SetBits => word | w.bits,
        GpioRegister::ClrBits => word & !w.bits,
        GpioRegister::NotBits => word ^ w.bits,
    }
}

#[test]
fn bank_indices() {
    assert_eq!(Bank::Bank0.to_index(), 0);
    assert_eq!(Bank::Bank1.to_index(), 1);
}

#[test]
fn board_led_pins() {
    assert_eq!(LedRed.bank(), Bank::Bank1);
    assert_eq!(LedRed.pin(), 6);
    assert_eq!(LedGreen.bank(), Bank::Bank1);
    assert_eq!(LedGreen.pin(), 7);
    let any = LedGreen.degrade();
    assert_eq!(any.bank(), Bank::Bank1);
    assert_eq!(any.pin(), 7);
}

#[test]
fn flex_reports_pin_and_mask() {
    let flex = Flex::new(AnyPin::steal(Bank::Bank0, 31));
    assert_eq!(flex.pin_bank(), Bank::Bank0);
    assert_eq!(flex.pin_number(), 31);
    assert_eq!(flex.bit(), 0x8000_0000);
    let red = Flex::new(LedRed);
    assert_eq!(red.bit(), 0x40);
}

#[test]
fn set_as_output_writes_direction_word() {
    let flex = Flex::new(LedGreen);
    assert_eq!(
        flex.set_as_output(),
        GpioWrite { register: GpioRegister::Dir, bank: 1, bits: 0x80 }
    );
}

#[test]
fn output_new_high_writes_dir_then_set() {
    let (out, writes) = Output::new(LedRed, Level::High);
    assert_eq!(
        writes,
        vec![
            GpioWrite { register: GpioRegister::Dir, bank: 1, bits: 0x40 },
            GpioWrite { register: GpioRegister::SetBits, bank: 1, bits: 0x40 },
        ]
    );
    assert_eq!(out.set_high(), writes[1]);
}

#[test]
fn output_new_low_writes_dir_then_clr() {
    let (_, writes) = Output::new(AnyPin::steal(Bank::Bank0, 3), Level::Low);
    assert_eq!(
        writes,
        vec![
            GpioWrite { register: GpioRegister::Dir, bank: 0, bits: 0x8 },
            GpioWrite { register: GpioRegister::ClrBits, bank: 0, bits: 0x8 },
        ]
    );
}

#[test]
fn output_writes_drive_levels() {
    let (out, writes) = Output::new(LedRed, Level::Low);
    let mut dir = 0xffff_ffffu32;
    let mut word = 0xffff_ffffu32;
    for w in &writes {
        if w.register == GpioRegister::Dir {
            dir = word_after(dir, w);
        } else {
            word = word_after(word, w);
        }
    }
    assert_eq!(dir, 0x40);
    assert_eq!(word & 0x40, 0);
    assert_eq!(word, 0xffff_ffbf);
    word = word_after(word, &out.set_high());
    assert_eq!(word, 0xffff_ffff);
    word = word_after(word, &out.toggle());
    assert_eq!(word, 0xffff_ffbf);
    word = word_after(word, &out.toggle());
    assert_eq!(word, 0xffff_ffff);
    word = word_after(word, &out.set_low());
    assert_eq!(word, 0xffff_ffbf);
}

#[test]
fn level_writes_name_the_right_registers() {
    let (out, _) = Output::new(LedGreen, Level::High);
    assert_eq!(out.set_low(), GpioWrite { register: GpioRegister::ClrBits, bank: 1, bits: 0x80 });
    assert_eq!(out.toggle(), GpioWrite { register: GpioRegister::NotBits, bank: 1, bits: 0x80 });
}
