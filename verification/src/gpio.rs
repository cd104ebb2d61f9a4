//! GPIO pins of the LPC55 and the register writes that drive them.

use vstd::prelude::*;

verus! {

/// Number of GPIO banks that the driver addresses.
pub const BANK_COUNT: usize = 2;

/// Number of pins in one GPIO bank (one bit each in a 32-bit register).
pub const PINS_PER_BANK: u8 = 32;

/// Logical level of a pin.
#[derive(Debug, Eq, PartialEq, Clone, Copy, Structural)]
pub enum Level {
    /// Logical low.
    Low,
    /// Logical high.
    High,
}

/// A GPIO bank.
#[derive(Debug, Eq, PartialEq, Clone, Copy, Structural)]
pub enum Bank {
    /// Bank 0.
    Bank0,
    /// Bank 1.
    Bank1,
}

impl Bank {
    /// The register index of the bank.
    pub open spec fn index_spec(self) -> nat {
        match self {
            Bank::Bank0 => 0,
            Bank::Bank1 => 1,
        }
    }

    /// Index of this bank in the per-bank register arrays.
    pub fn to_index(&self) -> (r: usize)
        ensures
            r == self.index_spec(),
            r < BANK_COUNT,
    {
        match self {
            Bank::Bank0 => 0,
            Bank::Bank1 => 1,
        }
    }
}

/// The single-bit mask of pin `n` in its bank's registers.
pub open spec fn pin_mask(n: u8) -> u32 {
    1u32 << n
}

/// The per-bank GPIO registers that a driver writes.
#[derive(Debug, Eq, PartialEq, Clone, Copy, Structural)]
pub enum GpioRegister {
    /// `DIR`: direction register, written whole (a set bit makes the pin an output).
    Dir,
    /// `SET`: each set bit drives the corresponding output high.
    SetBits,
    /// `CLR`: each set bit drives the corresponding output low.
    ClrBits,
    /// `NOT`: each set bit inverts the corresponding output.
    NotBits,
}

/// One write of a 32-bit word to a per-bank GPIO register.
#[derive(Debug, Eq, PartialEq, Clone, Copy, Structural)]
pub struct GpioWrite {
    pub register: GpioRegister,
    pub bank: usize,
    pub bits: u32,
}

/// The write of register `register` of `bank` with the mask of pin `n`.
pub open spec fn pin_write(register: GpioRegister, bank: Bank, n: u8) -> GpioWrite {
    GpioWrite { register, bank: bank.index_spec() as usize, bits: pin_mask(n) }
}

/// What a GPIO block holds: per bank, the direction word and the output word.
pub struct GpioState {
    pub dir: Seq<u32>,
    pub out: Seq<u32>,
}

/// A state that holds a word for each bank.
pub open spec fn state_wf(s: GpioState) -> bool {
    s.dir.len() == BANK_COUNT && s.out.len() == BANK_COUNT
}

/// The effect of one register write on the GPIO block.
pub open spec fn apply_write(s: GpioState, w: GpioWrite) -> GpioState {
    let b = w.bank as int;
    match w.register {
        GpioRegister::Dir => GpioState { dir: s.dir.update(b, w.bits), out: s.out },
        GpioRegister::SetBits => GpioState { dir: s.dir, out: s.out.update(b, s.out[b] | w.bits) },
        GpioRegister::ClrBits => GpioState { dir: s.dir, out: s.out.update(b, s.out[b] & !w.bits) },
        GpioRegister::NotBits => GpioState { dir: s.dir, out: s.out.update(b, s.out[b] ^ w.bits) },
    }
}

/// The effect of a sequence of writes, performed in order.
pub open spec fn apply_writes(s: GpioState, ws: Seq<GpioWrite>) -> GpioState
    decreases ws.len(),
{
    if ws.len() == 0 {
        s
    } else {
        apply_writes(apply_write(s, ws[0]), ws.drop_first())
    }
}

/// The level that the block drives on pin `n` of `bank`.
pub open spec fn driven_level(s: GpioState, bank: Bank, n: u8) -> Level {
    if s.out[bank.index_spec() as int] & pin_mask(n) != 0 {
        Level::High
    } else {
        Level::Low
    }
}

/// Whether pin `n` of `bank` is configured as an output.
pub open spec fn is_output(s: GpioState, bank: Bank, n: u8) -> bool {
    s.dir[bank.index_spec() as int] & pin_mask(n) != 0
}

/// What a pin is: its bank and its number within the bank.
pub trait SealedPin: Sized {
    spec fn bank_spec(&self) -> Bank;

    spec fn number_spec(&self) -> u8;

    fn pin_bank(&self) -> (r: Bank)
        ensures
            r == self.bank_spec(),
    ;

    fn pin_number(&self) -> (r: u8)
        ensures
            r == self.number_spec(),
    ;
}

/// Interface for a pin that can be configured by an [Output] driver, or converted to an [AnyPin].
pub trait Pin: SealedPin + Sized {
    /// Degrade to a generic pin struct.
    fn degrade(self) -> (r: AnyPin)
        ensures
            r.bank_spec() == self.bank_spec(),
            r.number_spec() == self.number_spec(),
    {
        AnyPin { pin_bank: self.pin_bank(), pin_number: self.pin_number() }
    }

    /// Returns the pin number within a bank.
    fn pin(&self) -> (r: u8)
        ensures
            r == self.number_spec(),
    {
        self.pin_number()
    }

    /// Returns the bank of this pin.
    fn bank(&self) -> (r: Bank)
        ensures
            r == self.bank_spec(),
    {
        self.pin_bank()
    }
}

/// Type-erased GPIO pin.
pub struct AnyPin {
    pin_bank: Bank,
    pin_number: u8,
}

impl AnyPin {
    /// Create a type-erased pin from its bank and number.
    ///
    /// Only one instance of a given pin should be in use at a time.
    pub fn steal(pin_bank: Bank, pin_number: u8) -> (r: Self)
        ensures
            r.bank_spec() == pin_bank,
            r.number_spec() == pin_number,
    {
        Self { pin_bank, pin_number }
    }
}

impl SealedPin for AnyPin {
    closed spec fn bank_spec(&self) -> Bank {
        self.pin_bank
    }

    closed spec fn number_spec(&self) -> u8 {
        self.pin_number
    }

    fn pin_bank(&self) -> (r: Bank) {
        self.pin_bank
    }

    fn pin_number(&self) -> (r: u8) {
        self.pin_number
    }
}

impl Pin for AnyPin {}

/// The red LED of the board: pin 6 of bank 1.
pub struct LedRed;

/// The green LED of the board: pin 7 of bank 1.
pub struct LedGreen;

impl SealedPin for LedRed {
    open spec fn bank_spec(&self) -> Bank {
        Bank::Bank1
    }

    open spec fn number_spec(&self) -> u8 {
        6
    }

    fn pin_bank(&self) -> (r: Bank) {
        Bank::Bank1
    }

    fn pin_number(&self) -> (r: u8) {
        6
    }
}

impl Pin for LedRed {}

impl SealedPin for LedGreen {
    open spec fn bank_spec(&self) -> Bank {
        Bank::Bank1
    }

    open spec fn number_spec(&self) -> u8 {
        7
    }

    fn pin_bank(&self) -> (r: Bank) {
        Bank::Bank1
    }

    fn pin_number(&self) -> (r: u8) {
        7
    }
}

impl Pin for LedGreen {}

/// A pin wrapper that can be configured as an output.
///
/// The pin starts disconnected; its initial output level is unspecified.
pub struct Flex {
    pin: AnyPin,
}

impl Flex {
    /// The bank of the wrapped pin.
    pub closed spec fn bank_view(&self) -> Bank {
        self.pin.bank_spec()
    }

    /// The number of the wrapped pin within its bank.
    pub closed spec fn number_view(&self) -> u8 {
        self.pin.number_spec()
    }

    /// Wrap the pin in a `Flex`.
    pub fn new<P: Pin>(pin: P) -> (r: Self)
        ensures
            r.bank_view() == pin.bank_spec(),
            r.number_view() == pin.number_spec(),
    {
        Self { pin: pin.degrade() }
    }

    /// The bank of the pin.
    pub fn pin_bank(&self) -> (r: Bank)
        ensures
            r == self.bank_view(),
    {
        self.pin.pin_bank()
    }

    /// The number of the pin within its bank.
    pub fn pin_number(&self) -> (r: u8)
        ensures
            r == self.number_view(),
    {
        self.pin.pin_number()
    }

    /// The mask of the pin in its bank's registers.
    pub fn bit(&self) -> (r: u32)
        requires
            self.number_view() < PINS_PER_BANK,
        ensures
            r == pin_mask(self.number_view()),
    {
        1u32 << self.pin.pin_number()
    }

    /// The write that makes the pin an output: the bank's direction register is
    /// written with the pin's mask, which makes every other pin of the bank an input.
    pub fn set_as_output(&self) -> (w: GpioWrite)
        requires
            self.number_view() < PINS_PER_BANK,
        ensures
            w == pin_write(GpioRegister::Dir, self.bank_view(), self.number_view()),
    {
        GpioWrite { register: GpioRegister::Dir, bank: self.pin_bank().to_index(), bits: self.bit() }
    }
}

/// The writes that set a pin up as an output driving `level`: first the direction
/// register, then `SET` for a high level or `CLR` for a low one.
pub open spec fn output_init_writes(bank: Bank, n: u8, level: Level) -> Seq<GpioWrite> {
    seq![
        pin_write(GpioRegister::Dir, bank, n),
        pin_write(
            match level {
                Level::High => GpioRegister::SetBits,
                Level::Low => GpioRegister::ClrBits,
            },
            bank,
            n,
        ),
    ]
}

/// GPIO output driver.
pub struct Output {
    pin: Flex,
}

impl Output {
    #[verifier::type_invariant]
    spec fn inv(self) -> bool {
        self.pin.number_view() < PINS_PER_BANK
    }

    /// The bank of the driven pin.
    pub closed spec fn bank_view(&self) -> Bank {
        self.pin.bank_view()
    }

    /// The number of the driven pin within its bank.
    pub closed spec fn number_view(&self) -> u8 {
        self.pin.number_view()
    }

    /// Create an output driver for `pin` with the provided initial level. Returns the
    /// driver and the register writes that configure the pin, to be performed in order.
    pub fn new<P: Pin>(pin: P, initial_output: Level) -> (r: (Self, Vec<GpioWrite>))
        requires
            pin.number_spec() < PINS_PER_BANK,
        ensures
            r.0.bank_view() == pin.bank_spec(),
            r.0.number_view() == pin.number_spec(),
            r.1@ == output_init_writes(pin.bank_spec(), pin.number_spec(), initial_output),
    {
        let pin = Flex::new(pin);
        let mut writes: Vec<GpioWrite> = Vec::new();
        writes.push(pin.set_as_output());
        let result = Self { pin };
        let level_write = match initial_output {
            Level::High => result.set_high(),
            Level::Low => result.set_low(),
        };
        writes.push(level_write);
        (result, writes)
    }

    /// The write that drives the pin high.
    pub fn set_high(&self) -> (w: GpioWrite)
        ensures
            w == pin_write(GpioRegister::SetBits, self.bank_view(), self.number_view()),
    {
        proof {
            use_type_invariant(self);
        }
        GpioWrite {
            register: GpioRegister::SetBits,
            bank: self.pin.pin_bank().to_index(),
            bits: self.pin.bit(),
        }
    }

    /// The write that drives the pin low.
    pub fn set_low(&self) -> (w: GpioWrite)
        ensures
            w == pin_write(GpioRegister::ClrBits, self.bank_view(), self.number_view()),
    {
        proof {
            use_type_invariant(self);
        }
        GpioWrite {
            register: GpioRegister::ClrBits,
            bank: self.pin.pin_bank().to_index(),
            bits: self.pin.bit(),
        }
    }

    /// The write that inverts the pin's level.
    pub fn toggle(&self) -> (w: GpioWrite)
        ensures
            w == pin_write(GpioRegister::NotBits, self.bank_view(), self.number_view()),
    {
        proof {
            use_type_invariant(self);
        }
        GpioWrite {
            register: GpioRegister::NotBits,
            bank: self.pin.pin_bank().to_index(),
            bits: self.pin.bit(),
        }
    }
}

proof fn lemma_mask_bits(x: u32, n: u8, m: u8)
    requires
        n < 32,
        m < 32,
    ensures
        (x | (1u32 << n)) & (1u32 << n) != 0,
        (x & !(1u32 << n)) & (1u32 << n) == 0,
        ((x ^ (1u32 << n)) & (1u32 << n) != 0) == ((x & (1u32 << n)) == 0),
        (x ^ (1u32 << n)) ^ (1u32 << n) == x,
        (1u32 << n) & (1u32 << n) != 0,
        m != n ==> ((x | (1u32 << n)) & (1u32 << m)) == (x & (1u32 << m)),
        m != n ==> ((x & !(1u32 << n)) & (1u32 << m)) == (x & (1u32 << m)),
        m != n ==> ((x ^ (1u32 << n)) & (1u32 << m)) == (x & (1u32 << m)),
{
    assert((x | (1u32 << n)) & (1u32 << n) != 0) by (bit_vector)
        requires
            n < 32,
    ;
    assert((x & !(1u32 << n)) & (1u32 << n) == 0) by (bit_vector)
        requires
            n < 32,
    ;
    assert(((x ^ (1u32 << n)) & (1u32 << n) != 0) == ((x & (1u32 << n)) == 0)) by (bit_vector)
        requires
            n < 32,
    ;
    assert((x ^ (1u32 << n)) ^ (1u32 << n) == x) by (bit_vector);
    assert((1u32 << n) & (1u32 << n) != 0) by (bit_vector)
        requires
            n < 32,
    ;
    assert(m != n ==> ((x | (1u32 << n)) & (1u32 << m)) == (x & (1u32 << m))) by (bit_vector)
        requires
            n < 32,
            m < 32,
    ;
    assert(m != n ==> ((x & !(1u32 << n)) & (1u32 << m)) == (x & (1u32 << m))) by (bit_vector)
        requires
            n < 32,
            m < 32,
    ;
    assert(m != n ==> ((x ^ (1u32 << n)) & (1u32 << m)) == (x & (1u32 << m))) by (bit_vector)
        requires
            n < 32,
            m < 32,
    ;
}

/// Setting a pin up as an output with `level` leaves it configured as an output and
/// driving `level`.
pub proof fn lemma_output_new_drives_initial_level(s: GpioState, bank: Bank, n: u8, level: Level)
    requires
        state_wf(s),
        n < PINS_PER_BANK,
    ensures
        ({
            let t = apply_writes(s, output_init_writes(bank, n, level));
            &&& state_wf(t)
            &&& is_output(t, bank, n)
            &&& driven_level(t, bank, n) == level
        }),
{
    let ws = output_init_writes(bank, n, level);
    let b = bank.index_spec() as int;
    let s1 = apply_write(s, ws[0]);
    let s2 = apply_write(s1, ws[1]);
    assert(ws.drop_first().drop_first().len() == 0);
    assert(apply_writes(s1, ws.drop_first()) == apply_writes(s2, ws.drop_first().drop_first()));
    lemma_mask_bits(s1.out[b], n, n);
    lemma_mask_bits(0, n, n);
}

/// Driving a pin high makes it read high; driving it low makes it read low;
/// inverting it flips its level.
pub proof fn lemma_level_writes(s: GpioState, bank: Bank, n: u8)
    requires
        state_wf(s),
        n < PINS_PER_BANK,
    ensures
        driven_level(apply_write(s, pin_write(GpioRegister::SetBits, bank, n)), bank, n)
            == Level::High,
        driven_level(apply_write(s, pin_write(GpioRegister::ClrBits, bank, n)), bank, n)
            == Level::Low,
        driven_level(apply_write(s, pin_write(GpioRegister::NotBits, bank, n)), bank, n) != driven_level(
            s,
            bank,
            n,
        ),
{
    lemma_mask_bits(s.out[bank.index_spec() as int], n, n);
}

/// A `SET`, `CLR` or `NOT` write for one pin changes neither the level nor the
/// direction of any other pin.
pub proof fn lemma_level_write_keeps_other_pins(
    s: GpioState,
    register: GpioRegister,
    bank: Bank,
    n: u8,
    other_bank: Bank,
    m: u8,
)
    requires
        state_wf(s),
        register != GpioRegister::Dir,
        n < PINS_PER_BANK,
        m < PINS_PER_BANK,
        other_bank != bank || m != n,
    ensures
        ({
            let t = apply_write(s, pin_write(register, bank, n));
            &&& driven_level(t, other_bank, m) == driven_level(s, other_bank, m)
            &&& is_output(t, other_bank, m) == is_output(s, other_bank, m)
        }),
{
    lemma_mask_bits(s.out[bank.index_spec() as int], n, m);
}

/// Inverting a pin twice restores the block to its previous state.
pub proof fn lemma_toggle_twice_restores(s: GpioState, bank: Bank, n: u8)
    requires
        state_wf(s),
        n < PINS_PER_BANK,
    ensures
        ({
            let w = pin_write(GpioRegister::NotBits, bank, n);
            apply_write(apply_write(s, w), w) == s
        }),
{
    let b = bank.index_spec() as int;
    let w = pin_write(GpioRegister::NotBits, bank, n);
    lemma_mask_bits(s.out[b], n, n);
    assert(apply_write(apply_write(s, w), w).out =~= s.out);
}

} // verus!
