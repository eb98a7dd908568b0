use vstd::prelude::*;

verus! {

/// The six processor status flags.
#[derive(Clone, Copy, Debug, PartialEq, Eq, Structural)]
pub struct Flags {
    pub flag_carry: bool,
    pub flag_zero: bool,
    pub flag_interrupt_disable: bool,
    pub flag_decimal: bool,
    pub flag_overflow: bool,
    pub flag_negative: bool,
}

/// Names one status flag, as tested by the conditional branches.
#[derive(Clone, Copy, Debug, PartialEq, Eq, Structural)]
pub enum StatusFlag {
    Carry,
    Zero,
    InterruptDisable,
    Decimal,
    Overflow,
    Negative,
}

pub open spec fn bit(b: bool, weight: u8) -> u8 {
    if b {
        weight
    } else {
        0
    }
}

impl Flags {
    /// The flags at power-on: interrupts disabled, everything else clear.
    pub open spec fn power_on_spec() -> Flags {
        Flags {
            flag_carry: false,
            flag_zero: false,
            flag_interrupt_disable: true,
            flag_decimal: false,
            flag_overflow: false,
            flag_negative: false,
        }
    }

    /// The status byte: carry, zero, interrupt-disable and decimal in bits 0 to 3,
    /// bits 4 and 5 always set, overflow in bit 6, negative in bit 7.
    pub open spec fn byte_spec(self) -> u8 {
        bit(self.flag_carry, 1) | bit(self.flag_zero, 2) | bit(self.flag_interrupt_disable, 4)
            | bit(self.flag_decimal, 8) | 0x30u8 | bit(self.flag_overflow, 0x40) | bit(
            self.flag_negative,
            0x80,
        )
    }

    /// The flags a status byte holds; bits 4 and 5 are ignored.
    pub open spec fn from_byte_spec(b: u8) -> Flags {
        Flags {
            flag_carry: b & 1 != 0,
            flag_zero: b & 2 != 0,
            flag_interrupt_disable: b & 4 != 0,
            flag_decimal: b & 8 != 0,
            flag_overflow: b & 0x40 != 0,
            flag_negative: b & 0x80 != 0,
        }
    }

    /// The flags after a load, transfer, increment or decrement produced `value`.
    pub open spec fn with_result_spec(self, value: u8) -> Flags {
        Flags { flag_zero: value == 0, flag_negative: value > 127, ..self }
    }

    pub open spec fn get_spec(self, which: StatusFlag) -> bool {
        match which {
            StatusFlag::Carry => self.flag_carry,
            StatusFlag::Zero => self.flag_zero,
            StatusFlag::InterruptDisable => self.flag_interrupt_disable,
            StatusFlag::Decimal => self.flag_decimal,
            StatusFlag::Overflow => self.flag_overflow,
            StatusFlag::Negative => self.flag_negative,
        }
    }

    pub open spec fn set_spec(self, which: StatusFlag, value: bool) -> Flags {
        match which {
            StatusFlag::Carry => Flags { flag_carry: value, ..self },
            StatusFlag::Zero => Flags { flag_zero: value, ..self },
            StatusFlag::InterruptDisable => Flags { flag_interrupt_disable: value, ..self },
            StatusFlag::Decimal => Flags { flag_decimal: value, ..self },
            StatusFlag::Overflow => Flags { flag_overflow: value, ..self },
            StatusFlag::Negative => Flags { flag_negative: value, ..self },
        }
    }

    pub fn power_on() -> (r: Flags)
        ensures
            r == Flags::power_on_spec(),
    {
        Flags {
            flag_carry: false,
            flag_zero: false,
            flag_interrupt_disable: true,
            flag_decimal: false,
            flag_overflow: false,
            flag_negative: false,
        }
    }

    /// Packs the flags into a status byte.
    pub fn to_byte(&self) -> (r: u8)
        ensures
            r == self.byte_spec(),
    {
        let c: u8 = if self.flag_carry { 1 } else { 0 };
        let z: u8 = if self.flag_zero { 2 } else { 0 };
        let i: u8 = if self.flag_interrupt_disable { 4 } else { 0 };
        let d: u8 = if self.flag_decimal { 8 } else { 0 };
        let v: u8 = if self.flag_overflow { 0x40 } else { 0 };
        let n: u8 = if self.flag_negative { 0x80 } else { 0 };
        c | z | i | d | 0x30 | v | n
    }

    /// Unpacks a status byte.
    pub fn from_byte(b: u8) -> (r: Flags)
        ensures
            r == Flags::from_byte_spec(b),
    {
        Flags {
            flag_carry: b & 1 != 0,
            flag_zero: b & 2 != 0,
            flag_interrupt_disable: b & 4 != 0,
            flag_decimal: b & 8 != 0,
            flag_overflow: b & 0x40 != 0,
            flag_negative: b & 0x80 != 0,
        }
    }

    /// Sets zero and negative from a result byte; the other flags are kept.
    pub fn set_result(&mut self, value: u8)
        ensures
            *final(self) == old(self).with_result_spec(value),
    {
        self.flag_zero = value == 0;
        self.flag_negative = value > 127;
    }

    pub fn get(&self, which: StatusFlag) -> (r: bool)
        ensures
            r == self.get_spec(which),
    {
        match which {
            StatusFlag::Carry => self.flag_carry,
            StatusFlag::Zero => self.flag_zero,
            StatusFlag::InterruptDisable => self.flag_interrupt_disable,
            StatusFlag::Decimal => self.flag_decimal,
            StatusFlag::Overflow => self.flag_overflow,
            StatusFlag::Negative => self.flag_negative,
        }
    }

    pub fn set(&mut self, which: StatusFlag, value: bool)
        ensures
            *final(self) == old(self).set_spec(which, value),
    {
        match which {
            StatusFlag::Carry => self.flag_carry = value,
            StatusFlag::Zero => self.flag_zero = value,
            StatusFlag::InterruptDisable => self.flag_interrupt_disable = value,
            StatusFlag::Decimal => self.flag_decimal = value,
            StatusFlag::Overflow => self.flag_overflow = value,
            StatusFlag::Negative => self.flag_negative = value,
        }
    }
}

/// Packing the flags into a status byte and unpacking it gives the same flags back.
pub proof fn lemma_flags_byte_round_trip(f: Flags)
    ensures
        Flags::from_byte_spec(f.byte_spec()) == f,
{
    let c = bit(f.flag_carry, 1);
    let z = bit(f.flag_zero, 2);
    let i = bit(f.flag_interrupt_disable, 4);
    let d = bit(f.flag_decimal, 8);
    let v = bit(f.flag_overflow, 0x40);
    let n = bit(f.flag_negative, 0x80);
    assert((c == 0 || c == 1) && (z == 0 || z == 2) && (i == 0 || i == 4) && (d == 0 || d == 8)
        && (v == 0 || v == 0x40) && (n == 0 || n == 0x80));
    let b = c | z | i | d | 0x30u8 | v | n;
    assert(
        b == c | z | i | d | 0x30u8 | v | n && (c == 0 || c == 1) && (z == 0 || z == 2) && (i == 0 || i == 4) && (d == 0 || d == 8) && (v
            == 0 || v == 0x40) && (n == 0 || n == 0x80) ==> ((b & 1 != 0) == (c == 1) && (b & 2
            != 0) == (z == 2) && (b & 4 != 0) == (i == 4) && (b & 8 != 0) == (d == 8) && (b & 0x40
            != 0) == (v == 0x40) && (b & 0x80 != 0) == (n == 0x80))
    ) by (bit_vector);
}

/// Unpacking a status byte and packing it again gives the byte back with bits 4 and 5 set.
pub proof fn lemma_byte_flags_round_trip(b: u8)
    ensures
        Flags::from_byte_spec(b).byte_spec() == b | 0x30,
{
    let f = Flags::from_byte_spec(b);
    let c = bit(f.flag_carry, 1);
    let z = bit(f.flag_zero, 2);
    let i = bit(f.flag_interrupt_disable, 4);
    let d = bit(f.flag_decimal, 8);
    let v = bit(f.flag_overflow, 0x40);
    let n = bit(f.flag_negative, 0x80);
    assert(c == b & 1 && z == b & 2 && i == b & 4 && d == b & 8 && v == b & 0x40 && n == b & 0x80)
        by {
        assert((b & 1 != 0 ==> b & 1 == 1) && (b & 2 != 0 ==> b & 2 == 2) && (b & 4 != 0 ==> b & 4
            == 4) && (b & 8 != 0 ==> b & 8 == 8) && (b & 0x40 != 0 ==> b & 0x40 == 0x40) && (b
            & 0x80 != 0 ==> b & 0x80 == 0x80)) by (bit_vector);
    }
    assert((b & 1) | (b & 2) | (b & 4) | (b & 8) | 0x30u8 | (b & 0x40) | (b & 0x80) == b | 0x30)
        by (bit_vector);
}

} // verus!
