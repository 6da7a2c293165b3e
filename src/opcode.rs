use vstd::prelude::*;

verus! {

/// One 16-bit instruction word, read big-endian from two consecutive bytes.
#[derive(Clone, Copy, Debug, PartialEq, Eq, Structural)]
pub struct OpCode {
    raw: u16,
}

/// The word formed from a high byte and a low byte.
pub open spec fn word_of(high: u8, low: u8) -> u16 {
    (high as int * 256 + low as int) as u16
}

/// Bits 12 to 15: the instruction family.
pub open spec fn family_of(w: u16) -> u8 {
    (w / 0x1000) as u8
}

/// Bits 8 to 11: the first register operand.
pub open spec fn x_of(w: u16) -> u8 {
    ((w / 0x100) % 0x10) as u8
}

/// Bits 4 to 7: the second register operand.
pub open spec fn y_of(w: u16) -> u8 {
    ((w / 0x10) % 0x10) as u8
}

/// Bits 0 to 3: the small count.
pub open spec fn n_of(w: u16) -> u8 {
    (w % 0x10) as u8
}

/// Bits 0 to 7: the immediate byte.
pub open spec fn kk_of(w: u16) -> u8 {
    (w % 0x100) as u8
}

/// Bits 0 to 11: the address.
pub open spec fn addr_of(w: u16) -> u16 {
    (w % 0x1000) as u16
}

impl OpCode {
    pub closed spec fn spec_raw(&self) -> u16 {
        self.raw
    }

    pub fn new(raw: u16) -> (r: OpCode)
        ensures
            r.spec_raw() == raw,
    {
        OpCode { raw }
    }

    pub fn new_from_parts(high: u8, low: u8) -> (r: OpCode)
        ensures
            r.spec_raw() == word_of(high, low),
            r.spec_raw() as int == high as int * 256 + low as int,
    {
        OpCode { raw: (high as u16) * 256 + (low as u16) }
    }

    pub fn raw(&self) -> (r: u16)
        ensures
            r == self.spec_raw(),
    {
        self.raw
    }

    pub fn family(&self) -> (r: u8)
        ensures
            r == family_of(self.spec_raw()),
            r as u16 == self.spec_raw() >> 12u16,
            r < 16,
    {
        let w = self.raw;
        assert(w >> 12u16 == w / 0x1000) by (bit_vector);
        (w >> 12) as u8
    }

    pub fn x(&self) -> (r: u8)
        ensures
            r == x_of(self.spec_raw()),
            r as u16 == (self.spec_raw() >> 8u16) & 0xFu16,
            r < 16,
    {
        let w = self.raw;
        assert((w >> 8u16) & 0xFu16 == (w / 0x100) % 0x10) by (bit_vector);
        ((w >> 8) & 0xF) as u8
    }

    pub fn y(&self) -> (r: u8)
        ensures
            r == y_of(self.spec_raw()),
            r as u16 == (self.spec_raw() >> 4u16) & 0xFu16,
            r < 16,
    {
        let w = self.raw;
        assert((w >> 4u16) & 0xFu16 == (w / 0x10) % 0x10) by (bit_vector);
        ((w >> 4) & 0xF) as u8
    }

    pub fn n(&self) -> (r: u8)
        ensures
            r == n_of(self.spec_raw()),
            r as u16 == self.spec_raw() & 0xFu16,
            r < 16,
    {
        let w = self.raw;
        assert(w & 0xFu16 == w % 0x10) by (bit_vector);
        (w & 0xF) as u8
    }

    pub fn kk(&self) -> (r: u8)
        ensures
            r == kk_of(self.spec_raw()),
            r as u16 == self.spec_raw() & 0xFFu16,
    {
        let w = self.raw;
        assert(w & 0xFFu16 == w % 0x100) by (bit_vector);
        (w & 0xFF) as u8
    }

    pub fn nnn(&self) -> (r: u16)
        ensures
            r == addr_of(self.spec_raw()),
            r == self.spec_raw() & 0xFFFu16,
            r < 4096,
    {
        let w = self.raw;
        assert(w & 0xFFFu16 == w % 0x1000) by (bit_vector);
        w & 0xFFF
    }
}

/// Each field of the word built from `high` and `low` is read from the byte
/// that holds it: the register operands are the low nibble of `high` and the
/// high nibble of `low`, the count is the low nibble of `low`, the immediate
/// byte is `low`, and the address is the low nibble of `high` followed by `low`.
pub proof fn lemma_fields_of_parts(high: u8, low: u8)
    ensures
        family_of(word_of(high, low)) == high / 16,
        x_of(word_of(high, low)) == high % 16,
        y_of(word_of(high, low)) == low / 16,
        n_of(word_of(high, low)) == low % 16,
        kk_of(word_of(high, low)) == low,
        addr_of(word_of(high, low)) as int == (high % 16) as int * 256 + low as int,
{
}

} // verus!
