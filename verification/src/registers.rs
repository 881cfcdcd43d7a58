//! The CPU register file: eight 8-bit registers, two 16-bit registers, and
//! the composed 16-bit register pairs AF, BC, DE and HL. Within a pair the
//! first-named register is the high byte: `pair == high << 8 | low`.
use vstd::prelude::*;

verus! {

/// The high byte of a 16-bit value.
pub open spec fn high_byte(v: u16) -> u8 {
    (v >> 8) as u8
}

/// The low byte of a 16-bit value.
pub open spec fn low_byte(v: u16) -> u8 {
    (v & 0xFF) as u8
}

/// The 16-bit value with `high` as its high byte and `low` as its low byte.
pub open spec fn join16(high: u8, low: u8) -> u16 {
    (high as u16) << 8 | (low as u16)
}

/// Composing a 16-bit value from two bytes and splitting it back are
/// mutually inverse: splitting `join16(high, low)` recovers exactly the two
/// bytes, and joining the two bytes of `v` recovers `v`. The high byte is
/// `(v >> 8) & 0xFF` and the low byte is `v & 0xFF`.
pub proof fn lemma_join_split_inverse(high: u8, low: u8, v: u16)
    ensures
        high_byte(join16(high, low)) == high,
        low_byte(join16(high, low)) == low,
        join16(high_byte(v), low_byte(v)) == v,
        high_byte(v) == ((v >> 8) & 0xFF) as u8,
        low_byte(v) == (v & 0xFF) as u8,
{
    assert((((high as u16) << 8 | (low as u16)) >> 8) as u8 == high) by (bit_vector);
    assert((((high as u16) << 8 | (low as u16)) & 0xFF) as u8 == low) by (bit_vector);
    assert(((v >> 8) as u8 as u16) << 8 | ((v & 0xFF) as u8 as u16) == v) by (bit_vector);
    assert((v >> 8) as u8 == ((v >> 8) & 0xFF) as u8) by (bit_vector);
}

/// Composes a 16-bit value from a high and a low byte.
pub fn join_u8_to_u16(high: u8, low: u8) -> (r: u16)
    ensures
        r == join16(high, low),
{
    (high as u16) << 8 | (low as u16)
}

/// Splits a 16-bit value into its high and low bytes, in that order.
pub fn split_u16_to_u8(val: u16) -> (r: (u8, u8))
    ensures
        r.0 == high_byte(val),
        r.1 == low_byte(val),
{
    ((val >> 8) as u8, (val & 0xFF) as u8)
}

/// The CPU register file. Every register pair (AF, BC, DE, HL) is
/// byte-decomposable and composable; no meaning is assigned to the bits of
/// the flag register here.
pub struct Registers {
    pub a: u8,
    pub flag: u8,
    pub b: u8,
    pub c: u8,
    pub d: u8,
    pub e: u8,
    pub h: u8,
    pub l: u8,
    pub stack_pointer: u16,
    pub program_counter: u16,
}

impl Registers {
    /// A zero-initialized register file.
    pub fn new() -> (r: Registers)
        ensures
            r == (Registers {
                a: 0u8,
                flag: 0u8,
                b: 0u8,
                c: 0u8,
                d: 0u8,
                e: 0u8,
                h: 0u8,
                l: 0u8,
                stack_pointer: 0u16,
                program_counter: 0u16,
            }),
    {
        Registers {
            a: 0,
            flag: 0,
            b: 0,
            c: 0,
            d: 0,
            e: 0,
            h: 0,
            l: 0,
            stack_pointer: 0,
            program_counter: 0,
        }
    }

    /// The AF pair: A is the high byte, the flag register the low byte.
    pub fn get_af(&self) -> (r: u16)
        ensures
            r == join16(self.a, self.flag),
    {
        join_u8_to_u16(self.a, self.flag)
    }

    /// Stores the high byte of `new_af` into A and its low byte into the
    /// flag register; no other register changes.
    pub fn set_af(&mut self, new_af: u16)
        ensures
            *final(self) == (Registers {
                a: high_byte(new_af),
                flag: low_byte(new_af),
                ..*old(self)
            }),
    {
        let (new_a, new_flag) = split_u16_to_u8(new_af);
        self.a = new_a;
        self.flag = new_flag;
    }

    /// The BC pair: B is the high byte, C the low byte.
    pub fn get_bc(&self) -> (r: u16)
        ensures
            r == join16(self.b, self.c),
    {
        join_u8_to_u16(self.b, self.c)
    }

    /// Stores the high byte of `new_bc` into B and its low byte into C; no
    /// other register changes.
    pub fn set_bc(&mut self, new_bc: u16)
        ensures
            *final(self) == (Registers {
                b: high_byte(new_bc),
                c: low_byte(new_bc),
                ..*old(self)
            }),
    {
        let (new_b, new_c) = split_u16_to_u8(new_bc);
        self.b = new_b;
        self.c = new_c;
    }

    /// The DE pair: D is the high byte, E the low byte.
    pub fn get_de(&self) -> (r: u16)
        ensures
            r == join16(self.d, self.e),
    {
        join_u8_to_u16(self.d, self.e)
    }

    /// Stores the high byte of `new_de` into D and its low byte into E; no
    /// other register changes.
    pub fn set_de(&mut self, new_de: u16)
        ensures
            *final(self) == (Registers {
                d: high_byte(new_de),
                e: low_byte(new_de),
                ..*old(self)
            }),
    {
        let (new_d, new_e) = split_u16_to_u8(new_de);
        self.d = new_d;
        self.e = new_e;
    }

    /// The HL pair: H is the high byte, L the low byte.
    pub fn get_hl(&self) -> (r: u16)
        ensures
            r == join16(self.h, self.l),
    {
        join_u8_to_u16(self.h, self.l)
    }

    /// Stores the high byte of `new_hl` into H and its low byte into L; no
    /// other register changes.
    pub fn set_hl(&mut self, new_hl: u16)
        ensures
            *final(self) == (Registers {
                h: high_byte(new_hl),
                l: low_byte(new_hl),
                ..*old(self)
            }),
    {
        let (new_h, new_l) = split_u16_to_u8(new_hl);
        self.h = new_h;
        self.l = new_l;
    }
}

/// Setting a register pair and reading it back yields the value that was
/// set: for every 16-bit `v`, after `set_hl(v)` (and likewise for AF, BC
/// and DE) the pair reads back as exactly `v`, the high register holds
/// `(v >> 8) & 0xFF`, and the low register holds `v & 0xFF`.
pub proof fn lemma_pair_round_trip(v: u16)
    ensures
        join16(high_byte(v), low_byte(v)) == v,
        high_byte(v) == ((v >> 8) & 0xFF) as u8,
        low_byte(v) == (v & 0xFF) as u8,
{
    lemma_join_split_inverse(0u8, 0u8, v);
}

} // verus!
