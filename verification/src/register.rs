use vstd::prelude::*;

use crate::convention::Term;

verus! {

// The CPU of the emulated handheld descends from the Intel 8080/8085 and
// Zilog Z80 line. Its register file holds eight 8-bit registers A, F, B, C,
// D, E, H, L and two 16-bit registers SP and PC:
//
// -------------
// | A   Flags |  ---> Program Status Word
// | B       C |
// | D       E |
// | H       L |
// |    SP     |  ---> Stack Pointer
// |    PC     |  ---> Program Counter
// -------------
//
// Some instructions treat A, F, B, C, D, E, H, L as four 16-bit registers by
// pairing them up: AF, BC, DE, HL, high byte first.
#[derive(Clone, Copy)]
pub struct Register {
    pub a: u8,
    /// The flag register. Its upper nibble holds the four condition flags;
    /// its lower nibble is unwired on the real hardware and reads as zero
    /// whenever the register file is touched only through this interface.
    pub f: u8,
    pub b: u8,
    pub c: u8,
    pub d: u8,
    pub e: u8,
    pub h: u8,
    pub l: u8,
    pub sp: u16,
    pub pc: u16,
}

/// The 16-bit value a register pair presents: high byte first, low byte second.
pub open spec fn pair_val(hi: u8, lo: u8) -> u16 {
    (((hi as u16) << 8) | (lo as u16))
}

/// The pair of two bytes, read arithmetically: the high byte weighs 256.
pub proof fn lemma_pair_val_arith(hi: u8, lo: u8)
    by (bit_vector)
    ensures
        pair_val(hi, lo) == hi * 256 + lo,
{
}

/// Splitting a 16-bit value into its high byte and its full low byte and
/// pairing them back loses nothing: the round trip behind a BC, DE or HL
/// write followed by the matching read.
pub proof fn lemma_pair_roundtrip(v: u16)
    by (bit_vector)
    ensures
        pair_val((v >> 8) as u8, (v & 0x00FF) as u8) == v,
{
}

impl Register {
    pub fn get_af(&self) -> (r: u16)
        ensures
            r == pair_val(self.a, self.f),
            r == self.a * 256 + self.f,
    {
        proof {
            lemma_pair_val_arith(self.a, self.f);
        }
        ((self.a as u16) << 8) | (self.f as u16)
    }

    pub fn get_bc(&self) -> (r: u16)
        ensures
            r == pair_val(self.b, self.c),
            r == self.b * 256 + self.c,
    {
        proof {
            lemma_pair_val_arith(self.b, self.c);
        }
        ((self.b as u16) << 8) | (self.c as u16)
    }

    pub fn get_de(&self) -> (r: u16)
        ensures
            r == pair_val(self.d, self.e),
            r == self.d * 256 + self.e,
    {
        proof {
            lemma_pair_val_arith(self.d, self.e);
        }
        ((self.d as u16) << 8) | (self.e as u16)
    }

    pub fn get_hl(&self) -> (r: u16)
        ensures
            r == pair_val(self.h, self.l),
            r == self.h * 256 + self.l,
    {
        proof {
            lemma_pair_val_arith(self.h, self.l);
        }
        ((self.h as u16) << 8) | (self.l as u16)
    }

    pub fn set_bc(&mut self, v: u16)
        ensures
            final(self).b == (v >> 8) as u8,
            final(self).c == (v & 0x00FF) as u8,
            pair_val(final(self).b, final(self).c) == v,
            (*final(self) == (Register { b: final(self).b, c: final(self).c, ..*old(self) })),
    {
        self.b = (v >> 8) as u8;
        self.c = (v & 0x00FF) as u8;
        proof {
            lemma_pair_roundtrip(v);
        }
    }

    pub fn set_de(&mut self, v: u16)
        ensures
            final(self).d == (v >> 8) as u8,
            final(self).e == (v & 0x00FF) as u8,
            pair_val(final(self).d, final(self).e) == v,
            (*final(self) == (Register { d: final(self).d, e: final(self).e, ..*old(self) })),
    {
        self.d = (v >> 8) as u8;
        self.e = (v & 0x00FF) as u8;
        proof {
            lemma_pair_roundtrip(v);
        }
    }

    pub fn set_hl(&mut self, v: u16)
        ensures
            final(self).h == (v >> 8) as u8,
            final(self).l == (v & 0x00FF) as u8,
            pair_val(final(self).h, final(self).l) == v,
            (*final(self) == (Register { h: final(self).h, l: final(self).l, ..*old(self) })),
    {
        self.h = (v >> 8) as u8;
        self.l = (v & 0x00FF) as u8;
        proof {
            lemma_pair_roundtrip(v);
        }
    }

    pub fn set_af(&mut self, v: u16)
        ensures
            final(self).a == (v >> 8) as u8,
            final(self).f == (v & 0x00F0) as u8,
            pair_val(final(self).a, final(self).f) == v & 0xFFF0,
            final(self).low_nibble_clear(),
            (*final(self) == (Register { a: final(self).a, f: final(self).f, ..*old(self) })),
    {
        self.a = (v >> 8) as u8;
        self.f = (v & 0x00F0) as u8;
        proof {
            lemma_af_write(v);
        }
    }

    /// The flag register's low nibble is unwired on the real hardware: it is
    /// zero after power-up and stays zero under every write this interface
    /// offers, so a register file touched only through it always shows it
    /// as zero.
    pub open spec fn low_nibble_clear(self) -> bool {
        self.f & 0x0F == 0
    }
}

/// An AF-style write keeps the high byte whole, keeps the flag nibble of the
/// low byte and forces its unwired low nibble to zero: reading the pair back
/// yields the written value with its lowest four bits cleared.
pub proof fn lemma_af_write(v: u16)
    by (bit_vector)
    ensures
        pair_val((v >> 8) as u8, (v & 0x00F0) as u8) == v & 0xFFF0,
        ((v & 0x00F0) as u8) & 0x0F == 0,
{
}

/// The four condition flags, one bit each in the upper nibble of F:
/// Z, N, H, C from bit 7 down to bit 4.
#[derive(Clone, Copy)]
pub enum Flag {
    /// Zero flag, bit 7. Set when the result of a math operation is zero, or
    /// when two values match under the CP instruction.
    Z,
    /// Subtract flag, bit 6. Set when the last math instruction performed a
    /// subtraction.
    N,
    /// Half-carry flag, bit 5. Set when the last math operation carried out
    /// of the lower nibble.
    H,
    /// Carry flag, bit 4. Set when the last math operation carried out of the
    /// byte, or when register A is the smaller value under CP.
    C,
}

/// The bit that a flag occupies inside the F register.
pub open spec fn flag_mask(f: Flag) -> u8 {
    match f {
        Flag::Z => 0x80,
        Flag::N => 0x40,
        Flag::H => 0x20,
        Flag::C => 0x10,
    }
}

/// Whether a flag's bit is set in a register file's F register.
pub open spec fn flag_on(r: Register, f: Flag) -> bool {
    r.f & flag_mask(f) != 0
}

/// Every flag sits in the upper nibble of F, on a bit of its own: no flag's
/// mask is zero, none reaches into the low nibble, and the masks of two
/// distinct flags share no bit.
pub proof fn lemma_flag_masks(f: Flag, g: Flag)
    ensures
        flag_mask(f) != 0,
        flag_mask(f) & 0x0F == 0,
        f != g ==> flag_mask(f) & flag_mask(g) == 0,
{
    let mf: u8 = flag_mask(f);
    let mg: u8 = flag_mask(g);
    assert(mf == 0x80 || mf == 0x40 || mf == 0x20 || mf == 0x10);
    assert(mg == 0x80 || mg == 0x40 || mg == 0x20 || mg == 0x10);
    assert(f != g ==> mf != mg);
    assert((mf == 0x80 || mf == 0x40 || mf == 0x20 || mf == 0x10) ==> mf != 0 && mf & 0x0F
        == 0) by (bit_vector);
    assert(((mf == 0x80 || mf == 0x40 || mf == 0x20 || mf == 0x10) && (mg == 0x80 || mg == 0x40
        || mg == 0x20 || mg == 0x10) && mf != mg) ==> mf & mg == 0) by (bit_vector);
}

/// Setting a bit leaves it set; clearing it leaves it clear.
proof fn lemma_bit_write_hits(x: u8, m: u8)
    by (bit_vector)
    requires
        m != 0,
    ensures
        (x | m) & m != 0,
        (x & !m) & m == 0,
{
}

/// Setting or clearing the bits of one mask moves no bit outside it.
proof fn lemma_bit_write_misses(x: u8, m: u8, k: u8)
    by (bit_vector)
    requires
        m & k == 0,
    ensures
        (x | m) & k == x & k,
        (x & !m) & k == x & k,
{
}

impl Flag {
    /// The flag's own bit mask, as the hardware encodes it in F.
    pub fn og(self) -> (r: u8)
        ensures
            r == flag_mask(self),
    {
        match self {
            Flag::Z => 0x80,
            Flag::N => 0x40,
            Flag::H => 0x20,
            Flag::C => 0x10,
        }
    }

    /// The complement of the flag's mask: the bits a clearing write keeps.
    pub fn bw(self) -> (r: u8)
        ensures
            r == !flag_mask(self),
    {
        !self.og()
    }
}

impl Register {
    pub fn get_flag(&self, f: Flag) -> (r: bool)
        ensures
            r == flag_on(*self, f),
    {
        (self.f & f.og()) != 0
    }

    /// Writes one flag's bit and touches nothing else: every other flag, the
    /// low nibble of F and every other register keep their prior values.
    pub fn set_flag(&mut self, f: Flag, v: bool)
        ensures
            flag_on(*final(self), f) == v,
            forall|g: Flag|
                g != f ==> #[trigger] flag_on(*final(self), g) == flag_on(*old(self), g),
            final(self).f & 0x0F == old(self).f & 0x0F,
            (*final(self) == (Register { f: final(self).f, ..*old(self) })),
    {
        if v {
            self.f |= f.og();
        } else {
            self.f &= f.bw();
        }
        proof {
            let m: u8 = flag_mask(f);
            lemma_flag_masks(f, f);
            lemma_bit_write_hits(old(self).f, m);
            lemma_bit_write_misses(old(self).f, m, 0x0F);
            assert forall|g: Flag| g != f implies #[trigger] flag_on(*self, g) == flag_on(
                *old(self),
                g,
            ) by {
                lemma_flag_masks(f, g);
                lemma_bit_write_misses(old(self).f, m, flag_mask(g));
            }
        }
    }

    /// The fixed state the hardware establishes at power-up. Register A is
    /// the one cell that tells the four variants apart; everything else is
    /// identical across them. SP and PC are the documented starting points;
    /// the real device does not guarantee them, and programs are expected to
    /// set SP themselves.
    pub fn power_up(term: Term) -> (r: Register)
        ensures
            r.a == (match term {
                Term::GB => 0x01u8,
                Term::GBP => 0xff,
                Term::GBC => 0x11,
                Term::SGB => 0x01,
            }),
            r.f == 0xb0,
            r.b == 0x00,
            r.c == 0x13,
            r.d == 0x00,
            r.e == 0xd8,
            r.h == 0x01,
            r.l == 0x4d,
            r.sp == 0xfffe,
            r.pc == 0x0100,
            r.low_nibble_clear(),
    {
        let a: u8 = match term {
            Term::GB => 0x01,
            Term::GBP => 0xff,
            Term::GBC => 0x11,
            Term::SGB => 0x01,
        };
        proof {
            assert(0xb0u8 & 0x0F == 0) by (bit_vector);
        }
        Register {
            a,
            f: 0xb0,
            b: 0x00,
            c: 0x13,
            d: 0x00,
            e: 0xd8,
            h: 0x01,
            l: 0x4d,
            sp: 0xfffe,
            pc: 0x0100,
        }
    }
}

} // verus!
