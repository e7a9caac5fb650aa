//! Byte-level facts about the helpers that split 16-bit register pairs
//! into bytes and the F register into its flag bits.
use vstd::prelude::*;

verus! {

/// Upper byte of a 16-bit register pair.
pub open spec fn hi(v: u16) -> u8 {
    (v >> 8) as u8
}

/// Lower byte of a 16-bit register pair.
pub open spec fn lo(v: u16) -> u8 {
    (v & 0xFF) as u8
}

/// `v` with its upper byte replaced by `b`.
pub open spec fn with_hi(v: u16, b: u8) -> u16 {
    ((b as u16) << 8) | (v & 0xFF)
}

/// `v` with its lower byte replaced by `b`.
pub open spec fn with_lo(v: u16, b: u8) -> u16 {
    (v & 0xFF00) | (b as u16)
}

/// Joins two bytes into a 16-bit value, `h` on top.
pub open spec fn join(h: u8, l: u8) -> u16 {
    ((h as u16) << 8) | (l as u16)
}

/// Arithmetic modulo 2^8, as the 8-bit registers compute it.
pub open spec fn w8(x: int) -> u8 {
    (x % 256) as u8
}

/// Arithmetic modulo 2^16, as the 16-bit registers compute it.
pub open spec fn w16(x: int) -> u16 {
    (x % 65536) as u16
}

/// Bit masks of the four flags in the F register.
pub const ZF: u8 = 0x80;
pub const NF: u8 = 0x40;
pub const HF: u8 = 0x20;
pub const CF: u8 = 0x10;

/// Whether the flag with mask `m` is set in the F half of `af`.
pub open spec fn flag(af: u16, m: u8) -> bool {
    lo(af) & m == m
}

/// The F byte made of the four flags and the low nibble `nib`.
pub open spec fn f_byte(z: bool, n: bool, h: bool, c: bool, nib: u8) -> u8 {
    (if z { 0x80u8 } else { 0u8 }) | (if n { 0x40u8 } else { 0u8 }) | (if h { 0x20u8 } else { 0u8 })
        | (if c { 0x10u8 } else { 0u8 }) | (nib & 0xF)
}

/// The AF pair with accumulator `a` and flags `z n h c`; the low nibble of F
/// is taken from `nib`.
pub open spec fn make_af(a: u8, z: bool, n: bool, h: bool, c: bool, nib: u8) -> u16 {
    join(a, f_byte(z, n, h, c, nib))
}

pub open spec fn opt_or(o: Option<bool>, d: bool) -> bool {
    match o {
        Some(v) => v,
        None => d,
    }
}

/// The F half of `new_af` is that of `old_af` with only the given flags
/// changed: the low nibble and every flag given as `None` keep their values.
pub open spec fn f_after(
    old_af: u16,
    new_af: u16,
    z: Option<bool>,
    n: Option<bool>,
    h: Option<bool>,
    c: Option<bool>,
) -> bool {
    &&& lo(new_af) & 0xF == lo(old_af) & 0xF
    &&& flag(new_af, ZF) == opt_or(z, flag(old_af, ZF))
    &&& flag(new_af, NF) == opt_or(n, flag(old_af, NF))
    &&& flag(new_af, HF) == opt_or(h, flag(old_af, HF))
    &&& flag(new_af, CF) == opt_or(c, flag(old_af, CF))
}

/// `new_af` is `old_af` with only the given flags changed; the accumulator
/// keeps its value too.
pub open spec fn af_after(
    old_af: u16,
    new_af: u16,
    z: Option<bool>,
    n: Option<bool>,
    h: Option<bool>,
    c: Option<bool>,
) -> bool {
    &&& hi(new_af) == hi(old_af)
    &&& f_after(old_af, new_af, z, n, h, c)
}

/// An AF value known by its accumulator and its flags relative to an
/// earlier value is the `make_af` of those.
pub proof fn lemma_af_result(
    old_af: u16,
    new_af: u16,
    r: u8,
    z: Option<bool>,
    n: Option<bool>,
    h: Option<bool>,
    c: Option<bool>,
)
    requires
        hi(new_af) == r,
        f_after(old_af, new_af, z, n, h, c),
    ensures
        new_af == make_af(
            r,
            opt_or(z, flag(old_af, ZF)),
            opt_or(n, flag(old_af, NF)),
            opt_or(h, flag(old_af, HF)),
            opt_or(c, flag(old_af, CF)),
            lo(old_af),
        ),
{
    let m = make_af(
        r,
        opt_or(z, flag(old_af, ZF)),
        opt_or(n, flag(old_af, NF)),
        opt_or(h, flag(old_af, HF)),
        opt_or(c, flag(old_af, CF)),
        lo(old_af),
    );
    lemma_make_af(
        r,
        opt_or(z, flag(old_af, ZF)),
        opt_or(n, flag(old_af, NF)),
        opt_or(h, flag(old_af, HF)),
        opt_or(c, flag(old_af, CF)),
        lo(old_af),
    );
    lemma_af_ext(new_af, m);
}

/// The low nibble of a byte.
pub proof fn lemma_nibble(x: u8)
    by (bit_vector)
    ensures
        x & 0xF <= 0xF,
        x & 0xF == x % 16,
{
}

/// Replacing one byte of a pair leaves the other and reads back.
pub proof fn lemma_bytes(v: u16, b: u8)
    by (bit_vector)
    ensures
        hi(with_hi(v, b)) == b,
        lo(with_hi(v, b)) == lo(v),
        hi(with_lo(v, b)) == hi(v),
        lo(with_lo(v, b)) == b,
        hi(join(b, lo(v))) == b,
        v == join(hi(v), lo(v)),
        hi(join(hi(v), b)) == hi(v),
        lo(join(hi(v), b)) == b,
{
}

/// Setting or clearing one flag bit of a byte leaves the other flag bits
/// and the low nibble alone.
pub proof fn lemma_flag_bits(l: u8, m: u8)
    by (bit_vector)
    requires
        m == 0x80 || m == 0x40 || m == 0x20 || m == 0x10,
    ensures
        (l | m) & m == m,
        (l & !m) & m != m,
        (l | m) & 0xF == l & 0xF,
        (l & !m) & 0xF == l & 0xF,
        m != 0x80 ==> ((l | m) & 0x80 == l & 0x80 && (l & !m) & 0x80 == l & 0x80),
        m != 0x40 ==> ((l | m) & 0x40 == l & 0x40 && (l & !m) & 0x40 == l & 0x40),
        m != 0x20 ==> ((l | m) & 0x20 == l & 0x20 && (l & !m) & 0x20 == l & 0x20),
        m != 0x10 ==> ((l | m) & 0x10 == l & 0x10 && (l & !m) & 0x10 == l & 0x10),
{
}

/// A byte is determined by its four flag bits and its low nibble.
pub proof fn lemma_f_byte_canonical(l: u8)
    by (bit_vector)
    ensures
        l == f_byte(l & 0x80 == 0x80, l & 0x40 == 0x40, l & 0x20 == 0x20, l & 0x10 == 0x10, l & 0xF),
        f_byte(l & 0x80 == 0x80, l & 0x40 == 0x40, l & 0x20 == 0x20, l & 0x10 == 0x10, l & 0xF) & 0xF
            == l & 0xF,
{
}

/// Any AF value is `make_af` of its own accumulator, flags and nibble.
pub proof fn lemma_af_canonical(af: u16)
    ensures
        af == make_af(hi(af), flag(af, ZF), flag(af, NF), flag(af, HF), flag(af, CF), lo(af)),
{
    lemma_bytes(af, 0);
    lemma_f_byte_canonical(lo(af));
    let l = lo(af);
    assert(f_byte(l & 0x80 == 0x80, l & 0x40 == 0x40, l & 0x20 == 0x20, l & 0x10 == 0x10, l & 0xF)
        == f_byte(l & 0x80 == 0x80, l & 0x40 == 0x40, l & 0x20 == 0x20, l & 0x10 == 0x10, l)) by {
        lemma_nib_idem(l);
    }
}

proof fn lemma_nib_idem(l: u8)
    by (bit_vector)
    ensures
        (l & 0xF) & 0xF == l & 0xF,
{
}

/// Two AF values with equal accumulators, flags and F nibbles are equal.
pub proof fn lemma_af_ext(x: u16, y: u16)
    requires
        hi(x) == hi(y),
        lo(x) & 0xF == lo(y) & 0xF,
        flag(x, ZF) == flag(y, ZF),
        flag(x, NF) == flag(y, NF),
        flag(x, HF) == flag(y, HF),
        flag(x, CF) == flag(y, CF),
    ensures
        x == y,
{
    lemma_af_canonical(x);
    lemma_af_canonical(y);
    lemma_f_nib(x, y);
}

proof fn lemma_f_nib(x: u16, y: u16)
    requires
        lo(x) & 0xF == lo(y) & 0xF,
    ensures
        f_byte(flag(x, ZF), flag(x, NF), flag(x, HF), flag(x, CF), lo(x))
            == f_byte(flag(x, ZF), flag(x, NF), flag(x, HF), flag(x, CF), lo(y)),
{
}

/// What `make_af` builds reads back as its parts.
pub proof fn lemma_make_af(a: u8, z: bool, n: bool, h: bool, c: bool, nib: u8)
    ensures
        hi(make_af(a, z, n, h, c, nib)) == a,
        flag(make_af(a, z, n, h, c, nib), ZF) == z,
        flag(make_af(a, z, n, h, c, nib), NF) == n,
        flag(make_af(a, z, n, h, c, nib), HF) == h,
        flag(make_af(a, z, n, h, c, nib), CF) == c,
        lo(make_af(a, z, n, h, c, nib)) & 0xF == nib & 0xF,
{
    lemma_make_af_bits(a, z, n, h, c, nib);
}

proof fn lemma_make_af_bits(a: u8, z: bool, n: bool, h: bool, c: bool, nib: u8)
    by (bit_vector)
    ensures
        (((((a as u16) << 8) | (f_byte(z, n, h, c, nib) as u16)) >> 8) as u8) == a,
        ((((a as u16) << 8) | (f_byte(z, n, h, c, nib) as u16)) & 0xFF) as u8 == f_byte(z, n, h, c, nib),
        (f_byte(z, n, h, c, nib) & 0x80 == 0x80) == z,
        (f_byte(z, n, h, c, nib) & 0x40 == 0x40) == n,
        (f_byte(z, n, h, c, nib) & 0x20 == 0x20) == h,
        (f_byte(z, n, h, c, nib) & 0x10 == 0x10) == c,
        f_byte(z, n, h, c, nib) & 0xF == nib & 0xF,
{
}

} // verus!
