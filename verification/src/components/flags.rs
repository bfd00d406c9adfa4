//! The flag register F: six flags at fixed bit positions, and the parity of a
//! byte.

use vstd::prelude::*;

verus! {

/// The flags of the Z80 that this core models. Bits 3 and 5 of F carry no
/// flag; no operation on flags touches them.
#[derive(Clone, Copy, Debug, PartialEq, Eq, Structural)]
pub enum Flag {
    /// Zero: bit 6.
    Z,
    /// Sign: bit 7.
    S,
    /// Half carry: bit 4.
    H,
    /// Parity or overflow: bit 2.
    P,
    /// Add/subtract: bit 1.
    N,
    /// Carry: bit 0.
    C,
}

/// A value for each of the six flags.
#[derive(Clone, Copy, Debug, PartialEq, Eq, Structural)]
pub struct FlagSet {
    pub s: bool,
    pub z: bool,
    pub h: bool,
    pub pv: bool,
    pub n: bool,
    pub c: bool,
}

/// The bit of F that holds `flag`.
pub open spec fn flag_mask(flag: Flag) -> u8 {
    match flag {
        Flag::Z => 0x40,
        Flag::S => 0x80,
        Flag::H => 0x10,
        Flag::P => 0x04,
        Flag::N => 0x02,
        Flag::C => 0x01,
    }
}

/// Whether `flag` is set in `f`.
pub open spec fn flag_is_set(f: u8, flag: Flag) -> bool {
    f & flag_mask(flag) != 0
}

/// `f` with `flag` set to `value`.
pub open spec fn with_flag(f: u8, flag: Flag, value: bool) -> u8 {
    if value {
        f | flag_mask(flag)
    } else {
        f & !flag_mask(flag)
    }
}

/// `f` with all six flags set as `flags` says.
pub open spec fn pack_flags(f: u8, flags: FlagSet) -> u8 {
    with_flag(
        with_flag(
            with_flag(
                with_flag(with_flag(with_flag(f, Flag::S, flags.s), Flag::Z, flags.z), Flag::H, flags.h),
                Flag::P,
                flags.pv,
            ),
            Flag::N,
            flags.n,
        ),
        Flag::C,
        flags.c,
    )
}

/// The six flags as `f` holds them.
pub open spec fn unpack_flags(f: u8) -> FlagSet {
    FlagSet {
        s: flag_is_set(f, Flag::S),
        z: flag_is_set(f, Flag::Z),
        h: flag_is_set(f, Flag::H),
        pv: flag_is_set(f, Flag::P),
        n: flag_is_set(f, Flag::N),
        c: flag_is_set(f, Flag::C),
    }
}

/// How many of the lowest `bits` bits of `value` are 1.
pub open spec fn count_ones(value: u8, bits: nat) -> nat
    decreases bits,
{
    if bits == 0 {
        0
    } else {
        count_ones(value, (bits - 1) as nat) + if value & (1u8 << ((bits - 1) as u8)) != 0 {
            1nat
        } else {
            0nat
        }
    }
}

/// The parity flag of a logic result: set when the number of 1 bits in
/// `value` is even.
pub open spec fn even_parity(value: u8) -> bool {
    count_ones(value, 8) % 2 == 0
}

impl Flag {
    pub fn mask(self) -> (mask: u8)
        ensures
            mask == flag_mask(self),
    {
        match self {
            Flag::Z => 0x40,
            Flag::S => 0x80,
            Flag::H => 0x10,
            Flag::P => 0x04,
            Flag::N => 0x02,
            Flag::C => 0x01,
        }
    }
}

pub fn test_flag(f: u8, flag: Flag) -> (set: bool)
    ensures
        set == flag_is_set(f, flag),
{
    f & flag.mask() != 0
}

pub fn assign_flag(f: u8, flag: Flag, value: bool) -> (updated: u8)
    ensures
        updated == with_flag(f, flag, value),
{
    if value {
        f | flag.mask()
    } else {
        f & !flag.mask()
    }
}

pub fn pack(f: u8, flags: FlagSet) -> (packed: u8)
    ensures
        packed == pack_flags(f, flags),
{
    let f = assign_flag(f, Flag::S, flags.s);
    let f = assign_flag(f, Flag::Z, flags.z);
    let f = assign_flag(f, Flag::H, flags.h);
    let f = assign_flag(f, Flag::P, flags.pv);
    let f = assign_flag(f, Flag::N, flags.n);
    assign_flag(f, Flag::C, flags.c)
}

pub fn unpack(f: u8) -> (flags: FlagSet)
    ensures
        flags == unpack_flags(f),
{
    FlagSet {
        s: test_flag(f, Flag::S),
        z: test_flag(f, Flag::Z),
        h: test_flag(f, Flag::H),
        pv: test_flag(f, Flag::P),
        n: test_flag(f, Flag::N),
        c: test_flag(f, Flag::C),
    }
}

/// Whether the number of 1 bits in `value` is even.
pub fn parity(value: u8) -> (even: bool)
    ensures
        even == even_parity(value),
        even == (count_ones(value, 8) % 2 == 0),
{
    let mut count: u8 = 0;
    let mut i: u8 = 0;
    while i < 8
        invariant
            i <= 8,
            count == count_ones(value, i as nat),
            count <= i,
        decreases 8 - i,
    {
        if value & (1u8 << i) != 0 {
            count = count + 1;
        }
        i = i + 1;
    }
    count % 2 == 0
}

/// Setting a flag and reading a flag back: the flag that was set has the new
/// value, every other flag has the value it had.
pub proof fn lemma_flag_after_set(f: u8, set: Flag, value: bool, read: Flag)
    ensures
        flag_is_set(with_flag(f, set, value), read) == (if read == set {
            value
        } else {
            flag_is_set(f, read)
        }),
        with_flag(f, set, value) & 0x28 == f & 0x28,
{
    let m = flag_mask(set);
    let r = flag_mask(read);
    assert((((f | m) & r != 0) == (m == r || f & r != 0)) && (((f & !m) & r != 0) == (m != r && f
        & r != 0)) && ((f | m) & 0x28 == f & 0x28) && ((f & !m) & 0x28 == f & 0x28))
        by (bit_vector)
        requires
            m == 0x01 || m == 0x02 || m == 0x04 || m == 0x10 || m == 0x40 || m == 0x80,
            r == 0x01 || r == 0x02 || r == 0x04 || r == 0x10 || r == 0x40 || r == 0x80,
    ;
}

/// Packing six flags into F and unpacking them gives the six flags, and
/// leaves bits 3 and 5 of F as they were.
pub proof fn lemma_pack_then_unpack(f: u8, flags: FlagSet)
    ensures
        unpack_flags(pack_flags(f, flags)) == flags,
        pack_flags(f, flags) & 0x28 == f & 0x28,
{
    lemma_flags_through(f, flags, Flag::S);
    lemma_flags_through(f, flags, Flag::Z);
    lemma_flags_through(f, flags, Flag::H);
    lemma_flags_through(f, flags, Flag::P);
    lemma_flags_through(f, flags, Flag::N);
    lemma_flags_through(f, flags, Flag::C);
}

/// What one flag reads after all six have been packed into F.
pub proof fn lemma_flags_through(f: u8, flags: FlagSet, read: Flag)
    ensures
        flag_is_set(pack_flags(f, flags), read) == (match read {
            Flag::S => flags.s,
            Flag::Z => flags.z,
            Flag::H => flags.h,
            Flag::P => flags.pv,
            Flag::N => flags.n,
            Flag::C => flags.c,
        }),
        pack_flags(f, flags) & 0x28 == f & 0x28,
{
    let f1 = with_flag(f, Flag::S, flags.s);
    let f2 = with_flag(f1, Flag::Z, flags.z);
    let f3 = with_flag(f2, Flag::H, flags.h);
    let f4 = with_flag(f3, Flag::P, flags.pv);
    let f5 = with_flag(f4, Flag::N, flags.n);
    lemma_flag_after_set(f, Flag::S, flags.s, read);
    lemma_flag_after_set(f1, Flag::Z, flags.z, read);
    lemma_flag_after_set(f2, Flag::H, flags.h, read);
    lemma_flag_after_set(f3, Flag::P, flags.pv, read);
    lemma_flag_after_set(f4, Flag::N, flags.n, read);
    lemma_flag_after_set(f5, Flag::C, flags.c, read);
}

/// No more bits are counted than are looked at.
pub proof fn lemma_count_ones_bound(value: u8, bits: nat)
    ensures
        count_ones(value, bits) <= bits,
    decreases bits,
{
    if bits > 0 {
        lemma_count_ones_bound(value, (bits - 1) as nat);
    }
}

/// The parity flag of a logic result: it is set exactly when the lowest bit
/// of the number of 1 bits is 0, that is when the number is even. Zero has
/// even parity and a single bit has odd parity.
pub proof fn lemma_parity_is_even_count(value: u8)
    ensures
        count_ones(value, 8) <= 8,
        even_parity(value) == ((count_ones(value, 8) as u8) & 1 == 0),
        even_parity(value) == (count_ones(value, 8) % 2 == 0),
{
    lemma_count_ones_bound(value, 8);
    let count = count_ones(value, 8) as u8;
    assert((count & 1 == 0) == (count % 2 == 0)) by (bit_vector);
}

} // verus!
