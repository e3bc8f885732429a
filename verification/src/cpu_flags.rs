use vstd::prelude::*;

verus! {

/// The eight single-bit flags of the processor's packed status byte:
/// Carry, Zero, InterruptDisable, Decimal, Break, Unused, Overflow, Negative.
pub enum CpuFlags {
    C,
    Z,
    I,
    D,
    B,
    U,
    V,
    N,
}

impl CpuFlags {
    /// The bit mask of this flag inside the status byte.
    pub open spec fn mask(self) -> u8 {
        match self {
            CpuFlags::C => 0x01,
            CpuFlags::Z => 0x02,
            CpuFlags::I => 0x04,
            CpuFlags::D => 0x08,
            CpuFlags::B => 0x10,
            CpuFlags::U => 0x20,
            CpuFlags::V => 0x40,
            CpuFlags::N => 0x80,
        }
    }

    pub fn bits(&self) -> (r: u8)
        ensures
            r == self.mask(),
    {
        match self {
            CpuFlags::C => 0x01,
            CpuFlags::Z => 0x02,
            CpuFlags::I => 0x04,
            CpuFlags::D => 0x08,
            CpuFlags::B => 0x10,
            CpuFlags::U => 0x20,
            CpuFlags::V => 0x40,
            CpuFlags::N => 0x80,
        }
    }
}

/// True of the eight masks that select a single status bit.
pub open spec fn is_flag_mask(m: u8) -> bool {
    m == 1 || m == 2 || m == 4 || m == 8 || m == 16 || m == 32 || m == 64 || m == 128
}

/// Whether the bit selected by mask `m` (a power of two) is set in `st`.
pub open spec fn flag_set(st: u8, m: u8) -> bool {
    (st / m) % 2 == 1
}

/// The status byte with the bit selected by mask `m` forced to `v`.
pub open spec fn with_flag(st: u8, m: u8, v: bool) -> u8 {
    if v {
        if flag_set(st, m) {
            st
        } else {
            (st + m) as u8
        }
    } else {
        if flag_set(st, m) {
            (st - m) as u8
        } else {
            st
        }
    }
}

/// Setting a clear single-bit never leaves the byte range, and a set bit is
/// never larger than the byte that holds it.
pub proof fn lemma_flag_arith(st: u8, m: u8)
    requires
        is_flag_mask(m),
    ensures
        !flag_set(st, m) ==> st + m <= 255,
        flag_set(st, m) ==> m <= st,
{
}

/// The executable counterpart of `with_flag`.
pub fn apply_flag(st: u8, m: u8, v: bool) -> (r: u8)
    requires
        is_flag_mask(m),
    ensures
        r == with_flag(st, m, v),
{
    proof {
        lemma_flag_arith(st, m);
    }
    let bit_on: bool = (st / m) % 2 == 1;
    if v {
        if bit_on {
            st
        } else {
            st + m
        }
    } else {
        if bit_on {
            st - m
        } else {
            st
        }
    }
}

/// The carry flag of a status byte, as the 0-or-1 value the arithmetic
/// operations add in.
pub open spec fn carry_of(st: u8) -> u8 {
    if flag_set(st, 0x01) {
        1
    } else {
        0
    }
}

/// The status byte after storing result byte `v`: Zero tracks `v == 0` and
/// Negative tracks bit 7 of `v`.
pub open spec fn with_zn(st: u8, v: u8) -> u8 {
    with_flag(with_flag(st, 0x02, v == 0), 0x80, v >= 0x80)
}

} // verus!
