//! Distances in rows, whole or measured.
//!
//! Smooth scrolling moves by fractions of a row. Such a distance is measured
//! in floating point outside; here it is carried by its bits, and what is read
//! off it is exact: its sign, its whole part and whether anything is left over.

use vstd::prelude::*;

verus! {

/// A distance in rows. Positive distances go back into the history.
#[derive(Clone, Copy, PartialEq, Eq, Structural, Debug)]
pub enum RowOffset {
    /// A whole number of rows.
    Rows(i64),
    /// The bits of a finite single precision number.
    Measured(u32),
}

pub open spec fn exponent_bits(bits: u32) -> nat {
    ((bits as int / 0x800000) % 256) as nat
}

pub open spec fn fraction_bits(bits: u32) -> nat {
    (bits as int % 0x800000) as nat
}

pub open spec fn is_negative_bits(bits: u32) -> bool {
    bits >= 0x80000000u32
}

/// The bits stand for no number.
pub open spec fn is_no_number(bits: u32) -> bool {
    exponent_bits(bits) == 255 && fraction_bits(bits) > 0
}

/// The number is zero, of either sign.
pub open spec fn is_zero_bits(bits: u32) -> bool {
    exponent_bits(bits) == 0 && fraction_bits(bits) == 0
}

/// Two single precision numbers are equal. The two zeros are; what is no number
/// equals nothing, not even itself.
pub open spec fn same_number(a: u32, b: u32) -> bool {
    !is_no_number(a) && !is_no_number(b) && (a == b || (is_zero_bits(a) && is_zero_bits(b)))
}

/// Whether two single precision numbers are equal.
pub fn equal_numbers(a: u32, b: u32) -> (equal: bool)
    ensures
        equal == same_number(a, b),
{
    let a_exponent: u32 = (a / 0x800000) % 256;
    let b_exponent: u32 = (b / 0x800000) % 256;
    let a_fraction: u32 = a % 0x800000;
    let b_fraction: u32 = b % 0x800000;
    let numbers: bool = !(a_exponent == 255 && a_fraction > 0) && !(b_exponent == 255 && b_fraction
        > 0);
    let zeros: bool = a_exponent == 0 && a_fraction == 0 && b_exponent == 0 && b_fraction == 0;
    numbers && (a == b || zeros)
}

/// The significand of a normal number, with its leading bit.
pub open spec fn significand(bits: u32) -> nat {
    fraction_bits(bits) + 0x800000
}

/// The whole part of the size of a number.
pub open spec fn whole_size(bits: u32) -> nat {
    let exponent = exponent_bits(bits);
    if exponent < 127 {
        0
    } else if exponent < 150 {
        significand(bits) / vstd::arithmetic::power2::pow2((150 - exponent) as nat)
    } else {
        significand(bits) * vstd::arithmetic::power2::pow2((exponent - 150) as nat)
    }
}

/// Something is left over beside the whole part.
pub open spec fn has_fraction(bits: u32) -> bool {
    let exponent = exponent_bits(bits);
    if exponent < 127 {
        exponent > 0 || fraction_bits(bits) > 0
    } else if exponent < 150 {
        significand(bits) % vstd::arithmetic::power2::pow2((150 - exponent) as nat) != 0
    } else {
        false
    }
}

/// A row in the units that every single precision number is a multiple of.
pub open spec fn units_per_row() -> int {
    vstd::arithmetic::power2::pow2(149) as int
}

/// The size of a number, exactly, in those units.
pub open spec fn unit_size(bits: u32) -> nat {
    let exponent = exponent_bits(bits);
    if exponent == 0 {
        fraction_bits(bits)
    } else {
        significand(bits) * vstd::arithmetic::power2::pow2((exponent - 1) as nat)
    }
}

impl RowOffset {
    /// The number is finite.
    pub open spec fn wf(self) -> bool {
        match self {
            RowOffset::Rows(rows) => true,
            RowOffset::Measured(bits) => exponent_bits(bits) < 255,
        }
    }

    /// The distance without its fraction.
    pub open spec fn whole(self) -> int {
        match self {
            RowOffset::Rows(rows) => rows as int,
            RowOffset::Measured(bits) => if is_negative_bits(bits) {
                -(whole_size(bits) as int)
            } else {
                whole_size(bits) as int
            },
        }
    }

    /// The distance, exactly, in units of which a row has `units_per_row`.
    pub open spec fn units(self) -> int {
        match self {
            RowOffset::Rows(rows) => rows * units_per_row(),
            RowOffset::Measured(bits) => if is_negative_bits(bits) {
                -(unit_size(bits) as int)
            } else {
                unit_size(bits) as int
            },
        }
    }

    /// The fraction points back into the history.
    pub open spec fn fraction_up(self) -> bool {
        match self {
            RowOffset::Rows(rows) => false,
            RowOffset::Measured(bits) => has_fraction(bits) && !is_negative_bits(bits),
        }
    }

    /// The fraction points to the live bottom.
    pub open spec fn fraction_down(self) -> bool {
        match self {
            RowOffset::Rows(rows) => false,
            RowOffset::Measured(bits) => has_fraction(bits) && is_negative_bits(bits),
        }
    }

    pub open spec fn is_up(self) -> bool {
        self.whole() > 0 || self.fraction_up()
    }

    pub open spec fn is_down(self) -> bool {
        self.whole() < 0 || self.fraction_down()
    }

    pub open spec fn is_zero(self) -> bool {
        !self.is_up() && !self.is_down()
    }

    /// The distance is larger than a whole number of rows.
    pub open spec fn exceeds(self, rows: int) -> bool {
        self.whole() > rows || (self.whole() == rows && self.fraction_up())
    }

    /// The distance is smaller than a whole number of rows.
    pub open spec fn falls_short_of(self, rows: int) -> bool {
        self.whole() < rows || (self.whole() == rows && self.fraction_down())
    }

    /// Two distances are the same number.
    pub open spec fn same_as(self, other: RowOffset) -> bool {
        match (self, other) {
            (RowOffset::Measured(a), RowOffset::Measured(b)) => a == b || (self.is_zero()
                && other.is_zero()),
            _ => self.whole() == other.whole() && !self.fraction_up() && !self.fraction_down()
                && !other.fraction_up() && !other.fraction_down(),
        }
    }

    pub fn zero() -> (offset: Self)
        ensures
            offset == RowOffset::Rows(0),
    {
        RowOffset::Rows(0)
    }

    /// The whole part, stopped at the ends of `i64`.
    pub fn whole_rows(self) -> (rows: i64)
        ensures
            rows == crate::arith::clamped_i64(self.whole()),
    {
        match self {
            RowOffset::Rows(rows) => rows,
            RowOffset::Measured(bits) => {
                let size: u64 = size_of_bits(bits).0;
                if bits >= 0x80000000 {
                    if size > i64::MAX as u64 {
                        i64::MIN
                    } else {
                        -(size as i64)
                    }
                } else if size > i64::MAX as u64 {
                    i64::MAX
                } else {
                    size as i64
                }
            },
        }
    }

    pub fn has_fraction_up(self) -> (up: bool)
        ensures
            up == self.fraction_up(),
    {
        match self {
            RowOffset::Rows(_) => false,
            RowOffset::Measured(bits) => size_of_bits(bits).1 && bits < 0x80000000,
        }
    }

    pub fn has_fraction_down(self) -> (down: bool)
        ensures
            down == self.fraction_down(),
    {
        match self {
            RowOffset::Rows(_) => false,
            RowOffset::Measured(bits) => size_of_bits(bits).1 && bits >= 0x80000000,
        }
    }

    pub fn points_up(self) -> (up: bool)
        ensures
            up == self.is_up(),
    {
        self.whole_rows() > 0 || self.has_fraction_up()
    }

    pub fn points_down(self) -> (down: bool)
        ensures
            down == self.is_down(),
    {
        self.whole_rows() < 0 || self.has_fraction_down()
    }

    /// Whether the whole part lies beyond the ends of `i64`.
    fn is_out_of_range(self) -> (out: bool)
        ensures
            out == (self.whole() > i64::MAX || self.whole() < i64::MIN),
            self.fraction_up() || self.fraction_down() ==> -0x1000000 < self.whole() < 0x1000000,
    {
        match self {
            RowOffset::Rows(_) => false,
            RowOffset::Measured(bits) => {
                let size: u64 = size_of_bits(bits).0;
                size > 0x8000_0000_0000_0000 || (size == 0x8000_0000_0000_0000 && bits
                    < 0x80000000)
            },
        }
    }

    pub fn is_above(self, rows: i64) -> (above: bool)
        ensures
            above == self.exceeds(rows as int),
    {
        let whole: i64 = self.whole_rows();
        if whole == rows && whole == i64::MAX {
            self.is_out_of_range()
        } else {
            whole > rows || (whole == rows && self.has_fraction_up())
        }
    }

    pub fn is_below(self, rows: i64) -> (below: bool)
        ensures
            below == self.falls_short_of(rows as int),
    {
        let whole: i64 = self.whole_rows();
        if whole == rows && whole == i64::MIN {
            self.is_out_of_range()
        } else {
            whole < rows || (whole == rows && self.has_fraction_down())
        }
    }

    /// Whether two distances are the same number; one of them has to be
    /// smaller than any machine could scroll.
    pub fn equals(self, other: RowOffset) -> (same: bool)
        requires
            i64::MIN < other.whole() < i64::MAX || i64::MIN < self.whole() < i64::MAX,
        ensures
            same == self.same_as(other),
    {
        match (self, other) {
            (RowOffset::Measured(a), RowOffset::Measured(b)) => {
                a == b || (!self.points_up() && !self.points_down() && !other.points_up()
                    && !other.points_down())
            },
            _ => self.whole_rows() == other.whole_rows() && !self.has_fraction_up()
                && !self.has_fraction_down() && !other.has_fraction_up()
                && !other.has_fraction_down(),
        }
    }
}

/// The whole part of the size of a number, stopped at the end of `u64`, and
/// whether something is left over.
fn size_of_bits(bits: u32) -> (size: (u64, bool))
    ensures
        size.1 == has_fraction(bits),
        size.0 < u64::MAX ==> size.0 == whole_size(bits),
        size.0 == u64::MAX ==> whole_size(bits) > u64::MAX,
        size.1 ==> size.0 < 0x1000000,
{
    let exponent: u32 = (bits / 0x800000) % 256;
    let fraction: u64 = (bits % 0x800000) as u64;
    let value: u64 = fraction + 0x800000;
    assert(exponent == exponent_bits(bits));
    assert(value == significand(bits));
    if exponent < 127 {
        (0, exponent > 0 || fraction > 0)
    } else if exponent < 150 {
        let shift: u64 = (150 - exponent) as u64;
        proof {
            vstd::bits::lemma_u64_shr_is_div(value, shift);
            vstd::arithmetic::power2::lemma_pow2_pos(shift as nat);
        }
        let whole: u64 = value >> shift;
        proof {
            let unit = vstd::arithmetic::power2::pow2(shift as nat);
            vstd::arithmetic::div_mod::lemma_fundamental_div_mod(value as int, unit as int);
            lemma_pow2_fits(shift as nat);
            assert(whole * unit <= value) by (nonlinear_arith)
                requires
                    value == unit * whole + value as int % (unit as int),
                    value as int % (unit as int) >= 0,
            ;
            vstd::bits::lemma_u64_pow2_no_overflow(shift as nat);
            vstd::bits::lemma_u64_shl_is_mul(whole, shift);
        }
        let restored: u64 = whole << shift;
        proof {
            let unit = vstd::arithmetic::power2::pow2(shift as nat);
            assert(restored == whole * unit);
            assert((restored != value) == (value as int % (unit as int) != 0)) by (nonlinear_arith)
                requires
                    restored == whole * unit,
                    value == unit * whole + value as int % (unit as int),
            ;
        }
        (whole, restored != value)
    } else if exponent < 191 {
        let shift: u64 = (exponent - 150) as u64;
        proof {
            lemma_product_fits(value as nat, shift as nat);
            vstd::bits::lemma_u64_pow2_no_overflow(shift as nat);
            vstd::bits::lemma_u64_shl_is_mul(value, shift);
        }
        (value << shift, false)
    } else {
        proof {
            lemma_product_is_large(value as nat, (exponent - 150) as nat);
        }
        (u64::MAX, false)
    }
}

/// The whole part and the fraction of a number are what division by a row
/// leaves of it.
proof fn lemma_size_in_units(bits: u32)
    ensures
        unit_size(bits) as int / units_per_row() == whole_size(bits),
        (unit_size(bits) as int % units_per_row() != 0) == has_fraction(bits),
        units_per_row() > 0,
{
    let exponent = exponent_bits(bits);
    let unit = units_per_row();
    let size = unit_size(bits) as int;
    let digits = significand(bits) as int;
    vstd::arithmetic::power2::lemma_pow2_pos(149);
    if exponent < 127 {
        assert(0 <= size < unit) by {
            lemma_small_sizes(bits);
        }
        assert(size / unit == 0 && size % unit == size) by {
            vstd::arithmetic::div_mod::lemma_basic_div(size, unit);
            vstd::arithmetic::div_mod::lemma_small_mod(size as nat, unit as nat);
        }
        if exponent > 0 {
            let factor = vstd::arithmetic::power2::pow2((exponent - 1) as nat) as int;
            vstd::arithmetic::power2::lemma_pow2_pos((exponent - 1) as nat);
            assert(digits * factor > 0) by (nonlinear_arith)
                requires
                    digits > 0,
                    factor > 0,
            ;
        }
    } else if exponent < 150 {
        let factor = vstd::arithmetic::power2::pow2((exponent - 1) as nat) as int;
        let part = vstd::arithmetic::power2::pow2((150 - exponent) as nat) as int;
        vstd::arithmetic::power2::lemma_pow2_pos((exponent - 1) as nat);
        vstd::arithmetic::power2::lemma_pow2_pos((150 - exponent) as nat);
        vstd::arithmetic::power2::lemma_pow2_adds((exponent - 1) as nat, (150 - exponent) as nat);
        assert(unit == factor * part);
        assert(size == factor * digits) by (nonlinear_arith)
            requires
                size == digits * factor,
        ;
        let whole = digits / part;
        let rest = digits % part;
        vstd::arithmetic::div_mod::lemma_fundamental_div_mod(digits, part);
        assert(0 <= rest < part);
        assert(size == unit * whole + factor * rest && 0 <= factor * rest < unit && (factor * rest
            == 0) == (rest == 0)) by (nonlinear_arith)
            requires
                size == factor * digits,
                unit == factor * part,
                digits == part * whole + rest,
                0 <= rest < part,
                factor > 0,
        ;
        vstd::arithmetic::div_mod::lemma_fundamental_div_mod_converse(
            size,
            unit,
            whole,
            factor * rest,
        );
    } else {
        let factor = vstd::arithmetic::power2::pow2((exponent - 150) as nat) as int;
        vstd::arithmetic::power2::lemma_pow2_adds(149, (exponent - 150) as nat);
        let whole = digits * factor;
        assert(size == whole * unit) by (nonlinear_arith)
            requires
                size == digits * (unit * factor),
                whole == digits * factor,
        ;
        vstd::arithmetic::div_mod::lemma_fundamental_div_mod_converse(size, unit, whole, 0);
    }
}

/// A number with a small exponent is less than a row.
proof fn lemma_small_sizes(bits: u32)
    requires
        exponent_bits(bits) < 127,
    ensures
        unit_size(bits) < vstd::arithmetic::power2::pow2(149),
{
    let exponent = exponent_bits(bits);
    let digits = significand(bits) as int;
    vstd::arithmetic::power2::lemma2_to64();
    vstd::arithmetic::power2::lemma_pow2_adds(24, 125);
    let rest = vstd::arithmetic::power2::pow2(125) as int;
    vstd::arithmetic::power2::lemma_pow2_pos(125);
    if exponent == 0 {
        assert(unit_size(bits) < 0x1000000 * rest) by (nonlinear_arith)
            requires
                unit_size(bits) < 0x800000,
                rest >= 1,
        ;
    } else {
        let factor = vstd::arithmetic::power2::pow2((exponent - 1) as nat) as int;
        if exponent < 126 {
            vstd::arithmetic::power2::lemma_pow2_strictly_increases((exponent - 1) as nat, 125);
        }
        vstd::arithmetic::power2::lemma_pow2_pos((exponent - 1) as nat);
        assert(digits * factor < 0x1000000 * rest) by (nonlinear_arith)
            requires
                0 < digits < 0x1000000,
                0 < factor <= rest,
        ;
    }
}

/// The whole part and the fraction order distances as their exact sizes do.
pub proof fn law_units_order_distances(offset: RowOffset, rows: int)
    ensures
        offset.exceeds(rows) <==> offset.units() > rows * units_per_row(),
        offset.falls_short_of(rows) <==> offset.units() < rows * units_per_row(),
{
    let unit = units_per_row();
    vstd::arithmetic::power2::lemma_pow2_pos(149);
    match offset {
        RowOffset::Rows(whole) => {
            lemma_multiples_keep_order(whole as int, rows, unit);
        },
        RowOffset::Measured(bits) => {
            lemma_size_in_units(bits);
            let size = unit_size(bits) as int;
            let whole = whole_size(bits) as int;
            let rest = size % unit;
            vstd::arithmetic::div_mod::lemma_fundamental_div_mod(size, unit);
            assert(0 <= rest < unit);
            assert(size == whole * unit + rest) by (nonlinear_arith)
                requires
                    size == unit * whole + rest,
            ;
            if is_negative_bits(bits) {
                lemma_rests_keep_order(whole, -rows, rest, unit);
                assert(-rows * unit == -(rows * unit)) by (nonlinear_arith);
            } else {
                lemma_rests_keep_order(whole, rows, rest, unit);
            }
        },
    }
}

proof fn lemma_multiples_keep_order(a: int, b: int, unit: int)
    by (nonlinear_arith)
    requires
        unit > 0,
    ensures
        a < b <==> a * unit < b * unit,
        a > b <==> a * unit > b * unit,
{
}

proof fn lemma_rests_keep_order(whole: int, rows: int, rest: int, unit: int)
    requires
        0 <= rest < unit,
    ensures
        whole * unit + rest > rows * unit <==> whole > rows || (whole == rows && rest > 0),
        whole * unit + rest < rows * unit <==> whole < rows,
{
    lemma_multiples_keep_order(whole, rows, unit);
    if whole < rows {
        assert(whole * unit + unit <= rows * unit) by (nonlinear_arith)
            requires
                whole < rows,
                unit > 0,
        ;
    }
}

proof fn lemma_pow2_fits(exponent: nat)
    requires
        exponent <= 40,
    ensures
        1 <= vstd::arithmetic::power2::pow2(exponent) <= 0x100_0000_0000,
{
    vstd::arithmetic::power2::lemma2_to64();
    vstd::arithmetic::power2::lemma2_to64_rest();
    if exponent < 40 {
        vstd::arithmetic::power2::lemma_pow2_strictly_increases(exponent, 40);
    }
    vstd::arithmetic::power2::lemma_pow2_pos(exponent);
}

proof fn lemma_product_fits(value: nat, exponent: nat)
    requires
        value < 0x1000000,
        exponent <= 40,
    ensures
        value * vstd::arithmetic::power2::pow2(exponent) < u64::MAX,
{
    lemma_pow2_fits(exponent);
    let unit = vstd::arithmetic::power2::pow2(exponent);
    assert(value * unit <= 0xffff_ff00_0000_0000) by (nonlinear_arith)
        requires
            value <= 0xffffff,
            1 <= unit <= 0x100_0000_0000,
    ;
}

proof fn lemma_product_is_large(value: nat, exponent: nat)
    requires
        value >= 0x800000,
        exponent >= 41,
    ensures
        value * vstd::arithmetic::power2::pow2(exponent) > u64::MAX,
{
    vstd::arithmetic::power2::lemma2_to64();
    vstd::arithmetic::power2::lemma2_to64_rest();
    if exponent > 41 {
        vstd::arithmetic::power2::lemma_pow2_strictly_increases(41, exponent);
    }
    let unit = vstd::arithmetic::power2::pow2(exponent);
    assert(value * unit >= 0x1_0000_0000_0000_0000) by (nonlinear_arith)
        requires
            value >= 0x800000,
            unit >= 0x200_0000_0000,
    ;
}

/// The whole rows of a distance are what is left of it without its fraction:
/// they lie at it or between it and nothing, less than a row away.
pub proof fn law_whole_rows_are_cut_off(offset: RowOffset)
    ensures
        ({
            let unit = units_per_row();
            &&& offset.units() >= 0 ==> offset.whole() >= 0 && offset.whole() * unit
                <= offset.units() < (offset.whole() + 1) * unit
            &&& offset.units() <= 0 ==> offset.whole() <= 0 && (offset.whole() - 1) * unit
                < offset.units() <= offset.whole() * unit
            &&& offset.is_up() <==> offset.units() > 0
            &&& offset.is_down() <==> offset.units() < 0
            &&& offset.is_zero() <==> offset.units() == 0
        }),
{
    let whole = offset.whole();
    assert(0 * units_per_row() == 0) by (nonlinear_arith);
    law_units_order_distances(offset, whole);
    law_units_order_distances(offset, whole + 1);
    law_units_order_distances(offset, whole - 1);
    law_units_order_distances(offset, 0);
}

/// Distances that count as the same are equally long; a whole number of rows is
/// the same as every distance of that length.
pub proof fn law_same_distances_are_equally_long(offset: RowOffset, other: RowOffset)
    ensures
        offset.same_as(other) ==> offset.units() == other.units(),
        other is Rows && offset.units() == other.units() ==> offset.same_as(other)
            && other.same_as(offset),
{
    law_units_order_distances(offset, offset.whole());
    law_units_order_distances(other, other.whole());
    law_whole_rows_are_cut_off(offset);
    law_whole_rows_are_cut_off(other);
    if other is Rows {
        law_units_order_distances(offset, other.whole());
    }
}

/// Numbers are the same where their bits are, but for the two zeros, which are
/// the same, and for what is no number, which is not even the same as itself.
pub proof fn law_numbers_are_told_by_their_bits(a: u32, b: u32)
    ensures
        a % 0x80000000 > 0x7f800000 ==> !same_number(a, a) && !same_number(a, b) && !same_number(
            b,
            a,
        ),
        a % 0x80000000 <= 0x7f800000 ==> same_number(a, a),
        a != b && same_number(a, b) ==> a % 0x80000000 == 0 && b % 0x80000000 == 0,
        a % 0x80000000 == 0 && b % 0x80000000 == 0 ==> same_number(a, b),
{
}

} // verus!
