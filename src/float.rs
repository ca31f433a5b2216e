use vstd::prelude::*;

verus! {

/// The sign bit of a binary64 bit pattern.
pub const SIGN_BIT: u64 = 0x8000_0000_0000_0000;

/// The bit pattern of positive infinity; any larger magnitude is a NaN.
pub const INFINITY_BITS: u64 = 0x7ff0_0000_0000_0000;

/// A binary64 floating-point number, held as its IEEE-754 bit pattern.
///
/// A binary32 value is held widened to binary64, which is exact and keeps
/// every comparison between values as it was.
#[derive(Clone, Copy, Debug)]
pub struct Float {
    pub bits: u64,
}

impl Float {
    /// The magnitude bits: the pattern without its sign.
    pub open spec fn magnitude(self) -> nat {
        (self.bits % SIGN_BIT) as nat
    }

    pub open spec fn negative(self) -> bool {
        self.bits >= SIGN_BIT
    }

    pub open spec fn spec_is_nan(self) -> bool {
        self.magnitude() > INFINITY_BITS
    }

    /// A position on the number line: for values that are not NaN, `key`
    /// orders them as their real values are ordered, and both zeros share 0.
    pub open spec fn key(self) -> int {
        if self.negative() {
            -(self.magnitude() as int)
        } else {
            self.magnitude() as int
        }
    }

    /// IEEE-754 `a == b`: false whenever either side is NaN.
    pub open spec fn spec_eq(self, o: Float) -> bool {
        !self.spec_is_nan() && !o.spec_is_nan() && self.key() == o.key()
    }

    /// IEEE-754 `a < b`.
    pub open spec fn spec_lt(self, o: Float) -> bool {
        !self.spec_is_nan() && !o.spec_is_nan() && self.key() < o.key()
    }

    /// IEEE-754 `a <= b`.
    pub open spec fn spec_le(self, o: Float) -> bool {
        !self.spec_is_nan() && !o.spec_is_nan() && self.key() <= o.key()
    }

    pub fn from_bits(bits: u64) -> (r: Float)
        ensures
            r.bits == bits,
    {
        Float { bits }
    }

    pub fn to_bits(&self) -> (r: u64)
        ensures
            r == self.bits,
    {
        self.bits
    }

    pub fn is_nan(&self) -> (r: bool)
        ensures
            r == self.spec_is_nan(),
    {
        self.bits % SIGN_BIT > INFINITY_BITS
    }

    /// The key of a value, which fits in an `i64`.
    fn key_exec(&self) -> (r: i64)
        ensures
            r as int == self.key(),
    {
        let m: u64 = self.bits % SIGN_BIT;
        if self.bits >= SIGN_BIT {
            -(m as i64)
        } else {
            m as i64
        }
    }

    /// `self == o` as IEEE-754 compares.
    pub fn eq_value(&self, o: &Float) -> (r: bool)
        ensures
            r == self.spec_eq(*o),
    {
        !self.is_nan() && !o.is_nan() && self.key_exec() == o.key_exec()
    }

    /// `self < o` as IEEE-754 compares.
    pub fn lt(&self, o: &Float) -> (r: bool)
        ensures
            r == self.spec_lt(*o),
    {
        !self.is_nan() && !o.is_nan() && self.key_exec() < o.key_exec()
    }

    /// `self <= o` as IEEE-754 compares.
    pub fn le(&self, o: &Float) -> (r: bool)
        ensures
            r == self.spec_le(*o),
    {
        !self.is_nan() && !o.is_nan() && self.key_exec() <= o.key_exec()
    }
}

} // verus!
