use vstd::prelude::*;

verus! {

/// A real-valued quantity (a metric reading, a threshold, a factor, a weight
/// or a confidence), held as its IEEE-754 binary64 encoding.
///
/// `gt`, `lt` and `clamp` follow the IEEE-754 rules: a NaN compares neither
/// less nor greater than anything, and the two zeros compare equal. `==` on
/// this type compares encodings.
#[derive(Clone, Copy, Debug, PartialEq, Eq, Structural)]
pub struct MetricValue {
    pub bits: u64,
}

/// The sign bit of a binary64 encoding.
pub const SIGN_BIT: u64 = 0x8000_0000_0000_0000;

/// The encoding of positive infinity; magnitudes above it encode NaNs.
pub const INFINITY_BITS: u64 = 0x7FF0_0000_0000_0000;

impl MetricValue {
    /// The encoding without its sign bit.
    pub open spec fn magnitude(self) -> int {
        (self.bits % SIGN_BIT) as int
    }

    pub open spec fn is_negative_encoding(self) -> bool {
        self.bits >= SIGN_BIT
    }

    /// Whether the encoding is a NaN.
    pub open spec fn is_nan(self) -> bool {
        self.magnitude() > INFINITY_BITS
    }

    /// An integer that orders the encoded numbers: for two encodings that are
    /// not NaN, the encoded numbers compare as their keys do (both zeros have
    /// key 0, and the infinities have the extreme keys).
    pub open spec fn order_key(self) -> int {
        if self.is_negative_encoding() {
            -self.magnitude()
        } else {
            self.magnitude()
        }
    }

    /// `self > other` on the encoded numbers.
    pub open spec fn greater_than(self, other: MetricValue) -> bool {
        &&& !self.is_nan()
        &&& !other.is_nan()
        &&& self.order_key() > other.order_key()
    }

    /// `self < other` on the encoded numbers.
    pub open spec fn less_than(self, other: MetricValue) -> bool {
        other.greater_than(self)
    }

    /// The value with the given encoding.
    pub fn from_bits(bits: u64) -> (v: MetricValue)
        ensures
            v.bits == bits,
    {
        MetricValue { bits }
    }

    fn key_parts(&self) -> (parts: (bool, u64))
        ensures
            parts.0 == self.is_negative_encoding(),
            parts.1 == self.magnitude(),
    {
        if self.bits >= SIGN_BIT {
            (true, self.bits - SIGN_BIT)
        } else {
            (false, self.bits)
        }
    }

    /// Whether the encoding is a NaN.
    pub fn nan(&self) -> (b: bool)
        ensures
            b == self.is_nan(),
    {
        let (_, m) = self.key_parts();
        m > INFINITY_BITS
    }

    /// `self > other`, as IEEE-754 compares binary64 numbers.
    pub fn gt(&self, other: &MetricValue) -> (b: bool)
        ensures
            b == self.greater_than(*other),
    {
        if self.nan() || other.nan() {
            return false;
        }
        let (sn, sm) = self.key_parts();
        let (on, om) = other.key_parts();
        if !sn && !on {
            sm > om
        } else if sn && on {
            sm < om
        } else if !sn && on {
            sm > 0 || om > 0
        } else {
            false
        }
    }

    /// `self < other`, as IEEE-754 compares binary64 numbers.
    pub fn lt(&self, other: &MetricValue) -> (b: bool)
        ensures
            b == self.less_than(*other),
    {
        other.gt(self)
    }

    /// `self` limited to the range from `min` to `max`: `min` when `self` is
    /// below it, `max` when `self` is above it, otherwise `self` (a NaN stays).
    pub fn clamp(&self, min: &MetricValue, max: &MetricValue) -> (v: MetricValue)
        requires
            !min.is_nan(),
            !max.is_nan(),
            min.order_key() <= max.order_key(),
        ensures
            v == (if self.less_than(*min) {
                *min
            } else if self.greater_than(*max) {
                *max
            } else {
                *self
            }),
    {
        if self.lt(min) {
            *min
        } else if self.gt(max) {
            *max
        } else {
            *self
        }
    }
}

/// The encoding of 0.0.
pub const ZERO_BITS: u64 = 0x0000_0000_0000_0000;

/// The encoding of 1.0.
pub const ONE_BITS: u64 = 0x3FF0_0000_0000_0000;

} // verus!
