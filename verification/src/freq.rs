use vstd::prelude::*;

verus! {

/// A frequency, stored as an unsigned 64-bit count of hertz.
///
/// All rate comparisons and thresholds in this crate operate on this unit.
#[derive(Clone, Copy, Debug, PartialEq, Eq, Structural)]
pub struct Frequency {
    pub hertz: u64,
}

impl Frequency {
    pub fn new_hertz(hertz: u64) -> (r: Frequency)
        ensures
            r.hertz == hertz,
    {
        Frequency { hertz }
    }

    pub fn get_hertz(&self) -> (r: u64)
        ensures
            r == self.hertz,
    {
        self.hertz
    }
}

/// A hertz count reinterpreted as a signed 64-bit attribute value, with
/// two's-complement wrap-around for counts above `i64::MAX`.
pub open spec fn wrap_to_i64(v: u64) -> i64 {
    if v <= i64::MAX as u64 {
        v as i64
    } else {
        (v as int - 0x10000000000000000) as i64
    }
}

/// Converts a hertz count to the signed attribute representation,
/// wrapping like an `as` cast does.
pub fn to_i64_wrapping(v: u64) -> (r: i64)
    ensures
        r == wrap_to_i64(v),
{
    if v <= 9223372036854775807u64 {
        v as i64
    } else {
        let reduced = v - 9223372036854775808u64;
        (reduced as i64) + i64::MIN
    }
}

} // verus!
