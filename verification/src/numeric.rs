use vstd::prelude::*;

verus! {

/// A real-valued quantity carried through the library untouched: the
/// IEEE-754 binary64 bit pattern of the value. The library never computes
/// with it; it stores, compares by identity and hands it back.
#[derive(Clone, Copy, Debug, PartialEq, Eq, Structural)]
pub struct RealBits(pub u64);

/// A non-negative decimal quantity counted in thousandths, so that
/// `Milli(343_000)` stands for 343.000. Every configured constant of the
/// service is an exact multiple of one thousandth.
#[derive(Clone, Copy, Debug, PartialEq, Eq, Structural)]
pub struct Milli(pub u64);

} // verus!
