use vstd::prelude::*;

verus! {

/// 2^128, the weight of the high half of a field element.
pub open spec fn two_pow_128() -> int {
    0x10000000000000000int * 0x10000000000000000int
}

/// The order of the Starknet prime field: 2^251 + 17 * 2^192 + 1.
pub open spec fn field_prime() -> int {
    0x8000000000000110000000000000000 * two_pow_128() + 1
}

/// High half of the field order.
pub const PRIME_HI: u128 = 0x8000000000000110000000000000000;

/// A field element, held as a 256-bit big-endian integer in two halves.
/// A well-formed element is below the field order.
#[derive(Clone, Copy, Debug, PartialEq, Eq, Structural)]
pub struct Felt {
    pub hi: u128,
    pub lo: u128,
}

impl Felt {
    /// The integer this element stands for.
    pub open spec fn value(self) -> int {
        self.hi as int * two_pow_128() + self.lo as int
    }

    pub open spec fn wf(self) -> bool {
        self.value() < field_prime()
    }

    pub fn zero() -> (r: Felt)
        ensures
            r.value() == 0,
            r.wf(),
    {
        Felt { hi: 0, lo: 0 }
    }

    pub fn from_u128(v: u128) -> (r: Felt)
        ensures
            r.value() == v,
            r.wf(),
    {
        Felt { hi: 0, lo: v }
    }

    /// Checks that the element is below the field order.
    pub fn is_valid(&self) -> (r: bool)
        ensures
            r == self.wf(),
    {
        proof {
            let hi = self.hi as int;
            let lo = self.lo as int;
            let ph = PRIME_HI as int;
            let t = two_pow_128();
            assert(hi < ph ==> hi * t + lo < ph * t + 1) by (nonlinear_arith)
                requires
                    0 <= lo < t,
            ;
            assert(hi > ph ==> hi * t + lo >= ph * t + t) by (nonlinear_arith)
                requires
                    lo >= 0,
                    t > 0,
            ;
        }
        self.hi < PRIME_HI || (self.hi == PRIME_HI && self.lo == 0)
    }

    /// The element with the given halves, if it lies below the field order.
    pub fn new(hi: u128, lo: u128) -> (r: Option<Felt>)
        ensures
            r == (if (Felt { hi, lo }).wf() {
                Some(Felt { hi, lo })
            } else {
                None
            }),
    {
        let f = Felt { hi, lo };
        if f.is_valid() {
            Some(f)
        } else {
            None
        }
    }
}

} // verus!
