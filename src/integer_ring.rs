use crate::big::{
    big_add, big_cmp, big_mul, big_parse, big_prime_test, big_rem, big_rem_euc, big_sub,
    int_order, is_numeral, is_prime, numeral_value, passes_prime_test, trunc_rem, BigInt,
};
use crate::element::Element;
use crate::ring::Ring;
use crate::structure::{Lifter, Structure};
use vstd::prelude::*;
use vstd::std_specs::cmp::PartialEqSpec;

verus! {

/// The number of rounds of the probabilistic primality test.
pub const PRIME_TEST_ROUNDS: u32 = 100;

/// Why a numeral could not be read.
#[derive(Debug, Clone, Copy, PartialEq, Eq, Structural)]
pub enum ParseError {
    /// The radix lies outside 2 to 36.
    InvalidRadix,
    /// The text is not a numeral in the radix.
    InvalidNumeral,
}

/// The ring of all integers. It has no state: all its values are equal.
#[derive(Debug, Clone, Copy, PartialEq, Eq, Structural)]
pub struct IntegerRing;

/// The integer ring.
pub const ZZ: IntegerRing = IntegerRing;

/// An integer, as an element of the integer ring.
#[derive(Debug)]
pub struct IntegerRingElement {
    val: BigInt,
    parent: IntegerRing,
}

impl View for IntegerRingElement {
    type V = int;

    /// The integer.
    closed spec fn view(&self) -> int {
        self.val@
    }
}

impl Clone for IntegerRingElement {
    fn clone(&self) -> (r: Self)
        ensures
            r@ == self@,
    {
        IntegerRingElement { val: self.val.clone(), parent: self.parent }
    }
}

impl<'a> Structure<'a> for IntegerRing {
    type Child = IntegerRingElement;
}

impl<'a> Lifter<'a, i64> for IntegerRing {
    open spec fn lifts_to(&self, val: i64, r: IntegerRingElement) -> bool {
        r@ == val as int
    }

    fn lift(&'a self, val: i64) -> (r: IntegerRingElement) {
        IntegerRingElement { val: BigInt::from_i64(val), parent: *self }
    }
}

impl<'a> Lifter<'a, i32> for IntegerRing {
    open spec fn lifts_to(&self, val: i32, r: IntegerRingElement) -> bool {
        r@ == val as int
    }

    fn lift(&'a self, val: i32) -> (r: IntegerRingElement) {
        IntegerRingElement { val: BigInt::from_i64(val as i64), parent: *self }
    }
}

impl<'a> Lifter<'a, u64> for IntegerRing {
    open spec fn lifts_to(&self, val: u64, r: IntegerRingElement) -> bool {
        r@ == val as int
    }

    fn lift(&'a self, val: u64) -> (r: IntegerRingElement) {
        IntegerRingElement { val: BigInt::from_u64(val), parent: *self }
    }
}

impl IntegerRing {
    /// Reads a numeral in `radix`: an optional sign, then digits, with whitespace
    /// anywhere and underscores after the first digit.
    pub fn from_str_radix(&self, n_str: &str, radix: i32) -> (r: Result<
        IntegerRingElement,
        ParseError,
    >)
        ensures
            !(2 <= radix <= 36) ==> r == Err::<IntegerRingElement, ParseError>(
                ParseError::InvalidRadix,
            ),
            2 <= radix <= 36 && !is_numeral(n_str@, radix as int) ==> r == Err::<
                IntegerRingElement,
                ParseError,
            >(ParseError::InvalidNumeral),
            2 <= radix <= 36 && is_numeral(n_str@, radix as int) ==> r is Ok && r->Ok_0@
                == numeral_value(n_str@, radix as int),
    {
        if radix < 2 || radix > 36 {
            return Err(ParseError::InvalidRadix);
        }
        match big_parse(n_str, radix) {
            Ok(v) => Ok(IntegerRingElement { val: v, parent: *self }),
            Err(_) => Err(ParseError::InvalidNumeral),
        }
    }

    /// Reads a decimal numeral.
    pub fn from_str(&self, n_str: &str) -> (r: Result<IntegerRingElement, ParseError>)
        ensures
            !is_numeral(n_str@, 10) ==> r == Err::<IntegerRingElement, ParseError>(
                ParseError::InvalidNumeral,
            ),
            is_numeral(n_str@, 10) ==> r is Ok && r->Ok_0@ == numeral_value(n_str@, 10),
    {
        self.from_str_radix(n_str, 10)
    }
}

impl Element for IntegerRingElement {
    type Parent = IntegerRing;

    open spec fn owner(&self) -> IntegerRing {
        IntegerRing
    }

    fn parent(&self) -> (r: &IntegerRing) {
        &self.parent
    }
}

impl IntegerRingElement {
    /// Whether the integer passes the probabilistic primality test. Every prime
    /// passes; a number that fails is certainly not prime.
    pub fn is_prime(&self) -> (r: bool)
        ensures
            r == passes_prime_test(self@, PRIME_TEST_ROUNDS as int),
            is_prime(self@) ==> r,
    {
        big_prime_test(&self.val, PRIME_TEST_ROUNDS)
    }

    /// The remainder of Euclidean division by `m`: never negative, below `|m|`.
    pub fn modulo(&self, m: &IntegerRingElement) -> (r: IntegerRingElement)
        requires
            m@ != 0,
        ensures
            r@ == self@ % m@,
    {
        IntegerRingElement { val: big_rem_euc(&self.val, &m.val), parent: self.parent }
    }

    /// Replaces `self` with the remainder of `self / other`, rounded towards zero.
    pub fn rem_assign(&mut self, other: IntegerRingElement)
        requires
            other@ != 0,
        ensures
            final(self)@ == trunc_rem(old(self)@, other@),
    {
        self.val = big_rem(&self.val, &other.val);
    }
}

impl core::ops::Add for IntegerRingElement {
    type Output = IntegerRingElement;

    fn add(self, other: IntegerRingElement) -> (r: IntegerRingElement)
        ensures
            r@ == self@ + other@,
    {
        let mut res = self;
        res.add_in_place(other);
        res
    }
}

impl vstd::std_specs::ops::AddSpecImpl for IntegerRingElement {
    // The result is stated by the ensures of `add`, over the view.
    open spec fn obeys_add_spec() -> bool {
        false
    }

    open spec fn add_req(self, other: IntegerRingElement) -> bool {
        true
    }

    open spec fn add_spec(self, other: IntegerRingElement) -> IntegerRingElement {
        self
    }
}

impl core::ops::Sub for IntegerRingElement {
    type Output = IntegerRingElement;

    fn sub(self, other: IntegerRingElement) -> (r: IntegerRingElement)
        ensures
            r@ == self@ - other@,
    {
        let mut res = self;
        res.sub_in_place(other);
        res
    }
}

impl vstd::std_specs::ops::SubSpecImpl for IntegerRingElement {
    // The result is stated by the ensures of `sub`, over the view.
    open spec fn obeys_sub_spec() -> bool {
        false
    }

    open spec fn sub_req(self, other: IntegerRingElement) -> bool {
        true
    }

    open spec fn sub_spec(self, other: IntegerRingElement) -> IntegerRingElement {
        self
    }
}

impl core::ops::Mul for IntegerRingElement {
    type Output = IntegerRingElement;

    fn mul(self, other: IntegerRingElement) -> (r: IntegerRingElement)
        ensures
            r@ == self@ * other@,
    {
        let mut res = self;
        res.mul_in_place(other);
        res
    }
}

impl vstd::std_specs::ops::MulSpecImpl for IntegerRingElement {
    // The result is stated by the ensures of `mul`, over the view.
    open spec fn obeys_mul_spec() -> bool {
        false
    }

    open spec fn mul_req(self, other: IntegerRingElement) -> bool {
        true
    }

    open spec fn mul_spec(self, other: IntegerRingElement) -> IntegerRingElement {
        self
    }
}

impl core::ops::Rem for IntegerRingElement {
    type Output = IntegerRingElement;

    fn rem(self, other: IntegerRingElement) -> (r: IntegerRingElement)
        ensures
            r@ == trunc_rem(self@, other@),
    {
        let mut res = self;
        res.rem_assign(other);
        res
    }
}

impl vstd::std_specs::ops::RemSpecImpl for IntegerRingElement {
    // The result is stated by the ensures of `rem`, over the view.
    open spec fn obeys_rem_spec() -> bool {
        false
    }

    open spec fn rem_req(self, other: IntegerRingElement) -> bool {
        other@ != 0
    }

    open spec fn rem_spec(self, other: IntegerRingElement) -> IntegerRingElement {
        self
    }
}

impl core::ops::AddAssign for IntegerRingElement {
    fn add_assign(&mut self, other: IntegerRingElement)
        ensures
            final(self)@ == old(self)@ + other@,
    {
        self.add_in_place(other);
    }
}

impl core::ops::SubAssign for IntegerRingElement {
    fn sub_assign(&mut self, other: IntegerRingElement)
        ensures
            final(self)@ == old(self)@ - other@,
    {
        self.sub_in_place(other);
    }
}

impl core::ops::MulAssign for IntegerRingElement {
    fn mul_assign(&mut self, other: IntegerRingElement)
        ensures
            final(self)@ == old(self)@ * other@,
    {
        self.mul_in_place(other);
    }
}

impl Ring for IntegerRingElement {
    fn add_in_place(&mut self, other: IntegerRingElement)
        ensures
            final(self)@ == old(self)@ + other@,
    {
        self.val = big_add(&self.val, &other.val);
    }

    fn sub_in_place(&mut self, other: IntegerRingElement)
        ensures
            final(self)@ == old(self)@ - other@,
    {
        self.val = big_sub(&self.val, &other.val);
    }

    fn mul_in_place(&mut self, other: IntegerRingElement)
        ensures
            final(self)@ == old(self)@ * other@,
    {
        self.val = big_mul(&self.val, &other.val);
    }
}

impl PartialEq for IntegerRingElement {
    fn eq(&self, other: &IntegerRingElement) -> (r: bool) {
        matches!(big_cmp(&self.val, &other.val), core::cmp::Ordering::Equal)
    }
}

impl vstd::std_specs::cmp::PartialEqSpecImpl for IntegerRingElement {
    open spec fn obeys_eq_spec() -> bool {
        true
    }

    open spec fn eq_spec(&self, other: &IntegerRingElement) -> bool {
        self@ == other@
    }
}

impl Eq for IntegerRingElement {

}

impl PartialOrd for IntegerRingElement {
    fn partial_cmp(&self, other: &IntegerRingElement) -> (r: Option<core::cmp::Ordering>) {
        Some(big_cmp(&self.val, &other.val))
    }
}

impl vstd::std_specs::cmp::PartialOrdSpecImpl for IntegerRingElement {
    open spec fn obeys_partial_cmp_spec() -> bool {
        true
    }

    open spec fn partial_cmp_spec(&self, other: &IntegerRingElement) -> Option<
        core::cmp::Ordering,
    > {
        Some(int_order(self@, other@))
    }
}

} // verus!

verus! {

/// Making elements commutes with `+`: when `x` and `y` are made from `a` and `b`,
/// `s` is `x + y` and `z` is made from `a + b`, then `s == z`.
pub proof fn lemma_lift_add(
    a: int,
    b: int,
    x: IntegerRingElement,
    y: IntegerRingElement,
    s: IntegerRingElement,
    z: IntegerRingElement,
)
    requires
        x@ == a,
        y@ == b,
        s@ == x@ + y@,
        z@ == a + b,
    ensures
        s.eq_spec(&z),
{
}

/// Making elements commutes with `-`: when `x` and `y` are made from `a` and `b`,
/// `s` is `x - y` and `z` is made from `a - b`, then `s == z`.
pub proof fn lemma_lift_sub(
    a: int,
    b: int,
    x: IntegerRingElement,
    y: IntegerRingElement,
    s: IntegerRingElement,
    z: IntegerRingElement,
)
    requires
        x@ == a,
        y@ == b,
        s@ == x@ - y@,
        z@ == a - b,
    ensures
        s.eq_spec(&z),
{
}

/// Making elements commutes with `*`: when `x` and `y` are made from `a` and `b`,
/// `s` is `x * y` and `z` is made from `a * b`, then `s == z`.
pub proof fn lemma_lift_mul(
    a: int,
    b: int,
    x: IntegerRingElement,
    y: IntegerRingElement,
    s: IntegerRingElement,
    z: IntegerRingElement,
)
    requires
        x@ == a,
        y@ == b,
        s@ == x@ * y@,
        z@ == a * b,
    ensures
        s.eq_spec(&z),
{
}

} // verus!
