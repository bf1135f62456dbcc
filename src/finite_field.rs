use crate::big::{is_prime, passes_prime_test};
use crate::element::Element;
use crate::integer_ring::{IntegerRing, IntegerRingElement, PRIME_TEST_ROUNDS, ZZ};
use crate::structure::{Lifter, Structure};
use vstd::arithmetic::div_mod::lemma_mod_multiples_vanish;
use vstd::prelude::*;
use vstd::std_specs::cmp::PartialEqSpec;

verus! {

/// The order given for a field is not prime.
#[derive(Debug, Clone, Copy, PartialEq, Eq, Structural)]
pub struct InvalidOrderError;

/// Two elements of fields of different orders were combined.
#[derive(Debug, Clone, Copy, PartialEq, Eq, Structural)]
pub struct DomainMismatchError;

/// The field of integers modulo a prime.
#[derive(Debug)]
pub struct FiniteField {
    order: IntegerRingElement,
}

impl View for FiniteField {
    type V = int;

    /// The order of the field.
    closed spec fn view(&self) -> int {
        self.order@
    }
}

impl FiniteField {
    #[verifier::type_invariant]
    spec fn inv(&self) -> bool {
        &&& self.order@ >= 2
        &&& passes_prime_test(self.order@, PRIME_TEST_ROUNDS as int)
    }

    /// The field of order `order`, given whether `order` passed the primality test
    /// of `IntegerRingElement::is_prime`. A field needs an order of at least 2
    /// that passed.
    pub fn from_prime_test(order: IntegerRingElement, passed: bool) -> (r: Result<
        FiniteField,
        InvalidOrderError,
    >)
        requires
            passed == passes_prime_test(order@, PRIME_TEST_ROUNDS as int),
        ensures
            r is Ok <==> order@ >= 2 && passed,
            r is Ok ==> r->Ok_0@ == order@,
            r is Err ==> r == Err::<FiniteField, InvalidOrderError>(InvalidOrderError),
    {
        if !passed || order < ZZ.lift(2i64) {
            Err(InvalidOrderError)
        } else {
            Ok(FiniteField { order })
        }
    }

    /// The field of order `order`. It fails when `order` is below 2 or fails the
    /// probabilistic primality test; a prime order always succeeds.
    pub fn new(order: IntegerRingElement) -> (r: Result<FiniteField, InvalidOrderError>)
        ensures
            r is Ok <==> order@ >= 2 && passes_prime_test(order@, PRIME_TEST_ROUNDS as int),
            is_prime(order@) ==> r is Ok,
            r is Ok ==> r->Ok_0@ == order@,
            r is Err ==> r == Err::<FiniteField, InvalidOrderError>(InvalidOrderError),
    {
        let passed = order.is_prime();
        FiniteField::from_prime_test(order, passed)
    }

    /// The order of the field.
    pub fn order(&self) -> (r: &IntegerRingElement)
        ensures
            r@ == self@,
    {
        &self.order
    }
}

/// The Galois field of order `order`: the same as `FiniteField::new`.
#[allow(non_snake_case)]
pub fn GF(order: IntegerRingElement) -> (r: Result<FiniteField, InvalidOrderError>)
    ensures
        r is Ok <==> order@ >= 2 && passes_prime_test(order@, PRIME_TEST_ROUNDS as int),
        is_prime(order@) ==> r is Ok,
        r is Ok ==> r->Ok_0@ == order@,
        r is Err ==> r == Err::<FiniteField, InvalidOrderError>(InvalidOrderError),
{
    FiniteField::new(order)
}

impl Clone for FiniteField {
    fn clone(&self) -> (r: Self)
        ensures
            r@ == self@,
    {
        proof {
            use_type_invariant(self);
        }
        FiniteField { order: self.order.clone() }
    }
}

impl PartialEq for FiniteField {
    fn eq(&self, other: &FiniteField) -> (r: bool) {
        self.order == other.order
    }
}

impl vstd::std_specs::cmp::PartialEqSpecImpl for FiniteField {
    open spec fn obeys_eq_spec() -> bool {
        true
    }

    open spec fn eq_spec(&self, other: &FiniteField) -> bool {
        self@ == other@
    }
}

impl Eq for FiniteField {

}

/// An element of a finite field: a residue in `[0, order)`, tied to its field.
#[derive(Debug)]
pub struct FiniteFieldElement<'a> {
    val: IntegerRingElement,
    parent: &'a FiniteField,
}

impl<'a> View for FiniteFieldElement<'a> {
    type V = int;

    /// The residue.
    closed spec fn view(&self) -> int {
        self.val@
    }
}

impl<'a> FiniteFieldElement<'a> {
    /// The field that made this element.
    pub closed spec fn field(&self) -> FiniteField {
        *self.parent
    }

    /// The residue, in `[0, order)`.
    pub fn value(&self) -> (r: &IntegerRingElement)
        ensures
            r@ == self@,
    {
        &self.val
    }

    /// The sum of two elements of the same field.
    pub fn add(&self, other: &FiniteFieldElement<'a>) -> (r: Result<
        FiniteFieldElement<'a>,
        DomainMismatchError,
    >)
        ensures
            self.field()@ != other.field()@ ==> r == Err::<
                FiniteFieldElement<'a>,
                DomainMismatchError,
            >(DomainMismatchError),
            self.field()@ == other.field()@ ==> r is Ok && r->Ok_0@ == (self@ + other@)
                % self.field()@ && r->Ok_0.field() == self.field(),
    {
        if !(self.parent.order == other.parent.order) {
            return Err(DomainMismatchError);
        }
        Ok(self.parent.lift(self.val.clone() + other.val.clone()))
    }

    /// The difference of two elements of the same field.
    pub fn sub(&self, other: &FiniteFieldElement<'a>) -> (r: Result<
        FiniteFieldElement<'a>,
        DomainMismatchError,
    >)
        ensures
            self.field()@ != other.field()@ ==> r == Err::<
                FiniteFieldElement<'a>,
                DomainMismatchError,
            >(DomainMismatchError),
            self.field()@ == other.field()@ ==> r is Ok && r->Ok_0@ == (self@ - other@)
                % self.field()@ && r->Ok_0.field() == self.field(),
    {
        if !(self.parent.order == other.parent.order) {
            return Err(DomainMismatchError);
        }
        Ok(self.parent.lift(self.val.clone() - other.val.clone()))
    }

    /// The product of two elements of the same field.
    pub fn mul(&self, other: &FiniteFieldElement<'a>) -> (r: Result<
        FiniteFieldElement<'a>,
        DomainMismatchError,
    >)
        ensures
            self.field()@ != other.field()@ ==> r == Err::<
                FiniteFieldElement<'a>,
                DomainMismatchError,
            >(DomainMismatchError),
            self.field()@ == other.field()@ ==> r is Ok && r->Ok_0@ == (self@ * other@)
                % self.field()@ && r->Ok_0.field() == self.field(),
    {
        if !(self.parent.order == other.parent.order) {
            return Err(DomainMismatchError);
        }
        Ok(self.parent.lift(self.val.clone() * other.val.clone()))
    }
}

impl<'a> Structure<'a> for FiniteField {
    type Child = FiniteFieldElement<'a>;
}

impl<'a> Lifter<'a, IntegerRingElement> for FiniteField {
    open spec fn lifts_to(&self, val: IntegerRingElement, r: FiniteFieldElement<'a>) -> bool {
        r@ == val@ % self@ && r.field() == *self
    }

    /// The residue of `val`, by Euclidean division: in `[0, order)` whatever the
    /// sign of `val`.
    fn lift(&'a self, val: IntegerRingElement) -> (r: FiniteFieldElement<'a>)
        ensures
            0 <= r@ < self@,
    {
        proof {
            use_type_invariant(self);
        }
        FiniteFieldElement { val: val.modulo(&self.order), parent: self }
    }
}

impl<'a> Lifter<'a, i64> for FiniteField {
    open spec fn lifts_to(&self, val: i64, r: FiniteFieldElement<'a>) -> bool {
        r@ == val as int % self@ && r.field() == *self
    }

    /// The residue of `val`, by Euclidean division: in `[0, order)` whatever the
    /// sign of `val`.
    fn lift(&'a self, val: i64) -> (r: FiniteFieldElement<'a>)
        ensures
            0 <= r@ < self@,
    {
        self.lift(ZZ.lift(val))
    }
}

impl<'a> Element for FiniteFieldElement<'a> {
    type Parent = FiniteField;

    open spec fn owner(&self) -> FiniteField {
        self.field()
    }

    fn parent(&self) -> (r: &FiniteField) {
        self.parent
    }
}

impl<'a> PartialEq for FiniteFieldElement<'a> {
    fn eq(&self, other: &FiniteFieldElement<'a>) -> (r: bool) {
        self.val == other.val && self.parent.order == other.parent.order
    }
}

impl<'a> vstd::std_specs::cmp::PartialEqSpecImpl for FiniteFieldElement<'a> {
    open spec fn obeys_eq_spec() -> bool {
        true
    }

    /// Equal residues in fields of equal order.
    open spec fn eq_spec(&self, other: &FiniteFieldElement<'a>) -> bool {
        self@ == other@ && self.field()@ == other.field()@
    }
}

impl<'a> Eq for FiniteFieldElement<'a> {

}

/// Reduction is periodic: in a field of order `p`, the elements made from `v` and
/// from `v + k * p` are equal, for every integer `k`.
pub proof fn lemma_lift_periodic<'a>(
    f: FiniteField,
    v: IntegerRingElement,
    w: IntegerRingElement,
    k: int,
    x: FiniteFieldElement<'a>,
    y: FiniteFieldElement<'a>,
)
    requires
        f@ >= 2,
        w@ == v@ + k * f@,
        f.lifts_to(v, x),
        f.lifts_to(w, y),
    ensures
        x.eq_spec(&y),
{
    lemma_mod_multiples_vanish(k, v@, f@);
    assert(f@ * k + v@ == w@) by (nonlinear_arith)
        requires
            w@ == v@ + k * f@,
    ;
}

} // verus!
