//! Algebraic domains and their elements: the ring of integers, with exact
//! arbitrary-precision arithmetic, and the fields of integers modulo a prime.
pub mod big;
pub mod element;
pub mod finite_field;
pub mod integer_ring;
pub mod ring;
pub mod structure;

pub use element::Element;
pub use finite_field::{DomainMismatchError, FiniteField, FiniteFieldElement, InvalidOrderError, GF};
pub use integer_ring::{IntegerRing, IntegerRingElement, ParseError, ZZ};
pub use ring::Ring;
pub use structure::{Lifter, Structure};
