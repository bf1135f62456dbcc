use rug::integer::{IsPrime, Order};
use vstd::prelude::*;

verus! {

/// The radix of one limb.
pub open spec fn limb_base() -> nat {
    0x1_0000_0000_0000_0000
}

/// The value of little-endian limbs.
pub open spec fn limbs_value(s: Seq<u64>) -> nat
    decreases s.len(),
{
    if s.len() == 0 {
        0
    } else {
        s[0] as nat + limb_base() * limbs_value(s.drop_first())
    }
}

/// The remainder of division rounded towards zero: it has the sign of `a`.
pub open spec fn trunc_rem(a: int, b: int) -> int {
    if a >= 0 {
        a % b
    } else {
        -((-a) % b)
    }
}

/// The order of two integers.
pub open spec fn int_order(a: int, b: int) -> core::cmp::Ordering {
    if a < b {
        core::cmp::Ordering::Less
    } else if a == b {
        core::cmp::Ordering::Equal
    } else {
        core::cmp::Ordering::Greater
    }
}

/// A prime: at least 2 and without a divisor strictly between 1 and itself.
pub open spec fn is_prime(n: int) -> bool {
    n >= 2 && forall|d: int| 2 <= d < n ==> #[trigger] (n % d) != 0
}

/// Whether `n` passes the probabilistic primality test with `reps` rounds.
pub uninterp spec fn passes_prime_test(n: int, reps: int) -> bool;

/// ASCII whitespace, which a numeral may hold anywhere.
pub open spec fn is_blank(c: char) -> bool {
    c == ' ' || c == '\t' || c == '\n' || c == '\x0b' || c == '\x0c' || c == '\r'
}

/// The digit that `c` stands for in bases up to 36; 36 for any other character.
pub open spec fn digit_value(c: char) -> int {
    let u = c as u32 as int;
    if 48 <= u <= 57 {
        u - 48
    } else if 97 <= u <= 122 {
        u - 97 + 10
    } else if 65 <= u <= 90 {
        u - 65 + 10
    } else {
        36
    }
}

/// The characters of `s` other than whitespace.
pub open spec fn without_blanks(s: Seq<char>) -> Seq<char> {
    s.filter(|c: char| !is_blank(c))
}

/// Whether the numeral starts with a sign, whitespace aside.
pub open spec fn has_sign(s: Seq<char>) -> bool {
    let t = without_blanks(s);
    t.len() > 0 && (t[0] == '+' || t[0] == '-')
}

/// The numeral's digits and separators: whitespace and a leading sign removed.
pub open spec fn numeral_body(s: Seq<char>) -> Seq<char> {
    let t = without_blanks(s);
    if has_sign(s) {
        t.drop_first()
    } else {
        t
    }
}

/// A numeral in `radix`: an optional sign, then a digit, then digits and underscores,
/// with whitespace anywhere.
pub open spec fn is_numeral(s: Seq<char>, radix: int) -> bool {
    let b = numeral_body(s);
    &&& b.len() > 0
    &&& digit_value(b[0]) < radix
    &&& forall|i: int| 1 <= i < b.len() ==> b[i] == '_' || #[trigger] digit_value(b[i]) < radix
}

/// The value of digits written most significant first.
pub open spec fn digits_value(d: Seq<char>, radix: int) -> int
    decreases d.len(),
{
    if d.len() == 0 {
        0
    } else {
        digits_value(d.drop_last(), radix) * radix + digit_value(d.last())
    }
}

/// The integer that the numeral `s` writes in `radix`.
pub open spec fn numeral_value(s: Seq<char>, radix: int) -> int {
    let v = digits_value(numeral_body(s).filter(|c: char| c != '_'), radix);
    if has_sign(s) && without_blanks(s)[0] == '-' {
        -v
    } else {
        v
    }
}

/// An arbitrary-precision integer held as a sign and the little-endian limbs of
/// its magnitude.
#[derive(Debug)]
pub struct BigInt {
    negative: bool,
    limbs: Vec<u64>,
}

impl View for BigInt {
    type V = int;

    closed spec fn view(&self) -> int {
        if self.negative {
            -(limbs_value(self.limbs@) as int)
        } else {
            limbs_value(self.limbs@) as int
        }
    }
}

impl Clone for BigInt {
    fn clone(&self) -> (r: Self)
        ensures
            r@ == self@,
    {
        let r = BigInt { negative: self.negative, limbs: self.limbs.clone() };
        assert(r.limbs@ =~= self.limbs@);
        r
    }
}

impl BigInt {
    /// The integer `-mag` when `negative`, else `mag`.
    pub fn from_sign_magnitude(negative: bool, mag: u64) -> (r: BigInt)
        ensures
            r@ == (if negative {
                -(mag as int)
            } else {
                mag as int
            }),
    {
        let mut limbs: Vec<u64> = Vec::new();
        limbs.push(mag);
        proof {
            assert(limbs@.drop_first() =~= Seq::<u64>::empty());
            assert(limbs_value(limbs@) == mag as nat + limb_base() * limbs_value(
                limbs@.drop_first(),
            ));
        }
        BigInt { negative, limbs }
    }

    /// The integer `v`.
    pub fn from_i64(v: i64) -> (r: BigInt)
        ensures
            r@ == v as int,
    {
        if v < 0 {
            BigInt::from_sign_magnitude(true, (-(v as i128)) as u64)
        } else {
            BigInt::from_sign_magnitude(false, v as u64)
        }
    }

    /// The integer `v`.
    pub fn from_u64(v: u64) -> (r: BigInt)
        ensures
            r@ == v as int,
    {
        BigInt::from_sign_magnitude(false, v)
    }
}

/// Relies on rug's `Integer + Integer`: the exact sum.
#[verifier::external_body]
pub(crate) fn big_add(a: &BigInt, b: &BigInt) -> (r: BigInt)
    ensures
        r@ == a@ + b@,
{
    let x = rug::Integer::from_digits(&a.limbs, Order::Lsf);
    let x = if a.negative { -x } else { x };
    let y = rug::Integer::from_digits(&b.limbs, Order::Lsf);
    let y = if b.negative { -y } else { y };
    let s = x + y;
    BigInt { negative: s.cmp0() == core::cmp::Ordering::Less, limbs: s.to_digits(Order::Lsf) }
}

/// Relies on rug's `Integer - Integer`: the exact difference.
#[verifier::external_body]
pub(crate) fn big_sub(a: &BigInt, b: &BigInt) -> (r: BigInt)
    ensures
        r@ == a@ - b@,
{
    let x = rug::Integer::from_digits(&a.limbs, Order::Lsf);
    let x = if a.negative { -x } else { x };
    let y = rug::Integer::from_digits(&b.limbs, Order::Lsf);
    let y = if b.negative { -y } else { y };
    let s = x - y;
    BigInt { negative: s.cmp0() == core::cmp::Ordering::Less, limbs: s.to_digits(Order::Lsf) }
}

/// Relies on rug's `Integer * Integer`: the exact product.
#[verifier::external_body]
pub(crate) fn big_mul(a: &BigInt, b: &BigInt) -> (r: BigInt)
    ensures
        r@ == a@ * b@,
{
    let x = rug::Integer::from_digits(&a.limbs, Order::Lsf);
    let x = if a.negative { -x } else { x };
    let y = rug::Integer::from_digits(&b.limbs, Order::Lsf);
    let y = if b.negative { -y } else { y };
    let s = x * y;
    BigInt { negative: s.cmp0() == core::cmp::Ordering::Less, limbs: s.to_digits(Order::Lsf) }
}

/// Relies on rug's `Integer % Integer` (GMP's `mpz_tdiv_r`): the remainder of
/// division rounded towards zero, with the sign of the dividend. It panics on a
/// zero divisor.
#[verifier::external_body]
pub(crate) fn big_rem(a: &BigInt, b: &BigInt) -> (r: BigInt)
    requires
        b@ != 0,
    ensures
        r@ == trunc_rem(a@, b@),
{
    let x = rug::Integer::from_digits(&a.limbs, Order::Lsf);
    let x = if a.negative { -x } else { x };
    let y = rug::Integer::from_digits(&b.limbs, Order::Lsf);
    let y = if b.negative { -y } else { y };
    let s = x % y;
    BigInt { negative: s.cmp0() == core::cmp::Ordering::Less, limbs: s.to_digits(Order::Lsf) }
}

/// Relies on rug's `Integer::div_rem_euc`: the remainder of Euclidean division,
/// never negative. It panics on a zero divisor.
#[verifier::external_body]
pub(crate) fn big_rem_euc(a: &BigInt, b: &BigInt) -> (r: BigInt)
    requires
        b@ != 0,
    ensures
        r@ == a@ % b@,
{
    let x = rug::Integer::from_digits(&a.limbs, Order::Lsf);
    let x = if a.negative { -x } else { x };
    let y = rug::Integer::from_digits(&b.limbs, Order::Lsf);
    let y = if b.negative { -y } else { y };
    let s = x.div_rem_euc(y).1;
    BigInt { negative: s.cmp0() == core::cmp::Ordering::Less, limbs: s.to_digits(Order::Lsf) }
}

/// Relies on rug's `Ord::cmp` for `Integer`: the order of the two values.
#[verifier::external_body]
pub(crate) fn big_cmp(a: &BigInt, b: &BigInt) -> (r: core::cmp::Ordering)
    ensures
        r == int_order(a@, b@),
{
    let x = rug::Integer::from_digits(&a.limbs, Order::Lsf);
    let x = if a.negative { -x } else { x };
    let y = rug::Integer::from_digits(&b.limbs, Order::Lsf);
    let y = if b.negative { -y } else { y };
    x.cmp(&y)
}

/// Relies on rug's `Integer::is_probably_prime`: it answers `No` only for a number
/// it has shown not to be prime, so a prime always passes, and the answer depends
/// on the number and the round count alone. It panics on a count beyond `i32`.
#[verifier::external_body]
pub(crate) fn big_prime_test(a: &BigInt, reps: u32) -> (r: bool)
    requires
        reps <= i32::MAX,
    ensures
        r == passes_prime_test(a@, reps as int),
        is_prime(a@) ==> r,
{
    let x = rug::Integer::from_digits(&a.limbs, Order::Lsf);
    let x = if a.negative { -x } else { x };
    match x.is_probably_prime(reps) {
        IsPrime::No => false,
        _ => true,
    }
}

#[verifier::external_type_specification]
#[verifier::external_body]
pub struct ExParseIntegerError(rug::integer::ParseIntegerError);

/// Relies on rug's `Integer::from_str_radix`: it accepts exactly an optional sign
/// followed by digits of the radix, whitespace anywhere and underscores after the
/// first digit, and returns the value they write. It panics on a radix outside
/// 2 to 36.
#[verifier::external_body]
pub(crate) fn big_parse(s: &str, radix: i32) -> (r: Result<BigInt, rug::integer::ParseIntegerError>)
    requires
        2 <= radix <= 36,
    ensures
        r is Ok <==> is_numeral(s@, radix as int),
        r is Ok ==> r->Ok_0@ == numeral_value(s@, radix as int),
{
    match rug::Integer::from_str_radix(s, radix) {
        Ok(x) => Ok(BigInt { negative: x.cmp0() == core::cmp::Ordering::Less, limbs: x.to_digits(Order::Lsf) }),
        Err(e) => Err(e),
    }
}

} // verus!
