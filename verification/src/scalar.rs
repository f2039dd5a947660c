use vstd::prelude::*;

verus! {

/// A complex scalar, held as the IEEE-754 bit patterns of its two components.
///
/// The evaluator never looks inside a floating-point number itself: every
/// arithmetic step, comparison and conversion goes through one of the trusted
/// wrappers below, and the contracts of the library speak of their results
/// through the named spec functions beside them.
#[derive(Clone, Copy, PartialEq, Eq, Structural, Debug)]
pub struct Cpx {
    pub re: u64,
    pub im: u64,
}

/// Bit pattern of 0.0.
pub const ZERO_BITS: u64 = 0;
/// Bit pattern of 1.0.
pub const ONE_BITS: u64 = 0x3FF0000000000000;
/// Bit pattern of -1.0.
pub const NEG_ONE_BITS: u64 = 0xBFF0000000000000;
/// Bit pattern of 0.5.
pub const HALF_BITS: u64 = 0x3FE0000000000000;
/// Bit pattern of 2.0.
pub const TWO_BITS: u64 = 0x4000000000000000;
/// Bit pattern of 8.0.
pub const EIGHT_BITS: u64 = 0x4020000000000000;
/// Bit pattern of 10.0.
pub const TEN_BITS: u64 = 0x4024000000000000;
/// Bit pattern of the circle constant pi.
pub const PI_BITS: u64 = 0x400921FB54442D18;
/// Bit pattern of Euler's number.
pub const EULER_BITS: u64 = 0x4005BF0A8B145769;

impl Cpx {
    /// The complex scalar with the given real component and a zero
    /// imaginary component.
    pub open spec fn spec_re_only(re: u64) -> Cpx {
        Cpx { re, im: ZERO_BITS }
    }

    /// Builds the complex scalar `re + 0i`.
    #[verifier::when_used_as_spec(spec_re_only)]
    pub fn re_only(re: u64) -> (r: Cpx)
        ensures
            r == Cpx::spec_re_only(re),
    {
        Cpx { re, im: ZERO_BITS }
    }

    /// The complex scalar with the given imaginary component and a zero
    /// real component.
    pub open spec fn spec_im_only(im: u64) -> Cpx {
        Cpx { re: ZERO_BITS, im }
    }

    /// Builds the complex scalar `0 + im*i`.
    #[verifier::when_used_as_spec(spec_im_only)]
    pub fn im_only(im: u64) -> (r: Cpx)
        ensures
            r == Cpx::spec_im_only(im),
    {
        Cpx { re: ZERO_BITS, im }
    }
}

/// Declares num_complex's `Complex` struct so that its values can pass
/// through the trusted wrappers below; Verus sees nothing inside them.
#[verifier::external_type_specification]
#[verifier::external_body]
#[verifier::reject_recursive_types(T)]
pub struct ExComplex<T>(num_complex::Complex<T>);

/// Carries the bit patterns into a `num_complex::Complex64`.
#[verifier::external_body]
fn to_complex(a: Cpx) -> num_complex::Complex64 {
    num_complex::Complex64::new(
        <<num_complex::Complex64 as num_complex::ComplexFloat>::Real>::from_bits(a.re),
        <<num_complex::Complex64 as num_complex::ComplexFloat>::Real>::from_bits(a.im),
    )
}

/// Carries a `num_complex::Complex64` back out as bit patterns.
#[verifier::external_body]
fn from_complex(z: num_complex::Complex64) -> Cpx {
    Cpx { re: z.re.to_bits(), im: z.im.to_bits() }
}

pub uninterp spec fn add_bits(a: Cpx, b: Cpx) -> Cpx;

/// Relies on num_complex's `Add for Complex<f64>`: componentwise IEEE-754
/// addition, a function of the operand bits alone.  Where the
/// operation produces a NaN, the platform's choice of payload bits is taken
/// as fixed; nothing in this crate reads those bits.
#[verifier::external_body]
pub fn cx_add(a: Cpx, b: Cpx) -> (r: Cpx)
    ensures
        r == add_bits(a, b),
{
    from_complex(to_complex(a) + to_complex(b))
}

pub uninterp spec fn sub_bits(a: Cpx, b: Cpx) -> Cpx;

/// Relies on num_complex's `Sub for Complex<f64>`: componentwise IEEE-754
/// subtraction, a function of the operand bits alone.  Where the
/// operation produces a NaN, the platform's choice of payload bits is taken
/// as fixed; nothing in this crate reads those bits.
#[verifier::external_body]
pub fn cx_sub(a: Cpx, b: Cpx) -> (r: Cpx)
    ensures
        r == sub_bits(a, b),
{
    from_complex(to_complex(a) - to_complex(b))
}

pub uninterp spec fn mul_bits(a: Cpx, b: Cpx) -> Cpx;

/// Relies on num_complex's `Mul for Complex<f64>`: the textbook product
/// formula over IEEE-754 arithmetic, a function of the operand bits alone.  Where the
/// operation produces a NaN, the platform's choice of payload bits is taken
/// as fixed; nothing in this crate reads those bits.
#[verifier::external_body]
pub fn cx_mul(a: Cpx, b: Cpx) -> (r: Cpx)
    ensures
        r == mul_bits(a, b),
{
    from_complex(to_complex(a) * to_complex(b))
}

pub uninterp spec fn div_bits(a: Cpx, b: Cpx) -> Cpx;

/// Relies on num_complex's `Div for Complex<f64>`: the conjugate quotient
/// formula over IEEE-754 arithmetic, a function of the operand bits alone.  Where the
/// operation produces a NaN, the platform's choice of payload bits is taken
/// as fixed; nothing in this crate reads those bits.
#[verifier::external_body]
pub fn cx_div(a: Cpx, b: Cpx) -> (r: Cpx)
    ensures
        r == div_bits(a, b),
{
    from_complex(to_complex(a) / to_complex(b))
}

pub uninterp spec fn rem_bits(a: Cpx, b: Cpx) -> Cpx;

/// Relies on num_complex's `Rem for Complex<f64>`: `a - b * div_trunc(a, b)`,
/// built from IEEE-754 arithmetic alone, a function of the operand bits alone.  Where the
/// operation produces a NaN, the platform's choice of payload bits is taken
/// as fixed; nothing in this crate reads those bits.
#[verifier::external_body]
pub fn cx_rem(a: Cpx, b: Cpx) -> (r: Cpx)
    ensures
        r == rem_bits(a, b),
{
    from_complex(to_complex(a) % to_complex(b))
}

pub uninterp spec fn neg_bits(a: Cpx) -> Cpx;

/// Relies on num_complex's `Neg for Complex<f64>`: componentwise IEEE-754
/// sign flip, a function of the operand bits alone.
#[verifier::external_body]
pub fn cx_neg(a: Cpx) -> (r: Cpx)
    ensures
        r == neg_bits(a),
{
    from_complex(-to_complex(a))
}

/// Relies on num_complex's `Complex::powc`; it goes through the host's
/// `exp`/`ln`/trigonometric routines, whose precision is platform-dependent,
/// so nothing is stated of the result.
#[verifier::external_body]
pub fn cx_powc(a: Cpx, b: Cpx) -> Cpx {
    from_complex(to_complex(a).powc(to_complex(b)))
}

/// Relies on num_complex's `Complex::sin`; platform-dependent precision,
/// so nothing is stated of the result.
#[verifier::external_body]
pub fn cx_sin(a: Cpx) -> Cpx {
    from_complex(to_complex(a).sin())
}

/// Relies on num_complex's `Complex::cos`; platform-dependent precision,
/// so nothing is stated of the result.
#[verifier::external_body]
pub fn cx_cos(a: Cpx) -> Cpx {
    from_complex(to_complex(a).cos())
}

/// Relies on num_complex's `Complex::tan`; platform-dependent precision,
/// so nothing is stated of the result.
#[verifier::external_body]
pub fn cx_tan(a: Cpx) -> Cpx {
    from_complex(to_complex(a).tan())
}

/// Relies on num_complex's `Complex::ln`; platform-dependent precision,
/// so nothing is stated of the result.
#[verifier::external_body]
pub fn cx_ln(a: Cpx) -> Cpx {
    from_complex(to_complex(a).ln())
}

/// Relies on num_complex's `Complex::exp`; platform-dependent precision,
/// so nothing is stated of the result.
#[verifier::external_body]
pub fn cx_exp(a: Cpx) -> Cpx {
    from_complex(to_complex(a).exp())
}

/// Relies on num_complex's `Complex::sqrt`; platform-dependent precision,
/// so nothing is stated of the result.
#[verifier::external_body]
pub fn cx_sqrt(a: Cpx) -> Cpx {
    from_complex(to_complex(a).sqrt())
}

/// Relies on num_complex's `Complex::log` with a real base (the base's
/// bit pattern is the second argument); platform-dependent precision,
/// so nothing is stated of the result.
#[verifier::external_body]
pub fn cx_log(a: Cpx, base: u64) -> Cpx {
    from_complex(to_complex(a).log(
        <<num_complex::Complex64 as num_complex::ComplexFloat>::Real>::from_bits(base),
    ))
}

/// Relies on num_complex's `Complex::norm` (the complex modulus); it goes
/// through the host's `hypot`, whose precision is platform-dependent, so
/// nothing is stated of the result bits.
#[verifier::external_body]
pub fn cx_norm(a: Cpx) -> u64 {
    to_complex(a).norm().to_bits()
}

pub uninterp spec fn req_bits(a: u64, b: u64) -> bool;

/// Relies on `==` for `f64`: the IEEE-754 equality predicate over the
/// operand bits alone (distinct zero signs compare equal, NaN never does).
#[verifier::external_body]
pub fn rl_eq(a: u64, b: u64) -> (r: bool)
    ensures
        r == req_bits(a, b),
{
    <<num_complex::Complex64 as num_complex::ComplexFloat>::Real>::from_bits(a)
        == <<num_complex::Complex64 as num_complex::ComplexFloat>::Real>::from_bits(b)
}

pub uninterp spec fn rlt_bits(a: u64, b: u64) -> bool;

/// Relies on `<` for `f64`: the IEEE-754 less-than predicate over the
/// operand bits alone (false whenever either operand is NaN).
#[verifier::external_body]
pub fn rl_lt(a: u64, b: u64) -> (r: bool)
    ensures
        r == rlt_bits(a, b),
{
    <<num_complex::Complex64 as num_complex::ComplexFloat>::Real>::from_bits(a)
        < <<num_complex::Complex64 as num_complex::ComplexFloat>::Real>::from_bits(b)
}

pub uninterp spec fn rle_bits(a: u64, b: u64) -> bool;

/// Relies on `<=` for `f64`: the IEEE-754 less-than-or-equal predicate over
/// the operand bits alone (false whenever either operand is NaN).
#[verifier::external_body]
pub fn rl_le(a: u64, b: u64) -> (r: bool)
    ensures
        r == rle_bits(a, b),
{
    <<num_complex::Complex64 as num_complex::ComplexFloat>::Real>::from_bits(a)
        <= <<num_complex::Complex64 as num_complex::ComplexFloat>::Real>::from_bits(b)
}

pub uninterp spec fn radd_bits(a: u64, b: u64) -> u64;

/// Relies on `+` for `f64`: IEEE-754 addition, a function of the operand
/// bits alone.  Where the
/// operation produces a NaN, the platform's choice of payload bits is taken
/// as fixed; nothing in this crate reads those bits.
#[verifier::external_body]
pub fn rl_add(a: u64, b: u64) -> (r: u64)
    ensures
        r == radd_bits(a, b),
{
    (<<num_complex::Complex64 as num_complex::ComplexFloat>::Real>::from_bits(a)
        + <<num_complex::Complex64 as num_complex::ComplexFloat>::Real>::from_bits(b)).to_bits()
}

pub uninterp spec fn rsub_bits(a: u64, b: u64) -> u64;

/// Relies on `-` for `f64`: IEEE-754 subtraction, a function of the operand
/// bits alone.  Where the
/// operation produces a NaN, the platform's choice of payload bits is taken
/// as fixed; nothing in this crate reads those bits.
#[verifier::external_body]
pub fn rl_sub(a: u64, b: u64) -> (r: u64)
    ensures
        r == rsub_bits(a, b),
{
    (<<num_complex::Complex64 as num_complex::ComplexFloat>::Real>::from_bits(a)
        - <<num_complex::Complex64 as num_complex::ComplexFloat>::Real>::from_bits(b)).to_bits()
}

pub uninterp spec fn rmul_bits(a: u64, b: u64) -> u64;

/// Relies on `*` for `f64`: IEEE-754 multiplication, a function of the
/// operand bits alone.  Where the
/// operation produces a NaN, the platform's choice of payload bits is taken
/// as fixed; nothing in this crate reads those bits.
#[verifier::external_body]
pub fn rl_mul(a: u64, b: u64) -> (r: u64)
    ensures
        r == rmul_bits(a, b),
{
    (<<num_complex::Complex64 as num_complex::ComplexFloat>::Real>::from_bits(a)
        * <<num_complex::Complex64 as num_complex::ComplexFloat>::Real>::from_bits(b)).to_bits()
}

pub uninterp spec fn rdiv_bits(a: u64, b: u64) -> u64;

/// Relies on `/` for `f64`: IEEE-754 division, a function of the operand
/// bits alone.  Where the
/// operation produces a NaN, the platform's choice of payload bits is taken
/// as fixed; nothing in this crate reads those bits.
#[verifier::external_body]
pub fn rl_div(a: u64, b: u64) -> (r: u64)
    ensures
        r == rdiv_bits(a, b),
{
    (<<num_complex::Complex64 as num_complex::ComplexFloat>::Real>::from_bits(a)
        / <<num_complex::Complex64 as num_complex::ComplexFloat>::Real>::from_bits(b)).to_bits()
}

/// Bit pattern of the IEEE-754 sign bit.
pub const SIGN_BIT: u64 = 0x8000000000000000;

/// IEEE-754 negation toggles the sign bit and keeps every other bit.
pub open spec fn rneg_bits(a: u64) -> u64 {
    a ^ SIGN_BIT
}

/// Relies on unary `-` for `f64`: an exact sign-bit flip (bit 63 toggled,
/// all other bits kept), which Rust documents for every operand, NaN
/// included.
#[verifier::external_body]
pub fn rl_neg(a: u64) -> (r: u64)
    ensures
        r == rneg_bits(a),
{
    (-<<num_complex::Complex64 as num_complex::ComplexFloat>::Real>::from_bits(a)).to_bits()
}

pub uninterp spec fn rfract_bits(a: u64) -> u64;

/// Relies on `f64::fract`: `a - a.trunc()`, both IEEE-754-exact operations,
/// a function of the operand bits alone.  Where the
/// operation produces a NaN, the platform's choice of payload bits is taken
/// as fixed; nothing in this crate reads those bits.
#[verifier::external_body]
pub fn rl_fract(a: u64) -> (r: u64)
    ensures
        r == rfract_bits(a),
{
    <<num_complex::Complex64 as num_complex::ComplexFloat>::Real>::from_bits(a).fract().to_bits()
}

/// Relies on `f64::powf`; it goes through the host's `pow`, whose precision
/// is platform-dependent, so nothing is stated of the result.
#[verifier::external_body]
pub fn rl_powf(a: u64, b: u64) -> u64 {
    <<num_complex::Complex64 as num_complex::ComplexFloat>::Real>::from_bits(a)
        .powf(<<num_complex::Complex64 as num_complex::ComplexFloat>::Real>::from_bits(b))
        .to_bits()
}

pub uninterp spec fn rtrunc_bits(a: u64) -> i64;

/// Relies on `as i64` for `f64`: rounds toward zero and saturates at the
/// `i64` range (NaN goes to 0), a function of the operand bits alone.
#[verifier::external_body]
pub fn rl_to_int(a: u64) -> (r: i64)
    ensures
        r == rtrunc_bits(a),
{
    <<num_complex::Complex64 as num_complex::ComplexFloat>::Real>::from_bits(a) as i64
}

pub uninterp spec fn rof_int_bits(n: i64) -> u64;

/// Relies on `as f64` for `i64`: IEEE-754 round-to-nearest conversion, a
/// function of the argument alone.
#[verifier::external_body]
pub fn rl_of_int(n: i64) -> (r: u64)
    ensures
        r == rof_int_bits(n),
{
    (n as <num_complex::Complex64 as num_complex::ComplexFloat>::Real).to_bits()
}

pub uninterp spec fn rof_u64_bits(n: u64) -> u64;

/// Relies on `as f64` for `u64`: IEEE-754 round-to-nearest conversion, a
/// function of the argument alone.
#[verifier::external_body]
pub fn rl_of_u64(n: u64) -> (r: u64)
    ensures
        r == rof_u64_bits(n),
{
    (n as <num_complex::Complex64 as num_complex::ComplexFloat>::Real).to_bits()
}

pub uninterp spec fn text_bits(a: u64) -> Seq<char>;

/// Relies on the `Display` impl of `f64` (the shortest round-tripping
/// decimal form, computed by pure library code), a function of the operand
/// bits alone.
#[verifier::external_body]
pub fn rl_text(a: u64) -> (r: String)
    ensures
        r@ == text_bits(a),
{
    format!("{}", <<num_complex::Complex64 as num_complex::ComplexFloat>::Real>::from_bits(a))
}

} // verus!
