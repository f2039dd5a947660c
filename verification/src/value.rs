use vstd::prelude::*;

use crate::scalar::{Cpx, ZERO_BITS, ONE_BITS};
use crate::scalar::{add_bits, sub_bits, mul_bits, div_bits, rem_bits};
use crate::scalar::{radd_bits, rsub_bits, rmul_bits, rdiv_bits, req_bits, rlt_bits, rle_bits};
use crate::scalar::{cx_add, cx_sub, cx_mul, cx_div, cx_rem, cx_powc, cx_norm};
use crate::scalar::{rl_add, rl_sub, rl_mul, rl_div, rl_eq, rl_lt, rl_le, rl_powf};

verus! {

broadcast use vstd::std_specs::vec::axiom_vec_index_decreases;

/// A plane vector, held as the IEEE-754 bit patterns of its two components.
#[derive(Clone, Copy, PartialEq, Eq, Structural, Debug)]
pub struct Vec2 {
    pub x: u64,
    pub y: u64,
}

/// A runtime value of the language: a complex number, a plane vector, or an
/// ordered array of further values.  Variant identity is stable: nothing ever
/// converts one kind into another implicitly.
#[derive(Debug)]
pub enum Value {
    Number(Cpx),
    Vector(Vec2),
    Array(Vec<Value>),
}

/// The mathematical shape of a [`Value`]: the same variants, with arrays as
/// sequences.  All contracts of the library speak of values through it.
#[verifier::ext_equal]
pub enum ValueModel {
    Number(Cpx),
    Vector(Vec2),
    Array(Seq<ValueModel>),
}

impl Value {
    /// The mathematical shape of this value.
    pub open spec fn model(self) -> ValueModel
        decreases self,
    {
        match self {
            Value::Number(c) => ValueModel::Number(c),
            Value::Vector(v) => ValueModel::Vector(v),
            Value::Array(arr) => ValueModel::Array(
                Seq::new(arr@.len(), |i: int| if 0 <= i < arr@.len() { arr[i].model() } else { arbitrary() }),
            ),
        }
    }
}

impl View for Value {
    type V = ValueModel;

    open spec fn view(&self) -> ValueModel {
        self.model()
    }
}

impl DeepView for Value {
    type V = ValueModel;

    open spec fn deep_view(&self) -> ValueModel {
        self.model()
    }
}

/// The Number 1, which the language uses as its true value.
pub open spec fn true_model() -> ValueModel {
    ValueModel::Number(Cpx { re: ONE_BITS, im: ZERO_BITS })
}

/// The Number 0, which the language uses as its false value.
pub open spec fn false_model() -> ValueModel {
    ValueModel::Number(Cpx { re: ZERO_BITS, im: ZERO_BITS })
}

/// Whether the bit pattern compares equal to 0.0 (either zero sign does;
/// NaN does not).
pub open spec fn is_zero_bits(a: u64) -> bool {
    req_bits(a, ZERO_BITS)
}

impl Value {
    /// Builds the Number `re + 0i` from the bit pattern of its real part.
    pub fn re_only(re: u64) -> (r: Value)
        ensures
            r@ == ValueModel::Number(Cpx { re, im: ZERO_BITS }),
    {
        Value::Number(Cpx { re, im: ZERO_BITS })
    }

    /// Builds the Number `0 + im*i` from the bit pattern of its imaginary part.
    pub fn im_only(im: u64) -> (r: Value)
        ensures
            r@ == ValueModel::Number(Cpx { re: ZERO_BITS, im }),
    {
        Value::Number(Cpx { re: ZERO_BITS, im })
    }

    /// An exact copy of this value.
    pub fn duplicate(&self) -> (r: Value)
        ensures
            r@ == self@,
        decreases *self,
    {
        match self {
            Value::Number(c) => Value::Number(*c),
            Value::Vector(v) => Value::Vector(*v),
            Value::Array(arr) => {
                let mut out: Vec<Value> = Vec::new();
                let mut i: usize = 0;
                while i < arr.len()
                    invariant
                        *self == Value::Array(*arr),
                        i <= arr.len(),
                        out@.len() == i as int,
                        forall|j: int| 0 <= j < i as int ==> out@[j]@ == arr@[j]@,
                    decreases arr.len() - i,
                {
                    proof {
                        assert(decreases_to!(*self => (*self)->Array_0));
                        vstd::std_specs::vec::axiom_vec_index_decreases(*arr, i as int);
                    }
                    let e = arr[i].duplicate();
                    out.push(e);
                    i = i + 1;
                }
                let r = Value::Array(out);
                proof {
                    assert(r@ matches ValueModel::Array(s) && self@ matches ValueModel::Array(t)
                        && s =~= t);
                }
                r
            }
        }
    }
}

/// What `+` yields for each ordered pair of value kinds: complex addition for
/// two Numbers, componentwise addition for two Vectors, and the append rule
/// for arrays (the non-array operand, or the whole right-hand array, becomes
/// one new trailing element); every other pair is rejected.
pub open spec fn spec_add(a: ValueModel, b: ValueModel) -> Result<ValueModel, Seq<char>> {
    match a {
        ValueModel::Number(c) => match b {
            ValueModel::Number(c2) => Ok(ValueModel::Number(add_bits(c, c2))),
            ValueModel::Vector(_) => Err("cannot add a number to a vector"@),
            ValueModel::Array(es) => Ok(ValueModel::Array(es.push(a))),
        },
        ValueModel::Vector(v) => match b {
            ValueModel::Number(_) => Err("cannot add a vector to a number"@),
            ValueModel::Vector(w) => Ok(ValueModel::Vector(Vec2 {
                x: radd_bits(v.x, w.x),
                y: radd_bits(v.y, w.y),
            })),
            ValueModel::Array(es) => Ok(ValueModel::Array(es.push(a))),
        },
        ValueModel::Array(es) => Ok(ValueModel::Array(es.push(b))),
    }
}

/// What `-` yields: defined only for Number-Number and Vector-Vector.
pub open spec fn spec_sub(a: ValueModel, b: ValueModel) -> Result<ValueModel, Seq<char>> {
    match a {
        ValueModel::Number(c) => match b {
            ValueModel::Number(c2) => Ok(ValueModel::Number(sub_bits(c, c2))),
            ValueModel::Vector(_) => Err("cannot subtract a number from a vector"@),
            ValueModel::Array(_) => Err("cannot subtract an array from a number"@),
        },
        ValueModel::Vector(v) => match b {
            ValueModel::Number(_) => Err("cannot subtract a vector from a number"@),
            ValueModel::Vector(w) => Ok(ValueModel::Vector(Vec2 {
                x: rsub_bits(v.x, w.x),
                y: rsub_bits(v.y, w.y),
            })),
            ValueModel::Array(_) => Err("cannot subtract an array from a vector"@),
        },
        ValueModel::Array(_) => match b {
            ValueModel::Number(_) => Err("cannot subtract a number from an array"@),
            ValueModel::Vector(_) => Err("cannot subtract a vector from an array"@),
            ValueModel::Array(_) => Err("cannot subtract an array from an array"@),
        },
    }
}

/// What `*` yields: complex multiplication for two Numbers, and a Vector
/// scaled by a Number whose imaginary part compares equal to zero.
pub open spec fn spec_mul(a: ValueModel, b: ValueModel) -> Result<ValueModel, Seq<char>> {
    match a {
        ValueModel::Number(c) => match b {
            ValueModel::Number(c2) => Ok(ValueModel::Number(mul_bits(c, c2))),
            ValueModel::Vector(v) => if !is_zero_bits(c.im) {
                Err("cannot multiply a vector with a complex number"@)
            } else {
                Ok(ValueModel::Vector(Vec2 { x: rmul_bits(v.x, c.re), y: rmul_bits(v.y, c.re) }))
            },
            ValueModel::Array(_) => Err("cannot multiply a number by an array"@),
        },
        ValueModel::Vector(v) => match b {
            ValueModel::Number(c) => if !is_zero_bits(c.im) {
                Err("cannot multiply a vector with a complex number"@)
            } else {
                Ok(ValueModel::Vector(Vec2 { x: rmul_bits(v.x, c.re), y: rmul_bits(v.y, c.re) }))
            },
            ValueModel::Vector(_) => Err(
                "cannot multiply a vector with a vector. use dot(vector, vector) or cross(vector, vector) instead"@,
            ),
            ValueModel::Array(_) => Err("cannot multiply an array with a vector"@),
        },
        ValueModel::Array(_) => match b {
            ValueModel::Number(_) => Err("cannot multiply an array by a number"@),
            ValueModel::Vector(_) => Err("cannot multiply an array with a vector"@),
            ValueModel::Array(_) => Err("cannot multiply an array by an array"@),
        },
    }
}

/// What `/` yields: complex division for two Numbers, and a Vector divided
/// componentwise by the real part of a Number with zero imaginary part, on
/// whichever side the Number stands.
pub open spec fn spec_div(a: ValueModel, b: ValueModel) -> Result<ValueModel, Seq<char>> {
    match a {
        ValueModel::Number(c) => match b {
            ValueModel::Number(c2) => Ok(ValueModel::Number(div_bits(c, c2))),
            ValueModel::Vector(v) => if !is_zero_bits(c.im) {
                Err("cannot divide a vector by a complex number"@)
            } else {
                Ok(ValueModel::Vector(Vec2 { x: rdiv_bits(v.x, c.re), y: rdiv_bits(v.y, c.re) }))
            },
            ValueModel::Array(_) => Err("cannot divide a number by an array"@),
        },
        ValueModel::Vector(v) => match b {
            ValueModel::Number(c) => if !is_zero_bits(c.im) {
                Err("cannot divide a vector by a complex number"@)
            } else {
                Ok(ValueModel::Vector(Vec2 { x: rdiv_bits(v.x, c.re), y: rdiv_bits(v.y, c.re) }))
            },
            ValueModel::Vector(_) => Err("cannot divide a vector by a vector"@),
            ValueModel::Array(_) => Err("cannot divide a vector by an array"@),
        },
        ValueModel::Array(_) => match b {
            ValueModel::Number(_) => Err("cannot divide an array by a number"@),
            ValueModel::Vector(_) => Err("cannot divide an array by a vector"@),
            ValueModel::Array(_) => Err("cannot divide an array by an array"@),
        },
    }
}

/// What `%` yields: the host library's complex remainder for two Numbers;
/// every other pair is rejected; the message wording is part of the
/// interface and fixed verbatim, one misspelling included.
pub open spec fn spec_rem(a: ValueModel, b: ValueModel) -> Result<ValueModel, Seq<char>> {
    match a {
        ValueModel::Number(c) => match b {
            ValueModel::Number(c2) => Ok(ValueModel::Number(rem_bits(c, c2))),
            ValueModel::Vector(_) => Err("cannot find remainder between number and vector"@),
            ValueModel::Array(_) => Err("cannot find remainder of number in terms of array"@),
        },
        ValueModel::Vector(_) => match b {
            ValueModel::Number(_) => Err("cannot find remainder between vector and number"@),
            ValueModel::Vector(_) => Err("cannot find remainder between vector and vector"@),
            ValueModel::Array(_) => Err("cannot find remainder between vector and array"@),
        },
        ValueModel::Array(_) => match b {
            ValueModel::Number(_) => Err("cannot find remainder between arraay and number"@),
            ValueModel::Vector(_) => Err("cannot find remainder between array and number"@),
            ValueModel::Array(_) => Err("cannot find remainder between array and array"@),
        },
    }
}

/// Total equality: same-kind Numbers and Vectors compare componentwise by
/// IEEE-754 equality; any pair of different kinds is unequal, and an Array is
/// unequal to everything, itself included.  The answer is the Number 1 or 0.
pub open spec fn spec_equals(a: ValueModel, b: ValueModel) -> ValueModel {
    match a {
        ValueModel::Number(c) => match b {
            ValueModel::Number(c2) => if req_bits(c.re, c2.re) && req_bits(c.im, c2.im) {
                true_model()
            } else {
                false_model()
            },
            _ => false_model(),
        },
        ValueModel::Vector(v) => match b {
            ValueModel::Vector(w) => if req_bits(v.x, w.x) && req_bits(v.y, w.y) {
                true_model()
            } else {
                false_model()
            },
            _ => false_model(),
        },
        ValueModel::Array(_) => false_model(),
    }
}

/// Whether a result of `Value` against a result of its model agree, error
/// message text included.
pub open spec fn result_models(r: Result<Value, String>, m: Result<ValueModel, Seq<char>>) -> bool {
    match r {
        Ok(v) => m matches Ok(mm) && v@ == mm,
        Err(e) => m matches Err(msg) && e@ == msg,
    }
}

/// What `^` yields.  A Number base whose parts compare equal to zero gives
/// the Number 0 whatever the exponent; otherwise a Number exponent whose
/// parts compare equal to zero gives the Number 1; otherwise the host
/// library's complex power decides and only the result's kind is stated.
/// A Vector base takes a Number exponent with zero imaginary part,
/// componentwise; every other pair is rejected.
pub open spec fn pow_models(a: ValueModel, b: ValueModel, r: Result<Value, String>) -> bool {
    match a {
        ValueModel::Number(c) => match b {
            ValueModel::Number(c2) => if is_zero_bits(c.im) && is_zero_bits(c.re) {
                r matches Ok(v) && v@ == false_model()
            } else if is_zero_bits(c2.im) && is_zero_bits(c2.re) {
                r matches Ok(v) && v@ == true_model()
            } else {
                r matches Ok(v) && v@ matches ValueModel::Number(_)
            },
            ValueModel::Vector(_) => r matches Err(e) && e@ == "cannot raise a number to a vector power"@,
            ValueModel::Array(_) => r matches Err(e) && e@ == "cannot raise a number to an array power"@,
        },
        ValueModel::Vector(_) => match b {
            ValueModel::Number(c) => if !is_zero_bits(c.im) {
                r matches Err(e) && e@ == "cannot raise vector to a complex power"@
            } else {
                r matches Ok(v) && v@ matches ValueModel::Vector(_)
            },
            ValueModel::Vector(_) => r matches Err(e) && e@ == "cannot raise a vector to a vector power"@,
            ValueModel::Array(_) => r matches Err(e) && e@ == "cannot raise a vector to an array power"@,
        },
        ValueModel::Array(_) => match b {
            ValueModel::Number(_) => r matches Err(e) && e@ == "cannot raise array to a number power"@,
            ValueModel::Vector(_) => r matches Err(e) && e@ == "cannot raise array to a vector power"@,
            ValueModel::Array(_) => r matches Err(e) && e@ == "cannot raise array to an array power"@,
        },
    }
}

impl Value {
    /// Appends `val` as one new trailing element if this value is an Array;
    /// hands any other value back unchanged.
    pub fn push_value(self, val: Value) -> (r: Value)
        ensures
            (self@ matches ValueModel::Array(es) ==> r@ == ValueModel::Array(es.push(val@))),
            !(self@ matches ValueModel::Array(_)) ==> r@ == self@,
    {
        match self {
            Value::Array(mut arr) => {
                let ghost before = arr@;
                arr.push(val);
                let r = Value::Array(arr);
                proof {
                    assert(r@ matches ValueModel::Array(s) && self@ matches ValueModel::Array(t)
                        && s =~= t.push(val@));
                }
                r
            }
            other => other,
        }
    }

    /// The `+` operator of the language.
    pub fn add(self, rhs: Value) -> (r: Result<Value, String>)
        ensures
            result_models(r, spec_add(self@, rhs@)),
    {
        match self {
            Value::Number(c) => match rhs {
                Value::Number(c2) => Ok(Value::Number(cx_add(c, c2))),
                Value::Vector(_) => Err("cannot add a number to a vector".to_owned()),
                Value::Array(_) => Ok(rhs.push_value(Value::Number(c))),
            },
            Value::Vector(v) => match rhs {
                Value::Number(_) => Err("cannot add a vector to a number".to_owned()),
                Value::Vector(w) => Ok(Value::Vector(Vec2 {
                    x: rl_add(v.x, w.x),
                    y: rl_add(v.y, w.y),
                })),
                Value::Array(_) => Ok(rhs.push_value(Value::Vector(v))),
            },
            Value::Array(_) => Ok(self.push_value(rhs)),
        }
    }

    /// The `-` operator of the language.
    pub fn sub(self, rhs: Value) -> (r: Result<Value, String>)
        ensures
            result_models(r, spec_sub(self@, rhs@)),
    {
        match self {
            Value::Number(c) => match rhs {
                Value::Number(c2) => Ok(Value::Number(cx_sub(c, c2))),
                Value::Vector(_) => Err("cannot subtract a number from a vector".to_owned()),
                Value::Array(_) => Err("cannot subtract an array from a number".to_owned()),
            },
            Value::Vector(v) => match rhs {
                Value::Number(_) => Err("cannot subtract a vector from a number".to_owned()),
                Value::Vector(w) => Ok(Value::Vector(Vec2 {
                    x: rl_sub(v.x, w.x),
                    y: rl_sub(v.y, w.y),
                })),
                Value::Array(_) => Err("cannot subtract an array from a vector".to_owned()),
            },
            Value::Array(_) => match rhs {
                Value::Number(_) => Err("cannot subtract a number from an array".to_owned()),
                Value::Vector(_) => Err("cannot subtract a vector from an array".to_owned()),
                Value::Array(_) => Err("cannot subtract an array from an array".to_owned()),
            },
        }
    }

    /// The `*` operator of the language.
    pub fn mul(self, rhs: Value) -> (r: Result<Value, String>)
        ensures
            result_models(r, spec_mul(self@, rhs@)),
    {
        match self {
            Value::Number(c) => match rhs {
                Value::Number(c2) => Ok(Value::Number(cx_mul(c, c2))),
                Value::Vector(v) => if !rl_eq(c.im, ZERO_BITS) {
                    Err("cannot multiply a vector with a complex number".to_owned())
                } else {
                    Ok(Value::Vector(Vec2 { x: rl_mul(v.x, c.re), y: rl_mul(v.y, c.re) }))
                },
                Value::Array(_) => Err("cannot multiply a number by an array".to_owned()),
            },
            Value::Vector(v) => match rhs {
                Value::Number(c) => if !rl_eq(c.im, ZERO_BITS) {
                    Err("cannot multiply a vector with a complex number".to_owned())
                } else {
                    Ok(Value::Vector(Vec2 { x: rl_mul(v.x, c.re), y: rl_mul(v.y, c.re) }))
                },
                Value::Vector(_) => Err(
                    "cannot multiply a vector with a vector. use dot(vector, vector) or cross(vector, vector) instead".to_owned(),
                ),
                Value::Array(_) => Err("cannot multiply an array with a vector".to_owned()),
            },
            Value::Array(_) => match rhs {
                Value::Number(_) => Err("cannot multiply an array by a number".to_owned()),
                Value::Vector(_) => Err("cannot multiply an array with a vector".to_owned()),
                Value::Array(_) => Err("cannot multiply an array by an array".to_owned()),
            },
        }
    }

    /// The `/` operator of the language.
    pub fn div(self, rhs: Value) -> (r: Result<Value, String>)
        ensures
            result_models(r, spec_div(self@, rhs@)),
    {
        match self {
            Value::Number(c) => match rhs {
                Value::Number(c2) => Ok(Value::Number(cx_div(c, c2))),
                Value::Vector(v) => if !rl_eq(c.im, ZERO_BITS) {
                    Err("cannot divide a vector by a complex number".to_owned())
                } else {
                    Ok(Value::Vector(Vec2 { x: rl_div(v.x, c.re), y: rl_div(v.y, c.re) }))
                },
                Value::Array(_) => Err("cannot divide a number by an array".to_owned()),
            },
            Value::Vector(v) => match rhs {
                Value::Number(c) => if !rl_eq(c.im, ZERO_BITS) {
                    Err("cannot divide a vector by a complex number".to_owned())
                } else {
                    Ok(Value::Vector(Vec2 { x: rl_div(v.x, c.re), y: rl_div(v.y, c.re) }))
                },
                Value::Vector(_) => Err("cannot divide a vector by a vector".to_owned()),
                Value::Array(_) => Err("cannot divide a vector by an array".to_owned()),
            },
            Value::Array(_) => match rhs {
                Value::Number(_) => Err("cannot divide an array by a number".to_owned()),
                Value::Vector(_) => Err("cannot divide an array by a vector".to_owned()),
                Value::Array(_) => Err("cannot divide an array by an array".to_owned()),
            },
        }
    }

    /// The `%` operator of the language.
    pub fn rem(self, rhs: Value) -> (r: Result<Value, String>)
        ensures
            result_models(r, spec_rem(self@, rhs@)),
    {
        match self {
            Value::Number(c) => match rhs {
                Value::Number(c2) => Ok(Value::Number(cx_rem(c, c2))),
                Value::Vector(_) => Err("cannot find remainder between number and vector".to_owned()),
                Value::Array(_) => Err("cannot find remainder of number in terms of array".to_owned()),
            },
            Value::Vector(_) => match rhs {
                Value::Number(_) => Err("cannot find remainder between vector and number".to_owned()),
                Value::Vector(_) => Err("cannot find remainder between vector and vector".to_owned()),
                Value::Array(_) => Err("cannot find remainder between vector and array".to_owned()),
            },
            Value::Array(_) => match rhs {
                Value::Number(_) => Err("cannot find remainder between arraay and number".to_owned()),
                Value::Vector(_) => Err("cannot find remainder between array and number".to_owned()),
                Value::Array(_) => Err("cannot find remainder between array and array".to_owned()),
            },
        }
    }

    /// The `^` operator of the language; its outcome is stated by
    /// [`pow_models`].
    pub fn pow(self, rhs: Value) -> (r: Result<Value, String>)
        ensures
            pow_models(self@, rhs@, r),
    {
        match self {
            Value::Number(c) => match rhs {
                Value::Number(c2) => {
                    if rl_eq(c.im, ZERO_BITS) && rl_eq(c.re, ZERO_BITS) {
                        Ok(Value::re_only(ZERO_BITS))
                    } else if rl_eq(c2.im, ZERO_BITS) && rl_eq(c2.re, ZERO_BITS) {
                        Ok(Value::re_only(ONE_BITS))
                    } else {
                        Ok(Value::Number(cx_powc(c, c2)))
                    }
                }
                Value::Vector(_) => Err("cannot raise a number to a vector power".to_owned()),
                Value::Array(_) => Err("cannot raise a number to an array power".to_owned()),
            },
            Value::Vector(v) => match rhs {
                Value::Number(c) => {
                    if !rl_eq(c.im, ZERO_BITS) {
                        Err("cannot raise vector to a complex power".to_owned())
                    } else {
                        Ok(Value::Vector(Vec2 { x: rl_powf(v.x, c.re), y: rl_powf(v.y, c.re) }))
                    }
                }
                Value::Vector(_) => Err("cannot raise a vector to a vector power".to_owned()),
                Value::Array(_) => Err("cannot raise a vector to an array power".to_owned()),
            },
            Value::Array(_) => match rhs {
                Value::Number(_) => Err("cannot raise array to a number power".to_owned()),
                Value::Vector(_) => Err("cannot raise array to a vector power".to_owned()),
                Value::Array(_) => Err("cannot raise array to an array power".to_owned()),
            },
        }
    }

    /// The `==` operator of the language; total, never an error.
    pub fn equals(self, rhs: Value) -> (r: Value)
        ensures
            r@ == spec_equals(self@, rhs@),
    {
        match self {
            Value::Number(c) => match rhs {
                Value::Number(c2) => if rl_eq(c.re, c2.re) && rl_eq(c.im, c2.im) {
                    Value::re_only(ONE_BITS)
                } else {
                    Value::re_only(ZERO_BITS)
                },
                _ => Value::re_only(ZERO_BITS),
            },
            Value::Vector(v) => match rhs {
                Value::Vector(w) => if rl_eq(v.x, w.x) && rl_eq(v.y, w.y) {
                    Value::re_only(ONE_BITS)
                } else {
                    Value::re_only(ZERO_BITS)
                },
                _ => Value::re_only(ZERO_BITS),
            },
            Value::Array(_) => Value::re_only(ZERO_BITS),
        }
    }
}

/// The Number 1 for a true comparison, the Number 0 for a false one.
pub fn truth_value(b: bool) -> (r: Value)
    ensures
        r@ == if b { true_model() } else { false_model() },
{
    if b {
        Value::re_only(ONE_BITS)
    } else {
        Value::re_only(ZERO_BITS)
    }
}

/// What `>` yields: defined only for two Numbers, which compare by complex
/// modulus and answer the Number 1 or the Number 0; every other pair is
/// rejected with the fixed message for that pair of kinds.
pub open spec fn gt_models(a: ValueModel, b: ValueModel, r: Result<Value, String>) -> bool {
    match a {
        ValueModel::Number(_) => match b {
            ValueModel::Number(_) => r matches Ok(v) && (v@ == true_model() || v@ == false_model()),
            ValueModel::Vector(_) => r matches Err(e) && e@ == "cannot compare greater-than between a number and vector"@,
            ValueModel::Array(_) => r matches Err(e) && e@ == "cannot compare greater-than between a number and array"@,
        },
        ValueModel::Vector(_) => match b {
            ValueModel::Number(_) => r matches Err(e) && e@ == "cannot compare greater-than between a vector and a number"@,
            ValueModel::Vector(_) => r matches Err(e) && e@ == "cannot compare greater-than between a vector and a vector"@,
            ValueModel::Array(_) => r matches Err(e) && e@ == "cannot compare greater-than between a vector and an array"@,
        },
        ValueModel::Array(_) => match b {
            ValueModel::Number(_) => r matches Err(e) && e@ == "cannot compare greater-than between an array and a number"@,
            ValueModel::Vector(_) => r matches Err(e) && e@ == "cannot compare greater-than between an array and a vector"@,
            ValueModel::Array(_) => r matches Err(e) && e@ == "cannot compare greater-than between an array and an array"@,
        },
    }
}

/// What `<` yields: defined only for two Numbers, which compare by complex
/// modulus and answer the Number 1 or the Number 0; every other pair is
/// rejected with the fixed message for that pair of kinds.
pub open spec fn lt_models(a: ValueModel, b: ValueModel, r: Result<Value, String>) -> bool {
    match a {
        ValueModel::Number(_) => match b {
            ValueModel::Number(_) => r matches Ok(v) && (v@ == true_model() || v@ == false_model()),
            ValueModel::Vector(_) => r matches Err(e) && e@ == "cannot compare less-than between a number and a vector"@,
            ValueModel::Array(_) => r matches Err(e) && e@ == "cannot compare less-than between a number and an array"@,
        },
        ValueModel::Vector(_) => match b {
            ValueModel::Number(_) => r matches Err(e) && e@ == "cannot compare less-than between a vector and a number"@,
            ValueModel::Vector(_) => r matches Err(e) && e@ == "cannot compare less-than between a vector and a vector"@,
            ValueModel::Array(_) => r matches Err(e) && e@ == "cannot compare less-than between a vector and an array"@,
        },
        ValueModel::Array(_) => match b {
            ValueModel::Number(_) => r matches Err(e) && e@ == "cannot compare less-than between an array and a number"@,
            ValueModel::Vector(_) => r matches Err(e) && e@ == "cannot compare less-than between an array and a vector"@,
            ValueModel::Array(_) => r matches Err(e) && e@ == "cannot compare less-than between an array and an array"@,
        },
    }
}

/// What `>=` yields: defined only for two Numbers, which compare by complex
/// modulus and answer the Number 1 or the Number 0; every other pair is
/// rejected with the fixed message for that pair of kinds.
pub open spec fn ge_models(a: ValueModel, b: ValueModel, r: Result<Value, String>) -> bool {
    match a {
        ValueModel::Number(_) => match b {
            ValueModel::Number(_) => r matches Ok(v) && (v@ == true_model() || v@ == false_model()),
            ValueModel::Vector(_) => r matches Err(e) && e@ == "cannot compare greater-than-or-equals between a number and vector"@,
            ValueModel::Array(_) => r matches Err(e) && e@ == "cannot compare greater-than-or-equals between a number and an array"@,
        },
        ValueModel::Vector(_) => match b {
            ValueModel::Number(_) => r matches Err(e) && e@ == "cannot compare greater-than-or-equals between a vector and a number"@,
            ValueModel::Vector(_) => r matches Err(e) && e@ == "cannot compare greater-than-or-equals between a vector and a vector"@,
            ValueModel::Array(_) => r matches Err(e) && e@ == "cannot compare greater-than-or-equals between a vector and an array"@,
        },
        ValueModel::Array(_) => match b {
            ValueModel::Number(_) => r matches Err(e) && e@ == "cannot compare greater-than-or-equals between an array and a number"@,
            ValueModel::Vector(_) => r matches Err(e) && e@ == "cannot compare greater-than-or-equals between an array and a vector"@,
            ValueModel::Array(_) => r matches Err(e) && e@ == "cannot compare greater-than-or-equals between an array and an array"@,
        },
    }
}

/// What `<=` yields: defined only for two Numbers, which compare by complex
/// modulus and answer the Number 1 or the Number 0; every other pair is
/// rejected with the fixed message for that pair of kinds.
pub open spec fn le_models(a: ValueModel, b: ValueModel, r: Result<Value, String>) -> bool {
    match a {
        ValueModel::Number(_) => match b {
            ValueModel::Number(_) => r matches Ok(v) && (v@ == true_model() || v@ == false_model()),
            ValueModel::Vector(_) => r matches Err(e) && e@ == "cannot compare less-than-or-equals between a number and vector"@,
            ValueModel::Array(_) => r matches Err(e) && e@ == "cannot compare less-than-or-equals between a number and an array"@,
        },
        ValueModel::Vector(_) => match b {
            ValueModel::Number(_) => r matches Err(e) && e@ == "cannot compare less-than-or-equals between a vector and a number"@,
            ValueModel::Vector(_) => r matches Err(e) && e@ == "cannot compare less-than-or-equals between a vector and a vector"@,
            ValueModel::Array(_) => r matches Err(e) && e@ == "cannot compare less-than-or-equals between a vector and an array"@,
        },
        ValueModel::Array(_) => match b {
            ValueModel::Number(_) => r matches Err(e) && e@ == "cannot compare less-than-or-equals between an array and a number"@,
            ValueModel::Vector(_) => r matches Err(e) && e@ == "cannot compare less-than-or-equals between an array and a vector"@,
            ValueModel::Array(_) => r matches Err(e) && e@ == "cannot compare less-than-or-equals between an array and an array"@,
        },
    }
}

impl Value {
    /// The `>` operator of the language; its outcome is stated by [`gt_models`].
    pub fn greater_than(self, rhs: Value) -> (r: Result<Value, String>)
        ensures
            gt_models(self@, rhs@, r),
    {
        match self {
            Value::Number(c) => match rhs {
                Value::Number(c2) => {
                    let na = cx_norm(c);
                    let nb = cx_norm(c2);
                    Ok(truth_value(rl_lt(nb, na)))
                }
                Value::Vector(_) => Err("cannot compare greater-than between a number and vector".to_owned()),
                Value::Array(_) => Err("cannot compare greater-than between a number and array".to_owned()),
            },
            Value::Vector(_) => match rhs {
                Value::Number(_) => Err("cannot compare greater-than between a vector and a number".to_owned()),
                Value::Vector(_) => Err("cannot compare greater-than between a vector and a vector".to_owned()),
                Value::Array(_) => Err("cannot compare greater-than between a vector and an array".to_owned()),
            },
            Value::Array(_) => match rhs {
                Value::Number(_) => Err("cannot compare greater-than between an array and a number".to_owned()),
                Value::Vector(_) => Err("cannot compare greater-than between an array and a vector".to_owned()),
                Value::Array(_) => Err("cannot compare greater-than between an array and an array".to_owned()),
            },
        }
    }

    /// The `<` operator of the language; its outcome is stated by [`lt_models`].
    pub fn less_than(self, rhs: Value) -> (r: Result<Value, String>)
        ensures
            lt_models(self@, rhs@, r),
    {
        match self {
            Value::Number(c) => match rhs {
                Value::Number(c2) => {
                    let na = cx_norm(c);
                    let nb = cx_norm(c2);
                    Ok(truth_value(rl_lt(na, nb)))
                }
                Value::Vector(_) => Err("cannot compare less-than between a number and a vector".to_owned()),
                Value::Array(_) => Err("cannot compare less-than between a number and an array".to_owned()),
            },
            Value::Vector(_) => match rhs {
                Value::Number(_) => Err("cannot compare less-than between a vector and a number".to_owned()),
                Value::Vector(_) => Err("cannot compare less-than between a vector and a vector".to_owned()),
                Value::Array(_) => Err("cannot compare less-than between a vector and an array".to_owned()),
            },
            Value::Array(_) => match rhs {
                Value::Number(_) => Err("cannot compare less-than between an array and a number".to_owned()),
                Value::Vector(_) => Err("cannot compare less-than between an array and a vector".to_owned()),
                Value::Array(_) => Err("cannot compare less-than between an array and an array".to_owned()),
            },
        }
    }

    /// The `>=` operator of the language; its outcome is stated by [`ge_models`].
    pub fn greater_than_or_equals(self, rhs: Value) -> (r: Result<Value, String>)
        ensures
            ge_models(self@, rhs@, r),
    {
        match self {
            Value::Number(c) => match rhs {
                Value::Number(c2) => {
                    let na = cx_norm(c);
                    let nb = cx_norm(c2);
                    Ok(truth_value(rl_le(nb, na)))
                }
                Value::Vector(_) => Err("cannot compare greater-than-or-equals between a number and vector".to_owned()),
                Value::Array(_) => Err("cannot compare greater-than-or-equals between a number and an array".to_owned()),
            },
            Value::Vector(_) => match rhs {
                Value::Number(_) => Err("cannot compare greater-than-or-equals between a vector and a number".to_owned()),
                Value::Vector(_) => Err("cannot compare greater-than-or-equals between a vector and a vector".to_owned()),
                Value::Array(_) => Err("cannot compare greater-than-or-equals between a vector and an array".to_owned()),
            },
            Value::Array(_) => match rhs {
                Value::Number(_) => Err("cannot compare greater-than-or-equals between an array and a number".to_owned()),
                Value::Vector(_) => Err("cannot compare greater-than-or-equals between an array and a vector".to_owned()),
                Value::Array(_) => Err("cannot compare greater-than-or-equals between an array and an array".to_owned()),
            },
        }
    }

    /// The `<=` operator of the language; its outcome is stated by [`le_models`].
    pub fn less_than_or_equals(self, rhs: Value) -> (r: Result<Value, String>)
        ensures
            le_models(self@, rhs@, r),
    {
        match self {
            Value::Number(c) => match rhs {
                Value::Number(c2) => {
                    let na = cx_norm(c);
                    let nb = cx_norm(c2);
                    Ok(truth_value(rl_le(na, nb)))
                }
                Value::Vector(_) => Err("cannot compare less-than-or-equals between a number and vector".to_owned()),
                Value::Array(_) => Err("cannot compare less-than-or-equals between a number and an array".to_owned()),
            },
            Value::Vector(_) => match rhs {
                Value::Number(_) => Err("cannot compare less-than-or-equals between a vector and a number".to_owned()),
                Value::Vector(_) => Err("cannot compare less-than-or-equals between a vector and a vector".to_owned()),
                Value::Array(_) => Err("cannot compare less-than-or-equals between a vector and an array".to_owned()),
            },
            Value::Array(_) => match rhs {
                Value::Number(_) => Err("cannot compare less-than-or-equals between an array and a number".to_owned()),
                Value::Vector(_) => Err("cannot compare less-than-or-equals between an array and a vector".to_owned()),
                Value::Array(_) => Err("cannot compare less-than-or-equals between an array and an array".to_owned()),
            },
        }
    }
}

/// The per-value unit of the structural size estimate: the byte size of one
/// value cell.
pub const MEM_UNIT: u64 = 32;

/// The structural size estimate of a value, folded with 64-bit wrapping
/// addition as the accumulator wraps: one unit for the value itself, plus,
/// for an array, the estimate of every element.
pub open spec fn mem_model(m: ValueModel) -> u64
    decreases m,
{
    match m {
        ValueModel::Number(_) => MEM_UNIT,
        ValueModel::Vector(_) => MEM_UNIT,
        ValueModel::Array(es) => vstd::wrapping::u64_specs::wrapping_add(MEM_UNIT, mem_seq(es)),
    }
}

/// The wrapped sum of the structural size estimates of a sequence of values.
pub open spec fn mem_seq(es: Seq<ValueModel>) -> u64
    decreases es,
{
    if es.len() == 0 {
        0
    } else {
        vstd::wrapping::u64_specs::wrapping_add(mem_model(es[0]), mem_seq(es.drop_first()))
    }
}

impl Value {
    /// The structural size estimate behind the `mem` builtin.
    pub fn mem_size(&self) -> (r: u64)
        ensures
            r == mem_model(self@),
        decreases *self,
    {
        match self {
            Value::Number(_) => MEM_UNIT,
            Value::Vector(_) => MEM_UNIT,
            Value::Array(arr) => {
                let ghost es = self@->Array_0;
                let mut total: u64 = 0;
                let mut i: usize = arr.len();
                while i > 0
                    invariant
                        *self == Value::Array(*arr),
                        es == self@->Array_0,
                        i <= arr.len(),
                        es.len() == arr.len(),
                        total == mem_seq(es.subrange(i as int, es.len() as int)),
                    decreases i,
                {
                    i = i - 1;
                    proof {
                        assert(decreases_to!(*self => (*self)->Array_0));
                        vstd::std_specs::vec::axiom_vec_index_decreases(*arr, i as int);
                    }
                    let e = arr[i].mem_size();
                    total = e.wrapping_add(total);
                    proof {
                        assert(es.subrange(i as int, es.len() as int).drop_first()
                            =~= es.subrange(i as int + 1, es.len() as int));
                        assert(es.subrange(i as int, es.len() as int)[0] == es[i as int]);
                        assert(es[i as int] == arr@[i as int]@);
                    }
                }
                proof {
                    assert(es.subrange(0, es.len() as int) =~= es);
                }
                MEM_UNIT.wrapping_add(total)
            }
        }
    }
}

/// Equality in the language never crosses kinds, and an Array equals
/// nothing, not even a value with the very same elements: the comparison
/// answers the Number 0 whenever the kinds differ or either side is an
/// Array.
pub proof fn lemma_equality_policy(a: ValueModel, b: ValueModel)
    ensures
        !((a matches ValueModel::Number(_) && b matches ValueModel::Number(_))
            || (a matches ValueModel::Vector(_) && b matches ValueModel::Vector(_)))
            ==> spec_equals(a, b) == false_model(),
        a matches ValueModel::Array(_) ==> spec_equals(a, b) == false_model(),
        b matches ValueModel::Array(_) ==> spec_equals(a, b) == false_model(),
{
}

/// `+` on an Array appends the whole right operand as one new trailing
/// element, nesting rather than concatenating: adding one array to another
/// makes the right array a single element of the left.
pub proof fn lemma_array_append(es: Seq<ValueModel>, b: ValueModel)
    ensures
        spec_add(ValueModel::Array(es), b) == Ok::<ValueModel, Seq<char>>(ValueModel::Array(es.push(b))),
        spec_add(ValueModel::Array(es), b) matches Ok(m)
            && m matches ValueModel::Array(es2) && es2.len() == es.len() + 1
            && es2[es.len() as int] == b,
{
}

} // verus!
