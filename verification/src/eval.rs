use vstd::prelude::*;

use vstd::string::StringExecFns;

use crate::scalar::{Cpx, ZERO_BITS, ONE_BITS, HALF_BITS, TWO_BITS, EIGHT_BITS, PI_BITS};
use crate::scalar::{add_bits, radd_bits, rsub_bits, rlt_bits, rfract_bits, rtrunc_bits, rof_int_bits, rof_u64_bits, rneg_bits};
use crate::scalar::{rl_eq, rl_lt, rl_fract, rl_to_int, rl_of_int, rl_of_u64, rl_neg, rl_sub, rl_div, rl_add};
use crate::scalar::{cx_add, cx_sub, cx_mul, cx_div, cx_sin, cx_cos, cx_tan, cx_ln, cx_log, cx_exp, cx_sqrt, cx_powc, cx_neg};
use crate::ast::{Node, Operator, node_wf};
use crate::state::{RuntimeState, FnDef, elapsed_nanos, rc_dup, builtin_arity, lookup_builtin_arity, state_wf, state_preserved, lemma_preserved_trans, NANOS_PER_SEC_BITS};
use crate::text::{dec_seq, decimal_string};
use crate::value::{Value, ValueModel, Vec2, is_zero_bits, true_model, false_model, mem_model, result_models, spec_add, spec_sub, spec_mul, spec_div, spec_rem, spec_equals, pow_models, gt_models, lt_models, ge_models, le_models};
use crate::render::render_model;

verus! {

broadcast use vstd::string::group_string_axioms;

impl Value {
    /// The real part's bits, when this value is a Number whose imaginary
    /// part compares equal to zero.
    pub fn as_real(&self) -> (r: Option<u64>)
        ensures
            match r {
                Some(re) => self@ matches ValueModel::Number(c) && is_zero_bits(c.im) && re == c.re,
                None => !(self@ matches ValueModel::Number(c) && is_zero_bits(c.im)),
            },
    {
        match self {
            Value::Number(c) => if rl_eq(c.im, ZERO_BITS) {
                Some(c.re)
            } else {
                None
            },
            _ => None,
        }
    }

    /// The complex scalar, when this value is a Number.
    pub fn as_complex(&self) -> (r: Option<Cpx>)
        ensures
            match r {
                Some(c) => self@ == ValueModel::Number(c),
                None => !(self@ matches ValueModel::Number(_)),
            },
    {
        match self {
            Value::Number(c) => Some(*c),
            _ => None,
        }
    }

    /// The two components, when this value is a Vector.
    pub fn as_vector(&self) -> (r: Option<Vec2>)
        ensures
            match r {
                Some(v) => self@ == ValueModel::Vector(v),
                None => !(self@ matches ValueModel::Vector(_)),
            },
    {
        match self {
            Value::Vector(v) => Some(*v),
            _ => None,
        }
    }
}

/// What indexing an array yields: the index must be a Number with zero
/// imaginary part and zero fractional part; it is then truncated to an
/// integer, and any position outside `0 .. len` is rejected with a message
/// citing the length and the offending index; inside, the element at that
/// position comes back.
pub open spec fn index_models(es: Seq<ValueModel>, iv: ValueModel, r: Result<Value, String>) -> bool {
    match iv {
        ValueModel::Number(c) => if !is_zero_bits(c.im) {
            r matches Err(e) && e@ == "tried to index using non-number"@
        } else if !is_zero_bits(rfract_bits(c.re)) {
            r matches Err(e) && e@ == "cannot index arrays with non-integers"@
        } else {
            let i = rtrunc_bits(c.re);
            if i < 0 || i >= es.len() {
                r matches Err(e) && e@ == "attempted to index array of length "@
                    + dec_seq(es.len()) + " with index "@ + crate::scalar::text_bits(c.re)
            } else {
                r matches Ok(v) && v@ == es[i as int]
            }
        },
        _ => r matches Err(e) && e@ == "tried to index using non-number"@,
    }
}

/// Indexes an array value by an already evaluated index value.
pub fn index_array(arr: &Vec<Value>, iv: &Value) -> (r: Result<Value, String>)
    ensures
        index_models(arr.deep_view(), iv@, r),
{
    proof {
        assert(arr.deep_view() =~= Value::Array(*arr)@->Array_0);
    }
    let re = match iv.as_real() {
        Some(re) => re,
        None => {
            return Err("tried to index using non-number".to_owned());
        }
    };
    if !rl_eq(rl_fract(re), ZERO_BITS) {
        return Err("cannot index arrays with non-integers".to_owned());
    }
    let i = rl_to_int(re);
    if i < 0 || i as u128 >= arr.len() as u128 {
        let mut m = "attempted to index array of length ".to_owned();
        m.append(decimal_string(arr.len() as u64).as_str());
        m.append(" with index ");
        m.append(crate::scalar::rl_text(re).as_str());
        return Err(m);
    }
    let v = arr[i as usize].duplicate();
    proof {
        assert(arr.deep_view()[i as int] == arr@[i as int]@);
    }
    Ok(v)
}

/// The wrapped product `acc * (n-1) * (n-2) * ... * 2`, multiplied in
/// descending order with 64-bit two's-complement wrapping.
pub open spec fn fact_desc(acc: i64, n: i64) -> i64
    decreases n,
{
    if n <= 2 {
        acc
    } else {
        fact_desc(vstd::wrapping::i64_specs::wrapping_mul(acc, (n - 1) as i64), (n - 1) as i64)
    }
}

/// What the factorial of a complex scalar yields.  A Number that is real,
/// strictly positive and integer-valued takes the exact integer product,
/// wrapped at 64 bits and carried back to a real Number; exact zero yields
/// 1; everything else goes through the gamma function, of which only the
/// result's kind is stated.
pub open spec fn factorial_models(c: Cpx, r: Result<Value, String>) -> bool {
    if is_zero_bits(c.im) && rlt_bits(ZERO_BITS, c.re) && is_zero_bits(rfract_bits(c.re)) {
        let k = rtrunc_bits(c.re);
        r matches Ok(v) && v@ == ValueModel::Number(Cpx {
            re: rof_int_bits(fact_desc(k, k)),
            im: ZERO_BITS,
        })
    } else if is_zero_bits(c.re) && is_zero_bits(c.im) {
        r matches Ok(v) && v@ == true_model()
    } else {
        r matches Ok(v) && v@ matches ValueModel::Number(_)
    }
}

/// The factorial behind the `!` postfix of the language.
pub fn factorial_of(c: Cpx) -> (r: Result<Value, String>)
    ensures
        factorial_models(c, r),
{
    if rl_eq(c.im, ZERO_BITS) && rl_lt(ZERO_BITS, c.re) && rl_eq(rl_fract(c.re), ZERO_BITS) {
        let k = rl_to_int(c.re);
        let mut acc: i64 = k;
        let mut n: i64 = k;
        while n > 2
            invariant
                fact_desc(acc, n) == fact_desc(k, k),
            decreases n,
        {
            acc = acc.wrapping_mul(n - 1);
            n = n - 1;
        }
        Ok(Value::re_only(rl_of_int(acc)))
    } else if rl_eq(c.re, ZERO_BITS) && rl_eq(c.im, ZERO_BITS) {
        Ok(Value::re_only(ONE_BITS))
    } else {
        Value::Number(cx_add(c, Cpx::re_only(ONE_BITS))).gamma()
    }
}

/// The eight Lanczos coefficients, as bit patterns.
pub const LANCZOS_BITS: [u64; 8] = [
    0x40852429B6C30B05,
    0xC093AC8E8ED4171B,
    0x40881A9661D3B4D8,
    0xC06613AE51A32F5D,
    0x402903C27F8B9C81,
    0xBFC1BCB2992B2855,
    0x3EE4F0514E4E324F,
    0x3E8435508F3FAEEF,
];

/// Bit pattern of the leading Lanczos constant 0.99999999999980993.
pub const LANCZOS_HEAD_BITS: u64 = 0x3FEFFFFFFFFFF950;

/// The fixed eight-term Lanczos approximation of the gamma function,
/// evaluated at `z`; a purely numeric kernel, so nothing is stated of the
/// result bits.
fn lanczos(z: Cpx) -> Cpx {
    let mut x = Cpx::re_only(LANCZOS_HEAD_BITS);
    let c = cx_sub(z, Cpx::re_only(ONE_BITS));
    let mut i: usize = 0;
    while i < 8
        decreases 8 - i,
    {
        let denom = cx_add(cx_add(c, Cpx::re_only(rl_of_u64(i as u64))), Cpx::re_only(ONE_BITS));
        x = cx_add(x, cx_div(Cpx::re_only(LANCZOS_BITS[i]), denom));
        i = i + 1;
    }
    let t = cx_sub(cx_add(c, Cpx::re_only(EIGHT_BITS)), Cpx::re_only(HALF_BITS));
    let pi = Cpx::re_only(PI_BITS);
    let lead = cx_sqrt(cx_mul(Cpx::re_only(TWO_BITS), pi));
    let p = cx_powc(t, cx_add(c, Cpx::re_only(HALF_BITS)));
    let e = cx_exp(cx_neg(t));
    cx_mul(cx_mul(cx_mul(lead, p), e), x)
}

impl Value {
    /// The gamma function: defined for Numbers alone.  A real part below
    /// one half goes through the reflection identity
    /// `gamma(z) = pi / (sin(pi z) * gamma(1 - z))`, whose remaining gamma
    /// falls to the Lanczos approximation; any other Number goes to the
    /// approximation directly.  Only the result's kind is stated: the value
    /// goes through the host's transcendental routines.
    pub fn gamma(self) -> (r: Result<Value, String>)
        ensures
            (self@ matches ValueModel::Number(_)) ==> (r matches Ok(v)
                && v@ matches ValueModel::Number(_)),
            !(self@ matches ValueModel::Number(_)) ==> (r matches Err(e)
                && e@ == "cannot calculate gamma for non-number"@),
    {
        let c = match self.as_complex() {
            Some(c) => c,
            None => {
                return Err("cannot calculate gamma for non-number".to_owned());
            }
        };
        let pi = Cpx::re_only(PI_BITS);
        if rl_lt(c.re, HALF_BITS) {
            let g = lanczos(cx_sub(Cpx::re_only(ONE_BITS), c));
            let denom = cx_mul(cx_sin(cx_mul(pi, c)), g);
            Ok(Value::Number(cx_div(pi, denom)))
        } else {
            Ok(Value::Number(lanczos(c)))
        }
    }
}

/// The real part's bits of a model value that is a Number with zero
/// imaginary part.
pub open spec fn as_real_model(m: ValueModel) -> Option<u64> {
    match m {
        ValueModel::Number(c) => if is_zero_bits(c.im) {
            Some(c.re)
        } else {
            None
        },
        _ => None,
    }
}

/// What each builtin yields for an argument list of its arity.  The `print`
/// clause covers only the returned value (its output line is stated by the
/// caller); of `clock` and the transcendental builtins only the kind of the
/// result is stated, since the host's clock or libm decides the bits.
pub open spec fn builtin_result(name: Seq<char>, args: Seq<ValueModel>, r: Result<Value, String>) -> bool {
    if name == "vec"@ {
        match as_real_model(args[0]) {
            None => r matches Err(e) && e@ == "the x component of the vector is not a number"@,
            Some(x) => match as_real_model(args[1]) {
                None => r matches Err(e) && e@ == "the y component of the vector is not a number"@,
                Some(y) => r matches Ok(v) && v@ == ValueModel::Vector(Vec2 { x, y }),
            },
        }
    } else if name == "x"@ {
        match args[0] {
            ValueModel::Vector(v) => r matches Ok(o) && o@ == ValueModel::Number(Cpx { re: v.x, im: ZERO_BITS }),
            _ => r matches Err(e) && e@ == "expected vector to take x component out of"@,
        }
    } else if name == "y"@ {
        match args[0] {
            ValueModel::Vector(v) => r matches Ok(o) && o@ == ValueModel::Number(Cpx { re: v.y, im: ZERO_BITS }),
            _ => r matches Err(e) && e@ == "expected vector to take y component out of"@,
        }
    } else if name == "sin"@ {
        match args[0] {
            ValueModel::Number(_) => r matches Ok(o) && o@ matches ValueModel::Number(_),
            _ => r matches Err(e) && e@ == "expected number to find sine of"@,
        }
    } else if name == "cos"@ {
        match args[0] {
            ValueModel::Number(_) => r matches Ok(o) && o@ matches ValueModel::Number(_),
            _ => r matches Err(e) && e@ == "expected number to find cosine of"@,
        }
    } else if name == "tan"@ {
        match args[0] {
            ValueModel::Number(_) => r matches Ok(o) && o@ matches ValueModel::Number(_),
            _ => r matches Err(e) && e@ == "expected number to find tangent of"@,
        }
    } else if name == "log"@ {
        match args[0] {
            ValueModel::Number(_) => r matches Ok(o) && o@ matches ValueModel::Number(_),
            _ => r matches Err(e) && e@ == "expected number to find logarithm of"@,
        }
    } else if name == "logn"@ {
        match as_real_model(args[0]) {
            None => r matches Err(e) && e@ == "expected real base to logarithm"@,
            Some(_) => match args[1] {
                ValueModel::Number(_) => r matches Ok(o) && o@ matches ValueModel::Number(_),
                _ => r matches Err(e) && e@ == "expected number to find logarithm of"@,
            },
        }
    } else if name == "ln"@ {
        match args[0] {
            ValueModel::Number(_) => r matches Ok(o) && o@ matches ValueModel::Number(_),
            _ => r matches Err(e) && e@ == "expected number to find natural logarithm of"@,
        }
    } else if name == "print"@ {
        r matches Ok(o) && o@ == args[0]
    } else if name == "conjugate"@ {
        match args[0] {
            ValueModel::Number(c) => r matches Ok(o)
                && o@ == ValueModel::Number(Cpx { re: c.re, im: rneg_bits(c.im) }),
            _ => r matches Err(e) && e@ == "expected a complex number to find conjugate of"@,
        }
    } else if name == "Re"@ {
        match args[0] {
            ValueModel::Number(c) => r matches Ok(o) && o@ == ValueModel::Number(Cpx { re: c.re, im: ZERO_BITS }),
            _ => r matches Err(e) && e@ == "expected a complex number to find real part of"@,
        }
    } else if name == "Im"@ {
        match args[0] {
            ValueModel::Number(c) => r matches Ok(o) && o@ == ValueModel::Number(Cpx { re: c.im, im: ZERO_BITS }),
            _ => r matches Err(e) && e@ == "expected a complex number to find imaginary part of"@,
        }
    } else if name == "len"@ {
        match args[0] {
            ValueModel::Array(es) => r matches Ok(o)
                && o@ == ValueModel::Number(Cpx { re: rof_u64_bits(es.len() as u64), im: ZERO_BITS }),
            _ => r matches Err(e) && e@ == "expected an array to find length of"@,
        }
    } else if name == "rm"@ {
        match args[0] {
            ValueModel::Array(es) => match as_real_model(args[1]) {
                None => r matches Err(e) && e@ == "expected a real number to index array with in rm(x, y)"@,
                Some(ix) => if !is_zero_bits(rfract_bits(ix)) || rtrunc_bits(ix) < 0
                    || rtrunc_bits(ix) >= es.len() {
                    r matches Err(e) && e@ == "cannot index array in rm(x, y) where y is "@
                        + crate::scalar::text_bits(ix)
                } else {
                    r matches Ok(o) && o@ == ValueModel::Array(es.remove(rtrunc_bits(ix) as int))
                },
            },
            _ => r matches Err(e) && e@ == "expected an array to remove value from"@,
        }
    } else if name == "ins"@ {
        match args[0] {
            ValueModel::Array(es) => match as_real_model(args[1]) {
                None => r matches Err(e) && e@ == "expected a real number to index array with in ins(x, y, z)"@,
                Some(ix) => if !is_zero_bits(rfract_bits(ix)) || rtrunc_bits(ix) < 0
                    || rtrunc_bits(ix) >= es.len() {
                    r matches Err(e) && e@ == "cannot index array in ins(x, y, z) where y is "@
                        + crate::scalar::text_bits(ix)
                } else {
                    r matches Ok(o) && o@ == ValueModel::Array(es.insert(rtrunc_bits(ix) as int, args[2]))
                },
            },
            _ => r matches Err(e) && e@ == "expected an array to remove value from"@,
        }
    } else if name == "mem"@ {
        r matches Ok(o) && o@ == ValueModel::Number(Cpx { re: rof_u64_bits(mem_model(args[0])), im: ZERO_BITS })
    } else if name == "clock"@ {
        match as_real_model(args[0]) {
            None => r matches Err(e) && e@ == "expected real number in clock(x)"@,
            Some(_) => r matches Ok(o) && o@ matches ValueModel::Number(c) && c.im == ZERO_BITS,
        }
    } else {
        false
    }
}

/// Runs one builtin on its already evaluated arguments.  Only `print`
/// touches the state: it appends the argument's rendering to the output.
pub fn call_builtin(state: &mut RuntimeState, name: &String, args: &Vec<Value>) -> (r: Result<Value, String>)
    requires
        crate::state::builtin_arity(name@) matches Some(k) && args@.len() == k,
    ensures
        final(state).globals == old(state).globals,
        final(state).locals == old(state).locals,
        final(state).functions == old(state).functions,
        final(state).call_depth == old(state).call_depth,
        final(state).start == old(state).start,
        builtin_result(name@, args.deep_view(), r),
        name@ != "print"@ ==> final(state).output == old(state).output,
        name@ == "print"@ ==> final(state).output@.len() == old(state).output@.len() + 1
            && final(state).output@.drop_last() == old(state).output@
            && final(state).output@.last()@ == render_model(args.deep_view()[0]),
{
    proof {
        reveal_strlit("vec");
        reveal_strlit("x");
        reveal_strlit("y");
        reveal_strlit("sin");
        reveal_strlit("cos");
        reveal_strlit("tan");
        reveal_strlit("log");
        reveal_strlit("logn");
        reveal_strlit("ln");
        reveal_strlit("print");
        reveal_strlit("conjugate");
        reveal_strlit("Re");
        reveal_strlit("Im");
        reveal_strlit("len");
        reveal_strlit("rm");
        reveal_strlit("ins");
        reveal_strlit("mem");
        reveal_strlit("clock");
        // The length facts below seed the prover with the revealed
        // characters, so that the distinct builtin names are known to
        // differ from one another.
        assert("vec"@.len() == 3);
        assert("print"@.len() == 5);
        assert("vec"@ != "print"@);
        assert(args.deep_view().len() == args@.len());
        assert(forall|i: int| 0 <= i < args@.len() ==> args.deep_view()[i] == #[trigger] args@[i]@);
    }
    if crate::state::str_is(name, "vec") {
        let x = match args[0].as_real() {
            Some(x) => x,
            None => { return Err("the x component of the vector is not a number".to_owned()); }
        };
        let y = match args[1].as_real() {
            Some(y) => y,
            None => { return Err("the y component of the vector is not a number".to_owned()); }
        };
        Ok(Value::Vector(Vec2 { x, y }))
    } else if crate::state::str_is(name, "x") {
        match args[0].as_vector() {
            Some(v) => Ok(Value::re_only(v.x)),
            None => Err("expected vector to take x component out of".to_owned()),
        }
    } else if crate::state::str_is(name, "y") {
        match args[0].as_vector() {
            Some(v) => Ok(Value::re_only(v.y)),
            None => Err("expected vector to take y component out of".to_owned()),
        }
    } else if crate::state::str_is(name, "sin") {
        match args[0].as_complex() {
            Some(c) => Ok(Value::Number(cx_sin(c))),
            None => Err("expected number to find sine of".to_owned()),
        }
    } else if crate::state::str_is(name, "cos") {
        match args[0].as_complex() {
            Some(c) => Ok(Value::Number(cx_cos(c))),
            None => Err("expected number to find cosine of".to_owned()),
        }
    } else if crate::state::str_is(name, "tan") {
        match args[0].as_complex() {
            Some(c) => Ok(Value::Number(cx_tan(c))),
            None => Err("expected number to find tangent of".to_owned()),
        }
    } else if crate::state::str_is(name, "log") {
        match args[0].as_complex() {
            Some(c) => Ok(Value::Number(cx_log(c, crate::scalar::TEN_BITS))),
            None => Err("expected number to find logarithm of".to_owned()),
        }
    } else if crate::state::str_is(name, "logn") {
        let b = match args[0].as_real() {
            Some(b) => b,
            None => { return Err("expected real base to logarithm".to_owned()); }
        };
        match args[1].as_complex() {
            Some(c) => Ok(Value::Number(cx_log(c, b))),
            None => Err("expected number to find logarithm of".to_owned()),
        }
    } else if crate::state::str_is(name, "ln") {
        match args[0].as_complex() {
            Some(c) => Ok(Value::Number(cx_ln(c))),
            None => Err("expected number to find natural logarithm of".to_owned()),
        }
    } else if crate::state::str_is(name, "print") {
        let line = args[0].render();
        state.output.push(line);
        Ok(args[0].duplicate())
    } else if crate::state::str_is(name, "conjugate") {
        match args[0].as_complex() {
            Some(c) => Ok(Value::Number(Cpx { re: c.re, im: rl_neg(c.im) })),
            None => Err("expected a complex number to find conjugate of".to_owned()),
        }
    } else if crate::state::str_is(name, "Re") {
        match args[0].as_complex() {
            Some(c) => Ok(Value::re_only(c.re)),
            None => Err("expected a complex number to find real part of".to_owned()),
        }
    } else if crate::state::str_is(name, "Im") {
        match args[0].as_complex() {
            Some(c) => Ok(Value::re_only(c.im)),
            None => Err("expected a complex number to find imaginary part of".to_owned()),
        }
    } else if crate::state::str_is(name, "len") {
        match &args[0] {
            Value::Array(arr) => {
                proof {
                    assert(args.deep_view()[0] == args@[0]@);
                    assert(args@[0]@->Array_0.len() == arr@.len());
                }
                Ok(Value::re_only(rl_of_u64(arr.len() as u64)))
            }
            _ => Err("expected an array to find length of".to_owned()),
        }
    } else if crate::state::str_is(name, "rm") {
        let arr = match &args[0] {
            Value::Array(arr) => arr,
            _ => { return Err("expected an array to remove value from".to_owned()); }
        };
        let ix = match args[1].as_real() {
            Some(ix) => ix,
            None => { return Err("expected a real number to index array with in rm(x, y)".to_owned()); }
        };
        let i = rl_to_int(ix);
        if !rl_eq(rl_fract(ix), ZERO_BITS) || i < 0 || i as u128 >= arr.len() as u128 {
            let mut m = "cannot index array in rm(x, y) where y is ".to_owned();
            m.append(crate::scalar::rl_text(ix).as_str());
            Err(m)
        } else {
            let mut out = args[0].duplicate();
            let ghost es = args@[0]@->Array_0;
            let ghost out0 = out;
            match &mut out {
                Value::Array(v) => {
                    proof {
                        assert(out0@ == args@[0]@);
                        assert(v.deep_view() =~= es);
                        assert(v@.len() == es.len());
                    }
                    v.remove(i as usize);
                    proof {
                        assert(v.deep_view() =~= es.remove(i as int));
                    }
                }
                _ => { proof { assert(false); } }
            }
            let r = out;
            proof {
                assert(r@ matches ValueModel::Array(s) && s =~= es.remove(i as int));
            }
            Ok(r)
        }
    } else if crate::state::str_is(name, "ins") {
        let arr = match &args[0] {
            Value::Array(arr) => arr,
            _ => { return Err("expected an array to remove value from".to_owned()); }
        };
        let ix = match args[1].as_real() {
            Some(ix) => ix,
            None => { return Err("expected a real number to index array with in ins(x, y, z)".to_owned()); }
        };
        let i = rl_to_int(ix);
        if !rl_eq(rl_fract(ix), ZERO_BITS) || i < 0 || i as u128 >= arr.len() as u128 {
            let mut m = "cannot index array in ins(x, y, z) where y is ".to_owned();
            m.append(crate::scalar::rl_text(ix).as_str());
            Err(m)
        } else {
            let mut out = args[0].duplicate();
            let ghost es = args@[0]@->Array_0;
            let ghost out0 = out;
            match &mut out {
                Value::Array(v) => {
                    proof {
                        assert(out0@ == args@[0]@);
                        assert(v.deep_view() =~= es);
                        assert(v@.len() == es.len());
                    }
                    v.insert(i as usize, args[2].duplicate());
                    proof {
                        assert(v.deep_view() =~= es.insert(i as int, args@[2]@));
                    }
                }
                _ => { proof { assert(false); } }
            }
            let r = out;
            proof {
                assert(r@ matches ValueModel::Array(s) && s =~= es.insert(i as int, args@[2]@));
            }
            Ok(r)
        }
    } else if crate::state::str_is(name, "mem") {
        let sz = args[0].mem_size();
        Ok(Value::re_only(rl_of_u64(sz)))
    } else {
        let t = match args[0].as_real() {
            Some(t) => t,
            None => { return Err("expected real number in clock(x)".to_owned()); }
        };
        proof {
            assert(name@ == "clock"@);
        }
        let nanos = elapsed_nanos(&state.start);
        let secs = rl_div(rl_of_u64(nanos), NANOS_PER_SEC_BITS);
        Ok(Value::re_only(rl_sub(secs, t)))
    }
}

/// The local table seen through each value's mathematical shape.
pub open spec fn locals_models(m: Map<Seq<char>, Value>) -> Map<Seq<char>, ValueModel> {
    m.map_values(|v: Value| v@)
}

/// What resolving an identifier yields: the local binding first, then the
/// global one, else the unknown-variable error.
pub open spec fn ident_result(pre: RuntimeState, name: Seq<char>, r: Result<Value, String>) -> bool {
    if pre.locals@.contains_key(name) {
        r matches Ok(v) && v@ == pre.locals@[name]@
    } else if pre.globals@.contains_key(name) {
        r matches Ok(v) && v@ == pre.globals@[name]@
    } else {
        r matches Err(e) && e@ == "unknown variable: "@ + name
    }
}

/// The arity-mismatch message.
pub open spec fn arity_msg(name: Seq<char>, expected: nat, got: nat) -> Seq<char> {
    name + " expects "@ + dec_seq(expected) + " parameters, but only "@ + dec_seq(got)
        + " were supplied"@
}

/// Builds the arity-mismatch message.
fn arity_message(name: &String, expected: u64, got: u64) -> (r: String)
    ensures
        r@ == arity_msg(name@, expected as nat, got as nat),
{
    let mut m = name.clone();
    m.append(" expects ");
    m.append(decimal_string(expected).as_str());
    m.append(" parameters, but only ");
    m.append(decimal_string(got).as_str());
    m.append(" were supplied");
    m
}

/// What assigning one value to a list of names does to the local table.
/// Each name in turn must already be a local or a global; a global that has
/// no local shadow may not be assigned from inside a function; a permitted
/// name takes the value as a local binding, whatever table it came from.
/// The first offending name aborts with its error.
pub open spec fn assign_models(
    locals: Map<Seq<char>, ValueModel>,
    globals_dom: Set<Seq<char>>,
    in_fn: bool,
    ids: Seq<Seq<char>>,
    v: ValueModel,
) -> Result<Map<Seq<char>, ValueModel>, Seq<char>>
    decreases ids.len(),
{
    if ids.len() == 0 {
        Ok(locals)
    } else {
        let id = ids[0];
        if !locals.contains_key(id) && !globals_dom.contains(id) {
            Err("use of undefined variable: "@ + id)
        } else if in_fn && globals_dom.contains(id) && !locals.contains_key(id) {
            Err("attempted to affect external variable "@ + id + " from within a function"@)
        } else {
            assign_models(locals.insert(id, v), globals_dom, in_fn, ids.drop_first(), v)
        }
    }
}

/// The local table after the first `j` target names have taken the value.
pub open spec fn inserted_prefix(
    locals: Map<Seq<char>, ValueModel>,
    ids: Seq<Seq<char>>,
    v: ValueModel,
    j: int,
) -> Map<Seq<char>, ValueModel>
    decreases j,
{
    if j <= 0 {
        locals
    } else {
        inserted_prefix(locals, ids, v, j - 1).insert(ids[j - 1], v)
    }
}

/// Where a failing assignment stopped: the first `j` targets took the
/// value, and the step on the remaining names rejects the `j`-th with the
/// reported message.
pub open spec fn assign_failed_at(
    pre_locals: Map<Seq<char>, ValueModel>,
    globals_dom: Set<Seq<char>>,
    in_fn: bool,
    ids: Seq<Seq<char>>,
    v: ValueModel,
    j: int,
    now_locals: Map<Seq<char>, ValueModel>,
    e: Seq<char>,
) -> bool {
    &&& 0 <= j <= ids.len()
    &&& now_locals == inserted_prefix(pre_locals, ids, v, j)
    &&& assign_models(now_locals, globals_dom, in_fn, ids.skip(j), v) matches Err(m) && e == m
}

/// A failing assignment stopped at some position, the earlier targets
/// keeping the value they already took.
pub open spec fn assign_stopped(
    pre_locals: Map<Seq<char>, ValueModel>,
    globals_dom: Set<Seq<char>>,
    in_fn: bool,
    ids: Seq<Seq<char>>,
    v: ValueModel,
    now_locals: Map<Seq<char>, ValueModel>,
    e: Seq<char>,
) -> bool {
    exists|j: int| #[trigger] assign_failed_at(pre_locals, globals_dom, in_fn, ids, v, j, now_locals, e)
}

/// Assigns an already evaluated value to each target name in order, per
/// [`assign_models`]; hands the value back on success.  On an error the
/// earlier targets keep the value they already took, per
/// [`assign_failed_at`].
pub fn assign_ids(state: &mut RuntimeState, ids: &Vec<String>, value: Value) -> (r: Result<Value, String>)
    ensures
        final(state).globals == old(state).globals,
        final(state).functions == old(state).functions,
        final(state).call_depth == old(state).call_depth,
        final(state).output == old(state).output,
        final(state).start == old(state).start,
        match assign_models(
            locals_models(old(state).locals@),
            old(state).globals@.dom(),
            old(state).call_depth > 0,
            ids.deep_view(),
            value@,
        ) {
            Ok(m) => locals_models(final(state).locals@) == m && (r matches Ok(v) && v@ == value@),
            Err(msg) => r matches Err(e) && e@ == msg,
        },
        r matches Err(e) ==> assign_stopped(
            locals_models(old(state).locals@),
            old(state).globals@.dom(),
            old(state).call_depth > 0,
            ids.deep_view(),
            value@,
            locals_models(final(state).locals@),
            e@,
        ),
{
    let ghost gv = value@;
    let ghost whole = assign_models(
        locals_models(state.locals@),
        state.globals@.dom(),
        state.call_depth > 0,
        ids.deep_view(),
        gv,
    );
    let in_fn = state.call_depth > 0;
    proof {
        assert(ids.deep_view().skip(0) =~= ids.deep_view());
    }
    let mut i: usize = 0;
    while i < ids.len()
        invariant
            i <= ids@.len(),
            in_fn == (state.call_depth > 0),
            state.globals == old(state).globals,
            state.functions == old(state).functions,
            state.call_depth == old(state).call_depth,
            state.output == old(state).output,
            state.start == old(state).start,
            gv == value@,
            whole == assign_models(
                locals_models(old(state).locals@),
                old(state).globals@.dom(),
                old(state).call_depth > 0,
                ids.deep_view(),
                gv,
            ),
            whole == assign_models(
                locals_models(state.locals@),
                state.globals@.dom(),
                in_fn,
                ids.deep_view().skip(i as int),
                gv,
            ),
            locals_models(state.locals@) == inserted_prefix(
                locals_models(old(state).locals@),
                ids.deep_view(),
                gv,
                i as int,
            ),
        decreases ids@.len() - i,
    {
        proof {
            assert(ids.deep_view().skip(i as int)[0] == ids@[i as int]@);
            assert(ids.deep_view().skip(i as int).drop_first()
                =~= ids.deep_view().skip(i as int + 1));
            assert(locals_models(state.locals@).contains_key(ids@[i as int]@)
                == state.locals@.contains_key(ids@[i as int]@));
        }
        let id = &ids[i];
        if !state.has_local(id.as_str()) && !state.has_global(id.as_str()) {
            let mut m = "use of undefined variable: ".to_owned();
            m.append(id.as_str());
            proof {
                assert(whole == Err::<Map<Seq<char>, ValueModel>, Seq<char>>(
                    "use of undefined variable: "@ + ids@[i as int]@,
                ));
                assert(assign_failed_at(
                    locals_models(old(state).locals@),
                    old(state).globals@.dom(),
                    old(state).call_depth > 0,
                    ids.deep_view(),
                    gv,
                    i as int,
                    locals_models(state.locals@),
                    m@,
                ));
                let infn = old(state).call_depth > 0;
                assert(assign_stopped(
                    locals_models(old(state).locals@),
                    old(state).globals@.dom(),
                    infn,
                    ids.deep_view(),
                    gv,
                    locals_models(state.locals@),
                    m@,
                ));
            }
            return Err(m);
        }
        if in_fn && state.has_global(id.as_str()) && !state.has_local(id.as_str()) {
            let mut m = "attempted to affect external variable ".to_owned();
            m.append(id.as_str());
            m.append(" from within a function");
            proof {
                assert(whole == Err::<Map<Seq<char>, ValueModel>, Seq<char>>(
                    "attempted to affect external variable "@ + ids@[i as int]@
                        + " from within a function"@,
                ));
                assert(assign_failed_at(
                    locals_models(old(state).locals@),
                    old(state).globals@.dom(),
                    old(state).call_depth > 0,
                    ids.deep_view(),
                    gv,
                    i as int,
                    locals_models(state.locals@),
                    m@,
                ));
                let infn = old(state).call_depth > 0;
                assert(assign_stopped(
                    locals_models(old(state).locals@),
                    old(state).globals@.dom(),
                    infn,
                    ids.deep_view(),
                    gv,
                    locals_models(state.locals@),
                    m@,
                ));
            }
            return Err(m);
        }
        let dup = value.duplicate();
        let ghost pre_exec = state.locals@;
        let ghost pre_locals = locals_models(state.locals@);
        state.add_local(id.clone(), dup);
        proof {
            lemma_locals_models_insert(pre_exec, ids@[i as int]@, dup);
            assert(state.locals@ == pre_exec.insert(ids@[i as int]@, dup));
            assert(locals_models(pre_exec.insert(ids@[i as int]@, dup))
                == locals_models(pre_exec).insert(ids@[i as int]@, dup@));
            assert(dup@ == gv);
            assert(pre_locals.insert(ids@[i as int]@, dup@) == pre_locals.insert(ids@[i as int]@, gv));
            assert(locals_models(state.locals@) == pre_locals.insert(ids@[i as int]@, gv));
        }
        i = i + 1;
    }
    proof {
        assert(ids.deep_view().skip(i as int).len() == 0);
    }
    Ok(value)
}

/// Writing one binding through each value's mathematical shape.
pub proof fn lemma_locals_models_insert(m: Map<Seq<char>, Value>, k: Seq<char>, v: Value)
    ensures
        locals_models(m.insert(k, v)) =~~= locals_models(m).insert(k, v@),
{
    assert forall|x: Seq<char>| #[trigger] locals_models(m.insert(k, v)).contains_key(x)
        implies locals_models(m.insert(k, v))[x] == locals_models(m).insert(k, v@)[x] by {
        if x == k {
        } else {
        }
    };
}

/// The scalar of a numeric literal: its bit pattern as the real or the
/// imaginary component, per the literal's flag.
pub open spec fn literal_cpx(bits: u64, imag: bool) -> Cpx {
    if imag {
        Cpx { re: ZERO_BITS, im: bits }
    } else {
        Cpx { re: bits, im: ZERO_BITS }
    }
}

/// The value of a numeric literal.
pub open spec fn literal_model(bits: u64, imag: bool) -> ValueModel {
    ValueModel::Number(literal_cpx(bits, imag))
}

/// Whether every node of the sequence is a numeric literal.
pub open spec fn all_literals(nodes: Seq<Node>) -> bool {
    forall|i: int| 0 <= i < nodes.len() ==> (#[trigger] nodes[i]) matches Node::Number(_, _)
}

/// The values of a sequence of numeric literals.
pub open spec fn literal_values(nodes: Seq<Node>) -> Seq<ValueModel> {
    Seq::new(nodes.len(), |i: int| literal_model(nodes[i]->Number_0, nodes[i]->Number_1))
}

/// What one binary operator yields on two already evaluated operands: the
/// per-operator outcome predicate of the value algebra.
pub open spec fn operation_models(o: Operator, a: ValueModel, b: ValueModel, r: Result<Value, String>) -> bool {
    match o {
        Operator::Add => result_models(r, spec_add(a, b)),
        Operator::Subtract => result_models(r, spec_sub(a, b)),
        Operator::Multiply => result_models(r, spec_mul(a, b)),
        Operator::Divide => result_models(r, spec_div(a, b)),
        Operator::Power => pow_models(a, b, r),
        Operator::Modulo => result_models(r, spec_rem(a, b)),
        Operator::Equals => r matches Ok(v) && v@ == spec_equals(a, b),
        Operator::GreaterThan => gt_models(a, b, r),
        Operator::LessThan => lt_models(a, b, r),
        Operator::GreaterThanOrEquals => ge_models(a, b, r),
        Operator::LessThanOrEquals => le_models(a, b, r),
    }
}

/// The running sum of an ascending summation loop over literal data: from
/// `x`, while `x` is below `second`, each visited value adds one body value
/// `bv` to the accumulator; a step that would pass `second` is snapped so
/// the end bound is visited exactly once.  `g` bounds the iterations;
/// exhausting it answers `None` (the iteration-limit error).
pub open spec fn asc_sum(x: u64, second: u64, step: u64, bv: Cpx, acc: Cpx, g: nat) -> Option<Cpx>
    decreases g,
{
    if !rlt_bits(x, second) {
        Some(acc)
    } else if g == 0 {
        None
    } else {
        let acc1 = add_bits(acc, bv);
        let nx = radd_bits(x, step);
        if rlt_bits(nx, second) {
            asc_sum(nx, second, step, bv, acc1, (g - 1) as nat)
        } else {
            Some(add_bits(acc1, bv))
        }
    }
}

/// The descending mirror of [`asc_sum`]: while `x` is above `second`,
/// stepping downward, with the same end-bound snap.
pub open spec fn desc_sum(x: u64, second: u64, step: u64, bv: Cpx, acc: Cpx, g: nat) -> Option<Cpx>
    decreases g,
{
    if !rlt_bits(second, x) {
        Some(acc)
    } else if g == 0 {
        None
    } else {
        let acc1 = add_bits(acc, bv);
        let nx = rsub_bits(x, step);
        if rlt_bits(second, nx) {
            desc_sum(nx, second, step, bv, acc1, (g - 1) as nat)
        } else {
            Some(add_bits(acc1, bv))
        }
    }
}

/// Whether a loop node carries a fully literal range and a literal body.
pub open spec fn lit_loop_shape(n: Node) -> bool {
    &&& n matches Node::Loop(_, _, _)
    &&& *n->Loop_1 matches Node::Range(f2, s2, st2)
        && (*f2 matches Node::Number(_, _))
        && (*s2 matches Node::Number(_, _))
        && (*st2 matches Node::Number(_, _))
    &&& *n->Loop_2 matches Node::Number(_, _)
}

/// The real part of such a loop's first bound.
pub open spec fn loop_first_re(n: Node) -> u64 {
    literal_cpx((*n->Loop_1)->Range_0->Number_0, (*n->Loop_1)->Range_0->Number_1).re
}

/// The real part of such a loop's second bound.
pub open spec fn loop_second_re(n: Node) -> u64 {
    literal_cpx((*n->Loop_1)->Range_1->Number_0, (*n->Loop_1)->Range_1->Number_1).re
}

/// The real part of such a loop's step.
pub open spec fn loop_step_re(n: Node) -> u64 {
    literal_cpx((*n->Loop_1)->Range_2->Number_0, (*n->Loop_1)->Range_2->Number_1).re
}

/// The body value of such a loop.
pub open spec fn loop_body_cpx(n: Node) -> Cpx {
    literal_cpx(n->Loop_2->Number_0, n->Loop_2->Number_1)
}

/// Whether a loop node with a literal range has passed its bound and step
/// checks (vacuously true for any other node), placing it past the exact
/// error clauses of [`shallow_post`].
pub open spec fn loop_checks_passed(n: Node) -> bool {
    match n {
        Node::Loop(_, range, _) => match *range {
            Node::Range(f2, s2, st2) => match (*f2, *s2, *st2) {
                (Node::Number(fb, fi), Node::Number(sb, si), Node::Number(stb, sti)) => {
                    &&& is_zero_bits(literal_cpx(fb, fi).im)
                    &&& is_zero_bits(literal_cpx(sb, si).im)
                    &&& is_zero_bits(literal_cpx(stb, sti).im)
                    &&& !is_zero_bits(literal_cpx(stb, sti).re)
                }
                _ => true,
            },
            _ => true,
        },
        _ => true,
    }
}

/// What the evaluator promises of one step beyond the always-preserved
/// frame: exact outcomes for the node kinds that touch no sub-expression
/// first, and the binding facts that survive the recursive kinds.
pub open spec fn shallow_post(node: Node, pre: RuntimeState, post: RuntimeState, r: Result<Value, String>) -> bool {
    match node {
        Node::Number(bits, imag) => post == pre && (r matches Ok(v)
            && v@ == literal_model(bits, imag)),
        Node::Identifier(name) => post == pre && ident_result(pre, name@, r),
        Node::FunctionDeclaration(fname, params, body) => {
            if pre.functions@.contains_key(fname@) || builtin_arity(fname@) is Some {
                post == pre && (r matches Err(e)
                    && e@ == "redeclared a function that already is defined: "@ + fname@)
            } else {
                post.functions@ == pre.functions@.insert(fname@, FnDef { params, body })
                && post.globals == pre.globals
                && post.locals == pre.locals
                && post.call_depth == pre.call_depth
                && post.output == pre.output
                && post.start == pre.start
                && (r matches Ok(v) && v@ == false_model())
            }
        }
        Node::VariableDeclaration(name, e) => {
            if pre.globals@.contains_key(name@) || pre.locals@.contains_key(name@) {
                post == pre && (r matches Err(er)
                    && er@ == "you cannot redeclare a variable: "@ + name@)
            } else {
                (r matches Ok(v) ==> (v@ == false_model()
                    && (pre.call_depth > 0 ==> post.locals@.contains_key(name@))
                    && (pre.call_depth == 0 ==> post.globals@.contains_key(name@))))
                && match *e {
                    Node::Number(b, i) => (r matches Ok(v) && v@ == false_model())
                        && post.functions == pre.functions
                        && post.output == pre.output
                        && post.start == pre.start
                        && (if pre.call_depth > 0 {
                            post.locals@ == pre.locals@.insert(
                                name@,
                                Value::Number(
                                    if i {
                                        Cpx { re: ZERO_BITS, im: b }
                                    } else {
                                        Cpx { re: b, im: ZERO_BITS }
                                    },
                                ),
                            ) && post.globals == pre.globals
                        } else {
                            post.globals@ == pre.globals@.insert(
                                name@,
                                Value::Number(
                                    if i {
                                        Cpx { re: ZERO_BITS, im: b }
                                    } else {
                                        Cpx { re: b, im: ZERO_BITS }
                                    },
                                ),
                            ) && post.locals == pre.locals
                        }),
                    _ => true,
                }
            }
        }
        Node::Tree(nodes) => {
            if nodes@.len() == 0 {
                post == pre && (r matches Ok(v) && v@ == false_model())
            } else if (nodes@.last() matches Node::VariableDeclaration(_, _))
                || (nodes@.last() matches Node::FunctionDeclaration(_, _, _)) {
                post == pre && (r matches Err(e) && e@ == "a block must end with an expression"@)
            } else if all_literals(nodes@) {
                post == pre && (r matches Ok(v)
                    && v@ == literal_model(nodes@.last()->Number_0, nodes@.last()->Number_1))
            } else {
                true
            }
        }
        Node::Array(nodes) => (r matches Ok(v)
            ==> v@ matches ValueModel::Array(es) && es.len() == nodes@.len())
            && (all_literals(nodes@) ==> post == pre
                && (r matches Ok(v) && v@ == ValueModel::Array(literal_values(nodes@)))),
        Node::Index(a, ix) => match (*a, *ix) {
            (Node::Array(elems), Node::Number(b, i2)) => all_literals(elems@)
                ==> index_models(literal_values(elems@), literal_model(b, i2), r),
            _ => true,
        },
        Node::Conditional(p, t, f) => match *p {
            Node::Number(pb, pi) => if !is_zero_bits(literal_cpx(pb, pi).im) {
                post == pre && (r matches Err(e)
                    && e@ == "a predicate to a conditional expression must be a number"@)
            } else {
                match (*t, *f) {
                    (Node::Number(tb, ti), Node::Number(fb, fi)) => post == pre
                        && (r matches Ok(v) && v@ == (if !is_zero_bits(literal_cpx(pb, pi).re) {
                            literal_model(tb, ti)
                        } else {
                            literal_model(fb, fi)
                        })),
                    _ => true,
                }
            },
            _ => true,
        },
        Node::Loop(_, range, lbody) => match *range {
            Node::Range(f2, s2, st2) => match (*f2, *s2, *st2) {
                (Node::Number(fb, fi), Node::Number(sb, si), Node::Number(stb, sti)) => {
                    if !is_zero_bits(literal_cpx(fb, fi).im) {
                        post == pre && (r matches Err(e)
                            && e@ == "the first bound must be a real number"@)
                    } else if !is_zero_bits(literal_cpx(sb, si).im) {
                        post == pre && (r matches Err(e)
                            && e@ == "the second bound must be a real number"@)
                    } else if !is_zero_bits(literal_cpx(stb, sti).im) {
                        post == pre && (r matches Err(e) && e@ == "the step must be a number"@)
                    } else if is_zero_bits(literal_cpx(stb, sti).re) {
                        post == pre && (r matches Err(e) && e@ == "a step cannot be 0"@)
                    } else {
                        match *lbody {
                            Node::Number(bb, bi) => {
                                let fr = literal_cpx(fb, fi).re;
                                let sr = literal_cpx(sb, si).re;
                                let tr = literal_cpx(stb, sti).re;
                                let bv = literal_cpx(bb, bi);
                                let zero = Cpx { re: ZERO_BITS, im: ZERO_BITS };
                                let outcome = if rlt_bits(fr, sr) {
                                    asc_sum(fr, sr, tr, bv, zero, u64::MAX as nat)
                                } else {
                                    desc_sum(fr, sr, tr, bv, zero, u64::MAX as nat)
                                };
                                match outcome {
                                    Some(c) => r matches Ok(v) && v@ == ValueModel::Number(c),
                                    None => r matches Err(e)
                                        && e@ == "the loop ran past the iteration limit"@,
                                }
                            }
                            _ => true,
                        }
                    }
                }
                _ => true,
            },
            _ => true,
        },
        Node::Assignment(ids, e) => match *e {
            Node::Number(b, i) => match assign_models(
                locals_models(pre.locals@),
                pre.globals@.dom(),
                pre.call_depth > 0,
                ids.deep_view(),
                literal_model(b, i),
            ) {
                Ok(m) => locals_models(post.locals@) == m
                    && (r matches Ok(v) && v@ == literal_model(b, i))
                    && post.globals == pre.globals
                    && post.functions == pre.functions
                    && post.output == pre.output,
                Err(msg) => r matches Err(er) && er@ == msg,
            },
            _ => true,
        },
        Node::Factorial(e) => match *e {
            Node::Number(b, i) => factorial_models(literal_cpx(b, i), r),
            _ => true,
        },
        Node::FunctionCall(name, args) => {
            if !pre.functions@.contains_key(name@) && builtin_arity(name@) is None {
                post == pre && (r matches Err(e) && e@ == "unknown function: "@ + name@)
            } else if builtin_arity(name@) is Some
                && args@.len() != builtin_arity(name@)->Some_0 {
                post == pre && (r matches Err(e)
                    && e@ == arity_msg(name@, builtin_arity(name@)->Some_0 as nat, args@.len() as nat))
            } else if builtin_arity(name@) is None && pre.functions@.contains_key(name@)
                && args@.len() != pre.functions@[name@].params@.len() {
                post == pre && (r matches Err(e) && e@ == arity_msg(
                    name@,
                    pre.functions@[name@].params@.len() as nat,
                    args@.len() as nat,
                ))
            } else if builtin_arity(name@) is None && pre.functions@.contains_key(name@)
                && (*pre.functions@[name@].body matches Node::Number(_, _)) {
                r matches Ok(v) ==> v@ == literal_model(
                    (*pre.functions@[name@].body)->Number_0,
                    (*pre.functions@[name@].body)->Number_1,
                )
            } else {
                true
            }
        }
        Node::Operation(l, o, rgt) => match (*l, *rgt) {
            (Node::Number(b1, i1), Node::Number(b2, i2)) => operation_models(
                o,
                literal_model(b1, i1),
                literal_model(b2, i2),
                r,
            ),
            _ => true,
        },
        _ => true,
    }
}

/// One evaluation step of the tree-walking interpreter.  The recursion into
/// a user function's stored body spends one unit of `fuel`; structural
/// recursion into sub-expressions spends none.
#[verifier::rlimit(60)]
pub fn evaluate(state: &mut RuntimeState, node: &Node, fuel: u64) -> (r: Result<Value, String>)
    requires
        node_wf(*node),
        state_wf(*old(state)),
    ensures
        state_wf(*final(state)),
        state_preserved(*old(state), *final(state)),
        final(state).call_depth == old(state).call_depth,
        shallow_post(*node, *old(state), *final(state), r),
    decreases fuel, *node,
{
    match node {
        Node::Number(bits, imag) => {
            if *imag {
                Ok(Value::im_only(*bits))
            } else {
                Ok(Value::re_only(*bits))
            }
        }
        Node::Identifier(name) => {
            if let Some(v) = state.locals.get(name.as_str()) {
                Ok(v.duplicate())
            } else if let Some(v) = state.globals.get(name.as_str()) {
                Ok(v.duplicate())
            } else {
                let mut m = "unknown variable: ".to_owned();
                m.append(name.as_str());
                Err(m)
            }
        }
        Node::Operation(left, op, right) => {
            proof {
                assert(decreases_to!(*node => (*node)->Operation_0));
                assert(decreases_to!(*node => (*node)->Operation_2));
            }
            let l = match evaluate(state, left, fuel) {
                Ok(l) => l,
                Err(e) => { return Err(e); }
            };
            let ghost s1 = *state;
            let rv = match evaluate(state, right, fuel) {
                Ok(rv) => rv,
                Err(e) => {
                    proof { lemma_preserved_trans(*old(state), s1, *state); }
                    return Err(e);
                }
            };
            proof { lemma_preserved_trans(*old(state), s1, *state); }
            match *op {
                Operator::Add => l.add(rv),
                Operator::Subtract => l.sub(rv),
                Operator::Multiply => l.mul(rv),
                Operator::Divide => l.div(rv),
                Operator::Power => l.pow(rv),
                Operator::Modulo => l.rem(rv),
                Operator::Equals => Ok(l.equals(rv)),
                Operator::GreaterThan => l.greater_than(rv),
                Operator::LessThan => l.less_than(rv),
                Operator::GreaterThanOrEquals => l.greater_than_or_equals(rv),
                Operator::LessThanOrEquals => l.less_than_or_equals(rv),
            }
        }
        Node::FunctionCall(name, args) => {
            if !state.has_function(name) {
                let mut m = "unknown function: ".to_owned();
                m.append(name.as_str());
                return Err(m);
            }
            if let Some(arity) = lookup_builtin_arity(name) {
                if args.len() as u64 != arity {
                    return Err(arity_message(name, arity, args.len() as u64));
                }
                    let mut results: Vec<Result<Value, String>> = Vec::new();
                let mut i: usize = 0;
                while i < args.len()
                    invariant
                        i <= args@.len(),
                        results@.len() == i as int,
                        node_wf(*node),
                        *node matches Node::FunctionCall(nm, a) && nm == *name && a == *args,
                        builtin_arity(name@) is Some,
                        args@.len() == builtin_arity(name@)->Some_0,
                        state_wf(*state),
                        state_preserved(*old(state), *state),
                        state.call_depth == old(state).call_depth,
                    decreases args@.len() - i,
                {
                    proof {
                        assert(decreases_to!(*node => (*node)->FunctionCall_1));
                        vstd::std_specs::vec::axiom_vec_index_decreases(*args, i as int);
                        assert(node_wf(args@[i as int]));
                    }
                    let ghost mid = *state;
                    let rr = evaluate(state, &args[i], fuel);
                    proof { lemma_preserved_trans(*old(state), mid, *state); }
                    results.push(rr);
                    i = i + 1;
                }
                let mut values: Vec<Value> = Vec::new();
                while results.len() > 0
                    invariant
                        *node matches Node::FunctionCall(nm, a) && nm == *name && a == *args,
                        builtin_arity(name@) is Some,
                        args@.len() == builtin_arity(name@)->Some_0,
                        state_wf(*state),
                        state_preserved(*old(state), *state),
                        state.call_depth == old(state).call_depth,
                        values@.len() + results@.len() == args@.len(),
                    decreases results@.len(),
                {
                    match results.remove(0) {
                        Ok(v) => { values.push(v); }
                        Err(e) => { return Err(e); }
                    }
                }
                let ghost mid = *state;
                let out = call_builtin(state, name, &values);
                proof { lemma_preserved_trans(*old(state), mid, *state); }
                out
            } else {
                let (params, body) = match state.functions.get(name.as_str()) {
                    Some(def) => (rc_dup(&def.params), rc_dup(&def.body)),
                    None => {
                        proof { assert(false); }
                        return Err(String::new());
                    }
                };
                if args.len() != params.len() {
                    return Err(arity_message(name, params.len() as u64, args.len() as u64));
                }
                let mut preserved: Vec<Option<Value>> = Vec::new();
                let mut i: usize = 0;
                while i < params.len()
                    invariant
                        i <= params@.len(),
                        preserved@.len() == i as int,
                    decreases params@.len() - i,
                {
                    if let Some(v) = state.locals.get(params[i].as_str()) {
                        preserved.push(Some(v.duplicate()));
                    } else {
                        preserved.push(None);
                    }
                    i = i + 1;
                }
                let mut i: usize = 0;
                while i < args.len()
                    invariant
                        i <= args@.len(),
                        args@.len() == params@.len(),
                        node_wf(*node),
                        *node matches Node::FunctionCall(nm, a) && nm == *name && a == *args,
                        builtin_arity(name@) is None,
                        old(state).functions@.contains_key(name@),
                        args@.len() == old(state).functions@[name@].params@.len(),
                        state_wf(*state),
                        state_preserved(*old(state), *state),
                        state.call_depth == old(state).call_depth,
                    decreases args@.len() - i,
                {
                    proof {
                        assert(decreases_to!(*node => (*node)->FunctionCall_1));
                        vstd::std_specs::vec::axiom_vec_index_decreases(*args, i as int);
                        assert(node_wf(args@[i as int]));
                    }
                    let ghost mid = *state;
                    let rr = evaluate(state, &args[i], fuel);
                    proof { lemma_preserved_trans(*old(state), mid, *state); }
                    match rr {
                        Ok(v) => { state.add_local(params[i].clone(), v); }
                        Err(e) => { return Err(e); }
                    }
                    i = i + 1;
                }
                if fuel == 0 {
                    return Err("exceeded the recursion depth limit".to_owned());
                }
                let entry_depth = state.call_depth;
                state.call_depth = if entry_depth < u64::MAX { entry_depth + 1 } else { entry_depth };
                let ghost mid = *state;
                let result = evaluate(state, &body, fuel - 1);
                proof { lemma_preserved_trans(*old(state), mid, *state); }
                state.call_depth = entry_depth;
                let mut j: usize = 0;
                while j < params.len()
                    invariant
                        *node matches Node::FunctionCall(_, _),
                        j <= params@.len(),
                        preserved@.len() == params@.len() - j,
                        state_wf(*state),
                        state_preserved(*old(state), *state),
                        state.call_depth == old(state).call_depth,
                    decreases params@.len() - j,
                {
                    match preserved.remove(0) {
                        Some(v) => { state.add_local(params[j].clone(), v); }
                        None => { state.remove_local(params[j].as_str()); }
                    }
                    j = j + 1;
                }
                result
            }
        }
        Node::Conditional(pred, t_branch, f_branch) => {
            proof {
                assert(decreases_to!(*node => (*node)->Conditional_0));
                assert(decreases_to!(*node => (*node)->Conditional_1));
                assert(decreases_to!(*node => (*node)->Conditional_2));
            }
            let pv = match evaluate(state, pred, fuel) {
                Ok(pv) => pv,
                Err(e) => { return Err(e); }
            };
            let p = match pv.as_real() {
                Some(p) => p,
                None => {
                    return Err("a predicate to a conditional expression must be a number".to_owned());
                }
            };
            let ghost s1 = *state;
            let out = if !rl_eq(p, ZERO_BITS) {
                evaluate(state, t_branch, fuel)
            } else {
                evaluate(state, f_branch, fuel)
            };
            proof { lemma_preserved_trans(*old(state), s1, *state); }
            out
        }
        Node::FunctionDeclaration(fname, params, body) => {
            if state.has_function(fname) {
                let mut m = "redeclared a function that already is defined: ".to_owned();
                m.append(fname.as_str());
                return Err(m);
            }
            let def = FnDef { params: rc_dup(params), body: rc_dup(body) };
            state.add_function(fname.clone(), def);
            Ok(Value::re_only(ZERO_BITS))
        }
        Node::VariableDeclaration(name, expr) => {
            proof {
                assert(decreases_to!(*node => (*node)->VariableDeclaration_1));
            }
            if state.has_global(name.as_str()) || state.has_local(name.as_str()) {
                let mut m = "you cannot redeclare a variable: ".to_owned();
                m.append(name.as_str());
                return Err(m);
            }
            let v = match evaluate(state, expr, fuel) {
                Ok(v) => v,
                Err(e) => { return Err(e); }
            };
            if state.call_depth > 0 {
                state.add_local(name.clone(), v);
            } else {
                state.add_global(name.clone(), v);
            }
            Ok(Value::re_only(ZERO_BITS))
        }
        Node::Loop(param, range, body) => {
            proof {
                assert(decreases_to!(*node => (*node)->Loop_1));
                assert(decreases_to!(*node => (*node)->Loop_2));
            }
            let (first, second, step) = match &**range {
                Node::Range(first, second, step) => (first, second, step),
                _ => {
                    proof { assert(false); }
                    return Err(String::new());
                }
            };
            proof {
                assert(decreases_to!(**range => *(*range)->Range_0));
                assert(decreases_to!(**range => *(*range)->Range_1));
                assert(decreases_to!(**range => *(*range)->Range_2));
            }
            let first_b = {
                let v = match evaluate(state, first, fuel) {
                    Ok(v) => v,
                    Err(e) => { return Err(e); }
                };
                match v.as_real() {
                    Some(b) => b,
                    None => { return Err("the first bound must be a real number".to_owned()); }
                }
            };
            let ghost s1 = *state;
            let second_b = {
                let v = match evaluate(state, second, fuel) {
                    Ok(v) => v,
                    Err(e) => {
                        proof { lemma_preserved_trans(*old(state), s1, *state); }
                        return Err(e);
                    }
                };
                match v.as_real() {
                    Some(b) => b,
                    None => {
                        proof { lemma_preserved_trans(*old(state), s1, *state); }
                        return Err("the second bound must be a real number".to_owned());
                    }
                }
            };
            proof { lemma_preserved_trans(*old(state), s1, *state); }
            let ghost s2 = *state;
            let step_b = {
                let v = match evaluate(state, step, fuel) {
                    Ok(v) => v,
                    Err(e) => {
                        proof { lemma_preserved_trans(*old(state), s2, *state); }
                        return Err(e);
                    }
                };
                match v.as_real() {
                    Some(b) => b,
                    None => {
                        proof { lemma_preserved_trans(*old(state), s2, *state); }
                        return Err("the step must be a number".to_owned());
                    }
                }
            };
            proof { lemma_preserved_trans(*old(state), s2, *state); }
            if rl_eq(step_b, ZERO_BITS) {
                return Err("a step cannot be 0".to_string());
            }
            let preserved: Option<Value> = match state.locals.get(param.as_str()) {
                Some(v) => Some(v.duplicate()),
                None => None,
            };
            let ghost pre_loop = *state;
            let ghost shape = lit_loop_shape(*node);
            proof {
                if shape {
                    assert(first_b == loop_first_re(*node));
                    assert(second_b == loop_second_re(*node));
                    assert(step_b == loop_step_re(*node));
                }
            }
            let ghost zero_cpx = (Cpx { re: ZERO_BITS, im: ZERO_BITS });
            let ghost mut sc: Cpx = zero_cpx;
            let ghost wsum_a = asc_sum(first_b, second_b, step_b, loop_body_cpx(*node), zero_cpx, u64::MAX as nat);
            let ghost wsum_d = desc_sum(first_b, second_b, step_b, loop_body_cpx(*node), zero_cpx, u64::MAX as nat);
            let mut x = first_b;
            let mut sum = Value::re_only(ZERO_BITS);
            let mut done = false;
            let mut guard: u64 = 0;
            if rl_lt(first_b, second_b) {
                while !done && guard < u64::MAX && rl_lt(x, second_b)
                    invariant
                        node_wf(*node),
                        *node matches Node::Loop(_, rg, b) && b == *body,
                        loop_checks_passed(*node),
                        shape == lit_loop_shape(*node),
                        shape ==> second_b == loop_second_re(*node) && step_b == loop_step_re(*node),
                        shape ==> sum@ == ValueModel::Number(sc),
                        shape ==> (if done {
                            wsum_a == Some(sc)
                        } else {
                            wsum_a == asc_sum(x, second_b, step_b, loop_body_cpx(*node), sc,
                                (u64::MAX - guard) as nat)
                        }),
                        state_wf(*state),
                        state_preserved(*old(state), *state),
                        state.call_depth == old(state).call_depth,
                    decreases u64::MAX - guard,
                {
                    guard = guard + 1;
                    state.add_local(param.clone(), Value::re_only(x));
                    let ghost mid = *state;
                    let b = match evaluate(state, body, fuel) {
                        Ok(b) => b,
                        Err(e) => {
                            proof { lemma_preserved_trans(*old(state), mid, *state); }
                            return Err(e);
                        }
                    };
                    proof { lemma_preserved_trans(*old(state), mid, *state); }
                    sum = match sum.add(b) {
                        Ok(sv) => sv,
                        Err(e) => { return Err(e); }
                    };
                    proof {
                        if shape {
                            sc = add_bits(sc, loop_body_cpx(*node));
                        }
                    }
                    let nx = rl_add(x, step_b);
                    if rl_lt(nx, second_b) {
                        x = nx;
                    } else {
                        state.add_local(param.clone(), Value::re_only(second_b));
                        let ghost mid2 = *state;
                        let b2 = match evaluate(state, body, fuel) {
                            Ok(b2) => b2,
                            Err(e) => {
                                proof { lemma_preserved_trans(*old(state), mid2, *state); }
                                return Err(e);
                            }
                        };
                        proof { lemma_preserved_trans(*old(state), mid2, *state); }
                        sum = match sum.add(b2) {
                            Ok(sv) => sv,
                            Err(e) => { return Err(e); }
                        };
                        proof {
                            if shape {
                                sc = add_bits(sc, loop_body_cpx(*node));
                            }
                        }
                        done = true;
                    }
                }
                if !done && rl_lt(x, second_b) {
                    return Err("the loop ran past the iteration limit".to_owned());
                }
            } else {
                while !done && guard < u64::MAX && rl_lt(second_b, x)
                    invariant
                        node_wf(*node),
                        *node matches Node::Loop(_, rg, b) && b == *body,
                        loop_checks_passed(*node),
                        shape == lit_loop_shape(*node),
                        shape ==> second_b == loop_second_re(*node) && step_b == loop_step_re(*node),
                        shape ==> sum@ == ValueModel::Number(sc),
                        shape ==> (if done {
                            wsum_d == Some(sc)
                        } else {
                            wsum_d == desc_sum(x, second_b, step_b, loop_body_cpx(*node), sc,
                                (u64::MAX - guard) as nat)
                        }),
                        state_wf(*state),
                        state_preserved(*old(state), *state),
                        state.call_depth == old(state).call_depth,
                    decreases u64::MAX - guard,
                {
                    guard = guard + 1;
                    state.add_local(param.clone(), Value::re_only(x));
                    let ghost mid = *state;
                    let b = match evaluate(state, body, fuel) {
                        Ok(b) => b,
                        Err(e) => {
                            proof { lemma_preserved_trans(*old(state), mid, *state); }
                            return Err(e);
                        }
                    };
                    proof { lemma_preserved_trans(*old(state), mid, *state); }
                    sum = match sum.add(b) {
                        Ok(sv) => sv,
                        Err(e) => { return Err(e); }
                    };
                    proof {
                        if shape {
                            sc = add_bits(sc, loop_body_cpx(*node));
                        }
                    }
                    let nx = rl_sub(x, step_b);
                    if rl_lt(second_b, nx) {
                        x = nx;
                    } else {
                        state.add_local(param.clone(), Value::re_only(second_b));
                        let ghost mid2 = *state;
                        let b2 = match evaluate(state, body, fuel) {
                            Ok(b2) => b2,
                            Err(e) => {
                                proof { lemma_preserved_trans(*old(state), mid2, *state); }
                                return Err(e);
                            }
                        };
                        proof { lemma_preserved_trans(*old(state), mid2, *state); }
                        sum = match sum.add(b2) {
                            Ok(sv) => sv,
                            Err(e) => { return Err(e); }
                        };
                        proof {
                            if shape {
                                sc = add_bits(sc, loop_body_cpx(*node));
                            }
                        }
                        done = true;
                    }
                }
                if !done && rl_lt(second_b, x) {
                    return Err("the loop ran past the iteration limit".to_owned());
                }
            }
            if let Some(v) = preserved {
                state.add_local(param.clone(), v);
            }
            Ok(sum)
        }
        Node::Assignment(ids, expr) => {
            proof {
                assert(decreases_to!(*node => (*node)->Assignment_1));
            }
            let v = match evaluate(state, expr, fuel) {
                Ok(v) => v,
                Err(e) => { return Err(e); }
            };
            let ghost s1 = *state;
            let out = assign_ids(state, ids, v);
            proof { lemma_preserved_trans(*old(state), s1, *state); }
            out
        }
        Node::Factorial(expr) => {
            proof {
                assert(decreases_to!(*node => (*node)->Factorial_0));
            }
            let v = match evaluate(state, expr, fuel) {
                Ok(v) => v,
                Err(e) => { return Err(e); }
            };
            let c = match v.as_complex() {
                Some(c) => c,
                None => {
                    return Err("attempted to find factorial of non-number".to_owned());
                }
            };
            factorial_of(c)
        }
        Node::Tree(nodes) => {
            if nodes.len() == 0 {
                return Ok(Value::re_only(ZERO_BITS));
            }
            match &nodes[nodes.len() - 1] {
                Node::VariableDeclaration(_, _) | Node::FunctionDeclaration(_, _, _) => {
                    return Err("a block must end with an expression".to_owned());
                }
                _ => {}
            }
            let mut last_evaluated = Value::re_only(ZERO_BITS);
            let mut new_locals: Vec<String> = Vec::new();
            let mut i: usize = 0;
            while i < nodes.len()
                invariant
                    i <= nodes@.len(),
                    node_wf(*node),
                    *node matches Node::Tree(ns) && ns == *nodes,
                    nodes@.len() > 0,
                    !((nodes@.last() matches Node::VariableDeclaration(_, _))
                        || (nodes@.last() matches Node::FunctionDeclaration(_, _, _))),
                    all_literals(nodes@) ==> *state == *old(state),
                    all_literals(nodes@) ==> new_locals@.len() == 0,
                    all_literals(nodes@) && i > 0 ==> last_evaluated@ == literal_model(
                        nodes@[i as int - 1]->Number_0,
                        nodes@[i as int - 1]->Number_1,
                    ),
                    state_wf(*state),
                    state_preserved(*old(state), *state),
                    state.call_depth == old(state).call_depth,
                decreases nodes@.len() - i,
            {
                proof {
                    assert(decreases_to!(*node => (*node)->Tree_0));
                    vstd::std_specs::vec::axiom_vec_index_decreases(*nodes, i as int);
                    assert(node_wf(nodes@[i as int]));
                }
                let ghost mid = *state;
                let rr = evaluate(state, &nodes[i], fuel);
                proof { lemma_preserved_trans(*old(state), mid, *state); }
                match rr {
                    Ok(v) => { last_evaluated = v; }
                    Err(e) => { return Err(e); }
                }
                match &nodes[i] {
                    Node::VariableDeclaration(dname, _) => { new_locals.push(dname.clone()); }
                    Node::FunctionDeclaration(dname, _, _) => { new_locals.push(dname.clone()); }
                    _ => {}
                }
                i = i + 1;
            }
            let mut j: usize = 0;
            while j < new_locals.len()
                invariant
                    j <= new_locals@.len(),
                    *node matches Node::Tree(ns) && ns == *nodes,
                    nodes@.len() > 0,
                    !((nodes@.last() matches Node::VariableDeclaration(_, _))
                        || (nodes@.last() matches Node::FunctionDeclaration(_, _, _))),
                    all_literals(nodes@) ==> *state == *old(state),
                    all_literals(nodes@) ==> new_locals@.len() == 0,
                    state_wf(*state),
                    state_preserved(*old(state), *state),
                    state.call_depth == old(state).call_depth,
                decreases new_locals@.len() - j,
            {
                state.remove_local(new_locals[j].as_str());
                j = j + 1;
            }
            Ok(last_evaluated)
        }
        Node::Array(exprs) => {
            let mut values: Vec<Value> = Vec::new();
            let mut i: usize = 0;
            while i < exprs.len()
                invariant
                    i <= exprs@.len(),
                    values@.len() == i as int,
                    node_wf(*node),
                    *node matches Node::Array(ns) && ns == *exprs,
                    all_literals(exprs@) ==> *state == *old(state),
                    all_literals(exprs@) ==> (forall|j: int| 0 <= j < i as int
                        ==> values@[j]@ == literal_values(exprs@)[j]),
                    state_wf(*state),
                    state_preserved(*old(state), *state),
                    state.call_depth == old(state).call_depth,
                decreases exprs@.len() - i,
            {
                proof {
                    assert(decreases_to!(*node => (*node)->Array_0));
                    vstd::std_specs::vec::axiom_vec_index_decreases(*exprs, i as int);
                    assert(node_wf(exprs@[i as int]));
                }
                let ghost mid = *state;
                let rr = evaluate(state, &exprs[i], fuel);
                proof { lemma_preserved_trans(*old(state), mid, *state); }
                match rr {
                    Ok(v) => { values.push(v); }
                    Err(e) => { return Err(e); }
                }
                i = i + 1;
            }
            let rv = Value::Array(values);
            proof {
                if all_literals(exprs@) {
                    assert(rv@->Array_0 =~= literal_values(exprs@));
                }
            }
            Ok(rv)
        }
        Node::Index(array, index) => {
            proof {
                assert(decreases_to!(*node => (*node)->Index_0));
                assert(decreases_to!(*node => (*node)->Index_1));
            }
            let av = match evaluate(state, array, fuel) {
                Ok(av) => av,
                Err(e) => { return Err(e); }
            };
            let ghost gav = av;
            let arr = match av {
                Value::Array(arr) => arr,
                _ => { return Err("cannot index a non-array".to_owned()); }
            };
            proof {
                assert(gav == Value::Array(arr));
                assert(arr.deep_view() =~= gav@->Array_0);
            }
            let ghost s1 = *state;
            let iv = match evaluate(state, index, fuel) {
                Ok(iv) => iv,
                Err(e) => {
                    proof { lemma_preserved_trans(*old(state), s1, *state); }
                    return Err(e);
                }
            };
            proof { lemma_preserved_trans(*old(state), s1, *state); }
            index_array(&arr, &iv)
        }
        Node::Range(_, _, _) => {
            proof { assert(false); }
            Err(String::new())
        }
    }
}

} // verus!
