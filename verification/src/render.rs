use vstd::prelude::*;

use vstd::string::StringExecFns;

use crate::scalar::{ZERO_BITS, ONE_BITS, NEG_ONE_BITS, text_bits, rmul_bits, rlt_bits};
use crate::scalar::{rl_eq, rl_lt, rl_mul, rl_text};
use crate::value::{Value, ValueModel, is_zero_bits};

verus! {

broadcast use vstd::std_specs::vec::axiom_vec_index_decreases;

/// The textual rendering of a value.  A Number with zero imaginary part is
/// its real part's numeric text; a pure-imaginary Number is `i` when the
/// part is exactly 1, else the part's text followed by `i`; a full complex
/// Number joins both parts with ` + ` or ` - `; a Vector is `(x, y)`; an
/// Array lists its elements, recursively, between brackets and separated by
/// comma-space.
pub open spec fn render_model(m: ValueModel) -> Seq<char>
    decreases m,
{
    match m {
        ValueModel::Number(c) => {
            if req_zero(c.im) {
                text_bits(c.re)
            } else if req_zero(c.re) {
                if crate::scalar::req_bits(c.im, ONE_BITS) {
                    "i"@
                } else {
                    text_bits(c.im) + "i"@
                }
            } else {
                if rlt_bits(ZERO_BITS, c.im) {
                    text_bits(c.re) + " + "@ + text_bits(c.im) + "i"@
                } else {
                    text_bits(c.re) + " - "@ + text_bits(rmul_bits(c.im, NEG_ONE_BITS)) + "i"@
                }
            }
        }
        ValueModel::Vector(v) => "("@ + text_bits(v.x) + ", "@ + text_bits(v.y) + ")"@,
        ValueModel::Array(es) => "["@ + render_elements(es) + "]"@,
    }
}

/// The comma-space separated renderings of an array's elements.
pub open spec fn render_elements(es: Seq<ValueModel>) -> Seq<char>
    decreases es,
{
    if es.len() == 0 {
        Seq::empty()
    } else if es.len() == 1 {
        render_model(es[0])
    } else {
        render_elements(es.drop_last()) + ", "@ + render_model(es.last())
    }
}

/// Shorthand for a bit pattern comparing equal to zero.
pub open spec fn req_zero(a: u64) -> bool {
    is_zero_bits(a)
}

impl Value {
    /// Renders this value as the language prints it.
    pub fn render(&self) -> (r: String)
        ensures
            r@ == render_model(self@),
        decreases *self,
    {
        match self {
            Value::Number(c) => {
                if rl_eq(c.im, ZERO_BITS) {
                    rl_text(c.re)
                } else if rl_eq(c.re, ZERO_BITS) {
                    if rl_eq(c.im, ONE_BITS) {
                        "i".to_owned()
                    } else {
                        let mut s = rl_text(c.im);
                        s.append("i");
                        s
                    }
                } else {
                    if rl_lt(ZERO_BITS, c.im) {
                        let mut s = rl_text(c.re);
                        s.append(" + ");
                        s.append(rl_text(c.im).as_str());
                        s.append("i");
                        s
                    } else {
                        let mut s = rl_text(c.re);
                        s.append(" - ");
                        s.append(rl_text(rl_mul(c.im, NEG_ONE_BITS)).as_str());
                        s.append("i");
                        s
                    }
                }
            }
            Value::Vector(v) => {
                let mut s = "(".to_owned();
                s.append(rl_text(v.x).as_str());
                s.append(", ");
                s.append(rl_text(v.y).as_str());
                s.append(")");
                s
            }
            Value::Array(arr) => {
                let ghost es = self@->Array_0;
                let mut s = "[".to_owned();
                let mut i: usize = 0;
                while i < arr.len()
                    invariant
                        *self == Value::Array(*arr),
                        es == self@->Array_0,
                        es.len() == arr.len(),
                        i <= arr.len(),
                        s@ == "["@ + render_elements(es.subrange(0, i as int)),
                    decreases arr.len() - i,
                {
                    proof {
                        assert(decreases_to!(*self => (*self)->Array_0));
                        vstd::std_specs::vec::axiom_vec_index_decreases(*arr, i as int);
                    }
                    if i > 0 {
                        s.append(", ");
                    }
                    let e = arr[i].render();
                    s.append(e.as_str());
                    proof {
                        let pre = es.subrange(0, i as int);
                        let post = es.subrange(0, i as int + 1);
                        assert(post.drop_last() =~= pre);
                        assert(post.last() == es[i as int]);
                        assert(es[i as int] == arr@[i as int]@);
                        if i == 0 {
                            assert(s@ =~= "["@ + render_elements(post));
                        } else {
                            assert(s@ =~= "["@ + render_elements(post));
                        }
                    }
                    i = i + 1;
                }
                proof {
                    assert(es.subrange(0, es.len() as int) =~= es);
                }
                s.append("]");
                s
            }
        }
    }
}

} // verus!
