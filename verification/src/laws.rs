use vstd::prelude::*;

use crate::ast::Node;
use crate::eval::{asc_sum, assign_models, desc_sum, index_models, locals_models, shallow_post};
use crate::scalar::{add_bits, rfract_bits, rlt_bits, rneg_bits, rtrunc_bits, SIGN_BIT};
use crate::state::RuntimeState;
use crate::text::dec_seq;
use crate::scalar::Cpx;
use crate::value::{Value, ValueModel, is_zero_bits};

verus! {

/// Declaring a variable under a name that is already a global or a local
/// fails with the redeclaration error, and leaves the state untouched.
pub proof fn lemma_variable_redeclaration_fails(
    pre: RuntimeState,
    post: RuntimeState,
    name: String,
    expr: Box<Node>,
    r: Result<Value, String>,
)
    requires
        pre.globals@.contains_key(name@) || pre.locals@.contains_key(name@),
        shallow_post(Node::VariableDeclaration(name, expr), pre, post, r),
    ensures
        post == pre,
        r matches Err(e) && e@ == "you cannot redeclare a variable: "@ + name@,
{
}

/// Declaring the same variable twice fails: once the first declaration has
/// succeeded, the name is bound (as a local inside a function, as a global
/// at top level), and the second declaration is rejected.
pub proof fn lemma_variable_declared_twice_fails(
    pre: RuntimeState,
    mid: RuntimeState,
    post: RuntimeState,
    name: String,
    expr: Box<Node>,
    expr2: Box<Node>,
    v: Value,
    r2: Result<Value, String>,
)
    requires
        shallow_post(Node::VariableDeclaration(name, expr), pre, mid, Ok(v)),
        shallow_post(Node::VariableDeclaration(name, expr2), mid, post, r2),
    ensures
        r2 matches Err(e) && e@ == "you cannot redeclare a variable: "@ + name@,
{
}

/// Declaring the same function name twice fails: a successful declaration
/// registers the name, and the second declaration is rejected with the
/// redeclaration error.
pub proof fn lemma_function_declared_twice_fails(
    pre: RuntimeState,
    mid: RuntimeState,
    post: RuntimeState,
    name: String,
    params: std::rc::Rc<Vec<String>>,
    body: std::rc::Rc<Node>,
    params2: std::rc::Rc<Vec<String>>,
    body2: std::rc::Rc<Node>,
    v: Value,
    r2: Result<Value, String>,
)
    requires
        shallow_post(Node::FunctionDeclaration(name, params, body), pre, mid, Ok(v)),
        shallow_post(Node::FunctionDeclaration(name, params2, body2), mid, post, r2),
    ensures
        r2 matches Err(e) && e@ == "redeclared a function that already is defined: "@ + name@,
{
}

/// Assigning to a name that is neither a local nor a global fails with the
/// unknown-variable error.
pub proof fn lemma_assign_undeclared_fails(
    locals: Map<Seq<char>, ValueModel>,
    globals_dom: Set<Seq<char>>,
    in_fn: bool,
    name: Seq<char>,
    v: ValueModel,
)
    requires
        !locals.contains_key(name),
        !globals_dom.contains(name),
    ensures
        assign_models(locals, globals_dom, in_fn, seq![name], v)
            == Err::<Map<Seq<char>, ValueModel>, Seq<char>>("use of undefined variable: "@ + name),
{
}

/// Assigning to a global name from inside a function fails with the
/// external-mutation error, unless a local of the same name shadows it.
pub proof fn lemma_assign_global_inside_function_fails(
    locals: Map<Seq<char>, ValueModel>,
    globals_dom: Set<Seq<char>>,
    name: Seq<char>,
    v: ValueModel,
)
    requires
        !locals.contains_key(name),
        globals_dom.contains(name),
    ensures
        assign_models(locals, globals_dom, true, seq![name], v)
            == Err::<Map<Seq<char>, ValueModel>, Seq<char>>(
                "attempted to affect external variable "@ + name + " from within a function"@,
            ),
{
}

/// Assigning to a declared global at top level succeeds, and the new value
/// stands under that name afterwards (as the local shadow that every
/// assignment writes).
pub proof fn lemma_assign_global_top_level_persists(
    locals: Map<Seq<char>, ValueModel>,
    globals_dom: Set<Seq<char>>,
    name: Seq<char>,
    v: ValueModel,
)
    requires
        globals_dom.contains(name) || locals.contains_key(name),
    ensures
        assign_models(locals, globals_dom, false, seq![name], v) matches Ok(m)
            && m.contains_key(name) && m[name] == v,
{
    let s: Seq<Seq<char>> = seq![name];
    assert(s.len() == 1 && s[0] == name);
    assert(s.drop_first() =~= Seq::<Seq<char>>::empty());
    let m1 = locals.insert(name, v);
    assert(assign_models(m1, globals_dom, false, s.drop_first(), v)
        == Ok::<Map<Seq<char>, ValueModel>, Seq<char>>(m1));
}

/// Indexing an array outside `0 .. len` fails with the message citing the
/// length and the offending index; indexing inside yields exactly the
/// element at that position.
pub proof fn lemma_index_bounds(es: Seq<ValueModel>, c: Cpx, r: Result<Value, String>)
    requires
        is_zero_bits(c.im),
        is_zero_bits(rfract_bits(c.re)),
        index_models(es, ValueModel::Number(c), r),
    ensures
        (rtrunc_bits(c.re) < 0 || rtrunc_bits(c.re) >= es.len()) ==> (r matches Err(e)
            && e@ == "attempted to index array of length "@ + dec_seq(es.len())
                + " with index "@ + crate::scalar::text_bits(c.re)),
        (0 <= rtrunc_bits(c.re) && rtrunc_bits(c.re) < es.len()) ==> (r matches Ok(v)
            && v@ == es[rtrunc_bits(c.re) as int]),
{
}

/// Conjugation is an involution: the `conjugate` builtin answers the Number
/// with the imaginary part's sign bit flipped (see `builtin_result`), and
/// flipping it twice restores every bit of the original scalar.
pub proof fn lemma_conjugate_involution(c: crate::scalar::Cpx)
    ensures
        rneg_bits(rneg_bits(c.im)) == c.im,
        (Cpx { re: c.re, im: rneg_bits(rneg_bits(c.im)) }) == c,
{
    let x = c.im;
    assert((x ^ SIGN_BIT) ^ SIGN_BIT == x) by (bit_vector);
}

/// An ascending summation loop that runs at all and finishes always visits
/// the end bound exactly once, whatever the step: its final addition is the
/// body value contributed by the snapped last visit.
pub proof fn lemma_asc_sum_ends_at_bound(x: u64, second: u64, step: u64, bv: Cpx, acc: Cpx, g: nat)
    requires
        rlt_bits(x, second),
        asc_sum(x, second, step, bv, acc, g) is Some,
    ensures
        exists|acc1: Cpx| asc_sum(x, second, step, bv, acc, g) == Some(#[trigger] add_bits(acc1, bv)),
    decreases g,
{
    let nx = crate::scalar::radd_bits(x, step);
    let acc1 = add_bits(acc, bv);
    if rlt_bits(nx, second) {
        lemma_asc_sum_ends_at_bound(nx, second, step, bv, acc1, (g - 1) as nat);
    } else {
        assert(asc_sum(x, second, step, bv, acc, g) == Some(add_bits(acc1, bv)));
    }
}

/// The descending mirror of [`lemma_asc_sum_ends_at_bound`].
pub proof fn lemma_desc_sum_ends_at_bound(x: u64, second: u64, step: u64, bv: Cpx, acc: Cpx, g: nat)
    requires
        rlt_bits(second, x),
        desc_sum(x, second, step, bv, acc, g) is Some,
    ensures
        exists|acc1: Cpx| desc_sum(x, second, step, bv, acc, g) == Some(#[trigger] add_bits(acc1, bv)),
    decreases g,
{
    let nx = crate::scalar::rsub_bits(x, step);
    let acc1 = add_bits(acc, bv);
    if rlt_bits(second, nx) {
        lemma_desc_sum_ends_at_bound(nx, second, step, bv, acc1, (g - 1) as nat);
    } else {
        assert(desc_sum(x, second, step, bv, acc, g) == Some(add_bits(acc1, bv)));
    }
}

} // verus!
