use vstd::prelude::*;

pub mod ast;
pub mod eval;
pub mod laws;
pub mod render;
pub mod scalar;
pub mod state;
pub mod text;
pub mod value;

use crate::ast::{Node, node_wf};
use crate::eval::{evaluate, shallow_post};
use crate::state::RuntimeState;
use crate::value::Value;

verus! {

/// How many user-function calls may be open at once before evaluation gives
/// up; a resource limit standing in for the host's call stack.
pub const CALL_DEPTH_LIMIT: u64 = 10000;

/// A state as `run` builds it before evaluating: the default globals `pi`
/// and `e`, nothing else.
pub open spec fn initial_state(s: RuntimeState) -> bool {
    &&& s.globals@ == Map::<Seq<char>, Value>::empty()
        .insert("pi"@, Value::Number(crate::scalar::Cpx { re: crate::scalar::PI_BITS, im: crate::scalar::ZERO_BITS }))
        .insert("e"@, Value::Number(crate::scalar::Cpx { re: crate::scalar::EULER_BITS, im: crate::scalar::ZERO_BITS }))
    &&& s.locals@ == Map::<Seq<char>, Value>::empty()
    &&& s.functions@ == Map::<Seq<char>, crate::state::FnDef>::empty()
    &&& s.call_depth == 0
    &&& s.output@ == Seq::<String>::empty()
}

/// Evaluates a program against a fresh state and hands back the result
/// together with every line the program printed, in order.
pub fn run(root: &Node) -> (r: (Result<Value, String>, Vec<String>))
    requires
        node_wf(*root),
    ensures
        exists|pre: RuntimeState, post: RuntimeState|
            initial_state(pre) && #[trigger] shallow_post(*root, pre, post, r.0)
            && r.1 == post.output,
{
    let mut state = RuntimeState::new();
    state.add_default_globals();
    let ghost pre = state;
    let result = evaluate(&mut state, root, CALL_DEPTH_LIMIT);
    let ghost post = state;
    let output = state.output;
    let r_pair = (result, output);
    proof {
        assert(initial_state(pre) && shallow_post(*root, pre, post, r_pair.0)
            && r_pair.1 == post.output);
    }
    r_pair
}

/// Evaluates a program against a fresh state pre-populated with the default
/// globals and builtins, and returns the final value or the first error.
/// What the program printed is discarded here; `run` keeps it.
pub fn execute(root: Node) -> (r: Result<Value, String>)
    requires
        node_wf(root),
    ensures
        exists|pre: RuntimeState, post: RuntimeState|
            initial_state(pre) && #[trigger] shallow_post(root, pre, post, r),
{
    let (result, _output) = run(&root);
    result
}

} // verus!
