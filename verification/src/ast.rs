use vstd::prelude::*;

use std::rc::Rc;

verus! {

/// The binary operators of the language.
#[derive(Clone, Copy, PartialEq, Eq, Structural, Debug)]
pub enum Operator {
    Add,
    Subtract,
    Multiply,
    Divide,
    Power,
    Modulo,
    Equals,
    GreaterThan,
    LessThan,
    GreaterThanOrEquals,
    LessThanOrEquals,
}

/// A node of the syntax tree handed in by the parser.  Numeric literals
/// carry the bit pattern of their value and whether the literal was written
/// as an imaginary quantity.  A function declaration's body sits behind an
/// `Rc` so that declaring the function can store the body without copying
/// the tree.
#[derive(Debug)]
pub enum Node {
    Number(u64, bool),
    Identifier(String),
    Operation(Box<Node>, Operator, Box<Node>),
    FunctionCall(String, Vec<Node>),
    FunctionDeclaration(String, Rc<Vec<String>>, Rc<Node>),
    VariableDeclaration(String, Box<Node>),
    Conditional(Box<Node>, Box<Node>, Box<Node>),
    Loop(String, Box<Node>, Box<Node>),
    Assignment(Vec<String>, Box<Node>),
    Factorial(Box<Node>),
    Tree(Vec<Node>),
    Array(Vec<Node>),
    Index(Box<Node>, Box<Node>),
    Range(Box<Node>, Box<Node>, Box<Node>),
}

/// Well-formedness of a syntax tree: a `Range` descriptor stands exactly in
/// the range slot of a `Loop` and nowhere else.  The parser only produces
/// such trees; the evaluator requires them.
pub open spec fn node_wf(n: Node) -> bool
    decreases n,
{
    match n {
        Node::Number(_, _) => true,
        Node::Identifier(_) => true,
        Node::Operation(l, _, r) => node_wf(*l) && node_wf(*r),
        Node::FunctionCall(_, args) => forall|i: int|
            0 <= i < args@.len() ==> node_wf(#[trigger] args@[i]),
        Node::FunctionDeclaration(_, _, body) => node_wf(*body),
        Node::VariableDeclaration(_, e) => node_wf(*e),
        Node::Conditional(p, t, f) => node_wf(*p) && node_wf(*t) && node_wf(*f),
        Node::Loop(_, range, body) => (*range matches Node::Range(first, second, step)
            && node_wf(*first) && node_wf(*second) && node_wf(*step)) && node_wf(*body),
        Node::Assignment(_, e) => node_wf(*e),
        Node::Factorial(e) => node_wf(*e),
        Node::Tree(nodes) => forall|i: int|
            0 <= i < nodes@.len() ==> node_wf(#[trigger] nodes@[i]),
        Node::Array(nodes) => forall|i: int|
            0 <= i < nodes@.len() ==> node_wf(#[trigger] nodes@[i]),
        Node::Index(a, ix) => node_wf(*a) && node_wf(*ix),
        Node::Range(_, _, _) => false,
    }
}

/// Decides [`node_wf`] for app-side callers: the evaluator requires
/// well-formed trees, and this is the checked way to establish that at the
/// trust boundary.
pub fn check_wf(n: &Node) -> (r: bool)
    ensures
        r == node_wf(*n),
    decreases *n,
{
    match n {
        Node::Number(_, _) => true,
        Node::Identifier(_) => true,
        Node::Operation(l, _, rgt) => {
            proof {
                assert(decreases_to!(*n => (*n)->Operation_0));
                assert(decreases_to!(*n => (*n)->Operation_2));
            }
            check_wf(l) && check_wf(rgt)
        }
        Node::FunctionCall(_, args) => {
            let mut i: usize = 0;
            while i < args.len()
                invariant
                    i <= args@.len(),
                    *n matches Node::FunctionCall(_, a) && a == *args,
                    forall|j: int| 0 <= j < i as int ==> node_wf(#[trigger] args@[j]),
                decreases args@.len() - i,
            {
                proof {
                    assert(decreases_to!(*n => (*n)->FunctionCall_1));
                    vstd::std_specs::vec::axiom_vec_index_decreases(*args, i as int);
                }
                if !check_wf(&args[i]) {
                    return false;
                }
                i = i + 1;
            }
            true
        }
        Node::FunctionDeclaration(_, _, body) => {
            proof {
                assert(decreases_to!(*n => (*n)->FunctionDeclaration_2));
            }
            check_wf(body)
        }
        Node::VariableDeclaration(_, e) => {
            proof {
                assert(decreases_to!(*n => (*n)->VariableDeclaration_1));
            }
            check_wf(e)
        }
        Node::Conditional(p, t, f) => {
            proof {
                assert(decreases_to!(*n => (*n)->Conditional_0));
                assert(decreases_to!(*n => (*n)->Conditional_1));
                assert(decreases_to!(*n => (*n)->Conditional_2));
            }
            check_wf(p) && check_wf(t) && check_wf(f)
        }
        Node::Loop(_, range, body) => {
            proof {
                assert(decreases_to!(*n => (*n)->Loop_1));
                assert(decreases_to!(*n => (*n)->Loop_2));
            }
            let range_ok = match &**range {
                Node::Range(first, second, step) => {
                    proof {
                        assert(decreases_to!(**range => *(**range)->Range_0));
                        assert(decreases_to!(**range => *(**range)->Range_1));
                        assert(decreases_to!(**range => *(**range)->Range_2));
                    }
                    check_wf(first) && check_wf(second) && check_wf(step)
                }
                _ => false,
            };
            range_ok && check_wf(body)
        }
        Node::Assignment(_, e) => {
            proof {
                assert(decreases_to!(*n => (*n)->Assignment_1));
            }
            check_wf(e)
        }
        Node::Factorial(e) => {
            proof {
                assert(decreases_to!(*n => (*n)->Factorial_0));
            }
            check_wf(e)
        }
        Node::Tree(nodes) => {
            let mut i: usize = 0;
            while i < nodes.len()
                invariant
                    i <= nodes@.len(),
                    *n matches Node::Tree(a) && a == *nodes,
                    forall|j: int| 0 <= j < i as int ==> node_wf(#[trigger] nodes@[j]),
                decreases nodes@.len() - i,
            {
                proof {
                    assert(decreases_to!(*n => (*n)->Tree_0));
                    vstd::std_specs::vec::axiom_vec_index_decreases(*nodes, i as int);
                }
                if !check_wf(&nodes[i]) {
                    return false;
                }
                i = i + 1;
            }
            true
        }
        Node::Array(nodes) => {
            let mut i: usize = 0;
            while i < nodes.len()
                invariant
                    i <= nodes@.len(),
                    *n matches Node::Array(a) && a == *nodes,
                    forall|j: int| 0 <= j < i as int ==> node_wf(#[trigger] nodes@[j]),
                decreases nodes@.len() - i,
            {
                proof {
                    assert(decreases_to!(*n => (*n)->Array_0));
                    vstd::std_specs::vec::axiom_vec_index_decreases(*nodes, i as int);
                }
                if !check_wf(&nodes[i]) {
                    return false;
                }
                i = i + 1;
            }
            true
        }
        Node::Index(a, ix) => {
            proof {
                assert(decreases_to!(*n => (*n)->Index_0));
                assert(decreases_to!(*n => (*n)->Index_1));
            }
            check_wf(a) && check_wf(ix)
        }
        Node::Range(_, _, _) => false,
    }
}

} // verus!
