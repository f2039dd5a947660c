use std::rc::Rc;

use numscript::ast::{Node, Operator};
use numscript::execute;
use numscript::run;
use numscript::value::Value;

fn num(x: f64) -> Node {
    Node::Number(x.to_bits(), false)
}

fn imag(x: f64) -> Node {
    Node::Number(x.to_bits(), true)
}

fn bx(n: Node) -> Box<Node> {
    Box::new(n)
}

fn op(l: Node, o: Operator, r: Node) -> Node {
    Node::Operation(bx(l), o, bx(r))
}

fn ident(name: &str) -> Node {
    Node::Identifier(name.to_string())
}

fn call(name: &str, args: Vec<Node>) -> Node {
    Node::FunctionCall(name.to_string(), args)
}

fn decl(name: &str, e: Node) -> Node {
    Node::VariableDeclaration(name.to_string(), bx(e))
}

fn fndecl(name: &str, params: Vec<&str>, body: Node) -> Node {
    Node::FunctionDeclaration(
        name.to_string(),
        Rc::new(params.into_iter().map(|p| p.to_string()).collect()),
        Rc::new(body),
    )
}

fn assign(names: Vec<&str>, e: Node) -> Node {
    Node::Assignment(names.into_iter().map(|s| s.to_string()).collect(), bx(e))
}

fn looped(var: &str, first: Node, second: Node, step: Node, body: Node) -> Node {
    Node::Loop(
        var.to_string(),
        bx(Node::Range(bx(first), bx(second), bx(step))),
        bx(body),
    )
}

fn rendered(r: Result<Value, String>) -> String {
    r.expect("expected a value").render()
}

fn error_of(r: Result<Value, String>) -> String {
    r.expect_err("expected an error")
}

#[test]
fn literal_number_renders() {
    assert_eq!(rendered(execute(num(5.0))), "5");
    assert_eq!(rendered(execute(num(2.5))), "2.5");
}

#[test]
fn pure_imaginary_one_renders_as_i() {
    assert_eq!(rendered(execute(imag(1.0))), "i");
    assert_eq!(rendered(execute(imag(3.0))), "3i");
}

#[test]
fn addition_renders_five() {
    assert_eq!(rendered(execute(op(num(2.0), Operator::Add, num(3.0)))), "5");
}

#[test]
fn vector_sum_renders() {
    let left = call("vec", vec![num(1.0), num(2.0)]);
    let right = call("vec", vec![num(3.0), num(4.0)]);
    assert_eq!(rendered(execute(op(left, Operator::Add, right))), "(4, 6)");
}

#[test]
fn complex_sum_renders_both_parts() {
    assert_eq!(rendered(execute(op(num(1.0), Operator::Add, imag(2.0)))), "1 + 2i");
    assert_eq!(
        rendered(execute(op(num(1.0), Operator::Subtract, imag(2.0)))),
        "1 - 2i"
    );
}

#[test]
fn array_plus_array_nests() {
    let left = Node::Array(vec![num(1.0), num(2.0)]);
    let right = Node::Array(vec![num(3.0), num(4.0)]);
    assert_eq!(
        rendered(execute(op(left, Operator::Add, right))),
        "[1, 2, [3, 4]]"
    );
}

#[test]
fn number_plus_array_appends() {
    let arr = Node::Array(vec![num(1.0)]);
    assert_eq!(rendered(execute(op(num(9.0), Operator::Add, arr))), "[1, 9]");
}

#[test]
fn cross_kind_equality_is_false() {
    let v = call("vec", vec![num(1.0), num(2.0)]);
    assert_eq!(rendered(execute(op(v, Operator::Equals, num(1.0)))), "0");
}

#[test]
fn arrays_never_equal_even_to_themselves() {
    let a = Node::Array(vec![num(1.0)]);
    let b = Node::Array(vec![num(1.0)]);
    assert_eq!(rendered(execute(op(a, Operator::Equals, b))), "0");
}

#[test]
fn equal_numbers_compare_as_one() {
    assert_eq!(rendered(execute(op(num(2.0), Operator::Equals, num(2.0)))), "1");
}

#[test]
fn factorial_of_zero_is_one() {
    assert_eq!(rendered(execute(Node::Factorial(bx(num(0.0))))), "1");
}

#[test]
fn factorial_of_five_is_120() {
    assert_eq!(rendered(execute(Node::Factorial(bx(num(5.0))))), "120");
}

#[test]
fn factorial_of_half_matches_gamma() {
    let v = execute(Node::Factorial(bx(num(0.5)))).expect("value");
    match v {
        Value::Number(c) => {
            let re = f64::from_bits(c.re);
            let im = f64::from_bits(c.im);
            assert!((re - 0.8862269254527580).abs() < 1e-9, "re was {re}");
            assert!(im.abs() < 1e-9);
        }
        _ => panic!("expected a number"),
    }
}

#[test]
fn factorial_of_vector_fails() {
    let v = call("vec", vec![num(1.0), num(2.0)]);
    assert_eq!(
        error_of(execute(Node::Factorial(bx(v)))),
        "attempted to find factorial of non-number"
    );
}

#[test]
fn loop_sums_its_variable() {
    let l = looped("i", num(1.0), num(5.0), num(1.0), ident("i"));
    assert_eq!(rendered(execute(l)), "15");
}

#[test]
fn loop_always_visits_the_end_bound_once() {
    let l = looped("i", num(1.0), num(5.0), num(2.0), call("print", vec![ident("i")]));
    let (r, output) = run(&l);
    assert_eq!(r.expect("value").render(), "9");
    assert_eq!(output, vec!["1", "3", "5"]);

    let l = looped("i", num(1.0), num(5.0), num(3.0), call("print", vec![ident("i")]));
    let (r, output) = run(&l);
    assert_eq!(r.expect("value").render(), "10");
    assert_eq!(output, vec!["1", "4", "5"]);
}

#[test]
fn loop_descends_when_first_bound_is_larger() {
    let l = looped("i", num(5.0), num(1.0), num(2.0), call("print", vec![ident("i")]));
    let (r, output) = run(&l);
    assert_eq!(r.expect("value").render(), "9");
    assert_eq!(output, vec!["5", "3", "1"]);
}

#[test]
fn loop_step_zero_fails() {
    let l = looped("i", num(1.0), num(5.0), num(0.0), ident("i"));
    assert_eq!(error_of(execute(l)), "a step cannot be 0");
}

#[test]
fn loop_bound_must_be_real() {
    let l = looped("i", imag(1.0), num(5.0), num(1.0), ident("i"));
    assert_eq!(error_of(execute(l)), "the first bound must be a real number");
}

#[test]
fn redeclaring_a_variable_fails() {
    let t = Node::Tree(vec![decl("x", num(1.0)), decl("x", num(2.0)), num(0.0)]);
    assert_eq!(error_of(execute(t)), "you cannot redeclare a variable: x");
}

#[test]
fn redeclaring_a_function_fails() {
    let t = Node::Tree(vec![
        fndecl("f", vec!["x"], ident("x")),
        fndecl("f", vec!["x"], ident("x")),
        num(0.0),
    ]);
    assert_eq!(
        error_of(execute(t)),
        "redeclared a function that already is defined: f"
    );
}

#[test]
fn redeclaring_a_builtin_fails() {
    let t = fndecl("sin", vec!["x"], ident("x"));
    assert_eq!(
        error_of(execute(t)),
        "redeclared a function that already is defined: sin"
    );
}

#[test]
fn assigning_an_undeclared_name_fails() {
    assert_eq!(
        error_of(execute(assign(vec!["y"], num(1.0)))),
        "use of undefined variable: y"
    );
}

#[test]
fn assigning_a_global_inside_a_function_fails() {
    let t = Node::Tree(vec![
        decl("g", num(1.0)),
        fndecl("f", vec![], assign(vec!["g"], num(2.0))),
        call("f", vec![]),
    ]);
    assert_eq!(
        error_of(execute(t)),
        "attempted to affect external variable g from within a function"
    );
}

#[test]
fn assigning_a_global_at_top_level_persists() {
    let t = Node::Tree(vec![
        decl("g", num(1.0)),
        assign(vec!["g"], num(5.0)),
        ident("g"),
    ]);
    assert_eq!(rendered(execute(t)), "5");
}

#[test]
fn unknown_variable_fails() {
    assert_eq!(error_of(execute(ident("q"))), "unknown variable: q");
}

#[test]
fn unknown_function_fails() {
    assert_eq!(error_of(execute(call("nope", vec![]))), "unknown function: nope");
}

#[test]
fn builtin_arity_mismatch_names_the_counts() {
    assert_eq!(
        error_of(execute(call("sin", vec![num(1.0), num(2.0)]))),
        "sin expects 1 parameters, but only 2 were supplied"
    );
}

#[test]
fn user_function_calls_restore_shadowed_parameters() {
    let t = Node::Tree(vec![
        fndecl("f", vec!["x"], op(ident("x"), Operator::Multiply, num(2.0))),
        fndecl(
            "g",
            vec!["x"],
            op(call("f", vec![num(3.0)]), Operator::Add, ident("x")),
        ),
        call("g", vec![num(10.0)]),
    ]);
    assert_eq!(rendered(execute(t)), "16");
}

#[test]
fn conditional_takes_the_selected_branch() {
    let c = Node::Conditional(bx(num(2.0)), bx(num(7.0)), bx(num(8.0)));
    assert_eq!(rendered(execute(c)), "7");
    let c = Node::Conditional(bx(num(0.0)), bx(num(7.0)), bx(num(8.0)));
    assert_eq!(rendered(execute(c)), "8");
}

#[test]
fn conditional_predicate_must_be_a_number() {
    let v = call("vec", vec![num(1.0), num(2.0)]);
    let c = Node::Conditional(bx(v), bx(num(7.0)), bx(num(8.0)));
    assert_eq!(
        error_of(execute(c)),
        "a predicate to a conditional expression must be a number"
    );
}

#[test]
fn empty_block_evaluates_to_zero() {
    assert_eq!(rendered(execute(Node::Tree(vec![]))), "0");
}

#[test]
fn block_must_end_with_an_expression() {
    let t = Node::Tree(vec![num(1.0), decl("x", num(1.0))]);
    assert_eq!(error_of(execute(t)), "a block must end with an expression");
}

#[test]
fn top_level_declarations_survive_inner_blocks() {
    let t = Node::Tree(vec![
        Node::Tree(vec![decl("a", num(1.0)), num(0.0)]),
        ident("a"),
    ]);
    assert_eq!(rendered(execute(t)), "1");
}

#[test]
fn indexing_within_bounds_returns_the_element() {
    let arr = Node::Array(vec![num(10.0), num(20.0), num(30.0)]);
    let ix = Node::Index(bx(arr), bx(num(1.0)));
    assert_eq!(rendered(execute(ix)), "20");
}

#[test]
fn indexing_past_the_end_names_length_and_index() {
    let arr = Node::Array(vec![num(10.0), num(20.0), num(30.0)]);
    let ix = Node::Index(bx(arr), bx(num(3.0)));
    assert_eq!(
        error_of(execute(ix)),
        "attempted to index array of length 3 with index 3"
    );
}

#[test]
fn indexing_below_zero_names_length_and_index() {
    let arr = Node::Array(vec![num(10.0), num(20.0), num(30.0)]);
    let ix = Node::Index(bx(arr), bx(num(-1.0)));
    assert_eq!(
        error_of(execute(ix)),
        "attempted to index array of length 3 with index -1"
    );
}

#[test]
fn indexing_with_a_fraction_fails() {
    let arr = Node::Array(vec![num(10.0)]);
    let ix = Node::Index(bx(arr), bx(num(0.5)));
    assert_eq!(error_of(execute(ix)), "cannot index arrays with non-integers");
}

#[test]
fn indexing_a_non_array_fails() {
    let ix = Node::Index(bx(num(1.0)), bx(num(0.0)));
    assert_eq!(error_of(execute(ix)), "cannot index a non-array");
}

#[test]
fn print_emits_the_rendering_and_returns_the_value() {
    let (r, output) = run(&call("print", vec![op(num(2.0), Operator::Add, num(3.0))]));
    assert_eq!(r.expect("value").render(), "5");
    assert_eq!(output, vec!["5"]);
}

#[test]
fn pi_and_e_are_predeclared() {
    assert_eq!(rendered(execute(ident("pi"))), "3.141592653589793");
    assert_eq!(rendered(execute(ident("e"))), "2.718281828459045");
}

#[test]
fn builtin_len_rm_ins_work_on_arrays() {
    let arr = || Node::Array(vec![num(10.0), num(20.0), num(30.0)]);
    assert_eq!(rendered(execute(call("len", vec![arr()]))), "3");
    assert_eq!(rendered(execute(call("rm", vec![arr(), num(1.0)]))), "[10, 30]");
    assert_eq!(
        rendered(execute(call("ins", vec![arr(), num(1.0), num(99.0)]))),
        "[10, 99, 20, 30]"
    );
}

#[test]
fn builtin_ins_rejects_an_index_at_the_length() {
    let arr = Node::Array(vec![num(10.0), num(20.0)]);
    assert_eq!(
        error_of(execute(call("ins", vec![arr, num(2.0), num(9.0)]))),
        "cannot index array in ins(x, y, z) where y is 2"
    );
}

#[test]
fn builtin_mem_counts_cells_recursively() {
    let inner = Node::Array(vec![num(2.0)]);
    let outer = Node::Array(vec![num(1.0), inner]);
    assert_eq!(rendered(execute(call("mem", vec![outer]))), "128");
}

#[test]
fn builtin_components_and_conjugate() {
    let v = call("vec", vec![num(3.0), num(4.0)]);
    assert_eq!(rendered(execute(call("x", vec![v]))), "3");
    let v = call("vec", vec![num(3.0), num(4.0)]);
    assert_eq!(rendered(execute(call("y", vec![v]))), "4");
    let z = op(num(1.0), Operator::Add, imag(2.0));
    assert_eq!(rendered(execute(call("conjugate", vec![z]))), "1 - 2i");
    let z = op(num(1.0), Operator::Add, imag(2.0));
    assert_eq!(rendered(execute(call("Re", vec![z]))), "1");
    let z = op(num(1.0), Operator::Add, imag(2.0));
    assert_eq!(rendered(execute(call("Im", vec![z]))), "2");
}

#[test]
fn builtin_x_requires_a_vector() {
    assert_eq!(
        error_of(execute(call("x", vec![num(1.0)]))),
        "expected vector to take x component out of"
    );
}

#[test]
fn builtin_transcendentals_agree_with_the_host() {
    let r = execute(call("sin", vec![num(0.0)])).expect("value").render();
    assert_eq!(r, "0");
    match execute(call("ln", vec![ident("e")])).expect("value") {
        Value::Number(c) => assert!((f64::from_bits(c.re) - 1.0).abs() < 1e-12),
        _ => panic!("expected a number"),
    }
    match execute(call("log", vec![num(100.0)])).expect("value") {
        Value::Number(c) => assert!((f64::from_bits(c.re) - 2.0).abs() < 1e-12),
        _ => panic!("expected a number"),
    }
    match execute(call("logn", vec![num(2.0), num(8.0)])).expect("value") {
        Value::Number(c) => assert!((f64::from_bits(c.re) - 3.0).abs() < 1e-12),
        _ => panic!("expected a number"),
    }
}

#[test]
fn clock_returns_a_real_number() {
    match execute(call("clock", vec![num(0.0)])).expect("value") {
        Value::Number(c) => assert!(f64::from_bits(c.re) >= 0.0),
        _ => panic!("expected a number"),
    }
}

#[test]
fn assignment_writes_every_target() {
    let t = Node::Tree(vec![
        decl("a", num(1.0)),
        decl("b", num(2.0)),
        assign(vec!["a", "b"], num(9.0)),
        op(ident("a"), Operator::Add, ident("b")),
    ]);
    assert_eq!(rendered(execute(t)), "18");
}

#[test]
fn conjugate_twice_restores_the_number() {
    let z = op(num(1.0), Operator::Add, imag(2.0));
    let back = call("conjugate", vec![call("conjugate", vec![z])]);
    assert_eq!(rendered(execute(back)), "1 + 2i");
}

#[test]
fn calling_a_constant_function_yields_its_literal() {
    let t = Node::Tree(vec![
        fndecl("seven", vec![], num(7.0)),
        call("seven", vec![]),
    ]);
    assert_eq!(rendered(execute(t)), "7");
}
