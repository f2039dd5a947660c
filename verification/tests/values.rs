use numscript::scalar::Cpx;
use numscript::value::{Value, Vec2};

fn cpx(re: f64, im: f64) -> Cpx {
    Cpx { re: re.to_bits(), im: im.to_bits() }
}

fn number(re: f64, im: f64) -> Value {
    Value::Number(cpx(re, im))
}

fn parts(v: Value) -> (f64, f64) {
    match v {
        Value::Number(c) => (f64::from_bits(c.re), f64::from_bits(c.im)),
        _ => panic!("expected a number"),
    }
}

#[test]
fn dividing_and_multiplying_back_recovers_the_value() {
    let pairs = [
        ((3.0, 4.0), (1.0, 2.0)),
        ((-2.5, 0.125), (0.5, -7.0)),
        ((10.0, 0.0), (3.0, 0.0)),
    ];
    for ((ar, ai), (br, bi)) in pairs {
        let q = number(ar, ai).div(number(br, bi)).expect("quotient");
        let back = q.mul(number(br, bi)).expect("product");
        let (re, im) = parts(back);
        assert!((re - ar).abs() < 1e-9, "re was {re}, wanted {ar}");
        assert!((im - ai).abs() < 1e-9, "im was {im}, wanted {ai}");
    }
}

#[test]
fn addition_commutes() {
    let a = number(3.5, -1.25);
    let b = number(-0.75, 8.0);
    let (r1, i1) = parts(a.add(number(-0.75, 8.0)).expect("sum"));
    let (r2, i2) = parts(b.add(number(3.5, -1.25)).expect("sum"));
    assert_eq!(r1.to_bits(), r2.to_bits());
    assert_eq!(i1.to_bits(), i2.to_bits());
}

#[test]
fn multiplication_commutes() {
    let a = number(3.5, -1.25);
    let b = number(-0.75, 8.0);
    let (r1, i1) = parts(a.mul(number(-0.75, 8.0)).expect("product"));
    let (r2, i2) = parts(b.mul(number(3.5, -1.25)).expect("product"));
    assert!((r1 - r2).abs() < 1e-12);
    assert!((i1 - i2).abs() < 1e-12);
}

#[test]
fn vector_equality_is_componentwise() {
    let v = Value::Vector(Vec2 { x: 1.0f64.to_bits(), y: 2.0f64.to_bits() });
    let w = Value::Vector(Vec2 { x: 1.0f64.to_bits(), y: 2.0f64.to_bits() });
    assert_eq!(v.equals(w).render(), "1");
    let v = Value::Vector(Vec2 { x: 1.0f64.to_bits(), y: 2.0f64.to_bits() });
    let w = Value::Vector(Vec2 { x: 1.0f64.to_bits(), y: 3.0f64.to_bits() });
    assert_eq!(v.equals(w).render(), "0");
}

#[test]
fn vector_equality_honors_zero_signs() {
    let v = Value::Vector(Vec2 { x: 0.0f64.to_bits(), y: 0.0f64.to_bits() });
    let w = Value::Vector(Vec2 { x: (-0.0f64).to_bits(), y: 0.0f64.to_bits() });
    assert_eq!(v.equals(w).render(), "1");
}

#[test]
fn comparisons_use_the_complex_modulus() {
    let small = number(3.0, 4.0);
    let large = number(0.0, 6.0);
    assert_eq!(small.greater_than(number(0.0, 6.0)).expect("value").render(), "0");
    assert_eq!(large.less_than(number(3.0, 4.0)).expect("value").render(), "0");
    assert_eq!(number(3.0, 4.0).less_than(number(0.0, 6.0)).expect("value").render(), "1");
    assert_eq!(number(5.0, 0.0).greater_than_or_equals(number(3.0, 4.0)).expect("value").render(), "1");
    assert_eq!(number(5.0, 0.0).less_than_or_equals(number(3.0, 4.0)).expect("value").render(), "1");
}

#[test]
fn comparing_a_vector_fails() {
    let v = Value::Vector(Vec2 { x: 0, y: 0 });
    assert_eq!(
        v.greater_than(number(1.0, 0.0)).expect_err("error"),
        "cannot compare greater-than between a vector and a number"
    );
}

#[test]
fn zero_base_power_is_zero_even_for_zero_exponent() {
    assert_eq!(number(0.0, 0.0).pow(number(0.0, 0.0)).expect("value").render(), "0");
    assert_eq!(number(0.0, 0.0).pow(number(7.0, 2.0)).expect("value").render(), "0");
}

#[test]
fn zero_exponent_power_is_one() {
    assert_eq!(number(9.0, 1.0).pow(number(0.0, 0.0)).expect("value").render(), "1");
}

#[test]
fn vector_scaling_requires_a_real_number() {
    let v = Value::Vector(Vec2 { x: 1.0f64.to_bits(), y: 2.0f64.to_bits() });
    assert_eq!(v.mul(number(3.0, 0.0)).expect("value").render(), "(3, 6)");
    let v = Value::Vector(Vec2 { x: 1.0f64.to_bits(), y: 2.0f64.to_bits() });
    assert_eq!(
        v.mul(number(3.0, 1.0)).expect_err("error"),
        "cannot multiply a vector with a complex number"
    );
    let v = Value::Vector(Vec2 { x: 6.0f64.to_bits(), y: 2.0f64.to_bits() });
    assert_eq!(v.div(number(2.0, 0.0)).expect("value").render(), "(3, 1)");
}

#[test]
fn vector_plus_number_fails_both_ways() {
    let v = Value::Vector(Vec2 { x: 0, y: 0 });
    assert_eq!(
        number(1.0, 0.0).add(v).expect_err("error"),
        "cannot add a number to a vector"
    );
    let v = Value::Vector(Vec2 { x: 0, y: 0 });
    assert_eq!(
        v.add(number(1.0, 0.0)).expect_err("error"),
        "cannot add a vector to a number"
    );
}

#[test]
fn remainder_is_only_for_numbers() {
    assert_eq!(number(7.0, 0.0).rem(number(3.0, 0.0)).expect("value").render(), "1");
    let a = Value::Array(vec![number(1.0, 0.0)]);
    assert_eq!(
        a.rem(number(1.0, 0.0)).expect_err("error"),
        "cannot find remainder between arraay and number"
    );
}

#[test]
fn subtraction_never_touches_arrays() {
    let a = Value::Array(vec![]);
    let b = Value::Array(vec![]);
    assert_eq!(
        a.sub(b).expect_err("error"),
        "cannot subtract an array from an array"
    );
}

#[test]
fn nested_arrays_render_recursively() {
    let inner = Value::Array(vec![number(3.0, 0.0), number(0.0, 1.0)]);
    let outer = Value::Array(vec![
        number(1.0, 0.0),
        inner,
        Value::Vector(Vec2 { x: 1.0f64.to_bits(), y: 2.0f64.to_bits() }),
    ]);
    assert_eq!(outer.render(), "[1, [3, i], (1, 2)]");
}

#[test]
fn empty_array_renders_as_brackets() {
    assert_eq!(Value::Array(vec![]).render(), "[]");
}

#[test]
fn negative_imaginary_part_renders_with_a_minus() {
    assert_eq!(number(-1.5, -2.5).render(), "-1.5 - 2.5i");
    assert_eq!(number(0.0, -2.0).render(), "-2i");
}

#[test]
fn vector_subtraction_is_componentwise() {
    let v = Value::Vector(Vec2 { x: 5.0f64.to_bits(), y: 7.0f64.to_bits() });
    let w = Value::Vector(Vec2 { x: 1.0f64.to_bits(), y: 2.0f64.to_bits() });
    assert_eq!(v.sub(w).expect("value").render(), "(4, 5)");
}

#[test]
fn power_of_a_vector_raises_each_component() {
    let v = Value::Vector(Vec2 { x: 2.0f64.to_bits(), y: 3.0f64.to_bits() });
    assert_eq!(
        v.pow(Value::Number(Cpx { re: 2.0f64.to_bits(), im: 0.0f64.to_bits() }))
            .expect("value")
            .render(),
        "(4, 9)"
    );
}
