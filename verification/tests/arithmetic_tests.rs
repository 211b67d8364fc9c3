use risuppu::env::Env;
use risuppu::parse::parse_sexp;
use risuppu::sexp::Sexp;
use risuppu::stdlib::load_arithmetic;

#[test]
fn plus() {
    let numbers = Sexp::from_vec(vec![Sexp::integer(1), Sexp::integer(2), Sexp::integer(3)]);
    let mut env = Env::new();
    let sum = risuppu::stdlib::plus(numbers, &mut env);
    assert_eq!(sum, Sexp::integer(6));
}

#[test]
fn plus_0() {
    let list = Sexp::from_vec(vec![Sexp::nil()]);
    let mut env = Env::new();
    let sum = risuppu::stdlib::plus(list, &mut env);
    assert_eq!(sum, Sexp::integer(0));
}

#[test]
fn minus() {
    let numbers = Sexp::from_vec(vec![Sexp::integer(1), Sexp::integer(2), Sexp::integer(3)]);
    let mut env = Env::new();
    let sum = risuppu::stdlib::minus(numbers, &mut env);
    assert_eq!(sum, Sexp::integer(-4));
}

#[test]
fn minus_0() {
    let list = Sexp::from_vec(vec![Sexp::nil()]);
    let mut env = Env::new();
    let sum = risuppu::stdlib::minus(list, &mut env);
    assert_eq!(sum, Sexp::nil());
}

#[test]
fn multiply() {
    let numbers = Sexp::from_vec(vec![Sexp::integer(1), Sexp::integer(2), Sexp::integer(3)]);
    let mut env = Env::new();
    let sum = risuppu::stdlib::multiply(numbers, &mut env, 100000).unwrap();
    assert_eq!(sum, Sexp::integer(6));
}

#[test]
fn multiply_0() {
    let list = Sexp::from_vec(vec![Sexp::nil()]);
    let mut env = Env::new();
    let sum = risuppu::stdlib::multiply(list, &mut env, 100000).unwrap();
    assert_eq!(sum, Sexp::integer(1));
}

#[test]
fn divide() {
    let numbers = Sexp::from_vec(vec![Sexp::integer(6), Sexp::integer(2), Sexp::integer(3)]);
    let mut env = Env::new();
    let sum = risuppu::stdlib::divide(numbers, &mut env);
    assert_eq!(sum, Sexp::integer(1));
}

#[test]
fn divide_0() {
    let list = Sexp::from_vec(vec![Sexp::nil()]);
    let mut env = Env::new();
    let sum = risuppu::stdlib::divide(list, &mut env);
    assert_eq!(sum, Sexp::nil());
}

#[test]
fn divide_by_zero_degrades() {
    let numbers = Sexp::from_vec(vec![Sexp::integer(6), Sexp::integer(0)]);
    let mut env = Env::new();
    let sum = risuppu::stdlib::divide(numbers, &mut env);
    assert_eq!(sum, Sexp::nil());
}

#[test]
fn modular() {
    let numbers = Sexp::from_vec(vec![Sexp::integer(6), Sexp::integer(2)]);
    let mut env = Env::new();
    let sum = risuppu::stdlib::modular(numbers, &mut env, 100000).unwrap();
    assert_eq!(sum, Sexp::integer(0));
}

#[test]
fn fact() {
    let mut env = Env::new();
    load_arithmetic(&mut env);

    env.evaluate(
        parse_sexp("(define fact (lambda (n) (if (eq n 1) 1 (__builtin_* n (fact (__builtin_- n 1))))))")
            .unwrap()
            .1,
    )
    .unwrap();

    assert_eq!(
        env.evaluate(parse_sexp("(fact 1)").unwrap().1).unwrap(),
        Sexp::integer(1)
    );
    assert_eq!(
        env.evaluate(parse_sexp("(fact 2)").unwrap().1).unwrap(),
        Sexp::integer(2)
    );
    assert_eq!(
        env.evaluate(parse_sexp("(fact 3)").unwrap().1).unwrap(),
        Sexp::integer(6)
    );
}

#[test]
fn embedded_plus() {
    let mut env = Env::new();
    load_arithmetic(&mut env);

    let res = env
        .evaluate(parse_sexp("(__builtin_+ 1 (__builtin_+ 2 3))").unwrap().1)
        .unwrap();

    assert_eq!(res, Sexp::integer(6));
}

#[test]
fn comparisons() {
    let mut env = Env::new();
    load_arithmetic(&mut env);
    assert_eq!(
        env.evaluate(parse_sexp("(__builtin_less 1 2 3)").unwrap().1)
            .unwrap(),
        Sexp::boolean(true)
    );
    assert_eq!(
        env.evaluate(parse_sexp("(__builtin_greater 1 2)").unwrap().1)
            .unwrap(),
        Sexp::boolean(false)
    );
    assert_eq!(
        env.evaluate(parse_sexp("(__builtin_le 2 2)").unwrap().1)
            .unwrap(),
        Sexp::boolean(true)
    );
    assert_eq!(
        env.evaluate(parse_sexp("(__builtin_ge 1 2)").unwrap().1)
            .unwrap(),
        Sexp::boolean(false)
    );
}
