use risuppu::env::Env;
use risuppu::parse::parse_sexp;
use risuppu::sexp::Sexp;
use risuppu::stdlib::{load_arithmetic, load_bool, load_list, load_string};

#[test]
fn and() {
    let mut env = Env::new();
    load_bool(&mut env);

    let expr = parse_sexp("(and (and #t #t) #t #f)").unwrap().1;
    let eval = env.evaluate(expr).unwrap();
    assert_eq!(eval, Sexp::boolean(false));

    let expr = parse_sexp("(and (and #t #t) #t #t)").unwrap().1;
    let eval = env.evaluate(expr).unwrap();
    assert_eq!(eval, Sexp::boolean(true));
}

#[test]
fn or() {
    let mut env = Env::new();
    load_bool(&mut env);

    let expr = parse_sexp("(or (or #f #f) #t #f)").unwrap().1;
    let eval = env.evaluate(expr).unwrap();
    assert_eq!(eval, Sexp::boolean(true));

    let expr = parse_sexp("(or (or #f #f) #f #f)").unwrap().1;
    let eval = env.evaluate(expr).unwrap();
    assert_eq!(eval, Sexp::boolean(false));
}

#[test]
fn not() {
    let mut env = Env::new();
    load_bool(&mut env);

    let expr = parse_sexp("(not (not #t))").unwrap().1;
    let eval = env.evaluate(expr).unwrap();
    assert_eq!(eval, Sexp::boolean(true));

    let expr = parse_sexp("(not (not #f))").unwrap().1;
    let eval = env.evaluate(expr).unwrap();
    assert_eq!(eval, Sexp::boolean(false));

    let expr = parse_sexp("(not #t)").unwrap().1;
    let eval = env.evaluate(expr).unwrap();
    assert_eq!(eval, Sexp::boolean(false));

    let expr = parse_sexp("(not #f)").unwrap().1;
    let eval = env.evaluate(expr).unwrap();
    assert_eq!(eval, Sexp::boolean(true));
}

#[test]
fn concat() {
    let numbers = Sexp::from_vec(vec![
        Sexp::string("One"),
        Sexp::string("Two"),
        Sexp::string("Three"),
    ]);
    let mut env = Env::new();
    let numbers = risuppu::stdlib::concat(numbers, &mut env);
    assert_eq!(numbers, Sexp::string("OneTwoThree"));
}

#[test]
fn concat_list() {
    let mut env = Env::new();
    load_string(&mut env);
    let expr = "(concat (car '(\"1\" \"3\")) \"2\" (car (cdr '(\"1\" \"3\"))))";
    let expr = parse_sexp(expr).unwrap().1;
    let concated = env.evaluate(expr).unwrap();
    assert_eq!(concated, Sexp::string("123"));
}

#[test]
fn embedded_concat() {
    let mut env = Env::new();
    load_string(&mut env);
    let expr = parse_sexp("(concat (concat 1 2) 3)").unwrap().1;
    let eval = env.evaluate(expr).unwrap();
    assert_eq!(eval, Sexp::string("123"));
}

#[test]
fn flat_map() {
    let mut env = Env::new();
    load_list(&mut env);
    load_arithmetic(&mut env);

    let expr = parse_sexp(
        "(__builtin_flat-map '(1 2 3) (lambda (a) (__builtin_list a (__builtin_* a 2) (__builtin_* a 3))))",
    )
    .unwrap()
    .1;
    let res = env.evaluate(expr).unwrap();
    let expected = parse_sexp("(1 2 3 2 4 6 3 6 9)").unwrap().1;
    assert_eq!(res, expected);
}

#[test]
fn filter() {
    let mut env = Env::new();
    load_list(&mut env);
    load_arithmetic(&mut env);

    let expr = parse_sexp(
        "(__builtin_flat-map '(1 2 3) (lambda (a) (if (eq a 2) (__builtin_list a) '())))",
    )
    .unwrap()
    .1;
    let res = env.evaluate(expr).unwrap();
    let expected = parse_sexp("(2)").unwrap().1;
    assert_eq!(res, expected);
}

#[test]
fn sum() {
    let mut env = Env::new();
    load_list(&mut env);
    load_arithmetic(&mut env);

    let expr = parse_sexp("(__builtin_fold (lambda (a b) (__builtin_+ a b)) 0 '(1 2 3))")
        .unwrap()
        .1;
    let res = env.evaluate(expr).unwrap();
    assert_eq!(res, Sexp::integer(6));
}

#[test]
fn sum_many_lists() {
    let mut env = Env::new();
    load_list(&mut env);
    load_arithmetic(&mut env);

    let expr = parse_sexp(
        "(__builtin_fold (lambda (a b) (__builtin_+ a b)) 0 '(1 2 3) '(4 5 6) '(7 8 9))",
    )
    .unwrap()
    .1;
    let res = env.evaluate(expr).unwrap();
    assert_eq!(res, Sexp::integer(45));
}

#[test]
fn sum_atom() {
    let mut env = Env::new();
    load_list(&mut env);
    load_arithmetic(&mut env);

    let expr = parse_sexp("(__builtin_fold (lambda (a b) (__builtin_+ a b)) 0 1 2 3 4 5 6 '(7 8 9))")
        .unwrap()
        .1;
    let res = env.evaluate(expr).unwrap();
    assert_eq!(res, Sexp::integer(45));
}

#[test]
fn rev() {
    let mut env = Env::new();
    load_list(&mut env);
    load_arithmetic(&mut env);

    let expr = parse_sexp("(__builtin_fold (lambda (a b) (cons b a)) '() '(1 2 3))")
        .unwrap()
        .1;
    let res = env.evaluate(expr).unwrap();
    assert_eq!(
        res,
        Sexp::from_vec(vec![Sexp::integer(3), Sexp::integer(2), Sexp::integer(1)])
    );
}

#[test]
fn map() {
    let mut env = Env::new();
    load_list(&mut env);
    load_arithmetic(&mut env);

    let expr = parse_sexp("(__builtin_map '(1 2 3) (lambda (a) (__builtin_* a 2)))")
        .unwrap()
        .1;
    let res = env.evaluate(expr).unwrap();
    assert_eq!(
        res,
        Sexp::from_vec(vec![Sexp::integer(2), Sexp::integer(4), Sexp::integer(6)])
    );
}

#[test]
fn map_nested() {
    let mut env = Env::new();
    load_list(&mut env);
    let expr = parse_sexp("(__builtin_map '((1 2)) (lambda (a) (cons 0 a)))")
        .unwrap()
        .1;
    let res = env.evaluate(expr).unwrap();
    assert_eq!(res, parse_sexp("((0 1 2))").unwrap().1);
}

#[test]
fn omega() {
    let sum = parse_sexp("(lambda (s p n) (if (eq n 0) p (s s (__builtin_+ p n) (__builtin_- n 1))))")
        .unwrap()
        .1;
    let omega = parse_sexp("(lambda (f) (f f))").unwrap().1;
    let mut env = Env::new();
    load_arithmetic(&mut env);
    env.evaluate(Sexp::from_vec(vec![
        Sexp::define(),
        Sexp::identifier("sum"),
        sum,
    ]))
    .unwrap();
    env.evaluate(Sexp::from_vec(vec![
        Sexp::define(),
        Sexp::identifier("omega"),
        omega,
    ]))
    .unwrap();
    let sum5 = parse_sexp("((omega sum) 0 5)").unwrap().1;
    let res = env.evaluate(sum5).unwrap();
    assert_eq!(res, Sexp::integer(15));
}

#[test]
fn y() {
    let sum = parse_sexp("(lambda (s p n) (if (eq n 0) p (s (__builtin_+ p n) (__builtin_- n 1))))")
        .unwrap()
        .1;
    let omega = parse_sexp("(lambda (f) (f f))").unwrap().1;
    let y = parse_sexp("(lambda (f) (omega (lambda (g) (lambda (a1 a2) (f (g g) a1 a2)))))")
        .unwrap()
        .1;
    let mut env = Env::new();
    load_arithmetic(&mut env);
    env.evaluate(Sexp::from_vec(vec![
        Sexp::define(),
        Sexp::identifier("sum"),
        sum,
    ]))
    .unwrap();
    env.evaluate(Sexp::from_vec(vec![
        Sexp::define(),
        Sexp::identifier("omega"),
        omega,
    ]))
    .unwrap();
    env.evaluate(Sexp::from_vec(vec![Sexp::define(), Sexp::identifier("y"), y]))
        .unwrap();
    let sum5 = parse_sexp("((y sum) 0 5)").unwrap().1;
    let res = env.evaluate(sum5).unwrap();
    assert_eq!(res, Sexp::integer(15));
}
