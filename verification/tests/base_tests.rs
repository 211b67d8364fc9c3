use risuppu::env::Env;
use risuppu::parse::parse_sexp;
use risuppu::sexp::Sexp;
use risuppu::stdlib::{load_arithmetic, load_base};

#[test]
fn and_then_something_and_then() {
    let mut env = Env::new();
    let expr = Sexp::from_vec(vec![Sexp::eq(), Sexp::integer(1), Sexp::integer(1)]);
    let cont = Sexp::from_vec(vec![
        Sexp::lambda(),
        Sexp::from_vec(vec![Sexp::identifier("b")]),
        Sexp::identifier("b"),
    ]);

    let expanded = risuppu::stdlib::and_then(Sexp::from_vec(vec![expr, cont]), &mut env);
    let evaluated = env.evaluate(expanded).unwrap();
    assert_eq!(evaluated, Sexp::boolean(true));
}

#[test]
fn and_then_none_and_then() {
    let mut env = Env::new();
    let expr = Sexp::nil();
    let cont = Sexp::from_vec(vec![
        Sexp::lambda(),
        Sexp::from_vec(vec![Sexp::identifier("_")]),
        Sexp::integer(1),
    ]);

    let expanded = risuppu::stdlib::and_then(Sexp::from_vec(vec![expr, cont]), &mut env);
    let evaluated = env.evaluate(expanded).unwrap();
    assert_eq!(evaluated, Sexp::nil());
}

#[test]
fn embedded_and_then() {
    let mut env = Env::new();
    load_base(&mut env);
    let expr = parse_sexp("(and-then (and-then (eq 1 1) (lambda (_) 1)) (lambda (_) #t))")
        .unwrap()
        .1;
    let eval = env.evaluate(expr).unwrap();
    assert_eq!(eval, Sexp::boolean(true));
}

#[test]
fn expand_cond() {
    let mut env = Env::new();
    let expr = parse_sexp("(((eq n 1) 2) ((eq n 2) 1) (else 3))").unwrap().1;
    let expanded = risuppu::stdlib::cond(expr, &mut env);
    let expected = parse_sexp("(if (eq n 1) 2 (if (eq n 2) 1 3))").unwrap().1;
    assert_eq!(expanded, expected);
}

#[test]
fn cond() {
    let mut env = Env::new();
    load_base(&mut env);
    let expr = parse_sexp("(cond ((eq n 1) 2) ((eq n 2) 1) (else 3))").unwrap().1;

    env.set_global("n", Sexp::integer(1));
    assert_eq!(env.evaluate(expr.clone()).unwrap(), Sexp::integer(2));

    env.set_global("n", Sexp::integer(2));
    assert_eq!(env.evaluate(expr.clone()).unwrap(), Sexp::integer(1));

    env.set_global("n", Sexp::integer(3));
    assert_eq!(env.evaluate(expr.clone()).unwrap(), Sexp::integer(3));
}

#[test]
fn let_let_1() {
    let mut env = Env::new();
    let expr = parse_sexp("(((a 1)) (eq a 1))").unwrap().1;
    let expanded = risuppu::stdlib::let_form(expr, &mut env);
    let expected = parse_sexp("((lambda (a) (eq a 1)) 1)").unwrap().1;
    assert_eq!(expanded, expected);
}

#[test]
fn let_let_many() {
    let mut env = Env::new();
    let expr = parse_sexp("(((a 1) (b 2)) (eq a b))").unwrap().1;
    let expanded = risuppu::stdlib::let_form(expr, &mut env);
    let expected = parse_sexp("((lambda (a b) (eq a b)) 1 2)").unwrap().1;
    assert_eq!(expanded, expected);
}

#[test]
fn let_named() {
    let mut env = Env::new();
    let expr = parse_sexp("(loop ((a 1) (b 2)) (loop a b))").unwrap().1;
    let expanded = risuppu::stdlib::let_form(expr, &mut env);
    let expected = parse_sexp(
        "(((lambda (f) ((lambda (f) (f f)) (lambda (g) (lambda (a b) ((f (g g)) a b))))) (lambda (loop a b) (loop a b))) 1 2)",
    )
    .unwrap()
    .1;

    if expanded != expected {
        println!("expanded = {}", expanded.to_text());
        println!("expected = {}", expected.to_text());
        panic!("The let-form wasn't expanded to the expected form!")
    }
}

#[test]
fn let_list() {
    let mut env = Env::new();
    let expr = parse_sexp("(let ((l '(1 2))) (car l))").unwrap().1;
    load_base(&mut env);
    let evaluated = env.evaluate(expr).unwrap();
    assert_eq!(evaluated, Sexp::integer(1));
}

// The named let threads the loop body through a fixed-point combinator whose
// inner parameter is also called `f`. Binding a parameter writes into the
// current scope, so that inner binding overwrites the outer `f` that the
// combinator's closure reads, and the recursion never reaches its base case.
// The explicit reduction-depth bound reports that as an error instead of
// exhausting the native stack.
#[test]
fn let_loop() {
    let mut env = Env::new();
    load_base(&mut env);
    load_arithmetic(&mut env);
    let expr = parse_sexp(
        "(let loop ((n 5)) (__builtin_+ n (if (eq n 1) 0 (loop (__builtin_- n 1)))))",
    )
    .unwrap()
    .1;
    let evaluated = risuppu::semantic::evaluate(expr, &mut env, 5000);
    assert!(matches!(
        evaluated,
        Err(risuppu::semantic::EvalError::StackOverflow)
    ));
}

#[test]
fn let_nil_last_param() {
    let mut env = Env::new();
    load_base(&mut env);
    load_arithmetic(&mut env);
    let expr = parse_sexp(
        "(let loop ((n 5) (something-I-dont-care '())) (__builtin_+ n (if (eq n 1) 0 (loop (__builtin_- n 1) '()))))",
    )
    .unwrap()
    .1;
    let evaluated = risuppu::semantic::evaluate(expr, &mut env, 5000);
    assert!(matches!(
        evaluated,
        Err(risuppu::semantic::EvalError::StackOverflow)
    ));
}

#[test]
fn bind_name() {
    let pat = parse_sexp("'(a)").unwrap().1;
    let arg = parse_sexp("'(1)").unwrap().1;
    let ret_val = parse_sexp("a").unwrap().1;
    let expr = Sexp::from_vec(vec![arg, Sexp::from_vec(vec![pat, ret_val])]);

    let mut env = Env::new();
    let res = risuppu::stdlib::match_form(expr, &mut env);
    let res = env.evaluate(res).unwrap();
    let expected = Sexp::integer(1);
    assert_eq!(res, expected);
}

#[test]
fn else_arm() {
    let pat = parse_sexp("'(a)").unwrap().1;
    let arg = parse_sexp("'(1 2)").unwrap().1;
    let ret_val = parse_sexp("a").unwrap().1;
    let else_flag = Sexp::identifier("else");
    let else_value = Sexp::integer(3);
    let expr = Sexp::from_vec(vec![
        arg,
        Sexp::from_vec(vec![pat, ret_val]),
        Sexp::from_vec(vec![else_flag, else_value]),
    ]);

    let mut env = Env::new();
    let res = risuppu::stdlib::match_form(expr, &mut env);
    let res = env.evaluate(res).unwrap();
    let expected = Sexp::integer(3);
    assert_eq!(res, expected);
}

#[test]
fn seq() {
    let form = Sexp::from_vec(vec![
        Sexp::identifier("seq"),
        Sexp::from_vec(vec![
            Sexp::define(),
            Sexp::identifier("a"),
            Sexp::integer(1),
        ]),
        Sexp::from_vec(vec![Sexp::eq(), Sexp::integer(1), Sexp::integer(2)]),
    ]);
    let mut env = Env::new();
    load_base(&mut env);

    let ans = env.evaluate(form).unwrap();
    assert_eq!(ans, Sexp::boolean(false));
    assert_eq!(env.get("a"), Some(Sexp::integer(1)));
}

#[test]
fn protect_stack() {
    let mut env = Env::new();
    load_base(&mut env);
    let expr = Sexp::from_vec(vec![
        Sexp::identifier("seq"),
        parse_sexp("(define a 1)").unwrap().1,
        parse_sexp("(define b a)").unwrap().1,
        parse_sexp("((lambda (a b) ()) 2)").unwrap().1,
        parse_sexp("(define b a)").unwrap().1,
        parse_sexp("b").unwrap().1,
    ]);
    let res = env.evaluate(expr).unwrap();
    assert_eq!(res, Sexp::integer(1));
}

#[test]
fn expand_do() {
    let mut env = Env::new();

    let expr = parse_sexp("(do (-> (read) (name)) (-> (print name)) name)")
        .unwrap()
        .1;
    let expanded_expr = risuppu::stdlib::do_form(expr.cdr(), &mut env);

    let expected = parse_sexp("(read (lambda (name) (print name (lambda () name))))")
        .unwrap()
        .1;
    assert_eq!(expanded_expr, expected);
}
