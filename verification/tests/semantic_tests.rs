use risuppu::env::Env;
use risuppu::parse::parse_sexp;
use risuppu::semantic::EvalError;
use risuppu::sexp::Sexp;

#[test]
fn hello_world() {
    let expr = Sexp::cons(
        Sexp::wrap(Sexp::Print),
        Sexp::cons(
            Sexp::wrap(Sexp::SString("Hello World".to_string())),
            Sexp::nil(),
        ),
    );
    let mut env = Env::new();
    env.evaluate(expr).unwrap();
    assert_eq!(env.take_output(), "Hello World");
}

#[test]
fn eval_if() {
    let mut env = Env::new();

    let sexp = Sexp::from_vec(vec![
        Sexp::if_token(),
        Sexp::boolean(true),
        Sexp::integer(1),
        Sexp::integer(2),
    ]);
    let res = env.evaluate(sexp).unwrap();
    assert_eq!(res, Sexp::integer(1));

    let sexp = Sexp::from_vec(vec![
        Sexp::if_token(),
        Sexp::boolean(false),
        Sexp::integer(1),
        Sexp::integer(2),
    ]);
    let res = env.evaluate(sexp).unwrap();
    assert_eq!(res, Sexp::integer(2));
}

#[test]
fn if_non_boolean_selects_else() {
    let mut env = Env::new();
    let sexp = Sexp::from_vec(vec![
        Sexp::if_token(),
        Sexp::integer(7),
        Sexp::integer(1),
        Sexp::integer(2),
    ]);
    assert_eq!(env.evaluate(sexp).unwrap(), Sexp::integer(2));
}

#[test]
fn eval_define() {
    let mut env = Env::new();
    let definition = Sexp::integer(1);
    let identifier = Sexp::identifier("ident");
    let sexp = Sexp::from_vec(vec![Sexp::define(), identifier.clone(), definition.clone()]);

    env.evaluate(sexp).unwrap();
    assert!(env.get("ident").is_some());
    assert_eq!(env.get("ident").unwrap(), definition);
}

#[test]
fn eval_lambda() {
    let mut env = Env::new();
    let lambda = Sexp::from_vec(vec![
        Sexp::lambda(),
        Sexp::from_vec(vec![Sexp::identifier("a")]),
        Sexp::identifier("a"),
    ]);
    let expr = Sexp::from_vec(vec![lambda, Sexp::integer(1)]);

    let res = env.evaluate(expr).unwrap();
    assert_eq!(res, Sexp::integer(1));
}

#[test]
fn print_and_then_test() {
    let mut env = Env::new();
    let and_then_expr = Sexp::from_vec(vec![Sexp::lambda(), Sexp::nil(), Sexp::integer(1)]);
    let print_expr = Sexp::from_vec(vec![Sexp::print(), Sexp::string("Print"), and_then_expr]);

    let res = env.evaluate(print_expr).unwrap();
    assert_eq!(res, Sexp::integer(1));
    assert_eq!(env.take_output(), "Print");
}

#[test]
fn eval_none_param_lambda() {
    let mut env = Env::new();
    let sexp = Sexp::from_vec(vec![Sexp::from_vec(vec![
        Sexp::lambda(),
        Sexp::nil(),
        Sexp::integer(1),
    ])]);
    let res = env.evaluate(sexp).unwrap();
    assert_eq!(res, Sexp::integer(1));
}

#[test]
fn eval_nested_lambda() {
    let mut env = Env::new();
    let inner_lambda = Sexp::from_vec(vec![Sexp::lambda(), Sexp::nil(), Sexp::identifier("a")]);
    let outer_lambda = Sexp::from_vec(vec![
        Sexp::lambda(),
        Sexp::from_vec(vec![Sexp::identifier("a")]),
        inner_lambda,
    ]);
    let expr = Sexp::from_vec(vec![Sexp::from_vec(vec![outer_lambda, Sexp::integer(1)])]);
    let res = env.evaluate(expr).unwrap();
    assert_eq!(res, Sexp::integer(1));
}

#[test]
fn eval_macro() {
    let mut env = Env::new();
    let lambda = Sexp::from_vec(vec![
        Sexp::macro_token(),
        Sexp::from_vec(vec![Sexp::identifier("a")]),
        Sexp::identifier("a"),
    ]);
    let expr = Sexp::from_vec(vec![lambda, Sexp::integer(1)]);

    let res = env.evaluate(expr).unwrap();
    assert_eq!(res, Sexp::integer(1));
}

#[test]
fn test_macro_quoted_arg() {
    let mut env = Env::new();
    env.set_global("a", Sexp::integer(1));
    assert_eq!(env.get("a").unwrap(), Sexp::integer(1));

    let arg = Sexp::from_vec(vec![
        Sexp::define(),
        Sexp::identifier("a"),
        Sexp::integer(2),
    ]);
    // ((macro (b)) (define a 2))
    let macro_expr = Sexp::from_vec(vec![
        Sexp::from_vec(vec![
            Sexp::macro_token(),
            Sexp::from_vec(vec![Sexp::identifier("b")]),
        ]),
        arg.clone(),
    ]);
    // ((lambda (b)) (define a 2))
    let lambda_expr = Sexp::from_vec(vec![
        Sexp::from_vec(vec![
            Sexp::lambda(),
            Sexp::from_vec(vec![Sexp::identifier("b")]),
        ]),
        arg.clone(),
    ]);

    env.evaluate(macro_expr).unwrap();
    assert_eq!(env.get("a").unwrap(), Sexp::integer(1));
    env.evaluate(lambda_expr).unwrap();
    assert_eq!(env.get("a").unwrap(), Sexp::integer(2));
}

#[test]
fn eval_car_and_cdr() {
    let mut env = Env::new();
    let list = Sexp::from_vec(vec![Sexp::integer(1), Sexp::integer(2)]);
    let car_expr = Sexp::from_vec(vec![Sexp::car_token(), list.clone()]);
    let cdr_expr = Sexp::from_vec(vec![Sexp::cdr_token(), list.clone()]);

    assert_eq!(env.evaluate(car_expr).unwrap(), Sexp::integer(1));
    assert_eq!(
        env.evaluate(cdr_expr).unwrap(),
        Sexp::from_vec(vec![Sexp::integer(2)])
    );
}

#[test]
fn closure_keeps_captured_scope() {
    let mut env = Env::new();
    let expr = parse_sexp("(((lambda (x) (lambda () x)) 1))").unwrap().1;
    assert_eq!(env.evaluate(expr).unwrap(), Sexp::integer(1));
}

#[test]
fn unbound_identifier_is_an_error() {
    let mut env = Env::new();
    let expr = parse_sexp("nowhere").unwrap().1;
    assert!(matches!(
        env.evaluate(expr),
        Err(EvalError::UnboundIdentifier(_))
    ));
}

#[test]
fn literal_head_degrades_to_the_form() {
    let mut env = Env::new();
    let expr = parse_sexp("(1 2)").unwrap().1;
    let expected = parse_sexp("(1 2)").unwrap().1;
    assert_eq!(env.evaluate(expr).unwrap(), expected);
}

#[test]
fn runaway_recursion_hits_the_depth_bound() {
    let mut env = Env::new();
    let expr = parse_sexp("(define loop (lambda () (loop)))").unwrap().1;
    env.evaluate(expr).unwrap();
    let expr = parse_sexp("(loop)").unwrap().1;
    assert!(matches!(env.evaluate(expr), Err(EvalError::StackOverflow)));
}

#[test]
fn read_hands_input_to_continuation() {
    let mut env = Env::new();
    env.push_input("hola");
    let expr = parse_sexp("(read (lambda (l) l))").unwrap().1;
    assert_eq!(env.evaluate(expr).unwrap(), Sexp::string("hola"));
}

#[test]
fn quote_is_terminal() {
    let mut env = Env::new();
    let expr = parse_sexp("'(1 2)").unwrap().1;
    let expected = parse_sexp("(1 2)").unwrap().1;
    assert_eq!(env.evaluate(expr).unwrap(), expected);
}

#[test]
fn eval_cons_form() {
    let mut env = Env::new();
    let expr = parse_sexp("(cons 1 (cons 2 ()))").unwrap().1;
    let expected = Sexp::from_vec(vec![Sexp::integer(1), Sexp::integer(2)]);
    assert_eq!(env.evaluate(expr).unwrap(), expected);
}
