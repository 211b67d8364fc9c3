use risuppu::env::Env;
use risuppu::parse::parse_sexp;
use risuppu::sexp::Sexp;
use risuppu::stdlib::load_arithmetic;

#[test]
fn require_imports_prefixed_exports() {
    let mut env = Env::new();
    env.register_module("m", "(provide x 1)");
    let expr = parse_sexp("(require m \"m.\")").unwrap().1;
    let res = env.evaluate(expr).unwrap();
    assert_eq!(res, Sexp::nil());
    assert_eq!(env.get("m.x"), Some(Sexp::integer(1)));
}

#[test]
fn require_missing_module_is_a_no_op() {
    let mut env = Env::new();
    env.set_global("keep", Sexp::integer(9));
    let expr = parse_sexp("(require nowhere \"m.\")").unwrap().1;
    let res = env.evaluate(expr).unwrap();
    assert_eq!(res, Sexp::nil());
    assert_eq!(env.get("keep"), Some(Sexp::integer(9)));
    assert_eq!(env.get("m.x"), None);
}

#[test]
fn module_definitions_stay_local() {
    let mut env = Env::new();
    env.register_module("m", "(define hidden 5) (provide shown hidden)");
    let expr = parse_sexp("(require m \"m.\")").unwrap().1;
    env.evaluate(expr).unwrap();
    assert_eq!(env.get("m.shown"), Some(Sexp::integer(5)));
    assert_eq!(env.get("hidden"), None);
}

#[test]
fn provide_records_an_export() {
    let mut env = Env::new();
    let expr = parse_sexp("(provide x 41)").unwrap().1;
    let res = env.evaluate(expr).unwrap();
    assert_eq!(res, Sexp::nil());
    let provided = env.get_provided();
    assert_eq!(provided.len(), 1);
    assert_eq!(provided[0].0, "x");
    assert_eq!(provided[0].1, *Sexp::integer(41));
}

#[test]
fn end_to_end_if_eq() {
    let mut env = Env::new();
    let expr = parse_sexp("(if (eq 1 1) 10 20)").unwrap().1;
    assert_eq!(env.evaluate(expr).unwrap(), Sexp::integer(10));
}

#[test]
fn end_to_end_define_inc() {
    let mut env = Env::new();
    load_arithmetic(&mut env);
    let expr = parse_sexp("(define inc (lambda (n) (__builtin_+ n 1)))")
        .unwrap()
        .1;
    env.evaluate(expr).unwrap();
    let expr = parse_sexp("(inc 41)").unwrap().1;
    assert_eq!(env.evaluate(expr).unwrap(), Sexp::integer(42));
}

#[test]
fn end_to_end_curried_application() {
    let mut env = Env::new();
    load_arithmetic(&mut env);
    let expr = parse_sexp("(((lambda (x) (lambda (y) (__builtin_+ x y))) 3) 4)")
        .unwrap()
        .1;
    assert_eq!(env.evaluate(expr).unwrap(), Sexp::integer(7));
}

#[test]
fn end_to_end_list_builders_agree() {
    let mut env = Env::new();
    let built = env
        .evaluate(parse_sexp("(cons 1 (cons 2 ()))").unwrap().1)
        .unwrap();
    let folded = Sexp::from_vec(vec![Sexp::integer(1), Sexp::integer(2)]);
    assert_eq!(built, folded);
}

#[test]
fn evaluate_buf_runs_each_form() {
    let mut env = Env::new();
    risuppu::module::evaluate_buf("(define a 1) (define b 2)", &mut env, 100000).unwrap();
    assert_eq!(env.get("a"), Some(Sexp::integer(1)));
    assert_eq!(env.get("b"), Some(Sexp::integer(2)));
}
