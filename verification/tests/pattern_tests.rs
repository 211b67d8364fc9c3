use risuppu::parse::parse_sexp;
use risuppu::pattern::{MatchError, Pattern};
use risuppu::sexp::Sexp;

#[test]
fn match_nil_pattern() -> Result<(), MatchError> {
    let pattern: Pattern = parse_sexp("()").unwrap().1.into();
    let expr = parse_sexp("()").unwrap().1;
    pattern.bind(expr).map(|_| ())
}

#[test]
fn match_int() -> Result<(), MatchError> {
    let pattern: Pattern = parse_sexp("1").unwrap().1.into();
    let expr = parse_sexp("1").unwrap().1;
    pattern.bind(expr).map(|_| ())
}

#[test]
fn match_atom() -> Result<(), MatchError> {
    let pattern: Pattern = parse_sexp("define").unwrap().1.into();
    let expr = parse_sexp("define").unwrap().1;
    pattern.bind(expr).map(|_| ())
}

#[test]
fn match_identifier() -> Result<(), MatchError> {
    let pattern: Pattern = parse_sexp("'ident").unwrap().1.into();
    let expr = parse_sexp("ident").unwrap().1;
    pattern.bind(expr).map(|_| ())
}

#[test]
fn match_list() -> Result<(), MatchError> {
    let pattern: Pattern = parse_sexp("'(1 2 3)").unwrap().1.into();
    let expr = parse_sexp("'(1 2 3)").unwrap().1;
    pattern.bind(expr).map(|_| ())
}

#[test]
fn match_embedded_list() -> Result<(), MatchError> {
    let pattern: Pattern = parse_sexp("'(1 2 3 (1 2 3))").unwrap().1.into();
    let expr = parse_sexp("'(1 2 3 (1 2 3))").unwrap().1;
    pattern.bind(expr).map(|_| ())
}

#[test]
fn bind() {
    let pattern: Pattern = parse_sexp("n").unwrap().1.into();
    let expr = parse_sexp("1").unwrap().1;
    let binding = pattern.bind(expr).unwrap();
    let binding = binding.get_binding();
    assert_eq!(binding[0], ("n".to_string(), Sexp::integer(1)))
}

#[test]
fn bind_many() {
    let pattern: Pattern = parse_sexp("(a b 1 2 c)").unwrap().1.into();
    let expr = parse_sexp("(1 2 1 2 3)").unwrap().1;
    let binding = pattern.bind(expr).unwrap();
    let binding = binding.get_binding();
    assert_eq!(binding[0], ("a".to_string(), Sexp::integer(1)));
    assert_eq!(binding[1], ("b".to_string(), Sexp::integer(2)));
    assert_eq!(binding[2], ("c".to_string(), Sexp::integer(3)));
}

#[test]
fn bind_embedded() {
    let pattern: Pattern = parse_sexp("((a b) 1 2 c)").unwrap().1.into();
    let expr = parse_sexp("((1 2) 1 2 3)").unwrap().1;
    let binding = pattern.bind(expr).unwrap();
    let binding = binding.get_binding();
    assert_eq!(binding[0], ("a".to_string(), Sexp::integer(1)));
    assert_eq!(binding[1], ("b".to_string(), Sexp::integer(2)));
    assert_eq!(binding[2], ("c".to_string(), Sexp::integer(3)));
}

#[test]
fn bind_do() {
    let pattern: Pattern = parse_sexp("('-> m cont)").unwrap().1.into();
    let expr = parse_sexp("(-> read print)").unwrap().1;
    let binding = pattern.bind(expr).unwrap();
    let binding = binding.get_binding();
    assert_eq!(binding[0], ("m".to_string(), Sexp::read()));
    assert_eq!(binding[1], ("cont".to_string(), Sexp::print()));
}

#[test]
fn match_identifier_failure() {
    let pattern: Pattern = parse_sexp("'->").unwrap().1.into();
    let expr = parse_sexp("'->").unwrap().1;
    assert!(!pattern.matches(expr))
}

#[test]
fn exhausted_match() {
    let pattern: Pattern = parse_sexp("(a)").unwrap().1.into();
    let expr = parse_sexp("(1 2)").unwrap().1;
    assert!(!pattern.matches(expr))
}
