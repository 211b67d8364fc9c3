use risuppu::parse::parse_sexp;
use risuppu::sexp::Sexp;

#[test]
fn parse_keyword() {
    assert_eq!(parse_sexp("read").unwrap().1, Sexp::wrap(Sexp::Read));
    assert_eq!(parse_sexp("print").unwrap().1, Sexp::wrap(Sexp::Print));
    assert_eq!(parse_sexp("if").unwrap().1, Sexp::wrap(Sexp::If));
    assert_eq!(parse_sexp("eq").unwrap().1, Sexp::wrap(Sexp::Eq));
    assert_eq!(parse_sexp("quote").unwrap().1, Sexp::wrap(Sexp::Quote));
    assert_eq!(parse_sexp("cons").unwrap().1, Sexp::wrap(Sexp::Cons));
    assert_eq!(parse_sexp("car").unwrap().1, Sexp::wrap(Sexp::Car));
    assert_eq!(parse_sexp("cdr").unwrap().1, Sexp::wrap(Sexp::Cdr));
    assert_eq!(parse_sexp("lambda").unwrap().1, Sexp::wrap(Sexp::Lambda));
    assert_eq!(parse_sexp("macro").unwrap().1, Sexp::wrap(Sexp::Macro));
    assert_eq!(parse_sexp("eval").unwrap().1, Sexp::wrap(Sexp::Eval));
    assert_eq!(parse_sexp("define").unwrap().1, Sexp::wrap(Sexp::Define));
    assert_eq!(parse_sexp("provide").unwrap().1, Sexp::wrap(Sexp::Provide));
    assert_eq!(parse_sexp("require").unwrap().1, Sexp::wrap(Sexp::Require));
}

#[test]
fn parse_list() {
    assert_eq!(
        parse_sexp("(read)").unwrap().1,
        Sexp::cons(Sexp::wrap(Sexp::Read), Sexp::nil())
    );
    assert_eq!(
        parse_sexp("(read read)").unwrap().1,
        Sexp::cons(
            Sexp::wrap(Sexp::Read),
            Sexp::cons(Sexp::wrap(Sexp::Read), Sexp::nil())
        )
    );
    assert_eq!(
        parse_sexp("(read read read)").unwrap().1,
        Sexp::cons(
            Sexp::wrap(Sexp::Read),
            Sexp::cons(
                Sexp::wrap(Sexp::Read),
                Sexp::cons(Sexp::wrap(Sexp::Read), Sexp::nil())
            )
        )
    );
}

#[test]
fn parse_ident() {
    assert_eq!(
        parse_sexp("(this-is-a-ident)").unwrap().1,
        Sexp::cons(
            Sexp::wrap(Sexp::Identifier("this-is-a-ident".to_string())),
            Sexp::nil()
        )
    );
    assert_eq!(
        parse_sexp("(ident ident ident)").unwrap().1,
        Sexp::cons(
            Sexp::wrap(Sexp::Identifier("ident".to_string())),
            Sexp::cons(
                Sexp::wrap(Sexp::Identifier("ident".to_string())),
                Sexp::cons(
                    Sexp::wrap(Sexp::Identifier("ident".to_string())),
                    Sexp::nil()
                )
            )
        )
    );
    assert_eq!(
        parse_sexp("ident").unwrap().1,
        Sexp::wrap(Sexp::Identifier("ident".to_string()))
    );
}

#[test]
fn parse_sstring() {
    assert_eq!(
        parse_sexp("(\"test\")").unwrap().1,
        Sexp::cons(Sexp::wrap(Sexp::SString("test".to_string())), Sexp::nil())
    );
    assert_eq!(
        parse_sexp("(\"test\" \"test\" \"test\")").unwrap().1,
        Sexp::cons(
            Sexp::wrap(Sexp::SString("test".to_string())),
            Sexp::cons(
                Sexp::wrap(Sexp::SString("test".to_string())),
                Sexp::cons(Sexp::wrap(Sexp::SString("test".to_string())), Sexp::nil())
            )
        )
    );
    assert_eq!(
        parse_sexp("\"test\"").unwrap().1,
        Sexp::wrap(Sexp::SString("test".to_string()))
    );
}

#[test]
fn parse_nested() {
    assert_eq!(
        parse_sexp("(lambda (a) (a))").unwrap().1,
        Sexp::cons(
            Sexp::wrap(Sexp::Lambda),
            Sexp::cons(
                Sexp::cons(Sexp::wrap(Sexp::Identifier("a".to_string())), Sexp::nil()),
                Sexp::cons(
                    Sexp::cons(Sexp::wrap(Sexp::Identifier("a".to_string())), Sexp::nil()),
                    Sexp::nil()
                )
            )
        )
    )
}

#[test]
fn parse_trailing_comment() {
    let expr = parse_sexp("(test ;; This is comment\n test)").unwrap().1;
    let expected = Sexp::from_vec(vec![Sexp::identifier("test"), Sexp::identifier("test")]);
    assert_eq!(expr, expected);
}

#[test]
fn parse_line_comment() {
    let expr = parse_sexp(";; This is comment\n(test test)").unwrap().1;
    let expected = Sexp::from_vec(vec![Sexp::identifier("test"), Sexp::identifier("test")]);
    assert_eq!(expr, expected);
}

#[test]
fn parse_literals() {
    assert_eq!(parse_sexp("#t").unwrap().1, Sexp::boolean(true));
    assert_eq!(parse_sexp("#f").unwrap().1, Sexp::boolean(false));
    assert_eq!(parse_sexp("#\\c").unwrap().1, Sexp::character('c'));
    assert_eq!(parse_sexp("42").unwrap().1, Sexp::integer(42));
    assert_eq!(parse_sexp("-17").unwrap().1, Sexp::integer(-17));
    assert_eq!(parse_sexp("2147483647").unwrap().1, Sexp::integer(2147483647));
    assert_eq!(
        parse_sexp("-2147483648").unwrap().1,
        Sexp::integer(-2147483648)
    );
    // An out-of-range number is an identifier.
    assert_eq!(
        parse_sexp("2147483648").unwrap().1,
        Sexp::identifier("2147483648")
    );
}

#[test]
fn parse_remaining_input() {
    let (rest, v) = parse_sexp("a b").unwrap();
    assert_eq!(v, Sexp::identifier("a"));
    assert_eq!(rest, "b");
}

#[test]
fn parse_errors() {
    assert!(parse_sexp("").is_err());
    assert!(parse_sexp("(a").is_err());
    assert!(parse_sexp("\"open").is_err());
    assert!(parse_sexp(")").is_err());
}

#[test]
fn parse_string_escape() {
    let v = parse_sexp("\"a\\nb\"").unwrap().1;
    assert_eq!(v, Sexp::string("a\nb"));
}
