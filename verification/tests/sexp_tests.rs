use risuppu::parse::parse_sexp;
use risuppu::sexp::{Cons, Ptr, Sexp};

#[test]
fn nil_is_nil() {
    assert!(Sexp::Nil.is_nil())
}

#[test]
fn nil_form_is_nil() {
    // Only the dedicated empty marker is nil; a pair of empty markers is a
    // pair, not the empty list.
    assert!(
        !Sexp::Form(Cons {
            car: Sexp::nil(),
            cdr: Sexp::nil()
        })
        .is_nil()
    )
}

#[test]
fn check_quoted() {
    let expr = parse_sexp("(1 2 3)").unwrap().1;
    assert!(!expr.is_quoted());
    let expr = parse_sexp("'(1 2 3)").unwrap().1;
    assert!(expr.is_quoted());
}

#[test]
fn get_quoted() {
    let expr = parse_sexp("'(1 2 3)").unwrap().1;
    assert!(expr.is_quoted());
    let expected = parse_sexp("(1 2 3)").unwrap().1;
    assert_eq!(expr.get_quoted(), Some(expected));
}

#[test]
fn get_quoted_atom() {
    let expr = parse_sexp("'a").unwrap().1;
    assert!(expr.is_quoted());
    let expected = parse_sexp("a").unwrap().1;
    assert_eq!(expr.get_quoted(), Some(expected));
}

#[test]
fn iter_nothing() {
    let expr = Sexp::from_vec(Vec::<Ptr<Sexp>>::new());
    let mut it = Sexp::iter(expr);

    assert_eq!(it.next(), None);
}

#[test]
fn iter_nil_form() {
    let expr = Sexp::Form(Cons {
        car: Sexp::nil(),
        cdr: Sexp::nil(),
    });
    let expr = Box::new(expr);
    let mut it = Sexp::iter(expr);

    assert_eq!(it.next(), Some(Sexp::nil()));
    assert_eq!(it.next(), None);
}

#[test]
fn iter_yields_in_order() {
    let expr = Sexp::from_vec(vec![Sexp::integer(1), Sexp::integer(2), Sexp::integer(3)]);
    let mut it = Sexp::iter(expr);
    assert_eq!(it.next(), Some(Sexp::integer(1)));
    assert_eq!(it.next(), Some(Sexp::integer(2)));
    assert_eq!(it.next(), Some(Sexp::integer(3)));
    assert_eq!(it.next(), None);
}

#[test]
fn pair_accessors() {
    let pair = Sexp::cons(Sexp::integer(7), Sexp::string("t"));
    assert_eq!(pair.car(), Sexp::integer(7));
    assert_eq!(pair.cdr(), Sexp::string("t"));
}

#[test]
fn from_vec_equals_built_chain() {
    let built = Sexp::cons(
        Sexp::integer(1),
        Sexp::cons(Sexp::integer(2), Sexp::nil()),
    );
    let folded = Sexp::from_vec(vec![Sexp::integer(1), Sexp::integer(2)]);
    assert_eq!(built, folded);
}

#[test]
fn to_text_shapes() {
    assert_eq!(Sexp::integer(-42).to_text(), "-42");
    assert_eq!(Sexp::integer(0).to_text(), "0");
    assert_eq!(Sexp::boolean(true).to_text(), "true");
    assert_eq!(Sexp::nil().to_text(), "()");
    let l = Sexp::from_vec(vec![Sexp::integer(1), Sexp::integer(2)]);
    assert_eq!(l.to_text(), "(1 2)");
    let dotted = Sexp::cons(Sexp::integer(1), Sexp::integer(2));
    assert_eq!(dotted.to_text(), "(1 . 2)");
}
