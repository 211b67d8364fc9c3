//! The printed form of values.
use vstd::prelude::*;
use vstd::string::StringExecFns;

use crate::sexp::{Cons, Sexp, SpecSexp};
use crate::strutil::push_char;

verus! {

/// The decimal digit character for a value below ten.
pub open spec fn digit_char(d: int) -> char {
    if d == 0 {
        '0'
    } else if d == 1 {
        '1'
    } else if d == 2 {
        '2'
    } else if d == 3 {
        '3'
    } else if d == 4 {
        '4'
    } else if d == 5 {
        '5'
    } else if d == 6 {
        '6'
    } else if d == 7 {
        '7'
    } else if d == 8 {
        '8'
    } else {
        '9'
    }
}

/// Decimal text of a natural number, most significant digit first.
pub open spec fn dec_text(n: nat) -> Seq<char>
    decreases n,
{
    if n < 10 {
        seq![digit_char(n as int)]
    } else {
        dec_text(n / 10).push(digit_char((n % 10) as int))
    }
}

/// Decimal text of a signed 32-bit integer.
pub open spec fn i32_text(n: int) -> Seq<char> {
    if n < 0 {
        seq!['-'] + dec_text((-n) as nat)
    } else {
        dec_text(n as nat)
    }
}

/// The printed form of a value: keywords by their names, literals in their
/// source shape, pairs as parenthesized lists with a dot before an improper
/// tail.
pub open spec fn text_of(v: SpecSexp) -> Seq<char>
    decreases v, 1int,
{
    match v {
        SpecSexp::Read => "read"@,
        SpecSexp::Print => "print"@,
        SpecSexp::If => "if"@,
        SpecSexp::EqKw => "eq"@,
        SpecSexp::Quote => "quote"@,
        SpecSexp::ConsKw => "cons"@,
        SpecSexp::CarKw => "car"@,
        SpecSexp::CdrKw => "cdr"@,
        SpecSexp::Lambda => "lambda"@,
        SpecSexp::Captured(_) => "lambda"@,
        SpecSexp::Macro => "macro"@,
        SpecSexp::Native(_, _) => "rustfn"@,
        SpecSexp::EvalKw => "eval"@,
        SpecSexp::Define => "define"@,
        SpecSexp::Provide => "provide"@,
        SpecSexp::Require => "require"@,
        SpecSexp::Nil => "()"@,
        SpecSexp::I32(n) => i32_text(n as int),
        SpecSexp::Char(c) => seq!['\''] + seq![c] + seq!['\''],
        SpecSexp::SString(s) => seq!['"'] + s + seq!['"'],
        SpecSexp::Bool(b) => if b {
            "true"@
        } else {
            "false"@
        },
        SpecSexp::Identifier(s) => s,
        SpecSexp::Form(_, _) => seq!['('] + pair_text(v) + seq![')'],
    }
}

/// The interior of a printed pair: elements separated by spaces, and a dotted
/// tail when the list is improper.
pub open spec fn pair_text(v: SpecSexp) -> Seq<char>
    decreases v, 0int,
{
    match v {
        SpecSexp::Form(a, d) => match *d {
            SpecSexp::Form(_, _) => text_of(*a) + seq![' '] + pair_text(*d),
            SpecSexp::Nil => text_of(*a),
            _ => text_of(*a) + seq![' ', '.', ' '] + text_of(*d),
        },
        _ => Seq::empty(),
    }
}

/// Append the decimal text of a 32-bit magnitude.
fn push_dec(out: &mut String, m: u32)
    ensures
        final(out)@ == old(out)@ + dec_text(m as nat),
{
    let mut digits: Vec<char> = Vec::new();
    let mut x = m;
    loop
        invariant_except_break
            dec_text(m as nat) == dec_text(x as nat) + digits@.reverse(),
        ensures
            dec_text(m as nat) == digits@.reverse(),
        decreases x,
    {
        let d = x % 10;
        let dc: char = match d {
            0 => '0',
            1 => '1',
            2 => '2',
            3 => '3',
            4 => '4',
            5 => '5',
            6 => '6',
            7 => '7',
            8 => '8',
            _ => '9',
        };
        proof {
            assert(dc == digit_char(d as int));
        }
        let ghost digits0 = digits@;
        digits.push(dc);
        proof {
            assert(digits@.reverse() =~= seq![dc] + digits0.reverse());
        }
        let ghost x0 = x;
        x = x / 10;
        if x == 0 {
            proof {
                assert(dec_text(x0 as nat) =~= seq![dc]);
                assert(dec_text(m as nat) =~= digits@.reverse());
            }
            break ;
        }
        proof {
            assert(dec_text(x0 as nat) =~= dec_text(x as nat).push(dc));
            assert(dec_text(x as nat) + digits0.reverse() + seq![dc] =~= dec_text(x as nat) + (
            digits0.reverse() + seq![dc]));
            assert(dec_text(x0 as nat) + digits0.reverse() =~= dec_text(x as nat)
                + digits@.reverse());
            assert(dec_text(m as nat) =~= dec_text(x as nat) + digits@.reverse());
        }
    }
    let n = digits.len();
    let mut i: usize = n;
    while i > 0
        invariant
            n == digits@.len(),
            i <= n,
            out@ == old(out)@ + digits@.reverse().subrange(0, (n - i) as int),
        decreases i,
    {
        i = i - 1;
        push_char(out, digits[i]);
        proof {
            assert(digits@.reverse()[(n - i - 1) as int] == digits@[i as int]);
            assert(out@ =~= old(out)@ + digits@.reverse().subrange(0, (n - i) as int));
        }
    }
    proof {
        assert(digits@.reverse().subrange(0, n as int) =~= digits@.reverse());
        assert(out@ =~= old(out)@ + dec_text(m as nat));
    }
}

/// Append the decimal text of a signed 32-bit integer.
fn push_i32(out: &mut String, n: i32)
    ensures
        final(out)@ == old(out)@ + i32_text(n as int),
{
    if n < 0 {
        push_char(out, '-');
        let m = (-(n as i64)) as u32;
        push_dec(out, m);
        proof {
            assert(out@ =~= old(out)@ + i32_text(n as int));
        }
    } else {
        let m = n as u32;
        push_dec(out, m);
    }
}

impl Sexp {
    /// The printed form of this value.
    pub fn to_text(&self) -> (r: String)
        ensures
            r@ == text_of(self@),
        decreases self, 1int,
    {
        match self {
            Sexp::Read => String::from_str("read"),
            Sexp::Print => String::from_str("print"),
            Sexp::If => String::from_str("if"),
            Sexp::Eq => String::from_str("eq"),
            Sexp::Quote => String::from_str("quote"),
            Sexp::Cons => String::from_str("cons"),
            Sexp::Car => String::from_str("car"),
            Sexp::Cdr => String::from_str("cdr"),
            Sexp::Lambda => String::from_str("lambda"),
            Sexp::CapturedLambda(_) => String::from_str("lambda"),
            Sexp::Macro => String::from_str("macro"),
            Sexp::RustFn(_) => String::from_str("rustfn"),
            Sexp::Eval => String::from_str("eval"),
            Sexp::Define => String::from_str("define"),
            Sexp::Provide => String::from_str("provide"),
            Sexp::Require => String::from_str("require"),
            Sexp::Nil => String::from_str("()"),
            Sexp::I32(n) => {
                let mut s = String::new();
                push_i32(&mut s, *n);
                s
            },
            Sexp::Char(c) => {
                let mut s = String::new();
                push_char(&mut s, '\'');
                push_char(&mut s, *c);
                push_char(&mut s, '\'');
                proof {
                    assert(s@ =~= text_of(self@));
                }
                s
            },
            Sexp::SString(inner) => {
                let mut s = String::new();
                push_char(&mut s, '"');
                s.append(inner.as_str());
                push_char(&mut s, '"');
                proof {
                    assert(s@ =~= text_of(self@));
                }
                s
            },
            Sexp::Bool(b) => {
                if *b {
                    String::from_str("true")
                } else {
                    String::from_str("false")
                }
            },
            Sexp::Identifier(inner) => inner.clone(),
            Sexp::Form(c) => {
                let mut s = String::new();
                push_char(&mut s, '(');
                let inner = pair_to_text(c);
                s.append(inner.as_str());
                push_char(&mut s, ')');
                proof {
                    assert(s@ =~= text_of(self@));
                }
                s
            },
        }
    }
}

/// The printed interior of a pair node.
fn pair_to_text(c: &Cons) -> (r: String)
    ensures
        r@ == pair_text(SpecSexp::Form(
            Box::new(crate::sexp::view_of(*c.car)),
            Box::new(crate::sexp::view_of(*c.cdr)),
        )),
    decreases c, 0int,
{
    match &*c.cdr {
        Sexp::Form(d) => {
            let mut s = c.car.to_text();
            push_char(&mut s, ' ');
            let tail = pair_to_text(d);
            s.append(tail.as_str());
            s
        },
        Sexp::Nil => c.car.to_text(),
        _ => {
            let mut s = c.car.to_text();
            push_char(&mut s, ' ');
            push_char(&mut s, '.');
            push_char(&mut s, ' ');
            let tail = c.cdr.to_text();
            s.append(tail.as_str());
            s
        },
    }
}

} // verus!
