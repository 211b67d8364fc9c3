//! The reader: parenthesized lists, the quote shorthand, string literals
//! with escape processing, characters, booleans, integers and identifiers.
use vstd::prelude::*;
use vstd::string::StringExecFns;

use crate::sexp::{Ptr, Sexp, SpecSexp};
use crate::strutil::{chars_of, string_of};

verus! {

/// What the unescape routine of the `unescaper` crate returns for a given
/// input: the text with escape sequences replaced, or nothing when the input
/// is malformed. The result depends on the characters alone.
pub uninterp spec fn unescape_of(s: Seq<char>) -> Option<Seq<char>>;

/// Relies on unescaper::unescape: rewrites escape sequences written out as
/// literal characters; text without a backslash comes back unchanged.
#[verifier::external_body]
pub(crate) fn unescape(s: &str) -> (r: Option<String>)
    ensures
        match r {
            Some(u) => unescape_of(s@) == Some(u@),
            None => unescape_of(s@) is None,
        },
{
    unescaper::unescape(s).ok()
}

/// A separator character: space, tab or newline.
pub open spec fn is_ws(c: char) -> bool {
    c == ' ' || c == '\t' || c == '\n'
}

/// Index of the first newline at or after `i`, or the length.
pub open spec fn find_nl(s: Seq<char>, i: int) -> int
    decreases s.len() - i,
{
    if i < 0 || i >= s.len() {
        s.len() as int
    } else if s[i] == '\n' {
        i
    } else {
        find_nl(s, i + 1)
    }
}

/// Index of the first closing double quote at or after `i`, or the length.
pub open spec fn find_quote(s: Seq<char>, i: int) -> int
    decreases s.len() - i,
{
    if i < 0 || i >= s.len() {
        s.len() as int
    } else if s[i] == '"' {
        i
    } else {
        find_quote(s, i + 1)
    }
}

/// A `;;` line comment starts at `i`.
pub open spec fn comment_at(s: Seq<char>, i: int) -> bool {
    0 <= i && i + 1 < s.len() && s[i] == ';' && s[i + 1] == ';'
}

/// Index after the separators (whitespace and line comments) from `i` on.
pub open spec fn sk(s: Seq<char>, i: int) -> int
    decreases s.len() - i,
{
    if i < 0 || i >= s.len() {
        i
    } else if is_ws(s[i]) {
        sk(s, i + 1)
    } else if comment_at(s, i) {
        let j = find_nl(s, i + 2);
        let j = if j < i + 2 {
            i + 2
        } else {
            j
        };
        if j < s.len() {
            sk(s, j + 1)
        } else {
            s.len() as int
        }
    } else {
        i
    }
}

/// End of the token that starts at `i`: the first separator, closing
/// parenthesis, comment start, or the end of input.
pub open spec fn token_end(s: Seq<char>, i: int) -> int
    decreases s.len() - i,
{
    if i < 0 || i >= s.len() {
        s.len() as int
    } else if is_ws(s[i]) || s[i] == ')' || comment_at(s, i) {
        i
    } else {
        token_end(s, i + 1)
    }
}

pub proof fn lemma_sk_bounds(s: Seq<char>, i: int)
    requires
        0 <= i <= s.len(),
    ensures
        i <= sk(s, i) <= s.len(),
    decreases s.len() - i,
{
    if i < s.len() {
        if is_ws(s[i]) {
            lemma_sk_bounds(s, i + 1);
        } else if comment_at(s, i) {
            lemma_find_nl_bounds(s, i + 2);
            let j = find_nl(s, i + 2);
            if j < s.len() {
                lemma_sk_bounds(s, j + 1);
            }
        }
    }
}

pub proof fn lemma_find_nl_bounds(s: Seq<char>, i: int)
    requires
        0 <= i <= s.len(),
    ensures
        i <= find_nl(s, i) <= s.len(),
    decreases s.len() - i,
{
    if i < s.len() && s[i] != '\n' {
        lemma_find_nl_bounds(s, i + 1);
    }
}

pub proof fn lemma_token_end_bounds(s: Seq<char>, i: int)
    requires
        0 <= i <= s.len(),
    ensures
        i <= token_end(s, i) <= s.len(),
    decreases s.len() - i,
{
    if i < s.len() && !(is_ws(s[i]) || s[i] == ')' || comment_at(s, i)) {
        lemma_token_end_bounds(s, i + 1);
    }
}

/// Whether every character of the text is a decimal digit.
pub open spec fn all_digits(t: Seq<char>) -> bool {
    forall|k: int| 0 <= k < t.len() ==> '0' <= #[trigger] t[k] <= '9'
}

/// The value of a digit string, most significant digit first.
pub open spec fn dec_val(t: Seq<char>) -> int
    decreases t.len(),
{
    if t.len() == 0 {
        0
    } else {
        dec_val(t.drop_last()) * 10 + (t.last() as u32 - 48)
    }
}

/// The 32-bit integer a token denotes, if any: an optional sign, then one or
/// more digits, with a value in range.
pub open spec fn int_token_val(t: Seq<char>) -> Option<i32> {
    let neg = t.len() > 0 && t[0] == '-';
    let signed = t.len() > 0 && (t[0] == '-' || t[0] == '+');
    let ds = if signed {
        t.drop_first()
    } else {
        t
    };
    if ds.len() == 0 || !all_digits(ds) {
        None
    } else {
        let v = dec_val(ds);
        if neg {
            if v <= 2147483648 {
                Some((-v) as i32)
            } else {
                None
            }
        } else {
            if v <= 2147483647 {
                Some(v as i32)
            } else {
                None
            }
        }
    }
}

/// The atom a token denotes: a keyword by its exact name, a boolean, a
/// character literal, an integer, else an identifier.
pub open spec fn classify_token(t: Seq<char>) -> SpecSexp {
    if t == "read"@ {
        SpecSexp::Read
    } else if t == "print"@ {
        SpecSexp::Print
    } else if t == "if"@ {
        SpecSexp::If
    } else if t == "eq"@ {
        SpecSexp::EqKw
    } else if t == "quote"@ {
        SpecSexp::Quote
    } else if t == "cons"@ {
        SpecSexp::ConsKw
    } else if t == "car"@ {
        SpecSexp::CarKw
    } else if t == "cdr"@ {
        SpecSexp::CdrKw
    } else if t == "lambda"@ {
        SpecSexp::Lambda
    } else if t == "macro"@ {
        SpecSexp::Macro
    } else if t == "eval"@ {
        SpecSexp::EvalKw
    } else if t == "define"@ {
        SpecSexp::Define
    } else if t == "provide"@ {
        SpecSexp::Provide
    } else if t == "require"@ {
        SpecSexp::Require
    } else if t == "#t"@ {
        SpecSexp::Bool(true)
    } else if t == "#f"@ {
        SpecSexp::Bool(false)
    } else if t.len() == 3 && t[0] == '#' && t[1] == '\\' {
        SpecSexp::Char(t[2])
    } else if int_token_val(t) is Some {
        SpecSexp::I32(int_token_val(t).unwrap())
    } else {
        SpecSexp::Identifier(t)
    }
}

/// The string value of a literal's contents, after escape processing; a
/// malformed escape degrades to a fixed marker text.
pub open spec fn string_value(content: Seq<char>) -> SpecSexp {
    match unescape_of(content) {
        Some(u) => SpecSexp::SString(u),
        None => SpecSexp::SString("ERROR when unescaping"@),
    }
}

/// One parsed object starting at `i` (after leading separators): a
/// parenthesized list, a quote shorthand, a string literal, or an atom token.
/// Returns the value and the index after it and its trailing separators.
pub open spec fn spec_object(s: Seq<char>, i: int) -> Result<(SpecSexp, int), ()>
    decreases s.len() - i, 1int,
{
    let i1 = sk(s, i);
    let i1 = if i1 < i {
        i
    } else {
        i1
    };
    if i1 >= s.len() {
        Err(())
    } else if s[i1] == '(' {
        match spec_list(s, i1 + 1) {
            Err(e) => Err(e),
            Ok((v, j)) => if j < s.len() && s[j] == ')' {
                Ok((v, sk(s, j + 1)))
            } else {
                Err(())
            },
        }
    } else if s[i1] == '\'' {
        match spec_object(s, i1 + 1) {
            Err(e) => Err(e),
            Ok((v, j)) => Ok(
                (
                    SpecSexp::Form(
                        Box::new(SpecSexp::Quote),
                        Box::new(SpecSexp::Form(Box::new(v), Box::new(SpecSexp::Nil))),
                    ),
                    j,
                ),
            ),
        }
    } else if s[i1] == '"' {
        let k = find_quote(s, i1 + 1);
        if k >= s.len() {
            Err(())
        } else {
            Ok((string_value(s.subrange(i1 + 1, k)), sk(s, k + 1)))
        }
    } else {
        let j = token_end(s, i1);
        if j <= i1 {
            Err(())
        } else {
            Ok((classify_token(s.subrange(i1, j)), sk(s, j)))
        }
    }
}

/// The elements of a list, up to the closing parenthesis, as a proper list.
/// Returns the list and the index of the closing parenthesis.
pub open spec fn spec_list(s: Seq<char>, i: int) -> Result<(SpecSexp, int), ()>
    decreases s.len() - i, 2int,
{
    let i1 = sk(s, i);
    let i1 = if i1 < i {
        i
    } else {
        i1
    };
    if i1 >= s.len() {
        Err(())
    } else if s[i1] == ')' {
        Ok((SpecSexp::Nil, i1))
    } else {
        match spec_object(s, i1) {
            Err(e) => Err(e),
            Ok((v, i2)) => if i2 <= i1 || i2 > s.len() {
                Err(())
            } else {
                match spec_list(s, i2) {
                    Err(e) => Err(e),
                    Ok((rest, j)) => Ok((SpecSexp::Form(Box::new(v), Box::new(rest)), j)),
                }
            },
        }
    }
}

/// Parsing failed: the input was malformed at some point, and the remaining
/// input of this call is abandoned.
#[derive(Debug)]
pub struct ParseError;

/// Skip separators.
fn skip_seps(s: &Vec<char>, i: usize) -> (r: usize)
    requires
        i <= s@.len(),
    ensures
        r == sk(s@, i as int),
        i <= r <= s@.len(),
    decreases s@.len() - i,
{
    proof {
        lemma_sk_bounds(s@, i as int);
    }
    if i >= s.len() {
        i
    } else {
        let c = s[i];
        if c == ' ' || c == '\t' || c == '\n' {
            skip_seps(s, i + 1)
        } else if c == ';' && i + 1 < s.len() && s[i + 1] == ';' {
            let j = exec_find_nl(s, i + 2);
            if j < s.len() {
                skip_seps(s, j + 1)
            } else {
                s.len()
            }
        } else {
            i
        }
    }
}

/// Find the next newline.
fn exec_find_nl(s: &Vec<char>, i: usize) -> (r: usize)
    requires
        i <= s@.len(),
    ensures
        r == find_nl(s@, i as int),
        i <= r <= s@.len(),
    decreases s@.len() - i,
{
    proof {
        lemma_find_nl_bounds(s@, i as int);
    }
    if i >= s.len() {
        s.len()
    } else if s[i] == '\n' {
        i
    } else {
        exec_find_nl(s, i + 1)
    }
}

/// Find the next closing quote.
fn exec_find_quote(s: &Vec<char>, i: usize) -> (r: usize)
    requires
        i <= s@.len(),
    ensures
        r == find_quote(s@, i as int),
        i <= r <= s@.len(),
    decreases s@.len() - i,
{
    proof {
        lemma_find_quote_bounds(s@, i as int);
    }
    if i >= s.len() {
        s.len()
    } else if s[i] == '"' {
        i
    } else {
        exec_find_quote(s, i + 1)
    }
}

pub proof fn lemma_find_quote_bounds(s: Seq<char>, i: int)
    requires
        0 <= i <= s.len(),
    ensures
        i <= find_quote(s, i) <= s.len(),
    decreases s.len() - i,
{
    if i < s.len() && s[i] != '"' {
        lemma_find_quote_bounds(s, i + 1);
    }
}

/// Find the end of the token starting at `i`.
fn exec_token_end(s: &Vec<char>, i: usize) -> (r: usize)
    requires
        i <= s@.len(),
    ensures
        r == token_end(s@, i as int),
        i <= r <= s@.len(),
    decreases s@.len() - i,
{
    proof {
        lemma_token_end_bounds(s@, i as int);
    }
    if i >= s.len() {
        s.len()
    } else {
        let c = s[i];
        if c == ' ' || c == '\t' || c == '\n' || c == ')' || (c == ';' && i + 1 < s.len() && s[i
            + 1] == ';') {
            i
        } else {
            exec_token_end(s, i + 1)
        }
    }
}

/// Copy a character range into a fresh vector.
fn subvec(s: &Vec<char>, from: usize, to: usize) -> (r: Vec<char>)
    requires
        from <= to <= s@.len(),
    ensures
        r@ == s@.subrange(from as int, to as int),
{
    let mut r: Vec<char> = Vec::new();
    let mut k = from;
    while k < to
        invariant
            from <= k <= to <= s@.len(),
            r@ == s@.subrange(from as int, k as int),
        decreases to - k,
    {
        r.push(s[k]);
        proof {
            assert(r@ =~= s@.subrange(from as int, k + 1));
        }
        k = k + 1;
    }
    proof {
        assert(r@ =~= s@.subrange(from as int, to as int));
    }
    r
}

/// The integer value of the token, if the token is an in-range integer.
fn exec_int_token(s: &Vec<char>, from: usize, to: usize) -> (r: Option<i32>)
    requires
        from <= to <= s@.len(),
    ensures
        r == int_token_val(s@.subrange(from as int, to as int)),
{
    let ghost t = s@.subrange(from as int, to as int);
    if from >= to {
        return None;
    }
    let c0 = s[from];
    let neg = c0 == '-';
    let signed = c0 == '-' || c0 == '+';
    let dstart = if signed {
        from + 1
    } else {
        from
    };
    let ghost ds = if signed {
        t.drop_first()
    } else {
        t
    };
    proof {
        assert(t[0] == s@[from as int]);
        assert(ds =~= s@.subrange(dstart as int, to as int));
    }
    if dstart >= to {
        return None;
    }
    let mut a: u64 = 0;
    let mut k = dstart;
    while k < to
        invariant
            dstart <= k <= to <= s@.len(),
            from <= dstart,
            t == s@.subrange(from as int, to as int),
            t.len() > 0,
            signed == (t[0] == '-' || t[0] == '+'),
            neg == (t[0] == '-'),
            dstart == if signed { from + 1 } else { from as int },
            ds == if signed { t.drop_first() } else { t },
            ds == s@.subrange(dstart as int, to as int),
            forall|m: int| dstart <= m < k ==> '0' <= #[trigger] s@[m] <= '9',
            a == if dec_val(s@.subrange(dstart as int, k as int)) <= 2147483649 {
                dec_val(s@.subrange(dstart as int, k as int))
            } else {
                2147483649
            },
        decreases to - k,
    {
        let c = s[k];
        if !(c >= '0' && c <= '9') {
            proof {
                assert(ds[k - dstart] == s@[k as int]);
                assert(!all_digits(ds));
            }
            return None;
        }
        let d = (c as u32) - 48;
        let ghost pre = s@.subrange(dstart as int, k as int);
        a = a * 10 + (d as u64);
        if a > 2147483649 {
            a = 2147483649;
        }
        proof {
            assert(s@.subrange(dstart as int, k + 1).drop_last() =~= pre);
            assert(dec_val(s@.subrange(dstart as int, k + 1)) == dec_val(pre) * 10 + d);
        }
        k = k + 1;
    }
    proof {
        assert(s@.subrange(dstart as int, to as int) =~= ds);
        assert(forall|m: int| 0 <= m < ds.len() ==> ds[m] == s@[dstart + m]);
        assert(all_digits(ds));
    }
    if neg {
        if a <= 2147483648 {
            Some((-(a as i64)) as i32)
        } else {
            None
        }
    } else {
        if a <= 2147483647 {
            Some(a as i32)
        } else {
            None
        }
    }
}

/// Turn a token into its atom.
fn exec_classify(s: &Vec<char>, from: usize, to: usize) -> (r: Ptr<Sexp>)
    requires
        from < to <= s@.len(),
    ensures
        r@ == classify_token(s@.subrange(from as int, to as int)),
{
    let ghost t = s@.subrange(from as int, to as int);
    let tv = subvec(s, from, to);
    let tok = string_of(&tv);
    if tok == String::from_str("read") {
        Sexp::read()
    } else if tok == String::from_str("print") {
        Sexp::print()
    } else if tok == String::from_str("if") {
        Sexp::if_token()
    } else if tok == String::from_str("eq") {
        Sexp::eq()
    } else if tok == String::from_str("quote") {
        Sexp::quote()
    } else if tok == String::from_str("cons") {
        Sexp::wrap(Sexp::Cons)
    } else if tok == String::from_str("car") {
        Sexp::car_token()
    } else if tok == String::from_str("cdr") {
        Sexp::cdr_token()
    } else if tok == String::from_str("lambda") {
        Sexp::lambda()
    } else if tok == String::from_str("macro") {
        Sexp::macro_token()
    } else if tok == String::from_str("eval") {
        Sexp::eval()
    } else if tok == String::from_str("define") {
        Sexp::define()
    } else if tok == String::from_str("provide") {
        Sexp::provide()
    } else if tok == String::from_str("require") {
        Sexp::require()
    } else if tok == String::from_str("#t") {
        Sexp::boolean(true)
    } else if tok == String::from_str("#f") {
        Sexp::boolean(false)
    } else if to - from == 3 && tv[0] == '#' && tv[1] == '\\' {
        Sexp::character(tv[2])
    } else {
        match exec_int_token(s, from, to) {
            Some(n) => Sexp::integer(n),
            None => Box::new(Sexp::Identifier(tok)),
        }
    }
}

/// Parse one object.
fn parse_object(s: &Vec<char>, i: usize) -> (r: Result<(Ptr<Sexp>, usize), ParseError>)
    requires
        i <= s@.len(),
    ensures
        match r {
            Ok((v, j)) => spec_object(s@, i as int) matches Ok((sv, sj)) && v@ == sv && j == sj
                && i <= j <= s@.len(),
            Err(_) => spec_object(s@, i as int) is Err,
        },
    decreases s@.len() - i, 1int,
{
    let i1 = skip_seps(s, i);
    if i1 >= s.len() {
        return Err(ParseError);
    }
    let c = s[i1];
    if c == '(' {
        match parse_list(s, i1 + 1) {
            Err(e) => Err(e),
            Ok((v, j)) => {
                if j < s.len() && s[j] == ')' {
                    Ok((v, skip_seps(s, j + 1)))
                } else {
                    Err(ParseError)
                }
            },
        }
    } else if c == '\'' {
        match parse_object(s, i1 + 1) {
            Err(e) => Err(e),
            Ok((v, j)) => Ok((Sexp::cons(Sexp::quote(), Sexp::cons(v, Sexp::nil())), j)),
        }
    } else if c == '"' {
        let k = exec_find_quote(s, i1 + 1);
        if k >= s.len() {
            Err(ParseError)
        } else {
            let content = subvec(s, i1 + 1, k);
            let content_str = string_of(&content);
            let value = match unescape(content_str.as_str()) {
                Some(u) => Sexp::wrap(Sexp::SString(u)),
                None => Sexp::string("ERROR when unescaping"),
            };
            Ok((value, skip_seps(s, k + 1)))
        }
    } else {
        let j = exec_token_end(s, i1);
        if j <= i1 {
            Err(ParseError)
        } else {
            Ok((exec_classify(s, i1, j), skip_seps(s, j)))
        }
    }
}

/// Parse list elements up to the closing parenthesis.
fn parse_list(s: &Vec<char>, i: usize) -> (r: Result<(Ptr<Sexp>, usize), ParseError>)
    requires
        i <= s@.len(),
    ensures
        match r {
            Ok((v, j)) => spec_list(s@, i as int) matches Ok((sv, sj)) && v@ == sv && j == sj && i
                <= j <= s@.len(),
            Err(_) => spec_list(s@, i as int) is Err,
        },
    decreases s@.len() - i, 2int,
{
    let i1 = skip_seps(s, i);
    if i1 >= s.len() {
        return Err(ParseError);
    }
    if s[i1] == ')' {
        return Ok((Sexp::nil(), i1));
    }
    match parse_object(s, i1) {
        Err(e) => Err(e),
        Ok((v, i2)) => {
            if i2 <= i1 {
                Err(ParseError)
            } else {
                match parse_list(s, i2) {
                    Err(e) => Err(e),
                    Ok((rest, j)) => Ok((Sexp::cons(v, rest), j)),
                }
            }
        },
    }
}

/// Parse the first expression of the input. On success, the result holds the
/// remaining input after the expression and its trailing separators, and the
/// parsed tree; the remaining input of a malformed call is abandoned.
pub fn parse_sexp(input: &str) -> (r: Result<(String, Ptr<Sexp>), ParseError>)
    ensures
        match r {
            Ok((rest, v)) => spec_object(input@, 0) matches Ok((sv, sj)) && v@ == sv && 0 <= sj
                <= input@.len() && rest@ == input@.skip(sj),
            Err(_) => spec_object(input@, 0) is Err,
        },
{
    let chars = chars_of(input);
    match parse_object(&chars, 0) {
        Err(e) => Err(e),
        Ok((v, j)) => {
            let restv = subvec(&chars, j, chars.len());
            let rest = string_of(&restv);
            proof {
                assert(rest@ =~= input@.skip(spec_object(input@, 0).unwrap().1));
            }
            Ok((rest, v))
        },
    }
}

} // verus!
