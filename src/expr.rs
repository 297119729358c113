use vstd::prelude::*;

use crate::text::text_is;
use crate::tokens::{is_keyword, keyword, push_toks, render, toks_view, Delim, Tok, TokV};

verus! {

/// Whether `s` is one of the keywords after which an expression must follow.
pub open spec fn expr_keyword(s: Seq<char>) -> bool {
    ||| s == "break"@
    ||| s == "continue"@
    ||| s == "if"@
    ||| s == "in"@
    ||| s == "match"@
    ||| s == "mut"@
    ||| s == "return"@
    ||| s == "while"@
}

/// Whether `c` starts an operator or separator after which an expression
/// must follow.
pub open spec fn expr_operator(c: char) -> bool {
    ||| c == '+'
    ||| c == '&'
    ||| c == '!'
    ||| c == '^'
    ||| c == ','
    ||| c == '/'
    ||| c == '='
    ||| c == '>'
    ||| c == '<'
    ||| c == '|'
    ||| c == '%'
    ||| c == ';'
    ||| c == '*'
    ||| c == '-'
}

/// Whether an expression starts right after token `t`: after an operator,
/// a separator or a control keyword, and at the start of a group.
pub open spec fn begins_after(t: TokV) -> bool {
    match t {
        TokV::Ident(s) => expr_keyword(s),
        TokV::Punct(c, _) => expr_operator(c),
        TokV::Lit(_) => false,
        TokV::Open(_) => true,
        TokV::Close(_) => false,
    }
}

/// At a placeholder `.` in position `i`: `Some(alone)`, where `alone` says
/// that nothing is to be attached after the field read; `None` where the
/// token at `i` is no placeholder.
pub open spec fn dot_kind(t: Seq<TokV>, i: int) -> Option<bool> {
    if !(0 <= i < t.len() && t[i] == TokV::Punct('.', t[i]->Punct_1)) {
        None
    } else if i + 1 == t.len() || t[i + 1] is Close {
        // a lone `.`
        Some(true)
    } else if t[i + 1] == TokV::Ident("as"@) {
        // `. as i64`
        Some(true)
    } else if t[i + 1] is Ident && !is_keyword(t[i + 1]->Ident_0) {
        // `.to_string()`; a keyword is no method or field name
        Some(false)
    } else if t[i + 1] matches TokV::Open(d) && d != Delim::Quote {
        // `. (..)`, `. {..}`, `. [..]`
        Some(true)
    } else {
        None
    }
}

/// The qualified read of field `field` off the source record.
pub open spec fn field_read(field: Seq<char>, alone: bool) -> Seq<TokV> {
    let read = seq![TokV::Ident("this"@), TokV::Punct('.', false), TokV::Ident(field)];
    if alone {
        read
    } else {
        read.push(TokV::Punct('.', false))
    }
}

/// The rewrite of `t` from position `i` on, where `begin` says whether an
/// expression starts at `i`: a placeholder in expression-initial position
/// becomes a read of `field`; every other token is kept.
pub open spec fn rewrite_from(t: Seq<TokV>, field: Seq<char>, i: int, begin: bool) -> Seq<TokV>
    decreases t.len() - i,
{
    if i < 0 || i >= t.len() {
        Seq::empty()
    } else if begin && dot_kind(t, i) is Some {
        field_read(field, dot_kind(t, i)->0) + rewrite_from(t, field, i + 1, false)
    } else {
        seq![t[i]] + rewrite_from(t, field, i + 1, begins_after(t[i]))
    }
}

/// The rewrite of a whole map expression written for field `field`.
pub open spec fn rewrite(t: Seq<TokV>, field: Seq<char>) -> Seq<TokV> {
    rewrite_from(t, field, 0, true)
}

/// Whether `t` is the placeholder, and if so whether it stands alone.
fn is_dot(input: &Vec<Tok>, i: usize) -> (r: (bool, bool))
    requires
        i < input.len(),
    ensures
        r == match dot_kind(toks_view(input@), i as int) {
            Some(alone) => (true, alone),
            None => (false, false),
        },
{
    let ghost t = toks_view(input@);
    match &input[i] {
        Tok::Punct(c, _) => {
            if *c != '.' {
                return (false, false);
            }
        },
        _ => {
            return (false, false);
        },
    }
    if i + 1 == input.len() {
        return (true, true);
    }
    match &input[i + 1] {
        Tok::Close(_) => (true, true),
        Tok::Ident(s) => {
            if text_is(s, "as") {
                (true, true)
            } else if keyword(s) {
                (false, false)
            } else {
                (true, false)
            }
        },
        Tok::Open(d) => {
            if *d != Delim::Quote {
                (true, true)
            } else {
                (false, false)
            }
        },
        _ => (false, false),
    }
}

fn is_expr_keyword(s: &String) -> (r: bool)
    ensures
        r == expr_keyword(s@),
{
    text_is(s, "break") || text_is(s, "continue") || text_is(s, "if") || text_is(s, "in")
        || text_is(s, "match") || text_is(s, "mut") || text_is(s, "return") || text_is(s, "while")
}

fn begins_after_tok(t: &Tok) -> (r: bool)
    ensures
        r == begins_after(t@),
{
    match t {
        Tok::Ident(s) => is_expr_keyword(s),
        Tok::Punct(c, _) => {
            let c = *c;
            c == '+' || c == '&' || c == '!' || c == '^' || c == ',' || c == '/' || c == '='
                || c == '>' || c == '<' || c == '|' || c == '%' || c == ';' || c == '*' || c
                == '-'
        },
        Tok::Lit(_) => false,
        Tok::Open(_) => true,
        Tok::Close(_) => false,
    }
}

/// Rewrites the map expression `input` written for field `field_name`:
/// each placeholder `.` in expression-initial position becomes
/// `this.<field_name>`, inside groups too; other tokens are kept as they are.
pub fn parse_custom_fn_expr(field_name: &String, input: &Vec<Tok>) -> (r: Vec<Tok>)
    ensures
        toks_view(r@) == rewrite(toks_view(input@), field_name@),
{
    let ghost t = toks_view(input@);
    let ghost f = field_name@;
    let mut tokens: Vec<Tok> = Vec::new();
    let mut begin_expr = true;
    let mut i: usize = 0;
    while i < input.len()
        invariant
            i <= input.len(),
            t == toks_view(input@),
            f == field_name@,
            toks_view(tokens@) + rewrite_from(t, f, i as int, begin_expr) == rewrite(t, f),
        decreases input.len() - i,
    {
        let ghost before = toks_view(tokens@);
        if begin_expr {
            let (dot, alone) = is_dot(input, i);
            if dot {
                tokens.push(Tok::Ident(String::from_str("this")));
                tokens.push(Tok::Punct('.', false));
                tokens.push(Tok::Ident(field_name.clone()));
                if !alone {
                    tokens.push(Tok::Punct('.', false));
                }
                proof {
                    assert(toks_view(tokens@) =~= before + field_read(f, alone));
                }
                begin_expr = false;
                i = i + 1;
                continue;
            }
        }
        begin_expr = begins_after_tok(&input[i]);
        tokens.push(input[i].duplicate());
        proof {
            assert(toks_view(tokens@) =~= before + seq![t[i as int]]);
        }
        i = i + 1;
    }
    proof {
        assert(toks_view(tokens@) + Seq::<TokV>::empty() =~= toks_view(tokens@));
    }
    tokens
}

/// A name for the outcome of syn's expression parser on a text.
pub uninterp spec fn parses_as_expr(text: Seq<char>) -> bool;

/// Relies on `syn::parse_str::<syn::Expr>`: whether the whole text parses
/// as one Rust expression.
#[verifier::external_body]
fn is_expr(text: &str) -> (r: bool)
    ensures
        r == parses_as_expr(text@),
{
    syn::parse_str::<syn::Expr>(text).is_ok()
}

/// The text of the rewritten map expression of field `field`.
pub open spec fn map_expr_text(t: Seq<TokV>, field: Seq<char>) -> Seq<char> {
    render(rewrite(t, field))
}

/// Rewrites the map expression `expr` of field `field_name` and renders it;
/// `None` where the result is no valid expression.
pub fn parse_map_expr(field_name: &String, expr: &Vec<Tok>) -> (r: Option<String>)
    ensures
        r is Some <==> parses_as_expr(map_expr_text(toks_view(expr@), field_name@)),
        r matches Some(s) ==> s@ == map_expr_text(toks_view(expr@), field_name@),
{
    let tokens = parse_custom_fn_expr(field_name, expr);
    let mut text = String::new();
    push_toks(&mut text, &tokens);
    assert(text@ =~= map_expr_text(toks_view(expr@), field_name@));
    if is_expr(text.as_str()) {
        Some(text)
    } else {
        None
    }
}

} // verus!
