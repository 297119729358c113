use vstd::prelude::*;

use crate::text::{push_char, push_text, text_is};

verus! {

/// Whether `s` is one of the words that syn does not accept as an
/// identifier: `_` and Rust's keywords, reserved ones included.
pub open spec fn is_keyword(s: Seq<char>) -> bool {
    ||| s == "_"@
    ||| s == "abstract"@
    ||| s == "as"@
    ||| s == "async"@
    ||| s == "await"@
    ||| s == "become"@
    ||| s == "box"@
    ||| s == "break"@
    ||| s == "const"@
    ||| s == "continue"@
    ||| s == "crate"@
    ||| s == "do"@
    ||| s == "dyn"@
    ||| s == "else"@
    ||| s == "enum"@
    ||| s == "extern"@
    ||| s == "false"@
    ||| s == "final"@
    ||| s == "fn"@
    ||| s == "for"@
    ||| s == "if"@
    ||| s == "impl"@
    ||| s == "in"@
    ||| s == "let"@
    ||| s == "loop"@
    ||| s == "macro"@
    ||| s == "match"@
    ||| s == "mod"@
    ||| s == "move"@
    ||| s == "mut"@
    ||| s == "override"@
    ||| s == "priv"@
    ||| s == "pub"@
    ||| s == "ref"@
    ||| s == "return"@
    ||| s == "Self"@
    ||| s == "self"@
    ||| s == "static"@
    ||| s == "struct"@
    ||| s == "super"@
    ||| s == "trait"@
    ||| s == "true"@
    ||| s == "try"@
    ||| s == "type"@
    ||| s == "typeof"@
    ||| s == "unsafe"@
    ||| s == "unsized"@
    ||| s == "use"@
    ||| s == "virtual"@
    ||| s == "where"@
    ||| s == "while"@
    ||| s == "yield"@
}

/// Whether `s` is `_` or a Rust keyword.
pub fn keyword(s: &String) -> (r: bool)
    ensures
        r == is_keyword(s@),
{
    text_is(s, "_")
        || text_is(s, "abstract")
        || text_is(s, "as")
        || text_is(s, "async")
        || text_is(s, "await")
        || text_is(s, "become")
        || text_is(s, "box")
        || text_is(s, "break")
        || text_is(s, "const")
        || text_is(s, "continue")
        || text_is(s, "crate")
        || text_is(s, "do")
        || text_is(s, "dyn")
        || text_is(s, "else")
        || text_is(s, "enum")
        || text_is(s, "extern")
        || text_is(s, "false")
        || text_is(s, "final")
        || text_is(s, "fn")
        || text_is(s, "for")
        || text_is(s, "if")
        || text_is(s, "impl")
        || text_is(s, "in")
        || text_is(s, "let")
        || text_is(s, "loop")
        || text_is(s, "macro")
        || text_is(s, "match")
        || text_is(s, "mod")
        || text_is(s, "move")
        || text_is(s, "mut")
        || text_is(s, "override")
        || text_is(s, "priv")
        || text_is(s, "pub")
        || text_is(s, "ref")
        || text_is(s, "return")
        || text_is(s, "Self")
        || text_is(s, "self")
        || text_is(s, "static")
        || text_is(s, "struct")
        || text_is(s, "super")
        || text_is(s, "trait")
        || text_is(s, "true")
        || text_is(s, "try")
        || text_is(s, "type")
        || text_is(s, "typeof")
        || text_is(s, "unsafe")
        || text_is(s, "unsized")
        || text_is(s, "use")
        || text_is(s, "virtual")
        || text_is(s, "where")
        || text_is(s, "while")
        || text_is(s, "yield")
}

/// The delimiter of a token group. `Quote` marks a string literal whose
/// contents the front end has lexed into tokens.
#[derive(Clone, Copy, Debug, PartialEq, Eq, Structural)]
pub enum Delim {
    Paren,
    Brace,
    Bracket,
    Quote,
}

/// One token of a flat token stream; a group is its opening token, its
/// contents, and its closing token.
#[derive(Debug)]
pub enum Tok {
    Ident(String),
    /// A punctuation character, and whether it is joined to the next one (as in `::`).
    Punct(char, bool),
    /// A literal, as written in the source.
    Lit(String),
    Open(Delim),
    Close(Delim),
}

/// The abstract value of a token.
pub enum TokV {
    Ident(Seq<char>),
    Punct(char, bool),
    Lit(Seq<char>),
    Open(Delim),
    Close(Delim),
}

impl View for Tok {
    type V = TokV;

    open spec fn view(&self) -> TokV {
        match self {
            Tok::Ident(s) => TokV::Ident(s@),
            Tok::Punct(c, j) => TokV::Punct(*c, *j),
            Tok::Lit(s) => TokV::Lit(s@),
            Tok::Open(d) => TokV::Open(*d),
            Tok::Close(d) => TokV::Close(*d),
        }
    }
}

pub open spec fn toks_view(s: Seq<Tok>) -> Seq<TokV> {
    s.map_values(|t: Tok| t@)
}

impl Tok {
    /// A copy of this token.
    pub fn duplicate(&self) -> (r: Tok)
        ensures
            r@ == self@,
    {
        match self {
            Tok::Ident(s) => Tok::Ident(s.clone()),
            Tok::Punct(c, j) => Tok::Punct(*c, *j),
            Tok::Lit(s) => Tok::Lit(s.clone()),
            Tok::Open(d) => Tok::Open(*d),
            Tok::Close(d) => Tok::Close(*d),
        }
    }
}

pub open spec fn open_char(d: Delim) -> char {
    match d {
        Delim::Paren => '(',
        Delim::Brace => '{',
        Delim::Bracket => '[',
        Delim::Quote => '"',
    }
}

pub open spec fn close_char(d: Delim) -> char {
    match d {
        Delim::Paren => ')',
        Delim::Brace => '}',
        Delim::Bracket => ']',
        Delim::Quote => '"',
    }
}

/// The source text of one token and the space after it; a joined
/// punctuation character has no space after it.
pub open spec fn tok_text(t: TokV) -> Seq<char> {
    match t {
        TokV::Ident(s) => s.push(' '),
        TokV::Punct(c, joint) => if joint {
            seq![c]
        } else {
            seq![c, ' ']
        },
        TokV::Lit(s) => s.push(' '),
        TokV::Open(d) => seq![open_char(d), ' '],
        TokV::Close(d) => seq![close_char(d), ' '],
    }
}

/// The source text of a token sequence.
pub open spec fn render(s: Seq<TokV>) -> Seq<char>
    decreases s.len(),
{
    if s.len() == 0 {
        Seq::empty()
    } else {
        render(s.drop_last()) + tok_text(s.last())
    }
}

fn delim_char(d: Delim, open: bool) -> (c: char)
    ensures
        c == if open {
            open_char(d)
        } else {
            close_char(d)
        },
{
    match d {
        Delim::Paren => if open {
            '('
        } else {
            ')'
        },
        Delim::Brace => if open {
            '{'
        } else {
            '}'
        },
        Delim::Bracket => if open {
            '['
        } else {
            ']'
        },
        Delim::Quote => '"',
    }
}

/// Appends the text of one token to `out`.
pub fn push_tok(out: &mut String, t: &Tok)
    ensures
        final(out)@ == old(out)@ + tok_text(t@),
{
    let ghost start = out@;
    match t {
        Tok::Ident(s) => {
            push_text(out, s.as_str());
            push_char(out, ' ');
        },
        Tok::Punct(c, joint) => {
            push_char(out, *c);
            if !*joint {
                push_char(out, ' ');
            }
        },
        Tok::Lit(s) => {
            push_text(out, s.as_str());
            push_char(out, ' ');
        },
        Tok::Open(d) => {
            push_char(out, delim_char(*d, true));
            push_char(out, ' ');
        },
        Tok::Close(d) => {
            push_char(out, delim_char(*d, false));
            push_char(out, ' ');
        },
    }
    assert(out@ =~= start + tok_text(t@));
}

/// Appends the text of a token sequence to `out`.
pub fn push_toks(out: &mut String, toks: &Vec<Tok>)
    ensures
        final(out)@ == old(out)@ + render(toks_view(toks@)),
{
    let ghost start = out@;
    let mut i: usize = 0;
    while i < toks.len()
        invariant
            i <= toks.len(),
            out@ == start + render(toks_view(toks@.subrange(0, i as int))),
        decreases toks.len() - i,
    {
        let ghost before = out@;
        push_tok(out, &toks[i]);
        proof {
            let next = toks_view(toks@.subrange(0, i + 1));
            assert(next.drop_last() =~= toks_view(toks@.subrange(0, i as int)));
            assert(next.last() == toks@[i as int]@);
            assert(out@ =~= start + render(next));
        }
        i = i + 1;
    }
    assert(toks@.subrange(0, i as int) =~= toks@);
}

} // verus!
