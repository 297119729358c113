use vstd::prelude::*;

use crate::error::{ConfigError, ErrorKind};
use crate::text::{push_text, text_is};
use crate::overrides::{Direction, FieldValue, OverrideView};
use crate::shape::{detect_type_for_serviced, shape_of, AdditionalType, TypeExpr};
use crate::tokens::{is_keyword, keyword, push_toks, render, toks_view, Delim, Tok, TokV};

verus! {

// ---- tokens at a position ----

/// A token list that leaves room for index arithmetic past its end; every
/// `Vec<Tok>` meets it, as no allocation holds `usize::MAX` tokens.
pub open spec fn fits(t: Seq<Tok>) -> bool {
    t.len() + 8 <= usize::MAX
}

pub open spec fn ident_at(t: Seq<Tok>, i: int) -> bool {
    0 <= i < t.len() && t[i] is Ident
}

pub open spec fn ident_of(t: Seq<Tok>, i: int) -> Seq<char> {
    (t[i]->Ident_0)@
}

pub open spec fn is_ident(t: Seq<Tok>, i: int, name: Seq<char>) -> bool {
    ident_at(t, i) && ident_of(t, i) == name
}

pub open spec fn punct_at(t: Seq<Tok>, i: int, c: char) -> bool {
    0 <= i < t.len() && t[i] is Punct && t[i]->Punct_0 == c
}

pub open spec fn open_at(t: Seq<Tok>, i: int, d: Delim) -> bool {
    0 <= i < t.len() && t[i] is Open && t[i]->Open_0 == d
}

pub open spec fn close_at(t: Seq<Tok>, i: int, d: Delim) -> bool {
    0 <= i < t.len() && t[i] is Close && t[i]->Close_0 == d
}

fn tok_ident_at(t: &Vec<Tok>, i: usize) -> (r: bool)
    ensures
        r == ident_at(t@, i as int),
{
    i < t.len() && match &t[i] {
        Tok::Ident(_) => true,
        _ => false,
    }
}

fn tok_is_ident(t: &Vec<Tok>, i: usize, name: &str) -> (r: bool)
    ensures
        r == is_ident(t@, i as int, name@),
{
    if i < t.len() {
        match &t[i] {
            Tok::Ident(s) => text_is(s, name),
            _ => false,
        }
    } else {
        false
    }
}

fn tok_punct_at(t: &Vec<Tok>, i: usize, c: char) -> (r: bool)
    ensures
        r == punct_at(t@, i as int, c),
{
    i < t.len() && match &t[i] {
        Tok::Punct(p, _) => *p == c,
        _ => false,
    }
}

fn tok_open_at(t: &Vec<Tok>, i: usize, d: Delim) -> (r: bool)
    ensures
        r == open_at(t@, i as int, d),
{
    i < t.len() && match &t[i] {
        Tok::Open(e) => *e == d,
        _ => false,
    }
}

fn tok_close_at(t: &Vec<Tok>, i: usize, d: Delim) -> (r: bool)
    ensures
        r == close_at(t@, i as int, d),
{
    i < t.len() && match &t[i] {
        Tok::Close(e) => *e == d,
        _ => false,
    }
}

// ---- type paths ----

fn joint_colon_at(t: &Vec<Tok>, i: usize) -> (r: bool)
    ensures
        r == (i < t.len() && t@[i as int] == Tok::Punct(':', true)),
{
    i < t.len() && match &t[i] {
        Tok::Punct(c, joint) => *c == ':' && *joint,
        _ => false,
    }
}

/// Whether `:: ident` starts at `i`.
pub open spec fn path_sep_at(t: Seq<Tok>, i: int) -> bool {
    &&& 0 <= i
    &&& t[i] == Tok::Punct(':', true)
    &&& punct_at(t, i + 1, ':')
    &&& ident_at(t, i + 2)
}

/// The end of a generic argument list whose text starts at `i`, with
/// `depth` angle brackets and `groups` token groups open: the position after
/// the `>` that closes it. Angle brackets inside a group do not count.
pub open spec fn angle_end(t: Seq<Tok>, i: int, depth: nat, groups: nat) -> Option<int>
    decreases t.len() - i,
{
    if i < 0 || i >= t.len() {
        None
    } else if t[i] is Open {
        angle_end(t, i + 1, depth, groups + 1)
    } else if t[i] is Close {
        if groups == 0 {
            None
        } else {
            angle_end(t, i + 1, depth, (groups - 1) as nat)
        }
    } else if groups == 0 && punct_at(t, i, '>') {
        if depth <= 1 {
            Some(i + 1)
        } else {
            angle_end(t, i + 1, (depth - 1) as nat, groups)
        }
    } else if groups == 0 && punct_at(t, i, '<') {
        angle_end(t, i + 1, depth + 1, groups)
    } else {
        angle_end(t, i + 1, depth, groups)
    }
}

/// Whether a generic argument list `<...>` starts at `i`, and if so the position after it.
pub open spec fn generics_at(t: Seq<Tok>, i: int) -> Option<int> {
    if punct_at(t, i, '<') {
        match angle_end(t, i + 1, 1, 0) {
            Some(j) => if i < j <= t.len() {
                Some(j)
            } else {
                None
            },
            None => None,
        }
    } else {
        None
    }
}

/// The rest of a path after its text so far (`acc`): generic arguments
/// (kept as their rendered tokens, the closing `>` always followed by one
/// space, so that the text does not depend on what follows the path) and
/// further `::ident` segments; and the position after it.
pub open spec fn path_rest(t: Seq<Tok>, i: int, acc: Seq<char>) -> (Seq<char>, int)
    decreases t.len() - i,
{
    if 0 <= i && generics_at(t, i) is Some {
        let j = generics_at(t, i)->0;
        path_rest(t, j, acc + render(toks_view(t.subrange(i, j - 1))) + "> "@)
    } else if 0 <= i && i + 2 < t.len() && path_sep_at(t, i) {
        path_rest(t, i + 3, acc + "::"@ + ident_of(t, i + 2))
    } else {
        (acc, i)
    }
}

/// A type path at `i`, such as `B`, `a::b::C`, `::m::B` or `Wrapper<u8>`:
/// its text and the position after it.
pub open spec fn path_spec(t: Seq<Tok>, i: int) -> Option<(Seq<char>, int)> {
    if 0 <= i && i + 2 < t.len() && path_sep_at(t, i) {
        Some(path_rest(t, i + 3, "::"@ + ident_of(t, i + 2)))
    } else if ident_at(t, i) {
        Some(path_rest(t, i + 1, ident_of(t, i)))
    } else {
        None
    }
}

/// Finds the end of the generic argument list whose text starts at `i`.
fn angle_close(t: &Vec<Tok>, i: usize) -> (r: Option<usize>)
    requires
        fits(t@),
        i <= t.len(),
    ensures
        match r {
            Some(e) => angle_end(t@, i as int, 1, 0) == Some(e as int) && i < e <= t.len(),
            None => angle_end(t@, i as int, 1, 0) is None,
        },
{
    let mut k = i;
    let mut depth: usize = 1;
    let mut groups: usize = 0;
    while k < t.len()
        invariant
            i <= k <= t.len(),
            fits(t@),
            1 <= depth <= k - i + 1,
            groups <= k - i,
            angle_end(t@, i as int, 1, 0) == angle_end(t@, k as int, depth as nat, groups as nat),
        decreases t.len() - k,
    {
        match &t[k] {
            Tok::Open(_) => {
                groups = groups + 1;
            },
            Tok::Close(_) => {
                if groups == 0 {
                    return None;
                }
                groups = groups - 1;
            },
            Tok::Punct(c, _) => {
                if groups == 0 && *c == '>' {
                    if depth <= 1 {
                        return Some(k + 1);
                    }
                    depth = depth - 1;
                } else if groups == 0 && *c == '<' {
                    depth = depth + 1;
                }
            },
            _ => {},
        }
        k = k + 1;
    }
    None
}

fn parse_path(t: &Vec<Tok>, i: usize) -> (r: Option<(String, usize)>)
    requires
        fits(t@),
    ensures
        match r {
            Some((p, j)) => path_spec(t@, i as int) == Some((p@, j as int)),
            None => path_spec(t@, i as int) is None,
        },
        r matches Some((p, j)) ==> i < j <= t.len(),
{
    let mut text = String::new();
    let mut j: usize;
    if i < t.len() && i + 2 < t.len() && joint_colon_at(t, i) && tok_punct_at(t, i + 1, ':')
        && tok_ident_at(t, i + 2) {
        push_text(&mut text, "::");
        match &t[i + 2] {
            Tok::Ident(s) => push_text(&mut text, s.as_str()),
            _ => {},
        }
        j = i + 3;
    } else if tok_ident_at(t, i) {
        match &t[i] {
            Tok::Ident(s) => push_text(&mut text, s.as_str()),
            _ => {},
        }
        j = i + 1;
    } else {
        return None;
    }
    let ghost goal = path_spec(t@, i as int)->0;
    loop
        invariant
            i < j <= t.len(),
            fits(t@),
            path_spec(t@, i as int) is Some,
            goal == path_spec(t@, i as int)->0,
            path_rest(t@, j as int, text@) == goal,
        decreases t.len() - j,
    {
        if tok_punct_at(t, j, '<') {
            match angle_close(t, j + 1) {
                Some(e) => {
                    let sub = copy_toks(t, j, e - 1);
                    push_toks(&mut text, &sub);
                    push_text(&mut text, "> ");
                    j = e;
                    continue;
                },
                None => {},
            }
        }
        if j + 2 < t.len() && joint_colon_at(t, j) && tok_punct_at(t, j + 1, ':') && tok_ident_at(
            t,
            j + 2,
        ) {
            push_text(&mut text, "::");
            match &t[j + 2] {
                Tok::Ident(s) => push_text(&mut text, s.as_str()),
                _ => {},
            }
            j = j + 3;
        } else {
            return Some((text, j));
        }
    }
}

// ---- record-level attributes ----

/// One `convert` attribute: the attribute's name and, when it is a
/// parenthesized list, the tokens inside the parentheses.
#[derive(Debug)]
pub struct Attr {
    pub name: String,
    pub args: Option<Vec<Tok>>,
}

/// A conversion target registered at record level.
#[derive(Debug)]
pub struct PathParams {
    pub path: String,
    /// Fill the target's other fields from its `Default`.
    pub default: bool,
    /// Fill every field of the record from the target with `unwrap_or_default`.
    pub wrap_option: bool,
}

pub struct PathParamsV {
    pub path: Seq<char>,
    pub default: bool,
    pub wrap_option: bool,
}

impl View for PathParams {
    type V = PathParamsV;

    open spec fn view(&self) -> PathParamsV {
        PathParamsV { path: self.path@, default: self.default, wrap_option: self.wrap_option }
    }
}

pub open spec fn params_view(s: Seq<PathParams>) -> Seq<PathParamsV> {
    s.map_values(|p: PathParams| p@)
}

/// The registration that a record-level entry named `name` makes:
/// (registers FROM, registers INTO).
pub open spec fn entry_dirs(name: Seq<char>) -> (bool, bool) {
    let both = name == "from_into"@ || name == "into_from"@;
    (both || name == "from"@, both || name == "into"@)
}

/// The options after the path of a record-level entry, from `j` on:
/// `default`, `wrap_option`, and the position after them.
pub open spec fn entry_options(t: Seq<Tok>, i: int, j: int) -> Result<
    (bool, bool, int),
    (ErrorKind, int),
> {
    let default = punct_at(t, j, ',') && is_ident(t, j + 1, "default"@);
    let k = if default {
        j + 2
    } else {
        j
    };
    if punct_at(t, k, ',') && ident_at(t, k + 1) {
        if ident_of(t, k + 1) == "wrap_option"@ {
            Ok((default, true, k + 2))
        } else {
            Err((ErrorKind::UnknownValue, i))
        }
    } else {
        Ok((default, false, k))
    }
}

/// A record-level entry `name(Path[, default][, wrap_option])` whose name is at `i`:
/// the directions it registers, the target, and the position after it.
pub open spec fn record_entry(t: Seq<Tok>, i: int) -> Result<
    (bool, bool, PathParamsV, int),
    (ErrorKind, int),
> {
    let (is_from, is_into) = entry_dirs(ident_of(t, i));
    if !is_from && !is_into {
        Err((ErrorKind::UnrecognizedConvert, i))
    } else if !open_at(t, i + 1, Delim::Paren) {
        Err((ErrorKind::ExpectedParen, i + 1))
    } else {
        match path_spec(t, i + 2) {
            None => Err((ErrorKind::ExpectedPath, i + 2)),
            Some((path, j)) => match entry_options(t, i, j) {
                Err(e) => Err(e),
                Ok((default, wrap_option, k)) => if close_at(t, k, Delim::Paren) {
                    Ok(
                        (
                            is_from,
                            is_into,
                            PathParamsV { path, default, wrap_option },
                            k + 1,
                        ),
                    )
                } else {
                    Err((ErrorKind::Unexpected, k))
                },
            },
        }
    }
}

/// The entries of a record-level attribute from `i` on, comma separated,
/// added to the targets registered so far.
pub open spec fn record_list(
    t: Seq<Tok>,
    i: int,
    from: Seq<PathParamsV>,
    into: Seq<PathParamsV>,
) -> Result<(Seq<PathParamsV>, Seq<PathParamsV>), (ErrorKind, int)>
    decreases t.len() - i,
{
    if i < 0 || i >= t.len() {
        Ok((from, into))
    } else if !ident_at(t, i) {
        Err((ErrorKind::ExpectedIdent, i))
    } else {
        match record_entry(t, i) {
            Err(e) => Err(e),
            Ok((f, n, p, j)) => {
                let from2 = if f {
                    from.push(p)
                } else {
                    from
                };
                let into2 = if n {
                    into.push(p)
                } else {
                    into
                };
                if j >= t.len() {
                    Ok((from2, into2))
                } else if !punct_at(t, j, ',') {
                    Err((ErrorKind::ExpectedComma, j))
                } else if j <= i {
                    Err((ErrorKind::Unexpected, j))
                } else {
                    record_list(t, j + 1, from2, into2)
                }
            },
        }
    }
}

fn parse_record_entry(t: &Vec<Tok>, i: usize) -> (r: Result<
    (bool, bool, PathParams, usize),
    (ErrorKind, usize),
>)
    requires
        ident_at(t@, i as int),
        fits(t@),
    ensures
        match r {
            Ok((f, n, p, j)) => record_entry(t@, i as int) == Ok::<
                (bool, bool, PathParamsV, int),
                (ErrorKind, int),
            >((f, n, p@, j as int)) && i < j <= t.len(),
            Err((k, at)) => record_entry(t@, i as int) == Err::<
                (bool, bool, PathParamsV, int),
                (ErrorKind, int),
            >((k, at as int)),
        },
{
    let both = tok_is_ident(t, i, "from_into") || tok_is_ident(t, i, "into_from");
    let is_from = both || tok_is_ident(t, i, "from");
    let is_into = both || tok_is_ident(t, i, "into");
    if !is_from && !is_into {
        return Err((ErrorKind::UnrecognizedConvert, i));
    }
    if !tok_open_at(t, i + 1, Delim::Paren) {
        return Err((ErrorKind::ExpectedParen, i + 1));
    }
    let (path, j) = match parse_path(t, i + 2) {
        Some(p) => p,
        None => {
            return Err((ErrorKind::ExpectedPath, i + 2));
        },
    };
    let mut k = j;
    let mut default = false;
    if tok_punct_at(t, k, ',') && tok_is_ident(t, k + 1, "default") {
        default = true;
        k = k + 2;
    }
    let mut wrap_option = false;
    if tok_punct_at(t, k, ',') && tok_ident_at(t, k + 1) {
        if tok_is_ident(t, k + 1, "wrap_option") {
            wrap_option = true;
            k = k + 2;
        } else {
            return Err((ErrorKind::UnknownValue, i));
        }
    }
    if !tok_close_at(t, k, Delim::Paren) {
        return Err((ErrorKind::Unexpected, k));
    }
    Ok((is_from, is_into, PathParams { path, default, wrap_option }, k + 1))
}

fn copy_params(p: &PathParams) -> (r: PathParams)
    ensures
        r@ == p@,
{
    PathParams { path: p.path.clone(), default: p.default, wrap_option: p.wrap_option }
}

/// Parses the entries of one record-level attribute, adding the targets they
/// register to `from` and `into`.
fn parse_record_list(t: &Vec<Tok>, from: &mut Vec<PathParams>, into: &mut Vec<PathParams>) -> (r:
    Result<(), (ErrorKind, usize)>)
    requires
        fits(t@),
    ensures
        r is Ok ==> record_list(t@, 0, params_view(old(from)@), params_view(old(into)@)) == Ok::<
            (Seq<PathParamsV>, Seq<PathParamsV>),
            (ErrorKind, int),
        >((params_view(final(from)@), params_view(final(into)@))),
        r matches Err((k, at)) ==> record_list(t@, 0, params_view(old(from)@), params_view(old(into)@))
            == Err::<(Seq<PathParamsV>, Seq<PathParamsV>), (ErrorKind, int)>((k, at as int)),
{
    let ghost goal = record_list(t@, 0, params_view(from@), params_view(into@));
    let mut i: usize = 0;
    while i < t.len()
        invariant
            i <= t.len(),
            fits(t@),
            goal == record_list(t@, i as int, params_view(from@), params_view(into@)),
            goal == record_list(t@, 0, params_view(old(from)@), params_view(old(into)@)),
        decreases t.len() - i,
    {
        if !tok_ident_at(t, i) {
            return Err((ErrorKind::ExpectedIdent, i));
        }
        let (f, n, p, j) = match parse_record_entry(t, i) {
            Ok(e) => e,
            Err(e) => {
                return Err(e);
            },
        };
        let ghost pv = p@;
        let ghost from0 = params_view(from@);
        let ghost into0 = params_view(into@);
        if f && n {
            from.push(copy_params(&p));
            into.push(p);
        } else if f {
            from.push(p);
        } else if n {
            into.push(p);
        }
        proof {
            assert(params_view(from@) =~= (if f { from0.push(pv) } else { from0 }));
            assert(params_view(into@) =~= (if n { into0.push(pv) } else { into0 }));
        }
        if j >= t.len() {
            return Ok(());
        }
        if !tok_punct_at(t, j, ',') {
            return Err((ErrorKind::ExpectedComma, j));
        }
        i = j + 1;
    }
    Ok(())
}

/// The record-level targets that the `convert` attributes from `k` on
/// register, added to those registered so far; an error carries the
/// attribute's index.
pub open spec fn attrs_spec(
    attrs: Seq<Attr>,
    k: int,
    from: Seq<PathParamsV>,
    into: Seq<PathParamsV>,
) -> Result<(Seq<PathParamsV>, Seq<PathParamsV>), (ErrorKind, int, int)>
    decreases attrs.len() - k,
{
    if k < 0 || k >= attrs.len() {
        Ok((from, into))
    } else if attrs[k].name@ != "convert"@ {
        attrs_spec(attrs, k + 1, from, into)
    } else {
        match attrs[k].args {
            None => Err((ErrorKind::NotList, k, 0)),
            Some(args) => match record_list(args@, 0, from, into) {
                Err((e, at)) => Err((e, k, at)),
                Ok((f2, i2)) => attrs_spec(attrs, k + 1, f2, i2),
            },
        }
    }
}

pub open spec fn args_fit(a: Attr) -> bool {
    a.args matches Some(args) ==> fits(args@)
}

/// Every attribute's token list fits index arithmetic.
pub open spec fn attrs_fit(attrs: Seq<Attr>) -> bool {
    forall|k: int| 0 <= k < attrs.len() ==> args_fit(#[trigger] attrs[k])
}

/// Reads the record-level `convert` attributes: the FROM targets and the
/// INTO targets, each in declaration order.
pub fn parse_attributes(attrs: &Vec<Attr>) -> (r: Result<(Vec<PathParams>, Vec<PathParams>), ConfigError>)
    requires
        attrs_fit(attrs@),
    ensures
        r matches Ok((f, n)) ==> attrs_spec(attrs@, 0, seq![], seq![]) == Ok::<
            (Seq<PathParamsV>, Seq<PathParamsV>),
            (ErrorKind, int, int),
        >((params_view(f@), params_view(n@))),
        r matches Err(e) ==> e.field is None && e.attr is Some && attrs_spec(attrs@, 0, seq![], seq![])
            == Err::<(Seq<PathParamsV>, Seq<PathParamsV>), (ErrorKind, int, int)>(
            (e.kind, e.attr->0 as int, e.at as int),
        ),
{
    let mut from: Vec<PathParams> = Vec::new();
    let mut into: Vec<PathParams> = Vec::new();
    let ghost goal = attrs_spec(attrs@, 0, seq![], seq![]);
    assert(params_view(from@) =~= seq![]);
    assert(params_view(into@) =~= seq![]);
    let mut k: usize = 0;
    while k < attrs.len()
        invariant
            k <= attrs.len(),
            attrs_fit(attrs@),
            goal == attrs_spec(attrs@, 0, seq![], seq![]),
            goal == attrs_spec(attrs@, k as int, params_view(from@), params_view(into@)),
        decreases attrs.len() - k,
    {
        let attr = &attrs[k];
        if text_is(&attr.name, "convert") {
            match &attr.args {
                None => {
                    return Err(ConfigError { kind: ErrorKind::NotList, field: None, attr: Some(k), at: 0 });
                },
                Some(args) => {
                    assert(args_fit(attrs@[k as int]));
                    match parse_record_list(args, &mut from, &mut into) {
                        Ok(()) => {},
                        Err((kind, at)) => {
                            return Err(ConfigError { kind, field: None, attr: Some(k), at });
                        },
                    }
                },
            }
        }
        k = k + 1;
    }
    Ok((from, into))
}

// ---- field-level attributes ----

/// The syntax of a value in a field-level override, and the abstract value
/// it denotes.
pub trait ValueSyntax: View + Sized {
    /// The value written at `i`, and the position after it.
    spec fn value_spec(t: Seq<Tok>, i: int, attr: int) -> Result<(Self::V, int), ErrorKind>;

    fn parse_value(t: &Vec<Tok>, i: usize, attr: usize) -> (r: Result<(Self, usize), ErrorKind>)
        requires
            fits(t@),
        ensures
            r matches Ok((v, j)) ==> Self::value_spec(t@, i as int, attr as int) == Ok::<(Self::V, int), ErrorKind>(
                (v@, j as int),
            ) && i < j <= t.len(),
            r matches Err(k) ==> Self::value_spec(t@, i as int, attr as int) == Err::<(Self::V, int), ErrorKind>(
                k,
            ),
    ;

    fn copy_value(&self) -> (r: Self)
        ensures
            r@ == self@,
    ;
}

/// A field name, as written after `rename`: an identifier that is not a keyword.
impl ValueSyntax for String {
    open spec fn value_spec(t: Seq<Tok>, i: int, attr: int) -> Result<(Seq<char>, int), ErrorKind> {
        if ident_at(t, i) && !is_keyword(ident_of(t, i)) {
            Ok((ident_of(t, i), i + 1))
        } else {
            Err(ErrorKind::ExpectedIdent)
        }
    }

    fn parse_value(t: &Vec<Tok>, i: usize, attr: usize) -> (r: Result<(String, usize), ErrorKind>) {
        if i < t.len() {
            match &t[i] {
                Tok::Ident(s) => {
                    if !keyword(s) {
                        return Ok((s.clone(), i + 1));
                    }
                },
                _ => {},
            }
        }
        Err(ErrorKind::ExpectedIdent)
    }

    fn copy_value(&self) -> (r: String) {
        self.clone()
    }
}

/// A map expression: the tokens of the string literal written after `map`,
/// and where that literal stands (attribute index, token index).
#[derive(Debug)]
pub struct MapExpr {
    pub tokens: Vec<Tok>,
    pub attr: usize,
    pub at: usize,
}

pub struct MapExprV {
    pub tokens: Seq<TokV>,
    pub attr: int,
    pub at: int,
}

impl View for MapExpr {
    type V = MapExprV;

    open spec fn view(&self) -> MapExprV {
        MapExprV { tokens: toks_view(self.tokens@), attr: self.attr as int, at: self.at as int }
    }
}

/// The position of the first closing quote at or after `k`.
pub open spec fn quote_end(t: Seq<Tok>, k: int) -> Option<int>
    decreases t.len() - k,
{
    if k < 0 || k >= t.len() {
        None
    } else if close_at(t, k, Delim::Quote) {
        Some(k)
    } else {
        quote_end(t, k + 1)
    }
}

fn copy_toks(t: &Vec<Tok>, a: usize, b: usize) -> (r: Vec<Tok>)
    requires
        a <= b <= t.len(),
    ensures
        toks_view(r@) == toks_view(t@.subrange(a as int, b as int)),
{
    let mut r: Vec<Tok> = Vec::new();
    let mut k = a;
    while k < b
        invariant
            a <= k <= b <= t.len(),
            r@.len() == k - a,
            forall|j: int| 0 <= j < r@.len() ==> (#[trigger] r@[j])@ == t@[a + j]@,
        decreases b - k,
    {
        r.push(t[k].duplicate());
        k = k + 1;
    }
    assert(toks_view(r@) =~= toks_view(t@.subrange(a as int, b as int)));
    r
}

impl ValueSyntax for MapExpr {
    open spec fn value_spec(t: Seq<Tok>, i: int, attr: int) -> Result<(MapExprV, int), ErrorKind> {
        if open_at(t, i, Delim::Quote) {
            match quote_end(t, i + 1) {
                Some(j) => Ok((MapExprV { tokens: toks_view(t.subrange(i + 1, j)), attr, at: i }, j + 1)),
                None => Err(ErrorKind::Unexpected),
            }
        } else if 0 <= i < t.len() && t[i] is Lit {
            Err(ErrorKind::BadExpression)
        } else {
            Err(ErrorKind::ExpectedLiteral)
        }
    }

    fn parse_value(t: &Vec<Tok>, i: usize, attr: usize) -> (r: Result<(MapExpr, usize), ErrorKind>) {
        if tok_open_at(t, i, Delim::Quote) {
            let mut j = i + 1;
            while j < t.len() && !tok_close_at(t, j, Delim::Quote)
                invariant
                    i < j <= t.len(),
                    fits(t@),
                    open_at(t@, i as int, Delim::Quote),
                    quote_end(t@, i + 1) == quote_end(t@, j as int),
                decreases t.len() - j,
            {
                j = j + 1;
            }
            if j == t.len() {
                return Err(ErrorKind::Unexpected);
            }
            let tokens = copy_toks(t, i + 1, j);
            return Ok((MapExpr { tokens, attr, at: i }, j + 1));
        }
        if i < t.len() {
            match &t[i] {
                Tok::Lit(_) => {
                    return Err(ErrorKind::BadExpression);
                },
                _ => {},
            }
        }
        Err(ErrorKind::ExpectedLiteral)
    }

    fn copy_value(&self) -> (r: MapExpr) {
        let tokens = copy_toks(&self.tokens, 0, self.tokens.len());
        assert(self.tokens@.subrange(0, self.tokens@.len() as int) =~= self.tokens@);
        MapExpr { tokens, attr: self.attr, at: self.at }
    }
}

/// The directions that a nested override form named `name` writes to.
pub open spec fn form_dirs(name: Seq<char>, flag: bool) -> (bool, bool) {
    if name == "from"@ {
        (true, false)
    } else if name == "into"@ {
        (false, true)
    } else if name == "from_into"@ || (flag && name == "into_from"@) {
        (true, true)
    } else {
        (false, false)
    }
}

/// An override written for the directions `(f, n)`, for one target or for
/// the whole direction.
pub open spec fn apply_dirs<V>(
    o: OverrideView<V>,
    f: bool,
    n: bool,
    path: Option<Seq<char>>,
    v: V,
) -> OverrideView<V> {
    let o1 = if f {
        o.set_for(Direction::From, path, v)
    } else {
        o
    };
    if n {
        o1.set_for(Direction::Into, path, v)
    } else {
        o1
    }
}

/// A nested value form at `i`: `from = v`, `into = v`, `from_into = v`, or
/// the same names with `(Path, v)`.
pub open spec fn value_form<T: ValueSyntax>(t: Seq<Tok>, i: int, attr: int) -> Result<
    (bool, bool, Option<Seq<char>>, T::V, int),
    (ErrorKind, int),
> {
    let (f, n) = form_dirs(ident_of(t, i), false);
    if !f && !n {
        Err((ErrorKind::UnknownField, i))
    } else if open_at(t, i + 1, Delim::Paren) {
        match path_spec(t, i + 2) {
            None => Err((ErrorKind::ExpectedPath, i + 2)),
            Some((p, j)) => if !punct_at(t, j, ',') {
                Err((ErrorKind::ExpectedComma, j))
            } else {
                match T::value_spec(t, j + 1, attr) {
                    Err(k) => Err((k, j + 1)),
                    Ok((v, k)) => if close_at(t, k, Delim::Paren) {
                        Ok((f, n, Some(p), v, k + 1))
                    } else {
                        Err((ErrorKind::Unexpected, k))
                    },
                }
            },
        }
    } else if punct_at(t, i + 1, '=') {
        match T::value_spec(t, i + 2, attr) {
            Err(k) => Err((k, i + 2)),
            Ok((v, k)) => Ok((f, n, None, v, k)),
        }
    } else {
        Err((ErrorKind::ExpectedEq, i + 1))
    }
}

/// The nested value forms from `i` up to the closing parenthesis.
pub open spec fn value_forms<T: ValueSyntax>(
    t: Seq<Tok>,
    i: int,
    o: OverrideView<T::V>,
    attr: int,
) -> Result<
    (OverrideView<T::V>, int),
    (ErrorKind, int),
>
    decreases t.len() - i,
{
    if i < 0 || i >= t.len() {
        Err((ErrorKind::Unexpected, i))
    } else if close_at(t, i, Delim::Paren) {
        Ok((o, i + 1))
    } else if !ident_at(t, i) {
        Err((ErrorKind::ExpectedIdent, i))
    } else {
        match value_form::<T>(t, i, attr) {
            Err(e) => Err(e),
            Ok((f, n, p, v, j)) => {
                let o2 = apply_dirs(o, f, n, p, v);
                if j <= i {
                    Err((ErrorKind::Unexpected, j))
                } else if close_at(t, j, Delim::Paren) {
                    Ok((o2, j + 1))
                } else if punct_at(t, j, ',') {
                    value_forms::<T>(t, j + 1, o2, attr)
                } else {
                    Err((ErrorKind::ExpectedComma, j))
                }
            },
        }
    }
}

/// A value override after its name at `i`: `= v`, or a parenthesized list
/// of nested forms.
pub open spec fn value_override<T: ValueSyntax>(
    t: Seq<Tok>,
    i: int,
    o: OverrideView<T::V>,
    attr: int,
) -> Result<
    (OverrideView<T::V>, int),
    (ErrorKind, int),
> {
    if open_at(t, i, Delim::Paren) {
        value_forms::<T>(t, i + 1, o, attr)
    } else if punct_at(t, i, '=') {
        match T::value_spec(t, i + 1, attr) {
            Err(k) => Err((k, i + 1)),
            Ok((v, j)) => Ok((o.set_common(v), j)),
        }
    } else {
        Err((ErrorKind::ExpectedEq, i))
    }
}

fn form_directions(t: &Vec<Tok>, i: usize, flag: bool) -> (r: (bool, bool))
    requires
        ident_at(t@, i as int),
    ensures
        r == form_dirs(ident_of(t@, i as int), flag),
{
    if tok_is_ident(t, i, "from") {
        (true, false)
    } else if tok_is_ident(t, i, "into") {
        (false, true)
    } else if tok_is_ident(t, i, "from_into") || (flag && tok_is_ident(t, i, "into_from")) {
        (true, true)
    } else {
        (false, false)
    }
}

/// Parses one nested value form whose name is at `i`.
fn parse_field_value_for<T: ValueSyntax>(t: &Vec<Tok>, i: usize, attr: usize) -> (r: Result<
    (bool, bool, Option<String>, T, usize),
    (ErrorKind, usize),
>)
    requires
        ident_at(t@, i as int),
        fits(t@),
    ensures
        r matches Ok((f, n, p, v, j)) ==> value_form::<T>(t@, i as int, attr as int) == Ok::<
            (bool, bool, Option<Seq<char>>, T::V, int),
            (ErrorKind, int),
        >((f, n, crate::overrides::path_view(p), v@, j as int)) && i < j <= t.len(),
        r matches Err((k, at)) ==> value_form::<T>(t@, i as int, attr as int) == Err::<
            (bool, bool, Option<Seq<char>>, T::V, int),
            (ErrorKind, int),
        >((k, at as int)),
{
    let (f, n) = form_directions(t, i, false);
    if !f && !n {
        return Err((ErrorKind::UnknownField, i));
    }
    if tok_open_at(t, i + 1, Delim::Paren) {
        let (p, j) = match parse_path(t, i + 2) {
            Some(x) => x,
            None => {
                return Err((ErrorKind::ExpectedPath, i + 2));
            },
        };
        if !tok_punct_at(t, j, ',') {
            return Err((ErrorKind::ExpectedComma, j));
        }
        let (v, k) = match T::parse_value(t, j + 1, attr) {
            Ok(x) => x,
            Err(e) => {
                return Err((e, j + 1));
            },
        };
        if !tok_close_at(t, k, Delim::Paren) {
            return Err((ErrorKind::Unexpected, k));
        }
        return Ok((f, n, Some(p), v, k + 1));
    }
    if tok_punct_at(t, i + 1, '=') {
        return match T::parse_value(t, i + 2, attr) {
            Ok((v, k)) => Ok((f, n, None, v, k)),
            Err(e) => Err((e, i + 2)),
        };
    }
    Err((ErrorKind::ExpectedEq, i + 1))
}

fn copy_path(p: &Option<String>) -> (r: Option<String>)
    ensures
        crate::overrides::path_view(r) == crate::overrides::path_view(*p),
{
    match p {
        Some(s) => Some(s.clone()),
        None => None,
    }
}

/// Parses a value override (`rename`, `map`) whose name is at `i - 1`,
/// writing what it gives into `field_value`.
fn parse_field_value<T: ValueSyntax>(
    t: &Vec<Tok>,
    i: usize,
    field_value: &mut FieldValue<T>,
    attr: usize,
) -> (r:
    Result<usize, (ErrorKind, usize)>)
    requires
        fits(t@),
        i <= t.len(),
    ensures
        r matches Ok(j) ==> value_override::<T>(t@, i as int, old(field_value)@, attr as int) == Ok::<
            (OverrideView<T::V>, int),
            (ErrorKind, int),
        >((final(field_value)@, j as int)) && i < j <= t.len(),
        r matches Err((k, at)) ==> value_override::<T>(t@, i as int, old(field_value)@, attr as int) == Err::<
            (OverrideView<T::V>, int),
            (ErrorKind, int),
        >((k, at as int)),
{
    if tok_open_at(t, i, Delim::Paren) {
        let ghost goal = value_forms::<T>(t@, i + 1, field_value@, attr as int);
        let mut k = i + 1;
        loop
            invariant
                i < k <= t.len(),
                fits(t@),
                goal == value_forms::<T>(t@, k as int, field_value@, attr as int),
                goal == value_override::<T>(t@, i as int, old(field_value)@, attr as int),
            decreases t.len() - k,
        {
            if k >= t.len() {
                return Err((ErrorKind::Unexpected, k));
            }
            if tok_close_at(t, k, Delim::Paren) {
                return Ok(k + 1);
            }
            if !tok_ident_at(t, k) {
                return Err((ErrorKind::ExpectedIdent, k));
            }
            let (f, n, p, v, j) = match parse_field_value_for::<T>(t, k, attr) {
                Ok(x) => x,
                Err(e) => {
                    return Err(e);
                },
            };
            if f && n {
                field_value.set_from(copy_path(&p), v.copy_value());
                field_value.set_into(p, v);
            } else if f {
                field_value.set_from(p, v);
            } else if n {
                field_value.set_into(p, v);
            }
            if tok_close_at(t, j, Delim::Paren) {
                return Ok(j + 1);
            }
            if !tok_punct_at(t, j, ',') {
                return Err((ErrorKind::ExpectedComma, j));
            }
            k = j + 1;
        }
    } else if tok_punct_at(t, i, '=') {
        match T::parse_value(t, i + 1, attr) {
            Ok((v, j)) => {
                field_value.set_common(v);
                Ok(j)
            },
            Err(e) => Err((e, i + 1)),
        }
    } else {
        Err((ErrorKind::ExpectedEq, i))
    }
}

/// A nested flag form at `i`: `from`, `into`, `from_into`, `into_from`,
/// each alone or with `(Path)`.
pub open spec fn flag_form(t: Seq<Tok>, i: int) -> Result<
    (bool, bool, Option<Seq<char>>, int),
    (ErrorKind, int),
> {
    let (f, n) = form_dirs(ident_of(t, i), true);
    if !f && !n {
        Err((ErrorKind::UnknownField, i))
    } else if open_at(t, i + 1, Delim::Paren) {
        match path_spec(t, i + 2) {
            None => Err((ErrorKind::ExpectedPath, i + 2)),
            Some((p, j)) => if close_at(t, j, Delim::Paren) {
                Ok((f, n, Some(p), j + 1))
            } else {
                Err((ErrorKind::Unexpected, j))
            },
        }
    } else {
        Ok((f, n, None, i + 1))
    }
}

/// The nested flag forms from `i` up to the closing parenthesis.
pub open spec fn flag_forms(t: Seq<Tok>, i: int, o: OverrideView<bool>) -> Result<
    (OverrideView<bool>, int),
    (ErrorKind, int),
>
    decreases t.len() - i,
{
    if i < 0 || i >= t.len() {
        Err((ErrorKind::Unexpected, i))
    } else if close_at(t, i, Delim::Paren) {
        Ok((o, i + 1))
    } else if !ident_at(t, i) {
        Err((ErrorKind::ExpectedIdent, i))
    } else {
        match flag_form(t, i) {
            Err(e) => Err(e),
            Ok((f, n, p, j)) => {
                let o2 = apply_dirs(o, f, n, p, true);
                if j <= i {
                    Err((ErrorKind::Unexpected, j))
                } else if close_at(t, j, Delim::Paren) {
                    Ok((o2, j + 1))
                } else if punct_at(t, j, ',') {
                    flag_forms(t, j + 1, o2)
                } else {
                    Err((ErrorKind::ExpectedComma, j))
                }
            },
        }
    }
}

/// A flag override after its name at `i`: nothing (the flag is set for
/// every direction and target), or a parenthesized list of nested forms.
pub open spec fn flag_override(t: Seq<Tok>, i: int, o: OverrideView<bool>) -> Result<
    (OverrideView<bool>, int),
    (ErrorKind, int),
> {
    if open_at(t, i, Delim::Paren) {
        flag_forms(t, i + 1, o)
    } else {
        Ok((o.set_common(true), i))
    }
}

/// Parses one nested flag form whose name is at `i`.
fn parse_field_value_for_bool(t: &Vec<Tok>, i: usize) -> (r: Result<
    (bool, bool, Option<String>, usize),
    (ErrorKind, usize),
>)
    requires
        ident_at(t@, i as int),
        fits(t@),
    ensures
        r matches Ok((f, n, p, j)) ==> flag_form(t@, i as int) == Ok::<
            (bool, bool, Option<Seq<char>>, int),
            (ErrorKind, int),
        >((f, n, crate::overrides::path_view(p), j as int)) && i < j <= t.len(),
        r matches Err((k, at)) ==> flag_form(t@, i as int) == Err::<
            (bool, bool, Option<Seq<char>>, int),
            (ErrorKind, int),
        >((k, at as int)),
{
    let (f, n) = form_directions(t, i, true);
    if !f && !n {
        return Err((ErrorKind::UnknownField, i));
    }
    if tok_open_at(t, i + 1, Delim::Paren) {
        let (p, j) = match parse_path(t, i + 2) {
            Some(x) => x,
            None => {
                return Err((ErrorKind::ExpectedPath, i + 2));
            },
        };
        if !tok_close_at(t, j, Delim::Paren) {
            return Err((ErrorKind::Unexpected, j));
        }
        return Ok((f, n, Some(p), j + 1));
    }
    Ok((f, n, None, i + 1))
}

/// Parses a flag override (`wrap`, `unwrap`, `skip`) whose name is at
/// `i - 1`, writing what it gives into `field_value`.
fn parse_field_value_bool(t: &Vec<Tok>, i: usize, field_value: &mut FieldValue<bool>) -> (r: Result<
    usize,
    (ErrorKind, usize),
>)
    requires
        fits(t@),
        i <= t.len(),
    ensures
        r matches Ok(j) ==> flag_override(t@, i as int, old(field_value)@) == Ok::<
            (OverrideView<bool>, int),
            (ErrorKind, int),
        >((final(field_value)@, j as int)) && i <= j <= t.len(),
        r matches Err((k, at)) ==> flag_override(t@, i as int, old(field_value)@) == Err::<
            (OverrideView<bool>, int),
            (ErrorKind, int),
        >((k, at as int)),
{
    if !tok_open_at(t, i, Delim::Paren) {
        field_value.set_common(true);
        return Ok(i);
    }
    let ghost goal = flag_forms(t@, i + 1, field_value@);
    let mut k = i + 1;
    loop
        invariant
            i < k <= t.len(),
            fits(t@),
            goal == flag_forms(t@, k as int, field_value@),
            goal == flag_override(t@, i as int, old(field_value)@),
        decreases t.len() - k,
    {
        if k >= t.len() {
            return Err((ErrorKind::Unexpected, k));
        }
        if tok_close_at(t, k, Delim::Paren) {
            return Ok(k + 1);
        }
        if !tok_ident_at(t, k) {
            return Err((ErrorKind::ExpectedIdent, k));
        }
        let (f, n, p, j) = match parse_field_value_for_bool(t, k) {
            Ok(x) => x,
            Err(e) => {
                return Err(e);
            },
        };
        if f && n {
            field_value.set_from(copy_path(&p), true);
            field_value.set_into(p, true);
        } else if f {
            field_value.set_from(p, true);
        } else if n {
            field_value.set_into(p, true);
        }
        if tok_close_at(t, j, Delim::Paren) {
            return Ok(j + 1);
        }
        if !tok_punct_at(t, j, ',') {
            return Err((ErrorKind::ExpectedComma, j));
        }
        k = j + 1;
    }
}

// ---- fields ----

/// The overrides read for one field, and the shape of its type.
#[derive(Debug)]
pub struct FieldParams {
    pub map: FieldValue<MapExpr>,
    pub rename: FieldValue<String>,
    pub wrap: FieldValue<bool>,
    pub unwrap: FieldValue<bool>,
    pub skip: FieldValue<bool>,
    pub a_type: AdditionalType,
}

pub struct FieldParamsV {
    pub map: OverrideView<MapExprV>,
    pub rename: OverrideView<Seq<char>>,
    pub wrap: OverrideView<bool>,
    pub unwrap: OverrideView<bool>,
    pub skip: OverrideView<bool>,
    pub a_type: AdditionalType,
}

impl View for FieldParams {
    type V = FieldParamsV;

    open spec fn view(&self) -> FieldParamsV {
        FieldParamsV {
            map: self.map@,
            rename: self.rename@,
            wrap: self.wrap@,
            unwrap: self.unwrap@,
            skip: self.skip@,
            a_type: self.a_type,
        }
    }
}

impl FieldParams {
    /// Parameters with no override, for a field of shape `a_type`.
    pub fn new(a_type: AdditionalType) -> (r: Self)
        ensures
            r@ == fresh_params(a_type),
    {
        FieldParams {
            map: FieldValue::new(),
            rename: FieldValue::new(),
            wrap: FieldValue::new(),
            unwrap: FieldValue::new(),
            skip: FieldValue::new(),
            a_type,
        }
    }
}

pub open spec fn fresh_params(a_type: AdditionalType) -> FieldParamsV {
    FieldParamsV {
        map: OverrideView::empty(),
        rename: OverrideView::empty(),
        wrap: OverrideView::empty(),
        unwrap: OverrideView::empty(),
        skip: OverrideView::empty(),
        a_type,
    }
}

/// A field-level entry whose name is at `i`, applied to `fp`.
pub open spec fn field_entry(t: Seq<Tok>, i: int, fp: FieldParamsV, attr: int) -> Result<
    (FieldParamsV, int),
    (ErrorKind, int),
> {
    let name = ident_of(t, i);
    if name == "rename"@ {
        match value_override::<String>(t, i + 1, fp.rename, attr) {
            Ok((o, j)) => Ok((FieldParamsV { rename: o, ..fp }, j)),
            Err(e) => Err(e),
        }
    } else if name == "wrap"@ {
        match flag_override(t, i + 1, fp.wrap) {
            Ok((o, j)) => Ok((FieldParamsV { wrap: o, ..fp }, j)),
            Err(e) => Err(e),
        }
    } else if name == "unwrap"@ {
        match flag_override(t, i + 1, fp.unwrap) {
            Ok((o, j)) => Ok((FieldParamsV { unwrap: o, ..fp }, j)),
            Err(e) => Err(e),
        }
    } else if name == "skip"@ {
        match flag_override(t, i + 1, fp.skip) {
            Ok((o, j)) => Ok((FieldParamsV { skip: o, ..fp }, j)),
            Err(e) => Err(e),
        }
    } else if name == "map"@ {
        match value_override::<MapExpr>(t, i + 1, fp.map, attr) {
            Ok((o, j)) => Ok((FieldParamsV { map: o, ..fp }, j)),
            Err(e) => Err(e),
        }
    } else {
        Err((ErrorKind::UnknownField, i))
    }
}

/// The entries of a field-level attribute from `i` on, comma separated.
pub open spec fn field_list(t: Seq<Tok>, i: int, fp: FieldParamsV, attr: int) -> Result<
    FieldParamsV,
    (ErrorKind, int),
>
    decreases t.len() - i,
{
    if i < 0 || i >= t.len() {
        Ok(fp)
    } else if !ident_at(t, i) {
        Err((ErrorKind::ExpectedIdent, i))
    } else {
        match field_entry(t, i, fp, attr) {
            Err(e) => Err(e),
            Ok((fp2, j)) => if j >= t.len() {
                Ok(fp2)
            } else if !punct_at(t, j, ',') {
                Err((ErrorKind::ExpectedComma, j))
            } else if j <= i {
                Err((ErrorKind::Unexpected, j))
            } else {
                field_list(t, j + 1, fp2, attr)
            },
        }
    }
}

/// Parses one field-level entry whose name is at `i` into `fp`.
fn parse_field_entry(t: &Vec<Tok>, i: usize, fp: &mut FieldParams, attr: usize) -> (r: Result<
    usize,
    (ErrorKind, usize),
>)
    requires
        ident_at(t@, i as int),
        fits(t@),
    ensures
        r matches Ok(j) ==> field_entry(t@, i as int, old(fp)@, attr as int) == Ok::<(FieldParamsV, int), (ErrorKind, int)>(
            (final(fp)@, j as int),
        ) && i < j <= t.len(),
        r matches Err((k, at)) ==> field_entry(t@, i as int, old(fp)@, attr as int) == Err::<
            (FieldParamsV, int),
            (ErrorKind, int),
        >((k, at as int)),
{
    if tok_is_ident(t, i, "rename") {
        parse_field_value::<String>(t, i + 1, &mut fp.rename, attr)
    } else if tok_is_ident(t, i, "wrap") {
        parse_field_value_bool(t, i + 1, &mut fp.wrap)
    } else if tok_is_ident(t, i, "unwrap") {
        parse_field_value_bool(t, i + 1, &mut fp.unwrap)
    } else if tok_is_ident(t, i, "skip") {
        parse_field_value_bool(t, i + 1, &mut fp.skip)
    } else if tok_is_ident(t, i, "map") {
        parse_field_value::<MapExpr>(t, i + 1, &mut fp.map, attr)
    } else {
        Err((ErrorKind::UnknownField, i))
    }
}

/// Parses the entries of one field-level attribute into `fp`.
fn parse_field_list(t: &Vec<Tok>, fp: &mut FieldParams, attr: usize) -> (r: Result<(), (ErrorKind, usize)>)
    requires
        fits(t@),
    ensures
        r is Ok ==> field_list(t@, 0, old(fp)@, attr as int) == Ok::<FieldParamsV, (ErrorKind, int)>(final(fp)@),
        r matches Err((k, at)) ==> field_list(t@, 0, old(fp)@, attr as int) == Err::<FieldParamsV, (ErrorKind, int)>(
            (k, at as int),
        ),
{
    let ghost goal = field_list(t@, 0, fp@, attr as int);
    let mut i: usize = 0;
    while i < t.len()
        invariant
            i <= t.len(),
            fits(t@),
            goal == field_list(t@, i as int, fp@, attr as int),
            goal == field_list(t@, 0, old(fp)@, attr as int),
        decreases t.len() - i,
    {
        if !tok_ident_at(t, i) {
            return Err((ErrorKind::ExpectedIdent, i));
        }
        let j = match parse_field_entry(t, i, fp, attr) {
            Ok(j) => j,
            Err(e) => {
                return Err(e);
            },
        };
        if j >= t.len() {
            return Ok(());
        }
        if !tok_punct_at(t, j, ',') {
            return Err((ErrorKind::ExpectedComma, j));
        }
        i = j + 1;
    }
    Ok(())
}

// ---- declarations ----

/// A named field of the record: its name, its declared type, and its attributes.
#[derive(Debug)]
pub struct FieldDecl {
    pub name: String,
    pub ty: TypeExpr,
    pub attrs: Vec<Attr>,
}

/// The body of the item the derive is applied to.
#[derive(Debug)]
pub enum DeclData {
    /// A struct with named fields, in declaration order.
    Named(Vec<FieldDecl>),
    /// A tuple struct.
    Unnamed,
    /// A unit struct.
    Unit,
    Enum,
    Union,
}

/// The declaration the conversions are derived for.
#[derive(Debug)]
pub struct RecordDecl {
    pub name: String,
    pub attrs: Vec<Attr>,
    pub data: DeclData,
}

/// Everything read from a declaration: the record's name, its FROM and INTO
/// targets, and each field's overrides, in declaration order.
#[derive(Debug)]
pub struct Params {
    pub name: String,
    pub from: Vec<PathParams>,
    pub into: Vec<PathParams>,
    pub fields: Vec<(String, FieldParams)>,
}

pub struct ParamsV {
    pub name: Seq<char>,
    pub from: Seq<PathParamsV>,
    pub into: Seq<PathParamsV>,
    pub fields: Seq<(Seq<char>, FieldParamsV)>,
}

pub open spec fn fields_view(s: Seq<(String, FieldParams)>) -> Seq<(Seq<char>, FieldParamsV)> {
    s.map_values(|e: (String, FieldParams)| (e.0@, e.1@))
}

impl View for Params {
    type V = ParamsV;

    open spec fn view(&self) -> ParamsV {
        ParamsV {
            name: self.name@,
            from: params_view(self.from@),
            into: params_view(self.into@),
            fields: fields_view(self.fields@),
        }
    }
}

/// An error as (kind, field index, attribute index, token index).
pub open spec fn err_of(e: ConfigError) -> (ErrorKind, Option<int>, Option<int>, int) {
    (
        e.kind,
        match e.field {
            Some(f) => Some(f as int),
            None => None,
        },
        match e.attr {
            Some(a) => Some(a as int),
            None => None,
        },
        e.at as int,
    )
}

/// The overrides that a field's `convert` attributes from `k` on add to `fp`.
pub open spec fn field_attrs_spec(attrs: Seq<Attr>, k: int, fp: FieldParamsV) -> Result<
    FieldParamsV,
    (ErrorKind, int, int),
>
    decreases attrs.len() - k,
{
    if k < 0 || k >= attrs.len() {
        Ok(fp)
    } else if attrs[k].name@ != "convert"@ {
        field_attrs_spec(attrs, k + 1, fp)
    } else {
        match attrs[k].args {
            None => Err((ErrorKind::NotList, k, 0)),
            Some(args) => match field_list(args@, 0, fp, k) {
                Err((e, at)) => Err((e, k, at)),
                Ok(fp2) => field_attrs_spec(attrs, k + 1, fp2),
            },
        }
    }
}

/// The configuration of one field.
pub open spec fn field_spec(f: FieldDecl) -> Result<FieldParamsV, (ErrorKind, int, int)> {
    field_attrs_spec(f.attrs@, 0, fresh_params(shape_of(f.ty)))
}

/// The configurations of the fields from `k` on; an error is the first
/// field's, with that field's index.
pub open spec fn fields_spec(fs: Seq<FieldDecl>, k: int) -> Result<
    Seq<(Seq<char>, FieldParamsV)>,
    (ErrorKind, Option<int>, Option<int>, int),
>
    decreases fs.len() - k,
{
    if k < 0 || k >= fs.len() {
        Ok(Seq::empty())
    } else {
        match field_spec(fs[k]) {
            Err((e, a, at)) => Err((e, Some(k), Some(a), at)),
            Ok(fp) => match fields_spec(fs, k + 1) {
                Err(e) => Err(e),
                Ok(rest) => Ok(seq![(fs[k].name@, fp)] + rest),
            },
        }
    }
}

pub open spec fn data_spec(data: DeclData) -> Result<
    Seq<(Seq<char>, FieldParamsV)>,
    (ErrorKind, Option<int>, Option<int>, int),
> {
    match data {
        DeclData::Named(fs) => fields_spec(fs@, 0),
        DeclData::Unnamed => Err((ErrorKind::UnnamedStruct, None, None, 0)),
        DeclData::Unit => Err((ErrorKind::UnitStruct, None, None, 0)),
        DeclData::Enum => Err((ErrorKind::EnumInput, None, None, 0)),
        DeclData::Union => Err((ErrorKind::UnionInput, None, None, 0)),
    }
}

/// The configuration read from a whole declaration.
pub open spec fn params_spec(d: RecordDecl) -> Result<ParamsV, (ErrorKind, Option<int>, Option<int>, int)> {
    match attrs_spec(d.attrs@, 0, seq![], seq![]) {
        Err((e, a, at)) => Err((e, None, Some(a), at)),
        Ok((from, into)) => match data_spec(d.data) {
            Err(e) => Err(e),
            Ok(fields) => Ok(ParamsV { name: d.name@, from, into, fields }),
        },
    }
}

pub open spec fn field_fits(f: FieldDecl) -> bool {
    attrs_fit(f.attrs@)
}

/// Every token list of the declaration fits index arithmetic.
pub open spec fn decl_fits(d: RecordDecl) -> bool {
    &&& attrs_fit(d.attrs@)
    &&& d.data matches DeclData::Named(fs) ==> forall|k: int|
        0 <= k < fs@.len() ==> field_fits(#[trigger] fs@[k])
}

/// Reads the overrides of one field.
fn parse_field(f: &FieldDecl) -> (r: Result<FieldParams, (ErrorKind, usize, usize)>)
    requires
        field_fits(*f),
    ensures
        r matches Ok(fp) ==> field_spec(*f) == Ok::<FieldParamsV, (ErrorKind, int, int)>(fp@),
        r matches Err((e, a, at)) ==> field_spec(*f) == Err::<FieldParamsV, (ErrorKind, int, int)>(
            (e, a as int, at as int),
        ),
{
    let mut fp = FieldParams::new(detect_type_for_serviced(&f.ty, 0));
    let ghost goal = field_spec(*f);
    let mut k: usize = 0;
    while k < f.attrs.len()
        invariant
            k <= f.attrs.len(),
            attrs_fit(f.attrs@),
            goal == field_spec(*f),
            goal == field_attrs_spec(f.attrs@, k as int, fp@),
        decreases f.attrs.len() - k,
    {
        let attr = &f.attrs[k];
        if text_is(&attr.name, "convert") {
            match &attr.args {
                None => {
                    return Err((ErrorKind::NotList, k, 0));
                },
                Some(args) => {
                    assert(args_fit(f.attrs@[k as int]));
                    match parse_field_list(args, &mut fp, k) {
                        Ok(()) => {},
                        Err((e, at)) => {
                            return Err((e, k, at));
                        },
                    }
                },
            }
        }
        k = k + 1;
    }
    Ok(fp)
}

/// Reads the overrides of every named field, in declaration order.
pub fn parse_named_struct_fields(fields: &Vec<FieldDecl>) -> (r: Result<Vec<(String, FieldParams)>, ConfigError>)
    requires
        forall|k: int| 0 <= k < fields@.len() ==> field_fits(#[trigger] fields@[k]),
    ensures
        r matches Ok(v) ==> fields_spec(fields@, 0) == Ok::<
            Seq<(Seq<char>, FieldParamsV)>,
            (ErrorKind, Option<int>, Option<int>, int),
        >(fields_view(v@)),
        r matches Err(e) ==> fields_spec(fields@, 0) == Err::<
            Seq<(Seq<char>, FieldParamsV)>,
            (ErrorKind, Option<int>, Option<int>, int),
        >(err_of(e)),
{
    let mut out: Vec<(String, FieldParams)> = Vec::new();
    let mut k: usize = 0;
    while k < fields.len()
        invariant
            k <= fields.len(),
            forall|j: int| 0 <= j < fields@.len() ==> field_fits(#[trigger] fields@[j]),
            fields_spec(fields@, 0) == match fields_spec(fields@, k as int) {
                Ok(rest) => Ok(fields_view(out@) + rest),
                Err(e) => Err(e),
            },
        decreases fields.len() - k,
    {
        let f = &fields[k];
        assert(field_fits(fields@[k as int]));
        match parse_field(f) {
            Ok(fp) => {
                let ghost before = fields_view(out@);
                out.push((f.name.clone(), fp));
                proof {
                    assert(fields_view(out@) =~= before + seq![(f.name@, fp@)]);
                    match fields_spec(fields@, k + 1) {
                        Ok(rest) => {
                            assert(before + (seq![(f.name@, fp@)] + rest) =~= fields_view(out@) + rest);
                        },
                        Err(e) => {},
                    }
                }
            },
            Err((e, a, at)) => {
                return Err(ConfigError { kind: e, field: Some(k), attr: Some(a), at });
            },
        }
        k = k + 1;
    }
    assert(fields_view(out@) + Seq::<(Seq<char>, FieldParamsV)>::empty() =~= fields_view(out@));
    Ok(out)
}

/// Reads the fields of the declaration; only structs with named fields are supported.
pub fn parse_fields(data: &DeclData) -> (r: Result<Vec<(String, FieldParams)>, ConfigError>)
    requires
        data matches DeclData::Named(fs) ==> forall|k: int|
            0 <= k < fs@.len() ==> field_fits(#[trigger] fs@[k]),
    ensures
        r matches Ok(v) ==> data_spec(*data) == Ok::<
            Seq<(Seq<char>, FieldParamsV)>,
            (ErrorKind, Option<int>, Option<int>, int),
        >(fields_view(v@)),
        r matches Err(e) ==> data_spec(*data) == Err::<
            Seq<(Seq<char>, FieldParamsV)>,
            (ErrorKind, Option<int>, Option<int>, int),
        >(err_of(e)),
{
    let kind = match data {
        DeclData::Named(fs) => {
            return parse_named_struct_fields(fs);
        },
        DeclData::Unnamed => ErrorKind::UnnamedStruct,
        DeclData::Unit => ErrorKind::UnitStruct,
        DeclData::Enum => ErrorKind::EnumInput,
        DeclData::Union => ErrorKind::UnionInput,
    };
    Err(ConfigError { kind, field: None, attr: None, at: 0 })
}

/// Reads the whole configuration of a declaration: its targets and the
/// overrides of each field.
pub fn parse_params(input: &RecordDecl) -> (r: Result<Params, ConfigError>)
    requires
        decl_fits(*input),
    ensures
        r matches Ok(p) ==> params_spec(*input) == Ok::<ParamsV, (ErrorKind, Option<int>, Option<int>, int)>(p@),
        r matches Err(e) ==> params_spec(*input) == Err::<ParamsV, (ErrorKind, Option<int>, Option<int>, int)>(
            err_of(e),
        ),
{
    let (from, into) = parse_attributes(&input.attrs)?;
    let fields = parse_fields(&input.data)?;
    Ok(Params { name: input.name.clone(), from, into, fields })
}

/// Reading an unchanged declaration again gives the same configuration, so
/// every override of every field resolves as before, for every direction
/// and target.
pub proof fn law_parse_idempotent(
    d: RecordDecl,
    first: ParamsV,
    second: ParamsV,
    k: int,
    dir: Direction,
    target: Seq<char>,
)
    requires
        params_spec(d) == Ok::<ParamsV, (ErrorKind, Option<int>, Option<int>, int)>(first),
        params_spec(d) == Ok::<ParamsV, (ErrorKind, Option<int>, Option<int>, int)>(second),
        0 <= k < first.fields.len(),
    ensures
        first == second,
        ({
            let a = first.fields[k].1;
            let b = second.fields[k].1;
            &&& a.rename.resolve(dir, target) == b.rename.resolve(dir, target)
            &&& a.map.resolve(dir, target) == b.map.resolve(dir, target)
            &&& a.wrap.resolve(dir, target) == b.wrap.resolve(dir, target)
            &&& a.unwrap.resolve(dir, target) == b.unwrap.resolve(dir, target)
            &&& a.skip.resolve(dir, target) == b.skip.resolve(dir, target)
        }),
{
}

/// Two nested forms of one override kind that write different tiers (one
/// for a target, one for a whole direction, or a common value) give the same
/// configuration in either order.
pub proof fn law_forms_commute<V>(
    o: OverrideView<V>,
    f1: bool,
    n1: bool,
    path: Seq<char>,
    v: V,
    f2: bool,
    n2: bool,
    w: V,
    c: V,
)
    ensures
        apply_dirs(apply_dirs(o, f1, n1, Some(path), v), f2, n2, None, w) == apply_dirs(
            apply_dirs(o, f2, n2, None, w),
            f1,
            n1,
            Some(path),
            v,
        ),
        apply_dirs(o, f1, n1, Some(path), v).set_common(c) == apply_dirs(
            o.set_common(c),
            f1,
            n1,
            Some(path),
            v,
        ),
        apply_dirs(o, f2, n2, None, w).set_common(c) == apply_dirs(o.set_common(c), f2, n2, None, w),
{
}

} // verus!
