use vstd::prelude::*;

use crate::error::{ConfigError, ErrorKind};
use crate::expr::{map_expr_text, parse_map_expr, parses_as_expr};
use crate::overrides::{Direction, OverrideView};
use crate::parse::{
    decl_fits, field_spec, fresh_params, FieldDecl, MapExpr, MapExprV, fields_view, params_spec, params_view, parse_params, FieldParams, FieldParamsV,
    Params, ParamsV, PathParams, PathParamsV, RecordDecl,
};
use crate::shape::{shape_of, AdditionalType};
use crate::text::push_text;
use crate::tokens::TokV;

verus! {

/// The assignment chosen for one field of one conversion routine.
pub enum Assign {
    /// No assignment: the default-fill tail supplies the field.
    Omit,
    /// `lhs: Default::default()`
    DefaultValue(Seq<char>),
    /// `lhs: <map expression>`, the placeholder reading the named field.
    Custom(Seq<char>, MapExprV, Seq<char>),
    /// `lhs: this.rhs.unwrap_or_default()`
    Unwrap(Seq<char>, Seq<char>),
    /// `lhs: Some(this.rhs)`
    Wrap(Seq<char>, Seq<char>),
    /// `lhs: this.rhs` converted by the rule of the field's shape.
    Convert(Seq<char>, Seq<char>, AdditionalType),
}

/// Whether a flag override is on for this direction and target.
pub open spec fn flag_on(o: OverrideView<bool>, dir: Direction, target: Seq<char>) -> bool {
    o.resolve(dir, target) == Some(true)
}

/// The name a field is known by in the target, in this direction.
pub open spec fn renamed(field: Seq<char>, fp: FieldParamsV, dir: Direction, target: Seq<char>) -> Seq<char> {
    match fp.rename.resolve(dir, target) {
        Some(n) => n,
        None => field,
    }
}

/// The assignment for record field `field` when the record is built from
/// `target`: skip, then map, then unwrap, then wrap, then the shape's rule.
pub open spec fn from_assign(field: Seq<char>, fp: FieldParamsV, target: PathParamsV) -> Assign {
    let d = Direction::From;
    let p = target.path;
    let right = renamed(field, fp, d, p);
    if flag_on(fp.skip, d, p) {
        if target.default {
            Assign::Omit
        } else {
            Assign::DefaultValue(field)
        }
    } else if fp.map.resolve(d, p) is Some {
        Assign::Custom(field, fp.map.resolve(d, p)->0, field)
    } else if flag_on(fp.unwrap, d, p) {
        Assign::Unwrap(field, right)
    } else if fp.a_type == AdditionalType::Optional && (flag_on(fp.wrap, d, p)
        || target.wrap_option) {
        Assign::Wrap(field, right)
    } else {
        Assign::Convert(field, right, fp.a_type)
    }
}

/// The assignment for record field `field` when the record is turned into
/// `target`: skip, then map, then unwrap, then the shape's rule.
pub open spec fn into_assign(field: Seq<char>, fp: FieldParamsV, target: PathParamsV) -> Assign {
    let d = Direction::Into;
    let p = target.path;
    let left = renamed(field, fp, d, p);
    if flag_on(fp.skip, d, p) {
        if target.default {
            Assign::Omit
        } else {
            Assign::DefaultValue(left)
        }
    } else if fp.map.resolve(d, p) is Some {
        Assign::Custom(left, fp.map.resolve(d, p)->0, field)
    } else if flag_on(fp.unwrap, d, p) {
        Assign::Unwrap(left, field)
    } else {
        Assign::Convert(left, field, fp.a_type)
    }
}

pub open spec fn assign_for(dir: Direction, field: Seq<char>, fp: FieldParamsV, target: PathParamsV) -> Assign {
    match dir {
        Direction::From => from_assign(field, fp, target),
        Direction::Into => into_assign(field, fp, target),
    }
}

/// What follows the source read in the conversion rule of each shape.
pub open spec fn convert_suffix(shape: AdditionalType) -> Seq<char> {
    match shape {
        AdditionalType::Optional => ".map(Into::into), "@,
        AdditionalType::OptionalOfCollection => ".map(|x| x.into_iter().map(Into::into).collect()), "@,
        AdditionalType::Collection => ".into_iter().map(Into::into).collect(), "@,
        AdditionalType::CollectionOfOptional => ".into_iter().map(|x| x.map(Into::into)).collect(), "@,
        AdditionalType::Plain => ".into(), "@,
    }
}

/// The text of an assignment; `None` where a map expression does not parse.
pub open spec fn assign_text(a: Assign) -> Option<Seq<char>> {
    match a {
        Assign::Omit => Some(Seq::empty()),
        Assign::DefaultValue(l) => Some(l + ": Default::default(), "@),
        Assign::Custom(l, e, f) => if parses_as_expr(map_expr_text(e.tokens, f)) {
            Some(l + ": "@ + map_expr_text(e.tokens, f) + ", "@)
        } else {
            None
        },
        Assign::Unwrap(l, r) => Some(l + ": this."@ + r + ".unwrap_or_default(), "@),
        Assign::Wrap(l, r) => Some(l + ": Some(this."@ + r + "), "@),
        Assign::Convert(l, r, s) => Some(l + ": this."@ + r + convert_suffix(s)),
    }
}

/// Where the map expression of an assignment stands (attribute, token).
pub open spec fn assign_loc(a: Assign) -> (int, int) {
    match a {
        Assign::Custom(_, e, _) => (e.attr, e.at),
        _ => (0, 0),
    }
}

/// The assignments of all fields for one target, in field order; an error
/// is the first field whose map expression does not parse, with where that
/// expression stands.
pub open spec fn assigns_text(
    fields: Seq<(Seq<char>, FieldParamsV)>,
    dir: Direction,
    target: PathParamsV,
) -> Result<Seq<char>, (int, int, int)>
    decreases fields.len(),
{
    if fields.len() == 0 {
        Ok(Seq::empty())
    } else {
        match assigns_text(fields.drop_last(), dir, target) {
            Err(k) => Err(k),
            Ok(s) => match assign_text(assign_for(dir, fields.last().0, fields.last().1, target)) {
                None => {
                    let (a, at) = assign_loc(
                        assign_for(dir, fields.last().0, fields.last().1, target),
                    );
                    Err((fields.len() - 1, a, at))
                },
                Some(a) => Ok(s + a),
            },
        }
    }
}

pub open spec fn default_tail(default: bool) -> Seq<char> {
    if default {
        "..Default::default() "@
    } else {
        Seq::empty()
    }
}

/// The opening of the routine for one target, up to its assignments.
pub open spec fn routine_head(dir: Direction, name: Seq<char>, target: PathParamsV) -> Seq<char> {
    let p = target.path;
    match dir {
        Direction::From => "impl std::convert::From<"@ + p + "> for "@ + name
            + " { fn from(this: "@ + p + ") -> Self { #[allow(clippy::needless_update)] "@ + name
            + " { "@,
        Direction::Into => "impl std::convert::Into<"@ + p + "> for "@ + name
            + " { fn into(self) -> "@ + p
            + " { let this = self; #[allow(clippy::needless_update)] "@ + p + " { "@,
    }
}

/// The whole conversion routine for one target, around its assignments.
pub open spec fn routine_text(dir: Direction, name: Seq<char>, target: PathParamsV, assigns: Seq<char>) -> Seq<char> {
    routine_head(dir, name, target) + assigns + default_tail(target.default) + "} } } "@
}

/// The routines for all targets of one direction, in declaration order;
/// an error is the index of the field whose map expression does not parse.
pub open spec fn routines_text(p: ParamsV, dir: Direction, targets: Seq<PathParamsV>) -> Result<
    Seq<char>,
    (int, int, int),
>
    decreases targets.len(),
{
    if targets.len() == 0 {
        Ok(Seq::empty())
    } else {
        match routines_text(p, dir, targets.drop_last()) {
            Err(k) => Err(k),
            Ok(s) => match assigns_text(p.fields, dir, targets.last()) {
                Err(k) => Err(k),
                Ok(a) => Ok(s + routine_text(dir, p.name, targets.last(), a)),
            },
        }
    }
}

/// Everything emitted for a configuration: the FROM routines, then the INTO ones.
pub open spec fn build_spec(p: ParamsV) -> Result<Seq<char>, (int, int, int)> {
    match routines_text(p, Direction::From, p.from) {
        Err(k) => Err(k),
        Ok(f) => match routines_text(p, Direction::Into, p.into) {
            Err(k) => Err(k),
            Ok(n) => Ok(f + n),
        },
    }
}

fn flag(o: Option<&bool>) -> (r: bool)
    ensures
        r == (o == Some(&true)),
{
    match o {
        Some(b) => *b,
        None => false,
    }
}

fn push_convert_suffix(out: &mut String, shape: AdditionalType)
    ensures
        final(out)@ == old(out)@ + convert_suffix(shape),
{
    if shape.is_option() {
        push_text(out, ".map(Into::into), ");
    } else if shape.is_option_vec() {
        push_text(out, ".map(|x| x.into_iter().map(Into::into).collect()), ");
    } else if shape.is_vec() {
        push_text(out, ".into_iter().map(Into::into).collect(), ");
    } else if shape.is_vec_option() {
        push_text(out, ".into_iter().map(|x| x.map(Into::into)).collect(), ");
    } else {
        push_text(out, ".into(), ");
    }
}

fn push_read(out: &mut String, lhs: &String, middle: &str, rhs: &String, end: &str)
    ensures
        final(out)@ == old(out)@ + (lhs@ + middle@ + rhs@ + end@),
{
    let ghost start = out@;
    push_text(out, lhs.as_str());
    push_text(out, middle);
    push_text(out, rhs.as_str());
    push_text(out, end);
    assert(out@ =~= start + (lhs@ + middle@ + rhs@ + end@));
}

/// Appends `lhs: <map expression>, ` to `out`, or returns false where the
/// expression does not parse.
fn push_custom(out: &mut String, lhs: &String, field: &String, expr: &MapExpr) -> (r: bool)
    ensures
        r == parses_as_expr(map_expr_text(expr@.tokens, field@)),
        r ==> final(out)@ == old(out)@ + (lhs@ + ": "@ + map_expr_text(expr@.tokens, field@) + ", "@),
{
    match parse_map_expr(field, &expr.tokens) {
        Some(text) => {
            push_read(out, lhs, ": ", &text, ", ");
            true
        },
        None => false,
    }
}

/// Appends the assignment of record field `left_field` when the record is
/// built from `target`; false where its map expression does not parse.
fn build_from_assign_item(out: &mut String, left_field: &String, params: &FieldParams, target: &PathParams) -> (r: Result<(), (usize, usize)>)
    ensures
        r is Ok == (assign_text(from_assign(left_field@, params@, target@)) is Some),
        r is Ok ==> final(out)@ == old(out)@ + assign_text(from_assign(left_field@, params@, target@))->0,
        r matches Err((a, at)) ==> assign_loc(from_assign(left_field@, params@, target@)) == (a as int, at as int),
{
    let path = &target.path;
    if flag(params.skip.get_from(path)) {
        if target.default {
            assert(out@ =~= out@ + Seq::<char>::empty());
            return Ok(());
        }
        push_text(out, left_field.as_str());
        push_text(out, ": Default::default(), ");
        assert(out@ =~= old(out)@ + (left_field@ + ": Default::default(), "@));
        return Ok(());
    }
    match params.map.get_from(path) {
        Some(m) => {
            if push_custom(out, left_field, left_field, m) {
                return Ok(());
            }
            return Err((m.attr, m.at));
        },
        None => {},
    }
    let right_field = match params.rename.get_from(path) {
        Some(n) => n,
        None => left_field,
    };
    if flag(params.unwrap.get_from(path)) {
        push_read(out, left_field, ": this.", right_field, ".unwrap_or_default(), ");
        return Ok(());
    }
    if params.a_type.is_option() && (flag(params.wrap.get_from(path)) || target.wrap_option) {
        push_read(out, left_field, ": Some(this.", right_field, "), ");
        return Ok(());
    }
    let ghost start = out@;
    push_text(out, left_field.as_str());
    push_text(out, ": this.");
    push_text(out, right_field.as_str());
    push_convert_suffix(out, params.a_type);
    assert(out@ =~= start + (left_field@ + ": this."@ + right_field@ + convert_suffix(params.a_type)));
    Ok(())
}

/// Appends the assignment for record field `right_field` when the record is
/// turned into `target`; false where its map expression does not parse.
fn build_into_assign_item(out: &mut String, right_field: &String, params: &FieldParams, target: &PathParams) -> (r: Result<(), (usize, usize)>)
    ensures
        r is Ok == (assign_text(into_assign(right_field@, params@, target@)) is Some),
        r is Ok ==> final(out)@ == old(out)@ + assign_text(into_assign(right_field@, params@, target@))->0,
        r matches Err((a, at)) ==> assign_loc(into_assign(right_field@, params@, target@)) == (a as int, at as int),
{
    let path = &target.path;
    let left_field = match params.rename.get_into(path) {
        Some(n) => n,
        None => right_field,
    };
    if flag(params.skip.get_into(path)) {
        if target.default {
            assert(out@ =~= out@ + Seq::<char>::empty());
            return Ok(());
        }
        push_text(out, left_field.as_str());
        push_text(out, ": Default::default(), ");
        assert(out@ =~= old(out)@ + (left_field@ + ": Default::default(), "@));
        return Ok(());
    }
    match params.map.get_into(path) {
        Some(m) => {
            if push_custom(out, left_field, right_field, m) {
                return Ok(());
            }
            return Err((m.attr, m.at));
        },
        None => {},
    }
    if flag(params.unwrap.get_into(path)) {
        push_read(out, left_field, ": this.", right_field, ".unwrap_or_default(), ");
        return Ok(());
    }
    let ghost start = out@;
    push_text(out, left_field.as_str());
    push_text(out, ": this.");
    push_text(out, right_field.as_str());
    push_convert_suffix(out, params.a_type);
    assert(out@ =~= start + (left_field@ + ": this."@ + right_field@ + convert_suffix(params.a_type)));
    Ok(())
}

/// Appends the assignments of every field for one target; on a map
/// expression that does not parse, the index of its field.
fn build_assigns(out: &mut String, dir: Direction, target: &PathParams, fields: &Vec<(String, FieldParams)>) -> (r: Result<(), (usize, usize, usize)>)
    ensures
        r is Ok <==> assigns_text(fields_view(fields@), dir, target@) is Ok,
        r is Ok ==> final(out)@ == old(out)@ + assigns_text(fields_view(fields@), dir, target@)->Ok_0,
        r matches Err(k) ==> assigns_text(fields_view(fields@), dir, target@) == Err::<Seq<char>, (int, int, int)>((k.0 as int, k.1 as int, k.2 as int)),
{
    let ghost start = out@;
    let mut k: usize = 0;
    while k < fields.len()
        invariant
            k <= fields.len(),
            assigns_text(fields_view(fields@).subrange(0, k as int), dir, target@) is Ok,
            out@ == start + assigns_text(fields_view(fields@).subrange(0, k as int), dir, target@)->Ok_0,
        decreases fields.len() - k,
    {
        let ghost before = out@;
        let item = match dir {
            Direction::From => build_from_assign_item(out, &fields[k].0, &fields[k].1, target),
            Direction::Into => build_into_assign_item(out, &fields[k].0, &fields[k].1, target),
        };
        let ghost next = fields_view(fields@).subrange(0, k + 1);
        assert(next.drop_last() =~= fields_view(fields@).subrange(0, k as int));
        if let Err((a, at)) = item {
            proof {
                lemma_assigns_error_stays(fields_view(fields@), dir, target@, k + 1);
            }
            return Err((k, a, at));
        }
        k = k + 1;
    }
    assert(fields_view(fields@).subrange(0, k as int) =~= fields_view(fields@));
    Ok(())
}

/// An error in the first `n` fields is the error of all of them.
proof fn lemma_assigns_error_stays(
    fields: Seq<(Seq<char>, FieldParamsV)>,
    dir: Direction,
    target: PathParamsV,
    n: int,
)
    requires
        0 <= n <= fields.len(),
        assigns_text(fields.subrange(0, n), dir, target) is Err,
    ensures
        assigns_text(fields, dir, target) == assigns_text(fields.subrange(0, n), dir, target),
    decreases fields.len() - n,
{
    if n == fields.len() {
        assert(fields.subrange(0, n) =~= fields);
    } else {
        let next = fields.subrange(0, n + 1);
        assert(next.drop_last() =~= fields.subrange(0, n));
        lemma_assigns_error_stays(fields, dir, target, n + 1);
    }
}

/// Appends the routine for one target.
fn build_routine(out: &mut String, dir: Direction, name: &String, target: &PathParams, fields: &Vec<(String, FieldParams)>) -> (r: Result<(), (usize, usize, usize)>)
    ensures
        r is Ok <==> assigns_text(fields_view(fields@), dir, target@) is Ok,
        r is Ok ==> final(out)@ == old(out)@ + routine_text(dir, name@, target@, assigns_text(fields_view(fields@), dir, target@)->Ok_0),
        r matches Err(k) ==> assigns_text(fields_view(fields@), dir, target@) == Err::<Seq<char>, (int, int, int)>((k.0 as int, k.1 as int, k.2 as int)),
{
    let ghost start = out@;
    let p = &target.path;
    match dir {
        Direction::From => {
            push_text(out, "impl std::convert::From<");
            push_text(out, p.as_str());
            push_text(out, "> for ");
            push_text(out, name.as_str());
            push_text(out, " { fn from(this: ");
            push_text(out, p.as_str());
            push_text(out, ") -> Self { #[allow(clippy::needless_update)] ");
            push_text(out, name.as_str());
            push_text(out, " { ");
        },
        Direction::Into => {
            push_text(out, "impl std::convert::Into<");
            push_text(out, p.as_str());
            push_text(out, "> for ");
            push_text(out, name.as_str());
            push_text(out, " { fn into(self) -> ");
            push_text(out, p.as_str());
            push_text(out, " { let this = self; #[allow(clippy::needless_update)] ");
            push_text(out, p.as_str());
            push_text(out, " { ");
        },
    }
    let ghost head = out@;
    build_assigns(out, dir, target, fields)?;
    let ghost body = out@;
    if target.default {
        push_text(out, "..Default::default() ");
    }
    push_text(out, "} } } ");
    proof {
        let a = assigns_text(fields_view(fields@), dir, target@)->Ok_0;
        assert(out@ =~= start + routine_text(dir, name@, target@, a));
    }
    Ok(())
}

/// Appends the routines of one direction for each of its targets.
fn build_routines(out: &mut String, dir: Direction, params: &Params, targets: &Vec<PathParams>) -> (r: Result<(), (usize, usize, usize)>)
    ensures
        r is Ok <==> routines_text(params@, dir, params_view(targets@)) is Ok,
        r is Ok ==> final(out)@ == old(out)@ + routines_text(params@, dir, params_view(targets@))->Ok_0,
        r matches Err(k) ==> routines_text(params@, dir, params_view(targets@)) == Err::<Seq<char>, (int, int, int)>((k.0 as int, k.1 as int, k.2 as int)),
{
    let ghost start = out@;
    let ghost tv = params_view(targets@);
    let mut k: usize = 0;
    while k < targets.len()
        invariant
            k <= targets.len(),
            tv == params_view(targets@),
            routines_text(params@, dir, tv.subrange(0, k as int)) is Ok,
            out@ == start + routines_text(params@, dir, tv.subrange(0, k as int))->Ok_0,
        decreases targets.len() - k,
    {
        let ghost next = tv.subrange(0, k + 1);
        assert(next.drop_last() =~= tv.subrange(0, k as int));
        match build_routine(out, dir, &params.name, &targets[k], &params.fields) {
            Ok(()) => {},
            Err(e) => {
                proof {
                    lemma_routines_error_stays(params@, dir, tv, k + 1);
                }
                return Err(e);
            },
        }
        k = k + 1;
    }
    assert(tv.subrange(0, k as int) =~= tv);
    Ok(())
}

/// An error among the first `n` targets is the error of all of them.
proof fn lemma_routines_error_stays(p: ParamsV, dir: Direction, targets: Seq<PathParamsV>, n: int)
    requires
        0 <= n <= targets.len(),
        routines_text(p, dir, targets.subrange(0, n)) is Err,
    ensures
        routines_text(p, dir, targets) == routines_text(p, dir, targets.subrange(0, n)),
    decreases targets.len() - n,
{
    if n == targets.len() {
        assert(targets.subrange(0, n) =~= targets);
    } else {
        let next = targets.subrange(0, n + 1);
        assert(next.drop_last() =~= targets.subrange(0, n));
        lemma_routines_error_stays(p, dir, targets, n + 1);
    }
}

/// The error reported for a map expression that does not parse: its field,
/// and the attribute and token where its literal stands.
pub open spec fn expr_error(k: (int, int, int)) -> (ErrorKind, Option<int>, Option<int>, int) {
    (ErrorKind::BadExpression, Some(k.0), Some(k.1), k.2)
}

impl Params {
    /// The text of every conversion routine the configuration asks for: one
    /// `From` impl per FROM target, then one `Into` impl per INTO target.
    pub fn build(&self) -> (r: Result<String, ConfigError>)
        ensures
            r matches Ok(s) ==> build_spec(self@) == Ok::<Seq<char>, (int, int, int)>(s@),
            r matches Err(e) ==> build_spec(self@) is Err && crate::parse::err_of(e) == expr_error(
                build_spec(self@)->Err_0,
            ),
    {
        let mut out = String::new();
        match build_routines(&mut out, Direction::From, self, &self.from) {
            Ok(()) => {},
            Err(k) => {
                return Err(ConfigError { kind: ErrorKind::BadExpression, field: Some(k.0), attr: Some(k.1), at: k.2 });
            },
        }
        match build_routines(&mut out, Direction::Into, self, &self.into) {
            Ok(()) => {},
            Err(k) => {
                return Err(ConfigError { kind: ErrorKind::BadExpression, field: Some(k.0), attr: Some(k.1), at: k.2 });
            },
        }
        assert(out@ =~= build_spec(self@)->Ok_0);
        Ok(out)
    }
}

/// What a declaration generates: the routines' text, or the first error.
pub open spec fn generate_spec(d: RecordDecl) -> Result<Seq<char>, (ErrorKind, Option<int>, Option<int>, int)> {
    match params_spec(d) {
        Err(e) => Err(e),
        Ok(p) => match build_spec(p) {
            Err(k) => Err(expr_error(k)),
            Ok(s) => Ok(s),
        },
    }
}

/// Reads a declaration and emits its conversion routines.
pub fn build_impl(input: &RecordDecl) -> (r: Result<String, ConfigError>)
    requires
        decl_fits(*input),
    ensures
        r matches Ok(s) ==> generate_spec(*input) == Ok::<Seq<char>, (ErrorKind, Option<int>, Option<int>, int)>(s@),
        r matches Err(e) ==> generate_spec(*input) == Err::<Seq<char>, (ErrorKind, Option<int>, Option<int>, int)>(
            crate::parse::err_of(e),
        ),
{
    let params = parse_params(input)?;
    params.build()
}

/// A field with no override is assigned by the rule of its shape, in both
/// directions: a field declared without attributes gets the shape of its
/// type and no override, and then reads the same-named field and converts
/// it as its shape prescribes. (A FROM target with `wrap_option` is itself
/// an override of the optional fields, and is left out.)
pub proof fn law_shape_default(f: FieldDecl, target: PathParamsV)
    requires
        f.attrs@.len() == 0,
        !(target.wrap_option && shape_of(f.ty) == AdditionalType::Optional),
    ensures
        field_spec(f) == Ok::<FieldParamsV, (ErrorKind, int, int)>(fresh_params(shape_of(f.ty))),
        from_assign(f.name@, fresh_params(shape_of(f.ty)), target) == Assign::Convert(
            f.name@,
            f.name@,
            shape_of(f.ty),
        ),
        into_assign(f.name@, fresh_params(shape_of(f.ty)), target) == Assign::Convert(
            f.name@,
            f.name@,
            shape_of(f.ty),
        ),
        assign_text(Assign::Convert(f.name@, f.name@, shape_of(f.ty))) == Some(
            f.name@ + ": this."@ + f.name@ + convert_suffix(shape_of(f.ty)),
        ),
{
}

/// Round trip: for a target registered in both directions, a field with no
/// skip, map, wrap or unwrap for it, and one name for it in both directions,
/// is written into the target's field from the record's field, and written
/// back into the record's field from that same target field, by the same
/// shape rule.
pub proof fn law_round_trip(field: Seq<char>, fp: FieldParamsV, target: PathParamsV)
    requires
        !flag_on(fp.skip, Direction::From, target.path),
        !flag_on(fp.skip, Direction::Into, target.path),
        fp.map.resolve(Direction::From, target.path) is None,
        fp.map.resolve(Direction::Into, target.path) is None,
        !flag_on(fp.unwrap, Direction::From, target.path),
        !flag_on(fp.unwrap, Direction::Into, target.path),
        !flag_on(fp.wrap, Direction::From, target.path),
        !target.wrap_option,
        fp.rename.resolve(Direction::From, target.path) == fp.rename.resolve(
            Direction::Into,
            target.path,
        ),
    ensures
        ({
            let other = renamed(field, fp, Direction::Into, target.path);
            &&& into_assign(field, fp, target) == Assign::Convert(other, field, fp.a_type)
            &&& from_assign(field, fp, target) == Assign::Convert(field, other, fp.a_type)
        }),
{
}

/// The value an override takes for a direction and target, tier by tier:
/// the target-specific value, else the direction-wide one, else the common one.
pub open spec fn layered<V>(o: OverrideView<V>, dir: Direction, target: Seq<char>) -> Option<V> {
    if o.target_specific(dir, target) is Some {
        o.target_specific(dir, target)
    } else if o.direction_common(dir) is Some {
        o.direction_common(dir)
    } else {
        o.common
    }
}

/// Precedence in the emitted routines: for every override kind, the value
/// that decides a field's assignment for a direction and target is the
/// target-specific one, else the direction-wide one, else the common one,
/// whatever order the attributes were written in.
pub proof fn law_precedence_in_assignments(field: Seq<char>, fp: FieldParamsV, dir: Direction, target: Seq<char>)
    ensures
        renamed(field, fp, dir, target) == match layered(fp.rename, dir, target) {
            Some(n) => n,
            None => field,
        },
        fp.map.resolve(dir, target) == layered(fp.map, dir, target),
        flag_on(fp.skip, dir, target) == (layered(fp.skip, dir, target) == Some(true)),
        flag_on(fp.unwrap, dir, target) == (layered(fp.unwrap, dir, target) == Some(true)),
        flag_on(fp.wrap, dir, target) == (layered(fp.wrap, dir, target) == Some(true)),
{
}

/// A skipped field: with the target's default-fill tail it gets no
/// assignment, and the routine ends with `..Default::default()`; without
/// it the field is assigned `Default::default()` explicitly (under the
/// target's name for it, INTO) and the routine has no tail.
pub proof fn law_skip(
    dir: Direction,
    name: Seq<char>,
    field: Seq<char>,
    fp: FieldParamsV,
    target: PathParamsV,
    assigns: Seq<char>,
)
    requires
        flag_on(fp.skip, dir, target.path),
    ensures
        target.default ==> assign_text(assign_for(dir, field, fp, target)) == Some(Seq::<char>::empty()),
        !target.default ==> assign_text(assign_for(dir, field, fp, target)) == Some(
            (match dir {
                Direction::From => field,
                Direction::Into => renamed(field, fp, dir, target.path),
            }) + ": Default::default(), "@,
        ),
        routine_text(dir, name, target, assigns) == routine_head(dir, name, target) + assigns + (
        if target.default {
            "..Default::default() "@
        } else {
            Seq::<char>::empty()
        }) + "} } } "@,
{
}

} // verus!
