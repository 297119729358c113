use vstd::prelude::*;

use crate::text::text_is;

verus! {

/// A field's declared type, as far as shape classification reads it.
#[derive(Debug)]
pub enum TypeExpr {
    /// A path type such as `Option<Vec<u8>>`: the name of its first segment
    /// and the generic arguments written on that segment.
    Path { head: String, args: Vec<GenericArg> },
    /// Any type that is not a path (a reference, a tuple, a slice, ...).
    Other,
}

/// One generic argument of a path segment.
#[derive(Debug)]
pub enum GenericArg {
    Type(TypeExpr),
    /// A lifetime, a constant or an associated-type binding.
    NonType,
}

/// The shape of a field's type: how its value is carried across a conversion.
#[derive(Clone, Copy, Debug, PartialEq, Eq, Structural)]
pub enum AdditionalType {
    /// Converted by one `into` call.
    Plain,
    /// `Option<T>`
    Optional,
    /// `Option<Vec<T>>`
    OptionalOfCollection,
    /// `Vec<T>`
    Collection,
    /// `Vec<Option<T>>`
    CollectionOfOptional,
}

pub open spec fn option_name() -> Seq<char> {
    seq!['O', 'p', 't', 'i', 'o', 'n']
}

pub open spec fn vec_name() -> Seq<char> {
    seq!['V', 'e', 'c']
}

/// The argument `A` when `t` is `name<A>` with exactly one argument, a type.
pub open spec fn sole_type_arg(t: TypeExpr, name: Seq<char>) -> Option<TypeExpr> {
    match t {
        TypeExpr::Path { head, args } => {
            if head@ == name && args@.len() == 1 && args@[0] is Type {
                Some(args@[0]->Type_0)
            } else {
                None
            }
        },
        TypeExpr::Other => None,
    }
}

/// Classification one level deep: only the outer wrapper is looked at.
pub open spec fn shallow_shape(t: TypeExpr) -> AdditionalType {
    if sole_type_arg(t, option_name()) is Some {
        AdditionalType::Optional
    } else if sole_type_arg(t, vec_name()) is Some {
        AdditionalType::Collection
    } else {
        AdditionalType::Plain
    }
}

/// The shape of a field type: the outer wrapper and, one level down, the
/// wrapper of its argument; what lies below that is not looked at (so
/// `Option<Vec<Option<T>>>` is `OptionalOfCollection`). A combination with
/// no shape of its own (`Option<Option<T>>`, `Vec<Vec<T>>`) is `Plain`.
pub open spec fn shape_of(t: TypeExpr) -> AdditionalType {
    match sole_type_arg(t, option_name()) {
        Some(inner) => match shallow_shape(inner) {
            AdditionalType::Plain => AdditionalType::Optional,
            AdditionalType::Collection => AdditionalType::OptionalOfCollection,
            _ => AdditionalType::Plain,
        },
        None => match sole_type_arg(t, vec_name()) {
            Some(inner) => match shallow_shape(inner) {
                AdditionalType::Plain => AdditionalType::Collection,
                AdditionalType::Optional => AdditionalType::CollectionOfOptional,
                _ => AdditionalType::Plain,
            },
            None => AdditionalType::Plain,
        },
    }
}

impl AdditionalType {
    pub fn is_option(self) -> (r: bool)
        ensures
            r == (self == AdditionalType::Optional),
    {
        matches!(self, AdditionalType::Optional)
    }

    pub fn is_option_vec(self) -> (r: bool)
        ensures
            r == (self == AdditionalType::OptionalOfCollection),
    {
        matches!(self, AdditionalType::OptionalOfCollection)
    }

    pub fn is_vec(self) -> (r: bool)
        ensures
            r == (self == AdditionalType::Collection),
    {
        matches!(self, AdditionalType::Collection)
    }

    pub fn is_vec_option(self) -> (r: bool)
        ensures
            r == (self == AdditionalType::CollectionOfOptional),
    {
        matches!(self, AdditionalType::CollectionOfOptional)
    }
}

/// Classifies `ty`; at `recurse` 0 it looks through two wrappers, above 0
/// through the outer one only.
pub fn detect_type_for_serviced(ty: &TypeExpr, recurse: u64) -> (r: AdditionalType)
    ensures
        recurse == 0 ==> r == shape_of(*ty),
        recurse > 0 ==> r == shallow_shape(*ty),
    decreases (if recurse == 0 { 3int } else { 1int }),
{
    proof {
        reveal_strlit("Option");
        reveal_strlit("Vec");
        assert("Option"@ =~= option_name());
        assert("Vec"@ =~= vec_name());
    }
    match ty {
        TypeExpr::Path { head, args } => {
            if text_is(head, "Option") {
                let (supported, inner) = is_support_type_for_serviced(args, recurse);
                if supported && inner == AdditionalType::Plain {
                    return AdditionalType::Optional;
                }
                if supported && inner == AdditionalType::Collection && recurse == 0 {
                    return AdditionalType::OptionalOfCollection;
                }
            } else if text_is(head, "Vec") {
                let (supported, inner) = is_support_type_for_serviced(args, recurse);
                if supported && inner == AdditionalType::Plain {
                    return AdditionalType::Collection;
                }
                if supported && inner == AdditionalType::Optional && recurse == 0 {
                    return AdditionalType::CollectionOfOptional;
                }
            }
            AdditionalType::Plain
        },
        TypeExpr::Other => AdditionalType::Plain,
    }
}

/// Whether `args` is a single type argument, and the shape of that argument
/// one level deep (`Plain` once the depth cap is reached).
fn is_support_type_for_serviced(args: &Vec<GenericArg>, recurse: u64) -> (r: (bool, AdditionalType))
    ensures
        r.0 == (args@.len() == 1 && args@[0] is Type),
        r.0 && recurse == 0 ==> r.1 == shallow_shape(args@[0]->Type_0),
        recurse > 0 ==> r.1 == AdditionalType::Plain,
        !r.0 ==> r.1 == AdditionalType::Plain,
    decreases (if recurse == 0 { 2int } else { 0int }),
{
    if args.len() == 1 {
        match &args[0] {
            GenericArg::Type(ty) => {
                if recurse < 1 {
                    return (true, detect_type_for_serviced(ty, 1));
                }
                return (true, AdditionalType::Plain);
            },
            GenericArg::NonType => {},
        }
    }
    (false, AdditionalType::Plain)
}

} // verus!
