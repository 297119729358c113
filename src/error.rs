use vstd::prelude::*;

verus! {

/// What is wrong with a declaration or one of its `convert` attributes.
#[derive(Clone, Copy, Debug, PartialEq, Eq, Structural)]
pub enum ErrorKind {
    /// A record-level entry other than `from`, `into`, `from_into`, `into_from`.
    UnrecognizedConvert,
    /// A record-level option other than `default` and `wrap_option`.
    UnknownValue,
    /// A field-level entry, or a nested form of one, that is not recognised.
    UnknownField,
    /// A `convert` attribute that is not a parenthesized list.
    NotList,
    ExpectedIdent,
    ExpectedPath,
    ExpectedParen,
    ExpectedEq,
    ExpectedComma,
    ExpectedLiteral,
    /// Tokens left over where a group should have ended.
    Unexpected,
    /// A map expression that is not a string literal holding an expression.
    BadExpression,
    UnnamedStruct,
    UnitStruct,
    EnumInput,
    UnionInput,
}

/// The diagnostic text of each kind of error.
pub open spec fn message_text(k: ErrorKind) -> Seq<char> {
    match k {
        ErrorKind::UnrecognizedConvert => "unrecognized convert"@,
        ErrorKind::UnknownValue => "unknown value"@,
        ErrorKind::UnknownField => "unknown field"@,
        ErrorKind::NotList => "expected attribute arguments in parentheses: #[convert(...)]"@,
        ErrorKind::ExpectedIdent => "expected identifier"@,
        ErrorKind::ExpectedPath => "expected a type path"@,
        ErrorKind::ExpectedParen => "expected parentheses"@,
        ErrorKind::ExpectedEq => "expected `=`"@,
        ErrorKind::ExpectedComma => "expected `,`"@,
        ErrorKind::ExpectedLiteral => "expected a string literal"@,
        ErrorKind::Unexpected => "unexpected token"@,
        ErrorKind::BadExpression => "map expression is not a valid expression"@,
        ErrorKind::UnnamedStruct => "unnamed struct is not currently supported"@,
        ErrorKind::UnitStruct => "unit is not currently supported"@,
        ErrorKind::EnumInput => "enum is not currently supported"@,
        ErrorKind::UnionInput => "union is not currently supported"@,
    }
}

impl ErrorKind {
    /// The diagnostic text for this kind of error.
    pub fn message(self) -> (r: String)
        ensures
            r@ == message_text(self),
    {
        let text = match self {
            ErrorKind::UnrecognizedConvert => "unrecognized convert",
            ErrorKind::UnknownValue => "unknown value",
            ErrorKind::UnknownField => "unknown field",
            ErrorKind::NotList => "expected attribute arguments in parentheses: #[convert(...)]",
            ErrorKind::ExpectedIdent => "expected identifier",
            ErrorKind::ExpectedPath => "expected a type path",
            ErrorKind::ExpectedParen => "expected parentheses",
            ErrorKind::ExpectedEq => "expected `=`",
            ErrorKind::ExpectedComma => "expected `,`",
            ErrorKind::ExpectedLiteral => "expected a string literal",
            ErrorKind::Unexpected => "unexpected token",
            ErrorKind::BadExpression => "map expression is not a valid expression",
            ErrorKind::UnnamedStruct => "unnamed struct is not currently supported",
            ErrorKind::UnitStruct => "unit is not currently supported",
            ErrorKind::EnumInput => "enum is not currently supported",
            ErrorKind::UnionInput => "union is not currently supported",
        };
        String::from_str(text)
    }
}

/// An error and where it arose: the field (none for the record itself);
/// the index of the attribute among that field's or the record's attributes,
/// none where the error is about the item's kind and stands at its
/// `struct`, `enum` or `union` keyword; and the index of the offending token
/// in that attribute.
#[derive(Clone, Copy, Debug, PartialEq, Eq)]
pub struct ConfigError {
    pub kind: ErrorKind,
    pub field: Option<usize>,
    pub attr: Option<usize>,
    pub at: usize,
}

} // verus!
