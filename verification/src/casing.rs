use vstd::prelude::*;

verus! {

/// The two identifier styles that the generated Dart code uses.
#[derive(Clone, Copy, Debug, PartialEq, Eq, Structural)]
pub enum TextCase {
    /// `lowerCamelCase`, for fields, methods and enum values.
    Camel,
    /// `UpperCamelCase`, for the parts of class and method names.
    Pascal,
}

/// What `convert_case` makes of `text` in the style `case`: the words of
/// `text` (split at its default boundaries) joined without delimiter, each
/// capitalised, the first one in lower case for `Camel`.
pub uninterp spec fn case_converted(text: Seq<char>, case: TextCase) -> Seq<char>;

/// Converts `text` to `case` with `convert_case::Casing::to_case`.
/// The contract only ties the result to the name `case_converted` of the
/// text and the style: the word splitting itself is not stated here.
#[verifier::external_body]
pub(crate) fn to_case(text: &str, case: TextCase) -> (res: String)
    ensures
        res@ == case_converted(text@, case),
{
    let case = match case {
        TextCase::Camel => convert_case::Case::Camel,
        TextCase::Pascal => convert_case::Case::Pascal,
    };
    convert_case::Casing::to_case(&text, case)
}

/// `lowerCamelCase` form of `text`.
pub open spec fn camel(text: Seq<char>) -> Seq<char> {
    case_converted(text, TextCase::Camel)
}

/// `UpperCamelCase` form of `text`.
pub open spec fn pascal(text: Seq<char>) -> Seq<char> {
    case_converted(text, TextCase::Pascal)
}

} // verus!
