//! Lookups that this library leaves to other code: the English names of
//! ISO 639-1 language codes, and lowercasing.
use vstd::prelude::*;

verus! {

/// The English name of the language with the given two-letter ISO 639-1
/// code, if the code is known.
pub uninterp spec fn iso639_1_name(code: Seq<char>) -> Option<Seq<char>>;

/// The Unicode lowercase form of a string.
pub uninterp spec fn lower_of(s: Seq<char>) -> Seq<char>;

/// Relies on `isolang::Language::from_639_1`, which finds the language of a
/// two-letter code (none for a code whose length in bytes is not two), and
/// on `Language::to_name`, which gives that language's English name.
#[verifier::external_body]
pub(crate) fn language_name(code: &str) -> (r: Option<String>)
    ensures
        match r {
            Some(name) => iso639_1_name(code@) == Some(name@),
            None => iso639_1_name(code@) is None,
        },
        code@.len() == 0 || code@.len() > 2 ==> r is None,
{
    match isolang::Language::from_639_1(code) {
        Some(l) => Some(l.to_name().to_string()),
        None => None,
    }
}

/// Relies on `str::to_lowercase`, whose result depends on the characters of
/// its argument alone.
#[verifier::external_body]
pub(crate) fn lowercase(s: &str) -> (r: String)
    ensures
        r@ == lower_of(s@),
{
    s.to_lowercase()
}

} // verus!
