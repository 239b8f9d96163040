//! Generic-parameter fragments of a trait or a signature.
//!
//! The transforms only splice these fragments into the generated text, so
//! they are carried as rendered text: the declared lifetimes, the used
//! lifetimes, the declared type parameters, the used type parameters, and
//! the `where` bounds.

use vstd::prelude::*;

verus! {

/// Rendered generic-parameter fragments.
pub struct ParsedGenerics {
    /// Declared lifetimes, each followed by a comma (`'a, `).
    pub life_declare: String,
    /// Used lifetimes, each followed by a comma.
    pub life_use: String,
    /// Declared type parameters, each followed by a comma.
    pub gen_declare: String,
    /// Used type parameters, each followed by a comma.
    pub gen_use: String,
    /// `where` bounds, each followed by a comma.
    pub gen_where_bounds: String,
}

/// Spec-level mirror of [`ParsedGenerics`].
#[verifier::ext_equal]
pub struct ParsedGenericsV {
    pub life_declare: Seq<char>,
    pub life_use: Seq<char>,
    pub gen_declare: Seq<char>,
    pub gen_use: Seq<char>,
    pub gen_where_bounds: Seq<char>,
}

impl View for ParsedGenerics {
    type V = ParsedGenericsV;

    open spec fn view(&self) -> ParsedGenericsV {
        ParsedGenericsV {
            life_declare: self.life_declare@,
            life_use: self.life_use@,
            gen_declare: self.gen_declare@,
            gen_use: self.gen_use@,
            gen_where_bounds: self.gen_where_bounds@,
        }
    }
}

impl ParsedGenerics {
    /// Fragments of an empty generics list.
    pub fn empty() -> (r: ParsedGenerics)
        ensures
            r@.life_declare == ""@,
            r@.life_use == ""@,
            r@.gen_declare == ""@,
            r@.gen_use == ""@,
            r@.gen_where_bounds == ""@,
    {
        ParsedGenerics {
            life_declare: crate::strutil::empty_string(),
            life_use: crate::strutil::empty_string(),
            gen_declare: crate::strutil::empty_string(),
            gen_use: crate::strutil::empty_string(),
            gen_where_bounds: crate::strutil::empty_string(),
        }
    }

    /// A copy with the same fragments.
    pub fn copy(&self) -> (r: ParsedGenerics)
        ensures
            r@ == self@,
    {
        ParsedGenerics {
            life_declare: self.life_declare.clone(),
            life_use: self.life_use.clone(),
            gen_declare: self.gen_declare.clone(),
            gen_use: self.gen_use.clone(),
            gen_where_bounds: self.gen_where_bounds.clone(),
        }
    }
}

} // verus!
