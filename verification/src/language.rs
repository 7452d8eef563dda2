//! The target-language families a configuration can be written for.

use vstd::prelude::*;
use crate::text::same_text;

verus! {

/// A family of target languages. Each has its own set of log parsers, its
/// own image settings and its own recipe.
#[derive(Clone, Copy, Debug, PartialEq, Eq, Structural)]
pub enum LanguageFamily {
    JavaScript,
    CFamily,
    Rust,
}

/// The selector that names the Rust family.
pub const RUST_NAME: &'static str = "Rust";

/// The selector that names the C and C++ family.
pub const C_FAMILY_NAME: &'static str = "C/CPP";

/// The family a selector names. Every selector but the two named ones
/// stands for JavaScript.
pub open spec fn family_of(language: Seq<char>) -> LanguageFamily {
    if language == RUST_NAME@ {
        LanguageFamily::Rust
    } else if language == C_FAMILY_NAME@ {
        LanguageFamily::CFamily
    } else {
        LanguageFamily::JavaScript
    }
}

impl LanguageFamily {
    /// Reads a selector, once, at the boundary.
    pub fn from_name(language: &str) -> (family: LanguageFamily)
        ensures
            family == family_of(language@),
    {
        if same_text(language, RUST_NAME) {
            LanguageFamily::Rust
        } else if same_text(language, C_FAMILY_NAME) {
            LanguageFamily::CFamily
        } else {
            LanguageFamily::JavaScript
        }
    }
}

} // verus!
