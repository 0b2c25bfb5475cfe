//! Typographic text transformer: rewrites plain ASCII punctuation
//! (straight quotes, repeated hyphens, repeated periods) into typeset
//! equivalents (directional curly quotes, en/em dashes, the ellipsis
//! character).
//!
//! Two mutually exclusive quote converters share a common post-pass:
//!
//! * [`implicit::smart_quotes_implicit`] infers each quote's direction
//!   from the character before it;
//! * [`explicit::smart_quotes_explicit`] translates LaTeX-style
//!   backtick/apostrophe markers by fixed substitution;
//! * [`collapse::collapse_punctuation`] then collapses hyphen and period
//!   runs into dashes and the ellipsis.
//!
//! [`transform`] runs the whole pipeline.

pub mod buffer;
pub mod collapse;
pub mod explicit;
pub mod implicit;
pub mod quote;

use vstd::prelude::*;

verus! {

use crate::collapse::{collapse_punctuation, spec_collapse};
use crate::explicit::{smart_quotes_explicit, spec_explicit};
use crate::implicit::{smart_quotes_implicit, spec_implicit};

/// The whole pipeline: one of the two quote converters, chosen by
/// `explicit_mode` (the context-inferring converter is the default,
/// `explicit_mode == false`), followed by the punctuation collapser.
pub fn transform(input: &str, explicit_mode: bool) -> (res: String)
    ensures
        explicit_mode ==> res@ == spec_collapse(spec_explicit(input@)),
        !explicit_mode ==> res@ == spec_collapse(spec_implicit(input@)),
{
    let converted = if explicit_mode {
        smart_quotes_explicit(input)
    } else {
        smart_quotes_implicit(input)
    };
    collapse_punctuation(converted.as_str())
}

} // verus!
