//! The quote model: the kind and direction of a quotation mark, the total
//! bijection between well-formed quote values and the six recognized
//! characters, and the direction-resolution heuristic.

use vstd::prelude::*;

verus! {

/// Whether a quotation mark opens or closes a quotation.
#[derive(Debug, Copy, Clone, PartialEq, Eq, Structural)]
pub enum QuoteDirection {
    Open,
    Closed,
}

/// Whether a quotation mark is single or double.
#[derive(Debug, Copy, Clone, PartialEq, Eq, Structural)]
pub enum QuoteKind {
    Single,
    Double,
}

/// A quotation mark: its kind, and its direction where the character is
/// curly. A straight character (`'` or `"`) carries no direction.
#[derive(Debug, Copy, Clone, PartialEq, Eq)]
pub struct Quote {
    pub direction: Option<QuoteDirection>,
    pub kind: QuoteKind,
}

/// Whether `c`, standing just before a straight quote, makes that quote
/// open: whitespace and opening brackets do.
pub open spec fn is_opening_context(c: char) -> bool {
    c == ' ' || c == '\t' || c == '\n' || c == '(' || c == '[' || c == '{' || c == '\u{27e8}'
}

/// The direction a straight quote takes, given the raw input character
/// just before it (`None` at the very start of the text, which opens).
pub open spec fn spec_direction(prev: Option<char>) -> QuoteDirection {
    match prev {
        None => QuoteDirection::Open,
        Some(c) => if is_opening_context(c) {
            QuoteDirection::Open
        } else {
            QuoteDirection::Closed
        },
    }
}

/// Classification of a single character: a `Quote` value for each of the
/// six recognized characters, `None` for ordinary text. Total: no
/// character is an error.
pub open spec fn spec_classify(c: char) -> Option<Quote> {
    if c == '\'' {
        Some(Quote { direction: None, kind: QuoteKind::Single })
    } else if c == '"' {
        Some(Quote { direction: None, kind: QuoteKind::Double })
    } else if c == '\u{2018}' {
        Some(Quote { direction: Some(QuoteDirection::Open), kind: QuoteKind::Single })
    } else if c == '\u{2019}' {
        Some(Quote { direction: Some(QuoteDirection::Closed), kind: QuoteKind::Single })
    } else if c == '\u{201c}' {
        Some(Quote { direction: Some(QuoteDirection::Open), kind: QuoteKind::Double })
    } else if c == '\u{201d}' {
        Some(Quote { direction: Some(QuoteDirection::Closed), kind: QuoteKind::Double })
    } else {
        None
    }
}

/// Rendering of a quote value: the one character of the six that carries
/// this kind and direction. Total over well-formed values.
pub open spec fn spec_render(q: Quote) -> char {
    match (q.direction, q.kind) {
        (None, QuoteKind::Single) => '\'',
        (None, QuoteKind::Double) => '"',
        (Some(QuoteDirection::Open), QuoteKind::Single) => '\u{2018}',
        (Some(QuoteDirection::Closed), QuoteKind::Single) => '\u{2019}',
        (Some(QuoteDirection::Open), QuoteKind::Double) => '\u{201c}',
        (Some(QuoteDirection::Closed), QuoteKind::Double) => '\u{201d}',
    }
}

impl QuoteDirection {
    /// The direction a straight quote takes, from the raw input character
    /// just before it; `None` (start of text) opens, as do whitespace and
    /// opening brackets. Single and double quotes share this rule.
    pub fn from_previous(prev: Option<char>) -> (d: Self)
        ensures
            d == spec_direction(prev),
    {
        match prev {
            Some(c) => match c {
                ' ' | '\t' | '\n' | '(' | '[' | '{' | '\u{27e8}' => QuoteDirection::Open,
                _ => QuoteDirection::Closed,
            },
            None => QuoteDirection::Open,
        }
    }
}

impl Quote {
    /// A quote value with the given direction and kind.
    pub fn new(direction: Option<QuoteDirection>, kind: QuoteKind) -> (q: Self)
        ensures
            q.direction == direction,
            q.kind == kind,
    {
        Quote { direction, kind }
    }

    /// Classifies one character: `Some` exactly on the six recognized
    /// quote characters, `None` on every other character.
    pub fn from_char(c: char) -> (q: Option<Self>)
        ensures
            q == spec_classify(c),
    {
        match c {
            '\'' => Some(Quote::new(None, QuoteKind::Single)),
            '"' => Some(Quote::new(None, QuoteKind::Double)),
            '\u{2018}' => Some(Quote::new(Some(QuoteDirection::Open), QuoteKind::Single)),
            '\u{2019}' => Some(Quote::new(Some(QuoteDirection::Closed), QuoteKind::Single)),
            '\u{201c}' => Some(Quote::new(Some(QuoteDirection::Open), QuoteKind::Double)),
            '\u{201d}' => Some(Quote::new(Some(QuoteDirection::Closed), QuoteKind::Double)),
            _ => None,
        }
    }

    /// Renders this quote value as its one character.
    pub fn to_char(&self) -> (c: char)
        ensures
            c == spec_render(*self),
    {
        match (self.direction, self.kind) {
            (None, QuoteKind::Single) => '\'',
            (None, QuoteKind::Double) => '"',
            (Some(QuoteDirection::Open), QuoteKind::Single) => '\u{2018}',
            (Some(QuoteDirection::Closed), QuoteKind::Single) => '\u{2019}',
            (Some(QuoteDirection::Open), QuoteKind::Double) => '\u{201c}',
            (Some(QuoteDirection::Closed), QuoteKind::Double) => '\u{201d}',
        }
    }
}

/// Law: classification followed by rendering gives back the classified
/// character itself, for every character that classifies at all; in
/// particular the rendered character has the same kind and direction.
pub proof fn lemma_render_after_classify(c: char)
    ensures
        (match spec_classify(c) {
            Some(q) => spec_render(q) == c,
            None => true,
        }),
{
}

/// Law: rendering followed by classification recovers the quote value
/// exactly: the mapping between well-formed quote values and the six
/// recognized characters is a bijection.
pub proof fn lemma_classify_after_render(q: Quote)
    ensures
        spec_classify(spec_render(q)) == Some(q),
{
}

/// Law: classification is total, and succeeds exactly on the six
/// recognized quote characters; every other character is ordinary text,
/// never an error.
pub proof fn lemma_classify_total(c: char)
    ensures
        spec_classify(c) is Some <==> (c == '\'' || c == '"' || c == '\u{2018}' || c
            == '\u{2019}' || c == '\u{201c}' || c == '\u{201d}'),
{
}

} // verus!
