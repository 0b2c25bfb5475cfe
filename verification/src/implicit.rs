//! The context-inferring quote converter: a single left-to-right scan
//! that turns straight quotes into directional curly quotes, elides
//! already-curly quotes, and honors a backslash escape marker.

use vstd::prelude::*;

verus! {

use crate::buffer::chars_to_string;
use crate::quote::{Quote, QuoteDirection, spec_classify, spec_direction, spec_render};

/// Whether the given character is the backslash escape marker.
pub open spec fn spec_escaped(prev: Option<char>) -> bool {
    prev == Some('\\')
}

/// Whether the given character is the backslash escape marker.
pub fn is_escaped(prev: Option<char>) -> (r: bool)
    ensures
        r == spec_escaped(prev),
{
    match prev {
        Some(c) => c == '\\',
        None => false,
    }
}

/// The last character of `buf`, or `None` when `buf` is empty.
pub open spec fn last_emitted(buf: Seq<char>) -> Option<char> {
    if buf.len() > 0 {
        Some(buf.last())
    } else {
        None
    }
}

/// One step of the implicit scan: how the output buffer changes when the
/// character `c` arrives, with `prev` the raw input character just before
/// it.
///
/// * An already-curly quote is elided (the policy chosen here; the
///   alternative would pass it through).
/// * A straight quote whose previously *emitted* character is a backslash
///   stays straight: the speculatively emitted backslash is retracted and
///   the quote itself emitted.
/// * Any other straight quote is emitted curly, its direction resolved
///   from `prev`.
/// * An ordinary character is emitted unchanged.
pub open spec fn implicit_step(buf: Seq<char>, prev: Option<char>, c: char) -> Seq<char> {
    match spec_classify(c) {
        Some(q) => match q.direction {
            Some(_) => buf,
            None => if spec_escaped(last_emitted(buf)) {
                buf.drop_last().push(c)
            } else {
                buf.push(
                    spec_render(Quote { direction: Some(spec_direction(prev)), kind: q.kind }),
                )
            },
        },
        None => buf.push(c),
    }
}

/// The implicit converter's output on the first `n` characters of `s`:
/// each step sees as `prev` the raw input character before it — always the
/// raw character, even where that character was itself elided or escaped.
pub open spec fn spec_implicit_prefix(s: Seq<char>, n: int) -> Seq<char>
    decreases n,
{
    if n <= 0 {
        Seq::empty()
    } else {
        let prev: Option<char> = if n == 1 {
            None
        } else {
            Some(s[n - 2])
        };
        implicit_step(spec_implicit_prefix(s, n - 1), prev, s[n - 1])
    }
}

/// The implicit converter's output on the whole of `s`.
pub open spec fn spec_implicit(s: Seq<char>) -> Seq<char> {
    spec_implicit_prefix(s, s.len() as int)
}

/// Context-sensitive quote conversion: scans the input once, left to
/// right, converting each straight quote to the curly quote of the same
/// kind whose direction the character before it implies; already-curly
/// quotes are elided; a straight quote preceded by an emitted backslash
/// keeps its straight form, with the backslash removed. Empty input gives
/// empty output, and a quote at the very start of the text opens.
pub fn smart_quotes_implicit(input: &str) -> (res: String)
    ensures
        res@ == spec_implicit(input@),
{
    let n: usize = input.unicode_len();
    let mut buf: Vec<char> = Vec::new();
    let mut prev: Option<char> = None;
    let mut i: usize = 0;
    while i < n
        invariant
            n == input@.len(),
            i <= n,
            buf@ == spec_implicit_prefix(input@, i as int),
            prev == (if i == 0 {
                None::<char>
            } else {
                Some(input@[i as int - 1])
            }),
        decreases n - i,
    {
        let ghost old_buf = buf@;
        let c = input.get_char(i);
        match Quote::from_char(c) {
            Some(q) => {
                match q.direction {
                    Some(_) => {
                        // already curly: elided
                    },
                    None => {
                        let last: Option<char> = if buf.len() > 0 {
                            Some(buf[buf.len() - 1])
                        } else {
                            None
                        };
                        if is_escaped(last) {
                            buf.pop();
                            buf.push(c);
                            proof {
                                assert(buf@ =~= old_buf.drop_last().push(c));
                            }
                        } else {
                            let direction = QuoteDirection::from_previous(prev);
                            let converted = Quote::new(Some(direction), q.kind);
                            buf.push(converted.to_char());
                        }
                    },
                }
            },
            None => {
                buf.push(c);
            },
        }
        proof {
            assert(buf@ == implicit_step(old_buf, prev, c));
            assert(buf@ == spec_implicit_prefix(input@, i as int + 1));
        }
        prev = Some(c);
        i = i + 1;
    }
    chars_to_string(&buf)
}

} // verus!
